//! What becomes of a socket, event by event and over its whole life.

use vstd::prelude::*;
use crate::gateway::events::presence::wanted_status;
use crate::gateway::payload::PayloadView;
use crate::gateway::session::{
    acknowledgement, advanced, hello, invalid_session, lived, EffectView, EventView, SessionView,
};
use crate::json::JsonView;
use crate::laws::lookup::{lemma_found_after, lemma_found_in_nothing};
use crate::laws::presence::{lemma_report_names, reports};

verus! {

broadcast use {lemma_found_after, lemma_found_in_nothing};

/// Whether an effect is the only one of some effects that changes a status.
pub open spec fn only_change(list: Seq<EffectView>, change: EffectView) -> bool {
    list.contains(change) && forall|k: int|
        0 <= k < list.len() && (#[trigger] list[k]) is ChangePresence ==> list[k] == change
}

/// A client that is identified changes its own status, in its own rooms, by the data of its own
/// message: the status that is asked for is the one under `status` in the message.
pub proof fn lemma_own_data_counts(
    id: Seq<char>,
    rooms: Seq<Seq<char>>,
    payload: PayloadView,
    status: Seq<char>,
)
    requires
        payload.op == 3,
    ensures
        ({
            let (next, done) = advanced(
                SessionView::Talking(Some(id), rooms),
                EventView::Message(Some(payload)),
            );
            &&& next == SessionView::Talking(Some(id), rooms)
            &&& only_change(done, EffectView::ChangePresence(id, rooms, payload.d))
            &&& done.contains(EffectView::RecordDispatch("PRESENCE_UPDATE"@, id))
            &&& payload.d is Some && payload.d->0.field("status"@) == Some(JsonView::Text(status))
                ==> forall|k: int|
                0 <= k < done.len() && (#[trigger] done[k]) is ChangePresence ==> wanted_status(
                    done[k]->ChangePresence_2,
                ) == status
        }),
{
    let done = advanced(
        SessionView::Talking(Some(id), rooms),
        EventView::Message(Some(payload)),
    ).1;
    assert(done[2] == EffectView::ChangePresence(id, rooms, payload.d));
    assert(done[1] == EffectView::RecordDispatch("PRESENCE_UPDATE"@, id));
}

/// Two messages with different data lead to different changes of status.
pub proof fn lemma_data_tell_apart(
    id: Seq<char>,
    rooms: Seq<Seq<char>>,
    a: PayloadView,
    b: PayloadView,
    j: int,
    k: int,
)
    requires
        a.op == 3,
        b.op == 3,
        a.d != b.d,
        ({
            let x = advanced(
                SessionView::Talking(Some(id), rooms),
                EventView::Message(Some(a)),
            ).1;
            let y = advanced(
                SessionView::Talking(Some(id), rooms),
                EventView::Message(Some(b)),
            ).1;
            0 <= j < x.len() && 0 <= k < y.len() && x[j] is ChangePresence && y[k] is ChangePresence
        }),
    ensures
        ({
            let x = advanced(
                SessionView::Talking(Some(id), rooms),
                EventView::Message(Some(a)),
            ).1;
            let y = advanced(
                SessionView::Talking(Some(id), rooms),
                EventView::Message(Some(b)),
            ).1;
            x[j] != y[k]
        }),
{
    lemma_own_data_counts(id, rooms, a, Seq::empty());
    lemma_own_data_counts(id, rooms, b, Seq::empty());
}

/// Every message is counted once, first of all, with its kind and whoever is identified. A sign
/// of life is answered, and a request to identify is taken up; nothing else is answered, and no
/// message but that request changes what the socket is in.
pub proof fn lemma_messages_answered(
    user: Option<Seq<char>>,
    rooms: Seq<Seq<char>>,
    payload: PayloadView,
)
    ensures
        ({
            let (next, done) = advanced(
                SessionView::Talking(user, rooms),
                EventView::Message(Some(payload)),
            );
            &&& done.len() > 0
            &&& done[0] == EffectView::RecordInbound(payload.op, user)
            &&& forall|k: int| 1 <= k < done.len() ==> !((#[trigger] done[k]) is RecordInbound)
            &&& next == if payload.op == 2 {
                SessionView::Identifying(user, rooms)
            } else {
                SessionView::Talking(user, rooms)
            }
            &&& payload.op == 1 ==> done.len() == 2 && done[1] is Send && done[1]->Send_0.op == 11
                && done[1]->Send_0.d is None && done[1]->Send_0.s is None && done[1]->Send_0.t
                is None
            &&& payload.op == 2 ==> done.len() == 2 && done[1] is Identify
            &&& payload.op == 3 && user is None ==> done.len() == 1
            &&& payload.op < 1 || payload.op > 3 ==> done.len() == 1
            &&& forall|k: int|
                0 <= k < done.len() && (#[trigger] done[k]) is Send ==> payload.op == 1
            &&& forall|k: int|
                0 <= k < done.len() && (#[trigger] done[k]) is Identify ==> payload.op == 2
        }),
{
}

/// Once a client is identified, the socket hears of its rooms, is counted in them and is listed
/// under its id; the socket keeps both.
pub proof fn lemma_identified_joins(
    user: Option<Seq<char>>,
    rooms: Seq<Seq<char>>,
    id: Seq<char>,
    joined: Seq<Seq<char>>,
)
    ensures
        ({
            let (next, done) = advanced(
                SessionView::Identifying(user, rooms),
                EventView::Identified(Some((id, joined))),
            );
            &&& next == SessionView::Talking(Some(id), joined)
            &&& done.len() == 3
            &&& done.contains(EffectView::SubscribeRooms(joined))
            &&& done.contains(EffectView::JoinRooms(joined))
            &&& done.contains(EffectView::Register(id))
        }),
{
    let done = advanced(
        SessionView::Identifying(user, rooms),
        EventView::Identified(Some((id, joined))),
    ).1;
    assert(done[0] == EffectView::SubscribeRooms(joined));
    assert(done[1] == EffectView::JoinRooms(joined));
    assert(done[2] == EffectView::Register(id));
}

/// A client that could not be identified is told so before anything else is done, and the socket
/// is then left as it would have been had the client closed it.
pub proof fn lemma_refused_is_told(user: Option<Seq<char>>, rooms: Seq<Seq<char>>)
    ensures
        ({
            let (next, done) = advanced(
                SessionView::Identifying(user, rooms),
                EventView::Identified(None),
            );
            let (closed, rest) = advanced(SessionView::Talking(user, rooms), EventView::Ended);
            &&& next == closed
            &&& done.len() == rest.len() + 1
            &&& done[0] is Send
            &&& done[0]->Send_0.op == 9
            &&& done[0]->Send_0.d == Some(JsonView::Bool(false))
            &&& forall|k: int| 0 <= k < rest.len() ==> done[k + 1] == #[trigger] rest[k]
        }),
{
}

/// A socket whose client was identified drops what is closed of that user's sockets and looks up
/// where the user is a member; any other is counted out of its rooms and closed at once.
pub proof fn lemma_leaving(user: Option<Seq<char>>, rooms: Seq<Seq<char>>)
    ensures
        ({
            let (next, done) = advanced(SessionView::Talking(user, rooms), EventView::Ended);
            match user {
                Some(id) => {
                    &&& next == SessionView::Leaving(id, rooms)
                    &&& done.len() == 2
                    &&& done[0] == EffectView::Prune(id)
                    &&& done[1] == EffectView::FetchMemberships(id)
                },
                None => {
                    &&& next == SessionView::Closed
                    &&& ends_with_farewell(done, rooms)
                    &&& done.len() == 3
                },
            }
        }),
{
}

/// Whether effects end with the socket counted out of rooms, then counted out, then stopped.
pub open spec fn ends_with_farewell(done: Seq<EffectView>, rooms: Seq<Seq<char>>) -> bool {
    let n = done.len();
    &&& n >= 3
    &&& done[n - 3] == EffectView::UnsubscribeRooms(rooms)
    &&& done[n - 2] == EffectView::CountDisconnected
    &&& done[n - 1] == EffectView::StopTasks
}

/// When a user has left, the room of every guild that the user is a member of is told once, in
/// their order, that the user is unavailable; then the socket is counted out of its rooms.
pub proof fn lemma_departure_told(
    id: Seq<char>,
    rooms: Seq<Seq<char>>,
    guilds: Option<Seq<Seq<char>>>,
)
    ensures
        ({
            let (next, done) = advanced(
                SessionView::Leaving(id, rooms),
                EventView::Memberships(guilds),
            );
            let told = match guilds {
                Some(guilds) => guilds,
                None => Seq::empty(),
            };
            &&& next == SessionView::Closed
            &&& done.len() == told.len() + 3
            &&& forall|k: int|
                0 <= k < told.len() ==> {
                    &&& (#[trigger] done[k]) is Broadcast
                    &&& done[k]->Broadcast_0 == told[k]
                    &&& reports(done[k]->Broadcast_1, id, "UNAVAILABLE"@)
                }
            &&& ends_with_farewell(done, rooms)
        }),
{
    lemma_report_names(id, "UNAVAILABLE"@);
}

/// A socket begins without a user and without rooms once it was greeted; one that could not be
/// greeted is closed and counted out. What does not concern a socket leaves it as it is.
pub proof fn lemma_beginning(state: SessionView, event: EventView)
    ensures
        advanced(SessionView::Greeting, EventView::Greeted(true)) == (
            SessionView::Talking(None, Seq::empty()),
            seq![EffectView::StartTasks],
        ),
        advanced(SessionView::Greeting, EventView::Greeted(false)) == (
            SessionView::Closed,
            seq![EffectView::CountDisconnected],
        ),
        state is Closed || event is OtherFrame || event == EventView::Message(None) ==> advanced(
            state,
            event,
        ) == (state, Seq::<EffectView>::empty()),
        state is Talking && (event is Greeted || event is Identified || event is Memberships)
            ==> advanced(state, event) == (state, Seq::<EffectView>::empty()),
{
}

/// What a client is told when it is greeted, when it gives a sign of life, and when it could not
/// be identified.
pub proof fn lemma_fixed_answers()
    ensures
        hello().op == 10,
        hello().d is Some,
        hello().d->0.field("heartbeat_interval"@) == Some(JsonView::Int(30000)),
        hello().s is None && hello().t is None,
        acknowledgement().op == 11 && acknowledgement().d is None,
        invalid_session().op == 9 && invalid_session().d == Some(JsonView::Bool(false)),
        invalid_session().s is None && invalid_session().t is None,
{
}

/// The rooms that effects have last counted the socket in; none where they have not.
pub open spec fn last_rooms(done: Seq<EffectView>) -> Seq<Seq<char>>
    decreases done.len(),
{
    if done.len() == 0 {
        Seq::empty()
    } else if done.last() is SubscribeRooms {
        done.last()->SubscribeRooms_0
    } else {
        last_rooms(done.drop_last())
    }
}

/// The user under whom effects have last listed the socket.
pub open spec fn last_user(done: Seq<EffectView>) -> Option<Seq<char>>
    decreases done.len(),
{
    if done.len() == 0 {
        None
    } else if done.last() is Register {
        Some(done.last()->Register_0)
    } else {
        last_user(done.drop_last())
    }
}

/// Effects that neither count in nor list change nothing of what was last.
proof fn lemma_last_stays(done: Seq<EffectView>, more: Seq<EffectView>)
    requires
        forall|k: int|
            0 <= k < more.len() ==> !((#[trigger] more[k]) is SubscribeRooms) && !(
            more[k] is Register),
    ensures
        last_rooms(done + more) == last_rooms(done),
        last_user(done + more) == last_user(done),
    decreases more.len(),
{
    if more.len() == 0 {
        assert(done + more =~= done);
    } else {
        let shorter = more.drop_last();
        assert forall|k: int| 0 <= k < shorter.len() implies !((#[trigger] shorter[k])
            is SubscribeRooms) && !(shorter[k] is Register) by {
            assert(shorter[k] == more[k]);
        }
        lemma_last_stays(done, shorter);
        assert((done + more).drop_last() =~= done + shorter);
        assert((done + more).last() == more[more.len() - 1]);
    }
}

/// Whether a socket is in the rooms, and under the user, that it was last counted in and listed
/// under.
pub open spec fn as_last_told(state: SessionView, done: Seq<EffectView>) -> bool {
    match state {
        SessionView::Greeting => last_rooms(done) == Seq::<Seq<char>>::empty() && last_user(done)
            is None,
        SessionView::Talking(user, rooms) => rooms == last_rooms(done) && user == last_user(done),
        SessionView::Identifying(user, rooms) => rooms == last_rooms(done) && user == last_user(
            done,
        ),
        SessionView::Leaving(user, rooms) => rooms == last_rooms(done) && Some(user) == last_user(
            done,
        ),
        SessionView::Closed => true,
    }
}

/// Over its whole life a socket acts for the user under whom it was last listed, in the rooms
/// that it was last counted in; those are the rooms that it is counted out of when it is closed.
pub proof fn lemma_acts_for_last_user(events: Seq<EventView>)
    ensures
        ({
            let (state, done) = lived(SessionView::Greeting, events);
            &&& as_last_told(state, done)
            &&& forall|k: int|
                0 <= k < done.len() && (#[trigger] done[k]) is UnsubscribeRooms
                    ==> done[k]->UnsubscribeRooms_0 == last_rooms(done) && state is Closed
        }),
    decreases events.len(),
{
    if events.len() > 0 {
        let (before, done) = lived(SessionView::Greeting, events.drop_last());
        let event = events.last();
        let (state, more) = advanced(before, event);
        let whole = done + more;
        lemma_acts_for_last_user(events.drop_last());
        match (before, event) {
            (SessionView::Identifying(_, _), EventView::Identified(Some((id, joined)))) => {
                assert(whole.drop_last().drop_last().last() == EffectView::SubscribeRooms(joined));
                reveal_with_fuel(last_rooms, 4);
                reveal_with_fuel(last_user, 2);
                assert(whole.last() == EffectView::Register(id));
                assert(whole.drop_last().last() == EffectView::JoinRooms(joined));
            },
            _ => {
                lemma_last_stays(done, more);
            },
        }
        assert forall|k: int| 0 <= k < whole.len() && (#[trigger] whole[k])
            is UnsubscribeRooms implies whole[k]->UnsubscribeRooms_0 == last_rooms(whole)
            && state is Closed by {
            if k < done.len() {
                assert(whole[k] == done[k]);
                assert(before is Closed);
            } else {
                assert(whole[k] == more[k - done.len()]);
            }
        }
    }
}

/// Every message is written with what it has under the name of each, and nothing under the name
/// of what it has not.
pub proof fn lemma_message_written(payload: PayloadView)
    ensures
        ({
            let json = payload.json();
            &&& json is Object
            &&& json.field("op"@) == Some(JsonView::Int(payload.op as int))
            &&& json.field("d"@) == payload.d
            &&& match payload.s {
                Some(s) => json.field("s"@) == Some(JsonView::Int(s as int)),
                None => json.field("s"@) is None,
            }
            &&& match payload.t {
                Some(t) => json.field("t"@) == Some(JsonView::Text(t)),
                None => json.field("t"@) is None,
            }
            &&& forall|name: Seq<char>|
                name != "op"@ && name != "d"@ && name != "s"@ && name != "t"@ ==> #[trigger]
                    json.field(name) is None
        }),
{
    reveal_strlit("op");
    reveal_strlit("d");
    reveal_strlit("s");
    reveal_strlit("t");
    assert("op"@.len() == 2);
    assert("d"@.len() == 1);
    assert("s"@.len() == 1);
    assert("t"@.len() == 1);
    assert("d"@[0] != "s"@[0]);
    assert("d"@[0] != "t"@[0]);
    assert("s"@[0] != "t"@[0]);
}

/// The report of an event is a message of kind zero, with the name and the data of the event.
pub proof fn lemma_event_reported(event: Seq<char>, d: JsonView, op: i32)
    ensures
        PayloadView::dispatch(event, d).op == 0,
        PayloadView::dispatch(event, d).t == Some(event),
        PayloadView::dispatch(event, d).d == Some(d),
        PayloadView::dispatch(event, d).s is None,
        PayloadView::with_data(op, d).op == op,
        PayloadView::with_data(op, d).d == Some(d),
        PayloadView::with_data(op, d).s is None,
        PayloadView::with_data(op, d).t is None,
{
}

} // verus!
