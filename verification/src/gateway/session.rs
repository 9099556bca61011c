//! The life of a socket: what is done on each thing that happens to it, from its first message
//! to its last.

use vstd::prelude::*;
use crate::auth::token::token_holder;
use crate::gateway::cookie::{cookie_token, extract_token_from_cookie};
use crate::gateway::events::identify::{
    begin, fails, Identify, IdentifyAction, IdentifyError, IdentifyResult,
};
use crate::gateway::events::ready::guild_ids;
use crate::gateway::payload::{presence_report, presence_update, Payload, PayloadView};
use crate::json::{no_fields, Fields, Json, JsonView};
use crate::orm::guild_members::GuildMembers;
use crate::orm::lookup::asks_one;
use crate::text::chars::{owned, texts};

verus! {

/// How far a socket has come.
#[derive(Debug, PartialEq)]
pub enum Session {
    /// It is being greeted.
    Greeting,
    /// It is listened to; `user_id` and `rooms` are those that it was last identified with.
    Talking { user_id: Option<String>, rooms: Vec<String> },
    /// It is being identified.
    Identifying { user_id: Option<String>, rooms: Vec<String> },
    /// The memberships of its user are looked up, to tell that the user has left.
    Leaving { leaver: String, rooms: Vec<String> },
    /// It is closed.
    Closed,
}

/// What a [`Session`] holds.
pub ghost enum SessionView {
    Greeting,
    Talking(Option<Seq<char>>, Seq<Seq<char>>),
    Identifying(Option<Seq<char>>, Seq<Seq<char>>),
    Leaving(Seq<char>, Seq<Seq<char>>),
    Closed,
}

/// What happens to a socket.
#[derive(Debug, PartialEq)]
pub enum SessionEvent {
    /// The greeting was sent, or could not be.
    Greeted(bool),
    /// A text came in: the message in it, unless it is none.
    Message(Option<Payload>),
    /// Something else came in, that says nothing.
    OtherFrame,
    /// The client has closed the socket, or the socket has failed.
    Ended,
    /// The identification has come to its end.
    Identified(Result<IdentifyResult, IdentifyError>),
    /// The memberships of the user, unless the database has failed.
    Memberships(Option<Vec<GuildMembers>>),
}

/// What a [`SessionEvent`] says.
pub ghost enum EventView {
    Greeted(bool),
    Message(Option<PayloadView>),
    OtherFrame,
    Ended,
    Identified(Option<(Seq<char>, Seq<Seq<char>>)>),
    Memberships(Option<Seq<Seq<char>>>),
}

/// What is done.
#[derive(Debug, PartialEq)]
pub enum Effect {
    /// Count one more socket.
    CountConnected,
    /// Count one socket less.
    CountDisconnected,
    /// Count a message that came in.
    RecordInbound { op: i32, user: Option<String> },
    /// Count an event of a user.
    RecordDispatch { event: String, user_id: String },
    /// Count the socket in rooms.
    SubscribeRooms(Vec<String>),
    /// Count the socket out of rooms.
    UnsubscribeRooms(Vec<String>),
    /// Start to hand messages on to the socket.
    StartTasks,
    /// Stop handing messages on to the socket.
    StopTasks,
    /// Send a message to the socket.
    Send(Payload),
    /// Identify the client by its cookie.
    Identify,
    /// Change the status of a user.
    ChangePresence { user_id: String, rooms: Vec<String>, data: Option<Json> },
    /// Let the socket hear what is said in rooms, and in no others.
    JoinRooms(Vec<String>),
    /// List the socket among those of a user.
    Register { user_id: String },
    /// Drop the sockets of a user that are closed.
    Prune { user_id: String },
    /// Look up the memberships of a user.
    FetchMemberships { user_id: String },
    /// Send a message to a room.
    Broadcast { room: String, payload: Payload },
}

/// What an [`Effect`] says.
pub ghost enum EffectView {
    CountConnected,
    CountDisconnected,
    RecordInbound(i32, Option<Seq<char>>),
    RecordDispatch(Seq<char>, Seq<char>),
    SubscribeRooms(Seq<Seq<char>>),
    UnsubscribeRooms(Seq<Seq<char>>),
    StartTasks,
    StopTasks,
    Send(PayloadView),
    Identify,
    ChangePresence(Seq<char>, Seq<Seq<char>>, Option<JsonView>),
    JoinRooms(Seq<Seq<char>>),
    Register(Seq<char>),
    Prune(Seq<char>),
    FetchMemberships(Seq<char>),
    Broadcast(Seq<char>, PayloadView),
}

/// The text of an optional string.
pub open spec fn optional(text: Option<String>) -> Option<Seq<char>> {
    match text {
        Some(text) => Some(text@),
        None => None,
    }
}

impl View for Session {
    type V = SessionView;

    open spec fn view(&self) -> SessionView {
        match *self {
            Session::Greeting => SessionView::Greeting,
            Session::Talking { user_id, rooms } => SessionView::Talking(
                optional(user_id),
                texts(rooms@),
            ),
            Session::Identifying { user_id, rooms } => SessionView::Identifying(
                optional(user_id),
                texts(rooms@),
            ),
            Session::Leaving { leaver, rooms } => SessionView::Leaving(leaver@, texts(rooms@)),
            Session::Closed => SessionView::Closed,
        }
    }
}

impl View for SessionEvent {
    type V = EventView;

    open spec fn view(&self) -> EventView {
        match *self {
            SessionEvent::Greeted(ok) => EventView::Greeted(ok),
            SessionEvent::Message(payload) => EventView::Message(
                match payload {
                    Some(payload) => Some(payload@),
                    None => None,
                },
            ),
            SessionEvent::OtherFrame => EventView::OtherFrame,
            SessionEvent::Ended => EventView::Ended,
            SessionEvent::Identified(result) => EventView::Identified(
                match result {
                    Ok(result) => Some((result.user_id@, texts(result.rooms@))),
                    Err(_) => None,
                },
            ),
            SessionEvent::Memberships(members) => EventView::Memberships(
                match members {
                    Some(members) => Some(guild_ids(members@)),
                    None => None,
                },
            ),
        }
    }
}

impl View for Effect {
    type V = EffectView;

    open spec fn view(&self) -> EffectView {
        match *self {
            Effect::CountConnected => EffectView::CountConnected,
            Effect::CountDisconnected => EffectView::CountDisconnected,
            Effect::RecordInbound { op, user } => EffectView::RecordInbound(op, optional(user)),
            Effect::RecordDispatch { event, user_id } => EffectView::RecordDispatch(
                event@,
                user_id@,
            ),
            Effect::SubscribeRooms(rooms) => EffectView::SubscribeRooms(texts(rooms@)),
            Effect::UnsubscribeRooms(rooms) => EffectView::UnsubscribeRooms(texts(rooms@)),
            Effect::StartTasks => EffectView::StartTasks,
            Effect::StopTasks => EffectView::StopTasks,
            Effect::Send(payload) => EffectView::Send(payload@),
            Effect::Identify => EffectView::Identify,
            Effect::ChangePresence { user_id, rooms, data } => EffectView::ChangePresence(
                user_id@,
                texts(rooms@),
                match data {
                    Some(data) => Some(data@),
                    None => None,
                },
            ),
            Effect::JoinRooms(rooms) => EffectView::JoinRooms(texts(rooms@)),
            Effect::Register { user_id } => EffectView::Register(user_id@),
            Effect::Prune { user_id } => EffectView::Prune(user_id@),
            Effect::FetchMemberships { user_id } => EffectView::FetchMemberships(user_id@),
            Effect::Broadcast { room, payload } => EffectView::Broadcast(room@, payload@),
        }
    }
}

/// What a list of effects says.
pub open spec fn effects(list: Seq<Effect>) -> Seq<EffectView> {
    list.map_values(|e: Effect| e@)
}

/// The greeting, which tells how often the client is to give a sign of life.
pub open spec fn hello() -> PayloadView {
    PayloadView::with_data(
        10,
        JsonView::Object(no_fields().push(("heartbeat_interval"@, JsonView::Int(30000)))),
    )
}

/// The answer to a sign of life.
pub open spec fn acknowledgement() -> PayloadView {
    PayloadView { op: 11, d: None, s: None, t: None }
}

/// The answer to a client that could not be identified.
pub open spec fn invalid_session() -> PayloadView {
    PayloadView::with_data(9, JsonView::Bool(false))
}

/// The last effects of a socket.
pub open spec fn farewell(rooms: Seq<Seq<char>>) -> Seq<EffectView> {
    seq![
        EffectView::UnsubscribeRooms(rooms),
        EffectView::CountDisconnected,
        EffectView::StopTasks,
    ]
}

/// What becomes of a socket that is listened to no longer.
pub open spec fn left(user_id: Option<Seq<char>>, rooms: Seq<Seq<char>>) -> (
    SessionView,
    Seq<EffectView>,
) {
    match user_id {
        Some(user_id) => (
            SessionView::Leaving(user_id, rooms),
            seq![EffectView::Prune(user_id), EffectView::FetchMemberships(user_id)],
        ),
        None => (SessionView::Closed, farewell(rooms)),
    }
}

/// What becomes of a message.
pub open spec fn heard(
    user_id: Option<Seq<char>>,
    rooms: Seq<Seq<char>>,
    payload: PayloadView,
) -> (SessionView, Seq<EffectView>) {
    let recorded = seq![EffectView::RecordInbound(payload.op, user_id)];
    let same = SessionView::Talking(user_id, rooms);
    if payload.op == 1 {
        (same, recorded.push(EffectView::Send(acknowledgement())))
    } else if payload.op == 2 {
        (SessionView::Identifying(user_id, rooms), recorded.push(EffectView::Identify))
    } else if payload.op == 3 {
        match user_id {
            Some(id) => (
                same,
                recorded.push(EffectView::RecordDispatch("PRESENCE_UPDATE"@, id)).push(
                    EffectView::ChangePresence(id, rooms, payload.d),
                ),
            ),
            None => (same, recorded),
        }
    } else {
        (same, recorded)
    }
}

/// The reports to the rooms of guilds that a user has left.
pub open spec fn departures(user_id: Seq<char>, guilds: Seq<Seq<char>>) -> Seq<EffectView> {
    guilds.map_values(
        |g: Seq<char>| EffectView::Broadcast(g, presence_report(user_id, "UNAVAILABLE"@)),
    )
}

/// What becomes of a socket to which something happens, and what is done.
pub open spec fn advanced(state: SessionView, event: EventView) -> (SessionView, Seq<EffectView>) {
    match (state, event) {
        (SessionView::Greeting, EventView::Greeted(ok)) => if ok {
            (SessionView::Talking(None, Seq::empty()), seq![EffectView::StartTasks])
        } else {
            (SessionView::Closed, seq![EffectView::CountDisconnected])
        },
        (SessionView::Talking(user_id, rooms), EventView::Message(Some(payload))) => heard(
            user_id,
            rooms,
            payload,
        ),
        (SessionView::Talking(user_id, rooms), EventView::Ended) => left(user_id, rooms),
        (SessionView::Identifying(user_id, rooms), EventView::Identified(result)) => {
            match result {
                Some((id, joined)) => (
                    SessionView::Talking(Some(id), joined),
                    seq![
                        EffectView::SubscribeRooms(joined),
                        EffectView::JoinRooms(joined),
                        EffectView::Register(id),
                    ],
                ),
                None => (
                    left(user_id, rooms).0,
                    seq![EffectView::Send(invalid_session())] + left(user_id, rooms).1,
                ),
            }
        },
        (SessionView::Leaving(user_id, rooms), EventView::Memberships(guilds)) => (
            SessionView::Closed,
            match guilds {
                Some(guilds) => departures(user_id, guilds) + farewell(rooms),
                None => farewell(rooms),
            },
        ),
        _ => (state, Seq::empty()),
    }
}

/// Begins: one more socket is counted, and it is greeted.
pub fn open() -> (r: (Session, Vec<Effect>))
    ensures
        r.0 is Greeting,
        effects(r.1@) == seq![EffectView::CountConnected, EffectView::Send(hello())],
{
    let data: Json = Fields::new().with("heartbeat_interval", Json::number(30000)).object();
    let mut out: Vec<Effect> = Vec::new();
    out.push(Effect::CountConnected);
    out.push(Effect::Send(Payload::with_data(10, data)));
    assert(effects(out@) =~= seq![EffectView::CountConnected, EffectView::Send(hello())]);
    (Session::Greeting, out)
}

/// Adds the last effects of a socket.
fn say_farewell(out: Vec<Effect>, rooms: Vec<String>) -> (r: Vec<Effect>)
    ensures
        effects(r@) == effects(out@) + farewell(texts(rooms@)),
{
    let ghost before = effects(out@);
    let mut out: Vec<Effect> = out;
    out.push(Effect::UnsubscribeRooms(rooms));
    out.push(Effect::CountDisconnected);
    out.push(Effect::StopTasks);
    assert(effects(out@) =~= before + farewell(texts(rooms@)));
    out
}

/// Listens to a socket no longer.
fn leave(out: Vec<Effect>, user_id: Option<String>, rooms: Vec<String>) -> (r: (
    Session,
    Vec<Effect>,
))
    ensures
        r.0@ == left(optional(user_id), texts(rooms@)).0,
        effects(r.1@) == effects(out@) + left(optional(user_id), texts(rooms@)).1,
{
    match user_id {
        Some(user_id) => {
            let ghost before = effects(out@);
            let mut out: Vec<Effect> = out;
            out.push(Effect::Prune { user_id: user_id.clone() });
            out.push(Effect::FetchMemberships { user_id: user_id.clone() });
            assert(effects(out@) =~= before + left(Some(user_id@), texts(rooms@)).1);
            (Session::Leaving { leaver: user_id, rooms }, out)
        },
        None => (Session::Closed, say_farewell(out, rooms)),
    }
}

/// A copy of a list of texts.
fn copied(list: &Vec<String>) -> (r: Vec<String>)
    ensures
        r@ == list@,
{
    let mut out: Vec<String> = Vec::new();
    let mut i: usize = 0;
    while i < list.len()
        invariant
            i <= list@.len(),
            out@ == list@.take(i as int),
        decreases list@.len() - i,
    {
        out.push(list[i].clone());
        assert(out@ =~= list@.take(i + 1));
        i = i + 1;
    }
    assert(list@.take(i as int) =~= list@);
    out
}

/// Takes a message in.
fn hear(user_id: Option<String>, rooms: Vec<String>, payload: Payload) -> (r: (
    Session,
    Vec<Effect>,
))
    ensures
        r.0@ == heard(optional(user_id), texts(rooms@), payload@).0,
        effects(r.1@) == heard(optional(user_id), texts(rooms@), payload@).1,
{
    let ghost expected = heard(optional(user_id), texts(rooms@), payload@).1;
    let mut out: Vec<Effect> = Vec::new();
    out.push(Effect::RecordInbound { op: payload.op, user: user_id.clone() });
    if payload.op == 1 {
        out.push(Effect::Send(Payload::new(11)));
        assert(effects(out@) =~= expected);
        (Session::Talking { user_id, rooms }, out)
    } else if payload.op == 2 {
        out.push(Effect::Identify);
        assert(effects(out@) =~= expected);
        (Session::Identifying { user_id, rooms }, out)
    } else if payload.op == 3 {
        if let Some(id) = &user_id {
            out.push(
                Effect::RecordDispatch { event: owned("PRESENCE_UPDATE"), user_id: id.clone() },
            );
            out.push(
                Effect::ChangePresence {
                    user_id: id.clone(),
                    rooms: copied(&rooms),
                    data: payload.d,
                },
            );
        }
        assert(effects(out@) =~= expected);
        (Session::Talking { user_id, rooms }, out)
    } else {
        assert(effects(out@) =~= expected);
        (Session::Talking { user_id, rooms }, out)
    }
}

/// The reports to the rooms of guilds that a user has left.
fn report_departure(user_id: &str, members: &Vec<GuildMembers>) -> (r: Vec<Effect>)
    ensures
        effects(r@) == departures(user_id@, guild_ids(members@)),
{
    let mut out: Vec<Effect> = Vec::new();
    let mut i: usize = 0;
    assert(effects(out@) =~= departures(user_id@, guild_ids(members@.take(0))));
    while i < members.len()
        invariant
            i <= members@.len(),
            effects(out@) == departures(user_id@, guild_ids(members@.take(i as int))),
        decreases members@.len() - i,
    {
        let ghost before = effects(out@);
        out.push(
            Effect::Broadcast {
                room: members[i].guild_id.clone(),
                payload: presence_update(user_id, "UNAVAILABLE"),
            },
        );
        proof {
            let id = members@[i as int].guild_id@;
            let report = EffectView::Broadcast(id, presence_report(user_id@, "UNAVAILABLE"@));
            assert(out@.last()@ == report);
            assert(effects(out@) =~= before.push(report));
            assert(guild_ids(members@.take(i + 1)) =~= guild_ids(members@.take(i as int)).push(
                id,
            ));
            assert(departures(user_id@, guild_ids(members@.take(i + 1))) =~= before.push(report));
        }
        i = i + 1;
    }
    assert(members@.take(i as int) =~= members@);
    out
}

/// Goes on with what has happened to a socket.
pub fn advance(state: Session, event: SessionEvent) -> (r: (Session, Vec<Effect>))
    ensures
        r.0@ == advanced(state@, event@).0,
        effects(r.1@) == advanced(state@, event@).1,
{
    let ghost expected = advanced(state@, event@).1;
    match (state, event) {
        (Session::Greeting, SessionEvent::Greeted(ok)) => {
            let mut out: Vec<Effect> = Vec::new();
            if ok {
                out.push(Effect::StartTasks);
                assert(effects(out@) =~= expected);
                let rooms: Vec<String> = Vec::new();
                assert(texts(rooms@) =~= Seq::<Seq<char>>::empty());
                (Session::Talking { user_id: None, rooms }, out)
            } else {
                out.push(Effect::CountDisconnected);
                assert(effects(out@) =~= expected);
                (Session::Closed, out)
            }
        },
        (Session::Talking { user_id, rooms }, SessionEvent::Message(Some(payload))) => hear(
            user_id,
            rooms,
            payload,
        ),
        (Session::Talking { user_id, rooms }, SessionEvent::Ended) => {
            let out: Vec<Effect> = Vec::new();
            let r = leave(out, user_id, rooms);
            assert(effects(r.1@) =~= expected);
            r
        },
        (Session::Identifying { user_id, rooms }, SessionEvent::Identified(result)) => {
            let mut out: Vec<Effect> = Vec::new();
            match result {
                Ok(result) => {
                    out.push(Effect::SubscribeRooms(copied(&result.rooms)));
                    out.push(Effect::JoinRooms(copied(&result.rooms)));
                    out.push(Effect::Register { user_id: result.user_id.clone() });
                    assert(effects(out@) =~= expected);
                    (Session::Talking { user_id: Some(result.user_id), rooms: result.rooms }, out)
                },
                Err(_) => {
                    out.push(Effect::Send(Payload::with_data(9, Json::Bool(false))));
                    assert(effects(out@) =~= seq![EffectView::Send(invalid_session())]);
                    leave(out, user_id, rooms)
                },
            }
        },
        (Session::Leaving { leaver, rooms }, SessionEvent::Memberships(members)) => {
            let out: Vec<Effect> = match &members {
                Some(members) => report_departure(leaver.as_str(), members),
                None => Vec::new(),
            };
            let out: Vec<Effect> = say_farewell(out, rooms);
            assert(effects(out@) =~= expected);
            (Session::Closed, out)
        },
        (state, _) => {
            let out: Vec<Effect> = Vec::new();
            assert(effects(out@) =~= Seq::<EffectView>::empty());
            (state, out)
        },
    }
}

/// Begins to identify a client by the token in its cookie header.
pub fn begin_from_cookie(
    cookie_header: Option<&str>,
    production: bool,
    token_secret: &str,
) -> (r: (Identify, IdentifyAction))
    ensures
        match cookie_token(cookie_header, production) {
            Some(token) => if token_holder(token, token_secret@) is Some {
                &&& r.0 is Account
                &&& r.1 is FetchAccount
                &&& exists|t: String|
                    t@ == token && #[trigger] asks_one(
                        r.1->FetchAccount_0,
                        "accounts"@,
                        "token"@,
                        t,
                    )
            } else {
                fails(IdentifyError::InvalidToken, r.0, r.1)
            },
            None => fails(IdentifyError::NoToken, r.0, r.1),
        },
{
    begin(extract_token_from_cookie(cookie_header, production), token_secret)
}

/// How often a socket is counted out.
pub open spec fn counted_out(list: Seq<EffectView>) -> nat
    decreases list.len(),
{
    if list.len() == 0 {
        0
    } else {
        counted_out(list.drop_last()) + if list.last() is CountDisconnected {
            1nat
        } else {
            0nat
        }
    }
}

/// The counts of two lists add up.
proof fn lemma_counted_out_add(a: Seq<EffectView>, b: Seq<EffectView>)
    ensures
        counted_out(a + b) == counted_out(a) + counted_out(b),
    decreases b.len(),
{
    if b.len() == 0 {
        assert(a + b =~= a);
    } else {
        lemma_counted_out_add(a, b.drop_last());
        assert((a + b).drop_last() =~= a + b.drop_last());
    }
}

/// A list without such an effect counts nothing out.
proof fn lemma_counted_out_none(list: Seq<EffectView>)
    requires
        forall|i: int| 0 <= i < list.len() ==> !(#[trigger] list[i] is CountDisconnected),
    ensures
        counted_out(list) == 0,
    decreases list.len(),
{
    if list.len() > 0 {
        lemma_counted_out_none(list.drop_last());
    }
}

/// The last effects of a socket count it out once.
proof fn lemma_farewell(rooms: Seq<Seq<char>>)
    ensures
        counted_out(farewell(rooms)) == 1,
{
    let list = farewell(rooms);
    reveal_with_fuel(counted_out, 4);
    assert(list.drop_last().last() is CountDisconnected);
    assert(!(list.drop_last().drop_last().last() is CountDisconnected));
    assert(list.drop_last().drop_last().drop_last().len() == 0);
}

/// Whatever happens, a socket is counted out when it becomes closed, and at no other time.
pub proof fn lemma_counted_out_on_close(state: SessionView, event: EventView)
    ensures
        counted_out(advanced(state, event).1) == if !(state is Closed) && advanced(
            state,
            event,
        ).0 is Closed {
            1nat
        } else {
            0nat
        },
        state is Closed ==> advanced(state, event).0 is Closed,
{
    let list = advanced(state, event).1;
    match (state, event) {
        (SessionView::Greeting, EventView::Greeted(ok)) => {
            reveal_with_fuel(counted_out, 2);
            assert(list.drop_last().len() == 0);
        },
        (SessionView::Talking(user_id, rooms), EventView::Message(Some(payload))) => {
            lemma_counted_out_none(list);
        },
        (SessionView::Talking(user_id, rooms), EventView::Ended) => {
            lemma_farewell(rooms);
            if user_id is Some {
                lemma_counted_out_none(list);
            }
        },
        (SessionView::Identifying(user_id, rooms), EventView::Identified(result)) => {
            if result is Some || user_id is Some {
                lemma_counted_out_none(list);
            } else {
                let first = seq![EffectView::Send(invalid_session())];
                lemma_counted_out_add(first, farewell(rooms));
                lemma_counted_out_none(first);
                lemma_farewell(rooms);
            }
        },
        (SessionView::Leaving(user_id, rooms), EventView::Memberships(guilds)) => {
            lemma_farewell(rooms);
            if let Some(guilds) = guilds {
                let reports = departures(user_id, guilds);
                lemma_counted_out_add(reports, farewell(rooms));
                lemma_counted_out_none(reports);
            }
        },
        _ => {},
    }
}

/// What becomes of a socket after several events, and all that is done.
pub open spec fn lived(state: SessionView, events: Seq<EventView>) -> (SessionView, Seq<EffectView>)
    decreases events.len(),
{
    if events.len() == 0 {
        (state, Seq::empty())
    } else {
        let (before, done) = lived(state, events.drop_last());
        let (after, more) = advanced(before, events.last());
        (after, done + more)
    }
}

/// Over its whole life a socket is counted out once where it is closed in the end, and not at
/// all where it is not.
pub proof fn lemma_counted_out_once(events: Seq<EventView>)
    ensures
        counted_out(lived(SessionView::Greeting, events).1) == if lived(
            SessionView::Greeting,
            events,
        ).0 is Closed {
            1nat
        } else {
            0nat
        },
    decreases events.len(),
{
    if events.len() > 0 {
        lemma_counted_out_once(events.drop_last());
        let (before, done) = lived(SessionView::Greeting, events.drop_last());
        lemma_counted_out_on_close(before, events.last());
        lemma_counted_out_add(done, advanced(before, events.last()).1);
    }
}

/// A client that has not identified itself changes no status, whatever it sends.
pub proof fn lemma_strangers_change_nothing(rooms: Seq<Seq<char>>, event: EventView)
    ensures
        forall|i: int| 0 <= i < advanced(SessionView::Talking(None, rooms), event).1.len() ==> !(
        #[trigger] advanced(SessionView::Talking(None, rooms), event).1[i] is ChangePresence),
{
}

} // verus!
