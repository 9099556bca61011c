//! What a change of status comes to, from what a client has sent to the notice to others.

use vstd::prelude::*;
use crate::gateway::audience::{lemma_with_others, with_others};
use crate::gateway::events::identify::{member_ids, Notice};
use crate::gateway::events::presence::{
    follows, goes_on_with_rooms, next_guild_room, sets_status, wanted_status, PresenceAction,
    PresenceChange, PresenceReply,
};
use crate::gateway::payload::{presence_report, PayloadView};
use crate::json::JsonView;
use crate::laws::lookup::{lemma_found_after, lemma_found_in_nothing};
use crate::laws::statements::{lemma_change_numbers, lemma_lookup_asks};
use crate::orm::change::{FragmentsView, UpdateView};
use crate::orm::guild_members::GuildMembers;
use crate::orm::value::{SqlValue, Statement};
use crate::text::chars::{join, texts};
use crate::text::decimal::decimal;

verus! {

broadcast use {lemma_found_after, lemma_found_in_nothing};

/// Whether a message reports that a user is in a status.
pub open spec fn reports(payload: PayloadView, user_id: Seq<char>, status: Seq<char>) -> bool {
    &&& payload.op == 0
    &&& payload.s is None
    &&& payload.t == Some("PRESENCE_UPDATE"@)
    &&& payload.d is Some
    &&& payload.d->0.field("userId"@) == Some(JsonView::Text(user_id))
    &&& payload.d->0.field("status"@) == Some(JsonView::Text(status))
}

/// The report of a status names the user and the status.
pub proof fn lemma_report_names(user_id: Seq<char>, status: Seq<char>)
    ensures
        reports(presence_report(user_id, status), user_id, status),
{
    reveal_strlit("userId");
    assert("userId"@.len() == 6);
    reveal_strlit("status");
    assert("status"@.len() == 6);
    assert("userId"@[0] != "status"@[0]);
}

/// The status that a client asks for is the text under `status` in what it has sent; without such
/// a text it is `ONLINE`.
pub proof fn lemma_status_asked(data: Option<JsonView>, status: Seq<char>)
    ensures
        data is Some && data->0.field("status"@) == Some(JsonView::Text(status)) ==> wanted_status(
            data,
        ) == status,
        wanted_status(data) == "ONLINE"@ || (data is Some && data->0.field("status"@) == Some(
            JsonView::Text(wanted_status(data)),
        )),
        data is None ==> wanted_status(data) == "ONLINE"@,
        data is Some && !(data->0.field("status"@) matches Some(JsonView::Text(_)))
            ==> wanted_status(data) == "ONLINE"@,
{
}

/// A run of a change of status: the states it is in, the replies it gets, and what it has done
/// on each.
pub open spec fn runs(
    states: Seq<PresenceChange>,
    replies: Seq<PresenceReply>,
    actions: Seq<PresenceAction>,
) -> bool {
    &&& states.len() == replies.len() + 1
    &&& actions.len() == replies.len()
    &&& states[0] is Status
    &&& forall|i: int|
        0 <= i < replies.len() ==> #[trigger] moves(
            states[i],
            replies[i],
            states[i + 1],
            actions[i],
        )
}

/// Whether a reply was waited for, and this is what followed it.
pub open spec fn moves(
    before: PresenceChange,
    reply: PresenceReply,
    next: PresenceChange,
    action: PresenceAction,
) -> bool {
    &&& before.valid()
    &&& before.awaits(reply)
    &&& follows(before, reply, next, action)
}

/// Whether a reply lists a user as a member of a guild.
pub open spec fn lists_member(reply: PresenceReply, id: Seq<char>) -> bool {
    reply is Members && exists|m: int|
        0 <= m < reply->Members_0@.len() && (#[trigger] reply->Members_0@[m]).user_id@ == id
}

/// Whether one of the replies of a run lists a user as a member of a guild.
pub open spec fn listed(replies: Seq<PresenceReply>, id: Seq<char>) -> bool {
    exists|i: int| 0 <= i < replies.len() && lists_member(#[trigger] replies[i], id)
}

/// A user is among the ids of members where one of them is of that user.
pub proof fn lemma_member_ids(members: Seq<GuildMembers>, id: Seq<char>)
    ensures
        member_ids(members).contains(id) <==> exists|m: int|
            0 <= m < members.len() && (#[trigger] members[m]).user_id@ == id,
{
    if member_ids(members).contains(id) {
        let m = choose|m: int| 0 <= m < member_ids(members).len() && member_ids(members)[m] == id;
        assert(members[m].user_id@ == id);
    }
    if exists|m: int| 0 <= m < members.len() && (#[trigger] members[m]).user_id@ == id {
        let m = choose|m: int| 0 <= m < members.len() && (#[trigger] members[m]).user_id@ == id;
        assert(member_ids(members)[m] == id);
    }
}

/// A user is listed in some replies and a last one where one of them lists it.
proof fn lemma_listed_more(replies: Seq<PresenceReply>, n: int, id: Seq<char>)
    requires
        0 <= n < replies.len(),
    ensures
        listed(replies.take(n + 1), id) <==> listed(replies.take(n), id) || lists_member(
            replies[n],
            id,
        ),
{
    let more = replies.take(n + 1);
    let less = replies.take(n);
    if listed(more, id) {
        let i = choose|i: int| 0 <= i < more.len() && lists_member(#[trigger] more[i], id);
        if i < n {
            assert(less[i] == more[i]);
        }
    }
    if listed(less, id) {
        let i = choose|i: int| 0 <= i < less.len() && lists_member(#[trigger] less[i], id);
        assert(more[i] == less[i]);
    }
    assert(more[n] == replies[n]);
}

/// Whether a list names exactly the users other than `own` that replies list as members.
pub open spec fn names_listed(
    list: Seq<Seq<char>>,
    replies: Seq<PresenceReply>,
    own: Seq<char>,
) -> bool {
    forall|id: Seq<char>| #[trigger] list.contains(id) <==> id != own && listed(replies, id)
}

/// What a change of status knows at any time of a run.
pub open spec fn on_course(
    state: PresenceChange,
    replies: Seq<PresenceReply>,
    start: PresenceChange,
) -> bool {
    let own = start->Status_user_id;
    let all = start->Status_rooms;
    match state {
        PresenceChange::Status { user_id, rooms } => user_id == own && rooms == all && forall|
            id: Seq<char>,
        |
            !#[trigger] listed(replies, id),
        PresenceChange::User { user_id, rooms, status } => user_id == own && rooms == all
            && names_status(replies, status) && forall|id: Seq<char>|
            !#[trigger] listed(replies, id),
        PresenceChange::Update { user_id, rooms, status } => user_id == own && rooms == all
            && names_status(replies, status) && forall|id: Seq<char>|
            !#[trigger] listed(replies, id),
        PresenceChange::Audience { user_id, rooms, status, recipients, .. } => {
            &&& user_id == own
            &&& rooms == all
            &&& names_status(replies, status)
            &&& names_listed(texts(recipients@), replies, own@)
        },
        PresenceChange::Over => true,
    }
}

/// Whether replies name the status that is meant.
pub open spec fn names_status(replies: Seq<PresenceReply>, status: String) -> bool {
    exists|i: int|
        0 <= i < replies.len() && #[trigger] replies[i] == PresenceReply::Status(Some(status))
}

/// A status that was named goes on to be named.
proof fn lemma_named_on(replies: Seq<PresenceReply>, n: int, status: String)
    requires
        0 <= n < replies.len(),
        names_status(replies.take(n), status) || replies[n] == PresenceReply::Status(Some(status)),
    ensures
        names_status(replies.take(n + 1), status),
{
    let less = replies.take(n);
    let more = replies.take(n + 1);
    if names_status(less, status) {
        let i = choose|i: int|
            0 <= i < less.len() && #[trigger] less[i] == PresenceReply::Status(Some(status));
        assert(more[i] == less[i]);
    } else {
        assert(more[n] == replies[n]);
    }
}

/// Whether the end of a change tells everybody that it is to tell.
pub open spec fn ends_well(
    action: PresenceAction,
    replies: Seq<PresenceReply>,
    start: PresenceChange,
) -> bool {
    action matches PresenceAction::Finish(Some(notice)) ==> {
        &&& names_listed(texts(notice.recipients@), replies, start->Status_user_id@)
        &&& exists|status: String| #[trigger]
            names_status(replies, status) && reports(
                notice.payload@,
                start->Status_user_id@,
                status@,
            )
    }
}

/// What a change of status knows stays right with every reply.
proof fn lemma_on_course(
    states: Seq<PresenceChange>,
    replies: Seq<PresenceReply>,
    actions: Seq<PresenceAction>,
    n: int,
)
    requires
        runs(states, replies, actions),
        0 <= n <= replies.len(),
    ensures
        on_course(states[n], replies.take(n), states[0]),
        n > 0 ==> ends_well(actions[n - 1], replies.take(n), states[0]),
    decreases n,
{
    if n > 0 {
        let m = n - 1;
        lemma_on_course(states, replies, actions, m);
        let state = states[m];
        let reply = replies[m];
        let action = actions[m];
        let own = states[0]->Status_user_id;
        let less = replies.take(m);
        let more = replies.take(n);
        assert(moves(state, reply, states[m + 1], action));
        assert forall|id: Seq<char>| #[trigger] listed(more, id) <==> listed(less, id)
            || lists_member(reply, id) by {
            lemma_listed_more(replies, m, id);
        }
        match (state, reply) {
            (PresenceChange::Status { .. }, PresenceReply::Status(Some(status))) => {
                lemma_named_on(replies, m, status);
            },
            (PresenceChange::User { status, .. }, _) => {
                lemma_named_on(replies, m, status);
            },
            (PresenceChange::Update { user_id, rooms, status }, _) => {
                lemma_named_on(replies, m, status);
                lemma_report_names(user_id@, status@);
                assert(names_listed(Seq::empty(), more, own@));
            },
            (
                PresenceChange::Audience { user_id, rooms, status, recipients, asked },
                PresenceReply::Members(members),
            ) => {
                lemma_named_on(replies, m, status);
                lemma_report_names(user_id@, status@);
                let list = with_others(
                    texts(recipients@),
                    member_ids(members@),
                    user_id@,
                );
                lemma_with_others(texts(recipients@), member_ids(members@), user_id@);
                assert(names_listed(list, more, own@)) by {
                    assert forall|id: Seq<char>| #[trigger] list.contains(id) <==> id != own@
                        && listed(more, id) by {
                        lemma_member_ids(members@, id);
                    }
                }
            },
            (PresenceChange::Audience { user_id, status, recipients, .. }, _) => {
                lemma_named_on(replies, m, status);
                lemma_report_names(user_id@, status@);
                assert(names_listed(texts(recipients@), more, own@));
            },
            _ => {},
        }
    } else {
        assert forall|id: Seq<char>| !#[trigger] listed(replies.take(0), id) by {}
    }
}

/// Over a whole change of status, exactly the users other than the one whose status it is are
/// told that any of the replies lists as members of a guild; they are told of the status that
/// was named.
pub proof fn lemma_all_guilds_hear(
    states: Seq<PresenceChange>,
    replies: Seq<PresenceReply>,
    actions: Seq<PresenceAction>,
    notice: Notice,
)
    requires
        runs(states, replies, actions),
        actions.len() > 0,
        actions.last() == PresenceAction::Finish(Some(notice)),
    ensures
        forall|id: Seq<char>| #[trigger]
            texts(notice.recipients@).contains(id) <==> id != states[0]->Status_user_id@ && listed(
                replies,
                id,
            ),
        exists|i: int, status: String|
            0 <= i < replies.len() && #[trigger] replies[i] == PresenceReply::Status(Some(status))
                && #[trigger] reports(
                notice.payload@,
                states[0]->Status_user_id@,
                status@,
            ),
{
    let n = replies.len() as int;
    lemma_on_course(states, replies, actions, n);
    assert(replies.take(n) =~= replies);
    assert(ends_well(actions[n - 1], replies, states[0]));
    let status = choose|status: String| #[trigger]
        names_status(replies, status) && reports(
            notice.payload@,
            states[0]->Status_user_id@,
            status@,
        );
    let i = choose|i: int|
        0 <= i < replies.len() && #[trigger] replies[i] == PresenceReply::Status(Some(status));
    assert(reports(notice.payload@, states[0]->Status_user_id@, status@));
}

/// One step takes nobody off the list of those to be told.
pub proof fn lemma_nobody_forgotten(
    before: PresenceChange,
    reply: PresenceReply,
    next: PresenceChange,
    action: PresenceAction,
    id: Seq<char>,
)
    requires
        before is Audience,
        before.valid(),
        before.awaits(reply),
        follows(before, reply, next, action),
        texts(before->Audience_recipients@).contains(id),
    ensures
        next is Audience ==> texts(next->Audience_recipients@).contains(id),
        action matches PresenceAction::Finish(Some(notice)) ==> texts(
            notice.recipients@,
        ).contains(id),
        next is Audience || action matches PresenceAction::Finish(Some(_)),
{
    if let PresenceReply::Members(members) = reply {
        lemma_with_others(
            texts(before->Audience_recipients@),
            member_ids(members@),
            before->Audience_user_id@,
        );
    }
}

/// The rooms of guilds among some rooms.
pub open spec fn guild_rooms(rooms: Seq<String>) -> Seq<String> {
    rooms.filter(|r: String| r@ != "admins"@)
}

/// The actions of a run that ask for the members of a guild.
pub open spec fn questions(actions: Seq<PresenceAction>) -> Seq<PresenceAction> {
    actions.filter(|a: PresenceAction| a is FetchMembers)
}

/// Whether an action asks for the members of the guild of a room.
pub open spec fn asks_room(action: PresenceAction, room: String) -> bool {
    action matches PresenceAction::FetchMembers(s) && s.sql@
        == "SELECT * FROM guildmembers WHERE guild_id = $1"@ && s.params@ == seq![
        SqlValue::Text(room),
    ]
}

/// Whether the questions of a run are those for the members of some rooms, one after the other.
pub open spec fn asks_rooms(actions: Seq<PresenceAction>, rooms: Seq<String>) -> bool {
    &&& questions(actions).len() == rooms.len()
    &&& forall|k: int|
        0 <= k < rooms.len() ==> asks_room(#[trigger] questions(actions)[k], rooms[k])
}

/// Between the place from which the room of a guild is looked for and that room, there are only
/// rooms of administrators.
proof fn lemma_rooms_between(rooms: Seq<String>, from: nat)
    requires
        from <= rooms.len(),
    ensures
        ({
            let to = next_guild_room(texts(rooms), from) as int;
            &&& from <= to <= rooms.len()
            &&& if to < rooms.len() {
                guild_rooms(rooms.take(to + 1)) == guild_rooms(rooms.take(from as int)).push(
                    rooms[to],
                )
            } else {
                guild_rooms(rooms) == guild_rooms(rooms.take(from as int))
            }
        }),
    decreases rooms.len() - from,
{
    reveal(Seq::filter);
    if from >= rooms.len() {
        assert(rooms.take(from as int) =~= rooms);
    } else {
        let upto = rooms.take(from as int + 1);
        assert(upto.drop_last() =~= rooms.take(from as int));
        assert(upto.last() == rooms[from as int]);
        assert(texts(rooms)[from as int] == rooms[from as int]@);
        if rooms[from as int]@ == "admins"@ {
            lemma_rooms_between(rooms, from + 1);
        }
    }
}

/// The questions of a run and one more action.
proof fn lemma_questions_more(actions: Seq<PresenceAction>, n: int)
    requires
        0 <= n < actions.len(),
    ensures
        questions(actions.take(n + 1)) == if actions[n] is FetchMembers {
            questions(actions.take(n)).push(actions[n])
        } else {
            questions(actions.take(n))
        },
{
    reveal(Seq::filter);
    assert(actions.take(n + 1).drop_last() =~= actions.take(n));
}

/// How far the questions of a run have come.
pub open spec fn asked_so_far(
    state: PresenceChange,
    actions: Seq<PresenceAction>,
    rooms: Vec<String>,
) -> bool {
    match state {
        PresenceChange::Status { rooms: all, .. } => all == rooms && questions(actions).len() == 0,
        PresenceChange::User { rooms: all, .. } => all == rooms && questions(actions).len() == 0,
        PresenceChange::Update { rooms: all, .. } => all == rooms && questions(actions).len() == 0,
        PresenceChange::Audience { rooms: all, asked, .. } => all == rooms && asked < rooms@.len()
            && asks_rooms(actions, guild_rooms(rooms@.take(asked + 1))),
        PresenceChange::Over => true,
    }
}

/// Going on with the next room asks for its members, or ends once all were asked for.
proof fn lemma_next_question(
    user_id: String,
    rooms: Vec<String>,
    status: String,
    recipients: Seq<Seq<char>>,
    from: nat,
    next: PresenceChange,
    actions: Seq<PresenceAction>,
    n: int,
)
    requires
        0 <= n < actions.len(),
        from <= rooms@.len(),
        goes_on_with_rooms(user_id, rooms, status, recipients, from, next, actions[n]),
        asks_rooms(actions.take(n), guild_rooms(rooms@.take(from as int))),
    ensures
        asked_so_far(next, actions.take(n + 1), rooms),
        actions[n] is Finish ==> asks_rooms(actions.take(n + 1), guild_rooms(rooms@)),
{
    let to = next_guild_room(texts(rooms@), from) as int;
    lemma_rooms_between(rooms@, from);
    lemma_questions_more(actions, n);
    if to < rooms@.len() {
        let s = actions[n]->FetchMembers_0;
        lemma_lookup_asks(s, "guildmembers"@, "guild_id"@, rooms@[to]);
        reveal_strlit("SELECT * FROM ");
        reveal_strlit("guildmembers");
        reveal_strlit(" WHERE ");
        reveal_strlit("guild_id");
        reveal_strlit(" = $1");
        reveal_strlit("SELECT * FROM guildmembers WHERE guild_id = $1");
        assert("SELECT * FROM "@ + "guildmembers"@ + " WHERE "@ + "guild_id"@ + " = $1"@
            =~= "SELECT * FROM guildmembers WHERE guild_id = $1"@);
        assert(asks_room(actions[n], rooms@[to]));
        let less = questions(actions.take(n));
        let more = questions(actions.take(n + 1));
        let named = guild_rooms(rooms@.take(to + 1));
        assert forall|k: int| 0 <= k < named.len() implies asks_room(
            #[trigger] more[k],
            named[k],
        ) by {
            if k < less.len() {
                assert(more[k] == less[k]);
            }
        }
    }
}

/// The questions of a run stay those for the rooms of the guilds.
proof fn lemma_asked_so_far(
    states: Seq<PresenceChange>,
    replies: Seq<PresenceReply>,
    actions: Seq<PresenceAction>,
    n: int,
)
    requires
        runs(states, replies, actions),
        0 <= n <= replies.len(),
    ensures
        asked_so_far(states[n], actions.take(n), states[0]->Status_rooms),
        n > 0 && actions[n - 1] is Finish && actions[n - 1]->Finish_0 is Some ==> asks_rooms(
            actions.take(n),
            guild_rooms(states[0]->Status_rooms@),
        ),
    decreases n,
{
    reveal(Seq::filter);
    if n > 0 {
        let m = n - 1;
        lemma_asked_so_far(states, replies, actions, m);
        let rooms = states[0]->Status_rooms;
        assert(moves(states[m], replies[m], states[m + 1], actions[m]));
        lemma_questions_more(actions, m);
        match (states[m], replies[m]) {
            (PresenceChange::Update { user_id, rooms: all, status }, _) => {
                assert(asks_rooms(actions.take(m), guild_rooms(rooms@.take(0))));
                lemma_next_question(
                    user_id,
                    all,
                    status,
                    Seq::empty(),
                    0,
                    states[n],
                    actions,
                    m,
                );
            },
            (
                PresenceChange::Audience { user_id, rooms: all, status, recipients, asked },
                PresenceReply::Members(members),
            ) => {
                lemma_next_question(
                    user_id,
                    all,
                    status,
                    with_others(texts(recipients@), member_ids(members@), user_id@),
                    (asked + 1) as nat,
                    states[n],
                    actions,
                    m,
                );
            },
            (PresenceChange::Audience { user_id, rooms: all, status, recipients, asked }, _) => {
                lemma_next_question(
                    user_id,
                    all,
                    status,
                    texts(recipients@),
                    (asked + 1) as nat,
                    states[n],
                    actions,
                    m,
                );
            },
            _ => {},
        }
    }
}

/// Before others are told of a status, the members of every guild of the user are asked for, in
/// the order of its rooms, each room once; the room of the administrators is no guild.
pub proof fn lemma_every_room_asked(
    states: Seq<PresenceChange>,
    replies: Seq<PresenceReply>,
    actions: Seq<PresenceAction>,
    notice: Notice,
)
    requires
        runs(states, replies, actions),
        actions.len() > 0,
        actions.last() == PresenceAction::Finish(Some(notice)),
    ensures
        asks_rooms(actions, guild_rooms(states[0]->Status_rooms@)),
{
    let n = replies.len() as int;
    lemma_asked_so_far(states, replies, actions, n);
    assert(actions.take(n) =~= actions);
}

/// A change of status writes the status that was named into the row of the user, and only where
/// the user is there with another status; before that, exactly the row of the user is asked for.
pub proof fn lemma_status_stored(
    before: PresenceChange,
    reply: PresenceReply,
    next: PresenceChange,
    action: PresenceAction,
)
    requires
        before.awaits(reply),
        follows(before, reply, next, action),
    ensures
        before is Status ==> match reply {
            PresenceReply::Status(Some(status)) => {
                &&& next is User
                &&& next->User_status == status
                &&& next->User_user_id == before->Status_user_id
                &&& action is FetchUser
                &&& action->FetchUser_0.sql@ == "SELECT * FROM users WHERE id = $1 LIMIT 1"@
                &&& action->FetchUser_0.params@ == seq![SqlValue::Text(before->Status_user_id)]
            },
            _ => next is Over && action == PresenceAction::Finish(None),
        },
        before is User ==> {
            let stored = reply is User && reply->User_0 is Some && reply->User_0->0.status@
                != before->User_status@;
            &&& stored ==> {
                &&& next is Update
                &&& next->Update_status == before->User_status
                &&& next->Update_user_id == before->User_user_id
                &&& action is Update
                &&& action->Update_0.sql@
                    == "UPDATE users SET status = $1 WHERE id = $2 RETURNING *"@
                &&& action->Update_0.params@ == seq![
                    SqlValue::Text(before->User_status),
                    SqlValue::Text(before->User_user_id),
                ]
            }
            &&& !stored ==> next is Over && action == PresenceAction::Finish(None)
        },
        before is Update ==> next is Audience || action matches PresenceAction::Finish(Some(_)),
{
    match (before, reply) {
        (PresenceChange::Status { user_id, .. }, PresenceReply::Status(Some(_))) => {
            lemma_lookup_asks(action->FetchUser_0, "users"@, "id"@, user_id);
            reveal_strlit("SELECT * FROM ");
            reveal_strlit("users");
            reveal_strlit(" WHERE ");
            reveal_strlit("id");
            reveal_strlit(" = $1 LIMIT 1");
            reveal_strlit("SELECT * FROM users WHERE id = $1 LIMIT 1");
            assert("SELECT * FROM "@ + "users"@ + " WHERE "@ + "id"@ + " = $1 LIMIT 1"@
                =~= "SELECT * FROM users WHERE id = $1 LIMIT 1"@);
        },
        (PresenceChange::User { user_id, status, .. }, PresenceReply::User(Some(user))) => {
            if user.status@ != status@ {
                lemma_status_statement(action->Update_0, user_id, status);
            }
        },
        _ => {},
    }
}

/// The statement that sets the status of a user.
proof fn lemma_status_statement(s: Statement, user_id: String, status: String)
    requires
        sets_status(s, user_id, status),
    ensures
        s.sql@ == "UPDATE users SET status = $1 WHERE id = $2 RETURNING *"@,
        s.params@ == seq![SqlValue::Text(status), SqlValue::Text(user_id)],
{
    let change = UpdateView::empty().filtered(
        FragmentsView::empty().compare("id"@, SqlValue::Text(user_id)),
    ).set("status"@, SqlValue::Text(status));
    lemma_change_numbers(change, "users"@);
    let parts = change.assignments();
    assert(parts =~= seq!["status"@ + " = $"@ + decimal(1)]);
    assert(join(parts, ", "@) == "status"@ + " = $"@ + decimal(1));
    let sql_conds = Seq::new(
        change.filter.fragments.len(),
        |i: int|
            change.filter.fragments[i] + " = $"@ + decimal(
                (change.set_columns.len() + change.steps.len() + 1 + i) as nat,
            ),
    );
    assert(sql_conds =~= seq!["id"@ + " = $"@ + decimal(2)]);
    assert(join(sql_conds, " AND "@) == "id"@ + " = $"@ + decimal(2));
    assert(change.params() =~= seq![SqlValue::Text(status), SqlValue::Text(user_id)]);
    reveal_strlit("UPDATE ");
    reveal_strlit("users");
    reveal_strlit(" SET ");
    reveal_strlit("status");
    reveal_strlit(" = $");
    reveal_strlit(" WHERE ");
    reveal_strlit("id");
    reveal_strlit(" RETURNING *");
    reveal_strlit("UPDATE users SET status = $1 WHERE id = $2 RETURNING *");
    assert("UPDATE "@ + "users"@ + " SET "@ + ("status"@ + " = $"@ + decimal(1)) + " WHERE "@ + (
    "id"@ + " = $"@ + decimal(2)) + " RETURNING *"@
        =~= "UPDATE users SET status = $1 WHERE id = $2 RETURNING *"@);
}

} // verus!
