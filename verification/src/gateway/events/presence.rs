//! How a user changes its status: what is looked up and changed one after another, and who is
//! told.

use vstd::prelude::*;
use crate::gateway::audience::{add_others, lemma_with_others, with_others};
use crate::gateway::events::identify::{ids_of_members, member_ids, others_once, Notice};
use crate::gateway::payload::{presence_report, presence_update, Payload};
use crate::json::{Json, JsonView};
use crate::orm::change::{FragmentsView, UpdateView};
use crate::orm::guild_members::{GuildMembers, GuildMembersQuery, GuildMembersWhereBuilder};
use crate::orm::lookup::{asks_all, asks_one};
use crate::orm::users::{Users, UsersQuery, UsersUpdate, UsersWhereBuilder};
use crate::orm::value::{SqlValue, Statement};
use crate::text::chars::{owned, same_text, texts};

verus! {

/// The status that a client asks for: the text under `status`, or else `ONLINE`.
pub open spec fn wanted_status(data: Option<JsonView>) -> Seq<char> {
    match data {
        Some(data) => match data.field("status"@) {
            Some(JsonView::Text(status)) => status,
            _ => "ONLINE"@,
        },
        None => "ONLINE"@,
    }
}

/// Reads the status that a client asks for.
pub fn status_wanted(data: &Option<Json>) -> (r: String)
    ensures
        r@ == wanted_status(
            match *data {
                Some(d) => Some(d@),
                None => None,
            },
        ),
{
    match data {
        Some(data) => match data.get("status") {
            Some(Json::Text(status)) => status.clone(),
            _ => owned("ONLINE"),
        },
        None => owned("ONLINE"),
    }
}

/// How far a change of status has come, and what it waits for.
#[derive(Debug, PartialEq)]
pub enum PresenceChange {
    /// For the name of the status that is meant.
    Status { user_id: String, rooms: Vec<String> },
    /// For the user.
    User { user_id: String, rooms: Vec<String>, status: String },
    /// For the user to have been changed.
    Update { user_id: String, rooms: Vec<String>, status: String },
    /// For the members of the guild of room number `asked`, who are to be told.
    Audience {
        user_id: String,
        rooms: Vec<String>,
        status: String,
        recipients: Vec<String>,
        asked: usize,
    },
    /// For nothing.
    Over,
}

/// What is to be done next.
#[derive(Debug, PartialEq)]
pub enum PresenceAction {
    /// See which status a text names.
    ParseStatus(String),
    FetchUser(Statement),
    Update(Statement),
    FetchMembers(Statement),
    /// Send the notice, where there is one, to its recipients.
    Finish(Option<Notice>),
}

/// What came of it.
#[derive(Debug, PartialEq)]
pub enum PresenceReply {
    /// The name of the status, where the text names one.
    Status(Option<String>),
    User(Option<Users>),
    Updated,
    Members(Vec<GuildMembers>),
    /// The database has failed.
    Failed,
}

impl PresenceChange {
    /// Whether this is a reply to what is waited for.
    pub open spec fn awaits(self, reply: PresenceReply) -> bool {
        match self {
            PresenceChange::Status { .. } => reply is Status,
            PresenceChange::User { .. } => reply is User || reply is Failed,
            PresenceChange::Update { .. } => reply is Updated || reply is Failed,
            PresenceChange::Audience { .. } => reply is Members || reply is Failed,
            PresenceChange::Over => false,
        }
    }

    /// Whether there is a room whose members are waited for. Those to be told are listed once,
    /// without the user.
    pub open spec fn valid(self) -> bool {
        match self {
            PresenceChange::Audience { user_id, rooms, recipients, asked, .. } => asked
                < rooms@.len() && others_once(texts(recipients@), user_id@),
            _ => true,
        }
    }
}

/// The first room from a place on that is the room of a guild.
pub open spec fn next_guild_room(rooms: Seq<Seq<char>>, from: nat) -> nat
    decreases rooms.len() - from,
{
    if from >= rooms.len() || rooms[from as int] != "admins"@ {
        from
    } else {
        next_guild_room(rooms, from + 1)
    }
}

/// Whether a statement sets the status of a user.
pub open spec fn sets_status(s: Statement, user_id: String, status: String) -> bool {
    let change = UpdateView::empty().filtered(
        FragmentsView::empty().compare("id"@, SqlValue::Text(user_id)),
    ).set("status"@, SqlValue::Text(status));
    s.says(change.sql("users"@), change.params())
}

/// Whether the change goes on with the next guild whose members are to be told, or, where there
/// is none left, ends with the notice.
pub open spec fn goes_on_with_rooms(
    user_id: String,
    rooms: Vec<String>,
    status: String,
    recipients: Seq<Seq<char>>,
    from: nat,
    next: PresenceChange,
    action: PresenceAction,
) -> bool {
    let room = next_guild_room(texts(rooms@), from);
    if room < rooms@.len() {
        &&& next matches PresenceChange::Audience {
            user_id: u,
            rooms: rs,
            status: st,
            recipients: r,
            asked,
        } && u == user_id && rs == rooms && st == status && texts(r@) == recipients && asked
            == room
        &&& action matches PresenceAction::FetchMembers(s) && asks_all(
            s,
            "guildmembers"@,
            "guild_id"@,
            rooms@[room as int],
        )
    } else {
        &&& next is Over
        &&& action matches PresenceAction::Finish(notice) && notice is Some && texts(
            notice->0.recipients@,
        ) == recipients && notice->0.payload@ == presence_report(user_id@, status@)
    }
}

/// Whether the change ends with nobody told.
pub open spec fn ends(next: PresenceChange, action: PresenceAction) -> bool {
    next is Over && action == PresenceAction::Finish(None)
}

/// Whether this is what follows a reply.
pub open spec fn follows(
    before: PresenceChange,
    reply: PresenceReply,
    next: PresenceChange,
    action: PresenceAction,
) -> bool {
    match (before, reply) {
        (PresenceChange::Status { user_id, rooms }, PresenceReply::Status(named)) => match named {
            Some(status) => {
                &&& next == PresenceChange::User { user_id, rooms, status }
                &&& action matches PresenceAction::FetchUser(s) && asks_one(
                    s,
                    "users"@,
                    "id"@,
                    user_id,
                )
            },
            None => ends(next, action),
        },
        (PresenceChange::User { user_id, rooms, status }, PresenceReply::User(Some(user))) => {
            if user.status@ == status@ {
                ends(next, action)
            } else {
                &&& next == PresenceChange::Update { user_id, rooms, status }
                &&& action matches PresenceAction::Update(s) && sets_status(s, user_id, status)
            }
        },
        (PresenceChange::User { .. }, _) => ends(next, action),
        (PresenceChange::Update { user_id, rooms, status }, _) => goes_on_with_rooms(
            user_id,
            rooms,
            status,
            Seq::empty(),
            0,
            next,
            action,
        ),
        (
            PresenceChange::Audience { user_id, rooms, status, recipients, asked },
            PresenceReply::Members(members),
        ) => goes_on_with_rooms(
            user_id,
            rooms,
            status,
            with_others(texts(recipients@), member_ids(members@), user_id@),
            (asked + 1) as nat,
            next,
            action,
        ),
        (PresenceChange::Audience { user_id, rooms, status, recipients, asked }, _) => {
            goes_on_with_rooms(
                user_id,
                rooms,
                status,
                texts(recipients@),
                (asked + 1) as nat,
                next,
                action,
            )
        },
        _ => true,
    }
}

/// Begins with what a client has sent: the status that it asks for is to be named.
pub fn begin(user_id: &str, rooms: Vec<String>, data: Option<Json>) -> (r: (
    PresenceChange,
    PresenceAction,
))
    ensures
        r.0 matches PresenceChange::Status { user_id: u, rooms: rs } && u@ == user_id@ && rs
            == rooms,
        r.1 matches PresenceAction::ParseStatus(text) && text@ == wanted_status(
            match data {
                Some(d) => Some(d@),
                None => None,
            },
        ),
        r.0.valid(),
{
    let wanted: String = status_wanted(&data);
    (
        PresenceChange::Status { user_id: owned(user_id), rooms },
        PresenceAction::ParseStatus(wanted),
    )
}

/// Goes on with the next room that is the room of a guild.
fn next_room(
    user_id: String,
    rooms: Vec<String>,
    status: String,
    recipients: Vec<String>,
    from: usize,
) -> (r: (PresenceChange, PresenceAction))
    requires
        from <= rooms@.len(),
        others_once(texts(recipients@), user_id@),
    ensures
        r.0.valid(),
        goes_on_with_rooms(
            user_id,
            rooms,
            status,
            texts(recipients@),
            from as nat,
            r.0,
            r.1,
        ),
        r.1 matches PresenceAction::Finish(Some(notice)) ==> others_once(
            texts(notice.recipients@),
            user_id@,
        ),
{
    let mut i: usize = from;
    while i < rooms.len() && same_text(rooms[i].as_str(), "admins")
        invariant
            i <= rooms@.len(),
            next_guild_room(texts(rooms@), from as nat) == next_guild_room(
                texts(rooms@),
                i as nat,
            ),
        decreases rooms@.len() - i,
    {
        i = i + 1;
    }
    if i < rooms.len() {
        let s: Statement = GuildMembersQuery::from_builder(
            GuildMembersWhereBuilder::new().where_guild_id(rooms[i].clone()),
        ).select();
        (
            PresenceChange::Audience { user_id, rooms, status, recipients, asked: i },
            PresenceAction::FetchMembers(s),
        )
    } else {
        let payload: Payload = presence_update(user_id.as_str(), status.as_str());
        (PresenceChange::Over, PresenceAction::Finish(Some(Notice { recipients, payload })))
    }
}

/// The statement that sets the status of a user.
fn status_statement(user_id: &String, status: &String) -> (r: Statement)
    ensures
        sets_status(r, *user_id, *status),
{
    UsersUpdate::new().where_id(user_id.clone()).set_status(status.clone()).statement().unwrap()
}

/// Goes on with a reply.
pub fn step(state: PresenceChange, reply: PresenceReply) -> (r: (PresenceChange, PresenceAction))
    requires
        state.valid(),
        state.awaits(reply),
    ensures
        r.0.valid(),
        follows(state, reply, r.0, r.1),
        match (state, r.1) {
            (
                PresenceChange::Audience { user_id, .. },
                PresenceAction::Finish(Some(notice)),
            ) => others_once(texts(notice.recipients@), user_id@),
            _ => true,
        },
{
    match (state, reply) {
        (PresenceChange::Status { user_id, rooms }, PresenceReply::Status(Some(status))) => {
            let s: Statement = UsersQuery::from_builder(
                UsersWhereBuilder::new().where_id(user_id.clone()),
            ).first();
            (PresenceChange::User { user_id, rooms, status }, PresenceAction::FetchUser(s))
        },
        (PresenceChange::User { user_id, rooms, status }, PresenceReply::User(Some(user))) => {
            if same_text(user.status.as_str(), status.as_str()) {
                (PresenceChange::Over, PresenceAction::Finish(None))
            } else {
                let s: Statement = status_statement(&user_id, &status);
                (PresenceChange::Update { user_id, rooms, status }, PresenceAction::Update(s))
            }
        },
        (PresenceChange::Update { user_id, rooms, status }, _) => {
            let nobody: Vec<String> = Vec::new();
            assert(texts(nobody@) =~= Seq::<Seq<char>>::empty());
            next_room(user_id, rooms, status, nobody, 0)
        },
        (
            PresenceChange::Audience { user_id, rooms, status, recipients, asked },
            PresenceReply::Members(members),
        ) => {
            let ids: Vec<String> = ids_of_members(members);
            proof {
                lemma_with_others(texts(recipients@), texts(ids@), user_id@);
            }
            let recipients: Vec<String> = add_others(recipients, ids, user_id.as_str());
            let total: usize = rooms.len();
            assert(asked < total);
            next_room(user_id, rooms, status, recipients, asked + 1)
        },
        (PresenceChange::Audience { user_id, rooms, status, recipients, asked }, _) => {
            let total: usize = rooms.len();
            assert(asked < total);
            next_room(user_id, rooms, status, recipients, asked + 1)
        },
        _ => (PresenceChange::Over, PresenceAction::Finish(None)),
    }
}

impl PresenceChange {
    /// What is still ahead: the stage, then the rooms.
    pub open spec fn ahead(self) -> (nat, nat) {
        match self {
            PresenceChange::Status { .. } => (4, 0),
            PresenceChange::User { .. } => (3, 0),
            PresenceChange::Update { .. } => (2, 0),
            PresenceChange::Audience { rooms, asked, .. } => (1, (rooms@.len() - asked) as nat),
            PresenceChange::Over => (0, 0),
        }
    }
}

/// The next room of a guild is not before the place from which it is looked for.
proof fn lemma_next_guild_room(rooms: Seq<Seq<char>>, from: nat)
    ensures
        next_guild_room(rooms, from) >= from,
    decreases rooms.len() - from,
{
    if from < rooms.len() && rooms[from as int] == "admins"@ {
        lemma_next_guild_room(rooms, from + 1);
    }
}

/// Every reply brings the change nearer to its end, so that it asks only finitely often.
pub proof fn lemma_progress(
    before: PresenceChange,
    reply: PresenceReply,
    next: PresenceChange,
    action: PresenceAction,
)
    requires
        before.valid(),
        before.awaits(reply),
        follows(before, reply, next, action),
    ensures
        next.ahead().0 < before.ahead().0 || (next.ahead().0 == before.ahead().0
            && next.ahead().1 < before.ahead().1),
{
    if let PresenceChange::Audience { rooms, asked, .. } = before {
        lemma_next_guild_room(texts(rooms@), (asked + 1) as nat);
    }
}

} // verus!
