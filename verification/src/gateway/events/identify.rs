//! How a client identifies itself: which rows are asked for one after another, and what follows
//! from them.

use vstd::prelude::*;
use crate::auth::token::{token_holder, verify_token};
use crate::gateway::audience::{add_others, lemma_with_others, with_others};
use crate::gateway::events::ready::{
    ready, ready_json, room_ids, rooms, Caller, GuildVisit, MemberVisit, Person,
};
use crate::gateway::payload::{presence_report, presence_update, Payload, PayloadView};
use crate::models::AccountSettings;
use crate::orm::accounts::{Accounts, AccountsQuery, AccountsWhereBuilder};
use crate::orm::channels::{Channels, ChannelsQuery, ChannelsWhereBuilder};
use crate::orm::guild_members::{GuildMembers, GuildMembersQuery, GuildMembersWhereBuilder};
use crate::orm::guilds::{Guilds, GuildsQuery, GuildsWhereBuilder};
use crate::orm::lookup::{asks_all, asks_one};
use crate::orm::users::{Users, UsersQuery, UsersWhereBuilder};
use crate::orm::value::Statement;
use crate::text::chars::{owned, same_text, texts};

verus! {

/// Who a client has turned out to be, and the rooms that it is in.
#[derive(Debug, PartialEq)]
pub struct IdentifyResult {
    pub user_id: String,
    pub rooms: Vec<String>,
}

/// Why a client could not be identified.
#[derive(Debug, PartialEq)]
pub enum IdentifyError {
    NoToken,
    InvalidToken,
    AccountNotFound,
    UserNotFound,
    SettingsNotFound,
    /// The database answered with this error.
    Database(String),
}

impl IdentifyError {
    /// The words for the error.
    pub open spec fn words(self) -> Seq<char> {
        match self {
            IdentifyError::NoToken => "No token provided"@,
            IdentifyError::InvalidToken => "Invalid token"@,
            IdentifyError::AccountNotFound => "Account not found"@,
            IdentifyError::UserNotFound => "User not found"@,
            IdentifyError::SettingsNotFound => "Account settings not found"@,
            IdentifyError::Database(e) => e@,
        }
    }

    /// The words for the error.
    pub fn message(&self) -> (r: String)
        ensures
            r@ == self.words(),
    {
        match self {
            IdentifyError::NoToken => owned("No token provided"),
            IdentifyError::InvalidToken => owned("Invalid token"),
            IdentifyError::AccountNotFound => owned("Account not found"),
            IdentifyError::UserNotFound => owned("User not found"),
            IdentifyError::SettingsNotFound => owned("Account settings not found"),
            IdentifyError::Database(e) => e.clone(),
        }
    }
}

/// How far the identification of a client has come, and what it waits for.
#[derive(Debug, PartialEq)]
pub enum Identify {
    /// For the account with the token.
    Account,
    /// For the user of the account.
    User { account: Accounts },
    /// For the settings of the account.
    Settings { account: Accounts, user: Users },
    /// For the memberships of the user.
    Memberships { account: Accounts, user: Users, settings: AccountSettings },
    /// For the guild of the next membership.
    Guild { caller: Caller, visits: Vec<Option<GuildVisit>> },
    /// For the channels of that guild.
    Channels { caller: Caller, visits: Vec<Option<GuildVisit>>, guild: Guilds },
    /// For the members of that guild.
    Members {
        caller: Caller,
        visits: Vec<Option<GuildVisit>>,
        guild: Guilds,
        channels: Vec<Channels>,
    },
    /// For the user of the next of those members.
    Person {
        caller: Caller,
        visits: Vec<Option<GuildVisit>>,
        guild: Guilds,
        channels: Vec<Channels>,
        members: Vec<GuildMembers>,
        seen: Vec<MemberVisit>,
    },
    /// For the client to have been told.
    Ready { caller: Caller },
    /// For the members of the guild of membership number `asked`, who are to be told.
    Audience { caller: Caller, recipients: Vec<String>, asked: usize },
    /// For nothing.
    Over,
}

/// What is to be done next.
#[derive(Debug, PartialEq)]
pub enum IdentifyAction {
    FetchAccount(Statement),
    FetchUser(Statement),
    FetchSettings { account_id: String },
    FetchMemberships(Statement),
    FetchGuild(Statement),
    FetchChannels(Statement),
    FetchMembers(Statement),
    /// Fetch a user, and see whether it has an open socket.
    FetchPerson(Statement),
    /// Send this to the client.
    Send(Payload),
    /// The client is identified. Send the notice, where there is one, to its recipients.
    Finish { result: IdentifyResult, notice: Option<Notice> },
    /// The client is not identified.
    Fail(IdentifyError),
}

/// A message for some users.
#[derive(Debug, PartialEq)]
pub struct Notice {
    pub recipients: Vec<String>,
    pub payload: Payload,
}

/// What came of it.
#[derive(Debug, PartialEq)]
pub enum IdentifyReply {
    Account(Option<Accounts>),
    User(Option<Users>),
    Settings(Option<AccountSettings>),
    Memberships(Vec<GuildMembers>),
    Guild(Option<Guilds>),
    Channels(Vec<Channels>),
    Members(Vec<GuildMembers>),
    Person(Option<Person>),
    Sent,
    Failed(String),
}

/// Whether a list has nothing twice, and not `own`.
pub open spec fn others_once(list: Seq<Seq<char>>, own: Seq<char>) -> bool {
    list.no_duplicates() && !list.contains(own)
}

impl Identify {
    /// Whether this is a reply to what is waited for. The database may fail at any time.
    pub open spec fn awaits(self, reply: IdentifyReply) -> bool {
        match self {
            Identify::Account => reply is Account || reply is Failed,
            Identify::User { .. } => reply is User || reply is Failed,
            Identify::Settings { .. } => reply is Settings || reply is Failed,
            Identify::Memberships { .. } => reply is Memberships || reply is Failed,
            Identify::Guild { .. } => reply is Guild || reply is Failed,
            Identify::Channels { .. } => reply is Channels || reply is Failed,
            Identify::Members { .. } => reply is Members || reply is Failed,
            Identify::Person { .. } => reply is Person || reply is Failed,
            Identify::Ready { .. } => reply is Sent,
            Identify::Audience { .. } => reply is Members || reply is Failed,
            Identify::Over => false,
        }
    }

    /// Whether there is something to wait for: a membership whose guild was not visited, a
    /// member whose user was not fetched. Those to be told are listed once, without the client.
    pub open spec fn valid(self) -> bool {
        match self {
            Identify::Guild { caller, visits } => visits@.len() < caller.memberships@.len(),
            Identify::Channels { caller, visits, .. } => visits@.len()
                < caller.memberships@.len(),
            Identify::Members { caller, visits, .. } => visits@.len()
                < caller.memberships@.len(),
            Identify::Person { caller, visits, members, seen, .. } => visits@.len()
                < caller.memberships@.len() && seen@.len() < members@.len(),
            Identify::Audience { caller, recipients, asked } => asked < caller.memberships@.len()
                && others_once(texts(recipients@), caller.account.id@),
            _ => true,
        }
    }
}

/// Whether the identification goes on with the next membership: its guild is asked for, or,
/// where there is none left, the client is told.
pub open spec fn goes_on_with_guilds(
    caller: Caller,
    visits: Seq<Option<GuildVisit>>,
    next: Identify,
    action: IdentifyAction,
) -> bool {
    if visits.len() < caller.memberships@.len() {
        &&& next matches Identify::Guild { caller: c, visits: v } && c == caller && v@ == visits
        &&& action matches IdentifyAction::FetchGuild(s) && asks_one(
            s,
            "guilds"@,
            "id"@,
            caller.memberships@[visits.len() as int].guild_id,
        )
    } else {
        &&& next == Identify::Ready { caller }
        &&& action matches IdentifyAction::Send(payload) && payload@ == PayloadView::dispatch(
            "READY"@,
            ready_json(caller, visits),
        )
    }
}

/// Whether the identification goes on with the next member of a guild: its user is asked for,
/// or, where there is none left, the visit of the guild is over.
pub open spec fn goes_on_with_members(
    caller: Caller,
    visits: Seq<Option<GuildVisit>>,
    guild: Guilds,
    channels: Seq<Channels>,
    members: Seq<GuildMembers>,
    seen: Seq<MemberVisit>,
    next: Identify,
    action: IdentifyAction,
) -> bool {
    if seen.len() < members.len() {
        &&& next matches Identify::Person {
            caller: c,
            visits: v,
            guild: g,
            channels: ch,
            members: m,
            seen: p,
        } && c == caller && v@ == visits && g == guild && ch@ == channels && m@ == members && p@
            == seen
        &&& action matches IdentifyAction::FetchPerson(s) && asks_one(
            s,
            "users"@,
            "id"@,
            members[seen.len() as int].user_id,
        )
    } else {
        exists|visit: GuildVisit|
            {
                &&& visit.guild == guild
                &&& visit.channels@ == channels
                &&& visit.members@ == seen
                &&& #[trigger] goes_on_with_guilds(
                    caller,
                    visits.push(Some(visit)),
                    next,
                    action,
                )
            }
    }
}

/// Whether a notice tells some recipients that the client is there.
pub open spec fn tells(notice: Notice, caller: Caller, recipients: Seq<Seq<char>>) -> bool {
    &&& texts(notice.recipients@) == recipients
    &&& notice.payload@ == presence_report(caller.user.id@, caller.user.status@)
}

/// Whether a result is that of the client.
pub open spec fn identifies(result: IdentifyResult, caller: Caller) -> bool {
    &&& result.user_id@ == caller.account.id@
    &&& texts(result.rooms@) == room_ids(caller.memberships@, caller.user.flags)
}

/// Whether the identification goes on with the next guild whose members are to be told, or, where
/// there is none left, ends with the notice.
pub open spec fn goes_on_with_audience(
    caller: Caller,
    recipients: Seq<Seq<char>>,
    asked: nat,
    next: Identify,
    action: IdentifyAction,
) -> bool {
    if asked < caller.memberships@.len() {
        &&& next matches Identify::Audience { caller: c, recipients: r, asked: a } && c == caller
            && texts(r@) == recipients && a == asked
        &&& action matches IdentifyAction::FetchMembers(s) && asks_all(
            s,
            "guildmembers"@,
            "guild_id"@,
            caller.memberships@[asked as int].guild_id,
        )
    } else {
        &&& next is Over
        &&& action matches IdentifyAction::Finish { result, notice } && identifies(result, caller)
            && notice is Some && tells(notice->0, caller, recipients)
    }
}

/// The ids of the users that memberships are of.
pub open spec fn member_ids(members: Seq<GuildMembers>) -> Seq<Seq<char>> {
    members.map_values(|m: GuildMembers| m.user_id@)
}

/// Whether the identification has failed.
pub open spec fn fails(error: IdentifyError, next: Identify, action: IdentifyAction) -> bool {
    next is Over && action == IdentifyAction::Fail(error)
}

/// Whether this is what follows a reply.
pub open spec fn follows(
    before: Identify,
    reply: IdentifyReply,
    next: Identify,
    action: IdentifyAction,
) -> bool {
    match (before, reply) {
        (_, IdentifyReply::Failed(e)) => fails(IdentifyError::Database(e), next, action),
        (Identify::Account, IdentifyReply::Account(found)) => match found {
            Some(account) => {
                &&& next == Identify::User { account }
                &&& action matches IdentifyAction::FetchUser(s) && asks_one(
                    s,
                    "users"@,
                    "id"@,
                    account.user_id,
                )
            },
            None => fails(IdentifyError::AccountNotFound, next, action),
        },
        (Identify::User { account }, IdentifyReply::User(found)) => match found {
            Some(user) => {
                &&& next == Identify::Settings { account, user }
                &&& action == IdentifyAction::FetchSettings { account_id: account.id }
            },
            None => fails(IdentifyError::UserNotFound, next, action),
        },
        (Identify::Settings { account, user }, IdentifyReply::Settings(found)) => match found {
            Some(settings) => {
                &&& next == Identify::Memberships { account, user, settings }
                &&& action matches IdentifyAction::FetchMemberships(s) && asks_all(
                    s,
                    "guildmembers"@,
                    "user_id"@,
                    account.id,
                )
            },
            None => fails(IdentifyError::SettingsNotFound, next, action),
        },
        (
            Identify::Memberships { account, user, settings },
            IdentifyReply::Memberships(memberships),
        ) => goes_on_with_guilds(
            Caller { account, user, settings, memberships },
            Seq::empty(),
            next,
            action,
        ),
        (Identify::Guild { caller, visits }, IdentifyReply::Guild(found)) => match found {
            Some(guild) => {
                &&& next == Identify::Channels { caller, visits, guild }
                &&& action matches IdentifyAction::FetchChannels(s) && asks_all(
                    s,
                    "channels"@,
                    "guild_id"@,
                    guild.id,
                )
            },
            None => goes_on_with_guilds(caller, visits@.push(None), next, action),
        },
        (Identify::Channels { caller, visits, guild }, IdentifyReply::Channels(channels)) => {
            &&& next == Identify::Members { caller, visits, guild, channels }
            &&& action matches IdentifyAction::FetchMembers(s) && asks_all(
                s,
                "guildmembers"@,
                "guild_id"@,
                guild.id,
            )
        },
        (
            Identify::Members { caller, visits, guild, channels },
            IdentifyReply::Members(members),
        ) => goes_on_with_members(
            caller,
            visits@,
            guild,
            channels@,
            members@,
            Seq::empty(),
            next,
            action,
        ),
        (
            Identify::Person { caller, visits, guild, channels, members, seen },
            IdentifyReply::Person(person),
        ) => goes_on_with_members(
            caller,
            visits@,
            guild,
            channels@,
            members@,
            seen@.push(MemberVisit { member: members@[seen@.len() as int], person }),
            next,
            action,
        ),
        (Identify::Ready { caller }, IdentifyReply::Sent) => if caller.user.status@
            == "UNAVAILABLE"@ {
            &&& next is Over
            &&& action matches IdentifyAction::Finish { result, notice } && identifies(
                result,
                caller,
            ) && notice is None
        } else {
            goes_on_with_audience(caller, Seq::empty(), 0, next, action)
        },
        (
            Identify::Audience { caller, recipients, asked },
            IdentifyReply::Members(members),
        ) => goes_on_with_audience(
            caller,
            with_others(texts(recipients@), member_ids(members@), caller.account.id@),
            (asked + 1) as nat,
            next,
            action,
        ),
        _ => true,
    }
}

/// Begins with the token that a client has sent: the account with the token is asked for, unless
/// there is no token or it was not made with the secret.
pub fn begin(token: Option<String>, token_secret: &str) -> (r: (Identify, IdentifyAction))
    ensures
        match token {
            Some(token) => if token_holder(token@, token_secret@) is Some {
                &&& r.0 is Account
                &&& r.1 matches IdentifyAction::FetchAccount(s) && asks_one(
                    s,
                    "accounts"@,
                    "token"@,
                    token,
                )
            } else {
                fails(IdentifyError::InvalidToken, r.0, r.1)
            },
            None => fails(IdentifyError::NoToken, r.0, r.1),
        },
{
    match token {
        Some(token) => match verify_token(token.as_str(), token_secret) {
            Some(_) => {
                let s: Statement = AccountsQuery::from_builder(
                    AccountsWhereBuilder::new().where_token(token),
                ).first();
                (Identify::Account, IdentifyAction::FetchAccount(s))
            },
            None => (Identify::Over, IdentifyAction::Fail(IdentifyError::InvalidToken)),
        },
        None => (Identify::Over, IdentifyAction::Fail(IdentifyError::NoToken)),
    }
}

/// Goes on with the next membership.
fn next_guild(caller: Caller, visits: Vec<Option<GuildVisit>>) -> (r: (Identify, IdentifyAction))
    ensures
        r.0.valid(),
        goes_on_with_guilds(caller, visits@, r.0, r.1),
{
    if visits.len() < caller.memberships.len() {
        let id: String = caller.memberships[visits.len()].guild_id.clone();
        let s: Statement = GuildsQuery::from_builder(
            GuildsWhereBuilder::new().where_id(id),
        ).first();
        (Identify::Guild { caller, visits }, IdentifyAction::FetchGuild(s))
    } else {
        let payload: Payload = ready(&caller, &visits);
        (Identify::Ready { caller }, IdentifyAction::Send(payload))
    }
}

/// Goes on with the next member of a guild.
fn next_person(
    caller: Caller,
    visits: Vec<Option<GuildVisit>>,
    guild: Guilds,
    channels: Vec<Channels>,
    members: Vec<GuildMembers>,
    seen: Vec<MemberVisit>,
) -> (r: (Identify, IdentifyAction))
    requires
        visits@.len() < caller.memberships@.len(),
    ensures
        r.0.valid(),
        goes_on_with_members(
            caller,
            visits@,
            guild,
            channels@,
            members@,
            seen@,
            r.0,
            r.1,
        ),
{
    if seen.len() < members.len() {
        let id: String = members[seen.len()].user_id.clone();
        let s: Statement = UsersQuery::from_builder(UsersWhereBuilder::new().where_id(id)).first();
        (
            Identify::Person { caller, visits, guild, channels, members, seen },
            IdentifyAction::FetchPerson(s),
        )
    } else {
        let visit: GuildVisit = GuildVisit { guild, channels, members: seen };
        let ghost whole = visits@.push(Some(visit));
        let mut visits: Vec<Option<GuildVisit>> = visits;
        visits.push(Some(visit));
        let r = next_guild(caller, visits);
        assert(goes_on_with_guilds(caller, whole, r.0, r.1));
        r
    }
}

/// Goes on with the next guild whose members are to be told.
fn next_audience(caller: Caller, recipients: Vec<String>, asked: usize) -> (r: (
    Identify,
    IdentifyAction,
))
    requires
        others_once(texts(recipients@), caller.account.id@),
    ensures
        r.0.valid(),
        goes_on_with_audience(caller, texts(recipients@), asked as nat, r.0, r.1),
        r.1 matches IdentifyAction::Finish { result, notice: Some(notice) } ==> others_once(
            texts(notice.recipients@),
            result.user_id@,
        ),
{
    if asked < caller.memberships.len() {
        let id: String = caller.memberships[asked].guild_id.clone();
        let s: Statement = GuildMembersQuery::from_builder(
            GuildMembersWhereBuilder::new().where_guild_id(id),
        ).select();
        (Identify::Audience { caller, recipients, asked }, IdentifyAction::FetchMembers(s))
    } else {
        let payload: Payload = presence_update(
            caller.user.id.as_str(),
            caller.user.status.as_str(),
        );
        let result: IdentifyResult = IdentifyResult {
            user_id: caller.account.id.clone(),
            rooms: rooms(&caller),
        };
        let notice: Option<Notice> = Some(Notice { recipients, payload });
        (Identify::Over, IdentifyAction::Finish { result, notice })
    }
}

/// The ids of the users that memberships are of.
pub fn ids_of_members(members: Vec<GuildMembers>) -> (r: Vec<String>)
    ensures
        texts(r@) == member_ids(members@),
{
    let mut out: Vec<String> = Vec::new();
    for member in it: members
        invariant
            it.seq() == members@,
            texts(out@) == member_ids(members@.take(it.index())),
    {
        let ghost before = texts(out@);
        let ghost id = member.user_id@;
        out.push(member.user_id);
        proof {
            assert(texts(out@) =~= before.push(id));
            assert(member_ids(members@.take(it.index() + 1)) =~= member_ids(
                members@.take(it.index()),
            ).push(id));
        }
    }
    assert(members@.take(members@.len() as int) =~= members@);
    out
}

/// The statement that fetches the memberships of a user.
pub fn memberships_of(user_id: String) -> (r: Statement)
    ensures
        asks_all(r, "guildmembers"@, "user_id"@, user_id),
{
    GuildMembersQuery::from_builder(
        GuildMembersWhereBuilder::new().where_user_id(user_id),
    ).select()
}

/// Goes on with a reply.
pub fn step(state: Identify, reply: IdentifyReply) -> (r: (Identify, IdentifyAction))
    requires
        state.valid(),
        state.awaits(reply),
    ensures
        r.0.valid(),
        follows(state, reply, r.0, r.1),
        r.1 matches IdentifyAction::Finish { result, notice: Some(notice) } ==> others_once(
            texts(notice.recipients@),
            result.user_id@,
        ),
{
    match (state, reply) {
        (_, IdentifyReply::Failed(e)) => (
            Identify::Over,
            IdentifyAction::Fail(IdentifyError::Database(e)),
        ),
        (Identify::Account, IdentifyReply::Account(Some(account))) => {
            let s: Statement = UsersQuery::from_builder(
                UsersWhereBuilder::new().where_id(account.user_id.clone()),
            ).first();
            (Identify::User { account }, IdentifyAction::FetchUser(s))
        },
        (Identify::Account, IdentifyReply::Account(None)) => (
            Identify::Over,
            IdentifyAction::Fail(IdentifyError::AccountNotFound),
        ),
        (Identify::User { account }, IdentifyReply::User(Some(user))) => {
            let account_id: String = account.id.clone();
            (Identify::Settings { account, user }, IdentifyAction::FetchSettings { account_id })
        },
        (Identify::User { .. }, IdentifyReply::User(None)) => (
            Identify::Over,
            IdentifyAction::Fail(IdentifyError::UserNotFound),
        ),
        (Identify::Settings { account, user }, IdentifyReply::Settings(Some(settings))) => {
            let s: Statement = memberships_of(account.id.clone());
            (
                Identify::Memberships { account, user, settings },
                IdentifyAction::FetchMemberships(s),
            )
        },
        (Identify::Settings { .. }, IdentifyReply::Settings(None)) => (
            Identify::Over,
            IdentifyAction::Fail(IdentifyError::SettingsNotFound),
        ),
        (
            Identify::Memberships { account, user, settings },
            IdentifyReply::Memberships(memberships),
        ) => {
            let caller: Caller = Caller { account, user, settings, memberships };
            next_guild(caller, Vec::new())
        },
        (Identify::Guild { caller, visits }, IdentifyReply::Guild(Some(guild))) => {
            let s: Statement = ChannelsQuery::from_builder(
                ChannelsWhereBuilder::new().where_guild_id(guild.id.clone()),
            ).select();
            (Identify::Channels { caller, visits, guild }, IdentifyAction::FetchChannels(s))
        },
        (Identify::Guild { caller, visits }, IdentifyReply::Guild(None)) => {
            let mut visits: Vec<Option<GuildVisit>> = visits;
            visits.push(None);
            next_guild(caller, visits)
        },
        (Identify::Channels { caller, visits, guild }, IdentifyReply::Channels(channels)) => {
            let s: Statement = GuildMembersQuery::from_builder(
                GuildMembersWhereBuilder::new().where_guild_id(guild.id.clone()),
            ).select();
            (
                Identify::Members { caller, visits, guild, channels },
                IdentifyAction::FetchMembers(s),
            )
        },
        (
            Identify::Members { caller, visits, guild, channels },
            IdentifyReply::Members(members),
        ) => next_person(caller, visits, guild, channels, members, Vec::new()),
        (
            Identify::Person { caller, visits, guild, channels, members, seen },
            IdentifyReply::Person(person),
        ) => {
            let member: GuildMembers = members[seen.len()].clone();
            let mut seen: Vec<MemberVisit> = seen;
            seen.push(MemberVisit { member, person });
            next_person(caller, visits, guild, channels, members, seen)
        },
        (Identify::Ready { caller }, IdentifyReply::Sent) => {
            if same_text(caller.user.status.as_str(), "UNAVAILABLE") {
                let result: IdentifyResult = IdentifyResult {
                    user_id: caller.account.id.clone(),
                    rooms: rooms(&caller),
                };
                (Identify::Over, IdentifyAction::Finish { result, notice: None })
            } else {
                let nobody: Vec<String> = Vec::new();
                assert(texts(nobody@) =~= Seq::<Seq<char>>::empty());
                next_audience(caller, nobody, 0)
            }
        },
        (
            Identify::Audience { caller, recipients, asked },
            IdentifyReply::Members(members),
        ) => {
            let total: usize = caller.memberships.len();
            assert(asked < total);
            let ids: Vec<String> = ids_of_members(members);
            proof {
                lemma_with_others(texts(recipients@), texts(ids@), caller.account.id@);
            }
            let recipients: Vec<String> = add_others(recipients, ids, caller.account.id.as_str());
            next_audience(caller, recipients, asked + 1)
        },
        // Nothing else is awaited.
        _ => {
            assert(false);
            (Identify::Over, IdentifyAction::Fail(IdentifyError::InvalidToken))
        },
    }
}

impl Identify {
    /// How many of the three phases are ahead: before the client is told, before others are
    /// told, and none.
    pub open spec fn phase(self) -> nat {
        match self {
            Identify::Ready { .. } => 1,
            Identify::Audience { .. } => 1,
            Identify::Over => 0,
            _ => 2,
        }
    }
}

impl Identify {
    /// What is still ahead, from the coarse to the fine: the stage, the guilds, what is asked of
    /// a guild, its members.
    pub open spec fn ahead(self) -> (nat, nat, nat, nat) {
        match self {
            Identify::Account => (7, 0, 0, 0),
            Identify::User { .. } => (6, 0, 0, 0),
            Identify::Settings { .. } => (5, 0, 0, 0),
            Identify::Memberships { .. } => (4, 0, 0, 0),
            Identify::Guild { caller, visits } => (
                3,
                (caller.memberships@.len() - visits@.len()) as nat,
                3,
                0,
            ),
            Identify::Channels { caller, visits, .. } => (
                3,
                (caller.memberships@.len() - visits@.len()) as nat,
                2,
                0,
            ),
            Identify::Members { caller, visits, .. } => (
                3,
                (caller.memberships@.len() - visits@.len()) as nat,
                1,
                0,
            ),
            Identify::Person { caller, visits, members, seen, .. } => (
                3,
                (caller.memberships@.len() - visits@.len()) as nat,
                0,
                (members@.len() - seen@.len()) as nat,
            ),
            Identify::Ready { .. } => (2, 0, 0, 0),
            Identify::Audience { caller, asked, .. } => (
                1,
                (caller.memberships@.len() - asked) as nat,
                0,
                0,
            ),
            Identify::Over => (0, 0, 0, 0),
        }
    }
}

/// Whether the first place in which two lists of four differ is smaller in the first.
pub open spec fn comes_before(a: (nat, nat, nat, nat), b: (nat, nat, nat, nat)) -> bool {
    ||| a.0 < b.0
    ||| a.0 == b.0 && a.1 < b.1
    ||| a.0 == b.0 && a.1 == b.1 && a.2 < b.2
    ||| a.0 == b.0 && a.1 == b.1 && a.2 == b.2 && a.3 < b.3
}

/// Every reply brings the identification nearer to its end, so that it asks only finitely often.
pub proof fn lemma_progress(
    before: Identify,
    reply: IdentifyReply,
    next: Identify,
    action: IdentifyAction,
)
    requires
        before.valid(),
        before.awaits(reply),
        follows(before, reply, next, action),
    ensures
        comes_before(next.ahead(), before.ahead()),
{
    match (before, reply) {
        (
            Identify::Members { caller, visits, guild, channels },
            IdentifyReply::Members(members),
        ) => {
            if members@.len() == 0 {
                lemma_visit_over(
                    caller,
                    visits@,
                    guild,
                    channels@,
                    members@,
                    Seq::empty(),
                    next,
                    action,
                );
            }
        },
        (
            Identify::Person { caller, visits, guild, channels, members, seen },
            IdentifyReply::Person(person),
        ) => {
            let more = seen@.push(MemberVisit { member: members@[seen@.len() as int], person });
            if more.len() >= members@.len() {
                lemma_visit_over(
                    caller,
                    visits@,
                    guild,
                    channels@,
                    members@,
                    more,
                    next,
                    action,
                );
            }
        },
        _ => {},
    }
}

/// Where all members of a guild were seen, the next guild follows, or the client is told.
proof fn lemma_visit_over(
    caller: Caller,
    visits: Seq<Option<GuildVisit>>,
    guild: Guilds,
    channels: Seq<Channels>,
    members: Seq<GuildMembers>,
    seen: Seq<MemberVisit>,
    next: Identify,
    action: IdentifyAction,
)
    requires
        seen.len() >= members.len(),
        goes_on_with_members(caller, visits, guild, channels, members, seen, next, action),
    ensures
        if visits.len() + 1 < caller.memberships@.len() {
            &&& next matches Identify::Guild { caller: c, visits: v } && c == caller && v@.len()
                == visits.len() + 1
            &&& action is FetchGuild
        } else {
            next == (Identify::Ready { caller }) && action is Send
        },
{
    let visit = choose|visit: GuildVisit|
        {
            &&& visit.guild == guild
            &&& visit.channels@ == channels
            &&& visit.members@ == seen
            &&& #[trigger] goes_on_with_guilds(caller, visits.push(Some(visit)), next, action)
        };
    assert(goes_on_with_guilds(caller, visits.push(Some(visit)), next, action));
}

/// A run of the identification: the states it is in, the replies it gets, and what it has done
/// on each.
pub open spec fn runs(
    states: Seq<Identify>,
    replies: Seq<IdentifyReply>,
    actions: Seq<IdentifyAction>,
) -> bool {
    &&& states.len() == replies.len() + 1
    &&& actions.len() == replies.len()
    &&& forall|i: int| #![trigger actions[i]]
        0 <= i < replies.len() ==> {
            &&& states[i].valid()
            &&& states[i].awaits(replies[i])
            &&& follows(states[i], replies[i], states[i + 1], actions[i])
        }
}

/// One step leads to the next phase or stays; the client is told on the way into the second
/// phase, and is identified on the way out of it.
proof fn lemma_phase(
    before: Identify,
    reply: IdentifyReply,
    next: Identify,
    action: IdentifyAction,
)
    requires
        before.valid(),
        before.awaits(reply),
        follows(before, reply, next, action),
    ensures
        next.phase() <= before.phase(),
        action is Send <==> before.phase() == 2 && next.phase() == 1,
        action is Finish ==> before.phase() == 1 && next.phase() == 0,
{
    match (before, reply) {
        (
            Identify::Members { caller, visits, guild, channels },
            IdentifyReply::Members(members),
        ) => {
            if members@.len() == 0 {
                lemma_visit_over(
                    caller,
                    visits@,
                    guild,
                    channels@,
                    members@,
                    Seq::empty(),
                    next,
                    action,
                );
            }
        },
        (
            Identify::Person { caller, visits, guild, channels, members, seen },
            IdentifyReply::Person(person),
        ) => {
            let more = seen@.push(MemberVisit { member: members@[seen@.len() as int], person });
            if more.len() >= members@.len() {
                lemma_visit_over(
                    caller,
                    visits@,
                    guild,
                    channels@,
                    members@,
                    more,
                    next,
                    action,
                );
            }
        },
        _ => {},
    }
}

/// The phase at any time of a run is no earlier than before.
proof fn lemma_run_phases(
    states: Seq<Identify>,
    replies: Seq<IdentifyReply>,
    actions: Seq<IdentifyAction>,
    i: int,
    j: int,
)
    requires
        runs(states, replies, actions),
        0 <= i <= j < states.len(),
    ensures
        states[j].phase() <= states[i].phase(),
    decreases j - i,
{
    if i < j {
        lemma_run_phases(states, replies, actions, i, j - 1);
        assert(actions[j - 1] == actions[j - 1]);
        lemma_phase(states[j - 1], replies[j - 1], states[j], actions[j - 1]);
    }
}

/// In a run, a client is told at most once, and it is identified only after it was told.
pub proof fn lemma_told_once(
    states: Seq<Identify>,
    replies: Seq<IdentifyReply>,
    actions: Seq<IdentifyAction>,
)
    requires
        runs(states, replies, actions),
        states[0] is Account,
    ensures
        forall|i: int, j: int|
            0 <= i < actions.len() && 0 <= j < actions.len() && actions[i] is Send
                && actions[j] is Send ==> i == j,
        forall|j: int|
            0 <= j < actions.len() && #[trigger] actions[j] is Finish ==> exists|i: int|
                0 <= i < j && actions[i] is Send,
{
    assert forall|i: int, j: int|
        0 <= i < actions.len() && 0 <= j < actions.len() && actions[i] is Send
            && actions[j] is Send implies i == j by {
        lemma_phase(states[i], replies[i], states[i + 1], actions[i]);
        lemma_phase(states[j], replies[j], states[j + 1], actions[j]);
        if i < j {
            lemma_run_phases(states, replies, actions, i + 1, j);
        }
        if j < i {
            lemma_run_phases(states, replies, actions, j + 1, i);
        }
    }
    assert forall|j: int|
        0 <= j < actions.len() && #[trigger] actions[j] is Finish implies exists|i: int|
        0 <= i < j && actions[i] is Send by {
        lemma_phase(states[j], replies[j], states[j + 1], actions[j]);
        lemma_first_drop(states, replies, actions, j);
    }
}

/// Where a run has come to the second phase, the client was told on the way.
proof fn lemma_first_drop(
    states: Seq<Identify>,
    replies: Seq<IdentifyReply>,
    actions: Seq<IdentifyAction>,
    j: int,
)
    requires
        runs(states, replies, actions),
        states[0] is Account,
        0 <= j < states.len(),
        states[j].phase() == 1,
    ensures
        exists|i: int| 0 <= i < j && actions[i] is Send,
    decreases j,
{
    assert(j > 0);
    assert(actions[j - 1] == actions[j - 1]);
    lemma_phase(states[j - 1], replies[j - 1], states[j], actions[j - 1]);
    if states[j - 1].phase() == 1 {
        lemma_first_drop(states, replies, actions, j - 1);
    }
}

} // verus!
