//! What the operations of the library give for what they are given.

use vstd::prelude::*;
use vstd::utf8::decode_utf8;
use crate::auth::encoding::base64_decoded;
use crate::auth::token::{verify_token, TokenData};
use crate::config::{Config, ConfigError, Variables};
use crate::error::AppError;
use crate::gateway::audience::hears;
use crate::gateway::cookie::{find_cookie, part_value};
use crate::gateway::events::identify::Notice;
use crate::gateway::events::presence::{self, PresenceAction, PresenceChange, PresenceReply};
use crate::gateway::events::ready::{ready, rooms, Caller, GuildVisit};
use crate::gateway::payload::Payload;
use crate::gateway::session::{
    advance, advanced, effects, open, Effect, EffectView, Session, SessionEvent,
};
use crate::json::{Json, JsonView};
use crate::laws::access::{first_giving, lemma_first_cookie_counts, lemma_holder_is_sealed, seal};
use crate::laws::answers::{
    fits, flags, lemma_failures_answered, lemma_set_up_by_variables, lemma_when_set_up, numbers,
    tells_fields,
};
use crate::laws::lookup::{lemma_found_after, lemma_found_in_nothing};
use crate::laws::presence::{lemma_all_guilds_hear, lemma_nobody_forgotten, listed, moves};
use crate::laws::ready::{guilds_met, lemma_all_guilds_told, lemma_rooms_joined, shows_visit};
use crate::laws::session::{lemma_own_data_counts, only_change};
use crate::laws::statements::{
    lemma_new_rows_marks, lemma_new_rows_numbers, marks, marks_by_row, number_of,
};
use crate::laws::tables::{
    entry_meets, entry_row, event_meets, event_row, guild_meets, guild_row, lemma_entry_rows,
    lemma_event_rows, lemma_guild_rows, lemma_recent_first, lemma_recent_rows, lemma_user_rows,
    recent_meets, recent_row, user_meets, user_row,
};
use crate::middleware::rate_limit::{RateAction, RateCheck, RateLimit};
use crate::orm::change::BuildError;
use crate::orm::insert::{insert_many, row_maps, CreatePlan};
use crate::orm::value::{SqlValue, Statement};
use crate::string_map::{sorted_keys, StringMap};
use crate::text::chars::{join, texts};
use crate::text::decimal::decimal;
use crate::text::number::{read_signed, NumberError};
use crate::text::split::split_on;
use crate::tui::dashboard::App;
use crate::tui::snapshot::{EventRow, GatewayMetrics, GatewayRecentEvent, GuildRow, UserRow};
use crate::tui::tables::{
    env_table, event_table, grid, guild_table, recent_found, recent_rows, user_table,
};

verus! {

broadcast use {lemma_found_after, lemma_found_in_nothing};

/// What [`ready`] tells of guilds: one entry for each visit that found a guild, in their order,
/// and each is what there is to tell of that guild.
pub proof fn lemma_ready_lists_guilds(
    caller: &Caller,
    visits: &Vec<Option<GuildVisit>>,
    r: Payload,
)
    requires
        call_ensures(ready, (caller, visits), r),
    ensures
        r.op == 0,
        r.t is Some && r.t->0@ == "READY"@,
        r.d is Some,
        match r.d->0@.field("guilds"@) {
            Some(JsonView::Array(list)) => {
                &&& list.len() == guilds_met(visits@).len()
                &&& forall|i: int|
                    0 <= i < list.len() ==> shows_visit(
                        #[trigger] list[i],
                        guilds_met(visits@)[i]->0,
                    )
            },
            _ => false,
        },
{
    lemma_all_guilds_told(*caller, visits@);
}

/// What [`rooms`] gives: the guild of each membership, and the room of the administrators last
/// for a user with that flag.
pub proof fn lemma_rooms_given(caller: &Caller, r: Vec<String>)
    requires
        call_ensures(rooms, (caller,), r),
    ensures
        forall|i: int|
            0 <= i < caller.memberships@.len() ==> #[trigger] r@[i]@
                == caller.memberships@[i].guild_id@,
        caller.user.flags & 1i32 == 1i32 ==> r@.len() == caller.memberships@.len() + 1
            && r@.last()@ == "admins"@,
        caller.user.flags & 1i32 != 1i32 ==> r@.len() == caller.memberships@.len(),
{
    lemma_rooms_joined(caller.memberships@, caller.user.flags);
    assert(texts(r@).len() == r@.len());
    assert forall|i: int| 0 <= i < caller.memberships@.len() implies #[trigger] r@[i]@
        == caller.memberships@[i].guild_id@ by {
        assert(texts(r@)[i] == r@[i]@);
    }
    if caller.user.flags & 1i32 == 1i32 {
        assert(texts(r@)[r@.len() - 1] == r@[r@.len() - 1]@);
    }
}

/// Whether replies were given to [`presence::step`] one after the other, from the start of a
/// change of status.
pub open spec fn stepped(
    states: Seq<PresenceChange>,
    replies: Seq<PresenceReply>,
    actions: Seq<PresenceAction>,
) -> bool {
    &&& states.len() == replies.len() + 1
    &&& actions.len() == replies.len()
    &&& states[0] is Status
    &&& forall|i: int|
        0 <= i < replies.len() ==> #[trigger] takes_step(
            states[i],
            replies[i],
            states[i + 1],
            actions[i],
        )
}

/// Whether a reply was waited for, and this is what [`presence::step`] gave for it.
pub open spec fn takes_step(
    before: PresenceChange,
    reply: PresenceReply,
    next: PresenceChange,
    action: PresenceAction,
) -> bool {
    &&& before.valid()
    &&& before.awaits(reply)
    &&& call_ensures(presence::step, (before, reply), (next, action))
}

/// Over a whole change of status, those who are told of it in the end are exactly the users other
/// than the own whom any reply has listed as a member.
pub proof fn lemma_steps_tell_all(
    states: Seq<PresenceChange>,
    replies: Seq<PresenceReply>,
    actions: Seq<PresenceAction>,
    notice: Notice,
)
    requires
        stepped(states, replies, actions),
        actions.len() > 0,
        actions.last() == PresenceAction::Finish(Some(notice)),
    ensures
        forall|id: Seq<char>| #[trigger]
            texts(notice.recipients@).contains(id) <==> id != states[0]->Status_user_id@ && listed(
                replies,
                id,
            ),
{
    assert forall|i: int| 0 <= i < replies.len() implies #[trigger] moves(
        states[i],
        replies[i],
        states[i + 1],
        actions[i],
    ) by {
        assert(takes_step(states[i], replies[i], states[i + 1], actions[i]));
    }
    lemma_all_guilds_hear(states, replies, actions, notice);
}

/// One step takes nobody off the list of those to be told.
pub proof fn lemma_step_forgets_nobody(
    before: PresenceChange,
    reply: PresenceReply,
    r: (PresenceChange, PresenceAction),
    id: Seq<char>,
)
    requires
        before is Audience,
        before.valid(),
        before.awaits(reply),
        call_ensures(presence::step, (before, reply), r),
        texts(before->Audience_recipients@).contains(id),
    ensures
        r.0 is Audience ==> texts(r.0->Audience_recipients@).contains(id),
        r.1 matches PresenceAction::Finish(Some(notice)) ==> texts(notice.recipients@).contains(id),
        r.0 is Audience || r.1 matches PresenceAction::Finish(Some(_)),
{
    lemma_nobody_forgotten(before, reply, r.0, r.1, id);
}

/// Whether two optional values say the same.
pub open spec fn same_data(a: Option<Json>, b: Option<Json>) -> bool {
    match (a, b) {
        (Some(a), Some(b)) => a@ == b@,
        (None, None) => true,
        _ => false,
    }
}

/// Whether an effect changes the status of a user by some data.
pub open spec fn changes_by(
    effect: Effect,
    user_id: String,
    rooms: Vec<String>,
    data: Option<Json>,
) -> bool {
    &&& effect is ChangePresence
    &&& effect->ChangePresence_user_id@ == user_id@
    &&& texts(effect->ChangePresence_rooms@) == texts(rooms@)
    &&& same_data(effect->ChangePresence_data, data)
}

/// A message of kind three from an identified client has [`advance`] change the status of that
/// client, in its rooms, by the data of that very message, once and by nothing else.
pub proof fn lemma_advance_changes_by_own_data(
    user_id: String,
    rooms: Vec<String>,
    payload: Payload,
    r: (Session, Vec<Effect>),
)
    requires
        payload.op == 3,
        call_ensures(
            advance,
            (
                Session::Talking { user_id: Some(user_id), rooms },
                SessionEvent::Message(Some(payload)),
            ),
            r,
        ),
    ensures
        exists|k: int|
            0 <= k < r.1@.len() && #[trigger] changes_by(r.1@[k], user_id, rooms, payload.d),
        forall|k: int|
            0 <= k < r.1@.len() && (#[trigger] r.1@[k]) is ChangePresence ==> changes_by(
                r.1@[k],
                user_id,
                rooms,
                payload.d,
            ),
        r.0@ == (Session::Talking { user_id: Some(user_id), rooms })@,
{
    let state = Session::Talking { user_id: Some(user_id), rooms };
    let event = SessionEvent::Message(Some(payload));
    let done = advanced(state@, event@).1;
    lemma_own_data_counts(user_id@, texts(rooms@), payload@, Seq::empty());
    assert(effects(r.1@).len() == r.1@.len());
    let change = EffectView::ChangePresence(user_id@, texts(rooms@), payload@.d);
    assert(only_change(done, change));
    assert forall|k: int| 0 <= k < r.1@.len() && (#[trigger] r.1@[k])
        is ChangePresence implies changes_by(r.1@[k], user_id, rooms, payload.d) by {
        assert(effects(r.1@)[k] == r.1@[k]@);
        assert(done[k] is ChangePresence);
    }
    let k = choose|k: int| 0 <= k < done.len() && done[k] == change;
    assert(effects(r.1@)[k] == r.1@[k]@);
    assert(r.1@[k] is ChangePresence);
    assert(changes_by(r.1@[k], user_id, rooms, payload.d));
}

/// A socket that is opened is counted, and greeted with how often it is to give a sign of life.
pub proof fn lemma_open_greets(r: (Session, Vec<Effect>))
    requires
        call_ensures(open, (), r),
    ensures
        r.0 is Greeting,
        r.1@.len() == 2,
        r.1@[0] is CountConnected,
        r.1@[1] is Send,
        r.1@[1]->Send_0.op == 10,
        r.1@[1]->Send_0.d is Some,
        r.1@[1]->Send_0.d->0@.field("heartbeat_interval"@) == Some(JsonView::Int(30000)),
{
    assert(effects(r.1@).len() == r.1@.len());
    assert(effects(r.1@)[0] == r.1@[0]@);
    assert(effects(r.1@)[1] == r.1@[1]@);
}

/// What [`insert_many`] gives: a mark for every row and every column of the first, that of row
/// `i` and column `j` with the number `i * width + j + 1`; and, where every row has those columns,
/// the value of row `i` for column `j` at that place.
pub proof fn lemma_insert_many_numbers(
    table: &str,
    rows: Vec<StringMap<SqlValue>>,
    r: Option<Statement>,
)
    requires
        call_ensures(insert_many, (table, rows), r),
    ensures
        r is None <==> rows@.len() == 0,
        r is Some ==> {
            let columns = sorted_keys(rows@[0]@);
            let width = columns.len();
            &&& r->0.sql@ == "INSERT INTO "@ + table@ + " ("@ + join(columns, ", "@)
                + ") VALUES "@ + join(marks_by_row(rows@.len(), width), ", "@)
            &&& forall|i: int, j: int|
                #![trigger number_of(i, j, width as int)]
                0 <= i < rows@.len() && 0 <= j < width ==> marks((i * width + 1) as nat, width)[j]
                    == "$"@ + decimal(number_of(i, j, width as int) as nat)
            &&& (forall|i: int, j: int|
                0 <= i < rows@.len() && 0 <= j < width ==> (#[trigger] rows@[i])@.contains_key(
                    #[trigger] columns[j],
                )) ==> r->0.params@.len() == rows@.len() * width && forall|i: int, j: int|
                #![trigger number_of(i, j, width as int)]
                0 <= i < rows@.len() && 0 <= j < width ==> r->0.params@[number_of(
                    i,
                    j,
                    width as int,
                ) - 1] == rows@[i]@[columns[j]]
        },
{
    if r is Some {
        let maps = row_maps(rows@);
        let columns = sorted_keys(rows@[0]@);
        assert(maps[0] == rows@[0]@);
        lemma_new_rows_marks(table@, maps);
        if forall|i: int, j: int|
            0 <= i < rows@.len() && 0 <= j < columns.len() ==> (#[trigger] rows@[i])@.contains_key(
                #[trigger] columns[j],
            ) {
            assert forall|i: int, j: int|
                0 <= i < maps.len() && 0 <= j < sorted_keys(maps[0]).len() implies (
            #[trigger] maps[i]).contains_key(#[trigger] sorted_keys(maps[0])[j]) by {
                assert(maps[i] == rows@[i]@);
                assert(rows@[i]@.contains_key(columns[j]));
            }
            lemma_new_rows_numbers(table@, maps);
            assert forall|i: int, j: int|
                #![trigger number_of(i, j, columns.len() as int)]
                0 <= i < rows@.len() && 0 <= j < columns.len() implies r->0.params@[number_of(
                i,
                j,
                columns.len() as int,
            ) - 1] == rows@[i]@[columns[j]] by {
                assert(maps[i] == rows@[i]@);
            }
        }
    }
}

/// What [`user_table`] shows: the rows of the users whose id, username, tag or status holds the
/// search, whatever the case of the letters, in their order; of all where the search is blank.
pub proof fn lemma_user_table_shows(users: &Vec<UserRow>, search: &str, r: Vec<Vec<String>>)
    requires
        call_ensures(user_table, (users, search), r),
    ensures
        grid(r@) == users@.filter(|u: UserRow| user_meets(u, search@)).map_values(
            |u: UserRow| user_row(u),
        ),
{
    lemma_user_rows(users@, search@);
}

/// What [`guild_table`] shows: the rows of the guilds whose id or name holds the search.
pub proof fn lemma_guild_table_shows(guilds: &Vec<GuildRow>, search: &str, r: Vec<Vec<String>>)
    requires
        call_ensures(guild_table, (guilds, search), r),
    ensures
        grid(r@) == guilds@.filter(|g: GuildRow| guild_meets(g, search@)).map_values(
            |g: GuildRow| guild_row(g),
        ),
{
    lemma_guild_rows(guilds@, search@);
}

/// What [`event_table`] shows: the rows of the events whose name, source or risk holds the search.
pub proof fn lemma_event_table_shows(events: &Vec<EventRow>, search: &str, r: Vec<Vec<String>>)
    requires
        call_ensures(event_table, (events, search), r),
    ensures
        grid(r@) == events@.filter(|e: EventRow| event_meets(e, search@)).map_values(
            |e: EventRow| event_row(e),
        ),
{
    lemma_event_rows(events@, search@);
}

/// What [`env_table`] shows: the variables whose name or value holds the search.
pub proof fn lemma_env_table_shows(
    env: &Vec<(String, String)>,
    search: &str,
    r: Vec<Vec<String>>,
)
    requires
        call_ensures(env_table, (env, search), r),
    ensures
        grid(r@) == env@.filter(|e: (String, String)| entry_meets(e, search@)).map_values(
            |e: (String, String)| entry_row(e),
        ),
{
    lemma_entry_rows(env@, search@);
}

/// What [`recent_rows`] shows: the first ten rows of what happened whose kind or detail holds the
/// search.
pub proof fn lemma_recent_rows_shown(
    metrics: GatewayMetrics,
    search: &str,
    r: Vec<Vec<String>>,
)
    requires
        call_ensures(recent_rows, (&Some(metrics), search), r),
    ensures
        ({
            let found = metrics.recent@.filter(
                |e: GatewayRecentEvent| recent_meets(e, search@),
            );
            &&& r@.len() == if found.len() < 10 {
                found.len()
            } else {
                10
            }
            &&& forall|i: int|
                0 <= i < r@.len() ==> texts((#[trigger] r@[i])@) == recent_row(found[i])
        }),
{
    lemma_recent_rows(metrics.recent@, search@);
    lemma_recent_first(metrics, search@);
    let found = metrics.recent@.filter(|e: GatewayRecentEvent| recent_meets(e, search@));
    assert(grid(r@).len() == r@.len());
    assert(recent_found(metrics.recent@, search@).len() == found.len());
    assert forall|i: int| 0 <= i < r@.len() implies texts((#[trigger] r@[i])@) == recent_row(
        found[i],
    ) by {
        assert(grid(r@)[i] == texts(r@[i]@));
        assert(recent_found(metrics.recent@, search@)[i] == recent_row(found[i]));
    }
}

/// What [`Config::from_env`] gives: a set-up exactly where the database and the secret are given
/// and every number that is given fits; each value from the variable of its name.
pub proof fn lemma_from_env_reads(variables: Variables, r: Result<Config, ConfigError>)
    requires
        call_ensures(Config::from_env, (variables,), r),
    ensures
        r is Ok <==> {
            &&& variables.database_url is Ok
            &&& variables.token_secret is Ok
            &&& fits(variables.port, u16::MAX as nat)
            &&& fits(variables.user_guild_limit, u32::MAX as nat)
            &&& fits(variables.max_avatar_size, usize::MAX as nat)
            &&& fits(variables.max_banner_size, usize::MAX as nat)
        },
        r matches Ok(config) ==> {
            &&& variables.database_url->Ok_0@ == config.database_url@
            &&& variables.token_secret->Ok_0@ == config.token_secret@
            &&& numbers(variables.port, 3000, config.port as int)
            &&& numbers(variables.user_guild_limit, 100, config.user_guild_limit as int)
            &&& numbers(variables.max_avatar_size, 10000000, config.max_avatar_size as int)
            &&& numbers(variables.max_banner_size, 25000000, config.max_banner_size as int)
            &&& flags(variables.registration_closed, config.registration_closed)
            &&& flags(variables.verbose, config.verbose)
        },
{
    lemma_when_set_up(variables);
    if let Ok(config) = r {
        lemma_set_up_by_variables(variables, config);
    }
}

/// A row is refused exactly where one that meets the conditions was counted.
pub proof fn lemma_verdict_refuses(count: i64, r: Result<(), BuildError>)
    requires
        call_ensures(CreatePlan::verdict, (count,), r),
    ensures
        r is Err <==> count > 0,
        r is Err ==> r->Err_0 is RecordExists,
{
}

/// A look at the services is due after five seconds, and not before.
pub proof fn lemma_look_is_due(age: u64, r: bool)
    requires
        call_ensures(App::refresh_is_due, (age,), r),
    ensures
        r <==> age >= 5,
{
}

/// Whether the text of a token names a user and a version, and is sealed under a secret.
pub open spec fn sealed_text(
    text: Seq<char>,
    user_id: Seq<char>,
    version: int,
    nonce: Seq<char>,
    written: Seq<char>,
    secret: Seq<char>,
) -> bool {
    &&& text == user_id + ":"@ + written + ":"@ + nonce + ":"@ + seal(
        user_id,
        version,
        nonce,
        secret,
    )
    &&& read_signed(written, i32::MAX as nat) == Ok::<int, NumberError>(version)
}

/// Whom [`verify_token`] names is named in the text of the token, which is sealed under the
/// secret.
pub proof fn lemma_verified_is_sealed(token: &str, secret: &str, r: Option<TokenData>)
    requires
        call_ensures(verify_token, (token, secret), r),
        r is Some,
    ensures
        base64_decoded(token@) is Some,
        exists|nonce: Seq<char>, written: Seq<char>| #[trigger]
            sealed_text(
                decode_utf8(base64_decoded(token@)->0),
                r->0.user_id@,
                r->0.version as int,
                nonce,
                written,
                secret@,
            ),
{
    let (written, nonce) = lemma_holder_is_sealed(token@, secret@);
    assert(sealed_text(
        decode_utf8(base64_decoded(token@)->0),
        r->0.user_id@,
        r->0.version as int,
        nonce,
        written,
        secret@,
    ));
}

/// What [`find_cookie`] finds is what the first part of the header with the name gives it.
pub proof fn lemma_found_cookie_is_first(header: &str, name: &str, r: Option<String>)
    requires
        call_ensures(find_cookie, (header, name), r),
    ensures
        match r {
            Some(value) => exists|k: int| #[trigger]
                first_giving(split_on(header@, ';'), name@, value@, k),
            None => forall|j: int|
                0 <= j < split_on(header@, ';').len() ==> part_value(
                    #[trigger] split_on(header@, ';')[j],
                    name@,
                ) is None,
        },
{
    lemma_first_cookie_counts(header@, name@);
}

/// The check of a request begins with the count of its address and of what is asked for, and
/// ends with it turned away where more than the limit were counted.
pub proof fn lemma_check_performed(
    rate: &RateLimit,
    ip: &str,
    key: &str,
    first: (RateCheck, RateAction),
    count: i64,
    remaining: i64,
    last: (RateCheck, RateAction),
)
    requires
        call_ensures(RateLimit::begin, (rate, ip, key), first),
        call_ensures(RateLimit::step, (rate, RateCheck::Remaining { count }, remaining), last),
    ensures
        first.0 is Raised,
        first.1 is Raise,
        first.1->Raise_key@ == "rate-limit:"@ + ip@ + ":"@ + key@,
        last.0 is Over,
        last.1 is Judge,
        last.1->Judge_0.limited <==> count > rate.limit,
        last.1->Judge_0.retry_after == remaining,
{
}

/// Every failure is answered with its own status, and with the words that it came with.
pub proof fn lemma_response_tells(error: AppError, r: (u16, Json))
    requires
        call_ensures(AppError::into_response, (error,), r),
    ensures
        match error {
            AppError::Unauthorized => r.0 == 401 && r.1@.field("code"@) == Some(
                JsonView::Text("UNAUTHORIZED"@),
            ),
            AppError::Forbidden(message) => r.0 == 403 && r.1@.field("message"@) == Some(
                JsonView::Text(message@),
            ),
            AppError::NotFound(code) => r.0 == 404 && r.1@.field("code"@) == Some(
                JsonView::Text(code@),
            ),
            AppError::BadRequest(message) => r.0 == 400 && r.1@.field("message"@) == Some(
                JsonView::Text(message@),
            ),
            AppError::Conflict(api) => r.0 == 409 && r.1@ == api.spec_json(),
            AppError::ValidationFailed(errors) => r.0 == 400 && tells_fields(
                r.1@.field("errors"@),
                errors@,
            ),
            AppError::InternalServerError(message) => r.0 == 500 && r.1@.field("message"@)
                == Some(JsonView::Text(message@)),
            AppError::TooManyRequests { message, retry_after } => r.0 == 429 && r.1@.field(
                "message"@,
            ) == Some(JsonView::Text(message@)) && r.1@.field("retryAfter"@) == Some(
                JsonView::Int(retry_after as int),
            ),
        },
{
    lemma_failures_answered(error);
}

/// A socket hears what is said in the rooms that it is in, and in no other.
pub proof fn lemma_hears_own_rooms(rooms: &Vec<String>, room: &str, r: bool)
    requires
        call_ensures(hears, (rooms, room), r),
    ensures
        r <==> exists|i: int| 0 <= i < rooms@.len() && (#[trigger] rooms@[i])@ == room@,
{
    if r {
        let i = choose|i: int| 0 <= i < texts(rooms@).len() && texts(rooms@)[i] == room@;
        assert(rooms@[i]@ == room@);
    }
    if exists|i: int| 0 <= i < rooms@.len() && (#[trigger] rooms@[i])@ == room@ {
        let i = choose|i: int| 0 <= i < rooms@.len() && (#[trigger] rooms@[i])@ == room@;
        assert(texts(rooms@)[i] == room@);
    }
}

} // verus!
