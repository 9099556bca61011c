//! What the dashboard makes of the answers of the services.

use vstd::prelude::*;
use vstd::utf8::{encode_utf8, encode_utf8_decode_utf8, encode_utf8_valid_utf8, valid_utf8};
use crate::gateway::audience::open_places;
use crate::gateway::cookie::{is_production, percent_decoded, unescaped};
use crate::laws::answers::{fits, lemma_port_looked_at, numbers};
use crate::laws::dashboard::lemma_page_labels;
use crate::orm::change::BuildError;
use crate::orm::insert::FindOrCreate;
use crate::text::decimal::decimal;
use crate::text::search::{first_occurrence, occurs, occurs_at};
use crate::tui::environment::{mask_env, shown_variables};
use crate::tui::page::header_labels;
use crate::tui::probe::{
    backend_status, collected, count_table, database_status, http_body, not_collected, redis_status,
    targets, Answer, Contents, Targets,
};
use crate::tui::snapshot::{GatewayMetrics, ServiceStatus, Snapshot};
use crate::tui::tables::pressure_grid;

verus! {

/// A service is shown as well exactly where it has answered; one that has failed is shown with
/// its error, and one that has not answered as timed out.
pub proof fn lemma_backend_shown(port: u16, answer: Answer<()>, r: ServiceStatus)
    requires
        call_ensures(backend_status, (port, answer), r),
    ensures
        r.name@ == "Backend"@,
        r.ok <==> answer is Given,
        answer is Given ==> r.detail@ == "http://localhost:"@ + decimal(port as nat) && r.state@
            == "ok"@,
        answer is Failed ==> r.detail@ == answer->Failed_0@ && r.state@ == "down"@,
        answer is TimedOut ==> r.detail@ == "127.0.0.1:"@ + decimal(port as nat) && r.state@
            == "timeout"@,
{
}

/// Redis is shown with what it has answered, with its error, or as timed out.
pub proof fn lemma_redis_shown(redis_url: &str, answer: Answer<String>, r: ServiceStatus)
    requires
        call_ensures(redis_status, (redis_url, answer), r),
    ensures
        r.name@ == "Redis"@,
        r.ok <==> answer is Given,
        answer is Given ==> r.detail@ == answer->Given_0@ && r.state@ == "ok"@,
        answer is Failed ==> r.detail@ == answer->Failed_0@ && r.state@ == "error"@,
        answer is TimedOut ==> r.detail@ == redis_url@ && r.state@ == "timeout"@,
{
}

/// The database is shown with what it holds where it has answered, and as empty where not.
pub proof fn lemma_database_shown(answer: Answer<Contents>, r: (ServiceStatus, Contents))
    requires
        call_ensures(database_status, (answer,), r),
    ensures
        r.0.name@ == "Postgres"@,
        r.0.ok <==> answer is Given,
        answer is Given ==> r.1 == answer->Given_0 && r.0.detail@ == "connected"@,
        answer is Failed ==> r.0.detail@ == answer->Failed_0@ && r.0.state@ == "error"@,
        answer is TimedOut ==> r.0.detail@ == "DATABASE_URL"@ && r.0.state@ == "timeout"@,
        !(answer is Given) ==> r.1.guilds@.len() == 0 && r.1.users@.len() == 0 && r.1.counts.users
            == 0 && r.1.counts.guilds == 0 && r.1.counts.channels == 0
            && r.1.counts.guild_members == 0 && r.1.counts.messages == 0 && r.1.counts.invites
            == 0,
{
}

/// The services are looked for where the variables say; without the address of the database
/// nothing is looked for.
pub proof fn lemma_services_found(
    database_url: Option<String>,
    redis_url: Option<String>,
    port: Option<String>,
    r: Result<Targets, String>,
)
    requires
        call_ensures(targets, (database_url, redis_url, port), r),
    ensures
        r is Ok <==> database_url is Some,
        r is Err ==> r->Err_0@ == "DATABASE_URL is not set"@,
        r is Ok ==> r->Ok_0.database_url@ == database_url->0@,
        r is Ok && redis_url is Some ==> r->Ok_0.redis_url@ == redis_url->0@,
        r is Ok && redis_url is None ==> r->Ok_0.redis_url@ == "redis://127.0.0.1:6379"@,
        r is Ok && fits(port, u16::MAX as nat) ==> numbers(port, 3000, r->Ok_0.port as int),
        r is Ok && !fits(port, u16::MAX as nat) ==> r->Ok_0.port == 3000,
{
    lemma_port_looked_at(port);
}

/// The body of an answer is all that follows its first empty line; an answer without one has no
/// body.
pub proof fn lemma_body_follows_head(response: &str, r: Result<String, String>)
    requires
        call_ensures(http_body, (response,), r),
    ensures
        r is Ok <==> occurs(response@, "\r\n\r\n"@),
        r is Ok ==> exists|head: Seq<char>| #[trigger] (head + "\r\n\r\n"@ + r->Ok_0@)
            == response@ && forall|j: int|
            0 <= j < head.len() ==> !#[trigger] occurs_at(response@, "\r\n\r\n"@, j),
{
    if r is Ok {
        let head = choose|head: Seq<char>| #[trigger]
            first_occurrence(response@, "\r\n\r\n"@, head.len() as int)
                && response@ == head + "\r\n\r\n"@ + r->Ok_0@;
        assert(occurs_at(response@, "\r\n\r\n"@, head.len() as int));
        assert(head + "\r\n\r\n"@ + r->Ok_0@ == response@);
    }
}

/// What is shown is made of what each of the services has answered.
pub proof fn lemma_look_holds_answers(
    backend: ServiceStatus,
    database: (ServiceStatus, Contents),
    redis: ServiceStatus,
    gateway_metrics: Option<GatewayMetrics>,
    env: Vec<(String, String)>,
    r: Snapshot,
)
    requires
        call_ensures(collected, (backend, database, redis, gateway_metrics, env), r),
    ensures
        r.services@.len() == 3,
        r.services@[0] == backend && r.services@[1] == database.0 && r.services@[2] == redis,
        r.counts == database.1.counts && r.guilds == database.1.guilds && r.users
            == database.1.users,
        r.gateway_metrics == gateway_metrics && r.env == env,
        r.last_error is None,
{
}

/// A look that has failed shows its error and the variables, and nothing of the services.
pub proof fn lemma_failed_look_holds_error(error: String, env: Vec<(String, String)>, r: Snapshot)
    requires
        call_ensures(not_collected, (error, env), r),
    ensures
        r.last_error == Some(error),
        r.env == env,
        r.services@.len() == 0 && r.guilds@.len() == 0 && r.users@.len() == 0,
        r.gateway_metrics is None,
{
}

/// A table is counted by its name.
pub proof fn lemma_table_counted(table: &str, r: String)
    requires
        call_ensures(count_table, (table,), r),
    ensures
        r@ == "SELECT COUNT(*)::BIGINT FROM "@ + table@,
{
}

/// Of a row that is found or created, the one that was added counts, then the one that was
/// fetched; there has to be one.
pub proof fn lemma_row_found_or_created<T>(
    added: Option<T>,
    fetched: Option<T>,
    r: Result<T, BuildError>,
)
    requires
        call_ensures(FindOrCreate::outcome::<T>, (added, fetched), r),
    ensures
        added is Some ==> r == Ok::<T, BuildError>(added->0),
        added is None && fetched is Some ==> r == Ok::<T, BuildError>(fetched->0),
        added is None && fetched is None ==> r is Err && r->Err_0 is RecordVanished,
{
}

/// The sockets that are kept are those that are open, in their order.
pub proof fn lemma_open_sockets_kept(closed: &Vec<bool>, r: Vec<usize>)
    requires
        call_ensures(open_places, (closed,), r),
    ensures
        forall|k: usize| #[trigger] r@.contains(k) <==> k < closed@.len() && !closed@[k as int],
        forall|i: int, j: int| 0 <= i < j < r@.len() ==> r@[i] < r@[j],
{
}

/// Only the word `production` means production.
pub proof fn lemma_production_named(node_env: &str, r: bool)
    requires
        call_ensures(is_production, (node_env,), r),
    ensures
        r <==> node_env@ == "production"@,
{
}

/// A text that is decoded holds the bytes that its escapes stand for; it is not decoded where
/// those are no text.
pub proof fn lemma_decoded_holds_bytes(text: Seq<char>, other: Seq<char>)
    ensures
        percent_decoded(text) is Some <==> valid_utf8(unescaped(encode_utf8(text))),
        unescaped(encode_utf8(text)) == encode_utf8(other) ==> percent_decoded(text) == Some(other),
{
    encode_utf8_valid_utf8(other);
    encode_utf8_decode_utf8(other);
}

/// The variables that are shown.
pub proof fn lemma_variables_named()
    ensures
        shown_variables().len() == 10,
        shown_variables()[0] == "DATABASE_URL"@,
        shown_variables()[1] == "REDIS_URL"@,
        shown_variables()[2] == "PORT"@,
        shown_variables()[3] == "NODE_ENV"@,
        shown_variables()[4] == "REGISTRATION_CLOSED"@,
        shown_variables()[5] == "TOKEN_SECRET"@,
        shown_variables()[6] == "VERBOSE"@,
        shown_variables()[7] == "USER_GUILD_LIMIT"@,
        shown_variables()[8] == "MAX_AVATAR_SIZE"@,
        shown_variables()[9] == "MAX_BANNER_SIZE"@,
{
}

/// The value of a variable whose name holds no word for secrets is shown whole; a short secret is
/// not shown at all.
pub proof fn lemma_mask_shows(key: &str, value: &str, r: String)
    requires
        call_ensures(mask_env, (key, value), r),
    ensures
        !occurs(key@, "TOKEN"@) && !occurs(key@, "SECRET"@) && !occurs(key@, "PASSWORD"@)
            && !occurs(key@, "DATABASE_URL"@) ==> r@ == value@,
        (occurs(key@, "TOKEN"@) || occurs(key@, "SECRET"@) || occurs(key@, "PASSWORD"@) || occurs(
            key@,
            "DATABASE_URL"@,
        )) && encode_utf8(value@).len() <= 8 ==> r@ == "***"@,
{
}

/// The header lists the pages in their order, each with its number.
pub proof fn lemma_header_lists_pages(r: Vec<String>)
    requires
        call_ensures(header_labels, (), r),
    ensures
        r@.len() == 7,
        r@[0]@ == " 1 Overview"@,
        r@[1]@ == " 2 Gateway"@,
        r@[2]@ == " 3 Guilds"@,
        r@[3]@ == " 4 Users"@,
        r@[4]@ == " 5 Events"@,
        r@[5]@ == " 6 Env"@,
        r@[6]@ == " 7 Actions"@,
{
    lemma_page_labels();
}

/// Without metrics, what else is known of the gateway is shown in their place.
pub proof fn lemma_no_metrics_shown(guilds: i64)
    ensures
        pressure_grid(None, guilds).len() == 4,
        pressure_grid(None, guilds)[0] == seq![
            "Connected sockets"@,
            "backend metrics unavailable"@,
            "start backend"@,
        ],
        pressure_grid(None, guilds)[1] == seq![
            "Identified users"@,
            "backend metrics unavailable"@,
            "start backend"@,
        ],
        pressure_grid(None, guilds)[3] == seq![
            "Likely noisy events"@,
            "typing/presence/message"@,
            "watch"@,
        ],
{
}

} // verus!
