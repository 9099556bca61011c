//! What the dashboard asks of the services, and what it makes of the answers.

use vstd::prelude::*;
use vstd::utf8::{decode_utf8, valid_utf8};
use crate::auth::encoding::utf8_text;
use crate::text::chars::owned;
use crate::text::decimal::{decimal, decimal_text};
use crate::text::number::{parse_unsigned, read_unsigned};
use crate::text::search::{first_occurrence, occurs, split_text_at};
use crate::tui::snapshot::{
    default_events, event_texts, known_events, Counts, EventRow, GatewayMetrics, GuildRow,
    ServiceStatus, Snapshot, UserRow,
};

verus! {

/// How a service has answered.
#[derive(Debug, PartialEq)]
pub enum Answer<T> {
    /// It has answered with this.
    Given(T),
    /// It has answered with this error.
    Failed(String),
    /// It has not answered in time.
    TimedOut,
}

/// Whether a status says that a service is up.
pub open spec fn up(s: ServiceStatus, name: Seq<char>, detail: Seq<char>) -> bool {
    s.name@ == name && s.state@ == "ok"@ && s.detail@ == detail && s.ok
}

/// Whether a status says that a service is not up, in these words.
pub open spec fn down(
    s: ServiceStatus,
    name: Seq<char>,
    state: Seq<char>,
    detail: Seq<char>,
) -> bool {
    s.name@ == name && s.state@ == state && s.detail@ == detail && !s.ok
}

/// The status of the backend on a port.
pub fn backend_status(port: u16, answer: Answer<()>) -> (r: ServiceStatus)
    ensures
        match answer {
            Answer::Given(_) => up(
                r,
                "Backend"@,
                "http://localhost:"@ + decimal(port as nat),
            ),
            Answer::Failed(e) => down(r, "Backend"@, "down"@, e@),
            Answer::TimedOut => down(
                r,
                "Backend"@,
                "timeout"@,
                "127.0.0.1:"@ + decimal(port as nat),
            ),
        },
{
    let number: String = decimal_text(port as u128);
    match answer {
        Answer::Given(_) => ServiceStatus {
            name: "Backend",
            state: owned("ok"),
            detail: owned("http://localhost:").concat(number.as_str()),
            ok: true,
        },
        Answer::Failed(e) => ServiceStatus {
            name: "Backend",
            state: owned("down"),
            detail: e,
            ok: false,
        },
        Answer::TimedOut => ServiceStatus {
            name: "Backend",
            state: owned("timeout"),
            detail: owned("127.0.0.1:").concat(number.as_str()),
            ok: false,
        },
    }
}

/// The status of Redis at an address.
pub fn redis_status(redis_url: &str, answer: Answer<String>) -> (r: ServiceStatus)
    ensures
        match answer {
            Answer::Given(pong) => up(r, "Redis"@, pong@),
            Answer::Failed(e) => down(r, "Redis"@, "error"@, e@),
            Answer::TimedOut => down(r, "Redis"@, "timeout"@, redis_url@),
        },
{
    match answer {
        Answer::Given(pong) => ServiceStatus {
            name: "Redis",
            state: owned("ok"),
            detail: pong,
            ok: true,
        },
        Answer::Failed(e) => ServiceStatus {
            name: "Redis",
            state: owned("error"),
            detail: e,
            ok: false,
        },
        Answer::TimedOut => ServiceStatus {
            name: "Redis",
            state: owned("timeout"),
            detail: owned(redis_url),
            ok: false,
        },
    }
}

/// What the database holds.
#[derive(Debug, PartialEq)]
pub struct Contents {
    pub counts: Counts,
    pub guilds: Vec<GuildRow>,
    pub users: Vec<UserRow>,
}

/// The status of the database, and what it holds: nothing where it has not answered.
pub fn database_status(answer: Answer<Contents>) -> (r: (ServiceStatus, Contents))
    ensures
        match answer {
            Answer::Given(contents) => up(r.0, "Postgres"@, "connected"@) && r.1 == contents,
            Answer::Failed(e) => down(r.0, "Postgres"@, "error"@, e@) && r.1.counts
                == Counts::none() && r.1.guilds@.len() == 0 && r.1.users@.len() == 0,
            Answer::TimedOut => down(r.0, "Postgres"@, "timeout"@, "DATABASE_URL"@)
                && r.1.counts == Counts::none() && r.1.guilds@.len() == 0 && r.1.users@.len() == 0,
        },
{
    match answer {
        Answer::Given(contents) => (
            ServiceStatus {
                name: "Postgres",
                state: owned("ok"),
                detail: owned("connected"),
                ok: true,
            },
            contents,
        ),
        Answer::Failed(e) => (
            ServiceStatus { name: "Postgres", state: owned("error"), detail: e, ok: false },
            Contents { counts: Counts::default(), guilds: Vec::new(), users: Vec::new() },
        ),
        Answer::TimedOut => (
            ServiceStatus {
                name: "Postgres",
                state: owned("timeout"),
                detail: owned("DATABASE_URL"),
                ok: false,
            },
            Contents { counts: Counts::default(), guilds: Vec::new(), users: Vec::new() },
        ),
    }
}

/// Where the services are.
#[derive(Debug, PartialEq)]
pub struct Targets {
    pub database_url: String,
    pub redis_url: String,
    pub port: u16,
}

/// The port that a variable names; 3000 where it is not set, or names none.
pub open spec fn port_of(value: Option<String>) -> nat {
    match value {
        Some(text) => match read_unsigned(text@, u16::MAX as nat) {
            Ok(port) => port,
            Err(_) => 3000,
        },
        None => 3000,
    }
}

/// Where the services are, by the variables that tell. Fails without that of the database.
pub fn targets(
    database_url: Option<String>,
    redis_url: Option<String>,
    port: Option<String>,
) -> (r: Result<Targets, String>)
    ensures
        match r {
            Ok(t) => {
                &&& database_url == Some(t.database_url)
                &&& t.redis_url@ == match redis_url {
                    Some(url) => url@,
                    None => "redis://127.0.0.1:6379"@,
                }
                &&& t.port == port_of(port)
            },
            Err(e) => database_url is None && e@ == "DATABASE_URL is not set"@,
        },
{
    let database_url: String = match database_url {
        Some(url) => url,
        None => {
            return Err(owned("DATABASE_URL is not set"));
        },
    };
    let redis_url: String = match redis_url {
        Some(url) => url,
        None => owned("redis://127.0.0.1:6379"),
    };
    let port: u16 = match port {
        Some(text) => match parse_unsigned(text.as_str(), u16::MAX as u64) {
            Ok(port) => port as u16,
            Err(_) => 3000,
        },
        None => 3000,
    };
    Ok(Targets { database_url, redis_url, port })
}

/// The text behind the first empty line of an answer over HTTP, where there is one.
pub fn http_body(response: &str) -> (r: Result<String, String>)
    ensures
        match r {
            Ok(body) => exists|head: Seq<char>| #[trigger]
                first_occurrence(response@, "\r\n\r\n"@, head.len() as int) && response@ == head
                    + "\r\n\r\n"@ + body@,
            Err(e) => !occurs(response@, "\r\n\r\n"@) && e@
                == "gateway metrics response did not contain a body"@,
        },
{
    match split_text_at(response, "\r\n\r\n") {
        Some((head, body)) => {
            assert(first_occurrence(response@, "\r\n\r\n"@, head@.len() as int));
            Ok(body)
        },
        None => Err(owned("gateway metrics response did not contain a body")),
    }
}

/// The text behind the first empty line of an answer over HTTP; none where the answer is no text
/// or has no such line.
pub fn http_body_of(response: Vec<u8>) -> (r: Option<String>)
    ensures
        match r {
            Some(body) => valid_utf8(response@) && exists|head: Seq<char>| #[trigger]
                first_occurrence(
                    decode_utf8(response@),
                    "\r\n\r\n"@,
                    head.len() as int,
                ) && decode_utf8(response@) == head + "\r\n\r\n"@ + body@,
            None => valid_utf8(response@) ==> !occurs(decode_utf8(response@), "\r\n\r\n"@),
        },
{
    match utf8_text(response) {
        Some(text) => match http_body(text.as_str()) {
            Ok(body) => Some(body),
            Err(_) => None,
        },
        None => None,
    }
}

/// The statement that counts the rows of a table.
pub fn count_table(table: &str) -> (r: String)
    ensures
        r@ == "SELECT COUNT(*)::BIGINT FROM "@ + table@,
{
    owned("SELECT COUNT(*)::BIGINT FROM ").concat(table)
}

/// The statement that fetches the guilds with most messages and members, with their sizes.
pub fn guild_rows_sql() -> (r: &'static str)
    ensures
        r@ == "SELECT g.id, g.name,
                    COUNT(DISTINCT gm.id)::BIGINT AS members,
                    COUNT(DISTINCT c.id)::BIGINT AS channels,
                    COUNT(DISTINCT m.id)::BIGINT AS messages
             FROM guilds g
             LEFT JOIN guildmembers gm ON gm.guild_id = g.id
             LEFT JOIN channels c ON c.guild_id = g.id
             LEFT JOIN messages m ON m.guild_id = g.id
             GROUP BY g.id, g.name
             ORDER BY messages DESC, members DESC
             LIMIT 100"@,
{
    "SELECT g.id, g.name,
                    COUNT(DISTINCT gm.id)::BIGINT AS members,
                    COUNT(DISTINCT c.id)::BIGINT AS channels,
                    COUNT(DISTINCT m.id)::BIGINT AS messages
             FROM guilds g
             LEFT JOIN guildmembers gm ON gm.guild_id = g.id
             LEFT JOIN channels c ON c.guild_id = g.id
             LEFT JOIN messages m ON m.guild_id = g.id
             GROUP BY g.id, g.name
             ORDER BY messages DESC, members DESC
             LIMIT 100"
}

/// The statement that fetches the users with most messages and guilds, with their sizes.
pub fn user_rows_sql() -> (r: &'static str)
    ensures
        r@ == "SELECT u.id, u.username, u.tag, u.status::TEXT AS status,
                    COUNT(DISTINCT gm.id)::BIGINT AS guilds,
                    COUNT(DISTINCT m.id)::BIGINT AS messages
             FROM users u
             LEFT JOIN guildmembers gm ON gm.user_id = u.id
             LEFT JOIN messages m ON m.author_id = u.id
             GROUP BY u.id, u.username, u.tag, u.status
             ORDER BY messages DESC, guilds DESC
             LIMIT 100"@,
{
    "SELECT u.id, u.username, u.tag, u.status::TEXT AS status,
                    COUNT(DISTINCT gm.id)::BIGINT AS guilds,
                    COUNT(DISTINCT m.id)::BIGINT AS messages
             FROM users u
             LEFT JOIN guildmembers gm ON gm.user_id = u.id
             LEFT JOIN messages m ON m.author_id = u.id
             GROUP BY u.id, u.username, u.tag, u.status
             ORDER BY messages DESC, guilds DESC
             LIMIT 100"
}

/// What a look at the services has shown: the backend, the database and Redis, in this order.
pub fn collected(
    backend: ServiceStatus,
    database: (ServiceStatus, Contents),
    redis: ServiceStatus,
    gateway_metrics: Option<GatewayMetrics>,
    env: Vec<(String, String)>,
) -> (r: Snapshot)
    ensures
        r.services@ == seq![backend, database.0, redis],
        r.counts == database.1.counts,
        r.guilds == database.1.guilds,
        r.users == database.1.users,
        r.events@.map_values(|e: EventRow| event_texts(e)) == known_events(),
        r.gateway_metrics == gateway_metrics,
        r.env == env,
        r.last_error is None,
{
    let (status, contents) = database;
    let services: Vec<ServiceStatus> = vec![backend, status, redis];
    Snapshot {
        services,
        counts: contents.counts,
        guilds: contents.guilds,
        users: contents.users,
        events: default_events(),
        gateway_metrics,
        env,
        last_error: None,
    }
}

/// What is shown where a first look at the services has failed.
pub fn not_collected(error: String, env: Vec<(String, String)>) -> (r: Snapshot)
    ensures
        r.services@.len() == 0,
        r.counts == Counts::none(),
        r.guilds@.len() == 0,
        r.users@.len() == 0,
        r.events@.map_values(|e: EventRow| event_texts(e)) == known_events(),
        r.gateway_metrics is None,
        r.env == env,
        r.last_error == Some(error),
{
    let mut snapshot: Snapshot = Snapshot::default();
    snapshot.last_error = Some(error);
    snapshot.env = env;
    snapshot
}

} // verus!
