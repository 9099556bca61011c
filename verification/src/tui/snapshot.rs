//! What the dashboard has learned of the service.

use vstd::prelude::*;
use crate::text::chars::owned;

verus! {

/// Whether a service is up.
#[derive(Debug, PartialEq)]
pub struct ServiceStatus {
    pub name: &'static str,
    pub state: String,
    pub detail: String,
    pub ok: bool,
}

/// How many rows the tables of the database have.
#[derive(Clone, Copy, Debug, PartialEq, Eq, Structural)]
pub struct Counts {
    pub users: i64,
    pub guilds: i64,
    pub channels: i64,
    pub guild_members: i64,
    pub messages: i64,
    pub invites: i64,
}

impl Counts {
    /// No rows anywhere.
    pub open spec fn none() -> Counts {
        Counts { users: 0, guilds: 0, channels: 0, guild_members: 0, messages: 0, invites: 0 }
    }
}

impl Default for Counts {
    fn default() -> (r: Self)
        ensures
            r == Counts::none(),
    {
        Counts { users: 0, guilds: 0, channels: 0, guild_members: 0, messages: 0, invites: 0 }
    }
}

/// A guild, with the sizes of what belongs to it.
#[derive(Debug, PartialEq)]
pub struct GuildRow {
    pub id: String,
    pub name: String,
    pub members: i64,
    pub channels: i64,
    pub messages: i64,
}

/// A user, with the sizes of what belongs to it.
#[derive(Debug, PartialEq)]
pub struct UserRow {
    pub id: String,
    pub username: String,
    pub tag: String,
    pub status: String,
    pub guilds: i64,
    pub messages: i64,
}

/// An event of the gateway, and what is known of it.
#[derive(Debug, PartialEq)]
pub struct EventRow {
    pub name: String,
    pub volume: String,
    pub source: String,
    pub risk: String,
}

/// How often something was counted.
#[derive(Debug, PartialEq)]
pub struct GatewayMetricEntry {
    pub key: String,
    pub count: u64,
}

/// Something that happened at the gateway.
#[derive(Debug, PartialEq)]
pub struct GatewayRecentEvent {
    pub at_ms: u128,
    pub kind: String,
    pub detail: String,
}

/// What the gateway has counted.
#[derive(Debug, PartialEq)]
pub struct GatewayMetrics {
    pub connected_sockets: u64,
    pub identified_users: usize,
    pub subscribed_rooms: usize,
    pub total_inbound: u64,
    pub total_dispatches: u64,
    pub total_broadcasts: u64,
    pub inbound_by_op: Vec<GatewayMetricEntry>,
    pub dispatch_by_type: Vec<GatewayMetricEntry>,
    pub broadcasts_by_room: Vec<GatewayMetricEntry>,
    pub recent: Vec<GatewayRecentEvent>,
}

/// All that was learned at one time.
#[derive(Debug, PartialEq)]
pub struct Snapshot {
    pub services: Vec<ServiceStatus>,
    pub counts: Counts,
    pub guilds: Vec<GuildRow>,
    pub users: Vec<UserRow>,
    pub events: Vec<EventRow>,
    pub gateway_metrics: Option<GatewayMetrics>,
    pub env: Vec<(String, String)>,
    pub last_error: Option<String>,
}

/// The texts of an event.
pub open spec fn event_texts(e: EventRow) -> Seq<Seq<char>> {
    seq![e.name@, e.volume@, e.source@, e.risk@]
}

/// The events that the gateway is known to have.
pub open spec fn known_events() -> Seq<Seq<Seq<char>>> {
    seq![
        seq![
            "MESSAGE_CREATE"@,
            "high"@,
            "channels::create_message"@,
            "broadcasts to guild room; watch busy channels"@,
        ],
        seq![
            "PRESENCE_UPDATE"@,
            "very high"@,
            "gateway presence + identify + disconnect"@,
            "can spam all guild rooms for active users"@,
        ],
        seq![
            "TYPING_START"@,
            "burst"@,
            "channels::typing_start"@,
            "needs debounce/rate limit per user/channel"@,
        ],
        seq![
            "GUILD_MEMBER_ADD"@,
            "medium"@,
            "invites::use_invite"@,
            "fanout to guild room"@,
        ],
        seq![
            "USER_UPDATE"@,
            "low"@,
            "users::update_user"@,
            "broadcasts once per joined guild"@,
        ],
        seq![
            "INVITE_CODE_DELETE"@,
            "low"@,
            "admin::delete_invite_code"@,
            "admin room only"@,
        ],
    ]
}

/// An event of these texts.
fn event(name: &str, volume: &str, source: &str, risk: &str) -> (r: EventRow)
    ensures
        event_texts(r) == seq![name@, volume@, source@, risk@],
{
    EventRow {
        name: owned(name),
        volume: owned(volume),
        source: owned(source),
        risk: owned(risk),
    }
}

/// The events that the gateway is known to have.
pub fn default_events() -> (r: Vec<EventRow>)
    ensures
        r@.map_values(|e: EventRow| event_texts(e)) == known_events(),
{
    let mut out: Vec<EventRow> = Vec::new();
    out.push(
        event(
            "MESSAGE_CREATE",
            "high",
            "channels::create_message",
            "broadcasts to guild room; watch busy channels",
        ),
    );
    out.push(
        event(
            "PRESENCE_UPDATE",
            "very high",
            "gateway presence + identify + disconnect",
            "can spam all guild rooms for active users",
        ),
    );
    out.push(
        event(
            "TYPING_START",
            "burst",
            "channels::typing_start",
            "needs debounce/rate limit per user/channel",
        ),
    );
    out.push(event("GUILD_MEMBER_ADD", "medium", "invites::use_invite", "fanout to guild room"));
    out.push(event("USER_UPDATE", "low", "users::update_user", "broadcasts once per joined guild"));
    out.push(event("INVITE_CODE_DELETE", "low", "admin::delete_invite_code", "admin room only"));
    assert(out@.map_values(|e: EventRow| event_texts(e)) =~= known_events());
    out
}

impl Default for Snapshot {
    fn default() -> (r: Self)
        ensures
            r.services@.len() == 0,
            r.counts == Counts::none(),
            r.guilds@.len() == 0,
            r.users@.len() == 0,
            r.events@.map_values(|e: EventRow| event_texts(e)) == known_events(),
            r.gateway_metrics is None,
            r.env@.len() == 0,
            r.last_error is None,
    {
        Snapshot {
            services: Vec::new(),
            counts: Counts::default(),
            guilds: Vec::new(),
            users: Vec::new(),
            events: default_events(),
            gateway_metrics: None,
            env: Vec::new(),
            last_error: None,
        }
    }
}

} // verus!
