//! What the pages of the dashboard show, entry by entry, and what a search lets through.

use vstd::prelude::*;
use crate::laws::texts::{blank, lemma_blank};
use crate::text::decimal::{decimal, signed_decimal};
use crate::text::search::{lower_case, occurs};
use crate::tui::snapshot::{
    Counts, EventRow, GatewayMetricEntry, GatewayMetrics, GatewayRecentEvent, GuildRow,
    ServiceStatus, UserRow,
};
use crate::tui::tables::{
    any_holds, counts_grid, env_found, events_found, guilds_found, metric_page, padded,
    pressure_grid, recent_found, recent_page, shown, shows_service, users_found, ServiceLine,
};

verus! {

/// Whether a text holds a search, whatever the case of the letters.
pub open spec fn holds(text: Seq<char>, search: Seq<char>) -> bool {
    occurs(lower_case(text), lower_case(search))
}

/// Something is shown where the search is blank or one of its texts holds the search.
proof fn lemma_shown(search: Seq<char>, values: Seq<Seq<char>>)
    ensures
        shown(search, values) <==> blank(search) || exists|i: int|
            0 <= i < values.len() && holds(#[trigger] values[i], search),
{
    lemma_blank(search);
    let low = values.map_values(|v: Seq<char>| lower_case(v));
    if any_holds(low, lower_case(search)) {
        let i = choose|i: int|
            0 <= i < low.len() && occurs(#[trigger] low[i], lower_case(search));
        assert(holds(values[i], search));
    }
    if exists|i: int| 0 <= i < values.len() && holds(#[trigger] values[i], search) {
        let i = choose|i: int| 0 <= i < values.len() && holds(#[trigger] values[i], search);
        assert(occurs(low[i], lower_case(search)));
    }
}

/// Whether a search lets a user through: a blank one does, and one that its id, username, tag or
/// status holds.
pub open spec fn user_meets(u: UserRow, search: Seq<char>) -> bool {
    ||| blank(search)
    ||| holds(u.id@, search)
    ||| holds(u.username@, search)
    ||| holds(u.tag@, search)
    ||| holds(u.status@, search)
}

/// What a row says of a user.
pub open spec fn user_row(u: UserRow) -> Seq<Seq<char>> {
    seq![
        u.id@,
        u.username@,
        u.tag@,
        u.status@,
        signed_decimal(u.guilds as int),
        signed_decimal(u.messages as int),
    ]
}

/// Each of those fields by itself is enough, and nothing else is.
proof fn lemma_user_shown(u: UserRow, search: Seq<char>)
    ensures
        shown(search, seq![u.id@, u.username@, u.tag@, u.status@]) <==> user_meets(u, search),
{
    let values = seq![u.id@, u.username@, u.tag@, u.status@];
    lemma_shown(search, values);
    if holds(u.id@, search) {
        assert(holds(values[0], search));
    }
    if holds(u.username@, search) {
        assert(holds(values[1], search));
    }
    if holds(u.tag@, search) {
        assert(holds(values[2], search));
    }
    if holds(u.status@, search) {
        assert(holds(values[3], search));
    }
}

/// Of all users, the rows of those that a search lets through are shown, in their order, and no
/// others.
pub proof fn lemma_user_rows(users: Seq<UserRow>, search: Seq<char>)
    ensures
        users_found(users, search) == users.filter(|u: UserRow| user_meets(u, search)).map_values(
            |u: UserRow| user_row(u),
        ),
    decreases users.len(),
{
    let meets = |u: UserRow| user_meets(u, search);
    let row = |u: UserRow| user_row(u);
    reveal(Seq::filter);
    if users.len() > 0 {
        lemma_user_rows(users.drop_last(), search);
        let u = users.last();
        lemma_user_shown(u, search);
        let kept = users.drop_last().filter(meets);
        assert(kept.push(u).map_values(row) =~= kept.map_values(row).push(user_row(u)));
    } else {
        assert(users.filter(meets).map_values(row) =~= Seq::empty());
    }
}

/// Where the id, username, tag or status of a user holds a search, whatever the case of the
/// letters, its row is in the table.
pub proof fn lemma_user_is_found(users: Seq<UserRow>, i: int, search: Seq<char>)
    requires
        0 <= i < users.len(),
        holds(users[i].id@, search) || holds(users[i].username@, search)
            || holds(users[i].tag@, search) || holds(users[i].status@, search),
    ensures
        users_found(users, search).contains(user_row(users[i])),
{
    let meets = |u: UserRow| user_meets(u, search);
    let row = |u: UserRow| user_row(u);
    lemma_user_rows(users, search);
    assert(meets(users[i]));
    let kept = users.filter(meets);
    users.lemma_filter_contains(meets, i);
    let k = kept.index_of(users[i]);
    assert(kept.map_values(row)[k] == user_row(users[i]));
}

/// Whether a search lets a guild through: a blank one does, and one that its id or name holds.
pub open spec fn guild_meets(g: GuildRow, search: Seq<char>) -> bool {
    ||| blank(search)
    ||| holds(g.id@, search)
    ||| holds(g.name@, search)
}

/// What a row says of a guild.
pub open spec fn guild_row(g: GuildRow) -> Seq<Seq<char>> {
    seq![
        g.id@,
        g.name@,
        signed_decimal(g.members as int),
        signed_decimal(g.channels as int),
        signed_decimal(g.messages as int),
    ]
}

/// Each of those fields by itself is enough, and nothing else is.
proof fn lemma_guild_shown(g: GuildRow, search: Seq<char>)
    ensures
        shown(search, seq![g.id@, g.name@]) <==> guild_meets(g, search),
{
    let values = seq![g.id@, g.name@];
    lemma_shown(search, values);
    if holds(g.id@, search) {
        assert(holds(values[0], search));
    }
    if holds(g.name@, search) {
        assert(holds(values[1], search));
    }
}

/// Of all guilds, the rows of those that a search lets through are shown, in their order, and no
/// others.
pub proof fn lemma_guild_rows(guilds: Seq<GuildRow>, search: Seq<char>)
    ensures
        guilds_found(guilds, search) == guilds.filter(
            |g: GuildRow| guild_meets(g, search),
        ).map_values(
            |g: GuildRow| guild_row(g),
        ),
    decreases guilds.len(),
{
    let meets = |g: GuildRow| guild_meets(g, search);
    let row = |g: GuildRow| guild_row(g);
    reveal(Seq::filter);
    if guilds.len() > 0 {
        lemma_guild_rows(guilds.drop_last(), search);
        let g = guilds.last();
        lemma_guild_shown(g, search);
        let kept = guilds.drop_last().filter(meets);
        assert(kept.push(g).map_values(row) =~= kept.map_values(row).push(guild_row(g)));
    } else {
        assert(guilds.filter(meets).map_values(row) =~= Seq::empty());
    }
}

/// Where the id or name of a guild holds a search, whatever the case of the letters, its row
/// is in the table.
pub proof fn lemma_guild_is_found(guilds: Seq<GuildRow>, i: int, search: Seq<char>)
    requires
        0 <= i < guilds.len(),
        holds(guilds[i].id@, search) || holds(guilds[i].name@, search),
    ensures
        guilds_found(guilds, search).contains(guild_row(guilds[i])),
{
    let meets = |g: GuildRow| guild_meets(g, search);
    let row = |g: GuildRow| guild_row(g);
    lemma_guild_rows(guilds, search);
    assert(meets(guilds[i]));
    let kept = guilds.filter(meets);
    guilds.lemma_filter_contains(meets, i);
    let k = kept.index_of(guilds[i]);
    assert(kept.map_values(row)[k] == guild_row(guilds[i]));
}

/// Whether a search lets an event through: a blank one does, and one that its name, source or risk
/// holds.
pub open spec fn event_meets(e: EventRow, search: Seq<char>) -> bool {
    ||| blank(search)
    ||| holds(e.name@, search)
    ||| holds(e.source@, search)
    ||| holds(e.risk@, search)
}

/// What a row says of an event.
pub open spec fn event_row(e: EventRow) -> Seq<Seq<char>> {
    seq![
        e.name@,
        e.volume@,
        e.source@,
        e.risk@,
    ]
}

/// Each of those fields by itself is enough, and nothing else is.
proof fn lemma_event_shown(e: EventRow, search: Seq<char>)
    ensures
        shown(search, seq![e.name@, e.source@, e.risk@]) <==> event_meets(e, search),
{
    let values = seq![e.name@, e.source@, e.risk@];
    lemma_shown(search, values);
    if holds(e.name@, search) {
        assert(holds(values[0], search));
    }
    if holds(e.source@, search) {
        assert(holds(values[1], search));
    }
    if holds(e.risk@, search) {
        assert(holds(values[2], search));
    }
}

/// Of all events, the rows of those that a search lets through are shown, in their order, and no
/// others.
pub proof fn lemma_event_rows(events: Seq<EventRow>, search: Seq<char>)
    ensures
        events_found(events, search) == events.filter(
            |e: EventRow| event_meets(e, search),
        ).map_values(
            |e: EventRow| event_row(e),
        ),
    decreases events.len(),
{
    let meets = |e: EventRow| event_meets(e, search);
    let row = |e: EventRow| event_row(e);
    reveal(Seq::filter);
    if events.len() > 0 {
        lemma_event_rows(events.drop_last(), search);
        let e = events.last();
        lemma_event_shown(e, search);
        let kept = events.drop_last().filter(meets);
        assert(kept.push(e).map_values(row) =~= kept.map_values(row).push(event_row(e)));
    } else {
        assert(events.filter(meets).map_values(row) =~= Seq::empty());
    }
}

/// Where the name, source or risk of an event holds a search, whatever the case of the letters, its
/// row is in the table.
pub proof fn lemma_event_is_found(events: Seq<EventRow>, i: int, search: Seq<char>)
    requires
        0 <= i < events.len(),
        holds(events[i].name@, search) || holds(events[i].source@, search)
            || holds(events[i].risk@, search),
    ensures
        events_found(events, search).contains(event_row(events[i])),
{
    let meets = |e: EventRow| event_meets(e, search);
    let row = |e: EventRow| event_row(e);
    lemma_event_rows(events, search);
    assert(meets(events[i]));
    let kept = events.filter(meets);
    events.lemma_filter_contains(meets, i);
    let k = kept.index_of(events[i]);
    assert(kept.map_values(row)[k] == event_row(events[i]));
}

/// Whether a search lets a variable through: a blank one does, and one that its name or value
/// holds.
pub open spec fn entry_meets(e: (String, String), search: Seq<char>) -> bool {
    ||| blank(search)
    ||| holds(e.0@, search)
    ||| holds(e.1@, search)
}

/// What a row says of a variable.
pub open spec fn entry_row(e: (String, String)) -> Seq<Seq<char>> {
    seq![
        e.0@,
        e.1@,
    ]
}

/// Each of those fields by itself is enough, and nothing else is.
proof fn lemma_entry_shown(e: (String, String), search: Seq<char>)
    ensures
        shown(search, seq![e.0@, e.1@]) <==> entry_meets(e, search),
{
    let values = seq![e.0@, e.1@];
    lemma_shown(search, values);
    if holds(e.0@, search) {
        assert(holds(values[0], search));
    }
    if holds(e.1@, search) {
        assert(holds(values[1], search));
    }
}

/// Of all variables, the rows of those that a search lets through are shown, in their order, and no
/// others.
pub proof fn lemma_entry_rows(env: Seq<(String, String)>, search: Seq<char>)
    ensures
        env_found(env, search) == env.filter(
            |e: (String, String)| entry_meets(e, search),
        ).map_values(
            |e: (String, String)| entry_row(e),
        ),
    decreases env.len(),
{
    let meets = |e: (String, String)| entry_meets(e, search);
    let row = |e: (String, String)| entry_row(e);
    reveal(Seq::filter);
    if env.len() > 0 {
        lemma_entry_rows(env.drop_last(), search);
        let e = env.last();
        lemma_entry_shown(e, search);
        let kept = env.drop_last().filter(meets);
        assert(kept.push(e).map_values(row) =~= kept.map_values(row).push(entry_row(e)));
    } else {
        assert(env.filter(meets).map_values(row) =~= Seq::empty());
    }
}

/// Where the name or value of a variable holds a search, whatever the case of the letters, its row
/// is in the table.
pub proof fn lemma_entry_is_found(env: Seq<(String, String)>, i: int, search: Seq<char>)
    requires
        0 <= i < env.len(),
        holds(env[i].0@, search) || holds(env[i].1@, search),
    ensures
        env_found(env, search).contains(entry_row(env[i])),
{
    let meets = |e: (String, String)| entry_meets(e, search);
    let row = |e: (String, String)| entry_row(e);
    lemma_entry_rows(env, search);
    assert(meets(env[i]));
    let kept = env.filter(meets);
    env.lemma_filter_contains(meets, i);
    let k = kept.index_of(env[i]);
    assert(kept.map_values(row)[k] == entry_row(env[i]));
}

/// Whether a search lets something that happened through: a blank one does, and one that its kind
/// or detail holds.
pub open spec fn recent_meets(e: GatewayRecentEvent, search: Seq<char>) -> bool {
    ||| blank(search)
    ||| holds(e.kind@, search)
    ||| holds(e.detail@, search)
}

/// What a row says of something that happened.
pub open spec fn recent_row(e: GatewayRecentEvent) -> Seq<Seq<char>> {
    seq![
        padded(e.kind@, 10),
        e.detail@ + "  @"@ + decimal(e.at_ms as nat),
    ]
}

/// Each of those fields by itself is enough, and nothing else is.
proof fn lemma_recent_shown(e: GatewayRecentEvent, search: Seq<char>)
    ensures
        shown(search, seq![e.kind@, e.detail@]) <==> recent_meets(e, search),
{
    let values = seq![e.kind@, e.detail@];
    lemma_shown(search, values);
    if holds(e.kind@, search) {
        assert(holds(values[0], search));
    }
    if holds(e.detail@, search) {
        assert(holds(values[1], search));
    }
}

/// Of all that happened, the rows of those that a search lets through are shown, in their order,
/// and no others.
pub proof fn lemma_recent_rows(events: Seq<GatewayRecentEvent>, search: Seq<char>)
    ensures
        recent_found(events, search) == events.filter(
            |e: GatewayRecentEvent| recent_meets(e, search),
        ).map_values(
            |e: GatewayRecentEvent| recent_row(e),
        ),
    decreases events.len(),
{
    let meets = |e: GatewayRecentEvent| recent_meets(e, search);
    let row = |e: GatewayRecentEvent| recent_row(e);
    reveal(Seq::filter);
    if events.len() > 0 {
        lemma_recent_rows(events.drop_last(), search);
        let e = events.last();
        lemma_recent_shown(e, search);
        let kept = events.drop_last().filter(meets);
        assert(kept.push(e).map_values(row) =~= kept.map_values(row).push(recent_row(e)));
    } else {
        assert(events.filter(meets).map_values(row) =~= Seq::empty());
    }
}

/// Where the kind or detail of something that happened holds a search, whatever the case of the
/// letters, its row is among what is found.
pub proof fn lemma_recent_is_found(events: Seq<GatewayRecentEvent>, i: int, search: Seq<char>)
    requires
        0 <= i < events.len(),
        holds(events[i].kind@, search) || holds(events[i].detail@, search),
    ensures
        recent_found(events, search).contains(recent_row(events[i])),
{
    let meets = |e: GatewayRecentEvent| recent_meets(e, search);
    let row = |e: GatewayRecentEvent| recent_row(e);
    lemma_recent_rows(events, search);
    assert(meets(events[i]));
    let kept = events.filter(meets);
    events.lemma_filter_contains(meets, i);
    let k = kept.index_of(events[i]);
    assert(kept.map_values(row)[k] == recent_row(events[i]));
}

/// Of what happened, the first ten rows that a search lets through are shown, and all of them
/// where there are no more.
pub proof fn lemma_recent_first(metrics: GatewayMetrics, search: Seq<char>)
    ensures
        ({
            let found = recent_found(metrics.recent@, search);
            let page = recent_page(Some(metrics), search);
            &&& page.len() == if found.len() < 10 {
                found.len()
            } else {
                10
            }
            &&& forall|i: int| 0 <= i < page.len() ==> #[trigger] page[i] == found[i]
        }),
        recent_page(None, search) == seq![seq!["No live gateway metrics yet."@]],
{
}

/// A text in a column starts with the text, and only spaces follow, up to the width.
pub proof fn lemma_column(s: Seq<char>, width: nat)
    ensures
        padded(s, width).len() == if s.len() < width {
            width
        } else {
            s.len()
        },
        padded(s, width).take(s.len() as int) == s,
        forall|i: int|
            s.len() <= i < padded(s, width).len() ==> #[trigger] padded(s, width)[i] == ' ',
{
    assert(padded(s, width).take(s.len() as int) =~= s);
}

/// Every size stands beside the name of its table.
pub proof fn lemma_counts_named(counts: Counts)
    ensures
        ({
            let page = counts_grid(counts);
            &&& page.len() == 6
            &&& page.contains(seq!["Users"@, signed_decimal(counts.users as int)])
            &&& page.contains(seq!["Guilds"@, signed_decimal(counts.guilds as int)])
            &&& page.contains(seq!["Channels"@, signed_decimal(counts.channels as int)])
            &&& page.contains(seq!["Members"@, signed_decimal(counts.guild_members as int)])
            &&& page.contains(seq!["Messages"@, signed_decimal(counts.messages as int)])
            &&& page.contains(seq!["Invites"@, signed_decimal(counts.invites as int)])
        }),
{
    let page = counts_grid(counts);
    assert(page[0] == seq!["Users"@, signed_decimal(counts.users as int)]);
    assert(page[1] == seq!["Guilds"@, signed_decimal(counts.guilds as int)]);
    assert(page[2] == seq!["Channels"@, signed_decimal(counts.channels as int)]);
    assert(page[3] == seq!["Members"@, signed_decimal(counts.guild_members as int)]);
    assert(page[4] == seq!["Messages"@, signed_decimal(counts.messages as int)]);
    assert(page[5] == seq!["Invites"@, signed_decimal(counts.invites as int)]);
}

/// Every number of the gateway stands beside its name.
pub proof fn lemma_pressure_named(m: GatewayMetrics, guilds: i64)
    ensures
        ({
            let page = pressure_grid(Some(m), guilds);
            &&& page.len() == 4
            &&& page[0] == seq![
                "Connected sockets"@,
                decimal(m.connected_sockets as nat),
                "live"@,
            ]
            &&& page[1] == seq!["Identified users"@, decimal(m.identified_users as nat), "live"@]
            &&& page[2] == seq!["Subscribed rooms"@, decimal(m.subscribed_rooms as nat), "live"@]
            &&& page[3][0] == "Inbound / Dispatch / Broadcast"@
            &&& page[3][1] == decimal(m.total_inbound as nat) + " / "@ + decimal(
                m.total_dispatches as nat,
            ) + " / "@ + decimal(m.total_broadcasts as nat)
        }),
        pressure_grid(None, guilds).contains(
            seq!["Rooms"@, "guild count from DB"@, signed_decimal(guilds as int)],
        ),
{
    assert(pressure_grid(None, guilds)[2] == seq![
        "Rooms"@,
        "guild count from DB"@,
        signed_decimal(guilds as int),
    ]);
}

/// Every key stands in a row of its own beside its count, in their order.
pub proof fn lemma_keys_counted(entries: Seq<GatewayMetricEntry>)
    ensures
        entries.len() > 0 ==> metric_page(Some(entries)).len() == entries.len(),
        forall|i: int|
            0 <= i < entries.len() ==> #[trigger] metric_page(Some(entries))[i] == seq![
                entries[i].key@,
                decimal(entries[i].count as nat),
            ],
        entries.len() == 0 ==> metric_page(Some(entries)) == seq![seq!["none"@, "0"@]],
        metric_page(None) == seq![seq!["no data"@, "0"@]],
{
}

/// A line shows a service by its name and its state, each at the start of a column of its own
/// width, and by its detail, and tells whether it is well.
pub proof fn lemma_service_shown(line: ServiceLine, service: ServiceStatus)
    requires
        shows_service(line, service),
    ensures
        line.name@.take(service.name@.len() as int) == service.name@,
        line.state@.take(service.state@.len() as int) == service.state@,
        line.name@.len() == if service.name@.len() < 10 {
            10
        } else {
            service.name@.len()
        },
        line.state@.len() == if service.state@.len() < 8 {
            8
        } else {
            service.state@.len()
        },
        line.detail@ == service.detail@,
        line.ok == service.ok,
{
    lemma_column(service.name@, 10);
    lemma_column(service.state@, 8);
}

} // verus!
