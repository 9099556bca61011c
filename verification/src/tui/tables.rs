//! What the pages of the dashboard show, row by row.

use vstd::prelude::*;
use vstd::utf8::is_ascii_chars;
use crate::text::chars::{owned, texts};
use crate::text::decimal::{decimal, decimal_text, signed_decimal, signed_decimal_text};
use crate::text::search::{
    ascii_lowered, contains_text, is_white_space, lower_case, occurs, trimmed, trimmed_end,
    trimmed_start,
};
use crate::tui::snapshot::{
    Counts, EventRow, GatewayMetricEntry, GatewayMetrics, GatewayRecentEvent, GuildRow,
    ServiceStatus, UserRow,
};

verus! {

/// A text with spaces behind it, up to a width.
pub open spec fn padded(s: Seq<char>, width: nat) -> Seq<char> {
    if s.len() >= width {
        s
    } else {
        s + Seq::new((width - s.len()) as nat, |i: int| ' ')
    }
}

/// Writes a text with spaces behind it, up to a width.
pub fn pad(s: &str, width: usize) -> (r: String)
    ensures
        r@ == padded(s@, width as nat),
{
    let mut out: String = owned(s);
    let mut n: usize = s.unicode_len();
    proof {
        assert(out@ =~= s@ + Seq::new((n - s@.len()) as nat, |i: int| ' '));
    }
    while n < width
        invariant
            s@.len() <= n,
            s@.len() <= width ==> n <= width,
            s@.len() > width ==> n == s@.len(),
            out@ == s@ + Seq::new((n - s@.len()) as nat, |i: int| ' '),
        decreases width - n,
    {
        out.push(' ');
        n = n + 1;
        assert(out@ =~= s@ + Seq::new((n - s@.len()) as nat, |i: int| ' '));
    }
    assert(out@ =~= padded(s@, width as nat));
    out
}

/// What rows of texts say.
pub open spec fn grid(rows: Seq<Vec<String>>) -> Seq<Seq<Seq<char>>> {
    rows.map_values(|row: Vec<String>| texts(row@))
}

/// A row of two texts.
fn row2(a: &str, b: &str) -> (r: Vec<String>)
    ensures
        texts(r@) == seq![a@, b@],
{
    let row: Vec<String> = vec![owned(a), owned(b)];
    assert(texts(row@) =~= seq![a@, b@]);
    row
}

/// A row of three texts.
fn row3(a: &str, b: &str, c: &str) -> (r: Vec<String>)
    ensures
        texts(r@) == seq![a@, b@, c@],
{
    let row: Vec<String> = vec![owned(a), owned(b), owned(c)];
    assert(texts(row@) =~= seq![a@, b@, c@]);
    row
}

/// Whether one of some texts holds another.
pub open spec fn any_holds(values: Seq<Seq<char>>, needle: Seq<char>) -> bool {
    exists|i: int| 0 <= i < values.len() && occurs(#[trigger] values[i], needle)
}

/// Whether something with these texts is shown under a search: where the search is blank, and
/// where one of the texts holds it, whatever the case of the letters.
pub open spec fn shown(search: Seq<char>, values: Seq<Seq<char>>) -> bool {
    trimmed(search).len() == 0 || any_holds(
        values.map_values(|v: Seq<char>| lower_case(v)),
        lower_case(search),
    )
}

/// Whether something with these ASCII texts is shown under an ASCII search.
pub open spec fn shown_ascii(search: Seq<char>, values: Seq<Seq<char>>) -> bool {
    trimmed(search).len() == 0 || any_holds(
        values.map_values(|v: Seq<char>| ascii_lowered(v)),
        ascii_lowered(search),
    )
}

/// Letters in lower case are blank where the letters were.
proof fn lemma_lowered_trimmed(s: Seq<char>)
    ensures
        trimmed(ascii_lowered(s)) == ascii_lowered(trimmed(s)),
{
    lemma_lowered_start(s);
    lemma_lowered_end(trimmed_start(s));
}

/// Letters in lower case have the same white space at their start.
proof fn lemma_lowered_start(s: Seq<char>)
    ensures
        trimmed_start(ascii_lowered(s)) == ascii_lowered(trimmed_start(s)),
    decreases s.len(),
{
    if s.len() > 0 && is_white_space(s[0]) {
        assert(ascii_lowered(s).drop_first() =~= ascii_lowered(s.drop_first()));
        lemma_lowered_start(s.drop_first());
    }
}

/// Letters in lower case have the same white space at their end.
proof fn lemma_lowered_end(s: Seq<char>)
    ensures
        trimmed_end(ascii_lowered(s)) == ascii_lowered(trimmed_end(s)),
    decreases s.len(),
{
    if s.len() > 0 && is_white_space(s.last()) {
        assert(ascii_lowered(s).drop_last() =~= ascii_lowered(s.drop_last()));
        lemma_lowered_end(s.drop_last());
    }
}

/// A search among ASCII texts does not depend on the case of the letters, neither in the search
/// nor in the texts.
pub proof fn lemma_search_ignores_case(
    a: Seq<char>,
    b: Seq<char>,
    xs: Seq<Seq<char>>,
    ys: Seq<Seq<char>>,
)
    requires
        ascii_lowered(a) == ascii_lowered(b),
        xs.map_values(|v: Seq<char>| ascii_lowered(v)) == ys.map_values(
            |v: Seq<char>| ascii_lowered(v),
        ),
    ensures
        shown_ascii(a, xs) == shown_ascii(b, ys),
{
    lemma_lowered_trimmed(a);
    lemma_lowered_trimmed(b);
    assert(ascii_lowered(trimmed(a)).len() == ascii_lowered(trimmed(b)).len());
}

/// Whether one of some texts holds another.
pub fn any_contains(values: &Vec<String>, needle: &str) -> (r: bool)
    ensures
        r == any_holds(texts(values@), needle@),
{
    let mut i: usize = 0;
    while i < values.len()
        invariant
            i <= values@.len(),
            forall|j: int| 0 <= j < i ==> !occurs(#[trigger] texts(values@)[j], needle@),
        decreases values@.len() - i,
    {
        if contains_text(values[i].as_str(), needle) {
            assert(occurs(texts(values@)[i as int], needle@));
            return true;
        }
        i = i + 1;
    }
    false
}

/// Whether something with these texts is shown under a search.
pub fn matches_search(search: &str, values: &Vec<&str>) -> (r: bool)
    ensures
        r == shown(search@, values@.map_values(|v: &str| v@)),
        is_ascii_chars(search@) && (forall|i: int|
            0 <= i < values@.len() ==> is_ascii_chars(#[trigger] values@[i]@)) ==> r
            == shown_ascii(search@, values@.map_values(|v: &str| v@)),
{
    if search.trim().unicode_len() == 0 {
        return true;
    }
    let needle: String = search.to_lowercase();
    let mut lowered: Vec<String> = Vec::new();
    let ghost all = values@.map_values(|v: &str| v@);
    let mut i: usize = 0;
    while i < values.len()
        invariant
            i <= values@.len(),
            all == values@.map_values(|v: &str| v@),
            texts(lowered@) == all.take(i as int).map_values(|v: Seq<char>| lower_case(v)),
            forall|j: int|
                0 <= j < i && is_ascii_chars(#[trigger] values@[j]@) ==> lower_case(values@[j]@)
                    == ascii_lowered(values@[j]@),
        decreases values@.len() - i,
    {
        let ghost before = texts(lowered@);
        lowered.push(values[i].to_lowercase());
        proof {
            let added = lower_case(values@[i as int]@);
            assert(texts(lowered@) =~= before.push(added));
            assert(all.take(i + 1).map_values(|v: Seq<char>| lower_case(v)) =~= all.take(
                i as int,
            ).map_values(|v: Seq<char>| lower_case(v)).push(added));
        }
        i = i + 1;
    }
    assert(all.take(i as int) =~= all);
    proof {
        if forall|j: int| 0 <= j < values@.len() ==> is_ascii_chars(#[trigger] values@[j]@) {
            assert(all.map_values(|v: Seq<char>| lower_case(v)) =~= all.map_values(
                |v: Seq<char>| ascii_lowered(v),
            ));
        }
    }
    any_contains(&lowered, needle.as_str())
}

/// A line of the list of services: its name and its state, each in a column, and the detail.
#[derive(Debug, PartialEq)]
pub struct ServiceLine {
    pub name: String,
    pub state: String,
    pub detail: String,
    pub ok: bool,
}

/// Whether a line shows a service.
pub open spec fn shows_service(line: ServiceLine, service: ServiceStatus) -> bool {
    &&& line.name@ == padded(service.name@, 10)
    &&& line.state@ == padded(service.state@, 8)
    &&& line.detail@ == service.detail@
    &&& line.ok == service.ok
}

/// The list of services.
pub fn service_lines(services: &Vec<ServiceStatus>) -> (r: Vec<ServiceLine>)
    ensures
        r@.len() == services@.len(),
        forall|i: int| 0 <= i < r@.len() ==> shows_service(#[trigger] r@[i], services@[i]),
{
    let mut out: Vec<ServiceLine> = Vec::new();
    let mut i: usize = 0;
    while i < services.len()
        invariant
            i <= services@.len(),
            out@.len() == i,
            forall|j: int| 0 <= j < i ==> shows_service(#[trigger] out@[j], services@[j]),
        decreases services@.len() - i,
    {
        let service: &ServiceStatus = &services[i];
        out.push(
            ServiceLine {
                name: pad(service.name, 10),
                state: pad(service.state.as_str(), 8),
                detail: service.detail.clone(),
                ok: service.ok,
            },
        );
        i = i + 1;
    }
    out
}

/// The sizes of the tables, by name.
pub open spec fn counts_grid(counts: Counts) -> Seq<Seq<Seq<char>>> {
    seq![
        seq!["Users"@, signed_decimal(counts.users as int)],
        seq!["Guilds"@, signed_decimal(counts.guilds as int)],
        seq!["Channels"@, signed_decimal(counts.channels as int)],
        seq!["Members"@, signed_decimal(counts.guild_members as int)],
        seq!["Messages"@, signed_decimal(counts.messages as int)],
        seq!["Invites"@, signed_decimal(counts.invites as int)],
    ]
}

/// The sizes of the tables, by name.
pub fn count_rows(counts: &Counts) -> (r: Vec<Vec<String>>)
    ensures
        grid(r@) == counts_grid(*counts),
{
    let mut rows: Vec<Vec<String>> = Vec::new();
    rows.push(row2("Users", signed_decimal_text(counts.users).as_str()));
    rows.push(row2("Guilds", signed_decimal_text(counts.guilds).as_str()));
    rows.push(row2("Channels", signed_decimal_text(counts.channels).as_str()));
    rows.push(row2("Members", signed_decimal_text(counts.guild_members).as_str()));
    rows.push(row2("Messages", signed_decimal_text(counts.messages).as_str()));
    rows.push(row2("Invites", signed_decimal_text(counts.invites).as_str()));
    assert(grid(rows@) =~= counts_grid(*counts));
    rows
}

/// How busy the gateway is; without its metrics, what else is known of it.
pub open spec fn pressure_grid(metrics: Option<GatewayMetrics>, guilds: i64) -> Seq<
    Seq<Seq<char>>,
> {
    match metrics {
        Some(m) => seq![
            seq!["Connected sockets"@, decimal(m.connected_sockets as nat), "live"@],
            seq!["Identified users"@, decimal(m.identified_users as nat), "live"@],
            seq!["Subscribed rooms"@, decimal(m.subscribed_rooms as nat), "live"@],
            seq![
                "Inbound / Dispatch / Broadcast"@,
                decimal(m.total_inbound as nat) + " / "@ + decimal(m.total_dispatches as nat)
                    + " / "@ + decimal(m.total_broadcasts as nat),
                "since boot"@,
            ],
        ],
        None => seq![
            seq!["Connected sockets"@, "backend metrics unavailable"@, "start backend"@],
            seq!["Identified users"@, "backend metrics unavailable"@, "start backend"@],
            seq!["Rooms"@, "guild count from DB"@, signed_decimal(guilds as int)],
            seq!["Likely noisy events"@, "typing/presence/message"@, "watch"@],
        ],
    }
}

/// How busy the gateway is; without its metrics, what else is known of it.
pub fn pressure_rows(metrics: &Option<GatewayMetrics>, guilds: i64) -> (r: Vec<Vec<String>>)
    ensures
        grid(r@) == pressure_grid(*metrics, guilds),
{
    let mut rows: Vec<Vec<String>> = Vec::new();
    match metrics {
        Some(m) => {
            let sockets: String = decimal_text(m.connected_sockets as u128);
            let users: String = decimal_text(m.identified_users as u128);
            let rooms: String = decimal_text(m.subscribed_rooms as u128);
            let dispatches: String = decimal_text(m.total_dispatches as u128);
            let broadcasts: String = decimal_text(m.total_broadcasts as u128);
            let mut totals: String = decimal_text(m.total_inbound as u128);
            totals.append(" / ");
            totals.append(dispatches.as_str());
            totals.append(" / ");
            totals.append(broadcasts.as_str());
            rows.push(row3("Connected sockets", sockets.as_str(), "live"));
            rows.push(row3("Identified users", users.as_str(), "live"));
            rows.push(row3("Subscribed rooms", rooms.as_str(), "live"));
            rows.push(row3("Inbound / Dispatch / Broadcast", totals.as_str(), "since boot"));
        },
        None => {
            let count: String = signed_decimal_text(guilds);
            rows.push(row3("Connected sockets", "backend metrics unavailable", "start backend"));
            rows.push(row3("Identified users", "backend metrics unavailable", "start backend"));
            rows.push(row3("Rooms", "guild count from DB", count.as_str()));
            rows.push(row3("Likely noisy events", "typing/presence/message", "watch"));
        },
    }
    assert(grid(rows@) =~= pressure_grid(*metrics, guilds));
    rows
}

/// What was counted under each key; a row that says so where nothing was.
pub open spec fn metric_grid(entries: Seq<GatewayMetricEntry>) -> Seq<Seq<Seq<char>>> {
    if entries.len() == 0 {
        seq![seq!["none"@, "0"@]]
    } else {
        entries.map_values(|e: GatewayMetricEntry| seq![e.key@, decimal(e.count as nat)])
    }
}

/// What was counted under each key; a row that says so where nothing was.
pub fn metric_rows(entries: &Vec<GatewayMetricEntry>) -> (r: Vec<Vec<String>>)
    ensures
        grid(r@) == metric_grid(entries@),
{
    let mut rows: Vec<Vec<String>> = Vec::new();
    if entries.len() == 0 {
        rows.push(row2("none", "0"));
        assert(grid(rows@) =~= metric_grid(entries@));
        return rows;
    }
    let mut i: usize = 0;
    while i < entries.len()
        invariant
            i <= entries@.len(),
            entries@.len() > 0,
            grid(rows@) == metric_grid(entries@).take(i as int),
        decreases entries@.len() - i,
    {
        let ghost before = grid(rows@);
        let entry: &GatewayMetricEntry = &entries[i];
        let count: String = decimal_text(entry.count as u128);
        rows.push(row2(entry.key.as_str(), count.as_str()));
        proof {
            assert(grid(rows@) =~= before.push(metric_grid(entries@)[i as int]));
            assert(metric_grid(entries@).take(i + 1) =~= metric_grid(entries@).take(
                i as int,
            ).push(metric_grid(entries@)[i as int]));
        }
        i = i + 1;
    }
    assert(metric_grid(entries@).take(i as int) =~= metric_grid(entries@));
    rows
}

/// What was counted, where there are metrics; a row that says that there are none where not.
pub open spec fn metric_page(entries: Option<Seq<GatewayMetricEntry>>) -> Seq<Seq<Seq<char>>> {
    match entries {
        Some(entries) => metric_grid(entries),
        None => seq![seq!["no data"@, "0"@]],
    }
}

/// What is shown where there are no metrics.
fn no_data() -> (r: Vec<Vec<String>>)
    ensures
        grid(r@) == metric_page(None),
{
    let mut rows: Vec<Vec<String>> = Vec::new();
    rows.push(row2("no data", "0"));
    assert(grid(rows@) =~= metric_page(None));
    rows
}

/// The messages that came in, by kind.
pub fn inbound_rows(metrics: &Option<GatewayMetrics>) -> (r: Vec<Vec<String>>)
    ensures
        grid(r@) == metric_page(
            match *metrics {
                Some(m) => Some(m.inbound_by_op@),
                None => None,
            },
        ),
{
    match metrics {
        Some(m) => metric_rows(&m.inbound_by_op),
        None => no_data(),
    }
}

/// The events, by name.
pub fn dispatch_rows(metrics: &Option<GatewayMetrics>) -> (r: Vec<Vec<String>>)
    ensures
        grid(r@) == metric_page(
            match *metrics {
                Some(m) => Some(m.dispatch_by_type@),
                None => None,
            },
        ),
{
    match metrics {
        Some(m) => metric_rows(&m.dispatch_by_type),
        None => no_data(),
    }
}

/// What was said in rooms, by room.
pub fn room_rows(metrics: &Option<GatewayMetrics>) -> (r: Vec<Vec<String>>)
    ensures
        grid(r@) == metric_page(
            match *metrics {
                Some(m) => Some(m.broadcasts_by_room@),
                None => None,
            },
        ),
{
    match metrics {
        Some(m) => metric_rows(&m.broadcasts_by_room),
        None => no_data(),
    }
}

/// Something that happened at the gateway: its kind in a column, and the detail with its time.
pub open spec fn recent_line(e: GatewayRecentEvent) -> Seq<Seq<char>> {
    seq![padded(e.kind@, 10), e.detail@ + "  @"@ + decimal(e.at_ms as nat)]
}

/// What happened at the gateway, as far as a search shows it.
pub open spec fn recent_found(events: Seq<GatewayRecentEvent>, search: Seq<char>) -> Seq<
    Seq<Seq<char>>,
>
    decreases events.len(),
{
    if events.len() == 0 {
        Seq::empty()
    } else {
        let earlier = recent_found(events.drop_last(), search);
        let event = events.last();
        if shown(search, seq![event.kind@, event.detail@]) {
            earlier.push(recent_line(event))
        } else {
            earlier
        }
    }
}

/// The first ten of a list.
pub open spec fn first_ten(list: Seq<Seq<Seq<char>>>) -> Seq<Seq<Seq<char>>> {
    if list.len() <= 10 {
        list
    } else {
        list.take(10)
    }
}

/// The first ten things that happened at the gateway and that a search shows; a line that says
/// that there are no metrics where there are none.
pub open spec fn recent_page(metrics: Option<GatewayMetrics>, search: Seq<char>) -> Seq<
    Seq<Seq<char>>,
> {
    match metrics {
        Some(m) => first_ten(recent_found(m.recent@, search)),
        None => seq![seq!["No live gateway metrics yet."@]],
    }
}

/// Adding to a list changes its first ten only while there are fewer.
proof fn lemma_first_ten(list: Seq<Seq<Seq<char>>>, more: Seq<Seq<char>>)
    ensures
        first_ten(list).len() == if list.len() <= 10 {
            list.len()
        } else {
            10
        },
        list.len() >= 10 ==> first_ten(list.push(more)) == first_ten(list),
        list.len() < 10 ==> first_ten(list.push(more)) == first_ten(list).push(more),
{
    if list.len() >= 10 {
        assert(list.push(more).take(10) =~= list.take(10));
        if list.len() == 10 {
            assert(list.take(10) =~= list);
        }
    }
}

/// What happened at the gateway and is shown.
pub fn recent_rows(metrics: &Option<GatewayMetrics>, search: &str) -> (r: Vec<Vec<String>>)
    ensures
        grid(r@) == recent_page(*metrics, search@),
{
    let mut rows: Vec<Vec<String>> = Vec::new();
    match metrics {
        Some(m) => {
            let events: &Vec<GatewayRecentEvent> = &m.recent;
            let mut i: usize = 0;
            assert(grid(rows@) =~= first_ten(recent_found(events@.take(0), search@)));
            while i < events.len()
                invariant
                    i <= events@.len(),
                    grid(rows@) == first_ten(recent_found(events@.take(i as int), search@)),
                decreases events@.len() - i,
            {
                let ghost upto = events@.take(i + 1);
                let ghost before = grid(rows@);
                let event: &GatewayRecentEvent = &events[i];
                let values: Vec<&str> = vec![event.kind.as_str(), event.detail.as_str()];
                proof {
                    assert(upto.drop_last() =~= events@.take(i as int));
                    assert(values@.map_values(|v: &str| v@) =~= seq![event.kind@, event.detail@]);
                    lemma_first_ten(
                        recent_found(events@.take(i as int), search@),
                        recent_line(*event),
                    );
                    assert(grid(rows@).len() == rows@.len());
                }
                if matches_search(search, &values) && rows.len() < 10 {
                    let kind: String = pad(event.kind.as_str(), 10);
                    let time: String = decimal_text(event.at_ms);
                    let mut detail: String = event.detail.clone();
                    detail.append("  @");
                    detail.append(time.as_str());
                    rows.push(row2(kind.as_str(), detail.as_str()));
                    assert(grid(rows@) =~= before.push(recent_line(*event)));
                }
                i = i + 1;
            }
            assert(events@.take(i as int) =~= events@);
        },
        None => {
            let row: Vec<String> = vec![owned("No live gateway metrics yet.")];
            assert(texts(row@) =~= seq!["No live gateway metrics yet."@]);
            rows.push(row);
            assert(grid(rows@) =~= recent_page(*metrics, search@));
        },
    }
    rows
}

/// The texts of a guild by which it is found.
pub open spec fn guild_keys(g: GuildRow) -> Seq<Seq<char>> {
    seq![g.id@, g.name@]
}

/// The row of a guild.
pub open spec fn guild_line(g: GuildRow) -> Seq<Seq<char>> {
    seq![
        g.id@,
        g.name@,
        signed_decimal(g.members as int),
        signed_decimal(g.channels as int),
        signed_decimal(g.messages as int),
    ]
}

/// The guilds that a search shows.
pub open spec fn guilds_found(guilds: Seq<GuildRow>, search: Seq<char>) -> Seq<Seq<Seq<char>>>
    decreases guilds.len(),
{
    if guilds.len() == 0 {
        Seq::empty()
    } else {
        let earlier = guilds_found(guilds.drop_last(), search);
        if shown(search, guild_keys(guilds.last())) {
            earlier.push(guild_line(guilds.last()))
        } else {
            earlier
        }
    }
}

/// The guilds that a search shows.
pub fn guild_table(guilds: &Vec<GuildRow>, search: &str) -> (r: Vec<Vec<String>>)
    ensures
        grid(r@) == guilds_found(guilds@, search@),
{
    let mut rows: Vec<Vec<String>> = Vec::new();
    let mut i: usize = 0;
    assert(grid(rows@) =~= guilds_found(guilds@.take(0), search@));
    while i < guilds.len()
        invariant
            i <= guilds@.len(),
            grid(rows@) == guilds_found(guilds@.take(i as int), search@),
        decreases guilds@.len() - i,
    {
        let ghost upto = guilds@.take(i + 1);
        let ghost before = grid(rows@);
        let guild: &GuildRow = &guilds[i];
        let values: Vec<&str> = vec![guild.id.as_str(), guild.name.as_str()];
        proof {
            assert(upto.drop_last() =~= guilds@.take(i as int));
            assert(values@.map_values(|v: &str| v@) =~= guild_keys(*guild));
        }
        if matches_search(search, &values) {
            let row: Vec<String> = vec![
                guild.id.clone(),
                guild.name.clone(),
                signed_decimal_text(guild.members),
                signed_decimal_text(guild.channels),
                signed_decimal_text(guild.messages),
            ];
            assert(texts(row@) =~= guild_line(*guild));
            rows.push(row);
            assert(grid(rows@) =~= before.push(guild_line(*guild)));
        }
        i = i + 1;
    }
    assert(guilds@.take(i as int) =~= guilds@);
    rows
}

/// The texts of a user by which it is found.
pub open spec fn user_keys(u: UserRow) -> Seq<Seq<char>> {
    seq![u.id@, u.username@, u.tag@, u.status@]
}

/// The row of a user.
pub open spec fn user_line(u: UserRow) -> Seq<Seq<char>> {
    seq![
        u.id@,
        u.username@,
        u.tag@,
        u.status@,
        signed_decimal(u.guilds as int),
        signed_decimal(u.messages as int),
    ]
}

/// The users that a search shows.
pub open spec fn users_found(users: Seq<UserRow>, search: Seq<char>) -> Seq<Seq<Seq<char>>>
    decreases users.len(),
{
    if users.len() == 0 {
        Seq::empty()
    } else {
        let earlier = users_found(users.drop_last(), search);
        if shown(search, user_keys(users.last())) {
            earlier.push(user_line(users.last()))
        } else {
            earlier
        }
    }
}

/// The users that a search shows.
pub fn user_table(users: &Vec<UserRow>, search: &str) -> (r: Vec<Vec<String>>)
    ensures
        grid(r@) == users_found(users@, search@),
{
    let mut rows: Vec<Vec<String>> = Vec::new();
    let mut i: usize = 0;
    assert(grid(rows@) =~= users_found(users@.take(0), search@));
    while i < users.len()
        invariant
            i <= users@.len(),
            grid(rows@) == users_found(users@.take(i as int), search@),
        decreases users@.len() - i,
    {
        let ghost upto = users@.take(i + 1);
        let ghost before = grid(rows@);
        let user: &UserRow = &users[i];
        let values: Vec<&str> = vec![
            user.id.as_str(),
            user.username.as_str(),
            user.tag.as_str(),
            user.status.as_str(),
        ];
        proof {
            assert(upto.drop_last() =~= users@.take(i as int));
            assert(values@.map_values(|v: &str| v@) =~= user_keys(*user));
        }
        if matches_search(search, &values) {
            let row: Vec<String> = vec![
                user.id.clone(),
                user.username.clone(),
                user.tag.clone(),
                user.status.clone(),
                signed_decimal_text(user.guilds),
                signed_decimal_text(user.messages),
            ];
            assert(texts(row@) =~= user_line(*user));
            rows.push(row);
            assert(grid(rows@) =~= before.push(user_line(*user)));
        }
        i = i + 1;
    }
    assert(users@.take(i as int) =~= users@);
    rows
}

/// The texts of an event by which it is found.
pub open spec fn event_keys(e: EventRow) -> Seq<Seq<char>> {
    seq![e.name@, e.source@, e.risk@]
}

/// The row of an event.
pub open spec fn event_line(e: EventRow) -> Seq<Seq<char>> {
    seq![e.name@, e.volume@, e.source@, e.risk@]
}

/// The events that a search shows.
pub open spec fn events_found(events: Seq<EventRow>, search: Seq<char>) -> Seq<Seq<Seq<char>>>
    decreases events.len(),
{
    if events.len() == 0 {
        Seq::empty()
    } else {
        let earlier = events_found(events.drop_last(), search);
        if shown(search, event_keys(events.last())) {
            earlier.push(event_line(events.last()))
        } else {
            earlier
        }
    }
}

/// The events that a search shows.
pub fn event_table(events: &Vec<EventRow>, search: &str) -> (r: Vec<Vec<String>>)
    ensures
        grid(r@) == events_found(events@, search@),
{
    let mut rows: Vec<Vec<String>> = Vec::new();
    let mut i: usize = 0;
    assert(grid(rows@) =~= events_found(events@.take(0), search@));
    while i < events.len()
        invariant
            i <= events@.len(),
            grid(rows@) == events_found(events@.take(i as int), search@),
        decreases events@.len() - i,
    {
        let ghost upto = events@.take(i + 1);
        let ghost before = grid(rows@);
        let event: &EventRow = &events[i];
        let values: Vec<&str> = vec![
            event.name.as_str(),
            event.source.as_str(),
            event.risk.as_str(),
        ];
        proof {
            assert(upto.drop_last() =~= events@.take(i as int));
            assert(values@.map_values(|v: &str| v@) =~= event_keys(*event));
        }
        if matches_search(search, &values) {
            let row: Vec<String> = vec![
                event.name.clone(),
                event.volume.clone(),
                event.source.clone(),
                event.risk.clone(),
            ];
            assert(texts(row@) =~= event_line(*event));
            rows.push(row);
            assert(grid(rows@) =~= before.push(event_line(*event)));
        }
        i = i + 1;
    }
    assert(events@.take(i as int) =~= events@);
    rows
}

/// The variables that a search shows, each with its value.
pub open spec fn env_found(env: Seq<(String, String)>, search: Seq<char>) -> Seq<Seq<Seq<char>>>
    decreases env.len(),
{
    if env.len() == 0 {
        Seq::empty()
    } else {
        let earlier = env_found(env.drop_last(), search);
        let entry = seq![env.last().0@, env.last().1@];
        if shown(search, entry) {
            earlier.push(entry)
        } else {
            earlier
        }
    }
}

/// The variables that a search shows, each with its value.
pub fn env_table(env: &Vec<(String, String)>, search: &str) -> (r: Vec<Vec<String>>)
    ensures
        grid(r@) == env_found(env@, search@),
{
    let mut rows: Vec<Vec<String>> = Vec::new();
    let mut i: usize = 0;
    assert(grid(rows@) =~= env_found(env@.take(0), search@));
    while i < env.len()
        invariant
            i <= env@.len(),
            grid(rows@) == env_found(env@.take(i as int), search@),
        decreases env@.len() - i,
    {
        let ghost upto = env@.take(i + 1);
        let ghost before = grid(rows@);
        let entry: &(String, String) = &env[i];
        let values: Vec<&str> = vec![entry.0.as_str(), entry.1.as_str()];
        let ghost line = seq![entry.0@, entry.1@];
        proof {
            assert(upto.drop_last() =~= env@.take(i as int));
            assert(values@.map_values(|v: &str| v@) =~= line);
        }
        if matches_search(search, &values) {
            rows.push(row2(entry.0.as_str(), entry.1.as_str()));
            assert(grid(rows@) =~= before.push(line));
        }
        i = i + 1;
    }
    assert(env@.take(i as int) =~= env@);
    rows
}

/// A blank search hides no guild.
pub proof fn lemma_blank_search_shows_all(guilds: Seq<GuildRow>, search: Seq<char>)
    requires
        trimmed(search).len() == 0,
    ensures
        guilds_found(guilds, search) == guilds.map_values(|g: GuildRow| guild_line(g)),
    decreases guilds.len(),
{
    if guilds.len() > 0 {
        lemma_blank_search_shows_all(guilds.drop_last(), search);
        assert(guilds.map_values(|g: GuildRow| guild_line(g)) =~= guilds.drop_last().map_values(
            |g: GuildRow| guild_line(g),
        ).push(guild_line(guilds.last())));
    } else {
        assert(guilds.map_values(|g: GuildRow| guild_line(g)) =~= Seq::empty());
    }
}

/// What is done on each page of the dashboard, in words.
pub fn action_lines() -> (r: Vec<&'static str>)
    ensures
        r@.map_values(|v: &str| v@) == seq![
            "r / :refresh       refresh all probes"@,
            "/text             filter current view"@,
            ":find text        set global search"@,
            ":guilds           jump to guild inspector"@,
            ":users            jump to user inspector"@,
            ":events           jump to event map"@,
            "Gateway metrics are read live from /admin/gateway-metrics"@,
        ],
{
    let lines: Vec<&'static str> = vec![
        "r / :refresh       refresh all probes",
        "/text             filter current view",
        ":find text        set global search",
        ":guilds           jump to guild inspector",
        ":users            jump to user inspector",
        ":events           jump to event map",
        "Gateway metrics are read live from /admin/gateway-metrics",
    ];
    assert(lines@.map_values(|v: &str| v@) =~= seq![
        "r / :refresh       refresh all probes"@,
        "/text             filter current view"@,
        ":find text        set global search"@,
        ":guilds           jump to guild inspector"@,
        ":users            jump to user inspector"@,
        ":events           jump to event map"@,
        "Gateway metrics are read live from /admin/gateway-metrics"@,
    ]);
    lines
}

} // verus!
