use vanilla_backend::tui::banner::banner;
use vanilla_backend::tui::dashboard::{App, InputMode, Key, KeyCode};
use vanilla_backend::tui::environment::{
    cuttable, env_keys, env_row, env_rows, mask_env, sensitive,
};
use vanilla_backend::tui::page::{header_labels, Page};
use vanilla_backend::tui::probe::{
    backend_status, collected, count_table, database_status, guild_rows_sql, http_body,
    http_body_of, not_collected, redis_status, targets, user_rows_sql, Answer, Contents, Targets,
};
use vanilla_backend::tui::snapshot::{
    default_events, Counts, GatewayMetricEntry, GatewayMetrics, GatewayRecentEvent, GuildRow,
    ServiceStatus, Snapshot, UserRow,
};
use vanilla_backend::tui::tables::{
    action_lines, any_contains, count_rows, dispatch_rows, env_table, event_table, guild_table,
    inbound_rows, matches_search, metric_rows, pad, pressure_rows, recent_rows, room_rows,
    service_lines, user_table,
};

fn s(t: &str) -> String {
    t.to_string()
}

fn grid(rows: &[&[&str]]) -> Vec<Vec<String>> {
    rows.iter().map(|row| row.iter().map(|c| c.to_string()).collect()).collect()
}

fn app() -> App {
    App::new(Snapshot::default())
}

fn press(app: &mut App, code: KeyCode) {
    app.handle_key(Key { code, control: false });
}

fn type_text(app: &mut App, text: &str) {
    for c in text.chars() {
        press(app, KeyCode::Char(c));
    }
}

fn command(text: &str) -> App {
    let mut app = app();
    press(&mut app, KeyCode::Char(':'));
    type_text(&mut app, text);
    press(&mut app, KeyCode::Enter);
    app
}

#[test]
fn pages_go_around() {
    let pages = Page::all();
    assert_eq!(pages.len(), 7);
    for (i, page) in pages.iter().enumerate() {
        assert_eq!(page.position(), i);
        assert_eq!(page.next(), pages[(i + 1) % 7]);
        assert_eq!(page.next().prev(), *page);
        assert_eq!(page.prev().next(), *page);
    }
    assert_eq!(Page::Actions.next(), Page::Overview);
    assert_eq!(Page::Overview.prev(), Page::Actions);
    let mut page = Page::Users;
    for _ in 0..7 {
        page = page.next();
    }
    assert_eq!(page, Page::Users);
    assert_eq!(
        header_labels(),
        [" 1 Overview", " 2 Gateway", " 3 Guilds", " 4 Users", " 5 Events", " 6 Env", " 7 Actions"]
    );
    assert_eq!(Page::Env.title(), "Env");
}

#[test]
fn keys_work_in_normal_mode() {
    let mut app = app();
    assert_eq!(app.status, "r refresh | / search | : command | tab switch | q quit");
    press(&mut app, KeyCode::Down);
    press(&mut app, KeyCode::Down);
    press(&mut app, KeyCode::Up);
    assert_eq!(app.selected, 1);
    press(&mut app, KeyCode::Tab);
    assert_eq!((app.view, app.selected), (Page::Gateway, 0));
    press(&mut app, KeyCode::Up);
    assert_eq!(app.selected, 0);
    press(&mut app, KeyCode::BackTab);
    press(&mut app, KeyCode::Left);
    assert_eq!(app.view, Page::Actions);
    press(&mut app, KeyCode::Right);
    assert_eq!(app.view, Page::Overview);
    for (c, page) in [
        ('1', Page::Overview),
        ('2', Page::Gateway),
        ('3', Page::Guilds),
        ('4', Page::Users),
        ('5', Page::Events),
        ('6', Page::Env),
        ('7', Page::Actions),
    ] {
        press(&mut app, KeyCode::Char(c));
        assert_eq!(app.view, page);
    }
    app.selected = usize::MAX;
    press(&mut app, KeyCode::Down);
    assert_eq!(app.selected, usize::MAX);
    assert!(!app.wants_refresh());
    press(&mut app, KeyCode::Char('r'));
    assert!(app.wants_refresh());
    press(&mut app, KeyCode::Char('x'));
    press(&mut app, KeyCode::Other);
    assert!(!app.should_quit);
    press(&mut app, KeyCode::Char('q'));
    assert!(app.should_quit);
    press(&mut app, KeyCode::Esc);
    assert!(app.should_quit);
}

#[test]
fn control_c_leaves_from_anywhere() {
    let mut app = app();
    press(&mut app, KeyCode::Char('/'));
    app.handle_key(Key { code: KeyCode::Char('c'), control: true });
    assert!(app.should_quit);
    assert_eq!(app.search, "");
}

#[test]
fn search_is_typed() {
    let mut app = app();
    press(&mut app, KeyCode::Char('/'));
    assert_eq!(app.mode, InputMode::Search);
    type_text(&mut app, "qé");
    assert_eq!(app.search, "qé");
    assert!(!app.should_quit);
    press(&mut app, KeyCode::Backspace);
    assert_eq!(app.search, "q");
    press(&mut app, KeyCode::Backspace);
    press(&mut app, KeyCode::Backspace);
    assert_eq!(app.search, "");
    press(&mut app, KeyCode::Tab);
    assert_eq!(app.view, Page::Overview);
    press(&mut app, KeyCode::Enter);
    assert_eq!(app.mode, InputMode::Normal);
}

#[test]
fn commands_are_carried_out() {
    for word in ["q", "quit", " exit "] {
        assert!(command(word).should_quit, "{}", word);
    }
    for word in ["r", "refresh"] {
        assert!(command(word).wants_refresh());
    }
    for (word, page) in [
        ("overview", Page::Overview),
        ("o", Page::Overview),
        ("gateway", Page::Gateway),
        ("gw", Page::Gateway),
        ("guilds", Page::Guilds),
        ("g", Page::Guilds),
        ("users", Page::Users),
        ("u", Page::Users),
        ("events", Page::Events),
        ("e", Page::Events),
        ("env", Page::Env),
        ("actions", Page::Actions),
        ("a", Page::Actions),
    ] {
        let app = command(word);
        assert_eq!(app.view, page, "{}", word);
        assert_eq!(app.command, "");
        assert_eq!(app.mode, InputMode::Normal);
    }
    let app = command("find   bob ");
    assert_eq!(app.search, "bob");
    assert_eq!(app.status, "searching for 'bob'");
    assert_eq!(command("find").status, "unknown command: find");
    assert_eq!(command(" Quit ").status, "unknown command: Quit");
    assert_eq!(command("  ").status, "r refresh | / search | : command | tab switch | q quit");
    let mut app = command("");
    press(&mut app, KeyCode::Char(':'));
    type_text(&mut app, "qu");
    press(&mut app, KeyCode::Backspace);
    assert_eq!(app.command, "q");
    press(&mut app, KeyCode::Esc);
    assert_eq!((app.command.as_str(), app.mode), ("", InputMode::Normal));
}

#[test]
fn looks_at_the_service_are_taken_in() {
    let mut app = app();
    assert!(!App::refresh_is_due(4));
    assert!(App::refresh_is_due(5));
    app.refreshed(Ok(not_collected(s("x"), vec![])), false);
    assert_eq!(app.status, "auto-refreshed");
    assert_eq!(app.snapshot.last_error, Some(s("x")));
    app.refreshed(Err(s("down")), true);
    assert_eq!(app.status, "refresh failed: down");
    assert_eq!(app.snapshot.last_error, Some(s("x")));
    app.refreshed(Ok(Snapshot::default()), true);
    assert_eq!(app.status, "refreshed");
    assert_eq!(app.snapshot.last_error, None);
}

#[test]
fn foot_shows_what_is_typed() {
    let mut app = app();
    app.status = s("st");
    app.search = s("se");
    app.command = s("co");
    assert_eq!(app.footer_text(12), "st | search='se' | updated 12s ago");
    app.mode = InputMode::Search;
    assert_eq!(app.footer_text(12), "/se");
    app.mode = InputMode::Command;
    assert_eq!(app.footer_text(12), ":co");
}

#[test]
fn columns_are_padded() {
    assert_eq!(pad("ab", 4), "ab  ");
    assert_eq!(pad("äb", 4), "äb  ");
    assert_eq!(pad("abcde", 4), "abcde");
    let line = &service_lines(&vec![redis_status("r", Answer::Given(s("PONG")))])[0];
    assert_eq!(line.name, "Redis     ");
    assert_eq!(line.state, "ok      ");
    assert_eq!(line.detail, "PONG");
    assert!(line.ok);
}

#[test]
fn search_takes_no_notice_of_case() {
    assert!(matches_search("  ", &vec![]));
    assert!(matches_search("BoB", &vec!["x", "my bobby"]));
    assert!(matches_search("straße", &vec!["STRAßE"]));
    for (search, value) in [("AZ", "xazx"), ("az", "XAZX"), ("aZ@[", "Az@[")] {
        assert!(matches_search(search, &vec![value]));
    }
    assert!(!matches_search("@", &vec!["`"]));
    assert!(!matches_search("bob", &vec!["x"]));
    assert!(!matches_search("bob ", &vec!["bob"]));
    assert!(any_contains(&vec![s("a"), s("bc")], "c"));
    assert!(!any_contains(&vec![s("a"), s("bc")], "C"));
}

#[test]
fn sizes_are_listed() {
    let counts =
        Counts { users: 1, guilds: 2, channels: 3, guild_members: 4, messages: 5, invites: -6 };
    assert_eq!(
        count_rows(&counts),
        grid(&[
            &["Users", "1"],
            &["Guilds", "2"],
            &["Channels", "3"],
            &["Members", "4"],
            &["Messages", "5"],
            &["Invites", "-6"],
        ])
    );
}

fn metrics(recent: Vec<GatewayRecentEvent>) -> Option<GatewayMetrics> {
    Some(GatewayMetrics {
        connected_sockets: 1,
        identified_users: 2,
        subscribed_rooms: 3,
        total_inbound: 4,
        total_dispatches: 5,
        total_broadcasts: 6,
        inbound_by_op: vec![GatewayMetricEntry { key: s("1"), count: 9 }],
        dispatch_by_type: vec![],
        broadcasts_by_room: vec![
            GatewayMetricEntry { key: s("g1"), count: 7 },
            GatewayMetricEntry { key: s("g2"), count: 8 },
        ],
        recent,
    })
}

#[test]
fn pressure_of_the_gateway_is_shown() {
    let live = metrics(vec![]);
    assert_eq!(
        pressure_rows(&live, 4),
        grid(&[
            &["Connected sockets", "1", "live"],
            &["Identified users", "2", "live"],
            &["Subscribed rooms", "3", "live"],
            &["Inbound / Dispatch / Broadcast", "4 / 5 / 6", "since boot"],
        ])
    );
    assert_eq!(
        pressure_rows(&None, 4),
        grid(&[
            &["Connected sockets", "backend metrics unavailable", "start backend"],
            &["Identified users", "backend metrics unavailable", "start backend"],
            &["Rooms", "guild count from DB", "4"],
            &["Likely noisy events", "typing/presence/message", "watch"],
        ])
    );
    assert_eq!(inbound_rows(&live), grid(&[&["1", "9"]]));
    assert_eq!(dispatch_rows(&live), grid(&[&["none", "0"]]));
    assert_eq!(room_rows(&live), grid(&[&["g1", "7"], &["g2", "8"]]));
    assert_eq!(inbound_rows(&None), grid(&[&["no data", "0"]]));
    assert_eq!(dispatch_rows(&None), grid(&[&["no data", "0"]]));
    assert_eq!(room_rows(&None), grid(&[&["no data", "0"]]));
    assert_eq!(metric_rows(&vec![]), grid(&[&["none", "0"]]));
}

#[test]
fn ten_recent_events_are_shown() {
    let event = |n: u128, kind: &str| GatewayRecentEvent { at_ms: n, kind: s(kind), detail: s("d") };
    let mut recent: Vec<GatewayRecentEvent> = (0..12).map(|n| event(n, "in")).collect();
    recent.insert(0, event(99, "OUT"));
    let live = metrics(recent);
    let rows = recent_rows(&live, "");
    assert_eq!(rows.len(), 10);
    assert_eq!(rows[0], [s("OUT       "), s("d  @99")]);
    assert_eq!(rows[9], [s("in        "), s("d  @8")]);
    assert_eq!(recent_rows(&live, "out"), grid(&[&["OUT       ", "d  @99"]]));
    assert_eq!(recent_rows(&live, "in").len(), 10);
    assert_eq!(recent_rows(&None, "x"), grid(&[&["No live gateway metrics yet."]]));
}

#[test]
fn tables_show_what_the_search_keeps() {
    let guild = |id: &str, name: &str| GuildRow { id: s(id), name: s(name), members: 1, channels: 2, messages: 3 };
    let guilds = vec![guild("1", "Alpha"), guild("2", "Beta")];
    assert_eq!(guild_table(&guilds, "BET"), grid(&[&["2", "Beta", "1", "2", "3"]]));
    assert_eq!(guild_table(&guilds, " ").len(), 2);
    let user = |id: &str, status: &str| UserRow {
        id: s(id),
        username: s("n"),
        tag: s("t"),
        status: s(status),
        guilds: 4,
        messages: 5,
    };
    let users = vec![user("1", "ONLINE"), user("2", "IDLE")];
    assert_eq!(user_table(&users, "idle"), grid(&[&["2", "n", "t", "IDLE", "4", "5"]]));
    let events = default_events();
    assert_eq!(event_table(&events, "").len(), 6);
    assert_eq!(
        event_table(&events, "typing_start"),
        grid(&[&[
            "TYPING_START",
            "burst",
            "channels::typing_start",
            "needs debounce/rate limit per user/channel",
        ]])
    );
    assert_eq!(event_table(&events, "burst"), grid(&[]));
    let env = vec![(s("PORT"), s("3000")), (s("VERBOSE"), s("1"))];
    assert_eq!(env_table(&env, "300"), grid(&[&["PORT", "3000"]]));
    assert_eq!(action_lines().len(), 7);
}

#[test]
fn services_are_judged_by_their_answers() {
    let status = |name: &'static str, state: &str, detail: &str| ServiceStatus {
        name,
        state: s(state),
        detail: s(detail),
        ok: state == "ok",
    };
    assert_eq!(
        backend_status(80, Answer::Given(())),
        status("Backend", "ok", "http://localhost:80")
    );
    assert_eq!(backend_status(80, Answer::Failed(s("e"))), status("Backend", "down", "e"));
    assert_eq!(backend_status(80, Answer::TimedOut), status("Backend", "timeout", "127.0.0.1:80"));
    assert_eq!(redis_status("u", Answer::Given(s("PONG"))), status("Redis", "ok", "PONG"));
    assert_eq!(redis_status("u", Answer::Failed(s("e"))), status("Redis", "error", "e"));
    assert_eq!(redis_status("u", Answer::TimedOut), status("Redis", "timeout", "u"));
    let contents = || Contents {
        counts: Counts { users: 1, ..Counts::default() },
        guilds: vec![],
        users: vec![],
    };
    assert_eq!(
        database_status(Answer::Given(contents())),
        (status("Postgres", "ok", "connected"), contents())
    );
    let (found, empty) = database_status(Answer::Failed(s("e")));
    assert_eq!(found, status("Postgres", "error", "e"));
    assert_eq!(empty.counts, Counts::default());
    let (found, _) = database_status(Answer::TimedOut);
    assert_eq!(found, status("Postgres", "timeout", "DATABASE_URL"));
    let snapshot = collected(
        backend_status(80, Answer::TimedOut),
        database_status(Answer::Given(contents())),
        redis_status("u", Answer::TimedOut),
        None,
        vec![(s("PORT"), s("80"))],
    );
    let names: Vec<&str> = snapshot.services.iter().map(|x| x.name).collect();
    assert_eq!(names, ["Backend", "Postgres", "Redis"]);
    assert_eq!(snapshot.counts.users, 1);
    assert_eq!(snapshot.events.len(), 6);
    assert_eq!(snapshot.env.len(), 1);
}

#[test]
fn services_are_found_by_variables() {
    assert_eq!(targets(None, None, None), Err(s("DATABASE_URL is not set")));
    assert_eq!(
        targets(Some(s("d")), None, Some(s("x"))),
        Ok(Targets { database_url: s("d"), redis_url: s("redis://127.0.0.1:6379"), port: 3000 })
    );
    assert_eq!(
        targets(Some(s("d")), Some(s("r")), Some(s("81"))),
        Ok(Targets { database_url: s("d"), redis_url: s("r"), port: 81 })
    );
    assert_eq!(http_body("HTTP/1.1 200 OK\r\n\r\n{}\r\n\r\n"), Ok(s("{}\r\n\r\n")));
    assert_eq!(
        http_body("HTTP/1.1 200 OK"),
        Err(s("gateway metrics response did not contain a body"))
    );
    assert_eq!(http_body_of(b"HTTP/1.1\r\n\r\n{}\r\n\r\n".to_vec()), Some(s("{}\r\n\r\n")));
    assert_eq!(http_body_of("ä\r\n\r\nö".as_bytes().to_vec()), Some(s("ö")));
    assert_eq!(http_body_of(b"HTTP/1.1 200 OK\r\n".to_vec()), None);
    assert_eq!(http_body_of(b"\xff\r\n\r\n{}".to_vec()), None);
    assert_eq!(count_table("users"), "SELECT COUNT(*)::BIGINT FROM users");
    assert!(guild_rows_sql().starts_with("SELECT g.id, g.name,"));
    assert!(user_rows_sql().ends_with("LIMIT 100"));
}

#[test]
fn secrets_are_masked() {
    assert_eq!(mask_env("PORT", "3000"), "3000");
    assert_eq!(mask_env("TOKEN_SECRET", "12345678"), "***");
    assert_eq!(mask_env("TOKEN_SECRET", ""), "***");
    assert_eq!(mask_env("TOKEN_SECRET", "123456789"), "1234...6789");
    assert_eq!(mask_env("MY_DATABASE_URL_2", "äbcdefghij"), "äbc...ghij");
    assert_eq!(
        mask_env("PASSWORD", "abcdXXXXwxyz"),
        mask_env("PASSWORD", "abcdYYYYYYwxyz")
    );
    assert!(sensitive("A_SECRET"));
    assert!(!sensitive("secret"));
    assert!(cuttable("äbcdefghij"));
    assert!(!cuttable("abcäefghij"));
    assert_eq!(env_row("TOKEN_SECRET", Some(s("abcäefghij"))), None);
    assert_eq!(env_row("PORT", Some(s("abcäefghij"))), Some((s("PORT"), s("abcäefghij"))));
    assert_eq!(env_row("PORT", None), Some((s("PORT"), s("<unset>"))));
    assert_eq!(env_row("TOKEN_SECRET", None), Some((s("TOKEN_SECRET"), s("***"))));
    assert_eq!(env_keys().len(), 10);
}

#[test]
fn variables_are_shown_in_order() {
    let mut values: Vec<Option<String>> = vec![None; 10];
    values[0] = Some(s("postgres://host"));
    values[2] = Some(s("3000"));
    let rows = env_rows(values).unwrap();
    let keys: Vec<&str> = rows.iter().map(|row| row.0.as_str()).collect();
    assert_eq!(keys, env_keys());
    assert_eq!(rows[0].1, "post...host");
    assert_eq!(rows[1].1, "<unset>");
    assert_eq!(rows[2].1, "3000");
    assert_eq!(rows[5].1, "***");

    let mut values: Vec<Option<String>> = vec![None; 10];
    values[5] = Some(s("abcäefghij"));
    assert_eq!(env_rows(values), None);
    let mut values: Vec<Option<String>> = vec![None; 10];
    values[1] = Some(s("abcäefghij"));
    assert_eq!(env_rows(values).unwrap()[1].1, "abcäefghij");
}

#[test]
fn banner_names_the_port() {
    let text = banner(80);
    assert!(text.contains("|   HTTP: http://localhost:80                                 |\n"));
    assert!(banner(65535).contains("|   HTTP: http://localhost:65535                              |\n"));
    assert!(text.starts_with("\n+---"));
    assert!(text.ends_with("---+\n"));
}
