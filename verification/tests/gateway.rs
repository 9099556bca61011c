use vanilla_backend::auth::token::{generate_token, token_from_random};
use vanilla_backend::gateway::audience::{add_others, hears, open_places};
use vanilla_backend::gateway::cookie::{extract_token_from_cookie, find_cookie, is_production};
use vanilla_backend::gateway::events::identify::{
    self, Identify, IdentifyAction, IdentifyError, IdentifyReply, IdentifyResult,
};
use vanilla_backend::gateway::events::presence::{
    self, status_wanted, PresenceAction, PresenceChange, PresenceReply,
};
use vanilla_backend::gateway::events::ready::{ready, rooms, Caller, Person};
use vanilla_backend::gateway::payload::{presence_update, Payload};
use vanilla_backend::gateway::session::{
    advance, begin_from_cookie, open, Effect, Session, SessionEvent,
};
use vanilla_backend::json::{Fields, Json};
use vanilla_backend::models::AccountSettings;
use vanilla_backend::orm::accounts::Accounts;
use vanilla_backend::orm::channels::Channels;
use vanilla_backend::orm::guild_members::GuildMembers;
use vanilla_backend::orm::guilds::Guilds;
use vanilla_backend::orm::users::Users;
use vanilla_backend::orm::value::{SqlValue, Statement, Timestamp};

fn s(t: &str) -> String {
    t.to_string()
}

fn strings(parts: &[&str]) -> Vec<String> {
    parts.iter().map(|p| p.to_string()).collect()
}

fn user(id: &str, status: &str, flags: i32) -> Users {
    Users {
        id: s(id),
        username: format!("name-{}", id),
        tag: s("0001"),
        created_at: Timestamp { micros: 5_000_000 },
        bot: false,
        status: s(status),
        flags,
        bio: None,
        avatar: Some(s("a.png")),
        banner: None,
    }
}

fn account(id: &str) -> Accounts {
    Accounts {
        id: s(id),
        email: s("e@x"),
        password: s("p"),
        user_id: s(id),
        email_verified: true,
        locale: s("en"),
        token: s("tok"),
    }
}

fn settings() -> AccountSettings {
    AccountSettings {
        theme: s("dark"),
        compact_mode: Some(true),
        compact_show_avatars: None,
        pending_deletion: None,
        delete_at: None,
    }
}

fn member(id: i32, guild: &str, user: &str) -> GuildMembers {
    GuildMembers {
        id,
        guild_id: s(guild),
        user_id: s(user),
        nickname: None,
        joined_at: Timestamp { micros: 7_000 },
    }
}

fn guild(id: &str) -> Guilds {
    Guilds {
        id: s(id),
        name: format!("guild-{}", id),
        brief: s("b"),
        icon: None,
        created_at: Timestamp { micros: 9_000 },
        owner_id: s("me"),
    }
}

fn channel(id: &str, guild: &str) -> Channels {
    Channels {
        id: s(id),
        name: s("general"),
        guild_id: s(guild),
        created_at: Timestamp { micros: 1_000 },
        rate_limit_per_user: 3,
    }
}

fn to_serde(json: &Json) -> serde_json::Value {
    match json {
        Json::Null => serde_json::Value::Null,
        Json::Bool(b) => serde_json::Value::Bool(*b),
        Json::Unsigned(n) => serde_json::Value::from(*n),
        Json::Negative(n) => serde_json::Value::from(*n),
        Json::Real(text) => serde_json::from_str(text).unwrap(),
        Json::Text(text) => serde_json::Value::from(text.as_str()),
        Json::Array(values) => serde_json::Value::Array(values.iter().map(to_serde).collect()),
        Json::Object(fields) => serde_json::Value::Object(
            fields.iter().map(|(k, v)| (k.clone(), to_serde(v))).collect(),
        ),
    }
}

fn parsed(text: &str) -> serde_json::Value {
    serde_json::from_str(text).unwrap()
}

fn written(payload: Payload) -> serde_json::Value {
    to_serde(&payload.into_json())
}

fn one(table: &str, column: &str, value: &str) -> Statement {
    Statement {
        sql: format!("SELECT * FROM {} WHERE {} = $1 LIMIT 1", table, column),
        params: vec![SqlValue::Text(s(value))],
    }
}

fn all(table: &str, column: &str, value: &str) -> Statement {
    Statement {
        sql: format!("SELECT * FROM {} WHERE {} = $1", table, column),
        params: vec![SqlValue::Text(s(value))],
    }
}

#[test]
fn payloads_leave_out_what_they_lack() {
    assert_eq!(written(Payload::new(11)), parsed("{\"op\":11}"));
    assert_eq!(written(Payload::with_data(9, Json::Bool(false))), parsed("{\"op\":9,\"d\":false}"));
    assert_eq!(
        written(Payload::dispatch("X", Json::Null)),
        parsed("{\"op\":0,\"d\":null,\"t\":\"X\"}")
    );
    let numbered = Payload { op: -1, d: None, s: Some(4), t: None };
    assert_eq!(written(numbered), parsed("{\"op\":-1,\"s\":4}"));
    assert_eq!(
        written(presence_update("u", "ONLINE")),
        parsed("{\"op\":0,\"d\":{\"userId\":\"u\",\"status\":\"ONLINE\"},\"t\":\"PRESENCE_UPDATE\"}")
    );
}

#[test]
fn copies_of_payloads_are_equal() {
    let d = Json::Array(vec![
        Json::Null,
        Json::Unsigned(1),
        Json::Negative(-1),
        Json::Real(s("1.5")),
        Json::Object(vec![(s("a"), Json::Bool(true)), (s("b"), Json::Text(s("x")))]),
    ]);
    assert_eq!(d.clone(), d);
    let payload = Payload { op: 3, d: Some(d), s: Some(-4), t: Some(s("EVENT")) };
    assert_eq!(payload.clone(), payload);
    assert_eq!(Payload::new(11).clone(), Payload::new(11));
}

#[test]
fn memberships_are_asked_by_user() {
    assert_eq!(identify::memberships_of(s("me")), all("guildmembers", "user_id", "me"));
}

#[test]
fn token_is_read_from_the_cookie() {
    assert_eq!(extract_token_from_cookie(Some("a=b; token=xyz ; c=d"), false), Some(s("xyz")));
    assert_eq!(extract_token_from_cookie(Some("token=a%20b"), false), Some(s("a b")));
    assert_eq!(extract_token_from_cookie(Some("token=a+b=="), false), Some(s("a+b==")));
    assert_eq!(extract_token_from_cookie(Some("token=%ff"), false), None);
    assert_eq!(extract_token_from_cookie(Some("token=%e4"), false), None);
    assert_eq!(extract_token_from_cookie(Some("token=%C3%a4"), false), Some(s("ä")));
    assert_eq!(extract_token_from_cookie(Some("token=%4"), false), Some(s("%4")));
    assert_eq!(extract_token_from_cookie(Some("token=%"), false), Some(s("%")));
    assert_eq!(extract_token_from_cookie(Some("token=%%"), false), Some(s("%%")));
    assert_eq!(extract_token_from_cookie(Some("token=%zz%41"), false), Some(s("%zzA")));
    assert_eq!(extract_token_from_cookie(Some("token=%4z%41"), false), Some(s("%4zA")));
    assert_eq!(extract_token_from_cookie(Some("token=%%41%4"), false), Some(s("%A%4")));
    assert_eq!(extract_token_from_cookie(Some("token=%2541"), false), Some(s("%41")));
    assert_eq!(extract_token_from_cookie(Some("token=%4%41"), false), Some(s("%4A")));
    assert_eq!(extract_token_from_cookie(Some("token=ä%41ö"), false), Some(s("äAö")));
    assert_eq!(extract_token_from_cookie(Some(" token = v ;token=w"), false), Some(s("v")));
    assert_eq!(extract_token_from_cookie(Some("tokens=v; =x; token"), false), None);
    assert_eq!(extract_token_from_cookie(Some(""), false), None);
    assert_eq!(extract_token_from_cookie(None, false), None);
    assert_eq!(extract_token_from_cookie(Some("token=v"), true), None);
    assert_eq!(extract_token_from_cookie(Some("token=v;__Host-Token=w"), true), Some(s("w")));
    assert_eq!(find_cookie("token=%ff", "token"), Some(s("%ff")));
    assert!(is_production("production"));
    assert!(!is_production(""));
}

#[test]
fn others_are_listed_once() {
    let list = add_others(strings(&["a"]), strings(&["b", "me", "a", "b", "c"]), "me");
    assert_eq!(list, strings(&["a", "b", "c"]));
    assert!(hears(&strings(&["g1", "g2"]), "g2"));
    assert!(!hears(&strings(&["g1", "g2"]), "g3"));
    assert!(!hears(&Vec::new(), "g3"));
    assert_eq!(open_places(&vec![true, false, true, false]), vec![1, 3]);
    assert_eq!(open_places(&vec![true, true]), Vec::<usize>::new());
}

#[test]
fn identification_begins_with_a_valid_token() {
    let (state, action) = identify::begin(None, "secret");
    assert_eq!(state, Identify::Over);
    assert_eq!(action, IdentifyAction::Fail(IdentifyError::NoToken));
    let (state, action) = identify::begin(Some(s("nonsense")), "secret");
    assert_eq!(state, Identify::Over);
    assert_eq!(action, IdentifyAction::Fail(IdentifyError::InvalidToken));
    let token = generate_token("me", 1, "secret");
    let (state, action) = identify::begin(Some(token.clone()), "secret");
    assert_eq!(state, Identify::Account);
    assert_eq!(action, IdentifyAction::FetchAccount(one("accounts", "token", &token)));
    let header = format!("token={}", token);
    let (state, action) = begin_from_cookie(Some(&header), false, "secret");
    assert_eq!(state, Identify::Account);
    assert_eq!(action, IdentifyAction::FetchAccount(one("accounts", "token", &token)));
    let (_, action) = begin_from_cookie(Some(&header), true, "secret");
    assert_eq!(action, IdentifyAction::Fail(IdentifyError::NoToken));
    let (_, action) = begin_from_cookie(Some(&header), false, "other");
    assert_eq!(action, IdentifyAction::Fail(IdentifyError::InvalidToken));
}

#[test]
fn missing_rows_and_failures_end_the_identification() {
    let failed = |state: Identify, reply: IdentifyReply, error: IdentifyError| {
        let (state, action) = identify::step(state, reply);
        assert_eq!(state, Identify::Over);
        assert_eq!(action, IdentifyAction::Fail(error));
    };
    failed(Identify::Account, IdentifyReply::Account(None), IdentifyError::AccountNotFound);
    failed(
        Identify::User { account: account("me") },
        IdentifyReply::User(None),
        IdentifyError::UserNotFound,
    );
    failed(
        Identify::Settings { account: account("me"), user: user("me", "ONLINE", 0) },
        IdentifyReply::Settings(None),
        IdentifyError::SettingsNotFound,
    );
    failed(
        Identify::Account,
        IdentifyReply::Failed(s("db down")),
        IdentifyError::Database(s("db down")),
    );
    assert_eq!(IdentifyError::NoToken.message(), "No token provided");
    assert_eq!(IdentifyError::InvalidToken.message(), "Invalid token");
    assert_eq!(IdentifyError::AccountNotFound.message(), "Account not found");
    assert_eq!(IdentifyError::UserNotFound.message(), "User not found");
    assert_eq!(IdentifyError::SettingsNotFound.message(), "Account settings not found");
    assert_eq!(IdentifyError::Database(s("x")).message(), "x");
}

fn take(state: Identify, reply: IdentifyReply, expected: IdentifyAction) -> Identify {
    let (state, action) = identify::step(state, reply);
    assert_eq!(action, expected);
    state
}

#[test]
fn client_is_told_of_its_guilds() {
    let state = take(
        Identify::Account,
        IdentifyReply::Account(Some(account("me"))),
        IdentifyAction::FetchUser(one("users", "id", "me")),
    );
    let state = take(
        state,
        IdentifyReply::User(Some(user("me", "ONLINE", 1))),
        IdentifyAction::FetchSettings { account_id: s("me") },
    );
    let state = take(
        state,
        IdentifyReply::Settings(Some(settings())),
        IdentifyAction::FetchMemberships(all("guildmembers", "user_id", "me")),
    );
    let state = take(
        state,
        IdentifyReply::Memberships(vec![member(1, "g1", "me"), member(2, "g2", "me")]),
        IdentifyAction::FetchGuild(one("guilds", "id", "g1")),
    );
    let state = take(
        state,
        IdentifyReply::Guild(Some(guild("g1"))),
        IdentifyAction::FetchChannels(all("channels", "guild_id", "g1")),
    );
    let state = take(
        state,
        IdentifyReply::Channels(vec![channel("c1", "g1")]),
        IdentifyAction::FetchMembers(all("guildmembers", "guild_id", "g1")),
    );
    let state = take(
        state,
        IdentifyReply::Members(vec![member(1, "g1", "me"), member(3, "g1", "you"), member(4, "g1", "gone")]),
        IdentifyAction::FetchPerson(one("users", "id", "me")),
    );
    let state = take(
        state,
        IdentifyReply::Person(Some(Person { user: user("me", "ONLINE", 1), connected: false })),
        IdentifyAction::FetchPerson(one("users", "id", "you")),
    );
    let state = take(
        state,
        IdentifyReply::Person(Some(Person { user: user("you", "IDLE", 0), connected: true })),
        IdentifyAction::FetchPerson(one("users", "id", "gone")),
    );
    let state = take(
        state,
        IdentifyReply::Person(None),
        IdentifyAction::FetchGuild(one("guilds", "id", "g2")),
    );
    let (state, action) = identify::step(state, IdentifyReply::Guild(None));
    let payload = match action {
        IdentifyAction::Send(payload) => payload,
        other => panic!("{:?}", other),
    };
    let me = "{\"id\":\"me\",\"username\":\"name-me\",\"tag\":\"0001\",\"createdAt\":5000,\"bot\":false,\
              \"status\":\"ONLINE\",\"flags\":1,\"bio\":null,\"avatar\":\"a.png\",\"banner\":null}";
    let you = "{\"id\":\"you\",\"username\":\"name-you\",\"tag\":\"0001\",\"createdAt\":5000,\"bot\":false,\
               \"status\":\"IDLE\",\"flags\":0,\"bio\":null,\"avatar\":\"a.png\",\"banner\":null}";
    let expected = format!(
        "{{\"op\":0,\"t\":\"READY\",\"d\":{{\
         \"account\":{{\"id\":\"me\",\"emailVerified\":true,\"locale\":\"en\",\"email\":\"e@x\"}},\
         \"settings\":{{\"theme\":\"dark\",\"compactMode\":true,\"compactShowAvatars\":null}},\
         \"appSettings\":{{\"inviteCodes\":[]}},\
         \"user\":{me},\
         \"guilds\":[{{\"id\":\"g1\",\"name\":\"guild-g1\",\"brief\":\"b\",\"icon\":null,\"ownerId\":\"me\",\
         \"createdAt\":9,\"channels\":[{{\"id\":\"c1\",\"name\":\"general\",\"guildId\":\"g1\",\
         \"createdAt\":1,\"rateLimitPerUser\":3}}],\
         \"members\":[{{\"id\":1,\"guildId\":\"g1\",\"userId\":\"me\",\"nickname\":null,\"joinedAt\":7}},\
         {{\"id\":3,\"guildId\":\"g1\",\"userId\":\"you\",\"nickname\":null,\"joinedAt\":7}}]}}],\
         \"presences\":[{{\"id\":\"you\",\"status\":\"IDLE\"}},{{\"id\":\"me\",\"status\":\"ONLINE\"}}],\
         \"users\":{{\"me\":{me},\"you\":{you}}}}}}}"
    );
    assert_eq!(written(payload), parsed(&expected));
    let state = take(
        state,
        IdentifyReply::Sent,
        IdentifyAction::FetchMembers(all("guildmembers", "guild_id", "g1")),
    );
    let state = take(
        state,
        IdentifyReply::Members(vec![member(1, "g1", "me"), member(3, "g1", "you")]),
        IdentifyAction::FetchMembers(all("guildmembers", "guild_id", "g2")),
    );
    let (state, action) = identify::step(
        state,
        IdentifyReply::Members(vec![member(5, "g2", "you"), member(6, "g2", "them")]),
    );
    assert_eq!(state, Identify::Over);
    match action {
        IdentifyAction::Finish { result, notice: Some(notice) } => {
            assert_eq!(
                result,
                IdentifyResult { user_id: s("me"), rooms: strings(&["g1", "g2", "admins"]) }
            );
            assert_eq!(notice.recipients, strings(&["you", "them"]));
            assert_eq!(notice.payload, presence_update("me", "ONLINE"));
        },
        other => panic!("{:?}", other),
    }
}

#[test]
fn unavailable_client_is_not_announced() {
    let caller = Caller {
        account: account("me"),
        user: user("me", "UNAVAILABLE", 2),
        settings: settings(),
        memberships: vec![member(1, "g1", "me")],
    };
    assert_eq!(rooms(&caller), strings(&["g1"]));
    let (state, action) = identify::step(Identify::Ready { caller }, IdentifyReply::Sent);
    assert_eq!(state, Identify::Over);
    let result = IdentifyResult { user_id: s("me"), rooms: strings(&["g1"]) };
    assert_eq!(action, IdentifyAction::Finish { result, notice: None });
}

#[test]
fn own_presence_is_told_once() {
    let caller = Caller {
        account: account("me"),
        user: user("me", "ONLINE", 0),
        settings: settings(),
        memberships: vec![],
    };
    let told = written(ready(&caller, &vec![]));
    assert_eq!(told["d"]["presences"], parsed("[{\"id\":\"me\",\"status\":\"ONLINE\"}]"));
    assert_eq!(told["d"]["guilds"], parsed("[]"));
}

#[test]
fn wanted_status_defaults_to_online() {
    let data = |status: Json| Some(Fields::new().with("status", status).object());
    assert_eq!(status_wanted(&None), "ONLINE");
    assert_eq!(status_wanted(&data(Json::text("DND"))), "DND");
    assert_eq!(status_wanted(&data(Json::number(1))), "ONLINE");
    assert_eq!(status_wanted(&Some(Json::text("DND"))), "ONLINE");
    assert_eq!(status_wanted(&Some(Fields::new().object())), "ONLINE");
}

#[test]
fn change_of_status_is_told_to_others() {
    let data = Some(Fields::new().with("status", Json::text("DND")).object());
    let (state, action) = presence::begin("me", strings(&["g1", "admins", "g2"]), data);
    assert_eq!(action, PresenceAction::ParseStatus(s("DND")));
    let (state, action) = presence::step(state, PresenceReply::Status(Some(s("DND"))));
    assert_eq!(action, PresenceAction::FetchUser(one("users", "id", "me")));
    let (state, action) = presence::step(state, PresenceReply::User(Some(user("me", "ONLINE", 0))));
    let update = Statement {
        sql: s("UPDATE users SET status = $1 WHERE id = $2 RETURNING *"),
        params: vec![SqlValue::Text(s("DND")), SqlValue::Text(s("me"))],
    };
    assert_eq!(action, PresenceAction::Update(update));
    let (state, action) = presence::step(state, PresenceReply::Failed);
    assert_eq!(action, PresenceAction::FetchMembers(all("guildmembers", "guild_id", "g1")));
    let (state, action) = presence::step(
        state,
        PresenceReply::Members(vec![member(1, "g1", "me"), member(2, "g1", "you"), member(3, "g1", "you")]),
    );
    assert_eq!(action, PresenceAction::FetchMembers(all("guildmembers", "guild_id", "g2")));
    let (state, action) = presence::step(state, PresenceReply::Failed);
    assert_eq!(state, PresenceChange::Over);
    match action {
        PresenceAction::Finish(Some(notice)) => {
            assert_eq!(notice.recipients, strings(&["you"]));
            assert_eq!(notice.payload, presence_update("me", "DND"));
        },
        other => panic!("{:?}", other),
    }
}

#[test]
fn status_that_is_none_or_the_same_changes_nothing() {
    let start = || presence::begin("me", strings(&["g1"]), None).0;
    let done = (PresenceChange::Over, PresenceAction::Finish(None));
    assert_eq!(presence::step(start(), PresenceReply::Status(None)), done);
    let asked = || presence::step(start(), PresenceReply::Status(Some(s("ONLINE")))).0;
    assert_eq!(presence::step(asked(), PresenceReply::User(Some(user("me", "ONLINE", 0)))), done);
    assert_eq!(presence::step(asked(), PresenceReply::User(None)), done);
    assert_eq!(presence::step(asked(), PresenceReply::Failed), done);
}

#[test]
fn socket_is_greeted() {
    let (state, effects) = open();
    assert_eq!(state, Session::Greeting);
    let hello = Fields::new().with("heartbeat_interval", Json::number(30000)).object();
    assert_eq!(effects, vec![Effect::CountConnected, Effect::Send(Payload::with_data(10, hello))]);
    let (state, effects) = advance(state, SessionEvent::Greeted(true));
    assert_eq!(state, Session::Talking { user_id: None, rooms: vec![] });
    assert_eq!(effects, vec![Effect::StartTasks]);
    let (state, effects) = advance(Session::Greeting, SessionEvent::Greeted(false));
    assert_eq!(state, Session::Closed);
    assert_eq!(effects, vec![Effect::CountDisconnected]);
}

fn stranger() -> Session {
    Session::Talking { user_id: None, rooms: vec![] }
}

fn friend() -> Session {
    Session::Talking { user_id: Some(s("me")), rooms: strings(&["g1"]) }
}

fn sent(op: i32, d: Option<Json>) -> SessionEvent {
    SessionEvent::Message(Some(Payload { op, d, s: None, t: None }))
}

#[test]
fn messages_are_answered_by_kind() {
    let seen = |op: i32, user: Option<&str>| Effect::RecordInbound { op, user: user.map(s) };
    assert_eq!(
        advance(stranger(), sent(1, None)),
        (stranger(), vec![seen(1, None), Effect::Send(Payload::new(11))])
    );
    assert_eq!(advance(stranger(), sent(3, None)), (stranger(), vec![seen(3, None)]));
    assert_eq!(
        advance(friend(), sent(3, Some(Json::Null))),
        (
            friend(),
            vec![
                seen(3, Some("me")),
                Effect::RecordDispatch { event: s("PRESENCE_UPDATE"), user_id: s("me") },
                Effect::ChangePresence {
                    user_id: s("me"),
                    rooms: strings(&["g1"]),
                    data: Some(Json::Null),
                },
            ]
        )
    );
    assert_eq!(advance(friend(), sent(99, None)), (friend(), vec![seen(99, Some("me"))]));
    assert_eq!(advance(friend(), SessionEvent::Message(None)), (friend(), vec![]));
    assert_eq!(advance(friend(), SessionEvent::OtherFrame), (friend(), vec![]));
    let (state, effects) = advance(stranger(), sent(2, None));
    assert_eq!(state, Session::Identifying { user_id: None, rooms: vec![] });
    assert_eq!(effects, vec![seen(2, None), Effect::Identify]);
    let result = IdentifyResult { user_id: s("me"), rooms: strings(&["g1"]) };
    let (state, effects) = advance(state, SessionEvent::Identified(Ok(result)));
    assert_eq!(state, friend());
    assert_eq!(
        effects,
        vec![
            Effect::SubscribeRooms(strings(&["g1"])),
            Effect::JoinRooms(strings(&["g1"])),
            Effect::Register { user_id: s("me") },
        ]
    );
}

#[test]
fn client_that_fails_to_identify_is_sent_away() {
    let (state, _) = advance(stranger(), sent(2, None));
    let (state, effects) = advance(state, SessionEvent::Identified(Err(IdentifyError::NoToken)));
    assert_eq!(state, Session::Closed);
    assert_eq!(
        effects,
        vec![
            Effect::Send(Payload::with_data(9, Json::Bool(false))),
            Effect::UnsubscribeRooms(vec![]),
            Effect::CountDisconnected,
            Effect::StopTasks,
        ]
    );
}

#[test]
fn socket_is_counted_out_once() {
    let (state, effects) = advance(friend(), SessionEvent::Ended);
    assert_eq!(
        effects,
        vec![
            Effect::Prune { user_id: s("me") },
            Effect::FetchMemberships { user_id: s("me") },
        ]
    );
    let farewell = || {
        vec![
            Effect::UnsubscribeRooms(strings(&["g1"])),
            Effect::CountDisconnected,
            Effect::StopTasks,
        ]
    };
    let members = vec![member(1, "g1", "me"), member(2, "g2", "me")];
    let (state, effects) = advance(state, SessionEvent::Memberships(Some(members)));
    assert_eq!(state, Session::Closed);
    let mut expected = vec![
        Effect::Broadcast { room: s("g1"), payload: presence_update("me", "UNAVAILABLE") },
        Effect::Broadcast { room: s("g2"), payload: presence_update("me", "UNAVAILABLE") },
    ];
    expected.extend(farewell());
    assert_eq!(effects, expected);
    assert_eq!(advance(state, SessionEvent::Ended), (Session::Closed, vec![]));
    let (state, _) = advance(friend(), SessionEvent::Ended);
    assert_eq!(advance(state, SessionEvent::Memberships(None)), (Session::Closed, farewell()));
}

#[test]
fn token_of_given_bytes_opens_the_gateway() {
    let token = token_from_random("me", 1, &vec![7; 16], "secret");
    let (state, _) = begin_from_cookie(Some(&format!("x=1; token={}; y=2", token)), false, "secret");
    assert_eq!(state, Identify::Account);
}
