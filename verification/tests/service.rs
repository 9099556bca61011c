use vanilla_backend::config::{Config, ConfigError, Variables};
use vanilla_backend::error::{ApiError, AppError, FieldError, ValidationError};
use vanilla_backend::json::{Fields, Json};
use vanilla_backend::middleware::rate_limit::{RateAction, RateCheck, RateLimit, RateLimitResult};
use vanilla_backend::models::{
    Account, AccountSettings, Channel, Guild, GuildMember, Invite, InviteChannel, InviteGuild,
    InviteResponse, MemberInfo, Message, MessageAuthor, Presence, User, UserFlags,
};
use vanilla_backend::orm::channels::Channels;
use vanilla_backend::orm::guild_members::GuildMembers;
use vanilla_backend::orm::guilds::Guilds;
use vanilla_backend::orm::messages::Messages;
use vanilla_backend::orm::users::Users;
use vanilla_backend::orm::value::Timestamp;
use vanilla_backend::text::number::NumberError;

fn s(t: &str) -> String {
    t.to_string()
}

fn to_serde(json: &Json) -> serde_json::Value {
    match json {
        Json::Null => serde_json::Value::Null,
        Json::Bool(b) => serde_json::Value::Bool(*b),
        Json::Unsigned(n) => serde_json::Value::from(*n),
        Json::Negative(n) => serde_json::Value::from(*n),
        Json::Real(text) => serde_json::from_str(text).unwrap(),
        Json::Text(text) => serde_json::Value::from(text.as_str()),
        Json::Array(values) => serde_json::Value::Array(values.iter().map(to_serde).collect()),
        Json::Object(fields) => serde_json::Value::Object(
            fields.iter().map(|(k, v)| (k.clone(), to_serde(v))).collect(),
        ),
    }
}

fn shows(json: Json, text: &str) {
    assert_eq!(to_serde(&json), serde_json::from_str::<serde_json::Value>(text).unwrap());
}

fn variables() -> Variables {
    Variables {
        database_url: Ok(s("postgres://x")),
        redis_url: None,
        port: None,
        token_secret: Ok(s("SECRET-REDACTED")),
        registration_closed: None,
        verbose: None,
        user_guild_limit: None,
        max_avatar_size: None,
        max_banner_size: None,
    }
}

#[test]
fn set_up_has_defaults() {
    let config = Config::from_env(variables()).unwrap();
    let expected = Config {
        database_url: s("postgres://x"),
        redis_url: s("redis://127.0.0.1"),
        port: 3000,
        token_secret: s("SECRET-REDACTED"),
        registration_closed: false,
        verbose: false,
        user_guild_limit: 100,
        max_avatar_size: 10_000_000,
        max_banner_size: 25_000_000,
    };
    assert_eq!(config, expected);
    assert_eq!(config.clone(), expected);
}

#[test]
fn set_up_follows_the_variables() {
    let config = Config::from_env(Variables {
        redis_url: Some(s("redis://r")),
        port: Some(s("80")),
        registration_closed: Some(s("1")),
        verbose: Some(s("true")),
        user_guild_limit: Some(s("7")),
        max_avatar_size: Some(s("8")),
        max_banner_size: Some(s("9")),
        ..variables()
    })
    .unwrap();
    assert_eq!(config.redis_url, "redis://r");
    assert_eq!(config.port, 80);
    assert!(config.registration_closed);
    assert!(!config.verbose);
    assert_eq!(config.user_guild_limit, 7);
    assert_eq!(config.max_avatar_size, 8);
    assert_eq!(config.max_banner_size, 9);
}

#[test]
fn set_up_fails_at_the_first_bad_variable() {
    let unset = || Err(s("environment variable not found"));
    let e = Config::from_env(Variables { database_url: unset(), port: Some(s("x")), ..variables() });
    assert_eq!(e, Err(ConfigError::Unread(s("environment variable not found"))));
    let e = Config::from_env(Variables { token_secret: unset(), port: Some(s("x")), ..variables() });
    assert_eq!(e, Err(ConfigError::NotANumber(NumberError::InvalidDigit)));
    let e = Config::from_env(Variables { token_secret: unset(), verbose: Some(s("1")), ..variables() });
    assert_eq!(e.unwrap_err().message(), "environment variable not found");
    let e = Config::from_env(Variables { port: Some(s("65536")), ..variables() });
    assert_eq!(e.unwrap_err().message(), "number too large to fit in target type");
    let e = Config::from_env(Variables { user_guild_limit: Some(s("")), ..variables() });
    assert_eq!(e, Err(ConfigError::NotANumber(NumberError::Empty)));
    let e = Config::from_env(Variables { max_avatar_size: Some(s("-1")), ..variables() });
    assert_eq!(e, Err(ConfigError::NotANumber(NumberError::InvalidDigit)));
    let e = Config::from_env(Variables { max_banner_size: Some(s("99999999999999999999999")), ..variables() });
    assert_eq!(e, Err(ConfigError::NotANumber(NumberError::TooLarge)));
}

fn answers(error: AppError, status: u16, body: &str) {
    let (found, json) = error.into_response();
    assert_eq!(found, status);
    shows(json, body);
}

#[test]
fn errors_are_answered() {
    answers(AppError::Unauthorized, 401, "{\"code\":\"UNAUTHORIZED\"}");
    answers(AppError::Forbidden(s("m")), 403, "{\"code\":\"FORBIDDEN\",\"message\":\"m\"}");
    answers(AppError::NotFound(s("C")), 404, "{\"code\":\"C\"}");
    answers(AppError::BadRequest(s("m")), 400, "{\"code\":\"BAD_REQUEST\",\"message\":\"m\"}");
    answers(
        AppError::Conflict(ApiError { code: s("C"), path: None, message: Some(s("m")) }),
        409,
        "{\"code\":\"C\",\"path\":null,\"message\":\"m\"}",
    );
    answers(
        AppError::ValidationFailed(vec![FieldError { code: s("C"), path: s("p") }]),
        400,
        "{\"code\":\"VALIDATION_FAILED\",\"errors\":[{\"code\":\"C\",\"path\":\"p\"}]}",
    );
    answers(
        AppError::internal(s("m")),
        500,
        "{\"code\":\"INTERNAL_SERVER_ERROR\",\"message\":\"m\"}",
    );
    answers(
        AppError::TooManyRequests { message: s("m"), retry_after: -2 },
        429,
        "{\"message\":\"m\",\"retryAfter\":-2}",
    );
    let list = ValidationError { code: s("C"), errors: vec![] };
    shows(list.to_json(), "{\"code\":\"C\",\"errors\":[]}");
}

#[test]
fn outside_errors_become_internal_ones() {
    assert_eq!(
        AppError::from(anyhow::Error::msg("broken")),
        AppError::InternalServerError(s("broken"))
    );
    let redis = redis::RedisError::from((redis::ErrorKind::TypeError, "not a number"));
    let words = redis.to_string();
    assert_eq!(AppError::from(redis), AppError::InternalServerError(words));
}

#[test]
fn first_request_sets_the_window() {
    let rate = RateLimit { limit: 2, window_ms: 1999 };
    let (state, action) = rate.begin("1.2.3.4", "login");
    assert_eq!(action, RateAction::Raise { key: s("rate-limit:1.2.3.4:login") });
    let (state, action) = rate.step(state, 1);
    assert_eq!(action, RateAction::Expire { seconds: 1 });
    let (state, action) = rate.step(state, 0);
    assert_eq!(action, RateAction::AskRemaining);
    let (state, action) = rate.step(state, 60);
    assert_eq!(state, RateCheck::Over);
    assert_eq!(action, RateAction::Judge(RateLimitResult { limited: false, retry_after: 60 }));
}

#[test]
fn requests_beyond_the_limit_are_limited() {
    let rate = RateLimit { limit: 2, window_ms: 60_000 };
    for (count, limited) in [(2, false), (3, true), (4, true), (i64::MAX, true)] {
        let (state, action) = rate.step(RateCheck::Raised, count);
        assert_eq!(action, RateAction::AskRemaining);
        let (_, action) = rate.step(state, 9);
        assert_eq!(action, RateAction::Judge(RateLimitResult { limited, retry_after: 9 }));
    }
}

#[test]
fn window_is_rounded_towards_zero() {
    for ms in [0, 999, 1000, -1, -999, -1000, -1001, -1999, -2000, i64::MIN, i64::MAX] {
        assert_eq!(RateLimit { limit: 0, window_ms: ms }.window_seconds(), ms / 1000, "{}", ms);
    }
}

fn user() -> User {
    User {
        id: s("1"),
        username: s("u"),
        tag: s("t"),
        created_at: Timestamp { micros: 1_234_567 },
        bot: true,
        status: s("ONLINE"),
        flags: UserFlags::ADMIN,
        bio: Some(s("b")),
        avatar: None,
        banner: None,
    }
}

const USER: &str = "{\"id\":\"1\",\"username\":\"u\",\"tag\":\"t\",\"createdAt\":1234,\"bot\":true,\
                    \"status\":\"ONLINE\",\"flags\":1,\"bio\":\"b\",\"avatar\":null,\"banner\":null}";

#[test]
fn models_are_shown_in_json() {
    shows(user().to_json(), USER);
    assert_eq!(user().clone(), user());
    shows(
        Account { id: s("1"), email: s("e"), email_verified: false, locale: s("de") }.to_json(),
        "{\"id\":\"1\",\"email\":\"e\",\"emailVerified\":false,\"locale\":\"de\"}",
    );
    shows(
        AccountSettings {
            theme: s("t"),
            compact_mode: None,
            compact_show_avatars: Some(false),
            pending_deletion: Some(true),
            delete_at: Some(s("d")),
        }
        .to_json(),
        "{\"theme\":\"t\",\"compactMode\":null,\"compactShowAvatars\":false,\"pendingDeletion\":true,\
         \"deleteAt\":\"d\"}",
    );
    let info = MemberInfo { nickname: Some(s("n")) };
    shows(info.to_json(), "{\"nickname\":\"n\"}");
    let author = MessageAuthor {
        id: s("1"),
        username: s("u"),
        tag: s("t"),
        avatar: None,
        bot: false,
        status: s("x"),
        flags: -1,
        member: Some(info),
    };
    let author_text = "{\"id\":\"1\",\"username\":\"u\",\"tag\":\"t\",\"avatar\":null,\"bot\":false,\
                       \"status\":\"x\",\"flags\":-1,\"member\":{\"nickname\":\"n\"}}";
    shows(author.to_json(), author_text);
    let message = Message {
        id: s("m"),
        author_id: s("1"),
        channel_id: s("c"),
        guild_id: s("g"),
        content: None,
        created_at: Some(Timestamp { micros: -1 }),
        updated_at: None,
        message_type: s("DEFAULT"),
        nonce: Some(s("n")),
        author: Some(author),
    };
    shows(
        message.to_json(),
        &format!(
            "{{\"id\":\"m\",\"authorId\":\"1\",\"channelId\":\"c\",\"guildId\":\"g\",\"content\":null,\
             \"createdAt\":-1,\"updatedAt\":null,\"type\":\"DEFAULT\",\"nonce\":\"n\",\"author\":{}}}",
            author_text
        ),
    );
    shows(
        Invite {
            id: s("i"),
            guild_id: s("g"),
            code: s("c"),
            uses: 1,
            max_uses: 2,
            creator_id: None,
            channel_id: s("ch"),
            vanity: true,
        }
        .to_json(),
        "{\"id\":\"i\",\"guildId\":\"g\",\"code\":\"c\",\"uses\":1,\"maxUses\":2,\"creatorId\":null,\
         \"channelId\":\"ch\",\"vanity\":true}",
    );
    let response = InviteResponse {
        invite_type: 0,
        code: s("c"),
        inviter: None,
        guild: InviteGuild { id: s("g"), name: s("n"), brief: s("b"), icon: None },
        guild_id: s("g"),
        channel: InviteChannel { id: s("ch"), channel_type: 4, name: s("general") },
    };
    shows(
        response.to_json(),
        "{\"type\":0,\"code\":\"c\",\"inviter\":null,\"guild\":{\"id\":\"g\",\"name\":\"n\",\
         \"brief\":\"b\",\"icon\":null},\"guildId\":\"g\",\"channel\":{\"id\":\"ch\",\"type\":4,\
         \"name\":\"general\"}}",
    );
    shows(Presence { id: s("1"), status: s("x") }.to_json(), "{\"id\":\"1\",\"status\":\"x\"}");
}

#[test]
fn optional_parts_of_models_are_left_out() {
    let member = GuildMember {
        id: 3,
        guild_id: s("g"),
        user_id: s("1"),
        nickname: None,
        joined_at: Timestamp { micros: 0 },
        user: Some(user()),
    };
    shows(
        member.to_json(),
        &format!(
            "{{\"id\":3,\"guildId\":\"g\",\"userId\":\"1\",\"nickname\":null,\"joinedAt\":0,\"user\":{}}}",
            USER
        ),
    );
    let guild = Guild {
        id: s("g"),
        name: s("n"),
        brief: s("b"),
        icon: None,
        owner_id: s("o"),
        created_at: None,
        channels: None,
        members: Some(vec![]),
    };
    shows(
        guild.to_json(),
        "{\"id\":\"g\",\"name\":\"n\",\"brief\":\"b\",\"icon\":null,\"ownerId\":\"o\",\
         \"createdAt\":null,\"members\":[]}",
    );
}

#[test]
fn copies_of_guilds_are_equal() {
    let at = Timestamp { micros: 1_234_567 };
    let guild = Guild {
        id: s("g"),
        name: s("n"),
        brief: s("b"),
        icon: Some(s("i")),
        owner_id: s("o"),
        created_at: Some(at),
        channels: Some(vec![Channel {
            id: s("c"),
            name: s("general"),
            guild_id: s("g"),
            created_at: Some(at),
            rate_limit_per_user: 5,
        }]),
        members: None,
    };
    assert_eq!(guild.clone(), guild);
    assert_eq!(guild.clone().created_at, Some(at));
}

#[test]
fn rows_are_shown_as_models() {
    let at = Timestamp { micros: 1_234_567 };
    let row = Users {
        id: s("1"),
        username: s("u"),
        tag: s("t"),
        created_at: at,
        bot: true,
        status: s("ONLINE"),
        flags: 1,
        bio: Some(s("b")),
        avatar: None,
        banner: None,
    };
    assert_eq!(User::from(row.clone()), user());
    let guild = Guild::from(Guilds {
        id: s("g"),
        name: s("n"),
        brief: s("b"),
        icon: Some(s("i")),
        created_at: at,
        owner_id: s("o"),
    });
    assert_eq!(guild.created_at, Some(at));
    assert_eq!(guild.owner_id, "o");
    assert_eq!(guild.channels, None);
    assert_eq!(guild.members, None);
    let channel = Channel::from(Channels {
        id: s("c"),
        name: s("n"),
        guild_id: s("g"),
        created_at: at,
        rate_limit_per_user: 5,
    });
    assert_eq!(
        channel,
        Channel {
            id: s("c"),
            name: s("n"),
            guild_id: s("g"),
            created_at: Some(at),
            rate_limit_per_user: 5,
        }
    );
    let member = GuildMember::from(GuildMembers {
        id: 1,
        guild_id: s("g"),
        user_id: s("u"),
        nickname: Some(s("n")),
        joined_at: at,
    });
    assert_eq!(member.user, None);
    assert_eq!(member.nickname, Some(s("n")));
    let message = Message::from(Messages {
        id: s("m"),
        author_id: s("a"),
        channel_id: s("c"),
        guild_id: s("g"),
        content: Some(s("hi")),
        created_at: at,
        updated_at: None,
        message_type: s("DEFAULT"),
        nonce: s("n"),
    });
    assert_eq!(message.nonce, Some(s("n")));
    assert_eq!(message.created_at, Some(at));
    assert_eq!(message.author, None);
}

#[test]
fn objects_can_be_empty() {
    shows(Fields::new().object(), "{}");
}
