use vanilla_backend::json::{Fields, Json};
use vanilla_backend::orm::accounts::{AccountsAccessor, AccountsCreate};
use vanilla_backend::orm::change::BuildError;
use vanilla_backend::orm::channels::{ChannelsAccessor, ChannelsCreate, ChannelsUpdate};
use vanilla_backend::orm::debug::{
    disable_debug, enable_debug, is_debug_enabled, log_error, log_query, log_result, DebugLog,
};
use vanilla_backend::orm::error::ByteOrmError;
use vanilla_backend::orm::guild_members::{
    GuildMembers, GuildMembersAccessor, GuildMembersCreate, GuildMembersQuery, GuildMembersUpsert,
    GuildMembersWhereBuilder,
};
use vanilla_backend::orm::guilds::{GuildsAccessor, GuildsDelete};
use vanilla_backend::orm::insert::{CreatePlan, FindOrCreate};
use vanilla_backend::orm::jsonb::JsonbExt;
use vanilla_backend::orm::keys::expect_keys;
use vanilla_backend::orm::messages::{
    MessagesAccessor, MessagesCreate, MessagesDelete, MessagesQuery, MessagesWhereBuilder,
};
use vanilla_backend::orm::users::{
    Users, UsersAccessor, UsersCreate, UsersDelete, UsersQuery, UsersUpdate, UsersUpsert,
    UsersWhereBuilder,
};
use vanilla_backend::orm::value::{SqlValue, Statement, Timestamp};
use vanilla_backend::string_map::StringMap;

fn text(s: &str) -> SqlValue {
    SqlValue::Text(s.to_string())
}

fn s(t: &str) -> String {
    t.to_string()
}

fn says(statement: Statement, sql: &str, params: Vec<SqlValue>) {
    assert_eq!(statement.sql, sql);
    assert_eq!(statement.params, params);
}

#[test]
fn query_states_conditions_order_and_bounds() {
    let at = Timestamp { micros: 5 };
    let builder = UsersWhereBuilder::new()
        .where_id(s("1"))
        .where_tag_in(vec![s("a"), s("b")])
        .where_bio_is_null()
        .where_avatar_is_not_null()
        .where_created_at_gte(at)
        .where_bot(true)
        .where_flags(3)
        .where_banner(None)
        .order_by_username_asc()
        .order_by_created_at_desc()
        .limit(10)
        .offset(20);
    says(
        UsersQuery::from_builder(builder).select(),
        "SELECT * FROM users WHERE id = $1 AND tag IN ($2, $3) AND bio IS NULL AND \
         avatar IS NOT NULL AND created_at >= $4 AND bot = $5 AND flags = $6 AND banner = $7 \
         ORDER BY username ASC, created_at DESC LIMIT 10 OFFSET 20",
        vec![
            text("1"),
            text("a"),
            text("b"),
            SqlValue::Time(at),
            SqlValue::Bool(true),
            SqlValue::Int(3),
            SqlValue::NullableText(None),
        ],
    );
    says(UsersQuery::new().select(), "SELECT * FROM users", vec![]);
    says(UsersQuery::new().limit(3).offset(1).select(), "SELECT * FROM users LIMIT 3 OFFSET 1", vec![]);
}

#[test]
fn membership_in_nothing_is_no_condition() {
    let builder = UsersWhereBuilder::new().where_id_in(vec![]).where_tag(s("t"));
    says(
        UsersQuery::from_builder(builder).select(),
        "SELECT * FROM users WHERE tag = $1",
        vec![text("t")],
    );
    assert_eq!(UsersDelete::new().where_id_in(vec![]).statement(), Err(BuildError::DeleteWithoutWhere));
}

#[test]
fn later_bound_counts() {
    let builder = UsersWhereBuilder::new().limit(1).limit(2).offset(3).offset(4);
    says(UsersQuery::from_builder(builder).select(), "SELECT * FROM users LIMIT 2 OFFSET 4", vec![]);
}

#[test]
fn count_takes_no_notice_of_bounds() {
    let builder = UsersWhereBuilder::new().where_id(s("1")).order_by_id_asc().limit(5);
    says(
        UsersQuery::from_builder(builder).count(),
        "SELECT COUNT(*) FROM users WHERE id = $1",
        vec![text("1")],
    );
}

#[test]
fn aggregates_bind_their_default_last() {
    let builder = || UsersWhereBuilder::new().where_bot(false);
    let query = || UsersQuery::from_builder(builder());
    says(
        query().aggregate("flags", "stddev"),
        "SELECT STDDEV(flags) FROM users WHERE bot = $1",
        vec![SqlValue::Bool(false)],
    );
    says(
        query().aggregate("flags", "straße"),
        "SELECT STRASSE(flags) FROM users WHERE bot = $1",
        vec![SqlValue::Bool(false)],
    );
    says(query().avg("flags"), "SELECT AVG(flags) FROM users WHERE bot = $1", vec![SqlValue::Bool(false)]);
    says(query().min("flags"), "SELECT MIN(flags) FROM users WHERE bot = $1", vec![SqlValue::Bool(false)]);
    says(query().max("flags"), "SELECT MAX(flags) FROM users WHERE bot = $1", vec![SqlValue::Bool(false)]);
    says(
        query().sum("flags", SqlValue::BigInt(0)),
        "SELECT COALESCE(SUM(flags), $2) FROM users WHERE bot = $1",
        vec![SqlValue::Bool(false), SqlValue::BigInt(0)],
    );
    says(
        query().sum_cast_i64("flags"),
        "SELECT COALESCE(CAST(SUM(flags) AS BIGINT), $2) FROM users WHERE bot = $1",
        vec![SqlValue::Bool(false), SqlValue::BigInt(0)],
    );
}

#[test]
fn accessor_passes_the_filter_on() {
    let users = UsersAccessor::new();
    says(users.find_many(|q| q.where_id(s("1"))), "SELECT * FROM users WHERE id = $1", vec![text("1")]);
    says(
        users.find_first(|q| q.where_id(s("1")).limit(7)),
        "SELECT * FROM users WHERE id = $1 LIMIT 1",
        vec![text("1")],
    );
    says(users.count(|q| q), "SELECT COUNT(*) FROM users", vec![]);
    says(
        users.sum(|q| q, "flags", SqlValue::Int(0)),
        "SELECT COALESCE(SUM(flags), $1) FROM users",
        vec![SqlValue::Int(0)],
    );
    says(
        users.sum_flags(|q| q),
        "SELECT COALESCE(SUM(flags), $1) FROM users",
        vec![SqlValue::BigInt(0)],
    );
    says(users.avg(|q| q, "flags"), "SELECT AVG(flags) FROM users", vec![]);
    says(users.min(|q| q, "flags"), "SELECT MIN(flags) FROM users", vec![]);
    says(users.max(|q| q, "flags"), "SELECT MAX(flags) FROM users", vec![]);
    says(users.find_unique(s("9")), "SELECT * FROM users WHERE id = $1", vec![text("9")]);
    says(
        GuildMembersAccessor::new().find_unique(9),
        "SELECT * FROM guildmembers WHERE id = $1",
        vec![SqlValue::Int(9)],
    );
    says(
        GuildMembersAccessor::new().sum_id(|q| q),
        "SELECT COALESCE(SUM(id), $1) FROM guildmembers",
        vec![SqlValue::BigInt(0)],
    );
    says(
        ChannelsAccessor::new().sum_rate_limit_per_user(|q| q.where_guild_id(s("g"))),
        "SELECT COALESCE(SUM(rate_limit_per_user), $2) FROM channels WHERE guild_id = $1",
        vec![text("g"), SqlValue::BigInt(0)],
    );
    says(AccountsAccessor::new().count(|q| q), "SELECT COUNT(*) FROM accounts", vec![]);
    says(GuildsAccessor::new().count(|q| q), "SELECT COUNT(*) FROM guilds", vec![]);
    says(MessagesAccessor::new().count(|q| q), "SELECT COUNT(*) FROM messages", vec![]);
    says(Users::find_by_id(s("9")), "SELECT * FROM users WHERE id = $1", vec![text("9")]);
    says(GuildMembers::find_by_id(9), "SELECT * FROM guildmembers WHERE id = $1", vec![SqlValue::Int(9)]);
}

#[test]
fn every_comparison_of_time_has_its_sign() {
    let at = Timestamp { micros: -1 };
    let one = |b: MessagesWhereBuilder| MessagesQuery::from_builder(b).select().sql;
    let new = MessagesWhereBuilder::new;
    assert_eq!(one(new().where_updated_at_gt(Some(at))), "SELECT * FROM messages WHERE updated_at > $1");
    assert_eq!(one(new().where_updated_at_lt(None)), "SELECT * FROM messages WHERE updated_at < $1");
    assert_eq!(one(new().where_updated_at_gte(None)), "SELECT * FROM messages WHERE updated_at >= $1");
    assert_eq!(one(new().where_updated_at_lte(None)), "SELECT * FROM messages WHERE updated_at <= $1");
    assert_eq!(
        MessagesQuery::from_builder(new().where_updated_at_in(vec![Some(at), None])).select().params,
        vec![SqlValue::NullableTime(Some(at)), SqlValue::NullableTime(None)]
    );
    assert_eq!(
        GuildMembersQuery::from_builder(GuildMembersWhereBuilder::new().where_joined_at_in(vec![at]))
            .select()
            .params,
        vec![SqlValue::Time(at)]
    );
    assert_eq!(
        UsersQuery::from_builder(UsersWhereBuilder::new().where_bot_in(vec![true]).where_flags_in(vec![1, 2]))
            .select()
            .params,
        vec![SqlValue::Bool(true), SqlValue::Int(1), SqlValue::Int(2)]
    );
}

#[test]
fn update_numbers_settings_steps_and_conditions() {
    let update = UsersAccessor::new().update(|u| {
        u.where_id(s("1")).set_status(s("ONLINE")).set_bio(None).inc_flags(2).div_flags(3).where_tag(s("t"))
    });
    says(
        update.statement().unwrap(),
        "UPDATE users SET status = $1, bio = $2, flags = flags + $3, flags = flags / $4 \
         WHERE id = $5 AND tag = $6 RETURNING *",
        vec![
            text("ONLINE"),
            SqlValue::NullableText(None),
            SqlValue::BigInt(2),
            SqlValue::BigInt(3),
            text("1"),
            text("t"),
        ],
    );
    says(
        UsersUpdate::new().dec_flags(1).mul_flags(-2).statement().unwrap(),
        "UPDATE users SET flags = flags - $1, flags = flags * $2 RETURNING *",
        vec![SqlValue::BigInt(1), SqlValue::BigInt(-2)],
    );
    says(
        ChannelsUpdate::new().set_name(s("n")).where_id_in(vec![s("a"), s("b")]).statement().unwrap(),
        "UPDATE channels SET name = $1 WHERE id IN ($1, $2) = $2 RETURNING *",
        vec![text("n"), text("a"), text("b")],
    );
    says(
        UsersUpdate::new()
            .set_tag(s("t"))
            .where_bio_is_null()
            .where_created_at_gt(Timestamp { micros: 1 })
            .statement()
            .unwrap(),
        "UPDATE users SET tag = $1 WHERE bio IS NULL = $2 AND created_at > = $3 RETURNING *",
        vec![text("t"), SqlValue::Time(Timestamp { micros: 1 })],
    );
}

#[test]
fn update_of_nothing_is_refused() {
    let refused = UsersUpdate::new().where_id(s("1")).statement();
    assert_eq!(refused, Err(BuildError::NoFieldsToUpdate));
    assert_eq!(BuildError::NoFieldsToUpdate.message(), "No fields to update");
}

#[test]
fn delete_needs_a_condition() {
    says(
        UsersDelete::new().where_id(s("1")).where_tag(s("t")).statement().unwrap(),
        "DELETE FROM users WHERE id = $1 AND tag = $2",
        vec![text("1"), text("t")],
    );
    assert_eq!(MessagesDelete::new().statement(), Err(BuildError::DeleteWithoutWhere));
    assert_eq!(GuildsDelete::new().where_icon_in(vec![]).statement(), Err(BuildError::DeleteWithoutWhere));
    assert_eq!(
        BuildError::DeleteWithoutWhere.message(),
        "DELETE without WHERE clause is not allowed"
    );
}

#[test]
fn create_lists_columns_upwards() {
    let plan = UsersCreate::new()
        .set_username(s("u"))
        .set_tag(s("t"))
        .set_id(s("1"))
        .set_bot(true)
        .set_id(s("2"))
        .plan()
        .unwrap();
    assert_eq!(plan.check, None);
    says(
        plan.insert,
        "INSERT INTO users (bot, id, tag, username) VALUES ($1, $2, $3, $4) RETURNING *",
        vec![SqlValue::Bool(true), text("2"), text("t"), text("u")],
    );
    let plan = GuildMembersAccessor::new()
        .create(|c| c.set_user_id(s("u")).set_guild_id(s("g")).where_user_id(s("u")).where_guild_id(s("g")))
        .plan()
        .unwrap();
    says(
        plan.check.unwrap(),
        "SELECT COUNT(*) FROM guildmembers WHERE user_id = $1 AND guild_id = $2",
        vec![text("u"), text("g")],
    );
    says(
        plan.insert,
        "INSERT INTO guildmembers (guild_id, user_id) VALUES ($1, $2) RETURNING *",
        vec![text("g"), text("u")],
    );
    assert_eq!(CreatePlan::verdict(0), Ok(()));
    assert_eq!(CreatePlan::verdict(1), Err(BuildError::RecordExists));
    assert_eq!(BuildError::RecordExists.message(), "Record already exists");
}

#[test]
fn order_of_setters_does_not_matter() {
    let a = ChannelsCreate::new().set_id(s("1")).set_guild_id(s("g")).plan();
    let b = ChannelsCreate::new().set_guild_id(s("g")).set_id(s("1")).plan();
    assert_eq!(a, b);
}

#[test]
fn create_names_the_first_missing_column() {
    assert_eq!(UsersCreate::new().set_id(s("1")).plan(), Err(BuildError::MissingField(s("username"))));
    assert_eq!(UsersCreate::new().plan(), Err(BuildError::MissingField(s("id"))));
    assert_eq!(
        AccountsCreate::new().set_id(s("1")).set_email(s("e")).set_password(s("p")).set_user_id(s("u")).plan(),
        Err(BuildError::MissingField(s("token")))
    );
    assert_eq!(GuildMembersCreate::new().plan(), Err(BuildError::MissingField(s("guild_id"))));
    assert_eq!(
        MessagesCreate::new().set_id(s("1")).set_author_id(s("a")).set_channel_id(s("c")).plan(),
        Err(BuildError::MissingField(s("guild_id")))
    );
    assert_eq!(BuildError::MissingField(s("id")).message(), "Missing required field: id");
}

#[test]
fn last_value_set_is_upserted() {
    says(
        UsersUpsert::new()
            .set_tag(s("a"))
            .set_id(s("2"))
            .where_id(s("1"))
            .inc_flags(3)
            .set_tag(s("b"))
            .mul_flags(2)
            .statement()
            .unwrap(),
        "INSERT INTO users (flags, id, tag) VALUES ($1, $2, $3) ON CONFLICT (id) DO UPDATE SET \
         flags = COALESCE(users.flags, 0) * 2, tag = EXCLUDED.tag RETURNING *",
        vec![SqlValue::Int(0), text("2"), text("b")],
    );
    says(
        UsersUpsert::new().where_id(s("1")).where_id(s("2")).statement().unwrap(),
        "INSERT INTO users (id) VALUES ($1) ON CONFLICT (id) DO NOTHING RETURNING *",
        vec![text("2")],
    );
}

#[test]
fn upsert_changes_what_is_there() {
    let upsert = UsersAccessor::new().upsert(|u| u.where_id(s("1")).set_tag(s("t")).inc_flags(4));
    says(
        upsert.statement().unwrap(),
        "INSERT INTO users (flags, id, tag) VALUES ($1, $2, $3) ON CONFLICT (id) DO UPDATE SET \
         flags = COALESCE(users.flags, 0) + 4, tag = EXCLUDED.tag RETURNING *",
        vec![SqlValue::BigInt(4), text("1"), text("t")],
    );
    says(
        UsersUpsert::new().set_id(s("1")).dec_flags(-4).statement().unwrap(),
        "INSERT INTO users (flags, id) VALUES ($1, $2) ON CONFLICT (id) DO UPDATE SET \
         flags = COALESCE(users.flags, 0) - 4 RETURNING *",
        vec![SqlValue::BigInt(4), text("1")],
    );
    says(
        UsersUpsert::new().set_id(s("1")).mul_flags(-4).statement().unwrap(),
        "INSERT INTO users (flags, id) VALUES ($1, $2) ON CONFLICT (id) DO UPDATE SET \
         flags = COALESCE(users.flags, 0) * -4 RETURNING *",
        vec![SqlValue::Int(0), text("1")],
    );
    says(
        UsersUpsert::new().where_id(s("1")).statement().unwrap(),
        "INSERT INTO users (id) VALUES ($1) ON CONFLICT (id) DO NOTHING RETURNING *",
        vec![text("1")],
    );
    says(
        UsersUpsert::new().where_id(s("1")).set_id(s("2")).statement().unwrap(),
        "INSERT INTO users (id) VALUES ($1) ON CONFLICT (id) DO NOTHING RETURNING *",
        vec![text("2")],
    );
    says(
        GuildMembersUpsert::new().where_id(3).div_id(2).statement().unwrap(),
        "INSERT INTO guildmembers (id) VALUES ($1) ON CONFLICT (id) DO UPDATE SET  RETURNING *",
        vec![SqlValue::Int(0)],
    );
    assert_eq!(
        UsersUpsert::new().set_tag(s("t")).statement(),
        Err(BuildError::MissingPrimaryKey(s("id")))
    );
    assert_eq!(BuildError::MissingPrimaryKey(s("id")).message(), "Missing primary key field: id");
}

#[test]
fn several_rows_are_added_at_once() {
    let row = |id: &str, n: i32| {
        StringMap::new().insert(s("name"), text(id)).insert(s("id"), SqlValue::Int(n))
    };
    let channels = ChannelsAccessor::new();
    says(
        channels.create_many(vec![row("a", 1), row("b", 2)]).unwrap(),
        "INSERT INTO channels (id, name) VALUES ($1, $2), ($3, $4)",
        vec![SqlValue::Int(1), text("a"), SqlValue::Int(2), text("b")],
    );
    assert_eq!(channels.create_many(vec![]), None);
}

#[test]
fn row_is_found_or_created() {
    let plan = UsersAccessor::new().find_or_create(s("1"));
    says(
        plan.insert,
        "INSERT INTO users (id) VALUES ($1) ON CONFLICT (id) DO NOTHING RETURNING *",
        vec![text("1")],
    );
    says(plan.select, "SELECT * FROM users WHERE id = $1", vec![text("1")]);
    assert_eq!(FindOrCreate::outcome(Some(1), None), Ok(1));
    assert_eq!(FindOrCreate::outcome(None, Some(2)), Ok(2));
    assert_eq!(FindOrCreate::outcome::<i32>(None, None), Err(BuildError::RecordVanished));
    assert_eq!(
        BuildError::RecordVanished.message(),
        "Record should exist after find_or_create"
    );
}

#[test]
fn keys_are_all_expected() {
    let map = StringMap::new().insert(s("a"), 1).insert(s("b"), 2);
    assert_eq!(expect_keys(&map, &vec!["b", "a", "b"]), Ok(vec![2, 1, 2]));
    assert_eq!(expect_keys(&map, &vec!["a", "c"]), Err("missing key"));
    assert_eq!(expect_keys(&map, &vec![]), Ok(vec![]));
}

#[test]
fn log_is_kept_only_while_enabled() {
    let mut log = DebugLog::new();
    assert!(!is_debug_enabled(&log));
    assert!(log_query(&log, "SELECT 1", 0).is_empty());
    assert!(log_result(&log, "x", 1).is_empty());
    assert!(log_error(&log, "x", "y").is_empty());
    enable_debug(&mut log);
    assert!(is_debug_enabled(&log));
    assert_eq!(
        log_query(&log, "SELECT 1", 12),
        vec![s("[ByteORM Debug] Executing SQL: SELECT 1"), s("[ByteORM Debug] Parameters count: 12")]
    );
    assert_eq!(log_result(&log, "INSERT", 3), vec![s("[ByteORM Debug] INSERT - Rows affected: 3")]);
    assert_eq!(log_error(&log, "INSERT", "no"), vec![s("[ByteORM Debug] Error in INSERT: no")]);
    disable_debug(&mut log);
    assert!(!is_debug_enabled(&log));
}

#[test]
fn errors_say_what_went_wrong() {
    assert_eq!(ByteOrmError::Pool(s("x")).message(), "Pool error: x");
    assert_eq!(ByteOrmError::MissingField(s("x")).message(), "Missing required field: x");
    assert_eq!(ByteOrmError::NotFound(s("x")).message(), "Not found: x");
    assert_eq!(ByteOrmError::Validation(s("x")).message(), "Validation error: x");
    let json = serde_json::from_str::<bool>("1").unwrap_err();
    let words = json.to_string();
    let error = ByteOrmError::from(json);
    assert_eq!(error.message(), format!("Serialization error: {}", words));
    assert!(error.source().is_none());
    let query = "port=x".parse::<tokio_postgres::Config>().unwrap_err();
    let words = query.to_string();
    let error = ByteOrmError::from(query);
    assert_eq!(error.message(), format!("Query error: {}", words));
    assert!(error.source().is_some());
}

fn sample() -> Json {
    Fields::new()
        .with("name", Json::text("x"))
        .with("n", Json::number(-5))
        .with("big", Json::Unsigned(u64::MAX))
        .with("half", Json::Real(s("0.5")))
        .with("on", Json::Bool(true))
        .with("none", Json::Null)
        .with("list", Json::Array(vec![Json::Null]))
        .with("map", Fields::new().object())
        .object()
}

fn as_serde() -> serde_json::Value {
    serde_json::from_str(
        "{\"name\":\"x\",\"n\":-5,\"big\":18446744073709551615,\"half\":0.5,\"on\":true,\
         \"none\":null,\"list\":[null],\"map\":{}}",
    )
    .unwrap()
}

#[test]
fn fields_are_read_by_kind() {
    let json = sample();
    assert_eq!(json.get_string("name"), Ok(s("x")));
    assert_eq!(json.get_i64("n"), Ok(-5));
    assert_eq!(json.get_bool("on"), Ok(true));
    assert_eq!(json.get_i64("big"), Err(s("Key 'big' is not a valid i64")));
    assert_eq!(json.get_i64("half"), Err(s("Key 'half' is not a valid i64")));
    assert_eq!(json.get_string("gone"), Err(s("Key 'gone' not found")));
    assert_eq!(json.get_i64("gone"), Err(s("Key 'gone' not found")));
    assert_eq!(json.get_bool("gone"), Err(s("Key 'gone' not found")));
    assert!(json.has_key("none"));
    assert!(!json.has_key("gone"));
    assert!(!Json::Null.has_key("name"));
    assert_eq!(json.get("n"), Some(&Json::Negative(-5)));
}

#[test]
fn misfits_are_told_in_the_words_of_serde() {
    let json = sample();
    let value = as_serde();
    for key in ["n", "big", "half", "on", "none", "list", "map"] {
        let reason = serde_json::from_value::<String>(value[key].clone()).unwrap_err();
        assert_eq!(json.get_string(key), Err(format!("Failed to parse '{}' as string: {}", key, reason)));
    }
    for key in ["name", "on", "none", "list", "map"] {
        let reason = serde_json::from_value::<i64>(value[key].clone()).unwrap_err();
        assert_eq!(json.get_i64(key), Err(format!("Failed to parse '{}' as i64: {}", key, reason)));
    }
    for key in ["name", "n", "big", "half", "none", "list", "map"] {
        let reason = serde_json::from_value::<bool>(value[key].clone()).unwrap_err();
        assert_eq!(json.get_bool(key), Err(format!("Failed to parse '{}' as bool: {}", key, reason)));
    }
}

#[test]
fn fields_are_read_by_a_reader() {
    let json = sample();
    let length = |value: &Json| match value {
        Json::Text(t) => Ok(t.len()),
        _ => Err(s("no text")),
    };
    assert_eq!(json.get_value("name", length), Ok(1));
    assert_eq!(json.get_value("n", length), Err(s("Failed to parse key 'n': no text")));
    assert_eq!(json.get_value("gone", length), Err(s("Key 'gone' not found")));
    assert_eq!(json.get_or_default("name", 9, length), 1);
    assert_eq!(json.get_or_default("n", 9, length), 9);
    assert_eq!(json.get_or_default("gone", 9, length), 9);
}

#[test]
fn later_field_replaces_an_earlier_one() {
    let json = Fields::new().with("a", Json::number(1)).with("b", Json::Null).with("a", Json::number(2)).object();
    assert_eq!(json.get("a"), Some(&Json::Unsigned(2)));
    assert_eq!(json.get("b"), Some(&Json::Null));
}

#[test]
fn moments_are_told_in_milliseconds() {
    assert_eq!(Timestamp { micros: 1999 }.millis(), 1);
    assert_eq!(Timestamp { micros: -1 }.millis(), -1);
    assert_eq!(Timestamp { micros: -1000 }.millis(), -1);
    assert_eq!(Timestamp { micros: -1001 }.millis(), -2);
    assert_eq!(Timestamp { micros: i64::MIN }.millis(), i64::MIN.div_euclid(1000));
    assert_eq!(Timestamp { micros: 0 }.millis(), 0);
}
