//! How failures are answered, what the service is set up with, and what is shown of it.

use vstd::prelude::*;
use vstd::utf8::{decode_utf8, encode_utf8};
use crate::config::{Config, ConfigError, Variables};
use crate::error::{ApiError, AppError, FieldError, ValidationError};
use crate::gateway::events::identify::IdentifyError;
use crate::json::JsonView;
use crate::laws::lookup::{lemma_found_after, lemma_found_in_nothing};
use crate::laws::texts::{all_digits, lemma_unsigned_read, said, unsigned_digits};
use crate::orm::change::BuildError;
use crate::orm::error::ByteOrmError;
use crate::orm::jsonb::{misfit_text, missing_text, not_integer_text, refused_text};
use crate::text::number::{read_unsigned, NumberError};
use crate::text::search::{first_occurrence, occurs, occurs_at};
use crate::tui::environment::{
    can_be_cut, is_sensitive, masked, shown_variables, shows_variable, value_or_unset,
};
use crate::tui::probe::{down, port_of, up};
use crate::tui::snapshot::ServiceStatus;

verus! {

broadcast use {lemma_found_after, lemma_found_in_nothing};

/// Whether a JSON value is an object with no fields but one under each of some names.
pub open spec fn only_named(json: JsonView, names: Seq<Seq<char>>) -> bool {
    &&& json is Object
    &&& forall|name: Seq<char>| !names.contains(name) ==> #[trigger] json.field(name) is None
}

/// Whether a JSON value says what is wrong with a field.
pub open spec fn tells_field(json: JsonView, error: FieldError) -> bool {
    &&& only_named(json, seq!["code"@, "path"@])
    &&& json.field("code"@) == Some(JsonView::Text(error.code@))
    &&& json.field("path"@) == Some(JsonView::Text(error.path@))
}

/// Whether a JSON value is the list of what is wrong with fields, one by one and in their order.
pub open spec fn tells_fields(json: Option<JsonView>, errors: Seq<FieldError>) -> bool {
    &&& json is Some
    &&& json->0 is Array
    &&& json->0->Array_0.len() == errors.len()
    &&& forall|i: int|
        0 <= i < errors.len() ==> tells_field(#[trigger] json->0->Array_0[i], errors[i])
}

/// Whether a JSON value says an optional text, and nothing where there is none.
pub open spec fn tells_optional(json: Option<JsonView>, text: Option<String>) -> bool {
    match text {
        Some(text) => json == Some(JsonView::Text(text@)),
        None => json == Some(JsonView::Null),
    }
}

/// The names under which errors are told are all different.
proof fn lemma_error_names()
    ensures
        "code"@ != "path"@,
        "code"@ != "message"@,
        "code"@ != "errors"@,
        "path"@ != "message"@,
        "message"@ != "retryAfter"@,
{
    reveal_strlit("code");
    reveal_strlit("path");
    reveal_strlit("message");
    reveal_strlit("errors");
    reveal_strlit("retryAfter");
    assert("code"@[0] != "path"@[0]);
    assert("code"@.len() == 4);
    assert("path"@.len() == 4);
    assert("message"@.len() == 7);
    assert("errors"@.len() == 6);
    assert("retryAfter"@.len() == 10);
}

/// What is wrong with a field is told by its code and its path.
pub proof fn lemma_field_told(error: FieldError)
    ensures
        tells_field(error.spec_json(), error),
{
    lemma_error_names();
    let names = seq!["code"@, "path"@];
    assert(names[0] == "code"@ && names[1] == "path"@);
}

/// An error is told by its code, its path and its message, and what is wrong with a request by
/// its code and each of its errors.
pub proof fn lemma_errors_told(api: ApiError, validation: ValidationError)
    ensures
        only_named(api.spec_json(), seq!["code"@, "path"@, "message"@]),
        api.spec_json().field("code"@) == Some(JsonView::Text(api.code@)),
        tells_optional(api.spec_json().field("path"@), api.path),
        tells_optional(api.spec_json().field("message"@), api.message),
        only_named(validation.spec_json(), seq!["code"@, "errors"@]),
        validation.spec_json().field("code"@) == Some(JsonView::Text(validation.code@)),
        tells_fields(validation.spec_json().field("errors"@), validation.errors@),
{
    lemma_error_names();
    let a = seq!["code"@, "path"@, "message"@];
    let v = seq!["code"@, "errors"@];
    assert(a[0] == "code"@ && a[1] == "path"@ && a[2] == "message"@);
    assert(v[0] == "code"@ && v[1] == "errors"@);
    assert forall|i: int| 0 <= i < validation.errors@.len() implies tells_field(
        #[trigger] validation.spec_json().field("errors"@)->0->Array_0[i],
        validation.errors@[i],
    ) by {
        lemma_field_told(validation.errors@[i]);
    }
}

/// Whether an answer has a status and a body of a code and nothing else.
pub open spec fn answers_code(error: AppError, status: u16, code: Seq<char>) -> bool {
    &&& error.status() == status
    &&& only_named(error.body(), seq!["code"@])
    &&& error.body().field("code"@) == Some(JsonView::Text(code))
}

/// Whether an answer has a status and a body of a code and a message.
pub open spec fn answers_message(
    error: AppError,
    status: u16,
    code: Seq<char>,
    message: Seq<char>,
) -> bool {
    &&& error.status() == status
    &&& only_named(error.body(), seq!["code"@, "message"@])
    &&& error.body().field("code"@) == Some(JsonView::Text(code))
    &&& error.body().field("message"@) == Some(JsonView::Text(message))
}

/// Every failure is answered with its own status, and the body tells what is known of it.
pub proof fn lemma_failures_answered(error: AppError)
    ensures
        match error {
            AppError::Unauthorized => answers_code(error, 401, "UNAUTHORIZED"@),
            AppError::Forbidden(message) => answers_message(error, 403, "FORBIDDEN"@, message@),
            AppError::NotFound(code) => answers_code(error, 404, code@),
            AppError::BadRequest(message) => answers_message(error, 400, "BAD_REQUEST"@, message@),
            AppError::Conflict(api) => error.status() == 409 && error.body() == api.spec_json(),
            AppError::ValidationFailed(errors) => {
                &&& error.status() == 400
                &&& only_named(error.body(), seq!["code"@, "errors"@])
                &&& error.body().field("code"@) == Some(JsonView::Text("VALIDATION_FAILED"@))
                &&& tells_fields(error.body().field("errors"@), errors@)
            },
            AppError::InternalServerError(message) => answers_message(
                error,
                500,
                "INTERNAL_SERVER_ERROR"@,
                message@,
            ),
            AppError::TooManyRequests { message, retry_after } => {
                &&& error.status() == 429
                &&& only_named(error.body(), seq!["message"@, "retryAfter"@])
                &&& error.body().field("message"@) == Some(JsonView::Text(message@))
                &&& error.body().field("retryAfter"@) == Some(JsonView::Int(retry_after as int))
            },
        },
{
    lemma_error_names();
    let a = seq!["code"@];
    let b = seq!["code"@, "message"@];
    let c = seq!["code"@, "errors"@];
    let d = seq!["message"@, "retryAfter"@];
    assert(a[0] == "code"@ && b[0] == "code"@ && b[1] == "message"@);
    assert(c[0] == "code"@ && c[1] == "errors"@ && d[0] == "message"@ && d[1] == "retryAfter"@);
    if let AppError::ValidationFailed(errors) = error {
        assert forall|i: int| 0 <= i < errors@.len() implies tells_field(
            #[trigger] error.body().field("errors"@)->0->Array_0[i],
            errors@[i],
        ) by {
            lemma_field_told(errors@[i]);
        }
    }
}

/// Whether a number is the one that a variable says, or a default where it is not set.
pub open spec fn numbers(value: Option<String>, default: nat, number: int) -> bool {
    match value {
        Some(text) => unsigned_digits(text@).len() > 0 && all_digits(unsigned_digits(text@))
            && said(unsigned_digits(text@)) == number,
        None => number == default,
    }
}

/// Whether a flag is set by a variable that is `1`, and by nothing else.
pub open spec fn flags(value: Option<String>, flag: bool) -> bool {
    flag <==> value is Some && value->0@ == "1"@
}

/// The numbers that stand in for variables that are not set.
proof fn lemma_defaults(max: nat)
    requires
        max >= 65535,
    ensures
        read_unsigned("3000"@, max) == Ok::<nat, NumberError>(3000),
        read_unsigned("100"@, max) == Ok::<nat, NumberError>(100),
        max >= 25000000 ==> read_unsigned("10000000"@, max) == Ok::<nat, NumberError>(10000000),
        max >= 25000000 ==> read_unsigned("25000000"@, max) == Ok::<nat, NumberError>(25000000),
        "0"@ != "1"@,
{
    reveal_strlit("3000");
    reveal_strlit("100");
    reveal_strlit("10000000");
    reveal_strlit("25000000");
    reveal_strlit("0");
    reveal_strlit("1");
    assert("0"@[0] != "1"@[0]);
    lemma_unsigned_read("3000"@, max);
    lemma_unsigned_read("100"@, max);
    lemma_unsigned_read("10000000"@, max);
    lemma_unsigned_read("25000000"@, max);
    let a = "3000"@;
    let b = "100"@;
    let c = "10000000"@;
    let d = "25000000"@;
    assert(said(a) == 3000) by {
        reveal_with_fuel(said, 5);
    }
    assert(said(b) == 100) by {
        reveal_with_fuel(said, 4);
    }
    assert(said(c) == 10000000) by {
        reveal_with_fuel(said, 9);
    }
    assert(said(d) == 25000000) by {
        reveal_with_fuel(said, 9);
    }
}

/// A set-up that the variables describe has each of its values from the variable of that name,
/// or the default where that is not set.
pub proof fn lemma_set_up_by_variables(variables: Variables, config: Config)
    requires
        variables.describe(config),
    ensures
        variables.database_url is Ok && variables.database_url->Ok_0@ == config.database_url@,
        variables.token_secret is Ok && variables.token_secret->Ok_0@ == config.token_secret@,
        match variables.redis_url {
            Some(url) => config.redis_url@ == url@,
            None => config.redis_url@ == "redis://127.0.0.1"@,
        },
        numbers(variables.port, 3000, config.port as int),
        numbers(variables.user_guild_limit, 100, config.user_guild_limit as int),
        numbers(variables.max_avatar_size, 10000000, config.max_avatar_size as int),
        numbers(variables.max_banner_size, 25000000, config.max_banner_size as int),
        flags(variables.registration_closed, config.registration_closed),
        flags(variables.verbose, config.verbose),
{
    lemma_defaults(u16::MAX as nat);
    lemma_defaults(u32::MAX as nat);
    lemma_defaults(usize::MAX as nat);
    if let Some(text) = variables.port {
        lemma_unsigned_read(text@, u16::MAX as nat);
    }
    if let Some(text) = variables.user_guild_limit {
        lemma_unsigned_read(text@, u32::MAX as nat);
    }
    if let Some(text) = variables.max_avatar_size {
        lemma_unsigned_read(text@, usize::MAX as nat);
    }
    if let Some(text) = variables.max_banner_size {
        lemma_unsigned_read(text@, usize::MAX as nat);
    }
}

/// Whether a variable is not set, or says a number up to a limit.
pub open spec fn fits(value: Option<String>, max: nat) -> bool {
    value is Some ==> unsigned_digits(value->0@).len() > 0 && all_digits(
        unsigned_digits(value->0@),
    ) && said(unsigned_digits(value->0@)) <= max
}

/// Whether the error that is told is why a variable is not a number that fits.
pub open spec fn blames(error: Option<ConfigError>, value: Option<String>, max: nat) -> bool {
    &&& value is Some
    &&& read_unsigned(value->0@, max) is Err
    &&& error == Some(ConfigError::NotANumber(read_unsigned(value->0@, max)->Err_0))
}

/// The service can be set up exactly where the database and the secret are given and every
/// number that is given is one that fits. Otherwise the first of them that is wrong is told, in the
/// order of database, port, secret, guilds, avatar and banner.
pub proof fn lemma_when_set_up(variables: Variables)
    ensures
        variables.error() is None <==> {
            &&& variables.database_url is Ok
            &&& variables.token_secret is Ok
            &&& fits(variables.port, u16::MAX as nat)
            &&& fits(variables.user_guild_limit, u32::MAX as nat)
            &&& fits(variables.max_avatar_size, usize::MAX as nat)
            &&& fits(variables.max_banner_size, usize::MAX as nat)
        },
        variables.database_url is Err ==> variables.error() == Some(
            ConfigError::Unread(variables.database_url->Err_0),
        ),
        variables.database_url is Ok && fits(variables.port, u16::MAX as nat)
            && variables.token_secret is Err ==> variables.error() == Some(
            ConfigError::Unread(variables.token_secret->Err_0),
        ),
        ({
            let port = fits(variables.port, u16::MAX as nat);
            let guilds = fits(variables.user_guild_limit, u32::MAX as nat);
            let avatar = fits(variables.max_avatar_size, usize::MAX as nat);
            let banner = fits(variables.max_banner_size, usize::MAX as nat);
            let given = variables.database_url is Ok && port && variables.token_secret is Ok;
            let error = variables.error();
            &&& variables.database_url is Ok && !port ==> blames(
                error,
                variables.port,
                u16::MAX as nat,
            )
            &&& given && !guilds ==> blames(error, variables.user_guild_limit, u32::MAX as nat)
            &&& given && guilds && !avatar ==> blames(
                error,
                variables.max_avatar_size,
                usize::MAX as nat,
            )
            &&& given && guilds && avatar && !banner ==> blames(
                error,
                variables.max_banner_size,
                usize::MAX as nat,
            )
        }),
{
    lemma_defaults(u16::MAX as nat);
    lemma_defaults(u32::MAX as nat);
    lemma_defaults(usize::MAX as nat);
    if let Some(text) = variables.port {
        lemma_unsigned_read(text@, u16::MAX as nat);
    }
    if let Some(text) = variables.user_guild_limit {
        lemma_unsigned_read(text@, u32::MAX as nat);
    }
    if let Some(text) = variables.max_avatar_size {
        lemma_unsigned_read(text@, usize::MAX as nat);
    }
    if let Some(text) = variables.max_banner_size {
        lemma_unsigned_read(text@, usize::MAX as nat);
    }
}

/// The dashboard looks at the port that its variable says, and at 3000 where that says none.
pub proof fn lemma_port_looked_at(value: Option<String>)
    ensures
        fits(value, u16::MAX as nat) ==> numbers(value, 3000, port_of(value) as int),
        !fits(value, u16::MAX as nat) ==> port_of(value) == 3000,
{
    if let Some(text) = value {
        lemma_unsigned_read(text@, u16::MAX as nat);
    }
}

/// A variable is secret where its name holds one of the words for secrets, and only there.
pub proof fn lemma_what_is_secret(key: Seq<char>)
    ensures
        is_sensitive(key) <==> {
            ||| occurs(key, "TOKEN"@)
            ||| occurs(key, "SECRET"@)
            ||| occurs(key, "PASSWORD"@)
            ||| occurs(key, "DATABASE_URL"@)
        },
{
}

/// What is shown of a value. One that is not secret is shown as it is. Of one that is secret and
/// has more than eight bytes, the text of the first four and the last four is shown, with three
/// dots between; nothing of any other.
pub proof fn lemma_what_is_shown(key: Seq<char>, value: Seq<char>)
    ensures
        !is_sensitive(key) ==> masked(key, value) == value,
        is_sensitive(key) && encode_utf8(value).len() <= 8 ==> masked(key, value) == "***"@,
        is_sensitive(key) && encode_utf8(value).len() > 8 ==> masked(key, value) == decode_utf8(
            encode_utf8(value).subrange(0, 4),
        ) + "..."@ + decode_utf8(
            encode_utf8(value).subrange(
                encode_utf8(value).len() - 4,
                encode_utf8(value).len() as int,
            ),
        ),
        encode_utf8(value).len() <= 8 ==> can_be_cut(value),
{
    let bytes = encode_utf8(value);
    if bytes.len() > 8 {
        assert(bytes.take(4) =~= bytes.subrange(0, 4));
        assert(bytes.skip(bytes.len() - 4) =~= bytes.subrange(
            bytes.len() - 4,
            bytes.len() as int,
        ));
    }
}

/// The variables that are secret among those that are shown, and how many are shown.
pub proof fn lemma_shown_secrets()
    ensures
        shown_variables().len() == 10,
        shown_variables().contains("DATABASE_URL"@) && is_sensitive("DATABASE_URL"@),
        shown_variables().contains("TOKEN_SECRET"@) && is_sensitive("TOKEN_SECRET"@),
{
    assert(shown_variables()[0] == "DATABASE_URL"@);
    assert(shown_variables()[5] == "TOKEN_SECRET"@);
    assert("DATABASE_URL"@.subrange(0, "DATABASE_URL"@.len() as int) =~= "DATABASE_URL"@);
    assert(occurs_at("DATABASE_URL"@, "DATABASE_URL"@, 0));
    reveal_strlit("TOKEN_SECRET");
    reveal_strlit("TOKEN");
    assert("TOKEN_SECRET"@.subrange(0, 5) =~= "TOKEN"@);
    assert(occurs_at("TOKEN_SECRET"@, "TOKEN"@, 0));
}

/// What is said of a statement that is refused names the column that it is about.
pub proof fn lemma_refusals_worded(column: String)
    ensures
        BuildError::NoFieldsToUpdate.words() == "No fields to update"@,
        BuildError::DeleteWithoutWhere.words() == "DELETE without WHERE clause is not allowed"@,
        BuildError::MissingPrimaryKey(column).words() == "Missing primary key field: "@ + column@,
        BuildError::MissingField(column).words() == "Missing required field: "@ + column@,
        BuildError::RecordExists.words() == "Record already exists"@,
        BuildError::RecordVanished.words() == "Record should exist after find_or_create"@,
{
}

/// What is said of a field of a JSON column that cannot be read names the field, and tells what
/// is wrong.
pub proof fn lemma_fields_worded(key: Seq<char>, kind: Seq<char>, reason: Seq<char>)
    ensures
        missing_text(key) == "Key '"@ + key + "' not found"@,
        misfit_text(key, kind, reason) == "Failed to parse '"@ + key + "' as "@ + kind + ": "@
            + reason,
        not_integer_text(key) == "Key '"@ + key + "' is not a valid i64"@,
        refused_text(key, reason) == "Failed to parse key '"@ + key + "': "@ + reason,
{
}

/// What is said of a text that is not a number that fits.
pub proof fn lemma_numbers_worded(unread: String, error: NumberError)
    ensures
        NumberError::Empty.words() == "cannot parse integer from empty string"@,
        NumberError::InvalidDigit.words() == "invalid digit found in string"@,
        NumberError::TooLarge.words() == "number too large to fit in target type"@,
        NumberError::TooSmall.words() == "number too small to fit in target type"@,
        ConfigError::Unread(unread).words() == unread@,
        ConfigError::NotANumber(error).words() == error.words(),
{
}

/// Why a client could not be identified is said in words, and an error of the database in its
/// own.
pub proof fn lemma_strangers_worded(e: String)
    ensures
        IdentifyError::NoToken.words() == "No token provided"@,
        IdentifyError::InvalidToken.words() == "Invalid token"@,
        IdentifyError::AccountNotFound.words() == "Account not found"@,
        IdentifyError::UserNotFound.words() == "User not found"@,
        IdentifyError::SettingsNotFound.words() == "Account settings not found"@,
        IdentifyError::Database(e).words() == e@,
{
}

/// An error of the database layer says its kind and its message.
pub proof fn lemma_database_errors_worded(message: String, text: Seq<char>)
    ensures
        ByteOrmError::Pool(message).reads(text) <==> text == "Pool error: "@ + message@,
        ByteOrmError::MissingField(message).reads(text) <==> text == "Missing required field: "@
            + message@,
        ByteOrmError::NotFound(message).reads(text) <==> text == "Not found: "@ + message@,
        ByteOrmError::Validation(message).reads(text) <==> text == "Validation error: "@ + message@,
        ByteOrmError::Serialization(message).reads(text) <==> text == "Serialization error: "@
            + message@,
{
}

/// A status that says that a service is up says that it is well, and one that says that it is
/// not never does; each tells the service by its name, and the detail.
pub proof fn lemma_status_tells(
    status: ServiceStatus,
    name: Seq<char>,
    state: Seq<char>,
    detail: Seq<char>,
)
    ensures
        up(status, name, detail) ==> status.ok && status.state@ == "ok"@,
        down(status, name, state, detail) ==> !status.ok && status.state@ == state,
        up(status, name, detail) || down(status, name, state, detail) ==> status.name@ == name
            && status.detail@ == detail,
{
}

/// The row of a variable has its name, and what is shown of its value, or of the words for a
/// value that is not set; one that is not secret is shown as it is.
pub proof fn lemma_variable_shown(row: (String, String), key: Seq<char>, value: Option<String>)
    requires
        shows_variable(row, key, value_or_unset(value)),
    ensures
        row.0@ == key,
        !is_sensitive(key) && value is Some ==> row.1@ == value->0@,
        !is_sensitive(key) && value is None ==> row.1@ == "<unset>"@,
        is_sensitive(key) && value is Some && encode_utf8(value->0@).len() <= 8 ==> row.1@
            == "***"@,
{
}

/// The first place at which a text holds another cuts it in two, and no place before does.
pub proof fn lemma_first_place_of(hay: Seq<char>, needle: Seq<char>, i: int, head: Seq<char>)
    requires
        first_occurrence(hay, needle, i),
    ensures
        0 <= i <= hay.len(),
        hay == hay.take(i) + needle + hay.skip(i + needle.len()),
        head.len() < i ==> !occurs_at(hay, needle, head.len() as int),
{
    assert(hay =~= hay.take(i) + hay.subrange(i, i + needle.len()) + hay.skip(i + needle.len()));
}

} // verus!
