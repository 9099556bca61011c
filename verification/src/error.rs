//! How a request that failed is answered.

use vstd::prelude::*;
use vstd::std_specs::convert::FromSpecImpl;
use vstd::string::to_string_from_display_ensures;
use crate::json::{items, lemma_items_push, no_fields, Fields, Json, JsonView};

verus! {

/// An error that a client is told of.
#[derive(Debug, PartialEq)]
pub struct ApiError {
    pub code: String,
    pub path: Option<String>,
    pub message: Option<String>,
}

/// What is wrong with a request.
#[derive(Debug, PartialEq)]
pub struct ValidationError {
    pub code: String,
    pub errors: Vec<FieldError>,
}

/// What is wrong with a field of a request.
#[derive(Debug, PartialEq)]
pub struct FieldError {
    pub code: String,
    pub path: String,
}

/// Why a request failed.
#[derive(Debug, PartialEq)]
pub enum AppError {
    Unauthorized,
    Forbidden(String),
    NotFound(String),
    BadRequest(String),
    Conflict(ApiError),
    ValidationFailed(Vec<FieldError>),
    InternalServerError(String),
    TooManyRequests { message: String, retry_after: i64 },
}

impl ApiError {
    /// What it looks like in JSON.
    pub open spec fn spec_json(self) -> JsonView {
        JsonView::Object(
            no_fields()
                .push(("code"@, JsonView::Text(self.code@)))
                .push(("path"@, JsonView::optional_text(self.path)))
                .push(("message"@, JsonView::optional_text(self.message))),
        )
    }

    /// Writes it in JSON.
    pub fn to_json(&self) -> (r: Json)
        ensures
            r@ == self.spec_json(),
    {
        Fields::new()
            .with("code", Json::text(self.code.as_str()))
            .with("path", Json::optional_text(&self.path))
            .with("message", Json::optional_text(&self.message))
            .object()
    }
}

impl FieldError {
    /// What it looks like in JSON.
    pub open spec fn spec_json(self) -> JsonView {
        JsonView::Object(
            no_fields()
                .push(("code"@, JsonView::Text(self.code@)))
                .push(("path"@, JsonView::Text(self.path@))),
        )
    }

    /// Writes it in JSON.
    pub fn to_json(&self) -> (r: Json)
        ensures
            r@ == self.spec_json(),
    {
        Fields::new()
            .with("code", Json::text(self.code.as_str()))
            .with("path", Json::text(self.path.as_str()))
            .object()
    }
}

/// What errors of fields look like in JSON.
pub open spec fn field_errors_json(errors: Seq<FieldError>) -> JsonView {
    JsonView::Array(errors.map_values(|e: FieldError| e.spec_json()))
}

/// Writes errors of fields in JSON.
fn field_errors_to_json(errors: &Vec<FieldError>) -> (r: Json)
    ensures
        r@ == field_errors_json(errors@),
{
    let mut values: Vec<Json> = Vec::new();
    let mut i: usize = 0;
    while i < errors.len()
        invariant
            i <= errors@.len(),
            items(values@) == errors@.take(i as int).map_values(|e: FieldError| e.spec_json()),
        decreases errors@.len() - i,
    {
        let ghost before = values@;
        values.push(errors[i].to_json());
        proof {
            lemma_items_push(before, values@.last());
            assert(errors@.take(i + 1).map_values(|e: FieldError| e.spec_json()) =~= errors@.take(
                i as int,
            ).map_values(|e: FieldError| e.spec_json()).push(errors@[i as int].spec_json()));
        }
        i = i + 1;
    }
    assert(errors@.take(i as int) =~= errors@);
    Json::Array(values)
}

impl ValidationError {
    /// What it looks like in JSON.
    pub open spec fn spec_json(self) -> JsonView {
        JsonView::Object(
            no_fields()
                .push(("code"@, JsonView::Text(self.code@)))
                .push(("errors"@, field_errors_json(self.errors@))),
        )
    }

    /// Writes it in JSON.
    pub fn to_json(&self) -> (r: Json)
        ensures
            r@ == self.spec_json(),
    {
        Fields::new()
            .with("code", Json::text(self.code.as_str()))
            .with("errors", field_errors_to_json(&self.errors))
            .object()
    }
}

/// A code and a message in JSON.
pub open spec fn coded(code: Seq<char>, message: Seq<char>) -> JsonView {
    JsonView::Object(
        no_fields().push(("code"@, JsonView::Text(code))).push(
            ("message"@, JsonView::Text(message)),
        ),
    )
}

/// Writes a code and a message in JSON.
fn coded_json(code: &str, message: &str) -> (r: Json)
    ensures
        r@ == coded(code@, message@),
{
    Fields::new().with("code", Json::text(code)).with("message", Json::text(message)).object()
}

impl AppError {
    /// The HTTP status of the answer.
    pub open spec fn status(self) -> u16 {
        match self {
            AppError::Unauthorized => 401,
            AppError::Forbidden(_) => 403,
            AppError::NotFound(_) => 404,
            AppError::BadRequest(_) => 400,
            AppError::Conflict(_) => 409,
            AppError::ValidationFailed(_) => 400,
            AppError::InternalServerError(_) => 500,
            AppError::TooManyRequests { .. } => 429,
        }
    }

    /// The body of the answer.
    pub open spec fn body(self) -> JsonView {
        match self {
            AppError::Unauthorized => JsonView::Object(
                no_fields().push(("code"@, JsonView::Text("UNAUTHORIZED"@))),
            ),
            AppError::Forbidden(msg) => coded("FORBIDDEN"@, msg@),
            AppError::NotFound(code) => JsonView::Object(
                no_fields().push(("code"@, JsonView::Text(code@))),
            ),
            AppError::BadRequest(msg) => coded("BAD_REQUEST"@, msg@),
            AppError::Conflict(err) => err.spec_json(),
            AppError::ValidationFailed(errors) => JsonView::Object(
                no_fields().push(("code"@, JsonView::Text("VALIDATION_FAILED"@))).push(
                    ("errors"@, field_errors_json(errors@)),
                ),
            ),
            AppError::InternalServerError(msg) => coded("INTERNAL_SERVER_ERROR"@, msg@),
            AppError::TooManyRequests { message, retry_after } => JsonView::Object(
                no_fields().push(("message"@, JsonView::Text(message@))).push(
                    ("retryAfter"@, JsonView::Int(retry_after as int)),
                ),
            ),
        }
    }

    /// The error for something that went wrong inside, in the words for it.
    pub fn internal(message: String) -> (r: Self)
        ensures
            r == AppError::InternalServerError(message),
    {
        AppError::InternalServerError(message)
    }

    /// The answer: its HTTP status and its body.
    pub fn into_response(self) -> (r: (u16, Json))
        ensures
            r.0 == self.status(),
            r.1@ == self.body(),
    {
        match self {
            AppError::Unauthorized => (
                401,
                Fields::new().with("code", Json::text("UNAUTHORIZED")).object(),
            ),
            AppError::Forbidden(msg) => (403, coded_json("FORBIDDEN", msg.as_str())),
            AppError::NotFound(code) => (
                404,
                Fields::new().with("code", Json::text(code.as_str())).object(),
            ),
            AppError::BadRequest(msg) => (400, coded_json("BAD_REQUEST", msg.as_str())),
            AppError::Conflict(err) => (409, err.to_json()),
            AppError::ValidationFailed(errors) => (
                400,
                Fields::new()
                    .with("code", Json::text("VALIDATION_FAILED"))
                    .with("errors", field_errors_to_json(&errors))
                    .object(),
            ),
            AppError::InternalServerError(msg) => (
                500,
                coded_json("INTERNAL_SERVER_ERROR", msg.as_str()),
            ),
            AppError::TooManyRequests { message, retry_after } => (
                429,
                Fields::new()
                    .with("message", Json::text(message.as_str()))
                    .with("retryAfter", Json::number(retry_after))
                    .object(),
            ),
        }
    }
}

/// The error of `anyhow`.
#[verifier::external_type_specification]
#[verifier::external_body]
pub struct ExAnyhowError(anyhow::Error);

/// The error of `redis`.
#[verifier::external_type_specification]
#[verifier::external_body]
pub struct ExRedisError(redis::RedisError);

impl From<anyhow::Error> for AppError {
    fn from(err: anyhow::Error) -> (r: Self)
        ensures
            r matches AppError::InternalServerError(msg) && to_string_from_display_ensures(
                &err,
                msg,
            ),
    {
        AppError::InternalServerError(err.to_string())
    }
}

impl FromSpecImpl<anyhow::Error> for AppError {
    open spec fn obeys_from_spec() -> bool {
        false
    }

    open spec fn from_spec(err: anyhow::Error) -> Self {
        AppError::InternalServerError(choose|msg: String| to_string_from_display_ensures(&err, msg))
    }
}

impl From<redis::RedisError> for AppError {
    fn from(err: redis::RedisError) -> (r: Self)
        ensures
            r matches AppError::InternalServerError(msg) && to_string_from_display_ensures(
                &err,
                msg,
            ),
    {
        AppError::InternalServerError(err.to_string())
    }
}

impl FromSpecImpl<redis::RedisError> for AppError {
    open spec fn obeys_from_spec() -> bool {
        false
    }

    open spec fn from_spec(err: redis::RedisError) -> Self {
        AppError::InternalServerError(choose|msg: String| to_string_from_display_ensures(&err, msg))
    }
}

} // verus!
