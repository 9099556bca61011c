//! What can go wrong between the library and the database.

use vstd::prelude::*;
use vstd::std_specs::convert::FromSpecImpl;
use vstd::string::to_string_from_display_ensures;
use crate::text::chars::owned;

verus! {

/// The error of `tokio_postgres`.
#[verifier::external_type_specification]
#[verifier::external_body]
pub struct ExQueryError(tokio_postgres::Error);

/// The error of `serde_json`.
#[verifier::external_type_specification]
#[verifier::external_body]
pub struct ExJsonError(serde_json::Error);

/// What went wrong.
#[derive(Debug)]
pub enum ByteOrmError {
    Pool(String),
    Query(tokio_postgres::Error),
    MissingField(String),
    NotFound(String),
    Validation(String),
    Serialization(String),
}

impl ByteOrmError {
    /// Whether a text is the message of the error.
    pub open spec fn reads(self, text: Seq<char>) -> bool {
        match self {
            ByteOrmError::Pool(msg) => text == "Pool error: "@ + msg@,
            ByteOrmError::Query(e) => exists|msg: String|
                #[trigger] to_string_from_display_ensures(&e, msg) && text == "Query error: "@
                    + msg@,
            ByteOrmError::MissingField(field) => text == "Missing required field: "@ + field@,
            ByteOrmError::NotFound(msg) => text == "Not found: "@ + msg@,
            ByteOrmError::Validation(msg) => text == "Validation error: "@ + msg@,
            ByteOrmError::Serialization(msg) => text == "Serialization error: "@ + msg@,
        }
    }

    /// The message of the error.
    pub fn message(&self) -> (r: String)
        ensures
            self.reads(r@),
    {
        match self {
            ByteOrmError::Pool(msg) => owned("Pool error: ").concat(msg.as_str()),
            ByteOrmError::Query(e) => {
                let msg: String = e.to_string();
                owned("Query error: ").concat(msg.as_str())
            },
            ByteOrmError::MissingField(field) => owned("Missing required field: ").concat(
                field.as_str(),
            ),
            ByteOrmError::NotFound(msg) => owned("Not found: ").concat(msg.as_str()),
            ByteOrmError::Validation(msg) => owned("Validation error: ").concat(msg.as_str()),
            ByteOrmError::Serialization(msg) => owned("Serialization error: ").concat(
                msg.as_str(),
            ),
        }
    }

    /// The error of the database that is behind this one, where there is one.
    pub fn source(&self) -> (r: Option<&tokio_postgres::Error>)
        ensures
            match self {
                ByteOrmError::Query(e) => r == Some(e),
                _ => r is None,
            },
    {
        match self {
            ByteOrmError::Query(e) => Some(e),
            _ => None,
        }
    }
}

impl From<tokio_postgres::Error> for ByteOrmError {
    fn from(e: tokio_postgres::Error) -> (r: Self) {
        ByteOrmError::Query(e)
    }
}

impl FromSpecImpl<tokio_postgres::Error> for ByteOrmError {
    open spec fn obeys_from_spec() -> bool {
        true
    }

    open spec fn from_spec(e: tokio_postgres::Error) -> Self {
        ByteOrmError::Query(e)
    }
}

impl From<serde_json::Error> for ByteOrmError {
    fn from(e: serde_json::Error) -> (r: Self)
        ensures
            r matches ByteOrmError::Serialization(msg) && to_string_from_display_ensures(&e, msg),
    {
        ByteOrmError::Serialization(e.to_string())
    }
}

impl FromSpecImpl<serde_json::Error> for ByteOrmError {
    open spec fn obeys_from_spec() -> bool {
        false
    }

    open spec fn from_spec(e: serde_json::Error) -> Self {
        ByteOrmError::Serialization(choose|msg: String| to_string_from_display_ensures(&e, msg))
    }
}

} // verus!
