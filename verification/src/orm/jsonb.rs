//! Typed reads of the fields of a JSON column.

use vstd::prelude::*;
use crate::json::{Json, JsonView};
use crate::text::chars::owned;

verus! {

/// What is said of a field that is not there.
pub open spec fn missing_text(key: Seq<char>) -> Seq<char> {
    "Key '"@ + key + "' not found"@
}

/// What is said of a field that is not of the kind that was asked for.
pub open spec fn misfit_text(key: Seq<char>, kind: Seq<char>, reason: Seq<char>) -> Seq<char> {
    "Failed to parse '"@ + key + "' as "@ + kind + ": "@ + reason
}

/// What is said of a number that no `i64` holds.
pub open spec fn not_integer_text(key: Seq<char>) -> Seq<char> {
    "Key '"@ + key + "' is not a valid i64"@
}

/// What is said of a field that a reader refused.
pub open spec fn refused_text(key: Seq<char>, reason: Seq<char>) -> Seq<char> {
    "Failed to parse key '"@ + key + "': "@ + reason
}

/// Says that a field is not there.
fn missing(key: &str) -> (r: String)
    ensures
        r@ == missing_text(key@),
{
    let mut text: String = owned("Key '");
    text.append(key);
    text.append("' not found");
    text
}

/// Says that a field is not of the kind that was asked for.
fn misfit(key: &str, kind: &str, reason: &str) -> (r: String)
    ensures
        r@ == misfit_text(key@, kind@, reason@),
{
    let mut text: String = owned("Failed to parse '");
    text.append(key);
    text.append("' as ");
    text.append(kind);
    text.append(": ");
    text.append(reason);
    text
}

/// Says that a number fits no `i64`.
fn not_integer(key: &str) -> (r: String)
    ensures
        r@ == not_integer_text(key@),
{
    let mut text: String = owned("Key '");
    text.append(key);
    text.append("' is not a valid i64");
    text
}

/// Says that a reader refused a field.
fn refused(key: &str, reason: &str) -> (r: String)
    ensures
        r@ == refused_text(key@, reason@),
{
    let mut text: String = owned("Failed to parse key '");
    text.append(key);
    text.append("': ");
    text.append(reason);
    text
}

/// The text of the error that reading a value as a string ends in.
pub uninterp spec fn string_misfit(value: JsonView) -> Seq<char>;

/// The text of the error that reading a value as an `i64` ends in.
pub uninterp spec fn integer_misfit(value: JsonView) -> Seq<char>;

/// The text of the error that reading a value as a truth value ends in.
pub uninterp spec fn bool_misfit(value: JsonView) -> Seq<char>;

/// `serde_json::from_value` for `String` refuses every value that is no string. Its error is a
/// function of the value, of whose array or object it reads no contents. The notation of a real
/// number that is none stands for null.
#[verifier::external_body]
fn from_value_string(value: &Json) -> (r: Result<String, String>)
    requires
        !(value@ is Text),
    ensures
        r is Err,
        r->Err_0@ == string_misfit(value@),
{
    let value = match value {
        Json::Null => serde_json::Value::Null,
        Json::Bool(b) => serde_json::Value::Bool(*b),
        Json::Unsigned(n) => serde_json::Value::from(*n),
        Json::Negative(n) => serde_json::Value::from(*n),
        Json::Real(text) => serde_json::from_str::<serde_json::Number>(text).map_or(
            serde_json::Value::Null,
            serde_json::Value::Number,
        ),
        Json::Text(text) => serde_json::Value::String(text.clone()),
        Json::Array(_) => serde_json::Value::Array(Vec::new()),
        Json::Object(_) => serde_json::Value::Object(serde_json::Map::new()),
    };
    serde_json::from_value::<String>(value).map_err(|e| e.to_string())
}

/// `serde_json::from_value` for `i64` refuses every value that is no number. Its error is a
/// function of the value, of whose array or object it reads no contents.
#[verifier::external_body]
fn from_value_integer(value: &Json) -> (r: Result<i64, String>)
    requires
        !(value@ is Int),
        !(value@ is Real),
    ensures
        r is Err,
        r->Err_0@ == integer_misfit(value@),
{
    let value = match value {
        Json::Null => serde_json::Value::Null,
        Json::Bool(b) => serde_json::Value::Bool(*b),
        Json::Unsigned(n) => serde_json::Value::from(*n),
        Json::Negative(n) => serde_json::Value::from(*n),
        Json::Real(text) => serde_json::from_str::<serde_json::Number>(text).map_or(
            serde_json::Value::Null,
            serde_json::Value::Number,
        ),
        Json::Text(text) => serde_json::Value::String(text.clone()),
        Json::Array(_) => serde_json::Value::Array(Vec::new()),
        Json::Object(_) => serde_json::Value::Object(serde_json::Map::new()),
    };
    serde_json::from_value::<i64>(value).map_err(|e| e.to_string())
}

/// `serde_json::from_value` for `bool` refuses every value that is no truth value. Its error is
/// a function of the value, of whose array or object it reads no contents. The notation of a
/// real number that is none stands for null.
#[verifier::external_body]
fn from_value_bool(value: &Json) -> (r: Result<bool, String>)
    requires
        !(value@ is Bool),
    ensures
        r is Err,
        r->Err_0@ == bool_misfit(value@),
{
    let value = match value {
        Json::Null => serde_json::Value::Null,
        Json::Bool(b) => serde_json::Value::Bool(*b),
        Json::Unsigned(n) => serde_json::Value::from(*n),
        Json::Negative(n) => serde_json::Value::from(*n),
        Json::Real(text) => serde_json::from_str::<serde_json::Number>(text).map_or(
            serde_json::Value::Null,
            serde_json::Value::Number,
        ),
        Json::Text(text) => serde_json::Value::String(text.clone()),
        Json::Array(_) => serde_json::Value::Array(Vec::new()),
        Json::Object(_) => serde_json::Value::Object(serde_json::Map::new()),
    };
    serde_json::from_value::<bool>(value).map_err(|e| e.to_string())
}

/// What a field reads as under a reader of the caller's.
pub open spec fn reads_as<T, F: FnOnce(&Json) -> Result<T, String>>(
    object: JsonView,
    key: Seq<char>,
    read: F,
    r: Result<T, String>,
) -> bool {
    match object.field(key) {
        None => r matches Err(e) && e@ == missing_text(key),
        Some(value) => exists|field: &Json, outcome: Result<T, String>|
            {
                &&& field@ == value
                &&& #[trigger] call_ensures(read, (field,), outcome)
                &&& match outcome {
                    Ok(t) => r == Ok::<T, String>(t),
                    Err(reason) => r matches Err(e) && e@ == refused_text(key, reason@),
                }
            },
    }
}

/// Typed reads of the fields of a JSON object.
pub trait JsonbExt {
    /// The value that is read.
    spec fn object(&self) -> JsonView;

    /// A field, as a reader takes it.
    fn get_value<T, F: FnOnce(&Json) -> Result<T, String>>(&self, key: &str, read: F) -> (r: Result<
        T,
        String,
    >)
        requires
            forall|field: &Json| call_requires(read, (field,)),
        ensures
            reads_as(self.object(), key@, read, r),
    ;

    /// A field that is a string.
    fn get_string(&self, key: &str) -> (r: Result<String, String>)
        ensures
            match self.object().field(key@) {
                Some(JsonView::Text(text)) => r matches Ok(s) && s@ == text,
                Some(value) => r matches Err(e) && e@ == misfit_text(
                    key@,
                    "string"@,
                    string_misfit(value),
                ),
                None => r matches Err(e) && e@ == missing_text(key@),
            },
    ;

    /// A field that is a whole number and fits an `i64`.
    fn get_i64(&self, key: &str) -> (r: Result<i64, String>)
        ensures
            match self.object().field(key@) {
                Some(JsonView::Int(n)) => if n <= i64::MAX {
                    r matches Ok(i) && i == n
                } else {
                    r matches Err(e) && e@ == not_integer_text(key@)
                },
                Some(JsonView::Real(_)) => r matches Err(e) && e@ == not_integer_text(key@),
                Some(value) => r matches Err(e) && e@ == misfit_text(
                    key@,
                    "i64"@,
                    integer_misfit(value),
                ),
                None => r matches Err(e) && e@ == missing_text(key@),
            },
    ;

    /// A field that is a truth value.
    fn get_bool(&self, key: &str) -> (r: Result<bool, String>)
        ensures
            match self.object().field(key@) {
                Some(JsonView::Bool(b)) => r == Ok::<bool, String>(b),
                Some(value) => r matches Err(e) && e@ == misfit_text(
                    key@,
                    "bool"@,
                    bool_misfit(value),
                ),
                None => r matches Err(e) && e@ == missing_text(key@),
            },
    ;

    /// A field as a reader takes it, or a default where it is not there or refused.
    fn get_or_default<T, F: FnOnce(&Json) -> Result<T, String>>(
        &self,
        key: &str,
        default: T,
        read: F,
    ) -> (r: T)
        requires
            forall|field: &Json| call_requires(read, (field,)),
        ensures
            exists|outcome: Result<T, String>|
                {
                    &&& #[trigger] reads_as(self.object(), key@, read, outcome)
                    &&& r == match outcome {
                        Ok(t) => t,
                        Err(_) => default,
                    }
                },
    ;

    /// Whether there is a field of a name.
    fn has_key(&self, key: &str) -> (r: bool)
        ensures
            r == (self.object().field(key@) is Some),
    ;
}

impl JsonbExt for Json {
    open spec fn object(&self) -> JsonView {
        self@
    }

    fn get_value<T, F: FnOnce(&Json) -> Result<T, String>>(&self, key: &str, read: F) -> (r: Result<
        T,
        String,
    >) {
        match self.get(key) {
            Some(field) => match read(field) {
                Ok(t) => Ok(t),
                Err(reason) => Err(refused(key, reason.as_str())),
            },
            None => Err(missing(key)),
        }
    }

    fn get_string(&self, key: &str) -> (r: Result<String, String>) {
        match self.get(key) {
            Some(Json::Text(text)) => Ok(text.clone()),
            Some(value) => match from_value_string(value) {
                Ok(text) => Ok(text),
                Err(reason) => Err(misfit(key, "string", reason.as_str())),
            },
            None => Err(missing(key)),
        }
    }

    fn get_i64(&self, key: &str) -> (r: Result<i64, String>) {
        match self.get(key) {
            Some(Json::Unsigned(n)) => if *n <= i64::MAX as u64 {
                Ok(*n as i64)
            } else {
                Err(not_integer(key))
            },
            Some(Json::Negative(n)) => Ok(*n),
            Some(Json::Real(_)) => Err(not_integer(key)),
            Some(value) => match from_value_integer(value) {
                Ok(n) => Ok(n),
                Err(reason) => Err(misfit(key, "i64", reason.as_str())),
            },
            None => Err(missing(key)),
        }
    }

    fn get_bool(&self, key: &str) -> (r: Result<bool, String>) {
        match self.get(key) {
            Some(Json::Bool(b)) => Ok(*b),
            Some(value) => match from_value_bool(value) {
                Ok(b) => Ok(b),
                Err(reason) => Err(misfit(key, "bool", reason.as_str())),
            },
            None => Err(missing(key)),
        }
    }

    fn get_or_default<T, F: FnOnce(&Json) -> Result<T, String>>(
        &self,
        key: &str,
        default: T,
        read: F,
    ) -> (r: T) {
        match self.get_value(key, read) {
            Ok(t) => t,
            Err(_) => default,
        }
    }

    fn has_key(&self, key: &str) -> (r: bool) {
        self.get(key).is_some()
    }
}

} // verus!
