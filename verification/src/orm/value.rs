//! What a statement consists of: its text and the values bound to its placeholders.

use vstd::prelude::*;

verus! {

/// A moment in time, in microseconds since the start of 1970 in UTC, which is the
/// resolution at which the database keeps it.
#[derive(Clone, Copy, Debug, PartialEq, Eq, Structural)]
pub struct Timestamp {
    pub micros: i64,
}

impl Timestamp {
    /// The moment in whole milliseconds, rounded towards the past.
    pub open spec fn spec_millis(self) -> int {
        self.micros as int / 1000
    }

    /// The moment in whole milliseconds, rounded towards the past.
    pub fn millis(&self) -> (r: i64)
        ensures
            r == self.spec_millis(),
    {
        let m: i64 = self.micros;
        if m >= 0 {
            m / 1000
        } else {
            -((-(m + 1)) / 1000) - 1
        }
    }
}

/// A value bound to a placeholder.
#[derive(Debug, PartialEq)]
pub enum SqlValue {
    Text(String),
    NullableText(Option<String>),
    Time(Timestamp),
    NullableTime(Option<Timestamp>),
    Bool(bool),
    Int(i32),
    BigInt(i64),
}

impl Clone for SqlValue {
    fn clone(&self) -> (r: Self)
        ensures
            r == *self,
    {
        match self {
            SqlValue::Text(v) => SqlValue::Text(v.clone()),
            SqlValue::NullableText(v) => SqlValue::NullableText(v.clone()),
            SqlValue::Time(v) => SqlValue::Time(*v),
            SqlValue::NullableTime(v) => SqlValue::NullableTime(*v),
            SqlValue::Bool(v) => SqlValue::Bool(*v),
            SqlValue::Int(v) => SqlValue::Int(*v),
            SqlValue::BigInt(v) => SqlValue::BigInt(*v),
        }
    }
}

/// A statement: its text, and the values for its placeholders `$1`, `$2` and so on.
#[derive(Debug, PartialEq)]
pub struct Statement {
    pub sql: String,
    pub params: Vec<SqlValue>,
}

impl Statement {
    /// Whether the statement has this text and binds these values.
    pub open spec fn says(self, sql: Seq<char>, params: Seq<SqlValue>) -> bool {
        self.sql@ == sql && self.params@ == params
    }
}

/// Binds each text as a value.
pub fn text_values(values: Vec<String>) -> (r: Vec<SqlValue>)
    ensures
        r@ == values@.map_values(|v: String| SqlValue::Text(v)),
{
    let mut out: Vec<SqlValue> = Vec::new();
    for v in it: values
        invariant
            it.seq() == values@,
            out@ == values@.take(it.index()).map_values(|v: String| SqlValue::Text(v)),
    {
        out.push(SqlValue::Text(v));
    }
    assert(values@.take(values@.len() as int) =~= values@);
    out
}

/// Binds each text, or its absence, as a value.
pub fn nullable_text_values(values: Vec<Option<String>>) -> (r: Vec<SqlValue>)
    ensures
        r@ == values@.map_values(|v: Option<String>| SqlValue::NullableText(v)),
{
    let mut out: Vec<SqlValue> = Vec::new();
    for v in it: values
        invariant
            it.seq() == values@,
            out@ == values@.take(it.index()).map_values(
                |v: Option<String>| SqlValue::NullableText(v),
            ),
    {
        out.push(SqlValue::NullableText(v));
    }
    assert(values@.take(values@.len() as int) =~= values@);
    out
}

/// Binds each moment as a value.
pub fn time_values(values: Vec<Timestamp>) -> (r: Vec<SqlValue>)
    ensures
        r@ == values@.map_values(|v: Timestamp| SqlValue::Time(v)),
{
    let mut out: Vec<SqlValue> = Vec::new();
    for v in it: values
        invariant
            it.seq() == values@,
            out@ == values@.take(it.index()).map_values(|v: Timestamp| SqlValue::Time(v)),
    {
        out.push(SqlValue::Time(v));
    }
    assert(values@.take(values@.len() as int) =~= values@);
    out
}

/// Binds each moment, or its absence, as a value.
pub fn nullable_time_values(values: Vec<Option<Timestamp>>) -> (r: Vec<SqlValue>)
    ensures
        r@ == values@.map_values(|v: Option<Timestamp>| SqlValue::NullableTime(v)),
{
    let mut out: Vec<SqlValue> = Vec::new();
    for v in it: values
        invariant
            it.seq() == values@,
            out@ == values@.take(it.index()).map_values(
                |v: Option<Timestamp>| SqlValue::NullableTime(v),
            ),
    {
        out.push(SqlValue::NullableTime(v));
    }
    assert(values@.take(values@.len() as int) =~= values@);
    out
}

/// Binds each truth value as a value.
pub fn bool_values(values: Vec<bool>) -> (r: Vec<SqlValue>)
    ensures
        r@ == values@.map_values(|v: bool| SqlValue::Bool(v)),
{
    let mut out: Vec<SqlValue> = Vec::new();
    for v in it: values
        invariant
            it.seq() == values@,
            out@ == values@.take(it.index()).map_values(|v: bool| SqlValue::Bool(v)),
    {
        out.push(SqlValue::Bool(v));
    }
    assert(values@.take(values@.len() as int) =~= values@);
    out
}

/// Binds each integer as a value.
pub fn int_values(values: Vec<i32>) -> (r: Vec<SqlValue>)
    ensures
        r@ == values@.map_values(|v: i32| SqlValue::Int(v)),
{
    let mut out: Vec<SqlValue> = Vec::new();
    for v in it: values
        invariant
            it.seq() == values@,
            out@ == values@.take(it.index()).map_values(|v: i32| SqlValue::Int(v)),
    {
        out.push(SqlValue::Int(v));
    }
    assert(values@.take(values@.len() as int) =~= values@);
    out
}

} // verus!
