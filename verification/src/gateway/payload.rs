//! The messages of the gateway.

use vstd::prelude::*;
use crate::json::{no_fields, Fields, Json, JsonView};
use crate::text::chars::owned;

verus! {

/// A message over a socket: its kind, its data, and, where it reports an event, the number and
/// the name of the event.
#[derive(Debug, PartialEq)]
pub struct Payload {
    pub op: i32,
    pub d: Option<Json>,
    pub s: Option<i32>,
    pub t: Option<String>,
}

/// What a [`Payload`] says.
pub ghost struct PayloadView {
    pub op: i32,
    pub d: Option<JsonView>,
    pub s: Option<i32>,
    pub t: Option<Seq<char>>,
}

impl PayloadView {
    /// A message of a kind, with data.
    pub open spec fn with_data(op: i32, d: JsonView) -> PayloadView {
        PayloadView { op, d: Some(d), s: None, t: None }
    }

    /// The report of an event.
    pub open spec fn dispatch(event: Seq<char>, d: JsonView) -> PayloadView {
        PayloadView { op: 0, d: Some(d), s: None, t: Some(event) }
    }

    /// What the message looks like in JSON: what it does not have is left out.
    pub open spec fn json(self) -> JsonView {
        let fields = no_fields().push(("op"@, JsonView::Int(self.op as int)));
        let fields = match self.d {
            Some(d) => fields.push(("d"@, d)),
            None => fields,
        };
        let fields = match self.s {
            Some(s) => fields.push(("s"@, JsonView::Int(s as int))),
            None => fields,
        };
        let fields = match self.t {
            Some(t) => fields.push(("t"@, JsonView::Text(t))),
            None => fields,
        };
        JsonView::Object(fields)
    }
}

impl Clone for Payload {
    fn clone(&self) -> (r: Self)
        ensures
            r.op == self.op,
            match (self.d, r.d) {
                (Some(d), Some(copy)) => d.alike(copy),
                (None, None) => true,
                _ => false,
            },
            r.s == self.s,
            r.t == self.t,
            r@ == self@,
    {
        Payload {
            op: self.op,
            d: match &self.d {
                Some(d) => Some(d.clone()),
                None => None,
            },
            s: self.s,
            t: match &self.t {
                Some(t) => Some(t.clone()),
                None => None,
            },
        }
    }
}

impl View for Payload {
    type V = PayloadView;

    open spec fn view(&self) -> PayloadView {
        PayloadView {
            op: self.op,
            d: match self.d {
                Some(d) => Some(d@),
                None => None,
            },
            s: self.s,
            t: match self.t {
                Some(t) => Some(t@),
                None => None,
            },
        }
    }
}

impl Payload {
    /// A message of a kind, without data.
    pub fn new(op: i32) -> (r: Self)
        ensures
            r@ == (PayloadView { op, d: None, s: None, t: None }),
    {
        Payload { op, d: None, s: None, t: None }
    }

    /// A message of a kind, with data.
    pub fn with_data(op: i32, d: Json) -> (r: Self)
        ensures
            r@ == PayloadView::with_data(op, d@),
    {
        Payload { op, d: Some(d), s: None, t: None }
    }

    /// The report of an event.
    pub fn dispatch(event: &str, d: Json) -> (r: Self)
        ensures
            r@ == PayloadView::dispatch(event@, d@),
    {
        Payload { op: 0, d: Some(d), s: None, t: Some(owned(event)) }
    }

    /// Writes the message in JSON.
    pub fn into_json(self) -> (r: Json)
        ensures
            r@ == self@.json(),
    {
        let fields: Fields = Fields::new().with("op", Json::number(self.op as i64));
        let fields: Fields = match self.d {
            Some(d) => fields.with("d", d),
            None => fields,
        };
        let fields: Fields = match self.s {
            Some(s) => fields.with("s", Json::number(s as i64)),
            None => fields,
        };
        let fields: Fields = match self.t {
            Some(t) => fields.with("t", Json::Text(t)),
            None => fields,
        };
        fields.object()
    }
}

/// The data of the report that a user is in a status.
pub open spec fn presence_json(user_id: Seq<char>, status: Seq<char>) -> JsonView {
    JsonView::Object(
        no_fields().push(("userId"@, JsonView::Text(user_id))).push(
            ("status"@, JsonView::Text(status)),
        ),
    )
}

/// The report that a user is in a status.
pub open spec fn presence_report(user_id: Seq<char>, status: Seq<char>) -> PayloadView {
    PayloadView::dispatch("PRESENCE_UPDATE"@, presence_json(user_id, status))
}

/// The report that a user is in a status.
pub fn presence_update(user_id: &str, status: &str) -> (r: Payload)
    ensures
        r@ == presence_report(user_id@, status@),
{
    let data: Json = Fields::new().with("userId", Json::text(user_id)).with(
        "status",
        Json::text(status),
    ).object();
    Payload::dispatch("PRESENCE_UPDATE", data)
}

} // verus!
