//! JSON values as the wire and the database carry them, and typed reads of their fields.

use vstd::prelude::*;
use crate::text::chars::{owned, same_text};

verus! {

/// A JSON value.
///
/// An object lists its fields in the order in which they were set: a later field replaces an
/// earlier one of the same name.
#[derive(Debug, PartialEq)]
pub enum Json {
    Null,
    Bool(bool),
    /// A whole number that is not negative.
    Unsigned(u64),
    /// A whole number below zero.
    Negative(i64),
    /// A number with a fraction or an exponent, in its JSON notation.
    Real(String),
    Text(String),
    Array(Vec<Json>),
    Object(Vec<(String, Json)>),
}

/// What a JSON value says.
pub ghost enum JsonView {
    Null,
    Bool(bool),
    Int(int),
    Real(Seq<char>),
    Text(Seq<char>),
    Array(Seq<JsonView>),
    Object(Seq<(Seq<char>, JsonView)>),
}

/// What the values of an array say.
pub open spec fn items(values: Seq<Json>) -> Seq<JsonView>
    decreases values,
{
    if values.len() == 0 {
        Seq::empty()
    } else {
        items(values.drop_last()).push(values.last().view())
    }
}

/// What the fields of an object say.
pub open spec fn fields(values: Seq<(String, Json)>) -> Seq<(Seq<char>, JsonView)>
    decreases values,
{
    if values.len() == 0 {
        Seq::empty()
    } else {
        fields(values.drop_last()).push((values.last().0@, values.last().1.view()))
    }
}

impl Json {
    pub open spec fn view(&self) -> JsonView
        decreases self,
    {
        match self {
            Json::Null => JsonView::Null,
            Json::Bool(b) => JsonView::Bool(*b),
            Json::Unsigned(n) => JsonView::Int(*n as int),
            Json::Negative(n) => JsonView::Int(*n as int),
            Json::Real(text) => JsonView::Real(text@),
            Json::Text(text) => JsonView::Text(text@),
            Json::Array(values) => JsonView::Array(items(values@)),
            Json::Object(values) => JsonView::Object(fields(values@)),
        }
    }
}

impl Json {
    /// Whether two values are the same in kind and contents all the way down.
    pub open spec fn alike(self, other: Json) -> bool
        decreases self,
    {
        match (self, other) {
            (Json::Null, Json::Null) => true,
            (Json::Bool(a), Json::Bool(b)) => a == b,
            (Json::Unsigned(a), Json::Unsigned(b)) => a == b,
            (Json::Negative(a), Json::Negative(b)) => a == b,
            (Json::Real(a), Json::Real(b)) => a == b,
            (Json::Text(a), Json::Text(b)) => a == b,
            (Json::Array(a), Json::Array(b)) => a@.len() == b@.len() && forall|i: int|
                0 <= i < a@.len() ==> (#[trigger] a@[i]).alike(b@[i]),
            (Json::Object(a), Json::Object(b)) => a@.len() == b@.len() && forall|i: int|
                0 <= i < a@.len() ==> (#[trigger] a@[i]).0 == b@[i].0 && a@[i].1.alike(b@[i].1),
            _ => false,
        }
    }

    /// A copy of the value.
    fn copied(&self) -> (r: Json)
        ensures
            self.alike(r),
            r@ == self@,
        decreases self,
    {
        match self {
            Json::Null => Json::Null,
            Json::Bool(b) => Json::Bool(*b),
            Json::Unsigned(n) => Json::Unsigned(*n),
            Json::Negative(n) => Json::Negative(*n),
            Json::Real(text) => Json::Real(text.clone()),
            Json::Text(text) => Json::Text(text.clone()),
            Json::Array(values) => {
                let mut out: Vec<Json> = Vec::new();
                let mut i: usize = 0;
                while i < values.len()
                    invariant
                        *self == Json::Array(*values),
                        i <= values@.len(),
                        out@.len() == i,
                        items(out@) == items(values@.take(i as int)),
                        forall|j: int| 0 <= j < i ==> (#[trigger] values@[j]).alike(out@[j]),
                    decreases values@.len() - i,
                {
                    let ghost before = out@;
                    proof {
                        assert(decreases_to!(*self => self->Array_0));
                        assert(decreases_to!(*values => values@));
                        assert(decreases_to!(values@ => values@[i as int]));
                    }
                    let copy: Json = values[i].copied();
                    out.push(copy);
                    proof {
                        lemma_items_push(before, copy);
                        lemma_items_push(values@.take(i as int), values@[i as int]);
                        assert(values@.take(i + 1) =~= values@.take(i as int).push(
                            values@[i as int],
                        ));
                    }
                    i = i + 1;
                }
                assert(values@.take(i as int) =~= values@);
                Json::Array(out)
            },
            Json::Object(values) => {
                let mut out: Vec<(String, Json)> = Vec::new();
                let mut i: usize = 0;
                while i < values.len()
                    invariant
                        *self == Json::Object(*values),
                        i <= values@.len(),
                        out@.len() == i,
                        fields(out@) == fields(values@.take(i as int)),
                        forall|j: int|
                            0 <= j < i ==> (#[trigger] values@[j]).0 == out@[j].0
                                && values@[j].1.alike(out@[j].1),
                    decreases values@.len() - i,
                {
                    let ghost before = out@;
                    proof {
                        assert(decreases_to!(*self => self->Object_0));
                        assert(decreases_to!(*values => values@));
                        assert(decreases_to!(values@ => values@[i as int]));
                        assert(decreases_to!(values@[i as int] => values@[i as int].1));
                    }
                    let copy: (String, Json) = (values[i].0.clone(), values[i].1.copied());
                    out.push(copy);
                    proof {
                        assert(out@.drop_last() =~= before);
                        assert(values@.take(i + 1).drop_last() =~= values@.take(i as int));
                    }
                    i = i + 1;
                }
                assert(values@.take(i as int) =~= values@);
                Json::Object(out)
            },
        }
    }
}

impl Clone for Json {
    fn clone(&self) -> (r: Self)
        ensures
            self.alike(r),
            r@ == self@,
    {
        self.copied()
    }
}

/// The fields of an object that has none.
pub open spec fn no_fields() -> Seq<(Seq<char>, JsonView)> {
    Seq::empty()
}

/// The value of the last field of a name.
pub open spec fn last_field(fields: Seq<(Seq<char>, JsonView)>, name: Seq<char>) -> Option<JsonView>
    decreases fields.len(),
{
    if fields.len() == 0 {
        None
    } else if fields.last().0 == name {
        Some(fields.last().1)
    } else {
        last_field(fields.drop_last(), name)
    }
}

impl JsonView {
    /// The field of a name, where the value is an object that has it.
    pub open spec fn field(self, name: Seq<char>) -> Option<JsonView> {
        match self {
            JsonView::Object(fields) => last_field(fields, name),
            _ => None,
        }
    }

    /// The text of an optional text.
    pub open spec fn optional_text(text: Option<String>) -> JsonView {
        match text {
            Some(text) => JsonView::Text(text@),
            None => JsonView::Null,
        }
    }

    /// An optional truth value.
    pub open spec fn optional_bool(value: Option<bool>) -> JsonView {
        match value {
            Some(value) => JsonView::Bool(value),
            None => JsonView::Null,
        }
    }
}

/// A value added at the end of an array.
pub proof fn lemma_items_push(values: Seq<Json>, value: Json)
    ensures
        items(values.push(value)) == items(values).push(value@),
{
    assert(values.push(value).drop_last() =~= values);
}

/// A field added at the end of an object.
proof fn lemma_fields_push(values: Seq<(String, Json)>, field: (String, Json))
    ensures
        fields(values.push(field)) == fields(values).push((field.0@, field.1@)),
{
    assert(values.push(field).drop_last() =~= values);
}

/// The fields of an object that is being written.
pub struct Fields {
    values: Vec<(String, Json)>,
}

impl Fields {
    pub closed spec fn view(&self) -> Seq<(Seq<char>, JsonView)> {
        fields(self.values@)
    }

    /// No field yet.
    pub fn new() -> (r: Fields)
        ensures
            r@ == no_fields(),
    {
        Fields { values: Vec::new() }
    }

    /// These fields and one more.
    pub fn with(self, name: &str, value: Json) -> (r: Fields)
        ensures
            r@ == self@.push((name@, value@)),
    {
        let mut values: Vec<(String, Json)> = self.values;
        let ghost before = values@;
        values.push((owned(name), value));
        proof {
            lemma_fields_push(before, values@.last());
        }
        Fields { values }
    }

    /// The object that has these fields.
    pub fn object(self) -> (r: Json)
        ensures
            r@ == JsonView::Object(self@),
    {
        Json::Object(self.values)
    }
}

impl Json {
    /// A text.
    pub fn text(text: &str) -> (r: Json)
        ensures
            r@ == JsonView::Text(text@),
    {
        Json::Text(owned(text))
    }

    /// A text, or null where there is none.
    pub fn optional_text(text: &Option<String>) -> (r: Json)
        ensures
            r@ == JsonView::optional_text(*text),
    {
        match text {
            Some(text) => Json::text(text.as_str()),
            None => Json::Null,
        }
    }

    /// A truth value, or null where there is none.
    pub fn optional_bool(value: Option<bool>) -> (r: Json)
        ensures
            r@ == JsonView::optional_bool(value),
    {
        match value {
            Some(value) => Json::Bool(value),
            None => Json::Null,
        }
    }

    /// A whole number.
    pub fn number(value: i64) -> (r: Json)
        ensures
            r@ == JsonView::Int(value as int),
    {
        if value >= 0 {
            Json::Unsigned(value as u64)
        } else {
            Json::Negative(value)
        }
    }

    /// The field of a name, where the value is an object that has it.
    pub fn get(&self, key: &str) -> (r: Option<&Json>)
        ensures
            match r {
                Some(value) => self@.field(key@) == Some(value@),
                None => self@.field(key@) is None,
            },
    {
        match self {
            Json::Object(values) => {
                let mut i: usize = values.len();
                proof {
                    assert(values@.take(i as int) =~= values@);
                }
                while i > 0
                    invariant
                        i <= values@.len(),
                        self@ == JsonView::Object(fields(values@)),
                        last_field(fields(values@), key@) == last_field(
                            fields(values@.take(i as int)),
                            key@,
                        ),
                    decreases i,
                {
                    i = i - 1;
                    let ghost upto = values@.take(i + 1);
                    proof {
                        assert(upto.drop_last() =~= values@.take(i as int));
                        assert(fields(upto).drop_last() =~= fields(upto.drop_last()));
                    }
                    let field: &(String, Json) = &values[i];
                    if same_text(field.0.as_str(), key) {
                        return Some(&field.1);
                    }
                }
                None
            },
            _ => None,
        }
    }
}

/// The field that was set last is read back; the others stay as they were.
pub proof fn lemma_field_set(
    fields: Seq<(Seq<char>, JsonView)>,
    name: Seq<char>,
    value: JsonView,
    other: Seq<char>,
)
    ensures
        JsonView::Object(fields.push((name, value))).field(name) == Some(value),
        other != name ==> JsonView::Object(fields.push((name, value))).field(other)
            == JsonView::Object(fields).field(other),
{
    assert(fields.push((name, value)).drop_last() =~= fields);
}

} // verus!
