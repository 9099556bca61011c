//! What is found in a JSON value by name and by place.

use vstd::prelude::*;
use crate::json::{fields, items, last_field, Json, JsonView};

verus! {

/// What is found under a name after one more field was written.
pub broadcast proof fn lemma_found_after(
    fields: Seq<(Seq<char>, JsonView)>,
    field: (Seq<char>, JsonView),
    name: Seq<char>,
)
    ensures
        #[trigger] last_field(fields.push(field), name) == if field.0 == name {
            Some(field.1)
        } else {
            last_field(fields, name)
        },
{
    assert(fields.push(field).drop_last() =~= fields);
}

/// Nothing is found where no field was written.
pub broadcast proof fn lemma_found_in_nothing(name: Seq<char>)
    ensures
        #[trigger] last_field(Seq::<(Seq<char>, JsonView)>::empty(), name) is None,
{
}

/// A name is found exactly where a field has it, with the value of the last such field.
pub proof fn lemma_found_by_name(fields: Seq<(Seq<char>, JsonView)>, name: Seq<char>)
    ensures
        match JsonView::Object(fields).field(name) {
            Some(value) => exists|i: int|
                {
                    &&& 0 <= i < fields.len()
                    &&& #[trigger] fields[i] == (name, value)
                    &&& forall|j: int| i < j < fields.len() ==> (#[trigger] fields[j]).0 != name
                },
            None => forall|j: int| 0 <= j < fields.len() ==> (#[trigger] fields[j]).0 != name,
        },
    decreases fields.len(),
{
    if fields.len() > 0 {
        let last = fields.len() - 1;
        if fields[last].0 == name {
            assert(fields[last] == (name, fields.last().1));
        } else {
            let shorter = fields.drop_last();
            lemma_found_by_name(shorter, name);
            if let Some(value) = last_field(shorter, name) {
                let i = choose|i: int|
                    {
                        &&& 0 <= i < shorter.len()
                        &&& #[trigger] shorter[i] == (name, value)
                        &&& forall|j: int|
                            i < j < shorter.len() ==> (#[trigger] shorter[j]).0 != name
                    };
                assert(fields[i] == (name, value));
                assert forall|j: int| i < j < fields.len() implies (#[trigger] fields[j]).0
                    != name by {
                    if j < last {
                        assert(shorter[j] == fields[j]);
                    }
                }
            } else {
                assert forall|j: int| 0 <= j < fields.len() implies (#[trigger] fields[j]).0
                    != name by {
                    if j < last {
                        assert(shorter[j] == fields[j]);
                    }
                }
            }
        }
    }
}

/// An array says what its values say, place by place.
pub proof fn lemma_items_say(values: Seq<Json>)
    ensures
        items(values).len() == values.len(),
        forall|i: int| 0 <= i < values.len() ==> #[trigger] items(values)[i] == values[i]@,
    decreases values.len(),
{
    if values.len() > 0 {
        lemma_items_say(values.drop_last());
    }
}

/// An object says what its fields say, place by place.
pub proof fn lemma_fields_say(values: Seq<(String, Json)>)
    ensures
        fields(values).len() == values.len(),
        forall|i: int|
            0 <= i < values.len() ==> #[trigger] fields(values)[i] == (values[i].0@, values[i].1@),
    decreases values.len(),
{
    if values.len() > 0 {
        lemma_fields_say(values.drop_last());
    }
}

/// Values that are the same all the way down say the same.
pub proof fn lemma_alike_say_the_same(a: Json, b: Json)
    requires
        a.alike(b),
    ensures
        a@ == b@,
    decreases a,
{
    match (a, b) {
        (Json::Array(x), Json::Array(y)) => {
            assert forall|i: int| 0 <= i < x@.len() implies (#[trigger] x@[i])@ == y@[i]@ by {
                lemma_alike_say_the_same(x@[i], y@[i]);
            }
            lemma_items_say(x@);
            lemma_items_say(y@);
            assert(items(x@) =~= items(y@)) by {
                assert forall|i: int| 0 <= i < x@.len() implies #[trigger] items(x@)[i] == items(
                    y@,
                )[i] by {
                    assert(x@[i]@ == y@[i]@);
                }
            }
        },
        (Json::Object(x), Json::Object(y)) => {
            assert forall|i: int| 0 <= i < x@.len() implies (#[trigger] x@[i]).1@
                == y@[i].1@ by {
                lemma_alike_say_the_same(x@[i].1, y@[i].1);
            }
            lemma_fields_say(x@);
            lemma_fields_say(y@);
            assert(fields(x@) =~= fields(y@)) by {
                assert forall|i: int| 0 <= i < x@.len() implies #[trigger] fields(x@)[i] == fields(
                    y@,
                )[i] by {
                    assert(x@[i].1@ == y@[i].1@);
                    assert(x@[i].0 == y@[i].0);
                }
            }
        },
        _ => {},
    }
}

} // verus!
