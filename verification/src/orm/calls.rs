//! What the calls that fill an upsert add up to.

use vstd::prelude::*;
use crate::orm::change::Arith;
use crate::orm::insert::{columns_but, insert_head, UpsertView};
use crate::orm::value::SqlValue;
use crate::string_map::{lemma_keys_listed, lists_keys, sorted_keys, sorted_values};
use crate::text::chars::join;

verus! {

/// One call that fills an upsert.
pub ghost enum UpsertCall {
    /// A value for a key column.
    Key { column: Seq<char>, value: SqlValue },
    /// A value for a column.
    Value { column: Seq<char>, value: SqlValue },
    /// An arithmetic step for a column, with the value that a new row starts with.
    Step { column: Seq<char>, op: Arith, amount: i64, start: SqlValue },
}

impl UpsertCall {
    /// The column that the call is for.
    pub open spec fn names(self) -> Seq<char> {
        match self {
            UpsertCall::Key { column, .. } => column,
            UpsertCall::Value { column, .. } => column,
            UpsertCall::Step { column, .. } => column,
        }
    }

    /// The upsert after the call.
    pub open spec fn applied(self, upsert: UpsertView) -> UpsertView {
        match self {
            UpsertCall::Key { column, value } => upsert.key(column, value),
            UpsertCall::Value { column, value } => upsert.set(column, value),
            UpsertCall::Step { column, op, amount, start } => upsert.step(
                column,
                op,
                amount,
                start,
            ),
        }
    }
}

/// The upsert that calls make, one after the other, of one without values.
pub open spec fn filled(calls: Seq<UpsertCall>) -> UpsertView
    decreases calls.len(),
{
    if calls.len() == 0 {
        UpsertView::empty()
    } else {
        calls.last().applied(filled(calls.drop_last()))
    }
}

/// Whether one of the calls is for a column.
pub open spec fn named(calls: Seq<UpsertCall>, column: Seq<char>) -> bool {
    exists|i: int| 0 <= i < calls.len() && (#[trigger] calls[i]).names() == column
}

/// Whether one of the calls steps a column.
pub open spec fn stepped(calls: Seq<UpsertCall>, column: Seq<char>) -> bool {
    exists|i: int|
        0 <= i < calls.len() && (#[trigger] calls[i]) is Step && calls[i].names() == column
}

/// The value that the last call gave a column as a key.
pub open spec fn last_key(calls: Seq<UpsertCall>, column: Seq<char>) -> Option<SqlValue>
    decreases calls.len(),
{
    if calls.len() == 0 {
        None
    } else {
        match calls.last() {
            UpsertCall::Key { column: c, value } if c == column => Some(value),
            _ => last_key(calls.drop_last(), column),
        }
    }
}

/// The value that the last call set a column to, or made a new row start with.
pub open spec fn last_set(calls: Seq<UpsertCall>, column: Seq<char>) -> Option<SqlValue>
    decreases calls.len(),
{
    if calls.len() == 0 {
        None
    } else {
        match calls.last() {
            UpsertCall::Value { column: c, value } if c == column => Some(value),
            UpsertCall::Step { column: c, start, .. } if c == column => Some(start),
            _ => last_set(calls.drop_last(), column),
        }
    }
}

/// The value that the calls give a column: the last that it was set to, or else the last that it
/// was given as a key.
pub open spec fn given(calls: Seq<UpsertCall>, column: Seq<char>) -> Option<SqlValue> {
    match last_set(calls, column) {
        Some(value) => Some(value),
        None => last_key(calls, column),
    }
}

/// A column is named by some calls and a last one where one of them names it.
proof fn lemma_one_more(calls: Seq<UpsertCall>, column: Seq<char>)
    requires
        calls.len() > 0,
    ensures
        named(calls, column) == (named(calls.drop_last(), column) || calls.last().names()
            == column),
        stepped(calls, column) == (stepped(calls.drop_last(), column) || (calls.last() is Step
            && calls.last().names() == column)),
{
    let earlier = calls.drop_last();
    let n = calls.len() - 1;
    assert(calls[n] == calls.last());
    if named(earlier, column) {
        let i = choose|i: int| 0 <= i < earlier.len() && (#[trigger] earlier[i]).names() == column;
        assert(calls[i].names() == column);
    }
    if named(calls, column) {
        let i = choose|i: int| 0 <= i < calls.len() && (#[trigger] calls[i]).names() == column;
        if i < n {
            assert(earlier[i].names() == column);
        }
    }
    if stepped(earlier, column) {
        let i = choose|i: int|
            0 <= i < earlier.len() && (#[trigger] earlier[i]) is Step && earlier[i].names()
                == column;
        assert(calls[i] is Step && calls[i].names() == column);
    }
    if stepped(calls, column) {
        let i = choose|i: int|
            0 <= i < calls.len() && (#[trigger] calls[i]) is Step && calls[i].names() == column;
        if i < n {
            assert(earlier[i] is Step && earlier[i].names() == column);
        }
    }
}

/// What the three maps of a filled upsert hold for a column.
proof fn lemma_filled(calls: Seq<UpsertCall>, column: Seq<char>)
    ensures
        filled(calls).keys.contains_key(column) == (last_key(calls, column) is Some),
        last_key(calls, column) is Some ==> last_key(calls, column) == Some(
            filled(calls).keys[column],
        ),
        filled(calls).values.contains_key(column) == (last_set(calls, column) is Some),
        last_set(calls, column) is Some ==> last_set(calls, column) == Some(
            filled(calls).values[column],
        ),
        filled(calls).steps.contains_key(column) == stepped(calls, column),
        named(calls, column) == (given(calls, column) is Some),
    decreases calls.len(),
{
    if calls.len() > 0 {
        lemma_filled(calls.drop_last(), column);
        lemma_one_more(calls, column);
    }
}

/// A filled upsert has finitely many columns.
proof fn lemma_filled_finite(calls: Seq<UpsertCall>)
    ensures
        filled(calls).keys.dom().finite(),
        filled(calls).values.dom().finite(),
    decreases calls.len(),
{
    if calls.len() > 0 {
        lemma_filled_finite(calls.drop_last());
    }
}

/// The columns other than the key are those that are not the key.
proof fn lemma_columns_but(columns: Seq<Seq<char>>, key: Seq<char>)
    ensures
        forall|c: Seq<char>| #[trigger]
            columns_but(columns, key).contains(c) <==> columns.contains(c) && c != key,
    decreases columns.len(),
{
    let kept = columns_but(columns, key);
    if columns.len() > 0 {
        let shorter = columns.drop_last();
        let rest = columns_but(shorter, key);
        lemma_columns_but(shorter, key);
        assert(columns =~= shorter.push(columns.last()));
        assert forall|c: Seq<char>| #[trigger] kept.contains(c) <==> columns.contains(c) && c
            != key by {
            assert(rest.contains(c) <==> shorter.contains(c) && c != key);
            broadcast use vstd::seq_lib::group_seq_properties;

        }
    }
}

/// The row of a filled upsert has the columns that the calls name and no other, with the values
/// that [`given`] says.
pub proof fn lemma_row_of_calls(calls: Seq<UpsertCall>)
    ensures
        filled(calls).row().dom().finite(),
        forall|c: Seq<char>| #[trigger]
            filled(calls).row().contains_key(c) <==> named(calls, c),
        forall|c: Seq<char>| #[trigger]
            filled(calls).row().contains_key(c) ==> given(calls, c) == Some(
                filled(calls).row()[c],
            ),
{
    let made = filled(calls);
    lemma_filled_finite(calls);
    assert(made.row().dom() =~= made.keys.dom().union(made.values.dom()));
    assert forall|c: Seq<char>| #[trigger] made.row().contains_key(c) <==> named(calls, c) by {
        lemma_filled(calls, c);
    }
    assert forall|c: Seq<char>| #[trigger] made.row().contains_key(c) implies given(calls, c)
        == Some(made.row()[c]) by {
        lemma_filled(calls, c);
    }
}

/// Whatever calls filled an upsert, its statement
///
/// - lists the columns that the calls name, each once and in the order of texts;
/// - binds the placeholder of each column to the value that the calls give it, where a value
///   that was set counts before one that was given as a key, and a later one before an earlier;
/// - changes, where the row is there, every column but the key, and never the key;
/// - does nothing there if the key is the only column and is not stepped.
pub proof fn lemma_upsert_of_calls(calls: Seq<UpsertCall>, table: Seq<char>, key: Seq<char>)
    ensures
        ({
            let made = filled(calls);
            let columns = sorted_keys(made.row());
            let params = sorted_values(made.row());
            let changed = columns_but(columns, key);
            let head = insert_head(table, made.row()) + " ON CONFLICT ("@ + key;
            &&& lists_keys(columns, made.row())
            &&& forall|c: Seq<char>| #[trigger] columns.contains(c) <==> named(calls, c)
            &&& params.len() == columns.len()
            &&& forall|i: int|
                0 <= i < columns.len() ==> given(calls, #[trigger] columns[i]) == Some(params[i])
            &&& forall|c: Seq<char>| #[trigger]
                changed.contains(c) <==> named(calls, c) && c != key
            &&& made.assignments(table, key) == changed.map_values(
                |c: Seq<char>| made.assignment(table, c),
            )
            &&& forall|c: Seq<char>| !stepped(calls, c) ==> #[trigger]
                made.assignment(table, c) == c + " = EXCLUDED."@ + c
            &&& made.sql(table, key) == if (forall|c: Seq<char>|
                #[trigger] named(calls, c) ==> c == key && !stepped(calls, c)) {
                head + ") DO NOTHING RETURNING *"@
            } else {
                head + ") DO UPDATE SET "@ + join(made.assignments(table, key), ", "@)
                    + " RETURNING *"@
            }
        }),
{
    let made = filled(calls);
    let columns = sorted_keys(made.row());
    let changed = columns_but(columns, key);
    lemma_row_of_calls(calls);
    lemma_keys_listed(made.row());
    lemma_columns_but(columns, key);
    assert forall|c: Seq<char>| #[trigger] columns.contains(c) <==> named(calls, c) by {
        assert(made.row().contains_key(c) <==> named(calls, c));
    }
    assert forall|i: int| 0 <= i < columns.len() implies given(calls, #[trigger] columns[i])
        == Some(sorted_values(made.row())[i]) by {
        assert(columns.contains(columns[i]));
        assert(made.row().contains_key(columns[i]));
    }
    assert forall|c: Seq<char>| made.steps.contains_key(c) == stepped(calls, c) by {
        lemma_filled(calls, c);
    }
    let idle = forall|c: Seq<char>| #[trigger]
        named(calls, c) ==> c == key && !stepped(calls, c);
    if idle {
        if changed.len() > 0 {
            assert(changed.contains(changed[0]));
            assert(named(calls, changed[0]));
        }
        assert forall|c: Seq<char>| !made.steps.contains_key(c) by {
            if stepped(calls, c) {
                let i = choose|i: int|
                    0 <= i < calls.len() && (#[trigger] calls[i]) is Step && calls[i].names()
                        == c;
                assert(named(calls, c));
            }
        }
        assert(made.steps =~= Map::<Seq<char>, (Arith, i64)>::empty());
    } else {
        let c = choose|c: Seq<char>|
            #[trigger] named(calls, c) && !(c == key && !stepped(calls, c));
        if c != key {
            assert(changed.contains(c));
        } else {
            assert(made.steps.contains_key(c));
        }
    }
}

/// An upsert of a user, of which only `flags` can be stepped, leaves a user that is there as it
/// is exactly where the calls name no column but `id`. Otherwise it changes the columns that they
/// name, without `id`.
pub proof fn lemma_users_upsert_of_calls(calls: Seq<UpsertCall>)
    requires
        forall|i: int|
            0 <= i < calls.len() && (#[trigger] calls[i]) is Step ==> calls[i].names()
                == "flags"@,
    ensures
        ({
            let made = filled(calls);
            let head = insert_head("users"@, made.row()) + " ON CONFLICT ("@ + "id"@;
            &&& made.sql("users"@, "id"@) == if (forall|c: Seq<char>| #[trigger]
                named(calls, c) ==> c == "id"@) {
                head + ") DO NOTHING RETURNING *"@
            } else {
                head + ") DO UPDATE SET "@ + join(made.assignments("users"@, "id"@), ", "@)
                    + " RETURNING *"@
            }
            &&& forall|c: Seq<char>| #[trigger]
                columns_but(sorted_keys(made.row()), "id"@).contains(c) <==> named(calls, c) && c
                    != "id"@
        }),
{
    reveal_strlit("id");
    reveal_strlit("flags");
    lemma_upsert_of_calls(calls, "users"@, "id"@);
    assert(!stepped(calls, "id"@));
}

} // verus!
