//! What a statement that looks rows up by one column says.

use vstd::prelude::*;
use crate::orm::filter::FilterView;
use crate::orm::value::{SqlValue, Statement};

verus! {

/// The rows whose column is a text.
pub open spec fn keyed(column: Seq<char>, value: String) -> FilterView {
    FilterView::empty().compare(column, "="@, SqlValue::Text(value))
}

/// Whether a statement fetches the first row of a table whose column is a text.
pub open spec fn asks_one(
    s: Statement,
    table: Seq<char>,
    column: Seq<char>,
    value: String,
) -> bool {
    s.says(keyed(column, value).with_limit(1).select_sql(table), keyed(column, value).args)
}

/// Whether a statement fetches all rows of a table whose column is a text.
pub open spec fn asks_all(
    s: Statement,
    table: Seq<char>,
    column: Seq<char>,
    value: String,
) -> bool {
    s.says(keyed(column, value).select_sql(table), keyed(column, value).args)
}

} // verus!
