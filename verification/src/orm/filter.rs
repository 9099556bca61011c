//! The conditions, the order and the bounds of a query, and the statements made from them.

use vstd::prelude::*;
use crate::orm::value::{SqlValue, Statement};
use crate::text::chars::{join, join_texts, owned, texts};
use crate::text::decimal::{decimal, decimal_text};

verus! {

/// The placeholder for the value number `n`.
pub open spec fn placeholder(n: nat) -> Seq<char> {
    "$"@ + decimal(n)
}

/// The placeholders of `count` values in a row, the first of which is number `from`.
pub open spec fn placeholders(from: nat, count: nat) -> Seq<Seq<char>> {
    Seq::new(count, |i: int| placeholder((from + i) as nat))
}

/// The condition that compares a column by `op` with the value number `n`.
pub open spec fn comparison(column: Seq<char>, op: Seq<char>, n: nat) -> Seq<char> {
    column + " "@ + op + " "@ + placeholder(n)
}

/// The condition that a column is one of `count` values, the first of which is number `from`.
pub open spec fn membership(column: Seq<char>, from: nat, count: nat) -> Seq<char> {
    column + " IN ("@ + join(placeholders(from, count), ", "@) + ")"@
}

/// Writes a placeholder.
pub fn placeholder_text(n: u128) -> (r: String)
    ensures
        r@ == placeholder(n as nat),
{
    let mut out: String = owned("$");
    let number: String = decimal_text(n);
    out.append(number.as_str());
    out
}

/// Writes the placeholders of `count` values in a row.
pub fn placeholder_texts(from: u128, count: usize) -> (r: Vec<String>)
    requires
        from + count <= u128::MAX,
    ensures
        texts(r@) == placeholders(from as nat, count as nat),
{
    let mut out: Vec<String> = Vec::new();
    let mut i: usize = 0;
    while i < count
        invariant
            i <= count,
            from + count <= u128::MAX,
            out@.len() == i,
            forall|j: int| 0 <= j < i ==> #[trigger] out@[j]@ == placeholder((from + j) as nat),
        decreases count - i,
    {
        out.push(placeholder_text(from + i as u128));
        i = i + 1;
    }
    assert(texts(out@) =~= placeholders(from as nat, count as nat));
    out
}

/// Writes a comparison.
pub fn comparison_text(column: &str, op: &str, n: u128) -> (r: String)
    ensures
        r@ == comparison(column@, op@, n as nat),
{
    let mut out: String = owned(column);
    out.append(" ");
    out.append(op);
    out.append(" ");
    let mark: String = placeholder_text(n);
    out.append(mark.as_str());
    out
}

/// Writes a membership condition.
pub fn membership_text(column: &str, from: u128, count: usize) -> (r: String)
    requires
        from + count <= u128::MAX,
    ensures
        r@ == membership(column@, from as nat, count as nat),
{
    let marks: Vec<String> = placeholder_texts(from, count);
    let list: String = join_texts(&marks, ", ");
    let mut out: String = owned(column);
    out.append(" IN (");
    out.append(list.as_str());
    out.append(")");
    out
}

/// What a [`Filter`] holds.
#[verifier::ext_equal]
pub ghost struct FilterView {
    pub clauses: Seq<Seq<char>>,
    pub order_by: Seq<(Seq<char>, Seq<char>)>,
    pub args: Seq<SqlValue>,
    pub limit: Option<usize>,
    pub offset: Option<usize>,
}

impl FilterView {
    /// No condition, no order, no bound.
    pub open spec fn empty() -> FilterView {
        FilterView {
            clauses: Seq::empty(),
            order_by: Seq::empty(),
            args: Seq::empty(),
            limit: None,
            offset: None,
        }
    }

    /// With one more condition, which binds no value.
    pub open spec fn condition(self, clause: Seq<char>) -> FilterView {
        FilterView { clauses: self.clauses.push(clause), ..self }
    }

    /// With one more comparison; its value is bound after those that are bound already.
    pub open spec fn compare(
        self,
        column: Seq<char>,
        op: Seq<char>,
        value: SqlValue,
    ) -> FilterView {
        FilterView {
            clauses: self.clauses.push(comparison(column, op, self.args.len() + 1)),
            args: self.args.push(value),
            ..self
        }
    }

    /// With the condition that a column is one of `values`; without change where there are none.
    pub open spec fn one_of(self, column: Seq<char>, values: Seq<SqlValue>) -> FilterView {
        if values.len() == 0 {
            self
        } else {
            FilterView {
                clauses: self.clauses.push(
                    membership(column, self.args.len() + 1, values.len()),
                ),
                args: self.args + values,
                ..self
            }
        }
    }

    /// With one more column to order by, after the earlier ones.
    pub open spec fn order(self, column: Seq<char>, direction: Seq<char>) -> FilterView {
        FilterView { order_by: self.order_by.push((column, direction)), ..self }
    }

    /// With `limit` in place of the earlier limit.
    pub open spec fn with_limit(self, limit: usize) -> FilterView {
        FilterView { limit: Some(limit), ..self }
    }

    /// With `offset` in place of the earlier offset.
    pub open spec fn with_offset(self, offset: usize) -> FilterView {
        FilterView { offset: Some(offset), ..self }
    }

    /// The part of a statement that states the conditions.
    pub open spec fn where_sql(self) -> Seq<char> {
        if self.clauses.len() == 0 {
            Seq::empty()
        } else {
            " WHERE "@ + join(self.clauses, " AND "@)
        }
    }

    /// The part of a statement that states the order.
    pub open spec fn order_sql(self) -> Seq<char> {
        if self.order_by.len() == 0 {
            Seq::empty()
        } else {
            " ORDER BY "@ + join(
                self.order_by.map_values(|p: (Seq<char>, Seq<char>)| p.0 + " "@ + p.1),
                ", "@,
            )
        }
    }

    /// The part of a statement that states the bounds.
    pub open spec fn bounds_sql(self) -> Seq<char> {
        let limit = match self.limit {
            Some(n) => " LIMIT "@ + decimal(n as nat),
            None => Seq::empty(),
        };
        let offset = match self.offset {
            Some(n) => " OFFSET "@ + decimal(n as nat),
            None => Seq::empty(),
        };
        limit + offset
    }

    /// The statement that fetches the rows of a table.
    pub open spec fn select_sql(self, table: Seq<char>) -> Seq<char> {
        "SELECT * FROM "@ + table + self.where_sql() + self.order_sql() + self.bounds_sql()
    }

    /// The statement that counts the rows of a table.
    pub open spec fn count_sql(self, table: Seq<char>) -> Seq<char> {
        "SELECT COUNT(*) FROM "@ + table + self.where_sql()
    }

    /// The statement that applies an aggregate function to a column.
    pub open spec fn aggregate_sql(
        self,
        table: Seq<char>,
        field: Seq<char>,
        func: Seq<char>,
    ) -> Seq<char> {
        "SELECT "@ + func + "("@ + field + ") FROM "@ + table + self.where_sql()
    }

    /// The statement that sums a column up; what it gives for no rows is bound last.
    pub open spec fn sum_sql(self, table: Seq<char>, field: Seq<char>) -> Seq<char> {
        "SELECT COALESCE(SUM("@ + field + "), "@ + placeholder(self.args.len() + 1) + ") FROM "@
            + table + self.where_sql()
    }

    /// The statement that sums a column up as a 64-bit integer.
    pub open spec fn sum_cast_sql(self, table: Seq<char>, field: Seq<char>) -> Seq<char> {
        "SELECT COALESCE(CAST(SUM("@ + field + ") AS BIGINT), "@ + placeholder(
            self.args.len() + 1,
        ) + ") FROM "@ + table + self.where_sql()
    }
}

/// The texts that pairs of strings hold.
pub open spec fn text_pairs(pairs: Seq<(String, String)>) -> Seq<(Seq<char>, Seq<char>)> {
    pairs.map_values(|p: (String, String)| (p.0@, p.1@))
}

/// The conditions, the order and the bounds of a query, with the values they bind.
#[derive(Debug, PartialEq)]
pub struct Filter {
    clauses: Vec<String>,
    order_by: Vec<(String, String)>,
    args: Vec<SqlValue>,
    limit: Option<usize>,
    offset: Option<usize>,
}

impl View for Filter {
    type V = FilterView;

    closed spec fn view(&self) -> FilterView {
        FilterView {
            clauses: texts(self.clauses@),
            order_by: text_pairs(self.order_by@),
            args: self.args@,
            limit: self.limit,
            offset: self.offset,
        }
    }
}

impl Filter {
    /// A filter that lets every row through.
    pub fn new() -> (r: Self)
        ensures
            r@ == FilterView::empty(),
    {
        let r = Filter {
            clauses: Vec::new(),
            order_by: Vec::new(),
            args: Vec::new(),
            limit: None,
            offset: None,
        };
        assert(r@ =~= FilterView::empty());
        r
    }

    /// Adds a condition that binds no value.
    pub fn condition(self, clause: &str) -> (r: Self)
        ensures
            r@ == self@.condition(clause@),
    {
        let mut out = self;
        out.clauses.push(owned(clause));
        assert(out@ =~= self@.condition(clause@));
        out
    }

    /// Adds a comparison of a column with a value.
    pub fn compare(self, column: &str, op: &str, value: SqlValue) -> (r: Self)
        ensures
            r@ == self@.compare(column@, op@, value),
    {
        let mut out = self;
        let n: u128 = out.args.len() as u128 + 1;
        out.clauses.push(comparison_text(column, op, n));
        out.args.push(value);
        assert(out@ =~= self@.compare(column@, op@, value));
        out
    }

    /// Adds the condition that a column is one of `values`, unless there are none.
    pub fn one_of(self, column: &str, values: Vec<SqlValue>) -> (r: Self)
        ensures
            r@ == self@.one_of(column@, values@),
    {
        if values.is_empty() {
            return self;
        }
        let ghost bound = values@;
        let mut out = self;
        let mut values: Vec<SqlValue> = values;
        let from: u128 = out.args.len() as u128 + 1;
        out.clauses.push(membership_text(column, from, values.len()));
        out.args.append(&mut values);
        assert(out@ =~= self@.one_of(column@, bound));
        out
    }

    /// Adds a column to order by.
    pub fn order(self, column: &str, direction: &str) -> (r: Self)
        ensures
            r@ == self@.order(column@, direction@),
    {
        let mut out = self;
        out.order_by.push((owned(column), owned(direction)));
        assert(out@ =~= self@.order(column@, direction@));
        out
    }

    /// Sets the largest number of rows.
    pub fn limit(self, limit: usize) -> (r: Self)
        ensures
            r@ == self@.with_limit(limit),
    {
        let mut out = self;
        out.limit = Some(limit);
        out
    }

    /// Sets the number of rows to pass over.
    pub fn offset(self, offset: usize) -> (r: Self)
        ensures
            r@ == self@.with_offset(offset),
    {
        let mut out = self;
        out.offset = Some(offset);
        out
    }

    /// Appends the conditions to a statement.
    fn push_where(&self, sql: &mut String)
        ensures
            final(sql)@ == old(sql)@ + self@.where_sql(),
    {
        if !self.clauses.is_empty() {
            let list: String = join_texts(&self.clauses, " AND ");
            sql.append(" WHERE ");
            sql.append(list.as_str());
        }
        assert(sql@ =~= old(sql)@ + self@.where_sql());
    }

    /// Appends the order to a statement.
    fn push_order(&self, sql: &mut String)
        ensures
            final(sql)@ == old(sql)@ + self@.order_sql(),
    {
        if !self.order_by.is_empty() {
            let mut parts: Vec<String> = Vec::new();
            let mut i: usize = 0;
            while i < self.order_by.len()
                invariant
                    i <= self.order_by@.len(),
                    parts@.len() == i,
                    forall|j: int|
                        0 <= j < i ==> #[trigger] parts@[j]@ == self.order_by@[j].0@ + " "@
                            + self.order_by@[j].1@,
                decreases self.order_by@.len() - i,
            {
                let mut part: String = self.order_by[i].0.clone();
                part.append(" ");
                part.append(self.order_by[i].1.as_str());
                parts.push(part);
                i = i + 1;
            }
            assert(texts(parts@) =~= self@.order_by.map_values(
                |p: (Seq<char>, Seq<char>)| p.0 + " "@ + p.1,
            ));
            let list: String = join_texts(&parts, ", ");
            sql.append(" ORDER BY ");
            sql.append(list.as_str());
        }
        assert(sql@ =~= old(sql)@ + self@.order_sql());
    }

    /// Appends the bounds to a statement.
    fn push_bounds(&self, sql: &mut String)
        ensures
            final(sql)@ == old(sql)@ + self@.bounds_sql(),
    {
        if let Some(n) = self.limit {
            let number: String = decimal_text(n as u128);
            sql.append(" LIMIT ");
            sql.append(number.as_str());
        }
        if let Some(n) = self.offset {
            let number: String = decimal_text(n as u128);
            sql.append(" OFFSET ");
            sql.append(number.as_str());
        }
        assert(sql@ =~= old(sql)@ + self@.bounds_sql());
    }

    /// The statement that fetches the rows of `table`.
    pub fn select(self, table: &str) -> (r: Statement)
        ensures
            r.sql@ == self@.select_sql(table@),
            r.params@ == self@.args,
    {
        let mut sql: String = owned("SELECT * FROM ");
        sql.append(table);
        self.push_where(&mut sql);
        self.push_order(&mut sql);
        self.push_bounds(&mut sql);
        Statement { sql, params: self.args }
    }

    /// The statement that counts the rows of `table`.
    pub fn count(self, table: &str) -> (r: Statement)
        ensures
            r.sql@ == self@.count_sql(table@),
            r.params@ == self@.args,
    {
        let mut sql: String = owned("SELECT COUNT(*) FROM ");
        sql.append(table);
        self.push_where(&mut sql);
        Statement { sql, params: self.args }
    }

    /// The statement that applies `func` to a column.
    pub fn aggregate(self, table: &str, field: &str, func: &str) -> (r: Statement)
        ensures
            r.sql@ == self@.aggregate_sql(table@, field@, func@),
            r.params@ == self@.args,
    {
        let mut sql: String = owned("SELECT ");
        sql.append(func);
        sql.append("(");
        sql.append(field);
        sql.append(") FROM ");
        sql.append(table);
        self.push_where(&mut sql);
        Statement { sql, params: self.args }
    }

    /// The statement that sums a column up and gives `zero` for no rows.
    pub fn sum(self, table: &str, field: &str, zero: SqlValue) -> (r: Statement)
        ensures
            r.sql@ == self@.sum_sql(table@, field@),
            r.params@ == self@.args.push(zero),
    {
        let mark: String = placeholder_text(self.args.len() as u128 + 1);
        let mut sql: String = owned("SELECT COALESCE(SUM(");
        sql.append(field);
        sql.append("), ");
        sql.append(mark.as_str());
        sql.append(") FROM ");
        sql.append(table);
        self.push_where(&mut sql);
        let mut params: Vec<SqlValue> = self.args;
        params.push(zero);
        Statement { sql, params }
    }

    /// The statement that sums a column up as a 64-bit integer.
    pub fn sum_cast(self, table: &str, field: &str) -> (r: Statement)
        ensures
            r.sql@ == self@.sum_cast_sql(table@, field@),
            r.params@ == self@.args.push(SqlValue::BigInt(0)),
    {
        let mark: String = placeholder_text(self.args.len() as u128 + 1);
        let mut sql: String = owned("SELECT COALESCE(CAST(SUM(");
        sql.append(field);
        sql.append(") AS BIGINT), ");
        sql.append(mark.as_str());
        sql.append(") FROM ");
        sql.append(table);
        self.push_where(&mut sql);
        let mut params: Vec<SqlValue> = self.args;
        params.push(SqlValue::BigInt(0));
        Statement { sql, params }
    }
}

/// Whether placeholder number `n` stands for a value.
pub open spec fn stands_for(args: Seq<SqlValue>, n: nat, value: SqlValue) -> bool {
    1 <= n <= args.len() && args[n - 1] == value
}

/// A comparison compares with its own value.
pub proof fn lemma_compare_binds(
    filter: FilterView,
    column: Seq<char>,
    op: Seq<char>,
    value: SqlValue,
)
    ensures
        ({
            let n = filter.args.len() + 1;
            let next = filter.compare(column, op, value);
            next.clauses.last() == comparison(column, op, n) && stands_for(next.args, n, value)
        }),
{
}

/// A membership compares with its own values, in their order.
pub proof fn lemma_membership_binds(filter: FilterView, column: Seq<char>, values: Seq<SqlValue>)
    requires
        values.len() > 0,
    ensures
        ({
            let n = filter.args.len() + 1;
            let next = filter.one_of(column, values);
            &&& next.clauses.last() == membership(column, n, values.len())
            &&& forall|i: int|
                0 <= i < values.len() ==> stands_for(
                    next.args,
                    (n + i) as nat,
                    #[trigger] values[i],
                )
        }),
{
}

/// Whatever is added to a filter later, a placeholder goes on to stand for its value.
pub proof fn lemma_placeholders_stay(
    filter: FilterView,
    n: nat,
    value: SqlValue,
    column: Seq<char>,
    op: Seq<char>,
    other: SqlValue,
    others: Seq<SqlValue>,
    number: usize,
)
    requires
        stands_for(filter.args, n, value),
    ensures
        stands_for(filter.compare(column, op, other).args, n, value),
        stands_for(filter.one_of(column, others).args, n, value),
        stands_for(filter.condition(column).args, n, value),
        stands_for(filter.order(column, op).args, n, value),
        stands_for(filter.with_limit(number).args, n, value),
        stands_for(filter.with_offset(number).args, n, value),
{
}

/// A membership in no values is no condition.
pub proof fn lemma_empty_membership(filter: FilterView, column: Seq<char>)
    ensures
        filter.one_of(column, Seq::empty()) == filter,
{
}

/// Of two limits, and of two offsets, the later counts; their order among each other does not
/// matter.
pub proof fn lemma_last_bound_counts(filter: FilterView, a: usize, b: usize)
    ensures
        filter.with_limit(a).with_limit(b) == filter.with_limit(b),
        filter.with_offset(a).with_offset(b) == filter.with_offset(b),
        filter.with_limit(a).with_offset(b) == filter.with_offset(b).with_limit(a),
{
}

/// A count takes no notice of order and bounds.
pub proof fn lemma_count_ignores_bounds(
    filter: FilterView,
    table: Seq<char>,
    column: Seq<char>,
    direction: Seq<char>,
    number: usize,
)
    ensures
        filter.order(column, direction).count_sql(table) == filter.count_sql(table),
        filter.with_limit(number).count_sql(table) == filter.count_sql(table),
        filter.with_offset(number).count_sql(table) == filter.count_sql(table),
{
}

} // verus!
