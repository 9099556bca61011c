//! Statements that change or remove rows, and the conditions under which they do.

use vstd::prelude::*;
use crate::orm::filter::{membership, membership_text, placeholder, placeholder_text};
use crate::orm::value::{SqlValue, Statement};
use crate::text::chars::{join, join_texts, owned, texts};

verus! {

/// Why no statement can be made, or why one that was run did not do its work.
#[derive(Debug, PartialEq)]
pub enum BuildError {
    /// An update sets nothing.
    NoFieldsToUpdate,
    /// A removal has no condition.
    DeleteWithoutWhere,
    /// The column of the primary key has no value.
    MissingPrimaryKey(String),
    /// A column that needs a value has none.
    MissingField(String),
    /// A row that meets the conditions is there already.
    RecordExists,
    /// A row that was there a moment ago is not.
    RecordVanished,
}

impl BuildError {
    /// The words for the error.
    pub open spec fn words(self) -> Seq<char> {
        match self {
            BuildError::NoFieldsToUpdate => "No fields to update"@,
            BuildError::DeleteWithoutWhere => "DELETE without WHERE clause is not allowed"@,
            BuildError::MissingPrimaryKey(f) => "Missing primary key field: "@ + f@,
            BuildError::MissingField(f) => "Missing required field: "@ + f@,
            BuildError::RecordExists => "Record already exists"@,
            BuildError::RecordVanished => "Record should exist after find_or_create"@,
        }
    }

    /// Says the error in words.
    pub fn message(&self) -> (r: String)
        ensures
            r@ == self.words(),
    {
        match self {
            BuildError::NoFieldsToUpdate => owned("No fields to update"),
            BuildError::DeleteWithoutWhere => owned("DELETE without WHERE clause is not allowed"),
            BuildError::MissingPrimaryKey(f) => owned("Missing primary key field: ").concat(
                f.as_str(),
            ),
            BuildError::MissingField(f) => owned("Missing required field: ").concat(f.as_str()),
            BuildError::RecordExists => owned("Record already exists"),
            BuildError::RecordVanished => owned("Record should exist after find_or_create"),
        }
    }
}

/// The fragments, each made equal to the value whose number is `from` and its place.
pub open spec fn conditions(fragments: Seq<Seq<char>>, from: nat) -> Seq<Seq<char>> {
    fragments.map(|i: int, f: Seq<char>| f + " = "@ + placeholder((from + i) as nat))
}

/// What [`Fragments`] hold.
#[verifier::ext_equal]
pub ghost struct FragmentsView {
    pub fragments: Seq<Seq<char>>,
    pub args: Seq<SqlValue>,
}

impl FragmentsView {
    /// No condition.
    pub open spec fn empty() -> FragmentsView {
        FragmentsView { fragments: Seq::empty(), args: Seq::empty() }
    }

    /// With one more fragment and its value.
    pub open spec fn compare(self, fragment: Seq<char>, value: SqlValue) -> FragmentsView {
        FragmentsView { fragments: self.fragments.push(fragment), args: self.args.push(value) }
    }

    /// With one more fragment, which brings no value.
    pub open spec fn condition(self, fragment: Seq<char>) -> FragmentsView {
        FragmentsView { fragments: self.fragments.push(fragment), ..self }
    }

    /// With a membership condition as one more fragment; without change where there are no values.
    pub open spec fn one_of(self, column: Seq<char>, values: Seq<SqlValue>) -> FragmentsView {
        if values.len() == 0 {
            self
        } else {
            FragmentsView {
                fragments: self.fragments.push(
                    membership(column, self.args.len() + 1, values.len()),
                ),
                args: self.args + values,
            }
        }
    }

    /// The part of a statement that states the conditions, with values from number `from` on.
    pub open spec fn where_sql(self, from: nat) -> Seq<char> {
        " WHERE "@ + join(conditions(self.fragments, from), " AND "@)
    }

    /// The statement that removes rows.
    pub open spec fn delete_sql(self, table: Seq<char>) -> Seq<char> {
        "DELETE FROM "@ + table + self.where_sql(1)
    }

    /// The statement that counts the rows that meet the conditions.
    pub open spec fn count_sql(self, table: Seq<char>) -> Seq<char> {
        "SELECT COUNT(*) FROM "@ + table + self.where_sql(1)
    }
}

/// Conditions as fragments of text, each of which is made equal to a bound value.
#[derive(Debug, PartialEq)]
pub struct Fragments {
    fragments: Vec<String>,
    args: Vec<SqlValue>,
}

impl View for Fragments {
    type V = FragmentsView;

    closed spec fn view(&self) -> FragmentsView {
        FragmentsView { fragments: texts(self.fragments@), args: self.args@ }
    }
}

impl Fragments {
    /// No condition.
    pub fn new() -> (r: Self)
        ensures
            r@ == FragmentsView::empty(),
    {
        let r = Fragments { fragments: Vec::new(), args: Vec::new() };
        assert(r@ =~= FragmentsView::empty());
        r
    }

    /// Whether there is no condition.
    pub fn is_empty(&self) -> (r: bool)
        ensures
            r == (self@.fragments.len() == 0),
    {
        self.fragments.is_empty()
    }

    /// Adds a fragment and its value.
    pub fn compare(self, fragment: &str, value: SqlValue) -> (r: Self)
        ensures
            r@ == self@.compare(fragment@, value),
    {
        let mut out = self;
        out.args.push(value);
        out.fragments.push(owned(fragment));
        assert(out@ =~= self@.compare(fragment@, value));
        out
    }

    /// Adds a fragment without a value.
    pub fn condition(self, fragment: &str) -> (r: Self)
        ensures
            r@ == self@.condition(fragment@),
    {
        let mut out = self;
        out.fragments.push(owned(fragment));
        assert(out@ =~= self@.condition(fragment@));
        out
    }

    /// Adds a membership condition, unless there are no values.
    pub fn one_of(self, column: &str, values: Vec<SqlValue>) -> (r: Self)
        ensures
            r@ == self@.one_of(column@, values@),
    {
        if values.is_empty() {
            return self;
        }
        let ghost bound = values@;
        let mut out = self;
        let mut values: Vec<SqlValue> = values;
        let from: u128 = out.args.len() as u128 + 1;
        out.fragments.push(membership_text(column, from, values.len()));
        out.args.append(&mut values);
        assert(out@ =~= self@.one_of(column@, bound));
        out
    }

    /// Writes the conditions, with values from number `from` on.
    fn where_text(&self, from: u128) -> (r: String)
        requires
            from <= 3 * (usize::MAX as nat) + 1,
        ensures
            r@ == self@.where_sql(from as nat),
    {
        let mut parts: Vec<String> = Vec::new();
        let mut i: usize = 0;
        while i < self.fragments.len()
            invariant
                from <= 3 * (usize::MAX as nat) + 1,
                i <= self.fragments@.len(),
                parts@.len() == i,
                forall|j: int|
                    0 <= j < i ==> #[trigger] parts@[j]@ == self.fragments@[j]@ + " = "@
                        + placeholder((from + j) as nat),
            decreases self.fragments@.len() - i,
        {
            let mut part: String = self.fragments[i].clone();
            let mark: String = placeholder_text(from + i as u128);
            part.append(" = ");
            part.append(mark.as_str());
            parts.push(part);
            i = i + 1;
        }
        assert(texts(parts@) =~= conditions(self@.fragments, from as nat));
        let list: String = join_texts(&parts, " AND ");
        owned(" WHERE ").concat(list.as_str())
    }

    /// The statement that removes the rows that meet the conditions.
    pub fn delete(self, table: &str) -> (r: Result<Statement, BuildError>)
        ensures
            match r {
                Ok(s) => self@.fragments.len() > 0 && s.says(self@.delete_sql(table@), self@.args),
                Err(e) => self@.fragments.len() == 0 && e == BuildError::DeleteWithoutWhere,
            },
    {
        if self.is_empty() {
            return Err(BuildError::DeleteWithoutWhere);
        }
        let mut sql: String = owned("DELETE FROM ");
        sql.append(table);
        let conds: String = self.where_text(1);
        sql.append(conds.as_str());
        Ok(Statement { sql, params: self.args })
    }

    /// The statement that counts the rows that meet the conditions; none without conditions.
    pub fn count(self, table: &str) -> (r: Option<Statement>)
        ensures
            match r {
                Some(s) => self@.fragments.len() > 0 && s.says(
                    self@.count_sql(table@),
                    self@.args,
                ),
                None => self@.fragments.len() == 0,
            },
    {
        if self.is_empty() {
            return None;
        }
        let mut sql: String = owned("SELECT COUNT(*) FROM ");
        sql.append(table);
        let conds: String = self.where_text(1);
        sql.append(conds.as_str());
        Some(Statement { sql, params: self.args })
    }
}

/// An arithmetic step on the value that a column has.
#[derive(Clone, Copy, Debug, PartialEq, Eq, Structural)]
pub enum Arith {
    Inc,
    Dec,
    Mul,
    Div,
}

impl Arith {
    /// The sign of the operation.
    pub open spec fn sign(self) -> Seq<char> {
        match self {
            Arith::Inc => " + "@,
            Arith::Dec => " - "@,
            Arith::Mul => " * "@,
            Arith::Div => " / "@,
        }
    }

    /// Writes the sign of the operation.
    pub fn sign_text(&self) -> (r: &'static str)
        ensures
            r@ == self.sign(),
    {
        match self {
            Arith::Inc => " + ",
            Arith::Dec => " - ",
            Arith::Mul => " * ",
            Arith::Div => " / ",
        }
    }
}

/// What an [`Update`] holds.
#[verifier::ext_equal]
pub ghost struct UpdateView {
    pub filter: FragmentsView,
    pub set_columns: Seq<Seq<char>>,
    pub set_args: Seq<SqlValue>,
    pub steps: Seq<(Seq<char>, Arith, i64)>,
}

impl UpdateView {
    /// Nothing to set, no condition.
    pub open spec fn empty() -> UpdateView {
        UpdateView {
            filter: FragmentsView::empty(),
            set_columns: Seq::empty(),
            set_args: Seq::empty(),
            steps: Seq::empty(),
        }
    }

    /// With other conditions.
    pub open spec fn filtered(self, filter: FragmentsView) -> UpdateView {
        UpdateView { filter, ..self }
    }

    /// With one more column to set.
    pub open spec fn set(self, column: Seq<char>, value: SqlValue) -> UpdateView {
        UpdateView {
            set_columns: self.set_columns.push(column),
            set_args: self.set_args.push(value),
            ..self
        }
    }

    /// With one more arithmetic step.
    pub open spec fn step(self, column: Seq<char>, op: Arith, amount: i64) -> UpdateView {
        UpdateView { steps: self.steps.push((column, op, amount)), ..self }
    }

    /// The assignments: first the set columns, then the arithmetic steps.
    pub open spec fn assignments(self) -> Seq<Seq<char>> {
        self.set_columns.map(|i: int, c: Seq<char>| c + " = "@ + placeholder((i + 1) as nat))
            + self.steps.map(
            |i: int, s: (Seq<char>, Arith, i64)|
                s.0 + " = "@ + s.0 + s.1.sign() + placeholder(
                    (self.set_columns.len() + i + 1) as nat,
                ),
        )
    }

    /// The text of the statement.
    pub open spec fn sql(self, table: Seq<char>) -> Seq<char> {
        "UPDATE "@ + table + " SET "@ + join(self.assignments(), ", "@) + (
        if self.filter.fragments.len() == 0 {
            Seq::empty()
        } else {
            self.filter.where_sql(self.set_columns.len() + self.steps.len() + 1)
        }) + " RETURNING *"@
    }

    /// The values of the statement: of the set columns, of the steps, of the conditions.
    pub open spec fn params(self) -> Seq<SqlValue> {
        self.set_args + self.steps.map_values(
            |s: (Seq<char>, Arith, i64)| SqlValue::BigInt(s.2),
        ) + (if self.filter.fragments.len() == 0 {
            Seq::empty()
        } else {
            self.filter.args
        })
    }
}

/// A change of the rows that meet some conditions.
#[derive(Debug, PartialEq)]
pub struct Update {
    filter: Fragments,
    set_columns: Vec<String>,
    set_args: Vec<SqlValue>,
    steps: Vec<(String, Arith, i64)>,
}

impl View for Update {
    type V = UpdateView;

    closed spec fn view(&self) -> UpdateView {
        UpdateView {
            filter: self.filter@,
            set_columns: texts(self.set_columns@),
            set_args: self.set_args@,
            steps: self.steps@.map_values(|s: (String, Arith, i64)| (s.0@, s.1, s.2)),
        }
    }
}

impl Update {
    /// A change that sets nothing yet.
    pub fn new() -> (r: Self)
        ensures
            r@ == UpdateView::empty(),
    {
        let r = Update {
            filter: Fragments::new(),
            set_columns: Vec::new(),
            set_args: Vec::new(),
            steps: Vec::new(),
        };
        assert(r@ =~= UpdateView::empty());
        r
    }

    /// Adds a fragment and its value to the conditions.
    pub fn compare(self, fragment: &str, value: SqlValue) -> (r: Self)
        ensures
            r@ == self@.filtered(self@.filter.compare(fragment@, value)),
    {
        let mut out = self;
        out.filter = out.filter.compare(fragment, value);
        out
    }

    /// Adds a fragment without a value to the conditions.
    pub fn condition(self, fragment: &str) -> (r: Self)
        ensures
            r@ == self@.filtered(self@.filter.condition(fragment@)),
    {
        let mut out = self;
        out.filter = out.filter.condition(fragment);
        out
    }

    /// Adds a membership condition, unless there are no values.
    pub fn one_of(self, column: &str, values: Vec<SqlValue>) -> (r: Self)
        ensures
            r@ == self@.filtered(self@.filter.one_of(column@, values@)),
    {
        let mut out = self;
        out.filter = out.filter.one_of(column, values);
        out
    }

    /// Adds a column to set.
    pub fn set(self, column: &str, value: SqlValue) -> (r: Self)
        ensures
            r@ == self@.set(column@, value),
    {
        let mut out = self;
        out.set_args.push(value);
        out.set_columns.push(owned(column));
        assert(out@ =~= self@.set(column@, value));
        out
    }

    /// Adds an arithmetic step.
    pub fn step(self, column: &str, op: Arith, amount: i64) -> (r: Self)
        ensures
            r@ == self@.step(column@, op, amount),
    {
        let mut out = self;
        out.steps.push((owned(column), op, amount));
        assert(out@ =~= self@.step(column@, op, amount));
        out
    }

    /// Writes the assignments.
    fn assignment_texts(&self) -> (r: Vec<String>)
        ensures
            texts(r@) == self@.assignments(),
    {
        let mut parts: Vec<String> = Vec::new();
        let mut i: usize = 0;
        while i < self.set_columns.len()
            invariant
                i <= self.set_columns@.len(),
                parts@.len() == i,
                forall|j: int|
                    0 <= j < i ==> #[trigger] parts@[j]@ == self.set_columns@[j]@ + " = "@
                        + placeholder((j + 1) as nat),
            decreases self.set_columns@.len() - i,
        {
            let mut part: String = self.set_columns[i].clone();
            let mark: String = placeholder_text(i as u128 + 1);
            part.append(" = ");
            part.append(mark.as_str());
            parts.push(part);
            i = i + 1;
        }
        let count: u128 = self.set_columns.len() as u128;
        let mut k: usize = 0;
        while k < self.steps.len()
            invariant
                k <= self.steps@.len(),
                count == self.set_columns@.len(),
                count <= usize::MAX,
                parts@.len() == count + k,
                forall|j: int|
                    0 <= j < count ==> #[trigger] parts@[j]@ == self.set_columns@[j]@ + " = "@
                        + placeholder((j + 1) as nat),
                forall|j: int|
                    count <= j < count + k ==> #[trigger] parts@[j]@ == self.steps@[j
                        - count].0@ + " = "@ + self.steps@[j - count].0@ + self.steps@[j
                        - count].1.sign() + placeholder((j + 1) as nat),
            decreases self.steps@.len() - k,
        {
            let mut part: String = self.steps[k].0.clone();
            let mark: String = placeholder_text(count + k as u128 + 1);
            part.append(" = ");
            part.append(self.steps[k].0.as_str());
            part.append(self.steps[k].1.sign_text());
            part.append(mark.as_str());
            parts.push(part);
            k = k + 1;
        }
        assert(texts(parts@) =~= self@.assignments());
        parts
    }

    /// The values of the steps.
    fn step_values(&self) -> (r: Vec<SqlValue>)
        ensures
            r@ == self@.steps.map_values(|s: (Seq<char>, Arith, i64)| SqlValue::BigInt(s.2)),
    {
        let mut out: Vec<SqlValue> = Vec::new();
        let mut k: usize = 0;
        while k < self.steps.len()
            invariant
                k <= self.steps@.len(),
                out@.len() == k,
                forall|j: int| 0 <= j < k ==> out@[j] == SqlValue::BigInt(self.steps@[j].2),
            decreases self.steps@.len() - k,
        {
            out.push(SqlValue::BigInt(self.steps[k].2));
            k = k + 1;
        }
        assert(out@ =~= self@.steps.map_values(
            |s: (Seq<char>, Arith, i64)| SqlValue::BigInt(s.2),
        ));
        out
    }

    /// The statement that makes the change and gives the changed row back.
    pub fn statement(self, table: &str) -> (r: Result<Statement, BuildError>)
        ensures
            match r {
                Ok(s) => self@.set_columns.len() + self@.steps.len() > 0 && s.says(
                    self@.sql(table@),
                    self@.params(),
                ),
                Err(e) => self@.set_columns.len() + self@.steps.len() == 0 && e
                    == BuildError::NoFieldsToUpdate,
            },
    {
        if self.set_columns.is_empty() && self.steps.is_empty() {
            return Err(BuildError::NoFieldsToUpdate);
        }
        let parts: Vec<String> = self.assignment_texts();
        let list: String = join_texts(&parts, ", ");
        let mut sql: String = owned("UPDATE ");
        sql.append(table);
        sql.append(" SET ");
        sql.append(list.as_str());
        let mut step_values: Vec<SqlValue> = self.step_values();
        let first: u128 = self.set_columns.len() as u128 + self.steps.len() as u128 + 1;
        let unfiltered: bool = self.filter.is_empty();
        if !unfiltered {
            let conds: String = self.filter.where_text(first);
            sql.append(conds.as_str());
        }
        assert(sql@ + " RETURNING *"@ =~= self@.sql(table@));
        sql.append(" RETURNING *");
        let ghost view = self@;
        let mut params: Vec<SqlValue> = self.set_args;
        params.append(&mut step_values);
        if !unfiltered {
            let mut rest: Vec<SqlValue> = self.filter.args;
            params.append(&mut rest);
        }
        assert(params@ =~= view.params());
        Ok(Statement { sql, params })
    }
}

/// In a change whose conditions bind one value each, every placeholder stands for its own
/// value: those of the set columns come first, then those of the steps, then those of the
/// conditions.
pub proof fn lemma_update_binds(update: UpdateView)
    requires
        update.set_columns.len() == update.set_args.len(),
        update.filter.fragments.len() == update.filter.args.len(),
    ensures
        update.params().len() == update.set_columns.len() + update.steps.len()
            + update.filter.fragments.len(),
        forall|i: int|
            0 <= i < update.set_columns.len() ==> #[trigger] update.params()[i]
                == update.set_args[i],
        forall|i: int|
            0 <= i < update.steps.len() ==> update.params()[update.set_columns.len() + i]
                == SqlValue::BigInt((#[trigger] update.steps[i]).2),
        forall|i: int|
            0 <= i < update.filter.fragments.len() ==> update.params()[update.set_columns.len()
                + update.steps.len() + i] == #[trigger] update.filter.args[i],
{
}

/// Whatever is set, stepped or asked for, the columns that are set and their values are as many.
pub proof fn lemma_update_balanced(
    update: UpdateView,
    column: Seq<char>,
    value: SqlValue,
    op: Arith,
    amount: i64,
    filter: FragmentsView,
)
    requires
        update.set_columns.len() == update.set_args.len(),
    ensures
        UpdateView::empty().set_columns.len() == UpdateView::empty().set_args.len(),
        update.set(column, value).set_columns.len() == update.set(column, value).set_args.len(),
        update.step(column, op, amount).set_columns.len() == update.step(
            column,
            op,
            amount,
        ).set_args.len(),
        update.filtered(filter).set_columns.len() == update.filtered(filter).set_args.len(),
{
}

/// Comparisons bind one value each.
pub proof fn lemma_comparisons_balanced(filter: FragmentsView, fragment: Seq<char>, value: SqlValue)
    requires
        filter.fragments.len() == filter.args.len(),
    ensures
        FragmentsView::empty().fragments.len() == FragmentsView::empty().args.len(),
        filter.compare(fragment, value).fragments.len() == filter.compare(
            fragment,
            value,
        ).args.len(),
{
}

} // verus!
