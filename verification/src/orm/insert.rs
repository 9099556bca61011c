//! Statements that add rows.

use vstd::prelude::*;
use crate::orm::change::{Arith, BuildError, Fragments, FragmentsView};
use crate::orm::filter::{placeholder_texts, placeholders};
use crate::orm::value::{SqlValue, Statement};
use crate::string_map::{lemma_keys_listed, lists_keys, sorted_keys, sorted_values, StringMap};
use crate::text::chars::{join, join_texts, owned, same_text, texts};
use crate::text::decimal::{decimal, decimal_text, signed_decimal, signed_decimal_text};

verus! {

/// The start of every statement that adds one row: the table, the columns in the order of
/// texts, and a placeholder for each.
pub open spec fn insert_head(table: Seq<char>, values: Map<Seq<char>, SqlValue>) -> Seq<char> {
    "INSERT INTO "@ + table + " ("@ + join(sorted_keys(values), ", "@) + ") VALUES ("@ + join(
        placeholders(1, sorted_keys(values).len()),
        ", "@,
    ) + ")"@
}

/// Writes the start of a statement that adds one row.
fn insert_head_text(table: &str, columns: &Vec<String>) -> (r: String)
    ensures
        forall|values: Map<Seq<char>, SqlValue>|
            texts(columns@) == sorted_keys(values) ==> r@ == #[trigger] insert_head(
                table@,
                values,
            ),
{
    let names: String = join_texts(columns, ", ");
    let marks: Vec<String> = placeholder_texts(1, columns.len());
    let list: String = join_texts(&marks, ", ");
    let mut sql: String = owned("INSERT INTO ");
    sql.append(table);
    sql.append(" (");
    sql.append(names.as_str());
    sql.append(") VALUES (");
    sql.append(list.as_str());
    sql.append(")");
    assert(texts(columns@).len() == columns@.len());
    sql
}

/// The first of the columns that has no value.
pub open spec fn first_missing(
    columns: Seq<Seq<char>>,
    values: Map<Seq<char>, SqlValue>,
) -> Option<Seq<char>>
    decreases columns.len(),
{
    if columns.len() == 0 {
        None
    } else if !values.contains_key(columns[0]) {
        Some(columns[0])
    } else {
        first_missing(columns.drop_first(), values)
    }
}

/// The texts that string slices hold.
pub open spec fn slices(parts: Seq<&str>) -> Seq<Seq<char>> {
    parts.map_values(|s: &str| s@)
}

/// The statements that create a row: the first, where there are conditions, counts the rows
/// that meet them; the second adds the row.
#[derive(Debug, PartialEq)]
pub struct CreatePlan {
    pub check: Option<Statement>,
    pub insert: Statement,
}

impl CreatePlan {
    /// Whether the row may be added, given the count that the check came to.
    pub fn verdict(count: i64) -> (r: Result<(), BuildError>)
        ensures
            r == if count > 0 {
                Err(BuildError::RecordExists)
            } else {
                Ok(())
            },
    {
        if count > 0 {
            Err(BuildError::RecordExists)
        } else {
            Ok(())
        }
    }
}

/// What a [`Create`] holds.
#[verifier::ext_equal]
pub ghost struct CreateView {
    pub filter: FragmentsView,
    pub values: Map<Seq<char>, SqlValue>,
}

impl CreateView {
    /// No value, no condition.
    pub open spec fn empty() -> CreateView {
        CreateView { filter: FragmentsView::empty(), values: Map::empty() }
    }

    /// With other conditions.
    pub open spec fn filtered(self, filter: FragmentsView) -> CreateView {
        CreateView { filter, ..self }
    }

    /// With a value for a column, in place of the earlier one.
    pub open spec fn set(self, column: Seq<char>, value: SqlValue) -> CreateView {
        CreateView { values: self.values.insert(column, value), ..self }
    }

    /// The statement that adds the row.
    pub open spec fn insert_sql(self, table: Seq<char>) -> Seq<char> {
        insert_head(table, self.values) + " RETURNING *"@
    }

    /// Whether a plan is the one for these values and conditions.
    pub open spec fn planned(self, table: Seq<char>, plan: CreatePlan) -> bool {
        &&& match plan.check {
            Some(s) => self.filter.fragments.len() > 0 && s.says(
                self.filter.count_sql(table),
                self.filter.args,
            ),
            None => self.filter.fragments.len() == 0,
        }
        &&& plan.insert.says(self.insert_sql(table), sorted_values(self.values))
    }
}

/// A row to be added, unless one that meets some conditions is there.
#[derive(Debug, PartialEq)]
pub struct Create {
    filter: Fragments,
    values: StringMap<SqlValue>,
}

impl View for Create {
    type V = CreateView;

    closed spec fn view(&self) -> CreateView {
        CreateView { filter: self.filter@, values: self.values@ }
    }
}

impl Create {
    /// A row without values.
    pub fn new() -> (r: Self)
        ensures
            r@ == CreateView::empty(),
    {
        Create { filter: Fragments::new(), values: StringMap::new() }
    }

    /// Adds a fragment and its value to the conditions.
    pub fn compare(self, fragment: &str, value: SqlValue) -> (r: Self)
        ensures
            r@ == self@.filtered(self@.filter.compare(fragment@, value)),
    {
        Create { filter: self.filter.compare(fragment, value), values: self.values }
    }

    /// Adds a fragment without a value to the conditions.
    pub fn condition(self, fragment: &str) -> (r: Self)
        ensures
            r@ == self@.filtered(self@.filter.condition(fragment@)),
    {
        Create { filter: self.filter.condition(fragment), values: self.values }
    }

    /// Adds a membership condition, unless there are no values.
    pub fn one_of(self, column: &str, values: Vec<SqlValue>) -> (r: Self)
        ensures
            r@ == self@.filtered(self@.filter.one_of(column@, values@)),
    {
        Create { filter: self.filter.one_of(column, values), values: self.values }
    }

    /// Sets the value of a column.
    pub fn set(self, column: &str, value: SqlValue) -> (r: Self)
        ensures
            r@ == self@.set(column@, value),
    {
        Create { filter: self.filter, values: self.values.insert(owned(column), value) }
    }

    /// The statements that create the row. Each of the `required` columns needs a value.
    pub fn plan(self, table: &str, required: Vec<&'static str>) -> (r: Result<
        CreatePlan,
        BuildError,
    >)
        ensures
            match r {
                Ok(p) => first_missing(slices(required@), self@.values) is None && self@.planned(
                    table@,
                    p,
                ),
                Err(e) => match e {
                    BuildError::MissingField(f) => first_missing(slices(required@), self@.values)
                        == Some(f@),
                    _ => false,
                },
            },
    {
        let mut i: usize = 0;
        assert(slices(required@).skip(0) =~= slices(required@));
        while i < required.len()
            invariant
                i <= required@.len(),
                first_missing(slices(required@), self@.values) == first_missing(
                    slices(required@).skip(i as int),
                    self@.values,
                ),
            decreases required@.len() - i,
        {
            let ghost rest = slices(required@).skip(i as int);
            assert(rest[0] == required@[i as int]@);
            assert(rest.drop_first() =~= slices(required@).skip(i + 1));
            if !self.values.contains_key(required[i]) {
                return Err(BuildError::MissingField(owned(required[i])));
            }
            i = i + 1;
        }
        let check: Option<Statement> = self.filter.count(table);
        let (columns, params) = self.values.into_columns();
        let mut sql: String = insert_head_text(table, &columns);
        sql.append(" RETURNING *");
        Ok(CreatePlan { check, insert: Statement { sql, params } })
    }
}

/// The columns other than `key`.
pub open spec fn columns_but(columns: Seq<Seq<char>>, key: Seq<char>) -> Seq<Seq<char>>
    decreases columns.len(),
{
    if columns.len() == 0 {
        Seq::empty()
    } else {
        let rest = columns_but(columns.drop_last(), key);
        if columns.last() == key {
            rest
        } else {
            rest.push(columns.last())
        }
    }
}

/// What a [`Upsert`] holds.
#[verifier::ext_equal]
pub ghost struct UpsertView {
    pub keys: Map<Seq<char>, SqlValue>,
    pub values: Map<Seq<char>, SqlValue>,
    pub steps: Map<Seq<char>, (Arith, i64)>,
}

impl UpsertView {
    /// No value.
    pub open spec fn empty() -> UpsertView {
        UpsertView { keys: Map::empty(), values: Map::empty(), steps: Map::empty() }
    }

    /// With a value for a key column.
    pub open spec fn key(self, column: Seq<char>, value: SqlValue) -> UpsertView {
        UpsertView { keys: self.keys.insert(column, value), ..self }
    }

    /// With a value for a column.
    pub open spec fn set(self, column: Seq<char>, value: SqlValue) -> UpsertView {
        UpsertView { values: self.values.insert(column, value), ..self }
    }

    /// With an arithmetic step for the case that the row is there, and `start` as the value for
    /// the case that it is not.
    pub open spec fn step(
        self,
        column: Seq<char>,
        op: Arith,
        amount: i64,
        start: SqlValue,
    ) -> UpsertView {
        UpsertView { steps: self.steps.insert(column, (op, amount)), ..self.set(column, start) }
    }

    /// All values of the row; where a column has two, the one that was set counts.
    pub open spec fn row(self) -> Map<Seq<char>, SqlValue> {
        self.keys.union_prefer_right(self.values)
    }

    /// What becomes of a column of a row that is there.
    pub open spec fn assignment(self, table: Seq<char>, column: Seq<char>) -> Seq<char> {
        if self.steps.contains_key(column) {
            let (op, amount) = self.steps[column];
            column + " = COALESCE("@ + table + "."@ + column + ", 0)"@ + op.sign() + (if op
                == Arith::Dec {
                decimal((if amount < 0 {
                    -amount
                } else {
                    amount as int
                }) as nat)
            } else {
                signed_decimal(amount as int)
            })
        } else {
            column + " = EXCLUDED."@ + column
        }
    }

    /// The assignments for a row that is there.
    pub open spec fn assignments(self, table: Seq<char>, key: Seq<char>) -> Seq<Seq<char>> {
        columns_but(sorted_keys(self.row()), key).map_values(
            |c: Seq<char>| self.assignment(table, c),
        )
    }

    /// The text of the statement.
    pub open spec fn sql(self, table: Seq<char>, key: Seq<char>) -> Seq<char> {
        let head = insert_head(table, self.row()) + " ON CONFLICT ("@ + key;
        if columns_but(sorted_keys(self.row()), key).len() == 0 && self.steps
            =~= Map::<Seq<char>, (Arith, i64)>::empty() {
            head + ") DO NOTHING RETURNING *"@
        } else {
            head + ") DO UPDATE SET "@ + join(self.assignments(table, key), ", "@)
                + " RETURNING *"@
        }
    }
}

/// A row to be added, or to be changed where its key is there.
#[derive(Debug, PartialEq)]
pub struct Upsert {
    keys: StringMap<SqlValue>,
    values: StringMap<SqlValue>,
    steps: StringMap<(Arith, i64)>,
}

impl View for Upsert {
    type V = UpsertView;

    closed spec fn view(&self) -> UpsertView {
        UpsertView { keys: self.keys@, values: self.values@, steps: self.steps@ }
    }
}

impl Upsert {
    /// A row without values.
    pub fn new() -> (r: Self)
        ensures
            r@ == UpsertView::empty(),
    {
        Upsert { keys: StringMap::new(), values: StringMap::new(), steps: StringMap::new() }
    }

    /// Sets the value of a key column.
    pub fn key(self, column: &str, value: SqlValue) -> (r: Self)
        ensures
            r@ == self@.key(column@, value),
    {
        Upsert {
            keys: self.keys.insert(owned(column), value),
            values: self.values,
            steps: self.steps,
        }
    }

    /// Sets the value of a column.
    pub fn set(self, column: &str, value: SqlValue) -> (r: Self)
        ensures
            r@ == self@.set(column@, value),
    {
        Upsert {
            keys: self.keys,
            values: self.values.insert(owned(column), value),
            steps: self.steps,
        }
    }

    /// Sets an arithmetic step for a column, and the value that a new row starts with.
    pub fn step(self, column: &str, op: Arith, amount: i64, start: SqlValue) -> (r: Self)
        ensures
            r@ == self@.step(column@, op, amount, start),
    {
        Upsert {
            keys: self.keys,
            values: self.values.insert(owned(column), start),
            steps: self.steps.insert(owned(column), (op, amount)),
        }
    }

    /// Writes what becomes of a column of a row that is there.
    fn assignment_text(steps: &StringMap<(Arith, i64)>, table: &str, column: &str) -> (r: String)
        ensures
            forall|view: UpsertView|
                view.steps == steps@ ==> r@ == #[trigger] view.assignment(table@, column@),
    {
        let mut out: String = owned(column);
        match steps.get(column) {
            Some(step) => {
                let op: Arith = step.0;
                let amount: i64 = step.1;
                out.append(" = COALESCE(");
                out.append(table);
                out.append(".");
                out.append(column);
                out.append(", 0)");
                out.append(op.sign_text());
                let number: String = match op {
                    Arith::Dec => decimal_text(
                        if amount < 0 {
                            (-(amount as i128)) as u128
                        } else {
                            amount as u128
                        },
                    ),
                    _ => signed_decimal_text(amount),
                };
                out.append(number.as_str());
            },
            None => {
                out.append(" = EXCLUDED.");
                out.append(column);
            },
        }
        out
    }

    /// The statement that adds or changes the row and gives it back. `key` needs a value.
    pub fn statement(self, table: &str, key: &str) -> (r: Result<Statement, BuildError>)
        ensures
            match r {
                Ok(s) => self@.row().contains_key(key@) && s.says(
                    self@.sql(table@, key@),
                    sorted_values(self@.row()),
                ),
                Err(e) => match e {
                    BuildError::MissingPrimaryKey(f) => f@ == key@ && !self@.row().contains_key(
                        key@,
                    ),
                    _ => false,
                },
            },
    {
        let ghost view = self@;
        if !self.keys.contains_key(key) && !self.values.contains_key(key) {
            return Err(BuildError::MissingPrimaryKey(owned(key)));
        }
        let step_columns: Vec<String> = self.steps.keys();
        let (columns, params) = self.keys.merge(self.values).into_columns();
        let mut parts: Vec<String> = Vec::new();
        let mut i: usize = 0;
        let ghost cols = texts(columns@);
        assert(columns_but(cols.take(0), key@).map_values(
            |c: Seq<char>| view.assignment(table@, c),
        ) =~= texts(parts@));
        while i < columns.len()
            invariant
                i <= columns@.len(),
                cols == texts(columns@),
                view.steps == self.steps@,
                texts(parts@) == columns_but(cols.take(i as int), key@).map_values(
                    |c: Seq<char>| view.assignment(table@, c),
                ),
            decreases columns@.len() - i,
        {
            let ghost earlier = texts(parts@);
            proof {
                assert(cols.take(i + 1).drop_last() =~= cols.take(i as int));
                assert(cols.take(i + 1).last() == columns@[i as int]@);
            }
            if !same_text(columns[i].as_str(), key) {
                let part: String = Self::assignment_text(&self.steps, table, columns[i].as_str());
                assert(part@ == view.assignment(table@, columns@[i as int]@));
                parts.push(part);
                assert(texts(parts@) =~= earlier.push(part@));
            }
            assert(texts(parts@) =~= columns_but(cols.take(i + 1), key@).map_values(
                |c: Seq<char>| view.assignment(table@, c),
            ));
            i = i + 1;
        }
        assert(cols.take(columns@.len() as int) =~= cols);
        let mut sql: String = insert_head_text(table, &columns);
        sql.append(" ON CONFLICT (");
        sql.append(key);
        assert(sql@ == insert_head(table@, view.row()) + " ON CONFLICT ("@ + key@);
        let still: bool = parts.is_empty() && step_columns.is_empty();
        proof {
            lemma_no_keys(view.steps, texts(step_columns@));
        }
        if still {
            sql.append(") DO NOTHING RETURNING *");
        } else {
            let list: String = join_texts(&parts, ", ");
            sql.append(") DO UPDATE SET ");
            sql.append(list.as_str());
            sql.append(" RETURNING *");
        }
        Ok(Statement { sql, params })
    }
}

/// A map whose keys make an empty list is the empty map.
proof fn lemma_no_keys<T>(m: Map<Seq<char>, T>, listed: Seq<Seq<char>>)
    requires
        listed == sorted_keys(m),
        lists_keys(listed, m),
    ensures
        (listed.len() == 0) == (m =~= Map::<Seq<char>, T>::empty()),
{
    if listed.len() == 0 {
        assert forall|k: Seq<char>| !m.contains_key(k) by {
            assert(!listed.contains(k));
        }
        assert(m =~= Map::<Seq<char>, T>::empty());
    } else {
        assert(listed.contains(listed[0]));
    }
}

/// The values that a row has for some of the columns, in the order of the columns.
pub open spec fn row_values(columns: Seq<Seq<char>>, row: Map<Seq<char>, SqlValue>) -> Seq<SqlValue>
    decreases columns.len(),
{
    if columns.len() == 0 {
        Seq::empty()
    } else {
        let rest = row_values(columns.drop_last(), row);
        if row.contains_key(columns.last()) {
            rest.push(row[columns.last()])
        } else {
            rest
        }
    }
}

/// The values that all rows have for the columns, row after row.
pub open spec fn rows_values(
    columns: Seq<Seq<char>>,
    rows: Seq<Map<Seq<char>, SqlValue>>,
) -> Seq<SqlValue>
    decreases rows.len(),
{
    if rows.len() == 0 {
        Seq::empty()
    } else {
        rows_values(columns, rows.drop_last()) + row_values(columns, rows.last())
    }
}

/// The placeholders of one row after another, in brackets.
pub open spec fn row_groups(rows: nat, columns: nat) -> Seq<Seq<char>> {
    Seq::new(
        rows,
        |i: int| "("@ + join(placeholders((i * columns + 1) as nat, columns), ", "@) + ")"@,
    )
}

/// The statement that adds several rows at once. The columns are those of the first row.
pub open spec fn insert_many_sql(
    table: Seq<char>,
    rows: Seq<Map<Seq<char>, SqlValue>>,
) -> Seq<char> {
    let columns = sorted_keys(rows[0]);
    "INSERT INTO "@ + table + " ("@ + join(columns, ", "@) + ") VALUES "@ + join(
        row_groups(rows.len(), columns.len()),
        ", "@,
    )
}

/// The maps that rows hold.
pub open spec fn row_maps(rows: Seq<StringMap<SqlValue>>) -> Seq<Map<Seq<char>, SqlValue>> {
    rows.map_values(|r: StringMap<SqlValue>| r@)
}

/// The values that a row has for the columns.
fn values_for(columns: &Vec<String>, row: &StringMap<SqlValue>) -> (r: Vec<SqlValue>)
    ensures
        r@ == row_values(texts(columns@), row@),
{
    let ghost cols = texts(columns@);
    let mut out: Vec<SqlValue> = Vec::new();
    let mut i: usize = 0;
    while i < columns.len()
        invariant
            i <= columns@.len(),
            cols == texts(columns@),
            out@ == row_values(cols.take(i as int), row@),
        decreases columns@.len() - i,
    {
        proof {
            assert(cols.take(i + 1).drop_last() =~= cols.take(i as int));
            assert(cols.take(i + 1).last() == columns@[i as int]@);
        }
        if let Some(v) = row.get(columns[i].as_str()) {
            out.push(v.clone());
        }
        i = i + 1;
    }
    assert(cols.take(columns@.len() as int) =~= cols);
    out
}

/// The statement that adds several rows at once; none where there are no rows.
pub fn insert_many(table: &str, rows: Vec<StringMap<SqlValue>>) -> (r: Option<Statement>)
    ensures
        match r {
            Some(s) => rows@.len() > 0 && s.says(
                insert_many_sql(table@, row_maps(rows@)),
                rows_values(sorted_keys(rows@[0]@), row_maps(rows@)),
            ),
            None => rows@.len() == 0,
        },
{
    if rows.is_empty() {
        return None;
    }
    let columns: Vec<String> = rows[0].keys();
    let ghost cols = texts(columns@);
    let ghost maps = row_maps(rows@);
    let width: u128 = columns.len() as u128;
    let mut groups: Vec<String> = Vec::new();
    let mut params: Vec<SqlValue> = Vec::new();
    let mut next: u128 = 1;
    let mut i: usize = 0;
    assert(rows_values(cols, maps.take(0)) =~= Seq::empty());
    while i < rows.len()
        invariant
            i <= rows@.len(),
            width == columns@.len(),
            width <= usize::MAX,
            next == i * width + 1,
            cols == texts(columns@),
            maps == row_maps(rows@),
            groups@.len() == i,
            forall|j: int|
                0 <= j < i ==> #[trigger] groups@[j]@ == row_groups(rows@.len(), cols.len())[j],
            params@ == rows_values(cols, maps.take(i as int)),
        decreases rows@.len() - i,
    {
        assert(i * width <= usize::MAX * usize::MAX) by (nonlinear_arith)
            requires
                i <= usize::MAX,
                width <= usize::MAX,
        ;
        assert(usize::MAX * usize::MAX + usize::MAX + 1 <= u128::MAX) by (nonlinear_arith)
            requires
                usize::MAX <= 0xffff_ffff_ffff_ffff,
        ;
        assert((i + 1) * width == i * width + width) by (nonlinear_arith);
        let marks: Vec<String> = placeholder_texts(next, columns.len());
        let list: String = join_texts(&marks, ", ");
        let mut group: String = owned("(");
        group.append(list.as_str());
        group.append(")");
        assert(group@ =~= row_groups(rows@.len(), cols.len())[i as int]);
        groups.push(group);
        let mut values: Vec<SqlValue> = values_for(&columns, &rows[i]);
        proof {
            assert(maps.take(i + 1).drop_last() =~= maps.take(i as int));
            assert(maps.take(i + 1).last() == rows@[i as int]@);
        }
        params.append(&mut values);
        next = next + width;
        i = i + 1;
    }
    assert(maps.take(rows@.len() as int) =~= maps);
    assert(texts(groups@) =~= row_groups(rows@.len(), cols.len()));
    let names: String = join_texts(&columns, ", ");
    let list: String = join_texts(&groups, ", ");
    let mut sql: String = owned("INSERT INTO ");
    sql.append(table);
    sql.append(" (");
    sql.append(names.as_str());
    sql.append(") VALUES ");
    sql.append(list.as_str());
    Some(Statement { sql, params })
}

/// The statement that fetches the row with a key.
pub open spec fn find_sql(table: Seq<char>, key: Seq<char>) -> Seq<char> {
    "SELECT * FROM "@ + table + " WHERE "@ + key + " = $1"@
}

/// The statement that adds a row with nothing but its key, unless it is there.
pub open spec fn claim_sql(table: Seq<char>, key: Seq<char>) -> Seq<char> {
    "INSERT INTO "@ + table + " ("@ + key + ") VALUES ($1) ON CONFLICT ("@ + key
        + ") DO NOTHING RETURNING *"@
}

/// The statement that fetches the row with a key.
pub fn find(table: &str, key: &str, value: SqlValue) -> (r: Statement)
    ensures
        r.says(find_sql(table@, key@), seq![value]),
{
    let mut sql: String = owned("SELECT * FROM ");
    sql.append(table);
    sql.append(" WHERE ");
    sql.append(key);
    sql.append(" = $1");
    let params: Vec<SqlValue> = vec![value];
    assert(params@ =~= seq![value]);
    Statement { sql, params }
}

/// The two statements that find a row or create it: the first adds it unless it is there; where
/// that gives no row back, the second fetches it.
#[derive(Debug, PartialEq)]
pub struct FindOrCreate {
    pub insert: Statement,
    pub select: Statement,
}

impl FindOrCreate {
    /// The statements for the row of `table` whose column `key` is `value`.
    pub fn new(table: &str, key: &str, value: SqlValue) -> (r: Self)
        ensures
            r.insert.says(claim_sql(table@, key@), seq![value]),
            r.select.says(find_sql(table@, key@), seq![value]),
    {
        let mut sql: String = owned("INSERT INTO ");
        sql.append(table);
        sql.append(" (");
        sql.append(key);
        sql.append(") VALUES ($1) ON CONFLICT (");
        sql.append(key);
        sql.append(") DO NOTHING RETURNING *");
        let params: Vec<SqlValue> = vec![value.clone()];
        assert(params@ =~= seq![value]);
        FindOrCreate { insert: Statement { sql, params }, select: find(table, key, value) }
    }

    /// The row: the one that was added, or else the one that was fetched.
    pub fn outcome<T>(added: Option<T>, fetched: Option<T>) -> (r: Result<T, BuildError>)
        ensures
            match added {
                Some(row) => r == Ok::<T, BuildError>(row),
                None => match fetched {
                    Some(row) => r == Ok::<T, BuildError>(row),
                    None => r == Err::<T, BuildError>(BuildError::RecordVanished),
                },
            },
    {
        match added {
            Some(row) => Ok(row),
            None => match fetched {
                Some(row) => Ok(row),
                None => Err(BuildError::RecordVanished),
            },
        }
    }
}

/// A statement that adds a row lists every column that was set, each once, and each of its
/// placeholders stands for the value of its column.
pub proof fn lemma_insert_binds(values: Map<Seq<char>, SqlValue>)
    requires
        values.dom().finite(),
    ensures
        lists_keys(sorted_keys(values), values),
        sorted_values(values).len() == sorted_keys(values).len(),
        forall|i: int|
            0 <= i < sorted_keys(values).len() ==> sorted_values(values)[i]
                == values[#[trigger] sorted_keys(values)[i]],
{
    lemma_keys_listed(values);
}

/// The order in which two columns of a new row are set does not matter; of two values for one
/// column, the later counts.
pub proof fn lemma_set_order(
    create: CreateView,
    a: Seq<char>,
    x: SqlValue,
    b: Seq<char>,
    y: SqlValue,
)
    ensures
        a != b ==> create.set(a, x).set(b, y) == create.set(b, y).set(a, x),
        create.set(a, x).set(a, y) == create.set(a, y),
{
    assert(create.set(a, x).set(a, y).values =~= create.set(a, y).values);
    if a != b {
        assert(create.set(a, x).set(b, y).values =~= create.set(b, y).set(a, x).values);
    }
}

/// Where a key column is also set, the value that was set counts.
pub proof fn lemma_set_beats_key(upsert: UpsertView, column: Seq<char>, x: SqlValue, y: SqlValue)
    ensures
        upsert.key(column, x).set(column, y).row()[column] == y,
        upsert.set(column, y).key(column, x).row()[column] == y,
{
}

/// The values of a row that has all the columns, column by column.
proof fn lemma_row_values(columns: Seq<Seq<char>>, row: Map<Seq<char>, SqlValue>)
    requires
        forall|j: int| 0 <= j < columns.len() ==> row.contains_key(#[trigger] columns[j]),
    ensures
        row_values(columns, row) == columns.map_values(|c: Seq<char>| row[c]),
    decreases columns.len(),
{
    if columns.len() > 0 {
        let shorter = columns.drop_last();
        assert forall|j: int| 0 <= j < shorter.len() implies row.contains_key(
            #[trigger] shorter[j],
        ) by {
            assert(shorter[j] == columns[j]);
        }
        lemma_row_values(shorter, row);
        assert(row.contains_key(columns[columns.len() - 1]));
        assert(columns.map_values(|c: Seq<char>| row[c]) =~= shorter.map_values(
            |c: Seq<char>| row[c],
        ).push(row[columns.last()]));
    } else {
        assert(columns.map_values(|c: Seq<char>| row[c]) =~= Seq::empty());
    }
}

/// Where every row has the columns of the first, each placeholder of the statement that adds
/// them stands for the value of its row and column.
pub proof fn lemma_insert_many_binds(columns: Seq<Seq<char>>, rows: Seq<Map<Seq<char>, SqlValue>>)
    requires
        forall|i: int, j: int|
            0 <= i < rows.len() && 0 <= j < columns.len() ==> (#[trigger] rows[i]).contains_key(
                #[trigger] columns[j],
            ),
    ensures
        rows_values(columns, rows).len() == rows.len() * columns.len(),
        forall|i: int, j: int|
            0 <= i < rows.len() && 0 <= j < columns.len() ==> rows_values(columns, rows)[i
                * columns.len() + j] == (#[trigger] rows[i])[#[trigger] columns[j]],
    decreases rows.len(),
{
    let width = columns.len() as int;
    if rows.len() > 0 {
        let shorter = rows.drop_last();
        let last = rows.last();
        let count = shorter.len() as int;
        assert forall|i: int, j: int| 0 <= i < shorter.len() && 0 <= j < columns.len() implies (
        #[trigger] shorter[i]).contains_key(#[trigger] columns[j]) by {
            assert(shorter[i] == rows[i]);
        }
        lemma_insert_many_binds(columns, shorter);
        assert forall|j: int| 0 <= j < columns.len() implies last.contains_key(
            #[trigger] columns[j],
        ) by {
            assert(rows[rows.len() - 1].contains_key(columns[j]));
        }
        lemma_row_values(columns, last);
        assert(rows.len() * columns.len() == count * width + width) by (nonlinear_arith)
            requires
                rows.len() == count + 1,
                columns.len() == width,
        ;
        assert forall|i: int, j: int| 0 <= i < rows.len() && 0 <= j < columns.len() implies
            rows_values(columns, rows)[i * columns.len() + j] == (#[trigger] rows[i])[
            #[trigger] columns[j]] by {
            if i < count {
                assert(i * width + j < count * width) by (nonlinear_arith)
                    requires
                        0 <= i < count,
                        0 <= j < width,
                ;
                assert(0 <= i * width) by (nonlinear_arith)
                    requires
                        0 <= i,
                        0 <= width,
                ;
                assert(shorter[i] == rows[i]);
                assert(rows_values(columns, shorter)[i * width + j] == shorter[i][columns[j]]);
            } else {
                assert(rows_values(columns, rows)[count * width + j] == row_values(
                    columns,
                    last,
                )[j]);
            }
        }
    } else {
        assert(rows.len() * columns.len() == 0) by (nonlinear_arith)
            requires
                rows.len() == 0,
        ;
    }
}

} // verus!
