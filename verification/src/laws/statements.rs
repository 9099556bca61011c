//! What statements say, and which values their placeholders stand for.

use vstd::prelude::*;
use crate::orm::accounts::required_of_account;
use crate::orm::calls::{filled, UpsertCall};
use crate::orm::change::{conditions, Arith, FragmentsView, UpdateView};
use crate::orm::channels::required_of_channel;
use crate::orm::filter::{comparison, membership, placeholder, placeholders, FilterView};
use crate::orm::guild_members::required_of_membership;
use crate::orm::guilds::required_of_guild;
use crate::orm::insert::{
    claim_sql, columns_but, find_sql, first_missing, insert_head, insert_many_sql,
    lemma_insert_many_binds, row_groups, row_values, rows_values, CreatePlan, CreateView,
    UpsertView,
};
use crate::orm::lookup::{asks_all, asks_one, keyed};
use crate::orm::messages::required_of_message;
use crate::orm::users::required_of_user;
use crate::orm::value::{SqlValue, Statement};
use crate::string_map::{
    lemma_keys_listed, lemma_sorted_keys, lists_keys, sorted_keys, sorted_values,
};
use crate::text::chars::join;
use crate::text::decimal::{decimal, signed_decimal};

verus! {

/// Texts that are put together from a list start with what its first texts come to.
pub proof fn lemma_join_grows(parts: Seq<Seq<char>>, sep: Seq<char>, more: Seq<char>)
    ensures
        join(parts.push(more), sep) == if parts.len() == 0 {
            more
        } else {
            join(parts, sep) + sep + more
        },
{
    assert(parts.push(more).drop_last() =~= parts);
}

/// The first placeholder.
proof fn lemma_first_mark()
    ensures
        placeholder(1) == "$1"@,
{
    reveal_strlit("$");
    reveal_strlit("$1");
    assert(placeholder(1) =~= "$1"@);
}

/// A query by one column asks for the rows of the table whose column is the one value that it
/// binds; a query for one row asks for no more than one.
pub proof fn lemma_lookup_asks(s: Statement, table: Seq<char>, column: Seq<char>, value: String)
    ensures
        asks_all(s, table, column, value) <==> s.sql@ == "SELECT * FROM "@ + table + " WHERE "@
            + column + " = $1"@ && s.params@ == seq![SqlValue::Text(value)],
        asks_one(s, table, column, value) <==> s.sql@ == "SELECT * FROM "@ + table + " WHERE "@
            + column + " = $1 LIMIT 1"@ && s.params@ == seq![SqlValue::Text(value)],
{
    let filter = keyed(column, value);
    lemma_first_mark();
    reveal_strlit(" ");
    reveal_strlit("=");
    reveal_strlit(" = $1");
    reveal_strlit("$1");
    reveal_strlit(" LIMIT ");
    reveal_strlit(" = $1 LIMIT 1");
    assert(filter.args =~= seq![SqlValue::Text(value)]);
    assert(filter.clauses[0] =~= column + " = $1"@);
    assert(filter.clauses.len() == 1);
    assert(join(filter.clauses, " AND "@) == column + " = $1"@);
    assert(filter.select_sql(table) =~= "SELECT * FROM "@ + table + " WHERE "@ + column
        + " = $1"@);
    assert(filter.with_limit(1).select_sql(table) =~= "SELECT * FROM "@ + table + " WHERE "@
        + column + " = $1 LIMIT 1"@);
}

/// The texts of conditions name their column, and the number of the value that they bind.
pub proof fn lemma_condition_texts(column: Seq<char>, op: Seq<char>, n: nat, count: nat)
    ensures
        comparison(column, op, n) == column + " "@ + op + " $"@ + decimal(n),
        membership(column, n, count) == column + " IN ("@ + join(
            Seq::new(count, |i: int| "$"@ + decimal((n + i) as nat)),
            ", "@,
        ) + ")"@,
{
    reveal_strlit(" ");
    reveal_strlit("$");
    reveal_strlit(" $");
    assert(comparison(column, op, n) =~= column + " "@ + op + " $"@ + decimal(n));
    assert(placeholders(n, count) =~= Seq::new(count, |i: int| "$"@ + decimal((n + i) as nat)));
}

/// Each condition that is added to a query narrows it further, and leaves what it asks for
/// otherwise as it was. The value of a comparison is bound behind those that were bound before.
pub proof fn lemma_conditions_add_up(
    filter: FilterView,
    column: Seq<char>,
    op: Seq<char>,
    value: SqlValue,
    clause: Seq<char>,
    values: Seq<SqlValue>,
)
    ensures
        filter.compare(column, op, value).where_sql() == narrowed(
            filter,
            column + " "@ + op + " $"@ + decimal((filter.args.len() + 1) as nat),
        ),
        filter.compare(column, op, value).args == filter.args.push(value),
        filter.condition(clause).where_sql() == narrowed(filter, clause),
        filter.condition(clause).args == filter.args,
        values.len() > 0 ==> filter.one_of(column, values).where_sql() == narrowed(
            filter,
            column + " IN ("@ + join(
                Seq::new(
                    values.len(),
                    |i: int| "$"@ + decimal((filter.args.len() + 1 + i) as nat),
                ),
                ", "@,
            ) + ")"@,
        ),
        filter.one_of(column, values).args == filter.args + values,
        values.len() == 0 ==> filter.one_of(column, values).where_sql() == filter.where_sql(),
        filter.compare(column, op, value).order_sql() == filter.order_sql(),
        filter.compare(column, op, value).bounds_sql() == filter.bounds_sql(),
        filter.condition(clause).order_sql() == filter.order_sql(),
        filter.condition(clause).bounds_sql() == filter.bounds_sql(),
        filter.one_of(column, values).order_sql() == filter.order_sql(),
        filter.one_of(column, values).bounds_sql() == filter.bounds_sql(),
        FilterView::empty().where_sql() == Seq::<char>::empty(),
        FilterView::empty().args == Seq::<SqlValue>::empty(),
{
    let n = (filter.args.len() + 1) as nat;
    reveal_strlit(" WHERE ");
    assert(" WHERE "@.len() == 7);
    lemma_condition_texts(column, op, n, values.len());
    lemma_join_grows(filter.clauses, " AND "@, comparison(column, op, n));
    lemma_join_grows(filter.clauses, " AND "@, clause);
    lemma_join_grows(filter.clauses, " AND "@, membership(column, n, values.len()));
    assert(filter.compare(column, op, value).where_sql() =~= narrowed(
        filter,
        comparison(column, op, n),
    ));
    assert(filter.condition(clause).where_sql() =~= narrowed(filter, clause));
    assert(Seq::new(values.len(), |i: int| "$"@ + decimal((n + i) as nat)) =~= Seq::new(
        values.len(),
        |i: int| "$"@ + decimal((filter.args.len() + 1 + i) as nat),
    ));
    if values.len() > 0 {
        assert(filter.one_of(column, values).where_sql() =~= narrowed(
            filter,
            membership(column, n, values.len()),
        ));
    } else {
        assert(filter.args + values =~= filter.args);
    }
}

/// The conditions of a query and one more.
pub open spec fn narrowed(filter: FilterView, clause: Seq<char>) -> Seq<char> {
    if filter.where_sql().len() == 0 {
        " WHERE "@ + clause
    } else {
        filter.where_sql() + " AND "@ + clause
    }
}

/// Each column to order by comes behind the earlier ones; a limit and an offset are stated last.
pub proof fn lemma_order_and_bounds(
    filter: FilterView,
    column: Seq<char>,
    direction: Seq<char>,
    number: usize,
)
    ensures
        filter.order(column, direction).order_sql() == if filter.order_sql().len() == 0 {
            " ORDER BY "@ + column + " "@ + direction
        } else {
            filter.order_sql() + ", "@ + column + " "@ + direction
        },
        filter.with_limit(number).bounds_sql() == " LIMIT "@ + decimal(number as nat) + (
        match filter.offset {
            Some(n) => " OFFSET "@ + decimal(n as nat),
            None => Seq::<char>::empty(),
        }),
        filter.with_offset(number).bounds_sql() == (match filter.limit {
            Some(n) => " LIMIT "@ + decimal(n as nat),
            None => Seq::<char>::empty(),
        }) + " OFFSET "@ + decimal(number as nat),
        filter.order(column, direction).where_sql() == filter.where_sql(),
        filter.with_limit(number).where_sql() == filter.where_sql(),
        filter.with_offset(number).where_sql() == filter.where_sql(),
        filter.order(column, direction).bounds_sql() == filter.bounds_sql(),
        filter.with_limit(number).order_sql() == filter.order_sql(),
        filter.with_offset(number).order_sql() == filter.order_sql(),
        FilterView::empty().order_sql() == Seq::<char>::empty(),
        FilterView::empty().bounds_sql() == Seq::<char>::empty(),
{
    let text = |p: (Seq<char>, Seq<char>)| p.0 + " "@ + p.1;
    let parts = filter.order_by.map_values(text);
    lemma_join_grows(parts, ", "@, column + " "@ + direction);
    assert(filter.order_by.push((column, direction)).map_values(text) =~= parts.push(
        column + " "@ + direction,
    ));
    reveal_strlit(" ORDER BY ");
    assert(" ORDER BY "@.len() == 10);
    assert(filter.order(column, direction).order_sql() =~= if filter.order_sql().len() == 0 {
        " ORDER BY "@ + column + " "@ + direction
    } else {
        filter.order_sql() + ", "@ + column + " "@ + direction
    });
    assert(filter.with_limit(number).bounds_sql() =~= " LIMIT "@ + decimal(number as nat) + (
    match filter.offset {
        Some(n) => " OFFSET "@ + decimal(n as nat),
        None => Seq::<char>::empty(),
    }));
    assert(filter.with_offset(number).bounds_sql() =~= (match filter.limit {
        Some(n) => " LIMIT "@ + decimal(n as nat),
        None => Seq::<char>::empty(),
    }) + " OFFSET "@ + decimal(number as nat));
    assert(FilterView::empty().bounds_sql() =~= Seq::<char>::empty());
}

/// Where each part of a query stands. A sum binds what it gives for no rows behind the values of
/// the conditions.
pub proof fn lemma_query_parts(
    filter: FilterView,
    table: Seq<char>,
    field: Seq<char>,
    func: Seq<char>,
)
    ensures
        filter.select_sql(table) == "SELECT * FROM "@ + table + filter.where_sql()
            + filter.order_sql() + filter.bounds_sql(),
        filter.count_sql(table) == "SELECT COUNT(*) FROM "@ + table + filter.where_sql(),
        filter.aggregate_sql(table, field, func) == "SELECT "@ + func + "("@ + field + ") FROM "@
            + table + filter.where_sql(),
        filter.sum_sql(table, field) == "SELECT COALESCE(SUM("@ + field + "), $"@ + decimal(
            (filter.args.len() + 1) as nat,
        ) + ") FROM "@ + table + filter.where_sql(),
        filter.sum_cast_sql(table, field) == "SELECT COALESCE(CAST(SUM("@ + field
            + ") AS BIGINT), $"@ + decimal((filter.args.len() + 1) as nat) + ") FROM "@ + table
            + filter.where_sql(),
{
    reveal_strlit("$");
    reveal_strlit("), ");
    reveal_strlit("), $");
    reveal_strlit(") AS BIGINT), ");
    reveal_strlit(") AS BIGINT), $");
    let n = decimal((filter.args.len() + 1) as nat);
    assert("), "@ + "$"@ =~= "), $"@);
    assert(") AS BIGINT), "@ + "$"@ =~= ") AS BIGINT), $"@);
    assert(filter.sum_sql(table, field) =~= "SELECT COALESCE(SUM("@ + field + ("), "@ + "$"@) + n
        + ") FROM "@ + table + filter.where_sql());
    assert(filter.sum_cast_sql(table, field) =~= "SELECT COALESCE(CAST(SUM("@ + field + (
    ") AS BIGINT), "@ + "$"@) + n + ") FROM "@ + table + filter.where_sql());
}

/// In the statement that makes a change, the assignment of each column that is set names the
/// place of its value, each step names its column, its operation and the place of its amount,
/// and each condition the place of its value behind all of these.
pub proof fn lemma_change_numbers(update: UpdateView, table: Seq<char>)
    requires
        update.set_columns.len() == update.set_args.len(),
    ensures
        ({
            let sets = update.set_columns.len();
            let steps = update.steps.len();
            let conds = update.filter.fragments.len();
            let parts = update.assignments();
            let params = update.params();
            &&& parts.len() == sets + steps
            &&& forall|i: int|
                0 <= i < sets ==> #[trigger] parts[i] == update.set_columns[i] + " = $"@ + decimal(
                    (i + 1) as nat,
                ) && params[i] == update.set_args[i]
            &&& forall|i: int|
                0 <= i < steps ==> {
                    let (column, op, amount) = #[trigger] update.steps[i];
                    &&& parts[sets + i] == column + " = "@ + column + (match op {
                        Arith::Inc => " + $"@,
                        Arith::Dec => " - $"@,
                        Arith::Mul => " * $"@,
                        Arith::Div => " / $"@,
                    }) + decimal((sets + i + 1) as nat)
                    &&& params[sets + i] == SqlValue::BigInt(amount)
                }
            &&& conds == 0 ==> params.len() == sets + steps && update.sql(table) == "UPDATE "@
                + table + " SET "@ + join(parts, ", "@) + " RETURNING *"@
            &&& conds > 0 ==> {
                &&& update.sql(table) == "UPDATE "@ + table + " SET "@ + join(parts, ", "@)
                    + " WHERE "@ + join(
                    Seq::new(
                        conds,
                        |i: int|
                            update.filter.fragments[i] + " = $"@ + decimal(
                                (sets + steps + 1 + i) as nat,
                            ),
                    ),
                    " AND "@,
                ) + " RETURNING *"@
                &&& params.len() == sets + steps + update.filter.args.len()
                &&& forall|i: int|
                    0 <= i < update.filter.args.len() ==> params[sets + steps + i]
                        == #[trigger] update.filter.args[i]
            }
        }),
{
    let sets = update.set_columns.len();
    let steps = update.steps.len();
    let conds = update.filter.fragments.len();
    let parts = update.assignments();
    reveal_strlit(" = ");
    reveal_strlit("$");
    reveal_strlit(" = $");
    reveal_strlit(" + ");
    reveal_strlit(" - ");
    reveal_strlit(" * ");
    reveal_strlit(" / ");
    reveal_strlit(" + $");
    reveal_strlit(" - $");
    reveal_strlit(" * $");
    reveal_strlit(" / $");
    assert(" = "@ + "$"@ =~= " = $"@);
    assert(" + "@ + "$"@ =~= " + $"@);
    assert(" - "@ + "$"@ =~= " - $"@);
    assert(" * "@ + "$"@ =~= " * $"@);
    assert(" / "@ + "$"@ =~= " / $"@);
    assert forall|i: int| 0 <= i < sets implies #[trigger] parts[i] == update.set_columns[i]
        + " = $"@ + decimal((i + 1) as nat) by {
        assert(parts[i] =~= update.set_columns[i] + (" = "@ + "$"@) + decimal((i + 1) as nat));
    }
    assert forall|i: int| 0 <= i < steps implies ({
        let (column, op, amount) = #[trigger] update.steps[i];
        parts[sets + i] == column + " = "@ + column + (match op {
            Arith::Inc => " + $"@,
            Arith::Dec => " - $"@,
            Arith::Mul => " * $"@,
            Arith::Div => " / $"@,
        }) + decimal((sets + i + 1) as nat)
    }) by {
        let (column, op, amount) = update.steps[i];
        assert(parts[sets + i] =~= column + " = "@ + column + (op.sign() + "$"@) + decimal(
            (sets + i + 1) as nat,
        ));
    }
    let from = (sets + steps + 1) as nat;
    lemma_conditions_numbered(update.filter.fragments, from);
    if conds > 0 {
        assert(update.sql(table) =~= "UPDATE "@ + table + " SET "@ + join(parts, ", "@) + " WHERE "@
            + join(conditions(update.filter.fragments, from), " AND "@) + " RETURNING *"@);
    } else {
        assert(update.sql(table) =~= "UPDATE "@ + table + " SET "@ + join(parts, ", "@)
            + " RETURNING *"@);
    }
}

/// Each condition is made equal to the value whose number follows that of the one before.
proof fn lemma_conditions_numbered(fragments: Seq<Seq<char>>, from: nat)
    ensures
        conditions(fragments, from) == Seq::new(
            fragments.len(),
            |i: int| fragments[i] + " = $"@ + decimal((from + i) as nat),
        ),
{
    reveal_strlit(" = ");
    reveal_strlit("$");
    reveal_strlit(" = $");
    assert(" = "@ + "$"@ =~= " = $"@);
    assert forall|i: int| 0 <= i < fragments.len() implies #[trigger] conditions(
        fragments,
        from,
    )[i] == fragments[i] + " = $"@ + decimal((from + i) as nat) by {
        assert(conditions(fragments, from)[i] =~= fragments[i] + (" = "@ + "$"@) + decimal(
            (from + i) as nat,
        ));
    }
    assert(conditions(fragments, from) =~= Seq::new(
        fragments.len(),
        |i: int| fragments[i] + " = $"@ + decimal((from + i) as nat),
    ));
}

/// The statements that remove and that count rows name the table, and state every condition with
/// the number of its value, from one on.
pub proof fn lemma_removal_numbers(filter: FragmentsView, table: Seq<char>)
    ensures
        ({
            let conds = join(
                Seq::new(
                    filter.fragments.len(),
                    |i: int| filter.fragments[i] + " = $"@ + decimal((i + 1) as nat),
                ),
                " AND "@,
            );
            &&& filter.delete_sql(table) == "DELETE FROM "@ + table + " WHERE "@ + conds
            &&& filter.count_sql(table) == "SELECT COUNT(*) FROM "@ + table + " WHERE "@ + conds
        }),
{
    lemma_conditions_numbered(filter.fragments, 1);
    let parts = Seq::new(
        filter.fragments.len(),
        |i: int| filter.fragments[i] + " = $"@ + decimal((i + 1) as nat),
    );
    assert(conditions(filter.fragments, 1) =~= parts);
    assert(filter.delete_sql(table) =~= "DELETE FROM "@ + table + " WHERE "@ + join(
        parts,
        " AND "@,
    ));
    assert(filter.count_sql(table) =~= "SELECT COUNT(*) FROM "@ + table + " WHERE "@ + join(
        parts,
        " AND "@,
    ));
}

/// Each condition of a change, of a removal or of a check is kept, in the order in which they
/// were given, with its values.
pub proof fn lemma_fragments_add_up(
    filter: FragmentsView,
    fragment: Seq<char>,
    value: SqlValue,
    values: Seq<SqlValue>,
)
    ensures
        filter.compare(fragment, value).fragments == filter.fragments.push(fragment),
        filter.compare(fragment, value).args == filter.args.push(value),
        filter.condition(fragment).fragments == filter.fragments.push(fragment),
        filter.condition(fragment).args == filter.args,
        filter.one_of(fragment, values).args == filter.args + values,
        values.len() == 0 ==> filter.one_of(fragment, values).fragments == filter.fragments,
        values.len() > 0 ==> filter.one_of(fragment, values).fragments == filter.fragments.push(
            fragment + " IN ("@ + join(
                Seq::new(
                    values.len(),
                    |i: int| "$"@ + decimal((filter.args.len() + 1 + i) as nat),
                ),
                ", "@,
            ) + ")"@,
        ),
        FragmentsView::empty().fragments.len() == 0,
        FragmentsView::empty().args.len() == 0,
{
    let n = (filter.args.len() + 1) as nat;
    lemma_condition_texts(fragment, fragment, n, values.len());
    assert(Seq::new(values.len(), |i: int| "$"@ + decimal((n + i) as nat)) =~= Seq::new(
        values.len(),
        |i: int| "$"@ + decimal((filter.args.len() + 1 + i) as nat),
    ));
    if values.len() == 0 {
        assert(filter.args + values =~= filter.args);
    }
}

/// What is set and stepped adds up, in the order in which it was given, and leaves the rest.
pub proof fn lemma_change_adds_up(
    update: UpdateView,
    column: Seq<char>,
    value: SqlValue,
    op: Arith,
    amount: i64,
    filter: FragmentsView,
)
    ensures
        update.set(column, value).set_columns == update.set_columns.push(column),
        update.set(column, value).set_args == update.set_args.push(value),
        update.set(column, value).steps == update.steps,
        update.set(column, value).filter == update.filter,
        update.step(column, op, amount).steps == update.steps.push((column, op, amount)),
        update.step(column, op, amount).set_columns == update.set_columns,
        update.step(column, op, amount).set_args == update.set_args,
        update.step(column, op, amount).filter == update.filter,
        update.filtered(filter).filter == filter,
        update.filtered(filter).set_columns == update.set_columns,
        update.filtered(filter).set_args == update.set_args,
        update.filtered(filter).steps == update.steps,
{
}

/// The marks of a row: as many as it has columns, numbered on from `from`.
pub open spec fn marks(from: nat, count: nat) -> Seq<Seq<char>> {
    Seq::new(count, |j: int| "$"@ + decimal((from + j) as nat))
}

/// The statement that adds a row names every column that has a value, once and in the order of
/// texts, and the mark number `i + 1` for column number `i`, whose value is bound at that place.
pub proof fn lemma_new_row_numbers(create: CreateView, table: Seq<char>)
    requires
        create.values.dom().finite(),
    ensures
        ({
            let columns = sorted_keys(create.values);
            let params = sorted_values(create.values);
            &&& lists_keys(columns, create.values)
            &&& create.insert_sql(table) == "INSERT INTO "@ + table + " ("@ + join(columns, ", "@)
                + ") VALUES ("@ + join(marks(1, columns.len()), ", "@) + ") RETURNING *"@
            &&& params.len() == columns.len()
            &&& forall|i: int|
                0 <= i < columns.len() ==> params[i] == create.values[#[trigger] columns[i]]
        }),
{
    let columns = sorted_keys(create.values);
    lemma_keys_listed(create.values);
    lemma_head(table, create.values);
    reveal_strlit(")");
    reveal_strlit(" RETURNING *");
    reveal_strlit(") RETURNING *");
    assert(create.insert_sql(table) =~= "INSERT INTO "@ + table + " ("@ + join(columns, ", "@)
        + ") VALUES ("@ + join(marks(1, columns.len()), ", "@) + ") RETURNING *"@);
}

/// The start of a statement that adds a row.
pub proof fn lemma_head(table: Seq<char>, values: Map<Seq<char>, SqlValue>)
    ensures
        insert_head(table, values) == "INSERT INTO "@ + table + " ("@ + join(
            sorted_keys(values),
            ", "@,
        ) + ") VALUES ("@ + join(marks(1, sorted_keys(values).len()), ", "@) + ")"@,
{
    assert(placeholders(1, sorted_keys(values).len()) =~= marks(1, sorted_keys(values).len()));
}

/// The number of the mark of a row and a column, where each row has so many columns.
pub open spec fn number_of(i: int, j: int, width: int) -> int {
    i * width + j + 1
}

/// The row of the mark with a number, where each row has so many.
pub open spec fn row_of(n: int, width: int) -> int {
    (n - 1) / width
}

/// The column of the mark with a number, where each row has so many.
pub open spec fn column_of(n: int, width: int) -> int {
    (n - 1) % width
}

/// The marks of several rows of some columns, each row in brackets.
pub open spec fn marks_by_row(rows: nat, width: nat) -> Seq<Seq<char>> {
    Seq::new(
        rows,
        |i: int| "("@ + join(marks((i * width + 1) as nat, width), ", "@) + ")"@,
    )
}

/// The statement that adds several rows has, for every row, a mark for every column of the first
/// row; that of row `i` and column `j` is the number `i * width + j + 1`, whatever values the rows
/// have.
pub proof fn lemma_new_rows_marks(table: Seq<char>, rows: Seq<Map<Seq<char>, SqlValue>>)
    requires
        rows.len() > 0,
    ensures
        ({
            let columns = sorted_keys(rows[0]);
            let width = columns.len();
            &&& insert_many_sql(table, rows) == "INSERT INTO "@ + table + " ("@ + join(
                columns,
                ", "@,
            ) + ") VALUES "@ + join(marks_by_row(rows.len(), width), ", "@)
            &&& forall|i: int, j: int|
                #![trigger number_of(i, j, width as int)]
                0 <= i < rows.len() && 0 <= j < width ==> marks((i * width + 1) as nat, width)[j]
                    == "$"@ + decimal(number_of(i, j, width as int) as nat)
        }),
{
    let width = sorted_keys(rows[0]).len();
    let groups = marks_by_row(rows.len(), width);
    assert forall|i: int| 0 <= i < rows.len() implies #[trigger] row_groups(rows.len(), width)[i]
        == groups[i] by {
        assert(placeholders((i * width + 1) as nat, width) =~= marks(
            (i * width + 1) as nat,
            width,
        ));
    }
    assert(row_groups(rows.len(), width) =~= groups);
    assert forall|i: int, j: int|
        #![trigger number_of(i, j, width as int)]
        0 <= i < rows.len() && 0 <= j < width implies marks((i * width + 1) as nat, width)[j]
        == "$"@ + decimal(number_of(i, j, width as int) as nat) by {
        let w = width as int;
        assert(0 <= i * w) by (nonlinear_arith)
            requires
                0 <= i,
                0 <= w,
        ;
    }
}

/// What is bound for several rows: for each, in their order, the values of those columns of the
/// first row that it has, in the order of the columns.
pub proof fn lemma_bound_row_by_row(
    columns: Seq<Seq<char>>,
    rows: Seq<Map<Seq<char>, SqlValue>>,
    more: Map<Seq<char>, SqlValue>,
)
    ensures
        rows_values(columns, Seq::empty()) == Seq::<SqlValue>::empty(),
        rows_values(columns, rows.push(more)) == rows_values(columns, rows) + columns.filter(
            |c: Seq<char>| more.contains_key(c),
        ).map_values(|c: Seq<char>| more[c]),
{
    assert(rows.push(more).drop_last() =~= rows);
    lemma_bound_of_row(columns, more);
}

/// What is bound for one row.
proof fn lemma_bound_of_row(columns: Seq<Seq<char>>, row: Map<Seq<char>, SqlValue>)
    ensures
        row_values(columns, row) == columns.filter(
            |c: Seq<char>| row.contains_key(c),
        ).map_values(|c: Seq<char>| row[c]),
    decreases columns.len(),
{
    let has = |c: Seq<char>| row.contains_key(c);
    let value = |c: Seq<char>| row[c];
    reveal(Seq::filter);
    if columns.len() > 0 {
        lemma_bound_of_row(columns.drop_last(), row);
        let kept = columns.drop_last().filter(has);
        let c = columns.last();
        assert(kept.push(c).map_values(value) =~= kept.map_values(value).push(row[c]));
    } else {
        assert(columns.filter(has).map_values(value) =~= Seq::empty());
    }
}

/// In the statement that adds several rows, the mark of row `i` and column `j` has the number
/// `i * width + j + 1`, which is the place of the value that row `i` has for column `j`; together
/// the marks are all numbers from one to the number of values, each once.
pub proof fn lemma_new_rows_numbers(table: Seq<char>, rows: Seq<Map<Seq<char>, SqlValue>>)
    requires
        rows.len() > 0,
        forall|i: int, j: int|
            0 <= i < rows.len() && 0 <= j < sorted_keys(rows[0]).len() ==> (
            #[trigger] rows[i]).contains_key(#[trigger] sorted_keys(rows[0])[j]),
    ensures
        ({
            let columns = sorted_keys(rows[0]);
            let width = columns.len();
            let params = rows_values(columns, rows);
            &&& insert_many_sql(table, rows) == "INSERT INTO "@ + table + " ("@ + join(
                columns,
                ", "@,
            ) + ") VALUES "@ + join(marks_by_row(rows.len(), width), ", "@)
            &&& params.len() == rows.len() * width
            &&& forall|i: int, j: int|
                #![trigger number_of(i, j, width as int)]
                0 <= i < rows.len() && 0 <= j < width ==> 1 <= number_of(i, j, width as int)
                    <= params.len() && params[number_of(i, j, width as int) - 1]
                    == rows[i][columns[j]] && marks((i * width + 1) as nat, width)[j] == "$"@
                    + decimal(number_of(i, j, width as int) as nat)
            &&& forall|n: int|
                1 <= n <= params.len() ==> 0 <= #[trigger] row_of(n, width as int) < rows.len()
                    && 0 <= column_of(n, width as int) < width && number_of(
                    row_of(n, width as int),
                    column_of(n, width as int),
                    width as int,
                ) == n
        }),
{
    let columns = sorted_keys(rows[0]);
    let width = columns.len();
    let params = rows_values(columns, rows);
    lemma_insert_many_binds(columns, rows);
    lemma_new_rows_marks(table, rows);
    assert forall|i: int, j: int|
        #![trigger number_of(i, j, width as int)]
        0 <= i < rows.len() && 0 <= j < width implies 1 <= number_of(i, j, width as int)
        <= params.len() && params[number_of(i, j, width as int) - 1] == rows[i][columns[j]]
        && marks((i * width + 1) as nat, width)[j] == "$"@ + decimal(
        number_of(i, j, width as int) as nat,
    ) by {
        let count = rows.len() as int;
        let w = width as int;
        assert(0 <= i * w && i * w + j < count * w) by (nonlinear_arith)
            requires
                0 <= i < count,
                0 <= j < w,
        ;
        assert(params[i * width + j] == rows[i][columns[j]]);
    }
    assert forall|n: int| 1 <= n <= params.len() implies 0 <= #[trigger] row_of(n, width as int)
        < rows.len() && 0 <= column_of(n, width as int) < width && number_of(
        row_of(n, width as int),
        column_of(n, width as int),
        width as int,
    ) == n by {
        let count = rows.len() as int;
        let w = width as int;
        let m = n - 1;
        assert(w > 0) by (nonlinear_arith)
            requires
                0 <= m < count * w,
                0 <= count,
                0 <= w,
        ;
        assert(0 <= m / w < count && 0 <= m % w < w && (m / w) * w + m % w == m)
            by (nonlinear_arith)
            requires
                0 <= m < count * w,
                0 < w,
        ;
    }
}

/// The two statements that find a row or add it look for and add the same row: the first is the
/// one that adds a row with nothing but its key unless it is there, the second the one that asks
/// for the rows whose key has the value.
pub proof fn lemma_find_or_create_agree(table: Seq<char>, key: Seq<char>, value: SqlValue)
    ensures
        claim_sql(table, key) == filled(seq![UpsertCall::Key { column: key, value }]).sql(
            table,
            key,
        ),
        sorted_values(filled(seq![UpsertCall::Key { column: key, value }]).row()) == seq![value],
        find_sql(table, key) == FilterView::empty().compare(key, "="@, value).select_sql(table),
        FilterView::empty().compare(key, "="@, value).args == seq![value],
{
    let calls = seq![UpsertCall::Key { column: key, value }];
    assert(calls.drop_last() =~= Seq::empty());
    reveal_with_fuel(filled, 2);
    let made = filled(calls);
    let row = made.row();
    assert(row =~= Map::<Seq<char>, SqlValue>::empty().insert(key, value));
    let listed = seq![key];
    assert(lists_keys(listed, row)) by {
        assert forall|k: Seq<char>| #[trigger] listed.contains(k) <==> row.contains_key(k) by {
            assert(listed[0] == key);
        }
    }
    lemma_sorted_keys(listed, row);
    assert(sorted_values(row) =~= seq![value]);
    lemma_head(table, row);
    lemma_first_mark();
    assert(marks(1, 1) =~= seq!["$"@ + decimal(1)]);
    assert(columns_but(listed, key) =~= Seq::<Seq<char>>::empty()) by {
        reveal_with_fuel(columns_but, 2);
        assert(listed.drop_last() =~= Seq::<Seq<char>>::empty());
    }
    reveal_strlit("$1");
    reveal_strlit(") VALUES (");
    reveal_strlit(")");
    reveal_strlit(" ON CONFLICT (");
    reveal_strlit(") VALUES ($1) ON CONFLICT (");
    assert(join(marks(1, 1), ", "@) == "$1"@);
    assert(join(listed, ", "@) == key);
    assert(") VALUES ("@ + "$1"@ + ")"@ + " ON CONFLICT ("@ =~= ") VALUES ($1) ON CONFLICT ("@);
    assert(claim_sql(table, key) =~= made.sql(table, key));
    let filter = FilterView::empty().compare(key, "="@, value);
    reveal_strlit(" ");
    reveal_strlit("=");
    reveal_strlit(" = $1");
    assert(filter.clauses[0] =~= key + " = $1"@);
    assert(join(filter.clauses, " AND "@) == key + " = $1"@);
    assert(filter.select_sql(table) =~= find_sql(table, key));
    assert(filter.args =~= seq![value]);
}

/// What becomes of a column of a row that is there: a column that is stepped is changed by the
/// last step that was given for it, any other takes the value that was to be added.
pub proof fn lemma_step_texts(
    upsert: UpsertView,
    table: Seq<char>,
    column: Seq<char>,
    op: Arith,
    amount: i64,
    start: SqlValue,
    other: Seq<char>,
)
    ensures
        ({
            let next = upsert.step(column, op, amount, start);
            let text = column + " = COALESCE("@ + table + "."@ + column + ", 0)"@;
            let magnitude = if amount < 0 {
                -(amount as int)
            } else {
                amount as int
            };
            &&& next.assignment(table, column) == match op {
                Arith::Inc => text + " + "@ + signed_decimal(amount as int),
                Arith::Dec => text + " - "@ + decimal(magnitude as nat),
                Arith::Mul => text + " * "@ + signed_decimal(amount as int),
                Arith::Div => text + " / "@ + signed_decimal(amount as int),
            }
            &&& next.row()[column] == start
            &&& other != column ==> next.assignment(table, other) == upsert.assignment(table, other)
            &&& UpsertView::empty().assignment(table, other) == other + " = EXCLUDED."@ + other
            &&& upsert.set(column, start).assignment(table, other) == upsert.assignment(
                table,
                other,
            )
            &&& upsert.key(column, start).assignment(table, other) == upsert.assignment(
                table,
                other,
            )
        }),
{
}

/// A row can be added exactly where every column that it needs has a value; the first that has
/// none is the one that is named.
pub proof fn lemma_needs_all(columns: Seq<Seq<char>>, values: Map<Seq<char>, SqlValue>)
    ensures
        match first_missing(columns, values) {
            None => forall|i: int|
                0 <= i < columns.len() ==> values.contains_key(#[trigger] columns[i]),
            Some(name) => exists|i: int|
                {
                    &&& 0 <= i < columns.len()
                    &&& #[trigger] columns[i] == name
                    &&& !values.contains_key(name)
                    &&& forall|j: int| 0 <= j < i ==> values.contains_key(#[trigger] columns[j])
                },
        },
    decreases columns.len(),
{
    if columns.len() > 0 && values.contains_key(columns[0]) {
        let rest = columns.drop_first();
        lemma_needs_all(rest, values);
        if let Some(name) = first_missing(rest, values) {
            let i = choose|i: int|
                {
                    &&& 0 <= i < rest.len()
                    &&& #[trigger] rest[i] == name
                    &&& !values.contains_key(name)
                    &&& forall|j: int| 0 <= j < i ==> values.contains_key(#[trigger] rest[j])
                };
            assert(columns[i + 1] == name);
            assert forall|j: int| 0 <= j < i + 1 implies values.contains_key(
                #[trigger] columns[j],
            ) by {
                if j > 0 {
                    assert(rest[j - 1] == columns[j]);
                }
            }
        } else {
            assert forall|j: int| 0 <= j < columns.len() implies values.contains_key(
                #[trigger] columns[j],
            ) by {
                if j > 0 {
                    assert(rest[j - 1] == columns[j]);
                }
            }
        }
    } else if columns.len() > 0 {
        assert(columns[0] == columns[0]);
    }
}

/// What a row of each table needs.
pub proof fn lemma_needed_columns(values: Map<Seq<char>, SqlValue>)
    ensures
        first_missing(required_of_user(), values) is None <==> values.contains_key("id"@)
            && values.contains_key("username"@) && values.contains_key("tag"@),
        first_missing(required_of_account(), values) is None <==> values.contains_key("id"@)
            && values.contains_key("email"@) && values.contains_key("password"@)
            && values.contains_key("user_id"@) && values.contains_key("token"@),
        first_missing(required_of_guild(), values) is None <==> values.contains_key("id"@)
            && values.contains_key("owner_id"@),
        first_missing(required_of_channel(), values) is None <==> values.contains_key("id"@)
            && values.contains_key("guild_id"@),
        first_missing(required_of_membership(), values) is None <==> values.contains_key(
            "guild_id"@,
        ) && values.contains_key("user_id"@),
        first_missing(required_of_message(), values) is None <==> values.contains_key("id"@)
            && values.contains_key("author_id"@) && values.contains_key("channel_id"@)
            && values.contains_key("guild_id"@),
{
    lemma_needs_all(required_of_user(), values);
    lemma_needs_all(required_of_account(), values);
    lemma_needs_all(required_of_guild(), values);
    lemma_needs_all(required_of_channel(), values);
    lemma_needs_all(required_of_membership(), values);
    lemma_needs_all(required_of_message(), values);
    assert(required_of_user()[0] == "id"@);
    assert(required_of_user()[1] == "username"@);
    assert(required_of_user()[2] == "tag"@);
    assert(required_of_account()[0] == "id"@);
    assert(required_of_account()[1] == "email"@);
    assert(required_of_account()[2] == "password"@);
    assert(required_of_account()[3] == "user_id"@);
    assert(required_of_account()[4] == "token"@);
    assert(required_of_guild()[0] == "id"@);
    assert(required_of_guild()[1] == "owner_id"@);
    assert(required_of_channel()[0] == "id"@);
    assert(required_of_channel()[1] == "guild_id"@);
    assert(required_of_membership()[0] == "guild_id"@);
    assert(required_of_membership()[1] == "user_id"@);
    assert(required_of_message()[0] == "id"@);
    assert(required_of_message()[1] == "author_id"@);
    assert(required_of_message()[2] == "channel_id"@);
    assert(required_of_message()[3] == "guild_id"@);
}

/// A row is added without a look where there is no condition, and after a count of the rows that
/// meet the conditions where there is one; what is bound to the count are the values of the
/// conditions, and to the addition those of the row.
pub proof fn lemma_plan_looks_first(create: CreateView, table: Seq<char>, plan: CreatePlan)
    requires
        create.planned(table, plan),
    ensures
        plan.check is Some <==> create.filter.fragments.len() > 0,
        plan.check is Some ==> plan.check->0.sql@ == create.filter.count_sql(table)
            && plan.check->0.params@ == create.filter.args,
        plan.insert.sql@ == "INSERT INTO "@ + table + " ("@ + join(
            sorted_keys(create.values),
            ", "@,
        ) + ") VALUES ("@ + join(marks(1, sorted_keys(create.values).len()), ", "@)
            + ") RETURNING *"@,
        plan.insert.params@ == sorted_values(create.values),
{
    lemma_head(table, create.values);
    reveal_strlit(")");
    reveal_strlit(" RETURNING *");
    reveal_strlit(") RETURNING *");
    assert(create.insert_sql(table) =~= "INSERT INTO "@ + table + " ("@ + join(
        sorted_keys(create.values),
        ", "@,
    ) + ") VALUES ("@ + join(marks(1, sorted_keys(create.values).len()), ", "@)
        + ") RETURNING *"@);
}

/// What a row that may be there becomes: the row is added, and where the key is there, every
/// column but the key takes its new value or its step; where there is nothing but the key, nothing
/// is done.
pub proof fn lemma_upsert_parts(upsert: UpsertView, table: Seq<char>, key: Seq<char>)
    ensures
        ({
            let columns = sorted_keys(upsert.row());
            let changed = columns.filter(|c: Seq<char>| c != key);
            let head = "INSERT INTO "@ + table + " ("@ + join(columns, ", "@) + ") VALUES ("@
                + join(marks(1, columns.len()), ", "@) + ")"@ + " ON CONFLICT ("@ + key;
            upsert.sql(table, key) == if changed.len() == 0 && upsert.steps
                =~= Map::<Seq<char>, (Arith, i64)>::empty() {
                head + ") DO NOTHING RETURNING *"@
            } else {
                head + ") DO UPDATE SET "@ + join(
                    changed.map_values(|c: Seq<char>| upsert.assignment(table, c)),
                    ", "@,
                ) + " RETURNING *"@
            }
        }),
{
    lemma_head(table, upsert.row());
    lemma_columns_kept(sorted_keys(upsert.row()), key);
}

/// The columns other than the key, in their order.
proof fn lemma_columns_kept(columns: Seq<Seq<char>>, key: Seq<char>)
    ensures
        columns_but(columns, key) == columns.filter(|c: Seq<char>| c != key),
    decreases columns.len(),
{
    reveal(Seq::filter);
    if columns.len() > 0 {
        lemma_columns_kept(columns.drop_last(), key);
    }
}

} // verus!
