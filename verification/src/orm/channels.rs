//! The table of channels: its rows, and the statements that read and change them.

use vstd::prelude::*;
use vstd::utf8::is_ascii_chars;
use crate::orm::change::{Arith, BuildError, Fragments, FragmentsView, Update, UpdateView};
use crate::orm::filter::{Filter, FilterView};
use crate::orm::insert::{
    claim_sql, find, find_sql, first_missing, insert_many, insert_many_sql, row_maps, rows_values,
    slices, Create, CreatePlan, CreateView, FindOrCreate, Upsert, UpsertView,
};
use crate::orm::value::{int_values, text_values, time_values, SqlValue, Statement, Timestamp};
use crate::string_map::{sorted_keys, sorted_values, StringMap};
use crate::text::search::{ascii_upper, upper_case};

verus! {

/// A channel of a guild, as the database keeps it.
#[derive(Debug, PartialEq)]
pub struct Channels {
    pub id: String,
    pub name: String,
    pub guild_id: String,
    pub created_at: Timestamp,
    pub rate_limit_per_user: i32,
}

impl Clone for Channels {
    fn clone(&self) -> (r: Self)
        ensures
            r == *self,
    {
        Channels {
            id: self.id.clone(),
            name: self.name.clone(),
            guild_id: self.guild_id.clone(),
            created_at: self.created_at,
            rate_limit_per_user: self.rate_limit_per_user,
        }
    }
}

impl Channels {
    /// The statement that fetches the channel with an id.
    pub fn find_by_id(id: String) -> (r: Statement)
        ensures
            r.says(find_sql("channels"@, "id"@), seq![SqlValue::Text(id)]),
    {
        find("channels", "id", SqlValue::Text(id))
    }
}

/// Which channels to fetch, in which order, and how many.
#[derive(Debug, PartialEq)]
pub struct ChannelsWhereBuilder {
    filter: Filter,
}

impl View for ChannelsWhereBuilder {
    type V = FilterView;

    closed spec fn view(&self) -> FilterView {
        self.filter@
    }
}

impl ChannelsWhereBuilder {
    /// All channels.
    pub fn new() -> (r: Self)
        ensures
            r@ == FilterView::empty(),
    {
        ChannelsWhereBuilder { filter: Filter::new() }
    }

    /// Keeps those whose `id` is `value`.
    pub fn where_id(self, value: String) -> (r: Self)
        ensures
            r@ == self@.compare("id"@, "="@, SqlValue::Text(value)),
    {
        ChannelsWhereBuilder { filter: self.filter.compare("id", "=", SqlValue::Text(value)) }
    }

    /// Keeps those whose `id` is one of `values`; keeps all where there are none.
    pub fn where_id_in(self, values: Vec<String>) -> (r: Self)
        ensures
            r@ == self@.one_of(
                "id"@,
                values@.map_values(|v: String| SqlValue::Text(v)),
            ),
    {
        ChannelsWhereBuilder { filter: self.filter.one_of("id", text_values(values)) }
    }

    /// Keeps those whose `name` is `value`.
    pub fn where_name(self, value: String) -> (r: Self)
        ensures
            r@ == self@.compare("name"@, "="@, SqlValue::Text(value)),
    {
        ChannelsWhereBuilder { filter: self.filter.compare("name", "=", SqlValue::Text(value)) }
    }

    /// Keeps those whose `name` is one of `values`; keeps all where there are none.
    pub fn where_name_in(self, values: Vec<String>) -> (r: Self)
        ensures
            r@ == self@.one_of(
                "name"@,
                values@.map_values(|v: String| SqlValue::Text(v)),
            ),
    {
        ChannelsWhereBuilder { filter: self.filter.one_of("name", text_values(values)) }
    }

    /// Keeps those whose `guild_id` is `value`.
    pub fn where_guild_id(self, value: String) -> (r: Self)
        ensures
            r@ == self@.compare("guild_id"@, "="@, SqlValue::Text(value)),
    {
        ChannelsWhereBuilder { filter: self.filter.compare("guild_id", "=", SqlValue::Text(value)) }
    }

    /// Keeps those whose `guild_id` is one of `values`; keeps all where there are none.
    pub fn where_guild_id_in(self, values: Vec<String>) -> (r: Self)
        ensures
            r@ == self@.one_of(
                "guild_id"@,
                values@.map_values(|v: String| SqlValue::Text(v)),
            ),
    {
        ChannelsWhereBuilder { filter: self.filter.one_of("guild_id", text_values(values)) }
    }

    /// Keeps those whose `created_at` is `value`.
    pub fn where_created_at(self, value: Timestamp) -> (r: Self)
        ensures
            r@ == self@.compare("created_at"@, "="@, SqlValue::Time(value)),
    {
        ChannelsWhereBuilder {
            filter: self.filter.compare("created_at", "=", SqlValue::Time(value)),
        }
    }

    /// Keeps those whose `created_at` is one of `values`; keeps all where there are none.
    pub fn where_created_at_in(self, values: Vec<Timestamp>) -> (r: Self)
        ensures
            r@ == self@.one_of(
                "created_at"@,
                values@.map_values(|v: Timestamp| SqlValue::Time(v)),
            ),
    {
        ChannelsWhereBuilder { filter: self.filter.one_of("created_at", time_values(values)) }
    }

    /// Keeps those whose `created_at` is after `value`.
    pub fn where_created_at_gt(self, value: Timestamp) -> (r: Self)
        ensures
            r@ == self@.compare("created_at"@, ">"@, SqlValue::Time(value)),
    {
        ChannelsWhereBuilder {
            filter: self.filter.compare("created_at", ">", SqlValue::Time(value)),
        }
    }

    /// Keeps those whose `created_at` is before `value`.
    pub fn where_created_at_lt(self, value: Timestamp) -> (r: Self)
        ensures
            r@ == self@.compare("created_at"@, "<"@, SqlValue::Time(value)),
    {
        ChannelsWhereBuilder {
            filter: self.filter.compare("created_at", "<", SqlValue::Time(value)),
        }
    }

    /// Keeps those whose `created_at` is at or after `value`.
    pub fn where_created_at_gte(self, value: Timestamp) -> (r: Self)
        ensures
            r@ == self@.compare("created_at"@, ">="@, SqlValue::Time(value)),
    {
        ChannelsWhereBuilder {
            filter: self.filter.compare("created_at", ">=", SqlValue::Time(value)),
        }
    }

    /// Keeps those whose `created_at` is at or before `value`.
    pub fn where_created_at_lte(self, value: Timestamp) -> (r: Self)
        ensures
            r@ == self@.compare("created_at"@, "<="@, SqlValue::Time(value)),
    {
        ChannelsWhereBuilder {
            filter: self.filter.compare("created_at", "<=", SqlValue::Time(value)),
        }
    }

    /// Keeps those whose `rate_limit_per_user` is `value`.
    pub fn where_rate_limit_per_user(self, value: i32) -> (r: Self)
        ensures
            r@ == self@.compare("rate_limit_per_user"@, "="@, SqlValue::Int(value)),
    {
        ChannelsWhereBuilder {
            filter: self.filter.compare("rate_limit_per_user", "=", SqlValue::Int(value)),
        }
    }

    /// Keeps those whose `rate_limit_per_user` is one of `values`; keeps all where there are none.
    pub fn where_rate_limit_per_user_in(self, values: Vec<i32>) -> (r: Self)
        ensures
            r@ == self@.one_of(
                "rate_limit_per_user"@,
                values@.map_values(|v: i32| SqlValue::Int(v)),
            ),
    {
        ChannelsWhereBuilder {
            filter: self.filter.one_of("rate_limit_per_user", int_values(values)),
        }
    }

    /// Orders by `id`, upwards, after the orders given so far.
    pub fn order_by_id_asc(self) -> (r: Self)
        ensures
            r@ == self@.order("id"@, "ASC"@),
    {
        ChannelsWhereBuilder { filter: self.filter.order("id", "ASC") }
    }

    /// Orders by `id`, downwards, after the orders given so far.
    pub fn order_by_id_desc(self) -> (r: Self)
        ensures
            r@ == self@.order("id"@, "DESC"@),
    {
        ChannelsWhereBuilder { filter: self.filter.order("id", "DESC") }
    }

    /// Orders by `name`, upwards, after the orders given so far.
    pub fn order_by_name_asc(self) -> (r: Self)
        ensures
            r@ == self@.order("name"@, "ASC"@),
    {
        ChannelsWhereBuilder { filter: self.filter.order("name", "ASC") }
    }

    /// Orders by `name`, downwards, after the orders given so far.
    pub fn order_by_name_desc(self) -> (r: Self)
        ensures
            r@ == self@.order("name"@, "DESC"@),
    {
        ChannelsWhereBuilder { filter: self.filter.order("name", "DESC") }
    }

    /// Orders by `guild_id`, upwards, after the orders given so far.
    pub fn order_by_guild_id_asc(self) -> (r: Self)
        ensures
            r@ == self@.order("guild_id"@, "ASC"@),
    {
        ChannelsWhereBuilder { filter: self.filter.order("guild_id", "ASC") }
    }

    /// Orders by `guild_id`, downwards, after the orders given so far.
    pub fn order_by_guild_id_desc(self) -> (r: Self)
        ensures
            r@ == self@.order("guild_id"@, "DESC"@),
    {
        ChannelsWhereBuilder { filter: self.filter.order("guild_id", "DESC") }
    }

    /// Orders by `created_at`, upwards, after the orders given so far.
    pub fn order_by_created_at_asc(self) -> (r: Self)
        ensures
            r@ == self@.order("created_at"@, "ASC"@),
    {
        ChannelsWhereBuilder { filter: self.filter.order("created_at", "ASC") }
    }

    /// Orders by `created_at`, downwards, after the orders given so far.
    pub fn order_by_created_at_desc(self) -> (r: Self)
        ensures
            r@ == self@.order("created_at"@, "DESC"@),
    {
        ChannelsWhereBuilder { filter: self.filter.order("created_at", "DESC") }
    }

    /// Orders by `rate_limit_per_user`, upwards, after the orders given so far.
    pub fn order_by_rate_limit_per_user_asc(self) -> (r: Self)
        ensures
            r@ == self@.order("rate_limit_per_user"@, "ASC"@),
    {
        ChannelsWhereBuilder { filter: self.filter.order("rate_limit_per_user", "ASC") }
    }

    /// Orders by `rate_limit_per_user`, downwards, after the orders given so far.
    pub fn order_by_rate_limit_per_user_desc(self) -> (r: Self)
        ensures
            r@ == self@.order("rate_limit_per_user"@, "DESC"@),
    {
        ChannelsWhereBuilder { filter: self.filter.order("rate_limit_per_user", "DESC") }
    }

    /// Takes no more than `limit` rows.
    pub fn limit(self, limit: usize) -> (r: Self)
        ensures
            r@ == self@.with_limit(limit),
    {
        ChannelsWhereBuilder { filter: self.filter.limit(limit) }
    }

    /// Leaves the first `offset` rows out.
    pub fn offset(self, offset: usize) -> (r: Self)
        ensures
            r@ == self@.with_offset(offset),
    {
        ChannelsWhereBuilder { filter: self.filter.offset(offset) }
    }
}

/// A query on the channels.
#[derive(Debug, PartialEq)]
pub struct ChannelsQuery {
    filter: Filter,
}

impl View for ChannelsQuery {
    type V = FilterView;

    closed spec fn view(&self) -> FilterView {
        self.filter@
    }
}

impl ChannelsQuery {
    /// A query on all channels.
    pub fn new() -> (r: Self)
        ensures
            r@ == FilterView::empty(),
    {
        ChannelsQuery { filter: Filter::new() }
    }

    /// The query that a builder describes.
    pub fn from_builder(builder: ChannelsWhereBuilder) -> (r: Self)
        ensures
            r@ == builder@,
    {
        ChannelsQuery { filter: builder.filter }
    }

    /// Takes no more than `limit` rows.
    pub fn limit(self, limit: usize) -> (r: Self)
        ensures
            r@ == self@.with_limit(limit),
    {
        ChannelsQuery { filter: self.filter.limit(limit) }
    }

    /// Leaves the first `offset` rows out.
    pub fn offset(self, offset: usize) -> (r: Self)
        ensures
            r@ == self@.with_offset(offset),
    {
        ChannelsQuery { filter: self.filter.offset(offset) }
    }

    /// The statement that fetches the rows.
    pub fn select(self) -> (r: Statement)
        ensures
            r.says(self@.select_sql("channels"@), self@.args),
    {
        self.filter.select("channels")
    }

    /// The statement that fetches the first row.
    pub fn first(self) -> (r: Statement)
        ensures
            r.says(self@.with_limit(1).select_sql("channels"@), self@.args),
    {
        self.limit(1).select()
    }

    /// The statement that counts the rows.
    pub fn count(self) -> (r: Statement)
        ensures
            r.says(self@.count_sql("channels"@), self@.args),
    {
        self.filter.count("channels")
    }

    /// The statement that applies an aggregate function to a column.
    pub fn aggregate(self, field: &str, func: &str) -> (r: Statement)
        ensures
            r.says(self@.aggregate_sql("channels"@, field@, upper_case(func@)), self@.args),
            is_ascii_chars(func@) ==> upper_case(func@) == func@.map_values(
                |c: char| ascii_upper(c),
            ),
    {
        let name: String = func.to_uppercase();
        self.filter.aggregate("channels", field, name.as_str())
    }

    /// The statement that sums a column up, with `zero` for no rows.
    pub fn sum(self, field: &str, zero: SqlValue) -> (r: Statement)
        ensures
            r.says(self@.sum_sql("channels"@, field@), self@.args.push(zero)),
    {
        self.filter.sum("channels", field, zero)
    }

    /// The statement that sums a column up as a 64-bit integer.
    pub fn sum_cast_i64(self, field: &str) -> (r: Statement)
        ensures
            r.says(
                self@.sum_cast_sql("channels"@, field@),
                self@.args.push(SqlValue::BigInt(0)),
            ),
    {
        self.filter.sum_cast("channels", field)
    }

    /// The statement that computes the average of a column.
    pub fn avg(self, field: &str) -> (r: Statement)
        ensures
            r.says(self@.aggregate_sql("channels"@, field@, "AVG"@), self@.args),
    {
        proof {
            reveal_strlit("AVG");
            assert("AVG"@.map_values(|c: char| ascii_upper(c)) =~= "AVG"@);
        }
        self.aggregate(field, "AVG")
    }

    /// The statement that computes the least value of a column.
    pub fn min(self, field: &str) -> (r: Statement)
        ensures
            r.says(self@.aggregate_sql("channels"@, field@, "MIN"@), self@.args),
    {
        proof {
            reveal_strlit("MIN");
            assert("MIN"@.map_values(|c: char| ascii_upper(c)) =~= "MIN"@);
        }
        self.aggregate(field, "MIN")
    }

    /// The statement that computes the greatest value of a column.
    pub fn max(self, field: &str) -> (r: Statement)
        ensures
            r.says(self@.aggregate_sql("channels"@, field@, "MAX"@), self@.args),
    {
        proof {
            reveal_strlit("MAX");
            assert("MAX"@.map_values(|c: char| ascii_upper(c)) =~= "MAX"@);
        }
        self.aggregate(field, "MAX")
    }
}

/// A change of some channels.
#[derive(Debug, PartialEq)]
pub struct ChannelsUpdate {
    update: Update,
}

impl View for ChannelsUpdate {
    type V = UpdateView;

    closed spec fn view(&self) -> UpdateView {
        self.update@
    }
}

impl ChannelsUpdate {
    /// A change that sets nothing yet.
    pub fn new() -> (r: Self)
        ensures
            r@ == UpdateView::empty(),
    {
        ChannelsUpdate { update: Update::new() }
    }

    /// Keeps the rows whose `id` is `value`.
    pub fn where_id(self, value: String) -> (r: Self)
        ensures
            r@ == self@.filtered(
                self@.filter.compare("id"@, SqlValue::Text(value)),
            ),
    {
        ChannelsUpdate { update: self.update.compare("id", SqlValue::Text(value)) }
    }

    /// Adds the fragment `id IN (..)`, to which ` = $n` is appended, and its
    /// values; adds nothing where there are none.
    pub fn where_id_in(self, values: Vec<String>) -> (r: Self)
        ensures
            r@ == self@.filtered(
                self@.filter.one_of(
                    "id"@,
                    values@.map_values(|v: String| SqlValue::Text(v)),
                ),
            ),
    {
        ChannelsUpdate { update: self.update.one_of("id", text_values(values)) }
    }

    /// Keeps the rows whose `name` is `value`.
    pub fn where_name(self, value: String) -> (r: Self)
        ensures
            r@ == self@.filtered(
                self@.filter.compare("name"@, SqlValue::Text(value)),
            ),
    {
        ChannelsUpdate { update: self.update.compare("name", SqlValue::Text(value)) }
    }

    /// Adds the fragment `name IN (..)`, to which ` = $n` is appended, and its
    /// values; adds nothing where there are none.
    pub fn where_name_in(self, values: Vec<String>) -> (r: Self)
        ensures
            r@ == self@.filtered(
                self@.filter.one_of(
                    "name"@,
                    values@.map_values(|v: String| SqlValue::Text(v)),
                ),
            ),
    {
        ChannelsUpdate { update: self.update.one_of("name", text_values(values)) }
    }

    /// Keeps the rows whose `guild_id` is `value`.
    pub fn where_guild_id(self, value: String) -> (r: Self)
        ensures
            r@ == self@.filtered(
                self@.filter.compare("guild_id"@, SqlValue::Text(value)),
            ),
    {
        ChannelsUpdate { update: self.update.compare("guild_id", SqlValue::Text(value)) }
    }

    /// Adds the fragment `guild_id IN (..)`, to which ` = $n` is appended, and its
    /// values; adds nothing where there are none.
    pub fn where_guild_id_in(self, values: Vec<String>) -> (r: Self)
        ensures
            r@ == self@.filtered(
                self@.filter.one_of(
                    "guild_id"@,
                    values@.map_values(|v: String| SqlValue::Text(v)),
                ),
            ),
    {
        ChannelsUpdate { update: self.update.one_of("guild_id", text_values(values)) }
    }

    /// Keeps the rows whose `created_at` is `value`.
    pub fn where_created_at(self, value: Timestamp) -> (r: Self)
        ensures
            r@ == self@.filtered(
                self@.filter.compare("created_at"@, SqlValue::Time(value)),
            ),
    {
        ChannelsUpdate { update: self.update.compare("created_at", SqlValue::Time(value)) }
    }

    /// Adds the fragment `created_at IN (..)`, to which ` = $n` is appended, and its
    /// values; adds nothing where there are none.
    pub fn where_created_at_in(self, values: Vec<Timestamp>) -> (r: Self)
        ensures
            r@ == self@.filtered(
                self@.filter.one_of(
                    "created_at"@,
                    values@.map_values(|v: Timestamp| SqlValue::Time(v)),
                ),
            ),
    {
        ChannelsUpdate { update: self.update.one_of("created_at", time_values(values)) }
    }

    /// Adds the fragment `created_at >` and its value.
    pub fn where_created_at_gt(self, value: Timestamp) -> (r: Self)
        ensures
            r@ == self@.filtered(
                self@.filter.compare("created_at >"@, SqlValue::Time(value)),
            ),
    {
        ChannelsUpdate { update: self.update.compare("created_at >", SqlValue::Time(value)) }
    }

    /// Adds the fragment `created_at <` and its value.
    pub fn where_created_at_lt(self, value: Timestamp) -> (r: Self)
        ensures
            r@ == self@.filtered(
                self@.filter.compare("created_at <"@, SqlValue::Time(value)),
            ),
    {
        ChannelsUpdate { update: self.update.compare("created_at <", SqlValue::Time(value)) }
    }

    /// Adds the fragment `created_at >=` and its value.
    pub fn where_created_at_gte(self, value: Timestamp) -> (r: Self)
        ensures
            r@ == self@.filtered(
                self@.filter.compare("created_at >="@, SqlValue::Time(value)),
            ),
    {
        ChannelsUpdate { update: self.update.compare("created_at >=", SqlValue::Time(value)) }
    }

    /// Adds the fragment `created_at <=` and its value.
    pub fn where_created_at_lte(self, value: Timestamp) -> (r: Self)
        ensures
            r@ == self@.filtered(
                self@.filter.compare("created_at <="@, SqlValue::Time(value)),
            ),
    {
        ChannelsUpdate { update: self.update.compare("created_at <=", SqlValue::Time(value)) }
    }

    /// Keeps the rows whose `rate_limit_per_user` is `value`.
    pub fn where_rate_limit_per_user(self, value: i32) -> (r: Self)
        ensures
            r@ == self@.filtered(
                self@.filter.compare("rate_limit_per_user"@, SqlValue::Int(value)),
            ),
    {
        ChannelsUpdate { update: self.update.compare("rate_limit_per_user", SqlValue::Int(value)) }
    }

    /// Adds the fragment `rate_limit_per_user IN (..)`, to which ` = $n` is appended, and its
    /// values; adds nothing where there are none.
    pub fn where_rate_limit_per_user_in(self, values: Vec<i32>) -> (r: Self)
        ensures
            r@ == self@.filtered(
                self@.filter.one_of(
                    "rate_limit_per_user"@,
                    values@.map_values(|v: i32| SqlValue::Int(v)),
                ),
            ),
    {
        ChannelsUpdate { update: self.update.one_of("rate_limit_per_user", int_values(values)) }
    }

    /// Sets `id`.
    pub fn set_id(self, value: String) -> (r: Self)
        ensures
            r@ == self@.set("id"@, SqlValue::Text(value)),
    {
        ChannelsUpdate { update: self.update.set("id", SqlValue::Text(value)) }
    }

    /// Sets `name`.
    pub fn set_name(self, value: String) -> (r: Self)
        ensures
            r@ == self@.set("name"@, SqlValue::Text(value)),
    {
        ChannelsUpdate { update: self.update.set("name", SqlValue::Text(value)) }
    }

    /// Sets `guild_id`.
    pub fn set_guild_id(self, value: String) -> (r: Self)
        ensures
            r@ == self@.set("guild_id"@, SqlValue::Text(value)),
    {
        ChannelsUpdate { update: self.update.set("guild_id", SqlValue::Text(value)) }
    }

    /// Sets `created_at`.
    pub fn set_created_at(self, value: Timestamp) -> (r: Self)
        ensures
            r@ == self@.set("created_at"@, SqlValue::Time(value)),
    {
        ChannelsUpdate { update: self.update.set("created_at", SqlValue::Time(value)) }
    }

    /// Sets `rate_limit_per_user`.
    pub fn set_rate_limit_per_user(self, value: i32) -> (r: Self)
        ensures
            r@ == self@.set("rate_limit_per_user"@, SqlValue::Int(value)),
    {
        ChannelsUpdate { update: self.update.set("rate_limit_per_user", SqlValue::Int(value)) }
    }

    /// Adds `amount` to `rate_limit_per_user`.
    pub fn inc_rate_limit_per_user(self, amount: i64) -> (r: Self)
        ensures
            r@ == self@.step("rate_limit_per_user"@, Arith::Inc, amount),
    {
        ChannelsUpdate { update: self.update.step("rate_limit_per_user", Arith::Inc, amount) }
    }

    /// Takes `amount` from `rate_limit_per_user`.
    pub fn dec_rate_limit_per_user(self, amount: i64) -> (r: Self)
        ensures
            r@ == self@.step("rate_limit_per_user"@, Arith::Dec, amount),
    {
        ChannelsUpdate { update: self.update.step("rate_limit_per_user", Arith::Dec, amount) }
    }

    /// Multiplies by `factor` the value of `rate_limit_per_user`.
    pub fn mul_rate_limit_per_user(self, factor: i64) -> (r: Self)
        ensures
            r@ == self@.step("rate_limit_per_user"@, Arith::Mul, factor),
    {
        ChannelsUpdate { update: self.update.step("rate_limit_per_user", Arith::Mul, factor) }
    }

    /// Divides by `divisor` the value of `rate_limit_per_user`.
    pub fn div_rate_limit_per_user(self, divisor: i64) -> (r: Self)
        ensures
            r@ == self@.step("rate_limit_per_user"@, Arith::Div, divisor),
    {
        ChannelsUpdate { update: self.update.step("rate_limit_per_user", Arith::Div, divisor) }
    }

    /// The statement that makes the change and gives the row back; none where nothing is set.
    pub fn statement(self) -> (r: Result<Statement, BuildError>)
        ensures
            match r {
                Ok(s) => self@.set_columns.len() + self@.steps.len() > 0 && s.says(
                    self@.sql("channels"@),
                    self@.params(),
                ),
                Err(e) => self@.set_columns.len() + self@.steps.len() == 0 && e
                    == BuildError::NoFieldsToUpdate,
            },
    {
        self.update.statement("channels")
    }
}

/// A channel to be added, or to be changed where its id is there.
#[derive(Debug, PartialEq)]
pub struct ChannelsUpsert {
    upsert: Upsert,
}

impl View for ChannelsUpsert {
    type V = UpsertView;

    closed spec fn view(&self) -> UpsertView {
        self.upsert@
    }
}

impl ChannelsUpsert {
    /// A row without values.
    pub fn new() -> (r: Self)
        ensures
            r@ == UpsertView::empty(),
    {
        ChannelsUpsert { upsert: Upsert::new() }
    }

    /// Sets the id to look for.
    pub fn where_id(self, value: String) -> (r: Self)
        ensures
            r@ == self@.key("id"@, SqlValue::Text(value)),
    {
        ChannelsUpsert { upsert: self.upsert.key("id", SqlValue::Text(value)) }
    }

    /// Sets `id`.
    pub fn set_id(self, value: String) -> (r: Self)
        ensures
            r@ == self@.set("id"@, SqlValue::Text(value)),
    {
        ChannelsUpsert { upsert: self.upsert.set("id", SqlValue::Text(value)) }
    }

    /// Sets `name`.
    pub fn set_name(self, value: String) -> (r: Self)
        ensures
            r@ == self@.set("name"@, SqlValue::Text(value)),
    {
        ChannelsUpsert { upsert: self.upsert.set("name", SqlValue::Text(value)) }
    }

    /// Sets `guild_id`.
    pub fn set_guild_id(self, value: String) -> (r: Self)
        ensures
            r@ == self@.set("guild_id"@, SqlValue::Text(value)),
    {
        ChannelsUpsert { upsert: self.upsert.set("guild_id", SqlValue::Text(value)) }
    }

    /// Sets `created_at`.
    pub fn set_created_at(self, value: Timestamp) -> (r: Self)
        ensures
            r@ == self@.set("created_at"@, SqlValue::Time(value)),
    {
        ChannelsUpsert { upsert: self.upsert.set("created_at", SqlValue::Time(value)) }
    }

    /// Sets `rate_limit_per_user`.
    pub fn set_rate_limit_per_user(self, value: i32) -> (r: Self)
        ensures
            r@ == self@.set("rate_limit_per_user"@, SqlValue::Int(value)),
    {
        ChannelsUpsert { upsert: self.upsert.set("rate_limit_per_user", SqlValue::Int(value)) }
    }

    /// Adds `amount` to `rate_limit_per_user`, or starts with it.
    pub fn inc_rate_limit_per_user(self, amount: i64) -> (r: Self)
        ensures
            r@ == self@.step("rate_limit_per_user"@, Arith::Inc, amount, SqlValue::BigInt(amount)),
    {
        ChannelsUpsert {
            upsert: self.upsert.step(
                "rate_limit_per_user",
                Arith::Inc,
                amount,
                SqlValue::BigInt(amount),
            ),
        }
    }

    /// Takes `amount` from `rate_limit_per_user`, or starts with its negation.
    pub fn dec_rate_limit_per_user(self, amount: i64) -> (r: Self)
        requires
            amount != i64::MIN,
        ensures
            r@ == self@.step(
                "rate_limit_per_user"@,
                Arith::Dec,
                amount,
                SqlValue::BigInt((-amount) as i64),
            ),
    {
        ChannelsUpsert {
            upsert: self.upsert.step(
                "rate_limit_per_user",
                Arith::Dec,
                amount,
                SqlValue::BigInt(-amount),
            ),
        }
    }

    /// Multiplies `rate_limit_per_user` by `factor`, or starts with zero.
    pub fn mul_rate_limit_per_user(self, factor: i64) -> (r: Self)
        ensures
            r@ == self@.step("rate_limit_per_user"@, Arith::Mul, factor, SqlValue::Int(0)),
    {
        ChannelsUpsert {
            upsert: self.upsert.step("rate_limit_per_user", Arith::Mul, factor, SqlValue::Int(0)),
        }
    }

    /// Divides `rate_limit_per_user` by `divisor`, or starts with zero.
    pub fn div_rate_limit_per_user(self, divisor: i64) -> (r: Self)
        ensures
            r@ == self@.step("rate_limit_per_user"@, Arith::Div, divisor, SqlValue::Int(0)),
    {
        ChannelsUpsert {
            upsert: self.upsert.step("rate_limit_per_user", Arith::Div, divisor, SqlValue::Int(0)),
        }
    }

    /// The statement that adds or changes the row and gives it back. It needs an id.
    pub fn statement(self) -> (r: Result<Statement, BuildError>)
        ensures
            match r {
                Ok(s) => self@.row().contains_key("id"@) && s.says(
                    self@.sql("channels"@, "id"@),
                    sorted_values(self@.row()),
                ),
                Err(e) => e matches BuildError::MissingPrimaryKey(f) && f@ == "id"@
                    && !self@.row().contains_key("id"@),
            },
    {
        self.upsert.statement("channels", "id")
    }
}

/// The columns that a new channel needs.
pub open spec fn required_of_channel() -> Seq<Seq<char>> {
    seq!["id"@, "guild_id"@]
}

/// A channel to be added, unless one that meets some conditions is there.
#[derive(Debug, PartialEq)]
pub struct ChannelsCreate {
    create: Create,
}

impl View for ChannelsCreate {
    type V = CreateView;

    closed spec fn view(&self) -> CreateView {
        self.create@
    }
}

impl ChannelsCreate {
    /// A row without values.
    pub fn new() -> (r: Self)
        ensures
            r@ == CreateView::empty(),
    {
        ChannelsCreate { create: Create::new() }
    }

    /// Keeps the rows whose `id` is `value`.
    pub fn where_id(self, value: String) -> (r: Self)
        ensures
            r@ == self@.filtered(
                self@.filter.compare("id"@, SqlValue::Text(value)),
            ),
    {
        ChannelsCreate { create: self.create.compare("id", SqlValue::Text(value)) }
    }

    /// Adds the fragment `id IN (..)`, to which ` = $n` is appended, and its
    /// values; adds nothing where there are none.
    pub fn where_id_in(self, values: Vec<String>) -> (r: Self)
        ensures
            r@ == self@.filtered(
                self@.filter.one_of(
                    "id"@,
                    values@.map_values(|v: String| SqlValue::Text(v)),
                ),
            ),
    {
        ChannelsCreate { create: self.create.one_of("id", text_values(values)) }
    }

    /// Keeps the rows whose `name` is `value`.
    pub fn where_name(self, value: String) -> (r: Self)
        ensures
            r@ == self@.filtered(
                self@.filter.compare("name"@, SqlValue::Text(value)),
            ),
    {
        ChannelsCreate { create: self.create.compare("name", SqlValue::Text(value)) }
    }

    /// Adds the fragment `name IN (..)`, to which ` = $n` is appended, and its
    /// values; adds nothing where there are none.
    pub fn where_name_in(self, values: Vec<String>) -> (r: Self)
        ensures
            r@ == self@.filtered(
                self@.filter.one_of(
                    "name"@,
                    values@.map_values(|v: String| SqlValue::Text(v)),
                ),
            ),
    {
        ChannelsCreate { create: self.create.one_of("name", text_values(values)) }
    }

    /// Keeps the rows whose `guild_id` is `value`.
    pub fn where_guild_id(self, value: String) -> (r: Self)
        ensures
            r@ == self@.filtered(
                self@.filter.compare("guild_id"@, SqlValue::Text(value)),
            ),
    {
        ChannelsCreate { create: self.create.compare("guild_id", SqlValue::Text(value)) }
    }

    /// Adds the fragment `guild_id IN (..)`, to which ` = $n` is appended, and its
    /// values; adds nothing where there are none.
    pub fn where_guild_id_in(self, values: Vec<String>) -> (r: Self)
        ensures
            r@ == self@.filtered(
                self@.filter.one_of(
                    "guild_id"@,
                    values@.map_values(|v: String| SqlValue::Text(v)),
                ),
            ),
    {
        ChannelsCreate { create: self.create.one_of("guild_id", text_values(values)) }
    }

    /// Keeps the rows whose `created_at` is `value`.
    pub fn where_created_at(self, value: Timestamp) -> (r: Self)
        ensures
            r@ == self@.filtered(
                self@.filter.compare("created_at"@, SqlValue::Time(value)),
            ),
    {
        ChannelsCreate { create: self.create.compare("created_at", SqlValue::Time(value)) }
    }

    /// Adds the fragment `created_at IN (..)`, to which ` = $n` is appended, and its
    /// values; adds nothing where there are none.
    pub fn where_created_at_in(self, values: Vec<Timestamp>) -> (r: Self)
        ensures
            r@ == self@.filtered(
                self@.filter.one_of(
                    "created_at"@,
                    values@.map_values(|v: Timestamp| SqlValue::Time(v)),
                ),
            ),
    {
        ChannelsCreate { create: self.create.one_of("created_at", time_values(values)) }
    }

    /// Adds the fragment `created_at >` and its value.
    pub fn where_created_at_gt(self, value: Timestamp) -> (r: Self)
        ensures
            r@ == self@.filtered(
                self@.filter.compare("created_at >"@, SqlValue::Time(value)),
            ),
    {
        ChannelsCreate { create: self.create.compare("created_at >", SqlValue::Time(value)) }
    }

    /// Adds the fragment `created_at <` and its value.
    pub fn where_created_at_lt(self, value: Timestamp) -> (r: Self)
        ensures
            r@ == self@.filtered(
                self@.filter.compare("created_at <"@, SqlValue::Time(value)),
            ),
    {
        ChannelsCreate { create: self.create.compare("created_at <", SqlValue::Time(value)) }
    }

    /// Adds the fragment `created_at >=` and its value.
    pub fn where_created_at_gte(self, value: Timestamp) -> (r: Self)
        ensures
            r@ == self@.filtered(
                self@.filter.compare("created_at >="@, SqlValue::Time(value)),
            ),
    {
        ChannelsCreate { create: self.create.compare("created_at >=", SqlValue::Time(value)) }
    }

    /// Adds the fragment `created_at <=` and its value.
    pub fn where_created_at_lte(self, value: Timestamp) -> (r: Self)
        ensures
            r@ == self@.filtered(
                self@.filter.compare("created_at <="@, SqlValue::Time(value)),
            ),
    {
        ChannelsCreate { create: self.create.compare("created_at <=", SqlValue::Time(value)) }
    }

    /// Keeps the rows whose `rate_limit_per_user` is `value`.
    pub fn where_rate_limit_per_user(self, value: i32) -> (r: Self)
        ensures
            r@ == self@.filtered(
                self@.filter.compare("rate_limit_per_user"@, SqlValue::Int(value)),
            ),
    {
        ChannelsCreate { create: self.create.compare("rate_limit_per_user", SqlValue::Int(value)) }
    }

    /// Adds the fragment `rate_limit_per_user IN (..)`, to which ` = $n` is appended, and its
    /// values; adds nothing where there are none.
    pub fn where_rate_limit_per_user_in(self, values: Vec<i32>) -> (r: Self)
        ensures
            r@ == self@.filtered(
                self@.filter.one_of(
                    "rate_limit_per_user"@,
                    values@.map_values(|v: i32| SqlValue::Int(v)),
                ),
            ),
    {
        ChannelsCreate { create: self.create.one_of("rate_limit_per_user", int_values(values)) }
    }

    /// Sets `id`.
    pub fn set_id(self, value: String) -> (r: Self)
        ensures
            r@ == self@.set("id"@, SqlValue::Text(value)),
    {
        ChannelsCreate { create: self.create.set("id", SqlValue::Text(value)) }
    }

    /// Sets `name`.
    pub fn set_name(self, value: String) -> (r: Self)
        ensures
            r@ == self@.set("name"@, SqlValue::Text(value)),
    {
        ChannelsCreate { create: self.create.set("name", SqlValue::Text(value)) }
    }

    /// Sets `guild_id`.
    pub fn set_guild_id(self, value: String) -> (r: Self)
        ensures
            r@ == self@.set("guild_id"@, SqlValue::Text(value)),
    {
        ChannelsCreate { create: self.create.set("guild_id", SqlValue::Text(value)) }
    }

    /// Sets `created_at`.
    pub fn set_created_at(self, value: Timestamp) -> (r: Self)
        ensures
            r@ == self@.set("created_at"@, SqlValue::Time(value)),
    {
        ChannelsCreate { create: self.create.set("created_at", SqlValue::Time(value)) }
    }

    /// Sets `rate_limit_per_user`.
    pub fn set_rate_limit_per_user(self, value: i32) -> (r: Self)
        ensures
            r@ == self@.set("rate_limit_per_user"@, SqlValue::Int(value)),
    {
        ChannelsCreate { create: self.create.set("rate_limit_per_user", SqlValue::Int(value)) }
    }

    /// The statements that create the row; none where a column that it needs has no value.
    pub fn plan(self) -> (r: Result<CreatePlan, BuildError>)
        ensures
            match r {
                Ok(p) => first_missing(required_of_channel(), self@.values) is None
                    && self@.planned("channels"@, p),
                Err(e) => e matches BuildError::MissingField(f) && first_missing(
                    required_of_channel(),
                    self@.values,
                ) == Some(f@),
            },
    {
        let required: Vec<&'static str> = vec!["id", "guild_id"];
        assert(slices(required@) =~= required_of_channel());
        self.create.plan("channels", required)
    }
}

/// Which channels to remove.
#[derive(Debug, PartialEq)]
pub struct ChannelsDelete {
    filter: Fragments,
}

impl View for ChannelsDelete {
    type V = FragmentsView;

    closed spec fn view(&self) -> FragmentsView {
        self.filter@
    }
}

impl ChannelsDelete {
    /// No condition yet.
    pub fn new() -> (r: Self)
        ensures
            r@ == FragmentsView::empty(),
    {
        ChannelsDelete { filter: Fragments::new() }
    }

    /// Keeps the rows whose `id` is `value`.
    pub fn where_id(self, value: String) -> (r: Self)
        ensures
            r@ == self@.compare("id"@, SqlValue::Text(value)),
    {
        ChannelsDelete { filter: self.filter.compare("id", SqlValue::Text(value)) }
    }

    /// Adds the fragment `id IN (..)`, to which ` = $n` is appended, and its
    /// values; adds nothing where there are none.
    pub fn where_id_in(self, values: Vec<String>) -> (r: Self)
        ensures
            r@ == self@.one_of(
                "id"@,
                values@.map_values(|v: String| SqlValue::Text(v)),
            ),
    {
        ChannelsDelete { filter: self.filter.one_of("id", text_values(values)) }
    }

    /// Keeps the rows whose `name` is `value`.
    pub fn where_name(self, value: String) -> (r: Self)
        ensures
            r@ == self@.compare("name"@, SqlValue::Text(value)),
    {
        ChannelsDelete { filter: self.filter.compare("name", SqlValue::Text(value)) }
    }

    /// Adds the fragment `name IN (..)`, to which ` = $n` is appended, and its
    /// values; adds nothing where there are none.
    pub fn where_name_in(self, values: Vec<String>) -> (r: Self)
        ensures
            r@ == self@.one_of(
                "name"@,
                values@.map_values(|v: String| SqlValue::Text(v)),
            ),
    {
        ChannelsDelete { filter: self.filter.one_of("name", text_values(values)) }
    }

    /// Keeps the rows whose `guild_id` is `value`.
    pub fn where_guild_id(self, value: String) -> (r: Self)
        ensures
            r@ == self@.compare("guild_id"@, SqlValue::Text(value)),
    {
        ChannelsDelete { filter: self.filter.compare("guild_id", SqlValue::Text(value)) }
    }

    /// Adds the fragment `guild_id IN (..)`, to which ` = $n` is appended, and its
    /// values; adds nothing where there are none.
    pub fn where_guild_id_in(self, values: Vec<String>) -> (r: Self)
        ensures
            r@ == self@.one_of(
                "guild_id"@,
                values@.map_values(|v: String| SqlValue::Text(v)),
            ),
    {
        ChannelsDelete { filter: self.filter.one_of("guild_id", text_values(values)) }
    }

    /// Keeps the rows whose `created_at` is `value`.
    pub fn where_created_at(self, value: Timestamp) -> (r: Self)
        ensures
            r@ == self@.compare("created_at"@, SqlValue::Time(value)),
    {
        ChannelsDelete { filter: self.filter.compare("created_at", SqlValue::Time(value)) }
    }

    /// Adds the fragment `created_at IN (..)`, to which ` = $n` is appended, and its
    /// values; adds nothing where there are none.
    pub fn where_created_at_in(self, values: Vec<Timestamp>) -> (r: Self)
        ensures
            r@ == self@.one_of(
                "created_at"@,
                values@.map_values(|v: Timestamp| SqlValue::Time(v)),
            ),
    {
        ChannelsDelete { filter: self.filter.one_of("created_at", time_values(values)) }
    }

    /// Adds the fragment `created_at >` and its value.
    pub fn where_created_at_gt(self, value: Timestamp) -> (r: Self)
        ensures
            r@ == self@.compare("created_at >"@, SqlValue::Time(value)),
    {
        ChannelsDelete { filter: self.filter.compare("created_at >", SqlValue::Time(value)) }
    }

    /// Adds the fragment `created_at <` and its value.
    pub fn where_created_at_lt(self, value: Timestamp) -> (r: Self)
        ensures
            r@ == self@.compare("created_at <"@, SqlValue::Time(value)),
    {
        ChannelsDelete { filter: self.filter.compare("created_at <", SqlValue::Time(value)) }
    }

    /// Adds the fragment `created_at >=` and its value.
    pub fn where_created_at_gte(self, value: Timestamp) -> (r: Self)
        ensures
            r@ == self@.compare("created_at >="@, SqlValue::Time(value)),
    {
        ChannelsDelete { filter: self.filter.compare("created_at >=", SqlValue::Time(value)) }
    }

    /// Adds the fragment `created_at <=` and its value.
    pub fn where_created_at_lte(self, value: Timestamp) -> (r: Self)
        ensures
            r@ == self@.compare("created_at <="@, SqlValue::Time(value)),
    {
        ChannelsDelete { filter: self.filter.compare("created_at <=", SqlValue::Time(value)) }
    }

    /// Keeps the rows whose `rate_limit_per_user` is `value`.
    pub fn where_rate_limit_per_user(self, value: i32) -> (r: Self)
        ensures
            r@ == self@.compare("rate_limit_per_user"@, SqlValue::Int(value)),
    {
        ChannelsDelete { filter: self.filter.compare("rate_limit_per_user", SqlValue::Int(value)) }
    }

    /// Adds the fragment `rate_limit_per_user IN (..)`, to which ` = $n` is appended, and its
    /// values; adds nothing where there are none.
    pub fn where_rate_limit_per_user_in(self, values: Vec<i32>) -> (r: Self)
        ensures
            r@ == self@.one_of(
                "rate_limit_per_user"@,
                values@.map_values(|v: i32| SqlValue::Int(v)),
            ),
    {
        ChannelsDelete { filter: self.filter.one_of("rate_limit_per_user", int_values(values)) }
    }

    /// The statement that removes the rows; none without a condition.
    pub fn statement(self) -> (r: Result<Statement, BuildError>)
        ensures
            match r {
                Ok(s) => self@.fragments.len() > 0 && s.says(
                    self@.delete_sql("channels"@),
                    self@.args,
                ),
                Err(e) => self@.fragments.len() == 0 && e == BuildError::DeleteWithoutWhere,
            },
    {
        self.filter.delete("channels")
    }
}

/// The statements on the table of channels.
#[derive(Clone, Copy, Debug, PartialEq, Eq, Structural)]
pub struct ChannelsAccessor;

/// Whether a builder is what `f` makes of the builder for all channels.
pub open spec fn built_by_channel_filter<F: FnOnce(ChannelsWhereBuilder) -> ChannelsWhereBuilder>(
    f: F,
    builder: ChannelsWhereBuilder,
) -> bool {
    exists|start: ChannelsWhereBuilder|
        start@ == FilterView::empty() && #[trigger] call_ensures(f, (start,), builder)
}

impl ChannelsAccessor {
    /// The table.
    pub fn new() -> (r: Self)
        ensures
            r == (ChannelsAccessor),
    {
        ChannelsAccessor
    }

    /// Fetches the rows that a filter keeps.
    pub fn find_many<F: FnOnce(ChannelsWhereBuilder) -> ChannelsWhereBuilder>(
        &self,
        f: F,
    ) -> (r: Statement)
        requires
            forall|start: ChannelsWhereBuilder|
                start@ == FilterView::empty() ==> call_requires(f, (start,)),
        ensures
            exists|b: ChannelsWhereBuilder|
                #[trigger] built_by_channel_filter(f, b) && r.says(
                    b@.select_sql("channels"@),
                    b@.args,
                ),
    {
        let builder: ChannelsWhereBuilder = f(ChannelsWhereBuilder::new());
        assert(built_by_channel_filter(f, builder));
        ChannelsQuery::from_builder(builder).select()
    }

    /// Fetches the first row that a filter keeps.
    pub fn find_first<F: FnOnce(ChannelsWhereBuilder) -> ChannelsWhereBuilder>(
        &self,
        f: F,
    ) -> (r: Statement)
        requires
            forall|start: ChannelsWhereBuilder|
                start@ == FilterView::empty() ==> call_requires(f, (start,)),
        ensures
            exists|b: ChannelsWhereBuilder|
                #[trigger] built_by_channel_filter(f, b) && r.says(
                    b@.with_limit(1).select_sql("channels"@),
                    b@.args,
                ),
    {
        let builder: ChannelsWhereBuilder = f(ChannelsWhereBuilder::new());
        assert(built_by_channel_filter(f, builder));
        ChannelsQuery::from_builder(builder).first()
    }

    /// Sums a column up over the rows that a filter keeps.
    pub fn sum<F: FnOnce(ChannelsWhereBuilder) -> ChannelsWhereBuilder>(
        &self,
        f: F,
        field: &str,
        zero: SqlValue,
    ) -> (r: Statement)
        requires
            forall|start: ChannelsWhereBuilder|
                start@ == FilterView::empty() ==> call_requires(f, (start,)),
        ensures
            exists|b: ChannelsWhereBuilder|
                #[trigger] built_by_channel_filter(f, b) && r.says(
                    b@.sum_sql("channels"@, field@),
                    b@.args.push(zero),
                ),
    {
        let builder: ChannelsWhereBuilder = f(ChannelsWhereBuilder::new());
        assert(built_by_channel_filter(f, builder));
        ChannelsQuery::from_builder(builder).sum(field, zero)
    }

    /// Counts the rows that a filter keeps.
    pub fn count<F: FnOnce(ChannelsWhereBuilder) -> ChannelsWhereBuilder>(
        &self,
        f: F,
    ) -> (r: Statement)
        requires
            forall|start: ChannelsWhereBuilder|
                start@ == FilterView::empty() ==> call_requires(f, (start,)),
        ensures
            exists|b: ChannelsWhereBuilder|
                #[trigger] built_by_channel_filter(f, b) && r.says(
                    b@.count_sql("channels"@),
                    b@.args,
                ),
    {
        let builder: ChannelsWhereBuilder = f(ChannelsWhereBuilder::new());
        assert(built_by_channel_filter(f, builder));
        ChannelsQuery::from_builder(builder).count()
    }

    /// Computes the average of a column over the rows that a filter keeps.
    pub fn avg<F: FnOnce(ChannelsWhereBuilder) -> ChannelsWhereBuilder>(
        &self,
        f: F,
        field: &str,
    ) -> (r: Statement)
        requires
            forall|start: ChannelsWhereBuilder|
                start@ == FilterView::empty() ==> call_requires(f, (start,)),
        ensures
            exists|b: ChannelsWhereBuilder|
                #[trigger] built_by_channel_filter(f, b) && r.says(
                    b@.aggregate_sql("channels"@, field@, "AVG"@),
                    b@.args,
                ),
    {
        let builder: ChannelsWhereBuilder = f(ChannelsWhereBuilder::new());
        assert(built_by_channel_filter(f, builder));
        ChannelsQuery::from_builder(builder).avg(field)
    }

    /// Computes the least value of a column over the rows that a filter keeps.
    pub fn min<F: FnOnce(ChannelsWhereBuilder) -> ChannelsWhereBuilder>(
        &self,
        f: F,
        field: &str,
    ) -> (r: Statement)
        requires
            forall|start: ChannelsWhereBuilder|
                start@ == FilterView::empty() ==> call_requires(f, (start,)),
        ensures
            exists|b: ChannelsWhereBuilder|
                #[trigger] built_by_channel_filter(f, b) && r.says(
                    b@.aggregate_sql("channels"@, field@, "MIN"@),
                    b@.args,
                ),
    {
        let builder: ChannelsWhereBuilder = f(ChannelsWhereBuilder::new());
        assert(built_by_channel_filter(f, builder));
        ChannelsQuery::from_builder(builder).min(field)
    }

    /// Computes the greatest value of a column over the rows that a filter keeps.
    pub fn max<F: FnOnce(ChannelsWhereBuilder) -> ChannelsWhereBuilder>(
        &self,
        f: F,
        field: &str,
    ) -> (r: Statement)
        requires
            forall|start: ChannelsWhereBuilder|
                start@ == FilterView::empty() ==> call_requires(f, (start,)),
        ensures
            exists|b: ChannelsWhereBuilder|
                #[trigger] built_by_channel_filter(f, b) && r.says(
                    b@.aggregate_sql("channels"@, field@, "MAX"@),
                    b@.args,
                ),
    {
        let builder: ChannelsWhereBuilder = f(ChannelsWhereBuilder::new());
        assert(built_by_channel_filter(f, builder));
        ChannelsQuery::from_builder(builder).max(field)
    }

    /// Sums `rate_limit_per_user` up over the rows that a filter keeps.
    pub fn sum_rate_limit_per_user<F: FnOnce(ChannelsWhereBuilder) -> ChannelsWhereBuilder>(
        &self,
        f: F,
    ) -> (r: Statement)
        requires
            forall|start: ChannelsWhereBuilder|
                start@ == FilterView::empty() ==> call_requires(f, (start,)),
        ensures
            exists|b: ChannelsWhereBuilder|
                #[trigger] built_by_channel_filter(f, b) && r.says(
                    b@.sum_sql("channels"@, "rate_limit_per_user"@),
                    b@.args.push(SqlValue::BigInt(0)),
                ),
    {
        let builder: ChannelsWhereBuilder = f(ChannelsWhereBuilder::new());
        assert(built_by_channel_filter(f, builder));
        ChannelsQuery::from_builder(builder).sum("rate_limit_per_user", SqlValue::BigInt(0))
    }

    /// The change that `f` describes.
    pub fn update<F: FnOnce(ChannelsUpdate) -> ChannelsUpdate>(&self, f: F) -> (r: ChannelsUpdate)
        requires
            forall|start: ChannelsUpdate|
                start@ == UpdateView::empty() ==> call_requires(f, (start,)),
        ensures
            exists|start: ChannelsUpdate|
                start@ == UpdateView::empty() && #[trigger] call_ensures(f, (start,), r),
    {
        f(ChannelsUpdate::new())
    }

    /// The row to be added or changed that `f` describes.
    pub fn upsert<F: FnOnce(ChannelsUpsert) -> ChannelsUpsert>(&self, f: F) -> (r: ChannelsUpsert)
        requires
            forall|start: ChannelsUpsert|
                start@ == UpsertView::empty() ==> call_requires(f, (start,)),
        ensures
            exists|start: ChannelsUpsert|
                start@ == UpsertView::empty() && #[trigger] call_ensures(f, (start,), r),
    {
        f(ChannelsUpsert::new())
    }

    /// The row to be added that `f` describes.
    pub fn create<F: FnOnce(ChannelsCreate) -> ChannelsCreate>(&self, f: F) -> (r: ChannelsCreate)
        requires
            forall|start: ChannelsCreate|
                start@ == CreateView::empty() ==> call_requires(f, (start,)),
        ensures
            exists|start: ChannelsCreate|
                start@ == CreateView::empty() && #[trigger] call_ensures(f, (start,), r),
    {
        f(ChannelsCreate::new())
    }

    /// The rows to be removed that `f` describes.
    pub fn delete<F: FnOnce(ChannelsDelete) -> ChannelsDelete>(&self, f: F) -> (r: ChannelsDelete)
        requires
            forall|start: ChannelsDelete|
                start@ == FragmentsView::empty() ==> call_requires(f, (start,)),
        ensures
            exists|start: ChannelsDelete|
                start@ == FragmentsView::empty() && #[trigger] call_ensures(f, (start,), r),
    {
        f(ChannelsDelete::new())
    }

    /// Adds several rows at once, with the columns of the first; nothing where there are none.
    pub fn create_many(&self, records: Vec<StringMap<SqlValue>>) -> (r: Option<Statement>)
        ensures
            match r {
                Some(s) => records@.len() > 0 && s.says(
                    insert_many_sql("channels"@, row_maps(records@)),
                    rows_values(sorted_keys(records@[0]@), row_maps(records@)),
                ),
                None => records@.len() == 0,
            },
    {
        insert_many("channels", records)
    }

    /// Fetches the row with an id.
    pub fn find_unique(&self, id: String) -> (r: Statement)
        ensures
            r.says(find_sql("channels"@, "id"@), seq![SqlValue::Text(id)]),
    {
        Channels::find_by_id(id)
    }

    /// Fetches the row with an id, or adds it with nothing but the id.
    pub fn find_or_create(&self, id: String) -> (r: FindOrCreate)
        ensures
            r.insert.says(claim_sql("channels"@, "id"@), seq![SqlValue::Text(id)]),
            r.select.says(find_sql("channels"@, "id"@), seq![SqlValue::Text(id)]),
    {
        FindOrCreate::new("channels", "id", SqlValue::Text(id))
    }
}

} // verus!
