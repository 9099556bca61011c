//! The table of memberships: its rows, and the statements that read and change them.

use vstd::prelude::*;
use vstd::utf8::is_ascii_chars;
use crate::orm::change::{Arith, BuildError, Fragments, FragmentsView, Update, UpdateView};
use crate::orm::filter::{Filter, FilterView};
use crate::orm::insert::{
    claim_sql, find, find_sql, first_missing, insert_many, insert_many_sql, row_maps, rows_values,
    slices, Create, CreatePlan, CreateView, FindOrCreate, Upsert, UpsertView,
};
use crate::orm::value::{
    int_values, nullable_text_values, text_values, time_values, SqlValue, Statement, Timestamp,
};
use crate::string_map::{sorted_keys, sorted_values, StringMap};
use crate::text::search::{ascii_upper, upper_case};

verus! {

/// The membership of a user in a guild, as the database keeps it.
#[derive(Debug, PartialEq)]
pub struct GuildMembers {
    pub id: i32,
    pub guild_id: String,
    pub user_id: String,
    pub nickname: Option<String>,
    pub joined_at: Timestamp,
}

impl Clone for GuildMembers {
    fn clone(&self) -> (r: Self)
        ensures
            r == *self,
    {
        GuildMembers {
            id: self.id,
            guild_id: self.guild_id.clone(),
            user_id: self.user_id.clone(),
            nickname: self.nickname.clone(),
            joined_at: self.joined_at,
        }
    }
}

impl GuildMembers {
    /// The statement that fetches the membership with an id.
    pub fn find_by_id(id: i32) -> (r: Statement)
        ensures
            r.says(find_sql("guildmembers"@, "id"@), seq![SqlValue::Int(id)]),
    {
        find("guildmembers", "id", SqlValue::Int(id))
    }
}

/// Which memberships to fetch, in which order, and how many.
#[derive(Debug, PartialEq)]
pub struct GuildMembersWhereBuilder {
    filter: Filter,
}

impl View for GuildMembersWhereBuilder {
    type V = FilterView;

    closed spec fn view(&self) -> FilterView {
        self.filter@
    }
}

impl GuildMembersWhereBuilder {
    /// All memberships.
    pub fn new() -> (r: Self)
        ensures
            r@ == FilterView::empty(),
    {
        GuildMembersWhereBuilder { filter: Filter::new() }
    }

    /// Keeps those whose `id` is `value`.
    pub fn where_id(self, value: i32) -> (r: Self)
        ensures
            r@ == self@.compare("id"@, "="@, SqlValue::Int(value)),
    {
        GuildMembersWhereBuilder { filter: self.filter.compare("id", "=", SqlValue::Int(value)) }
    }

    /// Keeps those whose `id` is one of `values`; keeps all where there are none.
    pub fn where_id_in(self, values: Vec<i32>) -> (r: Self)
        ensures
            r@ == self@.one_of(
                "id"@,
                values@.map_values(|v: i32| SqlValue::Int(v)),
            ),
    {
        GuildMembersWhereBuilder { filter: self.filter.one_of("id", int_values(values)) }
    }

    /// Keeps those whose `guild_id` is `value`.
    pub fn where_guild_id(self, value: String) -> (r: Self)
        ensures
            r@ == self@.compare("guild_id"@, "="@, SqlValue::Text(value)),
    {
        GuildMembersWhereBuilder {
            filter: self.filter.compare("guild_id", "=", SqlValue::Text(value)),
        }
    }

    /// Keeps those whose `guild_id` is one of `values`; keeps all where there are none.
    pub fn where_guild_id_in(self, values: Vec<String>) -> (r: Self)
        ensures
            r@ == self@.one_of(
                "guild_id"@,
                values@.map_values(|v: String| SqlValue::Text(v)),
            ),
    {
        GuildMembersWhereBuilder { filter: self.filter.one_of("guild_id", text_values(values)) }
    }

    /// Keeps those whose `user_id` is `value`.
    pub fn where_user_id(self, value: String) -> (r: Self)
        ensures
            r@ == self@.compare("user_id"@, "="@, SqlValue::Text(value)),
    {
        GuildMembersWhereBuilder {
            filter: self.filter.compare("user_id", "=", SqlValue::Text(value)),
        }
    }

    /// Keeps those whose `user_id` is one of `values`; keeps all where there are none.
    pub fn where_user_id_in(self, values: Vec<String>) -> (r: Self)
        ensures
            r@ == self@.one_of(
                "user_id"@,
                values@.map_values(|v: String| SqlValue::Text(v)),
            ),
    {
        GuildMembersWhereBuilder { filter: self.filter.one_of("user_id", text_values(values)) }
    }

    /// Keeps those whose `nickname` is `value`.
    pub fn where_nickname(self, value: Option<String>) -> (r: Self)
        ensures
            r@ == self@.compare("nickname"@, "="@, SqlValue::NullableText(value)),
    {
        GuildMembersWhereBuilder {
            filter: self.filter.compare("nickname", "=", SqlValue::NullableText(value)),
        }
    }

    /// Keeps those whose `nickname` is one of `values`; keeps all where there are none.
    pub fn where_nickname_in(self, values: Vec<Option<String>>) -> (r: Self)
        ensures
            r@ == self@.one_of(
                "nickname"@,
                values@.map_values(|v: Option<String>| SqlValue::NullableText(v)),
            ),
    {
        GuildMembersWhereBuilder {
            filter: self.filter.one_of("nickname", nullable_text_values(values)),
        }
    }

    /// Keeps those without `nickname`.
    pub fn where_nickname_is_null(self) -> (r: Self)
        ensures
            r@ == self@.condition("nickname IS NULL"@),
    {
        GuildMembersWhereBuilder { filter: self.filter.condition("nickname IS NULL") }
    }

    /// Keeps those with `nickname`.
    pub fn where_nickname_is_not_null(self) -> (r: Self)
        ensures
            r@ == self@.condition("nickname IS NOT NULL"@),
    {
        GuildMembersWhereBuilder { filter: self.filter.condition("nickname IS NOT NULL") }
    }

    /// Keeps those whose `joined_at` is `value`.
    pub fn where_joined_at(self, value: Timestamp) -> (r: Self)
        ensures
            r@ == self@.compare("joined_at"@, "="@, SqlValue::Time(value)),
    {
        GuildMembersWhereBuilder {
            filter: self.filter.compare("joined_at", "=", SqlValue::Time(value)),
        }
    }

    /// Keeps those whose `joined_at` is one of `values`; keeps all where there are none.
    pub fn where_joined_at_in(self, values: Vec<Timestamp>) -> (r: Self)
        ensures
            r@ == self@.one_of(
                "joined_at"@,
                values@.map_values(|v: Timestamp| SqlValue::Time(v)),
            ),
    {
        GuildMembersWhereBuilder { filter: self.filter.one_of("joined_at", time_values(values)) }
    }

    /// Keeps those whose `joined_at` is after `value`.
    pub fn where_joined_at_gt(self, value: Timestamp) -> (r: Self)
        ensures
            r@ == self@.compare("joined_at"@, ">"@, SqlValue::Time(value)),
    {
        GuildMembersWhereBuilder {
            filter: self.filter.compare("joined_at", ">", SqlValue::Time(value)),
        }
    }

    /// Keeps those whose `joined_at` is before `value`.
    pub fn where_joined_at_lt(self, value: Timestamp) -> (r: Self)
        ensures
            r@ == self@.compare("joined_at"@, "<"@, SqlValue::Time(value)),
    {
        GuildMembersWhereBuilder {
            filter: self.filter.compare("joined_at", "<", SqlValue::Time(value)),
        }
    }

    /// Keeps those whose `joined_at` is at or after `value`.
    pub fn where_joined_at_gte(self, value: Timestamp) -> (r: Self)
        ensures
            r@ == self@.compare("joined_at"@, ">="@, SqlValue::Time(value)),
    {
        GuildMembersWhereBuilder {
            filter: self.filter.compare("joined_at", ">=", SqlValue::Time(value)),
        }
    }

    /// Keeps those whose `joined_at` is at or before `value`.
    pub fn where_joined_at_lte(self, value: Timestamp) -> (r: Self)
        ensures
            r@ == self@.compare("joined_at"@, "<="@, SqlValue::Time(value)),
    {
        GuildMembersWhereBuilder {
            filter: self.filter.compare("joined_at", "<=", SqlValue::Time(value)),
        }
    }

    /// Orders by `id`, upwards, after the orders given so far.
    pub fn order_by_id_asc(self) -> (r: Self)
        ensures
            r@ == self@.order("id"@, "ASC"@),
    {
        GuildMembersWhereBuilder { filter: self.filter.order("id", "ASC") }
    }

    /// Orders by `id`, downwards, after the orders given so far.
    pub fn order_by_id_desc(self) -> (r: Self)
        ensures
            r@ == self@.order("id"@, "DESC"@),
    {
        GuildMembersWhereBuilder { filter: self.filter.order("id", "DESC") }
    }

    /// Orders by `guild_id`, upwards, after the orders given so far.
    pub fn order_by_guild_id_asc(self) -> (r: Self)
        ensures
            r@ == self@.order("guild_id"@, "ASC"@),
    {
        GuildMembersWhereBuilder { filter: self.filter.order("guild_id", "ASC") }
    }

    /// Orders by `guild_id`, downwards, after the orders given so far.
    pub fn order_by_guild_id_desc(self) -> (r: Self)
        ensures
            r@ == self@.order("guild_id"@, "DESC"@),
    {
        GuildMembersWhereBuilder { filter: self.filter.order("guild_id", "DESC") }
    }

    /// Orders by `user_id`, upwards, after the orders given so far.
    pub fn order_by_user_id_asc(self) -> (r: Self)
        ensures
            r@ == self@.order("user_id"@, "ASC"@),
    {
        GuildMembersWhereBuilder { filter: self.filter.order("user_id", "ASC") }
    }

    /// Orders by `user_id`, downwards, after the orders given so far.
    pub fn order_by_user_id_desc(self) -> (r: Self)
        ensures
            r@ == self@.order("user_id"@, "DESC"@),
    {
        GuildMembersWhereBuilder { filter: self.filter.order("user_id", "DESC") }
    }

    /// Orders by `nickname`, upwards, after the orders given so far.
    pub fn order_by_nickname_asc(self) -> (r: Self)
        ensures
            r@ == self@.order("nickname"@, "ASC"@),
    {
        GuildMembersWhereBuilder { filter: self.filter.order("nickname", "ASC") }
    }

    /// Orders by `nickname`, downwards, after the orders given so far.
    pub fn order_by_nickname_desc(self) -> (r: Self)
        ensures
            r@ == self@.order("nickname"@, "DESC"@),
    {
        GuildMembersWhereBuilder { filter: self.filter.order("nickname", "DESC") }
    }

    /// Orders by `joined_at`, upwards, after the orders given so far.
    pub fn order_by_joined_at_asc(self) -> (r: Self)
        ensures
            r@ == self@.order("joined_at"@, "ASC"@),
    {
        GuildMembersWhereBuilder { filter: self.filter.order("joined_at", "ASC") }
    }

    /// Orders by `joined_at`, downwards, after the orders given so far.
    pub fn order_by_joined_at_desc(self) -> (r: Self)
        ensures
            r@ == self@.order("joined_at"@, "DESC"@),
    {
        GuildMembersWhereBuilder { filter: self.filter.order("joined_at", "DESC") }
    }

    /// Takes no more than `limit` rows.
    pub fn limit(self, limit: usize) -> (r: Self)
        ensures
            r@ == self@.with_limit(limit),
    {
        GuildMembersWhereBuilder { filter: self.filter.limit(limit) }
    }

    /// Leaves the first `offset` rows out.
    pub fn offset(self, offset: usize) -> (r: Self)
        ensures
            r@ == self@.with_offset(offset),
    {
        GuildMembersWhereBuilder { filter: self.filter.offset(offset) }
    }
}

/// A query on the memberships.
#[derive(Debug, PartialEq)]
pub struct GuildMembersQuery {
    filter: Filter,
}

impl View for GuildMembersQuery {
    type V = FilterView;

    closed spec fn view(&self) -> FilterView {
        self.filter@
    }
}

impl GuildMembersQuery {
    /// A query on all memberships.
    pub fn new() -> (r: Self)
        ensures
            r@ == FilterView::empty(),
    {
        GuildMembersQuery { filter: Filter::new() }
    }

    /// The query that a builder describes.
    pub fn from_builder(builder: GuildMembersWhereBuilder) -> (r: Self)
        ensures
            r@ == builder@,
    {
        GuildMembersQuery { filter: builder.filter }
    }

    /// Takes no more than `limit` rows.
    pub fn limit(self, limit: usize) -> (r: Self)
        ensures
            r@ == self@.with_limit(limit),
    {
        GuildMembersQuery { filter: self.filter.limit(limit) }
    }

    /// Leaves the first `offset` rows out.
    pub fn offset(self, offset: usize) -> (r: Self)
        ensures
            r@ == self@.with_offset(offset),
    {
        GuildMembersQuery { filter: self.filter.offset(offset) }
    }

    /// The statement that fetches the rows.
    pub fn select(self) -> (r: Statement)
        ensures
            r.says(self@.select_sql("guildmembers"@), self@.args),
    {
        self.filter.select("guildmembers")
    }

    /// The statement that fetches the first row.
    pub fn first(self) -> (r: Statement)
        ensures
            r.says(self@.with_limit(1).select_sql("guildmembers"@), self@.args),
    {
        self.limit(1).select()
    }

    /// The statement that counts the rows.
    pub fn count(self) -> (r: Statement)
        ensures
            r.says(self@.count_sql("guildmembers"@), self@.args),
    {
        self.filter.count("guildmembers")
    }

    /// The statement that applies an aggregate function to a column.
    pub fn aggregate(self, field: &str, func: &str) -> (r: Statement)
        ensures
            r.says(self@.aggregate_sql("guildmembers"@, field@, upper_case(func@)), self@.args),
            is_ascii_chars(func@) ==> upper_case(func@) == func@.map_values(
                |c: char| ascii_upper(c),
            ),
    {
        let name: String = func.to_uppercase();
        self.filter.aggregate("guildmembers", field, name.as_str())
    }

    /// The statement that sums a column up, with `zero` for no rows.
    pub fn sum(self, field: &str, zero: SqlValue) -> (r: Statement)
        ensures
            r.says(self@.sum_sql("guildmembers"@, field@), self@.args.push(zero)),
    {
        self.filter.sum("guildmembers", field, zero)
    }

    /// The statement that sums a column up as a 64-bit integer.
    pub fn sum_cast_i64(self, field: &str) -> (r: Statement)
        ensures
            r.says(
                self@.sum_cast_sql("guildmembers"@, field@),
                self@.args.push(SqlValue::BigInt(0)),
            ),
    {
        self.filter.sum_cast("guildmembers", field)
    }

    /// The statement that computes the average of a column.
    pub fn avg(self, field: &str) -> (r: Statement)
        ensures
            r.says(self@.aggregate_sql("guildmembers"@, field@, "AVG"@), self@.args),
    {
        proof {
            reveal_strlit("AVG");
            assert("AVG"@.map_values(|c: char| ascii_upper(c)) =~= "AVG"@);
        }
        self.aggregate(field, "AVG")
    }

    /// The statement that computes the least value of a column.
    pub fn min(self, field: &str) -> (r: Statement)
        ensures
            r.says(self@.aggregate_sql("guildmembers"@, field@, "MIN"@), self@.args),
    {
        proof {
            reveal_strlit("MIN");
            assert("MIN"@.map_values(|c: char| ascii_upper(c)) =~= "MIN"@);
        }
        self.aggregate(field, "MIN")
    }

    /// The statement that computes the greatest value of a column.
    pub fn max(self, field: &str) -> (r: Statement)
        ensures
            r.says(self@.aggregate_sql("guildmembers"@, field@, "MAX"@), self@.args),
    {
        proof {
            reveal_strlit("MAX");
            assert("MAX"@.map_values(|c: char| ascii_upper(c)) =~= "MAX"@);
        }
        self.aggregate(field, "MAX")
    }
}

/// A change of some memberships.
#[derive(Debug, PartialEq)]
pub struct GuildMembersUpdate {
    update: Update,
}

impl View for GuildMembersUpdate {
    type V = UpdateView;

    closed spec fn view(&self) -> UpdateView {
        self.update@
    }
}

impl GuildMembersUpdate {
    /// A change that sets nothing yet.
    pub fn new() -> (r: Self)
        ensures
            r@ == UpdateView::empty(),
    {
        GuildMembersUpdate { update: Update::new() }
    }

    /// Keeps the rows whose `id` is `value`.
    pub fn where_id(self, value: i32) -> (r: Self)
        ensures
            r@ == self@.filtered(
                self@.filter.compare("id"@, SqlValue::Int(value)),
            ),
    {
        GuildMembersUpdate { update: self.update.compare("id", SqlValue::Int(value)) }
    }

    /// Adds the fragment `id IN (..)`, to which ` = $n` is appended, and its
    /// values; adds nothing where there are none.
    pub fn where_id_in(self, values: Vec<i32>) -> (r: Self)
        ensures
            r@ == self@.filtered(
                self@.filter.one_of(
                    "id"@,
                    values@.map_values(|v: i32| SqlValue::Int(v)),
                ),
            ),
    {
        GuildMembersUpdate { update: self.update.one_of("id", int_values(values)) }
    }

    /// Keeps the rows whose `guild_id` is `value`.
    pub fn where_guild_id(self, value: String) -> (r: Self)
        ensures
            r@ == self@.filtered(
                self@.filter.compare("guild_id"@, SqlValue::Text(value)),
            ),
    {
        GuildMembersUpdate { update: self.update.compare("guild_id", SqlValue::Text(value)) }
    }

    /// Adds the fragment `guild_id IN (..)`, to which ` = $n` is appended, and its
    /// values; adds nothing where there are none.
    pub fn where_guild_id_in(self, values: Vec<String>) -> (r: Self)
        ensures
            r@ == self@.filtered(
                self@.filter.one_of(
                    "guild_id"@,
                    values@.map_values(|v: String| SqlValue::Text(v)),
                ),
            ),
    {
        GuildMembersUpdate { update: self.update.one_of("guild_id", text_values(values)) }
    }

    /// Keeps the rows whose `user_id` is `value`.
    pub fn where_user_id(self, value: String) -> (r: Self)
        ensures
            r@ == self@.filtered(
                self@.filter.compare("user_id"@, SqlValue::Text(value)),
            ),
    {
        GuildMembersUpdate { update: self.update.compare("user_id", SqlValue::Text(value)) }
    }

    /// Adds the fragment `user_id IN (..)`, to which ` = $n` is appended, and its
    /// values; adds nothing where there are none.
    pub fn where_user_id_in(self, values: Vec<String>) -> (r: Self)
        ensures
            r@ == self@.filtered(
                self@.filter.one_of(
                    "user_id"@,
                    values@.map_values(|v: String| SqlValue::Text(v)),
                ),
            ),
    {
        GuildMembersUpdate { update: self.update.one_of("user_id", text_values(values)) }
    }

    /// Keeps the rows whose `nickname` is `value`.
    pub fn where_nickname(self, value: Option<String>) -> (r: Self)
        ensures
            r@ == self@.filtered(
                self@.filter.compare("nickname"@, SqlValue::NullableText(value)),
            ),
    {
        GuildMembersUpdate {
            update: self.update.compare("nickname", SqlValue::NullableText(value)),
        }
    }

    /// Adds the fragment `nickname IN (..)`, to which ` = $n` is appended, and its
    /// values; adds nothing where there are none.
    pub fn where_nickname_in(self, values: Vec<Option<String>>) -> (r: Self)
        ensures
            r@ == self@.filtered(
                self@.filter.one_of(
                    "nickname"@,
                    values@.map_values(|v: Option<String>| SqlValue::NullableText(v)),
                ),
            ),
    {
        GuildMembersUpdate { update: self.update.one_of("nickname", nullable_text_values(values)) }
    }

    /// Adds the fragment for rows without `nickname`.
    pub fn where_nickname_is_null(self) -> (r: Self)
        ensures
            r@ == self@.filtered(
                self@.filter.condition("nickname IS NULL"@),
            ),
    {
        GuildMembersUpdate { update: self.update.condition("nickname IS NULL") }
    }

    /// Adds the fragment for rows with `nickname`.
    pub fn where_nickname_is_not_null(self) -> (r: Self)
        ensures
            r@ == self@.filtered(
                self@.filter.condition("nickname IS NOT NULL"@),
            ),
    {
        GuildMembersUpdate { update: self.update.condition("nickname IS NOT NULL") }
    }

    /// Keeps the rows whose `joined_at` is `value`.
    pub fn where_joined_at(self, value: Timestamp) -> (r: Self)
        ensures
            r@ == self@.filtered(
                self@.filter.compare("joined_at"@, SqlValue::Time(value)),
            ),
    {
        GuildMembersUpdate { update: self.update.compare("joined_at", SqlValue::Time(value)) }
    }

    /// Adds the fragment `joined_at IN (..)`, to which ` = $n` is appended, and its
    /// values; adds nothing where there are none.
    pub fn where_joined_at_in(self, values: Vec<Timestamp>) -> (r: Self)
        ensures
            r@ == self@.filtered(
                self@.filter.one_of(
                    "joined_at"@,
                    values@.map_values(|v: Timestamp| SqlValue::Time(v)),
                ),
            ),
    {
        GuildMembersUpdate { update: self.update.one_of("joined_at", time_values(values)) }
    }

    /// Adds the fragment `joined_at >` and its value.
    pub fn where_joined_at_gt(self, value: Timestamp) -> (r: Self)
        ensures
            r@ == self@.filtered(
                self@.filter.compare("joined_at >"@, SqlValue::Time(value)),
            ),
    {
        GuildMembersUpdate { update: self.update.compare("joined_at >", SqlValue::Time(value)) }
    }

    /// Adds the fragment `joined_at <` and its value.
    pub fn where_joined_at_lt(self, value: Timestamp) -> (r: Self)
        ensures
            r@ == self@.filtered(
                self@.filter.compare("joined_at <"@, SqlValue::Time(value)),
            ),
    {
        GuildMembersUpdate { update: self.update.compare("joined_at <", SqlValue::Time(value)) }
    }

    /// Adds the fragment `joined_at >=` and its value.
    pub fn where_joined_at_gte(self, value: Timestamp) -> (r: Self)
        ensures
            r@ == self@.filtered(
                self@.filter.compare("joined_at >="@, SqlValue::Time(value)),
            ),
    {
        GuildMembersUpdate { update: self.update.compare("joined_at >=", SqlValue::Time(value)) }
    }

    /// Adds the fragment `joined_at <=` and its value.
    pub fn where_joined_at_lte(self, value: Timestamp) -> (r: Self)
        ensures
            r@ == self@.filtered(
                self@.filter.compare("joined_at <="@, SqlValue::Time(value)),
            ),
    {
        GuildMembersUpdate { update: self.update.compare("joined_at <=", SqlValue::Time(value)) }
    }

    /// Sets `id`.
    pub fn set_id(self, value: i32) -> (r: Self)
        ensures
            r@ == self@.set("id"@, SqlValue::Int(value)),
    {
        GuildMembersUpdate { update: self.update.set("id", SqlValue::Int(value)) }
    }

    /// Sets `guild_id`.
    pub fn set_guild_id(self, value: String) -> (r: Self)
        ensures
            r@ == self@.set("guild_id"@, SqlValue::Text(value)),
    {
        GuildMembersUpdate { update: self.update.set("guild_id", SqlValue::Text(value)) }
    }

    /// Sets `user_id`.
    pub fn set_user_id(self, value: String) -> (r: Self)
        ensures
            r@ == self@.set("user_id"@, SqlValue::Text(value)),
    {
        GuildMembersUpdate { update: self.update.set("user_id", SqlValue::Text(value)) }
    }

    /// Sets `nickname`.
    pub fn set_nickname(self, value: Option<String>) -> (r: Self)
        ensures
            r@ == self@.set("nickname"@, SqlValue::NullableText(value)),
    {
        GuildMembersUpdate { update: self.update.set("nickname", SqlValue::NullableText(value)) }
    }

    /// Sets `joined_at`.
    pub fn set_joined_at(self, value: Timestamp) -> (r: Self)
        ensures
            r@ == self@.set("joined_at"@, SqlValue::Time(value)),
    {
        GuildMembersUpdate { update: self.update.set("joined_at", SqlValue::Time(value)) }
    }

    /// Adds `amount` to `id`.
    pub fn inc_id(self, amount: i64) -> (r: Self)
        ensures
            r@ == self@.step("id"@, Arith::Inc, amount),
    {
        GuildMembersUpdate { update: self.update.step("id", Arith::Inc, amount) }
    }

    /// Takes `amount` from `id`.
    pub fn dec_id(self, amount: i64) -> (r: Self)
        ensures
            r@ == self@.step("id"@, Arith::Dec, amount),
    {
        GuildMembersUpdate { update: self.update.step("id", Arith::Dec, amount) }
    }

    /// Multiplies by `factor` the value of `id`.
    pub fn mul_id(self, factor: i64) -> (r: Self)
        ensures
            r@ == self@.step("id"@, Arith::Mul, factor),
    {
        GuildMembersUpdate { update: self.update.step("id", Arith::Mul, factor) }
    }

    /// Divides by `divisor` the value of `id`.
    pub fn div_id(self, divisor: i64) -> (r: Self)
        ensures
            r@ == self@.step("id"@, Arith::Div, divisor),
    {
        GuildMembersUpdate { update: self.update.step("id", Arith::Div, divisor) }
    }

    /// The statement that makes the change and gives the row back; none where nothing is set.
    pub fn statement(self) -> (r: Result<Statement, BuildError>)
        ensures
            match r {
                Ok(s) => self@.set_columns.len() + self@.steps.len() > 0 && s.says(
                    self@.sql("guildmembers"@),
                    self@.params(),
                ),
                Err(e) => self@.set_columns.len() + self@.steps.len() == 0 && e
                    == BuildError::NoFieldsToUpdate,
            },
    {
        self.update.statement("guildmembers")
    }
}

/// A membership to be added, or to be changed where its id is there.
#[derive(Debug, PartialEq)]
pub struct GuildMembersUpsert {
    upsert: Upsert,
}

impl View for GuildMembersUpsert {
    type V = UpsertView;

    closed spec fn view(&self) -> UpsertView {
        self.upsert@
    }
}

impl GuildMembersUpsert {
    /// A row without values.
    pub fn new() -> (r: Self)
        ensures
            r@ == UpsertView::empty(),
    {
        GuildMembersUpsert { upsert: Upsert::new() }
    }

    /// Sets the id to look for.
    pub fn where_id(self, value: i32) -> (r: Self)
        ensures
            r@ == self@.key("id"@, SqlValue::Int(value)),
    {
        GuildMembersUpsert { upsert: self.upsert.key("id", SqlValue::Int(value)) }
    }

    /// Sets `id`.
    pub fn set_id(self, value: i32) -> (r: Self)
        ensures
            r@ == self@.set("id"@, SqlValue::Int(value)),
    {
        GuildMembersUpsert { upsert: self.upsert.set("id", SqlValue::Int(value)) }
    }

    /// Sets `guild_id`.
    pub fn set_guild_id(self, value: String) -> (r: Self)
        ensures
            r@ == self@.set("guild_id"@, SqlValue::Text(value)),
    {
        GuildMembersUpsert { upsert: self.upsert.set("guild_id", SqlValue::Text(value)) }
    }

    /// Sets `user_id`.
    pub fn set_user_id(self, value: String) -> (r: Self)
        ensures
            r@ == self@.set("user_id"@, SqlValue::Text(value)),
    {
        GuildMembersUpsert { upsert: self.upsert.set("user_id", SqlValue::Text(value)) }
    }

    /// Sets `nickname`.
    pub fn set_nickname(self, value: Option<String>) -> (r: Self)
        ensures
            r@ == self@.set("nickname"@, SqlValue::NullableText(value)),
    {
        GuildMembersUpsert { upsert: self.upsert.set("nickname", SqlValue::NullableText(value)) }
    }

    /// Sets `joined_at`.
    pub fn set_joined_at(self, value: Timestamp) -> (r: Self)
        ensures
            r@ == self@.set("joined_at"@, SqlValue::Time(value)),
    {
        GuildMembersUpsert { upsert: self.upsert.set("joined_at", SqlValue::Time(value)) }
    }

    /// Adds `amount` to `id`, or starts with it.
    pub fn inc_id(self, amount: i64) -> (r: Self)
        ensures
            r@ == self@.step("id"@, Arith::Inc, amount, SqlValue::BigInt(amount)),
    {
        GuildMembersUpsert {
            upsert: self.upsert.step("id", Arith::Inc, amount, SqlValue::BigInt(amount)),
        }
    }

    /// Takes `amount` from `id`, or starts with its negation.
    pub fn dec_id(self, amount: i64) -> (r: Self)
        requires
            amount != i64::MIN,
        ensures
            r@ == self@.step("id"@, Arith::Dec, amount, SqlValue::BigInt((-amount) as i64)),
    {
        GuildMembersUpsert {
            upsert: self.upsert.step("id", Arith::Dec, amount, SqlValue::BigInt(-amount)),
        }
    }

    /// Multiplies `id` by `factor`, or starts with zero.
    pub fn mul_id(self, factor: i64) -> (r: Self)
        ensures
            r@ == self@.step("id"@, Arith::Mul, factor, SqlValue::Int(0)),
    {
        GuildMembersUpsert { upsert: self.upsert.step("id", Arith::Mul, factor, SqlValue::Int(0)) }
    }

    /// Divides `id` by `divisor`, or starts with zero.
    pub fn div_id(self, divisor: i64) -> (r: Self)
        ensures
            r@ == self@.step("id"@, Arith::Div, divisor, SqlValue::Int(0)),
    {
        GuildMembersUpsert { upsert: self.upsert.step("id", Arith::Div, divisor, SqlValue::Int(0)) }
    }

    /// The statement that adds or changes the row and gives it back. It needs an id.
    pub fn statement(self) -> (r: Result<Statement, BuildError>)
        ensures
            match r {
                Ok(s) => self@.row().contains_key("id"@) && s.says(
                    self@.sql("guildmembers"@, "id"@),
                    sorted_values(self@.row()),
                ),
                Err(e) => e matches BuildError::MissingPrimaryKey(f) && f@ == "id"@
                    && !self@.row().contains_key("id"@),
            },
    {
        self.upsert.statement("guildmembers", "id")
    }
}

/// The columns that a new membership needs.
pub open spec fn required_of_membership() -> Seq<Seq<char>> {
    seq!["guild_id"@, "user_id"@]
}

/// A membership to be added, unless one that meets some conditions is there.
#[derive(Debug, PartialEq)]
pub struct GuildMembersCreate {
    create: Create,
}

impl View for GuildMembersCreate {
    type V = CreateView;

    closed spec fn view(&self) -> CreateView {
        self.create@
    }
}

impl GuildMembersCreate {
    /// A row without values.
    pub fn new() -> (r: Self)
        ensures
            r@ == CreateView::empty(),
    {
        GuildMembersCreate { create: Create::new() }
    }

    /// Keeps the rows whose `id` is `value`.
    pub fn where_id(self, value: i32) -> (r: Self)
        ensures
            r@ == self@.filtered(
                self@.filter.compare("id"@, SqlValue::Int(value)),
            ),
    {
        GuildMembersCreate { create: self.create.compare("id", SqlValue::Int(value)) }
    }

    /// Adds the fragment `id IN (..)`, to which ` = $n` is appended, and its
    /// values; adds nothing where there are none.
    pub fn where_id_in(self, values: Vec<i32>) -> (r: Self)
        ensures
            r@ == self@.filtered(
                self@.filter.one_of(
                    "id"@,
                    values@.map_values(|v: i32| SqlValue::Int(v)),
                ),
            ),
    {
        GuildMembersCreate { create: self.create.one_of("id", int_values(values)) }
    }

    /// Keeps the rows whose `guild_id` is `value`.
    pub fn where_guild_id(self, value: String) -> (r: Self)
        ensures
            r@ == self@.filtered(
                self@.filter.compare("guild_id"@, SqlValue::Text(value)),
            ),
    {
        GuildMembersCreate { create: self.create.compare("guild_id", SqlValue::Text(value)) }
    }

    /// Adds the fragment `guild_id IN (..)`, to which ` = $n` is appended, and its
    /// values; adds nothing where there are none.
    pub fn where_guild_id_in(self, values: Vec<String>) -> (r: Self)
        ensures
            r@ == self@.filtered(
                self@.filter.one_of(
                    "guild_id"@,
                    values@.map_values(|v: String| SqlValue::Text(v)),
                ),
            ),
    {
        GuildMembersCreate { create: self.create.one_of("guild_id", text_values(values)) }
    }

    /// Keeps the rows whose `user_id` is `value`.
    pub fn where_user_id(self, value: String) -> (r: Self)
        ensures
            r@ == self@.filtered(
                self@.filter.compare("user_id"@, SqlValue::Text(value)),
            ),
    {
        GuildMembersCreate { create: self.create.compare("user_id", SqlValue::Text(value)) }
    }

    /// Adds the fragment `user_id IN (..)`, to which ` = $n` is appended, and its
    /// values; adds nothing where there are none.
    pub fn where_user_id_in(self, values: Vec<String>) -> (r: Self)
        ensures
            r@ == self@.filtered(
                self@.filter.one_of(
                    "user_id"@,
                    values@.map_values(|v: String| SqlValue::Text(v)),
                ),
            ),
    {
        GuildMembersCreate { create: self.create.one_of("user_id", text_values(values)) }
    }

    /// Keeps the rows whose `nickname` is `value`.
    pub fn where_nickname(self, value: Option<String>) -> (r: Self)
        ensures
            r@ == self@.filtered(
                self@.filter.compare("nickname"@, SqlValue::NullableText(value)),
            ),
    {
        GuildMembersCreate {
            create: self.create.compare("nickname", SqlValue::NullableText(value)),
        }
    }

    /// Adds the fragment `nickname IN (..)`, to which ` = $n` is appended, and its
    /// values; adds nothing where there are none.
    pub fn where_nickname_in(self, values: Vec<Option<String>>) -> (r: Self)
        ensures
            r@ == self@.filtered(
                self@.filter.one_of(
                    "nickname"@,
                    values@.map_values(|v: Option<String>| SqlValue::NullableText(v)),
                ),
            ),
    {
        GuildMembersCreate { create: self.create.one_of("nickname", nullable_text_values(values)) }
    }

    /// Adds the fragment for rows without `nickname`.
    pub fn where_nickname_is_null(self) -> (r: Self)
        ensures
            r@ == self@.filtered(
                self@.filter.condition("nickname IS NULL"@),
            ),
    {
        GuildMembersCreate { create: self.create.condition("nickname IS NULL") }
    }

    /// Adds the fragment for rows with `nickname`.
    pub fn where_nickname_is_not_null(self) -> (r: Self)
        ensures
            r@ == self@.filtered(
                self@.filter.condition("nickname IS NOT NULL"@),
            ),
    {
        GuildMembersCreate { create: self.create.condition("nickname IS NOT NULL") }
    }

    /// Keeps the rows whose `joined_at` is `value`.
    pub fn where_joined_at(self, value: Timestamp) -> (r: Self)
        ensures
            r@ == self@.filtered(
                self@.filter.compare("joined_at"@, SqlValue::Time(value)),
            ),
    {
        GuildMembersCreate { create: self.create.compare("joined_at", SqlValue::Time(value)) }
    }

    /// Adds the fragment `joined_at IN (..)`, to which ` = $n` is appended, and its
    /// values; adds nothing where there are none.
    pub fn where_joined_at_in(self, values: Vec<Timestamp>) -> (r: Self)
        ensures
            r@ == self@.filtered(
                self@.filter.one_of(
                    "joined_at"@,
                    values@.map_values(|v: Timestamp| SqlValue::Time(v)),
                ),
            ),
    {
        GuildMembersCreate { create: self.create.one_of("joined_at", time_values(values)) }
    }

    /// Adds the fragment `joined_at >` and its value.
    pub fn where_joined_at_gt(self, value: Timestamp) -> (r: Self)
        ensures
            r@ == self@.filtered(
                self@.filter.compare("joined_at >"@, SqlValue::Time(value)),
            ),
    {
        GuildMembersCreate { create: self.create.compare("joined_at >", SqlValue::Time(value)) }
    }

    /// Adds the fragment `joined_at <` and its value.
    pub fn where_joined_at_lt(self, value: Timestamp) -> (r: Self)
        ensures
            r@ == self@.filtered(
                self@.filter.compare("joined_at <"@, SqlValue::Time(value)),
            ),
    {
        GuildMembersCreate { create: self.create.compare("joined_at <", SqlValue::Time(value)) }
    }

    /// Adds the fragment `joined_at >=` and its value.
    pub fn where_joined_at_gte(self, value: Timestamp) -> (r: Self)
        ensures
            r@ == self@.filtered(
                self@.filter.compare("joined_at >="@, SqlValue::Time(value)),
            ),
    {
        GuildMembersCreate { create: self.create.compare("joined_at >=", SqlValue::Time(value)) }
    }

    /// Adds the fragment `joined_at <=` and its value.
    pub fn where_joined_at_lte(self, value: Timestamp) -> (r: Self)
        ensures
            r@ == self@.filtered(
                self@.filter.compare("joined_at <="@, SqlValue::Time(value)),
            ),
    {
        GuildMembersCreate { create: self.create.compare("joined_at <=", SqlValue::Time(value)) }
    }

    /// Sets `id`.
    pub fn set_id(self, value: i32) -> (r: Self)
        ensures
            r@ == self@.set("id"@, SqlValue::Int(value)),
    {
        GuildMembersCreate { create: self.create.set("id", SqlValue::Int(value)) }
    }

    /// Sets `guild_id`.
    pub fn set_guild_id(self, value: String) -> (r: Self)
        ensures
            r@ == self@.set("guild_id"@, SqlValue::Text(value)),
    {
        GuildMembersCreate { create: self.create.set("guild_id", SqlValue::Text(value)) }
    }

    /// Sets `user_id`.
    pub fn set_user_id(self, value: String) -> (r: Self)
        ensures
            r@ == self@.set("user_id"@, SqlValue::Text(value)),
    {
        GuildMembersCreate { create: self.create.set("user_id", SqlValue::Text(value)) }
    }

    /// Sets `nickname`.
    pub fn set_nickname(self, value: Option<String>) -> (r: Self)
        ensures
            r@ == self@.set("nickname"@, SqlValue::NullableText(value)),
    {
        GuildMembersCreate { create: self.create.set("nickname", SqlValue::NullableText(value)) }
    }

    /// Sets `joined_at`.
    pub fn set_joined_at(self, value: Timestamp) -> (r: Self)
        ensures
            r@ == self@.set("joined_at"@, SqlValue::Time(value)),
    {
        GuildMembersCreate { create: self.create.set("joined_at", SqlValue::Time(value)) }
    }

    /// The statements that create the row; none where a column that it needs has no value.
    pub fn plan(self) -> (r: Result<CreatePlan, BuildError>)
        ensures
            match r {
                Ok(p) => first_missing(required_of_membership(), self@.values) is None
                    && self@.planned("guildmembers"@, p),
                Err(e) => e matches BuildError::MissingField(f) && first_missing(
                    required_of_membership(),
                    self@.values,
                ) == Some(f@),
            },
    {
        let required: Vec<&'static str> = vec!["guild_id", "user_id"];
        assert(slices(required@) =~= required_of_membership());
        self.create.plan("guildmembers", required)
    }
}

/// Which memberships to remove.
#[derive(Debug, PartialEq)]
pub struct GuildMembersDelete {
    filter: Fragments,
}

impl View for GuildMembersDelete {
    type V = FragmentsView;

    closed spec fn view(&self) -> FragmentsView {
        self.filter@
    }
}

impl GuildMembersDelete {
    /// No condition yet.
    pub fn new() -> (r: Self)
        ensures
            r@ == FragmentsView::empty(),
    {
        GuildMembersDelete { filter: Fragments::new() }
    }

    /// Keeps the rows whose `id` is `value`.
    pub fn where_id(self, value: i32) -> (r: Self)
        ensures
            r@ == self@.compare("id"@, SqlValue::Int(value)),
    {
        GuildMembersDelete { filter: self.filter.compare("id", SqlValue::Int(value)) }
    }

    /// Adds the fragment `id IN (..)`, to which ` = $n` is appended, and its
    /// values; adds nothing where there are none.
    pub fn where_id_in(self, values: Vec<i32>) -> (r: Self)
        ensures
            r@ == self@.one_of(
                "id"@,
                values@.map_values(|v: i32| SqlValue::Int(v)),
            ),
    {
        GuildMembersDelete { filter: self.filter.one_of("id", int_values(values)) }
    }

    /// Keeps the rows whose `guild_id` is `value`.
    pub fn where_guild_id(self, value: String) -> (r: Self)
        ensures
            r@ == self@.compare("guild_id"@, SqlValue::Text(value)),
    {
        GuildMembersDelete { filter: self.filter.compare("guild_id", SqlValue::Text(value)) }
    }

    /// Adds the fragment `guild_id IN (..)`, to which ` = $n` is appended, and its
    /// values; adds nothing where there are none.
    pub fn where_guild_id_in(self, values: Vec<String>) -> (r: Self)
        ensures
            r@ == self@.one_of(
                "guild_id"@,
                values@.map_values(|v: String| SqlValue::Text(v)),
            ),
    {
        GuildMembersDelete { filter: self.filter.one_of("guild_id", text_values(values)) }
    }

    /// Keeps the rows whose `user_id` is `value`.
    pub fn where_user_id(self, value: String) -> (r: Self)
        ensures
            r@ == self@.compare("user_id"@, SqlValue::Text(value)),
    {
        GuildMembersDelete { filter: self.filter.compare("user_id", SqlValue::Text(value)) }
    }

    /// Adds the fragment `user_id IN (..)`, to which ` = $n` is appended, and its
    /// values; adds nothing where there are none.
    pub fn where_user_id_in(self, values: Vec<String>) -> (r: Self)
        ensures
            r@ == self@.one_of(
                "user_id"@,
                values@.map_values(|v: String| SqlValue::Text(v)),
            ),
    {
        GuildMembersDelete { filter: self.filter.one_of("user_id", text_values(values)) }
    }

    /// Keeps the rows whose `nickname` is `value`.
    pub fn where_nickname(self, value: Option<String>) -> (r: Self)
        ensures
            r@ == self@.compare("nickname"@, SqlValue::NullableText(value)),
    {
        GuildMembersDelete {
            filter: self.filter.compare("nickname", SqlValue::NullableText(value)),
        }
    }

    /// Adds the fragment `nickname IN (..)`, to which ` = $n` is appended, and its
    /// values; adds nothing where there are none.
    pub fn where_nickname_in(self, values: Vec<Option<String>>) -> (r: Self)
        ensures
            r@ == self@.one_of(
                "nickname"@,
                values@.map_values(|v: Option<String>| SqlValue::NullableText(v)),
            ),
    {
        GuildMembersDelete { filter: self.filter.one_of("nickname", nullable_text_values(values)) }
    }

    /// Adds the fragment for rows without `nickname`.
    pub fn where_nickname_is_null(self) -> (r: Self)
        ensures
            r@ == self@.condition("nickname IS NULL"@),
    {
        GuildMembersDelete { filter: self.filter.condition("nickname IS NULL") }
    }

    /// Adds the fragment for rows with `nickname`.
    pub fn where_nickname_is_not_null(self) -> (r: Self)
        ensures
            r@ == self@.condition("nickname IS NOT NULL"@),
    {
        GuildMembersDelete { filter: self.filter.condition("nickname IS NOT NULL") }
    }

    /// Keeps the rows whose `joined_at` is `value`.
    pub fn where_joined_at(self, value: Timestamp) -> (r: Self)
        ensures
            r@ == self@.compare("joined_at"@, SqlValue::Time(value)),
    {
        GuildMembersDelete { filter: self.filter.compare("joined_at", SqlValue::Time(value)) }
    }

    /// Adds the fragment `joined_at IN (..)`, to which ` = $n` is appended, and its
    /// values; adds nothing where there are none.
    pub fn where_joined_at_in(self, values: Vec<Timestamp>) -> (r: Self)
        ensures
            r@ == self@.one_of(
                "joined_at"@,
                values@.map_values(|v: Timestamp| SqlValue::Time(v)),
            ),
    {
        GuildMembersDelete { filter: self.filter.one_of("joined_at", time_values(values)) }
    }

    /// Adds the fragment `joined_at >` and its value.
    pub fn where_joined_at_gt(self, value: Timestamp) -> (r: Self)
        ensures
            r@ == self@.compare("joined_at >"@, SqlValue::Time(value)),
    {
        GuildMembersDelete { filter: self.filter.compare("joined_at >", SqlValue::Time(value)) }
    }

    /// Adds the fragment `joined_at <` and its value.
    pub fn where_joined_at_lt(self, value: Timestamp) -> (r: Self)
        ensures
            r@ == self@.compare("joined_at <"@, SqlValue::Time(value)),
    {
        GuildMembersDelete { filter: self.filter.compare("joined_at <", SqlValue::Time(value)) }
    }

    /// Adds the fragment `joined_at >=` and its value.
    pub fn where_joined_at_gte(self, value: Timestamp) -> (r: Self)
        ensures
            r@ == self@.compare("joined_at >="@, SqlValue::Time(value)),
    {
        GuildMembersDelete { filter: self.filter.compare("joined_at >=", SqlValue::Time(value)) }
    }

    /// Adds the fragment `joined_at <=` and its value.
    pub fn where_joined_at_lte(self, value: Timestamp) -> (r: Self)
        ensures
            r@ == self@.compare("joined_at <="@, SqlValue::Time(value)),
    {
        GuildMembersDelete { filter: self.filter.compare("joined_at <=", SqlValue::Time(value)) }
    }

    /// The statement that removes the rows; none without a condition.
    pub fn statement(self) -> (r: Result<Statement, BuildError>)
        ensures
            match r {
                Ok(s) => self@.fragments.len() > 0 && s.says(
                    self@.delete_sql("guildmembers"@),
                    self@.args,
                ),
                Err(e) => self@.fragments.len() == 0 && e == BuildError::DeleteWithoutWhere,
            },
    {
        self.filter.delete("guildmembers")
    }
}

/// The statements on the table of memberships.
#[derive(Clone, Copy, Debug, PartialEq, Eq, Structural)]
pub struct GuildMembersAccessor;

/// Whether a builder is what `f` makes of the builder for all memberships.
pub open spec fn built_by_membership_filter<
    F: FnOnce(GuildMembersWhereBuilder) -> GuildMembersWhereBuilder,
>(
    f: F,
    builder: GuildMembersWhereBuilder,
) -> bool {
    exists|start: GuildMembersWhereBuilder|
        start@ == FilterView::empty() && #[trigger] call_ensures(f, (start,), builder)
}

impl GuildMembersAccessor {
    /// The table.
    pub fn new() -> (r: Self)
        ensures
            r == (GuildMembersAccessor),
    {
        GuildMembersAccessor
    }

    /// Fetches the rows that a filter keeps.
    pub fn find_many<F: FnOnce(GuildMembersWhereBuilder) -> GuildMembersWhereBuilder>(
        &self,
        f: F,
    ) -> (r: Statement)
        requires
            forall|start: GuildMembersWhereBuilder|
                start@ == FilterView::empty() ==> call_requires(f, (start,)),
        ensures
            exists|b: GuildMembersWhereBuilder|
                #[trigger] built_by_membership_filter(f, b) && r.says(
                    b@.select_sql("guildmembers"@),
                    b@.args,
                ),
    {
        let builder: GuildMembersWhereBuilder = f(GuildMembersWhereBuilder::new());
        assert(built_by_membership_filter(f, builder));
        GuildMembersQuery::from_builder(builder).select()
    }

    /// Fetches the first row that a filter keeps.
    pub fn find_first<F: FnOnce(GuildMembersWhereBuilder) -> GuildMembersWhereBuilder>(
        &self,
        f: F,
    ) -> (r: Statement)
        requires
            forall|start: GuildMembersWhereBuilder|
                start@ == FilterView::empty() ==> call_requires(f, (start,)),
        ensures
            exists|b: GuildMembersWhereBuilder|
                #[trigger] built_by_membership_filter(f, b) && r.says(
                    b@.with_limit(1).select_sql("guildmembers"@),
                    b@.args,
                ),
    {
        let builder: GuildMembersWhereBuilder = f(GuildMembersWhereBuilder::new());
        assert(built_by_membership_filter(f, builder));
        GuildMembersQuery::from_builder(builder).first()
    }

    /// Sums a column up over the rows that a filter keeps.
    pub fn sum<F: FnOnce(GuildMembersWhereBuilder) -> GuildMembersWhereBuilder>(
        &self,
        f: F,
        field: &str,
        zero: SqlValue,
    ) -> (r: Statement)
        requires
            forall|start: GuildMembersWhereBuilder|
                start@ == FilterView::empty() ==> call_requires(f, (start,)),
        ensures
            exists|b: GuildMembersWhereBuilder|
                #[trigger] built_by_membership_filter(f, b) && r.says(
                    b@.sum_sql("guildmembers"@, field@),
                    b@.args.push(zero),
                ),
    {
        let builder: GuildMembersWhereBuilder = f(GuildMembersWhereBuilder::new());
        assert(built_by_membership_filter(f, builder));
        GuildMembersQuery::from_builder(builder).sum(field, zero)
    }

    /// Counts the rows that a filter keeps.
    pub fn count<F: FnOnce(GuildMembersWhereBuilder) -> GuildMembersWhereBuilder>(
        &self,
        f: F,
    ) -> (r: Statement)
        requires
            forall|start: GuildMembersWhereBuilder|
                start@ == FilterView::empty() ==> call_requires(f, (start,)),
        ensures
            exists|b: GuildMembersWhereBuilder|
                #[trigger] built_by_membership_filter(f, b) && r.says(
                    b@.count_sql("guildmembers"@),
                    b@.args,
                ),
    {
        let builder: GuildMembersWhereBuilder = f(GuildMembersWhereBuilder::new());
        assert(built_by_membership_filter(f, builder));
        GuildMembersQuery::from_builder(builder).count()
    }

    /// Computes the average of a column over the rows that a filter keeps.
    pub fn avg<F: FnOnce(GuildMembersWhereBuilder) -> GuildMembersWhereBuilder>(
        &self,
        f: F,
        field: &str,
    ) -> (r: Statement)
        requires
            forall|start: GuildMembersWhereBuilder|
                start@ == FilterView::empty() ==> call_requires(f, (start,)),
        ensures
            exists|b: GuildMembersWhereBuilder|
                #[trigger] built_by_membership_filter(f, b) && r.says(
                    b@.aggregate_sql("guildmembers"@, field@, "AVG"@),
                    b@.args,
                ),
    {
        let builder: GuildMembersWhereBuilder = f(GuildMembersWhereBuilder::new());
        assert(built_by_membership_filter(f, builder));
        GuildMembersQuery::from_builder(builder).avg(field)
    }

    /// Computes the least value of a column over the rows that a filter keeps.
    pub fn min<F: FnOnce(GuildMembersWhereBuilder) -> GuildMembersWhereBuilder>(
        &self,
        f: F,
        field: &str,
    ) -> (r: Statement)
        requires
            forall|start: GuildMembersWhereBuilder|
                start@ == FilterView::empty() ==> call_requires(f, (start,)),
        ensures
            exists|b: GuildMembersWhereBuilder|
                #[trigger] built_by_membership_filter(f, b) && r.says(
                    b@.aggregate_sql("guildmembers"@, field@, "MIN"@),
                    b@.args,
                ),
    {
        let builder: GuildMembersWhereBuilder = f(GuildMembersWhereBuilder::new());
        assert(built_by_membership_filter(f, builder));
        GuildMembersQuery::from_builder(builder).min(field)
    }

    /// Computes the greatest value of a column over the rows that a filter keeps.
    pub fn max<F: FnOnce(GuildMembersWhereBuilder) -> GuildMembersWhereBuilder>(
        &self,
        f: F,
        field: &str,
    ) -> (r: Statement)
        requires
            forall|start: GuildMembersWhereBuilder|
                start@ == FilterView::empty() ==> call_requires(f, (start,)),
        ensures
            exists|b: GuildMembersWhereBuilder|
                #[trigger] built_by_membership_filter(f, b) && r.says(
                    b@.aggregate_sql("guildmembers"@, field@, "MAX"@),
                    b@.args,
                ),
    {
        let builder: GuildMembersWhereBuilder = f(GuildMembersWhereBuilder::new());
        assert(built_by_membership_filter(f, builder));
        GuildMembersQuery::from_builder(builder).max(field)
    }

    /// Sums `id` up over the rows that a filter keeps.
    pub fn sum_id<F: FnOnce(GuildMembersWhereBuilder) -> GuildMembersWhereBuilder>(
        &self,
        f: F,
    ) -> (r: Statement)
        requires
            forall|start: GuildMembersWhereBuilder|
                start@ == FilterView::empty() ==> call_requires(f, (start,)),
        ensures
            exists|b: GuildMembersWhereBuilder|
                #[trigger] built_by_membership_filter(f, b) && r.says(
                    b@.sum_sql("guildmembers"@, "id"@),
                    b@.args.push(SqlValue::BigInt(0)),
                ),
    {
        let builder: GuildMembersWhereBuilder = f(GuildMembersWhereBuilder::new());
        assert(built_by_membership_filter(f, builder));
        GuildMembersQuery::from_builder(builder).sum("id", SqlValue::BigInt(0))
    }

    /// The change that `f` describes.
    pub fn update<F: FnOnce(GuildMembersUpdate) -> GuildMembersUpdate>(
        &self,
        f: F,
    ) -> (r: GuildMembersUpdate)
        requires
            forall|start: GuildMembersUpdate|
                start@ == UpdateView::empty() ==> call_requires(f, (start,)),
        ensures
            exists|start: GuildMembersUpdate|
                start@ == UpdateView::empty() && #[trigger] call_ensures(f, (start,), r),
    {
        f(GuildMembersUpdate::new())
    }

    /// The row to be added or changed that `f` describes.
    pub fn upsert<F: FnOnce(GuildMembersUpsert) -> GuildMembersUpsert>(
        &self,
        f: F,
    ) -> (r: GuildMembersUpsert)
        requires
            forall|start: GuildMembersUpsert|
                start@ == UpsertView::empty() ==> call_requires(f, (start,)),
        ensures
            exists|start: GuildMembersUpsert|
                start@ == UpsertView::empty() && #[trigger] call_ensures(f, (start,), r),
    {
        f(GuildMembersUpsert::new())
    }

    /// The row to be added that `f` describes.
    pub fn create<F: FnOnce(GuildMembersCreate) -> GuildMembersCreate>(
        &self,
        f: F,
    ) -> (r: GuildMembersCreate)
        requires
            forall|start: GuildMembersCreate|
                start@ == CreateView::empty() ==> call_requires(f, (start,)),
        ensures
            exists|start: GuildMembersCreate|
                start@ == CreateView::empty() && #[trigger] call_ensures(f, (start,), r),
    {
        f(GuildMembersCreate::new())
    }

    /// The rows to be removed that `f` describes.
    pub fn delete<F: FnOnce(GuildMembersDelete) -> GuildMembersDelete>(
        &self,
        f: F,
    ) -> (r: GuildMembersDelete)
        requires
            forall|start: GuildMembersDelete|
                start@ == FragmentsView::empty() ==> call_requires(f, (start,)),
        ensures
            exists|start: GuildMembersDelete|
                start@ == FragmentsView::empty() && #[trigger] call_ensures(f, (start,), r),
    {
        f(GuildMembersDelete::new())
    }

    /// Adds several rows at once, with the columns of the first; nothing where there are none.
    pub fn create_many(&self, records: Vec<StringMap<SqlValue>>) -> (r: Option<Statement>)
        ensures
            match r {
                Some(s) => records@.len() > 0 && s.says(
                    insert_many_sql("guildmembers"@, row_maps(records@)),
                    rows_values(sorted_keys(records@[0]@), row_maps(records@)),
                ),
                None => records@.len() == 0,
            },
    {
        insert_many("guildmembers", records)
    }

    /// Fetches the row with an id.
    pub fn find_unique(&self, id: i32) -> (r: Statement)
        ensures
            r.says(find_sql("guildmembers"@, "id"@), seq![SqlValue::Int(id)]),
    {
        GuildMembers::find_by_id(id)
    }

    /// Fetches the row with an id, or adds it with nothing but the id.
    pub fn find_or_create(&self, id: i32) -> (r: FindOrCreate)
        ensures
            r.insert.says(claim_sql("guildmembers"@, "id"@), seq![SqlValue::Int(id)]),
            r.select.says(find_sql("guildmembers"@, "id"@), seq![SqlValue::Int(id)]),
    {
        FindOrCreate::new("guildmembers", "id", SqlValue::Int(id))
    }
}

} // verus!
