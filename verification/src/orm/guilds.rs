//! The table of guilds: its rows, and the statements that read and change them.

use vstd::prelude::*;
use vstd::utf8::is_ascii_chars;
use crate::orm::change::{BuildError, Fragments, FragmentsView, Update, UpdateView};
use crate::orm::filter::{Filter, FilterView};
use crate::orm::insert::{
    claim_sql, find, find_sql, first_missing, insert_many, insert_many_sql, row_maps, rows_values,
    slices, Create, CreatePlan, CreateView, FindOrCreate, Upsert, UpsertView,
};
use crate::orm::value::{
    nullable_text_values, text_values, time_values, SqlValue, Statement, Timestamp,
};
use crate::string_map::{sorted_keys, sorted_values, StringMap};
use crate::text::search::{ascii_upper, upper_case};

verus! {

/// A guild, as the database keeps it.
#[derive(Debug, PartialEq)]
pub struct Guilds {
    pub id: String,
    pub name: String,
    pub brief: String,
    pub icon: Option<String>,
    pub created_at: Timestamp,
    pub owner_id: String,
}

impl Clone for Guilds {
    fn clone(&self) -> (r: Self)
        ensures
            r == *self,
    {
        Guilds {
            id: self.id.clone(),
            name: self.name.clone(),
            brief: self.brief.clone(),
            icon: self.icon.clone(),
            created_at: self.created_at,
            owner_id: self.owner_id.clone(),
        }
    }
}

impl Guilds {
    /// The statement that fetches the guild with an id.
    pub fn find_by_id(id: String) -> (r: Statement)
        ensures
            r.says(find_sql("guilds"@, "id"@), seq![SqlValue::Text(id)]),
    {
        find("guilds", "id", SqlValue::Text(id))
    }
}

/// Which guilds to fetch, in which order, and how many.
#[derive(Debug, PartialEq)]
pub struct GuildsWhereBuilder {
    filter: Filter,
}

impl View for GuildsWhereBuilder {
    type V = FilterView;

    closed spec fn view(&self) -> FilterView {
        self.filter@
    }
}

impl GuildsWhereBuilder {
    /// All guilds.
    pub fn new() -> (r: Self)
        ensures
            r@ == FilterView::empty(),
    {
        GuildsWhereBuilder { filter: Filter::new() }
    }

    /// Keeps those whose `id` is `value`.
    pub fn where_id(self, value: String) -> (r: Self)
        ensures
            r@ == self@.compare("id"@, "="@, SqlValue::Text(value)),
    {
        GuildsWhereBuilder { filter: self.filter.compare("id", "=", SqlValue::Text(value)) }
    }

    /// Keeps those whose `id` is one of `values`; keeps all where there are none.
    pub fn where_id_in(self, values: Vec<String>) -> (r: Self)
        ensures
            r@ == self@.one_of(
                "id"@,
                values@.map_values(|v: String| SqlValue::Text(v)),
            ),
    {
        GuildsWhereBuilder { filter: self.filter.one_of("id", text_values(values)) }
    }

    /// Keeps those whose `name` is `value`.
    pub fn where_name(self, value: String) -> (r: Self)
        ensures
            r@ == self@.compare("name"@, "="@, SqlValue::Text(value)),
    {
        GuildsWhereBuilder { filter: self.filter.compare("name", "=", SqlValue::Text(value)) }
    }

    /// Keeps those whose `name` is one of `values`; keeps all where there are none.
    pub fn where_name_in(self, values: Vec<String>) -> (r: Self)
        ensures
            r@ == self@.one_of(
                "name"@,
                values@.map_values(|v: String| SqlValue::Text(v)),
            ),
    {
        GuildsWhereBuilder { filter: self.filter.one_of("name", text_values(values)) }
    }

    /// Keeps those whose `brief` is `value`.
    pub fn where_brief(self, value: String) -> (r: Self)
        ensures
            r@ == self@.compare("brief"@, "="@, SqlValue::Text(value)),
    {
        GuildsWhereBuilder { filter: self.filter.compare("brief", "=", SqlValue::Text(value)) }
    }

    /// Keeps those whose `brief` is one of `values`; keeps all where there are none.
    pub fn where_brief_in(self, values: Vec<String>) -> (r: Self)
        ensures
            r@ == self@.one_of(
                "brief"@,
                values@.map_values(|v: String| SqlValue::Text(v)),
            ),
    {
        GuildsWhereBuilder { filter: self.filter.one_of("brief", text_values(values)) }
    }

    /// Keeps those whose `icon` is `value`.
    pub fn where_icon(self, value: Option<String>) -> (r: Self)
        ensures
            r@ == self@.compare("icon"@, "="@, SqlValue::NullableText(value)),
    {
        GuildsWhereBuilder {
            filter: self.filter.compare("icon", "=", SqlValue::NullableText(value)),
        }
    }

    /// Keeps those whose `icon` is one of `values`; keeps all where there are none.
    pub fn where_icon_in(self, values: Vec<Option<String>>) -> (r: Self)
        ensures
            r@ == self@.one_of(
                "icon"@,
                values@.map_values(|v: Option<String>| SqlValue::NullableText(v)),
            ),
    {
        GuildsWhereBuilder { filter: self.filter.one_of("icon", nullable_text_values(values)) }
    }

    /// Keeps those without `icon`.
    pub fn where_icon_is_null(self) -> (r: Self)
        ensures
            r@ == self@.condition("icon IS NULL"@),
    {
        GuildsWhereBuilder { filter: self.filter.condition("icon IS NULL") }
    }

    /// Keeps those with `icon`.
    pub fn where_icon_is_not_null(self) -> (r: Self)
        ensures
            r@ == self@.condition("icon IS NOT NULL"@),
    {
        GuildsWhereBuilder { filter: self.filter.condition("icon IS NOT NULL") }
    }

    /// Keeps those whose `created_at` is `value`.
    pub fn where_created_at(self, value: Timestamp) -> (r: Self)
        ensures
            r@ == self@.compare("created_at"@, "="@, SqlValue::Time(value)),
    {
        GuildsWhereBuilder { filter: self.filter.compare("created_at", "=", SqlValue::Time(value)) }
    }

    /// Keeps those whose `created_at` is one of `values`; keeps all where there are none.
    pub fn where_created_at_in(self, values: Vec<Timestamp>) -> (r: Self)
        ensures
            r@ == self@.one_of(
                "created_at"@,
                values@.map_values(|v: Timestamp| SqlValue::Time(v)),
            ),
    {
        GuildsWhereBuilder { filter: self.filter.one_of("created_at", time_values(values)) }
    }

    /// Keeps those whose `created_at` is after `value`.
    pub fn where_created_at_gt(self, value: Timestamp) -> (r: Self)
        ensures
            r@ == self@.compare("created_at"@, ">"@, SqlValue::Time(value)),
    {
        GuildsWhereBuilder { filter: self.filter.compare("created_at", ">", SqlValue::Time(value)) }
    }

    /// Keeps those whose `created_at` is before `value`.
    pub fn where_created_at_lt(self, value: Timestamp) -> (r: Self)
        ensures
            r@ == self@.compare("created_at"@, "<"@, SqlValue::Time(value)),
    {
        GuildsWhereBuilder { filter: self.filter.compare("created_at", "<", SqlValue::Time(value)) }
    }

    /// Keeps those whose `created_at` is at or after `value`.
    pub fn where_created_at_gte(self, value: Timestamp) -> (r: Self)
        ensures
            r@ == self@.compare("created_at"@, ">="@, SqlValue::Time(value)),
    {
        GuildsWhereBuilder {
            filter: self.filter.compare("created_at", ">=", SqlValue::Time(value)),
        }
    }

    /// Keeps those whose `created_at` is at or before `value`.
    pub fn where_created_at_lte(self, value: Timestamp) -> (r: Self)
        ensures
            r@ == self@.compare("created_at"@, "<="@, SqlValue::Time(value)),
    {
        GuildsWhereBuilder {
            filter: self.filter.compare("created_at", "<=", SqlValue::Time(value)),
        }
    }

    /// Keeps those whose `owner_id` is `value`.
    pub fn where_owner_id(self, value: String) -> (r: Self)
        ensures
            r@ == self@.compare("owner_id"@, "="@, SqlValue::Text(value)),
    {
        GuildsWhereBuilder { filter: self.filter.compare("owner_id", "=", SqlValue::Text(value)) }
    }

    /// Keeps those whose `owner_id` is one of `values`; keeps all where there are none.
    pub fn where_owner_id_in(self, values: Vec<String>) -> (r: Self)
        ensures
            r@ == self@.one_of(
                "owner_id"@,
                values@.map_values(|v: String| SqlValue::Text(v)),
            ),
    {
        GuildsWhereBuilder { filter: self.filter.one_of("owner_id", text_values(values)) }
    }

    /// Orders by `id`, upwards, after the orders given so far.
    pub fn order_by_id_asc(self) -> (r: Self)
        ensures
            r@ == self@.order("id"@, "ASC"@),
    {
        GuildsWhereBuilder { filter: self.filter.order("id", "ASC") }
    }

    /// Orders by `id`, downwards, after the orders given so far.
    pub fn order_by_id_desc(self) -> (r: Self)
        ensures
            r@ == self@.order("id"@, "DESC"@),
    {
        GuildsWhereBuilder { filter: self.filter.order("id", "DESC") }
    }

    /// Orders by `name`, upwards, after the orders given so far.
    pub fn order_by_name_asc(self) -> (r: Self)
        ensures
            r@ == self@.order("name"@, "ASC"@),
    {
        GuildsWhereBuilder { filter: self.filter.order("name", "ASC") }
    }

    /// Orders by `name`, downwards, after the orders given so far.
    pub fn order_by_name_desc(self) -> (r: Self)
        ensures
            r@ == self@.order("name"@, "DESC"@),
    {
        GuildsWhereBuilder { filter: self.filter.order("name", "DESC") }
    }

    /// Orders by `brief`, upwards, after the orders given so far.
    pub fn order_by_brief_asc(self) -> (r: Self)
        ensures
            r@ == self@.order("brief"@, "ASC"@),
    {
        GuildsWhereBuilder { filter: self.filter.order("brief", "ASC") }
    }

    /// Orders by `brief`, downwards, after the orders given so far.
    pub fn order_by_brief_desc(self) -> (r: Self)
        ensures
            r@ == self@.order("brief"@, "DESC"@),
    {
        GuildsWhereBuilder { filter: self.filter.order("brief", "DESC") }
    }

    /// Orders by `icon`, upwards, after the orders given so far.
    pub fn order_by_icon_asc(self) -> (r: Self)
        ensures
            r@ == self@.order("icon"@, "ASC"@),
    {
        GuildsWhereBuilder { filter: self.filter.order("icon", "ASC") }
    }

    /// Orders by `icon`, downwards, after the orders given so far.
    pub fn order_by_icon_desc(self) -> (r: Self)
        ensures
            r@ == self@.order("icon"@, "DESC"@),
    {
        GuildsWhereBuilder { filter: self.filter.order("icon", "DESC") }
    }

    /// Orders by `created_at`, upwards, after the orders given so far.
    pub fn order_by_created_at_asc(self) -> (r: Self)
        ensures
            r@ == self@.order("created_at"@, "ASC"@),
    {
        GuildsWhereBuilder { filter: self.filter.order("created_at", "ASC") }
    }

    /// Orders by `created_at`, downwards, after the orders given so far.
    pub fn order_by_created_at_desc(self) -> (r: Self)
        ensures
            r@ == self@.order("created_at"@, "DESC"@),
    {
        GuildsWhereBuilder { filter: self.filter.order("created_at", "DESC") }
    }

    /// Orders by `owner_id`, upwards, after the orders given so far.
    pub fn order_by_owner_id_asc(self) -> (r: Self)
        ensures
            r@ == self@.order("owner_id"@, "ASC"@),
    {
        GuildsWhereBuilder { filter: self.filter.order("owner_id", "ASC") }
    }

    /// Orders by `owner_id`, downwards, after the orders given so far.
    pub fn order_by_owner_id_desc(self) -> (r: Self)
        ensures
            r@ == self@.order("owner_id"@, "DESC"@),
    {
        GuildsWhereBuilder { filter: self.filter.order("owner_id", "DESC") }
    }

    /// Takes no more than `limit` rows.
    pub fn limit(self, limit: usize) -> (r: Self)
        ensures
            r@ == self@.with_limit(limit),
    {
        GuildsWhereBuilder { filter: self.filter.limit(limit) }
    }

    /// Leaves the first `offset` rows out.
    pub fn offset(self, offset: usize) -> (r: Self)
        ensures
            r@ == self@.with_offset(offset),
    {
        GuildsWhereBuilder { filter: self.filter.offset(offset) }
    }
}

/// A query on the guilds.
#[derive(Debug, PartialEq)]
pub struct GuildsQuery {
    filter: Filter,
}

impl View for GuildsQuery {
    type V = FilterView;

    closed spec fn view(&self) -> FilterView {
        self.filter@
    }
}

impl GuildsQuery {
    /// A query on all guilds.
    pub fn new() -> (r: Self)
        ensures
            r@ == FilterView::empty(),
    {
        GuildsQuery { filter: Filter::new() }
    }

    /// The query that a builder describes.
    pub fn from_builder(builder: GuildsWhereBuilder) -> (r: Self)
        ensures
            r@ == builder@,
    {
        GuildsQuery { filter: builder.filter }
    }

    /// Takes no more than `limit` rows.
    pub fn limit(self, limit: usize) -> (r: Self)
        ensures
            r@ == self@.with_limit(limit),
    {
        GuildsQuery { filter: self.filter.limit(limit) }
    }

    /// Leaves the first `offset` rows out.
    pub fn offset(self, offset: usize) -> (r: Self)
        ensures
            r@ == self@.with_offset(offset),
    {
        GuildsQuery { filter: self.filter.offset(offset) }
    }

    /// The statement that fetches the rows.
    pub fn select(self) -> (r: Statement)
        ensures
            r.says(self@.select_sql("guilds"@), self@.args),
    {
        self.filter.select("guilds")
    }

    /// The statement that fetches the first row.
    pub fn first(self) -> (r: Statement)
        ensures
            r.says(self@.with_limit(1).select_sql("guilds"@), self@.args),
    {
        self.limit(1).select()
    }

    /// The statement that counts the rows.
    pub fn count(self) -> (r: Statement)
        ensures
            r.says(self@.count_sql("guilds"@), self@.args),
    {
        self.filter.count("guilds")
    }

    /// The statement that applies an aggregate function to a column.
    pub fn aggregate(self, field: &str, func: &str) -> (r: Statement)
        ensures
            r.says(self@.aggregate_sql("guilds"@, field@, upper_case(func@)), self@.args),
            is_ascii_chars(func@) ==> upper_case(func@) == func@.map_values(
                |c: char| ascii_upper(c),
            ),
    {
        let name: String = func.to_uppercase();
        self.filter.aggregate("guilds", field, name.as_str())
    }

    /// The statement that sums a column up, with `zero` for no rows.
    pub fn sum(self, field: &str, zero: SqlValue) -> (r: Statement)
        ensures
            r.says(self@.sum_sql("guilds"@, field@), self@.args.push(zero)),
    {
        self.filter.sum("guilds", field, zero)
    }

    /// The statement that sums a column up as a 64-bit integer.
    pub fn sum_cast_i64(self, field: &str) -> (r: Statement)
        ensures
            r.says(
                self@.sum_cast_sql("guilds"@, field@),
                self@.args.push(SqlValue::BigInt(0)),
            ),
    {
        self.filter.sum_cast("guilds", field)
    }

    /// The statement that computes the average of a column.
    pub fn avg(self, field: &str) -> (r: Statement)
        ensures
            r.says(self@.aggregate_sql("guilds"@, field@, "AVG"@), self@.args),
    {
        proof {
            reveal_strlit("AVG");
            assert("AVG"@.map_values(|c: char| ascii_upper(c)) =~= "AVG"@);
        }
        self.aggregate(field, "AVG")
    }

    /// The statement that computes the least value of a column.
    pub fn min(self, field: &str) -> (r: Statement)
        ensures
            r.says(self@.aggregate_sql("guilds"@, field@, "MIN"@), self@.args),
    {
        proof {
            reveal_strlit("MIN");
            assert("MIN"@.map_values(|c: char| ascii_upper(c)) =~= "MIN"@);
        }
        self.aggregate(field, "MIN")
    }

    /// The statement that computes the greatest value of a column.
    pub fn max(self, field: &str) -> (r: Statement)
        ensures
            r.says(self@.aggregate_sql("guilds"@, field@, "MAX"@), self@.args),
    {
        proof {
            reveal_strlit("MAX");
            assert("MAX"@.map_values(|c: char| ascii_upper(c)) =~= "MAX"@);
        }
        self.aggregate(field, "MAX")
    }
}

/// A change of some guilds.
#[derive(Debug, PartialEq)]
pub struct GuildsUpdate {
    update: Update,
}

impl View for GuildsUpdate {
    type V = UpdateView;

    closed spec fn view(&self) -> UpdateView {
        self.update@
    }
}

impl GuildsUpdate {
    /// A change that sets nothing yet.
    pub fn new() -> (r: Self)
        ensures
            r@ == UpdateView::empty(),
    {
        GuildsUpdate { update: Update::new() }
    }

    /// Keeps the rows whose `id` is `value`.
    pub fn where_id(self, value: String) -> (r: Self)
        ensures
            r@ == self@.filtered(
                self@.filter.compare("id"@, SqlValue::Text(value)),
            ),
    {
        GuildsUpdate { update: self.update.compare("id", SqlValue::Text(value)) }
    }

    /// Adds the fragment `id IN (..)`, to which ` = $n` is appended, and its
    /// values; adds nothing where there are none.
    pub fn where_id_in(self, values: Vec<String>) -> (r: Self)
        ensures
            r@ == self@.filtered(
                self@.filter.one_of(
                    "id"@,
                    values@.map_values(|v: String| SqlValue::Text(v)),
                ),
            ),
    {
        GuildsUpdate { update: self.update.one_of("id", text_values(values)) }
    }

    /// Keeps the rows whose `name` is `value`.
    pub fn where_name(self, value: String) -> (r: Self)
        ensures
            r@ == self@.filtered(
                self@.filter.compare("name"@, SqlValue::Text(value)),
            ),
    {
        GuildsUpdate { update: self.update.compare("name", SqlValue::Text(value)) }
    }

    /// Adds the fragment `name IN (..)`, to which ` = $n` is appended, and its
    /// values; adds nothing where there are none.
    pub fn where_name_in(self, values: Vec<String>) -> (r: Self)
        ensures
            r@ == self@.filtered(
                self@.filter.one_of(
                    "name"@,
                    values@.map_values(|v: String| SqlValue::Text(v)),
                ),
            ),
    {
        GuildsUpdate { update: self.update.one_of("name", text_values(values)) }
    }

    /// Keeps the rows whose `brief` is `value`.
    pub fn where_brief(self, value: String) -> (r: Self)
        ensures
            r@ == self@.filtered(
                self@.filter.compare("brief"@, SqlValue::Text(value)),
            ),
    {
        GuildsUpdate { update: self.update.compare("brief", SqlValue::Text(value)) }
    }

    /// Adds the fragment `brief IN (..)`, to which ` = $n` is appended, and its
    /// values; adds nothing where there are none.
    pub fn where_brief_in(self, values: Vec<String>) -> (r: Self)
        ensures
            r@ == self@.filtered(
                self@.filter.one_of(
                    "brief"@,
                    values@.map_values(|v: String| SqlValue::Text(v)),
                ),
            ),
    {
        GuildsUpdate { update: self.update.one_of("brief", text_values(values)) }
    }

    /// Keeps the rows whose `icon` is `value`.
    pub fn where_icon(self, value: Option<String>) -> (r: Self)
        ensures
            r@ == self@.filtered(
                self@.filter.compare("icon"@, SqlValue::NullableText(value)),
            ),
    {
        GuildsUpdate { update: self.update.compare("icon", SqlValue::NullableText(value)) }
    }

    /// Adds the fragment `icon IN (..)`, to which ` = $n` is appended, and its
    /// values; adds nothing where there are none.
    pub fn where_icon_in(self, values: Vec<Option<String>>) -> (r: Self)
        ensures
            r@ == self@.filtered(
                self@.filter.one_of(
                    "icon"@,
                    values@.map_values(|v: Option<String>| SqlValue::NullableText(v)),
                ),
            ),
    {
        GuildsUpdate { update: self.update.one_of("icon", nullable_text_values(values)) }
    }

    /// Adds the fragment for rows without `icon`.
    pub fn where_icon_is_null(self) -> (r: Self)
        ensures
            r@ == self@.filtered(
                self@.filter.condition("icon IS NULL"@),
            ),
    {
        GuildsUpdate { update: self.update.condition("icon IS NULL") }
    }

    /// Adds the fragment for rows with `icon`.
    pub fn where_icon_is_not_null(self) -> (r: Self)
        ensures
            r@ == self@.filtered(
                self@.filter.condition("icon IS NOT NULL"@),
            ),
    {
        GuildsUpdate { update: self.update.condition("icon IS NOT NULL") }
    }

    /// Keeps the rows whose `created_at` is `value`.
    pub fn where_created_at(self, value: Timestamp) -> (r: Self)
        ensures
            r@ == self@.filtered(
                self@.filter.compare("created_at"@, SqlValue::Time(value)),
            ),
    {
        GuildsUpdate { update: self.update.compare("created_at", SqlValue::Time(value)) }
    }

    /// Adds the fragment `created_at IN (..)`, to which ` = $n` is appended, and its
    /// values; adds nothing where there are none.
    pub fn where_created_at_in(self, values: Vec<Timestamp>) -> (r: Self)
        ensures
            r@ == self@.filtered(
                self@.filter.one_of(
                    "created_at"@,
                    values@.map_values(|v: Timestamp| SqlValue::Time(v)),
                ),
            ),
    {
        GuildsUpdate { update: self.update.one_of("created_at", time_values(values)) }
    }

    /// Adds the fragment `created_at >` and its value.
    pub fn where_created_at_gt(self, value: Timestamp) -> (r: Self)
        ensures
            r@ == self@.filtered(
                self@.filter.compare("created_at >"@, SqlValue::Time(value)),
            ),
    {
        GuildsUpdate { update: self.update.compare("created_at >", SqlValue::Time(value)) }
    }

    /// Adds the fragment `created_at <` and its value.
    pub fn where_created_at_lt(self, value: Timestamp) -> (r: Self)
        ensures
            r@ == self@.filtered(
                self@.filter.compare("created_at <"@, SqlValue::Time(value)),
            ),
    {
        GuildsUpdate { update: self.update.compare("created_at <", SqlValue::Time(value)) }
    }

    /// Adds the fragment `created_at >=` and its value.
    pub fn where_created_at_gte(self, value: Timestamp) -> (r: Self)
        ensures
            r@ == self@.filtered(
                self@.filter.compare("created_at >="@, SqlValue::Time(value)),
            ),
    {
        GuildsUpdate { update: self.update.compare("created_at >=", SqlValue::Time(value)) }
    }

    /// Adds the fragment `created_at <=` and its value.
    pub fn where_created_at_lte(self, value: Timestamp) -> (r: Self)
        ensures
            r@ == self@.filtered(
                self@.filter.compare("created_at <="@, SqlValue::Time(value)),
            ),
    {
        GuildsUpdate { update: self.update.compare("created_at <=", SqlValue::Time(value)) }
    }

    /// Keeps the rows whose `owner_id` is `value`.
    pub fn where_owner_id(self, value: String) -> (r: Self)
        ensures
            r@ == self@.filtered(
                self@.filter.compare("owner_id"@, SqlValue::Text(value)),
            ),
    {
        GuildsUpdate { update: self.update.compare("owner_id", SqlValue::Text(value)) }
    }

    /// Adds the fragment `owner_id IN (..)`, to which ` = $n` is appended, and its
    /// values; adds nothing where there are none.
    pub fn where_owner_id_in(self, values: Vec<String>) -> (r: Self)
        ensures
            r@ == self@.filtered(
                self@.filter.one_of(
                    "owner_id"@,
                    values@.map_values(|v: String| SqlValue::Text(v)),
                ),
            ),
    {
        GuildsUpdate { update: self.update.one_of("owner_id", text_values(values)) }
    }

    /// Sets `id`.
    pub fn set_id(self, value: String) -> (r: Self)
        ensures
            r@ == self@.set("id"@, SqlValue::Text(value)),
    {
        GuildsUpdate { update: self.update.set("id", SqlValue::Text(value)) }
    }

    /// Sets `name`.
    pub fn set_name(self, value: String) -> (r: Self)
        ensures
            r@ == self@.set("name"@, SqlValue::Text(value)),
    {
        GuildsUpdate { update: self.update.set("name", SqlValue::Text(value)) }
    }

    /// Sets `brief`.
    pub fn set_brief(self, value: String) -> (r: Self)
        ensures
            r@ == self@.set("brief"@, SqlValue::Text(value)),
    {
        GuildsUpdate { update: self.update.set("brief", SqlValue::Text(value)) }
    }

    /// Sets `icon`.
    pub fn set_icon(self, value: Option<String>) -> (r: Self)
        ensures
            r@ == self@.set("icon"@, SqlValue::NullableText(value)),
    {
        GuildsUpdate { update: self.update.set("icon", SqlValue::NullableText(value)) }
    }

    /// Sets `created_at`.
    pub fn set_created_at(self, value: Timestamp) -> (r: Self)
        ensures
            r@ == self@.set("created_at"@, SqlValue::Time(value)),
    {
        GuildsUpdate { update: self.update.set("created_at", SqlValue::Time(value)) }
    }

    /// Sets `owner_id`.
    pub fn set_owner_id(self, value: String) -> (r: Self)
        ensures
            r@ == self@.set("owner_id"@, SqlValue::Text(value)),
    {
        GuildsUpdate { update: self.update.set("owner_id", SqlValue::Text(value)) }
    }

    /// The statement that makes the change and gives the row back; none where nothing is set.
    pub fn statement(self) -> (r: Result<Statement, BuildError>)
        ensures
            match r {
                Ok(s) => self@.set_columns.len() + self@.steps.len() > 0 && s.says(
                    self@.sql("guilds"@),
                    self@.params(),
                ),
                Err(e) => self@.set_columns.len() + self@.steps.len() == 0 && e
                    == BuildError::NoFieldsToUpdate,
            },
    {
        self.update.statement("guilds")
    }
}

/// A guild to be added, or to be changed where its id is there.
#[derive(Debug, PartialEq)]
pub struct GuildsUpsert {
    upsert: Upsert,
}

impl View for GuildsUpsert {
    type V = UpsertView;

    closed spec fn view(&self) -> UpsertView {
        self.upsert@
    }
}

impl GuildsUpsert {
    /// A row without values.
    pub fn new() -> (r: Self)
        ensures
            r@ == UpsertView::empty(),
    {
        GuildsUpsert { upsert: Upsert::new() }
    }

    /// Sets the id to look for.
    pub fn where_id(self, value: String) -> (r: Self)
        ensures
            r@ == self@.key("id"@, SqlValue::Text(value)),
    {
        GuildsUpsert { upsert: self.upsert.key("id", SqlValue::Text(value)) }
    }

    /// Sets `id`.
    pub fn set_id(self, value: String) -> (r: Self)
        ensures
            r@ == self@.set("id"@, SqlValue::Text(value)),
    {
        GuildsUpsert { upsert: self.upsert.set("id", SqlValue::Text(value)) }
    }

    /// Sets `name`.
    pub fn set_name(self, value: String) -> (r: Self)
        ensures
            r@ == self@.set("name"@, SqlValue::Text(value)),
    {
        GuildsUpsert { upsert: self.upsert.set("name", SqlValue::Text(value)) }
    }

    /// Sets `brief`.
    pub fn set_brief(self, value: String) -> (r: Self)
        ensures
            r@ == self@.set("brief"@, SqlValue::Text(value)),
    {
        GuildsUpsert { upsert: self.upsert.set("brief", SqlValue::Text(value)) }
    }

    /// Sets `icon`.
    pub fn set_icon(self, value: Option<String>) -> (r: Self)
        ensures
            r@ == self@.set("icon"@, SqlValue::NullableText(value)),
    {
        GuildsUpsert { upsert: self.upsert.set("icon", SqlValue::NullableText(value)) }
    }

    /// Sets `created_at`.
    pub fn set_created_at(self, value: Timestamp) -> (r: Self)
        ensures
            r@ == self@.set("created_at"@, SqlValue::Time(value)),
    {
        GuildsUpsert { upsert: self.upsert.set("created_at", SqlValue::Time(value)) }
    }

    /// Sets `owner_id`.
    pub fn set_owner_id(self, value: String) -> (r: Self)
        ensures
            r@ == self@.set("owner_id"@, SqlValue::Text(value)),
    {
        GuildsUpsert { upsert: self.upsert.set("owner_id", SqlValue::Text(value)) }
    }

    /// The statement that adds or changes the row and gives it back. It needs an id.
    pub fn statement(self) -> (r: Result<Statement, BuildError>)
        ensures
            match r {
                Ok(s) => self@.row().contains_key("id"@) && s.says(
                    self@.sql("guilds"@, "id"@),
                    sorted_values(self@.row()),
                ),
                Err(e) => e matches BuildError::MissingPrimaryKey(f) && f@ == "id"@
                    && !self@.row().contains_key("id"@),
            },
    {
        self.upsert.statement("guilds", "id")
    }
}

/// The columns that a new guild needs.
pub open spec fn required_of_guild() -> Seq<Seq<char>> {
    seq!["id"@, "owner_id"@]
}

/// A guild to be added, unless one that meets some conditions is there.
#[derive(Debug, PartialEq)]
pub struct GuildsCreate {
    create: Create,
}

impl View for GuildsCreate {
    type V = CreateView;

    closed spec fn view(&self) -> CreateView {
        self.create@
    }
}

impl GuildsCreate {
    /// A row without values.
    pub fn new() -> (r: Self)
        ensures
            r@ == CreateView::empty(),
    {
        GuildsCreate { create: Create::new() }
    }

    /// Keeps the rows whose `id` is `value`.
    pub fn where_id(self, value: String) -> (r: Self)
        ensures
            r@ == self@.filtered(
                self@.filter.compare("id"@, SqlValue::Text(value)),
            ),
    {
        GuildsCreate { create: self.create.compare("id", SqlValue::Text(value)) }
    }

    /// Adds the fragment `id IN (..)`, to which ` = $n` is appended, and its
    /// values; adds nothing where there are none.
    pub fn where_id_in(self, values: Vec<String>) -> (r: Self)
        ensures
            r@ == self@.filtered(
                self@.filter.one_of(
                    "id"@,
                    values@.map_values(|v: String| SqlValue::Text(v)),
                ),
            ),
    {
        GuildsCreate { create: self.create.one_of("id", text_values(values)) }
    }

    /// Keeps the rows whose `name` is `value`.
    pub fn where_name(self, value: String) -> (r: Self)
        ensures
            r@ == self@.filtered(
                self@.filter.compare("name"@, SqlValue::Text(value)),
            ),
    {
        GuildsCreate { create: self.create.compare("name", SqlValue::Text(value)) }
    }

    /// Adds the fragment `name IN (..)`, to which ` = $n` is appended, and its
    /// values; adds nothing where there are none.
    pub fn where_name_in(self, values: Vec<String>) -> (r: Self)
        ensures
            r@ == self@.filtered(
                self@.filter.one_of(
                    "name"@,
                    values@.map_values(|v: String| SqlValue::Text(v)),
                ),
            ),
    {
        GuildsCreate { create: self.create.one_of("name", text_values(values)) }
    }

    /// Keeps the rows whose `brief` is `value`.
    pub fn where_brief(self, value: String) -> (r: Self)
        ensures
            r@ == self@.filtered(
                self@.filter.compare("brief"@, SqlValue::Text(value)),
            ),
    {
        GuildsCreate { create: self.create.compare("brief", SqlValue::Text(value)) }
    }

    /// Adds the fragment `brief IN (..)`, to which ` = $n` is appended, and its
    /// values; adds nothing where there are none.
    pub fn where_brief_in(self, values: Vec<String>) -> (r: Self)
        ensures
            r@ == self@.filtered(
                self@.filter.one_of(
                    "brief"@,
                    values@.map_values(|v: String| SqlValue::Text(v)),
                ),
            ),
    {
        GuildsCreate { create: self.create.one_of("brief", text_values(values)) }
    }

    /// Keeps the rows whose `icon` is `value`.
    pub fn where_icon(self, value: Option<String>) -> (r: Self)
        ensures
            r@ == self@.filtered(
                self@.filter.compare("icon"@, SqlValue::NullableText(value)),
            ),
    {
        GuildsCreate { create: self.create.compare("icon", SqlValue::NullableText(value)) }
    }

    /// Adds the fragment `icon IN (..)`, to which ` = $n` is appended, and its
    /// values; adds nothing where there are none.
    pub fn where_icon_in(self, values: Vec<Option<String>>) -> (r: Self)
        ensures
            r@ == self@.filtered(
                self@.filter.one_of(
                    "icon"@,
                    values@.map_values(|v: Option<String>| SqlValue::NullableText(v)),
                ),
            ),
    {
        GuildsCreate { create: self.create.one_of("icon", nullable_text_values(values)) }
    }

    /// Adds the fragment for rows without `icon`.
    pub fn where_icon_is_null(self) -> (r: Self)
        ensures
            r@ == self@.filtered(
                self@.filter.condition("icon IS NULL"@),
            ),
    {
        GuildsCreate { create: self.create.condition("icon IS NULL") }
    }

    /// Adds the fragment for rows with `icon`.
    pub fn where_icon_is_not_null(self) -> (r: Self)
        ensures
            r@ == self@.filtered(
                self@.filter.condition("icon IS NOT NULL"@),
            ),
    {
        GuildsCreate { create: self.create.condition("icon IS NOT NULL") }
    }

    /// Keeps the rows whose `created_at` is `value`.
    pub fn where_created_at(self, value: Timestamp) -> (r: Self)
        ensures
            r@ == self@.filtered(
                self@.filter.compare("created_at"@, SqlValue::Time(value)),
            ),
    {
        GuildsCreate { create: self.create.compare("created_at", SqlValue::Time(value)) }
    }

    /// Adds the fragment `created_at IN (..)`, to which ` = $n` is appended, and its
    /// values; adds nothing where there are none.
    pub fn where_created_at_in(self, values: Vec<Timestamp>) -> (r: Self)
        ensures
            r@ == self@.filtered(
                self@.filter.one_of(
                    "created_at"@,
                    values@.map_values(|v: Timestamp| SqlValue::Time(v)),
                ),
            ),
    {
        GuildsCreate { create: self.create.one_of("created_at", time_values(values)) }
    }

    /// Adds the fragment `created_at >` and its value.
    pub fn where_created_at_gt(self, value: Timestamp) -> (r: Self)
        ensures
            r@ == self@.filtered(
                self@.filter.compare("created_at >"@, SqlValue::Time(value)),
            ),
    {
        GuildsCreate { create: self.create.compare("created_at >", SqlValue::Time(value)) }
    }

    /// Adds the fragment `created_at <` and its value.
    pub fn where_created_at_lt(self, value: Timestamp) -> (r: Self)
        ensures
            r@ == self@.filtered(
                self@.filter.compare("created_at <"@, SqlValue::Time(value)),
            ),
    {
        GuildsCreate { create: self.create.compare("created_at <", SqlValue::Time(value)) }
    }

    /// Adds the fragment `created_at >=` and its value.
    pub fn where_created_at_gte(self, value: Timestamp) -> (r: Self)
        ensures
            r@ == self@.filtered(
                self@.filter.compare("created_at >="@, SqlValue::Time(value)),
            ),
    {
        GuildsCreate { create: self.create.compare("created_at >=", SqlValue::Time(value)) }
    }

    /// Adds the fragment `created_at <=` and its value.
    pub fn where_created_at_lte(self, value: Timestamp) -> (r: Self)
        ensures
            r@ == self@.filtered(
                self@.filter.compare("created_at <="@, SqlValue::Time(value)),
            ),
    {
        GuildsCreate { create: self.create.compare("created_at <=", SqlValue::Time(value)) }
    }

    /// Keeps the rows whose `owner_id` is `value`.
    pub fn where_owner_id(self, value: String) -> (r: Self)
        ensures
            r@ == self@.filtered(
                self@.filter.compare("owner_id"@, SqlValue::Text(value)),
            ),
    {
        GuildsCreate { create: self.create.compare("owner_id", SqlValue::Text(value)) }
    }

    /// Adds the fragment `owner_id IN (..)`, to which ` = $n` is appended, and its
    /// values; adds nothing where there are none.
    pub fn where_owner_id_in(self, values: Vec<String>) -> (r: Self)
        ensures
            r@ == self@.filtered(
                self@.filter.one_of(
                    "owner_id"@,
                    values@.map_values(|v: String| SqlValue::Text(v)),
                ),
            ),
    {
        GuildsCreate { create: self.create.one_of("owner_id", text_values(values)) }
    }

    /// Sets `id`.
    pub fn set_id(self, value: String) -> (r: Self)
        ensures
            r@ == self@.set("id"@, SqlValue::Text(value)),
    {
        GuildsCreate { create: self.create.set("id", SqlValue::Text(value)) }
    }

    /// Sets `name`.
    pub fn set_name(self, value: String) -> (r: Self)
        ensures
            r@ == self@.set("name"@, SqlValue::Text(value)),
    {
        GuildsCreate { create: self.create.set("name", SqlValue::Text(value)) }
    }

    /// Sets `brief`.
    pub fn set_brief(self, value: String) -> (r: Self)
        ensures
            r@ == self@.set("brief"@, SqlValue::Text(value)),
    {
        GuildsCreate { create: self.create.set("brief", SqlValue::Text(value)) }
    }

    /// Sets `icon`.
    pub fn set_icon(self, value: Option<String>) -> (r: Self)
        ensures
            r@ == self@.set("icon"@, SqlValue::NullableText(value)),
    {
        GuildsCreate { create: self.create.set("icon", SqlValue::NullableText(value)) }
    }

    /// Sets `created_at`.
    pub fn set_created_at(self, value: Timestamp) -> (r: Self)
        ensures
            r@ == self@.set("created_at"@, SqlValue::Time(value)),
    {
        GuildsCreate { create: self.create.set("created_at", SqlValue::Time(value)) }
    }

    /// Sets `owner_id`.
    pub fn set_owner_id(self, value: String) -> (r: Self)
        ensures
            r@ == self@.set("owner_id"@, SqlValue::Text(value)),
    {
        GuildsCreate { create: self.create.set("owner_id", SqlValue::Text(value)) }
    }

    /// The statements that create the row; none where a column that it needs has no value.
    pub fn plan(self) -> (r: Result<CreatePlan, BuildError>)
        ensures
            match r {
                Ok(p) => first_missing(required_of_guild(), self@.values) is None
                    && self@.planned("guilds"@, p),
                Err(e) => e matches BuildError::MissingField(f) && first_missing(
                    required_of_guild(),
                    self@.values,
                ) == Some(f@),
            },
    {
        let required: Vec<&'static str> = vec!["id", "owner_id"];
        assert(slices(required@) =~= required_of_guild());
        self.create.plan("guilds", required)
    }
}

/// Which guilds to remove.
#[derive(Debug, PartialEq)]
pub struct GuildsDelete {
    filter: Fragments,
}

impl View for GuildsDelete {
    type V = FragmentsView;

    closed spec fn view(&self) -> FragmentsView {
        self.filter@
    }
}

impl GuildsDelete {
    /// No condition yet.
    pub fn new() -> (r: Self)
        ensures
            r@ == FragmentsView::empty(),
    {
        GuildsDelete { filter: Fragments::new() }
    }

    /// Keeps the rows whose `id` is `value`.
    pub fn where_id(self, value: String) -> (r: Self)
        ensures
            r@ == self@.compare("id"@, SqlValue::Text(value)),
    {
        GuildsDelete { filter: self.filter.compare("id", SqlValue::Text(value)) }
    }

    /// Adds the fragment `id IN (..)`, to which ` = $n` is appended, and its
    /// values; adds nothing where there are none.
    pub fn where_id_in(self, values: Vec<String>) -> (r: Self)
        ensures
            r@ == self@.one_of(
                "id"@,
                values@.map_values(|v: String| SqlValue::Text(v)),
            ),
    {
        GuildsDelete { filter: self.filter.one_of("id", text_values(values)) }
    }

    /// Keeps the rows whose `name` is `value`.
    pub fn where_name(self, value: String) -> (r: Self)
        ensures
            r@ == self@.compare("name"@, SqlValue::Text(value)),
    {
        GuildsDelete { filter: self.filter.compare("name", SqlValue::Text(value)) }
    }

    /// Adds the fragment `name IN (..)`, to which ` = $n` is appended, and its
    /// values; adds nothing where there are none.
    pub fn where_name_in(self, values: Vec<String>) -> (r: Self)
        ensures
            r@ == self@.one_of(
                "name"@,
                values@.map_values(|v: String| SqlValue::Text(v)),
            ),
    {
        GuildsDelete { filter: self.filter.one_of("name", text_values(values)) }
    }

    /// Keeps the rows whose `brief` is `value`.
    pub fn where_brief(self, value: String) -> (r: Self)
        ensures
            r@ == self@.compare("brief"@, SqlValue::Text(value)),
    {
        GuildsDelete { filter: self.filter.compare("brief", SqlValue::Text(value)) }
    }

    /// Adds the fragment `brief IN (..)`, to which ` = $n` is appended, and its
    /// values; adds nothing where there are none.
    pub fn where_brief_in(self, values: Vec<String>) -> (r: Self)
        ensures
            r@ == self@.one_of(
                "brief"@,
                values@.map_values(|v: String| SqlValue::Text(v)),
            ),
    {
        GuildsDelete { filter: self.filter.one_of("brief", text_values(values)) }
    }

    /// Keeps the rows whose `icon` is `value`.
    pub fn where_icon(self, value: Option<String>) -> (r: Self)
        ensures
            r@ == self@.compare("icon"@, SqlValue::NullableText(value)),
    {
        GuildsDelete { filter: self.filter.compare("icon", SqlValue::NullableText(value)) }
    }

    /// Adds the fragment `icon IN (..)`, to which ` = $n` is appended, and its
    /// values; adds nothing where there are none.
    pub fn where_icon_in(self, values: Vec<Option<String>>) -> (r: Self)
        ensures
            r@ == self@.one_of(
                "icon"@,
                values@.map_values(|v: Option<String>| SqlValue::NullableText(v)),
            ),
    {
        GuildsDelete { filter: self.filter.one_of("icon", nullable_text_values(values)) }
    }

    /// Adds the fragment for rows without `icon`.
    pub fn where_icon_is_null(self) -> (r: Self)
        ensures
            r@ == self@.condition("icon IS NULL"@),
    {
        GuildsDelete { filter: self.filter.condition("icon IS NULL") }
    }

    /// Adds the fragment for rows with `icon`.
    pub fn where_icon_is_not_null(self) -> (r: Self)
        ensures
            r@ == self@.condition("icon IS NOT NULL"@),
    {
        GuildsDelete { filter: self.filter.condition("icon IS NOT NULL") }
    }

    /// Keeps the rows whose `created_at` is `value`.
    pub fn where_created_at(self, value: Timestamp) -> (r: Self)
        ensures
            r@ == self@.compare("created_at"@, SqlValue::Time(value)),
    {
        GuildsDelete { filter: self.filter.compare("created_at", SqlValue::Time(value)) }
    }

    /// Adds the fragment `created_at IN (..)`, to which ` = $n` is appended, and its
    /// values; adds nothing where there are none.
    pub fn where_created_at_in(self, values: Vec<Timestamp>) -> (r: Self)
        ensures
            r@ == self@.one_of(
                "created_at"@,
                values@.map_values(|v: Timestamp| SqlValue::Time(v)),
            ),
    {
        GuildsDelete { filter: self.filter.one_of("created_at", time_values(values)) }
    }

    /// Adds the fragment `created_at >` and its value.
    pub fn where_created_at_gt(self, value: Timestamp) -> (r: Self)
        ensures
            r@ == self@.compare("created_at >"@, SqlValue::Time(value)),
    {
        GuildsDelete { filter: self.filter.compare("created_at >", SqlValue::Time(value)) }
    }

    /// Adds the fragment `created_at <` and its value.
    pub fn where_created_at_lt(self, value: Timestamp) -> (r: Self)
        ensures
            r@ == self@.compare("created_at <"@, SqlValue::Time(value)),
    {
        GuildsDelete { filter: self.filter.compare("created_at <", SqlValue::Time(value)) }
    }

    /// Adds the fragment `created_at >=` and its value.
    pub fn where_created_at_gte(self, value: Timestamp) -> (r: Self)
        ensures
            r@ == self@.compare("created_at >="@, SqlValue::Time(value)),
    {
        GuildsDelete { filter: self.filter.compare("created_at >=", SqlValue::Time(value)) }
    }

    /// Adds the fragment `created_at <=` and its value.
    pub fn where_created_at_lte(self, value: Timestamp) -> (r: Self)
        ensures
            r@ == self@.compare("created_at <="@, SqlValue::Time(value)),
    {
        GuildsDelete { filter: self.filter.compare("created_at <=", SqlValue::Time(value)) }
    }

    /// Keeps the rows whose `owner_id` is `value`.
    pub fn where_owner_id(self, value: String) -> (r: Self)
        ensures
            r@ == self@.compare("owner_id"@, SqlValue::Text(value)),
    {
        GuildsDelete { filter: self.filter.compare("owner_id", SqlValue::Text(value)) }
    }

    /// Adds the fragment `owner_id IN (..)`, to which ` = $n` is appended, and its
    /// values; adds nothing where there are none.
    pub fn where_owner_id_in(self, values: Vec<String>) -> (r: Self)
        ensures
            r@ == self@.one_of(
                "owner_id"@,
                values@.map_values(|v: String| SqlValue::Text(v)),
            ),
    {
        GuildsDelete { filter: self.filter.one_of("owner_id", text_values(values)) }
    }

    /// The statement that removes the rows; none without a condition.
    pub fn statement(self) -> (r: Result<Statement, BuildError>)
        ensures
            match r {
                Ok(s) => self@.fragments.len() > 0 && s.says(
                    self@.delete_sql("guilds"@),
                    self@.args,
                ),
                Err(e) => self@.fragments.len() == 0 && e == BuildError::DeleteWithoutWhere,
            },
    {
        self.filter.delete("guilds")
    }
}

/// The statements on the table of guilds.
#[derive(Clone, Copy, Debug, PartialEq, Eq, Structural)]
pub struct GuildsAccessor;

/// Whether a builder is what `f` makes of the builder for all guilds.
pub open spec fn built_by_guild_filter<F: FnOnce(GuildsWhereBuilder) -> GuildsWhereBuilder>(
    f: F,
    builder: GuildsWhereBuilder,
) -> bool {
    exists|start: GuildsWhereBuilder|
        start@ == FilterView::empty() && #[trigger] call_ensures(f, (start,), builder)
}

impl GuildsAccessor {
    /// The table.
    pub fn new() -> (r: Self)
        ensures
            r == (GuildsAccessor),
    {
        GuildsAccessor
    }

    /// Fetches the rows that a filter keeps.
    pub fn find_many<F: FnOnce(GuildsWhereBuilder) -> GuildsWhereBuilder>(
        &self,
        f: F,
    ) -> (r: Statement)
        requires
            forall|start: GuildsWhereBuilder|
                start@ == FilterView::empty() ==> call_requires(f, (start,)),
        ensures
            exists|b: GuildsWhereBuilder|
                #[trigger] built_by_guild_filter(f, b) && r.says(
                    b@.select_sql("guilds"@),
                    b@.args,
                ),
    {
        let builder: GuildsWhereBuilder = f(GuildsWhereBuilder::new());
        assert(built_by_guild_filter(f, builder));
        GuildsQuery::from_builder(builder).select()
    }

    /// Fetches the first row that a filter keeps.
    pub fn find_first<F: FnOnce(GuildsWhereBuilder) -> GuildsWhereBuilder>(
        &self,
        f: F,
    ) -> (r: Statement)
        requires
            forall|start: GuildsWhereBuilder|
                start@ == FilterView::empty() ==> call_requires(f, (start,)),
        ensures
            exists|b: GuildsWhereBuilder|
                #[trigger] built_by_guild_filter(f, b) && r.says(
                    b@.with_limit(1).select_sql("guilds"@),
                    b@.args,
                ),
    {
        let builder: GuildsWhereBuilder = f(GuildsWhereBuilder::new());
        assert(built_by_guild_filter(f, builder));
        GuildsQuery::from_builder(builder).first()
    }

    /// Sums a column up over the rows that a filter keeps.
    pub fn sum<F: FnOnce(GuildsWhereBuilder) -> GuildsWhereBuilder>(
        &self,
        f: F,
        field: &str,
        zero: SqlValue,
    ) -> (r: Statement)
        requires
            forall|start: GuildsWhereBuilder|
                start@ == FilterView::empty() ==> call_requires(f, (start,)),
        ensures
            exists|b: GuildsWhereBuilder|
                #[trigger] built_by_guild_filter(f, b) && r.says(
                    b@.sum_sql("guilds"@, field@),
                    b@.args.push(zero),
                ),
    {
        let builder: GuildsWhereBuilder = f(GuildsWhereBuilder::new());
        assert(built_by_guild_filter(f, builder));
        GuildsQuery::from_builder(builder).sum(field, zero)
    }

    /// Counts the rows that a filter keeps.
    pub fn count<F: FnOnce(GuildsWhereBuilder) -> GuildsWhereBuilder>(&self, f: F) -> (r: Statement)
        requires
            forall|start: GuildsWhereBuilder|
                start@ == FilterView::empty() ==> call_requires(f, (start,)),
        ensures
            exists|b: GuildsWhereBuilder|
                #[trigger] built_by_guild_filter(f, b) && r.says(
                    b@.count_sql("guilds"@),
                    b@.args,
                ),
    {
        let builder: GuildsWhereBuilder = f(GuildsWhereBuilder::new());
        assert(built_by_guild_filter(f, builder));
        GuildsQuery::from_builder(builder).count()
    }

    /// Computes the average of a column over the rows that a filter keeps.
    pub fn avg<F: FnOnce(GuildsWhereBuilder) -> GuildsWhereBuilder>(
        &self,
        f: F,
        field: &str,
    ) -> (r: Statement)
        requires
            forall|start: GuildsWhereBuilder|
                start@ == FilterView::empty() ==> call_requires(f, (start,)),
        ensures
            exists|b: GuildsWhereBuilder|
                #[trigger] built_by_guild_filter(f, b) && r.says(
                    b@.aggregate_sql("guilds"@, field@, "AVG"@),
                    b@.args,
                ),
    {
        let builder: GuildsWhereBuilder = f(GuildsWhereBuilder::new());
        assert(built_by_guild_filter(f, builder));
        GuildsQuery::from_builder(builder).avg(field)
    }

    /// Computes the least value of a column over the rows that a filter keeps.
    pub fn min<F: FnOnce(GuildsWhereBuilder) -> GuildsWhereBuilder>(
        &self,
        f: F,
        field: &str,
    ) -> (r: Statement)
        requires
            forall|start: GuildsWhereBuilder|
                start@ == FilterView::empty() ==> call_requires(f, (start,)),
        ensures
            exists|b: GuildsWhereBuilder|
                #[trigger] built_by_guild_filter(f, b) && r.says(
                    b@.aggregate_sql("guilds"@, field@, "MIN"@),
                    b@.args,
                ),
    {
        let builder: GuildsWhereBuilder = f(GuildsWhereBuilder::new());
        assert(built_by_guild_filter(f, builder));
        GuildsQuery::from_builder(builder).min(field)
    }

    /// Computes the greatest value of a column over the rows that a filter keeps.
    pub fn max<F: FnOnce(GuildsWhereBuilder) -> GuildsWhereBuilder>(
        &self,
        f: F,
        field: &str,
    ) -> (r: Statement)
        requires
            forall|start: GuildsWhereBuilder|
                start@ == FilterView::empty() ==> call_requires(f, (start,)),
        ensures
            exists|b: GuildsWhereBuilder|
                #[trigger] built_by_guild_filter(f, b) && r.says(
                    b@.aggregate_sql("guilds"@, field@, "MAX"@),
                    b@.args,
                ),
    {
        let builder: GuildsWhereBuilder = f(GuildsWhereBuilder::new());
        assert(built_by_guild_filter(f, builder));
        GuildsQuery::from_builder(builder).max(field)
    }

    /// The change that `f` describes.
    pub fn update<F: FnOnce(GuildsUpdate) -> GuildsUpdate>(&self, f: F) -> (r: GuildsUpdate)
        requires
            forall|start: GuildsUpdate|
                start@ == UpdateView::empty() ==> call_requires(f, (start,)),
        ensures
            exists|start: GuildsUpdate|
                start@ == UpdateView::empty() && #[trigger] call_ensures(f, (start,), r),
    {
        f(GuildsUpdate::new())
    }

    /// The row to be added or changed that `f` describes.
    pub fn upsert<F: FnOnce(GuildsUpsert) -> GuildsUpsert>(&self, f: F) -> (r: GuildsUpsert)
        requires
            forall|start: GuildsUpsert|
                start@ == UpsertView::empty() ==> call_requires(f, (start,)),
        ensures
            exists|start: GuildsUpsert|
                start@ == UpsertView::empty() && #[trigger] call_ensures(f, (start,), r),
    {
        f(GuildsUpsert::new())
    }

    /// The row to be added that `f` describes.
    pub fn create<F: FnOnce(GuildsCreate) -> GuildsCreate>(&self, f: F) -> (r: GuildsCreate)
        requires
            forall|start: GuildsCreate|
                start@ == CreateView::empty() ==> call_requires(f, (start,)),
        ensures
            exists|start: GuildsCreate|
                start@ == CreateView::empty() && #[trigger] call_ensures(f, (start,), r),
    {
        f(GuildsCreate::new())
    }

    /// The rows to be removed that `f` describes.
    pub fn delete<F: FnOnce(GuildsDelete) -> GuildsDelete>(&self, f: F) -> (r: GuildsDelete)
        requires
            forall|start: GuildsDelete|
                start@ == FragmentsView::empty() ==> call_requires(f, (start,)),
        ensures
            exists|start: GuildsDelete|
                start@ == FragmentsView::empty() && #[trigger] call_ensures(f, (start,), r),
    {
        f(GuildsDelete::new())
    }

    /// Adds several rows at once, with the columns of the first; nothing where there are none.
    pub fn create_many(&self, records: Vec<StringMap<SqlValue>>) -> (r: Option<Statement>)
        ensures
            match r {
                Some(s) => records@.len() > 0 && s.says(
                    insert_many_sql("guilds"@, row_maps(records@)),
                    rows_values(sorted_keys(records@[0]@), row_maps(records@)),
                ),
                None => records@.len() == 0,
            },
    {
        insert_many("guilds", records)
    }

    /// Fetches the row with an id.
    pub fn find_unique(&self, id: String) -> (r: Statement)
        ensures
            r.says(find_sql("guilds"@, "id"@), seq![SqlValue::Text(id)]),
    {
        Guilds::find_by_id(id)
    }

    /// Fetches the row with an id, or adds it with nothing but the id.
    pub fn find_or_create(&self, id: String) -> (r: FindOrCreate)
        ensures
            r.insert.says(claim_sql("guilds"@, "id"@), seq![SqlValue::Text(id)]),
            r.select.says(find_sql("guilds"@, "id"@), seq![SqlValue::Text(id)]),
    {
        FindOrCreate::new("guilds", "id", SqlValue::Text(id))
    }
}

} // verus!
