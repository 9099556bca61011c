//! The table of users: its rows, and the statements that read and change them.

use vstd::prelude::*;
use vstd::utf8::is_ascii_chars;
use crate::orm::change::{Arith, BuildError, Fragments, FragmentsView, Update, UpdateView};
use crate::orm::filter::{Filter, FilterView};
use crate::orm::insert::{
    claim_sql, find, find_sql, first_missing, insert_many, insert_many_sql, row_maps, rows_values,
    slices, Create, CreatePlan, CreateView, FindOrCreate, Upsert, UpsertView,
};
use crate::orm::value::{
    bool_values, int_values, nullable_text_values, text_values, time_values, SqlValue, Statement,
    Timestamp,
};
use crate::string_map::{sorted_keys, sorted_values, StringMap};
use crate::text::search::{ascii_upper, upper_case};

verus! {

/// A user, as the database keeps it.
#[derive(Debug, PartialEq)]
pub struct Users {
    pub id: String,
    pub username: String,
    pub tag: String,
    pub created_at: Timestamp,
    pub bot: bool,
    pub status: String,
    pub flags: i32,
    pub bio: Option<String>,
    pub avatar: Option<String>,
    pub banner: Option<String>,
}

impl Clone for Users {
    fn clone(&self) -> (r: Self)
        ensures
            r == *self,
    {
        Users {
            id: self.id.clone(),
            username: self.username.clone(),
            tag: self.tag.clone(),
            created_at: self.created_at,
            bot: self.bot,
            status: self.status.clone(),
            flags: self.flags,
            bio: self.bio.clone(),
            avatar: self.avatar.clone(),
            banner: self.banner.clone(),
        }
    }
}

impl Users {
    /// The statement that fetches the user with an id.
    pub fn find_by_id(id: String) -> (r: Statement)
        ensures
            r.says(find_sql("users"@, "id"@), seq![SqlValue::Text(id)]),
    {
        find("users", "id", SqlValue::Text(id))
    }
}

/// Which users to fetch, in which order, and how many.
#[derive(Debug, PartialEq)]
pub struct UsersWhereBuilder {
    filter: Filter,
}

impl View for UsersWhereBuilder {
    type V = FilterView;

    closed spec fn view(&self) -> FilterView {
        self.filter@
    }
}

impl UsersWhereBuilder {
    /// All users.
    pub fn new() -> (r: Self)
        ensures
            r@ == FilterView::empty(),
    {
        UsersWhereBuilder { filter: Filter::new() }
    }

    /// Keeps those whose `id` is `value`.
    pub fn where_id(self, value: String) -> (r: Self)
        ensures
            r@ == self@.compare("id"@, "="@, SqlValue::Text(value)),
    {
        UsersWhereBuilder { filter: self.filter.compare("id", "=", SqlValue::Text(value)) }
    }

    /// Keeps those whose `id` is one of `values`; keeps all where there are none.
    pub fn where_id_in(self, values: Vec<String>) -> (r: Self)
        ensures
            r@ == self@.one_of(
                "id"@,
                values@.map_values(|v: String| SqlValue::Text(v)),
            ),
    {
        UsersWhereBuilder { filter: self.filter.one_of("id", text_values(values)) }
    }

    /// Keeps those whose `username` is `value`.
    pub fn where_username(self, value: String) -> (r: Self)
        ensures
            r@ == self@.compare("username"@, "="@, SqlValue::Text(value)),
    {
        UsersWhereBuilder { filter: self.filter.compare("username", "=", SqlValue::Text(value)) }
    }

    /// Keeps those whose `username` is one of `values`; keeps all where there are none.
    pub fn where_username_in(self, values: Vec<String>) -> (r: Self)
        ensures
            r@ == self@.one_of(
                "username"@,
                values@.map_values(|v: String| SqlValue::Text(v)),
            ),
    {
        UsersWhereBuilder { filter: self.filter.one_of("username", text_values(values)) }
    }

    /// Keeps those whose `tag` is `value`.
    pub fn where_tag(self, value: String) -> (r: Self)
        ensures
            r@ == self@.compare("tag"@, "="@, SqlValue::Text(value)),
    {
        UsersWhereBuilder { filter: self.filter.compare("tag", "=", SqlValue::Text(value)) }
    }

    /// Keeps those whose `tag` is one of `values`; keeps all where there are none.
    pub fn where_tag_in(self, values: Vec<String>) -> (r: Self)
        ensures
            r@ == self@.one_of(
                "tag"@,
                values@.map_values(|v: String| SqlValue::Text(v)),
            ),
    {
        UsersWhereBuilder { filter: self.filter.one_of("tag", text_values(values)) }
    }

    /// Keeps those whose `created_at` is `value`.
    pub fn where_created_at(self, value: Timestamp) -> (r: Self)
        ensures
            r@ == self@.compare("created_at"@, "="@, SqlValue::Time(value)),
    {
        UsersWhereBuilder { filter: self.filter.compare("created_at", "=", SqlValue::Time(value)) }
    }

    /// Keeps those whose `created_at` is one of `values`; keeps all where there are none.
    pub fn where_created_at_in(self, values: Vec<Timestamp>) -> (r: Self)
        ensures
            r@ == self@.one_of(
                "created_at"@,
                values@.map_values(|v: Timestamp| SqlValue::Time(v)),
            ),
    {
        UsersWhereBuilder { filter: self.filter.one_of("created_at", time_values(values)) }
    }

    /// Keeps those whose `created_at` is after `value`.
    pub fn where_created_at_gt(self, value: Timestamp) -> (r: Self)
        ensures
            r@ == self@.compare("created_at"@, ">"@, SqlValue::Time(value)),
    {
        UsersWhereBuilder { filter: self.filter.compare("created_at", ">", SqlValue::Time(value)) }
    }

    /// Keeps those whose `created_at` is before `value`.
    pub fn where_created_at_lt(self, value: Timestamp) -> (r: Self)
        ensures
            r@ == self@.compare("created_at"@, "<"@, SqlValue::Time(value)),
    {
        UsersWhereBuilder { filter: self.filter.compare("created_at", "<", SqlValue::Time(value)) }
    }

    /// Keeps those whose `created_at` is at or after `value`.
    pub fn where_created_at_gte(self, value: Timestamp) -> (r: Self)
        ensures
            r@ == self@.compare("created_at"@, ">="@, SqlValue::Time(value)),
    {
        UsersWhereBuilder { filter: self.filter.compare("created_at", ">=", SqlValue::Time(value)) }
    }

    /// Keeps those whose `created_at` is at or before `value`.
    pub fn where_created_at_lte(self, value: Timestamp) -> (r: Self)
        ensures
            r@ == self@.compare("created_at"@, "<="@, SqlValue::Time(value)),
    {
        UsersWhereBuilder { filter: self.filter.compare("created_at", "<=", SqlValue::Time(value)) }
    }

    /// Keeps those whose `bot` is `value`.
    pub fn where_bot(self, value: bool) -> (r: Self)
        ensures
            r@ == self@.compare("bot"@, "="@, SqlValue::Bool(value)),
    {
        UsersWhereBuilder { filter: self.filter.compare("bot", "=", SqlValue::Bool(value)) }
    }

    /// Keeps those whose `bot` is one of `values`; keeps all where there are none.
    pub fn where_bot_in(self, values: Vec<bool>) -> (r: Self)
        ensures
            r@ == self@.one_of(
                "bot"@,
                values@.map_values(|v: bool| SqlValue::Bool(v)),
            ),
    {
        UsersWhereBuilder { filter: self.filter.one_of("bot", bool_values(values)) }
    }

    /// Keeps those whose `status` is `value`.
    pub fn where_status(self, value: String) -> (r: Self)
        ensures
            r@ == self@.compare("status"@, "="@, SqlValue::Text(value)),
    {
        UsersWhereBuilder { filter: self.filter.compare("status", "=", SqlValue::Text(value)) }
    }

    /// Keeps those whose `status` is one of `values`; keeps all where there are none.
    pub fn where_status_in(self, values: Vec<String>) -> (r: Self)
        ensures
            r@ == self@.one_of(
                "status"@,
                values@.map_values(|v: String| SqlValue::Text(v)),
            ),
    {
        UsersWhereBuilder { filter: self.filter.one_of("status", text_values(values)) }
    }

    /// Keeps those whose `flags` is `value`.
    pub fn where_flags(self, value: i32) -> (r: Self)
        ensures
            r@ == self@.compare("flags"@, "="@, SqlValue::Int(value)),
    {
        UsersWhereBuilder { filter: self.filter.compare("flags", "=", SqlValue::Int(value)) }
    }

    /// Keeps those whose `flags` is one of `values`; keeps all where there are none.
    pub fn where_flags_in(self, values: Vec<i32>) -> (r: Self)
        ensures
            r@ == self@.one_of(
                "flags"@,
                values@.map_values(|v: i32| SqlValue::Int(v)),
            ),
    {
        UsersWhereBuilder { filter: self.filter.one_of("flags", int_values(values)) }
    }

    /// Keeps those whose `bio` is `value`.
    pub fn where_bio(self, value: Option<String>) -> (r: Self)
        ensures
            r@ == self@.compare("bio"@, "="@, SqlValue::NullableText(value)),
    {
        UsersWhereBuilder { filter: self.filter.compare("bio", "=", SqlValue::NullableText(value)) }
    }

    /// Keeps those whose `bio` is one of `values`; keeps all where there are none.
    pub fn where_bio_in(self, values: Vec<Option<String>>) -> (r: Self)
        ensures
            r@ == self@.one_of(
                "bio"@,
                values@.map_values(|v: Option<String>| SqlValue::NullableText(v)),
            ),
    {
        UsersWhereBuilder { filter: self.filter.one_of("bio", nullable_text_values(values)) }
    }

    /// Keeps those without `bio`.
    pub fn where_bio_is_null(self) -> (r: Self)
        ensures
            r@ == self@.condition("bio IS NULL"@),
    {
        UsersWhereBuilder { filter: self.filter.condition("bio IS NULL") }
    }

    /// Keeps those with `bio`.
    pub fn where_bio_is_not_null(self) -> (r: Self)
        ensures
            r@ == self@.condition("bio IS NOT NULL"@),
    {
        UsersWhereBuilder { filter: self.filter.condition("bio IS NOT NULL") }
    }

    /// Keeps those whose `avatar` is `value`.
    pub fn where_avatar(self, value: Option<String>) -> (r: Self)
        ensures
            r@ == self@.compare("avatar"@, "="@, SqlValue::NullableText(value)),
    {
        UsersWhereBuilder {
            filter: self.filter.compare("avatar", "=", SqlValue::NullableText(value)),
        }
    }

    /// Keeps those whose `avatar` is one of `values`; keeps all where there are none.
    pub fn where_avatar_in(self, values: Vec<Option<String>>) -> (r: Self)
        ensures
            r@ == self@.one_of(
                "avatar"@,
                values@.map_values(|v: Option<String>| SqlValue::NullableText(v)),
            ),
    {
        UsersWhereBuilder { filter: self.filter.one_of("avatar", nullable_text_values(values)) }
    }

    /// Keeps those without `avatar`.
    pub fn where_avatar_is_null(self) -> (r: Self)
        ensures
            r@ == self@.condition("avatar IS NULL"@),
    {
        UsersWhereBuilder { filter: self.filter.condition("avatar IS NULL") }
    }

    /// Keeps those with `avatar`.
    pub fn where_avatar_is_not_null(self) -> (r: Self)
        ensures
            r@ == self@.condition("avatar IS NOT NULL"@),
    {
        UsersWhereBuilder { filter: self.filter.condition("avatar IS NOT NULL") }
    }

    /// Keeps those whose `banner` is `value`.
    pub fn where_banner(self, value: Option<String>) -> (r: Self)
        ensures
            r@ == self@.compare("banner"@, "="@, SqlValue::NullableText(value)),
    {
        UsersWhereBuilder {
            filter: self.filter.compare("banner", "=", SqlValue::NullableText(value)),
        }
    }

    /// Keeps those whose `banner` is one of `values`; keeps all where there are none.
    pub fn where_banner_in(self, values: Vec<Option<String>>) -> (r: Self)
        ensures
            r@ == self@.one_of(
                "banner"@,
                values@.map_values(|v: Option<String>| SqlValue::NullableText(v)),
            ),
    {
        UsersWhereBuilder { filter: self.filter.one_of("banner", nullable_text_values(values)) }
    }

    /// Keeps those without `banner`.
    pub fn where_banner_is_null(self) -> (r: Self)
        ensures
            r@ == self@.condition("banner IS NULL"@),
    {
        UsersWhereBuilder { filter: self.filter.condition("banner IS NULL") }
    }

    /// Keeps those with `banner`.
    pub fn where_banner_is_not_null(self) -> (r: Self)
        ensures
            r@ == self@.condition("banner IS NOT NULL"@),
    {
        UsersWhereBuilder { filter: self.filter.condition("banner IS NOT NULL") }
    }

    /// Orders by `id`, upwards, after the orders given so far.
    pub fn order_by_id_asc(self) -> (r: Self)
        ensures
            r@ == self@.order("id"@, "ASC"@),
    {
        UsersWhereBuilder { filter: self.filter.order("id", "ASC") }
    }

    /// Orders by `id`, downwards, after the orders given so far.
    pub fn order_by_id_desc(self) -> (r: Self)
        ensures
            r@ == self@.order("id"@, "DESC"@),
    {
        UsersWhereBuilder { filter: self.filter.order("id", "DESC") }
    }

    /// Orders by `username`, upwards, after the orders given so far.
    pub fn order_by_username_asc(self) -> (r: Self)
        ensures
            r@ == self@.order("username"@, "ASC"@),
    {
        UsersWhereBuilder { filter: self.filter.order("username", "ASC") }
    }

    /// Orders by `username`, downwards, after the orders given so far.
    pub fn order_by_username_desc(self) -> (r: Self)
        ensures
            r@ == self@.order("username"@, "DESC"@),
    {
        UsersWhereBuilder { filter: self.filter.order("username", "DESC") }
    }

    /// Orders by `tag`, upwards, after the orders given so far.
    pub fn order_by_tag_asc(self) -> (r: Self)
        ensures
            r@ == self@.order("tag"@, "ASC"@),
    {
        UsersWhereBuilder { filter: self.filter.order("tag", "ASC") }
    }

    /// Orders by `tag`, downwards, after the orders given so far.
    pub fn order_by_tag_desc(self) -> (r: Self)
        ensures
            r@ == self@.order("tag"@, "DESC"@),
    {
        UsersWhereBuilder { filter: self.filter.order("tag", "DESC") }
    }

    /// Orders by `created_at`, upwards, after the orders given so far.
    pub fn order_by_created_at_asc(self) -> (r: Self)
        ensures
            r@ == self@.order("created_at"@, "ASC"@),
    {
        UsersWhereBuilder { filter: self.filter.order("created_at", "ASC") }
    }

    /// Orders by `created_at`, downwards, after the orders given so far.
    pub fn order_by_created_at_desc(self) -> (r: Self)
        ensures
            r@ == self@.order("created_at"@, "DESC"@),
    {
        UsersWhereBuilder { filter: self.filter.order("created_at", "DESC") }
    }

    /// Orders by `bot`, upwards, after the orders given so far.
    pub fn order_by_bot_asc(self) -> (r: Self)
        ensures
            r@ == self@.order("bot"@, "ASC"@),
    {
        UsersWhereBuilder { filter: self.filter.order("bot", "ASC") }
    }

    /// Orders by `bot`, downwards, after the orders given so far.
    pub fn order_by_bot_desc(self) -> (r: Self)
        ensures
            r@ == self@.order("bot"@, "DESC"@),
    {
        UsersWhereBuilder { filter: self.filter.order("bot", "DESC") }
    }

    /// Orders by `status`, upwards, after the orders given so far.
    pub fn order_by_status_asc(self) -> (r: Self)
        ensures
            r@ == self@.order("status"@, "ASC"@),
    {
        UsersWhereBuilder { filter: self.filter.order("status", "ASC") }
    }

    /// Orders by `status`, downwards, after the orders given so far.
    pub fn order_by_status_desc(self) -> (r: Self)
        ensures
            r@ == self@.order("status"@, "DESC"@),
    {
        UsersWhereBuilder { filter: self.filter.order("status", "DESC") }
    }

    /// Orders by `flags`, upwards, after the orders given so far.
    pub fn order_by_flags_asc(self) -> (r: Self)
        ensures
            r@ == self@.order("flags"@, "ASC"@),
    {
        UsersWhereBuilder { filter: self.filter.order("flags", "ASC") }
    }

    /// Orders by `flags`, downwards, after the orders given so far.
    pub fn order_by_flags_desc(self) -> (r: Self)
        ensures
            r@ == self@.order("flags"@, "DESC"@),
    {
        UsersWhereBuilder { filter: self.filter.order("flags", "DESC") }
    }

    /// Orders by `bio`, upwards, after the orders given so far.
    pub fn order_by_bio_asc(self) -> (r: Self)
        ensures
            r@ == self@.order("bio"@, "ASC"@),
    {
        UsersWhereBuilder { filter: self.filter.order("bio", "ASC") }
    }

    /// Orders by `bio`, downwards, after the orders given so far.
    pub fn order_by_bio_desc(self) -> (r: Self)
        ensures
            r@ == self@.order("bio"@, "DESC"@),
    {
        UsersWhereBuilder { filter: self.filter.order("bio", "DESC") }
    }

    /// Orders by `avatar`, upwards, after the orders given so far.
    pub fn order_by_avatar_asc(self) -> (r: Self)
        ensures
            r@ == self@.order("avatar"@, "ASC"@),
    {
        UsersWhereBuilder { filter: self.filter.order("avatar", "ASC") }
    }

    /// Orders by `avatar`, downwards, after the orders given so far.
    pub fn order_by_avatar_desc(self) -> (r: Self)
        ensures
            r@ == self@.order("avatar"@, "DESC"@),
    {
        UsersWhereBuilder { filter: self.filter.order("avatar", "DESC") }
    }

    /// Orders by `banner`, upwards, after the orders given so far.
    pub fn order_by_banner_asc(self) -> (r: Self)
        ensures
            r@ == self@.order("banner"@, "ASC"@),
    {
        UsersWhereBuilder { filter: self.filter.order("banner", "ASC") }
    }

    /// Orders by `banner`, downwards, after the orders given so far.
    pub fn order_by_banner_desc(self) -> (r: Self)
        ensures
            r@ == self@.order("banner"@, "DESC"@),
    {
        UsersWhereBuilder { filter: self.filter.order("banner", "DESC") }
    }

    /// Takes no more than `limit` rows.
    pub fn limit(self, limit: usize) -> (r: Self)
        ensures
            r@ == self@.with_limit(limit),
    {
        UsersWhereBuilder { filter: self.filter.limit(limit) }
    }

    /// Leaves the first `offset` rows out.
    pub fn offset(self, offset: usize) -> (r: Self)
        ensures
            r@ == self@.with_offset(offset),
    {
        UsersWhereBuilder { filter: self.filter.offset(offset) }
    }
}

/// A query on the users.
#[derive(Debug, PartialEq)]
pub struct UsersQuery {
    filter: Filter,
}

impl View for UsersQuery {
    type V = FilterView;

    closed spec fn view(&self) -> FilterView {
        self.filter@
    }
}

impl UsersQuery {
    /// A query on all users.
    pub fn new() -> (r: Self)
        ensures
            r@ == FilterView::empty(),
    {
        UsersQuery { filter: Filter::new() }
    }

    /// The query that a builder describes.
    pub fn from_builder(builder: UsersWhereBuilder) -> (r: Self)
        ensures
            r@ == builder@,
    {
        UsersQuery { filter: builder.filter }
    }

    /// Takes no more than `limit` rows.
    pub fn limit(self, limit: usize) -> (r: Self)
        ensures
            r@ == self@.with_limit(limit),
    {
        UsersQuery { filter: self.filter.limit(limit) }
    }

    /// Leaves the first `offset` rows out.
    pub fn offset(self, offset: usize) -> (r: Self)
        ensures
            r@ == self@.with_offset(offset),
    {
        UsersQuery { filter: self.filter.offset(offset) }
    }

    /// The statement that fetches the rows.
    pub fn select(self) -> (r: Statement)
        ensures
            r.says(self@.select_sql("users"@), self@.args),
    {
        self.filter.select("users")
    }

    /// The statement that fetches the first row.
    pub fn first(self) -> (r: Statement)
        ensures
            r.says(self@.with_limit(1).select_sql("users"@), self@.args),
    {
        self.limit(1).select()
    }

    /// The statement that counts the rows.
    pub fn count(self) -> (r: Statement)
        ensures
            r.says(self@.count_sql("users"@), self@.args),
    {
        self.filter.count("users")
    }

    /// The statement that applies an aggregate function to a column.
    pub fn aggregate(self, field: &str, func: &str) -> (r: Statement)
        ensures
            r.says(self@.aggregate_sql("users"@, field@, upper_case(func@)), self@.args),
            is_ascii_chars(func@) ==> upper_case(func@) == func@.map_values(
                |c: char| ascii_upper(c),
            ),
    {
        let name: String = func.to_uppercase();
        self.filter.aggregate("users", field, name.as_str())
    }

    /// The statement that sums a column up, with `zero` for no rows.
    pub fn sum(self, field: &str, zero: SqlValue) -> (r: Statement)
        ensures
            r.says(self@.sum_sql("users"@, field@), self@.args.push(zero)),
    {
        self.filter.sum("users", field, zero)
    }

    /// The statement that sums a column up as a 64-bit integer.
    pub fn sum_cast_i64(self, field: &str) -> (r: Statement)
        ensures
            r.says(
                self@.sum_cast_sql("users"@, field@),
                self@.args.push(SqlValue::BigInt(0)),
            ),
    {
        self.filter.sum_cast("users", field)
    }

    /// The statement that computes the average of a column.
    pub fn avg(self, field: &str) -> (r: Statement)
        ensures
            r.says(self@.aggregate_sql("users"@, field@, "AVG"@), self@.args),
    {
        proof {
            reveal_strlit("AVG");
            assert("AVG"@.map_values(|c: char| ascii_upper(c)) =~= "AVG"@);
        }
        self.aggregate(field, "AVG")
    }

    /// The statement that computes the least value of a column.
    pub fn min(self, field: &str) -> (r: Statement)
        ensures
            r.says(self@.aggregate_sql("users"@, field@, "MIN"@), self@.args),
    {
        proof {
            reveal_strlit("MIN");
            assert("MIN"@.map_values(|c: char| ascii_upper(c)) =~= "MIN"@);
        }
        self.aggregate(field, "MIN")
    }

    /// The statement that computes the greatest value of a column.
    pub fn max(self, field: &str) -> (r: Statement)
        ensures
            r.says(self@.aggregate_sql("users"@, field@, "MAX"@), self@.args),
    {
        proof {
            reveal_strlit("MAX");
            assert("MAX"@.map_values(|c: char| ascii_upper(c)) =~= "MAX"@);
        }
        self.aggregate(field, "MAX")
    }
}

/// A change of some users.
#[derive(Debug, PartialEq)]
pub struct UsersUpdate {
    update: Update,
}

impl View for UsersUpdate {
    type V = UpdateView;

    closed spec fn view(&self) -> UpdateView {
        self.update@
    }
}

impl UsersUpdate {
    /// A change that sets nothing yet.
    pub fn new() -> (r: Self)
        ensures
            r@ == UpdateView::empty(),
    {
        UsersUpdate { update: Update::new() }
    }

    /// Keeps the rows whose `id` is `value`.
    pub fn where_id(self, value: String) -> (r: Self)
        ensures
            r@ == self@.filtered(
                self@.filter.compare("id"@, SqlValue::Text(value)),
            ),
    {
        UsersUpdate { update: self.update.compare("id", SqlValue::Text(value)) }
    }

    /// Adds the fragment `id IN (..)`, to which ` = $n` is appended, and its
    /// values; adds nothing where there are none.
    pub fn where_id_in(self, values: Vec<String>) -> (r: Self)
        ensures
            r@ == self@.filtered(
                self@.filter.one_of(
                    "id"@,
                    values@.map_values(|v: String| SqlValue::Text(v)),
                ),
            ),
    {
        UsersUpdate { update: self.update.one_of("id", text_values(values)) }
    }

    /// Keeps the rows whose `username` is `value`.
    pub fn where_username(self, value: String) -> (r: Self)
        ensures
            r@ == self@.filtered(
                self@.filter.compare("username"@, SqlValue::Text(value)),
            ),
    {
        UsersUpdate { update: self.update.compare("username", SqlValue::Text(value)) }
    }

    /// Adds the fragment `username IN (..)`, to which ` = $n` is appended, and its
    /// values; adds nothing where there are none.
    pub fn where_username_in(self, values: Vec<String>) -> (r: Self)
        ensures
            r@ == self@.filtered(
                self@.filter.one_of(
                    "username"@,
                    values@.map_values(|v: String| SqlValue::Text(v)),
                ),
            ),
    {
        UsersUpdate { update: self.update.one_of("username", text_values(values)) }
    }

    /// Keeps the rows whose `tag` is `value`.
    pub fn where_tag(self, value: String) -> (r: Self)
        ensures
            r@ == self@.filtered(
                self@.filter.compare("tag"@, SqlValue::Text(value)),
            ),
    {
        UsersUpdate { update: self.update.compare("tag", SqlValue::Text(value)) }
    }

    /// Adds the fragment `tag IN (..)`, to which ` = $n` is appended, and its
    /// values; adds nothing where there are none.
    pub fn where_tag_in(self, values: Vec<String>) -> (r: Self)
        ensures
            r@ == self@.filtered(
                self@.filter.one_of(
                    "tag"@,
                    values@.map_values(|v: String| SqlValue::Text(v)),
                ),
            ),
    {
        UsersUpdate { update: self.update.one_of("tag", text_values(values)) }
    }

    /// Keeps the rows whose `created_at` is `value`.
    pub fn where_created_at(self, value: Timestamp) -> (r: Self)
        ensures
            r@ == self@.filtered(
                self@.filter.compare("created_at"@, SqlValue::Time(value)),
            ),
    {
        UsersUpdate { update: self.update.compare("created_at", SqlValue::Time(value)) }
    }

    /// Adds the fragment `created_at IN (..)`, to which ` = $n` is appended, and its
    /// values; adds nothing where there are none.
    pub fn where_created_at_in(self, values: Vec<Timestamp>) -> (r: Self)
        ensures
            r@ == self@.filtered(
                self@.filter.one_of(
                    "created_at"@,
                    values@.map_values(|v: Timestamp| SqlValue::Time(v)),
                ),
            ),
    {
        UsersUpdate { update: self.update.one_of("created_at", time_values(values)) }
    }

    /// Adds the fragment `created_at >` and its value.
    pub fn where_created_at_gt(self, value: Timestamp) -> (r: Self)
        ensures
            r@ == self@.filtered(
                self@.filter.compare("created_at >"@, SqlValue::Time(value)),
            ),
    {
        UsersUpdate { update: self.update.compare("created_at >", SqlValue::Time(value)) }
    }

    /// Adds the fragment `created_at <` and its value.
    pub fn where_created_at_lt(self, value: Timestamp) -> (r: Self)
        ensures
            r@ == self@.filtered(
                self@.filter.compare("created_at <"@, SqlValue::Time(value)),
            ),
    {
        UsersUpdate { update: self.update.compare("created_at <", SqlValue::Time(value)) }
    }

    /// Adds the fragment `created_at >=` and its value.
    pub fn where_created_at_gte(self, value: Timestamp) -> (r: Self)
        ensures
            r@ == self@.filtered(
                self@.filter.compare("created_at >="@, SqlValue::Time(value)),
            ),
    {
        UsersUpdate { update: self.update.compare("created_at >=", SqlValue::Time(value)) }
    }

    /// Adds the fragment `created_at <=` and its value.
    pub fn where_created_at_lte(self, value: Timestamp) -> (r: Self)
        ensures
            r@ == self@.filtered(
                self@.filter.compare("created_at <="@, SqlValue::Time(value)),
            ),
    {
        UsersUpdate { update: self.update.compare("created_at <=", SqlValue::Time(value)) }
    }

    /// Keeps the rows whose `bot` is `value`.
    pub fn where_bot(self, value: bool) -> (r: Self)
        ensures
            r@ == self@.filtered(
                self@.filter.compare("bot"@, SqlValue::Bool(value)),
            ),
    {
        UsersUpdate { update: self.update.compare("bot", SqlValue::Bool(value)) }
    }

    /// Adds the fragment `bot IN (..)`, to which ` = $n` is appended, and its
    /// values; adds nothing where there are none.
    pub fn where_bot_in(self, values: Vec<bool>) -> (r: Self)
        ensures
            r@ == self@.filtered(
                self@.filter.one_of(
                    "bot"@,
                    values@.map_values(|v: bool| SqlValue::Bool(v)),
                ),
            ),
    {
        UsersUpdate { update: self.update.one_of("bot", bool_values(values)) }
    }

    /// Keeps the rows whose `status` is `value`.
    pub fn where_status(self, value: String) -> (r: Self)
        ensures
            r@ == self@.filtered(
                self@.filter.compare("status"@, SqlValue::Text(value)),
            ),
    {
        UsersUpdate { update: self.update.compare("status", SqlValue::Text(value)) }
    }

    /// Adds the fragment `status IN (..)`, to which ` = $n` is appended, and its
    /// values; adds nothing where there are none.
    pub fn where_status_in(self, values: Vec<String>) -> (r: Self)
        ensures
            r@ == self@.filtered(
                self@.filter.one_of(
                    "status"@,
                    values@.map_values(|v: String| SqlValue::Text(v)),
                ),
            ),
    {
        UsersUpdate { update: self.update.one_of("status", text_values(values)) }
    }

    /// Keeps the rows whose `flags` is `value`.
    pub fn where_flags(self, value: i32) -> (r: Self)
        ensures
            r@ == self@.filtered(
                self@.filter.compare("flags"@, SqlValue::Int(value)),
            ),
    {
        UsersUpdate { update: self.update.compare("flags", SqlValue::Int(value)) }
    }

    /// Adds the fragment `flags IN (..)`, to which ` = $n` is appended, and its
    /// values; adds nothing where there are none.
    pub fn where_flags_in(self, values: Vec<i32>) -> (r: Self)
        ensures
            r@ == self@.filtered(
                self@.filter.one_of(
                    "flags"@,
                    values@.map_values(|v: i32| SqlValue::Int(v)),
                ),
            ),
    {
        UsersUpdate { update: self.update.one_of("flags", int_values(values)) }
    }

    /// Keeps the rows whose `bio` is `value`.
    pub fn where_bio(self, value: Option<String>) -> (r: Self)
        ensures
            r@ == self@.filtered(
                self@.filter.compare("bio"@, SqlValue::NullableText(value)),
            ),
    {
        UsersUpdate { update: self.update.compare("bio", SqlValue::NullableText(value)) }
    }

    /// Adds the fragment `bio IN (..)`, to which ` = $n` is appended, and its
    /// values; adds nothing where there are none.
    pub fn where_bio_in(self, values: Vec<Option<String>>) -> (r: Self)
        ensures
            r@ == self@.filtered(
                self@.filter.one_of(
                    "bio"@,
                    values@.map_values(|v: Option<String>| SqlValue::NullableText(v)),
                ),
            ),
    {
        UsersUpdate { update: self.update.one_of("bio", nullable_text_values(values)) }
    }

    /// Adds the fragment for rows without `bio`.
    pub fn where_bio_is_null(self) -> (r: Self)
        ensures
            r@ == self@.filtered(
                self@.filter.condition("bio IS NULL"@),
            ),
    {
        UsersUpdate { update: self.update.condition("bio IS NULL") }
    }

    /// Adds the fragment for rows with `bio`.
    pub fn where_bio_is_not_null(self) -> (r: Self)
        ensures
            r@ == self@.filtered(
                self@.filter.condition("bio IS NOT NULL"@),
            ),
    {
        UsersUpdate { update: self.update.condition("bio IS NOT NULL") }
    }

    /// Keeps the rows whose `avatar` is `value`.
    pub fn where_avatar(self, value: Option<String>) -> (r: Self)
        ensures
            r@ == self@.filtered(
                self@.filter.compare("avatar"@, SqlValue::NullableText(value)),
            ),
    {
        UsersUpdate { update: self.update.compare("avatar", SqlValue::NullableText(value)) }
    }

    /// Adds the fragment `avatar IN (..)`, to which ` = $n` is appended, and its
    /// values; adds nothing where there are none.
    pub fn where_avatar_in(self, values: Vec<Option<String>>) -> (r: Self)
        ensures
            r@ == self@.filtered(
                self@.filter.one_of(
                    "avatar"@,
                    values@.map_values(|v: Option<String>| SqlValue::NullableText(v)),
                ),
            ),
    {
        UsersUpdate { update: self.update.one_of("avatar", nullable_text_values(values)) }
    }

    /// Adds the fragment for rows without `avatar`.
    pub fn where_avatar_is_null(self) -> (r: Self)
        ensures
            r@ == self@.filtered(
                self@.filter.condition("avatar IS NULL"@),
            ),
    {
        UsersUpdate { update: self.update.condition("avatar IS NULL") }
    }

    /// Adds the fragment for rows with `avatar`.
    pub fn where_avatar_is_not_null(self) -> (r: Self)
        ensures
            r@ == self@.filtered(
                self@.filter.condition("avatar IS NOT NULL"@),
            ),
    {
        UsersUpdate { update: self.update.condition("avatar IS NOT NULL") }
    }

    /// Keeps the rows whose `banner` is `value`.
    pub fn where_banner(self, value: Option<String>) -> (r: Self)
        ensures
            r@ == self@.filtered(
                self@.filter.compare("banner"@, SqlValue::NullableText(value)),
            ),
    {
        UsersUpdate { update: self.update.compare("banner", SqlValue::NullableText(value)) }
    }

    /// Adds the fragment `banner IN (..)`, to which ` = $n` is appended, and its
    /// values; adds nothing where there are none.
    pub fn where_banner_in(self, values: Vec<Option<String>>) -> (r: Self)
        ensures
            r@ == self@.filtered(
                self@.filter.one_of(
                    "banner"@,
                    values@.map_values(|v: Option<String>| SqlValue::NullableText(v)),
                ),
            ),
    {
        UsersUpdate { update: self.update.one_of("banner", nullable_text_values(values)) }
    }

    /// Adds the fragment for rows without `banner`.
    pub fn where_banner_is_null(self) -> (r: Self)
        ensures
            r@ == self@.filtered(
                self@.filter.condition("banner IS NULL"@),
            ),
    {
        UsersUpdate { update: self.update.condition("banner IS NULL") }
    }

    /// Adds the fragment for rows with `banner`.
    pub fn where_banner_is_not_null(self) -> (r: Self)
        ensures
            r@ == self@.filtered(
                self@.filter.condition("banner IS NOT NULL"@),
            ),
    {
        UsersUpdate { update: self.update.condition("banner IS NOT NULL") }
    }

    /// Sets `id`.
    pub fn set_id(self, value: String) -> (r: Self)
        ensures
            r@ == self@.set("id"@, SqlValue::Text(value)),
    {
        UsersUpdate { update: self.update.set("id", SqlValue::Text(value)) }
    }

    /// Sets `username`.
    pub fn set_username(self, value: String) -> (r: Self)
        ensures
            r@ == self@.set("username"@, SqlValue::Text(value)),
    {
        UsersUpdate { update: self.update.set("username", SqlValue::Text(value)) }
    }

    /// Sets `tag`.
    pub fn set_tag(self, value: String) -> (r: Self)
        ensures
            r@ == self@.set("tag"@, SqlValue::Text(value)),
    {
        UsersUpdate { update: self.update.set("tag", SqlValue::Text(value)) }
    }

    /// Sets `created_at`.
    pub fn set_created_at(self, value: Timestamp) -> (r: Self)
        ensures
            r@ == self@.set("created_at"@, SqlValue::Time(value)),
    {
        UsersUpdate { update: self.update.set("created_at", SqlValue::Time(value)) }
    }

    /// Sets `bot`.
    pub fn set_bot(self, value: bool) -> (r: Self)
        ensures
            r@ == self@.set("bot"@, SqlValue::Bool(value)),
    {
        UsersUpdate { update: self.update.set("bot", SqlValue::Bool(value)) }
    }

    /// Sets `status`.
    pub fn set_status(self, value: String) -> (r: Self)
        ensures
            r@ == self@.set("status"@, SqlValue::Text(value)),
    {
        UsersUpdate { update: self.update.set("status", SqlValue::Text(value)) }
    }

    /// Sets `flags`.
    pub fn set_flags(self, value: i32) -> (r: Self)
        ensures
            r@ == self@.set("flags"@, SqlValue::Int(value)),
    {
        UsersUpdate { update: self.update.set("flags", SqlValue::Int(value)) }
    }

    /// Sets `bio`.
    pub fn set_bio(self, value: Option<String>) -> (r: Self)
        ensures
            r@ == self@.set("bio"@, SqlValue::NullableText(value)),
    {
        UsersUpdate { update: self.update.set("bio", SqlValue::NullableText(value)) }
    }

    /// Sets `avatar`.
    pub fn set_avatar(self, value: Option<String>) -> (r: Self)
        ensures
            r@ == self@.set("avatar"@, SqlValue::NullableText(value)),
    {
        UsersUpdate { update: self.update.set("avatar", SqlValue::NullableText(value)) }
    }

    /// Sets `banner`.
    pub fn set_banner(self, value: Option<String>) -> (r: Self)
        ensures
            r@ == self@.set("banner"@, SqlValue::NullableText(value)),
    {
        UsersUpdate { update: self.update.set("banner", SqlValue::NullableText(value)) }
    }

    /// Adds `amount` to `flags`.
    pub fn inc_flags(self, amount: i64) -> (r: Self)
        ensures
            r@ == self@.step("flags"@, Arith::Inc, amount),
    {
        UsersUpdate { update: self.update.step("flags", Arith::Inc, amount) }
    }

    /// Takes `amount` from `flags`.
    pub fn dec_flags(self, amount: i64) -> (r: Self)
        ensures
            r@ == self@.step("flags"@, Arith::Dec, amount),
    {
        UsersUpdate { update: self.update.step("flags", Arith::Dec, amount) }
    }

    /// Multiplies by `factor` the value of `flags`.
    pub fn mul_flags(self, factor: i64) -> (r: Self)
        ensures
            r@ == self@.step("flags"@, Arith::Mul, factor),
    {
        UsersUpdate { update: self.update.step("flags", Arith::Mul, factor) }
    }

    /// Divides by `divisor` the value of `flags`.
    pub fn div_flags(self, divisor: i64) -> (r: Self)
        ensures
            r@ == self@.step("flags"@, Arith::Div, divisor),
    {
        UsersUpdate { update: self.update.step("flags", Arith::Div, divisor) }
    }

    /// The statement that makes the change and gives the row back; none where nothing is set.
    pub fn statement(self) -> (r: Result<Statement, BuildError>)
        ensures
            match r {
                Ok(s) => self@.set_columns.len() + self@.steps.len() > 0 && s.says(
                    self@.sql("users"@),
                    self@.params(),
                ),
                Err(e) => self@.set_columns.len() + self@.steps.len() == 0 && e
                    == BuildError::NoFieldsToUpdate,
            },
    {
        self.update.statement("users")
    }
}

/// A user to be added, or to be changed where its id is there.
#[derive(Debug, PartialEq)]
pub struct UsersUpsert {
    upsert: Upsert,
}

impl View for UsersUpsert {
    type V = UpsertView;

    closed spec fn view(&self) -> UpsertView {
        self.upsert@
    }
}

impl UsersUpsert {
    /// A row without values.
    pub fn new() -> (r: Self)
        ensures
            r@ == UpsertView::empty(),
    {
        UsersUpsert { upsert: Upsert::new() }
    }

    /// Sets the id to look for.
    pub fn where_id(self, value: String) -> (r: Self)
        ensures
            r@ == self@.key("id"@, SqlValue::Text(value)),
    {
        UsersUpsert { upsert: self.upsert.key("id", SqlValue::Text(value)) }
    }

    /// Sets `id`.
    pub fn set_id(self, value: String) -> (r: Self)
        ensures
            r@ == self@.set("id"@, SqlValue::Text(value)),
    {
        UsersUpsert { upsert: self.upsert.set("id", SqlValue::Text(value)) }
    }

    /// Sets `username`.
    pub fn set_username(self, value: String) -> (r: Self)
        ensures
            r@ == self@.set("username"@, SqlValue::Text(value)),
    {
        UsersUpsert { upsert: self.upsert.set("username", SqlValue::Text(value)) }
    }

    /// Sets `tag`.
    pub fn set_tag(self, value: String) -> (r: Self)
        ensures
            r@ == self@.set("tag"@, SqlValue::Text(value)),
    {
        UsersUpsert { upsert: self.upsert.set("tag", SqlValue::Text(value)) }
    }

    /// Sets `created_at`.
    pub fn set_created_at(self, value: Timestamp) -> (r: Self)
        ensures
            r@ == self@.set("created_at"@, SqlValue::Time(value)),
    {
        UsersUpsert { upsert: self.upsert.set("created_at", SqlValue::Time(value)) }
    }

    /// Sets `bot`.
    pub fn set_bot(self, value: bool) -> (r: Self)
        ensures
            r@ == self@.set("bot"@, SqlValue::Bool(value)),
    {
        UsersUpsert { upsert: self.upsert.set("bot", SqlValue::Bool(value)) }
    }

    /// Sets `status`.
    pub fn set_status(self, value: String) -> (r: Self)
        ensures
            r@ == self@.set("status"@, SqlValue::Text(value)),
    {
        UsersUpsert { upsert: self.upsert.set("status", SqlValue::Text(value)) }
    }

    /// Sets `flags`.
    pub fn set_flags(self, value: i32) -> (r: Self)
        ensures
            r@ == self@.set("flags"@, SqlValue::Int(value)),
    {
        UsersUpsert { upsert: self.upsert.set("flags", SqlValue::Int(value)) }
    }

    /// Sets `bio`.
    pub fn set_bio(self, value: Option<String>) -> (r: Self)
        ensures
            r@ == self@.set("bio"@, SqlValue::NullableText(value)),
    {
        UsersUpsert { upsert: self.upsert.set("bio", SqlValue::NullableText(value)) }
    }

    /// Sets `avatar`.
    pub fn set_avatar(self, value: Option<String>) -> (r: Self)
        ensures
            r@ == self@.set("avatar"@, SqlValue::NullableText(value)),
    {
        UsersUpsert { upsert: self.upsert.set("avatar", SqlValue::NullableText(value)) }
    }

    /// Sets `banner`.
    pub fn set_banner(self, value: Option<String>) -> (r: Self)
        ensures
            r@ == self@.set("banner"@, SqlValue::NullableText(value)),
    {
        UsersUpsert { upsert: self.upsert.set("banner", SqlValue::NullableText(value)) }
    }

    /// Adds `amount` to `flags`, or starts with it.
    pub fn inc_flags(self, amount: i64) -> (r: Self)
        ensures
            r@ == self@.step("flags"@, Arith::Inc, amount, SqlValue::BigInt(amount)),
    {
        UsersUpsert {
            upsert: self.upsert.step("flags", Arith::Inc, amount, SqlValue::BigInt(amount)),
        }
    }

    /// Takes `amount` from `flags`, or starts with its negation.
    pub fn dec_flags(self, amount: i64) -> (r: Self)
        requires
            amount != i64::MIN,
        ensures
            r@ == self@.step("flags"@, Arith::Dec, amount, SqlValue::BigInt((-amount) as i64)),
    {
        UsersUpsert {
            upsert: self.upsert.step("flags", Arith::Dec, amount, SqlValue::BigInt(-amount)),
        }
    }

    /// Multiplies `flags` by `factor`, or starts with zero.
    pub fn mul_flags(self, factor: i64) -> (r: Self)
        ensures
            r@ == self@.step("flags"@, Arith::Mul, factor, SqlValue::Int(0)),
    {
        UsersUpsert { upsert: self.upsert.step("flags", Arith::Mul, factor, SqlValue::Int(0)) }
    }

    /// Divides `flags` by `divisor`, or starts with zero.
    pub fn div_flags(self, divisor: i64) -> (r: Self)
        ensures
            r@ == self@.step("flags"@, Arith::Div, divisor, SqlValue::Int(0)),
    {
        UsersUpsert { upsert: self.upsert.step("flags", Arith::Div, divisor, SqlValue::Int(0)) }
    }

    /// The statement that adds or changes the row and gives it back. It needs an id.
    pub fn statement(self) -> (r: Result<Statement, BuildError>)
        ensures
            match r {
                Ok(s) => self@.row().contains_key("id"@) && s.says(
                    self@.sql("users"@, "id"@),
                    sorted_values(self@.row()),
                ),
                Err(e) => e matches BuildError::MissingPrimaryKey(f) && f@ == "id"@
                    && !self@.row().contains_key("id"@),
            },
    {
        self.upsert.statement("users", "id")
    }
}

/// The columns that a new user needs.
pub open spec fn required_of_user() -> Seq<Seq<char>> {
    seq!["id"@, "username"@, "tag"@]
}

/// A user to be added, unless one that meets some conditions is there.
#[derive(Debug, PartialEq)]
pub struct UsersCreate {
    create: Create,
}

impl View for UsersCreate {
    type V = CreateView;

    closed spec fn view(&self) -> CreateView {
        self.create@
    }
}

impl UsersCreate {
    /// A row without values.
    pub fn new() -> (r: Self)
        ensures
            r@ == CreateView::empty(),
    {
        UsersCreate { create: Create::new() }
    }

    /// Keeps the rows whose `id` is `value`.
    pub fn where_id(self, value: String) -> (r: Self)
        ensures
            r@ == self@.filtered(
                self@.filter.compare("id"@, SqlValue::Text(value)),
            ),
    {
        UsersCreate { create: self.create.compare("id", SqlValue::Text(value)) }
    }

    /// Adds the fragment `id IN (..)`, to which ` = $n` is appended, and its
    /// values; adds nothing where there are none.
    pub fn where_id_in(self, values: Vec<String>) -> (r: Self)
        ensures
            r@ == self@.filtered(
                self@.filter.one_of(
                    "id"@,
                    values@.map_values(|v: String| SqlValue::Text(v)),
                ),
            ),
    {
        UsersCreate { create: self.create.one_of("id", text_values(values)) }
    }

    /// Keeps the rows whose `username` is `value`.
    pub fn where_username(self, value: String) -> (r: Self)
        ensures
            r@ == self@.filtered(
                self@.filter.compare("username"@, SqlValue::Text(value)),
            ),
    {
        UsersCreate { create: self.create.compare("username", SqlValue::Text(value)) }
    }

    /// Adds the fragment `username IN (..)`, to which ` = $n` is appended, and its
    /// values; adds nothing where there are none.
    pub fn where_username_in(self, values: Vec<String>) -> (r: Self)
        ensures
            r@ == self@.filtered(
                self@.filter.one_of(
                    "username"@,
                    values@.map_values(|v: String| SqlValue::Text(v)),
                ),
            ),
    {
        UsersCreate { create: self.create.one_of("username", text_values(values)) }
    }

    /// Keeps the rows whose `tag` is `value`.
    pub fn where_tag(self, value: String) -> (r: Self)
        ensures
            r@ == self@.filtered(
                self@.filter.compare("tag"@, SqlValue::Text(value)),
            ),
    {
        UsersCreate { create: self.create.compare("tag", SqlValue::Text(value)) }
    }

    /// Adds the fragment `tag IN (..)`, to which ` = $n` is appended, and its
    /// values; adds nothing where there are none.
    pub fn where_tag_in(self, values: Vec<String>) -> (r: Self)
        ensures
            r@ == self@.filtered(
                self@.filter.one_of(
                    "tag"@,
                    values@.map_values(|v: String| SqlValue::Text(v)),
                ),
            ),
    {
        UsersCreate { create: self.create.one_of("tag", text_values(values)) }
    }

    /// Keeps the rows whose `created_at` is `value`.
    pub fn where_created_at(self, value: Timestamp) -> (r: Self)
        ensures
            r@ == self@.filtered(
                self@.filter.compare("created_at"@, SqlValue::Time(value)),
            ),
    {
        UsersCreate { create: self.create.compare("created_at", SqlValue::Time(value)) }
    }

    /// Adds the fragment `created_at IN (..)`, to which ` = $n` is appended, and its
    /// values; adds nothing where there are none.
    pub fn where_created_at_in(self, values: Vec<Timestamp>) -> (r: Self)
        ensures
            r@ == self@.filtered(
                self@.filter.one_of(
                    "created_at"@,
                    values@.map_values(|v: Timestamp| SqlValue::Time(v)),
                ),
            ),
    {
        UsersCreate { create: self.create.one_of("created_at", time_values(values)) }
    }

    /// Adds the fragment `created_at >` and its value.
    pub fn where_created_at_gt(self, value: Timestamp) -> (r: Self)
        ensures
            r@ == self@.filtered(
                self@.filter.compare("created_at >"@, SqlValue::Time(value)),
            ),
    {
        UsersCreate { create: self.create.compare("created_at >", SqlValue::Time(value)) }
    }

    /// Adds the fragment `created_at <` and its value.
    pub fn where_created_at_lt(self, value: Timestamp) -> (r: Self)
        ensures
            r@ == self@.filtered(
                self@.filter.compare("created_at <"@, SqlValue::Time(value)),
            ),
    {
        UsersCreate { create: self.create.compare("created_at <", SqlValue::Time(value)) }
    }

    /// Adds the fragment `created_at >=` and its value.
    pub fn where_created_at_gte(self, value: Timestamp) -> (r: Self)
        ensures
            r@ == self@.filtered(
                self@.filter.compare("created_at >="@, SqlValue::Time(value)),
            ),
    {
        UsersCreate { create: self.create.compare("created_at >=", SqlValue::Time(value)) }
    }

    /// Adds the fragment `created_at <=` and its value.
    pub fn where_created_at_lte(self, value: Timestamp) -> (r: Self)
        ensures
            r@ == self@.filtered(
                self@.filter.compare("created_at <="@, SqlValue::Time(value)),
            ),
    {
        UsersCreate { create: self.create.compare("created_at <=", SqlValue::Time(value)) }
    }

    /// Keeps the rows whose `bot` is `value`.
    pub fn where_bot(self, value: bool) -> (r: Self)
        ensures
            r@ == self@.filtered(
                self@.filter.compare("bot"@, SqlValue::Bool(value)),
            ),
    {
        UsersCreate { create: self.create.compare("bot", SqlValue::Bool(value)) }
    }

    /// Adds the fragment `bot IN (..)`, to which ` = $n` is appended, and its
    /// values; adds nothing where there are none.
    pub fn where_bot_in(self, values: Vec<bool>) -> (r: Self)
        ensures
            r@ == self@.filtered(
                self@.filter.one_of(
                    "bot"@,
                    values@.map_values(|v: bool| SqlValue::Bool(v)),
                ),
            ),
    {
        UsersCreate { create: self.create.one_of("bot", bool_values(values)) }
    }

    /// Keeps the rows whose `status` is `value`.
    pub fn where_status(self, value: String) -> (r: Self)
        ensures
            r@ == self@.filtered(
                self@.filter.compare("status"@, SqlValue::Text(value)),
            ),
    {
        UsersCreate { create: self.create.compare("status", SqlValue::Text(value)) }
    }

    /// Adds the fragment `status IN (..)`, to which ` = $n` is appended, and its
    /// values; adds nothing where there are none.
    pub fn where_status_in(self, values: Vec<String>) -> (r: Self)
        ensures
            r@ == self@.filtered(
                self@.filter.one_of(
                    "status"@,
                    values@.map_values(|v: String| SqlValue::Text(v)),
                ),
            ),
    {
        UsersCreate { create: self.create.one_of("status", text_values(values)) }
    }

    /// Keeps the rows whose `flags` is `value`.
    pub fn where_flags(self, value: i32) -> (r: Self)
        ensures
            r@ == self@.filtered(
                self@.filter.compare("flags"@, SqlValue::Int(value)),
            ),
    {
        UsersCreate { create: self.create.compare("flags", SqlValue::Int(value)) }
    }

    /// Adds the fragment `flags IN (..)`, to which ` = $n` is appended, and its
    /// values; adds nothing where there are none.
    pub fn where_flags_in(self, values: Vec<i32>) -> (r: Self)
        ensures
            r@ == self@.filtered(
                self@.filter.one_of(
                    "flags"@,
                    values@.map_values(|v: i32| SqlValue::Int(v)),
                ),
            ),
    {
        UsersCreate { create: self.create.one_of("flags", int_values(values)) }
    }

    /// Keeps the rows whose `bio` is `value`.
    pub fn where_bio(self, value: Option<String>) -> (r: Self)
        ensures
            r@ == self@.filtered(
                self@.filter.compare("bio"@, SqlValue::NullableText(value)),
            ),
    {
        UsersCreate { create: self.create.compare("bio", SqlValue::NullableText(value)) }
    }

    /// Adds the fragment `bio IN (..)`, to which ` = $n` is appended, and its
    /// values; adds nothing where there are none.
    pub fn where_bio_in(self, values: Vec<Option<String>>) -> (r: Self)
        ensures
            r@ == self@.filtered(
                self@.filter.one_of(
                    "bio"@,
                    values@.map_values(|v: Option<String>| SqlValue::NullableText(v)),
                ),
            ),
    {
        UsersCreate { create: self.create.one_of("bio", nullable_text_values(values)) }
    }

    /// Adds the fragment for rows without `bio`.
    pub fn where_bio_is_null(self) -> (r: Self)
        ensures
            r@ == self@.filtered(
                self@.filter.condition("bio IS NULL"@),
            ),
    {
        UsersCreate { create: self.create.condition("bio IS NULL") }
    }

    /// Adds the fragment for rows with `bio`.
    pub fn where_bio_is_not_null(self) -> (r: Self)
        ensures
            r@ == self@.filtered(
                self@.filter.condition("bio IS NOT NULL"@),
            ),
    {
        UsersCreate { create: self.create.condition("bio IS NOT NULL") }
    }

    /// Keeps the rows whose `avatar` is `value`.
    pub fn where_avatar(self, value: Option<String>) -> (r: Self)
        ensures
            r@ == self@.filtered(
                self@.filter.compare("avatar"@, SqlValue::NullableText(value)),
            ),
    {
        UsersCreate { create: self.create.compare("avatar", SqlValue::NullableText(value)) }
    }

    /// Adds the fragment `avatar IN (..)`, to which ` = $n` is appended, and its
    /// values; adds nothing where there are none.
    pub fn where_avatar_in(self, values: Vec<Option<String>>) -> (r: Self)
        ensures
            r@ == self@.filtered(
                self@.filter.one_of(
                    "avatar"@,
                    values@.map_values(|v: Option<String>| SqlValue::NullableText(v)),
                ),
            ),
    {
        UsersCreate { create: self.create.one_of("avatar", nullable_text_values(values)) }
    }

    /// Adds the fragment for rows without `avatar`.
    pub fn where_avatar_is_null(self) -> (r: Self)
        ensures
            r@ == self@.filtered(
                self@.filter.condition("avatar IS NULL"@),
            ),
    {
        UsersCreate { create: self.create.condition("avatar IS NULL") }
    }

    /// Adds the fragment for rows with `avatar`.
    pub fn where_avatar_is_not_null(self) -> (r: Self)
        ensures
            r@ == self@.filtered(
                self@.filter.condition("avatar IS NOT NULL"@),
            ),
    {
        UsersCreate { create: self.create.condition("avatar IS NOT NULL") }
    }

    /// Keeps the rows whose `banner` is `value`.
    pub fn where_banner(self, value: Option<String>) -> (r: Self)
        ensures
            r@ == self@.filtered(
                self@.filter.compare("banner"@, SqlValue::NullableText(value)),
            ),
    {
        UsersCreate { create: self.create.compare("banner", SqlValue::NullableText(value)) }
    }

    /// Adds the fragment `banner IN (..)`, to which ` = $n` is appended, and its
    /// values; adds nothing where there are none.
    pub fn where_banner_in(self, values: Vec<Option<String>>) -> (r: Self)
        ensures
            r@ == self@.filtered(
                self@.filter.one_of(
                    "banner"@,
                    values@.map_values(|v: Option<String>| SqlValue::NullableText(v)),
                ),
            ),
    {
        UsersCreate { create: self.create.one_of("banner", nullable_text_values(values)) }
    }

    /// Adds the fragment for rows without `banner`.
    pub fn where_banner_is_null(self) -> (r: Self)
        ensures
            r@ == self@.filtered(
                self@.filter.condition("banner IS NULL"@),
            ),
    {
        UsersCreate { create: self.create.condition("banner IS NULL") }
    }

    /// Adds the fragment for rows with `banner`.
    pub fn where_banner_is_not_null(self) -> (r: Self)
        ensures
            r@ == self@.filtered(
                self@.filter.condition("banner IS NOT NULL"@),
            ),
    {
        UsersCreate { create: self.create.condition("banner IS NOT NULL") }
    }

    /// Sets `id`.
    pub fn set_id(self, value: String) -> (r: Self)
        ensures
            r@ == self@.set("id"@, SqlValue::Text(value)),
    {
        UsersCreate { create: self.create.set("id", SqlValue::Text(value)) }
    }

    /// Sets `username`.
    pub fn set_username(self, value: String) -> (r: Self)
        ensures
            r@ == self@.set("username"@, SqlValue::Text(value)),
    {
        UsersCreate { create: self.create.set("username", SqlValue::Text(value)) }
    }

    /// Sets `tag`.
    pub fn set_tag(self, value: String) -> (r: Self)
        ensures
            r@ == self@.set("tag"@, SqlValue::Text(value)),
    {
        UsersCreate { create: self.create.set("tag", SqlValue::Text(value)) }
    }

    /// Sets `created_at`.
    pub fn set_created_at(self, value: Timestamp) -> (r: Self)
        ensures
            r@ == self@.set("created_at"@, SqlValue::Time(value)),
    {
        UsersCreate { create: self.create.set("created_at", SqlValue::Time(value)) }
    }

    /// Sets `bot`.
    pub fn set_bot(self, value: bool) -> (r: Self)
        ensures
            r@ == self@.set("bot"@, SqlValue::Bool(value)),
    {
        UsersCreate { create: self.create.set("bot", SqlValue::Bool(value)) }
    }

    /// Sets `status`.
    pub fn set_status(self, value: String) -> (r: Self)
        ensures
            r@ == self@.set("status"@, SqlValue::Text(value)),
    {
        UsersCreate { create: self.create.set("status", SqlValue::Text(value)) }
    }

    /// Sets `flags`.
    pub fn set_flags(self, value: i32) -> (r: Self)
        ensures
            r@ == self@.set("flags"@, SqlValue::Int(value)),
    {
        UsersCreate { create: self.create.set("flags", SqlValue::Int(value)) }
    }

    /// Sets `bio`.
    pub fn set_bio(self, value: Option<String>) -> (r: Self)
        ensures
            r@ == self@.set("bio"@, SqlValue::NullableText(value)),
    {
        UsersCreate { create: self.create.set("bio", SqlValue::NullableText(value)) }
    }

    /// Sets `avatar`.
    pub fn set_avatar(self, value: Option<String>) -> (r: Self)
        ensures
            r@ == self@.set("avatar"@, SqlValue::NullableText(value)),
    {
        UsersCreate { create: self.create.set("avatar", SqlValue::NullableText(value)) }
    }

    /// Sets `banner`.
    pub fn set_banner(self, value: Option<String>) -> (r: Self)
        ensures
            r@ == self@.set("banner"@, SqlValue::NullableText(value)),
    {
        UsersCreate { create: self.create.set("banner", SqlValue::NullableText(value)) }
    }

    /// The statements that create the row; none where a column that it needs has no value.
    pub fn plan(self) -> (r: Result<CreatePlan, BuildError>)
        ensures
            match r {
                Ok(p) => first_missing(required_of_user(), self@.values) is None
                    && self@.planned("users"@, p),
                Err(e) => e matches BuildError::MissingField(f) && first_missing(
                    required_of_user(),
                    self@.values,
                ) == Some(f@),
            },
    {
        let required: Vec<&'static str> = vec!["id", "username", "tag"];
        assert(slices(required@) =~= required_of_user());
        self.create.plan("users", required)
    }
}

/// Which users to remove.
#[derive(Debug, PartialEq)]
pub struct UsersDelete {
    filter: Fragments,
}

impl View for UsersDelete {
    type V = FragmentsView;

    closed spec fn view(&self) -> FragmentsView {
        self.filter@
    }
}

impl UsersDelete {
    /// No condition yet.
    pub fn new() -> (r: Self)
        ensures
            r@ == FragmentsView::empty(),
    {
        UsersDelete { filter: Fragments::new() }
    }

    /// Keeps the rows whose `id` is `value`.
    pub fn where_id(self, value: String) -> (r: Self)
        ensures
            r@ == self@.compare("id"@, SqlValue::Text(value)),
    {
        UsersDelete { filter: self.filter.compare("id", SqlValue::Text(value)) }
    }

    /// Adds the fragment `id IN (..)`, to which ` = $n` is appended, and its
    /// values; adds nothing where there are none.
    pub fn where_id_in(self, values: Vec<String>) -> (r: Self)
        ensures
            r@ == self@.one_of(
                "id"@,
                values@.map_values(|v: String| SqlValue::Text(v)),
            ),
    {
        UsersDelete { filter: self.filter.one_of("id", text_values(values)) }
    }

    /// Keeps the rows whose `username` is `value`.
    pub fn where_username(self, value: String) -> (r: Self)
        ensures
            r@ == self@.compare("username"@, SqlValue::Text(value)),
    {
        UsersDelete { filter: self.filter.compare("username", SqlValue::Text(value)) }
    }

    /// Adds the fragment `username IN (..)`, to which ` = $n` is appended, and its
    /// values; adds nothing where there are none.
    pub fn where_username_in(self, values: Vec<String>) -> (r: Self)
        ensures
            r@ == self@.one_of(
                "username"@,
                values@.map_values(|v: String| SqlValue::Text(v)),
            ),
    {
        UsersDelete { filter: self.filter.one_of("username", text_values(values)) }
    }

    /// Keeps the rows whose `tag` is `value`.
    pub fn where_tag(self, value: String) -> (r: Self)
        ensures
            r@ == self@.compare("tag"@, SqlValue::Text(value)),
    {
        UsersDelete { filter: self.filter.compare("tag", SqlValue::Text(value)) }
    }

    /// Adds the fragment `tag IN (..)`, to which ` = $n` is appended, and its
    /// values; adds nothing where there are none.
    pub fn where_tag_in(self, values: Vec<String>) -> (r: Self)
        ensures
            r@ == self@.one_of(
                "tag"@,
                values@.map_values(|v: String| SqlValue::Text(v)),
            ),
    {
        UsersDelete { filter: self.filter.one_of("tag", text_values(values)) }
    }

    /// Keeps the rows whose `created_at` is `value`.
    pub fn where_created_at(self, value: Timestamp) -> (r: Self)
        ensures
            r@ == self@.compare("created_at"@, SqlValue::Time(value)),
    {
        UsersDelete { filter: self.filter.compare("created_at", SqlValue::Time(value)) }
    }

    /// Adds the fragment `created_at IN (..)`, to which ` = $n` is appended, and its
    /// values; adds nothing where there are none.
    pub fn where_created_at_in(self, values: Vec<Timestamp>) -> (r: Self)
        ensures
            r@ == self@.one_of(
                "created_at"@,
                values@.map_values(|v: Timestamp| SqlValue::Time(v)),
            ),
    {
        UsersDelete { filter: self.filter.one_of("created_at", time_values(values)) }
    }

    /// Adds the fragment `created_at >` and its value.
    pub fn where_created_at_gt(self, value: Timestamp) -> (r: Self)
        ensures
            r@ == self@.compare("created_at >"@, SqlValue::Time(value)),
    {
        UsersDelete { filter: self.filter.compare("created_at >", SqlValue::Time(value)) }
    }

    /// Adds the fragment `created_at <` and its value.
    pub fn where_created_at_lt(self, value: Timestamp) -> (r: Self)
        ensures
            r@ == self@.compare("created_at <"@, SqlValue::Time(value)),
    {
        UsersDelete { filter: self.filter.compare("created_at <", SqlValue::Time(value)) }
    }

    /// Adds the fragment `created_at >=` and its value.
    pub fn where_created_at_gte(self, value: Timestamp) -> (r: Self)
        ensures
            r@ == self@.compare("created_at >="@, SqlValue::Time(value)),
    {
        UsersDelete { filter: self.filter.compare("created_at >=", SqlValue::Time(value)) }
    }

    /// Adds the fragment `created_at <=` and its value.
    pub fn where_created_at_lte(self, value: Timestamp) -> (r: Self)
        ensures
            r@ == self@.compare("created_at <="@, SqlValue::Time(value)),
    {
        UsersDelete { filter: self.filter.compare("created_at <=", SqlValue::Time(value)) }
    }

    /// Keeps the rows whose `bot` is `value`.
    pub fn where_bot(self, value: bool) -> (r: Self)
        ensures
            r@ == self@.compare("bot"@, SqlValue::Bool(value)),
    {
        UsersDelete { filter: self.filter.compare("bot", SqlValue::Bool(value)) }
    }

    /// Adds the fragment `bot IN (..)`, to which ` = $n` is appended, and its
    /// values; adds nothing where there are none.
    pub fn where_bot_in(self, values: Vec<bool>) -> (r: Self)
        ensures
            r@ == self@.one_of(
                "bot"@,
                values@.map_values(|v: bool| SqlValue::Bool(v)),
            ),
    {
        UsersDelete { filter: self.filter.one_of("bot", bool_values(values)) }
    }

    /// Keeps the rows whose `status` is `value`.
    pub fn where_status(self, value: String) -> (r: Self)
        ensures
            r@ == self@.compare("status"@, SqlValue::Text(value)),
    {
        UsersDelete { filter: self.filter.compare("status", SqlValue::Text(value)) }
    }

    /// Adds the fragment `status IN (..)`, to which ` = $n` is appended, and its
    /// values; adds nothing where there are none.
    pub fn where_status_in(self, values: Vec<String>) -> (r: Self)
        ensures
            r@ == self@.one_of(
                "status"@,
                values@.map_values(|v: String| SqlValue::Text(v)),
            ),
    {
        UsersDelete { filter: self.filter.one_of("status", text_values(values)) }
    }

    /// Keeps the rows whose `flags` is `value`.
    pub fn where_flags(self, value: i32) -> (r: Self)
        ensures
            r@ == self@.compare("flags"@, SqlValue::Int(value)),
    {
        UsersDelete { filter: self.filter.compare("flags", SqlValue::Int(value)) }
    }

    /// Adds the fragment `flags IN (..)`, to which ` = $n` is appended, and its
    /// values; adds nothing where there are none.
    pub fn where_flags_in(self, values: Vec<i32>) -> (r: Self)
        ensures
            r@ == self@.one_of(
                "flags"@,
                values@.map_values(|v: i32| SqlValue::Int(v)),
            ),
    {
        UsersDelete { filter: self.filter.one_of("flags", int_values(values)) }
    }

    /// Keeps the rows whose `bio` is `value`.
    pub fn where_bio(self, value: Option<String>) -> (r: Self)
        ensures
            r@ == self@.compare("bio"@, SqlValue::NullableText(value)),
    {
        UsersDelete { filter: self.filter.compare("bio", SqlValue::NullableText(value)) }
    }

    /// Adds the fragment `bio IN (..)`, to which ` = $n` is appended, and its
    /// values; adds nothing where there are none.
    pub fn where_bio_in(self, values: Vec<Option<String>>) -> (r: Self)
        ensures
            r@ == self@.one_of(
                "bio"@,
                values@.map_values(|v: Option<String>| SqlValue::NullableText(v)),
            ),
    {
        UsersDelete { filter: self.filter.one_of("bio", nullable_text_values(values)) }
    }

    /// Adds the fragment for rows without `bio`.
    pub fn where_bio_is_null(self) -> (r: Self)
        ensures
            r@ == self@.condition("bio IS NULL"@),
    {
        UsersDelete { filter: self.filter.condition("bio IS NULL") }
    }

    /// Adds the fragment for rows with `bio`.
    pub fn where_bio_is_not_null(self) -> (r: Self)
        ensures
            r@ == self@.condition("bio IS NOT NULL"@),
    {
        UsersDelete { filter: self.filter.condition("bio IS NOT NULL") }
    }

    /// Keeps the rows whose `avatar` is `value`.
    pub fn where_avatar(self, value: Option<String>) -> (r: Self)
        ensures
            r@ == self@.compare("avatar"@, SqlValue::NullableText(value)),
    {
        UsersDelete { filter: self.filter.compare("avatar", SqlValue::NullableText(value)) }
    }

    /// Adds the fragment `avatar IN (..)`, to which ` = $n` is appended, and its
    /// values; adds nothing where there are none.
    pub fn where_avatar_in(self, values: Vec<Option<String>>) -> (r: Self)
        ensures
            r@ == self@.one_of(
                "avatar"@,
                values@.map_values(|v: Option<String>| SqlValue::NullableText(v)),
            ),
    {
        UsersDelete { filter: self.filter.one_of("avatar", nullable_text_values(values)) }
    }

    /// Adds the fragment for rows without `avatar`.
    pub fn where_avatar_is_null(self) -> (r: Self)
        ensures
            r@ == self@.condition("avatar IS NULL"@),
    {
        UsersDelete { filter: self.filter.condition("avatar IS NULL") }
    }

    /// Adds the fragment for rows with `avatar`.
    pub fn where_avatar_is_not_null(self) -> (r: Self)
        ensures
            r@ == self@.condition("avatar IS NOT NULL"@),
    {
        UsersDelete { filter: self.filter.condition("avatar IS NOT NULL") }
    }

    /// Keeps the rows whose `banner` is `value`.
    pub fn where_banner(self, value: Option<String>) -> (r: Self)
        ensures
            r@ == self@.compare("banner"@, SqlValue::NullableText(value)),
    {
        UsersDelete { filter: self.filter.compare("banner", SqlValue::NullableText(value)) }
    }

    /// Adds the fragment `banner IN (..)`, to which ` = $n` is appended, and its
    /// values; adds nothing where there are none.
    pub fn where_banner_in(self, values: Vec<Option<String>>) -> (r: Self)
        ensures
            r@ == self@.one_of(
                "banner"@,
                values@.map_values(|v: Option<String>| SqlValue::NullableText(v)),
            ),
    {
        UsersDelete { filter: self.filter.one_of("banner", nullable_text_values(values)) }
    }

    /// Adds the fragment for rows without `banner`.
    pub fn where_banner_is_null(self) -> (r: Self)
        ensures
            r@ == self@.condition("banner IS NULL"@),
    {
        UsersDelete { filter: self.filter.condition("banner IS NULL") }
    }

    /// Adds the fragment for rows with `banner`.
    pub fn where_banner_is_not_null(self) -> (r: Self)
        ensures
            r@ == self@.condition("banner IS NOT NULL"@),
    {
        UsersDelete { filter: self.filter.condition("banner IS NOT NULL") }
    }

    /// The statement that removes the rows; none without a condition.
    pub fn statement(self) -> (r: Result<Statement, BuildError>)
        ensures
            match r {
                Ok(s) => self@.fragments.len() > 0 && s.says(
                    self@.delete_sql("users"@),
                    self@.args,
                ),
                Err(e) => self@.fragments.len() == 0 && e == BuildError::DeleteWithoutWhere,
            },
    {
        self.filter.delete("users")
    }
}

/// The statements on the table of users.
#[derive(Clone, Copy, Debug, PartialEq, Eq, Structural)]
pub struct UsersAccessor;

/// Whether a builder is what `f` makes of the builder for all users.
pub open spec fn built_by_user_filter<F: FnOnce(UsersWhereBuilder) -> UsersWhereBuilder>(
    f: F,
    builder: UsersWhereBuilder,
) -> bool {
    exists|start: UsersWhereBuilder|
        start@ == FilterView::empty() && #[trigger] call_ensures(f, (start,), builder)
}

impl UsersAccessor {
    /// The table.
    pub fn new() -> (r: Self)
        ensures
            r == (UsersAccessor),
    {
        UsersAccessor
    }

    /// Fetches the rows that a filter keeps.
    pub fn find_many<F: FnOnce(UsersWhereBuilder) -> UsersWhereBuilder>(
        &self,
        f: F,
    ) -> (r: Statement)
        requires
            forall|start: UsersWhereBuilder|
                start@ == FilterView::empty() ==> call_requires(f, (start,)),
        ensures
            exists|b: UsersWhereBuilder|
                #[trigger] built_by_user_filter(f, b) && r.says(
                    b@.select_sql("users"@),
                    b@.args,
                ),
    {
        let builder: UsersWhereBuilder = f(UsersWhereBuilder::new());
        assert(built_by_user_filter(f, builder));
        UsersQuery::from_builder(builder).select()
    }

    /// Fetches the first row that a filter keeps.
    pub fn find_first<F: FnOnce(UsersWhereBuilder) -> UsersWhereBuilder>(
        &self,
        f: F,
    ) -> (r: Statement)
        requires
            forall|start: UsersWhereBuilder|
                start@ == FilterView::empty() ==> call_requires(f, (start,)),
        ensures
            exists|b: UsersWhereBuilder|
                #[trigger] built_by_user_filter(f, b) && r.says(
                    b@.with_limit(1).select_sql("users"@),
                    b@.args,
                ),
    {
        let builder: UsersWhereBuilder = f(UsersWhereBuilder::new());
        assert(built_by_user_filter(f, builder));
        UsersQuery::from_builder(builder).first()
    }

    /// Sums a column up over the rows that a filter keeps.
    pub fn sum<F: FnOnce(UsersWhereBuilder) -> UsersWhereBuilder>(
        &self,
        f: F,
        field: &str,
        zero: SqlValue,
    ) -> (r: Statement)
        requires
            forall|start: UsersWhereBuilder|
                start@ == FilterView::empty() ==> call_requires(f, (start,)),
        ensures
            exists|b: UsersWhereBuilder|
                #[trigger] built_by_user_filter(f, b) && r.says(
                    b@.sum_sql("users"@, field@),
                    b@.args.push(zero),
                ),
    {
        let builder: UsersWhereBuilder = f(UsersWhereBuilder::new());
        assert(built_by_user_filter(f, builder));
        UsersQuery::from_builder(builder).sum(field, zero)
    }

    /// Counts the rows that a filter keeps.
    pub fn count<F: FnOnce(UsersWhereBuilder) -> UsersWhereBuilder>(&self, f: F) -> (r: Statement)
        requires
            forall|start: UsersWhereBuilder|
                start@ == FilterView::empty() ==> call_requires(f, (start,)),
        ensures
            exists|b: UsersWhereBuilder|
                #[trigger] built_by_user_filter(f, b) && r.says(
                    b@.count_sql("users"@),
                    b@.args,
                ),
    {
        let builder: UsersWhereBuilder = f(UsersWhereBuilder::new());
        assert(built_by_user_filter(f, builder));
        UsersQuery::from_builder(builder).count()
    }

    /// Computes the average of a column over the rows that a filter keeps.
    pub fn avg<F: FnOnce(UsersWhereBuilder) -> UsersWhereBuilder>(
        &self,
        f: F,
        field: &str,
    ) -> (r: Statement)
        requires
            forall|start: UsersWhereBuilder|
                start@ == FilterView::empty() ==> call_requires(f, (start,)),
        ensures
            exists|b: UsersWhereBuilder|
                #[trigger] built_by_user_filter(f, b) && r.says(
                    b@.aggregate_sql("users"@, field@, "AVG"@),
                    b@.args,
                ),
    {
        let builder: UsersWhereBuilder = f(UsersWhereBuilder::new());
        assert(built_by_user_filter(f, builder));
        UsersQuery::from_builder(builder).avg(field)
    }

    /// Computes the least value of a column over the rows that a filter keeps.
    pub fn min<F: FnOnce(UsersWhereBuilder) -> UsersWhereBuilder>(
        &self,
        f: F,
        field: &str,
    ) -> (r: Statement)
        requires
            forall|start: UsersWhereBuilder|
                start@ == FilterView::empty() ==> call_requires(f, (start,)),
        ensures
            exists|b: UsersWhereBuilder|
                #[trigger] built_by_user_filter(f, b) && r.says(
                    b@.aggregate_sql("users"@, field@, "MIN"@),
                    b@.args,
                ),
    {
        let builder: UsersWhereBuilder = f(UsersWhereBuilder::new());
        assert(built_by_user_filter(f, builder));
        UsersQuery::from_builder(builder).min(field)
    }

    /// Computes the greatest value of a column over the rows that a filter keeps.
    pub fn max<F: FnOnce(UsersWhereBuilder) -> UsersWhereBuilder>(
        &self,
        f: F,
        field: &str,
    ) -> (r: Statement)
        requires
            forall|start: UsersWhereBuilder|
                start@ == FilterView::empty() ==> call_requires(f, (start,)),
        ensures
            exists|b: UsersWhereBuilder|
                #[trigger] built_by_user_filter(f, b) && r.says(
                    b@.aggregate_sql("users"@, field@, "MAX"@),
                    b@.args,
                ),
    {
        let builder: UsersWhereBuilder = f(UsersWhereBuilder::new());
        assert(built_by_user_filter(f, builder));
        UsersQuery::from_builder(builder).max(field)
    }

    /// Sums `flags` up over the rows that a filter keeps.
    pub fn sum_flags<F: FnOnce(UsersWhereBuilder) -> UsersWhereBuilder>(
        &self,
        f: F,
    ) -> (r: Statement)
        requires
            forall|start: UsersWhereBuilder|
                start@ == FilterView::empty() ==> call_requires(f, (start,)),
        ensures
            exists|b: UsersWhereBuilder|
                #[trigger] built_by_user_filter(f, b) && r.says(
                    b@.sum_sql("users"@, "flags"@),
                    b@.args.push(SqlValue::BigInt(0)),
                ),
    {
        let builder: UsersWhereBuilder = f(UsersWhereBuilder::new());
        assert(built_by_user_filter(f, builder));
        UsersQuery::from_builder(builder).sum("flags", SqlValue::BigInt(0))
    }

    /// The change that `f` describes.
    pub fn update<F: FnOnce(UsersUpdate) -> UsersUpdate>(&self, f: F) -> (r: UsersUpdate)
        requires
            forall|start: UsersUpdate|
                start@ == UpdateView::empty() ==> call_requires(f, (start,)),
        ensures
            exists|start: UsersUpdate|
                start@ == UpdateView::empty() && #[trigger] call_ensures(f, (start,), r),
    {
        f(UsersUpdate::new())
    }

    /// The row to be added or changed that `f` describes.
    pub fn upsert<F: FnOnce(UsersUpsert) -> UsersUpsert>(&self, f: F) -> (r: UsersUpsert)
        requires
            forall|start: UsersUpsert|
                start@ == UpsertView::empty() ==> call_requires(f, (start,)),
        ensures
            exists|start: UsersUpsert|
                start@ == UpsertView::empty() && #[trigger] call_ensures(f, (start,), r),
    {
        f(UsersUpsert::new())
    }

    /// The row to be added that `f` describes.
    pub fn create<F: FnOnce(UsersCreate) -> UsersCreate>(&self, f: F) -> (r: UsersCreate)
        requires
            forall|start: UsersCreate|
                start@ == CreateView::empty() ==> call_requires(f, (start,)),
        ensures
            exists|start: UsersCreate|
                start@ == CreateView::empty() && #[trigger] call_ensures(f, (start,), r),
    {
        f(UsersCreate::new())
    }

    /// The rows to be removed that `f` describes.
    pub fn delete<F: FnOnce(UsersDelete) -> UsersDelete>(&self, f: F) -> (r: UsersDelete)
        requires
            forall|start: UsersDelete|
                start@ == FragmentsView::empty() ==> call_requires(f, (start,)),
        ensures
            exists|start: UsersDelete|
                start@ == FragmentsView::empty() && #[trigger] call_ensures(f, (start,), r),
    {
        f(UsersDelete::new())
    }

    /// Adds several rows at once, with the columns of the first; nothing where there are none.
    pub fn create_many(&self, records: Vec<StringMap<SqlValue>>) -> (r: Option<Statement>)
        ensures
            match r {
                Some(s) => records@.len() > 0 && s.says(
                    insert_many_sql("users"@, row_maps(records@)),
                    rows_values(sorted_keys(records@[0]@), row_maps(records@)),
                ),
                None => records@.len() == 0,
            },
    {
        insert_many("users", records)
    }

    /// Fetches the row with an id.
    pub fn find_unique(&self, id: String) -> (r: Statement)
        ensures
            r.says(find_sql("users"@, "id"@), seq![SqlValue::Text(id)]),
    {
        Users::find_by_id(id)
    }

    /// Fetches the row with an id, or adds it with nothing but the id.
    pub fn find_or_create(&self, id: String) -> (r: FindOrCreate)
        ensures
            r.insert.says(claim_sql("users"@, "id"@), seq![SqlValue::Text(id)]),
            r.select.says(find_sql("users"@, "id"@), seq![SqlValue::Text(id)]),
    {
        FindOrCreate::new("users", "id", SqlValue::Text(id))
    }
}

} // verus!
