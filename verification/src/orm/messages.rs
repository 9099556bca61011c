//! The table of messages: its rows, and the statements that read and change them.

use vstd::prelude::*;
use vstd::utf8::is_ascii_chars;
use crate::orm::change::{BuildError, Fragments, FragmentsView, Update, UpdateView};
use crate::orm::filter::{Filter, FilterView};
use crate::orm::insert::{
    claim_sql, find, find_sql, first_missing, insert_many, insert_many_sql, row_maps, rows_values,
    slices, Create, CreatePlan, CreateView, FindOrCreate, Upsert, UpsertView,
};
use crate::orm::value::{
    nullable_text_values, nullable_time_values, text_values, time_values, SqlValue, Statement,
    Timestamp,
};
use crate::string_map::{sorted_keys, sorted_values, StringMap};
use crate::text::search::{ascii_upper, upper_case};

verus! {

/// A message in a channel, as the database keeps it.
#[derive(Debug, PartialEq)]
pub struct Messages {
    pub id: String,
    pub author_id: String,
    pub channel_id: String,
    pub guild_id: String,
    pub content: Option<String>,
    pub created_at: Timestamp,
    pub updated_at: Option<Timestamp>,
    pub message_type: String,
    pub nonce: String,
}

impl Clone for Messages {
    fn clone(&self) -> (r: Self)
        ensures
            r == *self,
    {
        Messages {
            id: self.id.clone(),
            author_id: self.author_id.clone(),
            channel_id: self.channel_id.clone(),
            guild_id: self.guild_id.clone(),
            content: self.content.clone(),
            created_at: self.created_at,
            updated_at: self.updated_at,
            message_type: self.message_type.clone(),
            nonce: self.nonce.clone(),
        }
    }
}

impl Messages {
    /// The statement that fetches the message with an id.
    pub fn find_by_id(id: String) -> (r: Statement)
        ensures
            r.says(find_sql("messages"@, "id"@), seq![SqlValue::Text(id)]),
    {
        find("messages", "id", SqlValue::Text(id))
    }
}

/// Which messages to fetch, in which order, and how many.
#[derive(Debug, PartialEq)]
pub struct MessagesWhereBuilder {
    filter: Filter,
}

impl View for MessagesWhereBuilder {
    type V = FilterView;

    closed spec fn view(&self) -> FilterView {
        self.filter@
    }
}

impl MessagesWhereBuilder {
    /// All messages.
    pub fn new() -> (r: Self)
        ensures
            r@ == FilterView::empty(),
    {
        MessagesWhereBuilder { filter: Filter::new() }
    }

    /// Keeps those whose `id` is `value`.
    pub fn where_id(self, value: String) -> (r: Self)
        ensures
            r@ == self@.compare("id"@, "="@, SqlValue::Text(value)),
    {
        MessagesWhereBuilder { filter: self.filter.compare("id", "=", SqlValue::Text(value)) }
    }

    /// Keeps those whose `id` is one of `values`; keeps all where there are none.
    pub fn where_id_in(self, values: Vec<String>) -> (r: Self)
        ensures
            r@ == self@.one_of(
                "id"@,
                values@.map_values(|v: String| SqlValue::Text(v)),
            ),
    {
        MessagesWhereBuilder { filter: self.filter.one_of("id", text_values(values)) }
    }

    /// Keeps those whose `author_id` is `value`.
    pub fn where_author_id(self, value: String) -> (r: Self)
        ensures
            r@ == self@.compare("author_id"@, "="@, SqlValue::Text(value)),
    {
        MessagesWhereBuilder {
            filter: self.filter.compare("author_id", "=", SqlValue::Text(value)),
        }
    }

    /// Keeps those whose `author_id` is one of `values`; keeps all where there are none.
    pub fn where_author_id_in(self, values: Vec<String>) -> (r: Self)
        ensures
            r@ == self@.one_of(
                "author_id"@,
                values@.map_values(|v: String| SqlValue::Text(v)),
            ),
    {
        MessagesWhereBuilder { filter: self.filter.one_of("author_id", text_values(values)) }
    }

    /// Keeps those whose `channel_id` is `value`.
    pub fn where_channel_id(self, value: String) -> (r: Self)
        ensures
            r@ == self@.compare("channel_id"@, "="@, SqlValue::Text(value)),
    {
        MessagesWhereBuilder {
            filter: self.filter.compare("channel_id", "=", SqlValue::Text(value)),
        }
    }

    /// Keeps those whose `channel_id` is one of `values`; keeps all where there are none.
    pub fn where_channel_id_in(self, values: Vec<String>) -> (r: Self)
        ensures
            r@ == self@.one_of(
                "channel_id"@,
                values@.map_values(|v: String| SqlValue::Text(v)),
            ),
    {
        MessagesWhereBuilder { filter: self.filter.one_of("channel_id", text_values(values)) }
    }

    /// Keeps those whose `guild_id` is `value`.
    pub fn where_guild_id(self, value: String) -> (r: Self)
        ensures
            r@ == self@.compare("guild_id"@, "="@, SqlValue::Text(value)),
    {
        MessagesWhereBuilder { filter: self.filter.compare("guild_id", "=", SqlValue::Text(value)) }
    }

    /// Keeps those whose `guild_id` is one of `values`; keeps all where there are none.
    pub fn where_guild_id_in(self, values: Vec<String>) -> (r: Self)
        ensures
            r@ == self@.one_of(
                "guild_id"@,
                values@.map_values(|v: String| SqlValue::Text(v)),
            ),
    {
        MessagesWhereBuilder { filter: self.filter.one_of("guild_id", text_values(values)) }
    }

    /// Keeps those whose `content` is `value`.
    pub fn where_content(self, value: Option<String>) -> (r: Self)
        ensures
            r@ == self@.compare("content"@, "="@, SqlValue::NullableText(value)),
    {
        MessagesWhereBuilder {
            filter: self.filter.compare("content", "=", SqlValue::NullableText(value)),
        }
    }

    /// Keeps those whose `content` is one of `values`; keeps all where there are none.
    pub fn where_content_in(self, values: Vec<Option<String>>) -> (r: Self)
        ensures
            r@ == self@.one_of(
                "content"@,
                values@.map_values(|v: Option<String>| SqlValue::NullableText(v)),
            ),
    {
        MessagesWhereBuilder { filter: self.filter.one_of("content", nullable_text_values(values)) }
    }

    /// Keeps those without `content`.
    pub fn where_content_is_null(self) -> (r: Self)
        ensures
            r@ == self@.condition("content IS NULL"@),
    {
        MessagesWhereBuilder { filter: self.filter.condition("content IS NULL") }
    }

    /// Keeps those with `content`.
    pub fn where_content_is_not_null(self) -> (r: Self)
        ensures
            r@ == self@.condition("content IS NOT NULL"@),
    {
        MessagesWhereBuilder { filter: self.filter.condition("content IS NOT NULL") }
    }

    /// Keeps those whose `created_at` is `value`.
    pub fn where_created_at(self, value: Timestamp) -> (r: Self)
        ensures
            r@ == self@.compare("created_at"@, "="@, SqlValue::Time(value)),
    {
        MessagesWhereBuilder {
            filter: self.filter.compare("created_at", "=", SqlValue::Time(value)),
        }
    }

    /// Keeps those whose `created_at` is one of `values`; keeps all where there are none.
    pub fn where_created_at_in(self, values: Vec<Timestamp>) -> (r: Self)
        ensures
            r@ == self@.one_of(
                "created_at"@,
                values@.map_values(|v: Timestamp| SqlValue::Time(v)),
            ),
    {
        MessagesWhereBuilder { filter: self.filter.one_of("created_at", time_values(values)) }
    }

    /// Keeps those whose `created_at` is after `value`.
    pub fn where_created_at_gt(self, value: Timestamp) -> (r: Self)
        ensures
            r@ == self@.compare("created_at"@, ">"@, SqlValue::Time(value)),
    {
        MessagesWhereBuilder {
            filter: self.filter.compare("created_at", ">", SqlValue::Time(value)),
        }
    }

    /// Keeps those whose `created_at` is before `value`.
    pub fn where_created_at_lt(self, value: Timestamp) -> (r: Self)
        ensures
            r@ == self@.compare("created_at"@, "<"@, SqlValue::Time(value)),
    {
        MessagesWhereBuilder {
            filter: self.filter.compare("created_at", "<", SqlValue::Time(value)),
        }
    }

    /// Keeps those whose `created_at` is at or after `value`.
    pub fn where_created_at_gte(self, value: Timestamp) -> (r: Self)
        ensures
            r@ == self@.compare("created_at"@, ">="@, SqlValue::Time(value)),
    {
        MessagesWhereBuilder {
            filter: self.filter.compare("created_at", ">=", SqlValue::Time(value)),
        }
    }

    /// Keeps those whose `created_at` is at or before `value`.
    pub fn where_created_at_lte(self, value: Timestamp) -> (r: Self)
        ensures
            r@ == self@.compare("created_at"@, "<="@, SqlValue::Time(value)),
    {
        MessagesWhereBuilder {
            filter: self.filter.compare("created_at", "<=", SqlValue::Time(value)),
        }
    }

    /// Keeps those whose `updated_at` is `value`.
    pub fn where_updated_at(self, value: Option<Timestamp>) -> (r: Self)
        ensures
            r@ == self@.compare("updated_at"@, "="@, SqlValue::NullableTime(value)),
    {
        MessagesWhereBuilder {
            filter: self.filter.compare("updated_at", "=", SqlValue::NullableTime(value)),
        }
    }

    /// Keeps those whose `updated_at` is one of `values`; keeps all where there are none.
    pub fn where_updated_at_in(self, values: Vec<Option<Timestamp>>) -> (r: Self)
        ensures
            r@ == self@.one_of(
                "updated_at"@,
                values@.map_values(|v: Option<Timestamp>| SqlValue::NullableTime(v)),
            ),
    {
        MessagesWhereBuilder {
            filter: self.filter.one_of("updated_at", nullable_time_values(values)),
        }
    }

    /// Keeps those without `updated_at`.
    pub fn where_updated_at_is_null(self) -> (r: Self)
        ensures
            r@ == self@.condition("updated_at IS NULL"@),
    {
        MessagesWhereBuilder { filter: self.filter.condition("updated_at IS NULL") }
    }

    /// Keeps those with `updated_at`.
    pub fn where_updated_at_is_not_null(self) -> (r: Self)
        ensures
            r@ == self@.condition("updated_at IS NOT NULL"@),
    {
        MessagesWhereBuilder { filter: self.filter.condition("updated_at IS NOT NULL") }
    }

    /// Keeps those whose `updated_at` is after `value`.
    pub fn where_updated_at_gt(self, value: Option<Timestamp>) -> (r: Self)
        ensures
            r@ == self@.compare("updated_at"@, ">"@, SqlValue::NullableTime(value)),
    {
        MessagesWhereBuilder {
            filter: self.filter.compare("updated_at", ">", SqlValue::NullableTime(value)),
        }
    }

    /// Keeps those whose `updated_at` is before `value`.
    pub fn where_updated_at_lt(self, value: Option<Timestamp>) -> (r: Self)
        ensures
            r@ == self@.compare("updated_at"@, "<"@, SqlValue::NullableTime(value)),
    {
        MessagesWhereBuilder {
            filter: self.filter.compare("updated_at", "<", SqlValue::NullableTime(value)),
        }
    }

    /// Keeps those whose `updated_at` is at or after `value`.
    pub fn where_updated_at_gte(self, value: Option<Timestamp>) -> (r: Self)
        ensures
            r@ == self@.compare("updated_at"@, ">="@, SqlValue::NullableTime(value)),
    {
        MessagesWhereBuilder {
            filter: self.filter.compare("updated_at", ">=", SqlValue::NullableTime(value)),
        }
    }

    /// Keeps those whose `updated_at` is at or before `value`.
    pub fn where_updated_at_lte(self, value: Option<Timestamp>) -> (r: Self)
        ensures
            r@ == self@.compare("updated_at"@, "<="@, SqlValue::NullableTime(value)),
    {
        MessagesWhereBuilder {
            filter: self.filter.compare("updated_at", "<=", SqlValue::NullableTime(value)),
        }
    }

    /// Keeps those whose `message_type` is `value`.
    pub fn where_message_type(self, value: String) -> (r: Self)
        ensures
            r@ == self@.compare("message_type"@, "="@, SqlValue::Text(value)),
    {
        MessagesWhereBuilder {
            filter: self.filter.compare("message_type", "=", SqlValue::Text(value)),
        }
    }

    /// Keeps those whose `message_type` is one of `values`; keeps all where there are none.
    pub fn where_message_type_in(self, values: Vec<String>) -> (r: Self)
        ensures
            r@ == self@.one_of(
                "message_type"@,
                values@.map_values(|v: String| SqlValue::Text(v)),
            ),
    {
        MessagesWhereBuilder { filter: self.filter.one_of("message_type", text_values(values)) }
    }

    /// Keeps those whose `nonce` is `value`.
    pub fn where_nonce(self, value: String) -> (r: Self)
        ensures
            r@ == self@.compare("nonce"@, "="@, SqlValue::Text(value)),
    {
        MessagesWhereBuilder { filter: self.filter.compare("nonce", "=", SqlValue::Text(value)) }
    }

    /// Keeps those whose `nonce` is one of `values`; keeps all where there are none.
    pub fn where_nonce_in(self, values: Vec<String>) -> (r: Self)
        ensures
            r@ == self@.one_of(
                "nonce"@,
                values@.map_values(|v: String| SqlValue::Text(v)),
            ),
    {
        MessagesWhereBuilder { filter: self.filter.one_of("nonce", text_values(values)) }
    }

    /// Orders by `id`, upwards, after the orders given so far.
    pub fn order_by_id_asc(self) -> (r: Self)
        ensures
            r@ == self@.order("id"@, "ASC"@),
    {
        MessagesWhereBuilder { filter: self.filter.order("id", "ASC") }
    }

    /// Orders by `id`, downwards, after the orders given so far.
    pub fn order_by_id_desc(self) -> (r: Self)
        ensures
            r@ == self@.order("id"@, "DESC"@),
    {
        MessagesWhereBuilder { filter: self.filter.order("id", "DESC") }
    }

    /// Orders by `author_id`, upwards, after the orders given so far.
    pub fn order_by_author_id_asc(self) -> (r: Self)
        ensures
            r@ == self@.order("author_id"@, "ASC"@),
    {
        MessagesWhereBuilder { filter: self.filter.order("author_id", "ASC") }
    }

    /// Orders by `author_id`, downwards, after the orders given so far.
    pub fn order_by_author_id_desc(self) -> (r: Self)
        ensures
            r@ == self@.order("author_id"@, "DESC"@),
    {
        MessagesWhereBuilder { filter: self.filter.order("author_id", "DESC") }
    }

    /// Orders by `channel_id`, upwards, after the orders given so far.
    pub fn order_by_channel_id_asc(self) -> (r: Self)
        ensures
            r@ == self@.order("channel_id"@, "ASC"@),
    {
        MessagesWhereBuilder { filter: self.filter.order("channel_id", "ASC") }
    }

    /// Orders by `channel_id`, downwards, after the orders given so far.
    pub fn order_by_channel_id_desc(self) -> (r: Self)
        ensures
            r@ == self@.order("channel_id"@, "DESC"@),
    {
        MessagesWhereBuilder { filter: self.filter.order("channel_id", "DESC") }
    }

    /// Orders by `guild_id`, upwards, after the orders given so far.
    pub fn order_by_guild_id_asc(self) -> (r: Self)
        ensures
            r@ == self@.order("guild_id"@, "ASC"@),
    {
        MessagesWhereBuilder { filter: self.filter.order("guild_id", "ASC") }
    }

    /// Orders by `guild_id`, downwards, after the orders given so far.
    pub fn order_by_guild_id_desc(self) -> (r: Self)
        ensures
            r@ == self@.order("guild_id"@, "DESC"@),
    {
        MessagesWhereBuilder { filter: self.filter.order("guild_id", "DESC") }
    }

    /// Orders by `content`, upwards, after the orders given so far.
    pub fn order_by_content_asc(self) -> (r: Self)
        ensures
            r@ == self@.order("content"@, "ASC"@),
    {
        MessagesWhereBuilder { filter: self.filter.order("content", "ASC") }
    }

    /// Orders by `content`, downwards, after the orders given so far.
    pub fn order_by_content_desc(self) -> (r: Self)
        ensures
            r@ == self@.order("content"@, "DESC"@),
    {
        MessagesWhereBuilder { filter: self.filter.order("content", "DESC") }
    }

    /// Orders by `created_at`, upwards, after the orders given so far.
    pub fn order_by_created_at_asc(self) -> (r: Self)
        ensures
            r@ == self@.order("created_at"@, "ASC"@),
    {
        MessagesWhereBuilder { filter: self.filter.order("created_at", "ASC") }
    }

    /// Orders by `created_at`, downwards, after the orders given so far.
    pub fn order_by_created_at_desc(self) -> (r: Self)
        ensures
            r@ == self@.order("created_at"@, "DESC"@),
    {
        MessagesWhereBuilder { filter: self.filter.order("created_at", "DESC") }
    }

    /// Orders by `updated_at`, upwards, after the orders given so far.
    pub fn order_by_updated_at_asc(self) -> (r: Self)
        ensures
            r@ == self@.order("updated_at"@, "ASC"@),
    {
        MessagesWhereBuilder { filter: self.filter.order("updated_at", "ASC") }
    }

    /// Orders by `updated_at`, downwards, after the orders given so far.
    pub fn order_by_updated_at_desc(self) -> (r: Self)
        ensures
            r@ == self@.order("updated_at"@, "DESC"@),
    {
        MessagesWhereBuilder { filter: self.filter.order("updated_at", "DESC") }
    }

    /// Orders by `message_type`, upwards, after the orders given so far.
    pub fn order_by_message_type_asc(self) -> (r: Self)
        ensures
            r@ == self@.order("message_type"@, "ASC"@),
    {
        MessagesWhereBuilder { filter: self.filter.order("message_type", "ASC") }
    }

    /// Orders by `message_type`, downwards, after the orders given so far.
    pub fn order_by_message_type_desc(self) -> (r: Self)
        ensures
            r@ == self@.order("message_type"@, "DESC"@),
    {
        MessagesWhereBuilder { filter: self.filter.order("message_type", "DESC") }
    }

    /// Orders by `nonce`, upwards, after the orders given so far.
    pub fn order_by_nonce_asc(self) -> (r: Self)
        ensures
            r@ == self@.order("nonce"@, "ASC"@),
    {
        MessagesWhereBuilder { filter: self.filter.order("nonce", "ASC") }
    }

    /// Orders by `nonce`, downwards, after the orders given so far.
    pub fn order_by_nonce_desc(self) -> (r: Self)
        ensures
            r@ == self@.order("nonce"@, "DESC"@),
    {
        MessagesWhereBuilder { filter: self.filter.order("nonce", "DESC") }
    }

    /// Takes no more than `limit` rows.
    pub fn limit(self, limit: usize) -> (r: Self)
        ensures
            r@ == self@.with_limit(limit),
    {
        MessagesWhereBuilder { filter: self.filter.limit(limit) }
    }

    /// Leaves the first `offset` rows out.
    pub fn offset(self, offset: usize) -> (r: Self)
        ensures
            r@ == self@.with_offset(offset),
    {
        MessagesWhereBuilder { filter: self.filter.offset(offset) }
    }
}

/// A query on the messages.
#[derive(Debug, PartialEq)]
pub struct MessagesQuery {
    filter: Filter,
}

impl View for MessagesQuery {
    type V = FilterView;

    closed spec fn view(&self) -> FilterView {
        self.filter@
    }
}

impl MessagesQuery {
    /// A query on all messages.
    pub fn new() -> (r: Self)
        ensures
            r@ == FilterView::empty(),
    {
        MessagesQuery { filter: Filter::new() }
    }

    /// The query that a builder describes.
    pub fn from_builder(builder: MessagesWhereBuilder) -> (r: Self)
        ensures
            r@ == builder@,
    {
        MessagesQuery { filter: builder.filter }
    }

    /// Takes no more than `limit` rows.
    pub fn limit(self, limit: usize) -> (r: Self)
        ensures
            r@ == self@.with_limit(limit),
    {
        MessagesQuery { filter: self.filter.limit(limit) }
    }

    /// Leaves the first `offset` rows out.
    pub fn offset(self, offset: usize) -> (r: Self)
        ensures
            r@ == self@.with_offset(offset),
    {
        MessagesQuery { filter: self.filter.offset(offset) }
    }

    /// The statement that fetches the rows.
    pub fn select(self) -> (r: Statement)
        ensures
            r.says(self@.select_sql("messages"@), self@.args),
    {
        self.filter.select("messages")
    }

    /// The statement that fetches the first row.
    pub fn first(self) -> (r: Statement)
        ensures
            r.says(self@.with_limit(1).select_sql("messages"@), self@.args),
    {
        self.limit(1).select()
    }

    /// The statement that counts the rows.
    pub fn count(self) -> (r: Statement)
        ensures
            r.says(self@.count_sql("messages"@), self@.args),
    {
        self.filter.count("messages")
    }

    /// The statement that applies an aggregate function to a column.
    pub fn aggregate(self, field: &str, func: &str) -> (r: Statement)
        ensures
            r.says(self@.aggregate_sql("messages"@, field@, upper_case(func@)), self@.args),
            is_ascii_chars(func@) ==> upper_case(func@) == func@.map_values(
                |c: char| ascii_upper(c),
            ),
    {
        let name: String = func.to_uppercase();
        self.filter.aggregate("messages", field, name.as_str())
    }

    /// The statement that sums a column up, with `zero` for no rows.
    pub fn sum(self, field: &str, zero: SqlValue) -> (r: Statement)
        ensures
            r.says(self@.sum_sql("messages"@, field@), self@.args.push(zero)),
    {
        self.filter.sum("messages", field, zero)
    }

    /// The statement that sums a column up as a 64-bit integer.
    pub fn sum_cast_i64(self, field: &str) -> (r: Statement)
        ensures
            r.says(
                self@.sum_cast_sql("messages"@, field@),
                self@.args.push(SqlValue::BigInt(0)),
            ),
    {
        self.filter.sum_cast("messages", field)
    }

    /// The statement that computes the average of a column.
    pub fn avg(self, field: &str) -> (r: Statement)
        ensures
            r.says(self@.aggregate_sql("messages"@, field@, "AVG"@), self@.args),
    {
        proof {
            reveal_strlit("AVG");
            assert("AVG"@.map_values(|c: char| ascii_upper(c)) =~= "AVG"@);
        }
        self.aggregate(field, "AVG")
    }

    /// The statement that computes the least value of a column.
    pub fn min(self, field: &str) -> (r: Statement)
        ensures
            r.says(self@.aggregate_sql("messages"@, field@, "MIN"@), self@.args),
    {
        proof {
            reveal_strlit("MIN");
            assert("MIN"@.map_values(|c: char| ascii_upper(c)) =~= "MIN"@);
        }
        self.aggregate(field, "MIN")
    }

    /// The statement that computes the greatest value of a column.
    pub fn max(self, field: &str) -> (r: Statement)
        ensures
            r.says(self@.aggregate_sql("messages"@, field@, "MAX"@), self@.args),
    {
        proof {
            reveal_strlit("MAX");
            assert("MAX"@.map_values(|c: char| ascii_upper(c)) =~= "MAX"@);
        }
        self.aggregate(field, "MAX")
    }
}

/// A change of some messages.
#[derive(Debug, PartialEq)]
pub struct MessagesUpdate {
    update: Update,
}

impl View for MessagesUpdate {
    type V = UpdateView;

    closed spec fn view(&self) -> UpdateView {
        self.update@
    }
}

impl MessagesUpdate {
    /// A change that sets nothing yet.
    pub fn new() -> (r: Self)
        ensures
            r@ == UpdateView::empty(),
    {
        MessagesUpdate { update: Update::new() }
    }

    /// Keeps the rows whose `id` is `value`.
    pub fn where_id(self, value: String) -> (r: Self)
        ensures
            r@ == self@.filtered(
                self@.filter.compare("id"@, SqlValue::Text(value)),
            ),
    {
        MessagesUpdate { update: self.update.compare("id", SqlValue::Text(value)) }
    }

    /// Adds the fragment `id IN (..)`, to which ` = $n` is appended, and its
    /// values; adds nothing where there are none.
    pub fn where_id_in(self, values: Vec<String>) -> (r: Self)
        ensures
            r@ == self@.filtered(
                self@.filter.one_of(
                    "id"@,
                    values@.map_values(|v: String| SqlValue::Text(v)),
                ),
            ),
    {
        MessagesUpdate { update: self.update.one_of("id", text_values(values)) }
    }

    /// Keeps the rows whose `author_id` is `value`.
    pub fn where_author_id(self, value: String) -> (r: Self)
        ensures
            r@ == self@.filtered(
                self@.filter.compare("author_id"@, SqlValue::Text(value)),
            ),
    {
        MessagesUpdate { update: self.update.compare("author_id", SqlValue::Text(value)) }
    }

    /// Adds the fragment `author_id IN (..)`, to which ` = $n` is appended, and its
    /// values; adds nothing where there are none.
    pub fn where_author_id_in(self, values: Vec<String>) -> (r: Self)
        ensures
            r@ == self@.filtered(
                self@.filter.one_of(
                    "author_id"@,
                    values@.map_values(|v: String| SqlValue::Text(v)),
                ),
            ),
    {
        MessagesUpdate { update: self.update.one_of("author_id", text_values(values)) }
    }

    /// Keeps the rows whose `channel_id` is `value`.
    pub fn where_channel_id(self, value: String) -> (r: Self)
        ensures
            r@ == self@.filtered(
                self@.filter.compare("channel_id"@, SqlValue::Text(value)),
            ),
    {
        MessagesUpdate { update: self.update.compare("channel_id", SqlValue::Text(value)) }
    }

    /// Adds the fragment `channel_id IN (..)`, to which ` = $n` is appended, and its
    /// values; adds nothing where there are none.
    pub fn where_channel_id_in(self, values: Vec<String>) -> (r: Self)
        ensures
            r@ == self@.filtered(
                self@.filter.one_of(
                    "channel_id"@,
                    values@.map_values(|v: String| SqlValue::Text(v)),
                ),
            ),
    {
        MessagesUpdate { update: self.update.one_of("channel_id", text_values(values)) }
    }

    /// Keeps the rows whose `guild_id` is `value`.
    pub fn where_guild_id(self, value: String) -> (r: Self)
        ensures
            r@ == self@.filtered(
                self@.filter.compare("guild_id"@, SqlValue::Text(value)),
            ),
    {
        MessagesUpdate { update: self.update.compare("guild_id", SqlValue::Text(value)) }
    }

    /// Adds the fragment `guild_id IN (..)`, to which ` = $n` is appended, and its
    /// values; adds nothing where there are none.
    pub fn where_guild_id_in(self, values: Vec<String>) -> (r: Self)
        ensures
            r@ == self@.filtered(
                self@.filter.one_of(
                    "guild_id"@,
                    values@.map_values(|v: String| SqlValue::Text(v)),
                ),
            ),
    {
        MessagesUpdate { update: self.update.one_of("guild_id", text_values(values)) }
    }

    /// Keeps the rows whose `content` is `value`.
    pub fn where_content(self, value: Option<String>) -> (r: Self)
        ensures
            r@ == self@.filtered(
                self@.filter.compare("content"@, SqlValue::NullableText(value)),
            ),
    {
        MessagesUpdate { update: self.update.compare("content", SqlValue::NullableText(value)) }
    }

    /// Adds the fragment `content IN (..)`, to which ` = $n` is appended, and its
    /// values; adds nothing where there are none.
    pub fn where_content_in(self, values: Vec<Option<String>>) -> (r: Self)
        ensures
            r@ == self@.filtered(
                self@.filter.one_of(
                    "content"@,
                    values@.map_values(|v: Option<String>| SqlValue::NullableText(v)),
                ),
            ),
    {
        MessagesUpdate { update: self.update.one_of("content", nullable_text_values(values)) }
    }

    /// Adds the fragment for rows without `content`.
    pub fn where_content_is_null(self) -> (r: Self)
        ensures
            r@ == self@.filtered(
                self@.filter.condition("content IS NULL"@),
            ),
    {
        MessagesUpdate { update: self.update.condition("content IS NULL") }
    }

    /// Adds the fragment for rows with `content`.
    pub fn where_content_is_not_null(self) -> (r: Self)
        ensures
            r@ == self@.filtered(
                self@.filter.condition("content IS NOT NULL"@),
            ),
    {
        MessagesUpdate { update: self.update.condition("content IS NOT NULL") }
    }

    /// Keeps the rows whose `created_at` is `value`.
    pub fn where_created_at(self, value: Timestamp) -> (r: Self)
        ensures
            r@ == self@.filtered(
                self@.filter.compare("created_at"@, SqlValue::Time(value)),
            ),
    {
        MessagesUpdate { update: self.update.compare("created_at", SqlValue::Time(value)) }
    }

    /// Adds the fragment `created_at IN (..)`, to which ` = $n` is appended, and its
    /// values; adds nothing where there are none.
    pub fn where_created_at_in(self, values: Vec<Timestamp>) -> (r: Self)
        ensures
            r@ == self@.filtered(
                self@.filter.one_of(
                    "created_at"@,
                    values@.map_values(|v: Timestamp| SqlValue::Time(v)),
                ),
            ),
    {
        MessagesUpdate { update: self.update.one_of("created_at", time_values(values)) }
    }

    /// Adds the fragment `created_at >` and its value.
    pub fn where_created_at_gt(self, value: Timestamp) -> (r: Self)
        ensures
            r@ == self@.filtered(
                self@.filter.compare("created_at >"@, SqlValue::Time(value)),
            ),
    {
        MessagesUpdate { update: self.update.compare("created_at >", SqlValue::Time(value)) }
    }

    /// Adds the fragment `created_at <` and its value.
    pub fn where_created_at_lt(self, value: Timestamp) -> (r: Self)
        ensures
            r@ == self@.filtered(
                self@.filter.compare("created_at <"@, SqlValue::Time(value)),
            ),
    {
        MessagesUpdate { update: self.update.compare("created_at <", SqlValue::Time(value)) }
    }

    /// Adds the fragment `created_at >=` and its value.
    pub fn where_created_at_gte(self, value: Timestamp) -> (r: Self)
        ensures
            r@ == self@.filtered(
                self@.filter.compare("created_at >="@, SqlValue::Time(value)),
            ),
    {
        MessagesUpdate { update: self.update.compare("created_at >=", SqlValue::Time(value)) }
    }

    /// Adds the fragment `created_at <=` and its value.
    pub fn where_created_at_lte(self, value: Timestamp) -> (r: Self)
        ensures
            r@ == self@.filtered(
                self@.filter.compare("created_at <="@, SqlValue::Time(value)),
            ),
    {
        MessagesUpdate { update: self.update.compare("created_at <=", SqlValue::Time(value)) }
    }

    /// Keeps the rows whose `updated_at` is `value`.
    pub fn where_updated_at(self, value: Option<Timestamp>) -> (r: Self)
        ensures
            r@ == self@.filtered(
                self@.filter.compare("updated_at"@, SqlValue::NullableTime(value)),
            ),
    {
        MessagesUpdate { update: self.update.compare("updated_at", SqlValue::NullableTime(value)) }
    }

    /// Adds the fragment `updated_at IN (..)`, to which ` = $n` is appended, and its
    /// values; adds nothing where there are none.
    pub fn where_updated_at_in(self, values: Vec<Option<Timestamp>>) -> (r: Self)
        ensures
            r@ == self@.filtered(
                self@.filter.one_of(
                    "updated_at"@,
                    values@.map_values(|v: Option<Timestamp>| SqlValue::NullableTime(v)),
                ),
            ),
    {
        MessagesUpdate { update: self.update.one_of("updated_at", nullable_time_values(values)) }
    }

    /// Adds the fragment for rows without `updated_at`.
    pub fn where_updated_at_is_null(self) -> (r: Self)
        ensures
            r@ == self@.filtered(
                self@.filter.condition("updated_at IS NULL"@),
            ),
    {
        MessagesUpdate { update: self.update.condition("updated_at IS NULL") }
    }

    /// Adds the fragment for rows with `updated_at`.
    pub fn where_updated_at_is_not_null(self) -> (r: Self)
        ensures
            r@ == self@.filtered(
                self@.filter.condition("updated_at IS NOT NULL"@),
            ),
    {
        MessagesUpdate { update: self.update.condition("updated_at IS NOT NULL") }
    }

    /// Adds the fragment `updated_at >` and its value.
    pub fn where_updated_at_gt(self, value: Option<Timestamp>) -> (r: Self)
        ensures
            r@ == self@.filtered(
                self@.filter.compare("updated_at >"@, SqlValue::NullableTime(value)),
            ),
    {
        MessagesUpdate {
            update: self.update.compare("updated_at >", SqlValue::NullableTime(value)),
        }
    }

    /// Adds the fragment `updated_at <` and its value.
    pub fn where_updated_at_lt(self, value: Option<Timestamp>) -> (r: Self)
        ensures
            r@ == self@.filtered(
                self@.filter.compare("updated_at <"@, SqlValue::NullableTime(value)),
            ),
    {
        MessagesUpdate {
            update: self.update.compare("updated_at <", SqlValue::NullableTime(value)),
        }
    }

    /// Adds the fragment `updated_at >=` and its value.
    pub fn where_updated_at_gte(self, value: Option<Timestamp>) -> (r: Self)
        ensures
            r@ == self@.filtered(
                self@.filter.compare("updated_at >="@, SqlValue::NullableTime(value)),
            ),
    {
        MessagesUpdate {
            update: self.update.compare("updated_at >=", SqlValue::NullableTime(value)),
        }
    }

    /// Adds the fragment `updated_at <=` and its value.
    pub fn where_updated_at_lte(self, value: Option<Timestamp>) -> (r: Self)
        ensures
            r@ == self@.filtered(
                self@.filter.compare("updated_at <="@, SqlValue::NullableTime(value)),
            ),
    {
        MessagesUpdate {
            update: self.update.compare("updated_at <=", SqlValue::NullableTime(value)),
        }
    }

    /// Keeps the rows whose `message_type` is `value`.
    pub fn where_message_type(self, value: String) -> (r: Self)
        ensures
            r@ == self@.filtered(
                self@.filter.compare("message_type"@, SqlValue::Text(value)),
            ),
    {
        MessagesUpdate { update: self.update.compare("message_type", SqlValue::Text(value)) }
    }

    /// Adds the fragment `message_type IN (..)`, to which ` = $n` is appended, and its
    /// values; adds nothing where there are none.
    pub fn where_message_type_in(self, values: Vec<String>) -> (r: Self)
        ensures
            r@ == self@.filtered(
                self@.filter.one_of(
                    "message_type"@,
                    values@.map_values(|v: String| SqlValue::Text(v)),
                ),
            ),
    {
        MessagesUpdate { update: self.update.one_of("message_type", text_values(values)) }
    }

    /// Keeps the rows whose `nonce` is `value`.
    pub fn where_nonce(self, value: String) -> (r: Self)
        ensures
            r@ == self@.filtered(
                self@.filter.compare("nonce"@, SqlValue::Text(value)),
            ),
    {
        MessagesUpdate { update: self.update.compare("nonce", SqlValue::Text(value)) }
    }

    /// Adds the fragment `nonce IN (..)`, to which ` = $n` is appended, and its
    /// values; adds nothing where there are none.
    pub fn where_nonce_in(self, values: Vec<String>) -> (r: Self)
        ensures
            r@ == self@.filtered(
                self@.filter.one_of(
                    "nonce"@,
                    values@.map_values(|v: String| SqlValue::Text(v)),
                ),
            ),
    {
        MessagesUpdate { update: self.update.one_of("nonce", text_values(values)) }
    }

    /// Sets `id`.
    pub fn set_id(self, value: String) -> (r: Self)
        ensures
            r@ == self@.set("id"@, SqlValue::Text(value)),
    {
        MessagesUpdate { update: self.update.set("id", SqlValue::Text(value)) }
    }

    /// Sets `author_id`.
    pub fn set_author_id(self, value: String) -> (r: Self)
        ensures
            r@ == self@.set("author_id"@, SqlValue::Text(value)),
    {
        MessagesUpdate { update: self.update.set("author_id", SqlValue::Text(value)) }
    }

    /// Sets `channel_id`.
    pub fn set_channel_id(self, value: String) -> (r: Self)
        ensures
            r@ == self@.set("channel_id"@, SqlValue::Text(value)),
    {
        MessagesUpdate { update: self.update.set("channel_id", SqlValue::Text(value)) }
    }

    /// Sets `guild_id`.
    pub fn set_guild_id(self, value: String) -> (r: Self)
        ensures
            r@ == self@.set("guild_id"@, SqlValue::Text(value)),
    {
        MessagesUpdate { update: self.update.set("guild_id", SqlValue::Text(value)) }
    }

    /// Sets `content`.
    pub fn set_content(self, value: Option<String>) -> (r: Self)
        ensures
            r@ == self@.set("content"@, SqlValue::NullableText(value)),
    {
        MessagesUpdate { update: self.update.set("content", SqlValue::NullableText(value)) }
    }

    /// Sets `created_at`.
    pub fn set_created_at(self, value: Timestamp) -> (r: Self)
        ensures
            r@ == self@.set("created_at"@, SqlValue::Time(value)),
    {
        MessagesUpdate { update: self.update.set("created_at", SqlValue::Time(value)) }
    }

    /// Sets `updated_at`.
    pub fn set_updated_at(self, value: Option<Timestamp>) -> (r: Self)
        ensures
            r@ == self@.set("updated_at"@, SqlValue::NullableTime(value)),
    {
        MessagesUpdate { update: self.update.set("updated_at", SqlValue::NullableTime(value)) }
    }

    /// Sets `message_type`.
    pub fn set_message_type(self, value: String) -> (r: Self)
        ensures
            r@ == self@.set("message_type"@, SqlValue::Text(value)),
    {
        MessagesUpdate { update: self.update.set("message_type", SqlValue::Text(value)) }
    }

    /// Sets `nonce`.
    pub fn set_nonce(self, value: String) -> (r: Self)
        ensures
            r@ == self@.set("nonce"@, SqlValue::Text(value)),
    {
        MessagesUpdate { update: self.update.set("nonce", SqlValue::Text(value)) }
    }

    /// The statement that makes the change and gives the row back; none where nothing is set.
    pub fn statement(self) -> (r: Result<Statement, BuildError>)
        ensures
            match r {
                Ok(s) => self@.set_columns.len() + self@.steps.len() > 0 && s.says(
                    self@.sql("messages"@),
                    self@.params(),
                ),
                Err(e) => self@.set_columns.len() + self@.steps.len() == 0 && e
                    == BuildError::NoFieldsToUpdate,
            },
    {
        self.update.statement("messages")
    }
}

/// A message to be added, or to be changed where its id is there.
#[derive(Debug, PartialEq)]
pub struct MessagesUpsert {
    upsert: Upsert,
}

impl View for MessagesUpsert {
    type V = UpsertView;

    closed spec fn view(&self) -> UpsertView {
        self.upsert@
    }
}

impl MessagesUpsert {
    /// A row without values.
    pub fn new() -> (r: Self)
        ensures
            r@ == UpsertView::empty(),
    {
        MessagesUpsert { upsert: Upsert::new() }
    }

    /// Sets the id to look for.
    pub fn where_id(self, value: String) -> (r: Self)
        ensures
            r@ == self@.key("id"@, SqlValue::Text(value)),
    {
        MessagesUpsert { upsert: self.upsert.key("id", SqlValue::Text(value)) }
    }

    /// Sets `id`.
    pub fn set_id(self, value: String) -> (r: Self)
        ensures
            r@ == self@.set("id"@, SqlValue::Text(value)),
    {
        MessagesUpsert { upsert: self.upsert.set("id", SqlValue::Text(value)) }
    }

    /// Sets `author_id`.
    pub fn set_author_id(self, value: String) -> (r: Self)
        ensures
            r@ == self@.set("author_id"@, SqlValue::Text(value)),
    {
        MessagesUpsert { upsert: self.upsert.set("author_id", SqlValue::Text(value)) }
    }

    /// Sets `channel_id`.
    pub fn set_channel_id(self, value: String) -> (r: Self)
        ensures
            r@ == self@.set("channel_id"@, SqlValue::Text(value)),
    {
        MessagesUpsert { upsert: self.upsert.set("channel_id", SqlValue::Text(value)) }
    }

    /// Sets `guild_id`.
    pub fn set_guild_id(self, value: String) -> (r: Self)
        ensures
            r@ == self@.set("guild_id"@, SqlValue::Text(value)),
    {
        MessagesUpsert { upsert: self.upsert.set("guild_id", SqlValue::Text(value)) }
    }

    /// Sets `content`.
    pub fn set_content(self, value: Option<String>) -> (r: Self)
        ensures
            r@ == self@.set("content"@, SqlValue::NullableText(value)),
    {
        MessagesUpsert { upsert: self.upsert.set("content", SqlValue::NullableText(value)) }
    }

    /// Sets `created_at`.
    pub fn set_created_at(self, value: Timestamp) -> (r: Self)
        ensures
            r@ == self@.set("created_at"@, SqlValue::Time(value)),
    {
        MessagesUpsert { upsert: self.upsert.set("created_at", SqlValue::Time(value)) }
    }

    /// Sets `updated_at`.
    pub fn set_updated_at(self, value: Option<Timestamp>) -> (r: Self)
        ensures
            r@ == self@.set("updated_at"@, SqlValue::NullableTime(value)),
    {
        MessagesUpsert { upsert: self.upsert.set("updated_at", SqlValue::NullableTime(value)) }
    }

    /// Sets `message_type`.
    pub fn set_message_type(self, value: String) -> (r: Self)
        ensures
            r@ == self@.set("message_type"@, SqlValue::Text(value)),
    {
        MessagesUpsert { upsert: self.upsert.set("message_type", SqlValue::Text(value)) }
    }

    /// Sets `nonce`.
    pub fn set_nonce(self, value: String) -> (r: Self)
        ensures
            r@ == self@.set("nonce"@, SqlValue::Text(value)),
    {
        MessagesUpsert { upsert: self.upsert.set("nonce", SqlValue::Text(value)) }
    }

    /// The statement that adds or changes the row and gives it back. It needs an id.
    pub fn statement(self) -> (r: Result<Statement, BuildError>)
        ensures
            match r {
                Ok(s) => self@.row().contains_key("id"@) && s.says(
                    self@.sql("messages"@, "id"@),
                    sorted_values(self@.row()),
                ),
                Err(e) => e matches BuildError::MissingPrimaryKey(f) && f@ == "id"@
                    && !self@.row().contains_key("id"@),
            },
    {
        self.upsert.statement("messages", "id")
    }
}

/// The columns that a new message needs.
pub open spec fn required_of_message() -> Seq<Seq<char>> {
    seq!["id"@, "author_id"@, "channel_id"@, "guild_id"@]
}

/// A message to be added, unless one that meets some conditions is there.
#[derive(Debug, PartialEq)]
pub struct MessagesCreate {
    create: Create,
}

impl View for MessagesCreate {
    type V = CreateView;

    closed spec fn view(&self) -> CreateView {
        self.create@
    }
}

impl MessagesCreate {
    /// A row without values.
    pub fn new() -> (r: Self)
        ensures
            r@ == CreateView::empty(),
    {
        MessagesCreate { create: Create::new() }
    }

    /// Keeps the rows whose `id` is `value`.
    pub fn where_id(self, value: String) -> (r: Self)
        ensures
            r@ == self@.filtered(
                self@.filter.compare("id"@, SqlValue::Text(value)),
            ),
    {
        MessagesCreate { create: self.create.compare("id", SqlValue::Text(value)) }
    }

    /// Adds the fragment `id IN (..)`, to which ` = $n` is appended, and its
    /// values; adds nothing where there are none.
    pub fn where_id_in(self, values: Vec<String>) -> (r: Self)
        ensures
            r@ == self@.filtered(
                self@.filter.one_of(
                    "id"@,
                    values@.map_values(|v: String| SqlValue::Text(v)),
                ),
            ),
    {
        MessagesCreate { create: self.create.one_of("id", text_values(values)) }
    }

    /// Keeps the rows whose `author_id` is `value`.
    pub fn where_author_id(self, value: String) -> (r: Self)
        ensures
            r@ == self@.filtered(
                self@.filter.compare("author_id"@, SqlValue::Text(value)),
            ),
    {
        MessagesCreate { create: self.create.compare("author_id", SqlValue::Text(value)) }
    }

    /// Adds the fragment `author_id IN (..)`, to which ` = $n` is appended, and its
    /// values; adds nothing where there are none.
    pub fn where_author_id_in(self, values: Vec<String>) -> (r: Self)
        ensures
            r@ == self@.filtered(
                self@.filter.one_of(
                    "author_id"@,
                    values@.map_values(|v: String| SqlValue::Text(v)),
                ),
            ),
    {
        MessagesCreate { create: self.create.one_of("author_id", text_values(values)) }
    }

    /// Keeps the rows whose `channel_id` is `value`.
    pub fn where_channel_id(self, value: String) -> (r: Self)
        ensures
            r@ == self@.filtered(
                self@.filter.compare("channel_id"@, SqlValue::Text(value)),
            ),
    {
        MessagesCreate { create: self.create.compare("channel_id", SqlValue::Text(value)) }
    }

    /// Adds the fragment `channel_id IN (..)`, to which ` = $n` is appended, and its
    /// values; adds nothing where there are none.
    pub fn where_channel_id_in(self, values: Vec<String>) -> (r: Self)
        ensures
            r@ == self@.filtered(
                self@.filter.one_of(
                    "channel_id"@,
                    values@.map_values(|v: String| SqlValue::Text(v)),
                ),
            ),
    {
        MessagesCreate { create: self.create.one_of("channel_id", text_values(values)) }
    }

    /// Keeps the rows whose `guild_id` is `value`.
    pub fn where_guild_id(self, value: String) -> (r: Self)
        ensures
            r@ == self@.filtered(
                self@.filter.compare("guild_id"@, SqlValue::Text(value)),
            ),
    {
        MessagesCreate { create: self.create.compare("guild_id", SqlValue::Text(value)) }
    }

    /// Adds the fragment `guild_id IN (..)`, to which ` = $n` is appended, and its
    /// values; adds nothing where there are none.
    pub fn where_guild_id_in(self, values: Vec<String>) -> (r: Self)
        ensures
            r@ == self@.filtered(
                self@.filter.one_of(
                    "guild_id"@,
                    values@.map_values(|v: String| SqlValue::Text(v)),
                ),
            ),
    {
        MessagesCreate { create: self.create.one_of("guild_id", text_values(values)) }
    }

    /// Keeps the rows whose `content` is `value`.
    pub fn where_content(self, value: Option<String>) -> (r: Self)
        ensures
            r@ == self@.filtered(
                self@.filter.compare("content"@, SqlValue::NullableText(value)),
            ),
    {
        MessagesCreate { create: self.create.compare("content", SqlValue::NullableText(value)) }
    }

    /// Adds the fragment `content IN (..)`, to which ` = $n` is appended, and its
    /// values; adds nothing where there are none.
    pub fn where_content_in(self, values: Vec<Option<String>>) -> (r: Self)
        ensures
            r@ == self@.filtered(
                self@.filter.one_of(
                    "content"@,
                    values@.map_values(|v: Option<String>| SqlValue::NullableText(v)),
                ),
            ),
    {
        MessagesCreate { create: self.create.one_of("content", nullable_text_values(values)) }
    }

    /// Adds the fragment for rows without `content`.
    pub fn where_content_is_null(self) -> (r: Self)
        ensures
            r@ == self@.filtered(
                self@.filter.condition("content IS NULL"@),
            ),
    {
        MessagesCreate { create: self.create.condition("content IS NULL") }
    }

    /// Adds the fragment for rows with `content`.
    pub fn where_content_is_not_null(self) -> (r: Self)
        ensures
            r@ == self@.filtered(
                self@.filter.condition("content IS NOT NULL"@),
            ),
    {
        MessagesCreate { create: self.create.condition("content IS NOT NULL") }
    }

    /// Keeps the rows whose `created_at` is `value`.
    pub fn where_created_at(self, value: Timestamp) -> (r: Self)
        ensures
            r@ == self@.filtered(
                self@.filter.compare("created_at"@, SqlValue::Time(value)),
            ),
    {
        MessagesCreate { create: self.create.compare("created_at", SqlValue::Time(value)) }
    }

    /// Adds the fragment `created_at IN (..)`, to which ` = $n` is appended, and its
    /// values; adds nothing where there are none.
    pub fn where_created_at_in(self, values: Vec<Timestamp>) -> (r: Self)
        ensures
            r@ == self@.filtered(
                self@.filter.one_of(
                    "created_at"@,
                    values@.map_values(|v: Timestamp| SqlValue::Time(v)),
                ),
            ),
    {
        MessagesCreate { create: self.create.one_of("created_at", time_values(values)) }
    }

    /// Adds the fragment `created_at >` and its value.
    pub fn where_created_at_gt(self, value: Timestamp) -> (r: Self)
        ensures
            r@ == self@.filtered(
                self@.filter.compare("created_at >"@, SqlValue::Time(value)),
            ),
    {
        MessagesCreate { create: self.create.compare("created_at >", SqlValue::Time(value)) }
    }

    /// Adds the fragment `created_at <` and its value.
    pub fn where_created_at_lt(self, value: Timestamp) -> (r: Self)
        ensures
            r@ == self@.filtered(
                self@.filter.compare("created_at <"@, SqlValue::Time(value)),
            ),
    {
        MessagesCreate { create: self.create.compare("created_at <", SqlValue::Time(value)) }
    }

    /// Adds the fragment `created_at >=` and its value.
    pub fn where_created_at_gte(self, value: Timestamp) -> (r: Self)
        ensures
            r@ == self@.filtered(
                self@.filter.compare("created_at >="@, SqlValue::Time(value)),
            ),
    {
        MessagesCreate { create: self.create.compare("created_at >=", SqlValue::Time(value)) }
    }

    /// Adds the fragment `created_at <=` and its value.
    pub fn where_created_at_lte(self, value: Timestamp) -> (r: Self)
        ensures
            r@ == self@.filtered(
                self@.filter.compare("created_at <="@, SqlValue::Time(value)),
            ),
    {
        MessagesCreate { create: self.create.compare("created_at <=", SqlValue::Time(value)) }
    }

    /// Keeps the rows whose `updated_at` is `value`.
    pub fn where_updated_at(self, value: Option<Timestamp>) -> (r: Self)
        ensures
            r@ == self@.filtered(
                self@.filter.compare("updated_at"@, SqlValue::NullableTime(value)),
            ),
    {
        MessagesCreate { create: self.create.compare("updated_at", SqlValue::NullableTime(value)) }
    }

    /// Adds the fragment `updated_at IN (..)`, to which ` = $n` is appended, and its
    /// values; adds nothing where there are none.
    pub fn where_updated_at_in(self, values: Vec<Option<Timestamp>>) -> (r: Self)
        ensures
            r@ == self@.filtered(
                self@.filter.one_of(
                    "updated_at"@,
                    values@.map_values(|v: Option<Timestamp>| SqlValue::NullableTime(v)),
                ),
            ),
    {
        MessagesCreate { create: self.create.one_of("updated_at", nullable_time_values(values)) }
    }

    /// Adds the fragment for rows without `updated_at`.
    pub fn where_updated_at_is_null(self) -> (r: Self)
        ensures
            r@ == self@.filtered(
                self@.filter.condition("updated_at IS NULL"@),
            ),
    {
        MessagesCreate { create: self.create.condition("updated_at IS NULL") }
    }

    /// Adds the fragment for rows with `updated_at`.
    pub fn where_updated_at_is_not_null(self) -> (r: Self)
        ensures
            r@ == self@.filtered(
                self@.filter.condition("updated_at IS NOT NULL"@),
            ),
    {
        MessagesCreate { create: self.create.condition("updated_at IS NOT NULL") }
    }

    /// Adds the fragment `updated_at >` and its value.
    pub fn where_updated_at_gt(self, value: Option<Timestamp>) -> (r: Self)
        ensures
            r@ == self@.filtered(
                self@.filter.compare("updated_at >"@, SqlValue::NullableTime(value)),
            ),
    {
        MessagesCreate {
            create: self.create.compare("updated_at >", SqlValue::NullableTime(value)),
        }
    }

    /// Adds the fragment `updated_at <` and its value.
    pub fn where_updated_at_lt(self, value: Option<Timestamp>) -> (r: Self)
        ensures
            r@ == self@.filtered(
                self@.filter.compare("updated_at <"@, SqlValue::NullableTime(value)),
            ),
    {
        MessagesCreate {
            create: self.create.compare("updated_at <", SqlValue::NullableTime(value)),
        }
    }

    /// Adds the fragment `updated_at >=` and its value.
    pub fn where_updated_at_gte(self, value: Option<Timestamp>) -> (r: Self)
        ensures
            r@ == self@.filtered(
                self@.filter.compare("updated_at >="@, SqlValue::NullableTime(value)),
            ),
    {
        MessagesCreate {
            create: self.create.compare("updated_at >=", SqlValue::NullableTime(value)),
        }
    }

    /// Adds the fragment `updated_at <=` and its value.
    pub fn where_updated_at_lte(self, value: Option<Timestamp>) -> (r: Self)
        ensures
            r@ == self@.filtered(
                self@.filter.compare("updated_at <="@, SqlValue::NullableTime(value)),
            ),
    {
        MessagesCreate {
            create: self.create.compare("updated_at <=", SqlValue::NullableTime(value)),
        }
    }

    /// Keeps the rows whose `message_type` is `value`.
    pub fn where_message_type(self, value: String) -> (r: Self)
        ensures
            r@ == self@.filtered(
                self@.filter.compare("message_type"@, SqlValue::Text(value)),
            ),
    {
        MessagesCreate { create: self.create.compare("message_type", SqlValue::Text(value)) }
    }

    /// Adds the fragment `message_type IN (..)`, to which ` = $n` is appended, and its
    /// values; adds nothing where there are none.
    pub fn where_message_type_in(self, values: Vec<String>) -> (r: Self)
        ensures
            r@ == self@.filtered(
                self@.filter.one_of(
                    "message_type"@,
                    values@.map_values(|v: String| SqlValue::Text(v)),
                ),
            ),
    {
        MessagesCreate { create: self.create.one_of("message_type", text_values(values)) }
    }

    /// Keeps the rows whose `nonce` is `value`.
    pub fn where_nonce(self, value: String) -> (r: Self)
        ensures
            r@ == self@.filtered(
                self@.filter.compare("nonce"@, SqlValue::Text(value)),
            ),
    {
        MessagesCreate { create: self.create.compare("nonce", SqlValue::Text(value)) }
    }

    /// Adds the fragment `nonce IN (..)`, to which ` = $n` is appended, and its
    /// values; adds nothing where there are none.
    pub fn where_nonce_in(self, values: Vec<String>) -> (r: Self)
        ensures
            r@ == self@.filtered(
                self@.filter.one_of(
                    "nonce"@,
                    values@.map_values(|v: String| SqlValue::Text(v)),
                ),
            ),
    {
        MessagesCreate { create: self.create.one_of("nonce", text_values(values)) }
    }

    /// Sets `id`.
    pub fn set_id(self, value: String) -> (r: Self)
        ensures
            r@ == self@.set("id"@, SqlValue::Text(value)),
    {
        MessagesCreate { create: self.create.set("id", SqlValue::Text(value)) }
    }

    /// Sets `author_id`.
    pub fn set_author_id(self, value: String) -> (r: Self)
        ensures
            r@ == self@.set("author_id"@, SqlValue::Text(value)),
    {
        MessagesCreate { create: self.create.set("author_id", SqlValue::Text(value)) }
    }

    /// Sets `channel_id`.
    pub fn set_channel_id(self, value: String) -> (r: Self)
        ensures
            r@ == self@.set("channel_id"@, SqlValue::Text(value)),
    {
        MessagesCreate { create: self.create.set("channel_id", SqlValue::Text(value)) }
    }

    /// Sets `guild_id`.
    pub fn set_guild_id(self, value: String) -> (r: Self)
        ensures
            r@ == self@.set("guild_id"@, SqlValue::Text(value)),
    {
        MessagesCreate { create: self.create.set("guild_id", SqlValue::Text(value)) }
    }

    /// Sets `content`.
    pub fn set_content(self, value: Option<String>) -> (r: Self)
        ensures
            r@ == self@.set("content"@, SqlValue::NullableText(value)),
    {
        MessagesCreate { create: self.create.set("content", SqlValue::NullableText(value)) }
    }

    /// Sets `created_at`.
    pub fn set_created_at(self, value: Timestamp) -> (r: Self)
        ensures
            r@ == self@.set("created_at"@, SqlValue::Time(value)),
    {
        MessagesCreate { create: self.create.set("created_at", SqlValue::Time(value)) }
    }

    /// Sets `updated_at`.
    pub fn set_updated_at(self, value: Option<Timestamp>) -> (r: Self)
        ensures
            r@ == self@.set("updated_at"@, SqlValue::NullableTime(value)),
    {
        MessagesCreate { create: self.create.set("updated_at", SqlValue::NullableTime(value)) }
    }

    /// Sets `message_type`.
    pub fn set_message_type(self, value: String) -> (r: Self)
        ensures
            r@ == self@.set("message_type"@, SqlValue::Text(value)),
    {
        MessagesCreate { create: self.create.set("message_type", SqlValue::Text(value)) }
    }

    /// Sets `nonce`.
    pub fn set_nonce(self, value: String) -> (r: Self)
        ensures
            r@ == self@.set("nonce"@, SqlValue::Text(value)),
    {
        MessagesCreate { create: self.create.set("nonce", SqlValue::Text(value)) }
    }

    /// The statements that create the row; none where a column that it needs has no value.
    pub fn plan(self) -> (r: Result<CreatePlan, BuildError>)
        ensures
            match r {
                Ok(p) => first_missing(required_of_message(), self@.values) is None
                    && self@.planned("messages"@, p),
                Err(e) => e matches BuildError::MissingField(f) && first_missing(
                    required_of_message(),
                    self@.values,
                ) == Some(f@),
            },
    {
        let required: Vec<&'static str> = vec!["id", "author_id", "channel_id", "guild_id"];
        assert(slices(required@) =~= required_of_message());
        self.create.plan("messages", required)
    }
}

/// Which messages to remove.
#[derive(Debug, PartialEq)]
pub struct MessagesDelete {
    filter: Fragments,
}

impl View for MessagesDelete {
    type V = FragmentsView;

    closed spec fn view(&self) -> FragmentsView {
        self.filter@
    }
}

impl MessagesDelete {
    /// No condition yet.
    pub fn new() -> (r: Self)
        ensures
            r@ == FragmentsView::empty(),
    {
        MessagesDelete { filter: Fragments::new() }
    }

    /// Keeps the rows whose `id` is `value`.
    pub fn where_id(self, value: String) -> (r: Self)
        ensures
            r@ == self@.compare("id"@, SqlValue::Text(value)),
    {
        MessagesDelete { filter: self.filter.compare("id", SqlValue::Text(value)) }
    }

    /// Adds the fragment `id IN (..)`, to which ` = $n` is appended, and its
    /// values; adds nothing where there are none.
    pub fn where_id_in(self, values: Vec<String>) -> (r: Self)
        ensures
            r@ == self@.one_of(
                "id"@,
                values@.map_values(|v: String| SqlValue::Text(v)),
            ),
    {
        MessagesDelete { filter: self.filter.one_of("id", text_values(values)) }
    }

    /// Keeps the rows whose `author_id` is `value`.
    pub fn where_author_id(self, value: String) -> (r: Self)
        ensures
            r@ == self@.compare("author_id"@, SqlValue::Text(value)),
    {
        MessagesDelete { filter: self.filter.compare("author_id", SqlValue::Text(value)) }
    }

    /// Adds the fragment `author_id IN (..)`, to which ` = $n` is appended, and its
    /// values; adds nothing where there are none.
    pub fn where_author_id_in(self, values: Vec<String>) -> (r: Self)
        ensures
            r@ == self@.one_of(
                "author_id"@,
                values@.map_values(|v: String| SqlValue::Text(v)),
            ),
    {
        MessagesDelete { filter: self.filter.one_of("author_id", text_values(values)) }
    }

    /// Keeps the rows whose `channel_id` is `value`.
    pub fn where_channel_id(self, value: String) -> (r: Self)
        ensures
            r@ == self@.compare("channel_id"@, SqlValue::Text(value)),
    {
        MessagesDelete { filter: self.filter.compare("channel_id", SqlValue::Text(value)) }
    }

    /// Adds the fragment `channel_id IN (..)`, to which ` = $n` is appended, and its
    /// values; adds nothing where there are none.
    pub fn where_channel_id_in(self, values: Vec<String>) -> (r: Self)
        ensures
            r@ == self@.one_of(
                "channel_id"@,
                values@.map_values(|v: String| SqlValue::Text(v)),
            ),
    {
        MessagesDelete { filter: self.filter.one_of("channel_id", text_values(values)) }
    }

    /// Keeps the rows whose `guild_id` is `value`.
    pub fn where_guild_id(self, value: String) -> (r: Self)
        ensures
            r@ == self@.compare("guild_id"@, SqlValue::Text(value)),
    {
        MessagesDelete { filter: self.filter.compare("guild_id", SqlValue::Text(value)) }
    }

    /// Adds the fragment `guild_id IN (..)`, to which ` = $n` is appended, and its
    /// values; adds nothing where there are none.
    pub fn where_guild_id_in(self, values: Vec<String>) -> (r: Self)
        ensures
            r@ == self@.one_of(
                "guild_id"@,
                values@.map_values(|v: String| SqlValue::Text(v)),
            ),
    {
        MessagesDelete { filter: self.filter.one_of("guild_id", text_values(values)) }
    }

    /// Keeps the rows whose `content` is `value`.
    pub fn where_content(self, value: Option<String>) -> (r: Self)
        ensures
            r@ == self@.compare("content"@, SqlValue::NullableText(value)),
    {
        MessagesDelete { filter: self.filter.compare("content", SqlValue::NullableText(value)) }
    }

    /// Adds the fragment `content IN (..)`, to which ` = $n` is appended, and its
    /// values; adds nothing where there are none.
    pub fn where_content_in(self, values: Vec<Option<String>>) -> (r: Self)
        ensures
            r@ == self@.one_of(
                "content"@,
                values@.map_values(|v: Option<String>| SqlValue::NullableText(v)),
            ),
    {
        MessagesDelete { filter: self.filter.one_of("content", nullable_text_values(values)) }
    }

    /// Adds the fragment for rows without `content`.
    pub fn where_content_is_null(self) -> (r: Self)
        ensures
            r@ == self@.condition("content IS NULL"@),
    {
        MessagesDelete { filter: self.filter.condition("content IS NULL") }
    }

    /// Adds the fragment for rows with `content`.
    pub fn where_content_is_not_null(self) -> (r: Self)
        ensures
            r@ == self@.condition("content IS NOT NULL"@),
    {
        MessagesDelete { filter: self.filter.condition("content IS NOT NULL") }
    }

    /// Keeps the rows whose `created_at` is `value`.
    pub fn where_created_at(self, value: Timestamp) -> (r: Self)
        ensures
            r@ == self@.compare("created_at"@, SqlValue::Time(value)),
    {
        MessagesDelete { filter: self.filter.compare("created_at", SqlValue::Time(value)) }
    }

    /// Adds the fragment `created_at IN (..)`, to which ` = $n` is appended, and its
    /// values; adds nothing where there are none.
    pub fn where_created_at_in(self, values: Vec<Timestamp>) -> (r: Self)
        ensures
            r@ == self@.one_of(
                "created_at"@,
                values@.map_values(|v: Timestamp| SqlValue::Time(v)),
            ),
    {
        MessagesDelete { filter: self.filter.one_of("created_at", time_values(values)) }
    }

    /// Adds the fragment `created_at >` and its value.
    pub fn where_created_at_gt(self, value: Timestamp) -> (r: Self)
        ensures
            r@ == self@.compare("created_at >"@, SqlValue::Time(value)),
    {
        MessagesDelete { filter: self.filter.compare("created_at >", SqlValue::Time(value)) }
    }

    /// Adds the fragment `created_at <` and its value.
    pub fn where_created_at_lt(self, value: Timestamp) -> (r: Self)
        ensures
            r@ == self@.compare("created_at <"@, SqlValue::Time(value)),
    {
        MessagesDelete { filter: self.filter.compare("created_at <", SqlValue::Time(value)) }
    }

    /// Adds the fragment `created_at >=` and its value.
    pub fn where_created_at_gte(self, value: Timestamp) -> (r: Self)
        ensures
            r@ == self@.compare("created_at >="@, SqlValue::Time(value)),
    {
        MessagesDelete { filter: self.filter.compare("created_at >=", SqlValue::Time(value)) }
    }

    /// Adds the fragment `created_at <=` and its value.
    pub fn where_created_at_lte(self, value: Timestamp) -> (r: Self)
        ensures
            r@ == self@.compare("created_at <="@, SqlValue::Time(value)),
    {
        MessagesDelete { filter: self.filter.compare("created_at <=", SqlValue::Time(value)) }
    }

    /// Keeps the rows whose `updated_at` is `value`.
    pub fn where_updated_at(self, value: Option<Timestamp>) -> (r: Self)
        ensures
            r@ == self@.compare("updated_at"@, SqlValue::NullableTime(value)),
    {
        MessagesDelete { filter: self.filter.compare("updated_at", SqlValue::NullableTime(value)) }
    }

    /// Adds the fragment `updated_at IN (..)`, to which ` = $n` is appended, and its
    /// values; adds nothing where there are none.
    pub fn where_updated_at_in(self, values: Vec<Option<Timestamp>>) -> (r: Self)
        ensures
            r@ == self@.one_of(
                "updated_at"@,
                values@.map_values(|v: Option<Timestamp>| SqlValue::NullableTime(v)),
            ),
    {
        MessagesDelete { filter: self.filter.one_of("updated_at", nullable_time_values(values)) }
    }

    /// Adds the fragment for rows without `updated_at`.
    pub fn where_updated_at_is_null(self) -> (r: Self)
        ensures
            r@ == self@.condition("updated_at IS NULL"@),
    {
        MessagesDelete { filter: self.filter.condition("updated_at IS NULL") }
    }

    /// Adds the fragment for rows with `updated_at`.
    pub fn where_updated_at_is_not_null(self) -> (r: Self)
        ensures
            r@ == self@.condition("updated_at IS NOT NULL"@),
    {
        MessagesDelete { filter: self.filter.condition("updated_at IS NOT NULL") }
    }

    /// Adds the fragment `updated_at >` and its value.
    pub fn where_updated_at_gt(self, value: Option<Timestamp>) -> (r: Self)
        ensures
            r@ == self@.compare("updated_at >"@, SqlValue::NullableTime(value)),
    {
        MessagesDelete {
            filter: self.filter.compare("updated_at >", SqlValue::NullableTime(value)),
        }
    }

    /// Adds the fragment `updated_at <` and its value.
    pub fn where_updated_at_lt(self, value: Option<Timestamp>) -> (r: Self)
        ensures
            r@ == self@.compare("updated_at <"@, SqlValue::NullableTime(value)),
    {
        MessagesDelete {
            filter: self.filter.compare("updated_at <", SqlValue::NullableTime(value)),
        }
    }

    /// Adds the fragment `updated_at >=` and its value.
    pub fn where_updated_at_gte(self, value: Option<Timestamp>) -> (r: Self)
        ensures
            r@ == self@.compare("updated_at >="@, SqlValue::NullableTime(value)),
    {
        MessagesDelete {
            filter: self.filter.compare("updated_at >=", SqlValue::NullableTime(value)),
        }
    }

    /// Adds the fragment `updated_at <=` and its value.
    pub fn where_updated_at_lte(self, value: Option<Timestamp>) -> (r: Self)
        ensures
            r@ == self@.compare("updated_at <="@, SqlValue::NullableTime(value)),
    {
        MessagesDelete {
            filter: self.filter.compare("updated_at <=", SqlValue::NullableTime(value)),
        }
    }

    /// Keeps the rows whose `message_type` is `value`.
    pub fn where_message_type(self, value: String) -> (r: Self)
        ensures
            r@ == self@.compare("message_type"@, SqlValue::Text(value)),
    {
        MessagesDelete { filter: self.filter.compare("message_type", SqlValue::Text(value)) }
    }

    /// Adds the fragment `message_type IN (..)`, to which ` = $n` is appended, and its
    /// values; adds nothing where there are none.
    pub fn where_message_type_in(self, values: Vec<String>) -> (r: Self)
        ensures
            r@ == self@.one_of(
                "message_type"@,
                values@.map_values(|v: String| SqlValue::Text(v)),
            ),
    {
        MessagesDelete { filter: self.filter.one_of("message_type", text_values(values)) }
    }

    /// Keeps the rows whose `nonce` is `value`.
    pub fn where_nonce(self, value: String) -> (r: Self)
        ensures
            r@ == self@.compare("nonce"@, SqlValue::Text(value)),
    {
        MessagesDelete { filter: self.filter.compare("nonce", SqlValue::Text(value)) }
    }

    /// Adds the fragment `nonce IN (..)`, to which ` = $n` is appended, and its
    /// values; adds nothing where there are none.
    pub fn where_nonce_in(self, values: Vec<String>) -> (r: Self)
        ensures
            r@ == self@.one_of(
                "nonce"@,
                values@.map_values(|v: String| SqlValue::Text(v)),
            ),
    {
        MessagesDelete { filter: self.filter.one_of("nonce", text_values(values)) }
    }

    /// The statement that removes the rows; none without a condition.
    pub fn statement(self) -> (r: Result<Statement, BuildError>)
        ensures
            match r {
                Ok(s) => self@.fragments.len() > 0 && s.says(
                    self@.delete_sql("messages"@),
                    self@.args,
                ),
                Err(e) => self@.fragments.len() == 0 && e == BuildError::DeleteWithoutWhere,
            },
    {
        self.filter.delete("messages")
    }
}

/// The statements on the table of messages.
#[derive(Clone, Copy, Debug, PartialEq, Eq, Structural)]
pub struct MessagesAccessor;

/// Whether a builder is what `f` makes of the builder for all messages.
pub open spec fn built_by_message_filter<F: FnOnce(MessagesWhereBuilder) -> MessagesWhereBuilder>(
    f: F,
    builder: MessagesWhereBuilder,
) -> bool {
    exists|start: MessagesWhereBuilder|
        start@ == FilterView::empty() && #[trigger] call_ensures(f, (start,), builder)
}

impl MessagesAccessor {
    /// The table.
    pub fn new() -> (r: Self)
        ensures
            r == (MessagesAccessor),
    {
        MessagesAccessor
    }

    /// Fetches the rows that a filter keeps.
    pub fn find_many<F: FnOnce(MessagesWhereBuilder) -> MessagesWhereBuilder>(
        &self,
        f: F,
    ) -> (r: Statement)
        requires
            forall|start: MessagesWhereBuilder|
                start@ == FilterView::empty() ==> call_requires(f, (start,)),
        ensures
            exists|b: MessagesWhereBuilder|
                #[trigger] built_by_message_filter(f, b) && r.says(
                    b@.select_sql("messages"@),
                    b@.args,
                ),
    {
        let builder: MessagesWhereBuilder = f(MessagesWhereBuilder::new());
        assert(built_by_message_filter(f, builder));
        MessagesQuery::from_builder(builder).select()
    }

    /// Fetches the first row that a filter keeps.
    pub fn find_first<F: FnOnce(MessagesWhereBuilder) -> MessagesWhereBuilder>(
        &self,
        f: F,
    ) -> (r: Statement)
        requires
            forall|start: MessagesWhereBuilder|
                start@ == FilterView::empty() ==> call_requires(f, (start,)),
        ensures
            exists|b: MessagesWhereBuilder|
                #[trigger] built_by_message_filter(f, b) && r.says(
                    b@.with_limit(1).select_sql("messages"@),
                    b@.args,
                ),
    {
        let builder: MessagesWhereBuilder = f(MessagesWhereBuilder::new());
        assert(built_by_message_filter(f, builder));
        MessagesQuery::from_builder(builder).first()
    }

    /// Sums a column up over the rows that a filter keeps.
    pub fn sum<F: FnOnce(MessagesWhereBuilder) -> MessagesWhereBuilder>(
        &self,
        f: F,
        field: &str,
        zero: SqlValue,
    ) -> (r: Statement)
        requires
            forall|start: MessagesWhereBuilder|
                start@ == FilterView::empty() ==> call_requires(f, (start,)),
        ensures
            exists|b: MessagesWhereBuilder|
                #[trigger] built_by_message_filter(f, b) && r.says(
                    b@.sum_sql("messages"@, field@),
                    b@.args.push(zero),
                ),
    {
        let builder: MessagesWhereBuilder = f(MessagesWhereBuilder::new());
        assert(built_by_message_filter(f, builder));
        MessagesQuery::from_builder(builder).sum(field, zero)
    }

    /// Counts the rows that a filter keeps.
    pub fn count<F: FnOnce(MessagesWhereBuilder) -> MessagesWhereBuilder>(
        &self,
        f: F,
    ) -> (r: Statement)
        requires
            forall|start: MessagesWhereBuilder|
                start@ == FilterView::empty() ==> call_requires(f, (start,)),
        ensures
            exists|b: MessagesWhereBuilder|
                #[trigger] built_by_message_filter(f, b) && r.says(
                    b@.count_sql("messages"@),
                    b@.args,
                ),
    {
        let builder: MessagesWhereBuilder = f(MessagesWhereBuilder::new());
        assert(built_by_message_filter(f, builder));
        MessagesQuery::from_builder(builder).count()
    }

    /// Computes the average of a column over the rows that a filter keeps.
    pub fn avg<F: FnOnce(MessagesWhereBuilder) -> MessagesWhereBuilder>(
        &self,
        f: F,
        field: &str,
    ) -> (r: Statement)
        requires
            forall|start: MessagesWhereBuilder|
                start@ == FilterView::empty() ==> call_requires(f, (start,)),
        ensures
            exists|b: MessagesWhereBuilder|
                #[trigger] built_by_message_filter(f, b) && r.says(
                    b@.aggregate_sql("messages"@, field@, "AVG"@),
                    b@.args,
                ),
    {
        let builder: MessagesWhereBuilder = f(MessagesWhereBuilder::new());
        assert(built_by_message_filter(f, builder));
        MessagesQuery::from_builder(builder).avg(field)
    }

    /// Computes the least value of a column over the rows that a filter keeps.
    pub fn min<F: FnOnce(MessagesWhereBuilder) -> MessagesWhereBuilder>(
        &self,
        f: F,
        field: &str,
    ) -> (r: Statement)
        requires
            forall|start: MessagesWhereBuilder|
                start@ == FilterView::empty() ==> call_requires(f, (start,)),
        ensures
            exists|b: MessagesWhereBuilder|
                #[trigger] built_by_message_filter(f, b) && r.says(
                    b@.aggregate_sql("messages"@, field@, "MIN"@),
                    b@.args,
                ),
    {
        let builder: MessagesWhereBuilder = f(MessagesWhereBuilder::new());
        assert(built_by_message_filter(f, builder));
        MessagesQuery::from_builder(builder).min(field)
    }

    /// Computes the greatest value of a column over the rows that a filter keeps.
    pub fn max<F: FnOnce(MessagesWhereBuilder) -> MessagesWhereBuilder>(
        &self,
        f: F,
        field: &str,
    ) -> (r: Statement)
        requires
            forall|start: MessagesWhereBuilder|
                start@ == FilterView::empty() ==> call_requires(f, (start,)),
        ensures
            exists|b: MessagesWhereBuilder|
                #[trigger] built_by_message_filter(f, b) && r.says(
                    b@.aggregate_sql("messages"@, field@, "MAX"@),
                    b@.args,
                ),
    {
        let builder: MessagesWhereBuilder = f(MessagesWhereBuilder::new());
        assert(built_by_message_filter(f, builder));
        MessagesQuery::from_builder(builder).max(field)
    }

    /// The change that `f` describes.
    pub fn update<F: FnOnce(MessagesUpdate) -> MessagesUpdate>(&self, f: F) -> (r: MessagesUpdate)
        requires
            forall|start: MessagesUpdate|
                start@ == UpdateView::empty() ==> call_requires(f, (start,)),
        ensures
            exists|start: MessagesUpdate|
                start@ == UpdateView::empty() && #[trigger] call_ensures(f, (start,), r),
    {
        f(MessagesUpdate::new())
    }

    /// The row to be added or changed that `f` describes.
    pub fn upsert<F: FnOnce(MessagesUpsert) -> MessagesUpsert>(&self, f: F) -> (r: MessagesUpsert)
        requires
            forall|start: MessagesUpsert|
                start@ == UpsertView::empty() ==> call_requires(f, (start,)),
        ensures
            exists|start: MessagesUpsert|
                start@ == UpsertView::empty() && #[trigger] call_ensures(f, (start,), r),
    {
        f(MessagesUpsert::new())
    }

    /// The row to be added that `f` describes.
    pub fn create<F: FnOnce(MessagesCreate) -> MessagesCreate>(&self, f: F) -> (r: MessagesCreate)
        requires
            forall|start: MessagesCreate|
                start@ == CreateView::empty() ==> call_requires(f, (start,)),
        ensures
            exists|start: MessagesCreate|
                start@ == CreateView::empty() && #[trigger] call_ensures(f, (start,), r),
    {
        f(MessagesCreate::new())
    }

    /// The rows to be removed that `f` describes.
    pub fn delete<F: FnOnce(MessagesDelete) -> MessagesDelete>(&self, f: F) -> (r: MessagesDelete)
        requires
            forall|start: MessagesDelete|
                start@ == FragmentsView::empty() ==> call_requires(f, (start,)),
        ensures
            exists|start: MessagesDelete|
                start@ == FragmentsView::empty() && #[trigger] call_ensures(f, (start,), r),
    {
        f(MessagesDelete::new())
    }

    /// Adds several rows at once, with the columns of the first; nothing where there are none.
    pub fn create_many(&self, records: Vec<StringMap<SqlValue>>) -> (r: Option<Statement>)
        ensures
            match r {
                Some(s) => records@.len() > 0 && s.says(
                    insert_many_sql("messages"@, row_maps(records@)),
                    rows_values(sorted_keys(records@[0]@), row_maps(records@)),
                ),
                None => records@.len() == 0,
            },
    {
        insert_many("messages", records)
    }

    /// Fetches the row with an id.
    pub fn find_unique(&self, id: String) -> (r: Statement)
        ensures
            r.says(find_sql("messages"@, "id"@), seq![SqlValue::Text(id)]),
    {
        Messages::find_by_id(id)
    }

    /// Fetches the row with an id, or adds it with nothing but the id.
    pub fn find_or_create(&self, id: String) -> (r: FindOrCreate)
        ensures
            r.insert.says(claim_sql("messages"@, "id"@), seq![SqlValue::Text(id)]),
            r.select.says(find_sql("messages"@, "id"@), seq![SqlValue::Text(id)]),
    {
        FindOrCreate::new("messages", "id", SqlValue::Text(id))
    }
}

} // verus!
