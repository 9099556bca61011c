//! The table of accounts: its rows, and the statements that read and change them.

use vstd::prelude::*;
use vstd::utf8::is_ascii_chars;
use crate::orm::change::{BuildError, Fragments, FragmentsView, Update, UpdateView};
use crate::orm::filter::{Filter, FilterView};
use crate::orm::insert::{
    claim_sql, find, find_sql, first_missing, insert_many, insert_many_sql, row_maps, rows_values,
    slices, Create, CreatePlan, CreateView, FindOrCreate, Upsert, UpsertView,
};
use crate::orm::value::{bool_values, text_values, SqlValue, Statement};
use crate::string_map::{sorted_keys, sorted_values, StringMap};
use crate::text::search::{ascii_upper, upper_case};

verus! {

/// An account, as the database keeps it.
#[derive(Debug, PartialEq)]
pub struct Accounts {
    pub id: String,
    pub email: String,
    pub password: String,
    pub user_id: String,
    pub email_verified: bool,
    pub locale: String,
    pub token: String,
}

impl Clone for Accounts {
    fn clone(&self) -> (r: Self)
        ensures
            r == *self,
    {
        Accounts {
            id: self.id.clone(),
            email: self.email.clone(),
            password: self.password.clone(),
            user_id: self.user_id.clone(),
            email_verified: self.email_verified,
            locale: self.locale.clone(),
            token: self.token.clone(),
        }
    }
}

impl Accounts {
    /// The statement that fetches the account with an id.
    pub fn find_by_id(id: String) -> (r: Statement)
        ensures
            r.says(find_sql("accounts"@, "id"@), seq![SqlValue::Text(id)]),
    {
        find("accounts", "id", SqlValue::Text(id))
    }
}

/// Which accounts to fetch, in which order, and how many.
#[derive(Debug, PartialEq)]
pub struct AccountsWhereBuilder {
    filter: Filter,
}

impl View for AccountsWhereBuilder {
    type V = FilterView;

    closed spec fn view(&self) -> FilterView {
        self.filter@
    }
}

impl AccountsWhereBuilder {
    /// All accounts.
    pub fn new() -> (r: Self)
        ensures
            r@ == FilterView::empty(),
    {
        AccountsWhereBuilder { filter: Filter::new() }
    }

    /// Keeps those whose `id` is `value`.
    pub fn where_id(self, value: String) -> (r: Self)
        ensures
            r@ == self@.compare("id"@, "="@, SqlValue::Text(value)),
    {
        AccountsWhereBuilder { filter: self.filter.compare("id", "=", SqlValue::Text(value)) }
    }

    /// Keeps those whose `id` is one of `values`; keeps all where there are none.
    pub fn where_id_in(self, values: Vec<String>) -> (r: Self)
        ensures
            r@ == self@.one_of(
                "id"@,
                values@.map_values(|v: String| SqlValue::Text(v)),
            ),
    {
        AccountsWhereBuilder { filter: self.filter.one_of("id", text_values(values)) }
    }

    /// Keeps those whose `email` is `value`.
    pub fn where_email(self, value: String) -> (r: Self)
        ensures
            r@ == self@.compare("email"@, "="@, SqlValue::Text(value)),
    {
        AccountsWhereBuilder { filter: self.filter.compare("email", "=", SqlValue::Text(value)) }
    }

    /// Keeps those whose `email` is one of `values`; keeps all where there are none.
    pub fn where_email_in(self, values: Vec<String>) -> (r: Self)
        ensures
            r@ == self@.one_of(
                "email"@,
                values@.map_values(|v: String| SqlValue::Text(v)),
            ),
    {
        AccountsWhereBuilder { filter: self.filter.one_of("email", text_values(values)) }
    }

    /// Keeps those whose `password` is `value`.
    pub fn where_password(self, value: String) -> (r: Self)
        ensures
            r@ == self@.compare("password"@, "="@, SqlValue::Text(value)),
    {
        AccountsWhereBuilder { filter: self.filter.compare("password", "=", SqlValue::Text(value)) }
    }

    /// Keeps those whose `password` is one of `values`; keeps all where there are none.
    pub fn where_password_in(self, values: Vec<String>) -> (r: Self)
        ensures
            r@ == self@.one_of(
                "password"@,
                values@.map_values(|v: String| SqlValue::Text(v)),
            ),
    {
        AccountsWhereBuilder { filter: self.filter.one_of("password", text_values(values)) }
    }

    /// Keeps those whose `user_id` is `value`.
    pub fn where_user_id(self, value: String) -> (r: Self)
        ensures
            r@ == self@.compare("user_id"@, "="@, SqlValue::Text(value)),
    {
        AccountsWhereBuilder { filter: self.filter.compare("user_id", "=", SqlValue::Text(value)) }
    }

    /// Keeps those whose `user_id` is one of `values`; keeps all where there are none.
    pub fn where_user_id_in(self, values: Vec<String>) -> (r: Self)
        ensures
            r@ == self@.one_of(
                "user_id"@,
                values@.map_values(|v: String| SqlValue::Text(v)),
            ),
    {
        AccountsWhereBuilder { filter: self.filter.one_of("user_id", text_values(values)) }
    }

    /// Keeps those whose `email_verified` is `value`.
    pub fn where_email_verified(self, value: bool) -> (r: Self)
        ensures
            r@ == self@.compare("email_verified"@, "="@, SqlValue::Bool(value)),
    {
        AccountsWhereBuilder {
            filter: self.filter.compare("email_verified", "=", SqlValue::Bool(value)),
        }
    }

    /// Keeps those whose `email_verified` is one of `values`; keeps all where there are none.
    pub fn where_email_verified_in(self, values: Vec<bool>) -> (r: Self)
        ensures
            r@ == self@.one_of(
                "email_verified"@,
                values@.map_values(|v: bool| SqlValue::Bool(v)),
            ),
    {
        AccountsWhereBuilder { filter: self.filter.one_of("email_verified", bool_values(values)) }
    }

    /// Keeps those whose `locale` is `value`.
    pub fn where_locale(self, value: String) -> (r: Self)
        ensures
            r@ == self@.compare("locale"@, "="@, SqlValue::Text(value)),
    {
        AccountsWhereBuilder { filter: self.filter.compare("locale", "=", SqlValue::Text(value)) }
    }

    /// Keeps those whose `locale` is one of `values`; keeps all where there are none.
    pub fn where_locale_in(self, values: Vec<String>) -> (r: Self)
        ensures
            r@ == self@.one_of(
                "locale"@,
                values@.map_values(|v: String| SqlValue::Text(v)),
            ),
    {
        AccountsWhereBuilder { filter: self.filter.one_of("locale", text_values(values)) }
    }

    /// Keeps those whose `token` is `value`.
    pub fn where_token(self, value: String) -> (r: Self)
        ensures
            r@ == self@.compare("token"@, "="@, SqlValue::Text(value)),
    {
        AccountsWhereBuilder { filter: self.filter.compare("token", "=", SqlValue::Text(value)) }
    }

    /// Keeps those whose `token` is one of `values`; keeps all where there are none.
    pub fn where_token_in(self, values: Vec<String>) -> (r: Self)
        ensures
            r@ == self@.one_of(
                "token"@,
                values@.map_values(|v: String| SqlValue::Text(v)),
            ),
    {
        AccountsWhereBuilder { filter: self.filter.one_of("token", text_values(values)) }
    }

    /// Orders by `id`, upwards, after the orders given so far.
    pub fn order_by_id_asc(self) -> (r: Self)
        ensures
            r@ == self@.order("id"@, "ASC"@),
    {
        AccountsWhereBuilder { filter: self.filter.order("id", "ASC") }
    }

    /// Orders by `id`, downwards, after the orders given so far.
    pub fn order_by_id_desc(self) -> (r: Self)
        ensures
            r@ == self@.order("id"@, "DESC"@),
    {
        AccountsWhereBuilder { filter: self.filter.order("id", "DESC") }
    }

    /// Orders by `email`, upwards, after the orders given so far.
    pub fn order_by_email_asc(self) -> (r: Self)
        ensures
            r@ == self@.order("email"@, "ASC"@),
    {
        AccountsWhereBuilder { filter: self.filter.order("email", "ASC") }
    }

    /// Orders by `email`, downwards, after the orders given so far.
    pub fn order_by_email_desc(self) -> (r: Self)
        ensures
            r@ == self@.order("email"@, "DESC"@),
    {
        AccountsWhereBuilder { filter: self.filter.order("email", "DESC") }
    }

    /// Orders by `password`, upwards, after the orders given so far.
    pub fn order_by_password_asc(self) -> (r: Self)
        ensures
            r@ == self@.order("password"@, "ASC"@),
    {
        AccountsWhereBuilder { filter: self.filter.order("password", "ASC") }
    }

    /// Orders by `password`, downwards, after the orders given so far.
    pub fn order_by_password_desc(self) -> (r: Self)
        ensures
            r@ == self@.order("password"@, "DESC"@),
    {
        AccountsWhereBuilder { filter: self.filter.order("password", "DESC") }
    }

    /// Orders by `user_id`, upwards, after the orders given so far.
    pub fn order_by_user_id_asc(self) -> (r: Self)
        ensures
            r@ == self@.order("user_id"@, "ASC"@),
    {
        AccountsWhereBuilder { filter: self.filter.order("user_id", "ASC") }
    }

    /// Orders by `user_id`, downwards, after the orders given so far.
    pub fn order_by_user_id_desc(self) -> (r: Self)
        ensures
            r@ == self@.order("user_id"@, "DESC"@),
    {
        AccountsWhereBuilder { filter: self.filter.order("user_id", "DESC") }
    }

    /// Orders by `email_verified`, upwards, after the orders given so far.
    pub fn order_by_email_verified_asc(self) -> (r: Self)
        ensures
            r@ == self@.order("email_verified"@, "ASC"@),
    {
        AccountsWhereBuilder { filter: self.filter.order("email_verified", "ASC") }
    }

    /// Orders by `email_verified`, downwards, after the orders given so far.
    pub fn order_by_email_verified_desc(self) -> (r: Self)
        ensures
            r@ == self@.order("email_verified"@, "DESC"@),
    {
        AccountsWhereBuilder { filter: self.filter.order("email_verified", "DESC") }
    }

    /// Orders by `locale`, upwards, after the orders given so far.
    pub fn order_by_locale_asc(self) -> (r: Self)
        ensures
            r@ == self@.order("locale"@, "ASC"@),
    {
        AccountsWhereBuilder { filter: self.filter.order("locale", "ASC") }
    }

    /// Orders by `locale`, downwards, after the orders given so far.
    pub fn order_by_locale_desc(self) -> (r: Self)
        ensures
            r@ == self@.order("locale"@, "DESC"@),
    {
        AccountsWhereBuilder { filter: self.filter.order("locale", "DESC") }
    }

    /// Orders by `token`, upwards, after the orders given so far.
    pub fn order_by_token_asc(self) -> (r: Self)
        ensures
            r@ == self@.order("token"@, "ASC"@),
    {
        AccountsWhereBuilder { filter: self.filter.order("token", "ASC") }
    }

    /// Orders by `token`, downwards, after the orders given so far.
    pub fn order_by_token_desc(self) -> (r: Self)
        ensures
            r@ == self@.order("token"@, "DESC"@),
    {
        AccountsWhereBuilder { filter: self.filter.order("token", "DESC") }
    }

    /// Takes no more than `limit` rows.
    pub fn limit(self, limit: usize) -> (r: Self)
        ensures
            r@ == self@.with_limit(limit),
    {
        AccountsWhereBuilder { filter: self.filter.limit(limit) }
    }

    /// Leaves the first `offset` rows out.
    pub fn offset(self, offset: usize) -> (r: Self)
        ensures
            r@ == self@.with_offset(offset),
    {
        AccountsWhereBuilder { filter: self.filter.offset(offset) }
    }
}

/// A query on the accounts.
#[derive(Debug, PartialEq)]
pub struct AccountsQuery {
    filter: Filter,
}

impl View for AccountsQuery {
    type V = FilterView;

    closed spec fn view(&self) -> FilterView {
        self.filter@
    }
}

impl AccountsQuery {
    /// A query on all accounts.
    pub fn new() -> (r: Self)
        ensures
            r@ == FilterView::empty(),
    {
        AccountsQuery { filter: Filter::new() }
    }

    /// The query that a builder describes.
    pub fn from_builder(builder: AccountsWhereBuilder) -> (r: Self)
        ensures
            r@ == builder@,
    {
        AccountsQuery { filter: builder.filter }
    }

    /// Takes no more than `limit` rows.
    pub fn limit(self, limit: usize) -> (r: Self)
        ensures
            r@ == self@.with_limit(limit),
    {
        AccountsQuery { filter: self.filter.limit(limit) }
    }

    /// Leaves the first `offset` rows out.
    pub fn offset(self, offset: usize) -> (r: Self)
        ensures
            r@ == self@.with_offset(offset),
    {
        AccountsQuery { filter: self.filter.offset(offset) }
    }

    /// The statement that fetches the rows.
    pub fn select(self) -> (r: Statement)
        ensures
            r.says(self@.select_sql("accounts"@), self@.args),
    {
        self.filter.select("accounts")
    }

    /// The statement that fetches the first row.
    pub fn first(self) -> (r: Statement)
        ensures
            r.says(self@.with_limit(1).select_sql("accounts"@), self@.args),
    {
        self.limit(1).select()
    }

    /// The statement that counts the rows.
    pub fn count(self) -> (r: Statement)
        ensures
            r.says(self@.count_sql("accounts"@), self@.args),
    {
        self.filter.count("accounts")
    }

    /// The statement that applies an aggregate function to a column.
    pub fn aggregate(self, field: &str, func: &str) -> (r: Statement)
        ensures
            r.says(self@.aggregate_sql("accounts"@, field@, upper_case(func@)), self@.args),
            is_ascii_chars(func@) ==> upper_case(func@) == func@.map_values(
                |c: char| ascii_upper(c),
            ),
    {
        let name: String = func.to_uppercase();
        self.filter.aggregate("accounts", field, name.as_str())
    }

    /// The statement that sums a column up, with `zero` for no rows.
    pub fn sum(self, field: &str, zero: SqlValue) -> (r: Statement)
        ensures
            r.says(self@.sum_sql("accounts"@, field@), self@.args.push(zero)),
    {
        self.filter.sum("accounts", field, zero)
    }

    /// The statement that sums a column up as a 64-bit integer.
    pub fn sum_cast_i64(self, field: &str) -> (r: Statement)
        ensures
            r.says(
                self@.sum_cast_sql("accounts"@, field@),
                self@.args.push(SqlValue::BigInt(0)),
            ),
    {
        self.filter.sum_cast("accounts", field)
    }

    /// The statement that computes the average of a column.
    pub fn avg(self, field: &str) -> (r: Statement)
        ensures
            r.says(self@.aggregate_sql("accounts"@, field@, "AVG"@), self@.args),
    {
        proof {
            reveal_strlit("AVG");
            assert("AVG"@.map_values(|c: char| ascii_upper(c)) =~= "AVG"@);
        }
        self.aggregate(field, "AVG")
    }

    /// The statement that computes the least value of a column.
    pub fn min(self, field: &str) -> (r: Statement)
        ensures
            r.says(self@.aggregate_sql("accounts"@, field@, "MIN"@), self@.args),
    {
        proof {
            reveal_strlit("MIN");
            assert("MIN"@.map_values(|c: char| ascii_upper(c)) =~= "MIN"@);
        }
        self.aggregate(field, "MIN")
    }

    /// The statement that computes the greatest value of a column.
    pub fn max(self, field: &str) -> (r: Statement)
        ensures
            r.says(self@.aggregate_sql("accounts"@, field@, "MAX"@), self@.args),
    {
        proof {
            reveal_strlit("MAX");
            assert("MAX"@.map_values(|c: char| ascii_upper(c)) =~= "MAX"@);
        }
        self.aggregate(field, "MAX")
    }
}

/// A change of some accounts.
#[derive(Debug, PartialEq)]
pub struct AccountsUpdate {
    update: Update,
}

impl View for AccountsUpdate {
    type V = UpdateView;

    closed spec fn view(&self) -> UpdateView {
        self.update@
    }
}

impl AccountsUpdate {
    /// A change that sets nothing yet.
    pub fn new() -> (r: Self)
        ensures
            r@ == UpdateView::empty(),
    {
        AccountsUpdate { update: Update::new() }
    }

    /// Keeps the rows whose `id` is `value`.
    pub fn where_id(self, value: String) -> (r: Self)
        ensures
            r@ == self@.filtered(
                self@.filter.compare("id"@, SqlValue::Text(value)),
            ),
    {
        AccountsUpdate { update: self.update.compare("id", SqlValue::Text(value)) }
    }

    /// Adds the fragment `id IN (..)`, to which ` = $n` is appended, and its
    /// values; adds nothing where there are none.
    pub fn where_id_in(self, values: Vec<String>) -> (r: Self)
        ensures
            r@ == self@.filtered(
                self@.filter.one_of(
                    "id"@,
                    values@.map_values(|v: String| SqlValue::Text(v)),
                ),
            ),
    {
        AccountsUpdate { update: self.update.one_of("id", text_values(values)) }
    }

    /// Keeps the rows whose `email` is `value`.
    pub fn where_email(self, value: String) -> (r: Self)
        ensures
            r@ == self@.filtered(
                self@.filter.compare("email"@, SqlValue::Text(value)),
            ),
    {
        AccountsUpdate { update: self.update.compare("email", SqlValue::Text(value)) }
    }

    /// Adds the fragment `email IN (..)`, to which ` = $n` is appended, and its
    /// values; adds nothing where there are none.
    pub fn where_email_in(self, values: Vec<String>) -> (r: Self)
        ensures
            r@ == self@.filtered(
                self@.filter.one_of(
                    "email"@,
                    values@.map_values(|v: String| SqlValue::Text(v)),
                ),
            ),
    {
        AccountsUpdate { update: self.update.one_of("email", text_values(values)) }
    }

    /// Keeps the rows whose `password` is `value`.
    pub fn where_password(self, value: String) -> (r: Self)
        ensures
            r@ == self@.filtered(
                self@.filter.compare("password"@, SqlValue::Text(value)),
            ),
    {
        AccountsUpdate { update: self.update.compare("password", SqlValue::Text(value)) }
    }

    /// Adds the fragment `password IN (..)`, to which ` = $n` is appended, and its
    /// values; adds nothing where there are none.
    pub fn where_password_in(self, values: Vec<String>) -> (r: Self)
        ensures
            r@ == self@.filtered(
                self@.filter.one_of(
                    "password"@,
                    values@.map_values(|v: String| SqlValue::Text(v)),
                ),
            ),
    {
        AccountsUpdate { update: self.update.one_of("password", text_values(values)) }
    }

    /// Keeps the rows whose `user_id` is `value`.
    pub fn where_user_id(self, value: String) -> (r: Self)
        ensures
            r@ == self@.filtered(
                self@.filter.compare("user_id"@, SqlValue::Text(value)),
            ),
    {
        AccountsUpdate { update: self.update.compare("user_id", SqlValue::Text(value)) }
    }

    /// Adds the fragment `user_id IN (..)`, to which ` = $n` is appended, and its
    /// values; adds nothing where there are none.
    pub fn where_user_id_in(self, values: Vec<String>) -> (r: Self)
        ensures
            r@ == self@.filtered(
                self@.filter.one_of(
                    "user_id"@,
                    values@.map_values(|v: String| SqlValue::Text(v)),
                ),
            ),
    {
        AccountsUpdate { update: self.update.one_of("user_id", text_values(values)) }
    }

    /// Keeps the rows whose `email_verified` is `value`.
    pub fn where_email_verified(self, value: bool) -> (r: Self)
        ensures
            r@ == self@.filtered(
                self@.filter.compare("email_verified"@, SqlValue::Bool(value)),
            ),
    {
        AccountsUpdate { update: self.update.compare("email_verified", SqlValue::Bool(value)) }
    }

    /// Adds the fragment `email_verified IN (..)`, to which ` = $n` is appended, and its
    /// values; adds nothing where there are none.
    pub fn where_email_verified_in(self, values: Vec<bool>) -> (r: Self)
        ensures
            r@ == self@.filtered(
                self@.filter.one_of(
                    "email_verified"@,
                    values@.map_values(|v: bool| SqlValue::Bool(v)),
                ),
            ),
    {
        AccountsUpdate { update: self.update.one_of("email_verified", bool_values(values)) }
    }

    /// Keeps the rows whose `locale` is `value`.
    pub fn where_locale(self, value: String) -> (r: Self)
        ensures
            r@ == self@.filtered(
                self@.filter.compare("locale"@, SqlValue::Text(value)),
            ),
    {
        AccountsUpdate { update: self.update.compare("locale", SqlValue::Text(value)) }
    }

    /// Adds the fragment `locale IN (..)`, to which ` = $n` is appended, and its
    /// values; adds nothing where there are none.
    pub fn where_locale_in(self, values: Vec<String>) -> (r: Self)
        ensures
            r@ == self@.filtered(
                self@.filter.one_of(
                    "locale"@,
                    values@.map_values(|v: String| SqlValue::Text(v)),
                ),
            ),
    {
        AccountsUpdate { update: self.update.one_of("locale", text_values(values)) }
    }

    /// Keeps the rows whose `token` is `value`.
    pub fn where_token(self, value: String) -> (r: Self)
        ensures
            r@ == self@.filtered(
                self@.filter.compare("token"@, SqlValue::Text(value)),
            ),
    {
        AccountsUpdate { update: self.update.compare("token", SqlValue::Text(value)) }
    }

    /// Adds the fragment `token IN (..)`, to which ` = $n` is appended, and its
    /// values; adds nothing where there are none.
    pub fn where_token_in(self, values: Vec<String>) -> (r: Self)
        ensures
            r@ == self@.filtered(
                self@.filter.one_of(
                    "token"@,
                    values@.map_values(|v: String| SqlValue::Text(v)),
                ),
            ),
    {
        AccountsUpdate { update: self.update.one_of("token", text_values(values)) }
    }

    /// Sets `id`.
    pub fn set_id(self, value: String) -> (r: Self)
        ensures
            r@ == self@.set("id"@, SqlValue::Text(value)),
    {
        AccountsUpdate { update: self.update.set("id", SqlValue::Text(value)) }
    }

    /// Sets `email`.
    pub fn set_email(self, value: String) -> (r: Self)
        ensures
            r@ == self@.set("email"@, SqlValue::Text(value)),
    {
        AccountsUpdate { update: self.update.set("email", SqlValue::Text(value)) }
    }

    /// Sets `password`.
    pub fn set_password(self, value: String) -> (r: Self)
        ensures
            r@ == self@.set("password"@, SqlValue::Text(value)),
    {
        AccountsUpdate { update: self.update.set("password", SqlValue::Text(value)) }
    }

    /// Sets `user_id`.
    pub fn set_user_id(self, value: String) -> (r: Self)
        ensures
            r@ == self@.set("user_id"@, SqlValue::Text(value)),
    {
        AccountsUpdate { update: self.update.set("user_id", SqlValue::Text(value)) }
    }

    /// Sets `email_verified`.
    pub fn set_email_verified(self, value: bool) -> (r: Self)
        ensures
            r@ == self@.set("email_verified"@, SqlValue::Bool(value)),
    {
        AccountsUpdate { update: self.update.set("email_verified", SqlValue::Bool(value)) }
    }

    /// Sets `locale`.
    pub fn set_locale(self, value: String) -> (r: Self)
        ensures
            r@ == self@.set("locale"@, SqlValue::Text(value)),
    {
        AccountsUpdate { update: self.update.set("locale", SqlValue::Text(value)) }
    }

    /// Sets `token`.
    pub fn set_token(self, value: String) -> (r: Self)
        ensures
            r@ == self@.set("token"@, SqlValue::Text(value)),
    {
        AccountsUpdate { update: self.update.set("token", SqlValue::Text(value)) }
    }

    /// The statement that makes the change and gives the row back; none where nothing is set.
    pub fn statement(self) -> (r: Result<Statement, BuildError>)
        ensures
            match r {
                Ok(s) => self@.set_columns.len() + self@.steps.len() > 0 && s.says(
                    self@.sql("accounts"@),
                    self@.params(),
                ),
                Err(e) => self@.set_columns.len() + self@.steps.len() == 0 && e
                    == BuildError::NoFieldsToUpdate,
            },
    {
        self.update.statement("accounts")
    }
}

/// A account to be added, or to be changed where its id is there.
#[derive(Debug, PartialEq)]
pub struct AccountsUpsert {
    upsert: Upsert,
}

impl View for AccountsUpsert {
    type V = UpsertView;

    closed spec fn view(&self) -> UpsertView {
        self.upsert@
    }
}

impl AccountsUpsert {
    /// A row without values.
    pub fn new() -> (r: Self)
        ensures
            r@ == UpsertView::empty(),
    {
        AccountsUpsert { upsert: Upsert::new() }
    }

    /// Sets the id to look for.
    pub fn where_id(self, value: String) -> (r: Self)
        ensures
            r@ == self@.key("id"@, SqlValue::Text(value)),
    {
        AccountsUpsert { upsert: self.upsert.key("id", SqlValue::Text(value)) }
    }

    /// Sets `id`.
    pub fn set_id(self, value: String) -> (r: Self)
        ensures
            r@ == self@.set("id"@, SqlValue::Text(value)),
    {
        AccountsUpsert { upsert: self.upsert.set("id", SqlValue::Text(value)) }
    }

    /// Sets `email`.
    pub fn set_email(self, value: String) -> (r: Self)
        ensures
            r@ == self@.set("email"@, SqlValue::Text(value)),
    {
        AccountsUpsert { upsert: self.upsert.set("email", SqlValue::Text(value)) }
    }

    /// Sets `password`.
    pub fn set_password(self, value: String) -> (r: Self)
        ensures
            r@ == self@.set("password"@, SqlValue::Text(value)),
    {
        AccountsUpsert { upsert: self.upsert.set("password", SqlValue::Text(value)) }
    }

    /// Sets `user_id`.
    pub fn set_user_id(self, value: String) -> (r: Self)
        ensures
            r@ == self@.set("user_id"@, SqlValue::Text(value)),
    {
        AccountsUpsert { upsert: self.upsert.set("user_id", SqlValue::Text(value)) }
    }

    /// Sets `email_verified`.
    pub fn set_email_verified(self, value: bool) -> (r: Self)
        ensures
            r@ == self@.set("email_verified"@, SqlValue::Bool(value)),
    {
        AccountsUpsert { upsert: self.upsert.set("email_verified", SqlValue::Bool(value)) }
    }

    /// Sets `locale`.
    pub fn set_locale(self, value: String) -> (r: Self)
        ensures
            r@ == self@.set("locale"@, SqlValue::Text(value)),
    {
        AccountsUpsert { upsert: self.upsert.set("locale", SqlValue::Text(value)) }
    }

    /// Sets `token`.
    pub fn set_token(self, value: String) -> (r: Self)
        ensures
            r@ == self@.set("token"@, SqlValue::Text(value)),
    {
        AccountsUpsert { upsert: self.upsert.set("token", SqlValue::Text(value)) }
    }

    /// The statement that adds or changes the row and gives it back. It needs an id.
    pub fn statement(self) -> (r: Result<Statement, BuildError>)
        ensures
            match r {
                Ok(s) => self@.row().contains_key("id"@) && s.says(
                    self@.sql("accounts"@, "id"@),
                    sorted_values(self@.row()),
                ),
                Err(e) => e matches BuildError::MissingPrimaryKey(f) && f@ == "id"@
                    && !self@.row().contains_key("id"@),
            },
    {
        self.upsert.statement("accounts", "id")
    }
}

/// The columns that a new account needs.
pub open spec fn required_of_account() -> Seq<Seq<char>> {
    seq!["id"@, "email"@, "password"@, "user_id"@, "token"@]
}

/// A account to be added, unless one that meets some conditions is there.
#[derive(Debug, PartialEq)]
pub struct AccountsCreate {
    create: Create,
}

impl View for AccountsCreate {
    type V = CreateView;

    closed spec fn view(&self) -> CreateView {
        self.create@
    }
}

impl AccountsCreate {
    /// A row without values.
    pub fn new() -> (r: Self)
        ensures
            r@ == CreateView::empty(),
    {
        AccountsCreate { create: Create::new() }
    }

    /// Keeps the rows whose `id` is `value`.
    pub fn where_id(self, value: String) -> (r: Self)
        ensures
            r@ == self@.filtered(
                self@.filter.compare("id"@, SqlValue::Text(value)),
            ),
    {
        AccountsCreate { create: self.create.compare("id", SqlValue::Text(value)) }
    }

    /// Adds the fragment `id IN (..)`, to which ` = $n` is appended, and its
    /// values; adds nothing where there are none.
    pub fn where_id_in(self, values: Vec<String>) -> (r: Self)
        ensures
            r@ == self@.filtered(
                self@.filter.one_of(
                    "id"@,
                    values@.map_values(|v: String| SqlValue::Text(v)),
                ),
            ),
    {
        AccountsCreate { create: self.create.one_of("id", text_values(values)) }
    }

    /// Keeps the rows whose `email` is `value`.
    pub fn where_email(self, value: String) -> (r: Self)
        ensures
            r@ == self@.filtered(
                self@.filter.compare("email"@, SqlValue::Text(value)),
            ),
    {
        AccountsCreate { create: self.create.compare("email", SqlValue::Text(value)) }
    }

    /// Adds the fragment `email IN (..)`, to which ` = $n` is appended, and its
    /// values; adds nothing where there are none.
    pub fn where_email_in(self, values: Vec<String>) -> (r: Self)
        ensures
            r@ == self@.filtered(
                self@.filter.one_of(
                    "email"@,
                    values@.map_values(|v: String| SqlValue::Text(v)),
                ),
            ),
    {
        AccountsCreate { create: self.create.one_of("email", text_values(values)) }
    }

    /// Keeps the rows whose `password` is `value`.
    pub fn where_password(self, value: String) -> (r: Self)
        ensures
            r@ == self@.filtered(
                self@.filter.compare("password"@, SqlValue::Text(value)),
            ),
    {
        AccountsCreate { create: self.create.compare("password", SqlValue::Text(value)) }
    }

    /// Adds the fragment `password IN (..)`, to which ` = $n` is appended, and its
    /// values; adds nothing where there are none.
    pub fn where_password_in(self, values: Vec<String>) -> (r: Self)
        ensures
            r@ == self@.filtered(
                self@.filter.one_of(
                    "password"@,
                    values@.map_values(|v: String| SqlValue::Text(v)),
                ),
            ),
    {
        AccountsCreate { create: self.create.one_of("password", text_values(values)) }
    }

    /// Keeps the rows whose `user_id` is `value`.
    pub fn where_user_id(self, value: String) -> (r: Self)
        ensures
            r@ == self@.filtered(
                self@.filter.compare("user_id"@, SqlValue::Text(value)),
            ),
    {
        AccountsCreate { create: self.create.compare("user_id", SqlValue::Text(value)) }
    }

    /// Adds the fragment `user_id IN (..)`, to which ` = $n` is appended, and its
    /// values; adds nothing where there are none.
    pub fn where_user_id_in(self, values: Vec<String>) -> (r: Self)
        ensures
            r@ == self@.filtered(
                self@.filter.one_of(
                    "user_id"@,
                    values@.map_values(|v: String| SqlValue::Text(v)),
                ),
            ),
    {
        AccountsCreate { create: self.create.one_of("user_id", text_values(values)) }
    }

    /// Keeps the rows whose `email_verified` is `value`.
    pub fn where_email_verified(self, value: bool) -> (r: Self)
        ensures
            r@ == self@.filtered(
                self@.filter.compare("email_verified"@, SqlValue::Bool(value)),
            ),
    {
        AccountsCreate { create: self.create.compare("email_verified", SqlValue::Bool(value)) }
    }

    /// Adds the fragment `email_verified IN (..)`, to which ` = $n` is appended, and its
    /// values; adds nothing where there are none.
    pub fn where_email_verified_in(self, values: Vec<bool>) -> (r: Self)
        ensures
            r@ == self@.filtered(
                self@.filter.one_of(
                    "email_verified"@,
                    values@.map_values(|v: bool| SqlValue::Bool(v)),
                ),
            ),
    {
        AccountsCreate { create: self.create.one_of("email_verified", bool_values(values)) }
    }

    /// Keeps the rows whose `locale` is `value`.
    pub fn where_locale(self, value: String) -> (r: Self)
        ensures
            r@ == self@.filtered(
                self@.filter.compare("locale"@, SqlValue::Text(value)),
            ),
    {
        AccountsCreate { create: self.create.compare("locale", SqlValue::Text(value)) }
    }

    /// Adds the fragment `locale IN (..)`, to which ` = $n` is appended, and its
    /// values; adds nothing where there are none.
    pub fn where_locale_in(self, values: Vec<String>) -> (r: Self)
        ensures
            r@ == self@.filtered(
                self@.filter.one_of(
                    "locale"@,
                    values@.map_values(|v: String| SqlValue::Text(v)),
                ),
            ),
    {
        AccountsCreate { create: self.create.one_of("locale", text_values(values)) }
    }

    /// Keeps the rows whose `token` is `value`.
    pub fn where_token(self, value: String) -> (r: Self)
        ensures
            r@ == self@.filtered(
                self@.filter.compare("token"@, SqlValue::Text(value)),
            ),
    {
        AccountsCreate { create: self.create.compare("token", SqlValue::Text(value)) }
    }

    /// Adds the fragment `token IN (..)`, to which ` = $n` is appended, and its
    /// values; adds nothing where there are none.
    pub fn where_token_in(self, values: Vec<String>) -> (r: Self)
        ensures
            r@ == self@.filtered(
                self@.filter.one_of(
                    "token"@,
                    values@.map_values(|v: String| SqlValue::Text(v)),
                ),
            ),
    {
        AccountsCreate { create: self.create.one_of("token", text_values(values)) }
    }

    /// Sets `id`.
    pub fn set_id(self, value: String) -> (r: Self)
        ensures
            r@ == self@.set("id"@, SqlValue::Text(value)),
    {
        AccountsCreate { create: self.create.set("id", SqlValue::Text(value)) }
    }

    /// Sets `email`.
    pub fn set_email(self, value: String) -> (r: Self)
        ensures
            r@ == self@.set("email"@, SqlValue::Text(value)),
    {
        AccountsCreate { create: self.create.set("email", SqlValue::Text(value)) }
    }

    /// Sets `password`.
    pub fn set_password(self, value: String) -> (r: Self)
        ensures
            r@ == self@.set("password"@, SqlValue::Text(value)),
    {
        AccountsCreate { create: self.create.set("password", SqlValue::Text(value)) }
    }

    /// Sets `user_id`.
    pub fn set_user_id(self, value: String) -> (r: Self)
        ensures
            r@ == self@.set("user_id"@, SqlValue::Text(value)),
    {
        AccountsCreate { create: self.create.set("user_id", SqlValue::Text(value)) }
    }

    /// Sets `email_verified`.
    pub fn set_email_verified(self, value: bool) -> (r: Self)
        ensures
            r@ == self@.set("email_verified"@, SqlValue::Bool(value)),
    {
        AccountsCreate { create: self.create.set("email_verified", SqlValue::Bool(value)) }
    }

    /// Sets `locale`.
    pub fn set_locale(self, value: String) -> (r: Self)
        ensures
            r@ == self@.set("locale"@, SqlValue::Text(value)),
    {
        AccountsCreate { create: self.create.set("locale", SqlValue::Text(value)) }
    }

    /// Sets `token`.
    pub fn set_token(self, value: String) -> (r: Self)
        ensures
            r@ == self@.set("token"@, SqlValue::Text(value)),
    {
        AccountsCreate { create: self.create.set("token", SqlValue::Text(value)) }
    }

    /// The statements that create the row; none where a column that it needs has no value.
    pub fn plan(self) -> (r: Result<CreatePlan, BuildError>)
        ensures
            match r {
                Ok(p) => first_missing(required_of_account(), self@.values) is None
                    && self@.planned("accounts"@, p),
                Err(e) => e matches BuildError::MissingField(f) && first_missing(
                    required_of_account(),
                    self@.values,
                ) == Some(f@),
            },
    {
        let required: Vec<&'static str> = vec!["id", "email", "password", "user_id", "token"];
        assert(slices(required@) =~= required_of_account());
        self.create.plan("accounts", required)
    }
}

/// Which accounts to remove.
#[derive(Debug, PartialEq)]
pub struct AccountsDelete {
    filter: Fragments,
}

impl View for AccountsDelete {
    type V = FragmentsView;

    closed spec fn view(&self) -> FragmentsView {
        self.filter@
    }
}

impl AccountsDelete {
    /// No condition yet.
    pub fn new() -> (r: Self)
        ensures
            r@ == FragmentsView::empty(),
    {
        AccountsDelete { filter: Fragments::new() }
    }

    /// Keeps the rows whose `id` is `value`.
    pub fn where_id(self, value: String) -> (r: Self)
        ensures
            r@ == self@.compare("id"@, SqlValue::Text(value)),
    {
        AccountsDelete { filter: self.filter.compare("id", SqlValue::Text(value)) }
    }

    /// Adds the fragment `id IN (..)`, to which ` = $n` is appended, and its
    /// values; adds nothing where there are none.
    pub fn where_id_in(self, values: Vec<String>) -> (r: Self)
        ensures
            r@ == self@.one_of(
                "id"@,
                values@.map_values(|v: String| SqlValue::Text(v)),
            ),
    {
        AccountsDelete { filter: self.filter.one_of("id", text_values(values)) }
    }

    /// Keeps the rows whose `email` is `value`.
    pub fn where_email(self, value: String) -> (r: Self)
        ensures
            r@ == self@.compare("email"@, SqlValue::Text(value)),
    {
        AccountsDelete { filter: self.filter.compare("email", SqlValue::Text(value)) }
    }

    /// Adds the fragment `email IN (..)`, to which ` = $n` is appended, and its
    /// values; adds nothing where there are none.
    pub fn where_email_in(self, values: Vec<String>) -> (r: Self)
        ensures
            r@ == self@.one_of(
                "email"@,
                values@.map_values(|v: String| SqlValue::Text(v)),
            ),
    {
        AccountsDelete { filter: self.filter.one_of("email", text_values(values)) }
    }

    /// Keeps the rows whose `password` is `value`.
    pub fn where_password(self, value: String) -> (r: Self)
        ensures
            r@ == self@.compare("password"@, SqlValue::Text(value)),
    {
        AccountsDelete { filter: self.filter.compare("password", SqlValue::Text(value)) }
    }

    /// Adds the fragment `password IN (..)`, to which ` = $n` is appended, and its
    /// values; adds nothing where there are none.
    pub fn where_password_in(self, values: Vec<String>) -> (r: Self)
        ensures
            r@ == self@.one_of(
                "password"@,
                values@.map_values(|v: String| SqlValue::Text(v)),
            ),
    {
        AccountsDelete { filter: self.filter.one_of("password", text_values(values)) }
    }

    /// Keeps the rows whose `user_id` is `value`.
    pub fn where_user_id(self, value: String) -> (r: Self)
        ensures
            r@ == self@.compare("user_id"@, SqlValue::Text(value)),
    {
        AccountsDelete { filter: self.filter.compare("user_id", SqlValue::Text(value)) }
    }

    /// Adds the fragment `user_id IN (..)`, to which ` = $n` is appended, and its
    /// values; adds nothing where there are none.
    pub fn where_user_id_in(self, values: Vec<String>) -> (r: Self)
        ensures
            r@ == self@.one_of(
                "user_id"@,
                values@.map_values(|v: String| SqlValue::Text(v)),
            ),
    {
        AccountsDelete { filter: self.filter.one_of("user_id", text_values(values)) }
    }

    /// Keeps the rows whose `email_verified` is `value`.
    pub fn where_email_verified(self, value: bool) -> (r: Self)
        ensures
            r@ == self@.compare("email_verified"@, SqlValue::Bool(value)),
    {
        AccountsDelete { filter: self.filter.compare("email_verified", SqlValue::Bool(value)) }
    }

    /// Adds the fragment `email_verified IN (..)`, to which ` = $n` is appended, and its
    /// values; adds nothing where there are none.
    pub fn where_email_verified_in(self, values: Vec<bool>) -> (r: Self)
        ensures
            r@ == self@.one_of(
                "email_verified"@,
                values@.map_values(|v: bool| SqlValue::Bool(v)),
            ),
    {
        AccountsDelete { filter: self.filter.one_of("email_verified", bool_values(values)) }
    }

    /// Keeps the rows whose `locale` is `value`.
    pub fn where_locale(self, value: String) -> (r: Self)
        ensures
            r@ == self@.compare("locale"@, SqlValue::Text(value)),
    {
        AccountsDelete { filter: self.filter.compare("locale", SqlValue::Text(value)) }
    }

    /// Adds the fragment `locale IN (..)`, to which ` = $n` is appended, and its
    /// values; adds nothing where there are none.
    pub fn where_locale_in(self, values: Vec<String>) -> (r: Self)
        ensures
            r@ == self@.one_of(
                "locale"@,
                values@.map_values(|v: String| SqlValue::Text(v)),
            ),
    {
        AccountsDelete { filter: self.filter.one_of("locale", text_values(values)) }
    }

    /// Keeps the rows whose `token` is `value`.
    pub fn where_token(self, value: String) -> (r: Self)
        ensures
            r@ == self@.compare("token"@, SqlValue::Text(value)),
    {
        AccountsDelete { filter: self.filter.compare("token", SqlValue::Text(value)) }
    }

    /// Adds the fragment `token IN (..)`, to which ` = $n` is appended, and its
    /// values; adds nothing where there are none.
    pub fn where_token_in(self, values: Vec<String>) -> (r: Self)
        ensures
            r@ == self@.one_of(
                "token"@,
                values@.map_values(|v: String| SqlValue::Text(v)),
            ),
    {
        AccountsDelete { filter: self.filter.one_of("token", text_values(values)) }
    }

    /// The statement that removes the rows; none without a condition.
    pub fn statement(self) -> (r: Result<Statement, BuildError>)
        ensures
            match r {
                Ok(s) => self@.fragments.len() > 0 && s.says(
                    self@.delete_sql("accounts"@),
                    self@.args,
                ),
                Err(e) => self@.fragments.len() == 0 && e == BuildError::DeleteWithoutWhere,
            },
    {
        self.filter.delete("accounts")
    }
}

/// The statements on the table of accounts.
#[derive(Clone, Copy, Debug, PartialEq, Eq, Structural)]
pub struct AccountsAccessor;

/// Whether a builder is what `f` makes of the builder for all accounts.
pub open spec fn built_by_account_filter<F: FnOnce(AccountsWhereBuilder) -> AccountsWhereBuilder>(
    f: F,
    builder: AccountsWhereBuilder,
) -> bool {
    exists|start: AccountsWhereBuilder|
        start@ == FilterView::empty() && #[trigger] call_ensures(f, (start,), builder)
}

impl AccountsAccessor {
    /// The table.
    pub fn new() -> (r: Self)
        ensures
            r == (AccountsAccessor),
    {
        AccountsAccessor
    }

    /// Fetches the rows that a filter keeps.
    pub fn find_many<F: FnOnce(AccountsWhereBuilder) -> AccountsWhereBuilder>(
        &self,
        f: F,
    ) -> (r: Statement)
        requires
            forall|start: AccountsWhereBuilder|
                start@ == FilterView::empty() ==> call_requires(f, (start,)),
        ensures
            exists|b: AccountsWhereBuilder|
                #[trigger] built_by_account_filter(f, b) && r.says(
                    b@.select_sql("accounts"@),
                    b@.args,
                ),
    {
        let builder: AccountsWhereBuilder = f(AccountsWhereBuilder::new());
        assert(built_by_account_filter(f, builder));
        AccountsQuery::from_builder(builder).select()
    }

    /// Fetches the first row that a filter keeps.
    pub fn find_first<F: FnOnce(AccountsWhereBuilder) -> AccountsWhereBuilder>(
        &self,
        f: F,
    ) -> (r: Statement)
        requires
            forall|start: AccountsWhereBuilder|
                start@ == FilterView::empty() ==> call_requires(f, (start,)),
        ensures
            exists|b: AccountsWhereBuilder|
                #[trigger] built_by_account_filter(f, b) && r.says(
                    b@.with_limit(1).select_sql("accounts"@),
                    b@.args,
                ),
    {
        let builder: AccountsWhereBuilder = f(AccountsWhereBuilder::new());
        assert(built_by_account_filter(f, builder));
        AccountsQuery::from_builder(builder).first()
    }

    /// Sums a column up over the rows that a filter keeps.
    pub fn sum<F: FnOnce(AccountsWhereBuilder) -> AccountsWhereBuilder>(
        &self,
        f: F,
        field: &str,
        zero: SqlValue,
    ) -> (r: Statement)
        requires
            forall|start: AccountsWhereBuilder|
                start@ == FilterView::empty() ==> call_requires(f, (start,)),
        ensures
            exists|b: AccountsWhereBuilder|
                #[trigger] built_by_account_filter(f, b) && r.says(
                    b@.sum_sql("accounts"@, field@),
                    b@.args.push(zero),
                ),
    {
        let builder: AccountsWhereBuilder = f(AccountsWhereBuilder::new());
        assert(built_by_account_filter(f, builder));
        AccountsQuery::from_builder(builder).sum(field, zero)
    }

    /// Counts the rows that a filter keeps.
    pub fn count<F: FnOnce(AccountsWhereBuilder) -> AccountsWhereBuilder>(
        &self,
        f: F,
    ) -> (r: Statement)
        requires
            forall|start: AccountsWhereBuilder|
                start@ == FilterView::empty() ==> call_requires(f, (start,)),
        ensures
            exists|b: AccountsWhereBuilder|
                #[trigger] built_by_account_filter(f, b) && r.says(
                    b@.count_sql("accounts"@),
                    b@.args,
                ),
    {
        let builder: AccountsWhereBuilder = f(AccountsWhereBuilder::new());
        assert(built_by_account_filter(f, builder));
        AccountsQuery::from_builder(builder).count()
    }

    /// Computes the average of a column over the rows that a filter keeps.
    pub fn avg<F: FnOnce(AccountsWhereBuilder) -> AccountsWhereBuilder>(
        &self,
        f: F,
        field: &str,
    ) -> (r: Statement)
        requires
            forall|start: AccountsWhereBuilder|
                start@ == FilterView::empty() ==> call_requires(f, (start,)),
        ensures
            exists|b: AccountsWhereBuilder|
                #[trigger] built_by_account_filter(f, b) && r.says(
                    b@.aggregate_sql("accounts"@, field@, "AVG"@),
                    b@.args,
                ),
    {
        let builder: AccountsWhereBuilder = f(AccountsWhereBuilder::new());
        assert(built_by_account_filter(f, builder));
        AccountsQuery::from_builder(builder).avg(field)
    }

    /// Computes the least value of a column over the rows that a filter keeps.
    pub fn min<F: FnOnce(AccountsWhereBuilder) -> AccountsWhereBuilder>(
        &self,
        f: F,
        field: &str,
    ) -> (r: Statement)
        requires
            forall|start: AccountsWhereBuilder|
                start@ == FilterView::empty() ==> call_requires(f, (start,)),
        ensures
            exists|b: AccountsWhereBuilder|
                #[trigger] built_by_account_filter(f, b) && r.says(
                    b@.aggregate_sql("accounts"@, field@, "MIN"@),
                    b@.args,
                ),
    {
        let builder: AccountsWhereBuilder = f(AccountsWhereBuilder::new());
        assert(built_by_account_filter(f, builder));
        AccountsQuery::from_builder(builder).min(field)
    }

    /// Computes the greatest value of a column over the rows that a filter keeps.
    pub fn max<F: FnOnce(AccountsWhereBuilder) -> AccountsWhereBuilder>(
        &self,
        f: F,
        field: &str,
    ) -> (r: Statement)
        requires
            forall|start: AccountsWhereBuilder|
                start@ == FilterView::empty() ==> call_requires(f, (start,)),
        ensures
            exists|b: AccountsWhereBuilder|
                #[trigger] built_by_account_filter(f, b) && r.says(
                    b@.aggregate_sql("accounts"@, field@, "MAX"@),
                    b@.args,
                ),
    {
        let builder: AccountsWhereBuilder = f(AccountsWhereBuilder::new());
        assert(built_by_account_filter(f, builder));
        AccountsQuery::from_builder(builder).max(field)
    }

    /// The change that `f` describes.
    pub fn update<F: FnOnce(AccountsUpdate) -> AccountsUpdate>(&self, f: F) -> (r: AccountsUpdate)
        requires
            forall|start: AccountsUpdate|
                start@ == UpdateView::empty() ==> call_requires(f, (start,)),
        ensures
            exists|start: AccountsUpdate|
                start@ == UpdateView::empty() && #[trigger] call_ensures(f, (start,), r),
    {
        f(AccountsUpdate::new())
    }

    /// The row to be added or changed that `f` describes.
    pub fn upsert<F: FnOnce(AccountsUpsert) -> AccountsUpsert>(&self, f: F) -> (r: AccountsUpsert)
        requires
            forall|start: AccountsUpsert|
                start@ == UpsertView::empty() ==> call_requires(f, (start,)),
        ensures
            exists|start: AccountsUpsert|
                start@ == UpsertView::empty() && #[trigger] call_ensures(f, (start,), r),
    {
        f(AccountsUpsert::new())
    }

    /// The row to be added that `f` describes.
    pub fn create<F: FnOnce(AccountsCreate) -> AccountsCreate>(&self, f: F) -> (r: AccountsCreate)
        requires
            forall|start: AccountsCreate|
                start@ == CreateView::empty() ==> call_requires(f, (start,)),
        ensures
            exists|start: AccountsCreate|
                start@ == CreateView::empty() && #[trigger] call_ensures(f, (start,), r),
    {
        f(AccountsCreate::new())
    }

    /// The rows to be removed that `f` describes.
    pub fn delete<F: FnOnce(AccountsDelete) -> AccountsDelete>(&self, f: F) -> (r: AccountsDelete)
        requires
            forall|start: AccountsDelete|
                start@ == FragmentsView::empty() ==> call_requires(f, (start,)),
        ensures
            exists|start: AccountsDelete|
                start@ == FragmentsView::empty() && #[trigger] call_ensures(f, (start,), r),
    {
        f(AccountsDelete::new())
    }

    /// Adds several rows at once, with the columns of the first; nothing where there are none.
    pub fn create_many(&self, records: Vec<StringMap<SqlValue>>) -> (r: Option<Statement>)
        ensures
            match r {
                Some(s) => records@.len() > 0 && s.says(
                    insert_many_sql("accounts"@, row_maps(records@)),
                    rows_values(sorted_keys(records@[0]@), row_maps(records@)),
                ),
                None => records@.len() == 0,
            },
    {
        insert_many("accounts", records)
    }

    /// Fetches the row with an id.
    pub fn find_unique(&self, id: String) -> (r: Statement)
        ensures
            r.says(find_sql("accounts"@, "id"@), seq![SqlValue::Text(id)]),
    {
        Accounts::find_by_id(id)
    }

    /// Fetches the row with an id, or adds it with nothing but the id.
    pub fn find_or_create(&self, id: String) -> (r: FindOrCreate)
        ensures
            r.insert.says(claim_sql("accounts"@, "id"@), seq![SqlValue::Text(id)]),
            r.select.says(find_sql("accounts"@, "id"@), seq![SqlValue::Text(id)]),
    {
        FindOrCreate::new("accounts", "id", SqlValue::Text(id))
    }
}

} // verus!
