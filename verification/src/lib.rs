//! Parameterized queries against SQLite, built on sqlx.
//!
//! A [`UserQuery`] is made from SQL text and takes values for its positional
//! placeholders, one by one or a list at a time, in the order in which the
//! placeholders stand in the text. Binding never fails and never reads the
//! text. When the query is taken for execution the placeholders are counted:
//! the query of sqlx is handed out only if it holds one value for each of
//! them.
//!
//! Rows of the `users` table come back as [`UserRow`]s and are read into
//! [`User`]s.

pub mod param;
pub mod placeholder;
pub mod query;
pub mod sqlite;
pub mod user;

pub use crate::param::{Param, SqlValue};
pub use crate::placeholder::count_placeholders;
pub use crate::query::{
    bind_param, bind_params, build_query_with_params, ParameterMismatch, QueryView, UserQuery,
};
pub use crate::sqlite::SqliteQueryAs;
pub use crate::user::{
    find_users_query, insert_user_query, users_from_rows, User, UserRow, INSERT_USER,
    SELECT_USERS,
};
