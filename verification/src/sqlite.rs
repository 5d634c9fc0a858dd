use vstd::prelude::*;
use sqlx::query::QueryAs;
use sqlx::sqlite::{Sqlite, SqliteArguments};
use crate::param::SqlValue;

verus! {

/// A query of sqlx against SQLite, to be handed to an executor through its
/// field. Each row that it yields is read as an integer column followed by a
/// text column.
///
/// The verifier cannot look into sqlx's `QueryAs`: all that the contracts of
/// this crate say of such a query, they say through [`query_text`] and
/// [`bound_values`].
#[verifier::external_body]
pub struct SqliteQueryAs<'a> {
    pub inner: QueryAs<'a, Sqlite, (i32, String), SqliteArguments<'a>>,
}

/// The SQL text of a query: what its method `sql` returns.
pub uninterp spec fn query_text(q: SqliteQueryAs<'_>) -> Seq<char>;

/// The argument list of a query: the values bound to it, first bound first.
/// `None` stands for a query without a usable argument list: one whose list
/// was taken out, or one that met a value that could not be encoded. Such a
/// query takes no further value.
pub uninterp spec fn bound_values(q: SqliteQueryAs<'_>) -> Option<Seq<SqlValue>>;

/// An argument list after one more value was offered to it.
pub open spec fn push_value(bound: Option<Seq<SqlValue>>, value: SqlValue) -> Option<
    Seq<SqlValue>,
> {
    match bound {
        Some(before) => Some(before.push(value)),
        None => None,
    }
}

/// Calls `sqlx::query_as`. Trusted, not proved: the query that comes back
/// carries `sql` as its text and an argument list with nothing in it.
#[verifier::external_body]
pub(crate) fn new_query<'a>(sql: &'a str) -> (r: SqliteQueryAs<'a>)
    ensures
        query_text(r) == sql@,
        bound_values(r) == Some(Seq::<SqlValue>::empty()),
{
    SqliteQueryAs { inner: sqlx::query_as(sql) }
}

/// Calls `QueryAs::bind` with an absent integer. Trusted, not proved: the
/// text stays as it was, and a NULL is added at the end of the argument
/// list; a query without a usable argument list comes back as it was.
#[verifier::external_body]
pub(crate) fn bind_null<'a>(q: SqliteQueryAs<'a>) -> (r: SqliteQueryAs<'a>)
    ensures
        query_text(r) == query_text(q),
        bound_values(r) == push_value(bound_values(q), SqlValue::Null),
{
    SqliteQueryAs { inner: q.inner.bind(None::<i64>) }
}

/// Calls `QueryAs::bind` with a 64-bit integer. Trusted, not proved: the
/// text stays as it was, and the integer is added at the end of the argument
/// list; a query without a usable argument list comes back as it was.
#[verifier::external_body]
pub(crate) fn bind_int<'a>(q: SqliteQueryAs<'a>, n: i64) -> (r: SqliteQueryAs<'a>)
    ensures
        query_text(r) == query_text(q),
        bound_values(r) == push_value(bound_values(q), SqlValue::Int(n)),
{
    SqliteQueryAs { inner: q.inner.bind(n) }
}

/// Calls `QueryAs::bind` with a string slice. Trusted, not proved: the text
/// of the query stays as it was, and the characters of `s` are added as one
/// text value at the end of the argument list; a query without a usable
/// argument list comes back as it was.
#[verifier::external_body]
pub(crate) fn bind_text<'a>(q: SqliteQueryAs<'a>, s: &'a str) -> (r: SqliteQueryAs<'a>)
    ensures
        query_text(r) == query_text(q),
        bound_values(r) == push_value(bound_values(q), SqlValue::Text(s@)),
{
    SqliteQueryAs { inner: q.inner.bind(s) }
}

/// Calls `QueryAs::bind` with a byte slice. Trusted, not proved: the text
/// stays as it was, and the bytes of `b` are added as one blob at the end of
/// the argument list; a query without a usable argument list comes back as
/// it was.
#[verifier::external_body]
pub(crate) fn bind_blob<'a>(q: SqliteQueryAs<'a>, b: &'a [u8]) -> (r: SqliteQueryAs<'a>)
    ensures
        query_text(r) == query_text(q),
        bound_values(r) == push_value(bound_values(q), SqlValue::Blob(b@)),
{
    SqliteQueryAs { inner: q.inner.bind(b) }
}

} // verus!
