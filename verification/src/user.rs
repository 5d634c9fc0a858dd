use vstd::prelude::*;
use crate::param::{values_of, Param, SqlValue};
use crate::placeholder::{
    lemma_empty_text, lemma_plain_run, lemma_read_one_more, placeholder_count,
};
use crate::query::{build_query_with_params, QueryView, UserQuery};

verus! {

/// The statement that adds a user and hands the new row back.
pub const INSERT_USER: &'static str = "INSERT INTO users (name) VALUES (?) RETURNING *";

/// The statement that reads every user.
pub const SELECT_USERS: &'static str = "SELECT * FROM users";

/// The statement that adds a user has one placeholder, for the name.
pub proof fn lemma_insert_user_takes_one_value()
    ensures
        placeholder_count(INSERT_USER@) == 1,
{
    reveal_strlit("INSERT INTO users (name) VALUES (?) RETURNING *");
    let text = INSERT_USER@;
    let head = text.take(33);
    assert(head.take(0) == Seq::<char>::empty());
    lemma_empty_text();
    lemma_plain_run(head, 0);
    lemma_read_one_more(text, 33);
    lemma_plain_run(text, 34);
}

/// The statement that reads every user has no placeholder.
pub proof fn lemma_select_users_takes_no_value()
    ensures
        placeholder_count(SELECT_USERS@) == 0,
{
    reveal_strlit("SELECT * FROM users");
    let text = SELECT_USERS@;
    assert(text.take(0) == Seq::<char>::empty());
    lemma_empty_text();
    lemma_plain_run(text, 0);
}

/// A row of the `users` table as the database hands it over.
pub type UserRow = (i32, String);

/// One row of the `users` table.
#[derive(Debug, PartialEq, Eq)]
pub struct User {
    pub id: i32,
    pub name: String,
}

/// The user that a row stands for.
pub open spec fn user_of(row: UserRow) -> User {
    User { id: row.0, name: row.1 }
}

/// The users that a list of rows stands for, in the same order.
pub open spec fn users_of(rows: Seq<UserRow>) -> Seq<User> {
    rows.map_values(|row: UserRow| user_of(row))
}

impl User {
    /// Reads a user from a row: the identifier first, the name second.
    pub fn from_row(row: UserRow) -> (user: User)
        ensures
            user == user_of(row),
    {
        User { id: row.0, name: row.1 }
    }
}

/// Reads a user from each row, keeping the order of the rows.
pub fn users_from_rows(rows: Vec<UserRow>) -> (users: Vec<User>)
    ensures
        users@ == users_of(rows@),
{
    let mut users: Vec<User> = Vec::new();
    for row in it: rows
        invariant
            users@ == users_of(it.seq().take(it.index() as int)),
    {
        users.push(User::from_row(row));
    }
    users
}

/// The query that adds a user called `name`.
pub fn insert_user_query<'a>(name: &'a str) -> (r: UserQuery<'a>)
    ensures
        r@ == (QueryView { text: INSERT_USER@, values: seq![SqlValue::Text(name@)] }),
        r@.is_executable(),
{
    proof {
        lemma_insert_user_takes_one_value();
    }
    let params = [Param::Text(name)];
    assert(values_of(params@) == seq![SqlValue::Text(name@)]);
    build_query_with_params(INSERT_USER, &params)
}

/// The query that reads every user.
pub fn find_users_query() -> (r: UserQuery<'static>)
    ensures
        r@ == (QueryView { text: SELECT_USERS@, values: Seq::<SqlValue>::empty() }),
        r@.is_executable(),
{
    proof {
        lemma_select_users_takes_no_value();
    }
    let params: [Param<'static>; 0] = [];
    assert(values_of(params@) == Seq::<SqlValue>::empty());
    build_query_with_params(SELECT_USERS, &params)
}

} // verus!
