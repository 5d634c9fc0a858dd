use vstd::prelude::*;
use crate::param::{Param, SqlValue, values_of};
use crate::placeholder::{count_placeholders, placeholder_count};
use crate::sqlite::{
    bind_blob, bind_int, bind_null, bind_text, bound_values, new_query, query_text,
    SqliteQueryAs,
};

verus! {

/// What a [`UserQuery`] stands for: its SQL text and the values bound to it,
/// first bound first.
pub struct QueryView {
    pub text: Seq<char>,
    pub values: Seq<SqlValue>,
}

impl QueryView {
    /// The query after `more` values were bound behind those it holds.
    pub open spec fn bind_all(self, more: Seq<SqlValue>) -> QueryView {
        QueryView { text: self.text, values: self.values + more }
    }

    /// Whether the query can run: it holds one value for each positional
    /// placeholder of its text, no fewer and no more.
    pub open spec fn is_executable(self) -> bool {
        placeholder_count(self.text) == self.values.len()
    }
}

/// Why a query cannot run: its text has `placeholders` positional
/// placeholders, and `bound` values were bound to it.
#[derive(Clone, Copy, Debug, PartialEq, Eq)]
pub struct ParameterMismatch {
    pub placeholders: usize,
    pub bound: usize,
}

/// A query that has not run yet, together with the values bound to it so
/// far. Values are bound without a look at the text: whether there is one
/// for each placeholder is settled when the query is taken for execution.
pub struct UserQuery<'a> {
    raw: SqliteQueryAs<'a>,
    sql: &'a str,
    params: Vec<Param<'a>>,
}

impl<'a> View for UserQuery<'a> {
    type V = QueryView;

    closed spec fn view(&self) -> QueryView {
        QueryView { text: self.sql@, values: values_of(self.params@) }
    }
}

impl<'a> UserQuery<'a> {
    /// The query of sqlx holds the text and the values that this one stands
    /// for.
    #[verifier::type_invariant]
    spec fn agrees_with_sqlx(self) -> bool {
        &&& query_text(self.raw) == self.sql@
        &&& bound_values(self.raw) == Some(values_of(self.params@))
    }

    /// The SQL text of the query.
    pub fn sql(&self) -> (sql: &'a str)
        ensures
            sql@ == self@.text,
    {
        self.sql
    }

    /// The values bound so far, first bound first.
    pub fn params(&self) -> (params: &[Param<'a>])
        ensures
            values_of(params@) == self@.values,
    {
        self.params.as_slice()
    }

    /// Takes the query for execution. The query of sqlx is handed out if
    /// there is one value for each positional placeholder of the text; it
    /// then holds that text and those values, in the order in which they
    /// were bound. Otherwise the two numbers come back, and nothing is run
    /// with a value missing, left over or out of place.
    ///
    /// Only the positional `?` is known here: a text that numbers or names
    /// its placeholders is counted by its `?` marks all the same.
    pub fn into_executable(self) -> (r: Result<SqliteQueryAs<'a>, ParameterMismatch>)
        ensures
            match r {
                Ok(q) => {
                    &&& self@.is_executable()
                    &&& query_text(q) == self@.text
                    &&& bound_values(q) == Some(self@.values)
                },
                Err(e) => {
                    &&& !self@.is_executable()
                    &&& e.placeholders == placeholder_count(self@.text)
                    &&& e.bound == self@.values.len()
                },
            },
    {
        proof {
            use_type_invariant(&self);
        }
        let placeholders = count_placeholders(self.sql);
        let bound = self.params.len();
        if placeholders == bound {
            Ok(self.raw)
        } else {
            Err(ParameterMismatch { placeholders, bound })
        }
    }
}

/// Binds one value to `query`, behind the values that it already holds.
pub fn bind_param<'a>(query: UserQuery<'a>, param: Param<'a>) -> (r: UserQuery<'a>)
    ensures
        r@ == query@.bind_all(seq![param@]),
{
    proof {
        use_type_invariant(&query);
    }
    let UserQuery { raw, sql, mut params } = query;
    let raw = match param {
        Param::Null => bind_null(raw),
        Param::Int(n) => bind_int(raw, n),
        Param::Text(s) => bind_text(raw, s),
        Param::Blob(b) => bind_blob(raw, b),
    };
    params.push(param);
    assert(values_of(params@) == values_of(query.params@).push(param@));
    assert(values_of(params@) == values_of(query.params@) + seq![param@]);
    UserQuery { raw, sql, params }
}

/// Binds `params` to `query` in the order given, behind the values that it
/// already holds. Nothing is counted against the placeholders of the text:
/// any number of values is taken, and with none the query comes back as it
/// was.
pub fn bind_params<'a>(query: UserQuery<'a>, params: &[Param<'a>]) -> (r: UserQuery<'a>)
    ensures
        r@ == query@.bind_all(values_of(params@)),
        params@.len() == 0 ==> r == query,
{
    let mut bound = query;
    let mut i: usize = 0;
    assert(values_of(params@.take(0)) == Seq::<SqlValue>::empty());
    assert(query@.bind_all(Seq::<SqlValue>::empty()) == query@);
    while i < params.len()
        invariant
            i <= params@.len(),
            bound@ == query@.bind_all(values_of(params@.take(i as int))),
            i == 0 ==> bound == query,
        decreases params@.len() - i,
    {
        bound = bind_param(bound, params[i]);
        i += 1;
        assert(params@.take(i as int) == params@.take(i - 1).push(params@[i - 1]));
        assert((query@.values + values_of(params@.take(i - 1))) + seq![params@[i - 1]@]
            == query@.values + values_of(params@.take(i as int)));
    }
    assert(params@.take(i as int) == params@);
    bound
}

/// Makes a query from `sql` and binds `params` to it, in the order given.
/// The text is not read and no value is counted: this cannot fail.
pub fn build_query_with_params<'a>(sql: &'a str, params: &[Param<'a>]) -> (r: UserQuery<'a>)
    ensures
        r@ == (QueryView { text: sql@, values: values_of(params@) }),
{
    let raw = new_query(sql);
    let none: Vec<Param<'a>> = Vec::new();
    assert(values_of(none@) == Seq::<SqlValue>::empty());
    let query = UserQuery { raw, sql, params: none };
    assert(Seq::<SqlValue>::empty() + values_of(params@) == values_of(params@));
    bind_params(query, params)
}

/// Binding keeps the supplied order. After `params` were bound to `query`,
/// the text is the same, the values that were there stand where they stood,
/// and the value at place `n` of `params` stands `n` places behind them: as
/// many values were added as were supplied, none dropped and none moved.
pub proof fn lemma_bound_in_supplied_order(query: QueryView, params: Seq<Param>, n: int)
    requires
        0 <= n < params.len(),
    ensures
        query.bind_all(values_of(params)).text == query.text,
        query.bind_all(values_of(params)).values.len() == query.values.len() + params.len(),
        query.bind_all(values_of(params)).values.take(query.values.len() as int)
            == query.values,
        query.bind_all(values_of(params)).values[query.values.len() + n] == params[n]@,
{
}

/// Binding in two runs is binding the two runs as one: `first` and then
/// `second` leave the query that `first + second` leaves.
pub proof fn lemma_bind_in_two_runs(query: QueryView, first: Seq<Param>, second: Seq<Param>)
    ensures
        query.bind_all(values_of(first)).bind_all(values_of(second)) == query.bind_all(
            values_of(first + second),
        ),
{
    assert(values_of(first) + values_of(second) == values_of(first + second));
    assert((query.values + values_of(first)) + values_of(second) == query.values + (values_of(
        first,
    ) + values_of(second)));
}

/// A query made from `text` and `params` can run exactly if `params` holds
/// one value for each positional placeholder of `text`. With as many values
/// as placeholders it runs with each value at its place; with fewer or more
/// it is refused when taken for execution, and no value is dropped to make
/// it fit.
pub proof fn lemma_runs_iff_one_value_per_placeholder(text: Seq<char>, params: Seq<Param>)
    ensures
        (QueryView { text, values: values_of(params) }).is_executable() <==> placeholder_count(
            text,
        ) == params.len(),
        values_of(params).len() == params.len(),
        forall|n: int| 0 <= n < params.len() ==> (#[trigger] values_of(params)[n]) == params[n]@,
{
}

} // verus!
