use vstd::prelude::*;

verus! {

/// A value as SQLite stores it: what a [`Param`] stands for.
pub enum SqlValue {
    Null,
    Int(i64),
    Text(Seq<char>),
    Blob(Seq<u8>),
}

/// A value that can be bound to a positional placeholder of a query.
///
/// Text and blobs are borrowed: the query that they are bound to cannot
/// outlive them.
#[derive(Clone, Copy, Debug)]
pub enum Param<'a> {
    Null,
    Int(i64),
    Text(&'a str),
    Blob(&'a [u8]),
}

impl<'a> View for Param<'a> {
    type V = SqlValue;

    open spec fn view(&self) -> SqlValue {
        match *self {
            Param::Null => SqlValue::Null,
            Param::Int(n) => SqlValue::Int(n),
            Param::Text(s) => SqlValue::Text(s@),
            Param::Blob(b) => SqlValue::Blob(b@),
        }
    }
}

/// The values that a list of parameters stands for, in the same order.
pub open spec fn values_of(params: Seq<Param>) -> Seq<SqlValue> {
    params.map_values(|p: Param| p@)
}

} // verus!
