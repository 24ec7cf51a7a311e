//! The record shape of the fixed transfer schema.
//!
//! Every record carried by this library has exactly two fields: a signed
//! 64-bit integer field `a` (with a declared default in the schema) and a
//! string field `b`. Sender and receiver embed the same schema, so a value of
//! [`RecordData`] is by construction valid against it.

use vstd::prelude::*;

verus! {

/// One record of the fixed transfer schema.
#[derive(Clone, Debug, PartialEq, Eq)]
pub struct RecordData {
    /// The integer field, named `a` in the schema.
    pub a: i64,
    /// The string field, named `b` in the schema.
    pub b: String,
}

impl View for RecordData {
    type V = (int, Seq<char>);

    open spec fn view(&self) -> (int, Seq<char>) {
        (self.a as int, self.b@)
    }
}

impl RecordData {
    /// Builds a record from its two field values.
    pub fn new(a: i64, b: String) -> (r: RecordData)
        ensures
            r@ == (a as int, b@),
    {
        RecordData { a, b }
    }
}

/// The views of a sequence of records, in their order.
pub open spec fn views_of(records: Seq<RecordData>) -> Seq<(int, Seq<char>)> {
    records.map_values(|r: RecordData| r@)
}

} // verus!
