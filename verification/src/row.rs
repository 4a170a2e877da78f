//! Rows: the datums of one record, in the order of its columns.

use vstd::prelude::*;
use crate::datum::{clone_datums, datums_view, Datum, DatumV};

verus! {

/// A row of datums.
#[derive(Debug, PartialEq, Eq)]
pub struct Row {
    pub datums: Vec<Datum>,
}

impl View for Row {
    type V = Seq<DatumV>;

    open spec fn view(&self) -> Seq<DatumV> {
        datums_view(self.datums@)
    }
}

impl Clone for Row {
    fn clone(&self) -> (r: Self)
        ensures
            r@ == self@,
    {
        Row { datums: clone_datums(&self.datums) }
    }
}

impl Row {
    /// The row of the given datums.
    pub fn pack(datums: Vec<Datum>) -> (r: Row)
        ensures
            r@ == datums_view(datums@),
    {
        Row { datums }
    }

    /// The datums of the row.
    pub fn unpack(&self) -> (r: Vec<Datum>)
        ensures
            datums_view(r@) == self@,
    {
        clone_datums(&self.datums)
    }

    /// The row without columns.
    pub fn empty() -> (r: Row)
        ensures
            r@ == Seq::<DatumV>::empty(),
    {
        let r = Row { datums: Vec::new() };
        assert(r@ =~= Seq::<DatumV>::empty());
        r
    }
}

/// A row with the number of times that it occurs, which can be negative.
pub type Update = (Row, i64);

/// The views of rows with their multiplicities.
pub open spec fn updates_view(v: Seq<Update>) -> Seq<(Seq<DatumV>, i64)> {
    Seq::new(v.len(), |i: int| (v[i].0@, v[i].1))
}

} // verus!
