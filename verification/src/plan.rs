//! The values that the parameters of a statement are bound to.

use vstd::prelude::*;
use crate::row::Row;
use crate::scalar_type::ScalarType;

verus! {

/// The values of the parameters of a statement, with their types.
#[derive(Debug)]
pub struct Params {
    pub datums: Row,
    pub types: Vec<ScalarType>,
}

impl Params {
    /// No parameters.
    pub fn empty() -> (r: Params)
        ensures
            r.datums@ == Seq::<crate::datum::DatumV>::empty(),
            r.types@.len() == 0,
    {
        Params { datums: Row::empty(), types: Vec::new() }
    }
}

} // verus!
