//! Functions that write query output to a location.

use vstd::prelude::*;

verus! {

/// Handle of a copy-to function. Plans hold the handle, which names the
/// function; two handles are the same function when their names are equal.
#[derive(Debug, PartialEq, Eq)]
pub struct CopyToFunction {
    pub name: String,
}

impl Clone for CopyToFunction {
    fn clone(&self) -> (r: Self)
        ensures
            r == *self,
    {
        CopyToFunction { name: self.name.clone() }
    }
}

} // verus!
