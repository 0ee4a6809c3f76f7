//! The source of the literal empty relation: it has no rows.

use vstd::prelude::*;

verus! {

#[derive(Debug, Clone, Copy, PartialEq, Eq, Structural)]
pub struct EmptySource;

impl EmptySource {
    pub fn new() -> (s: Self)
        ensures
            s == EmptySource,
    {
        EmptySource
    }
}

} // verus!
