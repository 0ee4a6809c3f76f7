//! The source of inline rows: a single batch.

use crate::batch::Batch;
use vstd::prelude::*;

verus! {

#[derive(Debug)]
pub struct PhysicalValues {
    pub batch: Batch,
    /// Whether the batch has been handed out.
    pub exhausted: bool,
}

impl PhysicalValues {
    pub fn new(batch: Batch) -> (s: Self)
        ensures
            s.batch == batch,
            !s.exhausted,
    {
        PhysicalValues { batch, exhausted: false }
    }
}

} // verus!
