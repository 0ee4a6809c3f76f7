//! A window of the rows of a batch: some rows are skipped, and a number
//! of the rows after them is kept.

use crate::batch::{Batch, BatchView};
use crate::physical::plans::filter::{keep_rows, kept_batch};
use vstd::prelude::*;

verus! {

/// For each of `n` rows, whether it is in the window of `limit` rows after
/// the first `offset` rows.
pub open spec fn window(n: nat, offset: nat, limit: nat) -> Seq<bool> {
    Seq::new(n, |i: int| offset <= i < offset + limit)
}

/// The rows of a batch in the window of `limit` rows after the first
/// `offset` rows, in order.
pub open spec fn limit_outcome(batch: BatchView, offset: nat, limit: nat) -> BatchView {
    kept_batch(batch, window(batch.num_rows, offset, limit))
}

/// Keeps a window of the rows of a batch, as `limit_outcome` states.
pub fn limit_rows(batch: &Batch, offset: usize, limit: usize) -> (r: Batch)
    ensures
        r@ == limit_outcome(batch@, offset as nat, limit as nat),
{
    let n = batch.num_rows();
    let mut keep: Vec<bool> = Vec::new();
    let mut i: usize = 0;
    while i < n
        invariant
            i <= n,
            keep@.len() == i,
            forall|k: int|
                0 <= k < i ==> (#[trigger] keep@[k]) == (offset <= k < offset + limit),
        decreases n - i,
    {
        keep.push(i >= offset && i - offset < limit);
        i += 1;
    }
    assert(keep@ =~= window(n as nat, offset as nat, limit as nat));
    match keep_rows(batch, &keep) {
        Ok(out) => out,
        Err(_) => {
            proof {
                assert(false);
            }
            Batch::empty_with_num_rows(0)
        },
    }
}

} // verus!
