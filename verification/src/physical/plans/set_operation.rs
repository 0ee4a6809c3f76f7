//! Set operations on two batches: union, intersection and difference,
//! with or without duplicates. A row is the same as another where both
//! hold the same values, NULL being the same as NULL.

use crate::batch::{Batch, BatchView};
use crate::error::RayexecError;
use crate::logical::logical_setop::SetOpKind;
use crate::physical::plans::batch_result_is;
use crate::physical::plans::filter::{keep_rows, kept_batch};
use crate::physical::plans::grouping_sets::{
    distinct_outcome, distinct_rows, rows_are_same, same_batch_rows,
};
use crate::physical::plans::union::{union_all, union_outcome};
use vstd::prelude::*;

verus! {

/// How many of the rows from `lo` up to `hi` of a batch are the same as row
/// `i`.
pub open spec fn occurrences(batch: BatchView, i: int, lo: int, hi: int) -> nat
    decreases hi - lo,
{
    if hi <= lo {
        0
    } else {
        occurrences(batch, i, lo, hi - 1) + (if same_batch_rows(batch, i, hi - 1) {
            1nat
        } else {
            0nat
        })
    }
}

/// Whether an intersection or a difference keeps a row of its first input,
/// from how many earlier rows of that input are the same (`earlier`) and
/// how many rows of the second input are (`below`).
///
/// Without duplicates a row is kept where it first occurs, by an
/// intersection if the second input has it and by a difference if not.
/// With duplicates an intersection keeps as many of the same rows as the
/// second input has, and a difference drops as many.
pub open spec fn keeps_row(kind: SetOpKind, all: bool, earlier: nat, below: nat) -> bool {
    match kind {
        SetOpKind::Intersect => if all {
            earlier < below
        } else {
            earlier == 0 && below > 0
        },
        _ => if all {
            earlier >= below
        } else {
            earlier == 0 && below == 0
        },
    }
}

/// For each row of the first input, whether an intersection or a
/// difference keeps it. `both` holds the rows of the first input, then
/// those of the second.
pub open spec fn kept_by(kind: SetOpKind, all: bool, both: BatchView, top_rows: nat) -> Seq<bool> {
    Seq::new(
        top_rows,
        |i: int|
            keeps_row(
                kind,
                all,
                occurrences(both, i, 0, i),
                occurrences(both, i, top_rows as int, both.num_rows as int),
            ),
    )
}

/// What a set operation gives for two batches, or the message of the
/// error. The batches must have as many columns, of the same types. A union
/// gives the rows of the first batch, then those of the second, and
/// without duplicates each row where it first occurs. An intersection and
/// a difference give the rows of the first batch that `keeps_row` keeps.
pub open spec fn setop_outcome(
    kind: SetOpKind,
    all: bool,
    top: BatchView,
    bottom: BatchView,
) -> Result<BatchView, Seq<char>> {
    match union_outcome(top, bottom) {
        Err(msg) => Err(msg),
        Ok(both) => match kind {
            SetOpKind::Union => if all {
                Ok(both)
            } else {
                Ok(distinct_outcome(both))
            },
            _ => Ok(kept_by_batch(kind, all, top, both)),
        },
    }
}

/// The rows of the first input that an intersection or a difference keeps.
pub open spec fn kept_by_batch(kind: SetOpKind, all: bool, top: BatchView, both: BatchView) -> BatchView {
    kept_batch(top, kept_by(kind, all, both, top.num_rows))
}

fn count_same(batch: &Batch, i: usize, lo: usize, hi: usize) -> (r: usize)
    requires
        i < batch@.num_rows,
        lo <= hi <= batch@.num_rows,
    ensures
        r == occurrences(batch@, i as int, lo as int, hi as int),
        r <= hi - lo,
{
    let mut count: usize = 0;
    let mut j: usize = lo;
    while j < hi
        invariant
            lo <= j <= hi,
            hi <= batch@.num_rows,
            i < batch@.num_rows,
            count == occurrences(batch@, i as int, lo as int, j as int),
            count <= j - lo,
        decreases hi - j,
    {
        if rows_are_same(batch, i, j) {
            count += 1;
        }
        j += 1;
    }
    count
}

/// Applies a set operation to two batches, as `setop_outcome` states.
pub fn set_rows(kind: SetOpKind, all: bool, top: &Batch, bottom: &Batch) -> (r: Result<
    Batch,
    RayexecError,
>)
    ensures
        batch_result_is(r, setop_outcome(kind, all, top@, bottom@)),
{
    let both = union_all(top, bottom)?;
    let intersect = match kind {
        SetOpKind::Union => {
            if all {
                return Ok(both);
            }
            return Ok(distinct_rows(&both));
        },
        SetOpKind::Intersect => true,
        SetOpKind::Except => false,
    };
    let top_rows = top.num_rows();
    let all_rows = both.num_rows();
    let mut keep: Vec<bool> = Vec::new();
    let mut i: usize = 0;
    while i < top_rows
        invariant
            i <= top_rows,
            top_rows == top@.num_rows,
            all_rows == both@.num_rows,
            top_rows <= all_rows,
            intersect == (kind is Intersect),
            !(kind is Union),
            keep@.len() == i,
            forall|k: int|
                0 <= k < i ==> (#[trigger] keep@[k]) == kept_by(kind, all, both@, top_rows as nat)[k],
        decreases top_rows - i,
    {
        let earlier = count_same(&both, i, 0, i);
        let below = count_same(&both, i, top_rows, all_rows);
        let kept = if intersect {
            if all {
                earlier < below
            } else {
                earlier == 0 && below > 0
            }
        } else {
            if all {
                earlier >= below
            } else {
                earlier == 0 && below == 0
            }
        };
        keep.push(kept);
        i += 1;
    }
    assert(keep@ =~= kept_by(kind, all, both@, top_rows as nat));
    keep_rows(top, &keep)
}

} // verus!
