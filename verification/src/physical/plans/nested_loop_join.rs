//! The cross join of two batches: every row of the left with every row of
//! the right.

use crate::array::{gather, picked_rows, views, Array, ArrayView, RowPick};
use crate::batch::{column_views, columns_have_rows, Batch, BatchView};
use crate::error::RayexecError;
use crate::physical::plans::batch_result_is;
use vstd::arithmetic::div_mod::lemma_fundamental_div_mod_converse;
use vstd::prelude::*;

verus! {

/// The message of the error for a cross join with more rows than can be
/// counted.
pub open spec fn cross_size_text() -> Seq<char> {
    "Cross join produces too many rows"@
}

/// A column of the left side in the cross join with `right_rows` rows on
/// the right: each row in turn, `right_rows` times.
pub open spec fn left_column(col: ArrayView, right_rows: nat) -> ArrayView {
    ArrayView {
        datatype: col.datatype,
        rows: Seq::new(col.rows.len() * right_rows, |k: int| col.rows[k / right_rows as int]),
    }
}

/// A column of the right side in the cross join with `left_rows` rows on
/// the left: the whole column, `left_rows` times.
pub open spec fn right_column(col: ArrayView, left_rows: nat) -> ArrayView {
    ArrayView {
        datatype: col.datatype,
        rows: Seq::new(left_rows * col.rows.len(), |k: int| col.rows[k % col.rows.len() as int]),
    }
}

/// The cross join of two batches, or the message of the error where it has
/// more rows than can be counted. Output row `i * n + j` joins row `i` of
/// the left with row `j` of the right, where `n` is the number of rows on
/// the right; the columns of the left come first.
pub open spec fn cross_outcome(left: BatchView, right: BatchView) -> Result<BatchView, Seq<char>> {
    if left.num_rows * right.num_rows > usize::MAX {
        Err(cross_size_text())
    } else {
        Ok(
            BatchView {
                cols: left.cols.map_values(|c: ArrayView| left_column(c, right.num_rows))
                    + right.cols.map_values(|c: ArrayView| right_column(c, left.num_rows)),
                num_rows: left.num_rows * right.num_rows,
            },
        )
    }
}

/// A batch without rows.
pub open spec fn has_no_rows(batch: BatchView) -> bool {
    batch.num_rows == 0 && forall|i: int|
        0 <= i < batch.cols.len() ==> (#[trigger] batch.cols[i]).rows.len() == 0
}

/// The cross join with a batch without rows, on either side, has no rows.
pub proof fn lemma_cross_with_empty(a: BatchView, empty: BatchView)
    requires
        columns_have_rows(a.cols, a.num_rows),
        columns_have_rows(empty.cols, empty.num_rows),
        empty.num_rows == 0,
    ensures
        cross_outcome(a, empty) matches Ok(out) && has_no_rows(out),
        cross_outcome(empty, a) matches Ok(out) && has_no_rows(out),
{
    assert(a.num_rows * 0 == 0) by (nonlinear_arith);
    assert(0 * a.num_rows == 0) by (nonlinear_arith);
    let left_first = cross_outcome(a, empty)->Ok_0;
    assert forall|i: int| 0 <= i < left_first.cols.len() implies (#[trigger] left_first.cols[i]).rows.len()
        == 0 by {
        if i < a.cols.len() {
            assert(a.cols[i].rows.len() * 0 == 0) by (nonlinear_arith);
        } else {
            assert(empty.cols[i - a.cols.len()].rows.len() == 0);
            assert(a.num_rows * 0 == 0) by (nonlinear_arith);
        }
    }
    let right_first = cross_outcome(empty, a)->Ok_0;
    assert forall|i: int| 0 <= i < right_first.cols.len() implies (#[trigger] right_first.cols[i]).rows.len()
        == 0 by {
        if i < empty.cols.len() {
            assert(empty.cols[i].rows.len() == 0);
            assert(0 * a.num_rows == 0) by (nonlinear_arith);
        } else {
            assert(0 * a.cols[i - empty.cols.len()].rows.len() == 0) by (nonlinear_arith);
        }
    }
}

/// The picks of the cross join for the columns of one side: for each of the
/// `total` output rows, the row of that side that it takes.
spec fn side_picks(total: nat, right_rows: nat, left_side: bool) -> Seq<RowPick> {
    Seq::new(
        total,
        |k: int|
            RowPick {
                source: 0,
                row: if left_side {
                    (k / right_rows as int) as usize
                } else {
                    (k % right_rows as int) as usize
                },
            },
    )
}

fn build_picks(left_rows: usize, right_rows: usize, total: usize, left_side: bool) -> (picks: Vec<
    RowPick,
>)
    requires
        total == left_rows * right_rows,
    ensures
        picks@ == side_picks(total as nat, right_rows as nat, left_side),
        forall|k: int|
            0 <= k < picks@.len() ==> (#[trigger] picks@[k]).row < (if left_side {
                left_rows
            } else {
                right_rows
            }),
{
    let mut picks: Vec<RowPick> = Vec::new();
    let mut i: usize = 0;
    while i < left_rows
        invariant
            i <= left_rows,
            total == left_rows * right_rows,
            picks@.len() == i * right_rows,
            forall|k: int|
                0 <= k < picks@.len() ==> (#[trigger] picks@[k]) == side_picks(
                    total as nat,
                    right_rows as nat,
                    left_side,
                )[k],
            forall|k: int|
                0 <= k < picks@.len() ==> (#[trigger] picks@[k]).row < (if left_side {
                    left_rows
                } else {
                    right_rows
                }),
        decreases left_rows - i,
    {
        let mut j: usize = 0;
        while j < right_rows
            invariant
                j <= right_rows,
                i < left_rows,
                total == left_rows * right_rows,
                picks@.len() == i * right_rows + j,
                forall|k: int|
                    0 <= k < picks@.len() ==> (#[trigger] picks@[k]) == side_picks(
                        total as nat,
                        right_rows as nat,
                        left_side,
                    )[k],
                forall|k: int|
                    0 <= k < picks@.len() ==> (#[trigger] picks@[k]).row < (if left_side {
                        left_rows
                    } else {
                        right_rows
                    }),
            decreases right_rows - j,
        {
            proof {
                let k = i * right_rows + j;
                lemma_fundamental_div_mod_converse(k as int, right_rows as int, i as int, j as int);
                assert(i * right_rows + j < left_rows * right_rows) by (nonlinear_arith)
                    requires
                        i < left_rows,
                        j < right_rows,
                ;
            }
            picks.push(
                RowPick {
                    source: 0,
                    row: if left_side {
                        i
                    } else {
                        j
                    },
                },
            );
            j += 1;
        }
        proof {
            assert(i * right_rows + right_rows == (i + 1) * right_rows) by (nonlinear_arith);
        }
        i += 1;
    }
    assert(picks@ =~= side_picks(total as nat, right_rows as nat, left_side));
    picks
}

/// Joins every row of the left batch with every row of the right batch,
/// as `cross_outcome` states.
pub fn cross_join(left: &Batch, right: &Batch) -> (r: Result<Batch, RayexecError>)
    ensures
        batch_result_is(r, cross_outcome(left@, right@)),
{
    let left_rows = left.num_rows();
    let right_rows = right.num_rows();
    let total = match left_rows.checked_mul(right_rows) {
        Some(total) => total,
        None => {
            return Err(RayexecError::new("Cross join produces too many rows"));
        },
    };
    let left_picks = build_picks(left_rows, right_rows, total, true);
    let right_picks = build_picks(left_rows, right_rows, total, false);
    let mut cols: Vec<Array> = Vec::new();
    assert(column_views(cols@) =~= Seq::<ArrayView>::empty());

    let left_cols = left.columns();
    let mut c: usize = 0;
    while c < left_cols.len()
        invariant
            c <= left_cols.len(),
            column_views(left_cols@) == left@.cols,
            columns_have_rows(left@.cols, left@.num_rows),
            left_rows == left@.num_rows,
            right_rows == right@.num_rows,
            total == left_rows * right_rows,
            left_picks@ == side_picks(total as nat, right_rows as nat, true),
            forall|k: int| 0 <= k < left_picks@.len() ==> (#[trigger] left_picks@[k]).row < left_rows,
            column_views(cols@) == left@.cols.take(c as int).map_values(
                |col: ArrayView| left_column(col, right_rows as nat),
            ),
            columns_have_rows(column_views(cols@), total as nat),
        decreases left_cols.len() - c,
    {
        let ghost before = column_views(cols@);
        let sources = [&left_cols[c]];
        proof {
            assert(column_views(left_cols@)[c as int] == left_cols@[c as int]@);
            assert(views(sources@) =~= seq![left_cols@[c as int]@]);
            assert(picked_rows(views(sources@), left_picks@) =~= left_column(
                left_cols@[c as int]@,
                right_rows as nat,
            ).rows);
        }
        let col = match gather(sources.as_slice(), &left_picks) {
            Ok(col) => col,
            Err(_) => {
                proof {
                    assert(false);
                }
                return Err(RayexecError::new("Cross join produces too many rows"));
            },
        };
        cols.push(col);
        proof {
            assert(column_views(cols@) =~= before.push(col@));
            assert(left@.cols.take(c + 1).map_values(
                |col: ArrayView| left_column(col, right_rows as nat),
            ) =~= before.push(col@));
        }
        c += 1;
    }
    proof {
        assert(left@.cols.take(left_cols.len() as int) =~= left@.cols);
    }
    let ghost left_part = column_views(cols@);

    let right_cols = right.columns();
    let mut c: usize = 0;
    while c < right_cols.len()
        invariant
            c <= right_cols.len(),
            column_views(right_cols@) == right@.cols,
            columns_have_rows(right@.cols, right@.num_rows),
            left_rows == left@.num_rows,
            right_rows == right@.num_rows,
            total == left_rows * right_rows,
            right_picks@ == side_picks(total as nat, right_rows as nat, false),
            forall|k: int|
                0 <= k < right_picks@.len() ==> (#[trigger] right_picks@[k]).row < right_rows,
            column_views(cols@) == left_part + right@.cols.take(c as int).map_values(
                |col: ArrayView| right_column(col, left_rows as nat),
            ),
            columns_have_rows(column_views(cols@), total as nat),
        decreases right_cols.len() - c,
    {
        let ghost before = column_views(cols@);
        let sources = [&right_cols[c]];
        proof {
            assert(column_views(right_cols@)[c as int] == right_cols@[c as int]@);
            assert(views(sources@) =~= seq![right_cols@[c as int]@]);
            assert(picked_rows(views(sources@), right_picks@) =~= right_column(
                right_cols@[c as int]@,
                left_rows as nat,
            ).rows);
        }
        let col = match gather(sources.as_slice(), &right_picks) {
            Ok(col) => col,
            Err(_) => {
                proof {
                    assert(false);
                }
                return Err(RayexecError::new("Cross join produces too many rows"));
            },
        };
        cols.push(col);
        proof {
            assert(column_views(cols@) =~= before.push(col@));
            assert(left_part + right@.cols.take(c + 1).map_values(
                |col: ArrayView| right_column(col, left_rows as nat),
            ) =~= before.push(col@));
        }
        c += 1;
    }
    proof {
        assert(right@.cols.take(right_cols.len() as int) =~= right@.cols);
    }
    Batch::try_with_num_rows(cols, total)
}

/// The nested-loop operator of a cross join: one side is buffered, and
/// every batch of the other side is joined with it.
#[derive(Debug)]
pub struct PhysicalNestedLoopJoin {
    /// The rows of the buffered side.
    pub buffered: Batch,
    /// Whether the buffered side is the left side of the join.
    pub buffered_left: bool,
}

impl PhysicalNestedLoopJoin {
    /// Joins a batch with the buffered side; the columns of the left side
    /// of the join come first.
    pub fn execute(&self, batch: &Batch) -> (r: Result<Batch, RayexecError>)
        ensures
            batch_result_is(
                r,
                if self.buffered_left {
                    cross_outcome(self.buffered@, batch@)
                } else {
                    cross_outcome(batch@, self.buffered@)
                },
            ),
    {
        if self.buffered_left {
            cross_join(&self.buffered, batch)
        } else {
            cross_join(batch, &self.buffered)
        }
    }
}

} // verus!
