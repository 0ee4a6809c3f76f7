//! Batches: equal-length columns and a row count.

use crate::array::{Array, ArrayView};
use crate::error::{fails_with, RayexecError};
use vstd::prelude::*;

verus! {

/// What a batch holds: its columns and its row count.
pub ghost struct BatchView {
    pub cols: Seq<ArrayView>,
    pub num_rows: nat,
}

/// An ordered tuple of equal-length arrays plus a row count. A batch
/// without columns still has a row count.
#[derive(Debug)]
pub struct Batch {
    cols: Vec<Array>,
    num_rows: usize,
}

/// Whether every column has the given number of rows.
pub open spec fn columns_have_rows(cols: Seq<ArrayView>, num_rows: nat) -> bool {
    forall|i: int| 0 <= i < cols.len() ==> (#[trigger] cols[i]).rows.len() == num_rows
}

/// The number of rows of the first column, or zero without columns.
pub open spec fn first_column_rows(cols: Seq<ArrayView>) -> nat {
    if cols.len() > 0 {
        cols[0].rows.len()
    } else {
        0
    }
}

/// The message of the error for columns of different lengths.
pub open spec fn column_length_text() -> Seq<char> {
    "Expected input arrays to all be the same length"@
}

/// The views of a list of owned arrays.
pub open spec fn column_views(cols: Seq<Array>) -> Seq<ArrayView> {
    cols.map_values(|a: Array| a@)
}

impl View for Batch {
    type V = BatchView;

    closed spec fn view(&self) -> BatchView {
        BatchView { cols: column_views(self.cols@), num_rows: self.num_rows as nat }
    }
}

impl Batch {
    #[verifier::type_invariant]
    spec fn well_formed(&self) -> bool {
        columns_have_rows(column_views(self.cols@), self.num_rows as nat)
    }

    /// A batch without columns that has the given number of rows.
    pub fn empty_with_num_rows(num_rows: usize) -> (b: Batch)
        ensures
            b@ == (BatchView { cols: Seq::empty(), num_rows: num_rows as nat }),
    {
        let b = Batch { cols: Vec::new(), num_rows };
        assert(b@.cols =~= Seq::<ArrayView>::empty());
        b
    }

    /// A batch over the given columns. Its row count is the length of the
    /// first column, or zero without columns. Fails when the columns differ
    /// in length.
    pub fn try_new(cols: Vec<Array>) -> (r: Result<Batch, RayexecError>)
        ensures
            ({
                let num_rows = first_column_rows(column_views(cols@));
                if columns_have_rows(column_views(cols@), num_rows) {
                    r matches Ok(b) && b@ == (BatchView { cols: column_views(cols@), num_rows })
                } else {
                    fails_with(r, column_length_text())
                }
            }),
    {
        let num_rows = if cols.len() > 0 {
            cols[0].logical_len()
        } else {
            0
        };
        Batch::try_with_num_rows(cols, num_rows)
    }

    pub fn num_rows(&self) -> (n: usize)
        ensures
            n == self@.num_rows,
    {
        self.num_rows
    }

    pub fn num_columns(&self) -> (n: usize)
        ensures
            n == self@.cols.len(),
    {
        self.cols.len()
    }

    /// The column at an index, if there is one. Every column has as many
    /// rows as the batch.
    pub fn column(&self, idx: usize) -> (r: Option<&Array>)
        ensures
            idx < self@.cols.len() ==> (r matches Some(a) && a@ == self@.cols[idx as int]
                && a@.rows.len() == self@.num_rows),
            idx >= self@.cols.len() ==> r is None,
    {
        proof {
            use_type_invariant(self);
        }
        if idx < self.cols.len() {
            let a = &self.cols[idx];
            assert(column_views(self.cols@)[idx as int] == a@);
            Some(a)
        } else {
            None
        }
    }

    /// The columns. Every column has as many rows as the batch.
    pub fn columns(&self) -> (cols: &Vec<Array>)
        ensures
            column_views(cols@) == self@.cols,
            columns_have_rows(self@.cols, self@.num_rows),
    {
        proof {
            use_type_invariant(self);
        }
        &self.cols
    }

    /// A batch over the given columns with the given row count; fails when
    /// a column has another length.
    pub fn try_with_num_rows(cols: Vec<Array>, num_rows: usize) -> (r: Result<Batch, RayexecError>)
        ensures
            columns_have_rows(column_views(cols@), num_rows as nat) ==> (r matches Ok(b) && b@
                == (BatchView { cols: column_views(cols@), num_rows: num_rows as nat })),
            !columns_have_rows(column_views(cols@), num_rows as nat) ==> fails_with(
                r,
                column_length_text(),
            ),
    {
        let mut i: usize = 0;
        while i < cols.len()
            invariant
                i <= cols.len(),
                columns_have_rows(column_views(cols@).take(i as int), num_rows as nat),
            decreases cols.len() - i,
        {
            if cols[i].logical_len() != num_rows {
                assert(column_views(cols@)[i as int].rows.len() != num_rows);
                return Err(RayexecError::new("Expected input arrays to all be the same length"));
            }
            proof {
                assert forall|k: int| 0 <= k < i + 1 implies (#[trigger] column_views(cols@).take(
                    i + 1,
                )[k]).rows.len() == num_rows by {
                    if k < i {
                        assert(column_views(cols@).take(i as int)[k] == column_views(cols@)[k]);
                    }
                }
            }
            i += 1;
        }
        assert(column_views(cols@).take(cols.len() as int) =~= column_views(cols@));
        Ok(Batch { cols, num_rows })
    }
}

impl Clone for Batch {
    fn clone(&self) -> (r: Self)
        ensures
            r@ == self@,
    {
        proof {
            use_type_invariant(self);
        }
        let mut cols: Vec<Array> = Vec::new();
        let mut i: usize = 0;
        while i < self.cols.len()
            invariant
                i <= self.cols.len(),
                column_views(cols@) =~= column_views(self.cols@).take(i as int),
                columns_have_rows(column_views(self.cols@), self.num_rows as nat),
            decreases self.cols.len() - i,
        {
            let ghost before = column_views(cols@);
            let col = self.cols[i].clone();
            cols.push(col);
            proof {
                assert(column_views(self.cols@)[i as int] == self.cols@[i as int]@);
                assert(column_views(cols@) =~= before.push(col@));
                assert(column_views(self.cols@).take(i + 1) =~= before.push(col@));
            }
            i += 1;
        }
        proof {
            assert(column_views(self.cols@).take(self.cols.len() as int) =~= column_views(
                self.cols@,
            ));
        }
        Batch { cols, num_rows: self.num_rows }
    }
}

} // verus!
