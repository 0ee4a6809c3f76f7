//! The union of two batches that keeps duplicates: the rows of the first,
//! then the rows of the second.

use crate::array::{
    concat_arrays, concat_rows, mixed_types_text, same_types, views, Array, ArrayView,
};
use crate::batch::{column_views, columns_have_rows, Batch, BatchView};
use crate::error::RayexecError;
use crate::physical::plans::batch_result_is;
use vstd::prelude::*;

verus! {

/// The message of the error for batches with different numbers of columns.
pub open spec fn column_count_text() -> Seq<char> {
    "Cannot union batches with different numbers of columns"@
}

/// The message of the error for a union with more rows than can be
/// counted.
pub open spec fn union_size_text() -> Seq<char> {
    "Union produces too many rows"@
}

/// Whether two batches have columns of the same types, column by column.
pub open spec fn same_column_types(top: BatchView, bottom: BatchView) -> bool {
    top.cols.len() == bottom.cols.len() && forall|i: int|
        0 <= i < top.cols.len() ==> (#[trigger] top.cols[i]).datatype == bottom.cols[i].datatype
}

/// The union of two batches that keeps duplicates, or the message of the
/// error. The batches must have as many columns, of the same types; each
/// output column holds the rows of the first batch, then the rows of the
/// second.
pub open spec fn union_outcome(top: BatchView, bottom: BatchView) -> Result<BatchView, Seq<char>> {
    if top.cols.len() != bottom.cols.len() {
        Err(column_count_text())
    } else if top.num_rows + bottom.num_rows > usize::MAX {
        Err(union_size_text())
    } else if !same_column_types(top, bottom) {
        Err(mixed_types_text())
    } else {
        Ok(
            BatchView {
                cols: Seq::new(
                    top.cols.len(),
                    |i: int|
                        ArrayView {
                            datatype: top.cols[i].datatype,
                            rows: top.cols[i].rows + bottom.cols[i].rows,
                        },
                ),
                num_rows: top.num_rows + bottom.num_rows,
            },
        )
    }
}

/// The union of a batch with a batch of the same columns and no rows is
/// the batch itself.
pub proof fn lemma_union_with_empty(a: BatchView, empty: BatchView)
    requires
        columns_have_rows(a.cols, a.num_rows),
        columns_have_rows(empty.cols, empty.num_rows),
        a.num_rows <= usize::MAX,
        empty.num_rows == 0,
        same_column_types(a, empty),
    ensures
        union_outcome(a, empty) == Ok::<BatchView, Seq<char>>(a),
{
    let out = union_outcome(a, empty)->Ok_0;
    assert forall|i: int| 0 <= i < a.cols.len() implies #[trigger] out.cols[i] == a.cols[i] by {
        assert(empty.cols[i].rows.len() == 0);
        assert(a.cols[i].rows + empty.cols[i].rows =~= a.cols[i].rows);
    }
    assert(out.cols =~= a.cols);
}

/// The rows of two arrays, one after the other.
proof fn lemma_concat_pair(a: ArrayView, b: ArrayView)
    ensures
        concat_rows(seq![a, b], 2) == a.rows + b.rows,
{
    reveal_with_fuel(concat_rows, 3);
    assert(concat_rows(seq![a, b], 0) =~= Seq::empty());
    assert(Seq::empty() + a.rows =~= a.rows);
}

/// Puts the rows of the second batch after the rows of the first, as
/// `union_outcome` states.
#[verifier::loop_isolation(false)]
pub fn union_all(top: &Batch, bottom: &Batch) -> (r: Result<Batch, RayexecError>)
    ensures
        batch_result_is(r, union_outcome(top@, bottom@)),
{
    if top.num_columns() != bottom.num_columns() {
        return Err(RayexecError::new("Cannot union batches with different numbers of columns"));
    }
    let total = match top.num_rows().checked_add(bottom.num_rows()) {
        Some(total) => total,
        None => {
            return Err(RayexecError::new("Union produces too many rows"));
        },
    };
    let top_cols = top.columns();
    let bottom_cols = bottom.columns();
    let mut cols: Vec<Array> = Vec::new();
    assert(column_views(cols@) =~= Seq::<ArrayView>::empty());
    let mut c: usize = 0;
    while c < top_cols.len()
        invariant
            c <= top_cols.len(),
            top_cols@.len() == bottom_cols@.len(),
            cols@.len() == c,
            forall|i: int| 0 <= i < c ==> top@.cols[i].datatype == bottom@.cols[i].datatype,
            forall|i: int|
                0 <= i < c ==> (#[trigger] column_views(cols@)[i]) == (ArrayView {
                    datatype: top@.cols[i].datatype,
                    rows: top@.cols[i].rows + bottom@.cols[i].rows,
                }),
            columns_have_rows(column_views(cols@), total as nat),
        decreases top_cols.len() - c,
    {
        let ghost before = column_views(cols@);
        let sources = [&top_cols[c], &bottom_cols[c]];
        proof {
            assert(column_views(top_cols@)[c as int] == top_cols@[c as int]@);
            assert(column_views(bottom_cols@)[c as int] == bottom_cols@[c as int]@);
            assert(views(sources@) =~= seq![top@.cols[c as int], bottom@.cols[c as int]]);
            lemma_concat_pair(top@.cols[c as int], bottom@.cols[c as int]);
            if top@.cols[c as int].datatype != bottom@.cols[c as int].datatype {
                assert(views(sources@)[1].datatype != views(sources@)[0].datatype);
                assert(!same_types(views(sources@)));
                assert(!same_column_types(top@, bottom@));
            }
        }
        let joined = concat_arrays(sources.as_slice());
        if joined.is_err() {
            return Err(joined.unwrap_err());
        }
        let col = joined.unwrap();
        cols.push(col);
        proof {
            assert(column_views(cols@) =~= before.push(col@));
        }
        c += 1;
    }
    proof {
        assert(same_column_types(top@, bottom@));
        assert(column_views(cols@) =~= union_outcome(top@, bottom@)->Ok_0.cols);
    }
    Batch::try_with_num_rows(cols, total)
}

} // verus!
