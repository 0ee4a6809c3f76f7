//! Keeps the rows of a batch for which a predicate is true.

use crate::array::{array_rows, kept_rows, Array, ArrayView};
use crate::batch::{column_views, columns_have_rows, Batch, BatchView};
use crate::datatype::DataType;
use crate::error::RayexecError;
use crate::expr::physical::{eval_outcome, PhysicalScalarExpression};
use crate::physical::plans::batch_result_is;
use crate::scalar::ScalarValue;
use crate::storage::{Datum, PhysicalBool, PhysicalStorage};
use vstd::prelude::*;

verus! {

#[derive(Debug, PartialEq, Eq)]
pub struct PhysicalFilter {
    pub predicate: PhysicalScalarExpression,
}

/// The message of the error for a predicate that is not boolean.
pub open spec fn predicate_type_text() -> Seq<char> {
    "Filter predicate must evaluate to a boolean array"@
}

/// The rows that a predicate selects: those where it is true. A row where
/// it is false or NULL is not selected.
pub open spec fn selection(predicate: Seq<Option<Datum>>) -> Seq<bool> {
    Seq::new(predicate.len(), |i: int| predicate[i] == Some(Datum::Boolean(true)))
}

/// The number of set entries among the first `upto` of a mask.
pub open spec fn kept_count(keep: Seq<bool>, upto: nat) -> nat
    decreases upto,
{
    if upto == 0 || upto > keep.len() {
        0
    } else if keep[upto - 1] {
        kept_count(keep, (upto - 1) as nat) + 1
    } else {
        kept_count(keep, (upto - 1) as nat)
    }
}

/// A column with only the rows that a mask keeps.
pub open spec fn kept_column(col: ArrayView, keep: Seq<bool>) -> ArrayView {
    ArrayView { datatype: col.datatype, rows: kept_rows(col.rows, keep, keep.len()) }
}

/// A batch with only the rows that a mask keeps.
pub open spec fn kept_batch(batch: BatchView, keep: Seq<bool>) -> BatchView {
    BatchView {
        cols: batch.cols.map_values(|c: ArrayView| kept_column(c, keep)),
        num_rows: kept_count(keep, keep.len()),
    }
}

/// What a filter gives for a batch: the batch with only the rows that the
/// predicate selects; or the message of the error where the predicate
/// cannot be evaluated or is not boolean.
pub open spec fn filter_outcome(predicate: PhysicalScalarExpression, batch: BatchView) -> Result<
    BatchView,
    Seq<char>,
> {
    match eval_outcome(predicate, batch) {
        Err(msg) => Err(msg),
        Ok(p) => if p.datatype != DataType::Boolean {
            Err(predicate_type_text())
        } else {
            Ok(kept_batch(batch, selection(p.rows)))
        },
    }
}

/// A mask keeps as many rows of a column as it has set entries.
pub proof fn lemma_kept_rows_len(rows: Seq<Option<Datum>>, keep: Seq<bool>, upto: nat)
    requires
        upto <= rows.len(),
        upto <= keep.len(),
    ensures
        kept_rows(rows, keep, upto).len() == kept_count(keep, upto),
    decreases upto,
{
    if upto > 0 {
        lemma_kept_rows_len(rows, keep, (upto - 1) as nat);
    }
}

/// A mask that is set everywhere keeps every row.
pub proof fn lemma_keep_all(rows: Seq<Option<Datum>>, keep: Seq<bool>, upto: nat)
    requires
        upto <= rows.len(),
        upto <= keep.len(),
        forall|i: int| 0 <= i < keep.len() ==> keep[i],
    ensures
        kept_rows(rows, keep, upto) == rows.take(upto as int),
        kept_count(keep, upto) == upto,
    decreases upto,
{
    if upto > 0 {
        lemma_keep_all(rows, keep, (upto - 1) as nat);
        assert(rows.take(upto - 1).push(rows[upto - 1]) =~= rows.take(upto as int));
    } else {
        assert(rows.take(0) =~= Seq::<Option<Datum>>::empty());
    }
}

/// A mask that is set nowhere keeps no row.
pub proof fn lemma_keep_none(rows: Seq<Option<Datum>>, keep: Seq<bool>, upto: nat)
    requires
        upto <= rows.len(),
        upto <= keep.len(),
        forall|i: int| 0 <= i < keep.len() ==> !keep[i],
    ensures
        kept_rows(rows, keep, upto) == Seq::<Option<Datum>>::empty(),
        kept_count(keep, upto) == 0,
    decreases upto,
{
    if upto > 0 {
        lemma_keep_none(rows, keep, (upto - 1) as nat);
    }
}

/// A batch without rows and with the columns' types.
pub open spec fn emptied(batch: BatchView) -> BatchView {
    BatchView {
        cols: batch.cols.map_values(
            |c: ArrayView| ArrayView { datatype: c.datatype, rows: Seq::empty() },
        ),
        num_rows: 0,
    }
}

/// A filter on the constant true gives its input back, and a filter on the
/// constant false gives a batch without rows.
pub proof fn lemma_constant_filters(batch: BatchView)
    requires
        columns_have_rows(batch.cols, batch.num_rows),
    ensures
        filter_outcome(PhysicalScalarExpression::Literal(ScalarValue::Boolean(true)), batch) == Ok::<
            BatchView,
            Seq<char>,
        >(batch),
        filter_outcome(PhysicalScalarExpression::Literal(ScalarValue::Boolean(false)), batch)
            == Ok::<BatchView, Seq<char>>(emptied(batch)),
{
    let n = batch.num_rows;
    let all = selection(Seq::new(n, |i: int| Some(Datum::Boolean(true))));
    let none = selection(Seq::new(n, |i: int| Some(Datum::Boolean(false))));
    lemma_keep_all(Seq::new(n, |i: int| None::<Datum>), all, n);
    lemma_keep_none(Seq::new(n, |i: int| None::<Datum>), none, n);
    assert forall|k: int| 0 <= k < batch.cols.len() implies #[trigger] kept_batch(batch, all).cols[k]
        == batch.cols[k] by {
        lemma_keep_all(batch.cols[k].rows, all, n);
        assert(batch.cols[k].rows.take(n as int) =~= batch.cols[k].rows);
    }
    assert(kept_batch(batch, all).cols =~= batch.cols);
    assert forall|k: int| 0 <= k < batch.cols.len() implies #[trigger] kept_batch(
        batch,
        none,
    ).cols[k] == emptied(batch).cols[k] by {
        lemma_keep_none(batch.cols[k].rows, none, n);
    }
    assert(kept_batch(batch, none).cols =~= emptied(batch).cols);
}

/// Keeps the rows of a batch that a mask keeps. The mask must have one
/// entry per row.
pub fn keep_rows(batch: &Batch, keep: &Vec<bool>) -> (r: Result<Batch, RayexecError>)
    requires
        keep@.len() == batch@.num_rows,
    ensures
        r matches Ok(out) && out@ == kept_batch(batch@, keep@),
{
    let mut count: usize = 0;
    let mut i: usize = 0;
    while i < keep.len()
        invariant
            i <= keep.len(),
            count == kept_count(keep@, i as nat),
            count <= i,
        decreases keep.len() - i,
    {
        if keep[i] {
            count += 1;
        }
        i += 1;
    }
    let columns = batch.columns();
    let mut cols: Vec<Array> = Vec::new();
    assert(column_views(cols@) =~= Seq::<ArrayView>::empty());
    let mut c: usize = 0;
    while c < columns.len()
        invariant
            c <= columns.len(),
            column_views(columns@) == batch@.cols,
            columns_have_rows(batch@.cols, batch@.num_rows),
            keep@.len() == batch@.num_rows,
            count == kept_count(keep@, keep@.len()),
            column_views(cols@) == batch@.cols.take(c as int).map_values(
                |col: ArrayView| kept_column(col, keep@),
            ),
            columns_have_rows(column_views(cols@), count as nat),
        decreases columns.len() - c,
    {
        let ghost before = column_views(cols@);
        assert(column_views(columns@)[c as int] == columns@[c as int]@);
        let kept = columns[c].filter(keep);
        proof {
            lemma_kept_rows_len(columns@[c as int]@.rows, keep@, keep@.len());
        }
        cols.push(kept);
        proof {
            assert(column_views(cols@) =~= before.push(kept@));
            assert(batch@.cols.take(c + 1).map_values(
                |col: ArrayView| kept_column(col, keep@),
            ) =~= before.push(kept@));
        }
        c += 1;
    }
    proof {
        assert(batch@.cols.take(columns.len() as int) =~= batch@.cols);
    }
    Batch::try_with_num_rows(cols, count)
}

impl PhysicalFilter {
    pub fn try_new(predicate: PhysicalScalarExpression) -> (r: Result<Self, RayexecError>)
        ensures
            r matches Ok(f) && f.predicate == predicate,
    {
        Ok(PhysicalFilter { predicate })
    }

    /// Keeps the rows of a batch that the predicate selects, as
    /// `filter_outcome` states.
    pub fn execute(&self, batch: &Batch) -> (r: Result<Batch, RayexecError>)
        ensures
            batch_result_is(r, filter_outcome(self.predicate, batch@)),
    {
        let selected = self.predicate.eval(batch)?;
        if !(*selected.datatype() == DataType::Boolean) {
            return Err(RayexecError::new("Filter predicate must evaluate to a boolean array"));
        }
        let n = batch.num_rows();
        let data = selected.data();
        let values = match PhysicalBool::get_storage(data) {
            Some(values) => values,
            None => {
                proof {
                    assert(false);
                }
                return Err(RayexecError::new("Filter predicate must evaluate to a boolean array"));
            },
        };
        let mut keep: Vec<bool> = Vec::new();
        let mut i: usize = 0;
        while i < n
            invariant
                i <= n,
                n == selected@.rows.len(),
                n == values@.len(),
                data.spec_len() == n,
                selected@.rows == array_rows(*data, selected.spec_validity()),
                !(data is UntypedNull),
                forall|k: int|
                    0 <= k < n ==> PhysicalBool::datum(#[trigger] values@[k]) == data.datum(k),
                keep@ == selection(selected@.rows).take(i as int),
            decreases n - i,
        {
            let kept = selected.is_valid(i) && values[i];
            keep.push(kept);
            proof {
                assert(keep@ =~= selection(selected@.rows).take(i + 1));
            }
            i += 1;
        }
        proof {
            assert(selection(selected@.rows).take(n as int) =~= selection(selected@.rows));
        }
        keep_rows(batch, &keep)
    }
}

} // verus!
