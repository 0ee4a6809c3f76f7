//! Computes the columns of the output from expressions over the input.

use crate::array::{Array, ArrayView};
use crate::batch::{column_views, columns_have_rows, Batch, BatchView};
use crate::error::RayexecError;
use crate::expr::physical::{eval_outcome, PhysicalScalarExpression};
use crate::physical::plans::batch_result_is;
use vstd::prelude::*;

verus! {

#[derive(Debug, PartialEq, Eq)]
pub struct PhysicalProjection {
    pub exprs: Vec<PhysicalScalarExpression>,
}

/// What evaluating the first `upto` expressions of a list against a batch
/// gives: the arrays, in order, or the message of the first error.
pub open spec fn eval_all(exprs: Seq<PhysicalScalarExpression>, batch: BatchView, upto: nat) -> Result<
    Seq<ArrayView>,
    Seq<char>,
>
    decreases upto,
{
    if upto == 0 || upto > exprs.len() {
        Ok(Seq::empty())
    } else {
        match eval_all(exprs, batch, (upto - 1) as nat) {
            Err(msg) => Err(msg),
            Ok(cols) => match eval_outcome(exprs[upto - 1], batch) {
                Err(msg) => Err(msg),
                Ok(a) => Ok(cols.push(a)),
            },
        }
    }
}

/// What a projection gives for a batch: a batch of as many rows whose
/// columns are what the expressions evaluate to.
pub open spec fn projection_outcome(exprs: Seq<PhysicalScalarExpression>, batch: BatchView) -> Result<
    BatchView,
    Seq<char>,
> {
    match eval_all(exprs, batch, exprs.len()) {
        Err(msg) => Err(msg),
        Ok(cols) => Ok(BatchView { cols, num_rows: batch.num_rows }),
    }
}

/// The expressions that pass the first `n` columns of the input on, in
/// order.
pub open spec fn is_identity_projection(exprs: Seq<PhysicalScalarExpression>, n: nat) -> bool {
    exprs.len() == n && forall|i: int|
        0 <= i < n ==> #[trigger] exprs[i] == PhysicalScalarExpression::Column(i as usize)
}

proof fn lemma_identity_eval_all(exprs: Seq<PhysicalScalarExpression>, batch: BatchView, upto: nat)
    requires
        is_identity_projection(exprs, batch.cols.len()),
        upto <= exprs.len(),
        batch.cols.len() <= usize::MAX,
    ensures
        eval_all(exprs, batch, upto) == Ok::<Seq<ArrayView>, Seq<char>>(
            batch.cols.take(upto as int),
        ),
    decreases upto,
{
    if upto > 0 {
        lemma_identity_eval_all(exprs, batch, (upto - 1) as nat);
        assert(exprs[upto - 1] == PhysicalScalarExpression::Column((upto - 1) as usize));
        assert(batch.cols.take(upto - 1).push(batch.cols[upto - 1]) =~= batch.cols.take(
            upto as int,
        ));
    } else {
        assert(batch.cols.take(0) =~= Seq::<ArrayView>::empty());
    }
}

/// A projection whose expressions are the input's columns in order gives
/// the input back; applying it again changes nothing.
pub proof fn lemma_identity_projection(exprs: Seq<PhysicalScalarExpression>, batch: BatchView)
    requires
        is_identity_projection(exprs, batch.cols.len()),
        batch.cols.len() <= usize::MAX,
    ensures
        projection_outcome(exprs, batch) == Ok::<BatchView, Seq<char>>(batch),
        projection_outcome(exprs, projection_outcome(exprs, batch)->Ok_0) == projection_outcome(
            exprs,
            batch,
        ),
{
    lemma_identity_eval_all(exprs, batch, exprs.len());
    assert(batch.cols.take(exprs.len() as int) =~= batch.cols);
}

impl PhysicalProjection {
    pub fn try_new(exprs: Vec<PhysicalScalarExpression>) -> (r: Result<Self, RayexecError>)
        ensures
            r matches Ok(p) && p.exprs == exprs,
    {
        Ok(PhysicalProjection { exprs })
    }

    /// Evaluates the expressions against a batch, as `projection_outcome`
    /// states.
    pub fn execute(&self, batch: &Batch) -> (r: Result<Batch, RayexecError>)
        ensures
            batch_result_is(r, projection_outcome(self.exprs@, batch@)),
    {
        let mut cols: Vec<Array> = Vec::new();
        assert(column_views(cols@) =~= Seq::<ArrayView>::empty());
        let mut i: usize = 0;
        while i < self.exprs.len()
            invariant
                i <= self.exprs.len(),
                eval_all(self.exprs@, batch@, i as nat) == Ok::<Seq<ArrayView>, Seq<char>>(
                    column_views(cols@),
                ),
                columns_have_rows(column_views(cols@), batch@.num_rows),
            decreases self.exprs.len() - i,
        {
            let ghost before = column_views(cols@);
            let col = match self.exprs[i].eval(batch) {
                Ok(col) => col,
                Err(e) => {
                    proof {
                        lemma_eval_all_error(self.exprs@, batch@, (i + 1) as nat, self.exprs@.len());
                    }
                    return Err(e);
                },
            };
            cols.push(col);
            proof {
                assert(column_views(cols@) =~= before.push(col@));
            }
            i += 1;
        }
        Batch::try_with_num_rows(cols, batch.num_rows())
    }
}

/// Once evaluating the first expressions fails, evaluating more fails the
/// same way.
pub proof fn lemma_eval_all_error(
    exprs: Seq<PhysicalScalarExpression>,
    batch: BatchView,
    upto: nat,
    more: nat,
)
    requires
        upto <= more <= exprs.len(),
        eval_all(exprs, batch, upto) is Err,
    ensures
        eval_all(exprs, batch, more) == eval_all(exprs, batch, upto),
    decreases more,
{
    if more > upto {
        lemma_eval_all_error(exprs, batch, upto, (more - 1) as nat);
    }
}

} // verus!
