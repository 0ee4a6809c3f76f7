//! A linear sequence of a source and operators, executed by one worker at
//! a time. The chains of a pipeline all feed the pipeline's sink.

use crate::batch::{Batch, BatchView};
use crate::error::{fails_with, RayexecError};
use crate::physical::plans::union::{union_all, union_outcome};
use crate::physical::plans::{
    batch_result_is, operator_outcome, OperatorView, PhysicalOperator, PhysicalSource, SourceView,
};
use vstd::prelude::*;

verus! {

/// A chain: data flows strictly linearly from the source through the
/// operators, in order, and from there into the sink of the pipeline.
#[derive(Debug)]
pub struct OperatorChain {
    pub source: PhysicalSource,
    pub operators: Vec<PhysicalOperator>,
}

/// The source and the operators of a chain, as plain values.
pub ghost struct ChainPlan {
    pub source: SourceView,
    pub operators: Seq<OperatorView>,
}

impl View for OperatorChain {
    type V = ChainPlan;

    open spec fn view(&self) -> ChainPlan {
        ChainPlan { source: self.source@, operators: operator_views(self.operators@) }
    }
}

/// The views of a list of chains.
pub open spec fn chain_views(chains: Seq<OperatorChain>) -> Seq<ChainPlan> {
    chains.map_values(|c: OperatorChain| c@)
}

/// What the first `upto` operators of a chain give for a batch, each
/// applied to what the one before it gives; or the message of the first
/// error.
pub open spec fn operators_outcome(operators: Seq<OperatorView>, batch: BatchView, upto: nat) -> Result<
    BatchView,
    Seq<char>,
>
    decreases upto,
{
    if upto == 0 || upto > operators.len() {
        Ok(batch)
    } else {
        match operators_outcome(operators, batch, (upto - 1) as nat) {
            Err(msg) => Err(msg),
            Ok(b) => operator_outcome(operators[upto - 1], b),
        }
    }
}

/// The views of a list of operators.
pub open spec fn operator_views(operators: Seq<PhysicalOperator>) -> Seq<OperatorView> {
    operators.map_values(|op: PhysicalOperator| op@)
}

/// Once the first operators fail, more operators fail the same way.
pub proof fn lemma_operators_error(
    operators: Seq<OperatorView>,
    batch: BatchView,
    upto: nat,
    more: nat,
)
    requires
        upto <= more <= operators.len(),
        operators_outcome(operators, batch, upto) is Err,
    ensures
        operators_outcome(operators, batch, more) == operators_outcome(operators, batch, upto),
    decreases more,
{
    if more > upto {
        lemma_operators_error(operators, batch, upto, (more - 1) as nat);
    }
}

impl OperatorChain {
    /// Threads a batch through the operators of the chain, in order, and
    /// returns what is to be pushed to the sink.
    #[verifier::loop_isolation(false)]
    pub fn push_through(&self, batch: Batch) -> (r: Result<Batch, RayexecError>)
        ensures
            batch_result_is(
                r,
                operators_outcome(
                    operator_views(self.operators@),
                    batch@,
                    self.operators@.len(),
                ),
            ),
    {
        let ghost input = batch@;
        let ghost ops = operator_views(self.operators@);
        let mut current = batch;
        let mut i: usize = 0;
        while i < self.operators.len()
            invariant
                i <= self.operators.len(),
                ops == operator_views(self.operators@),
                operators_outcome(ops, input, i as nat) == Ok::<BatchView, Seq<char>>(current@),
            decreases self.operators.len() - i,
        {
            assert(ops[i as int] == self.operators@[i as int]@);
            let ghost before = current@;
            assert(operators_outcome(ops, input, (i + 1) as nat) == operator_outcome(
                ops[i as int],
                before,
            ));
            let step = self.operators[i].execute(&current);
            if step.is_err() {
                proof {
                    lemma_operators_error(ops, input, (i + 1) as nat, ops.len());
                    assert(ops.len() == self.operators@.len());
                }
                return step;
            }
            current = step.unwrap();
            i += 1;
        }
        Ok(current)
    }
}

/// The message of the error for rows that only a table's provider can
/// read.
pub open spec fn table_rows_text() -> Seq<char> {
    "Not yet implemented: buffering the rows of a table scan"@
}

/// What a chain pushes to its sink when it is run where it stands, or the
/// message of the error. The empty source gives no batch, and neither does
/// a values source whose batch was handed out. A values source gives its
/// batch, which goes through the operators. The rows of a table scan are
/// read by the table's provider and cannot be had here.
pub open spec fn chain_outcome(chain: ChainPlan) -> Result<Option<BatchView>, Seq<char>> {
    match chain.source {
        SourceView::Empty => Ok(None),
        SourceView::Values { batch, exhausted } => if exhausted {
            Ok(None)
        } else {
            match operators_outcome(chain.operators, batch, chain.operators.len()) {
                Ok(out) => Ok(Some(out)),
                Err(msg) => Err(msg),
            }
        },
        SourceView::TableScan { .. } => Err(table_rows_text()),
    }
}

/// What the first `upto` chains of a list push to their sink, as one
/// batch: the batches of the chains, in order, each under the one before
/// it; or the message of the first error. Without a batch there is none.
pub open spec fn chains_outcome(chains: Seq<ChainPlan>, upto: nat) -> Result<
    Option<BatchView>,
    Seq<char>,
>
    decreases upto,
{
    if upto == 0 || upto > chains.len() {
        Ok(None)
    } else {
        match chains_outcome(chains, (upto - 1) as nat) {
            Err(msg) => Err(msg),
            Ok(above) => match chain_outcome(chains[upto - 1]) {
                Err(msg) => Err(msg),
                Ok(None) => Ok(above),
                Ok(Some(batch)) => match above {
                    None => Ok(Some(batch)),
                    Some(top) => match union_outcome(top, batch) {
                        Ok(both) => Ok(Some(both)),
                        Err(msg) => Err(msg),
                    },
                },
            },
        }
    }
}

/// The batch without columns and without rows.
pub open spec fn no_rows() -> BatchView {
    BatchView { cols: Seq::empty(), num_rows: 0 }
}

/// The rows that the chains of a list push to their sink, as one batch, or
/// the message of the error. Where no chain pushes a batch, it is the batch
/// without columns and without rows.
pub open spec fn collected_outcome(chains: Seq<ChainPlan>) -> Result<BatchView, Seq<char>> {
    match chains_outcome(chains, chains.len()) {
        Err(msg) => Err(msg),
        Ok(None) => Ok(no_rows()),
        Ok(Some(batch)) => Ok(batch),
    }
}

/// Once the first chains fail, more chains fail the same way.
pub proof fn lemma_chains_error(chains: Seq<ChainPlan>, upto: nat, more: nat)
    requires
        upto <= more <= chains.len(),
        chains_outcome(chains, upto) is Err,
    ensures
        chains_outcome(chains, more) == chains_outcome(chains, upto),
    decreases more,
{
    if more > upto {
        lemma_chains_error(chains, upto, (more - 1) as nat);
    }
}

impl OperatorChain {
    /// Runs the chain where it stands, as `chain_outcome` states. The
    /// chain is left as it is.
    pub fn run(&self) -> (r: Result<Option<Batch>, RayexecError>)
        ensures
            match chain_outcome(self@) {
                Ok(Some(batch)) => r matches Ok(Some(out)) && out@ == batch,
                Ok(None) => r matches Ok(None),
                Err(msg) => fails_with(r, msg),
            },
    {
        match &self.source {
            PhysicalSource::Empty(_) => Ok(None),
            PhysicalSource::Values(values) => {
                if values.exhausted {
                    Ok(None)
                } else {
                    let out = self.push_through(values.batch.clone())?;
                    Ok(Some(out))
                }
            },
            PhysicalSource::TableScan(_) => Err(
                RayexecError::new("Not yet implemented: buffering the rows of a table scan"),
            ),
        }
    }
}

/// Runs the chains of a list where they stand and collects what they push
/// into one batch, as `collected_outcome` states.
#[verifier::loop_isolation(false)]
pub fn collect_rows(chains: &Vec<OperatorChain>) -> (r: Result<Batch, RayexecError>)
    ensures
        batch_result_is(r, collected_outcome(chain_views(chains@))),
{
    let ghost plans = chain_views(chains@);
    let mut collected: Option<Batch> = None;
    let mut i: usize = 0;
    while i < chains.len()
        invariant
            i <= chains.len(),
            plans == chain_views(chains@),
            match chains_outcome(plans, i as nat) {
                Ok(Some(batch)) => collected matches Some(b) && b@ == batch,
                Ok(None) => collected is None,
                Err(_) => false,
            },
        decreases chains.len() - i,
    {
        assert(plans[i as int] == chains@[i as int]@);
        let pushed = chains[i].run();
        if pushed.is_err() {
            proof {
                lemma_chains_error(plans, (i + 1) as nat, plans.len());
            }
            return Err(pushed.unwrap_err());
        }
        match pushed.unwrap() {
            None => {},
            Some(batch) => {
                collected = match collected {
                    None => Some(batch),
                    Some(top) => {
                        let both = union_all(&top, &batch);
                        if both.is_err() {
                            proof {
                                lemma_chains_error(plans, (i + 1) as nat, plans.len());
                            }
                            return Err(both.unwrap_err());
                        }
                        Some(both.unwrap())
                    },
                };
            },
        }
        i += 1;
    }
    match collected {
        Some(batch) => Ok(batch),
        None => Ok(Batch::empty_with_num_rows(0)),
    }
}

} // verus!
