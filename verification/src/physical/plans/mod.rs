//! The sources and operators of physical chains.

pub mod comparison_join;
pub mod empty_source;
pub mod filter;
pub mod grouping_sets;
pub mod limit;
pub mod nested_loop_join;
pub mod order;
pub mod projection;
pub mod scan;
pub mod set_operation;
pub mod union;
pub mod values;

use crate::batch::{Batch, BatchView};
use crate::database::entry::CatalogEntryView;
use crate::error::{fails_with, RayexecError};
use crate::expr::physical::PhysicalScalarExpression;
use crate::logical::logical_join::JoinType;
use crate::physical::plans::comparison_join::{
    probe_outcome, JoinColumns, PhysicalComparisonJoin,
};
use crate::physical::plans::empty_source::EmptySource;
use crate::physical::plans::nested_loop_join::{cross_outcome, PhysicalNestedLoopJoin};
use crate::physical::plans::filter::{filter_outcome, PhysicalFilter};
use crate::physical::plans::projection::{projection_outcome, PhysicalProjection};
use crate::physical::plans::scan::PhysicalTableScan;
use crate::physical::plans::values::PhysicalValues;
use vstd::prelude::*;

verus! {

/// Where the batches of a chain come from.
#[derive(Debug)]
pub enum PhysicalSource {
    Empty(EmptySource),
    Values(PhysicalValues),
    TableScan(PhysicalTableScan),
}

/// What a source holds, as plain values.
pub ghost enum SourceView {
    Empty,
    Values { batch: BatchView, exhausted: bool },
    TableScan { catalog: Seq<char>, schema: Seq<char>, entry: CatalogEntryView, projection: Seq<usize> },
}

impl View for PhysicalSource {
    type V = SourceView;

    open spec fn view(&self) -> SourceView {
        match *self {
            PhysicalSource::Empty(_) => SourceView::Empty,
            PhysicalSource::Values(v) => SourceView::Values {
                batch: v.batch@,
                exhausted: v.exhausted,
            },
            PhysicalSource::TableScan(s) => SourceView::TableScan {
                catalog: s.catalog@,
                schema: s.schema@,
                entry: s.entry@,
                projection: s.projection@,
            },
        }
    }
}

/// A transformer from batch to batch in the middle of a chain.
#[derive(Debug)]
pub enum PhysicalOperator {
    Projection(PhysicalProjection),
    Filter(PhysicalFilter),
    CrossJoin(PhysicalNestedLoopJoin),
    ComparisonJoin(PhysicalComparisonJoin),
}

/// What an operator holds, as plain values.
pub ghost enum OperatorView {
    Projection(Seq<PhysicalScalarExpression>),
    Filter(PhysicalScalarExpression),
    CrossJoin { buffered: BatchView, buffered_left: bool },
    ComparisonJoin {
        join_type: JoinType,
        left_keys: Seq<PhysicalScalarExpression>,
        conditions: Seq<JoinColumns>,
        buffered: BatchView,
        buffered_keys: BatchView,
    },
}

impl View for PhysicalOperator {
    type V = OperatorView;

    open spec fn view(&self) -> OperatorView {
        match *self {
            PhysicalOperator::Projection(p) => OperatorView::Projection(p.exprs@),
            PhysicalOperator::Filter(f) => OperatorView::Filter(f.predicate),
            PhysicalOperator::CrossJoin(j) => OperatorView::CrossJoin {
                buffered: j.buffered@,
                buffered_left: j.buffered_left,
            },
            PhysicalOperator::ComparisonJoin(j) => OperatorView::ComparisonJoin {
                join_type: j.join_type,
                left_keys: j.left_keys.exprs@,
                conditions: j.conditions@,
                buffered: j.buffered@,
                buffered_keys: j.buffered_keys@,
            },
        }
    }
}

/// Whether a batch result is what an outcome says.
pub open spec fn batch_result_is(
    r: Result<Batch, RayexecError>,
    outcome: Result<BatchView, Seq<char>>,
) -> bool {
    match outcome {
        Ok(view) => r matches Ok(out) && out@ == view,
        Err(msg) => fails_with(r, msg),
    }
}

/// What an operator gives for a batch. A projection evaluates its
/// expressions and a filter keeps the rows that its predicate holds of. A
/// cross join joins the batch with every row of its buffered side, and a
/// comparison join joins the batch, as the left side, with its buffered
/// right side, by the keys of the two.
pub open spec fn operator_outcome(
    op: OperatorView,
    batch: BatchView,
) -> Result<BatchView, Seq<char>> {
    match op {
        OperatorView::Projection(exprs) => projection_outcome(exprs, batch),
        OperatorView::Filter(predicate) => filter_outcome(predicate, batch),
        OperatorView::CrossJoin { buffered, buffered_left } => if buffered_left {
            cross_outcome(buffered, batch)
        } else {
            cross_outcome(batch, buffered)
        },
        OperatorView::ComparisonJoin {
            join_type,
            left_keys,
            conditions,
            buffered,
            buffered_keys,
        } => probe_outcome(join_type, left_keys, conditions, buffered, buffered_keys, batch),
    }
}

impl PhysicalOperator {
    /// Applies the operator to a batch.
    pub fn execute(&self, batch: &Batch) -> (r: Result<Batch, RayexecError>)
        ensures
            batch_result_is(r, operator_outcome(self@, batch@)),
    {
        match self {
            PhysicalOperator::Projection(p) => p.execute(batch),
            PhysicalOperator::Filter(f) => f.execute(batch),
            PhysicalOperator::CrossJoin(j) => j.execute(batch),
            PhysicalOperator::ComparisonJoin(j) => j.execute(batch),
        }
    }
}

fn copy_projection(p: &PhysicalProjection) -> (r: PhysicalProjection)
    ensures
        r.exprs@ == p.exprs@,
{
    let mut exprs: Vec<PhysicalScalarExpression> = Vec::new();
    let mut i: usize = 0;
    while i < p.exprs.len()
        invariant
            i <= p.exprs.len(),
            exprs@ == p.exprs@.take(i as int),
        decreases p.exprs.len() - i,
    {
        exprs.push(p.exprs[i].clone());
        assert(exprs@ =~= p.exprs@.take(i + 1));
        i += 1;
    }
    assert(p.exprs@.take(p.exprs.len() as int) =~= p.exprs@);
    PhysicalProjection { exprs }
}

impl Clone for PhysicalOperator {
    /// A copy of the operator that holds the same values.
    fn clone(&self) -> (r: Self)
        ensures
            r@ == self@,
    {
        match self {
            PhysicalOperator::Projection(p) => PhysicalOperator::Projection(copy_projection(p)),
            PhysicalOperator::Filter(f) => PhysicalOperator::Filter(
                PhysicalFilter { predicate: f.predicate.clone() },
            ),
            PhysicalOperator::CrossJoin(j) => PhysicalOperator::CrossJoin(
                PhysicalNestedLoopJoin {
                    buffered: j.buffered.clone(),
                    buffered_left: j.buffered_left,
                },
            ),
            PhysicalOperator::ComparisonJoin(j) => {
                let mut conditions: Vec<JoinColumns> = Vec::new();
                let mut i: usize = 0;
                while i < j.conditions.len()
                    invariant
                        i <= j.conditions.len(),
                        conditions@ == j.conditions@.take(i as int),
                    decreases j.conditions.len() - i,
                {
                    conditions.push(j.conditions[i]);
                    assert(conditions@ =~= j.conditions@.take(i + 1));
                    i += 1;
                }
                assert(j.conditions@.take(j.conditions.len() as int) =~= j.conditions@);
                PhysicalOperator::ComparisonJoin(
                    PhysicalComparisonJoin {
                        join_type: j.join_type,
                        left_keys: copy_projection(&j.left_keys),
                        conditions,
                        buffered: j.buffered.clone(),
                        buffered_keys: j.buffered_keys.clone(),
                    },
                )
            },
        }
    }
}

} // verus!
