//! Lowers logical plans to physical chains, depth first. Leaves become
//! sources. Projections and filters become operators appended to the
//! chains of their input. A join buffers one side and becomes an operator
//! on the chains of the other; a union that keeps duplicates has the chains
//! of both inputs; an aggregate buffers its input and becomes the source of
//! its groups. The other set operations, right and full joins, an
//! ordering and a limit buffer their inputs and become the source of their
//! rows.
//!
//! The library holds no table provider, so a side is buffered while the
//! plan is lowered, and only where its rows come from inline rows.

use crate::error::{fails_with, RayexecError};
use crate::expr::physical::{physical_form, PhysicalScalarExpression, TableWidth};
use crate::expr::Expression;
use crate::logical::logical_aggregate::LogicalAggregate;
use crate::logical::logical_filter::LogicalFilter;
use crate::logical::logical_join::{join_type_text, ComparisonCondition, JoinType};
use crate::logical::logical_limit::LogicalLimit;
use crate::logical::logical_order::{LogicalOrder, OrderByExpr};
use crate::logical::logical_project::LogicalProject;
use crate::logical::logical_scan::{LogicalScan, ScanSource};
use crate::logical::logical_setop::{LogicalSetop, SetOpKind};
use crate::logical::operator::{LogicalOperator, Node};
use crate::physical::chain::{
    chain_views, collect_rows, collected_outcome, operator_views, ChainPlan, OperatorChain,
};
use crate::physical::planner::{
    convert_all, convert_expressions, evaluate_values, input_count_text, values_outcome,
};
use crate::physical::plans::comparison_join::{
    probe_outcome, JoinColumns, PhysicalComparisonJoin,
};
use crate::physical::plans::empty_source::EmptySource;
use crate::physical::plans::filter::PhysicalFilter;
use crate::physical::plans::grouping_sets::{group_rows, grouped_outcome, set_views};
use crate::physical::plans::limit::{limit_outcome, limit_rows};
use crate::physical::plans::nested_loop_join::PhysicalNestedLoopJoin;
use crate::physical::plans::order::{order_batch, order_outcome, KeyOrder};
use crate::physical::plans::projection::{projection_outcome, PhysicalProjection};
use crate::physical::plans::scan::PhysicalTableScan;
use crate::physical::plans::set_operation::{set_rows, setop_outcome};
use crate::physical::plans::values::PhysicalValues;
use crate::physical::plans::{OperatorView, PhysicalOperator, PhysicalSource, SourceView};
use std::collections::BTreeSet;
use vstd::prelude::*;
use vstd::std_specs::btree::group_btree_axioms;

verus! {

/// The message of the error for a join or a union that does not have the
/// two inputs it needs.
pub open spec fn two_inputs_text() -> Seq<char> {
    "Expected operator to have exactly two inputs"@
}

/// The message of the error for an operator over an input whose columns
/// cannot be laid out.
pub open spec fn no_layout_text() -> Seq<char> {
    "Expected the input of the operator to have a column layout"@
}

/// The message of the error for a join on an arbitrary condition that is
/// not an inner join.
pub open spec fn unsupported_condition_join_text(join_type: JoinType) -> Seq<char> {
    "Not yet implemented: join on an arbitrary condition of type "@ + join_type_text(join_type)
}

/// The message of the error for an aggregate that computes aggregate
/// functions.
pub open spec fn unsupported_aggregates_text() -> Seq<char> {
    "Not yet implemented: aggregate functions"@
}

/// The message of the error for a plan that has no physical form.
pub open spec fn unsupported_operator_text(name: Seq<char>) -> Seq<char> {
    "Not yet implemented: physical plan for "@ + name
}

/// The message of the error for a scan of a source other than a table or
/// inline rows.
pub open spec fn unsupported_scan_text() -> Seq<char> {
    "Not yet implemented: physical scan of this source"@
}

/// The number of columns of the first `upto` entries of a layout.
pub open spec fn layout_width(layout: Seq<TableWidth>, upto: nat) -> nat
    decreases upto,
{
    if upto == 0 || upto > layout.len() {
        0
    } else {
        layout_width(layout, (upto - 1) as nat) + layout[upto - 1].num_columns as nat
    }
}

/// The layout of what a join outputs: the columns of the left side, then
/// those of the right side; only those of the left side for a semi or an
/// anti join; and for a mark join those of the left side, then the mark.
pub open spec fn join_layout(
    join_type: JoinType,
    left: Seq<TableWidth>,
    right: Seq<TableWidth>,
) -> Seq<TableWidth> {
    match join_type {
        JoinType::Semi => left,
        JoinType::Anti => left,
        JoinType::LeftMark { table_ref } => left.push(TableWidth { table_ref, num_columns: 1 }),
        _ => left + right,
    }
}

/// The expressions that an aggregate groups on: those of its group table,
/// none without one.
pub open spec fn group_exprs_of(node: LogicalAggregate) -> Seq<Expression> {
    if node.group_table is Some {
        node.group_exprs@
    } else {
        Seq::empty()
    }
}

/// The layout of what an aggregate outputs: the columns of the aggregates,
/// then one column per group expression, then the column of grouping-set
/// ids, each where the aggregate has a table for it.
pub open spec fn aggregate_layout(node: LogicalAggregate) -> Seq<TableWidth> {
    let aggregates = seq![
        TableWidth {
            table_ref: node.aggregates_table,
            num_columns: node.aggregates@.len() as usize,
        },
    ];
    let with_groups = match node.group_table {
        Some(table_ref) => aggregates.push(
            TableWidth { table_ref, num_columns: node.group_exprs@.len() as usize },
        ),
        None => aggregates,
    };
    match node.grouping_set_table {
        Some(table_ref) => with_groups.push(TableWidth { table_ref, num_columns: 1 }),
        None => with_groups,
    }
}

/// The layout of what a plan outputs, for the plans that have a physical
/// form: the tables that its batches hold columns of, in order, and how
/// many columns of each. A scan outputs the columns of its projection, a
/// projection one column per expression, a filter, an ordering and a limit
/// what their input outputs, and the empty relation nothing. A cross join outputs the
/// columns of its left input, then those of its right input, and every
/// other join what `join_layout` states. A set operation outputs as many columns as its
/// first input, under its own table, and an aggregate what
/// `aggregate_layout` states.
pub open spec fn layout_of(plan: LogicalOperator) -> Option<Seq<TableWidth>>
    decreases plan,
{
    match plan {
        LogicalOperator::Empty(_) => Some(Seq::empty()),
        LogicalOperator::Scan(n) => Some(
            seq![
                TableWidth {
                    table_ref: n.node.table_ref,
                    num_columns: n.node.projection@.len() as usize,
                },
            ],
        ),
        LogicalOperator::Project(n) => Some(
            seq![
                TableWidth {
                    table_ref: n.node.projection_table,
                    num_columns: n.node.projections@.len() as usize,
                },
            ],
        ),
        LogicalOperator::Filter(n) => if n.children@.len() == 1 {
            layout_of(n.children@[0])
        } else {
            None
        },
        LogicalOperator::Limit(n) => if n.children@.len() == 1 {
            layout_of(n.children@[0])
        } else {
            None
        },
        LogicalOperator::Order(n) => if n.children@.len() == 1 {
            layout_of(n.children@[0])
        } else {
            None
        },
        LogicalOperator::ArbitraryJoin(n) => if n.children@.len() == 2 {
            match (layout_of(n.children@[0]), layout_of(n.children@[1])) {
                (Some(left), Some(right)) => Some(join_layout(n.node.join_type, left, right)),
                _ => None,
            }
        } else {
            None
        },
        LogicalOperator::CrossJoin(n) => if n.children@.len() == 2 {
            match (layout_of(n.children@[0]), layout_of(n.children@[1])) {
                (Some(left), Some(right)) => Some(left + right),
                _ => None,
            }
        } else {
            None
        },
        LogicalOperator::ComparisonJoin(n) => if n.children@.len() == 2 {
            match (layout_of(n.children@[0]), layout_of(n.children@[1])) {
                (Some(left), Some(right)) => Some(join_layout(n.node.join_type, left, right)),
                _ => None,
            }
        } else {
            None
        },
        LogicalOperator::MagicJoin(n) => if n.children@.len() == 2 {
            match (layout_of(n.children@[0]), layout_of(n.children@[1])) {
                (Some(left), Some(right)) => Some(join_layout(n.node.join_type, left, right)),
                _ => None,
            }
        } else {
            None
        },
        LogicalOperator::SetOp(n) => if n.children@.len() == 2 {
            match layout_of(n.children@[0]) {
                Some(first) => if layout_width(first, first.len()) <= usize::MAX {
                    Some(
                        seq![
                            TableWidth {
                                table_ref: n.node.table_ref,
                                num_columns: layout_width(first, first.len()) as usize,
                            },
                        ],
                    )
                } else {
                    None
                },
                None => None,
            }
        } else {
            None
        },
        LogicalOperator::Aggregate(n) => Some(aggregate_layout(n.node)),
        _ => None,
    }
}

fn count_columns(layout: &Vec<TableWidth>) -> (r: Option<usize>)
    ensures
        match r {
            Some(n) => n == layout_width(layout@, layout@.len()),
            None => layout_width(layout@, layout@.len()) > usize::MAX,
        },
{
    let mut total: usize = 0;
    let mut i: usize = 0;
    while i < layout.len()
        invariant
            i <= layout.len(),
            total == layout_width(layout@, i as nat),
        decreases layout.len() - i,
    {
        total = match total.checked_add(layout[i].num_columns) {
            Some(sum) => sum,
            None => {
                proof {
                    lemma_layout_width_grows(layout@, (i + 1) as nat, layout@.len());
                }
                return None;
            },
        };
        i += 1;
    }
    Some(total)
}

proof fn lemma_layout_width_grows(layout: Seq<TableWidth>, upto: nat, more: nat)
    requires
        upto <= more <= layout.len(),
    ensures
        layout_width(layout, upto) <= layout_width(layout, more),
    decreases more,
{
    if more > upto {
        lemma_layout_width_grows(layout, upto, (more - 1) as nat);
    }
}

fn join_output_layout(join_type: JoinType, left: Vec<TableWidth>, right: Vec<TableWidth>) -> (r: Vec<
    TableWidth,
>)
    ensures
        r@ == join_layout(join_type, left@, right@),
{
    let mut layout = left;
    match join_type {
        JoinType::Semi => {},
        JoinType::Anti => {},
        JoinType::LeftMark { table_ref } => {
            layout.push(TableWidth { table_ref, num_columns: 1 });
        },
        _ => {
            let mut right = right;
            layout.append(&mut right);
        },
    }
    layout
}

/// The layout of what a plan outputs, as `layout_of` states.
pub fn plan_layout(plan: &LogicalOperator) -> (r: Option<Vec<TableWidth>>)
    ensures
        match layout_of(*plan) {
            Some(layout) => r matches Some(l) && l@ == layout,
            None => r is None,
        },
    decreases *plan,
{
    match plan {
        LogicalOperator::Empty(_) => Some(Vec::new()),
        LogicalOperator::Scan(n) => {
            let mut layout: Vec<TableWidth> = Vec::new();
            layout.push(
                TableWidth { table_ref: n.node.table_ref, num_columns: n.node.projection.len() },
            );
            Some(layout)
        },
        LogicalOperator::Project(n) => {
            let mut layout: Vec<TableWidth> = Vec::new();
            layout.push(
                TableWidth {
                    table_ref: n.node.projection_table,
                    num_columns: n.node.projections.len(),
                },
            );
            Some(layout)
        },
        LogicalOperator::Filter(n) => {
            if n.children.len() == 1 {
                plan_layout(&n.children[0])
            } else {
                None
            }
        },
        LogicalOperator::Limit(n) => {
            if n.children.len() == 1 {
                plan_layout(&n.children[0])
            } else {
                None
            }
        },
        LogicalOperator::Order(n) => {
            if n.children.len() == 1 {
                plan_layout(&n.children[0])
            } else {
                None
            }
        },
        LogicalOperator::ArbitraryJoin(n) => {
            if n.children.len() != 2 {
                return None;
            }
            match (plan_layout(&n.children[0]), plan_layout(&n.children[1])) {
                (Some(left), Some(right)) => Some(
                    join_output_layout(n.node.join_type, left, right),
                ),
                _ => None,
            }
        },
        LogicalOperator::CrossJoin(n) => {
            if n.children.len() != 2 {
                return None;
            }
            match (plan_layout(&n.children[0]), plan_layout(&n.children[1])) {
                (Some(left), Some(right)) => {
                    let mut layout = left;
                    let mut right = right;
                    layout.append(&mut right);
                    Some(layout)
                },
                _ => None,
            }
        },
        LogicalOperator::ComparisonJoin(n) => {
            if n.children.len() != 2 {
                return None;
            }
            match (plan_layout(&n.children[0]), plan_layout(&n.children[1])) {
                (Some(left), Some(right)) => Some(
                    join_output_layout(n.node.join_type, left, right),
                ),
                _ => None,
            }
        },
        LogicalOperator::MagicJoin(n) => {
            if n.children.len() != 2 {
                return None;
            }
            match (plan_layout(&n.children[0]), plan_layout(&n.children[1])) {
                (Some(left), Some(right)) => Some(
                    join_output_layout(n.node.join_type, left, right),
                ),
                _ => None,
            }
        },
        LogicalOperator::SetOp(n) => {
            if n.children.len() != 2 {
                return None;
            }
            let first = plan_layout(&n.children[0])?;
            let num_columns = count_columns(&first)?;
            let mut layout: Vec<TableWidth> = Vec::new();
            layout.push(TableWidth { table_ref: n.node.table_ref, num_columns });
            Some(layout)
        },
        LogicalOperator::Aggregate(n) => {
            let mut layout: Vec<TableWidth> = Vec::new();
            layout.push(
                TableWidth {
                    table_ref: n.node.aggregates_table,
                    num_columns: n.node.aggregates.len(),
                },
            );
            if let Some(table_ref) = n.node.group_table {
                layout.push(TableWidth { table_ref, num_columns: n.node.group_exprs.len() });
            }
            if let Some(table_ref) = n.node.grouping_set_table {
                layout.push(TableWidth { table_ref, num_columns: 1 });
            }
            Some(layout)
        },
        _ => None,
    }
}

/// The chains of a list, each with one more operator at its end.
pub open spec fn with_operator(chains: Seq<ChainPlan>, op: OperatorView) -> Seq<ChainPlan> {
    chains.map_values(
        |c: ChainPlan| ChainPlan { source: c.source, operators: c.operators.push(op) },
    )
}

/// The single chain of a source without operators.
pub open spec fn source_chain(source: SourceView) -> Seq<ChainPlan> {
    seq![ChainPlan { source, operators: Seq::empty() }]
}

/// The chains that a scan lowers to, or the message of the error. Inline
/// rows become a values source holding their batch; a table becomes a
/// table scan with the scan's projection.
pub open spec fn scan_outcome(scan: LogicalScan) -> Result<Seq<ChainPlan>, Seq<char>> {
    match scan.source {
        ScanSource::ExpressionList { rows } => match values_outcome(rows@) {
            Err(msg) => Err(msg),
            Ok(batch) => Ok(source_chain(SourceView::Values { batch, exhausted: false })),
        },
        ScanSource::Table { catalog, schema, source } => Ok(
            source_chain(
                SourceView::TableScan {
                    catalog: catalog@,
                    schema: schema@,
                    entry: source@,
                    projection: scan.projection@,
                },
            ),
        ),
        _ => Err(unsupported_scan_text()),
    }
}

/// The chains that a projection lowers to, or the message of the error,
/// from the layout of its input and from what the input lowers to.
///
/// The expressions are converted first, over the layout of the input, and
/// the projection fails as the conversion does. Then it fails as lowering
/// the input does. Else it is appended to each chain of the input. Over
/// an input without a layout the projection fails as lowering the input
/// does, and where that does not fail, for want of a layout.
pub open spec fn project_lowered(
    exprs: Seq<Expression>,
    layout: Option<Seq<TableWidth>>,
    input: Result<Seq<ChainPlan>, Seq<char>>,
) -> Result<Seq<ChainPlan>, Seq<char>> {
    match layout {
        None => match input {
            Err(msg) => Err(msg),
            Ok(_) => Err(no_layout_text()),
        },
        Some(layout) => match convert_all(exprs, layout, exprs.len()) {
            Err(msg) => Err(msg),
            Ok(converted) => match input {
                Err(msg) => Err(msg),
                Ok(chains) => Ok(with_operator(chains, OperatorView::Projection(converted))),
            },
        },
    }
}

/// As `project_lowered`, for the predicate of a filter.
pub open spec fn filter_lowered(
    predicate: Expression,
    layout: Option<Seq<TableWidth>>,
    input: Result<Seq<ChainPlan>, Seq<char>>,
) -> Result<Seq<ChainPlan>, Seq<char>> {
    match layout {
        None => match input {
            Err(msg) => Err(msg),
            Ok(_) => Err(no_layout_text()),
        },
        Some(layout) => match physical_form(predicate, layout) {
            Err(msg) => Err(msg),
            Ok(converted) => match input {
                Err(msg) => Err(msg),
                Ok(chains) => Ok(with_operator(chains, OperatorView::Filter(converted))),
            },
        },
    }
}

/// The chains that a cross join lowers to over the chains of its inputs,
/// or the message of the error.
///
/// The smaller side is buffered, the right one where both have as many
/// rows, and the join becomes an operator on the chains of the other side.
/// Where only one side can be buffered, that side is. Where neither can,
/// the join fails as buffering the left side does.
pub open spec fn cross_lowered(left: Seq<ChainPlan>, right: Seq<ChainPlan>) -> Result<
    Seq<ChainPlan>,
    Seq<char>,
> {
    match (collected_outcome(left), collected_outcome(right)) {
        (Ok(l), Ok(r)) => if l.num_rows < r.num_rows {
            Ok(with_operator(right, OperatorView::CrossJoin { buffered: l, buffered_left: true }))
        } else {
            Ok(with_operator(left, OperatorView::CrossJoin { buffered: r, buffered_left: false }))
        },
        (Err(_), Ok(r)) => Ok(
            with_operator(left, OperatorView::CrossJoin { buffered: r, buffered_left: false }),
        ),
        (Ok(l), Err(_)) => Ok(
            with_operator(right, OperatorView::CrossJoin { buffered: l, buffered_left: true }),
        ),
        (Err(msg), Err(_)) => Err(msg),
    }
}

/// The left sides of the conditions of a join.
pub open spec fn left_sides(conditions: Seq<ComparisonCondition>) -> Seq<Expression> {
    conditions.map_values(|c: ComparisonCondition| c.left)
}

/// The right sides of the conditions of a join.
pub open spec fn right_sides(conditions: Seq<ComparisonCondition>) -> Seq<Expression> {
    conditions.map_values(|c: ComparisonCondition| c.right)
}

/// The conditions of a join over the keys of the two sides: each compares
/// the key that its left side evaluates to with the key that its right
/// side evaluates to.
pub open spec fn key_conditions(conditions: Seq<ComparisonCondition>) -> Seq<JoinColumns> {
    Seq::new(
        conditions.len(),
        |k: int| JoinColumns { left: k as usize, right: k as usize, op: conditions[k].op },
    )
}

/// The chains that a comparison join lowers to over the chains of its
/// inputs, or the message of the error.
///
/// Both inputs must have a layout. The left sides of the conditions are
/// converted over the layout of the left input, then the right sides over
/// that of the right input. The right side is buffered and its keys are
/// evaluated, and the join becomes an operator on the chains of the left
/// side. A right or a full join buffers the left side too, since the right
/// rows without a partner are known only when every left row was seen, and
/// becomes the source of its rows.
pub open spec fn join_lowered(
    join_type: JoinType,
    conditions: Seq<ComparisonCondition>,
    left_layout: Option<Seq<TableWidth>>,
    right_layout: Option<Seq<TableWidth>>,
    left: Seq<ChainPlan>,
    right: Seq<ChainPlan>,
) -> Result<Seq<ChainPlan>, Seq<char>> {
    match (left_layout, right_layout) {
        (Some(ll), Some(rl)) => match convert_all(left_sides(conditions), ll, conditions.len()) {
            Err(msg) => Err(msg),
            Ok(left_keys) => match convert_all(right_sides(conditions), rl, conditions.len()) {
                Err(msg) => Err(msg),
                Ok(right_keys) => match collected_outcome(right) {
                    Err(msg) => Err(msg),
                    Ok(buffered) => match projection_outcome(right_keys, buffered) {
                        Err(msg) => Err(msg),
                        Ok(buffered_keys) => if join_type is Full || join_type is Right {
                            match collected_outcome(left) {
                                Err(msg) => Err(msg),
                                Ok(rows) => match probe_outcome(
                                    join_type,
                                    left_keys,
                                    key_conditions(conditions),
                                    buffered,
                                    buffered_keys,
                                    rows,
                                ) {
                                    Err(msg) => Err(msg),
                                    Ok(batch) => Ok(
                                        source_chain(
                                            SourceView::Values { batch, exhausted: false },
                                        ),
                                    ),
                                },
                            }
                        } else {
                            Ok(
                                with_operator(
                                    left,
                                    OperatorView::ComparisonJoin {
                                        join_type,
                                        left_keys,
                                        conditions: key_conditions(conditions),
                                        buffered,
                                        buffered_keys,
                                    },
                                ),
                            )
                        },
                    },
                },
            },
        },
        _ => Err(no_layout_text()),
    }
}

/// The chains that a join on an arbitrary condition lowers to over the
/// chains of its inputs, or the message of the error. The join must be an
/// inner join, and both inputs must have a layout. The join becomes a
/// cross join followed by a filter on the condition, which is converted
/// over the columns of the left input, then those of the right input.
pub open spec fn condition_join_lowered(
    join_type: JoinType,
    condition: Expression,
    left_layout: Option<Seq<TableWidth>>,
    right_layout: Option<Seq<TableWidth>>,
    left: Seq<ChainPlan>,
    right: Seq<ChainPlan>,
) -> Result<Seq<ChainPlan>, Seq<char>> {
    if !(join_type is Inner) {
        Err(unsupported_condition_join_text(join_type))
    } else {
        match (left_layout, right_layout) {
            (Some(ll), Some(rl)) => match physical_form(condition, ll + rl) {
                Err(msg) => Err(msg),
                Ok(predicate) => match cross_lowered(left, right) {
                    Err(msg) => Err(msg),
                    Ok(chains) => Ok(with_operator(chains, OperatorView::Filter(predicate))),
                },
            },
            _ => Err(no_layout_text()),
        }
    }
}

/// The expressions of the keys of an ordering.
pub open spec fn order_keys(exprs: Seq<OrderByExpr>) -> Seq<Expression> {
    exprs.map_values(|o: OrderByExpr| o.expr)
}

/// How each key of an ordering orders rows.
pub open spec fn key_orders(exprs: Seq<OrderByExpr>) -> Seq<KeyOrder> {
    exprs.map_values(|o: OrderByExpr| KeyOrder { desc: o.desc, nulls_first: o.nulls_first })
}

/// The chains that an ordering lowers to over the chains of its input, or
/// the message of the error. The input must have a layout. The input is
/// buffered, the keys are evaluated against it, and the ordering becomes
/// the source of the rows in the order of their keys, as `order_outcome`
/// states.
pub open spec fn order_lowered(
    node: LogicalOrder,
    layout: Option<Seq<TableWidth>>,
    input: Seq<ChainPlan>,
) -> Result<Seq<ChainPlan>, Seq<char>> {
    match layout {
        None => Err(no_layout_text()),
        Some(layout) => match convert_all(
            order_keys(node.exprs@),
            layout,
            order_keys(node.exprs@).len(),
        ) {
            Err(msg) => Err(msg),
            Ok(exprs) => match collected_outcome(input) {
                Err(msg) => Err(msg),
                Ok(rows) => match projection_outcome(exprs, rows) {
                    Err(msg) => Err(msg),
                    Ok(keys) => match order_outcome(rows, keys, key_orders(node.exprs@)) {
                        Err(msg) => Err(msg),
                        Ok(batch) => Ok(
                            source_chain(SourceView::Values { batch, exhausted: false }),
                        ),
                    },
                },
            },
        },
    }
}

/// The chains that a limit lowers to over the chains of its input, or the
/// message of the error: the input is buffered, and the limit becomes the
/// source of the rows in its window.
pub open spec fn limit_lowered(node: LogicalLimit, input: Seq<ChainPlan>) -> Result<
    Seq<ChainPlan>,
    Seq<char>,
> {
    match collected_outcome(input) {
        Err(msg) => Err(msg),
        Ok(rows) => Ok(
            source_chain(
                SourceView::Values {
                    batch: limit_outcome(
                        rows,
                        match node.offset {
                            Some(offset) => offset as nat,
                            None => 0,
                        },
                        node.limit as nat,
                    ),
                    exhausted: false,
                },
            ),
        ),
    }
}

/// The grouping sets of an aggregate: its own, or without any the one set
/// of all the expressions that it groups on.
pub open spec fn grouping_sets_of(node: LogicalAggregate) -> Seq<Set<usize>> {
    match node.grouping_sets {
        Some(sets) => set_views(sets@),
        None => seq![Set::new(|g: usize| g < group_exprs_of(node).len())],
    }
}

/// The chains that an aggregate lowers to over the chains of its input, or
/// the message of the error.
///
/// The aggregate must compute no aggregate function, and its input must
/// have a layout. The input is buffered, the group expressions are
/// evaluated against it, and the groups of the grouping sets become the
/// batch of a values source, as `grouped_outcome` states, with the column
/// of grouping-set ids where the aggregate has a table for it.
pub open spec fn aggregate_lowered(
    node: LogicalAggregate,
    layout: Option<Seq<TableWidth>>,
    input: Seq<ChainPlan>,
) -> Result<Seq<ChainPlan>, Seq<char>> {
    if node.aggregates@.len() > 0 {
        Err(unsupported_aggregates_text())
    } else {
        match layout {
            None => Err(no_layout_text()),
            Some(layout) => match convert_all(
                group_exprs_of(node),
                layout,
                group_exprs_of(node).len(),
            ) {
                Err(msg) => Err(msg),
                Ok(exprs) => match collected_outcome(input) {
                    Err(msg) => Err(msg),
                    Ok(rows) => match projection_outcome(exprs, rows) {
                        Err(msg) => Err(msg),
                        Ok(groups) => match grouped_outcome(
                            groups,
                            grouping_sets_of(node),
                            node.grouping_set_table is Some,
                        ) {
                            Err(msg) => Err(msg),
                            Ok(batch) => Ok(
                                source_chain(SourceView::Values { batch, exhausted: false }),
                            ),
                        },
                    },
                },
            },
        }
    }
}

/// The chains that a plan lowers to, or the message of the error.
///
/// The empty relation and scans are leaves: each becomes a chain of its
/// source. A projection, a filter, an aggregate and a limit must have
/// exactly one input, and a join and a set operation exactly two. A
/// projection and a filter convert their expressions, then lower their
/// input, and append their operator to each of its chains. Every other
/// node lowers its inputs first, from left to right, and fails as the
/// first of them that fails. A cross join and a comparison join buffer one
/// side and append their operator to each chain of the other, and a join
/// on an arbitrary condition is a cross join and a filter. A union that
/// keeps duplicates has the chains of its first input, then those of its
/// second; every other set operation buffers both inputs and becomes the
/// source of its rows, as do a right and a full join, an aggregate, an
/// ordering and a limit. A copy and the nodes on session variables have no physical form.
pub open spec fn lower_outcome(plan: LogicalOperator) -> Result<Seq<ChainPlan>, Seq<char>>
    decreases plan,
{
    match plan {
        LogicalOperator::Empty(_) => Ok(source_chain(SourceView::Empty)),
        LogicalOperator::Scan(n) => scan_outcome(n.node),
        LogicalOperator::Project(n) => if n.children@.len() != 1 {
            Err(input_count_text())
        } else {
            project_lowered(
                n.node.projections@,
                layout_of(n.children@[0]),
                lower_outcome(n.children@[0]),
            )
        },
        LogicalOperator::Filter(n) => if n.children@.len() != 1 {
            Err(input_count_text())
        } else {
            filter_lowered(
                n.node.filter,
                layout_of(n.children@[0]),
                lower_outcome(n.children@[0]),
            )
        },
        LogicalOperator::Aggregate(n) => if n.children@.len() != 1 {
            Err(input_count_text())
        } else {
            match lower_outcome(n.children@[0]) {
                Err(msg) => Err(msg),
                Ok(input) => aggregate_lowered(n.node, layout_of(n.children@[0]), input),
            }
        },
        LogicalOperator::Limit(n) => if n.children@.len() != 1 {
            Err(input_count_text())
        } else {
            match lower_outcome(n.children@[0]) {
                Err(msg) => Err(msg),
                Ok(input) => limit_lowered(n.node, input),
            }
        },
        LogicalOperator::Order(n) => if n.children@.len() != 1 {
            Err(input_count_text())
        } else {
            match lower_outcome(n.children@[0]) {
                Err(msg) => Err(msg),
                Ok(input) => order_lowered(n.node, layout_of(n.children@[0]), input),
            }
        },
        LogicalOperator::ArbitraryJoin(n) => if n.children@.len() != 2 {
            Err(two_inputs_text())
        } else {
            match lower_outcome(n.children@[0]) {
                Err(msg) => Err(msg),
                Ok(left) => match lower_outcome(n.children@[1]) {
                    Err(msg) => Err(msg),
                    Ok(right) => condition_join_lowered(
                        n.node.join_type,
                        n.node.condition,
                        layout_of(n.children@[0]),
                        layout_of(n.children@[1]),
                        left,
                        right,
                    ),
                },
            }
        },
        LogicalOperator::CrossJoin(n) => if n.children@.len() != 2 {
            Err(two_inputs_text())
        } else {
            match lower_outcome(n.children@[0]) {
                Err(msg) => Err(msg),
                Ok(left) => match lower_outcome(n.children@[1]) {
                    Err(msg) => Err(msg),
                    Ok(right) => cross_lowered(left, right),
                },
            }
        },
        LogicalOperator::ComparisonJoin(n) => if n.children@.len() != 2 {
            Err(two_inputs_text())
        } else {
            match lower_outcome(n.children@[0]) {
                Err(msg) => Err(msg),
                Ok(left) => match lower_outcome(n.children@[1]) {
                    Err(msg) => Err(msg),
                    Ok(right) => join_lowered(
                        n.node.join_type,
                        n.node.conditions@,
                        layout_of(n.children@[0]),
                        layout_of(n.children@[1]),
                        left,
                        right,
                    ),
                },
            }
        },
        LogicalOperator::MagicJoin(n) => if n.children@.len() != 2 {
            Err(two_inputs_text())
        } else {
            match lower_outcome(n.children@[0]) {
                Err(msg) => Err(msg),
                Ok(left) => match lower_outcome(n.children@[1]) {
                    Err(msg) => Err(msg),
                    Ok(right) => join_lowered(
                        n.node.join_type,
                        n.node.conditions@,
                        layout_of(n.children@[0]),
                        layout_of(n.children@[1]),
                        left,
                        right,
                    ),
                },
            }
        },
        LogicalOperator::SetOp(n) => if n.children@.len() != 2 {
            Err(two_inputs_text())
        } else {
            match lower_outcome(n.children@[0]) {
                Err(msg) => Err(msg),
                Ok(first) => match lower_outcome(n.children@[1]) {
                    Err(msg) => Err(msg),
                    Ok(second) => setop_lowered(n.node, first, second),
                },
            }
        },
        _ => Err(unsupported_operator_text(plan.spec_name())),
    }
}

/// Appends a copy of an operator to each chain of a list.
fn append_operator(chains: Vec<OperatorChain>, op: &PhysicalOperator) -> (r: Vec<OperatorChain>)
    ensures
        chain_views(r@) == with_operator(chain_views(chains@), op@),
        r@.len() == chains@.len(),
{
    let ghost target = with_operator(chain_views(chains@), op@);
    let mut rest = chains;
    let mut stack: Vec<OperatorChain> = Vec::new();
    while rest.len() > 0
        invariant
            rest@.len() + stack@.len() == chains@.len(),
            target.len() == chains@.len(),
            target == with_operator(chain_views(chains@), op@),
            rest@ == chains@.take(rest@.len() as int),
            forall|k: int|
                0 <= k < stack@.len() ==> (#[trigger] stack@[k])@ == target[chains@.len() - 1 - k],
        decreases rest@.len(),
    {
        let ghost at = rest@.len() - 1;
        let ghost stacked = stack@;
        let chain = rest.pop().unwrap();
        assert(chain == chains@[at]);
        let OperatorChain { source, operators } = chain;
        let mut operators = operators;
        let ghost before = operator_views(operators@);
        operators.push(op.clone());
        assert(operator_views(operators@) =~= before.push(op@));
        let extended = OperatorChain { source, operators };
        proof {
            assert(chain_views(chains@)[at] == chains@[at]@);
            assert(extended@ == target[at]);
        }
        stack.push(extended);
        proof {
            assert(rest@ =~= chains@.take(rest@.len() as int));
            assert forall|k: int| 0 <= k < stack@.len() implies (#[trigger] stack@[k])@
                == target[chains@.len() - 1 - k] by {
                if k < stacked.len() {
                    assert(stack@[k] == stacked[k]);
                }
            }
        }
    }
    let mut out: Vec<OperatorChain> = Vec::new();
    while stack.len() > 0
        invariant
            out@.len() + stack@.len() == chains@.len(),
            target.len() == chains@.len(),
            forall|k: int|
                0 <= k < stack@.len() ==> (#[trigger] stack@[k])@ == target[chains@.len() - 1 - k],
            forall|k: int| 0 <= k < out@.len() ==> (#[trigger] out@[k])@ == target[k],
        decreases stack@.len(),
    {
        let chain = stack.pop().unwrap();
        out.push(chain);
    }
    assert(chain_views(out@) =~= target);
    out
}

/// The single chain of a source without operators, as `source_chain`
/// states.
pub fn single_chain(source: PhysicalSource) -> (r: Vec<OperatorChain>)
    ensures
        chain_views(r@) == source_chain(source@),
        r@.len() == 1,
{
    let mut chains: Vec<OperatorChain> = Vec::new();
    let chain = OperatorChain { source, operators: Vec::new() };
    assert(chain@.operators =~= Seq::<OperatorView>::empty());
    chains.push(chain);
    assert(chain_views(chains@) =~= source_chain(source@));
    chains
}

fn lower_scan(scan: LogicalScan) -> (r: Result<Vec<OperatorChain>, RayexecError>)
    ensures
        match scan_outcome(scan) {
            Ok(plans) => r matches Ok(chains) && chain_views(chains@) == plans,
            Err(msg) => fails_with(r, msg),
        },
        r matches Ok(chains) ==> chains@.len() > 0,
{
    let LogicalScan { table_ref: _, types: _, names: _, projection, source } = scan;
    match source {
        ScanSource::ExpressionList { rows } => {
            let batch = evaluate_values(&rows)?;
            Ok(single_chain(PhysicalSource::Values(PhysicalValues::new(batch))))
        },
        ScanSource::Table { catalog, schema, source } => Ok(
            single_chain(
                PhysicalSource::TableScan(
                    PhysicalTableScan { catalog, schema, entry: source, projection },
                ),
            ),
        ),
        _ => Err(RayexecError::new("Not yet implemented: physical scan of this source")),
    }
}

fn lower_cross_join(left: Vec<OperatorChain>, right: Vec<OperatorChain>) -> (r: Result<
    Vec<OperatorChain>,
    RayexecError,
>)
    requires
        left@.len() > 0,
        right@.len() > 0,
    ensures
        match cross_lowered(chain_views(left@), chain_views(right@)) {
            Ok(plans) => r matches Ok(chains) && chain_views(chains@) == plans,
            Err(msg) => fails_with(r, msg),
        },
        r matches Ok(chains) ==> chains@.len() > 0,
{
    let left_rows = collect_rows(&left);
    let right_rows = collect_rows(&right);
    match (left_rows, right_rows) {
        (Ok(l), Ok(r)) => {
            if l.num_rows() < r.num_rows() {
                let op = PhysicalOperator::CrossJoin(
                    PhysicalNestedLoopJoin { buffered: l, buffered_left: true },
                );
                Ok(append_operator(right, &op))
            } else {
                let op = PhysicalOperator::CrossJoin(
                    PhysicalNestedLoopJoin { buffered: r, buffered_left: false },
                );
                Ok(append_operator(left, &op))
            }
        },
        (Err(_), Ok(r)) => {
            let op = PhysicalOperator::CrossJoin(
                PhysicalNestedLoopJoin { buffered: r, buffered_left: false },
            );
            Ok(append_operator(left, &op))
        },
        (Ok(l), Err(_)) => {
            let op = PhysicalOperator::CrossJoin(
                PhysicalNestedLoopJoin { buffered: l, buffered_left: true },
            );
            Ok(append_operator(right, &op))
        },
        (Err(e), Err(_)) => Err(e),
    }
}

fn lower_join(
    join_type: JoinType,
    conditions: Vec<ComparisonCondition>,
    left_layout: Option<Vec<TableWidth>>,
    right_layout: Option<Vec<TableWidth>>,
    left: Vec<OperatorChain>,
    right: Vec<OperatorChain>,
) -> (r: Result<Vec<OperatorChain>, RayexecError>)
    requires
        left@.len() > 0,
    ensures
        match join_lowered(
            join_type,
            conditions@,
            match left_layout {
                Some(l) => Some(l@),
                None => None,
            },
            match right_layout {
                Some(l) => Some(l@),
                None => None,
            },
            chain_views(left@),
            chain_views(right@),
        ) {
            Ok(plans) => r matches Ok(chains) && chain_views(chains@) == plans,
            Err(msg) => fails_with(r, msg),
        },
        r matches Ok(chains) ==> chains@.len() > 0,
{
    let (left_layout, right_layout) = match (left_layout, right_layout) {
        (Some(l), Some(r)) => (l, r),
        _ => {
            return Err(
                RayexecError::new("Expected the input of the operator to have a column layout"),
            );
        },
    };
    let mut left_exprs: Vec<Expression> = Vec::new();
    let mut right_exprs: Vec<Expression> = Vec::new();
    let mut columns: Vec<JoinColumns> = Vec::new();
    let mut k: usize = 0;
    while k < conditions.len()
        invariant
            k <= conditions.len(),
            left_exprs@ == left_sides(conditions@).take(k as int),
            right_exprs@ == right_sides(conditions@).take(k as int),
            columns@ == key_conditions(conditions@).take(k as int),
        decreases conditions.len() - k,
    {
        left_exprs.push(conditions[k].left.clone());
        right_exprs.push(conditions[k].right.clone());
        columns.push(JoinColumns { left: k, right: k, op: conditions[k].op });
        proof {
            assert(left_exprs@ =~= left_sides(conditions@).take(k + 1));
            assert(right_exprs@ =~= right_sides(conditions@).take(k + 1));
            assert(columns@ =~= key_conditions(conditions@).take(k + 1));
        }
        k += 1;
    }
    proof {
        assert(left_exprs@ =~= left_sides(conditions@));
        assert(right_exprs@ =~= right_sides(conditions@));
        assert(columns@ =~= key_conditions(conditions@));
    }
    let left_keys = PhysicalProjection::try_new(convert_expressions(&left_exprs, &left_layout)?)?;
    let right_keys = PhysicalProjection::try_new(
        convert_expressions(&right_exprs, &right_layout)?,
    )?;
    let buffered = collect_rows(&right)?;
    let buffered_keys = right_keys.execute(&buffered)?;
    let op = PhysicalComparisonJoin {
        join_type,
        left_keys,
        conditions: columns,
        buffered,
        buffered_keys,
    };
    match join_type {
        JoinType::Full | JoinType::Right => {
            let rows = collect_rows(&left)?;
            let batch = op.execute(&rows)?;
            Ok(single_chain(PhysicalSource::Values(PhysicalValues::new(batch))))
        },
        _ => Ok(append_operator(left, &PhysicalOperator::ComparisonJoin(op))),
    }
}

fn all_columns(n: usize) -> (r: BTreeSet<usize>)
    ensures
        r@ == Set::new(|g: usize| g < n),
{
    broadcast use group_btree_axioms;

    let mut set: BTreeSet<usize> = BTreeSet::new();
    let mut g: usize = 0;
    while g < n
        invariant
            g <= n,
            set@ =~= Set::new(|x: usize| x < g),
        decreases n - g,
    {
        set.insert(g);
        g += 1;
    }
    set
}

fn lower_aggregate(
    node: LogicalAggregate,
    layout: Option<Vec<TableWidth>>,
    input: Vec<OperatorChain>,
) -> (r: Result<Vec<OperatorChain>, RayexecError>)
    ensures
        match aggregate_lowered(
            node,
            match layout {
                Some(l) => Some(l@),
                None => None,
            },
            chain_views(input@),
        ) {
            Ok(plans) => r matches Ok(chains) && chain_views(chains@) == plans,
            Err(msg) => fails_with(r, msg),
        },
        r matches Ok(chains) ==> chains@.len() > 0,
{
    if node.aggregates.len() > 0 {
        return Err(RayexecError::new("Not yet implemented: aggregate functions"));
    }
    let layout = match layout {
        Some(layout) => layout,
        None => {
            return Err(
                RayexecError::new("Expected the input of the operator to have a column layout"),
            );
        },
    };
    let no_exprs: Vec<Expression> = Vec::new();
    let group_exprs = if node.group_table.is_some() {
        &node.group_exprs
    } else {
        &no_exprs
    };
    assert(group_exprs@ =~= group_exprs_of(node));
    let exprs = convert_expressions(group_exprs, &layout)?;
    let rows = collect_rows(&input)?;
    let groups = PhysicalProjection::try_new(exprs)?.execute(&rows)?;
    let batch = match &node.grouping_sets {
        Some(sets) => group_rows(&groups, sets, node.grouping_set_table.is_some())?,
        None => {
            let mut sets: Vec<BTreeSet<usize>> = Vec::new();
            sets.push(all_columns(group_exprs.len()));
            assert(set_views(sets@) =~= grouping_sets_of(node));
            group_rows(&groups, &sets, node.grouping_set_table.is_some())?
        },
    };
    Ok(single_chain(PhysicalSource::Values(PhysicalValues::new(batch))))
}

fn projection_operator(node: LogicalProject, layout: &Vec<TableWidth>) -> (r: Result<
    PhysicalOperator,
    RayexecError,
>)
    ensures
        match convert_all(node.projections@, layout@, node.projections@.len()) {
            Ok(converted) => r matches Ok(op) && op@ == OperatorView::Projection(converted),
            Err(msg) => fails_with(r, msg),
        },
{
    let exprs = convert_expressions(&node.projections, layout)?;
    Ok(PhysicalOperator::Projection(PhysicalProjection::try_new(exprs)?))
}

fn filter_operator(node: LogicalFilter, layout: &Vec<TableWidth>) -> (r: Result<
    PhysicalOperator,
    RayexecError,
>)
    ensures
        match physical_form(node.filter, layout@) {
            Ok(converted) => r matches Ok(op) && op@ == OperatorView::Filter(converted),
            Err(msg) => fails_with(r, msg),
        },
{
    let predicate = PhysicalScalarExpression::try_from_uncorrelated_expr(node.filter, layout)?;
    Ok(PhysicalOperator::Filter(PhysicalFilter::try_new(predicate)?))
}

/// The chains that a set operation lowers to over the chains of its
/// inputs, or the message of the error. A union that keeps duplicates has
/// the chains of the first input, then those of the second. Every other
/// set operation buffers both inputs and becomes the source of its rows,
/// as `setop_outcome` states.
pub open spec fn setop_lowered(
    node: LogicalSetop,
    first: Seq<ChainPlan>,
    second: Seq<ChainPlan>,
) -> Result<Seq<ChainPlan>, Seq<char>> {
    if node.kind is Union && node.all {
        Ok(first + second)
    } else {
        match collected_outcome(first) {
            Err(msg) => Err(msg),
            Ok(top) => match collected_outcome(second) {
                Err(msg) => Err(msg),
                Ok(bottom) => match setop_outcome(node.kind, node.all, top, bottom) {
                    Err(msg) => Err(msg),
                    Ok(batch) => Ok(source_chain(SourceView::Values { batch, exhausted: false })),
                },
            },
        }
    }
}

fn lower_setop(node: LogicalSetop, first: Vec<OperatorChain>, second: Vec<OperatorChain>) -> (r:
    Result<Vec<OperatorChain>, RayexecError>)
    requires
        first@.len() > 0,
    ensures
        match setop_lowered(node, chain_views(first@), chain_views(second@)) {
            Ok(plans) => r matches Ok(chains) && chain_views(chains@) == plans,
            Err(msg) => fails_with(r, msg),
        },
        r matches Ok(chains) ==> chains@.len() > 0,
{
    let concatenates = match node.kind {
        SetOpKind::Union => node.all,
        _ => false,
    };
    if !concatenates {
        let top = collect_rows(&first)?;
        let bottom = collect_rows(&second)?;
        let batch = set_rows(node.kind, node.all, &top, &bottom)?;
        return Ok(single_chain(PhysicalSource::Values(PhysicalValues::new(batch))));
    }
    let mut chains = first;
    let mut more = second;
    chains.append(&mut more);
    assert(chain_views(chains@) =~= chain_views(first@) + chain_views(second@));
    Ok(chains)
}

fn lower_condition_join(
    join_type: JoinType,
    condition: Expression,
    left_layout: Option<Vec<TableWidth>>,
    right_layout: Option<Vec<TableWidth>>,
    left: Vec<OperatorChain>,
    right: Vec<OperatorChain>,
) -> (r: Result<Vec<OperatorChain>, RayexecError>)
    requires
        left@.len() > 0,
        right@.len() > 0,
    ensures
        match condition_join_lowered(
            join_type,
            condition,
            match left_layout {
                Some(l) => Some(l@),
                None => None,
            },
            match right_layout {
                Some(l) => Some(l@),
                None => None,
            },
            chain_views(left@),
            chain_views(right@),
        ) {
            Ok(plans) => r matches Ok(chains) && chain_views(chains@) == plans,
            Err(msg) => fails_with(r, msg),
        },
        r matches Ok(chains) ==> chains@.len() > 0,
{
    match join_type {
        JoinType::Inner => {},
        _ => {
            let mut msg = String::from_str(
                "Not yet implemented: join on an arbitrary condition of type ",
            );
            msg.append(join_type.to_string().as_str());
            return Err(RayexecError::new(msg.as_str()));
        },
    }
    let layout = match (left_layout, right_layout) {
        (Some(l), Some(r)) => {
            let mut layout = l;
            let mut r = r;
            layout.append(&mut r);
            layout
        },
        _ => {
            return Err(
                RayexecError::new("Expected the input of the operator to have a column layout"),
            );
        },
    };
    let predicate = PhysicalScalarExpression::try_from_uncorrelated_expr(condition, &layout)?;
    let chains = lower_cross_join(left, right)?;
    let op = PhysicalOperator::Filter(PhysicalFilter::try_new(predicate)?);
    Ok(append_operator(chains, &op))
}

fn lower_order(node: LogicalOrder, layout: Option<Vec<TableWidth>>, input: Vec<OperatorChain>) -> (r:
    Result<Vec<OperatorChain>, RayexecError>)
    ensures
        match order_lowered(
            node,
            match layout {
                Some(l) => Some(l@),
                None => None,
            },
            chain_views(input@),
        ) {
            Ok(plans) => r matches Ok(chains) && chain_views(chains@) == plans,
            Err(msg) => fails_with(r, msg),
        },
        r matches Ok(chains) ==> chains@.len() > 0,
{
    let layout = match layout {
        Some(layout) => layout,
        None => {
            return Err(
                RayexecError::new("Expected the input of the operator to have a column layout"),
            );
        },
    };
    let mut key_exprs: Vec<Expression> = Vec::new();
    let mut orders: Vec<KeyOrder> = Vec::new();
    let mut i: usize = 0;
    while i < node.exprs.len()
        invariant
            i <= node.exprs.len(),
            key_exprs@ == order_keys(node.exprs@).take(i as int),
            orders@ == key_orders(node.exprs@).take(i as int),
        decreases node.exprs.len() - i,
    {
        key_exprs.push(node.exprs[i].expr.clone());
        orders.push(KeyOrder { desc: node.exprs[i].desc, nulls_first: node.exprs[i].nulls_first });
        proof {
            assert(key_exprs@ =~= order_keys(node.exprs@).take(i + 1));
            assert(orders@ =~= key_orders(node.exprs@).take(i + 1));
        }
        i += 1;
    }
    proof {
        assert(key_exprs@ =~= order_keys(node.exprs@));
        assert(orders@ =~= key_orders(node.exprs@));
    }
    let exprs = convert_expressions(&key_exprs, &layout)?;
    let rows = collect_rows(&input)?;
    let keys = PhysicalProjection::try_new(exprs)?.execute(&rows)?;
    let batch = order_batch(&rows, &keys, &orders)?;
    Ok(single_chain(PhysicalSource::Values(PhysicalValues::new(batch))))
}

fn lower_limit(node: LogicalLimit, input: Vec<OperatorChain>) -> (r: Result<
    Vec<OperatorChain>,
    RayexecError,
>)
    ensures
        match limit_lowered(node, chain_views(input@)) {
            Ok(plans) => r matches Ok(chains) && chain_views(chains@) == plans,
            Err(msg) => fails_with(r, msg),
        },
        r matches Ok(chains) ==> chains@.len() > 0,
{
    let rows = collect_rows(&input)?;
    let offset = match node.offset {
        Some(offset) => offset,
        None => 0,
    };
    let batch = limit_rows(&rows, offset, node.limit);
    Ok(single_chain(PhysicalSource::Values(PhysicalValues::new(batch))))
}

fn only_input(children: Vec<LogicalOperator>) -> (r: LogicalOperator)
    requires
        children@.len() == 1,
    ensures
        r == children@[0],
{
    let mut children = children;
    children.pop().unwrap()
}

fn both_inputs(children: Vec<LogicalOperator>) -> (r: (LogicalOperator, LogicalOperator))
    requires
        children@.len() == 2,
    ensures
        r.0 == children@[0],
        r.1 == children@[1],
{
    let mut children = children;
    let second = children.pop().unwrap();
    let first = children.pop().unwrap();
    (first, second)
}

/// Lowers a join or a set operation, as `lower_outcome` states; no other
/// plan that comes here has a physical form.
#[verifier::rlimit(50)]
fn lower_joined(plan: LogicalOperator) -> (r: Result<Vec<OperatorChain>, RayexecError>)
    requires
        !(plan is Empty || plan is Scan || plan is Project || plan is Filter || plan is Aggregate
            || plan is Limit || plan is Order),
    ensures
        match lower_outcome(plan) {
            Ok(plans) => r matches Ok(chains) && chain_views(chains@) == plans,
            Err(msg) => fails_with(r, msg),
        },
        r matches Ok(chains) ==> chains@.len() > 0,
    decreases plan, 0nat,
{
    match plan {
        LogicalOperator::ArbitraryJoin(n) => {
            if n.children.len() != 2 {
                return Err(RayexecError::new("Expected operator to have exactly two inputs"));
            }
            let left_layout = plan_layout(&n.children[0]);
            let right_layout = plan_layout(&n.children[1]);
            let Node { node, location: _, children } = n;
            let (first, second) = both_inputs(children);
            let left = lower_plan(first)?;
            let right = lower_plan(second)?;
            lower_condition_join(
                node.join_type,
                node.condition,
                left_layout,
                right_layout,
                left,
                right,
            )
        },
        LogicalOperator::CrossJoin(n) => {
            if n.children.len() != 2 {
                return Err(RayexecError::new("Expected operator to have exactly two inputs"));
            }
            let (first, second) = both_inputs(n.children);
            let left = lower_plan(first)?;
            let right = lower_plan(second)?;
            lower_cross_join(left, right)
        },
        LogicalOperator::ComparisonJoin(n) => {
            if n.children.len() != 2 {
                return Err(RayexecError::new("Expected operator to have exactly two inputs"));
            }
            let left_layout = plan_layout(&n.children[0]);
            let right_layout = plan_layout(&n.children[1]);
            let Node { node, location: _, children } = n;
            let (first, second) = both_inputs(children);
            let left = lower_plan(first)?;
            let right = lower_plan(second)?;
            lower_join(node.join_type, node.conditions, left_layout, right_layout, left, right)
        },
        LogicalOperator::MagicJoin(n) => {
            if n.children.len() != 2 {
                return Err(RayexecError::new("Expected operator to have exactly two inputs"));
            }
            let left_layout = plan_layout(&n.children[0]);
            let right_layout = plan_layout(&n.children[1]);
            let Node { node, location: _, children } = n;
            let (first, second) = both_inputs(children);
            let left = lower_plan(first)?;
            let right = lower_plan(second)?;
            lower_join(node.join_type, node.conditions, left_layout, right_layout, left, right)
        },
        LogicalOperator::SetOp(n) => {
            if n.children.len() != 2 {
                return Err(RayexecError::new("Expected operator to have exactly two inputs"));
            }
            let Node { node, location: _, children } = n;
            let (first, second) = both_inputs(children);
            let top = lower_plan(first)?;
            let bottom = lower_plan(second)?;
            lower_setop(node, top, bottom)
        },
        other => {
            let mut msg = String::from_str("Not yet implemented: physical plan for ");
            msg.append(other.name());
            Err(RayexecError::new(msg.as_str()))
        },
    }
}

/// Lowers a plan to the chains that feed the sink of its pipeline, as
/// `lower_outcome` states.
#[verifier::rlimit(50)]
pub fn lower_plan(plan: LogicalOperator) -> (r: Result<Vec<OperatorChain>, RayexecError>)
    ensures
        match lower_outcome(plan) {
            Ok(plans) => r matches Ok(chains) && chain_views(chains@) == plans,
            Err(msg) => fails_with(r, msg),
        },
        r matches Ok(chains) ==> chains@.len() > 0,
    decreases plan, 1nat,
{
    match plan {
        LogicalOperator::Empty(_) => Ok(single_chain(PhysicalSource::Empty(EmptySource::new()))),
        LogicalOperator::Scan(n) => lower_scan(n.node),
        LogicalOperator::Project(n) => {
            if n.children.len() != 1 {
                return Err(RayexecError::new("Expected operator to have exactly one input"));
            }
            let layout = plan_layout(&n.children[0]);
            let Node { node, location: _, children } = n;
            let child = only_input(children);
            let layout = match layout {
                Some(layout) => layout,
                None => {
                    lower_plan(child)?;
                    return Err(
                        RayexecError::new(
                            "Expected the input of the operator to have a column layout",
                        ),
                    );
                },
            };
            let op = projection_operator(node, &layout)?;
            let input = lower_plan(child)?;
            Ok(append_operator(input, &op))
        },
        LogicalOperator::Filter(n) => {
            if n.children.len() != 1 {
                return Err(RayexecError::new("Expected operator to have exactly one input"));
            }
            let layout = plan_layout(&n.children[0]);
            let Node { node, location: _, children } = n;
            let child = only_input(children);
            let layout = match layout {
                Some(layout) => layout,
                None => {
                    lower_plan(child)?;
                    return Err(
                        RayexecError::new(
                            "Expected the input of the operator to have a column layout",
                        ),
                    );
                },
            };
            let op = filter_operator(node, &layout)?;
            let input = lower_plan(child)?;
            Ok(append_operator(input, &op))
        },
        LogicalOperator::Aggregate(n) => {
            if n.children.len() != 1 {
                return Err(RayexecError::new("Expected operator to have exactly one input"));
            }
            let layout = plan_layout(&n.children[0]);
            let Node { node, location: _, children } = n;
            let input = lower_plan(only_input(children))?;
            lower_aggregate(node, layout, input)
        },
        LogicalOperator::Limit(n) => {
            if n.children.len() != 1 {
                return Err(RayexecError::new("Expected operator to have exactly one input"));
            }
            let Node { node, location: _, children } = n;
            let input = lower_plan(only_input(children))?;
            lower_limit(node, input)
        },
        LogicalOperator::Order(n) => {
            if n.children.len() != 1 {
                return Err(RayexecError::new("Expected operator to have exactly one input"));
            }
            let layout = plan_layout(&n.children[0]);
            let Node { node, location: _, children } = n;
            let input = lower_plan(only_input(children))?;
            lower_order(node, layout, input)
        },
        other => lower_joined(other),
    }
}

} // verus!
