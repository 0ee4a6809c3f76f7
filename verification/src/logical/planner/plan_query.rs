//! Plans a bound query.

use crate::bind_context::{missing_table_text, BindContext, TableRef, TableView};
use crate::error::{fails_with, RayexecError};
use crate::logical::binder::bind_query::{BoundQuery, BoundSetOp, BoundValues};
use crate::logical::logical_scan::ScanSource;
use crate::logical::logical_setop::LogicalSetop;
use crate::logical::binder::bind_query::BoundSelect;
use crate::logical::operator::{
    children_table_refs, output_table_refs, refs_defined, LocationRequirement, LogicalOperator,
};
use crate::logical::planner::plan_from::{
    binary_node, plan_table_scan, scans_table, unary_node,
};
use crate::logical::planner::plan_select::{is_select_plan, select_error, SelectPlanner};
use crate::logical::planner::plan_setop::SetOpPlanner;
use vstd::prelude::*;

verus! {

/// Whether a plan is the plan of inline rows: a single scan of the rows'
/// table that reads the rows themselves, may run anywhere, and covers every
/// column.
pub open spec fn is_values_plan(
    plan: LogicalOperator,
    values: BoundValues,
    tables: Seq<TableView>,
) -> bool {
    plan matches LogicalOperator::Scan(n) && scans_table(n, values.expressions_table, tables)
        && n.location == LocationRequirement::Any && n.node.source == (ScanSource::ExpressionList {
        rows: values.rows,
    })
}

/// The message of the error that stops planning a query, if any.
///
/// Inline rows fail when the bind context lacks their table. A set
/// operation fails on what stops planning its left side, or else its right
/// side, or else when the bind context lacks its table.
pub open spec fn query_error(query: BoundQuery, tables: Seq<TableView>) -> Option<Seq<char>>
    decreases query, 1nat,
{
    match query {
        BoundQuery::Select(select) => select_error(select, tables),
        BoundQuery::Setop(setop) => setop_error(setop, tables),
        BoundQuery::Values(values) => if values.expressions_table.table_idx < tables.len() {
            None
        } else {
            Some(missing_table_text(values.expressions_table))
        },
    }
}

/// The message of the error that stops planning a set operation, if any.
pub open spec fn setop_error(setop: BoundSetOp, tables: Seq<TableView>) -> Option<Seq<char>>
    decreases setop, 0nat,
{
    match query_error(*setop.left, tables) {
        Some(msg) => Some(msg),
        None => match query_error(*setop.right, tables) {
            Some(msg) => Some(msg),
            None => if setop.setop_table.table_idx < tables.len() {
                None
            } else {
                Some(missing_table_text(setop.setop_table))
            },
        },
    }
}

/// Whether a plan is the plan of a bound query.
pub open spec fn is_query_plan(
    plan: LogicalOperator,
    query: BoundQuery,
    tables: Seq<TableView>,
) -> bool
    decreases query, 1nat,
{
    match query {
        BoundQuery::Select(select) => is_select_plan(plan, select, tables),
        BoundQuery::Setop(setop) => is_setop_plan(plan, setop, tables),
        BoundQuery::Values(values) => is_values_plan(plan, values, tables),
    }
}

/// Whether a plan is the set-operation node of a set operation: it carries
/// the kind, whether duplicates are kept and the table, and stands over the
/// plans of the two sides.
pub open spec fn is_setop_node(
    plan: LogicalOperator,
    setop: BoundSetOp,
    tables: Seq<TableView>,
) -> bool
    decreases setop, 0nat,
{
    plan matches LogicalOperator::SetOp(n) && n.node == (LogicalSetop {
        kind: setop.kind,
        all: setop.all,
        table_ref: setop.setop_table,
    }) && binary_node(n) && is_query_plan(n.children@[0], *setop.left, tables) && is_query_plan(
        n.children@[1],
        *setop.right,
        tables,
    )
}

/// Whether a plan is a set operation's plan up to its ORDER BY: the
/// set-operation node, under an ordering where there is an ORDER BY.
pub open spec fn is_ordered_setop(
    plan: LogicalOperator,
    setop: BoundSetOp,
    tables: Seq<TableView>,
) -> bool
    decreases setop, 1nat,
{
    match setop.order_by {
        Some(exprs) => plan matches LogicalOperator::Order(n) && n.node.exprs == exprs
            && unary_node(n) && is_setop_node(n.children@[0], setop, tables),
        None => is_setop_node(plan, setop, tables),
    }
}

/// Whether a plan is the plan of a set operation: the ordered
/// set-operation node, under a limit where there is a LIMIT.
pub open spec fn is_setop_plan(
    plan: LogicalOperator,
    setop: BoundSetOp,
    tables: Seq<TableView>,
) -> bool
    decreases setop, 2nat,
{
    match setop.limit {
        Some(limit) => plan matches LogicalOperator::Limit(n) && n.node == limit && unary_node(n)
            && is_ordered_setop(n.children@[0], setop, tables),
        None => is_ordered_setop(plan, setop, tables),
    }
}

/// What a node over one child outputs, where the node passes its child's
/// output on.
proof fn lemma_single_child_refs(children: Seq<LogicalOperator>)
    requires
        children.len() == 1,
    ensures
        children_table_refs(children, 1) == output_table_refs(children[0]),
{
    reveal_with_fuel(children_table_refs, 2);
    assert(children_table_refs(children, 0) =~= Seq::<TableRef>::empty());
    assert(Seq::<TableRef>::empty() + output_table_refs(children[0]) =~= output_table_refs(
        children[0],
    ));
}

/// The plan of a SELECT outputs the table of its select list.
pub proof fn lemma_select_plan_output(plan: LogicalOperator, select: BoundSelect, tables: Seq<TableView>)
    requires
        is_select_plan(plan, select, tables),
    ensures
        output_table_refs(plan) == seq![select.select_list.projections_table],
{
    let ordered = match select.limit {
        Some(_) => {
            let n = plan->Limit_0;
            lemma_single_child_refs(n.children@);
            n.children@[0]
        },
        None => plan,
    };
    assert(output_table_refs(plan) == output_table_refs(ordered));
    let projected = match select.order_by {
        Some(_) => {
            let n = ordered->Order_0;
            lemma_single_child_refs(n.children@);
            n.children@[0]
        },
        None => ordered,
    };
    assert(output_table_refs(ordered) == output_table_refs(projected));
}

/// The plan of a set operation outputs the table of the operation.
pub proof fn lemma_setop_plan_output(plan: LogicalOperator, setop: BoundSetOp, tables: Seq<TableView>)
    requires
        is_setop_plan(plan, setop, tables),
    ensures
        output_table_refs(plan) == seq![setop.setop_table],
{
    let ordered = match setop.limit {
        Some(_) => {
            let n = plan->Limit_0;
            lemma_single_child_refs(n.children@);
            n.children@[0]
        },
        None => plan,
    };
    assert(output_table_refs(plan) == output_table_refs(ordered));
    let node = match setop.order_by {
        Some(_) => {
            let n = ordered->Order_0;
            lemma_single_child_refs(n.children@);
            n.children@[0]
        },
        None => ordered,
    };
    assert(output_table_refs(ordered) == output_table_refs(node));
}

/// The table references that the plan of a query outputs are all defined in
/// the bind context that the query was planned against.
pub proof fn lemma_planned_output_refs_defined(
    plan: LogicalOperator,
    query: BoundQuery,
    bind_context: &BindContext,
)
    requires
        query_error(query, bind_context@) is None,
        is_query_plan(plan, query, bind_context@),
    ensures
        refs_defined(output_table_refs(plan), bind_context),
{
    match query {
        BoundQuery::Select(select) => {
            lemma_select_plan_output(plan, select, bind_context@);
        },
        BoundQuery::Setop(setop) => {
            lemma_setop_plan_output(plan, setop, bind_context@);
        },
        BoundQuery::Values(_) => {},
    }
}

#[derive(Debug)]
pub struct QueryPlanner;

impl QueryPlanner {
    /// Plans a bound query, as `is_query_plan` states; fails, as
    /// `query_error` states, when the bind context lacks a table. The bind
    /// context is left as it was.
    pub fn plan(&self, bind_context: &mut BindContext, query: BoundQuery) -> (r: Result<
        LogicalOperator,
        RayexecError,
    >)
        ensures
            final(bind_context)@ == old(bind_context)@,
            match query_error(query, old(bind_context)@) {
                Some(msg) => fails_with(r, msg),
                None => r matches Ok(plan) && is_query_plan(plan, query, old(bind_context)@),
            },
            r matches Ok(plan) ==> refs_defined(output_table_refs(plan), final(bind_context)),
        decreases query, 1nat,
    {
        let r = match query {
            BoundQuery::Select(select) => SelectPlanner.plan(bind_context, select),
            BoundQuery::Setop(setop) => SetOpPlanner.plan(bind_context, setop),
            BoundQuery::Values(values) => plan_table_scan(
                &*bind_context,
                values.expressions_table,
                ScanSource::ExpressionList { rows: values.rows },
                LocationRequirement::Any,
            ),
        };
        proof {
            if r is Ok {
                lemma_planned_output_refs_defined(r->Ok_0, query, &*bind_context);
            }
        }
        r
    }
}

} // verus!
