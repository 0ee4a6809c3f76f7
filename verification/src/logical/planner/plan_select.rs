//! Plans a SELECT: projection over filter over join over scans, with an
//! aggregate where the query groups or aggregates.

use crate::bind_context::{missing_table_text, BindContext, TableView};
use crate::error::{fails_with, RayexecError};
use crate::logical::binder::bind_query::BoundSelect;
use crate::logical::logical_aggregate::LogicalAggregate;
use crate::logical::logical_filter::LogicalFilter;
use crate::logical::logical_limit::LogicalLimit;
use crate::logical::logical_order::{LogicalOrder, OrderByExpr};
use crate::logical::logical_project::LogicalProject;
use crate::logical::operator::{LocationRequirement, LogicalOperator, Node};
use crate::logical::planner::plan_from::{from_error, is_from_plan, unary_node, FromPlanner};
use vstd::prelude::*;

verus! {

/// Whether a SELECT needs an aggregate node: it has aggregates or a GROUP
/// BY.
pub open spec fn aggregates(select: BoundSelect) -> bool {
    select.select_list.aggregates@.len() > 0 || select.group_by is Some
}

/// The message of the error that stops planning a SELECT, if any: what
/// stops planning its FROM clause, or else that the bind context lacks the
/// table of its select list.
pub open spec fn select_error(select: BoundSelect, tables: Seq<TableView>) -> Option<Seq<char>> {
    match from_error(select.from, tables) {
        Some(msg) => Some(msg),
        None => if select.select_list.projections_table.table_idx < tables.len() {
            None
        } else {
            Some(missing_table_text(select.select_list.projections_table))
        },
    }
}

/// Whether a plan is a SELECT's plan up to its WHERE clause: the plan of
/// the FROM clause, under a filter where there is a WHERE clause.
pub open spec fn is_filtered_from(
    plan: LogicalOperator,
    select: BoundSelect,
    tables: Seq<TableView>,
) -> bool {
    match select.filter {
        Some(filter) => plan matches LogicalOperator::Filter(n) && n.node.filter == filter
            && unary_node(n) && is_from_plan(n.children@[0], select.from, tables),
        None => is_from_plan(plan, select.from, tables),
    }
}

/// Whether a plan is a SELECT's plan up to its aggregate: where the query
/// groups or aggregates, an aggregate node over the filtered FROM clause,
/// carrying the aggregates, the group expressions and their tables.
pub open spec fn is_aggregated(
    plan: LogicalOperator,
    select: BoundSelect,
    tables: Seq<TableView>,
) -> bool {
    if aggregates(select) {
        plan matches LogicalOperator::Aggregate(n) && unary_node(n) && is_filtered_from(
            n.children@[0],
            select,
            tables,
        ) && n.node.aggregates_table == select.select_list.aggregates_table && n.node.aggregates
            == select.select_list.aggregates && n.node.grouping_set_table
            == select.select_list.grouping_set_table && (match select.group_by {
            Some(group_by) => n.node.group_table == Some(group_by.group_table)
                && n.node.group_exprs == group_by.expressions && n.node.grouping_sets == Some(
                group_by.grouping_sets,
            ),
            None => n.node.group_table is None && n.node.group_exprs@.len() == 0
                && n.node.grouping_sets is None,
        })
    } else {
        is_filtered_from(plan, select, tables)
    }
}

/// Whether a plan is a SELECT's plan up to its HAVING clause: a filter
/// over the aggregate where there is a HAVING clause.
pub open spec fn is_having(
    plan: LogicalOperator,
    select: BoundSelect,
    tables: Seq<TableView>,
) -> bool {
    match select.having {
        Some(having) => plan matches LogicalOperator::Filter(n) && n.node.filter == having
            && unary_node(n) && is_aggregated(n.children@[0], select, tables),
        None => is_aggregated(plan, select, tables),
    }
}

/// Whether a plan is a SELECT's plan up to its select list: a projection
/// of the select list over what comes before.
pub open spec fn is_projected(
    plan: LogicalOperator,
    select: BoundSelect,
    tables: Seq<TableView>,
) -> bool {
    plan matches LogicalOperator::Project(n) && n.node.projection_table
        == select.select_list.projections_table && n.node.projections
        == select.select_list.projections && unary_node(n) && is_having(
        n.children@[0],
        select,
        tables,
    )
}

/// Whether a plan is a SELECT's plan up to its ORDER BY: the projection,
/// under an ordering where there is an ORDER BY.
pub open spec fn is_ordered_select(
    plan: LogicalOperator,
    select: BoundSelect,
    tables: Seq<TableView>,
) -> bool {
    match select.order_by {
        Some(exprs) => plan matches LogicalOperator::Order(n) && n.node.exprs == exprs
            && unary_node(n) && is_projected(n.children@[0], select, tables),
        None => is_projected(plan, select, tables),
    }
}

/// Whether a plan is the plan of a SELECT: the ordered projection, under a
/// limit where there is a LIMIT.
pub open spec fn is_select_plan(
    plan: LogicalOperator,
    select: BoundSelect,
    tables: Seq<TableView>,
) -> bool {
    match select.limit {
        Some(limit) => plan matches LogicalOperator::Limit(n) && n.node == limit && unary_node(n)
            && is_ordered_select(n.children@[0], select, tables),
        None => is_ordered_select(plan, select, tables),
    }
}

/// Whether a plan is another plan under an ordering, where there is one.
pub open spec fn is_ordered_over(
    plan: LogicalOperator,
    order_by: Option<Vec<OrderByExpr>>,
    inner: LogicalOperator,
) -> bool {
    match order_by {
        Some(exprs) => plan matches LogicalOperator::Order(n) && n.node.exprs == exprs
            && unary_node(n) && n.children@[0] == inner,
        None => plan == inner,
    }
}

/// A node over one child that may run anywhere.
pub fn over<T>(node: T, child: LogicalOperator) -> (n: Node<T>)
    ensures
        n.node == node,
        unary_node(n),
        n.children@[0] == child,
{
    let mut children: Vec<LogicalOperator> = Vec::new();
    children.push(child);
    Node { node, location: LocationRequirement::Any, children }
}

/// Puts an ordering and a limit over a plan, where there are such.
pub fn plan_order_and_limit(
    plan: LogicalOperator,
    order_by: Option<Vec<OrderByExpr>>,
    limit: Option<LogicalLimit>,
) -> (r: LogicalOperator)
    ensures
        match limit {
            Some(limit) => r matches LogicalOperator::Limit(n) && n.node == limit && unary_node(n)
                && is_ordered_over(n.children@[0], order_by, plan),
            None => is_ordered_over(r, order_by, plan),
        },
{
    let ordered = match order_by {
        Some(exprs) => LogicalOperator::Order(over(LogicalOrder { exprs }, plan)),
        None => plan,
    };
    match limit {
        Some(limit) => LogicalOperator::Limit(over(limit, ordered)),
        None => ordered,
    }
}

#[derive(Debug)]
pub struct SelectPlanner;

impl SelectPlanner {
    /// Plans a SELECT, as `is_select_plan` states; fails, as `select_error`
    /// states, when the bind context lacks a table. The bind context is
    /// left as it was.
    pub fn plan(&self, bind_context: &mut BindContext, select: BoundSelect) -> (r: Result<
        LogicalOperator,
        RayexecError,
    >)
        ensures
            final(bind_context)@ == old(bind_context)@,
            match select_error(select, old(bind_context)@) {
                Some(msg) => fails_with(r, msg),
                None => r matches Ok(plan) && is_select_plan(plan, select, old(bind_context)@),
            },
    {
        let ghost tables = bind_context@;
        let has_group_by = select.group_by.is_some();
        let mut plan = FromPlanner.plan(&*bind_context, select.from)?;
        assert(is_from_plan(plan, select.from, tables));

        if let Some(filter) = select.filter {
            plan = LogicalOperator::Filter(over(LogicalFilter { filter }, plan));
        }
        assert(is_filtered_from(plan, select, tables));

        if select.select_list.aggregates.len() > 0 || has_group_by {
            let (group_table, group_exprs, grouping_sets) = match select.group_by {
                Some(group_by) => (
                    Some(group_by.group_table),
                    group_by.expressions,
                    Some(group_by.grouping_sets),
                ),
                None => (None, Vec::new(), None),
            };
            plan = LogicalOperator::Aggregate(
                over(
                    LogicalAggregate {
                        aggregates_table: select.select_list.aggregates_table,
                        aggregates: select.select_list.aggregates,
                        group_table,
                        group_exprs,
                        grouping_sets,
                        grouping_set_table: select.select_list.grouping_set_table,
                    },
                    plan,
                ),
            );
        }
        assert(is_aggregated(plan, select, tables));

        if let Some(having) = select.having {
            plan = LogicalOperator::Filter(over(LogicalFilter { filter: having }, plan));
        }
        assert(is_having(plan, select, tables));

        bind_context.get_table(select.select_list.projections_table)?;
        plan = LogicalOperator::Project(
            over(
                LogicalProject {
                    projection_table: select.select_list.projections_table,
                    projections: select.select_list.projections,
                },
                plan,
            ),
        );
        assert(is_projected(plan, select, tables));

        Ok(plan_order_and_limit(plan, select.order_by, select.limit))
    }
}

} // verus!
