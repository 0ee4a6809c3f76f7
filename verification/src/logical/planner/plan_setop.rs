//! Plans a set operation: a node over the plans of the two sides.

use crate::bind_context::BindContext;
use crate::error::{fails_with, RayexecError};
use crate::logical::binder::bind_query::BoundSetOp;
use crate::logical::logical_setop::LogicalSetop;
use crate::logical::operator::{LocationRequirement, LogicalOperator, Node};
use crate::logical::planner::plan_query::{is_setop_plan, setop_error, QueryPlanner};
use crate::logical::planner::plan_select::plan_order_and_limit;
use vstd::prelude::*;

verus! {

#[derive(Debug)]
pub struct SetOpPlanner;

impl SetOpPlanner {
    /// Plans a set operation, as `is_setop_plan` states; fails, as
    /// `setop_error` states, when the bind context lacks a table. The bind
    /// context is left as it was.
    pub fn plan(&self, bind_context: &mut BindContext, setop: BoundSetOp) -> (r: Result<
        LogicalOperator,
        RayexecError,
    >)
        ensures
            final(bind_context)@ == old(bind_context)@,
            match setop_error(setop, old(bind_context)@) {
                Some(msg) => fails_with(r, msg),
                None => r matches Ok(plan) && is_setop_plan(plan, setop, old(bind_context)@),
            },
        decreases setop, 0nat,
    {
        let left = QueryPlanner.plan(bind_context, *setop.left)?;
        let right = QueryPlanner.plan(bind_context, *setop.right)?;
        bind_context.get_table(setop.setop_table)?;
        let mut children: Vec<LogicalOperator> = Vec::new();
        children.push(left);
        children.push(right);
        let plan = LogicalOperator::SetOp(
            Node {
                node: LogicalSetop {
                    kind: setop.kind,
                    all: setop.all,
                    table_ref: setop.setop_table,
                },
                location: LocationRequirement::Any,
                children,
            },
        );
        Ok(plan_order_and_limit(plan, setop.order_by, setop.limit))
    }
}

} // verus!
