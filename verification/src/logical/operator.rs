//! The uniform wrapper around every logical node, and the sum of all node
//! types.

use crate::bind_context::{BindContext, TableRef};
use crate::explain::{
    explain_entry_text, ExplainConfig, ExplainEntry, ExplainEntryView, Explainable,
};
use crate::logical::logical_aggregate::{aggregate_output_refs, LogicalAggregate};
use crate::logical::logical_copy::LogicalCopyTo;
use crate::logical::logical_empty::LogicalEmpty;
use crate::logical::logical_filter::LogicalFilter;
use crate::logical::logical_join::{
    JoinType, LogicalArbitraryJoin, LogicalComparisonJoin, LogicalCrossJoin, LogicalMagicJoin,
};
use crate::logical::logical_limit::LogicalLimit;
use crate::logical::logical_order::LogicalOrder;
use crate::logical::logical_project::LogicalProject;
use crate::logical::logical_scan::LogicalScan;
use crate::logical::logical_set::{LogicalResetVar, LogicalSetVar, LogicalShowVar};
use crate::logical::logical_setop::LogicalSetop;
use vstd::prelude::*;

verus! {

/// Where a node must execute.
#[derive(Debug, Clone, Copy, PartialEq, Eq, Structural)]
pub enum LocationRequirement {
    /// The node must run on the client.
    ClientLocal,
    /// The node must run on a remote machine.
    Remote,
    /// The node may run anywhere.
    Any,
}

/// A logical node with the location it requires and its inputs.
#[derive(Debug, PartialEq)]
pub struct Node<T> {
    pub node: T,
    pub location: LocationRequirement,
    pub children: Vec<LogicalOperator>,
}

#[derive(Debug, PartialEq)]
pub enum LogicalOperator {
    Empty(Node<LogicalEmpty>),
    Scan(Node<LogicalScan>),
    Project(Node<LogicalProject>),
    Filter(Node<LogicalFilter>),
    Aggregate(Node<LogicalAggregate>),
    Order(Node<LogicalOrder>),
    Limit(Node<LogicalLimit>),
    ComparisonJoin(Node<LogicalComparisonJoin>),
    MagicJoin(Node<LogicalMagicJoin>),
    ArbitraryJoin(Node<LogicalArbitraryJoin>),
    CrossJoin(Node<LogicalCrossJoin>),
    SetOp(Node<LogicalSetop>),
    CopyTo(Node<LogicalCopyTo>),
    SetVar(Node<LogicalSetVar>),
    ResetVar(Node<LogicalResetVar>),
    ShowVar(Node<LogicalShowVar>),
}

/// The table references a plan outputs.
///
/// Scans, projections, aggregates and set operations output the references
/// they declare. Filters, orderings, limits and cross joins output what
/// their children output. Joins output what their children output, but for
/// a mark join, which outputs what its first child outputs and then its
/// mark reference. The remaining nodes output nothing.
pub open spec fn output_table_refs(op: LogicalOperator) -> Seq<TableRef>
    decreases op, 0nat,
{
    match op {
        LogicalOperator::Empty(_) => Seq::empty(),
        LogicalOperator::Scan(n) => seq![n.node.table_ref],
        LogicalOperator::Project(n) => seq![n.node.projection_table],
        LogicalOperator::Filter(n) => children_table_refs(n.children@, n.children@.len()),
        LogicalOperator::Aggregate(n) => aggregate_output_refs(n.node),
        LogicalOperator::Order(n) => children_table_refs(n.children@, n.children@.len()),
        LogicalOperator::Limit(n) => children_table_refs(n.children@, n.children@.len()),
        LogicalOperator::ComparisonJoin(n) => join_output_refs(n.node.join_type, n.children@),
        LogicalOperator::MagicJoin(n) => join_output_refs(n.node.join_type, n.children@),
        LogicalOperator::ArbitraryJoin(n) => join_output_refs(n.node.join_type, n.children@),
        LogicalOperator::CrossJoin(n) => children_table_refs(n.children@, n.children@.len()),
        LogicalOperator::SetOp(n) => seq![n.node.table_ref],
        LogicalOperator::CopyTo(_) => Seq::empty(),
        LogicalOperator::SetVar(_) => Seq::empty(),
        LogicalOperator::ResetVar(_) => Seq::empty(),
        LogicalOperator::ShowVar(_) => Seq::empty(),
    }
}

/// The table references that the first `upto` children output, in order.
pub open spec fn children_table_refs(children: Seq<LogicalOperator>, upto: nat) -> Seq<TableRef>
    decreases children, upto,
{
    if upto == 0 || upto > children.len() {
        Seq::empty()
    } else {
        children_table_refs(children, (upto - 1) as nat) + output_table_refs(children[upto - 1])
    }
}

/// The table references a join over the given children outputs.
pub open spec fn join_output_refs(join_type: JoinType, children: Seq<LogicalOperator>) -> Seq<
    TableRef,
>
    decreases children, children.len() + 1,
{
    match join_type {
        JoinType::LeftMark { table_ref } => (if children.len() > 0 {
            output_table_refs(children[0])
        } else {
            Seq::empty()
        }).push(table_ref),
        _ => children_table_refs(children, children.len()),
    }
}

/// The indentation of a line at a depth: two spaces per level.
pub open spec fn indent_text(depth: nat) -> Seq<char>
    decreases depth,
{
    if depth == 0 {
        Seq::empty()
    } else {
        indent_text((depth - 1) as nat) + "  "@
    }
}

/// The depth of the children of a node at a depth: one more, as far as
/// depths can be counted.
pub open spec fn child_depth(depth: nat) -> nat {
    if depth < usize::MAX {
        depth + 1
    } else {
        depth
    }
}

/// The rendered form of a plan at a depth: the entry of its root on a line
/// of its own, indented by the depth, followed by its children, one level
/// deeper, in order.
pub open spec fn plan_text(plan: LogicalOperator, conf: ExplainConfig, depth: nat) -> Seq<char>
    decreases plan, 0nat,
{
    indent_text(depth) + explain_entry_text(plan.explain_view(conf)) + "\n"@ + children_text(
        plan.spec_children(),
        conf,
        child_depth(depth),
        plan.spec_children().len(),
    )
}

/// The rendered forms of the first `upto` plans of a list, one after the
/// other.
pub open spec fn children_text(
    children: Seq<LogicalOperator>,
    conf: ExplainConfig,
    depth: nat,
    upto: nat,
) -> Seq<char>
    decreases children, upto,
{
    if upto == 0 || upto > children.len() {
        Seq::empty()
    } else {
        children_text(children, conf, depth, (upto - 1) as nat) + plan_text(
            children[upto - 1],
            conf,
            depth,
        )
    }
}

/// A child of a plan is smaller than the plan.
proof fn lemma_children_decrease(plan: LogicalOperator, k: int)
    requires
        0 <= k < plan.spec_children().len(),
    ensures
        decreases_to!(plan => plan.spec_children()[k]),
{
}

/// Whether a bind context defines every reference of a list.
pub open spec fn refs_defined(refs: Seq<TableRef>, bind_context: &BindContext) -> bool {
    forall|i: int| 0 <= i < refs.len() ==> bind_context.defines(#[trigger] refs[i])
}

impl<T> Node<T> {
    /// The table references that the children output, in order.
    pub fn get_children_table_refs(&self) -> (refs: Vec<TableRef>)
        ensures
            refs@ == children_table_refs(self.children@, self.children@.len()),
        decreases *self, 0nat,
    {
        let mut refs: Vec<TableRef> = Vec::new();
        let mut i: usize = 0;
        while i < self.children.len()
            invariant
                i <= self.children.len(),
                refs@ == children_table_refs(self.children@, i as nat),
            decreases self.children.len() - i,
        {
            let mut child_refs = self.children[i].get_output_table_refs();
            refs.append(&mut child_refs);
            i += 1;
        }
        refs
    }
}

impl LogicalOperator {
    /// The name of the kind of node at the root of the plan.
    pub open spec fn spec_name(&self) -> Seq<char> {
        match *self {
            LogicalOperator::Empty(_) => "Empty"@,
            LogicalOperator::Scan(_) => "Scan"@,
            LogicalOperator::Project(_) => "Project"@,
            LogicalOperator::Filter(_) => "Filter"@,
            LogicalOperator::Aggregate(_) => "Aggregate"@,
            LogicalOperator::Order(_) => "Order"@,
            LogicalOperator::Limit(_) => "Limit"@,
            LogicalOperator::ComparisonJoin(_) => "ComparisonJoin"@,
            LogicalOperator::MagicJoin(_) => "MagicJoin"@,
            LogicalOperator::ArbitraryJoin(_) => "ArbitraryJoin"@,
            LogicalOperator::CrossJoin(_) => "CrossJoin"@,
            LogicalOperator::SetOp(_) => "SetOp"@,
            LogicalOperator::CopyTo(_) => "CopyTo"@,
            LogicalOperator::SetVar(_) => "SetVar"@,
            LogicalOperator::ResetVar(_) => "ResetVar"@,
            LogicalOperator::ShowVar(_) => "ShowVar"@,
        }
    }

    pub fn name(&self) -> (n: &'static str)
        ensures
            n@ == self.spec_name(),
    {
        match self {
            LogicalOperator::Empty(_) => "Empty",
            LogicalOperator::Scan(_) => "Scan",
            LogicalOperator::Project(_) => "Project",
            LogicalOperator::Filter(_) => "Filter",
            LogicalOperator::Aggregate(_) => "Aggregate",
            LogicalOperator::Order(_) => "Order",
            LogicalOperator::Limit(_) => "Limit",
            LogicalOperator::ComparisonJoin(_) => "ComparisonJoin",
            LogicalOperator::MagicJoin(_) => "MagicJoin",
            LogicalOperator::ArbitraryJoin(_) => "ArbitraryJoin",
            LogicalOperator::CrossJoin(_) => "CrossJoin",
            LogicalOperator::SetOp(_) => "SetOp",
            LogicalOperator::CopyTo(_) => "CopyTo",
            LogicalOperator::SetVar(_) => "SetVar",
            LogicalOperator::ResetVar(_) => "ResetVar",
            LogicalOperator::ShowVar(_) => "ShowVar",
        }
    }

    /// The entry that describes the node at the root of the plan.
    pub open spec fn explain_view(&self, conf: ExplainConfig) -> ExplainEntryView {
        match *self {
            LogicalOperator::Empty(n) => n.node.explain_view(conf),
            LogicalOperator::Scan(n) => n.node.explain_view(conf),
            LogicalOperator::Project(n) => n.node.explain_view(conf),
            LogicalOperator::Filter(n) => n.node.explain_view(conf),
            LogicalOperator::Aggregate(n) => n.node.explain_view(conf),
            LogicalOperator::Order(n) => n.node.explain_view(conf),
            LogicalOperator::Limit(n) => n.node.explain_view(conf),
            LogicalOperator::ComparisonJoin(n) => n.node.explain_view(conf),
            LogicalOperator::MagicJoin(n) => n.node.explain_view(conf),
            LogicalOperator::ArbitraryJoin(n) => n.node.explain_view(conf),
            LogicalOperator::CrossJoin(n) => n.node.explain_view(conf),
            LogicalOperator::SetOp(n) => n.node.explain_view(conf),
            LogicalOperator::CopyTo(n) => n.node.explain_view(conf),
            LogicalOperator::SetVar(n) => n.node.explain_view(conf),
            LogicalOperator::ShowVar(n) => n.node.explain_view(conf),
            LogicalOperator::ResetVar(n) => n.explain_view(conf),
        }
    }

    /// Describes the node at the root of the plan.
    pub fn explain_entry(&self, conf: ExplainConfig) -> (e: ExplainEntry)
        ensures
            e@ == self.explain_view(conf),
    {
        match self {
            LogicalOperator::Empty(n) => n.node.explain_entry(conf),
            LogicalOperator::Scan(n) => n.node.explain_entry(conf),
            LogicalOperator::Project(n) => n.node.explain_entry(conf),
            LogicalOperator::Filter(n) => n.node.explain_entry(conf),
            LogicalOperator::Aggregate(n) => n.node.explain_entry(conf),
            LogicalOperator::Order(n) => n.node.explain_entry(conf),
            LogicalOperator::Limit(n) => n.node.explain_entry(conf),
            LogicalOperator::ComparisonJoin(n) => n.node.explain_entry(conf),
            LogicalOperator::MagicJoin(n) => n.node.explain_entry(conf),
            LogicalOperator::ArbitraryJoin(n) => n.node.explain_entry(conf),
            LogicalOperator::CrossJoin(n) => n.node.explain_entry(conf),
            LogicalOperator::SetOp(n) => n.node.explain_entry(conf),
            LogicalOperator::CopyTo(n) => n.node.explain_entry(conf),
            LogicalOperator::SetVar(n) => n.node.explain_entry(conf),
            LogicalOperator::ShowVar(n) => n.node.explain_entry(conf),
            LogicalOperator::ResetVar(n) => n.explain_entry(conf),
        }
    }

    /// The children of the node at the root of the plan.
    pub open spec fn spec_children(&self) -> Seq<LogicalOperator> {
        match *self {
            LogicalOperator::Empty(n) => n.children@,
            LogicalOperator::Scan(n) => n.children@,
            LogicalOperator::Project(n) => n.children@,
            LogicalOperator::Filter(n) => n.children@,
            LogicalOperator::Aggregate(n) => n.children@,
            LogicalOperator::Order(n) => n.children@,
            LogicalOperator::Limit(n) => n.children@,
            LogicalOperator::ComparisonJoin(n) => n.children@,
            LogicalOperator::MagicJoin(n) => n.children@,
            LogicalOperator::ArbitraryJoin(n) => n.children@,
            LogicalOperator::CrossJoin(n) => n.children@,
            LogicalOperator::SetOp(n) => n.children@,
            LogicalOperator::CopyTo(n) => n.children@,
            LogicalOperator::SetVar(n) => n.children@,
            LogicalOperator::ShowVar(n) => n.children@,
            LogicalOperator::ResetVar(n) => n.children@,
        }
    }

    pub fn children(&self) -> (c: &Vec<LogicalOperator>)
        ensures
            c@ == self.spec_children(),
    {
        match self {
            LogicalOperator::Empty(n) => &n.children,
            LogicalOperator::Scan(n) => &n.children,
            LogicalOperator::Project(n) => &n.children,
            LogicalOperator::Filter(n) => &n.children,
            LogicalOperator::Aggregate(n) => &n.children,
            LogicalOperator::Order(n) => &n.children,
            LogicalOperator::Limit(n) => &n.children,
            LogicalOperator::ComparisonJoin(n) => &n.children,
            LogicalOperator::MagicJoin(n) => &n.children,
            LogicalOperator::ArbitraryJoin(n) => &n.children,
            LogicalOperator::CrossJoin(n) => &n.children,
            LogicalOperator::SetOp(n) => &n.children,
            LogicalOperator::CopyTo(n) => &n.children,
            LogicalOperator::SetVar(n) => &n.children,
            LogicalOperator::ShowVar(n) => &n.children,
            LogicalOperator::ResetVar(n) => &n.children,
        }
    }

    /// Renders the plan, one node per line, as `plan_text` states.
    pub fn explain(&self, conf: ExplainConfig) -> (s: String)
        ensures
            s@ == plan_text(*self, conf, 0),
    {
        let mut out = String::new();
        self.explain_into(conf, 0, &mut out);
        assert(Seq::<char>::empty() + plan_text(*self, conf, 0) =~= plan_text(*self, conf, 0));
        out
    }

    fn explain_into(&self, conf: ExplainConfig, depth: usize, out: &mut String)
        ensures
            final(out)@ == old(out)@ + plan_text(*self, conf, depth as nat),
        decreases *self,
    {
        let ghost start = out@;
        let mut i: usize = 0;
        while i < depth
            invariant
                i <= depth,
                out@ == start + indent_text(i as nat),
            decreases depth - i,
        {
            out.append("  ");
            assert(out@ =~= start + indent_text((i + 1) as nat));
            i += 1;
        }
        out.append(self.explain_entry(conf).to_string().as_str());
        out.append("\n");
        let children = self.children();
        let ghost head = out@;
        let next_depth = if depth < usize::MAX {
            depth + 1
        } else {
            depth
        };
        let mut k: usize = 0;
        while k < children.len()
            invariant
                k <= children.len(),
                children@ == self.spec_children(),
                out@ == head + children_text(children@, conf, child_depth(depth as nat), k as nat),
                next_depth == child_depth(depth as nat),
            decreases children.len() - k,
        {
            assert(decreases_to!(*self => self.spec_children()[k as int])) by {
                lemma_children_decrease(*self, k as int);
            }
            children[k].explain_into(conf, next_depth, out);
            assert(out@ =~= head + children_text(
                children@,
                conf,
                child_depth(depth as nat),
                (k + 1) as nat,
            ));
            k += 1;
        }
        assert(out@ =~= start + plan_text(*self, conf, depth as nat));
    }

    /// The table references the plan outputs, as `output_table_refs`
    /// states.
    pub fn get_output_table_refs(&self) -> (refs: Vec<TableRef>)
        ensures
            refs@ == output_table_refs(*self),
        decreases *self, 3nat,
    {
        match self {
            LogicalOperator::Empty(n) => n.get_output_table_refs(),
            LogicalOperator::Scan(n) => n.get_output_table_refs(),
            LogicalOperator::Project(n) => n.get_output_table_refs(),
            LogicalOperator::Filter(n) => n.get_output_table_refs(),
            LogicalOperator::Aggregate(n) => n.get_output_table_refs(),
            LogicalOperator::Order(n) => n.get_output_table_refs(),
            LogicalOperator::Limit(n) => n.get_output_table_refs(),
            LogicalOperator::ComparisonJoin(n) => n.get_output_table_refs(),
            LogicalOperator::MagicJoin(n) => n.get_output_table_refs(),
            LogicalOperator::ArbitraryJoin(n) => n.get_output_table_refs(),
            LogicalOperator::CrossJoin(n) => n.get_output_table_refs(),
            LogicalOperator::SetOp(n) => n.get_output_table_refs(),
            LogicalOperator::CopyTo(n) => n.get_output_table_refs(),
            LogicalOperator::SetVar(n) => n.get_output_table_refs(),
            LogicalOperator::ResetVar(n) => n.get_output_table_refs(),
            LogicalOperator::ShowVar(n) => n.get_output_table_refs(),
        }
    }
}

} // verus!
