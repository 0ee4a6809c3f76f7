//! Joins of two inputs.

use crate::bind_context::{table_ref_text, MaterializationRef, TableRef};
use crate::explain::{ExplainConfig, ExplainEntry, ExplainEntryView, Explainable};
use crate::expr::comparison_expr::{comparison_operator_text, ComparisonExpr, ComparisonOperator};
use crate::expr::{expr_text, Expression};
use crate::logical::operator::{children_table_refs, join_output_refs, Node};
use vstd::prelude::*;

verus! {

#[derive(Debug, Clone, Copy, PartialEq, Eq, Structural)]
pub enum JoinType {
    /// Standard LEFT join.
    Left,
    /// Standard RIGHT join.
    Right,
    /// Standard INNER join.
    Inner,
    /// Standard full/outer join.
    Full,
    /// Left semi join.
    Semi,
    /// Left anti join.
    Anti,
    /// A left join that emits all rows on the left side joined with a column
    /// that indicates if there was a join partner on the right.
    LeftMark {
        /// The table ref that names the mark column in logical planning.
        ///
        /// This should have a single column of type bool.
        table_ref: TableRef,
    },
}

/// The rendered form of a join type.
pub open spec fn join_type_text(join_type: JoinType) -> Seq<char> {
    match join_type {
        JoinType::Inner => "INNER"@,
        JoinType::Left => "LEFT"@,
        JoinType::Right => "RIGHT"@,
        JoinType::Full => "FULL"@,
        JoinType::Semi => "SEMI"@,
        JoinType::Anti => "ANTI"@,
        JoinType::LeftMark { table_ref } => "LEFT MARK (ref = "@ + table_ref_text(table_ref) + ")"@,
    }
}

impl JoinType {
    /// The table references a join of this type outputs over a node's
    /// children: what the children output, but for a mark join, which
    /// outputs what the first child outputs and then its mark reference.
    pub fn output_refs<T>(self, node: &Node<T>) -> (refs: Vec<TableRef>)
        ensures
            refs@ == join_output_refs(self, node.children@),
        decreases *node, 1nat,
    {
        if let JoinType::LeftMark { table_ref } = self {
            let mut refs = if node.children.len() > 0 {
                node.children[0].get_output_table_refs()
            } else {
                Vec::new()
            };
            refs.push(table_ref);
            refs
        } else {
            node.get_children_table_refs()
        }
    }

    pub fn to_string(&self) -> (s: String)
        ensures
            s@ == join_type_text(*self),
    {
        match self {
            JoinType::Inner => String::from_str("INNER"),
            JoinType::Left => String::from_str("LEFT"),
            JoinType::Right => String::from_str("RIGHT"),
            JoinType::Full => String::from_str("FULL"),
            JoinType::Semi => String::from_str("SEMI"),
            JoinType::Anti => String::from_str("ANTI"),
            JoinType::LeftMark { table_ref } => {
                let mut s = String::from_str("LEFT MARK (ref = ");
                s.append(table_ref.to_string().as_str());
                s.append(")");
                s
            },
        }
    }
}

#[derive(Debug, PartialEq, Eq)]
pub struct ComparisonCondition {
    /// Expression containing column references from the left side.
    pub left: Expression,
    /// Expression containing column references from the right side.
    pub right: Expression,
    /// Comparison operator.
    pub op: ComparisonOperator,
}

/// The rendered form of a condition: `left op right`.
pub open spec fn condition_text(c: ComparisonCondition) -> Seq<char> {
    expr_text(c.left) + " "@ + comparison_operator_text(c.op) + " "@ + expr_text(c.right)
}

/// The rendered forms of a list of conditions.
pub open spec fn condition_texts(conditions: Seq<ComparisonCondition>) -> Seq<Seq<char>> {
    conditions.map_values(|c: ComparisonCondition| condition_text(c))
}

impl Clone for ComparisonCondition {
    fn clone(&self) -> (r: Self)
        ensures
            r == *self,
    {
        ComparisonCondition { left: self.left.clone(), right: self.right.clone(), op: self.op }
    }
}

impl ComparisonCondition {
    /// The condition with its sides swapped and its operator flipped; it
    /// holds of the same rows.
    pub open spec fn flipped(self) -> ComparisonCondition {
        ComparisonCondition { left: self.right, right: self.left, op: self.op.spec_flip() }
    }

    /// The condition as a comparison expression.
    pub fn into_expression(self) -> (e: Expression)
        ensures
            e == Expression::Comparison(
                ComparisonExpr {
                    left: Box::new(self.left),
                    right: Box::new(self.right),
                    op: self.op,
                },
            ),
    {
        Expression::Comparison(
            ComparisonExpr { left: Box::new(self.left), right: Box::new(self.right), op: self.op },
        )
    }

    /// Swaps the sides and flips the operator.
    pub fn flip_sides(&mut self)
        ensures
            *final(self) == old(self).flipped(),
    {
        self.op = self.op.flip();
        std::mem::swap(&mut self.left, &mut self.right);
    }

    /// Flipping the sides of a condition twice gives the condition back.
    pub proof fn lemma_flip_sides_twice(self)
        ensures
            self.flipped().flipped() == self,
    {
    }

    pub fn to_string(&self) -> (s: String)
        ensures
            s@ == condition_text(*self),
    {
        let mut s = self.left.to_string();
        s.append(" ");
        s.append(self.op.to_string().as_str());
        s.append(" ");
        s.append(self.right.to_string().as_str());
        s
    }
}

/// Renders each condition of a list.
pub fn conditions_to_strings(conditions: &Vec<ComparisonCondition>) -> (out: Vec<String>)
    ensures
        out.deep_view() == condition_texts(conditions@),
{
    let mut out: Vec<String> = Vec::new();
    let mut i: usize = 0;
    while i < conditions.len()
        invariant
            i <= conditions.len(),
            out.deep_view() == condition_texts(conditions@.take(i as int)),
        decreases conditions.len() - i,
    {
        let text = conditions[i].to_string();
        let ghost before = out.deep_view();
        out.push(text);
        proof {
            assert(out.deep_view() =~= before.push(text@));
            assert(condition_texts(conditions@.take(i + 1)) =~= before.push(text@));
        }
        i += 1;
    }
    assert(conditions@.take(conditions.len() as int) =~= conditions@);
    out
}

#[derive(Debug, PartialEq, Eq)]
pub struct LogicalComparisonJoin {
    pub join_type: JoinType,
    pub conditions: Vec<ComparisonCondition>,
}

impl Explainable for LogicalComparisonJoin {
    open spec fn explain_view(&self, conf: ExplainConfig) -> ExplainEntryView {
        ExplainEntryView::named("ComparisonJoin"@).with_values(
            "conditions"@,
            condition_texts(self.conditions@),
        ).with_value("join_type"@, join_type_text(self.join_type))
    }

    fn explain_entry(&self, _conf: ExplainConfig) -> (e: ExplainEntry) {
        ExplainEntry::new("ComparisonJoin").with_values(
            "conditions",
            conditions_to_strings(&self.conditions),
        ).with_value("join_type", self.join_type.to_string())
    }
}

impl Node<LogicalComparisonJoin> {
    pub fn get_output_table_refs(&self) -> (refs: Vec<TableRef>)
        ensures
            refs@ == join_output_refs(self.node.join_type, self.children@),
        decreases *self, 2nat,
    {
        self.node.join_type.output_refs(self)
    }
}

/// A magic join behaves the same as a comparison join, and only marks a join
/// node that subquery decorrelation created.
///
/// A separate type lets optimization steps recognize such joins.
///
/// The left child will be a materialization scan, and the right child will
/// be a normal operator tree with some number of "magic" materialization
/// scans that read deduplicated values from a materialized plan that's
/// referenced on the left.
#[derive(Debug, PartialEq, Eq)]
pub struct LogicalMagicJoin {
    /// The materialization reference for the left child.
    ///
    /// Any "magic" materialization scan on the right can be assumed to be
    /// part of the same decorrelation step that created this node.
    pub mat_ref: MaterializationRef,
    /// The join type, behaves the same as a comparison join.
    pub join_type: JoinType,
    /// Conditions, same as comparison join.
    pub conditions: Vec<ComparisonCondition>,
}

impl Explainable for LogicalMagicJoin {
    open spec fn explain_view(&self, conf: ExplainConfig) -> ExplainEntryView {
        ExplainEntryView::named("MagicJoin"@).with_values(
            "conditions"@,
            condition_texts(self.conditions@),
        ).with_value("join_type"@, join_type_text(self.join_type))
    }

    fn explain_entry(&self, _conf: ExplainConfig) -> (e: ExplainEntry) {
        ExplainEntry::new("MagicJoin").with_values(
            "conditions",
            conditions_to_strings(&self.conditions),
        ).with_value("join_type", self.join_type.to_string())
    }
}

impl Node<LogicalMagicJoin> {
    pub fn get_output_table_refs(&self) -> (refs: Vec<TableRef>)
        ensures
            refs@ == join_output_refs(self.node.join_type, self.children@),
        decreases *self, 2nat,
    {
        self.node.join_type.output_refs(self)
    }
}

#[derive(Debug, PartialEq, Eq)]
pub struct LogicalArbitraryJoin {
    pub join_type: JoinType,
    pub condition: Expression,
}

impl Explainable for LogicalArbitraryJoin {
    open spec fn explain_view(&self, conf: ExplainConfig) -> ExplainEntryView {
        ExplainEntryView::named("ArbitraryJoin"@).with_value(
            "join_type"@,
            join_type_text(self.join_type),
        ).with_value("condition"@, expr_text(self.condition))
    }

    fn explain_entry(&self, _conf: ExplainConfig) -> (e: ExplainEntry) {
        ExplainEntry::new("ArbitraryJoin").with_value(
            "join_type",
            self.join_type.to_string(),
        ).with_value("condition", self.condition.to_string())
    }
}

impl Node<LogicalArbitraryJoin> {
    pub fn get_output_table_refs(&self) -> (refs: Vec<TableRef>)
        ensures
            refs@ == join_output_refs(self.node.join_type, self.children@),
        decreases *self, 2nat,
    {
        self.node.join_type.output_refs(self)
    }
}

#[derive(Debug, Clone, Copy, PartialEq, Eq, Structural)]
pub struct LogicalCrossJoin;

impl Explainable for LogicalCrossJoin {
    open spec fn explain_view(&self, conf: ExplainConfig) -> ExplainEntryView {
        ExplainEntryView::named("CrossJoin"@)
    }

    fn explain_entry(&self, _conf: ExplainConfig) -> (e: ExplainEntry) {
        ExplainEntry::new("CrossJoin")
    }
}

impl Node<LogicalCrossJoin> {
    pub fn get_output_table_refs(&self) -> (refs: Vec<TableRef>)
        ensures
            refs@ == children_table_refs(self.children@, self.children@.len()),
        decreases *self, 2nat,
    {
        self.get_children_table_refs()
    }
}

} // verus!
