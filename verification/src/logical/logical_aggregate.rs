//! Groups the input and computes aggregates per group.

use crate::bind_context::{table_ref_text, TableRef};
use crate::explain::{
    expr_texts, expressions_to_strings, ExplainConfig, ExplainEntry, ExplainEntryView, Explainable,
};
use crate::expr::Expression;
use crate::logical::operator::Node;
use std::collections::BTreeSet;
use vstd::prelude::*;

verus! {

#[derive(Debug, PartialEq)]
pub struct LogicalAggregate {
    /// Table ref that represents output of aggregate expressions.
    pub aggregates_table: TableRef,
    /// Aggregate expressions.
    pub aggregates: Vec<Expression>,
    /// Table ref representing output of the group by expressions.
    ///
    /// Will be None if this aggregate does not have an associated GROUP BY.
    pub group_table: Option<TableRef>,
    /// Expressions to group on.
    pub group_exprs: Vec<Expression>,
    /// Grouping set referencing group exprs.
    pub grouping_sets: Option<Vec<BTreeSet<usize>>>,
    /// Table reference for getting the GROUPING value for a group.
    ///
    /// This is Some if there's an explicit GROUPING function call in the
    /// query. Internally, the hash aggregate produces a group id based on
    /// null bitmaps, and that id is stored with the group. This lets us
    /// tell NULL values in a column from NULLs that a grouping set produced.
    pub grouping_set_table: Option<TableRef>,
}

/// The table references an aggregate outputs: the aggregates table, then
/// the group table and the grouping-set table where there are such.
pub open spec fn aggregate_output_refs(node: LogicalAggregate) -> Seq<TableRef> {
    let with_group = match node.group_table {
        Some(t) => seq![node.aggregates_table, t],
        None => seq![node.aggregates_table],
    };
    match node.grouping_set_table {
        Some(t) => with_group.push(t),
        None => with_group,
    }
}

/// The entry that describes an aggregate. Table references appear only in
/// a verbose entry, and the group expressions only where the aggregate has
/// a group table.
pub open spec fn aggregate_explain_view(
    node: LogicalAggregate,
    conf: ExplainConfig,
) -> ExplainEntryView {
    let base = ExplainEntryView::named("Aggregate"@).with_values(
        "aggregates"@,
        expr_texts(node.aggregates@),
    );
    let with_table = if conf.verbose {
        base.with_value("table_ref"@, table_ref_text(node.aggregates_table))
    } else {
        base
    };
    let with_grouping_set = match node.grouping_set_table {
        Some(t) => if conf.verbose {
            with_table.with_value("grouping_set_table_ref"@, table_ref_text(t))
        } else {
            with_table
        },
        None => with_table,
    };
    match node.group_table {
        Some(t) => {
            let with_exprs = with_grouping_set.with_values(
                "group_expressions"@,
                expr_texts(node.group_exprs@),
            );
            if conf.verbose {
                with_exprs.with_value("group_table_ref"@, table_ref_text(t))
            } else {
                with_exprs
            }
        },
        None => with_grouping_set,
    }
}

impl Explainable for LogicalAggregate {
    open spec fn explain_view(&self, conf: ExplainConfig) -> ExplainEntryView {
        aggregate_explain_view(*self, conf)
    }

    fn explain_entry(&self, conf: ExplainConfig) -> (e: ExplainEntry) {
        let mut ent = ExplainEntry::new("Aggregate").with_values(
            "aggregates",
            expressions_to_strings(&self.aggregates),
        );

        if conf.verbose {
            ent = ent.with_value("table_ref", self.aggregates_table.to_string());

            if let Some(grouping_set_table) = self.grouping_set_table {
                ent = ent.with_value("grouping_set_table_ref", grouping_set_table.to_string());
            }
        }

        if let Some(group_table) = &self.group_table {
            ent = ent.with_values("group_expressions", expressions_to_strings(&self.group_exprs));

            if conf.verbose {
                ent = ent.with_value("group_table_ref", group_table.to_string());
            }
        }

        ent
    }
}

impl Node<LogicalAggregate> {
    pub fn get_output_table_refs(&self) -> (refs: Vec<TableRef>)
        ensures
            refs@ == aggregate_output_refs(self.node),
    {
        let mut refs: Vec<TableRef> = Vec::new();
        refs.push(self.node.aggregates_table);
        if let Some(group_table) = self.node.group_table {
            refs.push(group_table);
        }
        if let Some(grouping_set_table) = self.node.grouping_set_table {
            refs.push(grouping_set_table);
        }
        assert(refs@ =~= aggregate_output_refs(self.node));
        refs
    }
}

} // verus!
