//! Computes output columns from expressions over the input.

use crate::bind_context::{table_ref_text, TableRef};
use crate::explain::{
    expr_texts, expressions_to_strings, ExplainConfig, ExplainEntry, ExplainEntryView, Explainable,
};
use crate::expr::Expression;
use crate::logical::operator::Node;
use vstd::prelude::*;

verus! {

#[derive(Debug, PartialEq, Eq)]
pub struct LogicalProject {
    /// Table ref that represents the output of the projections.
    pub projection_table: TableRef,
    pub projections: Vec<Expression>,
}

impl Explainable for LogicalProject {
    open spec fn explain_view(&self, conf: ExplainConfig) -> ExplainEntryView {
        let base = ExplainEntryView::named("Project"@).with_values(
            "projections"@,
            expr_texts(self.projections@),
        );
        if conf.verbose {
            base.with_value("table_ref"@, table_ref_text(self.projection_table))
        } else {
            base
        }
    }

    fn explain_entry(&self, conf: ExplainConfig) -> (e: ExplainEntry) {
        let mut ent = ExplainEntry::new("Project").with_values(
            "projections",
            expressions_to_strings(&self.projections),
        );
        if conf.verbose {
            ent = ent.with_value("table_ref", self.projection_table.to_string());
        }
        ent
    }
}

impl Node<LogicalProject> {
    pub fn get_output_table_refs(&self) -> (refs: Vec<TableRef>)
        ensures
            refs@ == seq![self.node.projection_table],
    {
        let mut refs: Vec<TableRef> = Vec::new();
        refs.push(self.node.projection_table);
        refs
    }
}

} // verus!
