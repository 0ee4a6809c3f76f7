//! Keeps the rows for which a predicate holds.

use crate::bind_context::TableRef;
use crate::explain::{ExplainConfig, ExplainEntry, ExplainEntryView, Explainable};
use crate::expr::{expr_text, Expression};
use crate::logical::operator::{children_table_refs, Node};
use vstd::prelude::*;

verus! {

#[derive(Debug, PartialEq, Eq)]
pub struct LogicalFilter {
    pub filter: Expression,
}

impl Explainable for LogicalFilter {
    open spec fn explain_view(&self, conf: ExplainConfig) -> ExplainEntryView {
        ExplainEntryView::named("Filter"@).with_value("predicate"@, expr_text(self.filter))
    }

    fn explain_entry(&self, _conf: ExplainConfig) -> (e: ExplainEntry) {
        ExplainEntry::new("Filter").with_value("predicate", self.filter.to_string())
    }
}

impl Node<LogicalFilter> {
    pub fn get_output_table_refs(&self) -> (refs: Vec<TableRef>)
        ensures
            refs@ == children_table_refs(self.children@, self.children@.len()),
        decreases *self, 2nat,
    {
        self.get_children_table_refs()
    }
}

} // verus!
