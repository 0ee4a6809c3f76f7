//! The literal empty relation.

use crate::bind_context::TableRef;
use crate::explain::{ExplainConfig, ExplainEntry, ExplainEntryView, Explainable};
use crate::logical::operator::Node;
use vstd::prelude::*;

verus! {

/// A relation without columns or rows.
#[derive(Debug, Clone, Copy, PartialEq, Eq, Structural)]
pub struct LogicalEmpty;

impl Explainable for LogicalEmpty {
    open spec fn explain_view(&self, conf: ExplainConfig) -> ExplainEntryView {
        ExplainEntryView::named("Empty"@)
    }

    fn explain_entry(&self, _conf: ExplainConfig) -> (e: ExplainEntry) {
        ExplainEntry::new("Empty")
    }
}

impl Node<LogicalEmpty> {
    pub fn get_output_table_refs(&self) -> (refs: Vec<TableRef>)
        ensures
            refs@ == Seq::<TableRef>::empty(),
    {
        Vec::new()
    }
}

} // verus!
