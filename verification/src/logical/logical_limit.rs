//! Keeps a window of the input's rows.

use crate::bind_context::TableRef;
use crate::explain::{ExplainConfig, ExplainEntry, ExplainEntryView, Explainable};
use crate::logical::operator::{children_table_refs, Node};
use crate::text::{nat_text, unsigned_to_string};
use vstd::prelude::*;

verus! {

#[derive(Debug, Clone, Copy, PartialEq, Eq, Structural)]
pub struct LogicalLimit {
    /// Number of rows to skip.
    pub offset: Option<usize>,
    /// Number of rows to keep.
    pub limit: usize,
}

impl Explainable for LogicalLimit {
    open spec fn explain_view(&self, conf: ExplainConfig) -> ExplainEntryView {
        let base = ExplainEntryView::named("Limit"@).with_value(
            "limit"@,
            nat_text(self.limit as nat),
        );
        match self.offset {
            Some(offset) => base.with_value("offset"@, nat_text(offset as nat)),
            None => base,
        }
    }

    fn explain_entry(&self, _conf: ExplainConfig) -> (e: ExplainEntry) {
        let mut ent = ExplainEntry::new("Limit").with_value(
            "limit",
            unsigned_to_string(self.limit as u128),
        );
        if let Some(offset) = self.offset {
            ent = ent.with_value("offset", unsigned_to_string(offset as u128));
        }
        ent
    }
}

impl Node<LogicalLimit> {
    pub fn get_output_table_refs(&self) -> (refs: Vec<TableRef>)
        ensures
            refs@ == children_table_refs(self.children@, self.children@.len()),
        decreases *self, 2nat,
    {
        self.get_children_table_refs()
    }
}

} // verus!
