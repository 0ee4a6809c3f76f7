//! Writes the input to a location.

use crate::bind_context::TableRef;
use crate::datatype::Schema;
use crate::explain::{ExplainConfig, ExplainEntry, ExplainEntryView, Explainable};
use crate::functions::copy::CopyToFunction;
use crate::logical::operator::Node;
use vstd::prelude::*;

verus! {

/// Where a file lives.
#[derive(Debug, PartialEq, Eq)]
pub enum FileLocation {
    Url(String),
    Path(String),
}

#[derive(Debug, PartialEq, Eq)]
pub struct LogicalCopyTo {
    /// Schema of input operator.
    ///
    /// Stored on this operator since the copy to sinks may need field names
    /// (e.g. writing out a header in csv).
    pub source_schema: Schema,
    pub location: FileLocation,
    pub copy_to: CopyToFunction,
}

impl Explainable for LogicalCopyTo {
    open spec fn explain_view(&self, conf: ExplainConfig) -> ExplainEntryView {
        ExplainEntryView::named("CopyTo"@)
    }

    fn explain_entry(&self, _conf: ExplainConfig) -> (e: ExplainEntry) {
        ExplainEntry::new("CopyTo")
    }
}

impl Node<LogicalCopyTo> {
    pub fn get_output_table_refs(&self) -> (refs: Vec<TableRef>)
        ensures
            refs@ == Seq::<TableRef>::empty(),
    {
        Vec::new()
    }
}

} // verus!
