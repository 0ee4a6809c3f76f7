//! Combines the rows of two inputs.

use crate::bind_context::{table_ref_text, TableRef};
use crate::explain::{ExplainConfig, ExplainEntry, ExplainEntryView, Explainable};
use crate::logical::operator::Node;
use vstd::prelude::*;

verus! {

#[derive(Debug, Clone, Copy, PartialEq, Eq, Structural)]
pub enum SetOpKind {
    Union,
    Except,
    Intersect,
}

#[derive(Debug, Clone, Copy, PartialEq, Eq, Structural)]
pub struct LogicalSetop {
    pub kind: SetOpKind,
    /// Whether duplicate rows are kept.
    pub all: bool,
    /// Table ref that represents the output of the operation.
    pub table_ref: TableRef,
}

/// The rendered form of a set operation: the kind, followed by ` ALL` where
/// duplicates are kept.
pub open spec fn setop_text(kind: SetOpKind, all: bool) -> Seq<char> {
    let name = match kind {
        SetOpKind::Union => "UNION"@,
        SetOpKind::Except => "EXCEPT"@,
        SetOpKind::Intersect => "INTERSECT"@,
    };
    if all {
        name + " ALL"@
    } else {
        name
    }
}

impl Explainable for LogicalSetop {
    open spec fn explain_view(&self, conf: ExplainConfig) -> ExplainEntryView {
        let base = ExplainEntryView::named("Setop"@).with_value(
            "kind"@,
            setop_text(self.kind, self.all),
        );
        if conf.verbose {
            base.with_value("table_ref"@, table_ref_text(self.table_ref))
        } else {
            base
        }
    }

    fn explain_entry(&self, conf: ExplainConfig) -> (e: ExplainEntry) {
        let mut kind = match self.kind {
            SetOpKind::Union => String::from_str("UNION"),
            SetOpKind::Except => String::from_str("EXCEPT"),
            SetOpKind::Intersect => String::from_str("INTERSECT"),
        };
        if self.all {
            kind.append(" ALL");
        }
        let mut ent = ExplainEntry::new("Setop").with_value("kind", kind);
        if conf.verbose {
            ent = ent.with_value("table_ref", self.table_ref.to_string());
        }
        ent
    }
}

impl Node<LogicalSetop> {
    pub fn get_output_table_refs(&self) -> (refs: Vec<TableRef>)
        ensures
            refs@ == seq![self.node.table_ref],
    {
        let mut refs: Vec<TableRef> = Vec::new();
        refs.push(self.node.table_ref);
        refs
    }
}

} // verus!
