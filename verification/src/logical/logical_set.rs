//! Session-variable manipulation.

use crate::bind_context::TableRef;
use crate::config::vars::SessionVar;
use crate::explain::{ExplainConfig, ExplainEntry, ExplainEntryView, Explainable};
use crate::logical::operator::Node;
use crate::scalar::OwnedScalarValue;
use vstd::prelude::*;

verus! {

#[derive(Debug, PartialEq, Eq)]
pub struct LogicalSetVar {
    pub name: String,
    pub value: OwnedScalarValue,
}

impl Explainable for LogicalSetVar {
    open spec fn explain_view(&self, conf: ExplainConfig) -> ExplainEntryView {
        ExplainEntryView::named("Set"@)
    }

    fn explain_entry(&self, _conf: ExplainConfig) -> (e: ExplainEntry) {
        ExplainEntry::new("Set")
    }
}

impl Node<LogicalSetVar> {
    pub fn get_output_table_refs(&self) -> (refs: Vec<TableRef>)
        ensures
            refs@ == Seq::<TableRef>::empty(),
    {
        Vec::new()
    }
}

#[derive(Debug, PartialEq, Eq)]
pub enum VariableOrAll {
    Variable(SessionVar),
    All,
}

#[derive(Debug, PartialEq, Eq)]
pub struct LogicalResetVar {
    pub var: VariableOrAll,
}

impl Explainable for Node<LogicalResetVar> {
    open spec fn explain_view(&self, conf: ExplainConfig) -> ExplainEntryView {
        ExplainEntryView::named("Reset"@)
    }

    fn explain_entry(&self, _conf: ExplainConfig) -> (e: ExplainEntry) {
        ExplainEntry::new("Reset")
    }
}

impl Node<LogicalResetVar> {
    pub fn get_output_table_refs(&self) -> (refs: Vec<TableRef>)
        ensures
            refs@ == Seq::<TableRef>::empty(),
    {
        Vec::new()
    }
}

#[derive(Debug, PartialEq, Eq)]
pub struct LogicalShowVar {
    pub var: SessionVar,
}

impl Explainable for LogicalShowVar {
    open spec fn explain_view(&self, conf: ExplainConfig) -> ExplainEntryView {
        ExplainEntryView::named("Show"@)
    }

    fn explain_entry(&self, _conf: ExplainConfig) -> (e: ExplainEntry) {
        ExplainEntry::new("Show")
    }
}

impl Node<LogicalShowVar> {
    pub fn get_output_table_refs(&self) -> (refs: Vec<TableRef>)
        ensures
            refs@ == Seq::<TableRef>::empty(),
    {
        Vec::new()
    }
}

} // verus!
