//! Reads rows from a source.

use crate::bind_context::{table_ref_text, MaterializationRef, TableRef};
use crate::database::entry::CatalogEntry;
use crate::datatype::{datatype_names, datatype_text, DataType};
use crate::explain::{ExplainConfig, ExplainEntry, ExplainEntryView, Explainable};
use crate::expr::Expression;
use crate::logical::operator::Node;
use vstd::prelude::*;

verus! {

/// Where a scan reads from.
#[derive(Debug, PartialEq, Eq)]
pub enum ScanSource {
    Table { catalog: String, schema: String, source: CatalogEntry },
    View { catalog: String, schema: String, source: CatalogEntry },
    ExpressionList { rows: Vec<Vec<Expression>> },
    Materialization { mat_ref: MaterializationRef },
}

#[derive(Debug, PartialEq, Eq)]
pub struct LogicalScan {
    /// Table ref that represents the output of the scan.
    pub table_ref: TableRef,
    /// Types of all columns of the source.
    pub types: Vec<DataType>,
    /// Names of all columns of the source.
    pub names: Vec<String>,
    /// Indices of the columns that the scan outputs.
    pub projection: Vec<usize>,
    pub source: ScanSource,
}

/// The name of a kind of source.
pub open spec fn scan_source_text(source: ScanSource) -> Seq<char> {
    match source {
        ScanSource::Table { .. } => "Table"@,
        ScanSource::View { .. } => "View"@,
        ScanSource::ExpressionList { .. } => "ExpressionList"@,
        ScanSource::Materialization { .. } => "Materialization"@,
    }
}

impl Explainable for LogicalScan {
    open spec fn explain_view(&self, conf: ExplainConfig) -> ExplainEntryView {
        let base = ExplainEntryView::named("Scan"@).with_value(
            "source"@,
            scan_source_text(self.source),
        ).with_values("column_types"@, self.types@.map_values(|t: DataType| datatype_text(t)));
        if conf.verbose {
            base.with_value("table_ref"@, table_ref_text(self.table_ref))
        } else {
            base
        }
    }

    fn explain_entry(&self, conf: ExplainConfig) -> (e: ExplainEntry) {
        let source = match &self.source {
            ScanSource::Table { .. } => String::from_str("Table"),
            ScanSource::View { .. } => String::from_str("View"),
            ScanSource::ExpressionList { .. } => String::from_str("ExpressionList"),
            ScanSource::Materialization { .. } => String::from_str("Materialization"),
        };
        let mut ent = ExplainEntry::new("Scan").with_value("source", source).with_values(
            "column_types",
            datatype_names(&self.types),
        );
        if conf.verbose {
            ent = ent.with_value("table_ref", self.table_ref.to_string());
        }
        ent
    }
}

impl Node<LogicalScan> {
    pub fn get_output_table_refs(&self) -> (refs: Vec<TableRef>)
        ensures
            refs@ == seq![self.node.table_ref],
    {
        let mut refs: Vec<TableRef> = Vec::new();
        refs.push(self.node.table_ref);
        refs
    }
}

} // verus!
