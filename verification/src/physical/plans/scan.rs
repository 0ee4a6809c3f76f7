//! The source that reads a table. The library plans the scan; reading the
//! rows is the work of the table's provider.

use crate::database::entry::CatalogEntry;
use vstd::prelude::*;

verus! {

#[derive(Debug, PartialEq, Eq)]
pub struct PhysicalTableScan {
    pub catalog: String,
    pub schema: String,
    pub entry: CatalogEntry,
    /// Indices of the columns to read.
    pub projection: Vec<usize>,
}

} // verus!
