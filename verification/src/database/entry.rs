//! Entries of a catalog.

use crate::datatype::Field;
use vstd::prelude::*;

verus! {

/// A table and its columns.
#[derive(Debug, PartialEq, Eq)]
pub struct TableEntry {
    pub columns: Vec<Field>,
}

/// A view and the query it stands for.
#[derive(Debug, PartialEq, Eq)]
pub struct ViewEntry {
    pub query_sql: String,
}

/// A function that writes query output in some format.
#[derive(Debug, PartialEq, Eq)]
pub struct CopyToFunctionEntry {
    pub format: String,
}

#[derive(Debug, PartialEq, Eq)]
pub enum CatalogEntryInner {
    Table(TableEntry),
    View(ViewEntry),
    CopyToFunction(CopyToFunctionEntry),
}

/// A named object in a schema of a catalog.
#[derive(Debug, PartialEq, Eq)]
pub struct CatalogEntry {
    pub name: String,
    pub entry: CatalogEntryInner,
}

/// What a catalog entry holds, as plain values.
pub ghost enum CatalogEntryInnerView {
    Table { columns: Seq<Field> },
    View { query_sql: Seq<char> },
    CopyToFunction { format: Seq<char> },
}

pub ghost struct CatalogEntryView {
    pub name: Seq<char>,
    pub entry: CatalogEntryInnerView,
}

impl View for CatalogEntryInner {
    type V = CatalogEntryInnerView;

    open spec fn view(&self) -> CatalogEntryInnerView {
        match *self {
            CatalogEntryInner::Table(t) => CatalogEntryInnerView::Table { columns: t.columns@ },
            CatalogEntryInner::View(v) => CatalogEntryInnerView::View { query_sql: v.query_sql@ },
            CatalogEntryInner::CopyToFunction(f) => CatalogEntryInnerView::CopyToFunction {
                format: f.format@,
            },
        }
    }
}

impl View for CatalogEntry {
    type V = CatalogEntryView;

    open spec fn view(&self) -> CatalogEntryView {
        CatalogEntryView { name: self.name@, entry: self.entry@ }
    }
}

impl Clone for CatalogEntry {
    fn clone(&self) -> (r: Self)
        ensures
            r@ == self@,
    {
        let entry = match &self.entry {
            CatalogEntryInner::Table(t) => {
                let mut columns: Vec<Field> = Vec::new();
                let mut i: usize = 0;
                while i < t.columns.len()
                    invariant
                        i <= t.columns.len(),
                        columns@ == t.columns@.take(i as int),
                    decreases t.columns.len() - i,
                {
                    columns.push(t.columns[i].clone());
                    assert(columns@ =~= t.columns@.take(i + 1));
                    i += 1;
                }
                assert(t.columns@.take(t.columns.len() as int) =~= t.columns@);
                CatalogEntryInner::Table(TableEntry { columns })
            },
            CatalogEntryInner::View(v) => CatalogEntryInner::View(
                ViewEntry { query_sql: v.query_sql.clone() },
            ),
            CatalogEntryInner::CopyToFunction(f) => CatalogEntryInner::CopyToFunction(
                CopyToFunctionEntry { format: f.format.clone() },
            ),
        };
        CatalogEntry { name: self.name.clone(), entry }
    }
}

} // verus!
