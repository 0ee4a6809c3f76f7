//! Reference to a column of a table in the bind context.

use crate::bind_context::{
    missing_table_text, table_ref_text, BindContext, TableRef, TableView,
};
use crate::datatype::DataType;
use crate::error::RayexecError;
use crate::text::{nat_text, unsigned_to_string};
use vstd::prelude::*;

verus! {

/// Reference to a column in a query.
#[derive(Debug, Clone, Copy, PartialEq, Eq, Hash, Structural)]
pub struct ColumnExpr {
    /// Scope this column is in.
    pub table_scope: TableRef,
    /// Column index within the table.
    pub column: usize,
}

/// The rendered form of a column reference: the table reference, a dot and
/// the column index.
pub open spec fn column_text(c: ColumnExpr) -> Seq<char> {
    table_ref_text(c.table_scope) + "."@ + nat_text(c.column as nat)
}

/// The message of the error for a column that its table lacks.
pub open spec fn missing_column_text(c: ColumnExpr) -> Seq<char> {
    "Missing column in bind context: "@ + column_text(c)
}

/// The type of a column against the tables of a bind context, or the
/// message of the error where the table or the column is missing.
pub open spec fn column_datatype(c: ColumnExpr, tables: Seq<TableView>) -> Result<
    DataType,
    Seq<char>,
> {
    if c.table_scope.table_idx >= tables.len() {
        Err(missing_table_text(c.table_scope))
    } else if c.column >= tables[c.table_scope.table_idx as int].column_types.len() {
        Err(missing_column_text(c))
    } else {
        Ok(tables[c.table_scope.table_idx as int].column_types[c.column as int])
    }
}

impl ColumnExpr {
    /// The declared type of the column; fails where the bind context lacks
    /// the table or the table lacks the column.
    pub fn datatype(&self, bind_context: &BindContext) -> (r: Result<DataType, RayexecError>)
        ensures
            match column_datatype(*self, bind_context@) {
                Ok(t) => r == Ok::<DataType, RayexecError>(t),
                Err(msg) => r matches Err(e) && e@.msg == msg && e@.source is None,
            },
    {
        let table = bind_context.get_table(self.table_scope)?;
        if self.column < table.column_types.len() {
            Ok(table.column_types[self.column].clone())
        } else {
            let mut msg = String::from_str("Missing column in bind context: ");
            msg.append(self.to_string().as_str());
            Err(RayexecError::new(msg.as_str()))
        }
    }

    pub fn to_string(&self) -> (s: String)
        ensures
            s@ == column_text(*self),
    {
        let mut s = self.table_scope.to_string();
        s.append(".");
        s.append(unsigned_to_string(self.column as u128).as_str());
        s
    }
}

} // verus!
