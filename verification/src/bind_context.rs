//! The per-query arena of table descriptors. Every relation that appears
//! while a query is bound gets a `TableRef`, and every later expression and
//! operator names its tables through those references.

use crate::datatype::DataType;
use crate::error::RayexecError;
use crate::text::{nat_text, unsigned_to_string};
use vstd::prelude::*;

verus! {

/// Index of a table descriptor in a bind context.
#[derive(Debug, Clone, Copy, PartialEq, Eq, Hash, Structural)]
pub struct TableRef {
    pub table_idx: usize,
}

/// Handle naming a materialized subplan that several scans share.
#[derive(Debug, Clone, Copy, PartialEq, Eq, Hash, Structural)]
pub struct MaterializationRef {
    pub materialization_idx: usize,
}

/// The rendered form of a table reference: `#` and the index.
pub open spec fn table_ref_text(r: TableRef) -> Seq<char> {
    "#"@ + nat_text(r.table_idx as nat)
}

/// The rendered form of a materialization reference.
pub open spec fn materialization_ref_text(r: MaterializationRef) -> Seq<char> {
    "MAT_"@ + nat_text(r.materialization_idx as nat)
}

impl TableRef {
    pub fn to_string(&self) -> (s: String)
        ensures
            s@ == table_ref_text(*self),
    {
        let mut s = String::from_str("#");
        s.append(unsigned_to_string(self.table_idx as u128).as_str());
        s
    }
}

impl MaterializationRef {
    pub fn to_string(&self) -> (s: String)
        ensures
            s@ == materialization_ref_text(*self),
    {
        let mut s = String::from_str("MAT_");
        s.append(unsigned_to_string(self.materialization_idx as u128).as_str());
        s
    }
}

/// What a table descriptor holds, as plain values.
pub ghost struct TableView {
    pub alias: Option<Seq<char>>,
    pub column_types: Seq<DataType>,
    pub column_names: Seq<Seq<char>>,
}

/// Descriptor of one table in a bind context.
#[derive(Debug)]
pub struct Table {
    pub reference: TableRef,
    pub alias: Option<String>,
    pub column_types: Vec<DataType>,
    pub column_names: Vec<String>,
}

impl View for Table {
    type V = TableView;

    open spec fn view(&self) -> TableView {
        TableView {
            alias: match self.alias {
                Some(a) => Some(a@),
                None => None,
            },
            column_types: self.column_types@,
            column_names: self.column_names.deep_view(),
        }
    }
}

impl Table {
    pub fn num_columns(&self) -> (n: usize)
        ensures
            n == self@.column_types.len(),
    {
        self.column_types.len()
    }
}

/// The message of the error for a table reference that a context lacks.
pub open spec fn missing_table_text(r: TableRef) -> Seq<char> {
    "Missing table scope in bind context: "@ + table_ref_text(r)
}

/// The message of the error for a column index beyond the columns of a
/// table.
pub open spec fn missing_table_column_text(r: TableRef, column: usize) -> Seq<char> {
    "Missing column "@ + nat_text(column as nat) + " in table "@ + table_ref_text(r)
}

/// The message of the error for descriptor columns whose names and types
/// differ in number.
pub open spec fn column_count_mismatch_text(types: nat, names: nat) -> Seq<char> {
    "Column names and types have different lengths, types: "@ + nat_text(types) + ", names: "@
        + nat_text(names)
}

/// Arena of table descriptors, indexed by `TableRef`. Descriptors are only
/// ever appended, so a reference stays valid and keeps its meaning.
#[derive(Debug)]
pub struct BindContext {
    tables: Vec<Table>,
}

/// A bind context used for its tables alone.
pub type TableList = BindContext;

impl View for BindContext {
    type V = Seq<TableView>;

    closed spec fn view(&self) -> Seq<TableView> {
        Seq::new(self.tables@.len(), |i: int| self.tables@[i]@)
    }
}

impl BindContext {
    #[verifier::type_invariant]
    spec fn well_formed(&self) -> bool {
        forall|i: int|
            0 <= i < self.tables@.len() ==> {
                &&& (#[trigger] self.tables@[i]).reference.table_idx == i
                &&& self.tables@[i].column_types@.len() == self.tables@[i].column_names@.len()
            }
    }

    /// Whether the context defines the reference.
    pub open spec fn defines(&self, r: TableRef) -> bool {
        r.table_idx < self@.len()
    }

    pub fn new() -> (ctx: Self)
        ensures
            ctx@ == Seq::<TableView>::empty(),
    {
        let ctx = BindContext { tables: Vec::new() };
        assert(ctx@ =~= Seq::<TableView>::empty());
        ctx
    }

    /// A context without tables.
    pub fn empty() -> (ctx: Self)
        ensures
            ctx@ == Seq::<TableView>::empty(),
    {
        BindContext::new()
    }

    pub fn num_tables(&self) -> (n: usize)
        ensures
            n == self@.len(),
    {
        self.tables.len()
    }

    /// Appends a descriptor and returns its reference, the number of tables
    /// before the call. Fails, leaving the context as it was, when the
    /// column names and types differ in number.
    pub fn push_table(
        &mut self,
        alias: Option<String>,
        column_types: Vec<DataType>,
        column_names: Vec<String>,
    ) -> (r: Result<TableRef, RayexecError>)
        ensures
            column_types@.len() == column_names@.len() ==> r == Ok::<TableRef, RayexecError>(
                TableRef { table_idx: old(self)@.len() as usize },
            ) && final(self)@ == old(self)@.push(
                TableView {
                    alias: match alias {
                        Some(a) => Some(a@),
                        None => None,
                    },
                    column_types: column_types@,
                    column_names: column_names.deep_view(),
                },
            ),
            column_types@.len() != column_names@.len() ==> final(self)@ == old(self)@ && (r matches Err(
                e,
            ) && e@.msg == column_count_mismatch_text(column_types@.len(), column_names@.len())
                && e@.source is None),
    {
        proof {
            use_type_invariant(&*self);
        }
        if column_types.len() != column_names.len() {
            let mut msg = String::from_str(
                "Column names and types have different lengths, types: ",
            );
            msg.append(unsigned_to_string(column_types.len() as u128).as_str());
            msg.append(", names: ");
            msg.append(unsigned_to_string(column_names.len() as u128).as_str());
            return Err(RayexecError::new(msg.as_str()));
        }
        let reference = TableRef { table_idx: self.tables.len() };
        let table = Table { reference, alias, column_types, column_names };
        let ghost before = self@;
        let mut taken = BindContext { tables: Vec::new() };
        std::mem::swap(self, &mut taken);
        let BindContext { tables } = taken;
        let mut tables = tables;
        tables.push(table);
        *self = BindContext { tables };
        assert(self@ =~= before.push(table@));
        Ok(reference)
    }

    /// The descriptor of a reference; fails if the context lacks it.
    pub fn get_table(&self, table_ref: TableRef) -> (r: Result<&Table, RayexecError>)
        ensures
            self.defines(table_ref) ==> (r matches Ok(t) && t@ == self@[table_ref.table_idx as int]
                && t.reference == table_ref && t@.column_types.len() == t@.column_names.len()),
            !self.defines(table_ref) ==> (r matches Err(e) && e@.msg == missing_table_text(
                table_ref,
            ) && e@.source is None),
    {
        proof {
            use_type_invariant(self);
        }
        if table_ref.table_idx < self.tables.len() {
            let t = &self.tables[table_ref.table_idx];
            assert(t.column_names.deep_view().len() == t.column_names@.len());
            Ok(t)
        } else {
            let mut msg = String::from_str("Missing table scope in bind context: ");
            msg.append(table_ref.to_string().as_str());
            Err(RayexecError::new(msg.as_str()))
        }
    }

    /// The declared type of a column of a table; fails if the context lacks
    /// the table or the table lacks the column.
    pub fn get_column_type(&self, table_ref: TableRef, column: usize) -> (r: Result<
        DataType,
        RayexecError,
    >)
        ensures
            !self.defines(table_ref) ==> (r matches Err(e) && e@.msg == missing_table_text(
                table_ref,
            ) && e@.source is None),
            self.defines(table_ref) && column >= self@[table_ref.table_idx as int].column_types.len()
                ==> (r matches Err(e) && e@.msg == missing_table_column_text(table_ref, column)
                && e@.source is None),
            self.defines(table_ref) && column < self@[table_ref.table_idx as int].column_types.len()
                ==> r == Ok::<DataType, RayexecError>(
                self@[table_ref.table_idx as int].column_types[column as int],
            ),
    {
        let table = self.get_table(table_ref)?;
        if column < table.column_types.len() {
            Ok(table.column_types[column].clone())
        } else {
            let mut msg = String::from_str("Missing column ");
            msg.append(unsigned_to_string(column as u128).as_str());
            msg.append(" in table ");
            msg.append(table_ref.to_string().as_str());
            Err(RayexecError::new(msg.as_str()))
        }
    }
}

} // verus!
