//! Plans the FROM clause: scans, and joins over them.

use crate::bind_context::{missing_table_text, BindContext, TableRef, TableView};
use crate::datatype::DataType;
use crate::error::{fails_with, RayexecError};
use crate::logical::binder::bind_query::{BoundFrom, BoundJoinCondition};
use crate::logical::logical_empty::LogicalEmpty;
use crate::logical::logical_join::{
    LogicalArbitraryJoin, LogicalComparisonJoin, LogicalCrossJoin,
};
use crate::logical::logical_scan::{LogicalScan, ScanSource};
use crate::logical::operator::{LocationRequirement, LogicalOperator, Node};
use vstd::prelude::*;

verus! {

/// Whether a scan node reads all columns of a table of the bind context:
/// it carries the table's reference, column types and column names, its
/// projection lists every column in order, and it has no children.
pub open spec fn scans_table(
    n: Node<LogicalScan>,
    table_ref: TableRef,
    tables: Seq<TableView>,
) -> bool {
    let table = tables[table_ref.table_idx as int];
    &&& n.node.table_ref == table_ref
    &&& n.node.types@ == table.column_types
    &&& n.node.names.deep_view() == table.column_names
    &&& n.node.projection@ == Seq::new(table.column_types.len(), |i: int| i as usize)
    &&& n.children@.len() == 0
}

/// Whether a node has exactly two children and may run anywhere.
pub open spec fn binary_node<T>(n: Node<T>) -> bool {
    n.location == LocationRequirement::Any && n.children@.len() == 2
}

/// Whether a node has exactly one child and may run anywhere.
pub open spec fn unary_node<T>(n: Node<T>) -> bool {
    n.location == LocationRequirement::Any && n.children@.len() == 1
}

/// The message of the error that stops planning a FROM clause, if any: the
/// first base table, from left to right, whose reference the bind context
/// lacks.
pub open spec fn from_error(from: BoundFrom, tables: Seq<TableView>) -> Option<Seq<char>>
    decreases from,
{
    match from {
        BoundFrom::Empty => None,
        BoundFrom::BaseTable(t) => if t.table_ref.table_idx < tables.len() {
            None
        } else {
            Some(missing_table_text(t.table_ref))
        },
        BoundFrom::Join(j) => match from_error(*j.left, tables) {
            Some(msg) => Some(msg),
            None => from_error(*j.right, tables),
        },
        BoundFrom::CrossJoin { left, right } => match from_error(*left, tables) {
            Some(msg) => Some(msg),
            None => from_error(*right, tables),
        },
    }
}

/// Whether a plan is the plan of a FROM clause.
///
/// The empty relation gives an empty node. A base table gives a scan of
/// the table, at the table's location. A join gives a comparison join or
/// an arbitrary join, by its condition, over the plans of its sides; a
/// cross join gives a cross join over the plans of its sides.
pub open spec fn is_from_plan(
    plan: LogicalOperator,
    from: BoundFrom,
    tables: Seq<TableView>,
) -> bool
    decreases from,
{
    match from {
        BoundFrom::Empty => plan matches LogicalOperator::Empty(n) && n.location
            == LocationRequirement::Any && n.children@.len() == 0,
        BoundFrom::BaseTable(t) => plan matches LogicalOperator::Scan(n) && scans_table(
            n,
            t.table_ref,
            tables,
        ) && n.location == t.location && n.node.source == (ScanSource::Table {
            catalog: t.catalog,
            schema: t.schema,
            source: t.entry,
        }),
        BoundFrom::Join(j) => match j.condition {
            BoundJoinCondition::Comparisons(conditions) => plan matches LogicalOperator::ComparisonJoin(
                n,
            ) && n.node.join_type == j.join_type && n.node.conditions == conditions
                && binary_node(n) && is_from_plan(n.children@[0], *j.left, tables) && is_from_plan(
                n.children@[1],
                *j.right,
                tables,
            ),
            BoundJoinCondition::Arbitrary(condition) => plan matches LogicalOperator::ArbitraryJoin(
                n,
            ) && n.node.join_type == j.join_type && n.node.condition == condition && binary_node(n)
                && is_from_plan(n.children@[0], *j.left, tables) && is_from_plan(
                n.children@[1],
                *j.right,
                tables,
            ),
        },
        BoundFrom::CrossJoin { left, right } => plan matches LogicalOperator::CrossJoin(n)
            && binary_node(n) && is_from_plan(n.children@[0], *left, tables) && is_from_plan(
            n.children@[1],
            *right,
            tables,
        ),
    }
}

/// A scan of all columns of a table of the bind context; fails if the
/// context lacks the table.
pub fn plan_table_scan(
    bind_context: &BindContext,
    table_ref: TableRef,
    source: ScanSource,
    location: LocationRequirement,
) -> (r: Result<LogicalOperator, RayexecError>)
    ensures
        bind_context.defines(table_ref) ==> (r matches Ok(LogicalOperator::Scan(n)) && scans_table(
            n,
            table_ref,
            bind_context@,
        ) && n.node.source == source && n.location == location),
        !bind_context.defines(table_ref) ==> fails_with(r, missing_table_text(table_ref)),
{
    let table = bind_context.get_table(table_ref)?;
    let mut types: Vec<DataType> = Vec::new();
    let mut names: Vec<String> = Vec::new();
    let mut projection: Vec<usize> = Vec::new();
    let n = table.num_columns();
    let mut i: usize = 0;
    while i < n
        invariant
            i <= n,
            n == table.column_types@.len(),
            n == table.column_names@.len(),
            types@ == table.column_types@.take(i as int),
            names.deep_view() == table.column_names.deep_view().take(i as int),
            projection@ == Seq::new(i as nat, |k: int| k as usize),
        decreases n - i,
    {
        let ghost names_before = names.deep_view();
        types.push(table.column_types[i].clone());
        names.push(table.column_names[i].clone());
        projection.push(i);
        proof {
            assert(types@ =~= table.column_types@.take(i + 1));
            assert(names.deep_view() =~= names_before.push(table.column_names@[i as int]@));
            assert(table.column_names.deep_view().take(i + 1) =~= names_before.push(
                table.column_names@[i as int]@,
            ));
            assert(projection@ =~= Seq::new((i + 1) as nat, |k: int| k as usize));
        }
        i += 1;
    }
    proof {
        assert(table.column_types@.take(n as int) =~= table.column_types@);
        assert(table.column_names.deep_view().take(n as int) =~= table.column_names.deep_view());
    }
    Ok(
        LogicalOperator::Scan(
            Node {
                node: LogicalScan { table_ref, types, names, projection, source },
                location,
                children: Vec::new(),
            },
        ),
    )
}

#[derive(Debug)]
pub struct FromPlanner;

impl FromPlanner {
    /// Plans a FROM clause, as `is_from_plan` states; fails, as
    /// `from_error` states, when the bind context lacks a base table.
    pub fn plan(&self, bind_context: &BindContext, from: BoundFrom) -> (r: Result<
        LogicalOperator,
        RayexecError,
    >)
        ensures
            match from_error(from, bind_context@) {
                Some(msg) => fails_with(r, msg),
                None => r matches Ok(plan) && is_from_plan(plan, from, bind_context@),
            },
        decreases from,
    {
        match from {
            BoundFrom::Empty => Ok(
                LogicalOperator::Empty(
                    Node {
                        node: LogicalEmpty,
                        location: LocationRequirement::Any,
                        children: Vec::new(),
                    },
                ),
            ),
            BoundFrom::BaseTable(t) => plan_table_scan(
                bind_context,
                t.table_ref,
                ScanSource::Table { catalog: t.catalog, schema: t.schema, source: t.entry },
                t.location,
            ),
            BoundFrom::Join(j) => {
                let left = self.plan(bind_context, *j.left)?;
                let right = self.plan(bind_context, *j.right)?;
                let mut children: Vec<LogicalOperator> = Vec::new();
                children.push(left);
                children.push(right);
                match j.condition {
                    BoundJoinCondition::Comparisons(conditions) => Ok(
                        LogicalOperator::ComparisonJoin(
                            Node {
                                node: LogicalComparisonJoin { join_type: j.join_type, conditions },
                                location: LocationRequirement::Any,
                                children,
                            },
                        ),
                    ),
                    BoundJoinCondition::Arbitrary(condition) => Ok(
                        LogicalOperator::ArbitraryJoin(
                            Node {
                                node: LogicalArbitraryJoin { join_type: j.join_type, condition },
                                location: LocationRequirement::Any,
                                children,
                            },
                        ),
                    ),
                }
            },
            BoundFrom::CrossJoin { left, right } => {
                let left = self.plan(bind_context, *left)?;
                let right = self.plan(bind_context, *right)?;
                let mut children: Vec<LogicalOperator> = Vec::new();
                children.push(left);
                children.push(right);
                Ok(
                    LogicalOperator::CrossJoin(
                        Node {
                            node: LogicalCrossJoin,
                            location: LocationRequirement::Any,
                            children,
                        },
                    ),
                )
            },
        }
    }
}

} // verus!
