//! A query after binding: every table and column it mentions has been
//! resolved to a reference into a bind context.

use crate::bind_context::TableRef;
use crate::database::entry::CatalogEntry;
use crate::expr::Expression;
use crate::logical::logical_join::{ComparisonCondition, JoinType};
use crate::logical::logical_limit::LogicalLimit;
use crate::logical::logical_order::OrderByExpr;
use crate::logical::logical_setop::SetOpKind;
use crate::logical::operator::LocationRequirement;
use std::collections::BTreeSet;
use vstd::prelude::*;

verus! {

/// Inline rows: `VALUES (..), (..)`.
#[derive(Debug, PartialEq, Eq)]
pub struct BoundValues {
    pub rows: Vec<Vec<Expression>>,
    /// Table ref that represents the rows.
    pub expressions_table: TableRef,
}

/// A table of a catalog.
#[derive(Debug, PartialEq, Eq)]
pub struct BoundBaseTable {
    pub table_ref: TableRef,
    pub location: LocationRequirement,
    pub catalog: String,
    pub schema: String,
    pub entry: CatalogEntry,
}

/// What a join matches rows on.
#[derive(Debug, PartialEq, Eq)]
pub enum BoundJoinCondition {
    /// Comparisons between a left and a right expression.
    Comparisons(Vec<ComparisonCondition>),
    /// Any predicate over both sides.
    Arbitrary(Expression),
}

#[derive(Debug, PartialEq, Eq)]
pub struct BoundJoin {
    pub left: Box<BoundFrom>,
    pub right: Box<BoundFrom>,
    pub join_type: JoinType,
    pub condition: BoundJoinCondition,
}

/// The FROM clause.
#[derive(Debug, PartialEq, Eq)]
pub enum BoundFrom {
    /// The empty relation.
    Empty,
    BaseTable(BoundBaseTable),
    Join(BoundJoin),
    CrossJoin { left: Box<BoundFrom>, right: Box<BoundFrom> },
}

/// The SELECT list: the output expressions, and the aggregates they refer
/// to.
#[derive(Debug, PartialEq, Eq)]
pub struct BoundSelectList {
    /// Table ref that represents the output of the select list.
    pub projections_table: TableRef,
    pub projections: Vec<Expression>,
    /// Table ref that represents the output of the aggregates.
    pub aggregates_table: TableRef,
    pub aggregates: Vec<Expression>,
    /// Table ref for GROUPING values, where the list calls GROUPING.
    pub grouping_set_table: Option<TableRef>,
}

#[derive(Debug, PartialEq)]
pub struct BoundGroupBy {
    pub expressions: Vec<Expression>,
    /// Table ref that represents the output of the group expressions.
    pub group_table: TableRef,
    pub grouping_sets: Vec<BTreeSet<usize>>,
}

#[derive(Debug, PartialEq)]
pub struct BoundSelect {
    pub select_list: BoundSelectList,
    pub from: BoundFrom,
    /// WHERE.
    pub filter: Option<Expression>,
    pub group_by: Option<BoundGroupBy>,
    pub having: Option<Expression>,
    pub order_by: Option<Vec<OrderByExpr>>,
    pub limit: Option<LogicalLimit>,
}

#[derive(Debug, PartialEq)]
pub struct BoundSetOp {
    pub left: Box<BoundQuery>,
    pub right: Box<BoundQuery>,
    /// Table ref that represents the output of the operation.
    pub setop_table: TableRef,
    pub kind: SetOpKind,
    pub all: bool,
    pub order_by: Option<Vec<OrderByExpr>>,
    pub limit: Option<LogicalLimit>,
}

#[derive(Debug, PartialEq)]
pub enum BoundQuery {
    Select(BoundSelect),
    Setop(BoundSetOp),
    Values(BoundValues),
}

} // verus!
