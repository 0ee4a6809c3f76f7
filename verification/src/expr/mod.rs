//! Scalar expressions: owned trees whose leaves are literals and column
//! references. Every expression can say its type against a bind context
//! without evaluating anything.

pub mod arith_expr;
pub mod column_expr;
pub mod comparison_expr;
pub mod physical;

use crate::bind_context::{BindContext, TableRef, TableView};
use crate::datatype::{datatype_text, DataType};
use crate::error::RayexecError;
use crate::expr::arith_expr::{arith_operator_text, ArithExpr, ArithOperator};
use crate::expr::column_expr::{column_datatype, column_text, ColumnExpr};
use crate::expr::comparison_expr::{comparison_operator_text, ComparisonExpr};
use crate::functions::arith::numeric_binary_return_type;
use crate::functions::{invalid_input_types_text, FunctionInfo};
use crate::scalar::{scalar_text, ScalarValue};
use vstd::prelude::*;

verus! {

/// A constant.
#[derive(Debug, PartialEq, Eq, Hash)]
pub struct LiteralExpr {
    pub literal: ScalarValue,
}

#[derive(Debug, Clone, Copy, PartialEq, Eq, Hash, Structural)]
pub enum ConjunctionOperator {
    And,
    Or,
}

/// `left AND right` or `left OR right`.
#[derive(Debug, PartialEq, Eq, Hash)]
pub struct ConjunctionExpr {
    pub left: Box<Expression>,
    pub right: Box<Expression>,
    pub op: ConjunctionOperator,
}

#[derive(Debug, Clone, Copy, PartialEq, Eq, Hash, Structural)]
pub enum NegateOperator {
    /// Boolean negation.
    Not,
    /// Arithmetic negation.
    Negate,
}

#[derive(Debug, PartialEq, Eq, Hash)]
pub struct NegateExpr {
    pub op: NegateOperator,
    pub expr: Box<Expression>,
}

/// Conversion of a value to another type.
#[derive(Debug, PartialEq, Eq, Hash)]
pub struct CastExpr {
    pub to: DataType,
    pub expr: Box<Expression>,
}

#[derive(Debug, PartialEq, Eq, Hash)]
pub enum Expression {
    Literal(LiteralExpr),
    Column(ColumnExpr),
    Arith(ArithExpr),
    Comparison(ComparisonExpr),
    Conjunction(ConjunctionExpr),
    Negate(NegateExpr),
    Cast(CastExpr),
}

/// The keyword of a conjunction operator.
pub open spec fn conjunction_operator_text(op: ConjunctionOperator) -> Seq<char> {
    match op {
        ConjunctionOperator::And => "AND"@,
        ConjunctionOperator::Or => "OR"@,
    }
}

/// The rendered form of an expression.
pub open spec fn expr_text(e: Expression) -> Seq<char>
    decreases e,
{
    match e {
        Expression::Literal(l) => scalar_text(l.literal),
        Expression::Column(c) => column_text(c),
        Expression::Arith(a) => expr_text(*a.left) + " "@ + arith_operator_text(a.op) + " "@
            + expr_text(*a.right),
        Expression::Comparison(c) => expr_text(*c.left) + " "@ + comparison_operator_text(c.op)
            + " "@ + expr_text(*c.right),
        Expression::Conjunction(c) => expr_text(*c.left) + " "@ + conjunction_operator_text(c.op)
            + " "@ + expr_text(*c.right),
        Expression::Negate(n) => (match n.op {
            NegateOperator::Not => "NOT("@,
            NegateOperator::Negate => "-("@,
        }) + expr_text(*n.expr) + ")"@,
        Expression::Cast(c) => "CAST("@ + expr_text(*c.expr) + " TO "@ + datatype_text(c.to)
            + ")"@,
    }
}

/// The type of an expression against the tables of a bind context, or the
/// message of the error that stops typing it.
///
/// A literal has the type of its value and a column its declared type.
/// Arithmetic has the type its function returns for the operand types; the
/// left operand is typed first. Comparisons and conjunctions are boolean.
/// Boolean negation is boolean, arithmetic negation keeps the operand's
/// type, and a cast has its target type.
pub open spec fn expr_datatype(e: Expression, tables: Seq<TableView>) -> Result<
    DataType,
    Seq<char>,
>
    decreases e,
{
    match e {
        Expression::Literal(l) => Ok(l.literal.spec_datatype()),
        Expression::Column(c) => column_datatype(c, tables),
        Expression::Arith(a) => match expr_datatype(*a.left, tables) {
            Err(msg) => Err(msg),
            Ok(lt) => match expr_datatype(*a.right, tables) {
                Err(msg) => Err(msg),
                Ok(rt) => match numeric_binary_return_type(lt, rt) {
                    Some(t) => Ok(t),
                    None => Err(
                        invalid_input_types_text(
                            a.op.spec_as_scalar_function().spec_name(),
                            seq![lt, rt],
                        ),
                    ),
                },
            },
        },
        Expression::Comparison(_) => Ok(DataType::Boolean),
        Expression::Conjunction(_) => Ok(DataType::Boolean),
        Expression::Negate(n) => match n.op {
            NegateOperator::Not => Ok(DataType::Boolean),
            NegateOperator::Negate => expr_datatype(*n.expr, tables),
        },
        Expression::Cast(c) => Ok(c.to),
    }
}

impl Clone for LiteralExpr {
    fn clone(&self) -> (r: Self)
        ensures
            r == *self,
    {
        LiteralExpr { literal: self.literal.clone() }
    }
}

impl Clone for Expression {
    fn clone(&self) -> (r: Self)
        ensures
            r == *self,
        decreases *self,
    {
        match self {
            Expression::Literal(l) => Expression::Literal(l.clone()),
            Expression::Column(c) => Expression::Column(*c),
            Expression::Arith(a) => Expression::Arith(
                ArithExpr {
                    left: Box::new((*a.left).clone()),
                    right: Box::new((*a.right).clone()),
                    op: a.op,
                },
            ),
            Expression::Comparison(c) => Expression::Comparison(
                ComparisonExpr {
                    left: Box::new((*c.left).clone()),
                    right: Box::new((*c.right).clone()),
                    op: c.op,
                },
            ),
            Expression::Conjunction(c) => Expression::Conjunction(
                ConjunctionExpr {
                    left: Box::new((*c.left).clone()),
                    right: Box::new((*c.right).clone()),
                    op: c.op,
                },
            ),
            Expression::Negate(n) => Expression::Negate(
                NegateExpr { op: n.op, expr: Box::new((*n.expr).clone()) },
            ),
            Expression::Cast(c) => Expression::Cast(
                CastExpr { to: c.to.clone(), expr: Box::new((*c.expr).clone()) },
            ),
        }
    }
}

impl ConjunctionOperator {
    pub fn to_string(&self) -> (s: String)
        ensures
            s@ == conjunction_operator_text(*self),
    {
        match self {
            ConjunctionOperator::And => String::from_str("AND"),
            ConjunctionOperator::Or => String::from_str("OR"),
        }
    }
}

impl Expression {
    /// The type of the expression against a bind context, as `expr_datatype`
    /// states; nothing is evaluated.
    pub fn datatype(&self, bind_context: &BindContext) -> (r: Result<DataType, RayexecError>)
        ensures
            match expr_datatype(*self, bind_context@) {
                Ok(t) => r == Ok::<DataType, RayexecError>(t),
                Err(msg) => r matches Err(e) && e@.msg == msg && e@.source is None,
            },
        decreases *self,
    {
        match self {
            Expression::Literal(l) => Ok(l.literal.datatype()),
            Expression::Column(c) => c.datatype(bind_context),
            Expression::Arith(a) => {
                let lt = (*a.left).datatype(bind_context)?;
                let rt = (*a.right).datatype(bind_context)?;
                a.op.as_scalar_function().return_type(&lt, &rt)
            },
            Expression::Comparison(_) => Ok(DataType::Boolean),
            Expression::Conjunction(_) => Ok(DataType::Boolean),
            Expression::Negate(n) => match n.op {
                NegateOperator::Not => Ok(DataType::Boolean),
                NegateOperator::Negate => (*n.expr).datatype(bind_context),
            },
            Expression::Cast(c) => Ok(c.to.clone()),
        }
    }

    /// Renders the expression, as `expr_text` states.
    pub fn to_string(&self) -> (s: String)
        ensures
            s@ == expr_text(*self),
        decreases *self,
    {
        match self {
            Expression::Literal(l) => l.literal.to_string(),
            Expression::Column(c) => c.to_string(),
            Expression::Arith(a) => {
                let mut s = (*a.left).to_string();
                s.append(" ");
                s.append(a.op.to_string().as_str());
                s.append(" ");
                s.append((*a.right).to_string().as_str());
                s
            },
            Expression::Comparison(c) => {
                let mut s = (*c.left).to_string();
                s.append(" ");
                s.append(c.op.to_string().as_str());
                s.append(" ");
                s.append((*c.right).to_string().as_str());
                s
            },
            Expression::Conjunction(c) => {
                let mut s = (*c.left).to_string();
                s.append(" ");
                s.append(c.op.to_string().as_str());
                s.append(" ");
                s.append((*c.right).to_string().as_str());
                s
            },
            Expression::Negate(n) => {
                let mut s = match n.op {
                    NegateOperator::Not => String::from_str("NOT("),
                    NegateOperator::Negate => String::from_str("-("),
                };
                s.append((*n.expr).to_string().as_str());
                s.append(")");
                s
            },
            Expression::Cast(c) => {
                let mut s = String::from_str("CAST(");
                s.append((*c.expr).to_string().as_str());
                s.append(" TO ");
                s.append(c.to.to_string().as_str());
                s.append(")");
                s
            },
        }
    }
}

/// A reference to a column of a table.
pub fn col_ref(table_ref: TableRef, column: usize) -> (e: Expression)
    ensures
        e == Expression::Column(ColumnExpr { table_scope: table_ref, column }),
{
    Expression::Column(ColumnExpr { table_scope: table_ref, column })
}

/// A literal expression.
pub fn lit(value: ScalarValue) -> (e: Expression)
    ensures
        e == Expression::Literal(LiteralExpr { literal: value }),
{
    Expression::Literal(LiteralExpr { literal: value })
}

/// `left op right` as an arithmetic expression.
pub fn arith(left: Expression, op: ArithOperator, right: Expression) -> (e: Expression)
    ensures
        e == Expression::Arith(ArithExpr { left: Box::new(left), right: Box::new(right), op }),
{
    Expression::Arith(ArithExpr { left: Box::new(left), right: Box::new(right), op })
}

} // verus!
