//! Arithmetic between two expressions.

use crate::expr::{expr_text, Expression};
use crate::functions::arith::ArithFunction;
use vstd::prelude::*;

verus! {

#[derive(Debug, Clone, Copy, PartialEq, Eq, Hash, Structural)]
pub enum ArithOperator {
    Add,
    Sub,
    Div,
    Mul,
    Mod,
}

/// The symbol of an arithmetic operator.
pub open spec fn arith_operator_text(op: ArithOperator) -> Seq<char> {
    match op {
        ArithOperator::Add => "+"@,
        ArithOperator::Sub => "-"@,
        ArithOperator::Div => "/"@,
        ArithOperator::Mul => "*"@,
        ArithOperator::Mod => "%"@,
    }
}

impl ArithOperator {
    /// The scalar function that computes the operator.
    pub open spec fn spec_as_scalar_function(&self) -> ArithFunction {
        match *self {
            ArithOperator::Add => ArithFunction::Add,
            ArithOperator::Sub => ArithFunction::Sub,
            ArithOperator::Div => ArithFunction::Div,
            ArithOperator::Mul => ArithFunction::Mul,
            ArithOperator::Mod => ArithFunction::Rem,
        }
    }

    #[verifier::when_used_as_spec(spec_as_scalar_function)]
    pub fn as_scalar_function(&self) -> (f: ArithFunction)
        ensures
            f == self.spec_as_scalar_function(),
    {
        match self {
            ArithOperator::Add => ArithFunction::Add,
            ArithOperator::Sub => ArithFunction::Sub,
            ArithOperator::Div => ArithFunction::Div,
            ArithOperator::Mul => ArithFunction::Mul,
            ArithOperator::Mod => ArithFunction::Rem,
        }
    }

    pub fn to_string(&self) -> (s: String)
        ensures
            s@ == arith_operator_text(*self),
    {
        match self {
            ArithOperator::Add => String::from_str("+"),
            ArithOperator::Sub => String::from_str("-"),
            ArithOperator::Div => String::from_str("/"),
            ArithOperator::Mul => String::from_str("*"),
            ArithOperator::Mod => String::from_str("%"),
        }
    }
}

#[derive(Debug, PartialEq, Eq, Hash)]
pub struct ArithExpr {
    pub left: Box<Expression>,
    pub right: Box<Expression>,
    pub op: ArithOperator,
}

impl Clone for ArithExpr {
    fn clone(&self) -> (r: Self)
        ensures
            r == *self,
    {
        ArithExpr {
            left: Box::new((*self.left).clone()),
            right: Box::new((*self.right).clone()),
            op: self.op,
        }
    }
}

impl ArithExpr {
    /// Renders `left op right`.
    pub fn to_string(&self) -> (s: String)
        ensures
            s@ == expr_text(*self.left) + " "@ + arith_operator_text(self.op) + " "@ + expr_text(
                *self.right,
            ),
    {
        let mut s = (*self.left).to_string();
        s.append(" ");
        s.append(self.op.to_string().as_str());
        s.append(" ");
        s.append((*self.right).to_string().as_str());
        s
    }
}

} // verus!
