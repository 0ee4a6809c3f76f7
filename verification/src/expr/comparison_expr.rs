//! Comparison between two expressions.

use crate::expr::{expr_text, Expression};
use vstd::prelude::*;

verus! {

#[derive(Debug, Clone, Copy, PartialEq, Eq, Hash, Structural)]
pub enum ComparisonOperator {
    Eq,
    NotEq,
    Lt,
    LtEq,
    Gt,
    GtEq,
}

/// The symbol of a comparison operator.
pub open spec fn comparison_operator_text(op: ComparisonOperator) -> Seq<char> {
    match op {
        ComparisonOperator::Eq => "="@,
        ComparisonOperator::NotEq => "!="@,
        ComparisonOperator::Lt => "<"@,
        ComparisonOperator::LtEq => "<="@,
        ComparisonOperator::Gt => ">"@,
        ComparisonOperator::GtEq => ">="@,
    }
}

impl ComparisonOperator {
    /// The operator that holds of `(b, a)` exactly when this one holds of
    /// `(a, b)`.
    pub open spec fn spec_flip(self) -> ComparisonOperator {
        match self {
            ComparisonOperator::Eq => ComparisonOperator::Eq,
            ComparisonOperator::NotEq => ComparisonOperator::NotEq,
            ComparisonOperator::Lt => ComparisonOperator::Gt,
            ComparisonOperator::LtEq => ComparisonOperator::GtEq,
            ComparisonOperator::Gt => ComparisonOperator::Lt,
            ComparisonOperator::GtEq => ComparisonOperator::LtEq,
        }
    }

    /// Whether the operator holds of two integers.
    pub open spec fn holds(self, a: int, b: int) -> bool {
        match self {
            ComparisonOperator::Eq => a == b,
            ComparisonOperator::NotEq => a != b,
            ComparisonOperator::Lt => a < b,
            ComparisonOperator::LtEq => a <= b,
            ComparisonOperator::Gt => a > b,
            ComparisonOperator::GtEq => a >= b,
        }
    }

    #[verifier::when_used_as_spec(spec_flip)]
    pub fn flip(self) -> (r: ComparisonOperator)
        ensures
            r == self.spec_flip(),
    {
        match self {
            ComparisonOperator::Eq => ComparisonOperator::Eq,
            ComparisonOperator::NotEq => ComparisonOperator::NotEq,
            ComparisonOperator::Lt => ComparisonOperator::Gt,
            ComparisonOperator::LtEq => ComparisonOperator::GtEq,
            ComparisonOperator::Gt => ComparisonOperator::Lt,
            ComparisonOperator::GtEq => ComparisonOperator::LtEq,
        }
    }

    /// Flipping an operator twice gives it back, and the flipped operator
    /// holds of swapped operands exactly when the operator holds.
    pub proof fn lemma_flip(self, a: int, b: int)
        ensures
            self.spec_flip().spec_flip() == self,
            self.spec_flip().holds(b, a) == self.holds(a, b),
    {
    }

    pub fn to_string(&self) -> (s: String)
        ensures
            s@ == comparison_operator_text(*self),
    {
        match self {
            ComparisonOperator::Eq => String::from_str("="),
            ComparisonOperator::NotEq => String::from_str("!="),
            ComparisonOperator::Lt => String::from_str("<"),
            ComparisonOperator::LtEq => String::from_str("<="),
            ComparisonOperator::Gt => String::from_str(">"),
            ComparisonOperator::GtEq => String::from_str(">="),
        }
    }
}

#[derive(Debug, PartialEq, Eq, Hash)]
pub struct ComparisonExpr {
    pub left: Box<Expression>,
    pub right: Box<Expression>,
    pub op: ComparisonOperator,
}

impl Clone for ComparisonExpr {
    fn clone(&self) -> (r: Self)
        ensures
            r == *self,
    {
        ComparisonExpr {
            left: Box::new((*self.left).clone()),
            right: Box::new((*self.right).clone()),
            op: self.op,
        }
    }
}

impl ComparisonExpr {
    /// Renders `left op right`.
    pub fn to_string(&self) -> (s: String)
        ensures
            s@ == expr_text(*self.left) + " "@ + comparison_operator_text(self.op) + " "@
                + expr_text(*self.right),
    {
        let mut s = (*self.left).to_string();
        s.append(" ");
        s.append(self.op.to_string().as_str());
        s.append(" ");
        s.append((*self.right).to_string().as_str());
        s
    }
}

} // verus!
