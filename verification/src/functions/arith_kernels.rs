//! The arithmetic kernels of every integer storage. Sums, differences and
//! products wrap in two's complement; a zero divisor fails the row.

use crate::datatype::PhysicalType;
use crate::executor::{BinaryKernel, UnaryKernel};
use crate::functions::arith::{
    arith_datum, lemma_div_minus_one, lemma_trunc_div_in_range, lemma_wrap_near, negate_datum,
    not_datum, ArithFunction,
};
use crate::functions::rem::division_by_zero_text;
use crate::storage::{
    Datum, PhysicalBool, PhysicalI128, PhysicalI16, PhysicalI32, PhysicalI64, PhysicalI8, PhysicalU128,
    PhysicalU16, PhysicalU32, PhysicalU64, PhysicalU8,
};
use vstd::prelude::*;

verus! {

/// The kernel of one arithmetic function.
#[derive(Debug, Clone, Copy, PartialEq, Eq, Structural)]
pub struct ArithKernel {
    pub function: ArithFunction,
}

/// The kernel of arithmetic negation, which wraps like subtraction from
/// zero.
#[derive(Debug, Clone, Copy, PartialEq, Eq, Structural)]
pub struct NegateKernel;

/// The kernel of boolean negation.
#[derive(Debug, Clone, Copy, PartialEq, Eq, Structural)]
pub struct NotKernel;

impl UnaryKernel<PhysicalBool, PhysicalBool> for NotKernel {
    open spec fn result(&self, a: Datum) -> Option<Datum> {
        not_datum(a)
    }

    open spec fn failure_text(&self) -> Seq<char> {
        "Cannot negate a value that is not boolean"@
    }

    fn apply(&self, a: &bool) -> (r: Option<bool>) {
        Some(!*a)
    }

    fn failure_message(&self) -> (m: &'static str) {
        "Cannot negate a value that is not boolean"
    }
}

impl BinaryKernel<PhysicalI8, PhysicalI8, PhysicalI8> for ArithKernel {
    open spec fn result(&self, a: Datum, b: Datum) -> Option<Datum> {
        arith_datum(self.function, PhysicalType::Int8, a, b)
    }

    open spec fn failure_text(&self) -> Seq<char> {
        division_by_zero_text()
    }

    fn apply(&self, a: &i8, b: &i8) -> (r: Option<i8>) {
        let a: i8 = *a;
        let b: i8 = *b;
        match self.function {
            ArithFunction::Add => {
                proof {
                    lemma_wrap_near(i8::MIN as int, i8::MAX as int, a + b);
                }
                Some(a.wrapping_add(b))
            },
            ArithFunction::Sub => {
                proof {
                    lemma_wrap_near(i8::MIN as int, i8::MAX as int, a - b);
                }
                Some(a.wrapping_sub(b))
            },
            ArithFunction::Mul => Some(a.wrapping_mul(b)),
            ArithFunction::Div => if b == 0 {
                None
            } else if b == -1 {
                proof {
                    lemma_div_minus_one(a as int);
                    lemma_wrap_near(i8::MIN as int, i8::MAX as int, 0 - a);
                }
                let zero: i8 = 0;
                Some(zero.wrapping_sub(a))
            } else {
                proof {
                    lemma_trunc_div_in_range(i8::MIN as int, i8::MAX as int, a as int, b as int);
                }
                let q = a / b;
                proof {
                    lemma_wrap_near(i8::MIN as int, i8::MAX as int, q as int);
                }
                Some(q)
            },
            ArithFunction::Rem => if b == 0 {
                None
            } else if b == -1 {
                Some(0)
            } else {
                Some(a % b)
            },
        }
    }

    fn failure_message(&self) -> (m: &'static str) {
        "Division by zero"
    }
}

impl BinaryKernel<PhysicalI16, PhysicalI16, PhysicalI16> for ArithKernel {
    open spec fn result(&self, a: Datum, b: Datum) -> Option<Datum> {
        arith_datum(self.function, PhysicalType::Int16, a, b)
    }

    open spec fn failure_text(&self) -> Seq<char> {
        division_by_zero_text()
    }

    fn apply(&self, a: &i16, b: &i16) -> (r: Option<i16>) {
        let a: i16 = *a;
        let b: i16 = *b;
        match self.function {
            ArithFunction::Add => {
                proof {
                    lemma_wrap_near(i16::MIN as int, i16::MAX as int, a + b);
                }
                Some(a.wrapping_add(b))
            },
            ArithFunction::Sub => {
                proof {
                    lemma_wrap_near(i16::MIN as int, i16::MAX as int, a - b);
                }
                Some(a.wrapping_sub(b))
            },
            ArithFunction::Mul => Some(a.wrapping_mul(b)),
            ArithFunction::Div => if b == 0 {
                None
            } else if b == -1 {
                proof {
                    lemma_div_minus_one(a as int);
                    lemma_wrap_near(i16::MIN as int, i16::MAX as int, 0 - a);
                }
                let zero: i16 = 0;
                Some(zero.wrapping_sub(a))
            } else {
                proof {
                    lemma_trunc_div_in_range(i16::MIN as int, i16::MAX as int, a as int, b as int);
                }
                let q = a / b;
                proof {
                    lemma_wrap_near(i16::MIN as int, i16::MAX as int, q as int);
                }
                Some(q)
            },
            ArithFunction::Rem => if b == 0 {
                None
            } else if b == -1 {
                Some(0)
            } else {
                Some(a % b)
            },
        }
    }

    fn failure_message(&self) -> (m: &'static str) {
        "Division by zero"
    }
}

impl BinaryKernel<PhysicalI32, PhysicalI32, PhysicalI32> for ArithKernel {
    open spec fn result(&self, a: Datum, b: Datum) -> Option<Datum> {
        arith_datum(self.function, PhysicalType::Int32, a, b)
    }

    open spec fn failure_text(&self) -> Seq<char> {
        division_by_zero_text()
    }

    fn apply(&self, a: &i32, b: &i32) -> (r: Option<i32>) {
        let a: i32 = *a;
        let b: i32 = *b;
        match self.function {
            ArithFunction::Add => {
                proof {
                    lemma_wrap_near(i32::MIN as int, i32::MAX as int, a + b);
                }
                Some(a.wrapping_add(b))
            },
            ArithFunction::Sub => {
                proof {
                    lemma_wrap_near(i32::MIN as int, i32::MAX as int, a - b);
                }
                Some(a.wrapping_sub(b))
            },
            ArithFunction::Mul => Some(a.wrapping_mul(b)),
            ArithFunction::Div => if b == 0 {
                None
            } else if b == -1 {
                proof {
                    lemma_div_minus_one(a as int);
                    lemma_wrap_near(i32::MIN as int, i32::MAX as int, 0 - a);
                }
                let zero: i32 = 0;
                Some(zero.wrapping_sub(a))
            } else {
                proof {
                    lemma_trunc_div_in_range(i32::MIN as int, i32::MAX as int, a as int, b as int);
                }
                let q = a / b;
                proof {
                    lemma_wrap_near(i32::MIN as int, i32::MAX as int, q as int);
                }
                Some(q)
            },
            ArithFunction::Rem => if b == 0 {
                None
            } else if b == -1 {
                Some(0)
            } else {
                Some(a % b)
            },
        }
    }

    fn failure_message(&self) -> (m: &'static str) {
        "Division by zero"
    }
}

impl BinaryKernel<PhysicalI64, PhysicalI64, PhysicalI64> for ArithKernel {
    open spec fn result(&self, a: Datum, b: Datum) -> Option<Datum> {
        arith_datum(self.function, PhysicalType::Int64, a, b)
    }

    open spec fn failure_text(&self) -> Seq<char> {
        division_by_zero_text()
    }

    fn apply(&self, a: &i64, b: &i64) -> (r: Option<i64>) {
        let a: i64 = *a;
        let b: i64 = *b;
        match self.function {
            ArithFunction::Add => {
                proof {
                    lemma_wrap_near(i64::MIN as int, i64::MAX as int, a + b);
                }
                Some(a.wrapping_add(b))
            },
            ArithFunction::Sub => {
                proof {
                    lemma_wrap_near(i64::MIN as int, i64::MAX as int, a - b);
                }
                Some(a.wrapping_sub(b))
            },
            ArithFunction::Mul => Some(a.wrapping_mul(b)),
            ArithFunction::Div => if b == 0 {
                None
            } else if b == -1 {
                proof {
                    lemma_div_minus_one(a as int);
                    lemma_wrap_near(i64::MIN as int, i64::MAX as int, 0 - a);
                }
                let zero: i64 = 0;
                Some(zero.wrapping_sub(a))
            } else {
                proof {
                    lemma_trunc_div_in_range(i64::MIN as int, i64::MAX as int, a as int, b as int);
                }
                let q = a / b;
                proof {
                    lemma_wrap_near(i64::MIN as int, i64::MAX as int, q as int);
                }
                Some(q)
            },
            ArithFunction::Rem => if b == 0 {
                None
            } else if b == -1 {
                Some(0)
            } else {
                Some(a % b)
            },
        }
    }

    fn failure_message(&self) -> (m: &'static str) {
        "Division by zero"
    }
}

impl BinaryKernel<PhysicalI128, PhysicalI128, PhysicalI128> for ArithKernel {
    open spec fn result(&self, a: Datum, b: Datum) -> Option<Datum> {
        arith_datum(self.function, PhysicalType::Int128, a, b)
    }

    open spec fn failure_text(&self) -> Seq<char> {
        division_by_zero_text()
    }

    fn apply(&self, a: &i128, b: &i128) -> (r: Option<i128>) {
        let a: i128 = *a;
        let b: i128 = *b;
        match self.function {
            ArithFunction::Add => {
                proof {
                    lemma_wrap_near(i128::MIN as int, i128::MAX as int, a + b);
                }
                Some(a.wrapping_add(b))
            },
            ArithFunction::Sub => {
                proof {
                    lemma_wrap_near(i128::MIN as int, i128::MAX as int, a - b);
                }
                Some(a.wrapping_sub(b))
            },
            ArithFunction::Mul => Some(a.wrapping_mul(b)),
            ArithFunction::Div => if b == 0 {
                None
            } else if b == -1 {
                proof {
                    lemma_div_minus_one(a as int);
                    lemma_wrap_near(i128::MIN as int, i128::MAX as int, 0 - a);
                }
                let zero: i128 = 0;
                Some(zero.wrapping_sub(a))
            } else {
                proof {
                    lemma_trunc_div_in_range(i128::MIN as int, i128::MAX as int, a as int, b as int);
                }
                let q = a / b;
                proof {
                    lemma_wrap_near(i128::MIN as int, i128::MAX as int, q as int);
                }
                Some(q)
            },
            ArithFunction::Rem => if b == 0 {
                None
            } else if b == -1 {
                Some(0)
            } else {
                Some(a % b)
            },
        }
    }

    fn failure_message(&self) -> (m: &'static str) {
        "Division by zero"
    }
}

impl BinaryKernel<PhysicalU8, PhysicalU8, PhysicalU8> for ArithKernel {
    open spec fn result(&self, a: Datum, b: Datum) -> Option<Datum> {
        arith_datum(self.function, PhysicalType::UInt8, a, b)
    }

    open spec fn failure_text(&self) -> Seq<char> {
        division_by_zero_text()
    }

    fn apply(&self, a: &u8, b: &u8) -> (r: Option<u8>) {
        let a: u8 = *a;
        let b: u8 = *b;
        match self.function {
            ArithFunction::Add => {
                proof {
                    lemma_wrap_near(u8::MIN as int, u8::MAX as int, a + b);
                }
                Some(a.wrapping_add(b))
            },
            ArithFunction::Sub => {
                proof {
                    lemma_wrap_near(u8::MIN as int, u8::MAX as int, a - b);
                }
                Some(a.wrapping_sub(b))
            },
            ArithFunction::Mul => Some(a.wrapping_mul(b)),
            ArithFunction::Div => if b == 0 {
                None
            } else {
                proof {
                    lemma_trunc_div_in_range(u8::MIN as int, u8::MAX as int, a as int, b as int);
                }
                let q = a / b;
                proof {
                    lemma_wrap_near(u8::MIN as int, u8::MAX as int, q as int);
                }
                Some(q)
            },
            ArithFunction::Rem => if b == 0 {
                None
            } else {
                Some(a % b)
            },
        }
    }

    fn failure_message(&self) -> (m: &'static str) {
        "Division by zero"
    }
}

impl BinaryKernel<PhysicalU16, PhysicalU16, PhysicalU16> for ArithKernel {
    open spec fn result(&self, a: Datum, b: Datum) -> Option<Datum> {
        arith_datum(self.function, PhysicalType::UInt16, a, b)
    }

    open spec fn failure_text(&self) -> Seq<char> {
        division_by_zero_text()
    }

    fn apply(&self, a: &u16, b: &u16) -> (r: Option<u16>) {
        let a: u16 = *a;
        let b: u16 = *b;
        match self.function {
            ArithFunction::Add => {
                proof {
                    lemma_wrap_near(u16::MIN as int, u16::MAX as int, a + b);
                }
                Some(a.wrapping_add(b))
            },
            ArithFunction::Sub => {
                proof {
                    lemma_wrap_near(u16::MIN as int, u16::MAX as int, a - b);
                }
                Some(a.wrapping_sub(b))
            },
            ArithFunction::Mul => Some(a.wrapping_mul(b)),
            ArithFunction::Div => if b == 0 {
                None
            } else {
                proof {
                    lemma_trunc_div_in_range(u16::MIN as int, u16::MAX as int, a as int, b as int);
                }
                let q = a / b;
                proof {
                    lemma_wrap_near(u16::MIN as int, u16::MAX as int, q as int);
                }
                Some(q)
            },
            ArithFunction::Rem => if b == 0 {
                None
            } else {
                Some(a % b)
            },
        }
    }

    fn failure_message(&self) -> (m: &'static str) {
        "Division by zero"
    }
}

impl BinaryKernel<PhysicalU32, PhysicalU32, PhysicalU32> for ArithKernel {
    open spec fn result(&self, a: Datum, b: Datum) -> Option<Datum> {
        arith_datum(self.function, PhysicalType::UInt32, a, b)
    }

    open spec fn failure_text(&self) -> Seq<char> {
        division_by_zero_text()
    }

    fn apply(&self, a: &u32, b: &u32) -> (r: Option<u32>) {
        let a: u32 = *a;
        let b: u32 = *b;
        match self.function {
            ArithFunction::Add => {
                proof {
                    lemma_wrap_near(u32::MIN as int, u32::MAX as int, a + b);
                }
                Some(a.wrapping_add(b))
            },
            ArithFunction::Sub => {
                proof {
                    lemma_wrap_near(u32::MIN as int, u32::MAX as int, a - b);
                }
                Some(a.wrapping_sub(b))
            },
            ArithFunction::Mul => Some(a.wrapping_mul(b)),
            ArithFunction::Div => if b == 0 {
                None
            } else {
                proof {
                    lemma_trunc_div_in_range(u32::MIN as int, u32::MAX as int, a as int, b as int);
                }
                let q = a / b;
                proof {
                    lemma_wrap_near(u32::MIN as int, u32::MAX as int, q as int);
                }
                Some(q)
            },
            ArithFunction::Rem => if b == 0 {
                None
            } else {
                Some(a % b)
            },
        }
    }

    fn failure_message(&self) -> (m: &'static str) {
        "Division by zero"
    }
}

impl BinaryKernel<PhysicalU64, PhysicalU64, PhysicalU64> for ArithKernel {
    open spec fn result(&self, a: Datum, b: Datum) -> Option<Datum> {
        arith_datum(self.function, PhysicalType::UInt64, a, b)
    }

    open spec fn failure_text(&self) -> Seq<char> {
        division_by_zero_text()
    }

    fn apply(&self, a: &u64, b: &u64) -> (r: Option<u64>) {
        let a: u64 = *a;
        let b: u64 = *b;
        match self.function {
            ArithFunction::Add => {
                proof {
                    lemma_wrap_near(u64::MIN as int, u64::MAX as int, a + b);
                }
                Some(a.wrapping_add(b))
            },
            ArithFunction::Sub => {
                proof {
                    lemma_wrap_near(u64::MIN as int, u64::MAX as int, a - b);
                }
                Some(a.wrapping_sub(b))
            },
            ArithFunction::Mul => Some(a.wrapping_mul(b)),
            ArithFunction::Div => if b == 0 {
                None
            } else {
                proof {
                    lemma_trunc_div_in_range(u64::MIN as int, u64::MAX as int, a as int, b as int);
                }
                let q = a / b;
                proof {
                    lemma_wrap_near(u64::MIN as int, u64::MAX as int, q as int);
                }
                Some(q)
            },
            ArithFunction::Rem => if b == 0 {
                None
            } else {
                Some(a % b)
            },
        }
    }

    fn failure_message(&self) -> (m: &'static str) {
        "Division by zero"
    }
}

impl BinaryKernel<PhysicalU128, PhysicalU128, PhysicalU128> for ArithKernel {
    open spec fn result(&self, a: Datum, b: Datum) -> Option<Datum> {
        arith_datum(self.function, PhysicalType::UInt128, a, b)
    }

    open spec fn failure_text(&self) -> Seq<char> {
        division_by_zero_text()
    }

    fn apply(&self, a: &u128, b: &u128) -> (r: Option<u128>) {
        let a: u128 = *a;
        let b: u128 = *b;
        match self.function {
            ArithFunction::Add => {
                proof {
                    lemma_wrap_near(u128::MIN as int, u128::MAX as int, a + b);
                }
                Some(a.wrapping_add(b))
            },
            ArithFunction::Sub => {
                proof {
                    lemma_wrap_near(u128::MIN as int, u128::MAX as int, a - b);
                }
                Some(a.wrapping_sub(b))
            },
            ArithFunction::Mul => Some(a.wrapping_mul(b)),
            ArithFunction::Div => if b == 0 {
                None
            } else {
                proof {
                    lemma_trunc_div_in_range(u128::MIN as int, u128::MAX as int, a as int, b as int);
                }
                let q = a / b;
                proof {
                    lemma_wrap_near(u128::MIN as int, u128::MAX as int, q as int);
                }
                Some(q)
            },
            ArithFunction::Rem => if b == 0 {
                None
            } else {
                Some(a % b)
            },
        }
    }

    fn failure_message(&self) -> (m: &'static str) {
        "Division by zero"
    }
}

impl UnaryKernel<PhysicalI8, PhysicalI8> for NegateKernel {
    open spec fn result(&self, a: Datum) -> Option<Datum> {
        negate_datum(PhysicalType::Int8, a)
    }

    open spec fn failure_text(&self) -> Seq<char> {
        "Cannot negate a value that is not an integer"@
    }

    fn apply(&self, a: &i8) -> (r: Option<i8>) {
        proof {
            lemma_wrap_near(i8::MIN as int, i8::MAX as int, 0 - *a);
        }
        let zero: i8 = 0;
        Some(zero.wrapping_sub(*a))
    }

    fn failure_message(&self) -> (m: &'static str) {
        "Cannot negate a value that is not an integer"
    }
}

impl UnaryKernel<PhysicalI16, PhysicalI16> for NegateKernel {
    open spec fn result(&self, a: Datum) -> Option<Datum> {
        negate_datum(PhysicalType::Int16, a)
    }

    open spec fn failure_text(&self) -> Seq<char> {
        "Cannot negate a value that is not an integer"@
    }

    fn apply(&self, a: &i16) -> (r: Option<i16>) {
        proof {
            lemma_wrap_near(i16::MIN as int, i16::MAX as int, 0 - *a);
        }
        let zero: i16 = 0;
        Some(zero.wrapping_sub(*a))
    }

    fn failure_message(&self) -> (m: &'static str) {
        "Cannot negate a value that is not an integer"
    }
}

impl UnaryKernel<PhysicalI32, PhysicalI32> for NegateKernel {
    open spec fn result(&self, a: Datum) -> Option<Datum> {
        negate_datum(PhysicalType::Int32, a)
    }

    open spec fn failure_text(&self) -> Seq<char> {
        "Cannot negate a value that is not an integer"@
    }

    fn apply(&self, a: &i32) -> (r: Option<i32>) {
        proof {
            lemma_wrap_near(i32::MIN as int, i32::MAX as int, 0 - *a);
        }
        let zero: i32 = 0;
        Some(zero.wrapping_sub(*a))
    }

    fn failure_message(&self) -> (m: &'static str) {
        "Cannot negate a value that is not an integer"
    }
}

impl UnaryKernel<PhysicalI64, PhysicalI64> for NegateKernel {
    open spec fn result(&self, a: Datum) -> Option<Datum> {
        negate_datum(PhysicalType::Int64, a)
    }

    open spec fn failure_text(&self) -> Seq<char> {
        "Cannot negate a value that is not an integer"@
    }

    fn apply(&self, a: &i64) -> (r: Option<i64>) {
        proof {
            lemma_wrap_near(i64::MIN as int, i64::MAX as int, 0 - *a);
        }
        let zero: i64 = 0;
        Some(zero.wrapping_sub(*a))
    }

    fn failure_message(&self) -> (m: &'static str) {
        "Cannot negate a value that is not an integer"
    }
}

impl UnaryKernel<PhysicalI128, PhysicalI128> for NegateKernel {
    open spec fn result(&self, a: Datum) -> Option<Datum> {
        negate_datum(PhysicalType::Int128, a)
    }

    open spec fn failure_text(&self) -> Seq<char> {
        "Cannot negate a value that is not an integer"@
    }

    fn apply(&self, a: &i128) -> (r: Option<i128>) {
        proof {
            lemma_wrap_near(i128::MIN as int, i128::MAX as int, 0 - *a);
        }
        let zero: i128 = 0;
        Some(zero.wrapping_sub(*a))
    }

    fn failure_message(&self) -> (m: &'static str) {
        "Cannot negate a value that is not an integer"
    }
}

impl UnaryKernel<PhysicalU8, PhysicalU8> for NegateKernel {
    open spec fn result(&self, a: Datum) -> Option<Datum> {
        negate_datum(PhysicalType::UInt8, a)
    }

    open spec fn failure_text(&self) -> Seq<char> {
        "Cannot negate a value that is not an integer"@
    }

    fn apply(&self, a: &u8) -> (r: Option<u8>) {
        proof {
            lemma_wrap_near(u8::MIN as int, u8::MAX as int, 0 - *a);
        }
        let zero: u8 = 0;
        Some(zero.wrapping_sub(*a))
    }

    fn failure_message(&self) -> (m: &'static str) {
        "Cannot negate a value that is not an integer"
    }
}

impl UnaryKernel<PhysicalU16, PhysicalU16> for NegateKernel {
    open spec fn result(&self, a: Datum) -> Option<Datum> {
        negate_datum(PhysicalType::UInt16, a)
    }

    open spec fn failure_text(&self) -> Seq<char> {
        "Cannot negate a value that is not an integer"@
    }

    fn apply(&self, a: &u16) -> (r: Option<u16>) {
        proof {
            lemma_wrap_near(u16::MIN as int, u16::MAX as int, 0 - *a);
        }
        let zero: u16 = 0;
        Some(zero.wrapping_sub(*a))
    }

    fn failure_message(&self) -> (m: &'static str) {
        "Cannot negate a value that is not an integer"
    }
}

impl UnaryKernel<PhysicalU32, PhysicalU32> for NegateKernel {
    open spec fn result(&self, a: Datum) -> Option<Datum> {
        negate_datum(PhysicalType::UInt32, a)
    }

    open spec fn failure_text(&self) -> Seq<char> {
        "Cannot negate a value that is not an integer"@
    }

    fn apply(&self, a: &u32) -> (r: Option<u32>) {
        proof {
            lemma_wrap_near(u32::MIN as int, u32::MAX as int, 0 - *a);
        }
        let zero: u32 = 0;
        Some(zero.wrapping_sub(*a))
    }

    fn failure_message(&self) -> (m: &'static str) {
        "Cannot negate a value that is not an integer"
    }
}

impl UnaryKernel<PhysicalU64, PhysicalU64> for NegateKernel {
    open spec fn result(&self, a: Datum) -> Option<Datum> {
        negate_datum(PhysicalType::UInt64, a)
    }

    open spec fn failure_text(&self) -> Seq<char> {
        "Cannot negate a value that is not an integer"@
    }

    fn apply(&self, a: &u64) -> (r: Option<u64>) {
        proof {
            lemma_wrap_near(u64::MIN as int, u64::MAX as int, 0 - *a);
        }
        let zero: u64 = 0;
        Some(zero.wrapping_sub(*a))
    }

    fn failure_message(&self) -> (m: &'static str) {
        "Cannot negate a value that is not an integer"
    }
}

impl UnaryKernel<PhysicalU128, PhysicalU128> for NegateKernel {
    open spec fn result(&self, a: Datum) -> Option<Datum> {
        negate_datum(PhysicalType::UInt128, a)
    }

    open spec fn failure_text(&self) -> Seq<char> {
        "Cannot negate a value that is not an integer"@
    }

    fn apply(&self, a: &u128) -> (r: Option<u128>) {
        proof {
            lemma_wrap_near(u128::MIN as int, u128::MAX as int, 0 - *a);
        }
        let zero: u128 = 0;
        Some(zero.wrapping_sub(*a))
    }

    fn failure_message(&self) -> (m: &'static str) {
        "Cannot negate a value that is not an integer"
    }
}

} // verus!
