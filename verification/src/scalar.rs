//! Single values of the logical types.

use crate::datatype::DataType;
use crate::text::{int_text, nat_text, signed_to_string, unsigned_to_string};
use vstd::prelude::*;

verus! {

/// A single value. Floating-point values are carried as their IEEE-754 bit
/// patterns; the library stores them and never computes on them.
#[derive(Debug, PartialEq, Eq, Hash)]
pub enum ScalarValue {
    Null,
    Boolean(bool),
    Int8(i8),
    Int16(i16),
    Int32(i32),
    Int64(i64),
    Int128(i128),
    UInt8(u8),
    UInt16(u16),
    UInt32(u32),
    UInt64(u64),
    UInt128(u128),
    Float32(u32),
    Float64(u64),
    Utf8(String),
}

/// Owned scalar value; every scalar of this library owns its data.
pub type OwnedScalarValue = ScalarValue;

/// The rendered form of a scalar. A float renders as its type name and the
/// decimal value of its bit pattern.
pub open spec fn scalar_text(v: ScalarValue) -> Seq<char> {
    match v {
        ScalarValue::Null => "NULL"@,
        ScalarValue::Boolean(b) => if b {
            "true"@
        } else {
            "false"@
        },
        ScalarValue::Int8(x) => int_text(x as int),
        ScalarValue::Int16(x) => int_text(x as int),
        ScalarValue::Int32(x) => int_text(x as int),
        ScalarValue::Int64(x) => int_text(x as int),
        ScalarValue::Int128(x) => int_text(x as int),
        ScalarValue::UInt8(x) => int_text(x as int),
        ScalarValue::UInt16(x) => int_text(x as int),
        ScalarValue::UInt32(x) => int_text(x as int),
        ScalarValue::UInt64(x) => int_text(x as int),
        ScalarValue::UInt128(x) => int_text(x as int),
        ScalarValue::Float32(bits) => "Float32(bits="@ + nat_text(bits as nat) + ")"@,
        ScalarValue::Float64(bits) => "Float64(bits="@ + nat_text(bits as nat) + ")"@,
        ScalarValue::Utf8(s) => s@,
    }
}

impl Clone for ScalarValue {
    fn clone(&self) -> (r: Self)
        ensures
            r == *self,
    {
        match self {
            ScalarValue::Null => ScalarValue::Null,
            ScalarValue::Boolean(b) => ScalarValue::Boolean(*b),
            ScalarValue::Int8(x) => ScalarValue::Int8(*x),
            ScalarValue::Int16(x) => ScalarValue::Int16(*x),
            ScalarValue::Int32(x) => ScalarValue::Int32(*x),
            ScalarValue::Int64(x) => ScalarValue::Int64(*x),
            ScalarValue::Int128(x) => ScalarValue::Int128(*x),
            ScalarValue::UInt8(x) => ScalarValue::UInt8(*x),
            ScalarValue::UInt16(x) => ScalarValue::UInt16(*x),
            ScalarValue::UInt32(x) => ScalarValue::UInt32(*x),
            ScalarValue::UInt64(x) => ScalarValue::UInt64(*x),
            ScalarValue::UInt128(x) => ScalarValue::UInt128(*x),
            ScalarValue::Float32(x) => ScalarValue::Float32(*x),
            ScalarValue::Float64(x) => ScalarValue::Float64(*x),
            ScalarValue::Utf8(s) => ScalarValue::Utf8(s.clone()),
        }
    }
}

impl ScalarValue {
    /// The logical type of the value.
    pub open spec fn spec_datatype(&self) -> DataType {
        match *self {
            ScalarValue::Null => DataType::Null,
            ScalarValue::Boolean(_) => DataType::Boolean,
            ScalarValue::Int8(_) => DataType::Int8,
            ScalarValue::Int16(_) => DataType::Int16,
            ScalarValue::Int32(_) => DataType::Int32,
            ScalarValue::Int64(_) => DataType::Int64,
            ScalarValue::Int128(_) => DataType::Int128,
            ScalarValue::UInt8(_) => DataType::UInt8,
            ScalarValue::UInt16(_) => DataType::UInt16,
            ScalarValue::UInt32(_) => DataType::UInt32,
            ScalarValue::UInt64(_) => DataType::UInt64,
            ScalarValue::UInt128(_) => DataType::UInt128,
            ScalarValue::Float32(_) => DataType::Float32,
            ScalarValue::Float64(_) => DataType::Float64,
            ScalarValue::Utf8(_) => DataType::Utf8,
        }
    }

    #[verifier::when_used_as_spec(spec_datatype)]
    pub fn datatype(&self) -> (t: DataType)
        ensures
            t == self.spec_datatype(),
    {
        match self {
            ScalarValue::Null => DataType::Null,
            ScalarValue::Boolean(_) => DataType::Boolean,
            ScalarValue::Int8(_) => DataType::Int8,
            ScalarValue::Int16(_) => DataType::Int16,
            ScalarValue::Int32(_) => DataType::Int32,
            ScalarValue::Int64(_) => DataType::Int64,
            ScalarValue::Int128(_) => DataType::Int128,
            ScalarValue::UInt8(_) => DataType::UInt8,
            ScalarValue::UInt16(_) => DataType::UInt16,
            ScalarValue::UInt32(_) => DataType::UInt32,
            ScalarValue::UInt64(_) => DataType::UInt64,
            ScalarValue::UInt128(_) => DataType::UInt128,
            ScalarValue::Float32(_) => DataType::Float32,
            ScalarValue::Float64(_) => DataType::Float64,
            ScalarValue::Utf8(_) => DataType::Utf8,
        }
    }

    /// Renders the value, as `scalar_text` states.
    pub fn to_string(&self) -> (s: String)
        ensures
            s@ == scalar_text(*self),
    {
        match self {
            ScalarValue::Null => String::from_str("NULL"),
            ScalarValue::Boolean(b) => if *b {
                String::from_str("true")
            } else {
                String::from_str("false")
            },
            ScalarValue::Int8(x) => signed_to_string(*x as i128),
            ScalarValue::Int16(x) => signed_to_string(*x as i128),
            ScalarValue::Int32(x) => signed_to_string(*x as i128),
            ScalarValue::Int64(x) => signed_to_string(*x as i128),
            ScalarValue::Int128(x) => signed_to_string(*x as i128),
            ScalarValue::UInt8(x) => unsigned_to_string(*x as u128),
            ScalarValue::UInt16(x) => unsigned_to_string(*x as u128),
            ScalarValue::UInt32(x) => unsigned_to_string(*x as u128),
            ScalarValue::UInt64(x) => unsigned_to_string(*x as u128),
            ScalarValue::UInt128(x) => unsigned_to_string(*x as u128),
            ScalarValue::Float32(bits) => {
                let mut s = String::from_str("Float32(bits=");
                s.append(unsigned_to_string(*bits as u128).as_str());
                s.append(")");
                s
            },
            ScalarValue::Float64(bits) => {
                let mut s = String::from_str("Float64(bits=");
                s.append(unsigned_to_string(*bits as u128).as_str());
                s.append(")");
                s
            },
            ScalarValue::Utf8(s) => s.clone(),
        }
    }
}

} // verus!
