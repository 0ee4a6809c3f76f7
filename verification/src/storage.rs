//! Typed value buffers of arrays, and the physical storage tags through
//! which kernels reach them.

use crate::datatype::PhysicalType;
use crate::expr::comparison_expr::ComparisonOperator;
use vstd::prelude::*;

verus! {

/// A value of a row, as a plain value. Integers of every width are
/// mathematical integers; floats are their bit patterns.
pub ghost enum Datum {
    Boolean(bool),
    Int(int),
    Float(nat),
    Utf8(Seq<char>),
}

/// The typed value buffer of an array. The float buffers hold IEEE-754 bit
/// patterns. `UntypedNull` holds only a row count.
#[derive(Debug, PartialEq, Eq)]
pub enum ArrayData {
    UntypedNull(usize),
    Boolean(Vec<bool>),
    Int8(Vec<i8>),
    Int16(Vec<i16>),
    Int32(Vec<i32>),
    Int64(Vec<i64>),
    Int128(Vec<i128>),
    UInt8(Vec<u8>),
    UInt16(Vec<u16>),
    UInt32(Vec<u32>),
    UInt64(Vec<u64>),
    UInt128(Vec<u128>),
    Float16(Vec<u16>),
    Float32(Vec<u32>),
    Float64(Vec<u64>),
    Utf8(Vec<String>),
}

/// Whether a comparison holds of two values, where they can be compared:
/// integers and booleans (false before true) by any operator, strings for
/// equality. Values of different kinds, floats, and strings for order
/// cannot be compared.
pub open spec fn datum_holds(op: ComparisonOperator, a: Datum, b: Datum) -> Option<bool> {
    match (a, b) {
        (Datum::Int(x), Datum::Int(y)) => Some(op.holds(x, y)),
        (Datum::Boolean(x), Datum::Boolean(y)) => Some(
            op.holds(
                if x {
                    1
                } else {
                    0
                },
                if y {
                    1
                } else {
                    0
                },
            ),
        ),
        (Datum::Utf8(x), Datum::Utf8(y)) => match op {
            ComparisonOperator::Eq => Some(x == y),
            ComparisonOperator::NotEq => Some(x != y),
            _ => None,
        },
        _ => None,
    }
}

impl ArrayData {
    /// The number of rows in the buffer.
    pub open spec fn spec_len(&self) -> nat {
        match *self {
            ArrayData::UntypedNull(n) => n as nat,
            ArrayData::Boolean(v) => v@.len(),
            ArrayData::Int8(v) => v@.len(),
            ArrayData::Int16(v) => v@.len(),
            ArrayData::Int32(v) => v@.len(),
            ArrayData::Int64(v) => v@.len(),
            ArrayData::Int128(v) => v@.len(),
            ArrayData::UInt8(v) => v@.len(),
            ArrayData::UInt16(v) => v@.len(),
            ArrayData::UInt32(v) => v@.len(),
            ArrayData::UInt64(v) => v@.len(),
            ArrayData::UInt128(v) => v@.len(),
            ArrayData::Float16(v) => v@.len(),
            ArrayData::Float32(v) => v@.len(),
            ArrayData::Float64(v) => v@.len(),
            ArrayData::Utf8(v) => v@.len(),
        }
    }

    /// The physical storage of the buffer.
    pub open spec fn spec_physical_type(&self) -> PhysicalType {
        match *self {
            ArrayData::UntypedNull(_) => PhysicalType::UntypedNull,
            ArrayData::Boolean(_) => PhysicalType::Boolean,
            ArrayData::Int8(_) => PhysicalType::Int8,
            ArrayData::Int16(_) => PhysicalType::Int16,
            ArrayData::Int32(_) => PhysicalType::Int32,
            ArrayData::Int64(_) => PhysicalType::Int64,
            ArrayData::Int128(_) => PhysicalType::Int128,
            ArrayData::UInt8(_) => PhysicalType::UInt8,
            ArrayData::UInt16(_) => PhysicalType::UInt16,
            ArrayData::UInt32(_) => PhysicalType::UInt32,
            ArrayData::UInt64(_) => PhysicalType::UInt64,
            ArrayData::UInt128(_) => PhysicalType::UInt128,
            ArrayData::Float16(_) => PhysicalType::Float16,
            ArrayData::Float32(_) => PhysicalType::Float32,
            ArrayData::Float64(_) => PhysicalType::Float64,
            ArrayData::Utf8(_) => PhysicalType::Utf8,
        }
    }

    /// The value stored for a row.
    pub open spec fn datum(&self, i: int) -> Datum {
        match *self {
            ArrayData::UntypedNull(_) => Datum::Boolean(false),
            ArrayData::Boolean(v) => Datum::Boolean(v@[i]),
            ArrayData::Int8(v) => Datum::Int(v@[i] as int),
            ArrayData::Int16(v) => Datum::Int(v@[i] as int),
            ArrayData::Int32(v) => Datum::Int(v@[i] as int),
            ArrayData::Int64(v) => Datum::Int(v@[i] as int),
            ArrayData::Int128(v) => Datum::Int(v@[i] as int),
            ArrayData::UInt8(v) => Datum::Int(v@[i] as int),
            ArrayData::UInt16(v) => Datum::Int(v@[i] as int),
            ArrayData::UInt32(v) => Datum::Int(v@[i] as int),
            ArrayData::UInt64(v) => Datum::Int(v@[i] as int),
            ArrayData::UInt128(v) => Datum::Int(v@[i] as int),
            ArrayData::Float16(v) => Datum::Float(v@[i] as nat),
            ArrayData::Float32(v) => Datum::Float(v@[i] as nat),
            ArrayData::Float64(v) => Datum::Float(v@[i] as nat),
            ArrayData::Utf8(v) => Datum::Utf8(v@[i]@),
        }
    }

    pub fn len(&self) -> (n: usize)
        ensures
            n == self.spec_len(),
    {
        match self {
            ArrayData::UntypedNull(n) => *n,
            ArrayData::Boolean(v) => v.len(),
            ArrayData::Int8(v) => v.len(),
            ArrayData::Int16(v) => v.len(),
            ArrayData::Int32(v) => v.len(),
            ArrayData::Int64(v) => v.len(),
            ArrayData::Int128(v) => v.len(),
            ArrayData::UInt8(v) => v.len(),
            ArrayData::UInt16(v) => v.len(),
            ArrayData::UInt32(v) => v.len(),
            ArrayData::UInt64(v) => v.len(),
            ArrayData::UInt128(v) => v.len(),
            ArrayData::Float16(v) => v.len(),
            ArrayData::Float32(v) => v.len(),
            ArrayData::Float64(v) => v.len(),
            ArrayData::Utf8(v) => v.len(),
        }
    }

    #[verifier::when_used_as_spec(spec_physical_type)]
    pub fn physical_type(&self) -> (p: PhysicalType)
        ensures
            p == self.spec_physical_type(),
    {
        match self {
            ArrayData::UntypedNull(_) => PhysicalType::UntypedNull,
            ArrayData::Boolean(_) => PhysicalType::Boolean,
            ArrayData::Int8(_) => PhysicalType::Int8,
            ArrayData::Int16(_) => PhysicalType::Int16,
            ArrayData::Int32(_) => PhysicalType::Int32,
            ArrayData::Int64(_) => PhysicalType::Int64,
            ArrayData::Int128(_) => PhysicalType::Int128,
            ArrayData::UInt8(_) => PhysicalType::UInt8,
            ArrayData::UInt16(_) => PhysicalType::UInt16,
            ArrayData::UInt32(_) => PhysicalType::UInt32,
            ArrayData::UInt64(_) => PhysicalType::UInt64,
            ArrayData::UInt128(_) => PhysicalType::UInt128,
            ArrayData::Float16(_) => PhysicalType::Float16,
            ArrayData::Float32(_) => PhysicalType::Float32,
            ArrayData::Float64(_) => PhysicalType::Float64,
            ArrayData::Utf8(_) => PhysicalType::Utf8,
        }
    }
}

/// A physical storage tag: names the element type of one kind of buffer and
/// reaches buffers of that kind.
pub trait PhysicalStorage {
    /// The element type of the buffer.
    type Type;

    /// The physical type the tag stands for.
    spec fn physical_type() -> PhysicalType;

    /// An element as a plain value.
    spec fn datum(v: Self::Type) -> Datum;

    /// The plain value of the element that fills a slot holding no value.
    spec fn default_datum() -> Datum;

    /// The typed buffer, if the data is stored this way.
    fn get_storage(data: &ArrayData) -> (r: Option<&Vec<Self::Type>>)
        ensures
            r is Some <==> data.spec_physical_type() == Self::physical_type(),
            r is Some ==> !(data is UntypedNull),
            r matches Some(v) ==> v@.len() == data.spec_len() && forall|i: int|
                0 <= i < v@.len() ==> Self::datum(#[trigger] v@[i]) == data.datum(i),
    ;

    /// Wraps a typed buffer.
    fn into_data(values: Vec<Self::Type>) -> (r: ArrayData)
        ensures
            r.spec_physical_type() == Self::physical_type(),
            !(r is UntypedNull),
            r.spec_len() == values@.len(),
            forall|i: int| 0 <= i < values@.len() ==> #[trigger] r.datum(i) == Self::datum(values@[i]),
    ;

    /// A copy of an element.
    fn copy_value(v: &Self::Type) -> (r: Self::Type)
        ensures
            Self::datum(r) == Self::datum(*v),
    ;

    /// The element that fills a slot holding no value: false, zero, the
    /// all-zero bit pattern, or the empty string.
    fn default_value() -> (r: Self::Type)
        ensures
            Self::datum(r) == Self::default_datum(),
    ;

    /// Whether two elements are the same value.
    fn same_value(a: &Self::Type, b: &Self::Type) -> (r: bool)
        ensures
            r == (Self::datum(*a) == Self::datum(*b)),
    ;

    /// Whether a comparison holds of two elements, where they can be
    /// compared.
    fn holds(a: &Self::Type, b: &Self::Type, op: ComparisonOperator) -> (r: Option<bool>)
        ensures
            r == datum_holds(op, Self::datum(*a), Self::datum(*b)),
    ;
}

/// Storage tag of `Boolean` buffers.
#[derive(Debug, Clone, Copy, PartialEq, Eq)]
pub struct PhysicalBool;

impl PhysicalStorage for PhysicalBool {
    type Type = bool;

    open spec fn physical_type() -> PhysicalType {
        PhysicalType::Boolean
    }

    open spec fn datum(v: bool) -> Datum {
        Datum::Boolean(v)
    }

    open spec fn default_datum() -> Datum {
        Datum::Boolean(false)
    }

    fn get_storage(data: &ArrayData) -> (r: Option<&Vec<bool>>) {
        match data {
            ArrayData::Boolean(v) => Some(v),
            _ => None,
        }
    }

    fn into_data(values: Vec<bool>) -> (r: ArrayData) {
        ArrayData::Boolean(values)
    }

    fn copy_value(v: &bool) -> (r: bool) {
        *v
    }

    fn default_value() -> (r: bool) {
        false
    }

    fn same_value(a: &bool, b: &bool) -> (r: bool) {
        *a == *b
    }

    fn holds(a: &bool, b: &bool, op: ComparisonOperator) -> (r: Option<bool>) {
        let x: u8 = if *a {
            1
        } else {
            0
        };
        let y: u8 = if *b {
            1
        } else {
            0
        };
        Some(
            match op {
                ComparisonOperator::Eq => x == y,
                ComparisonOperator::NotEq => x != y,
                ComparisonOperator::Lt => x < y,
                ComparisonOperator::LtEq => x <= y,
                ComparisonOperator::Gt => x > y,
                ComparisonOperator::GtEq => x >= y,
            },
        )
    }
}

/// Storage tag of `Int8` buffers.
#[derive(Debug, Clone, Copy, PartialEq, Eq)]
pub struct PhysicalI8;

impl PhysicalStorage for PhysicalI8 {
    type Type = i8;

    open spec fn physical_type() -> PhysicalType {
        PhysicalType::Int8
    }

    open spec fn datum(v: i8) -> Datum {
        Datum::Int(v as int)
    }

    open spec fn default_datum() -> Datum {
        Datum::Int(0)
    }

    fn get_storage(data: &ArrayData) -> (r: Option<&Vec<i8>>) {
        match data {
            ArrayData::Int8(v) => Some(v),
            _ => None,
        }
    }

    fn into_data(values: Vec<i8>) -> (r: ArrayData) {
        ArrayData::Int8(values)
    }

    fn copy_value(v: &i8) -> (r: i8) {
        *v
    }

    fn default_value() -> (r: i8) {
        0
    }

    fn same_value(a: &i8, b: &i8) -> (r: bool) {
        *a == *b
    }

    fn holds(a: &i8, b: &i8, op: ComparisonOperator) -> (r: Option<bool>) {
        Some(
            match op {
                ComparisonOperator::Eq => *a == *b,
                ComparisonOperator::NotEq => *a != *b,
                ComparisonOperator::Lt => *a < *b,
                ComparisonOperator::LtEq => *a <= *b,
                ComparisonOperator::Gt => *a > *b,
                ComparisonOperator::GtEq => *a >= *b,
            },
        )
    }
}

/// Storage tag of `Int16` buffers.
#[derive(Debug, Clone, Copy, PartialEq, Eq)]
pub struct PhysicalI16;

impl PhysicalStorage for PhysicalI16 {
    type Type = i16;

    open spec fn physical_type() -> PhysicalType {
        PhysicalType::Int16
    }

    open spec fn datum(v: i16) -> Datum {
        Datum::Int(v as int)
    }

    open spec fn default_datum() -> Datum {
        Datum::Int(0)
    }

    fn get_storage(data: &ArrayData) -> (r: Option<&Vec<i16>>) {
        match data {
            ArrayData::Int16(v) => Some(v),
            _ => None,
        }
    }

    fn into_data(values: Vec<i16>) -> (r: ArrayData) {
        ArrayData::Int16(values)
    }

    fn copy_value(v: &i16) -> (r: i16) {
        *v
    }

    fn default_value() -> (r: i16) {
        0
    }

    fn same_value(a: &i16, b: &i16) -> (r: bool) {
        *a == *b
    }

    fn holds(a: &i16, b: &i16, op: ComparisonOperator) -> (r: Option<bool>) {
        Some(
            match op {
                ComparisonOperator::Eq => *a == *b,
                ComparisonOperator::NotEq => *a != *b,
                ComparisonOperator::Lt => *a < *b,
                ComparisonOperator::LtEq => *a <= *b,
                ComparisonOperator::Gt => *a > *b,
                ComparisonOperator::GtEq => *a >= *b,
            },
        )
    }
}

/// Storage tag of `Int32` buffers.
#[derive(Debug, Clone, Copy, PartialEq, Eq)]
pub struct PhysicalI32;

impl PhysicalStorage for PhysicalI32 {
    type Type = i32;

    open spec fn physical_type() -> PhysicalType {
        PhysicalType::Int32
    }

    open spec fn datum(v: i32) -> Datum {
        Datum::Int(v as int)
    }

    open spec fn default_datum() -> Datum {
        Datum::Int(0)
    }

    fn get_storage(data: &ArrayData) -> (r: Option<&Vec<i32>>) {
        match data {
            ArrayData::Int32(v) => Some(v),
            _ => None,
        }
    }

    fn into_data(values: Vec<i32>) -> (r: ArrayData) {
        ArrayData::Int32(values)
    }

    fn copy_value(v: &i32) -> (r: i32) {
        *v
    }

    fn default_value() -> (r: i32) {
        0
    }

    fn same_value(a: &i32, b: &i32) -> (r: bool) {
        *a == *b
    }

    fn holds(a: &i32, b: &i32, op: ComparisonOperator) -> (r: Option<bool>) {
        Some(
            match op {
                ComparisonOperator::Eq => *a == *b,
                ComparisonOperator::NotEq => *a != *b,
                ComparisonOperator::Lt => *a < *b,
                ComparisonOperator::LtEq => *a <= *b,
                ComparisonOperator::Gt => *a > *b,
                ComparisonOperator::GtEq => *a >= *b,
            },
        )
    }
}

/// Storage tag of `Int64` buffers.
#[derive(Debug, Clone, Copy, PartialEq, Eq)]
pub struct PhysicalI64;

impl PhysicalStorage for PhysicalI64 {
    type Type = i64;

    open spec fn physical_type() -> PhysicalType {
        PhysicalType::Int64
    }

    open spec fn datum(v: i64) -> Datum {
        Datum::Int(v as int)
    }

    open spec fn default_datum() -> Datum {
        Datum::Int(0)
    }

    fn get_storage(data: &ArrayData) -> (r: Option<&Vec<i64>>) {
        match data {
            ArrayData::Int64(v) => Some(v),
            _ => None,
        }
    }

    fn into_data(values: Vec<i64>) -> (r: ArrayData) {
        ArrayData::Int64(values)
    }

    fn copy_value(v: &i64) -> (r: i64) {
        *v
    }

    fn default_value() -> (r: i64) {
        0
    }

    fn same_value(a: &i64, b: &i64) -> (r: bool) {
        *a == *b
    }

    fn holds(a: &i64, b: &i64, op: ComparisonOperator) -> (r: Option<bool>) {
        Some(
            match op {
                ComparisonOperator::Eq => *a == *b,
                ComparisonOperator::NotEq => *a != *b,
                ComparisonOperator::Lt => *a < *b,
                ComparisonOperator::LtEq => *a <= *b,
                ComparisonOperator::Gt => *a > *b,
                ComparisonOperator::GtEq => *a >= *b,
            },
        )
    }
}

/// Storage tag of `Int128` buffers.
#[derive(Debug, Clone, Copy, PartialEq, Eq)]
pub struct PhysicalI128;

impl PhysicalStorage for PhysicalI128 {
    type Type = i128;

    open spec fn physical_type() -> PhysicalType {
        PhysicalType::Int128
    }

    open spec fn datum(v: i128) -> Datum {
        Datum::Int(v as int)
    }

    open spec fn default_datum() -> Datum {
        Datum::Int(0)
    }

    fn get_storage(data: &ArrayData) -> (r: Option<&Vec<i128>>) {
        match data {
            ArrayData::Int128(v) => Some(v),
            _ => None,
        }
    }

    fn into_data(values: Vec<i128>) -> (r: ArrayData) {
        ArrayData::Int128(values)
    }

    fn copy_value(v: &i128) -> (r: i128) {
        *v
    }

    fn default_value() -> (r: i128) {
        0
    }

    fn same_value(a: &i128, b: &i128) -> (r: bool) {
        *a == *b
    }

    fn holds(a: &i128, b: &i128, op: ComparisonOperator) -> (r: Option<bool>) {
        Some(
            match op {
                ComparisonOperator::Eq => *a == *b,
                ComparisonOperator::NotEq => *a != *b,
                ComparisonOperator::Lt => *a < *b,
                ComparisonOperator::LtEq => *a <= *b,
                ComparisonOperator::Gt => *a > *b,
                ComparisonOperator::GtEq => *a >= *b,
            },
        )
    }
}

/// Storage tag of `UInt8` buffers.
#[derive(Debug, Clone, Copy, PartialEq, Eq)]
pub struct PhysicalU8;

impl PhysicalStorage for PhysicalU8 {
    type Type = u8;

    open spec fn physical_type() -> PhysicalType {
        PhysicalType::UInt8
    }

    open spec fn datum(v: u8) -> Datum {
        Datum::Int(v as int)
    }

    open spec fn default_datum() -> Datum {
        Datum::Int(0)
    }

    fn get_storage(data: &ArrayData) -> (r: Option<&Vec<u8>>) {
        match data {
            ArrayData::UInt8(v) => Some(v),
            _ => None,
        }
    }

    fn into_data(values: Vec<u8>) -> (r: ArrayData) {
        ArrayData::UInt8(values)
    }

    fn copy_value(v: &u8) -> (r: u8) {
        *v
    }

    fn default_value() -> (r: u8) {
        0
    }

    fn same_value(a: &u8, b: &u8) -> (r: bool) {
        *a == *b
    }

    fn holds(a: &u8, b: &u8, op: ComparisonOperator) -> (r: Option<bool>) {
        Some(
            match op {
                ComparisonOperator::Eq => *a == *b,
                ComparisonOperator::NotEq => *a != *b,
                ComparisonOperator::Lt => *a < *b,
                ComparisonOperator::LtEq => *a <= *b,
                ComparisonOperator::Gt => *a > *b,
                ComparisonOperator::GtEq => *a >= *b,
            },
        )
    }
}

/// Storage tag of `UInt16` buffers.
#[derive(Debug, Clone, Copy, PartialEq, Eq)]
pub struct PhysicalU16;

impl PhysicalStorage for PhysicalU16 {
    type Type = u16;

    open spec fn physical_type() -> PhysicalType {
        PhysicalType::UInt16
    }

    open spec fn datum(v: u16) -> Datum {
        Datum::Int(v as int)
    }

    open spec fn default_datum() -> Datum {
        Datum::Int(0)
    }

    fn get_storage(data: &ArrayData) -> (r: Option<&Vec<u16>>) {
        match data {
            ArrayData::UInt16(v) => Some(v),
            _ => None,
        }
    }

    fn into_data(values: Vec<u16>) -> (r: ArrayData) {
        ArrayData::UInt16(values)
    }

    fn copy_value(v: &u16) -> (r: u16) {
        *v
    }

    fn default_value() -> (r: u16) {
        0
    }

    fn same_value(a: &u16, b: &u16) -> (r: bool) {
        *a == *b
    }

    fn holds(a: &u16, b: &u16, op: ComparisonOperator) -> (r: Option<bool>) {
        Some(
            match op {
                ComparisonOperator::Eq => *a == *b,
                ComparisonOperator::NotEq => *a != *b,
                ComparisonOperator::Lt => *a < *b,
                ComparisonOperator::LtEq => *a <= *b,
                ComparisonOperator::Gt => *a > *b,
                ComparisonOperator::GtEq => *a >= *b,
            },
        )
    }
}

/// Storage tag of `UInt32` buffers.
#[derive(Debug, Clone, Copy, PartialEq, Eq)]
pub struct PhysicalU32;

impl PhysicalStorage for PhysicalU32 {
    type Type = u32;

    open spec fn physical_type() -> PhysicalType {
        PhysicalType::UInt32
    }

    open spec fn datum(v: u32) -> Datum {
        Datum::Int(v as int)
    }

    open spec fn default_datum() -> Datum {
        Datum::Int(0)
    }

    fn get_storage(data: &ArrayData) -> (r: Option<&Vec<u32>>) {
        match data {
            ArrayData::UInt32(v) => Some(v),
            _ => None,
        }
    }

    fn into_data(values: Vec<u32>) -> (r: ArrayData) {
        ArrayData::UInt32(values)
    }

    fn copy_value(v: &u32) -> (r: u32) {
        *v
    }

    fn default_value() -> (r: u32) {
        0
    }

    fn same_value(a: &u32, b: &u32) -> (r: bool) {
        *a == *b
    }

    fn holds(a: &u32, b: &u32, op: ComparisonOperator) -> (r: Option<bool>) {
        Some(
            match op {
                ComparisonOperator::Eq => *a == *b,
                ComparisonOperator::NotEq => *a != *b,
                ComparisonOperator::Lt => *a < *b,
                ComparisonOperator::LtEq => *a <= *b,
                ComparisonOperator::Gt => *a > *b,
                ComparisonOperator::GtEq => *a >= *b,
            },
        )
    }
}

/// Storage tag of `UInt64` buffers.
#[derive(Debug, Clone, Copy, PartialEq, Eq)]
pub struct PhysicalU64;

impl PhysicalStorage for PhysicalU64 {
    type Type = u64;

    open spec fn physical_type() -> PhysicalType {
        PhysicalType::UInt64
    }

    open spec fn datum(v: u64) -> Datum {
        Datum::Int(v as int)
    }

    open spec fn default_datum() -> Datum {
        Datum::Int(0)
    }

    fn get_storage(data: &ArrayData) -> (r: Option<&Vec<u64>>) {
        match data {
            ArrayData::UInt64(v) => Some(v),
            _ => None,
        }
    }

    fn into_data(values: Vec<u64>) -> (r: ArrayData) {
        ArrayData::UInt64(values)
    }

    fn copy_value(v: &u64) -> (r: u64) {
        *v
    }

    fn default_value() -> (r: u64) {
        0
    }

    fn same_value(a: &u64, b: &u64) -> (r: bool) {
        *a == *b
    }

    fn holds(a: &u64, b: &u64, op: ComparisonOperator) -> (r: Option<bool>) {
        Some(
            match op {
                ComparisonOperator::Eq => *a == *b,
                ComparisonOperator::NotEq => *a != *b,
                ComparisonOperator::Lt => *a < *b,
                ComparisonOperator::LtEq => *a <= *b,
                ComparisonOperator::Gt => *a > *b,
                ComparisonOperator::GtEq => *a >= *b,
            },
        )
    }
}

/// Storage tag of `UInt128` buffers.
#[derive(Debug, Clone, Copy, PartialEq, Eq)]
pub struct PhysicalU128;

impl PhysicalStorage for PhysicalU128 {
    type Type = u128;

    open spec fn physical_type() -> PhysicalType {
        PhysicalType::UInt128
    }

    open spec fn datum(v: u128) -> Datum {
        Datum::Int(v as int)
    }

    open spec fn default_datum() -> Datum {
        Datum::Int(0)
    }

    fn get_storage(data: &ArrayData) -> (r: Option<&Vec<u128>>) {
        match data {
            ArrayData::UInt128(v) => Some(v),
            _ => None,
        }
    }

    fn into_data(values: Vec<u128>) -> (r: ArrayData) {
        ArrayData::UInt128(values)
    }

    fn copy_value(v: &u128) -> (r: u128) {
        *v
    }

    fn default_value() -> (r: u128) {
        0
    }

    fn same_value(a: &u128, b: &u128) -> (r: bool) {
        *a == *b
    }

    fn holds(a: &u128, b: &u128, op: ComparisonOperator) -> (r: Option<bool>) {
        Some(
            match op {
                ComparisonOperator::Eq => *a == *b,
                ComparisonOperator::NotEq => *a != *b,
                ComparisonOperator::Lt => *a < *b,
                ComparisonOperator::LtEq => *a <= *b,
                ComparisonOperator::Gt => *a > *b,
                ComparisonOperator::GtEq => *a >= *b,
            },
        )
    }
}

/// Storage tag of `Float16` buffers.
#[derive(Debug, Clone, Copy, PartialEq, Eq)]
pub struct PhysicalF16;

impl PhysicalStorage for PhysicalF16 {
    type Type = u16;

    open spec fn physical_type() -> PhysicalType {
        PhysicalType::Float16
    }

    open spec fn datum(v: u16) -> Datum {
        Datum::Float(v as nat)
    }

    open spec fn default_datum() -> Datum {
        Datum::Float(0)
    }

    fn get_storage(data: &ArrayData) -> (r: Option<&Vec<u16>>) {
        match data {
            ArrayData::Float16(v) => Some(v),
            _ => None,
        }
    }

    fn into_data(values: Vec<u16>) -> (r: ArrayData) {
        ArrayData::Float16(values)
    }

    fn copy_value(v: &u16) -> (r: u16) {
        *v
    }

    fn default_value() -> (r: u16) {
        0
    }

    fn same_value(a: &u16, b: &u16) -> (r: bool) {
        *a == *b
    }

    fn holds(a: &u16, b: &u16, op: ComparisonOperator) -> (r: Option<bool>) {
        None
    }
}

/// Storage tag of `Float32` buffers.
#[derive(Debug, Clone, Copy, PartialEq, Eq)]
pub struct PhysicalF32;

impl PhysicalStorage for PhysicalF32 {
    type Type = u32;

    open spec fn physical_type() -> PhysicalType {
        PhysicalType::Float32
    }

    open spec fn datum(v: u32) -> Datum {
        Datum::Float(v as nat)
    }

    open spec fn default_datum() -> Datum {
        Datum::Float(0)
    }

    fn get_storage(data: &ArrayData) -> (r: Option<&Vec<u32>>) {
        match data {
            ArrayData::Float32(v) => Some(v),
            _ => None,
        }
    }

    fn into_data(values: Vec<u32>) -> (r: ArrayData) {
        ArrayData::Float32(values)
    }

    fn copy_value(v: &u32) -> (r: u32) {
        *v
    }

    fn default_value() -> (r: u32) {
        0
    }

    fn same_value(a: &u32, b: &u32) -> (r: bool) {
        *a == *b
    }

    fn holds(a: &u32, b: &u32, op: ComparisonOperator) -> (r: Option<bool>) {
        None
    }
}

/// Storage tag of `Float64` buffers.
#[derive(Debug, Clone, Copy, PartialEq, Eq)]
pub struct PhysicalF64;

impl PhysicalStorage for PhysicalF64 {
    type Type = u64;

    open spec fn physical_type() -> PhysicalType {
        PhysicalType::Float64
    }

    open spec fn datum(v: u64) -> Datum {
        Datum::Float(v as nat)
    }

    open spec fn default_datum() -> Datum {
        Datum::Float(0)
    }

    fn get_storage(data: &ArrayData) -> (r: Option<&Vec<u64>>) {
        match data {
            ArrayData::Float64(v) => Some(v),
            _ => None,
        }
    }

    fn into_data(values: Vec<u64>) -> (r: ArrayData) {
        ArrayData::Float64(values)
    }

    fn copy_value(v: &u64) -> (r: u64) {
        *v
    }

    fn default_value() -> (r: u64) {
        0
    }

    fn same_value(a: &u64, b: &u64) -> (r: bool) {
        *a == *b
    }

    fn holds(a: &u64, b: &u64, op: ComparisonOperator) -> (r: Option<bool>) {
        None
    }
}

/// Storage tag of `Utf8` buffers.
#[derive(Debug, Clone, Copy, PartialEq, Eq)]
pub struct PhysicalUtf8;

impl PhysicalStorage for PhysicalUtf8 {
    type Type = String;

    open spec fn physical_type() -> PhysicalType {
        PhysicalType::Utf8
    }

    open spec fn datum(v: String) -> Datum {
        Datum::Utf8(v@)
    }

    open spec fn default_datum() -> Datum {
        Datum::Utf8(Seq::empty())
    }

    fn get_storage(data: &ArrayData) -> (r: Option<&Vec<String>>) {
        match data {
            ArrayData::Utf8(v) => Some(v),
            _ => None,
        }
    }

    fn into_data(values: Vec<String>) -> (r: ArrayData) {
        ArrayData::Utf8(values)
    }

    fn copy_value(v: &String) -> (r: String) {
        v.clone()
    }

    fn default_value() -> (r: String) {
        String::new()
    }

    fn same_value(a: &String, b: &String) -> (r: bool) {
        *a == *b
    }

    fn holds(a: &String, b: &String, op: ComparisonOperator) -> (r: Option<bool>) {
        match op {
            ComparisonOperator::Eq => Some(*a == *b),
            ComparisonOperator::NotEq => Some(!(*a == *b)),
            _ => None,
        }
    }
}

} // verus!
