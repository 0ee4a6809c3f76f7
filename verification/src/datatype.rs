//! Logical types, their identifiers, and the physical storage each one uses.

use vstd::prelude::*;
use vstd::std_specs::cmp::PartialEqSpecImpl;

verus! {

/// Identifies a logical type without its parameters. `Any` matches every
/// type in a function signature.
#[derive(Debug, Clone, Copy, PartialEq, Eq, Hash, Structural)]
pub enum DataTypeId {
    Any,
    Null,
    Boolean,
    Int8,
    Int16,
    Int32,
    Int64,
    Int128,
    UInt8,
    UInt16,
    UInt32,
    UInt64,
    UInt128,
    Float16,
    Float32,
    Float64,
    Decimal64,
    Decimal128,
    Timestamp,
    Date32,
    Date64,
    Interval,
    Utf8,
    Binary,
    List,
}

/// Resolution of a timestamp.
#[derive(Debug, Clone, Copy, PartialEq, Eq, Hash, Structural)]
pub enum TimeUnit {
    Second,
    Millisecond,
    Microsecond,
    Nanosecond,
}

/// Precision and scale of a decimal type.
#[derive(Debug, Clone, Copy, PartialEq, Eq, Hash, Structural)]
pub struct DecimalTypeMeta {
    pub precision: u8,
    pub scale: i8,
}

/// The columnar encoding that stores values of a logical type.
#[derive(Debug, Clone, Copy, PartialEq, Eq, Hash, Structural)]
pub enum PhysicalType {
    UntypedNull,
    Boolean,
    Int8,
    Int16,
    Int32,
    Int64,
    Int128,
    UInt8,
    UInt16,
    UInt32,
    UInt64,
    UInt128,
    Float16,
    Float32,
    Float64,
    Interval,
    Binary,
    Utf8,
    List,
}

/// A logical SQL type.
#[derive(Debug, Eq, Hash)]
pub enum DataType {
    Null,
    Boolean,
    Int8,
    Int16,
    Int32,
    Int64,
    Int128,
    UInt8,
    UInt16,
    UInt32,
    UInt64,
    UInt128,
    Float16,
    Float32,
    Float64,
    Decimal64(DecimalTypeMeta),
    Decimal128(DecimalTypeMeta),
    Timestamp(TimeUnit),
    Date32,
    Date64,
    Interval,
    Utf8,
    Binary,
    List(Box<DataType>),
}

impl PhysicalType {
    /// Whether values are stored as fixed-width integers.
    pub open spec fn is_integer(self) -> bool {
        match self {
            PhysicalType::Int8
            | PhysicalType::Int16
            | PhysicalType::Int32
            | PhysicalType::Int64
            | PhysicalType::Int128
            | PhysicalType::UInt8
            | PhysicalType::UInt16
            | PhysicalType::UInt32
            | PhysicalType::UInt64
            | PhysicalType::UInt128 => true,
            _ => false,
        }
    }

    /// Whether values are stored as IEEE-754 bit patterns.
    pub open spec fn is_float(self) -> bool {
        self is Float16 || self is Float32 || self is Float64
    }

    /// The least value an integer storage holds; zero for other storage.
    pub open spec fn min_value(self) -> int {
        match self {
            PhysicalType::Int8 => i8::MIN as int,
            PhysicalType::Int16 => i16::MIN as int,
            PhysicalType::Int32 => i32::MIN as int,
            PhysicalType::Int64 => i64::MIN as int,
            PhysicalType::Int128 => i128::MIN as int,
            _ => 0,
        }
    }

    /// The greatest value an integer storage holds; zero for other storage.
    pub open spec fn max_value(self) -> int {
        match self {
            PhysicalType::Int8 => i8::MAX as int,
            PhysicalType::Int16 => i16::MAX as int,
            PhysicalType::Int32 => i32::MAX as int,
            PhysicalType::Int64 => i64::MAX as int,
            PhysicalType::Int128 => i128::MAX as int,
            PhysicalType::UInt8 => u8::MAX as int,
            PhysicalType::UInt16 => u16::MAX as int,
            PhysicalType::UInt32 => u32::MAX as int,
            PhysicalType::UInt64 => u64::MAX as int,
            PhysicalType::UInt128 => u128::MAX as int,
            _ => 0,
        }
    }

    #[verifier::when_used_as_spec(is_integer)]
    pub fn is_integer_storage(self) -> (r: bool)
        ensures
            r == self.is_integer(),
    {
        match self {
            PhysicalType::Int8
            | PhysicalType::Int16
            | PhysicalType::Int32
            | PhysicalType::Int64
            | PhysicalType::Int128
            | PhysicalType::UInt8
            | PhysicalType::UInt16
            | PhysicalType::UInt32
            | PhysicalType::UInt64
            | PhysicalType::UInt128 => true,
            _ => false,
        }
    }
}

/// The name of a time unit.
pub open spec fn time_unit_text(u: TimeUnit) -> Seq<char> {
    match u {
        TimeUnit::Second => "s"@,
        TimeUnit::Millisecond => "ms"@,
        TimeUnit::Microsecond => "us"@,
        TimeUnit::Nanosecond => "ns"@,
    }
}

/// The rendered name of a logical type.
pub open spec fn datatype_text(t: DataType) -> Seq<char>
    decreases t,
{
    match t {
        DataType::Null => "Null"@,
        DataType::Boolean => "Boolean"@,
        DataType::Int8 => "Int8"@,
        DataType::Int16 => "Int16"@,
        DataType::Int32 => "Int32"@,
        DataType::Int64 => "Int64"@,
        DataType::Int128 => "Int128"@,
        DataType::UInt8 => "UInt8"@,
        DataType::UInt16 => "UInt16"@,
        DataType::UInt32 => "UInt32"@,
        DataType::UInt64 => "UInt64"@,
        DataType::UInt128 => "UInt128"@,
        DataType::Float16 => "Float16"@,
        DataType::Float32 => "Float32"@,
        DataType::Float64 => "Float64"@,
        DataType::Date32 => "Date32"@,
        DataType::Date64 => "Date64"@,
        DataType::Interval => "Interval"@,
        DataType::Utf8 => "Utf8"@,
        DataType::Binary => "Binary"@,
        DataType::Decimal64(m) => "Decimal64("@ + crate::text::nat_text(m.precision as nat) + ","@
            + crate::text::int_text(m.scale as int) + ")"@,
        DataType::Decimal128(m) => "Decimal128("@ + crate::text::nat_text(m.precision as nat)
            + ","@ + crate::text::int_text(m.scale as int) + ")"@,
        DataType::Timestamp(u) => "Timestamp("@ + time_unit_text(u) + ")"@,
        DataType::List(inner) => "List["@ + datatype_text(*inner) + "]"@,
    }
}

impl TimeUnit {
    pub fn to_string(&self) -> (s: String)
        ensures
            s@ == time_unit_text(*self),
    {
        match self {
            TimeUnit::Second => String::from_str("s"),
            TimeUnit::Millisecond => String::from_str("ms"),
            TimeUnit::Microsecond => String::from_str("us"),
            TimeUnit::Nanosecond => String::from_str("ns"),
        }
    }
}

impl Clone for DataType {
    fn clone(&self) -> (r: Self)
        ensures
            r == *self,
        decreases *self,
    {
        match self {
            DataType::Null => DataType::Null,
            DataType::Boolean => DataType::Boolean,
            DataType::Int8 => DataType::Int8,
            DataType::Int16 => DataType::Int16,
            DataType::Int32 => DataType::Int32,
            DataType::Int64 => DataType::Int64,
            DataType::Int128 => DataType::Int128,
            DataType::UInt8 => DataType::UInt8,
            DataType::UInt16 => DataType::UInt16,
            DataType::UInt32 => DataType::UInt32,
            DataType::UInt64 => DataType::UInt64,
            DataType::UInt128 => DataType::UInt128,
            DataType::Float16 => DataType::Float16,
            DataType::Float32 => DataType::Float32,
            DataType::Float64 => DataType::Float64,
            DataType::Date32 => DataType::Date32,
            DataType::Date64 => DataType::Date64,
            DataType::Interval => DataType::Interval,
            DataType::Utf8 => DataType::Utf8,
            DataType::Binary => DataType::Binary,
            DataType::Decimal64(m) => DataType::Decimal64(*m),
            DataType::Decimal128(m) => DataType::Decimal128(*m),
            DataType::Timestamp(u) => DataType::Timestamp(*u),
            DataType::List(inner) => DataType::List(Box::new((**inner).clone())),
        }
    }
}

impl PartialEqSpecImpl for DataType {
    open spec fn obeys_eq_spec() -> bool {
        true
    }

    open spec fn eq_spec(&self, other: &DataType) -> bool {
        *self == *other
    }
}

impl PartialEq for DataType {
    fn eq(&self, other: &DataType) -> (r: bool)
        decreases *self,
    {
        if self.datatype_id() != other.datatype_id() {
            return false;
        }
        match (self, other) {
            (DataType::Decimal64(a), DataType::Decimal64(b)) => a == b,
            (DataType::Decimal128(a), DataType::Decimal128(b)) => a == b,
            (DataType::Timestamp(a), DataType::Timestamp(b)) => a == b,
            (DataType::List(a), DataType::List(b)) => (**a).eq(&**b),
            _ => true,
        }
    }
}

impl DataType {
    /// The identifier of a logical type.
    pub open spec fn spec_datatype_id(&self) -> DataTypeId {
        match *self {
            DataType::Null => DataTypeId::Null,
            DataType::Boolean => DataTypeId::Boolean,
            DataType::Int8 => DataTypeId::Int8,
            DataType::Int16 => DataTypeId::Int16,
            DataType::Int32 => DataTypeId::Int32,
            DataType::Int64 => DataTypeId::Int64,
            DataType::Int128 => DataTypeId::Int128,
            DataType::UInt8 => DataTypeId::UInt8,
            DataType::UInt16 => DataTypeId::UInt16,
            DataType::UInt32 => DataTypeId::UInt32,
            DataType::UInt64 => DataTypeId::UInt64,
            DataType::UInt128 => DataTypeId::UInt128,
            DataType::Float16 => DataTypeId::Float16,
            DataType::Float32 => DataTypeId::Float32,
            DataType::Float64 => DataTypeId::Float64,
            DataType::Date32 => DataTypeId::Date32,
            DataType::Date64 => DataTypeId::Date64,
            DataType::Interval => DataTypeId::Interval,
            DataType::Utf8 => DataTypeId::Utf8,
            DataType::Binary => DataTypeId::Binary,
            DataType::Decimal64(_) => DataTypeId::Decimal64,
            DataType::Decimal128(_) => DataTypeId::Decimal128,
            DataType::Timestamp(_) => DataTypeId::Timestamp,
            DataType::List(_) => DataTypeId::List,
        }
    }

    /// The canonical physical storage of a logical type.
    pub open spec fn spec_physical_type(&self) -> PhysicalType {
        match *self {
            DataType::Null => PhysicalType::UntypedNull,
            DataType::Boolean => PhysicalType::Boolean,
            DataType::Int8 => PhysicalType::Int8,
            DataType::Int16 => PhysicalType::Int16,
            DataType::Int32 => PhysicalType::Int32,
            DataType::Int64 => PhysicalType::Int64,
            DataType::Int128 => PhysicalType::Int128,
            DataType::UInt8 => PhysicalType::UInt8,
            DataType::UInt16 => PhysicalType::UInt16,
            DataType::UInt32 => PhysicalType::UInt32,
            DataType::UInt64 => PhysicalType::UInt64,
            DataType::UInt128 => PhysicalType::UInt128,
            DataType::Float16 => PhysicalType::Float16,
            DataType::Float32 => PhysicalType::Float32,
            DataType::Float64 => PhysicalType::Float64,
            DataType::Date32 => PhysicalType::Int32,
            DataType::Date64 => PhysicalType::Int64,
            DataType::Interval => PhysicalType::Interval,
            DataType::Utf8 => PhysicalType::Utf8,
            DataType::Binary => PhysicalType::Binary,
            DataType::Decimal64(_) => PhysicalType::Int64,
            DataType::Decimal128(_) => PhysicalType::Int128,
            DataType::Timestamp(_) => PhysicalType::Int64,
            DataType::List(_) => PhysicalType::List,
        }
    }

    /// Whether a logical type is one of the thirteen numeric types.
    pub open spec fn spec_is_numeric(&self) -> bool {
        match *self {
            DataType::Int8
            | DataType::Int16
            | DataType::Int32
            | DataType::Int64
            | DataType::Int128
            | DataType::UInt8
            | DataType::UInt16
            | DataType::UInt32
            | DataType::UInt64
            | DataType::UInt128
            | DataType::Float16
            | DataType::Float32
            | DataType::Float64 => true,
            _ => false,
        }
    }

    #[verifier::when_used_as_spec(spec_datatype_id)]
    pub fn datatype_id(&self) -> (id: DataTypeId)
        ensures
            id == self.spec_datatype_id(),
    {
        match self {
            DataType::Null => DataTypeId::Null,
            DataType::Boolean => DataTypeId::Boolean,
            DataType::Int8 => DataTypeId::Int8,
            DataType::Int16 => DataTypeId::Int16,
            DataType::Int32 => DataTypeId::Int32,
            DataType::Int64 => DataTypeId::Int64,
            DataType::Int128 => DataTypeId::Int128,
            DataType::UInt8 => DataTypeId::UInt8,
            DataType::UInt16 => DataTypeId::UInt16,
            DataType::UInt32 => DataTypeId::UInt32,
            DataType::UInt64 => DataTypeId::UInt64,
            DataType::UInt128 => DataTypeId::UInt128,
            DataType::Float16 => DataTypeId::Float16,
            DataType::Float32 => DataTypeId::Float32,
            DataType::Float64 => DataTypeId::Float64,
            DataType::Date32 => DataTypeId::Date32,
            DataType::Date64 => DataTypeId::Date64,
            DataType::Interval => DataTypeId::Interval,
            DataType::Utf8 => DataTypeId::Utf8,
            DataType::Binary => DataTypeId::Binary,
            DataType::Decimal64(_) => DataTypeId::Decimal64,
            DataType::Decimal128(_) => DataTypeId::Decimal128,
            DataType::Timestamp(_) => DataTypeId::Timestamp,
            DataType::List(_) => DataTypeId::List,
        }
    }

    #[verifier::when_used_as_spec(spec_physical_type)]
    pub fn physical_type(&self) -> (p: PhysicalType)
        ensures
            p == self.spec_physical_type(),
    {
        match self {
            DataType::Null => PhysicalType::UntypedNull,
            DataType::Boolean => PhysicalType::Boolean,
            DataType::Int8 => PhysicalType::Int8,
            DataType::Int16 => PhysicalType::Int16,
            DataType::Int32 => PhysicalType::Int32,
            DataType::Int64 => PhysicalType::Int64,
            DataType::Int128 => PhysicalType::Int128,
            DataType::UInt8 => PhysicalType::UInt8,
            DataType::UInt16 => PhysicalType::UInt16,
            DataType::UInt32 => PhysicalType::UInt32,
            DataType::UInt64 => PhysicalType::UInt64,
            DataType::UInt128 => PhysicalType::UInt128,
            DataType::Float16 => PhysicalType::Float16,
            DataType::Float32 => PhysicalType::Float32,
            DataType::Float64 => PhysicalType::Float64,
            DataType::Date32 => PhysicalType::Int32,
            DataType::Date64 => PhysicalType::Int64,
            DataType::Interval => PhysicalType::Interval,
            DataType::Utf8 => PhysicalType::Utf8,
            DataType::Binary => PhysicalType::Binary,
            DataType::Decimal64(_) => PhysicalType::Int64,
            DataType::Decimal128(_) => PhysicalType::Int128,
            DataType::Timestamp(_) => PhysicalType::Int64,
            DataType::List(_) => PhysicalType::List,
        }
    }

    #[verifier::when_used_as_spec(spec_is_numeric)]
    pub fn is_numeric(&self) -> (r: bool)
        ensures
            r == self.spec_is_numeric(),
    {
        match self {
            DataType::Int8
            | DataType::Int16
            | DataType::Int32
            | DataType::Int64
            | DataType::Int128
            | DataType::UInt8
            | DataType::UInt16
            | DataType::UInt32
            | DataType::UInt64
            | DataType::UInt128
            | DataType::Float16
            | DataType::Float32
            | DataType::Float64 => true,
            _ => false,
        }
    }

    /// Renders the type's name, as `datatype_text` states.
    pub fn to_string(&self) -> (s: String)
        ensures
            s@ == datatype_text(*self),
        decreases *self,
    {
        match self {
            DataType::Null => String::from_str("Null"),
            DataType::Boolean => String::from_str("Boolean"),
            DataType::Int8 => String::from_str("Int8"),
            DataType::Int16 => String::from_str("Int16"),
            DataType::Int32 => String::from_str("Int32"),
            DataType::Int64 => String::from_str("Int64"),
            DataType::Int128 => String::from_str("Int128"),
            DataType::UInt8 => String::from_str("UInt8"),
            DataType::UInt16 => String::from_str("UInt16"),
            DataType::UInt32 => String::from_str("UInt32"),
            DataType::UInt64 => String::from_str("UInt64"),
            DataType::UInt128 => String::from_str("UInt128"),
            DataType::Float16 => String::from_str("Float16"),
            DataType::Float32 => String::from_str("Float32"),
            DataType::Float64 => String::from_str("Float64"),
            DataType::Date32 => String::from_str("Date32"),
            DataType::Date64 => String::from_str("Date64"),
            DataType::Interval => String::from_str("Interval"),
            DataType::Utf8 => String::from_str("Utf8"),
            DataType::Binary => String::from_str("Binary"),
            DataType::Decimal64(m) => decimal_to_string("Decimal64(", m),
            DataType::Decimal128(m) => decimal_to_string("Decimal128(", m),
            DataType::Timestamp(u) => {
                let mut s = String::from_str("Timestamp(");
                s.append(u.to_string().as_str());
                s.append(")");
                s
            },
            DataType::List(inner) => {
                let mut s = String::from_str("List[");
                s.append((**inner).to_string().as_str());
                s.append("]");
                s
            },
        }
    }
}

fn decimal_to_string(prefix: &str, m: &DecimalTypeMeta) -> (s: String)
    ensures
        s@ == prefix@ + crate::text::nat_text(m.precision as nat) + ","@ + crate::text::int_text(
            m.scale as int,
        ) + ")"@,
{
    let mut s = String::from_str(prefix);
    s.append(crate::text::unsigned_to_string(m.precision as u128).as_str());
    s.append(",");
    s.append(crate::text::signed_to_string(m.scale as i128).as_str());
    s.append(")");
    s
}

/// The rendered names of a list of types.
pub fn datatype_names(types: &Vec<DataType>) -> (names: Vec<String>)
    ensures
        names.deep_view() == types@.map_values(|t: DataType| datatype_text(t)),
{
    let mut names: Vec<String> = Vec::new();
    let mut i: usize = 0;
    while i < types.len()
        invariant
            i <= types.len(),
            names.deep_view() == types@.take(i as int).map_values(|t: DataType| datatype_text(t)),
        decreases types.len() - i,
    {
        let name = types[i].to_string();
        let ghost before = names.deep_view();
        names.push(name);
        proof {
            assert(names.deep_view() =~= before.push(name@));
            assert(types@.take(i + 1).map_values(|t: DataType| datatype_text(t)) =~= before.push(
                name@,
            ));
        }
        i += 1;
    }
    assert(types@.take(types.len() as int) =~= types@);
    names
}

/// A named, typed column of a schema.
#[derive(Debug, PartialEq, Eq)]
pub struct Field {
    pub name: String,
    pub datatype: DataType,
    pub nullable: bool,
}

impl Clone for Field {
    fn clone(&self) -> (r: Self)
        ensures
            r == *self,
    {
        Field { name: self.name.clone(), datatype: self.datatype.clone(), nullable: self.nullable }
    }
}

/// An ordered list of fields.
#[derive(Debug, PartialEq, Eq)]
pub struct Schema {
    pub fields: Vec<Field>,
}

} // verus!
