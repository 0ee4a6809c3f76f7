//! Columnar arrays: a logical type, a typed value buffer, and a validity
//! mask.

use crate::datatype::{DataType, PhysicalType};
use crate::error::{fails_with, RayexecError};
use crate::expr::comparison_expr::ComparisonOperator;
use crate::scalar::ScalarValue;
use crate::storage::{
    datum_holds, ArrayData, Datum, PhysicalBool, PhysicalF16, PhysicalF32, PhysicalF64, PhysicalI128,
    PhysicalI16, PhysicalI32, PhysicalI64, PhysicalI8, PhysicalStorage, PhysicalU128, PhysicalU16,
    PhysicalU32, PhysicalU64, PhysicalU8, PhysicalUtf8,
};
use vstd::prelude::*;
use vstd::std_specs::cmp::PartialEqSpecImpl;

verus! {

/// What an array holds: its logical type and, for each row, the value or
/// `None` for SQL NULL.
pub ghost struct ArrayView {
    pub datatype: DataType,
    pub rows: Seq<Option<Datum>>,
}

/// Whether a row is valid under a validity mask; without a mask every row
/// is.
pub open spec fn mask_valid(validity: Option<Vec<bool>>, i: int) -> bool {
    match validity {
        Some(v) => v@[i],
        None => true,
    }
}

/// The rows of a buffer under a validity mask. Rows of an untyped null
/// buffer are all NULL.
pub open spec fn array_rows(data: ArrayData, validity: Option<Vec<bool>>) -> Seq<Option<Datum>> {
    Seq::new(
        data.spec_len(),
        |i: int|
            if data is UntypedNull || !mask_valid(validity, i) {
                None
            } else {
                Some(data.datum(i))
            },
    )
}

/// Whether a buffer and a mask can form an array of a logical type: the
/// buffer is stored as the type requires, and the mask, if any, has one
/// entry per row.
pub open spec fn array_parts_agree(
    datatype: DataType,
    data: ArrayData,
    validity: Option<Vec<bool>>,
) -> bool {
    &&& datatype.spec_physical_type() == data.spec_physical_type()
    &&& validity matches Some(v) ==> v@.len() == data.spec_len()
}

/// The logical type that a buffer stores when nothing says otherwise: the
/// type named like its storage.
pub open spec fn default_datatype(data: ArrayData) -> DataType {
    match data {
        ArrayData::UntypedNull(_) => DataType::Null,
        ArrayData::Boolean(_) => DataType::Boolean,
        ArrayData::Int8(_) => DataType::Int8,
        ArrayData::Int16(_) => DataType::Int16,
        ArrayData::Int32(_) => DataType::Int32,
        ArrayData::Int64(_) => DataType::Int64,
        ArrayData::Int128(_) => DataType::Int128,
        ArrayData::UInt8(_) => DataType::UInt8,
        ArrayData::UInt16(_) => DataType::UInt16,
        ArrayData::UInt32(_) => DataType::UInt32,
        ArrayData::UInt64(_) => DataType::UInt64,
        ArrayData::UInt128(_) => DataType::UInt128,
        ArrayData::Float16(_) => DataType::Float16,
        ArrayData::Float32(_) => DataType::Float32,
        ArrayData::Float64(_) => DataType::Float64,
        ArrayData::Utf8(_) => DataType::Utf8,
    }
}

/// A column of values of one logical type.
#[derive(Debug)]
pub struct Array {
    datatype: DataType,
    validity: Option<Vec<bool>>,
    data: ArrayData,
}

impl View for Array {
    type V = ArrayView;

    closed spec fn view(&self) -> ArrayView {
        ArrayView { datatype: self.datatype, rows: array_rows(self.data, self.validity) }
    }
}

impl Array {
    #[verifier::type_invariant]
    spec fn well_formed(&self) -> bool {
        array_parts_agree(self.datatype, self.data, self.validity)
    }

    /// The value buffer.
    pub closed spec fn spec_data(&self) -> ArrayData {
        self.data
    }

    /// The validity mask.
    pub closed spec fn spec_validity(&self) -> Option<Vec<bool>> {
        self.validity
    }

    /// Builds an array from its parts; fails unless they agree.
    pub fn try_new(datatype: DataType, data: ArrayData, validity: Option<Vec<bool>>) -> (r: Result<
        Array,
        RayexecError,
    >)
        ensures
            array_parts_agree(datatype, data, validity) ==> (r matches Ok(a) && a@ == (ArrayView {
                datatype,
                rows: array_rows(data, validity),
            }) && a.spec_data() == data && a.spec_validity() == validity),
            !array_parts_agree(datatype, data, validity) ==> (r matches Err(e) && e@.msg
                == "Array parts disagree on storage or length"@ && e@.source is None),
    {
        let validity_fits = match &validity {
            Some(v) => v.len() == data.len(),
            None => true,
        };
        if datatype.physical_type() == data.physical_type() && validity_fits {
            Ok(Array { datatype, validity, data })
        } else {
            Err(RayexecError::new("Array parts disagree on storage or length"))
        }
    }

    /// An array over a buffer, of the type named like the buffer's storage,
    /// with every row valid.
    pub fn from_data(data: ArrayData) -> (a: Array)
        ensures
            a@ == (ArrayView { datatype: default_datatype(data), rows: array_rows(data, None) }),
            a.spec_data() == data,
            a.spec_validity() is None,
    {
        let datatype = match &data {
            ArrayData::UntypedNull(_) => DataType::Null,
            ArrayData::Boolean(_) => DataType::Boolean,
            ArrayData::Int8(_) => DataType::Int8,
            ArrayData::Int16(_) => DataType::Int16,
            ArrayData::Int32(_) => DataType::Int32,
            ArrayData::Int64(_) => DataType::Int64,
            ArrayData::Int128(_) => DataType::Int128,
            ArrayData::UInt8(_) => DataType::UInt8,
            ArrayData::UInt16(_) => DataType::UInt16,
            ArrayData::UInt32(_) => DataType::UInt32,
            ArrayData::UInt64(_) => DataType::UInt64,
            ArrayData::UInt128(_) => DataType::UInt128,
            ArrayData::Float16(_) => DataType::Float16,
            ArrayData::Float32(_) => DataType::Float32,
            ArrayData::Float64(_) => DataType::Float64,
            ArrayData::Utf8(_) => DataType::Utf8,
        };
        Array { datatype, validity: None, data }
    }

    pub fn datatype(&self) -> (t: &DataType)
        ensures
            *t == self@.datatype,
    {
        &self.datatype
    }

    /// The number of rows.
    pub fn logical_len(&self) -> (n: usize)
        ensures
            n == self@.rows.len(),
    {
        self.data.len()
    }

    /// The value buffer. Together with the mask it determines the rows.
    pub fn data(&self) -> (d: &ArrayData)
        ensures
            *d == self.spec_data(),
            array_parts_agree(self@.datatype, *d, self.spec_validity()),
            self@.rows == array_rows(*d, self.spec_validity()),
    {
        proof {
            use_type_invariant(self);
        }
        &self.data
    }

    /// The validity mask; `None` where every row is valid.
    pub fn validity(&self) -> (v: &Option<Vec<bool>>)
        ensures
            *v == self.spec_validity(),
            array_parts_agree(self@.datatype, self.spec_data(), *v),
            self@.rows == array_rows(self.spec_data(), *v),
    {
        proof {
            use_type_invariant(self);
        }
        &self.validity
    }

    /// Whether the row holds a value rather than NULL.
    pub fn is_valid(&self, idx: usize) -> (r: bool)
        requires
            idx < self@.rows.len(),
        ensures
            r == self@.rows[idx as int] is Some,
    {
        proof {
            use_type_invariant(self);
        }
        match &self.data {
            ArrayData::UntypedNull(_) => false,
            _ => match &self.validity {
                Some(v) => v[idx],
                None => true,
            },
        }
    }
}


/// Names one row of one of several source arrays.
#[derive(Debug, Clone, Copy, PartialEq, Eq, Structural)]
pub struct RowPick {
    /// Index of the source array.
    pub source: usize,
    /// Index of the row in that array.
    pub row: usize,
}

/// The views of a list of arrays.
pub open spec fn views(sources: Seq<&Array>) -> Seq<ArrayView> {
    sources.map_values(|a: &Array| a@)
}

/// Whether every source has the logical type of the first.
pub open spec fn same_types(sources: Seq<ArrayView>) -> bool {
    forall|i: int| 0 <= i < sources.len() ==> (#[trigger] sources[i]).datatype == sources[0].datatype
}

/// Whether every pick names a row that exists.
pub open spec fn picks_in_range(sources: Seq<ArrayView>, picks: Seq<RowPick>) -> bool {
    forall|k: int|
        0 <= k < picks.len() ==> (#[trigger] picks[k]).source < sources.len() && picks[k].row
            < sources[picks[k].source as int].rows.len()
}

/// The rows that the picks name, in the order of the picks.
pub open spec fn picked_rows(sources: Seq<ArrayView>, picks: Seq<RowPick>) -> Seq<Option<Datum>> {
    Seq::new(picks.len(), |k: int| sources[picks[k].source as int].rows[picks[k].row as int])
}

/// The message of the error for gathering from no array.
pub open spec fn no_sources_text() -> Seq<char> {
    "Cannot gather rows from an empty list of arrays"@
}

/// The message of the error for gathering from arrays of different types.
pub open spec fn mixed_types_text() -> Seq<char> {
    "Cannot gather rows from arrays of different types"@
}

/// The message of the error for a pick that names no row.
pub open spec fn pick_range_text() -> Seq<char> {
    "Row index out of bounds"@
}

/// What gathering gives: an array of the sources' type holding the picked
/// rows, or the message of the error. The sources are checked first, then
/// the picks.
pub open spec fn gather_outcome(sources: Seq<ArrayView>, picks: Seq<RowPick>) -> Result<
    ArrayView,
    Seq<char>,
> {
    if sources.len() == 0 {
        Err(no_sources_text())
    } else if !same_types(sources) {
        Err(mixed_types_text())
    } else if !picks_in_range(sources, picks) {
        Err(pick_range_text())
    } else {
        Ok(ArrayView { datatype: sources[0].datatype, rows: picked_rows(sources, picks) })
    }
}

/// Whether an array result is what an outcome says.
pub open spec fn array_result_is(
    r: Result<Array, RayexecError>,
    outcome: Result<ArrayView, Seq<char>>,
) -> bool {
    match outcome {
        Ok(view) => r matches Ok(out) && out@ == view,
        Err(msg) => fails_with(r, msg),
    }
}

fn gather_typed<S: PhysicalStorage>(
    sources: &[&Array],
    picks: &Vec<RowPick>,
    datatype: DataType,
) -> (r:
    Result<Array, RayexecError>)
    requires
        sources@.len() > 0,
        same_types(views(sources@)),
        datatype == sources@[0]@.datatype,
        datatype.spec_physical_type() == S::physical_type(),
    ensures
        array_result_is(r, gather_outcome(views(sources@), picks@)),
{
    let mut out: Vec<S::Type> = Vec::new();
    let mut mask: Vec<bool> = Vec::new();
    let mut k: usize = 0;
    while k < picks.len()
        invariant
            k <= picks.len(),
            sources@.len() > 0,
            same_types(views(sources@)),
            datatype == sources@[0]@.datatype,
            datatype.spec_physical_type() == S::physical_type(),
            picks_in_range(views(sources@), picks@.take(k as int)),
            out@.len() == k,
            mask@.len() == k,
            forall|j: int|
                0 <= j < k ==> (#[trigger] mask@[j]) == picked_rows(views(sources@), picks@)[j] is Some,
            forall|j: int|
                0 <= j < k && picked_rows(views(sources@), picks@)[j] is Some ==> Some(
                    S::datum(#[trigger] out@[j]),
                ) == picked_rows(views(sources@), picks@)[j],
        decreases picks.len() - k,
    {
        let pick = picks[k];
        if pick.source >= sources.len() {
            assert(!picks_in_range(views(sources@), picks@));
            return Err(RayexecError::new("Row index out of bounds"));
        }
        let source = sources[pick.source];
        if pick.row >= source.logical_len() {
            assert(!picks_in_range(views(sources@), picks@));
            return Err(RayexecError::new("Row index out of bounds"));
        }
        let data = source.data();
        assert(source@.datatype == sources@[0]@.datatype);
        let valid = source.is_valid(pick.row);
        match S::get_storage(data) {
            Some(values) => {
                if valid {
                    out.push(S::copy_value(&values[pick.row]));
                } else {
                    out.push(S::default_value());
                }
            },
            None => {
                out.push(S::default_value());
            },
        }
        mask.push(valid);
        proof {
            assert(picks@.take(k + 1) =~= picks@.take(k as int).push(pick));
        }
        k += 1;
    }
    proof {
        assert(picks@.take(picks.len() as int) =~= picks@);
    }
    let data = S::into_data(out);
    let validity = Some(mask);
    proof {
        assert forall|j: int| 0 <= j < picks.len() implies #[trigger] array_rows(data, validity)[j]
            == picked_rows(views(sources@), picks@)[j] by {
            let _ = mask@[j];
            let _ = out@[j];
        }
        assert(array_rows(data, validity) =~= picked_rows(views(sources@), picks@));
    }
    Array::try_new(datatype, data, validity)
}

fn gather_nulls(sources: &[&Array], picks: &Vec<RowPick>, datatype: DataType) -> (r: Result<
    Array,
    RayexecError,
>)
    requires
        sources@.len() > 0,
        same_types(views(sources@)),
        datatype == sources@[0]@.datatype,
        datatype.spec_physical_type() == PhysicalType::UntypedNull,
    ensures
        array_result_is(r, gather_outcome(views(sources@), picks@)),
{
    let mut k: usize = 0;
    while k < picks.len()
        invariant
            k <= picks.len(),
            sources@.len() > 0,
            same_types(views(sources@)),
            datatype == sources@[0]@.datatype,
            datatype.spec_physical_type() == PhysicalType::UntypedNull,
            picks_in_range(views(sources@), picks@.take(k as int)),
            forall|j: int| 0 <= j < k ==> (#[trigger] picked_rows(views(sources@), picks@)[j]) is None,
        decreases picks.len() - k,
    {
        let pick = picks[k];
        if pick.source >= sources.len() || pick.row >= sources[pick.source].logical_len() {
            assert(!picks_in_range(views(sources@), picks@));
            return Err(RayexecError::new("Row index out of bounds"));
        }
        let data = sources[pick.source].data();
        proof {
            assert(sources@[pick.source as int]@.datatype == sources@[0]@.datatype);
            assert(data is UntypedNull);
            assert(picks@.take(k + 1) =~= picks@.take(k as int).push(pick));
        }
        k += 1;
    }
    proof {
        assert(picks@.take(picks.len() as int) =~= picks@);
    }
    let data = ArrayData::UntypedNull(picks.len());
    proof {
        assert(array_rows(data, None) =~= picked_rows(views(sources@), picks@));
    }
    Array::try_new(datatype, data, None)
}

/// Builds an array from rows picked from source arrays of one type, as
/// `gather_outcome` states.
pub fn gather(sources: &[&Array], picks: &Vec<RowPick>) -> (r: Result<Array, RayexecError>)
    ensures
        array_result_is(r, gather_outcome(views(sources@), picks@)),
{
    if sources.len() == 0 {
        return Err(RayexecError::new("Cannot gather rows from an empty list of arrays"));
    }
    let mut i: usize = 1;
    while i < sources.len()
        invariant
            1 <= i <= sources.len(),
            forall|j: int|
                0 <= j < i ==> (#[trigger] views(sources@)[j]).datatype == views(
                    sources@,
                )[0].datatype,
        decreases sources.len() - i,
    {
        if !(*sources[i].datatype() == *sources[0].datatype()) {
            assert(views(sources@)[i as int].datatype != views(sources@)[0].datatype);
            return Err(RayexecError::new("Cannot gather rows from arrays of different types"));
        }
        i += 1;
    }
    let datatype = sources[0].datatype().clone();
    match sources[0].data() {
        ArrayData::UntypedNull(_) => gather_nulls(sources, picks, datatype),
        ArrayData::Boolean(_) => gather_typed::<PhysicalBool>(sources, picks, datatype),
        ArrayData::Int8(_) => gather_typed::<PhysicalI8>(sources, picks, datatype),
        ArrayData::Int16(_) => gather_typed::<PhysicalI16>(sources, picks, datatype),
        ArrayData::Int32(_) => gather_typed::<PhysicalI32>(sources, picks, datatype),
        ArrayData::Int64(_) => gather_typed::<PhysicalI64>(sources, picks, datatype),
        ArrayData::Int128(_) => gather_typed::<PhysicalI128>(sources, picks, datatype),
        ArrayData::UInt8(_) => gather_typed::<PhysicalU8>(sources, picks, datatype),
        ArrayData::UInt16(_) => gather_typed::<PhysicalU16>(sources, picks, datatype),
        ArrayData::UInt32(_) => gather_typed::<PhysicalU32>(sources, picks, datatype),
        ArrayData::UInt64(_) => gather_typed::<PhysicalU64>(sources, picks, datatype),
        ArrayData::UInt128(_) => gather_typed::<PhysicalU128>(sources, picks, datatype),
        ArrayData::Float16(_) => gather_typed::<PhysicalF16>(sources, picks, datatype),
        ArrayData::Float32(_) => gather_typed::<PhysicalF32>(sources, picks, datatype),
        ArrayData::Float64(_) => gather_typed::<PhysicalF64>(sources, picks, datatype),
        ArrayData::Utf8(_) => gather_typed::<PhysicalUtf8>(sources, picks, datatype),
    }
}

fn rows_equal<S: PhysicalStorage>(a: &Array, b: &Array) -> (r: bool)
    requires
        a@.datatype == b@.datatype,
        a@.datatype.spec_physical_type() == S::physical_type(),
        a@.rows.len() == b@.rows.len(),
    ensures
        r == (a@.rows == b@.rows),
{
    let a_data = a.data();
    let b_data = b.data();
    let a_values = match S::get_storage(a_data) {
        Some(v) => v,
        None => {
            return false;
        },
    };
    let b_values = match S::get_storage(b_data) {
        Some(v) => v,
        None => {
            return false;
        },
    };
    let n = a.logical_len();
    let mut i: usize = 0;
    while i < n
        invariant
            i <= n,
            n == a@.rows.len(),
            n == b@.rows.len(),
            n == a_values@.len(),
            n == b_values@.len(),
            a@.rows == array_rows(*a_data, a.spec_validity()),
            b@.rows == array_rows(*b_data, b.spec_validity()),
            !(a_data is UntypedNull),
            !(b_data is UntypedNull),
            a_data.spec_len() == n,
            b_data.spec_len() == n,
            forall|k: int| 0 <= k < n ==> S::datum(#[trigger] a_values@[k]) == a_data.datum(k),
            forall|k: int| 0 <= k < n ==> S::datum(#[trigger] b_values@[k]) == b_data.datum(k),
            forall|k: int| 0 <= k < i ==> a@.rows[k] == b@.rows[k],
        decreases n - i,
    {
        let a_valid = a.is_valid(i);
        let b_valid = b.is_valid(i);
        if a_valid != b_valid {
            assert(a@.rows[i as int] != b@.rows[i as int]);
            return false;
        }
        if a_valid && !S::same_value(&a_values[i], &b_values[i]) {
            assert(a@.rows[i as int] != b@.rows[i as int]);
            return false;
        }
        i += 1;
    }
    assert(a@.rows =~= b@.rows);
    true
}

impl PartialEqSpecImpl for Array {
    open spec fn obeys_eq_spec() -> bool {
        true
    }

    /// Two arrays are equal when they have the same type and hold the same
    /// rows, however they are stored.
    open spec fn eq_spec(&self, other: &Array) -> bool {
        self@ == other@
    }
}

impl PartialEq for Array {
    fn eq(&self, other: &Array) -> (r: bool) {
        if !(self.datatype == other.datatype) || self.logical_len() != other.logical_len() {
            return false;
        }
        proof {
            use_type_invariant(self);
            use_type_invariant(other);
        }
        match &self.data {
            ArrayData::UntypedNull(_) => {
                assert(self@.rows =~= other@.rows);
                true
            },
            ArrayData::Boolean(_) => rows_equal::<PhysicalBool>(self, other),
            ArrayData::Int8(_) => rows_equal::<PhysicalI8>(self, other),
            ArrayData::Int16(_) => rows_equal::<PhysicalI16>(self, other),
            ArrayData::Int32(_) => rows_equal::<PhysicalI32>(self, other),
            ArrayData::Int64(_) => rows_equal::<PhysicalI64>(self, other),
            ArrayData::Int128(_) => rows_equal::<PhysicalI128>(self, other),
            ArrayData::UInt8(_) => rows_equal::<PhysicalU8>(self, other),
            ArrayData::UInt16(_) => rows_equal::<PhysicalU16>(self, other),
            ArrayData::UInt32(_) => rows_equal::<PhysicalU32>(self, other),
            ArrayData::UInt64(_) => rows_equal::<PhysicalU64>(self, other),
            ArrayData::UInt128(_) => rows_equal::<PhysicalU128>(self, other),
            ArrayData::Float16(_) => rows_equal::<PhysicalF16>(self, other),
            ArrayData::Float32(_) => rows_equal::<PhysicalF32>(self, other),
            ArrayData::Float64(_) => rows_equal::<PhysicalF64>(self, other),
            ArrayData::Utf8(_) => rows_equal::<PhysicalUtf8>(self, other),
        }
    }
}

impl Clone for Array {
    fn clone(&self) -> (r: Self)
        ensures
            r@ == self@,
    {
        let mut picks: Vec<RowPick> = Vec::new();
        let n = self.logical_len();
        let mut i: usize = 0;
        while i < n
            invariant
                i <= n,
                picks@.len() == i,
                forall|k: int| 0 <= k < i ==> (#[trigger] picks@[k]) == (RowPick { source: 0, row: k as usize }),
            decreases n - i,
        {
            picks.push(RowPick { source: 0, row: i });
            i += 1;
        }
        let sources = [self];
        assert(picked_rows(views(sources@), picks@) =~= self@.rows);
        match gather(sources.as_slice(), &picks) {
            Ok(copy) => copy,
            Err(_) => {
                proof {
                    assert(false);
                }
                Array::from_data(ArrayData::UntypedNull(0))
            },
        }
    }
}

/// The value a scalar puts in a row, or `None` for NULL.
pub open spec fn scalar_datum(v: ScalarValue) -> Option<Datum> {
    match v {
        ScalarValue::Null => None,
        ScalarValue::Boolean(b) => Some(Datum::Boolean(b)),
        ScalarValue::Int8(x) => Some(Datum::Int(x as int)),
        ScalarValue::Int16(x) => Some(Datum::Int(x as int)),
        ScalarValue::Int32(x) => Some(Datum::Int(x as int)),
        ScalarValue::Int64(x) => Some(Datum::Int(x as int)),
        ScalarValue::Int128(x) => Some(Datum::Int(x as int)),
        ScalarValue::UInt8(x) => Some(Datum::Int(x as int)),
        ScalarValue::UInt16(x) => Some(Datum::Int(x as int)),
        ScalarValue::UInt32(x) => Some(Datum::Int(x as int)),
        ScalarValue::UInt64(x) => Some(Datum::Int(x as int)),
        ScalarValue::UInt128(x) => Some(Datum::Int(x as int)),
        ScalarValue::Float32(bits) => Some(Datum::Float(bits as nat)),
        ScalarValue::Float64(bits) => Some(Datum::Float(bits as nat)),
        ScalarValue::Utf8(s) => Some(Datum::Utf8(s@)),
    }
}

fn repeat<S: PhysicalStorage>(value: &S::Type, n: usize) -> (data: ArrayData)
    ensures
        data.spec_physical_type() == S::physical_type(),
        !(data is UntypedNull),
        data.spec_len() == n,
        forall|i: int| 0 <= i < n ==> #[trigger] data.datum(i) == S::datum(*value),
{
    let mut values: Vec<S::Type> = Vec::new();
    let mut i: usize = 0;
    while i < n
        invariant
            i <= n,
            values@.len() == i,
            forall|k: int| 0 <= k < i ==> S::datum(#[trigger] values@[k]) == S::datum(*value),
        decreases n - i,
    {
        values.push(S::copy_value(value));
        i += 1;
    }
    S::into_data(values)
}

impl Array {
    /// An array holding the same scalar in each of `n` rows.
    pub fn from_scalar(value: &ScalarValue, n: usize) -> (a: Array)
        ensures
            a@ == (ArrayView {
                datatype: value.spec_datatype(),
                rows: Seq::new(n as nat, |i: int| scalar_datum(*value)),
            }),
    {
        let data = match value {
            ScalarValue::Null => ArrayData::UntypedNull(n),
            ScalarValue::Boolean(b) => repeat::<PhysicalBool>(b, n),
            ScalarValue::Int8(x) => repeat::<PhysicalI8>(x, n),
            ScalarValue::Int16(x) => repeat::<PhysicalI16>(x, n),
            ScalarValue::Int32(x) => repeat::<PhysicalI32>(x, n),
            ScalarValue::Int64(x) => repeat::<PhysicalI64>(x, n),
            ScalarValue::Int128(x) => repeat::<PhysicalI128>(x, n),
            ScalarValue::UInt8(x) => repeat::<PhysicalU8>(x, n),
            ScalarValue::UInt16(x) => repeat::<PhysicalU16>(x, n),
            ScalarValue::UInt32(x) => repeat::<PhysicalU32>(x, n),
            ScalarValue::UInt64(x) => repeat::<PhysicalU64>(x, n),
            ScalarValue::UInt128(x) => repeat::<PhysicalU128>(x, n),
            ScalarValue::Float32(x) => repeat::<PhysicalF32>(x, n),
            ScalarValue::Float64(x) => repeat::<PhysicalF64>(x, n),
            ScalarValue::Utf8(s) => repeat::<PhysicalUtf8>(s, n),
        };
        let datatype = value.datatype();
        assert(array_rows(data, None) =~= Seq::new(n as nat, |i: int| scalar_datum(*value)));
        Array { datatype, validity: None, data }
    }
}

/// The rows of several arrays, one array after the other.
pub open spec fn concat_rows(sources: Seq<ArrayView>, upto: nat) -> Seq<Option<Datum>>
    decreases upto,
{
    if upto == 0 || upto > sources.len() {
        Seq::empty()
    } else {
        concat_rows(sources, (upto - 1) as nat) + sources[upto - 1].rows
    }
}

/// What concatenating arrays gives: an array of their common type holding
/// their rows, one array after the other; or the message of the error for
/// an empty list or for arrays of different types.
pub open spec fn concat_outcome(sources: Seq<ArrayView>) -> Result<ArrayView, Seq<char>> {
    if sources.len() == 0 {
        Err(no_sources_text())
    } else if !same_types(sources) {
        Err(mixed_types_text())
    } else {
        Ok(ArrayView { datatype: sources[0].datatype, rows: concat_rows(sources, sources.len()) })
    }
}

/// Concatenates arrays of one type into a single array, as
/// `concat_outcome` states.
pub fn concat_arrays(sources: &[&Array]) -> (r: Result<Array, RayexecError>)
    ensures
        array_result_is(r, concat_outcome(views(sources@))),
{
    let mut picks: Vec<RowPick> = Vec::new();
    let mut i: usize = 0;
    while i < sources.len()
        invariant
            i <= sources.len(),
            picks_in_range(views(sources@), picks@),
            picked_rows(views(sources@), picks@) == concat_rows(views(sources@), i as nat),
        decreases sources.len() - i,
    {
        let n = sources[i].logical_len();
        let ghost before = picks@;
        let mut j: usize = 0;
        while j < n
            invariant
                j <= n,
                i < sources.len(),
                n == sources@[i as int]@.rows.len(),
                picks_in_range(views(sources@), picks@),
                picks@.len() == before.len() + j,
                forall|k: int| 0 <= k < before.len() ==> picks@[k] == before[k],
                forall|k: int|
                    0 <= k < j ==> (#[trigger] picks@[before.len() + k]) == (RowPick {
                        source: i,
                        row: k as usize,
                    }),
            decreases n - j,
        {
            picks.push(RowPick { source: i, row: j });
            j += 1;
        }
        proof {
            let joined = picked_rows(views(sources@), before) + sources@[i as int]@.rows;
            assert(picked_rows(views(sources@), picks@).len() == joined.len());
            assert forall|k: int| 0 <= k < joined.len() implies #[trigger] picked_rows(
                views(sources@),
                picks@,
            )[k] == joined[k] by {
                if k >= before.len() {
                    let _ = picks@[before.len() + (k - before.len())];
                }
            }
            assert(picked_rows(views(sources@), picks@) =~= joined);
        }
        i += 1;
    }
    gather(sources, &picks)
}

/// The rows of an array that a mask keeps, in order: the rows whose mask
/// entry, among the first `upto`, is set.
pub open spec fn kept_rows(rows: Seq<Option<Datum>>, keep: Seq<bool>, upto: nat) -> Seq<
    Option<Datum>,
>
    decreases upto,
{
    if upto == 0 || upto > rows.len() || upto > keep.len() {
        Seq::empty()
    } else if keep[upto - 1] {
        kept_rows(rows, keep, (upto - 1) as nat).push(rows[upto - 1])
    } else {
        kept_rows(rows, keep, (upto - 1) as nat)
    }
}

impl Array {
    /// The rows of the array that a mask keeps, as a new array of the same
    /// type. The mask must have one entry per row.
    pub fn filter(&self, keep: &Vec<bool>) -> (r: Array)
        requires
            keep@.len() == self@.rows.len(),
        ensures
            r@ == (ArrayView {
                datatype: self@.datatype,
                rows: kept_rows(self@.rows, keep@, keep@.len()),
            }),
    {
        let mut picks: Vec<RowPick> = Vec::new();
        let n = self.logical_len();
        let sources = [self];
        let mut i: usize = 0;
        while i < n
            invariant
                i <= n,
                n == self@.rows.len(),
                n == keep@.len(),
                sources@.len() == 1,
                sources@[0] == self,
                picks_in_range(views(sources@), picks@),
                picked_rows(views(sources@), picks@) == kept_rows(self@.rows, keep@, i as nat),
            decreases n - i,
        {
            if keep[i] {
                let ghost before = picks@;
                picks.push(RowPick { source: 0, row: i });
                proof {
                    assert(picked_rows(views(sources@), picks@) =~= picked_rows(views(sources@), before).push(
                        self@.rows[i as int],
                    ));
                }
            }
            i += 1;
        }
        match gather(sources.as_slice(), &picks) {
            Ok(kept) => kept,
            Err(_) => {
                proof {
                    assert(false);
                }
                Array::from_data(ArrayData::UntypedNull(0))
            },
        }
    }
}

/// Whether a comparison holds of two rows: of their values where both hold
/// one and the values can be compared, and not where either is NULL.
pub open spec fn rows_hold(op: ComparisonOperator, a: Option<Datum>, b: Option<Datum>) -> Option<
    bool,
> {
    match (a, b) {
        (Some(x), Some(y)) => datum_holds(op, x, y),
        _ => Some(false),
    }
}

impl Array {
    /// Whether a comparison holds of a row of this array and a row of
    /// another, as `rows_hold` states; `None` where the values cannot be
    /// compared or the arrays are stored differently.
    pub fn compare_rows(&self, i: usize, other: &Array, j: usize, op: ComparisonOperator) -> (r:
        Option<bool>)
        requires
            i < self@.rows.len(),
            j < other@.rows.len(),
        ensures
            self@.datatype.spec_physical_type() == other@.datatype.spec_physical_type() ==> r
                == rows_hold(op, self@.rows[i as int], other@.rows[j as int]),
            self@.datatype.spec_physical_type() != other@.datatype.spec_physical_type() ==> r
                is None,
    {
        proof {
            use_type_invariant(self);
            use_type_invariant(other);
        }
        if self.data.physical_type() != other.data.physical_type() {
            return None;
        }
        if !self.is_valid(i) || !other.is_valid(j) {
            return Some(false);
        }
        match (&self.data, &other.data) {
            (ArrayData::Boolean(x), ArrayData::Boolean(y)) => PhysicalBool::holds(&x[i], &y[j], op),
            (ArrayData::Int8(x), ArrayData::Int8(y)) => PhysicalI8::holds(&x[i], &y[j], op),
            (ArrayData::Int16(x), ArrayData::Int16(y)) => PhysicalI16::holds(&x[i], &y[j], op),
            (ArrayData::Int32(x), ArrayData::Int32(y)) => PhysicalI32::holds(&x[i], &y[j], op),
            (ArrayData::Int64(x), ArrayData::Int64(y)) => PhysicalI64::holds(&x[i], &y[j], op),
            (ArrayData::Int128(x), ArrayData::Int128(y)) => PhysicalI128::holds(&x[i], &y[j], op),
            (ArrayData::UInt8(x), ArrayData::UInt8(y)) => PhysicalU8::holds(&x[i], &y[j], op),
            (ArrayData::UInt16(x), ArrayData::UInt16(y)) => PhysicalU16::holds(&x[i], &y[j], op),
            (ArrayData::UInt32(x), ArrayData::UInt32(y)) => PhysicalU32::holds(&x[i], &y[j], op),
            (ArrayData::UInt64(x), ArrayData::UInt64(y)) => PhysicalU64::holds(&x[i], &y[j], op),
            (ArrayData::UInt128(x), ArrayData::UInt128(y)) => PhysicalU128::holds(&x[i], &y[j], op),
            (ArrayData::Float16(x), ArrayData::Float16(y)) => PhysicalF16::holds(&x[i], &y[j], op),
            (ArrayData::Float32(x), ArrayData::Float32(y)) => PhysicalF32::holds(&x[i], &y[j], op),
            (ArrayData::Float64(x), ArrayData::Float64(y)) => PhysicalF64::holds(&x[i], &y[j], op),
            (ArrayData::Utf8(x), ArrayData::Utf8(y)) => PhysicalUtf8::holds(&x[i], &y[j], op),
            _ => None,
        }
    }
}

impl Array {
    /// An array of the same type and length that holds NULL in every row.
    pub fn nulled(&self) -> (r: Array)
        ensures
            r@ == (ArrayView {
                datatype: self@.datatype,
                rows: Seq::new(self@.rows.len(), |i: int| None::<Datum>),
            }),
    {
        proof {
            use_type_invariant(self);
        }
        let data = match &self.data {
            ArrayData::UntypedNull(n) => ArrayData::UntypedNull(*n),
            ArrayData::Boolean(v) => ArrayData::Boolean(v.clone()),
            ArrayData::Int8(v) => ArrayData::Int8(v.clone()),
            ArrayData::Int16(v) => ArrayData::Int16(v.clone()),
            ArrayData::Int32(v) => ArrayData::Int32(v.clone()),
            ArrayData::Int64(v) => ArrayData::Int64(v.clone()),
            ArrayData::Int128(v) => ArrayData::Int128(v.clone()),
            ArrayData::UInt8(v) => ArrayData::UInt8(v.clone()),
            ArrayData::UInt16(v) => ArrayData::UInt16(v.clone()),
            ArrayData::UInt32(v) => ArrayData::UInt32(v.clone()),
            ArrayData::UInt64(v) => ArrayData::UInt64(v.clone()),
            ArrayData::UInt128(v) => ArrayData::UInt128(v.clone()),
            ArrayData::Float16(v) => ArrayData::Float16(v.clone()),
            ArrayData::Float32(v) => ArrayData::Float32(v.clone()),
            ArrayData::Float64(v) => ArrayData::Float64(v.clone()),
            ArrayData::Utf8(v) => ArrayData::Utf8(v.clone()),
        };
        let n = data.len();
        let mut mask: Vec<bool> = Vec::new();
        let mut i: usize = 0;
        while i < n
            invariant
                i <= n,
                mask@.len() == i,
                forall|k: int| 0 <= k < i ==> !(#[trigger] mask@[k]),
            decreases n - i,
        {
            mask.push(false);
            i += 1;
        }
        let validity = Some(mask);
        assert(array_rows(data, validity) =~= Seq::new(self@.rows.len(), |i: int| None::<Datum>));
        Array { datatype: self.datatype.clone(), validity, data }
    }
}

impl Array {
    /// Whether two rows of the array hold the same value, or both NULL.
    pub fn same_rows(&self, i: usize, j: usize) -> (r: bool)
        requires
            i < self@.rows.len(),
            j < self@.rows.len(),
        ensures
            r == (self@.rows[i as int] == self@.rows[j as int]),
    {
        proof {
            use_type_invariant(self);
        }
        let i_valid = self.is_valid(i);
        let j_valid = self.is_valid(j);
        if !i_valid || !j_valid {
            return i_valid == j_valid;
        }
        match &self.data {
            ArrayData::UntypedNull(_) => true,
            ArrayData::Boolean(v) => PhysicalBool::same_value(&v[i], &v[j]),
            ArrayData::Int8(v) => PhysicalI8::same_value(&v[i], &v[j]),
            ArrayData::Int16(v) => PhysicalI16::same_value(&v[i], &v[j]),
            ArrayData::Int32(v) => PhysicalI32::same_value(&v[i], &v[j]),
            ArrayData::Int64(v) => PhysicalI64::same_value(&v[i], &v[j]),
            ArrayData::Int128(v) => PhysicalI128::same_value(&v[i], &v[j]),
            ArrayData::UInt8(v) => PhysicalU8::same_value(&v[i], &v[j]),
            ArrayData::UInt16(v) => PhysicalU16::same_value(&v[i], &v[j]),
            ArrayData::UInt32(v) => PhysicalU32::same_value(&v[i], &v[j]),
            ArrayData::UInt64(v) => PhysicalU64::same_value(&v[i], &v[j]),
            ArrayData::UInt128(v) => PhysicalU128::same_value(&v[i], &v[j]),
            ArrayData::Float16(v) => PhysicalF16::same_value(&v[i], &v[j]),
            ArrayData::Float32(v) => PhysicalF32::same_value(&v[i], &v[j]),
            ArrayData::Float64(v) => PhysicalF64::same_value(&v[i], &v[j]),
            ArrayData::Utf8(v) => PhysicalUtf8::same_value(&v[i], &v[j]),
        }
    }
}

impl Array {
    /// An array of the same type that holds NULL in each of `n` rows.
    pub fn nulls_like(&self, n: usize) -> (r: Array)
        ensures
            r@ == (ArrayView { datatype: self@.datatype, rows: Seq::new(n as nat, |i: int| None::<Datum>) }),
    {
        proof {
            use_type_invariant(self);
        }
        let data = match &self.data {
            ArrayData::UntypedNull(_) => ArrayData::UntypedNull(n),
            ArrayData::Boolean(_) => repeat::<PhysicalBool>(&PhysicalBool::default_value(), n),
            ArrayData::Int8(_) => repeat::<PhysicalI8>(&PhysicalI8::default_value(), n),
            ArrayData::Int16(_) => repeat::<PhysicalI16>(&PhysicalI16::default_value(), n),
            ArrayData::Int32(_) => repeat::<PhysicalI32>(&PhysicalI32::default_value(), n),
            ArrayData::Int64(_) => repeat::<PhysicalI64>(&PhysicalI64::default_value(), n),
            ArrayData::Int128(_) => repeat::<PhysicalI128>(&PhysicalI128::default_value(), n),
            ArrayData::UInt8(_) => repeat::<PhysicalU8>(&PhysicalU8::default_value(), n),
            ArrayData::UInt16(_) => repeat::<PhysicalU16>(&PhysicalU16::default_value(), n),
            ArrayData::UInt32(_) => repeat::<PhysicalU32>(&PhysicalU32::default_value(), n),
            ArrayData::UInt64(_) => repeat::<PhysicalU64>(&PhysicalU64::default_value(), n),
            ArrayData::UInt128(_) => repeat::<PhysicalU128>(&PhysicalU128::default_value(), n),
            ArrayData::Float16(_) => repeat::<PhysicalF16>(&PhysicalF16::default_value(), n),
            ArrayData::Float32(_) => repeat::<PhysicalF32>(&PhysicalF32::default_value(), n),
            ArrayData::Float64(_) => repeat::<PhysicalF64>(&PhysicalF64::default_value(), n),
            ArrayData::Utf8(_) => repeat::<PhysicalUtf8>(&PhysicalUtf8::default_value(), n),
        };
        let mut mask: Vec<bool> = Vec::new();
        let mut i: usize = 0;
        while i < n
            invariant
                i <= n,
                mask@.len() == i,
                forall|k: int| 0 <= k < i ==> !(#[trigger] mask@[k]),
            decreases n - i,
        {
            mask.push(false);
            i += 1;
        }
        let validity = Some(mask);
        assert(array_rows(data, validity) =~= Seq::new(n as nat, |i: int| None::<Datum>));
        Array { datatype: self.datatype.clone(), validity, data }
    }
}

} // verus!
