//! Kernel executors: the one way kernels iterate over arrays. An executor
//! checks storage and lengths, walks the rows, skips rows where an input is
//! NULL, and builds the output array.

use crate::array::{array_result_is, array_rows, Array, ArrayView};
use crate::datatype::DataType;
use crate::error::RayexecError;
use crate::expr::comparison_expr::ComparisonOperator;
use crate::expr::ConjunctionOperator;
use crate::scalar::ScalarValue;
use crate::storage::{
    datum_holds, ArrayData, Datum, PhysicalBool, PhysicalF16, PhysicalF32, PhysicalF64,
    PhysicalI128, PhysicalI16, PhysicalI32, PhysicalI64, PhysicalI8, PhysicalStorage,
    PhysicalU128, PhysicalU16, PhysicalU32, PhysicalU64, PhysicalU8, PhysicalUtf8,
};
use vstd::prelude::*;

verus! {

/// A row-level operation on two values. `result` says what the operation
/// yields; `None` is a row-level failure, which fails the whole batch.
pub trait BinaryKernel<SA: PhysicalStorage, SB: PhysicalStorage, SO: PhysicalStorage> {
    /// What the operation yields for two values.
    spec fn result(&self, a: Datum, b: Datum) -> Option<Datum>;

    /// The message of the error for a row-level failure.
    spec fn failure_text(&self) -> Seq<char>;

    fn apply(&self, a: &SA::Type, b: &SB::Type) -> (r: Option<SO::Type>)
        ensures
            match r {
                Some(v) => self.result(SA::datum(*a), SB::datum(*b)) == Some(SO::datum(v)),
                None => self.result(SA::datum(*a), SB::datum(*b)) is None,
            },
    ;

    fn failure_message(&self) -> (m: &'static str)
        ensures
            m@ == self.failure_text(),
    ;
}

/// The message of the error for arrays not stored as a kernel expects.
pub open spec fn storage_mismatch_text() -> Seq<char> {
    "Array storage does not match the physical type of the kernel"@
}

/// The message of the error for input arrays of different lengths.
pub open spec fn length_mismatch_text() -> Seq<char> {
    "Cannot execute a kernel on arrays of different lengths"@
}

/// The row a binary kernel produces from two input rows: NULL where either
/// input is NULL, else what the kernel yields.
pub open spec fn binary_row(
    result: spec_fn(Datum, Datum) -> Option<Datum>,
    a: Option<Datum>,
    b: Option<Datum>,
) -> Option<Datum> {
    match (a, b) {
        (Some(x), Some(y)) => result(x, y),
        _ => None,
    }
}

/// Whether a kernel fails on some row where both inputs hold a value.
pub open spec fn binary_fails(
    result: spec_fn(Datum, Datum) -> Option<Datum>,
    a: Seq<Option<Datum>>,
    b: Seq<Option<Datum>>,
) -> bool {
    exists|i: int|
        0 <= i < a.len() && (#[trigger] a[i]) is Some && b[i] is Some && result(
            a[i]->0,
            b[i]->0,
        ) is None
}

/// Whether two arrays and an output type are stored as the three tags say.
pub open spec fn binary_storage_agrees<SA: PhysicalStorage, SB: PhysicalStorage, SO: PhysicalStorage>(
    a: ArrayView,
    b: ArrayView,
    datatype: DataType,
) -> bool {
    &&& a.datatype.spec_physical_type() == SA::physical_type()
    &&& b.datatype.spec_physical_type() == SB::physical_type()
    &&& datatype.spec_physical_type() == SO::physical_type()
}

/// What executing a binary kernel gives: the output array, or the message
/// of the error. Storage is checked first, then the lengths, then the rows.
pub open spec fn binary_outcome(
    result: spec_fn(Datum, Datum) -> Option<Datum>,
    failure_text: Seq<char>,
    storage_agrees: bool,
    a: ArrayView,
    b: ArrayView,
    datatype: DataType,
) -> Result<ArrayView, Seq<char>> {
    if !storage_agrees {
        Err(storage_mismatch_text())
    } else if a.rows.len() != b.rows.len() {
        Err(length_mismatch_text())
    } else if binary_fails(result, a.rows, b.rows) {
        Err(failure_text)
    } else {
        Ok(
            ArrayView {
                datatype,
                rows: Seq::new(a.rows.len(), |i: int| binary_row(result, a.rows[i], b.rows[i])),
            },
        )
    }
}

pub struct BinaryExecutor;

impl BinaryExecutor {
    /// Applies a kernel pairwise to the rows of two arrays.
    ///
    /// Fails when an array is not stored as its tag says, when the lengths
    /// differ, or when the kernel fails on a row where both inputs hold a
    /// value. Otherwise the output has the given type and one row per input
    /// row: NULL where either input is NULL, else the kernel's result.
    pub fn execute<SA, SB, SO, K>(kernel: &K, a: &Array, b: &Array, datatype: DataType) -> (r:
        Result<Array, RayexecError>) where
        SA: PhysicalStorage,
        SB: PhysicalStorage,
        SO: PhysicalStorage,
        K: BinaryKernel<SA, SB, SO>,

        ensures
            array_result_is(
                r,
                binary_outcome(
                    |x: Datum, y: Datum| kernel.result(x, y),
                    kernel.failure_text(),
                    binary_storage_agrees::<SA, SB, SO>(a@, b@, datatype),
                    a@,
                    b@,
                    datatype,
                ),
            ),
    {
        let ghost op = |x: Datum, y: Datum| kernel.result(x, y);
        let a_data = a.data();
        let b_data = b.data();
        let a_validity = a.validity();
        let b_validity = b.validity();
        let a_values = match SA::get_storage(a_data) {
            Some(v) => v,
            None => { return Err(storage_mismatch()); },
        };
        let b_values = match SB::get_storage(b_data) {
            Some(v) => v,
            None => { return Err(storage_mismatch()); },
        };
        let probe = SO::into_data(Vec::new());
        if datatype.physical_type() != probe.physical_type() {
            return Err(storage_mismatch());
        }
        if a_values.len() != b_values.len() {
            return Err(RayexecError::new("Cannot execute a kernel on arrays of different lengths"));
        }
        let n = a_values.len();
        let masked = a_validity.is_some() || b_validity.is_some();
        let mut out: Vec<SO::Type> = Vec::new();
        let mut mask: Vec<bool> = Vec::new();
        let mut i: usize = 0;
        while i < n
            invariant
                i <= n,
                n == a_values@.len(),
                n == b_values@.len(),
                n == a_data.spec_len(),
                n == b_data.spec_len(),
                !(a_data is UntypedNull),
                !(b_data is UntypedNull),
                binary_storage_agrees::<SA, SB, SO>(a@, b@, datatype),
                a@.rows.len() == n,
                b@.rows.len() == n,
                a@.rows == array_rows(*a_data, *a_validity),
                b@.rows == array_rows(*b_data, *b_validity),
                a_validity matches Some(v) ==> v@.len() == n,
                b_validity matches Some(v) ==> v@.len() == n,
                forall|k: int|
                    0 <= k < n ==> SA::datum(#[trigger] a_values@[k]) == a_data.datum(k),
                forall|k: int|
                    0 <= k < n ==> SB::datum(#[trigger] b_values@[k]) == b_data.datum(k),
                op == |x: Datum, y: Datum| kernel.result(x, y),
                out@.len() == i,
                mask@.len() == i,
                forall|k: int|
                    0 <= k < i ==> (#[trigger] mask@[k]) == (a@.rows[k] is Some && b@.rows[k] is Some),
                forall|k: int|
                    0 <= k < i && a@.rows[k] is Some && b@.rows[k] is Some ==> op(
                        a@.rows[k]->0,
                        b@.rows[k]->0,
                    ) == Some(SO::datum(#[trigger] out@[k])),
            decreases n - i,
        {
            let a_valid = match a_validity {
                Some(v) => v[i],
                None => true,
            };
            let b_valid = match b_validity {
                Some(v) => v[i],
                None => true,
            };
            assert(a@.rows[i as int] is Some == a_valid);
            assert(b@.rows[i as int] is Some == b_valid);
            if a_valid && b_valid {
                match kernel.apply(&a_values[i], &b_values[i]) {
                    Some(v) => {
                        out.push(v);
                        mask.push(true);
                    },
                    None => {
                        assert(op(a@.rows[i as int]->0, b@.rows[i as int]->0) is None);
                        assert(binary_fails(op, a@.rows, b@.rows));
                        return Err(RayexecError::new(kernel.failure_message()));
                    },
                }
            } else {
                out.push(SO::default_value());
                mask.push(false);
            }
            i += 1;
        }
        let data = SO::into_data(out);
        let validity = if masked {
            Some(mask)
        } else {
            None
        };
        let ghost expected = Seq::new(
            a@.rows.len(),
            |i: int| binary_row(op, a@.rows[i], b@.rows[i]),
        );
        proof {
            assert forall|k: int|
                0 <= k < n && (#[trigger] a@.rows[k]) is Some && b@.rows[k] is Some implies op(
                a@.rows[k]->0,
                b@.rows[k]->0,
            ) is Some by {
                let _ = out@[k];
            }
            assert forall|k: int| 0 <= k < n implies #[trigger] array_rows(data, validity)[k]
                == expected[k] by {
                let _ = out@[k];
                let _ = mask@[k];
            }
            assert(array_rows(data, validity) =~= expected);
        }
        Array::try_new(datatype, data, validity)
    }
}

fn storage_mismatch() -> (e: RayexecError)
    ensures
        e@.msg == storage_mismatch_text(),
        e@.source is None,
{
    RayexecError::new("Array storage does not match the physical type of the kernel")
}

/// The kernel of a comparison, over any storage.
#[derive(Debug, Clone, Copy, PartialEq, Eq, Structural)]
pub struct ComparisonKernel {
    pub op: ComparisonOperator,
}

/// What a comparison yields for two values: whether it holds, or a failure
/// where the values cannot be compared.
pub open spec fn compare_datum(op: ComparisonOperator, a: Datum, b: Datum) -> Option<Datum> {
    match datum_holds(op, a, b) {
        Some(holds) => Some(Datum::Boolean(holds)),
        None => None,
    }
}

/// The message of the error for values that cannot be compared.
pub open spec fn incomparable_text() -> Seq<char> {
    "Cannot compare values of this type with this operator"@
}

impl<S: PhysicalStorage> BinaryKernel<S, S, PhysicalBool> for ComparisonKernel {
    open spec fn result(&self, a: Datum, b: Datum) -> Option<Datum> {
        compare_datum(self.op, a, b)
    }

    open spec fn failure_text(&self) -> Seq<char> {
        incomparable_text()
    }

    fn apply(&self, a: &S::Type, b: &S::Type) -> (r: Option<bool>) {
        S::holds(a, b, self.op)
    }

    fn failure_message(&self) -> (m: &'static str) {
        "Cannot compare values of this type with this operator"
    }
}

/// Compares two arrays of one storage row by row.
///
/// Fails when the arrays are stored differently or differ in length, or
/// when two values cannot be compared. Otherwise the output is a boolean
/// array with one row per input row: NULL where either input is NULL, else
/// whether the comparison holds.
pub fn compare_arrays(
    op: ComparisonOperator,
    a: &Array,
    b: &Array,
) -> (r: Result<Array, RayexecError>)
    ensures
        array_result_is(
            r,
            binary_outcome(
                |x: Datum, y: Datum| compare_datum(op, x, y),
                incomparable_text(),
                a@.datatype.spec_physical_type() == b@.datatype.spec_physical_type(),
                a@,
                b@,
                DataType::Boolean,
            ),
        ),
{
    let kernel = ComparisonKernel { op };
    if a.datatype().physical_type() != b.datatype().physical_type() {
        return Err(storage_mismatch());
    }
    match a.data() {
        ArrayData::UntypedNull(_) => {
            if a.logical_len() != b.logical_len() {
                return Err(
                    RayexecError::new("Cannot execute a kernel on arrays of different lengths"),
                );
            }
            let out = Array::from_scalar(&ScalarValue::Boolean(false), a.logical_len()).nulled();
            proof {
                let f = |x: Datum, y: Datum| compare_datum(op, x, y);
                assert(!binary_fails(f, a@.rows, b@.rows));
                assert(out@.rows =~= Seq::new(
                    a@.rows.len(),
                    |i: int| binary_row(f, a@.rows[i], b@.rows[i]),
                ));
            }
            Ok(out)
        },
        ArrayData::Boolean(_) => {
            assert((|x: Datum, y: Datum|
                <ComparisonKernel as BinaryKernel<PhysicalBool, PhysicalBool, PhysicalBool>>::result(
                    &kernel,
                    x,
                    y,
                )) =~= (|x: Datum, y: Datum| compare_datum(op, x, y)));
            BinaryExecutor::execute::<PhysicalBool, PhysicalBool, PhysicalBool, ComparisonKernel>(
                &kernel,
                a,
                b,
                DataType::Boolean,
            )
        },
        ArrayData::Int8(_) => {
            assert((|x: Datum, y: Datum|
                <ComparisonKernel as BinaryKernel<PhysicalI8, PhysicalI8, PhysicalBool>>::result(
                    &kernel,
                    x,
                    y,
                )) =~= (|x: Datum, y: Datum| compare_datum(op, x, y)));
            BinaryExecutor::execute::<PhysicalI8, PhysicalI8, PhysicalBool, ComparisonKernel>(
                &kernel,
                a,
                b,
                DataType::Boolean,
            )
        },
        ArrayData::Int16(_) => {
            assert((|x: Datum, y: Datum|
                <ComparisonKernel as BinaryKernel<PhysicalI16, PhysicalI16, PhysicalBool>>::result(
                    &kernel,
                    x,
                    y,
                )) =~= (|x: Datum, y: Datum| compare_datum(op, x, y)));
            BinaryExecutor::execute::<PhysicalI16, PhysicalI16, PhysicalBool, ComparisonKernel>(
                &kernel,
                a,
                b,
                DataType::Boolean,
            )
        },
        ArrayData::Int32(_) => {
            assert((|x: Datum, y: Datum|
                <ComparisonKernel as BinaryKernel<PhysicalI32, PhysicalI32, PhysicalBool>>::result(
                    &kernel,
                    x,
                    y,
                )) =~= (|x: Datum, y: Datum| compare_datum(op, x, y)));
            BinaryExecutor::execute::<PhysicalI32, PhysicalI32, PhysicalBool, ComparisonKernel>(
                &kernel,
                a,
                b,
                DataType::Boolean,
            )
        },
        ArrayData::Int64(_) => {
            assert((|x: Datum, y: Datum|
                <ComparisonKernel as BinaryKernel<PhysicalI64, PhysicalI64, PhysicalBool>>::result(
                    &kernel,
                    x,
                    y,
                )) =~= (|x: Datum, y: Datum| compare_datum(op, x, y)));
            BinaryExecutor::execute::<PhysicalI64, PhysicalI64, PhysicalBool, ComparisonKernel>(
                &kernel,
                a,
                b,
                DataType::Boolean,
            )
        },
        ArrayData::Int128(_) => {
            assert((|x: Datum, y: Datum|
                <ComparisonKernel as BinaryKernel<PhysicalI128, PhysicalI128, PhysicalBool>>::result(
                    &kernel,
                    x,
                    y,
                )) =~= (|x: Datum, y: Datum| compare_datum(op, x, y)));
            BinaryExecutor::execute::<PhysicalI128, PhysicalI128, PhysicalBool, ComparisonKernel>(
                &kernel,
                a,
                b,
                DataType::Boolean,
            )
        },
        ArrayData::UInt8(_) => {
            assert((|x: Datum, y: Datum|
                <ComparisonKernel as BinaryKernel<PhysicalU8, PhysicalU8, PhysicalBool>>::result(
                    &kernel,
                    x,
                    y,
                )) =~= (|x: Datum, y: Datum| compare_datum(op, x, y)));
            BinaryExecutor::execute::<PhysicalU8, PhysicalU8, PhysicalBool, ComparisonKernel>(
                &kernel,
                a,
                b,
                DataType::Boolean,
            )
        },
        ArrayData::UInt16(_) => {
            assert((|x: Datum, y: Datum|
                <ComparisonKernel as BinaryKernel<PhysicalU16, PhysicalU16, PhysicalBool>>::result(
                    &kernel,
                    x,
                    y,
                )) =~= (|x: Datum, y: Datum| compare_datum(op, x, y)));
            BinaryExecutor::execute::<PhysicalU16, PhysicalU16, PhysicalBool, ComparisonKernel>(
                &kernel,
                a,
                b,
                DataType::Boolean,
            )
        },
        ArrayData::UInt32(_) => {
            assert((|x: Datum, y: Datum|
                <ComparisonKernel as BinaryKernel<PhysicalU32, PhysicalU32, PhysicalBool>>::result(
                    &kernel,
                    x,
                    y,
                )) =~= (|x: Datum, y: Datum| compare_datum(op, x, y)));
            BinaryExecutor::execute::<PhysicalU32, PhysicalU32, PhysicalBool, ComparisonKernel>(
                &kernel,
                a,
                b,
                DataType::Boolean,
            )
        },
        ArrayData::UInt64(_) => {
            assert((|x: Datum, y: Datum|
                <ComparisonKernel as BinaryKernel<PhysicalU64, PhysicalU64, PhysicalBool>>::result(
                    &kernel,
                    x,
                    y,
                )) =~= (|x: Datum, y: Datum| compare_datum(op, x, y)));
            BinaryExecutor::execute::<PhysicalU64, PhysicalU64, PhysicalBool, ComparisonKernel>(
                &kernel,
                a,
                b,
                DataType::Boolean,
            )
        },
        ArrayData::UInt128(_) => {
            assert((|x: Datum, y: Datum|
                <ComparisonKernel as BinaryKernel<PhysicalU128, PhysicalU128, PhysicalBool>>::result(
                    &kernel,
                    x,
                    y,
                )) =~= (|x: Datum, y: Datum| compare_datum(op, x, y)));
            BinaryExecutor::execute::<PhysicalU128, PhysicalU128, PhysicalBool, ComparisonKernel>(
                &kernel,
                a,
                b,
                DataType::Boolean,
            )
        },
        ArrayData::Float16(_) => {
            assert((|x: Datum, y: Datum|
                <ComparisonKernel as BinaryKernel<PhysicalF16, PhysicalF16, PhysicalBool>>::result(
                    &kernel,
                    x,
                    y,
                )) =~= (|x: Datum, y: Datum| compare_datum(op, x, y)));
            BinaryExecutor::execute::<PhysicalF16, PhysicalF16, PhysicalBool, ComparisonKernel>(
                &kernel,
                a,
                b,
                DataType::Boolean,
            )
        },
        ArrayData::Float32(_) => {
            assert((|x: Datum, y: Datum|
                <ComparisonKernel as BinaryKernel<PhysicalF32, PhysicalF32, PhysicalBool>>::result(
                    &kernel,
                    x,
                    y,
                )) =~= (|x: Datum, y: Datum| compare_datum(op, x, y)));
            BinaryExecutor::execute::<PhysicalF32, PhysicalF32, PhysicalBool, ComparisonKernel>(
                &kernel,
                a,
                b,
                DataType::Boolean,
            )
        },
        ArrayData::Float64(_) => {
            assert((|x: Datum, y: Datum|
                <ComparisonKernel as BinaryKernel<PhysicalF64, PhysicalF64, PhysicalBool>>::result(
                    &kernel,
                    x,
                    y,
                )) =~= (|x: Datum, y: Datum| compare_datum(op, x, y)));
            BinaryExecutor::execute::<PhysicalF64, PhysicalF64, PhysicalBool, ComparisonKernel>(
                &kernel,
                a,
                b,
                DataType::Boolean,
            )
        },
        ArrayData::Utf8(_) => {
            assert((|x: Datum, y: Datum|
                <ComparisonKernel as BinaryKernel<PhysicalUtf8, PhysicalUtf8, PhysicalBool>>::result(
                    &kernel,
                    x,
                    y,
                )) =~= (|x: Datum, y: Datum| compare_datum(op, x, y)));
            BinaryExecutor::execute::<PhysicalUtf8, PhysicalUtf8, PhysicalBool, ComparisonKernel>(
                &kernel,
                a,
                b,
                DataType::Boolean,
            )
        },
    }
}

/// A row-level operation on one value. `result` says what the operation
/// yields; `None` is a row-level failure, which fails the whole batch.
pub trait UnaryKernel<SI: PhysicalStorage, SO: PhysicalStorage> {
    /// What the operation yields for a value.
    spec fn result(&self, a: Datum) -> Option<Datum>;

    /// The message of the error for a row-level failure.
    spec fn failure_text(&self) -> Seq<char>;

    fn apply(&self, a: &SI::Type) -> (r: Option<SO::Type>)
        ensures
            match r {
                Some(v) => self.result(SI::datum(*a)) == Some(SO::datum(v)),
                None => self.result(SI::datum(*a)) is None,
            },
    ;

    fn failure_message(&self) -> (m: &'static str)
        ensures
            m@ == self.failure_text(),
    ;
}

/// The row a unary kernel produces from an input row: NULL for NULL, else
/// what the kernel yields.
pub open spec fn unary_row(result: spec_fn(Datum) -> Option<Datum>, a: Option<Datum>) -> Option<
    Datum,
> {
    match a {
        Some(x) => result(x),
        None => None,
    }
}

/// Whether a kernel fails on some row that holds a value.
pub open spec fn unary_fails(
    result: spec_fn(Datum) -> Option<Datum>, a: Seq<Option<Datum>>,
) -> bool {
    exists|i: int| 0 <= i < a.len() && (#[trigger] a[i]) is Some && result(a[i]->0) is None
}

/// What executing a unary kernel gives: the output array, or the message
/// of the error. Storage is checked first, then the rows.
pub open spec fn unary_outcome(
    result: spec_fn(Datum) -> Option<Datum>,
    failure_text: Seq<char>,
    storage_agrees: bool,
    a: ArrayView,
    datatype: DataType,
) -> Result<ArrayView, Seq<char>> {
    if !storage_agrees {
        Err(storage_mismatch_text())
    } else if unary_fails(result, a.rows) {
        Err(failure_text)
    } else {
        Ok(
            ArrayView {
                datatype,
                rows: Seq::new(a.rows.len(), |i: int| unary_row(result, a.rows[i])),
            },
        )
    }
}

pub struct UnaryExecutor;

impl UnaryExecutor {
    /// Applies a kernel to each row of an array.
    ///
    /// Fails when the array or the output type is not stored as its tag
    /// says, or when the kernel fails on a row that holds a value.
    /// Otherwise the output has the given type and one row per input row:
    /// NULL where the input is NULL, else the kernel's result.
    pub fn execute<SI, SO, K>(kernel: &K, a: &Array, datatype: DataType) -> (r: Result<
        Array,
        RayexecError,
    >) where SI: PhysicalStorage, SO: PhysicalStorage, K: UnaryKernel<SI, SO>
        ensures
            array_result_is(
                r,
                unary_outcome(
                    |x: Datum| kernel.result(x),
                    kernel.failure_text(),
                    a@.datatype.spec_physical_type() == SI::physical_type()
                        && datatype.spec_physical_type() == SO::physical_type(),
                    a@,
                    datatype,
                ),
            ),
    {
        let ghost op = |x: Datum| kernel.result(x);
        let a_data = a.data();
        let a_validity = a.validity();
        let a_values = match SI::get_storage(a_data) {
            Some(v) => v,
            None => {
                return Err(storage_mismatch());
            },
        };
        let probe = SO::into_data(Vec::new());
        if datatype.physical_type() != probe.physical_type() {
            return Err(storage_mismatch());
        }
        let n = a_values.len();
        let masked = a_validity.is_some();
        let mut out: Vec<SO::Type> = Vec::new();
        let mut mask: Vec<bool> = Vec::new();
        let mut i: usize = 0;
        while i < n
            invariant
                i <= n,
                n == a_values@.len(),
                n == a_data.spec_len(),
                !(a_data is UntypedNull),
                a@.rows == array_rows(*a_data, *a_validity),
                a@.rows.len() == n,
                a_validity matches Some(v) ==> v@.len() == n,
                a@.datatype.spec_physical_type() == SI::physical_type(),
                datatype.spec_physical_type() == SO::physical_type(),
                forall|k: int|
                    0 <= k < n ==> SI::datum(#[trigger] a_values@[k]) == a_data.datum(k),
                op == |x: Datum| kernel.result(x),
                out@.len() == i,
                mask@.len() == i,
                forall|k: int| 0 <= k < i ==> (#[trigger] mask@[k]) == a@.rows[k] is Some,
                forall|k: int|
                    0 <= k < i && a@.rows[k] is Some ==> op(a@.rows[k]->0) == Some(
                        SO::datum(#[trigger] out@[k]),
                    ),
            decreases n - i,
        {
            let a_valid = match a_validity {
                Some(v) => v[i],
                None => true,
            };
            assert(a@.rows[i as int] is Some == a_valid);
            if a_valid {
                match kernel.apply(&a_values[i]) {
                    Some(v) => {
                        out.push(v);
                        mask.push(true);
                    },
                    None => {
                        assert(op(a@.rows[i as int]->0) is None);
                        assert(unary_fails(op, a@.rows));
                        return Err(RayexecError::new(kernel.failure_message()));
                    },
                }
            } else {
                out.push(SO::default_value());
                mask.push(false);
            }
            i += 1;
        }
        let data = SO::into_data(out);
        let validity = if masked {
            Some(mask)
        } else {
            None
        };
        let ghost expected = Seq::new(a@.rows.len(), |i: int| unary_row(op, a@.rows[i]));
        proof {
            assert forall|k: int| 0 <= k < n && (#[trigger] a@.rows[k]) is Some implies op(
                a@.rows[k]->0,
            ) is Some by {
                let _ = out@[k];
            }
            assert forall|k: int| 0 <= k < n implies #[trigger] array_rows(data, validity)[k]
                == expected[k] by {
                let _ = out@[k];
                let _ = mask@[k];
            }
            assert(array_rows(data, validity) =~= expected);
        }
        Array::try_new(datatype, data, validity)
    }
}

/// The conjunction or disjunction of two boolean rows in three-valued
/// logic: false wins a conjunction and true a disjunction, even over NULL;
/// otherwise a NULL operand gives NULL.
pub open spec fn conjunction_row(op: ConjunctionOperator, a: Option<Datum>, b: Option<Datum>) -> Option<
    Datum,
> {
    let decided = match op {
        ConjunctionOperator::And => false,
        ConjunctionOperator::Or => true,
    };
    if a == Some(Datum::Boolean(decided)) || b == Some(Datum::Boolean(decided)) {
        Some(Datum::Boolean(decided))
    } else if a is Some && b is Some {
        Some(Datum::Boolean(!decided))
    } else {
        None
    }
}

/// The message of the error for a conjunction of arrays that are not
/// boolean.
pub open spec fn conjunction_type_text() -> Seq<char> {
    "Conjunction needs boolean arrays"@
}

/// What the conjunction or disjunction of two arrays gives: a boolean
/// array, row by row as `conjunction_row` states; or the message of the
/// error where an array is not boolean or the lengths differ.
pub open spec fn conjunction_outcome(op: ConjunctionOperator, a: ArrayView, b: ArrayView) -> Result<
    ArrayView,
    Seq<char>,
> {
    if a.datatype != DataType::Boolean || b.datatype != DataType::Boolean {
        Err(conjunction_type_text())
    } else if a.rows.len() != b.rows.len() {
        Err(length_mismatch_text())
    } else {
        Ok(
            ArrayView {
                datatype: DataType::Boolean,
                rows: Seq::new(a.rows.len(), |i: int| conjunction_row(op, a.rows[i], b.rows[i])),
            },
        )
    }
}

/// Combines two boolean arrays row by row in three-valued logic, as
/// `conjunction_outcome` states.
pub fn conjunction_arrays(op: ConjunctionOperator, a: &Array, b: &Array) -> (r: Result<
    Array,
    RayexecError,
>)
    ensures
        array_result_is(r, conjunction_outcome(op, a@, b@)),
{
    if !(*a.datatype() == DataType::Boolean) || !(*b.datatype() == DataType::Boolean) {
        return Err(RayexecError::new("Conjunction needs boolean arrays"));
    }
    if a.logical_len() != b.logical_len() {
        return Err(RayexecError::new("Cannot execute a kernel on arrays of different lengths"));
    }
    let a_data = a.data();
    let b_data = b.data();
    let (a_values, b_values) = match (
        PhysicalBool::get_storage(a_data),
        PhysicalBool::get_storage(b_data),
    ) {
        (Some(x), Some(y)) => (x, y),
        _ => {
            proof {
                assert(false);
            }
            return Err(RayexecError::new("Conjunction needs boolean arrays"));
        },
    };
    let decided = match op {
        ConjunctionOperator::And => false,
        ConjunctionOperator::Or => true,
    };
    let n = a.logical_len();
    let mut out: Vec<bool> = Vec::new();
    let mut mask: Vec<bool> = Vec::new();
    let mut i: usize = 0;
    while i < n
        invariant
            i <= n,
            n == a@.rows.len(),
            n == b@.rows.len(),
            n == a_values@.len(),
            n == b_values@.len(),
            a_data.spec_len() == n,
            b_data.spec_len() == n,
            !(a_data is UntypedNull),
            !(b_data is UntypedNull),
            a@.rows == array_rows(*a_data, a.spec_validity()),
            b@.rows == array_rows(*b_data, b.spec_validity()),
            forall|k: int|
                0 <= k < n ==> PhysicalBool::datum(#[trigger] a_values@[k]) == a_data.datum(k),
            forall|k: int|
                0 <= k < n ==> PhysicalBool::datum(#[trigger] b_values@[k]) == b_data.datum(k),
            decided == (op == ConjunctionOperator::Or),
            out@.len() == i,
            mask@.len() == i,
            forall|k: int|
                0 <= k < i ==> (if (#[trigger] mask@[k]) {
                    Some(Datum::Boolean(out@[k]))
                } else {
                    None
                }) == conjunction_row(op, a@.rows[k], b@.rows[k]),
        decreases n - i,
    {
        let a_valid = a.is_valid(i);
        let b_valid = b.is_valid(i);
        let x = a_values[i];
        let y = b_values[i];
        if (a_valid && x == decided) || (b_valid && y == decided) {
            out.push(decided);
            mask.push(true);
        } else if a_valid && b_valid {
            out.push(!decided);
            mask.push(true);
        } else {
            out.push(false);
            mask.push(false);
        }
        i += 1;
    }
    let data = ArrayData::Boolean(out);
    let validity = Some(mask);
    proof {
        let expected = Seq::new(
            a@.rows.len(),
            |i: int| conjunction_row(op, a@.rows[i], b@.rows[i]),
        );
        assert forall|k: int| 0 <= k < n implies #[trigger] array_rows(data, validity)[k]
            == expected[k] by {
            let _ = mask@[k];
        }
        assert(array_rows(data, validity) =~= expected);
    }
    Array::try_new(DataType::Boolean, data, validity)
}

} // verus!
