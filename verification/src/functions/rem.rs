//! The remainder function `%`, with aliases `rem` and `mod`.

use crate::array::{array_result_is, Array};
use crate::bind_context::{TableList, TableView};
use crate::datatype::DataType;
use crate::error::{fails_with, RayexecError};
use crate::executor::binary_outcome;
use crate::expr::Expression;
use crate::functions::arith::{
    arith_datum, arith_plan_outcome, build_numeric_binary_signatures, is_planned,
    numeric_binary_return_type, numeric_binary_signatures, ArithFunction, ArithImpl,
    PlannedScalarFunction,
};
use crate::functions::{
    invalid_input_types_text, num_args_text, FunctionInfo, Signature, SignatureView,
};
use crate::storage::Datum;
use vstd::prelude::*;

verus! {

/// The remainder of a division that truncates toward zero: the Euclidean
/// remainder of the magnitudes, with the sign of the dividend. (The
/// Euclidean remainder `%` does not depend on the sign of the divisor.)
pub open spec fn trunc_rem(a: int, b: int) -> int {
    if a >= 0 {
        a % b
    } else {
        -((-a) % b)
    }
}

/// The remainder of two integer values. A zero divisor is a failure.
pub open spec fn rem_datum(a: Datum, b: Datum) -> Option<Datum> {
    match (a, b) {
        (Datum::Int(x), Datum::Int(y)) => if y == 0 {
            None
        } else {
            Some(Datum::Int(trunc_rem(x, y)))
        },
        _ => None,
    }
}

/// The message of the error for a zero divisor.
pub open spec fn division_by_zero_text() -> Seq<char> {
    "Division by zero"@
}

#[derive(Debug, Clone, Copy, PartialEq, Eq, Structural)]
pub struct Rem;

impl FunctionInfo for Rem {
    open spec fn spec_name(&self) -> Seq<char> {
        "%"@
    }

    open spec fn spec_aliases(&self) -> Seq<Seq<char>> {
        seq!["rem"@, "mod"@]
    }

    open spec fn spec_signatures(&self) -> Seq<SignatureView> {
        numeric_binary_signatures()
    }

    fn name(&self) -> (n: &'static str) {
        "%"
    }

    fn aliases(&self) -> (names: Vec<&'static str>) {
        let mut names: Vec<&'static str> = Vec::new();
        names.push("rem");
        names.push("mod");
        names
    }

    fn signatures(&self) -> (sigs: Vec<Signature>) {
        build_numeric_binary_signatures()
    }
}

/// The implementation of `%` selected for one numeric type.
#[derive(Debug, PartialEq, Eq)]
pub struct RemImpl {
    datatype: DataType,
}

impl Clone for RemImpl {
    fn clone(&self) -> (r: Self)
        ensures
            r == *self,
    {
        RemImpl { datatype: self.datatype.clone() }
    }
}

/// What planning `%` over input expressions gives: the return type, or the
/// message of the error. The number of inputs is checked first, then the
/// inputs are typed from left to right, then their types are matched: both
/// must be the same numeric type, which is the return type.
pub open spec fn rem_plan_outcome(inputs: Seq<Expression>, tables: Seq<TableView>) -> Result<
    DataType,
    Seq<char>,
> {
    arith_plan_outcome(ArithFunction::Rem, inputs, tables)
}

impl Rem {
    /// Plans the function over input expressions, as `rem_plan_outcome`
    /// states. On success the planned function keeps the inputs, returns the
    /// common input type, and holds the implementation of `%` for that
    /// type.
    pub fn plan(&self, table_list: &TableList, inputs: Vec<Expression>) -> (r: Result<
        PlannedScalarFunction,
        RayexecError,
    >)
        ensures
            match rem_plan_outcome(inputs@, table_list@) {
                Ok(t) => r matches Ok(p) && is_planned(p, ArithFunction::Rem, inputs, t),
                Err(msg) => fails_with(r, msg),
            },
    {
        ArithFunction::Rem.plan(table_list, inputs)
    }

    /// Selects the implementation for two input types: the one for their
    /// common type where both are the same numeric type. Fails when no
    /// signature accepts the types.
    pub fn select_impl(&self, a: &DataType, b: &DataType) -> (r: Result<RemImpl, RayexecError>)
        ensures
            match numeric_binary_return_type(*a, *b) {
                Some(t) => r matches Ok(function_impl) && function_impl.spec_datatype() == t,
                None => fails_with(r, invalid_input_types_text("%"@, seq![*a, *b])),
            },
    {
        let datatype = ArithFunction::Rem.return_type(a, b)?;
        Ok(RemImpl::new(datatype))
    }
}

impl RemImpl {
    /// The type of the arrays the implementation returns.
    pub closed spec fn spec_datatype(&self) -> DataType {
        self.datatype
    }

    fn new(datatype: DataType) -> (r: Self)
        ensures
            r.spec_datatype() == datatype,
    {
        RemImpl { datatype }
    }

    pub fn datatype(&self) -> (t: &DataType)
        ensures
            *t == self.spec_datatype(),
    {
        &self.datatype
    }

    /// Whether the implementation computes on integer storage. The
    /// floating-point implementations are not part of this library.
    pub fn is_integer_kernel(&self) -> (r: bool)
        ensures
            r == self.spec_datatype().spec_physical_type().is_integer(),
    {
        self.datatype.physical_type().is_integer_storage()
    }

    /// Computes `a % b` row by row over the first two inputs.
    ///
    /// Fails when there are fewer than two inputs, when an input is not
    /// stored as the implementation's type is,
    /// when the inputs differ in length, or when a divisor is zero in a row
    /// where both inputs hold a value. Otherwise the output has the
    /// implementation's type and one row per input row: NULL where either
    /// input is NULL, else the truncated remainder.
    pub fn execute(&self, inputs: &[&Array]) -> (r: Result<Array, RayexecError>)
        requires
            self.spec_datatype().spec_physical_type().is_integer(),
        ensures
            inputs@.len() < 2 ==> fails_with(r, num_args_text("%"@, 2, inputs@.len())),
            inputs@.len() >= 2 ==> array_result_is(
                r,
                binary_outcome(
                    |x: Datum, y: Datum| rem_datum(x, y),
                    division_by_zero_text(),
                    inputs@[0]@.datatype.spec_physical_type()
                        == self.spec_datatype().spec_physical_type()
                        && inputs@[1]@.datatype.spec_physical_type()
                        == self.spec_datatype().spec_physical_type(),
                    inputs@[0]@,
                    inputs@[1]@,
                    self.spec_datatype(),
                ),
            ),
    {
        let function_impl = ArithImpl::for_function(ArithFunction::Rem, self.datatype.clone());
        assert((|x: Datum, y: Datum|
            arith_datum(ArithFunction::Rem, self.datatype.spec_physical_type(), x, y)) =~= (|
            x: Datum,
            y: Datum,
        | rem_datum(x, y)));
        function_impl.execute(inputs)
    }
}

} // verus!
