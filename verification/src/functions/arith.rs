//! The arithmetic family of scalar functions. Each member takes two
//! arguments of one numeric type and returns that type.

use crate::array::{array_result_is, Array, ArrayView};
use crate::bind_context::{TableList, TableView};
use crate::datatype::{DataType, DataTypeId, PhysicalType};
use crate::error::{fails_with, RayexecError};
use crate::executor::{binary_outcome, BinaryExecutor, BinaryKernel};
use crate::expr::{expr_datatype, Expression};
use crate::functions::arith_kernels::ArithKernel;
use crate::functions::rem::{division_by_zero_text, rem_datum};
use crate::functions::{
    id_accepts, invalid_input_types_error, invalid_input_types_text, num_args_text,
    plan_check_num_args, signature_accepts, FunctionInfo, Signature, SignatureView,
};
use crate::storage::{
    Datum, PhysicalI128, PhysicalI16, PhysicalI32, PhysicalI64, PhysicalI8, PhysicalU128,
    PhysicalU16, PhysicalU32, PhysicalU64, PhysicalU8,
};
use crate::text::{nat_text, unsigned_to_string};
use vstd::arithmetic::div_mod::lemma_fundamental_div_mod_converse;
use vstd::prelude::*;

verus! {

/// The numeric types, in the order in which the arithmetic signatures list
/// them.
pub open spec fn numeric_type_ids() -> Seq<DataTypeId> {
    seq![
        DataTypeId::Float16,
        DataTypeId::Float32,
        DataTypeId::Float64,
        DataTypeId::Int8,
        DataTypeId::Int16,
        DataTypeId::Int32,
        DataTypeId::Int64,
        DataTypeId::Int128,
        DataTypeId::UInt8,
        DataTypeId::UInt16,
        DataTypeId::UInt32,
        DataTypeId::UInt64,
        DataTypeId::UInt128,
    ]
}

/// The signature `(T, T) -> T`.
pub open spec fn binary_signature(id: DataTypeId) -> SignatureView {
    SignatureView { input: seq![id, id], variadic: None, return_type: id }
}

/// The signatures of an arithmetic function: `(T, T) -> T` for each numeric
/// type.
pub open spec fn numeric_binary_signatures() -> Seq<SignatureView> {
    numeric_type_ids().map_values(|id: DataTypeId| binary_signature(id))
}

/// The type an arithmetic function returns for two argument types, if it
/// accepts them: both must be the same numeric type.
pub open spec fn numeric_binary_return_type(a: DataType, b: DataType) -> Option<DataType> {
    if a == b && a.spec_is_numeric() {
        Some(a)
    } else {
        None
    }
}

/// Builds the signatures `(T, T) -> T` for each numeric type.
pub fn build_numeric_binary_signatures() -> (sigs: Vec<Signature>)
    ensures
        sigs@.len() == numeric_binary_signatures().len(),
        forall|i: int| 0 <= i < sigs@.len() ==> (#[trigger] sigs@[i])@ == numeric_binary_signatures()[i],
{
    let ids = [
        DataTypeId::Float16,
        DataTypeId::Float32,
        DataTypeId::Float64,
        DataTypeId::Int8,
        DataTypeId::Int16,
        DataTypeId::Int32,
        DataTypeId::Int64,
        DataTypeId::Int128,
        DataTypeId::UInt8,
        DataTypeId::UInt16,
        DataTypeId::UInt32,
        DataTypeId::UInt64,
        DataTypeId::UInt128,
    ];
    assert(ids@ =~= numeric_type_ids());
    let mut sigs: Vec<Signature> = Vec::new();
    let mut i: usize = 0;
    while i < 13
        invariant
            i <= 13,
            ids@ == numeric_type_ids(),
            sigs@.len() == i,
            forall|k: int| 0 <= k < i ==> (#[trigger] sigs@[k])@ == binary_signature(ids@[k]),
        decreases 13 - i,
    {
        let id = ids[i];
        let mut input: Vec<DataTypeId> = Vec::new();
        input.push(id);
        input.push(id);
        assert(input@ =~= seq![id, id]);
        sigs.push(Signature { input, variadic: None, return_type: id });
        i += 1;
    }
    sigs
}

/// The arithmetic functions.
#[derive(Debug, Clone, Copy, PartialEq, Eq, Hash, Structural)]
pub enum ArithFunction {
    Add,
    Sub,
    Div,
    Mul,
    Rem,
}

impl FunctionInfo for ArithFunction {
    open spec fn spec_name(&self) -> Seq<char> {
        match *self {
            ArithFunction::Add => "+"@,
            ArithFunction::Sub => "-"@,
            ArithFunction::Div => "/"@,
            ArithFunction::Mul => "*"@,
            ArithFunction::Rem => "%"@,
        }
    }

    open spec fn spec_aliases(&self) -> Seq<Seq<char>> {
        match *self {
            ArithFunction::Add => seq!["add"@],
            ArithFunction::Sub => seq!["sub"@],
            ArithFunction::Div => seq!["div"@],
            ArithFunction::Mul => seq!["mul"@],
            ArithFunction::Rem => seq!["rem"@, "mod"@],
        }
    }

    open spec fn spec_signatures(&self) -> Seq<SignatureView> {
        numeric_binary_signatures()
    }

    fn name(&self) -> (n: &'static str) {
        match self {
            ArithFunction::Add => "+",
            ArithFunction::Sub => "-",
            ArithFunction::Div => "/",
            ArithFunction::Mul => "*",
            ArithFunction::Rem => "%",
        }
    }

    fn aliases(&self) -> (names: Vec<&'static str>) {
        let mut names: Vec<&'static str> = Vec::new();
        match self {
            ArithFunction::Add => names.push("add"),
            ArithFunction::Sub => names.push("sub"),
            ArithFunction::Div => names.push("div"),
            ArithFunction::Mul => names.push("mul"),
            ArithFunction::Rem => {
                names.push("rem");
                names.push("mod");
            },
        }
        names
    }

    fn signatures(&self) -> (sigs: Vec<Signature>) {
        build_numeric_binary_signatures()
    }
}

impl ArithFunction {
    /// The type the function returns for two argument types; fails when no
    /// signature accepts them.
    pub fn return_type(&self, a: &DataType, b: &DataType) -> (r: Result<DataType, RayexecError>)
        ensures
            match numeric_binary_return_type(*a, *b) {
                Some(t) => r == Ok::<DataType, RayexecError>(t),
                None => r matches Err(e) && e@.msg == invalid_input_types_text(
                    self.spec_name(),
                    seq![*a, *b],
                ) && e@.source is None,
            },
    {
        if a.is_numeric() && *a == *b {
            Ok(a.clone())
        } else {
            let mut got: Vec<DataType> = Vec::new();
            got.push(a.clone());
            got.push(b.clone());
            assert(got@ =~= seq![*a, *b]);
            Err(invalid_input_types_error(self, &got))
        }
    }
}

/// An arithmetic function accepts two argument types exactly when they are
/// the same type and one of its signatures lists their identifiers.
pub proof fn lemma_return_type_follows_signatures(a: DataType, b: DataType)
    ensures
        numeric_binary_return_type(a, b) is Some <==> a == b && exists|i: int|
            0 <= i < numeric_binary_signatures().len() && signature_accepts(
                #[trigger] numeric_binary_signatures()[i],
                seq![a.spec_datatype_id(), b.spec_datatype_id()],
            ),
{
    let ids = numeric_type_ids();
    let sigs = numeric_binary_signatures();
    let got = seq![a.spec_datatype_id(), b.spec_datatype_id()];
    if numeric_binary_return_type(a, b) is Some {
        let i = choose|i: int| 0 <= i < 13 && ids[i] == a.spec_datatype_id();
        assert(sigs[i] == binary_signature(ids[i]));
        assert(signature_accepts(sigs[i], got));
    }
    if a == b && exists|i: int| 0 <= i < sigs.len() && signature_accepts(#[trigger] sigs[i], got) {
        let i = choose|i: int| 0 <= i < sigs.len() && signature_accepts(#[trigger] sigs[i], got);
        assert(sigs[i] == binary_signature(ids[i]));
        assert(id_accepts(sigs[i].input[0], got[0]));
    }
}

/// An integer brought into a range of `max - min + 1` values as two's
/// complement arithmetic does: by adding or subtracting the size of the
/// range as often as needed.
pub open spec fn wrap(min: int, max: int, x: int) -> int {
    let range = max - min + 1;
    let m = x % range;
    if m > max {
        m - range
    } else {
        m
    }
}

/// An integer wrapped into the values of an integer storage.
pub open spec fn wrap_to(storage: PhysicalType, x: int) -> int {
    wrap(storage.min_value(), storage.max_value(), x)
}

/// The quotient of a division that truncates toward zero: the Euclidean
/// quotient of the dividend's magnitude, with the sign of the dividend
/// applied.
pub open spec fn trunc_div(a: int, b: int) -> int {
    if a >= 0 {
        a / b
    } else {
        -((-a) / b)
    }
}

/// What an arithmetic function yields for two values stored as integers of
/// a storage. Sums, differences, products and quotients wrap into the
/// storage; a zero divisor is a failure.
pub open spec fn arith_datum(function: ArithFunction, storage: PhysicalType, a: Datum, b: Datum) -> Option<
    Datum,
> {
    match (a, b) {
        (Datum::Int(x), Datum::Int(y)) => match function {
            ArithFunction::Add => Some(Datum::Int(wrap_to(storage, x + y))),
            ArithFunction::Sub => Some(Datum::Int(wrap_to(storage, x - y))),
            ArithFunction::Mul => Some(Datum::Int(wrap_to(storage, x * y))),
            ArithFunction::Div => if y == 0 {
                None
            } else {
                Some(Datum::Int(wrap_to(storage, trunc_div(x, y))))
            },
            ArithFunction::Rem => rem_datum(a, b),
        },
        _ => None,
    }
}

/// The arithmetic negation of a value stored as an integer of a storage,
/// wrapped into the storage. Other values cannot be negated.
pub open spec fn negate_datum(storage: PhysicalType, a: Datum) -> Option<Datum> {
    match a {
        Datum::Int(x) => Some(Datum::Int(wrap_to(storage, -x))),
        _ => None,
    }
}

/// The boolean negation of a value. Other values cannot be negated.
pub open spec fn not_datum(a: Datum) -> Option<Datum> {
    match a {
        Datum::Boolean(x) => Some(Datum::Boolean(!x)),
        _ => None,
    }
}

/// Wrapping changes nothing within the range, and brings a value that is
/// less than one range away back by one range.
pub proof fn lemma_wrap_near(min: int, max: int, x: int)
    requires
        min <= 0 <= max,
        min == 0 || min == -max - 1,
        min - (max - min + 1) <= x <= max + (max - min + 1),
    ensures
        wrap(min, max, x) == (if x > max {
            x - (max - min + 1)
        } else if x < min {
            x + (max - min + 1)
        } else {
            x
        }),
{
    let range = max - min + 1;
    if 0 <= x < range {
        lemma_fundamental_div_mod_converse(x, range, 0, x);
    } else if x >= range {
        if x - range < range {
            lemma_fundamental_div_mod_converse(x, range, 1, x - range);
        } else {
            lemma_fundamental_div_mod_converse(x, range, 2, x - 2 * range);
        }
    } else if x >= -range {
        lemma_fundamental_div_mod_converse(x, range, -1, x + range);
    } else {
        lemma_fundamental_div_mod_converse(x, range, -2, x + 2 * range);
    }
}

/// Dividing by minus one negates.
pub proof fn lemma_div_minus_one(x: int)
    ensures
        trunc_div(x, -1) == -x,
{
    assert(x >= 0 ==> x / -1 == -x) by (nonlinear_arith);
    assert(x < 0 ==> (-x) / -1 == x) by (nonlinear_arith);
}

/// A truncated quotient stays within the range of its dividend, but for the
/// least value of a signed range divided by minus one.
pub proof fn lemma_trunc_div_in_range(min: int, max: int, a: int, b: int)
    requires
        min <= 0 <= max,
        min == 0 || min == -max - 1,
        min <= a <= max,
        b != 0,
        b != -1 || a != min || min == 0,
        min == 0 ==> b > 0,
    ensures
        min <= trunc_div(a, b) <= max,
{
    assert(a >= 0 && b > 0 ==> 0 <= a / b <= a) by (nonlinear_arith);
    assert(a >= 0 && b < 0 ==> -a <= a / b <= 0) by (nonlinear_arith);
    assert(a < 0 && b > 0 ==> 0 <= (-a) / b <= -a) by (nonlinear_arith);
    assert(a < 0 && b < 0 ==> a <= (-a) / b <= 0) by (nonlinear_arith);
    assert(a < 0 && b <= -2 ==> 2 * ((-a) / b) >= a) by (nonlinear_arith);
}

/// The implementation of an arithmetic function selected for one numeric
/// type.
#[derive(Debug, PartialEq, Eq)]
pub struct ArithImpl {
    function: ArithFunction,
    datatype: DataType,
}

impl Clone for ArithImpl {
    fn clone(&self) -> (r: Self)
        ensures
            r == *self,
    {
        ArithImpl { function: self.function, datatype: self.datatype.clone() }
    }
}

/// A scalar function bound to its inputs: the function, the type it
/// returns, the input expressions, and the implementation selected for the
/// input types.
#[derive(Debug, PartialEq, Eq)]
pub struct PlannedScalarFunction {
    pub function: ArithFunction,
    pub return_type: DataType,
    pub inputs: Vec<Expression>,
    pub function_impl: ArithImpl,
}

/// What planning an arithmetic function over input expressions gives: the
/// return type, or the message of the error. The number of inputs is
/// checked first, then the inputs are typed from left to right, then their
/// types are matched.
pub open spec fn arith_plan_outcome(
    function: ArithFunction,
    inputs: Seq<Expression>,
    tables: Seq<TableView>,
) -> Result<DataType, Seq<char>> {
    if inputs.len() != 2 {
        Err(num_args_text(function.spec_name(), 2, inputs.len()))
    } else {
        match expr_datatype(inputs[0], tables) {
            Err(msg) => Err(msg),
            Ok(a) => match expr_datatype(inputs[1], tables) {
                Err(msg) => Err(msg),
                Ok(b) => match numeric_binary_return_type(a, b) {
                    Some(t) => Ok(t),
                    None => Err(invalid_input_types_text(function.spec_name(), seq![a, b])),
                },
            },
        }
    }
}

/// Whether a planned function is the plan of a function over inputs with a
/// return type: it keeps the function and the inputs, returns the type, and
/// holds the function's implementation for that type.
pub open spec fn is_planned(
    planned: PlannedScalarFunction,
    function: ArithFunction,
    inputs: Vec<Expression>,
    return_type: DataType,
) -> bool {
    &&& planned.function == function
    &&& planned.return_type == return_type
    &&& planned.inputs == inputs
    &&& planned.function_impl.spec_function() == function
    &&& planned.function_impl.spec_datatype() == return_type
}

impl ArithFunction {
    /// Plans the function over input expressions, as `arith_plan_outcome`
    /// states.
    pub fn plan(&self, table_list: &TableList, inputs: Vec<Expression>) -> (r: Result<
        PlannedScalarFunction,
        RayexecError,
    >)
        ensures
            match arith_plan_outcome(*self, inputs@, table_list@) {
                Ok(t) => r matches Ok(p) && is_planned(p, *self, inputs, t),
                Err(msg) => fails_with(r, msg),
            },
    {
        plan_check_num_args(self, &inputs, 2)?;
        let a = inputs[0].datatype(table_list)?;
        let b = inputs[1].datatype(table_list)?;
        let function_impl = self.select_impl(&a, &b)?;
        Ok(PlannedScalarFunction { function: *self, return_type: a, inputs, function_impl })
    }

    /// Selects the implementation for two input types: the one for their
    /// common type where both are the same numeric type. Fails when no
    /// signature accepts the types.
    pub fn select_impl(&self, a: &DataType, b: &DataType) -> (r: Result<ArithImpl, RayexecError>)
        ensures
            match numeric_binary_return_type(*a, *b) {
                Some(t) => r matches Ok(function_impl) && function_impl.spec_datatype() == t
                    && function_impl.spec_function() == *self,
                None => fails_with(r, invalid_input_types_text(self.spec_name(), seq![*a, *b])),
            },
    {
        let datatype = self.return_type(a, b)?;
        Ok(ArithImpl { function: *self, datatype })
    }
}

/// If an arithmetic function accepts two input types, then what its
/// implementation for them gives on arrays stored as those types, where it
/// gives an array, is an array of the declared return type with as many
/// rows as each input.
pub proof fn lemma_execution_matches_plan(
    function: ArithFunction,
    a_type: DataType,
    b_type: DataType,
    a: ArrayView,
    b: ArrayView,
)
    requires
        numeric_binary_return_type(a_type, b_type) is Some,
        a.datatype.spec_physical_type() == a_type.spec_physical_type(),
        b.datatype.spec_physical_type() == b_type.spec_physical_type(),
        binary_outcome(
            |x: Datum, y: Datum| arith_datum(function, a_type.spec_physical_type(), x, y),
            division_by_zero_text(),
            true,
            a,
            b,
            numeric_binary_return_type(a_type, b_type)->0,
        ) is Ok,
    ensures
        ({
            let out = binary_outcome(
                |x: Datum, y: Datum| arith_datum(function, a_type.spec_physical_type(), x, y),
                division_by_zero_text(),
                true,
                a,
                b,
                numeric_binary_return_type(a_type, b_type)->0,
            )->Ok_0;
            &&& out.datatype == numeric_binary_return_type(a_type, b_type)->0
            &&& out.rows.len() == a.rows.len()
            &&& out.rows.len() == b.rows.len()
        }),
{
}

impl ArithImpl {
    /// The implementation of a function for a type.
    pub(crate) fn for_function(function: ArithFunction, datatype: DataType) -> (r: Self)
        ensures
            r.spec_function() == function,
            r.spec_datatype() == datatype,
    {
        ArithImpl { function, datatype }
    }

    /// The function that the implementation computes.
    pub closed spec fn spec_function(&self) -> ArithFunction {
        self.function
    }

    /// The type of the arrays the implementation returns.
    pub closed spec fn spec_datatype(&self) -> DataType {
        self.datatype
    }

    pub fn function(&self) -> (f: ArithFunction)
        ensures
            f == self.spec_function(),
    {
        self.function
    }

    pub fn datatype(&self) -> (t: &DataType)
        ensures
            *t == self.spec_datatype(),
    {
        &self.datatype
    }

    /// Whether the implementation computes on integer storage. The
    /// floating-point implementations are not part of this library.
    pub fn is_integer_kernel(&self) -> (r: bool)
        ensures
            r == self.spec_datatype().spec_physical_type().is_integer(),
    {
        self.datatype.physical_type().is_integer_storage()
    }

    /// Applies the function row by row to the first two inputs.
    ///
    /// Fails when there are fewer than two inputs, when an input is not
    /// stored as the implementation's type is,
    /// when the inputs differ in length, or when a divisor is zero in a row
    /// where both inputs hold a value. Otherwise the output has the
    /// implementation's type and one row per input row: NULL where either
    /// input is NULL, else what `arith_datum` states.
    pub fn execute(&self, inputs: &[&Array]) -> (r: Result<Array, RayexecError>)
        requires
            self.spec_datatype().spec_physical_type().is_integer(),
        ensures
            inputs@.len() < 2 ==> fails_with(
                r,
                num_args_text(self.spec_function().spec_name(), 2, inputs@.len()),
            ),
            inputs@.len() >= 2 ==> array_result_is(
                r,
                binary_outcome(
                    |x: Datum, y: Datum|
                        arith_datum(
                            self.spec_function(),
                            self.spec_datatype().spec_physical_type(),
                            x,
                            y,
                        ),
                    division_by_zero_text(),
                    inputs@[0]@.datatype.spec_physical_type()
                        == self.spec_datatype().spec_physical_type()
                        && inputs@[1]@.datatype.spec_physical_type()
                        == self.spec_datatype().spec_physical_type(),
                    inputs@[0]@,
                    inputs@[1]@,
                    self.spec_datatype(),
                ),
            ),
    {
        if inputs.len() < 2 {
            let mut msg = String::from_str("Expected 2 inputs for '");
            msg.append(self.function.name());
            msg.append("', received ");
            msg.append(unsigned_to_string(inputs.len() as u128).as_str());
            proof {
                reveal_strlit("Expected ");
                reveal_strlit(" inputs");
                reveal_strlit(" for '");
                reveal_strlit("Expected 2 inputs for '");
                reveal_strlit("2");
                assert(nat_text(2) =~= "2"@);
                assert("Expected 2 inputs for '"@ =~= "Expected "@ + nat_text(2) + " inputs"@
                    + " for '"@);
            }
            return Err(RayexecError::new(msg.as_str()));
        }
        let a = inputs[0];
        let b = inputs[1];
        let datatype = self.datatype.clone();
        let kernel = ArithKernel { function: self.function };
        match self.datatype.physical_type() {
            PhysicalType::Int8 => {
                assert((|x: Datum, y: Datum|
                    <ArithKernel as BinaryKernel<PhysicalI8, PhysicalI8, PhysicalI8>>::result(
                        &kernel,
                        x,
                        y,
                    )) =~= (|x: Datum, y: Datum|
                    arith_datum(self.function, self.datatype.spec_physical_type(), x, y)));
                BinaryExecutor::execute::<PhysicalI8, PhysicalI8, PhysicalI8, ArithKernel>(
                    &kernel,
                    a,
                    b,
                    datatype,
                )
            },
            PhysicalType::Int16 => {
                assert((|x: Datum, y: Datum|
                    <ArithKernel as BinaryKernel<PhysicalI16, PhysicalI16, PhysicalI16>>::result(
                        &kernel,
                        x,
                        y,
                    )) =~= (|x: Datum, y: Datum|
                    arith_datum(self.function, self.datatype.spec_physical_type(), x, y)));
                BinaryExecutor::execute::<PhysicalI16, PhysicalI16, PhysicalI16, ArithKernel>(
                    &kernel,
                    a,
                    b,
                    datatype,
                )
            },
            PhysicalType::Int32 => {
                assert((|x: Datum, y: Datum|
                    <ArithKernel as BinaryKernel<PhysicalI32, PhysicalI32, PhysicalI32>>::result(
                        &kernel,
                        x,
                        y,
                    )) =~= (|x: Datum, y: Datum|
                    arith_datum(self.function, self.datatype.spec_physical_type(), x, y)));
                BinaryExecutor::execute::<PhysicalI32, PhysicalI32, PhysicalI32, ArithKernel>(
                    &kernel,
                    a,
                    b,
                    datatype,
                )
            },
            PhysicalType::Int64 => {
                assert((|x: Datum, y: Datum|
                    <ArithKernel as BinaryKernel<PhysicalI64, PhysicalI64, PhysicalI64>>::result(
                        &kernel,
                        x,
                        y,
                    )) =~= (|x: Datum, y: Datum|
                    arith_datum(self.function, self.datatype.spec_physical_type(), x, y)));
                BinaryExecutor::execute::<PhysicalI64, PhysicalI64, PhysicalI64, ArithKernel>(
                    &kernel,
                    a,
                    b,
                    datatype,
                )
            },
            PhysicalType::Int128 => {
                assert((|x: Datum, y: Datum|
                    <ArithKernel as BinaryKernel<PhysicalI128, PhysicalI128, PhysicalI128>>::result(
                        &kernel,
                        x,
                        y,
                    )) =~= (|x: Datum, y: Datum|
                    arith_datum(self.function, self.datatype.spec_physical_type(), x, y)));
                BinaryExecutor::execute::<PhysicalI128, PhysicalI128, PhysicalI128, ArithKernel>(
                    &kernel,
                    a,
                    b,
                    datatype,
                )
            },
            PhysicalType::UInt8 => {
                assert((|x: Datum, y: Datum|
                    <ArithKernel as BinaryKernel<PhysicalU8, PhysicalU8, PhysicalU8>>::result(
                        &kernel,
                        x,
                        y,
                    )) =~= (|x: Datum, y: Datum|
                    arith_datum(self.function, self.datatype.spec_physical_type(), x, y)));
                BinaryExecutor::execute::<PhysicalU8, PhysicalU8, PhysicalU8, ArithKernel>(
                    &kernel,
                    a,
                    b,
                    datatype,
                )
            },
            PhysicalType::UInt16 => {
                assert((|x: Datum, y: Datum|
                    <ArithKernel as BinaryKernel<PhysicalU16, PhysicalU16, PhysicalU16>>::result(
                        &kernel,
                        x,
                        y,
                    )) =~= (|x: Datum, y: Datum|
                    arith_datum(self.function, self.datatype.spec_physical_type(), x, y)));
                BinaryExecutor::execute::<PhysicalU16, PhysicalU16, PhysicalU16, ArithKernel>(
                    &kernel,
                    a,
                    b,
                    datatype,
                )
            },
            PhysicalType::UInt32 => {
                assert((|x: Datum, y: Datum|
                    <ArithKernel as BinaryKernel<PhysicalU32, PhysicalU32, PhysicalU32>>::result(
                        &kernel,
                        x,
                        y,
                    )) =~= (|x: Datum, y: Datum|
                    arith_datum(self.function, self.datatype.spec_physical_type(), x, y)));
                BinaryExecutor::execute::<PhysicalU32, PhysicalU32, PhysicalU32, ArithKernel>(
                    &kernel,
                    a,
                    b,
                    datatype,
                )
            },
            PhysicalType::UInt64 => {
                assert((|x: Datum, y: Datum|
                    <ArithKernel as BinaryKernel<PhysicalU64, PhysicalU64, PhysicalU64>>::result(
                        &kernel,
                        x,
                        y,
                    )) =~= (|x: Datum, y: Datum|
                    arith_datum(self.function, self.datatype.spec_physical_type(), x, y)));
                BinaryExecutor::execute::<PhysicalU64, PhysicalU64, PhysicalU64, ArithKernel>(
                    &kernel,
                    a,
                    b,
                    datatype,
                )
            },
            PhysicalType::UInt128 => {
                assert((|x: Datum, y: Datum|
                    <ArithKernel as BinaryKernel<PhysicalU128, PhysicalU128, PhysicalU128>>::result(
                        &kernel,
                        x,
                        y,
                    )) =~= (|x: Datum, y: Datum|
                    arith_datum(self.function, self.datatype.spec_physical_type(), x, y)));
                BinaryExecutor::execute::<PhysicalU128, PhysicalU128, PhysicalU128, ArithKernel>(
                    &kernel,
                    a,
                    b,
                    datatype,
                )
            },
            _ => {
                proof {
                    assert(false);
                }
                Err(RayexecError::new("Not yet implemented: arithmetic on floating-point arrays"))
            },
        }
    }
}

} // verus!
