//! Expressions as operators evaluate them: columns are positions in the
//! input batch, and nothing refers to a bind context any more.

use crate::array::{array_result_is, scalar_datum, Array, ArrayView};
use crate::batch::{Batch, BatchView};
use crate::error::{fails_with, RayexecError};
use crate::datatype::{DataType, PhysicalType};
use crate::executor::{
    binary_outcome, compare_arrays, compare_datum, conjunction_arrays, conjunction_outcome,
    incomparable_text, unary_outcome, UnaryExecutor, UnaryKernel,
};
use crate::expr::comparison_expr::{comparison_operator_text, ComparisonOperator};
use crate::bind_context::{TableRef, TableView};
use crate::expr::column_expr::{column_text, ColumnExpr};
use crate::expr::{
    expr_datatype, expr_text, ConjunctionOperator, Expression, NegateOperator,
};
use crate::functions::arith::{
    arith_datum, negate_datum, not_datum, numeric_binary_return_type, ArithFunction,
};
use crate::functions::arith_kernels::{NegateKernel, NotKernel};
use crate::functions::rem::division_by_zero_text;
use crate::functions::{invalid_input_types_text, types_to_string, FunctionInfo};
use crate::scalar::ScalarValue;
use crate::storage::{
    Datum, PhysicalBool, PhysicalI128, PhysicalI16, PhysicalI32, PhysicalI64, PhysicalI8,
    PhysicalU128, PhysicalU16, PhysicalU32, PhysicalU64, PhysicalU8,
};
use vstd::prelude::*;

verus! {

#[derive(Debug, PartialEq, Eq)]
#[allow(inconsistent_fields)]
pub enum PhysicalScalarExpression {
    /// The column of the input batch at a position.
    Column(usize),
    /// A constant.
    Literal(ScalarValue),
    /// A comparison of two expressions.
    Comparison {
        op: ComparisonOperator,
        left: Box<PhysicalScalarExpression>,
        right: Box<PhysicalScalarExpression>,
    },
    /// A conjunction or disjunction of two expressions.
    Conjunction {
        op: ConjunctionOperator,
        left: Box<PhysicalScalarExpression>,
        right: Box<PhysicalScalarExpression>,
    },
    /// The boolean or arithmetic negation of an expression.
    Negate { op: NegateOperator, expr: Box<PhysicalScalarExpression> },
    /// An arithmetic function of two expressions.
    Arith {
        function: ArithFunction,
        left: Box<PhysicalScalarExpression>,
        right: Box<PhysicalScalarExpression>,
    },
}

/// The columns that one table contributes to the input of an operator.
#[derive(Debug, Clone, Copy, PartialEq, Eq, Structural)]
pub struct TableWidth {
    pub table_ref: TableRef,
    pub num_columns: usize,
}

/// The position in the input batch of a column, looked for from entry `k`
/// of the layout on, where `offset` columns come before that entry. The
/// columns of the tables of a layout follow one another in the batch. The
/// column belongs to the first entry of its table and must be within the
/// columns of that entry.
pub open spec fn position_from(layout: Seq<TableWidth>, c: ColumnExpr, k: nat, offset: nat) -> Option<
    nat,
>
    decreases layout.len() - k,
{
    if k >= layout.len() {
        None
    } else if layout[k as int].table_ref == c.table_scope {
        if c.column < layout[k as int].num_columns {
            Some(offset + c.column as nat)
        } else {
            None
        }
    } else {
        position_from(layout, c, k + 1, offset + layout[k as int].num_columns as nat)
    }
}

/// The position in the input batch of a column, if the input has it.
pub open spec fn column_position(layout: Seq<TableWidth>, c: ColumnExpr) -> Option<nat> {
    match position_from(layout, c, 0, 0) {
        Some(i) => if i <= usize::MAX {
            Some(i)
        } else {
            None
        },
        None => None,
    }
}

/// The message of the error for a column that the input of an operator
/// does not have.
pub open spec fn unresolved_column_text(c: ColumnExpr) -> Seq<char> {
    "Column is not part of the input: "@ + column_text(c)
}

/// A position found from an offset on is not before the offset.
proof fn lemma_position_from_offset(layout: Seq<TableWidth>, c: ColumnExpr, k: nat, offset: nat)
    ensures
        position_from(layout, c, k, offset) matches Some(i) ==> i >= offset,
    decreases layout.len() - k,
{
    if k < layout.len() && layout[k as int].table_ref != c.table_scope {
        lemma_position_from_offset(
            layout,
            c,
            k + 1,
            offset + layout[k as int].num_columns as nat,
        );
    }
}

fn unresolved(c: &ColumnExpr) -> (e: RayexecError)
    ensures
        e@.msg == unresolved_column_text(*c),
        e@.source is None,
{
    let mut msg = String::from_str("Column is not part of the input: ");
    msg.append(c.to_string().as_str());
    RayexecError::new(msg.as_str())
}

/// Finds the position in the input batch of a column, as `column_position`
/// states.
pub fn resolve_column(layout: &Vec<TableWidth>, c: &ColumnExpr) -> (r: Result<usize, RayexecError>)
    ensures
        match column_position(layout@, *c) {
            Some(i) => r == Ok::<usize, RayexecError>(i as usize),
            None => fails_with(r, unresolved_column_text(*c)),
        },
{
    let mut offset: usize = 0;
    let mut k: usize = 0;
    while k < layout.len()
        invariant
            k <= layout.len(),
            position_from(layout@, *c, 0, 0) == position_from(layout@, *c, k as nat, offset as nat),
        decreases layout.len() - k,
    {
        let entry = layout[k];
        if entry.table_ref == c.table_scope {
            if c.column >= entry.num_columns {
                return Err(unresolved(c));
            }
            return match offset.checked_add(c.column) {
                Some(position) => Ok(position),
                None => Err(unresolved(c)),
            };
        }
        offset = match offset.checked_add(entry.num_columns) {
            Some(next) => next,
            None => {
                proof {
                    lemma_position_from_offset(
                        layout@,
                        *c,
                        (k + 1) as nat,
                        (offset + entry.num_columns) as nat,
                    );
                }
                return Err(unresolved(c));
            },
        };
        k += 1;
    }
    Err(unresolved(c))
}

/// The message of the error for an expression that has no physical form.
pub open spec fn unsupported_expression_text(e: Expression) -> Seq<char> {
    "Not yet implemented: physical expression for "@ + expr_text(e)
}

/// The message of the error for a column position beyond the batch.
pub open spec fn missing_batch_column_text() -> Seq<char> {
    "Column index out of bounds for batch"@
}

/// The message of the error for arithmetic on floating-point arrays.
pub open spec fn float_arithmetic_text() -> Seq<char> {
    "Not yet implemented: arithmetic on floating-point arrays"@
}

/// The physical form of an expression over an input with the given layout,
/// or the message of the error.
///
/// A literal stays a literal. A column reference becomes the position of
/// the column in the input, which must have the column. Arithmetic becomes its function, and a
/// comparison, a conjunction or a negation its operator, over the physical
/// forms of the operands, the left one converted first. A cast has no
/// physical form.
pub open spec fn physical_form(e: Expression, layout: Seq<TableWidth>) -> Result<
    PhysicalScalarExpression,
    Seq<char>,
>
    decreases e,
{
    match e {
        Expression::Literal(l) => Ok(PhysicalScalarExpression::Literal(l.literal)),
        Expression::Column(c) => match column_position(layout, c) {
            Some(i) => Ok(PhysicalScalarExpression::Column(i as usize)),
            None => Err(unresolved_column_text(c)),
        },
        Expression::Arith(a) => match physical_form(*a.left, layout) {
            Err(msg) => Err(msg),
            Ok(left) => match physical_form(*a.right, layout) {
                Err(msg) => Err(msg),
                Ok(right) => Ok(
                    PhysicalScalarExpression::Arith {
                        function: a.op.spec_as_scalar_function(),
                        left: Box::new(left),
                        right: Box::new(right),
                    },
                ),
            },
        },
        Expression::Comparison(c) => match physical_form(*c.left, layout) {
            Err(msg) => Err(msg),
            Ok(left) => match physical_form(*c.right, layout) {
                Err(msg) => Err(msg),
                Ok(right) => Ok(
                    PhysicalScalarExpression::Comparison {
                        op: c.op,
                        left: Box::new(left),
                        right: Box::new(right),
                    },
                ),
            },
        },
        Expression::Conjunction(c) => match physical_form(*c.left, layout) {
            Err(msg) => Err(msg),
            Ok(left) => match physical_form(*c.right, layout) {
                Err(msg) => Err(msg),
                Ok(right) => Ok(
                    PhysicalScalarExpression::Conjunction {
                        op: c.op,
                        left: Box::new(left),
                        right: Box::new(right),
                    },
                ),
            },
        },
        Expression::Negate(n) => match physical_form(*n.expr, layout) {
            Err(msg) => Err(msg),
            Ok(expr) => Ok(PhysicalScalarExpression::Negate { op: n.op, expr: Box::new(expr) }),
        },
        Expression::Cast(_) => Err(unsupported_expression_text(e)),
    }
}

/// What negating an array gives. Boolean negation needs a boolean array.
/// Arithmetic negation needs an array stored as integers and wraps like
/// subtraction from zero. NULL stays NULL.
pub open spec fn negate_outcome(op: NegateOperator, a: ArrayView) -> Result<ArrayView, Seq<char>> {
    match op {
        NegateOperator::Not => if a.datatype != DataType::Boolean {
            Err(invalid_input_types_text("NOT"@, seq![a.datatype]))
        } else {
            unary_outcome(
                |x: Datum| not_datum(x),
                "Cannot negate a value that is not boolean"@,
                true,
                a,
                DataType::Boolean,
            )
        },
        NegateOperator::Negate => if a.datatype.spec_physical_type().is_integer() {
            unary_outcome(
                |x: Datum| negate_datum(a.datatype.spec_physical_type(), x),
                "Cannot negate a value that is not an integer"@,
                true,
                a,
                a.datatype,
            )
        } else if a.datatype.spec_physical_type().is_float() {
            Err(float_arithmetic_text())
        } else {
            Err(invalid_input_types_text("-"@, seq![a.datatype]))
        },
    }
}

fn invalid_types(name: &str, got: Vec<DataType>) -> (e: RayexecError)
    ensures
        e@.msg == invalid_input_types_text(name@, got@),
        e@.source is None,
{
    let mut msg = String::from_str("Got invalid type(s) '");
    msg.append(types_to_string(&got).as_str());
    msg.append("' for '");
    msg.append(name);
    msg.append("'");
    RayexecError::new(msg.as_str())
}

/// Negates an array, as `negate_outcome` states.
pub fn negate_array(op: NegateOperator, a: &Array) -> (r: Result<Array, RayexecError>)
    ensures
        array_result_is(r, negate_outcome(op, a@)),
{
    let datatype = a.datatype().clone();
    let mut got: Vec<DataType> = Vec::new();
    got.push(a.datatype().clone());
    assert(got@ =~= seq![a@.datatype]);
    if let NegateOperator::Not = op {
        if !(datatype == DataType::Boolean) {
            return Err(invalid_types("NOT", got));
        }
        assert((|x: Datum| <NotKernel as UnaryKernel<PhysicalBool, PhysicalBool>>::result(
            &NotKernel,
            x,
        )) =~= (|x: Datum| not_datum(x)));
        return UnaryExecutor::execute::<PhysicalBool, PhysicalBool, NotKernel>(
            &NotKernel,
            a,
            datatype,
        );
    }
    match datatype.physical_type() {
        PhysicalType::Int8 => {
            assert((|x: Datum|
                <NegateKernel as UnaryKernel<PhysicalI8, PhysicalI8>>::result(&NegateKernel, x))
                =~= (|x: Datum| negate_datum(a@.datatype.spec_physical_type(), x)));
            UnaryExecutor::execute::<PhysicalI8, PhysicalI8, NegateKernel>(
                &NegateKernel,
                a,
                datatype,
            )
        },
        PhysicalType::Int16 => {
            assert((|x: Datum|
                <NegateKernel as UnaryKernel<PhysicalI16, PhysicalI16>>::result(&NegateKernel, x))
                =~= (|x: Datum| negate_datum(a@.datatype.spec_physical_type(), x)));
            UnaryExecutor::execute::<PhysicalI16, PhysicalI16, NegateKernel>(
                &NegateKernel,
                a,
                datatype,
            )
        },
        PhysicalType::Int32 => {
            assert((|x: Datum|
                <NegateKernel as UnaryKernel<PhysicalI32, PhysicalI32>>::result(&NegateKernel, x))
                =~= (|x: Datum| negate_datum(a@.datatype.spec_physical_type(), x)));
            UnaryExecutor::execute::<PhysicalI32, PhysicalI32, NegateKernel>(
                &NegateKernel,
                a,
                datatype,
            )
        },
        PhysicalType::Int64 => {
            assert((|x: Datum|
                <NegateKernel as UnaryKernel<PhysicalI64, PhysicalI64>>::result(&NegateKernel, x))
                =~= (|x: Datum| negate_datum(a@.datatype.spec_physical_type(), x)));
            UnaryExecutor::execute::<PhysicalI64, PhysicalI64, NegateKernel>(
                &NegateKernel,
                a,
                datatype,
            )
        },
        PhysicalType::Int128 => {
            assert((|x: Datum|
                <NegateKernel as UnaryKernel<PhysicalI128, PhysicalI128>>::result(&NegateKernel, x))
                =~= (|x: Datum| negate_datum(a@.datatype.spec_physical_type(), x)));
            UnaryExecutor::execute::<PhysicalI128, PhysicalI128, NegateKernel>(
                &NegateKernel,
                a,
                datatype,
            )
        },
        PhysicalType::UInt8 => {
            assert((|x: Datum|
                <NegateKernel as UnaryKernel<PhysicalU8, PhysicalU8>>::result(&NegateKernel, x))
                =~= (|x: Datum| negate_datum(a@.datatype.spec_physical_type(), x)));
            UnaryExecutor::execute::<PhysicalU8, PhysicalU8, NegateKernel>(
                &NegateKernel,
                a,
                datatype,
            )
        },
        PhysicalType::UInt16 => {
            assert((|x: Datum|
                <NegateKernel as UnaryKernel<PhysicalU16, PhysicalU16>>::result(&NegateKernel, x))
                =~= (|x: Datum| negate_datum(a@.datatype.spec_physical_type(), x)));
            UnaryExecutor::execute::<PhysicalU16, PhysicalU16, NegateKernel>(
                &NegateKernel,
                a,
                datatype,
            )
        },
        PhysicalType::UInt32 => {
            assert((|x: Datum|
                <NegateKernel as UnaryKernel<PhysicalU32, PhysicalU32>>::result(&NegateKernel, x))
                =~= (|x: Datum| negate_datum(a@.datatype.spec_physical_type(), x)));
            UnaryExecutor::execute::<PhysicalU32, PhysicalU32, NegateKernel>(
                &NegateKernel,
                a,
                datatype,
            )
        },
        PhysicalType::UInt64 => {
            assert((|x: Datum|
                <NegateKernel as UnaryKernel<PhysicalU64, PhysicalU64>>::result(&NegateKernel, x))
                =~= (|x: Datum| negate_datum(a@.datatype.spec_physical_type(), x)));
            UnaryExecutor::execute::<PhysicalU64, PhysicalU64, NegateKernel>(
                &NegateKernel,
                a,
                datatype,
            )
        },
        PhysicalType::UInt128 => {
            assert((|x: Datum|
                <NegateKernel as UnaryKernel<PhysicalU128, PhysicalU128>>::result(&NegateKernel, x))
                =~= (|x: Datum| negate_datum(a@.datatype.spec_physical_type(), x)));
            UnaryExecutor::execute::<PhysicalU128, PhysicalU128, NegateKernel>(
                &NegateKernel,
                a,
                datatype,
            )
        },
        PhysicalType::Float16 | PhysicalType::Float32 | PhysicalType::Float64 => Err(
            RayexecError::new("Not yet implemented: arithmetic on floating-point arrays"),
        ),
        _ => Err(invalid_types("-", got)),
    }
}

/// What evaluating an expression against a batch gives: an array with one
/// row per row of the batch, or the message of the error.
///
/// A column gives the batch's column at its position. A literal gives its
/// value in every row. Arithmetic evaluates its left operand, then its
/// right one, selects the kernel for their types, and gives what the
/// kernel gives. A comparison evaluates its operands likewise, which must
/// have the same type, and gives a boolean array. A conjunction combines
/// its operands in three-valued logic, and a negation negates its operand.
pub open spec fn eval_outcome(p: PhysicalScalarExpression, batch: BatchView) -> Result<
    ArrayView,
    Seq<char>,
>
    decreases p,
{
    match p {
        PhysicalScalarExpression::Column(idx) => if idx < batch.cols.len() {
            Ok(batch.cols[idx as int])
        } else {
            Err(missing_batch_column_text())
        },
        PhysicalScalarExpression::Literal(value) => Ok(
            ArrayView {
                datatype: value.spec_datatype(),
                rows: Seq::new(batch.num_rows, |i: int| scalar_datum(value)),
            },
        ),
        PhysicalScalarExpression::Comparison { op, left, right } => match eval_outcome(
            *left,
            batch,
        ) {
            Err(msg) => Err(msg),
            Ok(a) => match eval_outcome(*right, batch) {
                Err(msg) => Err(msg),
                Ok(b) => if a.datatype != b.datatype {
                    Err(
                        invalid_input_types_text(
                            comparison_operator_text(op),
                            seq![a.datatype, b.datatype],
                        ),
                    )
                } else {
                    binary_outcome(
                        |x: Datum, y: Datum| compare_datum(op, x, y),
                        incomparable_text(),
                        true,
                        a,
                        b,
                        DataType::Boolean,
                    )
                },
            },
        },
        PhysicalScalarExpression::Conjunction { op, left, right } => match eval_outcome(
            *left,
            batch,
        ) {
            Err(msg) => Err(msg),
            Ok(a) => match eval_outcome(*right, batch) {
                Err(msg) => Err(msg),
                Ok(b) => conjunction_outcome(op, a, b),
            },
        },
        PhysicalScalarExpression::Negate { op, expr } => match eval_outcome(*expr, batch) {
            Err(msg) => Err(msg),
            Ok(a) => negate_outcome(op, a),
        },
        PhysicalScalarExpression::Arith { function, left, right } => match eval_outcome(
            *left,
            batch,
        ) {
            Err(msg) => Err(msg),
            Ok(a) => match eval_outcome(*right, batch) {
                Err(msg) => Err(msg),
                Ok(b) => match numeric_binary_return_type(a.datatype, b.datatype) {
                    None => Err(
                        invalid_input_types_text(
                            function.spec_name(),
                            seq![a.datatype, b.datatype],
                        ),
                    ),
                    Some(t) => if t.spec_physical_type().is_integer() {
                        binary_outcome(
                            |x: Datum, y: Datum|
                                arith_datum(function, t.spec_physical_type(), x, y),
                            division_by_zero_text(),
                            true,
                            a,
                            b,
                            t,
                        )
                    } else {
                        Err(float_arithmetic_text())
                    },
                },
            },
        },
    }
}

/// Whatever evaluating an expression against a batch gives has one row per
/// row of the batch.
pub proof fn lemma_eval_rows(p: PhysicalScalarExpression, batch: BatchView)
    requires
        crate::batch::columns_have_rows(batch.cols, batch.num_rows),
    ensures
        eval_outcome(p, batch) matches Ok(a) ==> a.rows.len() == batch.num_rows,
    decreases p,
{
    match p {
        PhysicalScalarExpression::Arith { function, left, right } => {
            lemma_eval_rows(*left, batch);
            lemma_eval_rows(*right, batch);
        },
        PhysicalScalarExpression::Comparison { op, left, right } => {
            lemma_eval_rows(*left, batch);
            lemma_eval_rows(*right, batch);
        },
        PhysicalScalarExpression::Conjunction { op, left, right } => {
            lemma_eval_rows(*left, batch);
            lemma_eval_rows(*right, batch);
        },
        PhysicalScalarExpression::Negate { op, expr } => {
            lemma_eval_rows(*expr, batch);
        },
        _ => {},
    }
}

/// Whether the columns of a batch agree with a bind context under a
/// layout: wherever the layout puts a column, the table of the column has
/// it, and the batch holds a column of its declared type there.
pub open spec fn batch_agrees(
    batch: BatchView,
    layout: Seq<TableWidth>,
    tables: Seq<TableView>,
) -> bool {
    forall|c: ColumnExpr| #[trigger]
        column_position(layout, c) matches Some(i) ==> {
            &&& i < batch.cols.len()
            &&& c.table_scope.table_idx < tables.len()
            &&& c.column < tables[c.table_scope.table_idx as int].column_types.len()
            &&& batch.cols[i as int].datatype
                == tables[c.table_scope.table_idx as int].column_types[c.column as int]
        }
}

/// If an expression has a type against a bind context, then evaluating its
/// physical form against any batch whose columns agree with the bind
/// context gives, where it gives an array, an array of that type.
pub proof fn lemma_eval_has_declared_type(
    e: Expression,
    tables: Seq<TableView>,
    layout: Seq<TableWidth>,
    batch: BatchView,
)
    requires
        batch_agrees(batch, layout, tables),
        expr_datatype(e, tables) is Ok,
        physical_form(e, layout) is Ok,
        eval_outcome(physical_form(e, layout)->Ok_0, batch) is Ok,
    ensures
        eval_outcome(physical_form(e, layout)->Ok_0, batch)->Ok_0.datatype == expr_datatype(
            e,
            tables,
        )->Ok_0,
    decreases e,
{
    match e {
        Expression::Column(c) => {
            assert(column_position(layout, c) is Some);
        },
        Expression::Arith(a) => {
            lemma_eval_has_declared_type(*a.left, tables, layout, batch);
            lemma_eval_has_declared_type(*a.right, tables, layout, batch);
        },
        Expression::Negate(n) => {
            if n.op == NegateOperator::Negate {
                lemma_eval_has_declared_type(*n.expr, tables, layout, batch);
            }
        },
        _ => {},
    }
}

fn unsupported(expr: &Expression) -> (e: RayexecError)
    ensures
        e@.msg == unsupported_expression_text(*expr),
        e@.source is None,
{
    let mut msg = String::from_str("Not yet implemented: physical expression for ");
    msg.append(expr.to_string().as_str());
    RayexecError::new(msg.as_str())
}

impl PhysicalScalarExpression {
    /// Converts an expression to its physical form over an input with the
    /// given layout, as `physical_form` states. Every column that the
    /// expression refers to must be a column of the input.
    pub fn try_from_uncorrelated_expr(expr: Expression, layout: &Vec<TableWidth>) -> (r: Result<
        PhysicalScalarExpression,
        RayexecError,
    >)
        ensures
            match physical_form(expr, layout@) {
                Ok(p) => r == Ok::<PhysicalScalarExpression, RayexecError>(p),
                Err(msg) => fails_with(r, msg),
            },
        decreases expr,
    {
        match expr {
            Expression::Literal(l) => Ok(PhysicalScalarExpression::Literal(l.literal)),
            Expression::Column(c) => Ok(
                PhysicalScalarExpression::Column(resolve_column(layout, &c)?),
            ),
            Expression::Arith(a) => {
                let left = PhysicalScalarExpression::try_from_uncorrelated_expr(*a.left, layout)?;
                let right = PhysicalScalarExpression::try_from_uncorrelated_expr(*a.right, layout)?;
                Ok(
                    PhysicalScalarExpression::Arith {
                        function: a.op.as_scalar_function(),
                        left: Box::new(left),
                        right: Box::new(right),
                    },
                )
            },
            Expression::Comparison(c) => {
                let left = PhysicalScalarExpression::try_from_uncorrelated_expr(*c.left, layout)?;
                let right = PhysicalScalarExpression::try_from_uncorrelated_expr(*c.right, layout)?;
                Ok(
                    PhysicalScalarExpression::Comparison {
                        op: c.op,
                        left: Box::new(left),
                        right: Box::new(right),
                    },
                )
            },
            Expression::Conjunction(c) => {
                let left = PhysicalScalarExpression::try_from_uncorrelated_expr(*c.left, layout)?;
                let right = PhysicalScalarExpression::try_from_uncorrelated_expr(*c.right, layout)?;
                Ok(
                    PhysicalScalarExpression::Conjunction {
                        op: c.op,
                        left: Box::new(left),
                        right: Box::new(right),
                    },
                )
            },
            Expression::Negate(n) => {
                let expr = PhysicalScalarExpression::try_from_uncorrelated_expr(*n.expr, layout)?;
                Ok(PhysicalScalarExpression::Negate { op: n.op, expr: Box::new(expr) })
            },
            Expression::Cast(c) => Err(unsupported(&Expression::Cast(c))),
        }
    }

    /// Evaluates the expression against a batch, as `eval_outcome` states.
    pub fn eval(&self, batch: &Batch) -> (r: Result<Array, RayexecError>)
        ensures
            array_result_is(r, eval_outcome(*self, batch@)),
            r matches Ok(a) ==> a@.rows.len() == batch@.num_rows,
        decreases *self,
    {
        match self {
            PhysicalScalarExpression::Column(idx) => match batch.column(*idx) {
                Some(col) => Ok(col.clone()),
                None => Err(RayexecError::new("Column index out of bounds for batch")),
            },
            PhysicalScalarExpression::Literal(value) => Ok(
                Array::from_scalar(value, batch.num_rows()),
            ),
            PhysicalScalarExpression::Comparison { op, left, right } => {
                let a = (**left).eval(batch)?;
                let b = (**right).eval(batch)?;
                if !(*a.datatype() == *b.datatype()) {
                    let mut got: Vec<DataType> = Vec::new();
                    got.push(a.datatype().clone());
                    got.push(b.datatype().clone());
                    assert(got@ =~= seq![a@.datatype, b@.datatype]);
                    return Err(invalid_types(op.to_string().as_str(), got));
                }
                compare_arrays(*op, &a, &b)
            },
            PhysicalScalarExpression::Conjunction { op, left, right } => {
                let a = (**left).eval(batch)?;
                let b = (**right).eval(batch)?;
                conjunction_arrays(*op, &a, &b)
            },
            PhysicalScalarExpression::Negate { op, expr } => {
                let a = (**expr).eval(batch)?;
                negate_array(*op, &a)
            },
            PhysicalScalarExpression::Arith { function, left, right } => {
                let a = (**left).eval(batch)?;
                let b = (**right).eval(batch)?;
                let function_impl = function.select_impl(a.datatype(), b.datatype())?;
                if !function_impl.is_integer_kernel() {
                    return Err(
                        RayexecError::new(
                            "Not yet implemented: arithmetic on floating-point arrays",
                        ),
                    );
                }
                let inputs = [&a, &b];
                let out = function_impl.execute(inputs.as_slice());
                out
            },
        }
    }
}

impl Clone for PhysicalScalarExpression {
    fn clone(&self) -> (r: Self)
        ensures
            r == *self,
        decreases *self,
    {
        match self {
            PhysicalScalarExpression::Column(i) => PhysicalScalarExpression::Column(*i),
            PhysicalScalarExpression::Literal(v) => PhysicalScalarExpression::Literal(v.clone()),
            PhysicalScalarExpression::Comparison { op, left, right } => {
                PhysicalScalarExpression::Comparison {
                    op: *op,
                    left: Box::new((**left).clone()),
                    right: Box::new((**right).clone()),
                }
            },
            PhysicalScalarExpression::Conjunction { op, left, right } => {
                PhysicalScalarExpression::Conjunction {
                    op: *op,
                    left: Box::new((**left).clone()),
                    right: Box::new((**right).clone()),
                }
            },
            PhysicalScalarExpression::Negate { op, expr } => PhysicalScalarExpression::Negate {
                op: *op,
                expr: Box::new((**expr).clone()),
            },
            PhysicalScalarExpression::Arith { function, left, right } => {
                PhysicalScalarExpression::Arith {
                    function: *function,
                    left: Box::new((**left).clone()),
                    right: Box::new((**right).clone()),
                }
            },
        }
    }
}

} // verus!
