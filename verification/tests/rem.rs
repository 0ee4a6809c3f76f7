use rayexec_execution::array::Array;
use rayexec_execution::bind_context::TableList;
use rayexec_execution::datatype::{DataType, DataTypeId};
use rayexec_execution::expr::{col_ref, lit};
use rayexec_execution::functions::arith::ArithFunction;
use rayexec_execution::functions::rem::Rem;
use rayexec_execution::functions::FunctionInfo;
use rayexec_execution::scalar::ScalarValue;
use rayexec_execution::storage::ArrayData;

fn two_columns(a: DataType, b: DataType) -> (TableList, rayexec_execution::bind_context::TableRef) {
    let mut table_list = TableList::empty();
    let table_ref = table_list
        .push_table(None, vec![a, b], vec!["a".to_string(), "b".to_string()])
        .unwrap();
    (table_list, table_ref)
}

#[test]
fn rem_i32() {
    let a = Array::from_data(ArrayData::Int32(vec![4, 5, 6]));
    let b = Array::from_data(ArrayData::Int32(vec![1, 2, 3]));

    let mut table_list = TableList::empty();
    let table_ref = table_list
        .push_table(
            None,
            vec![DataType::Int32, DataType::Int32],
            vec!["a".to_string(), "b".to_string()],
        )
        .unwrap();

    let planned = Rem
        .plan(&table_list, vec![col_ref(table_ref, 0), col_ref(table_ref, 1)])
        .unwrap();

    let out = planned.function_impl.execute(&[&a, &b]).unwrap();
    let expected = Array::from_data(ArrayData::Int32(vec![0, 1, 0]));

    assert_eq!(expected, out);
}

#[test]
fn rem_plan_returns_input_type() {
    let (table_list, table_ref) = two_columns(DataType::UInt64, DataType::UInt64);
    let planned = Rem
        .plan(&table_list, vec![col_ref(table_ref, 0), col_ref(table_ref, 1)])
        .unwrap();
    assert_eq!(planned.function, ArithFunction::Rem);
    assert_eq!(planned.return_type, DataType::UInt64);
    assert_eq!(planned.function_impl.function(), ArithFunction::Rem);
    assert_eq!(*planned.function_impl.datatype(), DataType::UInt64);
    assert_eq!(planned.inputs, vec![col_ref(table_ref, 0), col_ref(table_ref, 1)]);
    assert!(planned.function_impl.is_integer_kernel());
}

#[test]
fn rem_plan_float_selects_float_kernel() {
    let (table_list, table_ref) = two_columns(DataType::Float32, DataType::Float32);
    let planned = Rem
        .plan(&table_list, vec![col_ref(table_ref, 0), col_ref(table_ref, 1)])
        .unwrap();
    assert_eq!(planned.return_type, DataType::Float32);
    assert!(!planned.function_impl.is_integer_kernel());
}

#[test]
fn rem_plan_wrong_number_of_arguments() {
    let (table_list, table_ref) = two_columns(DataType::Int32, DataType::Int32);
    let err = Rem.plan(&table_list, vec![col_ref(table_ref, 0)]).unwrap_err();
    assert_eq!(err.to_string(), "Expected 2 inputs for '%', received 1");
}

#[test]
fn rem_plan_invalid_input_types() {
    let (table_list, table_ref) = two_columns(DataType::Int32, DataType::Utf8);
    let err = Rem
        .plan(&table_list, vec![col_ref(table_ref, 0), col_ref(table_ref, 1)])
        .unwrap_err();
    assert_eq!(err.to_string(), "Got invalid type(s) '[Int32, Utf8]' for '%'");

    let (table_list, table_ref) = two_columns(DataType::Int32, DataType::Int64);
    let err = Rem
        .plan(&table_list, vec![col_ref(table_ref, 0), col_ref(table_ref, 1)])
        .unwrap_err();
    assert_eq!(err.to_string(), "Got invalid type(s) '[Int32, Int64]' for '%'");
}

#[test]
fn rem_plan_missing_column() {
    let (table_list, table_ref) = two_columns(DataType::Int32, DataType::Int32);
    let err = Rem
        .plan(&table_list, vec![col_ref(table_ref, 0), col_ref(table_ref, 7)])
        .unwrap_err();
    assert_eq!(err.to_string(), "Missing column in bind context: #0.7");
}

#[test]
fn rem_plan_literals() {
    let table_list = TableList::empty();
    let planned = Rem
        .plan(&table_list, vec![lit(ScalarValue::Int8(7)), lit(ScalarValue::Int8(2))])
        .unwrap();
    assert_eq!(planned.return_type, DataType::Int8);
}

#[test]
fn rem_signatures_cover_the_numeric_types() {
    let signatures = Rem.signatures();
    assert_eq!(signatures.len(), 13);
    let expected = [
        DataTypeId::Float16,
        DataTypeId::Float32,
        DataTypeId::Float64,
        DataTypeId::Int8,
        DataTypeId::Int16,
        DataTypeId::Int32,
        DataTypeId::Int64,
        DataTypeId::Int128,
        DataTypeId::UInt8,
        DataTypeId::UInt16,
        DataTypeId::UInt32,
        DataTypeId::UInt64,
        DataTypeId::UInt128,
    ];
    for (signature, id) in signatures.iter().zip(expected) {
        assert_eq!(signature.input, vec![id, id]);
        assert_eq!(signature.variadic, None);
        assert_eq!(signature.return_type, id);
    }
    assert!(signatures[5].accepts(&vec![DataTypeId::Int32, DataTypeId::Int32]));
    assert!(!signatures[5].accepts(&vec![DataTypeId::Int32, DataTypeId::Int64]));
    assert!(!signatures[5].accepts(&vec![DataTypeId::Int32]));
}

#[test]
fn rem_name_and_aliases() {
    assert_eq!(Rem.name(), "%");
    assert_eq!(Rem.aliases(), vec!["rem", "mod"]);
}

fn int32_impl() -> rayexec_execution::functions::rem::RemImpl {
    Rem.select_impl(&DataType::Int32, &DataType::Int32).unwrap()
}

#[test]
fn rem_truncates_toward_zero() {
    let a = Array::from_data(ArrayData::Int32(vec![-7, 7, -7, 7, i32::MIN]));
    let b = Array::from_data(ArrayData::Int32(vec![2, -2, -2, 2, -1]));
    let out = int32_impl().execute(&[&a, &b]).unwrap();
    assert_eq!(out, Array::from_data(ArrayData::Int32(vec![-1, 1, -1, 1, 0])));
}

#[test]
fn rem_of_widest_integers() {
    let function_impl = Rem.select_impl(&DataType::Int128, &DataType::Int128).unwrap();
    let a = Array::from_data(ArrayData::Int128(vec![i128::MIN, i128::MAX]));
    let b = Array::from_data(ArrayData::Int128(vec![-1, 10]));
    let out = function_impl.execute(&[&a, &b]).unwrap();
    assert_eq!(out, Array::from_data(ArrayData::Int128(vec![0, 7])));

    let function_impl = Rem.select_impl(&DataType::UInt8, &DataType::UInt8).unwrap();
    let a = Array::from_data(ArrayData::UInt8(vec![255, 9]));
    let b = Array::from_data(ArrayData::UInt8(vec![16, 3]));
    let out = function_impl.execute(&[&a, &b]).unwrap();
    assert_eq!(out, Array::from_data(ArrayData::UInt8(vec![15, 0])));
}

#[test]
fn rem_division_by_zero_fails_the_batch() {
    let a = Array::from_data(ArrayData::Int32(vec![4, 5, 6]));
    let b = Array::from_data(ArrayData::Int32(vec![1, 0, 3]));
    let err = int32_impl().execute(&[&a, &b]).unwrap_err();
    assert_eq!(err.to_string(), "Division by zero");
}

#[test]
fn rem_skips_null_rows() {
    let a = Array::try_new(
        DataType::Int32,
        ArrayData::Int32(vec![4, 5, 6]),
        Some(vec![true, false, true]),
    )
    .unwrap();
    // The zero divisor sits in a row whose left side is NULL.
    let b = Array::from_data(ArrayData::Int32(vec![3, 0, 4]));
    let out = int32_impl().execute(&[&a, &b]).unwrap();
    let expected = Array::try_new(
        DataType::Int32,
        ArrayData::Int32(vec![1, 99, 2]),
        Some(vec![true, false, true]),
    )
    .unwrap();
    assert_eq!(out, expected);
    assert!(out.is_valid(0));
    assert!(!out.is_valid(1));
}

#[test]
fn rem_handles_empty_and_single_row_arrays() {
    let a = Array::from_data(ArrayData::Int32(vec![]));
    let b = Array::from_data(ArrayData::Int32(vec![]));
    let out = int32_impl().execute(&[&a, &b]).unwrap();
    assert_eq!(out.logical_len(), 0);
    assert_eq!(*out.datatype(), DataType::Int32);

    let a = Array::from_data(ArrayData::Int32(vec![9]));
    let b = Array::from_data(ArrayData::Int32(vec![4]));
    let out = int32_impl().execute(&[&a, &b]).unwrap();
    assert_eq!(out, Array::from_data(ArrayData::Int32(vec![1])));
}

#[test]
fn rem_rejects_length_mismatch() {
    let a = Array::from_data(ArrayData::Int32(vec![4, 5, 6]));
    let b = Array::from_data(ArrayData::Int32(vec![1, 2]));
    let err = int32_impl().execute(&[&a, &b]).unwrap_err();
    assert_eq!(err.to_string(), "Cannot execute a kernel on arrays of different lengths");
}

#[test]
fn arithmetic_family_wraps_and_checks_divisors() {
    let select = |function: ArithFunction| function.select_impl(&DataType::Int8, &DataType::Int8).unwrap();
    let a = Array::from_data(ArrayData::Int8(vec![127, -128, -128, 7, -7]));
    let b = Array::from_data(ArrayData::Int8(vec![1, 1, -1, -2, 2]));
    let run = |function: ArithFunction| select(function).execute(&[&a, &b]).unwrap();
    assert_eq!(run(ArithFunction::Add), Array::from_data(ArrayData::Int8(vec![-128, -127, 127, 5, -5])));
    assert_eq!(run(ArithFunction::Sub), Array::from_data(ArrayData::Int8(vec![126, 127, -127, 9, -9])));
    assert_eq!(run(ArithFunction::Mul), Array::from_data(ArrayData::Int8(vec![127, -128, -128, -14, -14])));
    assert_eq!(run(ArithFunction::Div), Array::from_data(ArrayData::Int8(vec![127, -128, -128, -3, -3])));
    assert_eq!(run(ArithFunction::Rem), Array::from_data(ArrayData::Int8(vec![0, 0, 0, 1, -1])));

    let zero = Array::from_data(ArrayData::Int8(vec![1, 1, 1, 1, 0]));
    for function in [ArithFunction::Div, ArithFunction::Rem] {
        let err = select(function).execute(&[&a, &zero]).unwrap_err();
        assert_eq!(err.to_string(), "Division by zero");
    }
    assert!(select(ArithFunction::Add).execute(&[&a, &zero]).is_ok());

    let function_impl = ArithFunction::Mul.select_impl(&DataType::UInt64, &DataType::UInt64).unwrap();
    assert_eq!(function_impl.function(), ArithFunction::Mul);
    let a = Array::from_data(ArrayData::UInt64(vec![u64::MAX, 1 << 63]));
    let b = Array::from_data(ArrayData::UInt64(vec![u64::MAX, 2]));
    assert_eq!(
        function_impl.execute(&[&a, &b]).unwrap(),
        Array::from_data(ArrayData::UInt64(vec![1, 0]))
    );
    let err = ArithFunction::Div.select_impl(&DataType::Utf8, &DataType::Utf8).unwrap_err();
    assert_eq!(err.to_string(), "Got invalid type(s) '[Utf8, Utf8]' for '/'");
}

#[test]
fn arithmetic_planning() {
    let (table_list, table_ref) = two_columns(DataType::Int16, DataType::Int16);
    let planned = ArithFunction::Add
        .plan(&table_list, vec![col_ref(table_ref, 0), col_ref(table_ref, 1)])
        .unwrap();
    assert_eq!(planned.function, ArithFunction::Add);
    assert_eq!(planned.return_type, DataType::Int16);
    assert_eq!(planned.function_impl.function(), ArithFunction::Add);
    let err = ArithFunction::Sub.plan(&table_list, Vec::new()).unwrap_err();
    assert_eq!(err.to_string(), "Expected 2 inputs for '-', received 0");
}

#[test]
fn rem_rejects_storage_mismatch() {
    let a = Array::from_data(ArrayData::Int32(vec![4, 5, 6]));
    let b = Array::from_data(ArrayData::Int64(vec![1, 2, 3]));
    let err = int32_impl().execute(&[&a, &b]).unwrap_err();
    assert_eq!(err.to_string(), "Array storage does not match the physical type of the kernel");
}

#[test]
fn execution_checks_the_number_of_inputs() {
    let a = Array::from_data(ArrayData::Int32(vec![4, 5, 6]));
    let err = int32_impl().execute(&[&a]).unwrap_err();
    assert_eq!(err.to_string(), "Expected 2 inputs for '%', received 1");
    let err = int32_impl().execute(&[]).unwrap_err();
    assert_eq!(err.to_string(), "Expected 2 inputs for '%', received 0");

    let add = ArithFunction::Add.select_impl(&DataType::Int32, &DataType::Int32).unwrap();
    let err = add.execute(&[&a]).unwrap_err();
    assert_eq!(err.to_string(), "Expected 2 inputs for '+', received 1");
    let b = Array::from_data(ArrayData::Int32(vec![1, 2, 3]));
    let extra = Array::from_data(ArrayData::Int32(vec![0]));
    assert_eq!(
        add.execute(&[&a, &b, &extra]).unwrap(),
        Array::from_data(ArrayData::Int32(vec![5, 7, 9]))
    );
}
