use arrow::array::{Array as ArrowArray, ArrayRef, BooleanArray, Int32Array, StringArray};
use arrow::compute;
use rayexec_execution::array::{concat_arrays, Array};
use rayexec_execution::datatype::DataType;
use rayexec_execution::storage::ArrayData;
use std::sync::Arc;

fn int32s(rows: &[Option<i32>]) -> (Array, ArrayRef) {
    let values = rows.iter().map(|r| r.unwrap_or(0)).collect();
    let validity = rows.iter().map(|r| r.is_some()).collect();
    let ours = Array::try_new(DataType::Int32, ArrayData::Int32(values), Some(validity)).unwrap();
    (ours, Arc::new(Int32Array::from(rows.to_vec())))
}

fn strings(rows: &[Option<&str>]) -> (Array, ArrayRef) {
    let values = rows.iter().map(|r| r.unwrap_or("").to_string()).collect();
    let validity = rows.iter().map(|r| r.is_some()).collect();
    let ours = Array::try_new(DataType::Utf8, ArrayData::Utf8(values), Some(validity)).unwrap();
    (ours, Arc::new(StringArray::from(rows.to_vec())))
}

fn flags(rows: &[Option<bool>]) -> (Array, ArrayRef) {
    let values = rows.iter().map(|r| r.unwrap_or(false)).collect();
    let validity = rows.iter().map(|r| r.is_some()).collect();
    let ours =
        Array::try_new(DataType::Boolean, ArrayData::Boolean(values), Some(validity)).unwrap();
    (ours, Arc::new(BooleanArray::from(rows.to_vec())))
}

fn int32_rows(array: &ArrayRef) -> Vec<Option<i32>> {
    array.as_any().downcast_ref::<Int32Array>().unwrap().iter().collect()
}

fn string_rows(array: &ArrayRef) -> Vec<Option<String>> {
    let array = array.as_any().downcast_ref::<StringArray>().unwrap();
    array.iter().map(|r| r.map(|s| s.to_string())).collect()
}

fn flag_rows(array: &ArrayRef) -> Vec<Option<bool>> {
    array.as_any().downcast_ref::<BooleanArray>().unwrap().iter().collect()
}

fn our_int32_rows(array: &Array) -> Vec<Option<i32>> {
    let ArrayData::Int32(values) = array.data() else { panic!("expected int32 storage") };
    (0..array.logical_len()).map(|i| array.is_valid(i).then_some(values[i])).collect()
}

fn our_string_rows(array: &Array) -> Vec<Option<String>> {
    let ArrayData::Utf8(values) = array.data() else { panic!("expected utf8 storage") };
    (0..array.logical_len()).map(|i| array.is_valid(i).then_some(values[i].clone())).collect()
}

fn our_flag_rows(array: &Array) -> Vec<Option<bool>> {
    let ArrayData::Boolean(values) = array.data() else { panic!("expected boolean storage") };
    (0..array.logical_len()).map(|i| array.is_valid(i).then_some(values[i])).collect()
}

#[test]
fn concat_agrees_with_arrow_on_integers() {
    let parts = [
        int32s(&[Some(1), None, Some(3)]),
        int32s(&[]),
        int32s(&[None]),
        int32s(&[Some(i32::MIN), Some(i32::MAX)]),
    ];
    let ours: Vec<&Array> = parts.iter().map(|(a, _)| a).collect();
    let theirs: Vec<&dyn ArrowArray> = parts.iter().map(|(_, a)| a.as_ref()).collect();
    let ours = concat_arrays(&ours).unwrap();
    let theirs = compute::concat(&theirs).unwrap();
    assert_eq!(our_int32_rows(&ours), int32_rows(&theirs));
    assert_eq!(ours.logical_len(), theirs.len());
    assert_eq!(*ours.datatype(), DataType::Int32);
}

#[test]
fn concat_agrees_with_arrow_on_strings_and_booleans() {
    let parts = [strings(&[Some("a"), None]), strings(&[Some(""), Some("bcd")])];
    let ours: Vec<&Array> = parts.iter().map(|(a, _)| a).collect();
    let theirs: Vec<&dyn ArrowArray> = parts.iter().map(|(_, a)| a.as_ref()).collect();
    assert_eq!(
        our_string_rows(&concat_arrays(&ours).unwrap()),
        string_rows(&compute::concat(&theirs).unwrap())
    );

    let parts = [flags(&[Some(true)]), flags(&[None, Some(false)])];
    let ours: Vec<&Array> = parts.iter().map(|(a, _)| a).collect();
    let theirs: Vec<&dyn ArrowArray> = parts.iter().map(|(_, a)| a.as_ref()).collect();
    assert_eq!(
        our_flag_rows(&concat_arrays(&ours).unwrap()),
        flag_rows(&compute::concat(&theirs).unwrap())
    );
}

#[test]
fn concat_of_one_array_is_the_array() {
    let (ours, theirs) = int32s(&[Some(7), None]);
    assert_eq!(concat_arrays(&[&ours]).unwrap(), ours);
    assert_eq!(int32_rows(&compute::concat(&[theirs.as_ref()]).unwrap()), vec![Some(7), None]);
}

#[test]
fn concat_fails_where_arrow_fails() {
    assert!(concat_arrays(&[]).is_err());
    assert!(compute::concat(&[]).is_err());

    let (our_ints, their_ints) = int32s(&[Some(1)]);
    let (our_strings, their_strings) = strings(&[Some("a")]);
    assert!(concat_arrays(&[&our_ints, &our_strings]).is_err());
    assert!(compute::concat(&[their_ints.as_ref(), their_strings.as_ref()]).is_err());
}
