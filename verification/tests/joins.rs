use rayexec_execution::array::Array;
use rayexec_execution::batch::Batch;
use rayexec_execution::bind_context::TableRef;
use rayexec_execution::datatype::DataType;
use rayexec_execution::expr::comparison_expr::ComparisonOperator;
use rayexec_execution::logical::logical_join::JoinType;
use rayexec_execution::physical::plans::comparison_join::{
    join_keyed_rows, join_left_rows, visit_left, visit_right, JoinColumns,
};
use rayexec_execution::physical::plans::grouping_sets::expand_grouping_sets;
use rayexec_execution::storage::ArrayData;
use std::collections::BTreeSet;

fn int32s(values: Vec<i32>) -> Array {
    Array::from_data(ArrayData::Int32(values))
}

fn strings(values: &[&str]) -> Array {
    Array::from_data(ArrayData::Utf8(values.iter().map(|s| s.to_string()).collect()))
}

fn mark() -> JoinType {
    JoinType::LeftMark { table_ref: TableRef { table_idx: 9 } }
}

fn on_first_columns(op: ComparisonOperator) -> Vec<JoinColumns> {
    vec![JoinColumns { left: 0, right: 0, op }]
}

#[test]
fn left_mark_join() {
    let left = Batch::try_new(vec![int32s(vec![1, 2, 3])]).unwrap();
    let right = Batch::try_new(vec![int32s(vec![2])]).unwrap();
    let out =
        join_left_rows(mark(), &on_first_columns(ComparisonOperator::Eq), &left, &right).unwrap();
    assert_eq!(out.num_rows(), 3);
    assert_eq!(out.num_columns(), 2);
    assert_eq!(*out.column(0).unwrap(), int32s(vec![1, 2, 3]));
    assert_eq!(
        *out.column(1).unwrap(),
        Array::from_data(ArrayData::Boolean(vec![false, true, false]))
    );
    assert_eq!(*out.column(1).unwrap().datatype(), DataType::Boolean);
}

#[test]
fn semi_and_anti_joins_split_the_left_rows() {
    let left =
        Batch::try_new(vec![int32s(vec![1, 2, 3, 4]), strings(&["a", "b", "c", "d"])]).unwrap();
    let right = Batch::try_new(vec![int32s(vec![4, 2, 2])]).unwrap();
    let conditions = on_first_columns(ComparisonOperator::Eq);

    let semi = join_left_rows(JoinType::Semi, &conditions, &left, &right).unwrap();
    assert_eq!(semi.num_rows(), 2);
    assert_eq!(*semi.column(0).unwrap(), int32s(vec![2, 4]));
    assert_eq!(*semi.column(1).unwrap(), strings(&["b", "d"]));

    let anti = join_left_rows(JoinType::Anti, &conditions, &left, &right).unwrap();
    assert_eq!(anti.num_rows(), 2);
    assert_eq!(*anti.column(0).unwrap(), int32s(vec![1, 3]));
    assert_eq!(*anti.column(1).unwrap(), strings(&["a", "c"]));
}

#[test]
fn join_conditions_combine_and_nulls_never_match() {
    let left_keys = Array::try_new(
        DataType::Int32,
        ArrayData::Int32(vec![1, 2, 3]),
        Some(vec![true, false, true]),
    )
    .unwrap();
    let left = Batch::try_new(vec![left_keys, strings(&["x", "y", "z"])]).unwrap();
    let right = Batch::try_new(vec![int32s(vec![2, 5]), strings(&["y", "z"])]).unwrap();

    // left.key < right.key and left.name = right.name
    let conditions = vec![
        JoinColumns { left: 0, right: 0, op: ComparisonOperator::Lt },
        JoinColumns { left: 1, right: 1, op: ComparisonOperator::Eq },
    ];
    assert_eq!(visit_left(&conditions, &left, &right), vec![false, false, true]);

    let empty_right = Batch::try_new(vec![int32s(vec![]), strings(&[])]).unwrap();
    assert_eq!(visit_left(&conditions, &left, &empty_right), vec![false, false, false]);
    // Without conditions every right row is a partner.
    assert_eq!(visit_left(&Vec::new(), &left, &right), vec![true, true, true]);
    assert_eq!(visit_left(&Vec::new(), &left, &empty_right), vec![false, false, false]);
}

#[test]
fn join_errors() {
    let left = Batch::try_new(vec![int32s(vec![1])]).unwrap();
    let right = Batch::try_new(vec![strings(&["1"])]).unwrap();
    let err = join_left_rows(mark(), &on_first_columns(ComparisonOperator::Eq), &left, &right)
        .unwrap_err();
    assert_eq!(err.to_string(), "Join condition does not fit the columns of its inputs");
    let err = join_left_rows(
        mark(),
        &vec![JoinColumns { left: 1, right: 0, op: ComparisonOperator::Eq }],
        &left,
        &left,
    )
    .unwrap_err();
    assert_eq!(err.to_string(), "Join condition does not fit the columns of its inputs");
    let out = join_left_rows(JoinType::Right, &Vec::new(), &left, &left).unwrap();
    assert_eq!(out.num_rows(), left.num_rows() * left.num_rows());
}

#[test]
fn comparing_rows() {
    let a = int32s(vec![1, 5]);
    let b = int32s(vec![3]);
    assert_eq!(a.compare_rows(0, &b, 0, ComparisonOperator::Lt), Some(true));
    assert_eq!(a.compare_rows(1, &b, 0, ComparisonOperator::Lt), Some(false));
    assert_eq!(a.compare_rows(1, &b, 0, ComparisonOperator::GtEq), Some(true));
    assert_eq!(a.compare_rows(1, &b, 0, ComparisonOperator::NotEq), Some(true));
    let s = strings(&["a"]);
    assert_eq!(s.compare_rows(0, &s, 0, ComparisonOperator::Eq), Some(true));
    assert_eq!(s.compare_rows(0, &s, 0, ComparisonOperator::Lt), None);
    assert_eq!(a.compare_rows(0, &s, 0, ComparisonOperator::Eq), None);
    let flags = Array::from_data(ArrayData::Boolean(vec![false, true]));
    assert_eq!(flags.compare_rows(0, &flags, 1, ComparisonOperator::Lt), Some(true));
    let floats = Array::from_data(ArrayData::Float64(vec![1.0f64.to_bits()]));
    assert_eq!(floats.compare_rows(0, &floats, 0, ComparisonOperator::Eq), None);
}

#[test]
fn grouping_sets() {
    let groups = Batch::try_new(vec![int32s(vec![1, 1, 2]), strings(&["x", "y", "y"])]).unwrap();
    let sets = vec![BTreeSet::from([0]), BTreeSet::from([1]), BTreeSet::new()];
    let partitions = expand_grouping_sets(&groups, &sets).unwrap();
    assert_eq!(partitions.len(), 3);

    let ids = |id: u64| Array::from_data(ArrayData::UInt64(vec![id; 3]));
    let by_a = &partitions[0];
    assert_eq!(by_a.num_rows(), 3);
    assert_eq!(*by_a.column(0).unwrap(), int32s(vec![1, 1, 2]));
    assert_eq!(*by_a.column(1).unwrap(), strings(&["x", "y", "y"]).nulled());
    assert_eq!(*by_a.column(2).unwrap(), ids(1));

    let by_b = &partitions[1];
    assert_eq!(*by_b.column(0).unwrap(), int32s(vec![1, 1, 2]).nulled());
    assert_eq!(*by_b.column(1).unwrap(), strings(&["x", "y", "y"]));
    assert_eq!(*by_b.column(2).unwrap(), ids(2));

    let total = &partitions[2];
    assert!(!total.column(0).unwrap().is_valid(0));
    assert!(!total.column(1).unwrap().is_valid(2));
    assert_eq!(*total.column(2).unwrap(), ids(3));

    let all = expand_grouping_sets(&groups, &vec![BTreeSet::from([0, 1])]).unwrap();
    assert_eq!(all[0].column(0).unwrap(), groups.column(0).unwrap());
    assert_eq!(*all[0].column(2).unwrap(), ids(0));
    assert!(expand_grouping_sets(&groups, &Vec::new()).unwrap().is_empty());
}

#[test]
fn grouping_set_ids_need_to_fit() {
    let cols: Vec<Array> = (0..65).map(|_| int32s(vec![1])).collect();
    let groups = Batch::try_new(cols).unwrap();
    let err = expand_grouping_sets(&groups, &vec![BTreeSet::new()]).unwrap_err();
    assert_eq!(err.to_string(), "Too many group columns for a grouping set id");
    // Grouping on the first column leaves 64 digits, which still fit.
    let wide = expand_grouping_sets(&groups, &vec![BTreeSet::from([0])]).unwrap();
    assert_eq!(
        *wide[0].column(65).unwrap(),
        Array::from_data(ArrayData::UInt64(vec![u64::MAX]))
    );
}

fn nullable_int32s(values: Vec<Option<i32>>) -> Array {
    Array::try_new(
        DataType::Int32,
        ArrayData::Int32(values.iter().map(|v| v.unwrap_or(0)).collect()),
        Some(values.iter().map(|v| v.is_some()).collect()),
    )
    .unwrap()
}

fn nullable_strings(values: Vec<Option<&str>>) -> Array {
    Array::try_new(
        DataType::Utf8,
        ArrayData::Utf8(values.iter().map(|v| v.unwrap_or("").to_string()).collect()),
        Some(values.iter().map(|v| v.is_some()).collect()),
    )
    .unwrap()
}

fn people() -> Batch {
    Batch::try_new(vec![int32s(vec![1, 2, 3, 2]), strings(&["a", "b", "c", "d"])]).unwrap()
}

fn towns() -> Batch {
    Batch::try_new(vec![int32s(vec![2, 4, 2]), strings(&["x", "y", "z"])]).unwrap()
}

#[test]
fn inner_join_keeps_the_matching_pairs() {
    let on = on_first_columns(ComparisonOperator::Eq);
    let out = join_left_rows(JoinType::Inner, &on, &people(), &towns()).unwrap();
    assert_eq!(out.num_columns(), 4);
    assert_eq!(*out.column(0).unwrap(), int32s(vec![2, 2, 2, 2]));
    assert_eq!(*out.column(1).unwrap(), strings(&["b", "b", "d", "d"]));
    assert_eq!(*out.column(2).unwrap(), int32s(vec![2, 2, 2, 2]));
    assert_eq!(*out.column(3).unwrap(), strings(&["x", "z", "x", "z"]));

    let less = on_first_columns(ComparisonOperator::Lt);
    let out = join_left_rows(JoinType::Inner, &less, &people(), &towns()).unwrap();
    assert_eq!(*out.column(1).unwrap(), strings(&["a", "a", "a", "b", "c", "d"]));
    assert_eq!(*out.column(3).unwrap(), strings(&["x", "y", "z", "y", "y", "y"]));

    // Without conditions every pair matches.
    let out = join_left_rows(JoinType::Inner, &Vec::new(), &people(), &towns()).unwrap();
    assert_eq!(out.num_rows(), 12);
    let nobody = Batch::try_new(vec![int32s(Vec::new()), strings(&[])]).unwrap();
    let out = join_left_rows(JoinType::Inner, &on, &people(), &nobody).unwrap();
    assert_eq!((out.num_rows(), out.num_columns()), (0, 4));
}

#[test]
fn left_join_adds_the_left_rows_without_a_partner() {
    let on = on_first_columns(ComparisonOperator::Eq);
    let out = join_left_rows(JoinType::Left, &on, &people(), &towns()).unwrap();
    assert_eq!(out.num_rows(), 6);
    assert_eq!(*out.column(0).unwrap(), int32s(vec![2, 2, 2, 2, 1, 3]));
    assert_eq!(*out.column(1).unwrap(), strings(&["b", "b", "d", "d", "a", "c"]));
    assert_eq!(
        *out.column(2).unwrap(),
        nullable_int32s(vec![Some(2), Some(2), Some(2), Some(2), None, None])
    );
    assert_eq!(
        *out.column(3).unwrap(),
        nullable_strings(vec![Some("x"), Some("z"), Some("x"), Some("z"), None, None])
    );

    // A NULL has no partner.
    let left = Batch::try_new(vec![nullable_int32s(vec![None, Some(2)])]).unwrap();
    let right = Batch::try_new(vec![nullable_int32s(vec![None, Some(2)])]).unwrap();
    let out = join_left_rows(JoinType::Left, &on, &left, &right).unwrap();
    assert_eq!(*out.column(0).unwrap(), nullable_int32s(vec![Some(2), None]));
    assert_eq!(*out.column(1).unwrap(), nullable_int32s(vec![Some(2), None]));
}

#[test]
fn full_join_adds_the_rows_of_both_sides_without_a_partner() {
    let on = on_first_columns(ComparisonOperator::Eq);
    let out = join_left_rows(JoinType::Full, &on, &people(), &towns()).unwrap();
    assert_eq!(out.num_rows(), 7);
    assert_eq!(
        *out.column(0).unwrap(),
        nullable_int32s(vec![Some(2), Some(2), Some(2), Some(2), Some(1), Some(3), None])
    );
    assert_eq!(
        *out.column(1).unwrap(),
        nullable_strings(vec![Some("b"), Some("b"), Some("d"), Some("d"), Some("a"), Some("c"), None])
    );
    assert_eq!(
        *out.column(2).unwrap(),
        nullable_int32s(vec![Some(2), Some(2), Some(2), Some(2), None, None, Some(4)])
    );
    assert_eq!(
        *out.column(3).unwrap(),
        nullable_strings(vec![Some("x"), Some("z"), Some("x"), Some("z"), None, None, Some("y")])
    );
    assert_eq!(visit_right(&on, &people(), &towns()), vec![true, false, true]);
}

#[test]
fn right_join_adds_the_right_rows_without_a_partner() {
    let on = on_first_columns(ComparisonOperator::Eq);
    let out = join_left_rows(JoinType::Right, &on, &people(), &towns()).unwrap();
    assert_eq!(out.num_rows(), 5);
    assert_eq!(
        *out.column(0).unwrap(),
        nullable_int32s(vec![Some(2), Some(2), Some(2), Some(2), None])
    );
    assert_eq!(
        *out.column(1).unwrap(),
        nullable_strings(vec![Some("b"), Some("b"), Some("d"), Some("d"), None])
    );
    assert_eq!(*out.column(2).unwrap(), int32s(vec![2, 2, 2, 2, 4]));
    assert_eq!(*out.column(3).unwrap(), strings(&["x", "z", "x", "z", "y"]));
}

#[test]
fn joins_match_rows_by_their_keys() {
    let left = Batch::try_new(vec![strings(&["a", "b", "c"])]).unwrap();
    let left_keys = Batch::try_new(vec![int32s(vec![1, 2, 3])]).unwrap();
    let right = Batch::try_new(vec![strings(&["x", "y"])]).unwrap();
    let right_keys = Batch::try_new(vec![int32s(vec![3, 1])]).unwrap();
    let on = on_first_columns(ComparisonOperator::Eq);
    let out =
        join_keyed_rows(JoinType::Inner, &on, &left, &left_keys, &right, &right_keys).unwrap();
    assert_eq!(out.num_columns(), 2);
    assert_eq!(*out.column(0).unwrap(), strings(&["a", "c"]));
    assert_eq!(*out.column(1).unwrap(), strings(&["y", "x"]));
    let out = join_keyed_rows(JoinType::Anti, &on, &left, &left_keys, &right, &right_keys).unwrap();
    assert_eq!(*out.column(0).unwrap(), strings(&["b"]));

    let short = Batch::try_new(vec![int32s(vec![1])]).unwrap();
    let err = join_keyed_rows(JoinType::Inner, &on, &left, &short, &right, &right_keys)
        .unwrap_err();
    assert_eq!(err.to_string(), "Expected one row of join keys for each row");
    let err = join_keyed_rows(JoinType::Inner, &on, &left, &left_keys, &right, &right)
        .unwrap_err();
    assert_eq!(err.to_string(), "Join condition does not fit the columns of its inputs");
}
