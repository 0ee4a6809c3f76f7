use rayexec_execution::array::Array;
use rayexec_execution::batch::Batch;
use rayexec_execution::datatype::DataType;
use rayexec_execution::expr::physical::PhysicalScalarExpression;
use rayexec_execution::physical::chain::OperatorChain;
use rayexec_execution::physical::driver::{ChainAction, PollPull, PollPush};
use rayexec_execution::physical::plans::empty_source::EmptySource;
use rayexec_execution::logical::logical_setop::SetOpKind;
use rayexec_execution::physical::plans::filter::PhysicalFilter;
use rayexec_execution::physical::plans::limit::limit_rows;
use rayexec_execution::physical::plans::order::{order_batch, KeyOrder};
use rayexec_execution::physical::plans::set_operation::set_rows;
use rayexec_execution::physical::plans::nested_loop_join::cross_join;
use rayexec_execution::physical::plans::union::union_all;
use rayexec_execution::physical::plans::values::PhysicalValues;
use rayexec_execution::physical::plans::{PhysicalOperator, PhysicalSource};
use rayexec_execution::scalar::ScalarValue;
use rayexec_execution::storage::ArrayData;

fn int32s(values: Vec<i32>) -> Array {
    Array::from_data(ArrayData::Int32(values))
}

fn strings(values: &[&str]) -> Array {
    Array::from_data(ArrayData::Utf8(values.iter().map(|s| s.to_string()).collect()))
}

#[test]
fn cross_join_pairs_every_row() {
    let left = Batch::try_new(vec![int32s(vec![1, 2])]).unwrap();
    let right = Batch::try_new(vec![strings(&["a", "b", "c"]), int32s(vec![7, 8, 9])]).unwrap();
    let out = cross_join(&left, &right).unwrap();
    assert_eq!(out.num_rows(), 6);
    assert_eq!(out.num_columns(), 3);
    assert_eq!(*out.column(0).unwrap(), int32s(vec![1, 1, 1, 2, 2, 2]));
    assert_eq!(*out.column(1).unwrap(), strings(&["a", "b", "c", "a", "b", "c"]));
    assert_eq!(*out.column(2).unwrap(), int32s(vec![7, 8, 9, 7, 8, 9]));
}

#[test]
fn cross_join_with_empty_is_empty() {
    let a = Batch::try_new(vec![int32s(vec![1, 2, 3])]).unwrap();
    let empty = Batch::try_new(vec![strings(&[])]).unwrap();
    for out in [cross_join(&a, &empty).unwrap(), cross_join(&empty, &a).unwrap()] {
        assert_eq!(out.num_rows(), 0);
        assert_eq!(out.num_columns(), 2);
        assert_eq!(out.column(0).unwrap().logical_len(), 0);
        assert_eq!(out.column(1).unwrap().logical_len(), 0);
    }
    let no_columns = Batch::empty_with_num_rows(0);
    assert_eq!(cross_join(&a, &no_columns).unwrap().num_rows(), 0);
    // A batch of one row and no columns is the unit of the cross join.
    let unit = Batch::empty_with_num_rows(1);
    let out = cross_join(&a, &unit).unwrap();
    assert_eq!(out.columns(), a.columns());
    assert_eq!(out.num_rows(), 3);
}

#[test]
fn union_all_appends_rows() {
    let top = Batch::try_new(vec![int32s(vec![1, 2]), strings(&["a", "b"])]).unwrap();
    let bottom = Batch::try_new(vec![int32s(vec![3]), strings(&["c"])]).unwrap();
    let out = union_all(&top, &bottom).unwrap();
    assert_eq!(out.num_rows(), 3);
    assert_eq!(*out.column(0).unwrap(), int32s(vec![1, 2, 3]));
    assert_eq!(*out.column(1).unwrap(), strings(&["a", "b", "c"]));
}

#[test]
fn union_with_empty_is_the_other_side() {
    let a = Batch::try_new(vec![int32s(vec![1, 2]), strings(&["a", "b"])]).unwrap();
    let empty = Batch::try_new(vec![int32s(vec![]), strings(&[])]).unwrap();
    let out = union_all(&a, &empty).unwrap();
    assert_eq!(out.num_rows(), 2);
    assert_eq!(out.columns(), a.columns());
}

#[test]
fn union_errors() {
    let a = Batch::try_new(vec![int32s(vec![1, 2]), strings(&["a", "b"])]).unwrap();
    let narrow = Batch::try_new(vec![int32s(vec![1])]).unwrap();
    assert_eq!(
        union_all(&a, &narrow).unwrap_err().to_string(),
        "Cannot union batches with different numbers of columns"
    );
    let swapped = Batch::try_new(vec![strings(&["a"]), int32s(vec![1])]).unwrap();
    assert_eq!(
        union_all(&a, &swapped).unwrap_err().to_string(),
        "Cannot gather rows from arrays of different types"
    );
}

fn chain(source: PhysicalSource) -> OperatorChain {
    OperatorChain {
        source,
        operators: vec![PhysicalOperator::Filter(PhysicalFilter {
            predicate: PhysicalScalarExpression::Column(0),
        })],
    }
}

fn flags(values: Vec<bool>) -> Batch {
    Batch::try_new(vec![Array::from_data(ArrayData::Boolean(values))]).unwrap()
}

#[test]
fn driver_decisions() {
    let chain = chain(PhysicalSource::Empty(EmptySource::new()));
    assert!(matches!(chain.start(false), ChainAction::Pull));
    assert!(matches!(chain.start(true), ChainAction::Cancel));

    match chain.on_pulled(PollPull::Batch(flags(vec![true, false, true])), false) {
        ChainAction::Push(batch) => {
            assert_eq!(batch.num_rows(), 2);
            assert_eq!(*batch.column(0).unwrap().datatype(), DataType::Boolean);
        }
        other => panic!("unexpected action: {other:?}"),
    }
    let not_flags = Batch::try_new(vec![int32s(vec![1])]).unwrap();
    match chain.on_pulled(PollPull::Batch(not_flags), false) {
        ChainAction::Abort(error) => {
            assert_eq!(error.to_string(), "Filter predicate must evaluate to a boolean array")
        }
        other => panic!("unexpected action: {other:?}"),
    }
    assert!(matches!(chain.on_pulled(PollPull::Pending, false), ChainAction::ParkOnSource));
    assert!(matches!(chain.on_pulled(PollPull::Exhausted, false), ChainAction::Finish));
    assert!(matches!(
        chain.on_pulled(PollPull::Batch(flags(vec![true])), true),
        ChainAction::Cancel
    ));

    assert!(matches!(chain.on_pushed(PollPush::Ready, false), ChainAction::Pull));
    assert!(matches!(chain.on_pushed(PollPush::Pending, false), ChainAction::ParkOnSink));
    assert!(matches!(chain.on_pushed(PollPush::Full, false), ChainAction::ParkOnSink));
    assert!(matches!(chain.on_pushed(PollPush::Ready, true), ChainAction::Cancel));
}

#[test]
fn library_sources() {
    let mut empty = PhysicalSource::Empty(EmptySource::new());
    assert!(matches!(empty.poll_pull(), Some(PollPull::Exhausted)));

    let mut values = PhysicalSource::Values(PhysicalValues::new(flags(vec![true, false])));
    match values.poll_pull() {
        Some(PollPull::Batch(batch)) => assert_eq!(batch.columns(), flags(vec![true, false]).columns()),
        other => panic!("unexpected answer: {other:?}"),
    }
    assert!(matches!(values.poll_pull(), Some(PollPull::Exhausted)));
    assert!(matches!(values.poll_pull(), Some(PollPull::Exhausted)));
}

#[test]
fn literal_arrays() {
    assert_eq!(Array::from_scalar(&ScalarValue::Int32(4), 3), int32s(vec![4, 4, 4]));
    let nulls = Array::from_scalar(&ScalarValue::Null, 2);
    assert_eq!(nulls.logical_len(), 2);
    assert_eq!(*nulls.datatype(), DataType::Null);
    assert!(!nulls.is_valid(0));
    assert_eq!(nulls.clone(), nulls);
}

#[test]
fn row_counts_must_fit() {
    let huge = Batch::empty_with_num_rows(usize::MAX);
    let two = Batch::empty_with_num_rows(2);
    assert_eq!(
        cross_join(&huge, &two).unwrap_err().to_string(),
        "Cross join produces too many rows"
    );
    assert_eq!(union_all(&huge, &two).unwrap_err().to_string(), "Union produces too many rows");
    assert_eq!(cross_join(&two, &Batch::empty_with_num_rows(3)).unwrap().num_rows(), 6);
    assert_eq!(union_all(&two, &two).unwrap().num_rows(), 4);
}

#[test]
fn set_operations_on_batches() {
    let nullable = |values: Vec<Option<i32>>| {
        Batch::try_new(vec![Array::try_new(
            DataType::Int32,
            ArrayData::Int32(values.iter().map(|v| v.unwrap_or(0)).collect()),
            Some(values.iter().map(|v| v.is_some()).collect()),
        )
        .unwrap()])
        .unwrap()
    };
    let top = nullable(vec![Some(1), Some(1), Some(2), Some(3), None, None]);
    let bottom = nullable(vec![Some(1), None, Some(4)]);
    let rows = |kind, all| {
        let out = set_rows(kind, all, &top, &bottom).unwrap();
        let column = out.column(0).unwrap();
        let ArrayData::Int32(values) = column.data() else { panic!("expected integers") };
        (0..out.num_rows())
            .map(|i| if column.is_valid(i) { Some(values[i]) } else { None })
            .collect::<Vec<_>>()
    };
    assert_eq!(
        rows(SetOpKind::Union, false),
        vec![Some(1), Some(2), Some(3), None, Some(4)]
    );
    assert_eq!(rows(SetOpKind::Union, true).len(), 9);
    assert_eq!(rows(SetOpKind::Intersect, false), vec![Some(1), None]);
    assert_eq!(rows(SetOpKind::Intersect, true), vec![Some(1), None]);
    assert_eq!(rows(SetOpKind::Except, false), vec![Some(2), Some(3)]);
    assert_eq!(rows(SetOpKind::Except, true), vec![Some(1), Some(2), Some(3), None]);

    let wide = Batch::try_new(vec![int32s(vec![1]), int32s(vec![1])]).unwrap();
    assert_eq!(
        set_rows(SetOpKind::Except, false, &top, &wide).unwrap_err().to_string(),
        "Cannot union batches with different numbers of columns"
    );
}

#[test]
fn limit_keeps_a_window_of_rows() {
    let batch = Batch::try_new(vec![int32s(vec![1, 2, 3, 4, 5])]).unwrap();
    assert_eq!(*limit_rows(&batch, 1, 3).column(0).unwrap(), int32s(vec![2, 3, 4]));
    assert_eq!(*limit_rows(&batch, 0, 9).column(0).unwrap(), int32s(vec![1, 2, 3, 4, 5]));
    assert_eq!(limit_rows(&batch, 5, 1).num_rows(), 0);
    assert_eq!(*limit_rows(&batch, 4, usize::MAX).column(0).unwrap(), int32s(vec![5]));
}

#[test]
fn ordering_by_keys() {
    let nullable = |values: Vec<Option<i32>>| {
        Array::try_new(
            DataType::Int32,
            ArrayData::Int32(values.iter().map(|v| v.unwrap_or(0)).collect()),
            Some(values.iter().map(|v| v.is_some()).collect()),
        )
        .unwrap()
    };
    let batch = Batch::try_new(vec![strings(&["a", "b", "c", "d", "e"])]).unwrap();
    let keys = Batch::try_new(vec![
        nullable(vec![Some(2), None, Some(1), Some(2), None]),
        Array::from_data(ArrayData::Boolean(vec![true, true, false, false, false])),
    ])
    .unwrap();
    let order = |first: KeyOrder, second: KeyOrder| {
        order_batch(&batch, &keys, &vec![first, second]).unwrap().column(0).unwrap().clone()
    };
    let asc = KeyOrder { desc: false, nulls_first: false };
    let desc = KeyOrder { desc: true, nulls_first: false };
    let asc_nulls_first = KeyOrder { desc: false, nulls_first: true };
    assert_eq!(order(asc, asc), strings(&["c", "d", "a", "e", "b"]));
    assert_eq!(order(asc, desc), strings(&["c", "a", "d", "b", "e"]));
    assert_eq!(order(desc, asc), strings(&["d", "a", "c", "e", "b"]));
    assert_eq!(order(asc_nulls_first, asc), strings(&["e", "b", "c", "d", "a"]));

    assert_eq!(
        order_batch(&batch, &keys, &vec![asc]).unwrap_err().to_string(),
        "Expected one key column for each ordering"
    );
    let short = Batch::try_new(vec![int32s(vec![1])]).unwrap();
    assert_eq!(
        order_batch(&batch, &short, &vec![asc]).unwrap_err().to_string(),
        "Expected one row of keys for each row"
    );
    assert_eq!(
        order_batch(&batch, &batch, &vec![asc]).unwrap_err().to_string(),
        "Not yet implemented: ordering by a key that is neither an integer nor a boolean"
    );
}
