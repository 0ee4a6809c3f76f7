use rayexec_execution::array::Array;
use rayexec_execution::batch::Batch;
use rayexec_execution::bind_context::TableRef;
use rayexec_execution::database::entry::{CatalogEntry, CatalogEntryInner, ViewEntry};
use rayexec_execution::datatype::DataType;
use rayexec_execution::expr::comparison_expr::{ComparisonExpr, ComparisonOperator};
use rayexec_execution::expr::arith_expr::ArithOperator;
use rayexec_execution::expr::{arith, col_ref, lit, Expression};
use rayexec_execution::logical::logical_aggregate::LogicalAggregate;
use rayexec_execution::logical::logical_empty::LogicalEmpty;
use rayexec_execution::logical::logical_filter::LogicalFilter;
use rayexec_execution::logical::logical_join::{
    ComparisonCondition, JoinType, LogicalArbitraryJoin, LogicalComparisonJoin, LogicalCrossJoin,
};
use rayexec_execution::logical::logical_limit::LogicalLimit;
use rayexec_execution::logical::logical_order::{LogicalOrder, OrderByExpr};
use rayexec_execution::logical::logical_set::LogicalSetVar;
use rayexec_execution::logical::logical_project::LogicalProject;
use rayexec_execution::logical::logical_scan::{LogicalScan, ScanSource};
use rayexec_execution::logical::logical_setop::{LogicalSetop, SetOpKind};
use rayexec_execution::logical::operator::{LocationRequirement, LogicalOperator, Node};
use rayexec_execution::physical::chain::collect_rows;
use rayexec_execution::physical::lowering::{lower_plan, plan_layout};
use rayexec_execution::physical::planner::{PhysicalPlanner, PipelineBuilder};
use rayexec_execution::physical::plans::{PhysicalOperator, PhysicalSource};
use rayexec_execution::scalar::ScalarValue;
use rayexec_execution::storage::ArrayData;
use std::collections::BTreeSet;

fn t(table_idx: usize) -> TableRef {
    TableRef { table_idx }
}

fn nd<T>(node: T, children: Vec<LogicalOperator>) -> Node<T> {
    Node { node, location: LocationRequirement::Any, children }
}

fn num(v: i32) -> Expression {
    lit(ScalarValue::Int32(v))
}

fn word(v: &str) -> Expression {
    lit(ScalarValue::Utf8(v.to_string()))
}

fn inline(table_idx: usize, types: Vec<DataType>, rows: Vec<Vec<Expression>>) -> LogicalOperator {
    let names = (0..types.len()).map(|i| format!("c{i}")).collect();
    let projection = (0..types.len()).collect();
    LogicalOperator::Scan(nd(
        LogicalScan {
            table_ref: t(table_idx),
            types,
            names,
            projection,
            source: ScanSource::ExpressionList { rows },
        },
        Vec::new(),
    ))
}

fn ids(table_idx: usize, values: &[i32]) -> LogicalOperator {
    inline(table_idx, vec![DataType::Int32], values.iter().map(|v| vec![num(*v)]).collect())
}

fn table_scan(table_idx: usize) -> LogicalOperator {
    LogicalOperator::Scan(nd(
        LogicalScan {
            table_ref: t(table_idx),
            types: vec![DataType::Int32],
            names: vec!["id".to_string()],
            projection: vec![0],
            source: ScanSource::Table {
                catalog: "c".to_string(),
                schema: "s".to_string(),
                source: CatalogEntry {
                    name: "t".to_string(),
                    entry: CatalogEntryInner::View(ViewEntry { query_sql: String::new() }),
                },
            },
        },
        Vec::new(),
    ))
}

fn empty() -> LogicalOperator {
    LogicalOperator::Empty(nd(LogicalEmpty, Vec::new()))
}

fn cross(left: LogicalOperator, right: LogicalOperator) -> LogicalOperator {
    LogicalOperator::CrossJoin(nd(LogicalCrossJoin, vec![left, right]))
}

fn union_all(table_idx: usize, top: LogicalOperator, bottom: LogicalOperator) -> LogicalOperator {
    LogicalOperator::SetOp(nd(
        LogicalSetop { kind: SetOpKind::Union, all: true, table_ref: t(table_idx) },
        vec![top, bottom],
    ))
}

fn filter(predicate: Expression, input: LogicalOperator) -> LogicalOperator {
    LogicalOperator::Filter(nd(LogicalFilter { filter: predicate }, vec![input]))
}

fn join(join_type: JoinType, left: LogicalOperator, right: LogicalOperator) -> LogicalOperator {
    LogicalOperator::ComparisonJoin(nd(
        LogicalComparisonJoin {
            join_type,
            conditions: vec![ComparisonCondition {
                left: col_ref(t(0), 0),
                right: col_ref(t(1), 0),
                op: ComparisonOperator::Eq,
            }],
        },
        vec![left, right],
    ))
}

fn int32s(values: Vec<i32>) -> Array {
    Array::from_data(ArrayData::Int32(values))
}

fn run(plan: LogicalOperator) -> Batch {
    let pipeline = PhysicalPlanner::new().create_plan(plan, ()).unwrap();
    collect_rows(&pipeline.chains).unwrap()
}

fn plan_error(plan: LogicalOperator) -> String {
    PhysicalPlanner::new().create_plan(plan, ()).unwrap_err().to_string()
}

#[test]
fn cross_join_with_the_empty_relation_has_no_rows() {
    let pipeline = PhysicalPlanner::new().create_plan(cross(ids(0, &[1, 2, 3]), empty()), ()).unwrap();
    assert_eq!(pipeline.chains.len(), 1);
    assert!(matches!(pipeline.chains[0].source, PhysicalSource::Values(_)));
    let PhysicalOperator::CrossJoin(op) = &pipeline.chains[0].operators[0] else {
        panic!("expected cross join")
    };
    assert_eq!(op.buffered.num_rows(), 0);
    assert!(!op.buffered_left);
    assert_eq!(collect_rows(&pipeline.chains).unwrap().num_rows(), 0);

    assert_eq!(run(cross(empty(), ids(0, &[1, 2, 3]))).num_rows(), 0);

    // The other side may be a table, whose rows the library does not read.
    for plan in [cross(table_scan(0), empty()), cross(empty(), table_scan(0))] {
        let pipeline = PhysicalPlanner::new().create_plan(plan, ()).unwrap();
        assert_eq!(pipeline.chains.len(), 1);
        assert!(matches!(pipeline.chains[0].source, PhysicalSource::TableScan(_)));
        let PhysicalOperator::CrossJoin(op) = &pipeline.chains[0].operators[0] else {
            panic!("expected cross join")
        };
        assert_eq!(op.buffered.num_rows(), 0);
        let probe = Batch::try_new(vec![int32s(vec![5, 6])]).unwrap();
        assert_eq!(pipeline.chains[0].push_through(probe).unwrap().num_rows(), 0);
    }
}

#[test]
fn lowered_cross_join_pairs_every_row() {
    let out = run(cross(ids(0, &[1, 2]), ids(1, &[10, 20, 30])));
    assert_eq!(out.num_rows(), 6);
    assert_eq!(*out.column(0).unwrap(), int32s(vec![1, 1, 1, 2, 2, 2]));
    assert_eq!(*out.column(1).unwrap(), int32s(vec![10, 20, 30, 10, 20, 30]));

    // The smaller side is buffered; the columns of the left come first.
    let out = run(cross(ids(0, &[1]), ids(1, &[10, 20])));
    assert_eq!(*out.column(0).unwrap(), int32s(vec![1, 1]));
    assert_eq!(*out.column(1).unwrap(), int32s(vec![10, 20]));

    assert_eq!(
        plan_error(cross(table_scan(0), table_scan(1))),
        "Not yet implemented: buffering the rows of a table scan"
    );
}

#[test]
fn union_all_with_the_empty_relation_is_its_input() {
    let pipeline =
        PhysicalPlanner::new().create_plan(union_all(5, ids(0, &[1, 2, 3]), empty()), ()).unwrap();
    assert_eq!(pipeline.chains.len(), 2);
    assert!(matches!(pipeline.chains[0].source, PhysicalSource::Values(_)));
    assert!(matches!(pipeline.chains[1].source, PhysicalSource::Empty(_)));
    let out = collect_rows(&pipeline.chains).unwrap();
    assert_eq!(out.num_columns(), 1);
    assert_eq!(*out.column(0).unwrap(), int32s(vec![1, 2, 3]));

    let out = run(union_all(5, empty(), ids(0, &[1, 2, 3])));
    assert_eq!(*out.column(0).unwrap(), int32s(vec![1, 2, 3]));
}

#[test]
fn union_all_keeps_the_rows_of_both_inputs() {
    let plan = union_all(5, ids(0, &[1, 2]), ids(1, &[2, 3]));
    assert_eq!(
        plan_layout(&plan).unwrap(),
        vec![rayexec_execution::expr::physical::TableWidth { table_ref: t(5), num_columns: 1 }]
    );
    let out = run(plan);
    assert_eq!(*out.column(0).unwrap(), int32s(vec![1, 2, 2, 3]));

    // An operator over a union runs on the chains of both inputs.
    let above = Expression::Comparison(ComparisonExpr {
        left: Box::new(col_ref(t(5), 0)),
        right: Box::new(num(1)),
        op: ComparisonOperator::Gt,
    });
    let pipeline = PhysicalPlanner::new()
        .create_plan(filter(above, union_all(5, ids(0, &[1, 2]), ids(1, &[2, 3]))), ())
        .unwrap();
    assert_eq!(pipeline.chains.len(), 2);
    assert_eq!(pipeline.chains[0].operators.len(), 1);
    assert_eq!(pipeline.chains[1].operators.len(), 1);
    let out = collect_rows(&pipeline.chains).unwrap();
    assert_eq!(*out.column(0).unwrap(), int32s(vec![2, 2, 3]));

}

fn setop(kind: SetOpKind, all: bool, top: &[i32], bottom: &[i32]) -> Batch {
    run(LogicalOperator::SetOp(nd(
        LogicalSetop { kind, all, table_ref: t(5) },
        vec![ids(0, top), ids(1, bottom)],
    )))
}

#[test]
fn set_operations_through_the_planner() {
    let top = [1, 1, 2, 3];
    let bottom = [1, 4, 4];
    let column = |batch: Batch| batch.column(0).unwrap().clone();
    assert_eq!(column(setop(SetOpKind::Union, true, &top, &bottom)), int32s(vec![1, 1, 2, 3, 1, 4, 4]));
    assert_eq!(column(setop(SetOpKind::Union, false, &top, &bottom)), int32s(vec![1, 2, 3, 4]));
    assert_eq!(column(setop(SetOpKind::Intersect, false, &top, &bottom)), int32s(vec![1]));
    assert_eq!(column(setop(SetOpKind::Intersect, true, &top, &[1, 1, 1, 3])), int32s(vec![1, 1, 3]));
    assert_eq!(column(setop(SetOpKind::Except, false, &top, &bottom)), int32s(vec![2, 3]));
    assert_eq!(column(setop(SetOpKind::Except, true, &top, &bottom)), int32s(vec![1, 2, 3]));

    // Any set operation but the union that keeps duplicates is the source of
    // its rows.
    let pipeline = PhysicalPlanner::new()
        .create_plan(
            LogicalOperator::SetOp(nd(
                LogicalSetop { kind: SetOpKind::Except, all: false, table_ref: t(5) },
                vec![ids(0, &top), ids(1, &bottom)],
            )),
            (),
        )
        .unwrap();
    assert_eq!(pipeline.chains.len(), 1);
    assert!(pipeline.chains[0].operators.is_empty());
    let mixed = LogicalOperator::SetOp(nd(
        LogicalSetop { kind: SetOpKind::Intersect, all: false, table_ref: t(5) },
        vec![
            ids(0, &top),
            inline(1, vec![DataType::Utf8], vec![vec![word("a")]]),
        ],
    ));
    assert_eq!(plan_error(mixed), "Cannot gather rows from arrays of different types");
}

#[test]
fn limits_through_the_planner() {
    let limit = |offset: Option<usize>, limit: usize| {
        run(LogicalOperator::Limit(nd(LogicalLimit { offset, limit }, vec![ids(0, &[1, 2, 3, 4])])))
            .column(0)
            .unwrap()
            .clone()
    };
    assert_eq!(limit(Some(1), 2), int32s(vec![2, 3]));
    assert_eq!(limit(None, 3), int32s(vec![1, 2, 3]));
    assert_eq!(limit(None, 0), int32s(Vec::new()));
    assert_eq!(limit(Some(1), usize::MAX), int32s(vec![2, 3, 4]));
    assert_eq!(limit(Some(9), 1), int32s(Vec::new()));
    assert_eq!(
        plan_error(LogicalOperator::Limit(nd(
            LogicalLimit { offset: None, limit: 1 },
            vec![table_scan(0)]
        ))),
        "Not yet implemented: buffering the rows of a table scan"
    );
}

#[test]
fn joins_on_an_arbitrary_condition() {
    let condition = || {
        Expression::Comparison(ComparisonExpr {
            left: Box::new(col_ref(t(0), 0)),
            right: Box::new(col_ref(t(1), 0)),
            op: ComparisonOperator::Lt,
        })
    };
    let arbitrary = |join_type| {
        LogicalOperator::ArbitraryJoin(nd(
            LogicalArbitraryJoin { join_type, condition: condition() },
            vec![ids(0, &[1, 2]), ids(1, &[2, 3])],
        ))
    };
    let out = run(arbitrary(JoinType::Inner));
    assert_eq!(*out.column(0).unwrap(), int32s(vec![1, 1, 2]));
    assert_eq!(*out.column(1).unwrap(), int32s(vec![2, 3, 3]));
    assert_eq!(
        plan_error(arbitrary(JoinType::Left)),
        "Not yet implemented: join on an arbitrary condition of type LEFT"
    );
}

fn set_var() -> LogicalOperator {
    LogicalOperator::SetVar(nd(
        LogicalSetVar { name: "v".to_string(), value: ScalarValue::Int32(1) },
        Vec::new(),
    ))
}

#[test]
fn nodes_without_a_physical_form() {
    assert_eq!(plan_error(set_var()), "Not yet implemented: physical plan for SetVar");
}

fn order_by(keys: Vec<(Expression, bool, bool)>, input: LogicalOperator) -> LogicalOperator {
    LogicalOperator::Order(nd(
        LogicalOrder {
            exprs: keys
                .into_iter()
                .map(|(expr, desc, nulls_first)| OrderByExpr { expr, desc, nulls_first })
                .collect(),
        },
        vec![input],
    ))
}

fn pairs() -> LogicalOperator {
    inline(
        0,
        vec![DataType::Int32, DataType::Utf8],
        vec![
            vec![num(2), word("a")],
            vec![num(1), word("b")],
            vec![num(2), word("c")],
            vec![num(1), word("d")],
            vec![num(3), word("e")],
        ],
    )
}

fn words(values: &[&str]) -> Array {
    Array::from_data(ArrayData::Utf8(values.iter().map(|s| s.to_string()).collect()))
}

#[test]
fn orderings_through_the_planner() {
    let out = run(order_by(vec![(col_ref(t(0), 0), false, false)], pairs()));
    assert_eq!(*out.column(0).unwrap(), int32s(vec![1, 1, 2, 2, 3]));
    // Rows with the same key stay in the order they came in.
    assert_eq!(*out.column(1).unwrap(), words(&["b", "d", "a", "c", "e"]));

    let out = run(order_by(vec![(col_ref(t(0), 0), true, false)], pairs()));
    assert_eq!(*out.column(0).unwrap(), int32s(vec![3, 2, 2, 1, 1]));
    assert_eq!(*out.column(1).unwrap(), words(&["e", "a", "c", "b", "d"]));

    // Without keys the rows stay as they are.
    let out = run(order_by(Vec::new(), pairs()));
    assert_eq!(*out.column(1).unwrap(), words(&["a", "b", "c", "d", "e"]));

    assert_eq!(
        plan_error(order_by(vec![(col_ref(t(0), 1), false, false)], pairs())),
        "Not yet implemented: ordering by a key that is neither an integer nor a boolean"
    );
    assert_eq!(
        plan_error(order_by(vec![(col_ref(t(4), 0), false, false)], pairs())),
        "Column is not part of the input: #4.0"
    );

    // The rows above a limit are those of the ordering.
    let top = LogicalOperator::Limit(nd(
        LogicalLimit { offset: None, limit: 2 },
        vec![order_by(vec![(col_ref(t(0), 0), true, false)], pairs())],
    ));
    assert_eq!(*run(top).column(1).unwrap(), words(&["e", "a"]));
}

#[test]
fn left_mark_join_through_the_planner() {
    let plan = join(JoinType::LeftMark { table_ref: t(2) }, ids(0, &[1, 2, 3]), ids(1, &[2]));
    let out = run(plan);
    assert_eq!(out.num_columns(), 2);
    assert_eq!(*out.column(0).unwrap(), int32s(vec![1, 2, 3]));
    assert_eq!(
        *out.column(1).unwrap(),
        Array::from_data(ArrayData::Boolean(vec![false, true, false]))
    );

    // The mark is a column of the join's own table.
    let marks = LogicalOperator::Project(nd(
        LogicalProject { projection_table: t(3), projections: vec![col_ref(t(2), 0)] },
        vec![join(JoinType::LeftMark { table_ref: t(2) }, ids(0, &[1, 2, 3]), ids(1, &[2]))],
    ));
    let out = run(marks);
    assert_eq!(out.num_columns(), 1);
    assert_eq!(
        *out.column(0).unwrap(),
        Array::from_data(ArrayData::Boolean(vec![false, true, false]))
    );
}

#[test]
fn semi_and_anti_joins_through_the_planner() {
    let out = run(join(JoinType::Semi, ids(0, &[1, 2, 3]), ids(1, &[2, 3, 3])));
    assert_eq!(out.num_columns(), 1);
    assert_eq!(*out.column(0).unwrap(), int32s(vec![2, 3]));
    let out = run(join(JoinType::Anti, ids(0, &[1, 2, 3]), ids(1, &[2, 3, 3])));
    assert_eq!(*out.column(0).unwrap(), int32s(vec![1]));
    let out = run(join(JoinType::Anti, ids(0, &[1, 2, 3]), ids(1, &[9])));
    assert_eq!(*out.column(0).unwrap(), int32s(vec![1, 2, 3]));

    assert_eq!(
        plan_error(join(JoinType::Semi, ids(0, &[1]), table_scan(1))),
        "Not yet implemented: buffering the rows of a table scan"
    );
    let probe_a_table =
        PhysicalPlanner::new().create_plan(join(JoinType::Semi, table_scan(0), ids(1, &[2])), ());
    let pipeline = probe_a_table.unwrap();
    let probe = Batch::try_new(vec![int32s(vec![1, 2])]).unwrap();
    let out = pipeline.chains[0].push_through(probe).unwrap();
    assert_eq!(*out.column(0).unwrap(), int32s(vec![2]));

    let not_columns = LogicalOperator::ComparisonJoin(nd(
        LogicalComparisonJoin {
            join_type: JoinType::Semi,
            conditions: vec![ComparisonCondition {
                left: col_ref(t(0), 0),
                right: num(2),
                op: ComparisonOperator::Eq,
            }],
        },
        vec![ids(0, &[1]), ids(1, &[2])],
    ));
    // A side of a condition may be any expression over the columns of its
    // input.
    assert_eq!(run(not_columns).num_rows(), 0);
    let shifted = LogicalOperator::ComparisonJoin(nd(
        LogicalComparisonJoin {
            join_type: JoinType::Inner,
            conditions: vec![ComparisonCondition {
                left: arith(col_ref(t(0), 0), ArithOperator::Add, num(1)),
                right: col_ref(t(1), 0),
                op: ComparisonOperator::Eq,
            }],
        },
        vec![ids(0, &[1, 2, 3]), ids(1, &[2, 4])],
    ));
    let out = run(shifted);
    assert_eq!(out.num_columns(), 2);
    assert_eq!(*out.column(0).unwrap(), int32s(vec![1, 3]));
    assert_eq!(*out.column(1).unwrap(), int32s(vec![2, 4]));
    let foreign = LogicalOperator::ComparisonJoin(nd(
        LogicalComparisonJoin {
            join_type: JoinType::Inner,
            conditions: vec![ComparisonCondition {
                left: col_ref(t(1), 0),
                right: col_ref(t(1), 0),
                op: ComparisonOperator::Eq,
            }],
        },
        vec![ids(0, &[1]), ids(1, &[2])],
    ));
    assert_eq!(plan_error(foreign), "Column is not part of the input: #1.0");
    let one_input = LogicalOperator::ComparisonJoin(nd(
        LogicalComparisonJoin { join_type: JoinType::Semi, conditions: Vec::new() },
        vec![ids(0, &[1])],
    ));
    assert_eq!(plan_error(one_input), "Expected operator to have exactly two inputs");
}

fn grouping(
    sets: Option<Vec<Vec<usize>>>,
    with_ids: bool,
    aggregates: Vec<Expression>,
) -> LogicalOperator {
    let input = inline(
        0,
        vec![DataType::Int32, DataType::Utf8],
        vec![vec![num(1), word("x")], vec![num(1), word("y")], vec![num(2), word("y")]],
    );
    LogicalOperator::Aggregate(nd(
        LogicalAggregate {
            aggregates_table: t(1),
            aggregates,
            group_table: Some(t(2)),
            group_exprs: vec![col_ref(t(0), 0), col_ref(t(0), 1)],
            grouping_sets: sets
                .map(|sets| sets.into_iter().map(|s| s.into_iter().collect::<BTreeSet<_>>()).collect()),
            grouping_set_table: if with_ids { Some(t(3)) } else { None },
        },
        vec![input],
    ))
}

#[test]
fn grouping_sets_through_the_planner() {
    let out = run(grouping(Some(vec![vec![0], vec![1], vec![]]), true, Vec::new()));
    assert_eq!(out.num_columns(), 3);
    assert_eq!(out.num_rows(), 5);
    let a = out.column(0).unwrap();
    let b = out.column(1).unwrap();
    let valid = |array: &Array| (0..5).map(|i| array.is_valid(i)).collect::<Vec<_>>();
    assert_eq!(valid(a), vec![true, true, false, false, false]);
    assert_eq!(valid(b), vec![false, false, true, true, false]);
    assert_eq!(
        *a,
        Array::try_new(
            DataType::Int32,
            ArrayData::Int32(vec![1, 2, 0, 0, 0]),
            Some(vec![true, true, false, false, false]),
        )
        .unwrap()
    );
    assert_eq!(
        *b,
        Array::try_new(
            DataType::Utf8,
            ArrayData::Utf8(
                ["", "", "x", "y", ""].iter().map(|s| s.to_string()).collect()
            ),
            Some(vec![false, false, true, true, false]),
        )
        .unwrap()
    );
    let ArrayData::UInt64(tags) = out.column(2).unwrap().data() else { panic!("expected ids") };
    assert_eq!(*tags, vec![1, 1, 2, 2, 3]);
    let distinct: BTreeSet<u64> = tags.iter().copied().collect();
    assert_eq!(distinct.len(), 3);
}

#[test]
fn grouping_without_sets_or_ids() {
    // Without grouping sets the rows are grouped on all group expressions.
    let out = run(grouping(None, false, Vec::new()));
    assert_eq!(out.num_columns(), 2);
    assert_eq!(*out.column(0).unwrap(), int32s(vec![1, 1, 2]));
    let out = run(grouping(Some(vec![vec![0]]), false, Vec::new()));
    assert_eq!(out.num_columns(), 2);
    assert_eq!(out.num_rows(), 2);
    assert_eq!(*out.column(0).unwrap(), int32s(vec![1, 2]));

    assert_eq!(
        plan_error(grouping(None, false, vec![num(1)])),
        "Not yet implemented: aggregate functions"
    );
    let layout = plan_layout(&grouping(None, true, Vec::new())).unwrap();
    assert_eq!(layout.len(), 3);
    assert_eq!((layout[0].table_ref, layout[0].num_columns), (t(1), 0));
    assert_eq!((layout[1].table_ref, layout[1].num_columns), (t(2), 2));
    assert_eq!((layout[2].table_ref, layout[2].num_columns), (t(3), 1));
}

#[test]
fn filters_over_a_cross_join() {
    let joined = || cross(ids(0, &[1, 2]), ids(1, &[10, 20]));
    let unfiltered = run(joined());
    let out = run(filter(lit(ScalarValue::Boolean(true)), joined()));
    assert_eq!(out.num_rows(), 4);
    assert_eq!(*out.column(0).unwrap(), *unfiltered.column(0).unwrap());
    assert_eq!(*out.column(1).unwrap(), *unfiltered.column(1).unwrap());
    let out = run(filter(lit(ScalarValue::Boolean(false)), joined()));
    assert_eq!(out.num_rows(), 0);
    assert_eq!(out.num_columns(), 2);
}

#[test]
fn a_failed_step_leaves_the_builder_as_it_was() {
    let mut builder = PipelineBuilder::new(7u8);
    let ragged = vec![vec![num(1)], vec![num(1), num(2)]];
    assert!(builder.plan_values(ragged).is_err());
    assert!(builder.walk_plan(cross(table_scan(0), table_scan(1))).is_err());
    assert!(builder
        .walk_plan(filter(col_ref(t(9), 0), union_all(5, ids(0, &[1]), ids(1, &[2]))))
        .is_err());
    assert!(builder.source.is_none());
    assert!(builder.operators.is_empty());
    assert!(builder.completed_chains.is_empty());
    assert_eq!(builder.sink, 7);

    builder.walk_plan(union_all(5, ids(0, &[1]), ids(1, &[2]))).unwrap();
    assert_eq!(builder.completed_chains.len(), 1);
    assert!(builder.source.is_some());
    assert!(builder.plan_empty().is_err());
    assert!(builder.plan_scan(nd(
        LogicalScan {
            table_ref: t(0),
            types: Vec::new(),
            names: Vec::new(),
            projection: Vec::new(),
            source: ScanSource::ExpressionList { rows: Vec::new() },
        },
        Vec::new(),
    ))
    .is_err());
    assert_eq!(builder.completed_chains.len(), 1);
    assert!(builder.operators.is_empty());
    assert!(matches!(builder.source, Some(PhysicalSource::Values(_))));
}

#[test]
fn lowering_gives_the_chains_of_the_plan() {
    let chains = lower_plan(union_all(5, empty(), cross(ids(0, &[1]), empty()))).unwrap();
    assert_eq!(chains.len(), 2);
    assert!(chains[0].operators.is_empty());
    assert_eq!(chains[1].operators.len(), 1);
    assert!(chains[0].run().unwrap().is_none());
    assert_eq!(chains[1].run().unwrap().unwrap().num_rows(), 0);
}

#[test]
fn inner_and_outer_joins_through_the_planner() {
    let out = run(join(JoinType::Inner, ids(0, &[1, 2, 3]), ids(1, &[2, 3, 3])));
    assert_eq!(out.num_columns(), 2);
    assert_eq!(*out.column(0).unwrap(), int32s(vec![2, 3, 3]));
    assert_eq!(*out.column(1).unwrap(), int32s(vec![2, 3, 3]));

    let out = run(join(JoinType::Left, ids(0, &[1, 2]), ids(1, &[2, 5])));
    assert_eq!(*out.column(0).unwrap(), int32s(vec![2, 1]));
    assert_eq!(out.column(1).unwrap().is_valid(0), true);
    assert_eq!(out.column(1).unwrap().is_valid(1), false);

    // A full join is the source of its rows.
    let pipeline = PhysicalPlanner::new()
        .create_plan(join(JoinType::Full, ids(0, &[1, 2]), ids(1, &[2, 5])), ())
        .unwrap();
    assert_eq!(pipeline.chains.len(), 1);
    assert!(pipeline.chains[0].operators.is_empty());
    let out = collect_rows(&pipeline.chains).unwrap();
    assert_eq!(out.num_rows(), 3);
    let valid = |c: usize| (0..3).map(|i| out.column(c).unwrap().is_valid(i)).collect::<Vec<_>>();
    assert_eq!(valid(0), vec![true, true, false]);
    assert_eq!(valid(1), vec![true, false, true]);
    assert_eq!(
        plan_error(join(JoinType::Full, table_scan(0), ids(1, &[2]))),
        "Not yet implemented: buffering the rows of a table scan"
    );

    let out = run(join(JoinType::Right, ids(0, &[1, 2]), ids(1, &[2, 5])));
    assert_eq!(*out.column(1).unwrap(), int32s(vec![2, 5]));
    assert!(out.column(0).unwrap().is_valid(0));
    assert!(!out.column(0).unwrap().is_valid(1));

    // The columns of both sides can be projected from above the join.
    let both = LogicalOperator::Project(nd(
        LogicalProject {
            projection_table: t(3),
            projections: vec![col_ref(t(1), 0), col_ref(t(0), 0)],
        },
        vec![join(JoinType::Inner, ids(0, &[1, 2, 3]), ids(1, &[3]))],
    ));
    let out = run(both);
    assert_eq!(*out.column(0).unwrap(), int32s(vec![3]));
    assert_eq!(*out.column(1).unwrap(), int32s(vec![3]));
}

#[test]
fn expressions_are_converted_before_the_input_is_lowered() {
    let ragged = || inline(0, vec![DataType::Int32], vec![vec![num(1)], vec![num(1), num(2)]]);
    let foreign = LogicalOperator::Project(nd(
        LogicalProject { projection_table: t(1), projections: vec![col_ref(t(7), 0)] },
        vec![ragged()],
    ));
    assert_eq!(plan_error(foreign), "Column is not part of the input: #7.0");
    assert_eq!(plan_error(filter(col_ref(t(7), 0), ragged())), "Column is not part of the input: #7.0");
    assert_eq!(
        plan_error(filter(lit(ScalarValue::Boolean(true)), ragged())),
        "Expected every row of values to have the same number of expressions"
    );

    // An input without a layout fails as lowering it does.
    assert_eq!(
        plan_error(filter(col_ref(t(7), 0), set_var())),
        "Not yet implemented: physical plan for SetVar"
    );
}
