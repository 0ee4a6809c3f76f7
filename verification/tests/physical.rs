use rayexec_execution::array::{concat_arrays, gather, Array, RowPick};
use rayexec_execution::batch::Batch;
use rayexec_execution::bind_context::{BindContext, TableRef};
use rayexec_execution::database::entry::{CatalogEntry, CatalogEntryInner, ViewEntry};
use rayexec_execution::datatype::DataType;
use rayexec_execution::expr::arith_expr::ArithOperator;
use rayexec_execution::expr::comparison_expr::{ComparisonExpr, ComparisonOperator};
use rayexec_execution::functions::arith::ArithFunction;
use rayexec_execution::expr::column_expr::ColumnExpr;
use rayexec_execution::expr::physical::{resolve_column, PhysicalScalarExpression, TableWidth};
use rayexec_execution::expr::{
    arith, col_ref, lit, CastExpr, ConjunctionExpr, ConjunctionOperator, Expression, NegateExpr,
    NegateOperator,
};
use rayexec_execution::logical::logical_empty::LogicalEmpty;
use rayexec_execution::logical::logical_filter::LogicalFilter;
use rayexec_execution::logical::logical_join::LogicalCrossJoin;
use rayexec_execution::logical::logical_project::LogicalProject;
use rayexec_execution::logical::logical_scan::{LogicalScan, ScanSource};
use rayexec_execution::logical::operator::{LocationRequirement, LogicalOperator, Node};
use rayexec_execution::physical::lowering::plan_layout;
use rayexec_execution::physical::planner::{evaluate_values, PhysicalPlanner, PipelineBuilder};
use rayexec_execution::physical::plans::filter::PhysicalFilter;
use rayexec_execution::physical::plans::projection::PhysicalProjection;
use rayexec_execution::physical::plans::{PhysicalOperator, PhysicalSource};
use rayexec_execution::scalar::ScalarValue;
use rayexec_execution::storage::ArrayData;

fn int32s(values: Vec<i32>) -> Array {
    Array::from_data(ArrayData::Int32(values))
}

fn strings(values: &[&str]) -> Array {
    Array::from_data(ArrayData::Utf8(values.iter().map(|s| s.to_string()).collect()))
}

fn node<T>(node: T, children: Vec<LogicalOperator>) -> Node<T> {
    Node { node, location: LocationRequirement::Any, children }
}

fn values_scan(rows: Vec<Vec<Expression>>) -> LogicalOperator {
    LogicalOperator::Scan(node(
        LogicalScan {
            table_ref: TableRef { table_idx: 0 },
            types: vec![DataType::Int32, DataType::Utf8],
            names: vec!["c0".to_string(), "c1".to_string()],
            projection: vec![0, 1],
            source: ScanSource::ExpressionList { rows },
        },
        Vec::new(),
    ))
}

fn value_rows() -> Vec<Vec<Expression>> {
    vec![
        vec![lit(ScalarValue::Int32(1)), lit(ScalarValue::Utf8("a".to_string()))],
        vec![lit(ScalarValue::Int32(2)), lit(ScalarValue::Utf8("b".to_string()))],
    ]
}

#[test]
fn values_source() {
    let pipeline = PhysicalPlanner::new().create_plan(values_scan(value_rows()), "sink").unwrap();
    assert_eq!(pipeline.chains.len(), 1);
    assert_eq!(pipeline.sink, "sink");
    let chain = &pipeline.chains[0];
    assert!(chain.operators.is_empty());
    let PhysicalSource::Values(values) = &chain.source else { panic!("expected values") };
    assert_eq!(values.batch.num_rows(), 2);
    assert_eq!(values.batch.num_columns(), 2);
    assert_eq!(*values.batch.column(0).unwrap(), int32s(vec![1, 2]));
    assert_eq!(*values.batch.column(1).unwrap(), strings(&["a", "b"]));
    assert_eq!(*values.batch.column(0).unwrap().datatype(), DataType::Int32);
    assert_eq!(*values.batch.column(1).unwrap().datatype(), DataType::Utf8);
    assert!(values.batch.column(2).is_none());
}

#[test]
fn values_with_computed_and_null_entries() {
    let rows = vec![
        vec![arith(lit(ScalarValue::Int64(7)), ArithOperator::Mod, lit(ScalarValue::Int64(4)))],
        vec![lit(ScalarValue::Int64(10))],
    ];
    let batch = evaluate_values(&rows).unwrap();
    assert_eq!(batch.num_rows(), 2);
    assert_eq!(*batch.column(0).unwrap(), Array::from_data(ArrayData::Int64(vec![3, 10])));

    let nulls = vec![vec![lit(ScalarValue::Null)], vec![lit(ScalarValue::Null)]];
    let batch = evaluate_values(&nulls).unwrap();
    assert_eq!(batch.num_rows(), 2);
    assert_eq!(*batch.column(0).unwrap().datatype(), DataType::Null);
    assert!(!batch.column(0).unwrap().is_valid(1));
}

#[test]
fn values_with_arithmetic() {
    let rows = vec![vec![
        arith(lit(ScalarValue::Int8(100)), ArithOperator::Add, lit(ScalarValue::Int8(100))),
        arith(lit(ScalarValue::UInt8(3)), ArithOperator::Sub, lit(ScalarValue::UInt8(5))),
        arith(lit(ScalarValue::Int16(-300)), ArithOperator::Mul, lit(ScalarValue::Int16(300))),
        arith(lit(ScalarValue::Int32(-7)), ArithOperator::Div, lit(ScalarValue::Int32(2))),
        arith(
            arith(lit(ScalarValue::Int64(2)), ArithOperator::Add, lit(ScalarValue::Int64(3))),
            ArithOperator::Mul,
            lit(ScalarValue::Int64(4)),
        ),
    ]];
    let batch = evaluate_values(&rows).unwrap();
    assert_eq!(*batch.column(0).unwrap(), Array::from_data(ArrayData::Int8(vec![-56])));
    assert_eq!(*batch.column(1).unwrap(), Array::from_data(ArrayData::UInt8(vec![254])));
    assert_eq!(
        *batch.column(2).unwrap(),
        Array::from_data(ArrayData::Int16(vec![(-300i16).wrapping_mul(300)]))
    );
    assert_eq!(*batch.column(3).unwrap(), Array::from_data(ArrayData::Int32(vec![-3])));
    assert_eq!(*batch.column(4).unwrap(), Array::from_data(ArrayData::Int64(vec![20])));
}

#[test]
fn values_without_rows() {
    let batch = evaluate_values(&Vec::new()).unwrap();
    assert_eq!(batch.num_rows(), 0);
    assert_eq!(batch.num_columns(), 0);
}

#[test]
fn values_errors() {
    let ragged = vec![
        vec![lit(ScalarValue::Int32(1)), lit(ScalarValue::Int32(2))],
        vec![lit(ScalarValue::Int32(3))],
    ];
    assert_eq!(
        evaluate_values(&ragged).unwrap_err().to_string(),
        "Expected every row of values to have the same number of expressions"
    );

    let mixed = vec![vec![lit(ScalarValue::Int32(1))], vec![lit(ScalarValue::Int64(3))]];
    assert_eq!(
        evaluate_values(&mixed).unwrap_err().to_string(),
        "Cannot gather rows from arrays of different types"
    );

    let column = vec![vec![col_ref(TableRef { table_idx: 0 }, 0)]];
    assert_eq!(
        evaluate_values(&column).unwrap_err().to_string(),
        "Column is not part of the input: #0.0"
    );

    let unsupported = vec![vec![Expression::Cast(CastExpr {
        to: DataType::Int64,
        expr: Box::new(lit(ScalarValue::Int8(1))),
    })]];
    assert_eq!(
        evaluate_values(&unsupported).unwrap_err().to_string(),
        "Not yet implemented: physical expression for CAST(1 TO Int64)"
    );

    let by_zero =
        vec![vec![arith(lit(ScalarValue::Int8(1)), ArithOperator::Mod, lit(ScalarValue::Int8(0)))]];
    assert_eq!(evaluate_values(&by_zero).unwrap_err().to_string(), "Division by zero");

    let floats = vec![vec![arith(
        lit(ScalarValue::Float64(1.5f64.to_bits())),
        ArithOperator::Mod,
        lit(ScalarValue::Float64(0.5f64.to_bits())),
    )]];
    assert_eq!(
        evaluate_values(&floats).unwrap_err().to_string(),
        "Not yet implemented: arithmetic on floating-point arrays"
    );
}

#[test]
fn lowering_appends_operators_bottom_up() {
    let plan = LogicalOperator::Project(node(
        LogicalProject {
            projection_table: TableRef { table_idx: 1 },
            projections: vec![col_ref(TableRef { table_idx: 0 }, 1)],
        },
        vec![LogicalOperator::Filter(node(
            LogicalFilter { filter: lit(ScalarValue::Boolean(true)) },
            vec![values_scan(value_rows())],
        ))],
    ));
    let pipeline = PhysicalPlanner::new().create_plan(plan, 7u8).unwrap();
    assert_eq!(pipeline.sink, 7);
    assert_eq!(pipeline.chains.len(), 1);
    let chain = &pipeline.chains[0];
    assert_eq!(chain.operators.len(), 2);
    let PhysicalOperator::Filter(filter) = &chain.operators[0] else { panic!("expected filter") };
    assert_eq!(
        *filter,
        PhysicalFilter { predicate: PhysicalScalarExpression::Literal(ScalarValue::Boolean(true)) }
    );
    let PhysicalOperator::Projection(projection) = &chain.operators[1] else {
        panic!("expected projection")
    };
    assert_eq!(*projection, PhysicalProjection { exprs: vec![PhysicalScalarExpression::Column(1)] });

    let PhysicalSource::Values(values) = &chain.source else { panic!("expected values") };
    let input = Batch::try_new(vec![
        values.batch.column(0).unwrap().clone(),
        values.batch.column(1).unwrap().clone(),
    ])
    .unwrap();
    let out = chain.push_through(input).unwrap();
    assert_eq!(out.num_rows(), 2);
    assert_eq!(out.num_columns(), 1);
    assert_eq!(*out.column(0).unwrap(), strings(&["a", "b"]));
}

#[test]
fn lowering_of_leaves() {
    let empty = LogicalOperator::Empty(node(LogicalEmpty, Vec::new()));
    let pipeline = PhysicalPlanner::new().create_plan(empty, ()).unwrap();
    assert!(matches!(pipeline.chains[0].source, PhysicalSource::Empty(_)));

    let entry = CatalogEntry {
        name: "t".to_string(),
        entry: CatalogEntryInner::View(ViewEntry { query_sql: "select 1".to_string() }),
    };
    let scan = |source| {
        LogicalOperator::Scan(node(
            LogicalScan {
                table_ref: TableRef { table_idx: 0 },
                types: vec![DataType::Int8, DataType::Int8],
                names: vec!["a".to_string(), "b".to_string()],
                projection: vec![1],
                source,
            },
            Vec::new(),
        ))
    };
    let table = scan(ScanSource::Table {
        catalog: "c".to_string(),
        schema: "s".to_string(),
        source: CatalogEntry { name: "t".to_string(), entry: CatalogEntryInner::View(ViewEntry { query_sql: String::new() }) },
    });
    let pipeline = PhysicalPlanner::new().create_plan(table, ()).unwrap();
    let PhysicalSource::TableScan(source) = &pipeline.chains[0].source else {
        panic!("expected table scan")
    };
    assert_eq!(source.catalog, "c");
    assert_eq!(source.schema, "s");
    assert_eq!(source.entry.name, "t");
    assert_eq!(source.projection, vec![1]);

    let view = scan(ScanSource::View { catalog: "c".to_string(), schema: "s".to_string(), source: entry });
    let err = PhysicalPlanner::new().create_plan(view, ()).unwrap_err();
    assert_eq!(err.to_string(), "Not yet implemented: physical scan of this source");
}

#[test]
fn lowering_errors() {
    let cross = LogicalOperator::CrossJoin(node(LogicalCrossJoin, Vec::new()));
    let err = PhysicalPlanner::new().create_plan(cross, ()).unwrap_err();
    assert_eq!(err.to_string(), "Expected operator to have exactly two inputs");

    let over_join = LogicalOperator::Filter(node(
        LogicalFilter { filter: lit(ScalarValue::Boolean(true)) },
        vec![LogicalOperator::CrossJoin(node(LogicalCrossJoin, Vec::new()))],
    ));
    let err = PhysicalPlanner::new().create_plan(over_join, ()).unwrap_err();
    assert_eq!(err.to_string(), "Expected operator to have exactly two inputs");

    let foreign_column = LogicalOperator::Project(node(
        LogicalProject {
            projection_table: TableRef { table_idx: 1 },
            projections: vec![col_ref(TableRef { table_idx: 5 }, 0)],
        },
        vec![values_scan(value_rows())],
    ));
    let err = PhysicalPlanner::new().create_plan(foreign_column, ()).unwrap_err();
    assert_eq!(err.to_string(), "Column is not part of the input: #5.0");

    let childless = LogicalOperator::Filter(node(
        LogicalFilter { filter: lit(ScalarValue::Boolean(true)) },
        Vec::new(),
    ));
    let err = PhysicalPlanner::new().create_plan(childless, ()).unwrap_err();
    assert_eq!(err.to_string(), "Expected operator to have exactly one input");

    let mut builder = PipelineBuilder::new(());
    builder.plan_empty().unwrap();
    assert_eq!(builder.plan_empty().unwrap_err().to_string(), "Expected source to be None");
    assert_eq!(
        builder.plan_values(value_rows()).unwrap_err().to_string(),
        "Expected source to be None"
    );
    assert_eq!(
        builder.walk_plan(values_scan(value_rows())).unwrap_err().to_string(),
        "Expected source to be None"
    );
}

fn layout() -> Vec<TableWidth> {
    vec![TableWidth { table_ref: TableRef { table_idx: 0 }, num_columns: 2 }]
}

#[test]
fn columns_resolve_to_positions_in_the_input() {
    let layout = vec![
        TableWidth { table_ref: TableRef { table_idx: 4 }, num_columns: 2 },
        TableWidth { table_ref: TableRef { table_idx: 1 }, num_columns: 3 },
        TableWidth { table_ref: TableRef { table_idx: 7 }, num_columns: 1 },
    ];
    let resolve = |table_idx, column| {
        resolve_column(&layout, &ColumnExpr { table_scope: TableRef { table_idx }, column })
    };
    assert_eq!(resolve(4, 0).unwrap(), 0);
    assert_eq!(resolve(4, 1).unwrap(), 1);
    assert_eq!(resolve(1, 0).unwrap(), 2);
    assert_eq!(resolve(1, 2).unwrap(), 4);
    assert_eq!(resolve(7, 0).unwrap(), 5);
    assert_eq!(
        resolve(7, 1).unwrap_err().to_string(),
        "Column is not part of the input: #7.1"
    );
    assert_eq!(
        resolve(2, 0).unwrap_err().to_string(),
        "Column is not part of the input: #2.0"
    );

    let converted = PhysicalScalarExpression::try_from_uncorrelated_expr(
        arith(col_ref(TableRef { table_idx: 1 }, 1), ArithOperator::Add, col_ref(TableRef { table_idx: 7 }, 0)),
        &layout,
    )
    .unwrap();
    assert_eq!(
        converted,
        PhysicalScalarExpression::Arith {
            function: ArithFunction::Add,
            left: Box::new(PhysicalScalarExpression::Column(3)),
            right: Box::new(PhysicalScalarExpression::Column(5)),
        }
    );
}

#[test]
fn layouts_of_plans() {
    let scan = values_scan(value_rows());
    assert_eq!(plan_layout(&scan), Some(layout()));
    let filter = LogicalOperator::Filter(node(
        LogicalFilter { filter: lit(ScalarValue::Boolean(true)) },
        vec![values_scan(value_rows())],
    ));
    assert_eq!(plan_layout(&filter), Some(layout()));
    let project = LogicalOperator::Project(node(
        LogicalProject {
            projection_table: TableRef { table_idx: 3 },
            projections: vec![lit(ScalarValue::Int8(1))],
        },
        vec![filter],
    ));
    assert_eq!(
        plan_layout(&project),
        Some(vec![TableWidth { table_ref: TableRef { table_idx: 3 }, num_columns: 1 }])
    );
    assert_eq!(plan_layout(&LogicalOperator::Empty(node(LogicalEmpty, Vec::new()))), Some(vec![]));
    assert_eq!(plan_layout(&LogicalOperator::CrossJoin(node(LogicalCrossJoin, Vec::new()))), None);
}

fn batch() -> Batch {
    Batch::try_new(vec![int32s(vec![1, 2, 3]), strings(&["x", "y", "z"])]).unwrap()
}

#[test]
fn identity_projection_gives_the_input_back() {
    let projection = PhysicalProjection::try_new(vec![
        PhysicalScalarExpression::Column(0),
        PhysicalScalarExpression::Column(1),
    ])
    .unwrap();
    let once = projection.execute(&batch()).unwrap();
    assert_eq!(once.num_rows(), 3);
    assert_eq!(once.columns(), batch().columns());
    let twice = projection.execute(&once).unwrap();
    assert_eq!(twice.columns(), batch().columns());
}

#[test]
fn projection_evaluates_each_expression() {
    let projection = PhysicalProjection::try_new(vec![
        PhysicalScalarExpression::Literal(ScalarValue::Int8(9)),
        PhysicalScalarExpression::Arith {
            function: ArithFunction::Rem,
            left: Box::new(PhysicalScalarExpression::Column(0)),
            right: Box::new(PhysicalScalarExpression::Literal(ScalarValue::Int32(2))),
        },
    ])
    .unwrap();
    let out = projection.execute(&batch()).unwrap();
    assert_eq!(*out.column(0).unwrap(), Array::from_data(ArrayData::Int8(vec![9, 9, 9])));
    assert_eq!(*out.column(1).unwrap(), int32s(vec![1, 0, 1]));

    let missing = PhysicalProjection::try_new(vec![PhysicalScalarExpression::Column(2)]).unwrap();
    assert_eq!(
        missing.execute(&batch()).unwrap_err().to_string(),
        "Column index out of bounds for batch"
    );
}

#[test]
fn constant_filters() {
    let keep = PhysicalFilter::try_new(PhysicalScalarExpression::Literal(ScalarValue::Boolean(
        true,
    )))
    .unwrap();
    let out = keep.execute(&batch()).unwrap();
    assert_eq!(out.num_rows(), 3);
    assert_eq!(out.columns(), batch().columns());

    let drop = PhysicalFilter::try_new(PhysicalScalarExpression::Literal(ScalarValue::Boolean(
        false,
    )))
    .unwrap();
    let out = drop.execute(&batch()).unwrap();
    assert_eq!(out.num_rows(), 0);
    assert_eq!(out.num_columns(), 2);
    assert_eq!(*out.column(0).unwrap(), int32s(vec![]));
    assert_eq!(*out.column(1).unwrap(), strings(&[]));
}

#[test]
fn filter_keeps_rows_where_the_predicate_is_true() {
    let mask = Array::try_new(
        DataType::Boolean,
        ArrayData::Boolean(vec![true, true, false]),
        Some(vec![true, false, true]),
    )
    .unwrap();
    let input = Batch::try_new(vec![int32s(vec![1, 2, 3]), mask]).unwrap();
    let filter = PhysicalFilter::try_new(PhysicalScalarExpression::Column(1)).unwrap();
    let out = filter.execute(&input).unwrap();
    assert_eq!(out.num_rows(), 1);
    assert_eq!(*out.column(0).unwrap(), int32s(vec![1]));

    let not_boolean = PhysicalFilter::try_new(PhysicalScalarExpression::Column(0)).unwrap();
    assert_eq!(
        not_boolean.execute(&input).unwrap_err().to_string(),
        "Filter predicate must evaluate to a boolean array"
    );
}

fn compare(op: ComparisonOperator, left: Expression, right: Expression) -> Expression {
    Expression::Comparison(ComparisonExpr { left: Box::new(left), right: Box::new(right), op })
}

#[test]
fn filter_on_a_comparison() {
    let predicate = PhysicalScalarExpression::try_from_uncorrelated_expr(
        compare(
            ComparisonOperator::Gt,
            col_ref(TableRef { table_idx: 0 }, 0),
            lit(ScalarValue::Int32(1)),
        ),
        &layout(),
    )
    .unwrap();
    assert_eq!(
        predicate,
        PhysicalScalarExpression::Comparison {
            op: ComparisonOperator::Gt,
            left: Box::new(PhysicalScalarExpression::Column(0)),
            right: Box::new(PhysicalScalarExpression::Literal(ScalarValue::Int32(1))),
        }
    );
    let mask = predicate.eval(&batch()).unwrap();
    assert_eq!(mask, Array::from_data(ArrayData::Boolean(vec![false, true, true])));

    let out = PhysicalFilter::try_new(predicate).unwrap().execute(&batch()).unwrap();
    assert_eq!(out.num_rows(), 2);
    assert_eq!(*out.column(0).unwrap(), int32s(vec![2, 3]));
    assert_eq!(*out.column(1).unwrap(), strings(&["y", "z"]));
}

#[test]
fn comparisons_of_values() {
    let eval = |e: Expression| {
        PhysicalScalarExpression::try_from_uncorrelated_expr(e, &layout()).unwrap().eval(&batch())
    };
    let column = |i| col_ref(TableRef { table_idx: 0 }, i);

    let equal = eval(compare(ComparisonOperator::Eq, column(1), lit(ScalarValue::Utf8("y".into()))));
    assert_eq!(equal.unwrap(), Array::from_data(ArrayData::Boolean(vec![false, true, false])));

    let ordered = eval(compare(ComparisonOperator::Lt, column(1), column(1)));
    assert_eq!(
        ordered.unwrap_err().to_string(),
        "Cannot compare values of this type with this operator"
    );
    let mixed = eval(compare(ComparisonOperator::Eq, column(0), column(1)));
    assert_eq!(mixed.unwrap_err().to_string(), "Got invalid type(s) '[Int32, Utf8]' for '='");

    // A comparison with NULL is NULL.
    let with_null = eval(compare(ComparisonOperator::Eq, lit(ScalarValue::Null), lit(ScalarValue::Null)));
    let with_null = with_null.unwrap();
    assert_eq!(*with_null.datatype(), DataType::Boolean);
    assert_eq!(with_null.logical_len(), 3);
    assert!(!with_null.is_valid(0));

    let nested = eval(compare(
        ComparisonOperator::Eq,
        arith(column(0), ArithOperator::Mod, lit(ScalarValue::Int32(2))),
        lit(ScalarValue::Int32(1)),
    ));
    assert_eq!(nested.unwrap(), Array::from_data(ArrayData::Boolean(vec![true, false, true])));
}

fn flags(values: Vec<bool>, validity: Vec<bool>) -> Array {
    Array::try_new(DataType::Boolean, ArrayData::Boolean(values), Some(validity)).unwrap()
}

#[test]
fn conjunctions_use_three_valued_logic() {
    // true, false, NULL against true, false, NULL
    let a = flags(
        vec![true, true, true, false, false, false, false, false, false],
        vec![true, true, true, true, true, true, false, false, false],
    );
    let b = flags(
        vec![true, false, false, true, false, false, true, false, false],
        vec![true, true, false, true, true, false, true, true, false],
    );
    let input = Batch::try_new(vec![a, b]).unwrap();
    let eval = |op| {
        PhysicalScalarExpression::try_from_uncorrelated_expr(
            Expression::Conjunction(ConjunctionExpr {
                left: Box::new(col_ref(TableRef { table_idx: 0 }, 0)),
                right: Box::new(col_ref(TableRef { table_idx: 0 }, 1)),
                op,
            }),
            &layout(),
        )
        .unwrap()
        .eval(&input)
        .unwrap()
    };
    assert_eq!(
        eval(ConjunctionOperator::And),
        flags(
            vec![true, false, false, false, false, false, false, false, false],
            vec![true, true, false, true, true, true, false, true, false],
        )
    );
    assert_eq!(
        eval(ConjunctionOperator::Or),
        flags(
            vec![true, true, true, true, false, false, true, false, false],
            vec![true, true, true, true, true, false, true, false, false],
        )
    );
}

#[test]
fn conjunctions_need_booleans() {
    let err = PhysicalScalarExpression::try_from_uncorrelated_expr(
        Expression::Conjunction(ConjunctionExpr {
            left: Box::new(col_ref(TableRef { table_idx: 0 }, 0)),
            right: Box::new(lit(ScalarValue::Boolean(true))),
            op: ConjunctionOperator::And,
        }),
        &layout(),
    )
    .unwrap()
    .eval(&batch())
    .unwrap_err();
    assert_eq!(err.to_string(), "Conjunction needs boolean arrays");
}

#[test]
fn evaluated_arrays_have_the_declared_type() {
    let mut context = BindContext::new();
    let table_ref = context
        .push_table(None, vec![DataType::Int32, DataType::Utf8], vec!["a".into(), "b".into()])
        .unwrap();
    let column = |i| col_ref(table_ref, i);
    let expressions = vec![
        column(0),
        column(1),
        lit(ScalarValue::UInt8(3)),
        lit(ScalarValue::Null),
        arith(column(0), ArithOperator::Mul, lit(ScalarValue::Int32(2))),
        compare(ComparisonOperator::LtEq, column(0), column(0)),
        Expression::Negate(NegateExpr { op: NegateOperator::Negate, expr: Box::new(column(0)) }),
        Expression::Negate(NegateExpr {
            op: NegateOperator::Not,
            expr: Box::new(compare(ComparisonOperator::Eq, column(1), column(1))),
        }),
        Expression::Conjunction(ConjunctionExpr {
            left: Box::new(lit(ScalarValue::Boolean(true))),
            right: Box::new(compare(ComparisonOperator::Gt, column(0), lit(ScalarValue::Int32(1)))),
            op: ConjunctionOperator::Or,
        }),
    ];
    for expression in expressions {
        let declared = expression.datatype(&context).unwrap();
        let physical =
            PhysicalScalarExpression::try_from_uncorrelated_expr(expression, &layout()).unwrap();
        let array = physical.eval(&batch()).unwrap();
        assert_eq!(*array.datatype(), declared);
        assert_eq!(array.logical_len(), 3);
    }
}

#[test]
fn negations() {
    let eval = |op, i| {
        PhysicalScalarExpression::try_from_uncorrelated_expr(
            Expression::Negate(NegateExpr {
                op,
                expr: Box::new(col_ref(TableRef { table_idx: 0 }, i)),
            }),
            &vec![TableWidth { table_ref: TableRef { table_idx: 0 }, num_columns: 5 }],
        )
        .unwrap()
        .eval(
            &Batch::try_new(vec![
                Array::from_data(ArrayData::Int8(vec![5, -128, 0])),
                flags(vec![true, false, true], vec![true, true, false]),
                strings(&["a", "b", "c"]),
                Array::from_data(ArrayData::Float32(vec![0, 0, 0])),
                Array::from_data(ArrayData::UInt8(vec![1, 0, 255])),
            ])
            .unwrap(),
        )
    };
    assert_eq!(
        eval(NegateOperator::Negate, 0).unwrap(),
        Array::from_data(ArrayData::Int8(vec![-5, -128, 0]))
    );
    assert_eq!(
        eval(NegateOperator::Negate, 4).unwrap(),
        Array::from_data(ArrayData::UInt8(vec![255, 0, 1]))
    );
    assert_eq!(
        eval(NegateOperator::Not, 1).unwrap(),
        flags(vec![false, true, false], vec![true, true, false])
    );
    assert_eq!(
        eval(NegateOperator::Not, 0).unwrap_err().to_string(),
        "Got invalid type(s) '[Int8]' for 'NOT'"
    );
    assert_eq!(
        eval(NegateOperator::Negate, 2).unwrap_err().to_string(),
        "Got invalid type(s) '[Utf8]' for '-'"
    );
    assert_eq!(
        eval(NegateOperator::Negate, 3).unwrap_err().to_string(),
        "Not yet implemented: arithmetic on floating-point arrays"
    );
}

#[test]
fn batches_need_equal_length_columns() {
    let err = Batch::try_new(vec![int32s(vec![1, 2, 3]), int32s(vec![1])]).unwrap_err();
    assert_eq!(err.to_string(), "Expected input arrays to all be the same length");
    let empty = Batch::empty_with_num_rows(5);
    assert_eq!(empty.num_rows(), 5);
    assert_eq!(empty.num_columns(), 0);
    assert_eq!(Batch::try_new(Vec::new()).unwrap().num_rows(), 0);
    assert!(Batch::try_with_num_rows(vec![int32s(vec![1])], 2).is_err());
}

#[test]
fn arrays_gather_and_concat() {
    let a = int32s(vec![1, 2]);
    let b = Array::try_new(DataType::Int32, ArrayData::Int32(vec![3, 4]), Some(vec![false, true]))
        .unwrap();
    let joined = concat_arrays(&[&a, &b]).unwrap();
    let expected = Array::try_new(
        DataType::Int32,
        ArrayData::Int32(vec![1, 2, 0, 4]),
        Some(vec![true, true, false, true]),
    )
    .unwrap();
    assert_eq!(joined, expected);
    assert_ne!(joined, int32s(vec![1, 2, 3, 4]));

    let picked = gather(
        &[&a, &b],
        &vec![RowPick { source: 1, row: 1 }, RowPick { source: 0, row: 0 }],
    )
    .unwrap();
    assert_eq!(picked, int32s(vec![4, 1]));

    assert_eq!(
        concat_arrays(&[]).unwrap_err().to_string(),
        "Cannot gather rows from an empty list of arrays"
    );
    assert_eq!(
        concat_arrays(&[&a, &strings(&["x"])]).unwrap_err().to_string(),
        "Cannot gather rows from arrays of different types"
    );
    assert_eq!(
        gather(&[&a], &vec![RowPick { source: 0, row: 2 }]).unwrap_err().to_string(),
        "Row index out of bounds"
    );
    assert_eq!(
        Array::try_new(DataType::Int64, ArrayData::Int32(vec![1]), None).unwrap_err().to_string(),
        "Array parts disagree on storage or length"
    );
    assert_eq!(a.filter(&vec![false, true]), int32s(vec![2]));
    assert_eq!(Array::from_scalar(&ScalarValue::Utf8("k".to_string()), 2), strings(&["k", "k"]));
}
