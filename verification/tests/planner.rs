use rayexec_execution::bind_context::{BindContext, TableRef};
use rayexec_execution::database::entry::{CatalogEntry, CatalogEntryInner, TableEntry};
use rayexec_execution::datatype::{DataType, Field};
use rayexec_execution::explain::{ExplainConfig, ExplainValue, Explainable};
use rayexec_execution::expr::comparison_expr::ComparisonOperator;
use rayexec_execution::expr::{col_ref, lit, Expression};
use rayexec_execution::logical::binder::bind_query::{
    BoundBaseTable, BoundFrom, BoundGroupBy, BoundJoin, BoundJoinCondition, BoundQuery,
    BoundSelect, BoundSelectList, BoundSetOp, BoundValues,
};
use rayexec_execution::logical::logical_aggregate::LogicalAggregate;
use rayexec_execution::logical::logical_join::{ComparisonCondition, JoinType};
use rayexec_execution::logical::logical_limit::LogicalLimit;
use rayexec_execution::logical::logical_order::OrderByExpr;
use rayexec_execution::logical::logical_scan::ScanSource;
use rayexec_execution::logical::logical_setop::SetOpKind;
use rayexec_execution::logical::operator::{LocationRequirement, LogicalOperator, Node};
use rayexec_execution::logical::planner::plan_query::QueryPlanner;
use rayexec_execution::scalar::ScalarValue;
use std::collections::BTreeSet;

fn value_rows() -> Vec<Vec<Expression>> {
    vec![
        vec![lit(ScalarValue::Int32(1)), lit(ScalarValue::Utf8("a".to_string()))],
        vec![lit(ScalarValue::Int32(2)), lit(ScalarValue::Utf8("b".to_string()))],
    ]
}

fn push(context: &mut BindContext, types: Vec<DataType>) -> TableRef {
    let names = (0..types.len()).map(|i| format!("c{i}")).collect();
    context.push_table(None, types, names).unwrap()
}

#[test]
fn plan_values() {
    let mut context = BindContext::new();
    let table_ref = push(&mut context, vec![DataType::Int32, DataType::Utf8]);
    let plan = QueryPlanner
        .plan(
            &mut context,
            BoundQuery::Values(BoundValues { rows: value_rows(), expressions_table: table_ref }),
        )
        .unwrap();

    match &plan {
        LogicalOperator::Scan(node) => {
            assert_eq!(node.node.table_ref, table_ref);
            assert_eq!(node.node.types, vec![DataType::Int32, DataType::Utf8]);
            assert_eq!(node.node.names, vec!["c0".to_string(), "c1".to_string()]);
            assert_eq!(node.node.projection, vec![0, 1]);
            assert_eq!(node.node.source, ScanSource::ExpressionList { rows: value_rows() });
            assert_eq!(node.location, LocationRequirement::Any);
            assert!(node.children.is_empty());
        }
        other => panic!("unexpected plan: {other:?}"),
    }
    assert_eq!(plan.get_output_table_refs(), vec![table_ref]);
    assert_eq!(context.num_tables(), 1);
}

#[test]
fn plan_values_with_unknown_table() {
    let mut context = BindContext::new();
    let err = QueryPlanner
        .plan(
            &mut context,
            BoundQuery::Values(BoundValues {
                rows: value_rows(),
                expressions_table: TableRef { table_idx: 4 },
            }),
        )
        .unwrap_err();
    assert_eq!(err.to_string(), "Missing table scope in bind context: #4");
}

fn table_entry(name: &str) -> CatalogEntry {
    CatalogEntry {
        name: name.to_string(),
        entry: CatalogEntryInner::Table(TableEntry {
            columns: vec![Field {
                name: "c0".to_string(),
                datatype: DataType::Int64,
                nullable: true,
            }],
        }),
    }
}

fn base_table(table_ref: TableRef, name: &str) -> BoundFrom {
    BoundFrom::BaseTable(BoundBaseTable {
        table_ref,
        location: LocationRequirement::ClientLocal,
        catalog: "temp".to_string(),
        schema: "temp".to_string(),
        entry: table_entry(name),
    })
}

fn select(from: BoundFrom, projections_table: TableRef, aggregates_table: TableRef) -> BoundSelect {
    BoundSelect {
        select_list: BoundSelectList {
            projections_table,
            projections: vec![col_ref(TableRef { table_idx: 0 }, 0)],
            aggregates_table,
            aggregates: Vec::new(),
            grouping_set_table: None,
        },
        from,
        filter: None,
        group_by: None,
        having: None,
        order_by: None,
        limit: None,
    }
}

#[test]
fn plan_select_layers() {
    let mut context = BindContext::new();
    let t0 = push(&mut context, vec![DataType::Int64]);
    let t1 = push(&mut context, vec![DataType::Int64]);
    let projections = push(&mut context, vec![DataType::Int64]);
    let aggregates = push(&mut context, vec![DataType::Int64]);
    let groups = push(&mut context, vec![DataType::Int64]);

    let condition = ComparisonCondition {
        left: col_ref(t0, 0),
        right: col_ref(t1, 0),
        op: ComparisonOperator::Eq,
    };
    let from = BoundFrom::Join(BoundJoin {
        left: Box::new(base_table(t0, "left")),
        right: Box::new(base_table(t1, "right")),
        join_type: JoinType::Inner,
        condition: BoundJoinCondition::Comparisons(vec![condition.clone()]),
    });
    let mut query = select(from, projections, aggregates);
    query.filter = Some(lit(ScalarValue::Boolean(true)));
    query.select_list.aggregates = vec![col_ref(t0, 0)];
    query.group_by = Some(BoundGroupBy {
        expressions: vec![col_ref(t1, 0)],
        group_table: groups,
        grouping_sets: vec![BTreeSet::from([0])],
    });
    query.having = Some(lit(ScalarValue::Boolean(false)));
    query.order_by =
        Some(vec![OrderByExpr { expr: col_ref(projections, 0), desc: true, nulls_first: false }]);
    query.limit = Some(LogicalLimit { offset: Some(2), limit: 10 });

    let plan = QueryPlanner.plan(&mut context, BoundQuery::Select(query)).unwrap();
    assert_eq!(plan.get_output_table_refs(), vec![projections]);

    // Limit over order over project over having over aggregate over filter over join.
    let LogicalOperator::Limit(limit) = plan else { panic!("expected limit") };
    assert_eq!(limit.node, LogicalLimit { offset: Some(2), limit: 10 });
    let entry = limit.node.explain_entry(ExplainConfig { verbose: false });
    assert_eq!(entry.items[0].value, ExplainValue::Value("10".to_string()));
    assert_eq!(entry.items[1].value, ExplainValue::Value("2".to_string()));
    let [order] = <[LogicalOperator; 1]>::try_from(limit.children).ok().unwrap();
    let LogicalOperator::Order(order) = order else { panic!("expected order") };
    let entry = order.node.explain_entry(ExplainConfig { verbose: false });
    assert_eq!(entry.items[0].value, ExplainValue::Values(vec!["#2.0 DESC NULLS LAST".to_string()]));
    let [project] = <[LogicalOperator; 1]>::try_from(order.children).ok().unwrap();
    let LogicalOperator::Project(project) = project else { panic!("expected project") };
    assert_eq!(project.node.projection_table, projections);
    let [having] = <[LogicalOperator; 1]>::try_from(project.children).ok().unwrap();
    let LogicalOperator::Filter(having) = having else { panic!("expected having") };
    assert_eq!(having.node.filter, lit(ScalarValue::Boolean(false)));
    let [aggregate] = <[LogicalOperator; 1]>::try_from(having.children).ok().unwrap();
    let LogicalOperator::Aggregate(aggregate) = aggregate else { panic!("expected aggregate") };
    assert_eq!(
        aggregate.node,
        LogicalAggregate {
            aggregates_table: aggregates,
            aggregates: vec![col_ref(t0, 0)],
            group_table: Some(groups),
            group_exprs: vec![col_ref(t1, 0)],
            grouping_sets: Some(vec![BTreeSet::from([0])]),
            grouping_set_table: None,
        }
    );
    assert_eq!(aggregate.get_output_table_refs(), vec![aggregates, groups]);
    let [filter] = <[LogicalOperator; 1]>::try_from(aggregate.children).ok().unwrap();
    let LogicalOperator::Filter(filter) = filter else { panic!("expected filter") };
    assert_eq!(filter.node.filter, lit(ScalarValue::Boolean(true)));
    assert_eq!(filter.get_output_table_refs(), vec![t0, t1]);
    let [join] = <[LogicalOperator; 1]>::try_from(filter.children).ok().unwrap();
    let LogicalOperator::ComparisonJoin(join) = join else { panic!("expected join") };
    assert_eq!(join.node.join_type, JoinType::Inner);
    assert_eq!(join.node.conditions, vec![condition]);
    assert_eq!(join.children.len(), 2);
    let LogicalOperator::Scan(left) = &join.children[0] else { panic!("expected scan") };
    assert_eq!(left.node.table_ref, t0);
    assert_eq!(left.location, LocationRequirement::ClientLocal);
    assert_eq!(
        left.node.source,
        ScanSource::Table {
            catalog: "temp".to_string(),
            schema: "temp".to_string(),
            source: table_entry("left"),
        }
    );
}

#[test]
fn plan_plain_select() {
    let mut context = BindContext::new();
    let t0 = push(&mut context, vec![DataType::Int64]);
    let projections = push(&mut context, vec![DataType::Int64]);
    let plan = QueryPlanner
        .plan(&mut context, BoundQuery::Select(select(base_table(t0, "t"), projections, t0)))
        .unwrap();
    let LogicalOperator::Project(project) = plan else { panic!("expected project") };
    assert_eq!(project.children.len(), 1);
    assert!(matches!(project.children[0], LogicalOperator::Scan(_)));

    let plan = QueryPlanner
        .plan(&mut context, BoundQuery::Select(select(BoundFrom::Empty, projections, t0)))
        .unwrap();
    let LogicalOperator::Project(project) = plan else { panic!("expected project") };
    assert!(matches!(project.children[0], LogicalOperator::Empty(_)));

    let cross = BoundFrom::CrossJoin {
        left: Box::new(base_table(t0, "a")),
        right: Box::new(base_table(t0, "b")),
    };
    let plan = QueryPlanner
        .plan(&mut context, BoundQuery::Select(select(cross, projections, t0)))
        .unwrap();
    let LogicalOperator::Project(project) = plan else { panic!("expected project") };
    assert!(matches!(project.children[0], LogicalOperator::CrossJoin(_)));
}

#[test]
fn plan_select_errors() {
    let mut context = BindContext::new();
    let t0 = push(&mut context, vec![DataType::Int64]);
    let missing = TableRef { table_idx: 10 };
    let other_missing = TableRef { table_idx: 11 };

    let err = QueryPlanner
        .plan(&mut context, BoundQuery::Select(select(base_table(t0, "t"), missing, t0)))
        .unwrap_err();
    assert_eq!(err.to_string(), "Missing table scope in bind context: #10");

    // The FROM clause is planned before the select list.
    let err = QueryPlanner
        .plan(
            &mut context,
            BoundQuery::Select(select(base_table(other_missing, "t"), missing, t0)),
        )
        .unwrap_err();
    assert_eq!(err.to_string(), "Missing table scope in bind context: #11");
}

#[test]
fn plan_setop() {
    let mut context = BindContext::new();
    let left = push(&mut context, vec![DataType::Int32, DataType::Utf8]);
    let right = push(&mut context, vec![DataType::Int32, DataType::Utf8]);
    let out = push(&mut context, vec![DataType::Int32, DataType::Utf8]);
    let setop = BoundSetOp {
        left: Box::new(BoundQuery::Values(BoundValues {
            rows: value_rows(),
            expressions_table: left,
        })),
        right: Box::new(BoundQuery::Values(BoundValues {
            rows: value_rows(),
            expressions_table: right,
        })),
        setop_table: out,
        kind: SetOpKind::Union,
        all: true,
        order_by: None,
        limit: Some(LogicalLimit { offset: None, limit: 1 }),
    };
    let plan = QueryPlanner.plan(&mut context, BoundQuery::Setop(setop)).unwrap();
    assert_eq!(plan.get_output_table_refs(), vec![out]);
    let LogicalOperator::Limit(limit) = plan else { panic!("expected limit") };
    let LogicalOperator::SetOp(node) = &limit.children[0] else { panic!("expected setop") };
    assert_eq!(node.node.kind, SetOpKind::Union);
    assert!(node.node.all);
    assert_eq!(node.node.table_ref, out);
    assert_eq!(node.children.len(), 2);
    assert_eq!(node.children[0].get_output_table_refs(), vec![left]);
    assert_eq!(node.children[1].get_output_table_refs(), vec![right]);
    let entry = node.node.explain_entry(ExplainConfig { verbose: true });
    assert_eq!(entry.items[0].value, ExplainValue::Value("UNION ALL".to_string()));
    assert_eq!(entry.items[1].value, ExplainValue::Value("#2".to_string()));
}

#[test]
fn aggregate_explain_entry() {
    let aggregate = LogicalAggregate {
        aggregates_table: TableRef { table_idx: 1 },
        aggregates: vec![col_ref(TableRef { table_idx: 0 }, 0)],
        group_table: Some(TableRef { table_idx: 2 }),
        group_exprs: vec![col_ref(TableRef { table_idx: 0 }, 1)],
        grouping_sets: None,
        grouping_set_table: Some(TableRef { table_idx: 3 }),
    };

    let entry = aggregate.explain_entry(ExplainConfig { verbose: false });
    assert_eq!(entry.name, "Aggregate");
    let keys: Vec<&str> = entry.items.iter().map(|item| item.key.as_str()).collect();
    assert_eq!(keys, vec!["aggregates", "group_expressions"]);
    assert_eq!(entry.items[0].value, ExplainValue::Values(vec!["#0.0".to_string()]));
    assert_eq!(entry.items[1].value, ExplainValue::Values(vec!["#0.1".to_string()]));

    let entry = aggregate.explain_entry(ExplainConfig { verbose: true });
    let keys: Vec<&str> = entry.items.iter().map(|item| item.key.as_str()).collect();
    assert_eq!(
        keys,
        vec![
            "aggregates",
            "table_ref",
            "grouping_set_table_ref",
            "group_expressions",
            "group_table_ref"
        ]
    );
    assert_eq!(entry.items[1].value, ExplainValue::Value("#1".to_string()));
    assert_eq!(entry.items[2].value, ExplainValue::Value("#3".to_string()));
    assert_eq!(entry.items[4].value, ExplainValue::Value("#2".to_string()));

    let node = Node {
        node: aggregate,
        location: LocationRequirement::Any,
        children: Vec::new(),
    };
    assert_eq!(
        node.get_output_table_refs(),
        vec![TableRef { table_idx: 1 }, TableRef { table_idx: 2 }, TableRef { table_idx: 3 }]
    );

    let ungrouped = LogicalAggregate {
        aggregates_table: TableRef { table_idx: 1 },
        aggregates: Vec::new(),
        group_table: None,
        group_exprs: vec![col_ref(TableRef { table_idx: 0 }, 1)],
        grouping_sets: None,
        grouping_set_table: None,
    };
    let entry = ungrouped.explain_entry(ExplainConfig { verbose: true });
    let keys: Vec<&str> = entry.items.iter().map(|item| item.key.as_str()).collect();
    assert_eq!(keys, vec!["aggregates", "table_ref"]);
}

#[test]
fn explain_renders_the_plan_tree() {
    let mut context = BindContext::new();
    let t0 = push(&mut context, vec![DataType::Int64]);
    let t1 = push(&mut context, vec![DataType::Int64]);
    let projections = push(&mut context, vec![DataType::Int64]);
    let from = BoundFrom::Join(BoundJoin {
        left: Box::new(base_table(t0, "left")),
        right: Box::new(base_table(t1, "right")),
        join_type: JoinType::LeftMark { table_ref: projections },
        condition: BoundJoinCondition::Comparisons(vec![ComparisonCondition {
            left: col_ref(t0, 0),
            right: col_ref(t1, 0),
            op: ComparisonOperator::Eq,
        }]),
    });
    let mut query = select(from, projections, t0);
    query.filter = Some(lit(ScalarValue::Boolean(true)));
    let plan = QueryPlanner.plan(&mut context, BoundQuery::Select(query)).unwrap();

    assert_eq!(
        plan.explain(ExplainConfig { verbose: false }),
        "Project (projections = [#0.0])\n\
         \x20 Filter (predicate = true)\n\
         \x20   ComparisonJoin (conditions = [#0.0 = #1.0], join_type = LEFT MARK (ref = #2))\n\
         \x20     Scan (source = Table, column_types = [Int64])\n\
         \x20     Scan (source = Table, column_types = [Int64])\n"
    );
    assert_eq!(
        plan.explain_entry(ExplainConfig { verbose: true }).to_string(),
        "Project (projections = [#0.0], table_ref = #2)"
    );
    assert_eq!(plan.children().len(), 1);
    let empty = LogicalOperator::Empty(Node {
        node: rayexec_execution::logical::logical_empty::LogicalEmpty,
        location: LocationRequirement::Any,
        children: Vec::new(),
    });
    assert_eq!(empty.explain(ExplainConfig { verbose: true }), "Empty\n");
}
