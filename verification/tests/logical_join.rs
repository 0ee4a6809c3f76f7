use rayexec_execution::bind_context::{MaterializationRef, TableRef};
use rayexec_execution::explain::{ExplainConfig, ExplainValue, Explainable};
use rayexec_execution::expr::comparison_expr::{ComparisonExpr, ComparisonOperator};
use rayexec_execution::expr::{col_ref, Expression, LiteralExpr};
use rayexec_execution::logical::logical_join::{
    ComparisonCondition, JoinType, LogicalArbitraryJoin, LogicalComparisonJoin, LogicalCrossJoin,
    LogicalMagicJoin,
};
use rayexec_execution::logical::logical_project::LogicalProject;
use rayexec_execution::logical::operator::{LocationRequirement, LogicalOperator, Node};
use rayexec_execution::scalar::ScalarValue;

#[test]
fn flip_comparison() {
    let a = Expression::Literal(LiteralExpr { literal: ScalarValue::Int8(1) });
    let b = Expression::Literal(LiteralExpr { literal: ScalarValue::Int8(2) });

    // (condition, flipped)
    let tests = [
        (
            ComparisonCondition { left: a.clone(), right: b.clone(), op: ComparisonOperator::Lt },
            ComparisonCondition { left: b.clone(), right: a.clone(), op: ComparisonOperator::Gt },
        ),
        (
            ComparisonCondition {
                left: a.clone(),
                right: b.clone(),
                op: ComparisonOperator::LtEq,
            },
            ComparisonCondition {
                left: b.clone(),
                right: a.clone(),
                op: ComparisonOperator::GtEq,
            },
        ),
    ];

    for (mut condition, flipped) in tests {
        condition.flip_sides();
        assert_eq!(flipped, condition);
    }
}

#[test]
fn flip_operator_table() {
    assert_eq!(ComparisonOperator::Eq.flip(), ComparisonOperator::Eq);
    assert_eq!(ComparisonOperator::NotEq.flip(), ComparisonOperator::NotEq);
    assert_eq!(ComparisonOperator::Lt.flip(), ComparisonOperator::Gt);
    assert_eq!(ComparisonOperator::LtEq.flip(), ComparisonOperator::GtEq);
    assert_eq!(ComparisonOperator::Gt.flip(), ComparisonOperator::Lt);
    assert_eq!(ComparisonOperator::GtEq.flip(), ComparisonOperator::LtEq);
}

#[test]
fn flip_sides_twice_is_identity() {
    let ops = [
        ComparisonOperator::Eq,
        ComparisonOperator::NotEq,
        ComparisonOperator::Lt,
        ComparisonOperator::LtEq,
        ComparisonOperator::Gt,
        ComparisonOperator::GtEq,
    ];
    for op in ops {
        let condition = ComparisonCondition {
            left: col_ref(TableRef { table_idx: 0 }, 1),
            right: Expression::Literal(LiteralExpr { literal: ScalarValue::Utf8("x".to_string()) }),
            op,
        };
        let mut flipped = condition.clone();
        flipped.flip_sides();
        flipped.flip_sides();
        assert_eq!(flipped, condition);
    }
}

#[test]
fn condition_into_expression() {
    let left = col_ref(TableRef { table_idx: 0 }, 0);
    let right = col_ref(TableRef { table_idx: 1 }, 0);
    let condition = ComparisonCondition {
        left: left.clone(),
        right: right.clone(),
        op: ComparisonOperator::Eq,
    };
    assert_eq!(condition.to_string(), "#0.0 = #1.0");
    assert_eq!(
        condition.into_expression(),
        Expression::Comparison(ComparisonExpr {
            left: Box::new(left),
            right: Box::new(right),
            op: ComparisonOperator::Eq,
        })
    );
}

#[test]
fn join_type_display() {
    assert_eq!(JoinType::Inner.to_string(), "INNER");
    assert_eq!(JoinType::Left.to_string(), "LEFT");
    assert_eq!(JoinType::Right.to_string(), "RIGHT");
    assert_eq!(JoinType::Full.to_string(), "FULL");
    assert_eq!(JoinType::Semi.to_string(), "SEMI");
    assert_eq!(JoinType::Anti.to_string(), "ANTI");
    assert_eq!(
        JoinType::LeftMark { table_ref: TableRef { table_idx: 12 } }.to_string(),
        "LEFT MARK (ref = #12)"
    );
}

fn project(table_idx: usize) -> LogicalOperator {
    LogicalOperator::Project(Node {
        node: LogicalProject {
            projection_table: TableRef { table_idx },
            projections: Vec::new(),
        },
        location: LocationRequirement::Any,
        children: Vec::new(),
    })
}

fn refs(indices: &[usize]) -> Vec<TableRef> {
    indices.iter().map(|&table_idx| TableRef { table_idx }).collect()
}

#[test]
fn join_output_refs_delegate_to_children() {
    let join = LogicalOperator::ComparisonJoin(Node {
        node: LogicalComparisonJoin { join_type: JoinType::Inner, conditions: Vec::new() },
        location: LocationRequirement::Any,
        children: vec![project(3), project(5)],
    });
    assert_eq!(join.get_output_table_refs(), refs(&[3, 5]));

    let join = LogicalOperator::ArbitraryJoin(Node {
        node: LogicalArbitraryJoin {
            join_type: JoinType::Full,
            condition: Expression::Literal(LiteralExpr { literal: ScalarValue::Boolean(true) }),
        },
        location: LocationRequirement::Any,
        children: vec![project(1), project(2)],
    });
    assert_eq!(join.get_output_table_refs(), refs(&[1, 2]));

    let join = LogicalOperator::CrossJoin(Node {
        node: LogicalCrossJoin,
        location: LocationRequirement::Any,
        children: vec![project(8), project(9)],
    });
    assert_eq!(join.get_output_table_refs(), refs(&[8, 9]));
}

#[test]
fn mark_join_outputs_left_and_mark() {
    let node = Node {
        node: LogicalMagicJoin {
            mat_ref: MaterializationRef { materialization_idx: 0 },
            join_type: JoinType::LeftMark { table_ref: TableRef { table_idx: 7 } },
            conditions: Vec::new(),
        },
        location: LocationRequirement::Any,
        children: vec![project(3), project(5)],
    };
    assert_eq!(node.get_output_table_refs(), refs(&[3, 7]));
    assert_eq!(
        JoinType::LeftMark { table_ref: TableRef { table_idx: 7 } }.output_refs(&node),
        refs(&[3, 7])
    );

    let childless = Node {
        node: LogicalComparisonJoin {
            join_type: JoinType::LeftMark { table_ref: TableRef { table_idx: 7 } },
            conditions: Vec::new(),
        },
        location: LocationRequirement::Any,
        children: Vec::new(),
    };
    assert_eq!(childless.get_output_table_refs(), refs(&[7]));
}

#[test]
fn join_explain_entries() {
    let conditions = vec![ComparisonCondition {
        left: col_ref(TableRef { table_idx: 0 }, 0),
        right: col_ref(TableRef { table_idx: 1 }, 2),
        op: ComparisonOperator::LtEq,
    }];
    let join = LogicalComparisonJoin { join_type: JoinType::Semi, conditions };
    let entry = join.explain_entry(ExplainConfig { verbose: false });
    assert_eq!(entry.name, "ComparisonJoin");
    assert_eq!(entry.items.len(), 2);
    assert_eq!(entry.items[0].key, "conditions");
    assert_eq!(entry.items[0].value, ExplainValue::Values(vec!["#0.0 <= #1.2".to_string()]));
    assert_eq!(entry.items[1].key, "join_type");
    assert_eq!(entry.items[1].value, ExplainValue::Value("SEMI".to_string()));

    let join = LogicalArbitraryJoin {
        join_type: JoinType::Left,
        condition: col_ref(TableRef { table_idx: 0 }, 0),
    };
    let entry = join.explain_entry(ExplainConfig { verbose: true });
    assert_eq!(entry.name, "ArbitraryJoin");
    assert_eq!(entry.items[0].key, "join_type");
    assert_eq!(entry.items[1].key, "condition");
    assert_eq!(entry.items[1].value, ExplainValue::Value("#0.0".to_string()));

    assert_eq!(LogicalCrossJoin.explain_entry(ExplainConfig { verbose: true }).name, "CrossJoin");
}
