use rayexec_execution::bind_context::{BindContext, MaterializationRef, TableList, TableRef};
use rayexec_execution::datatype::{DataType, DecimalTypeMeta, TimeUnit};
use rayexec_execution::expr::arith_expr::{ArithExpr, ArithOperator};
use rayexec_execution::expr::column_expr::ColumnExpr;
use rayexec_execution::expr::comparison_expr::{ComparisonExpr, ComparisonOperator};
use rayexec_execution::expr::{
    arith, col_ref, lit, CastExpr, ConjunctionExpr, ConjunctionOperator, Expression, NegateExpr,
    NegateOperator,
};
use rayexec_execution::functions::arith::ArithFunction;
use rayexec_execution::functions::FunctionInfo;
use rayexec_execution::scalar::ScalarValue;

fn context() -> (BindContext, TableRef) {
    let mut context = BindContext::new();
    let table_ref = context
        .push_table(
            None,
            vec![DataType::Int32, DataType::Int32],
            vec!["a".to_string(), "b".to_string()],
        )
        .unwrap();
    (context, table_ref)
}

#[test]
fn bind_context_round_trip() {
    let (context, table_ref) = context();
    let expr = arith(col_ref(table_ref, 0), ArithOperator::Add, col_ref(table_ref, 1));
    assert_eq!(expr.datatype(&context).unwrap(), DataType::Int32);
    assert_eq!(expr.to_string(), "#0.0 + #0.1");
}

#[test]
fn push_table_hands_out_consecutive_refs() {
    let mut context = BindContext::new();
    assert_eq!(context.num_tables(), 0);
    let first = context.push_table(None, vec![DataType::Utf8], vec!["a".to_string()]).unwrap();
    let second = context
        .push_table(Some("t".to_string()), Vec::new(), Vec::new())
        .unwrap();
    assert_eq!(first, TableRef { table_idx: 0 });
    assert_eq!(second, TableRef { table_idx: 1 });
    assert_eq!(context.num_tables(), 2);

    let table = context.get_table(first).unwrap();
    assert_eq!(table.reference, first);
    assert_eq!(table.alias, None);
    assert_eq!(table.column_types, vec![DataType::Utf8]);
    assert_eq!(table.column_names, vec!["a".to_string()]);
    assert_eq!(table.num_columns(), 1);
    let table = context.get_table(second).unwrap();
    assert_eq!(table.alias, Some("t".to_string()));
    assert_eq!(table.num_columns(), 0);
}

#[test]
fn push_table_rejects_mismatched_columns() {
    let mut context = TableList::empty();
    let err = context
        .push_table(None, vec![DataType::Utf8, DataType::Int8], vec!["a".to_string()])
        .unwrap_err();
    assert_eq!(
        err.to_string(),
        "Column names and types have different lengths, types: 2, names: 1"
    );
    assert_eq!(context.num_tables(), 0);
}

#[test]
fn get_table_fails_for_unknown_ref() {
    let (context, _) = context();
    let err = context.get_table(TableRef { table_idx: 3 }).unwrap_err();
    assert_eq!(err.to_string(), "Missing table scope in bind context: #3");
}

#[test]
fn column_datatype() {
    let (context, table_ref) = context();
    let column = ColumnExpr { table_scope: table_ref, column: 1 };
    assert_eq!(column.datatype(&context).unwrap(), DataType::Int32);
    assert_eq!(column.to_string(), "#0.1");

    let column = ColumnExpr { table_scope: table_ref, column: 2 };
    assert_eq!(
        column.datatype(&context).unwrap_err().to_string(),
        "Missing column in bind context: #0.2"
    );
    let column = ColumnExpr { table_scope: TableRef { table_idx: 9 }, column: 0 };
    assert_eq!(
        column.datatype(&context).unwrap_err().to_string(),
        "Missing table scope in bind context: #9"
    );
}

#[test]
fn expression_datatypes() {
    let (context, table_ref) = context();
    let boolean = lit(ScalarValue::Boolean(true));
    assert_eq!(boolean.datatype(&context).unwrap(), DataType::Boolean);
    assert_eq!(lit(ScalarValue::Null).datatype(&context).unwrap(), DataType::Null);
    assert_eq!(
        lit(ScalarValue::Utf8("x".to_string())).datatype(&context).unwrap(),
        DataType::Utf8
    );

    let comparison = Expression::Comparison(ComparisonExpr {
        left: Box::new(col_ref(table_ref, 0)),
        right: Box::new(col_ref(table_ref, 1)),
        op: ComparisonOperator::NotEq,
    });
    assert_eq!(comparison.datatype(&context).unwrap(), DataType::Boolean);
    assert_eq!(comparison.to_string(), "#0.0 != #0.1");

    let conjunction = Expression::Conjunction(ConjunctionExpr {
        left: Box::new(comparison.clone()),
        right: Box::new(boolean.clone()),
        op: ConjunctionOperator::And,
    });
    assert_eq!(conjunction.datatype(&context).unwrap(), DataType::Boolean);
    assert_eq!(conjunction.to_string(), "#0.0 != #0.1 AND true");

    let not = Expression::Negate(NegateExpr {
        op: NegateOperator::Not,
        expr: Box::new(boolean),
    });
    assert_eq!(not.datatype(&context).unwrap(), DataType::Boolean);
    assert_eq!(not.to_string(), "NOT(true)");

    let negate = Expression::Negate(NegateExpr {
        op: NegateOperator::Negate,
        expr: Box::new(col_ref(table_ref, 0)),
    });
    assert_eq!(negate.datatype(&context).unwrap(), DataType::Int32);
    assert_eq!(negate.to_string(), "-(#0.0)");

    let cast = Expression::Cast(CastExpr {
        to: DataType::Decimal64(DecimalTypeMeta { precision: 10, scale: -2 }),
        expr: Box::new(col_ref(table_ref, 0)),
    });
    assert_eq!(
        cast.datatype(&context).unwrap(),
        DataType::Decimal64(DecimalTypeMeta { precision: 10, scale: -2 })
    );
    assert_eq!(cast.to_string(), "CAST(#0.0 TO Decimal64(10,-2))");
}

#[test]
fn arithmetic_needs_one_numeric_type() {
    let (context, table_ref) = context();
    let mixed = arith(col_ref(table_ref, 0), ArithOperator::Mul, lit(ScalarValue::Int64(2)));
    assert_eq!(
        mixed.datatype(&context).unwrap_err().to_string(),
        "Got invalid type(s) '[Int32, Int64]' for '*'"
    );
    let text = arith(
        lit(ScalarValue::Utf8("a".to_string())),
        ArithOperator::Sub,
        lit(ScalarValue::Utf8("b".to_string())),
    );
    assert_eq!(
        text.datatype(&context).unwrap_err().to_string(),
        "Got invalid type(s) '[Utf8, Utf8]' for '-'"
    );
    // The left operand is typed first.
    let both_missing = arith(col_ref(table_ref, 5), ArithOperator::Div, col_ref(table_ref, 6));
    assert_eq!(
        both_missing.datatype(&context).unwrap_err().to_string(),
        "Missing column in bind context: #0.5"
    );
}

#[test]
fn arith_operators_map_to_functions() {
    let cases = [
        (ArithOperator::Add, ArithFunction::Add, "+", "add"),
        (ArithOperator::Sub, ArithFunction::Sub, "-", "sub"),
        (ArithOperator::Div, ArithFunction::Div, "/", "div"),
        (ArithOperator::Mul, ArithFunction::Mul, "*", "mul"),
        (ArithOperator::Mod, ArithFunction::Rem, "%", "rem"),
    ];
    for (op, function, symbol, alias) in cases {
        assert_eq!(op.as_scalar_function(), function);
        assert_eq!(op.to_string(), symbol);
        assert_eq!(function.name(), symbol);
        assert_eq!(function.aliases()[0], alias);
        assert_eq!(function.signatures().len(), 13);
        assert_eq!(
            function.return_type(&DataType::Float64, &DataType::Float64).unwrap(),
            DataType::Float64
        );
    }
    assert_eq!(ArithFunction::Rem.aliases(), vec!["rem", "mod"]);

    let expr = ArithExpr {
        left: Box::new(lit(ScalarValue::Int8(1))),
        right: Box::new(lit(ScalarValue::Int8(2))),
        op: ArithOperator::Mod,
    };
    assert_eq!(expr.to_string(), "1 % 2");
    assert_eq!(expr.clone(), expr);
}

#[test]
fn datatype_names() {
    assert_eq!(DataType::Int32.to_string(), "Int32");
    assert_eq!(DataType::Timestamp(TimeUnit::Microsecond).to_string(), "Timestamp(us)");
    assert_eq!(
        DataType::Decimal128(DecimalTypeMeta { precision: 38, scale: 9 }).to_string(),
        "Decimal128(38,9)"
    );
    assert_eq!(
        DataType::List(Box::new(DataType::List(Box::new(DataType::Utf8)))).to_string(),
        "List[List[Utf8]]"
    );
    assert_eq!(TableRef { table_idx: 40 }.to_string(), "#40");
    assert_eq!(MaterializationRef { materialization_idx: 2 }.to_string(), "MAT_2");
    assert!(DataType::List(Box::new(DataType::Int8)) == DataType::List(Box::new(DataType::Int8)));
    assert!(DataType::List(Box::new(DataType::Int8)) != DataType::List(Box::new(DataType::Int16)));
    assert!(DataType::Int8 != DataType::UInt8);
}
