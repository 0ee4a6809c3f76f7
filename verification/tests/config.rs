use rayexec_execution::bind_context::{BindContext, MaterializationRef, TableRef};
use rayexec_execution::config::vars::{SessionVar, SessionVars};
use rayexec_execution::datatype::{DataType, DataTypeId, PhysicalType, TimeUnit};
use rayexec_execution::explain::{ExplainConfig, Explainable};
use rayexec_execution::functions::arith::ArithFunction;
use rayexec_execution::functions::registry::{function_answers_to, lookup_scalar_function};
use rayexec_execution::functions::Signature;
use rayexec_execution::logical::logical_copy::{FileLocation, LogicalCopyTo};
use rayexec_execution::logical::logical_project::LogicalProject;
use rayexec_execution::logical::logical_set::{
    LogicalResetVar, LogicalSetVar, LogicalShowVar, VariableOrAll,
};
use rayexec_execution::logical::materialization::Materializations;
use rayexec_execution::logical::operator::{LocationRequirement, LogicalOperator, Node};
use rayexec_execution::scalar::ScalarValue;
use rayexec_execution::text::eq_ignore_ascii_case;

fn var(name: &str, value: ScalarValue) -> SessionVar {
    SessionVar { name: name.to_string(), value }
}

fn session() -> SessionVars {
    SessionVars::new(vec![
        var("application_name", ScalarValue::Utf8(String::new())),
        var("batch_size", ScalarValue::UInt64(4096)),
    ])
}

#[test]
fn session_variables_start_at_their_defaults() {
    let vars = session();
    assert_eq!(vars.get_var("batch_size").unwrap(), var("batch_size", ScalarValue::UInt64(4096)));
    // Names match whatever their case; the declared name comes back.
    assert_eq!(vars.get_var("Batch_SIZE").unwrap(), var("batch_size", ScalarValue::UInt64(4096)));
    assert_eq!(
        vars.get_var("nope").unwrap_err().to_string(),
        "Session variable doesn't exist: nope"
    );
}

#[test]
fn set_validates_the_type() {
    let mut vars = session();
    vars.set_var("BATCH_SIZE", ScalarValue::UInt64(8)).unwrap();
    assert_eq!(vars.get_var("batch_size").unwrap().value, ScalarValue::UInt64(8));

    let err = vars.set_var("batch_size", ScalarValue::Int64(8)).unwrap_err();
    assert_eq!(
        err.to_string(),
        "Invalid value for session variable 'batch_size', expected UInt64, got Int64"
    );
    assert_eq!(vars.get_var("batch_size").unwrap().value, ScalarValue::UInt64(8));
    let err = vars.set_var("nope", ScalarValue::Int64(8)).unwrap_err();
    assert_eq!(err.to_string(), "Session variable doesn't exist: nope");
}

#[test]
fn reset_restores_defaults() {
    let mut vars = session();
    vars.set_var("batch_size", ScalarValue::UInt64(8)).unwrap();
    vars.set_var("application_name", ScalarValue::Utf8("cli".to_string())).unwrap();

    vars.reset_var(&VariableOrAll::Variable(var("Batch_Size", ScalarValue::Null))).unwrap();
    assert_eq!(vars.get_var("batch_size").unwrap().value, ScalarValue::UInt64(4096));
    assert_eq!(
        vars.get_var("application_name").unwrap().value,
        ScalarValue::Utf8("cli".to_string())
    );

    vars.set_var("batch_size", ScalarValue::UInt64(8)).unwrap();
    vars.reset_var(&VariableOrAll::All).unwrap();
    assert_eq!(vars, session());
    let err = vars.reset_var(&VariableOrAll::Variable(var("nope", ScalarValue::Null))).unwrap_err();
    assert_eq!(err.to_string(), "Session variable doesn't exist: nope");
}

#[test]
fn variable_nodes_output_nothing() {
    let node = |n| Node { node: n, location: LocationRequirement::Any, children: Vec::new() };
    let set = node(LogicalSetVar { name: "a".to_string(), value: ScalarValue::Int8(1) });
    assert_eq!(set.node.explain_entry(ExplainConfig { verbose: true }).name, "Set");
    assert!(set.get_output_table_refs().is_empty());
    assert!(LogicalOperator::SetVar(set).get_output_table_refs().is_empty());

    let reset = Node {
        node: LogicalResetVar { var: VariableOrAll::All },
        location: LocationRequirement::Any,
        children: Vec::new(),
    };
    assert_eq!(reset.explain_entry(ExplainConfig { verbose: false }).name, "Reset");
    assert!(reset.get_output_table_refs().is_empty());

    let show = Node {
        node: LogicalShowVar { var: var("a", ScalarValue::Int8(1)) },
        location: LocationRequirement::Any,
        children: Vec::new(),
    };
    assert_eq!(show.node.explain_entry(ExplainConfig { verbose: false }).name, "Show");
    assert!(show.get_output_table_refs().is_empty());

    let copy = Node {
        node: LogicalCopyTo {
            source_schema: rayexec_execution::datatype::Schema { fields: Vec::new() },
            location: FileLocation::Path("out.csv".to_string()),
            copy_to: rayexec_execution::functions::copy::CopyToFunction {
                name: "csv_copy_to".to_string(),
            },
        },
        location: LocationRequirement::ClientLocal,
        children: Vec::new(),
    };
    assert_eq!(copy.node.explain_entry(ExplainConfig { verbose: false }).name, "CopyTo");
    assert!(copy.get_output_table_refs().is_empty());
    let plan = LogicalOperator::CopyTo(copy);
    assert_eq!(plan.name(), "CopyTo");
    assert!(plan.get_output_table_refs().is_empty());
}

#[test]
fn registry_resolves_names_and_aliases() {
    assert_eq!(lookup_scalar_function("+"), Some(ArithFunction::Add));
    assert_eq!(lookup_scalar_function("add"), Some(ArithFunction::Add));
    assert_eq!(lookup_scalar_function("ADD"), Some(ArithFunction::Add));
    assert_eq!(lookup_scalar_function("Sub"), Some(ArithFunction::Sub));
    assert_eq!(lookup_scalar_function("/"), Some(ArithFunction::Div));
    assert_eq!(lookup_scalar_function("mul"), Some(ArithFunction::Mul));
    assert_eq!(lookup_scalar_function("%"), Some(ArithFunction::Rem));
    assert_eq!(lookup_scalar_function("rem"), Some(ArithFunction::Rem));
    assert_eq!(lookup_scalar_function("MoD"), Some(ArithFunction::Rem));
    assert_eq!(lookup_scalar_function("modulo"), None);
    assert_eq!(lookup_scalar_function(""), None);
    assert!(function_answers_to(ArithFunction::Rem, "REM"));
    assert!(!function_answers_to(ArithFunction::Rem, "add"));
}

#[test]
fn ascii_case_insensitive_comparison() {
    assert!(eq_ignore_ascii_case("Hello", "hELLO"));
    assert!(eq_ignore_ascii_case("", ""));
    assert!(!eq_ignore_ascii_case("hello", "hell"));
    assert!(!eq_ignore_ascii_case("a_b", "a-b"));
    assert!(eq_ignore_ascii_case("[z]", "[Z]"));
    assert!(!eq_ignore_ascii_case("@", "`"));
    assert!(eq_ignore_ascii_case("é", "é"));
    assert!(!eq_ignore_ascii_case("é", "É"));
}

#[test]
fn column_types_of_the_bind_context() {
    let mut context = BindContext::new();
    let table_ref = context
        .push_table(None, vec![DataType::Int8, DataType::Utf8], vec!["a".into(), "b".into()])
        .unwrap();
    assert_eq!(context.get_column_type(table_ref, 1).unwrap(), DataType::Utf8);
    assert_eq!(
        context.get_column_type(table_ref, 2).unwrap_err().to_string(),
        "Missing column 2 in table #0"
    );
    assert_eq!(
        context.get_column_type(TableRef { table_idx: 1 }, 0).unwrap_err().to_string(),
        "Missing table scope in bind context: #1"
    );
}

#[test]
fn materializations_live_in_an_arena() {
    let plan = |table_idx| {
        LogicalOperator::Project(Node {
            node: LogicalProject {
                projection_table: TableRef { table_idx },
                projections: Vec::new(),
            },
            location: LocationRequirement::Any,
            children: Vec::new(),
        })
    };
    let mut arena = Materializations::new();
    let first = arena.new_materialization(plan(4));
    let second = arena.new_materialization(plan(6));
    assert_eq!(first, MaterializationRef { materialization_idx: 0 });
    assert_eq!(second, MaterializationRef { materialization_idx: 1 });

    arena.inc_scan_count(second).unwrap();
    arena.inc_scan_count(second).unwrap();
    let body = arena.get_materialization(second).unwrap();
    assert_eq!(body.mat_ref, second);
    assert_eq!(body.scan_count, 2);
    assert_eq!(body.plan, plan(6));
    assert_eq!(body.table_refs, vec![TableRef { table_idx: 6 }]);
    assert_eq!(arena.get_materialization(first).unwrap().scan_count, 0);
    assert_eq!(arena.get_materialization(first).unwrap().plan, plan(4));

    let missing = MaterializationRef { materialization_idx: 2 };
    assert_eq!(
        arena.get_materialization(missing).unwrap_err().to_string(),
        "Missing materialization for ref: MAT_2"
    );
    assert_eq!(
        arena.inc_scan_count(missing).unwrap_err().to_string(),
        "Missing materialization for ref: MAT_2"
    );
}

#[test]
fn signatures_with_any_and_variadic_arguments() {
    let fixed = Signature {
        input: vec![DataTypeId::Any, DataTypeId::Utf8],
        variadic: None,
        return_type: DataTypeId::Boolean,
    };
    assert!(fixed.accepts(&vec![DataTypeId::Int8, DataTypeId::Utf8]));
    assert!(fixed.accepts(&vec![DataTypeId::List, DataTypeId::Utf8]));
    assert!(!fixed.accepts(&vec![DataTypeId::Int8, DataTypeId::Int8]));
    assert!(!fixed.accepts(&vec![DataTypeId::Int8, DataTypeId::Utf8, DataTypeId::Utf8]));
    assert!(!fixed.accepts(&vec![DataTypeId::Int8]));

    let variadic = Signature {
        input: vec![DataTypeId::Utf8],
        variadic: Some(DataTypeId::Int64),
        return_type: DataTypeId::Utf8,
    };
    assert!(variadic.accepts(&vec![DataTypeId::Utf8]));
    assert!(variadic.accepts(&vec![DataTypeId::Utf8, DataTypeId::Int64, DataTypeId::Int64]));
    assert!(!variadic.accepts(&vec![DataTypeId::Utf8, DataTypeId::Int64, DataTypeId::Int32]));
    assert!(!variadic.accepts(&vec![]));

    let anything = Signature {
        input: Vec::new(),
        variadic: Some(DataTypeId::Any),
        return_type: DataTypeId::Utf8,
    };
    assert!(anything.accepts(&vec![]));
    assert!(anything.accepts(&vec![DataTypeId::Null, DataTypeId::Float16]));
    assert_eq!(DataType::Timestamp(TimeUnit::Second).datatype_id(), DataTypeId::Timestamp);
    assert_eq!(DataType::Timestamp(TimeUnit::Second).physical_type(), PhysicalType::Int64);
    assert_eq!(DataType::Date32.physical_type(), PhysicalType::Int32);
    assert!(PhysicalType::UInt128.is_integer_storage());
    assert!(!PhysicalType::Float32.is_integer_storage());
}
