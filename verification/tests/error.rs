use rayexec_execution::error::{OptionExt, RayexecError, ResultExt};

#[test]
fn new_error_has_message_only() {
    let err = RayexecError::new("boom");
    assert_eq!(err.message(), "boom");
    assert_eq!(err.source(), None);
    assert_eq!(err.to_string(), "boom");
    let _ = err.get_backtrace();
}

#[test]
fn error_with_source_renders_both() {
    let err = RayexecError::with_source("outer", "inner");
    assert_eq!(err.message(), "outer");
    assert_eq!(err.source(), Some("inner"));
    assert_eq!(err.to_string(), "outer\nError source: inner");
}

#[test]
fn not_implemented_prefixes_the_message() {
    let err = RayexecError::not_implemented("window functions");
    assert_eq!(err.to_string(), "Not yet implemented: window functions");
}

#[test]
fn context_wraps_errors_only() {
    let ok: Result<i32, RayexecError> = Ok(3);
    assert_eq!(ok.context("ctx").unwrap(), 3);

    let failed: Result<i32, RayexecError> = Err(RayexecError::with_source("read", "disk"));
    let err = failed.context("loading table").unwrap_err();
    assert_eq!(err.message(), "loading table");
    assert_eq!(err.source(), Some("read\nError source: disk"));
    assert_eq!(err.to_string(), "loading table\nError source: read\nError source: disk");
}

#[test]
fn context_fn_builds_the_message_on_failure() {
    let ok: Result<i32, RayexecError> = Ok(3);
    assert_eq!(ok.context_fn(|| unreachable!()).unwrap(), 3);

    let failed: Result<i32, RayexecError> = Err(RayexecError::new("bad"));
    let err = failed.context_fn(|| format!("row {}", 4)).unwrap_err();
    assert_eq!(err.message(), "row 4");
    assert_eq!(err.source(), Some("bad"));
}

#[test]
fn required_turns_none_into_an_error() {
    assert_eq!(Some(5).required("value").unwrap(), 5);
    let err = None::<i32>.required("value").unwrap_err();
    assert_eq!(err.to_string(), "value");
}

#[test]
fn from_serialization_error() {
    let inner = <erased_serde::Error as serde::ser::Error>::custom("cannot serialize");
    let err = RayexecError::from(inner);
    assert_eq!(err.message(), "Serialization error");
    assert_eq!(err.source(), Some("cannot serialize"));
    assert_eq!(err.to_string(), "Serialization error\nError source: cannot serialize");
}
