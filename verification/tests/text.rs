use rayexec_execution::text::{join, signed_to_string, str_eq, unsigned_to_string};

#[test]
fn decimal_rendering() {
    assert_eq!(unsigned_to_string(0), "0");
    assert_eq!(unsigned_to_string(9), "9");
    assert_eq!(unsigned_to_string(10), "10");
    assert_eq!(unsigned_to_string(1234567890), "1234567890");
    assert_eq!(unsigned_to_string(u128::MAX), u128::MAX.to_string());
    assert_eq!(signed_to_string(0), "0");
    assert_eq!(signed_to_string(-1), "-1");
    assert_eq!(signed_to_string(42), "42");
    assert_eq!(signed_to_string(i128::MIN), i128::MIN.to_string());
    assert_eq!(signed_to_string(i128::MAX), i128::MAX.to_string());
}

#[test]
fn joining_and_comparing_strings() {
    assert_eq!(join(&Vec::new(), ", "), "");
    assert_eq!(join(&vec!["a".to_string()], ", "), "a");
    assert_eq!(join(&vec!["a".to_string(), "b".to_string(), "c".to_string()], ", "), "a, b, c");
    assert!(str_eq("abc", "abc"));
    assert!(!str_eq("abc", "abd"));
    assert!(!str_eq("abc", "ab"));
}
