use carf::error::ServiceError;
use carf::validation::{
    argv_label_text, contains_nul, decimal_text, find_nul_arg, same_text, validate_no_nul,
};

#[test]
fn validate_no_nul_allows_regular_strings() {
    assert!(validate_no_nul("device_id", "local").is_ok());
}

#[test]
fn validate_no_nul_rejects_nul_bytes() {
    assert!(validate_no_nul("device_id", "a\0b").is_err());
}

#[test]
fn validate_no_nul_names_the_argument() {
    assert_eq!(
        validate_no_nul("program", "\0"),
        Err(ServiceError::InputValidation { label: "program".to_string() })
    );
}

#[test]
fn validate_no_nul_accepts_the_empty_string() {
    assert_eq!(validate_no_nul("device_id", ""), Ok(()));
}

#[test]
fn contains_nul_finds_a_nul_anywhere() {
    assert!(contains_nul("\0abc"));
    assert!(contains_nul("ab\0c"));
    assert!(contains_nul("abc\0"));
    assert!(!contains_nul("abc"));
    assert!(!contains_nul("0"));
    assert!(!contains_nul("caf\u{e9} \u{1F600}"));
    assert!(contains_nul("caf\u{e9}\0\u{1F600}"));
}

#[test]
fn same_text_compares_whole_strings() {
    assert!(same_text("socket", "socket"));
    assert!(!same_text("socket", "sockets"));
    assert!(!same_text("socket", "Socket"));
    assert!(same_text("", ""));
    assert!(!same_text("", "a"));
    assert!(same_text("caf\u{e9}", "caf\u{e9}"));
    assert!(!same_text("caf\u{e9}", "cafe"));
}

#[test]
fn decimal_text_writes_numbers() {
    assert_eq!(decimal_text(0), "0");
    assert_eq!(decimal_text(7), "7");
    assert_eq!(decimal_text(10), "10");
    assert_eq!(decimal_text(409), "409");
    assert_eq!(decimal_text(1234567890), "1234567890");
}

#[test]
fn argv_label_text_names_the_argument() {
    assert_eq!(argv_label_text(0), "argv[0]");
    assert_eq!(argv_label_text(12), "argv[12]");
}

#[test]
fn find_nul_arg_reports_the_first_offender() {
    assert_eq!(find_nul_arg(&None), None);
    assert_eq!(find_nul_arg(&Some(vec![])), None);
    assert_eq!(find_nul_arg(&Some(vec!["-v".to_string(), "x".to_string()])), None);
    assert_eq!(
        find_nul_arg(&Some(vec!["a".to_string(), "b\0".to_string(), "\0".to_string()])),
        Some(1)
    );
}
