use sqlx_extension::text::join_with;
use sqlx_extension::text::usize_to_string;

#[test]
fn decimal_rendering() {
    assert_eq!(usize_to_string(0), "0");
    assert_eq!(usize_to_string(7), "7");
    assert_eq!(usize_to_string(10), "10");
    assert_eq!(usize_to_string(123), "123");
    assert_eq!(usize_to_string(1000), "1000");
}

#[test]
fn join_with_separator() {
    let tokens = vec!["a".to_string(), "b".to_string(), "c".to_string()];
    assert_eq!(join_with(&tokens, ", "), "a, b, c");
    assert_eq!(join_with(&tokens, " AND "), "a AND b AND c");
}

#[test]
fn join_of_one_or_none() {
    assert_eq!(join_with(&vec!["a".to_string()], ", "), "a");
    assert_eq!(join_with(&vec![], ", "), "");
}
