use metrics::text::{decimal_text, join, same_text};

#[test]
fn decimal_notation_of_integers() {
    assert_eq!(decimal_text(0), "0");
    assert_eq!(decimal_text(7), "7");
    assert_eq!(decimal_text(10), "10");
    assert_eq!(decimal_text(200), "200");
    assert_eq!(decimal_text(404), "404");
    assert_eq!(decimal_text(1234567890), "1234567890");
    assert_eq!(decimal_text(-1), "-1");
    assert_eq!(decimal_text(-10), "-10");
    assert_eq!(decimal_text(-305), "-305");
}

#[test]
fn decimal_notation_at_the_limits() {
    assert_eq!(decimal_text(i32::MAX), "2147483647");
    assert_eq!(decimal_text(i32::MIN), "-2147483648");
}

#[test]
fn decimal_notation_agrees_with_the_standard_one() {
    for value in [-100001, -999, -100, -99, -9, 9, 99, 100, 101, 999, 1000, 65536] {
        assert_eq!(decimal_text(value), format!("{}", value));
    }
}

#[test]
fn join_puts_head_before_tail() {
    assert_eq!(join("version:", "v2"), "version:v2");
    assert_eq!(join("", "tail"), "tail");
    assert_eq!(join("head", ""), "head");
    assert_eq!(join("", ""), "");
}

#[test]
fn same_text_compares_characters() {
    assert!(same_text("postgres", "postgres"));
    assert!(same_text("", ""));
    assert!(!same_text("postgres", "Postgres"));
    assert!(!same_text("postgres", "postgres "));
    assert!(!same_text("", "x"));
}
