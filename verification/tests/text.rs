use websocat_nodes::text::{chars_of, contains_str, push_decimal, push_i64_literal, push_usize_literal, str_eq};

#[test]
fn decimal_and_literals() {
    let mut s = String::new();
    push_decimal(&mut s, 0);
    assert_eq!(s, "0");
    let mut s = "x=".to_string();
    push_decimal(&mut s, 9075);
    assert_eq!(s, "x=9075");
    let mut s = String::new();
    push_i64_literal(&mut s, -42);
    assert_eq!(s, "-42i64");
    let mut s = String::new();
    push_i64_literal(&mut s, i64::MIN);
    assert_eq!(s, "-9223372036854775808i64");
    let mut s = String::new();
    push_i64_literal(&mut s, i64::MAX);
    assert_eq!(s, "9223372036854775807i64");
    let mut s = String::new();
    push_usize_literal(&mut s, 10);
    assert_eq!(s, "10usize");
}

#[test]
fn string_helpers() {
    assert!(str_eq("abc", "abc"));
    assert!(!str_eq("abc", "abd"));
    assert_eq!(chars_of("añb"), vec!['a', 'ñ', 'b']);
    assert!(contains_str("listen_port", "port"));
    assert!(contains_str("port", "port"));
    assert!(!contains_str("por", "port"));
    assert!(!contains_str("p_o_r_t", "port"));
    assert!(contains_str("anything", ""));
}
