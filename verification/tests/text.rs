use scrutiny::text::{extract_token, str_ends_with};

#[test]
fn takes_the_first_whitespace_delimited_token() {
    assert_eq!(extract_token("kline is around"), Some(String::from("kline")));
    assert_eq!(extract_token("kline"), Some(String::from("kline")));
    assert_eq!(extract_token("  kline\ttrailing"), Some(String::from("kline")));
    assert_eq!(extract_token("\t\tone two"), Some(String::from("one")));
}

#[test]
fn lines_without_a_token_yield_nothing() {
    assert_eq!(extract_token(""), None);
    assert_eq!(extract_token("   "), None);
    assert_eq!(extract_token(" \t\r\n"), None);
}

#[test]
fn suffix_matching() {
    assert!(str_ends_with("34 staff members", "staff members"));
    assert!(str_ends_with("staff members", "staff members"));
    assert!(!str_ends_with("members", "staff members"));
    assert!(!str_ends_with("34 staff members!", "staff members"));
    assert!(str_ends_with("anything", ""));
}
