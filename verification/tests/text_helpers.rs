use apiguard::text::{contains_str, eq_ignore_ascii_case, trim};

#[test]
fn trims_unicode_whitespace() {
    assert_eq!(trim("\u{3000} a b \t\n"), "a b");
    assert_eq!(trim("   "), "");
    assert_eq!(trim("x"), "x");
}

#[test]
fn finds_substrings() {
    assert!(contains_str("type Query {", "type Query"));
    assert!(contains_str("abc", ""));
    assert!(!contains_str("ab", "abc"));
    assert!(!contains_str("type Quer", "type Query"));
}

#[test]
fn compares_ignoring_ascii_case() {
    assert!(eq_ignore_ascii_case("Bearer", "bearer"));
    assert!(eq_ignore_ascii_case("BASIC", "basic"));
    assert!(!eq_ignore_ascii_case("Bearerx", "bearer"));
    assert!(!eq_ignore_ascii_case("É", "é"));
}
