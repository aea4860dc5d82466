use powergate::strkit::{str_contains, str_eq, trim};

#[test]
fn str_eq_is_exact() {
    assert!(str_eq("", ""));
    assert!(str_eq("abc", "abc"));
    assert!(!str_eq("abc", "abd"));
    assert!(!str_eq("abc", "ab"));
    assert!(!str_eq("abc", "ABC"));
    assert!(str_eq("caf\u{e9}", "caf\u{e9}"));
}

#[test]
fn str_contains_finds_substrings() {
    assert!(str_contains("Chassis Power is on", "Power"));
    assert!(str_contains("abc", "abc"));
    assert!(str_contains("abc", ""));
    assert!(str_contains("", ""));
    assert!(!str_contains("", "a"));
    assert!(!str_contains("abc", "abcd"));
    assert!(!str_contains("abc", "ac"));
    assert!(str_contains("aab", "ab"));
}

#[test]
fn trim_removes_surrounding_whitespace() {
    assert_eq!(trim(""), "");
    assert_eq!(trim("   "), "");
    assert_eq!(trim("abc"), "abc");
    assert_eq!(trim("  abc\n"), "abc");
    assert_eq!(trim("\t a b \r\n"), "a b");
    assert_eq!(trim("\u{a0}abc\u{3000}"), "abc");
}
