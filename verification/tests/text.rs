use zb_install::strutil::{
    is_latest, split_str_on, str_contains, str_eq, str_fields, str_starts_with,
};

#[test]
fn containment_is_exact() {
    assert!(str_contains("zbcli-1.1.0-rc.1", "rc"));
    assert!(!str_contains("zbcli-1.1.0", "rc"));
    assert!(str_contains("abc", ""));
    assert!(str_contains("", ""));
    assert!(!str_contains("", "a"));
    assert!(!str_contains("Rc", "rc"));
}

#[test]
fn prefixes_are_exact() {
    assert!(str_starts_with("zbcli-1.0.0", "zbcli"));
    assert!(str_starts_with("zbcli", "zbcli"));
    assert!(!str_starts_with("zb", "zbcli"));
    assert!(!str_starts_with("azbcli", "zbcli"));
    assert!(str_starts_with("anything", ""));
}

#[test]
fn equality_is_by_characters() {
    assert!(str_eq("", ""));
    assert!(str_eq("abc", "abc"));
    assert!(!str_eq("abc", "abd"));
    assert!(!str_eq("abc", "abcd"));
}

#[test]
fn latest_ignores_ascii_case_only() {
    assert!(is_latest("latest"));
    assert!(is_latest("Latest"));
    assert!(is_latest("LATEST"));
    assert!(!is_latest("latest "));
    assert!(!is_latest("newest"));
}

#[test]
fn splitting_keeps_empty_runs() {
    let parts = split_str_on("a\n\nb\n", '\n');
    assert_eq!(parts, vec!["a", "", "b", ""]);
    assert_eq!(split_str_on("", '\n'), vec![""]);
    assert_eq!(split_str_on("abc", '\n'), vec!["abc"]);
}

#[test]
fn fields_collapse_whitespace() {
    assert_eq!(str_fields("  a \t bb  ccc "), vec!["a", "bb", "ccc"]);
    assert_eq!(str_fields(""), Vec::<String>::new());
    assert_eq!(str_fields("   \t "), Vec::<String>::new());
    assert_eq!(str_fields("one"), vec!["one"]);
}
