use ibarrow::strutil::{eq_ignore_ascii_lower, str_contains, str_ends_with, u32_dec};

#[test]
fn contains_finds_inner_runs() {
    assert!(str_contains("DRIVER={X};SERVER=y", "SERVER="));
    assert!(str_contains("abc", ""));
    assert!(!str_contains("abc", "abcd"));
    assert!(!str_contains("DRIVE=;RIVER=", "DRIVER="));
}

#[test]
fn ends_with_checks_the_tail_only() {
    assert!(str_ends_with("billing.fdb", ".fdb"));
    assert!(!str_ends_with("billing.fdb.bak", ".fdb"));
    assert!(!str_ends_with("db", ".fdb"));
}

#[test]
fn lowercase_comparison_folds_ascii_only() {
    assert!(eq_ignore_ascii_lower("READ_Committed", "read_committed"));
    assert!(eq_ignore_ascii_lower("snapshot", "snapshot"));
    assert!(!eq_ignore_ascii_lower("snapshots", "snapshot"));
    assert!(!eq_ignore_ascii_lower("read committed", "read_committed"));
}

#[test]
fn decimal_rendering_is_exact() {
    assert_eq!(u32_dec(0), "0");
    assert_eq!(u32_dec(7), "7");
    assert_eq!(u32_dec(30), "30");
    assert_eq!(u32_dec(65536), "65536");
    assert_eq!(u32_dec(u32::MAX), "4294967295");
}
