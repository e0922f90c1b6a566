use zkevm_bench::text::{
    after_last, concat_str, decimal_string, eq_ignore_ascii_case, split_once, str_contains,
    str_ends_with, to_ascii_lowercase, trim,
};

#[test]
fn trim_removes_surrounding_whitespace() {
    assert_eq!(trim("  key \t"), "key");
    assert_eq!(trim("a b"), "a b");
    assert_eq!(trim("   "), "");
    assert_eq!(trim(""), "");
    assert_eq!(trim("\u{3000}x\u{2003}\n"), "x");
    assert_eq!(trim(" inner  space "), "inner  space");
}

#[test]
fn trim_agrees_with_std() {
    for s in ["", " a", "a ", "\t\n a \r\n", "\u{a0}b\u{a0}", "x y z", "\u{200b}w"] {
        assert_eq!(trim(s), s.trim());
    }
}

#[test]
fn split_once_splits_at_first_separator() {
    assert_eq!(split_once("a:b:c", ':'), Some(("a".to_string(), "b:c".to_string())));
    assert_eq!(split_once(":x", ':'), Some(("".to_string(), "x".to_string())));
    assert_eq!(split_once("x:", ':'), Some(("x".to_string(), "".to_string())));
    assert_eq!(split_once("nothing", ':'), None);
}

#[test]
fn contains_and_ends_with() {
    assert!(str_contains("ModExpAttackContract", "Attack"));
    assert!(str_contains("abc", ""));
    assert!(str_contains("abc", "abc"));
    assert!(!str_contains("abc", "abcd"));
    assert!(!str_contains("abc", "ac"));
    assert!(str_ends_with("test.json", ".json"));
    assert!(!str_ends_with("test.json.bak", ".json"));
    assert!(!str_ends_with("json", ".json"));
    assert!(str_ends_with("x", ""));
}

#[test]
fn after_last_takes_the_last_segment() {
    assert_eq!(after_last("tests/prague/eip1/test_a", '/'), "test_a");
    assert_eq!(after_last("plain", '/'), "plain");
    assert_eq!(after_last("ends/", '/'), "");
    assert_eq!(after_last("", '/'), "");
}

#[test]
fn ascii_case_operations() {
    assert_eq!(to_ascii_lowercase("Reth"), "reth");
    assert_eq!(to_ascii_lowercase("ÉthRex"), "Éthrex");
    assert!(eq_ignore_ascii_case("ETHREX", "Ethrex"));
    assert!(!eq_ignore_ascii_case("Eth", "Ethrex"));
    assert!(!eq_ignore_ascii_case("reth", "rest"));
}

#[test]
fn decimal_string_matches_display() {
    for n in [0u64, 7, 9, 10, 99, 100, 12345, 1_000_000_007, u64::MAX] {
        assert_eq!(decimal_string(n), n.to_string());
    }
}

#[test]
fn concat_joins_strings() {
    assert_eq!(concat_str("rpc_", "block"), "rpc_block");
    assert_eq!(concat_str("", ""), "");
}
