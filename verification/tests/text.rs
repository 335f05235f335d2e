use braess_experiments::str_map::StrMap;
use braess_experiments::text::{contains_str, i64_text, replace_str, u64_text};

#[test]
fn replace_all_occurrences_left_to_right() {
    assert_eq!(replace_str("aaa", "aa", "b"), "ba");
    assert_eq!(replace_str("x{a}y{a}", "{a}", ""), "xy");
    assert_eq!(replace_str("abc", "d", "e"), "abc");
}

#[test]
fn replacing_the_empty_pattern_as_std_does() {
    assert_eq!(replace_str("abc", "", "x"), "abc".replace("", "x"));
    assert_eq!(replace_str("abc", "", "x"), "xaxbxcx");
    assert_eq!(replace_str("", "", "x"), "x");
    assert_eq!(replace_str("ab", "", ""), "ab");
}

#[test]
fn contains_text() {
    assert!(contains_str("hello", "ll"));
    assert!(contains_str("hello", ""));
    assert!(!contains_str("hello", "lo!"));
}

#[test]
fn decimal_texts() {
    assert_eq!(u64_text(0), "0");
    assert_eq!(u64_text(1234567890), "1234567890");
    assert_eq!(i64_text(-45), "-45");
    assert_eq!(i64_text(i64::MIN), "-9223372036854775808");
}

#[test]
fn string_map_insert_and_get() {
    let mut m: StrMap<u32> = StrMap::new();
    assert_eq!(m.len(), 0);
    m.insert("a".to_string(), 1);
    m.insert("b".to_string(), 2);
    m.insert("a".to_string(), 3);
    assert_eq!(m.len(), 2);
    assert_eq!(m.get("a"), Some(&3));
    assert_eq!(m.get("c"), None);
    assert!(m.contains_key("b"));
    assert_eq!(m.keys(), vec!["a".to_string(), "b".to_string()]);
    let mut vals = m.values();
    vals.sort();
    assert_eq!(vals, vec![2, 3]);
}
