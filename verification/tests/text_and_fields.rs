use slicecore_engine::field_map::FieldMap;
use slicecore_engine::text::{
    contains_str, find_chars, remove_char, str_eq, to_lowercase, to_uppercase, trim_str,
};

#[test]
fn field_map_read_after_write() {
    let mut m = FieldMap::new();
    assert_eq!(m.len(), 0);
    m.insert("a".to_string(), "1".to_string());
    m.insert("b".to_string(), "2".to_string());
    m.insert("a".to_string(), "3".to_string());
    assert_eq!(m.get("a").unwrap(), "3");
    assert_eq!(m.get("b").unwrap(), "2");
    assert!(m.get("c").is_none());
    assert!(m.contains_key("b"));
    assert_eq!(m.len(), 2);
}

#[test]
fn field_map_overlay_prefers_other_and_skips() {
    let mut base = FieldMap::new();
    base.insert("a".to_string(), "1".to_string());
    base.insert("b".to_string(), "1".to_string());
    let mut top = FieldMap::new();
    top.insert("b".to_string(), "2".to_string());
    top.insert("skip".to_string(), "x".to_string());
    base.overlay(&top, Some("skip"));
    assert_eq!(base.get("a").unwrap(), "1");
    assert_eq!(base.get("b").unwrap(), "2");
    assert!(base.get("skip").is_none());
    base.overlay(&top, None);
    assert_eq!(base.get("skip").unwrap(), "x");
}

#[test]
fn string_helpers() {
    assert!(str_eq("abc", "abc"));
    assert!(!str_eq("abc", "abd"));
    assert!(!str_eq("ab", "abc"));
    assert!(contains_str("hello world", "o w"));
    assert!(contains_str("x", ""));
    assert!(!contains_str("", "x"));
    assert_eq!(trim_str("\u{a0} a b \t"), "a b");
    assert_eq!(remove_char("a b  c", ' '), "abc");
    let hay: Vec<char> = "abcabc".chars().collect();
    let needle: Vec<char> = "ca".chars().collect();
    assert_eq!(find_chars(&hay, &needle), Some(2));
    assert_eq!(find_chars(&hay, &['z']), None);
}

#[test]
fn case_mapping_wrappers_change_text() {
    assert_eq!(to_lowercase("GyRoID"), "gyroid");
    assert_eq!(to_uppercase("pla"), "PLA");
    assert_eq!(to_lowercase("ÄÖ"), "äö");
}

#[test]
fn field_map_pairs_hold_each_key_once() {
    let mut m = FieldMap::new();
    m.insert("x".to_string(), "1".to_string());
    m.insert("y".to_string(), "2".to_string());
    m.insert("x".to_string(), "3".to_string());
    let pairs: Vec<(String, String)> = m.pairs().to_vec();
    assert_eq!(pairs, vec![("x".to_string(), "3".to_string()), ("y".to_string(), "2".to_string())]);
}
