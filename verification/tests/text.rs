use agent_runtime::text::{decimal_text, join, same_text};
use agent_runtime::text_map::TextMap;

#[test]
fn numbers_have_decimal_texts() {
    for number in [0, 7, 10, 99, 100, 1_000_000, u64::MAX] {
        assert_eq!(decimal_text(number), number.to_string());
    }
}

#[test]
fn texts_are_joined() {
    let parts = vec!["a".to_string(), String::new(), "c".to_string()];
    assert_eq!(join(&parts, "; "), "a; ; c");
    assert_eq!(join(&Vec::new(), "; "), "");
    assert_eq!(join(&vec!["one".to_string()], "; "), "one");
    assert!(same_text("\u{e9}", "\u{e9}"));
    assert!(!same_text("a", "A"));
}

#[test]
fn text_maps_keep_one_value_per_key() {
    let mut map = TextMap::new();
    assert_eq!(map.insert("a".to_string(), 1), None);
    assert_eq!(map.insert("b".to_string(), 2), None);
    assert_eq!(map.insert("a".to_string(), 3), Some(1));
    assert!(map.contains_key("a"));
    assert_eq!(map.get("a"), Some(&3));
    assert_eq!(map.get("c"), None);
    assert_eq!(map.remove("a"), Some(3));
    assert_eq!(map.remove("a"), None);
    assert_eq!(map.get("b"), Some(&2));
    map.clear();
    assert!(!map.contains_key("b"));
}
