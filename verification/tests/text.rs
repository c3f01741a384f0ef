use palette_core::sorted_map::SortedMap;
use palette_core::text::{compare_keys, str_eq, KeyOrder};

#[test]
fn compare_keys_orders_by_bytes() {
    assert_eq!(compare_keys("a", "b"), KeyOrder::Before);
    assert_eq!(compare_keys("b", "a"), KeyOrder::After);
    assert_eq!(compare_keys("abc", "abc"), KeyOrder::Same);
    assert_eq!(compare_keys("", ""), KeyOrder::Same);
    assert_eq!(compare_keys("", "a"), KeyOrder::Before);
    assert_eq!(compare_keys("ab", "abc"), KeyOrder::Before);
    assert_eq!(compare_keys("abc", "ab"), KeyOrder::After);
    assert_eq!(compare_keys("Z", "a"), KeyOrder::Before);
    assert_eq!(compare_keys("z", "\u{e9}"), KeyOrder::Before);
}

#[test]
fn compare_keys_agrees_with_std_order() {
    let words = ["", "a", "ab", "abc", "b", "B", "macos", "terminal", "web", "\u{e9}", "z\u{7f}"];
    for a in words {
        for b in words {
            let expected = if a < b {
                KeyOrder::Before
            } else if a == b {
                KeyOrder::Same
            } else {
                KeyOrder::After
            };
            assert_eq!(compare_keys(a, b), expected, "{a:?} against {b:?}");
            assert_eq!(str_eq(a, b), a == b);
        }
    }
}

#[test]
fn sorted_map_keeps_keys_ascending() {
    let mut map: SortedMap<String> = SortedMap::new();
    assert!(map.is_empty());
    map.insert("web".to_owned(), "3".to_owned());
    map.insert("macos".to_owned(), "1".to_owned());
    map.insert("terminal".to_owned(), "2".to_owned());
    assert_eq!(map.len(), 3);
    assert!(!map.is_empty());
    assert_eq!(map.key_at(0), "macos");
    assert_eq!(map.key_at(1), "terminal");
    assert_eq!(map.key_at(2), "web");
    assert_eq!(map.value_at(0), "1");
    assert_eq!(map.value_at(2), "3");
    assert_eq!(map.position("terminal"), Some(1));
    assert_eq!(map.position("linux"), None);
}

#[test]
fn sorted_map_insert_replaces_value_of_known_key() {
    let mut map: SortedMap<String> = SortedMap::new();
    map.insert("b".to_owned(), "old".to_owned());
    map.insert("a".to_owned(), "first".to_owned());
    map.insert("b".to_owned(), "new".to_owned());
    assert_eq!(map.len(), 2);
    assert_eq!(map.get("b").map(|s| s.as_str()), Some("new"));
    assert_eq!(map.get("a").map(|s| s.as_str()), Some("first"));
    assert_eq!(map.get("c"), None);
    assert!(map.contains_key("a"));
    assert!(!map.contains_key("ab"));
}

#[test]
fn sorted_map_clone_is_equal() {
    let mut map: SortedMap<String> = SortedMap::new();
    map.insert("k".to_owned(), "v".to_owned());
    let copy = map.clone();
    assert_eq!(copy, map);
    assert_eq!(copy.get("k").map(|s| s.as_str()), Some("v"));
}
