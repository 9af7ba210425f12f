use image_processor::strmap::StrMap;

#[test]
fn map_insert_replaces_and_keeps_order() {
    let mut m: StrMap<String> = StrMap::new();
    assert_eq!(m.len(), 0);
    assert_eq!(m.get("a"), None);
    m.insert("a".to_string(), "1".to_string());
    m.insert("b".to_string(), "2".to_string());
    m.insert("a".to_string(), "3".to_string());
    assert_eq!(m.len(), 2);
    assert_eq!(m.get("a"), Some(&"3".to_string()));
    assert_eq!(m.get("b"), Some(&"2".to_string()));
    assert!(m.contains_key("b"));
    assert!(!m.contains_key("c"));
    assert!(!m.contains_key(""));
    assert_eq!(m.key_at(0), "a");
    assert_eq!(m.value_at(0), "3");
    assert_eq!(m.key_at(1), "b");
    assert_eq!(m.value_at(1), "2");
}

#[test]
fn map_keys_are_compared_exactly() {
    let mut m: StrMap<u8> = StrMap::new();
    m.insert("Key".to_string(), 1);
    m.insert("key".to_string(), 2);
    m.insert("key ".to_string(), 3);
    m.insert(String::new(), 4);
    assert_eq!(m.len(), 4);
    assert_eq!(m.get("Key"), Some(&1));
    assert_eq!(m.get("key"), Some(&2));
    assert_eq!(m.get("key "), Some(&3));
    assert_eq!(m.get(""), Some(&4));
}
