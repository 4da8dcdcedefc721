use endless_jumper::registry::{Registry, RegistryItem};

#[test]
fn number_reads_in_decimal() {
    assert_eq!(RegistryItem::Number(0).to_string(), "0");
    assert_eq!(RegistryItem::Number(7).to_string(), "7");
    assert_eq!(RegistryItem::Number(10).to_string(), "10");
    assert_eq!(RegistryItem::Number(42).to_string(), "42");
    assert_eq!(RegistryItem::Number(1_234_567_890).to_string(), "1234567890");
    assert_eq!(RegistryItem::Number(usize::MAX).to_string(), format!("{}", usize::MAX));
}

#[test]
fn number_reads_as_std_prints_it() {
    for n in [1usize, 9, 19, 99, 100, 101, 909, 1000, 65_535, 4_294_967_295] {
        assert_eq!(RegistryItem::Number(n).to_string(), format!("{}", n));
    }
}

#[test]
fn new_registry_is_empty() {
    let registry = Registry::new();
    assert_eq!(registry.len(), 0);
    assert_eq!(registry.get("points"), None);
    assert!(!registry.contains_key("points"));
}

#[test]
fn insert_then_get() {
    let mut registry = Registry::new();
    assert_eq!(registry.insert("points".to_string(), RegistryItem::Number(42)), None);
    assert_eq!(registry.get("points"), Some(RegistryItem::Number(42)));
    assert!(registry.contains_key("points"));
    assert_eq!(registry.len(), 1);
    assert_eq!(registry.get("Points"), None);
    assert_eq!(registry.get(""), None);
}

#[test]
fn insert_replaces_and_returns_the_old_item() {
    let mut registry = Registry::new();
    registry.insert("points".to_string(), RegistryItem::Number(1));
    registry.insert("lives".to_string(), RegistryItem::Number(3));
    let old = registry.insert("points".to_string(), RegistryItem::Number(2));
    assert_eq!(old, Some(RegistryItem::Number(1)));
    assert_eq!(registry.get("points"), Some(RegistryItem::Number(2)));
    assert_eq!(registry.get("lives"), Some(RegistryItem::Number(3)));
    assert_eq!(registry.len(), 2);
}

#[test]
fn keys_are_kept_apart() {
    let mut registry = Registry::new();
    for (i, key) in ["a", "b", "ab", "ba", ""].iter().enumerate() {
        assert_eq!(registry.insert(key.to_string(), RegistryItem::Number(i)), None);
    }
    assert_eq!(registry.len(), 5);
    for (i, key) in ["a", "b", "ab", "ba", ""].iter().enumerate() {
        assert_eq!(registry.get(key), Some(RegistryItem::Number(i)));
    }
}
