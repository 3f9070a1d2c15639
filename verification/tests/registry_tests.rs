use kdl_builder::HashSetMapBuilder;
use std::collections::hash_map::DefaultHasher;
use std::hash::Hasher;
use std::rc::Rc;

fn hash_of(text: &str) -> u64 {
    let mut h = DefaultHasher::new();
    h.write(text.as_bytes());
    h.finish()
}

#[test]
fn registry_starts_empty_with_a_hasher() {
    let reg: HashSetMapBuilder<String> = HashSetMapBuilder::new();
    assert!(reg.has_hasher());
    assert!(reg.is_empty());
    assert_eq!(reg.len(), 0);
    let reg: HashSetMapBuilder<String> = HashSetMapBuilder::default();
    assert!(reg.has_hasher());
    assert!(reg.build().is_empty());
}

#[test]
fn registry_with_capacity_has_no_hasher() {
    let reg: HashSetMapBuilder<String> = HashSetMapBuilder::new_with_capacity(16);
    assert!(!reg.has_hasher());
    assert!(reg.is_empty());
    let reg = reg.with_hasher(Rc::new(DefaultHasher::new()));
    assert!(reg.has_hasher());
}

#[test]
fn registry_constructors_with_a_hasher() {
    let reg: HashSetMapBuilder<i64> = HashSetMapBuilder::new_with_hasher(Rc::new(DefaultHasher::new()));
    assert!(reg.has_hasher());
    assert_eq!(reg.len(), 0);
    let reg: HashSetMapBuilder<i64> =
        HashSetMapBuilder::new_with_capacity_and_hasher(4, Rc::new(DefaultHasher::new()));
    assert!(reg.has_hasher());
    assert_eq!(reg.len(), 0);
}

#[test]
fn registry_insert_files_under_the_hash_of_the_text() {
    let mut reg: HashSetMapBuilder<String> = HashSetMapBuilder::new();
    let mut hasher = DefaultHasher::new();
    assert_eq!(reg.insert(&mut hasher, "asd".to_string()), None);
    assert_eq!(reg.len(), 1);
    assert!(!reg.is_empty());
    let built = reg.build();
    assert_eq!(built.get(&hash_of("asd")), Some(&Rc::new("asd".to_string())));
}

#[test]
fn registry_insert_returns_what_was_held() {
    let mut reg: HashSetMapBuilder<String> = HashSetMapBuilder::new();
    assert_eq!(reg.insert(&mut DefaultHasher::new(), "asdddd".to_string()), None);
    assert_eq!(
        reg.insert(&mut DefaultHasher::new(), "asdddd".to_string()),
        Some(Rc::new("asdddd".to_string()))
    );
    assert_eq!(reg.insert(&mut DefaultHasher::new(), "other".to_string()), None);
    assert_eq!(reg.len(), 2);
}

#[test]
fn registry_insert_goes_on_from_the_hasher_state() {
    let mut reg: HashSetMapBuilder<i64> = HashSetMapBuilder::new();
    let mut hasher = DefaultHasher::new();
    reg.insert(&mut hasher, 12);
    reg.insert(&mut hasher, 12);
    assert_eq!(reg.len(), 2);
    let mut again = DefaultHasher::new();
    again.write(b"12");
    let first = again.finish();
    again.write(b"12");
    let second = again.finish();
    let built = reg.build();
    assert_eq!(built.get(&first), Some(&Rc::new(12)));
    assert_eq!(built.get(&second), Some(&Rc::new(12)));
}

#[test]
fn registry_insert_hashed_overwrites_by_key() {
    let mut reg: HashSetMapBuilder<&str> = HashSetMapBuilder::new();
    assert_eq!(reg.insert_hashed(7, "a"), None);
    assert_eq!(reg.insert_hashed(8, "b"), None);
    assert_eq!(reg.insert_hashed(7, "c"), Some(Rc::new("a")));
    assert_eq!(reg.len(), 2);
    let built = reg.build();
    assert_eq!(built.get(&7), Some(&Rc::new("c")));
    assert_eq!(built.get(&8), Some(&Rc::new("b")));
}

#[test]
fn registry_clear_keeps_the_hasher() {
    let mut reg: HashSetMapBuilder<&str> = HashSetMapBuilder::new();
    reg.insert_hashed(1, "a");
    reg.clear();
    assert!(reg.is_empty());
    assert!(reg.has_hasher());
    reg.clear();
    assert_eq!(reg.len(), 0);
}

#[test]
fn registry_hasher_can_be_set_in_place() {
    let mut reg: HashSetMapBuilder<&str> = HashSetMapBuilder::new_with_capacity(2);
    assert!(!reg.has_hasher());
    reg.hasher(Rc::new(DefaultHasher::new())).insert_hashed(3, "x");
    assert!(reg.has_hasher());
    assert_eq!(reg.len(), 1);
}
