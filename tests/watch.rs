use keyhook::WatchSet;

#[test]
fn watch_set_add_remove_idempotent() {
    let mut set = WatchSet::new();
    assert!(set.is_empty());
    assert!(set.contains_or_empty(9));
    set.add(3);
    set.add(3);
    assert!(set.contains(3));
    assert!(!set.contains_or_empty(9));
    set.remove(3);
    set.remove(3);
    assert!(!set.contains(3));
    assert!(set.is_empty());
    assert!(set.contains_or_empty(3));
}
