use carbonmap::{CarbonMap, Entry};
use carbonmap::laws::increment_or_init;

#[test]
fn entry_or_insert() {
    let map = CarbonMap::new();

    let v = map.entry("a").or_insert(10);

    assert_eq!(*v.get(), 10);
    v.release();
}

#[test]
fn entry_and_modify() {
    let map = CarbonMap::new();

    map.entry("a").or_insert(1).release();

    map.entry("a").and_modify(|v| v + 5).or_insert(0).release();

    assert_eq!(map.get(&"a"), Some(6));
}

#[test]
fn entry_or_insert_with() {
    let map = CarbonMap::new();

    let v = map.entry("k").or_insert_with(|| 42);

    assert_eq!(*v.get(), 42);
    v.release();
}

#[test]
fn or_insert_keeps_existing_value() {
    let map = CarbonMap::new();

    map.insert("a", 3);

    let v = map.entry("a").or_insert(99);
    assert_eq!(*v.get(), 3);
    v.release();

    assert_eq!(map.get(&"a"), Some(3));
}

#[test]
fn or_insert_with_not_evaluated_when_occupied() {
    let map = CarbonMap::new();

    map.insert("a", 3);

    let v = map.entry("a").or_insert_with(|| panic!("producer must not run"));
    assert_eq!(*v.get(), 3);
    v.release();
}

#[test]
fn and_modify_not_invoked_when_absent() {
    let map: CarbonMap<&str, i32> = CarbonMap::new();

    map.entry("missing").and_modify(|_| panic!("mutator must not run")).or_insert(7).release();

    assert_eq!(map.get(&"missing"), Some(7));
}

#[test]
fn and_modify_invoked_when_present() {
    let map = CarbonMap::new();

    map.insert("n", 10);

    map.entry("n").and_modify(|v| v * 2).or_insert(0).release();

    assert_eq!(map.get(&"n"), Some(20));
}

#[test]
fn occupied_get_and_discard() {
    let map = CarbonMap::new();

    map.insert("a", 1);

    let e = map.entry("a");
    match &e {
        Entry::Occupied(o) => assert_eq!(*o.get(), 1),
        Entry::Vacant(_) => panic!("expected the key to be occupied"),
    }
    e.discard();

    assert_eq!(map.get(&"a"), Some(1));
}

#[test]
fn occupied_set() {
    let map = CarbonMap::new();

    map.insert("a", 1);

    match map.entry("a") {
        Entry::Occupied(mut o) => {
            o.set(42);
            Entry::Occupied(o).discard();
        }
        Entry::Vacant(_) => panic!("expected the key to be occupied"),
    }

    assert_eq!(map.get(&"a"), Some(42));
}

#[test]
fn vacant_insert() {
    let map = CarbonMap::new();

    match map.entry("fresh") {
        Entry::Occupied(_) => panic!("expected the key to be vacant"),
        Entry::Vacant(v) => {
            let g = v.insert(9);
            assert_eq!(*g.get(), 9);
            g.release();
        }
    }

    assert_eq!(map.get(&"fresh"), Some(9));
}

#[test]
fn vacant_discard_inserts_nothing() {
    let map: CarbonMap<&str, i32> = CarbonMap::new();

    map.entry("a").discard();

    assert_eq!(map.get(&"a"), None);
}

#[test]
fn guard_set_is_visible_after_release() {
    let map = CarbonMap::new();

    let mut g = map.entry("a").or_insert(1);
    g.set(5);
    assert_eq!(*g.get(), 5);
    g.release();

    assert_eq!(map.get(&"a"), Some(5));
}

#[test]
fn increment_or_init_counts_exactly() {
    let map = CarbonMap::new();

    for _ in 0..100 {
        increment_or_init(map.entry("counter")).release();
    }

    assert_eq!(map.get(&"counter"), Some(100));
}
