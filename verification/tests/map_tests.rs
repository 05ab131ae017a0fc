use carbonmap::CarbonMap;

#[test]
fn basic_insert_get() {
    let map = CarbonMap::new();

    map.insert("a", 1);
    map.insert("b", 2);

    assert_eq!(map.get(&"a"), Some(1));
    assert_eq!(map.get(&"b"), Some(2));
    assert_eq!(map.get(&"c"), None);
}

#[test]
fn overwrite() {
    let map = CarbonMap::new();

    map.insert("x", 10);
    map.insert("x", 20);

    assert_eq!(map.get(&"x"), Some(20));
}

#[test]
fn remove_basic() {
    let map = CarbonMap::new();

    map.insert("a", 1);

    let v = map.remove(&"a");

    assert_eq!(v, Some(1));
    assert_eq!(map.get(&"a"), None);
}

#[test]
fn remove_absent_is_noop() {
    let map = CarbonMap::new();

    map.insert("a", 1);

    assert_eq!(map.remove(&"b"), None);
    assert_eq!(map.get(&"a"), Some(1));
    assert_eq!(map.get(&"b"), None);
}

#[test]
fn scenario_from_empty() {
    let map = CarbonMap::new();

    map.insert("a", 1);
    map.insert("b", 2);

    assert_eq!(map.get(&"a"), Some(1));
    assert_eq!(map.get(&"c"), None);
    assert_eq!(map.remove(&"a"), Some(1));
    assert_eq!(map.get(&"a"), None);
}

#[test]
fn insert_disjoint_blocks_all_visible() {
    let map = CarbonMap::new();

    for block in 0..4 {
        for i in 0..25 {
            map.insert(format!("{}-{}", block, i), block * 100 + i);
        }
    }

    for block in 0..4 {
        for i in 0..25 {
            assert_eq!(map.get(&format!("{}-{}", block, i)), Some(block * 100 + i));
        }
    }
}
