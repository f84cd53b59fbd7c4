//! The dense index map every table of the analysis is built on.

use rca::fir::BlockId;
use rca::index_map::IndexMap;

#[test]
fn empty_map_has_nothing() {
    let map: IndexMap<BlockId, u32> = IndexMap::new();
    assert_eq!(map.slot_count(), 0);
    assert!(!map.contains_key(BlockId(0)));
    assert!(map.get(BlockId(3)).is_none());
}

#[test]
fn insert_then_get_returns_the_value() {
    let mut map: IndexMap<BlockId, u32> = IndexMap::new();
    map.insert(BlockId(4), 40);
    map.insert(BlockId(1), 10);
    assert_eq!(map.slot_count(), 5);
    assert_eq!(map.get(BlockId(4)), Some(&40));
    assert_eq!(map.get(BlockId(1)), Some(&10));
    assert!(map.get(BlockId(0)).is_none());
    assert!(map.get(BlockId(7)).is_none());
    assert!(map.contains_key(BlockId(1)));
    assert!(!map.contains_key(BlockId(2)));
}

#[test]
fn insert_replaces_an_existing_value() {
    let mut map: IndexMap<BlockId, u32> = IndexMap::new();
    map.insert(BlockId(2), 1);
    map.insert(BlockId(2), 2);
    assert_eq!(map.get(BlockId(2)), Some(&2));
}

#[test]
fn take_removes_the_value() {
    let mut map: IndexMap<BlockId, u32> = IndexMap::new();
    map.insert(BlockId(2), 7);
    assert_eq!(map.take(BlockId(2)), Some(7));
    assert_eq!(map.take(BlockId(2)), None);
    assert!(!map.contains_key(BlockId(2)));
}

#[test]
fn keys_come_back_in_index_order() {
    let mut map: IndexMap<BlockId, u32> = IndexMap::new();
    map.insert(BlockId(5), 50);
    map.insert(BlockId(0), 0);
    map.insert(BlockId(3), 30);
    assert_eq!(map.keys(), vec![BlockId(0), BlockId(3), BlockId(5)]);
}

#[test]
fn clear_empties_the_map() {
    let mut map: IndexMap<BlockId, u32> = IndexMap::new();
    map.insert(BlockId(1), 1);
    map.clear();
    assert_eq!(map.slot_count(), 0);
    assert!(!map.contains_key(BlockId(1)));
}

#[test]
fn drain_yields_entries_and_empties_the_map() {
    let mut map: IndexMap<BlockId, u32> = IndexMap::new();
    map.insert(BlockId(2), 20);
    map.insert(BlockId(0), 0);
    let mut drain = map.drain();
    assert_eq!(drain.next(), Some((BlockId(0), 0)));
    assert_eq!(drain.next(), Some((BlockId(2), 20)));
    assert_eq!(drain.next(), None);
    assert_eq!(map.slot_count(), 0);
}

#[test]
fn into_iter_yields_entries_in_index_order() {
    let mut map: IndexMap<BlockId, u32> = IndexMap::new();
    map.insert(BlockId(1), 10);
    map.insert(BlockId(4), 40);
    let mut entries = map.into_iter();
    assert_eq!(entries.next(), Some((BlockId(1), 10)));
    assert_eq!(entries.next(), Some((BlockId(4), 40)));
    assert_eq!(entries.next(), None);
}
