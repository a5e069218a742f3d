use std::cell::Cell;
use std::collections::{BTreeMap, BTreeSet, HashMap, HashSet};
use std::rc::Rc;

use clone_behavior::{AnySpeed, ConstantTime, IndependentClone, MirroredClone, NearInstant,
    PinnedArc, PinnedRc, PinnedSlice, PinnedStr};

#[test]
fn hash_map_clone_rebuilds_every_entry() {
    let mut source: HashMap<u32, i64> = HashMap::new();
    source.insert(1, 10);
    source.insert(2, 20);
    let clone = <HashMap<u32, i64> as IndependentClone<AnySpeed>>::independent_clone(&source);
    source.insert(3, 30);
    assert_eq!(clone.len(), 2);
    assert_eq!(clone.get(&1), Some(&10));
    assert_eq!(clone.get(&2), Some(&20));
    assert_eq!(clone.get(&3), None);
}

#[test]
fn hash_map_clone_applies_element_operation_to_values() {
    let mut source: HashMap<u8, Rc<u16>> = HashMap::new();
    source.insert(7, Rc::new(70));
    let clone = <HashMap<u8, Rc<u16>> as IndependentClone<AnySpeed>>::independent_clone(&source);
    assert_eq!(**clone.get(&7).unwrap(), 70);
    assert!(!Rc::ptr_eq(source.get(&7).unwrap(), clone.get(&7).unwrap()));
}

#[test]
fn hash_set_clone_rebuilds_every_element() {
    let mut source: HashSet<i32> = HashSet::new();
    source.insert(-1);
    source.insert(4);
    let clone = <HashSet<i32> as IndependentClone<AnySpeed>>::independent_clone(&source);
    source.insert(9);
    assert_eq!(clone.len(), 2);
    assert!(clone.contains(&-1));
    assert!(clone.contains(&4));
    assert!(!clone.contains(&9));
}

#[test]
fn ordered_map_clone_rebuilds_every_entry() {
    let mut source: BTreeMap<u64, bool> = BTreeMap::new();
    source.insert(5, true);
    source.insert(6, false);
    let clone = <BTreeMap<u64, bool> as IndependentClone<AnySpeed>>::independent_clone(&source);
    source.insert(7, true);
    assert_eq!(clone.len(), 2);
    assert_eq!(clone.get(&5), Some(&true));
    assert_eq!(clone.get(&6), Some(&false));
    assert_eq!(clone.get(&7), None);
}

#[test]
fn ordered_set_clone_rebuilds_every_element() {
    let mut source: BTreeSet<u8> = BTreeSet::new();
    source.insert(2);
    source.insert(3);
    let clone = <BTreeSet<u8> as IndependentClone<AnySpeed>>::independent_clone(&source);
    source.remove(&2);
    assert_eq!(clone.len(), 2);
    assert!(clone.contains(&2));
    assert!(clone.contains(&3));
}

#[test]
fn empty_collections_clone_to_empty() {
    let map: HashMap<u32, u32> = HashMap::new();
    let clone = <HashMap<u32, u32> as IndependentClone<AnySpeed>>::independent_clone(&map);
    assert!(clone.is_empty());
    let v: Vec<u8> = Vec::new();
    let clone = <Vec<u8> as IndependentClone<AnySpeed>>::independent_clone(&v);
    assert!(clone.is_empty());
}

#[test]
fn boxed_slice_clone_is_isolated() {
    let source: Box<[u16]> = vec![1, 2, 3].into_boxed_slice();
    let clone = <Box<[u16]> as IndependentClone<AnySpeed>>::independent_clone(&source);
    assert_eq!(&*clone, &[1, 2, 3]);
    assert_ne!(source.as_ptr(), clone.as_ptr());
}

#[test]
fn manually_drop_clone_preserves_the_value() {
    let source = core::mem::ManuallyDrop::new(41u32);
    let clone =
        <core::mem::ManuallyDrop<u32> as IndependentClone<ConstantTime>>::independent_clone(
            &source,
        );
    assert_eq!(*clone, 41);
}

#[test]
fn pinned_handle_independent_clone_is_isolated() {
    let source: PinnedRc<Cell<u64>> = PinnedRc::pin_value(Cell::new(1));
    let clone = <PinnedRc<Cell<u64>> as IndependentClone<ConstantTime>>::independent_clone(
        &source,
    );
    source.pinned_ref().set(2);
    assert_eq!(clone.pinned_ref().get(), 1);
}

#[test]
fn pinned_handle_mirrored_clone_shares() {
    let source: PinnedRc<Cell<u64>> = PinnedRc::pin_value(Cell::new(1));
    let mirror = <PinnedRc<Cell<u64>> as MirroredClone<NearInstant>>::mirrored_clone(&source);
    source.pinned_ref().set(5);
    assert_eq!(mirror.pinned_ref().get(), 5);
}

#[test]
fn pinned_arc_independent_clone_keeps_the_value() {
    let source: PinnedArc<u64> = PinnedArc::pin_value(17);
    let clone = <PinnedArc<u64> as IndependentClone<ConstantTime>>::independent_clone(&source);
    assert_eq!(*clone.pinned_ref(), 17);
}

#[test]
fn pinned_slice_clone_is_isolated() {
    let source: PinnedSlice<u16> = PinnedSlice::pin_elements(vec![1, 2, 3]);
    let clone = <PinnedSlice<u16> as IndependentClone<AnySpeed>>::independent_clone(&source);
    assert_eq!(clone.elements_ref(), &[1, 2, 3]);
    assert_ne!(source.elements_ref().as_ptr(), clone.elements_ref().as_ptr());
}

#[test]
fn pinned_string_clone_keeps_the_characters() {
    let source = PinnedStr::pin_string(String::from("held fast").into_boxed_str());
    let clone = <PinnedStr as IndependentClone<AnySpeed>>::independent_clone(&source);
    assert_eq!(clone.str_ref(), "held fast");
    assert_ne!(source.str_ref().as_ptr(), clone.str_ref().as_ptr());
}
