use std::cell::Cell;
use std::rc::Rc;
use std::sync::atomic::{AtomicU32, Ordering};
use std::sync::Arc;

use clone_behavior::{
    AnySpeed, ArcWeak, ConstantTime, IndependentClone, MirroredClone, NearInstant, RcWeak,
};

#[test]
fn independent_clone_of_growable_sequence_is_isolated() {
    let mut source: Vec<i32> = vec![1, 2, 3];
    let clone = <Vec<i32> as IndependentClone<AnySpeed>>::independent_clone(&source);
    source.push(4);
    assert_eq!(clone.len(), 3);
    assert_eq!(clone, vec![1, 2, 3]);
    assert_eq!(source, vec![1, 2, 3, 4]);
}

#[test]
fn independent_clone_of_deque_is_isolated() {
    let mut source: std::collections::VecDeque<u16> = std::collections::VecDeque::new();
    source.push_back(10);
    source.push_back(20);
    let clone = <std::collections::VecDeque<u16> as IndependentClone<AnySpeed>>::independent_clone(
        &source,
    );
    source.push_back(30);
    assert_eq!(clone.len(), 2);
    assert_eq!(clone[0], 10);
    assert_eq!(clone[1], 20);
}

#[test]
fn independent_clone_of_cell_is_isolated() {
    let source: Cell<u64> = Cell::new(5);
    let clone = <Cell<u64> as IndependentClone<ConstantTime>>::independent_clone(&source);
    source.set(6);
    assert_eq!(clone.get(), 5);
    clone.set(7);
    assert_eq!(source.get(), 6);
}

#[test]
fn independent_clone_of_atomic_is_isolated() {
    let source = AtomicU32::new(5);
    let clone = <AtomicU32 as IndependentClone<NearInstant>>::independent_clone(&source);
    source.store(9, Ordering::Relaxed);
    assert_eq!(clone.load(Ordering::Relaxed), 5);
}

#[test]
fn independent_clone_of_rc_gets_fresh_allocation() {
    let source: Rc<u32> = Rc::new(11);
    let clone = <Rc<u32> as IndependentClone<ConstantTime>>::independent_clone(&source);
    assert_eq!(*clone, 11);
    assert!(!Rc::ptr_eq(&source, &clone));
    assert_eq!(Rc::strong_count(&source), 1);
}

#[test]
fn independent_clone_of_shared_cell_does_not_share() {
    let source: Rc<Cell<u64>> = Rc::new(Cell::new(3));
    let clone = <Rc<Cell<u64>> as IndependentClone<ConstantTime>>::independent_clone(&source);
    source.set(4);
    assert_eq!(clone.get(), 3);
}

#[test]
fn mirrored_clone_of_rc_shares_the_allocation() {
    let source: Rc<Cell<u64>> = Rc::new(Cell::new(0));
    let mirror = <Rc<Cell<u64>> as MirroredClone<NearInstant>>::mirrored_clone(&source);
    assert!(Rc::ptr_eq(&source, &mirror));
    source.set(source.get() + 1);
    assert_eq!(mirror.get(), 1);
    mirror.set(mirror.get() + 1);
    assert_eq!(source.get(), 2);
}

#[test]
fn mirrored_clone_of_arc_shares_the_allocation() {
    let source: Arc<u64> = Arc::new(44);
    let mirror = <Arc<u64> as MirroredClone<NearInstant>>::mirrored_clone(&source);
    assert!(Arc::ptr_eq(&source, &mirror));
    assert_eq!(*mirror, 44);
}

#[test]
fn pair_clone_is_componentwise() {
    let source: (u64, Vec<u8>) = (42, vec![b'a', b'b', b'c']);
    let clone = <(u64, Vec<u8>) as IndependentClone<AnySpeed>>::independent_clone(&source);
    assert_eq!(clone.0, 42);
    assert_eq!(clone.1, vec![b'a', b'b', b'c']);
    let mut source = source;
    source.1.push(b'd');
    assert_eq!(clone.1.len(), 3);
}

#[test]
fn twelve_element_tuple_clones_through() {
    let source = (1u8, 2u16, 3u32, 4u64, 5i8, 6i16, 7i32, 8i64, true, 'x', (), 12usize);
    let clone = IndependentClone::<ConstantTime>::independent_clone(&source);
    assert_eq!(clone, source);
}

#[test]
fn absent_optional_clones_to_absent() {
    let source: Option<i32> = None;
    let clone = <Option<i32> as IndependentClone<ConstantTime>>::independent_clone(&source);
    assert_eq!(clone, None);
}

#[test]
fn present_optional_applies_element_operation() {
    let source: Option<i32> = Some(5);
    let clone = <Option<i32> as IndependentClone<ConstantTime>>::independent_clone(&source);
    assert_eq!(clone, Some(5));
}

#[test]
fn failure_valued_fallible_applies_error_path() {
    let source: Result<i32, u8> = Err(3);
    let clone = <Result<i32, u8> as IndependentClone<ConstantTime>>::independent_clone(&source);
    assert_eq!(clone, Err(3));
    let success: Result<i32, u8> = Ok(-1);
    let clone = <Result<i32, u8> as IndependentClone<ConstantTime>>::independent_clone(&success);
    assert_eq!(clone, Ok(-1));
}

#[test]
fn mirrored_optional_shares_through_the_element() {
    let source: Option<Rc<Cell<u8>>> = Some(Rc::new(Cell::new(1)));
    let mirror =
        <Option<Rc<Cell<u8>>> as MirroredClone<NearInstant>>::mirrored_clone(&source);
    source.as_ref().unwrap().set(2);
    assert_eq!(mirror.as_ref().unwrap().get(), 2);
}

#[test]
fn dead_weak_handle_degrades_without_failing() {
    let strong: Rc<i32> = Rc::new(10);
    let weak = RcWeak::downgrade(&strong);
    drop(strong);
    assert!(weak.upgrade().is_none());
    let clone = <RcWeak<i32> as IndependentClone<ConstantTime>>::independent_clone(&weak);
    assert!(clone.upgrade().is_none());
}

#[test]
fn unresolvable_weak_handle_clones_to_unresolvable() {
    let weak: RcWeak<u8> = RcWeak::unresolvable();
    let clone = <RcWeak<u8> as IndependentClone<ConstantTime>>::independent_clone(&weak);
    assert!(clone.upgrade().is_none());
}

#[test]
fn live_weak_handle_clone_does_not_keep_referent_alive() {
    let strong: Rc<i32> = Rc::new(10);
    let weak = RcWeak::downgrade(&strong);
    let clone = <RcWeak<i32> as IndependentClone<ConstantTime>>::independent_clone(&weak);
    // The fresh referent is owned by no strong handle, so the clone has
    // already degraded; the source handle still resolves.
    assert!(clone.upgrade().is_none());
    assert_eq!(*weak.upgrade().unwrap(), 10);
}

#[test]
fn mirrored_weak_handle_resolves_with_its_source() {
    let strong: Arc<u8> = Arc::new(9);
    let weak = ArcWeak::downgrade(&strong);
    let mirror = <ArcWeak<u8> as MirroredClone<NearInstant>>::mirrored_clone(&weak);
    assert_eq!(*mirror.upgrade().unwrap(), 9);
    drop(strong);
    assert!(mirror.upgrade().is_none());
    assert!(weak.upgrade().is_none());
}

#[test]
fn nested_composites_clone_through() {
    let source: Vec<Option<(u8, bool)>> = vec![Some((1, true)), None, Some((3, false))];
    let clone =
        <Vec<Option<(u8, bool)>> as IndependentClone<AnySpeed>>::independent_clone(&source);
    assert_eq!(clone, source);
}
