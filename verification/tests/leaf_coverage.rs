use std::borrow::Cow;
use std::marker::PhantomData;

use clone_behavior::{AnySpeed, ConstantTime, IndependentClone, MirroredClone, MixedClone,
    NearInstant};

#[test]
fn layout_clones_by_value() {
    let layout = core::alloc::Layout::new::<u64>();
    let clone =
        <core::alloc::Layout as IndependentClone<NearInstant>>::independent_clone(&layout);
    assert_eq!(clone, layout);
}

#[test]
fn type_id_clones_by_value() {
    let id = core::any::TypeId::of::<u8>();
    let clone = <core::any::TypeId as IndependentClone<NearInstant>>::independent_clone(&id);
    assert_eq!(clone, id);
    assert_ne!(clone, core::any::TypeId::of::<u16>());
}

#[test]
fn full_range_clones_to_full_range() {
    let all = ..;
    let clone =
        <core::ops::RangeFull as IndependentClone<NearInstant>>::independent_clone(&all);
    assert_eq!(clone, ..);
    let mirrored = <core::ops::RangeFull as MirroredClone<NearInstant>>::mirrored_clone(&all);
    assert_eq!(mirrored, ..);
}

#[test]
fn phantom_marker_clones_at_every_tier() {
    let marker: PhantomData<Vec<u8>> = PhantomData;
    let clone =
        <PhantomData<Vec<u8>> as IndependentClone<AnySpeed>>::independent_clone(&marker);
    assert_eq!(clone, PhantomData::<Vec<u8>>);
}

#[test]
fn instant_clones_by_value() {
    let now = std::time::Instant::now();
    let clone = <std::time::Instant as IndependentClone<NearInstant>>::independent_clone(&now);
    assert_eq!(clone, now);
}

#[test]
fn boxed_str_clone_is_isolated() {
    let source: Box<str> = String::from("pinned down").into_boxed_str();
    let clone = <Box<str> as IndependentClone<AnySpeed>>::independent_clone(&source);
    assert_eq!(&*clone, "pinned down");
    assert_ne!(source.as_ptr(), clone.as_ptr());
}

#[test]
fn borrowed_cow_mixed_clone_stays_borrowed() {
    let text = String::from("lent");
    let source: Cow<str> = Cow::Borrowed(text.as_str());
    let clone = <Cow<str> as MixedClone<ConstantTime>>::mixed_clone(&source);
    assert!(matches!(clone, Cow::Borrowed(_)));
    assert_eq!(clone, "lent");
}

#[test]
fn owned_cow_mixed_clone_keeps_the_value() {
    let source: Cow<str> = Cow::Owned(String::from("held"));
    let clone = <Cow<str> as MixedClone<ConstantTime>>::mixed_clone(&source);
    assert!(matches!(clone, Cow::Owned(_)));
    assert_eq!(clone, "held");
}

#[test]
fn atomic_orderings_clone_by_value() {
    let relaxed = std::sync::atomic::Ordering::Relaxed;
    let clone = <std::sync::atomic::Ordering as IndependentClone<NearInstant>>::independent_clone(
        &relaxed,
    );
    assert_eq!(clone, std::sync::atomic::Ordering::Relaxed);
}

#[test]
fn unit_and_bools_clone_by_value() {
    assert_eq!(<() as IndependentClone<NearInstant>>::independent_clone(&()), ());
    assert!(<bool as IndependentClone<NearInstant>>::independent_clone(&true));
    assert_eq!(<i128 as IndependentClone<NearInstant>>::independent_clone(&-5), -5);
    assert_eq!(<usize as IndependentClone<NearInstant>>::independent_clone(&9), 9);
}

#[test]
fn array_clone_is_componentwise() {
    let source: [u16; 4] = [1, 2, 3, 4];
    let clone = <[u16; 4] as IndependentClone<ConstantTime>>::independent_clone(&source);
    assert_eq!(clone, [1, 2, 3, 4]);
}

#[test]
fn atomic_pointer_mixed_clone_copies_the_address() {
    let source = std::sync::atomic::AtomicPtr::<u32>::default();
    let clone = <std::sync::atomic::AtomicPtr<u32> as MixedClone<NearInstant>>::mixed_clone(
        &source,
    );
    assert_eq!(
        clone.load(std::sync::atomic::Ordering::Relaxed),
        source.load(std::sync::atomic::Ordering::Relaxed),
    );
}
