use vstd::prelude::*;
use crate::independent::IndependentClone;
use crate::mirrored::MirroredClone;
use crate::mixed::MixedClone;
use crate::speed::{NearInstant, ConstantTime, LogTime, AnySpeed};

verus! {

/// Indicates that the speed of cloning a type does not recursively depend on
/// any generics, opting the type into several blanket implementations.
///
/// As examples, `u8` qualifies, while `Option<T>` does not: the cost of
/// cloning an `Option<T>` depends on the cost of cloning a `T`.
///
/// A `NonRecursive` type need only implement a cloning operation at the
/// fastest applicable speed, and blanket implementations handle the rest:
/// each derived implementation delegates to the one tier above, so a claimed
/// slower tier always produces exactly what the fastest implementation
/// produces. This widening is strictly one-directional — a fast clone is
/// always a valid slower clone, never the reverse — and it must not be
/// applied to a type whose clone cost depends on a contained parameter:
/// a caller could then believe a linear-cost container clone is
/// constant-time. Container types therefore do not carry this marker, and
/// instead provide one implementation per tier, each built from the
/// element's capability at that same tier.
pub trait NonRecursive {}

impl<T: NonRecursive + IndependentClone<NearInstant>> IndependentClone<ConstantTime> for T {
    fn independent_clone(&self) -> (r: Self)
        ensures
            call_ensures(<T as IndependentClone<NearInstant>>::independent_clone, (self,), r),
    {
        <T as IndependentClone<NearInstant>>::independent_clone(self)
    }
}

impl<T: NonRecursive + IndependentClone<ConstantTime>> IndependentClone<LogTime> for T {
    fn independent_clone(&self) -> (r: Self)
        ensures
            call_ensures(<T as IndependentClone<ConstantTime>>::independent_clone, (self,), r),
    {
        <T as IndependentClone<ConstantTime>>::independent_clone(self)
    }
}

impl<T: NonRecursive + IndependentClone<LogTime>> IndependentClone<AnySpeed> for T {
    fn independent_clone(&self) -> (r: Self)
        ensures
            call_ensures(<T as IndependentClone<LogTime>>::independent_clone, (self,), r),
    {
        <T as IndependentClone<LogTime>>::independent_clone(self)
    }
}

impl<T: NonRecursive + MirroredClone<NearInstant>> MirroredClone<ConstantTime> for T {
    fn mirrored_clone(&self) -> (r: Self)
        ensures
            call_ensures(<T as MirroredClone<NearInstant>>::mirrored_clone, (self,), r),
    {
        <T as MirroredClone<NearInstant>>::mirrored_clone(self)
    }
}

impl<T: NonRecursive + MirroredClone<ConstantTime>> MirroredClone<LogTime> for T {
    fn mirrored_clone(&self) -> (r: Self)
        ensures
            call_ensures(<T as MirroredClone<ConstantTime>>::mirrored_clone, (self,), r),
    {
        <T as MirroredClone<ConstantTime>>::mirrored_clone(self)
    }
}

impl<T: NonRecursive + MirroredClone<LogTime>> MirroredClone<AnySpeed> for T {
    fn mirrored_clone(&self) -> (r: Self)
        ensures
            call_ensures(<T as MirroredClone<LogTime>>::mirrored_clone, (self,), r),
    {
        <T as MirroredClone<LogTime>>::mirrored_clone(self)
    }
}

impl<T: NonRecursive + MixedClone<NearInstant>> MixedClone<ConstantTime> for T {
    fn mixed_clone(&self) -> (r: Self)
        ensures
            call_ensures(<T as MixedClone<NearInstant>>::mixed_clone, (self,), r),
    {
        <T as MixedClone<NearInstant>>::mixed_clone(self)
    }
}

impl<T: NonRecursive + MixedClone<ConstantTime>> MixedClone<LogTime> for T {
    fn mixed_clone(&self) -> (r: Self)
        ensures
            call_ensures(<T as MixedClone<ConstantTime>>::mixed_clone, (self,), r),
    {
        <T as MixedClone<ConstantTime>>::mixed_clone(self)
    }
}

impl<T: NonRecursive + MixedClone<LogTime>> MixedClone<AnySpeed> for T {
    fn mixed_clone(&self) -> (r: Self)
        ensures
            call_ensures(<T as MixedClone<LogTime>>::mixed_clone, (self,), r),
    {
        <T as MixedClone<LogTime>>::mixed_clone(self)
    }
}

impl NonRecursive for i8 {}

impl NonRecursive for i16 {}

impl NonRecursive for i32 {}

impl NonRecursive for i64 {}

impl NonRecursive for i128 {}

impl NonRecursive for isize {}

impl NonRecursive for u8 {}

impl NonRecursive for u16 {}

impl NonRecursive for u32 {}

impl NonRecursive for u64 {}

impl NonRecursive for u128 {}

impl NonRecursive for usize {}

impl NonRecursive for bool {}

impl NonRecursive for char {}

impl NonRecursive for () {}

impl<'a, T: ?Sized> NonRecursive for &'a T {}

impl NonRecursive for core::cmp::Ordering {}

impl NonRecursive for core::sync::atomic::Ordering {}

impl NonRecursive for core::time::Duration {}

impl<T: ?Sized> NonRecursive for core::marker::PhantomData<T> {}

impl NonRecursive for core::sync::atomic::AtomicBool {}

impl NonRecursive for core::sync::atomic::AtomicI8 {}

impl NonRecursive for core::sync::atomic::AtomicI16 {}

impl NonRecursive for core::sync::atomic::AtomicI32 {}

impl NonRecursive for core::sync::atomic::AtomicI64 {}

impl NonRecursive for core::sync::atomic::AtomicIsize {}

impl NonRecursive for core::sync::atomic::AtomicU8 {}

impl NonRecursive for core::sync::atomic::AtomicU16 {}

impl NonRecursive for core::sync::atomic::AtomicU32 {}

impl NonRecursive for core::sync::atomic::AtomicU64 {}

impl NonRecursive for core::sync::atomic::AtomicUsize {}

impl<T> NonRecursive for core::sync::atomic::AtomicPtr<T> {}

/// An owned string's clone cost depends on its length, but not on any type
/// parameter, which is all this marker claims.
impl NonRecursive for String {}

impl NonRecursive for core::alloc::Layout {}

impl NonRecursive for core::any::TypeId {}

impl NonRecursive for core::convert::Infallible {}

impl NonRecursive for core::ops::RangeFull {}

impl NonRecursive for core::marker::PhantomPinned {}

impl NonRecursive for std::time::Instant {}

impl NonRecursive for std::path::Path {}

impl NonRecursive for std::path::PathBuf {}

impl<T> NonRecursive for core::mem::Discriminant<T> {}

impl<T> NonRecursive for core::iter::Empty<T> {}

} // verus!
