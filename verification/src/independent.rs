use vstd::prelude::*;
use core::marker::PhantomData;
use core::time::Duration;
use std::rc::Rc;
use std::sync::Arc;
use vstd::std_specs::hash::{obeys_key_model, builds_valid_hashers, spec_hash_map_iter,
    spec_hash_keys_iter};
use vstd::std_specs::btree::{key_obeys_cmp_spec, spec_btree_map_iter, spec_btree_keys_iter};
use vstd::laws_cmp::obeys_cmp;
use vstd::std_specs::iter::IteratorSpec;
use crate::observed::Observable;
use crate::speed::{Speed, ConstantOrSlower, NearInstant, AnySpeed};

verus! {

/// Get deep clones of a value, which do not share any semantically-important
/// mutable state.
///
/// The goal is that the independent clone and its source appear to act
/// completely independently, at least from their public interfaces; mutating
/// or dropping one clone (among possible actions) should have no
/// potentially-observable effect on any other independent clone.
///
/// Note also that an independent clone and its source may reference the same
/// immutable data, even if the public interface of the type could be used to
/// confirm that two independent clones are (or were) associated. (However,
/// there should not be a way for either the source or any independent clone
/// to affect that data's value or address in memory.)
///
/// The contract on [`independent_clone`](Self::independent_clone) says that
/// the clone observes the same semantically-important state as its source at
/// the moment of cloning; the freshness of the clone's backing storage is a
/// per-implementation obligation that a pure contract cannot express, and is
/// documented on each implementation instead.
///
/// # Exceptions
/// - A type implementing `IndependentClone` may specify that certain methods
///   or accesses are not subject to these guarantees.
/// - `Debug` should be assumed to be an exception. Intentionally worsening
///   the life of someone debugging your type is not a goal.
/// - Shared mutable data which is written to but never read, or is read with
///   effects that can only be publicly observed through exceptions, is
///   acceptable.
pub trait IndependentClone<S: Speed>: Sized + Observable {
    /// Get a deep clone of a value, which does not share any
    /// semantically-important mutable state, at a cost bounded by the speed
    /// tier `S`.
    #[must_use]
    fn independent_clone(&self) -> (r: Self)
        ensures
            r.observed() == self.observed(),
    ;
}

impl IndependentClone<NearInstant> for bool {
    fn independent_clone(&self) -> (r: Self) {
        *self
    }
}

impl IndependentClone<NearInstant> for char {
    fn independent_clone(&self) -> (r: Self) {
        *self
    }
}

impl IndependentClone<NearInstant> for () {
    fn independent_clone(&self) -> (r: Self) {
        *self
    }
}

impl IndependentClone<NearInstant> for i8 {
    fn independent_clone(&self) -> (r: Self) {
        *self
    }
}

impl IndependentClone<NearInstant> for i16 {
    fn independent_clone(&self) -> (r: Self) {
        *self
    }
}

impl IndependentClone<NearInstant> for i32 {
    fn independent_clone(&self) -> (r: Self) {
        *self
    }
}

impl IndependentClone<NearInstant> for i64 {
    fn independent_clone(&self) -> (r: Self) {
        *self
    }
}

impl IndependentClone<NearInstant> for i128 {
    fn independent_clone(&self) -> (r: Self) {
        *self
    }
}

impl IndependentClone<NearInstant> for isize {
    fn independent_clone(&self) -> (r: Self) {
        *self
    }
}

impl IndependentClone<NearInstant> for u8 {
    fn independent_clone(&self) -> (r: Self) {
        *self
    }
}

impl IndependentClone<NearInstant> for u16 {
    fn independent_clone(&self) -> (r: Self) {
        *self
    }
}

impl IndependentClone<NearInstant> for u32 {
    fn independent_clone(&self) -> (r: Self) {
        *self
    }
}

impl IndependentClone<NearInstant> for u64 {
    fn independent_clone(&self) -> (r: Self) {
        *self
    }
}

impl IndependentClone<NearInstant> for u128 {
    fn independent_clone(&self) -> (r: Self) {
        *self
    }
}

impl IndependentClone<NearInstant> for usize {
    fn independent_clone(&self) -> (r: Self) {
        *self
    }
}

impl IndependentClone<NearInstant> for core::cmp::Ordering {
    fn independent_clone(&self) -> (r: Self) {
        *self
    }
}

impl IndependentClone<NearInstant> for core::sync::atomic::Ordering {
    fn independent_clone(&self) -> (r: Self) {
        *self
    }
}

impl IndependentClone<NearInstant> for Duration {
    fn independent_clone(&self) -> (r: Self) {
        *self
    }
}

impl<T: ?Sized> IndependentClone<NearInstant> for PhantomData<T> {
    fn independent_clone(&self) -> (r: Self) {
        *self
    }
}

/// A fresh atomic cell is constructed around a single relaxed load of the
/// source: a bounded number of atomic operations, with no blocking.
impl IndependentClone<NearInstant> for core::sync::atomic::AtomicBool {
    fn independent_clone(&self) -> (r: Self) {
        core::sync::atomic::AtomicBool::new(self.load(core::sync::atomic::Ordering::Relaxed))
    }
}

/// See the note on the `AtomicBool` implementation.
impl IndependentClone<NearInstant> for core::sync::atomic::AtomicI8 {
    fn independent_clone(&self) -> (r: Self) {
        core::sync::atomic::AtomicI8::new(self.load(core::sync::atomic::Ordering::Relaxed))
    }
}

/// See the note on the `AtomicBool` implementation.
impl IndependentClone<NearInstant> for core::sync::atomic::AtomicI16 {
    fn independent_clone(&self) -> (r: Self) {
        core::sync::atomic::AtomicI16::new(self.load(core::sync::atomic::Ordering::Relaxed))
    }
}

/// See the note on the `AtomicBool` implementation.
impl IndependentClone<NearInstant> for core::sync::atomic::AtomicI32 {
    fn independent_clone(&self) -> (r: Self) {
        core::sync::atomic::AtomicI32::new(self.load(core::sync::atomic::Ordering::Relaxed))
    }
}

/// See the note on the `AtomicBool` implementation.
impl IndependentClone<NearInstant> for core::sync::atomic::AtomicI64 {
    fn independent_clone(&self) -> (r: Self) {
        core::sync::atomic::AtomicI64::new(self.load(core::sync::atomic::Ordering::Relaxed))
    }
}

/// See the note on the `AtomicBool` implementation.
impl IndependentClone<NearInstant> for core::sync::atomic::AtomicIsize {
    fn independent_clone(&self) -> (r: Self) {
        core::sync::atomic::AtomicIsize::new(self.load(core::sync::atomic::Ordering::Relaxed))
    }
}

/// See the note on the `AtomicBool` implementation.
impl IndependentClone<NearInstant> for core::sync::atomic::AtomicU8 {
    fn independent_clone(&self) -> (r: Self) {
        core::sync::atomic::AtomicU8::new(self.load(core::sync::atomic::Ordering::Relaxed))
    }
}

/// See the note on the `AtomicBool` implementation.
impl IndependentClone<NearInstant> for core::sync::atomic::AtomicU16 {
    fn independent_clone(&self) -> (r: Self) {
        core::sync::atomic::AtomicU16::new(self.load(core::sync::atomic::Ordering::Relaxed))
    }
}

/// See the note on the `AtomicBool` implementation.
impl IndependentClone<NearInstant> for core::sync::atomic::AtomicU32 {
    fn independent_clone(&self) -> (r: Self) {
        core::sync::atomic::AtomicU32::new(self.load(core::sync::atomic::Ordering::Relaxed))
    }
}

/// See the note on the `AtomicBool` implementation.
impl IndependentClone<NearInstant> for core::sync::atomic::AtomicU64 {
    fn independent_clone(&self) -> (r: Self) {
        core::sync::atomic::AtomicU64::new(self.load(core::sync::atomic::Ordering::Relaxed))
    }
}

/// See the note on the `AtomicBool` implementation.
impl IndependentClone<NearInstant> for core::sync::atomic::AtomicUsize {
    fn independent_clone(&self) -> (r: Self) {
        core::sync::atomic::AtomicUsize::new(self.load(core::sync::atomic::Ordering::Relaxed))
    }
}

/// Reads the current contents out of the cell and wraps them in a fresh,
/// unshared cell. The element is `Copy`, so reading cannot observe the cell
/// in a partially-written state.
impl<S: ConstantOrSlower, T: Copy + IndependentClone<S>> IndependentClone<S> for core::cell::Cell<
    T,
> {
    fn independent_clone(&self) -> (r: Self) {
        core::cell::Cell::new(self.get().independent_clone())
    }
}

/// Cloning an absent value yields an absent value without invoking the
/// element operation; cloning a present value applies the element operation
/// at the same tier.
impl<S: ConstantOrSlower, T: IndependentClone<S>> IndependentClone<S> for Option<T> {
    fn independent_clone(&self) -> (r: Self)
        ensures
            *self is None <==> r is None,
            (*self) matches Some(t) ==> (r matches Some(c) && call_ensures(
                <T as IndependentClone<S>>::independent_clone,
                (&t,),
                c,
            )),
    {
        match self {
            Some(t) => Some(t.independent_clone()),
            None => None,
        }
    }
}

/// Cloning a success applies the success-path element operation, and cloning
/// a failure applies the failure-path element operation, each at the same
/// tier.
impl<S: ConstantOrSlower, T: IndependentClone<S>, E: IndependentClone<S>> IndependentClone<
    S,
> for Result<T, E> {
    fn independent_clone(&self) -> (r: Self)
        ensures
            *self is Ok <==> r is Ok,
            (*self) matches Ok(t) ==> (r matches Ok(c) && call_ensures(
                <T as IndependentClone<S>>::independent_clone,
                (&t,),
                c,
            )),
            (*self) matches Err(e) ==> (r matches Err(c) && call_ensures(
                <E as IndependentClone<S>>::independent_clone,
                (&e,),
                c,
            )),
    {
        match self {
            Ok(t) => Ok(t.independent_clone()),
            Err(e) => Err(e.independent_clone()),
        }
    }
}

/// The clone is given a fresh, independently-allocated referent, not a
/// second handle to the source's allocation with a bumped count.
impl<S: ConstantOrSlower, T: IndependentClone<S>> IndependentClone<S> for Rc<T> {
    fn independent_clone(&self) -> (r: Self)
        ensures
            call_ensures(<T as IndependentClone<S>>::independent_clone, (&(**self),), *r),
    {
        Rc::new((**self).independent_clone())
    }
}

/// The clone is given a fresh, independently-allocated referent, not a
/// second handle to the source's allocation with a bumped count.
impl<S: ConstantOrSlower, T: IndependentClone<S>> IndependentClone<S> for Arc<T> {
    fn independent_clone(&self) -> (r: Self)
        ensures
            call_ensures(<T as IndependentClone<S>>::independent_clone, (&(**self),), *r),
    {
        Arc::new((**self).independent_clone())
    }
}

/// Rebuilding a whole collection is never claimed to be constant- or
/// log-time, so growable sequences implement only the unconstrained tier.
/// Every element is independently cloned, in order, into a fresh vector.
impl<T: IndependentClone<AnySpeed>> IndependentClone<AnySpeed> for Vec<T> {
    fn independent_clone(&self) -> (r: Self)
        ensures
            r@.len() == self@.len(),
            forall|j: int|
                #![trigger r@[j]]
                0 <= j < self@.len() ==> call_ensures(
                    <T as IndependentClone<AnySpeed>>::independent_clone,
                    (&self@[j],),
                    r@[j],
                ),
    {
        let mut r: Vec<T> = Vec::new();
        let mut i: usize = 0;
        while i < self.len()
            invariant
                i <= self@.len(),
                r@.len() == i,
                forall|j: int|
                    #![trigger r@[j]]
                    0 <= j < i ==> call_ensures(
                        <T as IndependentClone<AnySpeed>>::independent_clone,
                        (&self@[j],),
                        r@[j],
                    ),
                forall|j: int| 0 <= j < i ==> r@[j].observed() == self@[j].observed(),
            decreases self@.len() - i,
        {
            r.push(self[i].independent_clone());
            i = i + 1;
        }
        proof {
            assert(r.observed() =~= self.observed());
        }
        r
    }
}

/// Every element is independently cloned, in order, into a fresh deque; as
/// with other whole-collection rebuilds, only the unconstrained tier is
/// claimed.
impl<T: IndependentClone<AnySpeed>> IndependentClone<AnySpeed> for std::collections::VecDeque<
    T,
> {
    fn independent_clone(&self) -> (r: Self)
        ensures
            r@.len() == self@.len(),
            forall|j: int|
                #![trigger r@[j]]
                0 <= j < self@.len() ==> call_ensures(
                    <T as IndependentClone<AnySpeed>>::independent_clone,
                    (&self@[j],),
                    r@[j],
                ),
    {
        let mut r: std::collections::VecDeque<T> = std::collections::VecDeque::new();
        let mut i: usize = 0;
        while i < self.len()
            invariant
                i <= self@.len(),
                r@.len() == i,
                forall|j: int|
                    #![trigger r@[j]]
                    0 <= j < i ==> call_ensures(
                        <T as IndependentClone<AnySpeed>>::independent_clone,
                        (&self@[j],),
                        r@[j],
                    ),
                forall|j: int| 0 <= j < i ==> r@[j].observed() == self@[j].observed(),
            decreases self@.len() - i,
        {
            r.push_back(self[i].independent_clone());
            i = i + 1;
        }
        proof {
            assert(r.observed() =~= self.observed());
        }
        r
    }
}

/// Each element is independently cloned at the same tier, and the results
/// are reassembled into a tuple of the same shape; the contract passes the
/// element operations' guarantees through, component by component.
impl<S: ConstantOrSlower, T1: IndependentClone<S>> IndependentClone<S> for (T1,) {
    fn independent_clone(&self) -> (r: Self)
        ensures
            call_ensures(<T1 as IndependentClone<S>>::independent_clone, (&self.0,), r.0),
    {
        (self.0.independent_clone(),)
    }
}

impl<S: ConstantOrSlower, T1: IndependentClone<S>, T2: IndependentClone<S>> IndependentClone<S> for (T1, T2) {
    fn independent_clone(&self) -> (r: Self)
        ensures
            call_ensures(<T1 as IndependentClone<S>>::independent_clone, (&self.0,), r.0),
            call_ensures(<T2 as IndependentClone<S>>::independent_clone, (&self.1,), r.1),
    {
        (self.0.independent_clone(), self.1.independent_clone())
    }
}

impl<S: ConstantOrSlower, T1: IndependentClone<S>, T2: IndependentClone<S>, T3: IndependentClone<S>> IndependentClone<S> for (T1, T2, T3) {
    fn independent_clone(&self) -> (r: Self)
        ensures
            call_ensures(<T1 as IndependentClone<S>>::independent_clone, (&self.0,), r.0),
            call_ensures(<T2 as IndependentClone<S>>::independent_clone, (&self.1,), r.1),
            call_ensures(<T3 as IndependentClone<S>>::independent_clone, (&self.2,), r.2),
    {
        (self.0.independent_clone(), self.1.independent_clone(), self.2.independent_clone())
    }
}

impl<S: ConstantOrSlower, T1: IndependentClone<S>, T2: IndependentClone<S>, T3: IndependentClone<S>, T4: IndependentClone<S>> IndependentClone<S> for (T1, T2, T3, T4) {
    fn independent_clone(&self) -> (r: Self)
        ensures
            call_ensures(<T1 as IndependentClone<S>>::independent_clone, (&self.0,), r.0),
            call_ensures(<T2 as IndependentClone<S>>::independent_clone, (&self.1,), r.1),
            call_ensures(<T3 as IndependentClone<S>>::independent_clone, (&self.2,), r.2),
            call_ensures(<T4 as IndependentClone<S>>::independent_clone, (&self.3,), r.3),
    {
        (self.0.independent_clone(), self.1.independent_clone(), self.2.independent_clone(), self.3.independent_clone())
    }
}

impl<S: ConstantOrSlower, T1: IndependentClone<S>, T2: IndependentClone<S>, T3: IndependentClone<S>, T4: IndependentClone<S>, T5: IndependentClone<S>> IndependentClone<S> for (T1, T2, T3, T4, T5) {
    fn independent_clone(&self) -> (r: Self)
        ensures
            call_ensures(<T1 as IndependentClone<S>>::independent_clone, (&self.0,), r.0),
            call_ensures(<T2 as IndependentClone<S>>::independent_clone, (&self.1,), r.1),
            call_ensures(<T3 as IndependentClone<S>>::independent_clone, (&self.2,), r.2),
            call_ensures(<T4 as IndependentClone<S>>::independent_clone, (&self.3,), r.3),
            call_ensures(<T5 as IndependentClone<S>>::independent_clone, (&self.4,), r.4),
    {
        (self.0.independent_clone(), self.1.independent_clone(), self.2.independent_clone(), self.3.independent_clone(), self.4.independent_clone())
    }
}

impl<S: ConstantOrSlower, T1: IndependentClone<S>, T2: IndependentClone<S>, T3: IndependentClone<S>, T4: IndependentClone<S>, T5: IndependentClone<S>, T6: IndependentClone<S>> IndependentClone<S> for (T1, T2, T3, T4, T5, T6) {
    fn independent_clone(&self) -> (r: Self)
        ensures
            call_ensures(<T1 as IndependentClone<S>>::independent_clone, (&self.0,), r.0),
            call_ensures(<T2 as IndependentClone<S>>::independent_clone, (&self.1,), r.1),
            call_ensures(<T3 as IndependentClone<S>>::independent_clone, (&self.2,), r.2),
            call_ensures(<T4 as IndependentClone<S>>::independent_clone, (&self.3,), r.3),
            call_ensures(<T5 as IndependentClone<S>>::independent_clone, (&self.4,), r.4),
            call_ensures(<T6 as IndependentClone<S>>::independent_clone, (&self.5,), r.5),
    {
        (self.0.independent_clone(), self.1.independent_clone(), self.2.independent_clone(), self.3.independent_clone(), self.4.independent_clone(), self.5.independent_clone())
    }
}

impl<S: ConstantOrSlower, T1: IndependentClone<S>, T2: IndependentClone<S>, T3: IndependentClone<S>, T4: IndependentClone<S>, T5: IndependentClone<S>, T6: IndependentClone<S>, T7: IndependentClone<S>> IndependentClone<S> for (T1, T2, T3, T4, T5, T6, T7) {
    fn independent_clone(&self) -> (r: Self)
        ensures
            call_ensures(<T1 as IndependentClone<S>>::independent_clone, (&self.0,), r.0),
            call_ensures(<T2 as IndependentClone<S>>::independent_clone, (&self.1,), r.1),
            call_ensures(<T3 as IndependentClone<S>>::independent_clone, (&self.2,), r.2),
            call_ensures(<T4 as IndependentClone<S>>::independent_clone, (&self.3,), r.3),
            call_ensures(<T5 as IndependentClone<S>>::independent_clone, (&self.4,), r.4),
            call_ensures(<T6 as IndependentClone<S>>::independent_clone, (&self.5,), r.5),
            call_ensures(<T7 as IndependentClone<S>>::independent_clone, (&self.6,), r.6),
    {
        (self.0.independent_clone(), self.1.independent_clone(), self.2.independent_clone(), self.3.independent_clone(), self.4.independent_clone(), self.5.independent_clone(), self.6.independent_clone())
    }
}

impl<S: ConstantOrSlower, T1: IndependentClone<S>, T2: IndependentClone<S>, T3: IndependentClone<S>, T4: IndependentClone<S>, T5: IndependentClone<S>, T6: IndependentClone<S>, T7: IndependentClone<S>, T8: IndependentClone<S>> IndependentClone<S> for (T1, T2, T3, T4, T5, T6, T7, T8) {
    fn independent_clone(&self) -> (r: Self)
        ensures
            call_ensures(<T1 as IndependentClone<S>>::independent_clone, (&self.0,), r.0),
            call_ensures(<T2 as IndependentClone<S>>::independent_clone, (&self.1,), r.1),
            call_ensures(<T3 as IndependentClone<S>>::independent_clone, (&self.2,), r.2),
            call_ensures(<T4 as IndependentClone<S>>::independent_clone, (&self.3,), r.3),
            call_ensures(<T5 as IndependentClone<S>>::independent_clone, (&self.4,), r.4),
            call_ensures(<T6 as IndependentClone<S>>::independent_clone, (&self.5,), r.5),
            call_ensures(<T7 as IndependentClone<S>>::independent_clone, (&self.6,), r.6),
            call_ensures(<T8 as IndependentClone<S>>::independent_clone, (&self.7,), r.7),
    {
        (self.0.independent_clone(), self.1.independent_clone(), self.2.independent_clone(), self.3.independent_clone(), self.4.independent_clone(), self.5.independent_clone(), self.6.independent_clone(), self.7.independent_clone())
    }
}

impl<S: ConstantOrSlower, T1: IndependentClone<S>, T2: IndependentClone<S>, T3: IndependentClone<S>, T4: IndependentClone<S>, T5: IndependentClone<S>, T6: IndependentClone<S>, T7: IndependentClone<S>, T8: IndependentClone<S>, T9: IndependentClone<S>> IndependentClone<S> for (T1, T2, T3, T4, T5, T6, T7, T8, T9) {
    fn independent_clone(&self) -> (r: Self)
        ensures
            call_ensures(<T1 as IndependentClone<S>>::independent_clone, (&self.0,), r.0),
            call_ensures(<T2 as IndependentClone<S>>::independent_clone, (&self.1,), r.1),
            call_ensures(<T3 as IndependentClone<S>>::independent_clone, (&self.2,), r.2),
            call_ensures(<T4 as IndependentClone<S>>::independent_clone, (&self.3,), r.3),
            call_ensures(<T5 as IndependentClone<S>>::independent_clone, (&self.4,), r.4),
            call_ensures(<T6 as IndependentClone<S>>::independent_clone, (&self.5,), r.5),
            call_ensures(<T7 as IndependentClone<S>>::independent_clone, (&self.6,), r.6),
            call_ensures(<T8 as IndependentClone<S>>::independent_clone, (&self.7,), r.7),
            call_ensures(<T9 as IndependentClone<S>>::independent_clone, (&self.8,), r.8),
    {
        (self.0.independent_clone(), self.1.independent_clone(), self.2.independent_clone(), self.3.independent_clone(), self.4.independent_clone(), self.5.independent_clone(), self.6.independent_clone(), self.7.independent_clone(), self.8.independent_clone())
    }
}

impl<S: ConstantOrSlower, T1: IndependentClone<S>, T2: IndependentClone<S>, T3: IndependentClone<S>, T4: IndependentClone<S>, T5: IndependentClone<S>, T6: IndependentClone<S>, T7: IndependentClone<S>, T8: IndependentClone<S>, T9: IndependentClone<S>, T10: IndependentClone<S>> IndependentClone<S> for (T1, T2, T3, T4, T5, T6, T7, T8, T9, T10) {
    fn independent_clone(&self) -> (r: Self)
        ensures
            call_ensures(<T1 as IndependentClone<S>>::independent_clone, (&self.0,), r.0),
            call_ensures(<T2 as IndependentClone<S>>::independent_clone, (&self.1,), r.1),
            call_ensures(<T3 as IndependentClone<S>>::independent_clone, (&self.2,), r.2),
            call_ensures(<T4 as IndependentClone<S>>::independent_clone, (&self.3,), r.3),
            call_ensures(<T5 as IndependentClone<S>>::independent_clone, (&self.4,), r.4),
            call_ensures(<T6 as IndependentClone<S>>::independent_clone, (&self.5,), r.5),
            call_ensures(<T7 as IndependentClone<S>>::independent_clone, (&self.6,), r.6),
            call_ensures(<T8 as IndependentClone<S>>::independent_clone, (&self.7,), r.7),
            call_ensures(<T9 as IndependentClone<S>>::independent_clone, (&self.8,), r.8),
            call_ensures(<T10 as IndependentClone<S>>::independent_clone, (&self.9,), r.9),
    {
        (self.0.independent_clone(), self.1.independent_clone(), self.2.independent_clone(), self.3.independent_clone(), self.4.independent_clone(), self.5.independent_clone(), self.6.independent_clone(), self.7.independent_clone(), self.8.independent_clone(), self.9.independent_clone())
    }
}

impl<S: ConstantOrSlower, T1: IndependentClone<S>, T2: IndependentClone<S>, T3: IndependentClone<S>, T4: IndependentClone<S>, T5: IndependentClone<S>, T6: IndependentClone<S>, T7: IndependentClone<S>, T8: IndependentClone<S>, T9: IndependentClone<S>, T10: IndependentClone<S>, T11: IndependentClone<S>> IndependentClone<S> for (T1, T2, T3, T4, T5, T6, T7, T8, T9, T10, T11) {
    fn independent_clone(&self) -> (r: Self)
        ensures
            call_ensures(<T1 as IndependentClone<S>>::independent_clone, (&self.0,), r.0),
            call_ensures(<T2 as IndependentClone<S>>::independent_clone, (&self.1,), r.1),
            call_ensures(<T3 as IndependentClone<S>>::independent_clone, (&self.2,), r.2),
            call_ensures(<T4 as IndependentClone<S>>::independent_clone, (&self.3,), r.3),
            call_ensures(<T5 as IndependentClone<S>>::independent_clone, (&self.4,), r.4),
            call_ensures(<T6 as IndependentClone<S>>::independent_clone, (&self.5,), r.5),
            call_ensures(<T7 as IndependentClone<S>>::independent_clone, (&self.6,), r.6),
            call_ensures(<T8 as IndependentClone<S>>::independent_clone, (&self.7,), r.7),
            call_ensures(<T9 as IndependentClone<S>>::independent_clone, (&self.8,), r.8),
            call_ensures(<T10 as IndependentClone<S>>::independent_clone, (&self.9,), r.9),
            call_ensures(<T11 as IndependentClone<S>>::independent_clone, (&self.10,), r.10),
    {
        (self.0.independent_clone(), self.1.independent_clone(), self.2.independent_clone(), self.3.independent_clone(), self.4.independent_clone(), self.5.independent_clone(), self.6.independent_clone(), self.7.independent_clone(), self.8.independent_clone(), self.9.independent_clone(), self.10.independent_clone())
    }
}

impl<S: ConstantOrSlower, T1: IndependentClone<S>, T2: IndependentClone<S>, T3: IndependentClone<S>, T4: IndependentClone<S>, T5: IndependentClone<S>, T6: IndependentClone<S>, T7: IndependentClone<S>, T8: IndependentClone<S>, T9: IndependentClone<S>, T10: IndependentClone<S>, T11: IndependentClone<S>, T12: IndependentClone<S>> IndependentClone<S> for (T1, T2, T3, T4, T5, T6, T7, T8, T9, T10, T11, T12) {
    fn independent_clone(&self) -> (r: Self)
        ensures
            call_ensures(<T1 as IndependentClone<S>>::independent_clone, (&self.0,), r.0),
            call_ensures(<T2 as IndependentClone<S>>::independent_clone, (&self.1,), r.1),
            call_ensures(<T3 as IndependentClone<S>>::independent_clone, (&self.2,), r.2),
            call_ensures(<T4 as IndependentClone<S>>::independent_clone, (&self.3,), r.3),
            call_ensures(<T5 as IndependentClone<S>>::independent_clone, (&self.4,), r.4),
            call_ensures(<T6 as IndependentClone<S>>::independent_clone, (&self.5,), r.5),
            call_ensures(<T7 as IndependentClone<S>>::independent_clone, (&self.6,), r.6),
            call_ensures(<T8 as IndependentClone<S>>::independent_clone, (&self.7,), r.7),
            call_ensures(<T9 as IndependentClone<S>>::independent_clone, (&self.8,), r.8),
            call_ensures(<T10 as IndependentClone<S>>::independent_clone, (&self.9,), r.9),
            call_ensures(<T11 as IndependentClone<S>>::independent_clone, (&self.10,), r.10),
            call_ensures(<T12 as IndependentClone<S>>::independent_clone, (&self.11,), r.11),
    {
        (self.0.independent_clone(), self.1.independent_clone(), self.2.independent_clone(), self.3.independent_clone(), self.4.independent_clone(), self.5.independent_clone(), self.6.independent_clone(), self.7.independent_clone(), self.8.independent_clone(), self.9.independent_clone(), self.10.independent_clone(), self.11.independent_clone())
    }
}


/// Whether the standard hash-table specifications are meaningful for this
/// key type and hasher; the rebuilt-collection contracts are conditional on
/// it.
pub open spec fn hash_model_holds<K: ?Sized, S>() -> bool {
    obeys_key_model::<K>() && builds_valid_hashers::<S>()
}

/// The entries of a hash map, in the order its iterator yields them.
spec fn hash_map_rows<K, V, S>(m: &std::collections::HashMap<K, V, S>) -> Seq<(K, V)> {
    vstd::std_specs::hash::into_iter(spec_hash_map_iter(m))
}

/// Whether every admissible independent clone of a value of this type
/// equals its source. Scalar types qualify: their observed state is the
/// value itself, so the trait contract pins each clone down to equality.
/// Under this, the rebuilt collections' contracts fix the clone's whole
/// key set (and so its entry count).
pub open spec fn exact_clones<K: IndependentClone<AnySpeed>>() -> bool {
    forall|k: K, k2: K|
        #[trigger] call_ensures(<K as IndependentClone<AnySpeed>>::independent_clone, (&k,), k2)
            ==> k2 == k
}

/// Whether the standard ordered-collection specifications are meaningful
/// for this key type; the rebuilt-collection contracts are conditional on
/// it.
pub open spec fn cmp_model_holds<K: Ord>() -> bool {
    obeys_cmp::<K>()
}

/// The elements of a hash set, in the order its iterator yields them.
spec fn hash_set_rows<K, S>(m: &std::collections::HashSet<K, S>) -> Seq<K> {
    vstd::std_specs::hash::into_iter_hash_keys(spec_hash_keys_iter(m))
}

/// The entries of an ordered map, in ascending key order.
spec fn btree_map_rows<K, V>(m: &std::collections::BTreeMap<K, V>) -> Seq<(K, V)> {
    vstd::std_specs::btree::into_iter(spec_btree_map_iter(m))
}

/// The elements of an ordered set, in ascending order.
spec fn btree_set_rows<K>(m: &std::collections::BTreeSet<K>) -> Seq<K> {
    vstd::std_specs::btree::into_iter_btree_keys(spec_btree_keys_iter(m))
}

/// Every key and value is independently cloned into a fresh map; as with
/// other whole-collection rebuilds, only the unconstrained tier is claimed.
/// Conditional on the standard hash-table model, every source entry has a
/// cloned counterpart in the result and every result entry stems from a
/// source entry.
impl<K, V, S> IndependentClone<AnySpeed> for std::collections::HashMap<K, V, S> where
    K: IndependentClone<AnySpeed> + Eq + core::hash::Hash,
    V: IndependentClone<AnySpeed>,
    S: core::hash::BuildHasher + Default,
{
    #[verifier::rlimit(100)]
    fn independent_clone(&self) -> (r: Self)
        ensures
            hash_model_holds::<K, S>() ==> forall|k: K| #[trigger] self@.contains_key(k)
                ==> exists|k2: K| #[trigger] r@.contains_key(k2) && call_ensures(
                <K as IndependentClone<AnySpeed>>::independent_clone,
                (&k,),
                k2,
            ),
            hash_model_holds::<K, S>() ==> forall|k2: K| #[trigger] r@.contains_key(k2)
                ==> exists|k: K| #[trigger] self@.contains_key(k) && call_ensures(
                <K as IndependentClone<AnySpeed>>::independent_clone,
                (&k,),
                k2,
            ) && call_ensures(
                <V as IndependentClone<AnySpeed>>::independent_clone,
                (&self@[k],),
                r@[k2],
            ),
            hash_model_holds::<K, S>() && exact_clones::<K>() ==> r@.dom() == self@.dom(),
            hash_model_holds::<K, S>() && exact_clones::<K>() ==> forall|k: K|
                #[trigger] self@.contains_key(k) ==> call_ensures(
                <V as IndependentClone<AnySpeed>>::independent_clone,
                (&self@[k],),
                r@[k],
            ),
    {
        let mut r: std::collections::HashMap<K, V, S> = Default::default();
        let n = self.len();
        let mut it = self.iter();
        proof {
            if hash_model_holds::<K, S>() {
                let rows = hash_map_rows(self);
                let rem = spec_hash_map_iter(self).remaining();
                assert(rows =~= rem.unref());
                assert forall|i: int| #![trigger rows[i]] 0 <= i < rows.len() implies
                    self@.contains_key(rows[i].0) && self@[rows[i].0] == rows[i].1 by {
                    assert(rows[i] == (*rem[i].0, *rem[i].1));
                }
                assert forall|k: K| #[trigger] self@.contains_key(k) implies exists|i: int|
                    0 <= i < rows.len() && #[trigger] rows[i] == (k, self@[k]) by {
                    assert(rem.contains((&k, &self@[k])));
                    let i = choose|i: int| 0 <= i < rem.len() && rem[i] == (&k, &self@[k]);
                    assert(rows[i] == (*rem[i].0, *rem[i].1));
                }
            }
        }
        let mut idx: usize = 0;
        while idx < n
            invariant
                idx <= n,
                hash_model_holds::<K, S>() ==> n == self@.dom().len(),
                hash_model_holds::<K, S>() ==> hash_map_rows(self).len() == n,
                hash_model_holds::<K, S>() ==> it.remaining().unref() =~= hash_map_rows(
                    self,
                ).skip(idx as int),
                hash_model_holds::<K, S>() ==> forall|i: int|
                    #![trigger hash_map_rows(self)[i]]
                    0 <= i < n ==> self@.contains_key(hash_map_rows(self)[i].0)
                        && self@[hash_map_rows(self)[i].0] == hash_map_rows(self)[i].1,
                hash_model_holds::<K, S>() ==> forall|k: K| #[trigger] self@.contains_key(k)
                    ==> exists|i: int| 0 <= i < n && #[trigger] hash_map_rows(self)[i] == (
                    k,
                    self@[k],
                ),
                hash_model_holds::<K, S>() ==> forall|j: int|
                    #![trigger hash_map_rows(self)[j]]
                    0 <= j < idx ==> exists|k2: K| #[trigger] r@.contains_key(k2)
                        && call_ensures(
                        <K as IndependentClone<AnySpeed>>::independent_clone,
                        (&hash_map_rows(self)[j].0,),
                        k2,
                    ),
                hash_model_holds::<K, S>() ==> forall|k2: K| #[trigger] r@.contains_key(k2)
                    ==> exists|j: int|
                    0 <= j < idx && call_ensures(
                        <K as IndependentClone<AnySpeed>>::independent_clone,
                        (&hash_map_rows(self)[j].0,),
                        k2,
                    ) && call_ensures(
                        <V as IndependentClone<AnySpeed>>::independent_clone,
                        (&hash_map_rows(self)[j].1,),
                        r@[k2],
                    ),
            decreases n - idx,
        {
            let ghost pre_rem = it.remaining();
            match crate::std_contracts::next_hash_map_entry(&mut it) {
                Some(pair) => {
                    let ghost r_before = r@;
                    let key_clone = pair.0.independent_clone();
                    let value_clone = pair.1.independent_clone();
                    r.insert(key_clone, value_clone);
                    proof {
                        if hash_model_holds::<K, S>() {
                            let rows = hash_map_rows(self);
                            assert(pair == pre_rem[0]);
                            assert((*pair.0, *pair.1) == pre_rem.unref()[0]);
                            assert(rows[idx as int] == (*pair.0, *pair.1));
                            assert(it.remaining() == pre_rem.drop_first());
                            assert(pre_rem.drop_first().unref() =~= pre_rem.unref()
                                .drop_first());
                            assert(rows.skip(idx as int).drop_first() =~= rows.skip(
                                idx as int + 1,
                            ));
                            assert(it.remaining().unref() =~= rows.skip(idx as int + 1));
                            assert(r@ == r_before.insert(key_clone, value_clone));
                            assert forall|j: int| #![trigger rows[j]] 0 <= j < idx + 1
                                implies exists|k2: K| #[trigger] r@.contains_key(k2)
                                && call_ensures(
                                <K as IndependentClone<AnySpeed>>::independent_clone,
                                (&rows[j].0,),
                                k2,
                            ) by {
                                if j == idx {
                                    assert(rows[j].0 == *pair.0);
                                    assert(r@.contains_key(key_clone));
                                } else {
                                    let k2 = choose|k2: K|
                                        r_before.contains_key(k2) && call_ensures(
                                            <K as IndependentClone<AnySpeed>>::independent_clone,
                                            (&rows[j].0,),
                                            k2,
                                        );
                                    assert(r@.contains_key(k2));
                                }
                            }
                            assert forall|k2: K| #[trigger] r@.contains_key(k2) implies exists|
                                j: int,
                            |
                                0 <= j < idx + 1 && call_ensures(
                                    <K as IndependentClone<AnySpeed>>::independent_clone,
                                    (&rows[j].0,),
                                    k2,
                                ) && call_ensures(
                                    <V as IndependentClone<AnySpeed>>::independent_clone,
                                    (&rows[j].1,),
                                    r@[k2],
                                ) by {
                                if k2 == key_clone {
                                    assert(rows[idx as int].0 == *pair.0);
                                    assert(rows[idx as int].1 == *pair.1);
                                    assert(r@[k2] == value_clone);
                                } else {
                                    assert(r_before.contains_key(k2));
                                    assert(r@[k2] == r_before[k2]);
                                }
                            }
                        }
                    }
                },
                None => {
                    proof {
                        if hash_model_holds::<K, S>() {
                            assert(pre_rem.unref().len() == n - idx);
                            assert(false);
                        }
                    }
                    return r;
                },
            }
            idx = idx + 1;
        }
        proof {
            if hash_model_holds::<K, S>() {
                let rows = hash_map_rows(self);
                assert forall|k: K| #[trigger] self@.contains_key(k) implies exists|k2: K|
                    #[trigger] r@.contains_key(k2) && call_ensures(
                    <K as IndependentClone<AnySpeed>>::independent_clone,
                    (&k,),
                    k2,
                ) by {
                    let i = choose|i: int| 0 <= i < n && #[trigger] rows[i] == (k, self@[k]);
                    assert(rows[i].0 == k);
                }
                if exact_clones::<K>() {
                    assert forall|k: K| #[trigger] self@.contains_key(k) implies r@.contains_key(
                        k,
                    ) by {
                        let i = choose|i: int| 0 <= i < n && #[trigger] rows[i] == (k, self@[k]);
                        let k2 = choose|k2: K|
                            #[trigger] r@.contains_key(k2) && call_ensures(
                                <K as IndependentClone<AnySpeed>>::independent_clone,
                                (&rows[i].0,),
                                k2,
                            );
                        assert(k2 == k);
                    }
                    assert forall|k2: K| #[trigger] r@.contains_key(k2) implies self@.contains_key(
                        k2,
                    ) by {
                        let j = choose|j: int|
                            0 <= j < n && call_ensures(
                                <K as IndependentClone<AnySpeed>>::independent_clone,
                                (&rows[j].0,),
                                k2,
                            ) && call_ensures(
                                <V as IndependentClone<AnySpeed>>::independent_clone,
                                (&rows[j].1,),
                                r@[k2],
                            );
                        assert(k2 == rows[j].0);
                    }
                    assert(r@.dom() =~= self@.dom());
                    assert forall|k: K| #[trigger] self@.contains_key(k) implies call_ensures(
                        <V as IndependentClone<AnySpeed>>::independent_clone,
                        (&self@[k],),
                        r@[k],
                    ) by {
                        assert(r@.contains_key(k));
                        let j = choose|j: int|
                            0 <= j < n && call_ensures(
                                <K as IndependentClone<AnySpeed>>::independent_clone,
                                (&rows[j].0,),
                                k,
                            ) && call_ensures(
                                <V as IndependentClone<AnySpeed>>::independent_clone,
                                (&rows[j].1,),
                                r@[k],
                            );
                        assert(rows[j].0 == k);
                        assert(rows[j].1 == self@[k]);
                    }
                }
            }
        }
        r
    }
}

/// Every element is independently cloned into a fresh set; as with other
/// whole-collection rebuilds, only the unconstrained tier is claimed.
/// Conditional on the standard hash-table model, every source element has a
/// cloned counterpart in the result and every result element stems from a
/// source element.
impl<T, S> IndependentClone<AnySpeed> for std::collections::HashSet<T, S> where
    T: IndependentClone<AnySpeed> + Eq + core::hash::Hash,
    S: core::hash::BuildHasher + Default,
{
    #[verifier::rlimit(100)]
    fn independent_clone(&self) -> (r: Self)
        ensures
            hash_model_holds::<T, S>() ==> forall|x: T| #[trigger] self@.contains(x) ==> exists|x2: T|
                #[trigger] r@.contains(x2) && call_ensures(
                <T as IndependentClone<AnySpeed>>::independent_clone,
                (&x,),
                x2,
            ),
            hash_model_holds::<T, S>() ==> forall|x2: T| #[trigger] r@.contains(x2) ==> exists|x: T|
                #[trigger] self@.contains(x) && call_ensures(
                <T as IndependentClone<AnySpeed>>::independent_clone,
                (&x,),
                x2,
            ),
            hash_model_holds::<T, S>() && exact_clones::<T>() ==> r@ == self@,
    {
        let mut r: std::collections::HashSet<T, S> = Default::default();
        let n = self.len();
        let mut it = self.iter();
        proof {
            if hash_model_holds::<T, S>() {
                let rows = hash_set_rows(self);
                let rem = spec_hash_keys_iter(self).remaining();
                assert(rows =~= rem.unref());
                assert(rows.to_set() == self@);
                assert forall|i: int| #![trigger rows[i]] 0 <= i < rows.len() implies
                    self@.contains(rows[i]) by {
                    assert(rows.contains(rows[i]));
                }
                assert forall|x: T| #[trigger] self@.contains(x) implies exists|i: int|
                    0 <= i < rows.len() && #[trigger] rows[i] == x by {
                    assert(rows.contains(x));
                }
            }
        }
        let mut idx: usize = 0;
        while idx < n
            invariant
                idx <= n,
                hash_model_holds::<T, S>() ==> n == self@.len(),
                hash_model_holds::<T, S>() ==> hash_set_rows(self).len() == n,
                hash_model_holds::<T, S>() ==> it.remaining().unref() =~= hash_set_rows(self).skip(idx as int),
                hash_model_holds::<T, S>() ==> forall|i: int|
                    #![trigger hash_set_rows(self)[i]]
                    0 <= i < n ==> self@.contains(hash_set_rows(self)[i]),
                hash_model_holds::<T, S>() ==> forall|x: T| #[trigger] self@.contains(x) ==> exists|i: int|
                    0 <= i < n && #[trigger] hash_set_rows(self)[i] == x,
                hash_model_holds::<T, S>() ==> forall|j: int|
                    #![trigger hash_set_rows(self)[j]]
                    0 <= j < idx ==> exists|x2: T| #[trigger] r@.contains(x2)
                        && call_ensures(
                        <T as IndependentClone<AnySpeed>>::independent_clone,
                        (&hash_set_rows(self)[j],),
                        x2,
                    ),
                hash_model_holds::<T, S>() ==> forall|x2: T| #[trigger] r@.contains(x2) ==> exists|j: int|
                    0 <= j < idx && call_ensures(
                        <T as IndependentClone<AnySpeed>>::independent_clone,
                        (&hash_set_rows(self)[j],),
                        x2,
                    ),
            decreases n - idx,
        {
            let ghost pre_rem = it.remaining();
            match crate::std_contracts::next_hash_set_element(&mut it) {
                Some(element) => {
                    let ghost r_before = r@;
                    let element_clone = element.independent_clone();
                    r.insert(element_clone);
                    proof {
                        if hash_model_holds::<T, S>() {
                            let rows = hash_set_rows(self);
                            assert(element == pre_rem[0]);
                            assert(*element == pre_rem.unref()[0]);
                            assert(rows[idx as int] == *element);
                            assert(it.remaining() == pre_rem.drop_first());
                            assert(pre_rem.drop_first().unref() =~= pre_rem.unref()
                                .drop_first());
                            assert(rows.skip(idx as int).drop_first() =~= rows.skip(
                                idx as int + 1,
                            ));
                            assert(it.remaining().unref() =~= rows.skip(idx as int + 1));
                            assert(r@ == r_before.insert(element_clone));
                            assert forall|j: int| #![trigger rows[j]] 0 <= j < idx + 1
                                implies exists|x2: T| #[trigger] r@.contains(x2)
                                && call_ensures(
                                <T as IndependentClone<AnySpeed>>::independent_clone,
                                (&rows[j],),
                                x2,
                            ) by {
                                if j == idx {
                                    assert(rows[j] == *element);
                                    assert(r@.contains(element_clone));
                                } else {
                                    let x2 = choose|x2: T|
                                        r_before.contains(x2) && call_ensures(
                                            <T as IndependentClone<AnySpeed>>::independent_clone,
                                            (&rows[j],),
                                            x2,
                                        );
                                    assert(r@.contains(x2));
                                }
                            }
                            assert forall|x2: T| #[trigger] r@.contains(x2) implies exists|
                                j: int,
                            |
                                0 <= j < idx + 1 && call_ensures(
                                    <T as IndependentClone<AnySpeed>>::independent_clone,
                                    (&rows[j],),
                                    x2,
                                ) by {
                                if x2 == element_clone {
                                    assert(rows[idx as int] == *element);
                                } else {
                                    assert(r_before.contains(x2));
                                }
                            }
                        }
                    }
                },
                None => {
                    proof {
                        if hash_model_holds::<T, S>() {
                            assert(pre_rem.unref().len() == n - idx);
                            assert(false);
                        }
                    }
                    return r;
                },
            }
            idx = idx + 1;
        }
        proof {
            if hash_model_holds::<T, S>() {
                let rows = hash_set_rows(self);
                assert forall|x: T| #[trigger] self@.contains(x) implies exists|x2: T|
                    #[trigger] r@.contains(x2) && call_ensures(
                    <T as IndependentClone<AnySpeed>>::independent_clone,
                    (&x,),
                    x2,
                ) by {
                    let i = choose|i: int| 0 <= i < n && #[trigger] rows[i] == x;
                    assert(rows[i] == x);
                }
                if exact_clones::<T>() {
                    assert forall|x: T| #[trigger] self@.contains(x) implies r@.contains(x) by {
                        let i = choose|i: int| 0 <= i < n && #[trigger] rows[i] == x;
                        let x2 = choose|x2: T|
                            #[trigger] r@.contains(x2) && call_ensures(
                                <T as IndependentClone<AnySpeed>>::independent_clone,
                                (&rows[i],),
                                x2,
                            );
                        assert(x2 == x);
                    }
                    assert forall|x2: T| #[trigger] r@.contains(x2) implies self@.contains(x2) by {
                        let j = choose|j: int|
                            0 <= j < n && call_ensures(
                                <T as IndependentClone<AnySpeed>>::independent_clone,
                                (&rows[j],),
                                x2,
                            );
                        assert(x2 == rows[j]);
                    }
                    assert(r@ =~= self@);
                }
            }
        }
        r
    }
}

/// Every key and value is independently cloned into a fresh ordered map; as
/// with other whole-collection rebuilds, only the unconstrained tier is
/// claimed. Conditional on the standard comparison model, every source
/// entry has a cloned counterpart in the result and every result entry
/// stems from a source entry.
impl<K, V> IndependentClone<AnySpeed> for std::collections::BTreeMap<K, V> where
    K: IndependentClone<AnySpeed> + Ord,
    V: IndependentClone<AnySpeed>,
{
    #[verifier::rlimit(100)]
    fn independent_clone(&self) -> (r: Self)
        ensures
            cmp_model_holds::<K>() ==> forall|k: K| #[trigger] self@.contains_key(k)
                ==> exists|k2: K| #[trigger] r@.contains_key(k2) && call_ensures(
                <K as IndependentClone<AnySpeed>>::independent_clone,
                (&k,),
                k2,
            ),
            cmp_model_holds::<K>() ==> forall|k2: K| #[trigger] r@.contains_key(k2)
                ==> exists|k: K| #[trigger] self@.contains_key(k) && call_ensures(
                <K as IndependentClone<AnySpeed>>::independent_clone,
                (&k,),
                k2,
            ) && call_ensures(
                <V as IndependentClone<AnySpeed>>::independent_clone,
                (&self@[k],),
                r@[k2],
            ),
            cmp_model_holds::<K>() && exact_clones::<K>() ==> r@.dom() == self@.dom(),
            cmp_model_holds::<K>() && exact_clones::<K>() ==> forall|k: K|
                #[trigger] self@.contains_key(k) ==> call_ensures(
                <V as IndependentClone<AnySpeed>>::independent_clone,
                (&self@[k],),
                r@[k],
            ),
    {
        let mut r: std::collections::BTreeMap<K, V> = std::collections::BTreeMap::new();
        let n = self.len();
        let mut it = self.iter();
        proof {
            if cmp_model_holds::<K>() {
                assert(key_obeys_cmp_spec::<K>());
                let rows = btree_map_rows(self);
                let rem = spec_btree_map_iter(self).remaining();
                assert(rows =~= rem.unref());
                assert forall|i: int| #![trigger rows[i]] 0 <= i < rows.len() implies
                    self@.contains_key(rows[i].0) && self@[rows[i].0] == rows[i].1 by {
                    assert(rows[i] == (*rem[i].0, *rem[i].1));
                }
                assert forall|k: K| #[trigger] self@.contains_key(k) implies exists|i: int|
                    0 <= i < rows.len() && #[trigger] rows[i] == (k, self@[k]) by {
                    assert(rem.contains((&k, &self@[k])));
                    let i = choose|i: int| 0 <= i < rem.len() && rem[i] == (&k, &self@[k]);
                    assert(rows[i] == (*rem[i].0, *rem[i].1));
                }
            }
        }
        let mut idx: usize = 0;
        while idx < n
            invariant
                idx <= n,
                cmp_model_holds::<K>() ==> n == self@.dom().len(),
                cmp_model_holds::<K>() ==> btree_map_rows(self).len() == n,
                cmp_model_holds::<K>() ==> it.remaining().unref() =~= btree_map_rows(
                    self,
                ).skip(idx as int),
                cmp_model_holds::<K>() ==> forall|i: int|
                    #![trigger btree_map_rows(self)[i]]
                    0 <= i < n ==> self@.contains_key(btree_map_rows(self)[i].0)
                        && self@[btree_map_rows(self)[i].0] == btree_map_rows(self)[i].1,
                cmp_model_holds::<K>() ==> forall|k: K| #[trigger] self@.contains_key(k)
                    ==> exists|i: int| 0 <= i < n && #[trigger] btree_map_rows(self)[i] == (
                    k,
                    self@[k],
                ),
                cmp_model_holds::<K>() ==> forall|j: int|
                    #![trigger btree_map_rows(self)[j]]
                    0 <= j < idx ==> exists|k2: K| #[trigger] r@.contains_key(k2)
                        && call_ensures(
                        <K as IndependentClone<AnySpeed>>::independent_clone,
                        (&btree_map_rows(self)[j].0,),
                        k2,
                    ),
                cmp_model_holds::<K>() ==> forall|k2: K| #[trigger] r@.contains_key(k2)
                    ==> exists|j: int|
                    0 <= j < idx && call_ensures(
                        <K as IndependentClone<AnySpeed>>::independent_clone,
                        (&btree_map_rows(self)[j].0,),
                        k2,
                    ) && call_ensures(
                        <V as IndependentClone<AnySpeed>>::independent_clone,
                        (&btree_map_rows(self)[j].1,),
                        r@[k2],
                    ),
            decreases n - idx,
        {
            let ghost pre_rem = it.remaining();
            match crate::std_contracts::next_ordered_map_entry(&mut it) {
                Some(pair) => {
                    let ghost r_before = r@;
                    let key_clone = pair.0.independent_clone();
                    let value_clone = pair.1.independent_clone();
                    r.insert(key_clone, value_clone);
                    proof {
                        if cmp_model_holds::<K>() {
                            let rows = btree_map_rows(self);
                            assert(pair == pre_rem[0]);
                            assert((*pair.0, *pair.1) == pre_rem.unref()[0]);
                            assert(rows[idx as int] == (*pair.0, *pair.1));
                            assert(it.remaining() == pre_rem.drop_first());
                            assert(pre_rem.drop_first().unref() =~= pre_rem.unref()
                                .drop_first());
                            assert(rows.skip(idx as int).drop_first() =~= rows.skip(
                                idx as int + 1,
                            ));
                            assert(it.remaining().unref() =~= rows.skip(idx as int + 1));
                            assert(r@ == r_before.insert(key_clone, value_clone));
                            assert forall|j: int| #![trigger rows[j]] 0 <= j < idx + 1
                                implies exists|k2: K| #[trigger] r@.contains_key(k2)
                                && call_ensures(
                                <K as IndependentClone<AnySpeed>>::independent_clone,
                                (&rows[j].0,),
                                k2,
                            ) by {
                                if j == idx {
                                    assert(rows[j].0 == *pair.0);
                                    assert(r@.contains_key(key_clone));
                                } else {
                                    let k2 = choose|k2: K|
                                        r_before.contains_key(k2) && call_ensures(
                                            <K as IndependentClone<AnySpeed>>::independent_clone,
                                            (&rows[j].0,),
                                            k2,
                                        );
                                    assert(r@.contains_key(k2));
                                }
                            }
                            assert forall|k2: K| #[trigger] r@.contains_key(k2) implies exists|
                                j: int,
                            |
                                0 <= j < idx + 1 && call_ensures(
                                    <K as IndependentClone<AnySpeed>>::independent_clone,
                                    (&rows[j].0,),
                                    k2,
                                ) && call_ensures(
                                    <V as IndependentClone<AnySpeed>>::independent_clone,
                                    (&rows[j].1,),
                                    r@[k2],
                                ) by {
                                if k2 == key_clone {
                                    assert(rows[idx as int].0 == *pair.0);
                                    assert(rows[idx as int].1 == *pair.1);
                                    assert(r@[k2] == value_clone);
                                } else {
                                    assert(r_before.contains_key(k2));
                                    assert(r@[k2] == r_before[k2]);
                                }
                            }
                        }
                    }
                },
                None => {
                    proof {
                        if cmp_model_holds::<K>() {
                            assert(pre_rem.unref().len() == n - idx);
                            assert(false);
                        }
                    }
                    return r;
                },
            }
            idx = idx + 1;
        }
        proof {
            if cmp_model_holds::<K>() {
                let rows = btree_map_rows(self);
                assert forall|k: K| #[trigger] self@.contains_key(k) implies exists|k2: K|
                    #[trigger] r@.contains_key(k2) && call_ensures(
                    <K as IndependentClone<AnySpeed>>::independent_clone,
                    (&k,),
                    k2,
                ) by {
                    let i = choose|i: int| 0 <= i < n && #[trigger] rows[i] == (k, self@[k]);
                    assert(rows[i].0 == k);
                }
                if exact_clones::<K>() {
                    assert forall|k: K| #[trigger] self@.contains_key(k) implies r@.contains_key(
                        k,
                    ) by {
                        let i = choose|i: int| 0 <= i < n && #[trigger] rows[i] == (k, self@[k]);
                        let k2 = choose|k2: K|
                            #[trigger] r@.contains_key(k2) && call_ensures(
                                <K as IndependentClone<AnySpeed>>::independent_clone,
                                (&rows[i].0,),
                                k2,
                            );
                        assert(k2 == k);
                    }
                    assert forall|k2: K| #[trigger] r@.contains_key(k2) implies self@.contains_key(
                        k2,
                    ) by {
                        let j = choose|j: int|
                            0 <= j < n && call_ensures(
                                <K as IndependentClone<AnySpeed>>::independent_clone,
                                (&rows[j].0,),
                                k2,
                            ) && call_ensures(
                                <V as IndependentClone<AnySpeed>>::independent_clone,
                                (&rows[j].1,),
                                r@[k2],
                            );
                        assert(k2 == rows[j].0);
                    }
                    assert(r@.dom() =~= self@.dom());
                    assert forall|k: K| #[trigger] self@.contains_key(k) implies call_ensures(
                        <V as IndependentClone<AnySpeed>>::independent_clone,
                        (&self@[k],),
                        r@[k],
                    ) by {
                        assert(r@.contains_key(k));
                        let j = choose|j: int|
                            0 <= j < n && call_ensures(
                                <K as IndependentClone<AnySpeed>>::independent_clone,
                                (&rows[j].0,),
                                k,
                            ) && call_ensures(
                                <V as IndependentClone<AnySpeed>>::independent_clone,
                                (&rows[j].1,),
                                r@[k],
                            );
                        assert(rows[j].0 == k);
                        assert(rows[j].1 == self@[k]);
                    }
                }
            }
        }
        r
    }
}

/// Every element is independently cloned into a fresh ordered set; as with
/// other whole-collection rebuilds, only the unconstrained tier is claimed.
/// Conditional on the standard comparison model, every source element has a
/// cloned counterpart in the result and every result element stems from a
/// source element.
impl<T> IndependentClone<AnySpeed> for std::collections::BTreeSet<T> where
    T: IndependentClone<AnySpeed> + Ord,
{
    #[verifier::rlimit(100)]
    fn independent_clone(&self) -> (r: Self)
        ensures
            cmp_model_holds::<T>() ==> forall|x: T| #[trigger] self@.contains(x) ==> exists|x2: T|
                #[trigger] r@.contains(x2) && call_ensures(
                <T as IndependentClone<AnySpeed>>::independent_clone,
                (&x,),
                x2,
            ),
            cmp_model_holds::<T>() ==> forall|x2: T| #[trigger] r@.contains(x2) ==> exists|x: T|
                #[trigger] self@.contains(x) && call_ensures(
                <T as IndependentClone<AnySpeed>>::independent_clone,
                (&x,),
                x2,
            ),
            cmp_model_holds::<T>() && exact_clones::<T>() ==> r@ == self@,
    {
        let mut r: std::collections::BTreeSet<T> = std::collections::BTreeSet::new();
        let n = self.len();
        let mut it = self.iter();
        proof {
            if cmp_model_holds::<T>() {
                assert(key_obeys_cmp_spec::<T>());
                let rows = btree_set_rows(self);
                let rem = spec_btree_keys_iter(self).remaining();
                assert(rows =~= rem.unref());
                assert(rows.to_set() == self@);
                assert forall|i: int| #![trigger rows[i]] 0 <= i < rows.len() implies
                    self@.contains(rows[i]) by {
                    assert(rows.contains(rows[i]));
                }
                assert forall|x: T| #[trigger] self@.contains(x) implies exists|i: int|
                    0 <= i < rows.len() && #[trigger] rows[i] == x by {
                    assert(rows.contains(x));
                }
            }
        }
        let mut idx: usize = 0;
        while idx < n
            invariant
                idx <= n,
                cmp_model_holds::<T>() ==> n == self@.len(),
                cmp_model_holds::<T>() ==> btree_set_rows(self).len() == n,
                cmp_model_holds::<T>() ==> it.remaining().unref() =~= btree_set_rows(self).skip(idx as int),
                cmp_model_holds::<T>() ==> forall|i: int|
                    #![trigger btree_set_rows(self)[i]]
                    0 <= i < n ==> self@.contains(btree_set_rows(self)[i]),
                cmp_model_holds::<T>() ==> forall|x: T| #[trigger] self@.contains(x) ==> exists|i: int|
                    0 <= i < n && #[trigger] btree_set_rows(self)[i] == x,
                cmp_model_holds::<T>() ==> forall|j: int|
                    #![trigger btree_set_rows(self)[j]]
                    0 <= j < idx ==> exists|x2: T| #[trigger] r@.contains(x2)
                        && call_ensures(
                        <T as IndependentClone<AnySpeed>>::independent_clone,
                        (&btree_set_rows(self)[j],),
                        x2,
                    ),
                cmp_model_holds::<T>() ==> forall|x2: T| #[trigger] r@.contains(x2) ==> exists|j: int|
                    0 <= j < idx && call_ensures(
                        <T as IndependentClone<AnySpeed>>::independent_clone,
                        (&btree_set_rows(self)[j],),
                        x2,
                    ),
            decreases n - idx,
        {
            let ghost pre_rem = it.remaining();
            match crate::std_contracts::next_ordered_set_element(&mut it) {
                Some(element) => {
                    let ghost r_before = r@;
                    let element_clone = element.independent_clone();
                    r.insert(element_clone);
                    proof {
                        if cmp_model_holds::<T>() {
                            let rows = btree_set_rows(self);
                            assert(element == pre_rem[0]);
                            assert(*element == pre_rem.unref()[0]);
                            assert(rows[idx as int] == *element);
                            assert(it.remaining() == pre_rem.drop_first());
                            assert(pre_rem.drop_first().unref() =~= pre_rem.unref()
                                .drop_first());
                            assert(rows.skip(idx as int).drop_first() =~= rows.skip(
                                idx as int + 1,
                            ));
                            assert(it.remaining().unref() =~= rows.skip(idx as int + 1));
                            assert(r@ == r_before.insert(element_clone));
                            assert forall|j: int| #![trigger rows[j]] 0 <= j < idx + 1
                                implies exists|x2: T| #[trigger] r@.contains(x2)
                                && call_ensures(
                                <T as IndependentClone<AnySpeed>>::independent_clone,
                                (&rows[j],),
                                x2,
                            ) by {
                                if j == idx {
                                    assert(rows[j] == *element);
                                    assert(r@.contains(element_clone));
                                } else {
                                    let x2 = choose|x2: T|
                                        r_before.contains(x2) && call_ensures(
                                            <T as IndependentClone<AnySpeed>>::independent_clone,
                                            (&rows[j],),
                                            x2,
                                        );
                                    assert(r@.contains(x2));
                                }
                            }
                            assert forall|x2: T| #[trigger] r@.contains(x2) implies exists|
                                j: int,
                            |
                                0 <= j < idx + 1 && call_ensures(
                                    <T as IndependentClone<AnySpeed>>::independent_clone,
                                    (&rows[j],),
                                    x2,
                                ) by {
                                if x2 == element_clone {
                                    assert(rows[idx as int] == *element);
                                } else {
                                    assert(r_before.contains(x2));
                                }
                            }
                        }
                    }
                },
                None => {
                    proof {
                        if cmp_model_holds::<T>() {
                            assert(pre_rem.unref().len() == n - idx);
                            assert(false);
                        }
                    }
                    return r;
                },
            }
            idx = idx + 1;
        }
        proof {
            if cmp_model_holds::<T>() {
                let rows = btree_set_rows(self);
                assert forall|x: T| #[trigger] self@.contains(x) implies exists|x2: T|
                    #[trigger] r@.contains(x2) && call_ensures(
                    <T as IndependentClone<AnySpeed>>::independent_clone,
                    (&x,),
                    x2,
                ) by {
                    let i = choose|i: int| 0 <= i < n && #[trigger] rows[i] == x;
                    assert(rows[i] == x);
                }
                if exact_clones::<T>() {
                    assert forall|x: T| #[trigger] self@.contains(x) implies r@.contains(x) by {
                        let i = choose|i: int| 0 <= i < n && #[trigger] rows[i] == x;
                        let x2 = choose|x2: T|
                            #[trigger] r@.contains(x2) && call_ensures(
                                <T as IndependentClone<AnySpeed>>::independent_clone,
                                (&rows[i],),
                                x2,
                            );
                        assert(x2 == x);
                    }
                    assert forall|x2: T| #[trigger] r@.contains(x2) implies self@.contains(x2) by {
                        let j = choose|j: int|
                            0 <= j < n && call_ensures(
                                <T as IndependentClone<AnySpeed>>::independent_clone,
                                (&rows[j],),
                                x2,
                            );
                        assert(x2 == rows[j]);
                    }
                    assert(r@ =~= self@);
                }
            }
        }
        r
    }
}

/// The wrapped value is independently cloned at the same tier, and the
/// result is wrapped again; the wrapper adds no state of its own.
impl<S: ConstantOrSlower, T: IndependentClone<S>> IndependentClone<S> for core::mem::ManuallyDrop<
    T,
> {
    fn independent_clone(&self) -> (r: Self)
        ensures
            call_ensures(<T as IndependentClone<S>>::independent_clone, (&self@,), r@),
    {
        core::mem::ManuallyDrop::new((**self).independent_clone())
    }
}

/// Every element is independently cloned, in order, into a fresh boxed
/// slice; as with other whole-collection rebuilds, only the unconstrained
/// tier is claimed.
impl<T: IndependentClone<AnySpeed>> IndependentClone<AnySpeed> for Box<[T]> {
    fn independent_clone(&self) -> (r: Self)
        ensures
            r@.len() == self@.len(),
            forall|j: int|
                #![trigger r@[j]]
                0 <= j < self@.len() ==> call_ensures(
                    <T as IndependentClone<AnySpeed>>::independent_clone,
                    (&self@[j],),
                    r@[j],
                ),
    {
        let elements: &[T] = &**self;
        let mut cloned_elements: Vec<T> = Vec::new();
        let mut i: usize = 0;
        while i < elements.len()
            invariant
                i <= elements@.len(),
                cloned_elements@.len() == i,
                forall|j: int|
                    #![trigger cloned_elements@[j]]
                    0 <= j < i ==> call_ensures(
                        <T as IndependentClone<AnySpeed>>::independent_clone,
                        (&elements@[j],),
                        cloned_elements@[j],
                    ),
                forall|j: int|
                    0 <= j < i ==> cloned_elements@[j].observed() == elements@[j].observed(),
            decreases elements@.len() - i,
        {
            cloned_elements.push(vstd::slice::slice_index_get(elements, i).independent_clone());
            i = i + 1;
        }
        let r = crate::std_contracts::boxed_slice_from_vec(cloned_elements);
        proof {
            assert(r.observed() =~= self.observed());
        }
        r
    }
}

impl IndependentClone<NearInstant> for core::alloc::Layout {
    fn independent_clone(&self) -> (r: Self) {
        *self
    }
}

impl IndependentClone<NearInstant> for core::any::TypeId {
    fn independent_clone(&self) -> (r: Self) {
        *self
    }
}

impl IndependentClone<NearInstant> for core::convert::Infallible {
    fn independent_clone(&self) -> (r: Self) {
        *self
    }
}

impl IndependentClone<NearInstant> for core::ops::RangeFull {
    fn independent_clone(&self) -> (r: Self) {
        *self
    }
}

impl IndependentClone<NearInstant> for core::marker::PhantomPinned {
    fn independent_clone(&self) -> (r: Self) {
        *self
    }
}

impl IndependentClone<NearInstant> for std::time::Instant {
    fn independent_clone(&self) -> (r: Self) {
        *self
    }
}

/// The characters are copied into a fresh allocation; rebuilding the whole
/// string is claimed only at the unconstrained tier.
impl IndependentClone<AnySpeed> for Box<str> {
    fn independent_clone(&self) -> (r: Self) {
        crate::std_contracts::clone_boxed_str(self)
    }
}

impl<T> IndependentClone<NearInstant> for core::mem::Discriminant<T> {
    fn independent_clone(&self) -> (r: Self) {
        *self
    }
}

/// An empty iterator has no state, so a fresh one is a complete clone.
impl<T> IndependentClone<NearInstant> for core::iter::Empty<T> {
    fn independent_clone(&self) -> (r: Self) {
        crate::std_contracts::empty_iter()
    }
}

/// Each element is independently cloned at the same tier, and the results
/// are reassembled into an array of the same length; the contract passes
/// the element operation's guarantee through, position by position.
impl<S: ConstantOrSlower, T: IndependentClone<S>, const N: usize> IndependentClone<S> for [T; N] {
    fn independent_clone(&self) -> (r: Self)
        ensures
            forall|j: int|
                #![trigger r@[j]]
                0 <= j < N ==> call_ensures(
                    <T as IndependentClone<S>>::independent_clone,
                    (&self@[j],),
                    r@[j],
                ),
    {
        let elements: &[T] = self.as_slice();
        let mut cloned_elements: Vec<T> = Vec::new();
        let mut i: usize = 0;
        while i < elements.len()
            invariant
                elements@ == self@,
                i <= elements@.len(),
                cloned_elements@.len() == i,
                forall|j: int|
                    #![trigger cloned_elements@[j]]
                    0 <= j < i ==> call_ensures(
                        <T as IndependentClone<S>>::independent_clone,
                        (&elements@[j],),
                        cloned_elements@[j],
                    ),
                forall|j: int|
                    0 <= j < i ==> cloned_elements@[j].observed() == elements@[j].observed(),
            decreases elements@.len() - i,
        {
            cloned_elements.push(vstd::slice::slice_index_get(elements, i).independent_clone());
            i = i + 1;
        }
        let r = crate::std_contracts::array_from_vec(cloned_elements);
        proof {
            assert(r.observed() =~= self.observed());
        }
        r
    }
}

} // verus!
