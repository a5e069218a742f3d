use vstd::prelude::*;
use core::marker::PhantomData;
use std::rc::Rc;
use std::sync::Arc;
use crate::observed::Observable;
use crate::speed::{Speed, ConstantOrSlower, NearInstant};
use crate::std_contracts::{clone_rc, clone_arc};

verus! {

/// Get clones that share all semantically-important mutable state.
///
/// The goal is that mutating one mirrored clone affects every clone.
/// Different mirrored clones should, from their public interfaces, act
/// identically, with some exceptions like memory addresses.
///
/// This can be achieved via reference counting (e.g., [`Rc`] or [`Arc`]), or
/// by simply not having any mutable state to share at all (e.g. a zero-sized
/// type like `()`).
///
/// Per-clone mutable data is permissible, so long as the effects of mutating
/// that data do not cause mirrored clones to behave differently in a
/// potentially-observable way.
///
/// The contract on [`mirrored_clone`](Self::mirrored_clone) says that the
/// clone observes the same semantically-important state as its source; that
/// the two keep observing the same state as either is mutated is realized by
/// sharing, which is a per-implementation obligation that a pure contract
/// cannot express, and is documented on each implementation instead.
///
/// # Exceptions
/// - A type implementing `MirroredClone` may specify that certain methods or
///   accesses are not subject to these guarantees.
/// - `Debug` should be assumed to be an exception. Intentionally worsening
///   the life of someone debugging your type is not a goal.
/// - Users should not assume that references returned from different
///   mirrored clones refer to the same value, only that those values
///   *behave* the same. Trivially, mirrored clones do not have the same
///   address, and some of their data may be inlined into the type.
pub trait MirroredClone<S: Speed>: Sized + Observable {
    /// Get a clone that shares all semantically-important mutable state with
    /// its source, at a cost bounded by the speed tier `S`.
    #[must_use]
    fn mirrored_clone(&self) -> (r: Self)
        ensures
            r.observed() == self.observed(),
    ;
}

/// A zero-sized type has no mutable state to share at all, so a fresh unit
/// value is vacuously a mirrored clone.
impl MirroredClone<NearInstant> for () {
    fn mirrored_clone(&self) -> (r: Self) {
        *self
    }
}

/// A zero-sized marker has no mutable state to share at all.
impl<T: ?Sized> MirroredClone<NearInstant> for PhantomData<T> {
    fn mirrored_clone(&self) -> (r: Self) {
        *self
    }
}

/// The clone is a second handle to the same allocation, so every mutation
/// of the (shared) referent is observable through both handles. Copying a
/// handle is a bounded number of reference-count operations, so this holds
/// at every tier.
impl<S: Speed, T: Observable> MirroredClone<S> for Rc<T> {
    fn mirrored_clone(&self) -> (r: Self) {
        clone_rc(self)
    }
}

/// The clone is a second handle to the same allocation; see the note on the
/// `Rc` implementation.
impl<S: Speed, T: Observable> MirroredClone<S> for Arc<T> {
    fn mirrored_clone(&self) -> (r: Self) {
        clone_arc(self)
    }
}

/// An absent value yields an absent value; a present value applies the
/// element operation. The element's mirrored clone decides the sharing, so
/// this passes every tier the element supports straight through.
impl<S: Speed, T: MirroredClone<S>> MirroredClone<S> for Option<T> {
    fn mirrored_clone(&self) -> (r: Self)
        ensures
            *self is None <==> r is None,
            (*self) matches Some(t) ==> (r matches Some(c) && call_ensures(
                <T as MirroredClone<S>>::mirrored_clone,
                (&t,),
                c,
            )),
    {
        match self {
            Some(t) => Some(t.mirrored_clone()),
            None => None,
        }
    }
}

/// A success mirrors the success-path element, and a failure mirrors the
/// failure-path element; the elements decide the sharing, so every tier they
/// support passes straight through.
impl<S: Speed, T: MirroredClone<S>, E: MirroredClone<S>> MirroredClone<S> for Result<T, E> {
    fn mirrored_clone(&self) -> (r: Self)
        ensures
            *self is Ok <==> r is Ok,
            (*self) matches Ok(t) ==> (r matches Ok(c) && call_ensures(
                <T as MirroredClone<S>>::mirrored_clone,
                (&t,),
                c,
            )),
            (*self) matches Err(e) ==> (r matches Err(c) && call_ensures(
                <E as MirroredClone<S>>::mirrored_clone,
                (&e,),
                c,
            )),
    {
        match self {
            Ok(t) => Ok(t.mirrored_clone()),
            Err(e) => Err(e.mirrored_clone()),
        }
    }
}

/// Each element is mirror-cloned at the same tier, and the results
/// are reassembled into a tuple of the same shape; the contract passes the
/// element operations' guarantees through, component by component.
impl<S: ConstantOrSlower, T1: MirroredClone<S>> MirroredClone<S> for (T1,) {
    fn mirrored_clone(&self) -> (r: Self)
        ensures
            call_ensures(<T1 as MirroredClone<S>>::mirrored_clone, (&self.0,), r.0),
    {
        (self.0.mirrored_clone(),)
    }
}

impl<S: ConstantOrSlower, T1: MirroredClone<S>, T2: MirroredClone<S>> MirroredClone<S> for (T1, T2) {
    fn mirrored_clone(&self) -> (r: Self)
        ensures
            call_ensures(<T1 as MirroredClone<S>>::mirrored_clone, (&self.0,), r.0),
            call_ensures(<T2 as MirroredClone<S>>::mirrored_clone, (&self.1,), r.1),
    {
        (self.0.mirrored_clone(), self.1.mirrored_clone())
    }
}

impl<S: ConstantOrSlower, T1: MirroredClone<S>, T2: MirroredClone<S>, T3: MirroredClone<S>> MirroredClone<S> for (T1, T2, T3) {
    fn mirrored_clone(&self) -> (r: Self)
        ensures
            call_ensures(<T1 as MirroredClone<S>>::mirrored_clone, (&self.0,), r.0),
            call_ensures(<T2 as MirroredClone<S>>::mirrored_clone, (&self.1,), r.1),
            call_ensures(<T3 as MirroredClone<S>>::mirrored_clone, (&self.2,), r.2),
    {
        (self.0.mirrored_clone(), self.1.mirrored_clone(), self.2.mirrored_clone())
    }
}

impl<S: ConstantOrSlower, T1: MirroredClone<S>, T2: MirroredClone<S>, T3: MirroredClone<S>, T4: MirroredClone<S>> MirroredClone<S> for (T1, T2, T3, T4) {
    fn mirrored_clone(&self) -> (r: Self)
        ensures
            call_ensures(<T1 as MirroredClone<S>>::mirrored_clone, (&self.0,), r.0),
            call_ensures(<T2 as MirroredClone<S>>::mirrored_clone, (&self.1,), r.1),
            call_ensures(<T3 as MirroredClone<S>>::mirrored_clone, (&self.2,), r.2),
            call_ensures(<T4 as MirroredClone<S>>::mirrored_clone, (&self.3,), r.3),
    {
        (self.0.mirrored_clone(), self.1.mirrored_clone(), self.2.mirrored_clone(), self.3.mirrored_clone())
    }
}

impl<S: ConstantOrSlower, T1: MirroredClone<S>, T2: MirroredClone<S>, T3: MirroredClone<S>, T4: MirroredClone<S>, T5: MirroredClone<S>> MirroredClone<S> for (T1, T2, T3, T4, T5) {
    fn mirrored_clone(&self) -> (r: Self)
        ensures
            call_ensures(<T1 as MirroredClone<S>>::mirrored_clone, (&self.0,), r.0),
            call_ensures(<T2 as MirroredClone<S>>::mirrored_clone, (&self.1,), r.1),
            call_ensures(<T3 as MirroredClone<S>>::mirrored_clone, (&self.2,), r.2),
            call_ensures(<T4 as MirroredClone<S>>::mirrored_clone, (&self.3,), r.3),
            call_ensures(<T5 as MirroredClone<S>>::mirrored_clone, (&self.4,), r.4),
    {
        (self.0.mirrored_clone(), self.1.mirrored_clone(), self.2.mirrored_clone(), self.3.mirrored_clone(), self.4.mirrored_clone())
    }
}

impl<S: ConstantOrSlower, T1: MirroredClone<S>, T2: MirroredClone<S>, T3: MirroredClone<S>, T4: MirroredClone<S>, T5: MirroredClone<S>, T6: MirroredClone<S>> MirroredClone<S> for (T1, T2, T3, T4, T5, T6) {
    fn mirrored_clone(&self) -> (r: Self)
        ensures
            call_ensures(<T1 as MirroredClone<S>>::mirrored_clone, (&self.0,), r.0),
            call_ensures(<T2 as MirroredClone<S>>::mirrored_clone, (&self.1,), r.1),
            call_ensures(<T3 as MirroredClone<S>>::mirrored_clone, (&self.2,), r.2),
            call_ensures(<T4 as MirroredClone<S>>::mirrored_clone, (&self.3,), r.3),
            call_ensures(<T5 as MirroredClone<S>>::mirrored_clone, (&self.4,), r.4),
            call_ensures(<T6 as MirroredClone<S>>::mirrored_clone, (&self.5,), r.5),
    {
        (self.0.mirrored_clone(), self.1.mirrored_clone(), self.2.mirrored_clone(), self.3.mirrored_clone(), self.4.mirrored_clone(), self.5.mirrored_clone())
    }
}

impl<S: ConstantOrSlower, T1: MirroredClone<S>, T2: MirroredClone<S>, T3: MirroredClone<S>, T4: MirroredClone<S>, T5: MirroredClone<S>, T6: MirroredClone<S>, T7: MirroredClone<S>> MirroredClone<S> for (T1, T2, T3, T4, T5, T6, T7) {
    fn mirrored_clone(&self) -> (r: Self)
        ensures
            call_ensures(<T1 as MirroredClone<S>>::mirrored_clone, (&self.0,), r.0),
            call_ensures(<T2 as MirroredClone<S>>::mirrored_clone, (&self.1,), r.1),
            call_ensures(<T3 as MirroredClone<S>>::mirrored_clone, (&self.2,), r.2),
            call_ensures(<T4 as MirroredClone<S>>::mirrored_clone, (&self.3,), r.3),
            call_ensures(<T5 as MirroredClone<S>>::mirrored_clone, (&self.4,), r.4),
            call_ensures(<T6 as MirroredClone<S>>::mirrored_clone, (&self.5,), r.5),
            call_ensures(<T7 as MirroredClone<S>>::mirrored_clone, (&self.6,), r.6),
    {
        (self.0.mirrored_clone(), self.1.mirrored_clone(), self.2.mirrored_clone(), self.3.mirrored_clone(), self.4.mirrored_clone(), self.5.mirrored_clone(), self.6.mirrored_clone())
    }
}

impl<S: ConstantOrSlower, T1: MirroredClone<S>, T2: MirroredClone<S>, T3: MirroredClone<S>, T4: MirroredClone<S>, T5: MirroredClone<S>, T6: MirroredClone<S>, T7: MirroredClone<S>, T8: MirroredClone<S>> MirroredClone<S> for (T1, T2, T3, T4, T5, T6, T7, T8) {
    fn mirrored_clone(&self) -> (r: Self)
        ensures
            call_ensures(<T1 as MirroredClone<S>>::mirrored_clone, (&self.0,), r.0),
            call_ensures(<T2 as MirroredClone<S>>::mirrored_clone, (&self.1,), r.1),
            call_ensures(<T3 as MirroredClone<S>>::mirrored_clone, (&self.2,), r.2),
            call_ensures(<T4 as MirroredClone<S>>::mirrored_clone, (&self.3,), r.3),
            call_ensures(<T5 as MirroredClone<S>>::mirrored_clone, (&self.4,), r.4),
            call_ensures(<T6 as MirroredClone<S>>::mirrored_clone, (&self.5,), r.5),
            call_ensures(<T7 as MirroredClone<S>>::mirrored_clone, (&self.6,), r.6),
            call_ensures(<T8 as MirroredClone<S>>::mirrored_clone, (&self.7,), r.7),
    {
        (self.0.mirrored_clone(), self.1.mirrored_clone(), self.2.mirrored_clone(), self.3.mirrored_clone(), self.4.mirrored_clone(), self.5.mirrored_clone(), self.6.mirrored_clone(), self.7.mirrored_clone())
    }
}

impl<S: ConstantOrSlower, T1: MirroredClone<S>, T2: MirroredClone<S>, T3: MirroredClone<S>, T4: MirroredClone<S>, T5: MirroredClone<S>, T6: MirroredClone<S>, T7: MirroredClone<S>, T8: MirroredClone<S>, T9: MirroredClone<S>> MirroredClone<S> for (T1, T2, T3, T4, T5, T6, T7, T8, T9) {
    fn mirrored_clone(&self) -> (r: Self)
        ensures
            call_ensures(<T1 as MirroredClone<S>>::mirrored_clone, (&self.0,), r.0),
            call_ensures(<T2 as MirroredClone<S>>::mirrored_clone, (&self.1,), r.1),
            call_ensures(<T3 as MirroredClone<S>>::mirrored_clone, (&self.2,), r.2),
            call_ensures(<T4 as MirroredClone<S>>::mirrored_clone, (&self.3,), r.3),
            call_ensures(<T5 as MirroredClone<S>>::mirrored_clone, (&self.4,), r.4),
            call_ensures(<T6 as MirroredClone<S>>::mirrored_clone, (&self.5,), r.5),
            call_ensures(<T7 as MirroredClone<S>>::mirrored_clone, (&self.6,), r.6),
            call_ensures(<T8 as MirroredClone<S>>::mirrored_clone, (&self.7,), r.7),
            call_ensures(<T9 as MirroredClone<S>>::mirrored_clone, (&self.8,), r.8),
    {
        (self.0.mirrored_clone(), self.1.mirrored_clone(), self.2.mirrored_clone(), self.3.mirrored_clone(), self.4.mirrored_clone(), self.5.mirrored_clone(), self.6.mirrored_clone(), self.7.mirrored_clone(), self.8.mirrored_clone())
    }
}

impl<S: ConstantOrSlower, T1: MirroredClone<S>, T2: MirroredClone<S>, T3: MirroredClone<S>, T4: MirroredClone<S>, T5: MirroredClone<S>, T6: MirroredClone<S>, T7: MirroredClone<S>, T8: MirroredClone<S>, T9: MirroredClone<S>, T10: MirroredClone<S>> MirroredClone<S> for (T1, T2, T3, T4, T5, T6, T7, T8, T9, T10) {
    fn mirrored_clone(&self) -> (r: Self)
        ensures
            call_ensures(<T1 as MirroredClone<S>>::mirrored_clone, (&self.0,), r.0),
            call_ensures(<T2 as MirroredClone<S>>::mirrored_clone, (&self.1,), r.1),
            call_ensures(<T3 as MirroredClone<S>>::mirrored_clone, (&self.2,), r.2),
            call_ensures(<T4 as MirroredClone<S>>::mirrored_clone, (&self.3,), r.3),
            call_ensures(<T5 as MirroredClone<S>>::mirrored_clone, (&self.4,), r.4),
            call_ensures(<T6 as MirroredClone<S>>::mirrored_clone, (&self.5,), r.5),
            call_ensures(<T7 as MirroredClone<S>>::mirrored_clone, (&self.6,), r.6),
            call_ensures(<T8 as MirroredClone<S>>::mirrored_clone, (&self.7,), r.7),
            call_ensures(<T9 as MirroredClone<S>>::mirrored_clone, (&self.8,), r.8),
            call_ensures(<T10 as MirroredClone<S>>::mirrored_clone, (&self.9,), r.9),
    {
        (self.0.mirrored_clone(), self.1.mirrored_clone(), self.2.mirrored_clone(), self.3.mirrored_clone(), self.4.mirrored_clone(), self.5.mirrored_clone(), self.6.mirrored_clone(), self.7.mirrored_clone(), self.8.mirrored_clone(), self.9.mirrored_clone())
    }
}

impl<S: ConstantOrSlower, T1: MirroredClone<S>, T2: MirroredClone<S>, T3: MirroredClone<S>, T4: MirroredClone<S>, T5: MirroredClone<S>, T6: MirroredClone<S>, T7: MirroredClone<S>, T8: MirroredClone<S>, T9: MirroredClone<S>, T10: MirroredClone<S>, T11: MirroredClone<S>> MirroredClone<S> for (T1, T2, T3, T4, T5, T6, T7, T8, T9, T10, T11) {
    fn mirrored_clone(&self) -> (r: Self)
        ensures
            call_ensures(<T1 as MirroredClone<S>>::mirrored_clone, (&self.0,), r.0),
            call_ensures(<T2 as MirroredClone<S>>::mirrored_clone, (&self.1,), r.1),
            call_ensures(<T3 as MirroredClone<S>>::mirrored_clone, (&self.2,), r.2),
            call_ensures(<T4 as MirroredClone<S>>::mirrored_clone, (&self.3,), r.3),
            call_ensures(<T5 as MirroredClone<S>>::mirrored_clone, (&self.4,), r.4),
            call_ensures(<T6 as MirroredClone<S>>::mirrored_clone, (&self.5,), r.5),
            call_ensures(<T7 as MirroredClone<S>>::mirrored_clone, (&self.6,), r.6),
            call_ensures(<T8 as MirroredClone<S>>::mirrored_clone, (&self.7,), r.7),
            call_ensures(<T9 as MirroredClone<S>>::mirrored_clone, (&self.8,), r.8),
            call_ensures(<T10 as MirroredClone<S>>::mirrored_clone, (&self.9,), r.9),
            call_ensures(<T11 as MirroredClone<S>>::mirrored_clone, (&self.10,), r.10),
    {
        (self.0.mirrored_clone(), self.1.mirrored_clone(), self.2.mirrored_clone(), self.3.mirrored_clone(), self.4.mirrored_clone(), self.5.mirrored_clone(), self.6.mirrored_clone(), self.7.mirrored_clone(), self.8.mirrored_clone(), self.9.mirrored_clone(), self.10.mirrored_clone())
    }
}

impl<S: ConstantOrSlower, T1: MirroredClone<S>, T2: MirroredClone<S>, T3: MirroredClone<S>, T4: MirroredClone<S>, T5: MirroredClone<S>, T6: MirroredClone<S>, T7: MirroredClone<S>, T8: MirroredClone<S>, T9: MirroredClone<S>, T10: MirroredClone<S>, T11: MirroredClone<S>, T12: MirroredClone<S>> MirroredClone<S> for (T1, T2, T3, T4, T5, T6, T7, T8, T9, T10, T11, T12) {
    fn mirrored_clone(&self) -> (r: Self)
        ensures
            call_ensures(<T1 as MirroredClone<S>>::mirrored_clone, (&self.0,), r.0),
            call_ensures(<T2 as MirroredClone<S>>::mirrored_clone, (&self.1,), r.1),
            call_ensures(<T3 as MirroredClone<S>>::mirrored_clone, (&self.2,), r.2),
            call_ensures(<T4 as MirroredClone<S>>::mirrored_clone, (&self.3,), r.3),
            call_ensures(<T5 as MirroredClone<S>>::mirrored_clone, (&self.4,), r.4),
            call_ensures(<T6 as MirroredClone<S>>::mirrored_clone, (&self.5,), r.5),
            call_ensures(<T7 as MirroredClone<S>>::mirrored_clone, (&self.6,), r.6),
            call_ensures(<T8 as MirroredClone<S>>::mirrored_clone, (&self.7,), r.7),
            call_ensures(<T9 as MirroredClone<S>>::mirrored_clone, (&self.8,), r.8),
            call_ensures(<T10 as MirroredClone<S>>::mirrored_clone, (&self.9,), r.9),
            call_ensures(<T11 as MirroredClone<S>>::mirrored_clone, (&self.10,), r.10),
            call_ensures(<T12 as MirroredClone<S>>::mirrored_clone, (&self.11,), r.11),
    {
        (self.0.mirrored_clone(), self.1.mirrored_clone(), self.2.mirrored_clone(), self.3.mirrored_clone(), self.4.mirrored_clone(), self.5.mirrored_clone(), self.6.mirrored_clone(), self.7.mirrored_clone(), self.8.mirrored_clone(), self.9.mirrored_clone(), self.10.mirrored_clone(), self.11.mirrored_clone())
    }
}

/// An uninhabited value has no state at all; this operation can never
/// actually run.
impl MirroredClone<NearInstant> for core::convert::Infallible {
    fn mirrored_clone(&self) -> (r: Self) {
        *self
    }
}

/// A zero-sized marker has no mutable state to share at all.
impl MirroredClone<NearInstant> for core::ops::RangeFull {
    fn mirrored_clone(&self) -> (r: Self) {
        *self
    }
}

/// A zero-sized marker has no mutable state to share at all.
impl MirroredClone<NearInstant> for core::marker::PhantomPinned {
    fn mirrored_clone(&self) -> (r: Self) {
        *self
    }
}

/// An empty iterator has no mutable state to share at all.
impl<T> MirroredClone<NearInstant> for core::iter::Empty<T> {
    fn mirrored_clone(&self) -> (r: Self) {
        crate::std_contracts::empty_iter()
    }
}

} // verus!
