use vstd::prelude::*;
use core::marker::PhantomData;
use core::time::Duration;
use std::rc::Rc;
use std::sync::Arc;

verus! {

/// The mathematical abstraction of a value's semantically-important state.
///
/// The clone capability traits state their guarantees over this
/// abstraction: an independent or mirrored clone must observe the same
/// state as its source at the moment of cloning.
///
/// For a plain value the observed state is the value itself; for a
/// container it is built from the observed states of the elements; for a
/// type whose contents are shared mutable state that no pure abstraction
/// can pin down (such as an atomic cell), the observed state is trivial,
/// and the documentation of the type's implementations says what holds.
pub trait Observable {
    /// The type of the observed state.
    type Observed;

    /// The semantically-important state of the value, as a mathematical
    /// abstraction.
    spec fn observed(&self) -> Self::Observed;
}

impl Observable for bool {
    type Observed = bool;

    open spec fn observed(&self) -> bool {
        *self
    }
}

impl Observable for char {
    type Observed = char;

    open spec fn observed(&self) -> char {
        *self
    }
}

impl Observable for () {
    type Observed = ();

    open spec fn observed(&self) -> () {
        *self
    }
}

impl Observable for i8 {
    type Observed = i8;

    open spec fn observed(&self) -> i8 {
        *self
    }
}

impl Observable for i16 {
    type Observed = i16;

    open spec fn observed(&self) -> i16 {
        *self
    }
}

impl Observable for i32 {
    type Observed = i32;

    open spec fn observed(&self) -> i32 {
        *self
    }
}

impl Observable for i64 {
    type Observed = i64;

    open spec fn observed(&self) -> i64 {
        *self
    }
}

impl Observable for i128 {
    type Observed = i128;

    open spec fn observed(&self) -> i128 {
        *self
    }
}

impl Observable for isize {
    type Observed = isize;

    open spec fn observed(&self) -> isize {
        *self
    }
}

impl Observable for u8 {
    type Observed = u8;

    open spec fn observed(&self) -> u8 {
        *self
    }
}

impl Observable for u16 {
    type Observed = u16;

    open spec fn observed(&self) -> u16 {
        *self
    }
}

impl Observable for u32 {
    type Observed = u32;

    open spec fn observed(&self) -> u32 {
        *self
    }
}

impl Observable for u64 {
    type Observed = u64;

    open spec fn observed(&self) -> u64 {
        *self
    }
}

impl Observable for u128 {
    type Observed = u128;

    open spec fn observed(&self) -> u128 {
        *self
    }
}

impl Observable for usize {
    type Observed = usize;

    open spec fn observed(&self) -> usize {
        *self
    }
}

impl Observable for core::cmp::Ordering {
    type Observed = core::cmp::Ordering;

    open spec fn observed(&self) -> core::cmp::Ordering {
        *self
    }
}

impl Observable for core::sync::atomic::Ordering {
    type Observed = core::sync::atomic::Ordering;

    open spec fn observed(&self) -> core::sync::atomic::Ordering {
        *self
    }
}

impl Observable for Duration {
    type Observed = Duration;

    open spec fn observed(&self) -> Duration {
        *self
    }
}

/// A zero-sized marker carries no state at all.
impl<T: ?Sized> Observable for PhantomData<T> {
    type Observed = ();

    open spec fn observed(&self) -> () {
        ()
    }
}

/// The contents of an atomic cell are shared mutable state that changes
/// under the feet of any pure abstraction, so its observed state is trivial
/// and the clone contracts say nothing about the value it holds.
impl Observable for core::sync::atomic::AtomicBool {
    type Observed = ();

    open spec fn observed(&self) -> () {
        ()
    }
}

/// See the note on the `AtomicBool` implementation.
impl Observable for core::sync::atomic::AtomicI8 {
    type Observed = ();

    open spec fn observed(&self) -> () {
        ()
    }
}

/// See the note on the `AtomicBool` implementation.
impl Observable for core::sync::atomic::AtomicI16 {
    type Observed = ();

    open spec fn observed(&self) -> () {
        ()
    }
}

/// See the note on the `AtomicBool` implementation.
impl Observable for core::sync::atomic::AtomicI32 {
    type Observed = ();

    open spec fn observed(&self) -> () {
        ()
    }
}

/// See the note on the `AtomicBool` implementation.
impl Observable for core::sync::atomic::AtomicI64 {
    type Observed = ();

    open spec fn observed(&self) -> () {
        ()
    }
}

/// See the note on the `AtomicBool` implementation.
impl Observable for core::sync::atomic::AtomicIsize {
    type Observed = ();

    open spec fn observed(&self) -> () {
        ()
    }
}

/// See the note on the `AtomicBool` implementation.
impl Observable for core::sync::atomic::AtomicU8 {
    type Observed = ();

    open spec fn observed(&self) -> () {
        ()
    }
}

/// See the note on the `AtomicBool` implementation.
impl Observable for core::sync::atomic::AtomicU16 {
    type Observed = ();

    open spec fn observed(&self) -> () {
        ()
    }
}

/// See the note on the `AtomicBool` implementation.
impl Observable for core::sync::atomic::AtomicU32 {
    type Observed = ();

    open spec fn observed(&self) -> () {
        ()
    }
}

/// See the note on the `AtomicBool` implementation.
impl Observable for core::sync::atomic::AtomicU64 {
    type Observed = ();

    open spec fn observed(&self) -> () {
        ()
    }
}

/// See the note on the `AtomicBool` implementation.
impl Observable for core::sync::atomic::AtomicUsize {
    type Observed = ();

    open spec fn observed(&self) -> () {
        ()
    }
}

/// The contents of a `Cell` are shared mutable state, so its observed
/// state is trivial; see the note on the `AtomicBool` implementation.
impl<T> Observable for core::cell::Cell<T> {
    type Observed = ();

    open spec fn observed(&self) -> () {
        ()
    }
}

impl<T: Observable> Observable for Option<T> {
    type Observed = Option<T::Observed>;

    open spec fn observed(&self) -> Option<T::Observed> {
        match self {
            Some(t) => Some(t.observed()),
            None => None,
        }
    }
}

impl<T: Observable, E: Observable> Observable for Result<T, E> {
    type Observed = Result<T::Observed, E::Observed>;

    open spec fn observed(&self) -> Result<T::Observed, E::Observed> {
        match self {
            Ok(t) => Ok(t.observed()),
            Err(e) => Err(e.observed()),
        }
    }
}

/// A reference-counted handle observes the state of its referent.
impl<T: Observable> Observable for Rc<T> {
    type Observed = T::Observed;

    open spec fn observed(&self) -> T::Observed {
        (**self).observed()
    }
}

/// A reference-counted handle observes the state of its referent.
impl<T: Observable> Observable for Arc<T> {
    type Observed = T::Observed;

    open spec fn observed(&self) -> T::Observed {
        (**self).observed()
    }
}

impl<T: Observable + ?Sized> Observable for Box<T> {
    type Observed = T::Observed;

    open spec fn observed(&self) -> T::Observed {
        (**self).observed()
    }
}

impl<T: Observable> Observable for [T] {
    type Observed = Seq<T::Observed>;

    open spec fn observed(&self) -> Seq<T::Observed> {
        self@.map_values(|t: T| t.observed())
    }
}

impl<T: Observable> Observable for core::mem::ManuallyDrop<T> {
    type Observed = T::Observed;

    open spec fn observed(&self) -> T::Observed {
        self@.observed()
    }
}

impl<T: Observable> Observable for Vec<T> {
    type Observed = Seq<T::Observed>;

    open spec fn observed(&self) -> Seq<T::Observed> {
        self@.map_values(|t: T| t.observed())
    }
}

impl<T: Observable> Observable for std::collections::VecDeque<T> {
    type Observed = Seq<T::Observed>;

    open spec fn observed(&self) -> Seq<T::Observed> {
        self@.map_values(|t: T| t.observed())
    }
}

impl<T1: Observable> Observable for (T1,) {
    type Observed = (T1::Observed,);

    open spec fn observed(&self) -> (T1::Observed,) {
        (self.0.observed(),)
    }
}

impl<T1: Observable, T2: Observable> Observable for (T1, T2) {
    type Observed = (T1::Observed, T2::Observed);

    open spec fn observed(&self) -> (T1::Observed, T2::Observed) {
        (self.0.observed(), self.1.observed())
    }
}

impl<T1: Observable, T2: Observable, T3: Observable> Observable for (T1, T2, T3) {
    type Observed = (T1::Observed, T2::Observed, T3::Observed);

    open spec fn observed(&self) -> (T1::Observed, T2::Observed, T3::Observed) {
        (self.0.observed(), self.1.observed(), self.2.observed())
    }
}

impl<T1: Observable, T2: Observable, T3: Observable, T4: Observable> Observable for (T1, T2, T3, T4) {
    type Observed = (T1::Observed, T2::Observed, T3::Observed, T4::Observed);

    open spec fn observed(&self) -> (T1::Observed, T2::Observed, T3::Observed, T4::Observed) {
        (self.0.observed(), self.1.observed(), self.2.observed(), self.3.observed())
    }
}

impl<T1: Observable, T2: Observable, T3: Observable, T4: Observable, T5: Observable> Observable for (T1, T2, T3, T4, T5) {
    type Observed = (T1::Observed, T2::Observed, T3::Observed, T4::Observed, T5::Observed);

    open spec fn observed(&self) -> (T1::Observed, T2::Observed, T3::Observed, T4::Observed, T5::Observed) {
        (self.0.observed(), self.1.observed(), self.2.observed(), self.3.observed(), self.4.observed())
    }
}

impl<T1: Observable, T2: Observable, T3: Observable, T4: Observable, T5: Observable, T6: Observable> Observable for (T1, T2, T3, T4, T5, T6) {
    type Observed = (T1::Observed, T2::Observed, T3::Observed, T4::Observed, T5::Observed, T6::Observed);

    open spec fn observed(&self) -> (T1::Observed, T2::Observed, T3::Observed, T4::Observed, T5::Observed, T6::Observed) {
        (self.0.observed(), self.1.observed(), self.2.observed(), self.3.observed(), self.4.observed(), self.5.observed())
    }
}

impl<T1: Observable, T2: Observable, T3: Observable, T4: Observable, T5: Observable, T6: Observable, T7: Observable> Observable for (T1, T2, T3, T4, T5, T6, T7) {
    type Observed = (T1::Observed, T2::Observed, T3::Observed, T4::Observed, T5::Observed, T6::Observed, T7::Observed);

    open spec fn observed(&self) -> (T1::Observed, T2::Observed, T3::Observed, T4::Observed, T5::Observed, T6::Observed, T7::Observed) {
        (self.0.observed(), self.1.observed(), self.2.observed(), self.3.observed(), self.4.observed(), self.5.observed(), self.6.observed())
    }
}

impl<T1: Observable, T2: Observable, T3: Observable, T4: Observable, T5: Observable, T6: Observable, T7: Observable, T8: Observable> Observable for (T1, T2, T3, T4, T5, T6, T7, T8) {
    type Observed = (T1::Observed, T2::Observed, T3::Observed, T4::Observed, T5::Observed, T6::Observed, T7::Observed, T8::Observed);

    open spec fn observed(&self) -> (T1::Observed, T2::Observed, T3::Observed, T4::Observed, T5::Observed, T6::Observed, T7::Observed, T8::Observed) {
        (self.0.observed(), self.1.observed(), self.2.observed(), self.3.observed(), self.4.observed(), self.5.observed(), self.6.observed(), self.7.observed())
    }
}

impl<T1: Observable, T2: Observable, T3: Observable, T4: Observable, T5: Observable, T6: Observable, T7: Observable, T8: Observable, T9: Observable> Observable for (T1, T2, T3, T4, T5, T6, T7, T8, T9) {
    type Observed = (T1::Observed, T2::Observed, T3::Observed, T4::Observed, T5::Observed, T6::Observed, T7::Observed, T8::Observed, T9::Observed);

    open spec fn observed(&self) -> (T1::Observed, T2::Observed, T3::Observed, T4::Observed, T5::Observed, T6::Observed, T7::Observed, T8::Observed, T9::Observed) {
        (self.0.observed(), self.1.observed(), self.2.observed(), self.3.observed(), self.4.observed(), self.5.observed(), self.6.observed(), self.7.observed(), self.8.observed())
    }
}

impl<T1: Observable, T2: Observable, T3: Observable, T4: Observable, T5: Observable, T6: Observable, T7: Observable, T8: Observable, T9: Observable, T10: Observable> Observable for (T1, T2, T3, T4, T5, T6, T7, T8, T9, T10) {
    type Observed = (T1::Observed, T2::Observed, T3::Observed, T4::Observed, T5::Observed, T6::Observed, T7::Observed, T8::Observed, T9::Observed, T10::Observed);

    open spec fn observed(&self) -> (T1::Observed, T2::Observed, T3::Observed, T4::Observed, T5::Observed, T6::Observed, T7::Observed, T8::Observed, T9::Observed, T10::Observed) {
        (self.0.observed(), self.1.observed(), self.2.observed(), self.3.observed(), self.4.observed(), self.5.observed(), self.6.observed(), self.7.observed(), self.8.observed(), self.9.observed())
    }
}

impl<T1: Observable, T2: Observable, T3: Observable, T4: Observable, T5: Observable, T6: Observable, T7: Observable, T8: Observable, T9: Observable, T10: Observable, T11: Observable> Observable for (T1, T2, T3, T4, T5, T6, T7, T8, T9, T10, T11) {
    type Observed = (T1::Observed, T2::Observed, T3::Observed, T4::Observed, T5::Observed, T6::Observed, T7::Observed, T8::Observed, T9::Observed, T10::Observed, T11::Observed);

    open spec fn observed(&self) -> (T1::Observed, T2::Observed, T3::Observed, T4::Observed, T5::Observed, T6::Observed, T7::Observed, T8::Observed, T9::Observed, T10::Observed, T11::Observed) {
        (self.0.observed(), self.1.observed(), self.2.observed(), self.3.observed(), self.4.observed(), self.5.observed(), self.6.observed(), self.7.observed(), self.8.observed(), self.9.observed(), self.10.observed())
    }
}

impl<T1: Observable, T2: Observable, T3: Observable, T4: Observable, T5: Observable, T6: Observable, T7: Observable, T8: Observable, T9: Observable, T10: Observable, T11: Observable, T12: Observable> Observable for (T1, T2, T3, T4, T5, T6, T7, T8, T9, T10, T11, T12) {
    type Observed = (T1::Observed, T2::Observed, T3::Observed, T4::Observed, T5::Observed, T6::Observed, T7::Observed, T8::Observed, T9::Observed, T10::Observed, T11::Observed, T12::Observed);

    open spec fn observed(&self) -> (T1::Observed, T2::Observed, T3::Observed, T4::Observed, T5::Observed, T6::Observed, T7::Observed, T8::Observed, T9::Observed, T10::Observed, T11::Observed, T12::Observed) {
        (self.0.observed(), self.1.observed(), self.2.observed(), self.3.observed(), self.4.observed(), self.5.observed(), self.6.observed(), self.7.observed(), self.8.observed(), self.9.observed(), self.10.observed(), self.11.observed())
    }
}

/// The view of a hash-keyed map is meaningful only under key-model
/// assumptions that an unconditional contract cannot carry, so its contents
/// are not part of the observed state.
impl<K, V, S> Observable for std::collections::HashMap<K, V, S> {
    type Observed = ();

    open spec fn observed(&self) -> () {
        ()
    }
}

/// See the note on the hash-keyed map implementation.
impl<K, S> Observable for std::collections::HashSet<K, S> {
    type Observed = ();

    open spec fn observed(&self) -> () {
        ()
    }
}

/// The view of an ordered map is meaningful only under comparison-model
/// assumptions that an unconditional contract cannot carry, so its contents
/// are not part of the observed state.
impl<K, V> Observable for std::collections::BTreeMap<K, V> {
    type Observed = ();

    open spec fn observed(&self) -> () {
        ()
    }
}

/// See the note on the ordered map implementation.
impl<K> Observable for std::collections::BTreeSet<K> {
    type Observed = ();

    open spec fn observed(&self) -> () {
        ()
    }
}

impl Observable for core::alloc::Layout {
    type Observed = core::alloc::Layout;

    open spec fn observed(&self) -> core::alloc::Layout {
        *self
    }
}

impl Observable for core::any::TypeId {
    type Observed = core::any::TypeId;

    open spec fn observed(&self) -> core::any::TypeId {
        *self
    }
}

impl Observable for core::convert::Infallible {
    type Observed = core::convert::Infallible;

    open spec fn observed(&self) -> core::convert::Infallible {
        *self
    }
}

impl Observable for core::ops::RangeFull {
    type Observed = ();

    open spec fn observed(&self) -> () {
        ()
    }
}

impl Observable for core::marker::PhantomPinned {
    type Observed = ();

    open spec fn observed(&self) -> () {
        ()
    }
}

impl Observable for std::time::Instant {
    type Observed = std::time::Instant;

    open spec fn observed(&self) -> std::time::Instant {
        *self
    }
}

/// An owned or borrowed string slice observes its characters.
impl Observable for str {
    type Observed = Seq<char>;

    open spec fn observed(&self) -> Seq<char> {
        self@
    }
}

impl<T> Observable for core::mem::Discriminant<T> {
    type Observed = core::mem::Discriminant<T>;

    open spec fn observed(&self) -> core::mem::Discriminant<T> {
        *self
    }
}

/// An empty iterator has no state at all.
impl<T> Observable for core::iter::Empty<T> {
    type Observed = ();

    open spec fn observed(&self) -> () {
        ()
    }
}

impl<T: Observable, const N: usize> Observable for [T; N] {
    type Observed = Seq<T::Observed>;

    open spec fn observed(&self) -> Seq<T::Observed> {
        self@.map_values(|t: T| t.observed())
    }
}

} // verus!
