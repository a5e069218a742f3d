use vstd::prelude::*;
use std::rc::Rc;
use std::sync::Arc;
use crate::observed::Observable;
use crate::speed::{Speed, ConstantOrSlower, AnySpeed};
use crate::independent::IndependentClone;
use crate::mirrored::MirroredClone;

verus! {

/// A pinned reference-counted handle, held opaquely: the pinning wrapper
/// cannot be looked into, so it is reached only through the [`PinnedRc`]
/// methods.
#[verifier::external_body]
#[verifier::reject_recursive_types(T)]
struct PinnedRcInner<T> {
    handle: core::pin::Pin<Rc<T>>,
}

/// A value pinned behind a reference-counted handle.
///
/// Beside the handle sits a ghost copy of the pinned value, taken when the
/// allocation is pinned. The pinned value never changes as an abstract
/// value (the handle hands out only shared references), so the copy is the
/// handle's faithful model, and [`pinned_ref`] ties every read to it.
///
/// [`pinned_ref`]: Self::pinned_ref
#[verifier::reject_recursive_types(T)]
pub struct PinnedRc<T> {
    inner: PinnedRcInner<T>,
    value: Ghost<T>,
}

impl<T> PinnedRc<T> {
    /// The pinned value, as an abstract value.
    pub closed spec fn pinned_value(&self) -> T {
        self.value@
    }

    /// Relies on `Rc::pin`: pins the given value in a fresh
    /// reference-counted allocation.
    #[verifier::external_body]
    pub fn pin_value(value: T) -> (r: Self)
        ensures
            r.pinned_value() == value,
    {
        let snapshot: Ghost<T> = Ghost(value);
        PinnedRc { inner: PinnedRcInner { handle: Rc::pin(value) }, value: snapshot }
    }

    /// Relies on the `Deref` implementation of the pinned handle: a shared
    /// reference to the pinned value.
    #[verifier::external_body]
    pub fn pinned_ref(&self) -> (r: &T)
        ensures
            *r == self.pinned_value(),
    {
        &*self.inner.handle
    }

    /// Relies on `Pin<Rc<_>>::clone`: a second pinned handle to the same
    /// allocation, holding the same value.
    #[verifier::external_body]
    fn clone_handle(&self) -> (r: Self)
        ensures
            r.pinned_value() == self.pinned_value(),
    {
        PinnedRc {
            inner: PinnedRcInner { handle: self.inner.handle.clone() },
            value: Ghost(self.pinned_value()),
        }
    }
}

/// A pinned handle observes the state of its pinned value.
impl<T: Observable> Observable for PinnedRc<T> {
    type Observed = T::Observed;

    open spec fn observed(&self) -> T::Observed {
        self.pinned_value().observed()
    }
}

/// The clone pins a fresh, independently-allocated deep clone of the pinned
/// value; the contract passes the element operation's guarantee through.
impl<S: ConstantOrSlower, T: IndependentClone<S>> IndependentClone<S> for PinnedRc<T> {
    fn independent_clone(&self) -> (r: Self)
        ensures
            call_ensures(
                <T as IndependentClone<S>>::independent_clone,
                (&self.pinned_value(),),
                r.pinned_value(),
            ),
    {
        PinnedRc::pin_value(self.pinned_ref().independent_clone())
    }
}

/// The clone is a second pinned handle to the same allocation, holding the
/// very same value.
impl<S: Speed, T: Observable> MirroredClone<S> for PinnedRc<T> {
    fn mirrored_clone(&self) -> (r: Self) {
        self.clone_handle()
    }
}

/// A pinned atomically-reference-counted handle, held opaquely; see
/// [`PinnedRcInner`].
#[verifier::external_body]
#[verifier::reject_recursive_types(T)]
struct PinnedArcInner<T> {
    handle: core::pin::Pin<Arc<T>>,
}

/// A value pinned behind an atomically-reference-counted handle; see
/// [`PinnedRc`].
#[verifier::reject_recursive_types(T)]
pub struct PinnedArc<T> {
    inner: PinnedArcInner<T>,
    value: Ghost<T>,
}

impl<T> PinnedArc<T> {
    /// The pinned value, as an abstract value.
    pub closed spec fn pinned_value(&self) -> T {
        self.value@
    }

    /// Relies on `Arc::pin`: pins the given value in a fresh
    /// reference-counted allocation.
    #[verifier::external_body]
    pub fn pin_value(value: T) -> (r: Self)
        ensures
            r.pinned_value() == value,
    {
        let snapshot: Ghost<T> = Ghost(value);
        PinnedArc { inner: PinnedArcInner { handle: Arc::pin(value) }, value: snapshot }
    }

    /// Relies on the `Deref` implementation of the pinned handle: a shared
    /// reference to the pinned value.
    #[verifier::external_body]
    pub fn pinned_ref(&self) -> (r: &T)
        ensures
            *r == self.pinned_value(),
    {
        &*self.inner.handle
    }

    /// Relies on `Pin<Arc<_>>::clone`: a second pinned handle to the same
    /// allocation, holding the same value.
    #[verifier::external_body]
    fn clone_handle(&self) -> (r: Self)
        ensures
            r.pinned_value() == self.pinned_value(),
    {
        PinnedArc {
            inner: PinnedArcInner { handle: self.inner.handle.clone() },
            value: Ghost(self.pinned_value()),
        }
    }
}

/// A pinned handle observes the state of its pinned value.
impl<T: Observable> Observable for PinnedArc<T> {
    type Observed = T::Observed;

    open spec fn observed(&self) -> T::Observed {
        self.pinned_value().observed()
    }
}

/// The clone pins a fresh, independently-allocated deep clone of the pinned
/// value; the contract passes the element operation's guarantee through.
impl<S: ConstantOrSlower, T: IndependentClone<S>> IndependentClone<S> for PinnedArc<T> {
    fn independent_clone(&self) -> (r: Self)
        ensures
            call_ensures(
                <T as IndependentClone<S>>::independent_clone,
                (&self.pinned_value(),),
                r.pinned_value(),
            ),
    {
        PinnedArc::pin_value(self.pinned_ref().independent_clone())
    }
}

/// The clone is a second pinned handle to the same allocation, holding the
/// very same value.
impl<S: Speed, T: Observable> MirroredClone<S> for PinnedArc<T> {
    fn mirrored_clone(&self) -> (r: Self) {
        self.clone_handle()
    }
}

/// A pinned boxed slice, held opaquely; see [`PinnedRcInner`].
#[verifier::external_body]
#[verifier::reject_recursive_types(T)]
struct PinnedSliceInner<T> {
    handle: core::pin::Pin<Box<[T]>>,
}

/// A slice of values pinned in place behind a box; see [`PinnedRc`] for the
/// ghost model.
#[verifier::reject_recursive_types(T)]
pub struct PinnedSlice<T> {
    inner: PinnedSliceInner<T>,
    elements: Ghost<Seq<T>>,
}

impl<T> PinnedSlice<T> {
    /// The pinned elements, in order, as abstract values.
    pub closed spec fn pinned_elements(&self) -> Seq<T> {
        self.elements@
    }

    /// Relies on `Vec::into_boxed_slice` and `Box::into_pin`: pins the given
    /// elements in place, in order and without change.
    #[verifier::external_body]
    pub fn pin_elements(elements: Vec<T>) -> (r: Self)
        ensures
            r.pinned_elements() == elements@,
    {
        let snapshot: Ghost<Seq<T>> = Ghost(elements@);
        PinnedSlice {
            inner: PinnedSliceInner { handle: Box::into_pin(elements.into_boxed_slice()) },
            elements: snapshot,
        }
    }

    /// Relies on the `Deref` implementation of the pinned handle: a shared
    /// reference to the pinned elements.
    #[verifier::external_body]
    pub fn elements_ref(&self) -> (r: &[T])
        ensures
            r@ == self.pinned_elements(),
    {
        &*self.inner.handle
    }
}

/// A pinned slice observes the states of its elements, in order.
impl<T: Observable> Observable for PinnedSlice<T> {
    type Observed = Seq<T::Observed>;

    open spec fn observed(&self) -> Seq<T::Observed> {
        self.pinned_elements().map_values(|t: T| t.observed())
    }
}

/// Every element is independently cloned, in order, into a fresh pinned
/// slice; as with other whole-collection rebuilds, only the unconstrained
/// tier is claimed.
impl<T: IndependentClone<AnySpeed>> IndependentClone<AnySpeed> for PinnedSlice<T> {
    fn independent_clone(&self) -> (r: Self)
        ensures
            r.pinned_elements().len() == self.pinned_elements().len(),
            forall|j: int|
                #![trigger r.pinned_elements()[j]]
                0 <= j < self.pinned_elements().len() ==> call_ensures(
                    <T as IndependentClone<AnySpeed>>::independent_clone,
                    (&self.pinned_elements()[j],),
                    r.pinned_elements()[j],
                ),
    {
        let elements: &[T] = self.elements_ref();
        let mut cloned_elements: Vec<T> = Vec::new();
        let mut i: usize = 0;
        while i < elements.len()
            invariant
                elements@ == self.pinned_elements(),
                i <= elements@.len(),
                cloned_elements@.len() == i,
                forall|j: int|
                    #![trigger cloned_elements@[j]]
                    0 <= j < i ==> call_ensures(
                        <T as IndependentClone<AnySpeed>>::independent_clone,
                        (&elements@[j],),
                        cloned_elements@[j],
                    ),
                forall|j: int|
                    0 <= j < i ==> cloned_elements@[j].observed() == elements@[j].observed(),
            decreases elements@.len() - i,
        {
            cloned_elements.push(vstd::slice::slice_index_get(elements, i).independent_clone());
            i = i + 1;
        }
        let r = PinnedSlice::pin_elements(cloned_elements);
        proof {
            assert(r.observed() =~= self.observed());
        }
        r
    }
}

/// A pinned boxed string, held opaquely; see [`PinnedRcInner`].
#[verifier::external_body]
struct PinnedStrInner {
    handle: core::pin::Pin<Box<str>>,
}

/// A string pinned in place behind a box; see [`PinnedRc`] for the ghost
/// model.
pub struct PinnedStr {
    inner: PinnedStrInner,
    chars: Ghost<Seq<char>>,
}

impl PinnedStr {
    /// The pinned characters, in order.
    pub closed spec fn pinned_chars(&self) -> Seq<char> {
        self.chars@
    }

    /// Relies on `Box::into_pin`: pins the given boxed string in place,
    /// keeping its characters.
    #[verifier::external_body]
    pub fn pin_string(text: Box<str>) -> (r: Self)
        ensures
            r.pinned_chars() == text@,
    {
        let snapshot: Ghost<Seq<char>> = Ghost(text@);
        PinnedStr { inner: PinnedStrInner { handle: Box::into_pin(text) }, chars: snapshot }
    }

    /// Relies on the `Deref` implementation of the pinned handle: a shared
    /// reference to the pinned characters.
    #[verifier::external_body]
    pub fn str_ref(&self) -> (r: &str)
        ensures
            r@ == self.pinned_chars(),
    {
        &*self.inner.handle
    }

    /// Relies on `Pin<Box<str>>::clone`: a fresh pinned allocation holding
    /// exactly the same characters.
    #[verifier::external_body]
    fn clone_pinned_chars(&self) -> (r: Self)
        ensures
            r.pinned_chars() == self.pinned_chars(),
    {
        PinnedStr { inner: PinnedStrInner { handle: self.inner.handle.clone() }, chars: Ghost(
            self.pinned_chars(),
        ) }
    }
}

/// A pinned string observes its characters.
impl Observable for PinnedStr {
    type Observed = Seq<char>;

    open spec fn observed(&self) -> Seq<char> {
        self.pinned_chars()
    }
}

/// The characters are copied into a fresh pinned allocation; rebuilding the
/// whole string is claimed only at the unconstrained tier.
impl IndependentClone<AnySpeed> for PinnedStr {
    fn independent_clone(&self) -> (r: Self) {
        self.clone_pinned_chars()
    }
}

} // verus!
