use vstd::prelude::*;
use crate::speed::{Speed, NearInstant};

verus! {

/// Get clones that could share some but not all semantically-important
/// mutable state.
///
/// This marker is useful for cases where a user needs to check documentation
/// to figure out what happens. Because no semantic guarantee is made beyond
/// "produces a same-typed value", the operation carries no contract; exact
/// behavior is documented per implementation.
///
/// It is not *strictly* necessary that the clone function doesn't behave
/// like [`IndependentClone::independent_clone`] or
/// [`MirroredClone::mirrored_clone`], but this trait is not a catch-all for
/// "some sort of clone, maybe also implements [`IndependentClone`] or
/// [`MirroredClone`]".
///
/// [`IndependentClone`]: crate::IndependentClone
/// [`IndependentClone::independent_clone`]: crate::IndependentClone::independent_clone
/// [`MirroredClone`]: crate::MirroredClone
/// [`MirroredClone::mirrored_clone`]: crate::MirroredClone::mirrored_clone
pub trait MixedClone<S: Speed>: Sized {
    /// Get a clone that could share some but not all semantically-important
    /// mutable state, at a cost bounded by the speed tier `S`.
    ///
    /// Exact behavior is very implementation-dependent.
    #[must_use]
    fn mixed_clone(&self) -> Self;
}

/// A copied shared reference aliases the same referent: immutable data is
/// fully shared, while any interior-mutable state the referent carries is
/// shared as well, so neither pure guarantee applies in general.
impl<'a, T: ?Sized> MixedClone<NearInstant> for &'a T {
    fn mixed_clone(&self) -> Self {
        *self
    }
}

/// A clone-on-write string: cloning a borrowed variant shares the borrowed
/// data, while cloning an owned variant deep-clones it, so the sharing
/// depends on the variant at hand — exactly what the contract states, at
/// every tier. Only string borrow targets are covered: an arbitrary borrow
/// target's owned clone runs code of which nothing can be soundly assumed.
/// The bound asks that the borrowed form itself be mixed-clonable at the
/// tier, which every tier satisfies.
impl<'a, S: Speed> MixedClone<S> for std::borrow::Cow<'a, str> where &'a str: MixedClone<S> {
    fn mixed_clone(&self) -> (r: Self)
        ensures
            (match *self {
                std::borrow::Cow::Borrowed(b) => r matches std::borrow::Cow::Borrowed(b2)
                    && b2 == b,
                std::borrow::Cow::Owned(o) => r matches std::borrow::Cow::Owned(o2)
                    && o2@ == o@,
            }),
    {
        crate::std_contracts::clone_cow_str(self)
    }
}

/// A fresh atomic cell is constructed around a single relaxed load of the
/// source. The two cells then hold the same address, so the pointed-to data
/// (if any) is shared while the cells themselves are not: neither pure
/// guarantee applies.
impl<T> MixedClone<NearInstant> for core::sync::atomic::AtomicPtr<T> {
    fn mixed_clone(&self) -> Self {
        crate::std_contracts::clone_atomic_ptr(self)
    }
}

} // verus!
