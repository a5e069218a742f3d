use vstd::prelude::*;
use std::rc::Rc;
use std::sync::Arc;
use crate::observed::Observable;
use crate::speed::{Speed, ConstantOrSlower};
use crate::independent::IndependentClone;
use crate::mirrored::MirroredClone;

verus! {

/// The standard library's weak counterpart to [`Rc`], held opaquely: its
/// allocator parameter keeps it out of verified signatures, so it is
/// reached only through the [`RcWeak`] methods.
#[verifier::external_body]
#[verifier::reject_recursive_types(T)]
struct RcWeakInner<T> {
    handle: std::rc::Weak<T>,
}

/// A weak counterpart to [`Rc`]: a non-owning handle that does not keep its
/// referent alive, so resolving it fails once every strong handle is gone.
///
/// Beside the handle sits one ghost bit, [`known_unresolvable`]: whether the
/// handle is known, from the way it was constructed, to have no referent.
/// When the bit is set, resolution always fails; when it is clear, nothing
/// is known — whether a handle born with a referent still resolves is
/// runtime state that no pure abstraction tracks. The bit is the handle's
/// whole observed state, so the clone contracts preserve it.
///
/// [`known_unresolvable`]: Self::known_unresolvable
#[verifier::reject_recursive_types(T)]
pub struct RcWeak<T> {
    inner: RcWeakInner<T>,
    known_unresolvable: Ghost<bool>,
}

impl<T> RcWeak<T> {
    /// Whether this handle is known, from its construction, to have no
    /// referent; such a handle can never be resolved.
    pub closed spec fn known_unresolvable(&self) -> bool {
        self.known_unresolvable@
    }

    /// Relies on `rc::Weak::new`: a handle with no referent, which can
    /// never be resolved.
    #[verifier::external_body]
    pub fn unresolvable() -> (r: Self)
        ensures
            r.known_unresolvable(),
    {
        RcWeak {
            inner: RcWeakInner { handle: std::rc::Weak::new() },
            known_unresolvable: Ghost(true),
        }
    }

    /// Relies on `rc::Weak::new`: a fresh handle with no referent, carrying
    /// the source's knowledge bit. Sound whatever that bit is: the bit only
    /// ever promises that resolution fails, which holds of every
    /// referent-less handle.
    #[verifier::external_body]
    fn degraded_like(&self) -> (r: Self)
        ensures
            r.known_unresolvable() == self.known_unresolvable(),
    {
        RcWeak {
            inner: RcWeakInner { handle: std::rc::Weak::new() },
            known_unresolvable: Ghost(self.known_unresolvable()),
        }
    }

    /// Relies on `Rc::downgrade`: a weak handle to the given allocation,
    /// which is alive at least as long as the given strong handle.
    #[verifier::external_body]
    pub fn downgrade(strong: &Rc<T>) -> (r: Self)
        ensures
            !r.known_unresolvable(),
    {
        RcWeak {
            inner: RcWeakInner { handle: Rc::downgrade(strong) },
            known_unresolvable: Ghost(false),
        }
    }

    /// Relies on `rc::Weak::upgrade`: a strong handle if the referent is
    /// still alive; a handle known to have no referent never resolves.
    /// Liveness of anything else is runtime state, so no more is assumed.
    #[verifier::external_body]
    pub fn upgrade(&self) -> (r: Option<Rc<T>>)
        ensures
            self.known_unresolvable() ==> r is None,
    {
        self.inner.handle.upgrade()
    }

    /// Relies on `rc::Weak::clone`: a second handle to the same referent
    /// (or to the same absence of one).
    #[verifier::external_body]
    fn clone_handle(&self) -> (r: Self)
        ensures
            r.known_unresolvable() == self.known_unresolvable(),
    {
        RcWeak {
            inner: RcWeakInner { handle: self.inner.handle.clone() },
            known_unresolvable: Ghost(self.known_unresolvable()),
        }
    }
}

/// The one piece of a weak handle's state that a pure abstraction can
/// track: whether it is known to be unresolvable. Which allocation it
/// points at — and whether that allocation is still alive — is runtime
/// state outside the abstraction.
impl<T> Observable for RcWeak<T> {
    type Observed = bool;

    open spec fn observed(&self) -> bool {
        self.known_unresolvable()
    }
}

/// If the referent is still alive, the clone is a weak handle to a fresh,
/// independently-allocated deep clone of it — a handle that no strong handle
/// keeps alive, so it has already degraded by the time it is returned. If
/// the referent is gone, the clone is a fresh, equally-unresolvable handle.
/// Degrading is defined behavior, never a failure, and by the trait
/// contract a handle known to be unresolvable clones to a handle known to
/// be unresolvable. That the clone's referent (when one is made) sits in a
/// fresh allocation is a per-implementation obligation: allocation identity
/// has no place in the pure model, so no contract can carry it.
impl<S: ConstantOrSlower, T: IndependentClone<S>> IndependentClone<S> for RcWeak<T> {
    fn independent_clone(&self) -> (r: Self) {
        match self.upgrade() {
            Some(strong) => RcWeak::downgrade(&Rc::new((*strong).independent_clone())),
            None => self.degraded_like(),
        }
    }
}

/// The clone is a second weak handle to the same allocation, so both resolve
/// (or fail to resolve) together; by the trait contract it carries the same
/// knowledge bit as its source.
impl<S: Speed, T> MirroredClone<S> for RcWeak<T> {
    fn mirrored_clone(&self) -> (r: Self) {
        self.clone_handle()
    }
}

/// The standard library's weak counterpart to [`Arc`], held opaquely; see
/// [`RcWeakInner`].
#[verifier::external_body]
#[verifier::reject_recursive_types(T)]
struct ArcWeakInner<T> {
    handle: std::sync::Weak<T>,
}

/// A weak counterpart to [`Arc`]; see [`RcWeak`].
#[verifier::reject_recursive_types(T)]
pub struct ArcWeak<T> {
    inner: ArcWeakInner<T>,
    known_unresolvable: Ghost<bool>,
}

impl<T> ArcWeak<T> {
    /// Whether this handle is known, from its construction, to have no
    /// referent; such a handle can never be resolved.
    pub closed spec fn known_unresolvable(&self) -> bool {
        self.known_unresolvable@
    }

    /// Relies on `sync::Weak::new`: a handle with no referent, which can
    /// never be resolved.
    #[verifier::external_body]
    pub fn unresolvable() -> (r: Self)
        ensures
            r.known_unresolvable(),
    {
        ArcWeak {
            inner: ArcWeakInner { handle: std::sync::Weak::new() },
            known_unresolvable: Ghost(true),
        }
    }

    /// Relies on `sync::Weak::new`; see the note on the `RcWeak`
    /// counterpart.
    #[verifier::external_body]
    fn degraded_like(&self) -> (r: Self)
        ensures
            r.known_unresolvable() == self.known_unresolvable(),
    {
        ArcWeak {
            inner: ArcWeakInner { handle: std::sync::Weak::new() },
            known_unresolvable: Ghost(self.known_unresolvable()),
        }
    }

    /// Relies on `Arc::downgrade`: a weak handle to the given allocation,
    /// which is alive at least as long as the given strong handle.
    #[verifier::external_body]
    pub fn downgrade(strong: &Arc<T>) -> (r: Self)
        ensures
            !r.known_unresolvable(),
    {
        ArcWeak {
            inner: ArcWeakInner { handle: Arc::downgrade(strong) },
            known_unresolvable: Ghost(false),
        }
    }

    /// Relies on `sync::Weak::upgrade`: a strong handle if the referent is
    /// still alive; a handle known to have no referent never resolves.
    /// Liveness of anything else is runtime state, so no more is assumed.
    #[verifier::external_body]
    pub fn upgrade(&self) -> (r: Option<Arc<T>>)
        ensures
            self.known_unresolvable() ==> r is None,
    {
        self.inner.handle.upgrade()
    }

    /// Relies on `sync::Weak::clone`: a second handle to the same referent
    /// (or to the same absence of one).
    #[verifier::external_body]
    fn clone_handle(&self) -> (r: Self)
        ensures
            r.known_unresolvable() == self.known_unresolvable(),
    {
        ArcWeak {
            inner: ArcWeakInner { handle: self.inner.handle.clone() },
            known_unresolvable: Ghost(self.known_unresolvable()),
        }
    }
}

/// See the note on the [`RcWeak`] implementation.
impl<T> Observable for ArcWeak<T> {
    type Observed = bool;

    open spec fn observed(&self) -> bool {
        self.known_unresolvable()
    }
}

/// See the note on the [`RcWeak`] implementation: a live referent is deeply
/// cloned (into a handle that has already degraded); a dead one degrades to
/// a fresh, equally-unresolvable handle — never a failure — and the trait
/// contract preserves the knowledge bit. As with the `RcWeak` counterpart,
/// the freshness of the clone's referent allocation is a per-implementation
/// obligation that the pure model cannot carry.
impl<S: ConstantOrSlower, T: IndependentClone<S>> IndependentClone<S> for ArcWeak<T> {
    fn independent_clone(&self) -> (r: Self) {
        match self.upgrade() {
            Some(strong) => ArcWeak::downgrade(&Arc::new((*strong).independent_clone())),
            None => self.degraded_like(),
        }
    }
}

/// The clone is a second weak handle to the same allocation, so both resolve
/// (or fail to resolve) together; by the trait contract it carries the same
/// knowledge bit as its source.
impl<S: Speed, T> MirroredClone<S> for ArcWeak<T> {
    fn mirrored_clone(&self) -> (r: Self) {
        self.clone_handle()
    }
}

} // verus!
