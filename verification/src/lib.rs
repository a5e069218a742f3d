//! Capability traits that classify clone operations along two axes: the
//! semantic relationship between a clone and its source (independent,
//! mirrored, or mixed), and an upper bound on the cost of producing the
//! clone (near-instant, constant-time, logarithmic-time, or unconstrained).
//!
//! Generic code can demand "a clone no slower than `S`, with semantics `Σ`"
//! as a compile-time-checked capability, instead of relying on a single
//! undifferentiated `Clone` whose cost and sharing behavior are unknown.
//!
//! Coverage notes. Lock and guarded-borrow types (mutexes, reader-writer
//! locks, borrow-checked cells) carry no clone implementations here: their
//! clone operations' fatal paths — lock poisoning, reentrant borrows —
//! cannot be ruled out by any precondition, and this library's verified
//! operations never fail. Also absent, because the verifier cannot
//! currently model them: floating-point scalars, raw-pointer types,
//! non-zero integer wrappers, function pointers, and the linked-list and
//! binary-heap collections.

mod blanket_impls;
mod independent;
mod laws;
mod mirrored;
mod mixed;
mod observed;
mod pinned;
mod sealed;
mod speed;
mod std_contracts;
mod weak;

pub use self::blanket_impls::NonRecursive;
pub use self::independent::{IndependentClone, hash_model_holds, cmp_model_holds, exact_clones};
pub use self::laws::{
    independent_promotion_observes_alike, mirrored_promotion_observes_alike,
    pair_clone_observes_componentwise, componentwise_clones_observe_pair,
    option_clone_passes_through, result_clone_passes_through, scalars_clone_exactly,
};
pub use self::mirrored::MirroredClone;
pub use self::mixed::MixedClone;
pub use self::observed::Observable;
pub use self::pinned::{PinnedRc, PinnedArc, PinnedSlice, PinnedStr};
pub use self::speed::{Speed, ConstantOrSlower, NearInstant, ConstantTime, LogTime, AnySpeed};
pub use self::weak::{RcWeak, ArcWeak};
