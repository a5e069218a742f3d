use vstd::prelude::*;
use crate::sealed::Sealed;

verus! {

/// Trait for indicating the overhead and/or time complexity of a cloning
/// operation.
///
/// Exactly four tiers implement this trait, in a fixed total order from
/// fastest to least constrained:
/// [`NearInstant`] < [`ConstantTime`] < [`LogTime`] < [`AnySpeed`].
/// The trait is sealed, so external code cannot add a fifth tier.
pub trait Speed: Sealed {}

/// Indicates that a cloning operation is:
/// - constant time
/// - nonblocking (atomic operations may be fine, but acquiring a lock is not)
/// - at most the overhead of a few atomic operations
/// - generally, deserving of being called near-instant in speed.
///
/// The tier tags are never constructed — nothing in this crate makes one
/// either — and the private field keeps external code from instantiating
/// them. (A variantless datatype would say this by type alone, but the
/// verifier requires every datatype to have a constructible variant.)
pub struct NearInstant {
    _tag: (),
}

/// Indicates that a cloning operation is constant-time, but might involve
/// acquiring a lock or performing some computations that aren't
/// [`NearInstant`].
pub struct ConstantTime {
    _tag: (),
}

/// Indicates that a cloning operation operates in logarithmic time or faster.
pub struct LogTime {
    _tag: (),
}

/// Places no constraint on the overhead or time complexity of a cloning
/// operation.
pub struct AnySpeed {
    _tag: (),
}

/// The speed tiers that allow more than a bounded handful of atomic
/// operations: [`ConstantTime`], [`LogTime`], and [`AnySpeed`].
///
/// Composite types (tuples, arrays, optional and fallible wrappers, and
/// the like) implement the clone capabilities at exactly these tiers: an
/// element-wise clone of several elements is not near-instant, but it is
/// honest at every tier from constant-time down, provided every element can
/// be cloned at that same tier. This trait is sealed along with [`Speed`].
pub trait ConstantOrSlower: Speed {}

impl ConstantOrSlower for ConstantTime {}

impl ConstantOrSlower for LogTime {}

impl ConstantOrSlower for AnySpeed {}

impl Speed for NearInstant {}

impl Speed for ConstantTime {}

impl Speed for LogTime {}

impl Speed for AnySpeed {}

impl Sealed for NearInstant {}

impl Sealed for ConstantTime {}

impl Sealed for LogTime {}

impl Sealed for AnySpeed {}

} // verus!
