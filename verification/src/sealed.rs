use vstd::prelude::*;

verus! {

/// Supertrait that closes the set of speed tiers: only this crate can name
/// it, so no external type can become a fifth tier.
pub trait Sealed {}

} // verus!
