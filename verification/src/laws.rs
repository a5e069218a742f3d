use vstd::prelude::*;
use crate::blanket_impls::NonRecursive;
use crate::independent::{IndependentClone, exact_clones};
use crate::mirrored::MirroredClone;
use crate::observed::Observable;
use crate::speed::{NearInstant, ConstantTime, LogTime, AnySpeed, ConstantOrSlower};

verus! {

/// Tier soundness for independent clones: for a non-recursive type with a
/// near-instant implementation, every result the derived constant-time,
/// log-time, and unconstrained implementations may return observes exactly
/// the state that a near-instant clone of the same source observes — the
/// promotion never changes what is produced, only the tier it is claimed at.
pub proof fn independent_promotion_observes_alike<T>(
    source: T,
    fast: T,
    constant: T,
    logarithmic: T,
    unconstrained: T,
)
    where
        T: NonRecursive + IndependentClone<NearInstant> + IndependentClone<ConstantTime>
            + IndependentClone<LogTime> + IndependentClone<AnySpeed>,
    requires
        call_ensures(<T as IndependentClone<NearInstant>>::independent_clone, (&source,), fast),
        call_ensures(
            <T as IndependentClone<ConstantTime>>::independent_clone,
            (&source,),
            constant,
        ),
        call_ensures(<T as IndependentClone<LogTime>>::independent_clone, (&source,), logarithmic),
        call_ensures(
            <T as IndependentClone<AnySpeed>>::independent_clone,
            (&source,),
            unconstrained,
        ),
    ensures
        fast.observed() == source.observed(),
        constant.observed() == fast.observed(),
        logarithmic.observed() == fast.observed(),
        unconstrained.observed() == fast.observed(),
{
}

/// Tier soundness for mirrored clones; see
/// [`independent_promotion_observes_alike`].
pub proof fn mirrored_promotion_observes_alike<T>(
    source: T,
    fast: T,
    constant: T,
    logarithmic: T,
    unconstrained: T,
)
    where
        T: NonRecursive + MirroredClone<NearInstant> + MirroredClone<ConstantTime>
            + MirroredClone<LogTime> + MirroredClone<AnySpeed>,
    requires
        call_ensures(<T as MirroredClone<NearInstant>>::mirrored_clone, (&source,), fast),
        call_ensures(<T as MirroredClone<ConstantTime>>::mirrored_clone, (&source,), constant),
        call_ensures(<T as MirroredClone<LogTime>>::mirrored_clone, (&source,), logarithmic),
        call_ensures(<T as MirroredClone<AnySpeed>>::mirrored_clone, (&source,), unconstrained),
    ensures
        fast.observed() == source.observed(),
        constant.observed() == fast.observed(),
        logarithmic.observed() == fast.observed(),
        unconstrained.observed() == fast.observed(),
{
}

/// Composite pass-through, first direction: any independent clone of a pair
/// observes, component by component, exactly the states of the source's
/// components — what a clone of each component alone would observe.
pub proof fn pair_clone_observes_componentwise<S, T1, T2>(source: (T1, T2), pair: (T1, T2))
    where S: ConstantOrSlower, T1: IndependentClone<S>, T2: IndependentClone<S>,
    requires
        call_ensures(<(T1, T2) as IndependentClone<S>>::independent_clone, (&source,), pair),
    ensures
        pair.0.observed() == source.0.observed(),
        pair.1.observed() == source.1.observed(),
{
}

/// Composite pass-through, second direction: independent clones of the two
/// components, reassembled into a pair, observe exactly the state of the
/// source pair — the guarantee the pair's own clone gives.
pub proof fn componentwise_clones_observe_pair<S, T1, T2>(source: (T1, T2), c1: T1, c2: T2)
    where S: ConstantOrSlower, T1: IndependentClone<S>, T2: IndependentClone<S>,
    requires
        call_ensures(<T1 as IndependentClone<S>>::independent_clone, (&source.0,), c1),
        call_ensures(<T2 as IndependentClone<S>>::independent_clone, (&source.1,), c2),
    ensures
        (c1, c2).observed() == source.observed(),
{
}

/// Optional pass-through: an independent clone of an absent value is absent,
/// and an independent clone of a present value is present and observes
/// exactly what the element operation guarantees of the contained element.
pub proof fn option_clone_passes_through<S, T>(source: Option<T>, clone: Option<T>)
    where S: ConstantOrSlower, T: IndependentClone<S>,
    requires
        call_ensures(<Option<T> as IndependentClone<S>>::independent_clone, (&source,), clone),
    ensures
        source is None <==> clone is None,
        source matches Some(t) ==> (clone matches Some(c) && c.observed() == t.observed()),
{
}

/// Fallible pass-through: an independent clone of a fallible value keeps the
/// success/failure branch, applying the success-path guarantee to a success
/// and the failure-path guarantee to a failure.
pub proof fn result_clone_passes_through<S, T, E>(source: Result<T, E>, clone: Result<T, E>)
    where S: ConstantOrSlower, T: IndependentClone<S>, E: IndependentClone<S>,
    requires
        call_ensures(
            <Result<T, E> as IndependentClone<S>>::independent_clone,
            (&source,),
            clone,
        ),
    ensures
        source is Ok <==> clone is Ok,
        source matches Ok(t) ==> (clone matches Ok(c) && c.observed() == t.observed()),
        source matches Err(e) ==> (clone matches Err(c) && c.observed() == e.observed()),
{
}

/// Scalar keys clone exactly: each one's observed state is the value
/// itself, so the trait contract pins every admissible independent clone to
/// equal its source. With this, the rebuilt-collection contracts fix the
/// clone's whole key set, and so its entry count.
pub proof fn scalars_clone_exactly()
    ensures
        exact_clones::<u8>(),
        exact_clones::<u16>(),
        exact_clones::<u32>(),
        exact_clones::<u64>(),
        exact_clones::<u128>(),
        exact_clones::<usize>(),
        exact_clones::<i8>(),
        exact_clones::<i16>(),
        exact_clones::<i32>(),
        exact_clones::<i64>(),
        exact_clones::<i128>(),
        exact_clones::<isize>(),
        exact_clones::<bool>(),
        exact_clones::<char>(),
{
}

} // verus!
