use vstd::prelude::*;
use vstd::std_specs::iter::IteratorSpec;
use std::rc::Rc;
use std::sync::Arc;

verus! {

/// A shareable mutable container. Its contents are shared mutable state
/// that no pure abstraction pins down, so nothing is assumed of the values
/// read out of it.
#[verifier::external_type_specification]
#[verifier::external_body]
#[verifier::reject_recursive_types(T)]
pub struct ExCell<T: ?Sized>(core::cell::Cell<T>);

/// Relies on `Cell::new`: wraps a value in a cell.
pub assume_specification<T>[ core::cell::Cell::<T>::new ](value: T) -> core::cell::Cell<T>;

/// Relies on `Cell::get`: copies the current contents out; never panics.
pub assume_specification<T: Copy>[ core::cell::Cell::<T>::get ](
    cell: &core::cell::Cell<T>,
) -> T;

/// Relies on `Rc::clone`: the new handle points at the same allocation, so
/// its pointed-to value equals the source's.
#[verifier::external_body]
pub(crate) fn clone_rc<T>(handle: &Rc<T>) -> (r: Rc<T>)
    ensures
        r == *handle,
{
    Rc::clone(handle)
}

/// Relies on `Arc::clone`: the new handle points at the same allocation, so
/// its pointed-to value equals the source's.
#[verifier::external_body]
pub(crate) fn clone_arc<T>(handle: &Arc<T>) -> (r: Arc<T>)
    ensures
        r == *handle,
{
    Arc::clone(handle)
}

/// Relies on `hash_map::Iter::next`, restating for this iterator the laws vstd's
/// standard specifications give it: `next` pops the head of the remaining
/// sequence, or reports exhaustion and leaves the sequence empty.
#[verifier::external_body]
pub(crate) fn next_hash_map_entry<'a, K, V>(
    it: &mut std::collections::hash_map::Iter<'a, K, V>,
) -> (r: Option<(&'a K, &'a V)>)
    ensures
        ({
            let before = <std::collections::hash_map::Iter<'a, K, V> as IteratorSpec>::remaining(old(it));
            let after = <std::collections::hash_map::Iter<'a, K, V> as IteratorSpec>::remaining(final(it));
            if before.len() > 0 {
                after == before.drop_first() && r == Some(before[0])
            } else {
                r is None && after == before
            }
        }),
{
    it.next()
}

/// Relies on `hash_set::Iter::next`, restating for this iterator the laws vstd's
/// standard specifications give it: `next` pops the head of the remaining
/// sequence, or reports exhaustion and leaves the sequence empty.
#[verifier::external_body]
pub(crate) fn next_hash_set_element<'a, K>(
    it: &mut std::collections::hash_set::Iter<'a, K>,
) -> (r: Option<&'a K>)
    ensures
        ({
            let before = <std::collections::hash_set::Iter<'a, K> as IteratorSpec>::remaining(old(it));
            let after = <std::collections::hash_set::Iter<'a, K> as IteratorSpec>::remaining(final(it));
            if before.len() > 0 {
                after == before.drop_first() && r == Some(before[0])
            } else {
                r is None && after == before
            }
        }),
{
    it.next()
}

/// Relies on `btree_map::Iter::next`, restating for this iterator the laws vstd's
/// standard specifications give it: `next` pops the head of the remaining
/// sequence, or reports exhaustion and leaves the sequence empty.
#[verifier::external_body]
pub(crate) fn next_ordered_map_entry<'a, K, V>(
    it: &mut std::collections::btree_map::Iter<'a, K, V>,
) -> (r: Option<(&'a K, &'a V)>)
    ensures
        ({
            let before = <std::collections::btree_map::Iter<'a, K, V> as IteratorSpec>::remaining(old(it));
            let after = <std::collections::btree_map::Iter<'a, K, V> as IteratorSpec>::remaining(final(it));
            if before.len() > 0 {
                after == before.drop_first() && r == Some(before[0])
            } else {
                r is None && after == before
            }
        }),
{
    it.next()
}

/// Relies on `btree_set::Iter::next`, restating for this iterator the laws vstd's
/// standard specifications give it: `next` pops the head of the remaining
/// sequence, or reports exhaustion and leaves the sequence empty.
#[verifier::external_body]
pub(crate) fn next_ordered_set_element<'a, K>(
    it: &mut std::collections::btree_set::Iter<'a, K>,
) -> (r: Option<&'a K>)
    ensures
        ({
            let before = <std::collections::btree_set::Iter<'a, K> as IteratorSpec>::remaining(old(it));
            let after = <std::collections::btree_set::Iter<'a, K> as IteratorSpec>::remaining(final(it));
            if before.len() > 0 {
                after == before.drop_first() && r == Some(before[0])
            } else {
                r is None && after == before
            }
        }),
{
    it.next()
}

/// Relies on `Vec::into_boxed_slice`: the contents are unchanged.
#[verifier::external_body]
pub(crate) fn boxed_slice_from_vec<T>(v: Vec<T>) -> (r: Box<[T]>)
    ensures
        r@ == v@,
{
    v.into_boxed_slice()
}

/// A memory layout descriptor; an immutable pair of size and alignment.
#[verifier::external_type_specification]
#[verifier::external_body]
pub struct ExLayout(core::alloc::Layout);

/// An opaque, globally unique type identifier; immutable once produced.
#[verifier::external_type_specification]
#[verifier::external_body]
pub struct ExTypeId(core::any::TypeId);

/// The full-range marker; a unit type with no state.
#[verifier::external_type_specification]
pub struct ExRangeFull(core::ops::RangeFull);

/// The address-sensitivity marker; a unit type with no state.
#[verifier::external_type_specification]
pub struct ExPhantomPinned(core::marker::PhantomPinned);

/// Relies on `Cow::<str>::clone`: a borrowed value stays borrowed of the
/// same data, and an owned value is cloned through the standard string
/// clone, which copies exactly its characters. (The clone of a value
/// borrowing an arbitrary type would run that type's own owned-clone code,
/// of which nothing could be soundly assumed, so only string borrow targets
/// are covered.)
#[verifier::external_body]
pub(crate) fn clone_cow_str<'a>(cow: &std::borrow::Cow<'a, str>) -> (r: std::borrow::Cow<'a, str>)
    ensures
        (match *cow {
            std::borrow::Cow::Borrowed(b) => r matches std::borrow::Cow::Borrowed(b2) && b2 == b,
            std::borrow::Cow::Owned(o) => r matches std::borrow::Cow::Owned(o2) && o2@ == o@,
        }),
{
    cow.clone()
}

/// An atomic pointer cell. Its contents are shared mutable state; see the
/// note on the cell declaration.
#[verifier::external_type_specification]
#[verifier::external_body]
#[verifier::reject_recursive_types(T)]
pub struct ExAtomicPtr<T>(core::sync::atomic::AtomicPtr<T>);

/// Relies on `AtomicPtr::load` and `AtomicPtr::new`: a fresh atomic cell is
/// constructed around a single relaxed load of the source. The loaded
/// address is shared mutable state, so nothing is assumed of it.
#[verifier::external_body]
pub(crate) fn clone_atomic_ptr<T>(
    atomic: &core::sync::atomic::AtomicPtr<T>,
) -> core::sync::atomic::AtomicPtr<T> {
    core::sync::atomic::AtomicPtr::new(atomic.load(core::sync::atomic::Ordering::Relaxed))
}

/// A reading of a monotonic clock; an immutable timestamp.
#[verifier::external_type_specification]
#[verifier::external_body]
pub struct ExInstant(std::time::Instant);

/// Relies on `Box<str>::clone`: the new boxed string holds exactly the same
/// characters in a fresh allocation.
#[verifier::external_body]
pub(crate) fn clone_boxed_str(s: &Box<str>) -> (r: Box<str>)
    ensures
        r@ == s@,
{
    s.clone()
}

/// An opaque value identifying an enum variant; immutable once produced.
#[verifier::external_type_specification]
#[verifier::external_body]
#[verifier::reject_recursive_types(T)]
pub struct ExDiscriminant<T>(core::mem::Discriminant<T>);

/// An iterator that never yields anything; a zero-sized marker.
#[verifier::external_type_specification]
#[verifier::external_body]
#[verifier::reject_recursive_types(T)]
pub struct ExEmpty<T>(core::iter::Empty<T>);

/// Relies on `core::iter::empty`: a fresh, stateless empty iterator.
#[verifier::external_body]
pub(crate) fn empty_iter<T>() -> core::iter::Empty<T> {
    core::iter::empty()
}

/// An owned filesystem path; a wrapped owned string with path semantics.
#[verifier::external_type_specification]
#[verifier::external_body]
pub struct ExPathBuf(std::path::PathBuf);

/// A borrowed filesystem path slice.
#[verifier::external_type_specification]
#[verifier::external_body]
pub struct ExPath(std::path::Path);

/// Relies on the standard conversion from a vector to an array: with
/// exactly `N` elements it succeeds and keeps the contents in order; the
/// length precondition rules the failure path out.
#[verifier::external_body]
pub(crate) fn array_from_vec<T, const N: usize>(v: Vec<T>) -> (r: [T; N])
    requires
        v@.len() == N,
    ensures
        r@ == v@,
{
    v.try_into().ok().unwrap()
}

} // verus!
