//! The lifecycle table: the operations on one allocation that a handle
//! reaches without knowing the payload's type.
//!
//! A table entry is a counted pointer of one concrete payload type together
//! with the erased pointer it was made with. The two traits below are what a
//! handle may ask of an entry; their implementations for a given payload type
//! are that type's table. An entry is erased once, when it is made, and from
//! then on it is reached only through the trait it was erased under, so an
//! operation can never meet a pointer that another table produced.

use vstd::prelude::*;
use crate::erased_ptr::TypeErasedPtr;

verus! {

/// A strong table entry with its concrete type erased.
///
/// Opaque to the verifier: a trait whose operations return its own erased
/// entries cannot be declared with the entry in plain sight. What is known of
/// the content is named by [`erased_strong_ptr`].
#[verifier::external_body]
pub struct ErasedStrong {
    pub(crate) entry: Box<dyn StrongLifecycle>,
}

/// A weak table entry with its concrete type erased; see [`ErasedStrong`].
#[verifier::external_body]
pub struct ErasedWeak {
    pub(crate) entry: Box<dyn WeakLifecycle>,
}

/// The erased pointer that the entry inside `b` was made with.
pub uninterp spec fn erased_strong_ptr(b: ErasedStrong) -> TypeErasedPtr;

/// The erased pointer that the entry inside `b` was made with.
pub uninterp spec fn erased_weak_ptr(b: ErasedWeak) -> TypeErasedPtr;

/// The strong half of a lifecycle table: what can be asked of an entry that
/// holds one unit of shared ownership.
///
/// Releasing that unit is not listed: it happens when the entry is dropped,
/// through the destructor that the entry's concrete type brought along.
pub trait StrongLifecycle {
    /// The erased pointer this entry was made with.
    spec fn ptr(&self) -> TypeErasedPtr;

    /// The erased pointer to the payload.
    fn as_ptr(&self) -> (p: TypeErasedPtr)
        ensures
            p == self.ptr(),
    ;

    /// One more unit of shared ownership of the same allocation.
    fn clone_strong(&self) -> (r: ErasedStrong)
        ensures
            erased_strong_ptr(r) == self.ptr(),
    ;

    /// An observer of the same allocation that does not keep it alive.
    fn downgrade(&self) -> (w: ErasedWeak)
        ensures
            erased_weak_ptr(w) == self.ptr(),
    ;

    /// The number of strong entries of the allocation: this one is among them.
    fn strong_count(&self) -> (n: usize)
        ensures
            n >= 1,
    ;

    /// The number of weak entries of the allocation.
    fn weak_count(&self) -> (n: usize)
    ;
}

/// The weak half of a lifecycle table: what can be asked of an entry that
/// observes an allocation without owning it.
pub trait WeakLifecycle {
    /// The erased pointer this entry was made with.
    spec fn ptr(&self) -> TypeErasedPtr;

    /// One more observer of the same allocation.
    fn clone_weak(&self) -> (r: ErasedWeak)
        ensures
            erased_weak_ptr(r) == self.ptr(),
    ;

    /// A new unit of shared ownership, if the payload is still there.
    fn upgrade_weak(&self) -> (r: Option<ErasedStrong>)
        ensures
            r matches Some(s) ==> erased_strong_ptr(s) == self.ptr(),
    ;

    /// The number of strong entries of the allocation; 0 once the payload is gone.
    fn strong_count_weak(&self) -> (n: usize)
    ;

    /// The number of weak entries that the allocation keeps track of.
    fn weak_count_weak(&self) -> (n: usize)
    ;
}

/// Un-erases a strong entry: borrows the `Box` inside `b` as the trait object
/// it was stored as.
///
/// Believed, not proved: the entry that comes out answers `ptr()` with the
/// pointer it was erased with. The body is a field borrow.
#[verifier::external_body]
pub(crate) fn unerase_strong(b: &ErasedStrong) -> (entry: &Box<dyn StrongLifecycle>)
    ensures
        entry.ptr() == erased_strong_ptr(*b),
{
    &b.entry
}

/// Un-erases a weak entry: borrows the `Box` inside `b` as the trait object
/// it was stored as.
///
/// Believed, not proved: the entry that comes out answers `ptr()` with the
/// pointer it was erased with. The body is a field borrow.
#[verifier::external_body]
pub(crate) fn unerase_weak(b: &ErasedWeak) -> (entry: &Box<dyn WeakLifecycle>)
    ensures
        entry.ptr() == erased_weak_ptr(*b),
{
    &b.entry
}

/// What a weak handle reports as the weak count, given the two counts read
/// from the allocation: nothing once no strong handle is left, whatever
/// number of observers the allocation still tracks.
pub open spec fn weak_count_shown(strong: usize, weak: usize) -> usize {
    if strong == 0 {
        0
    } else {
        weak
    }
}

/// Computes [`weak_count_shown`].
pub fn weak_count_reading(strong: usize, weak: usize) -> (n: usize)
    ensures
        n == weak_count_shown(strong, weak),
{
    if strong == 0 {
        0
    } else {
        weak
    }
}

/// A dead payload shows no observers: with no strong handle left the weak
/// count reads 0, however many weak handles remain; while one is left, the
/// count is passed on unchanged.
pub proof fn weak_count_shown_law(strong: usize, weak: usize)
    ensures
        strong == 0 ==> weak_count_shown(strong, weak) == 0,
        strong > 0 ==> weak_count_shown(strong, weak) == weak,
{
}

} // verus!
