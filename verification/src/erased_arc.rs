//! The type-erased `Arc` in its plainest form: a handle that is nothing but
//! its lifecycle table entry.
//!
//! Any payload is taken, also one that must stay on its thread; the handle is
//! as confined as the entry inside it.

use vstd::prelude::*;
use std::sync::Arc;
use crate::erased_ptr::TypeErasedPtr;
use crate::lifecycle::{
    ErasedStrong, ErasedWeak, erased_strong_ptr, erased_weak_ptr, unerase_strong,
    unerase_weak, weak_count_reading,
};
use crate::sync::erased_arc::{payload_ptr, strong_entry};

verus! {

/// One unit of shared ownership of an `Arc` allocation whose payload type is
/// not part of the handle's type.
///
/// Every operation goes through the table entry that the handle was made
/// with. The view is the erased pointer that the entry was made with, and
/// every handle derived from this one has the same. Dropping the handle gives
/// the unit back.
pub struct TypeErasedArc {
    lifecycle: ErasedStrong,
}

impl View for TypeErasedArc {
    type V = TypeErasedPtr;

    closed spec fn view(&self) -> TypeErasedPtr {
        erased_strong_ptr(self.lifecycle)
    }
}

impl TypeErasedArc {
    /// Erases `arc`, whose payload is sized. The handle takes over the unit
    /// of ownership that `arc` held; its pointer is the pointer to the
    /// payload, which is thin.
    pub fn new<T: 'static>(arc: Arc<T>) -> (r: Self)
        ensures
            r@.meta == 0,
    {
        let ptr = payload_ptr(&arc);
        TypeErasedArc { lifecycle: strong_entry(arc, ptr) }
    }

    /// Erases `arc`, whose payload may be unsized. `ptr` is the erased
    /// pointer to the payload, metadata included: a fat pointer cannot be
    /// taken apart here, so the caller, who has the payload's type, hands it
    /// in. The handle takes over the unit of ownership that `arc` held and
    /// keeps `ptr` as it is.
    pub fn new_unsized<T: ?Sized + 'static>(arc: Arc<T>, ptr: TypeErasedPtr) -> (r: Self)
        ensures
            r@ == ptr,
    {
        TypeErasedArc { lifecycle: strong_entry(arc, ptr) }
    }

    /// The erased pointer to the payload, as the table reports it.
    pub fn as_ptr(&self) -> (p: TypeErasedPtr)
        ensures
            p == self@,
    {
        unerase_strong(&self.lifecycle).as_ptr()
    }

    /// A weak handle on the same allocation. The strong count is untouched.
    pub fn downgrade(&self) -> (w: TypeErasedWeak)
        ensures
            w@ == self@,
    {
        TypeErasedWeak { lifecycle: unerase_strong(&self.lifecycle).downgrade() }
    }

    /// The number of strong handles on the allocation, this one included.
    pub fn strong_count(&self) -> (n: usize)
        ensures
            n >= 1,
    {
        unerase_strong(&self.lifecycle).strong_count()
    }

    /// The number of weak handles on the allocation.
    pub fn weak_count(&self) -> (n: usize) {
        unerase_strong(&self.lifecycle).weak_count()
    }
}

impl Clone for TypeErasedArc {
    /// One more strong handle on the same allocation, with the same table.
    fn clone(&self) -> (r: Self)
        ensures
            r@ == self@,
    {
        TypeErasedArc { lifecycle: unerase_strong(&self.lifecycle).clone_strong() }
    }
}

/// An observer of an `Arc` allocation: it does not keep the payload alive and
/// must be upgraded to reach it. Its view is the erased pointer of the strong
/// handle it came from.
pub struct TypeErasedWeak {
    lifecycle: ErasedWeak,
}

impl View for TypeErasedWeak {
    type V = TypeErasedPtr;

    closed spec fn view(&self) -> TypeErasedPtr {
        erased_weak_ptr(self.lifecycle)
    }
}

impl TypeErasedWeak {
    /// A new strong handle on the allocation, or `None` where the payload has
    /// been destroyed. Which of the two is decided by the allocation alone;
    /// a handle that comes back has the erased pointer of this one.
    pub fn upgrade(&self) -> (r: Option<TypeErasedArc>)
        ensures
            r matches Some(s) ==> s@ == self@,
    {
        strong_from_upgrade(unerase_weak(&self.lifecycle).upgrade_weak())
    }

    /// The number of strong handles on the allocation; 0 once the payload
    /// has been destroyed.
    pub fn strong_count(&self) -> (n: usize) {
        unerase_weak(&self.lifecycle).strong_count_weak()
    }

    /// The number of weak handles on the allocation while a strong handle is
    /// left, and 0 from then on.
    pub fn weak_count(&self) -> (n: usize) {
        let entry = unerase_weak(&self.lifecycle);
        weak_count_reading(entry.strong_count_weak(), entry.weak_count_weak())
    }
}

impl Clone for TypeErasedWeak {
    /// One more weak handle on the same allocation, with the same table.
    fn clone(&self) -> (r: Self)
        ensures
            r@ == self@,
    {
        TypeErasedWeak { lifecycle: unerase_weak(&self.lifecycle).clone_weak() }
    }
}

/// What `upgrade` hands back for each answer of the table: a strong handle
/// made of the entry exactly when the table produced one.
fn strong_from_upgrade(upgraded: Option<ErasedStrong>) -> (r: Option<TypeErasedArc>)
    ensures
        r is Some <==> upgraded is Some,
        r matches Some(s) ==> upgraded matches Some(b) && s@ == erased_strong_ptr(b),
{
    match upgraded {
        Some(lifecycle) => Some(TypeErasedArc { lifecycle }),
        None => None,
    }
}

} // verus!
