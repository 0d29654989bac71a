//! The type-erased `Arc`: a strong and a weak handle that do not name the
//! payload's type, and the lifecycle table behind them.

use vstd::prelude::*;
use std::sync::Arc;
use crate::erased_ptr::TypeErasedPtr;
use crate::lifecycle::{
    ErasedStrong, ErasedWeak, StrongLifecycle, WeakLifecycle, erased_strong_ptr,
    erased_weak_ptr, unerase_strong, unerase_weak, weak_count_reading,
};

verus! {

/// One unit of shared ownership of an `Arc` allocation whose payload type is
/// not part of the handle's type.
///
/// The handle is an erased pointer and the table entry it was paired with
/// when it was made; the pairing never changes. Its view is the erased
/// pointer that the handle was made with, and every handle derived from it
/// has the same. Dropping the handle gives the unit back. Every count is kept by the
/// `Arc` inside, whose updates are atomic; only payloads that may be shared
/// between threads are taken.
pub struct TypeErasedArc {
    ptr: TypeErasedPtr,
    vtable: ErasedStrong,
}

impl View for TypeErasedArc {
    type V = TypeErasedPtr;

    closed spec fn view(&self) -> TypeErasedPtr {
        self.ptr
    }
}

impl TypeErasedArc {
    #[verifier::type_invariant]
    spec fn paired(&self) -> bool {
        erased_strong_ptr(self.vtable) == self.ptr
    }

    /// Erases `arc`, whose payload is sized. The handle takes over the unit
    /// of ownership that `arc` held; its pointer is the pointer to the
    /// payload, which is thin.
    pub fn new<T: Send + Sync + 'static>(arc: Arc<T>) -> (r: Self)
        ensures
            r@.meta == 0,
    {
        let ptr = payload_ptr(&arc);
        TypeErasedArc { ptr, vtable: strong_entry(arc, ptr) }
    }

    /// Erases `arc`, whose payload may be unsized. `ptr` is the erased
    /// pointer to the payload, metadata included: a fat pointer cannot be
    /// taken apart here, so the caller, who has the payload's type, hands it
    /// in. The handle takes over the unit of ownership that `arc` held and
    /// keeps `ptr` as it is.
    pub fn new_unsized<T: ?Sized + Send + Sync + 'static>(arc: Arc<T>, ptr: TypeErasedPtr) -> (r:
        Self)
        ensures
            r@ == ptr,
    {
        TypeErasedArc { ptr, vtable: strong_entry(arc, ptr) }
    }

    /// The handle for a strong entry that the table gave out for `ptr`.
    pub(crate) fn from_entry(ptr: TypeErasedPtr, vtable: ErasedStrong) -> (r: Self)
        requires
            erased_strong_ptr(vtable) == ptr,
        ensures
            r@ == ptr,
    {
        TypeErasedArc { ptr, vtable }
    }

    /// The erased pointer to the payload, as the table reports it.
    pub fn as_ptr(&self) -> (p: TypeErasedPtr)
        ensures
            p == self@,
    {
        proof {
            use_type_invariant(self);
        }
        unerase_strong(&self.vtable).as_ptr()
    }

    /// The erased pointer this handle was made with.
    pub fn arc_ptr(&self) -> (p: TypeErasedPtr)
        ensures
            p == self@,
    {
        self.ptr
    }

    /// A weak handle on the same allocation. The strong count is untouched.
    pub fn downgrade(&self) -> (w: TypeErasedWeak)
        ensures
            w@ == self@,
    {
        proof {
            use_type_invariant(self);
        }
        TypeErasedWeak { ptr: self.ptr, vtable: unerase_strong(&self.vtable).downgrade() }
    }

    /// The number of strong handles on the allocation, this one included.
    pub fn strong_count(&self) -> (n: usize)
        ensures
            n >= 1,
    {
        unerase_strong(&self.vtable).strong_count()
    }

    /// The number of weak handles on the allocation.
    pub fn weak_count(&self) -> (n: usize) {
        unerase_strong(&self.vtable).weak_count()
    }
}

impl Clone for TypeErasedArc {
    /// One more strong handle on the same allocation, with the same table.
    fn clone(&self) -> (r: Self)
        ensures
            r@ == self@,
    {
        proof {
            use_type_invariant(self);
        }
        TypeErasedArc { ptr: self.ptr, vtable: unerase_strong(&self.vtable).clone_strong() }
    }
}

/// An observer of an `Arc` allocation: it does not keep the payload alive and
/// must be upgraded to reach it. Its view is the erased pointer of the strong
/// handle it came from.
pub struct TypeErasedWeak {
    ptr: TypeErasedPtr,
    vtable: ErasedWeak,
}

impl View for TypeErasedWeak {
    type V = TypeErasedPtr;

    closed spec fn view(&self) -> TypeErasedPtr {
        self.ptr
    }
}

impl TypeErasedWeak {
    #[verifier::type_invariant]
    spec fn paired(&self) -> bool {
        erased_weak_ptr(self.vtable) == self.ptr
    }

    /// A new strong handle on the allocation, or `None` where the payload has
    /// been destroyed. Which of the two is decided by the allocation alone;
    /// a handle that comes back has the erased pointer of this one.
    pub fn upgrade(&self) -> (r: Option<TypeErasedArc>)
        ensures
            r matches Some(s) ==> s@ == self@,
    {
        proof {
            use_type_invariant(self);
        }
        strong_from_upgrade(self.ptr, unerase_weak(&self.vtable).upgrade_weak())
    }

    /// The number of strong handles on the allocation; 0 once the payload
    /// has been destroyed.
    pub fn strong_count(&self) -> (n: usize) {
        unerase_weak(&self.vtable).strong_count_weak()
    }

    /// The number of weak handles on the allocation while a strong handle is
    /// left, and 0 from then on.
    pub fn weak_count(&self) -> (n: usize) {
        let entry = unerase_weak(&self.vtable);
        weak_count_reading(entry.strong_count_weak(), entry.weak_count_weak())
    }
}

impl Clone for TypeErasedWeak {
    /// One more weak handle on the same allocation, with the same table.
    fn clone(&self) -> (r: Self)
        ensures
            r@ == self@,
    {
        proof {
            use_type_invariant(self);
        }
        TypeErasedWeak { ptr: self.ptr, vtable: unerase_weak(&self.vtable).clone_weak() }
    }
}

/// What `upgrade` hands back for each answer of the table: a strong handle
/// with the weak handle's pointer exactly when the table produced an entry.
fn strong_from_upgrade(ptr: TypeErasedPtr, upgraded: Option<ErasedStrong>) -> (r: Option<
    TypeErasedArc,
>)
    requires
        upgraded matches Some(b) ==> erased_strong_ptr(b) == ptr,
    ensures
        r is Some <==> upgraded is Some,
        r matches Some(s) ==> s@ == ptr,
{
    match upgraded {
        Some(vtable) => Some(TypeErasedArc::from_entry(ptr, vtable)),
        None => None,
    }
}

/// The strong table entry for payload type `T`: the `Arc` itself and the
/// erased pointer it was made with.
pub(crate) struct ArcErased<T: ?Sized> {
    arc: Arc<T>,
    ptr: TypeErasedPtr,
}

/// The erased strong entry for `arc`, made with `ptr`.
pub(crate) fn strong_entry<T: ?Sized + 'static>(arc: Arc<T>, ptr: TypeErasedPtr) -> (b:
    ErasedStrong)
    ensures
        erased_strong_ptr(b) == ptr,
{
    erase_strong(ArcErased { arc, ptr })
}

/// The erased pointer to the sized payload of `arc`: thin.
pub(crate) fn payload_ptr<T>(arc: &Arc<T>) -> (p: TypeErasedPtr)
    ensures
        p.meta == 0,
{
    TypeErasedPtr::thin(arc_addr(arc))
}

impl<T: ?Sized + 'static> StrongLifecycle for ArcErased<T> {
    closed spec fn ptr(&self) -> TypeErasedPtr {
        self.ptr
    }

    fn as_ptr(&self) -> (p: TypeErasedPtr) {
        self.ptr
    }

    fn clone_strong(&self) -> (r: ErasedStrong) {
        erase_strong(ArcErased { arc: self.arc.clone(), ptr: self.ptr })
    }

    fn downgrade(&self) -> (w: ErasedWeak) {
        erase_weak(WeakErased { weak: arc_downgrade(&self.arc), ptr: self.ptr })
    }

    fn strong_count(&self) -> (n: usize) {
        arc_strong_count(&self.arc)
    }

    fn weak_count(&self) -> (n: usize) {
        arc_weak_count(&self.arc)
    }
}

/// A `std::sync::Weak`, which the verifier cannot be told of directly: the
/// type has an allocator parameter that stable code cannot name.
#[verifier::external_body]
#[verifier::reject_recursive_types(T)]
pub(crate) struct WeakArc<T: ?Sized> {
    weak: std::sync::Weak<T>,
}

/// The weak table entry for payload type `T`.
#[verifier::reject_recursive_types(T)]
pub(crate) struct WeakErased<T: ?Sized> {
    weak: WeakArc<T>,
    ptr: TypeErasedPtr,
}

impl<T: ?Sized + 'static> WeakLifecycle for WeakErased<T> {
    closed spec fn ptr(&self) -> TypeErasedPtr {
        self.ptr
    }

    fn clone_weak(&self) -> (r: ErasedWeak) {
        erase_weak(WeakErased { weak: weak_clone(&self.weak), ptr: self.ptr })
    }

    fn upgrade_weak(&self) -> (r: Option<ErasedStrong>) {
        // The pointer alone decides whether anything comes back; what comes
        // back is made with the pointer this entry was made with.
        let upgraded = weak_upgrade(&self.weak);
        strong_entry_from_upgrade(self.ptr, upgraded)
    }

    fn strong_count_weak(&self) -> (n: usize) {
        weak_strong_count(&self.weak)
    }

    fn weak_count_weak(&self) -> (n: usize) {
        weak_weak_count(&self.weak)
    }
}

/// What an upgrade of a weak entry hands back for each answer of the
/// pointer inside it: a strong entry made with `ptr` exactly when a pointer
/// came back, and nothing otherwise.
fn strong_entry_from_upgrade<T: ?Sized + 'static>(
    ptr: TypeErasedPtr,
    upgraded: Option<Arc<T>>,
) -> (r: Option<ErasedStrong>)
    ensures
        r is Some <==> upgraded is Some,
        r matches Some(s) ==> erased_strong_ptr(s) == ptr,
{
    match upgraded {
        Some(arc) => Some(erase_strong(ArcErased { arc, ptr })),
        None => None,
    }
}

/// Erases a strong entry: `Box::new`, and the coercion of the box to the
/// trait object.
///
/// Believed, not proved: the erased entry holds the pointer that `entry` holds.
#[verifier::external_body]
fn erase_strong<T: ?Sized + 'static>(entry: ArcErased<T>) -> (b: ErasedStrong)
    ensures
        erased_strong_ptr(b) == entry.ptr,
{
    ErasedStrong { entry: Box::new(entry) }
}

/// Erases a weak entry: `Box::new`, and the coercion of the box to the trait
/// object.
///
/// Believed, not proved: the erased entry holds the pointer that `entry` holds.
#[verifier::external_body]
fn erase_weak<T: ?Sized + 'static>(entry: WeakErased<T>) -> (b: ErasedWeak)
    ensures
        erased_weak_ptr(b) == entry.ptr,
{
    ErasedWeak { entry: Box::new(entry) }
}

/// `Arc::as_ptr` of a sized payload; the thin pointer is handed back as its
/// address. Nothing is claimed of the number.
#[verifier::external_body]
fn arc_addr<T>(arc: &Arc<T>) -> (a: usize) {
    Arc::as_ptr(arc).addr()
}

/// `Arc::strong_count`. Claimed: at least 1, since `arc` is itself a strong
/// pointer to the allocation it counts.
#[verifier::external_body]
fn arc_strong_count<T: ?Sized>(arc: &Arc<T>) -> (n: usize)
    ensures
        n >= 1,
{
    Arc::strong_count(arc)
}

/// `Arc::weak_count`. Nothing is claimed of the number.
#[verifier::external_body]
fn arc_weak_count<T: ?Sized>(arc: &Arc<T>) -> (n: usize) {
    Arc::weak_count(arc)
}

/// `Arc::downgrade`. Nothing is claimed of the result.
#[verifier::external_body]
fn arc_downgrade<T: ?Sized>(arc: &Arc<T>) -> (w: WeakArc<T>) {
    WeakArc { weak: Arc::downgrade(arc) }
}

/// `Weak::upgrade`. Nothing is claimed of the result: whether a pointer
/// comes back depends on the other handles of the allocation.
#[verifier::external_body]
fn weak_upgrade<T: ?Sized>(weak: &WeakArc<T>) -> (arc: Option<Arc<T>>) {
    weak.weak.upgrade()
}

/// `Weak::clone`. Nothing is claimed of the result.
#[verifier::external_body]
fn weak_clone<T: ?Sized>(weak: &WeakArc<T>) -> (w: WeakArc<T>) {
    WeakArc { weak: weak.weak.clone() }
}

/// `Weak::strong_count`. Nothing is claimed of the number.
#[verifier::external_body]
fn weak_strong_count<T: ?Sized>(weak: &WeakArc<T>) -> (n: usize) {
    weak.weak.strong_count()
}

/// `Weak::weak_count`. Nothing is claimed of the number.
#[verifier::external_body]
fn weak_weak_count<T: ?Sized>(weak: &WeakArc<T>) -> (n: usize) {
    weak.weak.weak_count()
}

} // verus!
