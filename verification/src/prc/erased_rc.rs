//! The type-erased `Rc`: a strong and a weak handle that do not name the
//! payload's type, and the lifecycle table behind them.

use vstd::prelude::*;
use std::rc::Rc;
use crate::erased_ptr::TypeErasedPtr;
use crate::lifecycle::{
    ErasedStrong, ErasedWeak, StrongLifecycle, WeakLifecycle, erased_strong_ptr,
    erased_weak_ptr, unerase_strong, unerase_weak, weak_count_reading,
};

verus! {

/// One unit of shared ownership of an `Rc` allocation whose payload type is
/// not part of the handle's type.
///
/// The handle is an erased pointer and the table entry it was paired with
/// when it was made; the pairing never changes. Its view is the erased
/// pointer that the handle was made with, and every handle derived from it
/// has the same. Dropping the handle gives the unit back. The handle cannot leave the
/// thread it was made on, because the `Rc` inside it cannot.
pub struct TypeErasedRc {
    ptr: TypeErasedPtr,
    vtable: ErasedStrong,
}

impl View for TypeErasedRc {
    type V = TypeErasedPtr;

    closed spec fn view(&self) -> TypeErasedPtr {
        self.ptr
    }
}

impl TypeErasedRc {
    #[verifier::type_invariant]
    spec fn paired(&self) -> bool {
        erased_strong_ptr(self.vtable) == self.ptr
    }

    /// Erases `rc`, whose payload is sized. The handle takes over the unit
    /// of ownership that `rc` held; its pointer is the pointer to the
    /// payload, which is thin.
    pub fn new<T: 'static>(rc: Rc<T>) -> (r: Self)
        ensures
            r@.meta == 0,
    {
        let ptr = TypeErasedPtr::thin(rc_addr(&rc));
        TypeErasedRc { ptr, vtable: erase_strong(RcErased { rc, ptr }) }
    }

    /// Erases `rc`, whose payload may be unsized. `ptr` is the erased pointer
    /// to the payload, metadata included: a fat pointer cannot be taken apart
    /// here, so the caller, who has the payload's type, hands it in. The
    /// handle takes over the unit of ownership that `rc` held and keeps `ptr`
    /// as it is.
    pub fn new_unsized<T: ?Sized + 'static>(rc: Rc<T>, ptr: TypeErasedPtr) -> (r: Self)
        ensures
            r@ == ptr,
    {
        TypeErasedRc { ptr, vtable: erase_strong(RcErased { rc, ptr }) }
    }

    /// The handle for a strong entry that the table gave out for `ptr`.
    pub(crate) fn from_entry(ptr: TypeErasedPtr, vtable: ErasedStrong) -> (r: Self)
        requires
            erased_strong_ptr(vtable) == ptr,
        ensures
            r@ == ptr,
    {
        TypeErasedRc { ptr, vtable }
    }

    /// The erased pointer to the payload, as the table reports it.
    pub fn as_ptr(&self) -> (p: TypeErasedPtr)
        ensures
            p == self@,
    {
        proof {
            use_type_invariant(self);
        }
        unerase_strong(&self.vtable).as_ptr()
    }

    /// A weak handle on the same allocation. The strong count is untouched.
    pub fn downgrade(&self) -> (w: TypeErasedWeak)
        ensures
            w@ == self@,
    {
        proof {
            use_type_invariant(self);
        }
        TypeErasedWeak { ptr: self.ptr, vtable: unerase_strong(&self.vtable).downgrade() }
    }

    /// The number of strong handles on the allocation, this one included.
    pub fn strong_count(&self) -> (n: usize)
        ensures
            n >= 1,
    {
        unerase_strong(&self.vtable).strong_count()
    }

    /// The number of weak handles on the allocation.
    pub fn weak_count(&self) -> (n: usize) {
        unerase_strong(&self.vtable).weak_count()
    }
}

impl Clone for TypeErasedRc {
    /// One more strong handle on the same allocation, with the same table.
    fn clone(&self) -> (r: Self)
        ensures
            r@ == self@,
    {
        proof {
            use_type_invariant(self);
        }
        TypeErasedRc { ptr: self.ptr, vtable: unerase_strong(&self.vtable).clone_strong() }
    }
}

/// An observer of an `Rc` allocation: it does not keep the payload alive and
/// must be upgraded to reach it. Its view is the erased pointer of the strong
/// handle it came from.
pub struct TypeErasedWeak {
    ptr: TypeErasedPtr,
    vtable: ErasedWeak,
}

impl View for TypeErasedWeak {
    type V = TypeErasedPtr;

    closed spec fn view(&self) -> TypeErasedPtr {
        self.ptr
    }
}

impl TypeErasedWeak {
    #[verifier::type_invariant]
    spec fn paired(&self) -> bool {
        erased_weak_ptr(self.vtable) == self.ptr
    }

    /// A new strong handle on the allocation, or `None` where the payload has
    /// been destroyed. Which of the two is decided by the allocation alone;
    /// a handle that comes back has the erased pointer of this one.
    pub fn upgrade(&self) -> (r: Option<TypeErasedRc>)
        ensures
            r matches Some(s) ==> s@ == self@,
    {
        proof {
            use_type_invariant(self);
        }
        strong_from_upgrade(self.ptr, unerase_weak(&self.vtable).upgrade_weak())
    }

    /// The number of strong handles on the allocation; 0 once the payload
    /// has been destroyed.
    pub fn strong_count(&self) -> (n: usize) {
        unerase_weak(&self.vtable).strong_count_weak()
    }

    /// The number of weak handles on the allocation while a strong handle is
    /// left, and 0 from then on.
    pub fn weak_count(&self) -> (n: usize) {
        let entry = unerase_weak(&self.vtable);
        weak_count_reading(entry.strong_count_weak(), entry.weak_count_weak())
    }
}

impl Clone for TypeErasedWeak {
    /// One more weak handle on the same allocation, with the same table.
    fn clone(&self) -> (r: Self)
        ensures
            r@ == self@,
    {
        proof {
            use_type_invariant(self);
        }
        TypeErasedWeak { ptr: self.ptr, vtable: unerase_weak(&self.vtable).clone_weak() }
    }
}

/// What `upgrade` hands back for each answer of the table: a strong handle
/// with the weak handle's pointer exactly when the table produced an entry.
fn strong_from_upgrade(ptr: TypeErasedPtr, upgraded: Option<ErasedStrong>) -> (r: Option<
    TypeErasedRc,
>)
    requires
        upgraded matches Some(b) ==> erased_strong_ptr(b) == ptr,
    ensures
        r is Some <==> upgraded is Some,
        r matches Some(s) ==> s@ == ptr,
{
    match upgraded {
        Some(vtable) => Some(TypeErasedRc::from_entry(ptr, vtable)),
        None => None,
    }
}

/// The strong table entry for payload type `T`: the `Rc` itself and the
/// erased pointer it was made with.
pub(crate) struct RcErased<T: ?Sized> {
    rc: Rc<T>,
    ptr: TypeErasedPtr,
}

impl<T: ?Sized + 'static> StrongLifecycle for RcErased<T> {
    closed spec fn ptr(&self) -> TypeErasedPtr {
        self.ptr
    }

    fn as_ptr(&self) -> (p: TypeErasedPtr) {
        self.ptr
    }

    fn clone_strong(&self) -> (r: ErasedStrong) {
        erase_strong(RcErased { rc: self.rc.clone(), ptr: self.ptr })
    }

    fn downgrade(&self) -> (w: ErasedWeak) {
        erase_weak(WeakErased { weak: rc_downgrade(&self.rc), ptr: self.ptr })
    }

    fn strong_count(&self) -> (n: usize) {
        rc_strong_count(&self.rc)
    }

    fn weak_count(&self) -> (n: usize) {
        rc_weak_count(&self.rc)
    }
}

/// A `std::rc::Weak`, which the verifier cannot be told of directly: the
/// type has an allocator parameter that stable code cannot name.
#[verifier::external_body]
#[verifier::reject_recursive_types(T)]
pub(crate) struct WeakRc<T: ?Sized> {
    weak: std::rc::Weak<T>,
}

/// The weak table entry for payload type `T`.
#[verifier::reject_recursive_types(T)]
pub(crate) struct WeakErased<T: ?Sized> {
    weak: WeakRc<T>,
    ptr: TypeErasedPtr,
}

impl<T: ?Sized + 'static> WeakLifecycle for WeakErased<T> {
    closed spec fn ptr(&self) -> TypeErasedPtr {
        self.ptr
    }

    fn clone_weak(&self) -> (r: ErasedWeak) {
        erase_weak(WeakErased { weak: weak_clone(&self.weak), ptr: self.ptr })
    }

    fn upgrade_weak(&self) -> (r: Option<ErasedStrong>) {
        // The pointer alone decides whether anything comes back; what comes
        // back is made with the pointer this entry was made with.
        let upgraded = weak_upgrade(&self.weak);
        strong_entry_from_upgrade(self.ptr, upgraded)
    }

    fn strong_count_weak(&self) -> (n: usize) {
        weak_strong_count(&self.weak)
    }

    fn weak_count_weak(&self) -> (n: usize) {
        weak_weak_count(&self.weak)
    }
}

/// What an upgrade of a weak entry hands back for each answer of the
/// pointer inside it: a strong entry made with `ptr` exactly when a pointer
/// came back, and nothing otherwise.
fn strong_entry_from_upgrade<T: ?Sized + 'static>(
    ptr: TypeErasedPtr,
    upgraded: Option<Rc<T>>,
) -> (r: Option<ErasedStrong>)
    ensures
        r is Some <==> upgraded is Some,
        r matches Some(s) ==> erased_strong_ptr(s) == ptr,
{
    match upgraded {
        Some(rc) => Some(erase_strong(RcErased { rc, ptr })),
        None => None,
    }
}

/// Erases a strong entry: `Box::new`, and the coercion of the box to the
/// trait object.
///
/// Believed, not proved: the erased entry holds the pointer that `entry` holds.
#[verifier::external_body]
fn erase_strong<T: ?Sized + 'static>(entry: RcErased<T>) -> (b: ErasedStrong)
    ensures
        erased_strong_ptr(b) == entry.ptr,
{
    ErasedStrong { entry: Box::new(entry) }
}

/// Erases a weak entry: `Box::new`, and the coercion of the box to the trait
/// object.
///
/// Believed, not proved: the erased entry holds the pointer that `entry` holds.
#[verifier::external_body]
fn erase_weak<T: ?Sized + 'static>(entry: WeakErased<T>) -> (b: ErasedWeak)
    ensures
        erased_weak_ptr(b) == entry.ptr,
{
    ErasedWeak { entry: Box::new(entry) }
}

/// `Rc::as_ptr` of a sized payload; the thin pointer is handed back as its
/// address. Nothing is claimed of the number.
#[verifier::external_body]
fn rc_addr<T>(rc: &Rc<T>) -> (a: usize) {
    Rc::as_ptr(rc).addr()
}

/// `Rc::strong_count`. Claimed: at least 1, since `rc` is itself a strong
/// pointer to the allocation it counts.
#[verifier::external_body]
fn rc_strong_count<T: ?Sized>(rc: &Rc<T>) -> (n: usize)
    ensures
        n >= 1,
{
    Rc::strong_count(rc)
}

/// `Rc::weak_count`. Nothing is claimed of the number.
#[verifier::external_body]
fn rc_weak_count<T: ?Sized>(rc: &Rc<T>) -> (n: usize) {
    Rc::weak_count(rc)
}

/// `Rc::downgrade`. Nothing is claimed of the result.
#[verifier::external_body]
fn rc_downgrade<T: ?Sized>(rc: &Rc<T>) -> (w: WeakRc<T>) {
    WeakRc { weak: Rc::downgrade(rc) }
}

/// `Weak::upgrade`. Nothing is claimed of the result: whether a pointer
/// comes back depends on the other handles of the allocation.
#[verifier::external_body]
fn weak_upgrade<T: ?Sized>(weak: &WeakRc<T>) -> (rc: Option<Rc<T>>) {
    weak.weak.upgrade()
}

/// `Weak::clone`. Nothing is claimed of the result.
#[verifier::external_body]
fn weak_clone<T: ?Sized>(weak: &WeakRc<T>) -> (w: WeakRc<T>) {
    WeakRc { weak: weak.weak.clone() }
}

/// `Weak::strong_count`. Nothing is claimed of the number.
#[verifier::external_body]
fn weak_strong_count<T: ?Sized>(weak: &WeakRc<T>) -> (n: usize) {
    weak.weak.strong_count()
}

/// `Weak::weak_count`. Nothing is claimed of the number.
#[verifier::external_body]
fn weak_weak_count<T: ?Sized>(weak: &WeakRc<T>) -> (n: usize) {
    weak.weak.weak_count()
}

} // verus!
