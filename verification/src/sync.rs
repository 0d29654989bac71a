//! Handles whose counts are atomic, and the projected handles built on them.
//!
//! A projected handle pairs the handle that keeps an allocation alive with a
//! second pointer, the view, that addresses whatever part of the payload is
//! exposed. The two are stored side by side and never derived from one
//! another again: the view is fixed when the handle is made, and only the
//! owner decides how long the allocation lives.

pub mod erased_arc;

use vstd::prelude::*;
use crate::erased_ptr::TypeErasedPtr;
use crate::sync::erased_arc::{TypeErasedArc, TypeErasedWeak};

verus! {

/// What a projected handle stands for: the allocation it keeps alive (or
/// observes) and the pointer it exposes.
pub struct ProjectedView {
    pub owner: TypeErasedPtr,
    pub view: TypeErasedPtr,
}

/// A strong handle on an allocation together with a view into its payload.
pub struct Projected {
    owner: TypeErasedArc,
    view: TypeErasedPtr,
}

impl View for Projected {
    type V = ProjectedView;

    closed spec fn view(&self) -> ProjectedView {
        ProjectedView { owner: self.owner@, view: self.view }
    }
}

impl Projected {
    /// The handle that exposes the whole payload of `owner`: its view is the
    /// owner's own erased pointer, with whatever metadata that has.
    pub fn new(owner: TypeErasedArc) -> (p: Self)
        ensures
            p@ == (ProjectedView { owner: owner@, view: owner@ }),
    {
        let view = owner.arc_ptr();
        Projected { owner, view }
    }

    /// The handle that keeps `owner`'s allocation alive and exposes `view`,
    /// an address that the caller derived from the payload.
    pub fn with_view(owner: TypeErasedArc, view: TypeErasedPtr) -> (p: Self)
        ensures
            p@ == (ProjectedView { owner: owner@, view }),
    {
        Projected { owner, view }
    }

    /// A further projection: a handle on the same allocation that exposes
    /// `view`, derived from what this handle exposes. The owner stays the
    /// first one, however many projections came before.
    pub fn project(&self, view: TypeErasedPtr) -> (p: Self)
        ensures
            p@ == (ProjectedView { owner: self@.owner, view }),
    {
        Projected { owner: self.owner.clone(), view }
    }

    /// The pointer that this handle exposes.
    pub fn as_ptr(&self) -> (p: TypeErasedPtr)
        ensures
            p == self@.view,
    {
        self.view
    }

    /// The handle that keeps the allocation alive.
    pub fn owner(&self) -> (o: &TypeErasedArc)
        ensures
            o@ == self@.owner,
    {
        &self.owner
    }

    /// Whether `weak` is what [`Projected::downgrade`] may hand back.
    pub open spec fn downgrades_to(&self, weak: ProjectedWeak) -> bool {
        weak@ == self@
    }

    /// A weak handle on the same allocation that remembers the view.
    pub fn downgrade(&self) -> (w: ProjectedWeak)
        ensures
            self.downgrades_to(w),
    {
        ProjectedWeak { owner: self.owner.downgrade(), view: self.view }
    }

    /// The number of strong handles on the allocation, this one included.
    pub fn strong_count(&self) -> (n: usize)
        ensures
            n >= 1,
    {
        self.owner.strong_count()
    }

    /// The number of weak handles on the allocation.
    pub fn weak_count(&self) -> (n: usize) {
        self.owner.weak_count()
    }
}

impl Clone for Projected {
    /// One more strong handle with the same owner and the same view.
    fn clone(&self) -> (r: Self)
        ensures
            r@ == self@,
    {
        Projected { owner: self.owner.clone(), view: self.view }
    }
}

/// A weak handle on an allocation together with the view that a projected
/// handle exposed when it was downgraded. The view means something only
/// while the allocation lives, so it is handed out only by a successful
/// [`ProjectedWeak::upgrade`].
pub struct ProjectedWeak {
    owner: TypeErasedWeak,
    view: TypeErasedPtr,
}

impl View for ProjectedWeak {
    type V = ProjectedView;

    closed spec fn view(&self) -> ProjectedView {
        ProjectedView { owner: self.owner@, view: self.view }
    }
}

impl ProjectedWeak {
    /// Whether `outcome` is what [`ProjectedWeak::upgrade`] may hand back.
    pub open spec fn upgrades_to(&self, outcome: Option<Projected>) -> bool {
        outcome matches Some(p) ==> p@ == self@
    }

    /// A projected handle with the remembered view, or `None` where the
    /// payload has been destroyed. The owner alone decides which; the view
    /// is not looked at.
    pub fn upgrade(&self) -> (r: Option<Projected>)
        ensures
            self.upgrades_to(r),
    {
        self.revive(self.owner.upgrade())
    }

    /// The second half of [`ProjectedWeak::upgrade`]: pairs the answer that
    /// the weak owner gave with the remembered view. Nothing comes back
    /// exactly when the owner could not be upgraded; what comes back is the
    /// upgraded owner with the remembered view, unchanged.
    pub fn revive(&self, owner: Option<TypeErasedArc>) -> (r: Option<Projected>)
        ensures
            r is Some <==> owner is Some,
            r matches Some(p) ==> owner matches Some(o) && p@ == (ProjectedView {
                owner: o@,
                view: self@.view,
            }),
    {
        match owner {
            Some(owner) => Some(Projected { owner, view: self.view }),
            None => None,
        }
    }

    /// The number of strong handles on the allocation; 0 once the payload
    /// has been destroyed.
    pub fn strong_count(&self) -> (n: usize) {
        self.owner.strong_count()
    }

    /// The number of weak handles on the allocation while a strong handle is
    /// left, and 0 from then on.
    pub fn weak_count(&self) -> (n: usize) {
        self.owner.weak_count()
    }
}

impl Clone for ProjectedWeak {
    /// One more weak handle with the same owner and the same view.
    fn clone(&self) -> (r: Self)
        ensures
            r@ == self@,
    {
        ProjectedWeak { owner: self.owner.clone(), view: self.view }
    }
}

/// Downgrading a projected handle and upgrading the result gives, whenever
/// it gives anything, a handle with the same owner pointer and the same view.
pub proof fn downgrade_then_upgrade_keeps_view(p: Projected, w: ProjectedWeak, q: Projected)
    requires
        p.downgrades_to(w),
        w.upgrades_to(Some(q)),
    ensures
        q@ == p@,
{
}

} // verus!
