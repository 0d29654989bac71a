use parc::erased_ptr::TypeErasedPtr;
use parc::prc;
use parc::prc::erased_rc::TypeErasedRc;
use parc::sync;
use parc::sync::erased_arc::TypeErasedArc;
use std::cell::RefCell;
use std::rc::Rc;
use std::sync::Arc;

// An array of three elements, exposed as a slice: the view is the address
// of the first element and the element count. Downgrading and upgrading
// brings the same view back, and the slice under it still reads [3, 2, 1].
#[test]
fn projected_slice_survives_downgrade_and_upgrade() {
    let arc = Arc::new([3u32, 2, 1]);
    let slice: &[u32] = &arc[..];
    let view = TypeErasedPtr::new(slice.as_ptr() as usize, slice.len());

    let whole = sync::Projected::new(TypeErasedArc::new(arc.clone()));
    let projected = whole.project(view);
    assert_eq!(projected.as_ptr(), view);
    assert_eq!(projected.owner().arc_ptr(), whole.owner().arc_ptr());

    let weak = projected.downgrade();
    let weak = weak.clone();
    let upgraded = weak.upgrade();
    assert!(upgraded.is_some());
    let upgraded = upgraded.unwrap();

    assert_eq!(upgraded.as_ptr(), view);
    assert_eq!(upgraded.as_ptr().addr(), arc[..].as_ptr() as usize);
    assert_eq!(upgraded.as_ptr().meta(), 3);
    assert_eq!(upgraded.owner().arc_ptr(), projected.owner().arc_ptr());
    assert_eq!(&arc[..], &[3u32, 2, 1]);
}

// 42, exposed through an interface; the only strong handle is dropped after
// the downgrade, so there is nothing left to upgrade to.
#[test]
fn projected_trait_object_is_gone_after_last_strong_handle() {
    let arc = Arc::new(42u32);
    let object: &(dyn std::fmt::Display + Send + Sync) = &*arc;
    let view = TypeErasedPtr::new(std::ptr::from_ref(object).addr(), 1);

    let projected = sync::Projected::with_view(TypeErasedArc::new(arc), view);
    let weak = projected.downgrade();
    assert_eq!(weak.strong_count(), 1);
    std::mem::drop(projected);

    assert!(weak.upgrade().is_none());
    assert_eq!(weak.strong_count(), 0);
    assert_eq!(weak.weak_count(), 0);
}

// The same two cases on the single-thread handles.
#[test]
fn prc_projected_slice_survives_downgrade_and_upgrade() {
    let rc = Rc::new([3u32, 2, 1]);
    let view = TypeErasedPtr::new(rc[..].as_ptr() as usize, 3);

    let projected = prc::Projected::new(TypeErasedRc::new(rc.clone())).project(view);
    let upgraded = projected.downgrade().upgrade().unwrap();

    assert_eq!(upgraded.as_ptr(), view);
    assert_eq!(upgraded.owner().as_ptr(), projected.owner().as_ptr());
    assert_eq!(projected.strong_count(), 3);
    assert_eq!(&rc[..], &[3u32, 2, 1]);
}

#[test]
fn prc_projected_is_gone_after_last_strong_handle() {
    let projected = prc::Projected::new(TypeErasedRc::new(Rc::new(42u32)));
    let weak = projected.downgrade();
    std::mem::drop(projected);
    assert!(weak.upgrade().is_none());
}

// A projected handle keeps the allocation alive on its own, and what it
// exposes is the very storage that the other handles of the allocation
// reach: a member changed through one of them is changed at the view's
// address.
#[test]
fn prc_projection_to_member_shares_storage() {
    struct HasMembers {
        _unused: usize,
        a: RefCell<usize>,
    }
    let rc = Rc::new(HasMembers { _unused: 64, a: RefCell::new(432) });
    let whole = prc::Projected::new(TypeErasedRc::new(rc.clone()));
    let member = whole.project(TypeErasedPtr::thin(std::ptr::from_ref(&rc.a).addr()));
    std::mem::drop(whole);

    assert_eq!(member.strong_count(), 2);
    assert_eq!(*rc.a.borrow(), 432);
    *rc.a.borrow_mut() = 15;
    assert_eq!(member.as_ptr().addr(), std::ptr::from_ref(&rc.a).addr());
    assert_eq!(*rc.a.borrow(), 15);

    // the member lies inside the payload that the owner addresses
    let base = member.owner().as_ptr().addr();
    assert!(member.as_ptr().addr() >= base);
    assert!(member.as_ptr().addr() < base + std::mem::size_of::<HasMembers>());

    std::mem::drop(rc);
    assert_eq!(member.strong_count(), 1);
}

// A view of a view keeps the first owner: no chain of owners builds up.
#[test]
fn projecting_again_keeps_the_first_owner() {
    let arc = Arc::new((1u8, [2u16, 3, 4]));
    let first = sync::Projected::new(TypeErasedArc::new(arc.clone()));
    let second = first.project(TypeErasedPtr::thin(std::ptr::from_ref(&arc.1).addr()));
    let third = second.project(TypeErasedPtr::new(arc.1[1..].as_ptr() as usize, 2));

    assert_eq!(third.owner().arc_ptr(), first.owner().arc_ptr());
    assert_eq!(third.owner().arc_ptr().addr(), Arc::as_ptr(&arc) as usize);
    assert_eq!(third.as_ptr().meta(), 2);
    assert_eq!(third.strong_count(), 4);

    std::mem::drop(first);
    std::mem::drop(second);
    assert_eq!(third.strong_count(), 2);
    assert_eq!(Arc::strong_count(&arc), 2);
}

// The whole payload is exposed through the owner's own pointer.
#[test]
fn projected_new_exposes_the_payload() {
    let arc = Arc::new(7u64);
    let addr = Arc::as_ptr(&arc) as usize;
    let projected = sync::Projected::new(TypeErasedArc::new(arc));
    assert_eq!(projected.as_ptr(), TypeErasedPtr::thin(addr));
    assert_eq!(projected.owner().arc_ptr(), TypeErasedPtr::thin(addr));
    assert_eq!(projected.strong_count(), 1);
    assert_eq!(projected.weak_count(), 0);
}

// Cloning shares owner and view; the counts follow the handles.
#[test]
fn projected_clone_shares_owner_and_view() {
    let rc = Rc::new(String::from("Hello!"));
    let view = TypeErasedPtr::new(rc.as_ptr() as usize, rc.len());
    let projected = prc::Projected::with_view(TypeErasedRc::new(rc), view);
    let copy = projected.clone();
    assert_eq!(copy.as_ptr(), projected.as_ptr());
    assert_eq!(copy.owner().as_ptr(), projected.owner().as_ptr());
    assert_eq!(projected.strong_count(), 2);

    let weak = copy.downgrade();
    let weak2 = weak.clone();
    assert_eq!(projected.weak_count(), 2);
    assert_eq!(weak2.weak_count(), 2);
    assert_eq!(weak2.strong_count(), 2);
}

// The second half of an upgrade, on both answers that an owner can give.
#[test]
fn revive_pairs_the_owner_with_the_remembered_view() {
    let view = TypeErasedPtr::new(0x1000, 5);
    let owner = TypeErasedArc::new(Arc::new(1u8));
    let weak = sync::Projected::with_view(owner.clone(), view).downgrade();

    assert!(weak.revive(None).is_none());

    let revived = weak.revive(Some(owner.clone())).unwrap();
    assert_eq!(revived.as_ptr(), view);
    assert_eq!(revived.owner().arc_ptr(), owner.arc_ptr());
    assert_eq!(owner.strong_count(), 2);
}

#[test]
fn prc_revive_pairs_the_owner_with_the_remembered_view() {
    let view = TypeErasedPtr::new(0x2000, 0);
    let owner = TypeErasedRc::new(Rc::new(1u8));
    let weak = prc::Projected::with_view(owner.clone(), view).downgrade();

    assert!(weak.revive(None).is_none());

    let revived = weak.revive(Some(owner.clone())).unwrap();
    assert_eq!(revived.as_ptr(), view);
    assert_eq!(revived.owner().as_ptr(), owner.as_ptr());
}

// Between the downgrade and the upgrade every strong handle of the projected
// kind goes away, while code that knows nothing of projections keeps the
// allocation alive: the upgrade succeeds and the view is the one remembered.
#[test]
fn upgrade_follows_the_owner_alone() {
    let arc = Arc::new([10u8, 20, 30, 40]);
    let view = TypeErasedPtr::new(arc[1..].as_ptr() as usize, 3);
    let projected = sync::Projected::with_view(TypeErasedArc::new(arc.clone()), view);
    let weak = projected.downgrade();
    std::mem::drop(projected);
    assert_eq!(weak.strong_count(), 1);

    let unrelated = arc.clone();
    std::mem::drop(arc);
    let arc = unrelated;

    let upgraded = weak.upgrade().unwrap();
    assert_eq!(upgraded.as_ptr(), view);
    assert_eq!(upgraded.as_ptr().addr(), arc[1..].as_ptr() as usize);
    assert_eq!(upgraded.strong_count(), 2);
    assert_eq!(&arc[1..], &[20u8, 30, 40]);

    // and once the allocation is gone, nothing is handed out, though the
    // weak handle still remembers the view
    std::mem::drop(upgraded);
    std::mem::drop(arc);
    assert!(weak.upgrade().is_none());
    assert!(weak.clone().upgrade().is_none());
}

// An unsized payload exposed as a whole: the view is the owner's pointer,
// length included.
#[test]
fn projected_new_exposes_an_unsized_payload_with_its_metadata() {
    let arc: Arc<[u32]> = Arc::from([3u32, 2, 1]);
    let ptr = TypeErasedPtr::new(arc.as_ptr() as usize, arc.len());
    let projected = sync::Projected::new(TypeErasedArc::new_unsized(arc.clone(), ptr));
    assert_eq!(projected.as_ptr(), ptr);
    assert_eq!(projected.as_ptr().meta(), 3);
    assert_eq!(projected.owner().arc_ptr(), ptr);

    let upgraded = projected.downgrade().upgrade().unwrap();
    assert_eq!(upgraded.as_ptr(), ptr);
    assert_eq!(upgraded.strong_count(), 3);
    assert_eq!(&arc[..], &[3u32, 2, 1]);

    let rc: Rc<str> = Rc::from("Hello!");
    let ptr = TypeErasedPtr::new(rc.as_ptr() as usize, rc.len());
    let projected = prc::Projected::new(TypeErasedRc::new_unsized(rc, ptr));
    assert_eq!(projected.as_ptr(), ptr);
    assert_eq!(projected.as_ptr().meta(), 6);
}
