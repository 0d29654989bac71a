use parc::erased_ptr::TypeErasedPtr;
use parc::lifecycle::weak_count_reading;

#[test]
fn erased_ptr_keeps_address_and_metadata() {
    let p = TypeErasedPtr::new(0xdead_beef, 3);
    assert_eq!(p.addr(), 0xdead_beef);
    assert_eq!(p.meta(), 3);
    assert_eq!(p, TypeErasedPtr { addr: 0xdead_beef, meta: 3 });
}

#[test]
fn erased_ptr_thin_has_no_metadata() {
    let p = TypeErasedPtr::thin(64);
    assert_eq!(p.addr(), 64);
    assert_eq!(p.meta(), 0);
    assert_eq!(p, TypeErasedPtr::new(64, 0));
    assert_ne!(p, TypeErasedPtr::new(64, 1));
    assert_ne!(p, TypeErasedPtr::thin(65));
}

#[test]
fn erased_ptr_is_a_plain_copy() {
    let p = TypeErasedPtr::new(usize::MAX, usize::MAX);
    let q = p;
    assert_eq!(p, q);
    assert_eq!(q.addr(), usize::MAX);
    assert_eq!(q.meta(), usize::MAX);
}

// With no strong handle left the weak count reads 0, whatever is tracked.
#[test]
fn weak_count_reads_zero_without_strong_handles() {
    assert_eq!(weak_count_reading(0, 0), 0);
    assert_eq!(weak_count_reading(0, 1), 0);
    assert_eq!(weak_count_reading(0, 17), 0);
    assert_eq!(weak_count_reading(0, usize::MAX), 0);
}

// While a strong handle is left the weak count is passed on.
#[test]
fn weak_count_is_passed_on_with_strong_handles() {
    assert_eq!(weak_count_reading(1, 0), 0);
    assert_eq!(weak_count_reading(1, 2), 2);
    assert_eq!(weak_count_reading(5, 3), 3);
    assert_eq!(weak_count_reading(usize::MAX, usize::MAX), usize::MAX);
}
