use hal_core::atomic::AtomicBool;
use hal_core::atomic::AtomicU8;
use hal_core::atomic::Ordering;

#[test]
fn u8_new_holds_initial_value() {
    let a = AtomicU8::new(42);
    assert_eq!(a.load(Ordering::Relaxed), 42);
}

#[test]
fn u8_load_after_store_returns_stored_value() {
    let mut a = AtomicU8::new(0);
    a.store(9, Ordering::Release);
    assert_eq!(a.load(Ordering::Acquire), 9);
    a.store(200, Ordering::SeqCst);
    assert_eq!(a.load(Ordering::Relaxed), 200);
}

#[test]
fn u8_compare_exchange_matching_installs_new_value() {
    let mut a = AtomicU8::new(3);
    assert_eq!(a.compare_exchange(3, 4, Ordering::AcqRel, Ordering::Acquire), Ok(3));
    assert_eq!(a.load(Ordering::Relaxed), 4);
}

#[test]
fn u8_compare_exchange_mismatch_reports_previous_and_keeps_it() {
    let mut a = AtomicU8::new(3);
    assert_eq!(a.compare_exchange(2, 9, Ordering::AcqRel, Ordering::Acquire), Err(3));
    assert_eq!(a.load(Ordering::Relaxed), 3);
}

#[test]
fn u8_compare_exchange_after_store_succeeds() {
    let mut a = AtomicU8::new(1);
    a.store(77, Ordering::Relaxed);
    assert_eq!(a.compare_exchange(77, 78, Ordering::SeqCst, Ordering::SeqCst), Ok(77));
    assert_eq!(a.load(Ordering::Relaxed), 78);
}

#[test]
fn bool_store_load_and_swap() {
    let mut b = AtomicBool::new(false);
    assert!(!b.load(Ordering::Relaxed));
    b.store(true, Ordering::Release);
    assert!(b.load(Ordering::Acquire));
    assert!(b.swap(false, Ordering::AcqRel));
    assert!(!b.load(Ordering::Relaxed));
    assert!(!b.swap(true, Ordering::AcqRel));
    assert!(b.load(Ordering::Relaxed));
}

#[test]
fn bool_compare_exchange_both_ways() {
    let mut b = AtomicBool::new(false);
    assert_eq!(b.compare_exchange(false, true, Ordering::SeqCst, Ordering::Relaxed), Ok(false));
    assert_eq!(b.compare_exchange(false, true, Ordering::SeqCst, Ordering::Relaxed), Err(true));
    assert!(b.load(Ordering::Relaxed));
}
