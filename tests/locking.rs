use hal_core::sync::SpinLock;
use hal_core::sync::SpinLocked;

#[test]
fn spin_lock_starts_unlocked_and_try_lock_wins_once() {
    let mut l = SpinLock::new();
    assert!(l.try_lock());
    assert!(!l.try_lock());
    assert!(!l.try_lock());
}

#[test]
fn spin_lock_lock_then_unlock_hands_over_to_one_acquirer() {
    let mut l = SpinLock::new();
    l.lock();
    assert!(!l.try_lock());
    l.unlock();
    // exactly one of the contenders that follow wins
    let first = l.try_lock();
    let second = l.try_lock();
    assert!(first);
    assert!(!second);
}

#[test]
fn spin_locked_guard_holds_value_and_unlock_puts_it_back() {
    let mut cell = SpinLocked::new(10u32);
    let mut guard = cell.lock();
    assert_eq!(*guard.get(), 10);
    assert_eq!(guard.replace(11), 10);
    assert!(cell.try_lock().is_none());
    cell.unlock(guard);
    let guard = cell.try_lock().expect("free after unlock");
    assert_eq!(*guard.get(), 11);
    cell.unlock(guard);
}

#[test]
fn spin_locked_try_lock_excludes_second_guard() {
    let mut cell = SpinLocked::new(String::from("shared"));
    let guard = cell.try_lock();
    assert!(guard.is_some());
    assert!(cell.try_lock().is_none());
    let guard = guard.unwrap();
    assert_eq!(guard.get().as_str(), "shared");
    cell.unlock(guard);
    assert!(cell.try_lock().is_some());
}
