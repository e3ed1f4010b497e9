use hal_core::sync::OnceCell;
use hal_core::sync::Ready;
use hal_core::sync::IN_TRANSIT;
use hal_core::sync::NOT_READY;
use std::cell::Cell;

#[test]
fn ready_steps_through_its_states() {
    let mut r = Ready::new();
    assert!(!r.is());
    assert!(!r.step(IN_TRANSIT));
    assert!(r.step(NOT_READY));
    assert!(!r.is());
    assert!(r.step(IN_TRANSIT));
    assert!(r.is());
}

#[test]
fn ready_repeated_first_step_fails_after_success() {
    let mut r = Ready::new();
    assert!(r.step(NOT_READY));
    assert!(!r.step(NOT_READY));
    assert!(!r.step(NOT_READY));
    assert!(r.step(IN_TRANSIT));
    assert!(!r.step(NOT_READY));
    assert!(!r.step(IN_TRANSIT));
    assert!(r.is());
}

#[test]
fn once_cell_empty_get_is_none() {
    let c: OnceCell<u32> = OnceCell::new();
    assert!(c.get().is_none());
}

#[test]
fn once_cell_set_publishes_first_value_only() {
    let mut c = OnceCell::new();
    assert_eq!(c.set(3u32), Some(&3));
    assert_eq!(c.get(), Some(&3));
    assert_eq!(c.set(4), None);
    assert_eq!(c.get(), Some(&3));
}

#[test]
fn once_cell_single_writer_among_many_sets() {
    let mut c = OnceCell::new();
    let values = [8u32, 1, 5, 6];
    let mut winners = Vec::new();
    for v in values {
        if let Some(r) = c.set(v) {
            winners.push(*r);
        }
    }
    assert_eq!(winners, vec![8]);
    assert_eq!(c.get(), Some(&8));
}

#[test]
fn once_cell_set_or_get_returns_published_value() {
    let mut c = OnceCell::new();
    assert_eq!(*c.set_or_get(String::from("first")), "first");
    assert_eq!(*c.set_or_get(String::from("second")), "first");
    assert_eq!(c.get().map(|s| s.as_str()), Some("first"));
}

#[test]
fn once_cell_do_or_get_runs_only_the_winning_closure() {
    let mut c = OnceCell::new();
    let calls = Cell::new(0u32);
    let a = *c.do_or_get(|| {
        calls.set(calls.get() + 1);
        5u32
    });
    let b = *c.do_or_get(|| {
        calls.set(calls.get() + 1);
        7u32
    });
    assert_eq!(calls.get(), 1);
    assert_eq!(a, b);
    assert!(a == 5 || a == 7);
    assert_eq!(a, 5);
}
