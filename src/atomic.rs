//! Atomic cells.
//!
//! Every operation takes exclusive access to the cell for its whole duration,
//! the way the critical-section emulation of a single-core target disables
//! interrupts around the plain read, write or compare. No other operation on
//! the same cell can interleave with it, so each one is a single indivisible
//! step of the cell's value.
use vstd::prelude::*;

verus! {

/// Memory ordering requested of an atomic operation.
///
/// Accepted so that callers can state the ordering they rely on; an operation
/// that already excludes every other access to the cell is totally ordered,
/// so the value passed changes nothing.
#[derive(Clone, Copy, Debug, PartialEq, Eq)]
pub enum Ordering {
    Relaxed,
    Release,
    Acquire,
    AcqRel,
    SeqCst,
}

/// What a compare-exchange on a cell holding `value` reports: the previous
/// value, as `Ok` when it matched `current`, as `Err` otherwise.
pub open spec fn cas_result<V>(value: V, current: V) -> Result<V, V> {
    if value == current {
        Ok(value)
    } else {
        Err(value)
    }
}

/// The value a cell holds after a compare-exchange from `current` to `new`.
pub open spec fn after_cas<V>(value: V, current: V, new: V) -> V {
    if value == current {
        new
    } else {
        value
    }
}

/// An atomic `u8`.
pub struct AtomicU8 {
    value: u8,
}

impl View for AtomicU8 {
    type V = u8;

    closed spec fn view(&self) -> u8 {
        self.value
    }
}

impl AtomicU8 {
    /// Creates a new atomic u8 holding `value`.
    pub fn new(value: u8) -> (r: Self)
        ensures
            r@ == value,
    {
        AtomicU8 { value }
    }

    /// Loads the value.
    pub fn load(&self, _order: Ordering) -> (r: u8)
        ensures
            r == self@,
    {
        self.value
    }

    /// Stores a value.
    pub fn store(&mut self, value: u8, _order: Ordering)
        ensures
            final(self)@ == value,
    {
        self.value = value;
    }

    /// Replaces the value by `current` with `new` if it equals `current`;
    /// reports the previous value either way.
    pub fn compare_exchange(
        &mut self,
        current: u8,
        new: u8,
        _success: Ordering,
        _failure: Ordering,
    ) -> (r: Result<u8, u8>)
        ensures
            r == cas_result(old(self)@, current),
            final(self)@ == after_cas(old(self)@, current, new),
    {
        let value = self.value;
        if value == current {
            self.value = new;
            Ok(value)
        } else {
            Err(value)
        }
    }
}

/// An atomic `bool`.
pub struct AtomicBool {
    value: bool,
}

impl View for AtomicBool {
    type V = bool;

    closed spec fn view(&self) -> bool {
        self.value
    }
}

impl AtomicBool {
    /// Creates a new atomic bool holding `value`.
    pub fn new(value: bool) -> (r: Self)
        ensures
            r@ == value,
    {
        AtomicBool { value }
    }

    /// Loads the value.
    pub fn load(&self, _order: Ordering) -> (r: bool)
        ensures
            r == self@,
    {
        self.value
    }

    /// Stores a value.
    pub fn store(&mut self, value: bool, _order: Ordering)
        ensures
            final(self)@ == value,
    {
        self.value = value;
    }

    /// Stores `value` and returns the previous value.
    pub fn swap(&mut self, value: bool, _order: Ordering) -> (r: bool)
        ensures
            r == old(self)@,
            final(self)@ == value,
    {
        let previous = self.value;
        self.value = value;
        previous
    }

    /// Replaces the value by `new` if it equals `current`; reports the
    /// previous value either way.
    pub fn compare_exchange(
        &mut self,
        current: bool,
        new: bool,
        _success: Ordering,
        _failure: Ordering,
    ) -> (r: Result<bool, bool>)
        ensures
            r == cas_result(old(self)@, current),
            final(self)@ == after_cas(old(self)@, current, new),
    {
        let value = self.value;
        if value == current {
            self.value = new;
            Ok(value)
        } else {
            Err(value)
        }
    }
}

/// A compare-exchange whose expected value matches the cell always succeeds,
/// reports the matched value and installs the new one; one that does not
/// match leaves the cell as it was.
pub proof fn lemma_cas_matching<V>(value: V, current: V, new: V)
    ensures
        value == current ==> cas_result(value, current) == Ok::<V, V>(value) && after_cas(
            value,
            current,
            new,
        ) == new,
        value != current ==> cas_result(value, current) == Err::<V, V>(value) && after_cas(
            value,
            current,
            new,
        ) == value,
{
}

} // verus!
