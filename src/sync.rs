//! Synchronisation primitives built on the atomic cells: a spin lock, a cell
//! guarded by it, a three-state readiness flag and a cell that is written at
//! most once.
use vstd::prelude::*;

use crate::atomic::AtomicBool;
use crate::atomic::AtomicU8;
use crate::atomic::Ordering;

verus! {

/// The lock word after an acquisition attempt on a lock whose word is
/// `locked`, and whether the attempt won: the word is set either way, and the
/// attempt wins exactly when the lock was free.
pub open spec fn acquire_outcome(locked: bool) -> (bool, bool) {
    (true, !locked)
}

/// A mutual exclusion primitive, facilitating busy-waiting.
pub struct SpinLock {
    lock: AtomicBool,
}

impl View for SpinLock {
    type V = bool;

    /// Whether the lock is held.
    closed spec fn view(&self) -> bool {
        self.lock@
    }
}

impl SpinLock {
    /// Creates a new, unlocked SpinLock.
    pub fn new() -> (r: Self)
        ensures
            !r@,
    {
        SpinLock { lock: AtomicBool::new(false) }
    }

    /// Acquires the lock.
    ///
    /// A lock held elsewhere would make this spin until it is released; a
    /// caller with exclusive access to the lock is the only one that could
    /// release it, so the lock must be free here.
    pub fn lock(&mut self)
        requires
            !old(self)@,
        ensures
            final(self)@,
    {
        let won = self.lock.compare_exchange(false, true, Ordering::SeqCst, Ordering::Relaxed);
        assert(won is Ok);
    }

    /// Tries to lock the SpinLock.
    /// Returns `true` if the lock was acquired.
    pub fn try_lock(&mut self) -> (r: bool)
        ensures
            final(self)@ == acquire_outcome(old(self)@).0,
            r == acquire_outcome(old(self)@).1,
    {
        !self.lock.swap(true, Ordering::Acquire)
    }

    /// Unlocks the SpinLock, which the caller holds.
    pub fn unlock(&mut self)
        requires
            old(self)@,
        ensures
            !final(self)@,
    {
        self.lock.store(false, Ordering::Release)
    }
}

/// Exclusive access to the value of a `SpinLocked`, handed out while its lock
/// is held. The value lives in the guard until the guard is handed back to
/// `SpinLocked::unlock`, so no other path reaches it meanwhile.
pub struct SpinLockGuard<T> {
    value: T,
}

impl<T> SpinLockGuard<T> {
    /// The guarded value.
    pub closed spec fn value(&self) -> T {
        self.value
    }

    /// Reads the guarded value.
    pub fn get(&self) -> (r: &T)
        ensures
            *r == self.value(),
    {
        &self.value
    }

    /// Replaces the guarded value and returns the previous one.
    pub fn replace(&mut self, value: T) -> (r: T)
        ensures
            r == old(self).value(),
            final(self).value() == value,
    {
        let mut previous = value;
        core::mem::swap(&mut self.value, &mut previous);
        previous
    }
}

/// A value that is reachable only while its spin lock is held.
pub struct SpinLocked<T> {
    lock: SpinLock,
    value: Option<T>,
}

impl<T> SpinLocked<T> {
    /// The lock is held exactly while the value is out in a guard.
    pub closed spec fn wf(&self) -> bool {
        self.lock@ <==> self.value is None
    }

    /// Whether the lock is held.
    pub closed spec fn is_locked(&self) -> bool {
        self.lock@
    }

    /// The value, while the lock is free.
    pub closed spec fn value(&self) -> T
        recommends
            !self.is_locked(),
    {
        self.value.unwrap()
    }

    /// Creates a new, unlocked SpinLocked holding `value`.
    pub fn new(value: T) -> (r: Self)
        ensures
            r.wf(),
            !r.is_locked(),
            r.value() == value,
    {
        SpinLocked { lock: SpinLock::new(), value: Some(value) }
    }

    /// Locks the SpinLocked and returns a guard that holds its value.
    ///
    /// As with `SpinLock::lock`, the lock must be free.
    pub fn lock(&mut self) -> (r: SpinLockGuard<T>)
        requires
            old(self).wf(),
            !old(self).is_locked(),
        ensures
            final(self).wf(),
            final(self).is_locked(),
            r.value() == old(self).value(),
    {
        self.lock.lock();
        let value = self.value.take();
        SpinLockGuard { value: value.unwrap() }
    }

    /// Tries to lock the SpinLocked; on success returns a guard that holds
    /// its value.
    pub fn try_lock(&mut self) -> (r: Option<SpinLockGuard<T>>)
        requires
            old(self).wf(),
        ensures
            final(self).wf(),
            final(self).is_locked(),
            r is Some <==> !old(self).is_locked(),
            r is Some ==> r.unwrap().value() == old(self).value(),
    {
        if self.lock.try_lock() {
            let value = self.value.take();
            Some(SpinLockGuard { value: value.unwrap() })
        } else {
            None
        }
    }

    /// Releases the lock, putting back the value that the guard holds.
    pub fn unlock(&mut self, guard: SpinLockGuard<T>)
        requires
            old(self).wf(),
            old(self).is_locked(),
        ensures
            final(self).wf(),
            !final(self).is_locked(),
            final(self).value() == guard.value(),
    {
        self.value = Some(guard.value);
        self.lock.unlock();
    }
}

/// The flag's value after `step(from)` on a flag holding `state`, and whether
/// the step won: it wins, and advances by one, exactly when the flag holds
/// `from`.
pub open spec fn step_outcome(state: u8, from: u8) -> (u8, bool) {
    if state == from {
        ((from + 1) as u8, true)
    } else {
        (state, false)
    }
}

/// A flag that moves once through `NOT_READY`, `IN_TRANSIT` and `READY`.
///
/// It gates a single write: the caller whose `step(NOT_READY)` wins writes
/// the guarded data and then publishes it with `step(IN_TRANSIT)`. A caller
/// that loses the first step waits until `is()` holds before it reads.
pub struct Ready {
    ready: AtomicU8,
}

/// Nobody has started the guarded write.
pub const NOT_READY: u8 = 0;

/// The guarded write is in progress.
pub const IN_TRANSIT: u8 = 1;

/// The guarded write is done and visible.
pub const READY: u8 = 2;

impl View for Ready {
    type V = u8;

    closed spec fn view(&self) -> u8 {
        self.ready@
    }
}

impl Ready {
    /// The flag holds one of its three states.
    pub open spec fn wf(&self) -> bool {
        self@ <= READY
    }

    /// Initializes a new flag, not ready.
    pub fn new() -> (r: Self)
        ensures
            r@ == NOT_READY,
            r.wf(),
    {
        Ready { ready: AtomicU8::new(NOT_READY) }
    }

    /// Moves the flag to the next state if it is in state `from`; returns
    /// whether it did.
    pub fn step(&mut self, from: u8) -> (r: bool)
        requires
            from < READY,
        ensures
            (final(self)@, r) == step_outcome(old(self)@, from),
            old(self).wf() ==> final(self).wf(),
    {
        self.forward(from, from + 1)
    }

    /// Moves the flag to state `to` if it is in state `from`; returns whether
    /// it did.
    fn forward(&mut self, from: u8, to: u8) -> (r: bool)
        ensures
            r == (old(self)@ == from),
            final(self)@ == if r {
                to
            } else {
                old(self)@
            },
    {
        self.ready.compare_exchange(from, to, Ordering::AcqRel, Ordering::Acquire).is_ok()
    }

    /// Returns true if the flag is ready.
    pub fn is(&self) -> (r: bool)
        ensures
            r == (self@ == READY),
    {
        self.ready.load(Ordering::Acquire) == READY
    }
}

/// The cell's contents after `set(value)` on a cell holding `cell`, and what
/// the call returns: an empty cell takes the value and hands it back; a full
/// one keeps its value and the call returns nothing.
pub open spec fn set_outcome<T>(cell: Option<T>, value: T) -> (Option<T>, Option<T>) {
    match cell {
        None => (Some(value), Some(value)),
        Some(_) => (cell, None),
    }
}

/// A value that is written at most once and read only after that write.
pub struct OnceCell<T> {
    value: Option<T>,
    init: Ready,
}

impl<T> View for OnceCell<T> {
    type V = Option<T>;

    /// The published value, if any.
    closed spec fn view(&self) -> Option<T> {
        if self.init@ == READY {
            self.value
        } else {
            None
        }
    }
}

impl<T> OnceCell<T> {
    /// The storage is filled exactly when the flag is ready; between calls
    /// the flag is never caught in transit.
    pub closed spec fn wf(&self) -> bool {
        &&& self.init@ == NOT_READY || self.init@ == READY
        &&& (self.init@ == READY <==> self.value is Some)
    }

    /// Initializes a new, empty OnceCell.
    pub fn new() -> (r: Self)
        ensures
            r.wf(),
            r@ is None,
    {
        OnceCell { value: None, init: Ready::new() }
    }

    /// Returns a reference to the value if it is initialized.
    pub fn get(&self) -> (r: Option<&T>)
        requires
            self.wf(),
        ensures
            r is Some <==> self@ is Some,
            r is Some ==> *r.unwrap() == self@.unwrap(),
    {
        if self.init.is() {
            Some(self.get_unchecked())
        } else {
            None
        }
    }

    /// Sets the value if it is not already initialized; returns a reference
    /// to it when this call wrote it.
    pub fn set(&mut self, value: T) -> (r: Option<&T>)
        requires
            old(self).wf(),
        ensures
            final(self).wf(),
            final(self)@ == set_outcome(old(self)@, value).0,
            r is Some <==> set_outcome(old(self)@, value).1 is Some,
            r is Some ==> *r.unwrap() == set_outcome(old(self)@, value).1.unwrap(),
    {
        if self.init.is() {
            return None;
        }
        if self.init.step(NOT_READY) {
            // Only the winner of the first step reaches IN_TRANSIT, so only
            // it writes the storage and only it can finish the publication.
            self.value = Some(value);
            let published = self.init.step(IN_TRANSIT);
            assert(published);
            return Some(self.get_unchecked());
        }
        None
    }

    /// Sets the value if it is not already initialized, and returns a
    /// reference to the value the cell holds afterwards.
    pub fn set_or_get(&mut self, value: T) -> (r: &T)
        requires
            old(self).wf(),
        ensures
            final(self).wf(),
            final(self)@ == set_outcome(old(self)@, value).0,
            *r == final(self)@.unwrap(),
    {
        let _ = self.set(value);
        self.get_unchecked()
    }

    /// Returns the value, computing it with `f` only if the cell is still
    /// empty.
    pub fn do_or_get<F>(&mut self, f: F) -> (r: &T) where F: FnOnce() -> T
        requires
            old(self).wf(),
            old(self)@ is None ==> f.requires(()),
        ensures
            final(self).wf(),
            final(self)@ is Some,
            *r == final(self)@.unwrap(),
            old(self)@ is Some ==> final(self)@ == old(self)@,
            old(self)@ is None ==> f.ensures((), *r),
    {
        if self.init.is() {
            return self.get_unchecked();
        }
        let value = f();
        self.set_or_get(value)
    }

    /// Returns a reference to the value, which must be written.
    fn get_unchecked(&self) -> (r: &T)
        requires
            self.value is Some,
        ensures
            *r == self.value.unwrap(),
    {
        self.value.as_ref().unwrap()
    }
}

/// One atomic step of callers contending for a spin lock whose word is
/// `locked` and whose holders are `holders`. The event `(caller, true)` is an
/// acquisition attempt, which wins as `try_lock` does; a spinning `lock` is a
/// run of such attempts. The event `(caller, false)` is a release by the
/// caller; a release by a caller that does not hold the lock breaks the
/// requirement of `unlock` and is no step of the system.
pub open spec fn contend(locked: bool, holders: Set<nat>, event: (nat, bool)) -> (bool, Set<nat>) {
    let (caller, acquire) = event;
    if acquire {
        let (word, won) = acquire_outcome(locked);
        (word, if won { holders.insert(caller) } else { holders })
    } else if holders.contains(caller) {
        (false, holders.remove(caller))
    } else {
        (locked, holders)
    }
}

/// The lock word and the holders after `events`, starting from a new lock.
pub open spec fn contention(events: Seq<(nat, bool)>) -> (bool, Set<nat>)
    decreases events.len(),
{
    if events.len() == 0 {
        (false, Set::empty())
    } else {
        let before = contention(events.drop_last());
        contend(before.0, before.1, events.last())
    }
}

/// Mutual exclusion: whatever the interleaving of acquisition attempts and
/// releases, at most one caller holds the lock, and the lock word is set
/// exactly when one does.
pub proof fn lemma_mutual_exclusion(events: Seq<(nat, bool)>)
    ensures
        contention(events).1.finite(),
        contention(events).1.len() <= 1,
        contention(events).0 <==> contention(events).1.len() == 1,
    decreases events.len(),
{
    if events.len() > 0 {
        let before = contention(events.drop_last());
        lemma_mutual_exclusion(events.drop_last());
        if !before.0 {
            assert(before.1 =~= Set::<nat>::empty());
        }
    }
}

/// Hand-over: once the holder releases the lock, the next acquisition
/// attempt wins, whoever makes it, and an attempt by anyone else right after
/// it fails.
pub proof fn lemma_release_hands_over(
    events: Seq<(nat, bool)>,
    holder: nat,
    next: nat,
    other: nat,
)
    requires
        contention(events).1.contains(holder),
        other != next,
    ensures
        contention(events.push((holder, false)).push((next, true))).1 == set![next],
        contention(events.push((holder, false)).push((next, true)).push((other, true))).1
            == set![next],
{
    lemma_mutual_exclusion(events);
    let released = events.push((holder, false));
    let taken = released.push((next, true));
    assert(released.drop_last() =~= events);
    assert(taken.drop_last() =~= released);
    assert(taken.push((other, true)).drop_last() =~= taken);
    let before = contention(events);
    assert(before.1.remove(holder) =~= Set::<nat>::empty()) by {
        if exists|x: nat| before.1.remove(holder).contains(x) {
            let x = choose|x: nat| before.1.remove(holder).contains(x);
            assert(set![holder, x].subset_of(before.1));
            vstd::set_lib::lemma_len_subset(set![holder, x], before.1);
        }
    }
    assert(contention(released) == (false, before.1.remove(holder)));
    assert(contention(taken) == (true, Set::<nat>::empty().insert(next)));
    assert(contention(taken).1 =~= set![next]);
}

/// The contents of a cell after `set` of each of `values` in turn.
pub open spec fn run_sets<T>(cell: Option<T>, values: Seq<T>) -> Option<T>
    decreases values.len(),
{
    if values.len() == 0 {
        cell
    } else {
        set_outcome(run_sets(cell, values.drop_last()), values.last()).0
    }
}

/// What the `i`-th of the `set` calls of `values` returns, on a cell that
/// held `cell` before the first.
pub open spec fn set_reply<T>(cell: Option<T>, values: Seq<T>, i: int) -> Option<T> {
    set_outcome(run_sets(cell, values.take(i)), values[i]).1
}

/// Single-writer publication: of any order of `set` calls on an empty cell,
/// the first returns its own value, every other one returns nothing, and
/// from the first on the cell holds that value.
pub proof fn lemma_single_writer<T>(values: Seq<T>)
    requires
        values.len() > 0,
    ensures
        set_reply(None, values, 0) == Some(values[0]),
        forall|i: int| 0 < i < values.len() ==> set_reply(None, values, i) is None,
        forall|i: int| 0 < i <= values.len() ==> run_sets(None, values.take(i)) == Some(values[0]),
{
    assert(values.take(0) =~= Seq::<T>::empty());
    assert forall|i: int| 0 < i <= values.len() implies run_sets(None, values.take(i)) == Some(
        values[0],
    ) by {
        lemma_first_set_kept(values, i);
    }
    assert forall|i: int| 0 < i < values.len() implies set_reply(None, values, i) is None by {
        lemma_first_set_kept(values, i);
    }
}

/// After the first `i` of the `set` calls of `values` on an empty cell, with
/// `i` at least one, the cell holds the first value.
proof fn lemma_first_set_kept<T>(values: Seq<T>, i: int)
    requires
        0 < i <= values.len(),
    ensures
        run_sets(None, values.take(i)) == Some(values[0]),
    decreases i,
{
    assert(values.take(i).drop_last() =~= values.take(i - 1));
    if i > 1 {
        lemma_first_set_kept(values, i - 1);
    } else {
        assert(values.take(0) =~= Seq::<T>::empty());
    }
}

/// The flag's value after `step(from)` for each of `froms` in turn.
pub open spec fn run_steps(state: u8, froms: Seq<u8>) -> u8
    decreases froms.len(),
{
    if froms.len() == 0 {
        state
    } else {
        step_outcome(run_steps(state, froms.drop_last()), froms.last()).0
    }
}

/// Monotonic readiness: steps never lower the flag nor carry it past
/// `READY`; once a `step(NOT_READY)` has won, so that the flag has left
/// `NOT_READY`, every later `step(NOT_READY)` fails.
pub proof fn lemma_monotonic_readiness(state: u8, froms: Seq<u8>)
    requires
        state <= READY,
        forall|i: int| 0 <= i < froms.len() ==> froms[i] < READY,
    ensures
        state <= run_steps(state, froms) <= READY,
        state != NOT_READY ==> forall|i: int|
            0 <= i < froms.len() && froms[i] == NOT_READY ==> !step_outcome(
                run_steps(state, froms.take(i)),
                NOT_READY,
            ).1,
    decreases froms.len(),
{
    if froms.len() > 0 {
        lemma_monotonic_readiness(state, froms.drop_last());
    }
    assert forall|i: int| 0 <= i < froms.len() implies state <= run_steps(state, froms.take(i))
        by {
        assert forall|j: int| 0 <= j < froms.take(i).len() implies froms.take(i)[j] < READY by {}
        lemma_monotonic_readiness(state, froms.take(i));
    }
}

} // verus!
