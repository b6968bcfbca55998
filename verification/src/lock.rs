//! The lock itself: the protected value beside the state word, and the two
//! guards that mediate access to it.

use vstd::prelude::*;

use core::sync::atomic::AtomicU32;
use core::sync::atomic::Ordering;

use crate::state::read_release_wake;
use crate::state::read_step;
use crate::state::ReadStep;
use crate::state::WRITER_SENTINEL;

verus! {

/// How many acquisition attempts a lock is willing to spend before it
/// reports exhaustion. An attempt is one exchange on the word or one stay
/// in the parking facility, so this budget outlasts any workload; it is
/// here so that the acquisition loops provably terminate.
pub const ATTEMPT_BUDGET: u64 = u64::MAX;

/// Relies on atomic_wait::wait: blocks the caller while the word equals
/// `expected`, may return spuriously, and returns with nothing to show.
#[verifier::external_body]
fn futex_wait(a: &AtomicU32, expected: u32)
    no_unwind
{
    atomic_wait::wait(a, expected)
}

/// Relies on atomic_wait::wake_one: wakes at most one thread parked on the
/// word; nothing holds of which one.
#[verifier::external_body]
fn futex_wake_one(a: &AtomicU32)
    no_unwind
{
    atomic_wait::wake_one(a)
}

/// Relies on atomic_wait::wake_all: wakes every thread parked on the word.
#[verifier::external_body]
fn futex_wake_all(a: &AtomicU32)
    no_unwind
{
    atomic_wait::wake_all(a)
}

/// A reader–writer lock: the protected value beside the atomic word that
/// counts its readers, carries the writer sentinel, and is parked on.
pub struct RwLock<T> {
    state: AtomicU32,
    value: T,
}

impl<T> View for RwLock<T> {
    type V = T;

    closed spec fn view(&self) -> T {
        self.value
    }
}

impl<T> RwLock<T> {
    /// A fresh lock around `value`: unlocked, no guard live.
    pub fn new(value: T) -> (r: Self)
        ensures
            r@ == value,
    {
        RwLock { state: AtomicU32::new(0), value }
    }

    /// Shared acquisition: blocks while a writer holds the lock; any number
    /// of readers short of the bound may hold at once. The guard grants
    /// shared access to the protected value and releases the lock when
    /// dropped. Returns nothing when the reader bound is exhausted — one
    /// more reader would collide with the writer sentinel — or when the
    /// attempt budget runs out, which no workload reaches.
    pub fn read(&self) -> (g: Option<ReadGuard<'_, T>>)
        ensures
            g matches Some(r) ==> r@ == self@,
    {
        let mut s = self.state.load(Ordering::Relaxed);
        let mut budget: u64 = ATTEMPT_BUDGET;
        while budget > 0
            decreases budget,
        {
            budget = budget - 1;
            match read_step(s) {
                ReadStep::Acquire(target) => {
                    match self.state.compare_exchange_weak(
                        s,
                        target,
                        Ordering::Acquire,
                        Ordering::Relaxed,
                    ) {
                        Ok(_) => {
                            return Some(ReadGuard { lock: self });
                        },
                        Err(observed) => {
                            s = observed;
                        },
                    }
                },
                ReadStep::Exhausted => {
                    // The count is one short of the sentinel: one more
                    // reader would collide with it. Surface the exhausted
                    // bound to the caller.
                    return None;
                },
                ReadStep::Park => {
                    // A writer holds the lock, so the observed word is the
                    // sentinel. Park on it: any release stores another
                    // value first, so the wait cannot sleep past one.
                    futex_wait(&self.state, WRITER_SENTINEL);
                    s = self.state.load(Ordering::Relaxed);
                },
            }
        }
        None
    }

    /// Exclusive acquisition: blocks while any guard is live. The lock is
    /// taken through a unique borrow, so no other guard can exist beside
    /// the one returned; the guard grants shared and exclusive access to
    /// the protected value and releases the lock when dropped. Returns
    /// nothing only when the attempt budget is exhausted, which no
    /// workload reaches.
    pub fn write(&mut self) -> (g: Option<WriteGuard<'_, T>>)
        ensures
            g is None ==> *final(self) == *old(self),
            g matches Some(w) ==> w@ == old(self)@,
            g matches Some(w) ==> *w.loan() == *old(self) && *final(w.loan()) == *final(self),
    {
        let mut budget: u64 = ATTEMPT_BUDGET;
        while budget > 0
            invariant
                *self == *old(self),
            decreases budget,
        {
            budget = budget - 1;
            match self.state.compare_exchange(
                0,
                WRITER_SENTINEL,
                Ordering::Acquire,
                Ordering::Relaxed,
            ) {
                Ok(_) => {
                    return Some(WriteGuard { lock: self });
                },
                Err(s) => {
                    // Some guard is live: park on the observed word; any
                    // release changes it and lets the exchange be retried.
                    futex_wait(&self.state, s);
                },
            }
        }
        None
    }
}

/// A guard for shared access: while it is live, the state word counts it
/// among the readers.
pub struct ReadGuard<'a, T> {
    lock: &'a RwLock<T>,
}

impl<'a, T> View for ReadGuard<'a, T> {
    type V = T;

    closed spec fn view(&self) -> T {
        self.lock.value
    }
}

impl<'a, T> ReadGuard<'a, T> {
    /// Shared access to the protected value.
    pub fn get(&self) -> (r: &T)
        ensures
            *r == self@,
    {
        &self.lock.value
    }
}

/// A reader's release: counts the reader out of the word; the last one to
/// leave wakes one parked writer, since only the move to the unlocked word
/// can unblock it.
fn release_read<T>(lock: &RwLock<T>) {
    let prev = lock.state.fetch_sub(1, Ordering::Release);
    if read_release_wake(prev) {
        futex_wake_one(&lock.state);
    }
}

impl<'a, T> Drop for ReadGuard<'a, T> {
    /// Forwards to the reader's release, which is verified on its own: the
    /// verifier does not yet follow calls made from inside a destructor.
    #[verifier::external_body]
    fn drop(&mut self)
        opens_invariants none
        no_unwind
    {
        release_read(self.lock)
    }
}

/// A guard for exclusive access: while it is live, the state word carries
/// the writer sentinel.
pub struct WriteGuard<'a, T> {
    lock: &'a mut RwLock<T>,
}

impl<'a, T> View for WriteGuard<'a, T> {
    type V = T;

    closed spec fn view(&self) -> T {
        self.lock.value
    }
}

impl<'a, T> WriteGuard<'a, T> {
    /// The loan of the lock the guard was acquired from; it lets contracts
    /// relate the value behind the guard to the lock it returns to.
    pub closed spec fn loan(self) -> &'a mut RwLock<T> {
        self.lock
    }

    /// Shared access to the protected value.
    pub fn get(&self) -> (r: &T)
        ensures
            *r == self@,
    {
        &self.lock.value
    }

    /// Exclusive access to the protected value.
    pub fn get_mut(&mut self) -> (r: &mut T)
        ensures
            *r == old(self)@,
            final(self)@ == *final(r),
            *final(final(self).loan()) == *final(old(self).loan()),
    {
        &mut self.lock.value
    }

    /// Replace the protected value: every later access through this guard,
    /// and every guard taken after this one is dropped, sees the new value.
    pub fn set(&mut self, value: T)
        ensures
            final(self)@ == value,
            *final(final(self).loan()) == *final(old(self).loan()),
    {
        self.lock.value = value;
    }
}

/// The writer's release: resets the word to unlocked and wakes every
/// parked thread, since the word alone cannot tell parked readers from
/// parked writers; all are left to contend afresh.
fn release_write<T>(lock: &RwLock<T>) {
    lock.state.store(0, Ordering::Release);
    futex_wake_all(&lock.state);
}

impl<'a, T> Drop for WriteGuard<'a, T> {
    /// Forwards to the writer's release, which is verified on its own: the
    /// verifier does not yet follow calls made from inside a destructor.
    /// The release touches only the state word, never the protected value,
    /// so the lock keeps the last value written through the guard.
    #[verifier::external_body]
    fn drop(&mut self)
        ensures
            *final(old(self).loan()) == *old(self).loan(),
        opens_invariants none
        no_unwind
    {
        release_write(self.lock)
    }
}

} // verus!
