//! The state-word encoding and the protocol decisions made from an observed
//! word.

use vstd::prelude::*;

verus! {

/// The reserved maximum value of the state word: a writer holds the lock.
pub const WRITER_SENTINEL: u32 = u32::MAX;

/// The word is zero: no guard is live.
pub open spec fn is_unlocked(s: u32) -> bool {
    s == 0
}

/// The word counts live readers: at least one, and short of the sentinel.
pub open spec fn is_read_locked(s: u32) -> bool {
    0 < s < WRITER_SENTINEL
}

/// The word is the sentinel: one writer holds the lock.
pub open spec fn is_write_locked(s: u32) -> bool {
    s == WRITER_SENTINEL
}

/// How many readers the word says are live.
pub open spec fn reader_count(s: u32) -> nat {
    if is_write_locked(s) {
        0
    } else {
        s as nat
    }
}

/// What a reader does after observing the word.
pub enum ReadStep {
    /// Try to move the word to this target, one reader more.
    Acquire(u32),
    /// The reader count is one short of the sentinel: no reader may enter
    /// until one releases, or the next increment would collide with the
    /// writer sentinel.
    Exhausted,
    /// A writer holds the lock: park until the word changes.
    Park,
}

/// The reader's decision on an observed word, as a mathematical function.
pub open spec fn read_decision(s: u32) -> ReadStep {
    if s == WRITER_SENTINEL {
        ReadStep::Park
    } else if s == WRITER_SENTINEL - 1 {
        ReadStep::Exhausted
    } else {
        ReadStep::Acquire((s + 1) as u32)
    }
}

/// Decide a reader's next move from the word it observed.
pub fn read_step(s: u32) -> (d: ReadStep)
    ensures
        d == read_decision(s),
        d matches ReadStep::Acquire(t) ==> t == s + 1 && is_read_locked(t) && reader_count(t)
            == reader_count(s) + 1,
        is_write_locked(s) <==> d is Park,
{
    if s == WRITER_SENTINEL {
        ReadStep::Park
    } else if s == WRITER_SENTINEL - 1 {
        ReadStep::Exhausted
    } else {
        ReadStep::Acquire(s + 1)
    }
}

/// Whether a releasing reader, who moved the word down from `prev`, must
/// wake a parked writer: exactly when it was the last reader.
pub open spec fn wake_on_read_release(prev: u32) -> bool {
    prev == 1
}

/// Decide from the prior word whether a releasing reader wakes one parked
/// writer.
pub fn read_release_wake(prev: u32) -> (w: bool)
    ensures
        w == wake_on_read_release(prev),
        w <==> is_read_locked(prev) && is_unlocked((prev - 1) as u32),
{
    prev == 1
}

} // verus!
