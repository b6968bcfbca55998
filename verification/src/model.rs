//! The lock protocol as a transition system, and the laws proved of it.
//!
//! A configuration pairs the state word with the bookkeeping the word is
//! meant to encode: how many read guards are live and whether a write guard
//! is. The transitions are the four guard events; every run of enabled
//! transitions from the initial configuration keeps word and bookkeeping
//! consistent, and consistency puts a live writer alone.

use vstd::prelude::*;

use crate::state::WRITER_SENTINEL;
use crate::state::is_read_locked;
use crate::state::is_unlocked;
use crate::state::is_write_locked;
use crate::state::read_decision;
use crate::state::wake_on_read_release;
use crate::state::ReadStep;

verus! {

/// One configuration of the protocol: the state word beside the live-guard
/// bookkeeping it encodes.
pub struct Config {
    /// The 32-bit state word.
    pub word: u32,
    /// How many read guards are live.
    pub readers: u32,
    /// Whether a write guard is live.
    pub writer: bool,
}

/// The word encodes the bookkeeping: the sentinel stands for exactly the
/// live writer, any other value counts the live readers.
pub open spec fn consistent(c: Config) -> bool {
    &&& c.writer <==> is_write_locked(c.word)
    &&& !c.writer ==> c.readers == c.word
    &&& c.writer ==> c.readers == 0
}

/// The four guard events.
pub enum Event {
    /// A reader acquires the lock.
    AcquireRead,
    /// A reader releases the lock.
    ReleaseRead,
    /// A writer acquires the lock.
    AcquireWrite,
    /// The writer releases the lock.
    ReleaseWrite,
}

/// When an event may fire: readers enter while no writer holds and the
/// count is short of the bound, a writer enters only from the unlocked
/// word, and releases need a matching holder.
pub open spec fn step_enabled(c: Config, e: Event) -> bool {
    match e {
        Event::AcquireRead => !is_write_locked(c.word) && c.word < WRITER_SENTINEL - 1,
        Event::ReleaseRead => is_read_locked(c.word),
        Event::AcquireWrite => is_unlocked(c.word),
        Event::ReleaseWrite => is_write_locked(c.word),
    }
}

/// The configuration after an enabled event fires.
pub open spec fn step_apply(c: Config, e: Event) -> Config {
    match e {
        Event::AcquireRead => Config {
            word: (c.word + 1) as u32,
            readers: (c.readers + 1) as u32,
            writer: c.writer,
        },
        Event::ReleaseRead => Config {
            word: (c.word - 1) as u32,
            readers: (c.readers - 1) as u32,
            writer: c.writer,
        },
        Event::AcquireWrite => Config { word: WRITER_SENTINEL, readers: c.readers, writer: true },
        Event::ReleaseWrite => Config { word: 0, readers: c.readers, writer: false },
    }
}

/// The configuration of a fresh lock: unlocked, no guard live.
pub open spec fn init_config() -> Config {
    Config { word: 0, readers: 0, writer: false }
}

/// The configuration after a whole run of events.
pub open spec fn run_from(c: Config, evs: Seq<Event>) -> Config
    decreases evs.len(),
{
    if evs.len() == 0 {
        c
    } else {
        run_from(step_apply(c, evs[0]), evs.drop_first())
    }
}

/// Whether every event of the run is enabled when its turn comes.
pub open spec fn valid_run(c: Config, evs: Seq<Event>) -> bool
    decreases evs.len(),
{
    evs.len() == 0 || (step_enabled(c, evs[0]) && valid_run(step_apply(c, evs[0]), evs.drop_first()))
}

/// Mutual exclusion, read off a consistent configuration: a live writer
/// excludes every other guard, and a live reader excludes the writer.
pub proof fn lemma_mutual_exclusion(c: Config)
    requires
        consistent(c),
    ensures
        c.writer ==> c.readers == 0,
        c.readers > 0 ==> !c.writer,
{
}

/// Every enabled event preserves consistency.
pub proof fn lemma_step_preserves_consistency(c: Config, e: Event)
    requires
        consistent(c),
        step_enabled(c, e),
    ensures
        consistent(step_apply(c, e)),
{
}

/// Every run of enabled events out of a consistent configuration ends in a
/// consistent one.
pub proof fn lemma_run_preserves_consistency(c: Config, evs: Seq<Event>)
    requires
        consistent(c),
        valid_run(c, evs),
    ensures
        consistent(run_from(c, evs)),
    decreases evs.len(),
{
    if evs.len() > 0 {
        lemma_step_preserves_consistency(c, evs[0]);
        lemma_run_preserves_consistency(step_apply(c, evs[0]), evs.drop_first());
    }
}

/// Mutual exclusion over all interleavings: after any run of enabled guard
/// events on a fresh lock, a live write guard coexists with no other guard.
pub proof fn lemma_no_guard_beside_writer(evs: Seq<Event>)
    requires
        valid_run(init_config(), evs),
    ensures
        run_from(init_config(), evs).writer ==> run_from(init_config(), evs).readers == 0,
        run_from(init_config(), evs).readers > 0 ==> !run_from(init_config(), evs).writer,
{
    lemma_run_preserves_consistency(init_config(), evs);
}

/// Shared concurrency: readers never exclude readers. While no writer
/// holds and the count is short of the bound, one more read acquisition is
/// enabled and raises the live-reader count, so any number of read guards
/// up to the bound may hold at once.
pub proof fn lemma_readers_are_concurrent(c: Config)
    requires
        consistent(c),
        !c.writer,
        c.word < WRITER_SENTINEL - 1,
    ensures
        step_enabled(c, Event::AcquireRead),
        step_apply(c, Event::AcquireRead).readers == c.readers + 1,
        consistent(step_apply(c, Event::AcquireRead)),
{
}

/// Shared concurrency in full: from any consistent configuration with no
/// writer, any number of further read acquisitions that stays short of the
/// bound is a valid run, and each one raises the live-reader count by one.
/// The returned sequence is the witness.
pub proof fn lemma_many_readers_reachable(c: Config, n: nat) -> (evs: Seq<Event>)
    requires
        consistent(c),
        !c.writer,
        c.word + n < WRITER_SENTINEL,
    ensures
        valid_run(c, evs),
        run_from(c, evs).readers == c.readers + n,
        consistent(run_from(c, evs)),
    decreases n,
{
    if n == 0 {
        let evs = Seq::<Event>::empty();
        assert(valid_run(c, evs));
        assert(run_from(c, evs) == c);
        evs
    } else {
        let c1 = step_apply(c, Event::AcquireRead);
        lemma_step_preserves_consistency(c, Event::AcquireRead);
        let rest = lemma_many_readers_reachable(c1, (n - 1) as nat);
        let evs = seq![Event::AcquireRead] + rest;
        assert(evs.drop_first() =~= rest);
        assert(evs[0] == Event::AcquireRead);
        evs
    }
}

/// A writer holds: no acquisition is enabled until it releases. This is
/// the protocol's form of a writer excluding every reader and every other
/// writer.
pub proof fn lemma_writer_excludes(c: Config)
    requires
        consistent(c),
        c.writer,
    ensures
        !step_enabled(c, Event::AcquireRead),
        !step_enabled(c, Event::AcquireWrite),
        step_enabled(c, Event::ReleaseWrite),
{
}

/// Readers hold: a writer cannot enter until every reader has released.
/// This is the protocol's form of readers excluding a writer.
pub proof fn lemma_readers_exclude_writer(c: Config)
    requires
        consistent(c),
        c.readers > 0,
    ensures
        !step_enabled(c, Event::AcquireWrite),
        step_enabled(c, Event::ReleaseRead),
{
}

/// Final-reader wake: a reader's release moves the word to the unlocked
/// value exactly when it was the last reader, and that is exactly when the
/// release decision wakes one parked writer.
pub proof fn lemma_final_reader_wake(c: Config)
    requires
        consistent(c),
        step_enabled(c, Event::ReleaseRead),
    ensures
        wake_on_read_release(c.word) <==> is_unlocked(step_apply(c, Event::ReleaseRead).word),
        wake_on_read_release(c.word) <==> c.readers == 1,
{
}

/// Spurious wake tolerance: an acquisition woken without cause only decides
/// afresh on a reloaded word, and no decision grants what the protocol
/// forbids. A reader's decision acquires exactly the enabled read
/// transition and parks whenever a writer holds; a writer's exchange of the
/// unlocked word for the sentinel is exactly the enabled write transition.
pub proof fn lemma_spurious_wake_safe(c: Config)
    requires
        consistent(c),
    ensures
        read_decision(c.word) matches ReadStep::Acquire(t) ==> step_enabled(c, Event::AcquireRead)
            && t == step_apply(c, Event::AcquireRead).word,
        is_write_locked(c.word) ==> read_decision(c.word) is Park,
        is_unlocked(c.word) <==> step_enabled(c, Event::AcquireWrite),
{
}

} // verus!
