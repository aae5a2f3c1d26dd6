//! The change watcher: a pending-change latch over the build output
//! directory.
//!
//! The platform layer notes every write-completion it observes; the host
//! polls once per idle tick.  However many writes land between two polls,
//! the poll reports a single occurrence and re-arms the latch, so one
//! rebuild — however many file writes it performs — triggers at most one
//! swap.

use vstd::prelude::*;

verus! {

/// Latches "a new build may be ready" between two polls of the host loop.
pub struct Watcher {
    /// Whether a write-completion has been noted since the last poll.
    pub pending: bool,
}

/// The watcher state after one more observed write: the latch is set,
/// whatever it held before.
pub open spec fn spec_note_write(w: Watcher) -> Watcher {
    Watcher { pending: true }
}

/// The watcher state after a poll: the latch is cleared.
pub open spec fn spec_poll_state(w: Watcher) -> Watcher {
    Watcher { pending: false }
}

/// What a poll reports: whether at least one write was noted since the
/// previous poll.
pub open spec fn spec_poll_occurred(w: Watcher) -> bool {
    w.pending
}

impl Watcher {
    /// A fresh watcher with no pending occurrence.
    pub fn new() -> (w: Watcher)
        ensures
            !w.pending,
    {
        Watcher { pending: false }
    }

    /// Record that a write-completion was observed in the watched
    /// directory.  Repeated calls before the next poll collapse into the
    /// same single pending occurrence.
    pub fn note_write(&mut self)
        ensures
            *final(self) == spec_note_write(*old(self)),
            final(self).pending,
    {
        self.pending = true;
    }

    /// Report whether anything was written since the last poll, and
    /// re-arm.  Non-blocking; called once per idle tick of the host loop.
    pub fn poll(&mut self) -> (occurred: bool)
        ensures
            occurred == spec_poll_occurred(*old(self)),
            *final(self) == spec_poll_state(*old(self)),
            !final(self).pending,
    {
        let occurred = self.pending;
        self.pending = false;
        occurred
    }
}

/// A change occurrence between two polls triggers exactly one swap,
/// regardless of how many writes produced it: any further write on top of
/// a pending one leaves the watcher in the same state, the first poll
/// after the writes reports the one occurrence, and the poll after that
/// reports none.
pub proof fn lemma_writes_coalesce(w: Watcher)
    ensures
        spec_note_write(spec_note_write(w)) == spec_note_write(w),
        spec_poll_occurred(spec_note_write(w)),
        !spec_poll_occurred(spec_poll_state(spec_note_write(w))),
{
}

} // verus!
