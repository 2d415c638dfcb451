//! The deadline-aware wait budget: a shrinking time budget over a session's
//! private internal-event mailbox.
//!
//! The waiting itself happens outside the core; this type carries the exact
//! bookkeeping of the remaining budget: each new bounded wait first subtracts
//! the time the previous wait consumed, and the budget can be extended or
//! reset between waits. All durations are in milliseconds.

use vstd::prelude::*;

verus! {

/// Why the most recent sequence of bounded waits ended.
#[derive(Clone, Copy, Debug, PartialEq, Eq, Structural)]
pub enum ExitFlag {
    NotExited,
    TimedOut,
    VillageDead,
}

/// The wait budget: the current bound, the time the last wait consumed, and
/// how waiting last ended. Invariant: the consumed time never exceeds the
/// bound.
#[derive(Clone, Copy, Debug, PartialEq, Eq, Structural)]
pub struct InternalStreamer {
    pub timeout_ms: u64,
    pub elapsed_ms: u64,
    pub exit_err: ExitFlag,
}

impl InternalStreamer {
    /// The consumed time never exceeds the budget, so the remainder is a
    /// plain difference.
    pub open spec fn wf(self) -> bool {
        self.elapsed_ms <= self.timeout_ms
    }

    /// What is left of the budget once the last wait's consumption is
    /// subtracted.
    pub open spec fn spec_remaining(self) -> int {
        self.timeout_ms - self.elapsed_ms
    }

    /// The budget after recording that the last wait consumed `ms`:
    /// consumption is capped at the budget itself.
    pub open spec fn spec_record_elapsed(self, ms: u64) -> InternalStreamer {
        InternalStreamer {
            elapsed_ms: if ms <= self.timeout_ms {
                ms
            } else {
                self.timeout_ms
            },
            ..self
        }
    }

    /// The budget after extending the bound by `d`, saturating at the
    /// largest representable bound.
    pub open spec fn spec_increase_timeout(self, d: u64) -> InternalStreamer {
        InternalStreamer {
            timeout_ms: if self.timeout_ms + d <= u64::MAX {
                (self.timeout_ms + d) as u64
            } else {
                u64::MAX
            },
            ..self
        }
    }

    /// The budget as the next bounded wait begins: the remainder becomes the
    /// new bound and the consumption bookkeeping starts over.
    pub open spec fn spec_begin_wait(self) -> InternalStreamer {
        InternalStreamer {
            timeout_ms: (self.timeout_ms - self.elapsed_ms) as u64,
            elapsed_ms: 0,
            ..self
        }
    }

    /// A fresh budget of `timeout_ms`, with nothing consumed and no exit
    /// recorded.
    pub fn new(timeout_ms: u64) -> (r: InternalStreamer)
        ensures
            r == (InternalStreamer { timeout_ms, elapsed_ms: 0, exit_err: ExitFlag::NotExited }),
            r.wf(),
    {
        InternalStreamer { timeout_ms, elapsed_ms: 0, exit_err: ExitFlag::NotExited }
    }

    /// Starts the next bounded wait: subtracts the time the previous wait
    /// consumed from the budget and returns the bound for this wait.
    pub fn begin_wait(&mut self) -> (r: u64)
        requires
            old(self).wf(),
        ensures
            *final(self) == old(self).spec_begin_wait(),
            r == old(self).spec_remaining(),
            final(self).wf(),
    {
        self.timeout_ms = self.timeout_ms - self.elapsed_ms;
        self.elapsed_ms = 0;
        self.timeout_ms
    }

    /// Records how long the wait that just ended took. A measurement beyond
    /// the budget is capped at the budget: the next wait's bound is never
    /// negative.
    pub fn record_elapsed(&mut self, ms: u64)
        requires
            old(self).wf(),
        ensures
            *final(self) == old(self).spec_record_elapsed(ms),
            final(self).wf(),
    {
        if ms <= self.timeout_ms {
            self.elapsed_ms = ms;
        } else {
            self.elapsed_ms = self.timeout_ms;
        }
    }

    /// Grows the budget by `d` without resetting the consumption
    /// bookkeeping: only the remainder grows, never the already-consumed
    /// time. Saturates at the largest representable bound.
    pub fn increase_timeout(&mut self, d: u64)
        requires
            old(self).wf(),
        ensures
            *final(self) == old(self).spec_increase_timeout(d),
            old(self).timeout_ms + d <= u64::MAX ==> final(self).spec_remaining() == old(
                self,
            ).spec_remaining() + d,
            final(self).wf(),
    {
        self.timeout_ms = self.timeout_ms.saturating_add(d);
    }

    /// Reinitializes the budget for a fresh bounded wait.
    pub fn reset(&mut self, timeout_ms: u64)
        ensures
            *final(self) == (InternalStreamer {
                timeout_ms,
                elapsed_ms: 0,
                exit_err: ExitFlag::NotExited,
            }),
            final(self).wf(),
    {
        self.elapsed_ms = 0;
        self.timeout_ms = timeout_ms;
        self.exit_err = ExitFlag::NotExited;
    }

    /// Records that waiting ended because the budget ran out.
    pub fn mark_timed_out(&mut self)
        ensures
            *final(self) == (InternalStreamer { exit_err: ExitFlag::TimedOut, ..*old(self) }),
    {
        self.exit_err = ExitFlag::TimedOut;
    }

    /// Records that waiting ended because the session died.
    pub fn mark_village_dead(&mut self)
        ensures
            *final(self) == (InternalStreamer { exit_err: ExitFlag::VillageDead, ..*old(self) }),
    {
        self.exit_err = ExitFlag::VillageDead;
    }

    /// Whether the last sequence of waits ended with the session's death.
    pub fn village_dead(&self) -> (r: bool)
        ensures
            r == (self.exit_err is VillageDead),
    {
        matches!(self.exit_err, ExitFlag::VillageDead)
    }

    /// How the last sequence of waits ended.
    pub fn get_exit_err(&self) -> (r: ExitFlag)
        ensures
            r == self.exit_err,
    {
        self.exit_err
    }
}

/// Extending the budget with `r` remaining leaves exactly `r + d` remaining:
/// already-consumed time is never given back, and the remainder never
/// resets.
pub proof fn lemma_extension_adds_to_remainder(s: InternalStreamer, d: u64)
    requires
        s.wf(),
        s.timeout_ms + d <= u64::MAX,
    ensures
        s.spec_increase_timeout(d).spec_remaining() == s.spec_remaining() + d,
        s.spec_increase_timeout(d).elapsed_ms == s.elapsed_ms,
{
}

} // verus!
