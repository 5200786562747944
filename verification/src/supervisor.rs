//! Watching a child against its wall-clock deadline.
//!
//! The caller waits for the child without blocking and hands each answer,
//! with the time that has passed since the child was started, to
//! [`Supervisor::observe`], which says whether to poll on, to send the kill
//! signal, or that the child is gone.

use vstd::prelude::*;
use crate::wait_status::{decode, termination_of, Termination};

verus! {

/// One answer of a non-blocking wait for the child.
#[derive(Clone, Copy, Debug, PartialEq, Eq, Structural)]
pub struct Poll {
    /// What the wait returned: zero while the child runs, the child's id
    /// once it was reaped, a negative number where the wait failed.
    pub wait: i32,
    /// The raw status word; it counts only with a positive `wait`.
    pub status: i32,
    /// The time since the child was started, in nanoseconds.
    pub elapsed_nanos: u128,
}

/// What an answer of the wait means for the caller.
#[derive(Clone, Copy, Debug, PartialEq, Eq, Structural)]
pub enum Supervision {
    /// The child runs and its deadline has not passed: poll again.
    StillRunning,
    /// The child runs past its deadline: send the kill signal, then poll
    /// again.
    Overdue,
    /// The child was reaped.
    Reaped(Termination),
    /// The wait itself failed.
    WaitFailed,
}

/// Whether more time has passed than the timeout allows.
pub open spec fn deadline_passed_of(elapsed_nanos: u128, timeout_ms: u64) -> bool {
    elapsed_nanos > timeout_ms * 1_000_000
}

/// What one answer of the wait means under a timeout.
pub open spec fn supervision_of(poll: Poll, timeout_ms: u64) -> Supervision {
    if poll.wait == 0 {
        if deadline_passed_of(poll.elapsed_nanos, timeout_ms) {
            Supervision::Overdue
        } else {
            Supervision::StillRunning
        }
    } else if poll.wait < 0 {
        Supervision::WaitFailed
    } else {
        Supervision::Reaped(termination_of(poll.status))
    }
}

/// Whether the deadline has passed.
pub fn deadline_passed(elapsed_nanos: u128, timeout_ms: u64) -> (r: bool)
    ensures
        r == deadline_passed_of(elapsed_nanos, timeout_ms),
{
    let limit: u128 = (timeout_ms as u128) * 1_000_000;
    elapsed_nanos > limit
}

/// The supervisor of one child.
#[derive(Clone, Copy, Debug, PartialEq, Eq, Structural)]
pub struct Supervisor {
    /// The time the child may take, in milliseconds.
    pub timeout_ms: u64,
    /// Whether the kill signal was ever called for.
    pub timed_out: bool,
}

impl Supervisor {
    /// The supervisor after one more answer: the kill flag stays once set,
    /// and is set by an answer that finds the child overdue.
    pub open spec fn after(self, poll: Poll) -> Supervisor {
        Supervisor {
            timeout_ms: self.timeout_ms,
            timed_out: self.timed_out || supervision_of(poll, self.timeout_ms)
                == Supervision::Overdue,
        }
    }

    /// The supervisor after a whole series of answers.
    pub open spec fn after_all(self, polls: Seq<Poll>) -> Supervisor
        decreases polls.len(),
    {
        if polls.len() == 0 {
            self
        } else {
            self.after_all(polls.drop_last()).after(polls.last())
        }
    }

    /// A supervisor for a child that was just started.
    pub fn new(timeout_ms: u64) -> (s: Supervisor)
        ensures
            s == (Supervisor { timeout_ms, timed_out: false }),
    {
        Supervisor { timeout_ms, timed_out: false }
    }

    /// Takes one answer of the wait and says what it means.
    pub fn observe(&mut self, poll: Poll) -> (s: Supervision)
        ensures
            s == supervision_of(poll, old(self).timeout_ms),
            *final(self) == old(self).after(poll),
    {
        if poll.wait == 0 {
            if deadline_passed(poll.elapsed_nanos, self.timeout_ms) {
                self.timed_out = true;
                Supervision::Overdue
            } else {
                Supervision::StillRunning
            }
        } else if poll.wait < 0 {
            Supervision::WaitFailed
        } else {
            Supervision::Reaped(decode(poll.status))
        }
    }
}

/// The kill flag is set exactly when some answer found the child still
/// running after its deadline; the timeout itself never changes.
pub proof fn lemma_timed_out_iff_fired(timeout_ms: u64, polls: Seq<Poll>)
    ensures
        (Supervisor { timeout_ms, timed_out: false }).after_all(polls).timeout_ms == timeout_ms,
        (Supervisor { timeout_ms, timed_out: false }).after_all(polls).timed_out <==> exists|
            i: int,
        |
            0 <= i < polls.len() && #[trigger] supervision_of(polls[i], timeout_ms)
                == Supervision::Overdue,
    decreases polls.len(),
{
    let start = Supervisor { timeout_ms, timed_out: false };
    if polls.len() > 0 {
        let front = polls.drop_last();
        lemma_timed_out_iff_fired(timeout_ms, front);
        if start.after_all(polls).timed_out {
            if start.after_all(front).timed_out {
                let i = choose|i: int|
                    0 <= i < front.len() && #[trigger] supervision_of(front[i], timeout_ms)
                        == Supervision::Overdue;
                assert(polls[i] == front[i]);
            } else {
                assert(supervision_of(polls[polls.len() - 1], timeout_ms) == Supervision::Overdue);
            }
        }
        if exists|i: int|
            0 <= i < polls.len() && #[trigger] supervision_of(polls[i], timeout_ms)
                == Supervision::Overdue {
            let i = choose|i: int|
                0 <= i < polls.len() && #[trigger] supervision_of(polls[i], timeout_ms)
                    == Supervision::Overdue;
            if i < front.len() {
                assert(front[i] == polls[i]);
            }
        }
    }
}

/// The kill signal is called for only while the child runs and only after
/// more than the timeout has passed; a child that was reaped is never
/// signalled.
pub proof fn lemma_kill_only_after_deadline(poll: Poll, timeout_ms: u64)
    ensures
        supervision_of(poll, timeout_ms) == Supervision::Overdue <==> poll.wait == 0
            && poll.elapsed_nanos > timeout_ms * 1_000_000,
{
}

} // verus!
