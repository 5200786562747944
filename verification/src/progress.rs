//! Every job comes to its end: a measure of what is left for it to do.

use vstd::prelude::*;
use crate::child::Pipe;
use crate::invariants::{consistent, job_inv};
use crate::protocol::{
    ends_reading, next_control,
    action_of, answers, completed_step, control_step, fault_of, faulted, initial, read_step,
    release_action, release_step, settled, step, supervise_step, watched, Action, Control,
    EventView, Fault, JobView, Ledger, Phase, Verdict,
};
use crate::supervisor::Poll;
use crate::verdict::Usage;

verus! {

/// One for what is held, nothing for what is not.
pub open spec fn count(held: bool) -> nat {
    if held {
        1
    } else {
        0
    }
}

/// How much a ledger holds: one for the workspace, for each mount, for
/// each pipe end and for the child.
pub open spec fn held(l: Ledger) -> nat {
    count(l.workspace) + l.mounted as nat + count(l.stdout_read) + count(l.stdout_write) + count(
        l.stderr_read,
    ) + count(l.stderr_write) + count(l.child)
}

/// What a watch still waits for: two for the child, one for each stream
/// that is still read, one for a kill that is due.
pub open spec fn awaited(c: Control) -> nat {
    2 * count(c.ledger.child) + count(c.stdout_open) + count(c.stderr_open) + count(c.kill_due)
}

/// A bound on the actions that a job still asks for, not counting the
/// polls that find the child running nor the reads after which a pipe is
/// read on.
pub open spec fn steps_left(c: Control) -> nat {
    let n = c.n_mounts as nat;
    let m = c.ledger.mounted as nat;
    match c.phase {
        Phase::CreatingWorkspace => 25 + 2 * n,
        Phase::WritingSource => 24 + 2 * n,
        Phase::OpeningCompilePipe => 23 + 2 * n,
        Phase::SpawningCompile => 22 + 2 * n,
        Phase::ClosingCompileWriteEnd => 21 + 2 * n,
        Phase::Compiling => 17 + 2 * n + awaited(c),
        Phase::ClosingCompileReadEnd => 16 + 2 * n,
        Phase::WritingStdin => 15 + 2 * n,
        Phase::OpeningStdoutPipe => 14 + 2 * n,
        Phase::OpeningStderrPipe => 13 + 2 * n,
        Phase::Mounting => (12 + 2 * n - m) as nat,
        Phase::SpawningRun => 12 + n,
        Phase::ClosingStdoutWriteEnd => 11 + n,
        Phase::ClosingStderrWriteEnd => 10 + n,
        Phase::Running => 5 + n + awaited(c),
        Phase::Unmounting => 4 + m,
        Phase::Releasing => held(c.ledger) + count(c.kill_due),
        Phase::Done => 0,
    }
}

/// Whether an event is the answer of a poll that found the child running.
pub open spec fn finds_child_running(event: EventView) -> bool {
    match event {
        EventView::Polled { poll, usage } => poll.wait == 0,
        _ => false,
    }
}

/// Whether an event leaves the job waiting for more of the same: a poll
/// that finds the child running, a chunk that holds anything, or a pipe
/// that is quiet while the child lives.
pub open spec fn keeps_waiting(j: JobView, event: EventView) -> bool {
    match action_of(j.control) {
        Action::Poll => finds_child_running(event),
        Action::Read(_) => (event is Chunk || event is Quiet) && !ends_reading(j, event),
        _ => false,
    }
}

/// A job that gives back has no more left to do than it holds.
proof fn lemma_settled_steps(c: Control)
    ensures
        steps_left(settled(c)) <= held(c.ledger) + count(c.kill_due),
        settled(c).phase == Phase::Done || settled(c).phase == Phase::Releasing,
{
}

/// A fault in its work takes a job nearer to its end.
proof fn lemma_faulted_steps(c: Control, fault: Fault)
    requires
        consistent(c),
        c.phase != Phase::Done,
        c.phase != Phase::Releasing,
    ensures
        steps_left(faulted(c, fault)) < steps_left(c),
{
    let d = Control { verdict: Verdict::Faulted(fault), kill_due: c.ledger.child, ..c };
    lemma_settled_steps(d);
    assert(held(d.ledger) + count(d.kill_due) < steps_left(c));
}

/// Each event takes a job that gives back nearer to its end, but for a
/// poll that finds the child running.
proof fn lemma_release_progress(c: Control, event: EventView)
    requires
        consistent(c),
        c.phase == Phase::Releasing,
    ensures
        release_action(c.ledger, c.kill_due) == Action::Poll && finds_child_running(event)
            ==> release_step(c, event) == c,
        !(release_action(c.ledger, c.kill_due) == Action::Poll && finds_child_running(event))
            ==> steps_left(release_step(c, event)) < steps_left(c),
{
    let action = release_action(c.ledger, c.kill_due);
    match (action, event) {
        (Action::Kill, EventView::Completed) => {},
        (Action::Poll, EventView::Polled { poll, usage }) => {
            lemma_settled_steps(Control { ledger: Ledger { child: false, ..c.ledger }, ..c });
        },
        (Action::Unmount(index), EventView::Completed) => {
            lemma_settled_steps(Control { ledger: Ledger { mounted: index, ..c.ledger }, ..c });
        },
        (Action::Close(pipe, end), EventView::Completed) => {
            lemma_settled_steps(Control { ledger: c.ledger.with_end(pipe, end, false), ..c });
        },
        (Action::RemoveWorkspace, EventView::Completed) => {
            lemma_settled_steps(Control { ledger: Ledger { workspace: false, ..c.ledger }, ..c });
        },
        _ => {},
    }
}

/// A watch that has nothing left to wait for takes the job nearer to its
/// end than it was with anything awaited.
proof fn lemma_watched_steps(c: Control)
    requires
        c.phase == Phase::Compiling || c.phase == Phase::Running,
        c.phase == Phase::Compiling ==> c.ledger.mounted == 0 && c.n_mounts >= 0,
        c.phase == Phase::Running ==> c.ledger.mounted == c.n_mounts,
        !c.kill_due,
        held(c.ledger) <= 3 + c.ledger.mounted + count(c.ledger.child),
        c.phase == Phase::Compiling ==> held(c.ledger) <= 2 + count(c.ledger.child),
    ensures
        steps_left(watched(c)) <= steps_left(c),
        awaited(c) == 0 ==> steps_left(watched(c)) < steps_left(c) + 1,
        awaited(c) == 0 ==> steps_left(watched(c)) + 1 <= steps_left(c),
{
    if awaited(c) == 0 {
        lemma_settled_steps(Control { verdict: Verdict::CompileFailed, kill_due: false, ..c });
        lemma_settled_steps(Control { verdict: Verdict::Ran, kill_due: false, ..c });
    }
}

/// An action carried out takes a job nearer to its end.
proof fn lemma_completed_progress(c: Control)
    requires
        consistent(c),
        c.phase != Phase::Done,
        c.phase != Phase::Releasing,
        answers(action_of(c), EventView::Completed),
    ensures
        steps_left(completed_step(c)) < steps_left(c),
{
    if c.phase == Phase::Unmounting {
        let undone = Control {
            ledger: Ledger { mounted: (c.ledger.mounted - 1) as usize, ..c.ledger },
            ..c
        };
        lemma_settled_steps(Control { verdict: Verdict::Ran, kill_due: false, ..undone });
    }
}

/// A poll takes a job nearer to its end once the child is gone.
proof fn lemma_supervise_progress(c: Control, poll: Poll, usage: Usage)
    requires
        consistent(c),
        c.phase == Phase::Compiling || c.phase == Phase::Running,
        !c.kill_due,
        c.ledger.child,
    ensures
        poll.wait != 0 ==> steps_left(supervise_step(c, poll, usage)) < steps_left(c),
        poll.wait == 0 ==> supervise_step(c, poll, usage).phase == c.phase && steps_left(
            supervise_step(c, poll, usage),
        ) <= steps_left(c) + 1,
{
    let reaped = Control {
        ledger: Ledger { child: false, ..c.ledger },
        supervisor: c.supervisor.after(poll),
        turn: crate::protocol::turn_after(crate::protocol::Turn::Poll),
        ..c
    };
    if poll.wait != 0 {
        lemma_settled_steps(
            Control { verdict: Verdict::Faulted(Fault::Wait), kill_due: false, ..reaped },
        );
        lemma_settled_steps(
            Control { verdict: Verdict::Faulted(Fault::Accounting), kill_due: false, ..reaped },
        );
        match crate::supervisor::supervision_of(poll, c.supervisor.timeout_ms) {
            crate::supervisor::Supervision::Reaped(t) => {
                if c.phase == Phase::Compiling {
                    lemma_watched_steps(
                        Control {
                            compile_failed: crate::verdict::compile_failed_of(t),
                            ..reaped
                        },
                    );
                } else if crate::verdict::metrics_of(usage) is Some {
                    lemma_watched_steps(
                        Control {
                            termination: t,
                            metrics: crate::verdict::metrics_of(usage).unwrap(),
                            ..reaped
                        },
                    );
                }
            },
            _ => {},
        }
    }
}

/// A read after which the pipe is read no more takes a job nearer to its
/// end; any other read leaves it where it is.
proof fn lemma_read_progress(c: Control, pipe: Pipe, ended: bool)
    requires
        consistent(c),
        action_of(c) == Action::Read(pipe),
    ensures
        ended ==> steps_left(read_step(c, pipe, ended)) < steps_left(c),
        !ended ==> read_step(c, pipe, ended).phase == c.phase && steps_left(
            read_step(c, pipe, ended),
        ) == steps_left(c),
{
    let turned = Control { turn: crate::protocol::turn_after(crate::protocol::turn_of(pipe)), ..c };
    if ended {
        match pipe {
            Pipe::Stdout => {
                lemma_watched_steps(Control { stdout_open: false, ..turned });
            },
            Pipe::Stderr => {
                lemma_watched_steps(Control { stderr_open: false, ..turned });
            },
        }
    }
}

/// Every job comes to its end. Each event takes a job that is not done
/// nearer to it, but for those that leave it waiting for its child or for
/// more bytes; these keep its phase, and a poll that finds the child
/// overdue adds the one kill it calls for. No job asks for more than 25
/// actions and two for each mount beyond such waiting.
#[verifier::rlimit(50)]
pub proof fn lemma_progress(j: JobView, event: EventView)
    requires
        job_inv(j),
        j.control.phase != Phase::Done,
    ensures
        !keeps_waiting(j, event) ==> steps_left(step(j, event).control) < steps_left(j.control),
        keeps_waiting(j, event) ==> step(j, event).control.phase == j.control.phase
            && steps_left(step(j, event).control) <= steps_left(j.control) + 1,
        steps_left(j.control) == 0 <==> j.control.phase == Phase::Done,
        steps_left(initial(j.control.has_compile, j.control.n_mounts, 0)) == 25 + 2
            * j.control.n_mounts,
{
    reveal(next_control);
    let c = j.control;
    let action = action_of(c);
    if c.phase == Phase::Releasing {
        lemma_release_progress(c, event);
        assert(step(j, event).control == release_step(c, event));
    } else {
        match (action, event) {
            (Action::Read(pipe), EventView::Chunk(bytes)) => {
                lemma_read_progress(c, pipe, bytes.len() == 0);
                assert(step(j, event).control == read_step(c, pipe, bytes.len() == 0));
            },
            (Action::Read(pipe), EventView::Quiet) => {
                lemma_read_progress(c, pipe, !c.ledger.child);
                assert(step(j, event).control == read_step(c, pipe, !c.ledger.child));
            },
            _ => {
                assert(step(j, event).control == control_step(c, event));
                if !answers(action, event) {
                    lemma_faulted_steps(c, fault_of(action, event));
                } else {
                    match event {
                        EventView::Polled { poll, usage } => {
                            lemma_supervise_progress(c, poll, usage);
                        },
                        EventView::Completed => {
                            lemma_completed_progress(c);
                        },
                        _ => {},
                    }
                }
            },
        }
    }
}

} // verus!
