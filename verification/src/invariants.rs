//! What holds of every job, in every state it can reach.
//!
//! The states are described by [`consistent`]: what a job holds in each of
//! its phases. From it follow what a finished job has given back, what its
//! reported status says, and in which order it asks for the host's actions.

use vstd::prelude::*;
use crate::child::Pipe;
use crate::collector::{STDERR_CAP, STDOUT_CAP};
use crate::protocol::{
    next_control,
    action_of, answers, completed_step, control_step, fault_of, faulted, initial, outcome_of,
    read_step, release_step, run, start_of, step, supervise_step, turn_after, turn_of, watched,
    Action, Control, End, EventView, Fault, JobView, Ledger, Phase, Turn,
};
use crate::supervisor::{supervision_of, Poll, Supervision};
use crate::types::LaunchStatus;
use crate::verdict::{compile_failed_of, metrics_of, result_wf, Usage};
use crate::wait_status::Termination;

verus! {

/// The ledger of a job that holds its workspace, the given pipe ends, the
/// given number of mounts, and a child or none.
pub open spec fn holding(
    mounted: usize,
    stdout_read: bool,
    stdout_write: bool,
    stderr_read: bool,
    stderr_write: bool,
    child: bool,
) -> Ledger {
    Ledger { workspace: true, mounted, stdout_read, stdout_write, stderr_read, stderr_write, child }
}

/// What a job holds in each phase of its work. Mounts are in place only
/// from the mounting to the unmounting, and all of them while the program
/// runs. A child lives only from its start to its reaping, and the
/// parent's write ends are closed before it is watched. While a child is
/// watched, the child lives or one of its streams is still read. A job
/// that is done holds nothing, unless giving something back has failed.
pub open spec fn consistent(c: Control) -> bool {
    let l = c.ledger;
    &&& l.mounted <= c.n_mounts
    &&& match c.phase {
        Phase::CreatingWorkspace => l.is_clear(),
        Phase::WritingSource | Phase::OpeningCompilePipe | Phase::WritingStdin
        | Phase::OpeningStdoutPipe => l == holding(0, false, false, false, false, false),
        Phase::SpawningCompile => l == holding(0, false, false, true, true, false),
        Phase::ClosingCompileWriteEnd => l == holding(0, false, false, true, true, true)
            && !c.stdout_open,
        Phase::Compiling => l == holding(0, false, false, true, false, l.child)
            && !c.stdout_open && (l.child || c.stderr_open),
        Phase::ClosingCompileReadEnd => l == holding(0, false, false, true, false, false),
        Phase::OpeningStderrPipe => l == holding(0, true, true, false, false, false),
        Phase::Mounting => l == holding(l.mounted, true, true, true, true, false) && l.mounted
            < c.n_mounts,
        Phase::SpawningRun => l == holding(c.n_mounts, true, true, true, true, false),
        Phase::ClosingStdoutWriteEnd => l == holding(c.n_mounts, true, true, true, true, true),
        Phase::ClosingStderrWriteEnd => l == holding(c.n_mounts, true, false, true, true, true),
        Phase::Running => l == holding(c.n_mounts, true, false, true, false, l.child) && (
        l.child || c.stdout_open || c.stderr_open),
        Phase::Unmounting => l == holding(l.mounted, true, false, true, false, false)
            && l.mounted > 0 && !c.stdout_open && !c.stderr_open,
        Phase::Releasing => !l.is_clear() && !(c.verdict is Open),
        Phase::Done => !(c.verdict is Open) && (l.is_clear() || c.release_failed),
    }
    &&& c.phase != Phase::Releasing && c.phase != Phase::Done ==> c.verdict is Open
        && !c.release_failed
    &&& c.kill_due ==> l.child && (c.phase == Phase::Compiling || c.phase == Phase::Running
        || c.phase == Phase::Releasing)
    &&& c.release_failed ==> c.phase == Phase::Done && c.verdict is Faulted
    &&& c.verdict is CompileFailed ==> c.has_compile && c.compile_failed
    &&& c.verdict is Ran ==> !c.stdout_open && !c.stderr_open
    &&& c.phase == Phase::OpeningCompilePipe || c.phase == Phase::SpawningCompile || c.phase
        == Phase::Compiling || c.phase == Phase::ClosingCompileWriteEnd || c.phase
        == Phase::ClosingCompileReadEnd ==> c.has_compile
}

/// Every job begins in a consistent state.
pub proof fn lemma_initial_consistent(has_compile: bool, n_mounts: usize, timeout_ms: u64)
    ensures
        consistent(initial(has_compile, n_mounts, timeout_ms)),
{
}

/// Whether two states are of a job with the same task.
pub open spec fn same_task(c: Control, d: Control) -> bool {
    &&& d.has_compile == c.has_compile
    &&& d.n_mounts == c.n_mounts
    &&& d.supervisor.timeout_ms == c.supervisor.timeout_ms
}

/// A fault in its work leaves a job in a consistent state.
proof fn lemma_faulted_consistent(c: Control, fault: Fault)
    requires
        consistent(c),
        c.phase != Phase::Done,
        c.phase != Phase::Releasing,
    ensures
        consistent(faulted(c, fault)),
        same_task(c, faulted(c, fault)),
{
}

/// Giving back leaves a job in a consistent state.
proof fn lemma_release_consistent(c: Control, event: EventView)
    requires
        consistent(c),
        c.phase == Phase::Releasing,
    ensures
        consistent(release_step(c, event)),
        same_task(c, release_step(c, event)),
{
}

/// An action carried out leaves a job in a consistent state.
proof fn lemma_completed_consistent(c: Control)
    requires
        consistent(c),
        c.phase != Phase::Done,
        c.phase != Phase::Releasing,
        answers(action_of(c), EventView::Completed),
    ensures
        consistent(completed_step(c)),
        same_task(c, completed_step(c)),
{
}

/// The end of a watch leaves a job in a consistent state.
proof fn lemma_watched_consistent(c: Control)
    requires
        c.phase == Phase::Compiling || c.phase == Phase::Running,
        c.ledger.child || c.stdout_open || c.stderr_open ==> consistent(c),
        !(c.ledger.child || c.stdout_open || c.stderr_open) ==> consistent(
            Control { stderr_open: true, ..c },
        ),
        c.phase == Phase::Compiling ==> c.compile_failed || !c.compile_failed,
    ensures
        consistent(watched(c)),
        same_task(c, watched(c)),
{
}

/// An answer to a poll leaves a job in a consistent state.
proof fn lemma_supervise_consistent(c: Control, poll: Poll, usage: Usage)
    requires
        consistent(c),
        c.phase == Phase::Compiling || c.phase == Phase::Running,
        !c.kill_due,
        c.ledger.child,
    ensures
        consistent(supervise_step(c, poll, usage)),
        same_task(c, supervise_step(c, poll, usage)),
{
    let polled = Control {
        supervisor: c.supervisor.after(poll),
        turn: turn_after(Turn::Poll),
        ..c
    };
    let reaped = Control { ledger: Ledger { child: false, ..c.ledger }, ..polled };
    match supervision_of(poll, c.supervisor.timeout_ms) {
        Supervision::StillRunning => {},
        Supervision::Overdue => {},
        Supervision::WaitFailed => {
            let shown = Control { ledger: c.ledger, ..reaped };
            assert(consistent(shown));
            assert(faulted(reaped, Fault::Wait) == faulted(
                Control { ledger: reaped.ledger, ..shown },
                Fault::Wait,
            ));
        },
        Supervision::Reaped(t) => {
            if c.phase == Phase::Compiling {
                lemma_watched_consistent(
                    Control { compile_failed: compile_failed_of(t), ..reaped },
                );
            } else {
                match metrics_of(usage) {
                    None => {},
                    Some(m) => {
                        lemma_watched_consistent(
                            Control { termination: t, metrics: m, ..reaped },
                        );
                    },
                }
            }
        },
    }
}

/// No event leads a job out of the consistent states, nor changes what it
/// was asked to do.
pub proof fn lemma_control_step_consistent(c: Control, event: EventView)
    requires
        consistent(c),
    ensures
        consistent(control_step(c, event)),
        control_step(c, event).has_compile == c.has_compile,
        control_step(c, event).n_mounts == c.n_mounts,
        control_step(c, event).supervisor.timeout_ms == c.supervisor.timeout_ms,
{
    let action = action_of(c);
    if c.phase == Phase::Done {
    } else if c.phase == Phase::Releasing {
        lemma_release_consistent(c, event);
    } else if !answers(action, event) {
        lemma_faulted_consistent(c, fault_of(action, event));
    } else {
        match event {
            EventView::Polled { poll, usage } => {
                lemma_supervise_consistent(c, poll, usage);
            },
            EventView::Completed => {
                lemma_completed_consistent(c);
            },
            _ => {},
        }
    }
}

/// An answered read leads to a consistent state too.
pub proof fn lemma_read_step_consistent(c: Control, pipe: Pipe, ended: bool)
    requires
        consistent(c),
        action_of(c) == Action::Read(pipe),
    ensures
        consistent(read_step(c, pipe, ended)),
        read_step(c, pipe, ended).has_compile == c.has_compile,
        read_step(c, pipe, ended).n_mounts == c.n_mounts,
        read_step(c, pipe, ended).supervisor.timeout_ms == c.supervisor.timeout_ms,
{
    let turned = Control { turn: turn_after(turn_of(pipe)), ..c };
    assert(c.phase == Phase::Compiling || c.phase == Phase::Running);
    assert(!c.kill_due);
    if ended {
        match pipe {
            Pipe::Stdout => {
                lemma_watched_consistent(Control { stdout_open: false, ..turned });
            },
            Pipe::Stderr => {
                lemma_watched_consistent(Control { stderr_open: false, ..turned });
            },
        }
    }
}

/// The states that a job can be in: consistent, with no stream beyond its
/// cap.
pub open spec fn job_inv(j: JobView) -> bool {
    &&& consistent(j.control)
    &&& j.compile_errors.len() <= STDERR_CAP
    &&& j.stdout.len() <= STDOUT_CAP
    &&& j.stderr.len() <= STDERR_CAP
}

/// Every event leaves a job in one of its states, and with the task it
/// began with.
#[verifier::rlimit(50)]
pub proof fn lemma_step_inv(j: JobView, event: EventView)
    requires
        job_inv(j),
    ensures
        job_inv(step(j, event)),
        step(j, event).control.has_compile == j.control.has_compile,
        step(j, event).control.n_mounts == j.control.n_mounts,
        step(j, event).control.supervisor.timeout_ms == j.control.supervisor.timeout_ms,
{
    reveal(next_control);
    let c = j.control;
    match (action_of(c), event) {
        (Action::Read(pipe), EventView::Chunk(bytes)) => {
            lemma_read_step_consistent(c, pipe, bytes.len() == 0);
            assert(step(j, event).control == read_step(c, pipe, bytes.len() == 0));
        },
        (Action::Read(pipe), EventView::Quiet) => {
            lemma_read_step_consistent(c, pipe, !c.ledger.child);
            assert(step(j, event).control == read_step(c, pipe, !c.ledger.child));
        },
        _ => {
            lemma_control_step_consistent(c, event);
            assert(step(j, event).control == control_step(c, event));
        },
    }
}

/// Whatever events a job meets from its start, it stays in its states.
pub proof fn lemma_run_inv(
    has_compile: bool,
    n_mounts: usize,
    timeout_ms: u64,
    events: Seq<EventView>,
)
    ensures
        job_inv(run(start_of(has_compile, n_mounts, timeout_ms), events)),
        run(start_of(has_compile, n_mounts, timeout_ms), events).control.has_compile
            == has_compile,
        run(start_of(has_compile, n_mounts, timeout_ms), events).control.n_mounts == n_mounts,
    decreases events.len(),
{
    if events.len() > 0 {
        lemma_run_inv(has_compile, n_mounts, timeout_ms, events.drop_last());
        lemma_step_inv(
            run(start_of(has_compile, n_mounts, timeout_ms), events.drop_last()),
            events.last(),
        );
    }
}

/// A job that reports a result holds nothing of the host any more: no
/// workspace, no mount, no pipe end, no child. Its result keeps to the
/// caps of both streams.
pub proof fn lemma_result_leaves_nothing(j: JobView)
    requires
        job_inv(j),
        outcome_of(j) matches Some(Ok(_)),
    ensures
        j.control.ledger.is_clear(),
        result_wf(outcome_of(j).unwrap().unwrap()),
{
}

/// A job that reports a fault holds nothing either, unless an action
/// that gives something back could not be carried out.
pub proof fn lemma_fault_leaves_nothing(j: JobView)
    requires
        job_inv(j),
        outcome_of(j) matches Some(Err(_)),
    ensures
        j.control.ledger.is_clear() || j.control.release_failed,
{
}

/// A job is done exactly when it asks for the finish, and then it reports
/// an outcome.
pub proof fn lemma_finish_iff_done(j: JobView)
    requires
        job_inv(j),
    ensures
        action_of(j.control) == Action::Finish <==> j.control.phase == Phase::Done,
        j.control.phase == Phase::Done <==> outcome_of(j) is Some,
{
}

/// What a reported status says of the job. A compilation error comes only
/// of a compile command that failed; a timeout only of a program that the
/// kill signal ended after the supervisor had called for it; an exceeded
/// output limit exactly of standard output that reached its cap; an exit
/// code only of a program that exited with it.
pub proof fn lemma_status_sound(j: JobView)
    requires
        job_inv(j),
        outcome_of(j) matches Some(Ok(_)),
    ensures
        ({
            let r = outcome_of(j).unwrap().unwrap();
            &&& r.status == LaunchStatus::CompilationError <==> j.control.verdict
                is CompileFailed
            &&& r.status == LaunchStatus::CompilationError ==> j.control.has_compile
                && j.control.compile_failed
            &&& r.status == LaunchStatus::TimeLimitExceeded ==> j.control.supervisor.timed_out
                && j.control.termination == Termination::Killed
            &&& r.status == LaunchStatus::OutputLimitExceeded <==> j.control.verdict is Ran
                && j.stdout.len() == STDOUT_CAP
            &&& r.status matches LaunchStatus::Exit(code) ==> j.control.termination
                == Termination::Exited(code)
        }),
{
}

/// What a job that ran its program reports, by how the program ended,
/// as long as standard output stayed below its cap: the exit code of a
/// program that exited, a timeout for one that the kill signal ended
/// after the supervisor had called for it, a runtime error for any other
/// death by signal. With standard output at its cap, the exceeded limit
/// is reported instead.
pub proof fn lemma_status_complete(j: JobView)
    requires
        job_inv(j),
        j.control.phase == Phase::Done,
        j.control.verdict is Ran,
    ensures
        outcome_of(j) matches Some(Ok(r)) && r.stdout == j.stdout && r.stderr == j.stderr && (
        if j.stdout.len() == STDOUT_CAP {
            r.status == LaunchStatus::OutputLimitExceeded
        } else {
            match j.control.termination {
                Termination::Exited(code) => r.status == LaunchStatus::Exit(code),
                Termination::Killed => r.status == if j.control.supervisor.timed_out {
                    LaunchStatus::TimeLimitExceeded
                } else {
                    LaunchStatus::RuntimeError
                },
                Termination::Signaled(_) => r.status == LaunchStatus::RuntimeError,
            }
        }),
{
}

/// The order of a job's actions on the host. Mounts are made one after
/// the other from the first, only while no child lives, and never in the
/// compile phase; the program is started only with all of them in place
/// and both pipes open, and all of them stay while it is watched; a mount
/// is undone only after the child was reaped, and only one that was made.
/// A pipe is read only with its write end closed in the parent and its
/// read end open. A signal is sent, and the child waited for, only while a
/// child lives. The workspace is removed last.
pub proof fn lemma_action_order(c: Control)
    requires
        consistent(c),
    ensures
        action_of(c) matches Action::Mount(i) ==> i == c.ledger.mounted && i < c.n_mounts
            && !c.ledger.child,
        action_of(c) matches Action::Unmount(i) ==> i + 1 == c.ledger.mounted && i < c.n_mounts
            && !c.ledger.child,
        action_of(c) == Action::SpawnCompile || c.phase == Phase::Compiling ==> c.ledger.mounted
            == 0,
        action_of(c) == Action::SpawnRun ==> c.ledger.mounted == c.n_mounts && c.ledger
            == holding(c.n_mounts, true, true, true, true, false),
        c.phase == Phase::Running ==> c.ledger.mounted == c.n_mounts,
        action_of(c) == Action::Read(Pipe::Stdout) ==> c.ledger.stdout_read
            && !c.ledger.stdout_write && c.stdout_open,
        action_of(c) == Action::Read(Pipe::Stderr) ==> c.ledger.stderr_read
            && !c.ledger.stderr_write && c.stderr_open,
        action_of(c) == Action::Kill || action_of(c) == Action::Poll ==> c.ledger.child,
        action_of(c) == Action::RemoveWorkspace ==> c.ledger == holding(
            0,
            false,
            false,
            false,
            false,
            false,
        ),
        action_of(c) matches Action::Close(pipe, end) ==> c.ledger.with_end(pipe, end, true)
            == c.ledger,
        action_of(c) matches Action::OpenPipe(pipe) ==> c.ledger.with_end(
            pipe,
            End::Read,
            false,
        ).with_end(pipe, End::Write, false) == c.ledger,
{
}

} // verus!
