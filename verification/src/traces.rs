//! What a job reports, told from the events that it met.
//!
//! Whatever the order in which polls and reads were answered, and however
//! the host cut a stream into chunks, a job keeps of each stream what its
//! cap allows of all the bytes handed in, and reports the program by how
//! it was reaped.

use vstd::prelude::*;
use crate::child::Pipe;
use crate::collector::{
    capped, lemma_capped_is_bounded_prefix, lemma_capped_twice, STDERR_CAP, STDOUT_CAP,
};
use crate::invariants::{consistent, job_inv, lemma_run_inv};
use crate::protocol::{
    action_of, answers, bytes_read, cap_of, completed_step, fault_of, faulted, kept,
    next_control, outcome_of, read_step, release_step, run, start_of, step, supervise_step,
    watched, Action, Control, EventView, Fault, JobView, Phase, Stream,
};
use crate::supervisor::{supervision_of, Poll, Supervision};
use crate::types::LaunchStatus;
use crate::verdict::Usage;
use crate::wait_status::{termination_of, Termination};

verus! {

/// All that was read of a stream during a series of events, in the order
/// in which it was read.
pub open spec fn stream_read(j: JobView, events: Seq<EventView>, stream: Stream) -> Seq<u8>
    decreases events.len(),
{
    if events.len() == 0 {
        Seq::empty()
    } else {
        stream_read(j, events.drop_last(), stream) + bytes_read(
            run(j, events.drop_last()),
            events.last(),
            stream,
        )
    }
}

/// How the program was reaped during a series of events: what the status
/// word says that came with the last event that reaped the program.
/// Before that, an exit with zero stands in.
pub open spec fn reaped_as(j: JobView, events: Seq<EventView>) -> Termination
    decreases events.len(),
{
    if events.len() == 0 {
        j.control.termination
    } else if reaps_program(run(j, events.drop_last()), events.last()) {
        termination_of(status_of(events.last()))
    } else {
        reaped_as(j, events.drop_last())
    }
}

/// One event adds to what is kept of a stream the bytes read of it, as
/// far as the cap allows.
proof fn lemma_step_keeps_capped(j: JobView, event: EventView, stream: Stream)
    requires
        kept(j, stream).len() <= cap_of(stream),
    ensures
        kept(step(j, event), stream) == capped(
            kept(j, stream) + bytes_read(j, event, stream),
            cap_of(stream),
        ),
{
    let more = bytes_read(j, event, stream);
    if more.len() == 0 {
        assert(kept(j, stream) + more =~= kept(j, stream));
    }
}

/// A job keeps of each stream what the cap allows of all that was read of
/// it, in the order in which it was read, however the stream was cut into
/// chunks and whatever came between them.
pub proof fn lemma_kept_is_capped_stream(j: JobView, events: Seq<EventView>, stream: Stream)
    requires
        kept(j, stream).len() <= cap_of(stream),
    ensures
        kept(run(j, events), stream) == capped(
            kept(j, stream) + stream_read(j, events, stream),
            cap_of(stream),
        ),
    decreases events.len(),
{
    if events.len() == 0 {
        assert(kept(j, stream) + stream_read(j, events, stream) =~= kept(j, stream));
    } else {
        let front = events.drop_last();
        let before = run(j, front);
        let read = stream_read(j, front, stream);
        let more = bytes_read(before, events.last(), stream);
        lemma_kept_is_capped_stream(j, front, stream);
        lemma_step_keeps_capped(before, events.last(), stream);
        lemma_capped_twice(kept(j, stream) + read, more, cap_of(stream));
        assert((kept(j, stream) + read) + more =~= kept(j, stream) + (read + more));
    }
}

/// Whether an event reaps the program: it answers a poll, while the
/// program is watched, with the program's id.
pub open spec fn reaps_program(j: JobView, event: EventView) -> bool {
    match event {
        EventView::Polled { poll, usage } => j.control.phase == Phase::Running && action_of(
            j.control,
        ) == Action::Poll && poll.wait > 0,
        _ => false,
    }
}

/// The status word of an event that reaps the program.
pub open spec fn status_of(event: EventView) -> i32 {
    match event {
        EventView::Polled { poll, usage } => poll.status,
        _ => 0,
    }
}

/// Giving back leaves the record of how the program ended, and a fault.
proof fn lemma_release_keeps_termination(c: Control, event: EventView)
    ensures
        release_step(c, event).termination == c.termination,
        c.verdict is Faulted ==> release_step(c, event).verdict is Faulted,
{
}

/// A fault leaves the record of how the program ended.
proof fn lemma_faulted_keeps_termination(c: Control, fault: Fault)
    ensures
        faulted(c, fault).termination == c.termination,
        faulted(c, fault).verdict is Faulted,
{
}

/// An action carried out leaves the record of how the program ended.
proof fn lemma_completed_keeps_termination(c: Control)
    ensures
        completed_step(c).termination == c.termination,
        !(completed_step(c).verdict is Faulted) || c.verdict is Faulted,
{
}

/// The end of a watch leaves the record of how the program ended.
proof fn lemma_watched_keeps_termination(c: Control)
    ensures
        watched(c).termination == c.termination,
        !(watched(c).verdict is Faulted) || c.verdict is Faulted,
{
}

/// An answered read leaves the record of how the program ended.
proof fn lemma_read_keeps_termination(c: Control, pipe: Pipe, ended: bool)
    ensures
        read_step(c, pipe, ended).termination == c.termination,
        !(read_step(c, pipe, ended).verdict is Faulted) || c.verdict is Faulted,
{
}

/// An answer to a poll records how the program ended exactly when it
/// reaps the program and the usage can be reported.
proof fn lemma_supervise_records_termination(c: Control, poll: Poll, usage: Usage)
    ensures
        supervise_step(c, poll, usage).verdict is Faulted || supervise_step(
            c,
            poll,
            usage,
        ).termination == (if c.phase != Phase::Compiling && poll.wait > 0 {
            termination_of(poll.status)
        } else {
            c.termination
        }),
{
    let polled = Control {
        supervisor: c.supervisor.after(poll),
        turn: crate::protocol::turn_after(crate::protocol::Turn::Poll),
        ..c
    };
    let reaped = Control {
        ledger: crate::protocol::Ledger { child: false, ..c.ledger },
        ..polled
    };
    lemma_faulted_keeps_termination(reaped, Fault::Wait);
    lemma_faulted_keeps_termination(reaped, Fault::Accounting);
    if poll.wait > 0 {
        let t = termination_of(poll.status);
        lemma_watched_keeps_termination(
            Control { compile_failed: crate::verdict::compile_failed_of(t), ..reaped },
        );
        if crate::verdict::metrics_of(usage) is Some {
            lemma_watched_keeps_termination(
                Control {
                    termination: t,
                    metrics: crate::verdict::metrics_of(usage).unwrap(),
                    ..reaped
                },
            );
        }
    }
}

/// One event leaves the record of how the program ended as it is, unless
/// it reaps the program; a job that has met a fault stays so.
proof fn lemma_step_records_termination(j: JobView, event: EventView)
    requires
        job_inv(j),
    ensures
        step(j, event).control.verdict is Faulted || step(j, event).control.termination == (
        if reaps_program(j, event) {
            termination_of(status_of(event))
        } else {
            j.control.termination
        }),
        j.control.verdict is Faulted ==> step(j, event).control.verdict is Faulted,
{
    reveal(next_control);
    let c = j.control;
    let action = action_of(c);
    match action {
        Action::Read(pipe) => {
            lemma_read_keeps_termination(c, pipe, true);
            lemma_read_keeps_termination(c, pipe, false);
        },
        _ => {},
    }
    if c.phase == Phase::Done {
    } else if c.phase == Phase::Releasing {
        lemma_release_keeps_termination(c, event);
    } else if !answers(action, event) {
        lemma_faulted_keeps_termination(c, fault_of(action, event));
    } else {
        match event {
            EventView::Polled { poll, usage } => {
                lemma_supervise_records_termination(c, poll, usage);
            },
            EventView::Completed => {
                lemma_completed_keeps_termination(c);
            },
            _ => {},
        }
    }
}

/// A job that has met no fault records of the program how it was reaped.
pub proof fn lemma_termination_is_as_reaped(
    has_compile: bool,
    n_mounts: usize,
    timeout_ms: u64,
    events: Seq<EventView>,
)
    ensures
        ({
            let start = start_of(has_compile, n_mounts, timeout_ms);
            run(start, events).control.verdict is Faulted || run(start, events).control.termination
                == reaped_as(start, events)
        }),
    decreases events.len(),
{
    let start = start_of(has_compile, n_mounts, timeout_ms);
    if events.len() > 0 {
        let front = events.drop_last();
        lemma_termination_is_as_reaped(has_compile, n_mounts, timeout_ms, front);
        lemma_run_inv(has_compile, n_mounts, timeout_ms, front);
        lemma_step_records_termination(run(start, front), events.last());
    }
}

/// Whether an event is the answer of a poll that finds the program
/// running after its deadline.
pub open spec fn finds_program_overdue(j: JobView, event: EventView) -> bool {
    match event {
        EventView::Polled { poll, usage } => j.control.phase == Phase::Running && action_of(
            j.control,
        ) == Action::Poll && supervision_of(poll, j.control.supervisor.timeout_ms)
            == Supervision::Overdue,
        _ => false,
    }
}

/// Whether some poll of a series of events found the program running
/// after its deadline.
pub open spec fn overdue_seen(j: JobView, events: Seq<EventView>) -> bool
    decreases events.len(),
{
    if events.len() == 0 {
        false
    } else {
        overdue_seen(j, events.drop_last()) || finds_program_overdue(
            run(j, events.drop_last()),
            events.last(),
        )
    }
}

/// Whether the program exists, or has run.
pub open spec fn program_started(c: Control) -> bool {
    c.phase == Phase::ClosingStdoutWriteEnd || c.phase == Phase::ClosingStderrWriteEnd || c.phase
        == Phase::Running || c.phase == Phase::Unmounting || c.verdict is Ran
}

/// The kill flag of a job agrees with what its polls of the program
/// found: before the program is started none has found it overdue, and
/// from then on the flag says whether one has.
pub open spec fn flag_agrees(c: Control, seen: bool) -> bool {
    &&& program_started(c) ==> c.supervisor.timed_out == seen
    &&& !program_started(c) && c.phase != Phase::Releasing && c.phase != Phase::Done ==> !seen
}

/// Giving back leaves the supervisor as it is.
proof fn lemma_release_keeps_supervisor(c: Control, event: EventView)
    requires
        c.phase == Phase::Releasing,
    ensures
        release_step(c, event).supervisor == c.supervisor,
        release_step(c, event).verdict is Ran ==> c.verdict is Ran,
        release_step(c, event).phase == Phase::Releasing || release_step(c, event).phase
            == Phase::Done,
{
}

/// A fault leaves the supervisor as it is.
proof fn lemma_faulted_keeps_supervisor(c: Control, fault: Fault)
    ensures
        faulted(c, fault).supervisor == c.supervisor,
        faulted(c, fault).verdict is Faulted,
        faulted(c, fault).phase == Phase::Releasing || faulted(c, fault).phase == Phase::Done,
{
}

/// The end of a watch leaves the supervisor as it is, and a program
/// started.
proof fn lemma_watched_keeps_supervisor(c: Control)
    requires
        c.phase == Phase::Compiling || c.phase == Phase::Running,
        c.verdict is Open,
    ensures
        watched(c).supervisor == c.supervisor,
        c.phase == Phase::Running ==> program_started(watched(c)),
        c.phase == Phase::Compiling ==> !program_started(watched(c)),
{
}

/// An action carried out leaves the kill flag in agreement with the
/// polls.
proof fn lemma_completed_keeps_flag(c: Control, seen: bool)
    requires
        consistent(c),
        c.phase != Phase::Done,
        c.phase != Phase::Releasing,
        flag_agrees(c, seen),
    ensures
        flag_agrees(completed_step(c), seen),
{
}

/// An answer to a poll leaves the kill flag in agreement with the polls.
proof fn lemma_supervise_keeps_flag(c: Control, poll: Poll, usage: Usage, seen: bool)
    requires
        consistent(c),
        c.phase == Phase::Compiling || c.phase == Phase::Running,
        flag_agrees(c, seen),
    ensures
        flag_agrees(
            supervise_step(c, poll, usage),
            seen || (c.phase == Phase::Running && supervision_of(poll, c.supervisor.timeout_ms)
                == Supervision::Overdue),
        ),
{
    let polled = Control {
        supervisor: c.supervisor.after(poll),
        turn: crate::protocol::turn_after(crate::protocol::Turn::Poll),
        ..c
    };
    let reaped = Control {
        ledger: crate::protocol::Ledger { child: false, ..c.ledger },
        ..polled
    };
    lemma_faulted_keeps_supervisor(reaped, Fault::Wait);
    lemma_faulted_keeps_supervisor(reaped, Fault::Accounting);
    if poll.wait > 0 {
        let t = termination_of(poll.status);
        lemma_watched_keeps_supervisor(
            Control { compile_failed: crate::verdict::compile_failed_of(t), ..reaped },
        );
        if crate::verdict::metrics_of(usage) is Some {
            lemma_watched_keeps_supervisor(
                Control {
                    termination: t,
                    metrics: crate::verdict::metrics_of(usage).unwrap(),
                    ..reaped
                },
            );
        }
    }
}

/// An answered read leaves the kill flag in agreement with the polls.
proof fn lemma_read_keeps_flag(c: Control, pipe: Pipe, ended: bool, seen: bool)
    requires
        consistent(c),
        c.phase == Phase::Compiling || c.phase == Phase::Running,
        flag_agrees(c, seen),
    ensures
        flag_agrees(read_step(c, pipe, ended), seen),
{
    let turned = Control {
        turn: crate::protocol::turn_after(crate::protocol::turn_of(pipe)),
        ..c
    };
    lemma_watched_keeps_supervisor(Control { stdout_open: false, ..turned });
    lemma_watched_keeps_supervisor(Control { stderr_open: false, ..turned });
}

/// One event leaves the kill flag in agreement with the polls.
proof fn lemma_step_keeps_flag(j: JobView, event: EventView, seen: bool)
    requires
        job_inv(j),
        flag_agrees(j.control, seen),
    ensures
        flag_agrees(step(j, event).control, seen || finds_program_overdue(j, event)),
{
    reveal(next_control);
    let c = j.control;
    let action = action_of(c);
    if c.phase == Phase::Done {
    } else if c.phase == Phase::Releasing {
        lemma_release_keeps_supervisor(c, event);
    } else {
        match (action, event) {
            (Action::Read(pipe), EventView::Chunk(bytes)) => {
                lemma_read_keeps_flag(c, pipe, bytes.len() == 0, seen);
            },
            (Action::Read(pipe), EventView::Quiet) => {
                lemma_read_keeps_flag(c, pipe, !c.ledger.child, seen);
            },
            _ => {
                if !answers(action, event) {
                    lemma_faulted_keeps_supervisor(c, fault_of(action, event));
                } else {
                    match event {
                        EventView::Polled { poll, usage } => {
                            lemma_supervise_keeps_flag(c, poll, usage, seen);
                        },
                        EventView::Completed => {
                            lemma_completed_keeps_flag(c, seen);
                        },
                        _ => {},
                    }
                }
            },
        }
    }
}

/// The kill flag of a job whose program ran says whether some poll found
/// the program running after its deadline.
pub proof fn lemma_flag_is_as_polled(
    has_compile: bool,
    n_mounts: usize,
    timeout_ms: u64,
    events: Seq<EventView>,
)
    ensures
        ({
            let start = start_of(has_compile, n_mounts, timeout_ms);
            flag_agrees(run(start, events).control, overdue_seen(start, events))
        }),
    decreases events.len(),
{
    let start = start_of(has_compile, n_mounts, timeout_ms);
    if events.len() > 0 {
        let front = events.drop_last();
        lemma_flag_is_as_polled(has_compile, n_mounts, timeout_ms, front);
        lemma_run_inv(has_compile, n_mounts, timeout_ms, front);
        lemma_step_keeps_flag(run(start, front), events.last(), overdue_seen(start, front));
    }
}

/// What a job reports of a program that ran, told from the events alone,
/// however polls and reads were interleaved and however the streams were
/// cut into chunks. Each stream is reported as far as its cap allows. A
/// standard output of at least the cap gives an exceeded output limit,
/// with exactly the cap reported. A shorter one is reported whole, with
/// the exit code of a program that was reaped as exited, a timeout for
/// one reaped as killed after a poll had found it running past its
/// deadline, and a runtime error for any other death by signal.
pub proof fn lemma_run_reports(
    has_compile: bool,
    n_mounts: usize,
    timeout_ms: u64,
    events: Seq<EventView>,
)
    requires
        run(start_of(has_compile, n_mounts, timeout_ms), events).control.phase == Phase::Done,
        run(start_of(has_compile, n_mounts, timeout_ms), events).control.verdict is Ran,
    ensures
        ({
            let start = start_of(has_compile, n_mounts, timeout_ms);
            let end = run(start, events);
            let out = stream_read(start, events, Stream::Stdout);
            let err = stream_read(start, events, Stream::Stderr);
            &&& outcome_of(end) matches Some(Ok(r)) && r.stdout == capped(out, STDOUT_CAP as nat)
                && r.stderr == capped(err, STDERR_CAP as nat) && (if out.len() >= STDOUT_CAP {
                r.status == LaunchStatus::OutputLimitExceeded && r.stdout.len() == STDOUT_CAP
            } else {
                r.stdout == out && match reaped_as(start, events) {
                    Termination::Exited(code) => r.status == LaunchStatus::Exit(code),
                    Termination::Killed => r.status == if overdue_seen(start, events) {
                        LaunchStatus::TimeLimitExceeded
                    } else {
                        LaunchStatus::RuntimeError
                    },
                    Termination::Signaled(_) => r.status == LaunchStatus::RuntimeError,
                }
            })
        }),
{
    let start = start_of(has_compile, n_mounts, timeout_ms);
    let out = stream_read(start, events, Stream::Stdout);
    let err = stream_read(start, events, Stream::Stderr);
    lemma_kept_is_capped_stream(start, events, Stream::Stdout);
    lemma_kept_is_capped_stream(start, events, Stream::Stderr);
    assert(kept(start, Stream::Stdout) + out =~= out);
    assert(kept(start, Stream::Stderr) + err =~= err);
    lemma_capped_is_bounded_prefix(out, STDOUT_CAP as nat);
    lemma_termination_is_as_reaped(has_compile, n_mounts, timeout_ms, events);
    lemma_flag_is_as_polled(has_compile, n_mounts, timeout_ms, events);
}

/// What a job reports of a compile command that failed, told from the
/// events alone: a compilation error, with the command's standard error
/// as far as its cap allows, no standard output, and metrics at zero.
pub proof fn lemma_compile_failure_reports(
    has_compile: bool,
    n_mounts: usize,
    timeout_ms: u64,
    events: Seq<EventView>,
)
    requires
        run(start_of(has_compile, n_mounts, timeout_ms), events).control.phase == Phase::Done,
        run(start_of(has_compile, n_mounts, timeout_ms), events).control.verdict
            is CompileFailed,
    ensures
        ({
            let start = start_of(has_compile, n_mounts, timeout_ms);
            let errors = stream_read(start, events, Stream::CompileErrors);
            outcome_of(run(start, events)) matches Some(Ok(r)) && r.status
                == LaunchStatus::CompilationError && r.stdout.len() == 0 && r.stderr == capped(
                errors,
                STDERR_CAP as nat,
            ) && r.memory_kib == 0 && r.user_time_ms == 0
        }),
{
    let start = start_of(has_compile, n_mounts, timeout_ms);
    let errors = stream_read(start, events, Stream::CompileErrors);
    lemma_kept_is_capped_stream(start, events, Stream::CompileErrors);
    assert(kept(start, Stream::CompileErrors) + errors =~= errors);
}

/// Two jobs with the same task report the same status and the same
/// streams of a program that ran, if the same bytes were read of each
/// stream and the program was reaped alike, whatever else differs between
/// the two series of events: the number of polls and the times they
/// report, the resource usage, the cut of the streams into chunks. For a
/// program that the kill signal ended, a poll must have found it overdue
/// in both or in neither.
pub proof fn lemma_same_streams_same_report(
    has_compile: bool,
    n_mounts: usize,
    timeout_ms: u64,
    ea: Seq<EventView>,
    eb: Seq<EventView>,
)
    requires
        run(start_of(has_compile, n_mounts, timeout_ms), ea).control.phase == Phase::Done,
        run(start_of(has_compile, n_mounts, timeout_ms), ea).control.verdict is Ran,
        run(start_of(has_compile, n_mounts, timeout_ms), eb).control.phase == Phase::Done,
        run(start_of(has_compile, n_mounts, timeout_ms), eb).control.verdict is Ran,
        ({
            let start = start_of(has_compile, n_mounts, timeout_ms);
            &&& stream_read(start, ea, Stream::Stdout) == stream_read(start, eb, Stream::Stdout)
            &&& stream_read(start, ea, Stream::Stderr) == stream_read(start, eb, Stream::Stderr)
            &&& reaped_as(start, ea) == reaped_as(start, eb)
            &&& reaped_as(start, ea) == Termination::Killed ==> overdue_seen(start, ea)
                == overdue_seen(start, eb)
        }),
    ensures
        ({
            let start = start_of(has_compile, n_mounts, timeout_ms);
            match (outcome_of(run(start, ea)), outcome_of(run(start, eb))) {
                (Some(Ok(ra)), Some(Ok(rb))) => ra.status == rb.status && ra.stdout == rb.stdout
                    && ra.stderr == rb.stderr,
                _ => false,
            }
        }),
{
    lemma_run_reports(has_compile, n_mounts, timeout_ms, ea);
    lemma_run_reports(has_compile, n_mounts, timeout_ms, eb);
}

/// Giving back ends in a fault only for a cause.
proof fn lemma_release_fault_has_a_cause(c: Control, event: EventView)
    requires
        !(c.verdict is Faulted),
        release_step(c, event).verdict is Faulted,
    ensures
        event is Failed || !answers(crate::protocol::release_action(c.ledger, c.kill_due), event),
{
}

/// An answer to a poll leads to a fault only where the wait failed or the
/// usage of the reaped program does not fit the metrics.
proof fn lemma_supervise_fault_has_a_cause(c: Control, poll: Poll, usage: Usage)
    requires
        !(c.verdict is Faulted),
        supervise_step(c, poll, usage).verdict is Faulted,
    ensures
        poll.wait < 0 || (poll.wait > 0 && c.phase != Phase::Compiling
            && crate::verdict::metrics_of(usage) is None),
{
    let polled = Control {
        supervisor: c.supervisor.after(poll),
        turn: crate::protocol::turn_after(crate::protocol::Turn::Poll),
        ..c
    };
    let reaped = Control {
        ledger: crate::protocol::Ledger { child: false, ..c.ledger },
        ..polled
    };
    if poll.wait > 0 {
        let t = termination_of(poll.status);
        lemma_watched_keeps_termination(
            Control { compile_failed: crate::verdict::compile_failed_of(t), ..reaped },
        );
        if crate::verdict::metrics_of(usage) is Some {
            lemma_watched_keeps_termination(
                Control {
                    termination: t,
                    metrics: crate::verdict::metrics_of(usage).unwrap(),
                    ..reaped
                },
            );
        }
    }
}

/// A job ends in a fault only for a cause: the host could not carry out
/// an action, an event was no answer to the action asked for, a wait
/// failed, or a reaped program's usage did not fit the metrics.
pub proof fn lemma_fault_has_a_cause(j: JobView, event: EventView)
    requires
        job_inv(j),
        !(j.control.verdict is Faulted),
        step(j, event).control.verdict is Faulted,
    ensures
        ({
            let action = action_of(j.control);
            ||| event is Failed
            ||| !answers(action, event)
            ||| event matches EventView::Polled { poll, usage } && (poll.wait < 0 || (poll.wait
                > 0 && j.control.phase == Phase::Running && crate::verdict::metrics_of(usage)
                is None))
        }),
{
    reveal(next_control);
    let c = j.control;
    let action = action_of(c);
    match action {
        Action::Read(pipe) => {
            lemma_read_keeps_termination(c, pipe, true);
            lemma_read_keeps_termination(c, pipe, false);
        },
        _ => {},
    }
    if c.phase == Phase::Done {
    } else if c.phase == Phase::Releasing {
        lemma_release_fault_has_a_cause(c, event);
    } else if !answers(action, event) {
    } else {
        match event {
            EventView::Polled { poll, usage } => {
                lemma_supervise_fault_has_a_cause(c, poll, usage);
            },
            EventView::Completed => {
                lemma_completed_keeps_termination(c);
            },
            _ => {},
        }
    }
}

} // verus!
