//! The order of a job's work, as a state machine.
//!
//! A job moves through its phases by asking its host for one action at a
//! time and taking what came of it as an event. The machine decides; the
//! host only acts. The [`Ledger`] records what the job holds of the host, so
//! that all of it is given back before the job is done.
//!
//! While a child lives, the job takes turns between waiting for it and
//! reading its pipes, so that the child is never held up by a full pipe
//! as long as its output is read. The pipes are read without blocking: a
//! read that finds nothing is answered at once.

use vstd::prelude::*;
use crate::child::Pipe;
use crate::collector::{capped, STDERR_CAP, STDOUT_CAP};
use crate::supervisor::{supervision_of, Poll, Supervision, Supervisor};
use crate::verdict::{
    compilation_error_of, compile_failed_of, metrics_of, run_result_of, LaunchResultView, Metrics,
    Usage,
};
use crate::wait_status::Termination;

verus! {

/// One of the two ends of a pipe.
#[derive(Clone, Copy, Debug, PartialEq, Eq, Structural)]
pub enum End {
    Read,
    Write,
}

/// What a job holds of the host at one moment.
#[derive(Clone, Copy, Debug, PartialEq, Eq, Structural)]
pub struct Ledger {
    /// The workspace directory exists.
    pub workspace: bool,
    /// The first `mounted` mounts of the sandbox are in place.
    pub mounted: usize,
    pub stdout_read: bool,
    pub stdout_write: bool,
    pub stderr_read: bool,
    pub stderr_write: bool,
    /// A child was started and has not been reaped.
    pub child: bool,
}

impl Ledger {
    /// Nothing is held.
    pub open spec fn is_clear(self) -> bool {
        &&& !self.workspace
        &&& self.mounted == 0
        &&& !self.stdout_read
        &&& !self.stdout_write
        &&& !self.stderr_read
        &&& !self.stderr_write
        &&& !self.child
    }

    /// The ledger with one end of a pipe marked as held or not.
    pub open spec fn with_end(self, pipe: Pipe, end: End, held: bool) -> Ledger {
        match (pipe, end) {
            (Pipe::Stdout, End::Read) => Ledger { stdout_read: held, ..self },
            (Pipe::Stdout, End::Write) => Ledger { stdout_write: held, ..self },
            (Pipe::Stderr, End::Read) => Ledger { stderr_read: held, ..self },
            (Pipe::Stderr, End::Write) => Ledger { stderr_write: held, ..self },
        }
    }

    /// The ledger with both ends of a pipe marked as held.
    pub open spec fn with_pipe(self, pipe: Pipe) -> Ledger {
        self.with_end(pipe, End::Read, true).with_end(pipe, End::Write, true)
    }
}

/// What the job asks of its host.
#[derive(Clone, Copy, Debug, PartialEq, Eq, Structural)]
pub enum Action {
    /// Create a fresh workspace directory.
    CreateWorkspace,
    /// Write the submitted code to the language's source file.
    WriteSource,
    /// Write the program's input to the file `stdin` of the workspace.
    WriteStdin,
    /// Open a pipe.
    OpenPipe(Pipe),
    /// Start the compile-phase child.
    SpawnCompile,
    /// Start the run-phase child.
    SpawnRun,
    /// Wait for the child without blocking.
    Poll,
    /// Send the kill signal to the child.
    Kill,
    /// Make the mount of this index in the sandbox's list.
    Mount(usize),
    /// Undo the mount of this index.
    Unmount(usize),
    /// Close one end of a pipe in the parent.
    Close(Pipe, End),
    /// Read the next chunk from a pipe, without blocking.
    Read(Pipe),
    /// Remove the workspace and all in it.
    RemoveWorkspace,
    /// Nothing is left to do: the outcome can be taken.
    Finish,
}

/// What came of an action, with byte streams as sequences.
pub enum EventView {
    /// The action was carried out.
    Completed,
    /// The host could not carry out the action.
    Failed,
    /// The answer to `Poll`, with the child's resource usage.
    Polled { poll: Poll, usage: Usage },
    /// An answer to `Read`: the bytes read, none at the end of the stream.
    Chunk(Seq<u8>),
    /// An answer to `Read`: the pipe holds nothing now and has not ended.
    Quiet,
}

/// Why a job gave no result.
#[derive(Clone, Copy, Debug, PartialEq, Eq, Structural)]
pub enum Fault {
    /// The host could not carry out this action.
    Host(Action),
    /// The event handed in was no answer to this action.
    Protocol(Action),
    /// Waiting for the child failed.
    Wait,
    /// The child's resource usage does not fit the reported metrics.
    Accounting,
}

/// How the job will end, once all it holds is given back.
#[derive(Clone, Copy, Debug, PartialEq, Eq, Structural)]
pub enum Verdict {
    /// Not yet known.
    Open,
    /// The compile command failed.
    CompileFailed,
    /// The program ran and was reaped.
    Ran,
    /// The job gives no result.
    Faulted(Fault),
}

/// Where a job stands.
#[derive(Clone, Copy, Debug, PartialEq, Eq, Structural)]
pub enum Phase {
    CreatingWorkspace,
    WritingSource,
    OpeningCompilePipe,
    SpawningCompile,
    ClosingCompileWriteEnd,
    /// Waiting for the compile command and reading its standard error.
    Compiling,
    ClosingCompileReadEnd,
    WritingStdin,
    OpeningStdoutPipe,
    OpeningStderrPipe,
    Mounting,
    SpawningRun,
    ClosingStdoutWriteEnd,
    ClosingStderrWriteEnd,
    /// Waiting for the program and reading both its streams.
    Running,
    Unmounting,
    /// Giving back whatever is still held, as the ledger shows it.
    Releasing,
    Done,
}

/// What a job does next while it watches a child: wait for it, or read
/// one of its pipes.
#[derive(Clone, Copy, Debug, PartialEq, Eq, Structural)]
pub enum Turn {
    Poll,
    Stdout,
    Stderr,
}

/// All of a job's state but the captured bytes.
#[derive(Clone, Copy, Debug, PartialEq, Eq, Structural)]
pub struct Control {
    /// The language has a compile command.
    pub has_compile: bool,
    /// How many mounts the sandbox lists.
    pub n_mounts: usize,
    pub phase: Phase,
    pub ledger: Ledger,
    /// The supervisor of the child that runs, or ran last.
    pub supervisor: Supervisor,
    /// The kill signal is to be sent next.
    pub kill_due: bool,
    /// Whose turn it is while a child is watched.
    pub turn: Turn,
    /// The child's standard output is still read.
    pub stdout_open: bool,
    /// The child's standard error is still read.
    pub stderr_open: bool,
    /// The compile command was reaped and had failed.
    pub compile_failed: bool,
    /// How the run-phase child ended; it counts once the verdict is `Ran`.
    pub termination: Termination,
    /// The run-phase child's metrics; they count once the verdict is `Ran`.
    pub metrics: Metrics,
    pub verdict: Verdict,
    /// An action that gives something back could not be carried out.
    pub release_failed: bool,
}

/// The fault that an event stands for which does not fit the action asked
/// for.
pub open spec fn fault_of(action: Action, event: EventView) -> Fault {
    if event is Failed {
        Fault::Host(action)
    } else {
        Fault::Protocol(action)
    }
}

/// What is given back next, child first, then mounts from the last to the
/// first, then pipe ends, then the workspace.
pub open spec fn release_action(ledger: Ledger, kill_due: bool) -> Action {
    if ledger.child {
        if kill_due {
            Action::Kill
        } else {
            Action::Poll
        }
    } else if ledger.mounted > 0 {
        Action::Unmount((ledger.mounted - 1) as usize)
    } else if ledger.stdout_write {
        Action::Close(Pipe::Stdout, End::Write)
    } else if ledger.stderr_write {
        Action::Close(Pipe::Stderr, End::Write)
    } else if ledger.stdout_read {
        Action::Close(Pipe::Stdout, End::Read)
    } else if ledger.stderr_read {
        Action::Close(Pipe::Stderr, End::Read)
    } else if ledger.workspace {
        Action::RemoveWorkspace
    } else {
        Action::Finish
    }
}

/// The turn that follows a turn.
pub open spec fn turn_after(turn: Turn) -> Turn {
    match turn {
        Turn::Poll => Turn::Stdout,
        Turn::Stdout => Turn::Stderr,
        Turn::Stderr => Turn::Poll,
    }
}

/// The turn at which a pipe is read.
pub open spec fn turn_of(pipe: Pipe) -> Turn {
    match pipe {
        Pipe::Stdout => Turn::Stdout,
        Pipe::Stderr => Turn::Stderr,
    }
}

/// Whether a turn has anything to do: a child to wait for, or a stream
/// that is still read.
pub open spec fn turn_applies(c: Control, turn: Turn) -> bool {
    match turn {
        Turn::Poll => c.ledger.child,
        Turn::Stdout => c.stdout_open,
        Turn::Stderr => c.stderr_open,
    }
}

/// The turn that is taken next: the one whose turn it is, or the first
/// after it that has anything to do.
pub open spec fn next_turn(c: Control) -> Turn {
    if turn_applies(c, c.turn) {
        c.turn
    } else if turn_applies(c, turn_after(c.turn)) {
        turn_after(c.turn)
    } else {
        turn_after(turn_after(c.turn))
    }
}

/// The action of a turn.
pub open spec fn turn_action(turn: Turn) -> Action {
    match turn {
        Turn::Poll => Action::Poll,
        Turn::Stdout => Action::Read(Pipe::Stdout),
        Turn::Stderr => Action::Read(Pipe::Stderr),
    }
}

/// The action that a job asks for in its state.
pub open spec fn action_of(c: Control) -> Action {
    match c.phase {
        Phase::CreatingWorkspace => Action::CreateWorkspace,
        Phase::WritingSource => Action::WriteSource,
        Phase::OpeningCompilePipe => Action::OpenPipe(Pipe::Stderr),
        Phase::SpawningCompile => Action::SpawnCompile,
        Phase::ClosingCompileWriteEnd => Action::Close(Pipe::Stderr, End::Write),
        Phase::Compiling | Phase::Running => if c.kill_due {
            Action::Kill
        } else {
            turn_action(next_turn(c))
        },
        Phase::ClosingCompileReadEnd => Action::Close(Pipe::Stderr, End::Read),
        Phase::WritingStdin => Action::WriteStdin,
        Phase::OpeningStdoutPipe => Action::OpenPipe(Pipe::Stdout),
        Phase::OpeningStderrPipe => Action::OpenPipe(Pipe::Stderr),
        Phase::Mounting => Action::Mount(c.ledger.mounted),
        Phase::SpawningRun => Action::SpawnRun,
        Phase::ClosingStdoutWriteEnd => Action::Close(Pipe::Stdout, End::Write),
        Phase::ClosingStderrWriteEnd => Action::Close(Pipe::Stderr, End::Write),
        Phase::Unmounting => Action::Unmount((c.ledger.mounted - 1) as usize),
        Phase::Releasing => release_action(c.ledger, c.kill_due),
        Phase::Done => Action::Finish,
    }
}

/// A job that holds nothing is done; one that holds something gives it
/// back first.
pub open spec fn settled(c: Control) -> Control {
    if c.ledger.is_clear() {
        Control { phase: Phase::Done, kill_due: false, ..c }
    } else {
        Control { phase: Phase::Releasing, ..c }
    }
}

/// The job with its verdict set. It goes on to give back what it holds,
/// the child first, by the kill signal, where one still lives.
pub open spec fn concluded(c: Control, verdict: Verdict) -> Control {
    settled(Control { verdict, kill_due: c.ledger.child, ..c })
}

/// The job after a fault in its work: it gives back what it holds and
/// reports the fault. Where the action that failed was itself to give
/// something back, the ledger still shows it as held, so that it is asked
/// for once more.
pub open spec fn faulted(c: Control, fault: Fault) -> Control {
    concluded(c, Verdict::Faulted(fault))
}

/// The job after an action that gives something back could not be carried
/// out: it ends at once, keeps what it holds, and reports the first fault
/// it met.
pub open spec fn release_failure(c: Control, fault: Fault) -> Control {
    Control {
        phase: Phase::Done,
        kill_due: false,
        release_failed: true,
        verdict: if c.verdict is Faulted {
            c.verdict
        } else {
            Verdict::Faulted(fault)
        },
        ..c
    }
}

/// The job after one more event while it gives back what it holds.
pub open spec fn release_step(c: Control, event: EventView) -> Control {
    let action = release_action(c.ledger, c.kill_due);
    match (action, event) {
        (Action::Kill, EventView::Completed) => Control { kill_due: false, ..c },
        (Action::Poll, EventView::Polled { poll, usage }) => if poll.wait == 0 {
            c
        } else {
            settled(Control { ledger: Ledger { child: false, ..c.ledger }, ..c })
        },
        (Action::Unmount(index), EventView::Completed) => settled(
            Control { ledger: Ledger { mounted: index, ..c.ledger }, ..c },
        ),
        (Action::Close(pipe, end), EventView::Completed) => settled(
            Control { ledger: c.ledger.with_end(pipe, end, false), ..c },
        ),
        (Action::RemoveWorkspace, EventView::Completed) => settled(
            Control { ledger: Ledger { workspace: false, ..c.ledger }, ..c },
        ),
        _ => release_failure(c, fault_of(action, event)),
    }
}

/// The job that watches a child, once an event has been taken in. While
/// the child lives or a stream is still read, the watch goes on. After
/// that, a compile command that failed ends the job's work, and one that
/// did well leaves its pipe to be closed; a program leaves the mounts to
/// be undone, and ends the job's work where there are none.
pub open spec fn watched(c: Control) -> Control {
    if c.ledger.child || c.stdout_open || c.stderr_open {
        c
    } else if c.phase == Phase::Compiling {
        if c.compile_failed {
            concluded(c, Verdict::CompileFailed)
        } else {
            Control { phase: Phase::ClosingCompileReadEnd, ..c }
        }
    } else if c.ledger.mounted == 0 {
        concluded(c, Verdict::Ran)
    } else {
        Control { phase: Phase::Unmounting, ..c }
    }
}

/// The job after an answer to a poll of its child; the turn passes on.
/// The kill signal falls due when the child is found overdue. A reaped
/// compile command has failed unless it exited with zero; a reaped program
/// leaves how it ended and its metrics, unless its usage cannot be
/// reported. A wait that failed leaves no child to wait for.
pub open spec fn supervise_step(c: Control, poll: Poll, usage: Usage) -> Control {
    let polled = Control {
        supervisor: c.supervisor.after(poll),
        turn: turn_after(Turn::Poll),
        ..c
    };
    let reaped = Control { ledger: Ledger { child: false, ..c.ledger }, ..polled };
    match supervision_of(poll, c.supervisor.timeout_ms) {
        Supervision::StillRunning => polled,
        Supervision::Overdue => Control { kill_due: true, ..polled },
        Supervision::WaitFailed => faulted(reaped, Fault::Wait),
        Supervision::Reaped(t) => if c.phase == Phase::Compiling {
            watched(Control { compile_failed: compile_failed_of(t), ..reaped })
        } else {
            match metrics_of(usage) {
                None => faulted(reaped, Fault::Accounting),
                Some(m) => watched(Control { termination: t, metrics: m, ..reaped }),
            }
        },
    }
}

/// The job after a read of a pipe was answered; the turn passes on.
/// `ended` says that no more is read from the pipe.
pub open spec fn read_step(c: Control, pipe: Pipe, ended: bool) -> Control {
    let turned = Control { turn: turn_after(turn_of(pipe)), ..c };
    if !ended {
        turned
    } else {
        match pipe {
            Pipe::Stdout => watched(Control { stdout_open: false, ..turned }),
            Pipe::Stderr => watched(Control { stderr_open: false, ..turned }),
        }
    }
}

/// The job after a child was started: the child is watched from its
/// start, beginning with a poll, and its streams are read: standard error
/// alone of a compile command, both of a program.
pub open spec fn spawned(c: Control, phase: Phase, stdout_open: bool) -> Control {
    Control {
        phase,
        ledger: Ledger { child: true, ..c.ledger },
        supervisor: Supervisor { timed_out: false, ..c.supervisor },
        kill_due: false,
        turn: Turn::Poll,
        stdout_open,
        stderr_open: true,
        ..c
    }
}

/// The job after its action was carried out, for the phases whose action
/// has no other answer. The parent's write ends are closed as soon as the
/// child exists.
pub open spec fn completed_step(c: Control) -> Control {
    match c.phase {
        Phase::CreatingWorkspace => Control {
            phase: Phase::WritingSource,
            ledger: Ledger { workspace: true, ..c.ledger },
            ..c
        },
        Phase::WritingSource => Control {
            phase: if c.has_compile {
                Phase::OpeningCompilePipe
            } else {
                Phase::WritingStdin
            },
            ..c
        },
        Phase::OpeningCompilePipe => Control {
            phase: Phase::SpawningCompile,
            ledger: c.ledger.with_pipe(Pipe::Stderr),
            ..c
        },
        Phase::SpawningCompile => spawned(c, Phase::ClosingCompileWriteEnd, false),
        Phase::ClosingCompileWriteEnd => Control {
            phase: Phase::Compiling,
            ledger: c.ledger.with_end(Pipe::Stderr, End::Write, false),
            ..c
        },
        Phase::Compiling | Phase::Running => Control { kill_due: false, ..c },
        Phase::ClosingCompileReadEnd => Control {
            phase: Phase::WritingStdin,
            ledger: c.ledger.with_end(Pipe::Stderr, End::Read, false),
            ..c
        },
        Phase::WritingStdin => Control { phase: Phase::OpeningStdoutPipe, ..c },
        Phase::OpeningStdoutPipe => Control {
            phase: Phase::OpeningStderrPipe,
            ledger: c.ledger.with_pipe(Pipe::Stdout),
            ..c
        },
        Phase::OpeningStderrPipe => Control {
            phase: if c.n_mounts == 0 {
                Phase::SpawningRun
            } else {
                Phase::Mounting
            },
            ledger: c.ledger.with_pipe(Pipe::Stderr),
            ..c
        },
        Phase::Mounting => Control {
            phase: if c.ledger.mounted + 1 == c.n_mounts {
                Phase::SpawningRun
            } else {
                Phase::Mounting
            },
            ledger: Ledger { mounted: (c.ledger.mounted + 1) as usize, ..c.ledger },
            ..c
        },
        Phase::SpawningRun => spawned(c, Phase::ClosingStdoutWriteEnd, true),
        Phase::ClosingStdoutWriteEnd => Control {
            phase: Phase::ClosingStderrWriteEnd,
            ledger: c.ledger.with_end(Pipe::Stdout, End::Write, false),
            ..c
        },
        Phase::ClosingStderrWriteEnd => Control {
            phase: Phase::Running,
            ledger: c.ledger.with_end(Pipe::Stderr, End::Write, false),
            ..c
        },
        Phase::Unmounting => {
            let undone = Control {
                ledger: Ledger { mounted: (c.ledger.mounted - 1) as usize, ..c.ledger },
                ..c
            };
            if c.ledger.mounted == 1 {
                concluded(undone, Verdict::Ran)
            } else {
                undone
            }
        },
        _ => c,
    }
}

/// Whether an event answers the action that the job asks for. A chunk or
/// a quiet pipe answers a read, a poll's answer a poll, and completion
/// everything else but the finish.
pub open spec fn answers(action: Action, event: EventView) -> bool {
    match action {
        Action::Finish => false,
        Action::Read(_) => event is Chunk || event is Quiet,
        Action::Poll => event is Polled,
        _ => event is Completed,
    }
}

/// The job after one more event, but for the answers to a read. A job
/// that is done stays as it is. An event that does not answer the action
/// asked for is a fault.
pub open spec fn control_step(c: Control, event: EventView) -> Control {
    let action = action_of(c);
    if c.phase == Phase::Done {
        c
    } else if c.phase == Phase::Releasing {
        release_step(c, event)
    } else if !answers(action, event) {
        faulted(c, fault_of(action, event))
    } else {
        match event {
            EventView::Polled { poll, usage } => supervise_step(c, poll, usage),
            EventView::Completed => completed_step(c),
            _ => c,
        }
    }
}

/// The state in which every job begins.
pub open spec fn initial(has_compile: bool, n_mounts: usize, timeout_ms: u64) -> Control {
    Control {
        has_compile,
        n_mounts,
        phase: Phase::CreatingWorkspace,
        ledger: Ledger {
            workspace: false,
            mounted: 0,
            stdout_read: false,
            stdout_write: false,
            stderr_read: false,
            stderr_write: false,
            child: false,
        },
        supervisor: Supervisor { timeout_ms, timed_out: false },
        kill_due: false,
        turn: Turn::Poll,
        stdout_open: false,
        stderr_open: false,
        compile_failed: false,
        termination: Termination::Exited(0),
        metrics: Metrics { memory_kib: 0, user_time_ms: 0 },
        verdict: Verdict::Open,
        release_failed: false,
    }
}

/// A job: its state and the bytes captured of the compile command's
/// standard error and of both streams of the program.
pub struct JobView {
    pub control: Control,
    pub compile_errors: Seq<u8>,
    pub stdout: Seq<u8>,
    pub stderr: Seq<u8>,
}

/// The job before its first action.
pub open spec fn start_of(has_compile: bool, n_mounts: usize, timeout_ms: u64) -> JobView {
    JobView {
        control: initial(has_compile, n_mounts, timeout_ms),
        compile_errors: Seq::empty(),
        stdout: Seq::empty(),
        stderr: Seq::empty(),
    }
}

/// One of the three streams that a job captures.
pub enum Stream {
    /// The standard error of the compile command.
    CompileErrors,
    /// The standard output of the program.
    Stdout,
    /// The standard error of the program.
    Stderr,
}

/// What a job holds of a stream.
pub open spec fn kept(j: JobView, stream: Stream) -> Seq<u8> {
    match stream {
        Stream::CompileErrors => j.compile_errors,
        Stream::Stdout => j.stdout,
        Stream::Stderr => j.stderr,
    }
}

/// The cap of a stream.
pub open spec fn cap_of(stream: Stream) -> nat {
    match stream {
        Stream::Stdout => STDOUT_CAP as nat,
        _ => STDERR_CAP as nat,
    }
}

/// Whether the job asks for a read of a stream: standard error belongs to
/// the compile command while it is watched, and to the program otherwise.
pub open spec fn reads(j: JobView, stream: Stream) -> bool {
    match stream {
        Stream::CompileErrors => action_of(j.control) == Action::Read(Pipe::Stderr)
            && j.control.phase == Phase::Compiling,
        Stream::Stdout => action_of(j.control) == Action::Read(Pipe::Stdout),
        Stream::Stderr => action_of(j.control) == Action::Read(Pipe::Stderr) && j.control.phase
            != Phase::Compiling,
    }
}

/// The bytes of a chunk that answers a read of a stream; nothing for any
/// other event.
pub open spec fn bytes_read(j: JobView, event: EventView, stream: Stream) -> Seq<u8> {
    match event {
        EventView::Chunk(bytes) => if reads(j, stream) {
            bytes
        } else {
            Seq::empty()
        },
        _ => Seq::empty(),
    }
}

/// What a job holds of a stream after one more event: a chunk that
/// answers a read of the stream is added, as far as the cap allows.
pub open spec fn taken_in(j: JobView, event: EventView, stream: Stream) -> Seq<u8> {
    if event is Chunk && reads(j, stream) {
        capped(kept(j, stream) + bytes_read(j, event, stream), cap_of(stream))
    } else {
        kept(j, stream)
    }
}

/// Whether the answer to a read ends the reading of the pipe. Both
/// streams are read to their end, whatever their length, so that a child
/// is never held up by a full pipe; what exceeds a cap is read and
/// dropped. A pipe that is quiet is read again at its next turn while the
/// child lives; once the child is gone, a quiet pipe has ended.
pub open spec fn ends_reading(j: JobView, event: EventView) -> bool {
    match event {
        EventView::Chunk(bytes) => bytes.len() == 0,
        _ => !j.control.ledger.child,
    }
}

/// The state of a job after one more event. The definition is opaque, so
/// that what is said of the streams does not draw in all of the state
/// machine: reveal it to compute a state.
#[verifier::opaque]
pub open spec fn next_control(j: JobView, event: EventView) -> Control {
    match action_of(j.control) {
        Action::Read(pipe) => if event is Chunk || event is Quiet {
            read_step(j.control, pipe, ends_reading(j, event))
        } else {
            control_step(j.control, event)
        },
        _ => control_step(j.control, event),
    }
}

/// The job after one more event.
pub open spec fn step(j: JobView, event: EventView) -> JobView {
    JobView {
        control: next_control(j, event),
        compile_errors: taken_in(j, event, Stream::CompileErrors),
        stdout: taken_in(j, event, Stream::Stdout),
        stderr: taken_in(j, event, Stream::Stderr),
    }
}

/// The job after a series of events.
pub open spec fn run(j: JobView, events: Seq<EventView>) -> JobView
    decreases events.len(),
{
    if events.len() == 0 {
        j
    } else {
        step(run(j, events.drop_last()), events.last())
    }
}

/// What a job reports once it is done: a result after a failed compile
/// command or a program that ran, a fault otherwise. A job that is not
/// done reports nothing.
pub open spec fn outcome_of(j: JobView) -> Option<Result<LaunchResultView, Fault>> {
    if j.control.phase != Phase::Done {
        None
    } else {
        match j.control.verdict {
            Verdict::Open => None,
            Verdict::CompileFailed => Some(Ok(compilation_error_of(j.compile_errors))),
            Verdict::Ran => Some(
                Ok(
                    run_result_of(
                        j.control.termination,
                        j.control.supervisor.timed_out,
                        j.stdout.len() == STDOUT_CAP,
                        j.stdout,
                        j.stderr,
                        j.control.metrics,
                    ),
                ),
            ),
            Verdict::Faulted(fault) => Some(Err(fault)),
        }
    }
}

} // verus!
