//! The job coordinator: the state machine of the protocol, run on real
//! events, with the captured bytes of the streams.
//!
//! The host carries out the action that [`Job::action`] asks for and hands
//! what came of it to [`Job::advance`], until [`Job::is_done`]. It reads
//! pipes without blocking, so that the job can take turns between the
//! child and its pipes while the child runs.

use vstd::prelude::*;
use crate::child::Pipe;
use crate::collector::{Capture, ReadAction, STDERR_CAP, STDOUT_CAP};
use crate::invariants::{consistent, job_inv, lemma_result_leaves_nothing, lemma_step_inv};
use crate::protocol::{
    next_control,
    action_of, answers, completed_step, concluded, control_step, fault_of, faulted, next_turn,
    outcome_of, read_step, release_action, release_failure, release_step, settled, spawned,
    start_of, step, supervise_step, turn_action, turn_after, turn_applies, watched,
    Action, Control, End, EventView, Fault, JobView, Ledger, Phase, Turn, Verdict,
};
use crate::supervisor::{Poll, Supervision, Supervisor};
use crate::types::{Language, LaunchOption, LaunchResult, Sandbox};
use crate::verdict::{
    compilation_error, compile_failed, metrics, result_wf, run_result, Metrics, Usage,
};
use crate::wait_status::Termination;

verus! {

/// What came of an action.
#[derive(Debug)]
pub enum Event {
    /// The action was carried out.
    Completed,
    /// The host could not carry out the action.
    Failed,
    /// The answer to `Poll`, with the child's resource usage.
    Polled { poll: Poll, usage: Usage },
    /// An answer to `Read`: the bytes read, none at the end of the stream.
    Chunk(Vec<u8>),
    /// An answer to `Read`: the pipe holds nothing now and has not ended.
    Quiet,
}

impl View for Event {
    type V = EventView;

    open spec fn view(&self) -> EventView {
        match self {
            Event::Completed => EventView::Completed,
            Event::Failed => EventView::Failed,
            Event::Polled { poll, usage } => EventView::Polled { poll: *poll, usage: *usage },
            Event::Chunk(bytes) => EventView::Chunk(bytes@),
            Event::Quiet => EventView::Quiet,
        }
    }
}

/// What is given back next.
fn release_next(ledger: Ledger, kill_due: bool) -> (a: Action)
    ensures
        a == release_action(ledger, kill_due),
{
    if ledger.child {
        if kill_due {
            Action::Kill
        } else {
            Action::Poll
        }
    } else if ledger.mounted > 0 {
        Action::Unmount(ledger.mounted - 1)
    } else if ledger.stdout_write {
        Action::Close(Pipe::Stdout, End::Write)
    } else if ledger.stderr_write {
        Action::Close(Pipe::Stderr, End::Write)
    } else if ledger.stdout_read {
        Action::Close(Pipe::Stdout, End::Read)
    } else if ledger.stderr_read {
        Action::Close(Pipe::Stderr, End::Read)
    } else if ledger.workspace {
        Action::RemoveWorkspace
    } else {
        Action::Finish
    }
}

/// The turn that follows a turn.
fn following(turn: Turn) -> (t: Turn)
    ensures
        t == turn_after(turn),
{
    match turn {
        Turn::Poll => Turn::Stdout,
        Turn::Stdout => Turn::Stderr,
        Turn::Stderr => Turn::Poll,
    }
}

/// Whether a turn has anything to do.
fn applies(c: &Control, turn: Turn) -> (r: bool)
    ensures
        r == turn_applies(*c, turn),
{
    match turn {
        Turn::Poll => c.ledger.child,
        Turn::Stdout => c.stdout_open,
        Turn::Stderr => c.stderr_open,
    }
}

/// The action of the turn that is taken next.
fn watch_action(c: &Control) -> (a: Action)
    ensures
        a == turn_action(next_turn(*c)),
{
    let turn = if applies(c, c.turn) {
        c.turn
    } else if applies(c, following(c.turn)) {
        following(c.turn)
    } else {
        following(following(c.turn))
    };
    match turn {
        Turn::Poll => Action::Poll,
        Turn::Stdout => Action::Read(Pipe::Stdout),
        Turn::Stderr => Action::Read(Pipe::Stderr),
    }
}

/// The action that a job in this state asks for.
fn next_action(c: &Control) -> (a: Action)
    requires
        consistent(*c),
    ensures
        a == action_of(*c),
{
    match c.phase {
        Phase::CreatingWorkspace => Action::CreateWorkspace,
        Phase::WritingSource => Action::WriteSource,
        Phase::OpeningCompilePipe => Action::OpenPipe(Pipe::Stderr),
        Phase::SpawningCompile => Action::SpawnCompile,
        Phase::ClosingCompileWriteEnd => Action::Close(Pipe::Stderr, End::Write),
        Phase::Compiling | Phase::Running => if c.kill_due {
            Action::Kill
        } else {
            watch_action(c)
        },
        Phase::ClosingCompileReadEnd => Action::Close(Pipe::Stderr, End::Read),
        Phase::WritingStdin => Action::WriteStdin,
        Phase::OpeningStdoutPipe => Action::OpenPipe(Pipe::Stdout),
        Phase::OpeningStderrPipe => Action::OpenPipe(Pipe::Stderr),
        Phase::Mounting => Action::Mount(c.ledger.mounted),
        Phase::SpawningRun => Action::SpawnRun,
        Phase::ClosingStdoutWriteEnd => Action::Close(Pipe::Stdout, End::Write),
        Phase::ClosingStderrWriteEnd => Action::Close(Pipe::Stderr, End::Write),
        Phase::Unmounting => Action::Unmount(c.ledger.mounted - 1),
        Phase::Releasing => release_next(c.ledger, c.kill_due),
        Phase::Done => Action::Finish,
    }
}

/// Whether nothing is held.
fn is_clear(ledger: Ledger) -> (r: bool)
    ensures
        r == ledger.is_clear(),
{
    !ledger.workspace && ledger.mounted == 0 && !ledger.stdout_read && !ledger.stdout_write
        && !ledger.stderr_read && !ledger.stderr_write && !ledger.child
}

/// The ledger with one end of a pipe marked as held or not.
fn with_end(ledger: Ledger, pipe: Pipe, end: End, held: bool) -> (l: Ledger)
    ensures
        l == ledger.with_end(pipe, end, held),
{
    match (pipe, end) {
        (Pipe::Stdout, End::Read) => Ledger { stdout_read: held, ..ledger },
        (Pipe::Stdout, End::Write) => Ledger { stdout_write: held, ..ledger },
        (Pipe::Stderr, End::Read) => Ledger { stderr_read: held, ..ledger },
        (Pipe::Stderr, End::Write) => Ledger { stderr_write: held, ..ledger },
    }
}

/// The ledger with both ends of a pipe marked as held.
fn with_pipe(ledger: Ledger, pipe: Pipe) -> (l: Ledger)
    ensures
        l == ledger.with_pipe(pipe),
{
    with_end(with_end(ledger, pipe, End::Read, true), pipe, End::Write, true)
}

/// Ends a job that holds nothing; lets one that holds something give it back.
fn settle(c: Control) -> (r: Control)
    ensures
        r == settled(c),
{
    if is_clear(c.ledger) {
        Control { phase: Phase::Done, kill_due: false, ..c }
    } else {
        Control { phase: Phase::Releasing, ..c }
    }
}

/// Sets the verdict and goes on to give back what is held.
fn conclude(c: Control, verdict: Verdict) -> (r: Control)
    ensures
        r == concluded(c, verdict),
{
    settle(Control { verdict, kill_due: c.ledger.child, ..c })
}

/// Records a fault in the job's work.
fn fail(c: Control, cause: Fault) -> (r: Control)
    ensures
        r == faulted(c, cause),
{
    conclude(c, Verdict::Faulted(cause))
}

/// The fault that an event stands for which does not fit the action.
fn fault_for(action: Action, event: &Event) -> (f: Fault)
    ensures
        f == fault_of(action, event@),
{
    match event {
        Event::Failed => Fault::Host(action),
        _ => Fault::Protocol(action),
    }
}

/// Ends the job at once after giving something back has failed.
fn release_fail(c: Control, cause: Fault) -> (r: Control)
    ensures
        r == release_failure(c, cause),
{
    let verdict = match c.verdict {
        Verdict::Faulted(_) => c.verdict,
        _ => Verdict::Faulted(cause),
    };
    Control { phase: Phase::Done, kill_due: false, release_failed: true, verdict, ..c }
}

/// One event while the job gives back what it holds.
fn release_advance(c: Control, event: &Event) -> (r: Control)
    ensures
        r == release_step(c, event@),
{
    let action = release_next(c.ledger, c.kill_due);
    match (action, event) {
        (Action::Kill, Event::Completed) => Control { kill_due: false, ..c },
        (Action::Poll, Event::Polled { poll, usage }) => if poll.wait == 0 {
            c
        } else {
            settle(Control { ledger: Ledger { child: false, ..c.ledger }, ..c })
        },
        (Action::Unmount(index), Event::Completed) => settle(
            Control { ledger: Ledger { mounted: index, ..c.ledger }, ..c },
        ),
        (Action::Close(pipe, end), Event::Completed) => settle(
            Control { ledger: with_end(c.ledger, pipe, end, false), ..c },
        ),
        (Action::RemoveWorkspace, Event::Completed) => settle(
            Control { ledger: Ledger { workspace: false, ..c.ledger }, ..c },
        ),
        _ => release_fail(c, fault_for(action, event)),
    }
}

/// Goes on with the watch, or leaves it once the child is gone and its
/// streams have ended.
fn watch(c: Control) -> (r: Control)
    ensures
        r == watched(c),
{
    if c.ledger.child || c.stdout_open || c.stderr_open {
        c
    } else if c.phase == Phase::Compiling {
        if c.compile_failed {
            conclude(c, Verdict::CompileFailed)
        } else {
            Control { phase: Phase::ClosingCompileReadEnd, ..c }
        }
    } else if c.ledger.mounted == 0 {
        conclude(c, Verdict::Ran)
    } else {
        Control { phase: Phase::Unmounting, ..c }
    }
}

/// One answer to a poll of the child.
fn supervise_advance(c: Control, poll: Poll, usage: Usage) -> (r: Control)
    ensures
        r == supervise_step(c, poll, usage),
{
    let mut supervisor = c.supervisor;
    let supervision = supervisor.observe(poll);
    let polled = Control { supervisor, turn: following(Turn::Poll), ..c };
    let reaped = Control { ledger: Ledger { child: false, ..c.ledger }, ..polled };
    match supervision {
        Supervision::StillRunning => polled,
        Supervision::Overdue => Control { kill_due: true, ..polled },
        Supervision::WaitFailed => fail(reaped, Fault::Wait),
        Supervision::Reaped(t) => if c.phase == Phase::Compiling {
            watch(Control { compile_failed: compile_failed(t), ..reaped })
        } else {
            match metrics(usage) {
                None => fail(reaped, Fault::Accounting),
                Some(m) => watch(Control { termination: t, metrics: m, ..reaped }),
            }
        },
    }
}

/// A child was started.
fn spawn(c: Control, phase: Phase, stdout_open: bool) -> (r: Control)
    ensures
        r == spawned(c, phase, stdout_open),
{
    Control {
        phase,
        ledger: Ledger { child: true, ..c.ledger },
        supervisor: Supervisor { timed_out: false, ..c.supervisor },
        kill_due: false,
        turn: Turn::Poll,
        stdout_open,
        stderr_open: true,
        ..c
    }
}

/// An action of the job's work was carried out.
fn completed_advance(c: Control) -> (r: Control)
    requires
        consistent(c),
    ensures
        r == completed_step(c),
{
    match c.phase {
        Phase::CreatingWorkspace => Control {
            phase: Phase::WritingSource,
            ledger: Ledger { workspace: true, ..c.ledger },
            ..c
        },
        Phase::WritingSource => Control {
            phase: if c.has_compile {
                Phase::OpeningCompilePipe
            } else {
                Phase::WritingStdin
            },
            ..c
        },
        Phase::OpeningCompilePipe => Control {
            phase: Phase::SpawningCompile,
            ledger: with_pipe(c.ledger, Pipe::Stderr),
            ..c
        },
        Phase::SpawningCompile => spawn(c, Phase::ClosingCompileWriteEnd, false),
        Phase::ClosingCompileWriteEnd => Control {
            phase: Phase::Compiling,
            ledger: with_end(c.ledger, Pipe::Stderr, End::Write, false),
            ..c
        },
        Phase::Compiling | Phase::Running => Control { kill_due: false, ..c },
        Phase::ClosingCompileReadEnd => Control {
            phase: Phase::WritingStdin,
            ledger: with_end(c.ledger, Pipe::Stderr, End::Read, false),
            ..c
        },
        Phase::WritingStdin => Control { phase: Phase::OpeningStdoutPipe, ..c },
        Phase::OpeningStdoutPipe => Control {
            phase: Phase::OpeningStderrPipe,
            ledger: with_pipe(c.ledger, Pipe::Stdout),
            ..c
        },
        Phase::OpeningStderrPipe => Control {
            phase: if c.n_mounts == 0 {
                Phase::SpawningRun
            } else {
                Phase::Mounting
            },
            ledger: with_pipe(c.ledger, Pipe::Stderr),
            ..c
        },
        Phase::Mounting => Control {
            phase: if c.ledger.mounted + 1 == c.n_mounts {
                Phase::SpawningRun
            } else {
                Phase::Mounting
            },
            ledger: Ledger { mounted: c.ledger.mounted + 1, ..c.ledger },
            ..c
        },
        Phase::SpawningRun => spawn(c, Phase::ClosingStdoutWriteEnd, true),
        Phase::ClosingStdoutWriteEnd => Control {
            phase: Phase::ClosingStderrWriteEnd,
            ledger: with_end(c.ledger, Pipe::Stdout, End::Write, false),
            ..c
        },
        Phase::ClosingStderrWriteEnd => Control {
            phase: Phase::Running,
            ledger: with_end(c.ledger, Pipe::Stderr, End::Write, false),
            ..c
        },
        Phase::Unmounting => {
            let undone = Control {
                ledger: Ledger { mounted: c.ledger.mounted - 1, ..c.ledger },
                ..c
            };
            if c.ledger.mounted == 1 {
                conclude(undone, Verdict::Ran)
            } else {
                undone
            }
        },
        _ => c,
    }
}

/// Whether an event answers the action asked for.
fn is_answer(action: Action, event: &Event) -> (r: bool)
    ensures
        r == answers(action, event@),
{
    match action {
        Action::Finish => false,
        Action::Read(_) => match event {
            Event::Chunk(_) => true,
            Event::Quiet => true,
            _ => false,
        },
        Action::Poll => match event {
            Event::Polled { .. } => true,
            _ => false,
        },
        _ => match event {
            Event::Completed => true,
            _ => false,
        },
    }
}

/// The state after one more event, but for the answers to a read.
fn control_advance(c: Control, event: &Event) -> (r: Control)
    requires
        consistent(c),
    ensures
        r == control_step(c, event@),
{
    let action = next_action(&c);
    if c.phase == Phase::Done {
        c
    } else if c.phase == Phase::Releasing {
        release_advance(c, event)
    } else if !is_answer(action, event) {
        fail(c, fault_for(action, event))
    } else {
        match event {
            Event::Polled { poll, usage } => supervise_advance(c, *poll, *usage),
            Event::Completed => completed_advance(c),
            _ => c,
        }
    }
}

/// The state after a read of a pipe was answered; `ended` says that no
/// more is read from the pipe.
fn read_advance(c: Control, pipe: Pipe, ended: bool) -> (r: Control)
    ensures
        r == read_step(c, pipe, ended),
{
    let turn = match pipe {
        Pipe::Stdout => Turn::Stdout,
        Pipe::Stderr => Turn::Stderr,
    };
    let turned = Control { turn: following(turn), ..c };
    if !ended {
        turned
    } else {
        match pipe {
            Pipe::Stdout => watch(Control { stdout_open: false, ..turned }),
            Pipe::Stderr => watch(Control { stderr_open: false, ..turned }),
        }
    }
}

/// One job: a submission on its way through compile and run.
#[derive(Debug)]
pub struct Job {
    control: Control,
    compile_errors: Capture,
    stdout: Capture,
    stderr: Capture,
}

impl View for Job {
    type V = JobView;

    closed spec fn view(&self) -> JobView {
        JobView {
            control: self.control,
            compile_errors: self.compile_errors.bytes(),
            stdout: self.stdout.bytes(),
            stderr: self.stderr.bytes(),
        }
    }
}

impl Job {
    /// The job is in one of its states, and each stream is captured under
    /// its own cap and read to its end.
    pub closed spec fn wf(&self) -> bool {
        &&& consistent(self.control)
        &&& self.compile_errors.wf()
        &&& self.compile_errors.cap() == STDERR_CAP
        &&& !self.compile_errors.stops_at_cap()
        &&& self.stdout.wf()
        &&& self.stdout.cap() == STDOUT_CAP
        &&& !self.stdout.stops_at_cap()
        &&& self.stderr.wf()
        &&& self.stderr.cap() == STDERR_CAP
        &&& !self.stderr.stops_at_cap()
    }

    /// A well-formed job is in one of the states of the protocol.
    pub proof fn lemma_wf_inv(&self)
        requires
            self.wf(),
        ensures
            job_inv(self@),
    {
    }

    /// A job for a submission in this language, under this sandbox and
    /// these limits. It compiles exactly when the language has a compile
    /// command.
    pub fn new(language: &Language, sandbox: &Sandbox, option: &LaunchOption) -> (job: Job)
        ensures
            job.wf(),
            job@ == start_of(language.compile is Some, sandbox.mounts@.len() as usize, option.timeout),
    {
        let control = Control {
            has_compile: language.compile.is_some(),
            n_mounts: sandbox.mounts.len(),
            phase: Phase::CreatingWorkspace,
            ledger: Ledger {
                workspace: false,
                mounted: 0,
                stdout_read: false,
                stdout_write: false,
                stderr_read: false,
                stderr_write: false,
                child: false,
            },
            supervisor: Supervisor::new(option.timeout),
            kill_due: false,
            turn: Turn::Poll,
            stdout_open: false,
            stderr_open: false,
            compile_failed: false,
            termination: Termination::Exited(0),
            metrics: Metrics { memory_kib: 0, user_time_ms: 0 },
            verdict: Verdict::Open,
            release_failed: false,
        };
        Job {
            control,
            compile_errors: Capture::new(STDERR_CAP, false),
            stdout: Capture::stdout(),
            stderr: Capture::new(STDERR_CAP, false),
        }
    }

    /// What the host is to do next.
    pub fn action(&self) -> (a: Action)
        requires
            self.wf(),
        ensures
            a == action_of(self@.control),
    {
        next_action(&self.control)
    }

    /// Whether the job is done, so that its outcome can be taken.
    pub fn is_done(&self) -> (r: bool)
        ensures
            r == (self@.control.phase == Phase::Done),
    {
        self.control.phase == Phase::Done
    }

    /// Whether the supervisor has called for the kill signal on the child
    /// that runs, or ran last.
    pub fn timed_out(&self) -> (r: bool)
        ensures
            r == self@.control.supervisor.timed_out,
    {
        self.control.supervisor.timed_out
    }

    /// Takes what came of the action that was asked for.
    pub fn advance(&mut self, event: &Event)
        requires
            old(self).wf(),
        ensures
            final(self).wf(),
            final(self)@ == step(old(self)@, event@),
    {
        let action = next_action(&self.control);
        match (action, event) {
            (Action::Read(Pipe::Stdout), Event::Chunk(bytes)) => {
                let read = self.stdout.absorb(bytes.as_slice());
                self.control = read_advance(self.control, Pipe::Stdout, read == ReadAction::Stop);
            },
            (Action::Read(Pipe::Stderr), Event::Chunk(bytes)) => {
                let read = if self.control.phase == Phase::Compiling {
                    self.compile_errors.absorb(bytes.as_slice())
                } else {
                    self.stderr.absorb(bytes.as_slice())
                };
                self.control = read_advance(self.control, Pipe::Stderr, read == ReadAction::Stop);
            },
            (Action::Read(pipe), Event::Quiet) => {
                self.control = read_advance(self.control, pipe, !self.control.ledger.child);
            },
            _ => {
                self.control = control_advance(self.control, event);
            },
        }
        proof {
            reveal(next_control);
            lemma_step_inv(old(self)@, event@);
        }
    }

    /// Gives up the job for its outcome: `None` while the job is not done,
    /// else the result or the fault. A result keeps to the caps of both
    /// streams.
    pub fn into_outcome(self) -> (outcome: Option<Result<LaunchResult, Fault>>)
        requires
            self.wf(),
        ensures
            match outcome {
                None => outcome_of(self@) is None,
                Some(Ok(result)) => outcome_of(self@) == Some(
                    Ok::<crate::verdict::LaunchResultView, Fault>(result@),
                ),
                Some(Err(fault)) => outcome_of(self@) == Some(
                    Err::<crate::verdict::LaunchResultView, Fault>(fault),
                ),
            },
            outcome matches Some(Ok(result)) ==> result_wf(result@),
    {
        proof {
            if outcome_of(self@) matches Some(Ok(_)) {
                lemma_result_leaves_nothing(self@);
            }
        }
        if self.control.phase != Phase::Done {
            return None;
        }
        match self.control.verdict {
            Verdict::Open => None,
            Verdict::CompileFailed => Some(Ok(compilation_error(self.compile_errors))),
            Verdict::Ran => Some(
                Ok(
                    run_result(
                        self.control.termination,
                        self.control.supervisor.timed_out,
                        self.stdout,
                        self.stderr,
                        self.control.metrics,
                    ),
                ),
            ),
            Verdict::Faulted(cause) => Some(Err(cause)),
        }
    }
}

} // verus!
