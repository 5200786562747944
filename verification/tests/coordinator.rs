use evalsa_worker::child::Pipe;
use evalsa_worker::collector::{READ_CHUNK, STDERR_CAP, STDOUT_CAP};
use evalsa_worker::coordinator::{Event, Job};
use evalsa_worker::protocol::{Action, End, Fault};
use evalsa_worker::supervisor::Poll;
use evalsa_worker::types::{Language, LaunchOption, LaunchResult, LaunchStatus, Mount, Sandbox};
use evalsa_worker::verdict::Usage;

/// What an ordinary pipe holds before its writer is held up.
const PIPE_ROOM: usize = 65536;

/// The time that each action of the host takes, in nanoseconds.
const TICK: u128 = 10_000;

/// A stream that a child writes: `data` over and over, `repeat` times.
#[derive(Clone)]
struct Output {
    data: Vec<u8>,
    repeat: usize,
}

impl Output {
    fn of(bytes: &[u8]) -> Output {
        Output { data: bytes.to_vec(), repeat: 1 }
    }

    fn len(&self) -> usize {
        self.data.len() * self.repeat
    }

    fn slice(&self, from: usize, len: usize) -> Vec<u8> {
        let mut bytes = Vec::with_capacity(len);
        let mut at = from % self.data.len().max(1);
        while bytes.len() < len {
            let take = (len - bytes.len()).min(self.data.len() - at);
            bytes.extend_from_slice(&self.data[at..at + take]);
            at = 0;
        }
        bytes
    }
}

/// What a child does: write both streams, then exit with `status`, or
/// never end by itself.
#[derive(Clone)]
struct Program {
    stdout: Output,
    stderr: Output,
    status: i32,
    endless: bool,
    usage: Usage,
}

fn program(stdout: &[u8], stderr: &[u8], status: i32) -> Program {
    Program {
        stdout: Output::of(stdout),
        stderr: Output::of(stderr),
        status,
        endless: false,
        usage: Usage { majflt: 0, utime_sec: 0, utime_usec: 0 },
    }
}

/// One end of a pipe between a child and the host.
#[derive(Default)]
struct Channel {
    written: usize,
    read: usize,
    parent_read: bool,
    parent_write: bool,
}

struct Child {
    program: Program,
    alive: bool,
    killed: bool,
    reaped: bool,
    elapsed: u128,
}

/// A host with ordinary pipes, for a job to run on. It fails the actions
/// listed in `failing`, each as often as it is listed.
struct Host {
    compile: Option<Program>,
    run: Program,
    failing: Vec<Action>,
    workspace: bool,
    mounts: Vec<usize>,
    stdout: Channel,
    stderr: Channel,
    child: Option<Child>,
    log: Vec<Action>,
}

impl Host {
    fn new(compile: Option<Program>, run: Program) -> Host {
        Host {
            compile,
            run,
            failing: vec![],
            workspace: false,
            mounts: vec![],
            stdout: Channel::default(),
            stderr: Channel::default(),
            child: None,
            log: vec![],
        }
    }

    fn channel(&mut self, pipe: Pipe) -> &mut Channel {
        match pipe {
            Pipe::Stdout => &mut self.stdout,
            Pipe::Stderr => &mut self.stderr,
        }
    }

    /// Lets the child write as far as its pipes have room, and end.
    fn let_child_work(&mut self) {
        let Some(child) = self.child.as_mut() else {
            return;
        };
        child.elapsed += TICK;
        if !child.alive {
            return;
        }
        if child.killed {
            child.alive = false;
            child.program.status = 9;
            return;
        }
        let out = &mut self.stdout;
        let more = (child.program.stdout.len() - out.written).min(PIPE_ROOM - (out.written - out.read));
        out.written += more;
        let err = &mut self.stderr;
        let more = (child.program.stderr.len() - err.written).min(PIPE_ROOM - (err.written - err.read));
        err.written += more;
        if !child.program.endless
            && out.written == child.program.stdout.len()
            && err.written == child.program.stderr.len()
        {
            child.alive = false;
        }
    }

    fn spawn(&mut self, program: Program) -> Event {
        assert!(self.child.as_ref().map_or(true, |c| c.reaped), "a child is still there");
        self.stdout.written = 0;
        self.stdout.read = 0;
        self.stderr.written = 0;
        self.stderr.read = 0;
        self.child = Some(Child { program, alive: true, killed: false, reaped: false, elapsed: 0 });
        Event::Completed
    }

    fn read(&mut self, pipe: Pipe) -> Event {
        self.let_child_work();
        let writer_gone = !self.child.as_ref().expect("read without a child").alive;
        let channel = self.channel(pipe);
        assert!(channel.parent_read, "read from a closed pipe");
        let waiting = channel.written - channel.read;
        if waiting > 0 {
            let len = waiting.min(READ_CHUNK);
            let from = channel.read;
            channel.read += len;
            let program = &self.child.as_ref().expect("read without a child").program;
            let output = match pipe {
                Pipe::Stdout => &program.stdout,
                Pipe::Stderr => &program.stderr,
            };
            Event::Chunk(output.slice(from, len))
        } else if writer_gone && !channel.parent_write {
            Event::Chunk(vec![])
        } else {
            Event::Quiet
        }
    }

    fn perform(&mut self, action: Action) -> Event {
        self.log.push(action);
        if let Some(at) = self.failing.iter().position(|a| *a == action) {
            self.failing.remove(at);
            return Event::Failed;
        }
        match action {
            Action::CreateWorkspace => self.workspace = true,
            Action::RemoveWorkspace => {
                assert!(self.mounts.is_empty(), "workspace removed under a mount");
                self.workspace = false;
            }
            Action::WriteSource | Action::WriteStdin => assert!(self.workspace),
            Action::OpenPipe(pipe) => {
                let channel = self.channel(pipe);
                assert!(!channel.parent_read && !channel.parent_write);
                channel.parent_read = true;
                channel.parent_write = true;
            }
            Action::Close(pipe, end) => {
                let channel = self.channel(pipe);
                match end {
                    End::Read => {
                        assert!(channel.parent_read);
                        channel.parent_read = false;
                    }
                    End::Write => {
                        assert!(channel.parent_write);
                        channel.parent_write = false;
                    }
                }
            }
            Action::Mount(index) => {
                assert_eq!(index, self.mounts.len());
                assert!(self.child.as_ref().map_or(true, |c| c.reaped));
                self.mounts.push(index);
            }
            Action::Unmount(index) => {
                assert!(self.child.as_ref().map_or(true, |c| c.reaped), "unmount under a child");
                assert_eq!(self.mounts.pop(), Some(index));
            }
            Action::SpawnCompile => {
                let program = self.compile.clone().expect("no compile command");
                return self.spawn(program);
            }
            Action::SpawnRun => {
                let program = self.run.clone();
                return self.spawn(program);
            }
            Action::Kill => {
                let child = self.child.as_mut().expect("kill without a child");
                assert!(!child.reaped, "kill after the reap");
                child.killed = true;
            }
            Action::Poll => {
                self.let_child_work();
                let child = self.child.as_mut().expect("poll without a child");
                assert!(!child.reaped, "poll after the reap");
                let (wait, status, usage) = if child.alive {
                    (0, 0, Usage { majflt: 0, utime_sec: 0, utime_usec: 0 })
                } else {
                    child.reaped = true;
                    (4321, child.program.status, child.program.usage)
                };
                return Event::Polled {
                    poll: Poll { wait, status, elapsed_nanos: child.elapsed },
                    usage,
                };
            }
            Action::Read(pipe) => return self.read(pipe),
            Action::Finish => panic!("the job asked for the finish"),
        }
        Event::Completed
    }

    /// Whether nothing of the job is left on the host.
    fn clean(&self) -> bool {
        !self.workspace
            && self.mounts.is_empty()
            && !self.stdout.parent_read
            && !self.stdout.parent_write
            && !self.stderr.parent_read
            && !self.stderr.parent_write
            && self.child.as_ref().map_or(true, |c| c.reaped)
    }
}

fn language(compile: bool) -> Language {
    Language {
        name: "c".to_string(),
        source: "main.c".to_string(),
        compile: if compile { Some("cc main.c".to_string()) } else { None },
        execute: "/main".to_string(),
        args: vec![],
    }
}

fn sandbox(mounts: usize) -> Sandbox {
    let mut list = Vec::new();
    for i in 0..mounts {
        list.push(Mount { source: format!("/host{}", i), destination: format!("/in{}", i) });
    }
    Sandbox { stack_size_bytes: 1 << 20, mounts: list }
}

/// Runs a job on the host to its end.
fn launch(host: &mut Host, mounts: usize, timeout: u64) -> Result<LaunchResult, Fault> {
    let option = LaunchOption { timeout, max_virtual_memory: 1 << 30 };
    let mut job = Job::new(&language(host.compile.is_some()), &sandbox(mounts), &option);
    let mut steps = 0u64;
    while !job.is_done() {
        let event = host.perform(job.action());
        job.advance(&event);
        steps += 1;
        assert!(steps < 10_000_000, "the job does not end");
    }
    assert_eq!(job.action(), Action::Finish);
    job.into_outcome().expect("a job that is done has an outcome")
}

fn result(host: &mut Host, mounts: usize, timeout: u64) -> LaunchResult {
    let outcome = launch(host, mounts, timeout);
    assert!(host.clean(), "the job left something on the host");
    outcome.expect("a result")
}

#[test]
fn interpreted_echo() {
    let mut host = Host::new(None, program(b"hello\n", b"", 0));
    let r = result(&mut host, 1, 1000);
    assert_eq!(r.status, LaunchStatus::Exit(0));
    assert_eq!(r.stdout, b"hello\n".to_vec());
    assert_eq!(r.stderr, Vec::<u8>::new());
}

#[test]
fn actions_come_in_their_order() {
    let mut host = Host::new(None, program(b"hi", b"", 0));
    result(&mut host, 2, 1000);
    assert_eq!(
        host.log,
        vec![
            Action::CreateWorkspace,
            Action::WriteSource,
            Action::WriteStdin,
            Action::OpenPipe(Pipe::Stdout),
            Action::OpenPipe(Pipe::Stderr),
            Action::Mount(0),
            Action::Mount(1),
            Action::SpawnRun,
            Action::Close(Pipe::Stdout, End::Write),
            Action::Close(Pipe::Stderr, End::Write),
            Action::Poll,
            Action::Read(Pipe::Stdout),
            Action::Read(Pipe::Stderr),
            Action::Read(Pipe::Stdout),
            Action::Unmount(1),
            Action::Unmount(0),
            Action::Close(Pipe::Stdout, End::Read),
            Action::Close(Pipe::Stderr, End::Read),
            Action::RemoveWorkspace,
        ]
    );
}

#[test]
fn metrics_come_from_the_usage_of_the_reaped_program() {
    let mut run = program(b"", b"", 0);
    run.usage = Usage { majflt: 3, utime_sec: 1, utime_usec: 2500 };
    let mut host = Host::new(None, run);
    let r = result(&mut host, 0, 1000);
    assert_eq!(r.memory_kib, 12);
    assert_eq!(r.user_time_ms, 1002);
}

#[test]
fn output_beyond_what_a_pipe_holds_is_read_while_the_program_runs() {
    let mut run = program(b"", b"", 0);
    run.stdout = Output { data: (0..=255u8).collect(), repeat: 400 };
    let mut host = Host::new(None, run.clone());
    let r = result(&mut host, 1, 1000);
    assert_eq!(r.status, LaunchStatus::Exit(0));
    assert_eq!(r.stdout.len(), 102_400);
    assert_eq!(r.stdout, run.stdout.slice(0, 102_400));
}

#[test]
fn exit_code_is_reported_with_long_output_on_both_streams() {
    let mut run = program(b"", b"", 7 << 8);
    run.stdout = Output { data: vec![b'o'; 1000], repeat: 300 };
    run.stderr = Output { data: vec![b'e'; 1000], repeat: 2 };
    let mut host = Host::new(None, run);
    let r = result(&mut host, 0, 1000);
    assert_eq!(r.status, LaunchStatus::Exit(7));
    assert_eq!(r.stdout, vec![b'o'; 300_000]);
    assert_eq!(r.stderr, vec![b'e'; 2000]);
}

#[test]
fn output_flood_exceeds_the_limit() {
    let mut run = program(b"", b"", 0);
    run.stdout = Output { data: vec![b'A'; 1 << 20], repeat: 300 };
    let mut host = Host::new(None, run);
    let r = result(&mut host, 1, 10_000);
    assert_eq!(r.status, LaunchStatus::OutputLimitExceeded);
    assert_eq!(r.stdout.len(), STDOUT_CAP);
    assert!(r.stdout.iter().all(|b| *b == b'A'));
}

#[test]
fn output_of_exactly_the_cap_exceeds_the_limit() {
    let mut run = program(b"", b"", 0);
    run.stdout = Output { data: vec![b'A'; 1 << 20], repeat: 256 };
    let mut host = Host::new(None, run);
    let r = result(&mut host, 0, 10_000);
    assert_eq!(r.status, LaunchStatus::OutputLimitExceeded);
    assert_eq!(r.stdout.len(), STDOUT_CAP);
}

#[test]
fn output_of_one_byte_less_than_the_cap_is_kept_whole() {
    let mut run = program(b"", b"", 3 << 8);
    run.stdout = Output { data: vec![b'A'; (1 << 28) - 1], repeat: 1 };
    let mut host = Host::new(None, run);
    let r = result(&mut host, 0, 10_000);
    assert_eq!(r.status, LaunchStatus::Exit(3));
    assert_eq!(r.stdout.len(), STDOUT_CAP - 1);
}

#[test]
fn infinite_loop_is_killed_after_its_deadline() {
    let mut run = program(b"", b"", 0);
    run.endless = true;
    let mut host = Host::new(None, run);
    let r = result(&mut host, 1, 200);
    assert_eq!(r.status, LaunchStatus::TimeLimitExceeded);
    let kills = host.log.iter().filter(|a| **a == Action::Kill).count();
    assert_eq!(kills, 1);
    let child = host.child.as_ref().unwrap();
    assert!(child.elapsed > 200_000_000);
    assert!(child.elapsed < 1_000_000_000);
}

#[test]
fn endless_writer_is_killed_and_exceeds_the_limit_only_with_enough_output() {
    let mut run = program(b"", b"", 0);
    run.stdout = Output { data: vec![b'x'; 100], repeat: 50 };
    run.endless = true;
    let mut host = Host::new(None, run);
    let r = result(&mut host, 0, 50);
    assert_eq!(r.status, LaunchStatus::TimeLimitExceeded);
    assert_eq!(r.stdout, vec![b'x'; 5000]);
}

#[test]
fn segmentation_fault_is_a_runtime_error() {
    let mut host = Host::new(None, program(b"", b"", 11 | 0x80));
    assert_eq!(result(&mut host, 0, 1000).status, LaunchStatus::RuntimeError);
}

#[test]
fn kill_signal_without_a_timeout_is_a_runtime_error() {
    let mut host = Host::new(None, program(b"", b"", 9));
    assert_eq!(result(&mut host, 0, 1000).status, LaunchStatus::RuntimeError);
}

#[test]
fn refused_connection_is_a_non_zero_exit() {
    let mut host =
        Host::new(None, program(b"", b"connect: Network is unreachable\n", 1 << 8));
    let r = result(&mut host, 0, 1000);
    assert_eq!(r.status, LaunchStatus::Exit(1));
    assert_eq!(r.stderr, b"connect: Network is unreachable\n".to_vec());
}

#[test]
fn run_stderr_is_cut_at_its_cap() {
    let mut run = program(b"out", b"", 0);
    run.stderr = Output { data: (0..=255u8).collect(), repeat: 20 };
    let mut host = Host::new(None, run.clone());
    let r = result(&mut host, 0, 1000);
    assert_eq!(r.status, LaunchStatus::Exit(0));
    assert_eq!(r.stdout, b"out".to_vec());
    assert_eq!(r.stderr.len(), STDERR_CAP);
    assert_eq!(r.stderr, run.stderr.slice(0, STDERR_CAP));
}

#[test]
fn long_standard_error_does_not_hold_up_the_program() {
    let mut run = program(b"done", b"", 4 << 8);
    run.stderr = Output { data: (0..=255u8).collect(), repeat: 400 };
    let mut host = Host::new(None, run.clone());
    let r = result(&mut host, 0, 1000);
    assert_eq!(r.status, LaunchStatus::Exit(4));
    assert_eq!(r.stdout, b"done".to_vec());
    assert_eq!(r.stderr, run.stderr.slice(0, STDERR_CAP));
}

#[test]
fn long_compiler_warnings_do_not_fail_the_compile() {
    let mut compile = program(b"", b"", 0);
    compile.stderr = Output { data: vec![b'w'; 1024], repeat: 100 };
    let mut host = Host::new(Some(compile), program(b"ran", b"", 0));
    let r = result(&mut host, 1, 1000);
    assert_eq!(r.status, LaunchStatus::Exit(0));
    assert_eq!(r.stdout, b"ran".to_vec());
    assert_eq!(r.stderr, Vec::<u8>::new());
}

#[test]
fn compile_failure_skips_the_run_phase() {
    let mut host = Host::new(Some(program(b"", b"", 1 << 8)), program(b"never", b"", 0));
    let r = result(&mut host, 2, 1000);
    assert_eq!(r.status, LaunchStatus::CompilationError);
    assert_eq!(r.stdout, Vec::<u8>::new());
    assert_eq!(r.stderr, Vec::<u8>::new());
    assert_eq!(r.memory_kib, 0);
    assert_eq!(r.user_time_ms, 0);
    assert_eq!(
        host.log,
        vec![
            Action::CreateWorkspace,
            Action::WriteSource,
            Action::OpenPipe(Pipe::Stderr),
            Action::SpawnCompile,
            Action::Close(Pipe::Stderr, End::Write),
            Action::Poll,
            Action::Read(Pipe::Stderr),
            Action::Close(Pipe::Stderr, End::Read),
            Action::RemoveWorkspace,
        ]
    );
}

#[test]
fn compile_failure_reports_the_compiler_output() {
    let mut compile = program(b"ignored", b"main.c: error", 1 << 8);
    compile.usage = Usage { majflt: 9, utime_sec: 9, utime_usec: 9 };
    let mut host = Host::new(Some(compile), program(b"", b"", 0));
    let r = result(&mut host, 0, 1000);
    assert_eq!(r.status, LaunchStatus::CompilationError);
    assert_eq!(r.stdout, Vec::<u8>::new());
    assert_eq!(r.stderr, b"main.c: error".to_vec());
    assert_eq!(r.memory_kib, 0);
    assert_eq!(r.user_time_ms, 0);
}

#[test]
fn compile_output_is_cut_at_the_cap() {
    let mut compile = program(b"", b"", 2 << 8);
    compile.stderr = Output { data: vec![b'e'; 500], repeat: 10 };
    let mut host = Host::new(Some(compile), program(b"", b"", 0));
    let r = result(&mut host, 0, 1000);
    assert_eq!(r.status, LaunchStatus::CompilationError);
    assert_eq!(r.stderr, vec![b'e'; 2048]);
}

#[test]
fn compile_killed_by_a_signal_fails() {
    let mut host = Host::new(Some(program(b"", b"oops", 11)), program(b"", b"", 0));
    let r = result(&mut host, 0, 1000);
    assert_eq!(r.status, LaunchStatus::CompilationError);
    assert_eq!(r.stderr, b"oops".to_vec());
}

#[test]
fn compile_that_runs_too_long_is_killed_and_fails() {
    let mut compile = program(b"", b"", 0);
    compile.endless = true;
    let mut host = Host::new(Some(compile), program(b"", b"", 0));
    let r = result(&mut host, 0, 50);
    assert_eq!(r.status, LaunchStatus::CompilationError);
    assert!(!host.log.contains(&Action::SpawnRun));
}

#[test]
fn compiled_program_runs_and_the_compiler_output_is_dropped() {
    let compile = program(b"", b"warning: unused variable\n", 0);
    let mut host = Host::new(Some(compile), program(b"xy", b"warn", 17 << 8));
    let r = result(&mut host, 2, 1000);
    assert_eq!(r.status, LaunchStatus::Exit(17));
    assert_eq!(r.stdout, b"xy".to_vec());
    assert_eq!(r.stderr, b"warn".to_vec());
    let spawn_run = host.log.iter().position(|a| *a == Action::SpawnRun).unwrap();
    let first_mount = host.log.iter().position(|a| *a == Action::Mount(0)).unwrap();
    let compile_closed =
        host.log.iter().position(|a| *a == Action::Close(Pipe::Stderr, End::Read)).unwrap();
    assert!(compile_closed < first_mount);
    assert!(first_mount < spawn_run);
}

#[test]
fn job_that_is_not_done_has_no_outcome() {
    let option = LaunchOption { timeout: 1000, max_virtual_memory: 1 << 30 };
    let mut job = Job::new(&language(false), &sandbox(0), &option);
    assert_eq!(job.action(), Action::CreateWorkspace);
    job.advance(&Event::Completed);
    assert!(!job.is_done());
    assert!(job.into_outcome().is_none());
}

#[test]
fn workspace_that_cannot_be_made_is_a_fault_with_nothing_to_release() {
    let mut host = Host::new(None, program(b"", b"", 0));
    host.failing = vec![Action::CreateWorkspace];
    assert_eq!(launch(&mut host, 3, 1000).unwrap_err(), Fault::Host(Action::CreateWorkspace));
    assert_eq!(host.log, vec![Action::CreateWorkspace]);
    assert!(host.clean());
}

#[test]
fn failed_mount_undoes_the_earlier_mounts_and_releases_all() {
    let mut host = Host::new(None, program(b"", b"", 0));
    host.failing = vec![Action::Mount(2)];
    assert_eq!(launch(&mut host, 3, 1000).unwrap_err(), Fault::Host(Action::Mount(2)));
    assert!(host.clean());
    assert!(!host.log.contains(&Action::SpawnRun));
    let tail = &host.log[host.log.len() - 7..];
    assert_eq!(
        tail,
        &[
            Action::Unmount(1),
            Action::Unmount(0),
            Action::Close(Pipe::Stdout, End::Write),
            Action::Close(Pipe::Stderr, End::Write),
            Action::Close(Pipe::Stdout, End::Read),
            Action::Close(Pipe::Stderr, End::Read),
            Action::RemoveWorkspace,
        ]
    );
}

#[test]
fn failed_unmount_ends_the_job_at_once() {
    let mut host = Host::new(None, program(b"", b"", 0));
    host.failing = vec![Action::Unmount(1), Action::Unmount(1)];
    assert_eq!(launch(&mut host, 2, 1000).unwrap_err(), Fault::Host(Action::Unmount(1)));
    assert!(!host.clean());
    assert!(host.workspace);
    assert_eq!(host.log.last(), Some(&Action::Unmount(1)));
    assert!(!host.log.contains(&Action::RemoveWorkspace));
}

#[test]
fn unmount_that_works_at_the_second_try_lets_the_release_go_on() {
    let mut host = Host::new(None, program(b"", b"", 0));
    host.failing = vec![Action::Unmount(1)];
    assert_eq!(launch(&mut host, 2, 1000).unwrap_err(), Fault::Host(Action::Unmount(1)));
    assert!(host.clean());
}

#[test]
fn failed_spawn_releases_pipes_and_workspace() {
    let mut host = Host::new(Some(program(b"", b"", 0)), program(b"", b"", 0));
    host.failing = vec![Action::SpawnCompile];
    assert_eq!(launch(&mut host, 0, 1000).unwrap_err(), Fault::Host(Action::SpawnCompile));
    assert!(host.clean());
}

#[test]
fn fault_while_the_program_runs_kills_and_reaps_it() {
    let mut run = program(b"", b"", 0);
    run.endless = true;
    let mut host = Host::new(None, run);
    host.failing = vec![Action::Read(Pipe::Stdout)];
    assert_eq!(
        launch(&mut host, 1, 1000).unwrap_err(),
        Fault::Host(Action::Read(Pipe::Stdout))
    );
    assert!(host.clean());
    assert!(host.log.contains(&Action::Kill));
}

#[test]
fn failed_close_after_the_spawn_kills_and_reaps_the_program() {
    let mut run = program(b"", b"", 0);
    run.endless = true;
    let mut host = Host::new(None, run);
    host.failing = vec![Action::Close(Pipe::Stdout, End::Write)];
    assert_eq!(
        launch(&mut host, 1, 1000).unwrap_err(),
        Fault::Host(Action::Close(Pipe::Stdout, End::Write))
    );
    assert!(host.clean());
}

#[test]
fn failed_kill_is_tried_again_and_the_child_reaped() {
    let mut run = program(b"", b"", 0);
    run.endless = true;
    let mut host = Host::new(None, run);
    host.failing = vec![Action::Kill];
    assert_eq!(launch(&mut host, 1, 10).unwrap_err(), Fault::Host(Action::Kill));
    assert!(host.clean());
}

#[test]
fn failed_wait_unmounts_and_reports_the_fault() {
    let option = LaunchOption { timeout: 1000, max_virtual_memory: 1 << 30 };
    let mut job = Job::new(&language(false), &sandbox(1), &option);
    for _ in 0..9 {
        assert_ne!(job.action(), Action::Poll);
        job.advance(&Event::Completed);
    }
    assert_eq!(job.action(), Action::Poll);
    let failed = Event::Polled {
        poll: Poll { wait: -1, status: 0, elapsed_nanos: 5 },
        usage: Usage { majflt: 0, utime_sec: 0, utime_usec: 0 },
    };
    job.advance(&failed);
    for expected in [
        Action::Unmount(0),
        Action::Close(Pipe::Stdout, End::Read),
        Action::Close(Pipe::Stderr, End::Read),
        Action::RemoveWorkspace,
    ] {
        assert_eq!(job.action(), expected);
        job.advance(&Event::Completed);
    }
    assert!(job.is_done());
    assert_eq!(job.into_outcome().unwrap().unwrap_err(), Fault::Wait);
}

#[test]
fn usage_beyond_the_metrics_is_a_fault() {
    let mut run = program(b"", b"", 0);
    run.usage = Usage { majflt: i64::MAX, utime_sec: 0, utime_usec: 0 };
    let mut host = Host::new(None, run);
    assert_eq!(launch(&mut host, 1, 1000).unwrap_err(), Fault::Accounting);
    assert!(host.clean());
}

#[test]
fn event_that_is_no_answer_is_a_fault() {
    let option = LaunchOption { timeout: 1000, max_virtual_memory: 1 << 30 };
    let mut job = Job::new(&language(false), &sandbox(0), &option);
    job.advance(&Event::Completed);
    assert_eq!(job.action(), Action::WriteSource);
    job.advance(&Event::Chunk(b"abc".to_vec()));
    assert_eq!(job.action(), Action::RemoveWorkspace);
    job.advance(&Event::Completed);
    assert_eq!(job.into_outcome().unwrap().unwrap_err(), Fault::Protocol(Action::WriteSource));
}

#[test]
fn quiet_pipe_is_read_again_while_the_child_lives_and_has_ended_after() {
    let option = LaunchOption { timeout: 1000, max_virtual_memory: 1 << 30 };
    let mut job = Job::new(&language(false), &sandbox(0), &option);
    for _ in 0..8 {
        job.advance(&Event::Completed);
    }
    let running = Event::Polled {
        poll: Poll { wait: 0, status: 0, elapsed_nanos: 1 },
        usage: Usage { majflt: 0, utime_sec: 0, utime_usec: 0 },
    };
    let reaped = Event::Polled {
        poll: Poll { wait: 77, status: 5 << 8, elapsed_nanos: 2 },
        usage: Usage { majflt: 0, utime_sec: 0, utime_usec: 0 },
    };
    assert_eq!(job.action(), Action::Poll);
    job.advance(&running);
    assert_eq!(job.action(), Action::Read(Pipe::Stdout));
    job.advance(&Event::Quiet);
    assert_eq!(job.action(), Action::Read(Pipe::Stderr));
    job.advance(&Event::Chunk(b"e".to_vec()));
    assert_eq!(job.action(), Action::Poll);
    job.advance(&reaped);
    assert_eq!(job.action(), Action::Read(Pipe::Stdout));
    job.advance(&Event::Chunk(b"late".to_vec()));
    assert_eq!(job.action(), Action::Read(Pipe::Stderr));
    job.advance(&Event::Quiet);
    assert_eq!(job.action(), Action::Read(Pipe::Stdout));
    job.advance(&Event::Quiet);
    assert_eq!(job.action(), Action::Close(Pipe::Stdout, End::Read));
    job.advance(&Event::Completed);
    job.advance(&Event::Completed);
    job.advance(&Event::Completed);
    let r = job.into_outcome().unwrap().unwrap();
    assert_eq!(r.status, LaunchStatus::Exit(5));
    assert_eq!(r.stdout, b"late".to_vec());
    assert_eq!(r.stderr, b"e".to_vec());
}

#[test]
fn job_that_is_done_ignores_further_events() {
    let option = LaunchOption { timeout: 1000, max_virtual_memory: 1 << 30 };
    let mut job = Job::new(&language(false), &sandbox(0), &option);
    job.advance(&Event::Failed);
    assert!(job.is_done());
    job.advance(&Event::Completed);
    job.advance(&Event::Chunk(b"late".to_vec()));
    job.advance(&Event::Quiet);
    assert_eq!(job.into_outcome().unwrap().unwrap_err(), Fault::Host(Action::CreateWorkspace));
}

#[test]
fn same_program_gives_the_same_result_whatever_the_usage_and_the_pace() {
    let mut first = program(b"out", b"err", 6 << 8);
    first.stdout = Output { data: b"0123456789".to_vec(), repeat: 20_000 };
    let mut second = first.clone();
    second.usage = Usage { majflt: 77, utime_sec: 1, utime_usec: 5 };
    let mut host = Host::new(None, first);
    let a = result(&mut host, 1, 1000);
    let mut host = Host::new(None, second);
    let b = result(&mut host, 0, 5000);
    assert_eq!(a.status, LaunchStatus::Exit(6));
    assert_eq!(a.status, b.status);
    assert_eq!(a.stdout, b.stdout);
    assert_eq!(a.stderr, b.stderr);
    assert_eq!(a.memory_kib, 0);
    assert_eq!(b.memory_kib, 308);
    assert_eq!(b.user_time_ms, 1000);
}
