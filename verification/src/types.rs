//! The values that a launch takes and gives back.

use vstd::prelude::*;

verus! {

/// How one language is compiled and run.
#[derive(Debug)]
pub struct Language {
    /// The identifier under which jobs ask for the language.
    pub name: String,
    /// Where the submitted code is written, relative to the workspace.
    pub source: String,
    /// The shell command that compiles the code; `None` for a language
    /// that needs no compilation.
    pub compile: Option<String>,
    /// The absolute path, inside the sandbox, of the program to run.
    pub execute: String,
    /// The arguments handed to the program after its own name.
    pub args: Vec<String>,
}

/// One host directory shown read-only inside the sandbox.
#[derive(Debug)]
pub struct Mount {
    /// The host directory.
    pub source: String,
    /// Where it appears inside the sandbox.
    pub destination: String,
}

/// The confinement common to all jobs.
#[derive(Debug)]
pub struct Sandbox {
    /// The size of the stack given to the run-phase child.
    pub stack_size_bytes: usize,
    /// The bind mounts, in the order in which they are applied.
    pub mounts: Vec<Mount>,
}

/// The limits of one launch.
#[derive(Debug)]
pub struct LaunchOption {
    /// The wall-clock time a child may take, in milliseconds.
    pub timeout: u64,
    /// The ceiling of the run-phase child's address space, in bytes.
    pub max_virtual_memory: u64,
}

/// The verdict of a launch.
#[derive(Clone, Copy, Debug, PartialEq, Eq, Structural)]
pub enum LaunchStatus {
    /// The program exited by itself with this code.
    Exit(i32),
    /// The compile command failed.
    CompilationError,
    /// A signal other than the supervisor's ended the program.
    RuntimeError,
    /// The program wrote more than the captured output may hold.
    OutputLimitExceeded,
    /// The supervisor ended the program after its deadline.
    TimeLimitExceeded,
}

/// What a launch reports.
#[derive(Debug)]
pub struct LaunchResult {
    pub status: LaunchStatus,
    /// The captured standard output, at most `STDOUT_CAP` bytes.
    pub stdout: Vec<u8>,
    /// The captured standard error, at most `STDERR_CAP` bytes.
    pub stderr: Vec<u8>,
    /// Memory attributed to the program, in KiB.
    pub memory_kib: i64,
    /// User CPU time consumed by the program, in milliseconds.
    pub user_time_ms: i64,
}

} // verus!
