//! Turning how a child ended, and what it used, into the reported verdict.

use vstd::prelude::*;
use crate::collector::{Capture, STDERR_CAP, STDOUT_CAP};
use crate::types::{LaunchResult, LaunchStatus};
use crate::wait_status::Termination;

verus! {

/// The size of a page, in KiB, by which page faults are turned into memory.
pub const PAGE_SIZE_KIB: i64 = 4;

/// The figures of the kernel's resource accounting that the verdict reads.
#[derive(Clone, Copy, Debug, PartialEq, Eq, Structural)]
pub struct Usage {
    /// Major page faults.
    pub majflt: i64,
    /// Whole seconds of user CPU time.
    pub utime_sec: i64,
    /// The microseconds beyond the whole seconds.
    pub utime_usec: i64,
}

/// The metrics reported with a verdict.
#[derive(Clone, Copy, Debug, PartialEq, Eq, Structural)]
pub struct Metrics {
    pub memory_kib: i64,
    pub user_time_ms: i64,
}

/// Division by 1000 that rounds towards zero.
pub open spec fn whole_thousands(n: int) -> int {
    if n >= 0 {
        n / 1000
    } else {
        -((-n) / 1000)
    }
}

/// Memory attributed to a child: its major page faults times the page size.
pub open spec fn memory_kib_of(u: Usage) -> int {
    u.majflt * PAGE_SIZE_KIB
}

/// User CPU time in milliseconds: seconds times 1000 plus the whole
/// milliseconds among the microseconds.
pub open spec fn user_time_ms_of(u: Usage) -> int {
    u.utime_sec * 1000 + whole_thousands(u.utime_usec as int)
}

/// Whether both metrics can be held in 64 signed bits.
pub open spec fn metrics_fit(u: Usage) -> bool {
    &&& i64::MIN <= memory_kib_of(u) <= i64::MAX
    &&& i64::MIN <= u.utime_sec * 1000 <= i64::MAX
    &&& i64::MIN <= user_time_ms_of(u) <= i64::MAX
}

/// The metrics of a usage record whose metrics fit.
pub open spec fn metrics_of(u: Usage) -> Option<Metrics> {
    if metrics_fit(u) {
        Some(
            Metrics {
                memory_kib: memory_kib_of(u) as i64,
                user_time_ms: user_time_ms_of(u) as i64,
            },
        )
    } else {
        None
    }
}

/// A usage record with every figure at zero, as it stands before a child
/// was reaped.
pub fn empty_rusage() -> (u: Usage)
    ensures
        u == (Usage { majflt: 0, utime_sec: 0, utime_usec: 0 }),
        metrics_of(u) == Some(Metrics { memory_kib: 0, user_time_ms: 0 }),
{
    Usage { majflt: 0, utime_sec: 0, utime_usec: 0 }
}

/// Derives the reported metrics; `None` where one of them, or the seconds
/// in milliseconds, leaves the range of `i64`.
pub fn metrics(u: Usage) -> (m: Option<Metrics>)
    ensures
        m == metrics_of(u),
{
    let memory: i64 = match u.majflt.checked_mul(PAGE_SIZE_KIB) {
        Some(v) => v,
        None => { return None; },
    };
    let millis: i64 = match u.utime_sec.checked_mul(1000) {
        Some(v) => v,
        None => { return None; },
    };
    let rest: i64 = u.utime_usec / 1000;
    match millis.checked_add(rest) {
        Some(total) => Some(Metrics { memory_kib: memory, user_time_ms: total }),
        None => None,
    }
}

/// Whether a compile command that ended this way failed: it did unless it
/// exited with code zero.
pub open spec fn compile_failed_of(t: Termination) -> bool {
    t != Termination::Exited(0)
}

/// Whether the compile phase failed.
pub fn compile_failed(t: Termination) -> (r: bool)
    ensures
        r == compile_failed_of(t),
{
    match t {
        Termination::Exited(code) => code != 0,
        _ => true,
    }
}

/// The verdict of the run phase. Output that reached the cap overrides all
/// else; a normal exit reports its code; death by the kill signal counts as
/// a timeout only where the supervisor had sent it; any other death by
/// signal is a runtime error.
pub open spec fn run_status_of(t: Termination, timed_out: bool, output_limit: bool)
    -> LaunchStatus {
    if output_limit {
        LaunchStatus::OutputLimitExceeded
    } else {
        match t {
            Termination::Exited(code) => LaunchStatus::Exit(code),
            Termination::Killed => if timed_out {
                LaunchStatus::TimeLimitExceeded
            } else {
                LaunchStatus::RuntimeError
            },
            Termination::Signaled(_) => LaunchStatus::RuntimeError,
        }
    }
}

/// Classifies the end of the run phase.
pub fn run_status(t: Termination, timed_out: bool, output_limit: bool) -> (s: LaunchStatus)
    ensures
        s == run_status_of(t, timed_out, output_limit),
{
    if output_limit {
        LaunchStatus::OutputLimitExceeded
    } else {
        match t {
            Termination::Exited(code) => LaunchStatus::Exit(code),
            Termination::Killed => if timed_out {
                LaunchStatus::TimeLimitExceeded
            } else {
                LaunchStatus::RuntimeError
            },
            Termination::Signaled(_) => LaunchStatus::RuntimeError,
        }
    }
}

/// A launch result with its byte streams as sequences.
pub struct LaunchResultView {
    pub status: LaunchStatus,
    pub stdout: Seq<u8>,
    pub stderr: Seq<u8>,
    pub memory_kib: i64,
    pub user_time_ms: i64,
}

impl View for LaunchResult {
    type V = LaunchResultView;

    open spec fn view(&self) -> LaunchResultView {
        LaunchResultView {
            status: self.status,
            stdout: self.stdout@,
            stderr: self.stderr@,
            memory_kib: self.memory_kib,
            user_time_ms: self.user_time_ms,
        }
    }
}

/// What is reported when the compile command failed: the compiler's
/// captured standard error, no standard output, and metrics at zero.
pub open spec fn compilation_error_of(stderr: Seq<u8>) -> LaunchResultView {
    LaunchResultView {
        status: LaunchStatus::CompilationError,
        stdout: Seq::empty(),
        stderr: stderr,
        memory_kib: 0,
        user_time_ms: 0,
    }
}

/// What is reported after the run phase.
pub open spec fn run_result_of(
    t: Termination,
    timed_out: bool,
    output_limit: bool,
    stdout: Seq<u8>,
    stderr: Seq<u8>,
    m: Metrics,
) -> LaunchResultView {
    LaunchResultView {
        status: run_status_of(t, timed_out, output_limit),
        stdout: stdout,
        stderr: stderr,
        memory_kib: m.memory_kib,
        user_time_ms: m.user_time_ms,
    }
}

/// Whether a result keeps to the caps of both streams, reports an exceeded
/// output limit only with standard output filled to its cap, and reports a
/// compilation error only with empty standard output and metrics at zero.
pub open spec fn result_wf(r: LaunchResultView) -> bool {
    &&& r.stdout.len() <= STDOUT_CAP
    &&& r.stderr.len() <= STDERR_CAP
    &&& r.status == LaunchStatus::OutputLimitExceeded ==> r.stdout.len() == STDOUT_CAP
    &&& r.status == LaunchStatus::CompilationError ==> r.stdout.len() == 0 && r.memory_kib == 0
        && r.user_time_ms == 0
}

/// Builds the result of a failed compile phase from what was captured of
/// the compiler's standard error.
pub fn compilation_error(stderr: Capture) -> (r: LaunchResult)
    ensures
        r@ == compilation_error_of(stderr.bytes()),
{
    LaunchResult {
        status: LaunchStatus::CompilationError,
        stdout: Vec::new(),
        stderr: stderr.into_bytes(),
        memory_kib: 0,
        user_time_ms: 0,
    }
}

/// Builds the result of the run phase. The output limit counts as exceeded
/// exactly when the captured standard output reached its cap.
pub fn run_result(
    t: Termination,
    timed_out: bool,
    stdout: Capture,
    stderr: Capture,
    m: Metrics,
) -> (r: LaunchResult)
    requires
        stdout.wf(),
    ensures
        r@ == run_result_of(
            t,
            timed_out,
            stdout.reached_cap(),
            stdout.bytes(),
            stderr.bytes(),
            m,
        ),
{
    let status = run_status(t, timed_out, stdout.limit_reached());
    LaunchResult {
        status,
        stdout: stdout.into_bytes(),
        stderr: stderr.into_bytes(),
        memory_kib: m.memory_kib,
        user_time_ms: m.user_time_ms,
    }
}

/// A program that exits by itself with output below the cap is reported
/// with its exit code, whatever the supervisor did.
pub proof fn lemma_exit_is_reported(code: i32, timed_out: bool)
    ensures
        run_status_of(Termination::Exited(code), timed_out, false) == LaunchStatus::Exit(code),
{
}

/// A program that the kill signal ended after the supervisor had called
/// for it, with output below the cap, is reported as a timeout.
pub proof fn lemma_timeout_is_reported()
    ensures
        run_status_of(Termination::Killed, true, false) == LaunchStatus::TimeLimitExceeded,
{
}

/// A timeout is reported only of a child that the kill signal ended after
/// the supervisor had sent it, and an exceeded output limit exactly when
/// the output reached its cap. The run phase never reports a compilation
/// error.
pub proof fn lemma_run_status_sound(t: Termination, timed_out: bool, output_limit: bool)
    ensures
        run_status_of(t, timed_out, output_limit) == LaunchStatus::TimeLimitExceeded ==> timed_out
            && t == Termination::Killed && !output_limit,
        run_status_of(t, timed_out, output_limit) == LaunchStatus::OutputLimitExceeded
            <==> output_limit,
        run_status_of(t, timed_out, output_limit) != LaunchStatus::CompilationError,
        run_status_of(t, timed_out, output_limit) matches LaunchStatus::Exit(code) ==> t
            == Termination::Exited(code),
{
}

/// Results built from streams that were captured under the two caps are
/// well-formed.
pub proof fn lemma_results_wf(
    t: Termination,
    timed_out: bool,
    stdout: Seq<u8>,
    stderr: Seq<u8>,
    m: Metrics,
)
    requires
        stdout.len() <= STDOUT_CAP,
        stderr.len() <= STDERR_CAP,
    ensures
        result_wf(compilation_error_of(stderr)),
        result_wf(run_result_of(t, timed_out, stdout.len() == STDOUT_CAP, stdout, stderr, m)),
{
}

} // verus!
