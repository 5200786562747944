//! Reading the raw status word that the kernel hands back for a reaped child.

use vstd::prelude::*;

verus! {

/// The low seven bits of a status word: the number of the signal that ended
/// the child, or zero when it exited by itself.
pub open spec fn termination_signal(status: i32) -> i32 {
    status & 0x7f
}

/// Whether a status word reports a normal exit.
pub open spec fn exited_normally(status: i32) -> bool {
    termination_signal(status) == 0
}

/// Bits 8 to 15 of a status word: the exit code of a child that exited.
pub open spec fn exit_code(status: i32) -> i32 {
    (status >> 8) & 0xff
}

/// The number of the unconditional kill signal.
pub open spec fn kill_signal() -> i32 {
    9
}

/// `libc::WIFEXITED`: true exactly when the low seven bits of the status
/// word are all zero.
#[verifier::external_body]
fn wifexited(status: i32) -> (r: bool)
    ensures
        r == exited_normally(status),
{
    libc::WIFEXITED(status)
}

/// `libc::WEXITSTATUS`: the status word shifted right by eight bits and
/// masked to one byte.
#[verifier::external_body]
fn wexitstatus(status: i32) -> (r: i32)
    ensures
        r == exit_code(status),
{
    libc::WEXITSTATUS(status)
}

/// `libc::WTERMSIG`: the low seven bits of the status word.
#[verifier::external_body]
fn wtermsig(status: i32) -> (r: i32)
    ensures
        r == termination_signal(status),
{
    libc::WTERMSIG(status)
}

/// `libc::SIGKILL`: the constant 9 on Linux.
#[verifier::external_body]
fn sigkill() -> (r: i32)
    ensures
        r == kill_signal(),
{
    libc::SIGKILL
}

/// How a reaped child ended.
#[derive(Clone, Copy, Debug, PartialEq, Eq, Structural)]
pub enum Termination {
    /// The child exited by itself with this code.
    Exited(i32),
    /// The kill signal ended the child.
    Killed,
    /// Another signal ended the child.
    Signaled(i32),
}

/// What a status word means.
pub open spec fn termination_of(status: i32) -> Termination {
    if exited_normally(status) {
        Termination::Exited(exit_code(status))
    } else if termination_signal(status) == kill_signal() {
        Termination::Killed
    } else {
        Termination::Signaled(termination_signal(status))
    }
}

/// Decodes a raw status word.
pub fn decode(status: i32) -> (t: Termination)
    ensures
        t == termination_of(status),
{
    if wifexited(status) {
        Termination::Exited(wexitstatus(status))
    } else {
        let sig: i32 = wtermsig(status);
        if sig == sigkill() {
            Termination::Killed
        } else {
            Termination::Signaled(sig)
        }
    }
}

/// An exit code lies in one byte, and a signal number in seven bits.
pub proof fn lemma_termination_ranges(status: i32)
    ensures
        0 <= exit_code(status) <= 255,
        0 <= termination_signal(status) <= 127,
{
    assert(0 <= ((status >> 8) & 0xff) <= 255) by (bit_vector);
    assert(0 <= (status & 0x7f) <= 127) by (bit_vector);
}

} // verus!
