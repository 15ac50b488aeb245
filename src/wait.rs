//! Decoding what the host's wait reports into the stops a session handles.
//! The status word follows the Linux layout: the low seven bits hold the
//! terminating signal (0 for a normal exit, 0x7f for a stop), the next byte
//! the exit code or the stop signal.

use vstd::prelude::*;

use crate::session::Stop;

verus! {

/// The trap signal, as Linux numbers it.
pub const SIGTRAP: i32 = 5;

/// The stop signal, as Linux numbers it on x86 and ARM.
pub const SIGSTOP: i32 = 19;

/// The host's code for a wait interrupted by a signal.
pub const EINTR: i32 = 4;

/// The stop signal of a system call stop, once tracing marks such stops.
pub const SYSCALL_TRAP: i32 = 0x85;

/// The exit code or stop signal of a status word.
pub open spec fn status_byte(status: i32) -> i32 {
    (status >> 8u32) & 0xff
}

/// Whether a status word reports a stop.
pub open spec fn status_is_stop(status: i32) -> bool {
    status & 0xff == 0x7f
}

/// The stop a status word reports; `number` and `value` are the system call
/// registers, read only for a system call stop.
pub open spec fn stop_of_status(status: i32, number: u64, value: i64) -> Stop {
    if status & 0x7f == 0 {
        Stop::Exited(status_byte(status))
    } else if status & 0x7f != 0x7f {
        Stop::Terminated(status & 0x7f)
    } else if !status_is_stop(status) {
        Stop::Interrupted
    } else if status_byte(status) == SYSCALL_TRAP {
        Stop::Syscall { number, value }
    } else if status_byte(status) == SIGSTOP {
        Stop::Halt(SIGSTOP)
    } else if status_byte(status) == SIGTRAP {
        Stop::Trap(SIGTRAP)
    } else {
        Stop::Signal(status_byte(status))
    }
}

/// Whether a status word reports a system call stop, whose registers the
/// caller then reads.
pub fn is_syscall_stop(status: i32) -> (r: bool)
    ensures
        r == (stop_of_status(status, 0, 0) is Syscall),
{
    status & 0x7f == 0x7f && status & 0xff == 0x7f && (status >> 8u32) & 0xff == SYSCALL_TRAP
}

/// Decodes a status word that the host's wait returned.
pub fn decode_stop(status: i32, number: u64, value: i64) -> (r: Stop)
    ensures
        r == stop_of_status(status, number, value),
{
    let low = status & 0x7f;
    let byte = (status >> 8u32) & 0xff;
    if low == 0 {
        Stop::Exited(byte)
    } else if low != 0x7f {
        Stop::Terminated(low)
    } else if status & 0xff != 0x7f {
        Stop::Interrupted
    } else if byte == SYSCALL_TRAP {
        Stop::Syscall { number, value }
    } else if byte == SIGSTOP {
        Stop::Halt(SIGSTOP)
    } else if byte == SIGTRAP {
        Stop::Trap(SIGTRAP)
    } else {
        Stop::Signal(byte)
    }
}

/// Decodes a failed wait by the host's error code: an interrupted wait is
/// retried; any other failure means the session is lost.
pub fn decode_wait_failure(code: i32) -> (r: Stop)
    ensures
        r == (if code == EINTR { Stop::Interrupted } else { Stop::Lost }),
{
    if code == EINTR {
        Stop::Interrupted
    } else {
        Stop::Lost
    }
}

} // verus!
