//! Decoding what a wait for a child came back with: the call's return value
//! and the status word that the operating system filled in.

use crate::error::Error;
use vstd::prelude::*;
use vstd::std_specs::convert::FromSpecImpl;

verus! {

/// The status word of a child that terminated normally: its low seven bits
/// are zero.
pub open spec fn wifexited(status: i32) -> bool {
    (status & 0x7f) == 0
}

/// The exit code held in bits 8 to 15 of a status word.
pub open spec fn wexitstatus(status: i32) -> i32 {
    (status >> 8) & 0xff
}

/// The status word of a child that a signal terminated: its low seven bits
/// are neither zero nor all set.
pub open spec fn wifsignaled(status: i32) -> bool {
    0 < (status & 0x7f) < 0x7f
}

/// The terminating signal held in the low seven bits of a status word.
pub open spec fn wtermsig(status: i32) -> i32 {
    status & 0x7f
}

/// The status word of a stopped child: its low byte is `0x7f`.
pub open spec fn wifstopped(status: i32) -> bool {
    (status & 0xff) == 0x7f
}

/// The stopping signal held in bits 8 to 15 of a status word.
pub open spec fn wstopsig(status: i32) -> i32 {
    (status >> 8) & 0xff
}

/// The status word of a child that was resumed: exactly `0xffff`.
pub open spec fn wifcontinued(status: i32) -> bool {
    status == 0xffff
}

/// `libc::WIFEXITED`, as libc defines it for Linux targets: true exactly when
/// the low seven bits of `status` are zero. Not proved here.
pub assume_specification[ libc::WIFEXITED ](status: libc::c_int) -> (r: bool)
    ensures
        r == wifexited(status),
;

/// `libc::WEXITSTATUS`, as libc defines it for Linux targets: `status`
/// shifted right by eight bits and masked with `0xff`. Not proved here.
pub assume_specification[ libc::WEXITSTATUS ](status: libc::c_int) -> (r: libc::c_int)
    ensures
        r == wexitstatus(status),
;

/// `libc::WIFSIGNALED`, as libc defines it for Linux targets. libc adds one to
/// the low seven bits, narrows the sum to a signed byte and asks for at least
/// two; that holds exactly when those bits are between 1 and 126. Not proved
/// here.
pub assume_specification[ libc::WIFSIGNALED ](status: libc::c_int) -> (r: bool)
    ensures
        r == wifsignaled(status),
;

/// `libc::WTERMSIG`, as libc defines it for Linux targets: the low seven bits
/// of `status`. Not proved here.
pub assume_specification[ libc::WTERMSIG ](status: libc::c_int) -> (r: libc::c_int)
    ensures
        r == wtermsig(status),
;

/// `libc::WIFSTOPPED`, as libc defines it for Linux targets: true exactly when
/// the low byte of `status` is `0x7f`. Not proved here.
pub assume_specification[ libc::WIFSTOPPED ](status: libc::c_int) -> (r: bool)
    ensures
        r == wifstopped(status),
;

/// `libc::WSTOPSIG`, as libc defines it for Linux targets: `status` shifted
/// right by eight bits and masked with `0xff`. Not proved here.
pub assume_specification[ libc::WSTOPSIG ](status: libc::c_int) -> (r: libc::c_int)
    ensures
        r == wstopsig(status),
;

/// `libc::WIFCONTINUED`, as libc defines it for Linux targets: true exactly
/// when `status` is `0xffff`. Not proved here.
pub assume_specification[ libc::WIFCONTINUED ](status: libc::c_int) -> (r: bool)
    ensures
        r == wifcontinued(status),
;

/// How a child's state changed, as the parent observes it.
#[derive(Clone, Copy, Debug, PartialEq, Eq, Structural)]
pub enum WaitStatus {
    /// The child terminated normally, with this exit code.
    Exited(i32),
    /// This signal terminated the child.
    TermSignal(i32),
    /// This signal stopped the child.
    Stopped(i32),
    /// The child was resumed.
    Continued,
    /// A state change of no other class.
    Unknown,
}

impl WaitStatus {
    /// The meaning of a status word. The classes are tried in this order:
    /// normal exit, termination by signal, stop, continuation.
    pub open spec fn of_status(status: i32) -> WaitStatus {
        if wifexited(status) {
            WaitStatus::Exited(wexitstatus(status))
        } else if wifsignaled(status) {
            WaitStatus::TermSignal(wtermsig(status))
        } else if wifstopped(status) {
            WaitStatus::Stopped(wstopsig(status))
        } else if wifcontinued(status) {
            WaitStatus::Continued
        } else {
            WaitStatus::Unknown
        }
    }

    /// Decodes the status word that a wait filled in.
    pub fn decode(stat_code: libc::c_int) -> (status: WaitStatus)
        ensures
            status == WaitStatus::of_status(stat_code),
    {
        if libc::WIFEXITED(stat_code) {
            WaitStatus::Exited(libc::WEXITSTATUS(stat_code))
        } else if libc::WIFSIGNALED(stat_code) {
            WaitStatus::TermSignal(libc::WTERMSIG(stat_code))
        } else if libc::WIFSTOPPED(stat_code) {
            WaitStatus::Stopped(libc::WSTOPSIG(stat_code))
        } else if libc::WIFCONTINUED(stat_code) {
            WaitStatus::Continued
        } else {
            WaitStatus::Unknown
        }
    }
}

/// A child that changed state, and how.
#[derive(Clone, Copy, Debug, PartialEq, Eq, Structural)]
pub struct WaitReturn {
    /// The process identifier of the child.
    pub pid: libc::pid_t,
    /// The decoded state change.
    pub status: WaitStatus,
}

impl WaitReturn {
    /// What a wait reports: a negative return value is a failure of the call,
    /// carried with its `errno`; any other names the child whose status word
    /// is decoded.
    pub open spec fn of_raw(ret: i32, stat_code: i32, errno: i32) -> Result<WaitReturn, Error> {
        if ret < 0 {
            Err(Error::Os(errno))
        } else {
            Ok(WaitReturn { pid: ret, status: WaitStatus::of_status(stat_code) })
        }
    }

    /// Interprets the raw outcome of one blocking wait for any child: the
    /// call's return value, the status word it filled in, and the `errno` it
    /// left behind. `errno` is read only when the call failed.
    pub fn from_raw(ret: libc::pid_t, stat_code: libc::c_int, errno: libc::c_int) -> (r: Result<
        WaitReturn,
        Error,
    >)
        ensures
            r == WaitReturn::of_raw(ret, stat_code, errno),
    {
        if ret < 0 {
            Err(Error::Os(errno))
        } else {
            Ok(WaitReturn { pid: ret, status: WaitStatus::decode(stat_code) })
        }
    }
}

impl From<WaitReturn> for WaitStatus {
    fn from(value: WaitReturn) -> (status: WaitStatus) {
        value.status
    }
}

impl FromSpecImpl<WaitReturn> for WaitStatus {
    open spec fn obeys_from_spec() -> bool {
        true
    }

    open spec fn from_spec(value: WaitReturn) -> WaitStatus {
        value.status
    }
}

/// A child that exits with a code between 0 and 255 is observed as `Exited`
/// with that code.
pub proof fn lemma_exit_code_observed(code: i32)
    requires
        0 <= code <= 255,
    ensures
        WaitStatus::of_status(code << 8) == WaitStatus::Exited(code),
{
    assert(((code << 8) & 0x7f) == 0 && ((code << 8) >> 8) & 0xff == code) by (bit_vector)
        requires
            0 <= code <= 255,
    ;
}

/// A child that a signal terminates is observed as `TermSignal` with that
/// signal's number, whether or not it left a core dump.
pub proof fn lemma_signal_observed(signal: i32, core_dumped: bool)
    requires
        1 <= signal <= 126,
    ensures
        WaitStatus::of_status(
            if core_dumped {
                signal | 0x80
            } else {
                signal
            },
        ) == WaitStatus::TermSignal(signal),
{
    assert((signal & 0x7f) == signal && ((signal | 0x80) & 0x7f) == signal) by (bit_vector)
        requires
            1 <= signal <= 126,
    ;
}

/// A child that a signal stops is observed as `Stopped` with that signal's
/// number.
pub proof fn lemma_stop_observed(signal: i32)
    requires
        0 <= signal <= 255,
    ensures
        WaitStatus::of_status((signal << 8) | 0x7f) == WaitStatus::Stopped(signal),
{
    let status = (signal << 8) | 0x7f;
    assert((status & 0x7f) == 0x7f && (status & 0xff) == 0x7f && (status >> 8) & 0xff == signal)
        by (bit_vector)
        requires
            0 <= signal <= 255,
            status == (signal << 8) | 0x7f,
    ;
}

/// The status word `0xffff` is observed as `Continued`.
pub proof fn lemma_continue_observed()
    ensures
        WaitStatus::of_status(0xffff) == WaitStatus::Continued,
{
    assert((0xffffi32 & 0x7f) == 0x7f && (0xffffi32 & 0xff) == 0xff) by (bit_vector);
}

/// The classes of a status word exclude each other, and the numbers that a
/// decoded status carries are in range: an exit code and a stopping signal
/// fit in a byte, a terminating signal is between 1 and 126.
pub proof fn lemma_status_classes(status: i32)
    ensures
        wifexited(status) ==> !wifsignaled(status) && !wifstopped(status) && !wifcontinued(status),
        wifsignaled(status) ==> !wifstopped(status) && !wifcontinued(status),
        wifstopped(status) ==> !wifcontinued(status),
        WaitStatus::of_status(status) matches WaitStatus::Exited(code) ==> 0 <= code <= 255,
        WaitStatus::of_status(status) matches WaitStatus::TermSignal(signal) ==> 1 <= signal <= 126,
        WaitStatus::of_status(status) matches WaitStatus::Stopped(signal) ==> 0 <= signal <= 255,
{
    assert((status & 0x7f) == 0 ==> (status & 0xff) != 0x7f && status != 0xffff) by (bit_vector);
    assert((status & 0x7f) != 0x7f ==> (status & 0xff) != 0x7f && status != 0xffff)
        by (bit_vector);
    assert((status & 0xff) == 0x7f ==> status != 0xffff) by (bit_vector);
    assert(0 <= (status >> 8) & 0xff <= 255) by (bit_vector);
    assert(0 <= status & 0x7f <= 127) by (bit_vector);
}

} // verus!
