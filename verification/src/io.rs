//! Descriptor-level operations: terminal queries, duplication, and the
//! general read/write-mode query that is correct for sockets too.

use vstd::prelude::*;
use crate::errno::{Errno, RAW_AGAIN, RAW_NOTSOCK, RAW_PIPE};
use crate::flags::DupFlags;
use crate::fs::is_file_read_write;
use crate::handle::{AsHandle, IntoHandle, OwnedHandle};
use crate::sys;

verus! {

/// What the terminal predicate decides from the query's outcome: a
/// positive answer alone gives `true`; a negative answer and every
/// platform failure fold into `false`.
pub fn isatty_fold(query: &Result<bool, Errno>) -> (r: bool)
    ensures
        r == (*query == Ok::<bool, Errno>(true)),
{
    match query {
        Ok(b) => *b,
        Err(_) => false,
    }
}

/// Whether the descriptor refers to a terminal.
///
/// This is a pure predicate with no error condition: any failure of the
/// underlying platform query is folded into `false`.
pub fn isatty<Fd: AsHandle>(fd: &Fd) -> bool {
    let query = sys::isatty_fd(fd.as_handle());
    isatty_fold(&query)
}

/// What the read-half probe decides.  The probe peeks for one byte
/// without blocking, on a descriptor whose open mode allows reading.
///
/// A count of zero means the read side is shut down; any byte means it
/// is open.  A would-block failure means it is open with nothing queued;
/// a not-a-socket failure means the descriptor is no socket at all, so
/// the open mode already told the truth and the write-half probe has
/// nothing to add.  Every other failure is the query's own failure.
pub open spec fn spec_read_probe(probe: Result<usize, Errno>) -> Result<(bool, bool), Errno> {
    match probe {
        Ok(n) => if n == 0 {
            Ok((false, false))
        } else {
            Ok((true, false))
        },
        Err(e) => if e.spec_code() == RAW_AGAIN {
            Ok((true, false))
        } else if e.spec_code() == RAW_NOTSOCK {
            Ok((true, true))
        } else {
            Err(e)
        },
    }
}

/// Decides `(still readable, not a socket)` from the read-half probe's
/// outcome.
pub fn read_probe_decision(probe: &Result<usize, Errno>) -> (r: Result<(bool, bool), Errno>)
    ensures
        r == spec_read_probe(*probe),
{
    match probe {
        Ok(n) => if *n == 0 {
            Ok((false, false))
        } else {
            Ok((true, false))
        },
        Err(e) => {
            let code = e.code();
            if code == RAW_AGAIN {
                Ok((true, false))
            } else if code == RAW_NOTSOCK {
                Ok((true, true))
            } else {
                Err(*e)
            }
        },
    }
}

/// What the write-half probe decides.  The probe sends zero bytes
/// without blocking, on a socket whose open mode allows writing.
///
/// A broken-pipe failure means the write side is shut down.  Success, a
/// would-block failure and a not-a-socket failure all leave the open
/// mode's answer standing.  Every other failure is the query's own.
pub open spec fn spec_write_probe(probe: Result<usize, Errno>) -> Result<bool, Errno> {
    match probe {
        Ok(_) => Ok(true),
        Err(e) => if e.spec_code() == RAW_PIPE {
            Ok(false)
        } else if e.spec_code() == RAW_AGAIN || e.spec_code() == RAW_NOTSOCK {
            Ok(true)
        } else {
            Err(e)
        },
    }
}

/// Decides whether the write half is still open from the write-half
/// probe's outcome.
pub fn write_probe_decision(probe: &Result<usize, Errno>) -> (r: Result<bool, Errno>)
    ensures
        r == spec_write_probe(*probe),
{
    match probe {
        Ok(_) => Ok(true),
        Err(e) => {
            let code = e.code();
            if code == RAW_PIPE {
                Ok(false)
            } else if code == RAW_AGAIN || code == RAW_NOTSOCK {
                Ok(true)
            } else {
                Err(*e)
            }
        },
    }
}

/// Returns whether the descriptor is readable and writable,
/// respectively, correctly for every descriptor kind the platform
/// supports.
///
/// The open access mode is read first, as for regular files; each half
/// that it reports usable is then probed without blocking, so that a
/// socket whose read or write half has been shut down answers `false`
/// for that half.
pub fn is_read_write<Fd: AsHandle>(fd: &Fd) -> Result<(bool, bool), Errno> {
    let mode = is_file_read_write(fd);
    let (mut readable, mut writable) = match mode {
        Ok(m) => m,
        Err(e) => { return Err(e) },
    };
    let mut not_socket = false;
    if readable {
        let probe = sys::recv_peek_fd(fd.as_handle());
        match read_probe_decision(&probe) {
            Ok((r, ns)) => {
                readable = r;
                not_socket = ns;
            },
            Err(e) => { return Err(e) },
        }
    }
    if writable && !not_socket {
        let probe = sys::send_empty_fd(fd.as_handle());
        match write_probe_decision(&probe) {
            Ok(w) => { writable = w },
            Err(e) => { return Err(e) },
        }
    }
    Ok((readable, writable))
}

/// Produces a new owned handle for the same open file description.
///
/// Position and status flags are shared with the original: only the
/// descriptor slot is distinct.  The close-on-program-start property is
/// not set on the new descriptor.
pub fn dup<Fd: AsHandle>(fd: &Fd) -> Result<OwnedHandle, Errno> {
    sys::dup_fd(fd.as_handle())
}

/// Atomically repoints the descriptor slot of `new` at the same open
/// file description as `fd`, closing whatever the slot referenced
/// before, and transfers ownership of the repointed slot to the caller.
pub fn dup2<Fd: AsHandle, New: IntoHandle>(fd: &Fd, new: New, flags: DupFlags) -> Result<
    OwnedHandle,
    Errno,
> {
    sys::dup3_fd(fd.as_handle(), new.into_handle(), flags.bits() as i32)
}

/// Resolves the name of the terminal device behind the descriptor.
///
/// Fails if the descriptor is no terminal or the name cannot be
/// resolved.  The `reuse` buffer may donate its storage to the result;
/// this implementation returns fresh storage and releases `reuse`.
pub fn ttyname<Fd: AsHandle>(fd: &Fd, reuse: String) -> Result<String, Errno> {
    let _ = reuse;
    sys::ttyname_fd(fd.as_handle())
}

/// Creates a connected descriptor pair, returned as (read end, write
/// end), each exclusively owned by the caller.
pub fn pipe() -> Result<(OwnedHandle, OwnedHandle), Errno> {
    sys::pipe_handles()
}

} // verus!
