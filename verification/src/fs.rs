//! Operations on the file behind a descriptor: positioning, metadata,
//! durability, space reservation and truncation.

use vstd::prelude::*;
use crate::errno::{Errno, RAW_INVAL, RAW_OVERFLOW};
use crate::flags::{FallocateFlags, Mode, OFlags, OFLAG_PATH, OFLAG_RWMODE, OFLAG_RDONLY,
    OFLAG_RDWR, OFLAG_WRONLY};
use crate::handle::{AsHandle, OwnedHandle};
use crate::seek::{SeekFrom, checked_offset, seek_representable};
use crate::sys;

verus! {

/// Structured metadata of the file behind a descriptor, in the portable
/// vocabulary: every field is a plain integer.
#[derive(Clone, Copy, PartialEq, Eq, Structural, Debug)]
pub struct Stat {
    /// Device holding the file.
    pub dev: u64,
    /// Serial number of the file.
    pub ino: u64,
    /// File kind and permission bits.
    pub mode: u32,
    /// Number of hard links.
    pub nlink: u64,
    /// Owning user.
    pub uid: u32,
    /// Owning group.
    pub gid: u32,
    /// Size in bytes.
    pub size: i64,
    /// Preferred transfer block size.
    pub blksize: i64,
    /// Number of 512-byte blocks allocated.
    pub blocks: i64,
    /// Last access time, whole seconds.
    pub atime_sec: i64,
    /// Last access time, nanosecond part.
    pub atime_nsec: i64,
    /// Last modification time, whole seconds.
    pub mtime_sec: i64,
    /// Last modification time, nanosecond part.
    pub mtime_nsec: i64,
    /// Last status change time, whole seconds.
    pub ctime_sec: i64,
    /// Last status change time, nanosecond part.
    pub ctime_nsec: i64,
}

/// Statistics of the filesystem holding a descriptor, as plain integers.
#[derive(Clone, Copy, PartialEq, Eq, Structural, Debug)]
pub struct StatFs {
    /// Magic code identifying the filesystem kind.
    pub fs_type: i64,
    /// Preferred block size for transfers.
    pub block_size: i64,
    /// Total data blocks.
    pub blocks: u64,
    /// Free blocks.
    pub blocks_free: u64,
    /// Free blocks available to unprivileged callers.
    pub blocks_available: u64,
    /// Total file nodes.
    pub files: u64,
    /// Free file nodes.
    pub files_free: u64,
    /// Longest permitted file name.
    pub name_max: i64,
}

/// One nanosecond-resolution timestamp.
#[derive(Clone, Copy, PartialEq, Eq, Structural, Debug)]
pub struct Timespec {
    /// Whole seconds.
    pub secs: i64,
    /// Nanosecond part.
    pub nanos: i64,
}

/// Nanosecond value directing the platform to use the current time.
pub const UTIME_NOW: i64 = 0x3fffffff;
/// Nanosecond value directing the platform to leave a timestamp alone.
pub const UTIME_OMIT: i64 = 0x3ffffffe;

/// Whether a timestamp's nanosecond part is one the set-times operation
/// accepts: a value below one second, or one of the two directives.
pub open spec fn spec_nanos_valid(nanos: i64) -> bool {
    (0 <= nanos && nanos < 1000000000) || nanos == UTIME_NOW || nanos == UTIME_OMIT
}

impl Timespec {
    /// Whether the set-times operation accepts this timestamp.
    pub fn nanos_valid(&self) -> (r: bool)
        ensures
            r == spec_nanos_valid(self.nanos),
    {
        (0 <= self.nanos && self.nanos < 1000000000) || self.nanos == UTIME_NOW
            || self.nanos == UTIME_OMIT
    }
}

/// Opens `path` with the given open flags and creation permissions,
/// returning an exclusively owned handle to the new descriptor.
pub fn open(path: &str, flags: OFlags, mode: Mode) -> Result<OwnedHandle, Errno> {
    sys::open_path(path, flags.bits(), mode.bits())
}

/// Repositions the descriptor's offset according to `pos` and returns
/// the resulting absolute offset.
///
/// An absolute target beyond the platform's signed offset range is
/// rejected as invalid before any request is made; every other failure
/// carries the platform's own code.
pub fn seek<Fd: AsHandle>(fd: &Fd, pos: SeekFrom) -> (r: Result<u64, Errno>)
    ensures
        !seek_representable(pos) ==> (r matches Err(e) && e.spec_code() == RAW_INVAL),
        (r matches Ok(v) ==> seek_representable(pos) && v <= i64::MAX),
{
    if !pos.is_representable() {
        return Err(Errno::invalid());
    }
    match sys::lseek_fd(fd.as_handle(), &pos) {
        Ok(v) => Ok(v as u64),
        Err(e) => Err(e),
    }
}

/// Returns the current offset of the descriptor without changing any
/// state: a seek by a zero delta from the current position.
///
/// This is a read-only subset of [`seek`] that lets a caller state
/// non-mutating intent in the call itself.
pub fn tell<Fd: AsHandle>(fd: &Fd) -> (r: Result<u64, Errno>)
    ensures
        (r matches Ok(v) ==> v <= i64::MAX),
{
    match sys::lseek_fd(fd.as_handle(), &SeekFrom::Current(0)) {
        Ok(v) => Ok(v as u64),
        Err(e) => Err(e),
    }
}

/// Changes the permission bits of the file behind the descriptor.
pub fn fchmod<Fd: AsHandle>(fd: &Fd, mode: Mode) -> Result<(), Errno> {
    sys::fchmod_fd(fd.as_handle(), mode.bits())
}

/// Returns the metadata of the file behind the descriptor.
pub fn fstat<Fd: AsHandle>(fd: &Fd) -> Result<Stat, Errno> {
    sys::fstat_fd(fd.as_handle())
}

/// Returns statistics of the filesystem holding the descriptor.
pub fn fstatfs<Fd: AsHandle>(fd: &Fd) -> Result<StatFs, Errno> {
    sys::fstatfs_fd(fd.as_handle())
}

/// Sets the last-access and last-modification timestamps of the file
/// behind the descriptor.
///
/// A timestamp whose nanosecond part is neither below one second nor one
/// of the two directives is rejected as invalid, exactly as the platform
/// itself would reject it.
pub fn futimens<Fd: AsHandle>(fd: &Fd, atime: &Timespec, mtime: &Timespec) -> (r: Result<
    (),
    Errno,
>)
    ensures
        !spec_nanos_valid(atime.nanos) || !spec_nanos_valid(mtime.nanos) ==> (r matches Err(e)
            && e.spec_code() == RAW_INVAL),
        (r matches Ok(_) ==> spec_nanos_valid(atime.nanos) && spec_nanos_valid(mtime.nanos)),
{
    if !atime.nanos_valid() || !mtime.nanos_valid() {
        return Err(Errno::invalid());
    }
    sys::futimens_fd(fd.as_handle(), atime, mtime)
}

/// Reserves or manipulates space for the byte range `offset..offset+len`
/// of the file behind the descriptor, according to the mode flag set.
///
/// A range bound beyond the platform's signed offset type cannot be
/// expressed and is reported as an overflow.
pub fn fallocate<Fd: AsHandle>(fd: &Fd, mode: FallocateFlags, offset: u64, len: u64) -> (r: Result<
    (),
    Errno,
>)
    ensures
        offset > i64::MAX || len > i64::MAX ==> (r matches Err(e) && e.spec_code()
            == RAW_OVERFLOW),
        (r matches Ok(_) ==> offset <= i64::MAX && len <= i64::MAX),
{
    let off = match checked_offset(offset) {
        Ok(o) => o,
        Err(e) => { return Err(e) },
    };
    let l = match checked_offset(len) {
        Ok(o) => o,
        Err(e) => { return Err(e) },
    };
    sys::fallocate_fd(fd.as_handle(), mode.bits(), off, l)
}

/// The readable/writable pair encoded by an open-flags bit pattern,
/// for descriptors of regular files.
///
/// A path-only descriptor references a location without permitting data
/// transfer, so the path-only bit forces `(false, false)` whatever the
/// nominal access bits say.  Otherwise the two access-mode bits decide:
/// read-only gives `(true, false)`, write-only `(false, true)`,
/// read-write `(true, true)`.  Their fourth value names no access mode
/// the platform documents; it decodes to nothing.
pub open spec fn spec_file_rw_mode(bits: u32) -> Option<(bool, bool)> {
    if bits & OFLAG_PATH != 0 {
        Some((false, false))
    } else if bits & OFLAG_RWMODE == OFLAG_RDONLY {
        Some((true, false))
    } else if bits & OFLAG_RWMODE == OFLAG_RDWR {
        Some((true, true))
    } else if bits & OFLAG_RWMODE == OFLAG_WRONLY {
        Some((false, true))
    } else {
        None
    }
}

/// Decodes an open-flags bit pattern into the (readable, writable)
/// pair, or into nothing for the undefined fourth access mode.
pub fn file_rw_mode(bits: u32) -> (r: Option<(bool, bool)>)
    ensures
        r == spec_file_rw_mode(bits),
{
    if bits & OFLAG_PATH != 0 {
        Some((false, false))
    } else if bits & OFLAG_RWMODE == OFLAG_RDONLY {
        Some((true, false))
    } else if bits & OFLAG_RWMODE == OFLAG_RDWR {
        Some((true, true))
    } else if bits & OFLAG_RWMODE == OFLAG_WRONLY {
        Some((false, true))
    } else {
        None
    }
}

/// Law: each way a file can be opened decodes to exactly its pair —
/// read-only to `(true, false)`, write-only to `(false, true)`,
/// read-write to `(true, true)` — a path-only descriptor decodes to
/// `(false, false)` whatever its nominal access bits, since it cannot
/// transfer data at all, and only the undefined fourth access mode
/// decodes to nothing.
pub proof fn lemma_rw_mode_decoding(bits: u32)
    ensures
        spec_file_rw_mode(OFLAG_RDONLY) == Some((true, false)),
        spec_file_rw_mode(OFLAG_WRONLY) == Some((false, true)),
        spec_file_rw_mode(OFLAG_RDWR) == Some((true, true)),
        bits & OFLAG_PATH != 0 ==> spec_file_rw_mode(bits) == Some((false, false)),
        spec_file_rw_mode(bits) is None <==> (bits & OFLAG_PATH == 0 && bits & OFLAG_RWMODE
            == OFLAG_RWMODE),
{
    assert(0o0u32 & 0o10000000u32 == 0u32 && 0o0u32 & 0o3u32 == 0o0u32) by (bit_vector);
    assert(0o1u32 & 0o10000000u32 == 0u32 && 0o1u32 & 0o3u32 == 0o1u32) by (bit_vector);
    assert(0o2u32 & 0o10000000u32 == 0u32 && 0o2u32 & 0o3u32 == 0o2u32) by (bit_vector);
    assert(bits & 0o3u32 == 0u32 || bits & 0o3u32 == 1u32 || bits & 0o3u32 == 2u32 || bits
        & 0o3u32 == 3u32) by (bit_vector);
}

/// What the access-mode query decides from the get-flags outcome.
///
/// A failure of the query itself is handed through unchanged, with no
/// retry and no interpretation.  Flag bits decode through
/// [`spec_file_rw_mode`]; the undefined fourth access mode is a
/// violation of the platform contract this decoding rests on, and is
/// reported as invalid — the error value standing in for a fatal
/// internal-invariant assertion, since this library does not panic.
pub open spec fn spec_file_mode_decision(query: Result<u32, Errno>) -> Result<
    (bool, bool),
    Errno,
> {
    match query {
        Ok(bits) => match spec_file_rw_mode(bits) {
            Some(m) => Ok(m),
            None => Err(Errno::spec_invalid()),
        },
        Err(e) => Err(e),
    }
}

/// Decides the readable/writable pair, or the propagated or
/// invariant-violation error, from the get-flags outcome.
pub fn file_mode_decision(query: &Result<u32, Errno>) -> (r: Result<(bool, bool), Errno>)
    ensures
        r == spec_file_mode_decision(*query),
{
    match query {
        Ok(bits) => match file_rw_mode(*bits) {
            Some(m) => Ok(m),
            None => Err(Errno::invalid()),
        },
        Err(e) => Err(*e),
    }
}

/// Queries the descriptor's open access mode and returns whether it is
/// readable and writable, respectively.
///
/// This reads the descriptor's open flags, so it is reliable only for
/// regular files: it does not observe the shutdown state of sockets.
/// For descriptors of every kind, prefer the general read/write query.
pub fn is_file_read_write<Fd: AsHandle>(fd: &Fd) -> Result<(bool, bool), Errno> {
    let query = sys::fcntl_getfl_fd(fd.as_handle());
    file_mode_decision(&query)
}

/// Flushes the file's data and metadata to durable storage, blocking
/// until the platform reports completion.
pub fn fsync<Fd: AsHandle>(fd: &Fd) -> Result<(), Errno> {
    sys::fsync_fd(fd.as_handle())
}

/// Flushes the file's data, and only the metadata needed to read it
/// back, to durable storage.
pub fn fdatasync<Fd: AsHandle>(fd: &Fd) -> Result<(), Errno> {
    sys::fdatasync_fd(fd.as_handle())
}

/// Truncates or zero-extends the file behind the descriptor to exactly
/// `length` bytes.
///
/// A length beyond the platform's signed offset type cannot be
/// expressed and is reported as an overflow.
pub fn ftruncate<Fd: AsHandle>(fd: &Fd, length: u64) -> (r: Result<(), Errno>)
    ensures
        length > i64::MAX ==> (r matches Err(e) && e.spec_code() == RAW_OVERFLOW),
        (r matches Ok(_) ==> length <= i64::MAX),
{
    let l = match checked_offset(length) {
        Ok(o) => o,
        Err(e) => { return Err(e) },
    };
    sys::ftruncate_fd(fd.as_handle(), l)
}

} // verus!
