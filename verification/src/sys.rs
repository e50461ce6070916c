//! The backend invocation strategy: every low-level platform request the
//! facade makes goes through exactly one trusted function in this module.
//!
//! Each wrapper converts plain argument values into the platform
//! library's vocabulary, makes one call, and maps the raw failure code
//! into the portable [`Errno`].  Nothing here promises more of a result
//! than the platform's own documentation shows; success is never owed,
//! since every outcome also depends on kernel and device state.
//!
//! Of the invocation strategies the design admits — direct kernel
//! requests, or delegation to the platform's general system library —
//! this build selects the system-library strategy for every operation.
//! An operation the target cannot express this way is absent from the
//! compiled interface rather than present but failing.

use vstd::prelude::*;
use io_lifetimes::AsFd;
use io_lifetimes::raw::AsRawFilelike;
use nix::unistd::Whence;
use nix::sys::socket::MsgFlags;
use std::io::{IoSlice, IoSliceMut};
use crate::errno::Errno;
use crate::handle::{OwnedHandle, BorrowedHandle};
use crate::rw::{scatter, total_len, views_of};
use crate::seek::SeekFrom;

verus! {

/// Relies on the platform borrow operation `AsFd::as_fd`: loans the
/// descriptor of an owned handle without transferring ownership.
#[verifier::external_body]
pub(crate) fn borrow_fd(fd: &io_lifetimes::OwnedFd) -> io_lifetimes::BorrowedFd<'_> {
    fd.as_fd()
}

/// Relies on the borrowed-descriptor type being a plain reference that
/// can be loaned again for a shorter duration.
#[verifier::external_body]
pub(crate) fn reborrow_fd<'s>(fd: &'s io_lifetimes::BorrowedFd<'_>) -> io_lifetimes::BorrowedFd<'s> {
    *fd
}

/// Relies on `nix::unistd::close`: releases the descriptor, reporting
/// the platform's failure code if the final flush fails.
#[verifier::external_body]
pub(crate) fn close_handle(h: OwnedHandle) -> Result<(), Errno> {
    match nix::unistd::close(h.fd) {
        Ok(()) => Ok(()),
        Err(e) => Err(Errno::from_raw(e as i32)),
    }
}

/// Relies on `nix::fcntl::open`: opens `path` with the given open flags
/// and creation permissions, returning a freshly owned descriptor.
#[verifier::external_body]
pub(crate) fn open_path(path: &str, oflags: u32, mode: u32) -> Result<OwnedHandle, Errno> {
    let f = nix::fcntl::OFlag::from_bits_retain(oflags as i32);
    let m = nix::sys::stat::Mode::from_bits_truncate(mode);
    match nix::fcntl::open(path, f, m) {
        Ok(fd) => Ok(OwnedHandle { fd }),
        Err(e) => Err(Errno::from_raw(e as i32)),
    }
}

/// Relies on `nix::unistd::pipe`: creates a connected pair of
/// descriptors, returned as (read end, write end), each freshly owned.
#[verifier::external_body]
pub(crate) fn pipe_handles() -> Result<(OwnedHandle, OwnedHandle), Errno> {
    match nix::unistd::pipe() {
        Ok((r, w)) => Ok((OwnedHandle { fd: r }, OwnedHandle { fd: w })),
        Err(e) => Err(Errno::from_raw(e as i32)),
    }
}

/// Relies on `nix::unistd::lseek`: repositions the descriptor's offset
/// according to the origin and delta of `pos` and returns the resulting
/// absolute offset, which the platform documents to be non-negative.
#[verifier::external_body]
pub(crate) fn lseek_fd(fd: BorrowedHandle<'_>, pos: &SeekFrom) -> (r: Result<i64, Errno>)
    ensures
        (r matches Ok(v) ==> v >= 0),
{
    let (off, whence) = match pos {
        SeekFrom::Start(p) => (*p as i64, Whence::SeekSet),
        SeekFrom::Current(d) => (*d, Whence::SeekCur),
        SeekFrom::End(d) => (*d, Whence::SeekEnd),
    };
    match nix::unistd::lseek(&fd.fd, off, whence) {
        Ok(v) => Ok(v),
        Err(e) => Err(Errno::from_raw(e as i32)),
    }
}

/// Relies on `nix::sys::stat::fchmod`: applies the permission bits to
/// the file behind the descriptor.
#[verifier::external_body]
pub(crate) fn fchmod_fd(fd: BorrowedHandle<'_>, mode: u32) -> Result<(), Errno> {
    match nix::sys::stat::fchmod(&fd.fd, nix::sys::stat::Mode::from_bits_truncate(mode)) {
        Ok(()) => Ok(()),
        Err(e) => Err(Errno::from_raw(e as i32)),
    }
}

/// Relies on `nix::sys::stat::fstat`: fills the platform metadata
/// record, copied here field for field into the portable one.
#[verifier::external_body]
pub(crate) fn fstat_fd(fd: BorrowedHandle<'_>) -> Result<crate::fs::Stat, Errno> {
    match nix::sys::stat::fstat(&fd.fd) {
        Ok(s) => Ok(crate::fs::Stat {
            dev: s.st_dev, ino: s.st_ino, mode: s.st_mode, nlink: s.st_nlink,
            uid: s.st_uid, gid: s.st_gid, size: s.st_size,
            blksize: s.st_blksize, blocks: s.st_blocks,
            atime_sec: s.st_atime, atime_nsec: s.st_atime_nsec,
            mtime_sec: s.st_mtime, mtime_nsec: s.st_mtime_nsec,
            ctime_sec: s.st_ctime, ctime_nsec: s.st_ctime_nsec,
        }),
        Err(e) => Err(Errno::from_raw(e as i32)),
    }
}

/// Relies on `nix::sys::statfs::fstatfs`: fills the platform filesystem
/// statistics, read here accessor by accessor into the portable record.
#[verifier::external_body]
pub(crate) fn fstatfs_fd(fd: BorrowedHandle<'_>) -> Result<crate::fs::StatFs, Errno> {
    match nix::sys::statfs::fstatfs(&fd.fd) {
        Ok(s) => Ok(crate::fs::StatFs {
            fs_type: s.filesystem_type().0, block_size: s.block_size(),
            blocks: s.blocks(), blocks_free: s.blocks_free(),
            blocks_available: s.blocks_available(),
            files: s.files(), files_free: s.files_free(),
            name_max: s.maximum_name_length(),
        }),
        Err(e) => Err(Errno::from_raw(e as i32)),
    }
}

/// Relies on `nix::sys::stat::futimens`: sets the last-access and
/// last-modification timestamps of the file behind the descriptor.
#[verifier::external_body]
pub(crate) fn futimens_fd(
    fd: BorrowedHandle<'_>,
    atime: &crate::fs::Timespec,
    mtime: &crate::fs::Timespec,
) -> Result<(), Errno> {
    let a = nix::sys::time::TimeSpec::new(atime.secs, atime.nanos);
    let m = nix::sys::time::TimeSpec::new(mtime.secs, mtime.nanos);
    match nix::sys::stat::futimens(&fd.fd, &a, &m) {
        Ok(()) => Ok(()),
        Err(e) => Err(Errno::from_raw(e as i32)),
    }
}

/// Relies on `nix::fcntl::fallocate`: manipulates the space of the byte
/// range according to the platform's preallocation mode bits.
#[verifier::external_body]
pub(crate) fn fallocate_fd(
    fd: BorrowedHandle<'_>,
    mode: u32,
    offset: i64,
    len: i64,
) -> Result<(), Errno> {
    let m = nix::fcntl::FallocateFlags::from_bits_retain(mode as i32);
    match nix::fcntl::fallocate(&fd.fd, m, offset, len) {
        Ok(()) => Ok(()),
        Err(e) => Err(Errno::from_raw(e as i32)),
    }
}

/// Relies on `nix::fcntl::fcntl` with the get-flags request: returns
/// the descriptor's open flags exactly as the platform reports them.
/// The two low bits usually hold one of the three documented access
/// modes, but a descriptor from the platform's nonstandard
/// control-only open mode carries their fourth value, so nothing is
/// promised of the bits; the caller decodes them.
#[verifier::external_body]
pub(crate) fn fcntl_getfl_fd(fd: BorrowedHandle<'_>) -> Result<u32, Errno> {
    match nix::fcntl::fcntl(&fd.fd, nix::fcntl::FcntlArg::F_GETFL) {
        Ok(bits) => Ok(bits as u32),
        Err(e) => Err(Errno::from_raw(e as i32)),
    }
}

/// Relies on `nix::unistd::fsync`: blocks until data and metadata are
/// durable.
#[verifier::external_body]
pub(crate) fn fsync_fd(fd: BorrowedHandle<'_>) -> Result<(), Errno> {
    match nix::unistd::fsync(&fd.fd) {
        Ok(()) => Ok(()),
        Err(e) => Err(Errno::from_raw(e as i32)),
    }
}

/// Relies on `nix::unistd::fdatasync`: blocks until the data, and the
/// metadata needed to read it back, are durable.
#[verifier::external_body]
pub(crate) fn fdatasync_fd(fd: BorrowedHandle<'_>) -> Result<(), Errno> {
    match nix::unistd::fdatasync(&fd.fd) {
        Ok(()) => Ok(()),
        Err(e) => Err(Errno::from_raw(e as i32)),
    }
}

/// Relies on `nix::unistd::ftruncate`: sets the file's length exactly.
#[verifier::external_body]
pub(crate) fn ftruncate_fd(fd: BorrowedHandle<'_>, len: i64) -> Result<(), Errno> {
    match nix::unistd::ftruncate(&fd.fd, len) {
        Ok(()) => Ok(()),
        Err(e) => Err(Errno::from_raw(e as i32)),
    }
}

/// Relies on `nix::unistd::isatty`: whether the descriptor refers to a
/// terminal.
#[verifier::external_body]
pub(crate) fn isatty_fd(fd: BorrowedHandle<'_>) -> Result<bool, Errno> {
    match nix::unistd::isatty(&fd.fd) {
        Ok(b) => Ok(b),
        Err(e) => Err(Errno::from_raw(e as i32)),
    }
}

/// Relies on `nix::sys::socket::recv` with peek-without-blocking flags:
/// asks for one byte without consuming it or waiting for it.
#[verifier::external_body]
pub(crate) fn recv_peek_fd(fd: BorrowedHandle<'_>) -> Result<usize, Errno> {
    let mut buf: [u8; 1] = [0];
    match nix::sys::socket::recv(
        fd.fd.as_raw_filelike(),
        &mut buf,
        MsgFlags::MSG_PEEK | MsgFlags::MSG_DONTWAIT,
    ) {
        Ok(n) => Ok(n),
        Err(e) => Err(Errno::from_raw(e as i32)),
    }
}

/// Relies on `nix::sys::socket::send` without blocking: sends zero
/// bytes, which succeeds only while the write half is usable.
#[verifier::external_body]
pub(crate) fn send_empty_fd(fd: BorrowedHandle<'_>) -> Result<usize, Errno> {
    let buf: [u8; 0] = [];
    match nix::sys::socket::send(fd.fd.as_raw_filelike(), &buf, MsgFlags::MSG_DONTWAIT) {
        Ok(n) => Ok(n),
        Err(e) => Err(Errno::from_raw(e as i32)),
    }
}

/// Relies on `nix::unistd::dup`: allocates a fresh descriptor slot
/// referring to the same open file description, returned as a new owned
/// handle.
#[verifier::external_body]
pub(crate) fn dup_fd(fd: BorrowedHandle<'_>) -> Result<OwnedHandle, Errno> {
    match nix::unistd::dup(&fd.fd) {
        Ok(nfd) => Ok(OwnedHandle { fd: nfd }),
        Err(e) => Err(Errno::from_raw(e as i32)),
    }
}

/// Relies on `nix::unistd::dup3`: atomically repoints the consumed
/// target slot at the source's open file description, applying the
/// given open-flag bits to the repointed slot.
#[verifier::external_body]
pub(crate) fn dup3_fd(
    fd: BorrowedHandle<'_>,
    new: OwnedHandle,
    oflag_bits: i32,
) -> Result<OwnedHandle, Errno> {
    let mut nfd = new.fd;
    let flags = nix::fcntl::OFlag::from_bits_retain(oflag_bits);
    match nix::unistd::dup3(&fd.fd, &mut nfd, flags) {
        Ok(()) => Ok(OwnedHandle { fd: nfd }),
        Err(e) => Err(Errno::from_raw(e as i32)),
    }
}

/// Relies on `nix::unistd::ttyname`: resolves the terminal device name
/// behind the descriptor, converted here to plain text.  A byte of the
/// name outside the text encoding is replaced, not kept; terminal
/// device names do not contain such bytes in practice.
#[verifier::external_body]
pub(crate) fn ttyname_fd(fd: BorrowedHandle<'_>) -> Result<String, Errno> {
    match nix::unistd::ttyname(&fd.fd) {
        Ok(p) => Ok(p.to_string_lossy().into_owned()),
        Err(e) => Err(Errno::from_raw(e as i32)),
    }
}

/// Relies on `nix::unistd::read`: moves at most `buf`'s length in bytes
/// from the descriptor's current position into the front of `buf`,
/// returning the count moved; bytes past that count, and the length,
/// are left as they were.
#[verifier::external_body]
pub(crate) fn read_fd(fd: BorrowedHandle<'_>, buf: &mut Vec<u8>) -> (r: Result<usize, Errno>)
    ensures
        final(buf)@.len() == old(buf)@.len(),
        (r matches Ok(n) ==> n <= old(buf)@.len() && final(buf)@.skip(n as int) == old(
            buf,
        )@.skip(n as int)),
{
    match nix::unistd::read(&fd.fd, buf.as_mut_slice()) {
        Ok(n) => Ok(n),
        Err(e) => Err(Errno::from_raw(e as i32)),
    }
}

/// Relies on `nix::unistd::write`: moves at most `buf`'s length in
/// bytes from the front of `buf` to the descriptor's current position,
/// returning the count moved.
#[verifier::external_body]
pub(crate) fn write_fd(fd: BorrowedHandle<'_>, buf: &[u8]) -> (r: Result<usize, Errno>)
    ensures
        (r matches Ok(n) ==> n <= buf@.len()),
{
    match nix::unistd::write(&fd.fd, buf) {
        Ok(n) => Ok(n),
        Err(e) => Err(Errno::from_raw(e as i32)),
    }
}

/// Relies on `nix::sys::uio::pread`: like the plain read, but at the
/// given absolute offset, leaving the descriptor's position untouched.
#[verifier::external_body]
pub(crate) fn pread_fd(fd: BorrowedHandle<'_>, buf: &mut Vec<u8>, offset: i64) -> (r: Result<
    usize,
    Errno,
>)
    ensures
        final(buf)@.len() == old(buf)@.len(),
        (r matches Ok(n) ==> n <= old(buf)@.len() && final(buf)@.skip(n as int) == old(
            buf,
        )@.skip(n as int)),
{
    match nix::sys::uio::pread(&fd.fd, buf.as_mut_slice(), offset) {
        Ok(n) => Ok(n),
        Err(e) => Err(Errno::from_raw(e as i32)),
    }
}

/// Relies on `nix::sys::uio::pwrite`: like the plain write, but at the
/// given absolute offset, leaving the descriptor's position untouched.
#[verifier::external_body]
pub(crate) fn pwrite_fd(fd: BorrowedHandle<'_>, buf: &[u8], offset: i64) -> (r: Result<
    usize,
    Errno,
>)
    ensures
        (r matches Ok(n) ==> n <= buf@.len()),
{
    match nix::sys::uio::pwrite(&fd.fd, buf, offset) {
        Ok(n) => Ok(n),
        Err(e) => Err(Errno::from_raw(e as i32)),
    }
}

/// Relies on `nix::sys::uio::readv`: scatters one read across the
/// buffers in order, each filled fully before the next is touched,
/// returning the aggregate count, at most the combined length; bytes
/// past the run each buffer received are left as they were.
#[verifier::external_body]
pub(crate) fn readv_fd(fd: BorrowedHandle<'_>, bufs: &mut Vec<Vec<u8>>) -> (r: Result<
    usize,
    Errno,
>)
    ensures
        final(bufs)@.len() == old(bufs)@.len(),
        forall|i: int|
            0 <= i < old(bufs)@.len() ==> (#[trigger] final(bufs)@[i])@.len()
                == old(bufs)@[i]@.len(),
        (r matches Ok(n) ==> n <= total_len(views_of(old(bufs)@))),
        (r matches Ok(n) ==> exists|received: Seq<u8>|
            received.len() == n && views_of(final(bufs)@) == #[trigger] scatter(
                views_of(old(bufs)@),
                received,
            )),
{
    let mut sl = bufs.iter_mut().map(|b| IoSliceMut::new(b.as_mut_slice())).collect::<Vec<_>>();
    match nix::sys::uio::readv(&fd.fd, sl.as_mut_slice()) {
        Ok(n) => Ok(n),
        Err(e) => Err(Errno::from_raw(e as i32)),
    }
}

/// Relies on `nix::sys::uio::writev`: gathers one write from the
/// buffers in order, each drained fully before the next is touched,
/// returning the aggregate count, at most the combined length.
#[verifier::external_body]
pub(crate) fn writev_fd(fd: BorrowedHandle<'_>, bufs: &Vec<Vec<u8>>) -> (r: Result<usize, Errno>)
    ensures
        (r matches Ok(n) ==> n <= total_len(views_of(bufs@))),
{
    let sl = bufs.iter().map(|b| IoSlice::new(b.as_slice())).collect::<Vec<_>>();
    match nix::sys::uio::writev(&fd.fd, sl.as_slice()) {
        Ok(n) => Ok(n),
        Err(e) => Err(Errno::from_raw(e as i32)),
    }
}

/// Relies on `nix::sys::uio::preadv`: the scattered read at an absolute
/// offset, leaving the descriptor's position untouched; buffers fill in
/// order and bytes past the run each received are left as they were.
#[verifier::external_body]
pub(crate) fn preadv_fd(
    fd: BorrowedHandle<'_>,
    bufs: &mut Vec<Vec<u8>>,
    offset: i64,
) -> (r: Result<usize, Errno>)
    ensures
        final(bufs)@.len() == old(bufs)@.len(),
        forall|i: int|
            0 <= i < old(bufs)@.len() ==> (#[trigger] final(bufs)@[i])@.len()
                == old(bufs)@[i]@.len(),
        (r matches Ok(n) ==> n <= total_len(views_of(old(bufs)@))),
        (r matches Ok(n) ==> exists|received: Seq<u8>|
            received.len() == n && views_of(final(bufs)@) == #[trigger] scatter(
                views_of(old(bufs)@),
                received,
            )),
{
    let mut sl = bufs.iter_mut().map(|b| IoSliceMut::new(b.as_mut_slice())).collect::<Vec<_>>();
    match nix::sys::uio::preadv(&fd.fd, sl.as_mut_slice(), offset) {
        Ok(n) => Ok(n),
        Err(e) => Err(Errno::from_raw(e as i32)),
    }
}

/// Relies on `nix::sys::uio::pwritev`: the gathered write at an
/// absolute offset, leaving the descriptor's position untouched.
#[verifier::external_body]
pub(crate) fn pwritev_fd(
    fd: BorrowedHandle<'_>,
    bufs: &Vec<Vec<u8>>,
    offset: i64,
) -> (r: Result<usize, Errno>)
    ensures
        (r matches Ok(n) ==> n <= total_len(views_of(bufs@))),
{
    let sl = bufs.iter().map(|b| IoSlice::new(b.as_slice())).collect::<Vec<_>>();
    match nix::sys::uio::pwritev(&fd.fd, sl.as_slice(), offset) {
        Ok(n) => Ok(n),
        Err(e) => Err(Errno::from_raw(e as i32)),
    }
}

} // verus!
