//! Data transfer: plain, positioned and vectored reads and writes.
//!
//! Every variant performs one transfer attempt and returns the number of
//! bytes actually moved.  A short transfer is an ordinary success equal
//! to the amount moved, never an error; a caller that needs more loops.
//! Positioned variants transfer at an explicit absolute offset and leave
//! the descriptor's own position untouched, so callers sharing a handle
//! can use them concurrently without disturbing one another.

use vstd::prelude::*;
use vstd::assert_seqs_equal;
use crate::errno::{Errno, RAW_INVAL, RAW_OVERFLOW};
use crate::handle::AsHandle;
use crate::seek::checked_offset;
use crate::sys;

verus! {

/// The byte sequences held by a list of buffers.
pub open spec fn views_of(bufs: Seq<Vec<u8>>) -> Seq<Seq<u8>> {
    bufs.map_values(|b: Vec<u8>| b@)
}

/// The combined length of a list of buffers: how many bytes one
/// vectored call may move at most.
pub open spec fn total_len(bufs: Seq<Seq<u8>>) -> nat
    decreases bufs.len(),
{
    if bufs.len() == 0 {
        0
    } else {
        total_len(bufs.drop_last()) + bufs.last().len()
    }
}

/// The buffer contents after `received` is scattered across `bufs` in
/// order: each buffer takes the next run of bytes and is filled
/// completely before the next buffer takes any, and every byte past the
/// run a buffer received keeps its old value.
pub open spec fn scatter(bufs: Seq<Seq<u8>>, received: Seq<u8>) -> Seq<Seq<u8>>
    decreases bufs.len(),
{
    if bufs.len() == 0 {
        Seq::empty()
    } else {
        let take = if received.len() < bufs[0].len() {
            received.len()
        } else {
            bufs[0].len()
        };
        seq![received.take(take as int) + bufs[0].skip(take as int)] + scatter(
            bufs.skip(1),
            received.skip(take as int),
        )
    }
}

/// Extending a prefix by one buffer adds that buffer's length.
proof fn lemma_total_len_take_succ(bufs: Seq<Seq<u8>>, i: int)
    requires
        0 <= i < bufs.len(),
    ensures
        total_len(bufs.take(i + 1)) == total_len(bufs.take(i)) + bufs[i].len(),
{
    assert_seqs_equal!(bufs.take(i + 1).drop_last() == bufs.take(i));
    assert(bufs.take(i + 1).last() == bufs[i]);
}

/// A prefix never holds more bytes than the whole list.
proof fn lemma_total_len_take_le(bufs: Seq<Seq<u8>>, i: int)
    requires
        0 <= i <= bufs.len(),
    ensures
        total_len(bufs.take(i)) <= total_len(bufs),
    decreases bufs.len() - i,
{
    if i == bufs.len() {
        assert_seqs_equal!(bufs.take(i) == bufs);
    } else {
        lemma_total_len_take_succ(bufs, i);
        lemma_total_len_take_le(bufs, i + 1);
    }
}

/// Sums the lengths of a list of buffers, reporting `None` when the sum
/// exceeds what one transfer request may carry.
pub fn checked_total_len(bufs: &Vec<Vec<u8>>) -> (r: Option<usize>)
    ensures
        (r matches Some(n) ==> n == total_len(views_of(bufs@)) && n <= isize::MAX),
        (r is None ==> total_len(views_of(bufs@)) > isize::MAX),
{
    let ghost views = views_of(bufs@);
    let mut total: usize = 0;
    let mut i: usize = 0;
    while i < bufs.len()
        invariant
            i <= bufs.len(),
            views == views_of(bufs@),
            views.len() == bufs@.len(),
            total == total_len(views.take(i as int)),
            total <= isize::MAX,
        decreases bufs.len() - i,
    {
        let l = bufs[i].len();
        proof {
            lemma_total_len_take_succ(views, i as int);
        }
        if l > (isize::MAX as usize) - total {
            proof {
                lemma_total_len_take_le(views, i + 1);
            }
            return None;
        }
        total = total + l;
        i = i + 1;
    }
    proof {
        assert_seqs_equal!(views.take(i as int) == views);
    }
    Some(total)
}

/// Reads into `buf` from the descriptor's current position, advancing
/// it by the count returned.  The buffer's length is unchanged; at most
/// that many bytes are moved.
pub fn read<Fd: AsHandle>(fd: &Fd, buf: &mut Vec<u8>) -> (r: Result<usize, Errno>)
    ensures
        final(buf)@.len() == old(buf)@.len(),
        (r matches Ok(n) ==> n <= old(buf)@.len() && final(buf)@.skip(n as int) == old(
            buf,
        )@.skip(n as int)),
{
    sys::read_fd(fd.as_handle(), buf)
}

/// Writes the bytes of `buf` at the descriptor's current position,
/// advancing it by the count returned, which is at most `buf`'s length.
pub fn write<Fd: AsHandle>(fd: &Fd, buf: &[u8]) -> (r: Result<usize, Errno>)
    ensures
        (r matches Ok(n) ==> n <= buf@.len()),
{
    sys::write_fd(fd.as_handle(), buf)
}

/// Reads into `buf` at the absolute offset `offset`, leaving the
/// descriptor's own position untouched.
///
/// An offset beyond the platform's signed offset type cannot be
/// expressed and is reported as an overflow.
pub fn pread<Fd: AsHandle>(fd: &Fd, buf: &mut Vec<u8>, offset: u64) -> (r: Result<usize, Errno>)
    ensures
        final(buf)@.len() == old(buf)@.len(),
        (r matches Ok(n) ==> n <= old(buf)@.len() && offset <= i64::MAX && final(buf)@.skip(
            n as int,
        ) == old(buf)@.skip(n as int)),
        offset > i64::MAX ==> (r matches Err(e) && e.spec_code() == RAW_OVERFLOW),
{
    let off = match checked_offset(offset) {
        Ok(o) => o,
        Err(e) => { return Err(e) },
    };
    sys::pread_fd(fd.as_handle(), buf, off)
}

/// Writes the bytes of `buf` at the absolute offset `offset`, leaving
/// the descriptor's own position untouched.
///
/// An offset beyond the platform's signed offset type cannot be
/// expressed and is reported as an overflow.
pub fn pwrite<Fd: AsHandle>(fd: &Fd, buf: &[u8], offset: u64) -> (r: Result<usize, Errno>)
    ensures
        (r matches Ok(n) ==> n <= buf@.len() && offset <= i64::MAX),
        offset > i64::MAX ==> (r matches Err(e) && e.spec_code() == RAW_OVERFLOW),
{
    let off = match checked_offset(offset) {
        Ok(o) => o,
        Err(e) => { return Err(e) },
    };
    sys::pwrite_fd(fd.as_handle(), buf, off)
}

/// Scatters one read across the buffers in order: the platform fills
/// each buffer fully before touching the next, and the count returned
/// is the aggregate across all buffers touched.
///
/// A list whose combined length exceeds what one request may carry is
/// rejected as invalid, exactly as the platform itself would reject it.
pub fn readv<Fd: AsHandle>(fd: &Fd, bufs: &mut Vec<Vec<u8>>) -> (r: Result<usize, Errno>)
    ensures
        final(bufs)@.len() == old(bufs)@.len(),
        forall|i: int|
            0 <= i < old(bufs)@.len() ==> (#[trigger] final(bufs)@[i])@.len()
                == old(bufs)@[i]@.len(),
        (r matches Ok(n) ==> n <= total_len(views_of(old(bufs)@)) && total_len(
            views_of(old(bufs)@),
        ) <= isize::MAX),
        (r matches Ok(n) ==> exists|received: Seq<u8>|
            received.len() == n && views_of(final(bufs)@) == #[trigger] scatter(
                views_of(old(bufs)@),
                received,
            )),
        total_len(views_of(old(bufs)@)) > isize::MAX ==> (r matches Err(e) && e.spec_code()
            == RAW_INVAL),
{
    match checked_total_len(bufs) {
        Some(_) => sys::readv_fd(fd.as_handle(), bufs),
        None => Err(Errno::invalid()),
    }
}

/// Gathers one write from the buffers in order: the platform drains
/// each buffer fully before touching the next, and the count returned
/// is the aggregate across all buffers touched.
///
/// A list whose combined length exceeds what one request may carry is
/// rejected as invalid, exactly as the platform itself would reject it.
pub fn writev<Fd: AsHandle>(fd: &Fd, bufs: &Vec<Vec<u8>>) -> (r: Result<usize, Errno>)
    ensures
        (r matches Ok(n) ==> n <= total_len(views_of(bufs@)) && total_len(views_of(bufs@))
            <= isize::MAX),
        total_len(views_of(bufs@)) > isize::MAX ==> (r matches Err(e) && e.spec_code()
            == RAW_INVAL),
{
    match checked_total_len(bufs) {
        Some(_) => sys::writev_fd(fd.as_handle(), bufs),
        None => Err(Errno::invalid()),
    }
}

/// Like [`readv`], at the absolute offset `offset`, leaving the
/// descriptor's own position untouched.
pub fn preadv<Fd: AsHandle>(fd: &Fd, bufs: &mut Vec<Vec<u8>>, offset: u64) -> (r: Result<
    usize,
    Errno,
>)
    ensures
        final(bufs)@.len() == old(bufs)@.len(),
        forall|i: int|
            0 <= i < old(bufs)@.len() ==> (#[trigger] final(bufs)@[i])@.len()
                == old(bufs)@[i]@.len(),
        (r matches Ok(n) ==> n <= total_len(views_of(old(bufs)@)) && offset <= i64::MAX),
        (r matches Ok(n) ==> exists|received: Seq<u8>|
            received.len() == n && views_of(final(bufs)@) == #[trigger] scatter(
                views_of(old(bufs)@),
                received,
            )),
        offset > i64::MAX ==> (r matches Err(e) && e.spec_code() == RAW_OVERFLOW),
        offset <= i64::MAX && total_len(views_of(old(bufs)@)) > isize::MAX ==> (r matches Err(e)
            && e.spec_code() == RAW_INVAL),
{
    let off = match checked_offset(offset) {
        Ok(o) => o,
        Err(e) => { return Err(e) },
    };
    match checked_total_len(bufs) {
        Some(_) => sys::preadv_fd(fd.as_handle(), bufs, off),
        None => Err(Errno::invalid()),
    }
}

/// Like [`writev`], at the absolute offset `offset`, leaving the
/// descriptor's own position untouched.
pub fn pwritev<Fd: AsHandle>(fd: &Fd, bufs: &Vec<Vec<u8>>, offset: u64) -> (r: Result<
    usize,
    Errno,
>)
    ensures
        (r matches Ok(n) ==> n <= total_len(views_of(bufs@))),
        offset > i64::MAX ==> (r matches Err(e) && e.spec_code() == RAW_OVERFLOW),
        offset <= i64::MAX && total_len(views_of(bufs@)) > isize::MAX ==> (r matches Err(e)
            && e.spec_code() == RAW_INVAL),
{
    let off = match checked_offset(offset) {
        Ok(o) => o,
        Err(e) => { return Err(e) },
    };
    match checked_total_len(bufs) {
        Some(_) => sys::pwritev_fd(fd.as_handle(), bufs, off),
        None => Err(Errno::invalid()),
    }
}

} // verus!
