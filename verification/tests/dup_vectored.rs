//! Duplication, pipes, vectored transfer, and the flag/error types.

use fdops::errno::{RAW_INVAL, RAW_OVERFLOW};
use fdops::flags::{DUP_CLOEXEC, OFLAG_CREAT, OFLAG_RDONLY, OFLAG_RDWR, OFLAG_TRUNC};
use fdops::fs;
use fdops::io;
use fdops::rw;
use fdops::{DupFlags, Errno, FallocateFlags, Mode, OFlags, ReadWriteFlags, SeekFrom};
use io_lifetimes::AsFd;

fn scratch(name: &str) -> (fdops::OwnedHandle, String) {
    let path = format!("/tmp/fdops_{}", name);
    let flags = OFlags::from_bits(OFLAG_RDWR | OFLAG_CREAT | OFLAG_TRUNC);
    let h = fs::open(&path, flags, Mode::from_bits(0o600)).expect("open scratch file");
    (h, path)
}

fn cleanup(path: &str) {
    let _ = nix::unistd::unlink(path);
}

#[test]
fn dup_survives_closing_original() {
    let (h, path) = scratch("dup");
    let n = rw::write(&h, b"abc").expect("write via original");
    assert_eq!(n, 3);
    let d = io::dup(&h).expect("dup");
    fdops::close(h).expect("close original");
    // The duplicate shares the open file description: same position.
    assert_eq!(fs::tell(&d).expect("tell via duplicate"), 3);
    let m = rw::write(&d, b"def").expect("write via duplicate");
    assert_eq!(m, 3);
    assert_eq!(fs::seek(&d, SeekFrom::Start(0)).expect("seek"), 0);
    let mut back = vec![0u8; 6];
    assert_eq!(rw::read(&d, &mut back).expect("read"), 6);
    assert_eq!(&back, b"abcdef");
    cleanup(&path);
}

#[test]
fn dup2_repoints_target_slot() {
    let (a, patha) = scratch("dup2_source");
    let (b, pathb) = scratch("dup2_target");
    let repointed = io::dup2(&a, b, DupFlags::empty()).expect("dup2");
    rw::write(&repointed, b"landed").expect("write via repointed slot");
    assert_eq!(fs::seek(&a, SeekFrom::Start(0)).expect("seek source"), 0);
    let mut back = vec![0u8; 6];
    assert_eq!(rw::read(&a, &mut back).expect("read source"), 6);
    assert_eq!(&back, b"landed");
    cleanup(&patha);
    cleanup(&pathb);
}

#[test]
fn dup2_with_cloexec_flag() {
    let (a, patha) = scratch("dup2_cloexec_src");
    let (b, pathb) = scratch("dup2_cloexec_tgt");
    let repointed = io::dup2(&a, b, DupFlags::cloexec()).expect("dup2 with flag");
    assert_eq!(rw::write(&repointed, b"x").expect("write"), 1);
    cleanup(&patha);
    cleanup(&pathb);
}

#[test]
fn pipe_round_trip() {
    let (r, w) = io::pipe().expect("pipe");
    assert_eq!(rw::write(&w, b"hello").expect("write"), 5);
    let mut buf = vec![0u8; 5];
    assert_eq!(rw::read(&r, &mut buf).expect("read"), 5);
    assert_eq!(&buf, b"hello");
}

#[test]
fn vectored_write_then_read_in_order() {
    let (h, path) = scratch("vectored");
    let out = vec![b"ab".to_vec(), b"cde".to_vec()];
    assert_eq!(rw::writev(&h, &out).expect("writev"), 5);
    assert_eq!(fs::seek(&h, SeekFrom::Start(0)).expect("seek"), 0);
    let mut bufs = vec![vec![0u8; 2], vec![0u8; 3]];
    assert_eq!(rw::readv(&h, &mut bufs).expect("readv"), 5);
    assert_eq!(&bufs[0], b"ab");
    assert_eq!(&bufs[1], b"cde");
    cleanup(&path);
}

#[test]
fn positioned_vectored_fills_first_buffer_first() {
    let (h, path) = scratch("pvectored");
    rw::write(&h, b"hello").expect("write");
    let mut bufs = vec![vec![0u8; 4], vec![0u8; 4]];
    // Only five bytes exist: a short transfer, reported as a success.
    let n = rw::preadv(&h, &mut bufs, 0).expect("preadv");
    assert_eq!(n, 5);
    assert_eq!(&bufs[0], b"hell");
    assert_eq!(bufs[1][0], b'o');
    // The descriptor's own position is untouched by positioned transfer.
    assert_eq!(fs::tell(&h).expect("tell"), 5);
    cleanup(&path);
}

#[test]
fn positioned_vectored_write_in_order() {
    let (h, path) = scratch("pwritev");
    let out = vec![b"12".to_vec(), b"345".to_vec()];
    assert_eq!(rw::pwritev(&h, &out, 1).expect("pwritev"), 5);
    assert_eq!(fs::tell(&h).expect("tell"), 0);
    let mut back = vec![0u8; 5];
    assert_eq!(rw::pread(&h, &mut back, 1).expect("pread"), 5);
    assert_eq!(&back, b"12345");
    cleanup(&path);
}

#[test]
fn preadv_offset_overflow_rejected() {
    let (h, path) = scratch("preadv_overflow");
    let mut bufs = vec![vec![0u8; 1]];
    let r = rw::preadv(&h, &mut bufs, u64::MAX);
    assert_eq!(r.unwrap_err().code(), RAW_OVERFLOW);
    cleanup(&path);
}

#[test]
fn checked_total_len_sums_buffers() {
    let bufs = vec![vec![0u8; 2], vec![0u8; 3], vec![]];
    assert_eq!(rw::checked_total_len(&bufs), Some(5));
    assert_eq!(rw::checked_total_len(&Vec::new()), Some(0));
}

#[test]
fn flag_sets_round_trip_bits() {
    let f = OFlags::from_bits(OFLAG_RDWR | OFLAG_CREAT);
    assert_eq!(f.bits(), OFLAG_RDWR | OFLAG_CREAT);
    assert!(f.contains(OFlags::from_bits(OFLAG_CREAT)));
    assert!(!f.contains(OFlags::from_bits(OFLAG_TRUNC)));
    assert_eq!(f.union(OFlags::from_bits(OFLAG_TRUNC)).bits(), OFLAG_RDWR | OFLAG_CREAT | OFLAG_TRUNC);
    assert_eq!(f.intersection(OFlags::from_bits(OFLAG_CREAT)).bits(), OFLAG_CREAT);
    assert_eq!(OFlags::empty().bits(), 0);
    assert_eq!(OFLAG_RDONLY, 0);

    assert_eq!(Mode::from_bits(0o640).bits(), 0o640);
    assert_eq!(Mode::from_bits(0o170640).bits(), 0o640);
    assert_eq!(Mode::empty().bits(), 0);

    assert_eq!(DupFlags::cloexec().bits(), DUP_CLOEXEC);
    assert_eq!(DupFlags::from_bits(u32::MAX).bits(), DUP_CLOEXEC);
    assert_eq!(DupFlags::empty().bits(), 0);

    assert_eq!(FallocateFlags::from_bits(0x11).bits(), 0x11);
    assert_eq!(ReadWriteFlags::from_bits(0x3).union(ReadWriteFlags::from_bits(0x8)).bits(), 0xb);
}

#[test]
fn handles_wrap_platform_descriptors() {
    // Descriptors opened by other code enter the capability system
    // through the conversion constructors.
    let (r, w) = nix::unistd::pipe().expect("platform pipe");
    let owned_w = fdops::OwnedHandle::from_owned_fd(w);
    assert_eq!(rw::write(&owned_w, b"in").expect("write via wrapped owned"), 2);
    let borrowed_r = fdops::BorrowedHandle::from_borrowed_fd(r.as_fd());
    let mut buf = vec![0u8; 2];
    assert_eq!(rw::read(&borrowed_r, &mut buf).expect("read via wrapped loan"), 2);
    assert_eq!(&buf, b"in");
    // Ownership can leave the capability system again.
    let bare = fdops::OwnedHandle::from_owned_fd(r).into_owned_fd();
    drop(bare);
}

#[test]
fn checked_offset_converts_or_overflows() {
    assert_eq!(fdops::seek::checked_offset(0), Ok(0));
    assert_eq!(fdops::seek::checked_offset(i64::MAX as u64), Ok(i64::MAX));
    assert_eq!(
        fdops::seek::checked_offset(i64::MAX as u64 + 1).map_err(|e| e.code()),
        Err(RAW_OVERFLOW)
    );
}

#[test]
fn errno_carries_raw_code() {
    let e = Errno::from_raw(RAW_INVAL);
    assert_eq!(e.code(), RAW_INVAL);
    assert_eq!(e, Errno::from_raw(RAW_INVAL));
    assert_ne!(e, Errno::from_raw(RAW_OVERFLOW));
}
