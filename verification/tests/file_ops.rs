//! File-backed scenarios: positioning, transfer, metadata.

use fdops::errno::{RAW_INVAL, RAW_OVERFLOW};
use fdops::flags::{OFLAG_CREAT, OFLAG_RDWR, OFLAG_TRUNC};
use fdops::fs;
use fdops::fs::Timespec;
use fdops::rw;
use fdops::{Mode, OFlags, OwnedHandle, SeekFrom};

fn scratch(name: &str) -> (OwnedHandle, String) {
    let path = format!("/tmp/fdops_{}", name);
    let flags = OFlags::from_bits(OFLAG_RDWR | OFLAG_CREAT | OFLAG_TRUNC);
    let h = fs::open(&path, flags, Mode::from_bits(0o600)).expect("open scratch file");
    (h, path)
}

fn cleanup(path: &str) {
    let _ = nix::unistd::unlink(path);
}

#[test]
fn write_seek_read_round_trip() {
    let (h, path) = scratch("round_trip");
    let data: Vec<u8> = (0..100u32).map(|i| (i * 7 % 256) as u8).collect();
    let n = rw::write(&h, &data).expect("write");
    assert_eq!(n, 100);
    let pos = fs::seek(&h, SeekFrom::Start(0)).expect("seek");
    assert_eq!(pos, 0);
    let mut back = vec![0u8; 100];
    let m = rw::read(&h, &mut back).expect("read");
    assert_eq!(m, 100);
    assert_eq!(back, data);
    cleanup(&path);
}

#[test]
fn seek_then_tell() {
    let (h, path) = scratch("seek_tell");
    let n = rw::write(&h, &[9u8; 10]).expect("write");
    assert_eq!(n, 10);
    assert_eq!(fs::seek(&h, SeekFrom::Start(3)).expect("absolute seek"), 3);
    assert_eq!(fs::seek(&h, SeekFrom::Current(4)).expect("relative seek"), 7);
    assert_eq!(fs::tell(&h).expect("tell"), 7);
    assert_eq!(fs::seek(&h, SeekFrom::End(-2)).expect("seek from end"), 8);
    cleanup(&path);
}

#[test]
fn tell_is_idempotent() {
    let (h, path) = scratch("tell_twice");
    rw::write(&h, b"abcdef").expect("write");
    let first = fs::tell(&h).expect("first tell");
    let second = fs::tell(&h).expect("second tell");
    assert_eq!(first, 6);
    assert_eq!(second, first);
    cleanup(&path);
}

#[test]
fn seek_before_start_fails() {
    let (h, path) = scratch("seek_negative");
    let r = fs::seek(&h, SeekFrom::Current(-5));
    assert!(r.is_err());
    cleanup(&path);
}

#[test]
fn seek_unrepresentable_start_rejected() {
    let (h, path) = scratch("seek_huge");
    let r = fs::seek(&h, SeekFrom::Start(u64::MAX));
    assert_eq!(r.unwrap_err().code(), RAW_INVAL);
    cleanup(&path);
}

#[test]
fn positioned_transfer_leaves_tell() {
    let (h, path) = scratch("positioned");
    rw::write(&h, b"xxxxxxxx").expect("write");
    assert_eq!(fs::seek(&h, SeekFrom::Start(4)).expect("seek"), 4);
    let n = rw::pwrite(&h, b"ab", 0).expect("pwrite");
    assert_eq!(n, 2);
    assert_eq!(fs::tell(&h).expect("tell after pwrite"), 4);
    let mut buf = vec![0u8; 2];
    let m = rw::pread(&h, &mut buf, 0).expect("pread");
    assert_eq!(m, 2);
    assert_eq!(&buf, b"ab");
    assert_eq!(fs::tell(&h).expect("tell after pread"), 4);
    cleanup(&path);
}

#[test]
fn pread_offset_overflow_rejected() {
    let (h, path) = scratch("pread_overflow");
    let mut buf = vec![0u8; 1];
    let r = rw::pread(&h, &mut buf, u64::MAX);
    assert_eq!(r.unwrap_err().code(), RAW_OVERFLOW);
    cleanup(&path);
}

#[test]
fn truncate_then_stat_size() {
    let (h, path) = scratch("truncate");
    rw::write(&h, &[1u8; 32]).expect("write");
    fs::ftruncate(&h, 7).expect("shrink");
    assert_eq!(fs::fstat(&h).expect("stat after shrink").size, 7);
    fs::ftruncate(&h, 200).expect("extend");
    assert_eq!(fs::fstat(&h).expect("stat after extend").size, 200);
    cleanup(&path);
}

#[test]
fn ftruncate_overflow_rejected() {
    let (h, path) = scratch("truncate_overflow");
    let r = fs::ftruncate(&h, u64::MAX);
    assert_eq!(r.unwrap_err().code(), RAW_OVERFLOW);
    cleanup(&path);
}

#[test]
fn fallocate_reserves_size() {
    let (h, path) = scratch("fallocate");
    fs::fallocate(&h, fdops::FallocateFlags::empty(), 0, 64).expect("fallocate");
    assert_eq!(fs::fstat(&h).expect("stat").size, 64);
    cleanup(&path);
}

#[test]
fn fallocate_overflow_rejected() {
    let (h, path) = scratch("fallocate_overflow");
    let r = fs::fallocate(&h, fdops::FallocateFlags::empty(), u64::MAX, 1);
    assert_eq!(r.unwrap_err().code(), RAW_OVERFLOW);
    cleanup(&path);
}

#[test]
fn fchmod_then_stat_mode() {
    let (h, path) = scratch("chmod");
    fs::fchmod(&h, Mode::from_bits(0o640)).expect("fchmod");
    let st = fs::fstat(&h).expect("stat");
    assert_eq!(st.mode & 0o7777, 0o640);
    cleanup(&path);
}

#[test]
fn futimens_then_stat_times() {
    let (h, path) = scratch("utimens");
    let atime = Timespec { secs: 12345, nanos: 678 };
    let mtime = Timespec { secs: 9876, nanos: 54321 };
    fs::futimens(&h, &atime, &mtime).expect("futimens");
    let st = fs::fstat(&h).expect("stat");
    assert_eq!(st.atime_sec, 12345);
    assert_eq!(st.atime_nsec, 678);
    assert_eq!(st.mtime_sec, 9876);
    assert_eq!(st.mtime_nsec, 54321);
    cleanup(&path);
}

#[test]
fn futimens_invalid_nanos_rejected() {
    let (h, path) = scratch("utimens_invalid");
    let bad = Timespec { secs: 0, nanos: 2_000_000_000 };
    let good = Timespec { secs: 0, nanos: 0 };
    let r = fs::futimens(&h, &bad, &good);
    assert_eq!(r.unwrap_err().code(), RAW_INVAL);
    cleanup(&path);
}

#[test]
fn sync_operations_succeed() {
    let (h, path) = scratch("sync");
    rw::write(&h, b"durable").expect("write");
    fs::fsync(&h).expect("fsync");
    fs::fdatasync(&h).expect("fdatasync");
    cleanup(&path);
}

#[test]
fn fstatfs_reports_sane_filesystem() {
    let (h, path) = scratch("statfs");
    let sf = fs::fstatfs(&h).expect("fstatfs");
    assert!(sf.block_size > 0);
    assert!(sf.blocks >= sf.blocks_free);
    assert!(sf.blocks_free >= sf.blocks_available);
    cleanup(&path);
}
