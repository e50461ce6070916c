//! Access-mode decoding and the read/write probes.

use fdops::errno::{RAW_AGAIN, RAW_NOTSOCK, RAW_PIPE};
use fdops::flags::{OFLAG_CREAT, OFLAG_PATH, OFLAG_RDONLY, OFLAG_RDWR, OFLAG_TRUNC, OFLAG_WRONLY};
use fdops::fs;
use fdops::io;
use fdops::{Errno, Mode, OFlags};

fn make_file(name: &str) -> String {
    let path = format!("/tmp/fdops_{}", name);
    let flags = OFlags::from_bits(OFLAG_RDWR | OFLAG_CREAT | OFLAG_TRUNC);
    let h = fs::open(&path, flags, Mode::from_bits(0o600)).expect("create scratch file");
    fdops::close(h).expect("close scratch file");
    path
}

fn cleanup(path: &str) {
    let _ = nix::unistd::unlink(path);
}

#[test]
fn file_mode_pairs_match_open_mode() {
    let path = make_file("modes");
    let ro = fs::open(&path, OFlags::from_bits(OFLAG_RDONLY), Mode::empty()).expect("read-only");
    assert_eq!(fs::is_file_read_write(&ro).expect("query"), (true, false));
    let wo = fs::open(&path, OFlags::from_bits(OFLAG_WRONLY), Mode::empty()).expect("write-only");
    assert_eq!(fs::is_file_read_write(&wo).expect("query"), (false, true));
    let rwh = fs::open(&path, OFlags::from_bits(OFLAG_RDWR), Mode::empty()).expect("read-write");
    assert_eq!(fs::is_file_read_write(&rwh).expect("query"), (true, true));
    let po = fs::open(&path, OFlags::from_bits(OFLAG_PATH), Mode::empty()).expect("path-only");
    assert_eq!(fs::is_file_read_write(&po).expect("query"), (false, false));
    cleanup(&path);
}

#[test]
fn rw_mode_decoding_unit() {
    assert_eq!(fs::file_rw_mode(OFLAG_RDONLY), Some((true, false)));
    assert_eq!(fs::file_rw_mode(OFLAG_WRONLY), Some((false, true)));
    assert_eq!(fs::file_rw_mode(OFLAG_RDWR), Some((true, true)));
    assert_eq!(fs::file_rw_mode(OFLAG_PATH), Some((false, false)));
    assert_eq!(fs::file_rw_mode(OFLAG_PATH | OFLAG_RDWR), Some((false, false)));
    assert_eq!(fs::file_rw_mode(OFLAG_RDONLY | 0o100), Some((true, false)));
    // The undefined fourth access mode decodes to nothing.
    assert_eq!(fs::file_rw_mode(0o3), None);
}

#[test]
fn file_mode_decisions() {
    assert_eq!(fs::file_mode_decision(&Ok(OFLAG_RDWR)), Ok((true, true)));
    // A query failure is handed through unchanged.
    assert_eq!(
        fs::file_mode_decision(&Err(Errno::from_raw(9))),
        Err(Errno::from_raw(9))
    );
    // The undefined fourth access mode is reported as invalid.
    assert_eq!(
        fs::file_mode_decision(&Ok(0o3)).map_err(|e| e.code()),
        Err(22)
    );
}

#[test]
fn isatty_fold_decisions() {
    assert!(io::isatty_fold(&Ok(true)));
    assert!(!io::isatty_fold(&Ok(false)));
    assert!(!io::isatty_fold(&Err(Errno::from_raw(9))));
}

#[test]
fn general_query_matches_file_query_on_files() {
    let path = make_file("general");
    let rwh = fs::open(&path, OFlags::from_bits(OFLAG_RDWR), Mode::empty()).expect("read-write");
    assert_eq!(io::is_read_write(&rwh).expect("query"), (true, true));
    cleanup(&path);
}

#[test]
fn general_query_on_pipe_ends() {
    let (r, w) = io::pipe().expect("pipe");
    assert_eq!(io::is_read_write(&r).expect("read end"), (true, false));
    assert_eq!(io::is_read_write(&w).expect("write end"), (false, true));
}

#[test]
fn read_probe_decisions() {
    assert_eq!(io::read_probe_decision(&Ok(0)), Ok((false, false)));
    assert_eq!(io::read_probe_decision(&Ok(1)), Ok((true, false)));
    assert_eq!(io::read_probe_decision(&Err(Errno::from_raw(RAW_AGAIN))), Ok((true, false)));
    assert_eq!(io::read_probe_decision(&Err(Errno::from_raw(RAW_NOTSOCK))), Ok((true, true)));
    assert_eq!(
        io::read_probe_decision(&Err(Errno::from_raw(9))),
        Err(Errno::from_raw(9))
    );
}

#[test]
fn write_probe_decisions() {
    assert_eq!(io::write_probe_decision(&Ok(0)), Ok(true));
    assert_eq!(io::write_probe_decision(&Err(Errno::from_raw(RAW_PIPE))), Ok(false));
    assert_eq!(io::write_probe_decision(&Err(Errno::from_raw(RAW_AGAIN))), Ok(true));
    assert_eq!(io::write_probe_decision(&Err(Errno::from_raw(RAW_NOTSOCK))), Ok(true));
    assert_eq!(
        io::write_probe_decision(&Err(Errno::from_raw(5))),
        Err(Errno::from_raw(5))
    );
}

#[test]
fn open_missing_file_reports_platform_code() {
    let r = fs::open("/tmp/fdops_no_such_file", OFlags::from_bits(OFLAG_RDONLY), Mode::empty());
    // "no such file or directory"
    assert_eq!(r.err().map(|e| e.code()), Some(2));
}

#[test]
fn seek_on_pipe_reports_platform_code() {
    let (r, _w) = io::pipe().expect("pipe");
    let res = fs::seek(&r, fdops::SeekFrom::Current(0));
    // "illegal seek"
    assert_eq!(res.err().map(|e| e.code()), Some(29));
}

#[test]
fn isatty_false_for_regular_file() {
    let path = make_file("notatty");
    let h = fs::open(&path, OFlags::from_bits(OFLAG_RDONLY), Mode::empty()).expect("open");
    assert!(!io::isatty(&h));
    cleanup(&path);
}

#[test]
fn ttyname_fails_for_regular_file() {
    let path = make_file("noname");
    let h = fs::open(&path, OFlags::from_bits(OFLAG_RDONLY), Mode::empty()).expect("open");
    assert!(io::ttyname(&h, String::new()).is_err());
    cleanup(&path);
}
