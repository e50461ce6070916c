//! The portable seek vocabulary: an origin plus a signed delta.

use vstd::prelude::*;
use crate::errno::{Errno, RAW_OVERFLOW};

verus! {

/// Converts a caller-supplied absolute offset or length into the
/// platform's signed offset type, reporting as an overflow a value the
/// type cannot express.
pub fn checked_offset(value: u64) -> (r: Result<i64, Errno>)
    ensures
        value <= i64::MAX ==> r == Ok::<i64, Errno>(value as i64),
        value > i64::MAX ==> (r matches Err(e) && e.spec_code() == RAW_OVERFLOW),
{
    if value > i64::MAX as u64 {
        Err(Errno::overflow())
    } else {
        Ok(value as i64)
    }
}

/// A position to seek to within a file: an origin plus a signed delta.
pub enum SeekFrom {
    /// An absolute offset from the beginning of the file.
    Start(u64),
    /// A signed delta from the current position.
    Current(i64),
    /// A signed delta from the end of the file.
    End(i64),
}

/// Whether the platform's signed offset argument can carry this seek
/// specification at all: only an absolute offset beyond the signed range
/// cannot be expressed.
pub open spec fn seek_representable(pos: SeekFrom) -> bool {
    match pos {
        SeekFrom::Start(p) => p <= i64::MAX,
        SeekFrom::Current(_) => true,
        SeekFrom::End(_) => true,
    }
}

impl SeekFrom {
    /// Whether this seek specification fits the platform's signed offset
    /// argument.
    pub fn is_representable(&self) -> (r: bool)
        ensures
            r == seek_representable(*self),
    {
        match self {
            SeekFrom::Start(p) => *p <= i64::MAX as u64,
            SeekFrom::Current(_) => true,
            SeekFrom::End(_) => true,
        }
    }
}

} // verus!
