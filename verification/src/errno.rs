//! The portable error value returned by every fallible operation.
//!
//! The taxonomy is flat: each failure carries the platform's raw error
//! code, translated one-for-one from the operating system.  The facade
//! never interprets or recovers from a failure itself.

use vstd::prelude::*;

verus! {

/// Raw platform code for "resource temporarily unavailable".
pub const RAW_AGAIN: i32 = 11;
/// Raw platform code for "invalid argument".
pub const RAW_INVAL: i32 = 22;
/// Raw platform code for "broken pipe".
pub const RAW_PIPE: i32 = 32;
/// Raw platform code for "value too large for defined data type".
pub const RAW_OVERFLOW: i32 = 75;
/// Raw platform code for "socket operation on non-socket".
pub const RAW_NOTSOCK: i32 = 88;

/// A single portable error value: the platform's raw failure code,
/// carried through unchanged.
#[derive(Clone, Copy, PartialEq, Eq, Structural, Debug)]
pub struct Errno {
    code: i32,
}

impl Errno {
    /// The raw platform code this error carries.
    pub closed spec fn spec_code(self) -> i32 {
        self.code
    }

    /// Wraps a raw platform error code.
    pub fn from_raw(code: i32) -> (r: Errno)
        ensures
            r.spec_code() == code,
    {
        Errno { code }
    }

    /// Returns the raw platform code.
    pub fn code(&self) -> (r: i32)
        ensures
            r == self.spec_code(),
    {
        self.code
    }

    /// The error used when a caller-supplied quantity does not fit the
    /// platform's signed offset type.
    pub fn overflow() -> (r: Errno)
        ensures
            r.spec_code() == RAW_OVERFLOW,
    {
        Errno { code: RAW_OVERFLOW }
    }

    /// The invalid-argument error, at the specification level.
    pub closed spec fn spec_invalid() -> Errno {
        Errno { code: RAW_INVAL }
    }

    /// The error used when an argument is rejected before reaching the
    /// platform, mirroring what the platform itself would report.
    pub fn invalid() -> (r: Errno)
        ensures
            r == Errno::spec_invalid(),
            r.spec_code() == RAW_INVAL,
    {
        Errno { code: RAW_INVAL }
    }
}

} // verus!
