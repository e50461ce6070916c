//! Portable flag sets: typed bitmasks whose legal bit positions are
//! fixed per target.
//!
//! Every flag type exists on every target; on a target lacking a feature
//! the type simply has no settable bits, so calling code degrades to an
//! empty set instead of failing to compile.  The bit values below are the
//! target platform's native ones, so packing a flag set for a call is the
//! identity on its bits.

use vstd::prelude::*;

verus! {

/// Open-for-reading-only access mode bits.
pub const OFLAG_RDONLY: u32 = 0o0;
/// Open-for-writing-only access mode bits.
pub const OFLAG_WRONLY: u32 = 0o1;
/// Open-for-reading-and-writing access mode bits.
pub const OFLAG_RDWR: u32 = 0o2;
/// Mask covering the read/write access mode bits alone.
pub const OFLAG_RWMODE: u32 = 0o3;
/// Create the file if it does not exist.
pub const OFLAG_CREAT: u32 = 0o100;
/// Truncate the file to length zero on open.
pub const OFLAG_TRUNC: u32 = 0o1000;
/// Every write appends to the end of the file.
pub const OFLAG_APPEND: u32 = 0o2000;
/// Open the descriptor only to reference a location, not to transfer data.
pub const OFLAG_PATH: u32 = 0o10000000;
/// Close the descriptor automatically when a new program image starts.
pub const OFLAG_CLOEXEC: u32 = 0o2000000;

/// Flags controlling how a file is opened, including its access mode.
#[derive(Clone, Copy, PartialEq, Eq, Structural, Debug)]
pub struct OFlags {
    bits: u32,
}

impl OFlags {
    /// The raw bit pattern of this flag set.
    pub closed spec fn spec_bits(self) -> u32 {
        self.bits
    }

    /// The empty flag set.
    pub fn empty() -> (r: OFlags)
        ensures
            r.spec_bits() == 0u32,
    {
        OFlags { bits: 0 }
    }

    /// Builds a flag set from a raw bit pattern.
    pub fn from_bits(bits: u32) -> (r: OFlags)
        ensures
            r.spec_bits() == bits,
    {
        OFlags { bits }
    }

    /// Returns the raw bit pattern.
    pub fn bits(&self) -> (r: u32)
        ensures
            r == self.spec_bits(),
    {
        self.bits
    }

    /// Whether every bit of `other` is set in `self`.
    pub fn contains(&self, other: OFlags) -> (r: bool)
        ensures
            r == (self.spec_bits() & other.spec_bits() == other.spec_bits()),
    {
        self.bits & other.bits == other.bits
    }

    /// The union of two flag sets.
    pub fn union(self, other: OFlags) -> (r: OFlags)
        ensures
            r.spec_bits() == self.spec_bits() | other.spec_bits(),
    {
        OFlags { bits: self.bits | other.bits }
    }

    /// The intersection of two flag sets.
    pub fn intersection(self, other: OFlags) -> (r: OFlags)
        ensures
            r.spec_bits() == self.spec_bits() & other.spec_bits(),
    {
        OFlags { bits: self.bits & other.bits }
    }
}

/// Permission bits for the owning user, the group, and others.
#[derive(Clone, Copy, PartialEq, Eq, Structural, Debug)]
pub struct Mode {
    bits: u32,
}

impl Mode {
    /// The raw permission bit pattern.
    pub closed spec fn spec_bits(self) -> u32 {
        self.bits
    }

    /// No permission bits set.
    pub fn empty() -> (r: Mode)
        ensures
            r.spec_bits() == 0u32,
    {
        Mode { bits: 0 }
    }

    /// Builds a permission set from a raw bit pattern, keeping only the
    /// twelve permission bits.
    pub fn from_bits(bits: u32) -> (r: Mode)
        ensures
            r.spec_bits() == bits & 0o7777u32,
    {
        Mode { bits: bits & 0o7777 }
    }

    /// Returns the raw permission bit pattern.
    pub fn bits(&self) -> (r: u32)
        ensures
            r == self.spec_bits(),
    {
        self.bits
    }
}

/// The close-on-program-start property for a freshly duplicated descriptor.
pub const DUP_CLOEXEC: u32 = 0o2000000;

/// Flags for descriptor duplication onto a chosen target slot.
#[derive(Clone, Copy, PartialEq, Eq, Structural, Debug)]
pub struct DupFlags {
    bits: u32,
}

impl DupFlags {
    /// The raw bit pattern of this flag set.
    pub closed spec fn spec_bits(self) -> u32 {
        self.bits
    }

    /// The empty flag set.
    pub fn empty() -> (r: DupFlags)
        ensures
            r.spec_bits() == 0u32,
    {
        DupFlags { bits: 0 }
    }

    /// Builds a flag set from a raw bit pattern, keeping only the legal bit.
    pub fn from_bits(bits: u32) -> (r: DupFlags)
        ensures
            r.spec_bits() == bits & DUP_CLOEXEC,
    {
        DupFlags { bits: bits & DUP_CLOEXEC }
    }

    /// The set holding the close-on-program-start bit.
    pub fn cloexec() -> (r: DupFlags)
        ensures
            r.spec_bits() == DUP_CLOEXEC,
    {
        DupFlags { bits: DUP_CLOEXEC }
    }

    /// Returns the raw bit pattern.
    pub fn bits(&self) -> (r: u32)
        ensures
            r == self.spec_bits(),
    {
        self.bits
    }
}

/// Reserve space without changing the reported file size.
pub const FALLOC_KEEP_SIZE: u32 = 0x01;
/// Deallocate a byte range, leaving a hole.
pub const FALLOC_PUNCH_HOLE: u32 = 0x02;
/// Remove a byte range and close the gap.
pub const FALLOC_COLLAPSE_RANGE: u32 = 0x08;
/// Zero a byte range.
pub const FALLOC_ZERO_RANGE: u32 = 0x10;

/// Mode flags for space preallocation.  On platforms offering only the
/// baseline behavior no bits are defined and only the empty set occurs.
#[derive(Clone, Copy, PartialEq, Eq, Structural, Debug)]
pub struct FallocateFlags {
    bits: u32,
}

impl FallocateFlags {
    /// The raw bit pattern of this flag set.
    pub closed spec fn spec_bits(self) -> u32 {
        self.bits
    }

    /// The empty flag set: plain space reservation.
    pub fn empty() -> (r: FallocateFlags)
        ensures
            r.spec_bits() == 0u32,
    {
        FallocateFlags { bits: 0 }
    }

    /// Builds a flag set from a raw bit pattern.
    pub fn from_bits(bits: u32) -> (r: FallocateFlags)
        ensures
            r.spec_bits() == bits,
    {
        FallocateFlags { bits }
    }

    /// Returns the raw bit pattern.
    pub fn bits(&self) -> (r: u32)
        ensures
            r == self.spec_bits(),
    {
        self.bits
    }
}

/// High-priority request using polled rather than interrupt-driven access.
pub const RWF_HIPRI: u32 = 0x1;
/// Per-write data-durability, as if the descriptor had been opened with
/// data-synchronized writes.
pub const RWF_DSYNC: u32 = 0x2;
/// Per-write full durability, as if the descriptor had been opened with
/// synchronized writes.
pub const RWF_SYNC: u32 = 0x4;
/// Do not wait for data that is not immediately available.
pub const RWF_NOWAIT: u32 = 0x8;
/// Per-write append semantics.
pub const RWF_APPEND: u32 = 0x10;

/// Per-call behavioral flags for the flagged positioned-vectored
/// transfer operations.
#[derive(Clone, Copy, PartialEq, Eq, Structural, Debug)]
pub struct ReadWriteFlags {
    bits: u32,
}

impl ReadWriteFlags {
    /// The raw bit pattern of this flag set.
    pub closed spec fn spec_bits(self) -> u32 {
        self.bits
    }

    /// The empty flag set.
    pub fn empty() -> (r: ReadWriteFlags)
        ensures
            r.spec_bits() == 0u32,
    {
        ReadWriteFlags { bits: 0 }
    }

    /// Builds a flag set from a raw bit pattern.
    pub fn from_bits(bits: u32) -> (r: ReadWriteFlags)
        ensures
            r.spec_bits() == bits,
    {
        ReadWriteFlags { bits }
    }

    /// Returns the raw bit pattern.
    pub fn bits(&self) -> (r: u32)
        ensures
            r == self.spec_bits(),
    {
        self.bits
    }

    /// The union of two flag sets.
    pub fn union(self, other: ReadWriteFlags) -> (r: ReadWriteFlags)
        ensures
            r.spec_bits() == self.spec_bits() | other.spec_bits(),
    {
        ReadWriteFlags { bits: self.bits | other.bits }
    }
}

} // verus!
