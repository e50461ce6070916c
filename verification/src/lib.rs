//! A portable, type-safe facade over low-level file-descriptor operations.
//!
//! Callers hold descriptor capabilities (owned or borrowed handles) rather
//! than raw integers, and invoke seeking, metadata queries, duplication and
//! data transfer through checked, contract-carrying entry points.  Each
//! operation makes a single platform request through the backend module and
//! maps the raw outcome into a portable result.

pub mod errno;
pub mod flags;
pub mod handle;
pub mod seek;
mod sys;
pub mod fs;
pub mod io;
pub mod rw;
pub mod model;

pub use errno::Errno;
pub use flags::{DupFlags, FallocateFlags, Mode, OFlags, ReadWriteFlags};
pub use handle::{AsHandle, BorrowedHandle, IntoHandle, OwnedHandle, close};
pub use seek::SeekFrom;
