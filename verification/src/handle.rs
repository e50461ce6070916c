//! Descriptor-ownership capabilities.
//!
//! An [`OwnedHandle`] exclusively owns a descriptor and releases it exactly
//! once when it goes out of scope, on every path including error returns.
//! A [`BorrowedHandle`] is a non-owning reference valid only for the call
//! it is passed into.  Every operation of this crate accepts anything that
//! implements [`AsHandle`]; none ever receives or fabricates a raw
//! descriptor number.

use vstd::prelude::*;
use crate::errno::Errno;
use crate::sys;

verus! {

/// Declares the platform's owned-descriptor type, whose destructor
/// releases the descriptor.
#[verifier::external_type_specification]
#[verifier::external_body]
pub struct ExOwnedFd(io_lifetimes::OwnedFd);

/// Declares the platform's borrowed-descriptor type, a non-owning
/// reference bounded by the lifetime it was borrowed for.
#[verifier::external_type_specification]
#[verifier::external_body]
pub struct ExBorrowedFd<'a>(io_lifetimes::BorrowedFd<'a>);

/// Exclusive ownership of an open descriptor.  Dropping the handle
/// closes the descriptor exactly once.
pub struct OwnedHandle {
    pub(crate) fd: io_lifetimes::OwnedFd,
}

/// A non-owning loan of a descriptor, valid for the lexical duration it
/// is passed into an operation; it carries no release responsibility.
pub struct BorrowedHandle<'a> {
    pub(crate) fd: io_lifetimes::BorrowedFd<'a>,
}

/// The capability every operation accepts: anything that can produce a
/// temporary loan of its descriptor.
pub trait AsHandle {
    /// Borrows the descriptor for the duration of a call.
    fn as_handle<'s>(&'s self) -> BorrowedHandle<'s>;
}

impl AsHandle for OwnedHandle {
    fn as_handle<'s>(&'s self) -> BorrowedHandle<'s> {
        BorrowedHandle { fd: sys::borrow_fd(&self.fd) }
    }
}

impl<'a> AsHandle for BorrowedHandle<'a> {
    fn as_handle<'s>(&'s self) -> BorrowedHandle<'s> {
        BorrowedHandle { fd: sys::reborrow_fd(&self.fd) }
    }
}

impl OwnedHandle {
    /// Takes exclusive ownership of an already-open platform
    /// descriptor, such as one received from another library.
    pub fn from_owned_fd(fd: io_lifetimes::OwnedFd) -> OwnedHandle {
        OwnedHandle { fd }
    }

    /// Gives up the capability wrapper and hands the bare platform
    /// descriptor back, ownership included.
    pub fn into_owned_fd(self) -> io_lifetimes::OwnedFd {
        self.fd
    }
}

impl<'a> BorrowedHandle<'a> {
    /// Wraps a platform loan of a descriptor — the standard streams,
    /// or one borrowed from another library — for the loan's duration.
    pub fn from_borrowed_fd(fd: io_lifetimes::BorrowedFd<'a>) -> BorrowedHandle<'a> {
        BorrowedHandle { fd }
    }

    /// Loans the bare platform descriptor back out.
    pub fn as_borrowed_fd(&self) -> io_lifetimes::BorrowedFd<'_> {
        sys::reborrow_fd(&self.fd)
    }
}

/// The capability ownership-transferring operations require: anything
/// that can give up exclusive ownership of its descriptor.
pub trait IntoHandle {
    /// Transfers ownership of the descriptor to the caller.
    fn into_handle(self) -> OwnedHandle;
}

impl IntoHandle for OwnedHandle {
    fn into_handle(self) -> OwnedHandle {
        self
    }
}

/// Releases an owned handle now instead of at scope exit, reporting any
/// failure the platform signals while closing.
pub fn close(h: OwnedHandle) -> Result<(), Errno> {
    sys::close_handle(h)
}

} // verus!
