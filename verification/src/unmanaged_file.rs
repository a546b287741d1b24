//! A view of an open descriptor that does not own it.

use vstd::prelude::*;
use crate::libc_wrapper::{descriptor, descriptor_of};

verus! {

/// A file that is not closed upon leaving scope: a view of the descriptor
/// behind a handle, made for one request. The descriptor belongs to the
/// bracket of open and release, so disposing of the view closes nothing.
#[derive(Debug)]
pub struct UnmanagedFile {
    fd: i32,
}

impl UnmanagedFile {
    /// The descriptor that the view reads through.
    pub closed spec fn fd(&self) -> i32 {
        self.fd
    }

    /// A view of the descriptor behind `fd`.
    pub fn new(fd: u64) -> (file: Self)
        ensures
            file.fd() == descriptor_of(fd),
    {
        Self { fd: descriptor(fd) }
    }

    /// The descriptor, for a call of the operating system.
    pub fn as_raw_fd(&self) -> (fd: i32)
        ensures
            fd == self.fd(),
    {
        self.fd
    }

    /// Disposes of the view and hands the descriptor back, still open.
    pub fn into_raw_fd(self) -> (fd: i32)
        ensures
            fd == self.fd(),
    {
        self.fd
    }
}

} // verus!
