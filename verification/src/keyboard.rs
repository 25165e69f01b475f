//! The keyboard side of the translation: the handle the embedding program
//! reads raw records from. Opening the device, the blocking wait and the
//! non-blocking read are the embedding program's work; the library only
//! carries the descriptor as a plain value.

use vstd::prelude::*;

verus! {

/// A file descriptor of an opened keyboard device.
#[derive(Debug, Clone, Copy, PartialEq, Eq, Structural)]
pub struct KeyboardFd {
    fd: i32,
}

impl KeyboardFd {
    /// The descriptor this handle carries.
    pub closed spec fn spec_fd(self) -> i32 {
        self.fd
    }

    /// Wrap a descriptor the embedding program has opened.
    pub fn new(fd: i32) -> (r: KeyboardFd)
        ensures
            r.spec_fd() == fd,
    {
        KeyboardFd { fd }
    }

    /// The descriptor, for the embedding program's read calls.
    pub fn fd(&self) -> (r: i32)
        ensures
            r == self.spec_fd(),
    {
        self.fd
    }
}

} // verus!
