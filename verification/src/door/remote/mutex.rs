//! The lock on the air: remotes send on one frequency, so only one may send at a time.

use vstd::prelude::*;

verus! {

/// The lock that all remotes share. It is held by at most one line at a time, and
/// nobody waits inside it: a remote that finds it taken comes back later.
#[derive(Debug, PartialEq, Eq)]
pub struct RemoteMutex {
    holder: Option<u8>,
}

impl View for RemoteMutex {
    /// The line that holds the lock, if any does.
    type V = Option<u8>;

    closed spec fn view(&self) -> Option<u8> {
        self.holder
    }
}

impl RemoteMutex {
    /// A lock that nobody holds.
    pub fn new() -> (mutex: RemoteMutex)
        ensures
            mutex@ is None,
    {
        RemoteMutex { holder: None }
    }

    /// The line that holds the lock, if any does.
    pub fn holder(&self) -> (holder: Option<u8>)
        ensures
            holder == self@,
    {
        self.holder
    }

    /// Takes the lock for `line`, if nobody holds it. Tells whether `line` now
    /// holds it by this call; a lock that is held stays with its holder.
    pub fn lock(&mut self, line: u8) -> (granted: bool)
        ensures
            granted == (old(self)@ is None),
            final(self)@ == (if granted {
                Some(line)
            } else {
                old(self)@
            }),
    {
        match self.holder {
            Some(_) => false,
            None => {
                self.holder = Some(line);
                true
            },
        }
    }

    /// Gives the lock back, if `line` is the one that holds it. Nobody can give
    /// back a lock that another holds.
    pub fn unlock(&mut self, line: u8)
        ensures
            final(self)@ == (if old(self)@ == Some(line) {
                None
            } else {
                old(self)@
            }),
    {
        match self.holder {
            Some(holder) => {
                if holder == line {
                    self.holder = None;
                }
            },
            None => {},
        }
    }
}

} // verus!
