//! Reference accounting for a shared file descriptor.
//!
//! A descriptor wrapper is reference-counted on its thread; the descriptor
//! stays valid precisely while at least one reference exists.  The last drop
//! must invalidate it: through a `close` operation scheduled on the driver
//! while one is installed, or by a synchronous close once the runtime has
//! already gone away — the moment of the last drop may outlive the runtime.

use vstd::prelude::*;

verus! {

/// Reference-count record for one raw descriptor.
pub struct SharedFdState {
    refs: u64,
    fd: i32,
}

/// What a dropped reference obliges the embedding runtime to do.
#[derive(PartialEq, Eq, Structural)]
pub enum CloseAction {
    /// Other references remain; the descriptor stays open.
    Keep,
    /// Last reference, driver installed: schedule a `close` operation.
    ScheduleClose,
    /// Last reference, no driver any more: close synchronously, now.
    SyncClose,
}

impl SharedFdState {
    /// How many references exist.
    pub closed spec fn refs(self) -> u64 {
        self.refs
    }

    /// The raw descriptor the record accounts for.
    pub closed spec fn fd(self) -> i32 {
        self.fd
    }

    /// Account for a freshly wrapped descriptor: one reference.
    pub fn new(fd: i32) -> (s: SharedFdState)
        ensures
            s.refs() == 1,
            s.fd() == fd,
    {
        SharedFdState { refs: 1, fd }
    }

    /// The raw descriptor, for building submission entries.  Valid while
    /// `refs() > 0`.
    pub fn raw_fd(&self) -> (fd: i32)
        ensures
            fd == self.fd(),
    {
        self.fd
    }

    /// Account for one more reference: an operation in flight against the
    /// descriptor must hold one so the descriptor cannot close under it.
    pub fn clone_ref(&mut self)
        requires
            old(self).refs() >= 1,
            old(self).refs() < u64::MAX,
        ensures
            final(self).refs() == old(self).refs() + 1,
            final(self).fd() == old(self).fd(),
    {
        self.refs = self.refs + 1;
    }

    /// Account for one dropped reference.  Exactly the last drop commands a
    /// close — scheduled through the driver while one is installed, else
    /// synchronous — so the descriptor is invalidated even when the wrapper
    /// outlives the runtime.
    pub fn drop_ref(&mut self, driver_installed: bool) -> (act: CloseAction)
        requires
            old(self).refs() >= 1,
        ensures
            final(self).refs() == old(self).refs() - 1,
            final(self).fd() == old(self).fd(),
            (act == CloseAction::Keep) <==> final(self).refs() > 0,
            (act == CloseAction::ScheduleClose) <==> (final(self).refs() == 0 && driver_installed),
            (act == CloseAction::SyncClose) <==> (final(self).refs() == 0 && !driver_installed),
    {
        self.refs = self.refs - 1;
        if self.refs > 0 {
            CloseAction::Keep
        } else if driver_installed {
            CloseAction::ScheduleClose
        } else {
            CloseAction::SyncClose
        }
    }
}

} // verus!
