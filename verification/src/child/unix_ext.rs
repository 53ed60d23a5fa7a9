//! Signals for spawned processes and groups.

use crate::child::{Child, GroupChild};
use crate::error::SignalFailure;
use nix::sys::signal::Signal;
use vstd::prelude::*;

verus! {

/// Unix-specific extension of the handles: sending a signal.
pub trait UnixChildExt: Sized {
    /// Sends a signal to the child: to the process, or to every process of
    /// the group. Where the target has exited already the system rejects the
    /// signal, and the call fails with [`SignalFailure::AlreadyExited`].
    ///
    /// Sending a signal changes nothing in the handle.
    fn signal(&mut self, sig: Signal) -> (res: Result<(), SignalFailure>)
        ensures
            *final(self) == *old(self),
            res matches Err(failure) ==> failure.well_formed(),
    ;
}

impl UnixChildExt for GroupChild {
    fn signal(&mut self, sig: Signal) -> (res: Result<(), SignalFailure>) {
        self.signal_imp(sig)
    }
}

impl UnixChildExt for Child {
    fn signal(&mut self, sig: Signal) -> (res: Result<(), SignalFailure>) {
        self.signal_imp(sig)
    }
}

} // verus!
