//! The calls into the operating system, through `nix`.
//!
//! Nothing in this file is proved. Each item says what it takes from `nix`
//! and what it claims of it.

use nix::sys::signal::{kill, killpg, Signal};
use nix::unistd::Pid;
use vstd::prelude::*;

verus! {

/// `nix::sys::signal::Signal`, the signals of the operating system. A value
/// is carried to the system unread.
#[verifier::external_type_specification]
#[verifier::external_body]
pub struct ExSignal(Signal);

/// `Signal::SIGKILL`, the signal that can be neither caught nor ignored.
/// Naming it does not panic.
#[verifier::external_body]
pub(crate) fn sigkill() -> Signal
    opens_invariants none
    no_unwind
{
    Signal::SIGKILL
}

/// `nix::sys::signal::kill` on a positive id, which names one process. The
/// answer depends on the system, so nothing is claimed of it; a rejection
/// comes back as the number of its `Errno`.
#[verifier::external_body]
pub(crate) fn kill_process(pid: i32, sig: Signal) -> (res: Result<(), i32>)
    requires
        pid > 0,
{
    kill(Pid::from_raw(pid), sig).map_err(|errno| errno as i32)
}

/// `nix::sys::signal::killpg` on an id above 1, below which its behaviour
/// differs between platforms. The answer depends on the system, so nothing is
/// claimed of it but that the call comes back without a panic; a rejection
/// comes back as the number of its `Errno`.
#[verifier::external_body]
pub(crate) fn kill_group(pgid: i32, sig: Signal) -> (res: Result<(), i32>)
    requires
        pgid > 1,
    opens_invariants none
    no_unwind
{
    killpg(Pid::from_raw(pgid), sig).map_err(|errno| errno as i32)
}

} // verus!
