//! The failures that signalling and waiting can report.

use vstd::prelude::*;

verus! {

/// The errno with which the system rejects a caller that may not signal the
/// target.
pub const EPERM: i32 = 1;

/// The errno with which the system rejects a target that does not exist.
pub const ESRCH: i32 = 3;

/// Why a signal could not be delivered.
///
/// The two conditions a caller is expected to branch on have a variant of
/// their own; every other rejection keeps the errno it came with.
#[derive(Clone, Copy, Debug, PartialEq, Eq, Structural)]
pub enum SignalFailure {
    /// No process or group answers to the id any more.
    AlreadyExited,
    /// The caller is not allowed to signal the target.
    PermissionDenied,
    /// Any other rejection, with its errno.
    Os(i32),
}

impl SignalFailure {
    /// The failure that stands for `errno`.
    pub open spec fn of_errno(errno: i32) -> SignalFailure {
        if errno == ESRCH {
            SignalFailure::AlreadyExited
        } else if errno == EPERM {
            SignalFailure::PermissionDenied
        } else {
            SignalFailure::Os(errno)
        }
    }

    /// The errno that this failure stands for.
    pub open spec fn code(self) -> i32 {
        match self {
            SignalFailure::AlreadyExited => ESRCH,
            SignalFailure::PermissionDenied => EPERM,
            SignalFailure::Os(errno) => errno,
        }
    }

    /// `Os` never holds an errno that has a variant of its own.
    pub open spec fn well_formed(self) -> bool {
        self matches SignalFailure::Os(errno) ==> errno != ESRCH && errno != EPERM
    }

    /// Classifies the errno of a rejected signal.
    pub fn from_errno(errno: i32) -> (failure: SignalFailure)
        ensures
            failure == Self::of_errno(errno),
        opens_invariants none
        no_unwind
    {
        if errno == ESRCH {
            SignalFailure::AlreadyExited
        } else if errno == EPERM {
            SignalFailure::PermissionDenied
        } else {
            SignalFailure::Os(errno)
        }
    }

    /// The errno behind the failure.
    pub fn errno(&self) -> (errno: i32)
        ensures
            errno == self.code(),
    {
        match self {
            SignalFailure::AlreadyExited => ESRCH,
            SignalFailure::PermissionDenied => EPERM,
            SignalFailure::Os(errno) => *errno,
        }
    }
}

/// Classifying an errno loses nothing: the failure is well formed and gives
/// the errno back.
pub proof fn lemma_errno_survives_classification(errno: i32)
    ensures
        SignalFailure::of_errno(errno).well_formed(),
        SignalFailure::of_errno(errno).code() == errno,
{
}

/// A well-formed failure is the classification of its own errno, so two
/// well-formed failures with one errno are the same failure.
pub proof fn lemma_failure_is_its_errno(failure: SignalFailure)
    requires
        failure.well_formed(),
    ensures
        SignalFailure::of_errno(failure.code()) == failure,
{
}

/// Why the exit status of the leader could not be had.
#[derive(Clone, Copy, Debug, PartialEq, Eq, Structural)]
pub struct WaitFailure {
    /// The errno with which the system rejected the wait.
    pub errno: i32,
}

} // verus!
