//! The handle on a spawned group, and the outcome of what is done through it.
//!
//! Signals go to the system from here. Waiting does not: the caller waits on
//! the process it spawned and hands the answer in, and the handle decides
//! what that answer means.

use crate::error::{SignalFailure, WaitFailure, ESRCH};
use crate::sys::{kill_group, kill_process, sigkill};
use nix::sys::signal::Signal;
use vstd::prelude::*;

pub mod unix_ext;

verus! {

/// The status with which a process ended, as the system's wait encodes it.
#[derive(Clone, Copy, Debug, PartialEq, Eq, Structural)]
pub struct ExitStatus {
    /// The wait status, exit code and terminating signal still packed.
    pub raw: i32,
}

/// What a signal call reports for the system's answer `raw`: a rejection is
/// classified by its errno.
pub open spec fn signal_report(raw: Result<(), i32>) -> Result<(), SignalFailure> {
    match raw {
        Ok(_) => Ok(()),
        Err(errno) => Err(SignalFailure::of_errno(errno)),
    }
}

/// What a kill call reports for the system's answer `raw`: a target that is
/// gone already counts as killed, any other rejection is classified by its
/// errno.
pub open spec fn kill_report(raw: Result<(), i32>) -> Result<(), SignalFailure> {
    match raw {
        Ok(_) => Ok(()),
        Err(errno) => if errno == ESRCH {
            Ok(())
        } else {
            Err(SignalFailure::of_errno(errno))
        },
    }
}

/// Turns the system's answer to a signal into the result of the call.
pub fn signal_outcome(raw: Result<(), i32>) -> (res: Result<(), SignalFailure>)
    ensures
        res == signal_report(raw),
{
    match raw {
        Ok(_) => Ok(()),
        Err(errno) => Err(SignalFailure::from_errno(errno)),
    }
}

/// Turns the system's answer to a kill into the result of the call.
pub fn kill_outcome(raw: Result<(), i32>) -> (res: Result<(), SignalFailure>)
    ensures
        res == kill_report(raw),
    opens_invariants none
    no_unwind
{
    match raw {
        Ok(_) => Ok(()),
        Err(errno) => if errno == ESRCH {
            Ok(())
        } else {
            Err(SignalFailure::from_errno(errno))
        },
    }
}

/// A signal to a target that is gone is reported as
/// [`SignalFailure::AlreadyExited`], never as an unnamed failure of the
/// system, and nothing else is reported so.
pub proof fn lemma_missing_target_is_told_apart(raw: Result<(), i32>)
    ensures
        signal_report(raw) == Err::<(), SignalFailure>(SignalFailure::AlreadyExited) <==> raw
            == Err::<(), i32>(ESRCH),
        signal_report(raw) != Err::<(), SignalFailure>(SignalFailure::Os(ESRCH)),
        signal_report(raw) matches Err(failure) ==> failure.well_formed(),
{
}

/// A kill is a signal whose only difference is that a missing target is no
/// failure: it fails exactly where the signal fails for another reason, and
/// then with the same failure.
pub proof fn lemma_kill_forgives_only_a_missing_target(raw: Result<(), i32>)
    ensures
        kill_report(raw) is Err <==> (signal_report(raw) is Err && signal_report(raw)
            != Err::<(), SignalFailure>(SignalFailure::AlreadyExited)),
        kill_report(raw) is Err ==> kill_report(raw) == signal_report(raw),
        kill_report(raw) matches Err(failure) ==> failure.well_formed(),
{
}

/// Killing a group that has been killed before succeeds, whichever of the
/// two answers the system has for such a group: that the signal went to what
/// is left of it, or that nothing is left.
pub proof fn lemma_kill_of_a_killed_group_succeeds(raw: Result<(), i32>)
    requires
        raw is Ok || raw == Err::<(), i32>(ESRCH),
    ensures
        kill_report(raw) is Ok,
{
}

/// A wait's answer with the exit status, where there is one, as an `Option`:
/// the form in which a wait that does not block gives it.
pub open spec fn with_status<E>(answer: Result<ExitStatus, E>) -> Result<Option<ExitStatus>, E> {
    match answer {
        Ok(status) => Ok(Some(status)),
        Err(failure) => Err(failure),
    }
}

/// What a group handle knows.
pub ghost struct GroupState {
    /// The id of the group, which is the process id of its leader.
    pub id: u32,
    /// Whether letting go of the handle kills the group.
    pub kill_on_drop: bool,
    /// The exit status of the leader, once a wait has had it.
    pub status: Option<ExitStatus>,
}

impl GroupState {
    /// The state of a handle on the group that `pid` has just been made the
    /// leader of.
    pub open spec fn spawned(pid: u32, kill_on_drop: bool) -> GroupState {
        GroupState { id: pid, kill_on_drop, status: None }
    }

    /// The leader has been waited for: its status is known and the system
    /// holds nothing more for it.
    pub open spec fn reaped(self) -> bool {
        self.status is Some
    }

    /// The state after a wait for which the system answered `outcome`: the
    /// first exit status that comes in is kept, and nothing else changes
    /// anything.
    pub open spec fn after_wait(self, outcome: Result<Option<ExitStatus>, i32>) -> GroupState {
        match (self.status, outcome) {
            (None, Ok(Some(status))) => GroupState { status: Some(status), ..self },
            _ => self,
        }
    }

    /// What a wait reports when the system answered `outcome`: the status
    /// kept from an earlier wait if there is one, else the answer itself.
    pub open spec fn wait_report(self, outcome: Result<Option<ExitStatus>, i32>) -> Result<
        Option<ExitStatus>,
        WaitFailure,
    > {
        match (self.status, outcome) {
            (Some(status), _) => Ok(Some(status)),
            (None, Ok(answer)) => Ok(answer),
            (None, Err(errno)) => Err(WaitFailure { errno }),
        }
    }

    /// Letting go of the handle kills the group: that was asked for, and the
    /// leader has not been waited for.
    pub open spec fn kills_on_release(self) -> bool {
        self.kill_on_drop && !self.reaped()
    }
}

/// A wait changes nothing but the exit status, and that only when it brings
/// the first one: the handle is reaped afterwards exactly if it was before or
/// the wait brought a status.
pub proof fn lemma_wait_changes_only_the_status(
    state: GroupState,
    outcome: Result<Option<ExitStatus>, i32>,
)
    ensures
        state.after_wait(outcome).id == state.id,
        state.after_wait(outcome).kill_on_drop == state.kill_on_drop,
        state.after_wait(outcome).reaped() <==> state.reaped() || outcome matches Ok(Some(_)),
        state.reaped() || !(outcome matches Ok(Some(_))) ==> state.after_wait(outcome) == state,
        state.wait_report(outcome) matches Ok(Some(status)) ==> state.after_wait(outcome).status
            == Some(status),
{
}

/// Waiting is idempotent once it has succeeded: every later wait, blocking or
/// not and whatever the system answers to it, reports the status of the first
/// and leaves the handle as it is.
pub proof fn lemma_wait_is_idempotent(
    state: GroupState,
    first: Result<Option<ExitStatus>, i32>,
    later: Result<Option<ExitStatus>, i32>,
)
    requires
        state.wait_report(first) matches Ok(Some(_)),
    ensures
        state.after_wait(first).wait_report(later) == state.wait_report(first),
        state.after_wait(first).after_wait(later) == state.after_wait(first),
{
}

/// A handle made without the request to kill on drop never kills when it is
/// let go, whatever waits it has seen; one made with the request kills
/// exactly as long as no wait has brought the exit status.
pub proof fn lemma_release_follows_the_request(
    pid: u32,
    kill_on_drop: bool,
    outcome: Result<Option<ExitStatus>, i32>,
)
    ensures
        GroupState::spawned(pid, kill_on_drop).kills_on_release() == kill_on_drop,
        GroupState::spawned(pid, kill_on_drop).after_wait(outcome).kills_on_release() == (
        kill_on_drop && !(outcome matches Ok(Some(_)))),
{
}

/// Whether `pid` can name a group: above 1, as the system's group signal
/// asks, and within the range of the system's process ids.
pub open spec fn is_group_id(pid: u32) -> bool {
    1 < pid <= i32::MAX
}

/// Whether `pid` can name one process: positive, and within the range of the
/// system's process ids.
pub open spec fn is_process_id(pid: u32) -> bool {
    0 < pid <= i32::MAX
}

/// The handle on a group of processes, named by the process id of the leader
/// that was spawned into it.
///
/// Dropping the handle lets go of the group as [`GroupChild::release`] does.
#[derive(Debug)]
pub struct GroupChild {
    pgid: u32,
    kill_on_drop: bool,
    status: Option<ExitStatus>,
}

impl View for GroupChild {
    type V = GroupState;

    closed spec fn view(&self) -> GroupState {
        GroupState { id: self.pgid, kill_on_drop: self.kill_on_drop, status: self.status }
    }
}

impl GroupChild {
    #[verifier::type_invariant]
    spec fn holds_group_id(self) -> bool {
        is_group_id(self.pgid)
    }

    /// Whether a handle can be made for `pid`.
    pub fn accepts(pid: u32) -> (ok: bool)
        ensures
            ok == is_group_id(pid),
    {
        1 < pid && pid <= i32::MAX as u32
    }

    /// The handle on the group that the process `pid` has just been made the
    /// leader of.
    pub fn new(pid: u32, kill_on_drop: bool) -> (child: GroupChild)
        requires
            is_group_id(pid),
        ensures
            child@ == GroupState::spawned(pid, kill_on_drop),
    {
        GroupChild { pgid: pid, kill_on_drop, status: None }
    }

    /// The id of the group: the process id of its leader.
    pub fn id(&self) -> (id: u32)
        ensures
            id == self@.id,
            is_group_id(id),
    {
        proof {
            use_type_invariant(self);
        }
        self.pgid
    }

    /// The exit status of the leader, if a wait has had it. Once there is
    /// one, the system has nothing more to say and is not to be asked again.
    pub fn exit_status(&self) -> (status: Option<ExitStatus>)
        ensures
            status == self@.status,
    {
        self.status
    }

    /// Sends `sig` to every process of the group. What comes back is the
    /// system's answer as [`signal_outcome`] reads it.
    pub fn signal_imp(&self, sig: Signal) -> (res: Result<(), SignalFailure>)
        ensures
            res matches Err(failure) ==> failure.well_formed(),
    {
        proof {
            use_type_invariant(self);
        }
        signal_outcome(kill_group(self.pgid as i32, sig))
    }

    /// Kills every process of the group, without waiting for any of them to
    /// end. A group that is gone already counts as killed. What comes back is
    /// the system's answer as [`kill_outcome`] reads it.
    pub fn kill(&mut self) -> (res: Result<(), SignalFailure>)
        ensures
            final(self)@ == old(self)@,
            res matches Err(failure) ==> failure.well_formed() && failure
                != SignalFailure::AlreadyExited,
        opens_invariants none
        no_unwind
    {
        proof {
            use_type_invariant(&*self);
        }
        kill_outcome(kill_group(self.pgid as i32, sigkill()))
    }

    /// Takes in what a blocking wait for the leader gave. The first exit
    /// status that comes in is kept and is the answer from then on.
    pub fn wait(&mut self, outcome: Result<ExitStatus, i32>) -> (res: Result<
        ExitStatus,
        WaitFailure,
    >)
        ensures
            final(self)@ == old(self)@.after_wait(with_status(outcome)),
            with_status(res) == old(self)@.wait_report(with_status(outcome)),
    {
        proof {
            use_type_invariant(&*self);
        }
        match self.status {
            Some(status) => Ok(status),
            None => match outcome {
                Ok(status) => {
                    self.status = Some(status);
                    Ok(status)
                },
                Err(errno) => Err(WaitFailure { errno }),
            },
        }
    }

    /// Takes in what a wait that does not block gave, `Ok(None)` where the
    /// leader was still running. The first exit status that comes in is kept
    /// and is the answer from then on.
    pub fn try_wait(&mut self, outcome: Result<Option<ExitStatus>, i32>) -> (res: Result<
        Option<ExitStatus>,
        WaitFailure,
    >)
        ensures
            final(self)@ == old(self)@.after_wait(outcome),
            res == old(self)@.wait_report(outcome),
    {
        proof {
            use_type_invariant(&*self);
        }
        match self.status {
            Some(status) => Ok(Some(status)),
            None => match outcome {
                Ok(Some(status)) => {
                    self.status = Some(status);
                    Ok(Some(status))
                },
                Ok(None) => Ok(None),
                Err(errno) => Err(WaitFailure { errno }),
            },
        }
    }

    /// Lets go of the group. It is killed if that was asked for when it was
    /// spawned and the leader has not been waited for; the answer is then
    /// what the kill gave. Otherwise nothing is done and the answer is
    /// `None`.
    pub fn release(&mut self) -> (res: Option<Result<(), SignalFailure>>)
        ensures
            final(self)@ == old(self)@,
            res is Some <==> old(self)@.kills_on_release(),
            res matches Some(Err(failure)) ==> failure.well_formed() && failure
                != SignalFailure::AlreadyExited,
        opens_invariants none
        no_unwind
    {
        let reaped = match self.status {
            Some(_) => true,
            None => false,
        };
        if self.kill_on_drop && !reaped {
            Some(self.kill())
        } else {
            None
        }
    }
}

impl Drop for GroupChild {
    /// Lets go of the group. A kill that fails here is not reported.
    fn drop(&mut self)
        opens_invariants none
        no_unwind
    {
        let _attempt = self.release();
    }
}

/// A spawned process that is handled alone, named by its process id.
#[derive(Debug)]
pub struct Child {
    pid: u32,
}

impl View for Child {
    type V = u32;

    closed spec fn view(&self) -> u32 {
        self.pid
    }
}

impl Child {
    #[verifier::type_invariant]
    spec fn holds_process_id(self) -> bool {
        is_process_id(self.pid)
    }

    /// Whether a handle can be made for `pid`.
    pub fn accepts(pid: u32) -> (ok: bool)
        ensures
            ok == is_process_id(pid),
    {
        0 < pid && pid <= i32::MAX as u32
    }

    /// The handle on the process `pid`.
    pub fn new(pid: u32) -> (child: Child)
        requires
            is_process_id(pid),
        ensures
            child@ == pid,
    {
        Child { pid }
    }

    /// The process id.
    pub fn id(&self) -> (id: u32)
        ensures
            id == self@,
            is_process_id(id),
    {
        proof {
            use_type_invariant(self);
        }
        self.pid
    }

    /// Sends `sig` to the process. What comes back is the system's answer as
    /// [`signal_outcome`] reads it.
    pub fn signal_imp(&self, sig: Signal) -> (res: Result<(), SignalFailure>)
        ensures
            res matches Err(failure) ==> failure.well_formed(),
    {
        proof {
            use_type_invariant(self);
        }
        signal_outcome(kill_process(self.pid as i32, sig))
    }
}

} // verus!
