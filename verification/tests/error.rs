use command_group::error::{SignalFailure, WaitFailure, EPERM, ESRCH};

#[test]
fn errno_numbers_are_those_of_the_system() {
    assert_eq!(ESRCH, nix::errno::Errno::ESRCH as i32);
    assert_eq!(EPERM, nix::errno::Errno::EPERM as i32);
}

#[test]
fn missing_target_has_its_own_variant() {
    assert_eq!(SignalFailure::from_errno(3), SignalFailure::AlreadyExited);
    assert_eq!(SignalFailure::from_errno(ESRCH), SignalFailure::AlreadyExited);
}

#[test]
fn refused_permission_has_its_own_variant() {
    assert_eq!(SignalFailure::from_errno(1), SignalFailure::PermissionDenied);
}

#[test]
fn other_errno_is_kept() {
    assert_eq!(SignalFailure::from_errno(22), SignalFailure::Os(22));
    assert_eq!(SignalFailure::from_errno(0), SignalFailure::Os(0));
    assert_eq!(SignalFailure::from_errno(-1), SignalFailure::Os(-1));
    assert_eq!(SignalFailure::from_errno(i32::MAX), SignalFailure::Os(i32::MAX));
}

#[test]
fn errno_of_each_variant() {
    assert_eq!(SignalFailure::AlreadyExited.errno(), 3);
    assert_eq!(SignalFailure::PermissionDenied.errno(), 1);
    assert_eq!(SignalFailure::Os(22).errno(), 22);
}

#[test]
fn errno_survives_classification() {
    for errno in -3..40 {
        assert_eq!(SignalFailure::from_errno(errno).errno(), errno);
    }
}

#[test]
fn wait_failure_keeps_its_errno() {
    let failure = WaitFailure { errno: 10 };
    assert_eq!(failure.errno, 10);
    assert_eq!(failure, WaitFailure { errno: 10 });
    assert_ne!(failure, WaitFailure { errno: 4 });
}
