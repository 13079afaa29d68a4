use async_ssh2_lite::block_directions::BlockDirections;
use async_ssh2_lite::driver::{
    drive_script, drive_step, poll_check_sequence, DriveOutcome, DriverAction, DriverStep,
    EngineEvent, NotBlockedPolicy, LISTENER_ACCEPT_PACE_MS, RETRY_PACE_MS,
};
use async_ssh2_lite::error::{
    ssh2_error_is_would_block, EngineError, Error, LIBSSH2_ERROR_EAGAIN,
};

fn would_block() -> EngineError {
    EngineError::new(LIBSSH2_ERROR_EAGAIN, "would block".to_owned())
}

fn blocked<R>(reported: BlockDirections) -> EngineEvent<R> {
    EngineEvent { outcome: Err(would_block()), reported, waited: Ok(()) }
}

fn success<R>(value: R) -> EngineEvent<R> {
    EngineEvent { outcome: Ok(value), reported: BlockDirections::Neither, waited: Ok(()) }
}

#[test]
fn would_block_classification() {
    assert!(ssh2_error_is_would_block(&would_block()));
    assert!(!ssh2_error_is_would_block(&EngineError::new(-18, "denied".to_owned())));
    assert!(!ssh2_error_is_would_block(&EngineError::new(0, "fine".to_owned())));
}

#[test]
fn step_surfaces_success_at_once() {
    let s = drive_step(
        Ok(7u64),
        BlockDirections::Neither,
        BlockDirections::Both,
        NotBlockedPolicy::Strict,
    );
    match s {
        DriverStep::Surface(Ok(v)) => assert_eq!(v, 7),
        _ => panic!("success must be surfaced unchanged"),
    }
}

#[test]
fn step_surfaces_real_error_unchanged() {
    let s = drive_step::<u64>(
        Err(EngineError::new(-18, "Authentication failed (username/password)".to_owned())),
        BlockDirections::Both,
        BlockDirections::Both,
        NotBlockedPolicy::Strict,
    );
    match s {
        DriverStep::Surface(Err(Error::Ssh2(e))) => {
            assert_eq!(e.code, -18);
            assert_eq!(e.msg, "Authentication failed (username/password)");
        }
        _ => panic!("a genuine engine error must be surfaced as Ssh2"),
    }
}

#[test]
fn step_picks_the_wait_from_the_reported_direction() {
    let s = drive_step::<u64>(
        Err(would_block()),
        BlockDirections::Inbound,
        BlockDirections::Inbound,
        NotBlockedPolicy::Strict,
    );
    assert!(matches!(s, DriverStep::Suspend(DriverAction::WaitReadable)));

    let s = drive_step::<u64>(
        Err(would_block()),
        BlockDirections::Outbound,
        BlockDirections::Outbound,
        NotBlockedPolicy::Strict,
    );
    assert!(matches!(s, DriverStep::Suspend(DriverAction::WaitWritable)));

    let s = drive_step::<u64>(
        Err(would_block()),
        BlockDirections::Both,
        BlockDirections::Both,
        NotBlockedPolicy::Strict,
    );
    assert!(matches!(s, DriverStep::Suspend(DriverAction::WaitBoth)));
}

#[test]
fn step_guards_against_an_unexpected_direction() {
    // Expecting only reads, the engine declaring it must write is a
    // logic bug, not a wait.
    let s = drive_step::<u64>(
        Err(would_block()),
        BlockDirections::Outbound,
        BlockDirections::Inbound,
        NotBlockedPolicy::Strict,
    );
    assert!(matches!(s, DriverStep::Mismatch(BlockDirections::Outbound)));

    // `Both` reported is covered only when both directions were expected.
    let s = drive_step::<u64>(
        Err(would_block()),
        BlockDirections::Both,
        BlockDirections::Outbound,
        NotBlockedPolicy::Strict,
    );
    assert!(matches!(s, DriverStep::Mismatch(BlockDirections::Both)));
}

#[test]
fn step_not_blocked_honours_the_policy() {
    let s = drive_step::<u64>(
        Err(would_block()),
        BlockDirections::Neither,
        BlockDirections::Both,
        NotBlockedPolicy::Busy,
    );
    assert!(matches!(s, DriverStep::Suspend(DriverAction::RetryNow)));

    let s = drive_step::<u64>(
        Err(would_block()),
        BlockDirections::Neither,
        BlockDirections::Both,
        NotBlockedPolicy::Strict,
    );
    assert!(matches!(s, DriverStep::Mismatch(BlockDirections::Neither)));
}

#[test]
fn script_reaches_eventual_success() {
    // Three absorbed would-blocks, then success: the driver returns the
    // success, after exactly four invocations.
    let events = vec![
        blocked(BlockDirections::Inbound),
        blocked(BlockDirections::Outbound),
        blocked(BlockDirections::Both),
        success(99u64),
    ];
    match drive_script(&events, BlockDirections::Both, NotBlockedPolicy::Strict) {
        DriveOutcome::Surfaced { result, invocations } => {
            assert_eq!(invocations, 4);
            assert_eq!(result.unwrap(), 99);
        }
        _ => panic!("an eventual success must be surfaced"),
    }
}

#[test]
fn script_surfaces_exactly_one_result() {
    // Events past the first non-would-block result are never consumed.
    let events = vec![
        blocked(BlockDirections::Inbound),
        success(1u64),
        success(2u64),
        blocked(BlockDirections::Inbound),
    ];
    match drive_script(&events, BlockDirections::Inbound, NotBlockedPolicy::Strict) {
        DriveOutcome::Surfaced { result, invocations } => {
            assert_eq!(invocations, 2);
            assert_eq!(result.unwrap(), 1);
        }
        _ => panic!("the first settled result must be surfaced"),
    }
}

#[test]
fn script_surfaces_a_real_error_and_stops() {
    let events = vec![
        blocked::<u64>(BlockDirections::Inbound),
        EngineEvent {
            outcome: Err(EngineError::new(-7, "failure while draining".to_owned())),
            reported: BlockDirections::Neither,
            waited: Ok(()),
        },
        success(3u64),
    ];
    match drive_script(&events, BlockDirections::Inbound, NotBlockedPolicy::Strict) {
        DriveOutcome::Surfaced { result, invocations } => {
            assert_eq!(invocations, 2);
            match result {
                Err(Error::Ssh2(e)) => {
                    assert_eq!(e.code, -7);
                    assert_eq!(e.msg, "failure while draining");
                }
                _ => panic!("the engine error must be surfaced unchanged"),
            }
        }
        _ => panic!("a genuine error settles the exchange"),
    }
}

#[test]
fn script_still_blocked_when_every_event_is_absorbed() {
    let events = vec![
        blocked::<u64>(BlockDirections::Inbound),
        blocked(BlockDirections::Inbound),
    ];
    match drive_script(&events, BlockDirections::Inbound, NotBlockedPolicy::Strict) {
        DriveOutcome::StillBlocked { invocations } => assert_eq!(invocations, 2),
        _ => panic!("an exchange of would-blocks alone settles nothing"),
    }
}

#[test]
fn script_rejects_a_direction_outside_the_expectation() {
    let events = vec![
        blocked::<u64>(BlockDirections::Inbound),
        blocked(BlockDirections::Outbound),
    ];
    match drive_script(&events, BlockDirections::Inbound, NotBlockedPolicy::Strict) {
        DriveOutcome::Rejected { reported, invocations } => {
            assert_eq!(invocations, 2);
            assert!(matches!(reported, BlockDirections::Outbound));
        }
        _ => panic!("the logic-bug guard must trip"),
    }
}

#[test]
fn transport_failure_during_a_wait_aborts_the_loop() {
    // The socket resets while the loop waits for readiness: the retry
    // loop stops at once and the failure is surfaced as an I/O error.
    let events = vec![
        blocked::<u64>(BlockDirections::Inbound),
        EngineEvent {
            outcome: Err(would_block()),
            reported: BlockDirections::Inbound,
            waited: Err("connection reset by peer".to_owned()),
        },
        success(5u64),
    ];
    match drive_script(&events, BlockDirections::Inbound, NotBlockedPolicy::Strict) {
        DriveOutcome::Surfaced { result, invocations } => {
            assert_eq!(invocations, 2);
            match result {
                Err(Error::Io(m)) => assert_eq!(m, "connection reset by peer"),
                _ => panic!("a transport failure is surfaced in the I/O domain"),
            }
        }
        _ => panic!("a transport failure settles the exchange"),
    }
}

#[test]
fn pacing_constants() {
    assert_eq!(RETRY_PACE_MS, 1);
    assert_eq!(LISTENER_ACCEPT_PACE_MS, 10);
}

#[test]
fn poll_checks_writable_before_readable_when_both_block() {
    // The order is load-bearing: a poll runner that checked readable
    // first could park on an event that never comes, because a driven
    // exchange that needs both directions begins by writing.
    let checks = poll_check_sequence(DriverAction::WaitBoth);
    assert_eq!(checks.len(), 2);
    assert!(matches!(checks[0], DriverAction::WaitWritable));
    assert!(matches!(checks[1], DriverAction::WaitReadable));

    assert!(matches!(
        poll_check_sequence(DriverAction::WaitReadable)[..],
        [DriverAction::WaitReadable]
    ));
    assert!(matches!(
        poll_check_sequence(DriverAction::WaitWritable)[..],
        [DriverAction::WaitWritable]
    ));
    assert!(poll_check_sequence(DriverAction::RetryNow).is_empty());
}
