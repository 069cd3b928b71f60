use async_fd::Async;
use async_fd::Decision;
use async_fd::ErrKind;
use async_fd::Interest;
use async_fd::IoErr;
use async_fd::retry_decision;

fn would_block() -> IoErr {
    IoErr { kind: ErrKind::WouldBlock, code: 11 }
}

fn new_wrapped<T>(io: T) -> Async<T> {
    match Async::new(io, 3, Ok(())) {
        Ok(a) => a,
        Err(_) => panic!("registration reported success"),
    }
}

#[test]
fn read_with_two_blocks_then_value() {
    let a = new_wrapped(7u8);
    let probes: Vec<Result<i32, IoErr>> = vec![Err(would_block()), Err(would_block()), Ok(42)];
    let arms: Vec<Result<(), IoErr>> = vec![Ok(()), Ok(())];
    let log = a.read_with(probes, arms);
    assert_eq!(log.result, Ok(42));
    assert_eq!(log.invocations, 3);
    assert_eq!(log.suspensions, 2);
    assert_eq!(log.interest, Interest::Read);
}

#[test]
fn read_with_first_probe_success() {
    let a = new_wrapped(0u8);
    let probes: Vec<Result<i32, IoErr>> = vec![Ok(5), Ok(6)];
    let arms: Vec<Result<(), IoErr>> = vec![];
    let log = a.read_with(probes, arms);
    assert_eq!(log.result, Ok(5));
    assert_eq!(log.invocations, 1);
    assert_eq!(log.suspensions, 0);
}

#[test]
fn write_with_first_probe_success() {
    let a = new_wrapped(0u8);
    let probes: Vec<Result<u64, IoErr>> = vec![Ok(9)];
    let arms: Vec<Result<(), IoErr>> = vec![];
    let log = a.write_with(probes, arms);
    assert_eq!(log.result, Ok(9));
    assert_eq!(log.invocations, 1);
    assert_eq!(log.suspensions, 0);
    assert_eq!(log.interest, Interest::Write);
}

#[test]
fn write_with_permission_denied_no_suspension() {
    let a = new_wrapped(0u8);
    let denied = IoErr { kind: ErrKind::PermissionDenied, code: 13 };
    let probes: Vec<Result<i32, IoErr>> = vec![Err(denied)];
    let arms: Vec<Result<(), IoErr>> = vec![];
    let log = a.write_with(probes, arms);
    assert_eq!(log.result, Err(denied));
    assert_eq!(log.invocations, 1);
    assert_eq!(log.suspensions, 0);
    assert_eq!(log.interest, Interest::Write);
}

#[test]
fn terminal_error_after_blocks_comes_back_verbatim() {
    let a = new_wrapped(0u8);
    let other = IoErr { kind: ErrKind::Other, code: 5 };
    let probes: Vec<Result<i32, IoErr>> = vec![Err(would_block()), Err(other)];
    let arms: Vec<Result<(), IoErr>> = vec![Ok(())];
    let log = a.write_with(probes, arms);
    assert_eq!(log.result, Err(other));
    assert_eq!(log.invocations, 2);
    assert_eq!(log.suspensions, 1);
}

#[test]
fn arming_failure_aborts_the_loop() {
    let a = new_wrapped(0u8);
    let bad = IoErr { kind: ErrKind::InvalidDescriptor, code: 9 };
    let probes: Vec<Result<i32, IoErr>> = vec![Err(would_block()), Ok(1)];
    let arms: Vec<Result<(), IoErr>> = vec![Err(bad)];
    let log = a.read_with(probes, arms);
    assert_eq!(log.result, Err(bad));
    assert_eq!(log.invocations, 1);
    assert_eq!(log.suspensions, 0);
}

#[test]
fn arming_failure_after_one_suspension() {
    let a = new_wrapped(0u8);
    let bad = IoErr { kind: ErrKind::Other, code: 22 };
    let probes: Vec<Result<i32, IoErr>> = vec![
        Err(would_block()),
        Err(would_block()),
        Ok(1),
    ];
    let arms: Vec<Result<(), IoErr>> = vec![Ok(()), Err(bad)];
    let log = a.write_with(probes, arms);
    assert_eq!(log.result, Err(bad));
    assert_eq!(log.invocations, 2);
    assert_eq!(log.suspensions, 1);
}

#[test]
fn decision_suspends_only_on_would_block() {
    let d: Decision<i32> = retry_decision(Err(would_block()));
    assert!(matches!(d, Decision::Suspend));

    let denied = IoErr { kind: ErrKind::PermissionDenied, code: 13 };
    match retry_decision::<i32>(Err(denied)) {
        Decision::Return(res) => assert_eq!(res, Err(denied)),
        Decision::Suspend => panic!("a terminal error must not suspend"),
    }

    match retry_decision::<i32>(Ok(7)) {
        Decision::Return(res) => assert_eq!(res, Ok(7)),
        Decision::Suspend => panic!("a success must not suspend"),
    }
}
