//! The pending-wait registry and the background loop's decisions.

use async_linux_spec_fd::children_reaper::{
    decode, publish_batch, reap_step, ChildTermSignal, ExitCode, ExitInfo, ReapStep, Registry,
};
use async_linux_spec_fd::utility::SysError;
use async_linux_spec_fd::waitid::{RawWaitRecord, CLD_EXITED, CLD_KILLED};

fn record(pid: i32, uid: u32, code: i32, status: i32) -> RawWaitRecord {
    RawWaitRecord { pid, uid, code, status }
}

#[test]
fn lookup_of_an_unseen_pid_is_none() {
    let reg = Registry::new();
    assert_eq!(reg.lookup(42), None);
    assert!(!reg.contains(42));
}

#[test]
fn published_record_is_found_and_stays() {
    let mut reg = Registry::new();
    let info = ExitInfo { uid: 7, code: ExitCode::Exited(0) };
    reg.insert(42, info);
    assert!(reg.contains(42));
    assert_eq!(reg.lookup(42), Some(info));
    // The non-consuming read leaves the entry in place.
    assert_eq!(reg.lookup(42), Some(info));
    assert_eq!(reg.lookup(41), None);
}

#[test]
fn take_hands_the_record_out_and_removes_it() {
    let mut reg = Registry::new();
    let a = ExitInfo { uid: 4, code: ExitCode::Exited(1) };
    let b = ExitInfo { uid: 5, code: ExitCode::Killed(ChildTermSignal::Sigterm) };
    reg.insert(70, a);
    reg.insert(71, b);

    assert_eq!(reg.take(70), Some(a));
    // Consumed: the entry is gone until something new is published.
    assert_eq!(reg.take(70), None);
    assert_eq!(reg.lookup(70), None);
    assert!(!reg.contains(70));

    // Entries for other ids stay untouched.
    assert_eq!(reg.lookup(71), Some(b));
    assert_eq!(reg.take(71), Some(b));
    assert_eq!(reg.take(71), None);
}

#[test]
fn take_of_an_unseen_pid_changes_nothing() {
    let mut reg = Registry::new();
    let info = ExitInfo { uid: 9, code: ExitCode::Exited(0) };
    reg.insert(80, info);
    assert_eq!(reg.take(81), None);
    assert_eq!(reg.lookup(80), Some(info));
}

#[test]
fn republication_after_take_is_found_again() {
    let mut reg = Registry::new();
    let first = ExitInfo { uid: 1, code: ExitCode::Exited(3) };
    let second = ExitInfo { uid: 2, code: ExitCode::Exited(4) };
    reg.insert(90, first);
    assert_eq!(reg.take(90), Some(first));
    // The id fully reaped and consumed, the kernel may recycle it; a new
    // publication under the same number stands on its own.
    reg.insert(90, second);
    assert_eq!(reg.take(90), Some(second));
    assert_eq!(reg.take(90), None);
}

#[test]
fn later_publication_wins() {
    let mut reg = Registry::new();
    let first = ExitInfo { uid: 1, code: ExitCode::Exited(1) };
    let second = ExitInfo { uid: 2, code: ExitCode::Exited(2) };
    reg.insert(9, first);
    reg.insert(9, second);
    assert_eq!(reg.lookup(9), Some(second));
}

#[test]
fn burst_of_terminations_is_fully_published() {
    // Five children die between two wake-ups; however few notifications
    // that produced, the drained batch carries all five records.
    let batch = vec![
        record(201, 10, CLD_EXITED, 0),
        record(202, 10, CLD_EXITED, 7),
        record(203, 11, CLD_KILLED, 9),
        record(204, 10, CLD_EXITED, 1),
        record(205, 12, CLD_KILLED, 15),
    ];
    let mut reg = Registry::new();
    publish_batch(&mut reg, &batch);
    for rec in &batch {
        assert_eq!(reg.lookup(rec.pid), Some(decode(*rec)));
    }
    assert_eq!(
        reg.lookup(203).unwrap().get_code(),
        ExitCode::Killed(ChildTermSignal::Sigkill)
    );
    assert_eq!(reg.lookup(200), None);
}

#[test]
fn drain_steps_publish_then_suspend() {
    let mut reg = Registry::new();
    let a = record(301, 0, CLD_EXITED, 3);
    let b = record(302, 0, CLD_KILLED, 2);

    assert_eq!(reap_step(&mut reg, Ok(Some(a))), ReapStep::Continue);
    assert_eq!(reap_step(&mut reg, Ok(Some(b))), ReapStep::Continue);
    assert_eq!(reap_step(&mut reg, Ok(None)), ReapStep::Suspend);

    assert_eq!(reg.lookup(301), Some(decode(a)));
    assert_eq!(reg.lookup(302), Some(decode(b)));
}

#[test]
fn drain_failure_aborts_and_publishes_nothing_more() {
    let mut reg = Registry::new();
    let step = reap_step(&mut reg, Err(SysError::new(12)));
    assert_eq!(step, ReapStep::Fail(SysError::new(12)));
    assert_eq!(reg.lookup(1), None);
}
