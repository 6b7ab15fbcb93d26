//! Retry transparency: a call interrupted M times before succeeding hands
//! the success back, and an interrupted failure never reaches the caller.

use std::cell::Cell;

use async_linux_spec_fd::utility::{autorestart, SysError, EINTR};

const ATTEMPTS: u64 = 1 << 32;

fn interrupted_then<T: Copy>(m: u64, outcome: Result<T, SysError>) -> impl Fn() -> Result<T, SysError> {
    let calls = Cell::new(0u64);
    move || {
        let n = calls.get();
        calls.set(n + 1);
        if n < m {
            Err(SysError::new(EINTR))
        } else {
            outcome
        }
    }
}

#[test]
fn immediate_success_passes_through() {
    let r = autorestart(interrupted_then(0, Ok(5u32)), ATTEMPTS);
    assert_eq!(r, Some(Ok(5)));
}

#[test]
fn one_interruption_is_invisible() {
    let r = autorestart(interrupted_then(1, Ok(6u32)), ATTEMPTS);
    assert_eq!(r, Some(Ok(6)));
}

#[test]
fn many_interruptions_are_invisible() {
    let r = autorestart(interrupted_then(1000, Ok(7u32)), ATTEMPTS);
    assert_eq!(r, Some(Ok(7)));
}

#[test]
fn other_failures_pass_through_after_interruptions() {
    let denied = SysError::new(13);
    let r = autorestart(interrupted_then::<u32>(3, Err(denied)), ATTEMPTS);
    assert_eq!(r, Some(Err(denied)));
}

#[test]
fn call_count_is_interruptions_plus_one() {
    let calls = Cell::new(0u64);
    let f = || {
        let n = calls.get();
        calls.set(n + 1);
        if n < 4 {
            Err(SysError::new(EINTR))
        } else {
            Ok(n)
        }
    };
    let r = autorestart(f, ATTEMPTS);
    assert_eq!(r, Some(Ok(4)));
    assert_eq!(calls.get(), 5);
}

#[test]
fn exhausted_budget_is_reported_not_mislabelled() {
    // Every attempt interrupted: the budget runs out and the caller is told
    // so, rather than being handed an interrupted error.
    let f = || -> Result<u32, SysError> { Err(SysError::new(EINTR)) };
    let r = autorestart(f, 3);
    assert_eq!(r, None);
}
