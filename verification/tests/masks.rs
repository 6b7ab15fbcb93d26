//! Signal-mask membership and its bit-for-bit kernel shape.

use async_linux_spec_fd::signal::Signal;
use async_linux_spec_fd::signal_mask::SignalMask;

#[test]
fn new_mask_is_empty() {
    let m = SignalMask::new();
    assert_eq!(m.is_member(Signal::Sigchld), Ok(false));
    assert_eq!(m.is_member(Signal::Sigkill), Ok(false));
    assert_eq!(m.bits(), 0);
}

#[test]
fn default_is_the_empty_mask() {
    let m = SignalMask::default();
    assert_eq!(m.bits(), 0);
}

#[test]
fn added_signal_is_a_member_and_others_are_not() {
    let mut m = SignalMask::new();
    assert_eq!(m.add(Signal::Sigchld), Ok(()));
    assert_eq!(m.is_member(Signal::Sigchld), Ok(true));
    assert_eq!(m.is_member(Signal::Sigusr1), Ok(false));
    // Bit 16 stands for signal number 17, the child-termination signal.
    assert_eq!(m.bits(), 1u64 << (libc::SIGCHLD - 1));
}

#[test]
fn removed_signal_is_no_member_any_more() {
    let mut m = SignalMask::new();
    m.add(Signal::Sigusr1).unwrap();
    m.add(Signal::Sigusr2).unwrap();
    assert_eq!(m.remove(Signal::Sigusr1), Ok(()));
    assert_eq!(m.is_member(Signal::Sigusr1), Ok(false));
    assert_eq!(m.is_member(Signal::Sigusr2), Ok(true));
}

#[test]
fn full_mask_holds_every_signal() {
    let m = SignalMask::new_full();
    assert_eq!(m.is_member(Signal::Sighup), Ok(true));
    assert_eq!(m.is_member(Signal::Sigsys), Ok(true));
    assert_eq!(m.bits(), u64::MAX);
}

#[test]
fn members_list_the_mask_in_order() {
    let mut m = SignalMask::new();
    m.add(Signal::Sigterm).unwrap();
    m.add(Signal::Sighup).unwrap();
    m.add(Signal::Sigchld).unwrap();
    assert_eq!(m.members(), vec![libc::SIGHUP, libc::SIGTERM, libc::SIGCHLD]);
    assert_eq!(SignalMask::new().members(), Vec::<i32>::new());
    assert_eq!(SignalMask::new_full().members().len(), 64);
}

#[test]
fn mask_bits_stand_one_per_signal_number() {
    let mut m = SignalMask::new();
    m.add(Signal::Sigchld).unwrap();
    m.add(Signal::Sigterm).unwrap();
    let expected = (1u64 << (libc::SIGCHLD - 1)) | (1u64 << (libc::SIGTERM - 1));
    assert_eq!(m.bits(), expected);
}
