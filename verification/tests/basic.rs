use async_linux_spec_fd::signal::Signal;

#[test]
fn it_works() {
    assert_eq!(2 + 2, 4);
}

#[test]
fn signal_raw_roundtrip_samples() {
    let all = [
        Signal::Sigchld,
        Signal::Sigcont,
        Signal::Sigtstp,
        Signal::Sigttin,
        Signal::Sigttou,
        Signal::Sigurg,
        Signal::Sigwinch,
        Signal::Sigabrt,
        Signal::Sigalrm,
        Signal::Sigbus,
        Signal::Sigfpe,
        Signal::Sighup,
        Signal::Sigill,
        Signal::Sigint,
        Signal::Sigio,
        Signal::Sigkill,
        Signal::Sigpipe,
        Signal::Sigprof,
        Signal::Sigpwr,
        Signal::Sigquit,
        Signal::Sigsegv,
        Signal::Sigsys,
        Signal::Sigterm,
        Signal::Sigtrap,
        Signal::Sigusr1,
        Signal::Sigusr2,
        Signal::Sigvtalrm,
        Signal::Sigxcpu,
        Signal::Sigxfsz,
    ];
    for s in all {
        assert_eq!(Signal::try_from_raw(s.raw()), Some(s));
    }
    assert_eq!(Signal::try_from_raw(0), None);
    assert_eq!(Signal::try_from_raw(16), None);
    assert_eq!(Signal::try_from_raw(19), None);
    assert_eq!(Signal::try_from_raw(64), None);
    assert_eq!(Signal::try_from_raw(-1), None);
}

#[test]
fn signal_into_i32() {
    let n: i32 = Signal::Sigkill.into();
    assert_eq!(n, 9);
    let m: i32 = Signal::Sigchld.into();
    assert_eq!(m, 17);
}
