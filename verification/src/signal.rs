//! The signals this library sends and masks, and their kernel numbers.

use vstd::prelude::*;

verus! {

/// A signal that may be delivered to a process, restricted to the kinds this
/// library sends, masks, or decodes. The numbering below is the Linux x86_64
/// one; the tests hold each number against the platform's own constant.
#[derive(Copy, Clone, Debug, Hash, Eq, PartialEq, Structural)]
pub enum Signal {
    Sigchld,
    Sigcont,
    Sigtstp,
    Sigttin,
    Sigttou,
    Sigurg,
    Sigwinch,
    Sigabrt,
    Sigalrm,
    Sigbus,
    Sigfpe,
    Sighup,
    Sigill,
    Sigint,
    Sigio,
    Sigkill,
    Sigpipe,
    Sigprof,
    Sigpwr,
    Sigquit,
    Sigsegv,
    Sigsys,
    Sigterm,
    Sigtrap,
    Sigusr1,
    Sigusr2,
    Sigvtalrm,
    Sigxcpu,
    Sigxfsz,
}

impl Signal {
    /// The kernel's number for this signal.
    pub open spec fn spec_raw(self) -> i32 {
        match self {
            Signal::Sighup => 1,
            Signal::Sigint => 2,
            Signal::Sigquit => 3,
            Signal::Sigill => 4,
            Signal::Sigtrap => 5,
            Signal::Sigabrt => 6,
            Signal::Sigbus => 7,
            Signal::Sigfpe => 8,
            Signal::Sigkill => 9,
            Signal::Sigusr1 => 10,
            Signal::Sigsegv => 11,
            Signal::Sigusr2 => 12,
            Signal::Sigpipe => 13,
            Signal::Sigalrm => 14,
            Signal::Sigterm => 15,
            Signal::Sigchld => 17,
            Signal::Sigcont => 18,
            Signal::Sigtstp => 20,
            Signal::Sigttin => 21,
            Signal::Sigttou => 22,
            Signal::Sigurg => 23,
            Signal::Sigxcpu => 24,
            Signal::Sigxfsz => 25,
            Signal::Sigvtalrm => 26,
            Signal::Sigprof => 27,
            Signal::Sigwinch => 28,
            Signal::Sigio => 29,
            Signal::Sigpwr => 30,
            Signal::Sigsys => 31,
        }
    }

    /// The signal a kernel number stands for, if it is one of the kinds here.
    pub open spec fn spec_from_raw(n: i32) -> Option<Signal> {
        match n {
            1i32 => Some(Signal::Sighup),
            2i32 => Some(Signal::Sigint),
            3i32 => Some(Signal::Sigquit),
            4i32 => Some(Signal::Sigill),
            5i32 => Some(Signal::Sigtrap),
            6i32 => Some(Signal::Sigabrt),
            7i32 => Some(Signal::Sigbus),
            8i32 => Some(Signal::Sigfpe),
            9i32 => Some(Signal::Sigkill),
            10i32 => Some(Signal::Sigusr1),
            11i32 => Some(Signal::Sigsegv),
            12i32 => Some(Signal::Sigusr2),
            13i32 => Some(Signal::Sigpipe),
            14i32 => Some(Signal::Sigalrm),
            15i32 => Some(Signal::Sigterm),
            17i32 => Some(Signal::Sigchld),
            18i32 => Some(Signal::Sigcont),
            20i32 => Some(Signal::Sigtstp),
            21i32 => Some(Signal::Sigttin),
            22i32 => Some(Signal::Sigttou),
            23i32 => Some(Signal::Sigurg),
            24i32 => Some(Signal::Sigxcpu),
            25i32 => Some(Signal::Sigxfsz),
            26i32 => Some(Signal::Sigvtalrm),
            27i32 => Some(Signal::Sigprof),
            28i32 => Some(Signal::Sigwinch),
            29i32 => Some(Signal::Sigio),
            30i32 => Some(Signal::Sigpwr),
            31i32 => Some(Signal::Sigsys),
            _ => None,
        }
    }

    /// The kernel's number for this signal.
    #[verifier::when_used_as_spec(spec_raw)]
    pub fn raw(self) -> (n: i32)
        ensures
            n == self.spec_raw(),
    {
        match self {
            Signal::Sighup => 1,
            Signal::Sigint => 2,
            Signal::Sigquit => 3,
            Signal::Sigill => 4,
            Signal::Sigtrap => 5,
            Signal::Sigabrt => 6,
            Signal::Sigbus => 7,
            Signal::Sigfpe => 8,
            Signal::Sigkill => 9,
            Signal::Sigusr1 => 10,
            Signal::Sigsegv => 11,
            Signal::Sigusr2 => 12,
            Signal::Sigpipe => 13,
            Signal::Sigalrm => 14,
            Signal::Sigterm => 15,
            Signal::Sigchld => 17,
            Signal::Sigcont => 18,
            Signal::Sigtstp => 20,
            Signal::Sigttin => 21,
            Signal::Sigttou => 22,
            Signal::Sigurg => 23,
            Signal::Sigxcpu => 24,
            Signal::Sigxfsz => 25,
            Signal::Sigvtalrm => 26,
            Signal::Sigprof => 27,
            Signal::Sigwinch => 28,
            Signal::Sigio => 29,
            Signal::Sigpwr => 30,
            Signal::Sigsys => 31,
        }
    }

    /// The signal a kernel number stands for, or `None` for any number that
    /// is no signal of this library's kinds.
    pub fn try_from_raw(n: i32) -> (r: Option<Signal>)
        ensures
            r == Signal::spec_from_raw(n),
    {
        match n {
            1i32 => Some(Signal::Sighup),
            2i32 => Some(Signal::Sigint),
            3i32 => Some(Signal::Sigquit),
            4i32 => Some(Signal::Sigill),
            5i32 => Some(Signal::Sigtrap),
            6i32 => Some(Signal::Sigabrt),
            7i32 => Some(Signal::Sigbus),
            8i32 => Some(Signal::Sigfpe),
            9i32 => Some(Signal::Sigkill),
            10i32 => Some(Signal::Sigusr1),
            11i32 => Some(Signal::Sigsegv),
            12i32 => Some(Signal::Sigusr2),
            13i32 => Some(Signal::Sigpipe),
            14i32 => Some(Signal::Sigalrm),
            15i32 => Some(Signal::Sigterm),
            17i32 => Some(Signal::Sigchld),
            18i32 => Some(Signal::Sigcont),
            20i32 => Some(Signal::Sigtstp),
            21i32 => Some(Signal::Sigttin),
            22i32 => Some(Signal::Sigttou),
            23i32 => Some(Signal::Sigurg),
            24i32 => Some(Signal::Sigxcpu),
            25i32 => Some(Signal::Sigxfsz),
            26i32 => Some(Signal::Sigvtalrm),
            27i32 => Some(Signal::Sigprof),
            28i32 => Some(Signal::Sigwinch),
            29i32 => Some(Signal::Sigio),
            30i32 => Some(Signal::Sigpwr),
            31i32 => Some(Signal::Sigsys),
            _ => None,
        }
    }
}

impl From<Signal> for i32 {
    /// The kernel's number for the signal, as `signal.into()`.
    fn from(s: Signal) -> (n: i32) {
        s.raw()
    }
}

impl vstd::std_specs::convert::FromSpecImpl<Signal> for i32 {
    open spec fn obeys_from_spec() -> bool {
        true
    }

    open spec fn from_spec(s: Signal) -> i32 {
        s.spec_raw()
    }
}

/// Decoding a signal's own kernel number yields that signal back: the raw
/// numbering loses nothing.
pub proof fn lemma_signal_raw_roundtrip(s: Signal)
    ensures
        Signal::spec_from_raw(s.spec_raw()) == Some(s),
{
}

/// Each kernel number stands for at most one signal: decoding a number and
/// re-encoding the signal yields the number back.
pub proof fn lemma_signal_from_raw_faithful(n: i32, s: Signal)
    requires
        Signal::spec_from_raw(n) == Some(s),
    ensures
        s.spec_raw() == n,
{
}

} // verus!
