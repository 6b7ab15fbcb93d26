//! The per-child wait handle's verified core: decoding of the record the
//! descriptor-scoped wait call returns, and the rule for reading that call's
//! outcome after readiness.
//!
//! The handle itself owns a process-tracking descriptor — a kernel object
//! bound to one process instance, immune to numeric-id reuse. Opening it,
//! signalling through it and suspending on its readability are kernel and
//! reactor calls outside this library; once readiness has been observed, the
//! wait outcome comes back here as plain values and [`interpret_waitpid`]
//! says what each one means.

use vstd::prelude::*;

use crate::signal::Signal;
use crate::utility::SysError;
use crate::waitid::{RawWaitRecord, CLD_EXITED};

verus! {

/// How the handle's child ended: of its own accord with an exit code, or
/// terminated by a signal.
#[derive(Copy, Clone, Debug, Eq, PartialEq, Structural)]
pub enum ExitCode {
    /// A signal terminated the child.
    Killed(Signal),
    /// The child exited of its own accord with this code.
    Exited(i32),
}

/// What the handle reports for its collected child.
#[derive(Copy, Clone, Debug, Eq, PartialEq, Structural)]
pub struct ExitInfo {
    /// The user id that owned the child when it exited.
    pub uid: u32,
    /// How the child ended.
    pub code: ExitCode,
}

/// Whether a collected record can be decoded: either the kernel classified
/// it as a plain exit, or its status is the number of a signal this library
/// names.
pub open spec fn spec_decodable(rec: RawWaitRecord) -> bool {
    rec.code == CLD_EXITED || Signal::spec_from_raw(rec.status) is Some
}

/// What a collected record decodes to: an exit classified `CLD_EXITED`
/// carries its exit code, any other classification carries the terminating
/// signal's number in the status field.
pub open spec fn spec_decode(rec: RawWaitRecord) -> ExitInfo {
    ExitInfo {
        uid: rec.uid,
        code: if rec.code == CLD_EXITED {
            ExitCode::Exited(rec.status)
        } else {
            ExitCode::Killed(Signal::spec_from_raw(rec.status)->Some_0)
        },
    }
}

/// Whether [`ExitInfo::new`] accepts the record.
pub fn decodable(rec: RawWaitRecord) -> (b: bool)
    ensures
        b == spec_decodable(rec),
{
    rec.code == CLD_EXITED || Signal::try_from_raw(rec.status).is_some()
}

impl ExitInfo {
    /// Decode one collected record, as the wait primitive fills it in.
    pub fn new(rec: RawWaitRecord) -> (info: ExitInfo)
        requires
            spec_decodable(rec),
        ensures
            info == spec_decode(rec),
    {
        if rec.code == CLD_EXITED {
            ExitInfo { uid: rec.uid, code: ExitCode::Exited(rec.status) }
        } else {
            match Signal::try_from_raw(rec.status) {
                Some(sig) => ExitInfo { uid: rec.uid, code: ExitCode::Killed(sig) },
                None => unreached(),
            }
        }
    }

    /// The user id that owned the child when it exited.
    pub fn get_uid(&self) -> (u: u32)
        ensures
            u == self.uid,
    {
        self.uid
    }

    /// How the child ended.
    pub fn get_code(&self) -> (c: ExitCode)
        ensures
            c == self.code,
    {
        self.code
    }
}

/// Why the handle's wait failed.
#[derive(Copy, Clone, Debug, Eq, PartialEq, Structural)]
pub enum WaitpidError {
    /// The wait primitive itself failed; the kernel's error is carried
    /// unchanged.
    Sys(SysError),
    /// The descriptor reported readable, yet the wait primitive found
    /// nothing to collect. The handle's one-shot readiness rules that out,
    /// so this is an invariant violation, kept apart from every kernel
    /// error.
    MissingRecord,
}

/// Reads the wait outcome taken right after the descriptor reported
/// readable: a collected record decodes to the child's exit information, an
/// empty outcome is the distinct invariant-violation error, and a failure
/// carries the kernel's error unchanged.
pub fn interpret_waitpid(poll: Result<Option<RawWaitRecord>, SysError>) -> (r: Result<
    ExitInfo,
    WaitpidError,
>)
    requires
        poll matches Ok(Some(rec)) ==> spec_decodable(rec),
    ensures
        poll matches Ok(Some(rec)) ==> r == Ok::<ExitInfo, WaitpidError>(spec_decode(rec)),
        poll == Ok::<Option<RawWaitRecord>, SysError>(None) ==> r == Err::<ExitInfo, WaitpidError>(
            WaitpidError::MissingRecord,
        ),
        poll matches Err(e) ==> r == Err::<ExitInfo, WaitpidError>(WaitpidError::Sys(e)),
{
    match poll {
        Ok(Some(rec)) => Ok(ExitInfo::new(rec)),
        Ok(None) => Err(WaitpidError::MissingRecord),
        Err(e) => Err(WaitpidError::Sys(e)),
    }
}

} // verus!
