//! The plain shape of the kernel's non-blocking wait call and its outcome.

use vstd::prelude::*;

use crate::utility::SysError;

verus! {

/// The kernel's classification "the child exited of its own accord".
pub const CLD_EXITED: i32 = 1;

/// The kernel's classification "a signal terminated the child".
pub const CLD_KILLED: i32 = 2;

/// The kernel's classification "a signal terminated the child and a core
/// image was written".
pub const CLD_DUMPED: i32 = 3;

/// The plain fields of the record the kernel fills in for one collected
/// child: the child's process id and owning user id, the kernel's
/// classification of the termination, and the raw status that the
/// classification says how to read (an exit code, or a signal number).
#[derive(Copy, Clone, Debug, PartialEq, Eq, Structural)]
pub struct RawWaitRecord {
    /// The process id the record is about; the kernel leaves it zero when
    /// nothing was ready to collect.
    pub pid: i32,
    /// The user id that owned the child when it terminated.
    pub uid: u32,
    /// The kernel's classification of the termination.
    pub code: i32,
    /// The raw status: the exit code under `CLD_EXITED`, else the number of
    /// the terminating signal.
    pub status: i32,
}

/// Reads one non-blocking wait call's outcome off its plain values: a
/// negative return surfaces the reported `errno`; a zeroed process id in the
/// record means nothing was ready to collect; anything else is a collected
/// record.
pub fn interpret_waitid(ret: i32, errno: i32, rec: RawWaitRecord) -> (r: Result<
    Option<RawWaitRecord>,
    SysError,
>)
    ensures
        ret < 0 ==> r == Err::<Option<RawWaitRecord>, SysError>((SysError { code: errno })),
        ret >= 0 && rec.pid == 0 ==> r == Ok::<Option<RawWaitRecord>, SysError>(None),
        ret >= 0 && rec.pid != 0 ==> r == Ok::<Option<RawWaitRecord>, SysError>(Some(rec)),
{
    if ret < 0 {
        Err(SysError::new(errno))
    } else if rec.pid == 0 {
        Ok(None)
    } else {
        Ok(Some(rec))
    }
}

} // verus!
