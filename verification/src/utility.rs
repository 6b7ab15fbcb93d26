//! The system-error value and the retry rule for interrupted calls.

use vstd::prelude::*;

verus! {

/// The kernel's `errno` value for "interrupted system call".
pub const EINTR: i32 = 4;

/// An operating-system error, carried as the kernel's `errno` value.
#[derive(Copy, Clone, Debug, PartialEq, Eq, Structural)]
pub struct SysError {
    /// The `errno` value the failing call reported.
    pub code: i32,
}

impl SysError {
    /// Whether this error is the kernel's "interrupted" condition.
    pub open spec fn spec_is_interrupted(self) -> bool {
        self.code == EINTR
    }

    pub fn new(code: i32) -> (e: SysError)
        ensures
            e.code == code,
    {
        SysError { code }
    }

    #[verifier::when_used_as_spec(spec_is_interrupted)]
    pub fn is_interrupted(self) -> (b: bool)
        ensures
            b == self.spec_is_interrupted(),
    {
        self.code == EINTR
    }
}

/// Calls `f` until it returns something other than an "interrupted" failure,
/// and hands that first non-interrupted outcome back: however often the call
/// is interrupted before then, no interrupted failure ever reaches the caller.
///
/// Every loop here must be shown to terminate, so the retry carries a budget:
/// after `attempts` interrupted calls in a row it gives up and returns `None`.
/// A caller that wants the classic "retry for as long as it takes" behaviour
/// passes a budget larger than any interrupt storm the machine could deliver.
pub fn autorestart<T, F: Fn() -> Result<T, SysError>>(f: F, attempts: u64) -> (r: Option<
    Result<T, SysError>,
>)
    requires
        attempts >= 1,
        call_requires(f, ()),
    ensures
        r matches Some(out) ==> call_ensures(f, (), out),
        r matches Some(Err(e)) ==> !e.spec_is_interrupted(),
        r is None ==> exists|e: SysError|
            call_ensures(f, (), Err::<T, SysError>(e)) && e.spec_is_interrupted(),
{
    let mut i: u64 = 0;
    while i < attempts
        invariant
            call_requires(f, ()),
            i <= attempts,
            i > 0 ==> exists|e: SysError|
                call_ensures(f, (), Err::<T, SysError>(e)) && e.spec_is_interrupted(),
        decreases attempts - i,
    {
        let ret = f();
        let interrupted = match &ret {
            Err(err) => err.is_interrupted(),
            Ok(_) => false,
        };
        if !interrupted {
            return Some(ret);
        }
        i = i + 1;
    }
    None
}

} // verus!
