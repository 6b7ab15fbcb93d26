//! The shape of what the signal-notification channel's reads deliver.
//!
//! The channel itself — a descriptor the kernel fills with fixed-size signal
//! records, opened with the signal masked so the ordinary handler path does
//! not consume it — is a kernel object outside this library. A read hands
//! back some whole number of records; the byte count comes here to be turned
//! into that number.

use vstd::prelude::*;

verus! {

/// The size of one signal record on this platform, in bytes; the tests hold
/// it against the platform's own type.
pub const SIGINFO_BYTES: usize = 128;

/// The most records one read of the channel delivers.
pub const SIGNAL_BATCH_MAX: usize = 100;

/// How many whole signal records a read of `byte_count` bytes delivered, or
/// `None` when the count is no whole number of records — a torn read the
/// channel never produces.
pub fn records_in_batch(byte_count: usize) -> (r: Option<usize>)
    ensures
        byte_count % SIGINFO_BYTES == 0 ==> r == Some(byte_count / SIGINFO_BYTES),
        byte_count % SIGINFO_BYTES != 0 ==> r is None,
{
    if byte_count % SIGINFO_BYTES == 0 {
        Some(byte_count / SIGINFO_BYTES)
    } else {
        None
    }
}

} // verus!
