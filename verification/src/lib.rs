//! Observe the termination of child processes, race-free.
//!
//! The verified core of a child-reaping subsystem: decoding of raw kernel
//! wait records, the pending-wait registry that fans exit records out to
//! waiters, signal sets, and the retry rule for interrupted reads. The
//! syscall and async-reactor plumbing around this core lives outside the
//! library and feeds it plain values.

pub mod children_reaper;
pub mod pid_fd;
pub mod signal;
pub mod signal_fd;
pub mod signal_mask;
pub mod utility;
pub mod waitid;

pub use children_reaper::{ChildTermSignal, Registry};
pub use signal::Signal;
pub use signal_mask::SignalMask;
pub use waitid::RawWaitRecord;
