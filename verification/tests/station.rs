//! Scenarios around the two wait paths: the per-child handle's immunity to
//! process-id recycling, and the signal channel's batch arithmetic.

use async_linux_spec_fd::pid_fd::{interpret_waitpid, ExitCode};
use async_linux_spec_fd::signal_fd::{records_in_batch, SIGINFO_BYTES};
use async_linux_spec_fd::waitid::{RawWaitRecord, CLD_EXITED, CLD_KILLED};

/// A process table in miniature: a wait handle holds an index into the
/// table (the descriptor, bound to one process instance for good), while a
/// numeric process id may be handed to a later, unrelated instance.
struct MockKernel {
    instances: Vec<RawWaitRecord>,
}

impl MockKernel {
    /// The kernel's descriptor-scoped wait: the record of the exact
    /// instance the descriptor was created for, whatever its numeric id
    /// names today.
    fn waitid_by_descriptor(&self, descriptor: usize) -> Result<Option<RawWaitRecord>, async_linux_spec_fd::utility::SysError> {
        Ok(Some(self.instances[descriptor]))
    }
}

#[test]
fn handle_survives_pid_recycling() {
    let pid: i32 = 777;
    // A handle is taken for pid 777 while the first instance owns the id.
    let descriptor: usize = 0;
    let kernel = MockKernel {
        instances: vec![
            // The original process: exits of its own accord with status 7.
            RawWaitRecord { pid, uid: 1000, code: CLD_EXITED, status: 7 },
            // The impostor: the kernel recycles the id 777 for an unrelated
            // process, which is then killed.
            RawWaitRecord { pid, uid: 0, code: CLD_KILLED, status: 9 },
        ],
    };

    let info = interpret_waitpid(kernel.waitid_by_descriptor(descriptor))
        .expect("the original instance was collected");
    assert_eq!(info.get_uid(), 1000);
    assert_eq!(info.get_code(), ExitCode::Exited(7));
    assert_ne!(info.get_code(), ExitCode::Killed(async_linux_spec_fd::signal::Signal::Sigkill));
}

#[test]
fn batch_arithmetic_counts_whole_records() {
    assert_eq!(records_in_batch(0), Some(0));
    assert_eq!(records_in_batch(SIGINFO_BYTES), Some(1));
    assert_eq!(records_in_batch(10 * SIGINFO_BYTES), Some(10));
    assert_eq!(records_in_batch(SIGINFO_BYTES + 1), None);
    assert_eq!(records_in_batch(100), None);
}
