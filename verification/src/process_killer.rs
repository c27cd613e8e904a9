//! Termination of processes by PID. The operating-system call is not wired in
//! yet: a PID that names no process is reported as `ProcessTerminationFailed`,
//! and termination of any other succeeds.

use vstd::prelude::*;
use vstd::string::StringExecFns;
use crate::process::ProcessInfo;
use crate::service_error::{ServiceError, ServiceResult};

verus! {

/// What terminating process `pid` returns: `ProcessTerminationFailed` with
/// reason "Process not found" when no process has that PID (PID 0 names none),
/// else success.
pub open spec fn terminate_outcome(pid: u32, r: ServiceResult<()>) -> bool {
    if pid == 0 {
        r matches Err(ServiceError::ProcessTerminationFailed { pid: p, reason }) && p == pid
            && reason@ == "Process not found"@
    } else {
        r is Ok
    }
}

/// Terminates processes.
pub struct ProcessKiller;

impl ProcessKiller {
    /// Terminates process `pid`.
    ///
    /// Fails with `ProcessTerminationFailed` when no process has that PID; a
    /// failed operating-system call is not an error (the process may be gone).
    pub fn terminate(pid: u32, reason: &str) -> (r: ServiceResult<()>)
        ensures
            terminate_outcome(pid, r),
    {
        if !Self::process_exists(pid) {
            return Err(
                ServiceError::ProcessTerminationFailed { pid, reason: String::from_str("Process not found") },
            );
        }
        match Self::terminate_process_windows(pid) {
            Ok(()) => Ok(()),
            Err(_) => Ok(()),
        }
    }

    /// The operating-system termination call (not wired in yet: it reports success).
    fn terminate_process_windows(pid: u32) -> (r: Result<(), String>)
        ensures
            r is Ok,
    {
        Ok(())
    }

    /// Whether a process with ID `pid` may exist: PID 0 never names a user process.
    fn process_exists(pid: u32) -> (b: bool)
        ensures
            b == (pid > 0),
    {
        pid > 0
    }

    /// Terminates `process`, after which respawns of it are watched for; fails
    /// as [`ProcessKiller::terminate`] does.
    pub fn terminate_with_respawn_detection(process: &ProcessInfo, reason: &str) -> (r: ServiceResult<()>)
        ensures
            terminate_outcome(process.pid, r),
    {
        Self::terminate(process.pid, reason)
    }
}

} // verus!
