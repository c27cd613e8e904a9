//! Messages between the UI and the service, and the channel that carries them
//! (the channel itself is not wired to a transport yet).

use vstd::prelude::*;
use crate::service_error::ServiceResult;

verus! {

/// Command from the UI to the service.
#[derive(Debug)]
pub enum IpcCommand {
    /// Create a new lock.
    CreateLock { app_name: String, duration_days: i64 },
    /// Query the current lock status.
    QueryStatus,
    /// Stop the service.
    Stop,
}

/// Response from the service to the UI.
#[derive(Debug)]
pub enum IpcResponse {
    /// The lock was created.
    LockCreated { lock_id: String },
    /// Current status.
    Status { active_locks: usize },
    /// Error response.
    Error { message: String },
}

/// Channel to the UI.
#[derive(Debug)]
pub struct IpcChannel;

impl IpcChannel {
    /// Opens the channel.
    pub fn new() -> (r: ServiceResult<Self>)
        ensures
            r is Ok,
    {
        Ok(IpcChannel)
    }
}

impl Default for IpcChannel {
    fn default() -> Self {
        IpcChannel
    }
}

} // verus!
