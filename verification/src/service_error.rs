//! Errors of the service layer, and the exit code each one maps to.

use vstd::prelude::*;
use crate::error::LockError;
use crate::service::ServiceState;

verus! {

/// Service layer errors.
#[derive(Debug)]
pub enum ServiceError {
    /// The persisted lock state could not be loaded.
    LoadLockStateFailed(String),
    /// The service could not be registered.
    ServiceRegistrationFailed(String),
    /// The enforcement loop could not start.
    EnforcementLoopFailed(String),
    /// A process could not be terminated.
    ProcessTerminationFailed { pid: u32, reason: String },
    /// Running processes could not be queried.
    ProcessQueryFailed(String),
    /// The channel to the UI failed.
    IpcError(String),
    /// An operating-system call failed.
    WindowsApiError(String),
    /// The configuration is invalid.
    InvalidConfiguration(String),
    /// A service control request does not apply in the current state.
    InvalidStateTransition { from: ServiceState, to: ServiceState },
    /// A shutdown was requested.
    ShutdownSignal,
    /// An error of the lock domain.
    CoreError(LockError),
}

impl ServiceError {
    /// Exit code for the service status: 0 for a requested shutdown, 1 for any error.
    pub fn exit_code(&self) -> (code: u32)
        ensures
            code == if self is ShutdownSignal { 0u32 } else { 1u32 },
    {
        match self {
            ServiceError::ShutdownSignal => 0,
            _ => 1,
        }
    }
}

impl From<LockError> for ServiceError {
    fn from(e: LockError) -> (r: ServiceError)
        ensures
            r == ServiceError::CoreError(e),
    {
        ServiceError::CoreError(e)
    }
}

impl vstd::std_specs::convert::FromSpecImpl<LockError> for ServiceError {
    open spec fn obeys_from_spec() -> bool {
        true
    }

    open spec fn from_spec(e: LockError) -> ServiceError {
        ServiceError::CoreError(e)
    }
}

/// Result of a service operation.
pub type ServiceResult<T> = Result<T, ServiceError>;

} // verus!
