//! Application locks that cannot be cut short.
//!
//! - `domain`: lock durations, rules and states, valid from construction on;
//! - `time`: wall-clock versus monotonic anchors, and rollback detection;
//! - `persistence`: encrypted, authenticated storage of the lock snapshot;
//! - `process`: normalized process identity and matching;
//! - `enforcement`: grace periods, respawn detection and enforcement decisions;
//! - `service`, `process_killer`, `ipc`, `enforcement_loop`: the service layer's decisions.
//!
//! Instants are milliseconds since the Unix epoch (UTC); durations are milliseconds.

pub mod clock;
pub mod domain;
pub mod enforcement;
pub mod enforcement_loop;
pub mod error;
pub mod ipc;
pub mod persistence;
pub mod process;
pub mod process_killer;
pub mod service;
pub mod service_error;
pub mod text;
pub mod time;

pub use domain::{LockDuration, LockRule, LockState};
pub use enforcement::{
    EnforcementAction, EnforcementEngine, GracePeriod, ProcessTerminationLog, RespawnDetector,
};
pub use enforcement_loop::EnforcementLoop;
pub use error::LockError;
pub use ipc::{IpcChannel, IpcCommand, IpcResponse};
pub use persistence::{EncryptedLockStore, EncryptedSnapshot, LockStateSnapshot};
pub use process::{PathNormalizer, ProcessInfo, ProcessMatcher, ProcessQuery};
pub use process_killer::ProcessKiller;
pub use service::{ServiceControl, ServiceManager, ServiceState, WindowsServiceConfig};
pub use service_error::{ServiceError, ServiceResult};
pub use time::{TimeAnchor, TimeValidator};
