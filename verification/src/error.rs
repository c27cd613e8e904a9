//! Error type of the lock domain, with the text that describes each failure.

use vstd::prelude::*;
use vstd::string::StringExecFns;
use crate::text::{decimal, signed_decimal, u128_to_decimal, i64_to_decimal};

verus! {

/// All failure modes in the lock domain.
///
/// Each variant represents a distinct, recoverable failure state.
#[derive(Debug, Clone, PartialEq, Eq)]
pub enum LockError {
    /// Duration is out of valid range (must be 1 day to 10 years).
    DurationOutOfRange { days: i64, reason: String },
    /// Duration is negative or zero.
    InvalidDuration { duration_days: i64 },
    /// Lock start time is in the future (cannot lock retroactively).
    StartTimeInFuture { start: String, now: String },
    /// Lock end time is in the past (lock is already expired).
    EndTimeInPast { end: String, now: String },
    /// Attempted to create a lock with an invalid app name.
    InvalidAppName { app_name: String, reason: String },
    /// Attempted to shorten an existing lock.
    CannotShortenLock { current_end: String, attempted_new_end: String },
    /// Attempted to move lock end time backward.
    CannotMoveLockBackward { current_end: String, attempted_end: String },
    /// Lock state is corrupted or inconsistent.
    LockStateCorrupted { detail: String },
    /// Generic validation failure (should be rare).
    ValidationFailed { message: String },
    /// Wall-clock time has moved backward (rollback detected).
    TimeRollbackDetected { previous_time: String, current_time: String, rollback_amount_ms: i64 },
    /// Monotonic time is inconsistent (should never happen on same device).
    MonotonicTimeInconsistent { expected_at_least_ms: u128, observed_ms: u128 },
    /// Time anchor is invalid or corrupted.
    InvalidTimeAnchor { reason: String },
    /// Attempt to validate time without any anchors (no reference point).
    NoTimeAnchor { reason: String },
    /// Grace period is zero or negative.
    InvalidGracePeriod { reason: String },
    /// Enforcement was requested for a lock that is not active.
    EnforcementNotApplicable { reason: String },
    /// Lock state could not be serialized.
    SerializationFailed { reason: String },
    /// Stored bytes could not be deserialized.
    DeserializationFailed { reason: String },
    /// Encryption key has the wrong size.
    InvalidEncryptionKey { reason: String },
    /// Encryption of the snapshot failed.
    EncryptionFailed { reason: String },
    /// Decryption of the stored snapshot failed.
    DecryptionFailed { reason: String },
    /// Stored authentication tag does not match (tampering).
    IntegrityCheckFailed { expected_hmac: String, computed_hmac: String },
    /// Stored data is missing or could not be read.
    FileIoError { reason: String },
    /// Loaded state failed a consistency check.
    LoadedStateInvalid { reason: String },
    /// An executable name or path could not be normalized.
    PathNormalizationFailed { path: String, reason: String },
    /// Running processes could not be listed.
    ProcessEnumerationFailed { reason: String },
    /// A process could not be queried.
    ProcessQueryFailed { pid: u32, reason: String },
}

impl LockError {
    /// The human-readable description of the error.
    pub open spec fn text(&self) -> Seq<char> {
        match self {
            LockError::DurationOutOfRange { days, reason } => "Duration "@ + signed_decimal(days as int) + " days out of range: "@ + reason@,
            LockError::InvalidDuration { duration_days } => "Duration must be positive (got "@ + signed_decimal(duration_days as int) + " days)"@,
            LockError::StartTimeInFuture { start, now } => "Lock start time "@ + start@ + " is in the future (now: "@ + now@ + ")"@,
            LockError::EndTimeInPast { end, now } => "Lock end time "@ + end@ + " is in the past (now: "@ + now@ + ")"@,
            LockError::InvalidAppName { app_name, reason } => "Invalid app name '"@ + app_name@ + "': "@ + reason@,
            LockError::CannotShortenLock { current_end, attempted_new_end } => "Cannot shorten lock: current end "@ + current_end@ + " > attempted end "@ + attempted_new_end@,
            LockError::CannotMoveLockBackward { current_end, attempted_end } => "Cannot move lock backward: current end "@ + current_end@ + " > attempted end "@ + attempted_end@,
            LockError::LockStateCorrupted { detail } => "Lock state corrupted: "@ + detail@,
            LockError::ValidationFailed { message } => "Validation failed: "@ + message@,
            LockError::TimeRollbackDetected { previous_time, current_time, rollback_amount_ms } => "Time rollback detected: was "@ + previous_time@ + " now "@ + current_time@ + ", rollback "@ + signed_decimal(rollback_amount_ms as int) + " ms"@,
            LockError::MonotonicTimeInconsistent { expected_at_least_ms, observed_ms } => "Monotonic time inconsistent: expected at least "@ + decimal(expected_at_least_ms as nat) + "ms, observed "@ + decimal(observed_ms as nat) + "ms"@,
            LockError::InvalidTimeAnchor { reason } => "Invalid time anchor: "@ + reason@,
            LockError::NoTimeAnchor { reason } => "No time anchor: "@ + reason@,
            LockError::InvalidGracePeriod { reason } => "Invalid grace period: "@ + reason@,
            LockError::EnforcementNotApplicable { reason } => "Enforcement not applicable: "@ + reason@,
            LockError::SerializationFailed { reason } => "Serialization failed: "@ + reason@,
            LockError::DeserializationFailed { reason } => "Deserialization failed: "@ + reason@,
            LockError::InvalidEncryptionKey { reason } => "Invalid encryption key: "@ + reason@,
            LockError::EncryptionFailed { reason } => "Encryption failed: "@ + reason@,
            LockError::DecryptionFailed { reason } => "Decryption failed: "@ + reason@,
            LockError::IntegrityCheckFailed { expected_hmac, computed_hmac } => "Integrity check failed: expected HMAC "@ + expected_hmac@ + ", found "@ + computed_hmac@,
            LockError::FileIoError { reason } => "File I/O error: "@ + reason@,
            LockError::LoadedStateInvalid { reason } => "Loaded state invalid: "@ + reason@,
            LockError::PathNormalizationFailed { path, reason } => "Path normalization failed for '"@ + path@ + "': "@ + reason@,
            LockError::ProcessEnumerationFailed { reason } => "Process enumeration failed: "@ + reason@,
            LockError::ProcessQueryFailed { pid, reason } => "Failed to query process "@ + decimal(pid as nat) + ": "@ + reason@,
        }
    }

    /// Renders the error as text (what `Display` shows).
    pub fn message(&self) -> (s: String)
        ensures
            s@ == self.text(),
    {
        match self {
            LockError::DurationOutOfRange { days, reason } => {
                let mut s = String::from_str("Duration ");
                s.append(i64_to_decimal(*days).as_str());
                s.append(" days out of range: ");
                s.append(reason.as_str());
                s
            },
            LockError::InvalidDuration { duration_days } => {
                let mut s = String::from_str("Duration must be positive (got ");
                s.append(i64_to_decimal(*duration_days).as_str());
                s.append(" days)");
                s
            },
            LockError::StartTimeInFuture { start, now } => {
                let mut s = String::from_str("Lock start time ");
                s.append(start.as_str());
                s.append(" is in the future (now: ");
                s.append(now.as_str());
                s.append(")");
                s
            },
            LockError::EndTimeInPast { end, now } => {
                let mut s = String::from_str("Lock end time ");
                s.append(end.as_str());
                s.append(" is in the past (now: ");
                s.append(now.as_str());
                s.append(")");
                s
            },
            LockError::InvalidAppName { app_name, reason } => {
                let mut s = String::from_str("Invalid app name '");
                s.append(app_name.as_str());
                s.append("': ");
                s.append(reason.as_str());
                s
            },
            LockError::CannotShortenLock { current_end, attempted_new_end } => {
                let mut s = String::from_str("Cannot shorten lock: current end ");
                s.append(current_end.as_str());
                s.append(" > attempted end ");
                s.append(attempted_new_end.as_str());
                s
            },
            LockError::CannotMoveLockBackward { current_end, attempted_end } => {
                let mut s = String::from_str("Cannot move lock backward: current end ");
                s.append(current_end.as_str());
                s.append(" > attempted end ");
                s.append(attempted_end.as_str());
                s
            },
            LockError::LockStateCorrupted { detail } => {
                let mut s = String::from_str("Lock state corrupted: ");
                s.append(detail.as_str());
                s
            },
            LockError::ValidationFailed { message } => {
                let mut s = String::from_str("Validation failed: ");
                s.append(message.as_str());
                s
            },
            LockError::TimeRollbackDetected { previous_time, current_time, rollback_amount_ms } => {
                let mut s = String::from_str("Time rollback detected: was ");
                s.append(previous_time.as_str());
                s.append(" now ");
                s.append(current_time.as_str());
                s.append(", rollback ");
                s.append(i64_to_decimal(*rollback_amount_ms).as_str());
                s.append(" ms");
                s
            },
            LockError::MonotonicTimeInconsistent { expected_at_least_ms, observed_ms } => {
                let mut s = String::from_str("Monotonic time inconsistent: expected at least ");
                s.append(u128_to_decimal(*expected_at_least_ms).as_str());
                s.append("ms, observed ");
                s.append(u128_to_decimal(*observed_ms).as_str());
                s.append("ms");
                s
            },
            LockError::InvalidTimeAnchor { reason } => {
                let mut s = String::from_str("Invalid time anchor: ");
                s.append(reason.as_str());
                s
            },
            LockError::NoTimeAnchor { reason } => {
                let mut s = String::from_str("No time anchor: ");
                s.append(reason.as_str());
                s
            },
            LockError::InvalidGracePeriod { reason } => {
                let mut s = String::from_str("Invalid grace period: ");
                s.append(reason.as_str());
                s
            },
            LockError::EnforcementNotApplicable { reason } => {
                let mut s = String::from_str("Enforcement not applicable: ");
                s.append(reason.as_str());
                s
            },
            LockError::SerializationFailed { reason } => {
                let mut s = String::from_str("Serialization failed: ");
                s.append(reason.as_str());
                s
            },
            LockError::DeserializationFailed { reason } => {
                let mut s = String::from_str("Deserialization failed: ");
                s.append(reason.as_str());
                s
            },
            LockError::InvalidEncryptionKey { reason } => {
                let mut s = String::from_str("Invalid encryption key: ");
                s.append(reason.as_str());
                s
            },
            LockError::EncryptionFailed { reason } => {
                let mut s = String::from_str("Encryption failed: ");
                s.append(reason.as_str());
                s
            },
            LockError::DecryptionFailed { reason } => {
                let mut s = String::from_str("Decryption failed: ");
                s.append(reason.as_str());
                s
            },
            LockError::IntegrityCheckFailed { expected_hmac, computed_hmac } => {
                let mut s = String::from_str("Integrity check failed: expected HMAC ");
                s.append(expected_hmac.as_str());
                s.append(", found ");
                s.append(computed_hmac.as_str());
                s
            },
            LockError::FileIoError { reason } => {
                let mut s = String::from_str("File I/O error: ");
                s.append(reason.as_str());
                s
            },
            LockError::LoadedStateInvalid { reason } => {
                let mut s = String::from_str("Loaded state invalid: ");
                s.append(reason.as_str());
                s
            },
            LockError::PathNormalizationFailed { path, reason } => {
                let mut s = String::from_str("Path normalization failed for '");
                s.append(path.as_str());
                s.append("': ");
                s.append(reason.as_str());
                s
            },
            LockError::ProcessEnumerationFailed { reason } => {
                let mut s = String::from_str("Process enumeration failed: ");
                s.append(reason.as_str());
                s
            },
            LockError::ProcessQueryFailed { pid, reason } => {
                let mut s = String::from_str("Failed to query process ");
                s.append(u128_to_decimal(*pid as u128).as_str());
                s.append(": ");
                s.append(reason.as_str());
                s
            },
        }
    }
}

} // verus!
