use lockin::text::{i64_to_decimal, u128_to_decimal};
use lockin::LockError;

#[test]
fn decimal_rendering() {
    assert_eq!(u128_to_decimal(0), "0");
    assert_eq!(u128_to_decimal(7), "7");
    assert_eq!(u128_to_decimal(1234567890), "1234567890");
    assert_eq!(u128_to_decimal(u128::MAX), u128::MAX.to_string());
    assert_eq!(i64_to_decimal(-42), "-42");
    assert_eq!(i64_to_decimal(i64::MIN), i64::MIN.to_string());
    assert_eq!(i64_to_decimal(i64::MAX), i64::MAX.to_string());
}

#[test]
fn error_messages() {
    let s = |e: LockError| e.message();
    assert_eq!(
        s(LockError::DurationOutOfRange { days: 4000, reason: "too long".to_string() }),
        "Duration 4000 days out of range: too long"
    );
    assert_eq!(s(LockError::InvalidDuration { duration_days: -3 }), "Duration must be positive (got -3 days)");
    assert_eq!(
        s(LockError::StartTimeInFuture { start: "A".to_string(), now: "B".to_string() }),
        "Lock start time A is in the future (now: B)"
    );
    assert_eq!(
        s(LockError::EndTimeInPast { end: "A".to_string(), now: "B".to_string() }),
        "Lock end time A is in the past (now: B)"
    );
    assert_eq!(
        s(LockError::InvalidAppName { app_name: "x".to_string(), reason: "bad".to_string() }),
        "Invalid app name 'x': bad"
    );
    assert_eq!(
        s(LockError::CannotShortenLock { current_end: "E".to_string(), attempted_new_end: "F".to_string() }),
        "Cannot shorten lock: current end E > attempted end F"
    );
    assert_eq!(
        s(LockError::CannotMoveLockBackward { current_end: "E".to_string(), attempted_end: "F".to_string() }),
        "Cannot move lock backward: current end E > attempted end F"
    );
    assert_eq!(s(LockError::LockStateCorrupted { detail: "d".to_string() }), "Lock state corrupted: d");
    assert_eq!(s(LockError::ValidationFailed { message: "m".to_string() }), "Validation failed: m");
    assert_eq!(
        s(LockError::TimeRollbackDetected {
            previous_time: "P".to_string(),
            current_time: "C".to_string(),
            rollback_amount_ms: 3600000,
        }),
        "Time rollback detected: was P now C, rollback 3600000 ms"
    );
    assert_eq!(
        s(LockError::MonotonicTimeInconsistent { expected_at_least_ms: 1000000, observed_ms: 999999 }),
        "Monotonic time inconsistent: expected at least 1000000ms, observed 999999ms"
    );
    assert_eq!(s(LockError::InvalidTimeAnchor { reason: "r".to_string() }), "Invalid time anchor: r");
    assert_eq!(s(LockError::NoTimeAnchor { reason: "r".to_string() }), "No time anchor: r");
    assert_eq!(
        s(LockError::ProcessQueryFailed { pid: 42, reason: "r".to_string() }),
        "Failed to query process 42: r"
    );
    assert_eq!(
        s(LockError::PathNormalizationFailed { path: "p".to_string(), reason: "r".to_string() }),
        "Path normalization failed for 'p': r"
    );
    assert_eq!(
        s(LockError::IntegrityCheckFailed { expected_hmac: "aa".to_string(), computed_hmac: "bb".to_string() }),
        "Integrity check failed: expected HMAC aa, found bb"
    );
}
