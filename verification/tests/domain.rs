use chrono::{Duration, Utc};
use lockin::clock::{MAX_INSTANT_MS, MIN_INSTANT_MS};
use lockin::{LockDuration, LockError, LockRule, LockState};

fn ms(d: Duration) -> i64 {
    d.num_milliseconds()
}

#[test]
fn lock_duration_min_boundary() {
    // Minimum valid duration: 1 day
    let duration = LockDuration::from_days(1);
    assert!(duration.is_ok());

    // Zero days: invalid
    let duration = LockDuration::from_days(0);
    assert!(duration.is_err());

    // Negative days: invalid
    let duration = LockDuration::from_days(-1);
    assert!(duration.is_err());
}

#[test]
fn lock_duration_max_boundary() {
    let duration = LockDuration::from_days(3650);
    assert!(duration.is_ok());

    let duration = LockDuration::from_days(3651);
    assert!(duration.is_err());
}

#[test]
fn lock_rule_valid_app_name() {
    let duration = LockDuration::from_days(7).unwrap();

    let rule = LockRule::new("Firefox.exe", duration);
    assert!(rule.is_ok());

    // Normalized to lowercase
    let rule = LockRule::new("FIREFOX.EXE", duration).unwrap();
    assert_eq!(rule.app_name(), "firefox.exe");
}

#[test]
fn lock_rule_invalid_app_name() {
    let duration = LockDuration::from_days(7).unwrap();

    let rule = LockRule::new("", duration);
    assert!(rule.is_err());

    let rule = LockRule::new("Firefox", duration);
    assert!(rule.is_err());

    let rule = LockRule::new("C:\\Firefox.exe", duration);
    assert!(rule.is_err());
}

#[test]
fn lock_state_cannot_have_future_start() {
    let duration = LockDuration::from_days(7).unwrap();
    let rule = LockRule::new("Firefox.exe", duration).unwrap();

    let future = (Utc::now() + Duration::hours(1)).timestamp_millis();
    let lock = LockState::new(rule, future);
    assert!(lock.is_err());
}

#[test]
fn lock_state_cannot_have_past_end() {
    let duration = LockDuration::from_days(1).unwrap();
    let rule = LockRule::new("Firefox.exe", duration).unwrap();

    let past = (Utc::now() - Duration::days(2)).timestamp_millis();
    let lock = LockState::new(rule, past);
    assert!(lock.is_err());
}

#[test]
fn lock_state_valid_creation() {
    let duration = LockDuration::from_days(7).unwrap();
    let rule = LockRule::new("Firefox.exe", duration).unwrap();

    let start = (Utc::now() - Duration::seconds(1)).timestamp_millis();
    let lock = LockState::new(rule, start);
    assert!(lock.is_ok());
}

#[test]
fn lock_state_is_active() {
    let duration = LockDuration::from_days(7).unwrap();
    let rule = LockRule::new("Firefox.exe", duration).unwrap();
    let start = (Utc::now() - Duration::seconds(1)).timestamp_millis();
    let lock = LockState::new(rule, start).unwrap();

    assert!(lock.is_active());
}

#[test]
fn lock_state_time_remaining() {
    let duration = LockDuration::from_days(7).unwrap();
    let rule = LockRule::new("Firefox.exe", duration).unwrap();
    let start = (Utc::now() - Duration::seconds(1)).timestamp_millis();
    let lock = LockState::new(rule, start).unwrap();

    let remaining = lock.time_remaining();
    assert!(remaining.is_some());
    let remaining = Duration::milliseconds(remaining.unwrap());
    assert!(remaining.num_days() >= 6 && remaining.num_days() <= 7);
}

#[test]
fn lock_state_cannot_shorten() {
    let duration = LockDuration::from_days(7).unwrap();
    let rule = LockRule::new("Firefox.exe", duration).unwrap();
    let start = (Utc::now() - Duration::seconds(1)).timestamp_millis();
    let lock = LockState::new(rule, start).unwrap();

    let shorter_end = lock.end_time() - ms(Duration::days(1));
    let result = lock.validate_end_time_extension(shorter_end);
    assert!(result.is_err());
}

#[test]
fn lock_state_can_extend() {
    let duration = LockDuration::from_days(7).unwrap();
    let rule = LockRule::new("Firefox.exe", duration).unwrap();
    let start = (Utc::now() - Duration::seconds(1)).timestamp_millis();
    let lock = LockState::new(rule, start).unwrap();

    let longer_end = lock.end_time() + ms(Duration::days(1));
    let result = lock.validate_end_time_extension(longer_end);
    assert!(result.is_ok());
}

#[test]
fn duration_errors_name_the_bound() {
    assert_eq!(
        LockDuration::from_days(0),
        Err(LockError::InvalidDuration { duration_days: 0 })
    );
    match LockDuration::from_days(4000) {
        Err(LockError::DurationOutOfRange { days, reason }) => {
            assert_eq!(days, 4000);
            assert_eq!(reason, "Exceeds maximum of 3650 days (~10 years)");
        }
        other => panic!("unexpected {:?}", other),
    }
    let d = LockDuration::from_days(7).unwrap();
    assert_eq!(d.days(), 7);
    assert_eq!(d.as_duration(), 7 * 86_400_000);
}

#[test]
fn rule_rejections_give_reasons() {
    let d = LockDuration::from_days(1).unwrap();
    let reason = |name: &str| match LockRule::new(name, d) {
        Err(LockError::InvalidAppName { app_name, reason }) => {
            assert_eq!(app_name, name);
            reason
        }
        other => panic!("unexpected {:?}", other),
    };
    assert_eq!(reason("   \t"), "App name cannot be empty");
    assert_eq!(reason("apps/tool.exe"), "App name must be a filename, not a path");
    assert_eq!(reason("tool.dll"), "App name must end with .exe, .com, or .bat");
    assert_eq!(LockRule::new("RUN.BAT", d).unwrap().app_name(), "run.bat");
    assert_eq!(LockRule::new("Cmd.Com", d).unwrap().duration().days(), 1);
}

#[test]
fn lock_state_at_explicit_times() {
    let day = 86_400_000;
    let rule = LockRule::new("Firefox.exe", LockDuration::from_days(2).unwrap()).unwrap();
    let now = 1_700_000_000_000;
    let lock = LockState::new_at(rule.clone(), now - day, now).unwrap();
    assert_eq!(lock.start_time(), now - day);
    assert_eq!(lock.end_time(), now + day);
    assert!(lock.is_active_at(now));
    assert!(!lock.is_active_at(now + day));
    assert_eq!(lock.time_remaining_at(now), Some(day));
    assert_eq!(lock.time_remaining_at(now + day), None);

    match LockState::new_at(rule.clone(), now + 1, now) {
        Err(LockError::StartTimeInFuture { start, now: n }) => {
            assert_eq!(start, "2023-11-14T22:13:20.001+00:00");
            assert_eq!(n, "2023-11-14T22:13:20+00:00");
        }
        other => panic!("unexpected {:?}", other),
    }
    match LockState::new_at(rule.clone(), now - 3 * day, now) {
        Err(LockError::EndTimeInPast { end, .. }) => assert_eq!(end, "2023-11-13T22:13:20+00:00"),
        other => panic!("unexpected {:?}", other),
    }
    // Ending exactly now is still accepted.
    assert!(LockState::new_at(rule, now - 2 * day, now).is_ok());
}

#[test]
fn restore_checks_the_span() {
    let rule = LockRule::new("a.exe", LockDuration::from_days(1).unwrap()).unwrap();
    assert!(LockState::restore(rule.clone(), 0, 86_400_000).is_some());
    assert!(LockState::restore(rule.clone(), 0, 86_400_001).is_none());
    assert!(LockState::restore(rule, MAX_INSTANT_MS, MAX_INSTANT_MS + 86_400_000).is_none());
}

#[test]
fn instant_range_matches_chrono() {
    assert_eq!(chrono::DateTime::<Utc>::MIN_UTC.timestamp_millis(), MIN_INSTANT_MS);
    assert_eq!(chrono::DateTime::<Utc>::MAX_UTC.timestamp_millis(), MAX_INSTANT_MS);
}

#[test]
fn shorten_error_names_both_ends() {
    let rule = LockRule::new("a.exe", LockDuration::from_days(1).unwrap()).unwrap();
    let lock = LockState::restore(rule, 0, 86_400_000).unwrap();
    match lock.validate_end_time_extension(1000) {
        Err(LockError::CannotShortenLock { current_end, attempted_new_end }) => {
            assert_eq!(current_end, "1970-01-02T00:00:00+00:00");
            assert_eq!(attempted_new_end, "1970-01-01T00:00:01+00:00");
        }
        other => panic!("unexpected {:?}", other),
    }
    assert!(lock.validate_end_time_extension(86_400_000).is_ok());
}
