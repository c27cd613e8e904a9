//! Immutable lock types whose invariants hold from construction on:
//! a duration of 1 to 3650 days, a rule naming an executable file, and a
//! lock state whose end is always its start plus the rule's duration.

use vstd::prelude::*;
use vstd::string::StringExecFns;
use crate::clock::{instant_in_range, now_ms, rfc3339, rfc3339_text, MS_PER_DAY};
use crate::error::LockError;
use crate::text::{
    all_whitespace, chars_of, contains_char, ends_with, has_char, has_suffix, is_blank, lowercase,
    to_lowercase,
};

verus! {

/// Shortest lock, in days.
pub const MIN_LOCK_DAYS: i64 = 1;

/// Longest lock, in days (about ten years).
pub const MAX_LOCK_DAYS: i64 = 3650;

/// A validated lock duration: a whole number of days between 1 and 3650.
#[derive(Debug, Clone, Copy, PartialEq, Eq, PartialOrd, Ord)]
pub struct LockDuration {
    days: i64,
}

impl View for LockDuration {
    /// The number of days.
    type V = int;

    closed spec fn view(&self) -> int {
        self.days as int
    }
}

impl LockDuration {
    #[verifier::type_invariant]
    pub open spec fn inv(self) -> bool {
        MIN_LOCK_DAYS <= self@ <= MAX_LOCK_DAYS
    }

    /// Length of the lock in milliseconds.
    pub open spec fn spec_ms(self) -> int {
        self@ * MS_PER_DAY
    }

    /// Creates a lock duration of `days` days.
    ///
    /// Fails with `InvalidDuration` when `days < 1` and with
    /// `DurationOutOfRange` when `days > 3650`.
    pub fn from_days(days: i64) -> (r: Result<Self, LockError>)
        ensures
            days < MIN_LOCK_DAYS ==> r == Err::<Self, LockError>(
                LockError::InvalidDuration { duration_days: days },
            ),
            days > MAX_LOCK_DAYS ==> (r matches Err(LockError::DurationOutOfRange { days: d, reason })
                && d == days && reason@ == "Exceeds maximum of 3650 days (~10 years)"@),
            MIN_LOCK_DAYS <= days <= MAX_LOCK_DAYS ==> (r matches Ok(d) && d@ == days),
    {
        if days < MIN_LOCK_DAYS {
            return Err(LockError::InvalidDuration { duration_days: days });
        }
        if days > MAX_LOCK_DAYS {
            return Err(
                LockError::DurationOutOfRange {
                    days,
                    reason: String::from_str("Exceeds maximum of 3650 days (~10 years)"),
                },
            );
        }
        Ok(LockDuration { days })
    }

    /// The duration in milliseconds.
    pub fn as_duration(&self) -> (ms: i64)
        ensures
            ms == self.spec_ms(),
            MS_PER_DAY <= ms <= MAX_LOCK_DAYS * MS_PER_DAY,
    {
        proof {
            use_type_invariant(self);
        }
        self.days * MS_PER_DAY
    }

    /// The duration in whole days.
    pub fn days(&self) -> (d: i64)
        ensures
            d == self@,
    {
        self.days
    }
}

/// A name is a valid (normalized) app name when it has no path separator and
/// ends with `.exe`, `.com` or `.bat`.
pub open spec fn valid_app_name(name: Seq<char>) -> bool {
    &&& !has_char(name, '\\')
    &&& !has_char(name, '/')
    &&& (has_suffix(name, ".exe"@) || has_suffix(name, ".com"@) || has_suffix(name, ".bat"@))
}

/// Abstract value of a lock rule.
pub struct LockRuleView {
    pub app_name: Seq<char>,
    pub duration_days: int,
}

/// A specification for locking a single application: which executable, and for how long.
#[derive(Debug, PartialEq, Eq)]
pub struct LockRule {
    /// Target application, normalized to lowercase.
    app_name: String,
    duration: LockDuration,
}

impl View for LockRule {
    type V = LockRuleView;

    closed spec fn view(&self) -> LockRuleView {
        LockRuleView { app_name: self.app_name@, duration_days: self.duration@ }
    }
}

/// What `LockRule::new` returns for `app_name`: the error for the first
/// check that fails (blank name, path separator, missing executable extension),
/// else a rule for the lowercased name.
pub open spec fn lock_rule_outcome(app_name: Seq<char>, days: int, r: Result<LockRule, LockError>) -> bool {
    let normalized = lowercase(app_name);
    if all_whitespace(app_name) {
        r matches Err(LockError::InvalidAppName { app_name: n, reason })
            && n@ == app_name && reason@ == "App name cannot be empty"@
    } else if has_char(normalized, '\\') || has_char(normalized, '/') {
        r matches Err(LockError::InvalidAppName { app_name: n, reason })
            && n@ == app_name && reason@ == "App name must be a filename, not a path"@
    } else if !(has_suffix(normalized, ".exe"@) || has_suffix(normalized, ".com"@) || has_suffix(
        normalized,
        ".bat"@,
    )) {
        r matches Err(LockError::InvalidAppName { app_name: n, reason })
            && n@ == app_name && reason@ == "App name must end with .exe, .com, or .bat"@
    } else {
        r matches Ok(rule) && rule@ == LockRuleView { app_name: normalized, duration_days: days }
    }
}

impl Clone for LockRule {
    fn clone(&self) -> (r: Self)
        ensures
            r@ == self@,
    {
        proof {
            use_type_invariant(self);
        }
        LockRule { app_name: self.app_name.clone(), duration: self.duration }
    }
}

impl LockRule {
    #[verifier::type_invariant]
    pub open spec fn inv(self) -> bool {
        valid_app_name(self@.app_name)
    }

    /// Creates a lock rule for the executable `app_name`, stored lowercased.
    ///
    /// Fails with `InvalidAppName` when the name is blank, holds a path
    /// separator, or does not end with `.exe`, `.com` or `.bat`.
    pub fn new(app_name: &str, duration: LockDuration) -> (r: Result<Self, LockError>)
        ensures
            lock_rule_outcome(app_name@, duration@, r),
    {
        if is_blank(app_name) {
            return Err(
                LockError::InvalidAppName {
                    app_name: String::from_str(app_name),
                    reason: String::from_str("App name cannot be empty"),
                },
            );
        }
        let normalized = to_lowercase(app_name);
        let chars = chars_of(normalized.as_str());
        if contains_char(&chars, '\\') || contains_char(&chars, '/') {
            return Err(
                LockError::InvalidAppName {
                    app_name: String::from_str(app_name),
                    reason: String::from_str("App name must be a filename, not a path"),
                },
            );
        }
        if !ends_with(&chars, ".exe") && !ends_with(&chars, ".com") && !ends_with(&chars, ".bat") {
            return Err(
                LockError::InvalidAppName {
                    app_name: String::from_str(app_name),
                    reason: String::from_str("App name must end with .exe, .com, or .bat"),
                },
            );
        }
        Ok(LockRule { app_name: normalized, duration })
    }

    /// The app name (normalized to lowercase).
    pub fn app_name(&self) -> (name: &str)
        ensures
            name@ == self@.app_name,
    {
        self.app_name.as_str()
    }

    /// The lock duration.
    pub fn duration(&self) -> (d: LockDuration)
        ensures
            d@ == self@.duration_days,
    {
        self.duration
    }
}


/// Abstract value of a lock state.
pub struct LockStateView {
    pub rule: LockRuleView,
    pub start_time: int,
    pub end_time: int,
}

impl LockStateView {
    /// The lock is active at `now`: `now` lies before its end.
    pub open spec fn active_at(self, now: int) -> bool {
        now < self.end_time
    }

    /// Milliseconds left at `now` until the lock ends; `None` once it has ended.
    pub open spec fn remaining(self, now: int) -> Option<int> {
        if now < self.end_time {
            Some(self.end_time - now)
        } else {
            None
        }
    }
}

/// The active state of a lock: the rule, when it started, and when it ends.
///
/// The end is always the start plus the rule's duration; there is no way to
/// set it directly, so a lock can never be shortened.
#[derive(Debug, PartialEq, Eq)]
pub struct LockState {
    rule: LockRule,
    start_time: i64,
    end_time: i64,
}

impl View for LockState {
    type V = LockStateView;

    closed spec fn view(&self) -> LockStateView {
        LockStateView { rule: self.rule@, start_time: self.start_time as int, end_time: self.end_time as int }
    }
}

impl Clone for LockState {
    fn clone(&self) -> (r: Self)
        ensures
            r@ == self@,
    {
        proof {
            use_type_invariant(self);
        }
        LockState { rule: self.rule.clone(), start_time: self.start_time, end_time: self.end_time }
    }
}

/// What `LockState::new` decides for a rule and a start time at clock reading `now`.
pub open spec fn lock_state_outcome(
    rule: LockRuleView,
    start: i64,
    now: i64,
    r: Result<LockState, LockError>,
) -> bool {
    let end = start + rule.duration_days * MS_PER_DAY;
    if start > now {
        r matches Err(LockError::StartTimeInFuture { start: s, now: n })
            && s@ == rfc3339_text(start) && n@ == rfc3339_text(now)
    } else if end < now {
        r matches Err(LockError::EndTimeInPast { end: e, now: n })
            && e@ == rfc3339_text(end as i64) && n@ == rfc3339_text(now)
    } else {
        r matches Ok(state) && state@ == LockStateView { rule, start_time: start as int, end_time: end }
    }
}

/// Stored parts that make a valid lock state.
pub open spec fn restorable(rule: LockRuleView, start: int, end: int) -> bool {
    &&& end == start + rule.duration_days * MS_PER_DAY
    &&& instant_in_range(start)
    &&& instant_in_range(end)
}

impl LockState {
    #[verifier::type_invariant]
    pub open spec fn inv(self) -> bool {
        &&& self@.end_time == self@.start_time + self@.rule.duration_days * MS_PER_DAY
        &&& instant_in_range(self@.start_time)
        &&& instant_in_range(self@.end_time)
    }

    /// Length of the lock in milliseconds, as the rule gives it.
    pub open spec fn spec_duration_ms(self) -> int {
        self@.rule.duration_days * MS_PER_DAY
    }

    /// Creates the state of a lock that started at `start_time`, judged at clock reading `now`.
    ///
    /// Fails with `StartTimeInFuture` when the start lies after `now`, and with
    /// `EndTimeInPast` when the lock would already have ended at `now`.
    pub fn new_at(rule: LockRule, start_time: i64, now: i64) -> (r: Result<Self, LockError>)
        requires
            instant_in_range(start_time as int),
            instant_in_range(now as int),
            start_time <= now ==> instant_in_range(start_time + rule@.duration_days * MS_PER_DAY),
        ensures
            lock_state_outcome(rule@, start_time, now, r),
    {
        proof {
            use_type_invariant(&rule);
        }
        if start_time > now {
            return Err(LockError::StartTimeInFuture { start: rfc3339(start_time), now: rfc3339(now) });
        }
        let end_time = start_time + rule.duration.as_duration();
        if end_time < now {
            return Err(LockError::EndTimeInPast { end: rfc3339(end_time), now: rfc3339(now) });
        }
        Ok(LockState { rule, start_time, end_time })
    }

    /// Creates the state of a lock that started at `start_time`, judged against the current time.
    pub fn new(rule: LockRule, start_time: i64) -> (r: Result<Self, LockError>)
        requires
            instant_in_range(start_time as int),
            instant_in_range(start_time + rule@.duration_days * MS_PER_DAY),
        ensures
            exists|now: i64| instant_in_range(now as int) && #[trigger] lock_state_outcome(
                rule@,
                start_time,
                now,
                r,
            ),
    {
        let ghost view = rule@;
        let now = now_ms();
        let r = Self::new_at(rule, start_time, now);
        assert(lock_state_outcome(view, start_time, now, r));
        r
    }

    /// Rebuilds a lock state from stored parts; `None` when they break the
    /// invariants (end is start plus duration, both instants representable).
    pub fn restore(rule: LockRule, start_time: i64, end_time: i64) -> (r: Option<Self>)
        ensures
            r matches Some(s) ==> (s@ == (LockStateView {
                rule: rule@,
                start_time: start_time as int,
                end_time: end_time as int,
            })),
            r is None <==> !restorable(rule@, start_time as int, end_time as int),
    {
        proof {
            use_type_invariant(&rule);
        }
        let duration_ms = rule.duration.as_duration();
        if start_time < crate::clock::MIN_INSTANT_MS || start_time > crate::clock::MAX_INSTANT_MS
            || end_time < crate::clock::MIN_INSTANT_MS || end_time > crate::clock::MAX_INSTANT_MS {
            return None;
        }
        if end_time - start_time != duration_ms {
            return None;
        }
        Some(LockState { rule, start_time, end_time })
    }

    /// The lock is active at `now` when `now` lies before its end.
    pub fn is_active_at(&self, now: i64) -> (b: bool)
        ensures
            b == (now < self@.end_time),
    {
        now < self.end_time
    }

    /// The lock is active when the current time lies before its end.
    pub fn is_active(&self) -> (b: bool)
        ensures
            exists|now: int| instant_in_range(now) && #[trigger] self@.active_at(now) == b,
    {
        let now = now_ms();
        let b = self.is_active_at(now);
        assert(self@.active_at(now as int) == b);
        b
    }

    /// Milliseconds left at `now` until the lock ends; `None` when it has ended.
    pub fn time_remaining_at(&self, now: i64) -> (r: Option<i64>)
        requires
            instant_in_range(now as int),
        ensures
            r matches Some(ms) ==> self@.remaining(now as int) == Some(ms as int),
            r is None ==> self@.remaining(now as int) is None,
    {
        proof {
            use_type_invariant(self);
        }
        if now < self.end_time {
            Some(self.end_time - now)
        } else {
            None
        }
    }

    /// Milliseconds left until the lock ends, read against the current time.
    pub fn time_remaining(&self) -> (r: Option<i64>)
        ensures
            exists|now: int| instant_in_range(now) && #[trigger] self@.remaining(now) == match r {
                Some(ms) => Some(ms as int),
                None => None::<int>,
            },
    {
        let now = now_ms();
        let r = self.time_remaining_at(now);
        assert(self@.remaining(now as int) == match r {
            Some(ms) => Some(ms as int),
            None => None::<int>,
        });
        r
    }

    /// The rule that created this lock.
    pub fn rule(&self) -> (r: &LockRule)
        ensures
            r@ == self@.rule,
    {
        &self.rule
    }

    /// When the lock was activated.
    pub fn start_time(&self) -> (t: i64)
        ensures
            t == self@.start_time,
    {
        self.start_time
    }

    /// When the lock expires.
    pub fn end_time(&self) -> (t: i64)
        ensures
            t == self@.end_time,
    {
        self.end_time
    }

    /// Checks a proposed new end time: `Ok` when it does not come before the
    /// current end, `CannotShortenLock` when it would shorten the lock.
    pub fn validate_end_time_extension(&self, new_end_time: i64) -> (r: Result<(), LockError>)
        requires
            instant_in_range(new_end_time as int),
        ensures
            new_end_time >= self@.end_time ==> r is Ok,
            new_end_time < self@.end_time ==> (r matches Err(LockError::CannotShortenLock { current_end, attempted_new_end })
                && current_end@ == rfc3339_text(self@.end_time as i64)
                && attempted_new_end@ == rfc3339_text(new_end_time)),
    {
        proof {
            use_type_invariant(self);
        }
        if new_end_time < self.end_time {
            Err(
                LockError::CannotShortenLock {
                    current_end: rfc3339(self.end_time),
                    attempted_new_end: rfc3339(new_end_time),
                },
            )
        } else {
            Ok(())
        }
    }
}


/// A name is refused as empty only when it is blank: a name with some
/// character other than whitespace whose lowercase form is a plain executable
/// name (no path separator, `.exe`, `.com` or `.bat`) is accepted, lowercased.
pub proof fn law_rule_accepts_plain_names(name: Seq<char>, days: int, r: Result<LockRule, LockError>)
    requires
        lock_rule_outcome(name, days, r),
        !all_whitespace(name),
        valid_app_name(lowercase(name)),
    ensures
        r matches Ok(rule) && rule@.app_name == lowercase(name) && rule@.duration_days == days,
{
}

/// Every rule that is accepted names an executable file, lowercased from the
/// name given, and every blank name is refused as empty.
pub proof fn law_rule_outcomes(name: Seq<char>, days: int, r: Result<LockRule, LockError>)
    requires
        lock_rule_outcome(name, days, r),
    ensures
        r matches Ok(rule) ==> rule@.app_name == lowercase(name) && valid_app_name(rule@.app_name)
            && !all_whitespace(name),
        all_whitespace(name) ==> (r matches Err(LockError::InvalidAppName { app_name, reason })
            && app_name@ == name && reason@ == "App name cannot be empty"@),
{
}

/// Once a lock has ended it stays ended: a lock active at some instant was
/// active at every earlier instant.
pub proof fn law_activity_is_monotone(lock: LockStateView, earlier: int, later: int)
    requires
        earlier <= later,
        lock.active_at(later),
    ensures
        lock.active_at(earlier),
{
}

/// Time remains exactly while the lock is active, and the time remaining
/// added to the present instant is the lock's end.
pub proof fn law_remaining_reaches_end(lock: LockStateView, now: int)
    ensures
        lock.active_at(now) <==> lock.remaining(now) is Some,
        lock.remaining(now) matches Some(ms) ==> ms > 0 && now + ms == lock.end_time,
{
}

} // verus!
