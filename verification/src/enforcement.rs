//! Enforcement decisions: a grace period of warnings before termination,
//! respawn detection, and the engine that decides what to do with a locked process.

use vstd::prelude::*;
use vstd::string::StringExecFns;
use crate::clock::{instant_in_range, now_ms};
use crate::domain::{LockState, LockStateView};
use crate::error::LockError;
use crate::process::{ProcessInfo, ProcessInfoView};
use crate::text::{decimal, i64_to_decimal, signed_decimal, u128_to_decimal};

verus! {

/// What the service should do next about a process.
#[derive(Debug, Clone, Copy, PartialEq, Eq, Structural)]
pub enum EnforcementAction {
    /// Nothing to do (lock not active, no matching processes).
    Ignore,
    /// Warn the user (grace period running).
    Warn {
        /// Milliseconds until termination.
        time_remaining_ms: u64,
    },
    /// Terminate the process immediately.
    Terminate,
    /// Wait and check again for a respawn.
    WaitForRespawn,
}

impl EnforcementAction {
    /// The text that describes the action.
    pub open spec fn text(self) -> Seq<char> {
        match self {
            EnforcementAction::Ignore => "Ignore"@,
            EnforcementAction::Warn { time_remaining_ms } => "Warn ("@ + decimal(time_remaining_ms as nat)
                + "ms until termination)"@,
            EnforcementAction::Terminate => "Terminate"@,
            EnforcementAction::WaitForRespawn => "Wait for respawn"@,
        }
    }

    /// Renders the action as text.
    pub fn to_string(&self) -> (s: String)
        ensures
            s@ == self.text(),
    {
        match self {
            EnforcementAction::Ignore => String::from_str("Ignore"),
            EnforcementAction::Warn { time_remaining_ms } => {
                let mut s = String::from_str("Warn (");
                s.append(u128_to_decimal(*time_remaining_ms as u128).as_str());
                s.append("ms until termination)");
                s
            },
            EnforcementAction::Terminate => String::from_str("Terminate"),
            EnforcementAction::WaitForRespawn => String::from_str("Wait for respawn"),
        }
    }
}

/// Abstract value of a grace period.
pub struct GracePeriodView {
    pub duration_ms: int,
    pub started_at: Option<int>,
}

/// How long to warn before terminating, and when the warning began.
#[derive(Debug, Clone, Copy, PartialEq, Eq)]
pub struct GracePeriod {
    duration_ms: i64,
    started_at: Option<i64>,
}

impl View for GracePeriod {
    type V = GracePeriodView;

    closed spec fn view(&self) -> GracePeriodView {
        GracePeriodView {
            duration_ms: self.duration_ms as int,
            started_at: match self.started_at {
                Some(s) => Some(s as int),
                None => None,
            },
        }
    }
}

impl GracePeriodView {
    /// The grace period has begun.
    pub open spec fn is_active(self) -> bool {
        self.started_at is Some
    }

    /// When the grace period ends (once begun).
    pub open spec fn deadline(self) -> int {
        self.started_at->0 + self.duration_ms
    }

    /// The deadline is a representable instant (or the period has not begun).
    pub open spec fn deadline_representable(self) -> bool {
        self.started_at is Some ==> instant_in_range(self.deadline())
    }

    /// The grace period has run out at `now`.
    pub open spec fn is_expired(self, now: int) -> bool {
        self.started_at is Some && now >= self.deadline()
    }

    /// Milliseconds left at `now`; `None` when not begun or run out.
    pub open spec fn remaining(self, now: int) -> Option<int> {
        if self.started_at is Some && now < self.deadline() {
            Some(self.deadline() - now)
        } else {
            None
        }
    }
}

/// The text that `{:?}` gives for `chrono::TimeDelta::milliseconds(ms)`: its derived
/// `Debug`, with the whole seconds rounded down and the nanoseconds left over.
pub open spec fn time_delta_debug(ms: int) -> Seq<char> {
    "TimeDelta { secs: "@ + signed_decimal(ms / 1000) + ", nanos: "@ + decimal(((ms % 1000) * 1000000) as nat)
        + " }"@
}

/// `e` is the error for a grace period of `ms` milliseconds that is not positive.
pub open spec fn is_grace_period_error(ms: int, e: LockError) -> bool {
    e matches LockError::InvalidGracePeriod { reason }
        && reason@ == "Grace period must be positive (got "@ + time_delta_debug(ms) + ")"@
}

/// Renders `ms` milliseconds as [`time_delta_debug`] describes.
fn time_delta_debug_text(ms: i64) -> (s: String)
    ensures
        s@ == time_delta_debug(ms as int),
{
    let secs: i64;
    let millis: u64;
    if ms >= 0 {
        let u = ms as u64;
        secs = (u / 1000) as i64;
        millis = u % 1000;
        assert(secs == ms / 1000 && millis == ms % 1000);
    } else {
        let m: u64 = (0i128 - ms as i128) as u64;
        let q: u64 = (m + 999) / 1000;
        secs = 0 - (q as i64);
        millis = q * 1000 - m;
        assert(secs == ms / 1000 && millis == ms % 1000) by (nonlinear_arith)
            requires
                ms < 0,
                m == -ms,
                q == (m + 999) / 1000,
                secs == -q,
                millis == q * 1000 - m,
        {
            assert(q * 1000 <= m + 999 < q * 1000 + 1000);
        }
    }
    let mut s = String::from_str("TimeDelta { secs: ");
    s.append(i64_to_decimal(secs).as_str());
    s.append(", nanos: ");
    s.append(u128_to_decimal((millis as u128) * 1000000).as_str());
    s.append(" }");
    s
}

impl GracePeriod {
    #[verifier::type_invariant]
    pub open spec fn inv(self) -> bool {
        &&& self@.duration_ms > 0
        &&& (self@.started_at matches Some(s) ==> instant_in_range(s))
    }

    /// Creates a grace period of `duration_ms` milliseconds, not yet begun.
    ///
    /// Fails with `InvalidGracePeriod` unless the duration is positive.
    pub fn new(duration_ms: i64) -> (r: Result<Self, LockError>)
        ensures
            duration_ms > 0 ==> (r matches Ok(g) && g@ == (GracePeriodView {
                duration_ms: duration_ms as int,
                started_at: None,
            })),
            duration_ms <= 0 ==> (r matches Err(e) && is_grace_period_error(duration_ms as int, e)),
    {
        if duration_ms <= 0 {
            let mut reason = String::from_str("Grace period must be positive (got ");
            reason.append(time_delta_debug_text(duration_ms).as_str());
            reason.append(")");
            return Err(LockError::InvalidGracePeriod { reason });
        }
        Ok(GracePeriod { duration_ms, started_at: None })
    }

    /// Begins the grace period at `now`; once begun it never changes.
    pub fn activate_at(&mut self, now: i64)
        requires
            instant_in_range(now as int),
        ensures
            old(self)@.started_at is None ==> final(self)@ == (GracePeriodView {
                duration_ms: old(self)@.duration_ms,
                started_at: Some(now as int),
            }),
            old(self)@.started_at is Some ==> final(self)@ == old(self)@,
    {
        proof {
            use_type_invariant(&*self);
        }
        if self.started_at.is_none() {
            self.started_at = Some(now);
        }
    }

    /// Begins the grace period at the current time; once begun it never changes.
    pub fn activate(&mut self)
        ensures
            old(self)@.started_at is None ==> final(self)@.duration_ms == old(self)@.duration_ms,
            old(self)@.started_at is None ==> (final(self)@.started_at matches Some(s) && instant_in_range(s)),
            old(self)@.started_at is Some ==> final(self)@ == old(self)@,
    {
        let now = now_ms();
        self.activate_at(now);
    }

    /// Whether the grace period has begun.
    pub fn is_active(&self) -> (b: bool)
        ensures
            b == self@.is_active(),
    {
        self.started_at.is_some()
    }

    /// Whether the grace period has run out at `now`.
    pub fn is_expired_at(&self, now: i64) -> (b: bool)
        requires
            self@.deadline_representable(),
        ensures
            b == self@.is_expired(now as int),
    {
        match self.started_at {
            Some(start) => now >= start + self.duration_ms,
            None => false,
        }
    }

    /// Whether the grace period has run out at the current time.
    pub fn is_expired(&self) -> (b: bool)
        requires
            self@.deadline_representable(),
        ensures
            exists|now: int| instant_in_range(now) && #[trigger] self@.is_expired(now) == b,
    {
        let now = now_ms();
        let b = self.is_expired_at(now);
        assert(self@.is_expired(now as int) == b);
        b
    }

    /// Milliseconds left at `now`; `None` when not begun or run out.
    pub fn time_remaining_at(&self, now: i64) -> (r: Option<i64>)
        requires
            self@.deadline_representable(),
            instant_in_range(now as int),
        ensures
            r matches Some(ms) ==> self@.remaining(now as int) == Some(ms as int),
            r is None ==> self@.remaining(now as int) is None,
    {
        match self.started_at {
            Some(start) => {
                let end = start + self.duration_ms;
                if now < end {
                    Some(end - now)
                } else {
                    None
                }
            },
            None => None,
        }
    }

    /// Milliseconds left at the current time; `None` when not begun or run out.
    pub fn time_remaining(&self) -> (r: Option<i64>)
        requires
            self@.deadline_representable(),
        ensures
            exists|now: int| instant_in_range(now) && #[trigger] self@.remaining(now) == match r {
                Some(ms) => Some(ms as int),
                None => None::<int>,
            },
    {
        let now = now_ms();
        let r = self.time_remaining_at(now);
        assert(self@.remaining(now as int) == match r {
            Some(ms) => Some(ms as int),
            None => None::<int>,
        });
        r
    }

    /// The configured duration in milliseconds.
    pub fn duration(&self) -> (d: i64)
        ensures
            d == self@.duration_ms,
            d > 0,
    {
        proof {
            use_type_invariant(self);
        }
        self.duration_ms
    }

    /// When the grace period began, if it has.
    pub fn started_at(&self) -> (s: Option<i64>)
        ensures
            s matches Some(t) ==> self@.started_at == Some(t as int),
            s matches Some(t) ==> instant_in_range(t as int),
            s is None <==> self@.started_at is None,
    {
        proof {
            use_type_invariant(self);
        }
        self.started_at
    }
}


/// Abstract value of a termination record.
pub struct TerminationView {
    pub pid: u32,
    pub exe_name: Seq<char>,
    pub reason: Seq<char>,
    pub terminated_at: int,
}

/// Record of a process termination: which process, why, and when.
#[derive(Debug, PartialEq, Eq)]
pub struct ProcessTerminationLog {
    /// Process ID that was terminated.
    pub pid: u32,
    /// Executable name.
    pub exe_name: String,
    /// Why it was terminated.
    pub reason: String,
    /// When it was terminated (milliseconds since the epoch).
    pub terminated_at: i64,
}

impl View for ProcessTerminationLog {
    type V = TerminationView;

    open spec fn view(&self) -> TerminationView {
        TerminationView {
            pid: self.pid,
            exe_name: self.exe_name@,
            reason: self.reason@,
            terminated_at: self.terminated_at as int,
        }
    }
}

impl Clone for ProcessTerminationLog {
    fn clone(&self) -> (r: Self)
        ensures
            r@ == self@,
    {
        ProcessTerminationLog {
            pid: self.pid,
            exe_name: self.exe_name.clone(),
            reason: self.reason.clone(),
            terminated_at: self.terminated_at,
        }
    }
}

impl ProcessTerminationLog {
    /// A termination record stamped with `now`.
    pub fn new_at(pid: u32, exe_name: &str, reason: &str, now: i64) -> (r: Self)
        ensures
            r@ == (TerminationView { pid, exe_name: exe_name@, reason: reason@, terminated_at: now as int }),
    {
        ProcessTerminationLog {
            pid,
            exe_name: String::from_str(exe_name),
            reason: String::from_str(reason),
            terminated_at: now,
        }
    }

    /// A termination record stamped with the current time.
    pub fn new(pid: u32, exe_name: &str, reason: &str) -> (r: Self)
        ensures
            r@.pid == pid,
            r@.exe_name == exe_name@,
            r@.reason == reason@,
            instant_in_range(r@.terminated_at),
    {
        Self::new_at(pid, exe_name, reason, now_ms())
    }
}

/// The abstract values of a sequence of termination records.
pub open spec fn log_views(s: Seq<ProcessTerminationLog>) -> Seq<TerminationView> {
    s.map_values(|l: ProcessTerminationLog| l@)
}

/// The abstract values of a sequence of processes.
pub open spec fn seen_views(s: Seq<ProcessInfo>) -> Seq<ProcessInfoView> {
    s.map_values(|p: ProcessInfo| p@)
}

/// The process last recorded under executable name `name`, if any.
pub open spec fn last_seen_for(s: Seq<ProcessInfoView>, name: Seq<char>) -> Option<ProcessInfoView>
    decreases s.len(),
{
    if s.len() == 0 {
        None
    } else if s.last().exe_name == name {
        Some(s.last())
    } else {
        last_seen_for(s.drop_last(), name)
    }
}

/// The records of `s` for executables other than `name`.
pub open spec fn without_name(s: Seq<ProcessInfoView>, name: Seq<char>) -> Seq<ProcessInfoView> {
    s.filter(|q: ProcessInfoView| q.exe_name != name)
}

/// The records after recording `p`: it replaces any record under the same name.
pub open spec fn record_seen(s: Seq<ProcessInfoView>, p: ProcessInfoView) -> Seq<ProcessInfoView> {
    without_name(s, p.exe_name).push(p)
}

/// `p` is a respawn: its executable was recorded before under another PID.
pub open spec fn is_respawn_in(s: Seq<ProcessInfoView>, p: ProcessInfoView) -> bool {
    match last_seen_for(s, p.exe_name) {
        Some(last) => last.pid != p.pid,
        None => false,
    }
}

/// Dropping the records of one name leaves the lookup of every other name unchanged.
pub proof fn lemma_without_name_lookup(s: Seq<ProcessInfoView>, name: Seq<char>, other: Seq<char>)
    requires
        other != name,
    ensures
        last_seen_for(without_name(s, name), other) == last_seen_for(s, other),
    decreases s.len(),
{
    reveal(Seq::filter);
    if s.len() > 0 {
        lemma_without_name_lookup(s.drop_last(), name, other);
        let w = without_name(s.drop_last(), name);
        if s.last().exe_name != name {
            assert(without_name(s, name) == w.push(s.last()));
            assert(w.push(s.last()).drop_last() =~= w);
        } else {
            assert(without_name(s, name) == w);
        }
    }
}

/// No two records share an executable name.
pub open spec fn unique_names(s: Seq<ProcessInfoView>) -> bool {
    forall|i: int, j: int| 0 <= i < j < s.len() ==> (#[trigger] s[i]).exe_name != (#[trigger] s[j]).exe_name
}

/// Dropping the records of `name` leaves none under that name, and keeps names unique.
pub proof fn lemma_without_name_unique(s: Seq<ProcessInfoView>, name: Seq<char>)
    requires
        unique_names(s),
    ensures
        unique_names(without_name(s, name)),
        forall|k: int| 0 <= k < without_name(s, name).len() ==> (#[trigger] without_name(s, name)[k]).exe_name != name,
        forall|k: int| 0 <= k < without_name(s, name).len() ==> s.contains(#[trigger] without_name(s, name)[k]),
    decreases s.len(),
{
    reveal(Seq::filter);
    if s.len() > 0 {
        let rest = s.drop_last();
        assert(unique_names(rest)) by {
            assert forall|i: int, j: int| 0 <= i < j < rest.len() implies (#[trigger] rest[i]).exe_name
                != (#[trigger] rest[j]).exe_name by {
                assert(rest[i] == s[i] && rest[j] == s[j]);
            }
        }
        lemma_without_name_unique(rest, name);
        let w = without_name(rest, name);
        if s.last().exe_name != name {
            let out = w.push(s.last());
            assert(without_name(s, name) == out);
            assert forall|k: int| 0 <= k < w.len() implies (#[trigger] w[k]).exe_name != s.last().exe_name by {
                assert(rest.contains(w[k]));
                let i = choose|i: int| 0 <= i < rest.len() && rest[i] == w[k];
                assert(s[i] == rest[i]);
                assert(s[s.len() - 1] == s.last());
            }
            assert forall|i: int, j: int| 0 <= i < j < out.len() implies (#[trigger] out[i]).exe_name
                != (#[trigger] out[j]).exe_name by {
                if j == out.len() - 1 {
                    assert(out[i] == w[i]);
                } else {
                    assert(out[i] == w[i] && out[j] == w[j]);
                }
            }
            assert forall|k: int| 0 <= k < out.len() implies s.contains(#[trigger] out[k]) by {
                if k == out.len() - 1 {
                    assert(s[s.len() - 1] == out[k]);
                } else {
                    assert(out[k] == w[k]);
                    assert(rest.contains(w[k]));
                    let i = choose|i: int| 0 <= i < rest.len() && rest[i] == w[k];
                    assert(s[i] == rest[i]);
                }
            }
        } else {
            assert(without_name(s, name) == w);
            assert forall|k: int| 0 <= k < w.len() implies s.contains(#[trigger] w[k]) by {
                assert(rest.contains(w[k]));
                let i = choose|i: int| 0 <= i < rest.len() && rest[i] == w[k];
                assert(s[i] == rest[i]);
            }
        }
    }
}

/// Recording a process keeps one record per executable name.
pub proof fn law_record_keeps_names_unique(s: Seq<ProcessInfoView>, p: ProcessInfoView)
    requires
        unique_names(s),
    ensures
        unique_names(record_seen(s, p)),
{
    lemma_without_name_unique(s, p.exe_name);
    let w = without_name(s, p.exe_name);
    let out = w.push(p);
    assert forall|i: int, j: int| 0 <= i < j < out.len() implies (#[trigger] out[i]).exe_name
        != (#[trigger] out[j]).exe_name by {
        if j == out.len() - 1 {
            assert(out[i] == w[i]);
        } else {
            assert(out[i] == w[i] && out[j] == w[j]);
        }
    }
}

/// Abstract value of a respawn detector.
pub struct RespawnDetectorView {
    pub last_seen: Seq<ProcessInfoView>,
    pub log: Seq<TerminationView>,
}

/// Tracks the last process seen for each executable name, to tell a respawn
/// (same executable, new PID) from the process already known, and keeps a log
/// of terminations.
#[derive(Debug)]
pub struct RespawnDetector {
    last_seen: Vec<ProcessInfo>,
    termination_log: Vec<ProcessTerminationLog>,
}

impl View for RespawnDetector {
    type V = RespawnDetectorView;

    closed spec fn view(&self) -> RespawnDetectorView {
        RespawnDetectorView {
            last_seen: seen_views(self.last_seen@),
            log: log_views(self.termination_log@),
        }
    }
}

impl RespawnDetector {
    /// At most one record per executable name, as in a map from name to process.
    #[verifier::type_invariant]
    pub open spec fn inv(self) -> bool {
        unique_names(self@.last_seen)
    }

    /// A detector that has seen nothing and logged nothing.
    pub fn new() -> (d: Self)
        ensures
            d@.last_seen.len() == 0,
            d@.log.len() == 0,
    {
        RespawnDetector { last_seen: Vec::new(), termination_log: Vec::new() }
    }

    /// Records `process` as the one last seen for its executable name,
    /// replacing any earlier record under that name.
    pub fn record_process(&mut self, process: ProcessInfo)
        ensures
            final(self)@.last_seen == record_seen(old(self)@.last_seen, process@),
            final(self)@.log == old(self)@.log,
    {
        let mut kept: Vec<ProcessInfo> = Vec::new();
        let mut i: usize = 0;
        while i < self.last_seen.len()
            invariant
                i <= self.last_seen@.len(),
                seen_views(kept@) == without_name(seen_views(self.last_seen@.take(i as int)), process.exe_name@),
            decreases self.last_seen.len() - i,
        {
            let ghost before = kept@;
            if self.last_seen[i].exe_name != process.exe_name {
                let copy = self.last_seen[i].clone();
                kept.push(copy);
                assert(seen_views(kept@) =~= seen_views(before).push(copy@));
            }
            proof {
                reveal(Seq::filter);
                let pre = seen_views(self.last_seen@.take(i as int));
                let post = seen_views(self.last_seen@.take(i + 1));
                assert(post.drop_last() =~= pre);
                assert(post.last() == self.last_seen@[i as int]@);
            }
            i = i + 1;
        }
        assert(self.last_seen@.take(self.last_seen@.len() as int) =~= self.last_seen@);
        let ghost before = kept@;
        kept.push(process);
        assert(seen_views(kept@) =~= seen_views(before).push(process@));
        proof {
            use_type_invariant(&*self);
            law_record_keeps_names_unique(old(self)@.last_seen, process@);
        }
        self.last_seen = kept;
    }

    /// Whether `process` is a respawn: its executable was recorded before with a different PID.
    pub fn is_respawn(&self, process: &ProcessInfo) -> (b: bool)
        ensures
            b == is_respawn_in(self@.last_seen, process@),
    {
        let mut i: usize = self.last_seen.len();
        assert(self.last_seen@.take(i as int) =~= self.last_seen@);
        while i > 0
            invariant
                i <= self.last_seen@.len(),
                last_seen_for(seen_views(self.last_seen@), process.exe_name@) == last_seen_for(
                    seen_views(self.last_seen@.take(i as int)),
                    process.exe_name@,
                ),
            decreases i,
        {
            let ghost prefix = seen_views(self.last_seen@.take(i as int));
            assert(prefix.last() == self.last_seen@[i - 1]@);
            if self.last_seen[i - 1].exe_name == process.exe_name {
                return self.last_seen[i - 1].pid != process.pid;
            }
            assert(prefix.drop_last() =~= seen_views(self.last_seen@.take(i - 1)));
            i = i - 1;
        }
        false
    }

    /// Appends a termination record to the log.
    pub fn log_termination(&mut self, log: ProcessTerminationLog)
        ensures
            final(self)@.log == old(self)@.log.push(log@),
            final(self)@.last_seen == old(self)@.last_seen,
    {
        proof {
            use_type_invariant(&*self);
        }
        let mut entries: Vec<ProcessTerminationLog> = Vec::new();
        std::mem::swap(&mut entries, &mut self.termination_log);
        entries.push(log);
        self.termination_log = entries;
        assert(log_views(self.termination_log@) =~= log_views(old(self).termination_log@).push(log@));
    }

    /// All termination records, oldest first.
    pub fn termination_log(&self) -> (l: &[ProcessTerminationLog])
        ensures
            log_views(l@) == self@.log,
    {
        self.termination_log.as_slice()
    }

    /// The `count` most recent termination records, newest first.
    pub fn recent_terminations(&self, count: usize) -> (r: Vec<&ProcessTerminationLog>)
        ensures
            r@.len() == if count < self@.log.len() { count as int } else { self@.log.len() as int },
            forall|k: int| 0 <= k < r@.len() ==> (#[trigger] r@[k])@ == self@.log[self@.log.len() - 1 - k],
    {
        let n = self.termination_log.len();
        let mut r: Vec<&ProcessTerminationLog> = Vec::new();
        let mut k: usize = 0;
        while k < count && k < n
            invariant
                n == self.termination_log@.len(),
                k <= n,
                k <= count,
                r@.len() == k,
                forall|j: int| 0 <= j < k ==> (#[trigger] r@[j])@ == self@.log[n - 1 - j],
            decreases n - k,
        {
            r.push(&self.termination_log[n - 1 - k]);
            k = k + 1;
        }
        r
    }

    /// Drops the termination records made at or before `cutoff_time`, keeping the order of the rest.
    pub fn prune_old_entries(&mut self, cutoff_time: i64)
        ensures
            final(self)@.log == old(self)@.log.filter(|e: TerminationView| e.terminated_at > cutoff_time),
            final(self)@.last_seen == old(self)@.last_seen,
    {
        proof {
            use_type_invariant(&*self);
        }
        let mut kept: Vec<ProcessTerminationLog> = Vec::new();
        let mut i: usize = 0;
        while i < self.termination_log.len()
            invariant
                i <= self.termination_log@.len(),
                log_views(kept@) == log_views(self.termination_log@.take(i as int)).filter(
                    |e: TerminationView| e.terminated_at > cutoff_time,
                ),
            decreases self.termination_log.len() - i,
        {
            let ghost before = kept@;
            if self.termination_log[i].terminated_at > cutoff_time {
                let copy = self.termination_log[i].clone();
                kept.push(copy);
                assert(log_views(kept@) =~= log_views(before).push(copy@));
            }
            proof {
                reveal(Seq::filter);
                let pre = log_views(self.termination_log@.take(i as int));
                let post = log_views(self.termination_log@.take(i + 1));
                assert(post.drop_last() =~= pre);
                assert(post.last() == self.termination_log@[i as int]@);
            }
            i = i + 1;
        }
        assert(self.termination_log@.take(self.termination_log@.len() as int) =~= self.termination_log@);
        self.termination_log = kept;
    }
}

impl Default for RespawnDetector {
    fn default() -> (d: Self)
        ensures
            d@.last_seen.len() == 0,
            d@.log.len() == 0,
    {
        RespawnDetector::new()
    }
}


/// Abstract value of an enforcement engine.
pub struct EngineView {
    pub lock: LockStateView,
    pub grace: GracePeriodView,
    pub detector: RespawnDetectorView,
}

/// The engine's view after appending a termination record for `p` at `now`.
pub open spec fn with_termination(pre: EngineView, p: ProcessInfoView, reason: Seq<char>, now: int) -> EngineView {
    EngineView {
        lock: pre.lock,
        grace: pre.grace,
        detector: RespawnDetectorView {
            last_seen: pre.detector.last_seen,
            log: pre.detector.log.push(
                TerminationView { pid: p.pid, exe_name: p.exe_name, reason, terminated_at: now },
            ),
        },
    }
}

/// What the engine decides for process `p` at clock reading `now`, and its state afterwards:
/// - lock no longer active: ignore, nothing changes;
/// - a respawn (known executable, new PID): terminate at once and log it;
/// - first sighting with the grace period not begun: begin it, record the process, warn with the full period;
/// - grace period run out: terminate and log it;
/// - otherwise: warn with the time left.
pub open spec fn check_step(pre: EngineView, p: ProcessInfoView, now: int) -> (EngineView, EnforcementAction) {
    if !pre.lock.active_at(now) {
        (pre, EnforcementAction::Ignore)
    } else if is_respawn_in(pre.detector.last_seen, p) {
        (
            with_termination(pre, p, "Respawn detected (process restarted after termination)"@, now),
            EnforcementAction::Terminate,
        )
    } else if !pre.grace.is_active() {
        (
            EngineView {
                lock: pre.lock,
                grace: GracePeriodView { duration_ms: pre.grace.duration_ms, started_at: Some(now) },
                detector: RespawnDetectorView {
                    last_seen: record_seen(pre.detector.last_seen, p),
                    log: pre.detector.log,
                },
            },
            EnforcementAction::Warn { time_remaining_ms: pre.grace.duration_ms as u64 },
        )
    } else if pre.grace.is_expired(now) {
        (with_termination(pre, p, "Grace period expired"@, now), EnforcementAction::Terminate)
    } else {
        (pre, EnforcementAction::Warn { time_remaining_ms: (pre.grace.deadline() - now) as u64 })
    }
}

/// The engine's state after `check_step` and the decision it returns.
pub open spec fn check_outcome(
    pre: EngineView,
    p: ProcessInfoView,
    now: int,
    post: EngineView,
    r: Result<EnforcementAction, LockError>,
) -> bool {
    post == check_step(pre, p, now).0 && r == Ok::<EnforcementAction, LockError>(check_step(pre, p, now).1)
}

/// The decision about `p` at `now` goes by the grace period's deadline: the
/// lock is active, `p` is no respawn, and the period has begun.
pub open spec fn uses_deadline(e: EngineView, p: ProcessInfoView, now: int) -> bool {
    &&& e.lock.active_at(now)
    &&& !is_respawn_in(e.detector.last_seen, p)
    &&& e.grace.is_active()
}

/// A decision about `p` at `now` can be made: where it goes by the grace
/// period's deadline, that deadline is a representable instant.
pub open spec fn decision_ready(e: EngineView, p: ProcessInfoView, now: int) -> bool {
    uses_deadline(e, p, now) ==> e.grace.deadline_representable()
}

/// Decides, for each locked process it is shown, whether to warn, terminate or ignore it.
#[derive(Debug)]
pub struct EnforcementEngine {
    lock_state: LockState,
    grace_period: GracePeriod,
    respawn_detector: RespawnDetector,
}

impl View for EnforcementEngine {
    type V = EngineView;

    closed spec fn view(&self) -> EngineView {
        EngineView { lock: self.lock_state@, grace: self.grace_period@, detector: self.respawn_detector@ }
    }
}

/// What `EnforcementEngine::new` decides at clock reading `now`.
pub open spec fn engine_outcome(
    lock: LockStateView,
    grace_ms: i64,
    now: int,
    r: Result<EnforcementEngine, LockError>,
) -> bool {
    if !(now < lock.end_time) {
        r matches Err(LockError::EnforcementNotApplicable { reason }) && reason@ == "Lock is not active"@
    } else if grace_ms <= 0 {
        r matches Err(e) && is_grace_period_error(grace_ms as int, e)
    } else {
        r matches Ok(e) && e@ == (EngineView {
            lock,
            grace: GracePeriodView { duration_ms: grace_ms as int, started_at: None },
            detector: RespawnDetectorView { last_seen: Seq::empty(), log: Seq::empty() },
        })
    }
}

impl EnforcementEngine {
    /// Creates an engine for `lock_state`, warning `grace_period_ms` milliseconds
    /// before terminating, judged at clock reading `now`.
    ///
    /// Fails with `EnforcementNotApplicable` when the lock is not active at `now`,
    /// and with `InvalidGracePeriod` when the grace period is not positive.
    pub fn new_at(lock_state: LockState, grace_period_ms: i64, now: i64) -> (r: Result<Self, LockError>)
        ensures
            engine_outcome(lock_state@, grace_period_ms, now as int, r),
    {
        if !lock_state.is_active_at(now) {
            return Err(LockError::EnforcementNotApplicable { reason: String::from_str("Lock is not active") });
        }
        let grace_period = match GracePeriod::new(grace_period_ms) {
            Ok(g) => g,
            Err(e) => {
                return Err(e);
            },
        };
        let respawn_detector = RespawnDetector::new();
        let e = EnforcementEngine { lock_state, grace_period, respawn_detector };
        assert(e@.detector.last_seen =~= Seq::<ProcessInfoView>::empty());
        assert(e@.detector.log =~= Seq::<TerminationView>::empty());
        Ok(e)
    }

    /// Creates an engine for `lock_state`, judged against the current time.
    pub fn new(lock_state: LockState, grace_period_ms: i64) -> (r: Result<Self, LockError>)
        ensures
            exists|now: int| instant_in_range(now) && #[trigger] engine_outcome(
                lock_state@,
                grace_period_ms,
                now,
                r,
            ),
    {
        let ghost lock = lock_state@;
        let now = now_ms();
        let r = Self::new_at(lock_state, grace_period_ms, now);
        assert(engine_outcome(lock, grace_period_ms, now as int, r));
        r
    }

    /// Decides what to do about `process` at clock reading `now` (see [`check_outcome`]).
    pub fn check_process_at(&mut self, process: &ProcessInfo, now: i64) -> (r: Result<EnforcementAction, LockError>)
        requires
            instant_in_range(now as int),
            decision_ready(old(self)@, process@, now as int),
        ensures
            check_outcome(old(self)@, process@, now as int, final(self)@, r),
    {
        if !self.lock_state.is_active_at(now) {
            return Ok(EnforcementAction::Ignore);
        }
        if self.respawn_detector.is_respawn(process) {
            let log = ProcessTerminationLog::new_at(
                process.pid,
                process.exe_name.as_str(),
                "Respawn detected (process restarted after termination)",
                now,
            );
            self.respawn_detector.log_termination(log);
            return Ok(EnforcementAction::Terminate);
        }
        if !self.grace_period.is_active() {
            self.grace_period.activate_at(now);
            self.respawn_detector.record_process(process.clone());
            let d = self.grace_period.duration();
            return Ok(EnforcementAction::Warn { time_remaining_ms: d as u64 });
        }
        if self.grace_period.is_expired_at(now) {
            let log = ProcessTerminationLog::new_at(
                process.pid,
                process.exe_name.as_str(),
                "Grace period expired",
                now,
            );
            self.respawn_detector.log_termination(log);
            return Ok(EnforcementAction::Terminate);
        }
        match self.grace_period.time_remaining_at(now) {
            Some(remaining) => Ok(EnforcementAction::Warn { time_remaining_ms: remaining as u64 }),
            None => Ok(EnforcementAction::Terminate),
        }
    }

    /// Decides what to do about `process` at the current time (see [`check_outcome`]).
    pub fn check_process(&mut self, process: &ProcessInfo) -> (r: Result<EnforcementAction, LockError>)
        requires
            !is_respawn_in(old(self)@.detector.last_seen, process@) && old(self)@.grace.is_active()
                ==> old(self)@.grace.deadline_representable(),
        ensures
            exists|now: int| instant_in_range(now) && #[trigger] check_outcome(
                old(self)@,
                process@,
                now,
                final(self)@,
                r,
            ),
    {
        let ghost pre = self@;
        let now = now_ms();
        let r = self.check_process_at(process, now);
        assert(check_outcome(pre, process@, now as int, self@, r));
        r
    }

    /// Whether a decision about `process` can be made at `now` (see [`decision_ready`]).
    pub fn decision_ready_at(&self, process: &ProcessInfo, now: i64) -> (b: bool)
        ensures
            b == decision_ready(self@, process@, now as int),
    {
        if !self.lock_state.is_active_at(now) || self.respawn_detector.is_respawn(process) {
            return true;
        }
        let d = self.grace_period.duration();
        match self.grace_period.started_at() {
            Some(start) => start <= crate::clock::MAX_INSTANT_MS - d,
            None => true,
        }
    }

    /// The lock being enforced.
    pub fn lock_state(&self) -> (l: &LockState)
        ensures
            l@ == self@.lock,
    {
        &self.lock_state
    }

    /// The grace period.
    pub fn grace_period(&self) -> (g: &GracePeriod)
        ensures
            g@ == self@.grace,
    {
        &self.grace_period
    }

    /// The respawn detector.
    pub fn respawn_detector(&self) -> (d: &RespawnDetector)
        ensures
            d@ == self@.detector,
    {
        &self.respawn_detector
    }

    /// The respawn detector, for updating it; lock and grace period stay as they are.
    pub fn respawn_detector_mut(&mut self) -> (d: &mut RespawnDetector)
        ensures
            d@ == old(self)@.detector,
            final(self)@.lock == old(self)@.lock,
            final(self)@.grace == old(self)@.grace,
            final(self)@.detector == final(d)@,
    {
        &mut self.respawn_detector
    }

    /// Whether enforcement should go on at `now`: the lock is still active.
    pub fn should_continue_at(&self, now: i64) -> (b: bool)
        ensures
            b == (now < self@.lock.end_time),
    {
        self.lock_state.is_active_at(now)
    }

    /// Whether enforcement should go on: the lock is still active at the current time.
    pub fn should_continue(&self) -> (b: bool)
        ensures
            exists|now: int| instant_in_range(now) && #[trigger] self@.lock.active_at(now) == b,
    {
        let now = now_ms();
        let b = self.should_continue_at(now);
        assert(self@.lock.active_at(now as int) == b);
        b
    }
}


/// After recording `p`, a process with the same executable name is a respawn
/// exactly when its PID differs from `p`'s; for every other name the answer
/// is what it was before.
pub proof fn law_record_then_respawn(seen: Seq<ProcessInfoView>, p: ProcessInfoView, q: ProcessInfoView)
    ensures
        q.exe_name == p.exe_name ==> (is_respawn_in(record_seen(seen, p), q) <==> q.pid != p.pid),
        q.exe_name != p.exe_name ==> (is_respawn_in(record_seen(seen, p), q) <==> is_respawn_in(seen, q)),
{
    let w = without_name(seen, p.exe_name);
    assert(record_seen(seen, p).drop_last() =~= w);
    if q.exe_name != p.exe_name {
        lemma_without_name_lookup(seen, p.exe_name, q.exe_name);
    }
}

/// Once the lock has ended, every decision is to ignore the process, and nothing changes.
pub proof fn law_ended_lock_is_ignored(pre: EngineView, p: ProcessInfoView, now: int)
    requires
        !pre.lock.active_at(now),
    ensures
        check_step(pre, p, now) == (pre, EnforcementAction::Ignore),
{
}

/// A respawn of a locked process is terminated at once, without a grace period.
pub proof fn law_respawn_terminates_at_once(pre: EngineView, p: ProcessInfoView, now: int)
    requires
        pre.lock.active_at(now),
        is_respawn_in(pre.detector.last_seen, p),
    ensures
        check_step(pre, p, now).1 == EnforcementAction::Terminate,
        check_step(pre, p, now).0.grace == pre.grace,
{
}

/// Warning comes before termination: while the grace period has not begun, a
/// process that is not a respawn is warned with the full period, and the
/// period begins now.
pub proof fn law_warning_comes_first(pre: EngineView, p: ProcessInfoView, now: int)
    requires
        pre.lock.active_at(now),
        !is_respawn_in(pre.detector.last_seen, p),
        !pre.grace.is_active(),
    ensures
        check_step(pre, p, now).1 == (EnforcementAction::Warn { time_remaining_ms: pre.grace.duration_ms as u64 }),
        check_step(pre, p, now).0.grace.started_at == Some(now),
{
}

/// A termination for the grace period happens only once the period has run out.
pub proof fn law_grace_termination_only_after_expiry(pre: EngineView, p: ProcessInfoView, now: int)
    requires
        check_step(pre, p, now).1 == EnforcementAction::Terminate,
        !is_respawn_in(pre.detector.last_seen, p),
    ensures
        pre.grace.is_expired(now),
{
}

/// Once the lock is active, a process that is no respawn and whose grace
/// period has run out is terminated, whatever was logged before, and the
/// termination is logged with its reason; nothing else changes.
pub proof fn law_expired_grace_terminates(
    pre: EngineView,
    p: ProcessInfoView,
    now: int,
    post: EngineView,
    r: Result<EnforcementAction, LockError>,
)
    requires
        check_outcome(pre, p, now, post, r),
        pre.lock.active_at(now),
        !is_respawn_in(pre.detector.last_seen, p),
        pre.grace.is_expired(now),
    ensures
        r == Ok::<EnforcementAction, LockError>(EnforcementAction::Terminate),
        post.detector.log == pre.detector.log.push(
            TerminationView { pid: p.pid, exe_name: p.exe_name, reason: "Grace period expired"@, terminated_at: now },
        ),
        post.detector.last_seen == pre.detector.last_seen,
        post.grace == pre.grace,
        post.lock == pre.lock,
{
}

/// A process terminated for its grace period that is still running is
/// terminated again at every later check while the lock lasts.
pub proof fn law_expired_process_terminated_again(
    pre: EngineView,
    p: ProcessInfoView,
    t1: int,
    mid: EngineView,
    r1: Result<EnforcementAction, LockError>,
    t2: int,
    post: EngineView,
    r2: Result<EnforcementAction, LockError>,
)
    requires
        check_outcome(pre, p, t1, mid, r1),
        r1 == Ok::<EnforcementAction, LockError>(EnforcementAction::Terminate),
        !is_respawn_in(pre.detector.last_seen, p),
        check_outcome(mid, p, t2, post, r2),
        t1 <= t2,
        mid.lock.active_at(t2),
    ensures
        r2 == Ok::<EnforcementAction, LockError>(EnforcementAction::Terminate),
        post.detector.log.len() == mid.detector.log.len() + 1,
{
    law_grace_termination_only_after_expiry(pre, p, t1);
}

/// A decision never changes the lock or the grace period's length, never
/// moves a begun grace period, and only ever appends to the termination log.
pub proof fn law_decision_preserves(pre: EngineView, p: ProcessInfoView, now: int)
    ensures
        check_step(pre, p, now).0.lock == pre.lock,
        check_step(pre, p, now).0.grace.duration_ms == pre.grace.duration_ms,
        pre.grace.is_active() ==> check_step(pre, p, now).0.grace == pre.grace,
        check_step(pre, p, now).0.detector.log.len() >= pre.detector.log.len(),
        check_step(pre, p, now).0.detector.log.subrange(0, pre.detector.log.len() as int)
            == pre.detector.log,
{
    let post = check_step(pre, p, now).0;
    assert(post.detector.log.subrange(0, pre.detector.log.len() as int) =~= pre.detector.log);
}

/// A warning never promises more than the grace period, once the clock is not
/// behind the period's start.
pub proof fn law_warning_within_grace(pre: EngineView, p: ProcessInfoView, now: int, t: u64)
    requires
        pre.grace.duration_ms > 0,
        pre.grace.started_at matches Some(s) ==> s <= now,
        check_step(pre, p, now).1 == (EnforcementAction::Warn { time_remaining_ms: t }),
        pre.grace.duration_ms <= u64::MAX,
    ensures
        0 < t <= pre.grace.duration_ms,
{
}

} // verus!
