//! Wall-clock versus monotonic time: anchors of both, and a validator that
//! detects when the wall clock (or the monotonic count) moves backward.

use vstd::prelude::*;
use vstd::string::StringExecFns;
use crate::clock::{instant_in_range, now_ms, rfc3339, rfc3339_text, system_epoch_offset, EpochOffset};
use crate::error::LockError;

verus! {

/// What the monotonic reference reads for a system time at `offset` from the
/// epoch: the milliseconds since the epoch (rounded down), or `ValidationFailed`
/// for a time before the epoch.
pub open spec fn elapsed_outcome(offset: EpochOffset, r: Result<u128, LockError>) -> bool {
    match offset {
        Ok((secs, nanos)) => r == Ok::<u128, LockError>((secs * 1000 + nanos / 1_000_000) as u128),
        Err(_) => r matches Err(LockError::ValidationFailed { message })
            && message@ == "SystemTime is before UNIX_EPOCH (impossible)"@,
    }
}

/// The monotonic reading of a system time at `offset` from the epoch (see [`elapsed_outcome`]).
pub fn elapsed_of_offset(offset: EpochOffset) -> (r: Result<u128, LockError>)
    requires
        offset matches Ok((_, nanos)) ==> nanos < 1_000_000_000,
    ensures
        elapsed_outcome(offset, r),
{
    match offset {
        Ok((secs, nanos)) => Ok((secs as u128) * 1000 + (nanos / 1_000_000) as u128),
        Err(_) => Err(
            LockError::ValidationFailed {
                message: String::from_str("SystemTime is before UNIX_EPOCH (impossible)"),
            },
        ),
    }
}

/// Milliseconds elapsed on the system clock since the Unix epoch, used as the
/// monotonic reference; `ValidationFailed` if the clock lies before the epoch.
pub fn monotonic_elapsed_ms() -> (r: Result<u128, LockError>)
    ensures
        r matches Err(e) ==> (e matches LockError::ValidationFailed { message }
            && message@ == "SystemTime is before UNIX_EPOCH (impossible)"@),
{
    elapsed_of_offset(system_epoch_offset())
}

/// A snapshot of wall-clock time (milliseconds since the epoch, UTC) and
/// monotonic time (milliseconds) taken at nearly the same moment.
#[derive(Debug, Clone, Copy, PartialEq, Eq, Structural)]
pub struct TimeAnchor {
    wall_clock: i64,
    monotonic_ms: u128,
}

impl TimeAnchor {
    #[verifier::type_invariant]
    pub open spec fn inv(self) -> bool {
        instant_in_range(self.wall())
    }

    /// Wall-clock part.
    pub open spec fn wall(self) -> int {
        self.spec_wall_clock() as int
    }

    /// The stored wall-clock reading.
    pub closed spec fn spec_wall_clock(self) -> i64 {
        self.wall_clock
    }

    /// Monotonic part.
    pub closed spec fn mono(self) -> u128 {
        self.monotonic_ms
    }

    /// Creates an anchor from the current wall-clock and monotonic times.
    pub fn now() -> (r: Result<Self, LockError>)
        ensures
            r matches Ok(a) ==> instant_in_range(a.wall()),
            r matches Err(e) ==> (e matches LockError::ValidationFailed { message }
                && message@ == "SystemTime is before UNIX_EPOCH (impossible)"@),
    {
        let wall_clock = now_ms();
        let monotonic_ms = monotonic_elapsed_ms()?;
        Ok(TimeAnchor { wall_clock, monotonic_ms })
    }

    /// Creates an anchor from explicit values.
    pub fn from_parts(wall_clock: i64, monotonic_ms: u128) -> (a: Self)
        requires
            instant_in_range(wall_clock as int),
        ensures
            a.wall() == wall_clock,
            a.mono() == monotonic_ms,
    {
        TimeAnchor { wall_clock, monotonic_ms }
    }

    /// The wall-clock time of this anchor.
    pub fn wall_clock(&self) -> (t: i64)
        ensures
            t == self.wall(),
            instant_in_range(t as int),
    {
        proof {
            use_type_invariant(self);
        }
        self.wall_clock
    }

    /// The monotonic time of this anchor.
    pub fn monotonic_ms(&self) -> (t: u128)
        ensures
            t == self.mono(),
    {
        self.monotonic_ms
    }
}


/// Abstract value of a time validator.
pub struct TimeValidatorView {
    pub reference: Option<TimeAnchor>,
    pub history: Seq<TimeAnchor>,
}

/// Tracks a reference anchor and the history of anchors, and detects rollback.
#[derive(Debug)]
pub struct TimeValidator {
    /// The anchor all later checks compare against (set when the lock is created).
    reference_anchor: Option<TimeAnchor>,
    /// Every anchor seen, in the order recorded.
    history: Vec<TimeAnchor>,
}

impl View for TimeValidator {
    type V = TimeValidatorView;

    closed spec fn view(&self) -> TimeValidatorView {
        TimeValidatorView { reference: self.reference_anchor, history: self.history@ }
    }
}

/// Anchor `a` comes no later than anchor `b` on both clocks.
pub open spec fn anchor_le(a: TimeAnchor, b: TimeAnchor) -> bool {
    a.mono() <= b.mono() && a.wall() <= b.wall()
}

/// The history is ordered on both clocks.
pub open spec fn ordered(h: Seq<TimeAnchor>) -> bool {
    forall|i: int, j: int| 0 <= i < j < h.len() ==> anchor_le(#[trigger] h[i], #[trigger] h[j])
}

impl TimeValidatorView {
    /// Well-formed: a reference is set exactly when the history is non-empty,
    /// it is the first anchor, and the history is ordered on both clocks.
    pub open spec fn wf(self) -> bool {
        &&& (self.reference is None <==> self.history.len() == 0)
        &&& (self.reference matches Some(r) ==> self.history[0] == r)
        &&& ordered(self.history)
    }
}

/// What a rollback check decides against `reference` at wall time `now_wall`
/// and monotonic time `now_mono`.
pub open spec fn rollback_outcome(
    reference: Option<TimeAnchor>,
    now_wall: i64,
    now_mono: u128,
    r: Result<(), LockError>,
) -> bool {
    match reference {
        None => r matches Err(LockError::NoTimeAnchor { reason }) && reason@ == "No reference anchor set"@,
        Some(a) => if now_mono < a.mono() {
            r == Err::<(), LockError>(
                LockError::MonotonicTimeInconsistent { expected_at_least_ms: a.mono(), observed_ms: now_mono },
            )
        } else if now_wall < a.wall() {
            r matches Err(LockError::TimeRollbackDetected { previous_time, current_time, rollback_amount_ms })
                && previous_time@ == rfc3339_text(a.wall() as i64)
                && current_time@ == rfc3339_text(now_wall)
                && rollback_amount_ms == a.wall() - now_wall
        } else {
            r is Ok
        },
    }
}

/// What recording `anchor` after the last anchor `last` decides.
pub open spec fn progression_outcome(last: TimeAnchor, anchor: TimeAnchor, r: Result<(), LockError>) -> bool {
    if anchor.mono() < last.mono() {
        r == Err::<(), LockError>(
            LockError::MonotonicTimeInconsistent { expected_at_least_ms: last.mono(), observed_ms: anchor.mono() },
        )
    } else if anchor.wall() < last.wall() {
        r matches Err(LockError::TimeRollbackDetected { previous_time, current_time, rollback_amount_ms })
            && previous_time@ == rfc3339_text(last.wall() as i64)
            && current_time@ == rfc3339_text(anchor.wall() as i64)
            && rollback_amount_ms == last.wall() - anchor.wall()
    } else {
        r is Ok
    }
}

/// What `record_anchor` does at wall time `now_wall` and monotonic time `now_mono`:
/// it first checks the clock against the reference, then the new anchor against
/// the last one; on success the anchor is appended, on failure nothing changes.
pub open spec fn record_outcome(
    pre: TimeValidatorView,
    anchor: TimeAnchor,
    now_wall: i64,
    now_mono: u128,
    post: TimeValidatorView,
    r: Result<(), LockError>,
) -> bool {
    if !rollback_outcome(pre.reference, now_wall, now_mono, Ok(())) {
        rollback_outcome(pre.reference, now_wall, now_mono, r) && post == pre
    } else if pre.history.len() > 0 && !progression_outcome(pre.history.last(), anchor, Ok(())) {
        progression_outcome(pre.history.last(), anchor, r) && post == pre
    } else {
        r is Ok && post == (TimeValidatorView { reference: pre.reference, history: pre.history.push(anchor) })
    }
}

/// What `set_reference_anchor` does: when no reference is set, `anchor` becomes
/// the reference and is appended to the history; otherwise `InvalidTimeAnchor`
/// and nothing changes.
pub open spec fn set_reference_outcome(
    pre: TimeValidatorView,
    anchor: TimeAnchor,
    post: TimeValidatorView,
    r: Result<(), LockError>,
) -> bool {
    match pre.reference {
        Some(_) => post == pre && (r matches Err(LockError::InvalidTimeAnchor { reason })
            && reason@ == "Reference anchor already set"@),
        None => r is Ok && post == (TimeValidatorView {
            reference: Some(anchor),
            history: pre.history.push(anchor),
        }),
    }
}

impl TimeValidator {
    /// An empty validator: no reference anchor, no history.
    pub fn new() -> (v: Self)
        ensures
            v@.reference is None,
            v@.history.len() == 0,
            v@.wf(),
    {
        TimeValidator { reference_anchor: None, history: Vec::new() }
    }

    /// Rebuilds a validator from stored parts, as they are.
    pub fn restore(reference_anchor: Option<TimeAnchor>, history: Vec<TimeAnchor>) -> (v: Self)
        ensures
            v@.reference == reference_anchor,
            v@.history == history@,
    {
        TimeValidator { reference_anchor, history }
    }

    /// Sets the reference anchor and records it as the first of the history.
    ///
    /// Fails with `InvalidTimeAnchor` (and changes nothing) when a reference is already set.
    pub fn set_reference_anchor(&mut self, anchor: TimeAnchor) -> (r: Result<(), LockError>)
        ensures
            set_reference_outcome(old(self)@, anchor, final(self)@, r),
            old(self)@.wf() ==> final(self)@.wf(),
    {
        if self.reference_anchor.is_some() {
            return Err(LockError::InvalidTimeAnchor { reason: String::from_str("Reference anchor already set") });
        }
        self.reference_anchor = Some(anchor);
        self.history.push(anchor);
        Ok(())
    }

    /// Checks wall time `now_wall` and monotonic time `now_mono` against the reference anchor.
    ///
    /// Fails with `NoTimeAnchor` when no reference is set, `MonotonicTimeInconsistent`
    /// when monotonic time went backward, `TimeRollbackDetected` when the wall clock did.
    pub fn check_rollback_at(&self, now_wall: i64, now_mono: u128) -> (r: Result<(), LockError>)
        requires
            instant_in_range(now_wall as int),
        ensures
            rollback_outcome(self@.reference, now_wall, now_mono, r),
    {
        match &self.reference_anchor {
            None => Err(LockError::NoTimeAnchor { reason: String::from_str("No reference anchor set") }),
            Some(reference) => {
                let ref_wall = reference.wall_clock();
                let ref_mono = reference.monotonic_ms();
                if now_mono < ref_mono {
                    return Err(
                        LockError::MonotonicTimeInconsistent {
                            expected_at_least_ms: ref_mono,
                            observed_ms: now_mono,
                        },
                    );
                }
                if now_wall < ref_wall {
                    return Err(
                        LockError::TimeRollbackDetected {
                            previous_time: rfc3339(ref_wall),
                            current_time: rfc3339(now_wall),
                            rollback_amount_ms: ref_wall - now_wall,
                        },
                    );
                }
                Ok(())
            },
        }
    }

    /// Checks the current wall-clock and monotonic time against the reference anchor.
    pub fn check_rollback(&self) -> (r: Result<(), LockError>)
        ensures
            self@.reference is None ==> rollback_outcome(self@.reference, 0, 0, r),
            self@.reference is Some ==> ((r matches Err(LockError::ValidationFailed { message })
                && message@ == "SystemTime is before UNIX_EPOCH (impossible)"@)
                || exists|now_wall: i64, now_mono: u128| instant_in_range(now_wall as int)
                    && #[trigger] rollback_outcome(self@.reference, now_wall, now_mono, r)),
    {
        if self.reference_anchor.is_none() {
            return Err(LockError::NoTimeAnchor { reason: String::from_str("No reference anchor set") });
        }
        let now_wall = now_ms();
        let now_mono = monotonic_elapsed_ms()?;
        let r = self.check_rollback_at(now_wall, now_mono);
        assert(rollback_outcome(self@.reference, now_wall, now_mono, r));
        r
    }

    /// Records `anchor` after checking the clock readings `now_wall` / `now_mono`
    /// against the reference and the anchor against the last one recorded.
    pub fn record_anchor_at(&mut self, anchor: TimeAnchor, now_wall: i64, now_mono: u128) -> (r: Result<(), LockError>)
        requires
            instant_in_range(now_wall as int),
        ensures
            record_outcome(old(self)@, anchor, now_wall, now_mono, final(self)@, r),
            old(self)@.wf() ==> final(self)@.wf(),
    {
        let checked = self.check_rollback_at(now_wall, now_mono);
        if checked.is_err() {
            return checked;
        }
        let len = self.history.len();
        if len > 0 {
            let last = self.history[len - 1];
            let last_mono = last.monotonic_ms();
            let last_wall = last.wall_clock();
            let anchor_mono = anchor.monotonic_ms();
            let anchor_wall = anchor.wall_clock();
            if anchor_mono < last_mono {
                return Err(
                    LockError::MonotonicTimeInconsistent {
                        expected_at_least_ms: last_mono,
                        observed_ms: anchor_mono,
                    },
                );
            }
            if anchor_wall < last_wall {
                return Err(
                    LockError::TimeRollbackDetected {
                        previous_time: rfc3339(last_wall),
                        current_time: rfc3339(anchor_wall),
                        rollback_amount_ms: last_wall - anchor_wall,
                    },
                );
            }
        }
        self.history.push(anchor);
        proof {
            if old(self)@.wf() {
                let h = final(self)@.history;
                assert forall|i: int, j: int| 0 <= i < j < h.len() implies anchor_le(#[trigger] h[i], #[trigger] h[j]) by {
                    if j == h.len() - 1 && i < j {
                        assert(anchor_le(h[i], h[len - 1]) || i == len - 1);
                    }
                }
            }
        }
        Ok(())
    }

    /// Records `anchor`, checking the current clock against the reference and
    /// the anchor against the last one recorded.
    pub fn record_anchor(&mut self, anchor: TimeAnchor) -> (r: Result<(), LockError>)
        ensures
            old(self)@.reference is None ==> (final(self)@ == old(self)@ && rollback_outcome(
                old(self)@.reference,
                0,
                0,
                r,
            )),
            old(self)@.reference is Some ==> ((r matches Err(LockError::ValidationFailed { message })
                && message@ == "SystemTime is before UNIX_EPOCH (impossible)"@ && final(self)@ == old(self)@)
                || exists|now_wall: i64, now_mono: u128| instant_in_range(now_wall as int)
                    && #[trigger] record_outcome(old(self)@, anchor, now_wall, now_mono, final(self)@, r)),
            old(self)@.wf() ==> final(self)@.wf(),
    {
        if self.reference_anchor.is_none() {
            return Err(LockError::NoTimeAnchor { reason: String::from_str("No reference anchor set") });
        }
        let now_wall = now_ms();
        let now_mono = match monotonic_elapsed_ms() {
            Ok(ms) => ms,
            Err(e) => {
                return Err(e);
            },
        };
        let ghost pre = self@;
        let r = self.record_anchor_at(anchor, now_wall, now_mono);
        assert(record_outcome(pre, anchor, now_wall, now_mono, self@, r));
        r
    }

    /// The reference anchor, if set.
    pub fn reference_anchor(&self) -> (r: Option<&TimeAnchor>)
        ensures
            r matches Some(a) ==> self@.reference == Some(*a),
            r is None <==> self@.reference is None,
    {
        match &self.reference_anchor {
            Some(a) => Some(a),
            None => None,
        }
    }

    /// The anchors recorded, oldest first.
    pub fn history(&self) -> (h: &[TimeAnchor])
        ensures
            h@ == self@.history,
    {
        self.history.as_slice()
    }
}

impl Clone for TimeValidator {
    fn clone(&self) -> (r: Self)
        ensures
            r@ == self@,
    {
        let mut history: Vec<TimeAnchor> = Vec::new();
        let mut i: usize = 0;
        while i < self.history.len()
            invariant
                i <= self.history@.len(),
                history@ == self.history@.take(i as int),
            decreases self.history.len() - i,
        {
            history.push(self.history[i]);
            i = i + 1;
            assert(history@ =~= self.history@.take(i as int));
        }
        assert(history@ =~= self.history@);
        TimeValidator { reference_anchor: self.reference_anchor, history }
    }
}

impl Default for TimeValidator {
    fn default() -> (v: Self)
        ensures
            v@.reference is None,
            v@.history.len() == 0,
    {
        TimeValidator::new()
    }
}


/// The reference anchor is set at most once: after any attempt to set it,
/// a further attempt fails and changes nothing.
pub proof fn law_reference_set_once(
    v0: TimeValidatorView,
    a1: TimeAnchor,
    v1: TimeValidatorView,
    r1: Result<(), LockError>,
    a2: TimeAnchor,
    v2: TimeValidatorView,
    r2: Result<(), LockError>,
)
    requires
        set_reference_outcome(v0, a1, v1, r1),
        set_reference_outcome(v1, a2, v2, r2),
    ensures
        r2 is Err,
        v2 == v1,
{
}

/// Recording keeps a validator well formed: a reference exactly when there is
/// history, the reference first, and the history ordered on both clocks.
pub proof fn law_record_keeps_order(
    pre: TimeValidatorView,
    anchor: TimeAnchor,
    now_wall: i64,
    now_mono: u128,
    post: TimeValidatorView,
    r: Result<(), LockError>,
)
    requires
        pre.wf(),
        record_outcome(pre, anchor, now_wall, now_mono, post, r),
    ensures
        post.wf(),
{
    if r is Ok && post != pre {
        let h = post.history;
        assert(pre.history.len() > 0);
        assert forall|i: int, j: int| 0 <= i < j < h.len() implies anchor_le(#[trigger] h[i], #[trigger] h[j]) by {
            if j == h.len() - 1 && i < h.len() - 2 {
                assert(anchor_le(h[i], pre.history.last()));
            }
        }
    }
}

/// An accepted anchor never moves backward: it is no earlier than the last
/// anchor on either clock, and the clock readings are no earlier than the
/// reference. A recording that moves either clock backward is refused and
/// changes nothing.
pub proof fn law_recording_never_moves_backward(
    pre: TimeValidatorView,
    anchor: TimeAnchor,
    now_wall: i64,
    now_mono: u128,
    post: TimeValidatorView,
    r: Result<(), LockError>,
)
    requires
        record_outcome(pre, anchor, now_wall, now_mono, post, r),
    ensures
        r is Ok ==> (pre.reference matches Some(a) && a.wall() <= now_wall && a.mono() <= now_mono),
        r is Ok && pre.history.len() > 0 ==> anchor_le(pre.history.last(), anchor),
        r is Ok ==> post.history == pre.history.push(anchor),
        r is Err ==> post == pre,
{
}

} // verus!
