//! Wall-clock instants as milliseconds since the Unix epoch, and the calls
//! that read the system clock or render an instant as text.

use vstd::prelude::*;

verus! {

/// Earliest instant that a UTC date-time can hold.
pub const MIN_INSTANT_MS: i64 = -8334601228800000;

/// Latest instant that a UTC date-time can hold.
pub const MAX_INSTANT_MS: i64 = 8210266876799999;

/// Milliseconds per day.
pub const MS_PER_DAY: i64 = 86400000;

/// `ms` is an instant that a UTC date-time can represent.
pub open spec fn instant_in_range(ms: int) -> bool {
    MIN_INSTANT_MS <= ms <= MAX_INSTANT_MS
}

/// Where the system time lies against the Unix epoch, as whole seconds and
/// the nanoseconds beyond them: `Ok` at or after the epoch, `Err` before it.
pub type EpochOffset = Result<(u64, u32), (u64, u32)>;

/// Calls `std::time::SystemTime::now` and `duration_since(UNIX_EPOCH)`, and
/// gives the distance from the epoch (`Duration::as_secs`, `subsec_nanos`);
/// the error's `duration()` is the distance for a time before the epoch.
/// Only that the nanoseconds are below one second is stated: the values
/// depend on the clock.
#[verifier::external_body]
pub fn system_epoch_offset() -> (r: EpochOffset)
    ensures
        match r {
            Ok((_, nanos)) => nanos < 1_000_000_000,
            Err((_, nanos)) => nanos < 1_000_000_000,
        },
{
    match std::time::SystemTime::now().duration_since(std::time::UNIX_EPOCH) {
        Ok(d) => Ok((d.as_secs(), d.subsec_nanos())),
        Err(e) => Err((e.duration().as_secs(), e.duration().subsec_nanos())),
    }
}

/// The instant, in whole milliseconds since the epoch rounded down, of a
/// system time at `offset` from the epoch.
pub open spec fn offset_ms(offset: EpochOffset) -> int {
    match offset {
        Ok((secs, nanos)) => secs * 1000 + nanos / 1_000_000,
        Err((secs, nanos)) => -(secs * 1000 + (nanos + 999_999) / 1_000_000),
    }
}

/// `ms` brought into the representable range: an instant beyond either end
/// counts as that end.
pub open spec fn clamp_instant(ms: int) -> int {
    if ms < MIN_INSTANT_MS {
        MIN_INSTANT_MS as int
    } else if ms > MAX_INSTANT_MS {
        MAX_INSTANT_MS as int
    } else {
        ms
    }
}

/// The wall-clock instant of a system time at `offset` from the epoch: its
/// milliseconds rounded down, held to the representable range.
pub fn instant_of_offset(offset: EpochOffset) -> (ms: i64)
    requires
        match offset {
            Ok((_, nanos)) => nanos < 1_000_000_000,
            Err((_, nanos)) => nanos < 1_000_000_000,
        },
    ensures
        ms == clamp_instant(offset_ms(offset)),
        instant_in_range(ms as int),
{
    match offset {
        Ok((secs, nanos)) => {
            let total: u128 = (secs as u128) * 1000 + (nanos / 1_000_000) as u128;
            if total > MAX_INSTANT_MS as u128 {
                MAX_INSTANT_MS
            } else {
                total as i64
            }
        },
        Err((secs, nanos)) => {
            let total: u128 = (secs as u128) * 1000 + ((nanos + 999_999) / 1_000_000) as u128;
            if total > (0i128 - MIN_INSTANT_MS as i128) as u128 {
                MIN_INSTANT_MS
            } else {
                0i64 - (total as i64)
            }
        },
    }
}

/// The current wall-clock time in milliseconds since the epoch, read from the
/// system clock; a time before the earliest or after the latest representable
/// instant counts as that instant. Which instant comes back depends on the clock.
pub fn now_ms() -> (ms: i64)
    ensures
        instant_in_range(ms as int),
{
    instant_of_offset(system_epoch_offset())
}

/// The RFC 3339 text that `chrono::DateTime::<Utc>::to_rfc3339` gives for an instant.
pub uninterp spec fn rfc3339_text(ms: i64) -> Seq<char>;

/// Calls `chrono::DateTime::<Utc>::to_rfc3339` on the date-time at `ms`.
#[verifier::external_body]
pub fn rfc3339(ms: i64) -> (s: String)
    requires
        instant_in_range(ms as int),
    ensures
        s@ == rfc3339_text(ms),
{
    match chrono::DateTime::from_timestamp_millis(ms) {
        Some(t) => t.to_rfc3339(),
        None => String::new(),
    }
}

} // verus!
