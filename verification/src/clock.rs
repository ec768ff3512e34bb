//! The wall clock and date arithmetic, done by the `time` crate.

use vstd::prelude::*;

verus! {

/// Whether `t` nanoseconds since the Unix epoch lies strictly within
/// 10^23 nanoseconds of it, about three million years either way: every
/// instant that `time` can represent does, since its years run from
/// -999_999 to 999_999 at the widest.
pub open spec fn clock_range(t: i128) -> bool {
    -100_000_000_000_000_000_000_000 < t < 100_000_000_000_000_000_000_000
}

/// Calls `time::OffsetDateTime::now_utc` and reads the instant as
/// nanoseconds since the Unix epoch. Claims only that the reading lies within
/// `clock_range`, as every `OffsetDateTime` does; which instant it is rests on
/// the machine's clock and is not stated.
#[verifier::external_body]
pub(crate) fn now_nanos() -> (r: i128)
    ensures
        clock_range(r),
{
    time::OffsetDateTime::now_utc().unix_timestamp_nanos()
}

/// Whole seconds since the Unix epoch at the instant `t` nanoseconds after
/// it, rounded down.
pub open spec fn clock_seconds(t: int) -> int {
    if t >= 0 {
        t / 1_000_000_000
    } else {
        -((-t + 999_999_999) / 1_000_000_000)
    }
}

/// The machine's clock in whole seconds since the Unix epoch.
pub(crate) fn now_seconds() -> (r: i64)
    ensures
        exists|t: i128| clock_range(t) && r == clock_seconds(t as int),
{
    let t = now_nanos();
    let s: i128 = if t >= 0 {
        t / 1_000_000_000
    } else {
        -((-t + 999_999_999) / 1_000_000_000)
    };
    assert(-1_000_000_000_000_000 <= s <= 1_000_000_000_000_000);
    assert(clock_range(t) && s == clock_seconds(t as int));
    s as i64
}

/// `t` nanoseconds after the Unix epoch lies among the instants `time`
/// represents (with its default range of years, -9999 to 9999): from
/// -9999-01-01T00:00:00Z up to, not including, 10000-01-01T00:00:00Z.
pub open spec fn time_representable(t: int) -> bool {
    -377_705_116_800_000_000_000 <= t < 253_402_300_800_000_000_000
}

/// The instant `secs` seconds after the instant `nanos` (in nanoseconds since
/// the Unix epoch), or none when either lies outside the instants `time`
/// represents.
pub open spec fn time_add_spec(nanos: i128, secs: i64) -> Option<i128> {
    let t = nanos + secs * 1_000_000_000;
    if time_representable(nanos as int) && time_representable(t) {
        Some(t as i128)
    } else {
        None
    }
}

/// Builds the instant with `time::OffsetDateTime::from_unix_timestamp_nanos`,
/// calls its `checked_add` with `time::SignedDuration::seconds`, and reads the
/// sum back as nanoseconds. Claims that the result is `time_add_spec`: the
/// sum, when both instants lie in the range `time` represents, else none.
#[verifier::external_body]
pub(crate) fn time_add_seconds(nanos: i128, secs: i64) -> (r: Option<i128>)
    ensures
        r == time_add_spec(nanos, secs),
{
    match time::OffsetDateTime::from_unix_timestamp_nanos(nanos) {
        Ok(t) => match t.checked_add(time::SignedDuration::seconds(secs)) {
            Some(u) => Some(u.unix_timestamp_nanos()),
            None => None,
        },
        Err(_) => None,
    }
}

} // verus!
