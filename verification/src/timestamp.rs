//! The start and end instants of the presence's time counter.
use vstd::prelude::*;

use crate::settings::{EndTimestampTypes, SettingsJson, StartTimestampTypes};

verus! {

/// `std::time::SystemTime`, an opaque reading of the system clock.
#[verifier::external_type_specification]
#[verifier::external_body]
pub struct ExSystemTime(std::time::SystemTime);

/// `std::time::SystemTimeError`, returned when a clock reading lies before the reference.
#[verifier::external_type_specification]
#[verifier::external_body]
pub struct ExSystemTimeError(std::time::SystemTimeError);

/// Start and end of the time counter, in seconds since the Unix epoch; `None` leaves it unset.
pub struct Timestamps {
    pub start: Option<i64>,
    pub end: Option<i64>,
}

/// Why no timestamps could be computed.
#[derive(PartialEq, Eq, Structural, Clone, Copy, Debug)]
pub enum TimestampError {
    /// The system clock reads before the Unix epoch.
    ClockBeforeEpoch,
    /// The current time does not fit in an `i64`.
    ClockOutOfRange,
    /// A configured timestamp number does not fit in an `i64`.
    NumberOutOfRange,
    /// An instant to be sent does not fit in an `i64`.
    Overflow,
}

/// Seconds in a day.
pub const SECONDS_PER_DAY: i64 = 86400;

/// Fits in an `i64`.
pub open spec fn fits_i64(x: int) -> bool {
    i64::MIN <= x <= i64::MAX
}

/// The integer values of an optional `i64`.
pub open spec fn opt_int(o: Option<i64>) -> Option<int> {
    match o {
        Some(x) => Some(x as int),
        None => None,
    }
}

/// Start instant for the setting `s`, with the current time `now` (seconds since the
/// epoch) and `offset`, the local time zone's UTC-minus-local difference in seconds.
pub open spec fn spec_start(s: StartTimestampTypes, now: int, offset: int) -> Option<int> {
    match s {
        StartTimestampTypes::Unset => None,
        StartTimestampTypes::LaunchTime => Some(now),
        StartTimestampTypes::LocalTime => Some(offset + now - now % 86400),
        StartTimestampTypes::Number(n) => Some(n + offset),
    }
}

/// End instant for the setting `e`, with `now` and `offset` as for `spec_start`.
pub open spec fn spec_end(e: EndTimestampTypes, now: int, offset: int) -> Option<int> {
    match e {
        EndTimestampTypes::Unset => None,
        EndTimestampTypes::DayEnd => Some(now + offset - now % 86400 + 86400),
        EndTimestampTypes::Number(n) => Some(n + offset),
    }
}

/// The start setting holds a number that is no `i64`.
pub open spec fn start_rejected(s: StartTimestampTypes) -> bool {
    s matches StartTimestampTypes::Number(n) && n > i64::MAX
}

/// The end setting holds a number that is no `i64`.
pub open spec fn end_rejected(e: EndTimestampTypes) -> bool {
    e matches EndTimestampTypes::Number(n) && n > i64::MAX
}

/// Every intermediate sum in computing the start instant fits in an `i64`.
pub open spec fn start_fits(s: StartTimestampTypes, now: int, offset: int) -> bool {
    match s {
        StartTimestampTypes::LocalTime => fits_i64(offset + now),
        StartTimestampTypes::Number(n) => n > i64::MAX || fits_i64(n + offset),
        _ => true,
    }
}

/// Every intermediate sum in computing the end instant fits in an `i64`.
pub open spec fn end_fits(e: EndTimestampTypes, now: int, offset: int) -> bool {
    match e {
        EndTimestampTypes::DayEnd => fits_i64(now + offset) && fits_i64(
            now + offset - now % 86400 + 86400,
        ),
        EndTimestampTypes::Number(n) => n > i64::MAX || fits_i64(n + offset),
        _ => true,
    }
}

/// The computation of both instants stays within `i64`, as far as it gets.
pub open spec fn timestamps_fit(
    s: StartTimestampTypes,
    e: EndTimestampTypes,
    now: int,
    offset: int,
) -> bool {
    &&& start_fits(s, now, offset)
    &&& !start_rejected(s) ==> end_fits(e, now, offset)
}

/// Decides `timestamps_fit` for the given values.
pub fn check_timestamps_fit(
    start_time: &StartTimestampTypes,
    end_time: &EndTimestampTypes,
    now: i64,
    offset: i64,
) -> (b: bool)
    requires
        0 <= now,
    ensures
        b == timestamps_fit(*start_time, *end_time, now as int, offset as int),
{
    let lo: i128 = i64::MIN as i128;
    let hi: i128 = i64::MAX as i128;
    let base: i128 = now as i128 + offset as i128;
    let start_ok: bool = match start_time {
        StartTimestampTypes::LocalTime => lo <= base && base <= hi,
        StartTimestampTypes::Number(n) => {
            let v: i128 = *n as i128 + offset as i128;
            *n > i64::MAX as u64 || (lo <= v && v <= hi)
        },
        _ => true,
    };
    let start_rej: bool = match start_time {
        StartTimestampTypes::Number(n) => *n > i64::MAX as u64,
        _ => false,
    };
    let end_ok: bool = match end_time {
        EndTimestampTypes::DayEnd => {
            let v: i128 = base - (now % 86400) as i128 + 86400;
            lo <= base && base <= hi && lo <= v && v <= hi
        },
        EndTimestampTypes::Number(n) => {
            let v: i128 = *n as i128 + offset as i128;
            *n > i64::MAX as u64 || (lo <= v && v <= hi)
        },
        _ => true,
    };
    start_ok && (start_rej || end_ok)
}

/// The timestamps for the settings `start_time` and `end_time` at the current time `now`
/// (seconds since the epoch) in a time zone whose UTC-minus-local difference is `offset`.
pub fn timestamps_at(
    start_time: &StartTimestampTypes,
    end_time: &EndTimestampTypes,
    now: i64,
    offset: i64,
) -> (r: Result<Timestamps, TimestampError>)
    requires
        0 <= now,
        timestamps_fit(*start_time, *end_time, now as int, offset as int),
    ensures
        r is Err <==> start_rejected(*start_time) || end_rejected(*end_time),
        r matches Err(e) ==> e == TimestampError::NumberOutOfRange,
        r matches Ok(t) ==> opt_int(t.start) == spec_start(*start_time, now as int, offset as int)
            && opt_int(t.end) == spec_end(*end_time, now as int, offset as int),
{
    let day_rem: i64 = now % SECONDS_PER_DAY;
    let start: Option<i64> = match start_time {
        StartTimestampTypes::Unset => None,
        StartTimestampTypes::LaunchTime => Some(now),
        StartTimestampTypes::LocalTime => Some(offset + now - day_rem),
        StartTimestampTypes::Number(n) => {
            if *n > i64::MAX as u64 {
                return Err(TimestampError::NumberOutOfRange);
            }
            let ni64: i64 = *n as i64;
            Some(ni64 + offset)
        },
    };
    let end: Option<i64> = match end_time {
        EndTimestampTypes::Unset => None,
        EndTimestampTypes::DayEnd => Some(now + offset - day_rem + SECONDS_PER_DAY),
        EndTimestampTypes::Number(n) => {
            if *n > i64::MAX as u64 {
                return Err(TimestampError::NumberOutOfRange);
            }
            let ni64: i64 = *n as i64;
            Some(ni64 + offset)
        },
    };
    Ok(Timestamps { start, end })
}

/// Calls `std::time::SystemTime::now`. Nothing is claimed of the reading: it is the clock.
#[verifier::external_body]
fn system_time_now() -> std::time::SystemTime {
    std::time::SystemTime::now()
}

/// Calls `SystemTime::duration_since` with `std::time::UNIX_EPOCH`. The outcome is left
/// open: an error when `t` lies before the epoch, else the elapsed duration.
#[verifier::external_body]
fn duration_since_unix_epoch(t: &std::time::SystemTime) -> std::result::Result<
    std::time::Duration,
    std::time::SystemTimeError,
> {
    t.duration_since(std::time::UNIX_EPOCH)
}

/// Calls `Duration::as_secs`. Nothing is claimed of the whole seconds it returns.
#[verifier::external_body]
fn duration_as_secs(d: &std::time::Duration) -> u64 {
    d.as_secs()
}

/// What the timestamps are for the settings `s` and `e`, given a clock reading of `secs`
/// seconds since the epoch and the zone's UTC-minus-local difference `offset`: a reading
/// beyond `i64` is an error, then a computation that would leave `i64`, then a configured
/// number beyond `i64`; otherwise the instants of `spec_start` and `spec_end`.
pub open spec fn timestamps_from_reading_spec(
    s: StartTimestampTypes,
    e: EndTimestampTypes,
    secs: int,
    offset: int,
    r: Result<Timestamps, TimestampError>,
) -> bool {
    if secs > i64::MAX {
        r == Err::<Timestamps, TimestampError>(TimestampError::ClockOutOfRange)
    } else if !timestamps_fit(s, e, secs, offset) {
        r == Err::<Timestamps, TimestampError>(TimestampError::Overflow)
    } else if start_rejected(s) || end_rejected(e) {
        r == Err::<Timestamps, TimestampError>(TimestampError::NumberOutOfRange)
    } else {
        r matches Ok(t) && opt_int(t.start) == spec_start(s, secs, offset) && opt_int(t.end)
            == spec_end(e, secs, offset)
    }
}

/// The timestamps for the settings `start_time` and `end_time`, given a clock reading of
/// `secs` seconds since the epoch and the zone's UTC-minus-local difference `offset`.
pub fn timestamps_from_reading(
    start_time: &StartTimestampTypes,
    end_time: &EndTimestampTypes,
    secs: u64,
    offset: i64,
) -> (r: Result<Timestamps, TimestampError>)
    ensures
        timestamps_from_reading_spec(*start_time, *end_time, secs as int, offset as int, r),
{
    if secs > i64::MAX as u64 {
        return Err(TimestampError::ClockOutOfRange);
    }
    let now: i64 = secs as i64;
    if !check_timestamps_fit(start_time, end_time, now, offset) {
        return Err(TimestampError::Overflow);
    }
    timestamps_at(start_time, end_time, now, offset)
}

/// The timestamps for the settings in `config` at the current time, in a time zone whose
/// UTC-minus-local difference is `utc_minus_local` seconds.
///
/// Reads the clock; a clock before the Unix epoch is an error. Whatever the reading, the
/// result is what `timestamps_from_reading` gives for it.
pub fn generate_timestamp(config: &SettingsJson, utc_minus_local: i64) -> (r: Result<
    Timestamps,
    TimestampError,
>)
    ensures
        r == Err::<Timestamps, TimestampError>(TimestampError::ClockBeforeEpoch) || exists|
            secs: u64,
        |
            #![trigger timestamps_from_reading_spec(config.activity_details.start_time, config.activity_details.end_time, secs as int, utc_minus_local as int, r)]
            timestamps_from_reading_spec(
                config.activity_details.start_time,
                config.activity_details.end_time,
                secs as int,
                utc_minus_local as int,
                r,
            ),
{
    let reading = system_time_now();
    let secs: u64 = match duration_since_unix_epoch(&reading) {
        Ok(d) => duration_as_secs(&d),
        Err(_) => {
            return Err(TimestampError::ClockBeforeEpoch);
        },
    };
    timestamps_from_reading(
        &config.activity_details.start_time,
        &config.activity_details.end_time,
        secs,
        utc_minus_local,
    )
}

/// With a local-time start and a day-end end, the counter spans exactly one day, and the
/// current local time `now + offset` lies within it.
pub proof fn law_local_day_window(now: int, offset: int)
    requires
        0 <= now,
    ensures
        spec_start(StartTimestampTypes::LocalTime, now, offset) matches Some(s) && spec_end(
            EndTimestampTypes::DayEnd,
            now,
            offset,
        ) matches Some(e) && e - s == 86400 && s <= now + offset < e,
{
    assert(0 <= now % 86400 < 86400);
}

/// A launch-time start is the current time, whatever the time zone.
pub proof fn law_launch_time_is_now(now: int, offset: int)
    ensures
        spec_start(StartTimestampTypes::LaunchTime, now, offset) == Some(now),
{
}

/// A launch-time start is the clock reading itself, in whole seconds since the epoch, in any
/// time zone; with no end set, nothing else is sent.
pub proof fn law_launch_start_is_the_reading(
    secs: int,
    offset: int,
    r: Result<Timestamps, TimestampError>,
)
    requires
        0 <= secs <= i64::MAX,
        timestamps_from_reading_spec(
            StartTimestampTypes::LaunchTime,
            EndTimestampTypes::Unset,
            secs,
            offset,
            r,
        ),
    ensures
        r matches Ok(t) && t.start == Some(secs as i64) && t.end is None,
{
}

/// A local-time start lies within one day before the local time of the reading, and at most
/// the reading's local time: it is the start of the reading's (local) day.
pub proof fn law_local_start_is_start_of_day(
    secs: int,
    offset: int,
    r: Result<Timestamps, TimestampError>,
)
    requires
        0 <= secs,
        timestamps_from_reading_spec(
            StartTimestampTypes::LocalTime,
            EndTimestampTypes::Unset,
            secs,
            offset,
            r,
        ),
        r is Ok,
    ensures
        r matches Ok(t) && t.start matches Some(s) && s <= secs + offset < s + 86400 && (secs + offset - s) == secs % 86400,
{
}

} // verus!
