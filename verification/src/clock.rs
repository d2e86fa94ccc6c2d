use vstd::prelude::*;
use crate::text::{countdown_label, countdown_spec};

verus! {

#[verifier::external_type_specification]
#[verifier::external_body]
pub struct ExSystemTime(std::time::SystemTime);

/// The instant that `chrono::DateTime::parse_from_rfc3339` reads from a text, as
/// whole seconds since the Unix epoch and the nanoseconds past that second;
/// `None` where it rejects the text.
pub uninterp spec fn rfc3339_instant(text: Seq<char>) -> Option<(i64, u32)>;

/// Trusted: calls `chrono::DateTime::parse_from_rfc3339` and reads the parsed
/// instant back with `timestamp` and `timestamp_subsec_nanos`. The contract only
/// says that the result is the named parse of the text; the parse itself is
/// chrono's. chrono represents a leap second by nanoseconds of a billion or
/// more, which this contract leaves unrestricted.
#[verifier::external_body]
fn parse_rfc3339_instant(value: &str) -> (instant: Option<(i64, u32)>)
    ensures
        instant == rfc3339_instant(value@),
{
    match chrono::DateTime::parse_from_rfc3339(value) {
        Ok(parsed) => Some((parsed.timestamp(), parsed.timestamp_subsec_nanos())),
        Err(_) => None,
    }
}

/// Seconds since midnight UTC of an instant given as (seconds since the epoch,
/// nanoseconds): the timestamp modulo a day, counted upward.
pub open spec fn second_of_day(secs: i64) -> int {
    secs as int % 86400
}

/// The whole-second correction for leap seconds in the difference `later - earlier`.
/// An instant whose nanoseconds reach a billion lies inside a leap second; such
/// a second is counted once more when it lies on the far side of the other
/// instant's time of day: +1 when `earlier` is in a leap second and `later`'s
/// time of day is after it, -1 when `later` is in one and its time of day is
/// before `earlier`'s.
pub open spec fn leap_correction(later: (i64, u32), earlier: (i64, u32)) -> int {
    if second_of_day(later.0) > second_of_day(earlier.0) && earlier.1 >= 1_000_000_000 {
        1
    } else if second_of_day(later.0) < second_of_day(earlier.0) && later.1 >= 1_000_000_000 {
        -1
    } else {
        0
    }
}

/// Nanoseconds from `earlier` to `later`, both given as (seconds, nanoseconds),
/// with the leap-second correction.
pub open spec fn nanos_between(later: (i64, u32), earlier: (i64, u32)) -> int {
    (later.0 - earlier.0 + leap_correction(later, earlier)) * 1_000_000_000 + (later.1 - earlier.1)
}

/// Whole minutes from `earlier` to `later`, truncated toward zero.
pub open spec fn whole_minutes_between(later: (i64, u32), earlier: (i64, u32)) -> int {
    let d = nanos_between(later, earlier);
    if d >= 0 {
        d / 60_000_000_000
    } else {
        -((-d) / 60_000_000_000)
    }
}

fn second_of_day_exec(secs: i64) -> (sod: i64)
    ensures
        sod == second_of_day(secs),
{
    let r: i64 = secs % 86400;
    if r < 0 {
        r + 86400
    } else {
        r
    }
}

/// Whole minutes from `earlier` to `later`, truncated toward zero.
pub fn minutes_between(later: (i64, u32), earlier: (i64, u32)) -> (m: i64)
    ensures
        m == whole_minutes_between(later, earlier),
{
    let sod_later = second_of_day_exec(later.0);
    let sod_earlier = second_of_day_exec(earlier.0);
    let leap: i128 = if sod_later > sod_earlier && earlier.1 >= 1_000_000_000 {
        1
    } else if sod_later < sod_earlier && later.1 >= 1_000_000_000 {
        -1
    } else {
        0
    };
    assert(leap == leap_correction(later, earlier));
    let secs: i128 = later.0 as i128 - earlier.0 as i128 + leap;
    let nanos: i128 = later.1 as i128 - earlier.1 as i128;
    assert(-0x1_0000_0000_0000_0001 <= secs <= 0x1_0000_0000_0000_0001);
    assert(secs * 1_000_000_000 <= 0x1_0000_0000_0000_0001 * 1_000_000_000) by (nonlinear_arith)
        requires
            secs <= 0x1_0000_0000_0000_0001,
    ;
    assert(secs * 1_000_000_000 >= -0x1_0000_0000_0000_0001 * 1_000_000_000) by (nonlinear_arith)
        requires
            secs >= -0x1_0000_0000_0000_0001,
    ;
    let d: i128 = secs * 1_000_000_000 + nanos;
    assert(d == nanos_between(later, earlier));
    let m: i128 = if d >= 0 {
        d / 60_000_000_000
    } else {
        -((-d) / 60_000_000_000)
    };
    // The two second counts lie at most 2^64 seconds apart, far fewer than
    // i64::MAX minutes.
    assert(i64::MIN <= m <= i64::MAX) by (nonlinear_arith)
        requires
            d == secs * 1_000_000_000 + nanos,
            -0x1_0000_0000_0000_0001 <= secs <= 0x1_0000_0000_0000_0001,
            -0x1_0000_0000 <= nanos <= 0x1_0000_0000,
            m == (if d >= 0 { d / 60_000_000_000 } else { -((-d) / 60_000_000_000) }),
    ;
    m as i64
}

/// The countdown text for a reset time given in RFC 3339 form, as seen at the
/// instant `now`: `"-"` when the text is no RFC 3339 time, else the whole
/// minutes left, shown as in `countdown_spec`.
pub open spec fn countdown_at_spec(reset_text: Seq<char>, now: (i64, u32)) -> Seq<char> {
    match rfc3339_instant(reset_text) {
        Some(reset) => countdown_spec(whole_minutes_between(reset, now)),
        None => seq!['-'],
    }
}

/// The countdown text for `value` as seen at the instant `now`.
pub fn countdown_text_at(value: &str, now: (i64, u32)) -> (s: String)
    ensures
        s@ == countdown_at_spec(value@, now),
{
    match parse_rfc3339_instant(value) {
        Some(reset) => countdown_label(minutes_between(reset, now)),
        None => {
            proof {
                reveal_strlit("-");
            }
            String::from_str("-")
        },
    }
}

/// Trusted: calls `std::time::SystemTime::now`. Which time comes back is the
/// system clock's; nothing is stated of it.
#[verifier::external_body]
fn system_now() -> std::time::SystemTime {
    std::time::SystemTime::now()
}

/// Trusted: calls `SystemTime::duration_since(UNIX_EPOCH)` and reads the
/// duration back as whole seconds and sub-second nanoseconds (`as_secs`,
/// `subsec_nanos`): `Ok` with the time elapsed since the epoch, or `Err` with
/// how far before the epoch the time lies (`SystemTimeError::duration`). std
/// documents the nanoseconds as below a billion. Which duration comes back
/// depends on the opaque time value and is not stated.
#[verifier::external_body]
fn since_unix_epoch(time: &std::time::SystemTime) -> (offset: Result<(u64, u32), (u64, u32)>)
    ensures
        match offset {
            Ok(d) => d.1 < 1_000_000_000,
            Err(d) => d.1 < 1_000_000_000,
        },
{
    match time.duration_since(std::time::UNIX_EPOCH) {
        Ok(d) => Ok((d.as_secs(), d.subsec_nanos())),
        Err(e) => Err((e.duration().as_secs(), e.duration().subsec_nanos())),
    }
}

/// The instant of a clock reading given as its offset from the Unix epoch
/// (`Ok` after it, `Err` before it), as (seconds, nanoseconds) with the
/// nanoseconds counted forward from the second: a time 1.25 s before the epoch
/// is (-2, 750_000_000). `None` when the seconds leave `i64` or the
/// nanoseconds are a whole second or more.
pub open spec fn instant_of_offset(offset: Result<(u64, u32), (u64, u32)>) -> Option<(i64, u32)> {
    match offset {
        Ok(d) => if d.0 <= i64::MAX && d.1 < 1_000_000_000 {
            Some((d.0 as i64, d.1))
        } else {
            None
        },
        Err(d) => if d.1 == 0 {
            if d.0 <= 0x8000_0000_0000_0000 {
                Some(((-d.0) as i64, 0u32))
            } else {
                None
            }
        } else if d.0 < 0x8000_0000_0000_0000 && d.1 < 1_000_000_000 {
            Some(((-d.0 - 1) as i64, (1_000_000_000 - d.1) as u32))
        } else {
            None
        },
    }
}

/// The instant of a clock reading given as its offset from the Unix epoch.
pub fn instant_from_offset(offset: Result<(u64, u32), (u64, u32)>) -> (instant: Option<(i64, u32)>)
    ensures
        instant == instant_of_offset(offset),
{
    match offset {
        Ok(d) => if d.0 <= i64::MAX as u64 && d.1 < 1_000_000_000 {
            Some((d.0 as i64, d.1))
        } else {
            None
        },
        Err(d) => if d.1 == 0 {
            if d.0 < 0x8000_0000_0000_0000u64 {
                Some((-(d.0 as i64), 0u32))
            } else if d.0 == 0x8000_0000_0000_0000u64 {
                Some((i64::MIN, 0u32))
            } else {
                None
            }
        } else if d.0 < 0x8000_0000_0000_0000u64 && d.1 < 1_000_000_000 {
            Some((-(d.0 as i64) - 1, 1_000_000_000 - d.1))
        } else {
            None
        },
    }
}

/// The current instant by the system clock; `None` only when it lies beyond
/// the `i64` range of seconds.
pub(crate) fn current_instant() -> (now: Option<(i64, u32)>)
    ensures
        now matches Some(n) ==> n.1 < 1_000_000_000,
{
    let time = system_now();
    instant_from_offset(since_unix_epoch(&time))
}

/// The countdown text for `value` at the current time. A text that is no RFC
/// 3339 time gives `"-"`, and so does a clock reading that has no instant;
/// otherwise the text is the countdown as seen at the instant the clock
/// reported (which instant that is, the clause leaves open).
pub fn countdown_text(value: &str) -> (s: String)
    ensures
        rfc3339_instant(value@) is None ==> s@ == seq!['-'],
        s@ == seq!['-'] || exists|now: (i64, u32)| now.1 < 1_000_000_000 && s@ == countdown_at_spec(value@, now),
{
    match current_instant() {
        Some(now) => countdown_text_at(value, now),
        None => {
            proof {
                reveal_strlit("-");
            }
            let dash = String::from_str("-");
            assert(rfc3339_instant(value@) is None ==> dash@ == seq!['-']);
            dash
        },
    }
}

/// Whole milliseconds of an elapsed time (0 when there is none), kept to the
/// low 64 bits.
pub open spec fn millis_spec(elapsed: Option<(u64, u32)>) -> u64 {
    match elapsed {
        Some(d) => ((d.0 as int * 1000 + d.1 as int / 1_000_000) % 0x1_0000_0000_0000_0000) as u64,
        None => 0,
    }
}

/// Whole milliseconds of an elapsed time given as (seconds, nanoseconds).
pub fn millis_of(elapsed: Option<(u64, u32)>) -> (ms: u64)
    ensures
        ms == millis_spec(elapsed),
{
    match elapsed {
        Some(d) => {
            let total: u128 = d.0 as u128 * 1000 + (d.1 / 1_000_000) as u128;
            (total % 0x1_0000_0000_0000_0000u128) as u64
        },
        None => 0,
    }
}

/// Milliseconds since the Unix epoch by the system clock; 0 when the clock lies
/// before the epoch. The clause states nothing: every `u64` is the millisecond
/// count of some elapsed time, and which time the clock reports is open. What
/// is computed from the reading is `millis_of`, whose contract is exact.
pub fn unix_millis() -> (ms: u64)
    ensures
        exists|elapsed: Option<(u64, u32)>| ms == millis_spec(elapsed),
{
    let now = system_now();
    let elapsed = match since_unix_epoch(&now) {
        Ok(d) => Some(d),
        Err(_) => None,
    };
    millis_of(elapsed)
}

} // verus!
