//! The text grammar of durations and timestamps, provided by the humantime
//! crate. Values cross this boundary as (seconds, nanoseconds) pairs.
use vstd::prelude::*;

use crate::numbers::duration_bound_ok;
use crate::time::{NANOS_PER_SEC, TIMESTAMP_SECS_LIMIT};

verus! {

/// What humantime's `parse_duration` reads from a text: the seconds and
/// nanoseconds of the duration, or `None` where it rejects the text.
pub uninterp spec fn duration_parsed(text: Seq<char>) -> Option<(u64, u32)>;

/// The text that humantime's `format_duration` writes for a duration of the
/// given seconds and nanoseconds.
pub uninterp spec fn duration_text(d: (u64, u32)) -> Seq<char>;

/// What humantime's `parse_rfc3339_weak` reads from a text: the seconds and
/// nanoseconds after the Unix epoch, or `None` where it rejects the text. Its
/// upper limit is fixed by the build target (the year 9999 on 64-bit, Windows
/// and wasm targets, `i32::MAX` seconds on other 32-bit ones), so within one
/// build it depends on the text alone.
pub uninterp spec fn rfc3339_weak_parsed(text: Seq<char>) -> Option<(u64, u32)>;

/// The text that humantime's `format_rfc3339` writes for the point in time
/// the given seconds and nanoseconds after the Unix epoch.
pub uninterp spec fn rfc3339_text(t: (u64, u32)) -> Seq<char>;

#[verifier::external_type_specification]
#[verifier::external_body]
pub struct ExDurationError(humantime::DurationError);

#[verifier::external_type_specification]
#[verifier::external_body]
pub struct ExTimestampError(humantime::TimestampError);

/// Relies on `humantime::parse_duration`: it rejects the text or returns a
/// `std::time::Duration`, whose `subsec_nanos` is below one second. It ends
/// in `Duration::new(secs, nanos)` with `nanos` at most one second, which
/// panics only when `secs` is `u64::MAX`; the bound on the seconds that the
/// text comes to (`crate::numbers`) keeps `secs` below that.
#[verifier::external_body]
pub(crate) fn parse_duration(text: &str) -> (r: Result<(u64, u32), humantime::DurationError>)
    requires
        duration_bound_ok(text@),
    ensures
        r matches Ok(d) ==> duration_parsed(text@) == Some(d) && d.1 < NANOS_PER_SEC,
        r is Err ==> duration_parsed(text@) is None,
{
    match humantime::parse_duration(text) {
        Ok(d) => Ok((d.as_secs(), d.subsec_nanos())),
        Err(e) => Err(e),
    }
}

/// Relies on `humantime::format_duration` and its `Display`: its
/// documentation guarantees that `parse_duration` reads the text back to the
/// same duration. `Duration::new` cannot overflow with `nanos` below one
/// second.
#[verifier::external_body]
pub(crate) fn format_duration(secs: u64, nanos: u32) -> (r: String)
    requires
        nanos < NANOS_PER_SEC,
    ensures
        r@ == duration_text((secs, nanos)),
        duration_parsed(r@) == Some((secs, nanos)),
{
    humantime::format_duration(std::time::Duration::new(secs, nanos)).to_string()
}

/// Relies on `humantime::parse_rfc3339_weak`: it either rejects the text or
/// returns `UNIX_EPOCH` plus a `Duration` of at most the last second of the
/// year 9999, so the time is never before the epoch.
#[verifier::external_body]
pub(crate) fn parse_rfc3339_weak(text: &str) -> (r: Result<(u64, u32), humantime::TimestampError>)
    ensures
        r matches Ok(t) ==> rfc3339_weak_parsed(text@) == Some(t) && t.0 < TIMESTAMP_SECS_LIMIT
            && t.1 < NANOS_PER_SEC,
        r is Err ==> rfc3339_weak_parsed(text@) is None,
{
    match humantime::parse_rfc3339_weak(text) {
        Ok(t) => {
            let d = t.duration_since(std::time::UNIX_EPOCH).expect("humantime returns times after the epoch");
            Ok((d.as_secs(), d.subsec_nanos()))
        },
        Err(e) => Err(e),
    }
}

/// Relies on `humantime::format_rfc3339` and its `Display`, which fails (and
/// `to_string` panics) from the year 10000 on: `secs` stays below that. The
/// text is UTC, with the fraction written in full where it is not zero.
/// Where `parse_rfc3339_weak` accepts the text it reads back the same time;
/// it accepts every time up to `i32::MAX` seconds, the smallest upper limit
/// among humantime's targets.
#[verifier::external_body]
pub(crate) fn format_rfc3339(secs: u64, nanos: u32) -> (r: String)
    requires
        secs < TIMESTAMP_SECS_LIMIT,
        nanos < NANOS_PER_SEC,
    ensures
        r@ == rfc3339_text((secs, nanos)),
        rfc3339_weak_parsed(r@) is Some ==> rfc3339_weak_parsed(r@) == Some((secs, nanos)),
        secs <= 2147483647 ==> rfc3339_weak_parsed(r@) is Some,
{
    humantime::format_rfc3339(std::time::UNIX_EPOCH + std::time::Duration::new(secs, nanos)).to_string()
}

} // verus!
