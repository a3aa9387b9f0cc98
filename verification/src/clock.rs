use vstd::prelude::*;

use chrono::DateTime;
use std::time::{Duration, SystemTime};

verus! {

/// A reading of the system clock (std's `SystemTime`).
#[verifier::external_type_specification]
#[verifier::external_body]
pub struct ExSystemTime(SystemTime);

/// `+00:00`, the offset with which an RFC 3339 text of a UTC time ends.
pub open spec fn utc_offset_suffix() -> Seq<char> {
    seq!['+', '0', '0', ':', '0', '0']
}

/// Whether `s` ends with the UTC offset `+00:00`.
pub open spec fn ends_with_utc_offset(s: Seq<char>) -> bool {
    s.len() >= 6 && s.subrange(s.len() - 6, s.len() as int) == utc_offset_suffix()
}

/// The current reading of the system clock: std's `SystemTime::now`.
///
/// Nothing is claimed of it: it depends on the clock.
#[verifier::external_body]
fn system_time_now() -> (t: SystemTime) {
    SystemTime::now()
}

/// How long after the Unix epoch the reading `t` lies, or `None` when it
/// lies before it: std's `SystemTime::duration_since` with `UNIX_EPOCH`,
/// its error turned into `None`.
///
/// Nothing is claimed of the duration: the reading is opaque here.
#[verifier::external_body]
fn since_unix_epoch(t: &SystemTime) -> (d: Option<Duration>) {
    t.duration_since(std::time::UNIX_EPOCH).ok()
}

/// The whole seconds of `d`: std's `Duration::as_secs`.
///
/// Nothing is claimed of the value: the duration is opaque here.
#[verifier::external_body]
fn duration_secs(d: &Duration) -> (s: u64) {
    d.as_secs()
}

/// The nanoseconds of `d` past its whole seconds: std's
/// `Duration::subsec_nanos`, which its documentation says is always less
/// than one billion.
#[verifier::external_body]
fn duration_subsec_nanos(d: &Duration) -> (n: u32)
    ensures
        n < 1_000_000_000,
{
    d.subsec_nanos()
}

/// The RFC 3339 text that chrono gives for the UTC instant `secs` seconds
/// and `nsecs` nanoseconds after the Unix epoch, or `None` when chrono
/// cannot represent that instant.
pub uninterp spec fn rfc3339_text(secs: i64, nsecs: u32) -> Option<Seq<char>>;

/// The RFC 3339 text of the UTC instant `secs` seconds and `nsecs`
/// nanoseconds after the Unix epoch: chrono's `DateTime::from_timestamp`,
/// which makes the instant from the two numbers (`None` when chrono cannot
/// represent it), followed by `DateTime::to_rfc3339`.
///
/// Claimed: the result is `rfc3339_text(secs, nsecs)`, a function of the two
/// numbers alone, and a text ends with `+00:00`, the offset chrono writes for
/// UTC (`to_rfc3339` never writes `Z`). Neither the date and time in front of
/// it nor the range of instants chrono represents is stated.
#[verifier::external_body]
fn utc_rfc3339_at(secs: i64, nsecs: u32) -> (s: Option<String>)
    ensures
        s matches Some(text) ==> rfc3339_text(secs, nsecs) == Some(text@) && ends_with_utc_offset(
            text@,
        ),
        s is None ==> rfc3339_text(secs, nsecs) is None,
{
    DateTime::from_timestamp(secs, nsecs).as_ref().map(DateTime::to_rfc3339)
}

/// The UTC time `secs` seconds and `nanos` nanoseconds after the Unix epoch,
/// as whole seconds and as RFC 3339 text; `None` exactly when the seconds do
/// not fit an `i64` or chrono cannot represent that instant.
pub fn utc_reading(secs: u64, nanos: u32) -> (r: Option<(i64, String)>)
    ensures
        r is Some <==> (secs <= i64::MAX && rfc3339_text(secs as i64, nanos) is Some),
        r matches Some(p) ==> {
            &&& p.0 == secs
            &&& rfc3339_text(p.0, nanos) == Some(p.1@)
            &&& ends_with_utc_offset(p.1@)
        },
{
    if secs > i64::MAX as u64 {
        return None;
    }
    let t: i64 = secs as i64;
    match utc_rfc3339_at(t, nanos) {
        Some(text) => Some((t, text)),
        None => None,
    }
}

/// The current UTC time, as whole seconds since the Unix epoch and as RFC
/// 3339 text, both from one reading of the system clock: `None` when the
/// clock reads a time before the epoch, and otherwise what `utc_reading`
/// gives for the seconds and nanoseconds read.
pub fn read_utc_clock() -> (r: Option<(i64, String)>)
    ensures
        r matches Some(reading) ==> {
            &&& reading.0 >= 0
            &&& ends_with_utc_offset(reading.1@)
            &&& exists|n: u32|
                n < 1_000_000_000 && #[trigger] rfc3339_text(reading.0, n) == Some(reading.1@)
        },
{
    let now = system_time_now();
    match since_unix_epoch(&now) {
        Some(since) => {
            let secs = duration_secs(&since);
            let nanos = duration_subsec_nanos(&since);
            let r = utc_reading(secs, nanos);
            proof {
                if r is Some {
                    assert(rfc3339_text(r.unwrap().0, nanos) == Some(r.unwrap().1@));
                }
            }
            r
        },
        None => None,
    }
}

} // verus!
