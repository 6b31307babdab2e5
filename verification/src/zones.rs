//! The time source: the clock display for each recognized zone identifier.
//!
//! The roster knows five identifiers: the host's local zone, UTC, and three
//! named city zones. The wall clock is read as one Unix timestamp, and each
//! zone's display is derived from that one instant, so all panels of a frame
//! show the same moment. An unrecognized identifier yields the sentinel
//! `Invalid location` instead of an error: the display must never stop
//! redrawing over a bad label.

use vstd::prelude::*;

verus! {

use vstd::arithmetic::div_mod::{lemma_mod_multiples_vanish, lemma_mod_bound};
use vstd::string::StringExecFns;
use crate::text::str_eq;
use crate::timefmt::{format_hms, hms_chars, is_clock_display};

/// What chrono_tz computes for a named zone: its UTC offset in seconds at
/// instant `t`, out of the timezone table compiled into the crate, so a
/// function of the arguments alone.
pub uninterp spec fn tz_offset_of(zone: Seq<char>, t: int) -> int;

/// The time of day, in seconds since midnight, at Unix instant `t` in a zone
/// whose UTC offset is `off` seconds.
pub open spec fn sod_of(t: int, off: int) -> int {
    (t + off) % 86400
}

/// The zone identifiers the time source recognizes.
pub open spec fn recognized_zone(z: Seq<char>) -> bool {
    ||| z == "local"@
    ||| z == "utc"@
    ||| z == "blr"@
    ||| z == "erd"@
    ||| z == "mia"@
}

/// What the display string for zone identifier `z` at instant `t` must be.
/// The local zone's offset comes from the host environment, so only its
/// one-day bound is known; each city zone's offset is chrono_tz's, by the
/// zone's canonical name; an unrecognized identifier shows the sentinel.
pub open spec fn zone_time_ok(z: Seq<char>, t: int, s: Seq<char>) -> bool {
    if z == "local"@ {
        exists|off: int| -86400 < off < 86400 && s == hms_chars(#[trigger] sod_of(t, off))
    } else if z == "utc"@ {
        s == hms_chars(sod_of(t, 0))
    } else if z == "blr"@ {
        s == hms_chars(sod_of(t, tz_offset_of("Asia/Kolkata"@, t)))
    } else if z == "erd"@ {
        s == hms_chars(sod_of(t, tz_offset_of("Europe/Berlin"@, t)))
    } else if z == "mia"@ {
        s == hms_chars(sod_of(t, tz_offset_of("America/New_York"@, t)))
    } else {
        s == "Invalid location"@
    }
}

/// Relies on chrono::Utc::now: the wall clock, as non-leap seconds since the
/// Unix epoch. Nothing can be promised of a clock reading.
#[verifier::external_body]
pub(crate) fn now_timestamp() -> i64 {
    chrono::Utc::now().timestamp()
}

/// Relies on chrono_tz (`Tz::from_str`, `TimeZone::offset_from_utc_datetime`)
/// for the named zone's UTC offset at instant `t`, a lookup in the timezone
/// table compiled into the crate, so a function of the arguments alone; and
/// on chrono's `FixedOffset`, whose constructors keep every offset strictly
/// inside one day (`-86400 < secs < 86400`). A name outside the table falls
/// back to the zero offset of UTC, and an instant outside chrono's datetime
/// range to the epoch: still functions of the arguments alone.
#[verifier::external_body]
fn tz_offset_seconds(zone: &str, t: i64) -> (r: i32)
    ensures
        r == tz_offset_of(zone@, t as int),
        -86400 < r < 86400,
{
    let tz: chrono_tz::Tz = zone.parse().unwrap_or(chrono_tz::Tz::UTC);
    let dt = chrono::DateTime::from_timestamp(t, 0).unwrap_or(chrono::DateTime::UNIX_EPOCH);
    chrono::Offset::fix(&chrono::TimeZone::offset_from_utc_datetime(&tz, &dt.naive_utc()))
        .local_minus_utc()
}

/// Relies on chrono::Local for the host environment's UTC offset at instant
/// `t`. The offset depends on the host's timezone database, so only its
/// one-day bound is stated, which chrono's `FixedOffset` constructors
/// guarantee. An instant outside chrono's datetime range falls back to the
/// epoch.
#[verifier::external_body]
fn local_offset_seconds(t: i64) -> (r: i32)
    ensures
        -86400 < r < 86400,
{
    let dt = chrono::DateTime::from_timestamp(t, 0).unwrap_or(chrono::DateTime::UNIX_EPOCH);
    chrono::TimeZone::offset_from_utc_datetime(&chrono::Local, &dt.naive_utc()).local_minus_utc()
}

/// The time of day at Unix instant `t` in a zone `off` seconds from UTC.
fn seconds_of_day(t: i64, off: i32) -> (sod: u32)
    requires
        -86400 < off < 86400,
    ensures
        sod == sod_of(t as int, off as int),
        sod < 86400,
{
    let big: i128 = 200_000_000_000_000i128 * 86400i128;
    let shifted: i128 = (t as i128) + (off as i128) + big;
    proof {
        lemma_mod_multiples_vanish(200_000_000_000_000int, t as int + off as int, 86400int);
        lemma_mod_bound(t as int + off as int, 86400int);
        assert(shifted >= 0);
    }
    let m: u128 = (shifted as u128) % 86400u128;
    m as u32
}

/// The clock display for one zone identifier at Unix instant `t`:
/// `HH:MM:SS` in that zone for a recognized identifier, the sentinel
/// `Invalid location` for anything else.
pub fn get_time_at(zone_id: &str, t: i64) -> (r: String)
    ensures
        zone_time_ok(zone_id@, t as int, r@),
        recognized_zone(zone_id@) ==> is_clock_display(r@),
        !recognized_zone(zone_id@) ==> r@ == "Invalid location"@,
{
    if str_eq(zone_id, "local") {
        let off = local_offset_seconds(t);
        format_hms(seconds_of_day(t, off))
    } else if str_eq(zone_id, "utc") {
        format_hms(seconds_of_day(t, 0))
    } else if str_eq(zone_id, "blr") {
        format_hms(seconds_of_day(t, tz_offset_seconds("Asia/Kolkata", t)))
    } else if str_eq(zone_id, "erd") {
        format_hms(seconds_of_day(t, tz_offset_seconds("Europe/Berlin", t)))
    } else if str_eq(zone_id, "mia") {
        format_hms(seconds_of_day(t, tz_offset_seconds("America/New_York", t)))
    } else {
        String::from_str("Invalid location")
    }
}

/// The clock display for one zone identifier, read from the wall clock. The
/// clock is the one ambient input; everything after the read is
/// [`get_time_at`], verified for every instant.
pub fn get_time(zone_id: &str) -> (r: String)
    ensures
        exists|t: int| zone_time_ok(zone_id@, t, r@),
        recognized_zone(zone_id@) ==> is_clock_display(r@),
        !recognized_zone(zone_id@) ==> r@ == "Invalid location"@,
{
    let t = now_timestamp();
    let r = get_time_at(zone_id, t);
    proof {
        assert(zone_time_ok(zone_id@, t as int, r@));
    }
    r
}

} // verus!
