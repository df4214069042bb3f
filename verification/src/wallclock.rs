//! The one place the library touches the outside world: reading the current
//! UTC time from the system clock, and validating it into a `Timestamp`.

use vstd::prelude::*;

use crate::timestamp::Timestamp;

verus! {

/// The broken-down UTC time as the system clock hands it out, before any
/// validation. Fields mirror a C `tm`: the year counts from 1900 and the
/// month from 0.
#[derive(Clone, Copy, Debug, PartialEq, Eq, Structural)]
pub struct RawUtcTime {
    pub year_since_1900: i32,
    pub mon0: i32,
    pub mday: i32,
    pub hour: i32,
    pub min: i32,
    pub sec: i32,
    pub wday: i32,
}

/// Relies on time::now_utc: the current UTC time, broken down into the
/// fields of time's `Tm`, whose documentation bounds every field read here
/// except the year (seconds reach 60 in a leap second). Two calls need not
/// agree: the clock moves.
#[verifier::external_body]
fn now_utc_raw() -> (r: RawUtcTime)
    ensures
        0 <= r.mon0 <= 11,
        1 <= r.mday <= 31,
        0 <= r.hour <= 23,
        0 <= r.min <= 59,
        0 <= r.sec <= 60,
        0 <= r.wday <= 6,
{
    let tm = time::now_utc();
    RawUtcTime {
        year_since_1900: tm.tm_year,
        mon0: tm.tm_mon,
        mday: tm.tm_mday,
        hour: tm.tm_hour,
        min: tm.tm_min,
        sec: tm.tm_sec,
        wday: tm.tm_wday,
    }
}

/// What raw clock fields mean as a timestamp: `Some` exactly when every
/// field is in range and the full year fits the four-digit form.
pub open spec fn raw_to_ts_spec(raw: RawUtcTime) -> Option<Timestamp> {
    if 0 <= raw.mon0 <= 11 && 1 <= raw.mday <= 31 && 0 <= raw.hour <= 23 && 0 <= raw.min <= 59 && 0
        <= raw.sec <= 60 && 0 <= raw.wday <= 6 && -1900 <= raw.year_since_1900 <= 8099 {
        Some(
            Timestamp {
                wday: raw.wday as u8,
                mday: raw.mday as u8,
                mon: (raw.mon0 + 1) as u8,
                year: (raw.year_since_1900 + 1900) as u16,
                hour: raw.hour as u8,
                min: raw.min as u8,
                sec: raw.sec as u8,
            },
        )
    } else {
        None
    }
}

/// Validates raw clock fields into a well-formed timestamp; `None` when a
/// field is out of range or the year cannot be carried by the four-digit
/// log format.
pub fn timestamp_from_raw(raw: &RawUtcTime) -> (r: Option<Timestamp>)
    ensures
        r == raw_to_ts_spec(*raw),
        r matches Some(t) ==> t.wf(),
{
    if 0 <= raw.mon0 && raw.mon0 <= 11 && 1 <= raw.mday && raw.mday <= 31 && 0 <= raw.hour
        && raw.hour <= 23 && 0 <= raw.min && raw.min <= 59 && 0 <= raw.sec && raw.sec <= 60 && 0
        <= raw.wday && raw.wday <= 6 && -1900 <= raw.year_since_1900 && raw.year_since_1900
        <= 8099 {
        Some(
            Timestamp {
                wday: raw.wday as u8,
                mday: raw.mday as u8,
                mon: (raw.mon0 + 1) as u8,
                year: (raw.year_since_1900 + 1900) as u16,
                hour: raw.hour as u8,
                min: raw.min as u8,
                sec: raw.sec as u8,
            },
        )
    } else {
        None
    }
}

/// The current UTC time as a well-formed timestamp; `None` only if the
/// system clock's year falls outside the four-digit form.
pub fn current_timestamp() -> (r: Option<Timestamp>)
    ensures
        r matches Some(t) ==> t.wf(),
{
    let raw = now_utc_raw();
    timestamp_from_raw(&raw)
}

} // verus!
