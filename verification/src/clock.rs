//! Reading the process clock.  The raw field values come from the system
//! clock through a trusted wrapper that is total — a clock it cannot read
//! is `None`, never a panic — and everything derived from them is checked
//! by `instant_from_fields`, so callers only ever see a valid instant.

use std::time::{SystemTime, UNIX_EPOCH};
use chrono::{Datelike, Timelike};
use vstd::prelude::*;
use crate::calendar::{
    all_windows, instant_from_fields, label_order, valid_instant, window_start_result,
    DateConstructionError, Instant, Window,
};

verus! {

/// Relies on `std::time::SystemTime::now` and `duration_since`, which
/// return an error on a clock before the Unix epoch, and on
/// `chrono::DateTime::from_timestamp`, which returns `None` outside
/// chrono's range, with chrono's `Datelike`/`Timelike` accessors, whose
/// documentation bounds the fields: month 1 to 12, day 1 to 31, hour at
/// most 23, minute and second at most 59, and nanosecond below
/// 2_000_000_000 (the high range marks a leap second).  Nothing can be
/// promised about which moment the clock reports, nor that it can be
/// read at all.
#[verifier::external_body]
fn utc_now_fields() -> (r: Option<(i32, u8, u8, u8, u8, u8, u32)>)
    ensures
        r is Some ==> {
            let f = r->Some_0;
            &&& 1 <= f.1 <= 12
            &&& 1 <= f.2 <= 31
            &&& f.3 <= 23
            &&& f.4 <= 59
            &&& f.5 <= 59
            &&& f.6 < 2_000_000_000
        },
{
    let d = match SystemTime::now().duration_since(UNIX_EPOCH) {
        Ok(d) => d,
        Err(_) => return None,
    };
    let t = match chrono::DateTime::from_timestamp(d.as_secs() as i64, d.subsec_nanos()) {
        Some(t) => t,
        None => return None,
    };
    Some((t.year(), t.month() as u8, t.day() as u8, t.hour() as u8, t.minute() as u8, t.second() as u8, t.nanosecond()))
}

/// Reads the clock as a UTC instant: `None` when the clock cannot be read
/// or reports a time outside the supported era.  The fields pass through
/// `instant_from_fields`, whose contract pins exactly which field values
/// are accepted, so whatever the clock reported, a returned instant is
/// valid.
pub fn current_instant() -> (r: Option<Instant>)
    ensures
        r is Some ==> valid_instant(r->Some_0),
{
    match utc_now_fields() {
        Some((year, month, day, hour, minute, second, nanosecond)) => instant_from_fields(
            year,
            month,
            day,
            hour,
            minute,
            second,
            nanosecond,
        ),
        None => None,
    }
}

/// Reads the clock once and derives the full window set anchored to that
/// reading, as done once per process start.  Whatever instant the clock
/// reported, a returned set is exactly the one that instant demands.
pub fn current_windows() -> (r: Option<(Instant, Vec<Window>)>)
    ensures
        r is Some ==> {
            let now = r->Some_0.0;
            let ws = r->Some_0.1;
            &&& valid_instant(now)
            &&& ws@.len() == label_order().len()
            &&& forall|j: int|
                0 <= j < ws@.len() ==> {
                    &&& (#[trigger] ws@[j]).label == label_order()[j]
                    &&& Ok::<Instant, DateConstructionError>(ws@[j].start) == window_start_result(
                        now,
                        label_order()[j],
                    )
                    &&& ws@[j].end == now
                    &&& valid_instant(ws@[j].start)
                }
        },
{
    match current_instant() {
        Some(now) => match all_windows(&now) {
            Ok(ws) => Some((now, ws)),
            Err(_) => None,
        },
        None => None,
    }
}

} // verus!
