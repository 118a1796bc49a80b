//! The window calculator: calendar-aligned and rolling window boundaries,
//! anchored to a given UTC instant.
//!
//! Instants are plain calendar fields in UTC.  The library supports the
//! four-digit era (years 0 through 9999); a window whose start would leave
//! that era is reported as a `DateConstructionError` instead of being
//! constructed.

use vstd::prelude::*;
use vstd::arithmetic::div_mod::lemma_fundamental_div_mod_converse;

verus! {

/// Largest year an `Instant` may carry.
pub const YEAR_MAX: i32 = 9999;

/// A UTC instant broken into calendar fields.
#[derive(Clone, Copy, PartialEq, Eq, Structural, Debug)]
pub struct Instant {
    pub year: i32,
    pub month: u8,
    pub day: u8,
    pub hour: u8,
    pub minute: u8,
    pub second: u8,
    /// May reach 1_999_999_999 during a leap second.
    pub nanosecond: u32,
}

/// Construction of a window start failed because an intermediate calendar
/// value fell outside the supported range.
#[derive(Clone, Copy, PartialEq, Eq, Structural, Debug)]
pub struct DateConstructionError;

pub open spec fn is_leap_year(y: int) -> bool {
    (y % 4 == 0 && y % 100 != 0) || y % 400 == 0
}

pub open spec fn days_in_month(y: int, m: int) -> int {
    if m == 2 {
        if is_leap_year(y) {
            29
        } else {
            28
        }
    } else if m == 4 || m == 6 || m == 9 || m == 11 {
        30
    } else {
        31
    }
}

pub open spec fn valid_instant(t: Instant) -> bool {
    &&& 0 <= t.year <= YEAR_MAX
    &&& 1 <= t.month <= 12
    &&& 1 <= t.day <= days_in_month(t.year as int, t.month as int)
    &&& t.hour <= 23
    &&& t.minute <= 59
    &&& t.second <= 59
    &&& t.nanosecond < 2_000_000_000
}

pub fn days_in_month_of(year: i32, month: u8) -> (d: u8)
    requires
        0 <= year,
        1 <= month <= 12,
    ensures
        d as int == days_in_month(year as int, month as int),
{
    if month == 2 {
        let leap: bool = (year % 4 == 0 && year % 100 != 0) || year % 400 == 0;
        if leap {
            29
        } else {
            28
        }
    } else if month == 4 || month == 6 || month == 9 || month == 11 {
        30
    } else {
        31
    }
}

/// Builds an instant from raw calendar fields: `Some` exactly when the
/// fields name a real time of a real calendar day inside the supported
/// era, and then exactly that instant.
pub fn instant_from_fields(
    year: i32,
    month: u8,
    day: u8,
    hour: u8,
    minute: u8,
    second: u8,
    nanosecond: u32,
) -> (r: Option<Instant>)
    ensures
        r is Some <==> valid_instant(
            (Instant { year, month, day, hour, minute, second, nanosecond }),
        ),
        r is Some ==> r->Some_0 == (Instant {
            year,
            month,
            day,
            hour,
            minute,
            second,
            nanosecond,
        }),
{
    if year < 0 || year > YEAR_MAX {
        return None;
    }
    if month < 1 || month > 12 {
        return None;
    }
    if day < 1 || day > days_in_month_of(year, month) {
        return None;
    }
    if hour > 23 || minute > 59 || second > 59 {
        return None;
    }
    if nanosecond >= 2_000_000_000 {
        return None;
    }
    Some(Instant { year, month, day, hour, minute, second, nanosecond })
}

/// Number of whole months from the start of year 0 to the month of `t`.
pub open spec fn month_index(t: Instant) -> int {
    12 * t.year + t.month - 1
}

/// Whether the month window `months_back` months before `t` can be built:
/// the shifted month may not run past December, nor before year 0.
pub open spec fn month_window_ok(t: Instant, months_back: int) -> bool {
    &&& t.month - months_back <= 12
    &&& month_index(t) - months_back >= 0
}

/// First instant of the month `months_back` months before the month of `t`.
pub open spec fn month_window_start(t: Instant, months_back: int) -> Instant {
    let idx = month_index(t) - months_back;
    Instant {
        year: (idx / 12) as i32,
        month: (idx % 12 + 1) as u8,
        day: 1,
        hour: 0,
        minute: 0,
        second: 0,
        nanosecond: 0,
    }
}

/// Whether the year window `years_back` years before `t` can be built.
pub open spec fn year_window_ok(t: Instant, years_back: int) -> bool {
    0 <= t.year - years_back <= YEAR_MAX
}

/// Start of the year window: same month as `t`, year shifted back, day 1,
/// zero time of day.  This is deliberately not a 365-day subtraction.
pub open spec fn year_window_start(t: Instant, years_back: int) -> Instant {
    Instant {
        year: (t.year - years_back) as i32,
        month: t.month,
        day: 1,
        hour: 0,
        minute: 0,
        second: 0,
        nanosecond: 0,
    }
}

/// The whole outcome of the month-window computation.
pub open spec fn month_range_result(t: Instant, months_back: int) -> Result<
    (Instant, Instant),
    DateConstructionError,
> {
    if month_window_ok(t, months_back) {
        Ok((month_window_start(t, months_back), t))
    } else {
        Err(DateConstructionError)
    }
}

/// The whole outcome of the year-window computation.
pub open spec fn year_range_result(t: Instant, years_back: int) -> Result<
    (Instant, Instant),
    DateConstructionError,
> {
    if year_window_ok(t, years_back) {
        Ok((year_window_start(t, years_back), t))
    } else {
        Err(DateConstructionError)
    }
}

/// `(start, end)` of the calendar-month window: `end` is `now` itself and
/// `start` is the first instant of the month `months_back` months earlier,
/// borrowing from the year when the subtraction crosses January.
pub fn get_month_range(now: &Instant, months_back: i32) -> (r: Result<
    (Instant, Instant),
    DateConstructionError,
>)
    requires
        valid_instant(*now),
    ensures
        r == month_range_result(*now, months_back as int),
        r is Ok ==> valid_instant(r->Ok_0.0),
{
    if months_back == 0 {
        let start = Instant {
            year: now.year,
            month: now.month,
            day: 1,
            hour: 0,
            minute: 0,
            second: 0,
            nanosecond: 0,
        };
        proof {
            lemma_fundamental_div_mod_converse(
                month_index(*now),
                12,
                now.year as int,
                now.month - 1,
            );
        }
        return Ok((start, *now));
    }
    let mut year: i64 = now.year as i64;
    let mut month: i64 = now.month as i64 - months_back as i64;
    if month > 12 {
        return Err(DateConstructionError);
    }
    while month <= 0
        invariant
            12 * year + month - 1 == month_index(*now) - months_back,
            month <= 12,
            0 <= year <= now.year,
            valid_instant(*now),
        decreases 12 - month,
    {
        if year == 0 {
            return Err(DateConstructionError);
        }
        year = year - 1;
        month = month + 12;
    }
    proof {
        lemma_fundamental_div_mod_converse(
            month_index(*now) - months_back,
            12,
            year as int,
            month - 1,
        );
    }
    Ok(
        (
            Instant {
                year: year as i32,
                month: month as u8,
                day: 1,
                hour: 0,
                minute: 0,
                second: 0,
                nanosecond: 0,
            },
            *now,
        ),
    )
}

/// The instant one civil day before `t`, with the time of day kept.
pub open spec fn previous_day(t: Instant) -> Instant {
    if t.day > 1 {
        Instant { day: (t.day - 1) as u8, ..t }
    } else if t.month > 1 {
        Instant {
            month: (t.month - 1) as u8,
            day: days_in_month(t.year as int, t.month - 1) as u8,
            ..t
        }
    } else {
        Instant { year: (t.year - 1) as i32, month: 12, day: 31, ..t }
    }
}

/// The instant `n` civil days before `t`.
pub open spec fn days_earlier(t: Instant, n: nat) -> Instant
    decreases n,
{
    if n == 0 {
        t
    } else {
        previous_day(days_earlier(t, (n - 1) as nat))
    }
}

/// Whether `t` has a predecessor day inside the supported era.
pub open spec fn can_step_back(t: Instant) -> bool {
    !(t.year == 0 && t.month == 1 && t.day == 1)
}

/// Whether every step of walking `n` days back from `t` stays in the era.
pub open spec fn days_earlier_ok(t: Instant, n: nat) -> bool
    decreases n,
{
    if n == 0 {
        true
    } else {
        days_earlier_ok(t, (n - 1) as nat) && can_step_back(days_earlier(t, (n - 1) as nat))
    }
}

/// The whole outcome of the rolling-day computation.
pub open spec fn days_earlier_result(t: Instant, n: nat) -> Result<Instant, DateConstructionError> {
    if days_earlier_ok(t, n) {
        Ok(days_earlier(t, n))
    } else {
        Err(DateConstructionError)
    }
}

proof fn lemma_days_earlier_ok_prefix(t: Instant, m: nat, n: nat)
    requires
        m <= n,
        days_earlier_ok(t, n),
    ensures
        days_earlier_ok(t, m),
    decreases n,
{
    if m < n {
        lemma_days_earlier_ok_prefix(t, m, (n - 1) as nat);
    }
}

fn step_previous_day(t: &Instant) -> (r: Instant)
    requires
        valid_instant(*t),
        can_step_back(*t),
    ensures
        r == previous_day(*t),
        valid_instant(r),
{
    if t.day > 1 {
        Instant { day: t.day - 1, ..*t }
    } else if t.month > 1 {
        let pm = t.month - 1;
        Instant { month: pm, day: days_in_month_of(t.year, pm), ..*t }
    } else {
        Instant { year: t.year - 1, month: 12, day: 31, ..*t }
    }
}

/// The instant `days` civil days before `now`, or an error if the walk
/// would leave the supported era.
pub fn instant_minus_days(now: &Instant, days: u32) -> (r: Result<Instant, DateConstructionError>)
    requires
        valid_instant(*now),
    ensures
        r == days_earlier_result(*now, days as nat),
        r is Ok ==> valid_instant(r->Ok_0),
{
    let mut current: Instant = *now;
    let mut i: u32 = 0;
    while i < days
        invariant
            i <= days,
            valid_instant(*now),
            valid_instant(current),
            current == days_earlier(*now, i as nat),
            days_earlier_ok(*now, i as nat),
        decreases days - i,
    {
        if current.year == 0 && current.month == 1 && current.day == 1 {
            proof {
                assert(!days_earlier_ok(*now, (i + 1) as nat));
                if days_earlier_ok(*now, days as nat) {
                    lemma_days_earlier_ok_prefix(*now, (i + 1) as nat, days as nat);
                }
            }
            return Err(DateConstructionError);
        }
        current = step_previous_day(&current);
        i = i + 1;
    }
    Ok(current)
}

/// `(start, end)` of the year window: `end` is `now` itself and `start`
/// keeps the month of `now`, moves the year back by `years_back`, and
/// forces day 1 and a zero time of day.
pub fn get_year_range(now: &Instant, years_back: i32) -> (r: Result<
    (Instant, Instant),
    DateConstructionError,
>)
    requires
        valid_instant(*now),
    ensures
        r == year_range_result(*now, years_back as int),
        r is Ok ==> valid_instant(r->Ok_0.0),
{
    let shifted: i64 = now.year as i64 - years_back as i64;
    if shifted < 0 || shifted > YEAR_MAX as i64 {
        return Err(DateConstructionError);
    }
    Ok(
        (
            Instant {
                year: shifted as i32,
                month: now.month,
                day: 1,
                hour: 0,
                minute: 0,
                second: 0,
                nanosecond: 0,
            },
            *now,
        ),
    )
}

/// The nine rolling windows, in their fixed order.
#[derive(Clone, Copy, PartialEq, Eq, Structural, Debug)]
pub enum WindowLabel {
    TwoDays,
    OneWeek,
    TwoWeeks,
    FourWeeks,
    OneMonth,
    TwoMonths,
    ThreeMonths,
    SixMonths,
    OneYear,
}

/// A named window: `end` is the anchoring "now", `start` is derived from it.
#[derive(Clone, Copy, PartialEq, Eq, Structural, Debug)]
pub struct Window {
    pub label: WindowLabel,
    pub start: Instant,
    pub end: Instant,
}

/// The start instant each label derives from `now`: plain day subtraction
/// for the day/week windows, calendar alignment for the month windows, and
/// the same-month/day-1 rule for the year window.
pub open spec fn window_start_result(now: Instant, label: WindowLabel) -> Result<
    Instant,
    DateConstructionError,
> {
    match label {
        WindowLabel::TwoDays => days_earlier_result(now, 2),
        WindowLabel::OneWeek => days_earlier_result(now, 7),
        WindowLabel::TwoWeeks => days_earlier_result(now, 14),
        WindowLabel::FourWeeks => days_earlier_result(now, 28),
        WindowLabel::OneMonth => match month_range_result(now, 0) {
            Ok(p) => Ok(p.0),
            Err(e) => Err(e),
        },
        WindowLabel::TwoMonths => match month_range_result(now, 2) {
            Ok(p) => Ok(p.0),
            Err(e) => Err(e),
        },
        WindowLabel::ThreeMonths => match month_range_result(now, 3) {
            Ok(p) => Ok(p.0),
            Err(e) => Err(e),
        },
        WindowLabel::SixMonths => match month_range_result(now, 6) {
            Ok(p) => Ok(p.0),
            Err(e) => Err(e),
        },
        WindowLabel::OneYear => match year_range_result(now, 1) {
            Ok(p) => Ok(p.0),
            Err(e) => Err(e),
        },
    }
}

/// Computes the start instant for one labelled window.
pub fn compute_window_start(now: &Instant, label: WindowLabel) -> (r: Result<
    Instant,
    DateConstructionError,
>)
    requires
        valid_instant(*now),
    ensures
        r == window_start_result(*now, label),
        r is Ok ==> valid_instant(r->Ok_0),
{
    match label {
        WindowLabel::TwoDays => instant_minus_days(now, 2),
        WindowLabel::OneWeek => instant_minus_days(now, 7),
        WindowLabel::TwoWeeks => instant_minus_days(now, 14),
        WindowLabel::FourWeeks => instant_minus_days(now, 28),
        WindowLabel::OneMonth => match get_month_range(now, 0) {
            Ok(p) => Ok(p.0),
            Err(e) => Err(e),
        },
        WindowLabel::TwoMonths => match get_month_range(now, 2) {
            Ok(p) => Ok(p.0),
            Err(e) => Err(e),
        },
        WindowLabel::ThreeMonths => match get_month_range(now, 3) {
            Ok(p) => Ok(p.0),
            Err(e) => Err(e),
        },
        WindowLabel::SixMonths => match get_month_range(now, 6) {
            Ok(p) => Ok(p.0),
            Err(e) => Err(e),
        },
        WindowLabel::OneYear => match get_year_range(now, 1) {
            Ok(p) => Ok(p.0),
            Err(e) => Err(e),
        },
    }
}

/// The fixed label order of the window set.
pub open spec fn label_order() -> Seq<WindowLabel> {
    seq![
        WindowLabel::TwoDays,
        WindowLabel::OneWeek,
        WindowLabel::TwoWeeks,
        WindowLabel::FourWeeks,
        WindowLabel::OneMonth,
        WindowLabel::TwoMonths,
        WindowLabel::ThreeMonths,
        WindowLabel::SixMonths,
        WindowLabel::OneYear,
    ]
}

/// Derives the full window set for `now`: one window per label, in the
/// fixed order, each with `end == now` and its start as the label demands.
/// Fails as a whole if any start cannot be constructed.
pub fn all_windows(now: &Instant) -> (r: Result<Vec<Window>, DateConstructionError>)
    requires
        valid_instant(*now),
    ensures
        r is Ok ==> {
            let ws = r->Ok_0;
            &&& ws@.len() == label_order().len()
            &&& forall|j: int|
                0 <= j < ws@.len() ==> {
                    &&& (#[trigger] ws@[j]).label == label_order()[j]
                    &&& Ok::<Instant, DateConstructionError>(ws@[j].start) == window_start_result(
                        *now,
                        label_order()[j],
                    )
                    &&& ws@[j].end == *now
                    &&& valid_instant(ws@[j].start)
                }
        },
        r is Err ==> exists|l: WindowLabel|
            label_order().contains(l) && window_start_result(*now, l) is Err,
{
    let labels: [WindowLabel; 9] = [
        WindowLabel::TwoDays,
        WindowLabel::OneWeek,
        WindowLabel::TwoWeeks,
        WindowLabel::FourWeeks,
        WindowLabel::OneMonth,
        WindowLabel::TwoMonths,
        WindowLabel::ThreeMonths,
        WindowLabel::SixMonths,
        WindowLabel::OneYear,
    ];
    let mut ws: Vec<Window> = Vec::new();
    let mut k: usize = 0;
    while k < 9
        invariant
            k <= 9,
            valid_instant(*now),
            labels@ == label_order(),
            ws@.len() == k,
            forall|j: int|
                0 <= j < k ==> {
                    &&& (#[trigger] ws@[j]).label == label_order()[j]
                    &&& Ok::<Instant, DateConstructionError>(ws@[j].start) == window_start_result(
                        *now,
                        label_order()[j],
                    )
                    &&& ws@[j].end == *now
                    &&& valid_instant(ws@[j].start)
                },
        decreases 9 - k,
    {
        let label = labels[k];
        match compute_window_start(now, label) {
            Ok(start) => {
                ws.push(Window { label, start, end: *now });
            },
            Err(e) => {
                proof {
                    assert(label_order().contains(label)) by {
                        assert(label_order()[k as int] == label);
                    }
                }
                return Err(e);
            },
        }
        k = k + 1;
    }
    Ok(ws)
}

/// Chronological order of instants, field by field.
pub open spec fn instant_le(a: Instant, b: Instant) -> bool {
    if a.year != b.year {
        a.year < b.year
    } else if a.month != b.month {
        a.month < b.month
    } else if a.day != b.day {
        a.day < b.day
    } else if a.hour != b.hour {
        a.hour < b.hour
    } else if a.minute != b.minute {
        a.minute < b.minute
    } else if a.second != b.second {
        a.second < b.second
    } else {
        a.nanosecond <= b.nanosecond
    }
}

proof fn lemma_previous_day_le(t: Instant)
    requires
        valid_instant(t),
        can_step_back(t),
    ensures
        valid_instant(previous_day(t)),
        instant_le(previous_day(t), t),
{
}

proof fn lemma_days_earlier_le(t: Instant, n: nat)
    requires
        valid_instant(t),
        days_earlier_ok(t, n),
    ensures
        valid_instant(days_earlier(t, n)),
        instant_le(days_earlier(t, n), t),
    decreases n,
{
    if n > 0 {
        lemma_days_earlier_le(t, (n - 1) as nat);
        lemma_previous_day_le(days_earlier(t, (n - 1) as nat));
    }
}

proof fn lemma_month_window_start_le(t: Instant, months_back: int)
    requires
        valid_instant(t),
        month_window_ok(t, months_back),
        months_back >= 0,
    ensures
        instant_le(month_window_start(t, months_back), t),
{
    let idx = month_index(t);
    lemma_fundamental_div_mod_converse(idx, 12, t.year as int, t.month - 1);
    vstd::arithmetic::div_mod::lemma_div_is_ordered(idx - months_back, idx, 12);
    vstd::arithmetic::div_mod::lemma_fundamental_div_mod(idx - months_back, 12);
    vstd::arithmetic::div_mod::lemma_mod_bound(idx - months_back, 12);
}

/// Every window runs forward: a computed start never lies after the
/// anchoring "now" it was derived from.
pub proof fn lemma_window_start_le_now(now: Instant, label: WindowLabel)
    requires
        valid_instant(now),
        window_start_result(now, label) is Ok,
    ensures
        instant_le(window_start_result(now, label)->Ok_0, now),
{
    match label {
        WindowLabel::TwoDays => lemma_days_earlier_le(now, 2),
        WindowLabel::OneWeek => lemma_days_earlier_le(now, 7),
        WindowLabel::TwoWeeks => lemma_days_earlier_le(now, 14),
        WindowLabel::FourWeeks => lemma_days_earlier_le(now, 28),
        WindowLabel::OneMonth => lemma_month_window_start_le(now, 0),
        WindowLabel::TwoMonths => lemma_month_window_start_le(now, 2),
        WindowLabel::ThreeMonths => lemma_month_window_start_le(now, 3),
        WindowLabel::SixMonths => lemma_month_window_start_le(now, 6),
        WindowLabel::OneYear => {},
    }
}

/// The month-window start always lands on day 1 at a zero time of day, in
/// the month exactly `months_back` months before the month of `t`.
pub proof fn lemma_month_window_shape(t: Instant, months_back: int)
    requires
        valid_instant(t),
        month_window_ok(t, months_back),
    ensures
        month_window_start(t, months_back).day == 1,
        month_window_start(t, months_back).hour == 0,
        month_window_start(t, months_back).minute == 0,
        month_window_start(t, months_back).second == 0,
        month_window_start(t, months_back).nanosecond == 0,
        1 <= month_window_start(t, months_back).month <= 12,
        0 <= month_window_start(t, months_back).year,
        month_index(month_window_start(t, months_back)) == month_index(t) - months_back,
{
    let idx = month_index(t) - months_back;
    vstd::arithmetic::div_mod::lemma_fundamental_div_mod(idx, 12);
    assert(0 <= idx % 12 < 12) by {
        vstd::arithmetic::div_mod::lemma_mod_bound(idx, 12);
    }
    assert(idx / 12 >= 0) by {
        vstd::arithmetic::div_mod::lemma_div_pos_is_pos(idx, 12);
    }
    assert(idx / 12 <= YEAR_MAX) by {
        if idx / 12 > YEAR_MAX {
            assert(12 * (idx / 12) > 12 * YEAR_MAX) by (nonlinear_arith)
                requires idx / 12 > YEAR_MAX;
        }
    }
}

/// The year-window start keeps the month of `t`, moves the year back by
/// exactly `years_back`, and lands on day 1 at a zero time of day.
pub proof fn lemma_year_window_shape(t: Instant, years_back: int)
    requires
        valid_instant(t),
        year_window_ok(t, years_back),
    ensures
        year_window_start(t, years_back).year == t.year - years_back,
        year_window_start(t, years_back).month == t.month,
        year_window_start(t, years_back).day == 1,
        year_window_start(t, years_back).hour == 0,
        year_window_start(t, years_back).minute == 0,
        year_window_start(t, years_back).second == 0,
        year_window_start(t, years_back).nanosecond == 0,
{
}

/// The window calculator is a function of `now` and the label alone: two
/// computations for the same arguments yield identical starts and ends.
pub proof fn lemma_window_calculator_idempotent(
    now: Instant,
    label: WindowLabel,
    r1: Result<Instant, DateConstructionError>,
    r2: Result<Instant, DateConstructionError>,
)
    requires
        r1 == window_start_result(now, label),
        r2 == window_start_result(now, label),
    ensures
        r1 == r2,
{
}

} // verus!
