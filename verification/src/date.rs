//! Proleptic-Gregorian calendar dates and their arithmetic.
//!
//! A [`Date`] is a plain (year, month, day) triple. The library
//! represents years 1 through 9999; every function that produces a
//! date either proves it valid or reports that the result would fall
//! outside that range.

use vstd::prelude::*;

verus! {

/// Smallest year the library represents.
pub const MIN_YEAR: i32 = 1;

/// Largest year the library represents.
pub const MAX_YEAR: i32 = 9999;

/// A calendar date in the proleptic Gregorian calendar.
#[derive(Clone, Copy, Debug, PartialEq, Eq, Structural)]
pub struct Date {
    pub year: i32,
    pub month: u8,
    pub day: u8,
}

/// Whether `y` is a leap year under the Gregorian rule.
pub open spec fn is_leap_year(y: int) -> bool {
    (y % 4 == 0 && y % 100 != 0) || y % 400 == 0
}

/// Number of days in month `m` of year `y`, for `m` in 1..=12.
pub open spec fn days_in_month_spec(y: int, m: int) -> int {
    if m == 2 {
        if is_leap_year(y) {
            29
        } else {
            28
        }
    } else if m == 4 || m == 6 || m == 9 || m == 11 {
        30
    } else if 1 <= m <= 12 {
        31
    } else {
        0
    }
}

/// A date the library represents: a real calendar day with its year
/// in range.
pub open spec fn valid_date(d: Date) -> bool {
    &&& MIN_YEAR <= d.year <= MAX_YEAR
    &&& 1 <= d.month <= 12
    &&& 1 <= d.day <= days_in_month_spec(d.year as int, d.month as int)
}

/// Whether `y` is a leap year.
pub fn is_leap(year: i32) -> (r: bool)
    requires
        MIN_YEAR <= year,
    ensures
        r == is_leap_year(year as int),
{
    let y = year as u32;
    (y % 4 == 0 && y % 100 != 0) || y % 400 == 0
}

/// Number of days in the given month.
pub fn days_in_month(year: i32, month: u32) -> (r: u32)
    requires
        MIN_YEAR <= year <= MAX_YEAR,
        1 <= month <= 12,
    ensures
        r == days_in_month_spec(year as int, month as int),
{
    match month {
        2 => if is_leap(year) { 29 } else { 28 },
        4 | 6 | 9 | 11 => 30,
        _ => 31,
    }
}

/// English name of month `m`, for `m` in 1..=12.
pub open spec fn month_name_spec(m: int) -> Seq<char> {
    if m == 1 {
        "January"@
    } else if m == 2 {
        "February"@
    } else if m == 3 {
        "March"@
    } else if m == 4 {
        "April"@
    } else if m == 5 {
        "May"@
    } else if m == 6 {
        "June"@
    } else if m == 7 {
        "July"@
    } else if m == 8 {
        "August"@
    } else if m == 9 {
        "September"@
    } else if m == 10 {
        "October"@
    } else if m == 11 {
        "November"@
    } else if m == 12 {
        "December"@
    } else {
        "Unknown"@
    }
}

/// Fixed English month name, with a defensive fallback for a month
/// number outside 1..=12.
pub fn month_name(month: u32) -> (r: &'static str)
    ensures
        r@ == month_name_spec(month as int),
{
    match month {
        1 => "January",
        2 => "February",
        3 => "March",
        4 => "April",
        5 => "May",
        6 => "June",
        7 => "July",
        8 => "August",
        9 => "September",
        10 => "October",
        11 => "November",
        12 => "December",
        _ => "Unknown",
    }
}

/// First day of the month containing `d`.
pub open spec fn first_of_month_spec(d: Date) -> Date {
    Date { year: d.year, month: d.month, day: 1 }
}

/// The day after `d`. Meaningful only for valid `d` other than the
/// last representable date.
pub open spec fn succ_date(d: Date) -> Date {
    if d.day < days_in_month_spec(d.year as int, d.month as int) {
        Date { year: d.year, month: d.month, day: (d.day + 1) as u8 }
    } else if d.month < 12 {
        Date { year: d.year, month: (d.month + 1) as u8, day: 1 }
    } else {
        Date { year: (d.year + 1) as i32, month: 1, day: 1 }
    }
}

/// The day before `d`. Meaningful only for valid `d` other than the
/// first representable date.
pub open spec fn pred_date(d: Date) -> Date {
    if d.day > 1 {
        Date { year: d.year, month: d.month, day: (d.day - 1) as u8 }
    } else if d.month > 1 {
        Date {
            year: d.year,
            month: (d.month - 1) as u8,
            day: days_in_month_spec(d.year as int, d.month as int - 1) as u8,
        }
    } else {
        Date { year: (d.year - 1) as i32, month: 12, day: 31 }
    }
}

/// The last date the library represents.
pub open spec fn max_date() -> Date {
    Date { year: MAX_YEAR, month: 12, day: 31 }
}

/// The first date the library represents.
pub open spec fn min_date() -> Date {
    Date { year: MIN_YEAR, month: 1, day: 1 }
}

impl Date {
    /// Builds a date from its parts, `None` when they do not name a
    /// representable calendar day.
    pub fn new(year: i32, month: u32, day: u32) -> (r: Option<Date>)
        ensures
            match r {
                Some(d) => {
                    &&& valid_date(d)
                    &&& d.year == year
                    &&& d.month == month
                    &&& d.day == day
                },
                None => !(MIN_YEAR <= year <= MAX_YEAR && 1 <= month <= 12 && 1 <= day
                    <= days_in_month_spec(year as int, month as int)),
            },
    {
        if MIN_YEAR <= year && year <= MAX_YEAR && 1 <= month && month <= 12 {
            if 1 <= day && day <= days_in_month(year, month) {
                Some(Date { year, month: month as u8, day: day as u8 })
            } else {
                None
            }
        } else {
            None
        }
    }

    /// First day of the month containing `self`.
    pub fn first_of_month(self) -> (r: Date)
        requires
            valid_date(self),
        ensures
            r == first_of_month_spec(self),
            valid_date(r),
    {
        Date { year: self.year, month: self.month, day: 1 }
    }
}

/// The day after `d`, or `None` when `d` is the last representable
/// date.
pub fn next_day(d: Date) -> (r: Option<Date>)
    requires
        valid_date(d),
    ensures
        d == max_date() ==> r is None,
        d != max_date() ==> r == Some(succ_date(d)) && valid_date(succ_date(d)),
{
    let dim = days_in_month(d.year, d.month as u32);
    if (d.day as u32) < dim {
        Some(Date { year: d.year, month: d.month, day: d.day + 1 })
    } else if d.month < 12 {
        Some(Date { year: d.year, month: d.month + 1, day: 1 })
    } else if d.year < MAX_YEAR {
        Some(Date { year: d.year + 1, month: 1, day: 1 })
    } else {
        None
    }
}

/// The day before `d`, or `None` when `d` is the first representable
/// date.
pub fn prev_day(d: Date) -> (r: Option<Date>)
    requires
        valid_date(d),
    ensures
        d == min_date() ==> r is None,
        d != min_date() ==> r == Some(pred_date(d)) && valid_date(pred_date(d)),
{
    if d.day > 1 {
        Some(Date { year: d.year, month: d.month, day: d.day - 1 })
    } else if d.month > 1 {
        let dim = days_in_month(d.year, d.month as u32 - 1);
        Some(Date { year: d.year, month: d.month - 1, day: dim as u8 })
    } else if d.year > MIN_YEAR {
        Some(Date { year: d.year - 1, month: 12, day: 31 })
    } else {
        None
    }
}

/// The date `delta` days away from `d`, stepped one day at a time;
/// `None` as soon as a step would leave the representable range.
pub open spec fn add_days_spec(d: Date, delta: int) -> Option<Date>
    decreases vstd::math::abs(delta),
{
    if delta == 0 {
        Some(d)
    } else if delta > 0 {
        if d == max_date() {
            None
        } else {
            add_days_spec(succ_date(d), delta - 1)
        }
    } else {
        if d == min_date() {
            None
        } else {
            add_days_spec(pred_date(d), delta + 1)
        }
    }
}

/// The date `delta` days away from `d`, or `None` when the result
/// would leave the representable range.
pub fn add_days(d: Date, delta: i32) -> (r: Option<Date>)
    requires
        valid_date(d),
    ensures
        r == add_days_spec(d, delta as int),
        r matches Some(e) ==> valid_date(e),
{
    let mut cur = d;
    if delta >= 0 {
        let mut i: i32 = delta;
        while i > 0
            invariant
                0 <= i <= delta,
                valid_date(cur),
                add_days_spec(d, delta as int) == add_days_spec(cur, i as int),
            decreases i,
        {
            match next_day(cur) {
                Some(n) => {
                    cur = n;
                },
                None => {
                    return None;
                },
            }
            i = i - 1;
        }
        Some(cur)
    } else {
        let mut i: i32 = delta;
        while i < 0
            invariant
                delta <= i <= 0,
                valid_date(cur),
                add_days_spec(d, delta as int) == add_days_spec(cur, i as int),
            decreases -(i as int),
        {
            match prev_day(cur) {
                Some(p) => {
                    cur = p;
                },
                None => {
                    return None;
                },
            }
            i = i + 1;
        }
        Some(cur)
    }
}

/// The date `delta` months away from `d`: the month offset is
/// normalized into year carries, and the day of month is clamped to
/// the target month's length. `None` exactly when the target month
/// falls outside the representable years.
pub open spec fn add_months_spec(d: Date, delta: int) -> Option<Date> {
    let total = d.year * 12 + d.month - 1 + delta;
    if 12 * MIN_YEAR <= total <= 12 * MAX_YEAR + 11 {
        let y = total / 12;
        let m = total % 12 + 1;
        let dim = days_in_month_spec(y, m);
        Some(
            Date {
                year: y as i32,
                month: m as u8,
                day: if d.day <= dim {
                    d.day
                } else {
                    dim as u8
                },
            },
        )
    } else {
        None
    }
}

/// Adds a signed month offset to `d`, clamping the day of month to
/// the target month's length.
pub fn add_months(d: Date, delta_months: i32) -> (r: Option<Date>)
    requires
        valid_date(d),
    ensures
        r == add_months_spec(d, delta_months as int),
        r matches Some(e) ==> valid_date(e),
{
    let total: i64 = (d.year as i64) * 12 + (d.month as i64) - 1 + (delta_months as i64);
    if 12 * (MIN_YEAR as i64) <= total && total <= 12 * (MAX_YEAR as i64) + 11 {
        let t = total as u32;
        proof {
            vstd::arithmetic::div_mod::lemma_div_is_ordered(12, t as int, 12);
            vstd::arithmetic::div_mod::lemma_div_is_ordered(t as int, 12 * MAX_YEAR + 11, 12);
        }
        let y = (t / 12) as i32;
        let m = t % 12 + 1;
        let dim = days_in_month(y, m);
        let day = if (d.day as u32) <= dim {
            d.day
        } else {
            dim as u8
        };
        Some(Date { year: y, month: m as u8, day })
    } else {
        None
    }
}

/// Round trip of the year jump: stepping twelve months forward and
/// twelve months back restores the original date, provided the year
/// ahead is still representable and the day of month survives the
/// forward clamp (a leap day does not: its day is clamped on the way
/// forward and cannot be restored).
pub proof fn lemma_add_months_round_trip(d: Date)
    requires
        valid_date(d),
        d.year + 1 <= MAX_YEAR,
        d.day <= days_in_month_spec(d.year + 1, d.month as int),
    ensures
        match add_months_spec(d, 12) {
            Some(e) => add_months_spec(e, -12) == Some(d),
            None => false,
        },
{
    let total1 = d.year * 12 + d.month - 1 + 12;
    vstd::arithmetic::div_mod::lemma_fundamental_div_mod_converse(
        total1,
        12,
        d.year + 1,
        d.month - 1,
    );
    let e = add_months_spec(d, 12)->Some_0;
    let total2 = e.year * 12 + e.month - 1 + (-12);
    vstd::arithmetic::div_mod::lemma_fundamental_div_mod_converse(
        total2,
        12,
        d.year as int,
        d.month - 1,
    );
    assert(add_months_spec(e, -12) == Some(d));
}

/// A day of the week.
#[derive(Clone, Copy, Debug, PartialEq, Eq, Structural)]
pub enum Weekday {
    Sun,
    Mon,
    Tue,
    Wed,
    Thu,
    Fri,
    Sat,
}

/// Grid column of a weekday under the fixed Sunday-first layout:
/// Sunday is 0, Saturday is 6.
pub open spec fn weekday_column(w: Weekday) -> int {
    match w {
        Weekday::Sun => 0,
        Weekday::Mon => 1,
        Weekday::Tue => 2,
        Weekday::Wed => 3,
        Weekday::Thu => 4,
        Weekday::Fri => 5,
        Weekday::Sat => 6,
    }
}

/// Fixed mapping from a weekday to its grid column, Sunday first.
pub fn sunday_start_index(weekday: Weekday) -> (r: u8)
    ensures
        r == weekday_column(weekday),
{
    match weekday {
        Weekday::Sun => 0,
        Weekday::Mon => 1,
        Weekday::Tue => 2,
        Weekday::Wed => 3,
        Weekday::Thu => 4,
        Weekday::Fri => 5,
        Weekday::Sat => 6,
    }
}

/// Days in year `y` before the first of month `m`, for `m` in 1..=12.
pub open spec fn days_before_month_spec(y: int, m: int) -> int {
    (if m == 1 {
        0int
    } else if m == 2 {
        31
    } else if m == 3 {
        59
    } else if m == 4 {
        90
    } else if m == 5 {
        120
    } else if m == 6 {
        151
    } else if m == 7 {
        181
    } else if m == 8 {
        212
    } else if m == 9 {
        243
    } else if m == 10 {
        273
    } else if m == 11 {
        304
    } else {
        334
    }) + if m >= 3 && is_leap_year(y) {
        1int
    } else {
        0int
    }
}

/// Days from the first representable date to `d`: zero at year 1,
/// January 1. The year term counts complete years with the Gregorian
/// leap rule folded into a closed form.
pub open spec fn day_number_spec(d: Date) -> int {
    let yy = d.year - 1;
    365 * yy + yy / 4 - yy / 100 + yy / 400 + days_before_month_spec(d.year as int, d.month as int)
        + d.day - 1
}

/// Grid column of `d`'s weekday: year 1, January 1 is a Monday.
pub open spec fn weekday_column_of_date(d: Date) -> int {
    (day_number_spec(d) + 1) % 7
}

/// The weekday of `d` in the proleptic Gregorian calendar.
pub fn weekday_of(d: Date) -> (w: Weekday)
    requires
        valid_date(d),
    ensures
        weekday_column(w) == weekday_column_of_date(d),
{
    let yy = (d.year - 1) as u64;
    let dbm: u64 = match d.month {
        1 => 0,
        2 => 31,
        3 => 59,
        4 => 90,
        5 => 120,
        6 => 151,
        7 => 181,
        8 => 212,
        9 => 243,
        10 => 273,
        11 => 304,
        _ => 334,
    };
    let leap_add: u64 = if d.month >= 3 && is_leap(d.year) {
        1
    } else {
        0
    };
    proof {
        vstd::arithmetic::div_mod::lemma_div_nonincreasing(yy as int, 100);
        assert(yy <= 365 * yy) by (nonlinear_arith);
    }
    let n: u64 = 365 * yy + yy / 4 - yy / 100 + yy / 400 + dbm + leap_add + (d.day - 1) as u64;
    let c = (n + 1) % 7;
    match c {
        0 => Weekday::Sun,
        1 => Weekday::Mon,
        2 => Weekday::Tue,
        3 => Weekday::Wed,
        4 => Weekday::Thu,
        5 => Weekday::Fri,
        _ => Weekday::Sat,
    }
}

/// The weekday whose grid column is `c`, for `c` in 0..=6.
pub open spec fn column_weekday(c: int) -> Weekday {
    if c == 0 {
        Weekday::Sun
    } else if c == 1 {
        Weekday::Mon
    } else if c == 2 {
        Weekday::Tue
    } else if c == 3 {
        Weekday::Wed
    } else if c == 4 {
        Weekday::Thu
    } else if c == 5 {
        Weekday::Fri
    } else {
        Weekday::Sat
    }
}

/// The Sunday-first column mapping is a bijection between the seven
/// weekdays and the columns 0 through 6, with [`column_weekday`] as
/// its inverse.
pub proof fn lemma_weekday_column_bijective()
    ensures
        forall|w: Weekday| 0 <= #[trigger] weekday_column(w) < 7,
        forall|w: Weekday| column_weekday(#[trigger] weekday_column(w)) == w,
        forall|c: int| 0 <= c < 7 ==> weekday_column(#[trigger] column_weekday(c)) == c,
{
}

} // verus!
