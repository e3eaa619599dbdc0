//! Calendar dates and the archive's day-offset index.
//!
//! A [`Date`] is a proleptic Gregorian calendar date with no time-of-day
//! component. Offsets are whole-day differences between a fixed "today" and
//! each requested date; "today" is an explicit argument, so indexing is a
//! pure function of its inputs.

use vstd::prelude::*;

verus! {

/// A calendar date: year, month and day in the proleptic Gregorian calendar.
///
/// Supported years run from 1 through 9999.
#[derive(Clone, Copy, PartialEq, Eq, Structural, Debug)]
pub struct Date {
    /// Calendar year, 1 through 9999.
    pub year: i32,
    /// Calendar month, 1 through 12.
    pub month: u8,
    /// Day of the month, 1 through the month's length.
    pub day: u8,
}

/// Whether year `y` is a leap year in the Gregorian calendar.
pub open spec fn is_leap_year(y: int) -> bool {
    (y % 4 == 0 && y % 100 != 0) || y % 400 == 0
}

/// The number of days in month `m` of year `y`.
pub open spec fn days_in_month(y: int, m: int) -> int {
    if m == 2 {
        if is_leap_year(y) {
            29
        } else {
            28
        }
    } else if m == 4 || m == 6 || m == 9 || m == 11 {
        30
    } else {
        31
    }
}

/// The number of leap years among years 1 through `y - 1`.
pub open spec fn leap_years_before(y: int) -> int {
    (y - 1) / 4 - (y - 1) / 100 + (y - 1) / 400
}

/// The number of days in all years before year `y`, counted from the start
/// of year 1, as the closed form over the leap-year count.
pub open spec fn days_before_year(y: int) -> int {
    365 * (y - 1) + leap_years_before(y)
}

/// The number of days in year `y`.
pub open spec fn days_in_year(y: int) -> int {
    if is_leap_year(y) {
        366
    } else {
        365
    }
}

/// The sum of the lengths of years 1 through `y - 1`.
pub open spec fn days_in_years_up_to(y: int) -> int
    decreases y,
{
    if y <= 1 {
        0
    } else {
        days_in_years_up_to(y - 1) + days_in_year(y - 1)
    }
}

/// The number of days in the months of year `y` that precede month `m`.
pub open spec fn days_before_month(y: int, m: int) -> int
    decreases m,
{
    if m <= 1 {
        0
    } else {
        days_before_month(y, m - 1) + days_in_month(y, m - 1)
    }
}

impl Date {
    /// A well-formed date: fields within range, the day within its month.
    pub open spec fn wf(self) -> bool {
        &&& 1 <= self.year <= 9999
        &&& 1 <= self.month <= 12
        &&& 1 <= self.day
        &&& self.day as int <= days_in_month(self.year as int, self.month as int)
    }

    /// The date's serial day number: days elapsed since the first day of
    /// year 1 of the calendar.
    pub open spec fn day_number_spec(self) -> int {
        days_before_year(self.year as int) + days_before_month(
            self.year as int,
            self.month as int,
        ) + self.day as int - 1
    }

    /// Builds a date after checking that the fields form a real calendar
    /// date; rejects anything else.
    pub fn new(year: i32, month: u8, day: u8) -> (r: Option<Date>)
        ensures
            r is Some <==> (Date { year, month, day }).wf(),
            r is Some ==> r->0 == (Date { year, month, day }),
    {
        if 1 <= year && year <= 9999 && 1 <= month && month <= 12 {
            let dim = days_in_month_exec(year, month);
            if 1 <= day && day <= dim {
                return Some(Date { year, month, day });
            }
        }
        None
    }

    /// The serial day number as a machine integer.
    pub fn day_number(&self) -> (n: i64)
        requires
            self.wf(),
        ensures
            n as int == self.day_number_spec(),
            0 <= n <= 3_700_000,
    {
        let y = self.year as i64;
        let before_year: i64 = 365 * (y - 1) + (y - 1) / 4 - (y - 1) / 100 + (y - 1) / 400;
        let mut m: u8 = 1;
        let mut acc: i64 = 0;
        while m < self.month
            invariant
                self.wf(),
                1 <= m <= self.month,
                acc == days_before_month(self.year as int, m as int),
                0 <= acc <= 31 * (m as int - 1),
            decreases self.month as int - m as int,
        {
            acc = acc + days_in_month_exec(self.year, m) as i64;
            m = m + 1;
        }
        before_year + acc + self.day as i64 - 1
    }
}

/// The month's length as a machine integer.
fn days_in_month_exec(year: i32, month: u8) -> (r: u8)
    requires
        1 <= year,
        1 <= month <= 12,
    ensures
        r as int == days_in_month(year as int, month as int),
        28 <= r <= 31,
{
    if month == 2 {
        if (year % 4 == 0 && year % 100 != 0) || year % 400 == 0 {
            29
        } else {
            28
        }
    } else if month == 4 || month == 6 || month == 9 || month == 11 {
        30
    } else {
        31
    }
}

/// The day offsets of a batch of dates against a fixed `today`: element `i`
/// is `today - dates[i]` in whole days.
pub open spec fn offsets_spec(dates: Seq<Date>, today: Date) -> Seq<int> {
    dates.map_values(|d: Date| today.day_number_spec() - d.day_number_spec())
}

/// Computes the archive day offset of every date in `dates` against the one
/// given `today`, in input order. Past dates give non-negative offsets,
/// future dates negative ones.
pub fn get_idxs(dates: &[Date], today: Date) -> (r: Vec<i64>)
    requires
        today.wf(),
        forall|i: int| 0 <= i < dates@.len() ==> dates@[i].wf(),
    ensures
        r@.len() == dates@.len(),
        r@.map_values(|x: i64| x as int) == offsets_spec(dates@, today),
{
    let today_n = today.day_number();
    let mut r: Vec<i64> = Vec::new();
    let n = dates.len();
    let mut i: usize = 0;
    while i < n
        invariant
            n == dates@.len(),
            today.wf(),
            forall|j: int| 0 <= j < dates@.len() ==> dates@[j].wf(),
            today_n as int == today.day_number_spec(),
            0 <= today_n <= 3_700_000,
            0 <= i <= n,
            r@.len() == i as int,
            forall|j: int|
                0 <= j < i as int ==> r@[j] as int == today.day_number_spec()
                    - dates@[j].day_number_spec(),
        decreases n - i,
    {
        let d = &dates[i];
        let dn = d.day_number();
        r.push(today_n - dn);
        i = i + 1;
    }
    proof {
        let lhs = r@.map_values(|x: i64| x as int);
        let rhs = offsets_spec(dates@, today);
        assert(lhs.len() == rhs.len());
        assert forall|j: int| 0 <= j < lhs.len() implies lhs[j] == rhs[j] by {
            assert(r@[j] as int == today.day_number_spec() - dates@[j].day_number_spec());
        }
        assert(lhs =~= rhs);
    }
    r
}

/// Crossing a multiple of `d` bumps the quotient by one; any other step
/// leaves it unchanged.
proof fn lemma_div_step(k: int, d: int)
    requires
        1 <= k,
        1 <= d,
    ensures
        k / d - (k - 1) / d == if k % d == 0 {
            1int
        } else {
            0int
        },
{
    vstd::arithmetic::div_mod::lemma_fundamental_div_mod(k, d);
    vstd::arithmetic::div_mod::lemma_mod_bound(k, d);
    let q = k / d;
    let r = k % d;
    assert(d * q == q * d) by (nonlinear_arith);
    if r == 0 {
        assert((q - 1) * d + (d - 1) == q * d - 1) by (nonlinear_arith);
        vstd::arithmetic::div_mod::lemma_fundamental_div_mod_converse(k - 1, d, q - 1, d - 1);
    } else {
        vstd::arithmetic::div_mod::lemma_fundamental_div_mod_converse(k - 1, d, q, r - 1);
    }
}

/// Law: the closed-form year prefix of the day number is exactly the sum
/// of the lengths of all earlier years, with each year's length given by
/// the same leap rule that shapes February.
pub proof fn lemma_days_before_year_counts(y: int)
    requires
        1 <= y,
    ensures
        days_before_year(y) == days_in_years_up_to(y),
    decreases y,
{
    if y > 1 {
        lemma_days_before_year_counts(y - 1);
        let k = y - 1;
        lemma_div_step(k, 4);
        lemma_div_step(k, 100);
        lemma_div_step(k, 400);
        if k % 400 == 0 {
            vstd::arithmetic::div_mod::lemma_fundamental_div_mod(k, 400);
            let q = k / 400;
            vstd::arithmetic::div_mod::lemma_fundamental_div_mod_converse(k, 100, 4 * q, 0);
            vstd::arithmetic::div_mod::lemma_fundamental_div_mod_converse(k, 4, 100 * q, 0);
        }
        if k % 100 == 0 {
            vstd::arithmetic::div_mod::lemma_fundamental_div_mod(k, 100);
            let q = k / 100;
            vstd::arithmetic::div_mod::lemma_fundamental_div_mod_converse(k, 4, 25 * q, 0);
        }
    }
}

/// Law: a date lying `d` days before `today` indexes to offset exactly `d`,
/// for every non-negative `d`.
pub proof fn lemma_offset_of_earlier_date(date: Date, today: Date, d: int)
    requires
        date.wf(),
        today.wf(),
        d >= 0,
        date.day_number_spec() == today.day_number_spec() - d,
    ensures
        offsets_spec(seq![date], today) =~= seq![d],
{
    assert(offsets_spec(seq![date], today)[0] == d);
}

/// Law: a batch of `N` dates yields exactly `N` offsets, and the offset at
/// position `i` is the offset of the date at position `i`.
pub proof fn lemma_offsets_preserve_order(dates: Seq<Date>, today: Date)
    ensures
        offsets_spec(dates, today).len() == dates.len(),
        forall|i: int|
            0 <= i < dates.len() ==> offsets_spec(dates, today)[i] == today.day_number_spec()
                - dates[i].day_number_spec(),
{
}

/// Law: indexing is deterministic, so repeating it changes nothing: any two
/// result vectors that meet the indexer's contract for the same dates and
/// the same `today` are equal.
pub proof fn lemma_indexer_idempotent(r1: Seq<i64>, r2: Seq<i64>, dates: Seq<Date>, today: Date)
    requires
        r1.map_values(|x: i64| x as int) == offsets_spec(dates, today),
        r2.map_values(|x: i64| x as int) == offsets_spec(dates, today),
    ensures
        r1 == r2,
{
    let m1 = r1.map_values(|x: i64| x as int);
    let m2 = r2.map_values(|x: i64| x as int);
    assert(r1.len() == m1.len());
    assert(r2.len() == m2.len());
    assert forall|i: int| 0 <= i < r1.len() implies r1[i] == r2[i] by {
        assert(m1[i] == m2[i]);
        assert(m1[i] == r1[i] as int);
        assert(m2[i] == r2[i] as int);
    }
    assert(r1 =~= r2);
}

} // verus!
