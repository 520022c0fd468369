//! Counting working days (Monday to Friday) on the calendar.

use chrono::Datelike;
use vstd::prelude::*;
use crate::models::Date;

verus! {

/// The first day chrono's `NaiveDate` can hold (`NaiveDate::MIN`), as its day number.
pub const MIN_DAYS_FROM_CE: i32 = -95746129;

/// The last day chrono's `NaiveDate` can hold (`NaiveDate::MAX`), as its day number.
pub const MAX_DAYS_FROM_CE: i32 = 95745399;

/// A day chrono can hold.
pub open spec fn valid_day(days: int) -> bool {
    MIN_DAYS_FROM_CE <= days <= MAX_DAYS_FROM_CE
}

/// Day of the week, Monday 0 to Sunday 6. Day 1, January 1 of year 1, was a Monday.
pub open spec fn weekday_index(days: int) -> int {
    (days - 1) % 7
}

/// Monday to Friday.
pub open spec fn is_workday_spec(days: int) -> bool {
    weekday_index(days) < 5
}

/// The first working day after `days`.
pub open spec fn next_workday(days: int) -> int {
    let w = weekday_index(days);
    if w == 4 {
        days + 3
    } else if w == 5 {
        days + 2
    } else {
        days + 1
    }
}

/// The day reached by moving `n` working days forward from `days`.
pub open spec fn workday_target(days: int, n: nat) -> int
    decreases n,
{
    if n == 0 {
        days
    } else {
        workday_target(next_workday(days), (n - 1) as nat)
    }
}

/// The number of working days after `a` up to and including `b`.
pub open spec fn count_workdays(a: int, b: int) -> nat
    decreases b - a,
{
    if b <= a {
        0
    } else {
        count_workdays(a, b - 1) + if is_workday_spec(b) {
            1nat
        } else {
            0nat
        }
    }
}

/// chrono's weekday of a day (`NaiveDate::from_num_days_from_ce_opt`, then `weekday` and
/// `num_days_from_monday`). The contract states that day 1 is a Monday and that the
/// weekdays follow each other.
#[verifier::external_body]
fn weekday_of(days_from_ce: i32) -> (w: u32)
    requires
        valid_day(days_from_ce as int),
    ensures
        w == weekday_index(days_from_ce as int),
{
    chrono::NaiveDate::from_num_days_from_ce_opt(days_from_ce).unwrap().weekday().num_days_from_monday()
}

proof fn lemma_weekday_succ(d: int)
    ensures
        weekday_index(d + 1) == (weekday_index(d) + 1) % 7,
        0 <= weekday_index(d) < 7,
{
}

proof fn lemma_next_workday(d: int)
    ensures
        d < next_workday(d) <= d + 3,
        is_workday_spec(next_workday(d)),
        is_workday_spec(d + 1) ==> next_workday(d) == d + 1,
        !is_workday_spec(d + 1) ==> next_workday(d) == next_workday(d + 1),
{
    lemma_weekday_succ(d);
    lemma_weekday_succ(d + 1);
    lemma_weekday_succ(d + 2);
}

proof fn lemma_target_after(d: int, n: nat)
    ensures
        d <= workday_target(d, n),
        n > 0 ==> d < workday_target(d, n),
    decreases n,
{
    if n > 0 {
        lemma_next_workday(d);
        lemma_target_after(next_workday(d), (n - 1) as nat);
    }
}

proof fn lemma_target_step(d: int, n: nat)
    requires
        n > 0,
    ensures
        is_workday_spec(d + 1) ==> workday_target(d + 1, (n - 1) as nat) == workday_target(d, n),
        !is_workday_spec(d + 1) ==> workday_target(d + 1, n) == workday_target(d, n),
{
    lemma_next_workday(d);
    if !is_workday_spec(d + 1) {
        lemma_next_workday(d + 1);
        assert(workday_target(d + 1, n) == workday_target(next_workday(d + 1), (n - 1) as nat));
    }
}

impl Date {
    pub fn new(days_from_ce: i32) -> (d: Date)
        ensures
            d.days_from_ce == days_from_ce,
    {
        Date { days_from_ce }
    }
}

/// Calendar arithmetic on working days.
pub struct Workdays {}

impl Workdays {
    /// The day `workdays` working days after `start_date`. The day reached must be one
    /// that chrono can hold.
    pub fn add_workdays(start_date: Date, workdays: u64) -> (d: Date)
        requires
            valid_day(start_date.days_from_ce as int),
            workday_target(start_date.days_from_ce as int, workdays as nat) <= MAX_DAYS_FROM_CE,
        ensures
            d.days_from_ce == workday_target(start_date.days_from_ce as int, workdays as nat),
    {
        let ghost target = workday_target(start_date.days_from_ce as int, workdays as nat);
        let mut date = start_date;
        let mut remaining = workdays;
        proof {
            lemma_target_after(start_date.days_from_ce as int, workdays as nat);
        }
        while remaining > 0
            invariant
                start_date.days_from_ce <= date.days_from_ce,
                valid_day(start_date.days_from_ce as int),
                workday_target(date.days_from_ce as int, remaining as nat) == target,
                target <= MAX_DAYS_FROM_CE,
                date.days_from_ce <= target,
            decreases target - date.days_from_ce,
        {
            proof {
                lemma_target_after(date.days_from_ce as int, remaining as nat);
                lemma_target_step(date.days_from_ce as int, remaining as nat);
                lemma_target_after(date.days_from_ce + 1, (remaining - 1) as nat);
                lemma_target_after(date.days_from_ce + 1, remaining as nat);
            }
            date = Date { days_from_ce: date.days_from_ce + 1 };
            if Self::is_workday(date) {
                remaining = remaining - 1;
            }
        }
        date
    }

    /// `add_workdays` where the day reached is one chrono can hold; `None` where it is not
    /// (the day arithmetic would overflow there).
    pub fn checked_add_workdays(start_date: Date, workdays: u64) -> (r: Option<Date>)
        requires
            valid_day(start_date.days_from_ce as int),
        ensures
            match r {
                Some(d) => d.days_from_ce == workday_target(
                    start_date.days_from_ce as int,
                    workdays as nat,
                ),
                None => workday_target(start_date.days_from_ce as int, workdays as nat)
                    > MAX_DAYS_FROM_CE,
            },
    {
        let ghost target = workday_target(start_date.days_from_ce as int, workdays as nat);
        let mut date = start_date;
        let mut remaining = workdays;
        while remaining > 0
            invariant
                start_date.days_from_ce <= date.days_from_ce <= MAX_DAYS_FROM_CE,
                valid_day(start_date.days_from_ce as int),
                target == workday_target(start_date.days_from_ce as int, workdays as nat),
                workday_target(date.days_from_ce as int, remaining as nat) == target,
            decreases MAX_DAYS_FROM_CE - date.days_from_ce,
        {
            proof {
                lemma_target_after(date.days_from_ce as int, remaining as nat);
            }
            if date.days_from_ce == MAX_DAYS_FROM_CE {
                return None;
            }
            proof {
                lemma_target_step(date.days_from_ce as int, remaining as nat);
            }
            date = Date { days_from_ce: date.days_from_ce + 1 };
            if Self::is_workday(date) {
                remaining = remaining - 1;
            }
        }
        Some(date)
    }

    /// Whether a day is a working day (not a Saturday or a Sunday).
    pub fn is_workday(date: Date) -> (b: bool)
        requires
            valid_day(date.days_from_ce as int),
        ensures
            b == is_workday_spec(date.days_from_ce as int),
    {
        let w = weekday_of(date.days_from_ce);
        w != 5 && w != 6
    }
}

proof fn lemma_count_split(a: int, b: int, c: int)
    requires
        a <= b <= c,
    ensures
        count_workdays(a, c) == count_workdays(a, b) + count_workdays(b, c),
    decreases c - b,
{
    if c > b {
        lemma_count_split(a, b, c - 1);
    }
}

proof fn lemma_count_to_next_workday(d: int)
    ensures
        count_workdays(d, next_workday(d)) == 1,
{
    lemma_next_workday(d);
    lemma_weekday_succ(d);
    lemma_weekday_succ(d + 1);
    lemma_weekday_succ(d + 2);
    let n = next_workday(d);
    assert(count_workdays(d, d) == 0);
    assert(count_workdays(d, d + 1) == count_workdays(d, d) + if is_workday_spec(d + 1) { 1nat } else { 0nat });
    if n >= d + 2 {
        assert(count_workdays(d, d + 2) == count_workdays(d, d + 1) + if is_workday_spec(d + 2) { 1nat } else { 0nat });
    }
    if n >= d + 3 {
        assert(count_workdays(d, d + 3) == count_workdays(d, d + 2) + if is_workday_spec(d + 3) { 1nat } else { 0nat });
    }
}

/// Moving `n` working days forward lands on a working day (when `n > 0`), after the
/// start, with exactly `n` working days after the start up to and including it.
pub proof fn lemma_add_workdays(d: int, n: nat)
    ensures
        d <= workday_target(d, n),
        n > 0 ==> d < workday_target(d, n) && is_workday_spec(workday_target(d, n)),
        count_workdays(d, workday_target(d, n)) == n,
    decreases n,
{
    lemma_target_after(d, n);
    if n > 0 {
        let e = next_workday(d);
        lemma_next_workday(d);
        lemma_add_workdays(e, (n - 1) as nat);
        lemma_count_to_next_workday(d);
        lemma_count_split(d, e, workday_target(e, (n - 1) as nat));
    }
}

} // verus!
