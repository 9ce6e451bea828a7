//! Inputs of the seeding tool, which fills a store with one key per date of
//! a fortnightly range and then deletes keys by pattern.
use vstd::prelude::*;

verus! {

/// Why the seeding tool's command line was refused.
#[derive(Debug, Clone, PartialEq, Eq)]
pub enum InputError {
    /// An expected argument is missing.
    InvalidInput,
}

/// The seeding tool's command line: the store's address, then the pattern of
/// the keys to delete.
pub struct InputArgs {
    pub ip: String,
    pub regex: String,
}

impl InputArgs {
    /// Reads the address and the pattern, in that order, from the arguments
    /// that follow the program name.
    pub fn try_from(list: Vec<String>) -> (r: Result<InputArgs, InputError>)
        ensures
            match r {
                Ok(a) => list@.len() >= 2 && a.ip@ == list@[0]@ && a.regex@ == list@[1]@,
                Err(InputError::InvalidInput) => list@.len() < 2,
            },
    {
        if list.len() < 2 {
            return Err(InputError::InvalidInput);
        }
        Ok(InputArgs { ip: list[0].clone(), regex: list[1].clone() })
    }
}

/// The day number that `chrono` gives a calendar date (day 1 is 0001-01-01
/// of the proleptic Gregorian calendar), or `None` for a date it does not
/// represent.
pub uninterp spec fn ce_day_number(year: i32, month: u32, day: u32) -> Option<int>;

/// Relies on `chrono::NaiveDate::from_ymd_opt` and
/// `chrono::Datelike::num_days_from_ce`: the date's day number, when the date
/// exists.
#[verifier::external_body]
fn day_number(year: i32, month: u32, day: u32) -> (r: Option<i32>)
    ensures
        match r {
            Some(n) => ce_day_number(year, month, day) == Some(n as int),
            None => ce_day_number(year, month, day) is None,
        },
{
    match chrono::NaiveDate::from_ymd_opt(year, month, day) {
        Some(d) => Some(chrono::Datelike::num_days_from_ce(&d)),
        None => None,
    }
}

/// A calendar day, as its day number (day 1 is 0001-01-01).
#[derive(Clone, Copy, PartialEq, Eq, Structural)]
pub struct CalendarDay {
    pub days_from_ce: i64,
}

/// The year whose first of January opens the seeded range.
pub const FIRST_YEAR: i32 = 2015;

/// Days between two consecutive days of the seeded range: two weeks.
pub const STEP_DAYS: i64 = 14;

/// How many days the seeded range holds.
pub const RANGE_LEN: usize = 100;

/// The seeded range: from the first of January of `FIRST_YEAR`, `RANGE_LEN`
/// days, each `STEP_DAYS` after the one before.
pub fn generate_date_range() -> (r: Vec<CalendarDay>)
    ensures
        match ce_day_number(FIRST_YEAR, 1, 1) {
            Some(start) => r@.len() == RANGE_LEN && forall|i: int|
                0 <= i < RANGE_LEN ==> #[trigger] r@[i].days_from_ce == start + STEP_DAYS * i,
            None => r@.len() == 0,
        },
{
    let mut result: Vec<CalendarDay> = Vec::new();
    let start = match day_number(FIRST_YEAR, 1, 1) {
        Some(n) => n as i64,
        None => return result,
    };
    let mut date = CalendarDay { days_from_ce: start };
    let mut i: usize = 0;
    while i < RANGE_LEN
        invariant
            i <= RANGE_LEN,
            result@.len() == i,
            date.days_from_ce == start + STEP_DAYS * i,
            i32::MIN <= start <= i32::MAX,
            forall|j: int| 0 <= j < i ==> #[trigger] result@[j].days_from_ce == start + STEP_DAYS * j,
        decreases RANGE_LEN - i,
    {
        result.push(date);
        date = CalendarDay { days_from_ce: date.days_from_ce + STEP_DAYS };
        i = i + 1;
    }
    result
}

} // verus!
