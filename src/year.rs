//! Leap years, and the days of a year.
use vstd::prelude::*;

use crate::month::{month_start, month_start_at, Month};

verus! {

/// A year is a leap year when it is a multiple of 4, and is a multiple of 100
/// exactly when it is a multiple of 400.
pub open spec fn is_leap(y: int) -> bool {
    y % 4 == 0 && ((y % 100 == 0) == (y % 400 == 0))
}

/// The number of days in the year `y`.
pub open spec fn days_in_year(y: int) -> int {
    if is_leap(y) {
        366
    } else {
        365
    }
}

/// Allow calculations of leap year.
pub trait Year: Sized {
    /// The year as a number.
    spec fn year_number(&self) -> int;

    /// Determine if this year is a leap year or not: a multiple of 4, but not
    /// of 100 unless it is a multiple of 400.
    fn is_leap_year(&self) -> (r: bool)
        ensures
            r == is_leap(self.year_number()),
    ;

    /// Return if the year is a multiple of the given value.
    fn is_mult(&self, value: Self) -> (r: bool)
        requires
            value.year_number() != 0,
        ensures
            r == (self.year_number() % value.year_number() == 0),
    ;

    /// The number of days in the year.
    fn day_count(&self) -> (r: u32)
        ensures
            r == days_in_year(self.year_number()),
    ;

    /// The index, within the year, of the first day of the month.
    fn month_index(&self, month: Month) -> (r: u32)
        ensures
            r == month_start(self.year_number(), month),
    ;
}

impl Year for u32 {
    open spec fn year_number(&self) -> int {
        *self as int
    }

    fn is_leap_year(&self) -> (r: bool) {
        self.is_mult(4) && (self.is_mult(100) == self.is_mult(400))
    }

    fn is_mult(&self, val: u32) -> (r: bool) {
        *self % val == 0
    }

    fn day_count(&self) -> (r: u32) {
        if self.is_leap_year() {
            366
        } else {
            365
        }
    }

    fn month_index(&self, month: Month) -> (r: u32) {
        let leap = self.is_leap_year();
        proof {
            reveal_with_fuel(month_start_at, 12);
        }
        match month {
            Month::January => 0,
            Month::February => 31,
            Month::March => if leap { 60 } else { 59 },
            Month::April => if leap { 91 } else { 90 },
            Month::May => if leap { 121 } else { 120 },
            Month::June => if leap { 152 } else { 151 },
            Month::July => if leap { 182 } else { 181 },
            Month::August => if leap { 213 } else { 212 },
            Month::September => if leap { 244 } else { 243 },
            Month::October => if leap { 274 } else { 273 },
            Month::November => if leap { 305 } else { 304 },
            Month::December => if leap { 335 } else { 334 },
        }
    }
}

} // verus!
