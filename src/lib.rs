//! A Scottish Gaelic (Gàidhlig) date library.
//!
//! Dates are proleptic Gregorian, held as a year, a month and a 0-based day
//! of the month. The day of the week is found by counting the days from one
//! date whose weekday is known.
use vstd::prelude::*;

pub mod year;
pub mod month;
pub mod days;
pub mod text;

use days::{day_of_position, lemma_position_of_day, DayOfWeek};
use month::{days_in_month, month_of_ordinal, month_start, month_start_at, Month};
use text::{date_text, write_date};
use year::{days_in_year, Year};

verus! {

/// The weekday of the date that [`reference_date`] returns.
pub const REFERENCE_DAY_OF_WEEK: DayOfWeek = DayOfWeek::Tuesday;

/// The year of the reference date, whose weekday is known.
pub const REFERENCE_YEAR: u32 = 2022;

/// The month of the reference date.
pub const REFERENCE_MONTH: Month = Month::March;

/// The 0-based day of the month of the reference date: 15 March 2022.
pub const REFERENCE_DAY_OF_MONTH_INDEX: u8 = 14;

/// The date whose weekday is [`REFERENCE_DAY_OF_WEEK`].
pub fn reference_date() -> (r: Date)
    ensures
        r.year() == REFERENCE_YEAR,
        r.month() == REFERENCE_MONTH,
        r.day() == REFERENCE_DAY_OF_MONTH_INDEX,
        r.day_number() == reference_day_number(),
        r.is_valid(),
{
    Date::new(REFERENCE_YEAR, REFERENCE_MONTH, REFERENCE_DAY_OF_MONTH_INDEX)
}

/// The day number of the reference date, counted from the first day of
/// year 0.
pub open spec fn reference_day_number() -> int {
    days_before_year(REFERENCE_YEAR as nat) + month_start(REFERENCE_YEAR as int, REFERENCE_MONTH)
        + REFERENCE_DAY_OF_MONTH_INDEX
}

/// The number of days in the years before year `y`, counted from year 0.
pub open spec fn days_before_year(y: nat) -> int
    decreases y,
{
    if y == 0 {
        0
    } else {
        days_before_year((y - 1) as nat) + days_in_year(y - 1)
    }
}

/// The day number of 1 January 1970, the start of Unix time.
pub open spec fn unix_epoch_day_number() -> int {
    days_before_year(1970)
}

/// A day of the calendar: a year, a month, and the 0-based index of the day
/// in that month.
#[derive(Debug, Clone, Copy, PartialEq, Eq, Structural)]
pub struct Date {
    year: u32,
    month: Month,
    day_of_month_index: u8,
}

impl Date {
    /// The day index lies within its month.
    #[verifier::type_invariant]
    closed spec fn valid(self) -> bool {
        self.day_of_month_index < days_in_month(self.month, self.year as int)
    }

    /// The year of the date.
    pub closed spec fn year(self) -> int {
        self.year as int
    }

    /// The month of the date.
    pub closed spec fn month(self) -> Month {
        self.month
    }

    /// The 0-based index of the day in its month.
    pub closed spec fn day(self) -> int {
        self.day_of_month_index as int
    }

    /// The day index lies within its month. Every `Date` value of running
    /// code is valid.
    pub open spec fn is_valid(self) -> bool {
        0 <= self.day() < days_in_month(self.month(), self.year())
    }

    /// The 0-based index of the day in its year.
    pub open spec fn day_of_year(self) -> int {
        month_start(self.year(), self.month()) + self.day()
    }

    /// The number of days from the first day of year 0 to this date.
    pub open spec fn day_number(self) -> int {
        days_before_year(self.year() as nat) + self.day_of_year()
    }

    /// The lexicographic order of year, then month, then day.
    pub open spec fn is_after(self, other: Date) -> bool {
        if self.year() != other.year() {
            self.year() > other.year()
        } else if self.month() != other.month() {
            self.month().ordinal() > other.month().ordinal()
        } else {
            self.day() > other.day()
        }
    }

    /// The day of the week of this date.
    pub open spec fn weekday(self) -> DayOfWeek {
        day_of_position(
            REFERENCE_DAY_OF_WEEK.position() + self.day_number() - reference_day_number(),
        )
    }

    /// Creates the date; `day_of_month_index` counts from 0.
    pub fn new(year: u32, month: Month, day_of_month_index: u8) -> (r: Date)
        requires
            day_of_month_index < days_in_month(month, year as int),
        ensures
            r.year() == year,
            r.month() == month,
            r.day() == day_of_month_index,
            r.is_valid(),
    {
        Date { year, month, day_of_month_index }
    }

    /// Creates the date if `day_of_month_index` lies within the month of that
    /// year, else returns `None`.
    pub fn try_new(year: u32, month: Month, day_of_month_index: u8) -> (r: Option<Date>)
        ensures
            r is Some <==> day_of_month_index < days_in_month(month, year as int),
            r matches Some(d) ==> d.year() == year && d.month() == month && d.day()
                == day_of_month_index && d.is_valid(),
    {
        if day_of_month_index < month.day_count(year) {
            Some(Date::new(year, month, day_of_month_index))
        } else {
            None
        }
    }

    /// The date in Scottish Gaelic: weekday, day of the month counted from 1,
    /// month and year. The format is reserved for later use and is not read.
    pub fn scottish_gaelic(&self, _format: Option<&str>) -> (r: String)
        ensures
            r@ == date_text(
                self.weekday().gaelic_name(),
                (self.day() + 1) as nat,
                self.month().gaelic_name(),
                self.year() as nat,
            ),
    {
        write_date(
            self.day_of_week().scottish_gaelic(),
            self.day_of_month_index as u32 + 1,
            self.month.scottish_gaelic(),
            self.year,
        )
    }

    /// The date in English: weekday, day of the month counted from 1, month
    /// and year. The format is reserved for later use and is not read.
    pub fn english(&self, _format: Option<&str>) -> (r: String)
        ensures
            r@ == date_text(
                self.weekday().english_name(),
                (self.day() + 1) as nat,
                self.month().english_name(),
                self.year() as nat,
            ),
    {
        write_date(
            self.day_of_week().english(),
            self.day_of_month_index as u32 + 1,
            self.month.english(),
            self.year,
        )
    }

    /// The day of the week, counted from the reference date.
    pub fn day_of_week(&self) -> (r: DayOfWeek)
        ensures
            r == self.weekday(),
    {
        let offset: i64 = reference_date().difference(self);
        REFERENCE_DAY_OF_WEEK.offset_by(offset)
    }

    /// The number of days from self until other. Negative if other is before
    /// self.
    pub fn difference(&self, other: &Date) -> (r: i64)
        ensures
            r == other.day_number() - self.day_number(),
            r > 0 <==> other.is_after(*self),
            r < 0 <==> self.is_after(*other),
            r == 0 <==> *self == *other,
        decreases
            (if self.is_after(*other) { 1int } else { 0int }),
    {
        proof {
            use_type_invariant(self);
            use_type_invariant(other);
            lemma_day_number_bounds(*self);
            lemma_day_number_bounds(*other);
            lemma_after_iff_later(*self, *other);
            lemma_after_iff_later(*other, *self);
        }
        // Make sure other is not before self.
        if self.after(other) {
            return -1 * other.difference(self);
        }
        // Sum the days of the years in between.
        let mut days: i64 = 0;
        let mut y: u32 = self.year;
        while y < other.year
            invariant
                self.year <= y <= other.year,
                days == days_before_year(y as nat) - days_before_year(self.year as nat),
                0 <= days <= 366 * (y - self.year),
            decreases other.year - y,
        {
            days += y.day_count() as i64;
            y += 1;
        }
        // And the days within the year.
        days + other.day_index_in_year() as i64 - self.day_index_in_year() as i64
    }

    /// Whether self comes later in the calendar than other.
    pub fn after(&self, other: &Date) -> (r: bool)
        ensures
            r == self.is_after(*other),
    {
        if self.year > other.year {
            true
        } else if self.year < other.year {
            false
        } else {
            // Same years
            if self.month.after(&other.month) {
                true
            } else if self.month.before(&other.month) {
                false
            } else {
                // Same months
                self.day_of_month_index > other.day_of_month_index
            }
        }
    }

    /// A key that orders dates as the calendar does: the number of days from
    /// the first day of year 0 to this date.
    pub fn unique_value(&self) -> (r: u64)
        ensures
            r == self.day_number(),
    {
        proof {
            lemma_days_before_year_bound(self.year as nat);
        }
        days_before(self.year as u64) + self.day_index_in_year() as u64
    }

    /// The date whose [`Date::unique_value`] is `value`, if that date has a
    /// year that fits in a `u32`.
    pub fn from_unique_value(value: u64) -> (r: Option<Date>)
        ensures
            r is Some <==> value < days_before_year(u32::MAX as nat + 1),
            r matches Some(d) ==> d.day_number() == value && d.is_valid(),
    {
        let end: u64 = days_before(u32::MAX as u64 + 1);
        if value >= end {
            return None;
        }
        proof {
            lemma_days_before_year_bound(u32::MAX as nat + 1);
            lemma_days_before_year_bound((value / 366) as nat);
        }
        // Find the year: the last one that starts on or before `value`.
        let mut y: u64 = value / 366;
        while days_before(y + 1) <= value
            invariant
                y <= u32::MAX,
                days_before_year(y as nat) <= value < end,
                end == days_before_year(u32::MAX as nat + 1),
            decreases u32::MAX - y,
        {
            y += 1;
            proof {
                if y > u32::MAX {
                    lemma_days_before_year_monotone(u32::MAX as nat + 1, y as nat);
                }
            }
        }
        let year: u32 = y as u32;
        let rem: u32 = (value - days_before(y)) as u32;
        // Find the month: the last one that starts on or before `rem`.
        let mut k: u8 = 0;
        while k < 11 && year.month_index(Month::from(k + 1)) <= rem
            invariant
                k <= 11,
                month_start_at(year as int, k as nat) <= rem,
            decreases 11 - k,
        {
            proof {
                lemma_ordinal_of_month(k + 1);
            }
            k += 1;
        }
        let month = Month::from(k);
        proof {
            lemma_ordinal_of_month(k as int);
            lemma_year_is_its_months(year as int);
            if k < 11 {
                lemma_ordinal_of_month(k + 1);
            }
        }
        let day = rem - year.month_index(month);
        Some(Date::new(year, month, day as u8))
    }

    /// The date, in UTC, that holds the moment `seconds` after the start of
    /// 1 January 1970 UTC, if its year fits in a `u32`.
    pub fn from_unix_seconds(seconds: u64) -> (r: Option<Date>)
        ensures
            r is Some <==> unix_epoch_day_number() + seconds / 86400 < days_before_year(
                u32::MAX as nat + 1,
            ),
            r matches Some(d) ==> d.day_number() == unix_epoch_day_number() + seconds / 86400
                && d.is_valid(),
    {
        let epoch: u64 = Date::new(1970, Month::January, 0).unique_value();
        proof {
            lemma_days_before_year_bound(1970);
        }
        Date::from_unique_value(epoch + seconds / 86400)
    }

    /// The index of the day in the year, January 1 being 0.
    pub fn day_index_in_year(&self) -> (r: u32)
        ensures
            r == self.day_of_year(),
            self.is_valid(),
    {
        proof {
            use_type_invariant(self);
            lemma_day_of_year_bound(*self);
        }
        self.year.month_index(self.month) + (self.day_of_month_index as u32)
    }
}

/// The number of days in the years before year `y`, counted from year 0.
fn days_before(y: u64) -> (r: u64)
    requires
        y <= u32::MAX as nat + 1,
    ensures
        r == days_before_year(y as nat),
{
    proof {
        lemma_days_before_year_closed_form(y as nat);
    }
    365 * y + (y + 3) / 4 - (y + 99) / 100 + (y + 399) / 400
}

/// The month at position `k` of the calendar has that position.
proof fn lemma_ordinal_of_month(k: int)
    requires
        0 <= k < 12,
    ensures
        month_of_ordinal(k).ordinal() == k,
{
}

/// A day of a valid date falls within its year.
proof fn lemma_day_of_year_bound(d: Date)
    requires
        d.valid(),
    ensures
        0 <= d.day_of_year() < days_in_year(d.year()),
{
    let k = d.month().ordinal();
    lemma_month_of_own_ordinal(d.month());
    lemma_month_start_monotone(d.year(), k + 1, 12);
    lemma_year_is_its_months(d.year());
    lemma_month_start_monotone(d.year(), 0, k);
}

/// The twelve months together make up the year.
proof fn lemma_year_is_its_months(y: int)
    ensures
        month_start_at(y, 12) == days_in_year(y),
{
    reveal_with_fuel(month_start_at, 13);
}

/// Year `y` starts at most 366 days a year after year 0.
proof fn lemma_days_before_year_bound(y: nat)
    ensures
        0 <= days_before_year(y) <= 366 * y,
    decreases y,
{
    if y > 0 {
        lemma_days_before_year_bound((y - 1) as nat);
    }
}

/// The day number of a valid date is small enough that the difference of two
/// fits in an `i64`.
proof fn lemma_day_number_bounds(d: Date)
    requires
        d.valid(),
    ensures
        0 <= d.day_number() <= 366 * d.year() + 366,
        d.year() <= u32::MAX,
{
    lemma_day_of_year_bound(d);
    lemma_days_before_year_bound(d.year() as nat);
}

/// The days before year `y`: 365 for each year, and one more for each leap
/// year, that is for each multiple of 4 below `y`, less the multiples of 100,
/// plus the multiples of 400.
proof fn lemma_days_before_year_closed_form(y: nat)
    ensures
        days_before_year(y) == 365 * y + (y + 3) / 4 - (y + 99) / 100 + (y + 399) / 400,
    decreases y,
{
    if y > 0 {
        let x = (y - 1) as nat;
        lemma_days_before_year_closed_form(x);
        assert((x + 4) / 4 == (x + 3) / 4 + (if x % 4 == 0 { 1int } else { 0int }));
        assert((x + 100) / 100 == (x + 99) / 100 + (if x % 100 == 0 { 1int } else { 0int }));
        assert((x + 400) / 400 == (x + 399) / 400 + (if x % 400 == 0 { 1int } else { 0int }));
        assert(x % 100 == 0 ==> x % 4 == 0);
        assert(x % 400 == 0 ==> x % 100 == 0);
    }
}

/// Each year has a positive number of days, so later years start later.
proof fn lemma_days_before_year_monotone(x: nat, y: nat)
    requires
        x <= y,
    ensures
        days_before_year(x) <= days_before_year(y),
    decreases y - x,
{
    if x < y {
        lemma_days_before_year_monotone(x, (y - 1) as nat);
    }
}

/// Later months of a year start later.
proof fn lemma_month_start_monotone(y: int, j: nat, k: nat)
    requires
        j <= k,
    ensures
        month_start_at(y, j) <= month_start_at(y, k),
    decreases k - j,
{
    if j < k {
        lemma_month_start_monotone(y, j, (k - 1) as nat);
    }
}

/// The month at a month's own position is that month.
proof fn lemma_month_of_own_ordinal(m: Month)
    ensures
        month_of_ordinal(m.ordinal() as int) == m,
{
}

/// A valid date comes later in the calendar than another exactly when its
/// day number is greater, and two valid dates are equal exactly when their
/// day numbers are.
proof fn lemma_after_iff_later(a: Date, b: Date)
    requires
        a.valid(),
        b.valid(),
    ensures
        a.is_after(b) <==> a.day_number() > b.day_number(),
        a == b <==> a.day_number() == b.day_number(),
{
    lemma_day_of_year_bound(a);
    lemma_day_of_year_bound(b);
    if a.year() > b.year() {
        lemma_days_before_year_monotone((b.year() + 1) as nat, a.year() as nat);
    } else if a.year() < b.year() {
        lemma_days_before_year_monotone((a.year() + 1) as nat, b.year() as nat);
    } else if a.month().ordinal() > b.month().ordinal() {
        lemma_month_of_own_ordinal(b.month());
        lemma_month_start_monotone(a.year(), b.month().ordinal() + 1, a.month().ordinal());
    } else if a.month().ordinal() < b.month().ordinal() {
        lemma_month_of_own_ordinal(a.month());
        lemma_month_start_monotone(a.year(), a.month().ordinal() + 1, b.month().ordinal());
    }
}

/// The day number orders valid dates as the calendar does, and tells them
/// apart: so [`Date::unique_value`] leads back to its date through
/// [`Date::from_unique_value`].
pub proof fn lemma_day_number_orders_dates(a: Date, b: Date)
    requires
        a.is_valid(),
        b.is_valid(),
    ensures
        a.is_after(b) <==> a.day_number() > b.day_number(),
        a == b <==> a.day_number() == b.day_number(),
{
    lemma_after_iff_later(a, b);
}

/// The weekday of a date is the weekday of any other date moved on by the
/// days between them: the choice of reference date does not matter.
pub proof fn lemma_weekday_follows_difference(a: Date, b: Date)
    ensures
        b.weekday() == day_of_position(a.weekday().position() + (b.day_number() - a.day_number())),
{
    let t = REFERENCE_DAY_OF_WEEK.position() + a.day_number() - reference_day_number();
    let d = b.day_number() - a.day_number();
    lemma_position_of_day(t);
    vstd::arithmetic::div_mod::lemma_add_mod_noop(t, d, 7);
    vstd::arithmetic::div_mod::lemma_mod_twice(t, 7);
}

/// Swapping the two dates of a difference negates it.
pub proof fn lemma_difference_antisymmetric(a: Date, b: Date)
    ensures
        b.day_number() - a.day_number() == -(a.day_number() - b.day_number()),
{
}

} // verus!
