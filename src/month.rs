//! The twelve months of the year.
use vstd::prelude::*;

use crate::year::{is_leap, Year};

verus! {

#[derive(Debug, Clone, Copy, PartialEq, Eq, Structural)]
pub enum Month {
    January,
    February,
    March,
    April,
    May,
    June,
    July,
    August,
    September,
    October,
    November,
    December,
}

/// The months, in calendar order.
pub const MONTHS: [Month; 12] = [
    Month::January,
    Month::February,
    Month::March,
    Month::April,
    Month::May,
    Month::June,
    Month::July,
    Month::August,
    Month::September,
    Month::October,
    Month::November,
    Month::December,
];

/// The month at 0-based position `n % 12` in the calendar.
pub open spec fn month_of_ordinal(n: int) -> Month {
    let k = n % 12;
    if k == 0 {
        Month::January
    } else if k == 1 {
        Month::February
    } else if k == 2 {
        Month::March
    } else if k == 3 {
        Month::April
    } else if k == 4 {
        Month::May
    } else if k == 5 {
        Month::June
    } else if k == 6 {
        Month::July
    } else if k == 7 {
        Month::August
    } else if k == 8 {
        Month::September
    } else if k == 9 {
        Month::October
    } else if k == 10 {
        Month::November
    } else {
        Month::December
    }
}

/// The number of days of month `m` in year `y`.
pub open spec fn days_in_month(m: Month, y: int) -> int {
    match m {
        Month::February => if is_leap(y) { 29 } else { 28 },
        Month::April | Month::June | Month::September | Month::November => 30,
        _ => 31,
    }
}

/// The number of days in year `y` before the month at position `k`.
pub open spec fn month_start_at(y: int, k: nat) -> int
    decreases k,
{
    if k == 0 {
        0
    } else {
        month_start_at(y, (k - 1) as nat) + days_in_month(month_of_ordinal(k - 1), y)
    }
}

/// The index, within year `y`, of the first day of month `m`.
pub open spec fn month_start(y: int, m: Month) -> int {
    month_start_at(y, m.ordinal())
}

impl Month {
    /// The 0-based position of the month in the calendar.
    pub open spec fn ordinal(self) -> nat {
        match self {
            Month::January => 0,
            Month::February => 1,
            Month::March => 2,
            Month::April => 3,
            Month::May => 4,
            Month::June => 5,
            Month::July => 6,
            Month::August => 7,
            Month::September => 8,
            Month::October => 9,
            Month::November => 10,
            Month::December => 11,
        }
    }

    /// The name of the month in Scottish Gaelic.
    pub open spec fn gaelic_name(self) -> Seq<char> {
        match self {
            Month::January => "Faoilleach"@,
            Month::February => "Gearran"@,
            Month::March => "Màrt"@,
            Month::April => "Giblean"@,
            Month::May => "Cèitean"@,
            Month::June => "Ògmhios"@,
            Month::July => "Iuchar"@,
            Month::August => "Lùnastal"@,
            Month::September => "Sultain"@,
            Month::October => "Dàmhair"@,
            Month::November => "Samhain"@,
            Month::December => "Dùbhlachd"@,
        }
    }

    /// The name of the month in Scottish Gaelic with its definite article,
    /// capitalized when `cap` is set.
    pub open spec fn gaelic_name_with_article(self, cap: bool) -> Seq<char> {
        match self {
            Month::January => if cap { "Am Faoilleach"@ } else { "am Faoilleach"@ },
            Month::February => if cap { "An Gearran"@ } else { "an Gearran"@ },
            Month::March => if cap { "Am Màrt"@ } else { "am Màrt"@ },
            Month::April => if cap { "An Giblean"@ } else { "an Giblean"@ },
            Month::May => if cap { "An Cèitean"@ } else { "an Cèitean"@ },
            Month::June => if cap { "An t-Ògmhios"@ } else { "an t-Ògmhios"@ },
            Month::July => if cap { "An t-Iuchar"@ } else { "an t-Iuchar"@ },
            Month::August => if cap { "An Lùnastal"@ } else { "an Lùnastal"@ },
            Month::September => if cap { "An t-Sultain"@ } else { "an t-Sultain"@ },
            Month::October => if cap { "An Dàmhair"@ } else { "an Dàmhair"@ },
            Month::November => if cap { "An t-Samhain"@ } else { "an t-Samhain"@ },
            Month::December => if cap { "An Dùbhlachd"@ } else { "an Dùbhlachd"@ },
        }
    }

    /// The name of the month in English.
    pub open spec fn english_name(self) -> Seq<char> {
        match self {
            Month::January => "January"@,
            Month::February => "February"@,
            Month::March => "March"@,
            Month::April => "April"@,
            Month::May => "May"@,
            Month::June => "June"@,
            Month::July => "July"@,
            Month::August => "August"@,
            Month::September => "September"@,
            Month::October => "October"@,
            Month::November => "November"@,
            Month::December => "December"@,
        }
    }

    /// Get the name of the month.
    ///
    /// This does not include any definite article ('the' in English), so it
    /// fits inside a date. For the article, call
    /// [`Month::scottish_gaelic_with_def_art()`].
    pub fn scottish_gaelic(&self) -> (r: &str)
        ensures
            r@ == self.gaelic_name(),
    {
        match self {
            Month::January => "Faoilleach",
            Month::February => "Gearran",
            Month::March => "Màrt",
            Month::April => "Giblean",
            Month::May => "Cèitean",
            Month::June => "Ògmhios",
            Month::July => "Iuchar",
            Month::August => "Lùnastal",
            Month::September => "Sultain",
            Month::October => "Dàmhair",
            Month::November => "Samhain",
            Month::December => "Dùbhlachd",
        }
    }

    /// Get the name of the month with the definite article ("the" in
    /// English); `cap` capitalizes the article.
    pub fn scottish_gaelic_with_def_art(&self, cap: bool) -> (r: &str)
        ensures
            r@ == self.gaelic_name_with_article(cap),
    {
        match self {
            Month::January => if cap { "Am Faoilleach" } else { "am Faoilleach" },
            Month::February => if cap { "An Gearran" } else { "an Gearran" },
            Month::March => if cap { "Am Màrt" } else { "am Màrt" },
            Month::April => if cap { "An Giblean" } else { "an Giblean" },
            Month::May => if cap { "An Cèitean" } else { "an Cèitean" },
            Month::June => if cap { "An t-Ògmhios" } else { "an t-Ògmhios" },
            Month::July => if cap { "An t-Iuchar" } else { "an t-Iuchar" },
            Month::August => if cap { "An Lùnastal" } else { "an Lùnastal" },
            Month::September => if cap { "An t-Sultain" } else { "an t-Sultain" },
            Month::October => if cap { "An Dàmhair" } else { "an Dàmhair" },
            Month::November => if cap { "An t-Samhain" } else { "an t-Samhain" },
            Month::December => if cap { "An Dùbhlachd" } else { "an Dùbhlachd" },
        }
    }

    /// Get the name of the month in English.
    pub fn english(&self) -> (r: &str)
        ensures
            r@ == self.english_name(),
    {
        match self {
            Month::January => "January",
            Month::February => "February",
            Month::March => "March",
            Month::April => "April",
            Month::May => "May",
            Month::June => "June",
            Month::July => "July",
            Month::August => "August",
            Month::September => "September",
            Month::October => "October",
            Month::November => "November",
            Month::December => "December",
        }
    }

    /// The number of days in the month, in the given year.
    pub fn day_count(&self, year: u32) -> (r: u8)
        ensures
            r == days_in_month(*self, year as int),
    {
        match self {
            Month::January => 31,
            Month::February => if year.is_leap_year() { 29 } else { 28 },
            Month::March => 31,
            Month::April => 30,
            Month::May => 31,
            Month::June => 30,
            Month::July => 31,
            Month::August => 31,
            Month::September => 30,
            Month::October => 31,
            Month::November => 30,
            Month::December => 31,
        }
    }

    /// Whether this month comes later in the year than `other`.
    pub fn after(&self, other: &Month) -> (r: bool)
        ensures
            r == (self.ordinal() > other.ordinal()),
    {
        u8::from(*self) > u8::from(*other)
    }

    /// Whether this month comes earlier in the year than `other`.
    pub fn before(&self, other: &Month) -> (r: bool)
        ensures
            r == (self.ordinal() < other.ordinal()),
    {
        other.after(self)
    }
}

/// The `cap` flag of the article form only capitalizes: the capitalized form
/// is the lower-case form with its first letter, `a`, made `A`; and both end
/// with the plain name of the month.
pub proof fn lemma_article_cap_only_capitalizes(m: Month)
    ensures
        m.gaelic_name_with_article(false).len() > m.gaelic_name().len(),
        m.gaelic_name_with_article(false)[0] == 'a',
        m.gaelic_name_with_article(true) == m.gaelic_name_with_article(false).update(0, 'A'),
        m.gaelic_name_with_article(false).subrange(
            m.gaelic_name_with_article(false).len() - m.gaelic_name().len(),
            m.gaelic_name_with_article(false).len() as int,
        ) == m.gaelic_name(),
{
    match m {
        Month::January => {
            reveal_strlit("Am Faoilleach");
            reveal_strlit("am Faoilleach");
            reveal_strlit("Faoilleach");
        },
        Month::February => {
            reveal_strlit("An Gearran");
            reveal_strlit("an Gearran");
            reveal_strlit("Gearran");
        },
        Month::March => {
            reveal_strlit("Am Màrt");
            reveal_strlit("am Màrt");
            reveal_strlit("Màrt");
        },
        Month::April => {
            reveal_strlit("An Giblean");
            reveal_strlit("an Giblean");
            reveal_strlit("Giblean");
        },
        Month::May => {
            reveal_strlit("An Cèitean");
            reveal_strlit("an Cèitean");
            reveal_strlit("Cèitean");
        },
        Month::June => {
            reveal_strlit("An t-Ògmhios");
            reveal_strlit("an t-Ògmhios");
            reveal_strlit("Ògmhios");
        },
        Month::July => {
            reveal_strlit("An t-Iuchar");
            reveal_strlit("an t-Iuchar");
            reveal_strlit("Iuchar");
        },
        Month::August => {
            reveal_strlit("An Lùnastal");
            reveal_strlit("an Lùnastal");
            reveal_strlit("Lùnastal");
        },
        Month::September => {
            reveal_strlit("An t-Sultain");
            reveal_strlit("an t-Sultain");
            reveal_strlit("Sultain");
        },
        Month::October => {
            reveal_strlit("An Dàmhair");
            reveal_strlit("an Dàmhair");
            reveal_strlit("Dàmhair");
        },
        Month::November => {
            reveal_strlit("An t-Samhain");
            reveal_strlit("an t-Samhain");
            reveal_strlit("Samhain");
        },
        Month::December => {
            reveal_strlit("An Dùbhlachd");
            reveal_strlit("an Dùbhlachd");
            reveal_strlit("Dùbhlachd");
        },
    }
    assert(m.gaelic_name_with_article(true) =~= m.gaelic_name_with_article(false).update(0, 'A'));
    assert(m.gaelic_name_with_article(false).subrange(
        m.gaelic_name_with_article(false).len() - m.gaelic_name().len(),
        m.gaelic_name_with_article(false).len() as int,
    ) =~= m.gaelic_name());
}

impl From<Month> for u8 {
    fn from(item: Month) -> (r: u8) {
        match item {
            Month::January => 0,
            Month::February => 1,
            Month::March => 2,
            Month::April => 3,
            Month::May => 4,
            Month::June => 5,
            Month::July => 6,
            Month::August => 7,
            Month::September => 8,
            Month::October => 9,
            Month::November => 10,
            Month::December => 11,
        }
    }
}

impl vstd::std_specs::convert::FromSpecImpl<Month> for u8 {
    open spec fn obeys_from_spec() -> bool {
        true
    }

    open spec fn from_spec(item: Month) -> u8 {
        item.ordinal() as u8
    }
}

impl From<u8> for Month {
    /// The month at position `item`, counted from January and wrapping
    /// after December.
    fn from(item: u8) -> (r: Month) {
        match item % 12 {
            0 => Month::January,
            1 => Month::February,
            2 => Month::March,
            3 => Month::April,
            4 => Month::May,
            5 => Month::June,
            6 => Month::July,
            7 => Month::August,
            8 => Month::September,
            9 => Month::October,
            10 => Month::November,
            _ => Month::December,
        }
    }
}

impl vstd::std_specs::convert::FromSpecImpl<u8> for Month {
    open spec fn obeys_from_spec() -> bool {
        true
    }

    open spec fn from_spec(item: u8) -> Month {
        month_of_ordinal(item as int)
    }
}

} // verus!
