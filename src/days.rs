//! The days of the week, as a ring of seven.
use vstd::prelude::*;

verus! {

/// A day of the week. `Sunday(true)` is the Sabbath form of Sunday: the flag
/// changes only the name, never the position.
#[derive(Debug, Clone, Copy, Eq)]
pub enum DayOfWeek {
    Monday,
    Tuesday,
    Wednesday,
    Thursday,
    Friday,
    Saturday,
    Sunday(bool),
}

/// The day at position `n % 7` of the week, counted from Monday; position 6
/// is the ordinary form of Sunday.
pub open spec fn day_of_position(n: int) -> DayOfWeek {
    let k = n % 7;
    if k == 0 {
        DayOfWeek::Monday
    } else if k == 1 {
        DayOfWeek::Tuesday
    } else if k == 2 {
        DayOfWeek::Wednesday
    } else if k == 3 {
        DayOfWeek::Thursday
    } else if k == 4 {
        DayOfWeek::Friday
    } else if k == 5 {
        DayOfWeek::Saturday
    } else {
        DayOfWeek::Sunday(false)
    }
}

impl DayOfWeek {
    /// The 0-based position of the day in the week, Monday first.
    pub open spec fn position(self) -> nat {
        match self {
            DayOfWeek::Monday => 0,
            DayOfWeek::Tuesday => 1,
            DayOfWeek::Wednesday => 2,
            DayOfWeek::Thursday => 3,
            DayOfWeek::Friday => 4,
            DayOfWeek::Saturday => 5,
            DayOfWeek::Sunday(_) => 6,
        }
    }

    /// The name of the day in Scottish Gaelic.
    pub open spec fn gaelic_name(self) -> Seq<char> {
        match self {
            DayOfWeek::Monday => "Diluain"@,
            DayOfWeek::Tuesday => "Dimàirt"@,
            DayOfWeek::Wednesday => "Diciadain"@,
            DayOfWeek::Thursday => "Diardaoin"@,
            DayOfWeek::Friday => "Dihaoine"@,
            DayOfWeek::Saturday => "Disathairne"@,
            DayOfWeek::Sunday(alt) => if alt { "Là na Sàbaid"@ } else { "Didòmhnaich"@ },
        }
    }

    /// The short name of the day in Scottish Gaelic.
    pub open spec fn gaelic_abbreviation(self) -> Seq<char> {
        match self {
            DayOfWeek::Monday => "DiL"@,
            DayOfWeek::Tuesday => "DiM"@,
            DayOfWeek::Wednesday => "DiC"@,
            DayOfWeek::Thursday => "Dia"@,
            DayOfWeek::Friday => "Dih"@,
            DayOfWeek::Saturday => "DiS"@,
            DayOfWeek::Sunday(_) => "DiD"@,
        }
    }

    /// The name of the day in English.
    pub open spec fn english_name(self) -> Seq<char> {
        match self {
            DayOfWeek::Monday => "Monday"@,
            DayOfWeek::Tuesday => "Tuesday"@,
            DayOfWeek::Wednesday => "Wednesday"@,
            DayOfWeek::Thursday => "Thursday"@,
            DayOfWeek::Friday => "Friday"@,
            DayOfWeek::Saturday => "Saturday"@,
            DayOfWeek::Sunday(_) => "Sunday"@,
        }
    }

    /// The name of the day in Scottish Gaelic.
    pub fn scottish_gaelic(&self) -> (r: &str)
        ensures
            r@ == self.gaelic_name(),
    {
        match self {
            DayOfWeek::Monday => "Diluain",
            DayOfWeek::Tuesday => "Dimàirt",
            DayOfWeek::Wednesday => "Diciadain",
            DayOfWeek::Thursday => "Diardaoin",
            DayOfWeek::Friday => "Dihaoine",
            DayOfWeek::Saturday => "Disathairne",
            DayOfWeek::Sunday(alt) => if *alt { "Là na Sàbaid" } else { "Didòmhnaich" },
        }
    }

    /// The short name of the day in Scottish Gaelic.
    pub fn scottish_gaelic_abbreviation(&self) -> (r: &str)
        ensures
            r@ == self.gaelic_abbreviation(),
    {
        match self {
            DayOfWeek::Monday => "DiL",
            DayOfWeek::Tuesday => "DiM",
            DayOfWeek::Wednesday => "DiC",
            DayOfWeek::Thursday => "Dia",
            DayOfWeek::Friday => "Dih",
            DayOfWeek::Saturday => "DiS",
            DayOfWeek::Sunday(_) => "DiD",
        }
    }

    /// The name of the day in English.
    pub fn english(&self) -> (r: &str)
        ensures
            r@ == self.english_name(),
    {
        match self {
            DayOfWeek::Monday => "Monday",
            DayOfWeek::Tuesday => "Tuesday",
            DayOfWeek::Wednesday => "Wednesday",
            DayOfWeek::Thursday => "Thursday",
            DayOfWeek::Friday => "Friday",
            DayOfWeek::Saturday => "Saturday",
            DayOfWeek::Sunday(_) => "Sunday",
        }
    }

    /// The day `offset` places after this one in the week, going backwards
    /// for a negative offset. The result is in its ordinary form.
    pub fn offset_by(&self, offset: i64) -> (r: DayOfWeek)
        ensures
            r == day_of_position(self.position() + offset),
    {
        // Bring the offset into -6..=6, then into 0..=6.
        let mut remainder: i64 = offset % 7;
        if remainder < 0 {
            remainder += 7;
        }
        assert(0 <= remainder < 7);
        assert((self.position() + offset) % 7 == (remainder + self.position()) % 7);
        DayOfWeek::from((remainder as u8) + self.id())
    }

    /// The 0-based position of the day in the week, Monday first.
    pub fn id(&self) -> (r: u8)
        ensures
            r == self.position(),
    {
        u8::from(self)
    }
}

/// The ordinary form of a day: Sunday loses its Sabbath flag, other days stay
/// as they are.
pub open spec fn ordinary(w: DayOfWeek) -> DayOfWeek {
    match w {
        DayOfWeek::Sunday(_) => DayOfWeek::Sunday(false),
        _ => w,
    }
}

/// The day at a position has that position, reduced into the week.
pub proof fn lemma_position_of_day(n: int)
    ensures
        day_of_position(n).position() == n % 7,
{
}

/// Going from a position in the week to its day and back gives the position;
/// going from a day to its position and back gives the day in its ordinary
/// form, since the Sunday flag has no position of its own.
pub proof fn lemma_position_round_trip(n: int, w: DayOfWeek)
    requires
        0 <= n <= 6,
    ensures
        day_of_position(n).position() == n,
        day_of_position(w.position() as int) == ordinary(w),
{
}

/// Moving a day by no places gives a day equal to it: the same day, in its
/// ordinary form.
pub proof fn lemma_offset_zero(w: DayOfWeek)
    ensures
        day_of_position(w.position() + 0int) == ordinary(w),
        day_of_position(w.position() + 0int).position() == w.position(),
{
}

impl PartialEq for DayOfWeek {
    /// Two days are equal when they have the same place in the week, whatever
    /// the form of Sunday.
    fn eq(&self, other: &DayOfWeek) -> (r: bool) {
        self.id() == other.id()
    }
}

impl vstd::std_specs::cmp::PartialEqSpecImpl for DayOfWeek {
    open spec fn obeys_eq_spec() -> bool {
        true
    }

    open spec fn eq_spec(&self, other: &DayOfWeek) -> bool {
        self.position() == other.position()
    }
}

impl From<u8> for DayOfWeek {
    /// The day at position `item % 7`, counted from Monday.
    fn from(item: u8) -> (r: DayOfWeek) {
        match item % 7 {
            0 => DayOfWeek::Monday,
            1 => DayOfWeek::Tuesday,
            2 => DayOfWeek::Wednesday,
            3 => DayOfWeek::Thursday,
            4 => DayOfWeek::Friday,
            5 => DayOfWeek::Saturday,
            _ => DayOfWeek::Sunday(false),
        }
    }
}

impl vstd::std_specs::convert::FromSpecImpl<u8> for DayOfWeek {
    open spec fn obeys_from_spec() -> bool {
        true
    }

    open spec fn from_spec(item: u8) -> DayOfWeek {
        day_of_position(item as int)
    }
}

impl From<DayOfWeek> for u8 {
    fn from(item: DayOfWeek) -> (r: u8) {
        match item {
            DayOfWeek::Monday => 0,
            DayOfWeek::Tuesday => 1,
            DayOfWeek::Wednesday => 2,
            DayOfWeek::Thursday => 3,
            DayOfWeek::Friday => 4,
            DayOfWeek::Saturday => 5,
            DayOfWeek::Sunday(_) => 6,
        }
    }
}

impl vstd::std_specs::convert::FromSpecImpl<DayOfWeek> for u8 {
    open spec fn obeys_from_spec() -> bool {
        true
    }

    open spec fn from_spec(item: DayOfWeek) -> u8 {
        item.position() as u8
    }
}

impl From<&DayOfWeek> for u8 {
    fn from(item: &DayOfWeek) -> (r: u8) {
        u8::from(*item)
    }
}

impl vstd::std_specs::convert::FromSpecImpl<&DayOfWeek> for u8 {
    open spec fn obeys_from_spec() -> bool {
        true
    }

    open spec fn from_spec(item: &DayOfWeek) -> u8 {
        item.position() as u8
    }
}

} // verus!
