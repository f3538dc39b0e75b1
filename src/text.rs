//! Writing numbers and dates as text.
use vstd::prelude::*;
use vstd::string::StringExecFns;

verus! {

/// The character of the decimal digit `d`, for `d` below 10.
pub open spec fn digit_char(d: int) -> char {
    if d == 0 {
        '0'
    } else if d == 1 {
        '1'
    } else if d == 2 {
        '2'
    } else if d == 3 {
        '3'
    } else if d == 4 {
        '4'
    } else if d == 5 {
        '5'
    } else if d == 6 {
        '6'
    } else if d == 7 {
        '7'
    } else if d == 8 {
        '8'
    } else {
        '9'
    }
}

/// The decimal numeral of `n`, without leading zeros.
pub open spec fn decimal(n: nat) -> Seq<char>
    decreases n,
{
    if n < 10 {
        seq![digit_char(n as int)]
    } else {
        decimal(n / 10).push(digit_char((n % 10) as int))
    }
}

/// A date written as its weekday, its 1-based day of the month, its month and
/// its year, separated by single spaces.
pub open spec fn date_text(weekday: Seq<char>, day: nat, month: Seq<char>, year: nat) -> Seq<char> {
    weekday + seq![' '] + decimal(day) + seq![' '] + month + seq![' '] + decimal(year)
}

/// The digit `d` as a string of one character.
fn digit_str(d: u32) -> (r: &'static str)
    requires
        d < 10,
    ensures
        r@ == seq![digit_char(d as int)],
{
    proof {
        reveal_strlit("0");
        reveal_strlit("1");
        reveal_strlit("2");
        reveal_strlit("3");
        reveal_strlit("4");
        reveal_strlit("5");
        reveal_strlit("6");
        reveal_strlit("7");
        reveal_strlit("8");
        reveal_strlit("9");
    }
    match d {
        0 => "0",
        1 => "1",
        2 => "2",
        3 => "3",
        4 => "4",
        5 => "5",
        6 => "6",
        7 => "7",
        8 => "8",
        _ => "9",
    }
}

/// Appends the decimal numeral of `n` to `s`.
pub fn push_decimal(s: &mut String, n: u32)
    ensures
        final(s)@ == old(s)@ + decimal(n as nat),
    decreases n,
{
    if n >= 10 {
        push_decimal(s, n / 10);
    }
    s.append(digit_str(n % 10));
    proof {
        if n >= 10 {
            assert(decimal(n as nat) == decimal((n / 10) as nat).push(digit_char((n % 10) as int)));
        }
    }
}

/// A space, as a string.
fn space() -> (r: &'static str)
    ensures
        r@ == seq![' '],
{
    proof {
        reveal_strlit(" ");
    }
    " "
}

/// Writes a date as [`date_text`] does.
pub fn write_date(weekday: &str, day: u32, month: &str, year: u32) -> (r: String)
    ensures
        r@ == date_text(weekday@, day as nat, month@, year as nat),
{
    let mut s = String::from_str(weekday);
    s.append(space());
    push_decimal(&mut s, day);
    s.append(space());
    s.append(month);
    s.append(space());
    push_decimal(&mut s, year);
    assert(s@ =~= date_text(weekday@, day as nat, month@, year as nat));
    s
}

} // verus!
