use laithean::days::DayOfWeek;
use laithean::month::{Month, MONTHS};
use laithean::{reference_date, Date, REFERENCE_DAY_OF_WEEK};

#[test]
fn test_day_of_week_at_ref() {
    let date = reference_date().clone();

    assert_eq!(REFERENCE_DAY_OF_WEEK, date.day_of_week());
}

#[test]
fn test_date_diff_with_ref() {
    assert_eq!(0, reference_date().difference(&reference_date()));
}

#[test]
fn reference_is_tuesday_fifteenth_of_march() {
    assert_eq!(reference_date(), Date::new(2022, Month::March, 14));
    assert_eq!(DayOfWeek::Tuesday, REFERENCE_DAY_OF_WEEK);
}

#[test]
fn day_index_in_year_boundaries() {
    assert_eq!(0, Date::new(2022, Month::January, 0).day_index_in_year());
    assert_eq!(31, Date::new(2022, Month::February, 0).day_index_in_year());
    assert_eq!(364, Date::new(2022, Month::December, 30).day_index_in_year());
    assert_eq!(365, Date::new(2024, Month::December, 30).day_index_in_year());
}

#[test]
fn difference_is_antisymmetric() {
    let a = Date::new(1999, Month::July, 3);
    let b = Date::new(2023, Month::January, 20);
    assert_eq!(a.difference(&b), -b.difference(&a));
    assert_eq!(8602, a.difference(&b));
}

#[test]
fn difference_across_leap_day() {
    let feb_29 = Date::new(2000, Month::February, 28);
    let mar_1 = Date::new(2000, Month::March, 0);
    assert_eq!(1, feb_29.difference(&mar_1));
    let feb_28 = Date::new(2001, Month::February, 27);
    assert_eq!(1, feb_28.difference(&Date::new(2001, Month::March, 0)));
    // The year from 1 March 1999 holds 29 February 2000; the next one does not.
    assert_eq!(366, Date::new(1999, Month::March, 0).difference(&mar_1));
    assert_eq!(365, mar_1.difference(&Date::new(2001, Month::March, 0)));
    assert_eq!(-366, mar_1.difference(&Date::new(1999, Month::March, 0)));
}

#[test]
fn difference_over_centuries() {
    let a = Date::new(1900, Month::January, 0);
    let b = Date::new(2100, Month::January, 0);
    assert_eq!(73049, a.difference(&b));
    let before_last = Date::new(u32::MAX - 1, Month::January, 0);
    let last = Date::new(u32::MAX, Month::December, 30);
    assert_eq!(729, before_last.difference(&last));
    assert_eq!(-729, last.difference(&before_last));
}

#[test]
fn construction_rejects_invalid_day_index() {
    assert!(Date::try_new(2022, Month::February, 28).is_none());
    assert!(Date::try_new(2100, Month::February, 28).is_none());
    assert_eq!(Some(Date::new(2024, Month::February, 28)), Date::try_new(2024, Month::February, 28));
    assert!(Date::try_new(2022, Month::April, 30).is_none());
    assert!(Date::try_new(2022, Month::May, 30).is_some());
}

#[test]
fn known_weekdays() {
    assert_eq!(DayOfWeek::Saturday, Date::new(2000, Month::January, 0).day_of_week());
    assert_eq!(DayOfWeek::Tuesday, Date::new(2000, Month::February, 28).day_of_week());
    assert_eq!(DayOfWeek::Thursday, Date::new(1970, Month::January, 0).day_of_week());
    assert_eq!(DayOfWeek::Thursday, Date::new(1776, Month::July, 3).day_of_week());
    assert!(matches!(
        Date::new(2022, Month::December, 24).day_of_week(),
        DayOfWeek::Sunday(false)
    ));
    assert_eq!(DayOfWeek::Wednesday, Date::new(2022, Month::March, 15).day_of_week());
    assert_eq!(DayOfWeek::Monday, Date::new(2022, Month::March, 13).day_of_week());
}

#[test]
fn after_orders_lexicographically() {
    let a = Date::new(2022, Month::March, 14);
    assert!(Date::new(2023, Month::January, 0).after(&a));
    assert!(!a.after(&Date::new(2023, Month::January, 0)));
    assert!(Date::new(2022, Month::April, 0).after(&a));
    assert!(Date::new(2022, Month::March, 15).after(&a));
    assert!(!a.after(&a));
}

#[test]
fn renders_in_both_languages() {
    let d = reference_date();
    assert_eq!("Dimàirt 15 Màrt 2022", d.scottish_gaelic(None));
    assert_eq!("Tuesday 15 March 2022", d.english(Some("ignored")));
    let e = Date::new(7, Month::December, 24);
    assert_eq!(DayOfWeek::Tuesday, e.day_of_week());
    assert_eq!("Dimàirt 25 Dùbhlachd 7", e.scottish_gaelic(None));
    assert_eq!("Tuesday 25 December 7", e.english(None));
    let s = Date::new(2022, Month::December, 24);
    assert_eq!("Didòmhnaich 25 Dùbhlachd 2022", s.scottish_gaelic(None));
}

#[test]
fn month_lookups() {
    assert_eq!("Faoilleach", Month::January.scottish_gaelic());
    assert_eq!("am Faoilleach", Month::January.scottish_gaelic_with_def_art(false));
    assert_eq!("Am Faoilleach", Month::January.scottish_gaelic_with_def_art(true));
    assert_eq!("An t-Ògmhios", Month::June.scottish_gaelic_with_def_art(true));
    assert_eq!("November", Month::November.english());
    assert_eq!(29, Month::February.day_count(2000));
    assert_eq!(28, Month::February.day_count(1900));
    assert_eq!(30, Month::September.day_count(2022));
    assert_eq!(31, Month::December.day_count(2022));
    assert!(Month::March.after(&Month::February));
    assert!(!Month::March.after(&Month::March));
    assert!(Month::March.before(&Month::April));
    assert_eq!(Month::January, Month::from(12));
    assert_eq!(Month::April, Month::from(255));
    assert_eq!(11, u8::from(Month::December));
    for (i, m) in MONTHS.iter().enumerate() {
        assert_eq!(i as u8, u8::from(*m));
    }
}

#[test]
fn unique_value_counts_days_from_year_zero() {
    assert_eq!(0, Date::new(0, Month::January, 0).unique_value());
    assert_eq!(366, Date::new(1, Month::January, 0).unique_value());
    assert_eq!(738594, reference_date().unique_value());
    let a = Date::new(1999, Month::July, 3);
    let b = Date::new(2023, Month::January, 20);
    assert_eq!(a.difference(&b), b.unique_value() as i64 - a.unique_value() as i64);
    let last = Date::new(10_000_000, Month::December, 30);
    let first = Date::new(0, Month::January, 0);
    assert_eq!(last.unique_value() as i64, first.difference(&last));
}

#[test]
fn from_unique_value_finds_the_date() {
    assert_eq!(Some(reference_date()), Date::from_unique_value(738594));
    assert_eq!(Some(Date::new(0, Month::January, 0)), Date::from_unique_value(0));
    assert_eq!(Some(Date::new(0, Month::December, 30)), Date::from_unique_value(365));
    assert_eq!(Some(Date::new(1, Month::January, 0)), Date::from_unique_value(366));
    for d in [
        Date::new(2000, Month::February, 28),
        Date::new(2000, Month::March, 0),
        Date::new(2100, Month::December, 30),
        Date::new(1999, Month::July, 3),
    ] {
        assert_eq!(Some(d), Date::from_unique_value(d.unique_value()));
    }
}

#[test]
fn from_unique_value_at_the_last_year() {
    let last = Date::new(u32::MAX, Month::December, 30);
    assert_eq!(1568704592609, last.unique_value());
    assert_eq!(Some(last), Date::from_unique_value(1568704592609));
    assert_eq!(None, Date::from_unique_value(1568704592610));
    assert_eq!(None, Date::from_unique_value(u64::MAX));
}

#[test]
fn from_unix_seconds_counts_whole_days() {
    assert_eq!(Some(Date::new(1970, Month::January, 0)), Date::from_unix_seconds(0));
    assert_eq!(Some(Date::new(1970, Month::January, 1)), Date::from_unix_seconds(86400));
    assert_eq!(Some(reference_date()), Date::from_unix_seconds(1647388799));
    assert_eq!(Some(Date::new(2022, Month::March, 15)), Date::from_unix_seconds(1647388800));
    assert_eq!(None, Date::from_unix_seconds(u64::MAX));
}

#[test]
fn weekday_moves_with_the_difference() {
    let a = Date::new(1066, Month::October, 13);
    let b = Date::new(2024, Month::February, 28);
    assert_eq!(b.day_of_week(), a.day_of_week().offset_by(a.difference(&b)));
    assert_eq!(a.day_of_week(), b.day_of_week().offset_by(b.difference(&a)));
    assert_eq!(DayOfWeek::Thursday, b.day_of_week());
}

#[test]
fn article_flag_only_capitalizes() {
    for m in MONTHS {
        let lower = m.scottish_gaelic_with_def_art(false);
        let upper = m.scottish_gaelic_with_def_art(true);
        assert!(lower.ends_with(m.scottish_gaelic()));
        assert!(upper.ends_with(m.scottish_gaelic()));
        assert!(lower.starts_with('a'));
        assert_eq!(upper, format!("A{}", &lower[1..]));
    }
    assert_eq!("an t-Sultain", Month::September.scottish_gaelic_with_def_art(false));
    assert_eq!("An t-Sultain", Month::September.scottish_gaelic_with_def_art(true));
}
