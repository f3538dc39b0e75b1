use laithean::days::DayOfWeek;
use laithean::days::DayOfWeek::{Friday, Monday, Saturday, Sunday, Thursday, Tuesday, Wednesday};

#[test]
fn test_from_into_reversible() {
    let numbers: Vec<u8> = vec![0, 1, 2, 3, 4, 5, 6];

    // Convert to days
    let mut days: Vec<DayOfWeek> = vec![];
    for n in &numbers {
        days.push(DayOfWeek::from(*n));
    }

    // Convert back to numbers
    let mut result_numbers: Vec<u8> = vec![];
    for d in &days {
        result_numbers.push(u8::from(*d));
    }

    assert_eq!(numbers, result_numbers);
}

#[test]
fn test_offset_zero() {
    assert_eq!(Monday, Monday.offset_by(0));
}

#[test]
fn test_offset_one_no_wrap() {
    assert_eq!(Tuesday, Monday.offset_by(1));
}

#[test]
fn test_offset_one_with_wrap() {
    assert_eq!(Monday, Sunday(false).offset_by(1));
}

#[test]
fn from_wraps_past_a_week() {
    assert!(matches!(DayOfWeek::from(7), Monday));
    assert!(matches!(DayOfWeek::from(13), Sunday(false)));
    assert!(matches!(DayOfWeek::from(255), Thursday));
}

#[test]
fn sabbath_round_trip_gives_ordinary_sunday() {
    let back = DayOfWeek::from(Sunday(true).id());
    assert!(matches!(back, Sunday(false)));
    assert_eq!(6, Sunday(true).id());
    assert_eq!(Sunday(true), Sunday(false));
}

#[test]
fn offset_zero_every_day() {
    for d in [Monday, Tuesday, Wednesday, Thursday, Friday, Saturday, Sunday(false), Sunday(true)] {
        assert_eq!(d, d.offset_by(0));
    }
    assert!(matches!(Sunday(true).offset_by(0), Sunday(false)));
}

#[test]
fn offset_negative_and_large() {
    assert_eq!(Sunday(false), Monday.offset_by(-1));
    assert_eq!(Friday, Tuesday.offset_by(-4));
    assert_eq!(Tuesday, Monday.offset_by(-6));
    assert_eq!(Monday, Monday.offset_by(-7));
    assert_eq!(Thursday, Monday.offset_by(-11));
    assert_eq!(Thursday, Monday.offset_by(10));
    assert_eq!(Saturday, Friday.offset_by(701));
    assert_eq!(Monday, Monday.offset_by(i64::MAX));
    assert_eq!(Sunday(false), Monday.offset_by(i64::MIN));
}

#[test]
fn weekday_names() {
    assert_eq!("Diluain", Monday.scottish_gaelic());
    assert_eq!("Dimàirt", Tuesday.scottish_gaelic());
    assert_eq!("Didòmhnaich", Sunday(false).scottish_gaelic());
    assert_eq!("Là na Sàbaid", Sunday(true).scottish_gaelic());
    assert_eq!("DiD", Sunday(true).scottish_gaelic_abbreviation());
    assert_eq!("Dia", Thursday.scottish_gaelic_abbreviation());
    assert_eq!("Saturday", Saturday.english());
    assert_eq!("Sunday", Sunday(true).english());
}

#[test]
fn id_from_reference() {
    assert_eq!(4, u8::from(&Friday));
    assert_eq!(6, u8::from(&Sunday(true)));
}
