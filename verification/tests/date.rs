use sitegen::date::Date;

#[test]
fn date_reads_and_writes_iso_text() {
    let date = Date::parse("2020-01-03").unwrap();
    assert_eq!(date, Date { year: 2020, month: 1, day: 3 });
    assert_eq!(date.to_string(), "2020-01-03");
}

#[test]
fn date_parse_rejects_what_is_no_date() {
    assert_eq!(Date::parse("2020-13-01"), None);
    assert_eq!(Date::parse("2021-02-29"), None);
    assert_eq!(Date::parse("2020-01-01T00:00:00"), None);
    assert_eq!(Date::parse("yesterday"), None);
    assert_eq!(Date::parse(""), None);
}

#[test]
fn date_parse_knows_leap_years() {
    assert_eq!(Date::parse("2020-02-29"), Some(Date { year: 2020, month: 2, day: 29 }));
    assert_eq!(Date::parse("1900-02-29"), None);
    assert_eq!(Date::parse("2000-02-29"), Some(Date { year: 2000, month: 2, day: 29 }));
}

#[test]
fn date_to_string_pads_with_zeros() {
    assert_eq!(Date { year: 987, month: 6, day: 5 }.to_string(), "0987-06-05");
}

#[test]
fn date_to_string_of_no_date_is_empty() {
    assert_eq!(Date { year: 2020, month: 13, day: 1 }.to_string(), "");
}

#[test]
fn is_before_compares_year_month_day() {
    let a = Date { year: 2020, month: 1, day: 3 };
    assert!(Date { year: 2019, month: 12, day: 31 }.is_before(&a));
    assert!(Date { year: 2020, month: 1, day: 2 }.is_before(&a));
    assert!(!a.is_before(&a));
    assert!(!Date { year: 2020, month: 2, day: 1 }.is_before(&a));
    assert!(!Date { year: 2021, month: 1, day: 1 }.is_before(&a));
}

#[test]
fn date_to_string_signs_years_beyond_four_digits() {
    assert_eq!(Date { year: 12345, month: 6, day: 7 }.to_string(), "+12345-06-07");
    assert_eq!(Date { year: -1, month: 1, day: 1 }.to_string(), "-0001-01-01");
    assert_eq!(Date { year: 0, month: 2, day: 29 }.to_string(), "0000-02-29");
    assert_eq!(Date { year: 9999, month: 12, day: 31 }.to_string(), "9999-12-31");
    assert_eq!(Date { year: 400000, month: 1, day: 1 }.to_string(), "");
}
