use sitegen::date::Date;
use sitegen::error::ErrorKind;
use sitegen::metadata::{read_metadata, required_datetime, required_text, Entry};

#[test]
fn read_metadata_reads_the_four_fields() {
    let metadata = read_metadata(
        "\ntitle = \"Test Title\"\ndescr = \"Test description.\"\nurl_friendly_name = \"url-friendly\"\ndate = 2020-01-01\n",
    )
    .unwrap();
    assert_eq!(metadata.title, "Test Title");
    assert_eq!(metadata.descr, "Test description.");
    assert_eq!(metadata.url_friendly_name, "url-friendly");
    assert_eq!(metadata.date, Date { year: 2020, month: 1, day: 1 });
}

#[test]
fn read_metadata_reads_toml_strings_with_escapes() {
    let metadata = read_metadata(
        "title = 'single quoted'\ndescr = \"tab\\there\"\nurl_friendly_name = \"\"\"\nmany\nlines\"\"\"\ndate = 1999-12-31",
    )
    .unwrap();
    assert_eq!(metadata.title, "single quoted");
    assert_eq!(metadata.descr, "tab\there");
    assert_eq!(metadata.url_friendly_name, "many\nlines");
    assert_eq!(metadata.date, Date { year: 1999, month: 12, day: 31 });
}

#[test]
fn read_metadata_of_empty_text_lacks_the_title() {
    let error = read_metadata("").unwrap_err();
    assert_eq!(error.kind, ErrorKind::MetadataParseError);
    assert_eq!(error.to_string(), "Blog metadata: missing field title");
}

#[test]
fn read_metadata_rejects_a_key_given_twice() {
    let error = read_metadata(
        "title = \"a\"\ntitle = \"b\"\ndescr = \"D\"\nurl_friendly_name = \"s\"\ndate = 2020-01-01",
    )
    .unwrap_err();
    assert_eq!(error.kind, ErrorKind::MetadataParseError);
}

#[test]
fn read_metadata_rejects_a_missing_date() {
    let error =
        read_metadata("title = \"a\"\ndescr = \"D\"\nurl_friendly_name = \"s\"").unwrap_err();
    assert_eq!(error.kind, ErrorKind::MetadataParseError);
    assert_eq!(error.to_string(), "Blog metadata: missing field date");
}

#[test]
fn read_metadata_rejects_a_time_of_day() {
    let error =
        read_metadata("title = \"a\"\ndescr = \"D\"\nurl_friendly_name = \"s\"\ndate = 10:30:00")
            .unwrap_err();
    assert_eq!(error.kind, ErrorKind::MetadataParseError);
    assert!(error.to_string().starts_with("Blog metadata: date: "));
}

#[test]
fn required_text_takes_a_string_only() {
    assert_eq!(required_text(Some(Entry::Text("x".to_string())), "title").unwrap(), "x");
    let error = required_text(Some(Entry::Datetime("2020-01-01".to_string())), "title").unwrap_err();
    assert_eq!(error.kind, ErrorKind::MetadataParseError);
    assert_eq!(error.to_string(), "Blog metadata: expected a string for title");
    let error = required_text(Some(Entry::Other), "title").unwrap_err();
    assert_eq!(error.kind, ErrorKind::MetadataParseError);
    let error = required_text(None, "title").unwrap_err();
    assert_eq!(error.kind, ErrorKind::MetadataParseError);
    assert_eq!(error.to_string(), "Blog metadata: missing field title");
}

#[test]
fn required_datetime_takes_a_datetime_only() {
    assert_eq!(
        required_datetime(Some(Entry::Datetime("2020-01-01".to_string())), "date").unwrap(),
        "2020-01-01"
    );
    let error = required_datetime(Some(Entry::Text("2020-01-01".to_string())), "date").unwrap_err();
    assert_eq!(error.kind, ErrorKind::MetadataParseError);
    assert_eq!(error.to_string(), "Blog metadata: expected a date for date");
    let error = required_datetime(Some(Entry::Other), "date").unwrap_err();
    assert_eq!(error.kind, ErrorKind::MetadataParseError);
    let error = required_datetime(None, "date").unwrap_err();
    assert_eq!(error.kind, ErrorKind::MetadataParseError);
    assert_eq!(error.to_string(), "Blog metadata: missing field date");
}

#[test]
fn read_metadata_rejects_an_empty_slug() {
    let error =
        read_metadata("title = \"a\"\ndescr = \"D\"\nurl_friendly_name = \"\"\ndate = 2020-01-01")
            .unwrap_err();
    assert_eq!(error.kind, ErrorKind::MetadataParseError);
    assert_eq!(error.to_string(), "Blog metadata: url_friendly_name is empty");
}

#[test]
fn read_metadata_gives_the_cause_of_the_parser() {
    let text = "title = \"a\"\ntitle = \"b\"";
    let cause = text.parse::<toml::Value>().unwrap_err().to_string();
    let error = read_metadata(text).unwrap_err();
    assert_eq!(error.to_string(), format!("Blog metadata: {}", cause));
    assert!(!cause.is_empty());
}

#[test]
fn read_metadata_gives_the_cause_of_a_date_that_is_none() {
    let error =
        read_metadata("title = \"a\"\ndescr = \"D\"\nurl_friendly_name = \"s\"\ndate = 10:30:00")
            .unwrap_err();
    let cause = "10:30:00".parse::<chrono::NaiveDate>().unwrap_err().to_string();
    assert_eq!(error.to_string(), format!("Blog metadata: date: {}", cause));
    assert!(!cause.is_empty());
}
