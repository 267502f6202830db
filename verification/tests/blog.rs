use sitegen::blog::{parse, Blog, BlogReader};
use sitegen::date::Date;
use sitegen::error::{EmptyResult, ErrorKind};

fn post_source(title: &str, date: &str) -> String {
    format!(
        "---\ntitle = \"{}\"\ndescr = \"Test.\"\nurl_friendly_name = \"url-friendly\"\ndate = {}\n---\nThis is a test\n\nWith Markdown\n",
        title, date
    )
}

fn post(title: &str, year: i32, month: u32, day: u32) -> Blog {
    Blog {
        title: title.to_string(),
        descr: String::new(),
        url_friendly_name: title.to_string(),
        date: Date { year, month, day },
        content: String::new(),
    }
}

fn titles(reader: &BlogReader) -> Vec<String> {
    reader.get_blogs().iter().map(|blog| blog.title.clone()).collect()
}

#[test]
fn test_ingest() -> EmptyResult {
    let mut subject = BlogReader::new();

    subject.ingest(String::from(
"---
title = \"Test Title\"
descr = \"Test description.\"
url_friendly_name = \"url-friendly\"
date = 2020-01-01
---
This is a test

With Markdown
"))?;

    assert!(subject.get_blogs().len() == 1);
    assert!(subject.get_blogs()[0].title == "Test Title");
    assert!(subject.get_blogs()[0].descr == "Test description.");
    assert!(subject.get_blogs()[0].url_friendly_name == "url-friendly");
    assert!(subject.get_blogs()[0].content ==
"<p>This is a test</p>
<p>With Markdown</p>
");

    Ok(())
}

#[test]
fn test_get_blogs_correct_order() -> EmptyResult {
    let mut subject = BlogReader::new();

    subject.ingest(String::from(
"---
title = \"Test 1\"
descr = \"Test.\"
url_friendly_name = \"url-friendly\"
date = 2020-01-01
---
This is a test

With Markdown
"))?;
    subject.ingest(String::from(
"---
title = \"Test 2\"
descr = \"Test.\"
url_friendly_name = \"url-friendly\"
date = 2020-01-03
---
This is a test

With Markdown
"))?;
    subject.ingest(String::from(
"---
title = \"Test 3\"
descr = \"Test.\"
url_friendly_name = \"url-friendly\"
date = 2020-01-02
---
This is a test

With Markdown
"))?;

    assert!(subject.get_blogs().len() == 3);
    assert!(subject.get_blogs()[0].title == "Test 2");
    assert!(subject.get_blogs()[1].title == "Test 3");
    assert!(subject.get_blogs()[2].title == "Test 1");

    Ok(())
}

#[test]
fn parse_reads_metadata_and_renders_body() {
    let blog = parse(&post_source("Test Title", "2020-01-01")).unwrap();
    assert_eq!(blog.title, "Test Title");
    assert_eq!(blog.descr, "Test.");
    assert_eq!(blog.url_friendly_name, "url-friendly");
    assert_eq!(blog.date, Date { year: 2020, month: 1, day: 1 });
    assert_eq!(blog.content, "<p>This is a test</p>\n<p>With Markdown</p>\n");
}

#[test]
fn parse_ignores_the_preamble_and_unknown_keys() {
    let source = "preamble\n---\ntitle = \"T\"\ndescr = \"D\"\nurl_friendly_name = \"s\"\ndate = 2021-12-31\nextra = 7\n---\nbody";
    let blog = parse(source).unwrap();
    assert_eq!(blog.title, "T");
    assert_eq!(blog.date, Date { year: 2021, month: 12, day: 31 });
    assert_eq!(blog.content, "<p>body</p>\n");
}

#[test]
fn parse_accepts_an_empty_body() {
    let source = "---\ntitle = \"T\"\ndescr = \"D\"\nurl_friendly_name = \"s\"\ndate = 2021-12-31\n---";
    let blog = parse(source).unwrap();
    assert_eq!(blog.content, "");
}

#[test]
fn parse_leaves_later_delimiters_to_the_body() {
    let source = "---\ntitle = \"T\"\ndescr = \"D\"\nurl_friendly_name = \"s\"\ndate = 2021-12-31\n---\nabove\n\n---\n\nbelow\n";
    let blog = parse(source).unwrap();
    assert_eq!(blog.content, "<p>above</p>\n<hr />\n<p>below</p>\n");
}

#[test]
fn parse_rejects_a_document_without_delimiters() {
    let error = parse("title = \"T\"\nno delimiter here").unwrap_err();
    assert_eq!(error.kind, ErrorKind::MalformedDocument);
    assert_eq!(error.to_string(), "Blog: did not have 3 YAML section divided parts, had: 1");
}

#[test]
fn parse_rejects_a_document_with_one_delimiter() {
    let error = parse("---\ntitle = \"T\"\n").unwrap_err();
    assert_eq!(error.kind, ErrorKind::MalformedDocument);
    assert_eq!(error.to_string(), "Blog: did not have 3 YAML section divided parts, had: 2");
    let error = parse("-----").unwrap_err();
    assert_eq!(error.kind, ErrorKind::MalformedDocument);
    assert_eq!(error.to_string(), "Blog: did not have 3 YAML section divided parts, had: 2");
    let error = parse("").unwrap_err();
    assert_eq!(error.kind, ErrorKind::MalformedDocument);
    assert_eq!(error.to_string(), "Blog: did not have 3 YAML section divided parts, had: 1");
}

#[test]
fn parse_rejects_front_matter_that_is_no_toml() {
    let error = parse("---\ntitle = \n---\nbody").unwrap_err();
    assert_eq!(error.kind, ErrorKind::MetadataParseError);
    assert!(error.to_string().starts_with("Blog metadata: "));
}

#[test]
fn parse_rejects_a_missing_field() {
    let error =
        parse("---\ntitle = \"T\"\ndescr = \"D\"\ndate = 2020-01-01\n---\nbody").unwrap_err();
    assert_eq!(error.kind, ErrorKind::MetadataParseError);
    assert_eq!(error.to_string(), "Blog metadata: missing field url_friendly_name");
}

#[test]
fn parse_rejects_a_field_of_another_type() {
    let error = parse(
        "---\ntitle = 3\ndescr = \"D\"\nurl_friendly_name = \"s\"\ndate = 2020-01-01\n---\nbody",
    )
    .unwrap_err();
    assert_eq!(error.kind, ErrorKind::MetadataParseError);
    assert_eq!(error.to_string(), "Blog metadata: expected a string for title");
    let error = parse(
        "---\ntitle = \"T\"\ndescr = \"D\"\nurl_friendly_name = \"s\"\ndate = \"2020-01-01\"\n---\nbody",
    )
    .unwrap_err();
    assert_eq!(error.kind, ErrorKind::MetadataParseError);
    assert_eq!(error.to_string(), "Blog metadata: expected a date for date");
}

#[test]
fn parse_rejects_a_date_with_a_time() {
    let error = parse(
        "---\ntitle = \"T\"\ndescr = \"D\"\nurl_friendly_name = \"s\"\ndate = 2020-01-01T10:00:00\n---\nbody",
    )
    .unwrap_err();
    assert_eq!(error.kind, ErrorKind::MetadataParseError);
}

#[test]
fn parse_rejects_a_day_that_the_calendar_lacks() {
    let error = parse(
        "---\ntitle = \"T\"\ndescr = \"D\"\nurl_friendly_name = \"s\"\ndate = 2021-02-30\n---\nbody",
    )
    .unwrap_err();
    assert_eq!(error.kind, ErrorKind::MetadataParseError);
}

#[test]
fn parse_rejects_an_empty_slug() {
    let error = parse(
        "---\ntitle = \"T\"\ndescr = \"D\"\nurl_friendly_name = \"\"\ndate = 2020-01-01\n---\nbody",
    )
    .unwrap_err();
    assert_eq!(error.kind, ErrorKind::MetadataParseError);
    assert_eq!(error.to_string(), "Blog metadata: url_friendly_name is empty");
}

#[test]
fn ingest_of_an_empty_slug_adds_no_post() {
    let mut reader = BlogReader::new();
    reader.ingest(post_source("kept", "2020-01-01")).unwrap();
    let error = reader
        .ingest(String::from(
            "---\ntitle = \"T\"\ndescr = \"D\"\nurl_friendly_name = \"\"\ndate = 2020-01-02\n---\nbody",
        ))
        .unwrap_err();
    assert_eq!(error.kind, ErrorKind::MetadataParseError);
    assert_eq!(titles(&reader), vec!["kept"]);
    assert!(reader.get_blogs().iter().all(|blog| !blog.url_friendly_name.is_empty()));
}

#[test]
fn parse_names_the_cause_of_a_metadata_error() {
    let error = parse("---\ntitle = \n---\nbody").unwrap_err();
    let cause = "\ntitle = \n".parse::<toml::Value>().unwrap_err().to_string();
    assert_eq!(error.to_string(), format!("Blog metadata: {}", cause));
    let error = parse(
        "---\ntitle = \"T\"\ndescr = \"D\"\nurl_friendly_name = \"s\"\ndate = 2021-02-30\n---\nbody",
    )
    .unwrap_err();
    assert!(error.to_string().starts_with("Blog metadata: "));
    assert!(error.to_string().len() > "Blog metadata: ".len());
}

#[test]
fn ingest_of_a_rejected_document_leaves_the_registry() {
    let mut reader = BlogReader::new();
    reader.ingest(post_source("kept", "2020-01-01")).unwrap();
    let error = reader.ingest(String::from("no front matter")).unwrap_err();
    assert_eq!(error.kind, ErrorKind::MalformedDocument);
    assert_eq!(titles(&reader), vec!["kept"]);
}

#[test]
fn new_registry_is_empty() {
    assert_eq!(BlogReader::new().get_blogs().len(), 0);
}

#[test]
fn insert_keeps_newest_first_after_every_insert() {
    let mut reader = BlogReader::new();
    let dates = [(2020, 5, 1), (2019, 12, 31), (2021, 1, 1), (2020, 5, 2), (2020, 4, 30), (2020, 5, 1)];
    for (n, (year, month, day)) in dates.iter().enumerate() {
        reader.insert(post(&format!("post{}", n), *year, *month, *day));
        let blogs = reader.get_blogs();
        assert_eq!(blogs.len(), n + 1);
        for pair in blogs.windows(2) {
            let a = (pair[0].date.year, pair[0].date.month, pair[0].date.day);
            let b = (pair[1].date.year, pair[1].date.month, pair[1].date.day);
            assert!(a >= b);
        }
    }
    assert_eq!(titles(&reader), vec!["post2", "post3", "post0", "post5", "post4", "post1"]);
}

#[test]
fn insert_puts_a_post_behind_those_of_the_same_day() {
    let mut reader = BlogReader::new();
    reader.insert(post("first", 2020, 1, 1));
    reader.insert(post("second", 2020, 1, 1));
    reader.insert(post("older", 2019, 1, 1));
    reader.insert(post("third", 2020, 1, 1));
    assert_eq!(titles(&reader), vec!["first", "second", "third", "older"]);
}

#[test]
fn insert_orders_by_year_then_month_then_day() {
    let mut reader = BlogReader::new();
    reader.insert(post("a", 2020, 12, 1));
    reader.insert(post("b", 2021, 1, 1));
    reader.insert(post("c", 2020, 2, 28));
    reader.insert(post("d", 2020, 12, 2));
    assert_eq!(titles(&reader), vec!["b", "d", "a", "c"]);
}
