//! The front matter of a post: a TOML table with the post's title,
//! description, slug and publication date.

use crate::date::{date_of_text, parse_date, Date};
use crate::error::{ErrorKind, SiteError};
use vstd::prelude::*;

verus! {

/// A parsed TOML value. What a table holds is known through
/// `value_entries` only.
#[verifier::external_type_specification]
#[verifier::external_body]
pub struct ExTomlValue(toml::Value);

/// What a table holds under a key, as far as the pipeline reads it.
#[derive(Debug)]
pub enum Entry {
    /// A string.
    Text(String),
    /// A date or a time, in the text that TOML writes for it.
    Datetime(String),
    /// Any other value.
    Other,
}

/// An `Entry` with its texts as sequences of characters.
pub enum EntryView {
    Text(Seq<char>),
    Datetime(Seq<char>),
    Other,
}

impl View for Entry {
    type V = EntryView;

    open spec fn view(&self) -> EntryView {
        match self {
            Entry::Text(text) => EntryView::Text(text@),
            Entry::Datetime(text) => EntryView::Datetime(text@),
            Entry::Other => EntryView::Other,
        }
    }
}

/// The entries of the table that a TOML text describes, or the text of
/// the parser's error where it is not well-formed TOML.
pub uninterp spec fn toml_entries(text: Seq<char>) -> Result<Map<Seq<char>, EntryView>, Seq<char>>;

/// The entries of a parsed table. A value that is no table has none.
pub uninterp spec fn value_entries(value: toml::Value) -> Map<Seq<char>, EntryView>;

/// `toml::from_str`, reading a whole document as a `toml::Value`. The
/// contract names the entries of the table read, or the text of the error
/// for a text that is not well-formed TOML.
#[verifier::external_body]
fn parse_toml(text: &str) -> (r: Result<toml::Value, String>)
    ensures
        match r {
            Ok(value) => toml_entries(text@) matches Ok(found) && found == value_entries(value),
            Err(cause) => toml_entries(text@) matches Err(found) && found == cause@,
        },
{
    toml::from_str::<toml::Value>(text).map_err(|e| e.to_string())
}

/// `toml::Value::get` with a key: the entry under that key, if the value is
/// a table that has one. A string comes with its text, a datetime with the
/// text that its `to_string` gives.
#[verifier::external_body]
fn lookup(value: &toml::Value, key: &str) -> (r: Option<Entry>)
    ensures
        match r {
            Some(entry) => value_entries(*value).contains_key(key@) && value_entries(*value)[key@]
                == entry@,
            None => !value_entries(*value).contains_key(key@),
        },
{
    value.get(key).map(|found| match found {
        toml::Value::String(text) => Entry::Text(text.clone()),
        toml::Value::Datetime(datetime) => Entry::Datetime(datetime.to_string()),
        _ => Entry::Other,
    })
}

/// The metadata of a post, as its front matter gives it.
#[derive(Debug)]
pub struct BlogMetadata {
    pub title: String,
    pub descr: String,
    pub url_friendly_name: String,
    pub date: Date,
}

/// A `BlogMetadata` with its texts as sequences of characters.
pub struct MetadataView {
    pub title: Seq<char>,
    pub descr: Seq<char>,
    pub url_friendly_name: Seq<char>,
    pub date: Date,
}

impl View for BlogMetadata {
    type V = MetadataView;

    open spec fn view(&self) -> MetadataView {
        MetadataView {
            title: self.title@,
            descr: self.descr@,
            url_friendly_name: self.url_friendly_name@,
            date: self.date,
        }
    }
}

/// An entry that may be missing, with its texts as sequences of
/// characters.
pub open spec fn entry_view(entry: Option<Entry>) -> Option<EntryView> {
    match entry {
        Some(entry) => Some(entry@),
        None => None,
    }
}

/// What a table holds under `key`, if anything.
pub open spec fn entry_at(entries: Map<Seq<char>, EntryView>, key: Seq<char>) -> Option<
    EntryView,
> {
    if entries.contains_key(key) {
        Some(entries[key])
    } else {
        None
    }
}

/// The string of an entry, or the message of the error for an entry that
/// is missing or is no string.
pub open spec fn text_of_entry(entry: Option<EntryView>, key: Seq<char>) -> Result<
    Seq<char>,
    Seq<char>,
> {
    match entry {
        Some(EntryView::Text(text)) => Ok(text),
        Some(_) => Err("Blog metadata: expected a string for "@ + key),
        None => Err("Blog metadata: missing field "@ + key),
    }
}

/// The text of a datetime entry, or the message of the error for an entry
/// that is missing or is no datetime.
pub open spec fn datetime_of_entry(entry: Option<EntryView>, key: Seq<char>) -> Result<
    Seq<char>,
    Seq<char>,
> {
    match entry {
        Some(EntryView::Datetime(text)) => Ok(text),
        Some(_) => Err("Blog metadata: expected a date for "@ + key),
        None => Err("Blog metadata: missing field "@ + key),
    }
}

/// The date that the text of a datetime stands for, or the message of the
/// error where it is no calendar date: a datetime with a time of day, or a
/// day that the calendar lacks.
pub open spec fn date_of_entry(written: Seq<char>) -> Result<Date, Seq<char>> {
    match date_of_text(written) {
        Ok(date) => Ok(date),
        Err(cause) => Err("Blog metadata: date: "@ + cause),
    }
}

/// The metadata that a table holds, or the message of the error: strings
/// under `title`, `descr` and `url_friendly_name`, the last of them not
/// empty, and a date under `date`. Other keys are ignored. The first of the
/// four that is missing, of another type or not acceptable decides the
/// message.
pub open spec fn metadata_of(entries: Map<Seq<char>, EntryView>) -> Result<
    MetadataView,
    Seq<char>,
> {
    match text_of_entry(entry_at(entries, "title"@), "title"@) {
        Err(msg) => Err(msg),
        Ok(title) => match text_of_entry(entry_at(entries, "descr"@), "descr"@) {
            Err(msg) => Err(msg),
            Ok(descr) => match text_of_entry(
                entry_at(entries, "url_friendly_name"@),
                "url_friendly_name"@,
            ) {
                Err(msg) => Err(msg),
                Ok(url_friendly_name) => if url_friendly_name.len() == 0 {
                    Err("Blog metadata: url_friendly_name is empty"@)
                } else {
                    match datetime_of_entry(entry_at(entries, "date"@), "date"@) {
                        Err(msg) => Err(msg),
                        Ok(written) => match date_of_entry(written) {
                            Err(msg) => Err(msg),
                            Ok(date) => Ok(MetadataView { title, descr, url_friendly_name, date }),
                        },
                    }
                },
            },
        },
    }
}

/// The metadata that a front matter text describes, or the message of the
/// error: that of the TOML parser behind `Blog metadata: `, or that of
/// `metadata_of`.
pub open spec fn front_matter_metadata(text: Seq<char>) -> Result<MetadataView, Seq<char>> {
    match toml_entries(text) {
        Ok(entries) => metadata_of(entries),
        Err(cause) => Err("Blog metadata: "@ + cause),
    }
}

/// Whatever metadata a table holds has a slug that is not empty.
pub proof fn lemma_metadata_has_slug(entries: Map<Seq<char>, EntryView>)
    ensures
        metadata_of(entries) matches Ok(metadata) ==> metadata.url_friendly_name.len() > 0,
{
}

/// An error of the metadata with the given message.
fn metadata_error(context: &str, detail: &str) -> (e: SiteError)
    ensures
        e.kind == ErrorKind::MetadataParseError,
        e.msg@ == context@ + detail@,
{
    SiteError::with_detail(ErrorKind::MetadataParseError, context, detail)
}

/// The string of an entry; an error that names `key` where the entry is
/// missing or is no string.
pub fn required_text(entry: Option<Entry>, key: &str) -> (r: Result<String, SiteError>)
    ensures
        match r {
            Ok(text) => text_of_entry(entry_view(entry), key@) == Ok::<Seq<char>, Seq<char>>(
                text@,
            ),
            Err(e) => text_of_entry(entry_view(entry), key@) == Err::<Seq<char>, Seq<char>>(
                e.msg@,
            ) && e.kind == ErrorKind::MetadataParseError,
        },
{
    match entry {
        Some(Entry::Text(text)) => Ok(text),
        Some(_) => Err(metadata_error("Blog metadata: expected a string for ", key)),
        None => Err(metadata_error("Blog metadata: missing field ", key)),
    }
}

/// The text of a datetime entry; an error that names `key` where the entry
/// is missing or is no datetime.
pub fn required_datetime(entry: Option<Entry>, key: &str) -> (r: Result<String, SiteError>)
    ensures
        match r {
            Ok(text) => datetime_of_entry(entry_view(entry), key@) == Ok::<Seq<char>, Seq<char>>(
                text@,
            ),
            Err(e) => datetime_of_entry(entry_view(entry), key@) == Err::<Seq<char>, Seq<char>>(
                e.msg@,
            ) && e.kind == ErrorKind::MetadataParseError,
        },
{
    match entry {
        Some(Entry::Datetime(text)) => Ok(text),
        Some(_) => Err(metadata_error("Blog metadata: expected a date for ", key)),
        None => Err(metadata_error("Blog metadata: missing field ", key)),
    }
}

/// Reads the metadata of a post from its front matter. Fails with
/// `MetadataParseError` where the text is not well-formed TOML, where one of
/// the four fields is missing or of another type, where the slug is empty,
/// and where the date is no calendar date. The message holds the cause.
pub fn read_metadata(front_matter: &str) -> (r: Result<BlogMetadata, SiteError>)
    ensures
        match r {
            Ok(metadata) => front_matter_metadata(front_matter@) == Ok::<MetadataView, Seq<char>>(
                metadata@,
            ) && metadata.date.wf() && metadata.url_friendly_name@.len() > 0,
            Err(e) => front_matter_metadata(front_matter@) == Err::<MetadataView, Seq<char>>(
                e.msg@,
            ) && e.kind == ErrorKind::MetadataParseError,
        },
{
    let table = match parse_toml(front_matter) {
        Ok(table) => table,
        Err(cause) => {
            return Err(metadata_error("Blog metadata: ", cause.as_str()));
        },
    };
    let title = required_text(lookup(&table, "title"), "title")?;
    let descr = required_text(lookup(&table, "descr"), "descr")?;
    let url_friendly_name = required_text(
        lookup(&table, "url_friendly_name"),
        "url_friendly_name",
    )?;
    if url_friendly_name.as_str().unicode_len() == 0 {
        return Err(
            SiteError::new(
                ErrorKind::MetadataParseError,
                String::from_str("Blog metadata: url_friendly_name is empty"),
            ),
        );
    }
    let written = required_datetime(lookup(&table, "date"), "date")?;
    match parse_date(written.as_str()) {
        Ok(date) => Ok(BlogMetadata { title, descr, url_friendly_name, date }),
        Err(cause) => Err(metadata_error("Blog metadata: date: ", cause.as_str())),
    }
}

} // verus!
