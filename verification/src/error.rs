//! The errors of a build pass.

use vstd::prelude::*;

verus! {

/// The reason a build pass stopped.
#[derive(Clone, Copy, Debug, PartialEq, Eq, Structural)]
pub enum ErrorKind {
    /// A post source lacks the two delimiters that frame its front matter.
    MalformedDocument,
    /// The front matter is no well-formed metadata, lacks a field, or its
    /// date is no calendar date.
    MetadataParseError,
    /// A template source was not accepted for registration.
    TemplateSyntaxError,
    /// Rendering failed: the template is not registered, or it refers to a
    /// value that the view model does not hold.
    UndefinedTemplateVariable,
    /// The index page was asked for with no post to show.
    EmptyPostList,
    /// A path or a file could not be used.
    IOError,
    /// A stylesheet source did not compile.
    StylesheetCompileError,
}

/// An error of the pipeline: its kind, and a message for the person
/// running the build.
#[derive(Debug)]
pub struct SiteError {
    pub kind: ErrorKind,
    pub msg: String,
}

/// A `SiteError` with its message as a sequence of characters.
pub struct SiteErrorView {
    pub kind: ErrorKind,
    pub msg: Seq<char>,
}

impl View for SiteError {
    type V = SiteErrorView;

    open spec fn view(&self) -> SiteErrorView {
        SiteErrorView { kind: self.kind, msg: self.msg@ }
    }
}

/// The error of a kind with a message.
pub open spec fn error_of(kind: ErrorKind, msg: Seq<char>) -> SiteErrorView {
    SiteErrorView { kind, msg }
}

pub type EmptyResult = Result<(), SiteError>;

impl SiteError {
    /// An error of the given kind with the given message.
    pub fn new(kind: ErrorKind, msg: String) -> (e: SiteError)
        ensures
            e.kind == kind,
            e.msg == msg,
    {
        SiteError { kind, msg }
    }

    /// An error of the given kind whose message is `context` followed by
    /// `detail`.
    pub fn with_detail(kind: ErrorKind, context: &str, detail: &str) -> (e: SiteError)
        ensures
            e.kind == kind,
            e.msg@ == context@ + detail@,
    {
        let mut msg = String::from_str(context);
        msg.append(detail);
        SiteError { kind, msg }
    }

    /// The message, as the error is shown to a person.
    pub fn to_string(&self) -> (text: String)
        ensures
            text@ == self.msg@,
    {
        self.msg.clone()
    }
}

} // verus!
