//! Stylesheets: what is handed to the compiler for a source, and the file
//! that its CSS is written to. The compiler may read files that a source
//! imports, so the caller runs it and hands back what it gave.

use crate::error::{error_of, ErrorKind, SiteError, SiteErrorView};
use vstd::prelude::*;

verus! {

/// How the CSS is laid out.
#[derive(Clone, Copy, Debug, PartialEq, Eq, Structural)]
pub enum OutputStyle {
    /// With line breaks and indentation.
    Expanded,
    /// On as few characters as possible.
    Compressed,
}

/// A stylesheet to compile: its source, the style of the CSS, and the path
/// below the output root that the CSS is written to.
#[derive(Debug)]
pub struct CompileJob {
    pub source: String,
    pub style: OutputStyle,
    pub path: String,
}

/// A `CompileJob` with its texts as sequences of characters.
pub struct CompileJobView {
    pub source: Seq<char>,
    pub style: OutputStyle,
    pub path: Seq<char>,
}

impl View for CompileJob {
    type V = CompileJobView;

    open spec fn view(&self) -> CompileJobView {
        CompileJobView { source: self.source@, style: self.style, path: self.path@ }
    }
}

/// A file to write: its path below the output root, and its content.
#[derive(Debug)]
pub struct OutputFile {
    pub path: String,
    pub content: String,
}

/// An `OutputFile` with its texts as sequences of characters.
pub struct OutputView {
    pub path: Seq<char>,
    pub content: Seq<char>,
}

impl View for OutputFile {
    type V = OutputView;

    open spec fn view(&self) -> OutputView {
        OutputView { path: self.path@, content: self.content@ }
    }
}

/// The job for the stylesheet source found under a logical name: the
/// source as it stands, compiled to compressed CSS, written to the name
/// followed by `.css`.
pub open spec fn job_of(name: Seq<char>, source: Seq<char>) -> CompileJobView {
    CompileJobView { source, style: OutputStyle::Compressed, path: name + ".css"@ }
}

/// What becomes of a job once the compiler has run: the CSS is to be
/// written to the job's path; an error of the compiler, given by its text,
/// becomes a `StylesheetCompileError` whose message holds that text.
pub open spec fn output_of(path: Seq<char>, compiled: Result<Seq<char>, Seq<char>>) -> Result<
    OutputView,
    SiteErrorView,
> {
    match compiled {
        Ok(css) => Ok(OutputView { path, content: css }),
        Err(cause) => Err(error_of(ErrorKind::StylesheetCompileError, "Stylesheet: "@ + cause)),
    }
}

/// What the compiler or the renderer gave, the result or the text of its
/// error, as sequences of characters.
pub open spec fn outcome_view(outcome: Result<String, String>) -> Result<Seq<char>, Seq<char>> {
    match outcome {
        Ok(text) => Ok(text@),
        Err(cause) => Err(cause@),
    }
}

/// The job for a stylesheet source.
pub fn stylesheet_job(name: &str, source: String) -> (job: CompileJob)
    ensures
        job@ == job_of(name@, source@),
{
    let mut path = String::from_str(name);
    path.append(".css");
    CompileJob { source, style: OutputStyle::Compressed, path }
}

/// The file to write for a job, from what the compiler gave for it.
pub fn stylesheet_output(job: &CompileJob, compiled: Result<String, String>) -> (r: Result<
    OutputFile,
    SiteError,
>)
    ensures
        match r {
            Ok(file) => output_of(job.path@, outcome_view(compiled)) == Ok::<
                OutputView,
                SiteErrorView,
            >(file@),
            Err(e) => output_of(job.path@, outcome_view(compiled)) == Err::<
                OutputView,
                SiteErrorView,
            >(e@),
        },
{
    match compiled {
        Ok(css) => Ok(OutputFile { path: job.path.clone(), content: css }),
        Err(cause) => Err(
            SiteError::with_detail(
                ErrorKind::StylesheetCompileError,
                "Stylesheet: ",
                cause.as_str(),
            ),
        ),
    }
}

} // verus!
