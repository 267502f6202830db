//! One build pass: templates are loaded, posts are loaded, stylesheets are
//! compiled, and the index, the list and the post pages are rendered, in
//! that order. The pass decides each step from its state; the caller walks
//! the directories, runs the compiler and the renderer, and writes the
//! files. The first error ends the pass.

use crate::blog::{parsed, with_post, BlogReader, BlogView};
use crate::error::{SiteError, SiteErrorView};
use crate::stylesheet::{
    outcome_view, job_of, output_of, stylesheet_job, stylesheet_output, CompileJob,
    CompileJobView, OutputFile, OutputView,
};
use crate::template::{
    accepts, index_job, list_job, page_of, page_output, post_job, rejection, RenderJob,
    RenderJobView, Templates,
};
use vstd::prelude::*;

verus! {

/// How far a pass has come.
#[derive(Clone, Copy, Debug, PartialEq, Eq, Structural)]
pub enum Stage {
    /// Nothing was done yet.
    Start,
    /// The template sources are walked.
    Templates,
    /// The post sources are walked.
    Posts,
    /// The stylesheet sources are walked.
    Stylesheets,
    /// The index is rendered and written.
    Index,
    /// The list of posts is rendered and written.
    List,
    /// The pages of the posts are rendered and written.
    Pages,
    /// Everything was written.
    Finished,
    /// An error ended the pass.
    Failed,
}

/// What the caller of a pass does next.
#[derive(Debug)]
pub enum Step {
    /// Walk this directory below the input root, hand each file to `file`,
    /// and ask again when the walk is over.
    Walk(String),
    /// Run the renderer on the job with the templates of the pass, hand
    /// what it gives to `rendered` with this path, write the file that comes
    /// back, and ask again.
    Render { job: RenderJob, path: String },
    /// Nothing is left to do.
    Done,
    /// The pass ends with this error.
    Failed(SiteError),
}

/// A `Step` with its texts as sequences of characters.
pub enum StepView {
    Walk(Seq<char>),
    Render { job: RenderJobView, path: Seq<char> },
    Done,
    Failed(SiteErrorView),
}

impl View for Step {
    type V = StepView;

    open spec fn view(&self) -> StepView {
        match self {
            Step::Walk(dir) => StepView::Walk(dir@),
            Step::Render { job, path } => StepView::Render { job: job@, path: path@ },
            Step::Done => StepView::Done,
            Step::Failed(e) => StepView::Failed(e@),
        }
    }
}

/// The state of a pass: its stage, the templates and posts taken in so
/// far, and the number of post pages handed out for rendering.
pub struct RebuildView {
    pub stage: Stage,
    pub templates: Map<Seq<char>, Seq<char>>,
    pub strict: bool,
    pub posts: Seq<BlogView>,
    pub pages: nat,
}

/// The state with another stage.
pub open spec fn at_stage(state: RebuildView, stage: Stage) -> RebuildView {
    RebuildView { stage, ..state }
}

/// The path of the page of a post, below the output root.
pub open spec fn page_path(slug: Seq<char>) -> Seq<char> {
    "blog/"@ + slug + ".html"@
}

/// The step that follows the making of a render job: the page is to be
/// rendered for `path` and the pass goes on to `stage`, or the error ends
/// the pass.
pub open spec fn render_or_fail(
    state: RebuildView,
    stage: Stage,
    path: Seq<char>,
    job: Result<RenderJobView, SiteErrorView>,
) -> (RebuildView, StepView) {
    match job {
        Ok(job) => (at_stage(state, stage), StepView::Render { job, path }),
        Err(error) => (at_stage(state, Stage::Failed), StepView::Failed(error)),
    }
}

/// The next step of a pass, and the state behind it. The three walks come
/// first; then the index, the list, and one page for each post in the order
/// of the registry. A pass that is finished or has failed stays as it is.
pub open spec fn next_of(state: RebuildView) -> (RebuildView, StepView) {
    match state.stage {
        Stage::Start => (at_stage(state, Stage::Templates), StepView::Walk("templates"@)),
        Stage::Templates => (at_stage(state, Stage::Posts), StepView::Walk("blog"@)),
        Stage::Posts => (at_stage(state, Stage::Stylesheets), StepView::Walk("css"@)),
        Stage::Stylesheets => render_or_fail(
            state,
            Stage::Index,
            "index.html"@,
            index_job(state.templates, state.posts),
        ),
        Stage::Index => render_or_fail(
            state,
            Stage::List,
            "blog-list.html"@,
            list_job(state.templates, state.posts),
        ),
        Stage::List | Stage::Pages => if state.pages < state.posts.len() {
            render_or_fail(
                RebuildView { pages: state.pages + 1, ..state },
                Stage::Pages,
                page_path(state.posts[state.pages as int].url_friendly_name),
                post_job(state.templates, state.posts[state.pages as int]),
            )
        } else {
            (at_stage(state, Stage::Finished), StepView::Done)
        },
        Stage::Finished | Stage::Failed => (state, StepView::Done),
    }
}

/// How a pass takes in a file that a walk has found, and what that yields.
/// A template source is registered under the file's name. A post source is
/// parsed and the post is added to the registry. A stylesheet source yields
/// the job of compiling it: the source as it stands, to compressed CSS, for
/// the file's name followed by `.css`. An error ends the pass. Outside the
/// three walks nothing is taken in.
pub open spec fn file_of(state: RebuildView, name: Seq<char>, content: Seq<char>) -> (
    RebuildView,
    Result<Option<CompileJobView>, SiteErrorView>,
) {
    match state.stage {
        Stage::Templates => if accepts(name, content) {
            (RebuildView { templates: state.templates.insert(name, content), ..state }, Ok(None))
        } else {
            (at_stage(state, Stage::Failed), Err(rejection(name, content)))
        },
        Stage::Posts => match parsed(content) {
            Ok(post) => (RebuildView { posts: with_post(state.posts, post), ..state }, Ok(None)),
            Err(error) => (at_stage(state, Stage::Failed), Err(error)),
        },
        Stage::Stylesheets => (state, Ok(Some(job_of(name, content)))),
        _ => (state, Ok(None)),
    }
}

/// The file to write, or the error that ends the pass, from a file or an
/// error that the compiler or the renderer led to.
pub open spec fn written_or_failed(state: RebuildView, output: Result<OutputView, SiteErrorView>) -> (
    RebuildView,
    Result<Option<OutputView>, SiteErrorView>,
) {
    match output {
        Ok(file) => (state, Ok(Some(file))),
        Err(error) => (at_stage(state, Stage::Failed), Err(error)),
    }
}

/// How a pass takes in what the compiler gave for a stylesheet: the CSS is
/// to be written to the job's path, and an error ends the pass. Outside the
/// walk of the stylesheets nothing is written.
pub open spec fn compiled_of(
    state: RebuildView,
    path: Seq<char>,
    compiled: Result<Seq<char>, Seq<char>>,
) -> (RebuildView, Result<Option<OutputView>, SiteErrorView>) {
    if state.stage == Stage::Stylesheets {
        written_or_failed(state, output_of(path, compiled))
    } else {
        (state, Ok(None))
    }
}

/// How a pass takes in what the renderer gave for a page: the page is to
/// be written to its path, and an error ends the pass. Where no page is
/// being rendered nothing is written.
pub open spec fn rendered_of(
    state: RebuildView,
    path: Seq<char>,
    rendered: Result<Seq<char>, Seq<char>>,
) -> (RebuildView, Result<Option<OutputView>, SiteErrorView>) {
    if state.stage == Stage::Index || state.stage == Stage::List || state.stage == Stage::Pages {
        written_or_failed(state, page_of(path, rendered))
    } else {
        (state, Ok(None))
    }
}

/// What taking in a file yields, as sequences of characters.
pub open spec fn job_view(r: Result<Option<CompileJob>, SiteError>) -> Result<
    Option<CompileJobView>,
    SiteErrorView,
> {
    match r {
        Ok(Some(job)) => Ok(Some(job@)),
        Ok(None) => Ok(None),
        Err(e) => Err(e@),
    }
}

/// What taking in an outcome yields, as sequences of characters.
pub open spec fn file_view(r: Result<Option<OutputFile>, SiteError>) -> Result<
    Option<OutputView>,
    SiteErrorView,
> {
    match r {
        Ok(Some(file)) => Ok(Some(file@)),
        Ok(None) => Ok(None),
        Err(e) => Err(e@),
    }
}

/// A pass that has failed hands out nothing more and takes in nothing
/// more: no step, no job, and no file to write, whatever it is handed.
pub proof fn lemma_failed_pass_is_over(state: RebuildView)
    requires
        state.stage == Stage::Failed,
    ensures
        next_of(state) == (state, StepView::Done),
        forall|name: Seq<char>, content: Seq<char>| #[trigger]
            file_of(state, name, content) == (
                state,
                Ok::<Option<CompileJobView>, SiteErrorView>(None),
            ),
        forall|path: Seq<char>, compiled: Result<Seq<char>, Seq<char>>| #[trigger]
            compiled_of(state, path, compiled) == (
                state,
                Ok::<Option<OutputView>, SiteErrorView>(None),
            ),
        forall|path: Seq<char>, rendered: Result<Seq<char>, Seq<char>>| #[trigger]
            rendered_of(state, path, rendered) == (
                state,
                Ok::<Option<OutputView>, SiteErrorView>(None),
            ),
{
}

/// A pass in which no template is registered under `index` fails when the
/// index is due, whatever the posts are, and is over from then on: neither
/// the index, nor the list, nor the page of any post is rendered or
/// written.
pub proof fn lemma_missing_index_ends_the_pass(state: RebuildView)
    requires
        state.stage == Stage::Stylesheets,
        !state.templates.contains_key("index"@),
    ensures
        next_of(state).1 is Failed,
        next_of(state).0 == at_stage(state, Stage::Failed),
        next_of(next_of(state).0) == (next_of(state).0, StepView::Done),
{
}

/// Taking in a file under another name than `index` does not register a
/// template under `index`: a pass whose template sources hold none under
/// that name comes to the index without it.
pub proof fn lemma_index_stays_missing(state: RebuildView, name: Seq<char>, content: Seq<char>)
    requires
        !state.templates.contains_key("index"@),
        name != "index"@,
    ensures
        !file_of(state, name, content).0.templates.contains_key("index"@),
{
}

/// During the walk of the stylesheets a file that is found yields the job
/// of compiling its content as it stands to compressed CSS, for the file's
/// name followed by `.css`; the CSS that the compiler gives for it is to be
/// written to that path as it stands, and the pass stays as it was.
pub proof fn lemma_stylesheet_is_compiled_compressed(
    state: RebuildView,
    name: Seq<char>,
    content: Seq<char>,
    css: Seq<char>,
)
    requires
        state.stage == Stage::Stylesheets,
    ensures
        file_of(state, name, content) == (
            state,
            Ok::<Option<CompileJobView>, SiteErrorView>(
                Some(
                    CompileJobView {
                        source: content,
                        style: crate::stylesheet::OutputStyle::Compressed,
                        path: name + ".css"@,
                    },
                ),
            ),
        ),
        compiled_of(state, name + ".css"@, Ok(css)) == (
            state,
            Ok::<Option<OutputView>, SiteErrorView>(
                Some(OutputView { path: name + ".css"@, content: css }),
            ),
        ),
{
}

/// A build pass.
pub struct Rebuild {
    stage: Stage,
    templates: Templates,
    blogs: BlogReader,
    pages: usize,
}

impl View for Rebuild {
    type V = RebuildView;

    closed spec fn view(&self) -> RebuildView {
        RebuildView {
            stage: self.stage,
            templates: self.templates.sources(),
            strict: self.templates.strict_mode(),
            posts: self.blogs@,
            pages: self.pages as nat,
        }
    }
}

impl Rebuild {
    /// A pass at its start: the built-in templates in strict mode, and no
    /// posts.
    pub fn new() -> (pass: Rebuild)
        ensures
            pass@ == (RebuildView {
                stage: Stage::Start,
                templates: crate::template::builtin_templates(),
                strict: true,
                posts: Seq::empty(),
                pages: 0,
            }),
    {
        Rebuild { stage: Stage::Start, templates: Templates::new(), blogs: BlogReader::new(), pages: 0 }
    }

    /// The stage of the pass.
    pub fn stage(&self) -> (stage: Stage)
        ensures
            stage == self@.stage,
    {
        self.stage
    }

    /// The templates of the pass, for the renderer.
    pub fn templates(&self) -> (templates: &Templates)
        ensures
            templates.sources() == self@.templates,
            templates.strict_mode() == self@.strict,
    {
        &self.templates
    }

    /// The next step. It is asked for at the start, when a walk is over,
    /// and when the page of a render job has been written.
    pub fn next(&mut self) -> (step: Step)
        ensures
            (final(self)@, step@) == next_of(old(self)@),
    {
        match self.stage {
            Stage::Start => {
                self.stage = Stage::Templates;
                Step::Walk(String::from_str("templates"))
            },
            Stage::Templates => {
                self.stage = Stage::Posts;
                Step::Walk(String::from_str("blog"))
            },
            Stage::Posts => {
                self.stage = Stage::Stylesheets;
                Step::Walk(String::from_str("css"))
            },
            Stage::Stylesheets => {
                let job = self.templates.render_index(self.blogs.get_blogs());
                self.render_or_fail(Stage::Index, String::from_str("index.html"), job)
            },
            Stage::Index => {
                let job = self.templates.render_blog_list(self.blogs.get_blogs());
                self.render_or_fail(Stage::List, String::from_str("blog-list.html"), job)
            },
            Stage::List | Stage::Pages => {
                let blogs = self.blogs.get_blogs();
                if self.pages < blogs.len() {
                    let blog = &blogs[self.pages];
                    let mut path = String::from_str("blog/");
                    path.append(blog.url_friendly_name.as_str());
                    path.append(".html");
                    let job = self.templates.render_blog(blog);
                    self.pages = self.pages + 1;
                    self.render_or_fail(Stage::Pages, path, job)
                } else {
                    self.stage = Stage::Finished;
                    Step::Done
                }
            },
            Stage::Finished | Stage::Failed => Step::Done,
        }
    }

    /// Goes on to `stage` with the page to render for `path`, or ends the
    /// pass with the error.
    fn render_or_fail(&mut self, stage: Stage, path: String, job: Result<RenderJob, SiteError>) -> (step:
        Step)
        ensures
            final(self)@ == at_stage(
                old(self)@,
                match job {
                    Ok(_) => stage,
                    Err(_) => Stage::Failed,
                },
            ),
            match job {
                Ok(job) => step@ == (StepView::Render { job: job@, path: path@ }),
                Err(e) => step@ == StepView::Failed(e@),
            },
    {
        match job {
            Ok(job) => {
                self.stage = stage;
                Step::Render { job, path }
            },
            Err(e) => {
                self.stage = Stage::Failed;
                Step::Failed(e)
            },
        }
    }

    /// Takes in a file that the walk of the current stage has found, under
    /// its logical name. `Ok` with a job asks the caller to run the compiler
    /// on it and to hand what it gives to `compiled`. An error ends the
    /// pass.
    pub fn file(&mut self, name: String, content: String) -> (r: Result<Option<CompileJob>, SiteError>)
        ensures
            (final(self)@, job_view(r)) == file_of(old(self)@, name@, content@),
    {
        match self.stage {
            Stage::Templates => match self.templates.ingest(name.as_str(), content.as_str()) {
                Ok(()) => Ok(None),
                Err(e) => {
                    self.stage = Stage::Failed;
                    Err(e)
                },
            },
            Stage::Posts => match self.blogs.ingest(content) {
                Ok(()) => Ok(None),
                Err(e) => {
                    self.stage = Stage::Failed;
                    Err(e)
                },
            },
            Stage::Stylesheets => Ok(Some(stylesheet_job(name.as_str(), content))),
            _ => Ok(None),
        }
    }

    /// Takes in what the compiler gave for a job: the CSS, or the text of
    /// its error. `Ok` with a file asks the caller to write it. An error
    /// ends the pass.
    pub fn compiled(&mut self, job: &CompileJob, compiled: Result<String, String>) -> (r: Result<
        Option<OutputFile>,
        SiteError,
    >)
        ensures
            (final(self)@, file_view(r)) == compiled_of(
                old(self)@,
                job.path@,
                outcome_view(compiled),
            ),
    {
        match self.stage {
            Stage::Stylesheets => {
                let output = stylesheet_output(job, compiled);
                self.write_or_fail(output)
            },
            _ => Ok(None),
        }
    }

    /// Takes in what the renderer gave for the job of the last step: the
    /// page, or the text of its error. `Ok` with a file asks the caller to
    /// write it. An error ends the pass.
    pub fn rendered(&mut self, path: String, rendered: Result<String, String>) -> (r: Result<
        Option<OutputFile>,
        SiteError,
    >)
        ensures
            (final(self)@, file_view(r)) == rendered_of(
                old(self)@,
                path@,
                outcome_view(rendered),
            ),
    {
        match self.stage {
            Stage::Index | Stage::List | Stage::Pages => {
                let output = page_output(path, rendered);
                self.write_or_fail(output)
            },
            _ => Ok(None),
        }
    }

    /// Hands on the file to write, or ends the pass with the error.
    fn write_or_fail(&mut self, output: Result<OutputFile, SiteError>) -> (r: Result<
        Option<OutputFile>,
        SiteError,
    >)
        ensures
            match output {
                Ok(file) => final(self)@ == old(self)@ && file_view(r) == Ok::<
                    Option<OutputView>,
                    SiteErrorView,
                >(Some(file@)),
                Err(e) => final(self)@ == at_stage(old(self)@, Stage::Failed) && file_view(r)
                    == Err::<Option<OutputView>, SiteErrorView>(e@),
            },
    {
        match output {
            Ok(file) => Ok(Some(file)),
            Err(e) => {
                self.stage = Stage::Failed;
                Err(e)
            },
        }
    }
}

} // verus!
