//! The template store: named templates, the view models that the pages are
//! rendered from, and what is handed to the renderer for the index, the
//! list and the post pages. A template may include others, and rendering
//! templates that include each other does not end: the caller runs the
//! renderer and hands back what it gave.

use crate::blog::{views, Blog, BlogView};
use crate::date::date_string;
use crate::error::{error_of, EmptyResult, ErrorKind, SiteError, SiteErrorView};
use crate::stylesheet::{outcome_view, OutputFile, OutputView};
use handlebars::Handlebars;
use vstd::prelude::*;

verus! {

/// The template registry of handlebars. What it holds is known through
/// `registered` and `strict` only.
#[verifier::external_type_specification]
#[verifier::external_body]
pub struct ExHandlebars<'reg>(Handlebars<'reg>);

/// One value of the data that a template is rendered with.
#[derive(Debug)]
pub enum Field {
    /// A text.
    Text(String),
    /// A list of records, each a list of named texts.
    Rows(Vec<Vec<(String, String)>>),
}

/// A record with its names and texts as sequences of characters.
pub open spec fn row_view(row: Seq<(String, String)>) -> Seq<(Seq<char>, Seq<char>)> {
    Seq::new(row.len(), |i: int| (row[i].0@, row[i].1@))
}

/// A list of records with their names and texts as sequences of characters.
pub open spec fn rows_view(rows: Seq<Vec<(String, String)>>) -> Seq<Seq<(Seq<char>, Seq<char>)>> {
    Seq::new(rows.len(), |i: int| row_view(rows[i]@))
}

/// A `Field` with its texts as sequences of characters.
pub enum FieldView {
    Text(Seq<char>),
    Rows(Seq<Seq<(Seq<char>, Seq<char>)>>),
}

impl View for Field {
    type V = FieldView;

    open spec fn view(&self) -> FieldView {
        match self {
            Field::Text(text) => FieldView::Text(text@),
            Field::Rows(rows) => FieldView::Rows(rows_view(rows@)),
        }
    }
}

/// Named values with their names and texts as sequences of characters.
pub open spec fn data_view(data: Seq<(String, Field)>) -> Seq<(Seq<char>, FieldView)> {
    Seq::new(data.len(), |i: int| (data[i].0@, data[i].1@))
}


/// The templates of a registry: the source registered under each name.
pub uninterp spec fn registered(registry: Handlebars<'static>) -> Map<Seq<char>, Seq<char>>;

/// Whether a registry renders in strict mode, in which a reference to a
/// value that the data does not hold is an error.
pub uninterp spec fn strict(registry: Handlebars<'static>) -> bool;

/// The text of the error of handlebars for a template source that it does
/// not accept under a name; `None` for a source that it accepts.
pub uninterp spec fn template_error(name: Seq<char>, source: Seq<char>) -> Option<Seq<char>>;

/// `Handlebars::new`: a registry without templates, not in strict mode.
#[verifier::external_body]
fn new_registry() -> (registry: Handlebars<'static>)
    ensures
        registered(registry) =~= Map::empty(),
        !strict(registry),
{
    Handlebars::new()
}

/// `Handlebars::set_strict_mode`: sets the mode and leaves the templates.
#[verifier::external_body]
fn set_strict_mode(registry: &mut Handlebars<'static>, enable: bool)
    ensures
        strict(*final(registry)) == enable,
        registered(*final(registry)) == registered(*old(registry)),
{
    registry.set_strict_mode(enable)
}

/// `Handlebars::register_template_string`: compiles the source and, where
/// it is accepted, registers it under the name, in place of what was
/// registered there. A source that is not accepted leaves the registry as it
/// was. The contract names the text of the error, and claims that a source
/// without an opening brace is accepted: it holds no tag.
#[verifier::external_body]
fn register_template_string(registry: &mut Handlebars<'static>, name: &str, source: &str) -> (r:
    Result<(), String>)
    ensures
        match r {
            Ok(_) => (!source@.contains('{') || template_error(name@, source@) is None)
                && registered(*final(registry)) == registered(*old(registry)).insert(
                name@,
                source@,
            ),
            Err(cause) => source@.contains('{') && template_error(name@, source@) == Some(cause@)
                && registered(*final(registry)) == registered(*old(registry)),
        },
        strict(*final(registry)) == strict(*old(registry)),
{
    registry.register_template_string(name, source).map_err(|e| e.to_string())
}

/// `Handlebars::has_template`: whether a template is registered under the
/// name.
#[verifier::external_body]
fn has_template(registry: &Handlebars<'static>, name: &str) -> (r: bool)
    ensures
        r == registered(*registry).contains_key(name@),
{
    registry.has_template(name)
}

/// The summary of a post, as the index and the list show it.
#[derive(Debug)]
pub struct Summary {
    pub title: String,
    pub descr: String,
    pub date_rendered: String,
    pub href: String,
}

/// A `Summary` with its texts as sequences of characters.
pub struct SummaryView {
    pub title: Seq<char>,
    pub descr: Seq<char>,
    pub date_rendered: Seq<char>,
    pub href: Seq<char>,
}

impl View for Summary {
    type V = SummaryView;

    open spec fn view(&self) -> SummaryView {
        SummaryView {
            title: self.title@,
            descr: self.descr@,
            date_rendered: self.date_rendered@,
            href: self.href@,
        }
    }
}

/// The views of a sequence of summaries, in the same order.
pub open spec fn summary_views(summaries: Seq<Summary>) -> Seq<SummaryView> {
    Seq::new(summaries.len(), |i: int| summaries[i]@)
}

/// The address of a post's page: `/blog/`, the slug, and `.html`.
pub open spec fn href_of(slug: Seq<char>) -> Seq<char> {
    "/blog/"@ + slug + ".html"@
}

/// The summary of a post: its title and description, its date written
/// out as `date_string` says, and the address of its page.
pub open spec fn summary_of(post: BlogView) -> SummaryView {
    SummaryView {
        title: post.title,
        descr: post.descr,
        date_rendered: date_string(post.date),
        href: href_of(post.url_friendly_name),
    }
}

/// The summaries of a sequence of posts, in the same order.
pub open spec fn summaries_of(posts: Seq<BlogView>) -> Seq<SummaryView> {
    Seq::new(posts.len(), |i: int| summary_of(posts[i]))
}

/// The number of posts that the index shows at most.
pub const INDEX_POSTS: usize = 5;

/// The posts that the index shows: the first five, or all where there are
/// fewer.
pub open spec fn index_posts(posts: Seq<BlogView>) -> Seq<BlogView> {
    posts.take(if posts.len() <= INDEX_POSTS { posts.len() as int } else { INDEX_POSTS as int })
}

/// The index shows as many posts as there are, up to five; they are the
/// first posts of the registry in their order, so the most recent ones,
/// newest first, where the registry is ordered so.
pub proof fn lemma_index_posts(posts: Seq<BlogView>)
    ensures
        index_posts(posts).len() == if posts.len() <= 5 { posts.len() } else { 5 },
        forall|i: int| 0 <= i < index_posts(posts).len() ==> index_posts(posts)[i] == posts[i],
        crate::blog::newest_first(posts) ==> crate::blog::newest_first(index_posts(posts)),
        crate::blog::newest_first(posts) ==> forall|i: int, j: int|
            0 <= i < index_posts(posts).len() <= j < posts.len() ==> !posts[i].date.earlier(
                posts[j].date,
            ),
{
}

/// The summary of one post.
pub fn summarize(blog: &Blog) -> (summary: Summary)
    ensures
        summary@ == summary_of(blog@),
{
    let mut href = String::from_str("/blog/");
    href.append(blog.url_friendly_name.as_str());
    href.append(".html");
    Summary {
        title: blog.title.clone(),
        descr: blog.descr.clone(),
        date_rendered: blog.date.to_string(),
        href,
    }
}

/// The summaries of the first `count` posts, in their order.
fn first_summaries(blogs: &[Blog], count: usize) -> (summaries: Vec<Summary>)
    requires
        count <= blogs.len(),
    ensures
        summary_views(summaries@) == summaries_of(views(blogs@).take(count as int)),
{
    let mut summaries: Vec<Summary> = Vec::new();
    let mut i: usize = 0;
    while i < count
        invariant
            i <= count <= blogs.len(),
            summaries.len() == i,
            forall|j: int| 0 <= j < i ==> summaries[j]@ == summary_of(blogs[j]@),
        decreases count - i,
    {
        summaries.push(summarize(&blogs[i]));
        i = i + 1;
    }
    assert(summary_views(summaries@) =~= summaries_of(views(blogs@).take(count as int)));
    summaries
}

/// The summaries of the posts, in their order.
pub fn blogs_to_summary_render_datas(blogs: &[Blog]) -> (summaries: Vec<Summary>)
    ensures
        summary_views(summaries@) == summaries_of(views(blogs@)),
{
    assert(views(blogs@).take(blogs.len() as int) =~= views(blogs@));
    first_summaries(blogs, blogs.len())
}

/// The summaries that the index shows. With no post there is no index:
/// the error is `EmptyPostList`.
pub fn index_summaries(blogs: &[Blog]) -> (r: Result<Vec<Summary>, SiteError>)
    ensures
        match r {
            Ok(summaries) => blogs.len() > 0 && summary_views(summaries@) == summaries_of(
                index_posts(views(blogs@)),
            ),
            Err(e) => blogs.len() == 0 && e.kind == ErrorKind::EmptyPostList && e.msg@
                == "No blog summaries"@,
        },
{
    if blogs.len() == 0 {
        return Err(SiteError::new(ErrorKind::EmptyPostList, String::from_str("No blog summaries")));
    }
    let shown: usize = if blogs.len() <= INDEX_POSTS { blogs.len() } else { INDEX_POSTS };
    Ok(first_summaries(blogs, shown))
}

/// The record that a template sees for a summary.
pub open spec fn summary_row(summary: SummaryView) -> Seq<(Seq<char>, Seq<char>)> {
    seq![
        ("title"@, summary.title),
        ("descr"@, summary.descr),
        ("date_rendered"@, summary.date_rendered),
        ("href"@, summary.href),
    ]
}

/// The data that the index and the list are rendered with: the summaries,
/// under the name `blog_summaries`.
pub open spec fn listing_data(summaries: Seq<SummaryView>) -> Seq<(Seq<char>, FieldView)> {
    seq![
        (
            "blog_summaries"@,
            FieldView::Rows(Seq::new(summaries.len(), |i: int| summary_row(summaries[i]))),
        ),
    ]
}

/// The data that the page of a post is rendered with: its body, its
/// description, its date written out, and its title.
pub open spec fn post_data(post: BlogView) -> Seq<(Seq<char>, FieldView)> {
    seq![
        ("content"@, FieldView::Text(post.content)),
        ("descr"@, FieldView::Text(post.descr)),
        ("date"@, FieldView::Text(date_string(post.date))),
        ("title"@, FieldView::Text(post.title)),
    ]
}

/// The record of one summary.
fn summary_to_row(summary: &Summary) -> (row: Vec<(String, String)>)
    ensures
        row_view(row@) == summary_row(summary@),
{
    let mut row: Vec<(String, String)> = Vec::new();
    row.push((String::from_str("title"), summary.title.clone()));
    row.push((String::from_str("descr"), summary.descr.clone()));
    row.push((String::from_str("date_rendered"), summary.date_rendered.clone()));
    row.push((String::from_str("href"), summary.href.clone()));
    assert(row_view(row@) =~= summary_row(summary@));
    row
}

/// The data of a listing of summaries.
pub fn summaries_to_data(summaries: &Vec<Summary>) -> (data: Vec<(String, Field)>)
    ensures
        data_view(data@) == listing_data(summary_views(summaries@)),
{
    let mut rows: Vec<Vec<(String, String)>> = Vec::new();
    let mut i: usize = 0;
    while i < summaries.len()
        invariant
            i <= summaries.len(),
            rows.len() == i,
            forall|j: int| 0 <= j < i ==> row_view(rows[j]@) == summary_row(summaries[j]@),
        decreases summaries.len() - i,
    {
        rows.push(summary_to_row(&summaries[i]));
        i = i + 1;
    }
    assert(rows_view(rows@) =~= Seq::new(
        summaries.len() as nat,
        |i: int| summary_row(summary_views(summaries@)[i]),
    ));
    let mut data: Vec<(String, Field)> = Vec::new();
    data.push((String::from_str("blog_summaries"), Field::Rows(rows)));
    assert(data_view(data@) =~= listing_data(summary_views(summaries@)));
    data
}

/// The data of the page of a post.
pub fn blog_to_data(blog: &Blog) -> (data: Vec<(String, Field)>)
    ensures
        data_view(data@) == post_data(blog@),
{
    let mut data: Vec<(String, Field)> = Vec::new();
    data.push((String::from_str("content"), Field::Text(blog.content.clone())));
    data.push((String::from_str("descr"), Field::Text(blog.descr.clone())));
    data.push((String::from_str("date"), Field::Text(blog.date.to_string())));
    data.push((String::from_str("title"), Field::Text(blog.title.clone())));
    assert(data_view(data@) =~= post_data(blog@));
    data
}

/// Whether a template source is accepted for registration: one without an

/// What is handed to the renderer: the name of a registered template,
/// and the data that it is rendered with.
#[derive(Debug)]
pub struct RenderJob {
    pub template: String,
    pub data: Vec<(String, Field)>,
}

/// A `RenderJob` with its texts as sequences of characters.
pub struct RenderJobView {
    pub template: Seq<char>,
    pub data: Seq<(Seq<char>, FieldView)>,
}

impl View for RenderJob {
    type V = RenderJobView;

    open spec fn view(&self) -> RenderJobView {
        RenderJobView { template: self.template@, data: data_view(self.data@) }
    }
}

/// Whether a template source is accepted for registration under a name:
/// one without an opening brace always is.
pub open spec fn accepts(name: Seq<char>, source: Seq<char>) -> bool {
    !source.contains('{') || template_error(name, source) is None
}

/// The error for a source that is not accepted: a `TemplateSyntaxError`
/// whose message holds the text of the error of handlebars.
pub open spec fn rejection(name: Seq<char>, source: Seq<char>) -> SiteErrorView {
    error_of(ErrorKind::TemplateSyntaxError, "Template: "@ + template_error(name, source)->0)
}

/// The job of rendering the template registered under `name`. Where none
/// is registered under it there is nothing to render, and the error says
/// so.
pub open spec fn job_for(
    templates: Map<Seq<char>, Seq<char>>,
    name: Seq<char>,
    data: Seq<(Seq<char>, FieldView)>,
) -> Result<RenderJobView, SiteErrorView> {
    if templates.contains_key(name) {
        Ok(RenderJobView { template: name, data })
    } else {
        Err(error_of(ErrorKind::UndefinedTemplateVariable, "Template not found: "@ + name))
    }
}

/// The job of rendering the index from the posts of a registry: with no
/// post it fails with `EmptyPostList`; else it is the template `index` with
/// the summaries of the first five posts at most.
pub open spec fn index_job(templates: Map<Seq<char>, Seq<char>>, posts: Seq<BlogView>) -> Result<
    RenderJobView,
    SiteErrorView,
> {
    if posts.len() == 0 {
        Err(error_of(ErrorKind::EmptyPostList, "No blog summaries"@))
    } else {
        job_for(templates, "index"@, listing_data(summaries_of(index_posts(posts))))
    }
}

/// The job of rendering the list of all posts: the template `blog-list`
/// with the summaries of all of them. No post is needed.
pub open spec fn list_job(templates: Map<Seq<char>, Seq<char>>, posts: Seq<BlogView>) -> Result<
    RenderJobView,
    SiteErrorView,
> {
    job_for(templates, "blog-list"@, listing_data(summaries_of(posts)))
}

/// The job of rendering the page of a post: the template `blog` with the
/// post.
pub open spec fn post_job(templates: Map<Seq<char>, Seq<char>>, post: BlogView) -> Result<
    RenderJobView,
    SiteErrorView,
> {
    job_for(templates, "blog"@, post_data(post))
}

/// What becomes of a page once the renderer has run: the page is to be
/// written to `path`; an error of the renderer, given by its text, becomes
/// an `UndefinedTemplateVariable` whose message holds that text.
pub open spec fn page_of(path: Seq<char>, rendered: Result<Seq<char>, Seq<char>>) -> Result<
    OutputView,
    SiteErrorView,
> {
    match rendered {
        Ok(html) => Ok(OutputView { path, content: html }),
        Err(cause) => Err(error_of(ErrorKind::UndefinedTemplateVariable, "Render: "@ + cause)),
    }
}

/// The file to write for a page, from what the renderer gave for it.
pub fn page_output(path: String, rendered: Result<String, String>) -> (r: Result<
    OutputFile,
    SiteError,
>)
    ensures
        match r {
            Ok(file) => page_of(path@, outcome_view(rendered)) == Ok::<OutputView, SiteErrorView>(
                file@,
            ),
            Err(e) => page_of(path@, outcome_view(rendered)) == Err::<OutputView, SiteErrorView>(
                e@,
            ),
        },
{
    match rendered {
        Ok(html) => Ok(OutputFile { path, content: html }),
        Err(cause) => Err(
            SiteError::with_detail(ErrorKind::UndefinedTemplateVariable, "Render: ", cause.as_str()),
        ),
    }
}

/// The templates that every store holds from the start: the addresses of
/// the pages and profiles that the site links to.
pub open spec fn builtin_templates() -> Map<Seq<char>, Seq<char>> {
    Map::<Seq<char>, Seq<char>>::empty().insert("link-about"@, "/about.html"@).insert(
        "link-resume"@,
        "/static/resume.pdf"@,
    ).insert("link-blog"@, "/blog-list.html"@).insert(
        "link-linkedin"@,
        "https://www.linkedin.com/in/billliu1992/"@,
    ).insert("link-github"@, "https://github.com/billliu1992"@).insert(
        "link-twitter"@,
        "https://twitter.com/bill_liu_il/"@,
    )
}

/// The built-in templates are links only: none of them is the template of
/// the index, of the list or of a post's page.
pub proof fn lemma_builtin_templates_are_links()
    ensures
        !builtin_templates().contains_key("index"@),
        !builtin_templates().contains_key("blog-list"@),
        !builtin_templates().contains_key("blog"@),
{
    reveal_strlit("index");
    reveal_strlit("blog-list");
    reveal_strlit("blog");
    reveal_strlit("link-about");
    reveal_strlit("link-resume");
    reveal_strlit("link-blog");
    reveal_strlit("link-linkedin");
    reveal_strlit("link-github");
    reveal_strlit("link-twitter");
    assert("index"@.len() == 5);
    assert("blog-list"@[0] == 'b');
    assert("blog"@.len() == 4);
}

/// Registering a second source under a name leaves the store as if only
/// the second had been registered: the first is replaced, not kept beside

/// Registering a second source under a name leaves the store as if only
/// the second had been registered: the first is replaced, not kept beside
/// it, the name stands for the second, and every job is the same as with
/// the second alone.
pub proof fn lemma_register_overwrites(
    templates: Map<Seq<char>, Seq<char>>,
    name: Seq<char>,
    first: Seq<char>,
    second: Seq<char>,
    rendered_name: Seq<char>,
    data: Seq<(Seq<char>, FieldView)>,
)
    ensures
        templates.insert(name, first).insert(name, second) == templates.insert(name, second),
        templates.insert(name, first).insert(name, second)[name] == second,
        job_for(templates.insert(name, first).insert(name, second), rendered_name, data)
            == job_for(templates.insert(name, second), rendered_name, data),
{
    assert(templates.insert(name, first).insert(name, second) =~= templates.insert(name, second));
}

/// The named templates of one build pass.
pub struct Templates {
    handlebars: Handlebars<'static>,
}

impl Templates {
    /// The source registered under each name.
    pub closed spec fn sources(&self) -> Map<Seq<char>, Seq<char>> {
        registered(self.handlebars)
    }

    /// Whether a reference to a value that the data lacks is an error.
    pub closed spec fn strict_mode(&self) -> bool {
        strict(self.handlebars)
    }

    /// A store in strict mode that holds the built-in templates.
    pub fn new() -> (templates: Templates)
        ensures
            templates.sources() == builtin_templates(),
            templates.strict_mode(),
    {
        let mut handlebars = new_registry();
        set_strict_mode(&mut handlebars, true);
        let mut templates = Templates { handlebars };
        proof {
            reveal_strlit("/about.html");
            reveal_strlit("/static/resume.pdf");
            reveal_strlit("/blog-list.html");
            reveal_strlit("https://www.linkedin.com/in/billliu1992/");
            reveal_strlit("https://github.com/billliu1992");
            reveal_strlit("https://twitter.com/bill_liu_il/");
        }
        templates.builtin("link-about", "/about.html");
        templates.builtin("link-resume", "/static/resume.pdf");
        templates.builtin("link-blog", "/blog-list.html");
        templates.builtin("link-linkedin", "https://www.linkedin.com/in/billliu1992/");
        templates.builtin("link-github", "https://github.com/billliu1992");
        templates.builtin("link-twitter", "https://twitter.com/bill_liu_il/");
        assert(templates.sources() =~= builtin_templates());
        templates
    }

    /// Registers a source that holds no opening brace, which is always
    /// accepted.
    fn builtin(&mut self, name: &str, source: &str)
        requires
            !source@.contains('{'),
        ensures
            final(self).sources() == old(self).sources().insert(name@, source@),
            final(self).strict_mode() == old(self).strict_mode(),
    {
        let _ = register_template_string(&mut self.handlebars, name, source);
    }

    /// The registry, for the renderer: it holds the sources of the store
    /// and has its mode.
    pub fn handlebars(&self) -> (registry: &Handlebars<'static>)
        ensures
            registered(*registry) == self.sources(),
            strict(*registry) == self.strict_mode(),
    {
        &self.handlebars
    }

    /// Whether a template is registered under the name.
    pub fn has_template(&self, name: &str) -> (r: bool)
        ensures
            r == self.sources().contains_key(name@),
    {
        has_template(&self.handlebars, name)
    }

    /// Registers a template under a name, in place of the one that was
    /// registered there. A source that is not accepted leaves the store as
    /// it was; the error is a `TemplateSyntaxError` with the cause.
    pub fn ingest(&mut self, title: &str, content: &str) -> (r: EmptyResult)
        ensures
            match r {
                Ok(_) => accepts(title@, content@)
                    && final(self).sources() == old(self).sources().insert(title@, content@),
                Err(e) => !accepts(title@, content@) && e@ == rejection(title@, content@)
                    && final(self).sources() == old(self).sources(),
            },
            final(self).strict_mode() == old(self).strict_mode(),
    {
        match register_template_string(&mut self.handlebars, title, content) {
            Ok(()) => Ok(()),
            Err(cause) => Err(
                SiteError::with_detail(ErrorKind::TemplateSyntaxError, "Template: ", cause.as_str()),
            ),
        }
    }

    /// The job of rendering the template registered under `name` with the
    /// data.
    fn job(&self, name: &str, data: Vec<(String, Field)>) -> (r: Result<RenderJob, SiteError>)
        ensures
            match r {
                Ok(job) => job_for(self.sources(), name@, data_view(data@)) == Ok::<
                    RenderJobView,
                    SiteErrorView,
                >(job@),
                Err(e) => job_for(self.sources(), name@, data_view(data@)) == Err::<
                    RenderJobView,
                    SiteErrorView,
                >(e@),
            },
    {
        if has_template(&self.handlebars, name) {
            Ok(RenderJob { template: String::from_str(name), data })
        } else {
            Err(
                SiteError::with_detail(
                    ErrorKind::UndefinedTemplateVariable,
                    "Template not found: ",
                    name,
                ),
            )
        }
    }

    /// What is handed to the renderer for the index: the template `index`
    /// with the summaries of the five most recent posts at most. With no
    /// post it fails with `EmptyPostList`; without the template it fails
    /// too.
    pub fn render_index(&self, blogs: &[Blog]) -> (r: Result<RenderJob, SiteError>)
        ensures
            match r {
                Ok(job) => index_job(self.sources(), views(blogs@)) == Ok::<
                    RenderJobView,
                    SiteErrorView,
                >(job@),
                Err(e) => index_job(self.sources(), views(blogs@)) == Err::<
                    RenderJobView,
                    SiteErrorView,
                >(e@),
            },
    {
        let summaries = index_summaries(blogs)?;
        let data = summaries_to_data(&summaries);
        self.job("index", data)
    }

    /// What is handed to the renderer for the list of all posts: the
    /// template `blog-list` with the summaries of all of them. No post is
    /// needed.
    pub fn render_blog_list(&self, blogs: &[Blog]) -> (r: Result<RenderJob, SiteError>)
        ensures
            match r {
                Ok(job) => list_job(self.sources(), views(blogs@)) == Ok::<
                    RenderJobView,
                    SiteErrorView,
                >(job@),
                Err(e) => list_job(self.sources(), views(blogs@)) == Err::<
                    RenderJobView,
                    SiteErrorView,
                >(e@),
            },
    {
        let summaries = blogs_to_summary_render_datas(blogs);
        let data = summaries_to_data(&summaries);
        self.job("blog-list", data)
    }

    /// What is handed to the renderer for the page of a post: the template
    /// `blog` with the post.
    pub fn render_blog(&self, blog: &Blog) -> (r: Result<RenderJob, SiteError>)
        ensures
            match r {
                Ok(job) => post_job(self.sources(), blog@) == Ok::<RenderJobView, SiteErrorView>(
                    job@,
                ),
                Err(e) => post_job(self.sources(), blog@) == Err::<RenderJobView, SiteErrorView>(
                    e@,
                ),
            },
    {
        let data = blog_to_data(blog);
        self.job("blog", data)
    }
}

} // verus!
