//! Posts: parsing a post document, and the registry that keeps the posts
//! ordered by publication date, newest first.

use crate::date::Date;
use crate::document::{
    delimiter_at, lemma_fewer_than_two_delimiters, lemma_split_at_first_two, parts_found, split,
    split_document,
};
use crate::error::{error_of, EmptyResult, ErrorKind, SiteError, SiteErrorView};
use crate::metadata::{front_matter_metadata, read_metadata, MetadataView};
use vstd::prelude::*;

verus! {

/// One published article: its metadata and its body as HTML.
#[derive(Debug)]
pub struct Blog {
    pub title: String,
    pub descr: String,
    pub url_friendly_name: String,
    pub date: Date,
    pub content: String,
}

/// A `Blog` with its texts as sequences of characters.
pub struct BlogView {
    pub title: Seq<char>,
    pub descr: Seq<char>,
    pub url_friendly_name: Seq<char>,
    pub date: Date,
    pub content: Seq<char>,
}

impl View for Blog {
    type V = BlogView;

    open spec fn view(&self) -> BlogView {
        BlogView {
            title: self.title@,
            descr: self.descr@,
            url_friendly_name: self.url_friendly_name@,
            date: self.date,
            content: self.content@,
        }
    }
}

/// The views of a sequence of posts, in the same order.
pub open spec fn views(blogs: Seq<Blog>) -> Seq<BlogView> {
    Seq::new(blogs.len(), |i: int| blogs[i]@)
}

/// The HTML that comrak renders a Markdown text to, with its default
/// options.
pub uninterp spec fn markdown_html(markdown: Seq<char>) -> Seq<char>;

/// `comrak::markdown_to_html` with the default options. The contract names
/// the HTML.
#[verifier::external_body]
fn markdown_to_html(markdown: &str) -> (html: String)
    ensures
        html@ == markdown_html(markdown@),
{
    comrak::markdown_to_html(markdown, &comrak::ComrakOptions::default())
}

/// The message of the error for a document with too few delimiters: it
/// says how many parts were found, 1 or 2.
pub open spec fn malformed(parts: int) -> Seq<char> {
    "Blog: did not have 3 YAML section divided parts, had: "@ + (if parts == 1 {
        "1"@
    } else {
        "2"@
    })
}

/// What a post document is read as: the post, or the error that the
/// document is rejected with. The preamble is ignored, the front matter
/// gives the metadata, and the body is rendered from Markdown as it stands.
pub open spec fn parsed(doc: Seq<char>) -> Result<BlogView, SiteErrorView> {
    match split(doc) {
        None => Err(error_of(ErrorKind::MalformedDocument, malformed(parts_found(doc)))),
        Some(parts) => match front_matter_metadata(parts.front_matter) {
            Err(msg) => Err(error_of(ErrorKind::MetadataParseError, msg)),
            Ok(metadata) => Ok(
                BlogView {
                    title: metadata.title,
                    descr: metadata.descr,
                    url_friendly_name: metadata.url_friendly_name,
                    date: metadata.date,
                    content: markdown_html(parts.body),
                },
            ),
        },
    }
}

/// A document with front matter between its first two delimiters that
/// describes metadata is read as a post with that metadata, whose body is
/// the Markdown rendering of what stands behind the second delimiter,
/// whatever that is.
pub proof fn lemma_parsed_well_formed(doc: Seq<char>, i: int, j: int, metadata: MetadataView)
    requires
        delimiter_at(doc, i),
        forall|k: int| 0 <= k < i ==> !delimiter_at(doc, k),
        i + 3 <= j,
        delimiter_at(doc, j),
        forall|k: int| i + 3 <= k < j ==> !delimiter_at(doc, k),
        front_matter_metadata(doc.subrange(i + 3, j)) == Ok::<MetadataView, Seq<char>>(metadata),
    ensures
        parsed(doc) == Ok::<BlogView, SiteErrorView>(
            BlogView {
                title: metadata.title,
                descr: metadata.descr,
                url_friendly_name: metadata.url_friendly_name,
                date: metadata.date,
                content: markdown_html(doc.subrange(j + 3, doc.len() as int)),
            },
        ),
{
    lemma_split_at_first_two(doc, i, j);
}

/// A document in which no two delimiters stand clear of each other is
/// rejected as malformed.
pub proof fn lemma_parsed_malformed(doc: Seq<char>)
    requires
        forall|i: int, j: int| delimiter_at(doc, i) && i + 3 <= j ==> !delimiter_at(doc, j),
    ensures
        parsed(doc) matches Err(e) && e.kind == ErrorKind::MalformedDocument,
{
    lemma_fewer_than_two_delimiters(doc);
}

/// Every post that a document is read as has a slug that is not empty.
pub proof fn lemma_parsed_has_slug(doc: Seq<char>)
    ensures
        parsed(doc) matches Ok(post) ==> post.url_friendly_name.len() > 0,
{
}

/// Reads a post from its source document. A post that is read has a date
/// of the calendar and a slug that is not empty.
pub fn parse(doc: &str) -> (r: Result<Blog, SiteError>)
    ensures
        match r {
            Ok(blog) => parsed(doc@) == Ok::<BlogView, SiteErrorView>(blog@) && blog.date.wf()
                && blog.url_friendly_name@.len() > 0,
            Err(e) => parsed(doc@) == Err::<BlogView, SiteErrorView>(e@),
        },
{
    let document = match split_document(doc) {
        Ok(document) => document,
        Err(found) => {
            return Err(
                SiteError::with_detail(
                    ErrorKind::MalformedDocument,
                    "Blog: did not have 3 YAML section divided parts, had: ",
                    if found == 1 { "1" } else { "2" },
                ),
            );
        },
    };
    let metadata = read_metadata(document.front_matter.as_str())?;
    let content = markdown_to_html(document.body.as_str());
    Ok(
        Blog {
            title: metadata.title,
            descr: metadata.descr,
            url_friendly_name: metadata.url_friendly_name,
            date: metadata.date,
            content,
        },
    )
}

/// Every post has a slug that is not empty.
pub open spec fn slugs_given(posts: Seq<BlogView>) -> bool {
    forall|i: int| 0 <= i < posts.len() ==> (#[trigger] posts[i]).url_friendly_name.len() > 0
}

/// Each post is at least as recent as every post behind it.
pub open spec fn newest_first(posts: Seq<BlogView>) -> bool {
    forall|i: int, j: int| 0 <= i < j < posts.len() ==> !posts[i].date.earlier(posts[j].date)
}

/// The position, at `from` or behind it, of the first post that is older
/// than `date`; the length of `posts` where there is none.
pub open spec fn place_for(posts: Seq<BlogView>, date: Date, from: int) -> int
    decreases posts.len() - from,
{
    if from < 0 || from >= posts.len() {
        posts.len() as int
    } else if posts[from].date.earlier(date) {
        from
    } else {
        place_for(posts, date, from + 1)
    }
}

/// `posts` with `post` added: behind every post that is as recent as it or
/// more recent, before every older one.
pub open spec fn with_post(posts: Seq<BlogView>, post: BlogView) -> Seq<BlogView> {
    posts.insert(place_for(posts, post.date, 0), post)
}

/// The place found for a date lies within the sequence, no post from
/// `from` up to it is older than the date, and the post at it, if there is
/// one, is older.
pub proof fn lemma_place_for(posts: Seq<BlogView>, date: Date, from: int)
    requires
        0 <= from <= posts.len(),
    ensures
        from <= place_for(posts, date, from) <= posts.len(),
        forall|i: int| from <= i < place_for(posts, date, from) ==> !posts[i].date.earlier(date),
        place_for(posts, date, from) < posts.len() ==> posts[place_for(
            posts,
            date,
            from,
        )].date.earlier(date),
    decreases posts.len() - from,
{
    if from < posts.len() && !posts[from].date.earlier(date) {
        lemma_place_for(posts, date, from + 1);
    }
}

/// Adding a post to a sequence that is ordered newest first gives a
/// sequence that is ordered newest first, one longer, and holding the posts
/// that were there and the new one.
pub proof fn lemma_with_post_keeps_order(posts: Seq<BlogView>, post: BlogView)
    requires
        newest_first(posts),
    ensures
        newest_first(with_post(posts, post)),
        with_post(posts, post).len() == posts.len() + 1,
        with_post(posts, post).to_multiset() == posts.to_multiset().insert(post),
        slugs_given(posts) && post.url_friendly_name.len() > 0 ==> slugs_given(
            with_post(posts, post),
        ),
{
    let k = place_for(posts, post.date, 0);
    lemma_place_for(posts, post.date, 0);
    let grown = with_post(posts, post);
    assert forall|i: int, j: int| 0 <= i < j < grown.len() implies !grown[i].date.earlier(
        grown[j].date,
    ) by {
        if j == k {
            assert(grown[i] == posts[i]);
        } else if i == k {
            assert(grown[j] == posts[j - 1]);
            if k < j - 1 {
                assert(!posts[k].date.earlier(posts[j - 1].date));
            }
        } else {
            let a = if i < k { i } else { i - 1 };
            let b = if j < k { j } else { j - 1 };
            assert(grown[i] == posts[a]);
            assert(grown[j] == posts[b]);
        }
    }
    vstd::seq_lib::to_multiset_insert(posts, k, post);
    if slugs_given(posts) && post.url_friendly_name.len() > 0 {
        assert forall|i: int| 0 <= i < grown.len() implies (#[trigger] grown[i]).url_friendly_name.len()
            > 0 by {
            if i < k {
                assert(grown[i] == posts[i]);
            } else if i > k {
                assert(grown[i] == posts[i - 1]);
            }
        }
    }
}

/// The registry after the posts of `inserted` were added to an empty one,
/// one after the other.
pub open spec fn registry_of(inserted: Seq<BlogView>) -> Seq<BlogView>
    decreases inserted.len(),
{
    if inserted.len() == 0 {
        Seq::empty()
    } else {
        with_post(registry_of(inserted.drop_last()), inserted.last())
    }
}

/// Whatever posts are added in whatever order, the registry is ordered
/// newest first after each of them, and holds as many posts as were added.
pub proof fn lemma_registry_is_ordered(inserted: Seq<BlogView>, n: int)
    requires
        0 <= n <= inserted.len(),
    ensures
        newest_first(registry_of(inserted.take(n))),
        registry_of(inserted.take(n)).len() == n,
    decreases n,
{
    if n > 0 {
        lemma_registry_is_ordered(inserted, n - 1);
        assert(inserted.take(n).drop_last() =~= inserted.take(n - 1));
        lemma_with_post_keeps_order(registry_of(inserted.take(n - 1)), inserted.take(n).last());
    }
}

/// The posts of one build pass, newest first, each with a slug that is
/// not empty.
pub struct BlogReader {
    blogs: Vec<Blog>,
}

impl View for BlogReader {
    type V = Seq<BlogView>;

    closed spec fn view(&self) -> Seq<BlogView> {
        views(self.blogs@)
    }
}

impl BlogReader {
    #[verifier::type_invariant]
    spec fn ordered(self) -> bool {
        newest_first(views(self.blogs@)) && slugs_given(views(self.blogs@))
    }

    /// A registry without posts.
    pub fn new() -> (reader: BlogReader)
        ensures
            reader@ == Seq::<BlogView>::empty(),
    {
        let reader = BlogReader { blogs: Vec::new() };
        assert(reader@ =~= Seq::<BlogView>::empty());
        reader
    }

    /// Adds a post and keeps the order: the post comes to stand behind the
    /// posts that are as recent as it or more recent. The post has a slug
    /// that is not empty, as every post has.
    pub fn insert(&mut self, post: Blog)
        requires
            post.url_friendly_name@.len() > 0,
        ensures
            final(self)@ == with_post(old(self)@, post@),
            newest_first(final(self)@),
            slugs_given(final(self)@),
    {
        proof {
            use_type_invariant(&*self);
            lemma_with_post_keeps_order(self@, post@);
        }
        let mut k: usize = 0;
        while k < self.blogs.len() && !self.blogs[k].date.is_before(&post.date)
            invariant
                0 <= k <= self.blogs.len(),
                place_for(views(self.blogs@), post.date, 0) == place_for(
                    views(self.blogs@),
                    post.date,
                    k as int,
                ),
            decreases self.blogs.len() - k,
        {
            k = k + 1;
        }
        let mut blogs: Vec<Blog> = Vec::new();
        core::mem::swap(&mut self.blogs, &mut blogs);
        let ghost before = blogs@;
        blogs.insert(k, post);
        assert(views(blogs@) =~= views(before).insert(k as int, post@));
        core::mem::swap(&mut self.blogs, &mut blogs);
    }

    /// Reads a post from its source document and adds it. A document that is
    /// rejected leaves the registry as it was.
    pub fn ingest(&mut self, blog: String) -> (r: EmptyResult)
        ensures
            match parsed(blog@) {
                Ok(post) => r is Ok && final(self)@ == with_post(old(self)@, post),
                Err(error) => r matches Err(e) && e@ == error && final(self)@ == old(self)@,
            },
            newest_first(final(self)@),
            slugs_given(final(self)@),
    {
        proof {
            use_type_invariant(&*self);
        }
        match parse(blog.as_str()) {
            Ok(post) => {
                self.insert(post);
                Ok(())
            },
            Err(e) => Err(e),
        }
    }

    /// The posts, newest first.
    pub fn get_blogs(&self) -> (blogs: &[Blog])
        ensures
            views(blogs@) == self@,
            newest_first(self@),
            slugs_given(self@),
    {
        proof {
            use_type_invariant(self);
        }
        self.blogs.as_slice()
    }
}

} // verus!
