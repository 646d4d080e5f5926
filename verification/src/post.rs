//! A post as it is shown, and how one is put together from its front matter,
//! its rendered body and the name of its file.

use crate::date::{day_of_text, parse_date, Date, Ymd};
use crate::front_matter::{optional_view, optional_views, text_views, FrontMatter, FrontMatterView};
use crate::markdown::{body_html, render_body};
use crate::text::{blank, is_blank};
use vstd::prelude::*;

verus! {

/// A post with every field present.
#[derive(Clone, Debug, PartialEq, Eq)]
pub struct Post {
    pub title: String,
    pub date: Date,
    pub excerpt: String,
    pub categories: Vec<String>,
    pub read_time: String,
    pub slug: String,
    pub html: String,
}

/// A post with its texts as character sequences and its date as a day.
pub struct PostView {
    pub title: Seq<char>,
    pub date: Ymd,
    pub excerpt: Seq<char>,
    pub categories: Seq<Seq<char>>,
    pub read_time: Seq<char>,
    pub slug: Seq<char>,
    pub html: Seq<char>,
}

impl View for Post {
    type V = PostView;

    open spec fn view(&self) -> PostView {
        PostView {
            title: self.title@,
            date: self.date@,
            excerpt: self.excerpt@,
            categories: text_views(self.categories@),
            read_time: self.read_time@,
            slug: self.slug@,
            html: self.html@,
        }
    }
}

/// The reading time of a post that states none.
pub open spec fn default_read_time() -> Seq<char> {
    "5 min"@
}

/// The excerpt of a post: the one it states, else the empty text.
pub open spec fn excerpt_or_default(excerpt: Option<Seq<char>>) -> Seq<char> {
    match excerpt {
        Some(text) => text,
        None => Seq::empty(),
    }
}

/// The categories of a post: those it states, else none.
pub open spec fn categories_or_default(categories: Option<Seq<Seq<char>>>) -> Seq<Seq<char>> {
    match categories {
        Some(list) => list,
        None => Seq::empty(),
    }
}

/// The reading time of a post: the one it states, else `5 min`.
pub open spec fn read_time_or_default(read_time: Option<Seq<char>>) -> Seq<char> {
    match read_time {
        Some(text) => text,
        None => default_read_time(),
    }
}

/// The slug of a post: the one its front matter states, unless that is left
/// out or blank; then the fallback, which is the name of the post's file
/// without its extension.
pub open spec fn slug_or_fallback(slug: Option<Seq<char>>, fallback: Seq<char>) -> Seq<char> {
    match slug {
        Some(text) => if is_blank(text) {
            fallback
        } else {
            text
        },
        None => fallback,
    }
}

/// The post that front matter, a rendered body, a date and a fallback slug
/// make: what the front matter states is kept as it is, and what it leaves
/// out gets its default.
pub open spec fn assembled(front: FrontMatterView, html: Seq<char>, date: Ymd, fallback: Seq<char>) -> PostView {
    PostView {
        title: front.title,
        date,
        excerpt: excerpt_or_default(front.excerpt),
        categories: categories_or_default(front.categories),
        read_time: read_time_or_default(front.read_time),
        slug: slug_or_fallback(front.slug, fallback),
        html,
    }
}

/// The post that front matter and the body text of a file make.
pub open spec fn post_of(front: FrontMatterView, body: Seq<char>, fallback: Seq<char>) -> PostView {
    assembled(front, body_html(body), day_of_text(front.date), fallback)
}

/// The excerpt of a post: the one stated, else the empty text.
pub fn excerpt_or_empty(excerpt: Option<String>) -> (text: String)
    ensures
        text@ == excerpt_or_default(optional_view(excerpt)),
{
    match excerpt {
        Some(text) => text,
        None => String::new(),
    }
}

/// The categories of a post: those stated, else none.
pub fn categories_or_none(categories: Option<Vec<String>>) -> (list: Vec<String>)
    ensures
        text_views(list@) == categories_or_default(
            optional_views(categories),
        ),
{
    match categories {
        Some(list) => list,
        None => {
            let list: Vec<String> = Vec::new();
            assert(text_views(list@) =~= Seq::<Seq<char>>::empty());
            list
        },
    }
}

/// The reading time of a post: the one stated, else `5 min`.
pub fn read_time_or_five_minutes(read_time: Option<String>) -> (text: String)
    ensures
        text@ == read_time_or_default(optional_view(read_time)),
{
    match read_time {
        Some(text) => text,
        None => "5 min".to_owned(),
    }
}

/// Picks the slug of a post: the one given, unless it is missing or blank.
pub fn resolve_slug(slug: Option<String>, fallback: &str) -> (text: String)
    ensures
        text@ == slug_or_fallback(optional_view(slug), fallback@),
{
    match slug {
        Some(text) => if blank(text.as_str()) {
            fallback.to_owned()
        } else {
            text
        },
        None => fallback.to_owned(),
    }
}

/// Puts a post together. Fields that the front matter leaves out get their
/// defaults.
pub fn assemble(front: FrontMatter, html: String, date: Date, fallback: &str) -> (post: Post)
    ensures
        post@ == assembled(front@, html@, date@, fallback@),
{
    Post {
        title: front.title,
        date,
        excerpt: excerpt_or_empty(front.excerpt),
        categories: categories_or_none(front.categories),
        read_time: read_time_or_five_minutes(front.read_time),
        slug: resolve_slug(front.slug, fallback),
        html,
    }
}

/// Makes the post of a file from its front matter and its body text: the
/// body is rendered, the date is read with the epoch as fallback, and the
/// slug falls back to `fallback`.
pub fn build_post(front: FrontMatter, body: &str, fallback: &str) -> (post: Post)
    ensures
        post@ == post_of(front@, body@, fallback@),
{
    let html = render_body(body);
    let date = parse_date(front.date.as_str());
    assemble(front, html, date, fallback)
}

} // verus!
