//! What holds of every post that is loaded and of every index that is built.

use crate::date::{chrono_date, date_format, day_of_text, epoch_day, is_calendar_day};
use crate::front_matter::{front_matter_of, FrontMatterView};
use crate::index::{is_dated, is_index_of, posts_of_day};
use crate::loader::{
    is_markdown, is_safe_slug, loaded, post_of_file, post_of_text, posts_found, SourceFileView,
};
use crate::markdown::body_html;
use crate::matter::{split_document, Value};
use crate::post::{default_read_time, PostView};
use crate::text::is_blank;
use vstd::prelude::*;

verus! {

/// A file with front matter loads as a post that says what the front matter
/// says: title, excerpt, categories and reading time are taken over as they
/// stand, and a slug that is not blank too. What is left out gets its
/// default: the empty excerpt, no categories, `5 min`.
pub proof fn lemma_loaded_post_matches_front_matter(
    slug: Seq<char>,
    content: Seq<char>,
    root: Value,
    body: Seq<char>,
    front: FrontMatterView,
)
    requires
        is_safe_slug(slug),
        split_document(content) == Some((Some(root), body)),
        front_matter_of(root) == Some(front),
    ensures
        loaded(slug, Some(content)) matches Some(post) && {
            &&& post.title == front.title
            &&& post.date == day_of_text(front.date)
            &&& post.html == body_html(body)
            &&& post.excerpt == match front.excerpt {
                Some(text) => text,
                None => Seq::empty(),
            }
            &&& post.categories == match front.categories {
                Some(list) => list,
                None => Seq::empty(),
            }
            &&& post.read_time == match front.read_time {
                Some(text) => text,
                None => default_read_time(),
            }
            &&& post.slug == match front.slug {
                Some(text) => if is_blank(text) {
                    slug
                } else {
                    text
                },
                None => slug,
            }
        },
{
}

/// A date that cannot be read does not cost the post: it is loaded, and
/// dated 1970-01-01.
pub proof fn lemma_unread_date_gives_epoch(
    content: Seq<char>,
    fallback: Seq<char>,
    root: Value,
    body: Seq<char>,
    front: FrontMatterView,
)
    requires
        split_document(content) == Some((Some(root), body)),
        front_matter_of(root) == Some(front),
        chrono_date(front.date, date_format()) is None,
    ensures
        post_of_text(content, fallback) matches Some(post) && post.date == epoch_day(),
{
}

/// The date of a loaded post is a day of the calendar, whatever its front
/// matter says.
pub proof fn lemma_loaded_date_exists(content: Seq<char>, fallback: Seq<char>)
    ensures
        post_of_text(content, fallback) matches Some(post) ==> is_calendar_day(
            post.date.year,
            post.date.month,
            post.date.day,
        ),
{
}

/// Where the front matter states no slug, or a blank one, the slug of the
/// post is the name of its file without the extension: the stem of the file
/// in a scan, and the slug asked for when a post is loaded by its slug.
pub proof fn lemma_blank_slug_gives_file_name(
    file: SourceFileView,
    content: Seq<char>,
    root: Value,
    body: Seq<char>,
    front: FrontMatterView,
)
    requires
        is_markdown(file.extension),
        file.content == Some(content),
        split_document(content) == Some((Some(root), body)),
        front_matter_of(root) == Some(front),
        front.slug matches Some(text) ==> is_blank(text),
    ensures
        post_of_file(file) matches Some(post) && post.slug == file.stem,
        is_safe_slug(file.stem) ==> (loaded(file.stem, Some(content)) matches Some(post)
            && post.slug == file.stem),
{
}

/// A document that cannot be split, or has no front matter, or whose front
/// matter lacks a required field, makes no post.
pub proof fn lemma_unparsed_text_makes_no_post(content: Seq<char>, fallback: Seq<char>)
    requires
        split_document(content) matches Some((data, body)) ==> (data matches Some(root)
            ==> front_matter_of(root) is None),
    ensures
        post_of_text(content, fallback) is None,
{
}

/// A file that makes no post leaves no trace: the posts found are those
/// found without it.
pub proof fn lemma_file_without_post_is_skipped(files: Seq<SourceFileView>, at: int)
    requires
        0 <= at < files.len(),
        post_of_file(files[at]) is None,
    ensures
        posts_found(files) == posts_found(files.remove(at)),
    decreases files.len(),
{
    let rest = files.drop_last();
    if at == files.len() - 1 {
        assert(files.remove(at) == rest);
    } else {
        lemma_file_without_post_is_skipped(rest, at);
        assert(files.remove(at).drop_last() == rest.remove(at));
        assert(files.remove(at).last() == files.last());
    }
}

/// A Markdown file whose front matter cannot be parsed is left out of the
/// scan, and the posts of the other files are found as without it.
pub proof fn lemma_unparsed_file_is_skipped(files: Seq<SourceFileView>, at: int, text: Seq<char>)
    requires
        0 <= at < files.len(),
        files[at].content == Some(text),
        split_document(text) is None,
    ensures
        post_of_file(files[at]) is None,
        posts_found(files) == posts_found(files.remove(at)),
{
    lemma_file_without_post_is_skipped(files, at);
}

/// A file that makes a post has its post among the posts found.
pub proof fn lemma_file_with_post_is_found(files: Seq<SourceFileView>, at: int)
    requires
        0 <= at < files.len(),
        post_of_file(files[at]) is Some,
    ensures
        posts_found(files).contains(post_of_file(files[at])->0),
    decreases files.len(),
{
    let rest = files.drop_last();
    let found = posts_found(files);
    if at == files.len() - 1 {
        assert(found.last() == post_of_file(files[at])->0);
    } else {
        lemma_file_with_post_is_found(rest, at);
        let wanted = post_of_file(files[at])->0;
        let k = choose|k: int| 0 <= k < posts_found(rest).len() && posts_found(rest)[k] == wanted;
        assert(found[k] == wanted);
    }
}

/// The index leaves no post out.
pub proof fn lemma_index_holds_every_post(posts: Seq<PostView>, index: Seq<PostView>, at: int)
    requires
        is_index_of(posts, index),
        0 <= at < posts.len(),
    ensures
        index.contains(posts[at]),
{
    let day = posts[at].date;
    assert(is_dated(day)(posts[at]));
    posts.lemma_filter_contains(is_dated(day), at);
    assert(posts_of_day(index, day) == posts_of_day(posts, day));
    index.lemma_filter_contains_rev(is_dated(day), posts[at]);
}

/// A post whose date cannot be read stays in the index, dated 1970-01-01.
pub proof fn lemma_unread_date_stays_in_index(
    files: Seq<SourceFileView>,
    at: int,
    index: Seq<PostView>,
    content: Seq<char>,
    root: Value,
    body: Seq<char>,
    front: FrontMatterView,
)
    requires
        0 <= at < files.len(),
        is_markdown(files[at].extension),
        files[at].content == Some(content),
        split_document(content) == Some((Some(root), body)),
        front_matter_of(root) == Some(front),
        chrono_date(front.date, date_format()) is None,
        is_index_of(posts_found(files), index),
    ensures
        post_of_file(files[at]) matches Some(post) && post.date == epoch_day() && index.contains(
            post,
        ),
{
    lemma_unread_date_gives_epoch(content, files[at].stem, root, body, front);
    lemma_file_with_post_is_found(files, at);
    let post = post_of_file(files[at])->0;
    let found = posts_found(files);
    let k = choose|k: int| 0 <= k < found.len() && found[k] == post;
    lemma_index_holds_every_post(found, index, k);
}

} // verus!
