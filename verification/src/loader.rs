//! From the text of a file to a post, for a single post and for the whole
//! blog index.

use crate::front_matter::{front_matter_of, optional_view, read_front_matter};
use crate::index::{is_index_of, sort_newest_first, views};
use crate::matter::{parse, split_document, value_of, Document, Value};
use crate::post::{build_post, post_of, Post, PostView};
use vstd::prelude::*;

verus! {

/// The post that the outcome of a split makes: there is one where the
/// document has metadata and the metadata holds front matter.
pub open spec fn post_of_parts(data: Option<Value>, body: Seq<char>, fallback: Seq<char>) -> Option<
    PostView,
> {
    match data {
        Some(root) => match front_matter_of(root) {
            Some(front) => Some(post_of(front, body, fallback)),
            None => None,
        },
        None => None,
    }
}

/// The post that the text of a file makes, with `fallback` as the slug where
/// the front matter states none. There is no post where the front matter
/// cannot be parsed, is missing, or holds no front matter of a post.
pub open spec fn post_of_text(content: Seq<char>, fallback: Seq<char>) -> Option<PostView> {
    match split_document(content) {
        Some((data, body)) => post_of_parts(data, body, fallback),
        None => None,
    }
}

/// The view of a post that may be missing.
pub open spec fn post_view(post: Option<Post>) -> Option<PostView> {
    match post {
        Some(p) => Some(p@),
        None => None,
    }
}

/// Makes the post of a document that has been split into metadata and body.
/// A document without metadata, or with metadata that holds no front matter
/// of a post, gives `None`.
pub fn post_of_document(document: Document, fallback: &str) -> (post: Option<Post>)
    ensures
        post_view(post) == post_of_parts(value_of(document.data), document.body@, fallback@),
{
    match document.data {
        Some(root) => match read_front_matter(&root) {
            Some(front) => Some(build_post(front, document.body.as_str(), fallback)),
            None => None,
        },
        None => None,
    }
}

/// Makes the post of a file from its text. Whatever is wrong with the text,
/// the outcome is `None`, never an error.
pub fn post_from_text(content: &str, fallback: &str) -> (post: Option<Post>)
    ensures
        post_view(post) == post_of_text(content@, fallback@),
{
    match parse(content) {
        Some(document) => post_of_document(document, fallback),
        None => None,
    }
}

/// A slug that names a file directly under the posts directory: it holds
/// neither `/` nor `\`.
pub open spec fn is_safe_slug(slug: Seq<char>) -> bool {
    forall|i: int| 0 <= i < slug.len() ==> #[trigger] slug[i] != '/' && slug[i] != '\\'
}

/// The directory that holds the posts.
pub open spec fn posts_directory() -> Seq<char> {
    "content/posts"@
}

/// The file of the post with the given slug.
pub open spec fn path_of_slug(slug: Seq<char>) -> Seq<char> {
    posts_directory() + "/"@ + slug + ".md"@
}

/// The directory to scan for posts.
pub fn content_root() -> (root: &'static str)
    ensures
        root@ == posts_directory(),
{
    "content/posts"
}

/// Whether the slug may be used to name a file of the posts directory.
pub fn safe_slug(slug: &str) -> (safe: bool)
    ensures
        safe == is_safe_slug(slug@),
{
    for c in it: slug.chars()
        invariant
            it.seq() == slug@,
            forall|i: int| 0 <= i < it.index() ==> #[trigger] slug@[i] != '/' && slug@[i] != '\\',
    {
        if c == '/' || c == '\\' {
            return false;
        }
    }
    true
}

/// The path of the file that holds the post with this slug. A slug with a
/// path separator in it has no file.
pub fn post_path(slug: &str) -> (path: Option<String>)
    ensures
        path is Some <==> is_safe_slug(slug@),
        path matches Some(p) ==> p@ == path_of_slug(slug@),
{
    if safe_slug(slug) {
        let mut path = content_root().to_owned();
        path.append("/");
        path.append(slug);
        path.append(".md");
        Some(path)
    } else {
        None
    }
}

/// What loading a post by its slug gives, where `content` is the text of the
/// slug's file, or `None` where that file could not be read.
pub open spec fn loaded(slug: Seq<char>, content: Option<Seq<char>>) -> Option<PostView> {
    match content {
        Some(text) => if is_safe_slug(slug) {
            post_of_text(text, slug)
        } else {
            None
        },
        None => None,
    }
}

/// The characters of a text that may be missing.
pub open spec fn optional_str_view(text: Option<&str>) -> Option<Seq<char>> {
    match text {
        Some(t) => Some(t@),
        None => None,
    }
}

/// Loads the post with the given slug from the text of its file. The post is
/// not found, `None`, where the file could not be read, where the slug is
/// not safe, and where the text does not make a post.
pub fn load_post(slug: &str, content: Option<&str>) -> (post: Option<Post>)
    ensures
        post_view(post) == loaded(slug@, optional_str_view(content)),
{
    match content {
        Some(text) => if safe_slug(slug) {
            post_from_text(text, slug)
        } else {
            None
        },
        None => None,
    }
}

/// A file met while the posts directory is walked.
#[derive(Clone, Debug, PartialEq, Eq)]
pub struct SourceFile {
    /// The extension of the file's name, without the dot, if it has one.
    pub extension: Option<String>,
    /// The file's name without its extension.
    pub stem: String,
    /// The text of the file, or `None` where it could not be read.
    pub content: Option<String>,
}

/// A file with its texts as character sequences.
pub struct SourceFileView {
    pub extension: Option<Seq<char>>,
    pub stem: Seq<char>,
    pub content: Option<Seq<char>>,
}

impl View for SourceFile {
    type V = SourceFileView;

    open spec fn view(&self) -> SourceFileView {
        SourceFileView {
            extension: optional_view(self.extension),
            stem: self.stem@,
            content: optional_view(self.content),
        }
    }
}

/// The files of a list, each by its view.
pub open spec fn file_views(files: Seq<SourceFile>) -> Seq<SourceFileView> {
    files.map_values(|file: SourceFile| file@)
}

/// A file is taken for a post where its extension is `md`.
pub open spec fn is_markdown(extension: Option<Seq<char>>) -> bool {
    extension == Some("md"@)
}

/// The post of a file of the posts directory, with the file's stem as the
/// fallback slug. A file that is no Markdown file, or could not be read, or
/// whose text does not make a post, has none.
pub open spec fn post_of_file(file: SourceFileView) -> Option<PostView> {
    if is_markdown(file.extension) {
        match file.content {
            Some(text) => post_of_text(text, file.stem),
            None => None,
        }
    } else {
        None
    }
}

/// The posts of the files that have one, in the order of the files.
pub open spec fn posts_found(files: Seq<SourceFileView>) -> Seq<PostView> {
    files.filter_map(|file: SourceFileView| post_of_file(file))
}

/// Whether a file with this extension is looked at as a post.
pub fn markdown_extension(extension: &Option<String>) -> (markdown: bool)
    ensures
        markdown == is_markdown(optional_view(*extension)),
{
    match extension {
        Some(text) => {
            let md = "md".to_owned();
            *text == md
        },
        None => false,
    }
}

/// Makes the post of one file of the posts directory, if it has one.
pub fn load_file(file: &SourceFile) -> (post: Option<Post>)
    ensures
        post_view(post) == post_of_file(file@),
{
    if markdown_extension(&file.extension) {
        match &file.content {
            Some(text) => post_from_text(text.as_str(), file.stem.as_str()),
            None => None,
        }
    } else {
        None
    }
}

/// Builds the blog index from the files of the posts directory: every file
/// that makes a post is in it, newest first, posts of one day in the order of
/// their files. A file that makes no post is left out and stops nothing.
pub fn load_and_process_all_posts(files: Vec<SourceFile>) -> (index: Vec<Post>)
    ensures
        is_index_of(posts_found(file_views(files@)), views(index@)),
{
    let ghost all = file_views(files@);
    let mut posts: Vec<Post> = Vec::new();
    proof {
        assert(all.take(0).filter_map(|file: SourceFileView| post_of_file(file)) =~= views(
            posts@,
        ));
    }
    for i in 0..files.len()
        invariant
            all == file_views(files@),
            views(posts@) == posts_found(all.take(i as int)),
    {
        proof {
            all.lemma_filter_map_take_succ(|file: SourceFileView| post_of_file(file), i as int);
        }
        match load_file(&files[i]) {
            Some(post) => {
                proof {
                    assert(views(posts@.push(post)) =~= views(posts@) + seq![post@]);
                }
                posts.push(post);
            },
            None => {
                proof {
                    assert(views(posts@) + Seq::<PostView>::empty() =~= views(posts@));
                }
            },
        }
    }
    proof {
        assert(all.take(files@.len() as int) == all);
    }
    sort_newest_first(posts)
}

} // verus!
