//! The metadata of a post as its author wrote it, and the rules by which it
//! is read out of a parsed front-matter block.

use crate::matter::{as_list, as_text, entry, is_null, pod_value, table_entry, values_of, Value};
use gray_matter::Pod;
use vstd::prelude::*;

verus! {

/// The fields of a front-matter block. Title and date are required; the rest
/// may be left out.
#[derive(Clone, Debug, PartialEq, Eq)]
pub struct FrontMatter {
    pub title: String,
    pub date: String,
    pub excerpt: Option<String>,
    pub categories: Option<Vec<String>>,
    pub read_time: Option<String>,
    pub slug: Option<String>,
}

/// Front matter with its texts as character sequences.
pub struct FrontMatterView {
    pub title: Seq<char>,
    pub date: Seq<char>,
    pub excerpt: Option<Seq<char>>,
    pub categories: Option<Seq<Seq<char>>>,
    pub read_time: Option<Seq<char>>,
    pub slug: Option<Seq<char>>,
}

/// The character sequences of a list of strings.
pub open spec fn text_views(texts: Seq<String>) -> Seq<Seq<char>> {
    texts.map_values(|text: String| text@)
}

/// The characters of a text that may be missing.
pub open spec fn optional_view(text: Option<String>) -> Option<Seq<char>> {
    match text {
        Some(t) => Some(t@),
        None => None,
    }
}

/// The character sequences of a list of texts that may be missing.
pub open spec fn optional_views(texts: Option<Vec<String>>) -> Option<Seq<Seq<char>>> {
    match texts {
        Some(t) => Some(text_views(t@)),
        None => None,
    }
}

impl View for FrontMatter {
    type V = FrontMatterView;

    open spec fn view(&self) -> FrontMatterView {
        FrontMatterView {
            title: self.title@,
            date: self.date@,
            excerpt: optional_view(self.excerpt),
            categories: optional_views(self.categories),
            read_time: optional_view(self.read_time),
            slug: optional_view(self.slug),
        }
    }
}

/// How an optional field reads.
pub enum Reading<T> {
    /// The field is not there, or is null.
    Absent,
    /// The field holds a value of the kind asked for.
    Given(T),
    /// The field holds something else.
    Unfit,
}

/// A field that must be there and hold text.
pub open spec fn required_text(root: Value, key: Seq<char>) -> Option<Seq<char>> {
    match table_entry(root, key) {
        Some(Value::Text(text)) => Some(text),
        _ => None,
    }
}

/// A field that may be left out and otherwise holds text.
pub open spec fn optional_text(root: Value, key: Seq<char>) -> Reading<Seq<char>> {
    match table_entry(root, key) {
        None => Reading::Absent,
        Some(Value::Null) => Reading::Absent,
        Some(Value::Text(text)) => Reading::Given(text),
        Some(_) => Reading::Unfit,
    }
}

/// Whether every item of a list is a text.
pub open spec fn all_text(items: Seq<Value>) -> bool {
    forall|i: int| 0 <= i < items.len() ==> #[trigger] items[i] is Text
}

/// The texts of a list of which every item is a text.
pub open spec fn texts_of(items: Seq<Value>) -> Seq<Seq<char>> {
    items.map_values(|item: Value| item->Text_0)
}

/// A field that may be left out and otherwise holds a list of texts.
pub open spec fn optional_texts(root: Value, key: Seq<char>) -> Reading<Seq<Seq<char>>> {
    match table_entry(root, key) {
        None => Reading::Absent,
        Some(Value::Null) => Reading::Absent,
        Some(Value::List(items)) => if all_text(items) {
            Reading::Given(texts_of(items))
        } else {
            Reading::Unfit
        },
        Some(_) => Reading::Unfit,
    }
}

/// The value that a reading gives, if it gives one.
pub open spec fn given<T>(reading: Reading<T>) -> Option<T> {
    match reading {
        Reading::Given(value) => Some(value),
        _ => None,
    }
}

/// The front matter that a metadata tree holds. There is none unless the
/// tree is a table with a text under `title` and under `date`, and each of
/// `excerpt`, `categories`, `read_time` and `slug` is left out, null, or of
/// its kind: text, but a list of texts for `categories`. Other keys are not
/// looked at.
pub open spec fn front_matter_of(root: Value) -> Option<FrontMatterView> {
    let title = required_text(root, "title"@);
    let date = required_text(root, "date"@);
    let excerpt = optional_text(root, "excerpt"@);
    let categories = optional_texts(root, "categories"@);
    let read_time = optional_text(root, "read_time"@);
    let slug = optional_text(root, "slug"@);
    if title is Some && date is Some && !(excerpt is Unfit) && !(categories is Unfit) && !(read_time
        is Unfit) && !(slug is Unfit) {
        Some(
            FrontMatterView {
                title: title->0,
                date: date->0,
                excerpt: given(excerpt),
                categories: given(categories),
                read_time: given(read_time),
                slug: given(slug),
            },
        )
    } else {
        None
    }
}

fn read_required(root: &Pod, key: &str) -> (text: Option<String>)
    ensures
        optional_view(text) == required_text(pod_value(*root), key@),
{
    match entry(root, key) {
        Some(pod) => as_text(&pod),
        None => None,
    }
}

/// A reading of a text, with the text as a character sequence.
pub open spec fn reading_view(reading: Reading<String>) -> Reading<Seq<char>> {
    match reading {
        Reading::Absent => Reading::Absent,
        Reading::Given(text) => Reading::Given(text@),
        Reading::Unfit => Reading::Unfit,
    }
}

/// A reading of a list of texts, with the texts as character sequences.
pub open spec fn reading_views(reading: Reading<Vec<String>>) -> Reading<Seq<Seq<char>>> {
    match reading {
        Reading::Absent => Reading::Absent,
        Reading::Given(texts) => Reading::Given(text_views(texts@)),
        Reading::Unfit => Reading::Unfit,
    }
}

fn read_optional(root: &Pod, key: &str) -> (reading: Reading<String>)
    ensures
        reading_view(reading) == optional_text(pod_value(*root), key@),
{
    match entry(root, key) {
        None => Reading::Absent,
        Some(pod) => match as_text(&pod) {
            Some(text) => Reading::Given(text),
            None => if is_null(&pod) {
                Reading::Absent
            } else {
                Reading::Unfit
            },
        },
    }
}

fn read_texts(pods: &Vec<Pod>) -> (texts: Option<Vec<String>>)
    ensures
        texts is Some <==> all_text(values_of(pods@)),
        texts matches Some(list) ==> text_views(list@) == texts_of(values_of(pods@)),
{
    let ghost items = values_of(pods@);
    let mut texts: Vec<String> = Vec::new();
    for i in 0..pods.len()
        invariant
            items == values_of(pods@),
            texts@.len() == i,
            forall|j: int| 0 <= j < i ==> #[trigger] items[j] == Value::Text(texts@[j]@),
    {
        match as_text(&pods[i]) {
            Some(text) => {
                texts.push(text);
            },
            None => {
                assert(!(items[i as int] is Text));
                return None;
            },
        }
    }
    assert(text_views(texts@) =~= texts_of(items));
    Some(texts)
}

fn read_optional_texts(root: &Pod, key: &str) -> (reading: Reading<Vec<String>>)
    ensures
        reading_views(reading) == optional_texts(pod_value(*root), key@),
{
    match entry(root, key) {
        None => Reading::Absent,
        Some(pod) => match as_list(&pod) {
            Some(pods) => match read_texts(&pods) {
                Some(texts) => Reading::Given(texts),
                None => Reading::Unfit,
            },
            None => if is_null(&pod) {
                Reading::Absent
            } else {
                Reading::Unfit
            },
        },
    }
}

/// Reads the front matter out of parsed metadata. The result is `None`
/// exactly where the metadata holds no front matter: a required field is
/// missing, or a field holds a value of the wrong kind.
pub fn read_front_matter(root: &Pod) -> (front: Option<FrontMatter>)
    ensures
        match front {
            Some(f) => front_matter_of(pod_value(*root)) == Some(f@),
            None => front_matter_of(pod_value(*root)) is None,
        },
{
    let title = read_required(root, "title");
    let date = read_required(root, "date");
    let excerpt = read_optional(root, "excerpt");
    let categories = read_optional_texts(root, "categories");
    let read_time = read_optional(root, "read_time");
    let slug = read_optional(root, "slug");
    match (title, date, excerpt, categories, read_time, slug) {
        (_, _, Reading::Unfit, _, _, _) => None,
        (_, _, _, Reading::Unfit, _, _) => None,
        (_, _, _, _, Reading::Unfit, _) => None,
        (_, _, _, _, _, Reading::Unfit) => None,
        (Some(title), Some(date), excerpt, categories, read_time, slug) => Some(
            FrontMatter {
                title,
                date,
                excerpt: excerpt.into_option(),
                categories: categories.into_option(),
                read_time: read_time.into_option(),
                slug: slug.into_option(),
            },
        ),
        _ => None,
    }
}

impl<T> Reading<T> {
    /// The value that was given, if one was.
    pub fn into_option(self) -> (value: Option<T>)
        ensures
            value == given(self),
    {
        match self {
            Reading::Given(value) => Some(value),
            _ => None,
        }
    }
}

} // verus!
