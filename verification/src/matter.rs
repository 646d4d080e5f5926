//! Front matter as gray_matter delivers it: the split of a document into
//! metadata and body, and the reading of single values of the metadata.

use gray_matter::engine::YAML;
use gray_matter::{Matter, Pod};
use vstd::prelude::*;

verus! {

/// gray_matter's `Pod`, the value that a parsed front-matter block comes as.
/// Nothing is read inside one but through the functions below.
#[verifier::external_type_specification]
#[verifier::external_body]
pub struct ExPod(Pod);

/// A metadata value as a tree. A real number is kept without its digits.
pub enum Value {
    Null,
    Text(Seq<char>),
    Integer(i64),
    Real,
    Boolean(bool),
    List(Seq<Value>),
    Table(Map<Seq<char>, Value>),
}

/// The tree that a `Pod` holds: variant for variant, with the keys and texts
/// as character sequences.
pub uninterp spec fn pod_value(pod: Pod) -> Value;

/// What gray_matter with its YAML engine makes of a document: nothing where
/// it reports an error; else the metadata, if the document has any, and the
/// text that follows it.
pub uninterp spec fn split_document(content: Seq<char>) -> Option<(Option<Value>, Seq<char>)>;

/// The outcome of a split that went well.
pub struct Document {
    pub data: Option<Pod>,
    pub body: String,
}

/// The tree of the metadata, where there is metadata.
pub open spec fn value_of(data: Option<Pod>) -> Option<Value> {
    match data {
        Some(pod) => Some(pod_value(pod)),
        None => None,
    }
}

/// The entry of a table under a key. A value that is no table has no entries.
pub open spec fn table_entry(value: Value, key: Seq<char>) -> Option<Value> {
    match value {
        Value::Table(entries) => if entries.contains_key(key) {
            Some(entries[key])
        } else {
            None
        },
        _ => None,
    }
}

/// The trees of a list of pods, in order.
pub open spec fn values_of(pods: Seq<Pod>) -> Seq<Value> {
    pods.map_values(|pod: Pod| pod_value(pod))
}

/// `Matter::<YAML>::new().parse::<Pod>`: the fields `data` and `content` of
/// the `ParsedEntity`. An error of the YAML parser comes back as `None`.
#[verifier::external_body]
pub(crate) fn parse(content: &str) -> (document: Option<Document>)
    ensures
        split_document(content@) == match document {
            Some(d) => Some((value_of(d.data), d.body@)),
            None => None,
        },
{
    match Matter::<YAML>::new().parse::<Pod>(content) {
        Ok(entity) => Some(Document { data: entity.data, body: entity.content }),
        Err(_) => None,
    }
}

/// `Pod::as_hashmap`, then the entry under `key` taken out of the copy: the
/// value under the key where the pod is a `Pod::Hash` that has the key.
#[verifier::external_body]
pub(crate) fn entry(pod: &Pod, key: &str) -> (found: Option<Pod>)
    ensures
        value_of(found) == table_entry(pod_value(*pod), key@),
{
    match pod.as_hashmap() {
        Ok(mut table) => table.remove(key),
        Err(_) => None,
    }
}

/// `Pod::as_string`: the text of a `Pod::String`, nothing of any other pod.
#[verifier::external_body]
pub(crate) fn as_text(pod: &Pod) -> (text: Option<String>)
    ensures
        match text {
            Some(t) => pod_value(*pod) == Value::Text(t@),
            None => !(pod_value(*pod) is Text),
        },
{
    pod.as_string().ok()
}

/// `Pod::as_vec`: the items of a `Pod::Array`, nothing of any other pod.
#[verifier::external_body]
pub(crate) fn as_list(pod: &Pod) -> (items: Option<Vec<Pod>>)
    ensures
        match items {
            Some(pods) => pod_value(*pod) == Value::List(values_of(pods@)),
            None => !(pod_value(*pod) is List),
        },
{
    pod.as_vec().ok()
}

/// Whether the pod is `Pod::Null`.
#[verifier::external_body]
pub(crate) fn is_null(pod: &Pod) -> (null: bool)
    ensures
        null == (pod_value(*pod) is Null),
{
    matches!(pod, Pod::Null)
}

} // verus!
