//! Markdown to HTML.

use crate::text::{trim, trimmed};
use pulldown_cmark::{Options, Parser};
use vstd::prelude::*;

verus! {

/// The HTML that pulldown-cmark writes for a Markdown text, with the table
/// and the strikethrough extension each switched on or off.
pub uninterp spec fn rendered_html(markdown: Seq<char>, tables: bool, strikethrough: bool) -> Seq<
    char,
>;

/// `pulldown_cmark::html::push_html` on `Parser::new_ext`: the whole HTML of
/// the text, written to a fresh string. The two flags become
/// `Options::ENABLE_TABLES` and `Options::ENABLE_STRIKETHROUGH`; no other
/// option is set.
#[verifier::external_body]
fn push_html(markdown: &str, tables: bool, strikethrough: bool) -> (html: String)
    ensures
        html@ == rendered_html(markdown@, tables, strikethrough),
{
    let mut options = Options::empty();
    options.set(Options::ENABLE_TABLES, tables);
    options.set(Options::ENABLE_STRIKETHROUGH, strikethrough);
    let mut html = String::new();
    pulldown_cmark::html::push_html(&mut html, Parser::new_ext(markdown, options));
    html
}

/// The HTML of a post's body: the body is trimmed, then rendered with tables
/// and strikethrough.
pub open spec fn body_html(body: Seq<char>) -> Seq<char> {
    rendered_html(trimmed(body), true, true)
}

/// Renders the body of a post. Nothing is escaped or removed beyond what
/// Markdown itself asks for.
pub fn render_body(body: &str) -> (html: String)
    ensures
        html@ == body_html(body@),
{
    push_html(trim(body), true, true)
}

/// Rendering depends on the text alone: the same body gives the same HTML,
/// however often it is rendered.
pub proof fn lemma_rendering_is_repeatable(first: Seq<char>, second: Seq<char>)
    requires
        first == second,
    ensures
        body_html(first) == body_html(second),
{
}

} // verus!
