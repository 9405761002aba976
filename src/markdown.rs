//! Markdown, written as HTML.

use vstd::prelude::*;

verus! {

/// What pulldown-cmark writes as HTML for a markdown text.
pub uninterp spec fn markdown_html(text: Seq<char>) -> Seq<char>;

/// Relies on pulldown-cmark's `Parser::new` and `html::push_html`: the HTML
/// depends on the text alone.
#[verifier::external_body]
pub(crate) fn to_html(text: &str) -> (r: String)
    ensures
        r@ == markdown_html(text@),
{
    let mut out = String::new();
    pulldown_cmark::html::push_html(&mut out, pulldown_cmark::Parser::new(text));
    out
}

} // verus!
