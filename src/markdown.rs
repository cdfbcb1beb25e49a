//! Rendering a document body, written in Markdown, to HTML.
use vstd::prelude::*;

verus! {

/// The HTML that pulldown-cmark renders for a Markdown text, with
/// strikethrough enabled.
pub uninterp spec fn markdown_html(text: Seq<char>) -> Seq<char>;

/// Relies on `pulldown_cmark::Parser::new_ext` and `pulldown_cmark::html::push_html`:
/// the HTML depends on the text alone, and is appended to an empty string.
#[verifier::external_body]
fn render_markdown(input: &str) -> (r: String)
    ensures
        r@ == markdown_html(input@),
{
    let mut out = String::new();
    let parser = pulldown_cmark::Parser::new_ext(input, pulldown_cmark::Options::ENABLE_STRIKETHROUGH);
    pulldown_cmark::html::push_html(&mut out, parser);
    out
}

/// Renders the Markdown text `input` to HTML, with `~~strikethrough~~`.
pub fn parse_md(input: &str) -> (r: String)
    ensures
        r@ == markdown_html(input@),
{
    render_markdown(input)
}

} // verus!
