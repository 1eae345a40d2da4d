//! Markdown to HTML, through pulldown-cmark with every extension switched on.
use vstd::prelude::*;

verus! {

/// The HTML that pulldown-cmark produces for `source` with all of its
/// extensions enabled (tables, strikethrough, task lists, ...).
pub uninterp spec fn html_of(source: Seq<char>) -> Seq<char>;

/// Relies on `pulldown_cmark::Parser::new_ext` with `Options::all()` and
/// `pulldown_cmark::html::push_html`: the markup depends on the source text
/// alone, and writing into a `String` cannot fail.
#[verifier::external_body]
fn push_markdown_html(source: &str) -> (r: String)
    ensures
        r@ == html_of(source@),
{
    let mut buf = String::new();
    pulldown_cmark::html::push_html(
        &mut buf,
        pulldown_cmark::Parser::new_ext(source, pulldown_cmark::Options::all()),
    );
    buf
}

/// Renders markdown `source` to HTML. Malformed markdown degrades to
/// best-effort markup; rendering never fails.
pub fn mark_cmrk(source: &str) -> (r: String)
    ensures
        r@ == html_of(source@),
{
    push_markdown_html(source)
}

/// Rendering is a function of the source text alone: two sources with the
/// same text render to the same markup.
pub proof fn lemma_render_depends_on_source_only(a: Seq<char>, b: Seq<char>)
    requires
        a == b,
    ensures
        html_of(a) == html_of(b),
{
}

} // verus!
