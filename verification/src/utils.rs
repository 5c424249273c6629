//! JSON text as highlighted HTML.
use vstd::prelude::*;

verus! {

/// The HTML that syntect's `ClassedHTMLGenerator` (spaced class names, the
/// default syntaxes' JSON grammar) makes of `s`, fed line by line with the
/// line endings kept; `None` where the grammar is missing or a line fails to
/// parse.
pub uninterp spec fn json_html(s: Seq<char>) -> Option<Seq<char>>;

/// JSON text as highlighted HTML, through syntect. The result depends on `s`
/// alone: the syntax set is syntect's built-in one.
#[verifier::external_body]
pub fn json_html_syntect(s: &str) -> (r: Option<String>)
    ensures
        r is Some == json_html(s@) is Some,
        r matches Some(t) ==> json_html(s@) == Some(t@),
{
    let ps = syntect::parsing::SyntaxSet::load_defaults_newlines();
    let syntax = ps.find_syntax_by_extension("json")?;
    let mut h = syntect::html::ClassedHTMLGenerator::new_with_class_style(
        syntax,
        &ps,
        syntect::html::ClassStyle::Spaced,
    );
    for line in syntect::util::LinesWithEndings::from(s) {
        h.parse_html_for_line_which_includes_newline(line).ok()?;
    }
    Some(h.finalize())
}

} // verus!
