//! Selection of text fragments from a parsed document, through the
//! `scraper` crate.

use vstd::prelude::*;

verus! {

/// Whether `sel` is a valid CSS selector group.
pub uninterp spec fn selector_ok(sel: Seq<char>) -> bool;

/// The text content of the nodes of `doc` that match `sel`, in document
/// order: for each matched node, the concatenation of its descendant text.
pub uninterp spec fn selected_text(doc: Seq<char>, sel: Seq<char>) -> Seq<Seq<char>>;

/// Relies on scraper::Selector::parse: whether `sel` parses as a CSS
/// selector group, a function of the selector text alone.
#[verifier::external_body]
pub(crate) fn selector_is_valid(sel: &str) -> (b: bool)
    ensures
        b == selector_ok(sel@),
{
    scraper::Selector::parse(sel).is_ok()
}

/// Relies on scraper::Html::parse_fragment, Selector::parse, Html::select
/// and ElementRef::text: leniently parses `html`, matches `sel` against the
/// tree in document order, and hands back each match's descendant text;
/// `None` exactly when the selector itself does not parse.
#[verifier::external_body]
pub(crate) fn select_text(html: &str, sel: &str) -> (r: Option<Vec<String>>)
    ensures
        r is Some <==> selector_ok(sel@),
        r matches Some(v) ==> v@.map_values(|t: String| t@) == selected_text(html@, sel@),
{
    let selector = match scraper::Selector::parse(sel) {
        Ok(s) => s,
        Err(_) => return None,
    };
    let tree = scraper::Html::parse_fragment(html);
    Some(tree.select(&selector).map(|e| e.text().collect::<String>()).collect())
}

} // verus!
