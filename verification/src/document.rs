//! The boundary to the HTML engine: parsing markup, compiling selector
//! patterns, querying a document and reading what an element holds.
//!
//! Everything in this file is believed, not proved. The engine's values are
//! opaque here; the contracts speak of them through four uninterpreted
//! functions, so that the rest of the crate can be stated over plain values.

use vstd::prelude::*;

verus! {

#[verifier::external_type_specification]
#[verifier::external_body]
pub struct ExHtml(scraper::Html);

#[verifier::external_type_specification]
#[verifier::external_body]
pub struct ExSelector(scraper::Selector);

#[verifier::external_type_specification]
#[verifier::external_body]
pub struct ExElementRef<'a>(scraper::ElementRef<'a>);

/// What the resolution rules read of one element: the values of its
/// attributes by name, and the text of its descendants joined in order.
pub ghost struct ElementData {
    pub attributes: Map<Seq<char>, Seq<char>>,
    pub text: Seq<char>,
}

impl ElementData {
    /// The value of the attribute `name`, where the element has one.
    pub open spec fn attribute(self, name: Seq<char>) -> Option<Seq<char>> {
        if self.attributes.contains_key(name) {
            Some(self.attributes[name])
        } else {
            None
        }
    }
}

/// The markup a document was parsed from.
pub uninterp spec fn document_markup(document: scraper::Html) -> Seq<char>;

/// The pattern a selector was compiled from.
pub uninterp spec fn selector_pattern(selector: scraper::Selector) -> Seq<char>;

/// What an element reference points at.
pub uninterp spec fn element_data(element: scraper::ElementRef) -> ElementData;

/// The elements that a query for `pattern` yields on the document parsed from
/// `markup`, in the order in which the engine yields them.
pub uninterp spec fn matching(markup: Seq<char>, pattern: Seq<char>) -> Seq<ElementData>;

/// What each of a run of element references points at, in the same order.
pub open spec fn data_of(found: Seq<scraper::ElementRef>) -> Seq<ElementData> {
    found.map_values(|element: scraper::ElementRef| element_data(element))
}

/// The selector patterns that this crate ships. Each of them is a well-formed
/// selector, which is all that `compile` asks of its argument.
pub open spec fn shipped_pattern(pattern: Seq<char>) -> bool {
    ||| pattern == "title"@
    ||| pattern == "html"@
    ||| pattern == "link[rel=\"icon\"]"@
    ||| pattern == "meta[name=\"description\"]"@
    ||| pattern == "meta[property=\"og:title\"]"@
    ||| pattern == "meta[property=\"og:description\"]"@
    ||| pattern == "meta[property=\"og:image\"]"@
    ||| pattern == "meta[name=\"twitter:title\"]"@
    ||| pattern == "meta[name=\"twitter:description\"]"@
    ||| pattern == "meta[name=\"twitter:image\"]"@
}

/// Calls `scraper::Html::parse_document`, which never fails. The contract only
/// records which markup the returned document came from.
#[verifier::external_body]
pub(crate) fn parse_document(markup: &str) -> (document: scraper::Html)
    ensures
        document_markup(document) == markup@,
{
    scraper::Html::parse_document(markup)
}

/// Calls `scraper::Selector::parse`, which returns an error on a malformed
/// pattern. The precondition admits the shipped patterns only, and the claim
/// believed here is that the engine accepts each of them; a pattern that it
/// rejected would stop the program at this call. The contract records which
/// pattern the selector came from.
#[verifier::external_body]
pub(crate) fn compile(pattern: &str) -> (selector: scraper::Selector)
    requires
        shipped_pattern(pattern@),
    ensures
        selector_pattern(selector) == pattern@,
{
    scraper::Selector::parse(pattern).unwrap()
}

/// Calls `scraper::Html::select` and gathers what the iterator yields, in its
/// order. The claim is that the elements found depend only on the markup the
/// document was parsed from and on the pattern the selector was compiled
/// from.
#[verifier::external_body]
pub(crate) fn select_all<'a>(document: &'a scraper::Html, selector: &scraper::Selector) -> (found:
    Vec<scraper::ElementRef<'a>>)
    ensures
        data_of(found@) == matching(document_markup(*document), selector_pattern(*selector)),
{
    document.select(selector).collect()
}

/// Calls `scraper::node::Element::attr` on the element referred to: the value
/// of the attribute of that name, unchanged, or nothing where the element has
/// no such attribute.
#[verifier::external_body]
pub(crate) fn attribute_of<'a>(element: &scraper::ElementRef<'a>, name: &str) -> (value: Option<
    &'a str,
>)
    ensures
        match value {
            Some(v) => element_data(*element).attribute(name@) == Some(v@),
            None => element_data(*element).attribute(name@).is_none(),
        },
{
    element.value().attr(name)
}

/// Calls `scraper::ElementRef::text` and joins the pieces it yields: the text
/// of the element's descendants, in order, unchanged.
#[verifier::external_body]
pub(crate) fn text_of(element: &scraper::ElementRef) -> (text: String)
    ensures
        text@ == element_data(*element).text,
{
    element.text().collect::<String>()
}

} // verus!
