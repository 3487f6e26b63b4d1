//! Access to parsed HTML.
//!
//! Pages are parsed and searched by the `kuchiki` crate. A [`RawElement`] is
//! one element of a parsed page. What a search inside it finds is given a
//! name, so the scrapers' contracts can say which text they read.

use vstd::prelude::*;
use kuchiki::traits::TendrilSink;
use crate::pattern::option_view;
use crate::text::views;

verus! {

/// Makes `kuchiki::NodeRef`, a node of a parsed page, known to the verifier
/// as a type of which nothing is visible.
#[verifier::external_type_specification]
#[verifier::external_body]
pub struct ExNodeRef(kuchiki::NodeRef);

/// One element of a parsed page, together with the page it belongs to.
pub struct RawElement {
    pub node: kuchiki::NodeRef,
    pub document: kuchiki::NodeRef,
}

/// How many elements of the page `html` match the CSS selector `selector`,
/// in the reading of the `kuchiki` crate. `None` where `selector` is no
/// selector.
pub uninterp spec fn matched_count(html: Seq<char>, selector: Seq<char>) -> Option<nat>;

/// What a search finds in one element: its text contents and its attributes
/// by name.
pub struct Found {
    pub text: Seq<char>,
    pub attributes: Map<Seq<char>, Seq<char>>,
}

/// For every CSS selector that `kuchiki` accepts: what a search with it finds
/// in the elements at or below `node` that match, in document order.
pub uninterp spec fn selected(node: kuchiki::NodeRef) -> Map<Seq<char>, Seq<Found>>;

/// The attributes of `node` itself, by name.
pub uninterp spec fn own_attributes(node: kuchiki::NodeRef) -> Map<Seq<char>, Seq<char>>;

/// The value under `key`, if there is one.
pub open spec fn lookup<V>(map: Map<Seq<char>, V>, key: Seq<char>) -> Option<V> {
    if map.contains_key(key) {
        Some(map[key])
    } else {
        None
    }
}

/// The first element found for `selector`; `None` where the selector is
/// refused or matches nothing.
pub open spec fn first_found(found: Map<Seq<char>, Seq<Found>>, selector: Seq<char>) -> Option<
    Found,
> {
    if found.contains_key(selector) && found[selector].len() > 0 {
        Some(found[selector][0])
    } else {
        None
    }
}

/// The text of the first element found for `selector`.
pub open spec fn first_text_of(found: Map<Seq<char>, Seq<Found>>, selector: Seq<char>) -> Option<
    Seq<char>,
> {
    match first_found(found, selector) {
        Some(f) => Some(f.text),
        None => None,
    }
}

/// The texts of all elements found for `selector`; `None` where the selector
/// is refused.
pub open spec fn texts_of(found: Map<Seq<char>, Seq<Found>>, selector: Seq<char>) -> Option<
    Seq<Seq<char>>,
> {
    match lookup(found, selector) {
        Some(list) => Some(list.map_values(|f: Found| f.text)),
        None => None,
    }
}

/// The views of an optional list of strings.
pub open spec fn option_views(list: Option<Vec<String>>) -> Option<Seq<Seq<char>>> {
    match list {
        Some(l) => Some(views(l@)),
        None => None,
    }
}

/// The attribute `name` of the first element found for `selector`: `None`
/// where no element is found, `Some(None)` where the element has no such
/// attribute.
pub open spec fn attribute_of(
    found: Map<Seq<char>, Seq<Found>>,
    selector: Seq<char>,
    name: Seq<char>,
) -> Option<Option<Seq<char>>> {
    match first_found(found, selector) {
        Some(f) => Some(lookup(f.attributes, name)),
        None => None,
    }
}

/// The views of the outcome of an attribute search.
pub open spec fn nested_view(found: Option<Option<String>>) -> Option<Option<Seq<char>>> {
    match found {
        Some(a) => Some(option_view(a)),
        None => None,
    }
}

/// The longest text, in bytes of UTF-8, that is parsed as a page.
pub const MAX_TEXT_BYTES: usize = 0x3000_0000;

/// Parses `html` and returns the elements that match `selector`.
///
/// Trusted: parses with `kuchiki::parse_html` and searches the document with
/// `NodeRef::select`. The parser takes the text as a `tendril`, which panics
/// for a text of more than `u32::MAX` bytes; the bound on the length stays
/// well below that. The contract names how many elements are found; `None`
/// stands for a selector that `kuchiki` refuses.
#[verifier::external_body]
pub(crate) fn matched_elements(html: &str, selector: &str) -> (found: Option<Vec<RawElement>>)
    requires
        vstd::utf8::encode_utf8(html@).len() <= MAX_TEXT_BYTES,
    ensures
        match found {
            Some(elements) => matched_count(html@, selector@) == Some(elements@.len()),
            None => matched_count(html@, selector@) is None,
        },
{
    let document = kuchiki::parse_html().one(html);
    let matches = document.select(selector).ok()?;
    Some(matches.map(|m| RawElement { node: m.as_node().clone(), document: document.clone() }).collect())
}

impl RawElement {
    /// The text of the first element that matches `selector`.
    ///
    /// Trusted: calls `NodeRef::select_first` and, on the element found,
    /// `text_contents`. `select_first` is the first item of `select`, so the
    /// result is the text of the first element named for the selector.
    #[verifier::external_body]
    pub(crate) fn first_text(&self, selector: &str) -> (found: Option<String>)
        ensures
            option_view(found) == first_text_of(selected(self.node), selector@),
    {
        self.node.select_first(selector).ok().map(|e| e.text_contents())
    }

    /// The texts of all elements that match `selector`.
    ///
    /// Trusted: calls `NodeRef::select` and `text_contents` on each element
    /// found. `None` stands for a selector that `kuchiki` refuses.
    #[verifier::external_body]
    pub(crate) fn all_texts(&self, selector: &str) -> (found: Option<Vec<String>>)
        ensures
            option_views(found) == texts_of(selected(self.node), selector@),
    {
        self.node.select(selector).ok().map(|m| m.map(|e| e.text_contents()).collect())
    }

    /// The attribute `name` of the first element that matches `selector`.
    ///
    /// Trusted: calls `NodeRef::select_first` and looks the attribute up with
    /// `Attributes::get`. The outer `None` stands for a search that finds no
    /// element, the inner one for a missing attribute.
    #[verifier::external_body]
    pub(crate) fn first_attribute(&self, selector: &str, name: &str) -> (found: Option<Option<String>>)
        ensures
            nested_view(found) == attribute_of(selected(self.node), selector@, name@),
    {
        self.node.select_first(selector).ok().map(
            |e| e.attributes.borrow().get(name).map(|v| v.to_owned()),
        )
    }

    /// The element's own attribute `name`.
    ///
    /// Trusted: looks the attribute up with `Attributes::get` on the
    /// element's data.
    #[verifier::external_body]
    pub(crate) fn own_attribute(&self, name: &str) -> (found: Option<String>)
        ensures
            option_view(found) == lookup(own_attributes(self.node), name@),
    {
        self.node.as_element().and_then(|e| e.attributes.borrow().get(name).map(|v| v.to_owned()))
    }
}

} // verus!
