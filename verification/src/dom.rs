//! The trusted document layer.
//!
//! A parsed document and a compiled selector are opaque outside values;
//! an element is addressed by its node id. The wrappers below each make
//! one call into the document engine and convert between node ids and
//! element references; nothing is promised of what a document contains,
//! so every parser in this crate states what holds of its result
//! whatever the document holds. The verified helpers at the end give the
//! extraction primitives their exact text semantics.

use vstd::prelude::*;

use crate::text::{
    chars_to_string, cleaned, first_nonempty_text, str_chars, trim_chars, trimmed, without_breaks,
};

verus! {

#[verifier::external_type_specification]
#[verifier::external_body]
pub struct ExHtml(scraper::Html);

#[verifier::external_type_specification]
#[verifier::external_body]
pub struct ExSelector(scraper::Selector);

#[verifier::external_type_specification]
#[verifier::external_body]
pub struct ExNodeId(ego_tree::NodeId);

/// Relies on scraper's `Html::parse_document`: parsing never fails; bad
/// markup yields a document with recorded errors.
#[verifier::external_body]
pub fn parse_document(html: &str) -> scraper::Html {
    scraper::Html::parse_document(html)
}

/// Relies on scraper's `Selector::parse`: compiles a CSS selector
/// expression, `None` exactly when the expression is malformed.
#[verifier::external_body]
pub fn compile_selector(s: &str) -> Option<scraper::Selector> {
    scraper::Selector::parse(s).ok()
}

/// Relies on scraper's `Html::select`: the node ids of the elements
/// matching the selector, in the order the engine stored them (document
/// order for well-formed markup).
#[verifier::external_body]
pub fn select_document(doc: &scraper::Html, sel: &scraper::Selector) -> Vec<ego_tree::NodeId> {
    doc.select(sel).map(|e| e.id()).collect()
}

/// Relies on scraper's `ElementRef::select`: the node ids of the
/// descendants of the given element matching the selector, in document
/// order. Every caller hands back an id this document produced; ids are
/// never carried across documents.
#[verifier::external_body]
pub fn select_within(
    doc: &scraper::Html,
    node: ego_tree::NodeId,
    sel: &scraper::Selector,
) -> Vec<ego_tree::NodeId> {
    match doc.tree.get(node).and_then(scraper::ElementRef::wrap) {
        Some(el) => el.select(sel).map(|e| e.id()).collect(),
        None => Vec::new(),
    }
}

/// Relies on scraper's `ElementRef::text`: the descendant text nodes of
/// the element, in document order.
#[verifier::external_body]
pub fn node_texts(doc: &scraper::Html, node: ego_tree::NodeId) -> Vec<String> {
    match doc.tree.get(node).and_then(scraper::ElementRef::wrap) {
        Some(el) => el.text().map(|t| t.to_string()).collect(),
        None => Vec::new(),
    }
}

/// Relies on scraper's `ElementRef::attr`: the attribute's value when
/// the element carries it.
#[verifier::external_body]
pub fn node_attr(doc: &scraper::Html, node: ego_tree::NodeId, name: &str) -> Option<String> {
    doc.tree.get(node).and_then(scraper::ElementRef::wrap).and_then(|el| el.attr(name)).map(
        |v| v.to_string(),
    )
}

/// Relies on scraper's `Element::classes`: the element's class tokens,
/// split on ASCII whitespace, sorted and deduplicated by the engine.
#[verifier::external_body]
pub fn node_classes(doc: &scraper::Html, node: ego_tree::NodeId) -> Vec<String> {
    match doc.tree.get(node).and_then(scraper::ElementRef::wrap) {
        Some(el) => el.value().classes().map(|c| c.to_string()).collect(),
        None => Vec::new(),
    }
}

/// Relies on scraper's `ElementRef::child_elements`: the child nodes
/// that are elements, in order.
#[verifier::external_body]
pub fn child_elements(doc: &scraper::Html, node: ego_tree::NodeId) -> Vec<ego_tree::NodeId> {
    match doc.tree.get(node).and_then(scraper::ElementRef::wrap) {
        Some(el) => el.child_elements().map(|e| e.id()).collect(),
        None => Vec::new(),
    }
}

/// Relies on ego-tree's `NodeRef::next_siblings`: the first following
/// sibling that is an element.
#[verifier::external_body]
pub fn next_sibling_element(
    doc: &scraper::Html,
    node: ego_tree::NodeId,
) -> Option<ego_tree::NodeId> {
    let node_ref = doc.tree.get(node)?;
    node_ref.next_siblings().filter_map(scraper::ElementRef::wrap).next().map(|e| e.id())
}

/// All text nodes concatenated as they stand, untrimmed.
pub open spec fn texts_concat(texts: Seq<Seq<char>>) -> Seq<char>
    decreases texts.len(),
{
    if texts.len() == 0 {
        Seq::empty()
    } else {
        texts_concat(texts.drop_last()) + texts.last()
    }
}

/// The whole text content, concatenated and then trimmed: how a cell
/// whose pieces must keep their inner spacing is read.
pub fn all_text_of(texts: &Vec<String>) -> (r: String)
    ensures
        r@ == trimmed(texts_concat(texts.deep_view())),
{
    let ghost all = texts.deep_view();
    let mut whole: Vec<char> = Vec::new();
    let mut i: usize = 0;
    while i < texts.len()
        invariant
            i <= texts@.len(),
            all == texts.deep_view(),
            all.len() == texts@.len(),
            forall|j: int| 0 <= j < all.len() ==> all[j] == texts@[j]@,
            whole@ == texts_concat(all.subrange(0, i as int)),
        decreases texts@.len() - i,
    {
        let piece = str_chars(texts[i].as_str());
        let mut k: usize = 0;
        while k < piece.len()
            invariant
                k <= piece@.len(),
                piece@ == texts@[i as int]@,
                i < texts@.len(),
                all.len() == texts@.len(),
                forall|j: int| 0 <= j < all.len() ==> all[j] == texts@[j]@,
                whole@ == texts_concat(all.subrange(0, i as int)) + piece@.subrange(0, k as int),
            decreases piece@.len() - k,
        {
            whole.push(piece[k]);
            k = k + 1;
            proof {
                assert(whole@ =~= texts_concat(all.subrange(0, i as int)) + piece@.subrange(
                    0,
                    k as int,
                ));
            }
        }
        i = i + 1;
        proof {
            let s = all.subrange(0, i as int);
            assert(s.drop_last() =~= all.subrange(0, i as int - 1));
            assert(s.last() == all[i as int - 1]);
            assert(piece@.subrange(0, piece@.len() as int) =~= piece@);
            assert(whole@ =~= texts_concat(s));
        }
    }
    proof {
        assert(all.subrange(0, all.len() as int) =~= all);
    }
    let t = trim_chars(&whole);
    chars_to_string(&t)
}

/// The first text node of the list, trimmed: how a single inline label
/// is read.
pub open spec fn first_text_trimmed(texts: Seq<Seq<char>>) -> Seq<char> {
    if texts.len() == 0 {
        Seq::empty()
    } else {
        trimmed(texts[0])
    }
}

/// The last text node of the list, trimmed and stripped of newlines and
/// tabs: how a trailing label (a tag, a series name) is read.
pub open spec fn last_text_cleaned(texts: Seq<Seq<char>>) -> Seq<char> {
    if texts.len() == 0 {
        Seq::empty()
    } else {
        without_breaks(trimmed(texts.last()))
    }
}

/// The last text node of the list, only trimmed.
pub open spec fn last_text_trimmed(texts: Seq<Seq<char>>) -> Seq<char> {
    if texts.len() == 0 {
        Seq::empty()
    } else {
        trimmed(texts.last())
    }
}

/// The last text node, trimmed; empty when there is none.
pub fn last_text_trimmed_of(texts: &Vec<String>) -> (r: String)
    ensures
        r@ == last_text_trimmed(texts.deep_view()),
{
    if texts.len() == 0 {
        proof {
            assert(texts.deep_view().len() == 0);
        }
        return String::new();
    }
    proof {
        assert(texts.deep_view().last() == texts@[texts@.len() - 1]@);
    }
    let v = str_chars(texts[texts.len() - 1].as_str());
    let t = trim_chars(&v);
    chars_to_string(&t)
}

/// The first text node, trimmed; empty when there is none.
pub fn first_text_of(texts: &Vec<String>) -> (r: String)
    ensures
        r@ == first_text_trimmed(texts.deep_view()),
{
    if texts.len() == 0 {
        proof {
            assert(texts.deep_view().len() == 0);
        }
        return String::new();
    }
    proof {
        assert(texts.deep_view()[0] == texts@[0]@);
    }
    let v = str_chars(texts[0].as_str());
    let t = trim_chars(&v);
    chars_to_string(&t)
}

/// The last text node, trimmed and cleaned; empty when there is none.
pub fn last_text_of(texts: &Vec<String>) -> (r: String)
    ensures
        r@ == last_text_cleaned(texts.deep_view()),
{
    if texts.len() == 0 {
        proof {
            assert(texts.deep_view().len() == 0);
        }
        return String::new();
    }
    proof {
        assert(texts.deep_view().last() == texts@[texts@.len() - 1]@);
    }
    let v = str_chars(texts[texts.len() - 1].as_str());
    let c = crate::text::clean_chars(&v);
    chars_to_string(&c)
}

/// The extraction primitive of every parser: the first non-empty trimmed
/// text under the first element matching the selector within `node`,
/// cleaned; the empty string when nothing matches.
pub(crate) fn select_text(
    doc: &scraper::Html,
    node: ego_tree::NodeId,
    sel: &scraper::Selector,
) -> String {
    let found = select_within(doc, node, sel);
    if found.len() == 0 {
        return String::new();
    }
    let texts = node_texts(doc, found[0]);
    first_nonempty_text(&texts)
}

/// The companion attribute primitive: the attribute of the first element
/// matching the selector within `node`, or the empty string.
pub(crate) fn select_attr(
    doc: &scraper::Html,
    node: ego_tree::NodeId,
    sel: &scraper::Selector,
    name: &str,
) -> String {
    let found = select_within(doc, node, sel);
    if found.len() == 0 {
        return String::new();
    }
    match node_attr(doc, found[0], name) {
        Some(v) => v,
        None => String::new(),
    }
}

/// The attribute of the first match, kept optional so that callers can
/// tell an absent attribute from an empty one.
pub(crate) fn select_attr_opt(
    doc: &scraper::Html,
    node: ego_tree::NodeId,
    sel: &scraper::Selector,
    name: &str,
) -> Option<String> {
    let found = select_within(doc, node, sel);
    if found.len() == 0 {
        return None;
    }
    node_attr(doc, found[0], name)
}

} // verus!
