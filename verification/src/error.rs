//! Error taxonomy for the extraction engine.

use vstd::prelude::*;

verus! {

/// All errors a parse call can surface.
///
/// Transport-level failures never occur here: the library only consumes
/// documents that were already fetched and parsed. A parser fails outright
/// only when a structurally required element or field cannot be produced;
/// everything else degrades into absent optional values.
#[derive(Debug, Clone, PartialEq, Eq)]
pub enum VlrError {
    /// A CSS selector literal could not be compiled.
    Selector(String),
    /// An identity-critical integer field could not be parsed.
    IntParse(String),
    /// A structurally required date or time could not be parsed.
    DateParse(String),
    /// A structurally required element was not found.
    ElementNotFound(String),
}

} // verus!
