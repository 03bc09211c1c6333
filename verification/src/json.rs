//! JSON validation and the default document.
//!
//! The store treats the document as an opaque text blob that must parse as
//! JSON. Whether a given text does is decided by the `serde_json` parser; the
//! store's contracts refer to that decision through the name [`json_ok`].

use vstd::prelude::*;

verus! {

/// Whether `serde_json` accepts this text as a complete JSON document.
pub uninterp spec fn json_ok(s: Seq<char>) -> bool;

/// The literal empty-array document, handed out when no committed document
/// exists or the committed one turned out to be corrupt.
pub open spec fn empty_document() -> Seq<char> {
    seq!['[', ']']
}

/// Relies on `serde_json::from_str::<serde_json::Value>`: it returns `Ok`
/// exactly on the strings that form one complete JSON document, and its
/// verdict depends on the characters of the input alone. An empty JSON array
/// is such a document.
#[verifier::external_body]
pub(crate) fn json_accepted(text: &str) -> (r: bool)
    ensures
        r == json_ok(text@),
        text@ == empty_document() ==> r,
{
    serde_json::from_str::<serde_json::Value>(text).is_ok()
}

/// Builds the default document: the empty JSON array, revalidated before it
/// is handed out so that every document the store returns is known-good.
pub fn default_document() -> (s: String)
    ensures
        s@ == empty_document(),
        json_ok(s@),
{
    let s = String::from_str("[]");
    proof {
        reveal_strlit("[]");
        assert(s@ =~= empty_document());
    }
    let accepted = json_accepted(s.as_str());
    assert(accepted);
    s
}

} // verus!
