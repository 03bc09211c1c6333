//! The load protocol.
//!
//! A load never reads the staging file: it looks only at the committed file.
//! A missing file means no save ever committed, so the default empty-array
//! document is returned. A file that reads back as valid JSON is returned
//! unchanged, byte for byte — the store never re-serializes or reformats. A
//! file whose content does not parse is quarantined under a timestamped name
//! and downgraded to the default document, so the caller keeps working; only
//! a read failure on an existing file is surfaced as an error.
//!
//! The embedding program reads the committed file and hands what it found to
//! [`resolve_load`]; the returned [`LoadDecision`] says what to give the
//! caller and whether to quarantine first.

use vstd::prelude::*;

use crate::errors::ErrorKind;
use crate::json::{default_document, empty_document, json_accepted, json_ok};

verus! {

/// What the embedding program found when it went to read the committed file.
pub enum LoadInput {
    /// The committed file does not exist: no save ever committed.
    Missing,
    /// The committed file exists but could not be read.
    Unreadable,
    /// The committed file's full content.
    Content(String),
}

/// What a load hands back to the caller.
pub enum LoadDecision {
    /// Return this document to the caller.
    Deliver(String),
    /// The committed file is corrupt: copy it to a quarantine file (best
    /// effort), then return this default document to the caller.
    QuarantineThenDeliver(String),
    /// Surface this failure to the caller.
    Abort(ErrorKind),
}

/// The document a load yields, as a function of the committed file's content
/// alone (`None` when the file does not exist): the content itself when it is
/// valid JSON, the default empty-array document otherwise.
pub open spec fn load_outcome(primary: Option<Seq<char>>) -> Seq<char> {
    match primary {
        Option::None => empty_document(),
        Option::Some(content) => if json_ok(content) {
            content
        } else {
            empty_document()
        },
    }
}

/// Decides a load from what the committed file held. The decision delivers
/// exactly [`load_outcome`] of the file's content, orders a quarantine
/// exactly when the content exists but is not valid JSON, and aborts exactly
/// when the file exists but could not be read. Every document delivered is
/// valid JSON.
pub fn resolve_load(input: LoadInput) -> (d: LoadDecision)
    ensures
        input is Missing ==> (d matches LoadDecision::Deliver(s) && s@ == load_outcome(
            Option::None,
        ) && json_ok(s@)),
        input matches LoadInput::Content(c) ==> ({
            &&& json_ok(c@) ==> (d matches LoadDecision::Deliver(s) && s@ == c@)
            &&& !json_ok(c@) ==> (d matches LoadDecision::QuarantineThenDeliver(s) && s@
                == empty_document())
            &&& (d matches LoadDecision::Deliver(s) ==> s@ == load_outcome(Option::Some(c@)))
            &&& (d matches LoadDecision::QuarantineThenDeliver(s) ==> s@ == load_outcome(
                Option::Some(c@),
            ) && json_ok(s@))
        }),
        input is Unreadable ==> d == LoadDecision::Abort(ErrorKind::ReadError),
{
    match input {
        LoadInput::Missing => LoadDecision::Deliver(default_document()),
        LoadInput::Unreadable => LoadDecision::Abort(ErrorKind::ReadError),
        LoadInput::Content(content) => {
            if json_accepted(content.as_str()) {
                LoadDecision::Deliver(content)
            } else {
                LoadDecision::QuarantineThenDeliver(default_document())
            }
        },
    }
}

} // verus!
