//! The save protocol.
//!
//! A save commits a new document in five steps: ensure the storage directory
//! exists, validate the document as JSON, write it to the staging file, read
//! the staging file back and compare it byte for byte against the document,
//! and finally rename the staging file onto the committed file in one atomic
//! filesystem operation. A failure at any step aborts the save and leaves the
//! previously committed document untouched.
//!
//! The decisions of that protocol are the verified state machine [`SaveJob`].
//! The embedding program owns the actual files: it performs each [`IoAction`]
//! the machine asks for and reports the outcome back through the machine's
//! step methods. [`save_transition`] is the machine's transition relation;
//! every step method ensures that it holds of the step just taken.

use vstd::prelude::*;

use crate::errors::ErrorKind;
use crate::json::json_ok;

verus! {

/// Where a save currently stands.
#[derive(Clone, Copy, Debug, PartialEq, Eq, Structural)]
pub enum SavePhase {
    /// Waiting to hear whether the storage directory exists or was created.
    DirPending,
    /// The document was validated; waiting for the staging write's outcome.
    StagePending,
    /// The staging file was written; waiting for its content read back.
    VerifyPending,
    /// The readback matched; waiting for the atomic rename's outcome.
    CommitPending,
    /// The rename succeeded: the committed file now holds the document.
    Committed,
    /// The save was aborted; the committed file is whatever it was before.
    Failed(ErrorKind),
}

/// What the embedding program must do next on behalf of a save.
#[derive(Clone, Copy, Debug, PartialEq, Eq, Structural)]
pub enum IoAction {
    /// Create the storage directory if it does not exist, then report whether
    /// it is available.
    EnsureDirectory,
    /// Write the job's document to the staging file, fully overwriting any
    /// previous staging content, then report whether the write succeeded.
    WriteStaging,
    /// Read the staging file's full content back and hand it to the job.
    ReadBackStaging,
    /// Rename the staging file onto the committed file's path, then report
    /// whether the rename succeeded.
    CommitStaging,
    /// Remove the staging file (best effort), then report this failure to the
    /// caller and stop.
    DiscardThenFail(ErrorKind),
    /// Report this failure to the caller and stop; the staging file needs no
    /// cleanup.
    Fail(ErrorKind),
    /// Report success to the caller and stop: the document is committed.
    Succeed,
}

/// What the environment reported back for one step of a save: either the
/// plain outcome of a directory, write or rename operation, or the staging
/// content read back (`None` when the read itself failed).
pub enum StepEvent {
    Completed(bool),
    ReadBack(Option<Seq<char>>),
}

/// The abstract state of a save job: the document being committed and the
/// phase the protocol is in.
pub struct SaveJobView {
    pub text: Seq<char>,
    pub phase: SavePhase,
}

/// The transition relation of the save protocol: from a job with document
/// `text` in phase `pre`, the event `ev` moves it to phase `post` and asks
/// the environment for `act`. It holds of every step a [`SaveJob`] takes.
pub open spec fn save_transition(
    text: Seq<char>,
    pre: SavePhase,
    ev: StepEvent,
    post: SavePhase,
    act: IoAction,
) -> bool {
    match (pre, ev) {
        (SavePhase::DirPending, StepEvent::Completed(ok)) => {
            if !ok {
                post == SavePhase::Failed(ErrorKind::DirectoryError) && act == IoAction::Fail(
                    ErrorKind::DirectoryError,
                )
            } else if json_ok(text) {
                post == SavePhase::StagePending && act == IoAction::WriteStaging
            } else {
                post == SavePhase::Failed(ErrorKind::InvalidInput) && act == IoAction::Fail(
                    ErrorKind::InvalidInput,
                )
            }
        },
        (SavePhase::StagePending, StepEvent::Completed(ok)) => {
            if ok {
                post == SavePhase::VerifyPending && act == IoAction::ReadBackStaging
            } else {
                post == SavePhase::Failed(ErrorKind::WriteError) && act == IoAction::Fail(
                    ErrorKind::WriteError,
                )
            }
        },
        (SavePhase::VerifyPending, StepEvent::ReadBack(readback)) => {
            match readback {
                Some(content) => {
                    if content == text {
                        post == SavePhase::CommitPending && act == IoAction::CommitStaging
                    } else {
                        post == SavePhase::Failed(ErrorKind::VerificationError) && act
                            == IoAction::DiscardThenFail(ErrorKind::VerificationError)
                    }
                },
                None => {
                    post == SavePhase::Failed(ErrorKind::VerificationError) && act
                        == IoAction::Fail(ErrorKind::VerificationError)
                },
            }
        },
        (SavePhase::CommitPending, StepEvent::Completed(ok)) => {
            if ok {
                post == SavePhase::Committed && act == IoAction::Succeed
            } else {
                post == SavePhase::Failed(ErrorKind::ReplaceError) && act
                    == IoAction::DiscardThenFail(ErrorKind::ReplaceError)
            }
        },
        _ => false,
    }
}

/// Whether a phase is terminal: the save has either committed or aborted.
pub open spec fn phase_done(phase: SavePhase) -> bool {
    phase is Committed || phase is Failed
}

/// One in-progress save of a single document.
pub struct SaveJob {
    text: String,
    phase: SavePhase,
}

impl View for SaveJob {
    type V = SaveJobView;

    closed spec fn view(&self) -> SaveJobView {
        SaveJobView { text: self.text@, phase: self.phase }
    }
}

impl SaveJob {
    /// Begins a save of `text`. The first thing the environment must do is
    /// ensure the storage directory exists, so that is the action returned.
    pub fn new(text: String) -> (r: (SaveJob, IoAction))
        ensures
            r.0@.text == text@,
            r.0@.phase is DirPending,
            r.1 == IoAction::EnsureDirectory,
    {
        (SaveJob { text, phase: SavePhase::DirPending }, IoAction::EnsureDirectory)
    }

    /// The document this job is committing.
    pub fn document(&self) -> (t: &String)
        ensures
            t@ == self@.text,
    {
        &self.text
    }

    /// The phase the job is in.
    pub fn phase(&self) -> (p: SavePhase)
        ensures
            p == self@.phase,
    {
        self.phase
    }

    /// Takes the directory step: `ok` says whether the storage directory
    /// exists or was created. On success the job validates the document and
    /// asks for the staging write; an invalid document aborts the save before
    /// anything is written.
    pub fn directory_ensured(&mut self, ok: bool) -> (act: IoAction)
        requires
            old(self)@.phase is DirPending,
        ensures
            final(self)@.text == old(self)@.text,
            save_transition(
                old(self)@.text,
                old(self)@.phase,
                StepEvent::Completed(ok),
                final(self)@.phase,
                act,
            ),
    {
        if !ok {
            self.phase = SavePhase::Failed(ErrorKind::DirectoryError);
            IoAction::Fail(ErrorKind::DirectoryError)
        } else if crate::json::json_accepted(self.text.as_str()) {
            self.phase = SavePhase::StagePending;
            IoAction::WriteStaging
        } else {
            self.phase = SavePhase::Failed(ErrorKind::InvalidInput);
            IoAction::Fail(ErrorKind::InvalidInput)
        }
    }

    /// Takes the staging step: `ok` says whether the document was written to
    /// the staging file. On success the job asks for the readback that will
    /// verify the write.
    pub fn staging_written(&mut self, ok: bool) -> (act: IoAction)
        requires
            old(self)@.phase is StagePending,
        ensures
            final(self)@.text == old(self)@.text,
            save_transition(
                old(self)@.text,
                old(self)@.phase,
                StepEvent::Completed(ok),
                final(self)@.phase,
                act,
            ),
    {
        if ok {
            self.phase = SavePhase::VerifyPending;
            IoAction::ReadBackStaging
        } else {
            self.phase = SavePhase::Failed(ErrorKind::WriteError);
            IoAction::Fail(ErrorKind::WriteError)
        }
    }

    /// Takes the verification step: `readback` is the staging file's content
    /// read back, or `None` when the read failed. Only a readback identical
    /// to the document lets the save go on to the atomic rename; a mismatch
    /// aborts the save and asks for the staging file's removal, so a silently
    /// truncated or corrupted write can never be committed.
    pub fn staging_read(&mut self, readback: Option<String>) -> (act: IoAction)
        requires
            old(self)@.phase is VerifyPending,
        ensures
            final(self)@.text == old(self)@.text,
            save_transition(
                old(self)@.text,
                old(self)@.phase,
                StepEvent::ReadBack(readback.deep_view()),
                final(self)@.phase,
                act,
            ),
    {
        match readback {
            Some(content) => {
                if content == self.text {
                    self.phase = SavePhase::CommitPending;
                    IoAction::CommitStaging
                } else {
                    self.phase = SavePhase::Failed(ErrorKind::VerificationError);
                    IoAction::DiscardThenFail(ErrorKind::VerificationError)
                }
            },
            None => {
                self.phase = SavePhase::Failed(ErrorKind::VerificationError);
                IoAction::Fail(ErrorKind::VerificationError)
            },
        }
    }

    /// Takes the commit step: `ok` says whether the staging file was renamed
    /// onto the committed file's path. On success the save is complete; on
    /// failure the previously committed document is still in place and the
    /// staging file is discarded best effort.
    pub fn commit_attempted(&mut self, ok: bool) -> (act: IoAction)
        requires
            old(self)@.phase is CommitPending,
        ensures
            final(self)@.text == old(self)@.text,
            save_transition(
                old(self)@.text,
                old(self)@.phase,
                StepEvent::Completed(ok),
                final(self)@.phase,
                act,
            ),
    {
        if ok {
            self.phase = SavePhase::Committed;
            IoAction::Succeed
        } else {
            self.phase = SavePhase::Failed(ErrorKind::ReplaceError);
            IoAction::DiscardThenFail(ErrorKind::ReplaceError)
        }
    }
}

} // verus!
