//! What the protocol guarantees about the files on disk.
//!
//! [`DiskView`] is an abstract view of the two files the store mutates: the
//! committed file and the staging file. [`env_step`] says how one step of the
//! environment may change them while a save is in a given phase; it is
//! deliberately weak about failures — a failed or even a reportedly
//! successful staging write may leave arbitrary staging content, which is
//! exactly the storage-layer corruption the readback verification exists to
//! catch — and it is only as strong about a successful rename as an atomic
//! rename is: the committed file becomes the staging file's content, whole.
//!
//! [`save_inv`] is the induction invariant tying a job to the disk: until the
//! commit succeeds, the committed file is untouched; once it succeeds, the
//! committed file holds exactly the job's document, which was validated as
//! JSON before anything was written. [`lemma_save_step_preserves_inv`] proves
//! the invariant across every transition of the machine under every behaviour
//! `env_step` admits, and the lemmas after it state the store's headline
//! guarantees as consequences: atomicity under interruption, the save/load
//! round trip, rejection of invalid input with nothing written, and the
//! idempotence of load.

use vstd::prelude::*;

use crate::errors::ErrorKind;
use crate::json::json_ok;
use crate::load::load_outcome;
use crate::save::{phase_done, save_transition, IoAction, SavePhase, StepEvent};

verus! {

/// An abstract view of the store's files: the content of the committed file
/// and of the staging file, `None` where the file does not exist.
pub struct DiskView {
    pub primary: Option<Seq<char>>,
    pub staging: Option<Seq<char>>,
}

/// How the environment may take the disk from `d` to `d2` while performing
/// the action a save in phase `pre` is waiting on, reporting `ev`.
///
/// Failures leave the committed file alone but promise nothing about the
/// staging file; a staging write promises nothing about the staging content
/// even on reported success; a readback hands back exactly what the staging
/// file holds; and a successful rename moves the staging content, whole, onto
/// the committed file. Once the save is over, any remaining cleanup may touch
/// the staging file only.
pub open spec fn env_step(pre: SavePhase, ev: StepEvent, d: DiskView, d2: DiskView) -> bool {
    match pre {
        SavePhase::DirPending => d2 == d,
        SavePhase::StagePending => d2.primary == d.primary,
        SavePhase::VerifyPending => match ev {
            StepEvent::ReadBack(Some(content)) => d2 == d && d.staging == Some(content),
            _ => d2 == d,
        },
        SavePhase::CommitPending => match ev {
            StepEvent::Completed(true) => d.staging is Some && d2.primary == d.staging
                && d2.staging is None,
            _ => d2.primary == d.primary,
        },
        SavePhase::Committed => d2.primary == d.primary,
        SavePhase::Failed(_) => d2.primary == d.primary,
    }
}

/// The invariant a save maintains on the disk. `base` is the committed file's
/// content when the save began.
///
/// Until the save commits, the committed file still holds `base`. From the
/// moment the document was accepted for staging it is known to be valid JSON.
/// When the rename is about to run, the staging file holds exactly the
/// document — that is what the readback verification established. Once the
/// save has committed, the committed file holds exactly the document.
pub open spec fn save_inv(
    text: Seq<char>,
    phase: SavePhase,
    base: Option<Seq<char>>,
    d: DiskView,
) -> bool {
    &&& !(phase is Committed) ==> d.primary == base
    &&& (phase is StagePending || phase is VerifyPending || phase is CommitPending || phase
        is Committed) ==> json_ok(text)
    &&& phase is CommitPending ==> d.staging == Some(text)
    &&& phase is Committed ==> d.primary == Some(text)
}

/// A save that has just begun satisfies the invariant: nothing has happened
/// to the disk yet.
pub proof fn lemma_save_init(text: Seq<char>, d: DiskView)
    ensures
        save_inv(text, SavePhase::DirPending, d.primary, d),
{
}

/// The induction step: every transition the machine can take, under every
/// disk change the environment may produce while performing the pending
/// action, preserves the invariant.
pub proof fn lemma_save_step_preserves_inv(
    text: Seq<char>,
    pre: SavePhase,
    ev: StepEvent,
    post: SavePhase,
    act: IoAction,
    base: Option<Seq<char>>,
    d: DiskView,
    d2: DiskView,
)
    requires
        save_inv(text, pre, base, d),
        !phase_done(pre),
        save_transition(text, pre, ev, post, act),
        env_step(pre, ev, d, d2),
    ensures
        save_inv(text, post, base, d2),
{
}

/// Once a save is over, whatever cleanup or idleness follows leaves the
/// invariant in place: nothing after the protocol touches the committed file.
pub proof fn lemma_save_done_stable(
    text: Seq<char>,
    phase: SavePhase,
    ev: StepEvent,
    base: Option<Seq<char>>,
    d: DiskView,
    d2: DiskView,
)
    requires
        save_inv(text, phase, base, d),
        phase_done(phase),
        env_step(phase, ev, d, d2),
    ensures
        save_inv(text, phase, base, d2),
{
}

/// Atomicity under interruption: however far a save got, as long as it has
/// not committed — it is still in flight, it aborted, or the process stopped
/// anywhere in between — the committed file holds what it held before the
/// save, so a load yields exactly what a load before the save yielded.
pub proof fn lemma_interrupted_save_keeps_old_document(
    text: Seq<char>,
    phase: SavePhase,
    base: Option<Seq<char>>,
    d: DiskView,
)
    requires
        save_inv(text, phase, base, d),
        !(phase is Committed),
    ensures
        d.primary == base,
        load_outcome(d.primary) == load_outcome(base),
{
}

/// Round trip: after a save commits, the committed file holds exactly the
/// saved document, the document is valid JSON, and a load therefore returns
/// it byte for byte.
pub proof fn lemma_save_load_round_trip(
    text: Seq<char>,
    base: Option<Seq<char>>,
    d: DiskView,
)
    requires
        save_inv(text, SavePhase::Committed, base, d),
    ensures
        d.primary == Some(text),
        json_ok(text),
        load_outcome(d.primary) == text,
{
}

/// Invalid input is rejected with nothing written: a save of a document that
/// is not valid JSON aborts at the validation step, before any action that
/// could touch a file, and the committed file is left as it was.
pub proof fn lemma_invalid_input_rejected(
    text: Seq<char>,
    post: SavePhase,
    act: IoAction,
    base: Option<Seq<char>>,
    d: DiskView,
    d2: DiskView,
)
    requires
        !json_ok(text),
        save_inv(text, SavePhase::DirPending, base, d),
        save_transition(text, SavePhase::DirPending, StepEvent::Completed(true), post, act),
        env_step(SavePhase::DirPending, StepEvent::Completed(true), d, d2),
    ensures
        post == SavePhase::Failed(ErrorKind::InvalidInput),
        act == IoAction::Fail(ErrorKind::InvalidInput),
        d2.primary == base,
{
}

/// A verification mismatch aborts before the rename: if the staging file read
/// back differs from the document, the save fails with a verification error,
/// the action asks for the staging file's removal and never for the rename,
/// and the committed file is left as it was.
pub proof fn lemma_verification_mismatch_never_commits(
    text: Seq<char>,
    readback: Seq<char>,
    post: SavePhase,
    act: IoAction,
    base: Option<Seq<char>>,
    d: DiskView,
    d2: DiskView,
)
    requires
        readback != text,
        save_inv(text, SavePhase::VerifyPending, base, d),
        save_transition(
            text,
            SavePhase::VerifyPending,
            StepEvent::ReadBack(Some(readback)),
            post,
            act,
        ),
        env_step(SavePhase::VerifyPending, StepEvent::ReadBack(Some(readback)), d, d2),
    ensures
        post == SavePhase::Failed(ErrorKind::VerificationError),
        act == IoAction::DiscardThenFail(ErrorKind::VerificationError),
        d2.primary == base,
{
}

/// One observed step of a save's execution: the event the environment
/// reported, the transition the machine took on it, and the disk as the step
/// left it.
pub struct TraceStep {
    pub ev: StepEvent,
    pub phase: SavePhase,
    pub act: IoAction,
    pub disk: DiskView,
}

/// Whether `steps` is an execution of the save protocol from a job in phase
/// `pre_phase` over a disk in state `pre_disk`: each step takes a transition
/// the machine admits on its event, and changes the disk only as the
/// environment may while performing the pending action.
pub open spec fn valid_trace(
    text: Seq<char>,
    pre_phase: SavePhase,
    pre_disk: DiskView,
    steps: Seq<TraceStep>,
) -> bool
    decreases steps.len(),
{
    steps.len() == 0 || {
        let s = steps[0];
        &&& !phase_done(pre_phase)
        &&& save_transition(text, pre_phase, s.ev, s.phase, s.act)
        &&& env_step(pre_phase, s.ev, pre_disk, s.disk)
        &&& valid_trace(text, s.phase, s.disk, steps.drop_first())
    }
}

/// The invariant holds at the end of every execution that starts from a state
/// satisfying it.
pub proof fn lemma_trace_keeps_inv(
    text: Seq<char>,
    phase: SavePhase,
    base: Option<Seq<char>>,
    d: DiskView,
    steps: Seq<TraceStep>,
)
    requires
        save_inv(text, phase, base, d),
        valid_trace(text, phase, d, steps),
        steps.len() > 0,
    ensures
        save_inv(text, steps.last().phase, base, steps.last().disk),
    decreases steps.len(),
{
    let s = steps[0];
    lemma_save_step_preserves_inv(text, phase, s.ev, s.phase, s.act, base, d, s.disk);
    if steps.len() > 1 {
        lemma_trace_keeps_inv(text, s.phase, base, s.disk, steps.drop_first());
        assert(steps.drop_first().last() == steps.last());
    }
}

/// The store's headline guarantee, over whole executions: however a save of
/// `text` runs from a fresh start — to completion, to an abort, or cut off
/// anywhere by a crash — the committed file holds exactly what it held before
/// the save until the moment the save commits, and exactly `text`, a valid
/// JSON document, from then on. No run ever exposes a partial write.
pub proof fn lemma_run_atomic(text: Seq<char>, d0: DiskView, steps: Seq<TraceStep>)
    requires
        valid_trace(text, SavePhase::DirPending, d0, steps),
        steps.len() > 0,
    ensures
        !(steps.last().phase is Committed) ==> steps.last().disk.primary == d0.primary,
        steps.last().phase is Committed ==> steps.last().disk.primary == Some(text) && json_ok(
            text,
        ),
    decreases steps.len(),
{
    lemma_save_init(text, d0);
    lemma_trace_keeps_inv(text, SavePhase::DirPending, d0.primary, d0, steps);
}

/// A load reads the committed file and, at worst, copies it aside; it never
/// changes it.
pub open spec fn load_env(d: DiskView, d2: DiskView) -> bool {
    d2.primary == d.primary && d2.staging == d.staging
}

/// Idempotent load: the document a load yields is a function of the committed
/// file alone, and a load never changes that file, so repeated loads with no
/// intervening save all yield the same document.
pub proof fn lemma_load_idempotent(d: DiskView, d2: DiskView)
    requires
        load_env(d, d2),
    ensures
        load_outcome(d2.primary) == load_outcome(d.primary),
{
}

} // verus!
