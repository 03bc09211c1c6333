//! End-to-end behaviour of the store, driven against a simulated disk.
//!
//! The simulated disk holds the committed file, the staging file and the
//! quarantined snapshots as plain strings, and can inject the faults the
//! protocol defends against: an unavailable directory, a failed or silently
//! corrupting staging write, a failed readback, a failed rename, and a
//! process that dies between the staging write and the commit.

use boardstore::errors::ErrorKind;
use boardstore::json::default_document;
use boardstore::load::{resolve_load, LoadDecision, LoadInput};
use boardstore::naming::{
    decimal_string, primary_file_name, quarantine_file_name, staging_file_name, storage_dir_name,
};
use boardstore::save::{IoAction, SaveJob, SavePhase};

#[derive(Default)]
struct SimDisk {
    primary: Option<String>,
    staging: Option<String>,
    quarantined: Vec<(String, String)>,
}

#[derive(Clone, Copy, PartialEq)]
enum Fault {
    Clean,
    DirUnavailable,
    WriteFails,
    WriteCorrupts,
    ReadBackFails,
    RenameFails,
    DieBeforeCommit,
}

/// Runs one save against the simulated disk. `None` means the simulated
/// process died mid-save; otherwise the save's own result is returned.
fn run_save(disk: &mut SimDisk, text: &str, fault: Fault) -> Option<Result<(), ErrorKind>> {
    let (mut job, mut action) = SaveJob::new(text.to_string());
    loop {
        action = match action {
            IoAction::EnsureDirectory => {
                assert_eq!(job.phase(), SavePhase::DirPending);
                job.directory_ensured(fault != Fault::DirUnavailable)
            }
            IoAction::WriteStaging => {
                assert_eq!(job.phase(), SavePhase::StagePending);
                if fault == Fault::WriteFails {
                    job.staging_written(false)
                } else {
                    let written = if fault == Fault::WriteCorrupts {
                        "{\"trunc".to_string()
                    } else {
                        job.document().clone()
                    };
                    disk.staging = Some(written);
                    job.staging_written(true)
                }
            }
            IoAction::ReadBackStaging => {
                assert_eq!(job.phase(), SavePhase::VerifyPending);
                if fault == Fault::ReadBackFails {
                    job.staging_read(None)
                } else {
                    job.staging_read(disk.staging.clone())
                }
            }
            IoAction::CommitStaging => {
                assert_eq!(job.phase(), SavePhase::CommitPending);
                if fault == Fault::DieBeforeCommit {
                    return None;
                }
                if fault == Fault::RenameFails {
                    job.commit_attempted(false)
                } else {
                    disk.primary = disk.staging.take();
                    job.commit_attempted(true)
                }
            }
            IoAction::DiscardThenFail(e) => {
                disk.staging = None;
                return Some(Err(e));
            }
            IoAction::Fail(e) => return Some(Err(e)),
            IoAction::Succeed => {
                assert_eq!(job.phase(), SavePhase::Committed);
                return Some(Ok(()));
            }
        };
    }
}

/// Runs one load against the simulated disk, quarantining under the given
/// detection timestamp when the store orders it.
fn run_load(disk: &mut SimDisk, secs: u64) -> Result<String, ErrorKind> {
    let input = match &disk.primary {
        None => LoadInput::Missing,
        Some(content) => LoadInput::Content(content.clone()),
    };
    match resolve_load(input) {
        LoadDecision::Deliver(s) => Ok(s),
        LoadDecision::QuarantineThenDeliver(s) => {
            let name = quarantine_file_name(secs);
            if let Some(content) = &disk.primary {
                disk.quarantined.push((name, content.clone()));
            }
            Ok(s)
        }
        LoadDecision::Abort(e) => Err(e),
    }
}

#[test]
fn round_trip_board_a() {
    let mut disk = SimDisk::default();
    let text = "[{\"id\":1,\"title\":\"Board A\"}]";
    assert_eq!(run_save(&mut disk, text, Fault::Clean), Some(Ok(())));
    assert!(disk.staging.is_none());
    assert_eq!(run_load(&mut disk, 1), Ok(text.to_string()));
}

#[test]
fn round_trip_keeps_exact_bytes() {
    let mut disk = SimDisk::default();
    let text = "[ 1,\t2 ,\n {\"k\" :  null} ]";
    assert_eq!(run_save(&mut disk, text, Fault::Clean), Some(Ok(())));
    assert_eq!(run_load(&mut disk, 1), Ok(text.to_string()));
}

#[test]
fn missing_file_default() {
    let mut disk = SimDisk::default();
    assert_eq!(run_load(&mut disk, 1), Ok("[]".to_string()));
    assert!(disk.quarantined.is_empty());
}

#[test]
fn invalid_input_rejected_fresh() {
    let mut disk = SimDisk::default();
    assert_eq!(
        run_save(&mut disk, "{not json", Fault::Clean),
        Some(Err(ErrorKind::InvalidInput))
    );
    assert!(disk.primary.is_none());
    assert!(disk.staging.is_none());
}

#[test]
fn invalid_input_leaves_committed_document() {
    let mut disk = SimDisk::default();
    run_save(&mut disk, "[1]", Fault::Clean).unwrap().unwrap();
    assert_eq!(
        run_save(&mut disk, "{not json", Fault::Clean),
        Some(Err(ErrorKind::InvalidInput))
    );
    assert_eq!(run_load(&mut disk, 1), Ok("[1]".to_string()));
}

#[test]
fn corruption_recovery() {
    let mut disk = SimDisk::default();
    disk.primary = Some("not json".to_string());
    assert_eq!(run_load(&mut disk, 1700000000), Ok("[]".to_string()));
    assert_eq!(disk.quarantined.len(), 1);
    assert_eq!(disk.quarantined[0].0, "boards_corrupted_1700000000.json");
    assert_eq!(disk.quarantined[0].1, "not json");
}

#[test]
fn verification_mismatch_never_commits() {
    let mut disk = SimDisk::default();
    run_save(&mut disk, "[\"old\"]", Fault::Clean).unwrap().unwrap();
    assert_eq!(
        run_save(&mut disk, "[\"new\"]", Fault::WriteCorrupts),
        Some(Err(ErrorKind::VerificationError))
    );
    assert!(disk.staging.is_none());
    assert_eq!(run_load(&mut disk, 1), Ok("[\"old\"]".to_string()));
}

#[test]
fn interrupted_save_keeps_previous_document() {
    let mut disk = SimDisk::default();
    run_save(&mut disk, "[\"v1\"]", Fault::Clean).unwrap().unwrap();
    assert_eq!(run_save(&mut disk, "[\"v2\"]", Fault::DieBeforeCommit), None);
    assert_eq!(run_load(&mut disk, 1), Ok("[\"v1\"]".to_string()));
}

#[test]
fn interrupted_first_save_yields_default() {
    let mut disk = SimDisk::default();
    assert_eq!(run_save(&mut disk, "[\"v1\"]", Fault::DieBeforeCommit), None);
    assert_eq!(run_load(&mut disk, 1), Ok("[]".to_string()));
}

#[test]
fn idempotent_load() {
    let mut disk = SimDisk::default();
    run_save(&mut disk, "[2,3]", Fault::Clean).unwrap().unwrap();
    let first = run_load(&mut disk, 1);
    let second = run_load(&mut disk, 2);
    let third = run_load(&mut disk, 3);
    assert_eq!(first, second);
    assert_eq!(second, third);
}

#[test]
fn idempotent_load_after_corruption() {
    let mut disk = SimDisk::default();
    disk.primary = Some("{broken".to_string());
    let first = run_load(&mut disk, 1);
    disk.primary = Some("{broken".to_string());
    let second = run_load(&mut disk, 2);
    assert_eq!(first, Ok("[]".to_string()));
    assert_eq!(first, second);
}

#[test]
fn second_save_replaces_first() {
    let mut disk = SimDisk::default();
    run_save(&mut disk, "[\"a\"]", Fault::Clean).unwrap().unwrap();
    run_save(&mut disk, "[\"b\"]", Fault::Clean).unwrap().unwrap();
    assert_eq!(run_load(&mut disk, 1), Ok("[\"b\"]".to_string()));
}

#[test]
fn directory_failure_surfaced() {
    let mut disk = SimDisk::default();
    assert_eq!(
        run_save(&mut disk, "[]", Fault::DirUnavailable),
        Some(Err(ErrorKind::DirectoryError))
    );
    assert!(disk.primary.is_none());
}

#[test]
fn staging_write_failure_surfaced() {
    let mut disk = SimDisk::default();
    assert_eq!(
        run_save(&mut disk, "[]", Fault::WriteFails),
        Some(Err(ErrorKind::WriteError))
    );
    assert!(disk.primary.is_none());
}

#[test]
fn readback_failure_surfaced() {
    let mut disk = SimDisk::default();
    run_save(&mut disk, "[\"kept\"]", Fault::Clean).unwrap().unwrap();
    assert_eq!(
        run_save(&mut disk, "[\"lost\"]", Fault::ReadBackFails),
        Some(Err(ErrorKind::VerificationError))
    );
    assert_eq!(run_load(&mut disk, 1), Ok("[\"kept\"]".to_string()));
}

#[test]
fn rename_failure_surfaced() {
    let mut disk = SimDisk::default();
    run_save(&mut disk, "[\"kept\"]", Fault::Clean).unwrap().unwrap();
    assert_eq!(
        run_save(&mut disk, "[\"lost\"]", Fault::RenameFails),
        Some(Err(ErrorKind::ReplaceError))
    );
    assert_eq!(run_load(&mut disk, 1), Ok("[\"kept\"]".to_string()));
}

#[test]
fn unreadable_primary_is_read_error() {
    match resolve_load(LoadInput::Unreadable) {
        LoadDecision::Abort(e) => assert_eq!(e, ErrorKind::ReadError),
        _ => panic!("an unreadable committed file must abort the load"),
    }
}

#[test]
fn machine_walks_the_protocol_in_order() {
    let (mut job, first) = SaveJob::new("[10]".to_string());
    assert_eq!(first, IoAction::EnsureDirectory);
    assert_eq!(job.phase(), SavePhase::DirPending);
    assert_eq!(job.document().as_str(), "[10]");
    assert_eq!(job.directory_ensured(true), IoAction::WriteStaging);
    assert_eq!(job.phase(), SavePhase::StagePending);
    assert_eq!(job.staging_written(true), IoAction::ReadBackStaging);
    assert_eq!(job.phase(), SavePhase::VerifyPending);
    assert_eq!(
        job.staging_read(Some("[10]".to_string())),
        IoAction::CommitStaging
    );
    assert_eq!(job.phase(), SavePhase::CommitPending);
    assert_eq!(job.commit_attempted(true), IoAction::Succeed);
    assert_eq!(job.phase(), SavePhase::Committed);
}

#[test]
fn various_json_documents_accepted() {
    for text in ["null", "0", "\"text\"", "{\"a\":[1,2,3]}", "[[]]", "true"] {
        let mut disk = SimDisk::default();
        assert_eq!(run_save(&mut disk, text, Fault::Clean), Some(Ok(())));
        assert_eq!(run_load(&mut disk, 1), Ok(text.to_string()));
    }
}

#[test]
fn malformed_documents_rejected() {
    for text in ["", "[1,2,]", "{", "{'a':1}", "[1] [2]", "undefined"] {
        let mut disk = SimDisk::default();
        assert_eq!(
            run_save(&mut disk, text, Fault::Clean),
            Some(Err(ErrorKind::InvalidInput))
        );
        assert!(disk.primary.is_none());
    }
}

#[test]
fn default_document_is_empty_array() {
    assert_eq!(default_document(), "[]");
}

#[test]
fn decimal_rendering_exact() {
    assert_eq!(decimal_string(0), "0");
    assert_eq!(decimal_string(7), "7");
    assert_eq!(decimal_string(42), "42");
    assert_eq!(decimal_string(1700000000), "1700000000");
    assert_eq!(decimal_string(u64::MAX), "18446744073709551615");
}

#[test]
fn quarantine_name_format() {
    assert_eq!(quarantine_file_name(0), "boards_corrupted_0.json");
    assert_eq!(
        quarantine_file_name(1700000000),
        "boards_corrupted_1700000000.json"
    );
}

#[test]
fn fixed_file_names() {
    assert_eq!(storage_dir_name(), "project-boards");
    assert_eq!(primary_file_name(), "boards.json");
    assert_eq!(staging_file_name(), "boards.json.tmp");
}

#[test]
fn error_messages_exact() {
    assert_eq!(ErrorKind::DirectoryError.message(), "Failed to create directory");
    assert_eq!(ErrorKind::InvalidInput.message(), "Invalid JSON data");
    assert_eq!(ErrorKind::WriteError.message(), "Failed to write temporary file");
    assert_eq!(
        ErrorKind::VerificationError.message(),
        "Data verification failed after write"
    );
    assert_eq!(ErrorKind::ReplaceError.message(), "Failed to replace file");
    assert_eq!(ErrorKind::ReadError.message(), "Failed to read file");
}
