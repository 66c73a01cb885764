//! The deletion of a record and its artifacts.

use crate::ids::SandboxId;
use crate::orchestrator::persistence::codecs::PersistedPausedRecord;
use crate::orchestrator::persistence::error::{
    PersistenceResult, RecordFault, SandboxPersistenceError,
};
use crate::orchestrator::persistence::managed_paths::PathProbe;
use crate::orchestrator::persistence::publication;
use crate::orchestrator::persistence::publication::entry_about;
use crate::orchestrator::persistence::quarantine;
use crate::orchestrator::persistence::quarantine::{
    QuarantinePolicy, StoredPausedSandboxQuarantine,
};
use crate::paths::StorePath;
use crate::text;
use vstd::prelude::*;

verus! {

/// What a deletion does next.
#[derive(Debug)]
pub enum DeleteStep {
    /// There is no record: remove the directory of the sandbox, where there is one. A resume keeps
    /// the last generation after it has dropped the index.
    RemoveLeftovers,
    /// Read the bytes of the record, which are then kept in quarantine.
    KeepInvalid { error: SandboxPersistenceError },
    /// Find out whether the generation of the record is managed.
    ValidateGeneration { record: PersistedPausedRecord },
    RemoveGeneration { path: StorePath },
    RemoveRecord,
    /// An empty directory of a sandbox is not recovery data.
    RemoveEmptyRoot,
    /// Store the entry, then fail with the error.
    Refuse { entry: StoredPausedSandboxQuarantine, error: SandboxPersistenceError },
    Failed { error: SandboxPersistenceError },
    Finished,
}

/// Whether an error says that a sandbox has no record.
pub open spec fn says_not_found(error: SandboxPersistenceError, sandbox_id: SandboxId) -> bool {
    error matches SandboxPersistenceError::InvalidRecord { reason, .. } && reason == (
    RecordFault::RecordNotFound { sandbox_id })
}

fn has_no_record(error: &SandboxPersistenceError, sandbox_id: SandboxId) -> (answer: bool)
    ensures
        answer == says_not_found(*error, sandbox_id),
{
    match error {
        SandboxPersistenceError::InvalidRecord {
            reason: RecordFault::RecordNotFound { sandbox_id: found },
            ..
        } => *found == sandbox_id,
        _ => false,
    }
}

/// Decides by the record that was found.
pub fn delete_record_and_artifacts(
    sandbox_id: SandboxId,
    found: PersistenceResult<PersistedPausedRecord>,
) -> (step: DeleteStep)
    ensures
        match found {
            Ok(record) => if record@.recovery_pending() {
                step matches DeleteStep::Failed { error } && error.is_invalid(
                    RecordFault::DeleteWhileRecoveryPending { sandbox_id },
                )
            } else {
                step == (DeleteStep::ValidateGeneration { record })
            },
            Err(error) => if says_not_found(error, sandbox_id) {
                step is RemoveLeftovers
            } else if error is InvalidRecord {
                step == (DeleteStep::KeepInvalid { error })
            } else {
                step == (DeleteStep::Failed { error })
            },
        },
{
    match found {
        Ok(record) => {
            if record.is_recovery_pending() {
                return DeleteStep::Failed {
                    error: SandboxPersistenceError::invalid(
                        RecordFault::DeleteWhileRecoveryPending { sandbox_id },
                    ),
                };
            }
            DeleteStep::ValidateGeneration { record }
        },
        Err(error) => {
            if has_no_record(&error, sandbox_id) {
                return DeleteStep::RemoveLeftovers;
            }
            match error {
                SandboxPersistenceError::InvalidRecord { .. } => DeleteStep::KeepInvalid { error },
                _ => DeleteStep::Failed { error },
            }
        },
    }
}

/// Keeps the bytes of a record that cannot be used, and refuses to delete it.
pub fn keep_invalid_record(
    sandbox_id: SandboxId,
    error: &SandboxPersistenceError,
    record_bytes: &Option<Vec<u8>>,
) -> (step: DeleteStep)
    ensures
        step matches DeleteStep::Refuse { entry, error: refusal } && quarantine::describes(
            entry,
            "refusing automatic deletion of invalid paused sandbox record: "@ + error.shown(),
            Some(text::text_bytes(sandbox_id.text())),
            quarantine::optional_bytes(*record_bytes),
            None,
            None,
            QuarantinePolicy::Manual,
        ) && (refusal matches SandboxPersistenceError::ManualRecovery { sandbox_id: id, reason } && id
            == sandbox_id && reason@ == "invalid paused sandbox record: "@ + error.shown()),
{
    let shown = error.to_text();
    DeleteStep::Refuse {
        entry: quarantine::describe(
            text::concat2(
                "refusing automatic deletion of invalid paused sandbox record: ",
                shown.as_str(),
            ),
            &Some(text::copy_bytes(sandbox_id.to_text().as_str().as_bytes())),
            record_bytes,
            &None,
            &None,
            QuarantinePolicy::Manual,
        ),
        error: SandboxPersistenceError::manual_recovery(
            sandbox_id,
            text::concat2("invalid paused sandbox record: ", shown.as_str()),
        ),
    }
}

/// Decides by where the generation of the record really is.
pub fn delete_after_validation(
    sandbox_id: SandboxId,
    record: &PersistedPausedRecord,
    validated: Option<StorePath>,
) -> (step: DeleteStep)
    ensures
        match validated {
            Some(path) => step == (DeleteStep::RemoveGeneration { path }),
            None => step matches DeleteStep::Refuse { entry, error } && publication::is_entry_about(
                entry,
                "refusing automatic deletion of paused sandbox record with an unsafe artifact root"@,
                sandbox_id,
                None,
                record.artifact_root,
                true,
                QuarantinePolicy::Manual,
            ) && (error matches SandboxPersistenceError::ManualRecovery { sandbox_id: id, reason }
                && id == sandbox_id && reason@
                == "artifact root is not an exact managed generation"@),
        },
{
    match validated {
        Some(path) => DeleteStep::RemoveGeneration { path },
        None => DeleteStep::Refuse {
            entry: entry_about(
                "refusing automatic deletion of paused sandbox record with an unsafe artifact root".to_owned(),
                sandbox_id,
                &None,
                &record.artifact_root,
                true,
                QuarantinePolicy::Manual,
            ),
            error: SandboxPersistenceError::manual_recovery(
                sandbox_id,
                "artifact root is not an exact managed generation".to_owned(),
            ),
        },
    }
}

/// What follows on a removal that succeeded; one that fails ends the deletion with its error.
pub open spec fn after_removal(step: DeleteStep) -> DeleteStep {
    match step {
        DeleteStep::RemoveGeneration { .. } => DeleteStep::RemoveRecord,
        DeleteStep::RemoveRecord => DeleteStep::RemoveEmptyRoot,
        _ => DeleteStep::Finished,
    }
}

/// The generation goes before the record: a record without artifacts is noticed by a restart,
/// while artifacts without a record would be left behind.
pub fn next_removal(step: &DeleteStep) -> (next: DeleteStep)
    ensures
        next == after_removal(*step),
{
    match step {
        DeleteStep::RemoveGeneration { .. } => DeleteStep::RemoveRecord,
        DeleteStep::RemoveRecord => DeleteStep::RemoveEmptyRoot,
        _ => DeleteStep::Finished,
    }
}

/// How the removal of a directory that has to be empty came out.
#[derive(Debug)]
pub enum EmptyRemoval {
    Removed,
    Missing,
    NotEmpty,
    Failed { source: String },
}

/// Whether the removal of an empty directory counts as done.
pub fn remove_empty_sandbox_artifact_root(path: &StorePath, removal: EmptyRemoval) -> (outcome:
    PersistenceResult<()>)
    ensures
        match removal {
            EmptyRemoval::Failed { source } => outcome matches Err(error) && error matches SandboxPersistenceError::Io {
                operation,
                path: p,
                source: s,
            } && operation@ == "remove empty paused sandbox artifact root"@ && p@ == path@ && s == source,
            _ => outcome is Ok,
        },
{
    match removal {
        EmptyRemoval::Failed { source } => Err(
            SandboxPersistenceError::io(
                "remove empty paused sandbox artifact root",
                path,
                source,
            ),
        ),
        _ => Ok(()),
    }
}

/// How an artifact is removed.
#[derive(Clone, Copy, Debug, PartialEq, Eq, Structural)]
pub enum RemovalKind {
    /// There is nothing to remove.
    Nothing,
    Tree,
    File,
}

/// How to remove what stands at an artifact path, by what was found there without following it.
pub fn remove_root(
    path: &StorePath,
    probe: PathProbe,
    source: String,
) -> (outcome: PersistenceResult<RemovalKind>)
    ensures
        match outcome {
            Ok(RemovalKind::Nothing) => probe is Missing,
            Ok(RemovalKind::Tree) => probe is Directory,
            Ok(RemovalKind::File) => probe is Symlink || probe is File || probe is Other,
            Err(error) => probe is Unreadable && (error matches SandboxPersistenceError::Io {
                operation,
                path: p,
                source: s,
            } && operation@ == "inspect paused sandbox artifacts"@ && p@ == path@ && s == source),
        },
{
    match probe {
        PathProbe::Missing => Ok(
            RemovalKind::Nothing,
        ),
        PathProbe::Directory => Ok(
            RemovalKind::Tree,
        ),
        PathProbe::Unreadable => Err(
            SandboxPersistenceError::io("inspect paused sandbox artifacts", path, source),
        ),
        _ => Ok(RemovalKind::File),
    }
}

// ---------------------------------------------------------------------------------------------
// Laws
// ---------------------------------------------------------------------------------------------

/// The generation goes first, then the record, then the empty directory.
pub proof fn a_deletion_goes_from_artifacts_to_record(path: StorePath)
    ensures
        after_removal(DeleteStep::RemoveGeneration { path }) is RemoveRecord,
        after_removal(DeleteStep::RemoveRecord) is RemoveEmptyRoot,
        after_removal(DeleteStep::RemoveEmptyRoot) is Finished,
{
}

/// Only the error that says that this very sandbox has no record counts as such.
pub proof fn only_a_missing_record_is_passed_over(
    error: SandboxPersistenceError,
    sandbox_id: SandboxId,
    other: SandboxId,
    source: Option<String>,
)
    ensures
        says_not_found(
            SandboxPersistenceError::InvalidRecord {
                reason: RecordFault::RecordNotFound { sandbox_id: other },
                source,
            },
            sandbox_id,
        ) <==> other == sandbox_id,
        !(error is InvalidRecord) ==> !says_not_found(error, sandbox_id),
        error matches SandboxPersistenceError::InvalidRecord { reason, .. } ==> (!(reason
            is RecordNotFound) ==> !says_not_found(error, sandbox_id)),
{
}

} // verus!
