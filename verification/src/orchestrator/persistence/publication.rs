//! The publication of a record.
//!
//! A record is written in a prepared form that cannot be used, marked, written in its final form,
//! indexed and unmarked. Until the final form stands, the index names what it named before. A failed
//! write may or may not have happened; after one, the generation is marked and its record is written
//! back in the prepared form.

use crate::ids::SandboxId;
use crate::orchestrator::metadata::SandboxMetadata;
use crate::orchestrator::persistence::codecs;
use crate::orchestrator::persistence::codecs::{
    manifest_path, ManifestEntry, PersistedPausedRecord, RecordView, PAUSED_MANIFEST_VERSION,
};
use crate::orchestrator::persistence::error::{
    PersistenceResult, RecordFault, SandboxPersistenceError, UncertainWrite,
};
use crate::orchestrator::persistence::paused_transactions::{
    PersistedPausedCommitState, PersistedPausedLifecycle,
};
use crate::orchestrator::persistence::quarantine;
use crate::orchestrator::persistence::quarantine::{
    QuarantinePolicy, StoredPausedSandboxQuarantine,
};
use crate::orchestrator::types::Document;
use crate::paths::StorePath;
use crate::text;
use vstd::prelude::*;

verus! {

/// What a publication does next.
#[derive(Clone, Copy, Debug, PartialEq, Eq, Structural)]
pub enum PublishStep {
    WritePreparedManifest,
    WriteMarker,
    WriteCommittedManifest,
    WriteCommittedIndex,
    RemoveMarker,
    /// Everything is written and acknowledged.
    Published,
    /// Mark the generation after a failed write.
    WriteRecoveryMarker { failed: UncertainWrite },
    /// Write the record back in its prepared form.
    WriteRecoveryManifest { failed: UncertainWrite, marked: bool },
    /// Store an entry about the failed write. `guarded` says whether the generation is marked or
    /// its record is back in the prepared form.
    StoreQuarantine { failed: UncertainWrite, guarded: bool },
    /// Nobody knows whether the failed write happened.
    Uncertain { failed: UncertainWrite },
}

impl PublishStep {
    /// What follows on this step, given whether its write was acknowledged.
    pub open spec fn after(self, acknowledged: bool) -> PublishStep {
        match self {
            PublishStep::WritePreparedManifest => if acknowledged {
                PublishStep::WriteMarker
            } else {
                PublishStep::WriteRecoveryMarker { failed: UncertainWrite::PreparedManifest }
            },
            PublishStep::WriteMarker => if acknowledged {
                PublishStep::WriteCommittedManifest
            } else {
                PublishStep::WriteRecoveryMarker { failed: UncertainWrite::RecoveryMarker }
            },
            PublishStep::WriteCommittedManifest => if acknowledged {
                PublishStep::WriteCommittedIndex
            } else {
                PublishStep::WriteRecoveryMarker { failed: UncertainWrite::CommittedManifest }
            },
            PublishStep::WriteCommittedIndex => if acknowledged {
                PublishStep::RemoveMarker
            } else {
                PublishStep::WriteRecoveryMarker { failed: UncertainWrite::CommittedIndex }
            },
            PublishStep::RemoveMarker => if acknowledged {
                PublishStep::Published
            } else {
                PublishStep::WriteRecoveryMarker { failed: UncertainWrite::MarkerRemoval }
            },
            PublishStep::WriteRecoveryMarker { failed } => PublishStep::WriteRecoveryManifest {
                failed,
                marked: acknowledged,
            },
            PublishStep::WriteRecoveryManifest { failed, marked } => PublishStep::StoreQuarantine {
                failed,
                guarded: marked || acknowledged,
            },
            PublishStep::StoreQuarantine { failed, .. } => PublishStep::Uncertain { failed },
            PublishStep::Published => PublishStep::Published,
            PublishStep::Uncertain { failed } => PublishStep::Uncertain { failed },
        }
    }

    pub fn next(self, acknowledged: bool) -> (next: PublishStep)
        ensures
            next == self.after(acknowledged),
    {
        match (self, acknowledged) {
            (PublishStep::WritePreparedManifest, true) => PublishStep::WriteMarker,
            (PublishStep::WriteMarker, true) => PublishStep::WriteCommittedManifest,
            (PublishStep::WriteCommittedManifest, true) => PublishStep::WriteCommittedIndex,
            (PublishStep::WriteCommittedIndex, true) => PublishStep::RemoveMarker,
            (PublishStep::RemoveMarker, true) => PublishStep::Published,
            (PublishStep::WritePreparedManifest, false) => PublishStep::WriteRecoveryMarker {
                failed: UncertainWrite::PreparedManifest,
            },
            (PublishStep::WriteMarker, false) => PublishStep::WriteRecoveryMarker {
                failed: UncertainWrite::RecoveryMarker,
            },
            (PublishStep::WriteCommittedManifest, false) => PublishStep::WriteRecoveryMarker {
                failed: UncertainWrite::CommittedManifest,
            },
            (PublishStep::WriteCommittedIndex, false) => PublishStep::WriteRecoveryMarker {
                failed: UncertainWrite::CommittedIndex,
            },
            (PublishStep::RemoveMarker, false) => PublishStep::WriteRecoveryMarker {
                failed: UncertainWrite::MarkerRemoval,
            },
            (PublishStep::WriteRecoveryMarker { failed }, marked) => {
                PublishStep::WriteRecoveryManifest { failed, marked }
            },
            (PublishStep::WriteRecoveryManifest { failed, marked }, written) => {
                PublishStep::StoreQuarantine { failed, guarded: marked || written }
            },
            (PublishStep::StoreQuarantine { failed, .. }, _) => PublishStep::Uncertain { failed },
            (PublishStep::Published, _) => PublishStep::Published,
            (PublishStep::Uncertain { failed }, _) => PublishStep::Uncertain { failed },
        }
    }

    /// Whether this step is one of the five writes of an undisturbed publication.
    pub open spec fn is_ordinary_write(self) -> bool {
        ||| self is WritePreparedManifest
        ||| self is WriteMarker
        ||| self is WriteCommittedManifest
        ||| self is WriteCommittedIndex
        ||| self is RemoveMarker
    }

    fn has_ordinary_write(self) -> (answer: bool)
        ensures
            answer == self.is_ordinary_write(),
    {
        match self {
            PublishStep::WritePreparedManifest
            | PublishStep::WriteMarker
            | PublishStep::WriteCommittedManifest
            | PublishStep::WriteCommittedIndex
            | PublishStep::RemoveMarker => true,
            _ => false,
        }
    }
}

/// A publication under way.
#[derive(Debug)]
pub struct Publication {
    pub record: PersistedPausedRecord,
    pub step: PublishStep,
    /// The text of the error with which an ordinary write failed.
    pub failure: Option<String>,
}

/// How a publication starts.
#[derive(Debug)]
pub enum PublicationStart {
    Publish(Publication),
    /// Store the entry, then fail with the error.
    Refuse { entry: StoredPausedSandboxQuarantine, error: SandboxPersistenceError },
}

/// Whether an entry is about one sandbox record, its generation and, where asked for, its
/// manifest.
pub open spec fn is_entry_about(
    entry: StoredPausedSandboxQuarantine,
    reason: Seq<char>,
    sandbox_id: SandboxId,
    captured: Option<Seq<u8>>,
    artifact_root: StorePath,
    with_manifest: bool,
    policy: QuarantinePolicy,
) -> bool {
    exists|manifest: Option<StorePath>|
        {
            &&& #[trigger] is_manifest_of(manifest, artifact_root, with_manifest)
            &&& quarantine::describes(
                entry,
                reason,
                Some(text::text_bytes(sandbox_id.text())),
                captured,
                Some(artifact_root),
                manifest,
                policy,
            )
        }
}

/// Whether a path is that of the manifest of a generation, or absent where none is asked for.
pub open spec fn is_manifest_of(
    manifest: Option<StorePath>,
    artifact_root: StorePath,
    with_manifest: bool,
) -> bool {
    match manifest {
        Some(manifest) => with_manifest && manifest@ == codecs::manifest_parts(artifact_root@)
            && manifest.spelled() == crate::paths::joined_spelling(
            artifact_root.spelled(),
            codecs::manifest_name(),
        ),
        None => !with_manifest,
    }
}

/// An entry about one sandbox record.
pub(crate) fn entry_about(
    reason: String,
    sandbox_id: SandboxId,
    captured: &Option<Vec<u8>>,
    artifact_root: &StorePath,
    with_manifest: bool,
    policy: QuarantinePolicy,
) -> (entry: StoredPausedSandboxQuarantine)
    ensures
        is_entry_about(
            entry,
            reason@,
            sandbox_id,
            quarantine::optional_bytes(*captured),
            *artifact_root,
            with_manifest,
            policy,
        ),
{
    let key = text::copy_bytes(sandbox_id.to_text().as_str().as_bytes());
    let manifest = if with_manifest {
        Some(manifest_path(artifact_root))
    } else {
        None
    };
    let root = Some(artifact_root.copy());
    let entry = quarantine::describe(reason, &Some(key), captured, &root, &manifest, policy);
    assert(is_manifest_of(manifest, *artifact_root, with_manifest));
    assert(quarantine::describes(
        entry,
        reason@,
        Some(text::text_bytes(sandbox_id.text())),
        quarantine::optional_bytes(*captured),
        Some(*artifact_root),
        manifest,
        policy,
    ));
    entry
}

/// Starts to publish a record, whose generation has or has not been found to be managed.
pub fn put_record(record: &PersistedPausedRecord, managed: bool) -> (start: PublicationStart)
    ensures
        match start {
            PublicationStart::Publish(publication) => {
                &&& managed
                &&& publication.record@ == record@
                &&& publication.step is WritePreparedManifest
                &&& publication.failure is None
            },
            PublicationStart::Refuse { entry, error } => {
                &&& !managed
                &&& is_entry_about(
                    entry,
                    "paused sandbox record references an artifact root outside the managed persisted store"@,
                    record.metadata.id,
                    None,
                    record.artifact_root,
                    true,
                    QuarantinePolicy::Manual,
                )
                &&& error.is_invalid(
                    RecordFault::UnmanagedArtifactRoot { sandbox_id: record.metadata.id },
                )
            },
        },
{
    if !managed {
        let sandbox_id = record.metadata.id;
        return PublicationStart::Refuse {
            entry: entry_about(
                "paused sandbox record references an artifact root outside the managed persisted store".to_owned(),
                sandbox_id,
                &None,
                &record.artifact_root,
                true,
                QuarantinePolicy::Manual,
            ),
            error: SandboxPersistenceError::invalid(
                RecordFault::UnmanagedArtifactRoot { sandbox_id },
            ),
        };
    }
    PublicationStart::Publish(
        Publication {
            record: record.copy(),
            step: PublishStep::WritePreparedManifest,
            failure: None,
        },
    )
}

/// The manifest that a step writes.
pub open spec fn manifest_written(step: PublishStep, record: RecordView) -> Option<RecordView> {
    match step {
        PublishStep::WritePreparedManifest => Some(record.prepared()),
        PublishStep::WriteCommittedManifest => Some(record.committed()),
        PublishStep::WriteRecoveryManifest { .. } => Some(record.prepared()),
        _ => None,
    }
}

impl Publication {
    /// The record to write, where the current step writes one.
    pub fn manifest(&self) -> (manifest: Option<PersistedPausedRecord>)
        ensures
            match manifest {
                Some(manifest) => manifest_written(self.step, self.record@) == Some(manifest@),
                None => manifest_written(self.step, self.record@) is None,
            },
    {
        match self.step {
            PublishStep::WritePreparedManifest => Some(self.record.to_prepared()),
            PublishStep::WriteCommittedManifest => Some(self.record.to_committed()),
            PublishStep::WriteRecoveryManifest { .. } => Some(self.record.to_prepared()),
            _ => None,
        }
    }

    /// Takes note of how the write of the current step came back.
    pub fn advance(&mut self, outcome: Result<(), String>)
        ensures
            final(self).record == old(self).record,
            final(self).step == old(self).step.after(outcome is Ok),
            final(self).failure == match outcome {
                Err(source) => if old(self).step.is_ordinary_write() {
                    Some(source)
                } else {
                    old(self).failure
                },
                Ok(_) => old(self).failure,
            },
    {
        let ordinary = self.step.has_ordinary_write();
        match outcome {
            Ok(_) => {
                self.step = self.step.next(true);
            },
            Err(source) => {
                self.step = self.step.next(false);
                if ordinary {
                    self.failure = Some(source);
                }
            },
        }
    }

    /// The text of the error that the first failed write gave.
    pub open spec fn failure_text(&self) -> Seq<char> {
        match self.failure {
            Some(source) => source@,
            None => Seq::empty(),
        }
    }

    /// The entry to store after a failed write, with what the index of the sandbox now holds. An
    /// entry for a generation that is guarded by itself blocks nothing.
    pub fn quarantine_uncertain_commit(&self, current: &Option<Vec<u8>>) -> (entry: Option<
        StoredPausedSandboxQuarantine,
    >)
        ensures
            match self.step {
                PublishStep::StoreQuarantine { failed, guarded } => {
                    &&& entry matches Some(entry)
                    &&& is_entry_about(
                        entry,
                        failed.shown() + "; original write error: "@ + self.failure_text(),
                        self.record.metadata.id,
                        quarantine::optional_bytes(*current),
                        self.record.artifact_root,
                        true,
                        if guarded {
                            QuarantinePolicy::Nonblocking
                        } else {
                            QuarantinePolicy::Uncertain
                        },
                    )
                },
                _ => entry is None,
            },
    {
        match self.step {
            PublishStep::StoreQuarantine { failed, guarded } => {
                let source = match &self.failure {
                    Some(source) => source.clone(),
                    None => String::new(),
                };
                let policy = if guarded {
                    QuarantinePolicy::Nonblocking
                } else {
                    QuarantinePolicy::Uncertain
                };
                Some(
                    entry_about(
                        text::concat3(failed.name(), "; original write error: ", source.as_str()),
                        self.record.metadata.id,
                        current,
                        &self.record.artifact_root,
                        true,
                        policy,
                    ),
                )
            },
            _ => None,
        }
    }

    /// How the publication ended, once it has.
    pub fn outcome(&self) -> (outcome: Option<PersistenceResult<()>>)
        ensures
            match self.step {
                PublishStep::Published => outcome matches Some(Ok(_)),
                PublishStep::Uncertain { failed } => {
                    &&& outcome matches Some(Err(error))
                    &&& error matches SandboxPersistenceError::UncertainCommit {
                        sandbox_id,
                        reason,
                        source,
                    }
                    &&& sandbox_id == self.record.metadata.id
                    &&& reason == failed
                    &&& source@ == self.failure_text()
                },
                _ => outcome is None,
            },
    {
        match self.step {
            PublishStep::Published => Some(Ok(())),
            PublishStep::Uncertain { failed } => Some(
                Err(
                    SandboxPersistenceError::UncertainCommit {
                        sandbox_id: self.record.metadata.id,
                        reason: failed,
                        source: match &self.failure {
                            Some(source) => source.clone(),
                            None => String::new(),
                        },
                    },
                ),
            ),
            _ => None,
        }
    }
}

/// A publication that starts at a failed index rebuild: the manifest is in place, but whether the
/// index points at it is not known.
pub fn uncertain_rebuild(record: &PersistedPausedRecord, source: String) -> (publication: Publication)
    ensures
        publication.record@ == record@,
        publication.step == (PublishStep::WriteRecoveryMarker {
            failed: UncertainWrite::RebuiltIndex,
        }),
        publication.failure == Some(source),
{
    Publication {
        record: record.copy(),
        step: PublishStep::WriteRecoveryMarker { failed: UncertainWrite::RebuiltIndex },
        failure: Some(source),
    }
}

/// A manifest that was just written.
pub fn written_manifest(record: &PersistedPausedRecord, bytes: Vec<u8>) -> (entry: ManifestEntry)
    ensures
        entry.path@ == codecs::manifest_parts(record.artifact_root@),
        entry.path.spelled() == crate::paths::joined_spelling(
            record.artifact_root.spelled(),
            codecs::manifest_name(),
        ),
        entry.bytes == bytes,
        entry.record@ == record@,
        !entry.recovery_marker_present,
{
    ManifestEntry {
        path: manifest_path(&record.artifact_root),
        bytes,
        record: record.copy(),
        recovery_marker_present: false,
    }
}

// ---------------------------------------------------------------------------------------------
// The persistence of a pause
// ---------------------------------------------------------------------------------------------

/// What the persistence of a pause does next.
#[derive(Debug)]
pub enum PersistStep {
    /// Find out whether the generation is managed.
    ValidateRoot { root: StorePath },
    /// Encode the paused state.
    Encode { root: StorePath },
    /// Make the artifacts durable.
    SyncArtifacts { root: StorePath, state: Document },
    /// Publish the record.
    Publish { record: PersistedPausedRecord },
    /// Remove the other generations; what comes of it does not matter.
    RetireReplaced { keep: StorePath },
    /// Store the entry, then fail with the error.
    Refuse { entry: StoredPausedSandboxQuarantine, error: SandboxPersistenceError },
    Failed { error: SandboxPersistenceError },
    Finished,
}

pub fn persist_paused(artifact_root: Option<StorePath>) -> (step: PersistStep)
    ensures
        match artifact_root {
            Some(root) => step == (PersistStep::ValidateRoot { root }),
            None => step matches PersistStep::Failed { error } && error matches SandboxPersistenceError::RuntimeState {
                reason,
            } && reason@ == "file-backed persister requires an allocated artifact root"@,
        },
{
    match artifact_root {
        Some(root) => PersistStep::ValidateRoot { root },
        None => PersistStep::Failed {
            error: SandboxPersistenceError::RuntimeState {
                reason: "file-backed persister requires an allocated artifact root".to_owned(),
            },
        },
    }
}

pub fn persist_after_validation(sandbox_id: SandboxId, root: StorePath, managed: bool) -> (step:
    PersistStep)
    ensures
        if managed {
            step == (PersistStep::Encode { root })
        } else {
            step matches PersistStep::Refuse { entry, error } && is_entry_about(
                entry,
                "paused sandbox persistence received an artifact root outside the managed persisted store"@,
                sandbox_id,
                None,
                root,
                false,
                QuarantinePolicy::Manual,
            ) && error.is_invalid(RecordFault::RootOutsideStore)
        },
{
    if managed {
        return PersistStep::Encode { root };
    }
    PersistStep::Refuse {
        entry: entry_about(
            "paused sandbox persistence received an artifact root outside the managed persisted store".to_owned(),
            sandbox_id,
            &None,
            &root,
            false,
            QuarantinePolicy::Manual,
        ),
        error: SandboxPersistenceError::invalid(RecordFault::RootOutsideStore),
    }
}

pub fn persist_after_encoding(
    sandbox_id: SandboxId,
    root: StorePath,
    encoded: Result<Document, String>,
) -> (step: PersistStep)
    ensures
        match encoded {
            Ok(state) => step == (PersistStep::SyncArtifacts { root, state }),
            Err(source) => step matches PersistStep::Refuse { entry, error } && is_entry_about(
                entry,
                "paused sandbox state encoding failed before metadata commit"@,
                sandbox_id,
                None,
                root,
                false,
                QuarantinePolicy::Manual,
            ) && error == (SandboxPersistenceError::InvalidRecord {
                reason: RecordFault::UnencodablePausedState,
                source: Some(source),
            }),
        },
{
    match encoded {
        Ok(state) => PersistStep::SyncArtifacts { root, state },
        Err(source) => PersistStep::Refuse {
            entry: entry_about(
                "paused sandbox state encoding failed before metadata commit".to_owned(),
                sandbox_id,
                &None,
                &root,
                false,
                QuarantinePolicy::Manual,
            ),
            error: SandboxPersistenceError::InvalidRecord {
                reason: RecordFault::UnencodablePausedState,
                source: Some(source),
            },
        },
    }
}

/// The record of a pause that has just been taken.
pub open spec fn is_new_pause(
    record: RecordView,
    metadata: SandboxMetadata,
    root: StorePath,
    state: Document,
    checkpoint_at: Option<u64>,
) -> bool {
    record == (RecordView {
        version: PAUSED_MANIFEST_VERSION,
        commit_state: PersistedPausedCommitState::Committed,
        lifecycle: PersistedPausedLifecycle::Paused,
        resuming_boot_id: None,
        unproven_stop_boot_id: None,
        checkpoint_at_unix_ms: checkpoint_at,
        metadata,
        artifact_root: root@,
        artifact_spelling: root.spelled(),
        state,
    })
}

pub fn persist_after_sync(
    metadata: &SandboxMetadata,
    root: StorePath,
    state: Document,
    checkpoint_at: Option<u64>,
    synced: PersistenceResult<()>,
) -> (step: PersistStep)
    ensures
        match synced {
            Ok(_) => step matches PersistStep::Publish { record } && is_new_pause(
                record@,
                *metadata,
                root,
                state,
                checkpoint_at,
            ),
            Err(source) => step matches PersistStep::Refuse { entry, error } && is_entry_about(
                entry,
                "paused sandbox artifacts failed durability sync: "@ + source.shown(),
                metadata.id,
                None,
                root,
                false,
                QuarantinePolicy::Manual,
            ) && error == source,
        },
{
    match synced {
        Ok(_) => PersistStep::Publish {
            record: PersistedPausedRecord {
                version: PAUSED_MANIFEST_VERSION,
                commit_state: PersistedPausedCommitState::Committed,
                lifecycle: PersistedPausedLifecycle::Paused,
                resuming_boot_id: None,
                unproven_stop_boot_id: None,
                checkpoint_at_unix_ms: checkpoint_at,
                metadata: metadata.copy(),
                artifact_root: root,
                state,
            },
        },
        Err(source) => PersistStep::Refuse {
            entry: entry_about(
                text::concat2(
                    "paused sandbox artifacts failed durability sync: ",
                    source.to_text().as_str(),
                ),
                metadata.id,
                &None,
                &root,
                false,
                QuarantinePolicy::Manual,
            ),
            error: source,
        },
    }
}

pub fn persist_after_publication(root: StorePath, published: PersistenceResult<()>) -> (step:
    PersistStep)
    ensures
        match published {
            Ok(_) => step == (PersistStep::RetireReplaced { keep: root }),
            Err(error) => step == (PersistStep::Failed { error }),
        },
{
    match published {
        Ok(_) => PersistStep::RetireReplaced { keep: root },
        Err(error) => PersistStep::Failed { error },
    }
}

/// What came of a step of the persistence of a pause.
#[derive(Debug)]
pub enum PersistEvent {
    /// Whether the generation is managed.
    Validated { managed: bool },
    Encoded { encoded: Result<Document, String> },
    /// What came of making the artifacts durable, at the time that is given.
    Synced { synced: PersistenceResult<()>, checkpoint_at: Option<u64> },
    Published { published: PersistenceResult<()> },
    Retired,
    EntryStored { stored: PersistenceResult<()> },
}

impl PersistStep {
    /// What follows on an event. One that is not about the step changes nothing.
    pub open spec fn leads_to(
        self,
        metadata: SandboxMetadata,
        event: PersistEvent,
        next: PersistStep,
    ) -> bool {
        match (self, event) {
            (PersistStep::ValidateRoot { root }, PersistEvent::Validated { managed }) => if managed {
                next == (PersistStep::Encode { root })
            } else {
                next matches PersistStep::Refuse { entry, error } && is_entry_about(
                    entry,
                    "paused sandbox persistence received an artifact root outside the managed persisted store"@,
                    metadata.id,
                    None,
                    root,
                    false,
                    QuarantinePolicy::Manual,
                ) && error.is_invalid(RecordFault::RootOutsideStore)
            },
            (PersistStep::Encode { root }, PersistEvent::Encoded { encoded: Ok(state) }) => next == (
            PersistStep::SyncArtifacts { root, state }),
            (PersistStep::Encode { root }, PersistEvent::Encoded { encoded: Err(source) }) => {
                next matches PersistStep::Refuse { entry, error } && is_entry_about(
                    entry,
                    "paused sandbox state encoding failed before metadata commit"@,
                    metadata.id,
                    None,
                    root,
                    false,
                    QuarantinePolicy::Manual,
                ) && error == (SandboxPersistenceError::InvalidRecord {
                    reason: RecordFault::UnencodablePausedState,
                    source: Some(source),
                })
            },
            (
                PersistStep::SyncArtifacts { root, state },
                PersistEvent::Synced { synced: Ok(_), checkpoint_at },
            ) => next matches PersistStep::Publish { record } && is_new_pause(
                record@,
                metadata,
                root,
                state,
                checkpoint_at,
            ),
            (
                PersistStep::SyncArtifacts { root, .. },
                PersistEvent::Synced { synced: Err(source), .. },
            ) => next matches PersistStep::Refuse { entry, error } && is_entry_about(
                entry,
                "paused sandbox artifacts failed durability sync: "@ + source.shown(),
                metadata.id,
                None,
                root,
                false,
                QuarantinePolicy::Manual,
            ) && error == source,
            (PersistStep::Publish { record }, PersistEvent::Published { published: Ok(_) }) => next
                == (PersistStep::RetireReplaced { keep: record.artifact_root }),
            (PersistStep::Publish { .. }, PersistEvent::Published { published: Err(error) }) => next
                == (PersistStep::Failed { error }),
            (PersistStep::RetireReplaced { .. }, PersistEvent::Retired) => next is Finished,
            (PersistStep::Refuse { error, .. }, PersistEvent::EntryStored { stored: Ok(_) }) => next
                == (PersistStep::Failed { error }),
            (PersistStep::Refuse { .. }, PersistEvent::EntryStored { stored: Err(error) }) => next
                == (PersistStep::Failed { error }),
            _ => next == self,
        }
    }

    pub fn next(self, metadata: &SandboxMetadata, event: PersistEvent) -> (next: PersistStep)
        ensures
            self.leads_to(*metadata, event, next),
    {
        match (self, event) {
            (PersistStep::ValidateRoot { root }, PersistEvent::Validated { managed }) => {
                persist_after_validation(metadata.id, root, managed)
            },
            (PersistStep::Encode { root }, PersistEvent::Encoded { encoded }) => {
                persist_after_encoding(metadata.id, root, encoded)
            },
            (
                PersistStep::SyncArtifacts { root, state },
                PersistEvent::Synced { synced, checkpoint_at },
            ) => persist_after_sync(metadata, root, state, checkpoint_at, synced),
            (PersistStep::Publish { record }, PersistEvent::Published { published }) => {
                persist_after_publication(record.artifact_root, published)
            },
            (PersistStep::RetireReplaced { .. }, PersistEvent::Retired) => PersistStep::Finished,
            (PersistStep::Refuse { error, .. }, PersistEvent::EntryStored { stored: Ok(_) }) => {
                PersistStep::Failed { error }
            },
            (PersistStep::Refuse { .. }, PersistEvent::EntryStored { stored: Err(error) }) => {
                PersistStep::Failed { error }
            },
            (step, _) => step,
        }
    }
}

/// Whether an entry of a sandbox directory is a replaced generation that has to go.
pub fn is_replaced_generation(
    keep: &StorePath,
    path: &StorePath,
    is_directory: bool,
    managed: bool,
) -> (answer: bool)
    ensures
        answer == (path@ != keep@ && is_directory && managed),
{
    !path.same(keep) && is_directory && managed
}

// ---------------------------------------------------------------------------------------------
// Laws
// ---------------------------------------------------------------------------------------------

/// Whether the persistence of a pause can go through these steps.
pub open spec fn is_persistence(
    metadata: SandboxMetadata,
    steps: Seq<PersistStep>,
    events: Seq<PersistEvent>,
) -> bool {
    &&& steps.len() == events.len() + 1
    &&& steps[0] is ValidateRoot || steps[0] is Failed
    &&& forall|i: int|
        0 <= i < events.len() ==> (#[trigger] steps[i]).leads_to(metadata, events[i], steps[i + 1])
}

/// Whether the artifacts of a record were made durable at a step.
pub open spec fn synced_at(step: PersistStep, event: PersistEvent, record: RecordView) -> bool {
    &&& step matches PersistStep::SyncArtifacts { root, state }
    &&& event matches PersistEvent::Synced { synced, .. }
    &&& synced is Ok
    &&& record.artifact_root == root@
    &&& record.state == state
}

/// Whether a record was published at a step.
pub open spec fn published_at(step: PersistStep, event: PersistEvent) -> bool {
    &&& step is Publish
    &&& event matches PersistEvent::Published { published }
    &&& published is Ok
}

/// No record is published before its artifacts are durable, and a pause is reported as persisted
/// only once its record is published.
pub proof fn artifacts_are_synced_before_their_record(
    metadata: SandboxMetadata,
    steps: Seq<PersistStep>,
    events: Seq<PersistEvent>,
    at: int,
)
    requires
        is_persistence(metadata, steps, events),
        0 <= at < steps.len(),
    ensures
        steps[at] matches PersistStep::Publish { record } ==> exists|before: int|
            0 <= before < at && #[trigger] synced_at(steps[before], events[before], record@),
        steps[at] is RetireReplaced || steps[at] is Finished ==> exists|before: int|
            0 <= before < at && #[trigger] published_at(steps[before], events[before]),
    decreases at,
{
    if at > 0 {
        artifacts_are_synced_before_their_record(metadata, steps, events, at - 1);
        let before = at - 1;
        assert(steps[before].leads_to(metadata, events[before], steps[before + 1]));
        match steps[at] {
            PersistStep::Publish { record } => {
                if steps[before] is SyncArtifacts {
                    assert(synced_at(steps[before], events[before], record@));
                }
            },
            PersistStep::RetireReplaced { .. } => {
                if steps[before] is Publish {
                    assert(published_at(steps[before], events[before]));
                }
            },
            _ => {},
        }
    }
}

/// What is durable about one generation: its manifest, its marker, and the manifest that the index
/// of its sandbox names.
pub struct Durable {
    pub manifest: Option<RecordView>,
    pub marked: bool,
    pub indexed: Option<RecordView>,
}

impl Durable {
    /// The record that a restart reads.
    pub open spec fn seen(self) -> Option<RecordView> {
        match self.manifest {
            Some(record) => Some(
                if self.marked {
                    record.marked()
                } else {
                    record
                },
            ),
            None => None,
        }
    }

    /// Whether a restart reads a record that may not be used.
    pub open spec fn is_guarded(self) -> bool {
        self.seen() matches Some(record) && record.recovery_pending()
    }

    /// What is durable once the write of a step has happened.
    pub open spec fn written(self, step: PublishStep, record: RecordView) -> Durable {
        match step {
            PublishStep::WritePreparedManifest => Durable {
                manifest: Some(record.prepared()),
                ..self
            },
            PublishStep::WriteMarker => Durable { marked: true, ..self },
            PublishStep::WriteCommittedManifest => Durable {
                manifest: Some(record.committed()),
                ..self
            },
            PublishStep::WriteCommittedIndex => Durable { indexed: Some(record.committed()), ..self },
            PublishStep::RemoveMarker => Durable { marked: false, ..self },
            PublishStep::WriteRecoveryMarker { .. } => Durable { marked: true, ..self },
            PublishStep::WriteRecoveryManifest { .. } => Durable {
                manifest: Some(record.prepared()),
                ..self
            },
            _ => self,
        }
    }

    /// Whether a record is published in full.
    pub open spec fn holds(self, record: RecordView) -> bool {
        &&& self.manifest == Some(record.committed())
        &&& self.indexed == Some(record.committed())
        &&& !self.marked
    }
}

/// How the write of one step came out: whether it was acknowledged and whether it happened. What
/// is acknowledged has happened.
pub struct WriteOutcome {
    pub acknowledged: bool,
    pub happened: bool,
}

/// Where a publication stands after a number of writes, and what is durable then.
pub open spec fn history(record: RecordView, start: Durable, outcomes: Seq<WriteOutcome>) -> (
    PublishStep,
    Durable,
)
    decreases outcomes.len(),
{
    if outcomes.len() == 0 {
        (PublishStep::WritePreparedManifest, start)
    } else {
        let (step, durable) = history(record, start, outcomes.drop_last());
        let outcome = outcomes.last();
        (
            step.after(outcome.acknowledged),
            if outcome.acknowledged || outcome.happened {
                durable.written(step, record)
            } else {
                durable
            },
        )
    }
}

/// Whether a restart finds what it would have found before, a record that may not be used, or the
/// new record in full.
pub open spec fn is_safe(record: RecordView, start: Durable, durable: Durable) -> bool {
    ||| durable == start
    ||| durable.manifest is None
    ||| durable.is_guarded()
    ||| durable.holds(record)
}

/// What is known of the durable state when a publication has come to a step.
spec fn known(step: PublishStep, record: RecordView, start: Durable, durable: Durable) -> bool {
    let prepared = Some(record.prepared());
    let committed = Some(record.committed());
    match step {
        PublishStep::WritePreparedManifest => durable == start,
        PublishStep::WriteMarker => durable.manifest == prepared,
        PublishStep::WriteCommittedManifest => durable.manifest == prepared && durable.marked,
        PublishStep::WriteCommittedIndex => durable.manifest == committed && durable.marked,
        PublishStep::RemoveMarker => durable.manifest == committed && durable.indexed == committed
            && durable.marked,
        PublishStep::Published => durable.holds(record),
        PublishStep::WriteRecoveryMarker { .. } => is_safe(record, start, durable),
        PublishStep::WriteRecoveryManifest { marked, .. } => is_safe(record, start, durable) && (marked
            ==> durable.marked),
        PublishStep::StoreQuarantine { guarded, .. } => is_safe(record, start, durable) && (guarded
            ==> durable.is_guarded() || durable.manifest is None),
        PublishStep::Uncertain { .. } => is_safe(record, start, durable),
    }
}

proof fn history_is_known(record: RecordView, start: Durable, outcomes: Seq<WriteOutcome>)
    ensures
        known(history(record, start, outcomes).0, record, start, history(record, start, outcomes).1),
    decreases outcomes.len(),
{
    if outcomes.len() > 0 {
        history_is_known(record, start, outcomes.drop_last());
    }
}

/// Whenever a publication is interrupted, a restart finds what it would have found before, a
/// record that may not be used, or the new record in full.
pub proof fn publication_is_safe_at_every_moment(
    record: RecordView,
    start: Durable,
    outcomes: Seq<WriteOutcome>,
)
    ensures
        is_safe(record, start, history(record, start, outcomes).1),
{
    history_is_known(record, start, outcomes);
}

/// The index names what it named before until the record stands in its final form under its marker,
/// and that final form from then on: a part of a new generation never becomes the current one.
pub proof fn partial_generations_are_never_indexed(
    record: RecordView,
    start: Durable,
    outcomes: Seq<WriteOutcome>,
)
    ensures
        ({
            let (step, durable) = history(record, start, outcomes);
            &&& durable.indexed == start.indexed || durable.indexed == Some(record.committed())
            &&& step is WritePreparedManifest || step is WriteMarker || step is WriteCommittedManifest
                || step is WriteCommittedIndex ==> durable.indexed == start.indexed
            &&& step is WriteCommittedIndex ==> durable.manifest == Some(record.committed())
                && durable.marked
        }),
    decreases outcomes.len(),
{
    history_is_known(record, start, outcomes);
    if outcomes.len() > 0 {
        partial_generations_are_never_indexed(record, start, outcomes.drop_last());
    }
}

/// An acknowledged publication is durable in full: manifest and index agree on the record, and
/// nothing marks it as uncertain.
pub proof fn an_acknowledged_publication_is_durable(
    record: RecordView,
    start: Durable,
    outcomes: Seq<WriteOutcome>,
)
    requires
        history(record, start, outcomes).0 is Published,
    ensures
        history(record, start, outcomes).1.holds(record),
{
    history_is_known(record, start, outcomes);
}

/// After a failed write, a generation that counts as guarded holds no record, or one that may not
/// be used.
pub proof fn a_guarded_generation_may_not_be_used(
    record: RecordView,
    start: Durable,
    outcomes: Seq<WriteOutcome>,
    failed: UncertainWrite,
)
    requires
        history(record, start, outcomes).0 == (PublishStep::StoreQuarantine {
            failed,
            guarded: true,
        }),
    ensures
        history(record, start, outcomes).1.is_guarded() || history(
            record,
            start,
            outcomes,
        ).1.manifest is None,
{
    history_is_known(record, start, outcomes);
}

/// The position of an ordinary write in a publication.
spec fn position(step: PublishStep) -> int {
    match step {
        PublishStep::WritePreparedManifest => 0,
        PublishStep::WriteMarker => 1,
        PublishStep::WriteCommittedManifest => 2,
        PublishStep::WriteCommittedIndex => 3,
        PublishStep::RemoveMarker => 4,
        _ => 5,
    }
}

/// Success is reported only after all five writes were acknowledged, and one failure rules it out.
pub proof fn success_takes_every_write(record: RecordView, start: Durable, outcomes: Seq<WriteOutcome>)
    ensures
        history(record, start, outcomes).0 is Published <==> outcomes.len() >= 5 && forall|k: int|
            0 <= k < 5 ==> (#[trigger] outcomes[k]).acknowledged,
{
    writes_come_in_order(record, start, outcomes);
}

proof fn writes_come_in_order(record: RecordView, start: Durable, outcomes: Seq<WriteOutcome>)
    ensures
        ({
            let step = history(record, start, outcomes).0;
            let all = forall|k: int|
                0 <= k < 5 && k < outcomes.len() ==> (#[trigger] outcomes[k]).acknowledged;
            &&& all ==> if outcomes.len() < 5 {
                step.is_ordinary_write() && position(step) == outcomes.len()
            } else {
                step is Published
            }
            &&& !all ==> !step.is_ordinary_write() && !(step is Published)
        }),
    decreases outcomes.len(),
{
    if outcomes.len() > 0 {
        let before = outcomes.drop_last();
        writes_come_in_order(record, start, before);
        assert forall|k: int| 0 <= k < before.len() implies before[k] == outcomes[k] by {}
        let all_before = forall|k: int|
            0 <= k < 5 && k < before.len() ==> (#[trigger] before[k]).acknowledged;
        let all = forall|k: int|
            0 <= k < 5 && k < outcomes.len() ==> (#[trigger] outcomes[k]).acknowledged;
        let last = outcomes.len() - 1;
        assert(outcomes[last] == outcomes.last());
        if all {
            assert forall|k: int| 0 <= k < 5 && k < before.len() implies (#[trigger] before[k]).acknowledged by {
                assert(outcomes[k].acknowledged);
            }
        } else {
            let k = choose|k: int|
                0 <= k < 5 && k < outcomes.len() && !(#[trigger] outcomes[k]).acknowledged;
            if k < last {
                assert(!before[k].acknowledged);
            }
        }
    }
}

/// A failed write is always followed by an attempt to mark the generation and by an attempt to
/// write its record back in the prepared form, and then by an entry about it.
pub proof fn failures_lead_to_recovery(step: PublishStep, marked: bool, written: bool, stored: bool)
    requires
        step.is_ordinary_write(),
    ensures
        step.after(false) is WriteRecoveryMarker,
        step.after(false).after(marked) is WriteRecoveryManifest,
        step.after(false).after(marked).after(written) matches PublishStep::StoreQuarantine {
            guarded,
            ..
        } && guarded == (marked || written),
        step.after(false).after(marked).after(written).after(stored) is Uncertain,
{
}

/// A publication writes the prepared record, the marker, the final record and the index, and then
/// removes the marker, in this order; the first of these writes that fails is named to the end.
pub proof fn publications_write_in_this_order(marked: bool, written: bool, stored: bool)
    ensures
        PublishStep::WritePreparedManifest.after(true) is WriteMarker,
        PublishStep::WriteMarker.after(true) is WriteCommittedManifest,
        PublishStep::WriteCommittedManifest.after(true) is WriteCommittedIndex,
        PublishStep::WriteCommittedIndex.after(true) is RemoveMarker,
        PublishStep::RemoveMarker.after(true) is Published,
        ends_as(PublishStep::WritePreparedManifest, UncertainWrite::PreparedManifest, marked, written, stored),
        ends_as(PublishStep::WriteMarker, UncertainWrite::RecoveryMarker, marked, written, stored),
        ends_as(PublishStep::WriteCommittedManifest, UncertainWrite::CommittedManifest, marked, written, stored),
        ends_as(PublishStep::WriteCommittedIndex, UncertainWrite::CommittedIndex, marked, written, stored),
        ends_as(PublishStep::RemoveMarker, UncertainWrite::MarkerRemoval, marked, written, stored),
        PublishStep::Published.after(marked) is Published,
{
}

/// Whether a write that fails leads to a marker, to the prepared record, to an entry and to the end,
/// all of them about this write.
pub open spec fn ends_as(
    step: PublishStep,
    failed: UncertainWrite,
    marked: bool,
    written: bool,
    stored: bool,
) -> bool {
    let marking = step.after(false);
    let writing = marking.after(marked);
    let storing = writing.after(written);
    let end = storing.after(stored);
    &&& marking == (PublishStep::WriteRecoveryMarker { failed })
    &&& writing == (PublishStep::WriteRecoveryManifest { failed, marked })
    &&& storing == (PublishStep::StoreQuarantine { failed, guarded: marked || written })
    &&& end == (PublishStep::Uncertain { failed })
    &&& end.after(stored) == end
}

/// The five writes of an undisturbed publication are these; only the prepared record, the final
/// record and the one that is written back after a failure are records, and the last is not usable.
pub proof fn only_final_records_are_usable(
    step: PublishStep,
    record: RecordView,
    written: RecordView,
)
    ensures
        step.is_ordinary_write() <==> !(step is Published) && !(step is WriteRecoveryMarker) && !(step
            is WriteRecoveryManifest) && !(step is StoreQuarantine) && !(step is Uncertain),
        manifest_written(step, record) is Some <==> step is WritePreparedManifest || step
            is WriteCommittedManifest || step is WriteRecoveryManifest,
        manifest_written(step, record) == Some(written) ==> {
            &&& written.version == 2
            &&& written.metadata.same_settings(record.metadata)
            &&& written.metadata.state == record.metadata.state
            &&& written.metadata.paused_state == record.metadata.paused_state
            &&& written.artifact_root == record.artifact_root
            &&& written.state == record.state
            &&& written.lifecycle == record.lifecycle
            &&& written.checkpoint_at_unix_ms == record.checkpoint_at_unix_ms
            &&& step is WriteCommittedManifest <==> written.commit_state is Committed
            &&& step is WriteCommittedManifest ==> written.metadata == record.metadata
            &&& !(step is WriteCommittedManifest) ==> written.metadata.resume_recovery_pending
                && !written.metadata.paused_runtime_stopped
        },
{
}

/// The record of a new pause is of the current version and final, says that the sandbox is paused, and
/// names no boot; all else is what it was given.
pub proof fn new_pauses_are_recorded_as_given(
    record: RecordView,
    metadata: SandboxMetadata,
    root: StorePath,
    state: Document,
    checkpoint_at: Option<u64>,
)
    requires
        is_new_pause(record, metadata, root, state, checkpoint_at),
    ensures
        record.version == 2,
        record.commit_state is Committed,
        record.lifecycle is Paused,
        record.resuming_boot_id is None,
        record.unproven_stop_boot_id is None,
        record.checkpoint_at_unix_ms == checkpoint_at,
        record.metadata == metadata,
        record.artifact_root == root@,
        record.artifact_spelling == root.spelled(),
        record.state == state,
{
}

/// An entry about a sandbox names the sandbox by its text, its generation, and the record of that
/// generation where it is asked for; it captures what it was given and nothing else.
pub proof fn entries_are_about_their_sandbox(
    entry: StoredPausedSandboxQuarantine,
    reason: Seq<char>,
    sandbox_id: SandboxId,
    captured: Option<Seq<u8>>,
    artifact_root: StorePath,
    with_manifest: bool,
    policy: QuarantinePolicy,
)
    requires
        is_entry_about(entry, reason, sandbox_id, captured, artifact_root, with_manifest, policy),
    ensures
        entry.reason@ == reason,
        entry.record_key is Some && entry.record_key->0@ == text::lossy_text(
            text::text_bytes(sandbox_id.text()),
        ),
        entry.artifact_root is Some && entry.artifact_root->0@ == artifact_root@,
        entry.manifest_path is Some <==> with_manifest,
        with_manifest ==> entry.manifest_path->0@ == artifact_root@.push(
            crate::paths::Part::Name(text::text_bytes("paused-record.v2.json"@)),
        ),
        entry.requires_manual_recovery <==> !(policy is Nonblocking),
        entry.record_sha256 is Some <==> captured is Some,
        captured is Some ==> entry.record_sha256->0@ == crate::digest::sha256_hex_of(captured->0),
{
    let manifest = choose|manifest: Option<StorePath>|
        {
            &&& #[trigger] is_manifest_of(manifest, artifact_root, with_manifest)
            &&& quarantine::describes(
                entry,
                reason,
                Some(text::text_bytes(sandbox_id.text())),
                captured,
                Some(artifact_root),
                manifest,
                policy,
            )
        };
    assert(is_manifest_of(manifest, artifact_root, with_manifest));
}

/// The persistence of a pause validates the generation, encodes the state, makes the artifacts
/// durable, publishes the record of exactly that generation and state, and then retires the other
/// generations, which cannot fail it any more.
pub proof fn pauses_are_persisted_in_this_order(
    metadata: SandboxMetadata,
    root: StorePath,
    state: Document,
    checkpoint_at: Option<u64>,
    encode: PersistStep,
    sync: PersistStep,
    publish: PersistStep,
    retire: PersistStep,
    end: PersistStep,
)
    requires
        (PersistStep::ValidateRoot { root }).leads_to(
            metadata,
            PersistEvent::Validated { managed: true },
            encode,
        ),
        encode.leads_to(metadata, PersistEvent::Encoded { encoded: Ok(state) }, sync),
        sync.leads_to(metadata, PersistEvent::Synced { synced: Ok(()), checkpoint_at }, publish),
        publish.leads_to(metadata, PersistEvent::Published { published: Ok(()) }, retire),
        retire.leads_to(metadata, PersistEvent::Retired, end),
    ensures
        encode == (PersistStep::Encode { root }),
        sync == (PersistStep::SyncArtifacts { root, state }),
        publish matches PersistStep::Publish { record } && {
            &&& record.metadata == metadata
            &&& record.artifact_root@ == root@
            &&& record.artifact_root.spelled() == root.spelled()
            &&& record.state == state
            &&& record.checkpoint_at_unix_ms == checkpoint_at
            &&& record.commit_state is Committed
            &&& record.lifecycle is Paused
        },
        retire matches PersistStep::RetireReplaced { keep } && keep@ == root@,
        end is Finished,
{
    match publish {
        PersistStep::Publish { record } => {
            assert(is_new_pause(record@, metadata, root, state, checkpoint_at));
            assert(record@.metadata == record.metadata);
        },
        _ => {},
    }
}

/// A pause that cannot be persisted is refused with an entry that says why, and the cause is told once
/// the entry is stored; a publication that fails, or an entry that cannot be stored, is told itself.
pub proof fn unpersisted_pauses_tell_why(
    metadata: SandboxMetadata,
    step: PersistStep,
    event: PersistEvent,
    next: PersistStep,
)
    requires
        step.leads_to(metadata, event, next),
    ensures
        step matches PersistStep::ValidateRoot { root } ==> (event == (PersistEvent::Validated {
            managed: false,
        }) ==> (next matches PersistStep::Refuse { entry, error } && error.is_invalid(
            RecordFault::RootOutsideStore,
        ) && entry.artifact_root->0@ == root@ && entry.requires_manual_recovery)),
        step matches PersistStep::Encode { root } ==> (event matches PersistEvent::Encoded {
            encoded: Err(source),
        } ==> (next matches PersistStep::Refuse { entry, error } && error == (
        SandboxPersistenceError::InvalidRecord {
            reason: RecordFault::UnencodablePausedState,
            source: Some(source),
        }) && entry.artifact_root->0@ == root@ && entry.requires_manual_recovery)),
        step matches PersistStep::SyncArtifacts { root, .. } ==> (event matches PersistEvent::Synced {
            synced: Err(source),
            ..
        } ==> (next matches PersistStep::Refuse { entry, error } && error == source
            && entry.artifact_root->0@ == root@ && entry.requires_manual_recovery)),
        step is Publish ==> (event matches PersistEvent::Published { published: Err(error) } ==> next
            == (PersistStep::Failed { error })),
        step matches PersistStep::Refuse { error, .. } ==> (event == (PersistEvent::EntryStored {
            stored: Ok(()),
        }) ==> next == (PersistStep::Failed { error })),
        step is Refuse ==> (event matches PersistEvent::EntryStored { stored: Err(error) } ==> next == (
        PersistStep::Failed { error })),
        step is Failed || step is Finished ==> next == step,
{
}

} // verus!
