//! Errors of the paused-sandbox store.

use crate::ids::SandboxId;
use crate::orchestrator::persistence::paused_transactions::PersistedPausedLifecycle;
use crate::paths::StorePath;
use crate::text;
use vstd::prelude::*;

verus! {

/// What is wrong with a stored record, an index, a manifest or a request about one.
#[derive(Debug)]
pub enum RecordFault {
    UndecodableRecord,
    UnsupportedRecordVersion { version: u32 },
    UndecodableEntry,
    UndecodableIndex,
    UnsupportedIndexVersion { version: u32 },
    RecordOutsideManifest { version: u32 },
    UndecodableCreateRecord,
    UnsupportedCreateRecordVersion { version: u32 },
    EmptyCreateRecord,
    CreateKeyNotText,
    CreateKeyMismatch { stored_key: String, record_key: String },
    UndecodablePausedState,
    StopProofUnsupported,
    CreateJournalUnsupported,
    UndecodableExistingQuarantine,
    UnsupportedExistingQuarantineVersion { version: u32 },
    UndecodableQuarantine,
    UnsupportedQuarantineVersion { version: u32 },
    RecordNotFound { sandbox_id: SandboxId },
    IndexKeyMismatch { expected: SandboxId, found: SandboxId },
    IndexOutsideArtifacts { sandbox_id: SandboxId },
    IndexManifestMismatch { sandbox_id: SandboxId },
    UndecodableManifest,
    UnsupportedManifestVersion { manifest: String, version: u32 },
    ManifestWithoutCommitState { manifest: String },
    ManifestArtifactRoot { manifest: String, artifact_root: String },
    ManifestGeneration { manifest: String },
    ManifestSandbox { manifest: String, found: SandboxId, expected: SandboxId },
    MarkerNotRegular { marker: String },
    UnmanagedArtifactRoot { sandbox_id: SandboxId },
    CleanWhileRecoveryPending { sandbox_id: SandboxId },
    FinalizeBeforeResuming { sandbox_id: SandboxId },
    RetireOutsideSandbox { sandbox_id: SandboxId },
    QuarantineNotFound { quarantine_id: String },
    PurgeOfNewerState { quarantine_id: String },
    PurgeOutsideSandbox { quarantine_id: String, sandbox_id: SandboxId },
    PurgeOutsideArtifacts { quarantine_id: String },
    RootOutsideStore,
    UnencodablePausedState,
    StopProofOutsidePause { sandbox_id: SandboxId, lifecycle: PersistedPausedLifecycle },
    BootIdUnavailable { sandbox_id: SandboxId },
    DeleteWhileRecoveryPending { sandbox_id: SandboxId },
    Outside { message: String },
}

impl RecordFault {
    pub open spec fn shown(&self) -> Seq<char> {
        match self {
            RecordFault::UndecodableRecord => "failed to deserialize record"@,
            RecordFault::UnsupportedRecordVersion { version } => "unsupported record version "@ + text::decimal(version as nat),
            RecordFault::UndecodableEntry => "failed to deserialize paused sandbox record or index"@,
            RecordFault::UndecodableIndex => "failed to deserialize paused sandbox index"@,
            RecordFault::UnsupportedIndexVersion { version } => "unsupported paused sandbox index version "@ + text::decimal(version as nat),
            RecordFault::RecordOutsideManifest { version } => "paused sandbox record version "@ + text::decimal(version as nat) + " must be stored in a v2 manifest"@,
            RecordFault::UndecodableCreateRecord => "failed to deserialize create idempotency record"@,
            RecordFault::UnsupportedCreateRecordVersion { version } => "unsupported create idempotency record version "@ + text::decimal(version as nat),
            RecordFault::EmptyCreateRecord => "create idempotency record has an empty key or fingerprint"@,
            RecordFault::CreateKeyNotText => "create idempotency record key is not UTF-8"@,
            RecordFault::CreateKeyMismatch { stored_key, record_key } => "create idempotency record key mismatch: database key '"@ + stored_key@ + "' contains '"@ + record_key@ + "'"@,
            RecordFault::UndecodablePausedState => "failed to decode paused sandbox state"@,
            RecordFault::StopProofUnsupported => "paused runtime stop proof is not supported by this persister"@,
            RecordFault::CreateJournalUnsupported => "create idempotency persistence is not supported by this persister"@,
            RecordFault::UndecodableExistingQuarantine => "failed to deserialize existing paused sandbox quarantine record"@,
            RecordFault::UnsupportedExistingQuarantineVersion { version } => "unsupported existing paused sandbox quarantine version "@ + text::decimal(version as nat),
            RecordFault::UndecodableQuarantine => "failed to deserialize paused sandbox quarantine record"@,
            RecordFault::UnsupportedQuarantineVersion { version } => "unsupported paused sandbox quarantine version "@ + text::decimal(version as nat),
            RecordFault::RecordNotFound { sandbox_id } => "paused sandbox record "@ + sandbox_id.text() + " not found"@,
            RecordFault::IndexKeyMismatch { expected, found } => "paused sandbox index key "@ + expected.text() + " points at "@ + found.text(),
            RecordFault::IndexOutsideArtifacts { sandbox_id } => "paused sandbox index "@ + sandbox_id.text() + " references a manifest outside the managed artifacts root"@,
            RecordFault::IndexManifestMismatch { sandbox_id } => "paused sandbox index "@ + sandbox_id.text() + " does not match its manifest"@,
            RecordFault::UndecodableManifest => "failed to deserialize paused sandbox manifest"@,
            RecordFault::UnsupportedManifestVersion { manifest, version } => "paused sandbox manifest "@ + manifest@ + " has unsupported version "@ + text::decimal(version as nat),
            RecordFault::ManifestWithoutCommitState { manifest } => "paused sandbox manifest "@ + manifest@ + " is missing its v2 commit state"@,
            RecordFault::ManifestArtifactRoot { manifest, artifact_root } => "paused sandbox manifest "@ + manifest@ + " does not match its artifact root "@ + artifact_root@,
            RecordFault::ManifestGeneration { manifest } => "paused sandbox manifest "@ + manifest@ + " does not reference an exact managed artifact generation"@,
            RecordFault::ManifestSandbox { manifest, found, expected } => "paused sandbox manifest "@ + manifest@ + " contains metadata for "@ + found.text() + " instead of "@ + expected.text(),
            RecordFault::MarkerNotRegular { marker } => "paused sandbox recovery marker "@ + marker@ + " is not a regular file"@,
            RecordFault::UnmanagedArtifactRoot { sandbox_id } => "paused sandbox "@ + sandbox_id.text() + " artifact root is outside the managed persisted store"@,
            RecordFault::CleanWhileRecoveryPending { sandbox_id } => "cannot clean paused sandbox "@ + sandbox_id.text() + " while its persistence commit is recovery-pending"@,
            RecordFault::FinalizeBeforeResuming { sandbox_id } => "cannot finalize paused sandbox "@ + sandbox_id.text() + " before it is marked resuming"@,
            RecordFault::RetireOutsideSandbox { sandbox_id } => "refusing to retire reconciled generation outside sandbox "@ + sandbox_id.text(),
            RecordFault::QuarantineNotFound { quarantine_id } => "paused sandbox quarantine "@ + quarantine_id@ + " not found"@,
            RecordFault::PurgeOfNewerState { quarantine_id } => "refusing to purge paused sandbox quarantine "@ + quarantine_id@ + ": its record key now points at newer or unknown state"@,
            RecordFault::PurgeOutsideSandbox { quarantine_id, sandbox_id } => "refusing to purge paused sandbox quarantine "@ + quarantine_id@ + ": artifact path is not an exact managed generation for sandbox "@ + sandbox_id.text(),
            RecordFault::PurgeOutsideArtifacts { quarantine_id } => "refusing to purge paused sandbox quarantine "@ + quarantine_id@ + ": artifact path is not an exact managed generation or metadata file"@,
            RecordFault::RootOutsideStore => "file-backed persister requires artifact roots below its persisted store"@,
            RecordFault::UnencodablePausedState => "failed to encode paused sandbox state"@,
            RecordFault::StopProofOutsidePause { sandbox_id, lifecycle } => "cannot mark paused runtime "@ + sandbox_id.text() + " stopped while record is "@ + lifecycle.name_text(),
            RecordFault::BootIdUnavailable { sandbox_id } => "cannot mark paused sandbox "@ + sandbox_id.text() + " resuming because the Linux host boot ID is unavailable"@,
            RecordFault::DeleteWhileRecoveryPending { sandbox_id } => "refusing automatic deletion of recovery-pending paused sandbox "@ + sandbox_id.text(),
            RecordFault::Outside { message } => message@,
        }
    }

    pub fn to_text(&self) -> (shown: String)
        ensures
            shown@ == self.shown(),
    {
        match self {
            RecordFault::UndecodableRecord => "failed to deserialize record".to_owned(),
            RecordFault::UnsupportedRecordVersion { version } => text::concat2(
                "unsupported record version ",
                text::decimal_text(*version as u64).as_str(),
            ),
            RecordFault::UndecodableEntry => "failed to deserialize paused sandbox record or index".to_owned(),
            RecordFault::UndecodableIndex => "failed to deserialize paused sandbox index".to_owned(),
            RecordFault::UnsupportedIndexVersion { version } => text::concat2(
                "unsupported paused sandbox index version ",
                text::decimal_text(*version as u64).as_str(),
            ),
            RecordFault::RecordOutsideManifest { version } => text::concat3(
                "paused sandbox record version ",
                text::decimal_text(*version as u64).as_str(),
                " must be stored in a v2 manifest",
            ),
            RecordFault::UndecodableCreateRecord => "failed to deserialize create idempotency record".to_owned(),
            RecordFault::UnsupportedCreateRecordVersion { version } => text::concat2(
                "unsupported create idempotency record version ",
                text::decimal_text(*version as u64).as_str(),
            ),
            RecordFault::EmptyCreateRecord => "create idempotency record has an empty key or fingerprint".to_owned(),
            RecordFault::CreateKeyNotText => "create idempotency record key is not UTF-8".to_owned(),
            RecordFault::CreateKeyMismatch { stored_key, record_key } => text::concat5(
                "create idempotency record key mismatch: database key '",
                stored_key.as_str(),
                "' contains '",
                record_key.as_str(),
                "'",
            ),
            RecordFault::UndecodablePausedState => "failed to decode paused sandbox state".to_owned(),
            RecordFault::StopProofUnsupported => "paused runtime stop proof is not supported by this persister".to_owned(),
            RecordFault::CreateJournalUnsupported => "create idempotency persistence is not supported by this persister".to_owned(),
            RecordFault::UndecodableExistingQuarantine => "failed to deserialize existing paused sandbox quarantine record".to_owned(),
            RecordFault::UnsupportedExistingQuarantineVersion { version } => text::concat2(
                "unsupported existing paused sandbox quarantine version ",
                text::decimal_text(*version as u64).as_str(),
            ),
            RecordFault::UndecodableQuarantine => "failed to deserialize paused sandbox quarantine record".to_owned(),
            RecordFault::UnsupportedQuarantineVersion { version } => text::concat2(
                "unsupported paused sandbox quarantine version ",
                text::decimal_text(*version as u64).as_str(),
            ),
            RecordFault::RecordNotFound { sandbox_id } => text::concat3(
                "paused sandbox record ",
                sandbox_id.to_text().as_str(),
                " not found",
            ),
            RecordFault::IndexKeyMismatch { expected, found } => text::concat4(
                "paused sandbox index key ",
                expected.to_text().as_str(),
                " points at ",
                found.to_text().as_str(),
            ),
            RecordFault::IndexOutsideArtifacts { sandbox_id } => text::concat3(
                "paused sandbox index ",
                sandbox_id.to_text().as_str(),
                " references a manifest outside the managed artifacts root",
            ),
            RecordFault::IndexManifestMismatch { sandbox_id } => text::concat3(
                "paused sandbox index ",
                sandbox_id.to_text().as_str(),
                " does not match its manifest",
            ),
            RecordFault::UndecodableManifest => "failed to deserialize paused sandbox manifest".to_owned(),
            RecordFault::UnsupportedManifestVersion { manifest, version } => text::concat4(
                "paused sandbox manifest ",
                manifest.as_str(),
                " has unsupported version ",
                text::decimal_text(*version as u64).as_str(),
            ),
            RecordFault::ManifestWithoutCommitState { manifest } => text::concat3(
                "paused sandbox manifest ",
                manifest.as_str(),
                " is missing its v2 commit state",
            ),
            RecordFault::ManifestArtifactRoot { manifest, artifact_root } => text::concat4(
                "paused sandbox manifest ",
                manifest.as_str(),
                " does not match its artifact root ",
                artifact_root.as_str(),
            ),
            RecordFault::ManifestGeneration { manifest } => text::concat3(
                "paused sandbox manifest ",
                manifest.as_str(),
                " does not reference an exact managed artifact generation",
            ),
            RecordFault::ManifestSandbox { manifest, found, expected } => text::concat6(
                "paused sandbox manifest ",
                manifest.as_str(),
                " contains metadata for ",
                found.to_text().as_str(),
                " instead of ",
                expected.to_text().as_str(),
            ),
            RecordFault::MarkerNotRegular { marker } => text::concat3(
                "paused sandbox recovery marker ",
                marker.as_str(),
                " is not a regular file",
            ),
            RecordFault::UnmanagedArtifactRoot { sandbox_id } => text::concat3(
                "paused sandbox ",
                sandbox_id.to_text().as_str(),
                " artifact root is outside the managed persisted store",
            ),
            RecordFault::CleanWhileRecoveryPending { sandbox_id } => text::concat3(
                "cannot clean paused sandbox ",
                sandbox_id.to_text().as_str(),
                " while its persistence commit is recovery-pending",
            ),
            RecordFault::FinalizeBeforeResuming { sandbox_id } => text::concat3(
                "cannot finalize paused sandbox ",
                sandbox_id.to_text().as_str(),
                " before it is marked resuming",
            ),
            RecordFault::RetireOutsideSandbox { sandbox_id } => text::concat2(
                "refusing to retire reconciled generation outside sandbox ",
                sandbox_id.to_text().as_str(),
            ),
            RecordFault::QuarantineNotFound { quarantine_id } => text::concat3(
                "paused sandbox quarantine ",
                quarantine_id.as_str(),
                " not found",
            ),
            RecordFault::PurgeOfNewerState { quarantine_id } => text::concat3(
                "refusing to purge paused sandbox quarantine ",
                quarantine_id.as_str(),
                ": its record key now points at newer or unknown state",
            ),
            RecordFault::PurgeOutsideSandbox { quarantine_id, sandbox_id } => text::concat4(
                "refusing to purge paused sandbox quarantine ",
                quarantine_id.as_str(),
                ": artifact path is not an exact managed generation for sandbox ",
                sandbox_id.to_text().as_str(),
            ),
            RecordFault::PurgeOutsideArtifacts { quarantine_id } => text::concat3(
                "refusing to purge paused sandbox quarantine ",
                quarantine_id.as_str(),
                ": artifact path is not an exact managed generation or metadata file",
            ),
            RecordFault::RootOutsideStore => "file-backed persister requires artifact roots below its persisted store".to_owned(),
            RecordFault::UnencodablePausedState => "failed to encode paused sandbox state".to_owned(),
            RecordFault::StopProofOutsidePause { sandbox_id, lifecycle } => text::concat4(
                "cannot mark paused runtime ",
                sandbox_id.to_text().as_str(),
                " stopped while record is ",
                lifecycle.name(),
            ),
            RecordFault::BootIdUnavailable { sandbox_id } => text::concat3(
                "cannot mark paused sandbox ",
                sandbox_id.to_text().as_str(),
                " resuming because the Linux host boot ID is unavailable",
            ),
            RecordFault::DeleteWhileRecoveryPending { sandbox_id } => text::concat2(
                "refusing automatic deletion of recovery-pending paused sandbox ",
                sandbox_id.to_text().as_str(),
            ),
            RecordFault::Outside { message } => message.clone(),
        }
    }
}

/// The durable write that may or may not have reached storage.
#[derive(Clone, Copy, Debug, PartialEq, Eq, Structural)]
pub enum UncertainWrite {
    PreparedManifest,
    RecoveryMarker,
    CommittedManifest,
    CommittedIndex,
    MarkerRemoval,
    RebuiltIndex,
}

impl UncertainWrite {
    pub open spec fn shown(self) -> Seq<char> {
        match self {
            UncertainWrite::PreparedManifest => "failed to durably publish prepared paused sandbox manifest"@,
            UncertainWrite::RecoveryMarker => "failed to durably publish paused sandbox recovery marker"@,
            UncertainWrite::CommittedManifest => "failed to durably commit paused sandbox manifest"@,
            UncertainWrite::CommittedIndex => "failed to durably index committed paused sandbox manifest"@,
            UncertainWrite::MarkerRemoval => "failed to clear paused sandbox recovery marker after final index acknowledgement"@,
            UncertainWrite::RebuiltIndex => "failed to rebuild paused sandbox index from a valid manifest"@,
        }
    }

    pub fn name(self) -> (shown: &'static str)
        ensures
            shown@ == self.shown(),
    {
        match self {
            UncertainWrite::PreparedManifest => "failed to durably publish prepared paused sandbox manifest",
            UncertainWrite::RecoveryMarker => "failed to durably publish paused sandbox recovery marker",
            UncertainWrite::CommittedManifest => "failed to durably commit paused sandbox manifest",
            UncertainWrite::CommittedIndex => "failed to durably index committed paused sandbox manifest",
            UncertainWrite::MarkerRemoval => {
                "failed to clear paused sandbox recovery marker after final index acknowledgement"
            },
            UncertainWrite::RebuiltIndex => "failed to rebuild paused sandbox index from a valid manifest",
        }
    }
}

/// An error of the paused-sandbox store. A `source` is the text of the error beneath.
#[allow(inconsistent_fields)]
#[derive(Debug)]
pub enum SandboxPersistenceError {
    Io { operation: String, path: StorePath, source: String },
    InvalidRecord { reason: RecordFault, source: Option<String> },
    RuntimeState { reason: String },
    Store { operation: String, source: String },
    /// A durable write may have reached storage even though an error came back. The snapshot has
    /// to stay in place, and the sandbox has to go through recovery.
    UncertainCommit { sandbox_id: SandboxId, reason: UncertainWrite, source: String },
    /// Only an explicit purge by an administrator can remove what is left.
    ManualRecovery { sandbox_id: SandboxId, reason: String },
}

pub type PersistenceResult<T> = Result<T, SandboxPersistenceError>;

impl SandboxPersistenceError {
    pub fn io(operation: &str, path: &StorePath, source: String) -> (error: SandboxPersistenceError)
        ensures
            error matches SandboxPersistenceError::Io { operation: o, path: p, source: s } && o@
                == operation@ && p@ == path@ && p.spelled() == path.spelled() && s == source,
    {
        SandboxPersistenceError::Io { operation: operation.to_owned(), path: path.copy(), source }
    }

    pub fn store(operation: &str, source: String) -> (error: SandboxPersistenceError)
        ensures
            error matches SandboxPersistenceError::Store { operation: o, source: s } && o@
                == operation@ && s == source,
    {
        SandboxPersistenceError::Store { operation: operation.to_owned(), source }
    }

    pub fn manual_recovery(sandbox_id: SandboxId, reason: String) -> (error: SandboxPersistenceError)
        ensures
            error == (SandboxPersistenceError::ManualRecovery { sandbox_id, reason }),
    {
        SandboxPersistenceError::ManualRecovery { sandbox_id, reason }
    }

    /// Whether the outcome of a durable write is unknown.
    pub fn is_uncertain_commit(&self) -> (answer: bool)
        ensures
            answer == (*self is UncertainCommit),
    {
        matches!(self, SandboxPersistenceError::UncertainCommit { .. })
    }

    /// Whether an administrator has to purge what this error is about.
    pub fn requires_explicit_purge(&self) -> (answer: bool)
        ensures
            answer == (*self is ManualRecovery),
    {
        matches!(self, SandboxPersistenceError::ManualRecovery { .. })
    }

    pub open spec fn shown(&self) -> Seq<char> {
        match self {
            SandboxPersistenceError::Io { operation, path, source } => "failed to "@ + operation@
                + " "@ + path.shown() + ": "@ + source@,
            SandboxPersistenceError::InvalidRecord { reason, .. } => "invalid sandbox record: "@
                + reason.shown(),
            SandboxPersistenceError::RuntimeState { reason } => {
                "invalid paused sandbox runtime state: "@ + reason@
            },
            SandboxPersistenceError::Store { operation, source } => {
                "paused sandbox store operation failed: "@ + operation@ + ": "@ + source@
            },
            SandboxPersistenceError::UncertainCommit { sandbox_id, reason, .. } => {
                "paused sandbox persistence commit is uncertain for "@ + sandbox_id.text() + ": "@
                    + reason.shown()
            },
            SandboxPersistenceError::ManualRecovery { sandbox_id, reason } => "paused sandbox "@
                + sandbox_id.text() + " requires explicit host-local recovery: "@ + reason@,
        }
    }

    pub fn to_text(&self) -> (shown: String)
        ensures
            shown@ == self.shown(),
    {
        match self {
            SandboxPersistenceError::Io { operation, path, source } => {
                text::concat6(
                    "failed to ",
                    operation.as_str(),
                    " ",
                    path.to_text().as_str(),
                    ": ",
                    source.as_str(),
                )
            },
            SandboxPersistenceError::InvalidRecord { reason, .. } => text::concat2(
                "invalid sandbox record: ",
                reason.to_text().as_str(),
            ),
            SandboxPersistenceError::RuntimeState { reason } => text::concat2(
                "invalid paused sandbox runtime state: ",
                reason.as_str(),
            ),
            SandboxPersistenceError::Store { operation, source } => text::concat4(
                "paused sandbox store operation failed: ",
                operation.as_str(),
                ": ",
                source.as_str(),
            ),
            SandboxPersistenceError::UncertainCommit { sandbox_id, reason, .. } => text::concat4(
                "paused sandbox persistence commit is uncertain for ",
                sandbox_id.to_text().as_str(),
                ": ",
                reason.name(),
            ),
            SandboxPersistenceError::ManualRecovery { sandbox_id, reason } => text::concat4(
                "paused sandbox ",
                sandbox_id.to_text().as_str(),
                " requires explicit host-local recovery: ",
                reason.as_str(),
            ),
        }
    }

    /// An invalid record with nothing beneath.
    pub open spec fn is_invalid(&self, reason: RecordFault) -> bool {
        *self == (SandboxPersistenceError::InvalidRecord { reason, source: None })
    }

    pub(crate) fn invalid(reason: RecordFault) -> (error: SandboxPersistenceError)
        ensures
            error.is_invalid(reason),
    {
        SandboxPersistenceError::InvalidRecord { reason, source: None }
    }
}

/// What is told of a fault of a record names each sandbox, key, file and version that it is about.
pub proof fn record_faults_name_what_they_are_about(told: RecordFault)
    ensures
        told matches RecordFault::UnsupportedRecordVersion { version } ==> text::mentions(
            told.shown(),
            text::decimal(version as nat),
        ),
        told matches RecordFault::UnsupportedIndexVersion { version } ==> text::mentions(
            told.shown(),
            text::decimal(version as nat),
        ),
        told matches RecordFault::RecordOutsideManifest { version } ==> text::mentions(
            told.shown(),
            text::decimal(version as nat),
        ),
        told matches RecordFault::UnsupportedCreateRecordVersion { version } ==> text::mentions(
            told.shown(),
            text::decimal(version as nat),
        ),
        told matches RecordFault::CreateKeyMismatch { stored_key, record_key } ==> {
            &&& text::mentions(told.shown(), stored_key@)
            &&& text::mentions(told.shown(), record_key@)
        },
        told matches RecordFault::UnsupportedExistingQuarantineVersion { version } ==> text::mentions(
            told.shown(),
            text::decimal(version as nat),
        ),
        told matches RecordFault::UnsupportedQuarantineVersion { version } ==> text::mentions(
            told.shown(),
            text::decimal(version as nat),
        ),
        told matches RecordFault::RecordNotFound { sandbox_id } ==> text::mentions(
            told.shown(),
            sandbox_id.text(),
        ),
        told matches RecordFault::IndexKeyMismatch { expected, found } ==> {
            &&& text::mentions(told.shown(), expected.text())
            &&& text::mentions(told.shown(), found.text())
        },
        told matches RecordFault::IndexOutsideArtifacts { sandbox_id } ==> text::mentions(
            told.shown(),
            sandbox_id.text(),
        ),
        told matches RecordFault::IndexManifestMismatch { sandbox_id } ==> text::mentions(
            told.shown(),
            sandbox_id.text(),
        ),
        told matches RecordFault::UnsupportedManifestVersion { manifest, version } ==> {
            &&& text::mentions(told.shown(), manifest@)
            &&& text::mentions(told.shown(), text::decimal(version as nat))
        },
        told matches RecordFault::ManifestWithoutCommitState { manifest } ==> text::mentions(
            told.shown(),
            manifest@,
        ),
        told matches RecordFault::ManifestArtifactRoot { manifest, artifact_root } ==> {
            &&& text::mentions(told.shown(), manifest@)
            &&& text::mentions(told.shown(), artifact_root@)
        },
        told matches RecordFault::ManifestGeneration { manifest } ==> text::mentions(
            told.shown(),
            manifest@,
        ),
        told matches RecordFault::ManifestSandbox { manifest, found, expected } ==> {
            &&& text::mentions(told.shown(), manifest@)
            &&& text::mentions(told.shown(), found.text())
            &&& text::mentions(told.shown(), expected.text())
        },
        told matches RecordFault::MarkerNotRegular { marker } ==> text::mentions(
            told.shown(),
            marker@,
        ),
        told matches RecordFault::UnmanagedArtifactRoot { sandbox_id } ==> text::mentions(
            told.shown(),
            sandbox_id.text(),
        ),
        told matches RecordFault::CleanWhileRecoveryPending { sandbox_id } ==> text::mentions(
            told.shown(),
            sandbox_id.text(),
        ),
        told matches RecordFault::FinalizeBeforeResuming { sandbox_id } ==> text::mentions(
            told.shown(),
            sandbox_id.text(),
        ),
        told matches RecordFault::RetireOutsideSandbox { sandbox_id } ==> text::mentions(
            told.shown(),
            sandbox_id.text(),
        ),
        told matches RecordFault::QuarantineNotFound { quarantine_id } ==> text::mentions(
            told.shown(),
            quarantine_id@,
        ),
        told matches RecordFault::PurgeOfNewerState { quarantine_id } ==> text::mentions(
            told.shown(),
            quarantine_id@,
        ),
        told matches RecordFault::PurgeOutsideSandbox { quarantine_id, sandbox_id } ==> {
            &&& text::mentions(told.shown(), quarantine_id@)
            &&& text::mentions(told.shown(), sandbox_id.text())
        },
        told matches RecordFault::PurgeOutsideArtifacts { quarantine_id } ==> text::mentions(
            told.shown(),
            quarantine_id@,
        ),
        told matches RecordFault::StopProofOutsidePause { sandbox_id, lifecycle } ==> {
            &&& text::mentions(told.shown(), sandbox_id.text())
            &&& text::mentions(told.shown(), lifecycle.name_text())
        },
        told matches RecordFault::BootIdUnavailable { sandbox_id } ==> text::mentions(
            told.shown(),
            sandbox_id.text(),
        ),
        told matches RecordFault::DeleteWhileRecoveryPending { sandbox_id } ==> text::mentions(
            told.shown(),
            sandbox_id.text(),
        ),
        told matches RecordFault::Outside { message } ==> text::mentions(
            told.shown(),
            message@,
        ),
{
    broadcast use {text::the_end_is_mentioned, text::the_beginning_mentions};

    text::a_whole_is_mentioned(told.shown());
}

/// What is told of an error of the store names the file, operation or sandbox that it is about, and
/// holds what is known of the reason.
pub proof fn store_errors_name_what_they_are_about(told: SandboxPersistenceError)
    ensures
        told matches SandboxPersistenceError::Io { operation, path, source } ==> {
            &&& text::mentions(told.shown(), operation@)
            &&& text::mentions(told.shown(), path.shown())
            &&& text::mentions(told.shown(), source@)
        },
        told matches SandboxPersistenceError::InvalidRecord { reason, .. } ==> text::mentions(
            told.shown(),
            reason.shown(),
        ),
        told matches SandboxPersistenceError::RuntimeState { reason } ==> text::mentions(
            told.shown(),
            reason@,
        ),
        told matches SandboxPersistenceError::Store { operation, source } ==> {
            &&& text::mentions(told.shown(), operation@)
            &&& text::mentions(told.shown(), source@)
        },
        told matches SandboxPersistenceError::UncertainCommit { sandbox_id, reason, .. } ==> {
            &&& text::mentions(told.shown(), sandbox_id.text())
            &&& text::mentions(told.shown(), reason.shown())
        },
        told matches SandboxPersistenceError::ManualRecovery { sandbox_id, reason } ==> {
            &&& text::mentions(told.shown(), sandbox_id.text())
            &&& text::mentions(told.shown(), reason@)
        },
{
    broadcast use {text::the_end_is_mentioned, text::the_beginning_mentions};

    text::a_whole_is_mentioned(told.shown());
}

/// Different writes that may not have reached storage have different messages.
pub proof fn uncertain_writes_are_told_apart(left: UncertainWrite, right: UncertainWrite)
    ensures
        left.shown() == right.shown() ==> left == right,
{
    reveal_strlit("failed to durably publish prepared paused sandbox manifest");
    reveal_strlit("failed to durably publish paused sandbox recovery marker");
    reveal_strlit("failed to durably commit paused sandbox manifest");
    reveal_strlit("failed to durably index committed paused sandbox manifest");
    reveal_strlit("failed to clear paused sandbox recovery marker after final index acknowledgement");
    reveal_strlit("failed to rebuild paused sandbox index from a valid manifest");
    assert("failed to durably publish prepared paused sandbox manifest"@.len() == 58);
    assert("failed to durably publish paused sandbox recovery marker"@.len() == 56);
    assert("failed to durably commit paused sandbox manifest"@.len() == 48);
    assert("failed to durably index committed paused sandbox manifest"@.len() == 57);
    assert("failed to clear paused sandbox recovery marker after final index acknowledgement"@.len() == 80);
    assert("failed to rebuild paused sandbox index from a valid manifest"@.len() == 60);
}

} // verus!
