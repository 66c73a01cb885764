//! The records that the paused-sandbox store holds, and which of them are accepted.

use crate::digest;
use crate::ids::SandboxId;
use crate::json;
use crate::orchestrator::metadata::SandboxMetadata;
use crate::orchestrator::persistence::error::{
    PersistenceResult, RecordFault, SandboxPersistenceError,
};
use crate::orchestrator::persistence::journal::CreateIdempotencyRecord;
use crate::orchestrator::persistence::paused_transactions::{
    PersistedPausedCommitState, PersistedPausedLifecycle,
};
use crate::orchestrator::types::{copy_optional_text, Document, PausedStateRef, SandboxState};
use crate::paths;
use crate::paths::{Part, StorePath};
use crate::text;
use vstd::prelude::*;

verus! {

pub const LEGACY_RECORD_VERSION: u32 = 1;

pub const PAUSED_MANIFEST_VERSION: u32 = 2;

pub const PAUSED_INDEX_VERSION: u32 = 2;

pub const QUARANTINE_VERSION: u32 = 1;

pub const CREATE_IDEMPOTENCY_RECORD_VERSION: u32 = 1;

/// The name of the file that holds the record of a generation.
pub open spec fn manifest_name() -> Seq<u8> {
    text::text_bytes("paused-record.v2.json"@)
}

/// The name of the file that marks a generation whose last write is uncertain.
pub open spec fn marker_name() -> Seq<u8> {
    text::text_bytes(".paused-record.v2.recovery-pending"@)
}

/// The path of the record inside a generation.
pub open spec fn manifest_parts(artifact_root: Seq<Part>) -> Seq<Part> {
    artifact_root.push(Part::Name(manifest_name()))
}

/// The path of the recovery marker inside a generation.
pub open spec fn marker_parts(artifact_root: Seq<Part>) -> Seq<Part> {
    artifact_root.push(Part::Name(marker_name()))
}

pub fn manifest_path(artifact_root: &StorePath) -> (path: StorePath)
    ensures
        path@ == manifest_parts(artifact_root@),
        path.spelled() == crate::paths::joined_spelling(artifact_root.spelled(), manifest_name()),
{
    proof {
        reveal_strlit("paused-record.v2.json");
        paths::text_is_plain_name("paused-record.v2.json"@);
    }
    artifact_root.join_text("paused-record.v2.json")
}

pub fn recovery_marker_path(artifact_root: &StorePath) -> (path: StorePath)
    ensures
        path@ == marker_parts(artifact_root@),
        path.spelled() == crate::paths::joined_spelling(artifact_root.spelled(), marker_name()),
{
    proof {
        reveal_strlit(".paused-record.v2.recovery-pending");
        paths::text_is_plain_name(".paused-record.v2.recovery-pending"@);
    }
    artifact_root.join_text(".paused-record.v2.recovery-pending")
}

/// The record of one paused sandbox.
#[derive(Debug)]
pub struct PersistedPausedRecord {
    pub version: u32,
    pub commit_state: PersistedPausedCommitState,
    pub lifecycle: PersistedPausedLifecycle,
    pub resuming_boot_id: Option<String>,
    pub unproven_stop_boot_id: Option<String>,
    pub checkpoint_at_unix_ms: Option<u64>,
    pub metadata: SandboxMetadata,
    pub artifact_root: StorePath,
    pub state: Document,
}

/// What a record says.
pub struct RecordView {
    pub version: u32,
    pub commit_state: PersistedPausedCommitState,
    pub lifecycle: PersistedPausedLifecycle,
    pub resuming_boot_id: Option<String>,
    pub unproven_stop_boot_id: Option<String>,
    pub checkpoint_at_unix_ms: Option<u64>,
    pub metadata: SandboxMetadata,
    pub artifact_root: Seq<Part>,
    pub artifact_spelling: Seq<u8>,
    pub state: Document,
}

impl View for PersistedPausedRecord {
    type V = RecordView;

    open spec fn view(&self) -> RecordView {
        RecordView {
            version: self.version,
            commit_state: self.commit_state,
            lifecycle: self.lifecycle,
            resuming_boot_id: self.resuming_boot_id,
            unproven_stop_boot_id: self.unproven_stop_boot_id,
            checkpoint_at_unix_ms: self.checkpoint_at_unix_ms,
            metadata: self.metadata,
            artifact_root: self.artifact_root@,
            artifact_spelling: self.artifact_root.spelled(),
            state: self.state,
        }
    }
}

impl RecordView {
    /// Whether this record may not be resumed or removed without recovery.
    pub open spec fn recovery_pending(self) -> bool {
        self.commit_state is Prepared || self.metadata.resume_recovery_pending
    }

    /// This record, as it is written before its publication is certain.
    pub open spec fn prepared(self) -> RecordView {
        RecordView {
            version: PAUSED_MANIFEST_VERSION,
            commit_state: PersistedPausedCommitState::Prepared,
            metadata: SandboxMetadata {
                resume_recovery_pending: true,
                paused_runtime_stopped: false,
                ..self.metadata
            },
            ..self
        }
    }

    /// This record, as it is written once its prepared form is indexed.
    pub open spec fn committed(self) -> RecordView {
        RecordView {
            version: PAUSED_MANIFEST_VERSION,
            commit_state: PersistedPausedCommitState::Committed,
            ..self
        }
    }

    /// This record, read while its recovery marker is present.
    pub open spec fn marked(self) -> RecordView {
        RecordView {
            metadata: SandboxMetadata {
                resume_recovery_pending: true,
                paused_runtime_stopped: false,
                ..self.metadata
            },
            ..self
        }
    }
}

impl PersistedPausedRecord {
    pub fn copy(&self) -> (copy: PersistedPausedRecord)
        ensures
            copy@ == self@,
    {
        PersistedPausedRecord {
            version: self.version,
            commit_state: self.commit_state,
            lifecycle: self.lifecycle,
            resuming_boot_id: copy_optional_text(&self.resuming_boot_id),
            unproven_stop_boot_id: copy_optional_text(&self.unproven_stop_boot_id),
            checkpoint_at_unix_ms: self.checkpoint_at_unix_ms,
            metadata: self.metadata.copy(),
            artifact_root: self.artifact_root.copy(),
            state: self.state.copy(),
        }
    }

    pub fn is_recovery_pending(&self) -> (answer: bool)
        ensures
            answer == self@.recovery_pending(),
    {
        self.commit_state == PersistedPausedCommitState::Prepared
            || self.metadata.resume_recovery_pending
    }

    pub fn to_prepared(&self) -> (prepared: PersistedPausedRecord)
        ensures
            prepared@ == self@.prepared(),
    {
        let mut prepared = self.copy();
        prepared.version = PAUSED_MANIFEST_VERSION;
        prepared.commit_state = PersistedPausedCommitState::Prepared;
        prepared.metadata.resume_recovery_pending = true;
        prepared.metadata.paused_runtime_stopped = false;
        prepared
    }

    pub fn to_committed(&self) -> (committed: PersistedPausedRecord)
        ensures
            committed@ == self@.committed(),
    {
        let mut committed = self.copy();
        committed.version = PAUSED_MANIFEST_VERSION;
        committed.commit_state = PersistedPausedCommitState::Committed;
        committed
    }
}

/// What the record store keeps for one sandbox: where its manifest is and what it holds.
#[derive(Debug)]
pub struct PersistedPausedIndex {
    pub index_version: u32,
    pub sandbox_id: SandboxId,
    pub manifest_path: StorePath,
    pub manifest_sha256: String,
}

/// A manifest that was read and accepted.
#[derive(Debug)]
pub struct ManifestEntry {
    pub path: StorePath,
    pub bytes: Vec<u8>,
    pub record: PersistedPausedRecord,
    pub recovery_marker_present: bool,
}

impl ManifestEntry {
    pub open spec fn id(&self) -> SandboxId {
        self.record.metadata.id
    }

    /// Whether an index points at exactly this manifest with exactly these bytes.
    pub open spec fn indexed_by(&self, index: &PersistedPausedIndex) -> bool {
        &&& index.sandbox_id == self.id()
        &&& index.manifest_path@ == self.path@
        &&& index.manifest_sha256@ == digest::sha256_hex_of(self.bytes@)
    }

    pub fn sandbox_id(&self) -> (id: SandboxId)
        ensures
            id == self.id(),
    {
        self.record.metadata.id
    }

    pub fn fingerprint(&self) -> (fingerprint: String)
        ensures
            fingerprint@ == digest::sha256_hex_of(self.bytes@),
    {
        digest::sha256_hex(&self.bytes)
    }

    pub fn matches_index(&self, index: &PersistedPausedIndex) -> (answer: bool)
        ensures
            answer == self.indexed_by(index),
    {
        index.sandbox_id == self.sandbox_id() && index.manifest_path.same(&self.path)
            && index.manifest_sha256 == self.fingerprint()
    }

    /// The index that points at this manifest.
    pub fn to_index(&self) -> (index: PersistedPausedIndex)
        ensures
            self.indexed_by(&index),
            index.index_version == PAUSED_INDEX_VERSION,
            index.manifest_path.spelled() == self.path.spelled(),
    {
        PersistedPausedIndex {
            index_version: PAUSED_INDEX_VERSION,
            sandbox_id: self.sandbox_id(),
            manifest_path: self.path.copy(),
            manifest_sha256: self.fingerprint(),
        }
    }
}

#[derive(Debug)]
pub enum StoredPausedEntry {
    Legacy(PersistedPausedRecord),
    Index(PersistedPausedIndex),
}

/// A create record with the version under which it is stored.
#[derive(Debug)]
pub struct PersistedCreateIdempotencyRecord {
    pub version: u32,
    pub record: CreateIdempotencyRecord,
}

/// The commit state of a record that names none.
pub fn default_commit_state() -> (state: PersistedPausedCommitState)
    ensures
        state is Committed,
{
    PersistedPausedCommitState::Committed
}

pub open spec fn supported_record_version(version: u32) -> bool {
    version == LEGACY_RECORD_VERSION || version == PAUSED_MANIFEST_VERSION
}

pub fn ensure_supported_record_version(version: u32) -> (outcome: PersistenceResult<()>)
    ensures
        match outcome {
            Ok(_) => supported_record_version(version),
            Err(error) => !supported_record_version(version) && error.is_invalid(
                RecordFault::UnsupportedRecordVersion { version },
            ),
        },
{
    if version == LEGACY_RECORD_VERSION || version == PAUSED_MANIFEST_VERSION {
        Ok(())
    } else {
        Err(SandboxPersistenceError::invalid(RecordFault::UnsupportedRecordVersion { version }))
    }
}

/// An invalid record beneath which another error lies.
pub(crate) fn undecodable<T>(reason: RecordFault, source: String) -> (outcome: PersistenceResult<T>)
    ensures
        outcome == Err::<T, SandboxPersistenceError>(
            (SandboxPersistenceError::InvalidRecord { reason, source: Some(source) }),
        ),
{
    Err(SandboxPersistenceError::InvalidRecord { reason, source: Some(source) })
}

/// Accepts a parsed record of a supported version.
pub fn decode_record(parsed: Result<PersistedPausedRecord, String>) -> (outcome: PersistenceResult<
    PersistedPausedRecord,
>)
    ensures
        match parsed {
            Ok(record) => if supported_record_version(record.version) {
                outcome == Ok::<PersistedPausedRecord, SandboxPersistenceError>(record)
            } else {
                outcome matches Err(error) && error.is_invalid(
                    RecordFault::UnsupportedRecordVersion { version: record.version },
                )
            },
            Err(source) => outcome matches Err(error) && error == (
            SandboxPersistenceError::InvalidRecord {
                reason: RecordFault::UndecodableRecord,
                source: Some(source),
            }),
        },
{
    match parsed {
        Ok(record) => match ensure_supported_record_version(record.version) {
            Ok(_) => Ok(record),
            Err(error) => Err(error),
        },
        Err(source) => undecodable(RecordFault::UndecodableRecord, source),
    }
}

/// Accepts a parsed index of the current version.
pub fn decode_paused_index(parsed: Result<PersistedPausedIndex, String>) -> (outcome:
    PersistenceResult<PersistedPausedIndex>)
    ensures
        match parsed {
            Ok(index) => if index.index_version == PAUSED_INDEX_VERSION {
                outcome == Ok::<PersistedPausedIndex, SandboxPersistenceError>(index)
            } else {
                outcome matches Err(error) && error.is_invalid(
                    RecordFault::UnsupportedIndexVersion { version: index.index_version },
                )
            },
            Err(source) => outcome matches Err(error) && error == (
            SandboxPersistenceError::InvalidRecord {
                reason: RecordFault::UndecodableIndex,
                source: Some(source),
            }),
        },
{
    match parsed {
        Ok(index) => if index.index_version == PAUSED_INDEX_VERSION {
            Ok(index)
        } else {
            Err(
                SandboxPersistenceError::invalid(
                    RecordFault::UnsupportedIndexVersion { version: index.index_version },
                ),
            )
        },
        Err(source) => undecodable(RecordFault::UndecodableIndex, source),
    }
}

/// Accepts what the record store holds under one key: a document with an `indexVersion` has to be
/// an index, any other has to be a record of the legacy version.
pub fn decode_stored_paused_entry(
    bytes: &[u8],
    parsed_index: Result<PersistedPausedIndex, String>,
    parsed_record: Result<PersistedPausedRecord, String>,
) -> (outcome: PersistenceResult<StoredPausedEntry>)
    ensures
        match outcome {
            Ok(StoredPausedEntry::Index(index)) => {
                &&& json::json_well_formed(bytes@)
                &&& json::json_has_field(bytes@, "indexVersion"@)
                &&& parsed_index == Ok::<PersistedPausedIndex, String>(index)
                &&& index.index_version == PAUSED_INDEX_VERSION
            },
            Ok(StoredPausedEntry::Legacy(record)) => {
                &&& json::json_well_formed(bytes@)
                &&& !json::json_has_field(bytes@, "indexVersion"@)
                &&& parsed_record == Ok::<PersistedPausedRecord, String>(record)
                &&& record.version == LEGACY_RECORD_VERSION
            },
            Err(error) => if !json::json_well_formed(bytes@) {
                error matches SandboxPersistenceError::InvalidRecord {
                    reason: RecordFault::UndecodableEntry,
                    source: Some(source),
                } && json::json_fault_text(bytes@) == Some(source@)
            } else if json::json_has_field(bytes@, "indexVersion"@) {
                match parsed_index {
                    Ok(index) => {
                        &&& index.index_version != PAUSED_INDEX_VERSION
                        &&& error.is_invalid(
                            RecordFault::UnsupportedIndexVersion { version: index.index_version },
                        )
                    },
                    Err(source) => error == (SandboxPersistenceError::InvalidRecord {
                        reason: RecordFault::UndecodableIndex,
                        source: Some(source),
                    }),
                }
            } else {
                match parsed_record {
                    Ok(record) => if supported_record_version(record.version) {
                        &&& record.version != LEGACY_RECORD_VERSION
                        &&& error.is_invalid(
                            RecordFault::RecordOutsideManifest { version: record.version },
                        )
                    } else {
                        error.is_invalid(
                            RecordFault::UnsupportedRecordVersion { version: record.version },
                        )
                    },
                    Err(source) => error == (SandboxPersistenceError::InvalidRecord {
                        reason: RecordFault::UndecodableRecord,
                        source: Some(source),
                    }),
                }
            },
        },
{
    if let Some(source) = json::json_fault(bytes) {
        return undecodable(RecordFault::UndecodableEntry, source);
    }
    if json::has_field(bytes, "indexVersion") {
        return match decode_paused_index(parsed_index) {
            Ok(index) => Ok(StoredPausedEntry::Index(index)),
            Err(error) => Err(error),
        };
    }
    let record = match decode_record(parsed_record) {
        Ok(record) => record,
        Err(error) => return Err(error),
    };
    if record.version != LEGACY_RECORD_VERSION {
        return Err(
            SandboxPersistenceError::invalid(
                RecordFault::RecordOutsideManifest { version: record.version },
            ),
        );
    }
    Ok(StoredPausedEntry::Legacy(record))
}

/// Whether a stored create record is of the current version and complete.
pub open spec fn acceptable_create_record(stored: PersistedCreateIdempotencyRecord) -> bool {
    &&& stored.version == CREATE_IDEMPOTENCY_RECORD_VERSION
    &&& stored.record.key@.len() > 0
    &&& stored.record.request_fingerprint@.len() > 0
}

pub fn decode_create_idempotency_record(
    parsed: Result<PersistedCreateIdempotencyRecord, String>,
) -> (outcome: PersistenceResult<CreateIdempotencyRecord>)
    ensures
        match parsed {
            Ok(stored) => match outcome {
                Ok(record) => acceptable_create_record(stored) && record == stored.record,
                Err(error) => {
                    &&& !acceptable_create_record(stored)
                    &&& if stored.version != CREATE_IDEMPOTENCY_RECORD_VERSION {
                        error.is_invalid(
                            RecordFault::UnsupportedCreateRecordVersion { version: stored.version },
                        )
                    } else {
                        error.is_invalid(RecordFault::EmptyCreateRecord)
                    }
                },
            },
            Err(source) => outcome matches Err(error) && error == (
            SandboxPersistenceError::InvalidRecord {
                reason: RecordFault::UndecodableCreateRecord,
                source: Some(source),
            }),
        },
{
    let stored = match parsed {
        Ok(stored) => stored,
        Err(source) => return undecodable(RecordFault::UndecodableCreateRecord, source),
    };
    if stored.version != CREATE_IDEMPOTENCY_RECORD_VERSION {
        return Err(
            SandboxPersistenceError::invalid(
                RecordFault::UnsupportedCreateRecordVersion { version: stored.version },
            ),
        );
    }
    if stored.record.key.as_str().is_empty()
        || stored.record.request_fingerprint.as_str().is_empty() {
        return Err(SandboxPersistenceError::invalid(RecordFault::EmptyCreateRecord));
    }
    Ok(stored.record)
}

/// The form in which a create record is stored.
pub fn encode_create_idempotency_record(record: CreateIdempotencyRecord) -> (stored:
    PersistedCreateIdempotencyRecord)
    ensures
        stored == (PersistedCreateIdempotencyRecord {
            version: CREATE_IDEMPOTENCY_RECORD_VERSION,
            record,
        }),
{
    PersistedCreateIdempotencyRecord { version: CREATE_IDEMPOTENCY_RECORD_VERSION, record }
}

/// The metadata of a record whose runtime state this node cannot use.
pub open spec fn metadata_without_runtime(metadata: SandboxMetadata) -> SandboxMetadata {
    SandboxMetadata { state: SandboxState::Paused, paused_state: None, ..metadata }
}

pub fn paused_metadata_without_runtime_state(record: PersistedPausedRecord) -> (metadata:
    SandboxMetadata)
    ensures
        metadata == metadata_without_runtime(record.metadata),
{
    let mut metadata = record.metadata;
    metadata.state = SandboxState::Paused;
    metadata.paused_state = None;
    metadata
}

/// The metadata of a record together with its decoded runtime state.
pub open spec fn metadata_with_runtime(
    metadata: SandboxMetadata,
    state: PausedStateRef,
) -> SandboxMetadata {
    SandboxMetadata { state: SandboxState::Paused, paused_state: Some(state), ..metadata }
}

/// What is wrong with a record whose runtime state was decoded like this.
pub open spec fn paused_state_error(
    version: u32,
    decoded: Result<PausedStateRef, String>,
) -> Option<SandboxPersistenceError> {
    if !supported_record_version(version) {
        Some(
            SandboxPersistenceError::InvalidRecord {
                reason: RecordFault::UnsupportedRecordVersion { version },
                source: None,
            },
        )
    } else {
        match decoded {
            Ok(_) => None,
            Err(source) => Some(
                SandboxPersistenceError::InvalidRecord {
                    reason: RecordFault::UndecodablePausedState,
                    source: Some(source),
                },
            ),
        }
    }
}

pub fn decode_paused_state(
    record: PersistedPausedRecord,
    decoded: Result<PausedStateRef, String>,
) -> (outcome: PersistenceResult<SandboxMetadata>)
    ensures
        match outcome {
            Ok(metadata) => {
                &&& metadata.same_settings(record.metadata)
                &&& paused_state_error(record.version, decoded) is None
                &&& decoded matches Ok(state)
                &&& metadata == metadata_with_runtime(record.metadata, state)
            },
            Err(error) => paused_state_error(record.version, decoded) == Some(error),
        },
{
    match ensure_supported_record_version(record.version) {
        Ok(_) => {},
        Err(error) => return Err(error),
    }
    match decoded {
        Ok(state) => {
            let mut metadata = record.metadata;
            metadata.state = SandboxState::Paused;
            metadata.paused_state = Some(state);
            Ok(metadata)
        },
        Err(source) => undecodable(RecordFault::UndecodablePausedState, source),
    }
}

/// Metadata that may be listed, but neither resumed nor removed.
pub open spec fn guarded(metadata: SandboxMetadata) -> SandboxMetadata {
    SandboxMetadata { paused_runtime_stopped: false, resume_recovery_pending: true, ..metadata }
}

pub fn decode_recovery_pending_state(
    record: PersistedPausedRecord,
    decoded: Result<PausedStateRef, String>,
) -> (outcome: PersistenceResult<SandboxMetadata>)
    ensures
        match outcome {
            Ok(metadata) => {
                &&& metadata.same_settings(record.metadata)
                &&& paused_state_error(record.version, decoded) is None
                &&& decoded matches Ok(state)
                &&& metadata == guarded(metadata_with_runtime(record.metadata, state))
            },
            Err(error) => paused_state_error(record.version, decoded) == Some(error),
        },
{
    let mut metadata = match decode_paused_state(record, decoded) {
        Ok(metadata) => metadata,
        Err(error) => return Err(error),
    };
    metadata.paused_runtime_stopped = false;
    metadata.resume_recovery_pending = true;
    Ok(metadata)
}

/// A record is recovery-pending in its prepared form and while it is marked.
pub proof fn prepared_and_marked_records_are_recovery_pending(record: RecordView)
    ensures
        record.prepared().recovery_pending(),
        !record.prepared().metadata.paused_runtime_stopped,
        record.marked().recovery_pending(),
        !record.marked().metadata.paused_runtime_stopped,
{
}

/// The two written forms of a record name the same sandbox and the same generation as the record.
pub proof fn written_forms_keep_identity(record: RecordView)
    ensures
        record.prepared().version == 2,
        record.prepared().commit_state is Prepared,
        record.prepared().lifecycle == record.lifecycle,
        record.prepared().resuming_boot_id == record.resuming_boot_id,
        record.prepared().unproven_stop_boot_id == record.unproven_stop_boot_id,
        record.prepared().checkpoint_at_unix_ms == record.checkpoint_at_unix_ms,
        record.prepared().artifact_spelling == record.artifact_spelling,
        record.prepared().metadata.same_settings(record.metadata),
        record.prepared().metadata.state == record.metadata.state,
        record.prepared().metadata.paused_state == record.metadata.paused_state,
        record.committed().version == 2,
        record.committed().commit_state is Committed,
        record.committed().resuming_boot_id == record.resuming_boot_id,
        record.committed().unproven_stop_boot_id == record.unproven_stop_boot_id,
        record.committed().checkpoint_at_unix_ms == record.checkpoint_at_unix_ms,
        record.committed().artifact_spelling == record.artifact_spelling,
        record.marked() == (RecordView { metadata: record.marked().metadata, ..record }),
        record.marked().metadata.same_settings(record.metadata),
        record.marked().metadata.state == record.metadata.state,
        record.marked().metadata.paused_state == record.metadata.paused_state,
        record.prepared().metadata.id == record.metadata.id,
        record.prepared().artifact_root == record.artifact_root,
        record.prepared().state == record.state,
        record.committed().metadata == record.metadata,
        record.committed().artifact_root == record.artifact_root,
        record.committed().state == record.state,
        record.committed().lifecycle == record.lifecycle,
{
}

/// Metadata that is brought back from a record is that of the record in every setting: the sandbox
/// is paused, with the runtime state that was decoded or with none.
pub proof fn loads_keep_every_setting(metadata: SandboxMetadata, state: PausedStateRef)
    ensures
        ({
            let usable = metadata_with_runtime(metadata, state);
            let unusable = metadata_without_runtime(metadata);
            &&& usable.same_settings(metadata)
            &&& unusable.same_settings(metadata)
            &&& guarded(usable).same_settings(metadata)
            &&& guarded(unusable).same_settings(metadata)
            &&& usable.state is Paused && unusable.state is Paused
            &&& usable.paused_state == Some(state)
            &&& unusable.paused_state is None
            &&& guarded(usable).state is Paused && guarded(usable).paused_state == Some(state)
            &&& guarded(unusable).state is Paused && guarded(unusable).paused_state is None
            &&& usable.paused_runtime_stopped == metadata.paused_runtime_stopped
            &&& usable.resume_recovery_pending == metadata.resume_recovery_pending
            &&& unusable.paused_runtime_stopped == metadata.paused_runtime_stopped
            &&& unusable.resume_recovery_pending == metadata.resume_recovery_pending
        }),
{
}

/// A record of the version that is written, or of the one before it, is usable exactly where its
/// state was decoded; one of any other version never is, and a failure to decode is told as it is.
pub proof fn decodable_states_are_used(version: u32, decoded: Result<PausedStateRef, String>)
    ensures
        paused_state_error(version, decoded) is None <==> (version == 1 || version == 2) && decoded is Ok,
        (version == 1 || version == 2) && decoded is Err ==> (paused_state_error(version, decoded)
            matches Some(SandboxPersistenceError::InvalidRecord { source, .. }) && source == Some(
            decoded->Err_0,
        )),
{
}

/// The record and the marker of a generation are files in it that are told apart by their names,
/// and another generation has other ones.
pub proof fn records_lie_in_their_generation(root: Seq<Part>, other: Seq<Part>)
    ensures
        manifest_parts(root) == root.push(Part::Name(text::text_bytes("paused-record.v2.json"@))),
        marker_parts(root) == root.push(
            Part::Name(text::text_bytes(".paused-record.v2.recovery-pending"@)),
        ),
        manifest_parts(root).drop_last() == root,
        marker_parts(root).drop_last() == root,
        manifest_parts(root) != marker_parts(root),
        manifest_parts(root) == manifest_parts(other) <==> root == other,
        marker_parts(root) == marker_parts(other) <==> root == other,
{
    assert(manifest_parts(root).drop_last() =~= root);
    assert(marker_parts(root).drop_last() =~= root);
    assert(manifest_parts(other).drop_last() =~= other);
    assert(marker_parts(other).drop_last() =~= other);
    reveal_strlit("paused-record.v2.json");
    reveal_strlit(".paused-record.v2.recovery-pending");
    assert("paused-record.v2.json"@.len() != ".paused-record.v2.recovery-pending"@.len());
    text::text_bytes_are_injective(
        "paused-record.v2.json"@,
        ".paused-record.v2.recovery-pending"@,
    );
    assert(manifest_parts(root).last() != marker_parts(root).last());
}

/// An index fits one manifest of one sandbox: another sandbox, another path, or bytes with another
/// digest do not go with it.
pub proof fn an_index_fits_one_manifest(left: ManifestEntry, right: ManifestEntry, index: PersistedPausedIndex)
    requires
        left.indexed_by(&index),
        right.indexed_by(&index),
    ensures
        left.record.metadata.id == right.record.metadata.id,
        left.path@ == right.path@,
        digest::sha256_of(left.bytes@) == digest::sha256_of(right.bytes@),
{
    digest::hex_text_is_injective(
        digest::sha256_of(left.bytes@),
        digest::sha256_of(right.bytes@),
    );
}

/// Records of the first two versions are read. A create record is of the first version, and names a
/// key and a fingerprint.
pub proof fn only_known_versions_are_read(version: u32, stored: PersistedCreateIdempotencyRecord)
    ensures
        supported_record_version(1),
        supported_record_version(2),
        version == 0 || version > 2 ==> !supported_record_version(version),
        stored.version != 1 ==> !acceptable_create_record(stored),
        stored.record.key@.len() == 0 ==> !acceptable_create_record(stored),
        stored.record.request_fingerprint@.len() == 0 ==> !acceptable_create_record(stored),
        stored.version == 1 && stored.record.key@.len() > 0
            && stored.record.request_fingerprint@.len() > 0 ==> acceptable_create_record(stored),
{
}

/// Metadata that is guarded awaits recovery and claims no stop, and is otherwise as it was.
pub proof fn guarded_sandboxes_await_recovery(metadata: SandboxMetadata)
    ensures
        guarded(metadata).resume_recovery_pending,
        !guarded(metadata).paused_runtime_stopped,
        guarded(metadata).state == metadata.state,
        guarded(metadata).paused_state == metadata.paused_state,
        guarded(metadata).same_settings(metadata),
{
}

} // verus!
