//! Which manifests and indexes are accepted, and what a scan of the artifacts finds.

use crate::ids::SandboxId;
use crate::json;
use crate::orchestrator::persistence::codecs::{
    decode_record, manifest_path, recovery_marker_path, ManifestEntry, PersistedPausedIndex,
    PersistedPausedRecord, PAUSED_INDEX_VERSION, PAUSED_MANIFEST_VERSION,
};
use crate::orchestrator::persistence::codecs;
use crate::orchestrator::persistence::error::{
    PersistenceResult, RecordFault, SandboxPersistenceError,
};
use crate::orchestrator::persistence::managed_paths;
use crate::orchestrator::persistence::managed_paths::PathObservation;
use crate::orchestrator::persistence::paused_transactions::PersistedPausedCommitState;
use crate::orchestrator::persistence::quarantine::{
    QuarantinePolicy, StoredPausedSandboxQuarantine,
};
use crate::orchestrator::persistence::quarantine;
use crate::paths::StorePath;
use crate::text;
use vstd::prelude::*;

verus! {

// ---------------------------------------------------------------------------------------------
// Reading one manifest
// ---------------------------------------------------------------------------------------------

/// Whether a parsed document is the record of the generation in which it was found.
pub open spec fn is_manifest_at(
    manifest: StorePath,
    bytes: Seq<u8>,
    record: PersistedPausedRecord,
) -> bool {
    &&& json::json_well_formed(bytes)
    &&& record.version == PAUSED_MANIFEST_VERSION
    &&& json::json_has_field(bytes, "commitState"@)
    &&& codecs::manifest_parts(record.artifact_root@) == manifest@
}

/// Accepts the document of a manifest: it is of the current version, names its commit state and
/// lies in the generation that it is about.
pub fn read_manifest(
    manifest: &StorePath,
    bytes: &Vec<u8>,
    parsed: Result<PersistedPausedRecord, String>,
) -> (outcome: PersistenceResult<PersistedPausedRecord>)
    ensures
        match outcome {
            Ok(record) => parsed == Ok::<PersistedPausedRecord, String>(record) && is_manifest_at(
                *manifest,
                bytes@,
                record,
            ),
            Err(error) => if !json::json_well_formed(bytes@) {
                error matches SandboxPersistenceError::InvalidRecord {
                    reason: RecordFault::UndecodableManifest,
                    source: Some(source),
                } && json::json_fault_text(bytes@) == Some(source@)
            } else {
                match parsed {
                    Err(source) => error == (SandboxPersistenceError::InvalidRecord {
                        reason: RecordFault::UndecodableRecord,
                        source: Some(source),
                    }),
                    Ok(record) => {
                        &&& !is_manifest_at(*manifest, bytes@, record)
                        &&& if !codecs::supported_record_version(record.version) {
                            error.is_invalid(
                                RecordFault::UnsupportedRecordVersion { version: record.version },
                            )
                        } else {
                            error matches SandboxPersistenceError::InvalidRecord {
                                reason,
                                source: None,
                            } && if record.version != PAUSED_MANIFEST_VERSION {
                                reason matches RecordFault::UnsupportedManifestVersion {
                                    manifest: shown,
                                    version,
                                } && shown@ == manifest.shown() && version == record.version
                            } else if !json::json_has_field(bytes@, "commitState"@) {
                                reason matches RecordFault::ManifestWithoutCommitState {
                                    manifest: shown,
                                } && shown@ == manifest.shown()
                            } else {
                                reason matches RecordFault::ManifestArtifactRoot {
                                    manifest: shown,
                                    artifact_root,
                                } && shown@ == manifest.shown() && artifact_root@
                                    == record.artifact_root.shown()
                            }
                        }
                    },
                }
            },
        },
{
    if let Some(source) = json::json_fault(bytes) {
        return codecs::undecodable(RecordFault::UndecodableManifest, source);
    }
    let record = match decode_record(parsed) {
        Ok(record) => record,
        Err(error) => return Err(error),
    };
    if record.version != PAUSED_MANIFEST_VERSION {
        return Err(
            SandboxPersistenceError::invalid(
                RecordFault::UnsupportedManifestVersion {
                    manifest: manifest.to_text(),
                    version: record.version,
                },
            ),
        );
    }
    if !json::has_field(bytes, "commitState") {
        return Err(
            SandboxPersistenceError::invalid(
                RecordFault::ManifestWithoutCommitState { manifest: manifest.to_text() },
            ),
        );
    }
    if !manifest_path(&record.artifact_root).same(manifest) {
        return Err(
            SandboxPersistenceError::invalid(
                RecordFault::ManifestArtifactRoot {
                    manifest: manifest.to_text(),
                    artifact_root: record.artifact_root.to_text(),
                },
            ),
        );
    }
    Ok(record)
}

/// Accepts the generation and the sandbox that an accepted document names.
pub fn check_manifest_identity(
    root: &StorePath,
    manifest: &StorePath,
    record: &PersistedPausedRecord,
    expected_sandbox_id: &Option<SandboxId>,
    observed: &PathObservation,
) -> (outcome: PersistenceResult<()>)
    ensures
        ({
            let managed = managed_paths::is_managed_generation(
                root@,
                record.metadata.id,
                record.artifact_root@,
                *observed,
            );
            let expected = *expected_sandbox_id matches Some(expected) ==> expected
                == record.metadata.id;
            match outcome {
                Ok(_) => managed && expected,
                Err(error) => error matches SandboxPersistenceError::InvalidRecord {
                    reason,
                    source: None,
                } && if !managed {
                    reason matches RecordFault::ManifestGeneration { manifest: shown } && shown@
                        == manifest.shown()
                } else {
                    &&& !expected
                    &&& reason matches RecordFault::ManifestSandbox {
                        manifest: shown,
                        found,
                        expected,
                    }
                    &&& shown@ == manifest.shown()
                    &&& found == record.metadata.id
                    &&& Some(expected) == *expected_sandbox_id
                },
            }
        }),
{
    if managed_paths::validated_generation_path(
        root,
        &record.metadata.id,
        &record.artifact_root,
        observed,
    ).is_none() {
        return Err(
            SandboxPersistenceError::invalid(
                RecordFault::ManifestGeneration { manifest: manifest.to_text() },
            ),
        );
    }
    if let Some(expected) = expected_sandbox_id {
        if record.metadata.id != *expected {
            return Err(
                SandboxPersistenceError::invalid(
                    RecordFault::ManifestSandbox {
                        manifest: manifest.to_text(),
                        found: record.metadata.id,
                        expected: *expected,
                    },
                ),
            );
        }
    }
    Ok(())
}

/// What was found where the recovery marker of a generation would be.
#[derive(Debug)]
pub enum MarkerProbe {
    Missing,
    Regular,
    Irregular,
    Unreadable { source: String },
}

/// Completes an accepted manifest. A marker makes its record unusable, whatever else it says.
pub fn attach_marker(
    manifest: &StorePath,
    bytes: Vec<u8>,
    record: PersistedPausedRecord,
    marker: MarkerProbe,
) -> (outcome: PersistenceResult<ManifestEntry>)
    ensures
        match marker {
            MarkerProbe::Missing => outcome matches Ok(entry) && entry.path@ == manifest@
                && entry.path.spelled() == manifest.spelled() && entry.bytes == bytes
                && entry.record@ == record@ && !entry.recovery_marker_present,
            MarkerProbe::Regular => outcome matches Ok(entry) && entry.path@ == manifest@
                && entry.path.spelled() == manifest.spelled() && entry.bytes == bytes
                && entry.record@ == record@.marked() && entry.recovery_marker_present,
            MarkerProbe::Irregular => outcome matches Err(error) && error matches SandboxPersistenceError::InvalidRecord {
                reason,
                source: None,
            } && reason matches RecordFault::MarkerNotRegular { marker: shown } && shown@
                == text::lossy_text(
                crate::paths::joined_spelling(
                    record.artifact_root.spelled(),
                    codecs::marker_name(),
                ),
            ),
            MarkerProbe::Unreadable { source } => outcome matches Err(error) && error matches SandboxPersistenceError::Io {
                operation,
                path,
                source: beneath,
            } && operation@ == "inspect paused sandbox recovery marker"@ && path@
                == codecs::marker_parts(record.artifact_root@) && beneath == source,
        },
{
    let marker_path = recovery_marker_path(&record.artifact_root);
    let mut record = record;
    let present = match marker {
        MarkerProbe::Missing => false,
        MarkerProbe::Regular => {
            record.metadata.resume_recovery_pending = true;
            record.metadata.paused_runtime_stopped = false;
            true
        },
        MarkerProbe::Irregular => {
            return Err(
                SandboxPersistenceError::invalid(
                    RecordFault::MarkerNotRegular { marker: marker_path.to_text() },
                ),
            );
        },
        MarkerProbe::Unreadable { source } => {
            return Err(
                SandboxPersistenceError::io(
                    "inspect paused sandbox recovery marker",
                    &marker_path,
                    source,
                ),
            );
        },
    };
    Ok(
        ManifestEntry {
            path: manifest.copy(),
            bytes,
            record,
            recovery_marker_present: present,
        },
    )
}

// ---------------------------------------------------------------------------------------------
// Resolving an index
// ---------------------------------------------------------------------------------------------

/// The bytes stored for a sandbox.
pub fn require_record(sandbox_id: SandboxId, found: Option<Vec<u8>>) -> (outcome: PersistenceResult<
    Vec<u8>,
>)
    ensures
        match outcome {
            Ok(bytes) => found == Some(bytes),
            Err(error) => found is None && error.is_invalid(
                RecordFault::RecordNotFound { sandbox_id },
            ),
        },
{
    match found {
        Some(bytes) => Ok(bytes),
        None => Err(SandboxPersistenceError::invalid(RecordFault::RecordNotFound { sandbox_id })),
    }
}

/// Accepts an index before its manifest is read.
pub fn check_index(
    root: &StorePath,
    expected_sandbox_id: SandboxId,
    index: &PersistedPausedIndex,
    observed: &PathObservation,
) -> (outcome: PersistenceResult<()>)
    ensures
        ({
            let managed = managed_paths::is_managed_artifact(
                root@,
                index.manifest_path@,
                *observed,
            );
            match outcome {
                Ok(_) => index.index_version == PAUSED_INDEX_VERSION && index.sandbox_id
                    == expected_sandbox_id && managed,
                Err(error) => if index.index_version != PAUSED_INDEX_VERSION {
                    error.is_invalid(
                        RecordFault::UnsupportedIndexVersion { version: index.index_version },
                    )
                } else if index.sandbox_id != expected_sandbox_id {
                    error.is_invalid(
                        RecordFault::IndexKeyMismatch {
                            expected: expected_sandbox_id,
                            found: index.sandbox_id,
                        },
                    )
                } else {
                    !managed && error.is_invalid(
                        RecordFault::IndexOutsideArtifacts { sandbox_id: expected_sandbox_id },
                    )
                },
            }
        }),
{
    if index.index_version != PAUSED_INDEX_VERSION {
        return Err(
            SandboxPersistenceError::invalid(
                RecordFault::UnsupportedIndexVersion { version: index.index_version },
            ),
        );
    }
    if index.sandbox_id != expected_sandbox_id {
        return Err(
            SandboxPersistenceError::invalid(
                RecordFault::IndexKeyMismatch {
                    expected: expected_sandbox_id,
                    found: index.sandbox_id,
                },
            ),
        );
    }
    if managed_paths::validated_artifact_path(root, &index.manifest_path, observed).is_none() {
        return Err(
            SandboxPersistenceError::invalid(
                RecordFault::IndexOutsideArtifacts { sandbox_id: expected_sandbox_id },
            ),
        );
    }
    Ok(())
}

/// The record that an accepted index leads to: the manifest has to be the one that was indexed,
/// byte for byte.
pub fn resolve_index(
    expected_sandbox_id: SandboxId,
    index: &PersistedPausedIndex,
    read: PersistenceResult<ManifestEntry>,
) -> (outcome: PersistenceResult<PersistedPausedRecord>)
    ensures
        match read {
            Ok(entry) => if entry.indexed_by(index) {
                outcome == Ok::<PersistedPausedRecord, SandboxPersistenceError>(entry.record)
            } else {
                outcome matches Err(error) && error.is_invalid(
                    RecordFault::IndexManifestMismatch { sandbox_id: expected_sandbox_id },
                )
            },
            Err(error) => outcome == Err::<PersistedPausedRecord, SandboxPersistenceError>(error),
        },
{
    match read {
        Ok(entry) => if entry.matches_index(index) {
            Ok(entry.record)
        } else {
            Err(
                SandboxPersistenceError::invalid(
                    RecordFault::IndexManifestMismatch { sandbox_id: expected_sandbox_id },
                ),
            )
        },
        Err(error) => Err(error),
    }
}

// ---------------------------------------------------------------------------------------------
// Scanning the artifacts
// ---------------------------------------------------------------------------------------------

/// Whether an accepted manifest may not be used without recovery.
pub open spec fn needs_recovery(entry: ManifestEntry) -> bool {
    entry.recovery_marker_present || entry.record@.recovery_pending()
}

pub fn manifest_needs_recovery(entry: &ManifestEntry) -> (answer: bool)
    ensures
        answer == needs_recovery(*entry),
{
    entry.recovery_marker_present || entry.record.commit_state != PersistedPausedCommitState::Committed
        || entry.record.metadata.resume_recovery_pending
}

/// What was found where the manifest of a directory would be. `target` is what may be purged when
/// it is unusable.
#[derive(Debug)]
pub enum ManifestReading {
    Absent,
    Irregular { manifest: StorePath, target: Option<StorePath> },
    Read {
        manifest: StorePath,
        target: Option<StorePath>,
        outcome: PersistenceResult<ManifestEntry>,
    },
}

/// A generation found in the directory of a sandbox. A directory comes with what was read in it.
#[derive(Debug)]
pub struct GenerationListing {
    pub path: StorePath,
    pub reading: Option<ManifestReading>,
}

/// An entry of the artifacts directory. The directory of a sandbox comes with what was read in it
/// and with its generations.
#[derive(Debug)]
pub enum SandboxListing {
    Stray { path: StorePath },
    Sandbox { reading: ManifestReading, generations: Vec<GenerationListing> },
}

/// The sandbox whose directory an entry of the artifacts directory is.
pub fn sandbox_directory(name: &[u8], is_directory: bool) -> (sandbox_id: Option<SandboxId>)
    ensures
        sandbox_id == if is_directory && vstd::utf8::valid_utf8(name@) {
            SandboxId::parsed(vstd::utf8::decode_utf8(name@))
        } else {
            None
        },
{
    if !is_directory {
        return None;
    }
    match text::utf8_text(name) {
        Ok(name) => SandboxId::parse_str(name.as_str()),
        Err(_) => None,
    }
}

/// One thing that a scan came upon.
#[derive(Debug)]
pub enum ScanFinding {
    /// A manifest that may be used.
    Usable { entry: ManifestEntry },
    /// A manifest that needs recovery.
    Pending { entry: ManifestEntry },
    Invalid { manifest: StorePath, target: Option<StorePath>, error: SandboxPersistenceError },
    Irregular { manifest: StorePath, target: Option<StorePath> },
    Stray { path: StorePath },
    Markerless { path: StorePath },
}

/// What a reading amounts to.
pub open spec fn reading_findings(reading: ManifestReading) -> Seq<ScanFinding> {
    match reading {
        ManifestReading::Absent => Seq::empty(),
        ManifestReading::Irregular { manifest, target } => seq![
            ScanFinding::Irregular { manifest, target },
        ],
        ManifestReading::Read { manifest, target, outcome } => match outcome {
            Ok(entry) => if needs_recovery(entry) {
                seq![ScanFinding::Pending { entry }]
            } else {
                seq![ScanFinding::Usable { entry }]
            },
            Err(error) => seq![ScanFinding::Invalid { manifest, target, error }],
        },
    }
}

/// What an entry of a sandbox directory amounts to: anything but a directory with a manifest is
/// kept as evidence, never removed.
pub open spec fn generation_findings(generation: GenerationListing) -> Seq<ScanFinding> {
    match generation.reading {
        Some(reading) => if reading is Absent {
            seq![ScanFinding::Markerless { path: generation.path }]
        } else {
            reading_findings(reading)
        },
        None => seq![ScanFinding::Markerless { path: generation.path }],
    }
}

/// What the first `count` generations amount to.
pub open spec fn generations_findings(generations: Seq<GenerationListing>, count: nat) -> Seq<
    ScanFinding,
>
    decreases count,
{
    if count == 0 {
        Seq::empty()
    } else {
        generations_findings(generations, (count - 1) as nat) + generation_findings(
            generations[count - 1],
        )
    }
}

/// What an entry of the artifacts directory amounts to. A misplaced manifest does not hide the
/// generations next to it.
pub open spec fn sandbox_findings(sandbox: SandboxListing) -> Seq<ScanFinding> {
    match sandbox {
        SandboxListing::Stray { path } => seq![ScanFinding::Stray { path }],
        SandboxListing::Sandbox { reading, generations } => reading_findings(reading)
            + generations_findings(generations@, generations@.len()),
    }
}

/// What the first `count` entries of the artifacts directory amount to.
pub open spec fn sandboxes_findings(sandboxes: Seq<SandboxListing>, count: nat) -> Seq<ScanFinding>
    decreases count,
{
    if count == 0 {
        Seq::empty()
    } else {
        sandboxes_findings(sandboxes, (count - 1) as nat) + sandbox_findings(sandboxes[count - 1])
    }
}

/// What a reading of one directory amounts to.
pub fn scan_manifest_directory(reading: ManifestReading, findings: &mut Vec<ScanFinding>) -> (found:
    bool)
    ensures
        final(findings)@ == old(findings)@ + reading_findings(reading),
        found == !(reading is Absent),
{
    let ghost before = findings@;
    match reading {
        ManifestReading::Absent => {
            assert(findings@ =~= before + reading_findings(reading));
            false
        },
        ManifestReading::Irregular { manifest, target } => {
            findings.push(ScanFinding::Irregular { manifest, target });
            assert(findings@ =~= before + reading_findings(reading));
            true
        },
        ManifestReading::Read { manifest, target, outcome } => {
            match outcome {
                Ok(entry) => {
                    if manifest_needs_recovery(&entry) {
                        findings.push(ScanFinding::Pending { entry });
                    } else {
                        findings.push(ScanFinding::Usable { entry });
                    }
                },
                Err(error) => {
                    findings.push(ScanFinding::Invalid { manifest, target, error });
                },
            }
            assert(findings@ =~= before + reading_findings(reading));
            true
        },
    }
}

fn scan_generation(generation: GenerationListing, findings: &mut Vec<ScanFinding>)
    ensures
        final(findings)@ == old(findings)@ + generation_findings(generation),
{
    let ghost before = findings@;
    let GenerationListing { path, reading } = generation;
    let found = match reading {
        Some(reading) => scan_manifest_directory(reading, findings),
        None => false,
    };
    if !found {
        assert(findings@ =~= before);
        findings.push(ScanFinding::Markerless { path });
    }
    assert(findings@ =~= before + generation_findings(generation));
}

fn scan_generations(generations: Vec<GenerationListing>, findings: &mut Vec<ScanFinding>)
    ensures
        final(findings)@ == old(findings)@ + generations_findings(
            generations@,
            generations@.len(),
        ),
{
    let ghost all = generations@;
    let ghost before = findings@;
    let mut rest = generations;
    let ghost mut done: nat = 0;
    assert(findings@ =~= before + generations_findings(all, 0));
    while rest.len() > 0
        invariant
            done <= all.len(),
            rest@ == all.skip(done as int),
            findings@ == before + generations_findings(all, done),
        decreases rest@.len(),
    {
        let generation = rest.remove(0);
        assert(generation == all[done as int]);
        scan_generation(generation, findings);
        proof {
            done = done + 1;
            assert(rest@ =~= all.skip(done as int));
            assert(before + generations_findings(all, done) =~= before + generations_findings(
                all,
                (done - 1) as nat,
            ) + generation_findings(all[done - 1]));
        }
    }
}

/// What a whole scan amounts to: the artifacts directory itself, then everything in it.
pub fn scan_manifests(top: ManifestReading, sandboxes: Vec<SandboxListing>) -> (findings: Vec<
    ScanFinding,
>)
    ensures
        findings@ == reading_findings(top) + sandboxes_findings(sandboxes@, sandboxes@.len()),
{
    let ghost all = sandboxes@;
    let mut findings: Vec<ScanFinding> = Vec::new();
    let _found = scan_manifest_directory(top, &mut findings);
    let ghost start = findings@;
    assert(start =~= reading_findings(top));
    let mut rest = sandboxes;
    let ghost mut done: nat = 0;
    assert(findings@ =~= start + sandboxes_findings(all, 0));
    while rest.len() > 0
        invariant
            done <= all.len(),
            rest@ == all.skip(done as int),
            findings@ == start + sandboxes_findings(all, done),
        decreases rest@.len(),
    {
        let sandbox = rest.remove(0);
        assert(sandbox == all[done as int]);
        let ghost before = findings@;
        match sandbox {
            SandboxListing::Stray { path } => {
                findings.push(ScanFinding::Stray { path });
                assert(findings@ =~= before + sandbox_findings(sandbox));
            },
            SandboxListing::Sandbox { reading, generations } => {
                let _found = scan_manifest_directory(reading, &mut findings);
                scan_generations(generations, &mut findings);
                assert(findings@ =~= before + sandbox_findings(sandbox));
            },
        }
        proof {
            done = done + 1;
            assert(rest@ =~= all.skip(done as int));
            assert(start + sandboxes_findings(all, done) =~= start + sandboxes_findings(
                all,
                (done - 1) as nat,
            ) + sandbox_findings(all[done - 1]));
        }
    }
    findings
}

/// Whether an entry is about a path without any record.
pub open spec fn is_entry_for(
    entry: StoredPausedSandboxQuarantine,
    reason: Seq<char>,
    artifact_root: Option<StorePath>,
    manifest: Option<StorePath>,
) -> bool {
    quarantine::describes(
        entry,
        reason,
        None,
        None,
        artifact_root,
        manifest,
        QuarantinePolicy::Manual,
    )
}

/// An entry about a path without any record.
pub(crate) fn entry_for(
    reason: String,
    artifact_root: &Option<StorePath>,
    manifest: &Option<StorePath>,
) -> (entry: StoredPausedSandboxQuarantine)
    ensures
        is_entry_for(entry, reason@, *artifact_root, *manifest),
{
    quarantine::describe(reason, &None, &None, artifact_root, manifest, QuarantinePolicy::Manual)
}

impl ScanFinding {
    /// The entry to store about a finding. Only a usable manifest needs none; one that needs
    /// recovery is taken down without blocking it further.
    pub fn to_quarantine(&self) -> (stored: Option<StoredPausedSandboxQuarantine>)
        ensures
            match *self {
                ScanFinding::Usable { .. } => stored is None,
                ScanFinding::Pending { entry } => {
                    &&& stored matches Some(stored)
                    &&& crate::orchestrator::persistence::publication::is_entry_about(
                        stored,
                        "durable paused sandbox manifest requires explicit host recovery"@,
                        entry.id(),
                        None,
                        entry.record.artifact_root,
                        true,
                        QuarantinePolicy::Nonblocking,
                    )
                },
                ScanFinding::Invalid { manifest, target, error } => stored matches Some(stored)
                    && is_entry_for(
                    stored,
                    "invalid paused sandbox manifest: "@ + error.shown(),
                    target,
                    Some(manifest),
                ),
                ScanFinding::Irregular { manifest, target } => stored matches Some(stored)
                    && is_entry_for(
                    stored,
                    "paused sandbox manifest path is not a regular file"@,
                    target,
                    Some(manifest),
                ),
                ScanFinding::Stray { path } => stored matches Some(stored) && is_entry_for(
                    stored,
                    "unreferenced or markerless paused sandbox artifact entry"@,
                    Some(path),
                    None,
                ),
                ScanFinding::Markerless { path } => stored matches Some(stored) && is_entry_for(
                    stored,
                    "markerless paused sandbox artifact generation"@,
                    Some(path),
                    None,
                ),
            },
    {
        match self {
            ScanFinding::Usable { .. } => None,
            ScanFinding::Pending { entry } => Some(
                crate::orchestrator::persistence::publication::entry_about(
                    "durable paused sandbox manifest requires explicit host recovery".to_owned(),
                    entry.sandbox_id(),
                    &None,
                    &entry.record.artifact_root,
                    true,
                    QuarantinePolicy::Nonblocking,
                ),
            ),
            ScanFinding::Invalid { manifest, target, error } => Some(
                entry_for(
                    text::concat2(
                        "invalid paused sandbox manifest: ",
                        error.to_text().as_str(),
                    ),
                    target,
                    &Some(manifest.copy()),
                ),
            ),
            ScanFinding::Irregular { manifest, target } => Some(
                entry_for(
                    "paused sandbox manifest path is not a regular file".to_owned(),
                    target,
                    &Some(manifest.copy()),
                ),
            ),
            ScanFinding::Stray { path } => Some(
                entry_for(
                    "unreferenced or markerless paused sandbox artifact entry".to_owned(),
                    &Some(path.copy()),
                    &None,
                ),
            ),
            ScanFinding::Markerless { path } => Some(
                entry_for(
                    "markerless paused sandbox artifact generation".to_owned(),
                    &Some(path.copy()),
                    &None,
                ),
            ),
        }
    }
}

/// The accepted manifests among the first `count` findings.
pub open spec fn accepted(findings: Seq<ScanFinding>, count: nat) -> Seq<ManifestEntry>
    decreases count,
{
    if count == 0 {
        Seq::empty()
    } else {
        let before = accepted(findings, (count - 1) as nat);
        match findings[count - 1] {
            ScanFinding::Usable { entry } => before.push(entry),
            ScanFinding::Pending { entry } => before.push(entry),
            _ => before,
        }
    }
}

/// How many of the first `count` findings are taken down in quarantine.
pub open spec fn quarantined(findings: Seq<ScanFinding>, count: nat) -> nat
    decreases count,
{
    if count == 0 {
        0
    } else {
        quarantined(findings, (count - 1) as nat) + if findings[count - 1] is Usable {
            0nat
        } else {
            1
        }
    }
}

/// The accepted manifests of a scan, and how many of its findings are taken down in quarantine.
pub fn scanned_manifests(findings: Vec<ScanFinding>) -> (scanned: (Vec<ManifestEntry>, usize))
    ensures
        scanned.0@ == accepted(findings@, findings@.len()),
        scanned.1 == quarantined(findings@, findings@.len()),
{
    let ghost all = findings@;
    let total: usize = findings.len();
    let mut manifests: Vec<ManifestEntry> = Vec::new();
    let mut count: usize = 0;
    let mut rest = findings;
    let mut done: usize = 0;
    while rest.len() > 0
        invariant
            done <= total == all.len(),
            rest@ == all.skip(done as int),
            manifests@ == accepted(all, done as nat),
            count <= done,
            count == quarantined(all, done as nat),
        decreases rest@.len(),
    {
        let finding = rest.remove(0);
        assert(finding == all[done as int]);
        match finding {
            ScanFinding::Usable { entry } => {
                manifests.push(entry);
            },
            ScanFinding::Pending { entry } => {
                count += 1;
                manifests.push(entry);
            },
            _ => {
                count += 1;
            },
        }
        done += 1;
        assert(rest@ =~= all.skip(done as int));
    }
    (manifests, count)
}

// ---------------------------------------------------------------------------------------------
// Laws
// ---------------------------------------------------------------------------------------------

/// Every entry of a sandbox directory leads to exactly one finding: nothing is passed over.
pub proof fn every_generation_is_accounted_for(generations: Seq<GenerationListing>, count: nat)
    requires
        count <= generations.len(),
    ensures
        generations_findings(generations, count).len() == count,
    decreases count,
{
    if count > 0 {
        every_generation_is_accounted_for(generations, (count - 1) as nat);
    }
}

/// A usable manifest of a scan is committed and carries no mark of an uncertain write.
pub proof fn usable_manifests_are_certain(reading: ManifestReading, entry: ManifestEntry)
    requires
        reading_findings(reading).contains(ScanFinding::Usable { entry }),
    ensures
        !needs_recovery(entry),
        entry.record.commit_state is Committed,
        !entry.record.metadata.resume_recovery_pending,
        !entry.recovery_marker_present,
{
}

/// A document is the record of a generation exactly where it is well formed, of the current version,
/// names its commit state, and lies where that generation keeps its record.
pub proof fn records_name_where_they_lie(
    manifest: StorePath,
    bytes: Seq<u8>,
    record: PersistedPausedRecord,
)
    ensures
        is_manifest_at(manifest, bytes, record) ==> {
            &&& json::json_well_formed(bytes)
            &&& record.version == 2
            &&& json::json_has_field(bytes, "commitState"@)
            &&& manifest@ == record.artifact_root@.push(
                crate::paths::Part::Name(text::text_bytes("paused-record.v2.json"@)),
            )
        },
        json::json_well_formed(bytes) && record.version == 2 && json::json_has_field(
            bytes,
            "commitState"@,
        ) && manifest@ == record.artifact_root@.push(
            crate::paths::Part::Name(text::text_bytes("paused-record.v2.json"@)),
        ) ==> is_manifest_at(manifest, bytes, record),
{
}

/// A manifest needs recovery where it is marked, where it is not in its final form, and where it says
/// so itself; and in no other case.
pub proof fn marked_and_prepared_manifests_need_recovery(entry: ManifestEntry)
    ensures
        entry.recovery_marker_present ==> needs_recovery(entry),
        entry.record.commit_state is Prepared ==> needs_recovery(entry),
        entry.record.metadata.resume_recovery_pending ==> needs_recovery(entry),
        !entry.recovery_marker_present && entry.record.commit_state is Committed
            && !entry.record.metadata.resume_recovery_pending ==> !needs_recovery(entry),
{
}

/// What is found where a manifest would be is told as it is: one that was accepted by whether it needs
/// recovery, one that was not with its error, and something else as irregular. Where nothing is found,
/// a generation is told as one without a marker, and the directory of a sandbox is not told.
pub proof fn findings_tell_what_was_read(
    manifest: StorePath,
    target: Option<StorePath>,
    entry: ManifestEntry,
    error: SandboxPersistenceError,
    path: StorePath,
)
    ensures
        reading_findings(ManifestReading::Absent).len() == 0,
        reading_findings(ManifestReading::Irregular { manifest, target }) == seq![
            ScanFinding::Irregular { manifest, target },
        ],
        reading_findings(ManifestReading::Read { manifest, target, outcome: Err(error) }) == seq![
            ScanFinding::Invalid { manifest, target, error },
        ],
        entry.recovery_marker_present || entry.record.commit_state is Prepared
            || entry.record.metadata.resume_recovery_pending ==> reading_findings(
            ManifestReading::Read { manifest, target, outcome: Ok(entry) },
        ) == seq![ScanFinding::Pending { entry }],
        !entry.recovery_marker_present && entry.record.commit_state is Committed
            && !entry.record.metadata.resume_recovery_pending ==> reading_findings(
            ManifestReading::Read { manifest, target, outcome: Ok(entry) },
        ) == seq![ScanFinding::Usable { entry }],
        generation_findings(GenerationListing { path, reading: None }) == seq![
            ScanFinding::Markerless { path },
        ],
        generation_findings(
            GenerationListing { path, reading: Some(ManifestReading::Absent) },
        ) == seq![ScanFinding::Markerless { path }],
        generation_findings(
            GenerationListing {
                path,
                reading: Some(ManifestReading::Irregular { manifest, target }),
            },
        ) == seq![ScanFinding::Irregular { manifest, target }],
        sandbox_findings(SandboxListing::Stray { path }) == seq![ScanFinding::Stray { path }],
{
}

/// The findings of a directory are those of its entries, one after the other; the record of a sandbox
/// directory itself comes before those of its generations.
pub proof fn findings_come_in_order(
    generations: Seq<GenerationListing>,
    sandboxes: Seq<SandboxListing>,
    listing: SandboxListing,
    count: nat,
)
    ensures
        generations_findings(generations, 0).len() == 0,
        generations_findings(generations, count + 1) == generations_findings(generations, count)
            + generation_findings(generations[count as int]),
        sandboxes_findings(sandboxes, 0).len() == 0,
        sandboxes_findings(sandboxes, count + 1) == sandboxes_findings(sandboxes, count)
            + sandbox_findings(sandboxes[count as int]),
        listing matches SandboxListing::Sandbox { reading, generations: inner } ==> {
            let all = sandbox_findings(listing);
            let own = reading_findings(reading);
            &&& own.is_prefix_of(all)
            &&& all.skip(own.len() as int) == generations_findings(inner@, inner@.len())
        },
{
    match listing {
        SandboxListing::Sandbox { reading, generations: inner } => {
            let all = sandbox_findings(listing);
            let own = reading_findings(reading);
            assert(all.subrange(0, own.len() as int) =~= own);
            assert(all.skip(own.len() as int) =~= generations_findings(inner@, inner@.len()));
        },
        _ => {},
    }
}

/// Every manifest that was accepted is gone on with, whether or not it needs recovery, and everything
/// but a usable one is taken down.
pub proof fn accepted_manifests_are_gone_on_with(
    findings: Seq<ScanFinding>,
    count: nat,
    entry: ManifestEntry,
)
    requires
        count < findings.len(),
    ensures
        accepted(findings, 0).len() == 0 && quarantined(findings, 0) == 0,
        findings[count as int] == (ScanFinding::Usable { entry }) ==> accepted(findings, count + 1)
            == accepted(findings, count).push(entry) && quarantined(findings, count + 1)
            == quarantined(findings, count),
        findings[count as int] == (ScanFinding::Pending { entry }) ==> accepted(findings, count + 1)
            == accepted(findings, count).push(entry) && quarantined(findings, count + 1)
            == quarantined(findings, count) + 1,
        !(findings[count as int] is Usable) && !(findings[count as int] is Pending) ==> accepted(
            findings,
            count + 1,
        ) == accepted(findings, count) && quarantined(findings, count + 1) == quarantined(
            findings,
            count,
        ) + 1,
{
}

} // verus!
