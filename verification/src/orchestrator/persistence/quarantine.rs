//! Records and artifacts that only an administrator may dispose of.

use crate::digest;
use crate::ids::SandboxId;
use crate::orchestrator::persistence::codecs::{
    ManifestEntry, PersistedPausedIndex, PersistedPausedRecord, QUARANTINE_VERSION,
};
use crate::orchestrator::persistence::error::{
    PersistenceResult, RecordFault, SandboxPersistenceError,
};
use crate::orchestrator::persistence::managed_paths;
use crate::orchestrator::persistence::managed_paths::{PathObservation, PurgeObservation};
use crate::orchestrator::types::copy_optional_text;
use crate::path_order;
use crate::paths::{Part, StorePath};
use crate::text;
use vstd::prelude::*;

verus! {

/// What a quarantine entry asks for.
#[derive(Clone, Copy, Debug, PartialEq, Eq, Structural)]
pub enum QuarantinePolicy {
    /// Nothing that the entry names is used before an administrator has decided.
    Manual,
    /// The same, for a write whose outcome is unknown.
    Uncertain,
    /// The entry is kept as evidence only.
    Nonblocking,
}

impl QuarantinePolicy {
    pub open spec fn is_manual(self) -> bool {
        !(self is Nonblocking)
    }

    pub open spec fn may_reconcile(self) -> bool {
        self is Uncertain
    }

    pub fn requires_manual_recovery(self) -> (answer: bool)
        ensures
            answer == self.is_manual(),
    {
        !matches!(self, QuarantinePolicy::Nonblocking)
    }

    pub fn reconcile_if_coherent(self) -> (answer: bool)
        ensures
            answer == self.may_reconcile(),
    {
        matches!(self, QuarantinePolicy::Uncertain)
    }
}

/// A quarantine entry as stored.
#[derive(Debug)]
pub struct StoredPausedSandboxQuarantine {
    pub version: u32,
    pub id: String,
    pub reason: String,
    pub requires_manual_recovery: bool,
    pub reconcile_if_coherent: bool,
    pub record_key: Option<String>,
    pub record_key_sha256: Option<String>,
    pub record_sha256: Option<String>,
    pub record_bytes_base64: Option<String>,
    pub artifact_root: Option<StorePath>,
    pub manifest_path: Option<StorePath>,
}

/// Whether an entry that does not say so asks for manual recovery.
pub fn default_true() -> (answer: bool)
    ensures
        answer,
{
    true
}

/// A quarantine entry as shown to an administrator.
#[derive(Debug)]
pub struct PausedSandboxQuarantine {
    pub id: String,
    pub reason: String,
    pub requires_manual_recovery: bool,
    pub record_key: Option<String>,
    pub artifact_root: Option<StorePath>,
    pub manifest_path: Option<StorePath>,
}

impl StoredPausedSandboxQuarantine {
    pub open spec fn shown_entry(self) -> PausedSandboxQuarantine {
        PausedSandboxQuarantine {
            id: self.id,
            reason: self.reason,
            requires_manual_recovery: self.requires_manual_recovery,
            record_key: self.record_key,
            artifact_root: self.artifact_root,
            manifest_path: self.manifest_path,
        }
    }

    pub fn into_shown(self) -> (shown: PausedSandboxQuarantine)
        ensures
            shown == self.shown_entry(),
    {
        PausedSandboxQuarantine {
            id: self.id,
            reason: self.reason,
            requires_manual_recovery: self.requires_manual_recovery,
            record_key: self.record_key,
            artifact_root: self.artifact_root,
            manifest_path: self.manifest_path,
        }
    }
}

// ---------------------------------------------------------------------------------------------
// Making an entry
// ---------------------------------------------------------------------------------------------

pub open spec fn optional_bytes(bytes: Option<Vec<u8>>) -> Option<Seq<u8>> {
    match bytes {
        Some(bytes) => Some(bytes@),
        None => None,
    }
}

pub open spec fn optional_spelling(path: Option<StorePath>) -> Option<Seq<u8>> {
    match path {
        Some(path) => Some(path.spelled()),
        None => None,
    }
}

/// A tag followed by what it announces, or nothing.
pub open spec fn tagged(tag: Seq<char>, value: Option<Seq<u8>>) -> Seq<u8> {
    match value {
        Some(value) => text::text_bytes(tag) + value,
        None => Seq::empty(),
    }
}

/// The bytes that the identifier of an entry is the digest of. The reason is among them only
/// where nothing else says what the entry is about.
pub open spec fn quarantine_preimage(
    record_key: Option<Seq<u8>>,
    artifact_root: Option<Seq<u8>>,
    manifest_path: Option<Seq<u8>>,
    reason: Seq<char>,
    policy: QuarantinePolicy,
) -> Seq<u8> {
    text::text_bytes(if policy.is_manual() { "manual:yes"@ } else { "manual:no"@ }) + text::text_bytes(
        if policy.may_reconcile() { "reconcile:yes"@ } else { "reconcile:no"@ },
    ) + tagged("record:"@, record_key) + tagged("artifact:"@, artifact_root) + tagged(
        "manifest:"@,
        manifest_path,
    ) + tagged(
        "reason:"@,
        if record_key is None && artifact_root is None && manifest_path is None {
            Some(text::text_bytes(reason))
        } else {
            None
        },
    )
}

/// The identifier of an entry.
pub open spec fn quarantine_id_text(
    record_key: Option<Seq<u8>>,
    artifact_root: Option<Seq<u8>>,
    manifest_path: Option<Seq<u8>>,
    reason: Seq<char>,
    policy: QuarantinePolicy,
) -> Seq<char> {
    "paused-"@ + digest::sha256_hex_of(
        quarantine_preimage(record_key, artifact_root, manifest_path, reason, policy),
    )
}

fn push_tagged(target: &mut Vec<u8>, tag: &str, value: &[u8])
    ensures
        final(target)@ == old(target)@ + (text::text_bytes(tag@) + value@),
{
    let ghost before = target@;
    text::push_bytes(target, tag.as_bytes());
    text::push_bytes(target, value);
    assert(target@ =~= before + (text::text_bytes(tag@) + value@));
}

pub fn quarantine_id(
    record_key: &Option<Vec<u8>>,
    artifact_root: &Option<StorePath>,
    manifest_path: &Option<StorePath>,
    reason: &str,
    policy: QuarantinePolicy,
) -> (id: String)
    ensures
        id@ == quarantine_id_text(
            optional_bytes(*record_key),
            optional_spelling(*artifact_root),
            optional_spelling(*manifest_path),
            reason@,
            policy,
        ),
{
    let mut preimage: Vec<u8> = Vec::new();
    let manual = if policy.requires_manual_recovery() {
        "manual:yes"
    } else {
        "manual:no"
    };
    let reconcile = if policy.reconcile_if_coherent() {
        "reconcile:yes"
    } else {
        "reconcile:no"
    };
    text::push_bytes(&mut preimage, manual.as_bytes());
    text::push_bytes(&mut preimage, reconcile.as_bytes());
    let ghost flags = preimage@;
    assert(flags =~= text::text_bytes(manual@) + text::text_bytes(reconcile@));
    if let Some(record_key) = record_key {
        push_tagged(&mut preimage, "record:", record_key);
    }
    let ghost with_key = preimage@;
    assert(with_key =~= flags + tagged("record:"@, optional_bytes(*record_key)));
    if let Some(artifact_root) = artifact_root {
        push_tagged(&mut preimage, "artifact:", artifact_root.spelling());
    }
    let ghost with_artifact = preimage@;
    assert(with_artifact =~= with_key + tagged("artifact:"@, optional_spelling(*artifact_root)));
    if let Some(manifest_path) = manifest_path {
        push_tagged(&mut preimage, "manifest:", manifest_path.spelling());
    }
    let ghost with_manifest = preimage@;
    assert(with_manifest =~= with_artifact + tagged("manifest:"@, optional_spelling(*manifest_path)));
    if record_key.is_none() && artifact_root.is_none() && manifest_path.is_none() {
        push_tagged(&mut preimage, "reason:", reason.as_bytes());
    }
    assert(preimage@ =~= quarantine_preimage(
        optional_bytes(*record_key),
        optional_spelling(*artifact_root),
        optional_spelling(*manifest_path),
        reason@,
        policy,
    ));
    text::concat2("paused-", digest::sha256_hex(&preimage).as_str())
}

/// The digest of what is there, where anything is.
pub open spec fn is_digest_of(digest: Option<String>, bytes: Option<Seq<u8>>) -> bool {
    match (digest, bytes) {
        (Some(digest), Some(bytes)) => digest@ == digest::sha256_hex_of(bytes),
        (None, None) => true,
        _ => false,
    }
}

/// The base64 text of what is there, where anything is.
pub open spec fn is_base64_of(encoded: Option<String>, bytes: Option<Seq<u8>>) -> bool {
    match (encoded, bytes) {
        (Some(encoded), Some(bytes)) => encoded@ == digest::base64_of(bytes),
        (None, None) => true,
        _ => false,
    }
}

fn optional_digest(bytes: &Option<Vec<u8>>) -> (digest: Option<String>)
    ensures
        is_digest_of(digest, optional_bytes(*bytes)),
{
    match bytes {
        Some(bytes) => Some(digest::sha256_hex(bytes)),
        None => None,
    }
}

fn optional_base64(bytes: &Option<Vec<u8>>) -> (encoded: Option<String>)
    ensures
        is_base64_of(encoded, optional_bytes(*bytes)),
{
    match bytes {
        Some(bytes) => Some(digest::base64_text(bytes)),
        None => None,
    }
}

/// A new quarantine entry.
pub fn quarantine_with_policy(
    reason: String,
    record_key: &Option<Vec<u8>>,
    record_bytes: &Option<Vec<u8>>,
    artifact_root: Option<StorePath>,
    manifest_path: Option<StorePath>,
    policy: QuarantinePolicy,
) -> (entry: StoredPausedSandboxQuarantine)
    ensures
        entry.version == QUARANTINE_VERSION,
        entry.id@ == quarantine_id_text(
            optional_bytes(*record_key),
            optional_spelling(artifact_root),
            optional_spelling(manifest_path),
            reason@,
            policy,
        ),
        entry.reason == reason,
        entry.requires_manual_recovery == policy.is_manual(),
        entry.reconcile_if_coherent == policy.may_reconcile(),
        match (entry.record_key, *record_key) {
            (Some(shown), Some(key)) => shown@ == text::lossy_text(key@),
            (None, None) => true,
            _ => false,
        },
        is_digest_of(entry.record_key_sha256, optional_bytes(*record_key)),
        is_digest_of(entry.record_sha256, optional_bytes(*record_bytes)),
        is_base64_of(entry.record_bytes_base64, optional_bytes(*record_bytes)),
        entry.artifact_root == artifact_root,
        entry.manifest_path == manifest_path,
{
    let id = quarantine_id(record_key, &artifact_root, &manifest_path, reason.as_str(), policy);
    StoredPausedSandboxQuarantine {
        version: QUARANTINE_VERSION,
        id,
        reason,
        requires_manual_recovery: policy.requires_manual_recovery(),
        reconcile_if_coherent: policy.reconcile_if_coherent(),
        record_key: match record_key {
            Some(key) => Some(text::utf8_lossy(key)),
            None => None,
        },
        record_key_sha256: optional_digest(record_key),
        record_sha256: optional_digest(record_bytes),
        record_bytes_base64: optional_base64(record_bytes),
        artifact_root,
        manifest_path,
    }
}

/// Whether two optional paths are spelled alike.
pub open spec fn same_path(left: Option<StorePath>, right: Option<StorePath>) -> bool {
    match (left, right) {
        (Some(left), Some(right)) => left@ == right@ && left.spelled() == right.spelled(),
        (None, None) => true,
        _ => false,
    }
}

/// Whether an entry says all of this, and nothing else.
pub open spec fn describes(
    entry: StoredPausedSandboxQuarantine,
    reason: Seq<char>,
    record_key: Option<Seq<u8>>,
    captured: Option<Seq<u8>>,
    artifact_root: Option<StorePath>,
    manifest_path: Option<StorePath>,
    policy: QuarantinePolicy,
) -> bool {
    &&& entry.version == QUARANTINE_VERSION
    &&& entry.id@ == quarantine_id_text(
        record_key,
        optional_spelling(artifact_root),
        optional_spelling(manifest_path),
        reason,
        policy,
    )
    &&& entry.reason@ == reason
    &&& entry.requires_manual_recovery == policy.is_manual()
    &&& entry.reconcile_if_coherent == policy.may_reconcile()
    &&& match (entry.record_key, record_key) {
        (Some(shown), Some(key)) => shown@ == text::lossy_text(key),
        (None, None) => true,
        _ => false,
    }
    &&& is_digest_of(entry.record_key_sha256, record_key)
    &&& is_digest_of(entry.record_sha256, captured)
    &&& is_base64_of(entry.record_bytes_base64, captured)
    &&& same_path(entry.artifact_root, artifact_root)
    &&& same_path(entry.manifest_path, manifest_path)
}

fn copy_optional_path(path: &Option<StorePath>) -> (copy: Option<StorePath>)
    ensures
        same_path(copy, *path),
{
    match path {
        Some(path) => Some(path.copy()),
        None => None,
    }
}

/// A new quarantine entry that leaves its paths to the caller.
pub(crate) fn describe(
    reason: String,
    record_key: &Option<Vec<u8>>,
    captured: &Option<Vec<u8>>,
    artifact_root: &Option<StorePath>,
    manifest_path: &Option<StorePath>,
    policy: QuarantinePolicy,
) -> (entry: StoredPausedSandboxQuarantine)
    ensures
        describes(
            entry,
            reason@,
            optional_bytes(*record_key),
            optional_bytes(*captured),
            *artifact_root,
            *manifest_path,
            policy,
        ),
{
    quarantine_with_policy(
        reason,
        record_key,
        captured,
        copy_optional_path(artifact_root),
        copy_optional_path(manifest_path),
        policy,
    )
}

impl StoredPausedSandboxQuarantine {
    pub fn copy(&self) -> (copy: StoredPausedSandboxQuarantine)
        ensures
            copy == (StoredPausedSandboxQuarantine {
                artifact_root: copy.artifact_root,
                manifest_path: copy.manifest_path,
                ..*self
            }),
            same_path(copy.artifact_root, self.artifact_root),
            same_path(copy.manifest_path, self.manifest_path),
    {
        StoredPausedSandboxQuarantine {
            version: self.version,
            id: self.id.clone(),
            reason: self.reason.clone(),
            requires_manual_recovery: self.requires_manual_recovery,
            reconcile_if_coherent: self.reconcile_if_coherent,
            record_key: copy_optional_text(&self.record_key),
            record_key_sha256: copy_optional_text(&self.record_key_sha256),
            record_sha256: copy_optional_text(&self.record_sha256),
            record_bytes_base64: copy_optional_text(&self.record_bytes_base64),
            artifact_root: copy_optional_path(&self.artifact_root),
            manifest_path: copy_optional_path(&self.manifest_path),
        }
    }

    /// Whether an entry stored earlier under the same identifier has to be looked at: it may hold
    /// the bytes of a record that this one does not.
    pub fn needs_existing(&self) -> (answer: bool)
        ensures
            answer == (self.record_sha256 is None),
    {
        self.record_sha256.is_none()
    }

    /// Takes over the record that an earlier entry under the same identifier captured.
    pub fn adopt_existing(
        &mut self,
        existing: Option<Result<StoredPausedSandboxQuarantine, String>>,
    ) -> (outcome: PersistenceResult<()>)
        ensures
            match existing {
                None => outcome is Ok && *final(self) == *old(self),
                Some(Err(source)) => {
                    &&& *final(self) == *old(self)
                    &&& outcome matches Err(error)
                    &&& error == (SandboxPersistenceError::InvalidRecord {
                        reason: RecordFault::UndecodableExistingQuarantine,
                        source: Some(source),
                    })
                },
                Some(Ok(existing)) => if existing.version == QUARANTINE_VERSION {
                    &&& outcome is Ok
                    &&& *final(self) == (StoredPausedSandboxQuarantine {
                        record_sha256: existing.record_sha256,
                        record_bytes_base64: existing.record_bytes_base64,
                        ..*old(self)
                    })
                } else {
                    &&& *final(self) == *old(self)
                    &&& outcome matches Err(error)
                    &&& error.is_invalid(
                        RecordFault::UnsupportedExistingQuarantineVersion {
                            version: existing.version,
                        },
                    )
                },
            },
    {
        match existing {
            None => Ok(()),
            Some(Err(source)) => Err(
                SandboxPersistenceError::InvalidRecord {
                    reason: RecordFault::UndecodableExistingQuarantine,
                    source: Some(source),
                },
            ),
            Some(Ok(existing)) => {
                if existing.version != QUARANTINE_VERSION {
                    return Err(
                        SandboxPersistenceError::invalid(
                            RecordFault::UnsupportedExistingQuarantineVersion {
                                version: existing.version,
                            },
                        ),
                    );
                }
                self.record_sha256 = existing.record_sha256;
                self.record_bytes_base64 = existing.record_bytes_base64;
                Ok(())
            },
        }
    }

    /// The key whose current record has to be captured, where none has been.
    pub fn needs_current(&self) -> (key: Option<String>)
        ensures
            key == if self.record_sha256 is None {
                self.record_key
            } else {
                None
            },
    {
        if self.record_sha256.is_none() {
            copy_optional_text(&self.record_key)
        } else {
            None
        }
    }

    /// Captures the current record. One that cannot be read does not keep the entry from being
    /// stored.
    pub fn capture_current(&mut self, current: &Option<Vec<u8>>)
        ensures
            match *current {
                Some(current) => {
                    &&& final(self).record_sha256 matches Some(digest)
                    &&& digest@ == digest::sha256_hex_of(current@)
                    &&& final(self).record_bytes_base64 matches Some(encoded)
                    &&& encoded@ == digest::base64_of(current@)
                    &&& *final(self) == (StoredPausedSandboxQuarantine {
                        record_sha256: final(self).record_sha256,
                        record_bytes_base64: final(self).record_bytes_base64,
                        ..*old(self)
                    })
                },
                None => *final(self) == *old(self),
            },
    {
        if let Some(current) = current {
            self.record_sha256 = Some(digest::sha256_hex(current));
            self.record_bytes_base64 = Some(digest::base64_text(current));
        }
    }
}

/// Accepts a parsed entry of the current version.
pub fn decode_quarantine(parsed: Result<StoredPausedSandboxQuarantine, String>) -> (outcome:
    PersistenceResult<StoredPausedSandboxQuarantine>)
    ensures
        match parsed {
            Ok(entry) => if entry.version == QUARANTINE_VERSION {
                outcome == Ok::<StoredPausedSandboxQuarantine, SandboxPersistenceError>(entry)
            } else {
                outcome matches Err(error) && error.is_invalid(
                    RecordFault::UnsupportedQuarantineVersion { version: entry.version },
                )
            },
            Err(source) => outcome matches Err(error) && error == (
            SandboxPersistenceError::InvalidRecord {
                reason: RecordFault::UndecodableQuarantine,
                source: Some(source),
            }),
        },
{
    match parsed {
        Ok(entry) => if entry.version == QUARANTINE_VERSION {
            Ok(entry)
        } else {
            Err(
                SandboxPersistenceError::invalid(
                    RecordFault::UnsupportedQuarantineVersion { version: entry.version },
                ),
            )
        },
        Err(source) => Err(
            SandboxPersistenceError::InvalidRecord {
                reason: RecordFault::UndecodableQuarantine,
                source: Some(source),
            },
        ),
    }
}

// ---------------------------------------------------------------------------------------------
// What is blocked
// ---------------------------------------------------------------------------------------------

/// The sandbox that an entry is about, where its record key names one.
pub open spec fn entry_sandbox(entry: StoredPausedSandboxQuarantine) -> Option<SandboxId> {
    match entry.record_key {
        Some(key) => SandboxId::parsed(key@),
        None => None,
    }
}

fn sandbox_of_entry(entry: &StoredPausedSandboxQuarantine) -> (sandbox_id: Option<SandboxId>)
    ensures
        sandbox_id == entry_sandbox(*entry),
{
    match &entry.record_key {
        Some(key) => SandboxId::parse_str(key.as_str()),
        None => None,
    }
}

/// What may not be used before an administrator has decided.
#[derive(Debug)]
pub struct PausedRecoveryBlocks {
    pub sandbox_ids: Vec<SandboxId>,
    pub artifact_roots: Vec<StorePath>,
    pub manifest_paths: Vec<StorePath>,
}

pub open spec fn holds_path(paths: Seq<StorePath>, path: Seq<Part>) -> bool {
    exists|k: int| 0 <= k < paths.len() && (#[trigger] paths[k])@ == path
}

fn has_path(paths: &Vec<StorePath>, path: &StorePath) -> (answer: bool)
    ensures
        answer == holds_path(paths@, path@),
{
    let mut at: usize = 0;
    while at < paths.len()
        invariant
            at <= paths@.len(),
            forall|k: int| 0 <= k < at ==> (#[trigger] paths@[k])@ != path@,
        decreases paths@.len() - at,
    {
        if paths[at].same(path) {
            return true;
        }
        at += 1;
    }
    false
}

pub(crate) fn has_id(ids: &Vec<SandboxId>, id: &SandboxId) -> (answer: bool)
    ensures
        answer == ids@.contains(*id),
{
    let mut at: usize = 0;
    while at < ids.len()
        invariant
            at <= ids@.len(),
            forall|k: int| 0 <= k < at ==> ids@[k] != *id,
        decreases ids@.len() - at,
    {
        if ids[at] == *id {
            return true;
        }
        at += 1;
    }
    false
}

impl PausedRecoveryBlocks {
    /// Blocks nothing.
    pub fn none() -> (blocks: PausedRecoveryBlocks)
        ensures
            blocks.sandbox_ids@.len() == 0,
            blocks.artifact_roots@.len() == 0,
            blocks.manifest_paths@.len() == 0,
    {
        PausedRecoveryBlocks {
            sandbox_ids: Vec::new(),
            artifact_roots: Vec::new(),
            manifest_paths: Vec::new(),
        }
    }

    /// Whether nothing is blocked.
    pub open spec fn is_none(&self) -> bool {
        &&& self.sandbox_ids@.len() == 0
        &&& self.artifact_roots@.len() == 0
        &&& self.manifest_paths@.len() == 0
    }

    pub open spec fn blocks_manifest(&self, entry: &ManifestEntry) -> bool {
        ||| self.sandbox_ids@.contains(entry.id())
        ||| holds_path(self.artifact_roots@, entry.record.artifact_root@)
        ||| holds_path(self.manifest_paths@, entry.path@)
    }

    pub fn contains_manifest(&self, entry: &ManifestEntry) -> (answer: bool)
        ensures
            answer == self.blocks_manifest(entry),
    {
        has_id(&self.sandbox_ids, &entry.sandbox_id()) || has_path(
            &self.artifact_roots,
            &entry.record.artifact_root,
        ) || has_path(&self.manifest_paths, &entry.path)
    }

    pub fn contains_sandbox(&self, sandbox_id: &SandboxId) -> (answer: bool)
        ensures
            answer == self.sandbox_ids@.contains(*sandbox_id),
    {
        has_id(&self.sandbox_ids, sandbox_id)
    }

    pub fn contains_record(&self, sandbox_id: &SandboxId, artifact_root: &StorePath) -> (answer: bool)
        ensures
            answer == (self.sandbox_ids@.contains(*sandbox_id) || holds_path(
                self.artifact_roots@,
                artifact_root@,
            )),
    {
        self.contains_sandbox(sandbox_id) || has_path(&self.artifact_roots, artifact_root)
    }
}

/// Whether an entry blocks a sandbox.
pub open spec fn sandbox_is_blocked(
    entries: Seq<StoredPausedSandboxQuarantine>,
    sandbox_id: SandboxId,
) -> bool {
    exists|k: int|
        0 <= k < entries.len() && (#[trigger] entries[k]).requires_manual_recovery && entry_sandbox(
            entries[k],
        ) == Some(sandbox_id)
}

/// Whether an entry blocks a generation.
pub open spec fn artifact_is_blocked(
    entries: Seq<StoredPausedSandboxQuarantine>,
    path: Seq<Part>,
) -> bool {
    exists|k: int|
        0 <= k < entries.len() && (#[trigger] entries[k]).requires_manual_recovery
            && entries[k].artifact_root is Some && entries[k].artifact_root->0@ == path
}

/// Whether an entry blocks a manifest.
pub open spec fn manifest_is_blocked(
    entries: Seq<StoredPausedSandboxQuarantine>,
    path: Seq<Part>,
) -> bool {
    exists|k: int|
        0 <= k < entries.len() && (#[trigger] entries[k]).requires_manual_recovery
            && entries[k].manifest_path is Some && entries[k].manifest_path->0@ == path
}

fn push_copy(paths: &mut Vec<StorePath>, path: &StorePath)
    ensures
        forall|other: Seq<Part>| #[trigger]
            holds_path(final(paths)@, other) <==> holds_path(old(paths)@, other) || path@ == other,
{
    let ghost before = paths@;
    paths.push(path.copy());
    assert forall|other: Seq<Part>| #[trigger]
        holds_path(paths@, other) <==> holds_path(before, other) || path@ == other by {
        if holds_path(before, other) {
            let k = choose|k: int| 0 <= k < before.len() && (#[trigger] before[k])@ == other;
            assert(paths@[k]@ == other);
        }
        if path@ == other {
            assert(paths@[before.len() as int]@ == other);
        }
        if holds_path(paths@, other) && path@ != other {
            let k = choose|k: int| 0 <= k < paths@.len() && (#[trigger] paths@[k])@ == other;
            assert(before[k]@ == other);
        }
    }
}

/// Whether exactly what the entries say awaits an administrator is blocked.
pub open spec fn are_recovery_blocks(
    blocks: PausedRecoveryBlocks,
    entries: Seq<StoredPausedSandboxQuarantine>,
) -> bool {
    &&& forall|id: SandboxId| #[trigger]
        blocks.sandbox_ids@.contains(id) <==> sandbox_is_blocked(entries, id)
    &&& forall|path: Seq<Part>| #[trigger]
        holds_path(blocks.artifact_roots@, path) <==> artifact_is_blocked(entries, path)
    &&& forall|path: Seq<Part>| #[trigger]
        holds_path(blocks.manifest_paths@, path) <==> manifest_is_blocked(entries, path)
}

/// What the entries that ask for manual recovery block.
pub fn recovery_blocks(entries: &Vec<StoredPausedSandboxQuarantine>) -> (blocks: PausedRecoveryBlocks)
    ensures
        are_recovery_blocks(blocks, entries@),
{
    let mut blocks = PausedRecoveryBlocks::none();
    let mut at: usize = 0;
    while at < entries.len()
        invariant
            at <= entries@.len(),
            forall|id: SandboxId| #[trigger]
                blocks.sandbox_ids@.contains(id) <==> sandbox_is_blocked(
                    entries@.take(at as int),
                    id,
                ),
            forall|path: Seq<Part>| #[trigger]
                holds_path(blocks.artifact_roots@, path) <==> artifact_is_blocked(
                    entries@.take(at as int),
                    path,
                ),
            forall|path: Seq<Part>| #[trigger]
                holds_path(blocks.manifest_paths@, path) <==> manifest_is_blocked(
                    entries@.take(at as int),
                    path,
                ),
        decreases entries@.len() - at,
    {
        let entry = &entries[at];
        let ghost done = entries@.take(at as int);
        let ghost next = entries@.take(at + 1);
        let ghost before = blocks;
        if entry.requires_manual_recovery {
            if let Some(sandbox_id) = sandbox_of_entry(entry) {
                blocks.sandbox_ids.push(sandbox_id);
            }
            if let Some(artifact_root) = &entry.artifact_root {
                push_copy(&mut blocks.artifact_roots, artifact_root);
            }
            if let Some(manifest_path) = &entry.manifest_path {
                push_copy(&mut blocks.manifest_paths, manifest_path);
            }
        }
        proof {
            assert(next =~= done.push(*entry));
            assert forall|id: SandboxId| #[trigger]
                blocks.sandbox_ids@.contains(id) <==> sandbox_is_blocked(next, id) by {
                let added = entry.requires_manual_recovery && entry_sandbox(*entry) == Some(id);
                assert(blocks.sandbox_ids@.contains(id) <==> before.sandbox_ids@.contains(id) || added) by {
                    if before.sandbox_ids@.contains(id) {
                        let k = choose|k: int|
                            0 <= k < before.sandbox_ids@.len() && before.sandbox_ids@[k] == id;
                        assert(blocks.sandbox_ids@[k] == id);
                    }
                    if added {
                        assert(blocks.sandbox_ids@[before.sandbox_ids@.len() as int] == id);
                    }
                    if blocks.sandbox_ids@.contains(id) && !added {
                        let k = choose|k: int|
                            0 <= k < blocks.sandbox_ids@.len() && blocks.sandbox_ids@[k] == id;
                        assert(before.sandbox_ids@[k] == id);
                    }
                }
                extend_blocked(done, *entry, id);
            }
            assert forall|path: Seq<Part>| #[trigger]
                holds_path(blocks.artifact_roots@, path) <==> artifact_is_blocked(next, path) by {
                extend_blocked_paths(done, *entry, path);
            }
            assert forall|path: Seq<Part>| #[trigger]
                holds_path(blocks.manifest_paths@, path) <==> manifest_is_blocked(next, path) by {
                extend_blocked_paths(done, *entry, path);
            }
        }
        at += 1;
    }
    assert(entries@.take(at as int) =~= entries@);
    blocks
}

proof fn extend_blocked(
    entries: Seq<StoredPausedSandboxQuarantine>,
    entry: StoredPausedSandboxQuarantine,
    id: SandboxId,
)
    ensures
        sandbox_is_blocked(entries.push(entry), id) <==> sandbox_is_blocked(entries, id) || (
        entry.requires_manual_recovery && entry_sandbox(entry) == Some(id)),
{
    let next = entries.push(entry);
    assert(next[entries.len() as int] == entry);
    if sandbox_is_blocked(entries, id) {
        let k = choose|k: int|
            0 <= k < entries.len() && (#[trigger] entries[k]).requires_manual_recovery
                && entry_sandbox(entries[k]) == Some(id);
        assert(next[k] == entries[k]);
    }
    if sandbox_is_blocked(next, id) {
        let k = choose|k: int|
            0 <= k < next.len() && (#[trigger] next[k]).requires_manual_recovery && entry_sandbox(
                next[k],
            ) == Some(id);
        if k < entries.len() {
            assert(entries[k] == next[k]);
        }
    }
}

proof fn extend_blocked_paths(
    entries: Seq<StoredPausedSandboxQuarantine>,
    entry: StoredPausedSandboxQuarantine,
    path: Seq<Part>,
)
    ensures
        artifact_is_blocked(entries.push(entry), path) <==> artifact_is_blocked(entries, path) || (
        entry.requires_manual_recovery && entry.artifact_root is Some && entry.artifact_root->0@
            == path),
        manifest_is_blocked(entries.push(entry), path) <==> manifest_is_blocked(entries, path) || (
        entry.requires_manual_recovery && entry.manifest_path is Some && entry.manifest_path->0@
            == path),
{
    let next = entries.push(entry);
    assert(next[entries.len() as int] == entry);
    assert forall|k: int| 0 <= k < entries.len() implies next[k] == entries[k] by {}
    if artifact_is_blocked(entries, path) {
        let k = choose|k: int|
            0 <= k < entries.len() && (#[trigger] entries[k]).requires_manual_recovery
                && entries[k].artifact_root is Some && entries[k].artifact_root->0@ == path;
        assert(next[k] == entries[k]);
    }
    if manifest_is_blocked(entries, path) {
        let k = choose|k: int|
            0 <= k < entries.len() && (#[trigger] entries[k]).requires_manual_recovery
                && entries[k].manifest_path is Some && entries[k].manifest_path->0@ == path;
        assert(next[k] == entries[k]);
    }
    if artifact_is_blocked(next, path) {
        let k = choose|k: int|
            0 <= k < next.len() && (#[trigger] next[k]).requires_manual_recovery
                && next[k].artifact_root is Some && next[k].artifact_root->0@ == path;
        if k < entries.len() {
            assert(entries[k] == next[k]);
        }
    }
    if manifest_is_blocked(next, path) {
        let k = choose|k: int|
            0 <= k < next.len() && (#[trigger] next[k]).requires_manual_recovery
                && next[k].manifest_path is Some && next[k].manifest_path->0@ == path;
        if k < entries.len() {
            assert(entries[k] == next[k]);
        }
    }
}

// ---------------------------------------------------------------------------------------------
// Listing
// ---------------------------------------------------------------------------------------------

/// Whether one entry comes strictly before another in a listing.
pub open spec fn listed_before(left: PausedSandboxQuarantine, right: PausedSandboxQuarantine) -> bool {
    path_order::bytes_before(text::text_bytes(left.id@), text::text_bytes(right.id@))
}

/// Whether a listing is ordered by identifier.
pub open spec fn is_listing(entries: Seq<PausedSandboxQuarantine>) -> bool {
    forall|i: int, j: int|
        0 <= i < j < entries.len() ==> !listed_before(#[trigger] entries[j], #[trigger] entries[i])
}

fn is_listed_before(left: &PausedSandboxQuarantine, right: &PausedSandboxQuarantine) -> (answer: bool)
    ensures
        answer == listed_before(*left, *right),
{
    path_order::is_bytes_before(
        &text::copy_bytes(left.id.as_str().as_bytes()),
        &text::copy_bytes(right.id.as_str().as_bytes()),
    )
}

/// Where an entry goes in a listing: behind all that do not come after it.
pub open spec fn place_in(listing: Seq<PausedSandboxQuarantine>, entry: PausedSandboxQuarantine) -> int
    decreases listing.len(),
{
    if listing.len() > 0 && listed_before(entry, listing.last()) {
        place_in(listing.drop_last(), entry)
    } else {
        listing.len() as int
    }
}

/// Entries as an administrator is shown them: by identifier, and those with the same one in order.
pub open spec fn listed(entries: Seq<StoredPausedSandboxQuarantine>) -> Seq<PausedSandboxQuarantine>
    decreases entries.len(),
{
    if entries.len() == 0 {
        Seq::empty()
    } else {
        let before = listed(entries.drop_last());
        let entry = entries.last().shown_entry();
        before.insert(place_in(before, entry), entry)
    }
}

/// All entries, ordered by identifier; entries with the same identifier keep their order.
pub fn list_quarantines(entries: Vec<StoredPausedSandboxQuarantine>) -> (listing: Vec<
    PausedSandboxQuarantine,
>)
    ensures
        listing@ == listed(entries@),
        is_listing(listing@),
        listing@.to_multiset() == entries@.map_values(
            |entry: StoredPausedSandboxQuarantine| entry.shown_entry(),
        ).to_multiset(),
{
    let ghost shown = entries@.map_values(
        |entry: StoredPausedSandboxQuarantine| entry.shown_entry(),
    );
    let ghost all = entries@;
    let ghost mut done: int = 0;
    let mut listing: Vec<PausedSandboxQuarantine> = Vec::new();
    let mut rest = entries;
    assert(all.take(0) =~= Seq::<StoredPausedSandboxQuarantine>::empty());
    assert(listing@.to_multiset().add(shown.to_multiset()) =~= shown.to_multiset()) by {
        broadcast use vstd::seq_lib::group_to_multiset_ensures;
        assert(listing@.to_multiset() =~= vstd::multiset::Multiset::empty());
    }
    while rest.len() > 0
        invariant
            0 <= done <= all.len(),
            rest@ == all.skip(done),
            listing@ == listed(all.take(done)),
            is_listing(listing@),
            listing@.to_multiset().add(
                rest@.map_values(
                    |entry: StoredPausedSandboxQuarantine| entry.shown_entry(),
                ).to_multiset(),
            ) == shown.to_multiset(),
        decreases rest@.len(),
    {
        let ghost before = rest@;
        let entry = rest.remove(0).into_shown();
        proof {
            let all = before.map_values(
                |entry: StoredPausedSandboxQuarantine| entry.shown_entry(),
            );
            let tail = rest@.map_values(
                |entry: StoredPausedSandboxQuarantine| entry.shown_entry(),
            );
            assert(all =~= tail.insert(0, entry));
            vstd::seq_lib::to_multiset_insert(tail, 0, entry);
        }
        proof {
            assert(before[0] == all[done]);
            assert(all.take(done + 1).drop_last() =~= all.take(done));
            assert(all.take(done + 1).last() == all[done]);
            assert(rest@ =~= all.skip(done + 1));
            done = done + 1;
        }
        insert_listed(&mut listing, entry);
    }
    assert(all.take(done) =~= all);
    assert(rest@.map_values(|entry: StoredPausedSandboxQuarantine| entry.shown_entry()).to_multiset()
        =~= vstd::multiset::Multiset::empty()) by {
        broadcast use vstd::seq_lib::group_to_multiset_ensures;
        assert(rest@.map_values(|entry: StoredPausedSandboxQuarantine| entry.shown_entry()) =~= Seq::empty());
    }
    assert(listing@.to_multiset() =~= shown.to_multiset());
    listing
}

fn insert_listed(listing: &mut Vec<PausedSandboxQuarantine>, entry: PausedSandboxQuarantine)
    requires
        is_listing(old(listing)@),
    ensures
        is_listing(final(listing)@),
        final(listing)@ == old(listing)@.insert(place_in(old(listing)@, entry), entry),
        final(listing)@.to_multiset() == old(listing)@.to_multiset().insert(entry),
{
    let ghost before = listing@;
    let mut place: usize = listing.len();
    assert(before.take(place as int) =~= before);
    while place > 0 && is_listed_before(&entry, &listing[place - 1])
        invariant
            place <= listing@.len(),
            listing@ == before,
            place_in(before, entry) == place_in(before.take(place as int), entry),
            forall|k: int| place <= k < before.len() ==> listed_before(entry, #[trigger] before[k]),
        decreases place,
    {
        assert(before.take(place as int).drop_last() =~= before.take(place - 1));
        place -= 1;
    }
    assert(place > 0 ==> before.take(place as int).last() == before[place - 1]);
    listing.insert(place, entry);
    proof {
        vstd::seq_lib::to_multiset_insert(before, place as int, entry);
        an_insertion_keeps_the_order(before, entry, place as int);
    }
}

/// An entry that goes behind one that does not come after it, and before only such as do, leaves a
/// listing in order.
proof fn an_insertion_keeps_the_order(
    before: Seq<PausedSandboxQuarantine>,
    entry: PausedSandboxQuarantine,
    place: int,
)
    requires
        is_listing(before),
        0 <= place <= before.len(),
        place > 0 ==> !listed_before(entry, before[place - 1]),
        forall|k: int| place <= k < before.len() ==> listed_before(entry, #[trigger] before[k]),
    ensures
        is_listing(before.insert(place, entry)),
{
    let after = before.insert(place, entry);
    assert forall|i: int, j: int| 0 <= i < j < after.len() implies !listed_before(
        #[trigger] after[j],
        #[trigger] after[i],
    ) by {
        if i == place {
            assert(after[j] == before[j - 1]);
            path_order::bytes_order_is_total(
                text::text_bytes(entry.id@),
                text::text_bytes(before[j - 1].id@),
            );
        } else if j == place {
            assert(after[i] == before[i]);
            if i < place - 1 {
                nothing_comes_before_the_last(before, entry, place - 1, i);
            }
        } else {
            let left = if i < place {
                i
            } else {
                i - 1
            };
            let right = if j < place {
                j
            } else {
                j - 1
            };
            assert(after[i] == before[left] && after[j] == before[right]);
        }
    }
}

/// An entry that does not come before one of a listing does not come before those ahead of it.
proof fn nothing_comes_before_the_last(
    listing: Seq<PausedSandboxQuarantine>,
    entry: PausedSandboxQuarantine,
    last: int,
    ahead: int,
)
    requires
        is_listing(listing),
        0 <= ahead < last < listing.len(),
        !listed_before(entry, listing[last]),
    ensures
        !listed_before(entry, listing[ahead]),
{
    let wanted = text::text_bytes(entry.id@);
    let behind = text::text_bytes(listing[last].id@);
    let before = text::text_bytes(listing[ahead].id@);
    assert(!listed_before(listing[last], listing[ahead]));
    path_order::bytes_order_is_total(behind, before);
    if listed_before(entry, listing[ahead]) && behind != before {
        path_order::bytes_order_is_transitive(wanted, before, behind);
    }
}

// ---------------------------------------------------------------------------------------------
// Purging
// ---------------------------------------------------------------------------------------------

/// The entry that an administrator wants to purge, given what is stored under its identifier.
pub open spec fn entry_for_purge(
    quarantine_id: String,
    found: Option<Result<StoredPausedSandboxQuarantine, String>>,
) -> PersistenceResult<StoredPausedSandboxQuarantine> {
    match found {
        None => Err(
            SandboxPersistenceError::InvalidRecord {
                reason: RecordFault::QuarantineNotFound { quarantine_id },
                source: None,
            },
        ),
        Some(Err(source)) => Err(
            SandboxPersistenceError::InvalidRecord {
                reason: RecordFault::UndecodableQuarantine,
                source: Some(source),
            },
        ),
        Some(Ok(entry)) => if entry.version == QUARANTINE_VERSION {
            Ok(entry)
        } else {
            Err(
                SandboxPersistenceError::InvalidRecord {
                    reason: RecordFault::UnsupportedQuarantineVersion { version: entry.version },
                    source: None,
                },
            )
        },
    }
}

/// The entry that an administrator wants to purge.
pub fn load_quarantine_for_purge(
    quarantine_id: &String,
    found: Option<Result<StoredPausedSandboxQuarantine, String>>,
) -> (outcome: PersistenceResult<StoredPausedSandboxQuarantine>)
    ensures
        outcome == entry_for_purge(*quarantine_id, found),
{
    match found {
        None => Err(
            SandboxPersistenceError::invalid(
                RecordFault::QuarantineNotFound { quarantine_id: quarantine_id.clone() },
            ),
        ),
        Some(parsed) => decode_quarantine(parsed),
    }
}

/// Whether the record now stored under the key of an entry is another one than the entry captured.
pub open spec fn was_replaced(
    entry: StoredPausedSandboxQuarantine,
    current: Option<Seq<u8>>,
) -> bool {
    match (current, entry.record_sha256) {
        (Some(current), Some(expected)) => digest::sha256_hex_of(current) != expected@,
        _ => false,
    }
}

/// Whether it has to be found out if the current record supersedes an entry.
pub fn needs_supersession_check(
    entry: &StoredPausedSandboxQuarantine,
    current: &Option<Vec<u8>>,
) -> (answer: bool)
    ensures
        answer == was_replaced(*entry, optional_bytes(*current)),
{
    match (current, &entry.record_sha256) {
        (Some(current), Some(expected)) => digest::sha256_hex(current) != *expected,
        _ => false,
    }
}

/// Whether an index may supersede an entry: the entry blocks nothing, and the index is for the
/// same sandbox and the same manifest.
pub open spec fn index_may_supersede(
    entry: StoredPausedSandboxQuarantine,
    index: PersistedPausedIndex,
) -> bool {
    &&& !entry.requires_manual_recovery
    &&& entry_sandbox(entry) == Some(index.sandbox_id)
    &&& entry.manifest_path matches Some(path) ==> path@ == index.manifest_path@
}

/// The index that has to be resolved to find out whether it supersedes an entry.
pub fn superseding_index(
    entry: &StoredPausedSandboxQuarantine,
    index: PersistenceResult<PersistedPausedIndex>,
) -> (candidate: Option<PersistedPausedIndex>)
    ensures
        match candidate {
            Some(candidate) => index == Ok::<PersistedPausedIndex, SandboxPersistenceError>(candidate)
                && index_may_supersede(*entry, candidate),
            None => index matches Ok(index) ==> !index_may_supersede(*entry, index),
        },
{
    if entry.requires_manual_recovery {
        return None;
    }
    let sandbox_id = match sandbox_of_entry(entry) {
        Some(sandbox_id) => sandbox_id,
        None => return None,
    };
    let index = match index {
        Ok(index) => index,
        Err(_) => return None,
    };
    if index.sandbox_id != sandbox_id {
        return None;
    }
    if let Some(path) = &entry.manifest_path {
        if !path.same(&index.manifest_path) {
            return None;
        }
    }
    Some(index)
}

/// Whether the record that such an index resolves to supersedes the entry.
pub open spec fn supersedes(
    entry: StoredPausedSandboxQuarantine,
    resolved: PersistenceResult<PersistedPausedRecord>,
) -> bool {
    match resolved {
        Ok(record) => entry.artifact_root matches Some(path) ==> path@ == record.artifact_root@,
        Err(_) => false,
    }
}

pub fn nonblocking_quarantine_was_superseded(
    entry: &StoredPausedSandboxQuarantine,
    resolved: &PersistenceResult<PersistedPausedRecord>,
) -> (answer: bool)
    ensures
        answer == supersedes(*entry, *resolved),
{
    match resolved {
        Ok(record) => match &entry.artifact_root {
            Some(path) => path.same(&record.artifact_root),
            None => true,
        },
        Err(_) => false,
    }
}

/// How far a purge goes.
#[derive(Debug)]
pub enum QuarantinePurgeAction {
    /// Only the entry itself is dropped.
    QuarantineOnly,
    /// The artifacts go too, and the record where it is still the captured one.
    PurgeState { record_key: Option<String> },
}

/// How far the purge of an entry goes, given the record that is stored under its key now; none where
/// that record is another one than the captured one and does not supersede the entry.
pub open spec fn purge_action(
    entry: StoredPausedSandboxQuarantine,
    current: Option<Seq<u8>>,
    superseded: bool,
) -> Option<QuarantinePurgeAction> {
    match (entry.record_key, current, entry.record_sha256) {
        (None, _, _) | (_, None, _) => Some(QuarantinePurgeAction::PurgeState { record_key: None }),
        (Some(key), Some(current), Some(expected)) => if expected@ == digest::sha256_hex_of(current) {
            Some(QuarantinePurgeAction::PurgeState { record_key: Some(key) })
        } else if superseded {
            Some(QuarantinePurgeAction::QuarantineOnly)
        } else {
            None
        },
        (Some(_), Some(_), None) => None,
    }
}

/// The refusal to purge an entry whose record is another one now.
pub open spec fn newer_state(quarantine_id: String) -> SandboxPersistenceError {
    SandboxPersistenceError::InvalidRecord {
        reason: RecordFault::PurgeOfNewerState { quarantine_id },
        source: None,
    }
}

/// Decides how far a purge goes. A record that differs from the captured one is never removed.
pub fn quarantine_purge_action(
    quarantine_id: &String,
    entry: &StoredPausedSandboxQuarantine,
    current: &Option<Vec<u8>>,
    superseded: bool,
) -> (outcome: PersistenceResult<QuarantinePurgeAction>)
    ensures
        outcome == match purge_action(*entry, optional_bytes(*current), superseded) {
            Some(action) => Ok::<QuarantinePurgeAction, SandboxPersistenceError>(action),
            None => Err(newer_state(*quarantine_id)),
        },
{
    let record_key = match &entry.record_key {
        Some(record_key) => record_key,
        None => return Ok(QuarantinePurgeAction::PurgeState { record_key: None }),
    };
    if needs_supersession_check(entry, current) && superseded {
        return Ok(QuarantinePurgeAction::QuarantineOnly);
    }
    match (current, &entry.record_sha256) {
        (Some(current), Some(expected)) => if digest::sha256_hex(current) == *expected {
            Ok(QuarantinePurgeAction::PurgeState { record_key: Some(record_key.clone()) })
        } else {
            Err(
                SandboxPersistenceError::invalid(
                    RecordFault::PurgeOfNewerState { quarantine_id: quarantine_id.clone() },
                ),
            )
        },
        (Some(_), None) => Err(
            SandboxPersistenceError::invalid(
                RecordFault::PurgeOfNewerState { quarantine_id: quarantine_id.clone() },
            ),
        ),
        (None, _) => Ok(QuarantinePurgeAction::PurgeState { record_key: None }),
    }
}

/// What the filesystem says about the artifacts of an entry.
#[derive(Debug)]
pub struct PurgePathObservation {
    pub managed: PathObservation,
    pub purgeable: PurgeObservation,
}

/// Where the artifacts of an entry really are, if they may be removed: an entry for a sandbox may
/// name one of its generations or its directory, any other entry only a purgeable path.
pub open spec fn purge_path(
    root: Seq<Part>,
    entry: StoredPausedSandboxQuarantine,
    path: Seq<Part>,
    observed: PurgePathObservation,
) -> Option<Seq<Part>> {
    match entry_sandbox(entry) {
        Some(sandbox_id) => if managed_paths::is_managed_generation(
            root,
            sandbox_id,
            path,
            observed.managed,
        ) || managed_paths::is_managed_sandbox_root(root, sandbox_id, path, observed.managed) {
            Some(observed.managed.canonical_path->0@)
        } else {
            None
        },
        None => managed_paths::purge_location(root, path, observed.purgeable),
    }
}

/// The refusal to purge artifacts that are not those of the entry.
pub open spec fn outside_artifacts(
    quarantine_id: String,
    entry: StoredPausedSandboxQuarantine,
) -> SandboxPersistenceError {
    SandboxPersistenceError::InvalidRecord {
        reason: match entry_sandbox(entry) {
            Some(sandbox_id) => RecordFault::PurgeOutsideSandbox { quarantine_id, sandbox_id },
            None => RecordFault::PurgeOutsideArtifacts { quarantine_id },
        },
        source: None,
    }
}

pub fn quarantine_artifact_path_for_purge(
    root: &StorePath,
    quarantine_id: &String,
    entry: &StoredPausedSandboxQuarantine,
    path: &StorePath,
    observed: &PurgePathObservation,
) -> (outcome: PersistenceResult<StorePath>)
    ensures
        match outcome {
            Ok(canonical) => purge_path(root@, *entry, path@, *observed) == Some(canonical@),
            Err(error) => purge_path(root@, *entry, path@, *observed) is None && error
                == outside_artifacts(*quarantine_id, *entry),
        },
{
    match sandbox_of_entry(entry) {
        Some(sandbox_id) => {
            if let Some(canonical) = managed_paths::validated_generation_path(
                root,
                &sandbox_id,
                path,
                &observed.managed,
            ) {
                return Ok(canonical);
            }
            match managed_paths::validated_sandbox_root_path(
                root,
                &sandbox_id,
                path,
                &observed.managed,
            ) {
                Some(canonical) => Ok(canonical),
                None => Err(
                    SandboxPersistenceError::invalid(
                        RecordFault::PurgeOutsideSandbox {
                            quarantine_id: quarantine_id.clone(),
                            sandbox_id,
                        },
                    ),
                ),
            }
        },
        None => match managed_paths::validated_purgeable_artifact_path(
            root,
            path,
            &observed.purgeable,
        ) {
            Some(canonical) => Ok(canonical),
            None => Err(
                SandboxPersistenceError::invalid(
                    RecordFault::PurgeOutsideArtifacts { quarantine_id: quarantine_id.clone() },
                ),
            ),
        },
    }
}

/// The next thing that a purge does.
#[allow(inconsistent_fields)]
#[derive(Debug)]
pub enum PurgeStep {
    /// Read the entry.
    Load,
    /// Read the record that is stored under the key of the entry now.
    ReadRecord { entry: StoredPausedSandboxQuarantine, record_key: String },
    /// Resolve the index that is stored there instead of the captured record.
    Resolve {
        entry: StoredPausedSandboxQuarantine,
        current: Vec<u8>,
        index: PersistedPausedIndex,
    },
    /// Find out what the path of the artifacts is.
    Inspect {
        entry: StoredPausedSandboxQuarantine,
        path: StorePath,
        record_key: Option<String>,
    },
    RemoveArtifacts { path: StorePath, record_key: Option<String> },
    DeleteRecord { record_key: String },
    DeleteQuarantine,
    Finished,
    Failed { error: SandboxPersistenceError },
}

/// A record in the store, with what it is as an index.
#[derive(Debug)]
pub struct CurrentRecord {
    pub bytes: Vec<u8>,
    pub index: PersistenceResult<PersistedPausedIndex>,
}

/// What came of a step of a purge.
#[derive(Debug)]
pub enum PurgeEvent {
    Loaded { found: Option<Result<StoredPausedSandboxQuarantine, String>> },
    RecordRead { current: Option<CurrentRecord> },
    Resolved { resolved: PersistenceResult<PersistedPausedRecord> },
    Inspected { observed: PurgePathObservation },
    Done,
    Failed { error: SandboxPersistenceError },
}

/// The first thing that a purge removes: artifacts go before the record, and the record before the
/// entry, so that the entry outlives everything that it accounts for.
pub open spec fn first_removal(action: QuarantinePurgeAction, artifacts: Option<StorePath>) -> PurgeStep {
    match action {
        QuarantinePurgeAction::QuarantineOnly => PurgeStep::DeleteQuarantine,
        QuarantinePurgeAction::PurgeState { record_key } => match artifacts {
            Some(path) => PurgeStep::RemoveArtifacts { path, record_key },
            None => match record_key {
                Some(record_key) => PurgeStep::DeleteRecord { record_key },
                None => PurgeStep::DeleteQuarantine,
            },
        },
    }
}

/// Starts to remove what a purge takes.
pub fn purge_quarantine(action: QuarantinePurgeAction, artifacts: Option<StorePath>) -> (step:
    PurgeStep)
    ensures
        step == first_removal(action, artifacts),
{
    match action {
        QuarantinePurgeAction::QuarantineOnly => PurgeStep::DeleteQuarantine,
        QuarantinePurgeAction::PurgeState { record_key } => match artifacts {
            Some(path) => PurgeStep::RemoveArtifacts { path, record_key },
            None => match record_key {
                Some(record_key) => PurgeStep::DeleteRecord { record_key },
                None => PurgeStep::DeleteQuarantine,
            },
        },
    }
}

/// What follows on a removal that succeeded.
pub open spec fn after_purge_step(step: PurgeStep) -> PurgeStep {
    match step {
        PurgeStep::RemoveArtifacts { record_key: Some(record_key), .. } => PurgeStep::DeleteRecord {
            record_key,
        },
        PurgeStep::RemoveArtifacts { record_key: None, .. } => PurgeStep::DeleteQuarantine,
        PurgeStep::DeleteRecord { .. } => PurgeStep::DeleteQuarantine,
        PurgeStep::DeleteQuarantine => PurgeStep::Finished,
        other => other,
    }
}

pub fn next_purge_step(step: PurgeStep) -> (next: PurgeStep)
    ensures
        next == after_purge_step(step),
{
    match step {
        PurgeStep::RemoveArtifacts { record_key, .. } => match record_key {
            Some(record_key) => PurgeStep::DeleteRecord { record_key },
            None => PurgeStep::DeleteQuarantine,
        },
        PurgeStep::DeleteRecord { .. } => PurgeStep::DeleteQuarantine,
        PurgeStep::DeleteQuarantine => PurgeStep::Finished,
        other => other,
    }
}

/// The index that is stored under the key of an entry instead of the captured record, where it may
/// supersede the entry.
pub open spec fn replacing_index(
    entry: StoredPausedSandboxQuarantine,
    current: CurrentRecord,
) -> Option<PersistedPausedIndex> {
    match current.index {
        Ok(index) => if was_replaced(entry, Some(current.bytes@)) && index_may_supersede(entry, index) {
            Some(index)
        } else {
            None
        },
        Err(_) => None,
    }
}

impl PurgeStep {
    /// Whether this is how a purge goes on once it is known which record is stored now.
    pub open spec fn acts(
        self,
        quarantine_id: String,
        entry: StoredPausedSandboxQuarantine,
        current: Option<Seq<u8>>,
        superseded: bool,
    ) -> bool {
        match purge_action(entry, current, superseded) {
            None => self == (PurgeStep::Failed { error: newer_state(quarantine_id) }),
            Some(QuarantinePurgeAction::QuarantineOnly) => self == PurgeStep::DeleteQuarantine,
            Some(QuarantinePurgeAction::PurgeState { record_key }) => match entry.artifact_root {
                Some(artifacts) => {
                    &&& self matches PurgeStep::Inspect { entry: inspected, path, record_key: key }
                    &&& inspected == entry
                    &&& path.spelled() == artifacts.spelled()
                    &&& path@ == artifacts@
                    &&& key == record_key
                },
                None => self == first_removal(
                    QuarantinePurgeAction::PurgeState { record_key },
                    None,
                ),
            },
        }
    }

    /// Whether an event leads from a step to this one. A step that fails ends the purge with its
    /// error, and what does not answer a step changes nothing.
    pub open spec fn follows(
        self,
        before: PurgeStep,
        root: Seq<Part>,
        quarantine_id: String,
        event: PurgeEvent,
    ) -> bool {
        match (before, event) {
            (PurgeStep::Finished | PurgeStep::Failed { .. }, _) => self == before,
            (_, PurgeEvent::Failed { error }) => self == (PurgeStep::Failed { error }),
            (PurgeStep::Load, PurgeEvent::Loaded { found }) => {
                match entry_for_purge(quarantine_id, found) {
                    Err(error) => self == (PurgeStep::Failed { error }),
                    Ok(entry) => match entry.record_key {
                        Some(record_key) => self == (PurgeStep::ReadRecord { entry, record_key }),
                        None => self.acts(quarantine_id, entry, None, false),
                    },
                }
            },
            (PurgeStep::ReadRecord { entry, .. }, PurgeEvent::RecordRead { current }) => {
                match current {
                    None => self.acts(quarantine_id, entry, None, false),
                    Some(current) => match replacing_index(entry, current) {
                        Some(index) => self == (PurgeStep::Resolve {
                            entry,
                            current: current.bytes,
                            index,
                        }),
                        None => self.acts(quarantine_id, entry, Some(current.bytes@), false),
                    },
                }
            },
            (PurgeStep::Resolve { entry, current, .. }, PurgeEvent::Resolved { resolved }) => {
                self.acts(quarantine_id, entry, Some(current@), supersedes(entry, resolved))
            },
            (PurgeStep::Inspect { entry, path, record_key }, PurgeEvent::Inspected { observed }) => {
                match purge_path(root, entry, path@, observed) {
                    Some(canonical) => {
                        &&& self matches PurgeStep::RemoveArtifacts { path: found, record_key: key }
                        &&& found@ == canonical
                        &&& key == record_key
                    },
                    None => self == (PurgeStep::Failed {
                        error: outside_artifacts(quarantine_id, entry),
                    }),
                }
            },
            (
                PurgeStep::RemoveArtifacts { .. }
                | PurgeStep::DeleteRecord { .. }
                | PurgeStep::DeleteQuarantine,
                PurgeEvent::Done,
            ) => self == after_purge_step(before),
            _ => self == before,
        }
    }

    fn act(
        quarantine_id: &String,
        entry: StoredPausedSandboxQuarantine,
        current: &Option<Vec<u8>>,
        superseded: bool,
    ) -> (next: PurgeStep)
        ensures
            next.acts(*quarantine_id, entry, optional_bytes(*current), superseded),
    {
        match quarantine_purge_action(quarantine_id, &entry, current, superseded) {
            Err(error) => PurgeStep::Failed { error },
            Ok(action) => match action {
                QuarantinePurgeAction::QuarantineOnly => PurgeStep::DeleteQuarantine,
                QuarantinePurgeAction::PurgeState { record_key } => {
                    let path = match &entry.artifact_root {
                        Some(path) => path.copy(),
                        None => {
                            return purge_quarantine(
                                QuarantinePurgeAction::PurgeState { record_key },
                                None,
                            );
                        },
                    };
                    PurgeStep::Inspect { entry, path, record_key }
                },
            },
        }
    }

    /// Goes on with what came of a step.
    pub fn next(self, root: &StorePath, quarantine_id: &String, event: PurgeEvent) -> (next:
        PurgeStep)
        ensures
            next.follows(self, root@, *quarantine_id, event),
    {
        match (self, event) {
            (PurgeStep::Finished, _) => PurgeStep::Finished,
            (PurgeStep::Failed { error }, _) => PurgeStep::Failed { error },
            (_, PurgeEvent::Failed { error }) => PurgeStep::Failed { error },
            (PurgeStep::Load, PurgeEvent::Loaded { found }) => {
                match load_quarantine_for_purge(quarantine_id, found) {
                    Err(error) => PurgeStep::Failed { error },
                    Ok(entry) => {
                        let record_key = match &entry.record_key {
                            Some(record_key) => record_key.clone(),
                            None => return PurgeStep::act(quarantine_id, entry, &None, false),
                        };
                        PurgeStep::ReadRecord { entry, record_key }
                    },
                }
            },
            (PurgeStep::ReadRecord { entry, .. }, PurgeEvent::RecordRead { current }) => {
                match current {
                    None => PurgeStep::act(quarantine_id, entry, &None, false),
                    Some(CurrentRecord { bytes, index }) => {
                        let current = Some(bytes);
                        let candidate = if needs_supersession_check(&entry, &current) {
                            superseding_index(&entry, index)
                        } else {
                            None
                        };
                        match (candidate, current) {
                            (Some(index), Some(current)) => PurgeStep::Resolve {
                                entry,
                                current,
                                index,
                            },
                            (_, current) => PurgeStep::act(quarantine_id, entry, &current, false),
                        }
                    },
                }
            },
            (PurgeStep::Resolve { entry, current, .. }, PurgeEvent::Resolved { resolved }) => {
                let superseded = nonblocking_quarantine_was_superseded(&entry, &resolved);
                PurgeStep::act(quarantine_id, entry, &Some(current), superseded)
            },
            (PurgeStep::Inspect { entry, path, record_key }, PurgeEvent::Inspected { observed }) => {
                match quarantine_artifact_path_for_purge(
                    root,
                    quarantine_id,
                    &entry,
                    &path,
                    &observed,
                ) {
                    Ok(path) => PurgeStep::RemoveArtifacts { path, record_key },
                    Err(error) => PurgeStep::Failed { error },
                }
            },
            (PurgeStep::RemoveArtifacts { path, record_key }, PurgeEvent::Done) => next_purge_step(
                PurgeStep::RemoveArtifacts { path, record_key },
            ),
            (PurgeStep::DeleteRecord { record_key }, PurgeEvent::Done) => next_purge_step(
                PurgeStep::DeleteRecord { record_key },
            ),
            (PurgeStep::DeleteQuarantine, PurgeEvent::Done) => next_purge_step(
                PurgeStep::DeleteQuarantine,
            ),
            (step, _) => step,
        }
    }
}

/// No coherent pair of record and index is taken as proof that a runtime is gone: an uncertain
/// entry is never reconciled by itself.
pub fn reconcile_uncertain_quarantines() -> (reconciled: usize)
    ensures
        reconciled == 0,
{
    0
}

// ---------------------------------------------------------------------------------------------
// Laws
// ---------------------------------------------------------------------------------------------

/// An entry that says what it is about keeps its identifier, whatever reason is given for it, so
/// finding the same thing again does not make a second entry.
pub proof fn a_located_entry_keeps_its_id(
    record_key: Option<Seq<u8>>,
    artifact_root: Option<Seq<u8>>,
    manifest_path: Option<Seq<u8>>,
    first: Seq<char>,
    second: Seq<char>,
    policy: QuarantinePolicy,
)
    requires
        record_key is Some || artifact_root is Some || manifest_path is Some,
    ensures
        quarantine_id_text(record_key, artifact_root, manifest_path, first, policy)
            == quarantine_id_text(record_key, artifact_root, manifest_path, second, policy),
{
}

/// After the artifacts come the record, the entry and the end, in this order.
pub proof fn a_purge_ends_with_its_entry(path: StorePath, record_key: String)
    ensures
        after_purge_step(
            PurgeStep::RemoveArtifacts { path, record_key: Some(record_key) },
        ) == (PurgeStep::DeleteRecord { record_key }),
        after_purge_step(PurgeStep::DeleteRecord { record_key }) == PurgeStep::DeleteQuarantine,
        after_purge_step(PurgeStep::DeleteQuarantine) == PurgeStep::Finished,
{
}

/// A purge removes the record under the key of its entry only where it is the captured one, and the
/// artifacts of an entry only where no newer record stands under its key.
pub proof fn purges_spare_newer_state(
    quarantine_id: String,
    entry: StoredPausedSandboxQuarantine,
    current: Seq<u8>,
    superseded: bool,
    after: PurgeStep,
)
    requires
        entry.record_key is Some,
        after.acts(quarantine_id, entry, Some(current), superseded),
        after is Inspect || after is RemoveArtifacts || after is DeleteRecord,
    ensures
        entry.record_sha256 matches Some(captured) && captured@ == digest::sha256_hex_of(current),
        after matches PurgeStep::DeleteRecord { record_key } ==> entry.record_key == Some(record_key),
        after matches PurgeStep::Inspect { record_key, .. } ==> entry.record_key == record_key,
{
}

/// Artifacts are removed only where they lie inside the directory of the sandbox of their entry, or
/// are purgeable by themselves.
pub proof fn purges_stay_inside_the_store(
    before: PurgeStep,
    root: Seq<Part>,
    quarantine_id: String,
    event: PurgeEvent,
    after: PurgeStep,
)
    requires
        after.follows(before, root, quarantine_id, event),
        after is RemoveArtifacts,
        after != before,
    ensures
        before matches PurgeStep::Inspect { entry, path, .. } && (event matches PurgeEvent::Inspected {
            observed,
        } && purge_path(root, entry, path@, observed) == Some(after->RemoveArtifacts_path@)),
{
}

/// An entry asks for an administrator unless it is kept as evidence only, and only one about a write
/// whose outcome is unknown may be reconciled.
pub proof fn only_evidence_does_not_block(policy: QuarantinePolicy)
    ensures
        policy is Manual ==> policy.is_manual() && !policy.may_reconcile(),
        policy is Uncertain ==> policy.is_manual() && policy.may_reconcile(),
        policy is Nonblocking ==> !policy.is_manual() && !policy.may_reconcile(),
{
}

/// An administrator is shown an entry as it is stored, without the bytes that it captured.
pub proof fn entries_are_shown_as_they_are(entry: StoredPausedSandboxQuarantine)
    ensures
        entry.shown_entry().id == entry.id,
        entry.shown_entry().reason == entry.reason,
        entry.shown_entry().requires_manual_recovery == entry.requires_manual_recovery,
        entry.shown_entry().record_key == entry.record_key,
        entry.shown_entry().artifact_root == entry.artifact_root,
        entry.shown_entry().manifest_path == entry.manifest_path,
{
}

/// What an entry says is what it was made of: its flags are those of its policy, its key is told as
/// text and as digest, and what it captured is told as digest and can be read back.
pub proof fn entries_say_what_they_were_made_of(
    entry: StoredPausedSandboxQuarantine,
    reason: Seq<char>,
    record_key: Option<Seq<u8>>,
    captured: Option<Seq<u8>>,
    artifact_root: Option<StorePath>,
    manifest_path: Option<StorePath>,
    policy: QuarantinePolicy,
)
    requires
        describes(entry, reason, record_key, captured, artifact_root, manifest_path, policy),
    ensures
        entry.version == 1,
        entry.reason@ == reason,
        entry.requires_manual_recovery <==> policy is Manual || policy is Uncertain,
        entry.reconcile_if_coherent <==> policy is Uncertain,
        entry.record_key is Some <==> record_key is Some,
        record_key is Some ==> entry.record_key->0@ == text::lossy_text(record_key->0),
        entry.record_key_sha256 is Some <==> record_key is Some,
        record_key is Some ==> entry.record_key_sha256->0@ == digest::sha256_hex_of(record_key->0),
        entry.record_sha256 is Some <==> captured is Some,
        captured is Some ==> entry.record_sha256->0@ == digest::sha256_hex_of(captured->0),
        entry.record_bytes_base64 is Some <==> captured is Some,
        captured is Some ==> entry.record_bytes_base64->0@ == digest::base64_of(captured->0),
        entry.artifact_root is Some <==> artifact_root is Some,
        artifact_root is Some ==> entry.artifact_root->0@ == artifact_root->0@
            && entry.artifact_root->0.spelled() == artifact_root->0.spelled(),
        entry.manifest_path is Some <==> manifest_path is Some,
        manifest_path is Some ==> entry.manifest_path->0@ == manifest_path->0@
            && entry.manifest_path->0.spelled() == manifest_path->0.spelled(),
{
}

/// The identifier of an entry is the digest of its flags and of everything that locates it, each under
/// its own tag; the reason is among them only where nothing else is.
pub proof fn identifiers_tell_what_is_located(
    key: Seq<u8>,
    root: Seq<u8>,
    manifest: Seq<u8>,
    reason: Seq<char>,
)
    ensures
        quarantine_id_text(Some(key), Some(root), Some(manifest), reason, QuarantinePolicy::Uncertain)
            == "paused-"@ + digest::sha256_hex_of(
            text::text_bytes("manual:yes"@) + text::text_bytes("reconcile:yes"@) + text::text_bytes(
                "record:"@,
            ) + key + text::text_bytes("artifact:"@) + root + text::text_bytes("manifest:"@)
                + manifest,
        ),
        quarantine_id_text(Some(key), Some(root), None, reason, QuarantinePolicy::Manual) == "paused-"@
            + digest::sha256_hex_of(
            text::text_bytes("manual:yes"@) + text::text_bytes("reconcile:no"@) + text::text_bytes(
                "record:"@,
            ) + key + text::text_bytes("artifact:"@) + root,
        ),
        quarantine_id_text(None, Some(root), Some(manifest), reason, QuarantinePolicy::Manual)
            == "paused-"@ + digest::sha256_hex_of(
            text::text_bytes("manual:yes"@) + text::text_bytes("reconcile:no"@) + text::text_bytes(
                "artifact:"@,
            ) + root + text::text_bytes("manifest:"@) + manifest,
        ),
        quarantine_id_text(None, None, None, reason, QuarantinePolicy::Nonblocking) == "paused-"@
            + digest::sha256_hex_of(
            text::text_bytes("manual:no"@) + text::text_bytes("reconcile:no"@) + text::text_bytes(
                "reason:"@,
            ) + text::text_bytes(reason),
        ),
        quarantine_id_text(Some(key), None, None, reason, QuarantinePolicy::Nonblocking) == "paused-"@
            + digest::sha256_hex_of(
            text::text_bytes("manual:no"@) + text::text_bytes("reconcile:no"@) + text::text_bytes(
                "record:"@,
            ) + key,
        ),
{
    let yes = text::text_bytes("manual:yes"@);
    let no = text::text_bytes("manual:no"@);
    assert(quarantine_preimage(
        Some(key),
        Some(root),
        Some(manifest),
        reason,
        QuarantinePolicy::Uncertain,
    ) =~= yes + text::text_bytes("reconcile:yes"@) + text::text_bytes("record:"@) + key
        + text::text_bytes("artifact:"@) + root + text::text_bytes("manifest:"@) + manifest);
    assert(quarantine_preimage(Some(key), Some(root), None, reason, QuarantinePolicy::Manual) =~= yes
        + text::text_bytes("reconcile:no"@) + text::text_bytes("record:"@) + key + text::text_bytes(
        "artifact:"@,
    ) + root);
    assert(quarantine_preimage(None, Some(root), Some(manifest), reason, QuarantinePolicy::Manual)
        =~= yes + text::text_bytes("reconcile:no"@) + text::text_bytes("artifact:"@) + root
        + text::text_bytes("manifest:"@) + manifest);
    assert(quarantine_preimage(None, None, None, reason, QuarantinePolicy::Nonblocking) =~= no
        + text::text_bytes("reconcile:no"@) + text::text_bytes("reason:"@) + text::text_bytes(
        reason,
    ));
    assert(quarantine_preimage(Some(key), None, None, reason, QuarantinePolicy::Nonblocking) =~= no
        + text::text_bytes("reconcile:no"@) + text::text_bytes("record:"@) + key);
}

/// Every entry that asks for an administrator blocks the sandbox, the generation and the manifest that
/// it names; an entry that does not ask for one blocks none of them.
pub proof fn manual_entries_block_what_they_name(
    blocks: PausedRecoveryBlocks,
    entries: Seq<StoredPausedSandboxQuarantine>,
    at: int,
    manifest: ManifestEntry,
)
    requires
        are_recovery_blocks(blocks, entries),
    ensures
        0 <= at < entries.len() && entries[at].requires_manual_recovery ==> {
            &&& entries[at].record_key matches Some(key) ==> (SandboxId::parsed(key@) matches Some(
                sandbox_id,
            ) ==> blocks.sandbox_ids@.contains(sandbox_id))
            &&& entries[at].artifact_root matches Some(root) ==> (manifest.record.artifact_root@
                == root@ ==> blocks.blocks_manifest(&manifest))
            &&& entries[at].manifest_path matches Some(path) ==> (manifest.path@ == path@
                ==> blocks.blocks_manifest(&manifest))
            &&& entries[at].record_key matches Some(key) ==> (SandboxId::parsed(key@) == Some(
                manifest.record.metadata.id,
            ) ==> blocks.blocks_manifest(&manifest))
        },
        (forall|i: int|
            0 <= i < entries.len() ==> !(#[trigger] entries[i]).requires_manual_recovery)
            ==> !blocks.blocks_manifest(&manifest) && blocks.sandbox_ids@.len() == 0,
        blocks.blocks_manifest(&manifest) ==> exists|i: int|
            {
                &&& 0 <= i < entries.len()
                &&& (#[trigger] entries[i]).requires_manual_recovery
                &&& {
                    ||| entries[i].record_key is Some && SandboxId::parsed(entries[i].record_key->0@)
                        == Some(manifest.record.metadata.id)
                    ||| entries[i].artifact_root is Some && entries[i].artifact_root->0@
                        == manifest.record.artifact_root@
                    ||| entries[i].manifest_path is Some && entries[i].manifest_path->0@
                        == manifest.path@
                }
            },
{
    let id = manifest.record.metadata.id;
    let root = manifest.record.artifact_root@;
    assert(blocks.sandbox_ids@.contains(id) <==> sandbox_is_blocked(entries, id));
    assert(holds_path(blocks.artifact_roots@, root) <==> artifact_is_blocked(entries, root));
    assert(holds_path(blocks.manifest_paths@, manifest.path@) <==> manifest_is_blocked(
        entries,
        manifest.path@,
    ));
    if blocks.sandbox_ids@.len() > 0 {
        let first = blocks.sandbox_ids@[0];
        assert(blocks.sandbox_ids@.contains(first));
        assert(sandbox_is_blocked(entries, first));
    }
    if 0 <= at < entries.len() && entries[at].requires_manual_recovery {
        if entries[at].record_key is Some && SandboxId::parsed(entries[at].record_key->0@) is Some {
            let named = SandboxId::parsed(entries[at].record_key->0@)->0;
            assert(entry_sandbox(entries[at]) == Some(named));
            assert(sandbox_is_blocked(entries, named));
            assert(blocks.sandbox_ids@.contains(named));
        }
    }
    if blocks.blocks_manifest(&manifest) {
        if sandbox_is_blocked(entries, id) {
            let i = choose|i: int|
                0 <= i < entries.len() && (#[trigger] entries[i]).requires_manual_recovery
                    && entry_sandbox(entries[i]) == Some(id);
            assert(entries[i].requires_manual_recovery);
        }
    }
}

/// A purge is of an entry that is stored, can be read and is of the current version; any other is
/// refused, and told why.
pub proof fn purges_need_a_readable_entry(
    quarantine_id: String,
    entry: StoredPausedSandboxQuarantine,
    source: String,
)
    ensures
        entry_for_purge(quarantine_id, None) == Err::<
            StoredPausedSandboxQuarantine,
            SandboxPersistenceError,
        >(
            (SandboxPersistenceError::InvalidRecord {
                reason: RecordFault::QuarantineNotFound { quarantine_id },
                source: None,
            }),
        ),
        entry_for_purge(quarantine_id, Some(Err(source))) == Err::<
            StoredPausedSandboxQuarantine,
            SandboxPersistenceError,
        >(
            (SandboxPersistenceError::InvalidRecord {
                reason: RecordFault::UndecodableQuarantine,
                source: Some(source),
            }),
        ),
        entry.version == 1 ==> entry_for_purge(quarantine_id, Some(Ok(entry))) == Ok::<
            StoredPausedSandboxQuarantine,
            SandboxPersistenceError,
        >(entry),
        entry.version != 1 ==> entry_for_purge(quarantine_id, Some(Ok(entry))) == Err::<
            StoredPausedSandboxQuarantine,
            SandboxPersistenceError,
        >(
            (SandboxPersistenceError::InvalidRecord {
                reason: RecordFault::UnsupportedQuarantineVersion { version: entry.version },
                source: None,
            }),
        ),
{
}

/// How far a purge goes: an entry whose key holds nothing, or that has none, goes with its artifacts;
/// one whose key still holds the captured record goes with that too; one whose record was replaced
/// goes alone where the new record supersedes it, and is else refused, as is one that captured none.
pub proof fn purges_go_only_so_far(
    quarantine_id: String,
    entry: StoredPausedSandboxQuarantine,
    current: Seq<u8>,
    superseded: bool,
    next: PurgeStep,
)
    ensures
        entry.record_key is None && next.acts(quarantine_id, entry, Some(current), superseded)
            ==> takes_artifacts(next, entry, None),
        next.acts(quarantine_id, entry, None, superseded) ==> takes_artifacts(next, entry, None),
        entry.record_key is Some && next.acts(quarantine_id, entry, Some(current), superseded) ==> {
            &&& entry.record_sha256 matches Some(captured) ==> (captured@ == digest::sha256_hex_of(
                current,
            ) ==> takes_artifacts(next, entry, entry.record_key))
            &&& entry.record_sha256 matches Some(captured) ==> (captured@ != digest::sha256_hex_of(
                current,
            ) ==> (if superseded {
                next is DeleteQuarantine
            } else {
                is_refusal_of_newer_state(next, quarantine_id)
            }))
            &&& entry.record_sha256 is None ==> is_refusal_of_newer_state(next, quarantine_id)
        },
{
}

/// Whether a purge goes on to the artifacts of an entry, then to the record under a key, then to the
/// entry; what is not there is left out.
pub open spec fn takes_artifacts(
    next: PurgeStep,
    entry: StoredPausedSandboxQuarantine,
    key: Option<String>,
) -> bool {
    match entry.artifact_root {
        Some(artifacts) => next matches PurgeStep::Inspect { entry: inspected, path, record_key }
            && inspected == entry && path@ == artifacts@ && record_key == key,
        None => if key is Some {
            next == (PurgeStep::DeleteRecord { record_key: key->0 })
        } else {
            next is DeleteQuarantine
        },
    }
}

/// Whether a purge is refused because another record stands under the key of its entry.
pub open spec fn is_refusal_of_newer_state(next: PurgeStep, quarantine_id: String) -> bool {
    next == (PurgeStep::Failed {
        error: SandboxPersistenceError::InvalidRecord {
            reason: RecordFault::PurgeOfNewerState { quarantine_id },
            source: None,
        },
    })
}

/// An entry may be superseded only where it blocks nothing, by an index of its own sandbox and
/// manifest, and by a record of its own generation that can be read.
pub proof fn only_evidence_is_superseded(
    entry: StoredPausedSandboxQuarantine,
    index: PersistedPausedIndex,
    record: PersistedPausedRecord,
    error: SandboxPersistenceError,
    current: Seq<u8>,
)
    ensures
        entry.requires_manual_recovery ==> !index_may_supersede(entry, index),
        index_may_supersede(entry, index) ==> entry.record_key is Some && SandboxId::parsed(
            entry.record_key->0@,
        ) == Some(index.sandbox_id) && (entry.manifest_path is Some ==> entry.manifest_path->0@
            == index.manifest_path@),
        !entry.requires_manual_recovery && entry.record_key is Some && SandboxId::parsed(
            entry.record_key->0@,
        ) == Some(index.sandbox_id) && (entry.manifest_path is None || entry.manifest_path->0@
            == index.manifest_path@) ==> index_may_supersede(entry, index),
        !supersedes(entry, Err(error)),
        supersedes(entry, Ok(record)) <==> entry.artifact_root is None || entry.artifact_root->0@
            == record.artifact_root@,
        was_replaced(entry, None) == false,
        entry.record_sha256 is None ==> !was_replaced(entry, Some(current)),
        entry.record_sha256 is Some ==> (was_replaced(entry, Some(current)) <==> entry.record_sha256->0@
            != digest::sha256_hex_of(current)),
{
}

/// A purge reads the entry, then the record under its key, then what a replacing index leads to, and
/// then looks at the artifacts, before it removes anything; a step that fails ends it with its error.
pub proof fn purges_look_before_they_remove(
    before: PurgeStep,
    root: Seq<Part>,
    quarantine_id: String,
    event: PurgeEvent,
    next: PurgeStep,
)
    requires
        next.follows(before, root, quarantine_id, event),
    ensures
        before is Finished || before is Failed ==> next == before,
        !(before is Finished) && !(before is Failed) ==> (event matches PurgeEvent::Failed { error }
            ==> next == (PurgeStep::Failed { error })),
        before is Load ==> (event matches PurgeEvent::Loaded { found: Some(Ok(entry)) }
            ==> entry.version == 1 ==> (entry.record_key matches Some(key) ==> next == (
        PurgeStep::ReadRecord { entry, record_key: key })) && (entry.record_key is None
            ==> takes_artifacts(next, entry, None))),
        before is Load ==> (event matches PurgeEvent::Loaded { found } ==> next is Failed || next
            is ReadRecord || next is Inspect || next is DeleteQuarantine),
        before matches PurgeStep::ReadRecord { entry, .. } ==> (event matches PurgeEvent::RecordRead {
            current: None,
        } ==> takes_artifacts(next, entry, None)),
        before matches PurgeStep::ReadRecord { entry, .. } ==> (event matches PurgeEvent::RecordRead {
            current: Some(current),
        } ==> {
            let replaced = entry.record_sha256 is Some && entry.record_sha256->0@
                != digest::sha256_hex_of(current.bytes@);
            &&& next is Resolve <==> replaced && current.index is Ok && index_may_supersede(
                entry,
                current.index->Ok_0,
            )
            &&& next matches PurgeStep::Resolve { entry: kept, current: bytes, index } ==> kept == entry
                && bytes == current.bytes && index == current.index->Ok_0
            &&& replaced && !(next is Resolve) ==> if entry.record_key is Some {
                is_refusal_of_newer_state(next, quarantine_id)
            } else {
                takes_artifacts(next, entry, None)
            }
        }),
        next is RemoveArtifacts && !(before is RemoveArtifacts) ==> before is Inspect,
        next is DeleteRecord && before is RemoveArtifacts ==> event is Done,
{
}

/// The artifacts of an entry about a sandbox are removed where they are one of its generations or its
/// directory, and those of any other entry where they may be purged; they are removed where they
/// really are, with the key of the entry, and refused else.
pub proof fn purges_remove_what_is_managed(
    root: Seq<Part>,
    quarantine_id: String,
    entry: StoredPausedSandboxQuarantine,
    path: StorePath,
    record_key: Option<String>,
    observed: PurgePathObservation,
    next: PurgeStep,
)
    requires
        next.follows(
            PurgeStep::Inspect { entry, path, record_key },
            root,
            quarantine_id,
            PurgeEvent::Inspected { observed },
        ),
    ensures
        entry.record_key is Some && SandboxId::parsed(entry.record_key->0@) is Some ==> {
            let sandbox_id = SandboxId::parsed(entry.record_key->0@)->0;
            let managed = managed_paths::is_managed_generation(
                root,
                sandbox_id,
                path@,
                observed.managed,
            ) || managed_paths::is_managed_sandbox_root(root, sandbox_id, path@, observed.managed);
            &&& managed ==> (next matches PurgeStep::RemoveArtifacts { path: found, record_key: key }
                && found@ == observed.managed.canonical_path->0@ && key == record_key)
            &&& !managed ==> next == (PurgeStep::Failed {
                error: SandboxPersistenceError::InvalidRecord {
                    reason: RecordFault::PurgeOutsideSandbox { quarantine_id, sandbox_id },
                    source: None,
                },
            })
        },
        entry.record_key is None || SandboxId::parsed(entry.record_key->0@) is None ==> {
            let located = managed_paths::purge_location(root, path@, observed.purgeable);
            &&& located is Some ==> (next matches PurgeStep::RemoveArtifacts {
                path: found,
                record_key: key,
            } && found@ == located->0 && key == record_key)
            &&& located is None ==> next == (PurgeStep::Failed {
                error: SandboxPersistenceError::InvalidRecord {
                    reason: RecordFault::PurgeOutsideArtifacts { quarantine_id },
                    source: None,
                },
            })
        },
{
}

/// A purge without artifacts begins with the record, and one without a record with the entry.
pub proof fn purges_begin_with_what_is_there(path: StorePath, key: String)
    ensures
        first_removal(QuarantinePurgeAction::QuarantineOnly, Some(path)) is DeleteQuarantine,
        first_removal(QuarantinePurgeAction::PurgeState { record_key: Some(key) }, Some(path)) == (
        PurgeStep::RemoveArtifacts { path, record_key: Some(key) }),
        first_removal(QuarantinePurgeAction::PurgeState { record_key: Some(key) }, None) == (
        PurgeStep::DeleteRecord { record_key: key }),
        first_removal(QuarantinePurgeAction::PurgeState { record_key: None }, None)
            is DeleteQuarantine,
        after_purge_step(PurgeStep::RemoveArtifacts { path, record_key: None }) is DeleteQuarantine,
{
}

proof fn a_place_parts_a_listing(listing: Seq<PausedSandboxQuarantine>, entry: PausedSandboxQuarantine)
    requires
        is_listing(listing),
    ensures
        0 <= place_in(listing, entry) <= listing.len(),
        place_in(listing, entry) > 0 ==> !listed_before(entry, listing[place_in(listing, entry) - 1]),
        forall|k: int|
            place_in(listing, entry) <= k < listing.len() ==> listed_before(
                entry,
                #[trigger] listing[k],
            ),
    decreases listing.len(),
{
    if listing.len() > 0 && listed_before(entry, listing.last()) {
        a_place_parts_a_listing(listing.drop_last(), entry);
        assert forall|k: int|
            place_in(listing, entry) <= k < listing.len() implies listed_before(
            entry,
            #[trigger] listing[k],
        ) by {
            if k < listing.len() - 1 {
                assert(listing.drop_last()[k] == listing[k]);
            }
        }
    }
}

proof fn listings_are_in_order(entries: Seq<StoredPausedSandboxQuarantine>)
    ensures
        is_listing(listed(entries)),
        listed(entries).len() == entries.len(),
    decreases entries.len(),
{
    if entries.len() > 0 {
        let before = listed(entries.drop_last());
        let entry = entries.last().shown_entry();
        listings_are_in_order(entries.drop_last());
        a_place_parts_a_listing(before, entry);
        an_insertion_keeps_the_order(before, entry, place_in(before, entry));
    }
}

/// A listing holds each entry that there is, and goes by identifier: none stands behind one whose
/// identifier comes after its own. An entry that came later stands behind all that share its
/// identifier, and those that were listed before it keep their order.
pub proof fn listings_go_by_identifier(
    entries: Seq<StoredPausedSandboxQuarantine>,
    next: StoredPausedSandboxQuarantine,
)
    ensures
        listed(entries).len() == entries.len(),
        forall|i: int, j: int|
            0 <= i < j < entries.len() ==> !path_order::bytes_before(
                text::text_bytes((#[trigger] listed(entries)[j]).id@),
                text::text_bytes((#[trigger] listed(entries)[i]).id@),
            ),
        exists|place: int|
            {
                &&& 0 <= place <= listed(entries).len()
                &&& listed(entries.push(next)) == #[trigger] listed(entries).insert(
                    place,
                    next.shown_entry(),
                )
                &&& forall|k: int|
                    0 <= k < listed(entries).len() ==> (place <= k <==> path_order::bytes_before(
                        text::text_bytes(next.id@),
                        text::text_bytes((#[trigger] listed(entries)[k]).id@),
                    ))
            },
{
    let before = listed(entries);
    let entry = next.shown_entry();
    let place = place_in(before, entry);
    listings_are_in_order(entries);
    a_place_parts_a_listing(before, entry);
    assert(entries.push(next).drop_last() =~= entries);
    assert(listed(entries.push(next)) == before.insert(place, entry));
    assert forall|i: int, j: int| 0 <= i < j < entries.len() implies !path_order::bytes_before(
        text::text_bytes((#[trigger] before[j]).id@),
        text::text_bytes((#[trigger] before[i]).id@),
    ) by {
        assert(!listed_before(before[j], before[i]));
    }
    assert forall|k: int| 0 <= k < before.len() implies (place <= k <==> path_order::bytes_before(
        text::text_bytes(next.id@),
        text::text_bytes((#[trigger] before[k]).id@),
    )) by {
        if k >= place {
            assert(listed_before(entry, before[k]));
        } else if k < place - 1 {
            nothing_comes_before_the_last(before, entry, place - 1, k);
        }
    }
}

/// Bytes and paths are taken as they are where there are any.
pub proof fn what_is_there_is_taken(bytes: Vec<u8>, path: StorePath)
    ensures
        optional_bytes(Some(bytes)) == Some(bytes@),
        optional_bytes(None) is None,
        optional_spelling(Some(path)) == Some(path.spelled()),
        optional_spelling(None) is None,
{
}

} // verus!
