//! What a restart makes of the records that it finds.

use crate::ids::SandboxId;
use crate::orchestrator::metadata::SandboxMetadata;
use crate::orchestrator::persistence::codecs;
use crate::orchestrator::persistence::codecs::{
    decode_paused_state, decode_recovery_pending_state, manifest_path,
    paused_metadata_without_runtime_state, PersistedPausedRecord, RecordView,
};
use crate::orchestrator::persistence::error::{PersistenceResult, SandboxPersistenceError};
use crate::orchestrator::persistence::manifests;
use crate::orchestrator::persistence::paused_transactions;
use crate::orchestrator::persistence::paused_transactions::{
    host_reboot_proves_runtime_absent, PersistedPausedLifecycle, StopProofReconciliation,
};
use crate::orchestrator::persistence::quarantine::{
    has_id, StoredPausedSandboxQuarantine,
};
use crate::orchestrator::types::{PausedStateRef, VirtualizationMode};
use crate::paths::StorePath;
use crate::text;
use vstd::prelude::*;

verus! {

/// What the load of one record does next.
#[derive(Debug)]
pub enum LoadStep {
    /// Decode the state of a record that may not be used. `interrupted` says whether that is
    /// because a resume was under way.
    DecodeGuarded { record: PersistedPausedRecord, interrupted: bool },
    /// Publish the record in this form, then go on with it.
    PublishRestored { record: PersistedPausedRecord },
    /// Find out the current boot, and go on.
    Continue { record: PersistedPausedRecord },
    /// Publish the record with what the current boot says of it, then go on with it.
    PublishLooked { record: PersistedPausedRecord },
    /// Decode the state of the record.
    Decode { record: PersistedPausedRecord },
    /// Store the entry about a record that cannot be decoded.
    Store { entry: StoredPausedSandboxQuarantine },
    /// The sandbox is listed.
    Complete { metadata: SandboxMetadata },
    /// The sandbox is not listed.
    Skipped,
    Failed { error: SandboxPersistenceError },
}

/// What came of a step of a load.
#[derive(Debug)]
pub enum LoadEvent {
    Decoded { decoded: Result<PausedStateRef, String> },
    Published { published: PersistenceResult<()> },
    Looked { boot_id: Option<String> },
    Stored { stored: PersistenceResult<()> },
}

/// Whether a restart knows that a resume never came to its end: one that was interrupted does not
/// survive a reboot.
pub open spec fn is_restorable(record: RecordView, current_boot_id: Option<String>) -> bool {
    &&& !record.recovery_pending()
    &&& record.lifecycle is Resuming
    &&& paused_transactions::is_reboot(record.resuming_boot_id, current_boot_id)
}

/// Whether a record may be used only after explicit recovery: its last write is uncertain, or its
/// sandbox was resumed since, and the checkpoint lacks what the guest wrote then.
pub open spec fn needs_recovery(record: RecordView) -> bool {
    record.recovery_pending() || record.lifecycle is Resumed
}

/// What a checkpoint may lack of the writes of a guest that was resumed from it.
#[derive(Clone, Copy, Debug, PartialEq, Eq, Structural)]
pub struct RecoveryNotice {
    pub sandbox_id: SandboxId,
    /// When the checkpoint was taken, where that is known.
    pub captured_at_unix_ms: Option<u64>,
    /// How much of the time since then may be lost.
    pub possible_loss_ms: Option<u64>,
}

/// What to report about a record at a time: a resume that was completed or interrupted may have
/// let the guest write on.
pub fn recovery_notice(record: &PersistedPausedRecord, now_unix_ms: u64) -> (notice: Option<
    RecoveryNotice,
>)
    ensures
        notice == if record.lifecycle is Paused {
            None
        } else {
            Some(
                RecoveryNotice {
                    sandbox_id: record.metadata.id,
                    captured_at_unix_ms: record.checkpoint_at_unix_ms,
                    possible_loss_ms: match record.checkpoint_at_unix_ms {
                        Some(captured_at) => Some(
                            if captured_at <= now_unix_ms {
                                (now_unix_ms - captured_at) as u64
                            } else {
                                0
                            },
                        ),
                        None => None,
                    },
                },
            )
        },
{
    if let PersistedPausedLifecycle::Paused = record.lifecycle {
        return None;
    }
    let possible_loss_ms = match record.checkpoint_at_unix_ms {
        Some(captured_at) => if captured_at <= now_unix_ms {
            Some(now_unix_ms - captured_at)
        } else {
            Some(0)
        },
        None => None,
    };
    Some(
        RecoveryNotice {
            sandbox_id: record.metadata.id,
            captured_at_unix_ms: record.checkpoint_at_unix_ms,
            possible_loss_ms,
        },
    )
}

/// Decides what to do with a record by its lifecycle.
pub fn reconcile_record_lifecycle(
    record: PersistedPausedRecord,
    node_mode: VirtualizationMode,
    current_boot_id: &Option<String>,
) -> (step: LoadStep)
    ensures
        ({
            let found = record@;
            let usable_here = found.metadata.virtualization_mode == node_mode;
            if needs_recovery(found) {
                if usable_here {
                    step matches LoadStep::DecodeGuarded { record, interrupted: false } && record@
                        == found.marked()
                } else {
                    step == (LoadStep::Complete {
                        metadata: codecs::guarded(codecs::metadata_without_runtime(found.metadata)),
                    })
                }
            } else if is_restorable(found, *current_boot_id) {
                step matches LoadStep::PublishRestored { record } && record@ == found.restored()
            } else if found.lifecycle is Resuming {
                if usable_here {
                    step matches LoadStep::DecodeGuarded { record, interrupted: true } && record@
                        == found
                } else {
                    step == (LoadStep::Complete {
                        metadata: codecs::guarded(codecs::metadata_without_runtime(found.metadata)),
                    })
                }
            } else {
                step == (LoadStep::Continue { record })
            }
        }),
{
    if record.is_recovery_pending() {
        return load_recovery_pending_record(record, node_mode);
    }
    match record.lifecycle {
        PersistedPausedLifecycle::Resumed => load_recovery_pending_record(record, node_mode),
        PersistedPausedLifecycle::Resuming => reconcile_interrupted_resume(
            record,
            node_mode,
            current_boot_id,
        ),
        PersistedPausedLifecycle::Paused => LoadStep::Continue { record },
    }
}

fn load_recovery_pending_record(record: PersistedPausedRecord, node_mode: VirtualizationMode) -> (step:
    LoadStep)
    ensures
        if record.metadata.virtualization_mode == node_mode {
            step matches LoadStep::DecodeGuarded { record: marked, interrupted: false } && marked@
                == record@.marked()
        } else {
            step == (LoadStep::Complete {
                metadata: codecs::guarded(codecs::metadata_without_runtime(record.metadata)),
            })
        },
{
    let mut record = record;
    record.metadata.resume_recovery_pending = true;
    record.metadata.paused_runtime_stopped = false;
    if record.metadata.virtualization_mode != node_mode {
        return LoadStep::Complete { metadata: paused_metadata_without_runtime_state(record) };
    }
    LoadStep::DecodeGuarded { record, interrupted: false }
}

fn reconcile_interrupted_resume(
    record: PersistedPausedRecord,
    node_mode: VirtualizationMode,
    current_boot_id: &Option<String>,
) -> (step: LoadStep)
    ensures
        if paused_transactions::is_reboot(record.resuming_boot_id, *current_boot_id) {
            step matches LoadStep::PublishRestored { record: restored } && restored@
                == record@.restored()
        } else if record.metadata.virtualization_mode == node_mode {
            step == (LoadStep::DecodeGuarded { record, interrupted: true })
        } else {
            step == (LoadStep::Complete {
                metadata: codecs::guarded(codecs::metadata_without_runtime(record.metadata)),
            })
        },
{
    let mut record = record;
    if host_reboot_proves_runtime_absent(&record.resuming_boot_id, current_boot_id) {
        record.restore();
        return LoadStep::PublishRestored { record };
    }
    if record.metadata.virtualization_mode != node_mode {
        let mut metadata = paused_metadata_without_runtime_state(record);
        metadata.paused_runtime_stopped = false;
        metadata.resume_recovery_pending = true;
        return LoadStep::Complete { metadata };
    }
    LoadStep::DecodeGuarded { record, interrupted: true }
}

/// What comes of a record: the metadata to list, or the entry to store about it.
#[derive(Debug)]
pub enum LoadOutcome {
    Listed { metadata: SandboxMetadata },
    Quarantined { entry: StoredPausedSandboxQuarantine },
}

/// Whether an entry is about the generation of a record that could not be decoded.
pub open spec fn is_undecodable_entry(
    entry: StoredPausedSandboxQuarantine,
    reason: Seq<char>,
    artifact_root: StorePath,
) -> bool {
    exists|manifest: Option<StorePath>|
        {
            &&& #[trigger] crate::orchestrator::persistence::publication::is_manifest_of(
                manifest,
                artifact_root,
                true,
            )
            &&& manifests::is_entry_for(entry, reason, Some(artifact_root), manifest)
        }
}

fn undecodable_entry(reason: String, artifact_root: &StorePath) -> (entry:
    StoredPausedSandboxQuarantine)
    ensures
        is_undecodable_entry(entry, reason@, *artifact_root),
{
    let root = Some(artifact_root.copy());
    let manifest = Some(manifest_path(artifact_root));
    let entry = manifests::entry_for(reason, &root, &manifest);
    assert(crate::orchestrator::persistence::publication::is_manifest_of(
        manifest,
        *artifact_root,
        true,
    ));
    assert(manifests::is_entry_for(entry, reason@, Some(*artifact_root), manifest));
    entry
}

/// Finishes the load of a record that may not be used.
pub fn finish_guarded_load(
    record: PersistedPausedRecord,
    interrupted: bool,
    decoded: Result<PausedStateRef, String>,
) -> (outcome: LoadOutcome)
    ensures
        outcome matches LoadOutcome::Listed { metadata } ==> metadata.same_settings(record.metadata)
            && metadata.state is Paused,
        match codecs::paused_state_error(record.version, decoded) {
            None => outcome == (LoadOutcome::Listed {
                metadata: codecs::guarded(
                    codecs::metadata_with_runtime(record.metadata, decoded->Ok_0),
                ),
            }),
            Some(error) => outcome matches LoadOutcome::Quarantined { entry }
                && is_undecodable_entry(
                entry,
                (if interrupted {
                    "interrupted resume paused sandbox state could not be decoded: "@
                } else {
                    "recovery-pending paused sandbox could not be decoded: "@
                }) + error.shown(),
                record.artifact_root,
            ),
        },
{
    let artifact_root = record.artifact_root.copy();
    match decode_recovery_pending_state(record, decoded) {
        Ok(metadata) => LoadOutcome::Listed { metadata },
        Err(error) => {
            let what = if interrupted {
                "interrupted resume paused sandbox state could not be decoded: "
            } else {
                "recovery-pending paused sandbox could not be decoded: "
            };
            let entry = undecodable_entry(
                text::concat2(what, error.to_text().as_str()),
                &artifact_root,
            );
            proof {
                same_root_same_entry(
                    entry,
                    what@ + error.shown(),
                    artifact_root,
                    record.artifact_root,
                );
            }
            LoadOutcome::Quarantined { entry }
        },
    }
}

proof fn same_root_same_entry(
    entry: StoredPausedSandboxQuarantine,
    reason: Seq<char>,
    left: StorePath,
    right: StorePath,
)
    requires
        is_undecodable_entry(entry, reason, left),
        left@ == right@,
        left.spelled() == right.spelled(),
    ensures
        is_undecodable_entry(entry, reason, right),
{
    let manifest = choose|manifest: Option<StorePath>|
        {
            &&& #[trigger] crate::orchestrator::persistence::publication::is_manifest_of(
                manifest,
                left,
                true,
            )
            &&& manifests::is_entry_for(entry, reason, Some(left), manifest)
        };
    assert(crate::orchestrator::persistence::publication::is_manifest_of(manifest, right, true));
    assert(manifests::is_entry_for(entry, reason, Some(right), manifest));
}

/// A record after the look at the current boot, and whether it has to be published again.
#[derive(Debug)]
pub struct BootLook {
    pub record: PersistedPausedRecord,
    pub publish: bool,
}

/// Looks at the current boot, where it is known.
pub fn look_at_boot(record: PersistedPausedRecord, current_boot_id: &Option<String>) -> (look: BootLook)
    ensures
        match *current_boot_id {
            Some(boot_id) => look.record@ == record@.after_boot(boot_id) && look.publish == !(
            record@.boot_reconciliation(boot_id) is Unchanged),
            None => look.record == record && !look.publish,
        },
{
    let mut record = record;
    let publish = match current_boot_id {
        Some(boot_id) => {
            let outcome = record.reconcile_stop_proof_for_boot(boot_id);
            outcome != StopProofReconciliation::Unchanged
        },
        None => false,
    };
    BootLook { record, publish }
}

/// A record of another virtualization mode is listed without its runtime; any other is decoded.
pub fn load_reconciled_record(record: PersistedPausedRecord, node_mode: VirtualizationMode) -> (step:
    LoadStep)
    ensures
        step == if record.metadata.virtualization_mode == node_mode {
            LoadStep::Decode { record }
        } else {
            LoadStep::Complete { metadata: codecs::metadata_without_runtime(record.metadata) }
        },
{
    if record.metadata.virtualization_mode != node_mode {
        return LoadStep::Complete { metadata: paused_metadata_without_runtime_state(record) };
    }
    LoadStep::Decode { record }
}

/// Finishes the load of a record.
pub fn finish_load(record: PersistedPausedRecord, decoded: Result<PausedStateRef, String>) -> (outcome:
    LoadOutcome)
    ensures
        outcome matches LoadOutcome::Listed { metadata } ==> metadata.same_settings(record.metadata)
            && metadata.state is Paused,
        match codecs::paused_state_error(record.version, decoded) {
            None => outcome == (LoadOutcome::Listed {
                metadata: codecs::metadata_with_runtime(record.metadata, decoded->Ok_0),
            }),
            Some(error) => outcome matches LoadOutcome::Quarantined { entry }
                && is_undecodable_entry(
                entry,
                "paused sandbox state could not be decoded: "@ + error.shown(),
                record.artifact_root,
            ),
        },
{
    let artifact_root = record.artifact_root.copy();
    match decode_paused_state(record, decoded) {
        Ok(metadata) => LoadOutcome::Listed { metadata },
        Err(error) => {
            let entry = undecodable_entry(
                text::concat2(
                    "paused sandbox state could not be decoded: ",
                    error.to_text().as_str(),
                ),
                &artifact_root,
            );
            proof {
                same_root_same_entry(
                    entry,
                    "paused sandbox state could not be decoded: "@ + error.shown(),
                    artifact_root,
                    record.artifact_root,
                );
            }
            LoadOutcome::Quarantined { entry }
        },
    }
}

/// Takes note of the sandbox that a record is about; a second record about the same one is
/// quarantined instead of loaded.
pub fn claim_sandbox(seen: &mut Vec<SandboxId>, record: &PersistedPausedRecord) -> (entry: Option<
    StoredPausedSandboxQuarantine,
>)
    ensures
        if old(seen)@.contains(record.metadata.id) {
            &&& final(seen)@ == old(seen)@
            &&& entry matches Some(entry)
            &&& is_undecodable_entry(
                entry,
                "multiple persisted paused records claim the same sandbox ID"@,
                record.artifact_root,
            )
        } else {
            &&& final(seen)@ == old(seen)@.push(record.metadata.id)
            &&& entry is None
        },
{
    if has_id(seen, &record.metadata.id) {
        return Some(
            undecodable_entry(
                "multiple persisted paused records claim the same sandbox ID".to_owned(),
                &record.artifact_root,
            ),
        );
    }
    seen.push(record.metadata.id);
    None
}

impl LoadOutcome {
    /// What the load does with this.
    fn into_step(self) -> (step: LoadStep)
        ensures
            step == match self {
                LoadOutcome::Listed { metadata } => LoadStep::Complete { metadata },
                LoadOutcome::Quarantined { entry } => LoadStep::Store { entry },
            },
    {
        match self {
            LoadOutcome::Listed { metadata } => LoadStep::Complete { metadata },
            LoadOutcome::Quarantined { entry } => LoadStep::Store { entry },
        }
    }
}

/// What is known of a record once the current boot is known.
pub open spec fn looked_at(record: RecordView, boot_id: Option<String>) -> RecordView {
    match boot_id {
        Some(boot_id) => record.after_boot(boot_id),
        None => record,
    }
}

/// Whether the current boot changes a record.
pub open spec fn boot_changes(record: RecordView, boot_id: Option<String>) -> bool {
    boot_id matches Some(boot_id) && !(record.boot_reconciliation(boot_id) is Unchanged)
}

impl LoadStep {
    /// Whether this is how a load goes on with a record whose boot was looked at.
    pub open spec fn settles(self, record: RecordView, node_mode: VirtualizationMode) -> bool {
        if record.metadata.virtualization_mode == node_mode {
            self matches LoadStep::Decode { record: found } && found@ == record
        } else {
            self == (LoadStep::Complete {
                metadata: codecs::metadata_without_runtime(record.metadata),
            })
        }
    }

    /// Whether this is how a load goes on with a state that was decoded, or could not be.
    pub open spec fn takes_decoded(
        self,
        record: PersistedPausedRecord,
        decoded: Result<PausedStateRef, String>,
        listed: SandboxMetadata,
        what: Seq<char>,
    ) -> bool {
        match codecs::paused_state_error(record.version, decoded) {
            None => self == (LoadStep::Complete { metadata: listed }),
            Some(error) => self matches LoadStep::Store { entry } && is_undecodable_entry(
                entry,
                what + error.shown(),
                record.artifact_root,
            ),
        }
    }

    /// Whether an event leads from a step to this one. A write that fails ends the load, and what
    /// does not answer a step changes nothing.
    pub open spec fn follows(
        self,
        before: LoadStep,
        node_mode: VirtualizationMode,
        event: LoadEvent,
    ) -> bool {
        match (before, event) {
            (LoadStep::DecodeGuarded { record, interrupted }, LoadEvent::Decoded { decoded }) => {
                self.takes_decoded(
                    record,
                    decoded,
                    codecs::guarded(
                        codecs::metadata_with_runtime(record.metadata, decoded->Ok_0),
                    ),
                    if interrupted {
                        "interrupted resume paused sandbox state could not be decoded: "@
                    } else {
                        "recovery-pending paused sandbox could not be decoded: "@
                    },
                )
            },
            (LoadStep::Decode { record }, LoadEvent::Decoded { decoded }) => self.takes_decoded(
                record,
                decoded,
                codecs::metadata_with_runtime(record.metadata, decoded->Ok_0),
                "paused sandbox state could not be decoded: "@,
            ),
            (LoadStep::PublishRestored { record }, LoadEvent::Published { published: Ok(_) }) => {
                self == (LoadStep::Continue { record })
            },
            (LoadStep::Continue { record }, LoadEvent::Looked { boot_id }) => {
                let looked = looked_at(record@, boot_id);
                if boot_changes(record@, boot_id) {
                    self matches LoadStep::PublishLooked { record: found } && found@ == looked
                } else {
                    self.settles(looked, node_mode)
                }
            },
            (LoadStep::PublishLooked { record }, LoadEvent::Published { published: Ok(_) }) => {
                self.settles(record@, node_mode)
            },
            (
                LoadStep::PublishRestored { .. } | LoadStep::PublishLooked { .. },
                LoadEvent::Published { published: Err(error) },
            ) => self == (LoadStep::Failed { error }),
            (LoadStep::Store { .. }, LoadEvent::Stored { stored }) => self == match stored {
                Ok(_) => LoadStep::Skipped,
                Err(error) => LoadStep::Failed { error },
            },
            _ => self == before,
        }
    }

    /// Goes on with what came of a step.
    pub fn next(self, node_mode: VirtualizationMode, event: LoadEvent) -> (next: LoadStep)
        ensures
            next.follows(self, node_mode, event),
    {
        match (self, event) {
            (LoadStep::DecodeGuarded { record, interrupted }, LoadEvent::Decoded { decoded }) => {
                finish_guarded_load(record, interrupted, decoded).into_step()
            },
            (LoadStep::Decode { record }, LoadEvent::Decoded { decoded }) => {
                finish_load(record, decoded).into_step()
            },
            (LoadStep::PublishRestored { record }, LoadEvent::Published { published }) => {
                match published {
                    Ok(_) => LoadStep::Continue { record },
                    Err(error) => LoadStep::Failed { error },
                }
            },
            (LoadStep::Continue { record }, LoadEvent::Looked { boot_id }) => {
                let look = look_at_boot(record, &boot_id);
                if look.publish {
                    LoadStep::PublishLooked { record: look.record }
                } else {
                    load_reconciled_record(look.record, node_mode)
                }
            },
            (LoadStep::PublishLooked { record }, LoadEvent::Published { published }) => {
                match published {
                    Ok(_) => load_reconciled_record(record, node_mode),
                    Err(error) => LoadStep::Failed { error },
                }
            },
            (LoadStep::Store { .. }, LoadEvent::Stored { stored }) => match stored {
                Ok(_) => LoadStep::Skipped,
                Err(error) => LoadStep::Failed { error },
            },
            (step, _) => step,
        }
    }

    /// Whether the load is over.
    pub open spec fn is_over(self) -> bool {
        self is Complete || self is Skipped || self is Failed
    }

    /// What came of the load.
    pub fn finish(self) -> (outcome: PersistenceResult<Option<SandboxMetadata>>)
        requires
            self.is_over(),
        ensures
            match self {
                LoadStep::Complete { metadata } => outcome == Ok::<
                    Option<SandboxMetadata>,
                    SandboxPersistenceError,
                >(Some(metadata)),
                LoadStep::Failed { error } => outcome == Err::<
                    Option<SandboxMetadata>,
                    SandboxPersistenceError,
                >(error),
                _ => outcome == Ok::<Option<SandboxMetadata>, SandboxPersistenceError>(None),
            },
    {
        match self {
            LoadStep::Complete { metadata } => Ok(Some(metadata)),
            LoadStep::Failed { error } => Err(error),
            _ => Ok(None),
        }
    }
}

// ---------------------------------------------------------------------------------------------
// Laws
// ---------------------------------------------------------------------------------------------

/// Guarded metadata can neither be resumed nor be removed, with or without its runtime state.
pub proof fn guarded_metadata_stays_guarded(metadata: SandboxMetadata, state: PausedStateRef)
    ensures
        codecs::guarded(metadata).resume_recovery_pending,
        !codecs::guarded(metadata).paused_runtime_stopped,
        codecs::guarded(codecs::metadata_with_runtime(metadata, state)).resume_recovery_pending,
        !codecs::guarded(codecs::metadata_with_runtime(metadata, state)).paused_runtime_stopped,
        codecs::guarded(codecs::metadata_without_runtime(metadata)).resume_recovery_pending,
        !codecs::guarded(codecs::metadata_without_runtime(metadata)).paused_runtime_stopped,
{
}

/// A resume that was interrupted in this very boot, or in a boot that nobody took down, is never
/// taken for a finished pause.
pub proof fn interrupted_resumes_wait_for_a_reboot(record: RecordView, current_boot_id: Option<String>)
    requires
        record.lifecycle is Resuming,
        record.resuming_boot_id is None || current_boot_id is None
            || record.resuming_boot_id->0@ == current_boot_id->0@,
    ensures
        !is_restorable(record, current_boot_id),
{
}

/// A record whose last write is uncertain, or whose sandbox was resumed, is never restored: no
/// reboot proves that the writes of a resumed guest were kept.
pub proof fn uncertain_records_are_not_restored(record: RecordView, current_boot_id: Option<String>)
    requires
        needs_recovery(record),
    ensures
        !is_restorable(record, current_boot_id),
        record.marked().recovery_pending(),
        !record.marked().metadata.paused_runtime_stopped,
{
}

/// A restored record is an ordinary pause with its stop proof, and no boot changes it.
pub proof fn restored_records_are_settled(record: RecordView, boot_id: String)
    requires
        !record.recovery_pending(),
    ensures
        record.restored().lifecycle is Paused,
        record.restored().metadata.paused_runtime_stopped,
        !record.restored().recovery_pending(),
        record.restored().after_boot(boot_id) == record.restored(),
{
}

/// A record that may not be used is listed only as such, and its load writes no record.
pub proof fn guarded_loads_end_guarded(
    record: PersistedPausedRecord,
    interrupted: bool,
    node_mode: VirtualizationMode,
    event: LoadEvent,
    after: LoadStep,
)
    requires
        after.follows(LoadStep::DecodeGuarded { record, interrupted }, node_mode, event),
    ensures
        after is Complete || after is Store || after == (LoadStep::DecodeGuarded {
            record,
            interrupted,
        }),
        after matches LoadStep::Complete { metadata } ==> metadata.resume_recovery_pending
            && !metadata.paused_runtime_stopped,
{
}

/// A record is decoded only in the form in which it was published last: what a restart learns of a
/// record is durable before its sandbox is listed.
pub proof fn loads_publish_before_they_list(
    before: LoadStep,
    node_mode: VirtualizationMode,
    event: LoadEvent,
    after: LoadStep,
)
    requires
        after.follows(before, node_mode, event),
        before is PublishRestored || before is PublishLooked || before is Continue,
        after is Decode || after is Complete,
    ensures
        match before {
            LoadStep::PublishLooked { record } => {
                &&& event matches LoadEvent::Published { published: Ok(_) }
                &&& after.settles(record@, node_mode)
            },
            LoadStep::Continue { record } => {
                &&& event matches LoadEvent::Looked { boot_id }
                &&& !boot_changes(record@, boot_id)
                &&& after.settles(record@, node_mode)
            },
            _ => false,
        },
{
}

/// Whatever a load lists agrees with the metadata of the record in every setting: the sandbox is
/// paused, and its runtime state is the one that was decoded. A record that could be used is listed
/// as usable as it was, and a record of another mode is listed without a runtime state.
pub proof fn listed_sandboxes_keep_their_settings(
    before: LoadStep,
    record: PersistedPausedRecord,
    node_mode: VirtualizationMode,
    event: LoadEvent,
    after: LoadStep,
)
    requires
        before == (LoadStep::Decode { record }) || before == (LoadStep::DecodeGuarded {
            record,
            interrupted: true,
        }) || before == (LoadStep::DecodeGuarded { record, interrupted: false }) || before == (
        LoadStep::PublishLooked { record }) || before == (LoadStep::Continue { record }),
        after.follows(before, node_mode, event),
    ensures
        after matches LoadStep::Complete { metadata } ==> {
            &&& metadata.same_settings(record.metadata)
            &&& metadata.state is Paused
            &&& before is Decode || before is DecodeGuarded ==> (event matches LoadEvent::Decoded {
                decoded,
            } && decoded matches Ok(state) && metadata.paused_state == Some(state))
            &&& before is PublishLooked || before is Continue ==> metadata.paused_state is None
                && record.metadata.virtualization_mode != node_mode
            &&& !(before is DecodeGuarded) ==> metadata.resume_recovery_pending
                == record.metadata.resume_recovery_pending
            &&& before is Decode ==> metadata.paused_runtime_stopped
                == record.metadata.paused_runtime_stopped
        },
        before is Decode || before is DecodeGuarded ==> (event matches LoadEvent::Decoded { decoded }
            ==> (after is Complete <==> decoded is Ok && (record.version == 1 || record.version == 2))
            && (after is Complete || after is Store)),
        after matches LoadStep::Decode { record: next } ==> next.metadata.same_settings(
            record.metadata,
        ) && next.artifact_root@ == record.artifact_root@ && next.state == record.state
            && next.metadata.virtualization_mode == node_mode || before == after,
{
    match event {
        LoadEvent::Looked { boot_id: Some(boot_id) } => {
            paused_transactions::transactions_keep_the_checkpoint(record@, boot_id);
        },
        _ => {},
    }
}

/// A resume that was interrupted comes back as a pause only after a reboot, and a record comes into
/// doubt by an uncertain write or a resume and by nothing else.
pub proof fn only_doubtful_records_are_guarded(record: RecordView, current_boot_id: Option<String>)
    ensures
        needs_recovery(record) <==> record.commit_state is Prepared
            || record.metadata.resume_recovery_pending || record.lifecycle is Resumed,
        record.recovery_pending() <==> record.commit_state is Prepared
            || record.metadata.resume_recovery_pending,
        is_restorable(record, current_boot_id) <==> record.commit_state is Committed
            && !record.metadata.resume_recovery_pending && record.lifecycle is Resuming
            && record.resuming_boot_id is Some && current_boot_id is Some
            && record.resuming_boot_id->0@ != current_boot_id->0@,
{
}

/// A record that was restored is published before it is gone on with; one that a look at the boot
/// changed is published as changed; and a record of the mode of the node goes on to be decoded. A
/// write that fails ends the load with its error, and a record that cannot be decoded is stored as
/// such and left out.
pub proof fn loads_go_on_step_by_step(
    before: LoadStep,
    record: PersistedPausedRecord,
    node_mode: VirtualizationMode,
    event: LoadEvent,
    after: LoadStep,
    error: SandboxPersistenceError,
)
    requires
        after.follows(before, node_mode, event),
    ensures
        before == (LoadStep::PublishRestored { record }) && event == (LoadEvent::Published {
            published: Ok(()),
        }) ==> after == (LoadStep::Continue { record }),
        before is PublishRestored || before is PublishLooked ==> (event == (LoadEvent::Published {
            published: Err(error),
        }) ==> after == (LoadStep::Failed { error })),
        before == (LoadStep::Continue { record }) ==> (event matches LoadEvent::Looked { boot_id } ==> {
            let unproven = record.lifecycle is Paused && record.commit_state is Committed
                && !record.metadata.resume_recovery_pending && !record.metadata.paused_runtime_stopped;
            let changed = boot_id is Some && unproven && (record.unproven_stop_boot_id is None
                || record.unproven_stop_boot_id->0@ != boot_id->0@);
            &&& changed <==> after is PublishLooked
            &&& !changed && record.metadata.virtualization_mode == node_mode ==> (
            after matches LoadStep::Decode { record: next } && next@ == record@)
            &&& !changed && record.metadata.virtualization_mode != node_mode ==> after is Complete
            &&& after matches LoadStep::PublishLooked { record: next } ==> {
                &&& record.unproven_stop_boot_id is None ==> next.unproven_stop_boot_id == boot_id
                    && !next.metadata.paused_runtime_stopped
                &&& record.unproven_stop_boot_id is Some ==> next.metadata.paused_runtime_stopped
                    && next.unproven_stop_boot_id is None
            }
        }),
        before == (LoadStep::PublishLooked { record }) && event == (LoadEvent::Published {
            published: Ok(()),
        }) ==> if record.metadata.virtualization_mode == node_mode {
            after matches LoadStep::Decode { record: next } && next@ == record@
        } else {
            after is Complete
        },
        before is Store && event == (LoadEvent::Stored { stored: Ok(()) }) ==> after is Skipped,
        before is Store && event == (LoadEvent::Stored { stored: Err(error) }) ==> after == (
        LoadStep::Failed { error }),
        before is Complete || before is Skipped || before is Failed ==> after == before,
{
}

/// A state that cannot be decoded is told with what was being done when it was found: taking up an
/// interrupted resume, looking after a pending recovery, or loading a pause.
pub proof fn undecodable_states_tell_what_was_done(
    before: LoadStep,
    record: PersistedPausedRecord,
    node_mode: VirtualizationMode,
    decoded: Result<PausedStateRef, String>,
    after: LoadStep,
)
    requires
        after.follows(before, node_mode, LoadEvent::Decoded { decoded }),
        codecs::paused_state_error(record.version, decoded) is Some,
    ensures
        before == (LoadStep::DecodeGuarded { record, interrupted: true }) ==> {
            &&& after is Store
            &&& after->entry.reason@
                == "interrupted resume paused sandbox state could not be decoded: "@
                + codecs::paused_state_error(record.version, decoded)->0.shown()
        },
        before == (LoadStep::DecodeGuarded { record, interrupted: false }) ==> {
            &&& after is Store
            &&& after->entry.reason@ == "recovery-pending paused sandbox could not be decoded: "@
                + codecs::paused_state_error(record.version, decoded)->0.shown()
        },
        before == (LoadStep::Decode { record }) ==> {
            &&& after is Store
            &&& after->entry.reason@ == "paused sandbox state could not be decoded: "@
                + codecs::paused_state_error(record.version, decoded)->0.shown()
        },
        after is Store && (before == (LoadStep::Decode { record }) || before is DecodeGuarded)
            ==> after->entry.requires_manual_recovery,
{
}

} // verus!
