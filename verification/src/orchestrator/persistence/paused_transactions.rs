//! Transaction states of the records of paused sandboxes.

use crate::ids::SandboxId;
use crate::orchestrator::metadata::SandboxMetadata;
use crate::orchestrator::persistence::codecs::{PersistedPausedRecord, RecordView};
use crate::orchestrator::persistence::error::{
    PersistenceResult, RecordFault, SandboxPersistenceError,
};
use crate::text;
use vstd::prelude::*;

verus! {

#[derive(Clone, Copy, Debug, PartialEq, Eq, Structural)]
pub enum PersistedPausedLifecycle {
    Paused,
    /// A resume has started but has not reached its durable-success point.
    Resuming,
    /// The resumed guest was published as running. The final generation remains available for the
    /// next incremental pause or for crash recovery.
    Resumed,
}

impl PersistedPausedLifecycle {
    pub open spec fn name_text(self) -> Seq<char> {
        match self {
            PersistedPausedLifecycle::Paused => "Paused"@,
            PersistedPausedLifecycle::Resuming => "Resuming"@,
            PersistedPausedLifecycle::Resumed => "Resumed"@,
        }
    }

    pub fn name(self) -> (name: &'static str)
        ensures
            name@ == self.name_text(),
    {
        match self {
            PersistedPausedLifecycle::Paused => "Paused",
            PersistedPausedLifecycle::Resuming => "Resuming",
            PersistedPausedLifecycle::Resumed => "Resumed",
        }
    }
}

#[derive(Clone, Copy, Debug, PartialEq, Eq, Structural)]
pub enum PersistedPausedCommitState {
    Prepared,
    Committed,
}

/// What looking at the current boot of the host did to a record.
#[derive(Clone, Copy, Debug, PartialEq, Eq, Structural)]
pub enum StopProofReconciliation {
    Unchanged,
    ObservationRecorded,
    RuntimeAbsent,
}

/// The boot identifier in what the kernel reports, where it reports one.
pub fn host_boot_id(reported: Option<String>) -> (boot_id: Option<String>)
    ensures
        match boot_id {
            Some(boot_id) => reported matches Some(reported) && boot_id@ == text::trimmed_text(
                reported@,
            ) && boot_id@.len() > 0,
            None => reported matches Some(reported) ==> text::trimmed_text(reported@).len() == 0,
        },
{
    match reported {
        Some(reported) => {
            let boot_id = text::trim(reported.as_str());
            if boot_id.as_str().is_empty() {
                None
            } else {
                Some(boot_id)
            }
        },
        None => None,
    }
}

/// Whether a host has provably been rebooted between two observations of its boot identifier. A
/// missing identifier proves nothing.
pub open spec fn is_reboot(recorded: Option<String>, current: Option<String>) -> bool {
    match (recorded, current) {
        (Some(recorded), Some(current)) => recorded@ != current@,
        _ => false,
    }
}

/// A changed boot identifier proves that no guest of an interrupted earlier process is alive.
pub fn host_reboot_proves_runtime_absent(
    recorded_boot_id: &Option<String>,
    current_boot_id: &Option<String>,
) -> (proven: bool)
    ensures
        proven == is_reboot(*recorded_boot_id, *current_boot_id),
{
    match (recorded_boot_id, current_boot_id) {
        (Some(recorded), Some(current)) => *recorded != *current,
        _ => false,
    }
}

impl RecordView {
    /// Whether this record is certain, and yet nothing says that its runtime was stopped.
    pub open spec fn lacks_stop_proof(self) -> bool {
        &&& self.lifecycle is Paused
        &&& self.commit_state is Committed
        &&& !self.metadata.resume_recovery_pending
        &&& !self.metadata.paused_runtime_stopped
    }

    /// This record after a look at the current boot of the host.
    pub open spec fn after_boot(self, boot_id: String) -> RecordView {
        if !self.lacks_stop_proof() {
            self
        } else {
            match self.unproven_stop_boot_id {
                Some(observed) => if observed@ != boot_id@ {
                    RecordView {
                        unproven_stop_boot_id: None,
                        metadata: SandboxMetadata { paused_runtime_stopped: true, ..self.metadata },
                        ..self
                    }
                } else {
                    self
                },
                None => RecordView { unproven_stop_boot_id: Some(boot_id), ..self },
            }
        }
    }

    /// What that look did.
    pub open spec fn boot_reconciliation(self, boot_id: String) -> StopProofReconciliation {
        if !self.lacks_stop_proof() {
            StopProofReconciliation::Unchanged
        } else {
            match self.unproven_stop_boot_id {
                Some(observed) => if observed@ != boot_id@ {
                    StopProofReconciliation::RuntimeAbsent
                } else {
                    StopProofReconciliation::Unchanged
                },
                None => StopProofReconciliation::ObservationRecorded,
            }
        }
    }

    /// This record, restored to a pause whose runtime is known to be gone.
    pub open spec fn restored(self) -> RecordView {
        RecordView {
            lifecycle: PersistedPausedLifecycle::Paused,
            resuming_boot_id: None,
            unproven_stop_boot_id: None,
            metadata: SandboxMetadata { paused_runtime_stopped: true, ..self.metadata },
            ..self
        }
    }

    /// This record, once its runtime was positively stopped.
    pub open spec fn stopped(self) -> RecordView {
        RecordView {
            unproven_stop_boot_id: None,
            metadata: SandboxMetadata { paused_runtime_stopped: true, ..self.metadata },
            ..self
        }
    }

    /// This record while a resume is under way.
    pub open spec fn resuming(self, boot_id: String) -> RecordView {
        RecordView {
            lifecycle: PersistedPausedLifecycle::Resuming,
            resuming_boot_id: Some(boot_id),
            metadata: SandboxMetadata { paused_runtime_stopped: false, ..self.metadata },
            ..self
        }
    }

    /// This record after a resume was given up.
    pub open spec fn rolled_back(self) -> RecordView {
        RecordView {
            lifecycle: PersistedPausedLifecycle::Paused,
            resuming_boot_id: None,
            metadata: SandboxMetadata { paused_runtime_stopped: false, ..self.metadata },
            ..self
        }
    }

    /// This record after a resume was published.
    pub open spec fn resumed(self) -> RecordView {
        RecordView {
            lifecycle: PersistedPausedLifecycle::Resumed,
            resuming_boot_id: None,
            ..self
        }
    }
}

impl PersistedPausedRecord {
    /// Looks at the current boot of the host. A record without stop proof first remembers the boot
    /// in which it was seen; a later boot then proves that its runtime is gone.
    pub fn reconcile_stop_proof_for_boot(&mut self, current_boot_id: &String) -> (outcome:
        StopProofReconciliation)
        ensures
            final(self)@ == old(self)@.after_boot(*current_boot_id),
            outcome == old(self)@.boot_reconciliation(*current_boot_id),
    {
        if self.lifecycle != PersistedPausedLifecycle::Paused || self.commit_state
            != PersistedPausedCommitState::Committed || self.metadata.resume_recovery_pending
            || self.metadata.paused_runtime_stopped {
            return StopProofReconciliation::Unchanged;
        }
        let seen_in_other_boot = match &self.unproven_stop_boot_id {
            Some(observed) => *observed != *current_boot_id,
            None => {
                self.unproven_stop_boot_id = Some(current_boot_id.clone());
                return StopProofReconciliation::ObservationRecorded;
            },
        };
        if seen_in_other_boot {
            self.unproven_stop_boot_id = None;
            self.metadata.paused_runtime_stopped = true;
            StopProofReconciliation::RuntimeAbsent
        } else {
            StopProofReconciliation::Unchanged
        }
    }

    pub fn restore(&mut self)
        ensures
            final(self)@ == old(self)@.restored(),
    {
        self.lifecycle = PersistedPausedLifecycle::Paused;
        self.resuming_boot_id = None;
        self.unproven_stop_boot_id = None;
        self.metadata.paused_runtime_stopped = true;
    }

    /// Takes down that the runtime of a paused sandbox was positively stopped.
    pub fn mark_paused_runtime_stopped(&mut self, sandbox_id: SandboxId) -> (outcome:
        PersistenceResult<()>)
        ensures
            match outcome {
                Ok(_) => old(self).lifecycle is Paused && final(self)@ == old(self)@.stopped(),
                Err(error) => !(old(self).lifecycle is Paused) && final(self)@ == old(self)@
                    && error.is_invalid(
                    RecordFault::StopProofOutsidePause {
                        sandbox_id,
                        lifecycle: old(self).lifecycle,
                    },
                ),
            },
    {
        if self.lifecycle != PersistedPausedLifecycle::Paused {
            return Err(
                SandboxPersistenceError::invalid(
                    RecordFault::StopProofOutsidePause { sandbox_id, lifecycle: self.lifecycle },
                ),
            );
        }
        self.metadata.paused_runtime_stopped = true;
        self.unproven_stop_boot_id = None;
        Ok(())
    }

    /// Takes down that a resume is about to start in this boot.
    pub fn mark_resuming(&mut self, boot_id: String)
        ensures
            final(self)@ == old(self)@.resuming(boot_id),
    {
        self.lifecycle = PersistedPausedLifecycle::Resuming;
        self.resuming_boot_id = Some(boot_id);
        self.metadata.paused_runtime_stopped = false;
    }

    /// Takes down that a resume was given up; whether its runtime is gone is not known by that.
    pub fn rollback_resuming(&mut self)
        ensures
            final(self)@ == old(self)@.rolled_back(),
    {
        self.lifecycle = PersistedPausedLifecycle::Paused;
        self.resuming_boot_id = None;
        self.metadata.paused_runtime_stopped = false;
    }
}

/// The boot under which a resume may be taken down.
pub fn require_boot_id(sandbox_id: SandboxId, boot_id: Option<String>) -> (outcome: PersistenceResult<
    String,
>)
    ensures
        match outcome {
            Ok(found) => boot_id == Some(found),
            Err(error) => boot_id is None && error.is_invalid(
                RecordFault::BootIdUnavailable { sandbox_id },
            ),
        },
{
    match boot_id {
        Some(boot_id) => Ok(boot_id),
        None => Err(
            SandboxPersistenceError::invalid(RecordFault::BootIdUnavailable { sandbox_id }),
        ),
    }
}

/// What has to be done to the record of a resumed sandbox before its index is dropped.
#[derive(Clone, Copy, Debug, PartialEq, Eq, Structural)]
pub enum ResumeFinalization {
    /// Publish the record in its new form, then drop the index.
    PublishAndDrop,
    /// Drop the index.
    Drop,
}

/// Concludes a resume. The last generation stays: the next incremental pause still reads it, and
/// a restart can restore it.
pub fn finalize_resumed_record(record: &mut PersistedPausedRecord, sandbox_id: SandboxId) -> (outcome:
    PersistenceResult<ResumeFinalization>)
    ensures
        match outcome {
            Ok(ResumeFinalization::PublishAndDrop) => {
                &&& !old(record)@.recovery_pending()
                &&& old(record).lifecycle is Resuming
                &&& final(record)@ == old(record)@.resumed()
            },
            Ok(ResumeFinalization::Drop) => {
                &&& !old(record)@.recovery_pending()
                &&& old(record).lifecycle is Resumed
                &&& final(record)@ == old(record)@
            },
            Err(error) => {
                &&& final(record)@ == old(record)@
                &&& if old(record)@.recovery_pending() {
                    error.is_invalid(RecordFault::CleanWhileRecoveryPending { sandbox_id })
                } else {
                    &&& old(record).lifecycle is Paused
                    &&& error.is_invalid(RecordFault::FinalizeBeforeResuming { sandbox_id })
                }
            },
        },
{
    if record.is_recovery_pending() {
        return Err(
            SandboxPersistenceError::invalid(RecordFault::CleanWhileRecoveryPending { sandbox_id }),
        );
    }
    match record.lifecycle {
        PersistedPausedLifecycle::Resuming => {
            record.lifecycle = PersistedPausedLifecycle::Resumed;
            record.resuming_boot_id = None;
            Ok(ResumeFinalization::PublishAndDrop)
        },
        PersistedPausedLifecycle::Resumed => Ok(ResumeFinalization::Drop),
        PersistedPausedLifecycle::Paused => Err(
            SandboxPersistenceError::invalid(RecordFault::FinalizeBeforeResuming { sandbox_id }),
        ),
    }
}

// ---------------------------------------------------------------------------------------------
// Laws
// ---------------------------------------------------------------------------------------------

/// Any number of looks within one boot never proves that a runtime is gone.
pub proof fn one_boot_proves_nothing(record: RecordView, boot_id: String)
    requires
        !record.metadata.paused_runtime_stopped,
        record.unproven_stop_boot_id is None || record.unproven_stop_boot_id->0@ == boot_id@,
    ensures
        !record.after_boot(boot_id).metadata.paused_runtime_stopped,
        record.after_boot(boot_id).after_boot(boot_id) == record.after_boot(boot_id),
        record.after_boot(boot_id).boot_reconciliation(boot_id) is Unchanged,
{
}

/// A record without stop proof that was seen in one boot and is seen again in another has its
/// proof, and no further boot changes it.
pub proof fn a_later_boot_proves_absence(record: RecordView, first: String, later: String, last: String)
    requires
        record.lacks_stop_proof(),
        record.unproven_stop_boot_id is None || record.unproven_stop_boot_id->0@ == first@,
        first@ != later@,
    ensures
        record.after_boot(first).after_boot(later).metadata.paused_runtime_stopped,
        record.after_boot(first).after_boot(later).after_boot(last) == record.after_boot(
            first,
        ).after_boot(later),
{
}

/// A boot never changes a record whose last write is uncertain, nor one that is being resumed.
pub proof fn boots_leave_uncertain_records_alone(record: RecordView, boot_id: String)
    requires
        record.recovery_pending() || !(record.lifecycle is Paused),
    ensures
        record.after_boot(boot_id) == record,
{
}

/// Giving up a resume brings the record back, except for the stop proof, which a resume ends.
pub proof fn a_rollback_undoes_a_resume(record: RecordView, boot_id: String)
    requires
        record.lifecycle is Paused,
        record.resuming_boot_id is None,
    ensures
        record.resuming(boot_id).rolled_back() == (RecordView {
            metadata: SandboxMetadata { paused_runtime_stopped: false, ..record.metadata },
            ..record
        }),
        record.resuming(boot_id).rolled_back().stopped().metadata == (SandboxMetadata {
            paused_runtime_stopped: true,
            ..record.metadata
        }),
{
}

/// While a resume is under way, and after it was given up, nothing says that the runtime is gone.
pub proof fn resumes_drop_the_stop_proof(record: RecordView, boot_id: String)
    ensures
        !record.resuming(boot_id).metadata.paused_runtime_stopped,
        !record.resuming(boot_id).rolled_back().metadata.paused_runtime_stopped,
        !record.resuming(boot_id).resumed().metadata.paused_runtime_stopped,
{
}

/// No transaction of a record touches the sandbox, the generation, the checkpoint or the settings
/// that the record is about.
pub proof fn transactions_keep_the_checkpoint(record: RecordView, boot_id: String)
    ensures
        is_about_the_same(record.after_boot(boot_id), record),
        is_about_the_same(record.restored(), record),
        is_about_the_same(record.stopped(), record),
        is_about_the_same(record.resuming(boot_id), record),
        is_about_the_same(record.rolled_back(), record),
        is_about_the_same(record.resumed(), record),
{
}

/// Whether two records are about the same checkpoint of the same sandbox and differ at most in how
/// far its pause or resume has come.
pub open spec fn is_about_the_same(left: RecordView, right: RecordView) -> bool {
    &&& left.version == right.version
    &&& left.commit_state == right.commit_state
    &&& left.checkpoint_at_unix_ms == right.checkpoint_at_unix_ms
    &&& left.artifact_root == right.artifact_root
    &&& left.artifact_spelling == right.artifact_spelling
    &&& left.state == right.state
    &&& left.metadata.same_settings(right.metadata)
    &&& left.metadata.state == right.metadata.state
    &&& left.metadata.paused_state == right.metadata.paused_state
    &&& left.metadata.resume_recovery_pending == right.metadata.resume_recovery_pending
}

/// How far a pause or a resume has come is told by the record: a resume remembers its boot while it
/// is under way and no longer, a stopped runtime is proven, and only a look at another boot, a stop
/// or a restoration proves anything.
pub proof fn records_tell_how_far_a_resume_has_come(record: RecordView, boot_id: String)
    ensures
        record.resuming(boot_id).lifecycle is Resuming,
        record.resuming(boot_id).resuming_boot_id == Some(boot_id),
        record.resuming(boot_id).unproven_stop_boot_id == record.unproven_stop_boot_id,
        record.rolled_back().lifecycle is Paused,
        record.rolled_back().resuming_boot_id is None,
        record.rolled_back().unproven_stop_boot_id == record.unproven_stop_boot_id,
        record.resumed().lifecycle is Resumed,
        record.resumed().resuming_boot_id is None,
        record.resumed().metadata == record.metadata,
        record.stopped().lifecycle == record.lifecycle,
        record.stopped().metadata.paused_runtime_stopped,
        record.stopped().unproven_stop_boot_id is None,
        record.stopped().resuming_boot_id == record.resuming_boot_id,
        record.restored().lifecycle is Paused,
        record.restored().metadata.paused_runtime_stopped,
        record.restored().resuming_boot_id is None && record.restored().unproven_stop_boot_id is None,
        record.after_boot(boot_id).lifecycle == record.lifecycle,
        record.after_boot(boot_id).resuming_boot_id == record.resuming_boot_id,
        record.after_boot(boot_id).metadata.paused_runtime_stopped
            && !record.metadata.paused_runtime_stopped ==> (record.unproven_stop_boot_id matches Some(
            seen,
        ) && seen@ != boot_id@),
{
}

/// What a look at the boot tells is what it did: it changes the record, or tells that it did not;
/// a first look remembers the boot, and a proof comes only with another boot.
pub proof fn looks_tell_what_they_did(record: RecordView, boot_id: String)
    ensures
        record.boot_reconciliation(boot_id) is Unchanged <==> record.after_boot(boot_id) == record,
        record.boot_reconciliation(boot_id) is RuntimeAbsent <==> record.after_boot(
            boot_id,
        ).metadata.paused_runtime_stopped && !record.metadata.paused_runtime_stopped,
        record.boot_reconciliation(boot_id) is ObservationRecorded ==> record.after_boot(
            boot_id,
        ).unproven_stop_boot_id == Some(boot_id) && record.unproven_stop_boot_id is None,
        record.lifecycle is Paused && record.commit_state is Committed
            && !record.metadata.resume_recovery_pending && !record.metadata.paused_runtime_stopped
            && record.unproven_stop_boot_id is None ==> record.boot_reconciliation(
            boot_id,
        ) is ObservationRecorded,
{
}

/// A reboot takes two known boots that differ, in whichever order they are seen.
pub proof fn reboots_take_two_known_boots(first: Option<String>, second: Option<String>)
    ensures
        is_reboot(first, second) == is_reboot(second, first),
        !is_reboot(first, first),
        first is None || second is None ==> !is_reboot(first, second),
        first is Some && second is Some ==> (is_reboot(first, second) <==> first->0@ != second->0@),
{
}

} // verus!
