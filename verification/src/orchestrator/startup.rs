//! What a node makes of the records that it finds when it starts.

use crate::ids::SandboxId;
use crate::orchestrator::create_idempotency;
use crate::orchestrator::error::{InternalFault, OrchestratorError};
use crate::orchestrator::metadata::SandboxMetadata;
use crate::orchestrator::persistence::error::{PersistenceResult, SandboxPersistenceError};
use crate::orchestrator::persistence::journal::{
    CreateIdempotencyRecord, CreateIdempotencyRecordState,
};
use crate::orchestrator::types;
use crate::orchestrator::types::{
    CreateSandboxIdempotency, ImageOwner, PausedStateRef, SandboxState,
};
use crate::text;
use vstd::prelude::*;

verus! {

/// The position of the record with a key among those from `from` on.
pub open spec fn position_of(records: Seq<CreateIdempotencyRecord>, key: Seq<char>, from: int) -> Option<
    int,
>
    decreases records.len() - from,
{
    if from >= records.len() {
        None
    } else if records[from].key@ == key {
        Some(from)
    } else {
        position_of(records, key, from + 1)
    }
}

proof fn position_is_first(records: Seq<CreateIdempotencyRecord>, key: Seq<char>, from: int)
    requires
        0 <= from <= records.len(),
    ensures
        match position_of(records, key, from) {
            Some(at) => from <= at < records.len() && records[at].key@ == key && forall|k: int|
                from <= k < at ==> (#[trigger] records[k]).key@ != key,
            None => forall|k: int| from <= k < records.len() ==> (#[trigger] records[k]).key@ != key,
        },
    decreases records.len() - from,
{
    if from < records.len() && records[from].key@ != key {
        position_is_first(records, key, from + 1);
    }
}

fn find_record(records: &Vec<CreateIdempotencyRecord>, key: &str) -> (position: Option<usize>)
    ensures
        match position {
            Some(at) => position_of(records@, key@, 0) == Some(at as int) && at < records@.len()
                && records@[at as int].key@ == key@,
            None => position_of(records@, key@, 0) is None,
        },
{
    let mut at: usize = 0;
    while at < records.len()
        invariant
            at <= records@.len(),
            position_of(records@, key@, 0) == position_of(records@, key@, at as int),
        decreases records@.len() - at,
    {
        if text::text_equal(records[at].key.as_str(), key) {
            return Some(at);
        }
        at += 1;
    }
    None
}

/// Whether no key is there twice.
pub open spec fn has_distinct_keys(records: Seq<CreateIdempotencyRecord>) -> bool {
    forall|i: int, j: int|
        0 <= i < j < records.len() ==> (#[trigger] records[i]).key@ != (#[trigger] records[j]).key@
}

/// What is wrong with a record, given those before it.
pub open spec fn record_fault(records: Seq<CreateIdempotencyRecord>, at: int) -> Option<InternalFault> {
    let record = records[at];
    match types::create_identity_fault(record.key@, record.request_fingerprint@) {
        Some(fault) => Some(
            InternalFault::InvalidDurableCreate { sandbox_id: record.sandbox_id, fault },
        ),
        None => if position_of(records.take(at), record.key@, 0) is Some {
            Some(InternalFault::DuplicateCreateKey { key: record.key })
        } else {
            None
        },
    }
}

/// Takes the durable create records over, unless one of them is unusable or there twice.
pub fn validate_durable_create_records(records: Vec<CreateIdempotencyRecord>) -> (outcome: Result<
    Vec<CreateIdempotencyRecord>,
    OrchestratorError,
>)
    ensures
        match outcome {
            Ok(durable) => {
                &&& durable@ == records@
                &&& has_distinct_keys(durable@)
                &&& forall|i: int|
                    0 <= i < records@.len() ==> (#[trigger] record_fault(records@, i)) is None
            },
            Err(error) => exists|i: int|
                {
                    &&& 0 <= i < records@.len()
                    &&& (#[trigger] record_fault(records@, i)) matches Some(fault)
                    &&& error == (OrchestratorError::InternalError { fault })
                    &&& forall|j: int| 0 <= j < i ==> (#[trigger] record_fault(records@, j)) is None
                },
        },
{
    let ghost all = records@;
    let mut pending = records;
    let mut durable: Vec<CreateIdempotencyRecord> = Vec::new();
    while pending.len() > 0
        invariant
            all == records@,
            durable@ == all.take(durable@.len() as int),
            pending@ == all.skip(durable@.len() as int),
            durable@.len() + pending@.len() == all.len(),
            has_distinct_keys(durable@),
            forall|j: int|
                0 <= j < durable@.len() ==> (#[trigger] record_fault(all, j)) is None,
        decreases pending@.len(),
    {
        let ghost at = durable@.len() as int;
        assert(pending@[0] == all[at]);
        let record = pending.remove(0);
        match CreateSandboxIdempotency::new(record.key.clone(), record.request_fingerprint.clone()) {
            Err(fault) => {
                let fault = InternalFault::InvalidDurableCreate {
                    sandbox_id: record.sandbox_id,
                    fault,
                };
                assert(record_fault(all, at) == Some(fault));
                return Err(OrchestratorError::InternalError { fault });
            },
            Ok(_) => {},
        }
        if find_record(&durable, record.key.as_str()).is_some() {
            let fault = InternalFault::DuplicateCreateKey { key: record.key };
            assert(record_fault(all, at) == Some(fault));
            return Err(OrchestratorError::InternalError { fault });
        }
        proof {
            position_is_first(durable@, record.key@, 0);
            assert(record_fault(all, at) is None);
        }
        durable.push(record);
        assert(durable@ =~= all.take(at + 1));
        assert(pending@ =~= all.skip(at + 1));
    }
    assert(durable@ =~= all);
    Ok(durable)
}

/// The create key that a paused sandbox holds.
#[derive(Debug)]
pub struct PausedKey {
    pub key: String,
    pub sandbox_id: SandboxId,
}

/// The position of a key among those from `from` on.
pub open spec fn holder_of(keys: Seq<PausedKey>, key: Seq<char>, from: int) -> Option<int>
    decreases keys.len() - from,
{
    if from >= keys.len() {
        None
    } else if keys[from].key@ == key {
        Some(from)
    } else {
        holder_of(keys, key, from + 1)
    }
}

fn find_holder(keys: &Vec<PausedKey>, key: &str) -> (position: Option<usize>)
    ensures
        match position {
            Some(at) => holder_of(keys@, key@, 0) == Some(at as int) && at < keys@.len(),
            None => holder_of(keys@, key@, 0) is None,
        },
{
    let mut at: usize = 0;
    while at < keys.len()
        invariant
            at <= keys@.len(),
            holder_of(keys@, key@, 0) == holder_of(keys@, key@, at as int),
        decreases keys@.len() - at,
    {
        if text::text_equal(keys[at].key.as_str(), key) {
            return Some(at);
        }
        at += 1;
    }
    None
}

/// Why the create key of a paused sandbox cannot be taken over.
pub open spec fn migration_fault(
    metadata: SandboxMetadata,
    paused: Seq<PausedKey>,
    durable: Seq<CreateIdempotencyRecord>,
) -> Option<InternalFault> {
    match (metadata.create_idempotency_key, metadata.create_request_fingerprint) {
        (None, None) => None,
        (Some(key), Some(fingerprint)) => {
            if types::create_identity_fault(key@, fingerprint@) is Some {
                Some(
                    InternalFault::InvalidCreateMetadata {
                        sandbox_id: metadata.id,
                        fault: types::create_identity_fault(key@, fingerprint@)->0,
                    },
                )
            } else if holder_of(paused, key@, 0) is Some {
                Some(
                    InternalFault::SharedCreateKey {
                        first: paused[holder_of(paused, key@, 0)->0].sandbox_id,
                        second: metadata.id,
                        key,
                    },
                )
            } else {
                match position_of(durable, key@, 0) {
                    None => None,
                    Some(at) => if durable[at].sandbox_id != metadata.id
                        || durable[at].request_fingerprint@ != fingerprint@ {
                        Some(InternalFault::ConflictingCreateKey { sandbox_id: metadata.id, key })
                    } else if durable[at].state is Failed {
                        Some(InternalFault::FailedCreateKey { sandbox_id: metadata.id, key })
                    } else {
                        None
                    },
                }
            }
        },
        _ => Some(InternalFault::IncompleteCreateMetadata { sandbox_id: metadata.id }),
    }
}

/// The record that a paused sandbox adds or changes: a sandbox that was paused was created.
pub open spec fn migrated_record(
    metadata: SandboxMetadata,
    durable: Seq<CreateIdempotencyRecord>,
) -> Option<CreateIdempotencyRecord> {
    match (metadata.create_idempotency_key, metadata.create_request_fingerprint) {
        (Some(key), Some(fingerprint)) => match position_of(durable, key@, 0) {
            None => Some(
                CreateIdempotencyRecord {
                    key,
                    request_fingerprint: fingerprint,
                    sandbox_id: metadata.id,
                    state: CreateIdempotencyRecordState::Succeeded,
                },
            ),
            Some(at) => if durable[at].state is Creating {
                Some(
                    CreateIdempotencyRecord {
                        state: CreateIdempotencyRecordState::Succeeded,
                        ..durable[at]
                    },
                )
            } else {
                None
            },
        },
        _ => None,
    }
}

/// The records with the one that a paused sandbox adds or changes.
pub open spec fn migrated(metadata: SandboxMetadata, durable: Seq<CreateIdempotencyRecord>) -> Seq<
    CreateIdempotencyRecord,
> {
    match migrated_record(metadata, durable) {
        Some(record) => match position_of(durable, record.key@, 0) {
            Some(at) => durable.update(at, record),
            None => durable.push(record),
        },
        None => durable,
    }
}

/// Takes the create key of a paused sandbox over, and gives out the record to write, if any.
pub fn migrate_paused_create_record(
    metadata: &SandboxMetadata,
    paused: &mut Vec<PausedKey>,
    durable: &mut Vec<CreateIdempotencyRecord>,
) -> (outcome: Result<Option<CreateIdempotencyRecord>, OrchestratorError>)
    ensures
        match outcome {
            Ok(record) => {
                &&& migration_fault(*metadata, old(paused)@, old(durable)@) is None
                &&& record == migrated_record(*metadata, old(durable)@)
                &&& final(durable)@ == migrated(*metadata, old(durable)@)
                &&& final(paused)@ == match metadata.create_idempotency_key {
                    Some(key) => old(paused)@.push(PausedKey { key, sandbox_id: metadata.id }),
                    None => old(paused)@,
                }
            },
            Err(error) => {
                &&& migration_fault(*metadata, old(paused)@, old(durable)@) matches Some(fault)
                &&& error == (OrchestratorError::InternalError { fault })
                &&& final(durable)@ == old(durable)@
                &&& final(paused)@ == old(paused)@
            },
        },
{
    let (key, fingerprint) = match (
        &metadata.create_idempotency_key,
        &metadata.create_request_fingerprint,
    ) {
        (None, None) => return Ok(None),
        (Some(key), Some(fingerprint)) => (key, fingerprint),
        _ => {
            return Err(
                OrchestratorError::InternalError {
                    fault: InternalFault::IncompleteCreateMetadata { sandbox_id: metadata.id },
                },
            );
        },
    };
    match CreateSandboxIdempotency::new(key.clone(), fingerprint.clone()) {
        Err(fault) => {
            return Err(
                OrchestratorError::InternalError {
                    fault: InternalFault::InvalidCreateMetadata { sandbox_id: metadata.id, fault },
                },
            );
        },
        Ok(_) => {},
    }
    if let Some(holder) = find_holder(paused, key.as_str()) {
        return Err(
            OrchestratorError::InternalError {
                fault: InternalFault::SharedCreateKey {
                    first: paused[holder].sandbox_id,
                    second: metadata.id,
                    key: key.clone(),
                },
            },
        );
    }
    match find_record(durable, key.as_str()) {
        Some(at) => {
            if durable[at].sandbox_id != metadata.id || !text::text_equal(
                durable[at].request_fingerprint.as_str(),
                fingerprint.as_str(),
            ) {
                return Err(
                    OrchestratorError::InternalError {
                        fault: InternalFault::ConflictingCreateKey {
                            sandbox_id: metadata.id,
                            key: key.clone(),
                        },
                    },
                );
            }
            match durable[at].state {
                CreateIdempotencyRecordState::Failed => Err(
                    OrchestratorError::InternalError {
                        fault: InternalFault::FailedCreateKey {
                            sandbox_id: metadata.id,
                            key: key.clone(),
                        },
                    },
                ),
                CreateIdempotencyRecordState::Creating => {
                    let record = CreateIdempotencyRecord {
                        state: CreateIdempotencyRecordState::Succeeded,
                        ..durable[at].copy()
                    };
                    durable.set(at, record.copy());
                    paused.push(PausedKey { key: key.clone(), sandbox_id: metadata.id });
                    Ok(Some(record))
                },
                _ => {
                    paused.push(PausedKey { key: key.clone(), sandbox_id: metadata.id });
                    Ok(None)
                },
            }
        },
        None => {
            let record = CreateIdempotencyRecord {
                key: key.clone(),
                request_fingerprint: fingerprint.clone(),
                sandbox_id: metadata.id,
                state: CreateIdempotencyRecordState::Succeeded,
            };
            durable.push(record.copy());
            paused.push(PausedKey { key: key.clone(), sandbox_id: metadata.id });
            Ok(Some(record))
        },
    }
}

/// Whether a record is that of the create of a sandbox: it holds the key, the fingerprint and the
/// identifier of the sandbox.
pub open spec fn is_record_of(record: CreateIdempotencyRecord, metadata: SandboxMetadata) -> bool {
    match (metadata.create_idempotency_key, metadata.create_request_fingerprint) {
        (Some(key), Some(fingerprint)) => {
            &&& record.key@ == key@
            &&& record.request_fingerprint@ == fingerprint@
            &&& record.sandbox_id == metadata.id
        },
        _ => false,
    }
}

/// Whether the record of the create of a sandbox is among these.
pub open spec fn is_recorded(records: Seq<CreateIdempotencyRecord>, metadata: SandboxMetadata) -> bool {
    exists|k: int| 0 <= k < records.len() && is_record_of(#[trigger] records[k], metadata)
}

/// What becomes of a create record that an earlier process left.
#[derive(Debug)]
pub enum InterruptedCreate {
    /// Delete the record and the artifacts of the sandbox: its runtime was positively stopped.
    Delete { record: CreateIdempotencyRecord },
    /// Delete the create record, which releases the key.
    Release { record: CreateIdempotencyRecord },
    /// Write the record of a create whose outcome is not known.
    Fail { record: CreateIdempotencyRecord },
    Kept { record: CreateIdempotencyRecord },
    Released { sandbox_id: SandboxId },
    Aborted { error: SandboxPersistenceError },
}

impl InterruptedCreate {
    /// How a record is dealt with.
    pub open spec fn start(record: CreateIdempotencyRecord) -> InterruptedCreate {
        match record.state {
            CreateIdempotencyRecordState::Deleting => InterruptedCreate::Delete { record },
            CreateIdempotencyRecordState::Creating => InterruptedCreate::Fail {
                record: CreateIdempotencyRecord {
                    state: CreateIdempotencyRecordState::Failed,
                    ..record
                },
            },
            _ => InterruptedCreate::Kept { record },
        }
    }

    pub fn reconcile_interrupted_create_record(record: CreateIdempotencyRecord) -> (step:
        InterruptedCreate)
        ensures
            step == InterruptedCreate::start(record),
    {
        match record.state {
            CreateIdempotencyRecordState::Deleting => InterruptedCreate::Delete { record },
            CreateIdempotencyRecordState::Creating => InterruptedCreate::Fail {
                record: CreateIdempotencyRecord {
                    state: CreateIdempotencyRecordState::Failed,
                    ..record
                },
            },
            _ => InterruptedCreate::Kept { record },
        }
    }

    /// What follows on the outcome of a step.
    pub open spec fn after(self, outcome: PersistenceResult<()>) -> InterruptedCreate {
        match self {
            InterruptedCreate::Delete { record } => match outcome {
                Ok(_) => InterruptedCreate::Release { record },
                Err(SandboxPersistenceError::ManualRecovery { .. }) => {
                    InterruptedCreate::Release { record }
                },
                Err(_) => InterruptedCreate::Fail {
                    record: CreateIdempotencyRecord {
                        state: CreateIdempotencyRecordState::Failed,
                        ..record
                    },
                },
            },
            InterruptedCreate::Release { record } => match outcome {
                Ok(_) => InterruptedCreate::Released { sandbox_id: record.sandbox_id },
                Err(error) => InterruptedCreate::Aborted { error },
            },
            InterruptedCreate::Fail { record } => match outcome {
                Ok(_) => InterruptedCreate::Kept { record },
                Err(error) => InterruptedCreate::Aborted { error },
            },
            other => other,
        }
    }

    /// Goes on with the outcome of a step. Artifacts that only an administrator may purge do not
    /// keep the key.
    pub fn next(self, outcome: PersistenceResult<()>) -> (next: InterruptedCreate)
        ensures
            next == self.after(outcome),
    {
        match self {
            InterruptedCreate::Delete { record } => match outcome {
                Ok(_) => InterruptedCreate::Release { record },
                Err(error) => if error.requires_explicit_purge() {
                    InterruptedCreate::Release { record }
                } else {
                    InterruptedCreate::Fail {
                        record: CreateIdempotencyRecord {
                            state: CreateIdempotencyRecordState::Failed,
                            ..record
                        },
                    }
                },
            },
            InterruptedCreate::Release { record } => match outcome {
                Ok(_) => InterruptedCreate::Released { sandbox_id: record.sandbox_id },
                Err(error) => InterruptedCreate::Aborted { error },
            },
            InterruptedCreate::Fail { record } => match outcome {
                Ok(_) => InterruptedCreate::Kept { record },
                Err(error) => InterruptedCreate::Aborted { error },
            },
            other => other,
        }
    }
}

/// Whether an identifier is in a list.
pub open spec fn is_listed(ids: Seq<SandboxId>, id: SandboxId) -> bool {
    exists|i: int| 0 <= i < ids.len() && #[trigger] ids[i] == id
}

fn lists(ids: &Vec<SandboxId>, id: SandboxId) -> (answer: bool)
    ensures
        answer == is_listed(ids@, id),
{
    let mut at: usize = 0;
    while at < ids.len()
        invariant
            at <= ids@.len(),
            forall|i: int| 0 <= i < at ==> #[trigger] ids@[i] != id,
        decreases ids@.len() - at,
    {
        if ids[at] == id {
            return true;
        }
        at += 1;
    }
    false
}

/// The sandboxes that were not deleted.
pub open spec fn remaining(persisted: Seq<SandboxMetadata>, deleted: Seq<SandboxId>) -> Seq<
    SandboxMetadata,
> {
    persisted.filter(|metadata: SandboxMetadata| !is_listed(deleted, metadata.id))
}

/// Leaves out the sandboxes whose deletion was completed at startup.
pub fn retain_undeleted(persisted: Vec<SandboxMetadata>, deleted: &Vec<SandboxId>) -> (kept: Vec<
    SandboxMetadata,
>)
    ensures
        kept@ == remaining(persisted@, deleted@),
{
    broadcast use vstd::seq_lib::group_filter_ensures;

    let mut persisted = persisted;
    let ghost all = persisted@;
    let ghost mut done: int = 0;
    let mut kept: Vec<SandboxMetadata> = Vec::new();
    proof {
        assert(all.take(0).filter(|metadata: SandboxMetadata| !is_listed(deleted@, metadata.id))
            =~= Seq::<SandboxMetadata>::empty());
    }
    while persisted.len() > 0
        invariant
            0 <= done <= all.len(),
            persisted@ == all.skip(done),
            kept@ == remaining(all.take(done), deleted@),
        decreases persisted@.len(),
    {
        assert(persisted@[0] == all[done]);
        let metadata = persisted.remove(0);
        proof {
            let keeps = |metadata: SandboxMetadata| !is_listed(deleted@, metadata.id);
            assert(all.take(done + 1).drop_last() =~= all.take(done));
            assert(all.take(done + 1).last() == all[done]);
            reveal(Seq::filter);
            assert(all.take(done + 1).filter(keeps) == if keeps(all[done]) {
                all.take(done).filter(keeps).push(all[done])
            } else {
                all.take(done).filter(keeps)
            });
            done = done + 1;
        }
        if !lists(deleted, metadata.id) {
            kept.push(metadata);
        }
        assert(persisted@ =~= all.skip(done));
    }
    assert(all.take(done) =~= all);
    kept
}

/// Whether the seed of the access tokens has to be there already: tokens were given out.
pub fn managed_seed_must_exist(persisted: &Vec<SandboxMetadata>) -> (answer: bool)
    ensures
        answer == exists|i: int| 0 <= i < persisted@.len() && (#[trigger] persisted@[i]).secure,
{
    let mut at: usize = 0;
    while at < persisted.len()
        invariant
            at <= persisted@.len(),
            forall|i: int| 0 <= i < at ==> !(#[trigger] persisted@[i]).secure,
        decreases persisted@.len() - at,
    {
        if persisted[at].secure {
            return true;
        }
        at += 1;
    }
    false
}

/// A paused sandbox whose images have to be protected.
#[derive(Clone, Copy, Debug, PartialEq, Eq, Structural)]
pub struct RestoredPaused {
    pub sandbox_id: SandboxId,
    pub paused_state: PausedStateRef,
}

/// The paused sandboxes, with their states, in order.
pub open spec fn paused_among(persisted: Seq<SandboxMetadata>) -> Seq<RestoredPaused>
    decreases persisted.len(),
{
    if persisted.len() == 0 {
        Seq::empty()
    } else {
        let before = paused_among(persisted.drop_last());
        let last = persisted.last();
        if last.state is Paused && last.paused_state is Some {
            before.push(
                RestoredPaused { sandbox_id: last.id, paused_state: last.paused_state->0 },
            )
        } else {
            before
        }
    }
}

/// The paused sandboxes that are protected before any image maintenance may run.
pub fn restored_paused(persisted: &Vec<SandboxMetadata>) -> (paused: Vec<RestoredPaused>)
    ensures
        paused@ == paused_among(persisted@),
{
    let mut paused: Vec<RestoredPaused> = Vec::new();
    let mut at: usize = 0;
    while at < persisted.len()
        invariant
            at <= persisted@.len(),
            paused@ == paused_among(persisted@.take(at as int)),
        decreases persisted@.len() - at,
    {
        proof {
            assert(persisted@.take(at + 1).drop_last() =~= persisted@.take(at as int));
        }
        let metadata = &persisted[at];
        if metadata.state == SandboxState::Paused {
            if let Some(paused_state) = metadata.paused_state {
                paused.push(RestoredPaused { sandbox_id: metadata.id, paused_state });
            }
        }
        at += 1;
    }
    assert(persisted@.take(at as int) =~= persisted@);
    paused
}

/// What protecting the images of the restored sandboxes does next.
#[derive(Debug)]
pub enum ProtectionStep {
    /// Protect the images of the restored sandbox at this position.
    Pin { at: usize },
    /// Drop the protection of whatever was not restored.
    ReconcilePaused,
    /// Image maintenance may run.
    Protected,
    Failed { error: OrchestratorError },
}

impl ProtectionStep {
    pub open spec fn start(restored: nat) -> ProtectionStep {
        if restored > 0 {
            ProtectionStep::Pin { at: 0 }
        } else {
            ProtectionStep::ReconcilePaused
        }
    }

    /// What follows on the outcome of a step.
    pub open spec fn after(self, restored: nat, outcome: Result<(), String>) -> ProtectionStep {
        match (self, outcome) {
            (ProtectionStep::Pin { at }, Ok(_)) => if at + 1 < restored {
                ProtectionStep::Pin { at: (at + 1) as usize }
            } else {
                ProtectionStep::ReconcilePaused
            },
            (ProtectionStep::Pin { .. }, Err(message)) => ProtectionStep::Failed {
                error: OrchestratorError::InternalError {
                    fault: InternalFault::ImagePin { owner: ImageOwner::PausedSandbox, message },
                },
            },
            (ProtectionStep::ReconcilePaused, Ok(_)) => ProtectionStep::Protected,
            (ProtectionStep::ReconcilePaused, Err(message)) => ProtectionStep::Failed {
                error: OrchestratorError::InternalError {
                    fault: InternalFault::ImageReconcile { message },
                },
            },
            _ => self,
        }
    }

    pub fn reconcile_paused_at_startup(restored: &Vec<RestoredPaused>) -> (step: ProtectionStep)
        ensures
            step == ProtectionStep::start(restored@.len()),
    {
        if restored.len() > 0 {
            ProtectionStep::Pin { at: 0 }
        } else {
            ProtectionStep::ReconcilePaused
        }
    }

    pub fn next(self, restored: &Vec<RestoredPaused>, outcome: Result<(), String>) -> (next:
        ProtectionStep)
        ensures
            next == self.after(restored@.len(), outcome),
    {
        match (self, outcome) {
            (ProtectionStep::Pin { at }, Ok(_)) => if at < restored.len() && at + 1
                < restored.len() {
                ProtectionStep::Pin { at: at + 1 }
            } else {
                ProtectionStep::ReconcilePaused
            },
            (ProtectionStep::Pin { .. }, Err(message)) => ProtectionStep::Failed {
                error: OrchestratorError::InternalError {
                    fault: InternalFault::ImagePin { owner: ImageOwner::PausedSandbox, message },
                },
            },
            (ProtectionStep::ReconcilePaused, Ok(_)) => ProtectionStep::Protected,
            (ProtectionStep::ReconcilePaused, Err(message)) => ProtectionStep::Failed {
                error: OrchestratorError::InternalError {
                    fault: InternalFault::ImageReconcile { message },
                },
            },
            (step, _) => step,
        }
    }
}

// ---------------------------------------------------------------------------------------------
// Laws
// ---------------------------------------------------------------------------------------------

/// A paused sandbox whose key was taken over has a durable record of its own that says that it was
/// created or is being deleted; and no key is there twice.
pub proof fn migrations_record_every_paused_sandbox(
    metadata: SandboxMetadata,
    paused: Seq<PausedKey>,
    durable: Seq<CreateIdempotencyRecord>,
)
    requires
        has_distinct_keys(durable),
        metadata.create_idempotency_key is Some,
        migration_fault(metadata, paused, durable) is None,
    ensures
        has_distinct_keys(migrated(metadata, durable)),
        position_of(
            migrated(metadata, durable),
            metadata.create_idempotency_key->0@,
            0,
        ) matches Some(at) && {
            let record = migrated(metadata, durable)[at];
            &&& record.sandbox_id == metadata.id
            &&& record.request_fingerprint@ == metadata.create_request_fingerprint->0@
            &&& record.state is Succeeded || record.state is Deleting
        },
{
    let key = metadata.create_idempotency_key->0;
    let after = migrated(metadata, durable);
    position_is_first(durable, key@, 0);
    position_is_first(after, key@, 0);
    match position_of(durable, key@, 0) {
        Some(at) => {
            assert(after[at].key@ == key@);
            if position_of(after, key@, 0)->0 < at {
                assert(after[position_of(after, key@, 0)->0] == durable[position_of(
                    after,
                    key@,
                    0,
                )->0]);
            }
        },
        None => {
            assert(after[durable.len() as int].key@ == key@);
            assert(forall|k: int| 0 <= k < durable.len() ==> #[trigger] after[k] == durable[k]);
        },
    }
}

/// Taking the create key of a paused sandbox over records its create and loses no other record.
pub proof fn migrations_keep_every_record(
    metadata: SandboxMetadata,
    paused: Seq<PausedKey>,
    durable: Seq<CreateIdempotencyRecord>,
    other: SandboxMetadata,
)
    requires
        has_distinct_keys(durable),
        migration_fault(metadata, paused, durable) is None,
    ensures
        metadata.create_idempotency_key is Some ==> is_recorded(
            migrated(metadata, durable),
            metadata,
        ),
        is_recorded(durable, other) ==> is_recorded(migrated(metadata, durable), other),
{
    let after = migrated(metadata, durable);
    if metadata.create_idempotency_key is Some {
        let key = metadata.create_idempotency_key->0;
        migrations_record_every_paused_sandbox(metadata, paused, durable);
        position_is_first(durable, key@, 0);
        position_is_first(after, key@, 0);
        let at = position_of(after, key@, 0)->0;
        assert(is_record_of(after[at], metadata));
    }
    if is_recorded(durable, other) {
        let k = choose|k: int| 0 <= k < durable.len() && is_record_of(#[trigger] durable[k], other);
        assert(is_record_of(after[k], other));
    }
}

/// Whatever storage answers, a record that is kept says that its create succeeded or failed, and a
/// key is released only after a deletion that was recorded as such.
pub proof fn interrupted_creates_fail_closed(
    record: CreateIdempotencyRecord,
    first: PersistenceResult<()>,
    second: PersistenceResult<()>,
)
    ensures
        ({
            let end = InterruptedCreate::start(record).after(first).after(second);
            &&& end matches InterruptedCreate::Kept { record: kept } ==> {
                &&& create_idempotency::is_settled(kept.state)
                &&& kept.key == record.key
                &&& kept.sandbox_id == record.sandbox_id
                &&& record.state is Creating ==> kept.state is Failed
                &&& record.state is Deleting ==> kept.state is Failed
            }
            &&& end is Released ==> record.state is Deleting && second is Ok && (first is Ok
                || first->Err_0 is ManualRecovery)
            &&& end is Kept || end is Released || end is Aborted
        }),
{
}

/// Whether the images of the restored sandbox at a position were protected at a step.
pub open spec fn pinned_at(step: ProtectionStep, outcome: Result<(), String>, at: int) -> bool {
    step matches ProtectionStep::Pin { at: pinned } && pinned == at && outcome is Ok
}

/// Protection is dropped, and image maintenance runs, only once the images of every restored
/// sandbox are protected.
pub proof fn maintenance_waits_for_every_pin(
    restored: nat,
    steps: Seq<ProtectionStep>,
    outcomes: Seq<Result<(), String>>,
    reached: int,
    at: int,
)
    requires
        steps.len() == outcomes.len() + 1,
        steps[0] == ProtectionStep::start(restored),
        forall|i: int|
            0 <= i < outcomes.len() ==> #[trigger] steps[i + 1] == steps[i].after(
                restored,
                outcomes[i],
            ),
        0 <= reached < steps.len(),
        steps[reached] matches ProtectionStep::Pin { at: next } ==> at < next,
        !(steps[reached] is Failed),
        0 <= at < restored,
    ensures
        exists|i: int| 0 <= i < reached && #[trigger] pinned_at(steps[i], outcomes[i], at),
    decreases reached,
{
    if reached > 0 {
        let before = reached - 1;
        assert(steps[before + 1] == steps[before].after(restored, outcomes[before]));
        if pinned_at(steps[before], outcomes[before], at) {
        } else {
            maintenance_waits_for_every_pin(restored, steps, outcomes, before, at);
        }
    }
}

/// A durable record is unusable exactly where its key or fingerprint is, or where a record before it
/// has the same key.
pub proof fn keys_are_refused_the_second_time(records: Seq<CreateIdempotencyRecord>, at: int)
    requires
        0 <= at < records.len(),
    ensures
        ({
            let record = records[at];
            let identity = types::create_identity_fault(record.key@, record.request_fingerprint@);
            let repeated = exists|i: int| 0 <= i < at && (#[trigger] records[i]).key@ == record.key@;
            &&& record_fault(records, at) is Some <==> identity is Some || repeated
            &&& identity matches Some(fault) ==> record_fault(records, at) == Some(
                InternalFault::InvalidDurableCreate { sandbox_id: record.sandbox_id, fault },
            )
            &&& identity is None && repeated ==> record_fault(records, at) == Some(
                InternalFault::DuplicateCreateKey { key: record.key },
            )
        }),
{
    let before = records.take(at);
    position_is_first(before, records[at].key@, 0);
    assert(forall|i: int| 0 <= i < at ==> #[trigger] before[i] == records[i]);
    if position_of(before, records[at].key@, 0) is Some {
        let found = position_of(before, records[at].key@, 0)->0;
        assert(records[found].key@ == records[at].key@);
    } else {
        assert forall|i: int| 0 <= i < at implies (#[trigger] records[i]).key@
            != records[at].key@ by {
            assert(before[i] == records[i]);
        }
    }
}

proof fn holder_is_first(keys: Seq<PausedKey>, key: Seq<char>, from: int)
    requires
        0 <= from <= keys.len(),
    ensures
        match holder_of(keys, key, from) {
            Some(at) => from <= at < keys.len() && keys[at].key@ == key && forall|k: int|
                from <= k < at ==> (#[trigger] keys[k]).key@ != key,
            None => forall|k: int| from <= k < keys.len() ==> (#[trigger] keys[k]).key@ != key,
        },
    decreases keys.len() - from,
{
    if from < keys.len() && keys[from].key@ != key {
        holder_is_first(keys, key, from + 1);
    }
}

/// A paused sandbox without a create key is taken over as it is, and one that lacks half of it is not.
/// Any other is taken over where its key is usable and free among the paused sandboxes, and where the
/// durable record under this key, if any, is its own and not that of a failure.
pub proof fn paused_keys_are_taken_over_once(
    metadata: SandboxMetadata,
    paused: Seq<PausedKey>,
    durable: Seq<CreateIdempotencyRecord>,
    key: String,
    fingerprint: String,
)
    ensures
        metadata.create_idempotency_key is None && metadata.create_request_fingerprint is None
            ==> migration_fault(metadata, paused, durable) is None && migrated_record(
            metadata,
            durable,
        ) is None,
        (metadata.create_idempotency_key is Some) != (metadata.create_request_fingerprint is Some)
            ==> migration_fault(metadata, paused, durable) == Some(
            InternalFault::IncompleteCreateMetadata { sandbox_id: metadata.id },
        ),
        metadata.create_idempotency_key == Some(key) && metadata.create_request_fingerprint == Some(
            fingerprint,
        ) ==> {
            let identity = types::create_identity_fault(key@, fingerprint@);
            let fault = migration_fault(metadata, paused, durable);
            let is_held = exists|i: int| 0 <= i < paused.len() && (#[trigger] paused[i]).key@ == key@;
            &&& identity matches Some(cause) ==> fault == Some(
                InternalFault::InvalidCreateMetadata { sandbox_id: metadata.id, fault: cause },
            )
            &&& identity is None && is_held ==> exists|i: int|
                {
                    &&& 0 <= i < paused.len()
                    &&& (#[trigger] paused[i]).key@ == key@
                    &&& fault == Some(
                        InternalFault::SharedCreateKey {
                            first: paused[i].sandbox_id,
                            second: metadata.id,
                            key,
                        },
                    )
                }
            &&& identity is None && !is_held ==> {
                &&& (forall|i: int| 0 <= i < durable.len() ==> (#[trigger] durable[i]).key@ != key@)
                    ==> fault is None
                &&& forall|i: int|
                    0 <= i < durable.len() && (#[trigger] durable[i]).key@ == key@
                        && has_distinct_keys(durable) ==> {
                        let record = durable[i];
                        let own = record.sandbox_id == metadata.id && record.request_fingerprint@
                            == fingerprint@;
                        &&& !own ==> fault == Some(
                            InternalFault::ConflictingCreateKey { sandbox_id: metadata.id, key },
                        )
                        &&& own && record.state is Failed ==> fault == Some(
                            InternalFault::FailedCreateKey { sandbox_id: metadata.id, key },
                        )
                        &&& own && !(record.state is Failed) ==> fault is None
                    }
            }
        },
{
    holder_is_first(paused, key@, 0);
    position_is_first(durable, key@, 0);
    if has_distinct_keys(durable) {
        assert forall|i: int| 0 <= i < durable.len() && (#[trigger] durable[i]).key@ == key@ implies
            position_of(durable, key@, 0) == Some(i) by {
            let at = position_of(durable, key@, 0)->0;
            if at < i {
                assert(durable[at].key@ != durable[i].key@);
            }
        }
    }
}

/// The key of a paused sandbox that no record has gets one that says that the create succeeded, at the
/// end; the record of its interrupted create now says so too; and every other record stays.
pub proof fn migrations_record_a_success(
    metadata: SandboxMetadata,
    durable: Seq<CreateIdempotencyRecord>,
    key: String,
    fingerprint: String,
    at: int,
)
    requires
        metadata.create_idempotency_key == Some(key),
        metadata.create_request_fingerprint == Some(fingerprint),
        has_distinct_keys(durable),
    ensures
        (forall|i: int| 0 <= i < durable.len() ==> (#[trigger] durable[i]).key@ != key@) ==> {
            let record = CreateIdempotencyRecord {
                key,
                request_fingerprint: fingerprint,
                sandbox_id: metadata.id,
                state: CreateIdempotencyRecordState::Succeeded,
            };
            &&& migrated_record(metadata, durable) == Some(record)
            &&& migrated(metadata, durable) == durable.push(record)
        },
        0 <= at < durable.len() && durable[at].key@ == key@ ==> {
            let record = durable[at];
            let after = migrated(metadata, durable);
            &&& !(record.state is Creating) ==> migrated_record(metadata, durable) is None && after
                == durable
            &&& record.state is Creating ==> {
                &&& migrated_record(metadata, durable) == Some(after[at])
                &&& after[at].state is Succeeded
                &&& after[at].key == record.key
                &&& after[at].sandbox_id == record.sandbox_id
                &&& after[at].request_fingerprint == record.request_fingerprint
                &&& after.len() == durable.len()
                &&& forall|i: int| 0 <= i < durable.len() && i != at ==> #[trigger] after[i]
                    == durable[i]
            }
        },
{
    position_is_first(durable, key@, 0);
    if 0 <= at < durable.len() && durable[at].key@ == key@ {
        let found = position_of(durable, key@, 0)->0;
        if found < at {
            assert(durable[found].key@ != durable[at].key@);
        }
    }
}

/// A create that was interrupted is recorded as failed; a deletion that was interrupted is completed,
/// and its key is released only after that; a settled record stays. An error of the last write is
/// told.
pub proof fn interrupted_work_is_settled(
    record: CreateIdempotencyRecord,
    error: SandboxPersistenceError,
)
    ensures
        ({
            let failed = CreateIdempotencyRecord {
                state: CreateIdempotencyRecordState::Failed,
                ..record
            };
            let first = InterruptedCreate::start(record);
            let deleted = first.after(Ok(()));
            &&& record.state is Succeeded || record.state is Failed ==> first == (
            InterruptedCreate::Kept { record })
            &&& record.state is Creating ==> {
                &&& first == (InterruptedCreate::Fail { record: failed })
                &&& first.after(Ok(())) == (InterruptedCreate::Kept { record: failed })
                &&& first.after(Err(error)) == (InterruptedCreate::Aborted { error })
            }
            &&& record.state is Deleting ==> {
                &&& first == (InterruptedCreate::Delete { record })
                &&& deleted == (InterruptedCreate::Release { record })
                &&& deleted.after(Ok(())) == (InterruptedCreate::Released {
                    sandbox_id: record.sandbox_id,
                })
                &&& deleted.after(Err(error)) == (InterruptedCreate::Aborted { error })
                &&& error is ManualRecovery ==> first.after(Err(error)) == deleted
                &&& !(error is ManualRecovery) ==> first.after(Err(error)) == (
                InterruptedCreate::Fail { record: failed })
            }
        }),
{
}

/// A sandbox stays exactly where it was found and was not deleted.
pub proof fn deleted_sandboxes_do_not_come_back(
    persisted: Seq<SandboxMetadata>,
    deleted: Seq<SandboxId>,
    metadata: SandboxMetadata,
)
    ensures
        remaining(persisted, deleted).contains(metadata) <==> persisted.contains(metadata)
            && !deleted.contains(metadata.id),
        (forall|i: int| 0 <= i < persisted.len() ==> !deleted.contains((#[trigger] persisted[i]).id))
            ==> remaining(persisted, deleted) == persisted,
{
    let stays = |metadata: SandboxMetadata| !is_listed(deleted, metadata.id);
    let left = persisted.filter(stays);
    assert(is_listed(deleted, metadata.id) <==> deleted.contains(metadata.id));
    if left.contains(metadata) {
        let k = choose|k: int| 0 <= k < left.len() && left[k] == metadata;
        persisted.lemma_filter_pred(stays, k);
        persisted.lemma_filter_contains_rev(stays, metadata);
    }
    if persisted.contains(metadata) && !deleted.contains(metadata.id) {
        let i = choose|i: int| 0 <= i < persisted.len() && persisted[i] == metadata;
        persisted.lemma_filter_contains(stays, i);
    }
    if forall|i: int| 0 <= i < persisted.len() ==> !deleted.contains((#[trigger] persisted[i]).id) {
        assert forall|i: int| 0 <= i < persisted.len() implies stays(#[trigger] persisted[i]) by {
            assert(!deleted.contains(persisted[i].id));
        }
        a_filter_keeps_all(persisted, stays);
    }
}

proof fn a_filter_keeps_all(all: Seq<SandboxMetadata>, keeps: spec_fn(SandboxMetadata) -> bool)
    requires
        forall|i: int| 0 <= i < all.len() ==> keeps(#[trigger] all[i]),
    ensures
        all.filter(keeps) == all,
    decreases all.len(),
{
    reveal(Seq::filter);
    if all.len() > 0 {
        assert forall|i: int| 0 <= i < all.drop_last().len() implies keeps(
            #[trigger] all.drop_last()[i],
        ) by {
            assert(all[i] == all.drop_last()[i]);
        }
        a_filter_keeps_all(all.drop_last(), keeps);
        assert(keeps(all[all.len() - 1]));
        assert(all.drop_last().push(all.last()) =~= all);
    }
}

/// The images that are protected are those of the sandboxes that are paused and have a paused state,
/// and of no others.
pub proof fn every_paused_sandbox_is_protected(
    persisted: Seq<SandboxMetadata>,
    restored: RestoredPaused,
)
    ensures
        paused_among(persisted).contains(restored) <==> exists|i: int|
            {
                &&& 0 <= i < persisted.len()
                &&& (#[trigger] persisted[i]).state is Paused
                &&& persisted[i].id == restored.sandbox_id
                &&& persisted[i].paused_state == Some(restored.paused_state)
            },
        paused_among(persisted).len() <= persisted.len(),
    decreases persisted.len(),
{
    if persisted.len() > 0 {
        let rest = persisted.drop_last();
        let last = persisted.last();
        let before = paused_among(rest);
        let after = paused_among(persisted);
        every_paused_sandbox_is_protected(rest, restored);
        assert(forall|i: int| 0 <= i < rest.len() ==> #[trigger] rest[i] == persisted[i]);
        assert(persisted[persisted.len() - 1] == last);
        if before.contains(restored) {
            let k = choose|k: int| 0 <= k < before.len() && before[k] == restored;
            assert(after[k] == restored);
            let i = choose|i: int|
                {
                    &&& 0 <= i < rest.len()
                    &&& (#[trigger] rest[i]).state is Paused
                    &&& rest[i].id == restored.sandbox_id
                    &&& rest[i].paused_state == Some(restored.paused_state)
                };
            assert(persisted[i].state is Paused);
        } else {
            if after.contains(restored) {
                let k = choose|k: int| 0 <= k < after.len() && after[k] == restored;
                if k < before.len() {
                    assert(before[k] == restored);
                }
            }
            if last.state is Paused && last.id == restored.sandbox_id && last.paused_state == Some(
                restored.paused_state,
            ) {
                assert(after[before.len() as int] == restored);
            }
            if exists|i: int|
                {
                    &&& 0 <= i < persisted.len()
                    &&& (#[trigger] persisted[i]).state is Paused
                    &&& persisted[i].id == restored.sandbox_id
                    &&& persisted[i].paused_state == Some(restored.paused_state)
                } {
                let i = choose|i: int|
                    {
                        &&& 0 <= i < persisted.len()
                        &&& (#[trigger] persisted[i]).state is Paused
                        &&& persisted[i].id == restored.sandbox_id
                        &&& persisted[i].paused_state == Some(restored.paused_state)
                    };
                if i < rest.len() {
                    assert(rest[i].state is Paused);
                }
            }
        }
    } else {
        assert(paused_among(persisted).len() == 0);
    }
}

/// The images of the restored sandboxes are protected one after the other, from the first to the last;
/// then the protection of all others is dropped, and only then maintenance may run. The first failure
/// ends it, and is told.
pub proof fn images_are_protected_one_by_one(restored: nat, at: usize, message: String)
    ensures
        restored == 0 ==> ProtectionStep::start(restored) is ReconcilePaused,
        restored > 0 ==> ProtectionStep::start(restored) == (ProtectionStep::Pin { at: 0 }),
        at + 1 < restored && at < usize::MAX ==> (ProtectionStep::Pin { at }).after(restored, Ok(()))
            == (ProtectionStep::Pin { at: (at + 1) as usize }),
        at + 1 == restored ==> (ProtectionStep::Pin { at }).after(restored, Ok(())) is ReconcilePaused,
        (ProtectionStep::Pin { at }).after(restored, Err(message)) == (ProtectionStep::Failed {
            error: OrchestratorError::InternalError {
                fault: InternalFault::ImagePin { owner: ImageOwner::PausedSandbox, message },
            },
        }),
        ProtectionStep::ReconcilePaused.after(restored, Ok(())) is Protected,
        ProtectionStep::ReconcilePaused.after(restored, Err(message)) == (ProtectionStep::Failed {
            error: OrchestratorError::InternalError {
                fault: InternalFault::ImageReconcile { message },
            },
        }),
{
}

/// A record is that of the create of a sandbox exactly where both name the same key, the same
/// fingerprint and the same sandbox.
pub proof fn records_name_the_sandbox_they_made(
    record: CreateIdempotencyRecord,
    metadata: SandboxMetadata,
)
    ensures
        record.sandbox_id != metadata.id ==> !is_record_of(record, metadata),
        metadata.create_idempotency_key is None ==> !is_record_of(record, metadata),
        metadata.create_request_fingerprint is None ==> !is_record_of(record, metadata),
        metadata.create_idempotency_key matches Some(key) ==> record.key@ != key@ ==> !is_record_of(
            record,
            metadata,
        ),
        metadata.create_request_fingerprint matches Some(fingerprint) ==> record.request_fingerprint@
            != fingerprint@ ==> !is_record_of(record, metadata),
        record.sandbox_id == metadata.id && metadata.create_idempotency_key == Some(record.key)
            && metadata.create_request_fingerprint == Some(record.request_fingerprint)
            ==> is_record_of(record, metadata),
{
}

} // verus!
