//! Create operations that may be retried: one owner per key, and every retry gets its outcome.

use crate::ids::SandboxId;
use crate::orchestrator::error::{InternalFault, OrchestratorError};
use crate::orchestrator::metadata::SandboxMetadata;
use crate::orchestrator::persistence::error::PersistenceResult;
use crate::orchestrator::persistence::journal::{
    CreateIdempotencyRecord, CreateIdempotencyRecordState,
};
use crate::orchestrator::types::CreateSandboxIdempotency;
use crate::text;
use vstd::prelude::*;

verus! {

/// How far a create operation has come.
#[derive(Debug)]
pub enum CreateIdempotencyState {
    Creating,
    Succeeded,
    Failed { message: String },
    Deleting,
}

/// One claimed key. The token tells claims apart that use the same key one after the other.
#[derive(Debug)]
pub struct CreateIdempotencyEntry {
    pub key: String,
    pub sandbox_id: SandboxId,
    pub request_fingerprint: String,
    pub state: CreateIdempotencyState,
    pub token: u64,
}

impl CreateIdempotencyEntry {
    /// What the journal says about this claim in a given state.
    pub fn durable_record(&self, state: CreateIdempotencyRecordState) -> (record:
        CreateIdempotencyRecord)
        ensures
            record == (CreateIdempotencyRecord {
                key: self.key,
                request_fingerprint: self.request_fingerprint,
                sandbox_id: self.sandbox_id,
                state,
            }),
    {
        CreateIdempotencyRecord {
            key: self.key.clone(),
            request_fingerprint: self.request_fingerprint.clone(),
            sandbox_id: self.sandbox_id,
            state,
        }
    }
}

/// The claims of a node.
#[derive(Debug)]
pub struct CreateTable {
    entries: Vec<CreateIdempotencyEntry>,
    next_token: u64,
}

impl View for CreateTable {
    type V = Seq<CreateIdempotencyEntry>;

    closed spec fn view(&self) -> Seq<CreateIdempotencyEntry> {
        self.entries@
    }
}

/// Whether no key and no token is used twice.
pub open spec fn is_table(entries: Seq<CreateIdempotencyEntry>) -> bool {
    forall|i: int, j: int|
        0 <= i < j < entries.len() ==> (#[trigger] entries[i]).key@ != (#[trigger] entries[j]).key@
            && entries[i].token != entries[j].token
}

/// The position of the claim with a key among those from `from` on.
pub open spec fn position_of(entries: Seq<CreateIdempotencyEntry>, key: Seq<char>, from: int) -> Option<
    int,
>
    decreases entries.len() - from,
{
    if from >= entries.len() {
        None
    } else if entries[from].key@ == key {
        Some(from)
    } else {
        position_of(entries, key, from + 1)
    }
}

/// The claim with a key.
pub open spec fn entry_of(entries: Seq<CreateIdempotencyEntry>, key: Seq<char>) -> Option<
    CreateIdempotencyEntry,
> {
    match position_of(entries, key, 0) {
        Some(at) => Some(entries[at]),
        None => None,
    }
}

/// The claims, with one of them in a new state.
pub open spec fn with_state(
    entries: Seq<CreateIdempotencyEntry>,
    at: int,
    state: CreateIdempotencyState,
) -> Seq<CreateIdempotencyEntry> {
    entries.update(at, CreateIdempotencyEntry { state, ..entries[at] })
}

/// What a request for a key leads to.
#[derive(Debug)]
pub enum ClaimStep {
    /// The key belongs to another request.
    Conflict { error: OrchestratorError },
    /// Wait for the outcome of this claim.
    Replay { token: u64 },
    /// Write the record; only then is the key claimed.
    Persist { record: CreateIdempotencyRecord },
}

/// What a retry does, given how far its claim has come.
#[derive(Debug)]
pub enum ReplayStep {
    Wait,
    /// Fetch the metadata of the sandbox.
    Fetch { sandbox_id: SandboxId },
    Fail { error: OrchestratorError },
}

/// What the owner of a claim does with the outcome of its create.
#[derive(Debug)]
pub enum FinishStep {
    Return { outcome: Result<SandboxMetadata, OrchestratorError> },
    /// Write the record before the success is reported.
    PersistSuccess { record: CreateIdempotencyRecord, metadata: SandboxMetadata },
    /// Write the record; the failure is reported whether or not that works.
    PersistFailure { record: CreateIdempotencyRecord, error: OrchestratorError },
}

/// What finishing the deletion of a sandbox with a claim does next.
#[derive(Debug)]
pub enum ReleaseStep {
    /// Write the record. From now on a restart knows that the runtime is gone.
    Record { record: CreateIdempotencyRecord },
    /// Delete the paused record and the artifacts of the sandbox.
    DeleteArtifacts { record: CreateIdempotencyRecord },
    /// Delete the create record.
    DeleteRecord { record: CreateIdempotencyRecord },
    /// Release the key.
    Release,
    Done(Result<(), OrchestratorError>),
}

impl ReleaseStep {
    /// What follows on the outcome of a step. A failure leaves the claim as it is, so that the
    /// deletion can be tried again.
    pub open spec fn after(self, outcome: PersistenceResult<()>) -> ReleaseStep {
        match (self, outcome) {
            (ReleaseStep::Done(outcome), _) => ReleaseStep::Done(outcome),
            (_, Err(error)) => ReleaseStep::Done(Err(OrchestratorError::Persistence { error })),
            (ReleaseStep::Record { record }, Ok(_)) => ReleaseStep::DeleteArtifacts { record },
            (ReleaseStep::DeleteArtifacts { record }, Ok(_)) => ReleaseStep::DeleteRecord { record },
            (ReleaseStep::DeleteRecord { .. }, Ok(_)) => ReleaseStep::Release,
            (ReleaseStep::Release, Ok(_)) => ReleaseStep::Done(Ok(())),
        }
    }

    pub fn next(self, outcome: PersistenceResult<()>) -> (next: ReleaseStep)
        ensures
            next == self.after(outcome),
    {
        match (self, outcome) {
            (ReleaseStep::Done(outcome), _) => ReleaseStep::Done(outcome),
            (_, Err(error)) => ReleaseStep::Done(Err(OrchestratorError::Persistence { error })),
            (ReleaseStep::Record { record }, Ok(_)) => ReleaseStep::DeleteArtifacts { record },
            (ReleaseStep::DeleteArtifacts { record }, Ok(_)) => ReleaseStep::DeleteRecord { record },
            (ReleaseStep::DeleteRecord { .. }, Ok(_)) => ReleaseStep::Release,
            (ReleaseStep::Release, Ok(_)) => ReleaseStep::Done(Ok(())),
        }
    }
}

/// Whether a record is of a create whose outcome is known.
pub open spec fn is_settled(state: CreateIdempotencyRecordState) -> bool {
    state is Succeeded || state is Failed
}

/// Whether a claim is what a record from before a restart leaves.
pub open spec fn is_restored(record: CreateIdempotencyRecord, entry: CreateIdempotencyEntry) -> bool {
    &&& entry.key == record.key
    &&& entry.sandbox_id == record.sandbox_id
    &&& entry.request_fingerprint == record.request_fingerprint
    &&& match record.state {
        CreateIdempotencyRecordState::Succeeded => entry.state is Succeeded,
        _ => entry.state matches CreateIdempotencyState::Failed { message } && message@
            == "previous create outcome is unavailable after restart"@,
    }
}

proof fn position_is_first(entries: Seq<CreateIdempotencyEntry>, key: Seq<char>, from: int)
    requires
        0 <= from <= entries.len(),
    ensures
        match position_of(entries, key, from) {
            Some(at) => from <= at < entries.len() && entries[at].key@ == key,
            None => forall|k: int| from <= k < entries.len() ==> (#[trigger] entries[k]).key@ != key,
        },
    decreases entries.len() - from,
{
    if from < entries.len() && entries[from].key@ != key {
        position_is_first(entries, key, from + 1);
    }
}

impl CreateTable {
    #[verifier::type_invariant]
    spec fn sound(self) -> bool {
        &&& is_table(self.entries@)
        &&& forall|i: int|
            0 <= i < self.entries@.len() ==> (#[trigger] self.entries@[i]).token < self.next_token
    }

    /// The token that is given out next. A token is never given out twice, so that whoever holds
    /// one of an earlier claim is not taken for the owner of a later one under the same key.
    pub closed spec fn next_token(&self) -> u64 {
        self.next_token
    }

    pub fn new() -> (table: CreateTable)
        ensures
            table@.len() == 0,
            table.next_token() == 0,
    {
        CreateTable { entries: Vec::new(), next_token: 0 }
    }

    /// The claims that records from before a restart leave: the outcome of a create that failed,
    /// or was interrupted, is gone.
    pub fn restore_create_entries(records: Vec<CreateIdempotencyRecord>) -> (table: CreateTable)
        requires
            forall|i: int, j: int|
                0 <= i < j < records@.len() ==> (#[trigger] records@[i]).key@ != (
                #[trigger] records@[j]).key@,
            forall|i: int| 0 <= i < records@.len() ==> is_settled((#[trigger] records@[i]).state),
        ensures
            table@.len() == records@.len(),
            forall|i: int|
                0 <= i < records@.len() ==> is_restored(#[trigger] records@[i], table@[i])
                    && table@[i].token == i,
            table.next_token() == records@.len(),
    {
        let mut records = records;
        let ghost all = records@;
        let mut entries: Vec<CreateIdempotencyEntry> = Vec::new();
        while records.len() > 0
            invariant
                records@.len() + entries@.len() == all.len(),
                records@ == all.skip(entries@.len() as int),
                forall|i: int, j: int|
                    0 <= i < j < all.len() ==> (#[trigger] all[i]).key@ != (#[trigger] all[j]).key@,
                forall|i: int| 0 <= i < all.len() ==> is_settled((#[trigger] all[i]).state),
                forall|i: int|
                    0 <= i < entries@.len() ==> {
                        &&& is_restored(all[i], #[trigger] entries@[i])
                        &&& entries@[i].token == i
                    },
            decreases records@.len(),
        {
            let ghost at = entries@.len() as int;
            assert(records@[0] == all[at]);
            let token: u64 = entries.len() as u64;
            let record = records.remove(0);
            let state = match record.state {
                CreateIdempotencyRecordState::Succeeded => CreateIdempotencyState::Succeeded,
                _ => CreateIdempotencyState::Failed {
                    message: "previous create outcome is unavailable after restart".to_owned(),
                },
            };
            entries.push(
                CreateIdempotencyEntry {
                    key: record.key,
                    sandbox_id: record.sandbox_id,
                    request_fingerprint: record.request_fingerprint,
                    state,
                    token,
                },
            );
            assert(records@ =~= all.skip(at + 1));
        }
        let next_token: u64 = entries.len() as u64;
        proof {
            assert forall|i: int, j: int| 0 <= i < j < entries@.len() implies (
            #[trigger] entries@[i]).key@ != (#[trigger] entries@[j]).key@ && entries@[i].token
                != entries@[j].token by {
                assert(is_restored(all[i], entries@[i]) && is_restored(all[j], entries@[j]));
            }
        }
        CreateTable { entries, next_token }
    }

    /// No key and no token of a table is used twice, and none of its tokens is given out again.
    pub fn soundness(&self)
        ensures
            is_table(self@),
            forall|i: int|
                0 <= i < self@.len() ==> (#[trigger] self@[i]).token < self.next_token(),
    {
        proof {
            use_type_invariant(self);
        }
    }

    fn find(&self, key: &str) -> (position: Option<usize>)
        ensures
            match position {
                Some(at) => position_of(self@, key@, 0) == Some(at as int) && at < self@.len()
                    && self@[at as int].key@ == key@,
                None => position_of(self@, key@, 0) is None,
            },
    {
        proof {
            position_is_first(self@, key@, 0);
        }
        let mut at: usize = 0;
        while at < self.entries.len()
            invariant
                at <= self.entries@.len(),
                position_of(self@, key@, 0) == position_of(self@, key@, at as int),
            decreases self.entries@.len() - at,
        {
            if text::text_equal(self.entries[at].key.as_str(), key) {
                return Some(at);
            }
            at += 1;
        }
        None
    }

    /// The claim with a key.
    pub fn get(&self, key: &str) -> (entry: Option<&CreateIdempotencyEntry>)
        ensures
            match entry {
                Some(entry) => entry_of(self@, key@) == Some(*entry),
                None => entry_of(self@, key@) is None,
            },
    {
        match self.find(key) {
            Some(at) => Some(&self.entries[at]),
            None => None,
        }
    }

    /// What a create with this identity leads to: a key that is claimed for the same request is
    /// replayed, one that is claimed for another request is a conflict, and a free key is claimed
    /// for `candidate`.
    pub fn claim_create_idempotency(
        &self,
        identity: &CreateSandboxIdempotency,
        candidate: SandboxId,
    ) -> (step: ClaimStep)
        ensures
            match entry_of(self@, identity.key_text()) {
                Some(entry) => if entry.request_fingerprint@ == identity.fingerprint_text() {
                    step == (ClaimStep::Replay { token: entry.token })
                } else {
                    step matches ClaimStep::Conflict { error } && error matches OrchestratorError::CreateIdempotencyConflict {
                        key,
                    } && key@ == identity.key_text()
                },
                None => step matches ClaimStep::Persist { record } && record.key@
                    == identity.key_text() && record.request_fingerprint@
                    == identity.fingerprint_text() && record.sandbox_id == candidate
                    && record.state is Creating,
            },
    {
        match self.get(identity.key().as_str()) {
            Some(entry) => if text::text_equal(
                entry.request_fingerprint.as_str(),
                identity.request_fingerprint().as_str(),
            ) {
                ClaimStep::Replay { token: entry.token }
            } else {
                ClaimStep::Conflict {
                    error: OrchestratorError::CreateIdempotencyConflict {
                        key: identity.key().clone(),
                    },
                }
            },
            None => ClaimStep::Persist {
                record: CreateIdempotencyRecord {
                    key: identity.key().clone(),
                    request_fingerprint: identity.request_fingerprint().clone(),
                    sandbox_id: candidate,
                    state: CreateIdempotencyRecordState::Creating,
                },
            },
        }
    }

    /// What a create with this identity leads to where nothing is to be claimed: nothing, a
    /// replay or a conflict.
    pub fn replay_create_if_present(&self, identity: &CreateSandboxIdempotency) -> (outcome: Result<
        Option<u64>,
        OrchestratorError,
    >)
        ensures
            match entry_of(self@, identity.key_text()) {
                None => outcome == Ok::<Option<u64>, OrchestratorError>(None),
                Some(entry) => if entry.request_fingerprint@ == identity.fingerprint_text() {
                    outcome == Ok::<Option<u64>, OrchestratorError>(Some(entry.token))
                } else {
                    outcome matches Err(error) && error matches OrchestratorError::CreateIdempotencyConflict {
                        key,
                    } && key@ == identity.key_text()
                },
            },
    {
        match self.get(identity.key().as_str()) {
            None => Ok(None),
            Some(entry) => if text::text_equal(
                entry.request_fingerprint.as_str(),
                identity.request_fingerprint().as_str(),
            ) {
                Ok(Some(entry.token))
            } else {
                Err(
                    OrchestratorError::CreateIdempotencyConflict {
                        key: identity.key().clone(),
                    },
                )
            },
        }
    }

    /// Claims a key whose record has been written, and gives out its token; a key that is claimed
    /// already stays with its owner.
    pub fn publish_claim(&mut self, record: CreateIdempotencyRecord) -> (token: Option<u64>)
        ensures
            match token {
                Some(token) => {
                    &&& entry_of(old(self)@, record.key@) is None
                    &&& old(self).next_token() < u64::MAX
                    &&& final(self)@ == old(self)@.push(
                        CreateIdempotencyEntry {
                            key: record.key,
                            sandbox_id: record.sandbox_id,
                            request_fingerprint: record.request_fingerprint,
                            state: CreateIdempotencyState::Creating,
                            token,
                        },
                    )
                    &&& token == old(self).next_token()
                    &&& final(self).next_token() == token + 1
                },
                None => {
                    &&& entry_of(old(self)@, record.key@) is Some || old(self).next_token()
                        == u64::MAX
                    &&& final(self)@ == old(self)@
                    &&& final(self).next_token() == old(self).next_token()
                },
            },
    {
        self.add(record, CreateIdempotencyState::Creating)
    }

    fn add(&mut self, record: CreateIdempotencyRecord, state: CreateIdempotencyState) -> (token: Option<
        u64,
    >)
        ensures
            match token {
                Some(token) => {
                    &&& entry_of(old(self)@, record.key@) is None
                    &&& old(self).next_token() < u64::MAX
                    &&& final(self)@ == old(self)@.push(
                        CreateIdempotencyEntry {
                            key: record.key,
                            sandbox_id: record.sandbox_id,
                            request_fingerprint: record.request_fingerprint,
                            state,
                            token,
                        },
                    )
                    &&& token == old(self).next_token()
                    &&& final(self).next_token() == token + 1
                },
                None => {
                    &&& entry_of(old(self)@, record.key@) is Some || old(self).next_token()
                        == u64::MAX
                    &&& final(self)@ == old(self)@
                    &&& final(self).next_token() == old(self).next_token()
                },
            },
    {
        proof {
            use_type_invariant(&*self);
            position_is_first(self@, record.key@, 0);
        }
        if self.find(record.key.as_str()).is_some() || self.next_token == u64::MAX {
            return None;
        }
        let token: u64 = self.next_token;
        self.next_token = token + 1;
        let mut entries: Vec<CreateIdempotencyEntry> = Vec::new();
        core::mem::swap(&mut entries, &mut self.entries);
        entries.push(
            CreateIdempotencyEntry {
                key: record.key,
                sandbox_id: record.sandbox_id,
                request_fingerprint: record.request_fingerprint,
                state,
                token,
            },
        );
        self.entries = entries;
        Some(token)
    }

    /// Whether the claim with a key is this very one.
    pub open spec fn is_current(entries: Seq<CreateIdempotencyEntry>, key: Seq<char>, token: u64) -> bool {
        entry_of(entries, key) matches Some(entry) && entry.token == token
    }

    /// Decides what becomes of the outcome of a create. A claim that is not this one any more, or
    /// that has left the creating state, is never written over: its sandbox is being deleted.
    pub fn finish_idempotent_create(
        &self,
        key: &String,
        token: u64,
        result: Result<SandboxMetadata, OrchestratorError>,
    ) -> (step: FinishStep)
        ensures
            if CreateTable::is_current(self@, key@, token) && entry_of(self@, key@)->0.state is Creating {
                let entry = entry_of(self@, key@)->0;
                match result {
                    Ok(metadata) => step == (FinishStep::PersistSuccess {
                        record: CreateIdempotencyRecord {
                            key: entry.key,
                            request_fingerprint: entry.request_fingerprint,
                            sandbox_id: entry.sandbox_id,
                            state: CreateIdempotencyRecordState::Succeeded,
                        },
                        metadata,
                    }),
                    Err(error) => step == (FinishStep::PersistFailure {
                        record: CreateIdempotencyRecord {
                            key: entry.key,
                            request_fingerprint: entry.request_fingerprint,
                            sandbox_id: entry.sandbox_id,
                            state: CreateIdempotencyRecordState::Failed,
                        },
                        error,
                    }),
                }
            } else {
                step == (FinishStep::Return {
                    outcome: match result {
                        Ok(_) => Err(
                            OrchestratorError::CreateIdempotencyResultUnavailable { key: *key },
                        ),
                        Err(error) => Err(error),
                    },
                })
            },
    {
        if let Some(entry) = self.get(key.as_str()) {
            if entry.token == token {
                if let CreateIdempotencyState::Creating = entry.state {
                    return match result {
                        Ok(metadata) => FinishStep::PersistSuccess {
                            record: entry.durable_record(CreateIdempotencyRecordState::Succeeded),
                            metadata,
                        },
                        Err(error) => FinishStep::PersistFailure {
                            record: entry.durable_record(CreateIdempotencyRecordState::Failed),
                            error,
                        },
                    };
                }
            }
        }
        FinishStep::Return {
            outcome: match result {
                Ok(_) => Err(
                    OrchestratorError::CreateIdempotencyResultUnavailable { key: key.clone() },
                ),
                Err(error) => Err(error),
            },
        }
    }

    fn set_state(&mut self, at: usize, state: CreateIdempotencyState)
        requires
            at < old(self)@.len(),
        ensures
            final(self)@ == with_state(old(self)@, at as int, state),
            final(self).next_token() == old(self).next_token(),
    {
        proof {
            use_type_invariant(&*self);
        }
        let mut entries: Vec<CreateIdempotencyEntry> = Vec::new();
        core::mem::swap(&mut entries, &mut self.entries);
        let ghost before = entries@;
        let mut entry = entries.remove(at);
        entry.state = state;
        entries.insert(at, entry);
        assert(entries@ =~= with_state(before, at as int, state));
        self.entries = entries;
    }

    /// The claims after this one, if it is still current, has come to a state.
    pub open spec fn moved(
        entries: Seq<CreateIdempotencyEntry>,
        key: Seq<char>,
        token: u64,
        state: CreateIdempotencyState,
    ) -> Seq<CreateIdempotencyEntry> {
        if CreateTable::is_current(entries, key, token) {
            with_state(entries, position_of(entries, key, 0)->0, state)
        } else {
            entries
        }
    }

    fn move_to(&mut self, key: &str, token: u64, state: CreateIdempotencyState)
        ensures
            final(self).next_token() == old(self).next_token(),
            final(self)@ == CreateTable::moved(old(self)@, key@, token, state),
    {
        if let Some(at) = self.find(key) {
            if self.entries[at].token == token {
                self.set_state(at, state);
            }
        }
    }

    /// Concludes a create that succeeded. A success whose record could not be written is never
    /// reported.
    pub fn conclude_success(
        &mut self,
        key: &String,
        token: u64,
        metadata: SandboxMetadata,
        persisted: PersistenceResult<()>,
    ) -> (outcome: Result<SandboxMetadata, OrchestratorError>)
        ensures
            final(self).next_token() == old(self).next_token(),
            match persisted {
                Ok(_) => {
                    &&& outcome == Ok::<SandboxMetadata, OrchestratorError>(metadata)
                    &&& final(self)@ == CreateTable::moved(
                        old(self)@,
                        key@,
                        token,
                        CreateIdempotencyState::Succeeded,
                    )
                },
                Err(error) => {
                    &&& outcome == Err::<SandboxMetadata, OrchestratorError>(
                        (OrchestratorError::Persistence { error }),
                    )
                    &&& exists|message: String|
                        {
                            &&& message@ == "failed to persist successful create result: "@
                                + error.shown()
                            &&& final(self)@ == #[trigger] CreateTable::moved(
                                old(self)@,
                                key@,
                                token,
                                CreateIdempotencyState::Failed { message },
                            )
                        }
                },
            },
    {
        match persisted {
            Ok(_) => {
                self.move_to(key.as_str(), token, CreateIdempotencyState::Succeeded);
                Ok(metadata)
            },
            Err(error) => {
                let message = text::concat2(
                    "failed to persist successful create result: ",
                    error.to_text().as_str(),
                );
                self.move_to(key.as_str(), token, CreateIdempotencyState::Failed { message });
                Err(OrchestratorError::Persistence { error })
            },
        }
    }

    /// Concludes a create that failed, with the text of its error.
    pub fn conclude_failure(
        &mut self,
        key: &String,
        token: u64,
        error: OrchestratorError,
        shown: String,
    ) -> (outcome: Result<SandboxMetadata, OrchestratorError>)
        ensures
            final(self).next_token() == old(self).next_token(),
            outcome == Err::<SandboxMetadata, OrchestratorError>(error),
            final(self)@ == CreateTable::moved(
                old(self)@,
                key@,
                token,
                CreateIdempotencyState::Failed { message: shown },
            ),
    {
        self.move_to(key.as_str(), token, CreateIdempotencyState::Failed { message: shown });
        Err(error)
    }

    /// Concludes a create that ended without an outcome: nobody waits for it any longer.
    pub fn abandon(&mut self, key: &String, token: u64)
        ensures
            final(self).next_token() == old(self).next_token(),
            if CreateTable::is_current(old(self)@, key@, token) && entry_of(old(self)@, key@)->0.state is Creating {
                exists|message: String|
                    {
                        &&& message@ == "create operation ended unexpectedly"@
                        &&& final(self)@ == #[trigger] CreateTable::moved(
                            old(self)@,
                            key@,
                            token,
                            CreateIdempotencyState::Failed { message },
                        )
                    }
            } else {
                final(self)@ == old(self)@
            },
    {
        if let Some(at) = self.find(key.as_str()) {
            if self.entries[at].token == token {
                if let CreateIdempotencyState::Creating = self.entries[at].state {
                    let message = "create operation ended unexpectedly".to_owned();
                    self.move_to(key.as_str(), token, CreateIdempotencyState::Failed { message });
                }
            }
        }
    }

    /// The claim of a sandbox that is about to be deleted, by the key in its metadata.
    pub fn idempotent_delete_entry(&self, sandbox_id: SandboxId, key: &Option<String>) -> (outcome:
        Result<Option<u64>, OrchestratorError>)
        ensures
            match *key {
                None => outcome == Ok::<Option<u64>, OrchestratorError>(None),
                Some(key) => match entry_of(self@, key@) {
                    None => outcome == Err::<Option<u64>, OrchestratorError>(
                        (OrchestratorError::InternalError {
                            fault: InternalFault::MissingCreateEntry { sandbox_id, key },
                        }),
                    ),
                    Some(entry) => if entry.sandbox_id == sandbox_id {
                        outcome == Ok::<Option<u64>, OrchestratorError>(Some(entry.token))
                    } else {
                        outcome == Err::<Option<u64>, OrchestratorError>(
                            (OrchestratorError::InternalError {
                                fault: InternalFault::ForeignCreateEntry {
                                    sandbox_id,
                                    key,
                                    owner: entry.sandbox_id,
                                },
                            }),
                        )
                    },
                },
            },
    {
        let key = match key {
            Some(key) => key,
            None => return Ok(None),
        };
        match self.get(key.as_str()) {
            None => Err(
                OrchestratorError::InternalError {
                    fault: InternalFault::MissingCreateEntry { sandbox_id, key: key.clone() },
                },
            ),
            Some(entry) => if entry.sandbox_id == sandbox_id {
                Ok(Some(entry.token))
            } else {
                Err(
                    OrchestratorError::InternalError {
                        fault: InternalFault::ForeignCreateEntry {
                            sandbox_id,
                            key: key.clone(),
                            owner: entry.sandbox_id,
                        },
                    },
                )
            },
        }
    }

    /// Marks a claim as being deleted, once its runtime is proven gone.
    pub fn mark_create_entry_deleting(&mut self, sandbox_id: SandboxId, key: &String, token: u64) -> (
    outcome: Result<(), OrchestratorError>)
        ensures
            final(self).next_token() == old(self).next_token(),
            match outcome {
                Ok(_) => {
                    &&& CreateTable::is_current(old(self)@, key@, token)
                    &&& final(self)@ == CreateTable::moved(
                        old(self)@,
                        key@,
                        token,
                        CreateIdempotencyState::Deleting,
                    )
                },
                Err(error) => {
                    &&& !CreateTable::is_current(old(self)@, key@, token)
                    &&& final(self)@ == old(self)@
                    &&& error == (OrchestratorError::InternalError {
                        fault: InternalFault::ChangedCreateEntry { sandbox_id, key: *key },
                    })
                },
            },
    {
        if let Some(at) = self.find(key.as_str()) {
            if self.entries[at].token == token {
                self.set_state(at, CreateIdempotencyState::Deleting);
                return Ok(());
            }
        }
        Err(
            OrchestratorError::InternalError {
                fault: InternalFault::ChangedCreateEntry { sandbox_id, key: key.clone() },
            },
        )
    }

    /// Whether a claim is for a sandbox that is being deleted.
    pub open spec fn is_deleting(entry: CreateIdempotencyEntry, sandbox_id: SandboxId) -> bool {
        entry.sandbox_id == sandbox_id && entry.state is Deleting
    }

    /// The claim of a sandbox that is being deleted.
    pub fn deleting_create_for_sandbox(&self, sandbox_id: SandboxId) -> (found: Option<
        &CreateIdempotencyEntry,
    >)
        ensures
            match found {
                Some(entry) => exists|k: int|
                    {
                        &&& 0 <= k < self@.len()
                        &&& *entry == #[trigger] self@[k]
                        &&& CreateTable::is_deleting(*entry, sandbox_id)
                        &&& forall|j: int|
                            0 <= j < k ==> !CreateTable::is_deleting(
                                #[trigger] self@[j],
                                sandbox_id,
                            )
                    },
                None => forall|j: int|
                    0 <= j < self@.len() ==> !CreateTable::is_deleting(
                        #[trigger] self@[j],
                        sandbox_id,
                    ),
            },
    {
        let mut at: usize = 0;
        while at < self.entries.len()
            invariant
                at <= self.entries@.len(),
                forall|j: int|
                    0 <= j < at ==> !CreateTable::is_deleting(#[trigger] self@[j], sandbox_id),
            decreases self.entries@.len() - at,
        {
            let entry = &self.entries[at];
            if entry.sandbox_id == sandbox_id && matches!(entry.state, CreateIdempotencyState::Deleting) {
                assert(CreateTable::is_deleting(self@[at as int], sandbox_id));
                return Some(entry);
            }
            at += 1;
        }
        None
    }

    /// Starts to finish the deletion of a sandbox, where its claim is still the current one.
    pub fn finish_durable_sandbox_delete(&self, key: &String, token: u64) -> (step: ReleaseStep)
        ensures
            step == if CreateTable::is_current(self@, key@, token) {
                let entry = entry_of(self@, key@)->0;
                ReleaseStep::Record {
                    record: CreateIdempotencyRecord {
                        key: entry.key,
                        request_fingerprint: entry.request_fingerprint,
                        sandbox_id: entry.sandbox_id,
                        state: CreateIdempotencyRecordState::Deleting,
                    },
                }
            } else {
                ReleaseStep::Done(Ok(()))
            },
    {
        match self.get(key.as_str()) {
            Some(entry) => if entry.token == token {
                ReleaseStep::Record {
                    record: entry.durable_record(CreateIdempotencyRecordState::Deleting),
                }
            } else {
                ReleaseStep::Done(Ok(()))
            },
            None => ReleaseStep::Done(Ok(())),
        }
    }

    /// Releases a key, once everything that it stood for is gone.
    pub fn release(&mut self, key: &String, token: u64)
        ensures
            final(self).next_token() == old(self).next_token(),
            final(self)@ == if CreateTable::is_current(old(self)@, key@, token) {
                old(self)@.remove(position_of(old(self)@, key@, 0)->0)
            } else {
                old(self)@
            },
    {
        proof {
            use_type_invariant(&*self);
        }
        if let Some(at) = self.find(key.as_str()) {
            if self.entries[at].token == token {
                let mut entries: Vec<CreateIdempotencyEntry> = Vec::new();
                core::mem::swap(&mut entries, &mut self.entries);
                let _released = entries.remove(at);
                self.entries = entries;
            }
        }
    }
}

/// What a retry does.
pub fn replay_idempotent_create(entry: &CreateIdempotencyEntry) -> (step: ReplayStep)
    ensures
        step == match entry.state {
            CreateIdempotencyState::Creating => ReplayStep::Wait,
            CreateIdempotencyState::Succeeded => ReplayStep::Fetch { sandbox_id: entry.sandbox_id },
            CreateIdempotencyState::Failed { message } => ReplayStep::Fail {
                error: OrchestratorError::InternalError {
                    fault: InternalFault::CreateFailed { key: entry.key, message },
                },
            },
            CreateIdempotencyState::Deleting => ReplayStep::Fail {
                error: OrchestratorError::CreateIdempotencyResultUnavailable { key: entry.key },
            },
        },
{
    match &entry.state {
        CreateIdempotencyState::Creating => ReplayStep::Wait,
        CreateIdempotencyState::Succeeded => ReplayStep::Fetch { sandbox_id: entry.sandbox_id },
        CreateIdempotencyState::Failed { message } => ReplayStep::Fail {
            error: OrchestratorError::InternalError {
                fault: InternalFault::CreateFailed {
                    key: entry.key.clone(),
                    message: message.clone(),
                },
            },
        },
        CreateIdempotencyState::Deleting => ReplayStep::Fail {
            error: OrchestratorError::CreateIdempotencyResultUnavailable { key: entry.key.clone() },
        },
    }
}

/// The outcome of a retry, given what is stored for the sandbox of its claim.
pub fn replayed_metadata(key: &String, found: Option<SandboxMetadata>) -> (outcome: Result<
    SandboxMetadata,
    OrchestratorError,
>)
    ensures
        outcome == match found {
            Some(metadata) => Ok::<SandboxMetadata, OrchestratorError>(metadata),
            None => Err(OrchestratorError::CreateIdempotencyResultUnavailable { key: *key }),
        },
{
    match found {
        Some(metadata) => Ok(metadata),
        None => Err(OrchestratorError::CreateIdempotencyResultUnavailable { key: key.clone() }),
    }
}

// ---------------------------------------------------------------------------------------------
// Laws
// ---------------------------------------------------------------------------------------------

/// The artifacts of a deleted sandbox go only once its record says that it is being deleted, and
/// its key is released only once record and artifacts are gone.
pub proof fn keys_outlive_what_they_stand_for(
    record: CreateIdempotencyRecord,
    recorded: PersistenceResult<()>,
    deleted: PersistenceResult<()>,
    forgotten: PersistenceResult<()>,
)
    ensures
        ({
            let first = (ReleaseStep::Record { record }).after(recorded);
            let second = first.after(deleted);
            let third = second.after(forgotten);
            &&& first is DeleteArtifacts <==> recorded is Ok
            &&& second is DeleteRecord <==> recorded is Ok && deleted is Ok
            &&& third is Release <==> recorded is Ok && deleted is Ok && forgotten is Ok
            &&& !(third is Release) ==> (third matches ReleaseStep::Done(outcome) && outcome is Err)
        }),
{
}

/// A change of the state of one claim leaves the owner of every key, its sandbox and its request
/// as they were.
pub proof fn states_move_and_owners_stay(
    entries: Seq<CreateIdempotencyEntry>,
    key: Seq<char>,
    token: u64,
    state: CreateIdempotencyState,
    other: Seq<char>,
)
    ensures
        ({
            let moved = CreateTable::moved(entries, key, token, state);
            &&& entry_of(moved, other) is Some <==> entry_of(entries, other) is Some
            &&& entry_of(moved, other) is Some ==> {
                let before = entry_of(entries, other)->0;
                let after = entry_of(moved, other)->0;
                &&& after.token == before.token
                &&& after.sandbox_id == before.sandbox_id
                &&& after.request_fingerprint == before.request_fingerprint
                &&& after.state == if other == key && before.token == token {
                    state
                } else {
                    before.state
                }
            }
        }),
{
    let moved = CreateTable::moved(entries, key, token, state);
    position_is_first(entries, key, 0);
    position_is_first(entries, other, 0);
    same_keys_same_position(entries, moved, other, 0);
}

proof fn same_keys_same_position(
    first: Seq<CreateIdempotencyEntry>,
    second: Seq<CreateIdempotencyEntry>,
    key: Seq<char>,
    from: int,
)
    requires
        0 <= from <= first.len(),
        first.len() == second.len(),
        forall|i: int| 0 <= i < first.len() ==> (#[trigger] first[i]).key == second[i].key,
    ensures
        position_of(first, key, from) == position_of(second, key, from),
    decreases first.len() - from,
{
    if from < first.len() {
        assert(first[from].key == second[from].key);
        same_keys_same_position(first, second, key, from + 1);
    }
}

/// Once a key is claimed, every further request with it is replayed or refused: no key ever has
/// two owners.
pub proof fn a_published_claim_is_found(
    entries: Seq<CreateIdempotencyEntry>,
    entry: CreateIdempotencyEntry,
)
    requires
        entry_of(entries, entry.key@) is None,
    ensures
        entry_of(entries.push(entry), entry.key@) == Some(entry),
{
    position_is_first(entries, entry.key@, 0);
    let more = entries.push(entry);
    position_is_first(more, entry.key@, 0);
    assert(more[entries.len() as int].key@ == entry.key@);
    assert(forall|k: int| 0 <= k < entries.len() ==> #[trigger] more[k] == entries[k]);
}

/// Whoever held a key before is not taken for its owner once the key is claimed anew.
pub proof fn stale_owners_stay_out(
    entries: Seq<CreateIdempotencyEntry>,
    entry: CreateIdempotencyEntry,
    stale: u64,
)
    requires
        entry_of(entries, entry.key@) is None,
        stale < entry.token,
    ensures
        CreateTable::is_current(entries.push(entry), entry.key@, entry.token),
        !CreateTable::is_current(entries.push(entry), entry.key@, stale),
{
    a_published_claim_is_found(entries, entry);
}

/// Once a key is released, it is free for a new claim.
pub proof fn a_released_key_is_free(entries: Seq<CreateIdempotencyEntry>, key: Seq<char>)
    requires
        is_table(entries),
        entry_of(entries, key) is Some,
    ensures
        entry_of(entries.remove(position_of(entries, key, 0)->0), key) is None,
{
    position_is_first(entries, key, 0);
    let at = position_of(entries, key, 0)->0;
    let rest = entries.remove(at);
    position_is_first(rest, key, 0);
    if position_of(rest, key, 0) is Some {
        let found = position_of(rest, key, 0)->0;
        let before = if found < at {
            found
        } else {
            found + 1
        };
        assert(rest[found] == entries[before]);
        assert(entries[at].key@ == entries[before].key@);
    }
}

/// A claim is found by its key, as long as no key is used twice, and no other claim is; a token is
/// current where the claim with the key has it.
pub proof fn claims_are_found_by_their_key(
    entries: Seq<CreateIdempotencyEntry>,
    key: Seq<char>,
    token: u64,
    at: int,
)
    requires
        is_table(entries),
        0 <= at < entries.len(),
    ensures
        entries[at].key@ == key ==> entry_of(entries, key) == Some(entries[at]),
        entry_of(entries, key) == Some(entries[at]) ==> entries[at].key@ == key,
        entry_of(entries, key) is Some <==> exists|k: int|
            0 <= k < entries.len() && (#[trigger] entries[k]).key@ == key,
        entries[at].key@ == key ==> (CreateTable::is_current(entries, key, token) <==> token
            == entries[at].token),
        entry_of(entries, key) is None ==> !CreateTable::is_current(entries, key, token),
{
    position_is_first(entries, key, 0);
    if position_of(entries, key, 0) is Some {
        let found = position_of(entries, key, 0)->0;
        if entries[at].key@ == key && found != at {
            if found < at {
                assert(entries[found].key@ != entries[at].key@);
            } else {
                assert(entries[at].key@ != entries[found].key@);
            }
        }
        assert(entries[found].key@ == key);
    }
}

/// A release takes one claim away and leaves every other as it was.
pub proof fn a_release_takes_one_claim(
    entries: Seq<CreateIdempotencyEntry>,
    key: Seq<char>,
    other: Seq<char>,
)
    requires
        is_table(entries),
        entry_of(entries, key) is Some,
        other != key,
    ensures
        entry_of(entries.remove(position_of(entries, key, 0)->0), other) == entry_of(entries, other),
{
    position_is_first(entries, key, 0);
    position_is_first(entries, other, 0);
    let at = position_of(entries, key, 0)->0;
    let rest = entries.remove(at);
    position_is_first(rest, other, 0);
    assert forall|i: int, j: int| 0 <= i < j < rest.len() implies (#[trigger] rest[i]).key@ != (
    #[trigger] rest[j]).key@ && rest[i].token != rest[j].token by {
        let first = if i < at {
            i
        } else {
            i + 1
        };
        let second = if j < at {
            j
        } else {
            j + 1
        };
        assert(rest[i] == entries[first] && rest[j] == entries[second]);
    }
    if position_of(entries, other, 0) is Some {
        let found = position_of(entries, other, 0)->0;
        let later = if found < at {
            found
        } else {
            found - 1
        };
        assert(rest[later] == entries[found]);
        claims_are_found_by_their_key(rest, other, 0, later);
    } else if position_of(rest, other, 0) is Some {
        let found = position_of(rest, other, 0)->0;
        let before = if found < at {
            found
        } else {
            found + 1
        };
        assert(rest[found] == entries[before]);
    }
}

/// After a restart a claim stands for the same request and the same sandbox as before; it has
/// succeeded exactly where its record says so, and else its outcome is told to be lost.
pub proof fn restarts_keep_successes_only(
    record: CreateIdempotencyRecord,
    entry: CreateIdempotencyEntry,
)
    requires
        is_restored(record, entry),
        is_settled(record.state),
    ensures
        record.state is Succeeded || record.state is Failed,
        entry.key == record.key,
        entry.sandbox_id == record.sandbox_id,
        entry.request_fingerprint == record.request_fingerprint,
        entry.state is Succeeded <==> record.state is Succeeded,
        record.state is Failed ==> (entry.state matches CreateIdempotencyState::Failed { message }
            && message@ == "previous create outcome is unavailable after restart"@),
{
}

/// The records that a restart may be left with are those of successes and failures.
pub proof fn settled_creates_have_an_outcome(state: CreateIdempotencyRecordState)
    ensures
        state is Succeeded ==> is_settled(state),
        state is Failed ==> is_settled(state),
        state is Creating ==> !is_settled(state),
        state is Deleting ==> !is_settled(state),
{
}

/// The deletion of a sandbox with a claim works on one record throughout, ends with the first
/// failure, tells it, and then does nothing more.
pub proof fn releases_end_with_the_first_failure(
    step: ReleaseStep,
    record: CreateIdempotencyRecord,
    outcome: PersistenceResult<()>,
)
    ensures
        (ReleaseStep::Record { record }).after(Ok(())) == (ReleaseStep::DeleteArtifacts { record }),
        (ReleaseStep::DeleteArtifacts { record }).after(Ok(())) == (ReleaseStep::DeleteRecord {
            record,
        }),
        (ReleaseStep::DeleteRecord { record }).after(Ok(())) is Release,
        ReleaseStep::Release.after(Ok(())) == ReleaseStep::Done(Ok(())),
        outcome matches Err(error) ==> !(step is Done) ==> step.after(outcome) == ReleaseStep::Done(
            Err(OrchestratorError::Persistence { error }),
        ),
        step is Done ==> step.after(outcome) == step,
{
}

/// A claim counts as being deleted for its own sandbox only, and only in that state.
pub proof fn deletions_are_of_the_own_sandbox(entry: CreateIdempotencyEntry, sandbox_id: SandboxId)
    ensures
        CreateTable::is_deleting(entry, sandbox_id) <==> entry.sandbox_id == sandbox_id && !(entry.state
            is Creating) && !(entry.state is Succeeded) && !(entry.state is Failed),
{
}

/// A claim that comes to a new state keeps whatever else it holds, and no other claim changes.
pub proof fn claims_change_one_by_one(
    entries: Seq<CreateIdempotencyEntry>,
    at: int,
    other: int,
    state: CreateIdempotencyState,
)
    requires
        0 <= at < entries.len(),
        0 <= other < entries.len(),
    ensures
        ({
            let changed = with_state(entries, at, state);
            &&& changed.len() == entries.len()
            &&& changed[at].state == state
            &&& changed[other].key == entries[other].key
            &&& changed[other].request_fingerprint == entries[other].request_fingerprint
            &&& changed[other].sandbox_id == entries[other].sandbox_id
            &&& changed[other].token == entries[other].token
            &&& other != at ==> changed[other] == entries[other]
        }),
{
}

} // verus!
