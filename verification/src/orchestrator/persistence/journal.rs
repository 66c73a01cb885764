//! The durable journal of create operations.

use crate::ids::SandboxId;
use crate::orchestrator::persistence::codecs;
use crate::orchestrator::persistence::codecs::{
    decode_create_idempotency_record, PersistedCreateIdempotencyRecord,
    CREATE_IDEMPOTENCY_RECORD_VERSION,
};
use crate::orchestrator::persistence::error::{
    PersistenceResult, RecordFault, SandboxPersistenceError,
};
use crate::text;
use vstd::prelude::*;

verus! {

/// The durable state of one create claim.
///
/// Records are written before a runtime is started and are kept on every uncertain failure.
/// `Deleting` is written only after the runtime has been positively stopped, so a restart may
/// finish the deletion and release the key.
#[derive(Clone, Copy, Debug, PartialEq, Eq, Structural)]
pub enum CreateIdempotencyRecordState {
    Creating,
    Succeeded,
    Failed,
    Deleting,
}

#[derive(Debug)]
pub struct CreateIdempotencyRecord {
    pub key: String,
    pub request_fingerprint: String,
    pub sandbox_id: SandboxId,
    pub state: CreateIdempotencyRecordState,
}

impl CreateIdempotencyRecord {
    pub fn copy(&self) -> (copy: CreateIdempotencyRecord)
        ensures
            copy == *self,
    {
        CreateIdempotencyRecord {
            key: self.key.clone(),
            request_fingerprint: self.request_fingerprint.clone(),
            sandbox_id: self.sandbox_id,
            state: self.state,
        }
    }
}

/// What the journal holds under one key.
#[derive(Debug)]
pub struct JournalEntry {
    pub key: Vec<u8>,
    pub parsed: Result<PersistedCreateIdempotencyRecord, String>,
}

/// Whether a journal entry is a complete record of the current version under its own key.
pub open spec fn is_acceptable(entry: JournalEntry) -> bool {
    &&& vstd::utf8::valid_utf8(entry.key@)
    &&& entry.parsed matches Ok(stored)
    &&& codecs::acceptable_create_record(stored)
    &&& stored.record.key@ == vstd::utf8::decode_utf8(entry.key@)
}

/// Whether an error is the one that an unacceptable entry gives.
pub open spec fn is_fault_of(entry: JournalEntry, error: SandboxPersistenceError) -> bool {
    if !vstd::utf8::valid_utf8(entry.key@) {
        error matches SandboxPersistenceError::InvalidRecord {
            reason: RecordFault::CreateKeyNotText,
            source: Some(source),
        } && source@ == text::utf8_fault_text(entry.key@)
    } else {
        match entry.parsed {
            Err(source) => error == (SandboxPersistenceError::InvalidRecord {
                reason: RecordFault::UndecodableCreateRecord,
                source: Some(source),
            }),
            Ok(stored) => if stored.version != CREATE_IDEMPOTENCY_RECORD_VERSION {
                error.is_invalid(
                    RecordFault::UnsupportedCreateRecordVersion { version: stored.version },
                )
            } else if !codecs::acceptable_create_record(stored) {
                error.is_invalid(RecordFault::EmptyCreateRecord)
            } else {
                error matches SandboxPersistenceError::InvalidRecord { reason, source: None }
                    && reason matches RecordFault::CreateKeyMismatch { stored_key, record_key }
                    && stored_key@ == vstd::utf8::decode_utf8(entry.key@) && record_key
                    == stored.record.key
            },
        }
    }
}

/// Accepts one journal entry.
pub fn load_entry(entry: JournalEntry) -> (outcome: PersistenceResult<CreateIdempotencyRecord>)
    ensures
        match outcome {
            Ok(record) => is_acceptable(entry) && record == entry.parsed->Ok_0.record,
            Err(error) => !is_acceptable(entry) && is_fault_of(entry, error),
        },
{
    let stored_key = match text::utf8_text(&entry.key) {
        Ok(stored_key) => stored_key,
        Err(source) => return codecs::undecodable(RecordFault::CreateKeyNotText, source),
    };
    let record = match decode_create_idempotency_record(entry.parsed) {
        Ok(record) => record,
        Err(error) => return Err(error),
    };
    if record.key != stored_key {
        return Err(
            SandboxPersistenceError::invalid(
                RecordFault::CreateKeyMismatch { stored_key, record_key: record.key },
            ),
        );
    }
    Ok(record)
}

/// Accepts the whole journal, or none of it.
pub fn load(entries: Vec<JournalEntry>) -> (outcome: PersistenceResult<Vec<CreateIdempotencyRecord>>)
    ensures
        match outcome {
            Ok(records) => {
                &&& records@.len() == entries@.len()
                &&& forall|k: int|
                    0 <= k < entries@.len() ==> is_acceptable(#[trigger] entries@[k])
                        && entries@[k].parsed->Ok_0.record == records@[k]
            },
            Err(error) => exists|k: int|
                {
                    &&& 0 <= k < entries@.len()
                    &&& !is_acceptable(#[trigger] entries@[k])
                    &&& is_fault_of(entries@[k], error)
                    &&& forall|j: int| 0 <= j < k ==> is_acceptable(#[trigger] entries@[j])
                },
        },
{
    let ghost all = entries@;
    let mut rest = entries;
    let mut records: Vec<CreateIdempotencyRecord> = Vec::new();
    assert(all.skip(0) =~= all);
    while rest.len() > 0
        invariant
            records@.len() <= all.len(),
            rest@ == all.skip(records@.len() as int),
            all == entries@,
            forall|k: int|
                0 <= k < records@.len() ==> is_acceptable(#[trigger] all[k])
                    && all[k].parsed->Ok_0.record == records@[k],
        decreases rest@.len(),
    {
        let ghost at = records@.len() as int;
        let entry = rest.remove(0);
        assert(entry == all[at]);
        assert(rest@ =~= all.skip(at + 1));
        match load_entry(entry) {
            Ok(record) => {
                records.push(record);
            },
            Err(error) => {
                assert(!is_acceptable(entries@[at]));
                return Err(error);
            },
        }
    }
    Ok(records)
}

/// The bytes under which a record is kept.
pub fn journal_key(key: &String) -> (bytes: Vec<u8>)
    ensures
        bytes@ == text::text_bytes(key@),
{
    text::copy_bytes(key.as_str().as_bytes())
}

/// What is written for a complete record is accepted again under its key, as the same record.
pub proof fn written_records_are_read_back(
    record: CreateIdempotencyRecord,
    key: Vec<u8>,
    stored: PersistedCreateIdempotencyRecord,
)
    requires
        record.key@.len() > 0,
        record.request_fingerprint@.len() > 0,
        key@ == text::text_bytes(record.key@),
        stored == (PersistedCreateIdempotencyRecord {
            version: CREATE_IDEMPOTENCY_RECORD_VERSION,
            record,
        }),
    ensures
        is_acceptable(JournalEntry { key, parsed: Ok(stored) }),
{
    vstd::utf8::encode_utf8_valid_utf8(record.key@);
    vstd::utf8::encode_utf8_decode_utf8(record.key@);
}

/// An entry of the journal is accepted exactly where its key is text, what stands there could be read,
/// is of the current version and complete, and is about this very key.
pub proof fn entries_stand_under_their_own_key(
    entry: JournalEntry,
    stored: PersistedCreateIdempotencyRecord,
)
    ensures
        entry.parsed is Err ==> !is_acceptable(entry),
        !vstd::utf8::valid_utf8(entry.key@) ==> !is_acceptable(entry),
        entry.parsed == Ok::<PersistedCreateIdempotencyRecord, String>(stored) ==> {
            &&& is_acceptable(entry) ==> stored.version == 1 && stored.record.key@.len() > 0
                && stored.record.request_fingerprint@.len() > 0
            &&& vstd::utf8::valid_utf8(entry.key@) && stored.version == 1 && stored.record.key@.len()
                > 0 && stored.record.request_fingerprint@.len() > 0 ==> (is_acceptable(entry)
                <==> stored.record.key@ == vstd::utf8::decode_utf8(entry.key@))
        },
{
}

/// The error of an entry that was not accepted tells the first thing that is wrong with it.
pub proof fn faults_are_told_in_order(
    entry: JournalEntry,
    error: SandboxPersistenceError,
    stored: PersistedCreateIdempotencyRecord,
)
    requires
        !is_acceptable(entry),
        is_fault_of(entry, error),
    ensures
        error matches SandboxPersistenceError::InvalidRecord { reason, source } && {
            &&& !vstd::utf8::valid_utf8(entry.key@) ==> reason is CreateKeyNotText
            &&& vstd::utf8::valid_utf8(entry.key@) ==> {
                &&& entry.parsed is Err ==> reason is UndecodableCreateRecord && source == Some(
                    entry.parsed->Err_0,
                )
                &&& entry.parsed == Ok::<PersistedCreateIdempotencyRecord, String>(stored) ==> {
                    &&& stored.version != 1 ==> reason == (
                    RecordFault::UnsupportedCreateRecordVersion { version: stored.version })
                    &&& stored.version == 1 && (stored.record.key@.len() == 0
                        || stored.record.request_fingerprint@.len() == 0) ==> reason
                        is EmptyCreateRecord
                    &&& stored.version == 1 && stored.record.key@.len() > 0
                        && stored.record.request_fingerprint@.len() > 0 ==> (
                    reason matches RecordFault::CreateKeyMismatch { record_key, .. } && record_key
                        == stored.record.key)
                }
            }
        },
{
}

} // verus!
