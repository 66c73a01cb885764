//! The interface of a store for sandbox records and artifacts.

use crate::ids::SandboxId;
use crate::orchestrator::metadata::SandboxMetadata;
use crate::orchestrator::persistence::error::{
    PersistenceResult, RecordFault, SandboxPersistenceError,
};
use crate::orchestrator::persistence::journal::CreateIdempotencyRecord;
use crate::orchestrator::types::Document;
use crate::paths::StorePath;
use vstd::prelude::*;

verus! {

/// Stores sandbox records and artifacts. A store that does not keep stop proofs or create records
/// fails closed.
pub trait SandboxPersister {
    /// All persisted sandboxes.
    fn load_all(&self) -> (loaded: PersistenceResult<Vec<SandboxMetadata>>);

    /// A new directory for the artifacts of a sandbox; none where nothing is persisted.
    fn allocate_artifact_root(&self, sandbox_id: &SandboxId) -> (root: PersistenceResult<
        Option<StorePath>,
    >);

    /// Persists the metadata and the runtime state of a paused sandbox.
    fn persist_paused(
        &self,
        metadata: &SandboxMetadata,
        artifact_root: Option<&StorePath>,
        paused_state: &Document,
    ) -> (outcome: PersistenceResult<()>);

    /// Takes down that the runtime of a paused sandbox was positively stopped.
    fn mark_paused_runtime_stopped(&self, sandbox_id: &SandboxId) -> (outcome: PersistenceResult<()>)
        default_ensures
            outcome matches Err(error) && error.is_invalid(RecordFault::StopProofUnsupported),
    {
        Err(SandboxPersistenceError::invalid(RecordFault::StopProofUnsupported))
    }

    /// Marks a paused sandbox as being resumed.
    fn mark_resuming(&self, sandbox_id: &SandboxId) -> (outcome: PersistenceResult<()>);

    /// Takes the mark back after a failed resume.
    fn rollback_resuming(&self, sandbox_id: &SandboxId) -> (outcome: PersistenceResult<()>);

    /// Deletes the record of a sandbox.
    fn delete_record(&self, sandbox_id: &SandboxId) -> (outcome: PersistenceResult<()>);

    /// Deletes the record of a sandbox and all its artifacts.
    fn delete_record_and_artifacts(&self, sandbox_id: &SandboxId) -> (outcome: PersistenceResult<()>);

    /// All create records.
    fn load_create_idempotency_records(&self) -> (records: PersistenceResult<
        Vec<CreateIdempotencyRecord>,
    >)
        default_ensures
            records matches Ok(records) && records@.len() == 0,
    {
        Ok(Vec::new())
    }

    /// Persists a create record before its state is acknowledged.
    fn persist_create_idempotency_record(&self, record: &CreateIdempotencyRecord) -> (outcome:
        PersistenceResult<()>)
        default_ensures
            outcome matches Err(error) && error.is_invalid(RecordFault::CreateJournalUnsupported),
    {
        Err(SandboxPersistenceError::invalid(RecordFault::CreateJournalUnsupported))
    }

    /// Releases a create key once the deletion is proven complete.
    fn delete_create_idempotency_record(&self, key: &str) -> (outcome: PersistenceResult<()>)
        default_ensures
            outcome matches Err(error) && error.is_invalid(RecordFault::CreateJournalUnsupported),
    {
        Err(SandboxPersistenceError::invalid(RecordFault::CreateJournalUnsupported))
    }
}

/// Persists nothing, and never fails.
#[derive(Clone, Copy, Debug)]
pub struct DisabledSandboxPersister;

impl SandboxPersister for DisabledSandboxPersister {
    fn load_all(&self) -> (loaded: PersistenceResult<Vec<SandboxMetadata>>)
        ensures
            loaded matches Ok(loaded) && loaded@.len() == 0,
    {
        Ok(Vec::new())
    }

    fn allocate_artifact_root(&self, sandbox_id: &SandboxId) -> (root: PersistenceResult<
        Option<StorePath>,
    >)
        ensures
            root matches Ok(root) && root is None,
    {
        Ok(None)
    }

    fn persist_paused(
        &self,
        metadata: &SandboxMetadata,
        artifact_root: Option<&StorePath>,
        paused_state: &Document,
    ) -> (outcome: PersistenceResult<()>)
        ensures
            outcome is Ok,
    {
        Ok(())
    }

    fn mark_paused_runtime_stopped(&self, sandbox_id: &SandboxId) -> (outcome: PersistenceResult<()>)
        ensures
            outcome is Ok,
    {
        Ok(())
    }

    fn mark_resuming(&self, sandbox_id: &SandboxId) -> (outcome: PersistenceResult<()>)
        ensures
            outcome is Ok,
    {
        Ok(())
    }

    fn rollback_resuming(&self, sandbox_id: &SandboxId) -> (outcome: PersistenceResult<()>)
        ensures
            outcome is Ok,
    {
        Ok(())
    }

    fn delete_record(&self, sandbox_id: &SandboxId) -> (outcome: PersistenceResult<()>)
        ensures
            outcome is Ok,
    {
        Ok(())
    }

    fn delete_record_and_artifacts(&self, sandbox_id: &SandboxId) -> (outcome: PersistenceResult<()>)
        ensures
            outcome is Ok,
    {
        Ok(())
    }

    fn persist_create_idempotency_record(&self, record: &CreateIdempotencyRecord) -> (outcome:
        PersistenceResult<()>)
        ensures
            outcome is Ok,
    {
        Ok(())
    }

    fn delete_create_idempotency_record(&self, key: &str) -> (outcome: PersistenceResult<()>)
        ensures
            outcome is Ok,
    {
        Ok(())
    }
}

} // verus!
