//! Errors of lifecycle operations.

use crate::ids::SandboxId;
use crate::orchestrator::persistence::error::SandboxPersistenceError;
use crate::orchestrator::types::{
    CreateIdempotencyFault, ImageOwner, SandboxState, VirtualizationMode,
};
use crate::text;
use vstd::prelude::*;

verus! {

/// A step of the runtime that can fail.
#[derive(Clone, Copy, Debug, PartialEq, Eq, Structural)]
pub enum SandboxOperation {
    Build,
    Start,
    WaitReady,
    Stop,
    Pause,
    Snapshot,
    Fork,
    UpdateNetwork,
    PatchCustomExtensionParams,
}

/// What went wrong inside the node.
#[allow(inconsistent_fields)]
#[derive(Debug)]
pub enum InternalFault {
    Message { message: String },
    MissingStopProof { sandbox_id: SandboxId },
    UnprovenAbsence { state: SandboxState, sandbox_id: SandboxId },
    MissingCreateEntry { sandbox_id: SandboxId, key: String },
    ForeignCreateEntry { sandbox_id: SandboxId, key: String, owner: SandboxId },
    ChangedCreateEntry { sandbox_id: SandboxId, key: String },
    InvalidDurableCreate { sandbox_id: SandboxId, fault: CreateIdempotencyFault },
    DuplicateCreateKey { key: String },
    IncompleteCreateMetadata { sandbox_id: SandboxId },
    InvalidCreateMetadata { sandbox_id: SandboxId, fault: CreateIdempotencyFault },
    SharedCreateKey { first: SandboxId, second: SandboxId, key: String },
    ConflictingCreateKey { sandbox_id: SandboxId, key: String },
    FailedCreateKey { sandbox_id: SandboxId, key: String },
    CreateStateClosed { key: String },
    CreateFailed { key: String, message: String },
    CreatePanicked { message: String },
    PausePersistence { error: SandboxPersistenceError },
    ResumeMark { error: SandboxPersistenceError },
    MissingPausedState,
    MissingInteractionIp,
    ShutdownIncomplete { passes: u32, failures: String },
    ImagePin { owner: ImageOwner, message: String },
    ImageReconcile { message: String },
    TaskEnded { message: String },
}

impl InternalFault {
    pub open spec fn shown(&self) -> Seq<char> {
        match self {
            InternalFault::Message { message } => message@,
            InternalFault::MissingStopProof { sandbox_id } => "cannot use paused sandbox "@ + sandbox_id.text() + ": durable runtime stop proof is unavailable"@,
            InternalFault::UnprovenAbsence { state, sandbox_id } => "cannot prove runtime absence for "@ + state.name_text() + " sandbox "@ + sandbox_id.text() + ": runtime handle is missing"@,
            InternalFault::MissingCreateEntry { sandbox_id, key } => "sandbox "@ + sandbox_id.text() + " is missing create idempotency entry '"@ + key@ + "'"@,
            InternalFault::ForeignCreateEntry { sandbox_id, key, owner } => "sandbox "@ + sandbox_id.text() + " create idempotency entry '"@ + key@ + "' points to "@ + owner.text(),
            InternalFault::ChangedCreateEntry { sandbox_id, key } => "sandbox "@ + sandbox_id.text() + " create idempotency entry '"@ + key@ + "' changed during delete"@,
            InternalFault::InvalidDurableCreate { sandbox_id, fault } => "invalid durable create idempotency record for sandbox "@ + sandbox_id.text() + ": "@ + fault.shown(),
            InternalFault::DuplicateCreateKey { key } => "duplicate durable create idempotency key '"@ + key@ + "'"@,
            InternalFault::IncompleteCreateMetadata { sandbox_id } => "sandbox "@ + sandbox_id.text() + " has incomplete create idempotency metadata"@,
            InternalFault::InvalidCreateMetadata { sandbox_id, fault } => "sandbox "@ + sandbox_id.text() + " has invalid create idempotency metadata: "@ + fault.shown(),
            InternalFault::SharedCreateKey { first, second, key } => "paused sandboxes "@ + first.text() + " and "@ + second.text() + " share create idempotency key '"@ + key@ + "'"@,
            InternalFault::ConflictingCreateKey { sandbox_id, key } => "paused sandbox "@ + sandbox_id.text() + " conflicts with durable create idempotency key '"@ + key@ + "'"@,
            InternalFault::FailedCreateKey { sandbox_id, key } => "paused sandbox "@ + sandbox_id.text() + " conflicts with failed create idempotency key '"@ + key@ + "'"@,
            InternalFault::CreateStateClosed { key } => "idempotent create state closed before completion for key '"@ + key@ + "'"@,
            InternalFault::CreateFailed { key, message } => "idempotent create for key '"@ + key@ + "' failed: "@ + message@,
            InternalFault::CreatePanicked { message } => "idempotent create panicked: "@ + message@,
            InternalFault::PausePersistence { error } => "failed to persist paused sandbox state: "@ + error.shown(),
            InternalFault::ResumeMark { error } => "failed to mark persisted sandbox record as resuming: "@ + error.shown(),
            InternalFault::MissingPausedState => "missing paused state"@,
            InternalFault::MissingInteractionIp => "sandbox missing host interaction IP after start"@,
            InternalFault::ShutdownIncomplete { passes, failures } => "failed to preserve all sandboxes during shutdown after "@ + text::decimal(passes as nat) + " passes: "@ + failures@,
            InternalFault::ImagePin { owner, message } => "pin "@ + owner.name_text() + " image refs: "@ + message@,
            InternalFault::ImageReconcile { message } => "reconcile local image protection: "@ + message@,
            InternalFault::TaskEnded { message } => "operation task ended before reporting result: "@ + message@,
        }
    }

    pub fn to_text(&self) -> (shown: String)
        ensures
            shown@ == self.shown(),
    {
        match self {
            InternalFault::Message { message } => message.clone(),
            InternalFault::MissingStopProof { sandbox_id } => text::concat3(
                "cannot use paused sandbox ",
                sandbox_id.to_text().as_str(),
                ": durable runtime stop proof is unavailable",
            ),
            InternalFault::UnprovenAbsence { state, sandbox_id } => text::concat5(
                "cannot prove runtime absence for ",
                state.name(),
                " sandbox ",
                sandbox_id.to_text().as_str(),
                ": runtime handle is missing",
            ),
            InternalFault::MissingCreateEntry { sandbox_id, key } => text::concat5(
                "sandbox ",
                sandbox_id.to_text().as_str(),
                " is missing create idempotency entry '",
                key.as_str(),
                "'",
            ),
            InternalFault::ForeignCreateEntry { sandbox_id, key, owner } => text::concat6(
                "sandbox ",
                sandbox_id.to_text().as_str(),
                " create idempotency entry '",
                key.as_str(),
                "' points to ",
                owner.to_text().as_str(),
            ),
            InternalFault::ChangedCreateEntry { sandbox_id, key } => text::concat5(
                "sandbox ",
                sandbox_id.to_text().as_str(),
                " create idempotency entry '",
                key.as_str(),
                "' changed during delete",
            ),
            InternalFault::InvalidDurableCreate { sandbox_id, fault } => text::concat4(
                "invalid durable create idempotency record for sandbox ",
                sandbox_id.to_text().as_str(),
                ": ",
                fault.to_text().as_str(),
            ),
            InternalFault::DuplicateCreateKey { key } => text::concat3(
                "duplicate durable create idempotency key '",
                key.as_str(),
                "'",
            ),
            InternalFault::IncompleteCreateMetadata { sandbox_id } => text::concat3(
                "sandbox ",
                sandbox_id.to_text().as_str(),
                " has incomplete create idempotency metadata",
            ),
            InternalFault::InvalidCreateMetadata { sandbox_id, fault } => text::concat4(
                "sandbox ",
                sandbox_id.to_text().as_str(),
                " has invalid create idempotency metadata: ",
                fault.to_text().as_str(),
            ),
            InternalFault::SharedCreateKey { first, second, key } => text::concat7(
                "paused sandboxes ",
                first.to_text().as_str(),
                " and ",
                second.to_text().as_str(),
                " share create idempotency key '",
                key.as_str(),
                "'",
            ),
            InternalFault::ConflictingCreateKey { sandbox_id, key } => text::concat5(
                "paused sandbox ",
                sandbox_id.to_text().as_str(),
                " conflicts with durable create idempotency key '",
                key.as_str(),
                "'",
            ),
            InternalFault::FailedCreateKey { sandbox_id, key } => text::concat5(
                "paused sandbox ",
                sandbox_id.to_text().as_str(),
                " conflicts with failed create idempotency key '",
                key.as_str(),
                "'",
            ),
            InternalFault::CreateStateClosed { key } => text::concat3(
                "idempotent create state closed before completion for key '",
                key.as_str(),
                "'",
            ),
            InternalFault::CreateFailed { key, message } => text::concat4(
                "idempotent create for key '",
                key.as_str(),
                "' failed: ",
                message.as_str(),
            ),
            InternalFault::CreatePanicked { message } => text::concat2(
                "idempotent create panicked: ",
                message.as_str(),
            ),
            InternalFault::PausePersistence { error } => text::concat2(
                "failed to persist paused sandbox state: ",
                error.to_text().as_str(),
            ),
            InternalFault::ResumeMark { error } => text::concat2(
                "failed to mark persisted sandbox record as resuming: ",
                error.to_text().as_str(),
            ),
            InternalFault::MissingPausedState => "missing paused state".to_owned(),
            InternalFault::MissingInteractionIp => "sandbox missing host interaction IP after start".to_owned(),
            InternalFault::ShutdownIncomplete { passes, failures } => text::concat4(
                "failed to preserve all sandboxes during shutdown after ",
                text::decimal_text(*passes as u64).as_str(),
                " passes: ",
                failures.as_str(),
            ),
            InternalFault::ImagePin { owner, message } => text::concat4(
                "pin ",
                owner.name(),
                " image refs: ",
                message.as_str(),
            ),
            InternalFault::ImageReconcile { message } => text::concat2(
                "reconcile local image protection: ",
                message.as_str(),
            ),
            InternalFault::TaskEnded { message } => text::concat2(
                "operation task ended before reporting result: ",
                message.as_str(),
            ),
        }
    }
}

/// An error of the metadata store.
#[derive(Debug)]
pub enum StoreError {
    /// The sandbox is in none of the states in which the change is allowed.
    StateConflict {
        sandbox_id: SandboxId,
        expected_states: Vec<SandboxState>,
        actual_state: SandboxState,
    },
    Other { message: String },
}

/// What is of another virtualization mode than the node.
#[derive(Debug)]
pub enum MismatchedResource {
    Snapshot { snapshot_id: String },
    PausedSandbox { sandbox_id: SandboxId },
}

impl MismatchedResource {
    pub open spec fn shown(&self) -> Seq<char> {
        match self {
            MismatchedResource::Snapshot { snapshot_id } => "snapshot "@ + snapshot_id@,
            MismatchedResource::PausedSandbox { sandbox_id } => "paused sandbox "@ + sandbox_id.text(),
        }
    }

    pub fn to_text(&self) -> (shown: String)
        ensures
            shown@ == self.shown(),
    {
        match self {
            MismatchedResource::Snapshot { snapshot_id } => text::concat2(
                "snapshot ",
                snapshot_id.as_str(),
            ),
            MismatchedResource::PausedSandbox { sandbox_id } => text::concat2(
                "paused sandbox ",
                sandbox_id.to_text().as_str(),
            ),
        }
    }
}

/// An error of a lifecycle operation. A `source` is the text of the error beneath.
#[allow(inconsistent_fields)]
#[derive(Debug)]
pub enum OrchestratorError {
    SandboxNotFound { sandbox_id: SandboxId },
    InvalidSandboxState { sandbox_id: SandboxId, state: SandboxState },
    SandboxOperationFailed { sandbox_id: SandboxId, operation: SandboxOperation, source: String },
    SandboxOperationConflict { sandbox_id: SandboxId, operation: SandboxOperation },
    SandboxRecoveryRequired { sandbox_id: SandboxId },
    CreateIdempotencyConflict { key: String },
    CreateIdempotencyResultUnavailable { key: String },
    VirtualizationModeMismatch {
        resource: MismatchedResource,
        resource_mode: VirtualizationMode,
        node_mode: VirtualizationMode,
    },
    ShuttingDown,
    InternalError { fault: InternalFault },
    Store { error: StoreError },
    Persistence { error: SandboxPersistenceError },
}

/// What is told of a fault inside the node names each sandbox, key and count that it is about, and
/// holds the text of the error beneath.
pub proof fn internal_faults_name_what_they_are_about(told: InternalFault)
    ensures
        told matches InternalFault::Message { message } ==> text::mentions(
            told.shown(),
            message@,
        ),
        told matches InternalFault::MissingStopProof { sandbox_id } ==> text::mentions(
            told.shown(),
            sandbox_id.text(),
        ),
        told matches InternalFault::UnprovenAbsence { state, sandbox_id } ==> {
            &&& text::mentions(told.shown(), state.name_text())
            &&& text::mentions(told.shown(), sandbox_id.text())
        },
        told matches InternalFault::MissingCreateEntry { sandbox_id, key } ==> {
            &&& text::mentions(told.shown(), sandbox_id.text())
            &&& text::mentions(told.shown(), key@)
        },
        told matches InternalFault::ForeignCreateEntry { sandbox_id, key, owner } ==> {
            &&& text::mentions(told.shown(), sandbox_id.text())
            &&& text::mentions(told.shown(), key@)
            &&& text::mentions(told.shown(), owner.text())
        },
        told matches InternalFault::ChangedCreateEntry { sandbox_id, key } ==> {
            &&& text::mentions(told.shown(), sandbox_id.text())
            &&& text::mentions(told.shown(), key@)
        },
        told matches InternalFault::InvalidDurableCreate { sandbox_id, fault } ==> {
            &&& text::mentions(told.shown(), sandbox_id.text())
            &&& text::mentions(told.shown(), fault.shown())
        },
        told matches InternalFault::DuplicateCreateKey { key } ==> text::mentions(
            told.shown(),
            key@,
        ),
        told matches InternalFault::IncompleteCreateMetadata { sandbox_id } ==> text::mentions(
            told.shown(),
            sandbox_id.text(),
        ),
        told matches InternalFault::InvalidCreateMetadata { sandbox_id, fault } ==> {
            &&& text::mentions(told.shown(), sandbox_id.text())
            &&& text::mentions(told.shown(), fault.shown())
        },
        told matches InternalFault::SharedCreateKey { first, second, key } ==> {
            &&& text::mentions(told.shown(), first.text())
            &&& text::mentions(told.shown(), second.text())
            &&& text::mentions(told.shown(), key@)
        },
        told matches InternalFault::ConflictingCreateKey { sandbox_id, key } ==> {
            &&& text::mentions(told.shown(), sandbox_id.text())
            &&& text::mentions(told.shown(), key@)
        },
        told matches InternalFault::FailedCreateKey { sandbox_id, key } ==> {
            &&& text::mentions(told.shown(), sandbox_id.text())
            &&& text::mentions(told.shown(), key@)
        },
        told matches InternalFault::CreateStateClosed { key } ==> text::mentions(
            told.shown(),
            key@,
        ),
        told matches InternalFault::CreateFailed { key, message } ==> {
            &&& text::mentions(told.shown(), key@)
            &&& text::mentions(told.shown(), message@)
        },
        told matches InternalFault::CreatePanicked { message } ==> text::mentions(
            told.shown(),
            message@,
        ),
        told matches InternalFault::PausePersistence { error } ==> text::mentions(
            told.shown(),
            error.shown(),
        ),
        told matches InternalFault::ResumeMark { error } ==> text::mentions(
            told.shown(),
            error.shown(),
        ),
        told matches InternalFault::ShutdownIncomplete { passes, failures } ==> {
            &&& text::mentions(told.shown(), text::decimal(passes as nat))
            &&& text::mentions(told.shown(), failures@)
        },
        told matches InternalFault::ImagePin { owner, message } ==> {
            &&& text::mentions(told.shown(), owner.name_text())
            &&& text::mentions(told.shown(), message@)
        },
        told matches InternalFault::ImageReconcile { message } ==> text::mentions(
            told.shown(),
            message@,
        ),
        told matches InternalFault::TaskEnded { message } ==> text::mentions(
            told.shown(),
            message@,
        ),
{
    broadcast use {text::the_end_is_mentioned, text::the_beginning_mentions};

    text::a_whole_is_mentioned(told.shown());
}

/// What is told of a mismatch names what is of another mode.
pub proof fn mismatches_name_the_resource(told: MismatchedResource)
    ensures
        told matches MismatchedResource::Snapshot { snapshot_id } ==> text::mentions(
            told.shown(),
            snapshot_id@,
        ),
        told matches MismatchedResource::PausedSandbox { sandbox_id } ==> text::mentions(
            told.shown(),
            sandbox_id.text(),
        ),
{
    broadcast use {text::the_end_is_mentioned, text::the_beginning_mentions};

    text::a_whole_is_mentioned(told.shown());
}

} // verus!
