//! The pause of a running sandbox.

use crate::ids::SandboxId;
use crate::orchestrator::error::{
    InternalFault, OrchestratorError, SandboxOperation, StoreError,
};
use crate::orchestrator::lifecycle;
use crate::orchestrator::lifecycle::{
    Action, Allowed, MetadataEdit, Operation, Reply, RuntimeFailure, Waited, World,
};
use crate::orchestrator::metadata::SandboxMetadata;
use crate::orchestrator::persistence::error::SandboxPersistenceError;
use crate::orchestrator::types::{
    ImageOwner, PausedStateRef, SandboxLifecycleEvent, SandboxLifecycleEventType,
    SandboxResources, SandboxState,
};
use vstd::prelude::*;

verus! {

/// Where a pause stands. A pause that finds another one under way waits for it and shares its
/// outcome.
#[allow(inconsistent_fields)]
#[derive(Debug)]
pub enum PauseStep {
    Begin,
    /// Wait for the pause under way.
    Join,
    /// Look at the sandbox, which is paused already. One that is not in doubt is gone on with as if
    /// it had just left its running state; without a runtime it ends as not found.
    CheckPaused,
    Protect,
    Allocate,
    Unallocated { error: SandboxPersistenceError },
    Detach,
    /// There is no runtime to pause.
    Lost,
    RemoveLost,
    PauseRuntime,
    Fetch { paused_state: PausedStateRef },
    Persist { metadata: SandboxMetadata },
    /// Nobody knows whether the paused state is durable.
    StoreDoubtful { metadata: SandboxMetadata },
    StopDoubtful,
    Store { metadata: SandboxMetadata },
    Stop { resources: SandboxResources },
    Mark { resources: SandboxResources },
    /// Nobody knows whether the stop proof is durable.
    DoubtStop,
    Prove { resources: SandboxResources },
    Publish { resources: SandboxResources },
    /// The paused state could not be persisted: let the runtime go on.
    ResumeRuntime { error: OrchestratorError },
    Attach { error: OrchestratorError },
    RestoreRoute { error: OrchestratorError },
    RestoreState { error: OrchestratorError, protected: bool },
    /// The runtime cannot be used any more.
    GiveUp { error: OrchestratorError, removal_must_succeed: bool },
    Drop { error: OrchestratorError, removal_must_succeed: bool },
    Release { error: OrchestratorError },
    Done(Result<(), OrchestratorError>),
}

/// A pause under way.
#[derive(Debug)]
pub struct PauseRun {
    pub sandbox_id: SandboxId,
    pub step: PauseStep,
}

impl PauseRun {
    pub fn pause_sandbox(sandbox_id: SandboxId) -> (run: PauseRun)
        ensures
            run == (PauseRun { sandbox_id, step: PauseStep::Begin }),
    {
        PauseRun { sandbox_id, step: PauseStep::Begin }
    }
}

impl Operation for PauseRun {
    open spec fn asks(self) -> Action {
        let sandbox_id = self.sandbox_id;
        match self.step {
            PauseStep::Begin => Action::Edit {
                allowed: Allowed::One(SandboxState::Running),
                edit: MetadataEdit::State(SandboxState::Pausing),
            },
            PauseStep::Join => Action::AwaitLeaving { state: SandboxState::Pausing },
            PauseStep::CheckPaused => Action::Fetch,
            PauseStep::Protect => Action::ProtectImages { owner: ImageOwner::PausedSandbox },
            PauseStep::Allocate => Action::AllocateArtifacts,
            PauseStep::Unallocated { .. } => Action::ReleaseImages { owner: ImageOwner::PausedSandbox },
            PauseStep::Detach => Action::Detach,
            PauseStep::Lost => Action::ReleaseImages { owner: ImageOwner::PausedSandbox },
            PauseStep::RemoveLost => Action::Remove,
            PauseStep::PauseRuntime => Action::PauseRuntime,
            PauseStep::Fetch { .. } => Action::Fetch,
            PauseStep::Persist { metadata } => Action::PersistPaused { metadata },
            PauseStep::StoreDoubtful { metadata } => Action::Replace { metadata },
            PauseStep::StopDoubtful => Action::StopRuntime,
            PauseStep::Store { metadata } => Action::Replace { metadata },
            PauseStep::Stop { .. } => Action::StopRuntime,
            PauseStep::Mark { .. } => Action::MarkStopped,
            PauseStep::DoubtStop => Action::Edit {
                allowed: Allowed::One(SandboxState::Paused),
                edit: MetadataEdit::DoubtStop,
            },
            PauseStep::Prove { .. } => Action::Edit {
                allowed: Allowed::One(SandboxState::Paused),
                edit: MetadataEdit::ProveStop,
            },
            PauseStep::Publish { resources } => Action::PublishEvent {
                event: SandboxLifecycleEvent {
                    event_type: SandboxLifecycleEventType::Pause,
                    sandbox_id,
                    resources,
                },
            },
            PauseStep::ResumeRuntime { .. } => Action::ResumeRuntime,
            PauseStep::Attach { .. } => Action::Attach,
            PauseStep::RestoreRoute { .. } => Action::RestoreRoute,
            PauseStep::RestoreState { .. } => Action::Edit {
                allowed: Allowed::One(SandboxState::Pausing),
                edit: MetadataEdit::State(SandboxState::Running),
            },
            PauseStep::GiveUp { .. } => Action::StopRuntime,
            PauseStep::Drop { .. } => Action::Remove,
            PauseStep::Release { .. } => Action::ReleaseImages { owner: ImageOwner::PausedSandbox },
            PauseStep::Done(_) => Action::Nothing,
        }
    }

    open spec fn after(self, reply: Reply) -> PauseRun {
        let sandbox_id = self.sandbox_id;
        let step = match (self.step, reply) {
            (PauseStep::Begin, Reply::Edited(Ok(_))) => PauseStep::Protect,
            (PauseStep::Begin, Reply::Edited(Err(StoreError::StateConflict { actual_state, .. }))) => {
                match actual_state {
                    SandboxState::Pausing => PauseStep::Join,
                    SandboxState::Paused => PauseStep::CheckPaused,
                    SandboxState::Killing => PauseStep::Done(
                        Err(OrchestratorError::SandboxNotFound { sandbox_id }),
                    ),
                    state => PauseStep::Done(
                        Err(OrchestratorError::InvalidSandboxState { sandbox_id, state }),
                    ),
                }
            },
            (PauseStep::Begin, Reply::Edited(Err(error))) => PauseStep::Done(
                Err(OrchestratorError::Store { error }),
            ),
            (PauseStep::Join, Reply::Waited(Waited::Left(metadata))) => match metadata.state {
                SandboxState::Paused => if metadata.paused_runtime_stopped {
                    PauseStep::Done(Ok(()))
                } else {
                    PauseStep::Done(
                        Err(
                            OrchestratorError::InternalError {
                                fault: InternalFault::MissingStopProof { sandbox_id: metadata.id },
                            },
                        ),
                    )
                },
                SandboxState::Killing => PauseStep::Done(
                    Err(OrchestratorError::SandboxNotFound { sandbox_id }),
                ),
                state => PauseStep::Done(
                    Err(OrchestratorError::InvalidSandboxState { sandbox_id, state }),
                ),
            },
            (PauseStep::Join, Reply::Waited(Waited::Gone)) => PauseStep::Done(
                Err(OrchestratorError::SandboxNotFound { sandbox_id }),
            ),
            (PauseStep::Join, Reply::Waited(Waited::Failed(error))) => PauseStep::Done(
                Err(OrchestratorError::Store { error }),
            ),
            (PauseStep::Join, Reply::Waited(Waited::TimedOut)) => PauseStep::Done(
                Err(
                    OrchestratorError::InvalidSandboxState { sandbox_id, state: SandboxState::Pausing },
                ),
            ),
            (PauseStep::CheckPaused, Reply::Fetched(Ok(Some(metadata)))) => {
                if metadata.resume_recovery_pending {
                    PauseStep::Done(
                        Err(OrchestratorError::SandboxRecoveryRequired { sandbox_id: metadata.id }),
                    )
                } else if !metadata.paused_runtime_stopped {
                    PauseStep::Done(
                        Err(
                            OrchestratorError::InternalError {
                                fault: InternalFault::MissingStopProof { sandbox_id: metadata.id },
                            },
                        ),
                    )
                } else {
                    PauseStep::Protect
                }
            },
            (PauseStep::CheckPaused, Reply::Fetched(Ok(None))) => PauseStep::Done(
                Err(OrchestratorError::SandboxNotFound { sandbox_id }),
            ),
            (PauseStep::CheckPaused, Reply::Fetched(Err(error))) => PauseStep::Done(
                Err(OrchestratorError::Store { error }),
            ),
            (PauseStep::Protect, Reply::Protected(Ok(_))) => PauseStep::Allocate,
            (PauseStep::Protect, Reply::Protected(Err(message))) => PauseStep::RestoreState {
                error: OrchestratorError::InternalError {
                    fault: InternalFault::ImagePin { owner: ImageOwner::PausedSandbox, message },
                },
                protected: false,
            },
            (PauseStep::Allocate, Reply::Persisted(Ok(_))) => PauseStep::Detach,
            (PauseStep::Allocate, Reply::Persisted(Err(error))) => PauseStep::Unallocated { error },
            (PauseStep::Unallocated { error }, Reply::Done) => PauseStep::RestoreState {
                error: OrchestratorError::Persistence { error },
                protected: false,
            },
            (PauseStep::Detach, Reply::Answer(found)) => if found {
                PauseStep::PauseRuntime
            } else {
                PauseStep::Lost
            },
            (PauseStep::Lost, Reply::Done) => PauseStep::RemoveLost,
            (PauseStep::RemoveLost, Reply::Stored(Ok(_))) => PauseStep::Done(
                Err(OrchestratorError::SandboxNotFound { sandbox_id }),
            ),
            (PauseStep::RemoveLost, Reply::Stored(Err(error))) => PauseStep::Done(
                Err(OrchestratorError::Store { error }),
            ),
            (PauseStep::PauseRuntime, Reply::Paused(Ok(paused_state))) => PauseStep::Fetch { paused_state },
            (PauseStep::PauseRuntime, Reply::Paused(Err(failure))) => {
                let error = OrchestratorError::SandboxOperationFailed {
                    sandbox_id,
                    operation: SandboxOperation::Pause,
                    source: failure.source,
                };
                if failure.terminal {
                    PauseStep::GiveUp { error, removal_must_succeed: true }
                } else {
                    PauseStep::Attach { error }
                }
            },
            (PauseStep::Fetch { paused_state }, Reply::Fetched(Ok(Some(metadata)))) => PauseStep::Persist {
                metadata: SandboxMetadata {
                    state: SandboxState::Paused,
                    paused_state: Some(paused_state),
                    paused_runtime_stopped: false,
                    ..metadata
                },
            },
            (PauseStep::Fetch { .. }, Reply::Fetched(Ok(None))) => PauseStep::Done(
                Err(OrchestratorError::SandboxNotFound { sandbox_id }),
            ),
            (PauseStep::Fetch { .. }, Reply::Fetched(Err(error))) => PauseStep::Done(
                Err(OrchestratorError::Store { error }),
            ),
            (PauseStep::Persist { metadata }, Reply::Persisted(Ok(_))) => PauseStep::Store { metadata },
            (
                PauseStep::Persist { metadata },
                Reply::Persisted(Err(SandboxPersistenceError::UncertainCommit { .. })),
            ) => PauseStep::StoreDoubtful {
                metadata: SandboxMetadata {
                    resume_recovery_pending: true,
                    paused_runtime_stopped: false,
                    ..metadata
                },
            },
            (PauseStep::Persist { .. }, Reply::Persisted(Err(error))) => PauseStep::ResumeRuntime {
                error: OrchestratorError::InternalError {
                    fault: InternalFault::PausePersistence { error },
                },
            },
            (PauseStep::StoreDoubtful { .. }, Reply::Stored(_)) => PauseStep::StopDoubtful,
            (PauseStep::StopDoubtful, Reply::Ran(_)) => PauseStep::Done(
                Err(OrchestratorError::SandboxRecoveryRequired { sandbox_id }),
            ),
            (PauseStep::Store { metadata }, Reply::Stored(Ok(_))) => PauseStep::Stop {
                resources: metadata.resources,
            },
            (PauseStep::Store { .. }, Reply::Stored(Err(error))) => PauseStep::Done(
                Err(OrchestratorError::Store { error }),
            ),
            (PauseStep::Stop { resources }, Reply::Ran(Ok(_))) => PauseStep::Mark { resources },
            (PauseStep::Stop { .. }, Reply::Ran(Err(source))) => PauseStep::Done(
                Err(
                    OrchestratorError::SandboxOperationFailed {
                        sandbox_id,
                        operation: SandboxOperation::Stop,
                        source,
                    },
                ),
            ),
            (PauseStep::Mark { resources }, Reply::Persisted(Ok(_))) => PauseStep::Prove { resources },
            (
                PauseStep::Mark { .. },
                Reply::Persisted(Err(SandboxPersistenceError::UncertainCommit { .. })),
            ) => PauseStep::DoubtStop,
            (PauseStep::Mark { .. }, Reply::Persisted(Err(error))) => PauseStep::Done(
                Err(OrchestratorError::Persistence { error }),
            ),
            (PauseStep::DoubtStop, Reply::Edited(_)) => PauseStep::Done(
                Err(OrchestratorError::SandboxRecoveryRequired { sandbox_id }),
            ),
            (PauseStep::Prove { resources }, Reply::Edited(Ok(_))) => PauseStep::Publish { resources },
            (PauseStep::Prove { .. }, Reply::Edited(Err(error))) => PauseStep::Done(
                Err(OrchestratorError::Store { error }),
            ),
            (PauseStep::Publish { .. }, Reply::Done) => PauseStep::Done(Ok(())),
            (PauseStep::ResumeRuntime { error }, Reply::Ran(Ok(_))) => PauseStep::Attach { error },
            (PauseStep::ResumeRuntime { error }, Reply::Ran(Err(_))) => PauseStep::GiveUp {
                error,
                removal_must_succeed: false,
            },
            (PauseStep::Attach { error }, Reply::Done) => PauseStep::RestoreRoute { error },
            (PauseStep::RestoreRoute { error }, Reply::Done) => PauseStep::RestoreState {
                error,
                protected: true,
            },
            (PauseStep::RestoreState { error, protected }, Reply::Edited(_)) => if protected {
                PauseStep::Release { error }
            } else {
                PauseStep::Done(Err(error))
            },
            (PauseStep::GiveUp { error, removal_must_succeed }, Reply::Ran(_)) => PauseStep::Drop {
                error,
                removal_must_succeed,
            },
            (PauseStep::Drop { error, .. }, Reply::Stored(Ok(_))) => PauseStep::Release { error },
            (PauseStep::Drop { error, removal_must_succeed }, Reply::Stored(Err(store_error))) => {
                if removal_must_succeed {
                    PauseStep::Done(Err(OrchestratorError::Store { error: store_error }))
                } else {
                    PauseStep::Release { error }
                }
            },
            (PauseStep::Release { error }, Reply::Done) => PauseStep::Done(Err(error)),
            (step, _) => step,
        };
        PauseRun { step, ..self }
    }

    fn action(&self) -> Action {
        let sandbox_id = self.sandbox_id;
        match &self.step {
            PauseStep::Begin => Action::Edit {
                allowed: Allowed::One(SandboxState::Running),
                edit: MetadataEdit::State(SandboxState::Pausing),
            },
            PauseStep::Join => Action::AwaitLeaving { state: SandboxState::Pausing },
            PauseStep::CheckPaused => Action::Fetch,
            PauseStep::Protect => Action::ProtectImages { owner: ImageOwner::PausedSandbox },
            PauseStep::Allocate => Action::AllocateArtifacts,
            PauseStep::Unallocated { .. } => Action::ReleaseImages { owner: ImageOwner::PausedSandbox },
            PauseStep::Detach => Action::Detach,
            PauseStep::Lost => Action::ReleaseImages { owner: ImageOwner::PausedSandbox },
            PauseStep::RemoveLost => Action::Remove,
            PauseStep::PauseRuntime => Action::PauseRuntime,
            PauseStep::Fetch { .. } => Action::Fetch,
            PauseStep::Persist { metadata } => Action::PersistPaused { metadata: metadata.copy() },
            PauseStep::StoreDoubtful { metadata } => Action::Replace { metadata: metadata.copy() },
            PauseStep::StopDoubtful => Action::StopRuntime,
            PauseStep::Store { metadata } => Action::Replace { metadata: metadata.copy() },
            PauseStep::Stop { .. } => Action::StopRuntime,
            PauseStep::Mark { .. } => Action::MarkStopped,
            PauseStep::DoubtStop => Action::Edit {
                allowed: Allowed::One(SandboxState::Paused),
                edit: MetadataEdit::DoubtStop,
            },
            PauseStep::Prove { .. } => Action::Edit {
                allowed: Allowed::One(SandboxState::Paused),
                edit: MetadataEdit::ProveStop,
            },
            PauseStep::Publish { resources } => Action::PublishEvent {
                event: SandboxLifecycleEvent {
                    event_type: SandboxLifecycleEventType::Pause,
                    sandbox_id,
                    resources: *resources,
                },
            },
            PauseStep::ResumeRuntime { .. } => Action::ResumeRuntime,
            PauseStep::Attach { .. } => Action::Attach,
            PauseStep::RestoreRoute { .. } => Action::RestoreRoute,
            PauseStep::RestoreState { .. } => Action::Edit {
                allowed: Allowed::One(SandboxState::Pausing),
                edit: MetadataEdit::State(SandboxState::Running),
            },
            PauseStep::GiveUp { .. } => Action::StopRuntime,
            PauseStep::Drop { .. } => Action::Remove,
            PauseStep::Release { .. } => Action::ReleaseImages { owner: ImageOwner::PausedSandbox },
            PauseStep::Done(_) => Action::Nothing,
        }
    }

    fn next(self, reply: Reply) -> PauseRun {
        let sandbox_id = self.sandbox_id;
        let step = match (self.step, reply) {
            (PauseStep::Begin, Reply::Edited(Ok(_))) => PauseStep::Protect,
            (PauseStep::Begin, Reply::Edited(Err(StoreError::StateConflict { actual_state, .. }))) => {
                match actual_state {
                    SandboxState::Pausing => PauseStep::Join,
                    SandboxState::Paused => PauseStep::CheckPaused,
                    SandboxState::Killing => PauseStep::Done(
                        Err(OrchestratorError::SandboxNotFound { sandbox_id }),
                    ),
                    state => PauseStep::Done(
                        Err(OrchestratorError::InvalidSandboxState { sandbox_id, state }),
                    ),
                }
            },
            (PauseStep::Begin, Reply::Edited(Err(error))) => PauseStep::Done(
                Err(OrchestratorError::Store { error }),
            ),
            (PauseStep::Join, Reply::Waited(Waited::Left(metadata))) => match metadata.state {
                SandboxState::Paused => if metadata.paused_runtime_stopped {
                    PauseStep::Done(Ok(()))
                } else {
                    PauseStep::Done(
                        Err(
                            OrchestratorError::InternalError {
                                fault: InternalFault::MissingStopProof { sandbox_id: metadata.id },
                            },
                        ),
                    )
                },
                SandboxState::Killing => PauseStep::Done(
                    Err(OrchestratorError::SandboxNotFound { sandbox_id }),
                ),
                state => PauseStep::Done(
                    Err(OrchestratorError::InvalidSandboxState { sandbox_id, state }),
                ),
            },
            (PauseStep::Join, Reply::Waited(Waited::Gone)) => PauseStep::Done(
                Err(OrchestratorError::SandboxNotFound { sandbox_id }),
            ),
            (PauseStep::Join, Reply::Waited(Waited::Failed(error))) => PauseStep::Done(
                Err(OrchestratorError::Store { error }),
            ),
            (PauseStep::Join, Reply::Waited(Waited::TimedOut)) => PauseStep::Done(
                Err(
                    OrchestratorError::InvalidSandboxState { sandbox_id, state: SandboxState::Pausing },
                ),
            ),
            (PauseStep::CheckPaused, Reply::Fetched(Ok(Some(metadata)))) => {
                if metadata.resume_recovery_pending {
                    PauseStep::Done(
                        Err(OrchestratorError::SandboxRecoveryRequired { sandbox_id: metadata.id }),
                    )
                } else if !metadata.paused_runtime_stopped {
                    PauseStep::Done(
                        Err(
                            OrchestratorError::InternalError {
                                fault: InternalFault::MissingStopProof { sandbox_id: metadata.id },
                            },
                        ),
                    )
                } else {
                    PauseStep::Protect
                }
            },
            (PauseStep::CheckPaused, Reply::Fetched(Ok(None))) => PauseStep::Done(
                Err(OrchestratorError::SandboxNotFound { sandbox_id }),
            ),
            (PauseStep::CheckPaused, Reply::Fetched(Err(error))) => PauseStep::Done(
                Err(OrchestratorError::Store { error }),
            ),
            (PauseStep::Protect, Reply::Protected(Ok(_))) => PauseStep::Allocate,
            (PauseStep::Protect, Reply::Protected(Err(message))) => PauseStep::RestoreState {
                error: OrchestratorError::InternalError {
                    fault: InternalFault::ImagePin { owner: ImageOwner::PausedSandbox, message },
                },
                protected: false,
            },
            (PauseStep::Allocate, Reply::Persisted(Ok(_))) => PauseStep::Detach,
            (PauseStep::Allocate, Reply::Persisted(Err(error))) => PauseStep::Unallocated { error },
            (PauseStep::Unallocated { error }, Reply::Done) => PauseStep::RestoreState {
                error: OrchestratorError::Persistence { error },
                protected: false,
            },
            (PauseStep::Detach, Reply::Answer(found)) => if found {
                PauseStep::PauseRuntime
            } else {
                PauseStep::Lost
            },
            (PauseStep::Lost, Reply::Done) => PauseStep::RemoveLost,
            (PauseStep::RemoveLost, Reply::Stored(Ok(_))) => PauseStep::Done(
                Err(OrchestratorError::SandboxNotFound { sandbox_id }),
            ),
            (PauseStep::RemoveLost, Reply::Stored(Err(error))) => PauseStep::Done(
                Err(OrchestratorError::Store { error }),
            ),
            (PauseStep::PauseRuntime, Reply::Paused(Ok(paused_state))) => PauseStep::Fetch { paused_state },
            (PauseStep::PauseRuntime, Reply::Paused(Err(failure))) => {
                let error = OrchestratorError::SandboxOperationFailed {
                    sandbox_id,
                    operation: SandboxOperation::Pause,
                    source: failure.source,
                };
                if failure.terminal {
                    PauseStep::GiveUp { error, removal_must_succeed: true }
                } else {
                    PauseStep::Attach { error }
                }
            },
            (PauseStep::Fetch { paused_state }, Reply::Fetched(Ok(Some(metadata)))) => PauseStep::Persist {
                metadata: SandboxMetadata {
                    state: SandboxState::Paused,
                    paused_state: Some(paused_state),
                    paused_runtime_stopped: false,
                    ..metadata
                },
            },
            (PauseStep::Fetch { .. }, Reply::Fetched(Ok(None))) => PauseStep::Done(
                Err(OrchestratorError::SandboxNotFound { sandbox_id }),
            ),
            (PauseStep::Fetch { .. }, Reply::Fetched(Err(error))) => PauseStep::Done(
                Err(OrchestratorError::Store { error }),
            ),
            (PauseStep::Persist { metadata }, Reply::Persisted(Ok(_))) => PauseStep::Store { metadata },
            (
                PauseStep::Persist { metadata },
                Reply::Persisted(Err(SandboxPersistenceError::UncertainCommit { .. })),
            ) => PauseStep::StoreDoubtful {
                metadata: SandboxMetadata {
                    resume_recovery_pending: true,
                    paused_runtime_stopped: false,
                    ..metadata
                },
            },
            (PauseStep::Persist { .. }, Reply::Persisted(Err(error))) => PauseStep::ResumeRuntime {
                error: OrchestratorError::InternalError {
                    fault: InternalFault::PausePersistence { error },
                },
            },
            (PauseStep::StoreDoubtful { .. }, Reply::Stored(_)) => PauseStep::StopDoubtful,
            (PauseStep::StopDoubtful, Reply::Ran(_)) => PauseStep::Done(
                Err(OrchestratorError::SandboxRecoveryRequired { sandbox_id }),
            ),
            (PauseStep::Store { metadata }, Reply::Stored(Ok(_))) => PauseStep::Stop {
                resources: metadata.resources,
            },
            (PauseStep::Store { .. }, Reply::Stored(Err(error))) => PauseStep::Done(
                Err(OrchestratorError::Store { error }),
            ),
            (PauseStep::Stop { resources }, Reply::Ran(Ok(_))) => PauseStep::Mark { resources },
            (PauseStep::Stop { .. }, Reply::Ran(Err(source))) => PauseStep::Done(
                Err(
                    OrchestratorError::SandboxOperationFailed {
                        sandbox_id,
                        operation: SandboxOperation::Stop,
                        source,
                    },
                ),
            ),
            (PauseStep::Mark { resources }, Reply::Persisted(Ok(_))) => PauseStep::Prove { resources },
            (
                PauseStep::Mark { .. },
                Reply::Persisted(Err(SandboxPersistenceError::UncertainCommit { .. })),
            ) => PauseStep::DoubtStop,
            (PauseStep::Mark { .. }, Reply::Persisted(Err(error))) => PauseStep::Done(
                Err(OrchestratorError::Persistence { error }),
            ),
            (PauseStep::DoubtStop, Reply::Edited(_)) => PauseStep::Done(
                Err(OrchestratorError::SandboxRecoveryRequired { sandbox_id }),
            ),
            (PauseStep::Prove { resources }, Reply::Edited(Ok(_))) => PauseStep::Publish { resources },
            (PauseStep::Prove { .. }, Reply::Edited(Err(error))) => PauseStep::Done(
                Err(OrchestratorError::Store { error }),
            ),
            (PauseStep::Publish { .. }, Reply::Done) => PauseStep::Done(Ok(())),
            (PauseStep::ResumeRuntime { error }, Reply::Ran(Ok(_))) => PauseStep::Attach { error },
            (PauseStep::ResumeRuntime { error }, Reply::Ran(Err(_))) => PauseStep::GiveUp {
                error,
                removal_must_succeed: false,
            },
            (PauseStep::Attach { error }, Reply::Done) => PauseStep::RestoreRoute { error },
            (PauseStep::RestoreRoute { error }, Reply::Done) => PauseStep::RestoreState {
                error,
                protected: true,
            },
            (PauseStep::RestoreState { error, protected }, Reply::Edited(_)) => if protected {
                PauseStep::Release { error }
            } else {
                PauseStep::Done(Err(error))
            },
            (PauseStep::GiveUp { error, removal_must_succeed }, Reply::Ran(_)) => PauseStep::Drop {
                error,
                removal_must_succeed,
            },
            (PauseStep::Drop { error, .. }, Reply::Stored(Ok(_))) => PauseStep::Release { error },
            (PauseStep::Drop { error, removal_must_succeed }, Reply::Stored(Err(store_error))) => {
                if removal_must_succeed {
                    PauseStep::Done(Err(OrchestratorError::Store { error: store_error }))
                } else {
                    PauseStep::Release { error }
                }
            },
            (PauseStep::Release { error }, Reply::Done) => PauseStep::Done(Err(error)),
            (step, _) => step,
        };
        PauseRun { step, ..self }
    }
}

/// What holds of the sandbox when its pause is at a step.
pub open spec fn is_sound(run: PauseRun, world: World) -> bool {
    &&& world.is_truthful()
    &&& match run.step {
        PauseStep::CheckPaused => world.metadata is Some && world.metadata->0.state is Paused,
        PauseStep::Persist { metadata } => metadata.state is Paused
            && !metadata.paused_runtime_stopped,
        PauseStep::StoreDoubtful { metadata } => metadata.state is Paused
            && !metadata.paused_runtime_stopped && metadata.resume_recovery_pending,
        PauseStep::Store { metadata } => metadata.state is Paused
            && !metadata.paused_runtime_stopped,
        PauseStep::Mark { .. } => !world.alive,
        PauseStep::DoubtStop => !world.alive,
        PauseStep::Prove { .. } => !world.alive,
        PauseStep::Publish { .. } => is_proven_paused(world),
        PauseStep::Done(Ok(_)) => is_proven_paused(world),
        _ => true,
    }
}

/// Whether a sandbox is paused and its runtime is provably gone.
pub open spec fn is_proven_paused(world: World) -> bool {
    &&& world.metadata is Some
    &&& world.metadata->0.state is Paused
    &&& world.metadata->0.paused_runtime_stopped
    &&& !world.alive
}

proof fn steps_keep_soundness(run: PauseRun, reply: Reply, before: World, after: World)
    requires
        is_sound(run, before),
        lifecycle::answers(run.asks(), reply),
        lifecycle::happens(before, run.asks(), reply, after),
    ensures
        is_sound(run.after(reply), after),
{
}

/// At every moment of every pause, a stop proof is only there where the runtime is gone, and a
/// pause that succeeds leaves a paused sandbox whose runtime is provably gone.
pub proof fn pauses_prove_what_they_claim(
    runs: Seq<PauseRun>,
    replies: Seq<Reply>,
    worlds: Seq<World>,
    at: int,
)
    requires
        lifecycle::is_history(runs, replies, worlds),
        runs[0].step is Begin,
        worlds[0].is_truthful(),
        0 <= at < runs.len(),
    ensures
        worlds[at].is_truthful(),
        runs[at].step matches PauseStep::Done(Ok(_)) ==> is_proven_paused(worlds[at]),
        is_sound(runs[at], worlds[at]),
    decreases at,
{
    if at > 0 {
        pauses_prove_what_they_claim(runs, replies, worlds, at - 1);
        assert(lifecycle::happens(
            worlds[at - 1],
            runs[at - 1].asks(),
            replies[at - 1],
            worlds[at],
        ));
        steps_keep_soundness(runs[at - 1], replies[at - 1], worlds[at - 1], worlds[at]);
    }
}

/// A write that may or may not have happened never lets a pause succeed: the sandbox waits for
/// recovery, without a stop proof.
pub proof fn uncertain_writes_await_recovery(
    run: PauseRun,
    error: SandboxPersistenceError,
    stored: Result<(), StoreError>,
    ran: Result<(), String>,
    edited: Result<SandboxMetadata, StoreError>,
)
    requires
        error is UncertainCommit,
        run.step is Persist || run.step is Mark,
    ensures
        run.step is Persist ==> {
            let doubtful = run.after(Reply::Persisted(Err(error)));
            &&& doubtful.asks() matches Action::Replace { metadata }
            &&& metadata.resume_recovery_pending && !metadata.paused_runtime_stopped
            &&& doubtful.after(Reply::Stored(stored)).asks() is StopRuntime
            &&& doubtful.after(Reply::Stored(stored)).after(Reply::Ran(ran)).step == (
            PauseStep::Done(
                Err(OrchestratorError::SandboxRecoveryRequired { sandbox_id: run.sandbox_id }),
            ))
        },
        run.step is Mark ==> {
            let doubtful = run.after(Reply::Persisted(Err(error)));
            &&& doubtful.asks() matches Action::Edit { edit, .. }
            &&& edit is DoubtStop
            &&& doubtful.after(Reply::Edited(edited)).step == (PauseStep::Done(
                Err(OrchestratorError::SandboxRecoveryRequired { sandbox_id: run.sandbox_id }),
            ))
        },
{
}

/// A pause that fails while the runtime can go on gives the runtime, its route and its state back.
pub proof fn failed_pauses_give_the_runtime_back(
    run: PauseRun,
    source: String,
    edited: Result<SandboxMetadata, StoreError>,
)
    requires
        run.step is PauseRuntime,
    ensures
        ({
            let failed = run.after(
                Reply::Paused(
                    Err(lifecycle::RuntimeFailure { terminal: false, source }),
                ),
            );
            let attached = failed.after(Reply::Done);
            let routed = attached.after(Reply::Done);
            let restored = routed.after(Reply::Edited(edited));
            &&& failed.asks() is Attach
            &&& attached.asks() is RestoreRoute
            &&& routed.asks() == (Action::Edit {
                allowed: Allowed::One(SandboxState::Pausing),
                edit: MetadataEdit::State(SandboxState::Running),
            })
            &&& restored.asks() == (Action::ReleaseImages { owner: ImageOwner::PausedSandbox })
            &&& restored.after(Reply::Done).step == (PauseStep::Done(
                Err(
                    OrchestratorError::SandboxOperationFailed {
                        sandbox_id: run.sandbox_id,
                        operation: SandboxOperation::Pause,
                        source,
                    },
                ),
            ))
        }),
{
}

/// A pause that meets no obstacle protects the images, makes room for the artifacts, takes the
/// runtime out of the tables and pauses it; writes down the metadata as it is then found, paused with
/// the state that the runtime gave, without a stop proof and else unchanged; stops the runtime; and
/// only then writes down the stop proof, first durably, and tells of the pause.
pub proof fn pauses_write_down_what_the_runtime_gave(
    run: PauseRun,
    marked: SandboxMetadata,
    paused_state: PausedStateRef,
    metadata: SandboxMetadata,
    proven: SandboxMetadata,
)
    requires
        run.step is Begin,
    ensures
        ({
            let begun = run.after(Reply::Edited(Ok(marked)));
            let kept = begun.after(Reply::Protected(Ok(())));
            let roomy = kept.after(Reply::Persisted(Ok(())));
            let detached = roomy.after(Reply::Answer(true));
            let paused = detached.after(Reply::Paused(Ok(paused_state)));
            let fetched = paused.after(Reply::Fetched(Ok(Some(metadata))));
            let written = fetched.after(Reply::Persisted(Ok(())));
            let stored = written.after(Reply::Stored(Ok(())));
            let stopped = stored.after(Reply::Ran(Ok(())));
            let noted = stopped.after(Reply::Persisted(Ok(())));
            let told = noted.after(Reply::Edited(Ok(proven)));
            &&& run.asks() == (Action::Edit {
                allowed: Allowed::One(SandboxState::Running),
                edit: MetadataEdit::State(SandboxState::Pausing),
            })
            &&& begun.asks() == (Action::ProtectImages { owner: ImageOwner::PausedSandbox })
            &&& kept.asks() is AllocateArtifacts
            &&& roomy.asks() is Detach
            &&& detached.asks() is PauseRuntime
            &&& paused.asks() is Fetch
            &&& fetched.asks() matches Action::PersistPaused { metadata: written_metadata } && {
                &&& written_metadata.same_settings(metadata)
                &&& written_metadata.state is Paused
                &&& written_metadata.paused_state == Some(paused_state)
                &&& !written_metadata.paused_runtime_stopped
                &&& written_metadata.resume_recovery_pending == metadata.resume_recovery_pending
                &&& written.asks() == (Action::Replace { metadata: written_metadata })
            }
            &&& stored.asks() is StopRuntime
            &&& stopped.asks() is MarkStopped
            &&& noted.asks() == (Action::Edit {
                allowed: Allowed::One(SandboxState::Paused),
                edit: MetadataEdit::ProveStop,
            })
            &&& told.asks() == (Action::PublishEvent {
                event: SandboxLifecycleEvent {
                    event_type: SandboxLifecycleEventType::Pause,
                    sandbox_id: run.sandbox_id,
                    resources: metadata.resources,
                },
            })
            &&& told.after(Reply::Done).step == PauseStep::Done(Ok(()))
        }),
{
}

/// A pause shares the outcome of another one that is under way, goes on with a sandbox that is
/// paused and provably stopped, and is refused in every other state.
pub proof fn pauses_are_refused_for_what_is_found(
    run: PauseRun,
    error: StoreError,
    left: SandboxMetadata,
    other: StoreError,
)
    requires
        run.step is Begin,
    ensures
        ({
            let id = run.sandbox_id;
            let refused = run.after(Reply::Edited(Err(error)));
            let joined = refused.after(Reply::Waited(Waited::Left(left)));
            let seen = refused.after(Reply::Fetched(Ok(Some(left))));
            let unproven = PauseStep::Done(
                Err(
                    OrchestratorError::InternalError {
                        fault: InternalFault::MissingStopProof { sandbox_id: left.id },
                    },
                ),
            );
            &&& !(error is StateConflict) ==> refused.step == PauseStep::Done(
                Err(OrchestratorError::Store { error }),
            )
            &&& error matches StoreError::StateConflict { actual_state, .. } ==> {
                &&& actual_state is Pausing ==> {
                    &&& refused.asks() == (Action::AwaitLeaving { state: SandboxState::Pausing })
                    &&& left.state is Paused && left.paused_runtime_stopped ==> joined.step
                        == PauseStep::Done(Ok(()))
                    &&& left.state is Paused && !left.paused_runtime_stopped ==> joined.step
                        == unproven
                    &&& left.state is Killing ==> joined.step == PauseStep::Done(
                        Err(OrchestratorError::SandboxNotFound { sandbox_id: id }),
                    )
                    &&& !(left.state is Paused) && !(left.state is Killing) ==> joined.step
                        == PauseStep::Done(
                        Err(
                            OrchestratorError::InvalidSandboxState {
                                sandbox_id: id,
                                state: left.state,
                            },
                        ),
                    )
                    &&& refused.after(Reply::Waited(Waited::Gone)).step == PauseStep::Done(
                        Err(OrchestratorError::SandboxNotFound { sandbox_id: id }),
                    )
                    &&& refused.after(Reply::Waited(Waited::Failed(other))).step == PauseStep::Done(
                        Err(OrchestratorError::Store { error: other }),
                    )
                    &&& refused.after(Reply::Waited(Waited::TimedOut)).step == PauseStep::Done(
                        Err(
                            OrchestratorError::InvalidSandboxState {
                                sandbox_id: id,
                                state: SandboxState::Pausing,
                            },
                        ),
                    )
                }
                &&& actual_state is Paused ==> {
                    &&& refused.asks() is Fetch
                    &&& left.resume_recovery_pending ==> seen.step == PauseStep::Done(
                        Err(OrchestratorError::SandboxRecoveryRequired { sandbox_id: left.id }),
                    )
                    &&& !left.resume_recovery_pending && !left.paused_runtime_stopped ==> seen.step
                        == unproven
                    &&& !left.resume_recovery_pending && left.paused_runtime_stopped ==> seen.asks()
                        == (Action::ProtectImages { owner: ImageOwner::PausedSandbox })
                    &&& refused.after(Reply::Fetched(Ok(None))).step == PauseStep::Done(
                        Err(OrchestratorError::SandboxNotFound { sandbox_id: id }),
                    )
                    &&& refused.after(Reply::Fetched(Err(other))).step == PauseStep::Done(
                        Err(OrchestratorError::Store { error: other }),
                    )
                }
                &&& actual_state is Killing ==> refused.step == PauseStep::Done(
                    Err(OrchestratorError::SandboxNotFound { sandbox_id: id }),
                )
                &&& !(actual_state is Pausing) && !(actual_state is Paused) && !(actual_state
                    is Killing) ==> refused.step == PauseStep::Done(
                    Err(
                        OrchestratorError::InvalidSandboxState { sandbox_id: id, state: actual_state },
                    ),
                )
            }
        }),
{
}

/// A pause that fails before the runtime was touched takes the sandbox back to running, and gives
/// images that it had protected free; where there is no runtime, the sandbox is removed.
pub proof fn early_failures_take_the_sandbox_back(
    run: PauseRun,
    message: String,
    error: SandboxPersistenceError,
    restored: Result<SandboxMetadata, StoreError>,
    store_error: StoreError,
)
    requires
        run.step is Protect,
    ensures
        ({
            let id = run.sandbox_id;
            let back = Action::Edit {
                allowed: Allowed::One(SandboxState::Pausing),
                edit: MetadataEdit::State(SandboxState::Running),
            };
            let unprotected = run.after(Reply::Protected(Err(message)));
            let kept = run.after(Reply::Protected(Ok(())));
            let full = kept.after(Reply::Persisted(Err(error)));
            let freed = full.after(Reply::Done);
            let lost = kept.after(Reply::Persisted(Ok(()))).after(Reply::Answer(false));
            let gone = lost.after(Reply::Done);
            &&& unprotected.asks() == back
            &&& unprotected.after(Reply::Edited(restored)).step == PauseStep::Done(
                Err(
                    OrchestratorError::InternalError {
                        fault: InternalFault::ImagePin { owner: ImageOwner::PausedSandbox, message },
                    },
                ),
            )
            &&& full.asks() == (Action::ReleaseImages { owner: ImageOwner::PausedSandbox })
            &&& freed.asks() == back
            &&& freed.after(Reply::Edited(restored)).step == PauseStep::Done(
                Err(OrchestratorError::Persistence { error }),
            )
            &&& lost.asks() == (Action::ReleaseImages { owner: ImageOwner::PausedSandbox })
            &&& gone.asks() is Remove
            &&& gone.after(Reply::Stored(Ok(()))).step == PauseStep::Done(
                Err(OrchestratorError::SandboxNotFound { sandbox_id: id }),
            )
            &&& gone.after(Reply::Stored(Err(store_error))).step == PauseStep::Done(
                Err(OrchestratorError::Store { error: store_error }),
            )
        }),
{
}

/// A runtime that a pause has broken is stopped and its sandbox removed; one that is whole is put
/// back, routed to and taken back to running. Either way the images are given free and the failure
/// of the runtime is told.
pub proof fn broken_runtimes_are_given_up(
    run: PauseRun,
    failure: RuntimeFailure,
    stopped: Result<(), String>,
    restored: Result<SandboxMetadata, StoreError>,
    store_error: StoreError,
)
    requires
        run.step is PauseRuntime,
    ensures
        ({
            let told = OrchestratorError::SandboxOperationFailed {
                sandbox_id: run.sandbox_id,
                operation: SandboxOperation::Pause,
                source: failure.source,
            };
            let failed = run.after(Reply::Paused(Err(failure)));
            let ended = failed.after(Reply::Ran(stopped));
            let removed = ended.after(Reply::Stored(Ok(())));
            let attached = failed.after(Reply::Done);
            let routed = attached.after(Reply::Done);
            let back = routed.after(Reply::Edited(restored));
            &&& failure.terminal ==> {
                &&& failed.asks() is StopRuntime
                &&& ended.asks() is Remove
                &&& removed.asks() == (Action::ReleaseImages { owner: ImageOwner::PausedSandbox })
                &&& removed.after(Reply::Done).step == PauseStep::Done(Err(told))
                &&& ended.after(Reply::Stored(Err(store_error))).step == PauseStep::Done(
                    Err(OrchestratorError::Store { error: store_error }),
                )
            }
            &&& !failure.terminal ==> {
                &&& failed.asks() is Attach
                &&& attached.asks() is RestoreRoute
                &&& routed.asks() == (Action::Edit {
                    allowed: Allowed::One(SandboxState::Pausing),
                    edit: MetadataEdit::State(SandboxState::Running),
                })
                &&& back.asks() == (Action::ReleaseImages { owner: ImageOwner::PausedSandbox })
                &&& back.after(Reply::Done).step == PauseStep::Done(Err(told))
            }
        }),
{
}

/// Once the paused state is stored, a failure changes nothing more: it is told, except that a stop
/// proof in doubt is noted as such.
pub proof fn late_failures_are_told(
    run: PauseRun,
    metadata: SandboxMetadata,
    error: SandboxPersistenceError,
    store_error: StoreError,
    source: String,
    noted: Result<SandboxMetadata, StoreError>,
)
    requires
        run.step == (PauseStep::Store { metadata }),
    ensures
        ({
            let id = run.sandbox_id;
            let stored = run.after(Reply::Stored(Ok(())));
            let stopped = stored.after(Reply::Ran(Ok(())));
            let unmarked = stopped.after(Reply::Persisted(Err(error)));
            let proven = stopped.after(Reply::Persisted(Ok(())));
            &&& run.after(Reply::Stored(Err(store_error))).step == PauseStep::Done(
                Err(OrchestratorError::Store { error: store_error }),
            )
            &&& stored.after(Reply::Ran(Err(source))).step == PauseStep::Done(
                Err(
                    OrchestratorError::SandboxOperationFailed {
                        sandbox_id: id,
                        operation: SandboxOperation::Stop,
                        source,
                    },
                ),
            )
            &&& error is UncertainCommit ==> unmarked.asks() == (Action::Edit {
                allowed: Allowed::One(SandboxState::Paused),
                edit: MetadataEdit::DoubtStop,
            }) && unmarked.after(Reply::Edited(noted)).step == PauseStep::Done(
                Err(OrchestratorError::SandboxRecoveryRequired { sandbox_id: id }),
            )
            &&& !(error is UncertainCommit) ==> unmarked.step == PauseStep::Done(
                Err(OrchestratorError::Persistence { error }),
            )
            &&& proven.after(Reply::Edited(Err(store_error))).step == PauseStep::Done(
                Err(OrchestratorError::Store { error: store_error }),
            )
        }),
{
}

} // verus!
