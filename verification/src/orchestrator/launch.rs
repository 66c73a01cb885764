//! The launch of a new or a paused sandbox.

use crate::ids::SandboxId;
use crate::orchestrator::error::{
    InternalFault, OrchestratorError, SandboxOperation, StoreError,
};
use crate::orchestrator::lifecycle;
use crate::orchestrator::lifecycle::{Action, Allowed, MetadataEdit, Operation, Reply, World};
use crate::orchestrator::metadata::SandboxMetadata;
use crate::orchestrator::persistence::error::SandboxPersistenceError;
use crate::orchestrator::resources;
use crate::orchestrator::types::{ImageOwner, NewTimeout, SandboxResources, SandboxState};
use vstd::prelude::*;

verus! {

/// What is launched.
#[derive(Debug)]
pub enum LaunchKind {
    /// A new sandbox, with the metadata that it is registered with.
    Create { metadata: SandboxMetadata },
    /// A paused sandbox.
    Resume,
}

/// How a sandbox is launched.
#[derive(Debug)]
pub struct LaunchPlan {
    pub sandbox_id: SandboxId,
    pub kind: LaunchKind,
    pub timeout: NewTimeout,
    pub resources: SandboxResources,
}

impl LaunchPlan {
    /// The state of the sandbox while it is launched.
    pub open spec fn transition(&self) -> SandboxState {
        match self.kind {
            LaunchKind::Create { .. } => SandboxState::Creating,
            LaunchKind::Resume => SandboxState::Resuming,
        }
    }

    pub fn transitional_state(&self) -> (state: SandboxState)
        ensures
            state == self.transition(),
    {
        match &self.kind {
            LaunchKind::Create { .. } => SandboxState::Creating,
            LaunchKind::Resume => SandboxState::Resuming,
        }
    }
}

/// How far a failed launch had come.
#[derive(Clone, Copy, Debug, PartialEq, Eq, Structural)]
pub enum FailedLaunchStage {
    Registered,
    TransitionalPersisted,
    RunningPersisted,
}

impl FailedLaunchStage {
    /// The state that a rollback expects to find, where there is anything to roll back.
    pub open spec fn restores(self, plan: LaunchPlan) -> Option<SandboxState> {
        match self {
            FailedLaunchStage::Registered => None,
            FailedLaunchStage::TransitionalPersisted => Some(plan.transition()),
            FailedLaunchStage::RunningPersisted => Some(SandboxState::Running),
        }
    }

    pub fn rollback_expected_state(self, plan: &LaunchPlan) -> (state: Option<SandboxState>)
        ensures
            state == self.restores(*plan),
    {
        match self {
            FailedLaunchStage::Registered => None,
            FailedLaunchStage::TransitionalPersisted => Some(plan.transitional_state()),
            FailedLaunchStage::RunningPersisted => Some(SandboxState::Running),
        }
    }

    /// Whether a route may have been published.
    pub open spec fn detaches_route(self) -> bool {
        self is RunningPersisted
    }

    pub fn should_detach_proxy_route(self) -> (answer: bool)
        ensures
            answer == self.detaches_route(),
    {
        matches!(self, FailedLaunchStage::RunningPersisted)
    }
}

/// Where a launch stands. `absent` says that the runtime is provably gone.
#[allow(inconsistent_fields)]
#[derive(Debug)]
pub enum LaunchStep {
    Begin,
    Build,
    Protect,
    Start,
    CheckStarted { resources: SandboxResources },
    StopUnregistered { error: OrchestratorError },
    Register { resources: SandboxResources },
    ReleaseStarted { resources: SandboxResources },
    Insert { metadata: SandboxMetadata, resources: SandboxResources },
    CheckRegistered { resources: SandboxResources },
    AwaitReady { resources: SandboxResources },
    CheckReady { resources: SandboxResources },
    Persist { resources: SandboxResources },
    LookUpTarget { metadata: SandboxMetadata },
    PublishRoute { metadata: SandboxMetadata },
    /// The record of a paused sandbox is not needed any more.
    DeleteRecord { metadata: SandboxMetadata },
    Clean { stage: FailedLaunchStage, error: OrchestratorError },
    StopRegistered { stage: FailedLaunchStage, current: bool, error: OrchestratorError },
    ReleaseFailed { expected: SandboxState, absent: bool, error: OrchestratorError },
    RemoveFailed { error: OrchestratorError },
    RestorePaused { expected: SandboxState, absent: bool, error: OrchestratorError },
    RollBack { expected: SandboxState, absent: bool, error: OrchestratorError },
    /// Nobody knows what the durable record says.
    Doubt { expected: SandboxState, error: OrchestratorError },
    Mark { expected: SandboxState, error: OrchestratorError },
    Prove { error: OrchestratorError },
    Done(Result<SandboxMetadata, OrchestratorError>),
}

/// A launch under way.
#[derive(Debug)]
pub struct LaunchRun {
    pub plan: LaunchPlan,
    pub step: LaunchStep,
}

impl LaunchRun {
    pub fn launch_sandbox(plan: LaunchPlan) -> (run: LaunchRun)
        ensures
            run == (LaunchRun { plan, step: LaunchStep::Begin }),
    {
        LaunchRun { plan, step: LaunchStep::Begin }
    }
}

impl Operation for LaunchRun {
    open spec fn asks(self) -> Action {
        match self.step {
            LaunchStep::Begin => Action::CheckShutdown,
            LaunchStep::Build => Action::BuildRuntime,
            LaunchStep::Protect => Action::ProtectImages { owner: ImageOwner::StartingSandbox },
            LaunchStep::Start => Action::StartRuntime,
            LaunchStep::CheckStarted { .. } => Action::CheckShutdown,
            LaunchStep::StopUnregistered { .. } => Action::StopRuntime,
            LaunchStep::Register { .. } => Action::Attach,
            LaunchStep::ReleaseStarted { .. } => Action::ReleaseImages { owner: ImageOwner::StartingSandbox },
            LaunchStep::Insert { metadata, .. } => Action::Insert { metadata },
            LaunchStep::CheckRegistered { .. } => Action::CheckShutdown,
            LaunchStep::AwaitReady { .. } => Action::AwaitReady,
            LaunchStep::CheckReady { .. } => Action::CheckShutdown,
            LaunchStep::Persist { resources } => Action::Edit {
                allowed: Allowed::One(self.plan.transition()),
                edit: MetadataEdit::Launch { resources, timeout: self.plan.timeout },
            },
            LaunchStep::LookUpTarget { .. } => Action::LookUpTarget,
            LaunchStep::PublishRoute { .. } => Action::PublishRoute,
            LaunchStep::DeleteRecord { .. } => Action::DeleteRecord,
            LaunchStep::Clean { stage, .. } => Action::DetachIfCurrent {
                with_route: stage.detaches_route(),
            },
            LaunchStep::StopRegistered { .. } => Action::StopRuntime,
            LaunchStep::ReleaseFailed { .. } => Action::ReleaseImages { owner: ImageOwner::StartingSandbox },
            LaunchStep::RemoveFailed { .. } => Action::Remove,
            LaunchStep::RestorePaused { expected, .. } => Action::Edit {
                allowed: Allowed::One(expected),
                edit: MetadataEdit::FailResume,
            },
            LaunchStep::RollBack { .. } => Action::RollBackResuming,
            LaunchStep::Doubt { expected, .. } => Action::Edit {
                allowed: Allowed::Three(SandboxState::Paused, SandboxState::Resuming, expected),
                edit: MetadataEdit::AwaitRecovery,
            },
            LaunchStep::Mark { .. } => Action::MarkStopped,
            LaunchStep::Prove { .. } => Action::Edit {
                allowed: Allowed::One(SandboxState::Paused),
                edit: MetadataEdit::ProveStop,
            },
            LaunchStep::Done(_) => Action::Nothing,
        }
    }

    open spec fn after(self, reply: Reply) -> LaunchRun {
        let sandbox_id = self.plan.sandbox_id;
        let transitional_state = self.plan.transition();
        let step = match (self.step, reply) {
            (LaunchStep::Begin, Reply::Answer(shutting_down)) => if shutting_down {
                LaunchStep::Done(Err(OrchestratorError::ShuttingDown))
            } else {
                LaunchStep::Build
            },
            (LaunchStep::Build, Reply::Ran(Ok(_))) => LaunchStep::Protect,
            (LaunchStep::Build, Reply::Ran(Err(source))) => LaunchStep::ReleaseFailed {
                expected: transitional_state,
                absent: true,
                error: OrchestratorError::SandboxOperationFailed {
                    sandbox_id,
                    operation: SandboxOperation::Build,
                    source,
                },
            },
            (LaunchStep::Protect, Reply::Protected(Ok(_))) => LaunchStep::Start,
            (LaunchStep::Protect, Reply::Protected(Err(message))) => LaunchStep::ReleaseFailed {
                expected: transitional_state,
                absent: true,
                error: OrchestratorError::InternalError {
                    fault: InternalFault::ImagePin { owner: ImageOwner::StartingSandbox, message },
                },
            },
            (LaunchStep::Start, Reply::Started(Ok(rootfs_size))) => LaunchStep::CheckStarted {
                resources: resources::with_rootfs_size(
                    self.plan.resources,
                    rootfs_size,
                ),
            },
            (LaunchStep::Start, Reply::Started(Err(source))) => LaunchStep::StopUnregistered {
                error: OrchestratorError::SandboxOperationFailed {
                    sandbox_id,
                    operation: SandboxOperation::Start,
                    source,
                },
            },
            (LaunchStep::CheckStarted { resources }, Reply::Answer(shutting_down)) => if shutting_down {
                LaunchStep::StopUnregistered { error: OrchestratorError::ShuttingDown }
            } else {
                LaunchStep::Register { resources }
            },
            (LaunchStep::StopUnregistered { error }, Reply::Ran(stopped)) => LaunchStep::ReleaseFailed {
                expected: transitional_state,
                absent: stopped is Ok,
                error,
            },
            (LaunchStep::Register { resources }, Reply::Done) => LaunchStep::ReleaseStarted { resources },
            (LaunchStep::ReleaseStarted { resources }, Reply::Done) => match self.plan.kind {
                LaunchKind::Create { metadata } => LaunchStep::Insert {
                    metadata: SandboxMetadata { resources, ..metadata },
                    resources,
                },
                LaunchKind::Resume => LaunchStep::CheckRegistered { resources },
            },
            (LaunchStep::Insert { resources, .. }, Reply::Stored(Ok(_))) => LaunchStep::CheckRegistered {
                resources,
            },
            (LaunchStep::Insert { .. }, Reply::Stored(Err(error))) => LaunchStep::Clean {
                stage: FailedLaunchStage::Registered,
                error: OrchestratorError::Store { error },
            },
            (LaunchStep::CheckRegistered { resources }, Reply::Answer(shutting_down)) => {
                if shutting_down {
                    LaunchStep::Clean {
                        stage: FailedLaunchStage::TransitionalPersisted,
                        error: OrchestratorError::ShuttingDown,
                    }
                } else {
                    LaunchStep::AwaitReady { resources }
                }
            },
            (LaunchStep::AwaitReady { resources }, Reply::Ran(Ok(_))) => LaunchStep::CheckReady {
                resources,
            },
            (LaunchStep::AwaitReady { .. }, Reply::Ran(Err(source))) => LaunchStep::Clean {
                stage: FailedLaunchStage::TransitionalPersisted,
                error: OrchestratorError::SandboxOperationFailed {
                    sandbox_id,
                    operation: SandboxOperation::WaitReady,
                    source,
                },
            },
            (LaunchStep::CheckReady { resources }, Reply::Answer(shutting_down)) => if shutting_down {
                LaunchStep::Clean {
                    stage: FailedLaunchStage::TransitionalPersisted,
                    error: OrchestratorError::ShuttingDown,
                }
            } else {
                LaunchStep::Persist { resources }
            },
            (LaunchStep::Persist { .. }, Reply::Edited(Ok(metadata))) => LaunchStep::LookUpTarget {
                metadata,
            },
            (LaunchStep::Persist { .. }, Reply::Edited(Err(error))) => LaunchStep::Clean {
                stage: FailedLaunchStage::TransitionalPersisted,
                error: OrchestratorError::Store { error },
            },
            (LaunchStep::LookUpTarget { metadata }, Reply::Answer(found)) => if found {
                LaunchStep::PublishRoute { metadata }
            } else {
                LaunchStep::Clean {
                    stage: FailedLaunchStage::RunningPersisted,
                    error: OrchestratorError::InternalError {
                        fault: InternalFault::MissingInteractionIp,
                    },
                }
            },
            (LaunchStep::PublishRoute { metadata }, Reply::Done) => match self.plan.kind {
                LaunchKind::Create { .. } => LaunchStep::Done(Ok(metadata)),
                LaunchKind::Resume => LaunchStep::DeleteRecord { metadata },
            },
            (LaunchStep::DeleteRecord { metadata }, Reply::Persisted(_)) => LaunchStep::Done(Ok(metadata)),
            (LaunchStep::Clean { stage, error }, Reply::Answer(current)) => LaunchStep::StopRegistered {
                stage,
                current,
                error,
            },
            (LaunchStep::StopRegistered { stage, current, error }, Reply::Ran(stopped)) => {
                match stage.restores(self.plan) {
                    Some(expected) => if current {
                        LaunchStep::ReleaseFailed {
                            expected,
                            absent: stopped is Ok,
                            error,
                        }
                    } else {
                        LaunchStep::Done(Err(error))
                    },
                    None => LaunchStep::Done(Err(error)),
                }
            },
            (LaunchStep::ReleaseFailed { expected, absent, error }, Reply::Done) => {
                match self.plan.kind {
                    LaunchKind::Create { .. } => LaunchStep::RemoveFailed { error },
                    LaunchKind::Resume => LaunchStep::RestorePaused { expected, absent, error },
                }
            },
            (LaunchStep::RemoveFailed { error }, Reply::Stored(_)) => LaunchStep::Done(Err(error)),
            (LaunchStep::RestorePaused { expected, absent, error }, Reply::Edited(_)) => {
                LaunchStep::RollBack { expected, absent, error }
            },
            (LaunchStep::RollBack { expected, absent, error }, Reply::Persisted(Ok(_))) => if absent {
                LaunchStep::Mark { expected, error }
            } else {
                LaunchStep::Done(Err(error))
            },
            (
                LaunchStep::RollBack { expected, error, .. },
                Reply::Persisted(Err(SandboxPersistenceError::UncertainCommit { .. })),
            ) => LaunchStep::Doubt { expected, error },
            (LaunchStep::RollBack { error, .. }, Reply::Persisted(Err(_))) => LaunchStep::Done(Err(error)),
            (LaunchStep::Doubt { error, .. }, Reply::Edited(_)) => LaunchStep::Done(Err(error)),
            (LaunchStep::Mark { error, .. }, Reply::Persisted(Ok(_))) => LaunchStep::Prove { error },
            (
                LaunchStep::Mark { expected, error },
                Reply::Persisted(Err(SandboxPersistenceError::UncertainCommit { .. })),
            ) => LaunchStep::Doubt { expected, error },
            (LaunchStep::Mark { error, .. }, Reply::Persisted(Err(_))) => LaunchStep::Done(Err(error)),
            (LaunchStep::Prove { error }, Reply::Edited(_)) => LaunchStep::Done(Err(error)),
            (step, _) => step,
        };
        LaunchRun { step, ..self }
    }

    fn action(&self) -> Action {
        match &self.step {
            LaunchStep::Begin => Action::CheckShutdown,
            LaunchStep::Build => Action::BuildRuntime,
            LaunchStep::Protect => Action::ProtectImages { owner: ImageOwner::StartingSandbox },
            LaunchStep::Start => Action::StartRuntime,
            LaunchStep::CheckStarted { .. } => Action::CheckShutdown,
            LaunchStep::StopUnregistered { .. } => Action::StopRuntime,
            LaunchStep::Register { .. } => Action::Attach,
            LaunchStep::ReleaseStarted { .. } => Action::ReleaseImages { owner: ImageOwner::StartingSandbox },
            LaunchStep::Insert { metadata, .. } => Action::Insert { metadata: metadata.copy() },
            LaunchStep::CheckRegistered { .. } => Action::CheckShutdown,
            LaunchStep::AwaitReady { .. } => Action::AwaitReady,
            LaunchStep::CheckReady { .. } => Action::CheckShutdown,
            LaunchStep::Persist { resources } => Action::Edit {
                allowed: Allowed::One(self.plan.transitional_state()),
                edit: MetadataEdit::Launch { resources: *resources, timeout: self.plan.timeout },
            },
            LaunchStep::LookUpTarget { .. } => Action::LookUpTarget,
            LaunchStep::PublishRoute { .. } => Action::PublishRoute,
            LaunchStep::DeleteRecord { .. } => Action::DeleteRecord,
            LaunchStep::Clean { stage, .. } => Action::DetachIfCurrent {
                with_route: stage.should_detach_proxy_route(),
            },
            LaunchStep::StopRegistered { .. } => Action::StopRuntime,
            LaunchStep::ReleaseFailed { .. } => Action::ReleaseImages { owner: ImageOwner::StartingSandbox },
            LaunchStep::RemoveFailed { .. } => Action::Remove,
            LaunchStep::RestorePaused { expected, .. } => Action::Edit {
                allowed: Allowed::One(*expected),
                edit: MetadataEdit::FailResume,
            },
            LaunchStep::RollBack { .. } => Action::RollBackResuming,
            LaunchStep::Doubt { expected, .. } => Action::Edit {
                allowed: Allowed::Three(SandboxState::Paused, SandboxState::Resuming, *expected),
                edit: MetadataEdit::AwaitRecovery,
            },
            LaunchStep::Mark { .. } => Action::MarkStopped,
            LaunchStep::Prove { .. } => Action::Edit {
                allowed: Allowed::One(SandboxState::Paused),
                edit: MetadataEdit::ProveStop,
            },
            LaunchStep::Done(_) => Action::Nothing,
        }
    }

    fn next(self, reply: Reply) -> LaunchRun {
        let sandbox_id = self.plan.sandbox_id;
        let transitional_state = self.plan.transitional_state();
        let step = match (self.step, reply) {
            (LaunchStep::Begin, Reply::Answer(shutting_down)) => if shutting_down {
                LaunchStep::Done(Err(OrchestratorError::ShuttingDown))
            } else {
                LaunchStep::Build
            },
            (LaunchStep::Build, Reply::Ran(Ok(_))) => LaunchStep::Protect,
            (LaunchStep::Build, Reply::Ran(Err(source))) => LaunchStep::ReleaseFailed {
                expected: transitional_state,
                absent: true,
                error: OrchestratorError::SandboxOperationFailed {
                    sandbox_id,
                    operation: SandboxOperation::Build,
                    source,
                },
            },
            (LaunchStep::Protect, Reply::Protected(Ok(_))) => LaunchStep::Start,
            (LaunchStep::Protect, Reply::Protected(Err(message))) => LaunchStep::ReleaseFailed {
                expected: transitional_state,
                absent: true,
                error: OrchestratorError::InternalError {
                    fault: InternalFault::ImagePin { owner: ImageOwner::StartingSandbox, message },
                },
            },
            (LaunchStep::Start, Reply::Started(Ok(rootfs_size))) => LaunchStep::CheckStarted {
                resources: resources::resources_with_runtime_info(
                    self.plan.resources,
                    rootfs_size,
                ),
            },
            (LaunchStep::Start, Reply::Started(Err(source))) => LaunchStep::StopUnregistered {
                error: OrchestratorError::SandboxOperationFailed {
                    sandbox_id,
                    operation: SandboxOperation::Start,
                    source,
                },
            },
            (LaunchStep::CheckStarted { resources }, Reply::Answer(shutting_down)) => if shutting_down {
                LaunchStep::StopUnregistered { error: OrchestratorError::ShuttingDown }
            } else {
                LaunchStep::Register { resources }
            },
            (LaunchStep::StopUnregistered { error }, Reply::Ran(stopped)) => LaunchStep::ReleaseFailed {
                expected: transitional_state,
                absent: stopped.is_ok(),
                error,
            },
            (LaunchStep::Register { resources }, Reply::Done) => LaunchStep::ReleaseStarted { resources },
            (LaunchStep::ReleaseStarted { resources }, Reply::Done) => match &self.plan.kind {
                LaunchKind::Create { metadata } => LaunchStep::Insert {
                    metadata: SandboxMetadata { resources, ..metadata.copy() },
                    resources,
                },
                LaunchKind::Resume => LaunchStep::CheckRegistered { resources },
            },
            (LaunchStep::Insert { resources, .. }, Reply::Stored(Ok(_))) => LaunchStep::CheckRegistered {
                resources,
            },
            (LaunchStep::Insert { .. }, Reply::Stored(Err(error))) => LaunchStep::Clean {
                stage: FailedLaunchStage::Registered,
                error: OrchestratorError::Store { error },
            },
            (LaunchStep::CheckRegistered { resources }, Reply::Answer(shutting_down)) => {
                if shutting_down {
                    LaunchStep::Clean {
                        stage: FailedLaunchStage::TransitionalPersisted,
                        error: OrchestratorError::ShuttingDown,
                    }
                } else {
                    LaunchStep::AwaitReady { resources }
                }
            },
            (LaunchStep::AwaitReady { resources }, Reply::Ran(Ok(_))) => LaunchStep::CheckReady {
                resources,
            },
            (LaunchStep::AwaitReady { .. }, Reply::Ran(Err(source))) => LaunchStep::Clean {
                stage: FailedLaunchStage::TransitionalPersisted,
                error: OrchestratorError::SandboxOperationFailed {
                    sandbox_id,
                    operation: SandboxOperation::WaitReady,
                    source,
                },
            },
            (LaunchStep::CheckReady { resources }, Reply::Answer(shutting_down)) => if shutting_down {
                LaunchStep::Clean {
                    stage: FailedLaunchStage::TransitionalPersisted,
                    error: OrchestratorError::ShuttingDown,
                }
            } else {
                LaunchStep::Persist { resources }
            },
            (LaunchStep::Persist { .. }, Reply::Edited(Ok(metadata))) => LaunchStep::LookUpTarget {
                metadata,
            },
            (LaunchStep::Persist { .. }, Reply::Edited(Err(error))) => LaunchStep::Clean {
                stage: FailedLaunchStage::TransitionalPersisted,
                error: OrchestratorError::Store { error },
            },
            (LaunchStep::LookUpTarget { metadata }, Reply::Answer(found)) => if found {
                LaunchStep::PublishRoute { metadata }
            } else {
                LaunchStep::Clean {
                    stage: FailedLaunchStage::RunningPersisted,
                    error: OrchestratorError::InternalError {
                        fault: InternalFault::MissingInteractionIp,
                    },
                }
            },
            (LaunchStep::PublishRoute { metadata }, Reply::Done) => match &self.plan.kind {
                LaunchKind::Create { .. } => LaunchStep::Done(Ok(metadata)),
                LaunchKind::Resume => LaunchStep::DeleteRecord { metadata },
            },
            (LaunchStep::DeleteRecord { metadata }, Reply::Persisted(_)) => LaunchStep::Done(Ok(metadata)),
            (LaunchStep::Clean { stage, error }, Reply::Answer(current)) => LaunchStep::StopRegistered {
                stage,
                current,
                error,
            },
            (LaunchStep::StopRegistered { stage, current, error }, Reply::Ran(stopped)) => {
                match stage.rollback_expected_state(&self.plan) {
                    Some(expected) => if current {
                        LaunchStep::ReleaseFailed {
                            expected,
                            absent: stopped.is_ok(),
                            error,
                        }
                    } else {
                        LaunchStep::Done(Err(error))
                    },
                    None => LaunchStep::Done(Err(error)),
                }
            },
            (LaunchStep::ReleaseFailed { expected, absent, error }, Reply::Done) => {
                match &self.plan.kind {
                    LaunchKind::Create { .. } => LaunchStep::RemoveFailed { error },
                    LaunchKind::Resume => LaunchStep::RestorePaused { expected, absent, error },
                }
            },
            (LaunchStep::RemoveFailed { error }, Reply::Stored(_)) => LaunchStep::Done(Err(error)),
            (LaunchStep::RestorePaused { expected, absent, error }, Reply::Edited(_)) => {
                LaunchStep::RollBack { expected, absent, error }
            },
            (LaunchStep::RollBack { expected, absent, error }, Reply::Persisted(Ok(_))) => if absent {
                LaunchStep::Mark { expected, error }
            } else {
                LaunchStep::Done(Err(error))
            },
            (
                LaunchStep::RollBack { expected, error, .. },
                Reply::Persisted(Err(SandboxPersistenceError::UncertainCommit { .. })),
            ) => LaunchStep::Doubt { expected, error },
            (LaunchStep::RollBack { error, .. }, Reply::Persisted(Err(_))) => LaunchStep::Done(Err(error)),
            (LaunchStep::Doubt { error, .. }, Reply::Edited(_)) => LaunchStep::Done(Err(error)),
            (LaunchStep::Mark { error, .. }, Reply::Persisted(Ok(_))) => LaunchStep::Prove { error },
            (
                LaunchStep::Mark { expected, error },
                Reply::Persisted(Err(SandboxPersistenceError::UncertainCommit { .. })),
            ) => LaunchStep::Doubt { expected, error },
            (LaunchStep::Mark { error, .. }, Reply::Persisted(Err(_))) => LaunchStep::Done(Err(error)),
            (LaunchStep::Prove { error }, Reply::Edited(_)) => LaunchStep::Done(Err(error)),
            (step, _) => step,
        };
        LaunchRun { step, ..self }
    }
}

/// Whether no stop proof is there.
pub open spec fn claims_no_stop(world: World) -> bool {
    world.metadata matches Some(metadata) ==> !metadata.paused_runtime_stopped
}

/// What holds of the sandbox when its launch is at a step.
pub open spec fn is_sound(run: LaunchRun, world: World) -> bool {
    match run.step {
        LaunchStep::Begin => claims_no_stop(world) && !world.alive,
        LaunchStep::Build => claims_no_stop(world) && !world.alive,
        LaunchStep::Protect => claims_no_stop(world) && !world.alive,
        LaunchStep::Start => claims_no_stop(world) && !world.alive,
        LaunchStep::Insert { metadata, .. } => claims_no_stop(world)
            && !metadata.paused_runtime_stopped,
        LaunchStep::ReleaseFailed { absent, .. } => claims_no_stop(world) && (absent
            ==> !world.alive),
        LaunchStep::RestorePaused { absent, .. } => claims_no_stop(world) && (absent
            ==> !world.alive),
        LaunchStep::RollBack { absent, .. } => claims_no_stop(world) && (absent ==> !world.alive),
        LaunchStep::Mark { .. } => claims_no_stop(world) && !world.alive,
        LaunchStep::Prove { .. } => claims_no_stop(world) && !world.alive,
        LaunchStep::LookUpTarget { metadata } => is_up(metadata, world),
        LaunchStep::PublishRoute { metadata } => is_up(metadata, world),
        LaunchStep::DeleteRecord { metadata } => is_up(metadata, world),
        LaunchStep::Done(Ok(metadata)) => is_up(metadata, world),
        LaunchStep::Done(Err(_)) => world.is_truthful(),
        _ => claims_no_stop(world),
    }
}

/// Whether a sandbox is up with this metadata.
pub open spec fn is_up(metadata: SandboxMetadata, world: World) -> bool {
    &&& world.metadata == Some(metadata)
    &&& metadata.state is Running
    &&& !metadata.paused_runtime_stopped
}

/// Whether a plan registers a new sandbox without a stop proof.
pub open spec fn is_plan(plan: LaunchPlan) -> bool {
    plan.kind matches LaunchKind::Create { metadata } ==> !metadata.paused_runtime_stopped
}

/// Whether a launch has failed and is being undone.
spec fn is_undoing(step: LaunchStep) -> bool {
    ||| step is ReleaseFailed
    ||| step is RemoveFailed
    ||| step is RestorePaused
    ||| step is RollBack
    ||| step is Doubt
    ||| step is Mark
    ||| step is Prove
}

#[verifier::rlimit(40)]
proof fn undoing_keeps_soundness(run: LaunchRun, reply: Reply, before: World, after: World)
    requires
        is_undoing(run.step),
        is_sound(run, before),
        lifecycle::answers(run.asks(), reply),
        lifecycle::happens(before, run.asks(), reply, after),
    ensures
        is_sound(run.after(reply), after),
{
}

#[verifier::rlimit(40)]
proof fn launching_keeps_soundness(run: LaunchRun, reply: Reply, before: World, after: World)
    requires
        !is_undoing(run.step),
        is_plan(run.plan),
        is_sound(run, before),
        lifecycle::answers(run.asks(), reply),
        lifecycle::happens(before, run.asks(), reply, after),
    ensures
        is_sound(run.after(reply), after),
{
}

proof fn steps_keep_soundness(run: LaunchRun, reply: Reply, before: World, after: World)
    requires
        is_plan(run.plan),
        is_sound(run, before),
        lifecycle::answers(run.asks(), reply),
        lifecycle::happens(before, run.asks(), reply, after),
    ensures
        is_sound(run.after(reply), after),
{
    if is_undoing(run.step) {
        undoing_keeps_soundness(run, reply, before, after);
    } else {
        launching_keeps_soundness(run, reply, before, after);
    }
}

/// At every moment of every launch, a stop proof is only there where the runtime is gone, however
/// the launch fails; and a launch that succeeds leaves a running sandbox with the metadata that it
/// returns.
pub proof fn launches_prove_what_they_claim(
    runs: Seq<LaunchRun>,
    replies: Seq<Reply>,
    worlds: Seq<World>,
    at: int,
)
    requires
        lifecycle::is_history(runs, replies, worlds),
        runs[0].step is Begin,
        is_plan(runs[0].plan),
        claims_no_stop(worlds[0]),
        !worlds[0].alive,
        0 <= at < runs.len(),
    ensures
        worlds[at].is_truthful(),
        runs[at].step matches LaunchStep::Done(Ok(metadata)) ==> is_up(metadata, worlds[at]),
        runs[at].plan == runs[0].plan,
        is_sound(runs[at], worlds[at]),
    decreases at,
{
    if at > 0 {
        launches_prove_what_they_claim(runs, replies, worlds, at - 1);
        assert(lifecycle::happens(
            worlds[at - 1],
            runs[at - 1].asks(),
            replies[at - 1],
            worlds[at],
        ));
        steps_keep_soundness(runs[at - 1], replies[at - 1], worlds[at - 1], worlds[at]);
    }
}

/// After a failed launch of a paused sandbox, a stop proof is restored only where the runtime is
/// provably gone, the durable record is rolled back and the durable stop proof is written.
pub proof fn stop_proofs_take_three_facts(
    run: LaunchRun,
    expected: SandboxState,
    absent: bool,
    error: OrchestratorError,
    rolled_back: Result<(), SandboxPersistenceError>,
    marked: Result<(), SandboxPersistenceError>,
)
    requires
        run.step == (LaunchStep::RollBack { expected, absent, error }),
    ensures
        ({
            let next = run.after(Reply::Persisted(rolled_back));
            &&& next.step is Mark <==> absent && rolled_back is Ok
            &&& next.step is Mark ==> (next.after(Reply::Persisted(marked)).step is Prove
                <==> marked is Ok)
            &&& (rolled_back is Err && rolled_back->Err_0 is UncertainCommit) ==> next.step is Doubt
            &&& (next.step is Mark && marked is Err && marked->Err_0 is UncertainCommit)
                ==> next.after(Reply::Persisted(marked)).step is Doubt
        }),
{
}

/// A launch that meets no obstacle builds the runtime, protects the images while it starts it,
/// registers it, waits until it is ready, makes the sandbox running with the timeout asked for, and
/// routes to it. A new sandbox is stored as it was planned, with the size of its disk; of a paused
/// one the durable record is deleted. The metadata that was stored last is returned.
pub proof fn launches_bring_the_sandbox_up(
    run: LaunchRun,
    size: Option<u64>,
    up: SandboxMetadata,
    deleted: Result<(), SandboxPersistenceError>,
)
    requires
        run.step is Begin,
    ensures
        ({
            let begun = run.after(Reply::Answer(false));
            let built = begun.after(Reply::Ran(Ok(())));
            let kept = built.after(Reply::Protected(Ok(())));
            let started = kept.after(Reply::Started(Ok(size)));
            let checked = started.after(Reply::Answer(false));
            let registered = checked.after(Reply::Done);
            let freed = registered.after(Reply::Done);
            let inserted = if run.plan.kind is Create {
                freed.after(Reply::Stored(Ok(())))
            } else {
                freed
            };
            let awaited = inserted.after(Reply::Answer(false));
            let ready = awaited.after(Reply::Ran(Ok(())));
            let persisted = ready.after(Reply::Answer(false));
            let looked = persisted.after(Reply::Edited(Ok(up)));
            let found = looked.after(Reply::Answer(true));
            let routed = found.after(Reply::Done);
            &&& run.asks() is CheckShutdown
            &&& begun.asks() is BuildRuntime
            &&& built.asks() == (Action::ProtectImages { owner: ImageOwner::StartingSandbox })
            &&& kept.asks() is StartRuntime
            &&& started.asks() is CheckShutdown
            &&& checked.asks() is Attach
            &&& registered.asks() == (Action::ReleaseImages { owner: ImageOwner::StartingSandbox })
            &&& run.plan.kind matches LaunchKind::Create { metadata } ==> (freed.asks() matches Action::Insert {
                metadata: stored,
            } && {
                &&& stored == (SandboxMetadata { resources: stored.resources, ..metadata })
                &&& size is None ==> stored.resources == run.plan.resources
                &&& size matches Some(bytes) ==> (stored.resources.disk_size_mib - 1) * 1048576 < bytes && bytes
                    <= stored.resources.disk_size_mib * 1048576
                &&& stored.resources.cpu_count == run.plan.resources.cpu_count
                &&& stored.resources.memory_mib == run.plan.resources.memory_mib
            })
            &&& inserted.asks() is CheckShutdown
            &&& awaited.asks() is AwaitReady
            &&& ready.asks() is CheckShutdown
            &&& persisted.asks() matches Action::Edit {
                allowed,
                edit: MetadataEdit::Launch { resources, timeout },
            } && {
                &&& allowed == Allowed::One(
                    if run.plan.kind is Create {
                        SandboxState::Creating
                    } else {
                        SandboxState::Resuming
                    },
                )
                &&& timeout == run.plan.timeout
                &&& size is None ==> resources == run.plan.resources
                &&& size matches Some(bytes) ==> (resources.disk_size_mib - 1) * 1048576 < bytes && bytes
                    <= resources.disk_size_mib * 1048576
                &&& resources.cpu_count == run.plan.resources.cpu_count
                &&& resources.memory_mib == run.plan.resources.memory_mib
                &&& run.plan.kind is Create ==> freed.asks()->Insert_metadata.resources == resources
            }
            &&& looked.asks() is LookUpTarget
            &&& found.asks() is PublishRoute
            &&& run.plan.kind is Create ==> routed.step == LaunchStep::Done(Ok(up))
            &&& run.plan.kind is Resume ==> routed.asks() is DeleteRecord && routed.after(
                Reply::Persisted(deleted),
            ).step == LaunchStep::Done(Ok(up))
        }),
{
}

/// A launch is refused while the node shuts down. One that fails before its runtime is registered
/// stops a runtime that may have started, gives the images free and gives the sandbox back; the
/// sandbox counts as stopped where no runtime was started or where it was stopped.
pub proof fn unregistered_launches_are_undone(
    run: LaunchRun,
    source: String,
    message: String,
    size: Option<u64>,
    stopped: Result<(), String>,
    removed: Result<(), StoreError>,
    edited: Result<SandboxMetadata, StoreError>,
    doubt: SandboxPersistenceError,
)
    requires
        run.step is Begin,
    ensures
        ({
            let id = run.plan.sandbox_id;
            let state = if run.plan.kind is Create {
                SandboxState::Creating
            } else {
                SandboxState::Resuming
            };
            let begun = run.after(Reply::Answer(false));
            let unbuilt = begun.after(Reply::Ran(Err(source)));
            let built = begun.after(Reply::Ran(Ok(())));
            let unprotected = built.after(Reply::Protected(Err(message)));
            let kept = built.after(Reply::Protected(Ok(())));
            let unstarted = kept.after(Reply::Started(Err(source)));
            let late = kept.after(Reply::Started(Ok(size))).after(Reply::Answer(true));
            &&& run.after(Reply::Answer(true)).step == LaunchStep::Done(
                Err(OrchestratorError::ShuttingDown),
            )
            &&& is_given_back(
                unbuilt,
                state,
                true,
                OrchestratorError::SandboxOperationFailed {
                    sandbox_id: id,
                    operation: SandboxOperation::Build,
                    source,
                },
                removed,
                edited,
                doubt,
            )
            &&& is_given_back(
                unprotected,
                state,
                true,
                OrchestratorError::InternalError {
                    fault: InternalFault::ImagePin { owner: ImageOwner::StartingSandbox, message },
                },
                removed,
                edited,
                doubt,
            )
            &&& unstarted.asks() is StopRuntime
            &&& is_given_back(
                unstarted.after(Reply::Ran(stopped)),
                state,
                stopped is Ok,
                OrchestratorError::SandboxOperationFailed {
                    sandbox_id: id,
                    operation: SandboxOperation::Start,
                    source,
                },
                removed,
                edited,
                doubt,
            )
            &&& late.asks() is StopRuntime
            &&& is_given_back(
                late.after(Reply::Ran(stopped)),
                state,
                stopped is Ok,
                OrchestratorError::ShuttingDown,
                removed,
                edited,
                doubt,
            )
        }),
{
}

/// Whether a failed launch gives the images free and then the sandbox back, which it expects in a
/// state: a new one is removed; a paused one is made paused without a stop proof, its durable record
/// is rolled back, and only where its runtime is provably gone it gets its stop proof back, durably
/// first. A record in doubt makes the sandbox wait for recovery. The failure is told in any case.
pub open spec fn is_given_back(
    run: LaunchRun,
    expected: SandboxState,
    stopped: bool,
    error: OrchestratorError,
    removed: Result<(), StoreError>,
    edited: Result<SandboxMetadata, StoreError>,
    doubt: SandboxPersistenceError,
) -> bool {
    let failed = LaunchStep::Done(Err(error));
    let freed = run.after(Reply::Done);
    let restored = freed.after(Reply::Edited(edited));
    let rolled_back = restored.after(Reply::Persisted(Ok(())));
    let proven = rolled_back.after(Reply::Persisted(Ok(())));
    let in_doubt = Action::Edit {
        allowed: Allowed::Three(SandboxState::Paused, SandboxState::Resuming, expected),
        edit: MetadataEdit::AwaitRecovery,
    };
    &&& run.asks() == (Action::ReleaseImages { owner: ImageOwner::StartingSandbox })
    &&& run.plan.kind is Create ==> {
        &&& freed.asks() is Remove
        &&& freed.after(Reply::Stored(removed)).step == failed
    }
    &&& run.plan.kind is Resume ==> {
        &&& freed.asks() == (Action::Edit {
            allowed: Allowed::One(expected),
            edit: MetadataEdit::FailResume,
        })
        &&& restored.asks() is RollBackResuming
        &&& if doubt is UncertainCommit {
            &&& restored.after(Reply::Persisted(Err(doubt))).asks() == in_doubt
            &&& restored.after(Reply::Persisted(Err(doubt))).after(Reply::Edited(edited)).step
                == failed
        } else {
            restored.after(Reply::Persisted(Err(doubt))).step == failed
        }
        &&& !stopped ==> rolled_back.step == failed
        &&& stopped ==> {
            &&& rolled_back.asks() is MarkStopped
            &&& if doubt is UncertainCommit {
                rolled_back.after(Reply::Persisted(Err(doubt))).asks() == in_doubt
            } else {
                rolled_back.after(Reply::Persisted(Err(doubt))).step == failed
            }
            &&& proven.asks() == (Action::Edit {
                allowed: Allowed::One(SandboxState::Paused),
                edit: MetadataEdit::ProveStop,
            })
            &&& proven.after(Reply::Edited(edited)).step == failed
        }
    }
}

/// A launch that fails once its runtime is registered takes it out of the tables, with its route
/// where there may be one, and stops it; then, unless another runtime has taken its place, the
/// sandbox is given back out of the state that the launch had brought it to. Where the metadata of a
/// new sandbox could not be stored there is nothing to give back.
pub proof fn registered_launches_are_undone(
    run: LaunchRun,
    store_error: StoreError,
    source: String,
    up: SandboxMetadata,
    stopped: Result<(), String>,
    removed: Result<(), StoreError>,
    edited: Result<SandboxMetadata, StoreError>,
    doubt: SandboxPersistenceError,
)
    requires
        run.step is CheckRegistered,
    ensures
        ({
            let transitional = if run.plan.kind is Create {
                SandboxState::Creating
            } else {
                SandboxState::Resuming
            };
            let awaited = run.after(Reply::Answer(false));
            let ready = awaited.after(Reply::Ran(Ok(())));
            let persisted = ready.after(Reply::Answer(false));
            let looked = persisted.after(Reply::Edited(Ok(up)));
            let early = run.after(Reply::Answer(true));
            let unready = awaited.after(Reply::Ran(Err(source)));
            let late = ready.after(Reply::Answer(true));
            let unstored = persisted.after(Reply::Edited(Err(store_error)));
            let unrouted = looked.after(Reply::Answer(false));
            &&& is_taken_down(early, false, transitional, OrchestratorError::ShuttingDown, stopped, removed, edited, doubt)
            &&& is_taken_down(
                unready,
                false,
                transitional,
                OrchestratorError::SandboxOperationFailed {
                    sandbox_id: run.plan.sandbox_id,
                    operation: SandboxOperation::WaitReady,
                    source,
                },
                stopped,
                removed,
                edited,
                doubt,
            )
            &&& is_taken_down(late, false, transitional, OrchestratorError::ShuttingDown, stopped, removed, edited, doubt)
            &&& is_taken_down(
                unstored,
                false,
                transitional,
                OrchestratorError::Store { error: store_error },
                stopped,
                removed,
                edited,
                doubt,
            )
            &&& is_taken_down(
                unrouted,
                true,
                SandboxState::Running,
                OrchestratorError::InternalError { fault: InternalFault::MissingInteractionIp },
                stopped,
                removed,
                edited,
                doubt,
            )
        }),
{
}

/// Whether a failed launch takes its registered runtime down and gives the sandbox back.
pub open spec fn is_taken_down(
    run: LaunchRun,
    with_route: bool,
    expected: SandboxState,
    error: OrchestratorError,
    stopped: Result<(), String>,
    removed: Result<(), StoreError>,
    edited: Result<SandboxMetadata, StoreError>,
    doubt: SandboxPersistenceError,
) -> bool {
    let current = run.after(Reply::Answer(true));
    let replaced = run.after(Reply::Answer(false));
    &&& run.asks() == (Action::DetachIfCurrent { with_route })
    &&& current.asks() is StopRuntime
    &&& replaced.asks() is StopRuntime
    &&& replaced.after(Reply::Ran(stopped)).step == LaunchStep::Done(Err(error))
    &&& is_given_back(
        current.after(Reply::Ran(stopped)),
        expected,
        stopped is Ok,
        error,
        removed,
        edited,
        doubt,
    )
}

/// Where the metadata of a new sandbox could not be stored, its runtime is taken out of the tables
/// and stopped, and nothing else is touched.
pub proof fn unstored_launches_touch_nothing_else(
    run: LaunchRun,
    error: StoreError,
    current: bool,
    stopped: Result<(), String>,
)
    requires
        run.step is Insert,
    ensures
        ({
            let failed = run.after(Reply::Stored(Err(error)));
            let detached = failed.after(Reply::Answer(current));
            &&& failed.asks() == (Action::DetachIfCurrent { with_route: false })
            &&& detached.asks() is StopRuntime
            &&& detached.after(Reply::Ran(stopped)).step == LaunchStep::Done(
                Err(OrchestratorError::Store { error }),
            )
        }),
{
}

/// A new sandbox is creating until it runs and a resumed one resuming. A launch that failed takes back
/// only the state that it had stored, and only the route that it had published.
pub proof fn failed_launches_take_back_what_they_stored(plan: LaunchPlan)
    ensures
        plan.kind is Create ==> plan.transition() is Creating,
        plan.kind is Resume ==> plan.transition() is Resuming,
        FailedLaunchStage::Registered.restores(plan) is None,
        plan.kind is Create ==> FailedLaunchStage::TransitionalPersisted.restores(plan) == Some(
            SandboxState::Creating,
        ),
        plan.kind is Resume ==> FailedLaunchStage::TransitionalPersisted.restores(plan) == Some(
            SandboxState::Resuming,
        ),
        FailedLaunchStage::RunningPersisted.restores(plan) == Some(SandboxState::Running),
        FailedLaunchStage::RunningPersisted.detaches_route(),
        !FailedLaunchStage::TransitionalPersisted.detaches_route(),
        !FailedLaunchStage::Registered.detaches_route(),
{
}

} // verus!
