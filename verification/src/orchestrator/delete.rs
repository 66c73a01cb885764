//! The deletion of a sandbox.

use crate::ids::SandboxId;
use crate::orchestrator::error::{
    InternalFault, OrchestratorError, SandboxOperation, StoreError,
};
use crate::orchestrator::lifecycle;
use crate::orchestrator::lifecycle::{Action, Allowed, Operation, Reply, Waited, World};
use crate::orchestrator::metadata::SandboxMetadata;
use crate::orchestrator::types::{
    copy_optional_text, ImageOwner, SandboxLifecycleEvent, SandboxLifecycleEventType,
    SandboxResources, SandboxState,
};
use vstd::prelude::*;

verus! {

/// Where a deletion stands. One that finds another operation under way waits for it.
#[allow(inconsistent_fields)]
#[derive(Debug)]
pub enum DeleteStep {
    CheckRetry,
    /// The metadata is gone: find out whether an earlier deletion is to be completed.
    FindDeleting { retried: bool },
    FinishClaim { key: String, token: u64 },
    FinishImages,
    Begin,
    Wait { state: SandboxState },
    Fetch { previous: SandboxState },
    FindClaim { previous: SandboxState, metadata: SandboxMetadata },
    Detach { previous: SandboxState, metadata: SandboxMetadata, token: Option<u64> },
    Stop { previous: SandboxState, metadata: SandboxMetadata, token: Option<u64> },
    /// The runtime is provably gone.
    MarkClaim { key: String, token: u64, resources: SandboxResources },
    Remove { claim: Option<(String, u64)>, resources: SandboxResources },
    ReleaseClaim { key: String, token: u64, resources: SandboxResources },
    DeleteArtifacts { resources: SandboxResources },
    Publish { resources: SandboxResources },
    Attach { previous: SandboxState, error: OrchestratorError },
    RestoreRoute { previous: SandboxState, error: OrchestratorError },
    RestoreState { previous: SandboxState, error: OrchestratorError },
    Done(Result<(), OrchestratorError>),
}

impl DeleteStep {
    /// What follows once the runtime is provably gone.
    pub open spec fn settled(metadata: SandboxMetadata, token: Option<u64>) -> DeleteStep {
        match (metadata.create_idempotency_key, token) {
            (Some(key), Some(token)) => DeleteStep::MarkClaim {
                key,
                token,
                resources: metadata.resources,
            },
            _ => DeleteStep::Remove { claim: None, resources: metadata.resources },
        }
    }
}

fn settle(metadata: SandboxMetadata, token: Option<u64>) -> (step: DeleteStep)
    ensures
        step == DeleteStep::settled(metadata, token),
{
    match (metadata.create_idempotency_key, token) {
        (Some(key), Some(token)) => DeleteStep::MarkClaim {
            key,
            token,
            resources: metadata.resources,
        },
        _ => DeleteStep::Remove { claim: None, resources: metadata.resources },
    }
}

/// A deletion under way.
#[derive(Debug)]
pub struct DeleteRun {
    pub sandbox_id: SandboxId,
    pub step: DeleteStep,
}

impl DeleteRun {
    pub fn delete_sandbox(sandbox_id: SandboxId) -> (run: DeleteRun)
        ensures
            run == (DeleteRun { sandbox_id, step: DeleteStep::CheckRetry }),
    {
        DeleteRun { sandbox_id, step: DeleteStep::CheckRetry }
    }
}

impl Operation for DeleteRun {
    open spec fn asks(self) -> Action {
        let sandbox_id = self.sandbox_id;
        match self.step {
            DeleteStep::CheckRetry => Action::Fetch,
            DeleteStep::FindDeleting { .. } => Action::FindDeletingClaim,
            DeleteStep::FinishClaim { key, token } => Action::ReleaseClaim { key, token },
            DeleteStep::FinishImages => Action::ReleaseImages { owner: ImageOwner::PausedSandbox },
            DeleteStep::Begin => Action::Move {
                allowed: Allowed::Two(SandboxState::Running, SandboxState::Paused),
                state: SandboxState::Killing,
            },
            DeleteStep::Wait { state } => Action::AwaitLeaving { state },
            DeleteStep::Fetch { .. } => Action::Fetch,
            DeleteStep::FindClaim { metadata, .. } => Action::FindClaim {
                key: metadata.create_idempotency_key,
            },
            DeleteStep::Detach { .. } => Action::Detach,
            DeleteStep::Stop { .. } => Action::StopRuntime,
            DeleteStep::MarkClaim { key, token, .. } => Action::MarkClaimDeleting {
                key,
                token,
            },
            DeleteStep::Remove { .. } => Action::Remove,
            DeleteStep::ReleaseClaim { key, token, .. } => Action::ReleaseClaim {
                key,
                token,
            },
            DeleteStep::DeleteArtifacts { .. } => Action::DeleteArtifacts,
            DeleteStep::Publish { resources } => Action::PublishEvent {
                event: SandboxLifecycleEvent {
                    event_type: SandboxLifecycleEventType::Delete,
                    sandbox_id,
                    resources,
                },
            },
            DeleteStep::Attach { .. } => Action::Attach,
            DeleteStep::RestoreRoute { .. } => Action::RestoreRoute,
            DeleteStep::RestoreState { previous, .. } => Action::Move {
                allowed: Allowed::One(SandboxState::Killing),
                state: previous,
            },
            DeleteStep::Done(_) => Action::Nothing,
        }
    }

    open spec fn after(self, reply: Reply) -> DeleteRun {
        let sandbox_id = self.sandbox_id;
        let step = match (self.step, reply) {
            (DeleteStep::CheckRetry, Reply::Fetched(Ok(Some(metadata)))) => {
                if metadata.resume_recovery_pending {
                    DeleteStep::Done(Err(OrchestratorError::SandboxRecoveryRequired { sandbox_id }))
                } else {
                    DeleteStep::Begin
                }
            },
            (DeleteStep::CheckRetry, Reply::Fetched(Ok(None))) => DeleteStep::FindDeleting {
                retried: true,
            },
            (DeleteStep::CheckRetry, Reply::Fetched(Err(error))) => DeleteStep::Done(
                Err(OrchestratorError::Store { error }),
            ),
            (DeleteStep::FindDeleting { .. }, Reply::DeletingClaim(Some(claim))) => {
                DeleteStep::FinishClaim { key: claim.0, token: claim.1 }
            },
            (DeleteStep::FindDeleting { retried }, Reply::DeletingClaim(None)) => if retried {
                DeleteStep::Done(Err(OrchestratorError::SandboxNotFound { sandbox_id }))
            } else {
                DeleteStep::Done(Ok(()))
            },
            (DeleteStep::FinishClaim { .. }, Reply::Released(Ok(_))) => DeleteStep::FinishImages,
            (DeleteStep::FinishClaim { .. }, Reply::Released(Err(error))) => DeleteStep::Done(Err(error)),
            (DeleteStep::FinishImages, Reply::Done) => DeleteStep::Done(Ok(())),
            (DeleteStep::Begin, Reply::Moved(Ok(previous))) => DeleteStep::Fetch { previous },
            (
                DeleteStep::Begin,
                Reply::Moved(
                    Err(StoreError::StateConflict { sandbox_id: id, expected_states, actual_state }),
                ),
            ) => match actual_state {
                SandboxState::Running | SandboxState::Paused => DeleteStep::Done(
                    Err(
                        OrchestratorError::Store {
                            error: StoreError::StateConflict {
                                sandbox_id: id,
                                expected_states,
                                actual_state,
                            },
                        },
                    ),
                ),
                state => DeleteStep::Wait { state },
            },
            (DeleteStep::Begin, Reply::Moved(Err(error))) => DeleteStep::Done(
                Err(OrchestratorError::Store { error }),
            ),
            (DeleteStep::Wait { .. }, Reply::Waited(Waited::Left(_))) => DeleteStep::Begin,
            (DeleteStep::Wait { .. }, Reply::Waited(Waited::Gone)) => DeleteStep::FindDeleting {
                retried: false,
            },
            (DeleteStep::Wait { .. }, Reply::Waited(Waited::Failed(error))) => DeleteStep::Done(
                Err(OrchestratorError::Store { error }),
            ),
            (DeleteStep::Wait { state }, Reply::Waited(Waited::TimedOut)) => DeleteStep::Done(
                Err(OrchestratorError::InvalidSandboxState { sandbox_id, state }),
            ),
            (DeleteStep::Fetch { previous }, Reply::Fetched(Ok(Some(metadata)))) => {
                DeleteStep::FindClaim { previous, metadata }
            },
            (DeleteStep::Fetch { .. }, Reply::Fetched(Ok(None))) => DeleteStep::Done(
                Err(OrchestratorError::SandboxNotFound { sandbox_id }),
            ),
            (DeleteStep::Fetch { .. }, Reply::Fetched(Err(error))) => DeleteStep::Done(
                Err(OrchestratorError::Store { error }),
            ),
            (DeleteStep::FindClaim { previous, metadata }, Reply::Claim(Ok(token))) => {
                DeleteStep::Detach { previous, metadata, token }
            },
            (DeleteStep::FindClaim { previous, .. }, Reply::Claim(Err(error))) => {
                DeleteStep::RestoreState { previous, error }
            },
            (DeleteStep::Detach { previous, metadata, token }, Reply::Answer(found)) => if found {
                DeleteStep::Stop { previous, metadata, token }
            } else if previous == SandboxState::Paused && metadata.paused_runtime_stopped {
                DeleteStep::settled(metadata, token)
            } else {
                DeleteStep::RestoreRoute {
                    previous,
                    error: OrchestratorError::InternalError {
                        fault: InternalFault::UnprovenAbsence { state: previous, sandbox_id },
                    },
                }
            },
            (DeleteStep::Stop { metadata, token, .. }, Reply::Ran(Ok(_))) => DeleteStep::settled(
                metadata,
                token,
            ),
            (DeleteStep::Stop { previous, .. }, Reply::Ran(Err(source))) => DeleteStep::Attach {
                previous,
                error: OrchestratorError::SandboxOperationFailed {
                    sandbox_id,
                    operation: SandboxOperation::Stop,
                    source,
                },
            },
            (DeleteStep::MarkClaim { key, token, resources }, Reply::Released(Ok(_))) => {
                DeleteStep::Remove { claim: Some((key, token)), resources }
            },
            (DeleteStep::MarkClaim { .. }, Reply::Released(Err(error))) => DeleteStep::Done(Err(error)),
            (DeleteStep::Remove { claim, resources }, Reply::Stored(Ok(_))) => match claim {
                Some(claim) => DeleteStep::ReleaseClaim { key: claim.0, token: claim.1, resources },
                None => DeleteStep::DeleteArtifacts { resources },
            },
            (DeleteStep::Remove { .. }, Reply::Stored(Err(error))) => DeleteStep::Done(
                Err(OrchestratorError::Store { error }),
            ),
            (DeleteStep::ReleaseClaim { resources, .. }, Reply::Released(Ok(_))) => DeleteStep::Publish {
                resources,
            },
            (DeleteStep::ReleaseClaim { .. }, Reply::Released(Err(error))) => DeleteStep::Done(Err(error)),
            (DeleteStep::DeleteArtifacts { resources }, Reply::Persisted(Ok(_))) => DeleteStep::Publish {
                resources,
            },
            (DeleteStep::DeleteArtifacts { .. }, Reply::Persisted(Err(error))) => DeleteStep::Done(
                Err(OrchestratorError::Persistence { error }),
            ),
            (DeleteStep::Publish { .. }, Reply::Done) => DeleteStep::FinishImages,
            (DeleteStep::Attach { previous, error }, Reply::Done) => DeleteStep::RestoreRoute {
                previous,
                error,
            },
            (DeleteStep::RestoreRoute { previous, error }, Reply::Done) => DeleteStep::RestoreState {
                previous,
                error,
            },
            (DeleteStep::RestoreState { error, .. }, Reply::Moved(Ok(_))) => DeleteStep::Done(Err(error)),
            (DeleteStep::RestoreState { .. }, Reply::Moved(Err(error))) => DeleteStep::Done(
                Err(OrchestratorError::Store { error }),
            ),
            (step, _) => step,
        };
        DeleteRun { step, ..self }
    }

    fn action(&self) -> Action {
        let sandbox_id = self.sandbox_id;
        match &self.step {
            DeleteStep::CheckRetry => Action::Fetch,
            DeleteStep::FindDeleting { .. } => Action::FindDeletingClaim,
            DeleteStep::FinishClaim { key, token } => Action::ReleaseClaim { key: key.clone(), token: *token },
            DeleteStep::FinishImages => Action::ReleaseImages { owner: ImageOwner::PausedSandbox },
            DeleteStep::Begin => Action::Move {
                allowed: Allowed::Two(SandboxState::Running, SandboxState::Paused),
                state: SandboxState::Killing,
            },
            DeleteStep::Wait { state } => Action::AwaitLeaving { state: *state },
            DeleteStep::Fetch { .. } => Action::Fetch,
            DeleteStep::FindClaim { metadata, .. } => Action::FindClaim {
                key: copy_optional_text(&metadata.create_idempotency_key),
            },
            DeleteStep::Detach { .. } => Action::Detach,
            DeleteStep::Stop { .. } => Action::StopRuntime,
            DeleteStep::MarkClaim { key, token, .. } => Action::MarkClaimDeleting {
                key: key.clone(),
                token: *token,
            },
            DeleteStep::Remove { .. } => Action::Remove,
            DeleteStep::ReleaseClaim { key, token, .. } => Action::ReleaseClaim {
                key: key.clone(),
                token: *token,
            },
            DeleteStep::DeleteArtifacts { .. } => Action::DeleteArtifacts,
            DeleteStep::Publish { resources } => Action::PublishEvent {
                event: SandboxLifecycleEvent {
                    event_type: SandboxLifecycleEventType::Delete,
                    sandbox_id,
                    resources: *resources,
                },
            },
            DeleteStep::Attach { .. } => Action::Attach,
            DeleteStep::RestoreRoute { .. } => Action::RestoreRoute,
            DeleteStep::RestoreState { previous, .. } => Action::Move {
                allowed: Allowed::One(SandboxState::Killing),
                state: *previous,
            },
            DeleteStep::Done(_) => Action::Nothing,
        }
    }

    fn next(self, reply: Reply) -> DeleteRun {
        let sandbox_id = self.sandbox_id;
        let step = match (self.step, reply) {
            (DeleteStep::CheckRetry, Reply::Fetched(Ok(Some(metadata)))) => {
                if metadata.resume_recovery_pending {
                    DeleteStep::Done(Err(OrchestratorError::SandboxRecoveryRequired { sandbox_id }))
                } else {
                    DeleteStep::Begin
                }
            },
            (DeleteStep::CheckRetry, Reply::Fetched(Ok(None))) => DeleteStep::FindDeleting {
                retried: true,
            },
            (DeleteStep::CheckRetry, Reply::Fetched(Err(error))) => DeleteStep::Done(
                Err(OrchestratorError::Store { error }),
            ),
            (DeleteStep::FindDeleting { .. }, Reply::DeletingClaim(Some(claim))) => {
                DeleteStep::FinishClaim { key: claim.0, token: claim.1 }
            },
            (DeleteStep::FindDeleting { retried }, Reply::DeletingClaim(None)) => if retried {
                DeleteStep::Done(Err(OrchestratorError::SandboxNotFound { sandbox_id }))
            } else {
                DeleteStep::Done(Ok(()))
            },
            (DeleteStep::FinishClaim { .. }, Reply::Released(Ok(_))) => DeleteStep::FinishImages,
            (DeleteStep::FinishClaim { .. }, Reply::Released(Err(error))) => DeleteStep::Done(Err(error)),
            (DeleteStep::FinishImages, Reply::Done) => DeleteStep::Done(Ok(())),
            (DeleteStep::Begin, Reply::Moved(Ok(previous))) => DeleteStep::Fetch { previous },
            (
                DeleteStep::Begin,
                Reply::Moved(
                    Err(StoreError::StateConflict { sandbox_id: id, expected_states, actual_state }),
                ),
            ) => match actual_state {
                SandboxState::Running | SandboxState::Paused => DeleteStep::Done(
                    Err(
                        OrchestratorError::Store {
                            error: StoreError::StateConflict {
                                sandbox_id: id,
                                expected_states,
                                actual_state,
                            },
                        },
                    ),
                ),
                state => DeleteStep::Wait { state },
            },
            (DeleteStep::Begin, Reply::Moved(Err(error))) => DeleteStep::Done(
                Err(OrchestratorError::Store { error }),
            ),
            (DeleteStep::Wait { .. }, Reply::Waited(Waited::Left(_))) => DeleteStep::Begin,
            (DeleteStep::Wait { .. }, Reply::Waited(Waited::Gone)) => DeleteStep::FindDeleting {
                retried: false,
            },
            (DeleteStep::Wait { .. }, Reply::Waited(Waited::Failed(error))) => DeleteStep::Done(
                Err(OrchestratorError::Store { error }),
            ),
            (DeleteStep::Wait { state }, Reply::Waited(Waited::TimedOut)) => DeleteStep::Done(
                Err(OrchestratorError::InvalidSandboxState { sandbox_id, state }),
            ),
            (DeleteStep::Fetch { previous }, Reply::Fetched(Ok(Some(metadata)))) => {
                DeleteStep::FindClaim { previous, metadata }
            },
            (DeleteStep::Fetch { .. }, Reply::Fetched(Ok(None))) => DeleteStep::Done(
                Err(OrchestratorError::SandboxNotFound { sandbox_id }),
            ),
            (DeleteStep::Fetch { .. }, Reply::Fetched(Err(error))) => DeleteStep::Done(
                Err(OrchestratorError::Store { error }),
            ),
            (DeleteStep::FindClaim { previous, metadata }, Reply::Claim(Ok(token))) => {
                DeleteStep::Detach { previous, metadata, token }
            },
            (DeleteStep::FindClaim { previous, .. }, Reply::Claim(Err(error))) => {
                DeleteStep::RestoreState { previous, error }
            },
            (DeleteStep::Detach { previous, metadata, token }, Reply::Answer(found)) => if found {
                DeleteStep::Stop { previous, metadata, token }
            } else if previous == SandboxState::Paused && metadata.paused_runtime_stopped {
                settle(metadata, token)
            } else {
                DeleteStep::RestoreRoute {
                    previous,
                    error: OrchestratorError::InternalError {
                        fault: InternalFault::UnprovenAbsence { state: previous, sandbox_id },
                    },
                }
            },
            (DeleteStep::Stop { metadata, token, .. }, Reply::Ran(Ok(_))) => settle(
                metadata,
                token,
            ),
            (DeleteStep::Stop { previous, .. }, Reply::Ran(Err(source))) => DeleteStep::Attach {
                previous,
                error: OrchestratorError::SandboxOperationFailed {
                    sandbox_id,
                    operation: SandboxOperation::Stop,
                    source,
                },
            },
            (DeleteStep::MarkClaim { key, token, resources }, Reply::Released(Ok(_))) => {
                DeleteStep::Remove { claim: Some((key, token)), resources }
            },
            (DeleteStep::MarkClaim { .. }, Reply::Released(Err(error))) => DeleteStep::Done(Err(error)),
            (DeleteStep::Remove { claim, resources }, Reply::Stored(Ok(_))) => match claim {
                Some(claim) => DeleteStep::ReleaseClaim { key: claim.0, token: claim.1, resources },
                None => DeleteStep::DeleteArtifacts { resources },
            },
            (DeleteStep::Remove { .. }, Reply::Stored(Err(error))) => DeleteStep::Done(
                Err(OrchestratorError::Store { error }),
            ),
            (DeleteStep::ReleaseClaim { resources, .. }, Reply::Released(Ok(_))) => DeleteStep::Publish {
                resources,
            },
            (DeleteStep::ReleaseClaim { .. }, Reply::Released(Err(error))) => DeleteStep::Done(Err(error)),
            (DeleteStep::DeleteArtifacts { resources }, Reply::Persisted(Ok(_))) => DeleteStep::Publish {
                resources,
            },
            (DeleteStep::DeleteArtifacts { .. }, Reply::Persisted(Err(error))) => DeleteStep::Done(
                Err(OrchestratorError::Persistence { error }),
            ),
            (DeleteStep::Publish { .. }, Reply::Done) => DeleteStep::FinishImages,
            (DeleteStep::Attach { previous, error }, Reply::Done) => DeleteStep::RestoreRoute {
                previous,
                error,
            },
            (DeleteStep::RestoreRoute { previous, error }, Reply::Done) => DeleteStep::RestoreState {
                previous,
                error,
            },
            (DeleteStep::RestoreState { error, .. }, Reply::Moved(Ok(_))) => DeleteStep::Done(Err(error)),
            (DeleteStep::RestoreState { .. }, Reply::Moved(Err(error))) => DeleteStep::Done(
                Err(OrchestratorError::Store { error }),
            ),
            (step, _) => step,
        };
        DeleteRun { step, ..self }
    }
}

/// What holds of the sandbox when its deletion is at a step.
pub open spec fn is_sound(run: DeleteRun, world: World) -> bool {
    &&& world.is_truthful()
    &&& match run.step {
        DeleteStep::Fetch { .. } => world.metadata is Some,
        DeleteStep::FindDeleting { .. } => world.metadata is None,
        DeleteStep::FinishClaim { .. } => world.metadata is None,
        DeleteStep::FinishImages => world.metadata is None,
        DeleteStep::FindClaim { metadata, .. } => metadata.paused_runtime_stopped ==> !world.alive,
        DeleteStep::Detach { metadata, .. } => metadata.paused_runtime_stopped ==> !world.alive,
        DeleteStep::MarkClaim { .. } => !world.alive,
        DeleteStep::Remove { .. } => !world.alive,
        DeleteStep::ReleaseClaim { .. } => world.metadata is None && !world.alive,
        DeleteStep::DeleteArtifacts { .. } => world.metadata is None && !world.alive,
        DeleteStep::Publish { .. } => world.metadata is None && !world.alive,
        DeleteStep::Done(Ok(_)) => world.metadata is None,
        _ => true,
    }
}

proof fn steps_keep_soundness(run: DeleteRun, reply: Reply, before: World, after: World)
    requires
        is_sound(run, before),
        lifecycle::answers(run.asks(), reply),
        lifecycle::happens(before, run.asks(), reply, after),
    ensures
        is_sound(run.after(reply), after),
{
}

/// At every moment of every deletion, a stop proof is only there where the runtime is gone;
/// metadata and artifacts are removed, and the claim is marked, only once the runtime is gone; and
/// a deletion that succeeds leaves no metadata.
pub proof fn deletions_remove_nothing_that_runs(
    runs: Seq<DeleteRun>,
    replies: Seq<Reply>,
    worlds: Seq<World>,
    at: int,
)
    requires
        lifecycle::is_history(runs, replies, worlds),
        runs[0].step is CheckRetry,
        worlds[0].is_truthful(),
        0 <= at < runs.len(),
    ensures
        worlds[at].is_truthful(),
        runs[at].asks() is Remove ==> !worlds[at].alive,
        runs[at].asks() is MarkClaimDeleting ==> !worlds[at].alive,
        runs[at].asks() is DeleteArtifacts ==> !worlds[at].alive && worlds[at].metadata is None,
        runs[at].asks() is ReleaseClaim ==> worlds[at].metadata is None,
        runs[at].step matches DeleteStep::Done(Ok(_)) ==> worlds[at].metadata is None,
        is_sound(runs[at], worlds[at]),
    decreases at,
{
    if at > 0 {
        deletions_remove_nothing_that_runs(runs, replies, worlds, at - 1);
        assert(lifecycle::happens(
            worlds[at - 1],
            runs[at - 1].asks(),
            replies[at - 1],
            worlds[at],
        ));
        steps_keep_soundness(runs[at - 1], replies[at - 1], worlds[at - 1], worlds[at]);
    }
}

/// A sandbox that waits for recovery is not deleted, and nothing about it is changed.
pub proof fn pending_recovery_refuses_deletion(run: DeleteRun, metadata: SandboxMetadata)
    requires
        run.step is CheckRetry,
        metadata.resume_recovery_pending,
    ensures
        run.after(Reply::Fetched(Ok(Some(metadata)))).step == (DeleteStep::Done(
            Err(OrchestratorError::SandboxRecoveryRequired { sandbox_id: run.sandbox_id }),
        )),
{
}

/// A deletion that cannot stop the runtime gives it, its route and its state back.
pub proof fn failed_deletions_give_the_runtime_back(
    run: DeleteRun,
    previous: SandboxState,
    metadata: SandboxMetadata,
    token: Option<u64>,
    source: String,
)
    requires
        run.step == (DeleteStep::Stop { previous, metadata, token }),
    ensures
        ({
            let failed = run.after(Reply::Ran(Err(source)));
            let attached = failed.after(Reply::Done);
            let routed = attached.after(Reply::Done);
            &&& failed.asks() is Attach
            &&& attached.asks() is RestoreRoute
            &&& routed.asks() == (Action::Move {
                allowed: Allowed::One(SandboxState::Killing),
                state: previous,
            })
            &&& routed.after(Reply::Moved(Ok(SandboxState::Killing))).step == (DeleteStep::Done(
                Err(
                    OrchestratorError::SandboxOperationFailed {
                        sandbox_id: run.sandbox_id,
                        operation: SandboxOperation::Stop,
                        source,
                    },
                ),
            ))
        }),
{
}

/// A deletion that meets no obstacle marks the sandbox as being deleted, takes its runtime out of the
/// tables and stops it, and removes its metadata; it ends with telling of the deletion and giving the
/// images free. A sandbox with a claimed create key has its claim marked before the metadata is
/// removed and released after; of any other the artifacts are deleted.
pub proof fn deletions_remove_everything(
    run: DeleteRun,
    seen: SandboxMetadata,
    previous: SandboxState,
    metadata: SandboxMetadata,
    token: Option<u64>,
)
    requires
        run.step is CheckRetry,
        !seen.resume_recovery_pending,
    ensures
        ({
            let id = run.sandbox_id;
            let begun = run.after(Reply::Fetched(Ok(Some(seen))));
            let marked = begun.after(Reply::Moved(Ok(previous)));
            let fetched = marked.after(Reply::Fetched(Ok(Some(metadata))));
            let claimed = fetched.after(Reply::Claim(Ok(token)));
            let detached = claimed.after(Reply::Answer(true));
            let stopped = detached.after(Reply::Ran(Ok(())));
            &&& run.asks() is Fetch
            &&& begun.asks() == (Action::Move {
                allowed: Allowed::Two(SandboxState::Running, SandboxState::Paused),
                state: SandboxState::Killing,
            })
            &&& marked.asks() is Fetch
            &&& fetched.asks() == (Action::FindClaim { key: metadata.create_idempotency_key })
            &&& claimed.asks() is Detach
            &&& detached.asks() is StopRuntime
            &&& is_removed(stopped, id, metadata, token)
        }),
{
}

/// Whether a deletion goes on to remove the sandbox, whose runtime is provably gone.
pub open spec fn is_removed(
    run: DeleteRun,
    sandbox_id: SandboxId,
    metadata: SandboxMetadata,
    token: Option<u64>,
) -> bool {
    if metadata.create_idempotency_key is Some && token is Some {
        let key = metadata.create_idempotency_key->0;
        let removing = run.after(Reply::Released(Ok(())));
        let removed = removing.after(Reply::Stored(Ok(())));
        &&& run.asks() == (Action::MarkClaimDeleting { key, token: token->0 })
        &&& removing.asks() is Remove
        &&& removed.asks() == (Action::ReleaseClaim { key, token: token->0 })
        &&& is_told(removed.after(Reply::Released(Ok(()))), sandbox_id, metadata)
    } else {
        let removed = run.after(Reply::Stored(Ok(())));
        &&& run.asks() is Remove
        &&& removed.asks() is DeleteArtifacts
        &&& is_told(removed.after(Reply::Persisted(Ok(()))), sandbox_id, metadata)
    }
}

/// Whether a deletion goes on to tell of itself, give the images free and succeed.
pub open spec fn is_told(run: DeleteRun, sandbox_id: SandboxId, metadata: SandboxMetadata) -> bool {
    let told = run.after(Reply::Done);
    &&& run.asks() == (Action::PublishEvent {
        event: SandboxLifecycleEvent {
            event_type: SandboxLifecycleEventType::Delete,
            sandbox_id,
            resources: metadata.resources,
        },
    })
    &&& told.asks() == (Action::ReleaseImages { owner: ImageOwner::PausedSandbox })
    &&& told.after(Reply::Done).step == DeleteStep::Done(Ok(()))
}

/// A sandbox without a runtime is removed all the same where it was paused and provably stopped; for
/// any other the route and the state are given back, and the missing proof is told.
pub proof fn only_proven_absence_counts(
    run: DeleteRun,
    previous: SandboxState,
    metadata: SandboxMetadata,
    token: Option<u64>,
    restored: SandboxState,
)
    requires
        run.step == (DeleteStep::Detach { previous, metadata, token }),
    ensures
        ({
            let absent = run.after(Reply::Answer(false));
            let routed = absent.after(Reply::Done);
            &&& previous is Paused && metadata.paused_runtime_stopped ==> is_removed(
                absent,
                run.sandbox_id,
                metadata,
                token,
            )
            &&& !(previous is Paused && metadata.paused_runtime_stopped) ==> {
                &&& absent.asks() is RestoreRoute
                &&& routed.asks() == (Action::Move {
                    allowed: Allowed::One(SandboxState::Killing),
                    state: previous,
                })
                &&& routed.after(Reply::Moved(Ok(restored))).step == DeleteStep::Done(
                    Err(
                        OrchestratorError::InternalError {
                            fault: InternalFault::UnprovenAbsence {
                                state: previous,
                                sandbox_id: run.sandbox_id,
                            },
                        },
                    ),
                )
            }
        }),
{
}

/// A deletion that finds the sandbox in another transition waits for that to end and tries again; one
/// that finds it gone has succeeded where it had found it before. A deletion of a sandbox that is gone
/// completes an earlier one whose claim is still being deleted, and else finds nothing.
pub proof fn deletions_wait_and_retry(
    run: DeleteRun,
    conflict: StoreError,
    left: SandboxMetadata,
    claim: (String, u64),
    error: StoreError,
    failure: OrchestratorError,
)
    requires
        conflict is StateConflict,
    ensures
        run.step is Begin ==> {
            let id = run.sandbox_id;
            let state = conflict->StateConflict_actual_state;
            let waiting = run.after(Reply::Moved(Err(conflict)));
            let gone = waiting.after(Reply::Waited(Waited::Gone));
            &&& state is Running || state is Paused ==> waiting.step == DeleteStep::Done(
                Err(OrchestratorError::Store { error: conflict }),
            )
            &&& !(state is Running) && !(state is Paused) ==> {
                &&& waiting.asks() == (Action::AwaitLeaving { state })
                &&& waiting.after(Reply::Waited(Waited::Left(left))).step is Begin
                &&& gone.asks() is FindDeletingClaim
                &&& gone.after(Reply::DeletingClaim(None)).step == DeleteStep::Done(Ok(()))
                &&& waiting.after(Reply::Waited(Waited::Failed(error))).step == DeleteStep::Done(
                    Err(OrchestratorError::Store { error }),
                )
                &&& waiting.after(Reply::Waited(Waited::TimedOut)).step == DeleteStep::Done(
                    Err(OrchestratorError::InvalidSandboxState { sandbox_id: id, state }),
                )
            }
            &&& !(error is StateConflict) ==> run.after(Reply::Moved(Err(error))).step
                == DeleteStep::Done(Err(OrchestratorError::Store { error }))
        },
        run.step is CheckRetry ==> {
            let id = run.sandbox_id;
            let missing = run.after(Reply::Fetched(Ok(None)));
            let finishing = missing.after(Reply::DeletingClaim(Some(claim)));
            let freeing = finishing.after(Reply::Released(Ok(())));
            &&& run.after(Reply::Fetched(Err(error))).step == DeleteStep::Done(
                Err(OrchestratorError::Store { error }),
            )
            &&& missing.asks() is FindDeletingClaim
            &&& missing.after(Reply::DeletingClaim(None)).step == DeleteStep::Done(
                Err(OrchestratorError::SandboxNotFound { sandbox_id: id }),
            )
            &&& finishing.asks() == (Action::ReleaseClaim { key: claim.0, token: claim.1 })
            &&& finishing.after(Reply::Released(Err(failure))).step == DeleteStep::Done(Err(failure))
            &&& freeing.asks() == (Action::ReleaseImages { owner: ImageOwner::PausedSandbox })
            &&& freeing.after(Reply::Done).step == DeleteStep::Done(Ok(()))
        },
{
}

/// A deletion that cannot find out about the claim gives the state back; every failure after the
/// runtime is gone is told and nothing more is done.
pub proof fn failures_of_a_deletion_are_told(
    run: DeleteRun,
    failure: OrchestratorError,
    error: StoreError,
    persistence: crate::orchestrator::persistence::error::SandboxPersistenceError,
    restored: SandboxState,
)
    ensures
        run.step matches DeleteStep::FindClaim { previous, .. } ==> {
            let unclaimed = run.after(Reply::Claim(Err(failure)));
            &&& unclaimed.asks() == (Action::Move {
                allowed: Allowed::One(SandboxState::Killing),
                state: previous,
            })
            &&& unclaimed.after(Reply::Moved(Ok(restored))).step == DeleteStep::Done(Err(failure))
            &&& unclaimed.after(Reply::Moved(Err(error))).step == DeleteStep::Done(
                Err(OrchestratorError::Store { error }),
            )
        },
        run.step is Fetch ==> run.after(Reply::Fetched(Ok(None))).step == DeleteStep::Done(
            Err(OrchestratorError::SandboxNotFound { sandbox_id: run.sandbox_id }),
        ) && run.after(Reply::Fetched(Err(error))).step == DeleteStep::Done(
            Err(OrchestratorError::Store { error }),
        ),
        run.step is MarkClaim || run.step is ReleaseClaim ==> run.after(
            Reply::Released(Err(failure)),
        ).step == DeleteStep::Done(Err(failure)),
        run.step is Remove ==> run.after(Reply::Stored(Err(error))).step == DeleteStep::Done(
            Err(OrchestratorError::Store { error }),
        ),
        run.step is DeleteArtifacts ==> run.after(Reply::Persisted(Err(persistence))).step
            == DeleteStep::Done(Err(OrchestratorError::Persistence { error: persistence })),
{
}

/// A sandbox that holds a claim has it marked before it goes, by its own key and token; one without
/// goes at once. Either way its resources are given back.
pub proof fn claims_are_marked_first(metadata: SandboxMetadata, token: u64)
    ensures
        DeleteStep::settled(metadata, None) == (DeleteStep::Remove {
            claim: None,
            resources: metadata.resources,
        }),
        metadata.create_idempotency_key is None ==> DeleteStep::settled(metadata, Some(token)) == (
        DeleteStep::Remove { claim: None, resources: metadata.resources }),
        metadata.create_idempotency_key matches Some(own) ==> DeleteStep::settled(
            metadata,
            Some(token),
        ) == (DeleteStep::MarkClaim { key: own, token, resources: metadata.resources }),
{
}

} // verus!
