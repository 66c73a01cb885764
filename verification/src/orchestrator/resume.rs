//! The resume of a paused sandbox.

use crate::ids::SandboxId;
use crate::orchestrator::error::{
    InternalFault, MismatchedResource, OrchestratorError, StoreError,
};
use crate::orchestrator::lifecycle;
use crate::orchestrator::lifecycle::{
    Action, Allowed, MetadataEdit, Operation, Reply, Waited, World,
};
use crate::orchestrator::metadata::SandboxMetadata;
use crate::orchestrator::persistence::error::SandboxPersistenceError;
use crate::orchestrator::types::{
    ImageOwner, NewTimeout, PausedStateRef, SandboxLifecycleEvent, SandboxLifecycleEventType,
    SandboxResources, SandboxState, VirtualizationMode,
};
use vstd::prelude::*;

verus! {

/// Where a resume stands. One that finds another resume under way waits for it and shares its
/// outcome.
#[allow(inconsistent_fields)]
#[derive(Debug)]
pub enum ResumeStep {
    Begin,
    Fetch,
    Wait,
    /// The sandbox runs: only its timeout is changed.
    Retime,
    Transition { metadata: SandboxMetadata },
    /// Another resume was faster.
    Join,
    Mark { metadata: SandboxMetadata },
    /// The durable record could not be marked.
    Undo { stopped: bool, uncertain: bool, error: OrchestratorError },
    Launch { paused_state: PausedStateRef, resources: SandboxResources, secure: bool },
    Release { metadata: SandboxMetadata },
    Publish { metadata: SandboxMetadata },
    Done(Result<SandboxMetadata, OrchestratorError>),
}

impl ResumeStep {
    /// What a resume does with a sandbox that no other resume is busy with.
    pub open spec fn prepared(
        sandbox_id: SandboxId,
        metadata: SandboxMetadata,
        node_mode: VirtualizationMode,
    ) -> ResumeStep {
        if metadata.resume_recovery_pending {
            ResumeStep::Done(
                Err(OrchestratorError::SandboxRecoveryRequired { sandbox_id: metadata.id }),
            )
        } else if metadata.state is Killing {
            ResumeStep::Done(Err(OrchestratorError::SandboxNotFound { sandbox_id }))
        } else if metadata.state is Running {
            ResumeStep::Retime
        } else if !(metadata.state is Paused) {
            ResumeStep::Done(
                Err(
                    OrchestratorError::InvalidSandboxState { sandbox_id, state: metadata.state },
                ),
            )
        } else if !metadata.paused_runtime_stopped {
            ResumeStep::Done(
                Err(
                    OrchestratorError::InternalError {
                        fault: InternalFault::MissingStopProof { sandbox_id: metadata.id },
                    },
                ),
            )
        } else if metadata.virtualization_mode != node_mode {
            ResumeStep::Done(
                Err(
                    OrchestratorError::VirtualizationModeMismatch {
                        resource: MismatchedResource::PausedSandbox { sandbox_id },
                        resource_mode: metadata.virtualization_mode,
                        node_mode,
                    },
                ),
            )
        } else {
            ResumeStep::Transition { metadata }
        }
    }
}

fn prepare_resume(
    sandbox_id: SandboxId,
    metadata: SandboxMetadata,
    node_mode: VirtualizationMode,
) -> (step: ResumeStep)
    ensures
        step == ResumeStep::prepared(sandbox_id, metadata, node_mode),
{
    if metadata.resume_recovery_pending {
        return ResumeStep::Done(
            Err(OrchestratorError::SandboxRecoveryRequired { sandbox_id: metadata.id }),
        );
    }
    match metadata.state {
        SandboxState::Killing => {
            return ResumeStep::Done(Err(OrchestratorError::SandboxNotFound { sandbox_id }));
        },
        SandboxState::Running => {
            return ResumeStep::Retime;
        },
        SandboxState::Paused => {},
        state => {
            return ResumeStep::Done(
                Err(OrchestratorError::InvalidSandboxState { sandbox_id, state }),
            );
        },
    }
    if !metadata.paused_runtime_stopped {
        return ResumeStep::Done(
            Err(
                OrchestratorError::InternalError {
                    fault: InternalFault::MissingStopProof { sandbox_id: metadata.id },
                },
            ),
        );
    }
    if metadata.virtualization_mode != node_mode {
        return ResumeStep::Done(
            Err(
                OrchestratorError::VirtualizationModeMismatch {
                    resource: MismatchedResource::PausedSandbox { sandbox_id },
                    resource_mode: metadata.virtualization_mode,
                    node_mode,
                },
            ),
        );
    }
    ResumeStep::Transition { metadata }
}

/// A resume under way.
#[derive(Debug)]
pub struct ResumeRun {
    pub sandbox_id: SandboxId,
    pub timeout: NewTimeout,
    pub node_mode: VirtualizationMode,
    pub step: ResumeStep,
}

impl ResumeRun {
    pub fn resume_sandbox(
        sandbox_id: SandboxId,
        timeout: NewTimeout,
        node_mode: VirtualizationMode,
    ) -> (run: ResumeRun)
        ensures
            run == (ResumeRun { sandbox_id, timeout, node_mode, step: ResumeStep::Begin }),
    {
        ResumeRun { sandbox_id, timeout, node_mode, step: ResumeStep::Begin }
    }
}

impl Operation for ResumeRun {
    open spec fn asks(self) -> Action {
        match self.step {
            ResumeStep::Begin => Action::CheckShutdown,
            ResumeStep::Fetch => Action::Fetch,
            ResumeStep::Wait => Action::AwaitLeaving { state: SandboxState::Resuming },
            ResumeStep::Retime => Action::Edit {
                allowed: Allowed::One(SandboxState::Running),
                edit: MetadataEdit::Timeout(self.timeout),
            },
            ResumeStep::Transition { .. } => Action::Edit {
                allowed: Allowed::One(SandboxState::Paused),
                edit: MetadataEdit::BeginResume,
            },
            ResumeStep::Join => Action::AwaitLeaving { state: SandboxState::Resuming },
            ResumeStep::Mark { .. } => Action::MarkResuming,
            ResumeStep::Undo { stopped, uncertain, .. } => Action::Edit {
                allowed: Allowed::One(SandboxState::Resuming),
                edit: MetadataEdit::UndoResume { stopped, recovery_pending: uncertain },
            },
            ResumeStep::Launch { paused_state, resources, secure } => Action::Launch {
                paused_state,
                timeout: self.timeout,
                resources,
                secure,
            },
            ResumeStep::Release { .. } => Action::ReleaseImages { owner: ImageOwner::PausedSandbox },
            ResumeStep::Publish { metadata } => Action::PublishEvent {
                event: SandboxLifecycleEvent {
                    event_type: SandboxLifecycleEventType::Resume,
                    sandbox_id: metadata.id,
                    resources: metadata.resources,
                },
            },
            ResumeStep::Done(_) => Action::Nothing,
        }
    }

    open spec fn after(self, reply: Reply) -> ResumeRun {
        let sandbox_id = self.sandbox_id;
        let node_mode = self.node_mode;
        let step = match (self.step, reply) {
            (ResumeStep::Begin, Reply::Answer(shutting_down)) => if shutting_down {
                ResumeStep::Done(Err(OrchestratorError::ShuttingDown))
            } else {
                ResumeStep::Fetch
            },
            (ResumeStep::Fetch, Reply::Fetched(Ok(Some(metadata)))) => {
                if metadata.state == SandboxState::Resuming {
                    ResumeStep::Wait
                } else {
                    ResumeStep::prepared(sandbox_id, metadata, node_mode)
                }
            },
            (ResumeStep::Fetch, Reply::Fetched(Ok(None))) => ResumeStep::Done(
                Err(OrchestratorError::SandboxNotFound { sandbox_id }),
            ),
            (ResumeStep::Fetch, Reply::Fetched(Err(error))) => ResumeStep::Done(
                Err(OrchestratorError::Store { error }),
            ),
            (ResumeStep::Wait, Reply::Waited(Waited::Left(metadata))) => ResumeStep::prepared(
                sandbox_id,
                metadata,
                node_mode,
            ),
            (ResumeStep::Wait | ResumeStep::Join, Reply::Waited(Waited::Gone)) => ResumeStep::Done(
                Err(OrchestratorError::SandboxNotFound { sandbox_id }),
            ),
            (ResumeStep::Wait | ResumeStep::Join, Reply::Waited(Waited::Failed(error))) => {
                ResumeStep::Done(Err(OrchestratorError::Store { error }))
            },
            (ResumeStep::Wait | ResumeStep::Join, Reply::Waited(Waited::TimedOut)) => ResumeStep::Done(
                Err(
                    OrchestratorError::InvalidSandboxState { sandbox_id, state: SandboxState::Resuming },
                ),
            ),
            (ResumeStep::Retime, Reply::Edited(Ok(metadata))) => ResumeStep::Done(Ok(metadata)),
            (
                ResumeStep::Retime,
                Reply::Edited(Err(StoreError::StateConflict { actual_state, .. })),
            ) => ResumeStep::Done(
                Err(OrchestratorError::InvalidSandboxState { sandbox_id, state: actual_state }),
            ),
            (ResumeStep::Retime, Reply::Edited(Err(error))) => ResumeStep::Done(
                Err(OrchestratorError::Store { error }),
            ),
            (ResumeStep::Transition { metadata }, Reply::Edited(Ok(_))) => ResumeStep::Mark { metadata },
            (
                ResumeStep::Transition { .. },
                Reply::Edited(Err(StoreError::StateConflict { actual_state, .. })),
            ) => match actual_state {
                SandboxState::Running => ResumeStep::Retime,
                SandboxState::Resuming => ResumeStep::Join,
                SandboxState::Killing => ResumeStep::Done(
                    Err(OrchestratorError::SandboxNotFound { sandbox_id }),
                ),
                state => ResumeStep::Done(
                    Err(OrchestratorError::InvalidSandboxState { sandbox_id, state }),
                ),
            },
            (ResumeStep::Transition { .. }, Reply::Edited(Err(error))) => ResumeStep::Done(
                Err(OrchestratorError::Store { error }),
            ),
            (ResumeStep::Join, Reply::Waited(Waited::Left(metadata))) => match metadata.state {
                SandboxState::Running => ResumeStep::Retime,
                SandboxState::Killing => ResumeStep::Done(
                    Err(OrchestratorError::SandboxNotFound { sandbox_id }),
                ),
                state => ResumeStep::Done(
                    Err(OrchestratorError::InvalidSandboxState { sandbox_id, state }),
                ),
            },
            (ResumeStep::Mark { metadata }, Reply::Persisted(Ok(_))) => match metadata.paused_state {
                Some(paused_state) => ResumeStep::Launch {
                    paused_state,
                    resources: metadata.resources,
                    secure: metadata.secure,
                },
                None => ResumeStep::Done(
                    Err(OrchestratorError::InternalError { fault: InternalFault::MissingPausedState }),
                ),
            },
            (
                ResumeStep::Mark { metadata },
                Reply::Persisted(Err(SandboxPersistenceError::UncertainCommit { .. })),
            ) => ResumeStep::Undo {
                stopped: metadata.paused_runtime_stopped,
                uncertain: true,
                error: OrchestratorError::SandboxRecoveryRequired { sandbox_id },
            },
            (ResumeStep::Mark { metadata }, Reply::Persisted(Err(error))) => ResumeStep::Undo {
                stopped: metadata.paused_runtime_stopped,
                uncertain: false,
                error: OrchestratorError::InternalError { fault: InternalFault::ResumeMark { error } },
            },
            (ResumeStep::Undo { error, .. }, Reply::Edited(_)) => ResumeStep::Done(Err(error)),
            (ResumeStep::Launch { .. }, Reply::Launched(Ok(metadata))) => ResumeStep::Release { metadata },
            (ResumeStep::Launch { .. }, Reply::Launched(Err(error))) => ResumeStep::Done(Err(error)),
            (ResumeStep::Release { metadata }, Reply::Done) => ResumeStep::Publish { metadata },
            (ResumeStep::Publish { metadata }, Reply::Done) => ResumeStep::Done(Ok(metadata)),
            (step, _) => step,
        };
        ResumeRun { step, ..self }
    }

    fn action(&self) -> Action {
        match &self.step {
            ResumeStep::Begin => Action::CheckShutdown,
            ResumeStep::Fetch => Action::Fetch,
            ResumeStep::Wait => Action::AwaitLeaving { state: SandboxState::Resuming },
            ResumeStep::Retime => Action::Edit {
                allowed: Allowed::One(SandboxState::Running),
                edit: MetadataEdit::Timeout(self.timeout),
            },
            ResumeStep::Transition { .. } => Action::Edit {
                allowed: Allowed::One(SandboxState::Paused),
                edit: MetadataEdit::BeginResume,
            },
            ResumeStep::Join => Action::AwaitLeaving { state: SandboxState::Resuming },
            ResumeStep::Mark { .. } => Action::MarkResuming,
            ResumeStep::Undo { stopped, uncertain, .. } => Action::Edit {
                allowed: Allowed::One(SandboxState::Resuming),
                edit: MetadataEdit::UndoResume { stopped: *stopped, recovery_pending: *uncertain },
            },
            ResumeStep::Launch { paused_state, resources, secure } => Action::Launch {
                paused_state: *paused_state,
                timeout: self.timeout,
                resources: *resources,
                secure: *secure,
            },
            ResumeStep::Release { .. } => Action::ReleaseImages { owner: ImageOwner::PausedSandbox },
            ResumeStep::Publish { metadata } => Action::PublishEvent {
                event: SandboxLifecycleEvent {
                    event_type: SandboxLifecycleEventType::Resume,
                    sandbox_id: metadata.id,
                    resources: metadata.resources,
                },
            },
            ResumeStep::Done(_) => Action::Nothing,
        }
    }

    fn next(self, reply: Reply) -> ResumeRun {
        let sandbox_id = self.sandbox_id;
        let node_mode = self.node_mode;
        let step = match (self.step, reply) {
            (ResumeStep::Begin, Reply::Answer(shutting_down)) => if shutting_down {
                ResumeStep::Done(Err(OrchestratorError::ShuttingDown))
            } else {
                ResumeStep::Fetch
            },
            (ResumeStep::Fetch, Reply::Fetched(Ok(Some(metadata)))) => {
                if metadata.state == SandboxState::Resuming {
                    ResumeStep::Wait
                } else {
                    prepare_resume(sandbox_id, metadata, node_mode)
                }
            },
            (ResumeStep::Fetch, Reply::Fetched(Ok(None))) => ResumeStep::Done(
                Err(OrchestratorError::SandboxNotFound { sandbox_id }),
            ),
            (ResumeStep::Fetch, Reply::Fetched(Err(error))) => ResumeStep::Done(
                Err(OrchestratorError::Store { error }),
            ),
            (ResumeStep::Wait, Reply::Waited(Waited::Left(metadata))) => prepare_resume(
                sandbox_id,
                metadata,
                node_mode,
            ),
            (ResumeStep::Wait | ResumeStep::Join, Reply::Waited(Waited::Gone)) => ResumeStep::Done(
                Err(OrchestratorError::SandboxNotFound { sandbox_id }),
            ),
            (ResumeStep::Wait | ResumeStep::Join, Reply::Waited(Waited::Failed(error))) => {
                ResumeStep::Done(Err(OrchestratorError::Store { error }))
            },
            (ResumeStep::Wait | ResumeStep::Join, Reply::Waited(Waited::TimedOut)) => ResumeStep::Done(
                Err(
                    OrchestratorError::InvalidSandboxState { sandbox_id, state: SandboxState::Resuming },
                ),
            ),
            (ResumeStep::Retime, Reply::Edited(Ok(metadata))) => ResumeStep::Done(Ok(metadata)),
            (
                ResumeStep::Retime,
                Reply::Edited(Err(StoreError::StateConflict { actual_state, .. })),
            ) => ResumeStep::Done(
                Err(OrchestratorError::InvalidSandboxState { sandbox_id, state: actual_state }),
            ),
            (ResumeStep::Retime, Reply::Edited(Err(error))) => ResumeStep::Done(
                Err(OrchestratorError::Store { error }),
            ),
            (ResumeStep::Transition { metadata }, Reply::Edited(Ok(_))) => ResumeStep::Mark { metadata },
            (
                ResumeStep::Transition { .. },
                Reply::Edited(Err(StoreError::StateConflict { actual_state, .. })),
            ) => match actual_state {
                SandboxState::Running => ResumeStep::Retime,
                SandboxState::Resuming => ResumeStep::Join,
                SandboxState::Killing => ResumeStep::Done(
                    Err(OrchestratorError::SandboxNotFound { sandbox_id }),
                ),
                state => ResumeStep::Done(
                    Err(OrchestratorError::InvalidSandboxState { sandbox_id, state }),
                ),
            },
            (ResumeStep::Transition { .. }, Reply::Edited(Err(error))) => ResumeStep::Done(
                Err(OrchestratorError::Store { error }),
            ),
            (ResumeStep::Join, Reply::Waited(Waited::Left(metadata))) => match metadata.state {
                SandboxState::Running => ResumeStep::Retime,
                SandboxState::Killing => ResumeStep::Done(
                    Err(OrchestratorError::SandboxNotFound { sandbox_id }),
                ),
                state => ResumeStep::Done(
                    Err(OrchestratorError::InvalidSandboxState { sandbox_id, state }),
                ),
            },
            (ResumeStep::Mark { metadata }, Reply::Persisted(Ok(_))) => match metadata.paused_state {
                Some(paused_state) => ResumeStep::Launch {
                    paused_state,
                    resources: metadata.resources,
                    secure: metadata.secure,
                },
                None => ResumeStep::Done(
                    Err(OrchestratorError::InternalError { fault: InternalFault::MissingPausedState }),
                ),
            },
            (
                ResumeStep::Mark { metadata },
                Reply::Persisted(Err(SandboxPersistenceError::UncertainCommit { .. })),
            ) => ResumeStep::Undo {
                stopped: metadata.paused_runtime_stopped,
                uncertain: true,
                error: OrchestratorError::SandboxRecoveryRequired { sandbox_id },
            },
            (ResumeStep::Mark { metadata }, Reply::Persisted(Err(error))) => ResumeStep::Undo {
                stopped: metadata.paused_runtime_stopped,
                uncertain: false,
                error: OrchestratorError::InternalError { fault: InternalFault::ResumeMark { error } },
            },
            (ResumeStep::Undo { error, .. }, Reply::Edited(_)) => ResumeStep::Done(Err(error)),
            (ResumeStep::Launch { .. }, Reply::Launched(Ok(metadata))) => ResumeStep::Release { metadata },
            (ResumeStep::Launch { .. }, Reply::Launched(Err(error))) => ResumeStep::Done(Err(error)),
            (ResumeStep::Release { metadata }, Reply::Done) => ResumeStep::Publish { metadata },
            (ResumeStep::Publish { metadata }, Reply::Done) => ResumeStep::Done(Ok(metadata)),
            (step, _) => step,
        };
        ResumeRun { step, ..self }
    }
}

/// What holds of the sandbox when its resume is at a step.
pub open spec fn is_sound(run: ResumeRun, world: World) -> bool {
    &&& world.is_truthful()
    &&& match run.step {
        ResumeStep::Transition { metadata } => metadata.paused_runtime_stopped && !world.alive,
        ResumeStep::Mark { metadata } => metadata.paused_runtime_stopped && !world.alive
            && is_resuming(world),
        ResumeStep::Undo { .. } => !world.alive,
        ResumeStep::Launch { .. } => !world.alive && is_resuming(world),
        ResumeStep::Release { metadata } => is_running(metadata, world),
        ResumeStep::Publish { metadata } => is_running(metadata, world),
        ResumeStep::Done(Ok(metadata)) => is_running(metadata, world),
        _ => true,
    }
}

/// Whether a sandbox runs with this metadata.
pub open spec fn is_running(metadata: SandboxMetadata, world: World) -> bool {
    world.metadata == Some(metadata) && metadata.state is Running
}

/// Whether a sandbox is being resumed, its stop proof used up.
pub open spec fn is_resuming(world: World) -> bool {
    &&& world.metadata is Some
    &&& world.metadata->0.state is Resuming
    &&& !world.metadata->0.paused_runtime_stopped
}

proof fn steps_keep_soundness(run: ResumeRun, reply: Reply, before: World, after: World)
    requires
        is_sound(run, before),
        lifecycle::answers(run.asks(), reply),
        lifecycle::happens(before, run.asks(), reply, after),
    ensures
        is_sound(run.after(reply), after),
{
}

/// At every moment of every resume, a stop proof is only there where the runtime is gone; a launch
/// is only begun where the runtime is gone and the stop proof has been used up; and a resume that
/// succeeds leaves a running sandbox with the metadata that it returns.
pub proof fn resumes_launch_only_what_is_stopped(
    runs: Seq<ResumeRun>,
    replies: Seq<Reply>,
    worlds: Seq<World>,
    at: int,
)
    requires
        lifecycle::is_history(runs, replies, worlds),
        runs[0].step is Begin,
        worlds[0].is_truthful(),
        0 <= at < runs.len(),
    ensures
        worlds[at].is_truthful(),
        runs[at].asks() is Launch ==> !worlds[at].alive && is_resuming(worlds[at]),
        runs[at].step matches ResumeStep::Done(Ok(metadata)) ==> is_running(metadata, worlds[at]),
        is_sound(runs[at], worlds[at]),
    decreases at,
{
    if at > 0 {
        resumes_launch_only_what_is_stopped(runs, replies, worlds, at - 1);
        assert(lifecycle::happens(
            worlds[at - 1],
            runs[at - 1].asks(),
            replies[at - 1],
            worlds[at],
        ));
        steps_keep_soundness(runs[at - 1], replies[at - 1], worlds[at - 1], worlds[at]);
    }
}

/// A resume goes no further on a sandbox that waits for recovery, that lacks a stop proof, or that
/// is of another virtualization mode than the node.
pub proof fn unusable_sandboxes_are_not_resumed(
    sandbox_id: SandboxId,
    metadata: SandboxMetadata,
    node_mode: VirtualizationMode,
)
    ensures
        ResumeStep::prepared(sandbox_id, metadata, node_mode) is Transition <==> {
            &&& metadata.state is Paused
            &&& metadata.paused_runtime_stopped
            &&& !metadata.resume_recovery_pending
            &&& metadata.virtualization_mode == node_mode
        },
{
}

/// A resume that could not be marked in the durable record leaves the sandbox paused with the stop
/// proof that it had; where the mark may have been written, the sandbox waits for recovery.
pub proof fn unmarked_resumes_are_undone(
    run: ResumeRun,
    metadata: SandboxMetadata,
    error: SandboxPersistenceError,
    edited: Result<SandboxMetadata, StoreError>,
)
    requires
        run.step == (ResumeStep::Mark { metadata }),
    ensures
        ({
            let undone = run.after(Reply::Persisted(Err(error)));
            &&& undone.asks() == (Action::Edit {
                allowed: Allowed::One(SandboxState::Resuming),
                edit: MetadataEdit::UndoResume {
                    stopped: metadata.paused_runtime_stopped,
                    recovery_pending: error is UncertainCommit,
                },
            })
            &&& undone.after(Reply::Edited(edited)).step == (ResumeStep::Done(
                Err(
                    if error is UncertainCommit {
                        OrchestratorError::SandboxRecoveryRequired { sandbox_id: run.sandbox_id }
                    } else {
                        OrchestratorError::InternalError {
                            fault: InternalFault::ResumeMark { error },
                        }
                    },
                ),
            ))
        }),
{
}

/// A resume that meets no obstacle marks the sandbox as being resumed, in memory and then in its
/// durable record, launches it from its own paused state with its own resources and the timeout asked
/// for, gives the images of the pause free, and tells of the resume.
pub proof fn resumes_launch_the_paused_state(
    run: ResumeRun,
    metadata: SandboxMetadata,
    marked: SandboxMetadata,
    launched: SandboxMetadata,
    error: OrchestratorError,
)
    requires
        run.step is Begin,
        metadata.state is Paused,
        metadata.paused_runtime_stopped,
        !metadata.resume_recovery_pending,
        metadata.virtualization_mode == run.node_mode,
    ensures
        ({
            let begun = run.after(Reply::Answer(false));
            let seen = begun.after(Reply::Fetched(Ok(Some(metadata))));
            let resuming = seen.after(Reply::Edited(Ok(marked)));
            let noted = resuming.after(Reply::Persisted(Ok(())));
            let up = noted.after(Reply::Launched(Ok(launched)));
            let freed = up.after(Reply::Done);
            &&& run.asks() is CheckShutdown
            &&& run.after(Reply::Answer(true)).step == ResumeStep::Done(
                Err(OrchestratorError::ShuttingDown),
            )
            &&& begun.asks() is Fetch
            &&& seen.asks() == (Action::Edit {
                allowed: Allowed::One(SandboxState::Paused),
                edit: MetadataEdit::BeginResume,
            })
            &&& resuming.asks() is MarkResuming
            &&& metadata.paused_state matches Some(paused_state) ==> {
                &&& noted.asks() == (Action::Launch {
                    paused_state,
                    timeout: run.timeout,
                    resources: metadata.resources,
                    secure: metadata.secure,
                })
                &&& noted.after(Reply::Launched(Err(error))).step == ResumeStep::Done(Err(error))
                &&& up.asks() == (Action::ReleaseImages { owner: ImageOwner::PausedSandbox })
                &&& freed.asks() == (Action::PublishEvent {
                    event: SandboxLifecycleEvent {
                        event_type: SandboxLifecycleEventType::Resume,
                        sandbox_id: launched.id,
                        resources: launched.resources,
                    },
                })
                &&& freed.after(Reply::Done).step == ResumeStep::Done(Ok(launched))
            }
            &&& metadata.paused_state is None ==> noted.step == ResumeStep::Done(
                Err(OrchestratorError::InternalError { fault: InternalFault::MissingPausedState }),
            )
        }),
{
}

/// A sandbox that runs already is only given the timeout asked for; one that another resume is busy
/// with is waited for; and each other sandbox is refused for the first thing that speaks against it.
pub proof fn resumes_are_refused_for_what_is_found(
    run: ResumeRun,
    metadata: SandboxMetadata,
    stored: SandboxMetadata,
    error: StoreError,
)
    requires
        run.step is Fetch || run.step is Wait,
    ensures
        ({
            let id = run.sandbox_id;
            let reply = if run.step is Fetch {
                Reply::Fetched(Ok(Some(metadata)))
            } else {
                Reply::Waited(Waited::Left(metadata))
            };
            let seen = run.after(reply);
            &&& run.step is Fetch ==> {
                &&& run.after(Reply::Fetched(Ok(None))).step == ResumeStep::Done(
                    Err(OrchestratorError::SandboxNotFound { sandbox_id: id }),
                )
                &&& run.after(Reply::Fetched(Err(error))).step == ResumeStep::Done(
                    Err(OrchestratorError::Store { error }),
                )
                &&& metadata.state is Resuming ==> seen.step is Wait && seen.asks() == (
                Action::AwaitLeaving { state: SandboxState::Resuming })
            }
            &&& !(metadata.state is Resuming) ==> {
                &&& metadata.resume_recovery_pending ==> seen.step == ResumeStep::Done(
                    Err(OrchestratorError::SandboxRecoveryRequired { sandbox_id: metadata.id }),
                )
                &&& !metadata.resume_recovery_pending ==> {
                    &&& metadata.state is Killing ==> seen.step == ResumeStep::Done(
                        Err(OrchestratorError::SandboxNotFound { sandbox_id: id }),
                    )
                    &&& metadata.state is Running ==> {
                        &&& seen.asks() == (Action::Edit {
                            allowed: Allowed::One(SandboxState::Running),
                            edit: MetadataEdit::Timeout(run.timeout),
                        })
                        &&& seen.after(Reply::Edited(Ok(stored))).step == ResumeStep::Done(Ok(stored))
                        &&& error matches StoreError::StateConflict { actual_state, .. }
                            ==> seen.after(Reply::Edited(Err(error))).step == ResumeStep::Done(
                            Err(
                                OrchestratorError::InvalidSandboxState {
                                    sandbox_id: id,
                                    state: actual_state,
                                },
                            ),
                        )
                        &&& !(error is StateConflict) ==> seen.after(
                            Reply::Edited(Err(error)),
                        ).step == ResumeStep::Done(Err(OrchestratorError::Store { error }))
                    }
                    &&& metadata.state is Creating || metadata.state is Pausing || metadata.state
                        is Snapshotting || metadata.state is Forking ==> seen.step
                        == ResumeStep::Done(
                        Err(
                            OrchestratorError::InvalidSandboxState {
                                sandbox_id: id,
                                state: metadata.state,
                            },
                        ),
                    )
                    &&& metadata.state is Paused && !metadata.paused_runtime_stopped ==> seen.step
                        == ResumeStep::Done(
                        Err(
                            OrchestratorError::InternalError {
                                fault: InternalFault::MissingStopProof { sandbox_id: metadata.id },
                            },
                        ),
                    )
                    &&& metadata.state is Paused && metadata.paused_runtime_stopped
                        && metadata.virtualization_mode != run.node_mode ==> seen.step
                        == ResumeStep::Done(
                        Err(
                            OrchestratorError::VirtualizationModeMismatch {
                                resource: MismatchedResource::PausedSandbox { sandbox_id: id },
                                resource_mode: metadata.virtualization_mode,
                                node_mode: run.node_mode,
                            },
                        ),
                    )
                }
            }
        }),
{
}

/// A resume that comes second to another one shares what that one came to: a sandbox that then runs
/// is given the timeout asked for, and for any other the state that it is in is told.
pub proof fn resumes_share_what_another_came_to(
    run: ResumeRun,
    conflict: StoreError,
    left: SandboxMetadata,
    error: StoreError,
)
    requires
        run.step is Transition,
        conflict is StateConflict,
    ensures
        ({
            let id = run.sandbox_id;
            let state = conflict->StateConflict_actual_state;
            let second = run.after(Reply::Edited(Err(conflict)));
            let shared = second.after(Reply::Waited(Waited::Left(left)));
            let retimed = Action::Edit {
                allowed: Allowed::One(SandboxState::Running),
                edit: MetadataEdit::Timeout(run.timeout),
            };
            &&& state is Running ==> second.asks() == retimed
            &&& state is Killing ==> second.step == ResumeStep::Done(
                Err(OrchestratorError::SandboxNotFound { sandbox_id: id }),
            )
            &&& state is Resuming ==> {
                &&& second.asks() == (Action::AwaitLeaving { state: SandboxState::Resuming })
                &&& left.state is Running ==> shared.asks() == retimed
                &&& left.state is Killing ==> shared.step == ResumeStep::Done(
                    Err(OrchestratorError::SandboxNotFound { sandbox_id: id }),
                )
                &&& !(left.state is Running) && !(left.state is Killing) ==> shared.step
                    == ResumeStep::Done(
                    Err(OrchestratorError::InvalidSandboxState { sandbox_id: id, state: left.state }),
                )
                &&& second.after(Reply::Waited(Waited::Gone)).step == ResumeStep::Done(
                    Err(OrchestratorError::SandboxNotFound { sandbox_id: id }),
                )
                &&& second.after(Reply::Waited(Waited::Failed(error))).step == ResumeStep::Done(
                    Err(OrchestratorError::Store { error }),
                )
                &&& second.after(Reply::Waited(Waited::TimedOut)).step == ResumeStep::Done(
                    Err(
                        OrchestratorError::InvalidSandboxState {
                            sandbox_id: id,
                            state: SandboxState::Resuming,
                        },
                    ),
                )
            }
            &&& !(state is Running) && !(state is Killing) && !(state is Resuming) ==> second.step
                == ResumeStep::Done(
                Err(OrchestratorError::InvalidSandboxState { sandbox_id: id, state }),
            )
            &&& !(error is StateConflict) ==> run.after(Reply::Edited(Err(error))).step
                == ResumeStep::Done(Err(OrchestratorError::Store { error }))
        }),
{
}

} // verus!
