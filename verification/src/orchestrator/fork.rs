//! The fork of a running sandbox into new ones.

use crate::ids::SandboxId;
use crate::orchestrator::error::{OrchestratorError, SandboxOperation, StoreError};
use crate::orchestrator::lifecycle;
use crate::orchestrator::lifecycle::{Action, Allowed, MetadataEdit, Operation, Reply, World};
use crate::orchestrator::metadata::SandboxMetadata;
use crate::orchestrator::types::{
    NewTimeout, SandboxLifecycleEvent, SandboxLifecycleEventType, SandboxState,
};
use vstd::prelude::*;

verus! {

/// Where a fork stands, as far as its source is concerned. It ends with the metadata that the new
/// sandboxes are made from.
#[allow(inconsistent_fields)]
#[derive(Debug)]
pub enum ForkStep {
    Begin,
    FindRuntime,
    Transition,
    Fork { metadata: SandboxMetadata },
    /// The source cannot be used any more.
    Detach { error: OrchestratorError },
    Stop { error: OrchestratorError },
    Remove { error: OrchestratorError },
    RestoreFailed { error: OrchestratorError },
    Restore { metadata: SandboxMetadata },
    Done(Result<SandboxMetadata, OrchestratorError>),
}

/// A fork under way.
#[derive(Debug)]
pub struct ForkRun {
    pub sandbox_id: SandboxId,
    pub count: u32,
    /// How many creations have failed with the fork of the runtime.
    pub failed: u64,
    pub step: ForkStep,
}

impl ForkRun {
    pub fn fork_sandbox(sandbox_id: SandboxId, count: u32) -> (run: ForkRun)
        ensures
            run == (ForkRun { sandbox_id, count, failed: 0, step: ForkStep::Begin }),
    {
        ForkRun { sandbox_id, count, failed: 0, step: ForkStep::Begin }
    }
}

impl Operation for ForkRun {
    open spec fn asks(self) -> Action {
        match self.step {
            ForkStep::Begin => Action::CheckShutdown,
            ForkStep::FindRuntime => Action::FindRuntime,
            ForkStep::Transition => Action::Edit {
                allowed: Allowed::One(SandboxState::Running),
                edit: MetadataEdit::State(SandboxState::Forking),
            },
            ForkStep::Fork { metadata } => Action::ForkRuntime { count: self.count, secure: metadata.secure },
            ForkStep::Detach { .. } => Action::Detach,
            ForkStep::Stop { .. } => Action::StopRuntime,
            ForkStep::Remove { .. } => Action::Remove,
            ForkStep::RestoreFailed { .. } => Action::Edit {
                allowed: Allowed::One(SandboxState::Forking),
                edit: MetadataEdit::State(SandboxState::Running),
            },
            ForkStep::Restore { .. } => Action::Edit {
                allowed: Allowed::One(SandboxState::Forking),
                edit: MetadataEdit::State(SandboxState::Running),
            },
            ForkStep::Done(_) => Action::Nothing,
        }
    }

    open spec fn after(self, reply: Reply) -> ForkRun {
        let sandbox_id = self.sandbox_id;
        let failed = match (self.step, reply) {
            (ForkStep::Fork { .. }, Reply::Forked(Err(_))) => self.count as u64,
            _ => self.failed,
        };
        let step = match (self.step, reply) {
            (ForkStep::Begin, Reply::Answer(shutting_down)) => if shutting_down {
                ForkStep::Done(Err(OrchestratorError::ShuttingDown))
            } else {
                ForkStep::FindRuntime
            },
            (ForkStep::FindRuntime, Reply::Answer(found)) => if found {
                ForkStep::Transition
            } else {
                ForkStep::Done(Err(OrchestratorError::SandboxNotFound { sandbox_id }))
            },
            (ForkStep::Transition, Reply::Edited(Ok(metadata))) => ForkStep::Fork { metadata },
            (
                ForkStep::Transition,
                Reply::Edited(Err(StoreError::StateConflict { actual_state, .. })),
            ) => match actual_state {
                SandboxState::Killing => ForkStep::Done(
                    Err(OrchestratorError::SandboxNotFound { sandbox_id }),
                ),
                state => ForkStep::Done(Err(OrchestratorError::InvalidSandboxState { sandbox_id, state })),
            },
            (ForkStep::Transition, Reply::Edited(Err(error))) => ForkStep::Done(
                Err(OrchestratorError::Store { error }),
            ),
            (ForkStep::Fork { metadata }, Reply::Forked(Ok(_))) => ForkStep::Restore { metadata },
            (ForkStep::Fork { .. }, Reply::Forked(Err(failure))) => {
                let error = OrchestratorError::SandboxOperationFailed {
                    sandbox_id,
                    operation: SandboxOperation::Fork,
                    source: failure.source,
                };
                if failure.terminal {
                    ForkStep::Detach { error }
                } else {
                    ForkStep::RestoreFailed { error }
                }
            },
            (ForkStep::Detach { error }, Reply::Answer(_)) => ForkStep::Stop { error },
            (ForkStep::Stop { error }, Reply::Ran(_)) => ForkStep::Remove { error },
            (ForkStep::Remove { error }, Reply::Stored(Ok(_))) => ForkStep::Done(Err(error)),
            (ForkStep::Remove { .. }, Reply::Stored(Err(error))) => ForkStep::Done(
                Err(OrchestratorError::Store { error }),
            ),
            (ForkStep::RestoreFailed { error }, Reply::Edited(_)) => ForkStep::Done(Err(error)),
            (ForkStep::Restore { metadata }, Reply::Edited(_)) => ForkStep::Done(Ok(metadata)),
            (step, _) => step,
        };
        ForkRun { failed, step, ..self }
    }

    fn action(&self) -> Action {
        match &self.step {
            ForkStep::Begin => Action::CheckShutdown,
            ForkStep::FindRuntime => Action::FindRuntime,
            ForkStep::Transition => Action::Edit {
                allowed: Allowed::One(SandboxState::Running),
                edit: MetadataEdit::State(SandboxState::Forking),
            },
            ForkStep::Fork { metadata } => Action::ForkRuntime { count: self.count, secure: metadata.secure },
            ForkStep::Detach { .. } => Action::Detach,
            ForkStep::Stop { .. } => Action::StopRuntime,
            ForkStep::Remove { .. } => Action::Remove,
            ForkStep::RestoreFailed { .. } => Action::Edit {
                allowed: Allowed::One(SandboxState::Forking),
                edit: MetadataEdit::State(SandboxState::Running),
            },
            ForkStep::Restore { .. } => Action::Edit {
                allowed: Allowed::One(SandboxState::Forking),
                edit: MetadataEdit::State(SandboxState::Running),
            },
            ForkStep::Done(_) => Action::Nothing,
        }
    }

    fn next(self, reply: Reply) -> ForkRun {
        let sandbox_id = self.sandbox_id;
        let failed: u64 = match (&self.step, &reply) {
            (ForkStep::Fork { .. }, Reply::Forked(Err(_))) => self.count as u64,
            _ => self.failed,
        };
        let step = match (self.step, reply) {
            (ForkStep::Begin, Reply::Answer(shutting_down)) => if shutting_down {
                ForkStep::Done(Err(OrchestratorError::ShuttingDown))
            } else {
                ForkStep::FindRuntime
            },
            (ForkStep::FindRuntime, Reply::Answer(found)) => if found {
                ForkStep::Transition
            } else {
                ForkStep::Done(Err(OrchestratorError::SandboxNotFound { sandbox_id }))
            },
            (ForkStep::Transition, Reply::Edited(Ok(metadata))) => ForkStep::Fork { metadata },
            (
                ForkStep::Transition,
                Reply::Edited(Err(StoreError::StateConflict { actual_state, .. })),
            ) => match actual_state {
                SandboxState::Killing => ForkStep::Done(
                    Err(OrchestratorError::SandboxNotFound { sandbox_id }),
                ),
                state => ForkStep::Done(Err(OrchestratorError::InvalidSandboxState { sandbox_id, state })),
            },
            (ForkStep::Transition, Reply::Edited(Err(error))) => ForkStep::Done(
                Err(OrchestratorError::Store { error }),
            ),
            (ForkStep::Fork { metadata }, Reply::Forked(Ok(_))) => ForkStep::Restore { metadata },
            (ForkStep::Fork { .. }, Reply::Forked(Err(failure))) => {
                let error = OrchestratorError::SandboxOperationFailed {
                    sandbox_id,
                    operation: SandboxOperation::Fork,
                    source: failure.source,
                };
                if failure.terminal {
                    ForkStep::Detach { error }
                } else {
                    ForkStep::RestoreFailed { error }
                }
            },
            (ForkStep::Detach { error }, Reply::Answer(_)) => ForkStep::Stop { error },
            (ForkStep::Stop { error }, Reply::Ran(_)) => ForkStep::Remove { error },
            (ForkStep::Remove { error }, Reply::Stored(Ok(_))) => ForkStep::Done(Err(error)),
            (ForkStep::Remove { .. }, Reply::Stored(Err(error))) => ForkStep::Done(
                Err(OrchestratorError::Store { error }),
            ),
            (ForkStep::RestoreFailed { error }, Reply::Edited(_)) => ForkStep::Done(Err(error)),
            (ForkStep::Restore { metadata }, Reply::Edited(_)) => ForkStep::Done(Ok(metadata)),
            (step, _) => step,
        };
        ForkRun { failed, step, ..self }
    }
}

/// Where the registration of a forked sandbox stands.
#[derive(Debug)]
pub enum ForkChildStep {
    LookUpTarget { metadata: SandboxMetadata },
    Insert { metadata: SandboxMetadata },
    /// The new sandbox cannot be registered.
    Stop { source: String },
    Attach { metadata: SandboxMetadata },
    PublishRoute { metadata: SandboxMetadata },
    Publish { metadata: SandboxMetadata },
    Done(Result<SandboxMetadata, OrchestratorError>),
}

/// The registration of one forked sandbox.
#[derive(Debug)]
pub struct ForkChildRun {
    pub sandbox_id: SandboxId,
    pub step: ForkChildStep,
}

/// The metadata of a sandbox that was forked from another one. It is a runtime of its own and not
/// the result of the create operation of its source: it takes over no create key, which would be
/// there twice after a pause and a restart.
pub open spec fn child_of(
    source: SandboxMetadata,
    sandbox_id: SandboxId,
    timeout: NewTimeout,
    now: u128,
) -> SandboxMetadata {
    SandboxMetadata {
        id: sandbox_id,
        state: SandboxState::Running,
        created_at: now,
        paused_state: None,
        create_idempotency_key: None,
        create_request_fingerprint: None,
        paused_runtime_stopped: false,
        ..source
    }.with_timeout(timeout, now)
}

impl ForkChildRun {
    /// Registers a forked sandbox, or tells why it did not come up.
    pub fn register_fork(
        source: &SandboxMetadata,
        sandbox_id: SandboxId,
        timeout: NewTimeout,
        now: u128,
        started: Result<(), String>,
    ) -> (run: ForkChildRun)
        ensures
            run.sandbox_id == sandbox_id,
            match started {
                Ok(_) => run.step == (ForkChildStep::LookUpTarget {
                    metadata: child_of(*source, sandbox_id, timeout, now),
                }),
                Err(source) => run.step == (ForkChildStep::Done(
                    Err(
                        OrchestratorError::SandboxOperationFailed {
                            sandbox_id,
                            operation: SandboxOperation::Fork,
                            source,
                        },
                    ),
                )),
            },
    {
        match started {
            Ok(_) => {
                let mut metadata = SandboxMetadata {
                    id: sandbox_id,
                    state: SandboxState::Running,
                    created_at: now,
                    paused_state: None,
                    create_idempotency_key: None,
                    create_request_fingerprint: None,
                    paused_runtime_stopped: false,
                    ..source.copy()
                };
                metadata.update_timeout(timeout, now);
                ForkChildRun { sandbox_id, step: ForkChildStep::LookUpTarget { metadata } }
            },
            Err(source) => ForkChildRun {
                sandbox_id,
                step: ForkChildStep::Done(
                    Err(
                        OrchestratorError::SandboxOperationFailed {
                            sandbox_id,
                            operation: SandboxOperation::Fork,
                            source,
                        },
                    ),
                ),
            },
        }
    }
}

impl Operation for ForkChildRun {
    open spec fn asks(self) -> Action {
        match self.step {
            ForkChildStep::LookUpTarget { .. } => Action::ResolveTarget,
            ForkChildStep::Insert { metadata } => Action::Enroll { metadata },
            ForkChildStep::Stop { .. } => Action::StopRuntime,
            ForkChildStep::Attach { .. } => Action::Attach,
            ForkChildStep::PublishRoute { .. } => Action::PublishRoute,
            ForkChildStep::Publish { metadata } => Action::PublishEvent {
                event: SandboxLifecycleEvent {
                    event_type: SandboxLifecycleEventType::Fork,
                    sandbox_id: metadata.id,
                    resources: metadata.resources,
                },
            },
            ForkChildStep::Done(_) => Action::Nothing,
        }
    }

    open spec fn after(self, reply: Reply) -> ForkChildRun {
        let sandbox_id = self.sandbox_id;
        let step = match (self.step, reply) {
            (ForkChildStep::LookUpTarget { metadata }, Reply::Ran(Ok(_))) => ForkChildStep::Insert {
                metadata,
            },
            (ForkChildStep::LookUpTarget { .. }, Reply::Ran(Err(source))) => ForkChildStep::Stop {
                source,
            },
            (ForkChildStep::Insert { metadata }, Reply::Ran(Ok(_))) => ForkChildStep::Attach { metadata },
            (ForkChildStep::Insert { .. }, Reply::Ran(Err(source))) => ForkChildStep::Stop { source },
            (ForkChildStep::Stop { source }, Reply::Ran(_)) => ForkChildStep::Done(
                Err(
                    OrchestratorError::SandboxOperationFailed {
                        sandbox_id,
                        operation: SandboxOperation::Fork,
                        source,
                    },
                ),
            ),
            (ForkChildStep::Attach { metadata }, Reply::Done) => ForkChildStep::PublishRoute { metadata },
            (ForkChildStep::PublishRoute { metadata }, Reply::Done) => ForkChildStep::Publish { metadata },
            (ForkChildStep::Publish { metadata }, Reply::Done) => ForkChildStep::Done(Ok(metadata)),
            (step, _) => step,
        };
        ForkChildRun { step, ..self }
    }

    fn action(&self) -> Action {
        match &self.step {
            ForkChildStep::LookUpTarget { .. } => Action::ResolveTarget,
            ForkChildStep::Insert { metadata } => Action::Enroll { metadata: metadata.copy() },
            ForkChildStep::Stop { .. } => Action::StopRuntime,
            ForkChildStep::Attach { .. } => Action::Attach,
            ForkChildStep::PublishRoute { .. } => Action::PublishRoute,
            ForkChildStep::Publish { metadata } => Action::PublishEvent {
                event: SandboxLifecycleEvent {
                    event_type: SandboxLifecycleEventType::Fork,
                    sandbox_id: metadata.id,
                    resources: metadata.resources,
                },
            },
            ForkChildStep::Done(_) => Action::Nothing,
        }
    }

    fn next(self, reply: Reply) -> ForkChildRun {
        let sandbox_id = self.sandbox_id;
        let step = match (self.step, reply) {
            (ForkChildStep::LookUpTarget { metadata }, Reply::Ran(Ok(_))) => ForkChildStep::Insert {
                metadata,
            },
            (ForkChildStep::LookUpTarget { .. }, Reply::Ran(Err(source))) => ForkChildStep::Stop {
                source,
            },
            (ForkChildStep::Insert { metadata }, Reply::Ran(Ok(_))) => ForkChildStep::Attach { metadata },
            (ForkChildStep::Insert { .. }, Reply::Ran(Err(source))) => ForkChildStep::Stop { source },
            (ForkChildStep::Stop { source }, Reply::Ran(_)) => ForkChildStep::Done(
                Err(
                    OrchestratorError::SandboxOperationFailed {
                        sandbox_id,
                        operation: SandboxOperation::Fork,
                        source,
                    },
                ),
            ),
            (ForkChildStep::Attach { metadata }, Reply::Done) => ForkChildStep::PublishRoute { metadata },
            (ForkChildStep::PublishRoute { metadata }, Reply::Done) => ForkChildStep::Publish { metadata },
            (ForkChildStep::Publish { metadata }, Reply::Done) => ForkChildStep::Done(Ok(metadata)),
            (step, _) => step,
        };
        ForkChildRun { step, ..self }
    }
}

/// The number of outcomes that are successes.
pub open spec fn successes(outcomes: Seq<Result<SandboxMetadata, OrchestratorError>>) -> nat
    decreases outcomes.len(),
{
    if outcomes.len() == 0 {
        0
    } else {
        successes(outcomes.drop_last()) + if outcomes.last() is Ok {
            1nat
        } else {
            0nat
        }
    }
}

/// What a fork adds to the counts of creations that succeeded and that failed.
#[derive(Clone, Copy, Debug, PartialEq, Eq, Structural)]
pub struct ForkCounts {
    pub succeeded: u64,
    pub failed: u64,
}

proof fn successes_are_outcomes(outcomes: Seq<Result<SandboxMetadata, OrchestratorError>>)
    ensures
        successes(outcomes) <= outcomes.len(),
    decreases outcomes.len(),
{
    if outcomes.len() > 0 {
        successes_are_outcomes(outcomes.drop_last());
    }
}

/// Counts the outcomes of a fork: every sandbox that was asked for and did not come up failed.
pub fn count_fork_outcomes(
    count: u32,
    outcomes: &Vec<Result<SandboxMetadata, OrchestratorError>>,
) -> (counts: ForkCounts)
    requires
        outcomes@.len() <= count,
    ensures
        counts.succeeded == successes(outcomes@),
        counts.succeeded + counts.failed == count,
{
    let mut succeeded: u32 = 0;
    let mut at: usize = 0;
    while at < outcomes.len()
        invariant
            at <= outcomes@.len() <= count,
            succeeded == successes(outcomes@.take(at as int)),
            succeeded <= at,
        decreases outcomes@.len() - at,
    {
        proof {
            assert(outcomes@.take(at + 1).drop_last() == outcomes@.take(at as int));
        }
        if outcomes[at].is_ok() {
            succeeded += 1;
        }
        at += 1;
    }
    proof {
        assert(outcomes@.take(at as int) == outcomes@);
    }
    ForkCounts { succeeded: succeeded as u64, failed: (count - succeeded) as u64 }
}

/// What holds of the source when its fork is at a step.
pub open spec fn is_sound(run: ForkRun, world: World) -> bool {
    &&& world.is_truthful()
    &&& match run.step {
        ForkStep::Fork { metadata } => world.metadata == Some(metadata)
            && metadata.state is Forking,
        _ => true,
    }
}

proof fn steps_keep_soundness(run: ForkRun, reply: Reply, before: World, after: World)
    requires
        is_sound(run, before),
        lifecycle::answers(run.asks(), reply),
        lifecycle::happens(before, run.asks(), reply, after),
    ensures
        is_sound(run.after(reply), after),
{
}

/// At every moment of every fork, a stop proof of the source is only there where its runtime is
/// gone, and the runtime is only forked while the source is marked as forking.
pub proof fn forks_keep_their_source_truthful(
    runs: Seq<ForkRun>,
    replies: Seq<Reply>,
    worlds: Seq<World>,
    at: int,
)
    requires
        lifecycle::is_history(runs, replies, worlds),
        runs[0].step is Begin,
        worlds[0].is_truthful(),
        0 <= at < runs.len(),
    ensures
        worlds[at].is_truthful(),
        runs[at].asks() is ForkRuntime ==> worlds[at].metadata is Some
            && worlds[at].metadata->0.state is Forking,
        is_sound(runs[at], worlds[at]),
    decreases at,
{
    if at > 0 {
        forks_keep_their_source_truthful(runs, replies, worlds, at - 1);
        assert(lifecycle::happens(
            worlds[at - 1],
            runs[at - 1].asks(),
            replies[at - 1],
            worlds[at],
        ));
        steps_keep_soundness(runs[at - 1], replies[at - 1], worlds[at - 1], worlds[at]);
    }
}

/// What a fork has counted at a step, and that nothing was counted before the runtime was forked.
spec fn is_counted(run: ForkRun, count: u32) -> bool {
    &&& run.count == count
    &&& match run.step {
        ForkStep::Begin
        | ForkStep::FindRuntime
        | ForkStep::Transition
        | ForkStep::Fork { .. }
        | ForkStep::Restore { .. }
        | ForkStep::Done(Ok(_)) => run.failed == 0,
        ForkStep::Detach { .. }
        | ForkStep::Stop { .. }
        | ForkStep::Remove { .. }
        | ForkStep::RestoreFailed { .. } => run.failed == count,
        ForkStep::Done(Err(OrchestratorError::SandboxOperationFailed { .. })) => run.failed == count,
        ForkStep::Done(Err(_)) => run.failed == 0 || run.failed == count,
    }
}

/// A fork whose runtime could not be forked counts every sandbox that was asked for as failed,
/// whatever becomes of its source then; any other fork counts none.
pub proof fn failed_forks_count_every_sandbox(
    sandbox_id: SandboxId,
    count: u32,
    runs: Seq<ForkRun>,
    replies: Seq<Reply>,
    at: int,
)
    requires
        runs.len() == replies.len() + 1,
        runs[0] == (ForkRun { sandbox_id, count, failed: 0, step: ForkStep::Begin }),
        forall|i: int| 0 <= i < replies.len() ==> #[trigger] runs[i + 1] == runs[i].after(replies[i]),
        0 <= at < runs.len(),
    ensures
        runs[at].step is Detach || runs[at].step is Stop || runs[at].step is Remove
            || runs[at].step is RestoreFailed ==> runs[at].failed == count,
        runs[at].step matches ForkStep::Done(Err(OrchestratorError::SandboxOperationFailed { .. }))
            ==> runs[at].failed == count,
        runs[at].step matches ForkStep::Done(Ok(_)) ==> runs[at].failed == 0,
{
    counted_at_every_step(count, runs, replies, at);
}

proof fn counted_at_every_step(count: u32, runs: Seq<ForkRun>, replies: Seq<Reply>, at: int)
    requires
        runs.len() == replies.len() + 1,
        runs[0].count == count && runs[0].failed == 0 && runs[0].step is Begin,
        forall|i: int| 0 <= i < replies.len() ==> #[trigger] runs[i + 1] == runs[i].after(replies[i]),
        0 <= at < runs.len(),
    ensures
        is_counted(runs[at], count),
    decreases at,
{
    if at > 0 {
        counted_at_every_step(count, runs, replies, at - 1);
        assert(runs[(at - 1) + 1] == runs[at - 1].after(replies[at - 1]));
    }
}

/// A forked sandbox has no create key and no stop proof, whatever its source has.
pub proof fn forks_take_over_no_claims(
    source: SandboxMetadata,
    sandbox_id: SandboxId,
    timeout: NewTimeout,
    now: u128,
)
    ensures
        ({
            let child = child_of(source, sandbox_id, timeout, now);
            &&& child.id == sandbox_id
            &&& child.state is Running
            &&& child.create_idempotency_key is None
            &&& child.create_request_fingerprint is None
            &&& child.paused_state is None
            &&& !child.paused_runtime_stopped
        }),
{
}

/// What a fork has done to its source when it is at a step, given the world in which it began.
spec fn is_tracked(run: ForkRun, start: World, world: World, count: u32) -> bool {
    let forking = World {
        metadata: Some(SandboxMetadata { state: SandboxState::Forking, ..start.metadata->0 }),
        ..start
    };
    let marked = start.metadata is Some && start.metadata->0.state is Running;
    &&& run.count == count
    &&& match run.step {
        ForkStep::Begin | ForkStep::FindRuntime | ForkStep::Transition => world == start,
        ForkStep::Fork { metadata } => marked && world == forking && metadata == forking.metadata->0,
        ForkStep::Restore { metadata } => marked && world == forking && metadata
            == forking.metadata->0,
        ForkStep::RestoreFailed { .. } | ForkStep::Detach { .. } | ForkStep::Stop { .. } => marked
            && world == forking,
        ForkStep::Remove { .. } => marked && world.metadata == forking.metadata,
        ForkStep::Done(_) => true,
    }
}

proof fn forks_are_tracked(
    runs: Seq<ForkRun>,
    replies: Seq<Reply>,
    worlds: Seq<World>,
    at: int,
)
    requires
        lifecycle::is_history(runs, replies, worlds),
        runs[0].step is Begin,
        0 <= at < runs.len(),
    ensures
        is_tracked(runs[at], worlds[0], worlds[at], runs[0].count),
        runs[at].sandbox_id == runs[0].sandbox_id,
    decreases at,
{
    if at > 0 {
        forks_are_tracked(runs, replies, worlds, at - 1);
        assert(lifecycle::happens(worlds[at - 1], runs[at - 1].asks(), replies[at - 1], worlds[at]));
        assert(runs[at] == runs[at - 1].after(replies[at - 1]));
    }
}

/// In every history of a fork: the runtime is forked into as many sandboxes as were asked for, and
/// with access tokens where its source is secure. When the fork is done with success and the last
/// change of the source was stored, or when it failed without being terminal and the last change was
/// stored, the source runs again with exactly the metadata that it had before. After a terminal
/// failure the source was stopped and removed. A fork that is refused leaves the source as it was.
pub proof fn forks_leave_their_source_running(
    runs: Seq<ForkRun>,
    replies: Seq<Reply>,
    worlds: Seq<World>,
    at: int,
)
    requires
        lifecycle::is_history(runs, replies, worlds),
        runs[0].step is Begin,
        0 <= at < replies.len(),
        runs[at + 1].step is Done,
        !(runs[at].step is Done),
    ensures
        runs[at + 1].step matches ForkStep::Done(Ok(metadata)) ==> {
            &&& worlds[0].metadata is Some
            &&& worlds[0].metadata->0.state is Running
            &&& metadata.same_settings(worlds[0].metadata->0)
            &&& replies[at] matches Reply::Edited(Ok(_)) ==> worlds[at + 1].metadata
                == worlds[0].metadata
            &&& worlds[at + 1].alive == worlds[0].alive
            &&& exists|i: int|
                0 <= i < at && (#[trigger] runs[i]).asks() == (Action::ForkRuntime {
                    count: runs[0].count,
                    secure: worlds[0].metadata->0.secure,
                }) && replies[i] == Reply::Forked(Ok(()))
        },
        runs[at + 1].step is Done && replies[at] is Edited && replies[at]->Edited_0 is Ok
            ==> worlds[at + 1].metadata == worlds[0].metadata && worlds[0].metadata->0.state is Running,
        replies[at] matches Reply::Stored(Ok(_)) ==> worlds[at + 1].metadata is None && exists|i: int|
            0 <= i < at && (#[trigger] runs[i]).asks() is StopRuntime,
        (replies[at] is Answer || (runs[at].step is Transition && replies[at]->Edited_0 is Err))
            ==> worlds[at + 1] == worlds[0] && runs[at + 1].step->Done_0 is Err,
{
    forks_are_tracked(runs, replies, worlds, at);
    assert(lifecycle::answers(runs[at].asks(), replies[at]));
    assert(lifecycle::happens(worlds[at], runs[at].asks(), replies[at], worlds[at + 1]));
    assert(runs[at + 1] == runs[at].after(replies[at]));
    match runs[at].step {
        ForkStep::Restore { .. } => {
            forks_came_this_way(runs, replies, worlds, at);
            assert(runs[at - 1].asks() == (Action::ForkRuntime {
                count: runs[0].count,
                secure: worlds[0].metadata->0.secure,
            }));
        },
        ForkStep::Remove { .. } => {
            forks_came_this_way(runs, replies, worlds, at);
            assert(runs[at - 1].asks() is StopRuntime);
        },
        _ => {},
    }
}

/// The step before a restoration is the fork, and the step before a removal is the stop.
proof fn forks_came_this_way(runs: Seq<ForkRun>, replies: Seq<Reply>, worlds: Seq<World>, at: int)
    requires
        lifecycle::is_history(runs, replies, worlds),
        runs[0].step is Begin,
        0 <= at < runs.len(),
        runs[at].step is Restore || runs[at].step is Remove,
    ensures
        at > 0,
        runs[at].step is Restore ==> runs[at - 1].asks() == (Action::ForkRuntime {
            count: runs[0].count,
            secure: worlds[0].metadata->0.secure,
        }) && replies[at - 1] == Reply::Forked(Ok(())),
        runs[at].step is Remove ==> runs[at - 1].asks() is StopRuntime,
{
    forks_are_tracked(runs, replies, worlds, at);
    assert(at > 0);
    forks_are_tracked(runs, replies, worlds, at - 1);
    assert(lifecycle::answers(runs[at - 1].asks(), replies[at - 1]));
    assert(runs[at] == runs[at - 1].after(replies[at - 1]));
    match replies[at - 1] {
        Reply::Forked(Ok(unit)) => {
            assert(unit == ());
        },
        _ => {},
    }
}

/// A fork is refused while the node shuts down, where there is no runtime, and where the source does
/// not run, in which case the state that it is in is told; otherwise it asks for the fork of the
/// runtime.
pub proof fn forks_are_refused_for_what_is_found(
    run: ForkRun,
    shutting_down: bool,
    found: bool,
    conflict: StoreError,
    marked: SandboxMetadata,
)
    requires
        run.step is Begin,
        conflict is StateConflict,
    ensures
        ({
            let id = run.sandbox_id;
            let first = run.after(Reply::Answer(shutting_down));
            let second = run.after(Reply::Answer(false)).after(Reply::Answer(found));
            let ready = run.after(Reply::Answer(false)).after(Reply::Answer(true));
            let refused = ready.after(Reply::Edited(Err(conflict)));
            let state = conflict->StateConflict_actual_state;
            &&& run.asks() is CheckShutdown
            &&& first.step == ForkStep::Done(Err(OrchestratorError::ShuttingDown)) <==> shutting_down
            &&& second.step == ForkStep::Done(
                Err(OrchestratorError::SandboxNotFound { sandbox_id: id }),
            ) <==> !found
            &&& ready.asks() == (Action::Edit {
                allowed: Allowed::One(SandboxState::Running),
                edit: MetadataEdit::State(SandboxState::Forking),
            })
            &&& state is Killing ==> refused.step == ForkStep::Done(
                Err(OrchestratorError::SandboxNotFound { sandbox_id: id }),
            )
            &&& !(state is Killing) ==> refused.step == ForkStep::Done(
                Err(OrchestratorError::InvalidSandboxState { sandbox_id: id, state }),
            )
            &&& ready.after(Reply::Edited(Ok(marked))).asks() is ForkRuntime
        }),
{
}

/// A forked sandbox runs on what its source runs on and with its settings, under an identifier of
/// its own, from now on and with the timeout asked for.
pub proof fn forked_sandboxes_are_like_their_source(
    source: SandboxMetadata,
    sandbox_id: SandboxId,
    timeout: NewTimeout,
    now: u128,
)
    ensures
        ({
            let child = child_of(source, sandbox_id, timeout, now);
            &&& child.id == sandbox_id
            &&& child.state is Running
            &&& child.created_at == now
            &&& child.snapshot_id == source.snapshot_id
            &&& child.snapshot_alias == source.snapshot_alias
            &&& child.virtualization_mode == source.virtualization_mode
            &&& child.runtime_versions == source.runtime_versions
            &&& child.resources == source.resources
            &&& child.context == source.context
            &&& child.startup == source.startup
            &&& child.image_configs == source.image_configs
            &&& child.timeout_action == source.timeout_action
            &&& child.auto_resume == source.auto_resume
            &&& child.user_metadata == source.user_metadata
            &&& child.network_policy == source.network_policy
            &&& child.custom_extension_params == source.custom_extension_params
            &&& child.secure == source.secure
            &&& child.resume_recovery_pending == source.resume_recovery_pending
            &&& timeout is Never ==> child.timeout is None && child.expires_at is None
            &&& timeout matches NewTimeout::After(length) ==> child.timeout == Some(length) && (
            child.expires_at matches Some(instant) ==> instant - now == length)
        }),
{
}

/// A forked sandbox is registered exactly where it can be routed to and its metadata was stored:
/// then it is attached, routed to and announced as a fork, in this order, with the metadata that was
/// stored; otherwise its runtime is stopped and the failure is told.
pub proof fn forked_sandboxes_are_registered_or_stopped(
    sandbox_id: SandboxId,
    metadata: SandboxMetadata,
    source: String,
)
    ensures
        ({
            let start = ForkChildRun { sandbox_id, step: ForkChildStep::LookUpTarget { metadata } };
            let stored = start.after(Reply::Ran(Ok(())));
            let attached = stored.after(Reply::Ran(Ok(())));
            let routed = attached.after(Reply::Done);
            let told = routed.after(Reply::Done);
            let unrouted = start.after(Reply::Ran(Err(source)));
            let unstored = stored.after(Reply::Ran(Err(source)));
            let failure = ForkChildStep::Done(
                Err(
                    OrchestratorError::SandboxOperationFailed {
                        sandbox_id,
                        operation: SandboxOperation::Fork,
                        source,
                    },
                ),
            );
            &&& start.asks() is ResolveTarget
            &&& stored.asks() == (Action::Enroll { metadata })
            &&& attached.asks() is Attach
            &&& routed.asks() is PublishRoute
            &&& told.asks() == (Action::PublishEvent {
                event: SandboxLifecycleEvent {
                    event_type: SandboxLifecycleEventType::Fork,
                    sandbox_id: metadata.id,
                    resources: metadata.resources,
                },
            })
            &&& told.after(Reply::Done).step == ForkChildStep::Done(Ok(metadata))
            &&& unrouted.asks() is StopRuntime
            &&& unrouted.after(Reply::Ran(Ok(()))).step == failure
            &&& unrouted.after(Reply::Ran(Err(source))).step == failure
            &&& unstored.asks() is StopRuntime
            &&& unstored.after(Reply::Ran(Ok(()))).step == failure
        }),
{
}

/// Every sandbox that came up counts as one success, and no other outcome does.
pub proof fn every_success_counts_once(
    outcomes: Seq<Result<SandboxMetadata, OrchestratorError>>,
    next: Result<SandboxMetadata, OrchestratorError>,
)
    ensures
        successes(outcomes.push(next)) == successes(outcomes) + if next is Ok {
            1int
        } else {
            0
        },
        successes(Seq::empty()) == 0,
{
    assert(outcomes.push(next).drop_last() =~= outcomes);
}

/// A fork that came out well has its source run again, and so has one that failed and left the runtime
/// usable. Only after a failure that broke the runtime is it taken out, stopped and removed. A failure
/// is told with its source, whatever becomes of the changes that follow it, and counts every sandbox
/// that was asked for as failed.
pub proof fn only_broken_sources_are_given_up(
    run: ForkRun,
    marked: SandboxMetadata,
    failure: lifecycle::RuntimeFailure,
    stored: Result<SandboxMetadata, StoreError>,
    detached: bool,
    stopped: Result<(), String>,
    error: StoreError,
)
    requires
        run.step == (ForkStep::Fork { metadata: marked }),
    ensures
        ({
            let forked = run.after(Reply::Forked(Ok(())));
            let failed = run.after(Reply::Forked(Err(failure)));
            let back = Action::Edit {
                allowed: Allowed::One(SandboxState::Forking),
                edit: MetadataEdit::State(SandboxState::Running),
            };
            let told = OrchestratorError::SandboxOperationFailed {
                sandbox_id: run.sandbox_id,
                operation: SandboxOperation::Fork,
                source: failure.source,
            };
            let taken = failed.after(Reply::Answer(detached));
            let ended = taken.after(Reply::Ran(stopped));
            &&& run.asks() == (Action::ForkRuntime { count: run.count, secure: marked.secure })
            &&& forked.asks() == back
            &&& forked.failed == run.failed
            &&& forked.after(Reply::Edited(stored)).step == ForkStep::Done(Ok(marked))
            &&& failed.failed == run.count as u64
            &&& !failure.terminal ==> failed.asks() == back && failed.after(Reply::Edited(stored)).step
                == ForkStep::Done(Err(told))
            &&& failure.terminal ==> failed.asks() is Detach && taken.asks() is StopRuntime
                && ended.asks() is Remove && ended.after(Reply::Stored(Ok(()))).step
                == ForkStep::Done(Err(told)) && ended.after(Reply::Stored(Err(error))).step
                == ForkStep::Done(Err(OrchestratorError::Store { error }))
        }),
{
}

} // verus!
