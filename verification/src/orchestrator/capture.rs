//! The capture of a snapshot from a running sandbox.

use crate::ids::SandboxId;
use crate::orchestrator::error::{OrchestratorError, SandboxOperation, StoreError};
use crate::orchestrator::lifecycle;
use crate::orchestrator::lifecycle::{
    Action, Allowed, MetadataEdit, Operation, Reply, RuntimeFailure, World,
};
use crate::orchestrator::metadata::SandboxMetadata;
use crate::orchestrator::types::{SandboxState, SnapshotCaptureResult};
use vstd::prelude::*;

verus! {

/// Where a capture stands.
#[allow(inconsistent_fields)]
#[derive(Debug)]
pub enum CaptureStep {
    Begin,
    Transition,
    FindRuntime,
    /// There is no runtime to take a snapshot of.
    DetachLost,
    RemoveLost,
    Snapshot,
    /// The runtime cannot be used any more.
    Detach { error: OrchestratorError },
    Stop { error: OrchestratorError },
    Remove { error: OrchestratorError },
    RestoreFailed { error: OrchestratorError },
    Restore { captured: u64 },
    Fetch { captured: u64 },
    Done(Result<SnapshotCaptureResult, OrchestratorError>),
}

/// A capture under way.
#[derive(Debug)]
pub struct CaptureRun {
    pub sandbox_id: SandboxId,
    pub step: CaptureStep,
}

impl CaptureRun {
    pub fn capture_snapshot(sandbox_id: SandboxId) -> (run: CaptureRun)
        ensures
            run == (CaptureRun { sandbox_id, step: CaptureStep::Begin }),
    {
        CaptureRun { sandbox_id, step: CaptureStep::Begin }
    }
}

impl Operation for CaptureRun {
    open spec fn asks(self) -> Action {
        match self.step {
            CaptureStep::Begin => Action::CheckShutdown,
            CaptureStep::Transition => Action::Edit {
                allowed: Allowed::One(SandboxState::Running),
                edit: MetadataEdit::State(SandboxState::Snapshotting),
            },
            CaptureStep::FindRuntime => Action::FindRuntime,
            CaptureStep::DetachLost => Action::Detach,
            CaptureStep::RemoveLost => Action::Remove,
            CaptureStep::Snapshot => Action::SnapshotRuntime,
            CaptureStep::Detach { .. } => Action::Detach,
            CaptureStep::Stop { .. } => Action::StopRuntime,
            CaptureStep::Remove { .. } => Action::Remove,
            CaptureStep::RestoreFailed { .. } => Action::Edit {
                allowed: Allowed::One(SandboxState::Snapshotting),
                edit: MetadataEdit::State(SandboxState::Running),
            },
            CaptureStep::Restore { .. } => Action::Edit {
                allowed: Allowed::One(SandboxState::Snapshotting),
                edit: MetadataEdit::State(SandboxState::Running),
            },
            CaptureStep::Fetch { .. } => Action::Fetch,
            CaptureStep::Done(_) => Action::Nothing,
        }
    }

    open spec fn after(self, reply: Reply) -> CaptureRun {
        let sandbox_id = self.sandbox_id;
        let step = match (self.step, reply) {
            (CaptureStep::Begin, Reply::Answer(shutting_down)) => if shutting_down {
                CaptureStep::Done(Err(OrchestratorError::ShuttingDown))
            } else {
                CaptureStep::Transition
            },
            (CaptureStep::Transition, Reply::Edited(Ok(_))) => CaptureStep::FindRuntime,
            (
                CaptureStep::Transition,
                Reply::Edited(Err(StoreError::StateConflict { actual_state, .. })),
            ) => match actual_state {
                SandboxState::Killing => CaptureStep::Done(
                    Err(OrchestratorError::SandboxNotFound { sandbox_id }),
                ),
                state => CaptureStep::Done(
                    Err(OrchestratorError::InvalidSandboxState { sandbox_id, state }),
                ),
            },
            (CaptureStep::Transition, Reply::Edited(Err(error))) => CaptureStep::Done(
                Err(OrchestratorError::Store { error }),
            ),
            (CaptureStep::FindRuntime, Reply::Answer(found)) => if found {
                CaptureStep::Snapshot
            } else {
                CaptureStep::DetachLost
            },
            (CaptureStep::DetachLost, Reply::Answer(_)) => CaptureStep::RemoveLost,
            (CaptureStep::RemoveLost, Reply::Stored(Ok(_))) => CaptureStep::Done(
                Err(OrchestratorError::SandboxNotFound { sandbox_id }),
            ),
            (CaptureStep::RemoveLost, Reply::Stored(Err(error))) => CaptureStep::Done(
                Err(OrchestratorError::Store { error }),
            ),
            (CaptureStep::Snapshot, Reply::Captured(Ok(captured))) => CaptureStep::Restore { captured },
            (CaptureStep::Snapshot, Reply::Captured(Err(failure))) => {
                let error = OrchestratorError::SandboxOperationFailed {
                    sandbox_id,
                    operation: SandboxOperation::Snapshot,
                    source: failure.source,
                };
                if failure.terminal {
                    CaptureStep::Detach { error }
                } else {
                    CaptureStep::RestoreFailed { error }
                }
            },
            (CaptureStep::Detach { error }, Reply::Answer(_)) => CaptureStep::Stop { error },
            (CaptureStep::Stop { error }, Reply::Ran(_)) => CaptureStep::Remove { error },
            (CaptureStep::Remove { error }, Reply::Stored(Ok(_))) => CaptureStep::Done(Err(error)),
            (CaptureStep::Remove { .. }, Reply::Stored(Err(error))) => CaptureStep::Done(
                Err(OrchestratorError::Store { error }),
            ),
            (CaptureStep::RestoreFailed { error }, Reply::Edited(_)) => CaptureStep::Done(Err(error)),
            (CaptureStep::Restore { captured }, Reply::Edited(Ok(_))) => CaptureStep::Fetch { captured },
            (CaptureStep::Restore { .. }, Reply::Edited(Err(error))) => CaptureStep::Done(
                Err(OrchestratorError::Store { error }),
            ),
            (CaptureStep::Fetch { captured }, Reply::Fetched(Ok(Some(metadata)))) => CaptureStep::Done(
                Ok(SnapshotCaptureResult { metadata, captured_snapshot: captured }),
            ),
            (CaptureStep::Fetch { .. }, Reply::Fetched(Ok(None))) => CaptureStep::Done(
                Err(OrchestratorError::SandboxNotFound { sandbox_id }),
            ),
            (CaptureStep::Fetch { .. }, Reply::Fetched(Err(error))) => CaptureStep::Done(
                Err(OrchestratorError::Store { error }),
            ),
            (step, _) => step,
        };
        CaptureRun { step, ..self }
    }

    fn action(&self) -> Action {
        match &self.step {
            CaptureStep::Begin => Action::CheckShutdown,
            CaptureStep::Transition => Action::Edit {
                allowed: Allowed::One(SandboxState::Running),
                edit: MetadataEdit::State(SandboxState::Snapshotting),
            },
            CaptureStep::FindRuntime => Action::FindRuntime,
            CaptureStep::DetachLost => Action::Detach,
            CaptureStep::RemoveLost => Action::Remove,
            CaptureStep::Snapshot => Action::SnapshotRuntime,
            CaptureStep::Detach { .. } => Action::Detach,
            CaptureStep::Stop { .. } => Action::StopRuntime,
            CaptureStep::Remove { .. } => Action::Remove,
            CaptureStep::RestoreFailed { .. } => Action::Edit {
                allowed: Allowed::One(SandboxState::Snapshotting),
                edit: MetadataEdit::State(SandboxState::Running),
            },
            CaptureStep::Restore { .. } => Action::Edit {
                allowed: Allowed::One(SandboxState::Snapshotting),
                edit: MetadataEdit::State(SandboxState::Running),
            },
            CaptureStep::Fetch { .. } => Action::Fetch,
            CaptureStep::Done(_) => Action::Nothing,
        }
    }

    fn next(self, reply: Reply) -> CaptureRun {
        let sandbox_id = self.sandbox_id;
        let step = match (self.step, reply) {
            (CaptureStep::Begin, Reply::Answer(shutting_down)) => if shutting_down {
                CaptureStep::Done(Err(OrchestratorError::ShuttingDown))
            } else {
                CaptureStep::Transition
            },
            (CaptureStep::Transition, Reply::Edited(Ok(_))) => CaptureStep::FindRuntime,
            (
                CaptureStep::Transition,
                Reply::Edited(Err(StoreError::StateConflict { actual_state, .. })),
            ) => match actual_state {
                SandboxState::Killing => CaptureStep::Done(
                    Err(OrchestratorError::SandboxNotFound { sandbox_id }),
                ),
                state => CaptureStep::Done(
                    Err(OrchestratorError::InvalidSandboxState { sandbox_id, state }),
                ),
            },
            (CaptureStep::Transition, Reply::Edited(Err(error))) => CaptureStep::Done(
                Err(OrchestratorError::Store { error }),
            ),
            (CaptureStep::FindRuntime, Reply::Answer(found)) => if found {
                CaptureStep::Snapshot
            } else {
                CaptureStep::DetachLost
            },
            (CaptureStep::DetachLost, Reply::Answer(_)) => CaptureStep::RemoveLost,
            (CaptureStep::RemoveLost, Reply::Stored(Ok(_))) => CaptureStep::Done(
                Err(OrchestratorError::SandboxNotFound { sandbox_id }),
            ),
            (CaptureStep::RemoveLost, Reply::Stored(Err(error))) => CaptureStep::Done(
                Err(OrchestratorError::Store { error }),
            ),
            (CaptureStep::Snapshot, Reply::Captured(Ok(captured))) => CaptureStep::Restore { captured },
            (CaptureStep::Snapshot, Reply::Captured(Err(failure))) => {
                let error = OrchestratorError::SandboxOperationFailed {
                    sandbox_id,
                    operation: SandboxOperation::Snapshot,
                    source: failure.source,
                };
                if failure.terminal {
                    CaptureStep::Detach { error }
                } else {
                    CaptureStep::RestoreFailed { error }
                }
            },
            (CaptureStep::Detach { error }, Reply::Answer(_)) => CaptureStep::Stop { error },
            (CaptureStep::Stop { error }, Reply::Ran(_)) => CaptureStep::Remove { error },
            (CaptureStep::Remove { error }, Reply::Stored(Ok(_))) => CaptureStep::Done(Err(error)),
            (CaptureStep::Remove { .. }, Reply::Stored(Err(error))) => CaptureStep::Done(
                Err(OrchestratorError::Store { error }),
            ),
            (CaptureStep::RestoreFailed { error }, Reply::Edited(_)) => CaptureStep::Done(Err(error)),
            (CaptureStep::Restore { captured }, Reply::Edited(Ok(_))) => CaptureStep::Fetch { captured },
            (CaptureStep::Restore { .. }, Reply::Edited(Err(error))) => CaptureStep::Done(
                Err(OrchestratorError::Store { error }),
            ),
            (CaptureStep::Fetch { captured }, Reply::Fetched(Ok(Some(metadata)))) => CaptureStep::Done(
                Ok(SnapshotCaptureResult { metadata, captured_snapshot: captured }),
            ),
            (CaptureStep::Fetch { .. }, Reply::Fetched(Ok(None))) => CaptureStep::Done(
                Err(OrchestratorError::SandboxNotFound { sandbox_id }),
            ),
            (CaptureStep::Fetch { .. }, Reply::Fetched(Err(error))) => CaptureStep::Done(
                Err(OrchestratorError::Store { error }),
            ),
            (step, _) => step,
        };
        CaptureRun { step, ..self }
    }
}

/// What holds of the sandbox when its capture is at a step.
pub open spec fn is_sound(run: CaptureRun, world: World) -> bool {
    &&& world.is_truthful()
    &&& match run.step {
        CaptureStep::Fetch { .. } => world.metadata is Some && world.metadata->0.state is Running,
        CaptureStep::Done(Ok(result)) => world.metadata == Some(result.metadata)
            && result.metadata.state is Running,
        _ => true,
    }
}

proof fn steps_keep_soundness(run: CaptureRun, reply: Reply, before: World, after: World)
    requires
        is_sound(run, before),
        lifecycle::answers(run.asks(), reply),
        lifecycle::happens(before, run.asks(), reply, after),
    ensures
        is_sound(run.after(reply), after),
{
}

/// At every moment of every capture, a stop proof is only there where the runtime is gone; and a
/// capture that succeeds leaves a running sandbox with the metadata that it returns.
pub proof fn captures_leave_the_sandbox_running(
    runs: Seq<CaptureRun>,
    replies: Seq<Reply>,
    worlds: Seq<World>,
    at: int,
)
    requires
        lifecycle::is_history(runs, replies, worlds),
        runs[0].step is Begin,
        worlds[0].is_truthful(),
        0 <= at < runs.len(),
    ensures
        worlds[at].is_truthful(),
        runs[at].step matches CaptureStep::Done(Ok(result)) ==> worlds[at].metadata == Some(
            result.metadata,
        ) && result.metadata.state is Running,
        is_sound(runs[at], worlds[at]),
    decreases at,
{
    if at > 0 {
        captures_leave_the_sandbox_running(runs, replies, worlds, at - 1);
        assert(lifecycle::happens(
            worlds[at - 1],
            runs[at - 1].asks(),
            replies[at - 1],
            worlds[at],
        ));
        steps_keep_soundness(runs[at - 1], replies[at - 1], worlds[at - 1], worlds[at]);
    }
}

/// A capture that fails while the runtime can go on gives the sandbox its running state back.
pub proof fn failed_captures_restore_the_state(run: CaptureRun, source: String)
    requires
        run.step is Snapshot,
    ensures
        run.after(
            Reply::Captured(Err(lifecycle::RuntimeFailure { terminal: false, source })),
        ).asks() == (Action::Edit {
            allowed: Allowed::One(SandboxState::Snapshotting),
            edit: MetadataEdit::State(SandboxState::Running),
        }),
{
}

/// A capture that meets no obstacle takes the sandbox from running to being captured, has its
/// runtime captured, takes it back to running, and returns the capture that the runtime gave with
/// the metadata that is then found.
pub proof fn captures_return_what_the_runtime_gave(
    run: CaptureRun,
    marked: SandboxMetadata,
    restored: SandboxMetadata,
    found: SandboxMetadata,
    captured: u64,
    error: StoreError,
)
    requires
        run.step is Begin,
    ensures
        ({
            let id = run.sandbox_id;
            let begun = run.after(Reply::Answer(false));
            let running = begun.after(Reply::Edited(Ok(marked)));
            let attached = running.after(Reply::Answer(true));
            let taken = attached.after(Reply::Captured(Ok(captured)));
            let back = taken.after(Reply::Edited(Ok(restored)));
            &&& run.asks() is CheckShutdown
            &&& begun.asks() == (Action::Edit {
                allowed: Allowed::One(SandboxState::Running),
                edit: MetadataEdit::State(SandboxState::Snapshotting),
            })
            &&& running.asks() is FindRuntime
            &&& attached.asks() is SnapshotRuntime
            &&& taken.asks() == (Action::Edit {
                allowed: Allowed::One(SandboxState::Snapshotting),
                edit: MetadataEdit::State(SandboxState::Running),
            })
            &&& taken.after(Reply::Edited(Err(error))).step == CaptureStep::Done(
                Err(OrchestratorError::Store { error }),
            )
            &&& back.asks() is Fetch
            &&& back.after(Reply::Fetched(Ok(Some(found)))).step == CaptureStep::Done(
                Ok(SnapshotCaptureResult { metadata: found, captured_snapshot: captured }),
            )
            &&& back.after(Reply::Fetched(Ok(None))).step == CaptureStep::Done(
                Err(OrchestratorError::SandboxNotFound { sandbox_id: id }),
            )
            &&& back.after(Reply::Fetched(Err(error))).step == CaptureStep::Done(
                Err(OrchestratorError::Store { error }),
            )
        }),
{
}

/// A capture is refused while the node shuts down and where the sandbox does not run; a sandbox
/// that is being deleted is told to be gone.
pub proof fn captures_are_refused_for_what_is_found(run: CaptureRun, error: StoreError)
    requires
        run.step is Begin,
    ensures
        ({
            let id = run.sandbox_id;
            let refused = run.after(Reply::Answer(false)).after(Reply::Edited(Err(error)));
            &&& run.after(Reply::Answer(true)).step == CaptureStep::Done(
                Err(OrchestratorError::ShuttingDown),
            )
            &&& error matches StoreError::StateConflict { actual_state, .. } ==> refused.step
                == CaptureStep::Done(
                Err(
                    if actual_state is Killing {
                        OrchestratorError::SandboxNotFound { sandbox_id: id }
                    } else {
                        OrchestratorError::InvalidSandboxState {
                            sandbox_id: id,
                            state: actual_state,
                        }
                    },
                ),
            )
            &&& !(error is StateConflict) ==> refused.step == CaptureStep::Done(
                Err(OrchestratorError::Store { error }),
            )
        }),
{
}

/// A sandbox whose runtime is missing is taken out of the tables and removed, and so is one whose
/// runtime the capture has broken, once that was stopped; a capture that fails otherwise takes the
/// sandbox back to running. The failure of the runtime is told, whatever the last of these gives.
pub proof fn unusable_sandboxes_are_removed(
    run: CaptureRun,
    failure: RuntimeFailure,
    held: bool,
    stopped: Result<(), String>,
    restored: Result<SandboxMetadata, StoreError>,
    error: StoreError,
)
    requires
        run.step is FindRuntime,
    ensures
        ({
            let id = run.sandbox_id;
            let lost = run.after(Reply::Answer(false));
            let cut = lost.after(Reply::Answer(held));
            let failed = run.after(Reply::Answer(true)).after(Reply::Captured(Err(failure)));
            let detached = failed.after(Reply::Answer(held));
            let ended = detached.after(Reply::Ran(stopped));
            let told = OrchestratorError::SandboxOperationFailed {
                sandbox_id: id,
                operation: SandboxOperation::Snapshot,
                source: failure.source,
            };
            &&& lost.asks() is Detach
            &&& cut.asks() is Remove
            &&& cut.after(Reply::Stored(Ok(()))).step == CaptureStep::Done(
                Err(OrchestratorError::SandboxNotFound { sandbox_id: id }),
            )
            &&& cut.after(Reply::Stored(Err(error))).step == CaptureStep::Done(
                Err(OrchestratorError::Store { error }),
            )
            &&& failure.terminal ==> {
                &&& failed.asks() is Detach
                &&& detached.asks() is StopRuntime
                &&& ended.asks() is Remove
                &&& ended.after(Reply::Stored(Ok(()))).step == CaptureStep::Done(Err(told))
                &&& ended.after(Reply::Stored(Err(error))).step == CaptureStep::Done(
                    Err(OrchestratorError::Store { error }),
                )
            }
            &&& !failure.terminal ==> {
                &&& failed.asks() == (Action::Edit {
                    allowed: Allowed::One(SandboxState::Snapshotting),
                    edit: MetadataEdit::State(SandboxState::Running),
                })
                &&& failed.after(Reply::Edited(restored)).step == CaptureStep::Done(Err(told))
            }
        }),
{
}

/// What a capture has done to the sandbox when it is at a step, given the world in which it began.
spec fn is_tracked(run: CaptureRun, start: World, world: World) -> bool {
    let marked = World {
        metadata: Some(SandboxMetadata { state: SandboxState::Snapshotting, ..start.metadata->0 }),
        ..start
    };
    let ran = start.metadata is Some && start.metadata->0.state is Running;
    match run.step {
        CaptureStep::Begin | CaptureStep::Transition => world == start,
        CaptureStep::FindRuntime
        | CaptureStep::DetachLost
        | CaptureStep::RemoveLost
        | CaptureStep::Snapshot
        | CaptureStep::Detach { .. }
        | CaptureStep::Stop { .. }
        | CaptureStep::RestoreFailed { .. }
        | CaptureStep::Restore { .. } => ran && world == marked,
        CaptureStep::Remove { .. } => ran && world.metadata == marked.metadata,
        CaptureStep::Fetch { .. } => ran && world == start,
        CaptureStep::Done(Ok(result)) => ran && world == start && result.metadata
            == start.metadata->0,
        CaptureStep::Done(Err(_)) => true,
    }
}

proof fn captures_are_tracked(
    runs: Seq<CaptureRun>,
    replies: Seq<Reply>,
    worlds: Seq<World>,
    at: int,
)
    requires
        lifecycle::is_history(runs, replies, worlds),
        runs[0].step is Begin,
        0 <= at < runs.len(),
    ensures
        is_tracked(runs[at], worlds[0], worlds[at]),
    decreases at,
{
    if at > 0 {
        captures_are_tracked(runs, replies, worlds, at - 1);
        assert(lifecycle::happens(
            worlds[at - 1],
            runs[at - 1].asks(),
            replies[at - 1],
            worlds[at],
        ));
        assert(runs[at] == runs[at - 1].after(replies[at - 1]));
    }
}

/// In every history, a capture that succeeds leaves the sandbox exactly as it found it, running and
/// with all of its metadata, and returns that metadata.
pub proof fn captures_change_nothing(
    runs: Seq<CaptureRun>,
    replies: Seq<Reply>,
    worlds: Seq<World>,
    at: int,
)
    requires
        lifecycle::is_history(runs, replies, worlds),
        runs[0].step is Begin,
        0 <= at < runs.len(),
    ensures
        runs[at].step matches CaptureStep::Done(Ok(result)) ==> {
            &&& worlds[at] == worlds[0]
            &&& worlds[0].metadata == Some(result.metadata)
            &&& result.metadata.state is Running
        },
{
    captures_are_tracked(runs, replies, worlds, at);
}

} // verus!
