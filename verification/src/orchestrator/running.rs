//! Changes of a sandbox while it runs.

use crate::ids::SandboxId;
use crate::orchestrator::error::{OrchestratorError, SandboxOperation, StoreError};
use crate::orchestrator::lifecycle::{
    Action, Allowed, MetadataEdit, Operation, Reply, Waited,
};
use crate::orchestrator::metadata::SandboxMetadata;
use crate::orchestrator::types::{Document, SandboxState};
use vstd::prelude::*;

verus! {

/// Where a keep-alive stands. A sandbox that may be about to run is waited for.
#[derive(Debug)]
pub enum KeepAliveStep {
    Begin,
    Fetch,
    Wait { state: SandboxState },
    Update,
    Done(Result<SandboxMetadata, OrchestratorError>),
}

/// A keep-alive under way.
#[derive(Debug)]
pub struct KeepAliveRun {
    pub sandbox_id: SandboxId,
    /// In nanoseconds.
    pub timeout: u128,
    pub allow_shorter: bool,
    pub step: KeepAliveStep,
}

impl KeepAliveRun {
    /// Extends the life of a running sandbox; where no timeout is asked for, by the default one.
    pub fn keep_alive_for(
        sandbox_id: SandboxId,
        timeout: Option<u128>,
        default_timeout: u128,
        allow_shorter: bool,
    ) -> (run: KeepAliveRun)
        ensures
            run == (KeepAliveRun {
                sandbox_id,
                timeout: match timeout {
                    Some(timeout) => timeout,
                    None => default_timeout,
                },
                allow_shorter,
                step: KeepAliveStep::Begin,
            }),
    {
        KeepAliveRun {
            sandbox_id,
            timeout: match timeout {
                Some(timeout) => timeout,
                None => default_timeout,
            },
            allow_shorter,
            step: KeepAliveStep::Begin,
        }
    }
}

impl Operation for KeepAliveRun {
    open spec fn asks(self) -> Action {
        match self.step {
            KeepAliveStep::Begin => Action::CheckShutdown,
            KeepAliveStep::Fetch => Action::Fetch,
            KeepAliveStep::Wait { state } => Action::AwaitLeaving { state },
            KeepAliveStep::Update => Action::Edit {
                allowed: Allowed::One(SandboxState::Running),
                edit: MetadataEdit::KeepAlive {
                    timeout: self.timeout,
                    allow_shorter: self.allow_shorter,
                },
            },
            KeepAliveStep::Done(_) => Action::Nothing,
        }
    }

    open spec fn after(self, reply: Reply) -> KeepAliveRun {
        let sandbox_id = self.sandbox_id;
        let step = match (self.step, reply) {
            (KeepAliveStep::Begin, Reply::Answer(shutting_down)) => if shutting_down {
                KeepAliveStep::Done(Err(OrchestratorError::ShuttingDown))
            } else {
                KeepAliveStep::Fetch
            },
            (KeepAliveStep::Fetch, Reply::Fetched(Ok(Some(metadata)))) => match metadata.state {
                SandboxState::Running => KeepAliveStep::Update,
                SandboxState::Creating
                | SandboxState::Resuming
                | SandboxState::Snapshotting
                | SandboxState::Forking => KeepAliveStep::Wait { state: metadata.state },
                state => KeepAliveStep::Done(
                    Err(OrchestratorError::InvalidSandboxState { sandbox_id, state }),
                ),
            },
            (KeepAliveStep::Fetch, Reply::Fetched(Ok(None))) => KeepAliveStep::Done(
                Err(OrchestratorError::SandboxNotFound { sandbox_id }),
            ),
            (KeepAliveStep::Fetch, Reply::Fetched(Err(error))) => KeepAliveStep::Done(
                Err(OrchestratorError::Store { error }),
            ),
            (KeepAliveStep::Wait { .. }, Reply::Waited(Waited::Left(metadata))) => match metadata.state {
                SandboxState::Running => KeepAliveStep::Update,
                state => KeepAliveStep::Done(
                    Err(OrchestratorError::InvalidSandboxState { sandbox_id, state }),
                ),
            },
            (KeepAliveStep::Wait { .. }, Reply::Waited(Waited::Gone)) => KeepAliveStep::Done(
                Err(OrchestratorError::SandboxNotFound { sandbox_id }),
            ),
            (KeepAliveStep::Wait { .. }, Reply::Waited(Waited::Failed(error))) => KeepAliveStep::Done(
                Err(OrchestratorError::Store { error }),
            ),
            (KeepAliveStep::Wait { state }, Reply::Waited(Waited::TimedOut)) => KeepAliveStep::Done(
                Err(OrchestratorError::InvalidSandboxState { sandbox_id, state }),
            ),
            (KeepAliveStep::Update, Reply::Edited(Ok(metadata))) => KeepAliveStep::Done(Ok(metadata)),
            (
                KeepAliveStep::Update,
                Reply::Edited(Err(StoreError::StateConflict { actual_state, .. })),
            ) => KeepAliveStep::Done(
                Err(OrchestratorError::InvalidSandboxState { sandbox_id, state: actual_state }),
            ),
            (KeepAliveStep::Update, Reply::Edited(Err(error))) => KeepAliveStep::Done(
                Err(OrchestratorError::Store { error }),
            ),
            (step, _) => step,
        };
        KeepAliveRun { step, ..self }
    }

    fn action(&self) -> Action {
        match &self.step {
            KeepAliveStep::Begin => Action::CheckShutdown,
            KeepAliveStep::Fetch => Action::Fetch,
            KeepAliveStep::Wait { state } => Action::AwaitLeaving { state: *state },
            KeepAliveStep::Update => Action::Edit {
                allowed: Allowed::One(SandboxState::Running),
                edit: MetadataEdit::KeepAlive {
                    timeout: self.timeout,
                    allow_shorter: self.allow_shorter,
                },
            },
            KeepAliveStep::Done(_) => Action::Nothing,
        }
    }

    fn next(self, reply: Reply) -> KeepAliveRun {
        let sandbox_id = self.sandbox_id;
        let step = match (self.step, reply) {
            (KeepAliveStep::Begin, Reply::Answer(shutting_down)) => if shutting_down {
                KeepAliveStep::Done(Err(OrchestratorError::ShuttingDown))
            } else {
                KeepAliveStep::Fetch
            },
            (KeepAliveStep::Fetch, Reply::Fetched(Ok(Some(metadata)))) => match metadata.state {
                SandboxState::Running => KeepAliveStep::Update,
                SandboxState::Creating
                | SandboxState::Resuming
                | SandboxState::Snapshotting
                | SandboxState::Forking => KeepAliveStep::Wait { state: metadata.state },
                state => KeepAliveStep::Done(
                    Err(OrchestratorError::InvalidSandboxState { sandbox_id, state }),
                ),
            },
            (KeepAliveStep::Fetch, Reply::Fetched(Ok(None))) => KeepAliveStep::Done(
                Err(OrchestratorError::SandboxNotFound { sandbox_id }),
            ),
            (KeepAliveStep::Fetch, Reply::Fetched(Err(error))) => KeepAliveStep::Done(
                Err(OrchestratorError::Store { error }),
            ),
            (KeepAliveStep::Wait { .. }, Reply::Waited(Waited::Left(metadata))) => match metadata.state {
                SandboxState::Running => KeepAliveStep::Update,
                state => KeepAliveStep::Done(
                    Err(OrchestratorError::InvalidSandboxState { sandbox_id, state }),
                ),
            },
            (KeepAliveStep::Wait { .. }, Reply::Waited(Waited::Gone)) => KeepAliveStep::Done(
                Err(OrchestratorError::SandboxNotFound { sandbox_id }),
            ),
            (KeepAliveStep::Wait { .. }, Reply::Waited(Waited::Failed(error))) => KeepAliveStep::Done(
                Err(OrchestratorError::Store { error }),
            ),
            (KeepAliveStep::Wait { state }, Reply::Waited(Waited::TimedOut)) => KeepAliveStep::Done(
                Err(OrchestratorError::InvalidSandboxState { sandbox_id, state }),
            ),
            (KeepAliveStep::Update, Reply::Edited(Ok(metadata))) => KeepAliveStep::Done(Ok(metadata)),
            (
                KeepAliveStep::Update,
                Reply::Edited(Err(StoreError::StateConflict { actual_state, .. })),
            ) => KeepAliveStep::Done(
                Err(OrchestratorError::InvalidSandboxState { sandbox_id, state: actual_state }),
            ),
            (KeepAliveStep::Update, Reply::Edited(Err(error))) => KeepAliveStep::Done(
                Err(OrchestratorError::Store { error }),
            ),
            (step, _) => step,
        };
        KeepAliveRun { step, ..self }
    }
}

/// Where a change of the network policy stands.
#[derive(Debug)]
pub enum NetworkStep {
    Fetch,
    FindRuntime,
    Apply,
    Store,
    Done(Result<(), OrchestratorError>),
}

/// A change of the network policy under way.
#[derive(Debug)]
pub struct NetworkRun {
    pub sandbox_id: SandboxId,
    pub policy: Document,
    pub step: NetworkStep,
}

impl NetworkRun {
    pub fn replace_sandbox_network_policy(sandbox_id: SandboxId, policy: Document) -> (run:
        NetworkRun)
        ensures
            run == (NetworkRun { sandbox_id, policy, step: NetworkStep::Fetch }),
    {
        NetworkRun { sandbox_id, policy, step: NetworkStep::Fetch }
    }
}

impl Operation for NetworkRun {
    open spec fn asks(self) -> Action {
        match self.step {
            NetworkStep::Fetch => Action::Fetch,
            NetworkStep::FindRuntime => Action::FindRuntime,
            NetworkStep::Apply => Action::UpdateNetwork { policy: self.policy },
            NetworkStep::Store => Action::Edit {
                allowed: Allowed::One(SandboxState::Running),
                edit: MetadataEdit::NetworkPolicy(self.policy),
            },
            NetworkStep::Done(_) => Action::Nothing,
        }
    }

    open spec fn after(self, reply: Reply) -> NetworkRun {
        let sandbox_id = self.sandbox_id;
        let step = match (self.step, reply) {
            (NetworkStep::Fetch, Reply::Fetched(Ok(Some(metadata)))) => match metadata.state {
                SandboxState::Running => NetworkStep::FindRuntime,
                state => NetworkStep::Done(
                    Err(OrchestratorError::InvalidSandboxState { sandbox_id, state }),
                ),
            },
            (NetworkStep::Fetch, Reply::Fetched(Ok(None))) => NetworkStep::Done(
                Err(OrchestratorError::SandboxNotFound { sandbox_id }),
            ),
            (NetworkStep::Fetch, Reply::Fetched(Err(error))) => NetworkStep::Done(
                Err(OrchestratorError::Store { error }),
            ),
            (NetworkStep::FindRuntime, Reply::Answer(found)) => if found {
                NetworkStep::Apply
            } else {
                NetworkStep::Done(
                    Err(
                        OrchestratorError::SandboxOperationConflict {
                            sandbox_id,
                            operation: SandboxOperation::UpdateNetwork,
                        },
                    ),
                )
            },
            (NetworkStep::Apply, Reply::Ran(Ok(_))) => NetworkStep::Store,
            (NetworkStep::Apply, Reply::Ran(Err(source))) => NetworkStep::Done(
                Err(
                    OrchestratorError::SandboxOperationFailed {
                        sandbox_id,
                        operation: SandboxOperation::UpdateNetwork,
                        source,
                    },
                ),
            ),
            (NetworkStep::Store, Reply::Edited(Ok(_))) => NetworkStep::Done(Ok(())),
            (NetworkStep::Store, Reply::Edited(Err(error))) => NetworkStep::Done(
                Err(OrchestratorError::Store { error }),
            ),
            (step, _) => step,
        };
        NetworkRun { step, ..self }
    }

    fn action(&self) -> Action {
        match &self.step {
            NetworkStep::Fetch => Action::Fetch,
            NetworkStep::FindRuntime => Action::FindRuntime,
            NetworkStep::Apply => Action::UpdateNetwork { policy: self.policy.copy() },
            NetworkStep::Store => Action::Edit {
                allowed: Allowed::One(SandboxState::Running),
                edit: MetadataEdit::NetworkPolicy(self.policy.copy()),
            },
            NetworkStep::Done(_) => Action::Nothing,
        }
    }

    fn next(self, reply: Reply) -> NetworkRun {
        let sandbox_id = self.sandbox_id;
        let step = match (self.step, reply) {
            (NetworkStep::Fetch, Reply::Fetched(Ok(Some(metadata)))) => match metadata.state {
                SandboxState::Running => NetworkStep::FindRuntime,
                state => NetworkStep::Done(
                    Err(OrchestratorError::InvalidSandboxState { sandbox_id, state }),
                ),
            },
            (NetworkStep::Fetch, Reply::Fetched(Ok(None))) => NetworkStep::Done(
                Err(OrchestratorError::SandboxNotFound { sandbox_id }),
            ),
            (NetworkStep::Fetch, Reply::Fetched(Err(error))) => NetworkStep::Done(
                Err(OrchestratorError::Store { error }),
            ),
            (NetworkStep::FindRuntime, Reply::Answer(found)) => if found {
                NetworkStep::Apply
            } else {
                NetworkStep::Done(
                    Err(
                        OrchestratorError::SandboxOperationConflict {
                            sandbox_id,
                            operation: SandboxOperation::UpdateNetwork,
                        },
                    ),
                )
            },
            (NetworkStep::Apply, Reply::Ran(Ok(_))) => NetworkStep::Store,
            (NetworkStep::Apply, Reply::Ran(Err(source))) => NetworkStep::Done(
                Err(
                    OrchestratorError::SandboxOperationFailed {
                        sandbox_id,
                        operation: SandboxOperation::UpdateNetwork,
                        source,
                    },
                ),
            ),
            (NetworkStep::Store, Reply::Edited(Ok(_))) => NetworkStep::Done(Ok(())),
            (NetworkStep::Store, Reply::Edited(Err(error))) => NetworkStep::Done(
                Err(OrchestratorError::Store { error }),
            ),
            (step, _) => step,
        };
        NetworkRun { step, ..self }
    }
}

/// Where a patch of the custom extension parameters stands. The patch itself is passed to the
/// extension as it is, which answers with the new parameters.
#[derive(Debug)]
pub enum PatchStep {
    Fetch,
    FindRuntime,
    CallHook,
    Apply { params: Option<Document> },
    Store { params: Option<Document> },
    Done(Result<Option<Document>, OrchestratorError>),
}

/// A patch of the custom extension parameters under way.
#[derive(Debug)]
pub struct PatchRun {
    pub sandbox_id: SandboxId,
    pub step: PatchStep,
}

impl PatchRun {
    pub fn patch_sandbox_custom_extension_params(sandbox_id: SandboxId) -> (run: PatchRun)
        ensures
            run == (PatchRun { sandbox_id, step: PatchStep::Fetch }),
    {
        PatchRun { sandbox_id, step: PatchStep::Fetch }
    }
}

/// The failure of a patch where no extension is configured.
pub fn unconfigured_extension() -> (source: String)
    ensures
        source@ == "custom extension is not configured ([custom_extension].url is unset)"@,
{
    "custom extension is not configured ([custom_extension].url is unset)".to_owned()
}

impl Operation for PatchRun {
    open spec fn asks(self) -> Action {
        match self.step {
            PatchStep::Fetch => Action::Fetch,
            PatchStep::FindRuntime => Action::FindRuntime,
            PatchStep::CallHook => Action::PatchParams,
            PatchStep::Apply { params } => Action::UpdateParams {
                params,
            },
            PatchStep::Store { params } => Action::Edit {
                allowed: Allowed::One(SandboxState::Running),
                edit: MetadataEdit::CustomExtensionParams(params),
            },
            PatchStep::Done(_) => Action::Nothing,
        }
    }

    open spec fn after(self, reply: Reply) -> PatchRun {
        let sandbox_id = self.sandbox_id;
        let step = match (self.step, reply) {
            (PatchStep::Fetch, Reply::Fetched(Ok(Some(metadata)))) => match metadata.state {
                SandboxState::Running => PatchStep::FindRuntime,
                state => PatchStep::Done(
                    Err(OrchestratorError::InvalidSandboxState { sandbox_id, state }),
                ),
            },
            (PatchStep::Fetch, Reply::Fetched(Ok(None))) => PatchStep::Done(
                Err(OrchestratorError::SandboxNotFound { sandbox_id }),
            ),
            (PatchStep::Fetch, Reply::Fetched(Err(error))) => PatchStep::Done(
                Err(OrchestratorError::Store { error }),
            ),
            (PatchStep::FindRuntime, Reply::Answer(found)) => if found {
                PatchStep::CallHook
            } else {
                PatchStep::Done(
                    Err(
                        OrchestratorError::SandboxOperationConflict {
                            sandbox_id,
                            operation: SandboxOperation::PatchCustomExtensionParams,
                        },
                    ),
                )
            },
            (PatchStep::CallHook, Reply::Patched(Ok(params))) => PatchStep::Apply { params },
            (PatchStep::CallHook, Reply::Patched(Err(source))) => PatchStep::Done(
                Err(
                    OrchestratorError::SandboxOperationFailed {
                        sandbox_id,
                        operation: SandboxOperation::PatchCustomExtensionParams,
                        source,
                    },
                ),
            ),
            (PatchStep::Apply { params }, Reply::Done) => PatchStep::Store { params },
            (PatchStep::Store { params }, Reply::Edited(Ok(_))) => PatchStep::Done(Ok(params)),
            (
                PatchStep::Store { .. },
                Reply::Edited(Err(StoreError::StateConflict { sandbox_id: id, actual_state, .. })),
            ) => PatchStep::Done(
                Err(OrchestratorError::InvalidSandboxState { sandbox_id: id, state: actual_state }),
            ),
            (PatchStep::Store { .. }, Reply::Edited(Err(error))) => PatchStep::Done(
                Err(OrchestratorError::Store { error }),
            ),
            (step, _) => step,
        };
        PatchRun { step, ..self }
    }

    fn action(&self) -> Action {
        match &self.step {
            PatchStep::Fetch => Action::Fetch,
            PatchStep::FindRuntime => Action::FindRuntime,
            PatchStep::CallHook => Action::PatchParams,
            PatchStep::Apply { params } => Action::UpdateParams {
                params: Document::copy_optional(params),
            },
            PatchStep::Store { params } => Action::Edit {
                allowed: Allowed::One(SandboxState::Running),
                edit: MetadataEdit::CustomExtensionParams(Document::copy_optional(params)),
            },
            PatchStep::Done(_) => Action::Nothing,
        }
    }

    fn next(self, reply: Reply) -> PatchRun {
        let sandbox_id = self.sandbox_id;
        let step = match (self.step, reply) {
            (PatchStep::Fetch, Reply::Fetched(Ok(Some(metadata)))) => match metadata.state {
                SandboxState::Running => PatchStep::FindRuntime,
                state => PatchStep::Done(
                    Err(OrchestratorError::InvalidSandboxState { sandbox_id, state }),
                ),
            },
            (PatchStep::Fetch, Reply::Fetched(Ok(None))) => PatchStep::Done(
                Err(OrchestratorError::SandboxNotFound { sandbox_id }),
            ),
            (PatchStep::Fetch, Reply::Fetched(Err(error))) => PatchStep::Done(
                Err(OrchestratorError::Store { error }),
            ),
            (PatchStep::FindRuntime, Reply::Answer(found)) => if found {
                PatchStep::CallHook
            } else {
                PatchStep::Done(
                    Err(
                        OrchestratorError::SandboxOperationConflict {
                            sandbox_id,
                            operation: SandboxOperation::PatchCustomExtensionParams,
                        },
                    ),
                )
            },
            (PatchStep::CallHook, Reply::Patched(Ok(params))) => PatchStep::Apply { params },
            (PatchStep::CallHook, Reply::Patched(Err(source))) => PatchStep::Done(
                Err(
                    OrchestratorError::SandboxOperationFailed {
                        sandbox_id,
                        operation: SandboxOperation::PatchCustomExtensionParams,
                        source,
                    },
                ),
            ),
            (PatchStep::Apply { params }, Reply::Done) => PatchStep::Store { params },
            (PatchStep::Store { params }, Reply::Edited(Ok(_))) => PatchStep::Done(Ok(params)),
            (
                PatchStep::Store { .. },
                Reply::Edited(Err(StoreError::StateConflict { sandbox_id: id, actual_state, .. })),
            ) => PatchStep::Done(
                Err(OrchestratorError::InvalidSandboxState { sandbox_id: id, state: actual_state }),
            ),
            (PatchStep::Store { .. }, Reply::Edited(Err(error))) => PatchStep::Done(
                Err(OrchestratorError::Store { error }),
            ),
            (step, _) => step,
        };
        PatchRun { step, ..self }
    }
}

/// A keep-alive that may not shorten never makes a sandbox expire earlier than it would have.
pub proof fn keep_alives_never_shorten(metadata: SandboxMetadata, timeout: u128, now: u128)
    ensures
        ({
            let kept = MetadataEdit::KeepAlive { timeout, allow_shorter: false }.applied(
                metadata,
                now,
            );
            kept.expires_at matches Some(new) ==> match metadata.expires_at {
                Some(current) => current <= new,
                None => true,
            }
        }),
{
}

/// Where the hook of the extension fails, neither the runtime nor the metadata is touched.
pub proof fn refused_patches_change_nothing(run: PatchRun, source: String)
    requires
        run.step is CallHook,
    ensures
        run.after(Reply::Patched(Err(source))).step == (PatchStep::Done(
            Err(
                OrchestratorError::SandboxOperationFailed {
                    sandbox_id: run.sandbox_id,
                    operation: SandboxOperation::PatchCustomExtensionParams,
                    source,
                },
            ),
        )),
{
}

/// A keep-alive asks for the timeout that it was given, for a running sandbox only, and returns the
/// metadata that was stored. A sandbox that is being created, resumed, captured or forked is waited
/// for until it has left that state; in every other state, and where it runs no more, the keep-alive
/// is refused and tells the state that was found.
pub proof fn keep_alives_wait_for_what_may_run(
    run: KeepAliveRun,
    metadata: SandboxMetadata,
    left: SandboxMetadata,
    stored: SandboxMetadata,
    error: StoreError,
)
    requires
        run.step is Begin,
    ensures
        ({
            let id = run.sandbox_id;
            let begun = run.after(Reply::Answer(false));
            let seen = begun.after(Reply::Fetched(Ok(Some(metadata))));
            let waited = seen.after(Reply::Waited(Waited::Left(left)));
            let update = Action::Edit {
                allowed: Allowed::One(SandboxState::Running),
                edit: MetadataEdit::KeepAlive {
                    timeout: run.timeout,
                    allow_shorter: run.allow_shorter,
                },
            };
            &&& run.asks() is CheckShutdown
            &&& run.after(Reply::Answer(true)).step == KeepAliveStep::Done(
                Err(OrchestratorError::ShuttingDown),
            )
            &&& begun.asks() is Fetch
            &&& begun.after(Reply::Fetched(Ok(None))).step == KeepAliveStep::Done(
                Err(OrchestratorError::SandboxNotFound { sandbox_id: id }),
            )
            &&& begun.after(Reply::Fetched(Err(error))).step == KeepAliveStep::Done(
                Err(OrchestratorError::Store { error }),
            )
            &&& metadata.state is Running ==> {
                &&& seen.asks() == update
                &&& seen.after(Reply::Edited(Ok(stored))).step == KeepAliveStep::Done(Ok(stored))
                &&& error matches StoreError::StateConflict { actual_state, .. } ==> seen.after(
                    Reply::Edited(Err(error)),
                ).step == KeepAliveStep::Done(
                    Err(
                        OrchestratorError::InvalidSandboxState { sandbox_id: id, state: actual_state },
                    ),
                )
                &&& !(error is StateConflict) ==> seen.after(Reply::Edited(Err(error))).step
                    == KeepAliveStep::Done(Err(OrchestratorError::Store { error }))
            }
            &&& metadata.state is Creating || metadata.state is Resuming || metadata.state
                is Snapshotting || metadata.state is Forking ==> {
                &&& seen.asks() == (Action::AwaitLeaving { state: metadata.state })
                &&& left.state is Running ==> waited.asks() == update
                &&& !(left.state is Running) ==> waited.step == KeepAliveStep::Done(
                    Err(OrchestratorError::InvalidSandboxState { sandbox_id: id, state: left.state }),
                )
                &&& seen.after(Reply::Waited(Waited::Gone)).step == KeepAliveStep::Done(
                    Err(OrchestratorError::SandboxNotFound { sandbox_id: id }),
                )
                &&& seen.after(Reply::Waited(Waited::Failed(error))).step == KeepAliveStep::Done(
                    Err(OrchestratorError::Store { error }),
                )
                &&& seen.after(Reply::Waited(Waited::TimedOut)).step == KeepAliveStep::Done(
                    Err(
                        OrchestratorError::InvalidSandboxState {
                            sandbox_id: id,
                            state: metadata.state,
                        },
                    ),
                )
            }
            &&& metadata.state is Pausing || metadata.state is Paused || metadata.state is Killing
                ==> seen.step == KeepAliveStep::Done(
                Err(
                    OrchestratorError::InvalidSandboxState { sandbox_id: id, state: metadata.state },
                ),
            )
        }),
{
}

/// A network policy is given to the runtime of a running sandbox first, and stored only once the
/// runtime has taken it: the one that was asked for, in both places.
pub proof fn policies_are_applied_before_they_are_stored(
    run: NetworkRun,
    metadata: SandboxMetadata,
    stored: SandboxMetadata,
    source: String,
    error: StoreError,
)
    requires
        run.step is Fetch,
    ensures
        ({
            let id = run.sandbox_id;
            let seen = run.after(Reply::Fetched(Ok(Some(metadata))));
            let found = seen.after(Reply::Answer(true));
            let applied = found.after(Reply::Ran(Ok(())));
            &&& run.asks() is Fetch
            &&& run.after(Reply::Fetched(Ok(None))).step == NetworkStep::Done(
                Err(OrchestratorError::SandboxNotFound { sandbox_id: id }),
            )
            &&& run.after(Reply::Fetched(Err(error))).step == NetworkStep::Done(
                Err(OrchestratorError::Store { error }),
            )
            &&& !(metadata.state is Running) ==> seen.step == NetworkStep::Done(
                Err(OrchestratorError::InvalidSandboxState { sandbox_id: id, state: metadata.state }),
            )
            &&& metadata.state is Running ==> {
                &&& seen.asks() is FindRuntime
                &&& seen.after(Reply::Answer(false)).step == NetworkStep::Done(
                    Err(
                        OrchestratorError::SandboxOperationConflict {
                            sandbox_id: id,
                            operation: SandboxOperation::UpdateNetwork,
                        },
                    ),
                )
                &&& found.asks() == (Action::UpdateNetwork { policy: run.policy })
                &&& found.after(Reply::Ran(Err(source))).step == NetworkStep::Done(
                    Err(
                        OrchestratorError::SandboxOperationFailed {
                            sandbox_id: id,
                            operation: SandboxOperation::UpdateNetwork,
                            source,
                        },
                    ),
                )
                &&& applied.asks() == (Action::Edit {
                    allowed: Allowed::One(SandboxState::Running),
                    edit: MetadataEdit::NetworkPolicy(run.policy),
                })
                &&& applied.after(Reply::Edited(Ok(stored))).step == NetworkStep::Done(Ok(()))
                &&& applied.after(Reply::Edited(Err(error))).step == NetworkStep::Done(
                    Err(OrchestratorError::Store { error }),
                )
            }
        }),
{
}

/// The parameters that the extension gave are handed to the runtime, stored and returned, the same
/// ones each time, and only for a running sandbox that has a runtime.
pub proof fn patches_store_what_the_extension_gave(
    run: PatchRun,
    metadata: SandboxMetadata,
    params: Option<Document>,
    stored: SandboxMetadata,
    source: String,
    error: StoreError,
)
    requires
        run.step is Fetch,
    ensures
        ({
            let id = run.sandbox_id;
            let seen = run.after(Reply::Fetched(Ok(Some(metadata))));
            let found = seen.after(Reply::Answer(true));
            let patched = found.after(Reply::Patched(Ok(params)));
            let applied = patched.after(Reply::Done);
            let failed = applied.after(Reply::Edited(Err(error)));
            &&& run.asks() is Fetch
            &&& run.after(Reply::Fetched(Ok(None))).step == PatchStep::Done(
                Err(OrchestratorError::SandboxNotFound { sandbox_id: id }),
            )
            &&& run.after(Reply::Fetched(Err(error))).step == PatchStep::Done(
                Err(OrchestratorError::Store { error }),
            )
            &&& !(metadata.state is Running) ==> seen.step == PatchStep::Done(
                Err(OrchestratorError::InvalidSandboxState { sandbox_id: id, state: metadata.state }),
            )
            &&& metadata.state is Running ==> {
                &&& seen.asks() is FindRuntime
                &&& seen.after(Reply::Answer(false)).step == PatchStep::Done(
                    Err(
                        OrchestratorError::SandboxOperationConflict {
                            sandbox_id: id,
                            operation: SandboxOperation::PatchCustomExtensionParams,
                        },
                    ),
                )
                &&& found.asks() is PatchParams
                &&& found.after(Reply::Patched(Err(source))).step == PatchStep::Done(
                    Err(
                        OrchestratorError::SandboxOperationFailed {
                            sandbox_id: id,
                            operation: SandboxOperation::PatchCustomExtensionParams,
                            source,
                        },
                    ),
                )
                &&& patched.asks() == (Action::UpdateParams { params })
                &&& applied.asks() == (Action::Edit {
                    allowed: Allowed::One(SandboxState::Running),
                    edit: MetadataEdit::CustomExtensionParams(params),
                })
                &&& applied.after(Reply::Edited(Ok(stored))).step == PatchStep::Done(Ok(params))
                &&& error matches StoreError::StateConflict { sandbox_id, actual_state, .. }
                    ==> failed.step == PatchStep::Done(
                    Err(OrchestratorError::InvalidSandboxState { sandbox_id, state: actual_state }),
                )
                &&& !(error is StateConflict) ==> failed.step == PatchStep::Done(
                    Err(OrchestratorError::Store { error }),
                )
            }
        }),
{
}

} // verus!
