//! What lifecycle operations ask for, and what they are answered.
//!
//! An operation decides; the node around it acts. Each operation is at a step that asks for one
//! action, and goes on to the next step by the reply.

use crate::orchestrator::error::{OrchestratorError, StoreError};
use crate::orchestrator::metadata::{checked_instant, SandboxMetadata};
use crate::orchestrator::persistence::error::PersistenceResult;
use crate::orchestrator::types::{
    Document, ImageOwner, NewTimeout, PausedStateRef, SandboxLifecycleEvent, SandboxResources,
    SandboxState,
};
use vstd::prelude::*;

verus! {

/// The states in which a change of metadata is allowed.
#[derive(Clone, Copy, Debug, PartialEq, Eq, Structural)]
pub enum Allowed {
    One(SandboxState),
    Two(SandboxState, SandboxState),
    Three(SandboxState, SandboxState, SandboxState),
}

impl Allowed {
    pub open spec fn contains(self, state: SandboxState) -> bool {
        match self {
            Allowed::One(first) => state == first,
            Allowed::Two(first, second) => state == first || state == second,
            Allowed::Three(first, second, third) => state == first || state == second || state
                == third,
        }
    }

    pub fn allows(self, state: SandboxState) -> (answer: bool)
        ensures
            answer == self.contains(state),
    {
        match self {
            Allowed::One(first) => state == first,
            Allowed::Two(first, second) => state == first || state == second,
            Allowed::Three(first, second, third) => state == first || state == second || state
                == third,
        }
    }
}

/// A change of metadata.
#[allow(inconsistent_fields)]
#[derive(Debug)]
pub enum MetadataEdit {
    State(SandboxState),
    /// A resume begins: the stop proof is used up.
    BeginResume,
    /// A resume was never started.
    UndoResume { stopped: bool, recovery_pending: bool },
    /// A launch from a paused state failed: its runtime may be left over.
    FailResume,
    /// A durable write of a paused sandbox may or may not have happened.
    AwaitRecovery,
    /// A stop proof may or may not be durable.
    DoubtStop,
    /// The stop of the runtime is durably proven.
    ProveStop,
    /// A launch has come up.
    Launch { resources: SandboxResources, timeout: NewTimeout },
    Timeout(NewTimeout),
    /// A new timeout in nanoseconds, which may be made to only ever extend the old one.
    KeepAlive { timeout: u128, allow_shorter: bool },
    NetworkPolicy(Document),
    CustomExtensionParams(Option<Document>),
}

/// Whether a keep-alive takes effect.
pub open spec fn keeps_alive(
    expires_at: Option<u128>,
    new_instant: Option<u128>,
    allow_shorter: bool,
) -> bool {
    allow_shorter || !(expires_at is Some && new_instant is Some && new_instant->0 <= expires_at->0)
}

impl MetadataEdit {
    /// The metadata after this change at an instant.
    pub open spec fn applied(self, metadata: SandboxMetadata, now: u128) -> SandboxMetadata {
        match self {
            MetadataEdit::State(state) => SandboxMetadata { state, ..metadata },
            MetadataEdit::BeginResume => SandboxMetadata {
                state: SandboxState::Resuming,
                paused_runtime_stopped: false,
                ..metadata
            },
            MetadataEdit::UndoResume { stopped, recovery_pending } => SandboxMetadata {
                state: SandboxState::Paused,
                paused_runtime_stopped: stopped,
                resume_recovery_pending: recovery_pending,
                ..metadata
            },
            MetadataEdit::FailResume => SandboxMetadata {
                state: SandboxState::Paused,
                paused_runtime_stopped: false,
                ..metadata
            },
            MetadataEdit::AwaitRecovery => SandboxMetadata {
                state: SandboxState::Paused,
                paused_runtime_stopped: false,
                resume_recovery_pending: true,
                ..metadata
            },
            MetadataEdit::DoubtStop => SandboxMetadata {
                paused_runtime_stopped: false,
                resume_recovery_pending: true,
                ..metadata
            },
            MetadataEdit::ProveStop => SandboxMetadata { paused_runtime_stopped: true, ..metadata },
            MetadataEdit::Launch { resources, timeout } => SandboxMetadata {
                resources,
                state: SandboxState::Running,
                paused_runtime_stopped: false,
                ..metadata
            }.with_timeout(timeout, now),
            MetadataEdit::Timeout(timeout) => metadata.with_timeout(timeout, now),
            MetadataEdit::KeepAlive { timeout, allow_shorter } => if keeps_alive(
                metadata.expires_at,
                crate::orchestrator::metadata::instant_after(now, timeout),
                allow_shorter,
            ) {
                metadata.with_timeout(NewTimeout::After(timeout), now)
            } else {
                metadata
            },
            MetadataEdit::NetworkPolicy(policy) => SandboxMetadata {
                network_policy: Some(policy),
                ..metadata
            },
            MetadataEdit::CustomExtensionParams(params) => SandboxMetadata {
                custom_extension_params: params,
                ..metadata
            },
        }
    }

    pub fn apply(&self, metadata: &mut SandboxMetadata, now: u128)
        ensures
            *final(metadata) == self.applied(*old(metadata), now),
    {
        match self {
            MetadataEdit::State(state) => {
                metadata.state = *state;
            },
            MetadataEdit::BeginResume => {
                metadata.state = SandboxState::Resuming;
                metadata.paused_runtime_stopped = false;
            },
            MetadataEdit::UndoResume { stopped, recovery_pending } => {
                metadata.state = SandboxState::Paused;
                metadata.paused_runtime_stopped = *stopped;
                metadata.resume_recovery_pending = *recovery_pending;
            },
            MetadataEdit::FailResume => {
                metadata.state = SandboxState::Paused;
                metadata.paused_runtime_stopped = false;
            },
            MetadataEdit::AwaitRecovery => {
                metadata.state = SandboxState::Paused;
                metadata.paused_runtime_stopped = false;
                metadata.resume_recovery_pending = true;
            },
            MetadataEdit::DoubtStop => {
                metadata.paused_runtime_stopped = false;
                metadata.resume_recovery_pending = true;
            },
            MetadataEdit::ProveStop => {
                metadata.paused_runtime_stopped = true;
            },
            MetadataEdit::Launch { resources, timeout } => {
                metadata.resources = *resources;
                metadata.state = SandboxState::Running;
                metadata.paused_runtime_stopped = false;
                metadata.update_timeout(*timeout, now);
            },
            MetadataEdit::Timeout(timeout) => {
                metadata.update_timeout(*timeout, now);
            },
            MetadataEdit::KeepAlive { timeout, allow_shorter } => {
                let shortens = match (metadata.expires_at, checked_instant(now, *timeout)) {
                    (Some(current), Some(new)) => new <= current,
                    _ => false,
                };
                if *allow_shorter || !shortens {
                    metadata.update_timeout(NewTimeout::After(*timeout), now);
                }
            },
            MetadataEdit::NetworkPolicy(policy) => {
                metadata.network_policy = Some(policy.copy());
            },
            MetadataEdit::CustomExtensionParams(params) => {
                metadata.custom_extension_params = Document::copy_optional(params);
            },
        }
    }
}

/// What an operation asks for. Everything is about the one sandbox of the operation.
#[allow(inconsistent_fields)]
#[derive(Debug)]
pub enum Action {
    /// Nothing more: the operation has its result.
    Nothing,
    /// Get the metadata.
    Fetch,
    /// Change the metadata, where its state allows it.
    Edit { allowed: Allowed, edit: MetadataEdit },
    /// Change the state alone, and tell the one before.
    Move { allowed: Allowed, state: SandboxState },
    /// Replace the metadata.
    Replace { metadata: SandboxMetadata },
    /// Add the metadata of a new sandbox.
    Insert { metadata: SandboxMetadata },
    /// Add the metadata of a forked sandbox.
    Enroll { metadata: SandboxMetadata },
    /// Remove the metadata.
    Remove,
    /// Wait until the sandbox has left a state.
    AwaitLeaving { state: SandboxState },
    ProtectImages { owner: ImageOwner },
    ReleaseImages { owner: ImageOwner },
    /// Find out whether there is a runtime.
    FindRuntime,
    /// Take the runtime and its route out of the tables.
    Detach,
    /// Take the runtime of a failed launch out of the tables, unless another one has taken its
    /// place.
    DetachIfCurrent { with_route: bool },
    /// Put the runtime back.
    Attach,
    /// Put the route back that was taken out.
    RestoreRoute,
    /// Route to the runtime, unless another one has taken its place.
    PublishRoute,
    /// Find out whether there is an address to route to.
    LookUpTarget,
    /// Find out the address to route to, or why there is none.
    ResolveTarget,
    BuildRuntime,
    StartRuntime,
    AwaitReady,
    PauseRuntime,
    ResumeRuntime,
    SnapshotRuntime,
    /// Fork the runtime into so many new ones, each with an access token where it is secure.
    ForkRuntime { count: u32, secure: bool },
    StopRuntime,
    /// Allocate a directory for the artifacts of the pause.
    AllocateArtifacts,
    PersistPaused { metadata: SandboxMetadata },
    MarkStopped,
    MarkResuming,
    RollBackResuming,
    DeleteRecord,
    PublishEvent { event: SandboxLifecycleEvent },
    UpdateNetwork { policy: Document },
    /// Have the extension patch its parameters.
    PatchParams,
    UpdateParams { params: Option<Document> },
    /// Find out whether the node is shutting down.
    CheckShutdown,
    /// Launch the sandbox from its paused state.
    Launch {
        paused_state: PausedStateRef,
        timeout: NewTimeout,
        resources: SandboxResources,
        secure: bool,
    },
    /// Get the claim on the create key of the sandbox.
    FindClaim { key: Option<String> },
    /// Mark the claim as being deleted.
    MarkClaimDeleting { key: String, token: u64 },
    /// Get a claim of the sandbox that is being deleted.
    FindDeletingClaim,
    /// Release a claim and delete the record and the artifacts with it.
    ReleaseClaim { key: String, token: u64 },
    /// Delete the record and the artifacts.
    DeleteArtifacts,
}

/// How a wait for a transition came out.
#[derive(Debug)]
pub enum Waited {
    Left(SandboxMetadata),
    Gone,
    Failed(StoreError),
    TimedOut,
}

/// A failure of the runtime; after a terminal one it cannot be used any more.
#[derive(Debug)]
pub struct RuntimeFailure {
    pub terminal: bool,
    pub source: String,
}

/// The answer to an action.
#[derive(Debug)]
pub enum Reply {
    Done,
    Fetched(Result<Option<SandboxMetadata>, StoreError>),
    /// The metadata after the change.
    Edited(Result<SandboxMetadata, StoreError>),
    /// The state before the change.
    Moved(Result<SandboxState, StoreError>),
    Stored(Result<(), StoreError>),
    Waited(Waited),
    /// Whether something holds.
    Answer(bool),
    Protected(Result<(), String>),
    Ran(Result<(), String>),
    Paused(Result<PausedStateRef, RuntimeFailure>),
    Captured(Result<u64, RuntimeFailure>),
    Forked(Result<(), RuntimeFailure>),
    /// The size in bytes of the root block device, where that is known.
    Started(Result<Option<u64>, String>),
    Persisted(PersistenceResult<()>),
    /// The parameters after the patch.
    Patched(Result<Option<Document>, String>),
    Launched(Result<SandboxMetadata, OrchestratorError>),
    Claim(Result<Option<u64>, OrchestratorError>),
    DeletingClaim(Option<(String, u64)>),
    Released(Result<(), OrchestratorError>),
}

/// Whether a reply is an answer to an action.
pub open spec fn answers(action: Action, reply: Reply) -> bool {
    match action {
        Action::Nothing => false,
        Action::Fetch => reply is Fetched,
        Action::Edit { .. } => reply is Edited,
        Action::Move { .. } => reply is Moved,
        Action::Replace { .. } => reply is Stored,
        Action::Insert { .. } => reply is Stored,
        Action::Enroll { .. } => reply is Ran,
        Action::Remove => reply is Stored,
        Action::AwaitLeaving { .. } => reply is Waited,
        Action::ProtectImages { .. } => reply is Protected,
        Action::ReleaseImages { .. } => reply is Done,
        Action::FindRuntime => reply is Answer,
        Action::Detach => reply is Answer,
        Action::DetachIfCurrent { .. } => reply is Answer,
        Action::Attach => reply is Done,
        Action::RestoreRoute => reply is Done,
        Action::PublishRoute => reply is Done,
        Action::LookUpTarget => reply is Answer,
        Action::ResolveTarget => reply is Ran,
        Action::BuildRuntime => reply is Ran,
        Action::StartRuntime => reply is Started,
        Action::AwaitReady => reply is Ran,
        Action::PauseRuntime => reply is Paused,
        Action::ResumeRuntime => reply is Ran,
        Action::SnapshotRuntime => reply is Captured,
        Action::ForkRuntime { .. } => reply is Forked,
        Action::StopRuntime => reply is Ran,
        Action::AllocateArtifacts => reply is Persisted,
        Action::PersistPaused { .. } => reply is Persisted,
        Action::MarkStopped => reply is Persisted,
        Action::MarkResuming => reply is Persisted,
        Action::RollBackResuming => reply is Persisted,
        Action::DeleteRecord => reply is Persisted,
        Action::PublishEvent { .. } => reply is Done,
        Action::UpdateNetwork { .. } => reply is Ran,
        Action::PatchParams => reply is Patched,
        Action::UpdateParams { .. } => reply is Done,
        Action::CheckShutdown => reply is Answer,
        Action::Launch { .. } => reply is Launched,
        Action::FindClaim { .. } => reply is Claim,
        Action::MarkClaimDeleting { .. } => reply is Released,
        Action::FindDeletingClaim => reply is DeletingClaim,
        Action::ReleaseClaim { .. } => reply is Released,
        Action::DeleteArtifacts => reply is Persisted,
    }
}

/// A lifecycle operation on one sandbox, at one of its steps.
pub trait Operation: Sized {
    /// What the operation asks for at this step.
    spec fn asks(self) -> Action;

    /// The step that follows on a reply.
    spec fn after(self, reply: Reply) -> Self;

    fn action(&self) -> (action: Action)
        ensures
            action == self.asks(),
    ;

    fn next(self, reply: Reply) -> (next: Self)
        requires
            answers(self.asks(), reply),
        ensures
            next == self.after(reply),
    ;
}

/// What is true of a sandbox on a node.
pub struct World {
    pub metadata: Option<SandboxMetadata>,
    /// Whether its runtime may be alive.
    pub alive: bool,
}

impl World {
    /// Whether a stop proof is only there where the runtime is gone.
    pub open spec fn is_truthful(self) -> bool {
        self.metadata matches Some(metadata) && metadata.paused_runtime_stopped ==> !self.alive
    }
}

/// Whether an action may be answered in this way, and lead from one world to the other. While an
/// operation waits for another one, that one does its work; it keeps the world truthful.
pub open spec fn happens(before: World, action: Action, reply: Reply, after: World) -> bool {
    match (action, reply) {
        (Action::Fetch, Reply::Fetched(Ok(metadata))) => metadata == before.metadata && after
            == before,
        (Action::Edit { allowed, edit }, Reply::Edited(Ok(current))) => {
            &&& before.metadata is Some
            &&& allowed.contains(before.metadata->0.state)
            &&& exists|now: u128| current == #[trigger] edit.applied(before.metadata->0, now)
            &&& after == World { metadata: Some(current), ..before }
        },
        (
            Action::Edit { allowed, .. },
            Reply::Edited(Err(StoreError::StateConflict { actual_state, .. })),
        ) => {
            &&& before.metadata is Some
            &&& before.metadata->0.state == actual_state
            &&& !allowed.contains(actual_state)
            &&& after == before
        },
        (Action::Move { allowed, state }, Reply::Moved(Ok(previous))) => {
            &&& before.metadata is Some
            &&& before.metadata->0.state == previous
            &&& allowed.contains(previous)
            &&& after == World {
                metadata: Some(SandboxMetadata { state, ..before.metadata->0 }),
                ..before
            }
        },
        (Action::Replace { metadata }, Reply::Stored(Ok(_))) => after == World {
            metadata: Some(metadata),
            ..before
        },
        (Action::Insert { metadata }, Reply::Stored(Ok(_))) => after == World {
            metadata: Some(metadata),
            ..before
        },
        (Action::Enroll { metadata }, Reply::Ran(Ok(_))) => after == World {
            metadata: Some(metadata),
            ..before
        },
        (Action::Remove, Reply::Stored(Ok(_))) => after == World { metadata: None, ..before },
        (Action::AwaitLeaving { state }, Reply::Waited(Waited::Left(metadata))) => {
            &&& after.metadata == Some(metadata)
            &&& metadata.state != state
            &&& after.is_truthful()
        },
        (Action::AwaitLeaving { .. }, Reply::Waited(Waited::Gone)) => after.metadata is None,
        (Action::AwaitLeaving { .. }, _) => after.is_truthful(),
        (Action::StartRuntime, Reply::Started(_)) => after == World { alive: true, ..before },
        (Action::StopRuntime, Reply::Ran(Ok(_))) => after == World { alive: false, ..before },
        (Action::Launch { .. }, Reply::Launched(Ok(metadata))) => {
            &&& after.metadata == Some(metadata)
            &&& metadata.state is Running
            &&& after.is_truthful()
        },
        (Action::Launch { .. }, _) => after.is_truthful(),
        _ => after == before,
    }
}

/// Whether an operation went through these steps, with these replies, in these worlds.
pub open spec fn is_history<O: Operation>(
    steps: Seq<O>,
    replies: Seq<Reply>,
    worlds: Seq<World>,
) -> bool {
    &&& steps.len() == replies.len() + 1
    &&& worlds.len() == steps.len()
    &&& forall|i: int|
        0 <= i < replies.len() ==> {
            &&& answers(steps[i].asks(), #[trigger] replies[i])
            &&& steps[i + 1] == steps[i].after(replies[i])
            &&& happens(worlds[i], steps[i].asks(), replies[i], worlds[i + 1])
        }
}

// ---------------------------------------------------------------------------------------------
// Laws
// ---------------------------------------------------------------------------------------------

/// No change of metadata makes a sandbox another one: what was asked for when it was created stays.
pub proof fn edits_keep_the_origin(edit: MetadataEdit, metadata: SandboxMetadata, now: u128)
    ensures
        edit.applied(metadata, now).same_origin(metadata),
        edit.applied(metadata, now).paused_state == metadata.paused_state,
{
}

/// A change of where a sandbox stands in its life leaves its settings alone.
pub proof fn transitions_keep_the_settings(edit: MetadataEdit, metadata: SandboxMetadata, now: u128)
    requires
        edit is State || edit is BeginResume || edit is UndoResume || edit is FailResume
            || edit is AwaitRecovery || edit is DoubtStop || edit is ProveStop,
    ensures
        edit.applied(metadata, now).same_settings(metadata),
        edit is State ==> edit.applied(metadata, now).paused_runtime_stopped
            == metadata.paused_runtime_stopped && edit.applied(metadata, now).resume_recovery_pending
            == metadata.resume_recovery_pending,
        edit matches MetadataEdit::State(state) ==> edit.applied(metadata, now).state == state,
        edit is DoubtStop || edit is ProveStop ==> edit.applied(metadata, now).state
            == metadata.state,
{
}

/// A sandbox gets its stop proof only by a change that says so, and loses it with every resume and
/// every doubt; one that awaits recovery has none.
pub proof fn stop_proofs_are_never_made_up(edit: MetadataEdit, metadata: SandboxMetadata, now: u128)
    ensures
        edit.applied(metadata, now).paused_runtime_stopped && !metadata.paused_runtime_stopped
            ==> edit is ProveStop || (edit matches MetadataEdit::UndoResume { stopped, .. } && stopped),
        edit is BeginResume || edit is FailResume || edit is AwaitRecovery || edit is DoubtStop
            || edit is Launch ==> !edit.applied(metadata, now).paused_runtime_stopped,
        edit is ProveStop ==> edit.applied(metadata, now).paused_runtime_stopped
            && edit.applied(metadata, now).resume_recovery_pending == metadata.resume_recovery_pending,
        edit is AwaitRecovery || edit is DoubtStop ==> edit.applied(
            metadata,
            now,
        ).resume_recovery_pending,
        edit.applied(metadata, now).resume_recovery_pending != metadata.resume_recovery_pending
            ==> edit is AwaitRecovery || edit is DoubtStop || edit is UndoResume,
{
}

/// A resume that was never started gives the sandbox back as it was when the resume began; one that
/// failed after it was started gives it back without the stop proof.
pub proof fn undone_resumes_give_the_sandbox_back(metadata: SandboxMetadata, begun: u128, undone: u128)
    requires
        metadata.state is Paused,
    ensures
        ({
            let resuming = MetadataEdit::BeginResume.applied(metadata, begun);
            let undo = MetadataEdit::UndoResume {
                stopped: metadata.paused_runtime_stopped,
                recovery_pending: metadata.resume_recovery_pending,
            };
            &&& resuming.state is Resuming
            &&& undo.applied(resuming, undone) == metadata
            &&& MetadataEdit::FailResume.applied(resuming, undone) == (SandboxMetadata {
                paused_runtime_stopped: false,
                ..metadata
            })
            &&& MetadataEdit::AwaitRecovery.applied(resuming, undone) == (SandboxMetadata {
                paused_runtime_stopped: false,
                resume_recovery_pending: true,
                ..metadata
            })
        }),
{
}

/// A launch leaves a running sandbox with the resources that it was given, whose timeout counts
/// from then; updates of policies and parameters set these and nothing else.
pub proof fn updates_set_what_they_say(
    metadata: SandboxMetadata,
    resources: SandboxResources,
    timeout: NewTimeout,
    policy: Document,
    params: Option<Document>,
    now: u128,
)
    ensures
        ({
            let launched = (MetadataEdit::Launch { resources, timeout }).applied(metadata, now);
            let governed = MetadataEdit::NetworkPolicy(policy).applied(metadata, now);
            let patched = MetadataEdit::CustomExtensionParams(params).applied(metadata, now);
            &&& launched.state is Running
            &&& launched.resources == resources
            &&& launched.network_policy == metadata.network_policy
            &&& launched.custom_extension_params == metadata.custom_extension_params
            &&& launched.resume_recovery_pending == metadata.resume_recovery_pending
            &&& timeout is Never ==> launched.expires_at is None && launched.timeout is None
            &&& timeout matches NewTimeout::After(length) ==> launched.timeout == Some(length) && (
            launched.expires_at matches Some(instant) ==> instant - now == length)
            &&& MetadataEdit::Timeout(timeout).applied(metadata, now) == (SandboxMetadata {
                timeout: launched.timeout,
                expires_at: launched.expires_at,
                ..metadata
            })
            &&& governed == (SandboxMetadata { network_policy: Some(policy), ..metadata })
            &&& patched == (SandboxMetadata { custom_extension_params: params, ..metadata })
        }),
{
}

/// A keep-alive gives a sandbox at least the time that is asked for, counted from now, never
/// shortens its life unless that is allowed, and changes nothing but its timeout.
pub proof fn keep_alives_give_the_time_asked_for(
    metadata: SandboxMetadata,
    timeout: u128,
    allow_shorter: bool,
    now: u128,
)
    ensures
        ({
            let kept = (MetadataEdit::KeepAlive { timeout, allow_shorter }).applied(metadata, now);
            &&& kept == (SandboxMetadata {
                timeout: kept.timeout,
                expires_at: kept.expires_at,
                ..metadata
            })
            &&& kept.expires_at matches Some(instant) ==> instant >= now + timeout
            &&& allow_shorter ==> kept.timeout == Some(timeout) && (kept.expires_at matches Some(
                instant,
            ) ==> instant == now + timeout)
            &&& !allow_shorter && metadata.expires_at is Some && kept.expires_at is Some
                ==> kept.expires_at->0 >= metadata.expires_at->0
            &&& kept.expires_at != metadata.expires_at ==> kept.timeout == Some(timeout)
        }),
{
}

/// A change is allowed in exactly the states that it names.
pub proof fn allowed_states_are_those_named(
    first: SandboxState,
    second: SandboxState,
    third: SandboxState,
    state: SandboxState,
)
    ensures
        Allowed::One(first).contains(state) <==> state == first,
        Allowed::Two(first, second).contains(state) <==> Allowed::One(first).contains(state)
            || Allowed::One(second).contains(state),
        Allowed::Three(first, second, third).contains(state) <==> Allowed::Two(first, second).contains(
            state,
        ) || Allowed::One(third).contains(state),
{
}

/// A reply of a kind answers only the actions that ask for one of that kind.
pub proof fn replies_answer_what_was_asked(action: Action, reply: Reply)
    requires
        answers(action, reply),
    ensures
        !(action is Nothing),
        reply is Fetched <==> action is Fetch,
        reply is Edited <==> action is Edit,
        reply is Moved <==> action is Move,
        reply is Stored <==> action is Replace || action is Insert || action is Remove,
        reply is Waited <==> action is AwaitLeaving,
        reply is Protected <==> action is ProtectImages,
        reply is Answer <==> action is FindRuntime || action is Detach || action is DetachIfCurrent
            || action is LookUpTarget || action is CheckShutdown,
        reply is Ran <==> action is Enroll || action is ResolveTarget || action is BuildRuntime
            || action is AwaitReady || action is ResumeRuntime || action is StopRuntime
            || action is UpdateNetwork,
        reply is Paused <==> action is PauseRuntime,
        reply is Captured <==> action is SnapshotRuntime,
        reply is Forked <==> action is ForkRuntime,
        reply is Started <==> action is StartRuntime,
        reply is Persisted <==> action is AllocateArtifacts || action is PersistPaused
            || action is MarkStopped || action is MarkResuming || action is RollBackResuming
            || action is DeleteRecord || action is DeleteArtifacts,
        reply is Patched <==> action is PatchParams,
        reply is Launched <==> action is Launch,
        reply is Claim <==> action is FindClaim,
        reply is DeletingClaim <==> action is FindDeletingClaim,
        reply is Released <==> action is MarkClaimDeleting || action is ReleaseClaim,
{
}

} // verus!
