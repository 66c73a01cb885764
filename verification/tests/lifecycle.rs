use agentenv::ids::SandboxId;
use agentenv::orchestrator::capture::{CaptureRun, CaptureStep};
use agentenv::orchestrator::delete::{DeleteRun, DeleteStep};
use agentenv::orchestrator::error::{
    InternalFault, MismatchedResource, OrchestratorError, SandboxOperation, StoreError,
};
use agentenv::orchestrator::fork::{
    count_fork_outcomes, ForkChildRun, ForkChildStep, ForkCounts, ForkRun, ForkStep,
};
use agentenv::orchestrator::launch::{
    FailedLaunchStage, LaunchKind, LaunchPlan, LaunchRun, LaunchStep,
};
use agentenv::orchestrator::lifecycle::{
    Action, Allowed, MetadataEdit, Operation, Reply, RuntimeFailure, Waited,
};
use agentenv::orchestrator::metadata::{checked_instant, SandboxMetadata, LATEST_INSTANT};
use agentenv::orchestrator::pause::{PauseRun, PauseStep};
use agentenv::orchestrator::persistence::error::{SandboxPersistenceError, UncertainWrite};
use agentenv::orchestrator::resume::{ResumeRun, ResumeStep};
use agentenv::orchestrator::running::{
    unconfigured_extension, KeepAliveRun, KeepAliveStep, NetworkRun, NetworkStep, PatchRun,
    PatchStep,
};
use agentenv::orchestrator::types::{
    Document, ImageOwner, NewTimeout, PausedStateRef, SandboxLifecycleEventType, SandboxResources,
    SandboxState, SandboxTimeoutAction, SnapshotRuntimeVersions, VirtualizationMode,
};

const ID: SandboxId = SandboxId { value: 7 };
const OTHER: SandboxId = SandboxId { value: 8 };

fn metadata(id: SandboxId) -> SandboxMetadata {
    SandboxMetadata {
        id,
        snapshot_id: "snapshot".to_owned(),
        snapshot_alias: None,
        virtualization_mode: VirtualizationMode::Kvm,
        runtime_versions: SnapshotRuntimeVersions {
            kernel: "kernel".to_owned(),
            firecracker: "firecracker".to_owned(),
            envd: "envd".to_owned(),
            tools: "tools".to_owned(),
        },
        resources: SandboxResources { cpu_count: 2, memory_mib: 512, disk_size_mib: 1024 },
        context: None,
        startup: None,
        image_configs: None,
        timeout_action: SandboxTimeoutAction::Pause,
        auto_resume: false,
        user_metadata: None,
        create_idempotency_key: None,
        create_request_fingerprint: None,
        network_policy: None,
        custom_extension_params: None,
        secure: false,
        state: SandboxState::Paused,
        created_at: 1,
        expires_at: None,
        timeout: None,
        paused_state: None,
        paused_runtime_stopped: true,
        resume_recovery_pending: false,
    }
}

fn in_state(state: SandboxState) -> SandboxMetadata {
    let mut metadata = metadata(ID);
    metadata.state = state;
    metadata.paused_runtime_stopped = state == SandboxState::Paused;
    metadata
}

/// Goes through an operation with these replies and gives the names of the actions it asked for.
fn drive<O: Operation>(run: O, replies: Vec<Reply>) -> (O, Vec<String>) {
    let mut run = run;
    let mut asked = Vec::new();
    for reply in replies {
        asked.push(name(&run.action()));
        run = run.next(reply);
    }
    (run, asked)
}

fn name(action: &Action) -> String {
    format!("{action:?}")
        .chars()
        .take_while(|c| c.is_alphanumeric())
        .collect()
}

fn done() -> Reply {
    Reply::Done
}

fn answer(value: bool) -> Reply {
    Reply::Answer(value)
}

fn fetched(metadata: SandboxMetadata) -> Reply {
    Reply::Fetched(Ok(Some(metadata)))
}

fn edited(metadata: SandboxMetadata) -> Reply {
    Reply::Edited(Ok(metadata))
}

fn conflict(actual_state: SandboxState) -> StoreError {
    StoreError::StateConflict { sandbox_id: ID, expected_states: vec![], actual_state }
}

fn broken() -> StoreError {
    StoreError::Other { message: "disk".to_owned() }
}

fn persisted() -> Reply {
    Reply::Persisted(Ok(()))
}

fn uncertain() -> SandboxPersistenceError {
    SandboxPersistenceError::UncertainCommit {
        sandbox_id: ID,
        reason: UncertainWrite::CommittedIndex,
        source: "sync".to_owned(),
    }
}

fn refused() -> SandboxPersistenceError {
    SandboxPersistenceError::Store { operation: "put".to_owned(), source: "full".to_owned() }
}

fn ran() -> Reply {
    Reply::Ran(Ok(()))
}

fn failed(source: &str) -> Reply {
    Reply::Ran(Err(source.to_owned()))
}

fn stored() -> Reply {
    Reply::Stored(Ok(()))
}

fn failure(terminal: bool) -> RuntimeFailure {
    RuntimeFailure { terminal, source: "vm".to_owned() }
}

// Metadata.

#[test]
fn a_state_change_touches_nothing_else() {
    let mut changed = in_state(SandboxState::Running);
    let before = format!("{changed:?}");
    MetadataEdit::State(SandboxState::Pausing).apply(&mut changed, 5);
    assert_eq!(changed.state, SandboxState::Pausing);
    changed.state = SandboxState::Running;
    assert_eq!(format!("{changed:?}"), before);
}

#[test]
fn a_resume_uses_the_stop_proof_up() {
    let mut changed = in_state(SandboxState::Paused);
    MetadataEdit::BeginResume.apply(&mut changed, 5);
    assert_eq!(changed.state, SandboxState::Resuming);
    assert!(!changed.paused_runtime_stopped);
}

#[test]
fn an_undone_resume_gives_the_stop_proof_back() {
    let mut changed = in_state(SandboxState::Resuming);
    MetadataEdit::UndoResume { stopped: true, recovery_pending: true }.apply(&mut changed, 5);
    assert_eq!(changed.state, SandboxState::Paused);
    assert!(changed.paused_runtime_stopped);
    assert!(changed.resume_recovery_pending);
}

#[test]
fn a_failed_resume_has_no_stop_proof() {
    let mut changed = in_state(SandboxState::Resuming);
    changed.paused_runtime_stopped = true;
    MetadataEdit::FailResume.apply(&mut changed, 5);
    assert_eq!(changed.state, SandboxState::Paused);
    assert!(!changed.paused_runtime_stopped);
    assert!(!changed.resume_recovery_pending);
}

#[test]
fn doubt_about_a_stop_awaits_recovery() {
    let mut doubted = in_state(SandboxState::Paused);
    MetadataEdit::DoubtStop.apply(&mut doubted, 5);
    assert!(!doubted.paused_runtime_stopped);
    assert!(doubted.resume_recovery_pending);

    let mut awaiting = in_state(SandboxState::Resuming);
    MetadataEdit::AwaitRecovery.apply(&mut awaiting, 5);
    assert_eq!(awaiting.state, SandboxState::Paused);
    assert!(awaiting.resume_recovery_pending);

    let mut proven = in_state(SandboxState::Paused);
    proven.paused_runtime_stopped = false;
    MetadataEdit::ProveStop.apply(&mut proven, 5);
    assert!(proven.paused_runtime_stopped);
}

#[test]
fn a_launch_starts_the_time_to_live() {
    let mut launched = in_state(SandboxState::Creating);
    let resources = SandboxResources { cpu_count: 4, memory_mib: 8, disk_size_mib: 16 };
    MetadataEdit::Launch { resources, timeout: NewTimeout::After(30) }.apply(&mut launched, 100);
    assert_eq!(launched.state, SandboxState::Running);
    assert_eq!(launched.resources, resources);
    assert_eq!(launched.timeout, Some(30));
    assert_eq!(launched.expires_at, Some(130));

    MetadataEdit::Timeout(NewTimeout::Never).apply(&mut launched, 100);
    assert_eq!(launched.timeout, None);
    assert_eq!(launched.expires_at, None);
}

#[test]
fn a_keep_alive_only_extends_unless_it_may_shorten() {
    let mut running = in_state(SandboxState::Running);
    MetadataEdit::Timeout(NewTimeout::After(100)).apply(&mut running, 0);

    MetadataEdit::KeepAlive { timeout: 50, allow_shorter: false }.apply(&mut running, 10);
    assert_eq!(running.expires_at, Some(100));
    assert_eq!(running.timeout, Some(100));

    MetadataEdit::KeepAlive { timeout: 90, allow_shorter: false }.apply(&mut running, 10);
    assert_eq!(running.expires_at, Some(100));
    assert_eq!(running.timeout, Some(100));

    MetadataEdit::KeepAlive { timeout: 91, allow_shorter: false }.apply(&mut running, 10);
    assert_eq!(running.expires_at, Some(101));
    assert_eq!(running.timeout, Some(91));

    MetadataEdit::KeepAlive { timeout: 50, allow_shorter: true }.apply(&mut running, 10);
    assert_eq!(running.expires_at, Some(60));
}

#[test]
fn documents_are_replaced() {
    let mut running = in_state(SandboxState::Running);
    MetadataEdit::NetworkPolicy(Document { json: "{}".to_owned() }).apply(&mut running, 0);
    assert_eq!(running.network_policy.as_ref().map(|d| d.json.as_str()), Some("{}"));
    MetadataEdit::CustomExtensionParams(Some(Document { json: "[1]".to_owned() }))
        .apply(&mut running, 0);
    assert_eq!(running.custom_extension_params.as_ref().map(|d| d.json.as_str()), Some("[1]"));
    MetadataEdit::CustomExtensionParams(None).apply(&mut running, 0);
    assert!(running.custom_extension_params.is_none());
}

#[test]
fn instants_end_where_time_ends() {
    assert_eq!(checked_instant(1, 2), Some(3));
    assert_eq!(checked_instant(LATEST_INSTANT, 0), Some(LATEST_INSTANT));
    assert_eq!(checked_instant(LATEST_INSTANT, 1), None);
}

#[test]
fn allowed_states_are_listed() {
    assert!(Allowed::One(SandboxState::Running).allows(SandboxState::Running));
    assert!(!Allowed::One(SandboxState::Running).allows(SandboxState::Paused));
    assert!(Allowed::Two(SandboxState::Running, SandboxState::Paused).allows(SandboxState::Paused));
    let three =
        Allowed::Three(SandboxState::Paused, SandboxState::Resuming, SandboxState::Running);
    assert!(three.allows(SandboxState::Running));
    assert!(!three.allows(SandboxState::Killing));
}

// Pause.

#[test]
fn a_pause_persists_before_it_stops() {
    let (run, asked) = drive(
        PauseRun::pause_sandbox(ID),
        vec![
            edited(in_state(SandboxState::Pausing)),
            Reply::Protected(Ok(())),
            persisted(),
            answer(true),
            Reply::Paused(Ok(PausedStateRef { handle: 3 })),
            fetched(in_state(SandboxState::Pausing)),
        ],
    );
    assert_eq!(
        asked,
        ["Edit", "ProtectImages", "AllocateArtifacts", "Detach", "PauseRuntime", "Fetch"],
    );
    let Action::PersistPaused { metadata } = run.action() else {
        panic!("the paused sandbox is persisted");
    };
    assert_eq!(metadata.state, SandboxState::Paused);
    assert_eq!(metadata.paused_state, Some(PausedStateRef { handle: 3 }));
    assert!(!metadata.paused_runtime_stopped);

    let (run, asked) = drive(
        run,
        vec![
            persisted(),
            stored(),
            ran(),
            persisted(),
            edited(in_state(SandboxState::Paused)),
        ],
    );
    assert_eq!(asked, ["PersistPaused", "Replace", "StopRuntime", "MarkStopped", "Edit"]);
    let Action::PublishEvent { event } = run.action() else {
        panic!("the pause is announced");
    };
    assert_eq!(event.event_type, SandboxLifecycleEventType::Pause);
    assert_eq!(event.sandbox_id, ID);
    let run = run.next(done());
    assert!(matches!(run.step, PauseStep::Done(Ok(()))));
    assert!(matches!(run.action(), Action::Nothing));
}

#[test]
fn a_second_pause_joins_the_first() {
    let (run, asked) = drive(
        PauseRun::pause_sandbox(ID),
        vec![
            Reply::Edited(Err(conflict(SandboxState::Pausing))),
            Reply::Waited(Waited::Left(in_state(SandboxState::Paused))),
        ],
    );
    assert_eq!(asked, ["Edit", "AwaitLeaving"]);
    assert!(matches!(run.step, PauseStep::Done(Ok(()))));

    let (run, _) = drive(
        PauseRun::pause_sandbox(ID),
        vec![
            Reply::Edited(Err(conflict(SandboxState::Pausing))),
            Reply::Waited(Waited::Left(in_state(SandboxState::Running))),
        ],
    );
    assert!(matches!(
        run.step,
        PauseStep::Done(Err(OrchestratorError::InvalidSandboxState {
            state: SandboxState::Running,
            ..
        }))
    ));

    let (run, _) = drive(
        PauseRun::pause_sandbox(ID),
        vec![
            Reply::Edited(Err(conflict(SandboxState::Pausing))),
            Reply::Waited(Waited::TimedOut),
        ],
    );
    assert!(matches!(
        run.step,
        PauseStep::Done(Err(OrchestratorError::InvalidSandboxState {
            state: SandboxState::Pausing,
            ..
        }))
    ));

    let (run, _) = drive(
        PauseRun::pause_sandbox(ID),
        vec![Reply::Edited(Err(conflict(SandboxState::Pausing))), Reply::Waited(Waited::Gone)],
    );
    assert!(matches!(
        run.step,
        PauseStep::Done(Err(OrchestratorError::SandboxNotFound { sandbox_id: ID }))
    ));
}

#[test]
fn a_paused_sandbox_is_not_paused_again() {
    let (run, asked) = drive(
        PauseRun::pause_sandbox(ID),
        vec![
            Reply::Edited(Err(conflict(SandboxState::Paused))),
            fetched(in_state(SandboxState::Paused)),
            Reply::Protected(Ok(())),
            persisted(),
            answer(false),
            done(),
            stored(),
        ],
    );
    let expected =
        ["Edit", "Fetch", "ProtectImages", "AllocateArtifacts", "Detach", "ReleaseImages", "Remove"];
    assert_eq!(asked, expected);
    assert!(matches!(
        run.step,
        PauseStep::Done(Err(OrchestratorError::SandboxNotFound { sandbox_id: ID }))
    ));

    let mut unproven = in_state(SandboxState::Paused);
    unproven.paused_runtime_stopped = false;
    let (run, _) = drive(
        PauseRun::pause_sandbox(ID),
        vec![Reply::Edited(Err(conflict(SandboxState::Paused))), fetched(unproven)],
    );
    let PauseStep::Done(Err(OrchestratorError::InternalError { fault })) = run.step else {
        panic!("the stop is unproven");
    };
    assert_eq!(
        fault.to_text(),
        "cannot use paused sandbox 00000000-0000-0000-0000-000000000007: durable runtime stop \
         proof is unavailable",
    );

    let mut pending = in_state(SandboxState::Paused);
    pending.resume_recovery_pending = true;
    let (run, _) = drive(
        PauseRun::pause_sandbox(ID),
        vec![Reply::Edited(Err(conflict(SandboxState::Paused))), fetched(pending)],
    );
    assert!(matches!(
        run.step,
        PauseStep::Done(Err(OrchestratorError::SandboxRecoveryRequired { sandbox_id: ID }))
    ));
}

#[test]
fn only_a_running_sandbox_is_paused() {
    for (state, missing) in [(SandboxState::Killing, true), (SandboxState::Creating, false)] {
        let run = PauseRun::pause_sandbox(ID).next(Reply::Edited(Err(conflict(state))));
        match run.step {
            PauseStep::Done(Err(OrchestratorError::SandboxNotFound { .. })) => assert!(missing),
            PauseStep::Done(Err(OrchestratorError::InvalidSandboxState { state: found, .. })) => {
                assert!(!missing);
                assert_eq!(found, state);
            }
            _ => panic!("the pause is refused"),
        }
    }
    let run = PauseRun::pause_sandbox(ID).next(Reply::Edited(Err(broken())));
    assert!(matches!(run.step, PauseStep::Done(Err(OrchestratorError::Store { .. }))));
}

#[test]
fn a_pause_that_cannot_protect_its_images_is_undone() {
    let (run, asked) = drive(
        PauseRun::pause_sandbox(ID),
        vec![
            edited(in_state(SandboxState::Pausing)),
            Reply::Protected(Err("registry".to_owned())),
            edited(in_state(SandboxState::Running)),
        ],
    );
    assert_eq!(asked, ["Edit", "ProtectImages", "Edit"]);
    let PauseStep::Done(Err(OrchestratorError::InternalError { fault })) = run.step else {
        panic!("the pin failed");
    };
    assert_eq!(fault.to_text(), "pin paused sandbox image refs: registry");
}

#[test]
fn a_pause_without_room_is_undone() {
    let (run, asked) = drive(
        PauseRun::pause_sandbox(ID),
        vec![
            edited(in_state(SandboxState::Pausing)),
            Reply::Protected(Ok(())),
            Reply::Persisted(Err(refused())),
            done(),
            edited(in_state(SandboxState::Running)),
        ],
    );
    assert_eq!(asked, ["Edit", "ProtectImages", "AllocateArtifacts", "ReleaseImages", "Edit"]);
    assert!(matches!(run.step, PauseStep::Done(Err(OrchestratorError::Persistence { .. }))));
}

#[test]
fn a_lost_runtime_cannot_be_paused() {
    let (run, asked) = drive(
        PauseRun::pause_sandbox(ID),
        vec![
            edited(in_state(SandboxState::Pausing)),
            Reply::Protected(Ok(())),
            persisted(),
            answer(false),
            done(),
            stored(),
        ],
    );
    assert_eq!(asked[3..], ["Detach", "ReleaseImages", "Remove"]);
    assert!(matches!(
        run.step,
        PauseStep::Done(Err(OrchestratorError::SandboxNotFound { sandbox_id: ID }))
    ));
}

fn pausing() -> PauseRun {
    drive(
        PauseRun::pause_sandbox(ID),
        vec![
            edited(in_state(SandboxState::Pausing)),
            Reply::Protected(Ok(())),
            persisted(),
            answer(true),
        ],
    )
    .0
}

#[test]
fn a_failed_pause_gives_the_runtime_back() {
    let (run, asked) = drive(
        pausing(),
        vec![
            Reply::Paused(Err(failure(false))),
            done(),
            done(),
            edited(in_state(SandboxState::Running)),
            done(),
        ],
    );
    assert_eq!(asked, ["PauseRuntime", "Attach", "RestoreRoute", "Edit", "ReleaseImages"]);
    assert!(matches!(
        run.step,
        PauseStep::Done(Err(OrchestratorError::SandboxOperationFailed {
            operation: SandboxOperation::Pause,
            ..
        }))
    ));
}

#[test]
fn a_terminal_pause_failure_removes_the_sandbox() {
    let (run, asked) = drive(
        pausing(),
        vec![Reply::Paused(Err(failure(true))), failed("stop"), stored(), done()],
    );
    assert_eq!(asked, ["PauseRuntime", "StopRuntime", "Remove", "ReleaseImages"]);
    assert!(matches!(
        run.step,
        PauseStep::Done(Err(OrchestratorError::SandboxOperationFailed {
            operation: SandboxOperation::Pause,
            ..
        }))
    ));

    let (run, _) = drive(
        pausing(),
        vec![Reply::Paused(Err(failure(true))), ran(), Reply::Stored(Err(broken()))],
    );
    assert!(matches!(run.step, PauseStep::Done(Err(OrchestratorError::Store { .. }))));
}

fn persisting() -> PauseRun {
    drive(
        pausing(),
        vec![
            Reply::Paused(Ok(PausedStateRef { handle: 3 })),
            fetched(in_state(SandboxState::Pausing)),
        ],
    )
    .0
}

#[test]
fn an_uncertain_pause_awaits_recovery() {
    let run = persisting().next(Reply::Persisted(Err(uncertain())));
    let Action::Replace { metadata } = run.action() else {
        panic!("the doubt is recorded");
    };
    assert!(metadata.resume_recovery_pending);
    assert!(!metadata.paused_runtime_stopped);
    let (run, asked) = drive(run, vec![Reply::Stored(Err(broken())), failed("stop")]);
    assert_eq!(asked, ["Replace", "StopRuntime"]);
    assert!(matches!(
        run.step,
        PauseStep::Done(Err(OrchestratorError::SandboxRecoveryRequired { sandbox_id: ID }))
    ));
}

#[test]
fn a_refused_pause_record_resumes_the_runtime() {
    let (run, asked) = drive(
        persisting(),
        vec![
            Reply::Persisted(Err(refused())),
            ran(),
            done(),
            done(),
            edited(in_state(SandboxState::Running)),
            done(),
        ],
    );
    assert_eq!(
        asked,
        ["PersistPaused", "ResumeRuntime", "Attach", "RestoreRoute", "Edit", "ReleaseImages"],
    );
    let PauseStep::Done(Err(OrchestratorError::InternalError { fault })) = run.step else {
        panic!("the record was refused");
    };
    assert!(fault.to_text().starts_with("failed to persist paused sandbox state: "));

    let (run, asked) = drive(
        persisting(),
        vec![
            Reply::Persisted(Err(refused())),
            failed("resume"),
            ran(),
            Reply::Stored(Err(broken())),
            done(),
        ],
    );
    assert_eq!(
        asked,
        ["PersistPaused", "ResumeRuntime", "StopRuntime", "Remove", "ReleaseImages"],
    );
    assert!(matches!(run.step, PauseStep::Done(Err(OrchestratorError::InternalError { .. }))));
}

#[test]
fn a_stop_is_only_proven_by_a_durable_mark() {
    let stopped = || drive(persisting(), vec![persisted(), stored(), ran()]).0;

    let (run, asked) = drive(
        stopped(),
        vec![Reply::Persisted(Err(uncertain())), Reply::Edited(Err(broken()))],
    );
    assert_eq!(asked, ["MarkStopped", "Edit"]);
    assert!(matches!(
        run.step,
        PauseStep::Done(Err(OrchestratorError::SandboxRecoveryRequired { sandbox_id: ID }))
    ));

    let run = stopped().next(Reply::Persisted(Err(refused())));
    assert!(matches!(run.step, PauseStep::Done(Err(OrchestratorError::Persistence { .. }))));

    let (run, _) = drive(persisting(), vec![persisted(), stored(), failed("stop")]);
    assert!(matches!(
        run.step,
        PauseStep::Done(Err(OrchestratorError::SandboxOperationFailed {
            operation: SandboxOperation::Stop,
            ..
        }))
    ));
}

// Delete.

#[test]
fn a_delete_proves_absence_before_it_removes() {
    let (run, asked) = drive(
        DeleteRun::delete_sandbox(ID),
        vec![
            fetched(in_state(SandboxState::Running)),
            Reply::Moved(Ok(SandboxState::Running)),
            fetched(in_state(SandboxState::Killing)),
            Reply::Claim(Ok(None)),
            answer(true),
            ran(),
            stored(),
            persisted(),
            done(),
            done(),
        ],
    );
    assert_eq!(
        asked,
        [
            "Fetch",
            "Move",
            "Fetch",
            "FindClaim",
            "Detach",
            "StopRuntime",
            "Remove",
            "DeleteArtifacts",
            "PublishEvent",
            "ReleaseImages",
        ],
    );
    assert!(matches!(run.step, DeleteStep::Done(Ok(()))));
}

#[test]
fn a_delete_releases_the_create_key_last() {
    let mut claimed = in_state(SandboxState::Killing);
    claimed.create_idempotency_key = Some("key".to_owned());
    let (run, asked) = drive(
        DeleteRun::delete_sandbox(ID),
        vec![
            fetched(in_state(SandboxState::Running)),
            Reply::Moved(Ok(SandboxState::Running)),
            fetched(claimed),
            Reply::Claim(Ok(Some(9))),
            answer(true),
            ran(),
            Reply::Released(Ok(())),
            stored(),
        ],
    );
    assert_eq!(asked[5..], ["StopRuntime", "MarkClaimDeleting", "Remove"]);
    let Action::ReleaseClaim { key, token } = run.action() else {
        panic!("the key is released");
    };
    assert_eq!((key.as_str(), token), ("key", 9));
    let (run, _) = drive(run, vec![Reply::Released(Ok(())), done(), done()]);
    assert!(matches!(run.step, DeleteStep::Done(Ok(()))));
}

#[test]
fn a_paused_sandbox_is_deleted_by_its_stop_proof() {
    let deleting = |stopped: bool| {
        let mut paused = in_state(SandboxState::Killing);
        paused.paused_runtime_stopped = stopped;
        drive(
            DeleteRun::delete_sandbox(ID),
            vec![
                fetched(in_state(SandboxState::Paused)),
                Reply::Moved(Ok(SandboxState::Paused)),
                fetched(paused),
                Reply::Claim(Ok(None)),
                answer(false),
            ],
        )
        .0
    };
    assert!(matches!(deleting(true).action(), Action::Remove));

    let (run, asked) =
        drive(deleting(false), vec![done(), Reply::Moved(Ok(SandboxState::Killing))]);
    assert_eq!(asked, ["RestoreRoute", "Move"]);
    let DeleteStep::Done(Err(OrchestratorError::InternalError { fault })) = run.step else {
        panic!("the absence is unproven");
    };
    assert_eq!(
        fault.to_text(),
        "cannot prove runtime absence for paused sandbox 00000000-0000-0000-0000-000000000007: \
         runtime handle is missing",
    );
}

#[test]
fn a_failed_stop_gives_the_runtime_back() {
    let (run, asked) = drive(
        DeleteRun::delete_sandbox(ID),
        vec![
            fetched(in_state(SandboxState::Running)),
            Reply::Moved(Ok(SandboxState::Running)),
            fetched(in_state(SandboxState::Killing)),
            Reply::Claim(Ok(None)),
            answer(true),
            failed("stop"),
            done(),
            done(),
            Reply::Moved(Ok(SandboxState::Killing)),
        ],
    );
    assert_eq!(asked[6..], ["Attach", "RestoreRoute", "Move"]);
    assert!(matches!(
        run.step,
        DeleteStep::Done(Err(OrchestratorError::SandboxOperationFailed {
            operation: SandboxOperation::Stop,
            ..
        }))
    ));
}

#[test]
fn a_delete_waits_for_other_operations() {
    let waiting = || {
        drive(
            DeleteRun::delete_sandbox(ID),
            vec![
                fetched(in_state(SandboxState::Pausing)),
                Reply::Moved(Err(conflict(SandboxState::Pausing))),
            ],
        )
        .0
    };
    assert!(matches!(
        waiting().action(),
        Action::AwaitLeaving { state: SandboxState::Pausing }
    ));
    let run = waiting().next(Reply::Waited(Waited::Left(in_state(SandboxState::Paused))));
    assert!(matches!(run.step, DeleteStep::Begin));

    let run = drive(
        waiting(),
        vec![Reply::Waited(Waited::Gone), Reply::DeletingClaim(None)],
    )
    .0;
    assert!(matches!(run.step, DeleteStep::Done(Ok(()))));

    let (run, asked) = drive(
        waiting(),
        vec![
            Reply::Waited(Waited::Gone),
            Reply::DeletingClaim(Some(("key".to_owned(), 4))),
            Reply::Released(Ok(())),
            done(),
        ],
    );
    assert_eq!(asked, ["AwaitLeaving", "FindDeletingClaim", "ReleaseClaim", "ReleaseImages"]);
    assert!(matches!(run.step, DeleteStep::Done(Ok(()))));

    let run = waiting().next(Reply::Waited(Waited::TimedOut));
    assert!(matches!(
        run.step,
        DeleteStep::Done(Err(OrchestratorError::InvalidSandboxState {
            state: SandboxState::Pausing,
            ..
        }))
    ));
}

#[test]
fn a_retried_delete_finishes_what_is_left() {
    let (run, asked) = drive(
        DeleteRun::delete_sandbox(ID),
        vec![Reply::Fetched(Ok(None)), Reply::DeletingClaim(None)],
    );
    assert_eq!(asked, ["Fetch", "FindDeletingClaim"]);
    assert!(matches!(
        run.step,
        DeleteStep::Done(Err(OrchestratorError::SandboxNotFound { sandbox_id: ID }))
    ));

    let (run, _) = drive(
        DeleteRun::delete_sandbox(ID),
        vec![
            Reply::Fetched(Ok(None)),
            Reply::DeletingClaim(Some(("key".to_owned(), 4))),
            Reply::Released(Ok(())),
            done(),
        ],
    );
    assert!(matches!(run.step, DeleteStep::Done(Ok(()))));
}

#[test]
fn pending_recovery_refuses_a_delete() {
    let mut pending = in_state(SandboxState::Paused);
    pending.resume_recovery_pending = true;
    let run = DeleteRun::delete_sandbox(ID).next(fetched(pending));
    assert!(matches!(
        run.step,
        DeleteStep::Done(Err(OrchestratorError::SandboxRecoveryRequired { sandbox_id: ID }))
    ));
}

#[test]
fn a_foreign_claim_undoes_a_delete() {
    let (run, asked) = drive(
        DeleteRun::delete_sandbox(ID),
        vec![
            fetched(in_state(SandboxState::Running)),
            Reply::Moved(Ok(SandboxState::Running)),
            fetched(in_state(SandboxState::Killing)),
            Reply::Claim(Err(OrchestratorError::InternalError {
                fault: InternalFault::MissingCreateEntry { sandbox_id: ID, key: "k".to_owned() },
            })),
            Reply::Moved(Ok(SandboxState::Killing)),
        ],
    );
    assert_eq!(asked[3..], ["FindClaim", "Move"]);
    let DeleteStep::Done(Err(OrchestratorError::InternalError { fault })) = run.step else {
        panic!("the claim is missing");
    };
    assert_eq!(
        fault.to_text(),
        "sandbox 00000000-0000-0000-0000-000000000007 is missing create idempotency entry 'k'",
    );
}

// Launch.

fn create_plan() -> LaunchPlan {
    LaunchPlan {
        sandbox_id: ID,
        kind: LaunchKind::Create { metadata: in_state(SandboxState::Creating) },
        timeout: NewTimeout::After(60),
        resources: SandboxResources { cpu_count: 2, memory_mib: 512, disk_size_mib: 0 },
    }
}

fn resume_plan() -> LaunchPlan {
    LaunchPlan { kind: LaunchKind::Resume, ..create_plan() }
}

#[test]
fn a_create_comes_up() {
    let (run, asked) = drive(
        LaunchRun::launch_sandbox(create_plan()),
        vec![
            answer(false),
            ran(),
            Reply::Protected(Ok(())),
            Reply::Started(Ok(Some(1048577))),
            answer(false),
            done(),
            done(),
        ],
    );
    assert_eq!(
        asked,
        [
            "CheckShutdown",
            "BuildRuntime",
            "ProtectImages",
            "StartRuntime",
            "CheckShutdown",
            "Attach",
            "ReleaseImages",
        ],
    );
    let Action::Insert { metadata } = run.action() else {
        panic!("the sandbox is recorded");
    };
    assert_eq!(metadata.state, SandboxState::Creating);
    assert_eq!(metadata.resources.disk_size_mib, 2);
    let (run, asked) = drive(run, vec![stored(), answer(false), ran(), answer(false)]);
    assert_eq!(asked, ["Insert", "CheckShutdown", "AwaitReady", "CheckShutdown"]);
    let Action::Edit { allowed, edit } = run.action() else {
        panic!("the sandbox is set to running");
    };
    assert_eq!(allowed, Allowed::One(SandboxState::Creating));
    assert!(matches!(edit, MetadataEdit::Launch { timeout: NewTimeout::After(60), .. }));
    let (run, asked) =
        drive(run, vec![edited(in_state(SandboxState::Running)), answer(true), done()]);
    assert_eq!(asked, ["Edit", "LookUpTarget", "PublishRoute"]);
    assert!(matches!(run.step, LaunchStep::Done(Ok(_))));
}

#[test]
fn a_resumed_launch_drops_its_record_last() {
    let (run, asked) = drive(
        LaunchRun::launch_sandbox(resume_plan()),
        vec![
            answer(false),
            ran(),
            Reply::Protected(Ok(())),
            Reply::Started(Ok(None)),
            answer(false),
            done(),
            done(),
            answer(false),
            ran(),
            answer(false),
            edited(in_state(SandboxState::Running)),
            answer(true),
            done(),
            Reply::Persisted(Err(refused())),
        ],
    );
    assert_eq!(asked[10..], ["Edit", "LookUpTarget", "PublishRoute", "DeleteRecord"]);
    assert!(matches!(run.step, LaunchStep::Done(Ok(_))));
}

#[test]
fn a_create_that_cannot_start_leaves_nothing() {
    let (run, asked) = drive(
        LaunchRun::launch_sandbox(create_plan()),
        vec![
            answer(false),
            ran(),
            Reply::Protected(Ok(())),
            Reply::Started(Err("kvm".to_owned())),
            ran(),
            done(),
            stored(),
        ],
    );
    assert_eq!(asked[3..], ["StartRuntime", "StopRuntime", "ReleaseImages", "Remove"]);
    assert!(matches!(
        run.step,
        LaunchStep::Done(Err(OrchestratorError::SandboxOperationFailed {
            operation: SandboxOperation::Start,
            ..
        }))
    ));

    let (run, _) = drive(
        LaunchRun::launch_sandbox(create_plan()),
        vec![answer(false), failed("image"), done(), stored()],
    );
    assert!(matches!(
        run.step,
        LaunchStep::Done(Err(OrchestratorError::SandboxOperationFailed {
            operation: SandboxOperation::Build,
            ..
        }))
    ));
}

#[test]
fn a_failed_resume_proves_the_stop_again() {
    let start_fails = |stopped: Reply| {
        drive(
            LaunchRun::launch_sandbox(resume_plan()),
            vec![
                answer(false),
                ran(),
                Reply::Protected(Ok(())),
                Reply::Started(Err("kvm".to_owned())),
                stopped,
                done(),
                edited(in_state(SandboxState::Paused)),
            ],
        )
        .0
    };
    let (run, asked) = drive(
        start_fails(ran()),
        vec![persisted(), persisted(), edited(in_state(SandboxState::Paused))],
    );
    assert_eq!(asked, ["RollBackResuming", "MarkStopped", "Edit"]);
    assert!(matches!(run.step, LaunchStep::Done(Err(_))));

    // Without a proven stop there is nothing to mark.
    let run = start_fails(failed("stop")).next(persisted());
    assert!(matches!(run.step, LaunchStep::Done(Err(_))));

    // A write in doubt awaits recovery.
    let run = start_fails(ran()).next(Reply::Persisted(Err(uncertain())));
    let Action::Edit { allowed, edit } = run.action() else {
        panic!("the doubt is recorded");
    };
    assert!(matches!(edit, MetadataEdit::AwaitRecovery));
    assert!(allowed.allows(SandboxState::Paused) && allowed.allows(SandboxState::Resuming));
    let (run, _) =
        drive(start_fails(ran()), vec![persisted(), Reply::Persisted(Err(uncertain()))]);
    assert!(matches!(
        run.action(),
        Action::Edit { edit: MetadataEdit::AwaitRecovery, .. }
    ));
    let run = start_fails(ran()).next(Reply::Persisted(Err(refused())));
    assert!(matches!(run.step, LaunchStep::Done(Err(_))));
}

#[test]
fn a_shutdown_stops_a_launch_at_every_check() {
    let run = LaunchRun::launch_sandbox(create_plan()).next(answer(true));
    assert!(matches!(run.step, LaunchStep::Done(Err(OrchestratorError::ShuttingDown))));

    let (run, _) = drive(
        LaunchRun::launch_sandbox(create_plan()),
        vec![
            answer(false),
            ran(),
            Reply::Protected(Ok(())),
            Reply::Started(Ok(None)),
            answer(true),
            ran(),
            done(),
            stored(),
        ],
    );
    assert!(matches!(run.step, LaunchStep::Done(Err(OrchestratorError::ShuttingDown))));

    let (run, asked) = drive(
        LaunchRun::launch_sandbox(create_plan()),
        vec![
            answer(false),
            ran(),
            Reply::Protected(Ok(())),
            Reply::Started(Ok(None)),
            answer(false),
            done(),
            done(),
            stored(),
            answer(true),
            answer(true),
            ran(),
            done(),
            stored(),
        ],
    );
    assert_eq!(asked[9..], ["DetachIfCurrent", "StopRuntime", "ReleaseImages", "Remove"]);
    assert!(matches!(run.step, LaunchStep::Done(Err(OrchestratorError::ShuttingDown))));
}

#[test]
fn a_replaced_runtime_is_not_rolled_back() {
    let (run, asked) = drive(
        LaunchRun::launch_sandbox(create_plan()),
        vec![
            answer(false),
            ran(),
            Reply::Protected(Ok(())),
            Reply::Started(Ok(None)),
            answer(false),
            done(),
            done(),
            stored(),
            answer(false),
            failed("not ready"),
            answer(false),
            ran(),
        ],
    );
    assert_eq!(asked[9..], ["AwaitReady", "DetachIfCurrent", "StopRuntime"]);
    assert!(matches!(
        run.step,
        LaunchStep::Done(Err(OrchestratorError::SandboxOperationFailed {
            operation: SandboxOperation::WaitReady,
            ..
        }))
    ));
}

#[test]
fn a_launch_without_an_address_is_rolled_back() {
    let (run, asked) = drive(
        LaunchRun::launch_sandbox(create_plan()),
        vec![
            answer(false),
            ran(),
            Reply::Protected(Ok(())),
            Reply::Started(Ok(None)),
            answer(false),
            done(),
            done(),
            stored(),
            answer(false),
            ran(),
            answer(false),
            edited(in_state(SandboxState::Running)),
            answer(false),
        ],
    );
    assert_eq!(asked.last().map(String::as_str), Some("LookUpTarget"));
    assert!(matches!(run.action(), Action::DetachIfCurrent { with_route: true }));
    let (run, _) = drive(run, vec![answer(true), ran(), done(), stored()]);
    let LaunchStep::Done(Err(OrchestratorError::InternalError { fault })) = run.step else {
        panic!("the address is missing");
    };
    assert_eq!(fault.to_text(), "sandbox missing host interaction IP after start");
}

#[test]
fn stages_of_a_failed_launch() {
    let create = create_plan();
    let resume = resume_plan();
    assert_eq!(create.transitional_state(), SandboxState::Creating);
    assert_eq!(resume.transitional_state(), SandboxState::Resuming);
    let registered = FailedLaunchStage::Registered;
    let transitional = FailedLaunchStage::TransitionalPersisted;
    let running = FailedLaunchStage::RunningPersisted;
    assert_eq!(
        transitional.rollback_expected_state(&resume),
        Some(SandboxState::Resuming),
    );
    assert_eq!(running.rollback_expected_state(&create), Some(SandboxState::Running));
    assert!(running.should_detach_proxy_route());
    assert_eq!(registered.rollback_expected_state(&create), None);
    assert!(!registered.should_detach_proxy_route());
}

// Resume.

fn resuming() -> ResumeRun {
    ResumeRun::resume_sandbox(ID, NewTimeout::After(60), VirtualizationMode::Kvm)
        .next(answer(false))
}

fn resumable() -> SandboxMetadata {
    let mut paused = in_state(SandboxState::Paused);
    paused.paused_state = Some(PausedStateRef { handle: 5 });
    paused.secure = true;
    paused
}

#[test]
fn a_resume_launches_the_paused_state() {
    let (run, asked) = drive(
        resuming(),
        vec![fetched(resumable()), edited(in_state(SandboxState::Resuming)), persisted()],
    );
    assert_eq!(asked, ["Fetch", "Edit", "MarkResuming"]);
    let Action::Launch { paused_state, timeout, secure, .. } = run.action() else {
        panic!("the sandbox is launched");
    };
    assert_eq!(paused_state, PausedStateRef { handle: 5 });
    assert_eq!(timeout, NewTimeout::After(60));
    assert!(secure);
    let (run, asked) = drive(
        run,
        vec![Reply::Launched(Ok(in_state(SandboxState::Running))), done(), done()],
    );
    assert_eq!(asked, ["Launch", "ReleaseImages", "PublishEvent"]);
    assert!(matches!(run.step, ResumeStep::Done(Ok(_))));

    let (run, _) = drive(
        resuming(),
        vec![
            fetched(resumable()),
            edited(in_state(SandboxState::Resuming)),
            persisted(),
            Reply::Launched(Err(OrchestratorError::ShuttingDown)),
        ],
    );
    assert!(matches!(run.step, ResumeStep::Done(Err(OrchestratorError::ShuttingDown))));
}

#[test]
fn a_resume_of_a_running_sandbox_only_sets_its_timeout() {
    let (run, asked) = drive(
        resuming(),
        vec![fetched(in_state(SandboxState::Running)), edited(in_state(SandboxState::Running))],
    );
    assert_eq!(asked, ["Fetch", "Edit"]);
    assert!(matches!(run.step, ResumeStep::Done(Ok(_))));

    let (run, _) = drive(
        resuming(),
        vec![
            fetched(in_state(SandboxState::Running)),
            Reply::Edited(Err(conflict(SandboxState::Pausing))),
        ],
    );
    assert!(matches!(
        run.step,
        ResumeStep::Done(Err(OrchestratorError::InvalidSandboxState {
            state: SandboxState::Pausing,
            ..
        }))
    ));
}

#[test]
fn unusable_sandboxes_are_refused() {
    let refusal = |metadata: SandboxMetadata| match resuming().next(fetched(metadata)).step {
        ResumeStep::Done(Err(error)) => error,
        _ => panic!("the resume is refused"),
    };
    let mut pending = resumable();
    pending.resume_recovery_pending = true;
    assert!(matches!(refusal(pending), OrchestratorError::SandboxRecoveryRequired { .. }));

    let mut unproven = resumable();
    unproven.paused_runtime_stopped = false;
    assert!(matches!(
        refusal(unproven),
        OrchestratorError::InternalError { fault: InternalFault::MissingStopProof { .. } }
    ));

    let mut foreign = resumable();
    foreign.virtualization_mode = VirtualizationMode::Pvm;
    let OrchestratorError::VirtualizationModeMismatch { resource, resource_mode, node_mode } =
        refusal(foreign)
    else {
        panic!("the modes differ");
    };
    assert_eq!(resource.to_text(), "paused sandbox 00000000-0000-0000-0000-000000000007");
    assert_eq!(resource_mode, VirtualizationMode::Pvm);
    assert_eq!(node_mode, VirtualizationMode::Kvm);

    assert!(matches!(
        refusal(in_state(SandboxState::Killing)),
        OrchestratorError::SandboxNotFound { .. }
    ));
    assert!(matches!(
        refusal(in_state(SandboxState::Forking)),
        OrchestratorError::InvalidSandboxState { state: SandboxState::Forking, .. }
    ));
    assert!(matches!(
        resuming().next(Reply::Fetched(Ok(None))).step,
        ResumeStep::Done(Err(OrchestratorError::SandboxNotFound { .. }))
    ));
    let run = ResumeRun::resume_sandbox(ID, NewTimeout::Never, VirtualizationMode::Kvm)
        .next(answer(true));
    assert!(matches!(run.step, ResumeStep::Done(Err(OrchestratorError::ShuttingDown))));
}

#[test]
fn an_unmarked_resume_is_undone() {
    let marking = || {
        drive(resuming(), vec![fetched(resumable()), edited(in_state(SandboxState::Resuming))]).0
    };
    let run = marking().next(Reply::Persisted(Err(refused())));
    assert!(matches!(
        run.action(),
        Action::Edit {
            edit: MetadataEdit::UndoResume { stopped: true, recovery_pending: false },
            ..
        }
    ));
    let run = run.next(edited(in_state(SandboxState::Paused)));
    let ResumeStep::Done(Err(OrchestratorError::InternalError { fault })) = run.step else {
        panic!("the mark failed");
    };
    assert!(fault.to_text().starts_with("failed to mark persisted sandbox record as resuming: "));

    let run = marking().next(Reply::Persisted(Err(uncertain())));
    assert!(matches!(
        run.action(),
        Action::Edit {
            edit: MetadataEdit::UndoResume { stopped: true, recovery_pending: true },
            ..
        }
    ));
    let run = run.next(Reply::Edited(Err(broken())));
    assert!(matches!(
        run.step,
        ResumeStep::Done(Err(OrchestratorError::SandboxRecoveryRequired { sandbox_id: ID }))
    ));
}

#[test]
fn a_second_resume_joins_the_first() {
    let joining = || {
        drive(
            resuming(),
            vec![
                fetched(resumable()),
                Reply::Edited(Err(conflict(SandboxState::Resuming))),
            ],
        )
        .0
    };
    let (run, asked) = drive(
        joining(),
        vec![
            Reply::Waited(Waited::Left(in_state(SandboxState::Running))),
            edited(in_state(SandboxState::Running)),
        ],
    );
    assert_eq!(asked, ["AwaitLeaving", "Edit"]);
    assert!(matches!(run.step, ResumeStep::Done(Ok(_))));
    let run = joining().next(Reply::Waited(Waited::Left(in_state(SandboxState::Paused))));
    assert!(matches!(
        run.step,
        ResumeStep::Done(Err(OrchestratorError::InvalidSandboxState {
            state: SandboxState::Paused,
            ..
        }))
    ));

    // One that is found under way is waited for before anything else.
    let (run, asked) = drive(
        resuming(),
        vec![
            fetched(in_state(SandboxState::Resuming)),
            Reply::Waited(Waited::Left(resumable())),
        ],
    );
    assert_eq!(asked, ["Fetch", "AwaitLeaving"]);
    assert!(matches!(run.action(), Action::Edit { edit: MetadataEdit::BeginResume, .. }));
}

#[test]
fn a_resume_needs_a_paused_state() {
    let mut stateless = resumable();
    stateless.paused_state = None;
    let (run, _) = drive(
        resuming(),
        vec![fetched(stateless), edited(in_state(SandboxState::Resuming)), persisted()],
    );
    let ResumeStep::Done(Err(OrchestratorError::InternalError { fault })) = run.step else {
        panic!("the paused state is missing");
    };
    assert_eq!(fault.to_text(), "missing paused state");
}

// Capture.

#[test]
fn a_capture_leaves_the_sandbox_running() {
    let (run, asked) = drive(
        CaptureRun::capture_snapshot(ID),
        vec![
            answer(false),
            edited(in_state(SandboxState::Snapshotting)),
            answer(true),
            Reply::Captured(Ok(11)),
            edited(in_state(SandboxState::Running)),
            fetched(in_state(SandboxState::Running)),
        ],
    );
    assert_eq!(
        asked,
        ["CheckShutdown", "Edit", "FindRuntime", "SnapshotRuntime", "Edit", "Fetch"],
    );
    let CaptureStep::Done(Ok(result)) = run.step else {
        panic!("the snapshot is captured");
    };
    assert_eq!(result.captured_snapshot, 11);
    assert_eq!(result.metadata.state, SandboxState::Running);
}

#[test]
fn a_failed_capture_goes_back_unless_it_is_terminal() {
    let snapshotting = || {
        drive(
            CaptureRun::capture_snapshot(ID),
            vec![answer(false), edited(in_state(SandboxState::Snapshotting)), answer(true)],
        )
        .0
    };
    let (run, asked) = drive(
        snapshotting(),
        vec![Reply::Captured(Err(failure(false))), edited(in_state(SandboxState::Running))],
    );
    assert_eq!(asked, ["SnapshotRuntime", "Edit"]);
    assert!(matches!(
        run.step,
        CaptureStep::Done(Err(OrchestratorError::SandboxOperationFailed {
            operation: SandboxOperation::Snapshot,
            ..
        }))
    ));
    let (run, asked) = drive(
        snapshotting(),
        vec![Reply::Captured(Err(failure(true))), answer(true), failed("stop"), stored()],
    );
    assert_eq!(asked, ["SnapshotRuntime", "Detach", "StopRuntime", "Remove"]);
    assert!(matches!(run.step, CaptureStep::Done(Err(_))));

    let (run, asked) = drive(
        CaptureRun::capture_snapshot(ID),
        vec![
            answer(false),
            edited(in_state(SandboxState::Snapshotting)),
            answer(false),
            answer(false),
            stored(),
        ],
    );
    assert_eq!(asked[2..], ["FindRuntime", "Detach", "Remove"]);
    assert!(matches!(
        run.step,
        CaptureStep::Done(Err(OrchestratorError::SandboxNotFound { .. }))
    ));
}

#[test]
fn only_a_running_sandbox_is_captured() {
    let refusal = |state| {
        drive(
            CaptureRun::capture_snapshot(ID),
            vec![answer(false), Reply::Edited(Err(conflict(state)))],
        )
        .0
        .step
    };
    assert!(matches!(
        refusal(SandboxState::Killing),
        CaptureStep::Done(Err(OrchestratorError::SandboxNotFound { .. }))
    ));
    assert!(matches!(
        refusal(SandboxState::Paused),
        CaptureStep::Done(Err(OrchestratorError::InvalidSandboxState {
            state: SandboxState::Paused,
            ..
        }))
    ));
}

// Fork.

#[test]
fn a_fork_gives_the_source_back() {
    let mut source = in_state(SandboxState::Forking);
    source.secure = true;
    let (run, asked) =
        drive(ForkRun::fork_sandbox(ID, 3), vec![answer(false), answer(true), edited(source)]);
    assert_eq!(asked, ["CheckShutdown", "FindRuntime", "Edit"]);
    assert!(matches!(run.action(), Action::ForkRuntime { count: 3, secure: true }));
    let (run, asked) = drive(run, vec![Reply::Forked(Ok(())), Reply::Edited(Err(broken()))]);
    assert_eq!(asked, ["ForkRuntime", "Edit"]);
    assert!(matches!(run.step, ForkStep::Done(Ok(_))));
}

#[test]
fn a_failed_fork_keeps_the_source_unless_it_is_terminal() {
    let forking = || {
        drive(
            ForkRun::fork_sandbox(ID, 2),
            vec![answer(false), answer(true), edited(in_state(SandboxState::Forking))],
        )
        .0
    };
    let (run, asked) = drive(
        forking(),
        vec![Reply::Forked(Err(failure(false))), edited(in_state(SandboxState::Running))],
    );
    assert_eq!(asked, ["ForkRuntime", "Edit"]);
    assert!(matches!(
        run.step,
        ForkStep::Done(Err(OrchestratorError::SandboxOperationFailed {
            operation: SandboxOperation::Fork,
            ..
        }))
    ));
    let (run, asked) = drive(
        forking(),
        vec![Reply::Forked(Err(failure(true))), answer(true), ran(), stored()],
    );
    assert_eq!(asked, ["ForkRuntime", "Detach", "StopRuntime", "Remove"]);
    assert!(matches!(run.step, ForkStep::Done(Err(_))));
    assert_eq!(run.failed, 2);
    let unremoved = vec![
        Reply::Forked(Err(failure(true))),
        answer(true),
        ran(),
        Reply::Stored(Err(broken())),
    ];
    let (run, _) = drive(forking(), unremoved);
    assert!(matches!(run.step, ForkStep::Done(Err(OrchestratorError::Store { .. }))));
    assert_eq!(run.failed, 2);

    let (run, _) = drive(ForkRun::fork_sandbox(ID, 2), vec![answer(false), answer(false)]);
    assert_eq!(run.failed, 0);
    assert!(matches!(run.step, ForkStep::Done(Err(OrchestratorError::SandboxNotFound { .. }))));
    let (run, _) = drive(
        ForkRun::fork_sandbox(ID, 2),
        vec![
            answer(false),
            answer(true),
            Reply::Edited(Err(conflict(SandboxState::Snapshotting))),
        ],
    );
    assert!(matches!(
        run.step,
        ForkStep::Done(Err(OrchestratorError::InvalidSandboxState {
            state: SandboxState::Snapshotting,
            ..
        }))
    ));
}

#[test]
fn a_fork_takes_over_no_claims() {
    let mut source = in_state(SandboxState::Running);
    source.create_idempotency_key = Some("key".to_owned());
    source.create_request_fingerprint = Some("print".to_owned());
    source.paused_state = Some(PausedStateRef { handle: 1 });
    source.paused_runtime_stopped = true;
    source.created_at = 1;
    let run = ForkChildRun::register_fork(&source, OTHER, NewTimeout::After(10), 50, Ok(()));
    let (run, asked) = drive(run, vec![ran(), ran(), done(), done()]);
    assert_eq!(asked, ["ResolveTarget", "Enroll", "Attach", "PublishRoute"]);
    let Action::PublishEvent { event } = run.action() else {
        panic!("the fork is announced");
    };
    assert_eq!(event.event_type, SandboxLifecycleEventType::Fork);
    assert_eq!(event.sandbox_id, OTHER);
    let ForkChildStep::Done(Ok(child)) = run.next(done()).step else {
        panic!("the fork runs");
    };
    assert_eq!(child.id, OTHER);
    assert_eq!(child.state, SandboxState::Running);
    assert_eq!(child.created_at, 50);
    assert_eq!(child.expires_at, Some(60));
    assert_eq!(child.create_idempotency_key, None);
    assert_eq!(child.create_request_fingerprint, None);
    assert_eq!(child.paused_state, None);
    assert!(!child.paused_runtime_stopped);
}

#[test]
fn a_fork_that_cannot_be_registered_is_stopped() {
    let source = in_state(SandboxState::Running);
    let child = || ForkChildRun::register_fork(&source, OTHER, NewTimeout::Never, 50, Ok(()));
    let (run, asked) = drive(child(), vec![failed("no address"), ran()]);
    assert_eq!(asked, ["ResolveTarget", "StopRuntime"]);
    let ForkChildStep::Done(Err(OrchestratorError::SandboxOperationFailed {
        sandbox_id,
        operation,
        source: cause,
    })) = run.step
    else {
        panic!("the fork failed");
    };
    assert_eq!(sandbox_id, OTHER);
    assert_eq!(operation, SandboxOperation::Fork);
    assert_eq!(cause, "no address");
    let (run, _) = drive(child(), vec![ran(), failed("exists"), failed("stop")]);
    assert!(matches!(run.step, ForkChildStep::Done(Err(_))));
    let run = ForkChildRun::register_fork(
        &source,
        OTHER,
        NewTimeout::Never,
        50,
        Err("vm".to_owned()),
    );
    assert!(matches!(run.step, ForkChildStep::Done(Err(_))));
}

#[test]
fn forks_are_counted() {
    let outcomes = vec![
        Ok(in_state(SandboxState::Running)),
        Err(OrchestratorError::ShuttingDown),
        Ok(in_state(SandboxState::Running)),
    ];
    assert_eq!(count_fork_outcomes(5, &outcomes), ForkCounts { succeeded: 2, failed: 3 });
    assert_eq!(count_fork_outcomes(3, &outcomes), ForkCounts { succeeded: 2, failed: 1 });
}

// Running sandboxes.

#[test]
fn a_keep_alive_takes_the_default_timeout() {
    let run = KeepAliveRun::keep_alive_for(ID, None, 300, false);
    let (run, asked) =
        drive(run, vec![answer(false), fetched(in_state(SandboxState::Running))]);
    assert_eq!(asked, ["CheckShutdown", "Fetch"]);
    assert!(matches!(
        run.action(),
        Action::Edit {
            edit: MetadataEdit::KeepAlive { timeout: 300, allow_shorter: false },
            ..
        }
    ));
    let run = run.next(edited(in_state(SandboxState::Running)));
    assert!(matches!(run.step, KeepAliveStep::Done(Ok(_))));
}

#[test]
fn a_keep_alive_waits_for_what_may_come_to_run() {
    for state in [
        SandboxState::Creating,
        SandboxState::Resuming,
        SandboxState::Snapshotting,
        SandboxState::Forking,
    ] {
        let run = KeepAliveRun::keep_alive_for(ID, Some(7), 300, true);
        let (run, _) = drive(run, vec![answer(false), fetched(in_state(state))]);
        let Action::AwaitLeaving { state: awaited } = run.action() else {
            panic!("the sandbox is waited for");
        };
        assert_eq!(awaited, state);
        let run = run.next(Reply::Waited(Waited::Left(in_state(SandboxState::Running))));
        assert!(matches!(
            run.action(),
            Action::Edit {
                edit: MetadataEdit::KeepAlive { timeout: 7, allow_shorter: true },
                ..
            }
        ));
    }
    for state in [SandboxState::Pausing, SandboxState::Paused, SandboxState::Killing] {
        let run = KeepAliveRun::keep_alive_for(ID, Some(7), 300, true);
        let (run, _) = drive(run, vec![answer(false), fetched(in_state(state))]);
        let KeepAliveStep::Done(Err(OrchestratorError::InvalidSandboxState {
            state: found, ..
        })) = run.step
        else {
            panic!("the keep-alive is refused");
        };
        assert_eq!(found, state);
    }
}

#[test]
fn a_network_policy_is_stored_once_it_is_applied() {
    let policy = || Document { json: "{\"allow\":[]}".to_owned() };
    let (run, asked) = drive(
        NetworkRun::replace_sandbox_network_policy(ID, policy()),
        vec![
            fetched(in_state(SandboxState::Running)),
            answer(true),
            ran(),
            edited(in_state(SandboxState::Running)),
        ],
    );
    assert_eq!(asked, ["Fetch", "FindRuntime", "UpdateNetwork", "Edit"]);
    assert!(matches!(run.step, NetworkStep::Done(Ok(()))));

    let (run, _) = drive(
        NetworkRun::replace_sandbox_network_policy(ID, policy()),
        vec![fetched(in_state(SandboxState::Running)), answer(false)],
    );
    assert!(matches!(
        run.step,
        NetworkStep::Done(Err(OrchestratorError::SandboxOperationConflict {
            operation: SandboxOperation::UpdateNetwork,
            ..
        }))
    ));
    let (run, _) = drive(
        NetworkRun::replace_sandbox_network_policy(ID, policy()),
        vec![fetched(in_state(SandboxState::Running)), answer(true), failed("nft")],
    );
    assert!(matches!(
        run.step,
        NetworkStep::Done(Err(OrchestratorError::SandboxOperationFailed {
            operation: SandboxOperation::UpdateNetwork,
            ..
        }))
    ));
}

#[test]
fn a_refused_patch_changes_nothing() {
    let (run, asked) = drive(
        PatchRun::patch_sandbox_custom_extension_params(ID),
        vec![
            fetched(in_state(SandboxState::Running)),
            answer(true),
            Reply::Patched(Err(unconfigured_extension())),
        ],
    );
    assert_eq!(asked, ["Fetch", "FindRuntime", "PatchParams"]);
    let PatchStep::Done(Err(OrchestratorError::SandboxOperationFailed { source, .. })) = run.step
    else {
        panic!("the patch is refused");
    };
    assert_eq!(source, "custom extension is not configured ([custom_extension].url is unset)");
}

#[test]
fn a_patch_is_applied_and_stored() {
    let patched = || {
        drive(
            PatchRun::patch_sandbox_custom_extension_params(ID),
            vec![
                fetched(in_state(SandboxState::Running)),
                answer(true),
                Reply::Patched(Ok(Some(Document { json: "{\"a\":1}".to_owned() }))),
                done(),
            ],
        )
    };
    let (run, asked) = patched();
    assert_eq!(asked, ["Fetch", "FindRuntime", "PatchParams", "UpdateParams"]);
    let run = run.next(edited(in_state(SandboxState::Running)));
    let PatchStep::Done(Ok(Some(params))) = run.step else {
        panic!("the patch is done");
    };
    assert_eq!(params.json, "{\"a\":1}");

    let run = patched().0.next(Reply::Edited(Err(conflict(SandboxState::Pausing))));
    assert!(matches!(
        run.step,
        PatchStep::Done(Err(OrchestratorError::InvalidSandboxState {
            state: SandboxState::Pausing,
            ..
        }))
    ));
}

#[test]
fn names_in_messages() {
    assert_eq!(ImageOwner::StartingSandbox.name(), "starting sandbox");
    assert_eq!(
        MismatchedResource::Snapshot { snapshot_id: "base".to_owned() }.to_text(),
        "snapshot base",
    );
    assert_eq!(
        InternalFault::ChangedCreateEntry { sandbox_id: ID, key: "k".to_owned() }.to_text(),
        "sandbox 00000000-0000-0000-0000-000000000007 create idempotency entry 'k' changed \
         during delete",
    );
    assert_eq!(
        InternalFault::ForeignCreateEntry {
            sandbox_id: ID,
            key: "k".to_owned(),
            owner: OTHER,
        }
        .to_text(),
        "sandbox 00000000-0000-0000-0000-000000000007 create idempotency entry 'k' points to \
         00000000-0000-0000-0000-000000000008",
    );
    assert_eq!(
        InternalFault::CreateStateClosed { key: "k".to_owned() }.to_text(),
        "idempotent create state closed before completion for key 'k'",
    );
    assert_eq!(
        InternalFault::CreatePanicked { message: "oops".to_owned() }.to_text(),
        "idempotent create panicked: oops",
    );
    assert_eq!(
        InternalFault::ImageReconcile { message: "io".to_owned() }.to_text(),
        "reconcile local image protection: io",
    );
    assert_eq!(
        InternalFault::TaskEnded { message: "channel closed".to_owned() }.to_text(),
        "operation task ended before reporting result: channel closed",
    );
}
