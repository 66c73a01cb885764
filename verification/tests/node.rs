use agentenv::ids::SandboxId;
use agentenv::orchestrator::create::{
    create_event, create_sandbox_inner, report_create, CreateLaunchSource, CreateReport,
    NodeSettings,
};
use agentenv::orchestrator::create_idempotency::{
    replay_idempotent_create, replayed_metadata, ClaimStep, CreateIdempotencyState, CreateTable,
    FinishStep, ReleaseStep, ReplayStep,
};
use agentenv::orchestrator::error::{InternalFault, OrchestratorError};
use agentenv::orchestrator::launch::LaunchKind;
use agentenv::orchestrator::listing::{list_sandboxes_filtered, SandboxListFilter};
use agentenv::orchestrator::metadata::SandboxMetadata;
use agentenv::orchestrator::metrics::metrics_snapshot;
use agentenv::orchestrator::persistence::error::SandboxPersistenceError;
use agentenv::orchestrator::persistence::journal::{
    CreateIdempotencyRecord, CreateIdempotencyRecordState,
};
use agentenv::orchestrator::proxy::{
    proxy_lookup_for, ProxyLookupResult, ProxyRoute, ProxyTarget, RuntimeTable,
};
use agentenv::orchestrator::resources::{
    configured_runtime_versions, default_fresh_sandbox_resources, resources_with_runtime_info,
};
use agentenv::orchestrator::restore::{RestoreRun, RestoreStep};
use agentenv::orchestrator::shutdown::{
    evict_expired_sandboxes, shutdown_task, Eviction, PassDecision, ShutdownOutcome, ShutdownRun,
    ShutdownTask,
};
use agentenv::orchestrator::startup::{
    managed_seed_must_exist, migrate_paused_create_record, restored_paused, retain_undeleted,
    validate_durable_create_records, InterruptedCreate, PausedKey, ProtectionStep, RestoredPaused,
};
use agentenv::orchestrator::types::{
    CreateIdempotencyFault, CreateSandboxIdempotency, CreateSandboxRequest, Document, NewTimeout,
    PausedStateRef, SandboxLaunchSource, SandboxLifecycleEventType, SandboxResources,
    SandboxState, SandboxTimeoutAction, SnapshotRuntimeVersions, VirtualizationMode,
};
use agentenv::paths::StorePath;

const ID: SandboxId = SandboxId { value: 7 };
const OTHER: SandboxId = SandboxId { value: 8 };

fn metadata(id: SandboxId) -> SandboxMetadata {
    SandboxMetadata {
        id,
        snapshot_id: "snapshot".to_owned(),
        snapshot_alias: None,
        virtualization_mode: VirtualizationMode::Kvm,
        runtime_versions: SnapshotRuntimeVersions {
            kernel: "kernel".to_owned(),
            firecracker: "firecracker".to_owned(),
            envd: "envd".to_owned(),
            tools: "tools".to_owned(),
        },
        resources: SandboxResources { cpu_count: 2, memory_mib: 512, disk_size_mib: 1024 },
        context: None,
        startup: None,
        image_configs: None,
        timeout_action: SandboxTimeoutAction::Pause,
        auto_resume: false,
        user_metadata: None,
        create_idempotency_key: None,
        create_request_fingerprint: None,
        network_policy: None,
        custom_extension_params: None,
        secure: false,
        state: SandboxState::Paused,
        created_at: 1,
        expires_at: None,
        timeout: None,
        paused_state: None,
        paused_runtime_stopped: true,
        resume_recovery_pending: false,
    }
}

fn document(json: &str) -> Document {
    Document { json: json.to_owned() }
}

fn versions(name: &str) -> SnapshotRuntimeVersions {
    SnapshotRuntimeVersions {
        kernel: name.to_owned(),
        firecracker: name.to_owned(),
        envd: name.to_owned(),
        tools: name.to_owned(),
    }
}

fn identity(key: &str, fingerprint: &str) -> CreateSandboxIdempotency {
    match CreateSandboxIdempotency::new(key.to_owned(), fingerprint.to_owned()) {
        Ok(identity) => identity,
        Err(fault) => panic!("{}", fault.to_text()),
    }
}

fn record(key: &str, id: SandboxId, state: CreateIdempotencyRecordState) -> CreateIdempotencyRecord {
    CreateIdempotencyRecord {
        key: key.to_owned(),
        request_fingerprint: "print".to_owned(),
        sandbox_id: id,
        state,
    }
}

fn internal(error: OrchestratorError) -> String {
    match error {
        OrchestratorError::InternalError { fault } => fault.to_text(),
        other => panic!("{other:?}"),
    }
}

// Create requests.

fn node() -> NodeSettings {
    NodeSettings {
        virtualization_mode: VirtualizationMode::Kvm,
        default_timeout: 900,
        fresh_resources: default_fresh_sandbox_resources(4, 2048),
        runtime_versions: versions("node"),
    }
}

fn request(source: SandboxLaunchSource) -> CreateSandboxRequest {
    CreateSandboxRequest {
        source,
        timeout: None,
        timeout_action: SandboxTimeoutAction::Delete,
        auto_resume: true,
        user_metadata: Some(document("{}")),
        env_vars: Some(document("[]")),
        network_policy: document("null"),
        secure: true,
        idempotency: Some(identity("key", "print")),
        custom_extension_params: None,
    }
}

fn snapshot(mode: VirtualizationMode) -> SandboxLaunchSource {
    SandboxLaunchSource::Snapshot {
        snapshot_id: "base".to_owned(),
        alias: Some("latest".to_owned()),
        virtualization_mode: mode,
        runtime_versions: versions("snapshot"),
        resources: SandboxResources { cpu_count: 1, memory_mib: 2, disk_size_mib: 3 },
        context: document("context"),
        startup: Some(document("startup")),
        image_configs: Some(document("configs")),
        custom_extension_params: Some(document("inherited")),
    }
}

fn image(resources: Option<SandboxResources>) -> SandboxLaunchSource {
    SandboxLaunchSource::Image {
        image_ref: "registry/image".to_owned(),
        overlaybd_config_path: StorePath::from_text("/images/config"),
        context: document("context"),
        resources,
        extra_drives: document("drives"),
        extra_boot_args: Some("quiet".to_owned()),
        image_configs: None,
    }
}

#[test]
fn a_snapshot_is_launched_with_what_it_holds() {
    let plan = match create_sandbox_inner(
        ID,
        request(snapshot(VirtualizationMode::Kvm)),
        &node(),
        false,
        40,
    ) {
        Ok(plan) => plan,
        Err(error) => panic!("{error:?}"),
    };
    assert!(matches!(plan.source, CreateLaunchSource::Snapshot { ref snapshot_id } if snapshot_id == "base"));
    assert_eq!(plan.config.snapshot_id, "base");
    assert!(plan.config.with_access_token);
    assert_eq!(plan.config.image_configs.as_ref().map(|d| d.json.as_str()), Some("configs"));
    assert_eq!(
        plan.config.custom_extension_params.as_ref().map(|d| d.json.as_str()),
        Some("inherited"),
    );
    assert_eq!(plan.launch.timeout, NewTimeout::After(900));
    let LaunchKind::Create { metadata } = plan.launch.kind else {
        panic!("a sandbox is created");
    };
    assert_eq!(metadata.id, ID);
    assert_eq!(metadata.state, SandboxState::Creating);
    assert_eq!(metadata.snapshot_alias.as_deref(), Some("latest"));
    assert_eq!(metadata.runtime_versions.kernel, "snapshot");
    assert_eq!(metadata.create_idempotency_key.as_deref(), Some("key"));
    assert_eq!(metadata.create_request_fingerprint.as_deref(), Some("print"));
    assert_eq!(metadata.created_at, 40);
    assert_eq!(metadata.resources.disk_size_mib, 3);
    assert_eq!(
        metadata.custom_extension_params.as_ref().map(|d| d.json.as_str()),
        Some("inherited"),
    );
    let event = create_event(&metadata);
    assert_eq!(event.event_type, SandboxLifecycleEventType::Create);
    assert_eq!(event.sandbox_id, ID);
}

#[test]
fn launch_parameters_come_before_inherited_ones() {
    let mut request = request(snapshot(VirtualizationMode::Kvm));
    request.custom_extension_params = Some(document("given"));
    request.timeout = Some(5);
    let plan = match create_sandbox_inner(ID, request, &node(), false, 40) {
        Ok(plan) => plan,
        Err(error) => panic!("{error:?}"),
    };
    assert_eq!(
        plan.config.custom_extension_params.as_ref().map(|d| d.json.as_str()),
        Some("given"),
    );
    assert_eq!(plan.launch.timeout, NewTimeout::After(5));
}

#[test]
fn an_image_is_launched_with_what_the_node_has() {
    let plan = match create_sandbox_inner(ID, request(image(None)), &node(), false, 40) {
        Ok(plan) => plan,
        Err(error) => panic!("{error:?}"),
    };
    let CreateLaunchSource::Fresh { image_config_path, resources, extra_boot_args, .. } =
        plan.source
    else {
        panic!("a fresh sandbox is built");
    };
    assert_eq!(image_config_path.to_text(), "/images/config");
    assert_eq!(resources, SandboxResources { cpu_count: 4, memory_mib: 2048, disk_size_mib: 0 });
    assert_eq!(extra_boot_args.as_deref(), Some("quiet"));
    let LaunchKind::Create { metadata } = plan.launch.kind else {
        panic!("a sandbox is created");
    };
    assert_eq!(metadata.snapshot_id, "registry/image");
    assert_eq!(metadata.snapshot_alias, None);
    assert_eq!(metadata.runtime_versions.kernel, "node");
    assert!(metadata.startup.is_none());
}

#[test]
fn creates_are_refused_for_a_reason() {
    let refusal = create_sandbox_inner(
        ID,
        request(snapshot(VirtualizationMode::Pvm)),
        &node(),
        false,
        40,
    );
    let Err(OrchestratorError::VirtualizationModeMismatch { resource, resource_mode, node_mode }) =
        refusal
    else {
        panic!("the modes differ");
    };
    assert_eq!(resource.to_text(), "snapshot base");
    assert_eq!(resource_mode, VirtualizationMode::Pvm);
    assert_eq!(node_mode, VirtualizationMode::Kvm);
    assert!(matches!(
        create_sandbox_inner(ID, request(image(None)), &node(), true, 40),
        Err(OrchestratorError::ShuttingDown)
    ));
}

#[test]
fn create_identities_are_validated() {
    let fault = |key: &str, fingerprint: &str| {
        match CreateSandboxIdempotency::new(key.to_owned(), fingerprint.to_owned()) {
            Err(fault) => fault,
            Ok(_) => panic!("the identity is invalid"),
        }
    };
    assert!(matches!(fault("", "print"), CreateIdempotencyFault::EmptyKey));
    assert!(matches!(fault(&"k".repeat(129), "print"), CreateIdempotencyFault::LongKey));
    assert!(matches!(fault("key", ""), CreateIdempotencyFault::EmptyFingerprint));
    let longest = identity(&"k".repeat(128), "print");
    assert_eq!(longest.key().len(), 128);
    assert_eq!(longest.request_fingerprint(), "print");
}

// Create claims.

fn claimed(table: &mut CreateTable, key: &str) -> u64 {
    let ClaimStep::Persist { record } =
        table.claim_create_idempotency(&identity(key, "print"), ID)
    else {
        panic!("the key is free");
    };
    match table.publish_claim(record) {
        Some(token) => token,
        None => panic!("the key is claimed"),
    }
}

#[test]
fn a_claim_is_published_once_its_record_is_written() {
    let mut table = CreateTable::new();
    let ClaimStep::Persist { record: written } =
        table.claim_create_idempotency(&identity("key", "print"), ID)
    else {
        panic!("the key is free");
    };
    assert_eq!(written.key, "key");
    assert_eq!(written.request_fingerprint, "print");
    assert_eq!(written.sandbox_id, ID);
    assert_eq!(written.state, CreateIdempotencyRecordState::Creating);
    assert!(table.get("key").is_none());
    let token = table.publish_claim(written);
    assert!(token.is_some());
    assert_eq!(table.get("key").map(|entry| entry.token), token);
    assert_eq!(
        table.publish_claim(record("key", OTHER, CreateIdempotencyRecordState::Creating)),
        None,
    );
}

#[test]
fn a_claimed_key_is_replayed_or_refused() {
    let mut table = CreateTable::new();
    let token = claimed(&mut table, "key");
    assert!(matches!(
        table.claim_create_idempotency(&identity("key", "print"), OTHER),
        ClaimStep::Replay { token: found } if found == token
    ));
    assert!(matches!(
        table.claim_create_idempotency(&identity("key", "another"), OTHER),
        ClaimStep::Conflict {
            error: OrchestratorError::CreateIdempotencyConflict { ref key }
        } if key == "key"
    ));
    assert!(matches!(
        table.replay_create_if_present(&identity("key", "print")),
        Ok(Some(found)) if found == token
    ));
    assert!(matches!(table.replay_create_if_present(&identity("free", "print")), Ok(None)));
    assert!(matches!(
        table.replay_create_if_present(&identity("key", "another")),
        Err(OrchestratorError::CreateIdempotencyConflict { .. })
    ));
}

#[test]
fn a_success_is_reported_once_it_is_written() {
    let mut table = CreateTable::new();
    let key = "key".to_owned();
    let token = claimed(&mut table, "key");
    let FinishStep::PersistSuccess { record: written, metadata: created } =
        table.finish_idempotent_create(&key, token, Ok(metadata(ID)))
    else {
        panic!("the success is written");
    };
    assert_eq!(written.state, CreateIdempotencyRecordState::Succeeded);
    assert!(table.conclude_success(&key, token, created, Ok(())).is_ok());
    let Some(entry) = table.get("key") else {
        panic!("the key is claimed");
    };
    assert!(matches!(
        replay_idempotent_create(entry),
        ReplayStep::Fetch { sandbox_id: ID }
    ));
    assert!(replayed_metadata(&key, Some(metadata(ID))).is_ok());
    assert!(matches!(
        replayed_metadata(&key, None),
        Err(OrchestratorError::CreateIdempotencyResultUnavailable { .. })
    ));
}

#[test]
fn an_unwritten_success_is_never_reported() {
    let mut table = CreateTable::new();
    let key = "key".to_owned();
    let token = claimed(&mut table, "key");
    let outcome = table.conclude_success(
        &key,
        token,
        metadata(ID),
        Err(SandboxPersistenceError::Store {
            operation: "put".to_owned(),
            source: "full".to_owned(),
        }),
    );
    assert!(matches!(outcome, Err(OrchestratorError::Persistence { .. })));
    let Some(entry) = table.get("key") else {
        panic!("the key is claimed");
    };
    let ReplayStep::Fail { error } = replay_idempotent_create(entry) else {
        panic!("the create failed");
    };
    assert!(internal(error).starts_with(
        "idempotent create for key 'key' failed: failed to persist successful create result: "
    ));
}

#[test]
fn a_failed_create_stays_failed() {
    let mut table = CreateTable::new();
    let key = "key".to_owned();
    let token = claimed(&mut table, "key");
    let FinishStep::PersistFailure { record: written, error } =
        table.finish_idempotent_create(&key, token, Err(OrchestratorError::ShuttingDown))
    else {
        panic!("the failure is written");
    };
    assert_eq!(written.state, CreateIdempotencyRecordState::Failed);
    let outcome = table.conclude_failure(&key, token, error, "shutting down".to_owned());
    assert!(matches!(outcome, Err(OrchestratorError::ShuttingDown)));
    let Some(entry) = table.get("key") else {
        panic!("the key is claimed");
    };
    let ReplayStep::Fail { error } = replay_idempotent_create(entry) else {
        panic!("the create failed");
    };
    assert_eq!(internal(error), "idempotent create for key 'key' failed: shutting down");
}

#[test]
fn an_abandoned_create_fails() {
    let mut table = CreateTable::new();
    let key = "key".to_owned();
    let token = claimed(&mut table, "key");
    assert!(matches!(
        table.get("key").map(replay_idempotent_create),
        Some(ReplayStep::Wait)
    ));
    table.abandon(&key, token + 1);
    assert!(matches!(
        table.get("key").map(|entry| &entry.state),
        Some(CreateIdempotencyState::Creating)
    ));
    table.abandon(&key, token);
    assert!(matches!(
        table.get("key").map(|entry| &entry.state),
        Some(CreateIdempotencyState::Failed { message })
            if message == "create operation ended unexpectedly"
    ));
}

#[test]
fn a_claim_under_deletion_is_not_written_over() {
    let mut table = CreateTable::new();
    let key = "key".to_owned();
    let token = claimed(&mut table, "key");
    assert!(matches!(
        table.idempotent_delete_entry(ID, &Some(key.clone())),
        Ok(Some(found)) if found == token
    ));
    assert!(table.mark_create_entry_deleting(ID, &key, token).is_ok());
    assert_eq!(
        table.deleting_create_for_sandbox(ID).map(|entry| entry.token),
        Some(token),
    );
    assert!(table.deleting_create_for_sandbox(OTHER).is_none());
    assert!(matches!(
        table.finish_idempotent_create(&key, token, Ok(metadata(ID))),
        FinishStep::Return {
            outcome: Err(OrchestratorError::CreateIdempotencyResultUnavailable { .. })
        }
    ));
    assert!(matches!(
        table.get("key").map(replay_idempotent_create),
        Some(ReplayStep::Fail {
            error: OrchestratorError::CreateIdempotencyResultUnavailable { .. }
        })
    ));
    let step = table.finish_durable_sandbox_delete(&key, token);
    let ReleaseStep::Record { record: written } = &step else {
        panic!("the claim is current");
    };
    assert_eq!(written.state, CreateIdempotencyRecordState::Deleting);
    assert!(matches!(
        table.finish_durable_sandbox_delete(&key, token + 1),
        ReleaseStep::Done(Ok(()))
    ));
    let step = step.next(Ok(()));
    assert!(matches!(step, ReleaseStep::DeleteArtifacts { .. }));
    let step = step.next(Ok(()));
    assert!(matches!(step, ReleaseStep::DeleteRecord { .. }));
    let step = step.next(Ok(()));
    assert!(matches!(step, ReleaseStep::Release));
    assert!(matches!(step.next(Ok(())), ReleaseStep::Done(Ok(()))));
    assert!(matches!(
        table
            .finish_durable_sandbox_delete(&key, token)
            .next(Err(SandboxPersistenceError::Store {
                operation: "put".to_owned(),
                source: "full".to_owned(),
            })),
        ReleaseStep::Done(Err(OrchestratorError::Persistence { .. }))
    ));
    table.release(&key, token + 1);
    assert!(table.get("key").is_some());
    table.release(&key, token);
    assert!(table.get("key").is_none());
    assert_ne!(claimed(&mut table, "key"), token);
}

#[test]
fn a_delete_only_finds_its_own_claim() {
    let mut table = CreateTable::new();
    let token = claimed(&mut table, "key");
    assert!(matches!(table.idempotent_delete_entry(ID, &None), Ok(None)));
    let Err(error) = table.idempotent_delete_entry(OTHER, &Some("key".to_owned())) else {
        panic!("the claim is foreign");
    };
    assert!(matches!(
        error,
        OrchestratorError::InternalError { fault: InternalFault::ForeignCreateEntry { owner: ID, .. } }
    ));
    let Err(error) = table.idempotent_delete_entry(ID, &Some("gone".to_owned())) else {
        panic!("the claim is missing");
    };
    assert!(matches!(
        error,
        OrchestratorError::InternalError { fault: InternalFault::MissingCreateEntry { .. } }
    ));
    let Err(error) = table.mark_create_entry_deleting(ID, &"key".to_owned(), token + 1) else {
        panic!("the claim changed");
    };
    assert!(matches!(
        error,
        OrchestratorError::InternalError { fault: InternalFault::ChangedCreateEntry { .. } }
    ));
}

#[test]
fn claims_are_restored_after_a_restart() {
    let table = CreateTable::restore_create_entries(vec![
        record("good", ID, CreateIdempotencyRecordState::Succeeded),
        record("bad", OTHER, CreateIdempotencyRecordState::Failed),
    ]);
    assert!(matches!(
        table.get("good").map(|entry| &entry.state),
        Some(CreateIdempotencyState::Succeeded)
    ));
    assert!(matches!(
        table.get("bad").map(|entry| &entry.state),
        Some(CreateIdempotencyState::Failed { message })
            if message == "previous create outcome is unavailable after restart"
    ));
}

// Startup.

#[test]
fn durable_creates_are_validated() {
    let Ok(records) = validate_durable_create_records(vec![
        record("a", ID, CreateIdempotencyRecordState::Succeeded),
        record("b", OTHER, CreateIdempotencyRecordState::Creating),
    ]) else {
        panic!("the records are valid");
    };
    assert_eq!(records.len(), 2);

    let Err(error) = validate_durable_create_records(vec![
        record("a", ID, CreateIdempotencyRecordState::Succeeded),
        record("a", OTHER, CreateIdempotencyRecordState::Failed),
    ]) else {
        panic!("the key is there twice");
    };
    assert_eq!(internal(error), "duplicate durable create idempotency key 'a'");

    let Err(error) = validate_durable_create_records(vec![record(
        "",
        ID,
        CreateIdempotencyRecordState::Succeeded,
    )]) else {
        panic!("the key is empty");
    };
    assert!(internal(error).starts_with(
        "invalid durable create idempotency record for sandbox \
         00000000-0000-0000-0000-000000000007: "
    ));
}

fn paused_with(id: SandboxId, key: Option<&str>, fingerprint: Option<&str>) -> SandboxMetadata {
    let mut paused = metadata(id);
    paused.create_idempotency_key = key.map(str::to_owned);
    paused.create_request_fingerprint = fingerprint.map(str::to_owned);
    paused
}

#[test]
fn a_paused_sandbox_brings_its_key_along() {
    let mut seen: Vec<PausedKey> = Vec::new();
    let mut durable = vec![record("old", ID, CreateIdempotencyRecordState::Creating)];
    let Ok(Some(written)) = migrate_paused_create_record(
        &paused_with(ID, Some("old"), Some("print")),
        &mut seen,
        &mut durable,
    ) else {
        panic!("an interrupted create is settled");
    };
    assert_eq!(written.state, CreateIdempotencyRecordState::Succeeded);
    assert_eq!(durable[0].state, CreateIdempotencyRecordState::Succeeded);

    let Ok(Some(written)) = migrate_paused_create_record(
        &paused_with(OTHER, Some("new"), Some("print")),
        &mut seen,
        &mut durable,
    ) else {
        panic!("a missing record is written");
    };
    assert_eq!(written.key, "new");
    assert_eq!(durable.len(), 2);
    assert_eq!(seen.len(), 2);

    let mut unclaimed: Vec<PausedKey> = Vec::new();
    assert!(matches!(
        migrate_paused_create_record(&paused_with(ID, None, None), &mut unclaimed, &mut durable),
        Ok(None)
    ));
    assert!(unclaimed.is_empty());
    assert!(matches!(
        migrate_paused_create_record(
            &paused_with(ID, Some("old"), Some("print")),
            &mut unclaimed,
            &mut durable,
        ),
        Ok(None)
    ));
}

#[test]
fn keys_that_contradict_each_other_stop_a_startup() {
    let fault = |paused: SandboxMetadata, seen: &mut Vec<PausedKey>| {
        let mut durable = vec![
            record("other", OTHER, CreateIdempotencyRecordState::Succeeded),
            record("failed", ID, CreateIdempotencyRecordState::Failed),
        ];
        match migrate_paused_create_record(&paused, seen, &mut durable) {
            Err(error) => internal(error),
            Ok(_) => panic!("the startup stops"),
        }
    };
    let name = "00000000-0000-0000-0000-000000000007";
    assert_eq!(
        fault(paused_with(ID, Some("k"), None), &mut Vec::new()),
        format!("sandbox {name} has incomplete create idempotency metadata"),
    );
    assert!(fault(paused_with(ID, Some(""), Some("print")), &mut Vec::new())
        .starts_with(&format!("sandbox {name} has invalid create idempotency metadata: ")));
    assert_eq!(
        fault(paused_with(ID, Some("other"), Some("print")), &mut Vec::new()),
        format!("paused sandbox {name} conflicts with durable create idempotency key 'other'"),
    );
    assert_eq!(
        fault(paused_with(ID, Some("failed"), Some("print")), &mut Vec::new()),
        format!("paused sandbox {name} conflicts with failed create idempotency key 'failed'"),
    );
    let mut seen = vec![PausedKey { key: "k".to_owned(), sandbox_id: OTHER }];
    assert_eq!(
        fault(paused_with(ID, Some("k"), Some("print")), &mut seen),
        format!(
            "paused sandboxes 00000000-0000-0000-0000-000000000008 and {name} share create \
             idempotency key 'k'"
        ),
    );
}

#[test]
fn an_interrupted_create_fails_closed() {
    let refused = || SandboxPersistenceError::Store {
        operation: "put".to_owned(),
        source: "full".to_owned(),
    };
    let start = |state| {
        InterruptedCreate::reconcile_interrupted_create_record(record("key", ID, state))
    };
    let step = start(CreateIdempotencyRecordState::Creating);
    let InterruptedCreate::Fail { record: written } = &step else {
        panic!("the create failed");
    };
    assert_eq!(written.state, CreateIdempotencyRecordState::Failed);
    assert!(matches!(step.next(Ok(())), InterruptedCreate::Kept { .. }));
    assert!(matches!(
        start(CreateIdempotencyRecordState::Creating).next(Err(refused())),
        InterruptedCreate::Aborted { .. }
    ));
    assert!(matches!(
        start(CreateIdempotencyRecordState::Succeeded),
        InterruptedCreate::Kept { .. }
    ));

    let released = start(CreateIdempotencyRecordState::Deleting).next(Ok(())).next(Ok(()));
    assert!(matches!(released, InterruptedCreate::Released { sandbox_id: ID }));
    let purged = start(CreateIdempotencyRecordState::Deleting).next(Err(
        SandboxPersistenceError::ManualRecovery {
            sandbox_id: ID,
            reason: "quarantined".to_owned(),
        },
    ));
    assert!(matches!(purged, InterruptedCreate::Release { .. }));
    let kept = start(CreateIdempotencyRecordState::Deleting).next(Err(refused()));
    let InterruptedCreate::Fail { record: written } = &kept else {
        panic!("the key is kept");
    };
    assert_eq!(written.state, CreateIdempotencyRecordState::Failed);
}

#[test]
fn a_snapshot_counts_every_sandbox_once() {
    let mut running = metadata(OTHER);
    running.state = SandboxState::Running;
    running.resources.cpu_count = 8;
    let snapshot = metrics_snapshot(&vec![metadata(ID), running], 5, 2);
    assert_eq!((snapshot.create_successes, snapshot.create_fails), (5, 2));
    let told: Vec<_> =
        snapshot.contributions.iter().map(|one| (one.state, one.resources.cpu_count)).collect();
    assert_eq!(told, [(SandboxState::Paused, 2), (SandboxState::Running, 8)]);
}

#[test]
fn a_startup_restores_what_is_left() {
    let kept = retain_undeleted(vec![metadata(ID), metadata(OTHER)], &vec![OTHER]);
    assert_eq!(kept.iter().map(|m| m.id).collect::<Vec<_>>(), [ID]);

    let mut secure = metadata(OTHER);
    secure.secure = true;
    assert!(!managed_seed_must_exist(&vec![metadata(ID)]));
    assert!(managed_seed_must_exist(&vec![metadata(ID), secure]));

    let mut paused = metadata(ID);
    paused.paused_state = Some(PausedStateRef { handle: 2 });
    let mut running = metadata(OTHER);
    running.state = SandboxState::Running;
    running.paused_state = Some(PausedStateRef { handle: 3 });
    assert_eq!(
        restored_paused(&vec![running, paused, metadata(OTHER)]),
        [RestoredPaused { sandbox_id: ID, paused_state: PausedStateRef { handle: 2 } }],
    );
}

// Routes.

#[test]
fn routes_follow_the_runtime() {
    let target = ProxyTarget::new(10, 0, 0, 1);
    assert_eq!(target.to_text(), "10.0.0.1");
    let mut table = RuntimeTable::new();
    assert!(!table.upsert_proxy_route_if_current_handle(ID, 1, target));
    table.attach(ID, 1);
    assert_eq!(table.runtime(ID), Some(1));
    assert!(!table.upsert_proxy_route_if_current_handle(ID, 2, target));
    assert!(table.upsert_proxy_route_if_current_handle(ID, 1, target));
    assert_eq!(table.route(ID), Some(ProxyRoute { target, version: 1 }));

    let (runtime, route) = table.detach_sandbox_handle_and_route(ID);
    assert_eq!(runtime, Some(1));
    assert_eq!(route, Some(ProxyRoute { target, version: 1 }));
    assert_eq!(table.runtime(ID), None);
    assert_eq!(table.route(ID), None);
    table.restore_proxy_route(ID, None);
    assert_eq!(table.route(ID), None);
    table.restore_proxy_route(ID, route);
    assert_eq!(table.route(ID), Some(ProxyRoute { target, version: 2 }));
    table.upsert_proxy_route(OTHER, target);
    assert_eq!(table.route(OTHER), Some(ProxyRoute { target, version: 3 }));
}

#[test]
fn only_a_current_runtime_is_rolled_back() {
    let target = ProxyTarget::new(10, 0, 0, 1);
    let mut table = RuntimeTable::new();
    assert!(table.detach_launch_runtime_if_current(ID, 1, true));
    table.attach(ID, 2);
    table.upsert_proxy_route(ID, target);
    assert!(!table.detach_launch_runtime_if_current(ID, 1, true));
    assert_eq!(table.runtime(ID), Some(2));
    assert!(table.detach_launch_runtime_if_current(ID, 2, false));
    assert_eq!(table.runtime(ID), None);
    assert!(table.route(ID).is_some());
    table.attach(ID, 3);
    assert!(table.detach_launch_runtime_if_current(ID, 3, true));
    assert!(table.route(ID).is_none());
}

#[test]
fn lookups_tell_why_there_is_no_route() {
    let target = ProxyTarget::new(10, 0, 0, 1);
    let in_state = |state| {
        let mut found = metadata(ID);
        found.state = state;
        found.auto_resume = true;
        Some(found)
    };
    assert_eq!(
        proxy_lookup_for(Some(ProxyRoute { target, version: 1 }), &None),
        ProxyLookupResult::Ready(target),
    );
    assert_eq!(proxy_lookup_for(None, &None), ProxyLookupResult::NotFound);
    assert_eq!(
        proxy_lookup_for(None, &in_state(SandboxState::Running)),
        ProxyLookupResult::RouteMissing,
    );
    assert_eq!(
        proxy_lookup_for(None, &in_state(SandboxState::Paused)),
        ProxyLookupResult::Paused { auto_resume: true },
    );
    assert_eq!(
        proxy_lookup_for(None, &in_state(SandboxState::Killing)),
        ProxyLookupResult::Unavailable(SandboxState::Killing),
    );
}

// The end of a node.

#[test]
fn a_shutdown_preserves_what_runs() {
    assert_eq!(shutdown_task(SandboxState::Running), ShutdownTask::Pause);
    assert_eq!(shutdown_task(SandboxState::Paused), ShutdownTask::Nothing);
    assert_eq!(
        shutdown_task(SandboxState::Killing),
        ShutdownTask::AwaitLeaving { state: SandboxState::Killing },
    );
}

#[test]
fn a_shutdown_gives_up_after_its_passes() {
    let mut run = ShutdownRun::new();
    for _ in 0..3 {
        assert!(run.has_pass_left());
        assert_eq!(run.begin_pass(2), PassDecision::GoThrough);
        run.record(ID, "busy");
        run.record(OTHER, "gone wrong");
    }
    assert!(!run.has_pass_left());
    assert_eq!(run.begin_pass(2), PassDecision::End);
    let Err(error) = run.run_shutdown_cleanup() else {
        panic!("the shutdown failed");
    };
    let outcome = ShutdownOutcome::from_result(Err(error), String::new());
    let Err(error) = outcome.as_result() else {
        panic!("the shutdown failed");
    };
    assert_eq!(
        internal(error),
        "failed to preserve all sandboxes during shutdown after 3 passes: \
         00000000-0000-0000-0000-000000000007: busy, \
         00000000-0000-0000-0000-000000000008: gone wrong",
    );
}

#[test]
fn a_later_pass_may_make_up_for_an_earlier_one() {
    let mut run = ShutdownRun::new();
    assert_eq!(run.begin_pass(1), PassDecision::GoThrough);
    run.record(ID, "busy");
    assert_eq!(run.begin_pass(1), PassDecision::GoThrough);
    assert_eq!(run.begin_pass(0), PassDecision::End);
    assert!(run.run_shutdown_cleanup().is_ok());
    assert!(ShutdownOutcome::from_result(Ok(()), String::new()).as_result().is_ok());
    let other = ShutdownOutcome::from_result(
        Err(OrchestratorError::ShuttingDown),
        "shutting down".to_owned(),
    );
    assert!(matches!(other, ShutdownOutcome::Failed { message } if message == "shutting down"));
}

#[test]
fn only_running_sandboxes_are_evicted() {
    let mut running = metadata(ID);
    running.state = SandboxState::Running;
    running.timeout_action = SandboxTimeoutAction::Delete;
    let expired = vec![metadata(OTHER), running];
    assert_eq!(
        evict_expired_sandboxes(false, &expired),
        [Eviction { sandbox_id: ID, action: SandboxTimeoutAction::Delete }],
    );
    assert!(evict_expired_sandboxes(true, &expired).is_empty());
}

// Resources.

#[test]
fn disk_sizes_are_rounded_up() {
    let resources = default_fresh_sandbox_resources(2, 512);
    let disk = |size| resources_with_runtime_info(resources, size).disk_size_mib;
    assert_eq!(disk(None), 0);
    assert_eq!(disk(Some(0)), 0);
    assert_eq!(disk(Some(1)), 1);
    assert_eq!(disk(Some(1048576)), 1);
    assert_eq!(disk(Some(1048577)), 2);
    assert_eq!(disk(Some(u64::MAX)), 17592186044416);
}

#[test]
fn unset_versions_are_unknown() {
    let versions = configured_runtime_versions(
        &None,
        &Some("1.7".to_owned()),
        &"0.2".to_owned(),
        &"3".to_owned(),
    );
    assert_eq!(versions.kernel, "unknown");
    assert_eq!(versions.firecracker, "1.7");
    assert_eq!(versions.envd, "0.2");
    assert_eq!(versions.tools, "3");
}

#[test]
fn lists_hold_what_the_filter_asks_for() {
    let running = |id: u128, json: &str| {
        let mut running = metadata(SandboxId { value: id });
        running.state = SandboxState::Running;
        running.user_metadata = Some(document(json));
        running
    };
    let sandboxes = vec![
        metadata(SandboxId { value: 1 }),
        running(2, "{\"team\":\"a\",\"stage\":\"x\"}"),
        running(3, "{\"team\":\"b\"}"),
        running(4, "{\"team\":\"a\"}"),
    ];
    let ids = |filter: SandboxListFilter| -> Vec<u128> {
        list_sandboxes_filtered(&sandboxes, &filter)
            .iter()
            .map(|listed| listed.id.value)
            .collect()
    };
    let all = || SandboxListFilter { states: None, excluded_states: None, user_metadata: None };
    assert_eq!(ids(all()), vec![1, 2, 3, 4]);
    let paused = Some(vec![SandboxState::Paused]);
    assert_eq!(ids(SandboxListFilter { states: paused.clone(), ..all() }), vec![1]);
    assert_eq!(ids(SandboxListFilter { excluded_states: paused, ..all() }), vec![2, 3, 4]);
    assert!(ids(SandboxListFilter { states: Some(Vec::new()), ..all() }).is_empty());
    let pair = |key: &str, value: &str| (key.to_owned(), value.to_owned());
    let team = Some(vec![pair("team", "a")]);
    assert_eq!(ids(SandboxListFilter { user_metadata: team, ..all() }), vec![2, 4]);
    let both = Some(vec![pair("team", "a"), pair("stage", "x")]);
    assert_eq!(ids(SandboxListFilter { user_metadata: both, ..all() }), vec![2]);
    let nothing = Some(Vec::new());
    assert_eq!(ids(SandboxListFilter { user_metadata: nothing, ..all() }), vec![1, 2, 3, 4]);
}

fn create_record(key: &str, value: u128, state: CreateIdempotencyRecordState) -> CreateIdempotencyRecord {
    CreateIdempotencyRecord {
        key: key.to_owned(),
        request_fingerprint: "0123456789abcdef".repeat(4),
        sandbox_id: SandboxId { value },
        state,
    }
}

fn created(key: &str, value: u128) -> SandboxMetadata {
    let mut created = metadata(SandboxId { value });
    created.create_idempotency_key = Some(key.to_owned());
    created.create_request_fingerprint = Some("0123456789abcdef".repeat(4));
    created
}

#[test]
fn create_keys_are_brought_back_in_order() {
    let records = vec![
        create_record("gone", 1, CreateIdempotencyRecordState::Deleting),
        create_record("lost", 2, CreateIdempotencyRecordState::Creating),
        create_record("done", 3, CreateIdempotencyRecordState::Succeeded),
    ];
    let found = vec![created("gone", 1), created("new", 4)];
    let run = RestoreRun::restore_create_idempotency(found, records);
    let RestoreStep::Migrate { record } = run.step() else {
        panic!("the paused sandbox without a record comes first");
    };
    assert_eq!(record.key, "new");
    assert_eq!(record.state, CreateIdempotencyRecordState::Succeeded);
    let run = run.next(Ok(()));
    assert!(matches!(
        run.step(),
        RestoreStep::Reconcile { step: InterruptedCreate::Delete { record } } if record.key == "gone"
    ));
    let run = run.next(Ok(()));
    assert!(matches!(
        run.step(),
        RestoreStep::Reconcile { step: InterruptedCreate::Release { .. } }
    ));
    let run = run.next(Ok(()));
    let RestoreStep::Reconcile { step: InterruptedCreate::Fail { record } } = run.step() else {
        panic!("the interrupted create fails");
    };
    assert_eq!(record.key, "lost");
    assert_eq!(record.state, CreateIdempotencyRecordState::Failed);
    let run = run.next(Ok(()));
    assert!(matches!(run.step(), RestoreStep::Restored));
    let Ok((found, table)) = run.finish() else {
        panic!("every record is settled");
    };
    assert_eq!(found.iter().map(|kept| kept.id.value).collect::<Vec<_>>(), vec![4]);
    assert!(table.get("gone").is_none());
    for key in ["lost", "done", "new"] {
        assert!(table.get(key).is_some());
    }
}

#[test]
fn a_sandbox_that_stays_keeps_its_create_key() {
    let failure = SandboxPersistenceError::store("delete", "busy".to_owned());
    let records = vec![
        create_record("undeletable", 1, CreateIdempotencyRecordState::Deleting),
        create_record("interrupted", 2, CreateIdempotencyRecordState::Creating),
    ];
    let found = vec![created("undeletable", 1), created("interrupted", 2), created("new", 3)];
    let mut run = RestoreRun::restore_create_idempotency(found, records);
    let mut refused = Some(failure);
    loop {
        let outcome = match run.step() {
            RestoreStep::Restored | RestoreStep::Aborted { .. } => break,
            RestoreStep::Reconcile { step: InterruptedCreate::Delete { .. } } => {
                Err(refused.take().unwrap())
            }
            _ => Ok(()),
        };
        run = run.next(outcome);
    }
    let Ok((found, table)) = run.finish() else {
        panic!("every record is settled");
    };
    assert_eq!(found.iter().map(|kept| kept.id.value).collect::<Vec<_>>(), vec![1, 2, 3]);
    for metadata in &found {
        let entry = table.get(metadata.create_idempotency_key.as_deref().unwrap()).unwrap();
        assert_eq!(entry.sandbox_id, metadata.id);
        assert_eq!(Some(&entry.request_fingerprint), metadata.create_request_fingerprint.as_ref());
    }
}

#[test]
fn a_failed_write_keeps_a_node_from_starting() {
    let failure = || SandboxPersistenceError::store("put", "full".to_owned());
    let run = RestoreRun::restore_create_idempotency(vec![created("new", 4)], Vec::new());
    let run = run.next(Err(failure()));
    assert!(matches!(run.finish(), Err(OrchestratorError::Persistence { .. })));
    let twice = || create_record("key", 1, CreateIdempotencyRecordState::Succeeded);
    let run = RestoreRun::restore_create_idempotency(Vec::new(), vec![twice(), twice()]);
    assert!(matches!(
        run.finish(),
        Err(OrchestratorError::InternalError { fault: InternalFault::DuplicateCreateKey { .. } })
    ));
    let run = RestoreRun::restore_create_idempotency(Vec::new(), vec![twice()]);
    assert!(matches!(run.step(), RestoreStep::Restored));
}

#[test]
fn images_are_protected_before_maintenance() {
    let restored = vec![
        RestoredPaused { sandbox_id: ID, paused_state: PausedStateRef { handle: 1 } },
        RestoredPaused { sandbox_id: OTHER, paused_state: PausedStateRef { handle: 2 } },
    ];
    let step = ProtectionStep::reconcile_paused_at_startup(&restored);
    assert!(matches!(step, ProtectionStep::Pin { at: 0 }));
    let step = step.next(&restored, Ok(()));
    assert!(matches!(step, ProtectionStep::Pin { at: 1 }));
    let step = step.next(&restored, Ok(()));
    assert!(matches!(step, ProtectionStep::ReconcilePaused));
    assert!(matches!(step.next(&restored, Ok(())), ProtectionStep::Protected));
    let unpinned = ProtectionStep::Pin { at: 1 }.next(&restored, Err("io".to_owned()));
    let ProtectionStep::Failed { error } = unpinned else {
        panic!("an unprotected sandbox stops the rest");
    };
    assert!(matches!(
        error,
        OrchestratorError::InternalError { fault: InternalFault::ImagePin { .. } }
    ));
    let none = Vec::new();
    assert!(matches!(
        ProtectionStep::reconcile_paused_at_startup(&none),
        ProtectionStep::ReconcilePaused
    ));
    assert!(matches!(
        ProtectionStep::ReconcilePaused.next(&none, Err("io".to_owned())),
        ProtectionStep::Failed { .. }
    ));
}

#[test]
fn a_create_counts_once_and_publishes_where_it_succeeds() {
    let refused = report_create(&Err(OrchestratorError::ShuttingDown));
    assert_eq!(refused, CreateReport { succeeded: 0, failed: 1, event: None });
    let created = report_create(&Ok(metadata(ID)));
    assert_eq!((created.succeeded, created.failed), (1, 0));
    let event = created.event.unwrap();
    assert_eq!(event.event_type, SandboxLifecycleEventType::Create);
    assert_eq!(event.sandbox_id, ID);
}

#[test]
fn a_stale_token_is_not_given_out_again() {
    let record = || create_record("key", 1, CreateIdempotencyRecordState::Creating);
    let mut table = CreateTable::new();
    let first = table.publish_claim(record()).unwrap();
    table.release(&"key".to_owned(), first);
    let second = table.publish_claim(record()).unwrap();
    assert_ne!(first, second);
    table.release(&"key".to_owned(), first);
    assert!(table.get("key").is_some());
}
