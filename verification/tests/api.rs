use agentenv::api::auth::has_control_plane_auth;
use agentenv::api::disk_branch::{disk_branch, requested_branch, DiskBranchRequest};
use agentenv::api::host_interaction::{host_interaction_ip, lookup_conflict_message};
use agentenv::api::preservation::{
    command_of, guest_report, preservation_command, preservation_response, unknown_command,
    PreservationCommand,
};
use agentenv::api::reboot::{reboot, rebooted};
use agentenv::api::recovery::{permit_recovery, RecoveryCommand, RecoveryRefusal};
use agentenv::api::refusal::requested_sandbox;
use agentenv::ids::SandboxId;
use agentenv::orchestrator::error::OrchestratorError;
use agentenv::orchestrator::metadata::SandboxMetadata;
use agentenv::orchestrator::proxy::{ProxyLookupResult, ProxyTarget};
use agentenv::orchestrator::types::{
    SandboxResources, SandboxState, SandboxTimeoutAction, SnapshotRuntimeVersions,
    VirtualizationMode,
};
use agentenv::paths::StorePath;

fn metadata(stopped: bool, pending: bool) -> SandboxMetadata {
    SandboxMetadata {
        id: SandboxId { value: 7 },
        snapshot_id: "snapshot".to_owned(),
        snapshot_alias: None,
        virtualization_mode: VirtualizationMode::Kvm,
        runtime_versions: SnapshotRuntimeVersions {
            kernel: "kernel".to_owned(),
            firecracker: "firecracker".to_owned(),
            envd: "envd".to_owned(),
            tools: "tools-2".to_owned(),
        },
        resources: SandboxResources { cpu_count: 2, memory_mib: 512, disk_size_mib: 1024 },
        context: None,
        startup: None,
        image_configs: None,
        timeout_action: SandboxTimeoutAction::Pause,
        auto_resume: false,
        user_metadata: None,
        create_idempotency_key: None,
        create_request_fingerprint: None,
        network_policy: None,
        custom_extension_params: None,
        secure: false,
        state: SandboxState::Paused,
        created_at: 1,
        expires_at: None,
        timeout: None,
        paused_state: None,
        paused_runtime_stopped: stopped,
        resume_recovery_pending: pending,
    }
}

fn headers(name: &'static str, value: &[u8]) -> http::HeaderMap {
    let mut headers = http::HeaderMap::new();
    headers.insert(name, http::HeaderValue::from_bytes(value).unwrap());
    headers
}

#[test]
fn paused_and_missing_routes_explain_the_conflict() {
    assert!(
        lookup_conflict_message(&ProxyLookupResult::Paused { auto_resume: true }).contains("paused")
    );
    assert!(
        lookup_conflict_message(&ProxyLookupResult::Unavailable(SandboxState::Creating))
            .contains("Creating")
    );
    assert!(lookup_conflict_message(&ProxyLookupResult::RouteMissing).contains("missing"));
    assert_eq!(
        lookup_conflict_message(&ProxyLookupResult::Ready(ProxyTarget::new(10, 11, 0, 5))),
        "sandbox host interaction address is unavailable"
    );
}

#[test]
fn a_ready_sandbox_has_an_address() {
    let answer = host_interaction_ip(Ok(ProxyLookupResult::Ready(ProxyTarget::new(10, 11, 0, 5))));
    assert_eq!(answer.unwrap().host_interaction_ip, "10.11.0.5");
}

#[test]
fn a_sandbox_without_an_address_is_refused() {
    let missing = host_interaction_ip(Ok(ProxyLookupResult::NotFound)).unwrap_err();
    assert_eq!((missing.status, missing.message.as_str()), (404, "sandbox not found"));
    let paused =
        host_interaction_ip(Ok(ProxyLookupResult::Paused { auto_resume: false })).unwrap_err();
    assert_eq!(paused.status, 409);
    assert_eq!(paused.message, "sandbox host interaction address is unavailable while paused");
    let failed = host_interaction_ip(Err("store is closed".to_owned())).unwrap_err();
    assert_eq!((failed.status, failed.message.as_str()), (500, "store is closed"));
}

#[test]
fn either_credential_header_is_enough() {
    assert!(has_control_plane_auth(&headers("x-api-key", b"key")));
    assert!(has_control_plane_auth(&headers("x-admin-token", b"token")));
    assert!(!has_control_plane_auth(&http::HeaderMap::new()));
    assert!(!has_control_plane_auth(&headers("x-api-key", b"")));
    assert!(!has_control_plane_auth(&headers("x-api-key", &[0xe4])));
    assert!(!has_control_plane_auth(&headers("authorization", b"key")));
}

#[test]
fn requests_name_an_existing_sandbox() {
    let id = SandboxId { value: 7 };
    assert_eq!(requested_sandbox(true, &id.to_text()).unwrap(), id);
    let unauthorized = requested_sandbox(false, &id.to_text()).unwrap_err();
    assert_eq!((unauthorized.status, unauthorized.message.as_str()), (401, "API key is required"));
    let unknown = requested_sandbox(true, "nobody").unwrap_err();
    assert_eq!((unknown.status, unknown.message.as_str()), (404, "sandbox not found"));
}

#[test]
fn retry_keys_are_neither_empty_nor_overlong() {
    let id = SandboxId { value: 7 };
    let keyed = |key: Option<String>| DiskBranchRequest { idempotency_key: key };
    for key in [None, Some("k".to_owned()), Some("k".repeat(1024)), Some("\u{e9}".repeat(512))] {
        assert_eq!(requested_branch(true, &id.to_text(), &keyed(key)).unwrap(), id);
    }
    for key in ["".to_owned(), "k".repeat(1025), "\u{e9}".repeat(513)] {
        let refusal = requested_branch(true, &id.to_text(), &keyed(Some(key))).unwrap_err();
        assert_eq!(refusal.status, 400);
        assert_eq!(refusal.message, "idempotency key must have 1 to 1024 bytes");
    }
    let empty = keyed(Some("".to_owned()));
    assert_eq!(requested_branch(false, &id.to_text(), &empty).unwrap_err().status, 401);
    assert_eq!(requested_branch(true, "nobody", &empty).unwrap_err().status, 404);
}

#[test]
fn a_branch_is_answered_by_its_image() {
    let answer = disk_branch(Ok("overlaybd-config:/image.json".to_owned()), "");
    assert_eq!(answer.unwrap().image, "overlaybd-config:/image.json");
    let sandbox_id = SandboxId { value: 7 };
    let missing = disk_branch(Err(OrchestratorError::SandboxNotFound { sandbox_id }), "gone");
    assert_eq!(missing.unwrap_err().message, "sandbox not found");
    let state = SandboxState::Pausing;
    let busy = disk_branch(Err(OrchestratorError::InvalidSandboxState { sandbox_id, state }), "");
    let busy = busy.unwrap_err();
    assert_eq!(busy.status, 409);
    assert_eq!(busy.message, "sandbox cannot be disk-branched from Pausing state");
    let failed = disk_branch(Err(OrchestratorError::ShuttingDown), "shutting down").unwrap_err();
    assert_eq!((failed.status, failed.message.as_str()), (500, "shutting down"));
}

#[test]
fn only_the_installed_tools_are_rebooted_into() {
    let id = SandboxId { value: 7 };
    assert_eq!(reboot(true, "tools-2", "tools-2", &id.to_text()).unwrap(), id);
    let other = reboot(true, "tools-1", "tools-2", &id.to_text()).unwrap_err();
    assert_eq!(other.status, 409);
    assert_eq!(other.message, "requested tools are not the node's installed release");
    assert_eq!(reboot(false, "tools-1", "tools-2", "nobody").unwrap_err().status, 401);
    assert_eq!(reboot(true, "tools-2", "tools-2", "nobody").unwrap_err().status, 404);
}

#[test]
fn a_reboot_is_answered_by_the_tools_it_brought() {
    let answer = rebooted(Ok(metadata(true, false)), "").unwrap();
    assert_eq!(answer.sandbox_id, SandboxId { value: 7 });
    assert_eq!(answer.tools_version, "tools-2");
    assert_eq!(answer.state, SandboxState::Paused);
    let sandbox_id = SandboxId { value: 7 };
    let state = SandboxState::Running;
    let busy = rebooted(Err(OrchestratorError::InvalidSandboxState { sandbox_id, state }), "");
    assert_eq!(busy.unwrap_err().message, "sandbox cannot reboot from Running");
}

#[test]
fn preservation_commands_are_short_lines() {
    assert_eq!(preservation_command("prepare\n"), Some(PreservationCommand::Prepare));
    assert_eq!(preservation_command("  status \r\n"), Some(PreservationCommand::Status));
    assert_eq!(preservation_command("stop\n"), Some(PreservationCommand::Unknown));
    assert_eq!(preservation_command(""), None);
    assert_eq!(preservation_command(&"a".repeat(32)), Some(PreservationCommand::Unknown));
    assert_eq!(preservation_command(&"a".repeat(33)), None);
    assert_eq!(command_of("prepare"), PreservationCommand::Prepare);
    assert_eq!(command_of("prepare "), PreservationCommand::Unknown);
    assert_eq!(unknown_command(), "expected prepare or status");
}

#[test]
fn guests_are_safe_only_with_a_stop_proof_and_no_pending_recovery() {
    let safe = guest_report(&metadata(true, false));
    assert!(safe.safely_checkpointed && !safe.requires_intervention);
    let pending = guest_report(&metadata(true, true));
    assert!(!pending.safely_checkpointed && pending.requires_intervention);
    let unproven = guest_report(&metadata(false, false));
    assert!(!unproven.safely_checkpointed && !unproven.requires_intervention);
}

#[test]
fn a_node_that_cannot_list_its_sandboxes_is_not_well() {
    let well = preservation_response(Ok(()), Ok(vec![metadata(true, false)]));
    assert_eq!(well.protocol, 1);
    assert!(well.ok);
    assert_eq!(well.guests.len(), 1);
    let unlisted = preservation_response(Ok(()), Err("store is closed".to_owned()));
    assert!(!unlisted.ok);
    assert_eq!(unlisted.error, None);
    assert_eq!(unlisted.inventory_error.as_deref(), Some("store is closed"));
    assert!(unlisted.guests.is_empty());
    let failed = preservation_response(Err("guests remain".to_owned()), Ok(Vec::new()));
    assert!(!failed.ok);
    assert_eq!(failed.error.as_deref(), Some("guests remain"));
}

#[test]
fn recovery_is_for_an_administrator_and_an_absolute_store() {
    let store = StorePath::from_text("/var/lib/aenv");
    let purge = |confirmed| RecoveryCommand::Purge { confirmed };
    assert_eq!(permit_recovery(&store, true, RecoveryCommand::List), Ok(()));
    assert_eq!(permit_recovery(&store, true, RecoveryCommand::Reconcile), Ok(()));
    assert_eq!(permit_recovery(&store, true, purge(true)), Ok(()));
    assert_eq!(
        permit_recovery(&store, true, purge(false)),
        Err(RecoveryRefusal::Unconfirmed)
    );
    assert_eq!(
        permit_recovery(&store, false, RecoveryCommand::List),
        Err(RecoveryRefusal::NotRoot)
    );
    assert_eq!(
        permit_recovery(&StorePath::from_text("aenv"), true, RecoveryCommand::List),
        Err(RecoveryRefusal::RelativeStore)
    );
    assert_eq!(RecoveryRefusal::RelativeStore.message(), "--store must be an absolute path");
    assert_eq!(RecoveryRefusal::Unconfirmed.message(), "refusing destructive purge without --yes");
    assert_eq!(
        RecoveryRefusal::NotRoot.message(),
        "aenv-paused-recovery must be run by a host administrator (effective UID 0)"
    );
}
