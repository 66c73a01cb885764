use agentenv::digest::sha256_hex;
use agentenv::ids::SandboxId;
use agentenv::orchestrator::metadata::SandboxMetadata;
use agentenv::orchestrator::persistence::codecs::{
    ManifestEntry, PersistedPausedIndex, PersistedPausedRecord,
};
use agentenv::orchestrator::persistence::error::{RecordFault, SandboxPersistenceError};
use agentenv::orchestrator::persistence::managed_paths::{
    ChildObservation, PathObservation, PathProbe, PurgeObservation,
};
use agentenv::orchestrator::persistence::paused_transactions::{
    PersistedPausedCommitState, PersistedPausedLifecycle,
};
use agentenv::orchestrator::persistence::quarantine::{
    decode_quarantine, list_quarantines, load_quarantine_for_purge, needs_supersession_check,
    next_purge_step, nonblocking_quarantine_was_superseded, purge_quarantine,
    quarantine_artifact_path_for_purge, quarantine_id, quarantine_purge_action,
    quarantine_with_policy, reconcile_uncertain_quarantines, recovery_blocks, superseding_index,
    CurrentRecord, PurgeEvent, PurgePathObservation, PurgeStep, QuarantinePolicy,
    QuarantinePurgeAction,
    StoredPausedSandboxQuarantine,
};
use agentenv::orchestrator::types::{
    Document, SandboxResources, SandboxState, SandboxTimeoutAction, SnapshotRuntimeVersions,
    VirtualizationMode,
};
use agentenv::paths::StorePath;

fn metadata(id: SandboxId) -> SandboxMetadata {
    SandboxMetadata {
        id,
        snapshot_id: "snapshot".to_owned(),
        snapshot_alias: None,
        virtualization_mode: VirtualizationMode::Kvm,
        runtime_versions: SnapshotRuntimeVersions {
            kernel: "kernel".to_owned(),
            firecracker: "firecracker".to_owned(),
            envd: "envd".to_owned(),
            tools: "tools".to_owned(),
        },
        resources: SandboxResources { cpu_count: 2, memory_mib: 512, disk_size_mib: 1024 },
        context: None,
        startup: None,
        image_configs: None,
        timeout_action: SandboxTimeoutAction::Pause,
        auto_resume: false,
        user_metadata: None,
        create_idempotency_key: None,
        create_request_fingerprint: None,
        network_policy: None,
        custom_extension_params: None,
        secure: false,
        state: SandboxState::Paused,
        created_at: 1,
        expires_at: None,
        timeout: None,
        paused_state: None,
        paused_runtime_stopped: true,
        resume_recovery_pending: false,
    }
}

fn record(id: SandboxId, artifact_root: StorePath) -> PersistedPausedRecord {
    PersistedPausedRecord {
        version: 2,
        commit_state: PersistedPausedCommitState::Committed,
        lifecycle: PersistedPausedLifecycle::Paused,
        resuming_boot_id: None,
        unproven_stop_boot_id: None,
        checkpoint_at_unix_ms: None,
        metadata: metadata(id),
        artifact_root,
        state: Document { json: "{}".to_owned() },
    }
}

fn guest() -> SandboxId {
    SandboxId { value: 7 }
}

fn generation() -> StorePath {
    StorePath::from_text("/store/artifacts")
        .join_text(&guest().to_text())
        .join_text("generation")
}

fn entry(policy: QuarantinePolicy) -> StoredPausedSandboxQuarantine {
    quarantine_with_policy(
        "reason".to_owned(),
        &Some(guest().to_text().into_bytes()),
        &Some(b"captured".to_vec()),
        Some(generation()),
        None,
        policy,
    )
}

fn index() -> PersistedPausedIndex {
    PersistedPausedIndex {
        index_version: 2,
        sandbox_id: guest(),
        manifest_path: generation().join_text("paused-record.v2.json"),
        manifest_sha256: String::new(),
    }
}

fn observed(canonical: StorePath) -> PathObservation {
    PathObservation {
        through_symlink: false,
        canonical_root: Some(StorePath::from_text("/store")),
        canonical_path: Some(canonical),
        canonical_databases: vec![StorePath::from_text("/store/records.db")],
        canonical_probe: PathProbe::Directory,
    }
}

fn purge_observation(path: StorePath) -> PurgePathObservation {
    let missing = || ChildObservation { probe: PathProbe::Missing, canonical: None };
    PurgePathObservation {
        managed: observed(path),
        purgeable: PurgeObservation {
            artifacts_probe: PathProbe::Directory,
            artifacts: observed(StorePath::from_text("/store/artifacts")),
            sandbox: missing(),
            generation: missing(),
            target: missing(),
        },
    }
}

#[test]
fn an_identifier_is_the_digest_of_what_an_entry_is_about() {
    let key = Some(b"k".to_vec());
    let root = Some(StorePath::from_text("/a"));
    let manifest = Some(StorePath::from_text("/m"));
    assert_eq!(
        quarantine_id(&key, &root, &manifest, "why", QuarantinePolicy::Manual),
        format!("paused-{}", sha256_hex(b"manual:yesreconcile:norecord:kartifact:/amanifest:/m"))
    );
    assert_eq!(
        quarantine_id(&None, &None, &None, "why", QuarantinePolicy::Uncertain),
        format!("paused-{}", sha256_hex(b"manual:yesreconcile:yesreason:why"))
    );
    assert_eq!(
        quarantine_id(&None, &root, &None, "why", QuarantinePolicy::Nonblocking),
        format!("paused-{}", sha256_hex(b"manual:noreconcile:noartifact:/a"))
    );
    assert_eq!(
        quarantine_id(&key, &None, &None, "one", QuarantinePolicy::Manual),
        quarantine_id(&key, &None, &None, "other", QuarantinePolicy::Manual)
    );
}

#[test]
fn an_entry_keeps_the_bytes_of_the_record() {
    let entry = entry(QuarantinePolicy::Manual);
    assert_eq!(entry.version, 1);
    assert_eq!(entry.record_key, Some(guest().to_text()));
    assert_eq!(entry.record_key_sha256, Some(sha256_hex(guest().to_text().as_bytes())));
    assert_eq!(entry.record_sha256, Some(sha256_hex(b"captured")));
    assert_eq!(entry.record_bytes_base64.as_deref(), Some("Y2FwdHVyZWQ="));
    assert!(entry.requires_manual_recovery && !entry.reconcile_if_coherent);
    let uncertain = quarantine_with_policy(
        "reason".to_owned(),
        &Some(vec![b'a', 0xff]),
        &None,
        None,
        None,
        QuarantinePolicy::Uncertain,
    );
    assert_eq!(uncertain.record_key.as_deref(), Some("a\u{fffd}"));
    assert!(uncertain.reconcile_if_coherent);
}

#[test]
fn finding_the_same_thing_again_keeps_the_captured_record() {
    let mut found = quarantine_with_policy(
        "found again".to_owned(),
        &Some(guest().to_text().into_bytes()),
        &None,
        Some(generation()),
        None,
        QuarantinePolicy::Manual,
    );
    assert!(found.needs_existing());
    assert_eq!(found.needs_current(), Some(guest().to_text()));
    found.adopt_existing(Some(Ok(entry(QuarantinePolicy::Manual)))).unwrap();
    assert_eq!(found.record_sha256, Some(sha256_hex(b"captured")));
    assert_eq!(found.needs_current(), None);
    assert!(!found.needs_existing());

    let mut fresh = entry(QuarantinePolicy::Manual);
    fresh.record_sha256 = None;
    fresh.capture_current(&Some(b"current".to_vec()));
    assert_eq!(fresh.record_sha256, Some(sha256_hex(b"current")));
    let mut older = entry(QuarantinePolicy::Manual);
    older.version = 9;
    assert_eq!(
        fresh.adopt_existing(Some(Ok(older))).unwrap_err().to_text(),
        "invalid sandbox record: unsupported existing paused sandbox quarantine version 9"
    );
    assert_eq!(
        fresh.adopt_existing(Some(Err("eof".to_owned()))).unwrap_err().to_text(),
        "invalid sandbox record: failed to deserialize existing paused sandbox quarantine record"
    );
    assert!(fresh.adopt_existing(None).is_ok());
}

#[test]
fn only_manual_entries_block() {
    let blocks = recovery_blocks(&vec![entry(QuarantinePolicy::Nonblocking)]);
    assert!(!blocks.contains_sandbox(&guest()));
    let blocks = recovery_blocks(&vec![entry(QuarantinePolicy::Manual)]);
    assert!(blocks.contains_sandbox(&guest()));
    assert!(blocks.contains_record(&SandboxId { value: 8 }, &generation()));
    assert!(!blocks.contains_record(&SandboxId { value: 8 }, &StorePath::from_text("/other")));
    let manifest = ManifestEntry {
        path: generation().join_text("paused-record.v2.json"),
        bytes: Vec::new(),
        record: record(SandboxId { value: 8 }, generation()),
        recovery_marker_present: false,
    };
    assert!(blocks.contains_manifest(&manifest));
}

#[test]
fn entries_are_listed_by_identifier() {
    let named = |id: &str, reason: &str| {
        let mut one = entry(QuarantinePolicy::Manual);
        one.id = id.to_owned();
        one.reason = reason.to_owned();
        one
    };
    let listing = list_quarantines(vec![
        named("paused-b", "1"),
        named("paused-a", "2"),
        named("paused-b", "3"),
    ]);
    let shown: Vec<(&str, &str)> =
        listing.iter().map(|one| (one.id.as_str(), one.reason.as_str())).collect();
    assert_eq!(shown, vec![("paused-a", "2"), ("paused-b", "1"), ("paused-b", "3")]);
}

#[test]
fn purges_need_a_readable_entry() {
    let id = "paused-x".to_owned();
    assert_eq!(
        load_quarantine_for_purge(&id, None).unwrap_err().to_text(),
        "invalid sandbox record: paused sandbox quarantine paused-x not found"
    );
    assert!(load_quarantine_for_purge(&id, Some(Err("eof".to_owned()))).is_err());
    let found = load_quarantine_for_purge(&id, Some(Ok(entry(QuarantinePolicy::Manual))));
    assert!(found.is_ok());
    let mut newer = entry(QuarantinePolicy::Manual);
    newer.version = 2;
    assert_eq!(
        decode_quarantine(Ok(newer)).unwrap_err().to_text(),
        "invalid sandbox record: unsupported paused sandbox quarantine version 2"
    );
}

#[test]
fn a_newer_record_is_never_purged() {
    let id = "paused-x".to_owned();
    let found = entry(QuarantinePolicy::Nonblocking);
    let same = Some(b"captured".to_vec());
    let newer = Some(b"newer".to_vec());
    assert!(!needs_supersession_check(&found, &same));
    assert!(needs_supersession_check(&found, &newer));
    match quarantine_purge_action(&id, &found, &same, false) {
        Ok(QuarantinePurgeAction::PurgeState { record_key }) => {
            assert_eq!(record_key, Some(guest().to_text()))
        }
        _ => panic!("the captured record goes with its entry"),
    }
    assert!(matches!(
        quarantine_purge_action(&id, &found, &newer, true),
        Ok(QuarantinePurgeAction::QuarantineOnly)
    ));
    assert_eq!(
        quarantine_purge_action(&id, &found, &newer, false).err().unwrap().to_text(),
        "invalid sandbox record: refusing to purge paused sandbox quarantine paused-x: its \
         record key now points at newer or unknown state"
    );
    assert!(matches!(
        quarantine_purge_action(&id, &found, &None, false),
        Ok(QuarantinePurgeAction::PurgeState { record_key: None })
    ));
    let mut unknown = entry(QuarantinePolicy::Manual);
    unknown.record_sha256 = None;
    assert!(quarantine_purge_action(&id, &unknown, &same, false).is_err());
}

#[test]
fn an_entry_is_superseded_by_a_coherent_record_of_its_generation() {
    let found = entry(QuarantinePolicy::Nonblocking);
    assert!(superseding_index(&found, Ok(index())).is_some());
    assert!(superseding_index(&entry(QuarantinePolicy::Manual), Ok(index())).is_none());
    let mut foreign = index();
    foreign.sandbox_id = SandboxId { value: 8 };
    assert!(superseding_index(&found, Ok(foreign)).is_none());
    let mut elsewhere = entry(QuarantinePolicy::Nonblocking);
    elsewhere.manifest_path = Some(StorePath::from_text("/other"));
    assert!(superseding_index(&elsewhere, Ok(index())).is_none());
    assert!(nonblocking_quarantine_was_superseded(&found, &Ok(record(guest(), generation()))));
    let other = record(guest(), StorePath::from_text("/other"));
    assert!(!nonblocking_quarantine_was_superseded(&found, &Ok(other)));
    let unresolved = Err(SandboxPersistenceError::InvalidRecord {
        reason: RecordFault::IndexManifestMismatch { sandbox_id: guest() },
        source: None,
    });
    assert!(!nonblocking_quarantine_was_superseded(&found, &unresolved));
}

#[test]
fn a_purge_stays_inside_the_sandbox_of_its_entry() {
    let store = StorePath::from_text("/store");
    let id = "paused-x".to_owned();
    let found = entry(QuarantinePolicy::Manual);
    let path = quarantine_artifact_path_for_purge(
        &store,
        &id,
        &found,
        &generation(),
        &purge_observation(generation()),
    );
    assert!(path.unwrap().same(&generation()));
    let sandbox = generation().parent().unwrap();
    let path = quarantine_artifact_path_for_purge(
        &store,
        &id,
        &found,
        &sandbox,
        &purge_observation(sandbox.copy()),
    );
    assert!(path.is_ok());
    let foreign = StorePath::from_text("/store/artifacts")
        .join_text(&SandboxId { value: 8 }.to_text())
        .join_text("generation");
    let refused = quarantine_artifact_path_for_purge(
        &store,
        &id,
        &found,
        &foreign,
        &purge_observation(foreign.copy()),
    );
    assert!(refused.unwrap_err().to_text().contains("not an exact managed generation for sandbox"));
}

#[test]
fn a_purge_without_a_sandbox_never_takes_a_whole_directory() {
    let store = StorePath::from_text("/store");
    let id = "paused-x".to_owned();
    let mut found = entry(QuarantinePolicy::Manual);
    found.record_key = None;
    let sandbox = generation().parent().unwrap();
    let marker = sandbox.join_text(".paused-record.v2.recovery-pending");
    let path = quarantine_artifact_path_for_purge(
        &store,
        &id,
        &found,
        &marker,
        &purge_observation(marker.copy()),
    );
    assert!(path.unwrap().same(&marker));
    let refused = quarantine_artifact_path_for_purge(
        &store,
        &id,
        &found,
        &sandbox,
        &purge_observation(sandbox.copy()),
    );
    assert!(refused.unwrap_err().to_text().ends_with("managed generation or metadata file"));
}

#[test]
fn the_entry_outlives_everything_it_accounts_for() {
    let action = QuarantinePurgeAction::PurgeState { record_key: Some("key".to_owned()) };
    let step = purge_quarantine(action, Some(generation()));
    assert!(matches!(step, PurgeStep::RemoveArtifacts { .. }));
    let step = next_purge_step(step);
    assert!(matches!(step, PurgeStep::DeleteRecord { .. }));
    let step = next_purge_step(step);
    assert!(matches!(step, PurgeStep::DeleteQuarantine));
    assert!(matches!(next_purge_step(step), PurgeStep::Finished));
    assert!(matches!(
        purge_quarantine(QuarantinePurgeAction::QuarantineOnly, Some(generation())),
        PurgeStep::DeleteQuarantine
    ));
    assert_eq!(reconcile_uncertain_quarantines(), 0);
}

#[test]
fn a_purge_goes_from_its_entry_to_its_entry() {
    let root = StorePath::from_text("/store");
    let id = "paused-x".to_owned();
    let go = |step: PurgeStep, event| step.next(&root, &id, event);
    let step = go(
        PurgeStep::Load,
        PurgeEvent::Loaded { found: Some(Ok(entry(QuarantinePolicy::Manual))) },
    );
    assert!(matches!(
        &step,
        PurgeStep::ReadRecord { record_key, .. } if *record_key == guest().to_text()
    ));
    let current = CurrentRecord { bytes: b"captured".to_vec(), index: Ok(index()) };
    let step = go(step, PurgeEvent::RecordRead { current: Some(current) });
    assert!(matches!(&step, PurgeStep::Inspect { path, .. } if path.same(&generation())));
    let step = go(step, PurgeEvent::Inspected { observed: purge_observation(generation()) });
    assert!(matches!(&step, PurgeStep::RemoveArtifacts { path, .. } if path.same(&generation())));
    let step = go(step, PurgeEvent::Done);
    assert!(matches!(
        &step,
        PurgeStep::DeleteRecord { record_key } if *record_key == guest().to_text()
    ));
    let step = go(step, PurgeEvent::Done);
    assert!(matches!(step, PurgeStep::DeleteQuarantine));
    assert!(matches!(go(step, PurgeEvent::Done), PurgeStep::Finished));
}

#[test]
fn a_purge_ends_at_what_it_may_not_take() {
    let root = StorePath::from_text("/store");
    let id = "paused-x".to_owned();
    let go = |step: PurgeStep, event| step.next(&root, &id, event);
    let missing = go(PurgeStep::Load, PurgeEvent::Loaded { found: None });
    assert!(matches!(missing, PurgeStep::Failed { .. }));
    let read = |policy| go(PurgeStep::Load, PurgeEvent::Loaded { found: Some(Ok(entry(policy))) });
    let newer = || PurgeEvent::RecordRead {
        current: Some(CurrentRecord { bytes: b"newer".to_vec(), index: Ok(index()) }),
    };
    let refused = go(read(QuarantinePolicy::Manual), newer());
    let PurgeStep::Failed { error } = refused else {
        panic!("a newer record is not purged");
    };
    assert!(error.to_text().ends_with("its record key now points at newer or unknown state"));
    let step = go(read(QuarantinePolicy::Nonblocking), newer());
    assert!(matches!(step, PurgeStep::Resolve { .. }));
    let resolved = Ok(record(guest(), generation()));
    let step = go(step, PurgeEvent::Resolved { resolved });
    assert!(matches!(step, PurgeStep::DeleteQuarantine));
    let step = go(read(QuarantinePolicy::Manual), PurgeEvent::RecordRead { current: None });
    let outside = purge_observation(StorePath::from_text("/elsewhere"));
    let refused = go(step, PurgeEvent::Inspected { observed: outside });
    assert!(matches!(refused, PurgeStep::Failed { .. }));
    let error = SandboxPersistenceError::store("delete", "full".to_owned());
    let failed = go(PurgeStep::DeleteQuarantine, PurgeEvent::Failed { error });
    assert!(matches!(failed, PurgeStep::Failed { .. }));
}
