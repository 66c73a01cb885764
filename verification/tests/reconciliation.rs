use agentenv::digest::sha256_hex;
use agentenv::ids::SandboxId;
use agentenv::orchestrator::metadata::SandboxMetadata;
use agentenv::orchestrator::persistence::codecs::{
    manifest_path, ManifestEntry, PersistedPausedIndex, PersistedPausedRecord,
};
use agentenv::orchestrator::persistence::error::{RecordFault, SandboxPersistenceError};
use agentenv::orchestrator::persistence::index_reconciliation::{
    retire_reconciled_generation, IndexDecision, IndexReconciliation, WalkMode,
};
use agentenv::orchestrator::persistence::managed_paths::{
    artifact_probes, artifacts_root, canonical_child_for_purge, create_idempotency_db_path,
    new_generation_root, quarantine_db_path, quarantine_target_for_manifest, records_db_path,
    sandbox_artifact_root, validated_artifact_path, validated_generation_path,
    validated_sandbox_root_path, ChildObservation, PathObservation, PathProbe,
};
use agentenv::orchestrator::persistence::manifests::{
    attach_marker, check_index, check_manifest_identity, manifest_needs_recovery, read_manifest,
    require_record, resolve_index, scan_manifests, scanned_manifests, GenerationListing,
    ManifestReading, MarkerProbe, SandboxListing, ScanFinding,
};
use agentenv::orchestrator::persistence::paused_transactions::{
    PersistedPausedCommitState, PersistedPausedLifecycle,
};
use agentenv::orchestrator::persistence::quarantine::QuarantinePolicy;
use agentenv::orchestrator::persistence::reconciliation::{
    ambiguous_manifest_entry, raw_index_can_be_rebuilt_from_manifest, sandbox_of_key,
    select_manifest_candidates, StoreEntry,
};
use agentenv::orchestrator::persistence::reconciliation_run::{
    ReconcileEvent, ReconcileRun, ReconcileStep,
};
use agentenv::orchestrator::types::{
    Document, SandboxResources, SandboxState, SandboxTimeoutAction, SnapshotRuntimeVersions,
    VirtualizationMode,
};
use agentenv::paths::StorePath;

fn metadata(id: SandboxId) -> SandboxMetadata {
    SandboxMetadata {
        id,
        snapshot_id: "snapshot".to_owned(),
        snapshot_alias: None,
        virtualization_mode: VirtualizationMode::Kvm,
        runtime_versions: SnapshotRuntimeVersions {
            kernel: "kernel".to_owned(),
            firecracker: "firecracker".to_owned(),
            envd: "envd".to_owned(),
            tools: "tools".to_owned(),
        },
        resources: SandboxResources { cpu_count: 2, memory_mib: 512, disk_size_mib: 1024 },
        context: None,
        startup: None,
        image_configs: None,
        timeout_action: SandboxTimeoutAction::Pause,
        auto_resume: false,
        user_metadata: None,
        create_idempotency_key: None,
        create_request_fingerprint: None,
        network_policy: None,
        custom_extension_params: None,
        secure: false,
        state: SandboxState::Paused,
        created_at: 1,
        expires_at: None,
        timeout: None,
        paused_state: None,
        paused_runtime_stopped: true,
        resume_recovery_pending: false,
    }
}

fn record(id: SandboxId, artifact_root: StorePath) -> PersistedPausedRecord {
    PersistedPausedRecord {
        version: 2,
        commit_state: PersistedPausedCommitState::Committed,
        lifecycle: PersistedPausedLifecycle::Paused,
        resuming_boot_id: None,
        unproven_stop_boot_id: None,
        checkpoint_at_unix_ms: None,
        metadata: metadata(id),
        artifact_root,
        state: Document { json: "{}".to_owned() },
    }
}

fn guest() -> SandboxId {
    SandboxId { value: 7 }
}

fn store() -> StorePath {
    StorePath::from_text("/store")
}

fn generation(name: &str) -> StorePath {
    sandbox_artifact_root(&store(), &guest()).join_text(name)
}

fn entry(name: &str, bytes: &[u8]) -> ManifestEntry {
    ManifestEntry {
        path: manifest_path(&generation(name)),
        bytes: bytes.to_vec(),
        record: record(guest(), generation(name)),
        recovery_marker_present: false,
    }
}

fn stored(index: PersistedPausedIndex) -> StoreEntry {
    StoreEntry {
        key: index.sandbox_id.to_text().into_bytes(),
        bytes: b"{}".to_vec(),
        index: Ok(index),
    }
}

fn observed(canonical: &StorePath) -> PathObservation {
    PathObservation {
        through_symlink: false,
        canonical_root: Some(store()),
        canonical_path: Some(canonical.copy()),
        canonical_databases: vec![records_db_path(&store())],
        canonical_probe: PathProbe::Directory,
    }
}

fn walk(manifests: Vec<ManifestEntry>, entries: &Vec<StoreEntry>) -> IndexReconciliation {
    let selection = select_manifest_candidates(manifests, entries);
    IndexReconciliation::begin(selection, 0, WalkMode::Startup, &Vec::new())
}

fn damaged() -> SandboxPersistenceError {
    SandboxPersistenceError::InvalidRecord { reason: RecordFault::UndecodableIndex, source: None }
}

#[test]
fn the_store_has_fixed_places() {
    assert_eq!(artifacts_root(&store()).to_text(), "/store/artifacts");
    assert_eq!(records_db_path(&store()).to_text(), "/store/records.db");
    assert_eq!(quarantine_db_path(&store()).to_text(), "/store/quarantine.db");
    assert_eq!(create_idempotency_db_path(&store()).to_text(), "/store/create-idempotency.db");
    let first = new_generation_root(&store(), &guest());
    assert!(first.has_parent(&sandbox_artifact_root(&store(), &guest())));
    assert!(!first.same(&new_generation_root(&store(), &guest())));
}

#[test]
fn only_paths_below_the_artifacts_are_managed() {
    let path = generation("g");
    assert!(validated_artifact_path(&store(), &path, &observed(&path)).unwrap().same(&path));
    let linked = PathObservation { through_symlink: true, ..observed(&path) };
    assert!(validated_artifact_path(&store(), &path, &linked).is_none());
    let escaped = observed(&StorePath::from_text("/elsewhere"));
    assert!(validated_artifact_path(&store(), &path, &escaped).is_none());
    let database = observed(&StorePath::from_text("/store/records.db/file"));
    assert!(validated_artifact_path(&store(), &path, &database).is_none());
    let stepping = StorePath::from_text("/store/artifacts/../records.db");
    assert!(validated_artifact_path(&store(), &stepping, &observed(&path)).is_none());
    let probes = artifact_probes(&store(), &path).unwrap();
    let shown: Vec<String> = probes.iter().map(|probe| probe.to_text()).collect();
    assert_eq!(shown.len(), 3);
    assert_eq!(shown[0], "/store/artifacts");
    assert_eq!(shown[2], path.to_text());
    assert!(artifact_probes(&store(), &StorePath::from_text("/other")).is_none());
}

#[test]
fn a_generation_lies_two_levels_below_the_artifacts() {
    let path = generation("g");
    let found = validated_generation_path(&store(), &guest(), &path, &observed(&path));
    assert!(found.is_some());
    let foreign = SandboxId { value: 8 };
    assert!(validated_generation_path(&store(), &foreign, &path, &observed(&path)).is_none());
    let deeper = path.join_text("x");
    assert!(validated_generation_path(&store(), &guest(), &deeper, &observed(&deeper)).is_none());
    let file = PathObservation { canonical_probe: PathProbe::File, ..observed(&path) };
    assert!(validated_generation_path(&store(), &guest(), &path, &file).is_none());
    let sandbox = sandbox_artifact_root(&store(), &guest());
    let found = validated_sandbox_root_path(&store(), &guest(), &sandbox, &observed(&sandbox));
    assert!(found.is_some());
    assert!(validated_sandbox_root_path(&store(), &guest(), &path, &observed(&path)).is_none());
}

#[test]
fn purges_take_no_step_out_of_a_directory() {
    let parent = StorePath::from_text("/store/artifacts");
    let name = b"child".to_vec();
    let child = |probe, canonical: Option<&str>| {
        let canonical = canonical.map(StorePath::from_text);
        canonical_child_for_purge(&parent, &name, &ChildObservation { probe, canonical })
    };
    let missing = child(PathProbe::Missing, None).unwrap();
    assert_eq!(missing.to_text(), "/store/artifacts/child");
    assert!(child(PathProbe::Symlink, Some("/store/artifacts/child")).is_none());
    assert!(child(PathProbe::Unreadable, None).is_none());
    assert!(child(PathProbe::Directory, Some("/store/artifacts/child")).is_some());
    assert!(child(PathProbe::Directory, Some("/elsewhere/child")).is_none());
    let manifest = manifest_path(&generation("g"));
    let target = |directory, file| {
        quarantine_target_for_manifest(&generation("g"), directory, &manifest, file)
    };
    assert!(target(true, true).unwrap().same(&generation("g")));
    assert!(target(false, true).unwrap().same(&manifest));
    assert!(target(false, false).is_none());
}

#[test]
fn a_manifest_names_its_commit_state_and_its_generation() {
    let path = manifest_path(&generation("g"));
    let parsed = || Ok(record(guest(), generation("g")));
    let complete = br#"{"commitState":"committed"}"#.to_vec();
    assert!(read_manifest(&path, &complete, parsed()).is_ok());
    let text = |bytes: &[u8], parsed| {
        read_manifest(&path, &bytes.to_vec(), parsed).unwrap_err().to_text()
    };
    assert!(text(b"{}", parsed()).ends_with("is missing its v2 commit state"));
    assert_eq!(
        text(b"{", parsed()),
        "invalid sandbox record: failed to deserialize paused sandbox manifest"
    );
    let cut = read_manifest(&path, &b"{".to_vec(), parsed()).unwrap_err();
    assert!(matches!(
        cut,
        SandboxPersistenceError::InvalidRecord { source: Some(source), .. }
            if source == "EOF while parsing an object at line 1 column 1"
    ));
    let mut legacy = record(guest(), generation("g"));
    legacy.version = 1;
    assert!(text(&complete, Ok(legacy)).ends_with("has unsupported version 1"));
    let moved = record(guest(), generation("other"));
    assert!(text(&complete, Ok(moved)).contains("does not match its artifact root"));
}

#[test]
fn a_manifest_belongs_to_its_sandbox() {
    let path = manifest_path(&generation("g"));
    let found = record(guest(), generation("g"));
    let here = observed(&generation("g"));
    let check = |expected, observed| {
        check_manifest_identity(&store(), &path, &found, &expected, observed)
    };
    assert!(check(None, &here).is_ok());
    assert!(check(Some(guest()), &here).is_ok());
    let foreign = check(Some(SandboxId { value: 8 }), &here).unwrap_err();
    assert!(foreign.to_text().contains("contains metadata for"));
    let linked = PathObservation { through_symlink: true, ..observed(&generation("g")) };
    let unmanaged = check(None, &linked).unwrap_err();
    assert!(unmanaged.to_text().ends_with("an exact managed artifact generation"));
}

#[test]
fn a_marker_makes_a_manifest_unusable() {
    let path = manifest_path(&generation("g"));
    let attach = |marker| {
        attach_marker(&path, b"{}".to_vec(), record(guest(), generation("g")), marker)
    };
    let clean = attach(MarkerProbe::Missing).unwrap();
    assert!(!manifest_needs_recovery(&clean));
    let marked = attach(MarkerProbe::Regular).unwrap();
    assert!(marked.recovery_marker_present);
    assert!(manifest_needs_recovery(&marked));
    assert!(marked.record.metadata.resume_recovery_pending);
    assert!(attach(MarkerProbe::Irregular).unwrap_err().to_text().ends_with("is not a regular file"));
    let unreadable = attach(MarkerProbe::Unreadable { source: "denied".to_owned() });
    assert!(unreadable.unwrap_err().to_text().starts_with("failed to inspect paused sandbox"));
}

#[test]
fn an_index_resolves_to_the_manifest_it_names() {
    let manifest = entry("g", b"{}");
    let index = manifest.to_index();
    let here = observed(&index.manifest_path);
    assert!(check_index(&store(), guest(), &index, &here).is_ok());
    assert!(check_index(&store(), SandboxId { value: 8 }, &index, &here).is_err());
    let escaped = observed(&StorePath::from_text("/elsewhere"));
    let outside = check_index(&store(), guest(), &index, &escaped).unwrap_err();
    assert!(outside.to_text().ends_with("outside the managed artifacts root"));
    assert!(resolve_index(guest(), &index, Ok(entry("g", b"{}"))).is_ok());
    let changed = resolve_index(guest(), &index, Ok(entry("g", b"{ }"))).unwrap_err();
    assert!(changed.to_text().ends_with("does not match its manifest"));
    assert!(resolve_index(guest(), &index, Err(damaged())).is_err());
    assert_eq!(require_record(guest(), Some(vec![1])).unwrap(), vec![1]);
    assert!(require_record(guest(), None).unwrap_err().to_text().ends_with("not found"));
}

#[test]
fn a_scan_accounts_for_every_entry() {
    let marked = || {
        attach_marker(
            &manifest_path(&generation("marked")),
            b"{}".to_vec(),
            record(guest(), generation("marked")),
            MarkerProbe::Regular,
        )
    };
    let read = |name: &str, outcome| GenerationListing {
        path: generation(name),
        reading: Some(ManifestReading::Read {
            manifest: manifest_path(&generation(name)),
            target: Some(generation(name)),
            outcome,
        }),
    };
    let sandboxes = vec![
        SandboxListing::Stray { path: StorePath::from_text("/store/artifacts/stray") },
        SandboxListing::Sandbox {
            reading: ManifestReading::Irregular {
                manifest: manifest_path(&sandbox_artifact_root(&store(), &guest())),
                target: None,
            },
            generations: vec![
                read("usable", Ok(entry("usable", b"{}"))),
                read("marked", marked()),
                read("damaged", Err(damaged())),
                GenerationListing {
                    path: generation("markerless"),
                    reading: Some(ManifestReading::Absent),
                },
                GenerationListing { path: generation("file"), reading: None },
            ],
        },
    ];
    let findings = scan_manifests(ManifestReading::Absent, sandboxes);
    assert_eq!(findings.len(), 7);
    let reasons: Vec<Option<String>> = findings
        .iter()
        .map(|finding| finding.to_quarantine().map(|entry| entry.reason))
        .collect();
    let expected = [
        Some("unreferenced or markerless paused sandbox artifact entry"),
        Some("paused sandbox manifest path is not a regular file"),
        None,
        Some("durable paused sandbox manifest requires explicit host recovery"),
        Some(
            "invalid paused sandbox manifest: invalid sandbox record: failed to deserialize \
             paused sandbox index",
        ),
        Some("markerless paused sandbox artifact generation"),
        Some("markerless paused sandbox artifact generation"),
    ];
    for (found, expected) in reasons.iter().zip(expected) {
        assert_eq!(found.as_deref(), expected);
    }
    let pending = findings[3].to_quarantine().unwrap();
    assert!(!pending.requires_manual_recovery);
    assert!(matches!(findings[2], ScanFinding::Usable { .. }));
    let (accepted, quarantined) = scanned_manifests(findings);
    assert_eq!(accepted.len(), 2);
    assert_eq!(quarantined, 6);
}

#[test]
fn a_lone_manifest_is_the_one_to_go_by() {
    let selection = select_manifest_candidates(vec![entry("g", b"{}")], &Vec::new());
    assert_eq!(selection.candidates.len(), 1);
    assert!(selection.blocked.is_empty());
    assert!(selection.retire_after_selection.is_empty());
}

#[test]
fn an_index_orders_certain_generations() {
    let index = entry("new", b"new").to_index();
    let manifests = vec![entry("old", b"old"), entry("new", b"new")];
    let selection = select_manifest_candidates(manifests, &vec![stored(index)]);
    assert_eq!(selection.candidates.len(), 1);
    assert!(selection.candidates[0].record.artifact_root.same(&generation("new")));
    assert_eq!(selection.retire_after_selection.len(), 1);
    assert!(selection.retire_after_selection[0].artifact_roots[0].same(&generation("old")));
}

#[test]
fn generations_that_cannot_be_ordered_block_their_sandbox() {
    let manifests = vec![entry("old", b"old"), entry("new", b"new")];
    let selection = select_manifest_candidates(manifests, &Vec::new());
    assert!(selection.candidates.is_empty());
    assert_eq!(selection.ambiguous.len(), 2);
    assert!(selection.blocked.contains(&guest()));
    let reason = ambiguous_manifest_entry(&selection.ambiguous[0]).reason;
    assert_eq!(reason, "multiple paused sandbox manifests cannot be safely ordered");

    let index = entry("new", b"new").to_index();
    let mut uncertain = entry("old", b"old");
    uncertain.recovery_marker_present = true;
    let manifests = vec![uncertain, entry("new", b"new")];
    let selection = select_manifest_candidates(manifests, &vec![stored(index)]);
    assert!(selection.candidates.is_empty());
    assert!(selection.blocked.contains(&guest()));
}

#[test]
fn unusable_indexes_are_rebuilt_where_nothing_contradicts_the_manifest() {
    let candidate = entry("g", b"{}");
    let check = |bytes: &[u8]| raw_index_can_be_rebuilt_from_manifest(bytes, &guest(), &candidate);
    assert!(check(b"not json"));
    assert!(check(b"[1]"));
    assert!(check(br#"{"indexVersion":"two"}"#));
    assert!(check(br#"{"indexVersion":2}"#));
    assert!(!check(br#"{"indexVersion":3}"#));
    let same = format!("{{\"sandboxId\":\"{}\"}}", guest().to_text());
    assert!(check(same.as_bytes()));
    let other = format!("{{\"sandboxId\":\"{}\"}}", SandboxId { value: 8 }.to_text());
    assert!(!check(other.as_bytes()));
    assert!(check(br#"{"sandboxId":"nobody"}"#));
    let path = format!("{{\"manifestPath\":\"{}\"}}", candidate.path.to_text());
    assert!(check(path.as_bytes()));
    assert!(!check(br#"{"manifestPath":"/elsewhere"}"#));
}

#[test]
fn a_coherent_index_selects_its_record() {
    let index = entry("g", b"{}").to_index();
    let item = stored(entry("g", b"{}").to_index());
    let mut walk = walk(vec![entry("g", b"{}")], &vec![stored(index)]);
    let index = item.index.as_ref().unwrap();
    match walk.reconcile_v2_index_entry(&item, index, true) {
        IndexDecision::Resolve { sandbox_id } => assert_eq!(sandbox_id, guest()),
        _ => panic!("a coherent index is resolved"),
    }
    let found = record(guest(), generation("g"));
    assert!(walk.take_resolved(&item, index, guest(), Ok(found)).is_none());
    assert!(walk.rebuild_missing_manifest_index().is_none());
    assert_eq!(walk.selected.len(), 1);
    assert_eq!(walk.report.indexed_manifests, 0);
}

#[test]
fn a_missing_index_is_rebuilt_from_its_manifest() {
    let mut walk = walk(vec![entry("g", b"{}")], &Vec::new());
    let candidate = walk.rebuild_missing_manifest_index().unwrap();
    walk.take_rebuilt(candidate);
    assert!(walk.rebuild_missing_manifest_index().is_none());
    assert_eq!(walk.report.indexed_manifests, 1);
    assert_eq!(walk.selected[0].sandbox_id, guest());
}

#[test]
fn a_contradicting_index_blocks_its_sandbox() {
    let item = stored(entry("other", b"{}").to_index());
    let mut walk = walk(vec![entry("g", b"{}")], &Vec::new());
    let index = item.index.as_ref().unwrap();
    match walk.reconcile_v2_index_entry(&item, index, true) {
        IndexDecision::Quarantine { entry } => {
            assert_eq!(entry.reason, "paused sandbox index and manifest identity disagree");
            assert!(entry.artifact_root.unwrap().same(&generation("g")));
        }
        _ => panic!("a contradicting index is quarantined"),
    }
    assert!(walk.blocked.contains(&guest()));
    assert!(walk.rebuild_missing_manifest_index().is_none());
    assert_eq!(walk.report.quarantined_items, 1);
    assert!(matches!(walk.reconcile_v2_index_entry(&item, index, true), IndexDecision::Skip));
}

#[test]
fn strange_and_damaged_entries_are_kept() {
    let mut walk = walk(vec![entry("g", b"{}")], &Vec::new());
    let mut strange = stored(entry("g", b"{}").to_index());
    strange.key = b"strange".to_vec();
    assert_eq!(sandbox_of_key(&strange.key), None);
    let index = strange.index.as_ref().unwrap();
    match walk.reconcile_v2_index_entry(&strange, index, true) {
        IndexDecision::Quarantine { entry } => {
            assert_eq!(entry.reason, "paused sandbox index has a non-sandbox record key")
        }
        _ => panic!("a strange key is quarantined"),
    }
    let broken = StoreEntry {
        key: guest().to_text().into_bytes(),
        bytes: b"broken".to_vec(),
        index: Err(damaged()),
    };
    let kept = walk.reconcile_invalid_index_entry(&broken, &damaged());
    assert!(!kept.requires_manual_recovery);
    assert_eq!(kept.record_sha256, Some(sha256_hex(b"broken")));
    assert!(!walk.blocked.contains(&guest()));
    let foreign = StoreEntry {
        key: SandboxId { value: 8 }.to_text().into_bytes(),
        bytes: b"broken".to_vec(),
        index: Err(damaged()),
    };
    let kept = walk.reconcile_invalid_index_entry(&foreign, &damaged());
    assert!(kept.requires_manual_recovery);
    assert!(walk.blocked.contains(&SandboxId { value: 8 }));
    assert_eq!(walk.report.quarantined_items, 3);
}

#[test]
fn a_mismatch_after_the_scan_blocks_too() {
    let item = stored(entry("g", b"{}").to_index());
    let mut walk = walk(vec![entry("g", b"{}")], &Vec::new());
    let index = item.index.as_ref().unwrap();
    let kept = walk.take_resolved(&item, index, guest(), Err(damaged())).unwrap();
    assert!(kept.reason.starts_with("paused sandbox index/manifest mismatch: "));
    assert!(walk.blocked.contains(&guest()));
}

#[test]
fn quarantined_generations_are_neither_indexed_nor_retired() {
    let manual = agentenv::orchestrator::persistence::quarantine::quarantine_with_policy(
        "kept".to_owned(),
        &None,
        &None,
        Some(generation("old")),
        None,
        QuarantinePolicy::Manual,
    );
    let index = entry("new", b"new").to_index();
    let entries = vec![stored(index)];
    let manifests = vec![entry("old", b"old"), entry("new", b"new")];
    let selection = select_manifest_candidates(manifests, &entries);
    let mut walk = IndexReconciliation::begin(selection, 1, WalkMode::Startup, &vec![manual]);
    let candidate = walk.rebuild_missing_manifest_index().unwrap();
    walk.take_rebuilt(candidate);
    assert!(!walk.retire_selected_generations(&walk.retire_after_selection[0]));
    assert_eq!(walk.report.quarantined_items, 1);
    assert!(retire_reconciled_generation(guest(), Some(generation("old"))).is_ok());
    assert!(retire_reconciled_generation(guest(), None)
        .unwrap_err()
        .to_text()
        .contains("refusing to retire reconciled generation outside sandbox"));
}

#[test]
fn superseded_generations_are_retired_after_selection() {
    let index = entry("new", b"new").to_index();
    let entries = vec![stored(index)];
    let manifests = vec![entry("old", b"old"), entry("new", b"new")];
    let mut walk = walk(manifests, &entries);
    assert!(!walk.retire_selected_generations(&walk.retire_after_selection[0]));
    let candidate = walk.rebuild_missing_manifest_index().unwrap();
    walk.take_rebuilt(candidate);
    assert!(walk.retire_selected_generations(&walk.retire_after_selection[0]));
}

fn replaced(mode: WalkMode) -> ReconcileRun {
    let entries = vec![
        stored(entry("new", b"new").to_index()),
        StoreEntry {
            key: SandboxId { value: 8 }.to_text().into_bytes(),
            bytes: b"broken".to_vec(),
            index: Err(damaged()),
        },
    ];
    let manifests = vec![entry("old", b"old"), entry("new", b"new")];
    let selection = select_manifest_candidates(manifests, &entries);
    let walk = IndexReconciliation::begin(selection, 0, mode, &Vec::new());
    ReconcileRun::reconcile_manifest_index(entries, walk)
}

fn past_the_entries(mode: WalkMode) -> ReconcileRun {
    let run = replaced(mode);
    assert!(matches!(run.step, ReconcileStep::Inspect { at: 0 }));
    let run = run.next(ReconcileEvent::Inspected { managed: true });
    assert!(matches!(run.step, ReconcileStep::Resolve { at: 0, .. }));
    let resolved = Ok(record(guest(), generation("new")));
    let run = run.next(ReconcileEvent::Resolved { resolved });
    assert!(matches!(run.step, ReconcileStep::Store { at: 1, .. }));
    run.next(ReconcileEvent::Done)
}

#[test]
fn a_start_retires_superseded_generations_last() {
    let run = past_the_entries(WalkMode::Startup);
    assert!(matches!(run.step, ReconcileStep::Retire { at: 0, generation: 0 }));
    let run = run.next(ReconcileEvent::Done);
    assert!(matches!(run.step, ReconcileStep::Finished));
    let (records, report) = run.finish().unwrap();
    assert_eq!(records.len(), 1);
    assert!(records[0].artifact_root.same(&generation("new")));
    assert_eq!((report.indexed_manifests, report.quarantined_items), (0, 1));
}

#[test]
fn a_reconciliation_by_hand_removes_nothing() {
    let run = past_the_entries(WalkMode::ManualRecovery);
    assert!(matches!(run.step, ReconcileStep::Finished));
}

#[test]
fn a_failed_removal_does_not_stop_a_start() {
    let run = past_the_entries(WalkMode::Startup);
    let run = run.next(ReconcileEvent::Failed { error: damaged() });
    assert!(matches!(run.step, ReconcileStep::Finished));
}

#[test]
fn a_missing_index_is_written_or_its_generation_marked() {
    let begin = || {
        let selection = select_manifest_candidates(vec![entry("g", b"{}")], &Vec::new());
        let walk = IndexReconciliation::begin(selection, 0, WalkMode::Startup, &Vec::new());
        ReconcileRun::reconcile_manifest_index(Vec::new(), walk)
    };
    let run = begin().next(ReconcileEvent::Done);
    assert_eq!(run.finish().unwrap().1.indexed_manifests, 1);
    let failure = || SandboxPersistenceError::store("put", "io".to_owned());
    let run = begin().next(ReconcileEvent::Failed { error: failure() });
    assert!(matches!(run.step, ReconcileStep::Recover { .. }));
    let run = run.next(ReconcileEvent::Failed { error: failure() });
    assert!(run.finish().is_err());
}

#[test]
fn an_administrator_is_not_held_up_by_the_quarantine() {
    let manual = || {
        agentenv::orchestrator::persistence::quarantine::quarantine_with_policy(
            "kept".to_owned(),
            &None,
            &None,
            Some(generation("g")),
            None,
            QuarantinePolicy::Manual,
        )
    };
    let begin = |mode| {
        let selection = select_manifest_candidates(vec![entry("g", b"{}")], &Vec::new());
        let walk = IndexReconciliation::begin(selection, 0, mode, &vec![manual()]);
        ReconcileRun::reconcile_manifest_index(Vec::new(), walk)
    };
    assert!(matches!(begin(WalkMode::Startup).step, ReconcileStep::Finished));
    assert!(matches!(begin(WalkMode::ManualRecovery).step, ReconcileStep::Index { .. }));
}
