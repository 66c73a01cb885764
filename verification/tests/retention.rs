use agentenv::ids::{fresh_generation_name, SandboxId};
use agentenv::orchestrator::metadata::SandboxMetadata;
use agentenv::orchestrator::persistence::codecs::PersistedPausedRecord;
use agentenv::orchestrator::persistence::paused_transactions::{
    PersistedPausedCommitState, PersistedPausedLifecycle,
};
use agentenv::orchestrator::persistence::retention::{
    check_artifact_root, check_generation, files, removal_order, EntryKind, EntryUse, FileUsage,
    ReferencedPath, RetentionRefusal, RetentionSelection, RetentionSurvey,
};
use agentenv::orchestrator::types::{
    Document, SandboxResources, SandboxState, SandboxTimeoutAction, SnapshotRuntimeVersions,
    VirtualizationMode,
};
use agentenv::paths::StorePath;
use agentenv::sandbox::checkpoint_references::{resolve_reference, Resolution};

fn metadata(id: SandboxId) -> SandboxMetadata {
    SandboxMetadata {
        id,
        snapshot_id: "snapshot".to_owned(),
        snapshot_alias: None,
        virtualization_mode: VirtualizationMode::Kvm,
        runtime_versions: SnapshotRuntimeVersions {
            kernel: "kernel".to_owned(),
            firecracker: "firecracker".to_owned(),
            envd: "envd".to_owned(),
            tools: "tools".to_owned(),
        },
        resources: SandboxResources { cpu_count: 2, memory_mib: 512, disk_size_mib: 1024 },
        context: None,
        startup: None,
        image_configs: None,
        timeout_action: SandboxTimeoutAction::Pause,
        auto_resume: false,
        user_metadata: None,
        create_idempotency_key: None,
        create_request_fingerprint: None,
        network_policy: None,
        custom_extension_params: None,
        secure: false,
        state: SandboxState::Paused,
        created_at: 1,
        expires_at: None,
        timeout: None,
        paused_state: None,
        paused_runtime_stopped: true,
        resume_recovery_pending: false,
    }
}

fn record(id: SandboxId, artifact_root: StorePath) -> PersistedPausedRecord {
    PersistedPausedRecord {
        version: 2,
        commit_state: PersistedPausedCommitState::Committed,
        lifecycle: PersistedPausedLifecycle::Paused,
        resuming_boot_id: None,
        unproven_stop_boot_id: None,
        checkpoint_at_unix_ms: None,
        metadata: metadata(id),
        artifact_root,
        state: Document { json: "{}".to_owned() },
    }
}

fn artifacts() -> StorePath {
    StorePath::from_text("/store/artifacts")
}

/// A generation on an imagined disk: its root, its checkpoint time and what its image refers to.
struct OnDisk {
    guest: SandboxId,
    root: StorePath,
    stamp: Option<u64>,
    files: Vec<&'static str>,
    references: Vec<StorePath>,
    missing: Vec<StorePath>,
    marked: bool,
}

fn generation(guest: SandboxId, stamp: u64) -> OnDisk {
    let root = artifacts().join_text(&guest.to_text()).join_text(&fresh_generation_name());
    let references = ["image.json", "data.commit", "vm_state.bin"]
        .iter()
        .map(|name| root.join_text(name))
        .collect();
    OnDisk {
        guest,
        root,
        stamp: Some(stamp),
        files: vec!["data.commit", "vm_state.bin", "image.json", "paused-record.v2.json"],
        references,
        missing: Vec::new(),
        marked: false,
    }
}

fn reference(path: &StorePath, missing: &[StorePath]) -> ReferencedPath {
    ReferencedPath {
        path: path.copy(),
        exists: !missing.iter().any(|other| other.same(path)),
    }
}

fn survey(disk: &[&OnDisk], current: &[&OnDisk]) -> RetentionSurvey {
    let current = current.iter().map(|one| one.root.copy()).collect();
    let mut survey = RetentionSurvey::new(artifacts(), current);
    for one in disk {
        let mut found = record(one.guest, one.root.copy());
        found.checkpoint_at_unix_ms = one.stamp;
        let inventory = one.files.iter().map(|name| one.root.join_text(name)).collect();
        let references =
            one.references.iter().map(|path| reference(path, &one.missing)).collect();
        survey
            .add_generation(
                one.guest.to_text().as_bytes(),
                one.root.copy(),
                inventory,
                Ok(found),
                Some(references),
                one.marked,
            )
            .unwrap();
    }
    survey
}

fn removes(plan: &RetentionSelection, one: &OnDisk) -> bool {
    plan.generations.iter().any(|root| root.same(&one.root))
}

#[test]
fn repeated_pauses_bound_generations_and_preserve_live_and_shared_references() {
    let guest = SandboxId::new();
    let mut live = generation(guest, 0);
    live.files.push("live-only.commit");
    let payload = vec![reference(&live.root.join_text("data.commit"), &[])];
    let mut kept = vec![live];
    for stamp in 1..8 {
        kept.push(generation(guest, stamp));
        let disk: Vec<&OnDisk> = kept.iter().collect();
        let current = disk[disk.len() - 1];
        let plan = survey(&disk, &[current]).plan(&payload).unwrap();
        assert!(plan.retained_generations <= 3);
        assert!(plan.unused_layers.is_empty());
        assert!(!removes(&plan, disk[0]));
        assert!(!removes(&plan, disk[disk.len() - 2]));
        assert!(!removes(&plan, current));
        kept.retain(|one| !plan.generations.iter().any(|root| root.same(&one.root)));
    }
    let disk: Vec<&OnDisk> = kept.iter().collect();
    let plan = survey(&disk, &[disk[disk.len() - 1]]).plan(&Vec::new()).unwrap();
    assert_eq!(plan.retained_generations, 2);
    assert!(removes(&plan, disk[0]));
    assert!(!removes(&plan, disk[disk.len() - 1]));
}

#[test]
fn typed_references_protect_cross_guest_layers_and_ignore_user_metadata() {
    let guest = SandboxId::new();
    let old = generation(guest, 1);
    let rollback = generation(guest, 2);
    let mut current = generation(guest, 3);
    let mut other = generation(SandboxId::new(), 1);
    other.references = vec![other.root.join_text("image.json"), old.root.join_text("data.commit")];
    current.files.push("unused.commit");
    let plan = survey(&[&old, &rollback, &current, &other], &[&current, &other])
        .plan(&Vec::new())
        .unwrap();
    assert_eq!(plan.retained_generations, 4);
    assert!(plan.generations.is_empty());
    let removed: Vec<String> = plan.unused_layers.iter().map(|file| file.to_text()).collect();
    assert_eq!(removed.len(), 2);
    assert!(removed.contains(&current.root.join_text("unused.commit").to_text()));
    assert!(removed.contains(&other.root.join_text("data.commit").to_text()));

    other.references = vec![other.root.join_text("data.commit")];
    let plan = survey(&[&old, &rollback, &current, &other], &[&current, &other])
        .plan(&Vec::new())
        .unwrap();
    assert!(removes(&plan, &old));
    assert_eq!(plan.retained_generations, 3);
}

#[test]
fn evicted_external_cache_does_not_block_collection_but_missing_checkpoint_data_does() {
    let guest = SandboxId::new();
    let old = generation(guest, 1);
    let rollback = generation(guest, 2);
    let mut current = generation(guest, 3);
    let evicted = StorePath::from_text("/store/cache/evicted");
    current.references.push(evicted.copy());
    current.missing.push(evicted.copy());
    let outside = vec![ReferencedPath { path: evicted, exists: false }];
    let plan = survey(&[&old, &rollback, &current], &[&current]).plan(&outside).unwrap();
    assert!(removes(&plan, &old));
    assert!(!removes(&plan, &rollback));

    let lost = current.root.join_text("data.commit");
    current.missing.push(lost.copy());
    match survey(&[&rollback, &current], &[&current]).plan(&Vec::new()) {
        Err(RetentionRefusal::MissingReference { path }) => {
            assert!(path.same(&lost));
            let refusal = RetentionRefusal::MissingReference { path };
            assert_eq!(
                refusal.to_text(),
                format!("managed checkpoint reference is missing: {}", lost.to_text())
            );
        }
        _ => panic!("missing checkpoint data must block the plan"),
    }
    current.missing.clear();
    // A dangling alias cannot hide an unresolved reference into the store.
    let dangling = Resolution::Failed { source: "dangling".to_owned() };
    assert!(resolve_reference(&StorePath::from_text("/store/cache/evicted"), dangling).is_err());
    let alias = current.root.join_text("missing");
    current.references.push(alias.copy());
    current.missing.push(alias);
    assert!(survey(&[&rollback, &current], &[&current]).plan(&Vec::new()).is_err());
}

#[test]
fn unknown_or_partial_checkpoints_block_deletion() {
    let guest = SandboxId::new();
    let partial = generation(guest, 4);
    let found = || Ok(record(guest, partial.root.copy()));
    let old = generation(guest, 1);
    let rollback = generation(guest, 2);
    let current = generation(guest, 3);
    let mut survey = survey(&[&old, &rollback, &current], &[&current]);
    let recordless = survey.add_generation(
        guest.to_text().as_bytes(),
        partial.root.copy(),
        vec![partial.root.join_text("partial.commit")],
        Err("No such file or directory".to_owned()),
        None,
        false,
    );
    match recordless {
        Err(refusal) => assert_eq!(refusal.to_text(), "No such file or directory"),
        Ok(()) => panic!("a generation without a record blocks the whole survey"),
    }
    let refused = survey.add_generation(
        guest.to_text().as_bytes(),
        partial.root.copy(),
        Vec::new(),
        found(),
        None,
        false,
    );
    assert!(matches!(refused, Err(RetentionRefusal::UnknownSchema)));
    let foreign = survey.add_generation(
        SandboxId::new().to_text().as_bytes(),
        partial.root.copy(),
        Vec::new(),
        found(),
        Some(Vec::new()),
        false,
    );
    assert!(matches!(foreign, Err(RetentionRefusal::IdentityDiffers)));
    let moved = survey.add_generation(
        guest.to_text().as_bytes(),
        partial.root.join_text("elsewhere"),
        Vec::new(),
        found(),
        Some(Vec::new()),
        false,
    );
    assert!(matches!(moved, Err(RetentionRefusal::IdentityDiffers)));
}

#[test]
fn uncertain_generations_are_always_retained() {
    let guest = SandboxId::new();
    let mut marked = generation(guest, 1);
    marked.marked = true;
    marked.files.push("unused.commit");
    let mut unstamped = generation(guest, 2);
    unstamped.stamp = None;
    let first = generation(guest, 3);
    let second = generation(guest, 4);
    let third = generation(guest, 5);
    let plan = survey(&[&marked, &unstamped, &first, &second, &third], &[&third])
        .plan(&Vec::new())
        .unwrap();
    assert_eq!(plan.retained_generations, 4);
    assert!(removes(&plan, &first));
    assert!(plan.unused_layers.is_empty());
}

#[test]
fn a_current_generation_outside_the_inventory_blocks_the_plan() {
    let guest = SandboxId::new();
    let known = generation(guest, 1);
    let unknown = generation(guest, 2);
    let refused = survey(&[&known], &[&unknown]).plan(&Vec::new());
    assert!(matches!(refused, Err(RetentionRefusal::CurrentOutsideInventory)));
    assert_eq!(
        RetentionRefusal::CurrentOutsideInventory.to_text(),
        "current generation is outside managed inventory"
    );
}

#[test]
fn a_hard_link_is_won_only_with_its_last_name() {
    let empty = || RetentionSelection {
        generations: Vec::new(),
        unused_layers: Vec::new(),
        removed_files: Vec::new(),
        retained_generations: 1,
    };
    let shared = FileUsage { device: 1, inode: 1, links: 2, blocks: 8 };
    let own = FileUsage { device: 1, inode: 2, links: 1, blocks: 3 };
    assert_eq!(empty().account(&vec![shared, own]).reclaimable_bytes, 3 * 512);
    assert_eq!(empty().account(&vec![shared, own, shared]).reclaimable_bytes, 11 * 512);
    assert_eq!(empty().account(&Vec::new()).retained_generations, 1);
}

#[test]
fn the_manifest_of_a_generation_goes_last() {
    let root = StorePath::from_text("/g");
    let names = ["paused-record.v2.json", "a", "b"];
    let order = removal_order(&names.iter().map(|name| root.join_text(name)).collect());
    let shown: Vec<String> = order.iter().map(|file| file.to_text()).collect();
    assert_eq!(shown, vec!["/g/a", "/g/b", "/g/paused-record.v2.json"]);
}

#[test]
fn only_plain_files_in_known_directories_are_collected() {
    let file = StorePath::from_text("/g/file");
    assert!(matches!(files(EntryKind::File, &file), Ok(EntryUse::Take)));
    assert!(matches!(files(EntryKind::Directory, &file), Ok(EntryUse::Descend)));
    assert!(matches!(files(EntryKind::Other, &file), Err(RetentionRefusal::IrregularArtifact)));
    let link = files(EntryKind::Symlink, &file).err().unwrap();
    assert_eq!(link.to_text(), "retention refuses symlink: /g/file");
    let name = SandboxId { value: 1 }.to_text();
    assert!(check_artifact_root(EntryKind::Directory, name.as_bytes()).is_ok());
    assert!(check_generation(EntryKind::Directory, name.as_bytes()).is_ok());
    assert!(matches!(
        check_artifact_root(EntryKind::File, name.as_bytes()),
        Err(RetentionRefusal::UnknownArtifactRoot)
    ));
    assert!(matches!(
        check_generation(EntryKind::Directory, b"generation"),
        Err(RetentionRefusal::UnknownGeneration)
    ));
}
