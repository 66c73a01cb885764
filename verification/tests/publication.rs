use agentenv::ids::SandboxId;
use agentenv::orchestrator::metadata::SandboxMetadata;
use agentenv::orchestrator::persistence::codecs::PersistedPausedRecord;
use agentenv::orchestrator::persistence::deletion::{
    delete_after_validation, delete_record_and_artifacts, keep_invalid_record, next_removal,
    remove_empty_sandbox_artifact_root, remove_root, DeleteStep, EmptyRemoval, RemovalKind,
};
use agentenv::orchestrator::persistence::durable_storage::{
    remove_file_and_sync, sync_artifact_tree_and_parents, sync_directory_chain,
    sync_tree_bottom_up, write_file_atomically_and_sync, TreeSync, WriteStep,
};
use agentenv::orchestrator::persistence::error::{
    RecordFault, SandboxPersistenceError, UncertainWrite,
};
use agentenv::orchestrator::persistence::managed_paths::PathProbe;
use agentenv::orchestrator::persistence::paused_transactions::{
    PersistedPausedCommitState, PersistedPausedLifecycle,
};
use agentenv::orchestrator::persistence::publication::{
    is_replaced_generation, persist_after_encoding, persist_after_publication, persist_after_sync,
    persist_after_validation, persist_paused, put_record, uncertain_rebuild, written_manifest,
    PersistEvent, PersistStep, Publication, PublicationStart, PublishStep,
};
use agentenv::orchestrator::types::{
    Document, SandboxResources, SandboxState, SandboxTimeoutAction, SnapshotRuntimeVersions,
    VirtualizationMode,
};
use agentenv::paths::StorePath;

fn metadata(id: SandboxId) -> SandboxMetadata {
    SandboxMetadata {
        id,
        snapshot_id: "snapshot".to_owned(),
        snapshot_alias: None,
        virtualization_mode: VirtualizationMode::Kvm,
        runtime_versions: SnapshotRuntimeVersions {
            kernel: "kernel".to_owned(),
            firecracker: "firecracker".to_owned(),
            envd: "envd".to_owned(),
            tools: "tools".to_owned(),
        },
        resources: SandboxResources { cpu_count: 2, memory_mib: 512, disk_size_mib: 1024 },
        context: None,
        startup: None,
        image_configs: None,
        timeout_action: SandboxTimeoutAction::Pause,
        auto_resume: false,
        user_metadata: None,
        create_idempotency_key: None,
        create_request_fingerprint: None,
        network_policy: None,
        custom_extension_params: None,
        secure: false,
        state: SandboxState::Paused,
        created_at: 1,
        expires_at: None,
        timeout: None,
        paused_state: None,
        paused_runtime_stopped: true,
        resume_recovery_pending: false,
    }
}

fn record(id: SandboxId, artifact_root: StorePath) -> PersistedPausedRecord {
    PersistedPausedRecord {
        version: 2,
        commit_state: PersistedPausedCommitState::Committed,
        lifecycle: PersistedPausedLifecycle::Paused,
        resuming_boot_id: None,
        unproven_stop_boot_id: None,
        checkpoint_at_unix_ms: None,
        metadata: metadata(id),
        artifact_root,
        state: Document { json: "{}".to_owned() },
    }
}

fn guest() -> SandboxId {
    SandboxId { value: 7 }
}

fn root() -> StorePath {
    StorePath::from_text("/store/artifacts/guest/generation")
}

fn begin() -> Publication {
    match put_record(&record(guest(), root()), true) {
        PublicationStart::Publish(publication) => publication,
        PublicationStart::Refuse { .. } => panic!("a managed record is published"),
    }
}

#[test]
fn an_undisturbed_publication_takes_five_writes() {
    let mut publication = begin();
    let steps = [
        PublishStep::WritePreparedManifest,
        PublishStep::WriteMarker,
        PublishStep::WriteCommittedManifest,
        PublishStep::WriteCommittedIndex,
        PublishStep::RemoveMarker,
    ];
    for step in steps {
        assert_eq!(publication.step, step);
        assert!(publication.outcome().is_none());
        publication.advance(Ok(()));
    }
    assert_eq!(publication.step, PublishStep::Published);
    assert!(matches!(publication.outcome(), Some(Ok(()))));
}

#[test]
fn manifests_are_prepared_before_they_are_committed() {
    let mut publication = begin();
    let prepared = publication.manifest().unwrap();
    assert_eq!(prepared.commit_state, PersistedPausedCommitState::Prepared);
    assert!(prepared.metadata.resume_recovery_pending);
    assert!(!prepared.metadata.paused_runtime_stopped);
    publication.advance(Ok(()));
    assert!(publication.manifest().is_none());
    publication.advance(Ok(()));
    let committed = publication.manifest().unwrap();
    assert_eq!(committed.commit_state, PersistedPausedCommitState::Committed);
    assert!(committed.metadata.paused_runtime_stopped);
}

#[test]
fn failed_index_write_is_an_uncertain_commit_with_a_guard() {
    let mut publication = begin();
    for _ in 0..3 {
        publication.advance(Ok(()));
    }
    publication.advance(Err("store is closed".to_owned()));
    let failed = UncertainWrite::CommittedIndex;
    assert_eq!(publication.step, PublishStep::WriteRecoveryMarker { failed });
    publication.advance(Ok(()));
    assert_eq!(publication.step, PublishStep::WriteRecoveryManifest { failed, marked: true });
    let back = publication.manifest().unwrap();
    assert_eq!(back.commit_state, PersistedPausedCommitState::Prepared);
    publication.advance(Err("disk is full".to_owned()));
    assert_eq!(publication.step, PublishStep::StoreQuarantine { failed, guarded: true });
    let entry = publication.quarantine_uncertain_commit(&Some(b"{}".to_vec())).unwrap();
    assert_eq!(
        entry.reason,
        "failed to durably index committed paused sandbox manifest; original write error: store \
         is closed"
    );
    assert!(!entry.requires_manual_recovery);
    assert_eq!(entry.record_key, Some(guest().to_text()));
    assert_eq!(entry.record_bytes_base64.as_deref(), Some("e30="));
    publication.advance(Ok(()));
    match publication.outcome() {
        Some(Err(SandboxPersistenceError::UncertainCommit { sandbox_id, reason, source })) => {
            assert_eq!(sandbox_id, guest());
            assert_eq!(reason, failed);
            assert_eq!(source, "store is closed");
        }
        _ => panic!("a failed write leaves an uncertain commit"),
    }
}

#[test]
fn an_unguarded_generation_is_blocked() {
    let mut publication = begin();
    for _ in 0..3 {
        publication.advance(Err("disk is gone".to_owned()));
    }
    let entry = publication.quarantine_uncertain_commit(&None).unwrap();
    assert!(entry.requires_manual_recovery && entry.reconcile_if_coherent);
    assert!(entry.record_sha256.is_none());
}

#[test]
fn failed_manifest_index_rebuild_is_guarded_too() {
    let mut publication = uncertain_rebuild(&record(guest(), root()), "store is closed".to_owned());
    let failed = UncertainWrite::RebuiltIndex;
    assert_eq!(publication.step, PublishStep::WriteRecoveryMarker { failed });
    publication.advance(Ok(()));
    publication.advance(Ok(()));
    publication.advance(Ok(()));
    let error = publication.outcome().unwrap().unwrap_err();
    assert!(error.is_uncertain_commit());
    assert_eq!(
        error.to_text(),
        format!(
            "paused sandbox persistence commit is uncertain for {}: failed to rebuild paused \
             sandbox index from a valid manifest",
            guest().to_text()
        )
    );
}

#[test]
fn unmanaged_records_are_refused() {
    match put_record(&record(guest(), root()), false) {
        PublicationStart::Refuse { entry, error } => {
            assert!(entry.requires_manual_recovery);
            assert!(entry.manifest_path.is_some());
            assert_eq!(
                error.to_text(),
                format!(
                    "invalid sandbox record: paused sandbox {} artifact root is outside the \
                     managed persisted store",
                    guest().to_text()
                )
            );
        }
        PublicationStart::Publish(_) => panic!("an unmanaged record is not published"),
    }
}

#[test]
fn a_written_manifest_can_be_indexed() {
    let entry = written_manifest(&record(guest(), root()), b"{}".to_vec());
    assert!(entry.matches_index(&entry.to_index()));
    assert!(!entry.recovery_marker_present);
    assert_eq!(
        entry.path.to_text(),
        "/store/artifacts/guest/generation/paused-record.v2.json"
    );
}

#[test]
fn a_pause_is_persisted_step_by_step() {
    assert!(matches!(persist_paused(Some(root())), PersistStep::ValidateRoot { .. }));
    assert!(matches!(
        persist_after_validation(guest(), root(), true),
        PersistStep::Encode { .. }
    ));
    let state = Document { json: "{\"a\":1}".to_owned() };
    assert!(matches!(
        persist_after_encoding(guest(), root(), Ok(state)),
        PersistStep::SyncArtifacts { .. }
    ));
    let state = Document { json: "{\"a\":1}".to_owned() };
    let step = persist_after_sync(&metadata(guest()), root(), state, Some(5), Ok(()));
    let PersistStep::Publish { record } = step else {
        panic!("durable artifacts are published");
    };
    assert_eq!(record.version, 2);
    assert_eq!(record.lifecycle, PersistedPausedLifecycle::Paused);
    assert_eq!(record.checkpoint_at_unix_ms, Some(5));
    assert_eq!(record.state.json, "{\"a\":1}");
    assert!(matches!(
        persist_after_publication(root(), Ok(())),
        PersistStep::RetireReplaced { .. }
    ));
}

#[test]
fn a_record_is_published_only_after_its_artifacts() {
    let guest_metadata = metadata(guest());
    let step = persist_paused(Some(root()));
    let step = step.next(&guest_metadata, PersistEvent::Published { published: Ok(()) });
    assert!(matches!(step, PersistStep::ValidateRoot { .. }));
    let step = step.next(&guest_metadata, PersistEvent::Validated { managed: true });
    let encoded = Ok(Document { json: "{}".to_owned() });
    let step = step.next(&guest_metadata, PersistEvent::Encoded { encoded });
    let synced = PersistEvent::Synced { synced: Ok(()), checkpoint_at: None };
    let step = step.next(&guest_metadata, synced);
    assert!(matches!(step, PersistStep::Publish { .. }));
    let step = step.next(&guest_metadata, PersistEvent::Published { published: Ok(()) });
    let PersistStep::RetireReplaced { keep } = &step else {
        panic!("a published record replaces the others");
    };
    assert!(keep.same(&root()));
    let step = step.next(&guest_metadata, PersistEvent::Retired);
    assert!(matches!(step, PersistStep::Finished));
}

#[test]
fn a_refused_pause_fails_with_what_went_wrong_last() {
    let guest_metadata = metadata(guest());
    let refused = || {
        persist_paused(Some(root()))
            .next(&guest_metadata, PersistEvent::Validated { managed: false })
    };
    let stored = PersistEvent::EntryStored { stored: Ok(()) };
    let PersistStep::Failed { error } = refused().next(&guest_metadata, stored) else {
        panic!("an unmanaged root fails");
    };
    assert!(error.to_text().contains("below its persisted store"));
    let failure = Err(SandboxPersistenceError::store("put", "io".to_owned()));
    let unstored = PersistEvent::EntryStored { stored: failure };
    let PersistStep::Failed { error } = refused().next(&guest_metadata, unstored) else {
        panic!("an entry that is not stored fails");
    };
    assert!(matches!(error, SandboxPersistenceError::Store { .. }));
}

#[test]
fn a_pause_that_cannot_be_persisted_is_quarantined() {
    let PersistStep::Failed { error } = persist_paused(None) else {
        panic!("an artifact root is needed");
    };
    assert_eq!(
        error.to_text(),
        "invalid paused sandbox runtime state: file-backed persister requires an allocated \
         artifact root"
    );
    let PersistStep::Refuse { entry, error } = persist_after_validation(guest(), root(), false)
    else {
        panic!("an unmanaged root is refused");
    };
    assert!(entry.manifest_path.is_none());
    assert!(error.to_text().contains("below its persisted store"));
    let failure = Err("forced encode failure".to_owned());
    let PersistStep::Refuse { entry, error } = persist_after_encoding(guest(), root(), failure)
    else {
        panic!("an unencodable state is refused");
    };
    assert_eq!(entry.reason, "paused sandbox state encoding failed before metadata commit");
    assert_eq!(error.to_text(), "invalid sandbox record: failed to encode paused sandbox state");
    let failure = Err(SandboxPersistenceError::store("sync", "io".to_owned()));
    let state = Document { json: "{}".to_owned() };
    let step = persist_after_sync(&metadata(guest()), root(), state, None, failure);
    assert!(matches!(step, PersistStep::Refuse { .. }));
    let failure = Err(SandboxPersistenceError::store("put", "io".to_owned()));
    assert!(matches!(persist_after_publication(root(), failure), PersistStep::Failed { .. }));
}

#[test]
fn the_next_pause_retires_the_replaced_generation() {
    let other = StorePath::from_text("/store/artifacts/guest/other");
    assert!(is_replaced_generation(&root(), &other, true, true));
    assert!(!is_replaced_generation(&root(), &root(), true, true));
    assert!(!is_replaced_generation(&root(), &other, false, true));
    assert!(!is_replaced_generation(&root(), &other, true, false));
}

#[test]
fn a_deletion_removes_artifacts_before_the_record() {
    let step = delete_record_and_artifacts(guest(), Ok(record(guest(), root())));
    let DeleteStep::ValidateGeneration { record } = step else {
        panic!("the generation is validated first");
    };
    let step = delete_after_validation(guest(), &record, Some(root()));
    assert!(matches!(step, DeleteStep::RemoveGeneration { .. }));
    let step = next_removal(&step);
    assert!(matches!(step, DeleteStep::RemoveRecord));
    let step = next_removal(&step);
    assert!(matches!(step, DeleteStep::RemoveEmptyRoot));
    assert!(matches!(next_removal(&step), DeleteStep::Finished));
}

#[test]
fn recovery_pending_and_invalid_records_are_not_deleted() {
    let pending = record(guest(), root()).to_prepared();
    let DeleteStep::Failed { error } = delete_record_and_artifacts(guest(), Ok(pending)) else {
        panic!("a pending record is kept");
    };
    assert!(error.to_text().contains("refusing automatic deletion of recovery-pending"));
    let invalid = SandboxPersistenceError::InvalidRecord {
        reason: RecordFault::UndecodableIndex,
        source: None,
    };
    let DeleteStep::KeepInvalid { error } = delete_record_and_artifacts(guest(), Err(invalid))
    else {
        panic!("an invalid record is kept");
    };
    let step = keep_invalid_record(guest(), &error, &Some(b"damaged".to_vec()));
    let DeleteStep::Refuse { entry, error } = step else {
        panic!("the deletion is refused");
    };
    assert!(error.requires_explicit_purge());
    assert_eq!(entry.record_bytes_base64.as_deref(), Some("ZGFtYWdlZA=="));
    let unsafe_root = delete_after_validation(guest(), &record(guest(), root()), None);
    assert!(matches!(unsafe_root, DeleteStep::Refuse { .. }));
}

#[test]
fn a_missing_record_leaves_only_leftovers() {
    let missing = SandboxPersistenceError::InvalidRecord {
        reason: RecordFault::RecordNotFound { sandbox_id: guest() },
        source: None,
    };
    let step = delete_record_and_artifacts(guest(), Err(missing));
    assert!(matches!(step, DeleteStep::RemoveLeftovers));
    let other = SandboxPersistenceError::InvalidRecord {
        reason: RecordFault::RecordNotFound { sandbox_id: SandboxId { value: 8 } },
        source: None,
    };
    let step = delete_record_and_artifacts(guest(), Err(other));
    assert!(matches!(step, DeleteStep::KeepInvalid { .. }));
    let closed = SandboxPersistenceError::store("open RocksDB", "locked".to_owned());
    let step = delete_record_and_artifacts(guest(), Err(closed));
    assert!(matches!(step, DeleteStep::Failed { .. }));
}

#[test]
fn removals_follow_what_was_found() {
    let kind = |probe| remove_root(&root(), probe, "denied".to_owned());
    assert_eq!(kind(PathProbe::Missing).unwrap(), RemovalKind::Nothing);
    assert_eq!(kind(PathProbe::Directory).unwrap(), RemovalKind::Tree);
    assert_eq!(kind(PathProbe::Symlink).unwrap(), RemovalKind::File);
    assert_eq!(kind(PathProbe::File).unwrap(), RemovalKind::File);
    assert_eq!(
        kind(PathProbe::Unreadable).unwrap_err().to_text(),
        "failed to inspect paused sandbox artifacts /store/artifacts/guest/generation: denied"
    );
    assert!(remove_empty_sandbox_artifact_root(&root(), EmptyRemoval::NotEmpty).is_ok());
    assert!(remove_empty_sandbox_artifact_root(&root(), EmptyRemoval::Missing).is_ok());
    let failed = EmptyRemoval::Failed { source: "denied".to_owned() };
    assert!(remove_empty_sandbox_artifact_root(&root(), failed).is_err());
}

#[test]
fn directories_are_flushed_up_to_the_store() {
    let store = StorePath::from_text("/store");
    let shown = |chain: Vec<StorePath>| -> Vec<String> {
        chain.iter().map(|one| one.to_text()).collect()
    };
    assert_eq!(
        shown(sync_directory_chain(&StorePath::from_text("/store/a/b"), &store)),
        vec!["/store/a/b", "/store/a", "/store"]
    );
    assert_eq!(
        shown(sync_directory_chain(&StorePath::from_text("/other/a"), &store)),
        vec!["/other/a", "/other", "/"]
    );
    assert_eq!(
        shown(sync_artifact_tree_and_parents(&StorePath::from_text("/store/a"), &store).unwrap()),
        vec!["/store"]
    );
    let rootless = sync_artifact_tree_and_parents(&StorePath::from_text("/"), &store);
    assert_eq!(rootless.unwrap_err().to_text(), "paused snapshot artifact root / has no parent");
    let file = StorePath::from_text("/store/a/file");
    let step = write_file_atomically_and_sync(&file).unwrap();
    let WriteStep::CreateDirectory { directory } = &step else {
        panic!("the directory comes first");
    };
    assert_eq!(directory.to_text(), "/store/a");
    let step = step.next(&store, true);
    assert!(matches!(step, WriteStep::WriteTemporary { .. }));
    let step = step.next(&store, true);
    assert!(matches!(step, WriteStep::FlushTemporary { .. }));
    let step = step.next(&store, true);
    assert!(matches!(step, WriteStep::Replace { .. }));
    let WriteStep::FlushDirectories { directories } = step.next(&store, true) else {
        panic!("the directories come last");
    };
    assert_eq!(shown(directories), vec!["/store/a".to_owned(), "/store".to_owned()]);
    let flushing = WriteStep::FlushDirectories { directories: Vec::new() };
    assert!(matches!(flushing.next(&store, true), WriteStep::Done));
    let unflushed = WriteStep::FlushTemporary { directory: StorePath::from_text("/store/a") };
    assert!(matches!(unflushed.next(&store, false), WriteStep::Failed));
    assert!(remove_file_and_sync(&file, &store, false).unwrap().is_empty());
    assert_eq!(
        shown(remove_file_and_sync(&file, &store, true).unwrap()),
        vec!["/store/a", "/store"]
    );
    assert!(remove_file_and_sync(&StorePath::from_text("/"), &store, true).is_err());
    assert!(write_file_atomically_and_sync(&StorePath::from_text("/")).is_err());
}

#[test]
fn only_files_and_directories_are_flushed() {
    let flush = |probe| sync_tree_bottom_up(&root(), probe);
    assert_eq!(flush(PathProbe::Symlink).unwrap(), TreeSync::Skip);
    assert_eq!(flush(PathProbe::File).unwrap(), TreeSync::SyncFile);
    assert_eq!(flush(PathProbe::Directory).unwrap(), TreeSync::SyncContentsThenDirectory);
    assert_eq!(
        flush(PathProbe::Other).unwrap_err().to_text(),
        "unsupported paused snapshot artifact type at /store/artifacts/guest/generation"
    );
}
