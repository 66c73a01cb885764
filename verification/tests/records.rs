use agentenv::digest::sha256_hex;
use agentenv::ids::SandboxId;
use agentenv::orchestrator::metadata::SandboxMetadata;
use agentenv::orchestrator::persistence::codecs::{
    decode_create_idempotency_record, decode_paused_index, decode_paused_state, decode_record,
    decode_recovery_pending_state, decode_stored_paused_entry, default_commit_state,
    encode_create_idempotency_record, manifest_path, paused_metadata_without_runtime_state,
    recovery_marker_path, ManifestEntry, PersistedCreateIdempotencyRecord, PersistedPausedIndex,
    PersistedPausedRecord, StoredPausedEntry,
};
use agentenv::orchestrator::persistence::error::{RecordFault, SandboxPersistenceError};
use agentenv::orchestrator::persistence::journal::{
    journal_key, load, CreateIdempotencyRecord, CreateIdempotencyRecordState, JournalEntry,
};
use agentenv::orchestrator::persistence::loading::{
    claim_sandbox, finish_guarded_load, finish_load, load_reconciled_record, look_at_boot,
    reconcile_record_lifecycle, recovery_notice, LoadEvent, LoadOutcome, LoadStep,
};
use agentenv::orchestrator::persistence::paused_transactions::{
    finalize_resumed_record, host_boot_id, host_reboot_proves_runtime_absent, require_boot_id,
    PersistedPausedCommitState, PersistedPausedLifecycle, ResumeFinalization,
    StopProofReconciliation,
};
use agentenv::orchestrator::persistence::persister::{DisabledSandboxPersister, SandboxPersister};
use agentenv::orchestrator::types::{
    Document, PausedStateRef, SandboxResources, SandboxState, SandboxTimeoutAction,
    SnapshotRuntimeVersions, VirtualizationMode,
};
use agentenv::paths::StorePath;

fn metadata(id: SandboxId) -> SandboxMetadata {
    SandboxMetadata {
        id,
        snapshot_id: "snapshot".to_owned(),
        snapshot_alias: None,
        virtualization_mode: VirtualizationMode::Kvm,
        runtime_versions: SnapshotRuntimeVersions {
            kernel: "kernel".to_owned(),
            firecracker: "firecracker".to_owned(),
            envd: "envd".to_owned(),
            tools: "tools".to_owned(),
        },
        resources: SandboxResources { cpu_count: 2, memory_mib: 512, disk_size_mib: 1024 },
        context: None,
        startup: None,
        image_configs: None,
        timeout_action: SandboxTimeoutAction::Pause,
        auto_resume: false,
        user_metadata: None,
        create_idempotency_key: None,
        create_request_fingerprint: None,
        network_policy: None,
        custom_extension_params: None,
        secure: false,
        state: SandboxState::Paused,
        created_at: 1,
        expires_at: None,
        timeout: None,
        paused_state: None,
        paused_runtime_stopped: true,
        resume_recovery_pending: false,
    }
}

fn record(id: SandboxId, artifact_root: StorePath) -> PersistedPausedRecord {
    PersistedPausedRecord {
        version: 2,
        commit_state: PersistedPausedCommitState::Committed,
        lifecycle: PersistedPausedLifecycle::Paused,
        resuming_boot_id: None,
        unproven_stop_boot_id: None,
        checkpoint_at_unix_ms: None,
        metadata: metadata(id),
        artifact_root,
        state: Document { json: "{}".to_owned() },
    }
}

fn guest() -> SandboxId {
    SandboxId { value: 7 }
}

fn sample() -> PersistedPausedRecord {
    record(guest(), StorePath::from_text("/store/artifacts/guest/generation"))
}

fn index() -> PersistedPausedIndex {
    PersistedPausedIndex {
        index_version: 2,
        sandbox_id: guest(),
        manifest_path: StorePath::from_text("/store/artifacts/guest/generation/paused-record.v2.json"),
        manifest_sha256: sha256_hex(b"{}"),
    }
}

fn claim(state: CreateIdempotencyRecordState) -> CreateIdempotencyRecord {
    CreateIdempotencyRecord {
        key: "create-journal-roundtrip".to_owned(),
        request_fingerprint: "sha256:journal-roundtrip".to_owned(),
        sandbox_id: guest(),
        state,
    }
}

#[test]
fn manifests_and_markers_have_fixed_names() {
    let root = StorePath::from_text("/store/artifacts/guest/generation");
    assert_eq!(
        manifest_path(&root).to_text(),
        "/store/artifacts/guest/generation/paused-record.v2.json"
    );
    assert_eq!(
        recovery_marker_path(&root).to_text(),
        "/store/artifacts/guest/generation/.paused-record.v2.recovery-pending"
    );
    assert_eq!(default_commit_state(), PersistedPausedCommitState::Committed);
}

fn beneath(error: &SandboxPersistenceError) -> &str {
    match error {
        SandboxPersistenceError::InvalidRecord { source: Some(source), .. } => source,
        _ => panic!("nothing lies beneath {error:?}"),
    }
}

#[test]
fn records_of_known_versions_are_accepted() {
    assert!(decode_record(Ok(sample())).is_ok());
    let mut legacy = sample();
    legacy.version = 1;
    assert!(decode_record(Ok(legacy)).is_ok());
    let mut unknown = sample();
    unknown.version = 3;
    let error = decode_record(Ok(unknown)).unwrap_err();
    assert_eq!(error.to_text(), "invalid sandbox record: unsupported record version 3");
    let error = decode_record(Err("expected value".to_owned())).unwrap_err();
    assert_eq!(error.to_text(), "invalid sandbox record: failed to deserialize record");
}

#[test]
fn stored_entries_are_indexes_or_legacy_records() {
    let unparsed = || Err::<PersistedPausedIndex, String>("no index".to_owned());
    let entry = decode_stored_paused_entry(br#"{"indexVersion":2}"#, Ok(index()), Ok(sample()));
    assert!(matches!(entry, Ok(StoredPausedEntry::Index(_))));
    let mut legacy = sample();
    legacy.version = 1;
    let entry = decode_stored_paused_entry(br#"{"version":1}"#, unparsed(), Ok(legacy));
    assert!(matches!(entry, Ok(StoredPausedEntry::Legacy(_))));
    let error = decode_stored_paused_entry(br#"{"version":2}"#, unparsed(), Ok(sample()));
    assert_eq!(
        error.unwrap_err().to_text(),
        "invalid sandbox record: paused sandbox record version 2 must be stored in a v2 manifest"
    );
    let error = decode_stored_paused_entry(b"{", unparsed(), Ok(sample())).unwrap_err();
    assert_eq!(
        error.to_text(),
        "invalid sandbox record: failed to deserialize paused sandbox record or index"
    );
    assert_eq!(beneath(&error), "EOF while parsing an object at line 1 column 1");
    let error = decode_stored_paused_entry(br#"{"indexVersion":2}"#, unparsed(), Ok(sample()));
    assert_eq!(
        error.unwrap_err().to_text(),
        "invalid sandbox record: failed to deserialize paused sandbox index"
    );
}

#[test]
fn indexes_of_another_version_are_refused() {
    let mut newer = index();
    newer.index_version = 3;
    let error = decode_paused_index(Ok(newer)).unwrap_err();
    assert_eq!(error.to_text(), "invalid sandbox record: unsupported paused sandbox index version 3");
    assert!(decode_paused_index(Ok(index())).is_ok());
}

#[test]
fn an_index_is_for_one_manifest_byte_by_byte() {
    let entry = ManifestEntry {
        path: manifest_path(&sample().artifact_root),
        bytes: b"{}".to_vec(),
        record: sample(),
        recovery_marker_present: false,
    };
    assert!(entry.matches_index(&index()));
    assert!(entry.matches_index(&entry.to_index()));
    assert_eq!(entry.to_index().manifest_sha256, sha256_hex(b"{}"));
    let changed = ManifestEntry { bytes: b"{ }".to_vec(), ..entry };
    assert!(!changed.matches_index(&index()));
}

#[test]
fn create_idempotency_journal_entries_are_read_back() {
    let stored = encode_create_idempotency_record(claim(CreateIdempotencyRecordState::Creating));
    assert_eq!(stored.version, 1);
    let key = journal_key(&stored.record.key);
    assert_eq!(key, b"create-journal-roundtrip".to_vec());
    let records = load(vec![JournalEntry { key, parsed: Ok(stored) }]).unwrap();
    assert_eq!(records.len(), 1);
    assert_eq!(records[0].request_fingerprint, "sha256:journal-roundtrip");
    assert_eq!(records[0].state, CreateIdempotencyRecordState::Creating);
}

#[test]
fn a_damaged_journal_is_refused_as_a_whole() {
    let good = || JournalEntry {
        key: b"create-journal-roundtrip".to_vec(),
        parsed: Ok(encode_create_idempotency_record(claim(CreateIdempotencyRecordState::Failed))),
    };
    let text = |bad: JournalEntry| load(vec![good(), bad]).unwrap_err().to_text();
    let mut foreign = good();
    foreign.key = b"other".to_vec();
    assert_eq!(
        text(foreign),
        "invalid sandbox record: create idempotency record key mismatch: database key 'other' \
         contains 'create-journal-roundtrip'"
    );
    let mut binary = good();
    binary.key = vec![0xff];
    let error = load(vec![good(), binary]).unwrap_err();
    assert_eq!(
        error.to_text(),
        "invalid sandbox record: create idempotency record key is not UTF-8"
    );
    assert_eq!(beneath(&error), "invalid utf-8 sequence of 1 bytes from index 0");
    let mut unparsed = good();
    unparsed.parsed = Err("eof".to_owned());
    assert_eq!(
        text(unparsed),
        "invalid sandbox record: failed to deserialize create idempotency record"
    );
    let newer = PersistedCreateIdempotencyRecord {
        version: 2,
        record: claim(CreateIdempotencyRecordState::Failed),
    };
    assert_eq!(
        decode_create_idempotency_record(Ok(newer)).unwrap_err().to_text(),
        "invalid sandbox record: unsupported create idempotency record version 2"
    );
    let mut empty = encode_create_idempotency_record(claim(CreateIdempotencyRecordState::Failed));
    empty.record.request_fingerprint = String::new();
    assert_eq!(
        decode_create_idempotency_record(Ok(empty)).unwrap_err().to_text(),
        "invalid sandbox record: create idempotency record has an empty key or fingerprint"
    );
}

#[test]
fn prepared_and_committed_forms_differ_in_what_they_allow() {
    let prepared = sample().to_prepared();
    assert!(prepared.is_recovery_pending());
    assert!(!prepared.metadata.paused_runtime_stopped);
    let committed = sample().to_committed();
    assert!(!committed.is_recovery_pending());
    assert!(committed.metadata.paused_runtime_stopped);
}

#[test]
fn decoded_state_makes_a_sandbox_resumable() {
    let mut found = sample();
    found.metadata.state = SandboxState::Resuming;
    let metadata = decode_paused_state(found, Ok(PausedStateRef { handle: 9 })).unwrap();
    assert_eq!(metadata.state, SandboxState::Paused);
    assert!(metadata.paused_state.is_some());
    let guarded =
        decode_recovery_pending_state(sample(), Ok(PausedStateRef { handle: 9 })).unwrap();
    assert!(guarded.resume_recovery_pending && !guarded.paused_runtime_stopped);
    let error = decode_paused_state(sample(), Err("forced decode failure".to_owned()));
    assert_eq!(
        error.unwrap_err().to_text(),
        "invalid sandbox record: failed to decode paused sandbox state"
    );
    assert!(paused_metadata_without_runtime_state(sample()).paused_state.is_none());
}

#[test]
fn boot_identifiers_are_trimmed() {
    assert_eq!(host_boot_id(Some("boot\n".to_owned())), Some("boot".to_owned()));
    assert_eq!(host_boot_id(Some(" \n".to_owned())), None);
    assert_eq!(host_boot_id(None), None);
}

#[test]
fn only_a_changed_boot_proves_absence() {
    let boot = |name: &str| Some(name.to_owned());
    assert!(host_reboot_proves_runtime_absent(&boot("a"), &boot("b")));
    assert!(!host_reboot_proves_runtime_absent(&boot("a"), &boot("a")));
    assert!(!host_reboot_proves_runtime_absent(&None, &boot("b")));
    assert!(!host_reboot_proves_runtime_absent(&boot("a"), &None));
}

#[test]
fn stop_proofs_take_two_boots() {
    let mut found = sample();
    found.metadata.paused_runtime_stopped = false;
    let first = "first".to_owned();
    let outcome = found.reconcile_stop_proof_for_boot(&first);
    assert_eq!(outcome, StopProofReconciliation::ObservationRecorded);
    let outcome = found.reconcile_stop_proof_for_boot(&first);
    assert_eq!(outcome, StopProofReconciliation::Unchanged);
    assert!(!found.metadata.paused_runtime_stopped);
    let outcome = found.reconcile_stop_proof_for_boot(&"second".to_owned());
    assert_eq!(outcome, StopProofReconciliation::RuntimeAbsent);
    assert!(found.metadata.paused_runtime_stopped);
    assert!(found.unproven_stop_boot_id.is_none());
}

#[test]
fn marking_and_rolling_back_a_resume_leaves_a_pause() {
    let mut found = sample();
    found.mark_resuming("boot".to_owned());
    assert_eq!(found.lifecycle, PersistedPausedLifecycle::Resuming);
    assert_eq!(found.resuming_boot_id.as_deref(), Some("boot"));
    assert!(!found.metadata.paused_runtime_stopped);
    assert_eq!(
        found.mark_paused_runtime_stopped(guest()).unwrap_err().to_text(),
        format!(
            "invalid sandbox record: cannot mark paused runtime {} stopped while record is \
             Resuming",
            guest().to_text()
        )
    );
    found.rollback_resuming();
    assert_eq!(found.lifecycle, PersistedPausedLifecycle::Paused);
    assert!(found.resuming_boot_id.is_none());
    assert!(!found.metadata.paused_runtime_stopped);
    found.mark_paused_runtime_stopped(guest()).unwrap();
    assert!(found.metadata.paused_runtime_stopped);
}

#[test]
fn resumes_need_a_boot_identifier() {
    assert_eq!(require_boot_id(guest(), Some("boot".to_owned())).unwrap(), "boot");
    assert_eq!(
        require_boot_id(guest(), None).unwrap_err().to_text(),
        format!(
            "invalid sandbox record: cannot mark paused sandbox {} resuming because the Linux \
             host boot ID is unavailable",
            guest().to_text()
        )
    );
}

#[test]
fn a_finished_resume_drops_the_index_and_keeps_the_generation() {
    let mut resuming = sample();
    resuming.mark_resuming("boot".to_owned());
    assert_eq!(
        finalize_resumed_record(&mut resuming, guest()).unwrap(),
        ResumeFinalization::PublishAndDrop
    );
    assert_eq!(resuming.lifecycle, PersistedPausedLifecycle::Resumed);
    assert!(resuming.resuming_boot_id.is_none());
    assert_eq!(
        finalize_resumed_record(&mut resuming, guest()).unwrap(),
        ResumeFinalization::Drop
    );
    let error = finalize_resumed_record(&mut sample(), guest()).unwrap_err();
    assert!(error.to_text().ends_with("before it is marked resuming"));
    let error = finalize_resumed_record(&mut sample().to_prepared(), guest()).unwrap_err();
    assert!(error.to_text().ends_with("while its persistence commit is recovery-pending"));
}

#[test]
fn prepared_records_are_loaded_only_recovery_pending() {
    let prepared = sample().to_prepared();
    let step = reconcile_record_lifecycle(prepared, VirtualizationMode::Kvm, &None);
    let LoadStep::DecodeGuarded { record, interrupted: false } = step else {
        panic!("a prepared record has to be decoded under guard");
    };
    let outcome = finish_guarded_load(record, false, Ok(PausedStateRef { handle: 1 }));
    let LoadOutcome::Listed { metadata } = outcome else {
        panic!("a decodable record is listed");
    };
    assert!(metadata.resume_recovery_pending && !metadata.paused_runtime_stopped);
}

#[test]
fn records_of_another_mode_are_visible_but_not_resumable() {
    let step = load_reconciled_record(sample(), VirtualizationMode::Pvm);
    let LoadStep::Complete { metadata } = step else {
        panic!("a record of another mode is listed without its runtime");
    };
    assert!(metadata.paused_state.is_none());
    assert!(metadata.paused_runtime_stopped);
    let step = load_reconciled_record(sample(), VirtualizationMode::Kvm);
    assert!(matches!(step, LoadStep::Decode { .. }));
    let pending = reconcile_record_lifecycle(
        sample().to_prepared(),
        VirtualizationMode::Pvm,
        &None,
    );
    let LoadStep::Complete { metadata } = pending else {
        panic!("a pending record of another mode is listed without its runtime");
    };
    assert!(metadata.resume_recovery_pending && metadata.paused_state.is_none());
}

#[test]
fn a_load_publishes_what_it_learns_before_it_lists() {
    let mode = VirtualizationMode::Kvm;
    let mut unproven = sample();
    unproven.metadata.paused_runtime_stopped = false;
    let step = reconcile_record_lifecycle(unproven, mode, &None);
    assert!(matches!(step, LoadStep::Continue { .. }));
    let step = step.next(mode, LoadEvent::Looked { boot_id: Some("boot".to_owned()) });
    let LoadStep::PublishLooked { record } = &step else {
        panic!("the boot has to be taken down");
    };
    assert_eq!(record.unproven_stop_boot_id.as_deref(), Some("boot"));
    let step = step.next(mode, LoadEvent::Published { published: Ok(()) });
    assert!(matches!(step, LoadStep::Decode { .. }));
    let step = step.next(mode, LoadEvent::Decoded { decoded: Ok(PausedStateRef { handle: 1 }) });
    let metadata = step.finish().unwrap().unwrap();
    assert_eq!(metadata.paused_state, Some(PausedStateRef { handle: 1 }));
}

#[test]
fn a_load_that_cannot_write_lists_nothing() {
    let mode = VirtualizationMode::Kvm;
    let failure = || SandboxPersistenceError::store("put", "full".to_owned());
    let mut unproven = sample();
    unproven.metadata.paused_runtime_stopped = false;
    let step = LoadStep::Continue { record: unproven }
        .next(mode, LoadEvent::Looked { boot_id: Some("boot".to_owned()) })
        .next(mode, LoadEvent::Published { published: Err(failure()) });
    assert!(step.finish().is_err());
    let undecodable = || {
        LoadStep::Decode { record: sample() }
            .next(mode, LoadEvent::Decoded { decoded: Err("forced".to_owned()) })
    };
    assert!(matches!(undecodable(), LoadStep::Store { .. }));
    let skipped = undecodable().next(mode, LoadEvent::Stored { stored: Ok(()) });
    assert!(skipped.finish().unwrap().is_none());
    let failed = undecodable().next(mode, LoadEvent::Stored { stored: Err(failure()) });
    assert!(failed.finish().is_err());
}

#[test]
fn resuming_records_wait_for_a_later_boot() {
    let mut resuming = sample();
    resuming.mark_resuming("boot".to_owned());
    let same_boot = reconcile_record_lifecycle(
        resuming.copy(),
        VirtualizationMode::Kvm,
        &Some("boot".to_owned()),
    );
    assert!(matches!(same_boot, LoadStep::DecodeGuarded { interrupted: true, .. }));
    let later_boot = reconcile_record_lifecycle(
        resuming,
        VirtualizationMode::Kvm,
        &Some("boot-next".to_owned()),
    );
    let LoadStep::PublishRestored { record } = later_boot else {
        panic!("a later boot restores the pause");
    };
    assert_eq!(record.lifecycle, PersistedPausedLifecycle::Paused);
    assert!(record.metadata.paused_runtime_stopped);
    assert!(record.resuming_boot_id.is_none());
}

#[test]
fn a_completed_resume_is_listed_for_explicit_recovery() {
    let resumed = || {
        let mut resumed = sample();
        resumed.lifecycle = PersistedPausedLifecycle::Resumed;
        resumed.metadata.paused_runtime_stopped = false;
        resumed
    };
    let later_boot = Some("boot-next".to_owned());
    let step = reconcile_record_lifecycle(resumed(), VirtualizationMode::Kvm, &later_boot);
    let LoadStep::DecodeGuarded { record, interrupted } = step else {
        panic!("no boot restores a completed resume");
    };
    assert!(!interrupted);
    let outcome = finish_guarded_load(record, interrupted, Ok(PausedStateRef { handle: 4 }));
    let LoadOutcome::Listed { metadata } = outcome else {
        panic!("the last checkpoint is listed");
    };
    assert_eq!(metadata.state, SandboxState::Paused);
    assert!(metadata.resume_recovery_pending && !metadata.paused_runtime_stopped);
    assert_eq!(metadata.paused_state, Some(PausedStateRef { handle: 4 }));
}

#[test]
fn a_resumed_checkpoint_reports_what_may_be_lost() {
    let mut record = sample();
    record.checkpoint_at_unix_ms = Some(1_000);
    assert!(recovery_notice(&record, 5_000).is_none());
    record.lifecycle = PersistedPausedLifecycle::Resumed;
    let notice = recovery_notice(&record, 5_000).unwrap();
    assert_eq!(notice.sandbox_id, record.metadata.id);
    assert_eq!(notice.captured_at_unix_ms, Some(1_000));
    assert_eq!(notice.possible_loss_ms, Some(4_000));
    assert_eq!(recovery_notice(&record, 10).unwrap().possible_loss_ms, Some(0));
    record.lifecycle = PersistedPausedLifecycle::Resuming;
    record.checkpoint_at_unix_ms = None;
    let unknown = recovery_notice(&record, 5_000).unwrap();
    assert_eq!((unknown.captured_at_unix_ms, unknown.possible_loss_ms), (None, None));
}

#[test]
fn a_look_at_the_boot_is_published_where_it_changes_the_record() {
    let look = look_at_boot(sample(), &Some("boot".to_owned()));
    assert!(!look.publish);
    let mut unproven = sample();
    unproven.metadata.paused_runtime_stopped = false;
    let look = look_at_boot(unproven.copy(), &Some("boot".to_owned()));
    assert!(look.publish);
    assert_eq!(look.record.unproven_stop_boot_id.as_deref(), Some("boot"));
    assert!(!look_at_boot(unproven, &None).publish);
}

#[test]
fn undecodable_records_are_quarantined_with_their_artifacts() {
    let outcome = finish_load(sample(), Err("forced decode failure".to_owned()));
    let LoadOutcome::Quarantined { entry } = outcome else {
        panic!("an undecodable record is quarantined");
    };
    assert_eq!(
        entry.reason,
        "paused sandbox state could not be decoded: invalid sandbox record: failed to decode \
         paused sandbox state"
    );
    assert!(entry.requires_manual_recovery);
    assert!(entry.record_key.is_none());
    assert!(entry.artifact_root.unwrap().same(&sample().artifact_root));
    let outcome = finish_guarded_load(sample(), true, Err("forced".to_owned()));
    let LoadOutcome::Quarantined { entry } = outcome else {
        panic!("an undecodable record is quarantined");
    };
    assert!(entry.reason.starts_with("interrupted resume paused sandbox state"));
}

#[test]
fn a_sandbox_is_claimed_by_one_record() {
    let mut seen = Vec::new();
    assert!(claim_sandbox(&mut seen, &sample()).is_none());
    let entry = claim_sandbox(&mut seen, &sample()).unwrap();
    assert_eq!(entry.reason, "multiple persisted paused records claim the same sandbox ID");
    assert_eq!(seen, vec![guest()]);
}

#[test]
fn errors_say_what_they_are_about() {
    let io = SandboxPersistenceError::io(
        "read paused sandbox manifest",
        &StorePath::from_text("/m"),
        "denied".to_owned(),
    );
    assert_eq!(io.to_text(), "failed to read paused sandbox manifest /m: denied");
    let store = SandboxPersistenceError::store("open RocksDB", "locked".to_owned());
    assert_eq!(store.to_text(), "paused sandbox store operation failed: open RocksDB: locked");
    assert!(!store.is_uncertain_commit() && !store.requires_explicit_purge());
    let manual = SandboxPersistenceError::manual_recovery(guest(), "unsafe".to_owned());
    assert!(manual.requires_explicit_purge());
    let fault = RecordFault::Outside { message: "join failed".to_owned() };
    assert_eq!(fault.to_text(), "join failed");
}

#[test]
fn a_disabled_persister_keeps_nothing() {
    let persister = DisabledSandboxPersister;
    assert!(persister.load_all().unwrap().is_empty());
    assert!(persister.allocate_artifact_root(&guest()).unwrap().is_none());
    assert!(persister.mark_resuming(&guest()).is_ok());
    assert!(persister.load_create_idempotency_records().unwrap().is_empty());
    assert!(persister.delete_create_idempotency_record("key").is_ok());
}
