use agentenv::orchestrator::types::Document;
use agentenv::paths::StorePath;
use agentenv::sandbox::checkpoint_capacity::{
    check, existing_ancestor, gather_demands, largest_consumers, refusal, Allocation, AncestorStep,
    CapacityFault, CheckpointCapacity, Consumer, DiskEntry, FilesystemDemand, FilesystemStats,
    PlacedRequirement,
};
use agentenv::sandbox::checkpoint_references::{
    absolute, image, image_references, resolve_reference, ImageStorage, LayerStorage,
    ReferenceFault, Resolution, ResolvedReference, UpperStorage,
};
use agentenv::sandbox::cold_boot::{
    decode_recovery_state, prepare_writable_disk, ColdBootFault, FirecrackerColdBootState,
    RecoveryKind,
};

fn path(text: &str) -> StorePath {
    StorePath::from_text(text)
}

fn estimate(disk: u64, memory: u64, drives: u64) -> Result<CheckpointCapacity, CapacityFault> {
    CheckpointCapacity::new(path("/state"), disk, memory, drives)
}

fn placed(device: u64, at: &str, bytes: u64, inodes: u64) -> PlacedRequirement {
    PlacedRequirement { device, path: path(at), bytes, inodes }
}

fn layer(file: &str, dir: &str) -> LayerStorage {
    LayerStorage {
        file: file.to_owned(),
        target_file: String::new(),
        gzip_index: String::new(),
        dir: dir.to_owned(),
    }
}

fn storage(data: &str) -> ImageStorage {
    ImageStorage {
        lowers: vec![layer("/a/base.commit", ""), layer("", "/cache/layer")],
        upper: UpperStorage {
            data: data.to_owned(),
            index: String::new(),
            target: String::new(),
            gzip_index: String::new(),
        },
    }
}

#[test]
fn an_estimate_doubles_disk_and_memory_and_adds_a_quarter() {
    let capacity = estimate(1000, 200, 1).unwrap();
    assert_eq!(capacity.bytes, 3000);
    assert_eq!(capacity.inodes, 4096);
    assert_eq!(estimate(1, 0, 0).unwrap().bytes, 2);
    assert_eq!(estimate(1, 1, 0).unwrap().bytes, 5);
}

#[test]
fn estimates_that_overflow_are_refused() {
    assert!(matches!(estimate(u64::MAX, 0, 0), Err(CapacityFault::DiskEstimate)));
    assert!(matches!(estimate(0, u64::MAX, 0), Err(CapacityFault::MemoryEstimate)));
    let half = u64::MAX / 2;
    assert!(matches!(estimate(half, half, 0), Err(CapacityFault::Estimate)));
    assert!(matches!(estimate(0, 0, u64::MAX), Err(CapacityFault::InodeEstimate)));
    assert!(matches!(estimate(0, 0, u64::MAX / 2048), Err(CapacityFault::InodeEstimate)));
    assert_eq!(CapacityFault::DiskEstimate.message(), "checkpoint disk estimate overflow");
}

#[test]
fn the_search_for_a_directory_goes_up() {
    let missing = path("/state/new");
    match existing_ancestor(&missing, false) {
        Ok(AncestorStep::Try { path: above }) => assert_eq!(above.to_text(), "/state"),
        _ => panic!("the directory above has to be tried"),
    }
    assert!(matches!(existing_ancestor(&missing, true), Ok(AncestorStep::Found)));
    assert!(matches!(existing_ancestor(&path("/"), false), Err(CapacityFault::NoAncestor)));
}

#[test]
fn the_first_directory_that_exists_is_found() {
    let present = ["/", "/state"];
    let mut tried = Vec::new();
    let mut current = path("/state/guests/new");
    let found = loop {
        let text = current.to_text();
        let step = existing_ancestor(&current, present.contains(&text.as_str()));
        tried.push(text.clone());
        match step {
            Ok(AncestorStep::Found) => break text,
            Ok(AncestorStep::Try { path: above }) => current = above,
            Err(_) => panic!("the root exists"),
        }
    };
    assert_eq!(found, "/state");
    assert_eq!(tried, ["/state/guests/new", "/state/guests", "/state"]);
}

#[test]
fn demands_on_one_device_are_added_up() {
    let demands = gather_demands(&vec![
        placed(9, "/b", 1, 10),
        placed(3, "/a", 5, 50),
        placed(9, "/c", 2, 20),
    ])
    .unwrap();
    assert_eq!(demands.len(), 2);
    assert_eq!((demands[0].device, demands[0].bytes, demands[0].inodes), (3, 5, 50));
    assert_eq!((demands[1].device, demands[1].bytes, demands[1].inodes), (9, 3, 30));
    assert_eq!(demands[1].path.to_text(), "/b");
}

#[test]
fn demands_that_overflow_are_refused() {
    let bytes = gather_demands(&vec![placed(1, "/a", u64::MAX, 0), placed(1, "/a", 1, 0)]);
    assert!(matches!(bytes, Err(CapacityFault::Bytes)));
    let inodes = gather_demands(&vec![placed(1, "/a", 0, u64::MAX), placed(1, "/a", 0, 1)]);
    assert!(matches!(inodes, Err(CapacityFault::Inodes)));
    let apart = gather_demands(&vec![placed(1, "/a", u64::MAX, 0), placed(2, "/b", 1, 0)]);
    assert_eq!(apart.unwrap().len(), 2);
}

#[test]
fn a_filesystem_keeps_a_twentieth_or_a_gibibyte_free() {
    let demand = FilesystemDemand { device: 1, path: path("/state"), bytes: 10, inodes: 1 };
    let small = FilesystemStats {
        blocks: 1000,
        blocks_available: 500,
        fragment_size: 4096,
        files_available: 4097,
    };
    let report = check(&demand, small).unwrap();
    assert_eq!(report.headroom_bytes, 1 << 30);
    assert_eq!(report.required_bytes, (1 << 30) + 10);
    assert_eq!(report.available_bytes, 500 * 4096);
    assert_eq!(report.required_inodes, 4097);
    assert!(!report.is_sufficient());
    let large = FilesystemStats {
        blocks: 1 << 30,
        blocks_available: 1 << 29,
        fragment_size: 4096,
        files_available: 4097,
    };
    let report = check(&demand, large).unwrap();
    assert_eq!(report.headroom_bytes, (1 << 42) / 20);
    assert!(report.is_sufficient());
    let crowded = FilesystemStats { files_available: 4096, ..large };
    assert!(!check(&demand, crowded).unwrap().is_sufficient());
    let huge = FilesystemDemand { bytes: u64::MAX, ..demand };
    assert!(matches!(check(&huge, large), Err(CapacityFault::Headroom)));
}

#[test]
fn a_refusal_tells_what_is_missing() {
    let demand = FilesystemDemand { device: 1, path: path("/state"), bytes: 10, inodes: 1 };
    let stats = FilesystemStats {
        blocks: 0,
        blocks_available: 0,
        fragment_size: 1,
        files_available: 7,
    };
    let report = check(&demand, stats).unwrap();
    assert_eq!(
        refusal(&demand, report, "[(\"layers\", 5)]"),
        "checkpoint capacity refused before stopping guests: filesystem=/state \
         required_bytes=1073741834 available_bytes=0 headroom_bytes=1073741824 \
         required_inodes=4097 available_inodes=7 largest_state_consumers=[(\"layers\", 5)]; \
         add capacity or review reference-aware cleanup; do not remove live layers or recovery \
         backups"
    );
}

#[test]
fn every_inode_is_counted_once() {
    let mut allocation = Allocation::new();
    let directory =
        DiskEntry { device: 1, inode: 1, blocks: 8, is_symlink: false, is_directory: true };
    let file = DiskEntry { inode: 2, blocks: 16, is_directory: false, ..directory };
    let link = DiskEntry { inode: 3, is_symlink: true, ..file };
    assert!(allocation.visit(directory));
    assert!(!allocation.visit(file));
    assert!(!allocation.visit(file));
    assert!(!allocation.visit(link));
    assert!(!allocation.visit(directory));
    assert_eq!(allocation.total(), 24 * 512);
    assert!(!allocation.visit(DiskEntry { inode: 4, blocks: u64::MAX, ..file }));
    assert_eq!(allocation.total(), u64::MAX);
}

#[test]
fn the_five_largest_consumers_are_told() {
    let usage = [3, 9, 1, 9, 4, 2, 7]
        .iter()
        .enumerate()
        .map(|(at, bytes)| Consumer { name: at.to_string(), bytes: *bytes })
        .collect();
    let told: Vec<(String, u64)> =
        largest_consumers(usage).into_iter().map(|one| (one.name, one.bytes)).collect();
    let expected = [("1", 9), ("3", 9), ("6", 7), ("4", 4), ("0", 3)];
    assert_eq!(told.len(), expected.len());
    for (found, (name, bytes)) in told.iter().zip(expected) {
        assert_eq!((found.0.as_str(), found.1), (name, bytes));
    }
}

#[test]
fn references_are_absolute_and_never_step_back() {
    assert!(absolute(&path("/a/b")).is_ok());
    let relative = absolute(&path("a/b")).unwrap_err();
    assert_eq!(
        relative.to_text(),
        "checkpoint artifact reference must be absolute without parent traversal: a/b"
    );
    assert!(matches!(absolute(&path("/a/../b")), Err(ReferenceFault::NotAbsolute { .. })));
}

#[test]
fn an_evicted_entry_is_resolved_through_its_directory() {
    match resolve_reference(&path("/cache/evicted"), Resolution::Missing) {
        Ok(ResolvedReference::Below { parent, name }) => {
            assert_eq!(parent.to_text(), "/cache");
            assert_eq!(name, b"evicted".to_vec());
        }
        _ => panic!("the directory of the entry has to be resolved"),
    }
    let resolved = Resolution::Resolved { path: path("/real") };
    match resolve_reference(&path("/alias"), resolved) {
        Ok(ResolvedReference::Path { path }) => assert_eq!(path.to_text(), "/real"),
        _ => panic!("a resolved reference is taken as it is"),
    }
    assert!(matches!(
        resolve_reference(&path("/"), Resolution::Missing),
        Err(ReferenceFault::NoParent)
    ));
    let failed = resolve_reference(
        &path("/loop"),
        Resolution::Failed { source: "too many links".to_owned() },
    );
    assert_eq!(
        failed.unwrap_err().to_text(),
        "resolve checkpoint reference: /loop: too many links"
    );
}

#[test]
fn an_image_refers_to_its_storage_alone() {
    let values = image_references(&storage("/a/upper.data"));
    assert_eq!(values, vec!["/a/base.commit", "/cache/layer", "/a/upper.data"]);
    let references = image(&path("/a/image.json"), &storage("")).unwrap();
    let shown: Vec<String> = references.iter().map(|one| one.to_text()).collect();
    assert_eq!(shown, vec!["/a/image.json", "/a/base.commit", "/cache/layer"]);
    match image(&path("/a/image.json"), &storage("upper.data")) {
        Err(ReferenceFault::NotAbsolute { path }) => assert_eq!(path.to_text(), "upper.data"),
        _ => panic!("a relative layer has to be refused"),
    }
}

#[test]
fn a_writable_layer_is_never_replaced() {
    let disk = prepare_writable_disk(&path("/generation/image.json"), "").unwrap();
    assert_eq!(disk.data.to_text(), "/generation/boot-upper.data");
    assert_eq!(disk.index.to_text(), "/generation/boot-upper.index");
    let again = prepare_writable_disk(&path("/generation/image.json"), "/generation/upper");
    assert!(matches!(again, Err(ColdBootFault::AlreadyWritable)));
    assert!(matches!(prepare_writable_disk(&path("/"), ""), Err(ColdBootFault::NoParent)));
}

#[test]
fn disk_only_records_are_told_by_their_version() {
    let state = FirecrackerColdBootState::new(Ok(Document { json: "{}".to_owned() })).unwrap();
    assert_eq!(state.cold_boot_version, 1);
    assert_eq!(state.require_version(), Ok(()));
    let unsupported = FirecrackerColdBootState { cold_boot_version: 2, config: state.config };
    assert_eq!(unsupported.require_version(), Err(ColdBootFault::UnsupportedVersion));
    assert!(FirecrackerColdBootState::new(Err("no disk".to_owned())).is_err());
    assert_eq!(
        decode_recovery_state(br#"{"cold_boot_version":1,"config":{}}"#),
        RecoveryKind::ColdBoot
    );
    assert_eq!(decode_recovery_state(br#"{"vm_state_path":"/a"}"#), RecoveryKind::Memory);
    assert_eq!(decode_recovery_state(b"["), RecoveryKind::Memory);
}
