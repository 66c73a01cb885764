use agentenv::disk_branch::{
    branch_directory, commit, identity, prepare, replayed_image, require_absolute, root, validate,
    BranchFault, PrepareStep, PublishStep, ReplayEvent, ReplayStep,
};
use agentenv::ids::SandboxId;
use agentenv::orchestrator::persistence::managed_paths::PathProbe;
use agentenv::paths::StorePath;
use std::collections::HashSet;

fn path(text: &str) -> StorePath {
    StorePath::from_text(text)
}

fn branch() -> String {
    "ab".repeat(32)
}

#[test]
fn exact_retry_keys_and_source_identity_never_alias_path_components() {
    let source = SandboxId::new();
    let keys = ["a:b", "a_b", ".", "..", " key", "key", "key "];
    let ids: HashSet<String> = keys.iter().map(|key| identity(source, Some(key))).collect();
    assert_eq!(ids.len(), keys.len());
    for id in ids {
        assert_eq!(id.len(), 64);
        assert!(!id.contains('.'));
    }
    assert_ne!(identity(source, Some("key")), identity(SandboxId::new(), Some("key")));
    assert_ne!(identity(source, None), identity(source, None));
}

#[test]
fn an_identity_is_the_digest_of_source_and_key() {
    // The digest of b"agentenv-disk-branch-v1\0" + thirty-six zero-and-hyphen characters
    // + b"\0key".
    let source = SandboxId { value: 0 };
    let message = b"agentenv-disk-branch-v1\x0000000000-0000-0000-0000-000000000000\x00key";
    let expected = agentenv::digest::sha256_hex(message);
    assert_eq!(identity(source, Some("key")), expected);
    assert!(expected.bytes().all(|byte| matches!(byte, b'0'..=b'9' | b'a'..=b'f')));
    assert_eq!(identity(source, Some("key")), identity(source, Some("key")));
}

#[test]
fn the_root_lies_under_the_work_directory() {
    let given = root(&Some(path("/var/lib/aenv")), &path("/tmp"));
    assert_eq!(given.to_text(), "/var/lib/aenv/managed-snapshots/disk-branches");
    let fallen_back = root(&None, &path("/tmp"));
    assert_eq!(fallen_back.to_text(), "/tmp/aenv/managed-snapshots/disk-branches");
}

#[test]
fn a_committed_branch_is_replayed_and_passes_validation() {
    let directory = path(&format!("/root/{}", branch()));
    let image = directory.join_text("image.json");
    let step = commit(&directory, &image, true).unwrap();
    let marker = format!("overlaybd-config:/root/{}/image.json", branch());
    assert_eq!(step, PublishStep::FlushArtifacts { marker: marker.clone() });
    let step = step.next(true);
    assert_eq!(step, PublishStep::InstallMarker { marker: marker.clone() });
    assert_eq!(step.next(true), PublishStep::Published { image: marker.clone() });
    let replayed = replayed_image(&marker).unwrap();
    assert!(replayed.same(&image));
    assert_eq!(validate(&replayed, true, &Some(marker)), Ok(()));
}

#[test]
fn a_failed_write_publishes_nothing() {
    let directory = path("/root/branch");
    let image = directory.join_text("image.json");
    let unflushed = commit(&directory, &image, true).unwrap().next(false);
    assert_eq!(unflushed, PublishStep::Failed);
    assert_eq!(unflushed.next(true), PublishStep::Failed);
    let unmarked = commit(&directory, &image, true).unwrap().next(true).next(false);
    assert_eq!(unmarked, PublishStep::Failed);
}

#[test]
fn a_replay_resolves_and_flushes_before_it_reports() {
    let marker = "overlaybd-config:/root/branch/image.json".to_owned();
    let step = ReplayStep::ReadMarker.next(ReplayEvent::MarkerRead { marker: marker.clone() });
    let ReplayStep::Resolve { image, .. } = &step else {
        panic!("the marker names an image");
    };
    assert_eq!(image.to_text(), "/root/branch/image.json");
    let step = step.next(ReplayEvent::Succeeded);
    assert!(matches!(step, ReplayStep::Flush { .. }));
    let ReplayStep::Replayed { image } = step.next(ReplayEvent::Succeeded) else {
        panic!("the branch was flushed");
    };
    assert_eq!(image, marker);
    let missing = ReplayStep::ReadMarker.next(ReplayEvent::MarkerMissing);
    assert!(matches!(missing, ReplayStep::Unpublished));
    assert!(matches!(missing.next(ReplayEvent::Succeeded), ReplayStep::Unpublished));
    assert!(matches!(ReplayStep::ReadMarker.next(ReplayEvent::Failed), ReplayStep::Failed));
    let unflushed = ReplayStep::Flush { marker: marker.clone() }.next(ReplayEvent::Failed);
    assert!(matches!(unflushed, ReplayStep::Failed));
    let invalid = ReplayStep::ReadMarker.next(ReplayEvent::MarkerRead { marker: "/x".to_owned() });
    assert!(matches!(invalid, ReplayStep::Refused(BranchFault::InvalidMarker)));
}

#[test]
fn an_image_outside_its_directory_is_not_committed() {
    let directory = path("/root/branch");
    let escaped = commit(&directory, &path("/root/other/image.json"), true);
    assert_eq!(escaped, Err(BranchFault::EscapedImage));
    let no_file = commit(&directory, &path("/root/branch/image.json"), false);
    assert_eq!(no_file, Err(BranchFault::EscapedImage));
    assert_eq!(BranchFault::EscapedImage.message(), "branch image escaped its directory");
}

#[test]
fn a_marker_without_its_prefix_is_invalid() {
    let outcome = replayed_image(&"/root/image.json".to_owned());
    assert!(matches!(outcome, Err(BranchFault::InvalidMarker)));
    assert_eq!(BranchFault::InvalidMarker.message(), "invalid branch marker");
}

#[test]
fn only_interrupted_attempts_are_replaced() {
    assert_eq!(
        prepare(false, false, PathProbe::Missing),
        Ok(PrepareStep::CreateDirectory)
    );
    assert_eq!(
        prepare(false, true, PathProbe::Directory),
        Ok(PrepareStep::ReplaceDirectory)
    );
    assert_eq!(
        prepare(true, true, PathProbe::Directory),
        Err(BranchFault::AlreadyPublished)
    );
    assert_eq!(
        prepare(false, true, PathProbe::Symlink),
        Err(BranchFault::SymlinkDirectory)
    );
    assert_eq!(BranchFault::AlreadyPublished.message(), "branch already published");
    assert_eq!(BranchFault::SymlinkDirectory.message(), "branch directory is a symlink");
}

#[test]
fn images_are_looked_for_below_the_root_only() {
    let base = path("/branches");
    assert_eq!(require_absolute(&path("branches/image.json")), Err(BranchFault::RelativePath));
    assert_eq!(require_absolute(&path("/branches/image.json")), Ok(()));
    let outside = branch_directory(&base, &path("/elsewhere/image.json"));
    assert!(matches!(outside, Err(BranchFault::OutsideRoot)));
    let missing = branch_directory(&base, &path("/branches"));
    assert!(matches!(missing, Err(BranchFault::MissingIdentity)));
    let named = branch_directory(&base, &path("/branches/not-a-digest/image.json"));
    assert!(matches!(named, Err(BranchFault::InvalidIdentity)));
    let short = branch_directory(&base, &path(&format!("/branches/{}/image.json", "a".repeat(63))));
    assert!(matches!(short, Err(BranchFault::InvalidIdentity)));
    let found =
        branch_directory(&base, &path(&format!("/branches/{}/image.json", branch()))).unwrap();
    assert_eq!(found.to_text(), format!("/branches/{}", branch()));
}

#[test]
fn uncommitted_and_foreign_images_do_not_resolve() {
    let image = path("/branches/id/image.json");
    let other = path("/branches/id/other.json");
    let marker = Some("overlaybd-config:/branches/id/image.json".to_owned());
    assert_eq!(validate(&image, true, &marker), Ok(()));
    assert_eq!(validate(&other, true, &marker), Err(BranchFault::ForeignMarker));
    assert_eq!(validate(&image, true, &None), Err(BranchFault::NotCommitted));
    assert_eq!(validate(&image, false, &marker), Err(BranchFault::NotAFile));
    assert_eq!(BranchFault::ForeignMarker.message(), "branch marker does not name this image");
    assert_eq!(BranchFault::NotCommitted.message(), "branch is not committed");
    assert_eq!(BranchFault::NotAFile.message(), "branch image is not a file");
}
