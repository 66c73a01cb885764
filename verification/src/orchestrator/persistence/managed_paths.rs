//! Which paths belong to the store of persisted sandboxes.
//!
//! No artifact is read or removed before its path has passed these checks. A path under the
//! artifacts directory is not trusted when one of its components is a symbolic link or when it
//! resolves to somewhere outside the store.

use crate::ids::SandboxId;
use crate::orchestrator::persistence::codecs;
use crate::paths;
use crate::paths::{Part, PathPart, StorePath};
use crate::text;
use vstd::prelude::*;

verus! {

/// What was found at a path, without following it.
#[derive(Clone, Copy, Debug, PartialEq, Eq, Structural)]
pub enum PathProbe {
    Missing,
    Symlink,
    Directory,
    File,
    Other,
    Unreadable,
}

/// The name of the directory that holds all artifacts.
pub open spec fn artifacts_name() -> Seq<u8> {
    text::text_bytes("artifacts"@)
}

/// The path of the directory that holds all artifacts.
pub open spec fn artifacts_parts(root: Seq<Part>) -> Seq<Part> {
    root.push(Part::Name(artifacts_name()))
}

/// The path of the directory that holds the artifacts of one sandbox.
pub open spec fn sandbox_parts(root: Seq<Part>, sandbox_id: SandboxId) -> Seq<Part> {
    artifacts_parts(root).push(Part::Name(text::text_bytes(sandbox_id.text())))
}

/// How that path is spelled.
pub open spec fn sandbox_spelling(root: Seq<u8>, sandbox_id: SandboxId) -> Seq<u8> {
    paths::joined_spelling(
        paths::joined_spelling(root, artifacts_name()),
        text::text_bytes(sandbox_id.text()),
    )
}

pub fn artifacts_root(root: &StorePath) -> (path: StorePath)
    ensures
        path@ == artifacts_parts(root@),
        path.spelled() == paths::joined_spelling(root.spelled(), artifacts_name()),
{
    proof {
        reveal_strlit("artifacts");
        paths::text_is_plain_name("artifacts"@);
    }
    root.join_text("artifacts")
}

pub fn records_db_path(root: &StorePath) -> (path: StorePath)
    ensures
        path@ == root@.push(Part::Name(text::text_bytes("records.db"@))),
        path.spelled() == paths::joined_spelling(root.spelled(), text::text_bytes("records.db"@)),
{
    proof {
        reveal_strlit("records.db");
        paths::text_is_plain_name("records.db"@);
    }
    root.join_text("records.db")
}

pub fn quarantine_db_path(root: &StorePath) -> (path: StorePath)
    ensures
        path@ == root@.push(Part::Name(text::text_bytes("quarantine.db"@))),
        path.spelled() == paths::joined_spelling(root.spelled(), text::text_bytes("quarantine.db"@)),
{
    proof {
        reveal_strlit("quarantine.db");
        paths::text_is_plain_name("quarantine.db"@);
    }
    root.join_text("quarantine.db")
}

pub fn create_idempotency_db_path(root: &StorePath) -> (path: StorePath)
    ensures
        path@ == root@.push(Part::Name(text::text_bytes("create-idempotency.db"@))),
        path.spelled() == paths::joined_spelling(root.spelled(), text::text_bytes("create-idempotency.db"@)),
{
    proof {
        reveal_strlit("create-idempotency.db");
        paths::text_is_plain_name("create-idempotency.db"@);
    }
    root.join_text("create-idempotency.db")
}

pub fn sandbox_artifact_root(root: &StorePath, sandbox_id: &SandboxId) -> (path: StorePath)
    ensures
        path@ == sandbox_parts(root@, *sandbox_id),
        path.spelled() == sandbox_spelling(root.spelled(), *sandbox_id),
{
    let name = sandbox_id.to_text();
    proof {
        paths::text_is_plain_name(name@);
    }
    artifacts_root(root).join_text(name.as_str())
}

/// A new generation for a sandbox, under a name that is a UUID.
pub fn new_generation_root(root: &StorePath, sandbox_id: &SandboxId) -> (path: StorePath)
    ensures
        exists|name: Seq<char>|
            #![trigger text::text_bytes(name)]
            crate::ids::uuid_value(name) is Some && path@ == sandbox_parts(root@, *sandbox_id).push(
                Part::Name(text::text_bytes(name)),
            ) && path.spelled() == paths::joined_spelling(
                sandbox_spelling(root.spelled(), *sandbox_id),
                text::text_bytes(name),
            ),
{
    let name = crate::ids::fresh_generation_name();
    assert(crate::ids::uuid_value(name@) is Some);
    proof {
        paths::text_is_plain_name(name@);
    }
    sandbox_artifact_root(root, sandbox_id).join_text(name.as_str())
}

/// Whether all components from `from` on are plain names.
pub open spec fn names_from(path: Seq<Part>, from: int) -> bool {
    forall|i: int| from <= i < path.len() ==> (#[trigger] path[i]) is Name
}

/// Whether a path is the artifacts directory or lies below it, without any step back.
pub open spec fn is_artifact_shaped(root: Seq<Part>, path: Seq<Part>) -> bool {
    artifacts_parts(root).is_prefix_of(path) && names_from(path, root.len() as int)
}

/// The artifacts directory and every directory from there down to a path below it, all of which
/// have to be looked at for symbolic links.
pub open spec fn probes_of(root: Seq<Part>, path: Seq<Part>) -> Seq<Seq<Part>> {
    Seq::new(
        (path.len() - root.len()) as nat,
        |i: int| path.take(root.len() + 1 + i),
    )
}

fn has_names_from(path: &StorePath, from: usize) -> (answer: bool)
    ensures
        answer == names_from(path@, from as int),
{
    let mut at: usize = from;
    while at < path.depth()
        invariant
            from <= at,
            at <= path@.len() || at == from,
            forall|i: int| from <= i < at ==> (#[trigger] path@[i]) is Name,
        decreases path@.len() - at,
    {
        if let PathPart::Name(_) = path.part(at) {
            at += 1;
        } else {
            assert(!(path@[at as int] is Name));
            return false;
        }
    }
    true
}

fn has_artifact_shape(root: &StorePath, path: &StorePath) -> (answer: bool)
    ensures
        answer == is_artifact_shaped(root@, path@),
{
    path.starts_with(&artifacts_root(root)) && has_names_from(path, root.depth())
}

/// The paths to look at for symbolic links, or nothing where the shape of `path` already rules it
/// out.
pub fn artifact_probes(root: &StorePath, path: &StorePath) -> (probes: Option<Vec<StorePath>>)
    ensures
        match probes {
            Some(probes) => {
                &&& is_artifact_shaped(root@, path@)
                &&& crate::orchestrator::persistence::retention::paths_view(probes@) == probes_of(
                    root@,
                    path@,
                )
            },
            None => !is_artifact_shaped(root@, path@),
        },
{
    if !has_artifact_shape(root, path) {
        return None;
    }
    proof {
        shape_extends_root(root@, path@);
    }
    let ghost expected = probes_of(root@, path@);
    let mut probe = artifacts_root(root);
    let mut probes: Vec<StorePath> = Vec::new();
    let depth: usize = path.depth();
    let mut at: usize = root.depth() + 1;
    assert(probe@ =~= path@.take(at as int)) by {
        assert(artifacts_parts(root@) == path@.subrange(0, artifacts_parts(root@).len() as int));
    }
    probes.push(probe.copy());
    while at < path.depth()
        invariant
            root@.len() + 1 <= at <= path@.len(),
            names_from(path@, root@.len() as int),
            probe@ == path@.take(at as int),
            expected == probes_of(root@, path@),
            probes@.len() == at - root@.len(),
            forall|i: int| 0 <= i < probes@.len() ==> (#[trigger] probes@[i])@ == expected[i],
        decreases path@.len() - at,
    {
        assert(path@[at as int] is Name);
        match path.part(at) {
            PathPart::Name(name) => {
                probe = probe.join(name);
            },
            _ => {
                assert(false);
            },
        }
        assert(path@.take(at + 1) =~= path@.take(at as int).push(path@[at as int]));
        at += 1;
        assert(expected[probes@.len() as int] == path@.take(at as int));
        probes.push(probe.copy());
    }
    assert(crate::orchestrator::persistence::retention::paths_view(probes@) =~= expected);
    Some(probes)
}

proof fn shape_extends_root(root: Seq<Part>, path: Seq<Part>)
    requires
        is_artifact_shaped(root, path),
    ensures
        path.len() >= root.len() + 1,
        path.take(root.len() as int) == root,
        root.is_prefix_of(path),
        path[root.len() as int] == Part::Name(artifacts_name()),
{
    let artifacts = artifacts_parts(root);
    assert(artifacts == path.subrange(0, artifacts.len() as int));
    assert(path.take(root.len() as int) =~= root) by {
        assert forall|i: int| 0 <= i < root.len() implies path[i] == root[i] by {
            assert(artifacts[i] == root[i]);
        }
    }
    assert(artifacts[root.len() as int] == path[root.len() as int]);
}

/// What the filesystem says about a path below the artifacts directory.
#[derive(Debug)]
pub struct PathObservation {
    /// Whether one of the probed paths is a symbolic link.
    pub through_symlink: bool,
    /// Where the store really is.
    pub canonical_root: Option<StorePath>,
    /// Where the path really leads.
    pub canonical_path: Option<StorePath>,
    /// Where those databases of the store that exist really are.
    pub canonical_databases: Vec<StorePath>,
    /// What stands at the canonical path.
    pub canonical_probe: PathProbe,
}

/// Whether a path is one of these directories or lies in one.
pub open spec fn inside_any(path: Seq<Part>, directories: Seq<StorePath>) -> bool {
    exists|k: int| 0 <= k < directories.len() && (#[trigger] directories[k])@.is_prefix_of(path)
}

fn is_inside_any(path: &StorePath, directories: &Vec<StorePath>) -> (answer: bool)
    ensures
        answer == inside_any(path@, directories@),
{
    let mut at: usize = 0;
    while at < directories.len()
        invariant
            at <= directories@.len(),
            forall|k: int| 0 <= k < at ==> !(#[trigger] directories@[k])@.is_prefix_of(path@),
        decreases directories@.len() - at,
    {
        if path.starts_with(&directories[at]) {
            return true;
        }
        at += 1;
    }
    false
}

/// Whether a path may be touched, given what the filesystem says about it.
pub open spec fn is_managed_artifact(
    root: Seq<Part>,
    path: Seq<Part>,
    observed: PathObservation,
) -> bool {
    &&& is_artifact_shaped(root, path)
    &&& !observed.through_symlink
    &&& observed.canonical_root matches Some(canonical_root)
    &&& observed.canonical_path matches Some(canonical_path)
    &&& canonical_path@ != canonical_root@
    &&& canonical_root@.is_prefix_of(canonical_path@)
    &&& !inside_any(canonical_path@, observed.canonical_databases@)
}

/// The canonical form of a path that may be touched.
pub fn validated_artifact_path(
    root: &StorePath,
    path: &StorePath,
    observed: &PathObservation,
) -> (validated: Option<StorePath>)
    ensures
        match validated {
            Some(canonical) => is_managed_artifact(root@, path@, *observed)
                && observed.canonical_path->0@ == canonical@ && observed.canonical_path->0.spelled()
                == canonical.spelled(),
            None => !is_managed_artifact(root@, path@, *observed),
        },
{
    if !has_artifact_shape(root, path) || observed.through_symlink {
        return None;
    }
    match (&observed.canonical_root, &observed.canonical_path) {
        (Some(canonical_root), Some(canonical_path)) => {
            if canonical_path.same(canonical_root) || !canonical_path.starts_with(canonical_root)
                || is_inside_any(canonical_path, &observed.canonical_databases) {
                None
            } else {
                Some(canonical_path.copy())
            }
        },
        _ => None,
    }
}

/// Whether a path is the directory of a sandbox and nothing below it.
pub open spec fn is_sandbox_root_shaped(
    root: Seq<Part>,
    sandbox_id: SandboxId,
    path: Seq<Part>,
) -> bool {
    &&& path.len() == root.len() + 2
    &&& artifacts_parts(root).is_prefix_of(path)
    &&& path[root.len() as int + 1] matches Part::Name(name)
    &&& text::lossy_text(name) == sandbox_id.text()
}

/// Whether a path is exactly one generation of a sandbox.
pub open spec fn is_generation_shaped(
    root: Seq<Part>,
    sandbox_id: SandboxId,
    path: Seq<Part>,
) -> bool {
    &&& path.len() == root.len() + 3
    &&& is_sandbox_root_shaped(root, sandbox_id, path.drop_last())
    &&& path.last() is Name
}

/// Whether the component after the artifacts directory is the name of a sandbox.
fn has_sandbox_component(root: &StorePath, sandbox_id: &SandboxId, path: &StorePath) -> (answer:
    bool)
    requires
        path@.len() >= root@.len() + 2,
    ensures
        answer == (artifacts_parts(root@).is_prefix_of(path@) && (path@[root@.len() as int + 1] matches Part::Name(
            name,
        ) && text::lossy_text(name) == sandbox_id.text())),
{
    if !path.starts_with(&artifacts_root(root)) {
        return false;
    }
    let depth: usize = path.depth();
    let at: usize = root.depth() + 1;
    match path.part(at) {
        PathPart::Name(name) => text::utf8_lossy(name) == sandbox_id.to_text(),
        _ => false,
    }
}

proof fn prefix_survives_drop(base: Seq<Part>, path: Seq<Part>)
    requires
        path.len() > base.len(),
    ensures
        base.is_prefix_of(path.drop_last()) == base.is_prefix_of(path),
{
    assert(path.drop_last().subrange(0, base.len() as int) =~= path.subrange(0, base.len() as int));
}

fn has_generation_shape(root: &StorePath, sandbox_id: &SandboxId, path: &StorePath) -> (answer: bool)
    ensures
        answer == is_generation_shaped(root@, *sandbox_id, path@),
{
    let length: usize = path.depth();
    if length < 3 || length - 3 != root.depth() {
        return false;
    }
    proof {
        prefix_survives_drop(artifacts_parts(root@), path@);
        assert(path@.drop_last()[root@.len() as int + 1] == path@[root@.len() as int + 1]);
    }
    has_sandbox_component(root, sandbox_id, path) && matches!(path.part(length - 1), PathPart::Name(_))
}

/// Whether a path is one existing generation of a sandbox that may be touched.
pub open spec fn is_managed_generation(
    root: Seq<Part>,
    sandbox_id: SandboxId,
    path: Seq<Part>,
    observed: PathObservation,
) -> bool {
    &&& is_generation_shaped(root, sandbox_id, path)
    &&& is_managed_artifact(root, path, observed)
    &&& observed.canonical_probe is Directory
}

/// The canonical form of one existing generation of a sandbox.
pub fn validated_generation_path(
    root: &StorePath,
    sandbox_id: &SandboxId,
    path: &StorePath,
    observed: &PathObservation,
) -> (validated: Option<StorePath>)
    ensures
        match validated {
            Some(canonical) => is_managed_generation(root@, *sandbox_id, path@, *observed)
                && observed.canonical_path->0@ == canonical@,
            None => !is_managed_generation(root@, *sandbox_id, path@, *observed),
        },
{
    if !has_generation_shape(root, sandbox_id, path) || observed.canonical_probe
        != PathProbe::Directory {
        return None;
    }
    validated_artifact_path(root, path, observed)
}

/// Whether a path is the existing directory of a sandbox that may be touched.
pub open spec fn is_managed_sandbox_root(
    root: Seq<Part>,
    sandbox_id: SandboxId,
    path: Seq<Part>,
    observed: PathObservation,
) -> bool {
    &&& is_sandbox_root_shaped(root, sandbox_id, path)
    &&& is_managed_artifact(root, path, observed)
    &&& observed.canonical_probe is Directory
}

/// The canonical form of the existing directory of a sandbox.
pub fn validated_sandbox_root_path(
    root: &StorePath,
    sandbox_id: &SandboxId,
    path: &StorePath,
    observed: &PathObservation,
) -> (validated: Option<StorePath>)
    ensures
        match validated {
            Some(canonical) => is_managed_sandbox_root(root@, *sandbox_id, path@, *observed)
                && observed.canonical_path->0@ == canonical@,
            None => !is_managed_sandbox_root(root@, *sandbox_id, path@, *observed),
        },
{
    let length: usize = path.depth();
    if length < 2 || length - 2 != root.depth() || observed.canonical_probe
        != PathProbe::Directory {
        return None;
    }
    if !has_sandbox_component(root, sandbox_id, path) {
        return None;
    }
    validated_artifact_path(root, path, observed)
}

// ---------------------------------------------------------------------------------------------
// Paths that an administrator may purge
// ---------------------------------------------------------------------------------------------

/// The names that lead from the artifacts directory to something that may be purged.
#[derive(Debug)]
pub struct PurgeableArtifactTarget {
    pub sandbox_name: Vec<u8>,
    pub generation: Option<Vec<u8>>,
    pub name: Vec<u8>,
}

pub open spec fn is_metadata_name(name: Seq<u8>) -> bool {
    name == codecs::manifest_name() || name == codecs::marker_name()
}

/// Whether a path is one generation of a sandbox, or the record or the marker of a generation or
/// of a sandbox directory. A whole sandbox directory is never purgeable: its valid generations
/// must survive a damaged record next to them.
pub open spec fn is_purgeable_shaped(root: Seq<Part>, path: Seq<Part>) -> bool {
    let below = root.len() as int + 1;
    &&& artifacts_parts(root).is_prefix_of(path)
    &&& path.len() == below + 2 || path.len() == below + 3
    &&& path[below] matches Part::Name(sandbox_name)
    &&& SandboxId::parsed(text::lossy_text(sandbox_name)) is Some
    &&& path[below + 1] is Name
    &&& path.len() == below + 3 ==> (path[below + 2] matches Part::Name(name) && is_metadata_name(name))
}

fn has_metadata_name(name: &Vec<u8>) -> (answer: bool)
    ensures
        answer == is_metadata_name(name@),
{
    text::bytes_equal(name, "paused-record.v2.json".as_bytes()) || text::bytes_equal(
        name,
        ".paused-record.v2.recovery-pending".as_bytes(),
    )
}

pub fn parse_purgeable_artifact_target(root: &StorePath, path: &StorePath) -> (target: Option<
    PurgeableArtifactTarget,
>)
    ensures
        match target {
            Some(target) => {
                let below = root@.len() as int + 1;
                &&& paths::is_plain_name(target.sandbox_name@)
                &&& paths::is_plain_name(target.name@)
                &&& target.generation matches Some(generation) ==> paths::is_plain_name(generation@)
                &&& is_purgeable_shaped(root@, path@)
                &&& path@[below as int] == Part::Name(target.sandbox_name@)
                &&& path@.last() == Part::Name(target.name@)
                &&& match target.generation {
                    Some(generation) => path@.len() == below + 3 && path@[below + 1] == Part::Name(
                        generation@,
                    ),
                    None => path@.len() == below + 2,
                }
            },
            None => !is_purgeable_shaped(root@, path@),
        },
{
    let length: usize = path.depth();
    if length <= root.depth() {
        return None;
    }
    let below: usize = root.depth() + 1;
    if length <= below || !path.starts_with(&artifacts_root(root)) {
        return None;
    }
    let depth: usize = length - below;
    if depth != 2 && depth != 3 {
        return None;
    }
    let sandbox_name = match path.part(below) {
        PathPart::Name(name) => text::copy_bytes(name),
        _ => return None,
    };
    if SandboxId::parse_str(text::utf8_lossy(&sandbox_name).as_str()).is_none() {
        return None;
    }
    let first = match path.part(below + 1) {
        PathPart::Name(name) => text::copy_bytes(name),
        _ => return None,
    };
    if depth == 2 {
        return Some(PurgeableArtifactTarget { sandbox_name, generation: None, name: first });
    }
    let name = match path.part(below + 2) {
        PathPart::Name(name) => text::copy_bytes(name),
        _ => return None,
    };
    if !has_metadata_name(&name) {
        return None;
    }
    Some(PurgeableArtifactTarget { sandbox_name, generation: Some(first), name })
}

/// What the filesystem says about one directory on the way to a purgeable path.
#[derive(Debug)]
pub struct ChildObservation {
    pub probe: PathProbe,
    pub canonical: Option<StorePath>,
}

/// Where `child_name` in a canonical directory is: where it is found there, or would be.
pub open spec fn purge_child(
    parent: Seq<Part>,
    child_name: Seq<u8>,
    observed: ChildObservation,
) -> Option<Seq<Part>> {
    match observed.probe {
        PathProbe::Symlink => None,
        PathProbe::Unreadable => None,
        PathProbe::Missing => Some(parent.push(Part::Name(child_name))),
        _ => match observed.canonical {
            Some(canonical) => if StorePath::parent_parts(canonical@) == Some(parent) {
                Some(canonical@)
            } else {
                None
            },
            None => None,
        },
    }
}

pub fn canonical_child_for_purge(
    canonical_parent: &StorePath,
    child_name: &Vec<u8>,
    observed: &ChildObservation,
) -> (child: Option<StorePath>)
    requires
        paths::is_plain_name(child_name@),
    ensures
        match child {
            Some(child) => purge_child(canonical_parent@, child_name@, *observed) == Some(child@),
            None => purge_child(canonical_parent@, child_name@, *observed) is None,
        },
{
    match observed.probe {
        PathProbe::Symlink | PathProbe::Unreadable => None,
        PathProbe::Missing => Some(canonical_parent.join(child_name)),
        _ => match &observed.canonical {
            Some(canonical) => if canonical.has_parent(canonical_parent) {
                Some(canonical.copy())
            } else {
                None
            },
            None => None,
        },
    }
}

/// Where the artifacts directory really is, for a purge.
pub open spec fn purge_artifacts(
    root: Seq<Part>,
    probe: PathProbe,
    observed: PathObservation,
) -> Option<Seq<Part>> {
    match probe {
        PathProbe::Symlink => None,
        PathProbe::Unreadable => None,
        PathProbe::Missing => match observed.canonical_root {
            Some(canonical_root) => Some(artifacts_parts(canonical_root@)),
            None => None,
        },
        _ => if is_managed_artifact(root, artifacts_parts(root), observed) {
            Some(observed.canonical_path->0@)
        } else {
            None
        },
    }
}

pub fn canonical_artifacts_root_for_purge(
    root: &StorePath,
    probe: PathProbe,
    observed: &PathObservation,
) -> (canonical: Option<StorePath>)
    ensures
        match canonical {
            Some(canonical) => purge_artifacts(root@, probe, *observed) == Some(canonical@),
            None => purge_artifacts(root@, probe, *observed) is None,
        },
{
    match probe {
        PathProbe::Symlink | PathProbe::Unreadable => None,
        PathProbe::Missing => match &observed.canonical_root {
            Some(canonical_root) => Some(artifacts_root(canonical_root)),
            None => None,
        },
        _ => validated_artifact_path(root, &artifacts_root(root), observed),
    }
}

/// What the filesystem says about every directory on the way to a purgeable path.
#[derive(Debug)]
pub struct PurgeObservation {
    pub artifacts_probe: PathProbe,
    pub artifacts: PathObservation,
    pub sandbox: ChildObservation,
    pub generation: ChildObservation,
    pub target: ChildObservation,
}

/// Where a purgeable path really leads, if every step on the way stays inside the directory above.
pub open spec fn purge_location(
    root: Seq<Part>,
    path: Seq<Part>,
    observed: PurgeObservation,
) -> Option<Seq<Part>> {
    if !is_purgeable_shaped(root, path) {
        None
    } else {
        match purge_artifacts(root, observed.artifacts_probe, observed.artifacts) {
            None => None,
            Some(artifacts) => match purge_child(
                artifacts,
                path[root.len() as int + 1]->Name_0,
                observed.sandbox,
            ) {
                None => None,
                Some(sandbox) => if path.len() == root.len() + 3 {
                    purge_child(sandbox, path.last()->Name_0, observed.target)
                } else {
                    match purge_child(sandbox, path[root.len() as int + 2]->Name_0, observed.generation) {
                        None => None,
                        Some(generation) => purge_child(
                            generation,
                            path.last()->Name_0,
                            observed.target,
                        ),
                    }
                },
            },
        }
    }
}

pub fn validated_purgeable_artifact_path(
    root: &StorePath,
    path: &StorePath,
    observed: &PurgeObservation,
) -> (validated: Option<StorePath>)
    ensures
        match validated {
            Some(canonical) => purge_location(root@, path@, *observed) == Some(canonical@),
            None => purge_location(root@, path@, *observed) is None,
        },
{
    let target = match parse_purgeable_artifact_target(root, path) {
        Some(target) => target,
        None => return None,
    };
    let artifacts = match canonical_artifacts_root_for_purge(
        root,
        observed.artifacts_probe,
        &observed.artifacts,
    ) {
        Some(artifacts) => artifacts,
        None => return None,
    };
    let sandbox = match canonical_child_for_purge(
        &artifacts,
        &target.sandbox_name,
        &observed.sandbox,
    ) {
        Some(sandbox) => sandbox,
        None => return None,
    };
    let parent = match &target.generation {
        Some(generation) => match canonical_child_for_purge(
            &sandbox,
            generation,
            &observed.generation,
        ) {
            Some(generation) => generation,
            None => return None,
        },
        None => sandbox,
    };
    canonical_child_for_purge(&parent, &target.name, &observed.target)
}

/// What an unusable manifest is quarantined as: its directory where that may be purged, else the
/// manifest itself where that may be, else nothing.
pub fn quarantine_target_for_manifest(
    directory: &StorePath,
    directory_is_purgeable: bool,
    manifest: &StorePath,
    manifest_is_purgeable: bool,
) -> (target: Option<StorePath>)
    ensures
        match target {
            Some(target) => if directory_is_purgeable {
                target@ == directory@ && target.spelled() == directory.spelled()
            } else {
                manifest_is_purgeable && target@ == manifest@ && target.spelled()
                    == manifest.spelled()
            },
            None => !directory_is_purgeable && !manifest_is_purgeable,
        },
{
    if directory_is_purgeable {
        Some(directory.copy())
    } else if manifest_is_purgeable {
        Some(manifest.copy())
    } else {
        None
    }
}

// ---------------------------------------------------------------------------------------------
// Laws
// ---------------------------------------------------------------------------------------------

/// A validated path leads strictly below the store, and into none of its databases.
pub proof fn validated_paths_stay_in_the_store(
    root: Seq<Part>,
    path: Seq<Part>,
    observed: PathObservation,
)
    requires
        is_managed_artifact(root, path, observed),
    ensures
        observed.canonical_root->0@.is_prefix_of(observed.canonical_path->0@),
        observed.canonical_path->0@.len() > observed.canonical_root->0@.len(),
        forall|k: int|
            0 <= k < observed.canonical_databases@.len() ==> !(
            #[trigger] observed.canonical_databases@[k])@.is_prefix_of(
                observed.canonical_path->0@,
            ),
        root.is_prefix_of(path),
        !path.skip(root.len() as int).contains(Part::Parent),
{
    let canonical_root = observed.canonical_root->0@;
    let canonical_path = observed.canonical_path->0@;
    if canonical_path.len() == canonical_root.len() {
        assert(canonical_root == canonical_path.subrange(0, canonical_root.len() as int));
        assert(canonical_path.subrange(0, canonical_root.len() as int) =~= canonical_path);
    }
    shape_extends_root(root, path);
    let below = path.skip(root.len() as int);
    assert forall|i: int| 0 <= i < below.len() implies below[i] != Part::Parent by {
        assert(below[i] == path[root.len() as int + i]);
    }
}

/// The directory of a sandbox is never a generation of any sandbox, and the reverse.
pub proof fn generations_and_sandbox_roots_differ(
    root: Seq<Part>,
    left: SandboxId,
    right: SandboxId,
    path: Seq<Part>,
)
    ensures
        !(is_generation_shaped(root, left, path) && is_sandbox_root_shaped(root, right, path)),
{
}

/// No path is a generation of two sandboxes.
pub proof fn a_generation_belongs_to_one_sandbox(
    root: Seq<Part>,
    left: SandboxId,
    right: SandboxId,
    path: Seq<Part>,
)
    requires
        is_generation_shaped(root, left, path),
        is_generation_shaped(root, right, path),
        SandboxId::parsed(left.text()) == Some(left),
        SandboxId::parsed(right.text()) == Some(right),
    ensures
        left == right,
{
}

/// What a purge may remove lies at least two levels below the artifacts directory: a purge never
/// removes the store, the artifacts directory or the directory of a sandbox.
pub proof fn a_purge_stays_inside_one_sandbox(
    root: Seq<Part>,
    path: Seq<Part>,
    observed: PurgeObservation,
)
    requires
        purge_location(root, path, observed) is Some,
    ensures
        purge_artifacts(root, observed.artifacts_probe, observed.artifacts) matches Some(artifacts)
            && artifacts.is_prefix_of(purge_location(root, path, observed)->0)
            && purge_location(root, path, observed)->0.len() >= artifacts.len() + 2,
{
    let artifacts = purge_artifacts(root, observed.artifacts_probe, observed.artifacts)->0;
    let sandbox = purge_child(artifacts, path[root.len() as int + 1]->Name_0, observed.sandbox)->0;
    child_extends_parent(artifacts, path[root.len() as int + 1]->Name_0, observed.sandbox);
    if path.len() == root.len() + 3 {
        child_extends_parent(sandbox, path.last()->Name_0, observed.target);
        prefix_is_transitive(artifacts, sandbox, purge_location(root, path, observed)->0);
    } else {
        let generation = purge_child(
            sandbox,
            path[root.len() as int + 2]->Name_0,
            observed.generation,
        )->0;
        child_extends_parent(sandbox, path[root.len() as int + 2]->Name_0, observed.generation);
        child_extends_parent(generation, path.last()->Name_0, observed.target);
        prefix_is_transitive(artifacts, sandbox, generation);
        prefix_is_transitive(artifacts, generation, purge_location(root, path, observed)->0);
    }
}

proof fn child_extends_parent(parent: Seq<Part>, child_name: Seq<u8>, observed: ChildObservation)
    requires
        purge_child(parent, child_name, observed) is Some,
    ensures
        parent.is_prefix_of(purge_child(parent, child_name, observed)->0),
        purge_child(parent, child_name, observed)->0.len() == parent.len() + 1,
{
    let child = purge_child(parent, child_name, observed)->0;
    assert(child.drop_last() =~= parent);
    assert(child.subrange(0, parent.len() as int) =~= parent);
}

proof fn prefix_is_transitive(first: Seq<Part>, second: Seq<Part>, third: Seq<Part>)
    requires
        first.is_prefix_of(second),
        second.is_prefix_of(third),
    ensures
        first.is_prefix_of(third),
{
    assert(third.subrange(0, first.len() as int) =~= second.subrange(0, first.len() as int));
}

/// The artifacts of a sandbox lie in a directory with its name, in the artifacts directory of the
/// store; those of two sandboxes, or of two stores, lie in two places.
pub proof fn sandboxes_have_directories_of_their_own(
    root: Seq<Part>,
    other_root: Seq<Part>,
    sandbox_id: SandboxId,
    other: SandboxId,
)
    ensures
        artifacts_parts(root) == root.push(Part::Name(text::text_bytes("artifacts"@))),
        sandbox_parts(root, sandbox_id) == root.push(Part::Name(text::text_bytes("artifacts"@))).push(
            Part::Name(text::text_bytes(sandbox_id.text())),
        ),
        sandbox_parts(root, sandbox_id) == sandbox_parts(other_root, other) ==> root == other_root
            && sandbox_id.text() == other.text(),
{
    let left = sandbox_parts(root, sandbox_id);
    let right = sandbox_parts(other_root, other);
    if left == right {
        assert(left.last() == right.last());
        text::text_bytes_are_injective(sandbox_id.text(), other.text());
        assert(left.drop_last() =~= artifacts_parts(root));
        assert(right.drop_last() =~= artifacts_parts(other_root));
        assert(artifacts_parts(root).drop_last() =~= root);
        assert(artifacts_parts(other_root).drop_last() =~= other_root);
    }
}

/// A path is a generation of a sandbox exactly where it is the artifacts directory of the store, the
/// name of the sandbox and one more name; and the directory of the sandbox where nothing more follows.
pub proof fn generations_are_spelled_out(
    root: Seq<Part>,
    sandbox_id: SandboxId,
    path: Seq<Part>,
    name: Seq<u8>,
    generation: Seq<u8>,
)
    ensures
        ({
            let directory = root + seq![
                Part::Name(text::text_bytes("artifacts"@)),
                Part::Name(name),
            ];
            &&& text::lossy_text(name) == sandbox_id.text() ==> is_sandbox_root_shaped(
                root,
                sandbox_id,
                directory,
            ) && is_generation_shaped(
                root,
                sandbox_id,
                directory.push(Part::Name(generation)),
            )
            &&& text::lossy_text(name) != sandbox_id.text() ==> !is_sandbox_root_shaped(
                root,
                sandbox_id,
                directory,
            ) && !is_generation_shaped(
                root,
                sandbox_id,
                directory.push(Part::Name(generation)),
            )
        }),
        is_generation_shaped(root, sandbox_id, path) ==> {
            &&& path.len() == root.len() + 3
            &&& root.is_prefix_of(path)
            &&& path[root.len() as int] == Part::Name(text::text_bytes("artifacts"@))
            &&& path[root.len() as int + 1] matches Part::Name(found) && text::lossy_text(found)
                == sandbox_id.text()
            &&& path[root.len() as int + 2] is Name
        },
        is_sandbox_root_shaped(root, sandbox_id, path) ==> {
            &&& path.len() == root.len() + 2
            &&& root.is_prefix_of(path)
            &&& path[root.len() as int] == Part::Name(text::text_bytes("artifacts"@))
            &&& path[root.len() as int + 1] matches Part::Name(found) && text::lossy_text(found)
                == sandbox_id.text()
        },
{
    let artifacts = artifacts_parts(root);
    let directory = root + seq![Part::Name(text::text_bytes("artifacts"@)), Part::Name(name)];
    let below = directory.push(Part::Name(generation));
    assert(directory.subrange(0, artifacts.len() as int) =~= artifacts);
    assert(below.drop_last() =~= directory);
    if is_generation_shaped(root, sandbox_id, path) {
        prefix_survives_drop(artifacts, path);
        an_artifact_lies_in_the_store(root, path);
        assert(path.drop_last()[root.len() as int + 1] == path[root.len() as int + 1]);
    }
    if is_sandbox_root_shaped(root, sandbox_id, path) {
        an_artifact_lies_in_the_store(root, path);
    }
}

proof fn an_artifact_lies_in_the_store(root: Seq<Part>, path: Seq<Part>)
    requires
        artifacts_parts(root).is_prefix_of(path),
    ensures
        path.len() > root.len(),
        root.is_prefix_of(path),
        path[root.len() as int] == Part::Name(text::text_bytes("artifacts"@)),
{
    let artifacts = artifacts_parts(root);
    assert(artifacts == path.subrange(0, artifacts.len() as int));
    assert(artifacts[root.len() as int] == path[root.len() as int]);
    assert(path.subrange(0, root.len() as int) =~= root) by {
        assert forall|i: int| 0 <= i < root.len() implies path[i] == root[i] by {
            assert(artifacts[i] == path[i]);
        }
    }
}

/// A path may be touched where it is the artifacts directory or lies below it by names alone, where
/// no symbolic link is on the way, and where it leads below the store and into none of its databases;
/// and where any of these fails it may not.
pub proof fn links_and_strangers_are_refused(
    root: Seq<Part>,
    path: Seq<Part>,
    observed: PathObservation,
)
    ensures
        observed.through_symlink ==> !is_managed_artifact(root, path, observed),
        observed.canonical_root is None || observed.canonical_path is None ==> !is_managed_artifact(
            root,
            path,
            observed,
        ),
        !root.push(Part::Name(text::text_bytes("artifacts"@))).is_prefix_of(path)
            ==> !is_managed_artifact(root, path, observed),
        (exists|i: int| root.len() <= i < path.len() && !((#[trigger] path[i]) is Name))
            ==> !is_managed_artifact(root, path, observed),
        root.push(Part::Name(text::text_bytes("artifacts"@))).is_prefix_of(path) && (forall|i: int|
            root.len() <= i < path.len() ==> (#[trigger] path[i]) is Name)
            && !observed.through_symlink && observed.canonical_root is Some
            && observed.canonical_path is Some && observed.canonical_root->0@.is_prefix_of(
            observed.canonical_path->0@,
        ) && observed.canonical_path->0@.len() > observed.canonical_root->0@.len() && (forall|k: int|
            0 <= k < observed.canonical_databases@.len() ==> !(
            #[trigger] observed.canonical_databases@[k])@.is_prefix_of(observed.canonical_path->0@))
            ==> is_managed_artifact(root, path, observed),
{
}

/// Only a directory counts as a generation or as the directory of a sandbox, and only where it may be
/// touched.
pub proof fn generations_are_directories(
    root: Seq<Part>,
    sandbox_id: SandboxId,
    path: Seq<Part>,
    observed: PathObservation,
)
    ensures
        is_managed_generation(root, sandbox_id, path, observed) || is_managed_sandbox_root(
            root,
            sandbox_id,
            path,
            observed,
        ) ==> observed.canonical_probe is Directory && is_managed_artifact(root, path, observed),
        is_managed_generation(root, sandbox_id, path, observed) ==> path.len() == root.len() + 3
            && is_generation_shaped(root, sandbox_id, path),
        is_managed_sandbox_root(root, sandbox_id, path, observed) ==> path.len() == root.len() + 2
            && is_sandbox_root_shaped(root, sandbox_id, path),
        observed.canonical_probe is Directory && is_managed_artifact(root, path, observed) ==> (
        is_generation_shaped(root, sandbox_id, path) ==> is_managed_generation(
            root,
            sandbox_id,
            path,
            observed,
        )) && (is_sandbox_root_shaped(root, sandbox_id, path) ==> is_managed_sandbox_root(
            root,
            sandbox_id,
            path,
            observed,
        )),
{
}

/// The artifacts directory is looked at first, then every directory below it down to the path itself,
/// each one component longer than the one before.
pub proof fn every_directory_on_the_way_is_looked_at(root: Seq<Part>, path: Seq<Part>, at: int)
    requires
        is_artifact_shaped(root, path),
    ensures
        probes_of(root, path).len() == path.len() - root.len(),
        probes_of(root, path)[0] == root.push(Part::Name(text::text_bytes("artifacts"@))),
        probes_of(root, path).last() == path,
        0 <= at < probes_of(root, path).len() ==> probes_of(root, path)[at].is_prefix_of(path)
            && probes_of(root, path)[at].len() == root.len() + 1 + at,
{
    shape_extends_root(root, path);
    assert(path.take(root.len() as int + 1) =~= artifacts_parts(root)) by {
        assert(artifacts_parts(root) == path.subrange(0, artifacts_parts(root).len() as int));
    }
    assert(path.take(path.len() as int) =~= path);
    if 0 <= at < probes_of(root, path).len() {
        assert(path.take(root.len() + 1 + at) =~= path.subrange(0, root.len() + 1 + at));
    }
}

/// What an administrator may purge is named by a sandbox and one more name, which is any name, or by
/// a sandbox, any name and then the name of a record or of a marker; nothing else.
pub proof fn purges_are_of_generations_and_records(
    root: Seq<Part>,
    path: Seq<Part>,
    sandbox: Seq<u8>,
    name: Seq<u8>,
    last: Seq<u8>,
)
    ensures
        ({
            let directory = root + seq![
                Part::Name(text::text_bytes("artifacts"@)),
                Part::Name(sandbox),
            ];
            let known = SandboxId::parsed(text::lossy_text(sandbox)) is Some;
            let of_record = last == text::text_bytes("paused-record.v2.json"@) || last
                == text::text_bytes(".paused-record.v2.recovery-pending"@);
            &&& !is_purgeable_shaped(root, directory)
            &&& is_purgeable_shaped(root, directory.push(Part::Name(name))) <==> known
            &&& is_purgeable_shaped(
                root,
                directory.push(Part::Name(name)).push(Part::Name(last)),
            ) <==> known && of_record
        }),
        is_purgeable_shaped(root, path) ==> path.len() == root.len() + 3 || path.len() == root.len()
            + 4,
        is_purgeable_shaped(root, path) ==> root.is_prefix_of(path),
{
    let artifacts = artifacts_parts(root);
    let directory = root + seq![Part::Name(text::text_bytes("artifacts"@)), Part::Name(sandbox)];
    let second = directory.push(Part::Name(name));
    let third = second.push(Part::Name(last));
    assert(directory.subrange(0, artifacts.len() as int) =~= artifacts);
    assert(second.subrange(0, artifacts.len() as int) =~= artifacts);
    assert(third.subrange(0, artifacts.len() as int) =~= artifacts);
    if is_purgeable_shaped(root, path) {
        an_artifact_lies_in_the_store(root, path);
    }
}

/// A purge follows no link and trusts nothing that it cannot read; what is missing is looked for where
/// it would be, and what is there must lie directly in the directory above.
pub proof fn purges_follow_no_links(
    parent: Seq<Part>,
    name: Seq<u8>,
    observed: ChildObservation,
    root: Seq<Part>,
    seen: PathObservation,
)
    ensures
        observed.probe is Symlink || observed.probe is Unreadable ==> purge_child(
            parent,
            name,
            observed,
        ) is None,
        observed.probe is Missing ==> purge_child(parent, name, observed) == Some(
            parent.push(Part::Name(name)),
        ),
        observed.probe is Directory || observed.probe is File || observed.probe is Other ==> {
            let child = purge_child(parent, name, observed);
            &&& child is Some ==> observed.canonical is Some && child->0 == observed.canonical->0@
            &&& observed.canonical is None ==> child is None
            &&& observed.canonical is Some ==> (child is Some <==> StorePath::parent_parts(
                observed.canonical->0@,
            ) == Some(parent))
        },
        purge_artifacts(root, PathProbe::Symlink, seen) is None,
        purge_artifacts(root, PathProbe::Unreadable, seen) is None,
        seen.canonical_root matches Some(canonical) ==> purge_artifacts(
            root,
            PathProbe::Missing,
            seen,
        ) == Some(canonical@.push(Part::Name(text::text_bytes("artifacts"@)))),
        seen.canonical_root is None ==> purge_artifacts(root, PathProbe::Missing, seen) is None,
        purge_artifacts(root, PathProbe::Directory, seen) is Some <==> is_managed_artifact(
            root,
            root.push(Part::Name(text::text_bytes("artifacts"@))),
            seen,
        ),
        purge_artifacts(root, PathProbe::Directory, seen) matches Some(found) ==> found
            == seen.canonical_path->0@,
{
}

/// A purgeable path of which nothing is there any more is looked for under the names that it has, in
/// the store as it really is.
pub proof fn missing_artifacts_are_looked_for_by_name(
    root: Seq<Part>,
    path: Seq<Part>,
    observed: PurgeObservation,
    store: StorePath,
)
    requires
        is_purgeable_shaped(root, path),
        forall|i: int| root.len() <= i < path.len() ==> (#[trigger] path[i]) is Name,
        observed.artifacts_probe is Missing,
        observed.artifacts.canonical_root == Some(store),
        observed.sandbox.probe is Missing,
        observed.generation.probe is Missing,
        observed.target.probe is Missing,
    ensures
        purge_location(root, path, observed) == Some(store@ + path.skip(root.len() as int)),
{
    an_artifact_lies_in_the_store(root, path);
    assert(path[root.len() as int + 1] is Name && path[root.len() as int + 2] is Name);
    let found = purge_location(root, path, observed)->0;
    assert(found =~= store@ + path.skip(root.len() as int));
}

/// Nothing but a generation, or a record or marker, has a place from which it may be purged.
pub proof fn other_paths_are_never_purged(
    root: Seq<Part>,
    path: Seq<Part>,
    observed: PurgeObservation,
)
    ensures
        path.len() < root.len() + 3 || path.len() > root.len() + 4 ==> purge_location(
            root,
            path,
            observed,
        ) is None,
        !root.is_prefix_of(path) ==> purge_location(root, path, observed) is None,
        path.len() == root.len() + 4 && (path.last() matches Part::Name(name) ==> name
            != text::text_bytes("paused-record.v2.json"@) && name != text::text_bytes(
            ".paused-record.v2.recovery-pending"@,
        )) ==> purge_location(root, path, observed) is None,
{
    if artifacts_parts(root).is_prefix_of(path) {
        assert(root.is_prefix_of(path)) by {
            assert(root =~= artifacts_parts(root).take(root.len() as int));
            assert(path.take(root.len() as int) =~= root);
        }
    }
}

} // verus!
