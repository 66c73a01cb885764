//! What has to be flushed to make files and directories durable.

use crate::orchestrator::persistence::managed_paths::PathProbe;
use crate::orchestrator::persistence::retention;
use crate::paths::{Part, StorePath};
use crate::text;
use vstd::prelude::*;

verus! {

/// Why a path cannot be made durable.
#[derive(Debug)]
pub enum DurabilityFault {
    UnsupportedArtifact { path: StorePath },
    RootWithoutParent { path: StorePath },
    ManifestWithoutParent { path: StorePath },
    MarkerWithoutParent { path: StorePath },
}

impl DurabilityFault {
    pub open spec fn shown(&self) -> Seq<char> {
        match self {
            DurabilityFault::UnsupportedArtifact { path } => {
                "unsupported paused snapshot artifact type at "@ + path.shown()
            },
            DurabilityFault::RootWithoutParent { path } => "paused snapshot artifact root "@
                + path.shown() + " has no parent"@,
            DurabilityFault::ManifestWithoutParent { path } => "paused sandbox manifest path "@
                + path.shown() + " has no parent"@,
            DurabilityFault::MarkerWithoutParent { path } => {
                "paused sandbox recovery marker path "@ + path.shown() + " has no parent"@
            },
        }
    }

    pub fn to_text(&self) -> (shown: String)
        ensures
            shown@ == self.shown(),
    {
        match self {
            DurabilityFault::UnsupportedArtifact { path } => text::concat2(
                "unsupported paused snapshot artifact type at ",
                path.to_text().as_str(),
            ),
            DurabilityFault::RootWithoutParent { path } => text::concat3(
                "paused snapshot artifact root ",
                path.to_text().as_str(),
                " has no parent",
            ),
            DurabilityFault::ManifestWithoutParent { path } => text::concat3(
                "paused sandbox manifest path ",
                path.to_text().as_str(),
                " has no parent",
            ),
            DurabilityFault::MarkerWithoutParent { path } => text::concat3(
                "paused sandbox recovery marker path ",
                path.to_text().as_str(),
                " has no parent",
            ),
        }
    }
}

/// How one entry of an artifact tree is flushed.
#[derive(Clone, Copy, Debug, PartialEq, Eq, Structural)]
pub enum TreeSync {
    /// A symbolic link is left alone.
    Skip,
    SyncFile,
    /// Flush what is inside first, then the directory.
    SyncContentsThenDirectory,
}

/// How to flush what was found at a path without following it.
pub fn sync_tree_bottom_up(path: &StorePath, probe: PathProbe) -> (outcome: Result<
    TreeSync,
    DurabilityFault,
>)
    ensures
        match outcome {
            Ok(TreeSync::Skip) => probe is Symlink,
            Ok(TreeSync::SyncFile) => probe is File,
            Ok(TreeSync::SyncContentsThenDirectory) => probe is Directory,
            Err(DurabilityFault::UnsupportedArtifact { path: refused }) => (probe is Other
                || probe is Missing || probe is Unreadable) && refused@ == path@ && refused.spelled()
                == path.spelled(),
            Err(_) => false,
        },
{
    match probe {
        PathProbe::Symlink => Ok(TreeSync::Skip),
        PathProbe::File => Ok(TreeSync::SyncFile),
        PathProbe::Directory => Ok(TreeSync::SyncContentsThenDirectory),
        _ => Err(DurabilityFault::UnsupportedArtifact { path: path.copy() }),
    }
}

/// The directories to flush from `start` upwards: up to `root`, or as far as there are any.
pub open spec fn sync_chain(start: Seq<Part>, root: Seq<Part>) -> Seq<Seq<Part>>
    decreases start.len(),
{
    if start == root {
        seq![start]
    } else {
        match StorePath::parent_parts(start) {
            Some(parent) => seq![start] + sync_chain(parent, root),
            None => seq![start],
        }
    }
}

pub fn sync_directory_chain(start: &StorePath, root: &StorePath) -> (directories: Vec<StorePath>)
    ensures
        retention::paths_view(directories@) == sync_chain(start@, root@),
{
    let mut directories: Vec<StorePath> = Vec::new();
    let mut current = start.copy();
    assert(retention::paths_view(directories@) + sync_chain(current@, root@) =~= sync_chain(
        start@,
        root@,
    ));
    while !current.same(root)
        invariant
            retention::paths_view(directories@) + sync_chain(current@, root@) == sync_chain(
                start@,
                root@,
            ),
        decreases current@.len(),
    {
        let ghost done = directories@;
        match current.parent() {
            Some(parent) => {
                let ghost at = current@;
                directories.push(current);
                assert(retention::paths_view(directories@) =~= retention::paths_view(done).push(at));
                assert(retention::paths_view(done) + (seq![at] + sync_chain(parent@, root@))
                    =~= retention::paths_view(done).push(at) + sync_chain(parent@, root@));
                current = parent;
            },
            None => {
                let ghost at = current@;
                directories.push(current);
                assert(retention::paths_view(directories@) =~= retention::paths_view(done) + seq![at]);
                return directories;
            },
        }
    }
    let ghost done = directories@;
    let ghost at = current@;
    directories.push(current);
    assert(retention::paths_view(directories@) =~= retention::paths_view(done) + seq![at]);
    directories
}

/// The directories to flush above an artifact tree, once the tree itself is flushed.
pub fn sync_artifact_tree_and_parents(artifact_root: &StorePath, root: &StorePath) -> (outcome:
    Result<Vec<StorePath>, DurabilityFault>)
    ensures
        match outcome {
            Ok(directories) => StorePath::parent_parts(artifact_root@) matches Some(parent)
                && retention::paths_view(directories@) == sync_chain(parent, root@),
            Err(DurabilityFault::RootWithoutParent { path }) => StorePath::parent_parts(
                artifact_root@,
            ) is None && path@ == artifact_root@ && path.spelled() == artifact_root.spelled(),
            Err(_) => false,
        },
{
    match artifact_root.parent() {
        Some(parent) => Ok(sync_directory_chain(&parent, root)),
        None => Err(DurabilityFault::RootWithoutParent { path: artifact_root.copy() }),
    }
}

/// What replacing a file in one step does next. Whoever looks at the file at any moment sees what
/// stood there before, or all of what was written.
#[derive(Debug)]
pub enum WriteStep {
    /// Create the directory of the file, with those above it.
    CreateDirectory { directory: StorePath },
    /// Write everything to a new file beside the one to replace.
    WriteTemporary { directory: StorePath },
    FlushTemporary { directory: StorePath },
    /// Move the new file to its place.
    Replace { directory: StorePath },
    FlushDirectories { directories: Vec<StorePath> },
    Done,
    Failed,
}

impl WriteStep {
    /// What follows on a step that succeeded or failed.
    pub open spec fn leads_to(self, root: Seq<Part>, succeeded: bool, next: WriteStep) -> bool {
        match self {
            WriteStep::Done => next is Done,
            WriteStep::Failed => next is Failed,
            _ => if !succeeded {
                next is Failed
            } else {
                match self {
                    WriteStep::CreateDirectory { directory } => next == WriteStep::WriteTemporary {
                        directory,
                    },
                    WriteStep::WriteTemporary { directory } => next == WriteStep::FlushTemporary {
                        directory,
                    },
                    WriteStep::FlushTemporary { directory } => next == WriteStep::Replace {
                        directory,
                    },
                    WriteStep::Replace { directory } => {
                        &&& next matches WriteStep::FlushDirectories { directories }
                        &&& retention::paths_view(directories@) == sync_chain(directory@, root)
                    },
                    _ => next is Done,
                }
            },
        }
    }

    pub fn next(self, root: &StorePath, succeeded: bool) -> (next: WriteStep)
        ensures
            self.leads_to(root@, succeeded, next),
    {
        match self {
            WriteStep::Done => WriteStep::Done,
            WriteStep::Failed => WriteStep::Failed,
            step => if !succeeded {
                WriteStep::Failed
            } else {
                match step {
                    WriteStep::CreateDirectory { directory } => WriteStep::WriteTemporary {
                        directory,
                    },
                    WriteStep::WriteTemporary { directory } => WriteStep::FlushTemporary {
                        directory,
                    },
                    WriteStep::FlushTemporary { directory } => WriteStep::Replace { directory },
                    WriteStep::Replace { directory } => WriteStep::FlushDirectories {
                        directories: sync_directory_chain(&directory, root),
                    },
                    _ => WriteStep::Done,
                }
            },
        }
    }
}

/// Starts to replace a file in one step.
pub fn write_file_atomically_and_sync(path: &StorePath) -> (outcome: Result<
    WriteStep,
    DurabilityFault,
>)
    ensures
        match outcome {
            Ok(WriteStep::CreateDirectory { directory }) => StorePath::parent_parts(path@) == Some(
                directory@,
            ),
            Err(DurabilityFault::ManifestWithoutParent { path: refused }) => StorePath::parent_parts(
                path@,
            ) is None && refused@ == path@ && refused.spelled() == path.spelled(),
            _ => false,
        },
{
    match path.parent() {
        Some(directory) => Ok(WriteStep::CreateDirectory { directory }),
        None => Err(DurabilityFault::ManifestWithoutParent { path: path.copy() }),
    }
}

/// The directories to flush after a file was removed; none where there was no file.
pub fn remove_file_and_sync(path: &StorePath, root: &StorePath, removed: bool) -> (outcome: Result<
    Vec<StorePath>,
    DurabilityFault,
>)
    ensures
        match outcome {
            Ok(directories) => if removed {
                StorePath::parent_parts(path@) matches Some(parent) && retention::paths_view(
                    directories@,
                ) == sync_chain(parent, root@)
            } else {
                directories@.len() == 0
            },
            Err(DurabilityFault::MarkerWithoutParent { path: refused }) => removed
                && StorePath::parent_parts(path@) is None && refused@ == path@ && refused.spelled()
                == path.spelled(),
            Err(_) => false,
        },
{
    if !removed {
        return Ok(Vec::new());
    }
    match path.parent() {
        Some(parent) => Ok(sync_directory_chain(&parent, root)),
        None => Err(DurabilityFault::MarkerWithoutParent { path: path.copy() }),
    }
}

/// A file is replaced only by one that was written and flushed, and a write is done only once the
/// directories above the file are flushed too; whatever fails, the write is not done.
pub proof fn replacements_are_flushed_first(
    root: Seq<Part>,
    steps: Seq<WriteStep>,
    succeeded: Seq<bool>,
)
    requires
        steps.len() == 6,
        succeeded.len() == 5,
        steps[0] is CreateDirectory,
        forall|i: int|
            0 <= i < 5 ==> (#[trigger] steps[i]).leads_to(root, succeeded[i], steps[i + 1]),
    ensures
        forall|i: int|
            0 <= i < 6 && (#[trigger] steps[i]) is Replace ==> i == 3 && succeeded[0] && succeeded[1]
                && succeeded[2],
        steps[5] is Done <==> forall|i: int| 0 <= i < 5 ==> #[trigger] succeeded[i],
        !(steps[5] is Done) ==> steps[5] is Failed,
{
    assert(steps[0].leads_to(root, succeeded[0], steps[1]));
    assert(steps[1].leads_to(root, succeeded[1], steps[2]));
    assert(steps[2].leads_to(root, succeeded[2], steps[3]));
    assert(steps[3].leads_to(root, succeeded[3], steps[4]));
    assert(steps[4].leads_to(root, succeeded[4], steps[5]));
    assert forall|i: int| 0 <= i < 6 && (#[trigger] steps[i]) is Replace implies i == 3
        && succeeded[0] && succeeded[1] && succeeded[2] by {
        assert(i == 0 || i == 1 || i == 2 || i == 3 || i == 4 || i == 5);
    }
    if steps[5] is Done {
        assert forall|i: int| 0 <= i < 5 implies #[trigger] succeeded[i] by {
            assert(i == 0 || i == 1 || i == 2 || i == 3 || i == 4);
        }
    }
}

/// Every directory from a path below the store up to the store itself is flushed, the store last,
/// and nothing above it.
pub proof fn the_chain_ends_at_the_store(start: Seq<Part>, root: Seq<Part>)
    requires
        root.is_prefix_of(start),
        forall|i: int| root.len() <= i < start.len() ==> !((#[trigger] start[i]) is Root),
    ensures
        sync_chain(start, root).len() == start.len() - root.len() + 1,
        sync_chain(start, root).last() == root,
        sync_chain(start, root)[0] == start,
        forall|k: int|
            0 <= k < sync_chain(start, root).len() ==> #[trigger] sync_chain(start, root)[k]
                == start.take(start.len() - k),
    decreases start.len(),
{
    assert(start.take(start.len() as int) =~= start);
    if start.len() == root.len() {
        assert(start.subrange(0, root.len() as int) =~= start);
    } else {
        let parent = start.drop_last();
        assert(parent.subrange(0, root.len() as int) =~= start.subrange(0, root.len() as int));
        assert forall|i: int| root.len() <= i < parent.len() implies !((#[trigger] parent[i]) is Root) by {
            assert(parent[i] == start[i]);
        }
        assert(!(start[start.len() - 1] is Root));
        the_chain_ends_at_the_store(parent, root);
        let chain = sync_chain(start, root);
        let rest = sync_chain(parent, root);
        assert(chain == seq![start] + rest);
        assert forall|k: int| 0 <= k < chain.len() implies #[trigger] chain[k] == start.take(
            start.len() - k,
        ) by {
            if k > 0 {
                assert(chain[k] == rest[k - 1]);
                assert(parent.take(parent.len() - (k - 1)) =~= start.take(start.len() - k));
            }
        }
    }
}

/// A file is replaced by writing a new one in its directory, flushing it, moving it to its place, and
/// flushing that directory and those above it; the first step that fails ends the write.
pub proof fn files_are_replaced_step_by_step(
    root: Seq<Part>,
    directory: StorePath,
    directories: Vec<StorePath>,
    next: WriteStep,
)
    ensures
        (WriteStep::CreateDirectory { directory }).leads_to(root, true, next) ==> next == (
        WriteStep::WriteTemporary { directory }),
        (WriteStep::WriteTemporary { directory }).leads_to(root, true, next) ==> next == (
        WriteStep::FlushTemporary { directory }),
        (WriteStep::FlushTemporary { directory }).leads_to(root, true, next) ==> next == (
        WriteStep::Replace { directory }),
        (WriteStep::Replace { directory }).leads_to(root, true, next) ==> (
        next matches WriteStep::FlushDirectories { directories: flushed } && flushed@.len() > 0
            && flushed@[0]@ == directory@),
        (WriteStep::FlushDirectories { directories }).leads_to(root, true, next) ==> next is Done,
        (WriteStep::CreateDirectory { directory }).leads_to(root, false, next) ==> next is Failed,
        (WriteStep::WriteTemporary { directory }).leads_to(root, false, next) ==> next is Failed,
        (WriteStep::FlushTemporary { directory }).leads_to(root, false, next) ==> next is Failed,
        (WriteStep::Replace { directory }).leads_to(root, false, next) ==> next is Failed,
        (WriteStep::FlushDirectories { directories }).leads_to(root, false, next) ==> next is Failed,
{
    if (WriteStep::Replace { directory }).leads_to(root, true, next) {
        match next {
            WriteStep::FlushDirectories { directories: flushed } => {
                let chain = sync_chain(directory@, root);
                assert(chain.len() > 0 && chain[0] == directory@);
                assert(retention::paths_view(flushed@)[0] == flushed@[0]@);
                assert(retention::paths_view(flushed@).len() == flushed@.len());
            },
            _ => {},
        }
    }
}

/// What is told of an artifact that cannot be made durable names its path.
pub proof fn undurable_artifacts_are_named(told: DurabilityFault)
    ensures
        told matches DurabilityFault::UnsupportedArtifact { path } ==> text::mentions(
            told.shown(),
            path.shown(),
        ),
        told matches DurabilityFault::RootWithoutParent { path } ==> text::mentions(
            told.shown(),
            path.shown(),
        ),
        told matches DurabilityFault::ManifestWithoutParent { path } ==> text::mentions(
            told.shown(),
            path.shown(),
        ),
        told matches DurabilityFault::MarkerWithoutParent { path } ==> text::mentions(
            told.shown(),
            path.shown(),
        ),
{
    broadcast use {text::the_end_is_mentioned, text::the_beginning_mentions};

}

} // verus!
