//! Immutable, durably published disk branches.
//!
//! Published data is kept until every dependent sandbox and snapshot is retired.

use crate::digest;
use crate::ids::SandboxId;
use crate::orchestrator::persistence::managed_paths::PathProbe;
use crate::paths;
use crate::paths::{Part, PathPart, StorePath};
use crate::text;
use vstd::prelude::*;

verus! {

/// Why a disk branch is refused.
#[derive(Clone, Copy, Debug, PartialEq, Eq, Structural)]
pub enum BranchFault {
    RelativePath,
    OutsideRoot,
    MissingIdentity,
    InvalidIdentity,
    NotAFile,
    NotCommitted,
    ForeignMarker,
    InvalidMarker,
    AlreadyPublished,
    SymlinkDirectory,
    EscapedImage,
}

impl BranchFault {
    pub open spec fn shown(self) -> Seq<char> {
        match self {
            BranchFault::RelativePath => "branch image path must be absolute"@,
            BranchFault::OutsideRoot => "image is outside managed disk-branch root"@,
            BranchFault::MissingIdentity => "missing branch identity"@,
            BranchFault::InvalidIdentity => "invalid branch identity"@,
            BranchFault::NotAFile => "branch image is not a file"@,
            BranchFault::NotCommitted => "branch is not committed"@,
            BranchFault::ForeignMarker => "branch marker does not name this image"@,
            BranchFault::InvalidMarker => "invalid branch marker"@,
            BranchFault::AlreadyPublished => "branch already published"@,
            BranchFault::SymlinkDirectory => "branch directory is a symlink"@,
            BranchFault::EscapedImage => "branch image escaped its directory"@,
        }
    }

    pub fn message(self) -> (message: &'static str)
        ensures
            message@ == self.shown(),
    {
        match self {
            BranchFault::RelativePath => "branch image path must be absolute",
            BranchFault::OutsideRoot => "image is outside managed disk-branch root",
            BranchFault::MissingIdentity => "missing branch identity",
            BranchFault::InvalidIdentity => "invalid branch identity",
            BranchFault::NotAFile => "branch image is not a file",
            BranchFault::NotCommitted => "branch is not committed",
            BranchFault::ForeignMarker => "branch marker does not name this image",
            BranchFault::InvalidMarker => "invalid branch marker",
            BranchFault::AlreadyPublished => "branch already published",
            BranchFault::SymlinkDirectory => "branch directory is a symlink",
            BranchFault::EscapedImage => "branch image escaped its directory",
        }
    }
}

/// The directory of all disk branches: under the work directory, or else under `aenv` in the
/// directory for temporary files.
pub fn root(work_dir: &Option<StorePath>, temp_dir: &StorePath) -> (root: StorePath)
    ensures
        root@ == (match *work_dir {
            Some(work_dir) => work_dir@,
            None => temp_dir@.push(Part::Name(text::text_bytes("aenv"@))),
        }).push(Part::Name(text::text_bytes("managed-snapshots"@))).push(
            Part::Name(text::text_bytes("disk-branches"@)),
        ),
{
    proof {
        reveal_strlit("aenv");
        paths::text_is_plain_name("aenv"@);
        reveal_strlit("managed-snapshots");
        paths::text_is_plain_name("managed-snapshots"@);
        reveal_strlit("disk-branches");
        paths::text_is_plain_name("disk-branches"@);
    }
    let base = match work_dir {
        Some(work_dir) => work_dir.copy(),
        None => temp_dir.join_text("aenv"),
    };
    base.join_text("managed-snapshots").join_text("disk-branches")
}

/// What the identity of a branch is the digest of: its source and a retry key.
pub open spec fn branch_message(source: Seq<char>, key: Seq<char>) -> Seq<u8> {
    text::text_bytes("agentenv-disk-branch-v1"@).push(0) + text::text_bytes(source).push(0)
        + text::text_bytes(key)
}

/// The identity of the branch of a source under a retry key.
pub open spec fn branch_identity(source: SandboxId, key: Seq<char>) -> Seq<char> {
    digest::sha256_hex_of(branch_message(source.text(), key))
}

/// Whether a text is that of a digest.
pub open spec fn is_digest_text(text: Seq<char>) -> bool {
    &&& text.len() == 64
    &&& forall|i: int| 0 <= i < text.len() ==> digest::is_hex_digit(#[trigger] text[i])
}

fn keyed_identity(source: SandboxId, key: &str) -> (identity: String)
    ensures
        identity@ == branch_identity(source, key@),
        is_digest_text(identity@),
{
    let mut message = text::copy_bytes("agentenv-disk-branch-v1".as_bytes());
    message.push(0);
    let source = source.to_text();
    text::push_bytes(&mut message, source.as_str().as_bytes());
    message.push(0);
    text::push_bytes(&mut message, key.as_bytes());
    assert(message@ =~= branch_message(source@, key@));
    digest::sha256_hex(&message)
}

/// The identity of a branch. Without a retry key every call is about a new branch.
pub fn identity(source: SandboxId, key: Option<&str>) -> (identity: String)
    ensures
        is_digest_text(identity@),
        match key {
            Some(key) => identity@ == branch_identity(source, key@),
            None => exists|nonce: SandboxId|
                identity@ == #[trigger] branch_identity(source, nonce.text()),
        },
{
    match key {
        Some(key) => keyed_identity(source, key),
        None => {
            let nonce = SandboxId::new();
            let identity = keyed_identity(source, nonce.to_text().as_str());
            assert(identity@ == branch_identity(source, nonce.text()));
            identity
        },
    }
}

/// What the marker of a branch says about an image.
pub open spec fn marker_text(image: StorePath) -> Seq<char> {
    "overlaybd-config:"@ + image.shown()
}

/// The path that a marker names, where it is one.
pub open spec fn marked_path(marker: Seq<char>) -> Option<Seq<char>> {
    let prefix = "overlaybd-config:"@;
    if prefix.is_prefix_of(marker) {
        Some(marker.skip(prefix.len() as int))
    } else {
        None
    }
}

/// The image that a marker says was published. The image then has to pass `validate`.
pub fn replayed_image(marker: &String) -> (outcome: Result<StorePath, BranchFault>)
    ensures
        match marked_path(marker@) {
            Some(path) => outcome matches Ok(image) && image@ == paths::path_parts(
                text::text_bytes(path),
            ) && image.spelled() == text::text_bytes(path),
            None => outcome == Err::<StorePath, BranchFault>(BranchFault::InvalidMarker),
        },
{
    match text::without_prefix(marker.as_str(), "overlaybd-config:") {
        Some(path) => Ok(StorePath::from_text(path.as_str())),
        None => Err(BranchFault::InvalidMarker),
    }
}

/// What looking for a branch that was published before does next.
#[derive(Debug)]
#[allow(inconsistent_fields)]
pub enum ReplayStep {
    ReadMarker,
    /// Resolve the image that the marker names as any image is resolved.
    Resolve { marker: String, image: StorePath },
    /// Flush the branch, which also completes what an interrupted flush of directories left.
    Flush { marker: String },
    /// Nothing was published.
    Unpublished,
    Replayed { image: String },
    Refused(BranchFault),
    /// Something could not be read or flushed.
    Failed,
}

/// What came of a step of a replay.
#[derive(Debug)]
pub enum ReplayEvent {
    MarkerRead { marker: String },
    MarkerMissing,
    Succeeded,
    Failed,
}

impl ReplayStep {
    pub open spec fn leads_to(self, event: ReplayEvent, next: ReplayStep) -> bool {
        match (self, event) {
            (ReplayStep::ReadMarker, ReplayEvent::MarkerRead { marker }) => match marked_path(
                marker@,
            ) {
                Some(path) => {
                    &&& next matches ReplayStep::Resolve { marker: kept, image }
                    &&& kept == marker
                    &&& image@ == paths::path_parts(text::text_bytes(path))
                    &&& image.spelled() == text::text_bytes(path)
                },
                None => next == ReplayStep::Refused(BranchFault::InvalidMarker),
            },
            (ReplayStep::ReadMarker, ReplayEvent::MarkerMissing) => next is Unpublished,
            (ReplayStep::Resolve { marker, .. }, ReplayEvent::Succeeded) => next
                == ReplayStep::Flush { marker },
            (ReplayStep::Flush { marker }, ReplayEvent::Succeeded) => next == ReplayStep::Replayed {
                image: marker,
            },
            (ReplayStep::ReadMarker | ReplayStep::Resolve { .. } | ReplayStep::Flush { .. }, _) => {
                next is Failed
            },
            _ => next == self,
        }
    }

    pub fn next(self, event: ReplayEvent) -> (next: ReplayStep)
        ensures
            self.leads_to(event, next),
    {
        match (self, event) {
            (ReplayStep::ReadMarker, ReplayEvent::MarkerRead { marker }) => match replayed_image(
                &marker,
            ) {
                Ok(image) => ReplayStep::Resolve { marker, image },
                Err(fault) => ReplayStep::Refused(fault),
            },
            (ReplayStep::ReadMarker, ReplayEvent::MarkerMissing) => ReplayStep::Unpublished,
            (ReplayStep::Resolve { marker, .. }, ReplayEvent::Succeeded) => ReplayStep::Flush {
                marker,
            },
            (ReplayStep::Flush { marker }, ReplayEvent::Succeeded) => ReplayStep::Replayed {
                image: marker,
            },
            (ReplayStep::ReadMarker | ReplayStep::Resolve { .. } | ReplayStep::Flush { .. }, _) => {
                ReplayStep::Failed
            },
            (step, _) => step,
        }
    }
}

/// What is done before a branch is written.
#[derive(Clone, Copy, Debug, PartialEq, Eq, Structural)]
pub enum PrepareStep {
    CreateDirectory,
    /// An interrupted attempt is removed first.
    ReplaceDirectory,
}

/// Prepares the directory of a branch. A committed branch is never written over. `found` tells
/// what stands at the directory without following it; it is not looked at where `present` is false.
pub fn prepare(marker_exists: bool, present: bool, found: PathProbe) -> (outcome: Result<
    PrepareStep,
    BranchFault,
>)
    ensures
        outcome == if marker_exists {
            Err(BranchFault::AlreadyPublished)
        } else if !present {
            Ok(PrepareStep::CreateDirectory)
        } else if found is Symlink {
            Err(BranchFault::SymlinkDirectory)
        } else {
            Ok(PrepareStep::ReplaceDirectory)
        },
{
    if marker_exists {
        return Err(BranchFault::AlreadyPublished);
    }
    if !present {
        return Ok(PrepareStep::CreateDirectory);
    }
    match found {
        PathProbe::Symlink => Err(BranchFault::SymlinkDirectory),
        _ => Ok(PrepareStep::ReplaceDirectory),
    }
}

/// What publishing a branch does next.
#[derive(Debug, PartialEq, Eq)]
pub enum PublishStep {
    /// Flush every artifact of the branch and the directories above it.
    FlushArtifacts { marker: String },
    /// Write the marker in one step.
    InstallMarker { marker: String },
    Published { image: String },
    Failed,
}

impl PublishStep {
    /// What follows on a step that succeeded or failed.
    pub open spec fn after(self, succeeded: bool) -> PublishStep {
        match self {
            PublishStep::Published { image } => PublishStep::Published { image },
            PublishStep::FlushArtifacts { marker } => if succeeded {
                PublishStep::InstallMarker { marker }
            } else {
                PublishStep::Failed
            },
            PublishStep::InstallMarker { marker } => if succeeded {
                PublishStep::Published { image: marker }
            } else {
                PublishStep::Failed
            },
            PublishStep::Failed => PublishStep::Failed,
        }
    }

    pub fn next(self, succeeded: bool) -> (next: PublishStep)
        ensures
            next == self.after(succeeded),
    {
        match self {
            PublishStep::Published { image } => PublishStep::Published { image },
            PublishStep::FlushArtifacts { marker } => if succeeded {
                PublishStep::InstallMarker { marker }
            } else {
                PublishStep::Failed
            },
            PublishStep::InstallMarker { marker } => if succeeded {
                PublishStep::Published { image: marker }
            } else {
                PublishStep::Failed
            },
            PublishStep::Failed => PublishStep::Failed,
        }
    }
}

/// Starts to publish an image, given where the image and the directory of its branch really are.
pub fn commit(directory: &StorePath, image: &StorePath, is_file: bool) -> (outcome: Result<
    PublishStep,
    BranchFault,
>)
    ensures
        match outcome {
            Ok(PublishStep::FlushArtifacts { marker }) => {
                &&& directory@.is_prefix_of(image@)
                &&& is_file
                &&& marker@ == marker_text(*image)
            },
            Err(fault) => fault is EscapedImage && !(directory@.is_prefix_of(image@) && is_file),
            _ => false,
        },
{
    if !image.starts_with(directory) || !is_file {
        return Err(BranchFault::EscapedImage);
    }
    let marker = text::concat2("overlaybd-config:", image.to_text().as_str());
    Ok(PublishStep::FlushArtifacts { marker })
}

/// Whether a byte is a hexadecimal digit.
pub open spec fn is_hex_byte(byte: u8) -> bool {
    ||| 48 <= byte <= 57
    ||| 65 <= byte <= 70
    ||| 97 <= byte <= 102
}

/// Whether a component of a path can be the identity of a branch.
pub open spec fn is_identity(part: Part) -> bool {
    part matches Part::Name(name) && name.len() == 64 && forall|i: int|
        0 <= i < name.len() ==> is_hex_byte(#[trigger] name[i])
}

fn can_be_identity(part: &PathPart) -> (answer: bool)
    ensures
        answer == is_identity(part@),
{
    match part {
        PathPart::Name(name) => {
            if name.len() != 64 {
                return false;
            }
            let mut at: usize = 0;
            while at < name.len()
                invariant
                    at <= name@.len(),
                    part@ == Part::Name(name@),
                    forall|i: int| 0 <= i < at ==> is_hex_byte(#[trigger] name@[i]),
                decreases name@.len() - at,
            {
                let byte = name[at];
                if !((48 <= byte && byte <= 57) || (65 <= byte && byte <= 70) || (97 <= byte && byte
                    <= 102)) {
                    assert(!is_hex_byte(name@[at as int]));
                    return false;
                }
                at += 1;
            }
            true
        },
        _ => false,
    }
}

/// Whether a requested image may be looked for at all.
pub fn require_absolute(requested: &StorePath) -> (outcome: Result<(), BranchFault>)
    ensures
        outcome == if StorePath::is_absolute_parts(requested@) {
            Ok(())
        } else {
            Err::<(), BranchFault>(BranchFault::RelativePath)
        },
{
    if requested.is_absolute() {
        Ok(())
    } else {
        Err(BranchFault::RelativePath)
    }
}

/// Where an image really is: what is wrong with that, if anything.
pub open spec fn location_fault(root: Seq<Part>, image: Seq<Part>) -> Option<BranchFault> {
    if !root.is_prefix_of(image) {
        Some(BranchFault::OutsideRoot)
    } else if image.len() == root.len() {
        Some(BranchFault::MissingIdentity)
    } else if !is_identity(image[root.len() as int]) {
        Some(BranchFault::InvalidIdentity)
    } else {
        None
    }
}

/// The directory of the branch that an image belongs to, given where the root of all branches and
/// the image really are.
pub fn branch_directory(root: &StorePath, image: &StorePath) -> (outcome: Result<
    StorePath,
    BranchFault,
>)
    ensures
        match outcome {
            Ok(directory) => {
                &&& location_fault(root@, image@) is None
                &&& directory@ == image@.take(root@.len() as int + 1)
            },
            Err(fault) => location_fault(root@, image@) == Some(fault),
        },
{
    if !image.starts_with(root) {
        return Err(BranchFault::OutsideRoot);
    }
    let length: usize = root.depth();
    if image.depth() == length {
        return Err(BranchFault::MissingIdentity);
    }
    if !can_be_identity(image.part(length)) {
        return Err(BranchFault::InvalidIdentity);
    }
    match image.part(length) {
        PathPart::Name(name) => {
            let directory = root.join(name);
            proof {
                assert(image@.take(length as int) =~= root@);
                assert(image@.take(length as int + 1) =~= root@.push(image@[length as int]));
            }
            Ok(directory)
        },
        _ => Err(BranchFault::InvalidIdentity),
    }
}

/// What keeps an image from being used, given the marker of its branch.
pub open spec fn image_fault(image: StorePath, is_file: bool, marker: Option<Seq<char>>) -> Option<
    BranchFault,
> {
    if !is_file {
        Some(BranchFault::NotAFile)
    } else {
        match marker {
            None => Some(BranchFault::NotCommitted),
            Some(marker) => if marker == marker_text(image) {
                None
            } else {
                Some(BranchFault::ForeignMarker)
            },
        }
    }
}

/// Whether an image was published as it stands, given where it really is and the marker of its
/// branch.
pub fn validate(image: &StorePath, is_file: bool, marker: &Option<String>) -> (outcome: Result<
    (),
    BranchFault,
>)
    ensures
        match image_fault(
            *image,
            is_file,
            match *marker {
                Some(marker) => Some(marker@),
                None => None,
            },
        ) {
            None => outcome is Ok,
            Some(fault) => outcome == Err::<(), BranchFault>(fault),
        },
{
    if !is_file {
        return Err(BranchFault::NotAFile);
    }
    match marker {
        None => Err(BranchFault::NotCommitted),
        Some(marker) => {
            let expected = text::concat2("overlaybd-config:", image.to_text().as_str());
            if text::text_equal(marker.as_str(), expected.as_str()) {
                Ok(())
            } else {
                Err(BranchFault::ForeignMarker)
            }
        },
    }
}

// ---------------------------------------------------------------------------------------------
// Laws
// ---------------------------------------------------------------------------------------------

/// Whether a text has the shape that the text of every sandbox identifier has.
pub open spec fn is_identifier_shaped(text: Seq<char>) -> bool {
    text.len() == 36 && vstd::utf8::is_ascii_chars(text)
}

/// Two branches are digested from the same message only where their sources and their retry keys
/// are the same: no key can reach into another branch.
pub proof fn branches_do_not_alias(
    first: Seq<char>,
    first_key: Seq<char>,
    second: Seq<char>,
    second_key: Seq<char>,
)
    requires
        is_identifier_shaped(first),
        is_identifier_shaped(second),
        branch_message(first, first_key) == branch_message(second, second_key),
    ensures
        first == second,
        first_key == second_key,
{
    let head = text::text_bytes("agentenv-disk-branch-v1"@).push(0);
    let left = branch_message(first, first_key);
    let right = branch_message(second, second_key);
    vstd::utf8::is_ascii_chars_encode_utf8(first);
    vstd::utf8::is_ascii_chars_encode_utf8(second);
    assert(left.subrange(head.len() as int, head.len() as int + 36) =~= text::text_bytes(first));
    assert(right.subrange(head.len() as int, head.len() as int + 36) =~= text::text_bytes(second));
    assert(left.skip(head.len() as int + 37) =~= text::text_bytes(first_key));
    assert(right.skip(head.len() as int + 37) =~= text::text_bytes(second_key));
    text::text_bytes_are_injective(first, second);
    text::text_bytes_are_injective(first_key, second_key);
}

/// Whether the text of a sandbox identifier has its shape and is read back as that identifier.
pub open spec fn is_readable(source: SandboxId) -> bool {
    is_identifier_shaped(source.text()) && SandboxId::parsed(source.text()) == Some(source)
}

/// Two branches have the same identity only where their sources and their retry keys are the same,
/// byte for byte, as long as the digest tells their messages apart. Branches without a key are told
/// apart by their nonces in the same way.
pub proof fn identities_tell_branches_apart(
    first: SandboxId,
    first_key: Seq<char>,
    second: SandboxId,
    second_key: Seq<char>,
)
    requires
        is_readable(first),
        is_readable(second),
        digest::sha256_of(branch_message(first.text(), first_key)) == digest::sha256_of(
            branch_message(second.text(), second_key),
        ) ==> branch_message(first.text(), first_key) == branch_message(second.text(), second_key),
    ensures
        branch_identity(first, first_key) == branch_identity(second, second_key) <==> first == second
            && first_key == second_key,
{
    let left = branch_message(first.text(), first_key);
    let right = branch_message(second.text(), second_key);
    digest::hex_text_is_injective(digest::sha256_of(left), digest::sha256_of(right));
    if left == right {
        branches_do_not_alias(first.text(), first_key, second.text(), second_key);
    }
}

/// The marker that a commit writes names its image again, and lets that image through and no
/// other.
pub proof fn commits_are_read_back(image: StorePath, other: StorePath)
    ensures
        marked_path(marker_text(image)) == Some(image.shown()),
        image_fault(image, true, Some(marker_text(image))) is None,
        other.shown() != image.shown() ==> image_fault(other, true, Some(marker_text(image))) == Some(
            BranchFault::ForeignMarker,
        ),
{
    let prefix = "overlaybd-config:"@;
    assert(marker_text(image).skip(prefix.len() as int) =~= image.shown());
    assert(marker_text(other).skip(prefix.len() as int) =~= other.shown());
}

/// The marker of a branch, without which no image of it resolves, is written only once every
/// artifact is flushed, and a branch is reported as published only once the marker is in place.
pub proof fn publication_takes_every_flush(image: StorePath, marker: String, flushed: bool, installed: bool)
    requires
        marker@ == marker_text(image),
    ensures
        image_fault(image, true, None) == Some(BranchFault::NotCommitted),
        ({
            let second = (PublishStep::FlushArtifacts { marker }).after(flushed);
            let third = second.after(installed);
            &&& second is InstallMarker <==> flushed
            &&& third is Published <==> flushed && installed
            &&& third is Published || third is Failed
            &&& third matches PublishStep::Published { image: reported } ==> image_fault(
                image,
                true,
                Some(reported@),
            ) is None
        }),
{
    commits_are_read_back(image, image);
}

/// A replay reports what the marker says, and only where the marker was read, the image that it
/// names resolved, and the branch was flushed again.
pub proof fn replays_report_the_first_publication(
    marker: String,
    steps: Seq<ReplayStep>,
    events: Seq<ReplayEvent>,
)
    requires
        steps.len() == 4,
        events.len() == 3,
        steps[0] is ReadMarker,
        forall|i: int| 0 <= i < 3 ==> (#[trigger] steps[i]).leads_to(events[i], steps[i + 1]),
        events[0] == (ReplayEvent::MarkerRead { marker }),
    ensures
        steps[3] is Replayed <==> marked_path(marker@) is Some && events[1] is Succeeded
            && events[2] is Succeeded,
        steps[3] matches ReplayStep::Replayed { image } ==> image@ == marker@,
        forall|i: int| 0 <= i < 4 ==> !((#[trigger] steps[i]) is Unpublished),
{
    assert(steps[0].leads_to(events[0], steps[1]));
    assert(steps[1].leads_to(events[1], steps[2]));
    assert(steps[2].leads_to(events[2], steps[3]));
    assert forall|i: int| 0 <= i < 4 implies !((#[trigger] steps[i]) is Unpublished) by {
        assert(i == 0 || i == 1 || i == 2 || i == 3);
    }
}

/// Whether every byte of a name is one of the characters `0` to `9`, `a` to `f` and `A` to `F`.
pub open spec fn is_hexadecimal(name: Seq<u8>) -> bool {
    forall|i: int|
        0 <= i < name.len() ==> '0' as u8 <= #[trigger] name[i] <= '9' as u8 || 'a' as u8 <= name[i]
            <= 'f' as u8 || 'A' as u8 <= name[i] <= 'F' as u8
}

/// An image belongs to a branch exactly where it lies in the root of all branches, in a directory
/// called by sixty-four hexadecimal digits: every image that does has no fault of location, and
/// every other one is refused for the first thing that is wrong.
pub proof fn images_belong_to_the_branch_that_holds_them(root: Seq<Part>, image: Seq<Part>)
    ensures
        location_fault(root, image) is None <==> {
            &&& image.len() > root.len()
            &&& image.take(root.len() as int) == root
            &&& image[root.len() as int] matches Part::Name(name)
            &&& name.len() == 64
            &&& is_hexadecimal(name)
        },
        location_fault(root, image) == Some(BranchFault::OutsideRoot) <==> !(image.len() >= root.len()
            && image.take(root.len() as int) == root),
        location_fault(root, image) == Some(BranchFault::MissingIdentity) <==> image == root,
        location_fault(root, image) is None || location_fault(root, image) == Some(
            BranchFault::OutsideRoot,
        ) || location_fault(root, image) == Some(BranchFault::MissingIdentity) || location_fault(
            root,
            image,
        ) == Some(BranchFault::InvalidIdentity),
{
    if image.len() >= root.len() {
        assert(root.is_prefix_of(image) <==> image.take(root.len() as int) == root) by {
            if root.is_prefix_of(image) {
                assert(image.take(root.len() as int) =~= root);
            }
        }
        if image.len() == root.len() {
            assert(image.take(root.len() as int) =~= image);
        }
    }
    if image.len() > root.len() {
        match image[root.len() as int] {
            Part::Name(name) => {
                assert(is_hexadecimal(name) <==> forall|i: int|
                    0 <= i < name.len() ==> is_hex_byte(#[trigger] name[i])) by {
                    if is_hexadecimal(name) {
                        assert forall|i: int| 0 <= i < name.len() implies is_hex_byte(
                            #[trigger] name[i],
                        ) by {}
                    }
                    if forall|i: int| 0 <= i < name.len() ==> is_hex_byte(#[trigger] name[i]) {
                        assert forall|i: int| 0 <= i < name.len() implies '0' as u8
                            <= #[trigger] name[i] <= '9' as u8 || 'a' as u8 <= name[i] <= 'f' as u8
                            || 'A' as u8 <= name[i] <= 'F' as u8 by {
                            assert(is_hex_byte(name[i]));
                        }
                    }
                }
            },
            _ => {},
        }
    }
}

/// Whatever `identity` gives out is accepted as the identity of a branch: an image in the directory
/// of that name below the root has no fault of location, and that directory is the one of its
/// branch.
pub proof fn identities_are_accepted(root: Seq<Part>, identity: Seq<char>, inside: Seq<Part>)
    requires
        identity.len() == 64,
        forall|i: int|
            0 <= i < identity.len() ==> '0' <= #[trigger] identity[i] <= '9' || 'a' <= identity[i]
                <= 'f',
    ensures
        is_digest_text(identity),
        ({
            let directory = root.push(Part::Name(text::text_bytes(identity)));
            &&& location_fault(root, directory + inside) is None
            &&& (directory + inside).take(root.len() as int + 1) == directory
        }),
{
    let name = text::text_bytes(identity);
    let directory = root.push(Part::Name(name));
    let image = directory + inside;
    assert(vstd::utf8::is_ascii_chars(identity)) by {
        assert forall|i: int| 0 <= i < identity.len() implies 0 <= #[trigger] identity[i] as int
            <= 127 by {}
    }
    vstd::utf8::is_ascii_chars_encode_utf8(identity);
    assert(name.len() == 64);
    assert forall|i: int| 0 <= i < name.len() implies '0' as u8 <= #[trigger] name[i] <= '9' as u8
        || 'a' as u8 <= name[i] <= 'f' as u8 || 'A' as u8 <= name[i] <= 'F' as u8 by {
        assert(name[i] == identity[i] as u8);
    }
    assert(image.take(root.len() as int) =~= root);
    assert(image[root.len() as int] == Part::Name(name));
    assert(image.take(root.len() as int + 1) =~= directory);
    images_belong_to_the_branch_that_holds_them(root, image);
}

/// A branch that was committed under its identity resolves: the image that was published lies in the
/// directory of its branch, and the marker that the commit wrote there lets it through.
pub proof fn committed_branches_resolve(
    root: Seq<Part>,
    identity: Seq<char>,
    inside: Seq<Part>,
    image: StorePath,
    marker: String,
)
    requires
        is_digest_text(identity),
        image@ == root.push(Part::Name(text::text_bytes(identity))) + inside,
        marker@ == "overlaybd-config:"@ + image.shown(),
    ensures
        location_fault(root, image@) is None,
        image@.take(root.len() as int + 1) == root.push(Part::Name(text::text_bytes(identity))),
        root.push(Part::Name(text::text_bytes(identity))).is_prefix_of(image@),
        marker@ == marker_text(image),
        image_fault(image, true, Some(marker@)) is None,
        marked_path(marker@) == Some(image.shown()),
{
    assert forall|i: int| 0 <= i < identity.len() implies '0' <= #[trigger] identity[i] <= '9' || 'a'
        <= identity[i] <= 'f' by {
        assert(digest::is_hex_digit(identity[i]));
    }
    identities_are_accepted(root, identity, inside);
    commits_are_read_back(image, image);
}

/// Only a file that its marker names is used: what is no file, what has no marker and what has the
/// marker of another image is refused, each for its own reason.
pub proof fn only_published_images_are_used(image: StorePath, is_file: bool, marker: Option<Seq<char>>)
    ensures
        image_fault(image, is_file, marker) is None <==> is_file && marker == Some(
            "overlaybd-config:"@ + image.shown(),
        ),
        image_fault(image, is_file, marker) == Some(BranchFault::NotAFile) <==> !is_file,
        image_fault(image, is_file, marker) == Some(BranchFault::NotCommitted) <==> is_file && marker is None,
{
}

/// A marker names whatever stands behind its prefix, and nothing else is a marker.
pub proof fn markers_name_what_they_hold(path: Seq<char>, other: Seq<char>)
    ensures
        marked_path("overlaybd-config:"@ + path) == Some(path),
        marked_path(other) is Some ==> other == "overlaybd-config:"@ + marked_path(other)->0,
{
    let prefix = "overlaybd-config:"@;
    assert((prefix + path).skip(prefix.len() as int) =~= path);
    if prefix.is_prefix_of(other) {
        assert(other =~= prefix + other.skip(prefix.len() as int));
    }
}

/// A replay without a marker finds nothing published, and one that cannot read, resolve or flush
/// fails: neither is taken for a publication, and a marker that is none refuses the branch.
pub proof fn replays_fail_where_they_cannot_read(step: ReplayStep, event: ReplayEvent, next: ReplayStep)
    requires
        step.leads_to(event, next),
    ensures
        step is ReadMarker && event is MarkerMissing ==> next is Unpublished,
        next is Unpublished && !(step is Unpublished) ==> step is ReadMarker && event is MarkerMissing,
        event is Failed && (step is ReadMarker || step is Resolve || step is Flush) ==> next is Failed,
        next is Replayed && !(step is Replayed) ==> step is Flush && event is Succeeded,
        next is Flush && !(step is Flush) ==> step is Resolve && event is Succeeded,
        next matches ReplayStep::Resolve { image, .. } ==> !(step is Resolve) ==> (event
            matches ReplayEvent::MarkerRead { marker } && "overlaybd-config:"@.is_prefix_of(marker@)
            && image.spelled() == text::text_bytes(
            marker@.skip("overlaybd-config:"@.len() as int),
        )),
{
}

/// The identity of a branch is the digest of a fixed word, its source and its retry key, with a zero
/// byte behind each of the first two.
pub proof fn identities_digest_source_and_key(source: SandboxId, key: Seq<char>)
    ensures
        branch_identity(source, key) == digest::sha256_hex_of(
            text::text_bytes("agentenv-disk-branch-v1"@) + seq![0u8] + text::text_bytes(source.text())
                + seq![0u8] + text::text_bytes(key),
        ),
{
    assert(branch_message(source.text(), key) =~= text::text_bytes("agentenv-disk-branch-v1"@) + seq![
        0u8,
    ] + text::text_bytes(source.text()) + seq![0u8] + text::text_bytes(key));
}

/// Different faults of a branch have different messages.
pub proof fn faults_of_branches_are_told_apart(left: BranchFault, right: BranchFault)
    ensures
        left.shown() == right.shown() ==> left == right,
{
    reveal_strlit("branch image path must be absolute");
    reveal_strlit("image is outside managed disk-branch root");
    reveal_strlit("missing branch identity");
    reveal_strlit("invalid branch identity");
    reveal_strlit("branch image is not a file");
    reveal_strlit("branch is not committed");
    reveal_strlit("branch marker does not name this image");
    reveal_strlit("invalid branch marker");
    reveal_strlit("branch already published");
    reveal_strlit("branch directory is a symlink");
    reveal_strlit("branch image escaped its directory");
    assert("branch image path must be absolute"@.len() == 34);
    assert("branch image escaped its directory"@.len() == 34);
    assert("branch image path must be absolute"@[13] == 'p');
    assert("branch image escaped its directory"@[13] == 'e');
    assert("image is outside managed disk-branch root"@.len() == 41);
    assert("missing branch identity"@.len() == 23);
    assert("invalid branch identity"@.len() == 23);
    assert("branch is not committed"@.len() == 23);
    assert("missing branch identity"@[0] == 'm');
    assert("invalid branch identity"@[0] == 'i');
    assert("branch is not committed"@[0] == 'b');
    assert("branch image is not a file"@.len() == 26);
    assert("branch marker does not name this image"@.len() == 38);
    assert("invalid branch marker"@.len() == 21);
    assert("branch already published"@.len() == 24);
    assert("branch directory is a symlink"@.len() == 29);
}

} // verus!
