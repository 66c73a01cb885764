//! Values that lifecycle requests and sandbox records are made of.

use crate::ids::SandboxId;
use crate::orchestrator::metadata::SandboxMetadata;
use crate::paths::StorePath;
use crate::text;
use vstd::prelude::*;

verus! {

/// The largest number of characters in a create idempotency key.
pub const MAX_CREATE_IDEMPOTENCY_KEY_LEN: usize = 128;

/// A JSON document that is carried along and never looked into.
#[derive(Debug)]
pub struct Document {
    pub json: String,
}

impl Document {
    pub fn copy(&self) -> (copy: Document)
        ensures
            copy == *self,
    {
        Document { json: self.json.clone() }
    }

    pub fn copy_optional(document: &Option<Document>) -> (copy: Option<Document>)
        ensures
            copy == *document,
    {
        match document {
            Some(document) => Some(document.copy()),
            None => None,
        }
    }
}

pub fn copy_optional_text(value: &Option<String>) -> (copy: Option<String>)
    ensures
        copy == *value,
{
    match value {
        Some(value) => Some(value.clone()),
        None => None,
    }
}

/// Where a sandbox stands in its life.
#[derive(Clone, Copy, Debug, PartialEq, Eq, Structural)]
pub enum SandboxState {
    Creating,
    Resuming,
    Running,
    Snapshotting,
    Forking,
    Pausing,
    Paused,
    Killing,
}

impl SandboxState {
    pub open spec fn name_text(self) -> Seq<char> {
        match self {
            SandboxState::Creating => "creating"@,
            SandboxState::Resuming => "resuming"@,
            SandboxState::Running => "running"@,
            SandboxState::Snapshotting => "snapshotting"@,
            SandboxState::Forking => "forking"@,
            SandboxState::Pausing => "pausing"@,
            SandboxState::Paused => "paused"@,
            SandboxState::Killing => "killing"@,
        }
    }

    pub open spec fn variant_text(self) -> Seq<char> {
        match self {
            SandboxState::Creating => "Creating"@,
            SandboxState::Resuming => "Resuming"@,
            SandboxState::Running => "Running"@,
            SandboxState::Snapshotting => "Snapshotting"@,
            SandboxState::Forking => "Forking"@,
            SandboxState::Pausing => "Pausing"@,
            SandboxState::Paused => "Paused"@,
            SandboxState::Killing => "Killing"@,
        }
    }

    /// The name shown where a request does not fit the state.
    pub fn variant(self) -> (name: &'static str)
        ensures
            name@ == self.variant_text(),
    {
        match self {
            SandboxState::Creating => "Creating",
            SandboxState::Resuming => "Resuming",
            SandboxState::Running => "Running",
            SandboxState::Snapshotting => "Snapshotting",
            SandboxState::Forking => "Forking",
            SandboxState::Pausing => "Pausing",
            SandboxState::Paused => "Paused",
            SandboxState::Killing => "Killing",
        }
    }

    /// The name shown to users.
    pub fn name(self) -> (name: &'static str)
        ensures
            name@ == self.name_text(),
    {
        match self {
            SandboxState::Creating => "creating",
            SandboxState::Resuming => "resuming",
            SandboxState::Running => "running",
            SandboxState::Snapshotting => "snapshotting",
            SandboxState::Forking => "forking",
            SandboxState::Pausing => "pausing",
            SandboxState::Paused => "paused",
            SandboxState::Killing => "killing",
        }
    }
}

/// For whom local image artifacts are protected from eviction.
#[derive(Clone, Copy, Debug, PartialEq, Eq, Structural)]
pub enum ImageOwner {
    StartingSandbox,
    PausedSandbox,
}

impl ImageOwner {
    pub open spec fn name_text(self) -> Seq<char> {
        match self {
            ImageOwner::StartingSandbox => "starting sandbox"@,
            ImageOwner::PausedSandbox => "paused sandbox"@,
        }
    }

    pub fn name(self) -> (name: &'static str)
        ensures
            name@ == self.name_text(),
    {
        match self {
            ImageOwner::StartingSandbox => "starting sandbox",
            ImageOwner::PausedSandbox => "paused sandbox",
        }
    }
}

/// How guests are virtualized on a node.
#[derive(Clone, Copy, Debug, PartialEq, Eq, Structural)]
pub enum VirtualizationMode {
    Kvm,
    Pvm,
}

/// What happens to a sandbox whose timeout has passed.
#[derive(Clone, Copy, Debug, PartialEq, Eq, Structural)]
pub enum SandboxTimeoutAction {
    Pause,
    Delete,
}

/// A change of a sandbox timeout, in nanoseconds.
#[derive(Clone, Copy, Debug, PartialEq, Eq, Structural)]
pub enum NewTimeout {
    After(u128),
    Never,
}

/// What a sandbox is given to run on.
#[derive(Clone, Copy, Debug, PartialEq, Eq, Structural)]
pub struct SandboxResources {
    pub cpu_count: u32,
    pub memory_mib: u32,
    pub disk_size_mib: u64,
}

/// The versions of the components that a sandbox was started with.
#[derive(Debug)]
pub struct SnapshotRuntimeVersions {
    pub kernel: String,
    pub firecracker: String,
    pub envd: String,
    pub tools: String,
}

impl SnapshotRuntimeVersions {
    pub fn copy(&self) -> (copy: SnapshotRuntimeVersions)
        ensures
            copy == *self,
    {
        SnapshotRuntimeVersions {
            kernel: self.kernel.clone(),
            firecracker: self.firecracker.clone(),
            envd: self.envd.clone(),
            tools: self.tools.clone(),
        }
    }
}

/// A paused runtime state held elsewhere under this number.
#[derive(Clone, Copy, Debug, PartialEq, Eq, Structural)]
pub struct PausedStateRef {
    pub handle: u64,
}

/// Client-supplied identity for safely retrying one sandbox create operation.
///
/// The key is opaque. The fingerprint is computed from the create route and the request body, so
/// that a key cannot be reused for a different request.
#[derive(Debug)]
pub struct CreateSandboxIdempotency {
    key: String,
    request_fingerprint: String,
}

/// Why a create identity is refused.
#[derive(Clone, Copy, Debug, PartialEq, Eq, Structural)]
pub enum CreateIdempotencyFault {
    EmptyKey,
    LongKey,
    EmptyFingerprint,
}

impl CreateIdempotencyFault {
    pub open spec fn shown(self) -> Seq<char> {
        match self {
            CreateIdempotencyFault::EmptyKey => "idempotencyKey must not be empty"@,
            CreateIdempotencyFault::LongKey => "idempotencyKey must not exceed "@ + text::decimal(
                MAX_CREATE_IDEMPOTENCY_KEY_LEN as nat,
            ) + " characters"@,
            CreateIdempotencyFault::EmptyFingerprint => "create request fingerprint must not be empty"@,
        }
    }

    pub fn to_text(self) -> (shown: String)
        ensures
            shown@ == self.shown(),
    {
        match self {
            CreateIdempotencyFault::EmptyKey => "idempotencyKey must not be empty".to_owned(),
            CreateIdempotencyFault::LongKey => text::concat3(
                "idempotencyKey must not exceed ",
                text::decimal_text(MAX_CREATE_IDEMPOTENCY_KEY_LEN as u64).as_str(),
                " characters",
            ),
            CreateIdempotencyFault::EmptyFingerprint => {
                "create request fingerprint must not be empty".to_owned()
            },
        }
    }
}

/// What is wrong with a create identity, the key being looked at first.
pub open spec fn create_identity_fault(
    key: Seq<char>,
    request_fingerprint: Seq<char>,
) -> Option<CreateIdempotencyFault> {
    if key.len() == 0 {
        Some(CreateIdempotencyFault::EmptyKey)
    } else if key.len() > MAX_CREATE_IDEMPOTENCY_KEY_LEN {
        Some(CreateIdempotencyFault::LongKey)
    } else if request_fingerprint.len() == 0 {
        Some(CreateIdempotencyFault::EmptyFingerprint)
    } else {
        None
    }
}

impl CreateSandboxIdempotency {
    pub closed spec fn key_text(&self) -> Seq<char> {
        self.key@
    }

    pub closed spec fn fingerprint_text(&self) -> Seq<char> {
        self.request_fingerprint@
    }

    /// Every identity of this type has a usable key and a fingerprint.
    #[verifier::type_invariant]
    spec fn sound(self) -> bool {
        create_identity_fault(self.key@, self.request_fingerprint@) is None
    }

    pub fn new(key: String, request_fingerprint: String) -> (identity: Result<
        CreateSandboxIdempotency,
        CreateIdempotencyFault,
    >)
        ensures
            match identity {
                Ok(identity) => {
                    &&& create_identity_fault(key@, request_fingerprint@) is None
                    &&& identity.key_text() == key@
                    &&& identity.fingerprint_text() == request_fingerprint@
                },
                Err(fault) => create_identity_fault(key@, request_fingerprint@) == Some(fault),
            },
    {
        let length: usize = key.as_str().unicode_len();
        if length == 0 {
            return Err(CreateIdempotencyFault::EmptyKey);
        }
        if length > MAX_CREATE_IDEMPOTENCY_KEY_LEN {
            return Err(CreateIdempotencyFault::LongKey);
        }
        if request_fingerprint.as_str().is_empty() {
            return Err(CreateIdempotencyFault::EmptyFingerprint);
        }
        Ok(CreateSandboxIdempotency { key, request_fingerprint })
    }

    pub fn key(&self) -> (key: &String)
        ensures
            key@ == self.key_text(),
    {
        &self.key
    }

    pub fn request_fingerprint(&self) -> (request_fingerprint: &String)
        ensures
            request_fingerprint@ == self.fingerprint_text(),
    {
        &self.request_fingerprint
    }

    /// A create identity has a key of one to 128 characters and a fingerprint.
    pub fn soundness(&self)
        ensures
            create_identity_fault(self.key_text(), self.fingerprint_text()) is None,
    {
        proof {
            use_type_invariant(self);
        }
    }
}

/// What a new sandbox is started from.
#[allow(inconsistent_fields)]
#[derive(Debug)]
pub enum SandboxLaunchSource {
    Snapshot {
        snapshot_id: String,
        alias: Option<String>,
        virtualization_mode: VirtualizationMode,
        runtime_versions: SnapshotRuntimeVersions,
        resources: SandboxResources,
        context: Document,
        startup: Option<Document>,
        image_configs: Option<Document>,
        custom_extension_params: Option<Document>,
    },
    Image {
        image_ref: String,
        overlaybd_config_path: StorePath,
        context: Document,
        resources: Option<SandboxResources>,
        extra_drives: Document,
        extra_boot_args: Option<String>,
        image_configs: Option<Document>,
    },
}

#[derive(Debug)]
pub struct CreateSandboxRequest {
    pub source: SandboxLaunchSource,
    /// In nanoseconds.
    pub timeout: Option<u128>,
    pub timeout_action: SandboxTimeoutAction,
    pub auto_resume: bool,
    pub user_metadata: Option<Document>,
    pub env_vars: Option<Document>,
    pub network_policy: Document,
    pub secure: bool,
    pub idempotency: Option<CreateSandboxIdempotency>,
    pub custom_extension_params: Option<Document>,
}

#[derive(Clone, Copy, Debug, PartialEq, Eq, Structural)]
pub enum SandboxLifecycleEventType {
    Create,
    Delete,
    Pause,
    Resume,
    Fork,
}

#[derive(Clone, Copy, Debug, PartialEq, Eq, Structural)]
pub struct SandboxLifecycleEvent {
    pub event_type: SandboxLifecycleEventType,
    pub sandbox_id: SandboxId,
    pub resources: SandboxResources,
}

/// A captured snapshot, held elsewhere under `captured_snapshot`, with the metadata of its source.
#[derive(Debug)]
pub struct SnapshotCaptureResult {
    pub metadata: SandboxMetadata,
    pub captured_snapshot: u64,
}

/// A create identity is usable exactly where its key has from one to a hundred and twenty-eight
/// characters and its fingerprint has any; what is wrong with the key is told first.
pub proof fn identities_have_a_key_and_a_fingerprint(key: Seq<char>, fingerprint: Seq<char>)
    ensures
        key.len() == 0 ==> create_identity_fault(key, fingerprint) == Some(
            CreateIdempotencyFault::EmptyKey,
        ),
        key.len() > 128 ==> create_identity_fault(key, fingerprint) == Some(
            CreateIdempotencyFault::LongKey,
        ),
        1 <= key.len() <= 128 && fingerprint.len() == 0 ==> create_identity_fault(key, fingerprint)
            == Some(CreateIdempotencyFault::EmptyFingerprint),
        1 <= key.len() <= 128 && fingerprint.len() > 0 ==> create_identity_fault(key, fingerprint)
            is None,
{
}

/// Every state has a name of its own, and so has its variant.
pub proof fn names_tell_states_apart(left: SandboxState, right: SandboxState)
    ensures
        left.name_text() == right.name_text() ==> left == right,
        left.variant_text() == right.variant_text() ==> left == right,
{
    reveal_strlit("creating");
    reveal_strlit("resuming");
    reveal_strlit("running");
    reveal_strlit("snapshotting");
    reveal_strlit("forking");
    reveal_strlit("pausing");
    reveal_strlit("paused");
    reveal_strlit("killing");
    reveal_strlit("Creating");
    reveal_strlit("Resuming");
    reveal_strlit("Running");
    reveal_strlit("Snapshotting");
    reveal_strlit("Forking");
    reveal_strlit("Pausing");
    reveal_strlit("Paused");
    reveal_strlit("Killing");
    assert("creating"@[0] == 'c' && "resuming"@[0] == 'r' && "running"@[0] == 'r' && "snapshotting"@[0]
        == 's' && "forking"@[0] == 'f' && "pausing"@[0] == 'p' && "paused"@[0] == 'p' && "killing"@[0]
        == 'k');
    assert("Creating"@[0] == 'C' && "Resuming"@[0] == 'R' && "Running"@[0] == 'R' && "Snapshotting"@[0]
        == 'S' && "Forking"@[0] == 'F' && "Pausing"@[0] == 'P' && "Paused"@[0] == 'P' && "Killing"@[0]
        == 'K');
    assert("resuming"@.len() == 8 && "running"@.len() == 7 && "pausing"@.len() == 7 && "paused"@.len()
        == 6);
    assert("Resuming"@.len() == 8 && "Running"@.len() == 7 && "Pausing"@.len() == 7 && "Paused"@.len()
        == 6);
}

/// What is told of a key that is too long names the limit.
pub proof fn the_limit_of_a_key_is_named()
    ensures
        text::mentions(CreateIdempotencyFault::LongKey.shown(), text::decimal(128)),
{
    broadcast use {text::the_end_is_mentioned, text::the_beginning_mentions};

}

} // verus!
