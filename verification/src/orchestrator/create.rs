//! The plan for a new sandbox.

use crate::ids::SandboxId;
use crate::orchestrator::error::{MismatchedResource, OrchestratorError};
use crate::orchestrator::launch;
use crate::orchestrator::launch::{LaunchKind, LaunchPlan};
use crate::orchestrator::metadata::SandboxMetadata;
use crate::orchestrator::types::{
    CreateSandboxIdempotency, CreateSandboxRequest, Document, NewTimeout, SandboxLaunchSource,
    SandboxLifecycleEvent, SandboxLifecycleEventType, SandboxResources, SandboxState,
    SnapshotRuntimeVersions, VirtualizationMode,
};
use crate::paths::StorePath;
use vstd::prelude::*;

verus! {

/// What a node is configured with.
#[derive(Debug)]
pub struct NodeSettings {
    pub virtualization_mode: VirtualizationMode,
    /// In nanoseconds.
    pub default_timeout: u128,
    /// The resources of a fresh sandbox for which none are asked.
    pub fresh_resources: SandboxResources,
    pub runtime_versions: SnapshotRuntimeVersions,
}

/// What a runtime is told when it is built.
#[derive(Debug)]
pub struct SandboxLaunchConfig {
    pub sandbox_id: SandboxId,
    pub snapshot_id: String,
    pub env_vars: Option<Document>,
    pub network_policy: Document,
    /// What the guest sees under `imageConfigs`.
    pub image_configs: Option<Document>,
    pub custom_extension_params: Option<Document>,
    pub with_access_token: bool,
}

/// What a runtime is built from.
#[derive(Debug)]
pub enum CreateLaunchSource {
    Snapshot { snapshot_id: String },
    Fresh {
        image_config_path: StorePath,
        context: Document,
        resources: SandboxResources,
        extra_drives: Document,
        extra_boot_args: Option<String>,
    },
}

/// How a new sandbox comes to be.
#[derive(Debug)]
pub struct CreatePlan {
    pub source: CreateLaunchSource,
    pub config: SandboxLaunchConfig,
    pub launch: LaunchPlan,
}

/// Parameters given at the launch come before those of the snapshot.
pub open spec fn effective_params(given: Option<Document>, inherited: Option<Document>) -> Option<
    Document,
> {
    if given is Some {
        given
    } else {
        inherited
    }
}

/// The resources that a request leads to.
pub open spec fn requested_resources(
    request: CreateSandboxRequest,
    node: NodeSettings,
) -> SandboxResources {
    match request.source {
        SandboxLaunchSource::Snapshot { resources, .. } => resources,
        SandboxLaunchSource::Image { resources, .. } => match resources {
            Some(resources) => resources,
            None => node.fresh_resources,
        },
    }
}

/// The custom extension parameters that a request leads to.
pub open spec fn requested_params(request: CreateSandboxRequest) -> Option<Document> {
    match request.source {
        SandboxLaunchSource::Snapshot { custom_extension_params, .. } => effective_params(
            request.custom_extension_params,
            custom_extension_params,
        ),
        SandboxLaunchSource::Image { .. } => request.custom_extension_params,
    }
}

/// What a request names as its source.
pub open spec fn source_name(source: SandboxLaunchSource) -> String {
    match source {
        SandboxLaunchSource::Snapshot { snapshot_id, .. } => snapshot_id,
        SandboxLaunchSource::Image { image_ref, .. } => image_ref,
    }
}

pub open spec fn source_image_configs(source: SandboxLaunchSource) -> Option<Document> {
    match source {
        SandboxLaunchSource::Snapshot { image_configs, .. } => image_configs,
        SandboxLaunchSource::Image { image_configs, .. } => image_configs,
    }
}

/// Whether this is the metadata that a request leads to, before the sandbox runs.
pub open spec fn is_new_metadata(
    metadata: SandboxMetadata,
    sandbox_id: SandboxId,
    request: CreateSandboxRequest,
    node: NodeSettings,
    now: u128,
) -> bool {
    &&& metadata.id == sandbox_id
    &&& metadata.snapshot_id == source_name(request.source)
    &&& metadata.image_configs == source_image_configs(request.source)
    &&& metadata.resources == requested_resources(request, node)
    &&& metadata.custom_extension_params == requested_params(request)
    &&& match request.source {
        SandboxLaunchSource::Snapshot {
            alias,
            virtualization_mode,
            runtime_versions,
            context,
            startup,
            ..
        } => {
            &&& metadata.snapshot_alias == alias
            &&& metadata.virtualization_mode == virtualization_mode
            &&& metadata.runtime_versions == runtime_versions
            &&& metadata.context == Some(context)
            &&& metadata.startup == startup
        },
        SandboxLaunchSource::Image { context, .. } => {
            &&& metadata.snapshot_alias is None
            &&& metadata.virtualization_mode == node.virtualization_mode
            &&& metadata.runtime_versions == node.runtime_versions
            &&& metadata.context == Some(context)
            &&& metadata.startup is None
        },
    }
    &&& metadata.timeout_action == request.timeout_action
    &&& metadata.auto_resume == request.auto_resume
    &&& metadata.user_metadata == request.user_metadata
    &&& metadata.network_policy == Some(request.network_policy)
    &&& metadata.secure == request.secure
    &&& match request.idempotency {
        Some(identity) => {
            &&& metadata.create_idempotency_key is Some
            &&& metadata.create_idempotency_key->0@ == identity.key_text()
            &&& metadata.create_request_fingerprint is Some
            &&& metadata.create_request_fingerprint->0@ == identity.fingerprint_text()
        },
        None => metadata.create_idempotency_key is None
            && metadata.create_request_fingerprint is None,
    }
    &&& metadata.state is Creating
    &&& metadata.created_at == now
    &&& metadata.expires_at is None
    &&& metadata.timeout is None
    &&& metadata.paused_state is None
    &&& !metadata.paused_runtime_stopped
    &&& !metadata.resume_recovery_pending
}

/// What keeps a request from being carried out.
pub open spec fn refusal(
    request: CreateSandboxRequest,
    node: NodeSettings,
    shutting_down: bool,
) -> Option<OrchestratorError> {
    if shutting_down {
        Some(OrchestratorError::ShuttingDown)
    } else {
        match request.source {
            SandboxLaunchSource::Snapshot { snapshot_id, virtualization_mode, .. } => {
                if virtualization_mode != node.virtualization_mode {
                    Some(
                        OrchestratorError::VirtualizationModeMismatch {
                            resource: MismatchedResource::Snapshot { snapshot_id },
                            resource_mode: virtualization_mode,
                            node_mode: node.virtualization_mode,
                        },
                    )
                } else {
                    None
                }
            },
            SandboxLaunchSource::Image { .. } => None,
        }
    }
}

fn identity_texts(identity: &Option<CreateSandboxIdempotency>) -> (texts: (
    Option<String>,
    Option<String>,
))
    ensures
        match *identity {
            Some(identity) => {
                &&& texts.0 is Some
                &&& texts.0->0@ == identity.key_text()
                &&& texts.1 is Some
                &&& texts.1->0@ == identity.fingerprint_text()
            },
            None => texts.0 is None && texts.1 is None,
        },
{
    match identity {
        Some(identity) => (
            Some(identity.key().clone()),
            Some(identity.request_fingerprint().clone()),
        ),
        None => (None, None),
    }
}

/// Plans the creation of a sandbox from a snapshot or an image.
pub fn create_sandbox_inner(
    sandbox_id: SandboxId,
    request: CreateSandboxRequest,
    node: &NodeSettings,
    shutting_down: bool,
    now: u128,
) -> (plan: Result<CreatePlan, OrchestratorError>)
    ensures
        match plan {
            Ok(plan) => {
                &&& refusal(request, *node, shutting_down) is None
                &&& plan.launch.sandbox_id == sandbox_id
                &&& plan.launch.timeout == NewTimeout::After(
                    match request.timeout {
                        Some(timeout) => timeout,
                        None => node.default_timeout,
                    },
                )
                &&& plan.launch.resources == requested_resources(request, *node)
                &&& plan.launch.kind matches LaunchKind::Create { metadata }
                &&& is_new_metadata(metadata, sandbox_id, request, *node, now)
                &&& launch::is_plan(plan.launch)
                &&& plan.config == (SandboxLaunchConfig {
                    sandbox_id,
                    snapshot_id: source_name(request.source),
                    env_vars: request.env_vars,
                    network_policy: request.network_policy,
                    image_configs: source_image_configs(request.source),
                    custom_extension_params: requested_params(request),
                    with_access_token: request.secure,
                })
                &&& plan.source == match request.source {
                    SandboxLaunchSource::Snapshot { snapshot_id, .. } => {
                        CreateLaunchSource::Snapshot { snapshot_id }
                    },
                    SandboxLaunchSource::Image {
                        overlaybd_config_path,
                        context,
                        extra_drives,
                        extra_boot_args,
                        ..
                    } => CreateLaunchSource::Fresh {
                        image_config_path: overlaybd_config_path,
                        context,
                        resources: requested_resources(request, *node),
                        extra_drives,
                        extra_boot_args,
                    },
                }
            },
            Err(error) => refusal(request, *node, shutting_down) == Some(error),
        },
{
    if shutting_down {
        return Err(OrchestratorError::ShuttingDown);
    }
    let (create_idempotency_key, create_request_fingerprint) = identity_texts(&request.idempotency);
    let timeout: u128 = match request.timeout {
        Some(timeout) => timeout,
        None => node.default_timeout,
    };
    match request.source {
        SandboxLaunchSource::Snapshot {
            snapshot_id,
            alias,
            virtualization_mode,
            runtime_versions,
            resources,
            context,
            startup,
            image_configs,
            custom_extension_params,
        } => {
            if virtualization_mode != node.virtualization_mode {
                return Err(
                    OrchestratorError::VirtualizationModeMismatch {
                        resource: MismatchedResource::Snapshot { snapshot_id },
                        resource_mode: virtualization_mode,
                        node_mode: node.virtualization_mode,
                    },
                );
            }
            let params = match request.custom_extension_params {
                Some(params) => Some(params),
                None => custom_extension_params,
            };
            let config = SandboxLaunchConfig {
                sandbox_id,
                snapshot_id: snapshot_id.clone(),
                env_vars: request.env_vars,
                network_policy: request.network_policy.copy(),
                image_configs: Document::copy_optional(&image_configs),
                custom_extension_params: Document::copy_optional(&params),
                with_access_token: request.secure,
            };
            let metadata = SandboxMetadata {
                id: sandbox_id,
                snapshot_id: snapshot_id.clone(),
                snapshot_alias: alias,
                virtualization_mode,
                runtime_versions,
                resources,
                context: Some(context),
                startup,
                image_configs,
                timeout_action: request.timeout_action,
                auto_resume: request.auto_resume,
                user_metadata: request.user_metadata,
                create_idempotency_key,
                create_request_fingerprint,
                network_policy: Some(request.network_policy),
                custom_extension_params: params,
                secure: request.secure,
                state: SandboxState::Creating,
                created_at: now,
                expires_at: None,
                timeout: None,
                paused_state: None,
                paused_runtime_stopped: false,
                resume_recovery_pending: false,
            };
            Ok(
                CreatePlan {
                    source: CreateLaunchSource::Snapshot { snapshot_id },
                    config,
                    launch: LaunchPlan {
                        sandbox_id,
                        kind: LaunchKind::Create { metadata },
                        timeout: NewTimeout::After(timeout),
                        resources,
                    },
                },
            )
        },
        SandboxLaunchSource::Image {
            image_ref,
            overlaybd_config_path,
            context,
            resources,
            extra_drives,
            extra_boot_args,
            image_configs,
        } => {
            let resources = match resources {
                Some(resources) => resources,
                None => node.fresh_resources,
            };
            let config = SandboxLaunchConfig {
                sandbox_id,
                snapshot_id: image_ref.clone(),
                env_vars: request.env_vars,
                network_policy: request.network_policy.copy(),
                image_configs: Document::copy_optional(&image_configs),
                custom_extension_params: Document::copy_optional(&request.custom_extension_params),
                with_access_token: request.secure,
            };
            let source = CreateLaunchSource::Fresh {
                image_config_path: overlaybd_config_path,
                context: context.copy(),
                resources,
                extra_drives,
                extra_boot_args,
            };
            let metadata = SandboxMetadata {
                id: sandbox_id,
                snapshot_id: image_ref,
                snapshot_alias: None,
                virtualization_mode: node.virtualization_mode,
                runtime_versions: node.runtime_versions.copy(),
                resources,
                context: Some(context),
                startup: None,
                image_configs,
                timeout_action: request.timeout_action,
                auto_resume: request.auto_resume,
                user_metadata: request.user_metadata,
                create_idempotency_key,
                create_request_fingerprint,
                network_policy: Some(request.network_policy),
                custom_extension_params: request.custom_extension_params,
                secure: request.secure,
                state: SandboxState::Creating,
                created_at: now,
                expires_at: None,
                timeout: None,
                paused_state: None,
                paused_runtime_stopped: false,
                resume_recovery_pending: false,
            };
            Ok(
                CreatePlan {
                    source,
                    config,
                    launch: LaunchPlan {
                        sandbox_id,
                        kind: LaunchKind::Create { metadata },
                        timeout: NewTimeout::After(timeout),
                        resources,
                    },
                },
            )
        },
    }
}

/// The event of a new sandbox.
pub fn create_event(metadata: &SandboxMetadata) -> (event: SandboxLifecycleEvent)
    ensures
        event == (SandboxLifecycleEvent {
            event_type: SandboxLifecycleEventType::Create,
            sandbox_id: metadata.id,
            resources: metadata.resources,
        }),
{
    SandboxLifecycleEvent {
        event_type: SandboxLifecycleEventType::Create,
        sandbox_id: metadata.id,
        resources: metadata.resources,
    }
}

/// What a create adds to the counts of creations, and the event that it publishes.
#[derive(Clone, Copy, Debug, PartialEq, Eq, Structural)]
pub struct CreateReport {
    pub succeeded: u64,
    pub failed: u64,
    pub event: Option<SandboxLifecycleEvent>,
}

/// A create that was refused or failed counts one failure, no success and no event.
pub fn report_create(outcome: &Result<SandboxMetadata, OrchestratorError>) -> (report: CreateReport)
    ensures
        report == match *outcome {
            Ok(metadata) => CreateReport {
                succeeded: 1,
                failed: 0,
                event: Some(
                    SandboxLifecycleEvent {
                        event_type: SandboxLifecycleEventType::Create,
                        sandbox_id: metadata.id,
                        resources: metadata.resources,
                    },
                ),
            },
            Err(_) => CreateReport { succeeded: 0, failed: 1, event: None },
        },
{
    match outcome {
        Ok(metadata) => CreateReport {
            succeeded: 1,
            failed: 0,
            event: Some(create_event(metadata)),
        },
        Err(_) => CreateReport { succeeded: 0, failed: 1, event: None },
    }
}

// ---------------------------------------------------------------------------------------------
// Laws
// ---------------------------------------------------------------------------------------------

/// A new sandbox has everything that was asked for, is being created from now on, and has as yet no
/// timeout, no paused state and no stop proof; a create key that was given comes with the fingerprint
/// of its request.
pub proof fn new_sandboxes_are_as_requested(
    metadata: SandboxMetadata,
    sandbox_id: SandboxId,
    request: CreateSandboxRequest,
    node: NodeSettings,
    now: u128,
)
    requires
        is_new_metadata(metadata, sandbox_id, request, node, now),
    ensures
        metadata.id == sandbox_id,
        metadata.timeout_action == request.timeout_action,
        metadata.auto_resume == request.auto_resume,
        metadata.user_metadata == request.user_metadata,
        metadata.network_policy == Some(request.network_policy),
        metadata.secure == request.secure,
        request.custom_extension_params is Some ==> metadata.custom_extension_params
            == request.custom_extension_params,
        request.idempotency matches Some(identity) ==> {
            &&& metadata.create_idempotency_key matches Some(key) && key@ == identity.key_text()
            &&& metadata.create_request_fingerprint matches Some(fingerprint) && fingerprint@
                == identity.fingerprint_text()
        },
        request.idempotency is None ==> metadata.create_idempotency_key is None
            && metadata.create_request_fingerprint is None,
        metadata.state is Creating,
        metadata.created_at == now,
        metadata.timeout is None && metadata.expires_at is None,
        metadata.paused_state is None,
        !metadata.paused_runtime_stopped && !metadata.resume_recovery_pending,
{
}

/// A sandbox from a snapshot is what the snapshot is, down to its resources; only custom extension
/// parameters that were asked for come before those of the snapshot.
pub proof fn snapshots_give_what_they_hold(
    metadata: SandboxMetadata,
    sandbox_id: SandboxId,
    request: CreateSandboxRequest,
    node: NodeSettings,
    now: u128,
)
    requires
        is_new_metadata(metadata, sandbox_id, request, node, now),
    ensures
        request.source matches SandboxLaunchSource::Snapshot {
            snapshot_id,
            alias,
            virtualization_mode,
            runtime_versions,
            resources,
            context,
            startup,
            image_configs,
            custom_extension_params,
        } ==> {
            &&& metadata.snapshot_id == snapshot_id
            &&& source_name(request.source) == snapshot_id
            &&& metadata.snapshot_alias == alias
            &&& metadata.virtualization_mode == virtualization_mode
            &&& metadata.runtime_versions == runtime_versions
            &&& metadata.resources == resources
            &&& requested_resources(request, node) == resources
            &&& metadata.context == Some(context)
            &&& metadata.startup == startup
            &&& metadata.image_configs == image_configs
            &&& source_image_configs(request.source) == image_configs
            &&& request.custom_extension_params is None ==> metadata.custom_extension_params
                == custom_extension_params && requested_params(request) == custom_extension_params
            &&& request.custom_extension_params is Some ==> requested_params(request)
                == request.custom_extension_params
        },
{
}

/// A sandbox from an image runs as the node is configured, with the resources of the node where none
/// were asked for.
pub proof fn images_run_as_the_node_is_configured(
    metadata: SandboxMetadata,
    sandbox_id: SandboxId,
    request: CreateSandboxRequest,
    node: NodeSettings,
    now: u128,
)
    requires
        is_new_metadata(metadata, sandbox_id, request, node, now),
    ensures
        request.source matches SandboxLaunchSource::Image {
            image_ref,
            context,
            resources,
            image_configs,
            ..
        } ==> {
            &&& metadata.snapshot_id == image_ref
            &&& source_name(request.source) == image_ref
            &&& metadata.snapshot_alias is None
            &&& metadata.virtualization_mode == node.virtualization_mode
            &&& metadata.runtime_versions == node.runtime_versions
            &&& resources matches Some(asked) ==> metadata.resources == asked
                && requested_resources(request, node) == asked
            &&& resources is None ==> metadata.resources == node.fresh_resources
                && requested_resources(request, node) == node.fresh_resources
            &&& metadata.context == Some(context)
            &&& metadata.startup is None
            &&& metadata.image_configs == image_configs
            &&& source_image_configs(request.source) == image_configs
            &&& metadata.custom_extension_params == request.custom_extension_params
            &&& requested_params(request) == request.custom_extension_params
        },
{
}

/// A request is refused while the node shuts down, and for a snapshot of another virtualization mode
/// than that of the node; every other request is carried out.
pub proof fn requests_are_refused_for_two_reasons(
    request: CreateSandboxRequest,
    node: NodeSettings,
    shutting_down: bool,
)
    ensures
        shutting_down ==> refusal(request, node, shutting_down) == Some(
            OrchestratorError::ShuttingDown,
        ),
        !shutting_down ==> match request.source {
            SandboxLaunchSource::Image { .. } => refusal(request, node, shutting_down) is None,
            SandboxLaunchSource::Snapshot { snapshot_id, virtualization_mode, .. } => {
                &&& virtualization_mode == node.virtualization_mode ==> refusal(
                    request,
                    node,
                    shutting_down,
                ) is None
                &&& virtualization_mode != node.virtualization_mode ==> refusal(
                    request,
                    node,
                    shutting_down,
                ) == Some(
                    OrchestratorError::VirtualizationModeMismatch {
                        resource: MismatchedResource::Snapshot { snapshot_id },
                        resource_mode: virtualization_mode,
                        node_mode: node.virtualization_mode,
                    },
                )
            },
        },
{
}

} // verus!
