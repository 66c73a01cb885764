//! The record kept for every sandbox.

use crate::ids::SandboxId;
use crate::orchestrator::types::{
    copy_optional_text, Document, NewTimeout, PausedStateRef, SandboxResources, SandboxState,
    SandboxTimeoutAction, SnapshotRuntimeVersions, VirtualizationMode,
};
use vstd::prelude::*;

verus! {

/// The last instant that the system clock can name, in nanoseconds since the epoch.
pub const LATEST_INSTANT: u128 = 9223372036854775807999999999;

#[derive(Debug)]
pub struct SandboxMetadata {
    pub id: SandboxId,
    pub snapshot_id: String,
    pub snapshot_alias: Option<String>,
    pub virtualization_mode: VirtualizationMode,
    pub runtime_versions: SnapshotRuntimeVersions,
    pub resources: SandboxResources,
    pub context: Option<Document>,
    pub startup: Option<Document>,
    pub image_configs: Option<Document>,
    pub timeout_action: SandboxTimeoutAction,
    pub auto_resume: bool,
    pub user_metadata: Option<Document>,
    pub create_idempotency_key: Option<String>,
    pub create_request_fingerprint: Option<String>,
    pub network_policy: Option<Document>,
    pub custom_extension_params: Option<Document>,
    pub secure: bool,
    pub state: SandboxState,
    /// Nanoseconds since the epoch.
    pub created_at: u128,
    /// Nanoseconds since the epoch.
    pub expires_at: Option<u128>,
    /// In nanoseconds.
    pub timeout: Option<u128>,
    pub paused_state: Option<PausedStateRef>,
    /// Whether the runtime of a paused sandbox was positively stopped.
    pub paused_runtime_stopped: bool,
    /// Whether a durable write about this sandbox may or may not have happened.
    pub resume_recovery_pending: bool,
}

/// The instant `timeout` after `now`, where the clock can name it.
pub open spec fn instant_after(now: u128, timeout: u128) -> Option<u128> {
    if now + timeout <= LATEST_INSTANT {
        Some((now + timeout) as u128)
    } else {
        None
    }
}

pub fn checked_instant(now: u128, timeout: u128) -> (instant: Option<u128>)
    ensures
        instant == instant_after(now, timeout),
{
    match now.checked_add(timeout) {
        Some(instant) => if instant <= LATEST_INSTANT {
            Some(instant)
        } else {
            None
        },
        None => None,
    }
}

impl SandboxMetadata {
    pub fn copy(&self) -> (copy: SandboxMetadata)
        ensures
            copy == *self,
    {
        SandboxMetadata {
            id: self.id,
            snapshot_id: self.snapshot_id.clone(),
            snapshot_alias: copy_optional_text(&self.snapshot_alias),
            virtualization_mode: self.virtualization_mode,
            runtime_versions: self.runtime_versions.copy(),
            resources: self.resources,
            context: Document::copy_optional(&self.context),
            startup: Document::copy_optional(&self.startup),
            image_configs: Document::copy_optional(&self.image_configs),
            timeout_action: self.timeout_action,
            auto_resume: self.auto_resume,
            user_metadata: Document::copy_optional(&self.user_metadata),
            create_idempotency_key: copy_optional_text(&self.create_idempotency_key),
            create_request_fingerprint: copy_optional_text(&self.create_request_fingerprint),
            network_policy: Document::copy_optional(&self.network_policy),
            custom_extension_params: Document::copy_optional(&self.custom_extension_params),
            secure: self.secure,
            state: self.state,
            created_at: self.created_at,
            expires_at: self.expires_at,
            timeout: self.timeout,
            paused_state: self.paused_state,
            paused_runtime_stopped: self.paused_runtime_stopped,
            resume_recovery_pending: self.resume_recovery_pending,
        }
    }

    /// This metadata with its timeout set and counted from `now`, or taken away.
    pub open spec fn with_timeout(self, timeout: NewTimeout, now: u128) -> SandboxMetadata {
        match timeout {
            NewTimeout::After(length) => SandboxMetadata {
                timeout: Some(length),
                expires_at: instant_after(now, length),
                ..self
            },
            NewTimeout::Never => SandboxMetadata { timeout: None, expires_at: None, ..self },
        }
    }

    pub fn update_timeout(&mut self, timeout: NewTimeout, now: u128)
        ensures
            *final(self) == old(self).with_timeout(timeout, now),
    {
        match timeout {
            NewTimeout::After(length) => {
                self.timeout = Some(length);
                self.expires_at = checked_instant(now, length);
            },
            NewTimeout::Never => {
                self.timeout = None;
                self.expires_at = None;
            },
        }
    }
}

// ---------------------------------------------------------------------------------------------
// Laws
// ---------------------------------------------------------------------------------------------

impl SandboxMetadata {
    /// Whether what was asked for when a sandbox was created is the same here: everything but where
    /// the sandbox stands in its life, what its runtime was given, its timeout and what may be
    /// updated.
    pub open spec fn same_origin(self, other: SandboxMetadata) -> bool {
        &&& self.id == other.id
        &&& self.snapshot_id == other.snapshot_id
        &&& self.snapshot_alias == other.snapshot_alias
        &&& self.virtualization_mode == other.virtualization_mode
        &&& self.runtime_versions == other.runtime_versions
        &&& self.context == other.context
        &&& self.startup == other.startup
        &&& self.image_configs == other.image_configs
        &&& self.timeout_action == other.timeout_action
        &&& self.auto_resume == other.auto_resume
        &&& self.user_metadata == other.user_metadata
        &&& self.create_idempotency_key == other.create_idempotency_key
        &&& self.create_request_fingerprint == other.create_request_fingerprint
        &&& self.secure == other.secure
        &&& self.created_at == other.created_at
    }

    /// Whether two sandboxes differ at most in where they stand in their lives: in their state,
    /// their paused state, their stop proof and whether recovery is awaited.
    pub open spec fn same_settings(self, other: SandboxMetadata) -> bool {
        &&& self.same_origin(other)
        &&& self.resources == other.resources
        &&& self.network_policy == other.network_policy
        &&& self.custom_extension_params == other.custom_extension_params
        &&& self.expires_at == other.expires_at
        &&& self.timeout == other.timeout
    }
}

/// A timeout is counted from now, and a sandbox with one expires that much later, unless no clock
/// can name the instant; a sandbox without one never expires. Nothing else changes.
pub proof fn timeouts_are_counted_from_now(metadata: SandboxMetadata, length: u128, now: u128)
    ensures
        ({
            let timed = metadata.with_timeout(NewTimeout::After(length), now);
            let timeless = metadata.with_timeout(NewTimeout::Never, now);
            &&& timed.timeout == Some(length)
            &&& timed.expires_at matches Some(instant) ==> instant - now == length
            &&& timed.expires_at is Some <==> now + length <= 9223372036854775807999999999
            &&& timeless.timeout is None
            &&& timeless.expires_at is None
            &&& timed.same_origin(metadata)
            &&& timeless.same_origin(metadata)
            &&& timed == (SandboxMetadata {
                timeout: timed.timeout,
                expires_at: timed.expires_at,
                ..metadata
            })
            &&& timeless == (SandboxMetadata { timeout: None, expires_at: None, ..metadata })
        }),
{
}

/// Sandboxes with the same settings agree in all that was asked for and all that was given, field by
/// field, and a sandbox that differs in any of it has other settings.
pub proof fn settings_are_field_by_field(left: SandboxMetadata, right: SandboxMetadata)
    ensures
        left.same_settings(right) ==> left == (SandboxMetadata {
            state: left.state,
            paused_state: left.paused_state,
            paused_runtime_stopped: left.paused_runtime_stopped,
            resume_recovery_pending: left.resume_recovery_pending,
            ..right
        }),
        left.same_origin(right) ==> left == (SandboxMetadata {
            state: left.state,
            paused_state: left.paused_state,
            paused_runtime_stopped: left.paused_runtime_stopped,
            resume_recovery_pending: left.resume_recovery_pending,
            resources: left.resources,
            network_policy: left.network_policy,
            custom_extension_params: left.custom_extension_params,
            expires_at: left.expires_at,
            timeout: left.timeout,
            ..right
        }),
        left.same_settings(left) && left.same_origin(left),
{
}

} // verus!
