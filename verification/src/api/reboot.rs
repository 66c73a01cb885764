//! The answer to a request for a reboot.

use crate::api::refusal;
use crate::api::refusal::{
    failure_answer, requested_sandbox, Refusal, CONFLICT, NOT_FOUND, UNAUTHORIZED,
};
use crate::ids::SandboxId;
use crate::orchestrator::error::OrchestratorError;
use crate::orchestrator::metadata::SandboxMetadata;
use crate::orchestrator::types::SandboxState;
use crate::text;
use vstd::prelude::*;

verus! {

/// The sandbox to reboot: with the tools that the node has installed, and no others.
pub fn reboot(
    authorized: bool,
    requested_tools: &str,
    installed_tools: &str,
    sandbox_id: &str,
) -> (outcome: Result<SandboxId, Refusal>)
    ensures
        if !authorized {
            outcome matches Err(refusal) && refusal.says(UNAUTHORIZED, "API key is required"@)
        } else if requested_tools@ != installed_tools@ {
            outcome matches Err(refusal) && refusal.says(
                CONFLICT,
                "requested tools are not the node's installed release"@,
            )
        } else {
            match SandboxId::parsed(sandbox_id@) {
                Some(id) => outcome == Ok::<SandboxId, Refusal>(id),
                None => outcome matches Err(refusal) && refusal.says(
                    NOT_FOUND,
                    "sandbox not found"@,
                ),
            }
        },
{
    if authorized && !text::text_equal(requested_tools, installed_tools) {
        return Err(
            Refusal::new(CONFLICT, "requested tools are not the node's installed release"),
        );
    }
    requested_sandbox(authorized, sandbox_id)
}

/// What is told about a sandbox that was rebooted.
#[derive(Debug)]
pub struct RebootResponse {
    pub sandbox_id: SandboxId,
    pub tools_version: String,
    pub state: SandboxState,
}

/// The rebooted sandbox, or why there is none; `shown` is the text of an error that is not
/// foreseen.
pub fn rebooted(outcome: Result<SandboxMetadata, OrchestratorError>, shown: &str) -> (answer: Result<
    RebootResponse,
    Refusal,
>)
    ensures
        match outcome {
            Ok(metadata) => answer == Ok::<RebootResponse, Refusal>(
                (RebootResponse {
                    sandbox_id: metadata.id,
                    tools_version: metadata.runtime_versions.tools,
                    state: metadata.state,
                }),
            ),
            Err(error) => answer matches Err(refusal) && refusal::is_failure_answer(
                refusal,
                error,
                shown@,
                "sandbox cannot reboot from "@,
                ""@,
            ),
        },
{
    match outcome {
        Ok(metadata) => Ok(
            RebootResponse {
                sandbox_id: metadata.id,
                tools_version: metadata.runtime_versions.tools,
                state: metadata.state,
            },
        ),
        Err(error) => Err(failure_answer(&error, shown, "sandbox cannot reboot from ", "")),
    }
}

} // verus!
