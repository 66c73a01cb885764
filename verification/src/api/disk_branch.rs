//! The answer to a request for a disk branch.

use crate::api::refusal;
use crate::api::refusal::{failure_answer, requested_sandbox, Refusal, BAD_REQUEST};
use crate::ids::SandboxId;
use crate::orchestrator::error::OrchestratorError;
use crate::text;
use vstd::prelude::*;

verus! {

#[derive(Debug)]
pub struct DiskBranchRequest {
    pub idempotency_key: Option<String>,
}

#[derive(Debug)]
pub struct DiskBranchResponse {
    pub image: String,
}

/// How many bytes a retry key may have.
pub const MAX_KEY_BYTES: usize = 1024;

/// Whether a retry key can be used. Its contents are taken as they are.
pub open spec fn is_branch_key(key: Option<String>) -> bool {
    key matches Some(key) ==> 0 < text::text_bytes(key@).len() <= MAX_KEY_BYTES
}

/// The sandbox that an authorized request is about, where its retry key can be used.
pub fn requested_branch(authorized: bool, sandbox_id: &str, request: &DiskBranchRequest) -> (outcome:
    Result<SandboxId, Refusal>)
    ensures
        if !authorized {
            outcome matches Err(refusal) && refusal.says(
                refusal::UNAUTHORIZED,
                "API key is required"@,
            )
        } else if SandboxId::parsed(sandbox_id@) is None {
            outcome matches Err(refusal) && refusal.says(
                refusal::NOT_FOUND,
                "sandbox not found"@,
            )
        } else if !is_branch_key(request.idempotency_key) {
            outcome matches Err(refusal) && refusal.says(
                BAD_REQUEST,
                "idempotency key must have 1 to 1024 bytes"@,
            )
        } else {
            outcome == Ok::<SandboxId, Refusal>(SandboxId::parsed(sandbox_id@)->0)
        },
{
    let sandbox_id = match requested_sandbox(authorized, sandbox_id) {
        Ok(sandbox_id) => sandbox_id,
        Err(refusal) => return Err(refusal),
    };
    if let Some(key) = &request.idempotency_key {
        let length: usize = key.as_str().as_bytes().len();
        if length == 0 || length > MAX_KEY_BYTES {
            return Err(Refusal::new(BAD_REQUEST, "idempotency key must have 1 to 1024 bytes"));
        }
    }
    Ok(sandbox_id)
}

/// The image of the branch, or why there is none; `shown` is the text of an error that is not
/// foreseen.
pub fn disk_branch(branched: Result<String, OrchestratorError>, shown: &str) -> (answer: Result<
    DiskBranchResponse,
    Refusal,
>)
    ensures
        match branched {
            Ok(image) => answer == Ok::<DiskBranchResponse, Refusal>(
                (DiskBranchResponse { image }),
            ),
            Err(error) => answer matches Err(refusal) && refusal::is_failure_answer(
                refusal,
                error,
                shown@,
                "sandbox cannot be disk-branched from "@,
                " state"@,
            ),
        },
{
    match branched {
        Ok(image) => Ok(DiskBranchResponse { image }),
        Err(error) => Err(
            failure_answer(&error, shown, "sandbox cannot be disk-branched from ", " state"),
        ),
    }
}

/// A retry key may be left out; one that is given has from one to a thousand and twenty-four bytes.
pub proof fn retry_keys_are_short(key: String)
    ensures
        is_branch_key(None),
        text::text_bytes(key@).len() == 0 ==> !is_branch_key(Some(key)),
        1 <= text::text_bytes(key@).len() <= 1024 ==> is_branch_key(Some(key)),
        text::text_bytes(key@).len() > 1024 ==> !is_branch_key(Some(key)),
{
}

} // verus!
