//! Answers that refuse a request.

use crate::ids::SandboxId;
use crate::orchestrator::error::OrchestratorError;
use vstd::prelude::*;

verus! {

pub const BAD_REQUEST: u16 = 400;

pub const UNAUTHORIZED: u16 = 401;

pub const NOT_FOUND: u16 = 404;

pub const CONFLICT: u16 = 409;

pub const INTERNAL_SERVER_ERROR: u16 = 500;

/// A status and the message that goes with it.
#[derive(Debug)]
pub struct Refusal {
    pub status: u16,
    pub message: String,
}

impl Refusal {
    /// Whether a refusal has this status and message.
    pub open spec fn says(&self, status: u16, message: Seq<char>) -> bool {
        self.status == status && self.message@ == message
    }

    pub fn new(status: u16, message: &str) -> (refusal: Refusal)
        ensures
            refusal.says(status, message@),
    {
        Refusal { status, message: message.to_owned() }
    }
}

/// The sandbox that an authorized request is about.
pub fn requested_sandbox(authorized: bool, sandbox_id: &str) -> (outcome: Result<SandboxId, Refusal>)
    ensures
        if !authorized {
            outcome matches Err(refusal) && refusal.says(UNAUTHORIZED, "API key is required"@)
        } else {
            match SandboxId::parsed(sandbox_id@) {
                Some(id) => outcome == Ok::<SandboxId, Refusal>(id),
                None => outcome matches Err(refusal) && refusal.says(
                    NOT_FOUND,
                    "sandbox not found"@,
                ),
            }
        },
{
    if !authorized {
        return Err(Refusal::new(UNAUTHORIZED, "API key is required"));
    }
    match SandboxId::parse_str(sandbox_id) {
        Some(id) => Ok(id),
        None => Err(Refusal::new(NOT_FOUND, "sandbox not found")),
    }
}

/// How the failure of an operation is answered, with the words around the state of a sandbox that
/// the operation does not fit, and the text of the error for all that is not foreseen.
pub open spec fn is_failure_answer(
    refusal: Refusal,
    error: OrchestratorError,
    shown: Seq<char>,
    before: Seq<char>,
    after: Seq<char>,
) -> bool {
    match error {
        OrchestratorError::SandboxNotFound { .. } => refusal.says(
            NOT_FOUND,
            "sandbox not found"@,
        ),
        OrchestratorError::InvalidSandboxState { state, .. } => refusal.says(
            CONFLICT,
            before + state.variant_text() + after,
        ),
        _ => refusal.says(INTERNAL_SERVER_ERROR, shown),
    }
}

pub(crate) fn failure_answer(error: &OrchestratorError, shown: &str, before: &str, after: &str) -> (
refusal: Refusal)
    ensures
        is_failure_answer(refusal, *error, shown@, before@, after@),
{
    match error {
        OrchestratorError::SandboxNotFound { .. } => Refusal::new(NOT_FOUND, "sandbox not found"),
        OrchestratorError::InvalidSandboxState { state, .. } => Refusal {
            status: CONFLICT,
            message: crate::text::concat3(before, state.variant(), after),
        },
        _ => Refusal::new(INTERNAL_SERVER_ERROR, shown),
    }
}

/// A sandbox that is not there is answered as not found, one in another state as a conflict that names
/// the state between the words of the operation, and every other failure with its own text.
pub proof fn failures_are_answered_by_kind(
    refusal: Refusal,
    error: OrchestratorError,
    shown: Seq<char>,
    before: Seq<char>,
    after: Seq<char>,
)
    requires
        is_failure_answer(refusal, error, shown, before, after),
    ensures
        error is SandboxNotFound ==> refusal.status == 404 && refusal.message@ == "sandbox not found"@,
        error matches OrchestratorError::InvalidSandboxState { state, .. } ==> refusal.status == 409
            && refusal.message@ == before + state.variant_text() + after,
        !(error is SandboxNotFound) && !(error is InvalidSandboxState) ==> refusal.status == 500
            && refusal.message@ == shown,
{
}

} // verus!
