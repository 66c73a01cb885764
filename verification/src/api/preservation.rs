//! The local administration socket, over which a node is asked to preserve its sandboxes.

use crate::ids::SandboxId;
use crate::orchestrator::metadata::SandboxMetadata;
use crate::orchestrator::types::SandboxState;
use crate::text;
use vstd::prelude::*;

verus! {

/// The version of the answers.
pub const PROTOCOL: u32 = 1;

/// The largest number of bytes in a command, with the end of its line.
pub const MAX_COMMAND_BYTES: usize = 32;

#[derive(Clone, Copy, Debug, PartialEq, Eq, Structural)]
pub enum PreservationCommand {
    /// Shut the node down, which preserves its sandboxes.
    Prepare,
    Status,
    Unknown,
}

/// The command of a line, where one was read that is neither empty nor too long.
pub fn preservation_command(line: &str) -> (command: Option<PreservationCommand>)
    ensures
        ({
            let bytes = text::text_bytes(line@).len();
            if bytes == 0 || bytes > MAX_COMMAND_BYTES {
                command is None
            } else if text::trimmed_text(line@) == "prepare"@ {
                command == Some(PreservationCommand::Prepare)
            } else if text::trimmed_text(line@) == "status"@ {
                command == Some(PreservationCommand::Status)
            } else {
                command == Some(PreservationCommand::Unknown)
            }
        }),
{
    let bytes: usize = line.as_bytes().len();
    if bytes == 0 || bytes > MAX_COMMAND_BYTES {
        return None;
    }
    Some(command_of(text::trim(line).as_str()))
}

/// The command that a word is.
pub fn command_of(word: &str) -> (command: PreservationCommand)
    ensures
        command == if word@ == "prepare"@ {
            PreservationCommand::Prepare
        } else if word@ == "status"@ {
            PreservationCommand::Status
        } else {
            PreservationCommand::Unknown
        },
{
    if text::text_equal(word, "prepare") {
        PreservationCommand::Prepare
    } else if text::text_equal(word, "status") {
        PreservationCommand::Status
    } else {
        PreservationCommand::Unknown
    }
}

/// What an unknown command is answered.
pub fn unknown_command() -> (error: String)
    ensures
        error@ == "expected prepare or status"@,
{
    "expected prepare or status".to_owned()
}

/// What is told about a sandbox.
#[derive(Clone, Copy, Debug, PartialEq, Eq, Structural)]
pub struct GuestReport {
    pub id: SandboxId,
    pub state: SandboxState,
    /// Whether the runtime is provably gone and every durable write about it is settled.
    pub safely_checkpointed: bool,
    pub requires_intervention: bool,
}

/// What is told about a sandbox, by its metadata.
pub open spec fn report_of(guest: SandboxMetadata) -> GuestReport {
    GuestReport {
        id: guest.id,
        state: guest.state,
        safely_checkpointed: guest.paused_runtime_stopped && !guest.resume_recovery_pending,
        requires_intervention: guest.resume_recovery_pending,
    }
}

pub fn guest_report(guest: &SandboxMetadata) -> (report: GuestReport)
    ensures
        report == report_of(*guest),
{
    GuestReport {
        id: guest.id,
        state: guest.state,
        safely_checkpointed: guest.paused_runtime_stopped && !guest.resume_recovery_pending,
        requires_intervention: guest.resume_recovery_pending,
    }
}

/// The answer to a command.
#[derive(Debug)]
pub struct PreservationResponse {
    pub protocol: u32,
    pub ok: bool,
    pub error: Option<String>,
    pub inventory_error: Option<String>,
    pub guests: Vec<GuestReport>,
}

/// The answer to a command, given how it came out and the sandboxes of the node. A node that
/// cannot list its sandboxes is not well, whatever else went well.
pub fn preservation_response(
    result: Result<(), String>,
    inventory: Result<Vec<SandboxMetadata>, String>,
) -> (response: PreservationResponse)
    ensures
        response.protocol == PROTOCOL,
        response.ok == (result is Ok && inventory is Ok),
        response.error == match result {
            Ok(_) => None,
            Err(error) => Some(error),
        },
        response.inventory_error == match inventory {
            Ok(_) => None,
            Err(error) => Some(error),
        },
        match inventory {
            Ok(guests) => {
                &&& response.guests@.len() == guests@.len()
                &&& forall|i: int|
                    0 <= i < guests@.len() ==> #[trigger] response.guests@[i] == report_of(
                        guests@[i],
                    )
            },
            Err(_) => response.guests@.len() == 0,
        },
{
    let mut reports: Vec<GuestReport> = Vec::new();
    let mut inventory_error: Option<String> = None;
    let listed = inventory.is_ok();
    match inventory {
        Ok(guests) => {
            let mut at: usize = 0;
            while at < guests.len()
                invariant
                    at <= guests@.len(),
                    reports@.len() == at,
                    forall|i: int|
                        0 <= i < at ==> #[trigger] reports@[i] == report_of(guests@[i]),
                decreases guests@.len() - at,
            {
                reports.push(guest_report(&guests[at]));
                at += 1;
            }
        },
        Err(error) => {
            inventory_error = Some(error);
        },
    }
    let succeeded = result.is_ok();
    PreservationResponse {
        protocol: PROTOCOL,
        ok: succeeded && listed,
        error: match result {
            Ok(_) => None,
            Err(error) => Some(error),
        },
        inventory_error,
        guests: reports,
    }
}

// ---------------------------------------------------------------------------------------------
// Laws
// ---------------------------------------------------------------------------------------------

/// No sandbox is told to be both safely checkpointed and in need of intervention.
pub proof fn interventions_are_not_safe(guest: SandboxMetadata)
    ensures
        !(report_of(guest).safely_checkpointed && report_of(guest).requires_intervention),
{
}

/// A sandbox is told to be safely checkpointed exactly where its runtime is provably gone and nothing
/// about it awaits recovery, and to need intervention exactly where something does.
pub proof fn reports_tell_what_is_proven(guest: SandboxMetadata)
    ensures
        report_of(guest).id == guest.id,
        report_of(guest).state == guest.state,
        guest.resume_recovery_pending ==> report_of(guest).requires_intervention,
        !guest.resume_recovery_pending ==> !report_of(guest).requires_intervention,
        guest.paused_runtime_stopped && !guest.resume_recovery_pending ==> report_of(
            guest,
        ).safely_checkpointed,
        !guest.paused_runtime_stopped ==> !report_of(guest).safely_checkpointed,
{
}

/// A command is too long from thirty-three bytes on.
pub proof fn commands_are_short(bytes: usize)
    ensures
        bytes >= 33 <==> bytes > MAX_COMMAND_BYTES,
{
}

} // verus!
