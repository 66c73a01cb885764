//! The address at which the host reaches a guest.

use crate::api::refusal::{Refusal, CONFLICT, INTERNAL_SERVER_ERROR, NOT_FOUND};
use crate::orchestrator::proxy::ProxyLookupResult;
use crate::text;
use vstd::prelude::*;

verus! {

#[derive(Debug)]
pub struct HostInteractionIpResponse {
    pub host_interaction_ip: String,
}

/// Why a sandbox has no address at the moment.
pub open spec fn conflict_text(lookup: ProxyLookupResult) -> Seq<char> {
    match lookup {
        ProxyLookupResult::Paused { .. } => {
            "sandbox host interaction address is unavailable while paused"@
        },
        ProxyLookupResult::Unavailable(state) => {
            "sandbox host interaction address is unavailable in "@ + state.variant_text()
                + " state"@
        },
        ProxyLookupResult::RouteMissing => "running sandbox is missing a host interaction route"@,
        _ => "sandbox host interaction address is unavailable"@,
    }
}

pub fn lookup_conflict_message(lookup: &ProxyLookupResult) -> (message: String)
    ensures
        message@ == conflict_text(*lookup),
{
    match lookup {
        ProxyLookupResult::Paused { .. } => {
            "sandbox host interaction address is unavailable while paused".to_owned()
        },
        ProxyLookupResult::Unavailable(state) => text::concat3(
            "sandbox host interaction address is unavailable in ",
            state.variant(),
            " state",
        ),
        ProxyLookupResult::RouteMissing => {
            "running sandbox is missing a host interaction route".to_owned()
        },
        _ => "sandbox host interaction address is unavailable".to_owned(),
    }
}

/// The answer to a request for an address, given what the lookup found or the text of its error.
pub fn host_interaction_ip(lookup: Result<ProxyLookupResult, String>) -> (answer: Result<
    HostInteractionIpResponse,
    Refusal,
>)
    ensures
        match lookup {
            Ok(ProxyLookupResult::Ready(target)) => answer matches Ok(response)
                && response.host_interaction_ip@ == target.shown(),
            Ok(ProxyLookupResult::NotFound) => answer matches Err(refusal) && refusal.says(
                NOT_FOUND,
                "sandbox not found"@,
            ),
            Ok(lookup) => answer matches Err(refusal) && refusal.says(
                CONFLICT,
                conflict_text(lookup),
            ),
            Err(shown) => answer matches Err(refusal) && refusal.says(
                INTERNAL_SERVER_ERROR,
                shown@,
            ),
        },
{
    match lookup {
        Ok(ProxyLookupResult::Ready(target)) => Ok(
            HostInteractionIpResponse { host_interaction_ip: target.to_text() },
        ),
        Ok(ProxyLookupResult::NotFound) => Err(Refusal::new(NOT_FOUND, "sandbox not found")),
        Ok(lookup) => Err(
            Refusal { status: CONFLICT, message: lookup_conflict_message(&lookup) },
        ),
        Err(shown) => Err(Refusal { status: INTERNAL_SERVER_ERROR, message: shown }),
    }
}

/// A sandbox without an address is told to be paused, to lack its route, or to be in a state, which is
/// named.
pub proof fn conflicts_name_the_state(auto_resume: bool, state: crate::orchestrator::types::SandboxState)
    ensures
        conflict_text(ProxyLookupResult::Paused { auto_resume })
            == "sandbox host interaction address is unavailable while paused"@,
        conflict_text(ProxyLookupResult::RouteMissing)
            == "running sandbox is missing a host interaction route"@,
        conflict_text(ProxyLookupResult::Unavailable(state))
            == "sandbox host interaction address is unavailable in "@ + state.variant_text()
            + " state"@,
{
}

} // verus!
