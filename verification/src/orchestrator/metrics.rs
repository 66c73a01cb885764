//! What a node reports about its sandboxes.

use crate::orchestrator::metadata::SandboxMetadata;
use crate::orchestrator::types::{SandboxResources, SandboxState};
use vstd::prelude::*;

verus! {

/// What one sandbox adds to the report of its node.
#[derive(Clone, Copy, Debug, PartialEq, Eq, Structural)]
pub struct SandboxContribution {
    pub state: SandboxState,
    pub resources: SandboxResources,
}

/// The report of a node: what every sandbox adds, and how many creates succeeded and failed.
#[derive(Debug)]
pub struct OrchestratorMetrics {
    pub contributions: Vec<SandboxContribution>,
    pub create_successes: u64,
    pub create_fails: u64,
}

/// The report of a node with these sandboxes and these counts. Every sandbox is counted once, in
/// whatever state it is.
pub fn metrics_snapshot(
    sandboxes: &Vec<SandboxMetadata>,
    create_successes: u64,
    create_fails: u64,
) -> (metrics: OrchestratorMetrics)
    ensures
        metrics.contributions@ == sandboxes@.map_values(
            |metadata: SandboxMetadata|
                SandboxContribution { state: metadata.state, resources: metadata.resources },
        ),
        metrics.create_successes == create_successes,
        metrics.create_fails == create_fails,
{
    let mut contributions: Vec<SandboxContribution> = Vec::new();
    let mut at: usize = 0;
    while at < sandboxes.len()
        invariant
            at <= sandboxes@.len(),
            contributions@.len() == at,
            forall|i: int|
                0 <= i < at ==> #[trigger] contributions@[i] == (SandboxContribution {
                    state: sandboxes@[i].state,
                    resources: sandboxes@[i].resources,
                }),
        decreases sandboxes@.len() - at,
    {
        contributions.push(
            SandboxContribution {
                state: sandboxes[at].state,
                resources: sandboxes[at].resources,
            },
        );
        at += 1;
    }
    OrchestratorMetrics { contributions, create_successes, create_fails }
}

} // verus!
