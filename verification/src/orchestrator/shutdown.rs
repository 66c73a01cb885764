//! The end of a node, and of sandboxes whose time is up.

use crate::ids::SandboxId;
use crate::orchestrator::error::{InternalFault, OrchestratorError};
use crate::orchestrator::metadata::SandboxMetadata;
use crate::orchestrator::types::{SandboxState, SandboxTimeoutAction};
use crate::text;
use vstd::prelude::*;

verus! {

/// How often the sandboxes of a node are gone through before it gives up.
pub const MAX_SHUTDOWN_PASSES: u32 = 3;

/// What a shutdown does about a sandbox.
#[derive(Clone, Copy, Debug, PartialEq, Eq, Structural)]
pub enum ShutdownTask {
    /// It is preserved already.
    Nothing,
    Pause,
    /// Another operation is busy with it.
    AwaitLeaving { state: SandboxState },
}

/// Recoverable sandboxes are preserved: what runs is paused, and what is changing is waited for.
pub fn shutdown_task(state: SandboxState) -> (task: ShutdownTask)
    ensures
        task == match state {
            SandboxState::Paused => ShutdownTask::Nothing,
            SandboxState::Running => ShutdownTask::Pause,
            state => ShutdownTask::AwaitLeaving { state },
        },
{
    match state {
        SandboxState::Paused => ShutdownTask::Nothing,
        SandboxState::Running => ShutdownTask::Pause,
        state => ShutdownTask::AwaitLeaving { state },
    }
}

/// Texts with a comma between each and the next.
pub open spec fn joined(texts: Seq<String>) -> Seq<char>
    decreases texts.len(),
{
    if texts.len() == 0 {
        Seq::empty()
    } else if texts.len() == 1 {
        texts[0]@
    } else {
        joined(texts.drop_last()) + ", "@ + texts.last()@
    }
}

fn join(texts: &Vec<String>) -> (shown: String)
    ensures
        shown@ == joined(texts@),
{
    let mut shown = String::new();
    let mut at: usize = 0;
    while at < texts.len()
        invariant
            at <= texts@.len(),
            shown@ == joined(texts@.take(at as int)),
        decreases texts@.len() - at,
    {
        proof {
            assert(texts@.take(at + 1).drop_last() =~= texts@.take(at as int));
            if at == 0 {
                assert(shown@ + texts@[0]@ =~= texts@[0]@);
            }
        }
        if at > 0 {
            shown.append(", ");
        }
        shown.append(texts[at].as_str());
        at += 1;
    }
    assert(texts@.take(at as int) =~= texts@);
    shown
}

/// A shutdown under way.
#[derive(Debug)]
pub struct ShutdownRun {
    passes: u32,
    failures: Vec<String>,
}

/// Whether another pass is to be made.
#[derive(Clone, Copy, Debug, PartialEq, Eq, Structural)]
pub enum PassDecision {
    /// Go through the sandboxes that are left.
    GoThrough,
    /// Everything is preserved, or the passes are used up.
    End,
}

impl ShutdownRun {
    /// The number of passes that were begun.
    pub closed spec fn passes(&self) -> nat {
        self.passes as nat
    }

    /// What went wrong in the last pass.
    pub closed spec fn failures(&self) -> Seq<String> {
        self.failures@
    }

    #[verifier::type_invariant]
    spec fn sound(self) -> bool {
        self.passes <= MAX_SHUTDOWN_PASSES
    }

    pub fn new() -> (run: ShutdownRun)
        ensures
            run.passes() == 0,
            run.failures().len() == 0,
    {
        ShutdownRun { passes: 0, failures: Vec::new() }
    }

    /// Whether there is a pass left, before which the remaining sandboxes are to be listed.
    pub fn has_pass_left(&self) -> (answer: bool)
        ensures
            answer == (self.passes() < MAX_SHUTDOWN_PASSES),
    {
        self.passes < MAX_SHUTDOWN_PASSES
    }

    /// Begins a pass over the sandboxes that are not paused, of which there are so many. A pass
    /// that finds nothing to do keeps what went wrong in the one before.
    pub fn begin_pass(&mut self, remaining: usize) -> (decision: PassDecision)
        ensures
            if old(self).passes() < MAX_SHUTDOWN_PASSES && remaining > 0 {
                &&& decision is GoThrough
                &&& final(self).passes() == old(self).passes() + 1
                &&& final(self).failures().len() == 0
            } else {
                &&& decision is End
                &&& *final(self) == *old(self)
            },
    {
        proof {
            use_type_invariant(&*self);
        }
        if self.passes < MAX_SHUTDOWN_PASSES && remaining > 0 {
            self.passes = self.passes + 1;
            self.failures = Vec::new();
            PassDecision::GoThrough
        } else {
            PassDecision::End
        }
    }

    /// Takes down what went wrong with a sandbox. A sandbox that is gone is no failure.
    pub fn record(&mut self, sandbox_id: SandboxId, failure: &str)
        ensures
            final(self).passes() == old(self).passes(),
            final(self).failures().len() == old(self).failures().len() + 1,
            final(self).failures().drop_last() == old(self).failures(),
            final(self).failures().last()@ == sandbox_id.text() + ": "@ + failure@,
    {
        proof {
            use_type_invariant(&*self);
        }
        let shown = text::concat3(sandbox_id.to_text().as_str(), ": ", failure);
        let mut failures: Vec<String> = Vec::new();
        core::mem::swap(&mut failures, &mut self.failures);
        failures.push(shown);
        self.failures = failures;
        assert(self.failures@.drop_last() =~= old(self).failures@);
    }

    /// How the shutdown came out.
    pub fn run_shutdown_cleanup(&self) -> (outcome: Result<(), OrchestratorError>)
        ensures
            match outcome {
                Ok(_) => self.failures().len() == 0,
                Err(error) => {
                    &&& self.failures().len() > 0
                    &&& error matches OrchestratorError::InternalError { fault }
                    &&& fault matches InternalFault::ShutdownIncomplete { passes, failures }
                    &&& passes == MAX_SHUTDOWN_PASSES
                    &&& failures@ == joined(self.failures())
                },
            },
    {
        if self.failures.len() == 0 {
            return Ok(());
        }
        Err(
            OrchestratorError::InternalError {
                fault: InternalFault::ShutdownIncomplete {
                    passes: MAX_SHUTDOWN_PASSES,
                    failures: join(&self.failures),
                },
            },
        )
    }
}

/// The outcome of a shutdown, which every caller gets.
#[derive(Debug)]
pub enum ShutdownOutcome {
    Success,
    Failed { message: String },
}

impl ShutdownOutcome {
    /// Keeps the outcome of the one shutdown that is carried out. `shown` is the text of an error
    /// that is none of the node itself.
    pub fn from_result(result: Result<(), OrchestratorError>, shown: String) -> (outcome:
        ShutdownOutcome)
        ensures
            match result {
                Ok(_) => outcome is Success,
                Err(error) => outcome matches ShutdownOutcome::Failed { message } && match error {
                    OrchestratorError::InternalError { fault } => message@ == fault.shown(),
                    _ => message == shown,
                },
            },
    {
        match result {
            Ok(_) => ShutdownOutcome::Success,
            Err(error) => match error {
                OrchestratorError::InternalError { fault } => ShutdownOutcome::Failed {
                    message: fault.to_text(),
                },
                _ => ShutdownOutcome::Failed { message: shown },
            },
        }
    }

    pub fn as_result(&self) -> (result: Result<(), OrchestratorError>)
        ensures
            match *self {
                ShutdownOutcome::Success => result is Ok,
                ShutdownOutcome::Failed { message } => result == Err::<(), OrchestratorError>(
                    (OrchestratorError::InternalError {
                        fault: InternalFault::Message { message },
                    }),
                ),
            },
    {
        match self {
            ShutdownOutcome::Success => Ok(()),
            ShutdownOutcome::Failed { message } => Err(
                OrchestratorError::InternalError {
                    fault: InternalFault::Message { message: message.clone() },
                },
            ),
        }
    }
}

/// A sandbox whose time is up, and what happens to it.
#[derive(Clone, Copy, Debug, PartialEq, Eq, Structural)]
pub struct Eviction {
    pub sandbox_id: SandboxId,
    pub action: SandboxTimeoutAction,
}

/// The running sandboxes among those whose time is up, in order.
pub open spec fn evictions(expired: Seq<SandboxMetadata>) -> Seq<Eviction>
    decreases expired.len(),
{
    if expired.len() == 0 {
        Seq::empty()
    } else {
        let before = evictions(expired.drop_last());
        let last = expired.last();
        if last.state is Running {
            before.push(Eviction { sandbox_id: last.id, action: last.timeout_action })
        } else {
            before
        }
    }
}

/// What is done about sandboxes whose time is up: nothing while the node shuts down, and nothing
/// about a sandbox that does not run.
pub fn evict_expired_sandboxes(shutting_down: bool, expired: &Vec<SandboxMetadata>) -> (planned: Vec<
    Eviction,
>)
    ensures
        planned@ == if shutting_down {
            Seq::empty()
        } else {
            evictions(expired@)
        },
{
    let mut planned: Vec<Eviction> = Vec::new();
    if shutting_down {
        return planned;
    }
    let mut at: usize = 0;
    while at < expired.len()
        invariant
            at <= expired@.len(),
            planned@ == evictions(expired@.take(at as int)),
        decreases expired@.len() - at,
    {
        proof {
            assert(expired@.take(at + 1).drop_last() =~= expired@.take(at as int));
        }
        if expired[at].state == SandboxState::Running {
            planned.push(
                Eviction { sandbox_id: expired[at].id, action: expired[at].timeout_action },
            );
        }
        at += 1;
    }
    assert(expired@.take(at as int) =~= expired@);
    planned
}

// ---------------------------------------------------------------------------------------------
// Laws
// ---------------------------------------------------------------------------------------------

/// Every planned eviction is about a running sandbox among the expired ones and does what that very
/// sandbox asked for, and every running expired sandbox has one; they stand in the order in which
/// the sandboxes were found.
pub proof fn evictions_do_what_each_sandbox_asked_for(expired: Seq<SandboxMetadata>, at: int)
    ensures
        0 <= at < evictions(expired).len() ==> exists|i: int|
            {
                &&& 0 <= i < expired.len()
                &&& (#[trigger] expired[i]).state is Running
                &&& expired[i].id == evictions(expired)[at].sandbox_id
                &&& expired[i].timeout_action == evictions(expired)[at].action
            },
        0 <= at < expired.len() && expired[at].state is Running ==> exists|k: int|
            {
                &&& 0 <= k < evictions(expired).len()
                &&& (#[trigger] evictions(expired)[k]).sandbox_id == expired[at].id
                &&& evictions(expired)[k].action == expired[at].timeout_action
            },
        evictions(expired).len() <= expired.len(),
    decreases expired.len(),
{
    if expired.len() > 0 {
        let rest = expired.drop_last();
        let last = expired.last();
        let before = evictions(rest);
        let all = evictions(expired);
        evictions_do_what_each_sandbox_asked_for(rest, at);
        if 0 <= at < all.len() {
            if at < before.len() {
                assert(all[at] == before[at]);
                let i = choose|i: int|
                    {
                        &&& 0 <= i < rest.len()
                        &&& (#[trigger] rest[i]).state is Running
                        &&& rest[i].id == before[at].sandbox_id
                        &&& rest[i].timeout_action == before[at].action
                    };
                assert(expired[i] == rest[i]);
            } else {
                assert(expired[expired.len() - 1] == last);
            }
        }
        if 0 <= at < expired.len() && expired[at].state is Running {
            if at < rest.len() {
                assert(rest[at] == expired[at]);
                let k = choose|k: int|
                    {
                        &&& 0 <= k < before.len()
                        &&& (#[trigger] before[k]).sandbox_id == rest[at].id
                        &&& before[k].action == rest[at].timeout_action
                    };
                assert(all[k] == before[k]);
            } else {
                assert(all[before.len() as int].sandbox_id == last.id);
            }
        }
    }
}

/// Whether the sandboxes of two groups expire together or one group after the other makes no
/// difference, and a sandbox that does not run is not evicted.
pub proof fn evictions_are_made_one_by_one(first: Seq<SandboxMetadata>, second: Seq<SandboxMetadata>)
    ensures
        evictions(first + second) == evictions(first) + evictions(second),
        (forall|i: int| 0 <= i < first.len() ==> !((#[trigger] first[i]).state is Running)) ==> evictions(
            first,
        ).len() == 0,
        first.len() == 1 && first[0].state is Running ==> evictions(first) == seq![
            Eviction { sandbox_id: first[0].id, action: first[0].timeout_action },
        ],
    decreases second.len(), first.len(),
{
    if second.len() == 0 {
        assert(first + second =~= first);
        assert(evictions(first) + evictions(second) =~= evictions(first));
        if first.len() > 0 {
            evictions_are_made_one_by_one(first.drop_last(), second);
            if first.len() == 1 {
                assert(first.drop_last() =~= Seq::<SandboxMetadata>::empty());
                assert(evictions(first.drop_last()) =~= Seq::<Eviction>::empty());
            }
        }
    } else {
        evictions_are_made_one_by_one(first, second.drop_last());
        assert((first + second).drop_last() =~= first + second.drop_last());
        assert((first + second).last() == second.last());
        assert(evictions(first + second) =~= evictions(first) + evictions(second));
    }
}

/// The texts of all failures are told, in order, with a comma between them.
pub proof fn failures_are_told_in_order(texts: Seq<String>, next: String)
    ensures
        texts.len() == 0 ==> joined(texts.push(next)) == next@,
        texts.len() > 0 ==> joined(texts.push(next)) == joined(texts) + ", "@ + next@,
        joined(Seq::empty()).len() == 0,
{
    assert(texts.push(next).drop_last() =~= texts);
}

/// A shutdown that has made three passes has none left, and one that has made fewer has one.
pub proof fn a_shutdown_makes_three_passes(passes: u32)
    ensures
        passes >= 3 <==> !(passes < MAX_SHUTDOWN_PASSES),
{
}

} // verus!
