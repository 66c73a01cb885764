//! Which sandboxes are listed.

use crate::json;
use crate::orchestrator::metadata::SandboxMetadata;
use crate::orchestrator::types::{Document, SandboxState};
use crate::text;
use vstd::prelude::*;

verus! {

/// What the sandboxes of a list have in common. Whatever is not given leaves none out.
#[derive(Debug)]
pub struct SandboxListFilter {
    pub states: Option<Vec<SandboxState>>,
    pub excluded_states: Option<Vec<SandboxState>>,
    /// Keys that the metadata of a user must hold, each with its value.
    pub user_metadata: Option<Vec<(String, String)>>,
}

/// Whether the metadata of a user holds a value under a key.
pub open spec fn holds_pair(user_metadata: Option<Document>, pair: (String, String)) -> bool {
    user_metadata matches Some(document) && json::json_text_field(
        text::text_bytes(document.json@),
        pair.0@,
    ) == Some(pair.1@)
}

fn has_pair(user_metadata: &Option<Document>, pair: &(String, String)) -> (answer: bool)
    ensures
        answer == holds_pair(*user_metadata, *pair),
{
    match user_metadata {
        Some(document) => match json::text_field(
            document.json.as_str().as_bytes(),
            pair.0.as_str(),
        ) {
            Some(value) => text::text_equal(value.as_str(), pair.1.as_str()),
            None => false,
        },
        None => false,
    }
}

fn has_state(states: &Vec<SandboxState>, state: SandboxState) -> (answer: bool)
    ensures
        answer == states@.contains(state),
{
    let mut at: usize = 0;
    while at < states.len()
        invariant
            at <= states@.len(),
            forall|i: int| 0 <= i < at ==> states@[i] != state,
        decreases states@.len() - at,
    {
        if states[at] == state {
            assert(states@[at as int] == state);
            return true;
        }
        at += 1;
    }
    false
}

impl SandboxListFilter {
    /// Whether a sandbox is listed.
    pub open spec fn lists(self, metadata: SandboxMetadata) -> bool {
        &&& self.states matches Some(states) ==> states@.contains(metadata.state)
        &&& self.excluded_states matches Some(states) ==> !states@.contains(metadata.state)
        &&& self.user_metadata matches Some(pairs) ==> forall|i: int|
            0 <= i < pairs@.len() ==> holds_pair(metadata.user_metadata, #[trigger] pairs@[i])
    }

    pub fn is_listed(&self, metadata: &SandboxMetadata) -> (answer: bool)
        ensures
            answer == self.lists(*metadata),
    {
        if let Some(states) = &self.states {
            if !has_state(states, metadata.state) {
                return false;
            }
        }
        if let Some(states) = &self.excluded_states {
            if has_state(states, metadata.state) {
                return false;
            }
        }
        if let Some(pairs) = &self.user_metadata {
            let mut at: usize = 0;
            while at < pairs.len()
                invariant
                    at <= pairs@.len(),
                    self.user_metadata == Some(*pairs),
                    forall|i: int|
                        0 <= i < at ==> holds_pair(metadata.user_metadata, #[trigger] pairs@[i]),
                decreases pairs@.len() - at,
            {
                if !has_pair(&metadata.user_metadata, &pairs[at]) {
                    assert(!holds_pair(
                        metadata.user_metadata,
                        (self.user_metadata->0)@[at as int],
                    ));
                    return false;
                }
                at += 1;
            }
        }
        true
    }
}

/// The listed ones of the given sandboxes, in their order.
pub fn list_sandboxes_filtered(
    sandboxes: &Vec<SandboxMetadata>,
    filter: &SandboxListFilter,
) -> (listed: Vec<SandboxMetadata>)
    ensures
        listed@ == sandboxes@.filter(|metadata: SandboxMetadata| filter.lists(metadata)),
{
    let ghost keeps = |metadata: SandboxMetadata| filter.lists(metadata);
    let mut listed: Vec<SandboxMetadata> = Vec::new();
    let mut at: usize = 0;
    assert(sandboxes@.take(0).filter(keeps) =~= Seq::<SandboxMetadata>::empty()) by {
        reveal(Seq::filter);
    }
    while at < sandboxes.len()
        invariant
            at <= sandboxes@.len(),
            keeps == (|metadata: SandboxMetadata| filter.lists(metadata)),
            listed@ == sandboxes@.take(at as int).filter(keeps),
        decreases sandboxes@.len() - at,
    {
        proof {
            reveal(Seq::filter);
            assert(sandboxes@.take(at + 1).drop_last() =~= sandboxes@.take(at as int));
        }
        if filter.is_listed(&sandboxes[at]) {
            listed.push(sandboxes[at].copy());
        }
        at += 1;
    }
    assert(sandboxes@.take(at as int) =~= sandboxes@);
    listed
}

/// A filter that gives nothing lists every sandbox. A listed sandbox is in one of the given states and
/// in none of the excluded ones, and its user metadata holds every given value under its key; a
/// sandbox that is left out fails one of these.
pub proof fn filters_leave_out_what_does_not_fit(
    filter: SandboxListFilter,
    metadata: SandboxMetadata,
)
    ensures
        filter.states is None && filter.excluded_states is None && filter.user_metadata is None
            ==> filter.lists(metadata),
        filter.lists(metadata) ==> {
            &&& filter.states matches Some(states) ==> exists|i: int|
                0 <= i < states@.len() && #[trigger] states@[i] == metadata.state
            &&& filter.excluded_states matches Some(states) ==> forall|i: int|
                0 <= i < states@.len() ==> #[trigger] states@[i] != metadata.state
            &&& filter.user_metadata matches Some(pairs) ==> forall|i: int|
                0 <= i < pairs@.len() ==> metadata.user_metadata is Some && json::json_text_field(
                    text::text_bytes(metadata.user_metadata->0.json@),
                    (#[trigger] pairs@[i]).0@,
                ) == Some(pairs@[i].1@)
        },
        !filter.lists(metadata) ==> {
            ||| filter.states matches Some(states) && forall|i: int|
                0 <= i < states@.len() ==> #[trigger] states@[i] != metadata.state
            ||| filter.excluded_states matches Some(states) && exists|i: int|
                0 <= i < states@.len() && #[trigger] states@[i] == metadata.state
            ||| filter.user_metadata matches Some(pairs) && exists|i: int|
                0 <= i < pairs@.len() && !(metadata.user_metadata is Some && json::json_text_field(
                    text::text_bytes(metadata.user_metadata->0.json@),
                    (#[trigger] pairs@[i]).0@,
                ) == Some(pairs@[i].1@))
        },
{
    if filter.lists(metadata) {
        assert(filter.user_metadata matches Some(pairs) ==> forall|i: int|
            0 <= i < pairs@.len() ==> holds_pair(metadata.user_metadata, #[trigger] pairs@[i]));
    } else if filter.user_metadata is Some && (filter.states matches Some(states)
        ==> states@.contains(metadata.state)) && (filter.excluded_states matches Some(states)
        ==> !states@.contains(metadata.state)) {
        let pairs = filter.user_metadata->0;
        let i = choose|i: int|
            0 <= i < pairs@.len() && !holds_pair(metadata.user_metadata, #[trigger] pairs@[i]);
        assert(!holds_pair(metadata.user_metadata, pairs@[i]));
    }
}

} // verus!
