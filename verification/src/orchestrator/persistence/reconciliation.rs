//! Bringing the indexes of the record store and the manifests of the artifacts together.

use crate::ids::SandboxId;
use crate::json;
use crate::orchestrator::persistence::codecs::{
    ManifestEntry, PersistedPausedIndex, PAUSED_INDEX_VERSION,
};
use crate::orchestrator::persistence::error::{PersistenceResult, SandboxPersistenceError};
use crate::orchestrator::persistence::manifests;
use crate::orchestrator::persistence::manifests::manifest_needs_recovery;
use crate::orchestrator::persistence::paused_transactions::PersistedPausedLifecycle;
use crate::orchestrator::persistence::quarantine::StoredPausedSandboxQuarantine;
use crate::paths;
use crate::paths::{Part, StorePath};
use crate::text;
use vstd::prelude::*;

verus! {

// ---------------------------------------------------------------------------------------------
// Indexes
// ---------------------------------------------------------------------------------------------

/// The sandbox that a key of the record store names.
pub open spec fn key_sandbox(key: Seq<u8>) -> Option<SandboxId> {
    if vstd::utf8::valid_utf8(key) {
        SandboxId::parsed(vstd::utf8::decode_utf8(key))
    } else {
        None
    }
}

pub fn sandbox_of_key(key: &[u8]) -> (sandbox_id: Option<SandboxId>)
    ensures
        sandbox_id == key_sandbox(key@),
{
    match text::utf8_text(key) {
        Ok(key) => SandboxId::parse_str(key.as_str()),
        Err(_) => None,
    }
}

/// What the record store holds under one key, with the index it was accepted as.
#[derive(Debug)]
pub struct StoreEntry {
    pub key: Vec<u8>,
    pub bytes: Vec<u8>,
    pub index: PersistenceResult<PersistedPausedIndex>,
}

/// Whether an entry holds an index for the sandbox that its key names.
pub open spec fn indexes(entry: StoreEntry, sandbox_id: SandboxId) -> bool {
    &&& key_sandbox(entry.key@) == Some(sandbox_id)
    &&& entry.index matches Ok(index)
    &&& index.sandbox_id == sandbox_id
}

/// The position of the last of the first `count` entries that indexes a sandbox.
pub open spec fn index_position(entries: Seq<StoreEntry>, sandbox_id: SandboxId, count: nat) -> Option<
    int,
>
    decreases count,
{
    if count == 0 {
        None
    } else if indexes(entries[count - 1], sandbox_id) {
        Some(count - 1)
    } else {
        index_position(entries, sandbox_id, (count - 1) as nat)
    }
}

/// The index of a sandbox, where the record store holds one.
pub open spec fn index_of(entries: Seq<StoreEntry>, sandbox_id: SandboxId) -> Option<
    PersistedPausedIndex,
> {
    match index_position(entries, sandbox_id, entries.len()) {
        Some(at) => match entries[at].index {
            Ok(index) => Some(index),
            Err(_) => None,
        },
        None => None,
    }
}

/// The position of the entry that indexes a sandbox.
pub fn indexed_manifest(entries: &Vec<StoreEntry>, sandbox_id: SandboxId) -> (position: Option<usize>)
    ensures
        match position {
            Some(at) => index_position(entries@, sandbox_id, entries@.len()) == Some(at as int) && at
                < entries@.len() && index_of(entries@, sandbox_id) is Some && entries@[at as int].index
                == Ok::<PersistedPausedIndex, SandboxPersistenceError>(
                index_of(entries@, sandbox_id)->0,
            ),
            None => index_position(entries@, sandbox_id, entries@.len()) is None && index_of(
                entries@,
                sandbox_id,
            ) is None,
        },
{
    let mut count: usize = entries.len();
    while count > 0
        invariant
            count <= entries@.len(),
            index_position(entries@, sandbox_id, entries@.len()) == index_position(
                entries@,
                sandbox_id,
                count as nat,
            ),
        decreases count,
    {
        let entry = &entries[count - 1];
        let named = match sandbox_of_key(&entry.key) {
            Some(id) => id == sandbox_id,
            None => false,
        };
        if named {
            if let Ok(index) = &entry.index {
                if index.sandbox_id == sandbox_id {
                    return Some(count - 1);
                }
            }
        }
        count -= 1;
    }
    None
}

/// Whether the bytes of an unusable index may be replaced by an index for a manifest of the same
/// sandbox: nothing that can still be read in them may contradict that manifest.
pub open spec fn may_be_rebuilt(bytes: Seq<u8>, sandbox_id: SandboxId, manifest: Seq<Part>) -> bool {
    &&& json::json_unsigned_field(bytes, "indexVersion"@) matches Some(version) ==> version
        == PAUSED_INDEX_VERSION
    &&& json::json_text_field(bytes, "sandboxId"@) matches Some(id) ==> (SandboxId::parsed(id) matches Some(
        id,
    ) ==> id == sandbox_id)
    &&& json::json_text_field(bytes, "manifestPath"@) matches Some(path) ==> paths::path_parts(
        text::text_bytes(path),
    ) == manifest
}

pub fn raw_index_can_be_rebuilt_from_manifest(
    bytes: &[u8],
    sandbox_id: &SandboxId,
    candidate: &ManifestEntry,
) -> (answer: bool)
    ensures
        answer == may_be_rebuilt(bytes@, *sandbox_id, candidate.path@),
{
    if let Some(version) = json::unsigned_field(bytes, "indexVersion") {
        if version != PAUSED_INDEX_VERSION as u64 {
            return false;
        }
    }
    if let Some(id) = json::text_field(bytes, "sandboxId") {
        if let Some(id) = SandboxId::parse_str(id.as_str()) {
            if id != *sandbox_id {
                return false;
            }
        }
    }
    if let Some(path) = json::text_field(bytes, "manifestPath") {
        if !StorePath::from_text(path.as_str()).same(&candidate.path) {
            return false;
        }
    }
    true
}

// ---------------------------------------------------------------------------------------------
// Selecting one manifest per sandbox
// ---------------------------------------------------------------------------------------------

/// Whether no other manifest is about the same sandbox.
pub open spec fn is_alone(manifests: Seq<ManifestEntry>, at: int) -> bool {
    forall|j: int|
        0 <= j < manifests.len() && j != at ==> (#[trigger] manifests[j]).id() != manifests[at].id()
}

/// Whether an index names this manifest and no other of the same sandbox.
pub open spec fn is_singled_out(
    manifests: Seq<ManifestEntry>,
    index: Option<PersistedPausedIndex>,
    at: int,
) -> bool {
    &&& index matches Some(index)
    &&& manifests[at].indexed_by(&index)
    &&& forall|j: int|
        0 <= j < manifests.len() && j != at && (#[trigger] manifests[j]).id() == manifests[at].id()
            ==> !manifests[j].indexed_by(&index)
}

/// Whether every other manifest of the same sandbox is certain.
pub open spec fn has_certain_siblings(manifests: Seq<ManifestEntry>, at: int) -> bool {
    forall|j: int|
        0 <= j < manifests.len() && j != at && (#[trigger] manifests[j]).id() == manifests[at].id()
            ==> !manifests::needs_recovery(manifests[j])
}

/// Whether a manifest is the one to go by: it is alone, or the index singles it out and none of
/// the others could belong to a later write.
pub open spec fn is_candidate(
    manifests: Seq<ManifestEntry>,
    index: Option<PersistedPausedIndex>,
    at: int,
) -> bool {
    is_alone(manifests, at) || (is_singled_out(manifests, index, at) && has_certain_siblings(
        manifests,
        at,
    ))
}

/// Whether the manifests of a sandbox cannot be put in order.
pub open spec fn is_ambiguous(
    manifests: Seq<ManifestEntry>,
    entries: Seq<StoreEntry>,
    sandbox_id: SandboxId,
) -> bool {
    forall|j: int|
        0 <= j < manifests.len() && (#[trigger] manifests[j]).id() == sandbox_id ==> !is_candidate(
            manifests,
            index_of(entries, sandbox_id),
            j,
        )
}

/// Whether the siblings of a candidate are superseded for good: the candidate is a pause whose
/// runtime is gone.
pub open spec fn supersedes_siblings(manifests: Seq<ManifestEntry>, at: int) -> bool {
    &&& !is_alone(manifests, at)
    &&& manifests[at].record.lifecycle is Paused
    &&& manifests[at].record.metadata.paused_runtime_stopped
    &&& !manifests::needs_recovery(manifests[at])
}

/// What the role of a manifest is.
#[derive(Clone, Copy, Debug, PartialEq, Eq, Structural)]
pub enum ManifestRole {
    /// The one to go by. `supersedes` says whether its siblings may be retired.
    Candidate { supersedes: bool },
    /// Another manifest of a sandbox with a candidate.
    Sibling,
    /// One of several that cannot be put in order.
    Ambiguous,
}

pub open spec fn role_of(
    manifests: Seq<ManifestEntry>,
    entries: Seq<StoreEntry>,
    at: int,
) -> ManifestRole {
    if is_candidate(manifests, index_of(entries, manifests[at].id()), at) {
        ManifestRole::Candidate { supersedes: supersedes_siblings(manifests, at) }
    } else if is_ambiguous(manifests, entries, manifests[at].id()) {
        ManifestRole::Ambiguous
    } else {
        ManifestRole::Sibling
    }
}

fn has_no_company(manifests: &Vec<ManifestEntry>, at: usize) -> (answer: bool)
    requires
        at < manifests@.len(),
    ensures
        answer == is_alone(manifests@, at as int),
{
    let id = manifests[at].sandbox_id();
    let mut j: usize = 0;
    while j < manifests.len()
        invariant
            j <= manifests@.len(),
            at < manifests@.len(),
            id == manifests@[at as int].id(),
            forall|k: int| 0 <= k < j && k != at ==> (#[trigger] manifests@[k]).id() != id,
        decreases manifests@.len() - j,
    {
        if j != at && manifests[j].sandbox_id() == id {
            return false;
        }
        j += 1;
    }
    true
}

/// Whether the index singles a manifest out among siblings that are all certain.
fn is_chosen(manifests: &Vec<ManifestEntry>, index: &PersistedPausedIndex, at: usize) -> (answer: bool)
    requires
        at < manifests@.len(),
    ensures
        answer == (is_singled_out(manifests@, Some(*index), at as int) && has_certain_siblings(
            manifests@,
            at as int,
        )),
{
    if !manifests[at].matches_index(index) {
        return false;
    }
    let id = manifests[at].sandbox_id();
    let mut j: usize = 0;
    while j < manifests.len()
        invariant
            j <= manifests@.len(),
            at < manifests@.len(),
            id == manifests@[at as int].id(),
            forall|k: int|
                0 <= k < j && k != at && (#[trigger] manifests@[k]).id() == id
                    ==> !manifests@[k].indexed_by(index) && !manifests::needs_recovery(
                    manifests@[k],
                ),
        decreases manifests@.len() - j,
    {
        if j != at && manifests[j].sandbox_id() == id && (manifests[j].matches_index(index)
            || manifest_needs_recovery(&manifests[j])) {
            return false;
        }
        j += 1;
    }
    true
}

fn has_candidacy(manifests: &Vec<ManifestEntry>, entries: &Vec<StoreEntry>, at: usize) -> (answer:
    bool)
    requires
        at < manifests@.len(),
    ensures
        answer == is_candidate(
            manifests@,
            index_of(entries@, manifests@[at as int].id()),
            at as int,
        ),
{
    if has_no_company(manifests, at) {
        return true;
    }
    match indexed_manifest(entries, manifests[at].sandbox_id()) {
        Some(position) => match &entries[position].index {
            Ok(index) => is_chosen(manifests, index, at),
            Err(_) => false,
        },
        None => false,
    }
}

fn has_ambiguity(manifests: &Vec<ManifestEntry>, entries: &Vec<StoreEntry>, sandbox_id: SandboxId) -> (
answer: bool)
    ensures
        answer == is_ambiguous(manifests@, entries@, sandbox_id),
{
    let mut j: usize = 0;
    while j < manifests.len()
        invariant
            j <= manifests@.len(),
            forall|k: int|
                0 <= k < j && (#[trigger] manifests@[k]).id() == sandbox_id ==> !is_candidate(
                    manifests@,
                    index_of(entries@, sandbox_id),
                    k,
                ),
        decreases manifests@.len() - j,
    {
        if manifests[j].sandbox_id() == sandbox_id && has_candidacy(manifests, entries, j) {
            return false;
        }
        j += 1;
    }
    true
}

/// The role of every manifest.
pub fn manifest_roles(manifests: &Vec<ManifestEntry>, entries: &Vec<StoreEntry>) -> (roles: Vec<
    ManifestRole,
>)
    ensures
        roles@ == Seq::new(manifests@.len(), |i: int| role_of(manifests@, entries@, i)),
{
    let mut roles: Vec<ManifestRole> = Vec::new();
    while roles.len() < manifests.len()
        invariant
            roles@.len() <= manifests@.len(),
            forall|i: int| 0 <= i < roles@.len() ==> roles@[i] == #[trigger] role_of(
                manifests@,
                entries@,
                i,
            ),
        decreases manifests@.len() - roles@.len(),
    {
        let at: usize = roles.len();
        let role = if has_candidacy(manifests, entries, at) {
            let record = &manifests[at].record;
            ManifestRole::Candidate {
                supersedes: !has_no_company(manifests, at) && record.lifecycle
                    == PersistedPausedLifecycle::Paused && record.metadata.paused_runtime_stopped
                    && !manifest_needs_recovery(&manifests[at]),
            }
        } else if has_ambiguity(manifests, entries, manifests[at].sandbox_id()) {
            ManifestRole::Ambiguous
        } else {
            ManifestRole::Sibling
        };
        roles.push(role);
    }
    assert(roles@ =~= Seq::new(manifests@.len(), |i: int| role_of(manifests@, entries@, i)));
    roles
}

/// The generations that a selection makes superfluous.
#[derive(Debug)]
pub struct RetirableGenerations {
    pub sandbox_id: SandboxId,
    pub artifact_roots: Vec<StorePath>,
}

/// What comes of a scan.
#[derive(Debug)]
pub struct ManifestReconciliation {
    pub candidates: Vec<ManifestEntry>,
    pub blocked: Vec<SandboxId>,
    pub retire_after_selection: Vec<RetirableGenerations>,
    /// The manifests that cannot be put in order.
    pub ambiguous: Vec<ManifestEntry>,
}

/// Those of the first `count` manifests whose role is that of a candidate, or ambiguous.
pub open spec fn with_role(
    manifests: Seq<ManifestEntry>,
    roles: Seq<ManifestRole>,
    candidates: bool,
    count: nat,
) -> Seq<ManifestEntry>
    decreases count,
{
    if count == 0 {
        Seq::empty()
    } else {
        let before = with_role(manifests, roles, candidates, (count - 1) as nat);
        if (candidates && roles[count - 1] is Candidate) || (!candidates && roles[count - 1] is Ambiguous) {
            before.push(manifests[count - 1])
        } else {
            before
        }
    }
}

/// The generations of the siblings of a manifest among the first `count`.
pub open spec fn sibling_roots(
    manifests: Seq<ManifestEntry>,
    sandbox_id: SandboxId,
    at: int,
    count: nat,
) -> Seq<Seq<Part>>
    decreases count,
{
    if count == 0 {
        Seq::empty()
    } else {
        let before = sibling_roots(manifests, sandbox_id, at, (count - 1) as nat);
        if count - 1 != at && manifests[count - 1].id() == sandbox_id {
            before.push(manifests[count - 1].record.artifact_root@)
        } else {
            before
        }
    }
}

/// What the first `count` manifests make superfluous: for each sandbox its identifier and the
/// generations that may go.
pub open spec fn retirable(
    manifests: Seq<ManifestEntry>,
    roles: Seq<ManifestRole>,
    count: nat,
) -> Seq<(SandboxId, Seq<Seq<Part>>)>
    decreases count,
{
    if count == 0 {
        Seq::empty()
    } else {
        let before = retirable(manifests, roles, (count - 1) as nat);
        if roles[count - 1] == (ManifestRole::Candidate { supersedes: true }) {
            before.push(
                (
                    manifests[count - 1].id(),
                    sibling_roots(
                        manifests,
                        manifests[count - 1].id(),
                        count - 1,
                        manifests.len(),
                    ),
                ),
            )
        } else {
            before
        }
    }
}

pub open spec fn retirable_view(list: Seq<RetirableGenerations>) -> Seq<(SandboxId, Seq<Seq<Part>>)> {
    Seq::new(
        list.len(),
        |i: int|
            (
                list[i].sandbox_id,
                crate::orchestrator::persistence::retention::paths_view(list[i].artifact_roots@),
            ),
    )
}

fn roots_of_siblings(manifests: &Vec<ManifestEntry>, at: usize) -> (roots: Vec<StorePath>)
    requires
        at < manifests@.len(),
    ensures
        crate::orchestrator::persistence::retention::paths_view(roots@) == sibling_roots(
            manifests@,
            manifests@[at as int].id(),
            at as int,
            manifests@.len(),
        ),
{
    let id = manifests[at].sandbox_id();
    let mut roots: Vec<StorePath> = Vec::new();
    let mut j: usize = 0;
    assert(crate::orchestrator::persistence::retention::paths_view(roots@) =~= Seq::<Seq<Part>>::empty());
    while j < manifests.len()
        invariant
            j <= manifests@.len(),
            at < manifests@.len(),
            id == manifests@[at as int].id(),
            crate::orchestrator::persistence::retention::paths_view(roots@) == sibling_roots(
                manifests@,
                id,
                at as int,
                j as nat,
            ),
        decreases manifests@.len() - j,
    {
        if j != at && manifests[j].sandbox_id() == id {
            let ghost before = roots@;
            roots.push(manifests[j].record.artifact_root.copy());
            assert(crate::orchestrator::persistence::retention::paths_view(roots@) =~= crate::orchestrator::persistence::retention::paths_view(before).push(
                manifests@[j as int].record.artifact_root@,
            ));
        }
        j += 1;
    }
    roots
}

/// Whether the identifiers of ambiguous manifests, and no others, are listed.
pub open spec fn blocks_exactly_the_ambiguous(
    blocked: Seq<SandboxId>,
    manifests: Seq<ManifestEntry>,
    roles: Seq<ManifestRole>,
    count: int,
) -> bool {
    forall|id: SandboxId| #[trigger]
        blocked.contains(id) <==> exists|j: int|
            0 <= j < count && roles[j] is Ambiguous && (#[trigger] manifests[j]).id() == id
}

/// Selects the manifests to go by.
pub fn select_manifest_candidates(manifests: Vec<ManifestEntry>, entries: &Vec<StoreEntry>) -> (
selection: ManifestReconciliation)
    ensures
        ({
            let roles = Seq::new(
                manifests@.len(),
                |i: int| role_of(manifests@, entries@, i),
            );
            &&& selection.candidates@ == with_role(manifests@, roles, true, manifests@.len())
            &&& selection.ambiguous@ == with_role(manifests@, roles, false, manifests@.len())
            &&& retirable_view(selection.retire_after_selection@) == retirable(
                manifests@,
                roles,
                manifests@.len(),
            )
            &&& blocks_exactly_the_ambiguous(
                selection.blocked@,
                manifests@,
                roles,
                manifests@.len() as int,
            )
        }),
{
    let roles = manifest_roles(&manifests, entries);
    let ghost all = manifests@;
    let mut selection = ManifestReconciliation {
        candidates: Vec::new(),
        blocked: Vec::new(),
        retire_after_selection: Vec::new(),
        ambiguous: Vec::new(),
    };
    let mut at: usize = 0;
    assert(retirable_view(selection.retire_after_selection@) =~= Seq::empty());
    while at < manifests.len()
        invariant
            at <= manifests@.len(),
            all == manifests@,
            roles@.len() == all.len(),
            retirable_view(selection.retire_after_selection@) == retirable(all, roles@, at as nat),
            selection.candidates@.len() == 0,
            selection.ambiguous@.len() == 0,
            blocks_exactly_the_ambiguous(selection.blocked@, all, roles@, at as int),
        decreases manifests@.len() - at,
    {
        match roles[at] {
            ManifestRole::Candidate { supersedes: true } => {
                let ghost before = selection.retire_after_selection@;
                let retirable = RetirableGenerations {
                    sandbox_id: manifests[at].sandbox_id(),
                    artifact_roots: roots_of_siblings(&manifests, at),
                };
                selection.retire_after_selection.push(retirable);
                assert(retirable_view(selection.retire_after_selection@) =~= retirable_view(
                    before,
                ).push(
                    (
                        all[at as int].id(),
                        sibling_roots(all, all[at as int].id(), at as int, all.len()),
                    ),
                ));
            },
            ManifestRole::Ambiguous => {
                let ghost before = selection.blocked@;
                let id = manifests[at].sandbox_id();
                selection.blocked.push(id);
                proof {
                    extend_blocked(before, all, roles@, at as int);
                }
            },
            _ => {},
        }
        proof {
            if !(roles@[at as int] is Ambiguous) {
                skip_unblocked(selection.blocked@, all, roles@, at as int);
            }
        }
        at += 1;
    }
    let ghost retire = selection.retire_after_selection@;
    let ghost blocked = selection.blocked@;
    let mut rest = manifests;
    let mut done: usize = 0;
    while rest.len() > 0
        invariant
            done <= all.len(),
            roles@.len() == all.len(),
            rest@ == all.skip(done as int),
            selection.candidates@ == with_role(all, roles@, true, done as nat),
            selection.ambiguous@ == with_role(all, roles@, false, done as nat),
            selection.retire_after_selection@ == retire,
            selection.blocked@ == blocked,
        decreases rest@.len(),
    {
        assert(done < roles.len()) by {
            assert(roles.len() == roles@.len());
        }
        let entry = rest.remove(0);
        assert(entry == all[done as int]);
        match roles[done] {
            ManifestRole::Candidate { .. } => {
                selection.candidates.push(entry);
            },
            ManifestRole::Ambiguous => {
                selection.ambiguous.push(entry);
            },
            ManifestRole::Sibling => {},
        }
        done += 1;
        assert(rest@ =~= all.skip(done as int));
    }
    selection
}

proof fn extend_blocked(
    blocked: Seq<SandboxId>,
    manifests: Seq<ManifestEntry>,
    roles: Seq<ManifestRole>,
    at: int,
)
    requires
        0 <= at < manifests.len(),
        roles[at] is Ambiguous,
        blocks_exactly_the_ambiguous(blocked, manifests, roles, at),
    ensures
        blocks_exactly_the_ambiguous(blocked.push(manifests[at].id()), manifests, roles, at + 1),
{
    let next = blocked.push(manifests[at].id());
    assert forall|id: SandboxId| #[trigger]
        next.contains(id) <==> exists|j: int|
            0 <= j < at + 1 && roles[j] is Ambiguous && (#[trigger] manifests[j]).id() == id by {
        if next.contains(id) {
            let k = choose|k: int| 0 <= k < next.len() && next[k] == id;
            if k < blocked.len() {
                assert(blocked[k] == id);
                assert(blocked.contains(id));
                let j = choose|j: int|
                    0 <= j < at && roles[j] is Ambiguous && (#[trigger] manifests[j]).id() == id;
                assert(manifests[j].id() == id);
            } else {
                assert(manifests[at].id() == id);
            }
        }
        if exists|j: int|
            0 <= j < at + 1 && roles[j] is Ambiguous && (#[trigger] manifests[j]).id() == id {
            let j = choose|j: int|
                0 <= j < at + 1 && roles[j] is Ambiguous && (#[trigger] manifests[j]).id() == id;
            if j < at {
                assert(blocked.contains(id));
                let k = choose|k: int| 0 <= k < blocked.len() && blocked[k] == id;
                assert(next[k] == id);
            } else {
                assert(next[blocked.len() as int] == id);
            }
        }
    }
}

proof fn skip_unblocked(
    blocked: Seq<SandboxId>,
    manifests: Seq<ManifestEntry>,
    roles: Seq<ManifestRole>,
    at: int,
)
    requires
        0 <= at < manifests.len(),
        !(roles[at] is Ambiguous),
        blocks_exactly_the_ambiguous(blocked, manifests, roles, at),
    ensures
        blocks_exactly_the_ambiguous(blocked, manifests, roles, at + 1),
{
    assert forall|id: SandboxId| #[trigger]
        blocked.contains(id) <==> exists|j: int|
            0 <= j < at + 1 && roles[j] is Ambiguous && (#[trigger] manifests[j]).id() == id by {
        if blocked.contains(id) {
            let j = choose|j: int|
                0 <= j < at && roles[j] is Ambiguous && (#[trigger] manifests[j]).id() == id;
            assert(manifests[j].id() == id);
        }
    }
}

/// The entry to store about a manifest that cannot be put in order.
pub fn ambiguous_manifest_entry(entry: &ManifestEntry) -> (stored: StoredPausedSandboxQuarantine)
    ensures
        manifests::is_entry_for(
            stored,
            "multiple paused sandbox manifests cannot be safely ordered"@,
            Some(entry.record.artifact_root),
            Some(entry.path),
        ),
{
    manifests::entry_for(
        "multiple paused sandbox manifests cannot be safely ordered".to_owned(),
        &Some(entry.record.artifact_root.copy()),
        &Some(entry.path.copy()),
    )
}

// ---------------------------------------------------------------------------------------------
// Laws
// ---------------------------------------------------------------------------------------------

/// A sandbox has at most one candidate.
pub proof fn candidates_are_unique(
    manifests: Seq<ManifestEntry>,
    entries: Seq<StoreEntry>,
    left: int,
    right: int,
)
    requires
        0 <= left < manifests.len(),
        0 <= right < manifests.len(),
        manifests[left].id() == manifests[right].id(),
        role_of(manifests, entries, left) is Candidate,
        role_of(manifests, entries, right) is Candidate,
    ensures
        left == right,
{
}

/// No manifest of a sandbox is retired while any of its manifests is uncertain: the siblings of a
/// candidate that supersedes them are certain, and so is the candidate.
pub proof fn only_certain_siblings_are_retired(
    manifests: Seq<ManifestEntry>,
    entries: Seq<StoreEntry>,
    at: int,
    sibling: int,
)
    requires
        0 <= at < manifests.len(),
        0 <= sibling < manifests.len(),
        sibling != at,
        manifests[sibling].id() == manifests[at].id(),
        role_of(manifests, entries, at) == (ManifestRole::Candidate { supersedes: true }),
    ensures
        !manifests::needs_recovery(manifests[sibling]),
        !manifests::needs_recovery(manifests[at]),
        manifests[at].record.metadata.paused_runtime_stopped,
        role_of(manifests, entries, sibling) is Sibling,
        index_of(entries, manifests[at].id()) matches Some(index) && manifests[at].indexed_by(&index),
{
    assert(!is_alone(manifests, at));
    assert(!is_alone(manifests, sibling)) by {
        assert(manifests[at].id() == manifests[sibling].id());
    }
    let index = index_of(entries, manifests[at].id());
    assert(is_singled_out(manifests, index, at));
    assert(!manifests[sibling].indexed_by(&index->0));
    assert(!is_candidate(manifests, index_of(entries, manifests[sibling].id()), sibling));
    assert(manifests[at].id() == manifests[sibling].id());
    assert(!is_ambiguous(manifests, entries, manifests[sibling].id()));
}

/// A sandbox with a single manifest goes by it, whatever its index says.
pub proof fn a_lone_manifest_is_the_candidate(
    manifests: Seq<ManifestEntry>,
    entries: Seq<StoreEntry>,
    at: int,
)
    requires
        0 <= at < manifests.len(),
        is_alone(manifests, at),
    ensures
        role_of(manifests, entries, at) == (ManifestRole::Candidate { supersedes: false }),
{
}

/// The index of a sandbox is the last one that was accepted under a key that names the sandbox and
/// that is itself about the sandbox; where there is none, the sandbox has no index.
pub proof fn the_last_index_counts(entries: Seq<StoreEntry>, sandbox_id: SandboxId, at: int)
    requires
        0 <= at < entries.len(),
    ensures
        ({
            let own = |entry: StoreEntry|
                vstd::utf8::valid_utf8(entry.key@) && SandboxId::parsed(
                    vstd::utf8::decode_utf8(entry.key@),
                ) == Some(sandbox_id) && entry.index is Ok && entry.index->Ok_0.sandbox_id
                    == sandbox_id;
            &&& own(entries[at]) && (forall|j: int|
                at < j < entries.len() ==> !own(#[trigger] entries[j])) ==> index_of(
                entries,
                sandbox_id,
            ) == Some(entries[at].index->Ok_0)
            &&& (forall|j: int| 0 <= j < entries.len() ==> !own(#[trigger] entries[j])) ==> index_of(
                entries,
                sandbox_id,
            ) is None
        }),
{
    let own = |entry: StoreEntry|
        vstd::utf8::valid_utf8(entry.key@) && SandboxId::parsed(
            vstd::utf8::decode_utf8(entry.key@),
        ) == Some(sandbox_id) && entry.index is Ok && entry.index->Ok_0.sandbox_id == sandbox_id;
    assert forall|j: int| 0 <= j < entries.len() implies own(#[trigger] entries[j]) == indexes(
        entries[j],
        sandbox_id,
    ) by {}
    the_last_position_counts(entries, sandbox_id, entries.len());
    match index_position(entries, sandbox_id, entries.len()) {
        Some(found) => {
            assert(own(entries[found]));
        },
        None => {
            assert(!indexes(entries[at], sandbox_id));
        },
    }
}

proof fn the_last_position_counts(entries: Seq<StoreEntry>, sandbox_id: SandboxId, count: nat)
    requires
        count <= entries.len(),
    ensures
        match index_position(entries, sandbox_id, count) {
            Some(at) => 0 <= at < count && indexes(entries[at], sandbox_id) && forall|j: int|
                at < j < count ==> !indexes(#[trigger] entries[j], sandbox_id),
            None => forall|j: int| 0 <= j < count ==> !indexes(#[trigger] entries[j], sandbox_id),
        },
    decreases count,
{
    if count > 0 && !indexes(entries[count - 1], sandbox_id) {
        the_last_position_counts(entries, sandbox_id, (count - 1) as nat);
    }
}

/// Bytes that cannot be used are not replaced where they name another version, another sandbox or
/// another manifest; where they name none of these, or the right ones, they may be.
pub proof fn rebuilds_contradict_nothing(
    bytes: Seq<u8>,
    sandbox_id: SandboxId,
    other: SandboxId,
    manifest: Seq<Part>,
)
    ensures
        ({
            let version = json::json_unsigned_field(bytes, "indexVersion"@);
            let id = json::json_text_field(bytes, "sandboxId"@);
            let path = json::json_text_field(bytes, "manifestPath"@);
            let may = may_be_rebuilt(bytes, sandbox_id, manifest);
            &&& version is Some && version->0 != 2 ==> !may
            &&& id is Some && SandboxId::parsed(id->0) == Some(other) && other != sandbox_id ==> !may
            &&& path is Some && paths::path_parts(text::text_bytes(path->0)) != manifest ==> !may
            &&& (version is None || version->0 == 2) && (id is None || SandboxId::parsed(id->0) is None
                || SandboxId::parsed(id->0) == Some(sandbox_id)) && (path is None
                || paths::path_parts(text::text_bytes(path->0)) == manifest) ==> may
        }),
{
}

/// Where the index of a sandbox names one of its manifests, by path and digest, and no other, and
/// all others are certain, that one is gone by and the others are its siblings; they are superseded
/// where there are any and the one is a certain pause whose runtime is gone.
pub proof fn an_index_settles_the_order(
    manifests: Seq<ManifestEntry>,
    entries: Seq<StoreEntry>,
    index: PersistedPausedIndex,
    at: int,
    sibling: int,
)
    requires
        0 <= at < manifests.len(),
        0 <= sibling < manifests.len(),
        sibling != at,
        manifests[sibling].record.metadata.id == manifests[at].record.metadata.id,
        index_of(entries, manifests[at].record.metadata.id) == Some(index),
        index.sandbox_id == manifests[at].record.metadata.id,
        index.manifest_path@ == manifests[at].path@,
        index.manifest_sha256@ == crate::digest::sha256_hex_of(manifests[at].bytes@),
        forall|j: int|
            0 <= j < manifests.len() && j != at && (#[trigger] manifests[j]).record.metadata.id
                == manifests[at].record.metadata.id ==> {
                &&& manifests[j].path@ != index.manifest_path@ || crate::digest::sha256_hex_of(
                    manifests[j].bytes@,
                ) != index.manifest_sha256@
                &&& !manifests[j].recovery_marker_present
                &&& manifests[j].record.commit_state is Committed
                &&& !manifests[j].record.metadata.resume_recovery_pending
            },
    ensures
        role_of(manifests, entries, at) == (ManifestRole::Candidate {
            supersedes: manifests[at].record.lifecycle is Paused
                && manifests[at].record.metadata.paused_runtime_stopped
                && !manifests[at].recovery_marker_present && manifests[at].record.commit_state
                is Committed && !manifests[at].record.metadata.resume_recovery_pending,
        }),
        role_of(manifests, entries, sibling) is Sibling,
{
    assert(!is_alone(manifests, at)) by {
        assert(manifests[sibling].id() == manifests[at].id());
    }
    assert(!is_alone(manifests, sibling)) by {
        assert(manifests[at].id() == manifests[sibling].id());
    }
    assert(is_singled_out(manifests, Some(index), at));
    assert(has_certain_siblings(manifests, at));
    assert(is_candidate(manifests, index_of(entries, manifests[at].id()), at));
    assert(!manifests[sibling].indexed_by(&index));
    assert(!is_candidate(manifests, index_of(entries, manifests[sibling].id()), sibling));
    assert(!is_ambiguous(manifests, entries, manifests[sibling].id()));
}

/// Two manifests of a sandbox cannot be put in order where the sandbox has no index, where its index
/// names none of its manifests, and where both may belong to a write whose outcome is unknown.
pub proof fn manifests_without_order_are_ambiguous(
    manifests: Seq<ManifestEntry>,
    entries: Seq<StoreEntry>,
    at: int,
    other: int,
)
    requires
        0 <= at < manifests.len(),
        0 <= other < manifests.len(),
        other != at,
        manifests[other].record.metadata.id == manifests[at].record.metadata.id,
        ({
            let id = manifests[at].record.metadata.id;
            ||| index_of(entries, id) is None
            ||| forall|j: int|
                0 <= j < manifests.len() && (#[trigger] manifests[j]).record.metadata.id == id
                    ==> manifests[j].path@ != index_of(entries, id)->0.manifest_path@
            ||| (manifests[at].recovery_marker_present || manifests[at].record.commit_state
                is Prepared || manifests[at].record.metadata.resume_recovery_pending) && (
            manifests[other].recovery_marker_present || manifests[other].record.commit_state
                is Prepared || manifests[other].record.metadata.resume_recovery_pending)
        }),
    ensures
        role_of(manifests, entries, at) is Ambiguous,
{
    let id = manifests[at].id();
    let index = index_of(entries, id);
    assert forall|j: int| 0 <= j < manifests.len() && (#[trigger] manifests[j]).id() == id implies
        !is_candidate(manifests, index, j) by {
        if j == at {
            assert(manifests[other].id() == manifests[j].id());
        } else {
            assert(manifests[at].id() == manifests[j].id());
        }
        assert(!is_alone(manifests, j));
        if is_singled_out(manifests, index, j) && has_certain_siblings(manifests, j) {
            assert(manifests[j].indexed_by(&index->0));
            if j != at {
                assert(!manifests::needs_recovery(manifests[at]));
            } else {
                assert(!manifests::needs_recovery(manifests[other]));
            }
        }
    }
    assert(is_candidate(manifests, index_of(entries, manifests[at].id()), at) == false);
}

/// Every manifest of a role is taken over, in order, and none of another role.
pub proof fn selections_hold_every_role(
    manifests: Seq<ManifestEntry>,
    roles: Seq<ManifestRole>,
    candidates: bool,
    count: nat,
    entry: ManifestEntry,
)
    requires
        count <= manifests.len(),
    ensures
        with_role(manifests, roles, candidates, count).contains(entry) <==> exists|i: int|
            {
                &&& 0 <= i < count
                &&& #[trigger] manifests[i] == entry
                &&& if candidates {
                    roles[i] is Candidate
                } else {
                    roles[i] is Ambiguous
                }
            },
    decreases count,
{
    if count > 0 {
        let before = with_role(manifests, roles, candidates, (count - 1) as nat);
        let after = with_role(manifests, roles, candidates, count);
        let last = count - 1;
        let wanted = if candidates {
            roles[last] is Candidate
        } else {
            roles[last] is Ambiguous
        };
        selections_hold_every_role(manifests, roles, candidates, (count - 1) as nat, entry);
        if before.contains(entry) {
            let k = choose|k: int| 0 <= k < before.len() && before[k] == entry;
            assert(after[k] == entry);
        }
        if after.contains(entry) {
            let k = choose|k: int| 0 <= k < after.len() && after[k] == entry;
            if k < before.len() {
                assert(before[k] == entry);
            } else {
                assert(manifests[last] == entry);
            }
        }
        if wanted && manifests[last] == entry {
            assert(after[before.len() as int] == entry);
        }
    }
}

/// The generations that a candidate makes superfluous are those of all other manifests of its
/// sandbox, and of no other sandbox.
pub proof fn siblings_are_of_one_sandbox(
    manifests: Seq<ManifestEntry>,
    sandbox_id: SandboxId,
    at: int,
    count: nat,
    root: Seq<Part>,
)
    requires
        count <= manifests.len(),
    ensures
        sibling_roots(manifests, sandbox_id, at, count).contains(root) <==> exists|i: int|
            {
                &&& 0 <= i < count
                &&& i != at
                &&& (#[trigger] manifests[i]).record.metadata.id == sandbox_id
                &&& manifests[i].record.artifact_root@ == root
            },
    decreases count,
{
    if count > 0 {
        let before = sibling_roots(manifests, sandbox_id, at, (count - 1) as nat);
        let after = sibling_roots(manifests, sandbox_id, at, count);
        let last = count - 1;
        siblings_are_of_one_sandbox(manifests, sandbox_id, at, (count - 1) as nat, root);
        if before.contains(root) {
            let k = choose|k: int| 0 <= k < before.len() && before[k] == root;
            assert(after[k] == root);
        }
        if after.contains(root) {
            let k = choose|k: int| 0 <= k < after.len() && after[k] == root;
            if k < before.len() {
                assert(before[k] == root);
            } else {
                assert(manifests[last].record.metadata.id == sandbox_id);
            }
        }
        if last != at && manifests[last].record.metadata.id == sandbox_id
            && manifests[last].record.artifact_root@ == root {
            assert(after[before.len() as int] == root);
        }
    }
}

/// What may go after a selection is what some superseding candidate makes superfluous, with the
/// identifier of its sandbox; and every superseding candidate has its part in it.
pub proof fn only_superseded_generations_may_go(
    manifests: Seq<ManifestEntry>,
    roles: Seq<ManifestRole>,
    count: nat,
    item: (SandboxId, Seq<Seq<Part>>),
)
    requires
        count <= manifests.len(),
    ensures
        retirable(manifests, roles, count).contains(item) <==> exists|i: int|
            {
                &&& 0 <= i < count
                &&& roles[i] == (ManifestRole::Candidate { supersedes: true })
                &&& (#[trigger] manifests[i]).record.metadata.id == item.0
                &&& item.1 == sibling_roots(manifests, item.0, i, manifests.len())
            },
    decreases count,
{
    if count > 0 {
        let before = retirable(manifests, roles, (count - 1) as nat);
        let after = retirable(manifests, roles, count);
        let last = count - 1;
        only_superseded_generations_may_go(manifests, roles, (count - 1) as nat, item);
        if before.contains(item) {
            let k = choose|k: int| 0 <= k < before.len() && before[k] == item;
            assert(after[k] == item);
        }
        if after.contains(item) {
            let k = choose|k: int| 0 <= k < after.len() && after[k] == item;
            if k < before.len() {
                assert(before[k] == item);
            } else {
                assert(manifests[last].record.metadata.id == item.0);
            }
        }
        if roles[last] == (ManifestRole::Candidate { supersedes: true })
            && manifests[last].record.metadata.id == item.0 && item.1 == sibling_roots(
            manifests,
            item.0,
            last,
            manifests.len(),
        ) {
            assert(after[before.len() as int] == item);
        }
    }
}

/// A key names a sandbox exactly where it is the text of an identifier, and keys of other bytes name
/// none.
pub proof fn keys_are_texts_of_identifiers(key: Seq<u8>, text: Seq<char>)
    ensures
        !vstd::utf8::valid_utf8(key) ==> key_sandbox(key) is None,
        key_sandbox(vstd::utf8::encode_utf8(text)) == SandboxId::parsed(text),
{
    vstd::utf8::encode_utf8_valid_utf8(text);
    vstd::utf8::encode_utf8_decode_utf8(text);
}

} // verus!
