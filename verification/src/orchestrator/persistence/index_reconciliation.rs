//! The walk over the record store that follows a scan.

use crate::ids::SandboxId;
use crate::orchestrator::persistence::codecs::{
    ManifestEntry, PersistedPausedIndex, PersistedPausedRecord, PAUSED_INDEX_VERSION,
};
use crate::orchestrator::persistence::error::{
    PersistenceResult, RecordFault, SandboxPersistenceError,
};
use crate::orchestrator::persistence::quarantine;
use crate::orchestrator::persistence::quarantine::{
    has_id, PausedRecoveryBlocks, QuarantinePolicy, StoredPausedSandboxQuarantine,
};
use crate::orchestrator::persistence::reconciliation;
use crate::orchestrator::persistence::reconciliation::{
    raw_index_can_be_rebuilt_from_manifest, sandbox_of_key, ManifestReconciliation,
    RetirableGenerations, StoreEntry,
};
use crate::paths::StorePath;
use crate::text;
use vstd::prelude::*;

verus! {

/// How much a reconciliation did.
#[derive(Clone, Copy, Debug, PartialEq, Eq, Structural)]
pub struct PausedSandboxRecoveryReport {
    pub indexed_manifests: usize,
    pub quarantined_items: usize,
    pub reconciled_quarantines: usize,
}

/// Why the record store is gone through.
#[derive(Clone, Copy, Debug, PartialEq, Eq, Structural)]
pub enum WalkMode {
    /// A node starts: what awaits an administrator is left alone, and generations that were
    /// superseded go.
    Startup,
    /// An administrator asks for repairs: nothing is left alone, and nothing is removed.
    ManualRecovery,
}

/// A record to go by.
#[derive(Debug)]
pub struct SelectedRecord {
    pub sandbox_id: SandboxId,
    pub record: PersistedPausedRecord,
}

/// The state of the walk.
#[derive(Debug)]
pub struct IndexReconciliation {
    pub candidates: Vec<ManifestEntry>,
    pub retire_after_selection: Vec<RetirableGenerations>,
    pub blocks: PausedRecoveryBlocks,
    pub blocked: Vec<SandboxId>,
    pub selected: Vec<SelectedRecord>,
    pub report: PausedSandboxRecoveryReport,
    pub mode: WalkMode,
}

/// What to do about one entry of the record store.
#[derive(Debug)]
pub enum IndexDecision {
    Skip,
    /// Store the entry.
    Quarantine { entry: StoredPausedSandboxQuarantine },
    /// Resolve the index of this sandbox.
    Resolve { sandbox_id: SandboxId },
}

/// The list with one more sandbox in it.
pub open spec fn with_blocked(blocked: Seq<SandboxId>, sandbox_id: SandboxId) -> Seq<SandboxId> {
    if blocked.contains(sandbox_id) {
        blocked
    } else {
        blocked.push(sandbox_id)
    }
}

pub open spec fn is_selected(selected: Seq<SelectedRecord>, sandbox_id: SandboxId) -> bool {
    exists|k: int| 0 <= k < selected.len() && (#[trigger] selected[k]).sandbox_id == sandbox_id
}

/// The position of the candidate of a sandbox among those from `from` on.
pub open spec fn candidate_position(
    candidates: Seq<ManifestEntry>,
    sandbox_id: SandboxId,
    from: int,
) -> Option<int>
    decreases candidates.len() - from,
{
    if from >= candidates.len() {
        None
    } else if candidates[from].id() == sandbox_id {
        Some(from)
    } else {
        candidate_position(candidates, sandbox_id, from + 1)
    }
}

/// The candidate of a sandbox.
pub open spec fn candidate_of(candidates: Seq<ManifestEntry>, sandbox_id: SandboxId) -> Option<
    ManifestEntry,
> {
    match candidate_position(candidates, sandbox_id, 0) {
        Some(at) => Some(candidates[at]),
        None => None,
    }
}

fn find_candidate(candidates: &Vec<ManifestEntry>, sandbox_id: SandboxId) -> (position: Option<usize>)
    ensures
        match position {
            Some(at) => at < candidates@.len() && candidate_of(candidates@, sandbox_id) == Some(
                candidates@[at as int],
            ),
            None => candidate_of(candidates@, sandbox_id) is None,
        },
{
    let mut at: usize = 0;
    while at < candidates.len()
        invariant
            at <= candidates@.len(),
            candidate_position(candidates@, sandbox_id, 0) == candidate_position(
                candidates@,
                sandbox_id,
                at as int,
            ),
        decreases candidates@.len() - at,
    {
        if candidates[at].sandbox_id() == sandbox_id {
            return Some(at);
        }
        at += 1;
    }
    None
}

/// Whether an index agrees with the candidate of its sandbox, where there is one.
pub open spec fn index_agrees(
    index: PersistedPausedIndex,
    sandbox_id: SandboxId,
    managed: bool,
    candidate: Option<ManifestEntry>,
) -> bool {
    &&& index.index_version == PAUSED_INDEX_VERSION
    &&& index.sandbox_id == sandbox_id
    &&& managed
    &&& candidate matches Some(entry) ==> entry.indexed_by(&index)
}

pub fn index_matches_candidate(
    index: &PersistedPausedIndex,
    sandbox_id: SandboxId,
    managed: bool,
    candidate: Option<&ManifestEntry>,
) -> (answer: bool)
    ensures
        answer == index_agrees(
            *index,
            sandbox_id,
            managed,
            match candidate {
                Some(entry) => Some(*entry),
                None => None,
            },
        ),
{
    index.index_version == PAUSED_INDEX_VERSION && index.sandbox_id == sandbox_id && managed
        && match candidate {
        Some(entry) => entry.matches_index(index),
        None => true,
    }
}

/// The generation of a candidate.
pub open spec fn candidate_root(candidate: Option<ManifestEntry>) -> Option<StorePath> {
    match candidate {
        Some(entry) => Some(entry.record.artifact_root),
        None => None,
    }
}

impl IndexReconciliation {
    /// Whether two states differ at most in who is blocked, what is selected and the report.
    pub open spec fn same_material(&self, other: &IndexReconciliation) -> bool {
        &&& self.candidates == other.candidates
        &&& self.retire_after_selection == other.retire_after_selection
        &&& self.blocks == other.blocks
        &&& self.mode == other.mode
    }

    /// Whether one more item was quarantined, and nothing else was counted.
    pub open spec fn counted_quarantine(&self, before: &IndexReconciliation) -> bool {
        self.report == (PausedSandboxRecoveryReport {
            quarantined_items: (before.report.quarantined_items + 1) as usize,
            ..before.report
        })
    }

    /// Starts the walk: what blocks a candidate blocks its sandbox. An administrator is not held up
    /// by what awaits an administrator.
    pub fn begin(
        selection: ManifestReconciliation,
        scan_quarantined: usize,
        mode: WalkMode,
        quarantines: &Vec<StoredPausedSandboxQuarantine>,
    ) -> (walk: IndexReconciliation)
        requires
            scan_quarantined + selection.ambiguous@.len() <= usize::MAX,
        ensures
            walk.mode == mode,
            walk.candidates == selection.candidates,
            walk.retire_after_selection == selection.retire_after_selection,
            match mode {
                WalkMode::Startup => quarantine::are_recovery_blocks(walk.blocks, quarantines@),
                WalkMode::ManualRecovery => walk.blocks.is_none(),
            },
            walk.selected@.len() == 0,
            walk.report == (PausedSandboxRecoveryReport {
                indexed_manifests: 0,
                quarantined_items: (scan_quarantined + selection.ambiguous@.len()) as usize,
                reconciled_quarantines: 0,
            }),
            forall|id: SandboxId| #[trigger]
                walk.blocked@.contains(id) <==> selection.blocked@.contains(id) || exists|k: int|
                    0 <= k < selection.candidates@.len() && walk.blocks.blocks_manifest(
                        &#[trigger] selection.candidates@[k],
                    ) && selection.candidates@[k].id() == id,
    {
        let blocks = match mode {
            WalkMode::Startup => quarantine::recovery_blocks(quarantines),
            WalkMode::ManualRecovery => PausedRecoveryBlocks::none(),
        };
        let mut walk = IndexReconciliation {
            mode,
            candidates: selection.candidates,
            retire_after_selection: selection.retire_after_selection,
            blocks,
            blocked: selection.blocked,
            selected: Vec::new(),
            report: PausedSandboxRecoveryReport {
                indexed_manifests: 0,
                quarantined_items: scan_quarantined + selection.ambiguous.len(),
                reconciled_quarantines: 0,
            },
        };
        let ghost candidates = walk.candidates@;
        let ghost initially = walk.blocked@;
        let mut at: usize = 0;
        while at < walk.candidates.len()
            invariant
                at <= walk.candidates@.len(),
                walk.candidates == selection.candidates,
                walk.retire_after_selection == selection.retire_after_selection,
                walk.blocks == blocks,
                walk.mode == mode,
                candidates == walk.candidates@,
                initially == selection.blocked@,
                walk.selected@.len() == 0,
                walk.report == (PausedSandboxRecoveryReport {
                    indexed_manifests: 0,
                    quarantined_items: (scan_quarantined + selection.ambiguous@.len()) as usize,
                    reconciled_quarantines: 0,
                }),
                forall|id: SandboxId| #[trigger]
                    walk.blocked@.contains(id) <==> initially.contains(id) || exists|k: int|
                        0 <= k < at && blocks.blocks_manifest(&#[trigger] candidates[k])
                            && candidates[k].id() == id,
            decreases walk.candidates@.len() - at,
        {
            let ghost before = walk.blocked@;
            if walk.blocks.contains_manifest(&walk.candidates[at]) {
                let id = walk.candidates[at].sandbox_id();
                walk.block(id);
            }
            proof {
                assert forall|id: SandboxId| #[trigger]
                    walk.blocked@.contains(id) <==> initially.contains(id) || exists|k: int|
                        0 <= k < at + 1 && blocks.blocks_manifest(&#[trigger] candidates[k])
                            && candidates[k].id() == id by {
                    let newly = blocks.blocks_manifest(&candidates[at as int])
                        && candidates[at as int].id() == id;
                    if blocks.blocks_manifest(&candidates[at as int]) {
                        blocked_contains(before, candidates[at as int].id(), id);
                    }
                    assert(walk.blocked@.contains(id) <==> before.contains(id) || newly);
                    if before.contains(id) && !initially.contains(id) {
                        let k = choose|k: int|
                            0 <= k < at && blocks.blocks_manifest(&#[trigger] candidates[k])
                                && candidates[k].id() == id;
                        assert(0 <= k < at + 1 && blocks.blocks_manifest(&candidates[k]));
                    }
                }
            }
            at += 1;
        }
        walk
    }

    fn block(&mut self, sandbox_id: SandboxId)
        ensures
            final(self).same_material(old(self)),
            final(self).selected == old(self).selected,
            final(self).report == old(self).report,
            final(self).blocked@ == with_blocked(old(self).blocked@, sandbox_id),
    {
        if !has_id(&self.blocked, &sandbox_id) {
            self.blocked.push(sandbox_id);
        }
    }

    fn has_selected(&self, sandbox_id: SandboxId) -> (answer: bool)
        ensures
            answer == is_selected(self.selected@, sandbox_id),
    {
        let mut at: usize = 0;
        while at < self.selected.len()
            invariant
                at <= self.selected@.len(),
                forall|k: int|
                    0 <= k < at ==> (#[trigger] self.selected@[k]).sandbox_id != sandbox_id,
            decreases self.selected@.len() - at,
        {
            if self.selected[at].sandbox_id == sandbox_id {
                return true;
            }
            at += 1;
        }
        false
    }

    /// Whether a decision about an accepted index led here.
    pub open spec fn decided(
        self,
        before: IndexReconciliation,
        entry: StoreEntry,
        index: PersistedPausedIndex,
        managed: bool,
        decision: IndexDecision,
    ) -> bool {
        &&& self.same_material(&before)
        &&& self.selected == before.selected
        &&& match reconciliation::key_sandbox(entry.key@) {
            None => {
                &&& decision matches IndexDecision::Quarantine { entry: stored }
                &&& quarantine::describes(
                    stored,
                    "paused sandbox index has a non-sandbox record key"@,
                    Some(entry.key@),
                    Some(entry.bytes@),
                    None,
                    Some(index.manifest_path),
                    QuarantinePolicy::Manual,
                )
                &&& self.blocked == before.blocked
                &&& self.counted_quarantine(&before)
            },
            Some(sandbox_id) => if before.blocked@.contains(sandbox_id)
                || before.blocks.sandbox_ids@.contains(sandbox_id) {
                &&& decision is Skip
                &&& self.blocked@ == with_blocked(before.blocked@, sandbox_id)
                &&& self.report == before.report
            } else {
                let candidate = candidate_of(before.candidates@, sandbox_id);
                if index_agrees(index, sandbox_id, managed, candidate) {
                    &&& decision == (IndexDecision::Resolve { sandbox_id })
                    &&& self.blocked == before.blocked
                    &&& self.report == before.report
                } else {
                    &&& decision matches IndexDecision::Quarantine { entry: stored }
                    &&& quarantine::describes(
                        stored,
                        "paused sandbox index and manifest identity disagree"@,
                        Some(entry.key@),
                        Some(entry.bytes@),
                        candidate_root(candidate),
                        Some(index.manifest_path),
                        QuarantinePolicy::Manual,
                    )
                    &&& self.blocked@ == with_blocked(before.blocked@, sandbox_id)
                    &&& self.counted_quarantine(&before)
                }
            },
        }
    }

    /// Whether what an index resolved to led here.
    pub open spec fn resolution_taken(
        self,
        before: IndexReconciliation,
        entry: StoreEntry,
        index: PersistedPausedIndex,
        sandbox_id: SandboxId,
        resolved: PersistenceResult<PersistedPausedRecord>,
        stored: Option<StoredPausedSandboxQuarantine>,
    ) -> bool {
        &&& self.same_material(&before)
        &&& match resolved {
            Ok(record) => {
                &&& stored is None
                &&& self.selected@ == with_selected(
                    before.selected@,
                    SelectedRecord { sandbox_id, record },
                )
                &&& self.blocked == before.blocked
                &&& self.report == before.report
            },
            Err(error) => {
                &&& stored matches Some(stored)
                &&& quarantine::describes(
                    stored,
                    "paused sandbox index/manifest mismatch: "@ + error.shown(),
                    Some(entry.key@),
                    Some(entry.bytes@),
                    candidate_root(candidate_of(before.candidates@, sandbox_id)),
                    Some(index.manifest_path),
                    QuarantinePolicy::Manual,
                )
                &&& self.selected == before.selected
                &&& self.blocked@ == with_blocked(before.blocked@, sandbox_id)
                &&& self.counted_quarantine(&before)
            },
        }
    }

    /// Whether a decision about an entry that was not accepted led here.
    pub open spec fn invalid_entry_taken(
        self,
        before: IndexReconciliation,
        entry: StoreEntry,
        error: SandboxPersistenceError,
        stored: StoredPausedSandboxQuarantine,
    ) -> bool {
        &&& self.same_material(&before)
        &&& self.selected == before.selected
        &&& self.counted_quarantine(&before)
        &&& match repairable(before.candidates@, entry.key@, entry.bytes@) {
            Some(candidate) => {
                &&& quarantine::describes(
                    stored,
                    "malformed paused sandbox index rebuilt from coherent v2 manifest: "@
                        + error.shown(),
                    Some(entry.key@),
                    Some(entry.bytes@),
                    Some(candidate.record.artifact_root),
                    Some(candidate.path),
                    QuarantinePolicy::Nonblocking,
                )
                &&& self.blocked == before.blocked
            },
            None => {
                &&& quarantine::describes(
                    stored,
                    "invalid or unsupported paused sandbox record: "@ + error.shown(),
                    Some(entry.key@),
                    Some(entry.bytes@),
                    None,
                    None,
                    QuarantinePolicy::Manual,
                )
                &&& self.blocked@ == match reconciliation::key_sandbox(entry.key@) {
                    Some(sandbox_id) => with_blocked(before.blocked@, sandbox_id),
                    None => before.blocked@,
                }
            },
        }
    }

    /// Whether the search for a candidate that has to be indexed led here.
    pub open spec fn passed_to(
        self,
        before: IndexReconciliation,
        candidate: Option<ManifestEntry>,
    ) -> bool {
        &&& self.retire_after_selection == before.retire_after_selection
        &&& self.blocks == before.blocks
        &&& self.mode == before.mode
        &&& self.blocked == before.blocked
        &&& self.selected == before.selected
        &&& self.report == before.report
        &&& match candidate {
            Some(candidate) => exists|k: int|
                {
                    &&& 0 <= k < before.candidates@.len()
                    &&& candidate == #[trigger] before.candidates@[k]
                    &&& before.needs_index(candidate)
                    &&& self.candidates@ == before.candidates@.skip(k + 1)
                    &&& forall|j: int|
                        0 <= j < k ==> !before.needs_index(
                            #[trigger] before.candidates@[j],
                        )
                },
            None => self.candidates@.len() == 0 && forall|j: int|
                0 <= j < before.candidates@.len() ==> !before.needs_index(
                    #[trigger] before.candidates@[j],
                ),
        }
    }

    /// Whether the index of a candidate led here.
    pub open spec fn rebuilt(
        self,
        before: IndexReconciliation,
        candidate: ManifestEntry,
    ) -> bool {
        &&& self.same_material(&before)
        &&& self.blocked == before.blocked
        &&& self.report == (PausedSandboxRecoveryReport {
            indexed_manifests: (before.report.indexed_manifests + 1) as usize,
            ..before.report
        })
        &&& self.selected@ == with_selected(
            before.selected@,
            SelectedRecord { sandbox_id: candidate.id(), record: candidate.record },
        )
    }

    /// Decides about an entry that was accepted as an index. `managed` says whether its manifest
    /// is a managed path.
    pub fn reconcile_v2_index_entry(
        &mut self,
        entry: &StoreEntry,
        index: &PersistedPausedIndex,
        managed: bool,
    ) -> (decision: IndexDecision)
        requires
            old(self).report.quarantined_items < usize::MAX,
        ensures
            final(self).decided(*old(self), *entry, *index, managed, decision),
    {
        let sandbox_id = match sandbox_of_key(&entry.key) {
            Some(sandbox_id) => sandbox_id,
            None => {
                self.report.quarantined_items += 1;
                return IndexDecision::Quarantine {
                    entry: self.entry_about_index(
                        "paused sandbox index has a non-sandbox record key".to_owned(),
                        entry,
                        &None,
                        index,
                    ),
                };
            },
        };
        if has_id(&self.blocked, &sandbox_id) || self.blocks.contains_sandbox(&sandbox_id) {
            self.block(sandbox_id);
            return IndexDecision::Skip;
        }
        let position = find_candidate(&self.candidates, sandbox_id);
        let agrees = match position {
            Some(at) => index_matches_candidate(
                index,
                sandbox_id,
                managed,
                Some(&self.candidates[at]),
            ),
            None => index_matches_candidate(index, sandbox_id, managed, None),
        };
        if agrees {
            return IndexDecision::Resolve { sandbox_id };
        }
        let stored = self.entry_about_index(
            "paused sandbox index and manifest identity disagree".to_owned(),
            entry,
            &position,
            index,
        );
        self.report.quarantined_items += 1;
        self.block(sandbox_id);
        IndexDecision::Quarantine { entry: stored }
    }

    fn entry_about_index(
        &self,
        reason: String,
        entry: &StoreEntry,
        candidate: &Option<usize>,
        index: &PersistedPausedIndex,
    ) -> (stored: StoredPausedSandboxQuarantine)
        requires
            candidate matches Some(at) ==> at < self.candidates@.len(),
        ensures
            quarantine::describes(
                stored,
                reason@,
                Some(entry.key@),
                Some(entry.bytes@),
                match *candidate {
                    Some(at) => Some(self.candidates@[at as int].record.artifact_root),
                    None => None,
                },
                Some(index.manifest_path),
                QuarantinePolicy::Manual,
            ),
    {
        let root = match candidate {
            Some(at) => Some(self.candidates[*at].record.artifact_root.copy()),
            None => None,
        };
        quarantine::describe(
            reason,
            &Some(text::copy_bytes(&entry.key)),
            &Some(text::copy_bytes(&entry.bytes)),
            &root,
            &Some(index.manifest_path.copy()),
            QuarantinePolicy::Manual,
        )
    }

    /// Takes in what the index of a sandbox resolved to.
    pub fn take_resolved(
        &mut self,
        entry: &StoreEntry,
        index: &PersistedPausedIndex,
        sandbox_id: SandboxId,
        resolved: PersistenceResult<PersistedPausedRecord>,
    ) -> (stored: Option<StoredPausedSandboxQuarantine>)
        requires
            old(self).report.quarantined_items < usize::MAX,
        ensures
            final(self).resolution_taken(*old(self), *entry, *index, sandbox_id, resolved, stored),
    {
        match resolved {
            Ok(record) => {
                self.select(SelectedRecord { sandbox_id, record });
                None
            },
            Err(error) => {
                let position = find_candidate(&self.candidates, sandbox_id);
                let stored = self.entry_about_index(
                    text::concat2(
                        "paused sandbox index/manifest mismatch: ",
                        error.to_text().as_str(),
                    ),
                    entry,
                    &position,
                    index,
                );
                self.report.quarantined_items += 1;
                self.block(sandbox_id);
                Some(stored)
            },
        }
    }

    fn select(&mut self, record: SelectedRecord)
        ensures
            final(self).same_material(old(self)),
            final(self).blocked == old(self).blocked,
            final(self).report == old(self).report,
            final(self).selected@ == with_selected(old(self).selected@, record),
    {
        let mut at: usize = 0;
        while at < self.selected.len()
            invariant
                at <= self.selected@.len(),
                *self == *old(self),
                selected_position(self.selected@, record.sandbox_id, 0) == selected_position(
                    self.selected@,
                    record.sandbox_id,
                    at as int,
                ),
            decreases self.selected@.len() - at,
        {
            if self.selected[at].sandbox_id == record.sandbox_id {
                self.selected.set(at, record);
                return;
            }
            at += 1;
        }
        self.selected.push(record);
    }

    /// Decides about an entry that was not accepted as an index. A coherent manifest of the same
    /// sandbox that nothing in the entry contradicts takes its place; its bytes are kept.
    pub fn reconcile_invalid_index_entry(
        &mut self,
        entry: &StoreEntry,
        error: &SandboxPersistenceError,
    ) -> (stored: StoredPausedSandboxQuarantine)
        requires
            old(self).report.quarantined_items < usize::MAX,
        ensures
            final(self).invalid_entry_taken(*old(self), *entry, *error, stored),
    {
        self.report.quarantined_items += 1;
        let key = Some(text::copy_bytes(&entry.key));
        let bytes = Some(text::copy_bytes(&entry.bytes));
        let key_id = sandbox_of_key(&entry.key);
        if let Some(sandbox_id) = key_id {
            if let Some(at) = find_candidate(&self.candidates, sandbox_id) {
                let candidate = &self.candidates[at];
                if raw_index_can_be_rebuilt_from_manifest(&entry.bytes, &sandbox_id, candidate) {
                    return quarantine::describe(
                        text::concat2(
                            "malformed paused sandbox index rebuilt from coherent v2 manifest: ",
                            error.to_text().as_str(),
                        ),
                        &key,
                        &bytes,
                        &Some(candidate.record.artifact_root.copy()),
                        &Some(candidate.path.copy()),
                        QuarantinePolicy::Nonblocking,
                    );
                }
            }
        }
        let stored = quarantine::describe(
            text::concat2(
                "invalid or unsupported paused sandbox record: ",
                error.to_text().as_str(),
            ),
            &key,
            &bytes,
            &None,
            &None,
            QuarantinePolicy::Manual,
        );
        if let Some(sandbox_id) = key_id {
            self.block(sandbox_id);
        }
        stored
    }

    /// Whether a candidate still has to be indexed.
    pub open spec fn needs_index(&self, candidate: ManifestEntry) -> bool {
        &&& !is_selected(self.selected@, candidate.id())
        &&& !self.blocked@.contains(candidate.id())
        &&& !self.blocks.blocks_manifest(&candidate)
    }

    /// The next candidate that has to be indexed, once every entry has been decided about.
    pub fn rebuild_missing_manifest_index(&mut self) -> (candidate: Option<ManifestEntry>)
        ensures
            final(self).passed_to(*old(self), candidate),
    {
        let ghost all = self.candidates@;
        let ghost start = *self;
        let ghost mut passed: int = 0;
        assert(all.skip(0) =~= all);
        while self.candidates.len() > 0
            invariant
                0 <= passed <= all.len(),
                self.candidates@ == all.skip(passed),
                all == start.candidates@,
                start == *old(self),
                self.retire_after_selection == start.retire_after_selection,
                self.blocks == start.blocks,
                self.mode == start.mode,
                self.blocked == start.blocked,
                self.selected == start.selected,
                self.report == start.report,
                forall|j: int| 0 <= j < passed ==> !start.needs_index(#[trigger] all[j]),
            decreases self.candidates@.len(),
        {
            let candidate = self.candidates.remove(0);
            assert(candidate == all[passed]);
            assert(self.candidates@ =~= all.skip(passed + 1));
            let id = candidate.sandbox_id();
            let settled = self.has_selected(id) || has_id(&self.blocked, &id)
                || self.blocks.contains_manifest(&candidate);
            if !settled {
                assert(start.needs_index(candidate));
                assert(candidate == old(self).candidates@[passed]);
                return Some(candidate);
            }
            assert(!start.needs_index(all[passed]));
            proof {
                passed = passed + 1;
            }
        }
        None
    }

    /// Takes in that a candidate was indexed.
    pub fn take_rebuilt(&mut self, candidate: ManifestEntry)
        requires
            old(self).report.indexed_manifests < usize::MAX,
        ensures
            final(self).rebuilt(*old(self), candidate),
    {
        self.report.indexed_manifests += 1;
        let sandbox_id = candidate.sandbox_id();
        self.select(SelectedRecord { sandbox_id, record: candidate.record });
    }

    /// Whether superfluous generations may go: a node starts, their sandbox goes by another one, and
    /// nothing blocks it or them.
    pub open spec fn may_retire(&self, retirable: RetirableGenerations) -> bool {
        &&& self.mode is Startup
        &&& is_selected(self.selected@, retirable.sandbox_id)
        &&& !self.blocked@.contains(retirable.sandbox_id)
        &&& retirable.artifact_roots@.len() > 0 ==> !self.blocks.sandbox_ids@.contains(
            retirable.sandbox_id,
        )
        &&& forall|k: int|
            0 <= k < retirable.artifact_roots@.len() ==> !quarantine::holds_path(
                self.blocks.artifact_roots@,
                (#[trigger] retirable.artifact_roots@[k])@,
            )
    }

    pub fn retire_selected_generations(&self, retirable: &RetirableGenerations) -> (answer: bool)
        ensures
            answer == self.may_retire(*retirable),
    {
        if self.mode != WalkMode::Startup {
            return false;
        }
        if !self.has_selected(retirable.sandbox_id) || has_id(&self.blocked, &retirable.sandbox_id) {
            return false;
        }
        let mut at: usize = 0;
        while at < retirable.artifact_roots.len()
            invariant
                at <= retirable.artifact_roots@.len(),
                self.mode is Startup,
                is_selected(self.selected@, retirable.sandbox_id),
                !self.blocked@.contains(retirable.sandbox_id),
                at > 0 ==> !self.blocks.sandbox_ids@.contains(retirable.sandbox_id),
                forall|k: int|
                    0 <= k < at ==> !quarantine::holds_path(
                        self.blocks.artifact_roots@,
                        (#[trigger] retirable.artifact_roots@[k])@,
                    ),
            decreases retirable.artifact_roots@.len() - at,
        {
            if self.blocks.contains_record(&retirable.sandbox_id, &retirable.artifact_roots[at]) {
                return false;
            }
            at += 1;
        }
        true
    }
}

/// The generation to remove, where it has been validated as one of its sandbox.
pub fn retire_reconciled_generation(sandbox_id: SandboxId, validated: Option<StorePath>) -> (outcome:
    PersistenceResult<StorePath>)
    ensures
        match validated {
            Some(path) => outcome == Ok::<StorePath, SandboxPersistenceError>(path),
            None => outcome matches Err(error) && error.is_invalid(
                RecordFault::RetireOutsideSandbox { sandbox_id },
            ),
        },
{
    match validated {
        Some(path) => Ok(path),
        None => Err(
            SandboxPersistenceError::invalid(RecordFault::RetireOutsideSandbox { sandbox_id }),
        ),
    }
}

proof fn blocked_contains(blocked: Seq<SandboxId>, added: SandboxId, id: SandboxId)
    ensures
        with_blocked(blocked, added).contains(id) <==> blocked.contains(id) || added == id,
{
    let next = with_blocked(blocked, added);
    if blocked.contains(id) {
        let k = choose|k: int| 0 <= k < blocked.len() && blocked[k] == id;
        assert(next[k] == id);
    }
    if added == id && !blocked.contains(added) {
        assert(next[blocked.len() as int] == id);
    }
    if next.contains(id) && added != id {
        let k = choose|k: int| 0 <= k < next.len() && next[k] == id;
        assert(blocked[k] == id);
    }
}

/// The position of the record selected for a sandbox among those from `from` on.
pub open spec fn selected_position(
    selected: Seq<SelectedRecord>,
    sandbox_id: SandboxId,
    from: int,
) -> Option<int>
    decreases selected.len() - from,
{
    if from >= selected.len() {
        None
    } else if selected[from].sandbox_id == sandbox_id {
        Some(from)
    } else {
        selected_position(selected, sandbox_id, from + 1)
    }
}

/// The selection with one more record, which takes the place of an earlier one for its sandbox.
pub open spec fn with_selected(selected: Seq<SelectedRecord>, record: SelectedRecord) -> Seq<
    SelectedRecord,
> {
    match selected_position(selected, record.sandbox_id, 0) {
        Some(at) => selected.update(at, record),
        None => selected.push(record),
    }
}

/// The candidate that may take the place of an unusable entry.
pub open spec fn repairable(
    candidates: Seq<ManifestEntry>,
    key: Seq<u8>,
    bytes: Seq<u8>,
) -> Option<ManifestEntry> {
    match reconciliation::key_sandbox(key) {
        Some(sandbox_id) => match candidate_of(candidates, sandbox_id) {
            Some(candidate) => if reconciliation::may_be_rebuilt(bytes, sandbox_id, candidate.path@) {
                Some(candidate)
            } else {
                None
            },
            None => None,
        },
        None => None,
    }
}

// ---------------------------------------------------------------------------------------------
// Laws
// ---------------------------------------------------------------------------------------------

/// A blocked sandbox is never indexed from its manifest, and none of its generations is retired.
pub proof fn blocked_sandboxes_are_left_alone(
    walk: IndexReconciliation,
    candidate: ManifestEntry,
    retirable: RetirableGenerations,
)
    requires
        walk.blocked@.contains(candidate.id()),
        retirable.sandbox_id == candidate.id(),
    ensures
        !walk.needs_index(candidate),
        !walk.may_retire(retirable),
{
}

/// A sandbox stays blocked for the rest of the walk.
pub proof fn blocking_is_permanent(blocked: Seq<SandboxId>, added: SandboxId, id: SandboxId)
    requires
        blocked.contains(id),
    ensures
        with_blocked(blocked, added).contains(id),
{
    blocked_contains(blocked, added, id);
}

/// A sandbox has at most one selected record, however often one is selected for it.
pub proof fn selections_are_unique(selected: Seq<SelectedRecord>, record: SelectedRecord)
    requires
        forall|i: int, j: int|
            0 <= i < j < selected.len() ==> (#[trigger] selected[i]).sandbox_id != (
            #[trigger] selected[j]).sandbox_id,
    ensures
        forall|i: int, j: int|
            0 <= i < j < with_selected(selected, record).len() ==> (#[trigger] with_selected(
                selected,
                record,
            )[i]).sandbox_id != (#[trigger] with_selected(selected, record)[j]).sandbox_id,
        is_selected(with_selected(selected, record), record.sandbox_id),
{
    selected_position_is_first(selected, record.sandbox_id, 0);
    let next = with_selected(selected, record);
    match selected_position(selected, record.sandbox_id, 0) {
        Some(at) => {
            assert(next[at].sandbox_id == record.sandbox_id);
        },
        None => {
            assert(next[selected.len() as int].sandbox_id == record.sandbox_id);
        },
    }
}

pub(crate) proof fn a_selection_is_selected(selected: Seq<SelectedRecord>, record: SelectedRecord)
    ensures
        is_selected(with_selected(selected, record), record.sandbox_id),
{
    selected_position_is_first(selected, record.sandbox_id, 0);
    let next = with_selected(selected, record);
    match selected_position(selected, record.sandbox_id, 0) {
        Some(at) => {
            assert(next[at].sandbox_id == record.sandbox_id);
        },
        None => {
            assert(next[selected.len() as int].sandbox_id == record.sandbox_id);
        },
    }
}

proof fn selected_position_is_first(selected: Seq<SelectedRecord>, sandbox_id: SandboxId, from: int)
    requires
        0 <= from <= selected.len(),
    ensures
        match selected_position(selected, sandbox_id, from) {
            Some(at) => from <= at < selected.len() && selected[at].sandbox_id == sandbox_id,
            None => forall|k: int|
                from <= k < selected.len() ==> (#[trigger] selected[k]).sandbox_id != sandbox_id,
        },
    decreases selected.len() - from,
{
    if from < selected.len() && selected[from].sandbox_id != sandbox_id {
        selected_position_is_first(selected, sandbox_id, from + 1);
    }
}

proof fn candidate_is_first(candidates: Seq<ManifestEntry>, sandbox_id: SandboxId, from: int)
    requires
        0 <= from <= candidates.len(),
    ensures
        match candidate_position(candidates, sandbox_id, from) {
            Some(at) => from <= at < candidates.len() && candidates[at].id() == sandbox_id && forall|k:
                int| from <= k < at ==> (#[trigger] candidates[k]).id() != sandbox_id,
            None => forall|k: int|
                from <= k < candidates.len() ==> (#[trigger] candidates[k]).id() != sandbox_id,
        },
    decreases candidates.len() - from,
{
    if from < candidates.len() && candidates[from].id() != sandbox_id {
        candidate_is_first(candidates, sandbox_id, from + 1);
    }
}

/// The candidate of a sandbox is the first that is about it, and there is none where none is.
pub proof fn candidates_are_found_by_sandbox(
    candidates: Seq<ManifestEntry>,
    sandbox_id: SandboxId,
    at: int,
)
    requires
        0 <= at < candidates.len(),
    ensures
        candidates[at].record.metadata.id == sandbox_id && (forall|k: int|
            0 <= k < at ==> (#[trigger] candidates[k]).record.metadata.id != sandbox_id)
            ==> candidate_of(candidates, sandbox_id) == Some(candidates[at]),
        candidate_of(candidates, sandbox_id) is None ==> candidates[at].record.metadata.id
            != sandbox_id,
        candidate_of(candidates, sandbox_id) matches Some(found) ==> found.record.metadata.id
            == sandbox_id,
{
    candidate_is_first(candidates, sandbox_id, 0);
    match candidate_position(candidates, sandbox_id, 0) {
        Some(found) => {
            if found < at {
                assert(candidates[found].record.metadata.id == sandbox_id);
            } else if at < found {
                assert(candidates[at].id() != sandbox_id);
            }
        },
        None => {
            assert(candidates[at].id() != sandbox_id);
        },
    }
}

/// An index is gone by where it is of the current version, about the sandbox that its key names and
/// about a managed manifest, and where the candidate of the sandbox, if any, is what it names; it is
/// left alone where the sandbox is blocked; and in every other case it is put in quarantine, and its
/// sandbox is blocked. Nothing else of the walk changes.
pub proof fn indexes_are_decided_about(
    after: IndexReconciliation,
    before: IndexReconciliation,
    entry: StoreEntry,
    index: PersistedPausedIndex,
    managed: bool,
    decision: IndexDecision,
    sandbox_id: SandboxId,
)
    requires
        after.decided(before, entry, index, managed, decision),
    ensures
        after.candidates == before.candidates,
        after.retire_after_selection == before.retire_after_selection,
        after.blocks == before.blocks,
        after.mode == before.mode,
        after.selected == before.selected,
        decision is Quarantine ==> after.report.quarantined_items as int
            == (before.report.quarantined_items + 1) as usize && after.report.indexed_manifests
            == before.report.indexed_manifests && after.report.reconciled_quarantines
            == before.report.reconciled_quarantines && decision->entry.requires_manual_recovery
            && decision->entry.manifest_path is Some && decision->entry.manifest_path->0@
            == index.manifest_path@ && decision->entry.record_sha256 is Some
            && decision->entry.record_sha256->0@ == crate::digest::sha256_hex_of(entry.bytes@),
        !(decision is Quarantine) ==> after.report == before.report,
        reconciliation::key_sandbox(entry.key@) is None ==> decision is Quarantine && after.blocked
            == before.blocked,
        reconciliation::key_sandbox(entry.key@) == Some(sandbox_id) ==> {
            let blocked = before.blocked@.contains(sandbox_id)
                || before.blocks.sandbox_ids@.contains(sandbox_id);
            let candidate = candidate_of(before.candidates@, sandbox_id);
            let agrees = index.index_version == 2 && index.sandbox_id == sandbox_id && managed && (
            candidate is None || (candidate->0.record.metadata.id == sandbox_id
                && candidate->0.path@ == index.manifest_path@ && crate::digest::sha256_hex_of(
                candidate->0.bytes@,
            ) == index.manifest_sha256@));
            &&& blocked ==> decision is Skip && after.blocked@.contains(sandbox_id)
            &&& !blocked && agrees ==> decision == (IndexDecision::Resolve { sandbox_id })
                && after.blocked == before.blocked
            &&& !blocked && !agrees ==> decision is Quarantine && after.blocked@.contains(sandbox_id)
        },
{
    if reconciliation::key_sandbox(entry.key@) == Some(sandbox_id) {
        blocked_contains(before.blocked@, sandbox_id, sandbox_id);
        candidate_is_first(before.candidates@, sandbox_id, 0);
    }
}

/// A record that an index leads to is gone by; where it leads to none, the index is put in quarantine
/// and the sandbox is blocked.
pub proof fn resolved_records_are_gone_by(
    after: IndexReconciliation,
    before: IndexReconciliation,
    entry: StoreEntry,
    index: PersistedPausedIndex,
    sandbox_id: SandboxId,
    resolved: PersistenceResult<PersistedPausedRecord>,
    stored: Option<StoredPausedSandboxQuarantine>,
    other: SelectedRecord,
)
    requires
        after.resolution_taken(before, entry, index, sandbox_id, resolved, stored),
    ensures
        after.candidates == before.candidates,
        after.retire_after_selection == before.retire_after_selection,
        after.blocks == before.blocks,
        after.mode == before.mode,
        resolved matches Ok(record) ==> {
            &&& stored is None
            &&& after.selected@.contains(SelectedRecord { sandbox_id, record })
            &&& after.blocked == before.blocked
            &&& after.report == before.report
            &&& other.sandbox_id != sandbox_id ==> (after.selected@.contains(other)
                <==> before.selected@.contains(other))
        },
        resolved is Err ==> {
            &&& stored is Some
            &&& stored->0.requires_manual_recovery
            &&& stored->0.record_sha256->0@ == crate::digest::sha256_hex_of(entry.bytes@)
            &&& after.selected == before.selected
            &&& after.blocked@.contains(sandbox_id)
            &&& after.report.quarantined_items == (before.report.quarantined_items + 1) as usize
        },
{
    match resolved {
        Ok(record) => {
            selections_take_the_place_of_earlier_ones(
                before.selected@,
                SelectedRecord { sandbox_id, record },
                other,
            );
        },
        Err(_) => {
            blocked_contains(before.blocked@, sandbox_id, sandbox_id);
        },
    }
}

/// A record that is selected is there, takes the place of the first one of its sandbox, and leaves
/// those of all other sandboxes.
pub proof fn selections_take_the_place_of_earlier_ones(
    selected: Seq<SelectedRecord>,
    record: SelectedRecord,
    other: SelectedRecord,
)
    ensures
        with_selected(selected, record).contains(record),
        other.sandbox_id != record.sandbox_id ==> (with_selected(selected, record).contains(other)
            <==> selected.contains(other)),
        is_selected(selected, record.sandbox_id) ==> with_selected(selected, record).len()
            == selected.len(),
        !is_selected(selected, record.sandbox_id) ==> with_selected(selected, record)
            == selected.push(record),
{
    selected_position_is_first(selected, record.sandbox_id, 0);
    let next = with_selected(selected, record);
    match selected_position(selected, record.sandbox_id, 0) {
        Some(at) => {
            assert(next[at] == record);
            assert(is_selected(selected, record.sandbox_id));
            if selected.contains(other) && other.sandbox_id != record.sandbox_id {
                let k = choose|k: int| 0 <= k < selected.len() && selected[k] == other;
                assert(next[k] == other);
            }
            if next.contains(other) && other.sandbox_id != record.sandbox_id {
                let k = choose|k: int| 0 <= k < next.len() && next[k] == other;
                assert(selected[k] == other);
            }
        },
        None => {
            assert(next[selected.len() as int] == record);
            if selected.contains(other) {
                let k = choose|k: int| 0 <= k < selected.len() && selected[k] == other;
                assert(next[k] == other);
            }
            if next.contains(other) && other.sandbox_id != record.sandbox_id {
                let k = choose|k: int| 0 <= k < next.len() && next[k] == other;
                assert(selected[k] == other);
            }
        },
    }
}

/// An entry that cannot be used is kept with its bytes. It blocks nothing where a candidate of its
/// sandbox may take its place, which is then where it points; else it awaits an administrator, and
/// the sandbox that its key names is blocked.
pub proof fn unusable_entries_are_kept(
    after: IndexReconciliation,
    before: IndexReconciliation,
    entry: StoreEntry,
    error: SandboxPersistenceError,
    stored: StoredPausedSandboxQuarantine,
    sandbox_id: SandboxId,
)
    requires
        after.invalid_entry_taken(before, entry, error, stored),
    ensures
        after.candidates == before.candidates,
        after.retire_after_selection == before.retire_after_selection,
        after.blocks == before.blocks,
        after.mode == before.mode,
        after.selected == before.selected,
        after.report.quarantined_items == (before.report.quarantined_items + 1) as usize,
        stored.record_sha256 is Some && stored.record_sha256->0@ == crate::digest::sha256_hex_of(
            entry.bytes@,
        ),
        reconciliation::key_sandbox(entry.key@) is None ==> stored.requires_manual_recovery
            && after.blocked@ == before.blocked@,
        reconciliation::key_sandbox(entry.key@) == Some(sandbox_id) ==> {
            let candidate = candidate_of(before.candidates@, sandbox_id);
            let replaced = candidate is Some && reconciliation::may_be_rebuilt(
                entry.bytes@,
                sandbox_id,
                candidate->0.path@,
            );
            &&& replaced ==> !stored.requires_manual_recovery && after.blocked == before.blocked
                && stored.manifest_path->0@ == candidate->0.path@ && stored.artifact_root->0@
                == candidate->0.record.artifact_root@
            &&& !replaced ==> stored.requires_manual_recovery && after.blocked@.contains(sandbox_id)
        },
{
    if reconciliation::key_sandbox(entry.key@) == Some(sandbox_id) {
        blocked_contains(before.blocked@, sandbox_id, sandbox_id);
    }
}

/// A candidate is indexed where no record of its sandbox is gone by and neither it nor its sandbox is
/// blocked; it is then gone by, and counted.
pub proof fn missing_indexes_are_rebuilt(
    walk: IndexReconciliation,
    candidate: ManifestEntry,
    after: IndexReconciliation,
)
    ensures
        walk.needs_index(candidate) <==> {
            &&& forall|k: int|
                0 <= k < walk.selected@.len() ==> (#[trigger] walk.selected@[k]).sandbox_id
                    != candidate.record.metadata.id
            &&& !walk.blocked@.contains(candidate.record.metadata.id)
            &&& !walk.blocks.blocks_manifest(&candidate)
        },
        after.rebuilt(walk, candidate) ==> {
            &&& after.candidates == walk.candidates
            &&& after.retire_after_selection == walk.retire_after_selection
            &&& after.blocks == walk.blocks
            &&& after.mode == walk.mode
            &&& after.blocked == walk.blocked
            &&& after.report.indexed_manifests == (walk.report.indexed_manifests + 1) as usize
            &&& after.report.quarantined_items == walk.report.quarantined_items
            &&& after.selected@.contains(
                SelectedRecord {
                    sandbox_id: candidate.record.metadata.id,
                    record: candidate.record,
                },
            )
        },
{
    let chosen = SelectedRecord { sandbox_id: candidate.id(), record: candidate.record };
    selections_take_the_place_of_earlier_ones(walk.selected@, chosen, chosen);
}

/// The candidates are looked at in their order: the next one to be indexed is the first that needs an
/// index, and those before it are passed over.
pub proof fn candidates_are_indexed_in_order(
    after: IndexReconciliation,
    before: IndexReconciliation,
    candidate: Option<ManifestEntry>,
)
    requires
        after.passed_to(before, candidate),
    ensures
        after.blocked == before.blocked && after.selected == before.selected && after.report
            == before.report && after.mode == before.mode && after.blocks == before.blocks
            && after.retire_after_selection == before.retire_after_selection,
        candidate matches Some(found) ==> before.candidates@.contains(found) && before.needs_index(found)
            && after.candidates@.len() < before.candidates@.len(),
        candidate is None ==> after.candidates@.len() == 0,
        before.candidates@.len() > 0 && before.needs_index(before.candidates@[0]) ==> candidate == Some(
            before.candidates@[0],
        ) && after.candidates@ == before.candidates@.drop_first(),
{
    if before.candidates@.len() > 0 && before.needs_index(before.candidates@[0]) {
        assert(before.candidates@.drop_first() =~= before.candidates@.skip(1));
    }
}

/// Generations go only at startup, only where a record of their sandbox is gone by, and only where
/// neither the sandbox nor any of them is blocked; and then they do.
pub proof fn superseded_generations_go_at_startup(
    walk: IndexReconciliation,
    retirable: RetirableGenerations,
    at: int,
)
    ensures
        walk.mode is ManualRecovery ==> !walk.may_retire(retirable),
        walk.may_retire(retirable) ==> {
            &&& exists|k: int|
                0 <= k < walk.selected@.len() && (#[trigger] walk.selected@[k]).sandbox_id
                    == retirable.sandbox_id
            &&& !walk.blocked@.contains(retirable.sandbox_id)
            &&& 0 <= at < retirable.artifact_roots@.len() ==> !walk.blocks.sandbox_ids@.contains(
                retirable.sandbox_id,
            ) && !quarantine::holds_path(
                walk.blocks.artifact_roots@,
                retirable.artifact_roots@[at]@,
            )
        },
        walk.mode is Startup && (exists|k: int|
            0 <= k < walk.selected@.len() && (#[trigger] walk.selected@[k]).sandbox_id
                == retirable.sandbox_id) && !walk.blocked@.contains(retirable.sandbox_id)
            && walk.blocks.sandbox_ids@.len() == 0 && walk.blocks.artifact_roots@.len() == 0
            ==> walk.may_retire(retirable),
{
}

/// An index that is set aside, because it disagrees or because its record cannot be used, is set aside
/// together with the generation of the manifest that is a candidate for its sandbox, where there is
/// one.
pub proof fn set_aside_indexes_name_the_candidate(
    after: IndexReconciliation,
    before: IndexReconciliation,
    entry: StoreEntry,
    index: PersistedPausedIndex,
    managed: bool,
    decision: IndexDecision,
    sandbox_id: SandboxId,
    resolved: PersistenceResult<PersistedPausedRecord>,
    stored: Option<StoredPausedSandboxQuarantine>,
)
    ensures
        after.decided(before, entry, index, managed, decision) && reconciliation::key_sandbox(entry.key@)
            == Some(sandbox_id) ==> (decision matches IndexDecision::Quarantine { entry: kept } ==> match candidate_of(
            before.candidates@,
            sandbox_id,
        ) {
            Some(candidate) => kept.artifact_root is Some && kept.artifact_root->0@
                == candidate.record.artifact_root@,
            None => kept.artifact_root is None,
        }),
        after.resolution_taken(before, entry, index, sandbox_id, resolved, stored) && resolved is Err
            ==> stored is Some && match candidate_of(before.candidates@, sandbox_id) {
            Some(candidate) => stored->0.artifact_root is Some && stored->0.artifact_root->0@
                == candidate.record.artifact_root@,
            None => stored->0.artifact_root is None,
        },
{
}

} // verus!
