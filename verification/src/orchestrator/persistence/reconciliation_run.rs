//! The order in which the record store is gone through: every entry is decided about before any
//! index is rebuilt, and every index is rebuilt before any generation goes.

use crate::ids::SandboxId;
use crate::orchestrator::persistence::codecs::{ManifestEntry, PersistedPausedRecord};
use crate::orchestrator::persistence::error::{PersistenceResult, SandboxPersistenceError};
use crate::orchestrator::persistence::index_reconciliation;
use crate::orchestrator::persistence::index_reconciliation::{
    IndexDecision, IndexReconciliation, PausedSandboxRecoveryReport, SelectedRecord, WalkMode,
};
use crate::orchestrator::persistence::quarantine::StoredPausedSandboxQuarantine;
use crate::orchestrator::persistence::reconciliation;
use crate::orchestrator::persistence::reconciliation::StoreEntry;
use vstd::prelude::*;

verus! {

/// What going through the record store does next.
#[derive(Debug)]
#[allow(inconsistent_fields)]
pub enum ReconcileStep {
    /// Find out whether the manifest that the index at this position names is a managed path.
    Inspect { at: usize },
    /// Resolve the index at this position.
    Resolve { at: usize, sandbox_id: SandboxId },
    /// Store an entry about what stands at this position.
    Store { at: usize, entry: StoredPausedSandboxQuarantine },
    /// Write the index of a candidate.
    Index { candidate: ManifestEntry },
    /// Mark the generation of a candidate whose index may or may not have been written.
    Recover { candidate: ManifestEntry, source: SandboxPersistenceError },
    /// Remove one of the superseded generations of a sandbox.
    Retire { at: usize, generation: usize },
    Finished,
    Failed { error: SandboxPersistenceError },
}

/// What came of a step.
#[derive(Debug)]
pub enum ReconcileEvent {
    Inspected { managed: bool },
    Resolved { resolved: PersistenceResult<PersistedPausedRecord> },
    Done,
    Failed { error: SandboxPersistenceError },
}

/// A walk through the record store, with the entries that were found there.
#[derive(Debug)]
pub struct ReconcileRun {
    pub entries: Vec<StoreEntry>,
    pub walk: IndexReconciliation,
    pub step: ReconcileStep,
}

/// The next generation that goes, from one of those of a sandbox on.
pub open spec fn retire_step(walk: IndexReconciliation, at: int, generation: int) -> ReconcileStep
    decreases walk.retire_after_selection@.len() - at,
{
    if at >= walk.retire_after_selection@.len() {
        ReconcileStep::Finished
    } else {
        let retirable = walk.retire_after_selection@[at];
        if walk.may_retire(retirable) && generation < retirable.artifact_roots@.len() {
            ReconcileStep::Retire { at: at as usize, generation: generation as usize }
        } else {
            retire_step(walk, at + 1, 0)
        }
    }
}

impl ReconcileRun {
    /// Whether this run is the given one with another state of the walk and another step.
    pub open spec fn comes_to(
        self,
        before: ReconcileRun,
        walk: IndexReconciliation,
        step: ReconcileStep,
    ) -> bool {
        self == ReconcileRun { walk, step, ..before }
    }

    /// Whether this run goes on with the indexes to rebuild.
    pub open spec fn seeks_candidates(self, before: ReconcileRun, walk: IndexReconciliation) -> bool {
        exists|candidate: Option<ManifestEntry>, after: IndexReconciliation|
            {
                &&& #[trigger] after.passed_to(walk, candidate)
                &&& match candidate {
                    Some(candidate) => self.comes_to(
                        before,
                        after,
                        ReconcileStep::Index { candidate },
                    ),
                    None => self.comes_to(before, after, retire_step(after, 0, 0)),
                }
            }
    }

    /// Whether this run goes on with the entry at a position, or with the indexes to rebuild where
    /// there is none.
    pub open spec fn seeks_entry(self, before: ReconcileRun, walk: IndexReconciliation, at: int) -> bool {
        if at < before.entries@.len() {
            match before.entries@[at].index {
                Ok(_) => self.comes_to(before, walk, ReconcileStep::Inspect { at: at as usize }),
                Err(error) => exists|stored: StoredPausedSandboxQuarantine|
                    {
                        &&& #[trigger] self.walk.invalid_entry_taken(
                            walk,
                            before.entries@[at],
                            error,
                            stored,
                        )
                        &&& self.comes_to(
                            before,
                            self.walk,
                            ReconcileStep::Store { at: at as usize, entry: stored },
                        )
                    },
            }
        } else {
            self.seeks_candidates(before, walk)
        }
    }

    /// Whether an event leads from a run to this one.
    pub open spec fn follows(self, before: ReconcileRun, event: ReconcileEvent) -> bool {
        match (before.step, event) {
            (ReconcileStep::Inspect { at }, ReconcileEvent::Inspected { managed }) => {
                exists|decision: IndexDecision, after: IndexReconciliation|
                    {
                        &&& #[trigger] after.decided(
                            before.walk,
                            before.entries@[at as int],
                            before.entries@[at as int].index->Ok_0,
                            managed,
                            decision,
                        )
                        &&& match decision {
                            IndexDecision::Skip => self.seeks_entry(before, after, at + 1),
                            IndexDecision::Quarantine { entry } => self.comes_to(
                                before,
                                after,
                                ReconcileStep::Store { at, entry },
                            ),
                            IndexDecision::Resolve { sandbox_id } => self.comes_to(
                                before,
                                after,
                                ReconcileStep::Resolve { at, sandbox_id },
                            ),
                        }
                    }
            },
            (ReconcileStep::Resolve { at, sandbox_id }, ReconcileEvent::Resolved { resolved }) => {
                exists|stored: Option<StoredPausedSandboxQuarantine>, after: IndexReconciliation|
                    {
                        &&& #[trigger] after.resolution_taken(
                            before.walk,
                            before.entries@[at as int],
                            before.entries@[at as int].index->Ok_0,
                            sandbox_id,
                            resolved,
                            stored,
                        )
                        &&& match stored {
                            Some(entry) => self.comes_to(
                                before,
                                after,
                                ReconcileStep::Store { at, entry },
                            ),
                            None => self.seeks_entry(before, after, at + 1),
                        }
                    }
            },
            (ReconcileStep::Store { at, .. }, ReconcileEvent::Done) => self.seeks_entry(
                before,
                before.walk,
                at + 1,
            ),
            (ReconcileStep::Index { candidate }, ReconcileEvent::Done) => {
                exists|after: IndexReconciliation|
                    {
                        &&& #[trigger] after.rebuilt(before.walk, candidate)
                        &&& self.seeks_candidates(before, after)
                    }
            },
            (ReconcileStep::Index { candidate }, ReconcileEvent::Failed { error }) => self.comes_to(
                before,
                before.walk,
                ReconcileStep::Recover { candidate, source: error },
            ),
            (ReconcileStep::Retire { at, generation }, ReconcileEvent::Done) => self.comes_to(
                before,
                before.walk,
                retire_step(before.walk, at as int, generation + 1),
            ),
            // A generation that cannot be removed keeps the others of its sandbox.
            (ReconcileStep::Retire { at, .. }, ReconcileEvent::Failed { .. }) => self.comes_to(
                before,
                before.walk,
                retire_step(before.walk, at + 1, 0),
            ),
            (
                ReconcileStep::Inspect { .. }
                | ReconcileStep::Resolve { .. }
                | ReconcileStep::Store { .. }
                | ReconcileStep::Recover { .. },
                ReconcileEvent::Failed { error },
            ) => self.comes_to(before, before.walk, ReconcileStep::Failed { error }),
            _ => self == before,
        }
    }

    /// Every position is one of an entry, of an index or of a generation, and the counts of the
    /// report cannot overflow.
    pub open spec fn is_sound(self) -> bool {
        let quarantined = self.walk.report.quarantined_items as int;
        let left = self.entries@.len() as int;
        &&& self.walk.report.indexed_manifests + self.walk.candidates@.len() <= usize::MAX
        &&& match self.step {
            ReconcileStep::Inspect { at } => at < left && self.entries@[at as int].index is Ok
                && quarantined + left - at <= usize::MAX,
            ReconcileStep::Resolve { at, .. } => at < left && self.entries@[at as int].index is Ok
                && quarantined + left - at <= usize::MAX,
            ReconcileStep::Store { at, .. } => at < left && quarantined + left - at - 1
                <= usize::MAX,
            ReconcileStep::Index { .. } => self.walk.report.indexed_manifests
                + self.walk.candidates@.len() < usize::MAX,
            ReconcileStep::Retire { at, generation } => {
                &&& at < self.walk.retire_after_selection@.len()
                &&& generation < self.walk.retire_after_selection@[at as int].artifact_roots@.len()
                &&& self.walk.may_retire(self.walk.retire_after_selection@[at as int])
            },
            _ => true,
        }
    }

    fn retire_from(self, first: usize, generation: usize) -> (next: ReconcileRun)
        requires
            self.walk.report.indexed_manifests + self.walk.candidates@.len() <= usize::MAX,
        ensures
            next.comes_to(self, self.walk, retire_step(self.walk, first as int, generation as int)),
            next.is_sound(),
    {
        let mut run = self;
        let mut at: usize = first;
        let mut next: usize = generation;
        while at < run.walk.retire_after_selection.len()
            invariant
                run == self,
                retire_step(self.walk, at as int, next as int) == retire_step(
                    self.walk,
                    first as int,
                    generation as int,
                ),
                self.walk.report.indexed_manifests + self.walk.candidates@.len() <= usize::MAX,
            decreases run.walk.retire_after_selection@.len() - at,
        {
            let retirable = &run.walk.retire_after_selection[at];
            if run.walk.retire_selected_generations(retirable) && next
                < retirable.artifact_roots.len() {
                run.step = ReconcileStep::Retire { at, generation: next };
                return run;
            }
            at += 1;
            next = 0;
        }
        run.step = ReconcileStep::Finished;
        run
    }

    fn seek_candidate(self) -> (next: ReconcileRun)
        requires
            self.walk.report.indexed_manifests + self.walk.candidates@.len() <= usize::MAX,
        ensures
            next.seeks_candidates(self, self.walk),
            next.is_sound(),
    {
        let mut run = self;
        let candidate = run.walk.rebuild_missing_manifest_index();
        assert(run.walk.passed_to(self.walk, candidate));
        match candidate {
            Some(candidate) => {
                run.step = ReconcileStep::Index { candidate };
                assert(run.comes_to(self, run.walk, ReconcileStep::Index { candidate }));
                run
            },
            None => {
                let ghost walk = run.walk;
                let next = run.retire_from(0, 0);
                assert(next.comes_to(self, walk, retire_step(walk, 0, 0)));
                next
            },
        }
    }

    fn seek_entry(self, at: usize) -> (next: ReconcileRun)
        requires
            at <= self.entries@.len(),
            self.walk.report.quarantined_items + self.entries@.len() - at <= usize::MAX,
            self.walk.report.indexed_manifests + self.walk.candidates@.len() <= usize::MAX,
        ensures
            next.seeks_entry(self, self.walk, at as int),
            next.is_sound(),
    {
        let mut run = self;
        if at >= run.entries.len() {
            return run.seek_candidate();
        }
        match &run.entries[at].index {
            Ok(_) => {
                run.step = ReconcileStep::Inspect { at };
                run
            },
            Err(error) => {
                let entry = run.walk.reconcile_invalid_index_entry(&run.entries[at], error);
                run.step = ReconcileStep::Store { at, entry };
                assert(run.walk.invalid_entry_taken(
                    self.walk,
                    self.entries@[at as int],
                    self.entries@[at as int].index->Err_0,
                    entry,
                ));
                run
            },
        }
    }

    /// Starts to go through the entries of the record store.
    pub fn reconcile_manifest_index(entries: Vec<StoreEntry>, walk: IndexReconciliation) -> (run:
        ReconcileRun)
        requires
            walk.report.quarantined_items + entries@.len() <= usize::MAX,
            walk.report.indexed_manifests == 0,
        ensures
            run.seeks_entry(
                (ReconcileRun { entries, walk, step: ReconcileStep::Finished }),
                walk,
                0,
            ),
            run.is_sound(),
    {
        assert(walk.candidates.len() == walk.candidates@.len());
        ReconcileRun { entries, walk, step: ReconcileStep::Finished }.seek_entry(0)
    }

    /// Goes on with what came of the step.
    pub fn next(self, event: ReconcileEvent) -> (next: ReconcileRun)
        requires
            self.is_sound(),
        ensures
            next.follows(self, event),
            next.is_sound(),
    {
        let ReconcileRun { entries, mut walk, step } = self;
        assert(entries.len() == entries@.len());
        match (step, event) {
            (ReconcileStep::Inspect { at }, ReconcileEvent::Inspected { managed }) => {
                match &entries[at].index {
                    Ok(index) => {
                        let decision = walk.reconcile_v2_index_entry(&entries[at], index, managed);
                        assert(walk.decided(
                            self.walk,
                            self.entries@[at as int],
                            self.entries@[at as int].index->Ok_0,
                            managed,
                            decision,
                        ));
                        match decision {
                            IndexDecision::Skip => {
                                let run = ReconcileRun {
                                    entries,
                                    walk,
                                    step: ReconcileStep::Inspect { at },
                                };
                                run.seek_entry(at + 1)
                            },
                            IndexDecision::Quarantine { entry } => {
                                let step = ReconcileStep::Store { at, entry };
                                let run = ReconcileRun { entries, walk, step };
                                assert(run.comes_to(self, walk, step));
                                run
                            },
                            IndexDecision::Resolve { sandbox_id } => {
                                let step = ReconcileStep::Resolve { at, sandbox_id };
                                let run = ReconcileRun { entries, walk, step };
                                assert(run.comes_to(self, walk, step));
                                run
                            },
                        }
                    },
                    Err(_) => ReconcileRun { entries, walk, step: ReconcileStep::Finished },
                }
            },
            (ReconcileStep::Resolve { at, sandbox_id }, ReconcileEvent::Resolved { resolved }) => {
                match &entries[at].index {
                    Ok(index) => {
                        let stored = walk.take_resolved(
                            &entries[at],
                            index,
                            sandbox_id,
                            resolved,
                        );
                        assert(walk.resolution_taken(
                            self.walk,
                            self.entries@[at as int],
                            self.entries@[at as int].index->Ok_0,
                            sandbox_id,
                            resolved,
                            stored,
                        ));
                        match stored {
                            Some(entry) => {
                                let step = ReconcileStep::Store { at, entry };
                                let run = ReconcileRun { entries, walk, step };
                                assert(run.comes_to(self, walk, step));
                                run
                            },
                            None => {
                                let run = ReconcileRun {
                                    entries,
                                    walk,
                                    step: ReconcileStep::Resolve { at, sandbox_id },
                                };
                                run.seek_entry(at + 1)
                            },
                        }
                    },
                    Err(_) => ReconcileRun { entries, walk, step: ReconcileStep::Finished },
                }
            },
            (ReconcileStep::Store { at, entry }, ReconcileEvent::Done) => {
                let run = ReconcileRun { entries, walk, step: ReconcileStep::Store { at, entry } };
                run.seek_entry(at + 1)
            },
            (ReconcileStep::Index { candidate }, ReconcileEvent::Done) => {
                walk.take_rebuilt(candidate);
                let run = ReconcileRun { entries, walk, step: ReconcileStep::Finished };
                run.seek_candidate()
            },
            (ReconcileStep::Index { candidate }, ReconcileEvent::Failed { error }) => ReconcileRun {
                entries,
                walk,
                step: ReconcileStep::Recover { candidate, source: error },
            },
            (ReconcileStep::Retire { at, generation }, ReconcileEvent::Done) => {
                let ghost roots = walk.retire_after_selection@[at as int].artifact_roots;
                assert(roots.len() == roots@.len());
                let run = ReconcileRun { entries, walk, step: ReconcileStep::Finished };
                run.retire_from(at, generation + 1)
            },
            (ReconcileStep::Retire { at, .. }, ReconcileEvent::Failed { .. }) => {
                let ghost retirable = walk.retire_after_selection;
                assert(retirable.len() == retirable@.len());
                let run = ReconcileRun { entries, walk, step: ReconcileStep::Finished };
                run.retire_from(at + 1, 0)
            },
            (
                ReconcileStep::Inspect { .. }
                | ReconcileStep::Resolve { .. }
                | ReconcileStep::Store { .. }
                | ReconcileStep::Recover { .. },
                ReconcileEvent::Failed { error },
            ) => ReconcileRun { entries, walk, step: ReconcileStep::Failed { error } },
            (step, _) => ReconcileRun { entries, walk, step },
        }
    }

    /// What the store was found to hold, or why it could not be gone through.
    pub fn finish(self) -> (outcome: PersistenceResult<
        (Vec<PersistedPausedRecord>, PausedSandboxRecoveryReport),
    >)
        requires
            self.step is Finished || self.step is Failed,
        ensures
            match self.step {
                ReconcileStep::Failed { error } => outcome == Err::<
                    (Vec<PersistedPausedRecord>, PausedSandboxRecoveryReport),
                    SandboxPersistenceError,
                >(error),
                _ => {
                    &&& outcome matches Ok((records, report))
                    &&& report == self.walk.report
                    &&& records@ == self.walk.selected@.map_values(
                        |selected: SelectedRecord| selected.record,
                    )
                },
            },
    {
        if let ReconcileStep::Failed { error } = self.step {
            return Err(error);
        }
        let report = self.walk.report;
        let mut selected = self.walk.selected;
        let ghost all = selected@;
        let mut records: Vec<PersistedPausedRecord> = Vec::new();
        while selected.len() > 0
            invariant
                selected@ == all.skip(records@.len() as int),
                records@.len() + selected@.len() == all.len(),
                records@ == all.take(records@.len() as int).map_values(
                    |selected: SelectedRecord| selected.record,
                ),
            decreases selected@.len(),
        {
            let ghost at = records@.len() as int;
            let next = selected.remove(0);
            assert(next == all[at]);
            records.push(next.record);
            assert(selected@ =~= all.skip(at + 1));
            assert(records@ =~= all.take(at + 1).map_values(
                |selected: SelectedRecord| selected.record,
            ));
        }
        assert(all.take(records@.len() as int) =~= all);
        Ok((records, report))
    }
}

// ---------------------------------------------------------------------------------------------
// Laws
// ---------------------------------------------------------------------------------------------

/// The position of the entry that a step is about.
pub open spec fn entry_position(step: ReconcileStep) -> Option<int> {
    match step {
        ReconcileStep::Inspect { at } => Some(at as int),
        ReconcileStep::Resolve { at, .. } => Some(at as int),
        ReconcileStep::Store { at, .. } => Some(at as int),
        _ => None,
    }
}

proof fn retirement_needs_permission(walk: IndexReconciliation, at: int, generation: int)
    requires
        0 <= at,
        0 <= generation,
    ensures
        retire_step(walk, at, generation) is Finished || retire_step(walk, at, generation) is Retire,
        retire_step(walk, at, generation) is Retire ==> walk.mode is Startup,
    decreases walk.retire_after_selection@.len() - at,
{
    if at < walk.retire_after_selection@.len() {
        retirement_needs_permission(walk, at + 1, 0);
    }
}

/// The entries are gone through one after the other. Only behind the last of them an index is
/// rebuilt or a generation goes, and no entry is gone back to then.
pub proof fn entries_come_first(before: ReconcileRun, event: ReconcileEvent, after: ReconcileRun)
    requires
        before.is_sound(),
        after.follows(before, event),
    ensures
        after.entries == before.entries,
        match (entry_position(before.step), entry_position(after.step)) {
            (Some(at), Some(next)) => next == at || next == at + 1,
            (Some(at), None) => after.step is Failed || at + 1 == before.entries@.len(),
            (None, Some(_)) => false,
            (None, None) => true,
        },
{
    let walk = after.walk;
    assert(before.entries.len() == before.entries@.len());
    retirement_needs_permission(walk, 0, 0);
    match before.step {
        ReconcileStep::Retire { at, generation } => {
            retirement_needs_permission(before.walk, at as int, generation + 1);
            retirement_needs_permission(before.walk, at + 1, 0);
        },
        _ => {},
    }
}

/// A reconciliation that an administrator asks for removes nothing: it rebuilds indexes, and
/// generations go at startup only.
pub proof fn recovery_removes_nothing(before: ReconcileRun, event: ReconcileEvent, after: ReconcileRun)
    requires
        before.is_sound(),
        after.follows(before, event),
    ensures
        after.walk.mode == before.walk.mode,
        after.step is Retire ==> before.walk.mode is Startup,
{
    let walk = after.walk;
    retirement_needs_permission(walk, 0, 0);
    match before.step {
        ReconcileStep::Retire { at, generation } => {
            retirement_needs_permission(before.walk, at as int, generation + 1);
            retirement_needs_permission(before.walk, at + 1, 0);
        },
        _ => {},
    }
}

/// An index is rebuilt only for a sandbox that goes by no record yet and that nothing blocks.
pub proof fn rebuilt_indexes_were_missing(before: ReconcileRun, event: ReconcileEvent, after: ReconcileRun)
    requires
        before.is_sound(),
        after.follows(before, event),
        after != before,
    ensures
        after.step matches ReconcileStep::Index { candidate } ==> !index_reconciliation::is_selected(
            after.walk.selected@,
            candidate.id(),
        ) && !after.walk.blocked@.contains(candidate.id()),
{
    let walk = after.walk;
    retirement_needs_permission(walk, 0, 0);
    match before.step {
        ReconcileStep::Retire { at, generation } => {
            retirement_needs_permission(before.walk, at as int, generation + 1);
            retirement_needs_permission(before.walk, at + 1, 0);
        },
        _ => {},
    }
}

/// An index that was accepted is not replaced: once it is decided about, its sandbox goes by its
/// record or is blocked, and its manifest is not indexed anew.
pub proof fn accepted_indexes_are_kept(
    before: IndexReconciliation,
    entry: StoreEntry,
    resolved: PersistenceResult<PersistedPausedRecord>,
    managed: bool,
    decision: IndexDecision,
    middle: IndexReconciliation,
    stored: Option<StoredPausedSandboxQuarantine>,
    after: IndexReconciliation,
    candidate: ManifestEntry,
)
    requires
        entry.index is Ok,
        reconciliation::key_sandbox(entry.key@) == Some(candidate.id()),
        middle.decided(before, entry, entry.index->Ok_0, managed, decision),
        match decision {
            IndexDecision::Resolve { sandbox_id } => after.resolution_taken(
                middle,
                entry,
                entry.index->Ok_0,
                sandbox_id,
                resolved,
                stored,
            ),
            _ => after == middle,
        },
    ensures
        !after.needs_index(candidate),
{
    let id = candidate.id();
    let blocked = index_reconciliation::with_blocked(before.blocked@, id);
    if !before.blocked@.contains(id) {
        assert(blocked[before.blocked@.len() as int] == id);
    }
    if let IndexDecision::Resolve { .. } = decision {
        match resolved {
            Ok(record) => {
                let chosen = SelectedRecord { sandbox_id: id, record };
                index_reconciliation::a_selection_is_selected(middle.selected@, chosen);
            },
            Err(_) => {
                let blocked = index_reconciliation::with_blocked(middle.blocked@, id);
                if !middle.blocked@.contains(id) {
                    assert(blocked[middle.blocked@.len() as int] == id);
                }
            },
        }
    }
}

/// The next generation that goes is the first one, from a position on, of a sandbox whose generations
/// may go; where there is none any more, the walk is finished.
pub proof fn generations_go_in_order(walk: IndexReconciliation, at: int, generation: int)
    requires
        0 <= at <= usize::MAX,
        0 <= generation <= usize::MAX,
    ensures
        at >= walk.retire_after_selection@.len() ==> retire_step(walk, at, generation) is Finished,
        at < walk.retire_after_selection@.len() ==> {
            let retirable = walk.retire_after_selection@[at];
            let here = walk.may_retire(retirable) && generation < retirable.artifact_roots@.len();
            &&& here ==> retire_step(walk, at, generation) == (ReconcileStep::Retire {
                at: at as usize,
                generation: generation as usize,
            })
            &&& !here ==> retire_step(walk, at, generation) == retire_step(walk, at + 1, 0)
        },
{
}

/// A failure to look at, to resolve or to store an entry, or to guard a candidate, ends the walk with
/// its error; one to write an index leads to guarding the candidate; and one to remove a generation
/// spares the others of its sandbox only.
pub proof fn failures_of_a_walk_are_told(
    before: ReconcileRun,
    error: SandboxPersistenceError,
    after: ReconcileRun,
)
    requires
        after.follows(before, ReconcileEvent::Failed { error }),
    ensures
        before.step is Inspect || before.step is Resolve || before.step is Store || before.step
            is Recover ==> after.step == (ReconcileStep::Failed { error }),
        before.step matches ReconcileStep::Index { candidate } ==> after.step == (
        ReconcileStep::Recover { candidate, source: error }),
        before.step matches ReconcileStep::Retire { at, .. } ==> after.step == retire_step(
            before.walk,
            at + 1,
            0,
        ),
        before.step is Finished || before.step is Failed ==> after == before,
        after.walk == before.walk,
        after.entries == before.entries,
{
}

/// An entry that is gone by is resolved, one that is put in quarantine is stored, and one that is left
/// alone is passed over; what is stored or resolved leads to the next entry, and an entry that cannot
/// be used is stored before the next one is looked at.
pub proof fn entries_are_dealt_with_one_by_one(
    before: ReconcileRun,
    event: ReconcileEvent,
    after: ReconcileRun,
)
    requires
        before.is_sound(),
        after.follows(before, event),
    ensures
        after.entries == before.entries,
        before.step matches ReconcileStep::Inspect { at } ==> event is Inspected ==> {
            ||| after.step matches ReconcileStep::Resolve { at: next, .. } && next == at
            ||| after.step matches ReconcileStep::Store { at: next, .. } && (next == at || next == at
                + 1)
            ||| after.step matches ReconcileStep::Inspect { at: next } && next == at + 1
            ||| at + 1 == before.entries@.len() && (after.step is Index || after.step is Retire
                || after.step is Finished)
        },
        before.step matches ReconcileStep::Store { at, .. } ==> event is Done ==> {
            &&& at + 1 < before.entries@.len() && before.entries@[at + 1].index is Ok ==> after.step
                == (ReconcileStep::Inspect { at: (at + 1) as usize })
            &&& at + 1 < before.entries@.len() && before.entries@[at + 1].index is Err ==> (
            after.step matches ReconcileStep::Store { at: next, .. } && next == at + 1)
            &&& at + 1 == before.entries@.len() ==> after.step is Index || after.step is Retire
                || after.step is Finished
        },
        before.step matches ReconcileStep::Retire { at, generation } ==> event is Done ==> {
            let retirable = before.walk.retire_after_selection@[at as int];
            generation + 1 < retirable.artifact_roots@.len() && before.walk.may_retire(retirable)
                ==> after.step == (ReconcileStep::Retire { at, generation: (generation + 1) as usize })
        },
{
    assert(before.entries.len() == before.entries@.len());
    retirement_needs_permission(after.walk, 0, 0);
    match before.step {
        ReconcileStep::Retire { at, generation } => {
            let retirable = before.walk.retire_after_selection@[at as int];
            assert(retirable.artifact_roots.len() == retirable.artifact_roots@.len());
        },
        _ => {},
    }
}

} // verus!
