//! The create keys of a node, brought back from what an earlier process left.

use crate::ids::SandboxId;
use crate::orchestrator::create_idempotency;
use crate::orchestrator::create_idempotency::CreateTable;
use crate::orchestrator::error::OrchestratorError;
use crate::orchestrator::metadata::SandboxMetadata;
use crate::orchestrator::persistence::error::{PersistenceResult, SandboxPersistenceError};
use crate::orchestrator::persistence::journal::CreateIdempotencyRecord;
use crate::orchestrator::startup;
use crate::orchestrator::startup::{
    migrate_paused_create_record, retain_undeleted, validate_durable_create_records,
    InterruptedCreate, PausedKey,
};
use vstd::prelude::*;

verus! {

/// What bringing the create keys back does next.
#[derive(Debug)]
pub enum RestoreStep {
    /// Write the record of a paused sandbox: it was created.
    Migrate { record: CreateIdempotencyRecord },
    /// Go on with a record whose create or deletion was interrupted.
    Reconcile { step: InterruptedCreate },
    Restored,
    Aborted { error: OrchestratorError },
}

/// How far the create keys are brought back.
#[derive(Debug)]
pub struct RestoreRun {
    persisted: Vec<SandboxMetadata>,
    migrated: usize,
    paused: Vec<PausedKey>,
    pending: Vec<CreateIdempotencyRecord>,
    kept: Vec<CreateIdempotencyRecord>,
    deleted: Vec<SandboxId>,
    step: RestoreStep,
}

/// The sandboxes that were found and how many of them were gone through, the keys that these hold,
/// the records to go through, those that stay, the sandboxes whose deletion was completed, and the
/// next step.
pub struct Restore {
    pub persisted: Seq<SandboxMetadata>,
    pub migrated: nat,
    pub paused: Seq<PausedKey>,
    pub pending: Seq<CreateIdempotencyRecord>,
    pub kept: Seq<CreateIdempotencyRecord>,
    pub deleted: Seq<SandboxId>,
    pub step: RestoreStep,
}

/// The record that a step is about, if it is still undecided.
pub open spec fn in_hand(step: RestoreStep) -> Seq<CreateIdempotencyRecord> {
    match step {
        RestoreStep::Reconcile { step: InterruptedCreate::Delete { record } } => seq![record],
        RestoreStep::Reconcile { step: InterruptedCreate::Release { record } } => seq![record],
        RestoreStep::Reconcile { step: InterruptedCreate::Fail { record } } => seq![record],
        _ => seq![],
    }
}

impl Restore {
    /// The keys that paused sandboxes hold, with that of one more.
    pub open spec fn with_key(paused: Seq<PausedKey>, metadata: SandboxMetadata) -> Seq<PausedKey> {
        match metadata.create_idempotency_key {
            Some(key) => paused.push(PausedKey { key, sandbox_id: metadata.id }),
            None => paused,
        }
    }

    /// Goes on to the next thing to do: first the keys of the paused sandboxes are taken over, then
    /// the records are gone through.
    pub open spec fn sought(self) -> Restore
        decreases self.persisted.len() - self.migrated, self.pending.len(),
    {
        if self.migrated < self.persisted.len() {
            let metadata = self.persisted[self.migrated as int];
            let next = Restore {
                migrated: self.migrated + 1,
                paused: Restore::with_key(self.paused, metadata),
                pending: startup::migrated(metadata, self.pending),
                ..self
            };
            match startup::migration_fault(metadata, self.paused, self.pending) {
                Some(fault) => Restore {
                    step: RestoreStep::Aborted {
                        error: OrchestratorError::InternalError { fault },
                    },
                    ..self
                },
                None => match startup::migrated_record(metadata, self.pending) {
                    Some(record) => Restore { step: RestoreStep::Migrate { record }, ..next },
                    None => next.sought(),
                },
            }
        } else if self.pending.len() > 0 {
            let next = Restore { pending: self.pending.skip(1), ..self };
            match InterruptedCreate::start(self.pending[0]) {
                InterruptedCreate::Kept { record } => (Restore {
                    kept: self.kept.push(record),
                    ..next
                }).sought(),
                step => Restore { step: RestoreStep::Reconcile { step }, ..next },
            }
        } else {
            Restore { step: RestoreStep::Restored, ..self }
        }
    }

    /// Goes on with the outcome of a step.
    pub open spec fn after(self, outcome: PersistenceResult<()>) -> Restore {
        match self.step {
            RestoreStep::Migrate { .. } => match outcome {
                Ok(_) => (Restore { step: RestoreStep::Restored, ..self }).sought(),
                Err(error) => Restore {
                    step: RestoreStep::Aborted {
                        error: OrchestratorError::Persistence { error },
                    },
                    ..self
                },
            },
            RestoreStep::Reconcile { step } => match step.after(outcome) {
                InterruptedCreate::Kept { record } => (Restore {
                    kept: self.kept.push(record),
                    step: RestoreStep::Restored,
                    ..self
                }).sought(),
                InterruptedCreate::Released { sandbox_id } => (Restore {
                    deleted: self.deleted.push(sandbox_id),
                    step: RestoreStep::Restored,
                    ..self
                }).sought(),
                InterruptedCreate::Aborted { error } => Restore {
                    step: RestoreStep::Aborted {
                        error: OrchestratorError::Persistence { error },
                    },
                    ..self
                },
                step => Restore { step: RestoreStep::Reconcile { step }, ..self },
            },
            _ => self,
        }
    }

    /// Whether each of the sandboxes that were gone through is deleted or has the record of its
    /// create among these.
    pub open spec fn are_recorded_in(self, records: Seq<CreateIdempotencyRecord>) -> bool {
        forall|i: int|
            0 <= i < self.migrated && (#[trigger] self.persisted[i]).create_idempotency_key is Some
                ==> startup::is_listed(self.deleted, self.persisted[i].id) || startup::is_recorded(
                records,
                self.persisted[i],
            )
    }

    /// No key is there twice, no sandbox that stays loses the record of its create, whatever stays
    /// says how its create ended, and no record is gone through before the keys of all paused
    /// sandboxes are taken over. At the end nothing is left to go through.
    pub open spec fn is_sound(self) -> bool {
        &&& self.migrated <= self.persisted.len()
        &&& self.step is Aborted || self.are_recorded_in(
            self.kept + in_hand(self.step) + self.pending,
        )
        &&& startup::has_distinct_keys(self.kept + in_hand(self.step) + self.pending)
        &&& forall|i: int|
            0 <= i < self.kept.len() ==> create_idempotency::is_settled(
                (#[trigger] self.kept[i]).state,
            )
        &&& self.migrated < self.persisted.len() ==> self.kept.len() == 0 && in_hand(
            self.step,
        ).len() == 0
        &&& self.step is Restored ==> self.pending.len() == 0 && self.migrated
            == self.persisted.len()
        &&& self.step matches RestoreStep::Reconcile { step } ==> match step {
            InterruptedCreate::Delete { record } => record.state is Deleting,
            InterruptedCreate::Release { record } => record.state is Deleting,
            InterruptedCreate::Fail { record } => record.state is Failed,
            _ => false,
        }
    }

    /// How many records are accounted for.
    pub open spec fn accounted(self) -> nat {
        self.kept.len() + self.deleted.len() + in_hand(self.step).len() + self.pending.len()
    }
}

/// What is sought is sound, where nothing is in hand.
proof fn seeking_is_sound(run: Restore)
    requires
        run.migrated <= run.persisted.len(),
        run.are_recorded_in(run.kept + run.pending),
        startup::has_distinct_keys(run.kept + run.pending),
        forall|i: int|
            0 <= i < run.kept.len() ==> create_idempotency::is_settled(
                (#[trigger] run.kept[i]).state,
            ),
        run.migrated < run.persisted.len() ==> run.kept.len() == 0,
    ensures
        run.sought().is_sound(),
    decreases run.persisted.len() - run.migrated, run.pending.len(),
{
    let nothing: Seq<CreateIdempotencyRecord> = seq![];
    assert(run.kept + nothing + run.pending =~= run.kept + run.pending);
    if run.migrated < run.persisted.len() {
        let metadata = run.persisted[run.migrated as int];
        let pending = startup::migrated(metadata, run.pending);
        assert(run.kept + run.pending =~= run.pending);
        if startup::migration_fault(metadata, run.paused, run.pending) is None {
            if metadata.create_idempotency_key is Some {
                startup::migrations_record_every_paused_sandbox(metadata, run.paused, run.pending);
            }
            assert(run.kept + nothing + pending =~= pending);
            assert(run.kept + pending =~= pending);
            let next = Restore { migrated: run.migrated + 1, pending, ..run };
            assert forall|i: int|
                0 <= i < next.migrated && (#[trigger] next.persisted[i]).create_idempotency_key
                    is Some implies startup::is_listed(next.deleted, next.persisted[i].id)
                || startup::is_recorded(pending, next.persisted[i]) by {
                startup::migrations_keep_every_record(
                    metadata,
                    run.paused,
                    run.pending,
                    next.persisted[i],
                );
            }
            if startup::migrated_record(metadata, run.pending) is None {
                seeking_is_sound(
                    Restore {
                        migrated: run.migrated + 1,
                        paused: Restore::with_key(run.paused, metadata),
                        pending,
                        ..run
                    },
                );
            }
        }
    } else if run.pending.len() > 0 {
        let record = run.pending[0];
        let rest = run.pending.skip(1);
        assert(run.kept + run.pending =~= run.kept.push(record) + rest);
        match InterruptedCreate::start(record) {
            InterruptedCreate::Kept { record: kept } => {
                seeking_is_sound(Restore { kept: run.kept.push(kept), pending: rest, ..run });
            },
            step => {
                let held = in_hand(RestoreStep::Reconcile { step });
                assert(run.kept + seq![record] + rest =~= run.kept + run.pending);
                same_keys_stay_distinct(run.kept + seq![record] + rest, run.kept + held + rest);
                same_records_stay(run, run.kept + seq![record] + rest, run.kept + held + rest);
            },
        }
    }
}

proof fn same_keys_stay_distinct(
    before: Seq<CreateIdempotencyRecord>,
    after: Seq<CreateIdempotencyRecord>,
)
    requires
        before.len() == after.len(),
        forall|i: int| 0 <= i < before.len() ==> (#[trigger] before[i]).key@ == after[i].key@,
    ensures
        startup::has_distinct_keys(before) ==> startup::has_distinct_keys(after),
{
    if startup::has_distinct_keys(before) {
        assert forall|i: int, j: int| 0 <= i < j < after.len() implies (#[trigger] after[i]).key@
            != (#[trigger] after[j]).key@ by {
            assert(before[i].key@ != before[j].key@);
        }
    }
}

proof fn same_records_stay(
    run: Restore,
    before: Seq<CreateIdempotencyRecord>,
    after: Seq<CreateIdempotencyRecord>,
)
    requires
        run.are_recorded_in(before),
        before.len() == after.len(),
        forall|i: int|
            0 <= i < before.len() ==> (#[trigger] before[i]).key@ == after[i].key@
                && before[i].request_fingerprint@ == after[i].request_fingerprint@
                && before[i].sandbox_id == after[i].sandbox_id,
    ensures
        run.are_recorded_in(after),
{
    assert forall|i: int|
        0 <= i < run.migrated && (#[trigger] run.persisted[i]).create_idempotency_key is Some
            && !startup::is_listed(run.deleted, run.persisted[i].id) implies startup::is_recorded(
        after,
        run.persisted[i],
    ) by {
        let metadata = run.persisted[i];
        let k = choose|k: int|
            0 <= k < before.len() && startup::is_record_of(#[trigger] before[k], metadata);
        assert(startup::is_record_of(after[k], metadata));
    }
}

/// A record whose sandbox is deleted may go.
proof fn a_released_record_may_go(run: Restore, held: CreateIdempotencyRecord)
    requires
        run.are_recorded_in(run.kept + seq![held] + run.pending),
    ensures
        (Restore { deleted: run.deleted.push(held.sandbox_id), ..run }).are_recorded_in(
            run.kept + run.pending,
        ),
{
    let before = run.kept + seq![held] + run.pending;
    let after = run.kept + run.pending;
    let deleted = run.deleted.push(held.sandbox_id);
    assert forall|i: int|
        0 <= i < run.migrated && (#[trigger] run.persisted[i]).create_idempotency_key is Some
            implies startup::is_listed(deleted, run.persisted[i].id) || startup::is_recorded(
        after,
        run.persisted[i],
    ) by {
        let metadata = run.persisted[i];
        if startup::is_listed(run.deleted, metadata.id) {
            let d = choose|d: int| 0 <= d < run.deleted.len() && #[trigger] run.deleted[d] == metadata.id;
            assert(deleted[d] == metadata.id);
        } else {
            let k = choose|k: int|
                0 <= k < before.len() && startup::is_record_of(#[trigger] before[k], metadata);
            if k < run.kept.len() {
                assert(startup::is_record_of(after[k], metadata));
            } else if k == run.kept.len() {
                assert(deleted[run.deleted.len() as int] == metadata.id);
            } else {
                assert(startup::is_record_of(after[k - 1], metadata));
            }
        }
    }
}

proof fn steps_are_sound(run: Restore, outcome: PersistenceResult<()>)
    requires
        run.is_sound(),
    ensures
        run.after(outcome).is_sound(),
{
    let nothing: Seq<CreateIdempotencyRecord> = seq![];
    assert(run.kept + nothing + run.pending =~= run.kept + run.pending);
    match run.step {
        RestoreStep::Migrate { .. } => {
            if outcome is Ok {
                seeking_is_sound(Restore { step: RestoreStep::Restored, ..run });
            }
        },
        RestoreStep::Reconcile { step } => {
            let all = run.kept + in_hand(run.step) + run.pending;
            let held = in_hand(run.step)[0];
            assert(in_hand(run.step) =~= seq![held]);
            assert forall|i: int, j: int|
                0 <= i < j < (run.kept + run.pending).len() implies (#[trigger] (run.kept
                + run.pending)[i]).key@ != (#[trigger] (run.kept + run.pending)[j]).key@ by {
                let left = if i < run.kept.len() {
                    i
                } else {
                    i + 1
                };
                let right = if j < run.kept.len() {
                    j
                } else {
                    j + 1
                };
                assert(all[left] == (run.kept + run.pending)[i]);
                assert(all[right] == (run.kept + run.pending)[j]);
            }
            match step.after(outcome) {
                InterruptedCreate::Kept { record } => {
                    assert(run.kept.push(record) + run.pending =~= run.kept + seq![record]
                        + run.pending);
                    same_keys_stay_distinct(all, run.kept + seq![record] + run.pending);
                    same_records_stay(run, all, run.kept + seq![record] + run.pending);
                    seeking_is_sound(
                        Restore {
                            kept: run.kept.push(record),
                            step: RestoreStep::Restored,
                            ..run
                        },
                    );
                },
                InterruptedCreate::Released { sandbox_id } => {
                    a_released_record_may_go(run, held);
                    seeking_is_sound(
                        Restore {
                            deleted: run.deleted.push(sandbox_id),
                            step: RestoreStep::Restored,
                            ..run
                        },
                    );
                },
                InterruptedCreate::Aborted { error } => {},
                next => {
                    let after = in_hand(RestoreStep::Reconcile { step: next });
                    assert(after.len() == 1 && after[0].key@ == held.key@);
                    same_keys_stay_distinct(all, run.kept + after + run.pending);
                    same_records_stay(run, all, run.kept + after + run.pending);
                },
            }
        },
        _ => {},
    }
}

impl View for RestoreRun {
    type V = Restore;

    closed spec fn view(&self) -> Restore {
        Restore {
            persisted: self.persisted@,
            migrated: self.migrated as nat,
            paused: self.paused@,
            pending: self.pending@,
            kept: self.kept@,
            deleted: self.deleted@,
            step: self.step,
        }
    }
}

impl RestoreRun {
    fn sought(self) -> (next: RestoreRun)
        requires
            self@.migrated <= self@.persisted.len(),
        ensures
            next@ == self@.sought(),
    {
        let mut run = self;
        let ghost goal = self@.sought();
        while run.migrated < run.persisted.len()
            invariant
                run@.migrated <= run@.persisted.len(),
                run@.sought() == goal,
                goal == self@.sought(),
            decreases run@.persisted.len() - run@.migrated,
        {
            let ghost before = run@;
            let at: usize = run.migrated;
            let outcome = migrate_paused_create_record(
                &run.persisted[at],
                &mut run.paused,
                &mut run.pending,
            );
            match outcome {
                Err(error) => {
                    run.step = RestoreStep::Aborted { error };
                    return run;
                },
                Ok(written) => {
                    run.migrated = at + 1;
                    assert(run@ == (Restore {
                        migrated: before.migrated + 1,
                        paused: Restore::with_key(
                            before.paused,
                            before.persisted[before.migrated as int],
                        ),
                        pending: startup::migrated(
                            before.persisted[before.migrated as int],
                            before.pending,
                        ),
                        ..before
                    }));
                    if let Some(record) = written {
                        run.step = RestoreStep::Migrate { record };
                        return run;
                    }
                },
            }
        }
        while run.pending.len() > 0
            invariant
                run@.migrated == run@.persisted.len(),
                run@.sought() == goal,
                goal == self@.sought(),
            decreases run@.pending.len(),
        {
            let ghost before = run@;
            let record = run.pending.remove(0);
            assert(run@.pending =~= before.pending.skip(1));
            match InterruptedCreate::reconcile_interrupted_create_record(record) {
                InterruptedCreate::Kept { record } => {
                    run.kept.push(record);
                    assert(run@ == (Restore {
                        pending: before.pending.skip(1),
                        kept: before.kept.push(record),
                        ..before
                    }));
                },
                step => {
                    run.step = RestoreStep::Reconcile { step };
                    assert(run@ == (Restore {
                        pending: before.pending.skip(1),
                        step: RestoreStep::Reconcile { step },
                        ..before
                    }));
                    return run;
                },
            }
        }
        run.step = RestoreStep::Restored;
        run
    }

    /// Starts to bring the create keys back from the sandboxes and the create records that were
    /// found. Nothing is written where a record is unusable or there twice.
    pub fn restore_create_idempotency(
        persisted: Vec<SandboxMetadata>,
        records: Vec<CreateIdempotencyRecord>,
    ) -> (run: RestoreRun)
        ensures
            run@.is_sound(),
            if forall|i: int|
                0 <= i < records@.len() ==> (#[trigger] startup::record_fault(records@, i)) is None {
                run@ == (Restore {
                    persisted: persisted@,
                    migrated: 0,
                    paused: seq![],
                    pending: records@,
                    kept: seq![],
                    deleted: seq![],
                    step: RestoreStep::Restored,
                }).sought()
            } else {
                exists|i: int|
                    {
                        &&& 0 <= i < records@.len()
                        &&& (#[trigger] startup::record_fault(records@, i)) matches Some(fault)
                        &&& run@.step == (RestoreStep::Aborted {
                            error: OrchestratorError::InternalError { fault },
                        })
                        &&& forall|j: int|
                            0 <= j < i ==> (#[trigger] startup::record_fault(records@, j)) is None
                    }
            },
    {
        let (pending, step) = match validate_durable_create_records(records) {
            Ok(durable) => (durable, RestoreStep::Restored),
            Err(error) => (Vec::new(), RestoreStep::Aborted { error }),
        };
        let run = RestoreRun {
            persisted,
            migrated: 0,
            paused: Vec::new(),
            pending,
            kept: Vec::new(),
            deleted: Vec::new(),
            step,
        };
        proof {
            assert(run@.kept + in_hand(run@.step) + run@.pending =~= run@.pending);
            assert(run@.kept + run@.pending =~= run@.pending);
            assert(run@.paused =~= seq![]);
            assert(run@.kept =~= seq![]);
            assert(run@.deleted =~= seq![]);
        }
        if let RestoreStep::Aborted { .. } = &run.step {
            return run;
        }
        proof {
            seeking_is_sound(run@);
        }
        run.sought()
    }

    /// What to do next.
    pub fn step(&self) -> (step: &RestoreStep)
        ensures
            *step == self@.step,
    {
        &self.step
    }

    /// Goes on with the outcome of the step.
    pub fn next(self, outcome: PersistenceResult<()>) -> (next: RestoreRun)
        requires
            self@.is_sound(),
        ensures
            next@ == self@.after(outcome),
            next@.is_sound(),
    {
        proof {
            steps_are_sound(self@, outcome);
        }
        let mut run = self;
        match run.step {
            RestoreStep::Migrate { .. } => match outcome {
                Ok(_) => {
                    run.step = RestoreStep::Restored;
                    run.sought()
                },
                Err(error) => {
                    run.step = RestoreStep::Aborted {
                        error: OrchestratorError::Persistence { error },
                    };
                    run
                },
            },
            RestoreStep::Reconcile { step } => {
                match step.next(outcome) {
                    InterruptedCreate::Kept { record } => {
                        run.kept.push(record);
                        run.step = RestoreStep::Restored;
                        run.sought()
                    },
                    InterruptedCreate::Released { sandbox_id } => {
                        run.deleted.push(sandbox_id);
                        run.step = RestoreStep::Restored;
                        run.sought()
                    },
                    InterruptedCreate::Aborted { error } => {
                        run.step = RestoreStep::Aborted {
                            error: OrchestratorError::Persistence { error },
                        };
                        run
                    },
                    step => {
                        run.step = RestoreStep::Reconcile { step };
                        run
                    },
                }
            },
            step => {
                run.step = step;
                run
            },
        }
    }

    /// The sandboxes and the claims of a node that starts, or why it cannot.
    pub fn finish(self) -> (outcome: Result<(Vec<SandboxMetadata>, CreateTable), OrchestratorError>)
        requires
            self@.is_sound(),
            self@.step is Restored || self@.step is Aborted,
        ensures
            match self@.step {
                RestoreStep::Aborted { error } => outcome == Err::<
                    (Vec<SandboxMetadata>, CreateTable),
                    OrchestratorError,
                >(error),
                _ => {
                    &&& outcome matches Ok((persisted, table))
                    &&& persisted@ == startup::remaining(self@.persisted, self@.deleted)
                    &&& table@.len() == self@.kept.len()
                    &&& forall|i: int|
                        0 <= i < self@.kept.len() ==> create_idempotency::is_restored(
                            #[trigger] self@.kept[i],
                            table@[i],
                        )
                },
            },
    {
        if let RestoreStep::Aborted { error } = self.step {
            return Err(error);
        }
        assert(self@.kept + in_hand(self@.step) + self@.pending =~= self@.kept);
        let persisted = retain_undeleted(self.persisted, &self.deleted);
        Ok((persisted, CreateTable::restore_create_entries(self.kept)))
    }
}

// ---------------------------------------------------------------------------------------------
// Laws
// ---------------------------------------------------------------------------------------------

proof fn seeking_loses_nothing(run: Restore)
    requires
        run.migrated == run.persisted.len(),
        in_hand(run.step).len() == 0,
    ensures
        run.sought().accounted() == run.accounted(),
        run.sought().deleted == run.deleted,
    decreases run.pending.len(),
{
    if run.pending.len() > 0 {
        match InterruptedCreate::start(run.pending[0]) {
            InterruptedCreate::Kept { record } => {
                seeking_loses_nothing(
                    Restore { kept: run.kept.push(record), pending: run.pending.skip(1), ..run },
                );
            },
            _ => {},
        }
    }
}

/// Going through the records loses none of them: each one stays or its key is released, and that
/// only after a deletion that was recorded as such.
pub proof fn records_stay_or_are_released(run: Restore, outcome: PersistenceResult<()>)
    requires
        run.is_sound(),
        run.step is Reconcile,
        !(run.after(outcome).step is Aborted),
    ensures
        run.after(outcome).accounted() == run.accounted(),
        run.after(outcome).deleted.len() > run.deleted.len() ==> outcome is Ok && (
        run.step matches RestoreStep::Reconcile { step: InterruptedCreate::Release { record } }
            && record.state is Deleting),
{
    match run.step {
        RestoreStep::Reconcile { step } => match step.after(outcome) {
            InterruptedCreate::Kept { record } => seeking_loses_nothing(
                Restore { kept: run.kept.push(record), step: RestoreStep::Restored, ..run },
            ),
            InterruptedCreate::Released { sandbox_id } => seeking_loses_nothing(
                Restore {
                    deleted: run.deleted.push(sandbox_id),
                    step: RestoreStep::Restored,
                    ..run
                },
            ),
            _ => {},
        },
        _ => {},
    }
}

/// A node starts only where the key of every paused sandbox was taken over and no create is left in
/// doubt; a failed write keeps it from starting.
pub proof fn a_node_starts_with_settled_keys(run: Restore, outcome: PersistenceResult<()>)
    requires
        run.is_sound(),
        !(run.step is Restored),
    ensures
        run.after(outcome).step is Restored ==> {
            let end = run.after(outcome);
            &&& end.migrated == end.persisted.len()
            &&& end.pending.len() == 0
            &&& startup::has_distinct_keys(end.kept)
            &&& forall|i: int|
                0 <= i < end.kept.len() ==> create_idempotency::is_settled(
                    (#[trigger] end.kept[i]).state,
                )
        },
        run.step is Migrate && outcome is Err ==> run.after(outcome).step is Aborted,
{
    steps_are_sound(run, outcome);
    let end = run.after(outcome);
    if end.step is Restored {
        assert(end.kept + in_hand(end.step) + end.pending =~= end.kept);
    }
}

/// Once the create keys are brought back, every sandbox that stays and has a create key has a record
/// that stays, under that key and with its own fingerprint and identifier.
pub proof fn remaining_sandboxes_keep_their_keys(run: Restore, metadata: SandboxMetadata)
    requires
        run.is_sound(),
        run.step is Restored,
        startup::remaining(run.persisted, run.deleted).contains(metadata),
        metadata.create_idempotency_key is Some,
    ensures
        startup::is_recorded(run.kept, metadata),
{
    let stays = |metadata: SandboxMetadata| !startup::is_listed(run.deleted, metadata.id);
    let left = run.persisted.filter(stays);
    let k = choose|k: int| 0 <= k < left.len() && left[k] == metadata;
    run.persisted.lemma_filter_pred(stays, k);
    run.persisted.lemma_filter_contains_rev(stays, metadata);
    let i = choose|i: int| 0 <= i < run.persisted.len() && run.persisted[i] == metadata;
    assert(run.kept + in_hand(run.step) + run.pending =~= run.kept);
    assert(run.persisted[i].create_idempotency_key is Some);
}

/// The keys of the paused sandboxes are taken over in their order and before any record is gone
/// through: a sandbox whose key cannot be taken over ends the start with the cause, a record that it
/// adds or changes is written before the next one is looked at, and a write that fails ends the start.
pub proof fn keys_are_taken_over_in_order(run: Restore, error: SandboxPersistenceError)
    requires
        run.migrated < run.persisted.len(),
    ensures
        ({
            let metadata = run.persisted[run.migrated as int];
            let fault = startup::migration_fault(metadata, run.paused, run.pending);
            let written = startup::migrated_record(metadata, run.pending);
            let next = run.sought();
            &&& fault matches Some(cause) ==> {
                &&& next.step == (RestoreStep::Aborted {
                    error: OrchestratorError::InternalError { fault: cause },
                })
                &&& next.pending == run.pending && next.kept == run.kept && next.deleted
                    == run.deleted
            }
            &&& fault is None && written is Some ==> {
                &&& next.step == (RestoreStep::Migrate { record: written->0 })
                &&& next.migrated == run.migrated + 1
                &&& next.persisted == run.persisted && next.kept == run.kept && next.deleted
                    == run.deleted
                &&& next.pending == startup::migrated(metadata, run.pending)
                &&& metadata.create_idempotency_key matches Some(key) ==> next.paused.last() == (
                PausedKey { key, sandbox_id: metadata.id }) && next.paused.len() == run.paused.len()
                    + 1
                &&& next.after(Ok(())) == (Restore { step: RestoreStep::Restored, ..next }).sought()
                &&& next.after(Err(error)).step == (RestoreStep::Aborted {
                    error: OrchestratorError::Persistence { error },
                })
            }
            &&& fault is None && metadata.create_idempotency_key is None ==> next == (Restore {
                migrated: run.migrated + 1,
                ..run
            }).sought()
        }),
{
    let metadata = run.persisted[run.migrated as int];
    if metadata.create_idempotency_key is None {
        assert(startup::migrated_record(metadata, run.pending) is None);
        assert(startup::migrated(metadata, run.pending) == run.pending);
        assert(Restore::with_key(run.paused, metadata) == run.paused);
    }
}

/// Once every key is taken over, the records are gone through in their order: one whose outcome is
/// known stays as it is, one of an interrupted create is to be written as failed, one of an
/// interrupted deletion is to be deleted; and with none left the keys are restored.
pub proof fn records_are_gone_through_in_order(run: Restore)
    requires
        run.migrated == run.persisted.len(),
    ensures
        run.pending.len() == 0 ==> run.sought() == (Restore { step: RestoreStep::Restored, ..run }),
        run.pending.len() > 0 ==> {
            let record = run.pending[0];
            let rest = Restore { pending: run.pending.drop_first(), ..run };
            &&& record.state is Succeeded || record.state is Failed ==> run.sought() == (Restore {
                kept: run.kept.push(record),
                ..rest
            }).sought()
            &&& record.state is Deleting ==> run.sought() == (Restore {
                step: RestoreStep::Reconcile { step: InterruptedCreate::Delete { record } },
                ..rest
            })
            &&& record.state is Creating ==> {
                let next = run.sought();
                &&& next == (Restore { step: next.step, ..rest })
                &&& next.step matches RestoreStep::Reconcile {
                    step: InterruptedCreate::Fail { record: failed },
                } && {
                    &&& failed.state is Failed
                    &&& failed.key == record.key
                    &&& failed.sandbox_id == record.sandbox_id
                    &&& failed.request_fingerprint == record.request_fingerprint
                }
            }
        },
{
    if run.pending.len() > 0 {
        assert(run.pending.drop_first() =~= run.pending.skip(1));
    }
}

/// A record that was written as failed stays; a sandbox whose key was released is deleted; a write
/// that fails ends the start, with its cause; a deletion that fails otherwise is to be recorded.
pub proof fn outcomes_of_records_are_kept(
    run: Restore,
    record: CreateIdempotencyRecord,
    error: SandboxPersistenceError,
)
    ensures
        run.step == (RestoreStep::Reconcile { step: InterruptedCreate::Fail { record } }) ==> run.after(
            Ok(()),
        ) == (Restore { kept: run.kept.push(record), step: RestoreStep::Restored, ..run }).sought(),
        run.step == (RestoreStep::Reconcile { step: InterruptedCreate::Release { record } })
            ==> run.after(Ok(())) == (Restore {
            deleted: run.deleted.push(record.sandbox_id),
            step: RestoreStep::Restored,
            ..run
        }).sought(),
        run.step == (RestoreStep::Reconcile { step: InterruptedCreate::Delete { record } })
            ==> run.after(Ok(())) == (Restore {
            step: RestoreStep::Reconcile { step: InterruptedCreate::Release { record } },
            ..run
        }),
        run.step == (RestoreStep::Reconcile { step: InterruptedCreate::Fail { record } }) || run.step
            == (RestoreStep::Reconcile { step: InterruptedCreate::Release { record } }) ==> run.after(
            Err(error),
        ) == (Restore {
            step: RestoreStep::Aborted { error: OrchestratorError::Persistence { error } },
            ..run
        }),
{
}

} // verus!
