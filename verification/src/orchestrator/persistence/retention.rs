//! Which checkpoint generations of a store may be collected.
//!
//! The current generation of every sandbox, its two latest complete ones, every generation that is
//! uncertain, incomplete or used by a live guest, and everything that these refer to is kept.

use crate::ids::SandboxId;
use crate::orchestrator::persistence::codecs::PersistedPausedRecord;
use crate::orchestrator::persistence::paused_transactions::PersistedPausedCommitState;
use crate::path_order;
use crate::paths;
use crate::paths::{Part, StorePath};
use crate::text;
use vstd::prelude::*;

verus! {

/// A path that a checkpoint or a live guest refers to.
#[derive(Debug)]
pub struct ReferencedPath {
    pub path: StorePath,
    pub exists: bool,
}

/// What a reference says.
pub struct ReferenceView {
    pub path: Seq<Part>,
    pub exists: bool,
}

impl View for ReferencedPath {
    type V = ReferenceView;

    open spec fn view(&self) -> ReferenceView {
        ReferenceView { path: self.path@, exists: self.exists }
    }
}

pub open spec fn references_view(references: Seq<ReferencedPath>) -> Seq<ReferenceView> {
    Seq::new(references.len(), |i: int| references[i]@)
}

pub open spec fn paths_view(paths: Seq<StorePath>) -> Seq<Seq<Part>> {
    Seq::new(paths.len(), |i: int| paths[i]@)
}

/// One generation of one sandbox, as found in the store.
#[derive(Debug)]
struct Generation {
    root: StorePath,
    sandbox_id: SandboxId,
    files: Vec<StorePath>,
    references: Vec<ReferencedPath>,
    completed_at: Option<u64>,
}

/// What is known of one generation. `completed_at` is when its checkpoint was taken, where the
/// checkpoint is complete and certain.
pub struct GenerationView {
    pub root: Seq<Part>,
    pub sandbox_id: SandboxId,
    pub files: Seq<Seq<Part>>,
    pub references: Seq<ReferenceView>,
    pub completed_at: Option<u64>,
}

impl View for Generation {
    type V = GenerationView;

    closed spec fn view(&self) -> GenerationView {
        GenerationView {
            root: self.root@,
            sandbox_id: self.sandbox_id,
            files: paths_view(self.files@),
            references: references_view(self.references@),
            completed_at: self.completed_at,
        }
    }
}

/// Why nothing at all is collected.
#[derive(Debug)]
pub enum RetentionRefusal {
    UnknownArtifactRoot,
    UnknownGeneration,
    Symlink { path: StorePath },
    IrregularArtifact,
    /// A generation has no record, or one that cannot be read.
    UnreadableRecord { source: String },
    IdentityDiffers,
    UnknownSchema,
    CurrentOutsideInventory,
    MissingReference { path: StorePath },
}

impl RetentionRefusal {
    pub open spec fn shown(&self) -> Seq<char> {
        match self {
            RetentionRefusal::UnknownArtifactRoot => "retention refuses unknown artifact root"@,
            RetentionRefusal::UnknownGeneration => "retention refuses unknown generation"@,
            RetentionRefusal::Symlink { path } => "retention refuses symlink: "@ + path.shown(),
            RetentionRefusal::IrregularArtifact => "retention refuses non-regular artifact"@,
            RetentionRefusal::UnreadableRecord { source } => source@,
            RetentionRefusal::IdentityDiffers => {
                "checkpoint identity differs from its managed directory"@
            },
            RetentionRefusal::UnknownSchema => {
                "unknown checkpoint storage schema; retaining all generations"@
            },
            RetentionRefusal::CurrentOutsideInventory => {
                "current generation is outside managed inventory"@
            },
            RetentionRefusal::MissingReference { path } => {
                "managed checkpoint reference is missing: "@ + path.shown()
            },
        }
    }

    pub fn to_text(&self) -> (shown: String)
        ensures
            shown@ == self.shown(),
    {
        match self {
            RetentionRefusal::UnknownArtifactRoot => "retention refuses unknown artifact root".to_owned(),
            RetentionRefusal::UnknownGeneration => "retention refuses unknown generation".to_owned(),
            RetentionRefusal::Symlink { path } => text::concat2(
                "retention refuses symlink: ",
                path.to_text().as_str(),
            ),
            RetentionRefusal::IrregularArtifact => "retention refuses non-regular artifact".to_owned(),
            RetentionRefusal::UnreadableRecord { source } => source.clone(),
            RetentionRefusal::IdentityDiffers => {
                "checkpoint identity differs from its managed directory".to_owned()
            },
            RetentionRefusal::UnknownSchema => {
                "unknown checkpoint storage schema; retaining all generations".to_owned()
            },
            RetentionRefusal::CurrentOutsideInventory => {
                "current generation is outside managed inventory".to_owned()
            },
            RetentionRefusal::MissingReference { path } => text::concat2(
                "managed checkpoint reference is missing: ",
                path.to_text().as_str(),
            ),
        }
    }
}

/// What kind of directory entry was found, without following it.
#[derive(Clone, Copy, Debug, PartialEq, Eq, Structural)]
pub enum EntryKind {
    Symlink,
    Directory,
    File,
    Other,
}

/// What to do with an entry of a generation.
#[derive(Clone, Copy, Debug, PartialEq, Eq, Structural)]
pub enum EntryUse {
    Descend,
    Take,
}

/// Directories are searched and files are taken; anything else refuses the whole plan.
pub fn files(kind: EntryKind, path: &StorePath) -> (outcome: Result<EntryUse, RetentionRefusal>)
    ensures
        match outcome {
            Ok(EntryUse::Descend) => kind is Directory,
            Ok(EntryUse::Take) => kind is File,
            Err(RetentionRefusal::Symlink { path: refused }) => kind is Symlink && refused@ == path@
                && refused.spelled() == path.spelled(),
            Err(RetentionRefusal::IrregularArtifact) => kind is Other,
            Err(_) => false,
        },
{
    match kind {
        EntryKind::Symlink => Err(RetentionRefusal::Symlink { path: path.copy() }),
        EntryKind::Directory => Ok(EntryUse::Descend),
        EntryKind::File => Ok(EntryUse::Take),
        EntryKind::Other => Err(RetentionRefusal::IrregularArtifact),
    }
}

/// Whether a directory entry is a directory called by a UUID.
pub open spec fn is_uuid_directory(kind: EntryKind, name: Seq<u8>) -> bool {
    kind is Directory && SandboxId::parsed(text::lossy_text(name)) is Some
}

fn has_uuid_directory(kind: EntryKind, name: &[u8]) -> (answer: bool)
    ensures
        answer == is_uuid_directory(kind, name@),
{
    kind == EntryKind::Directory && SandboxId::parse_str(text::utf8_lossy(name).as_str()).is_some()
}

/// Accepts an entry of the artifacts directory.
pub fn check_artifact_root(kind: EntryKind, name: &[u8]) -> (outcome: Result<(), RetentionRefusal>)
    ensures
        match outcome {
            Ok(_) => is_uuid_directory(kind, name@),
            Err(refusal) => !is_uuid_directory(kind, name@) && refusal is UnknownArtifactRoot,
        },
{
    if has_uuid_directory(kind, name) {
        Ok(())
    } else {
        Err(RetentionRefusal::UnknownArtifactRoot)
    }
}

/// Accepts an entry of the directory of a sandbox.
pub fn check_generation(kind: EntryKind, name: &[u8]) -> (outcome: Result<(), RetentionRefusal>)
    ensures
        match outcome {
            Ok(_) => is_uuid_directory(kind, name@),
            Err(refusal) => !is_uuid_directory(kind, name@) && refusal is UnknownGeneration,
        },
{
    if has_uuid_directory(kind, name) {
        Ok(())
    } else {
        Err(RetentionRefusal::UnknownGeneration)
    }
}

/// When the checkpoint of a record was taken, where it is complete and certain.
pub open spec fn completion(record: &PersistedPausedRecord, marker_present: bool) -> Option<u64> {
    if record.commit_state is Committed && !record.metadata.resume_recovery_pending && !marker_present {
        record.checkpoint_at_unix_ms
    } else {
        None
    }
}

// ---------------------------------------------------------------------------------------------
// What is kept
// ---------------------------------------------------------------------------------------------

/// Whether checkpoint `left` is more recent than checkpoint `right`; of two with the same time the
/// one with the later path is.
pub open spec fn more_recent(left: GenerationView, right: GenerationView) -> bool {
    match (left.completed_at, right.completed_at) {
        (Some(l), Some(r)) => l > r || (l == r && path_order::parts_before(right.root, left.root)),
        _ => false,
    }
}

/// How many of the first `count` generations are more recent checkpoints of the sandbox of
/// `generation`.
pub open spec fn newer_checkpoints(
    generations: Seq<GenerationView>,
    generation: GenerationView,
    count: nat,
) -> nat
    decreases count,
{
    if count == 0 {
        0
    } else {
        let other = generations[count - 1];
        newer_checkpoints(generations, generation, (count - 1) as nat) + if other.sandbox_id
            == generation.sandbox_id && more_recent(other, generation) {
            1nat
        } else {
            0
        }
    }
}

/// Whether a generation is one of the two latest complete checkpoints of its sandbox.
pub open spec fn is_rollback_copy(generations: Seq<GenerationView>, at: int) -> bool {
    generations[at].completed_at is Some && newer_checkpoints(
        generations,
        generations[at],
        generations.len(),
    ) < 2
}

/// Whether a path that a live guest uses lies in a generation.
pub open spec fn is_live(generation: GenerationView, protected: Seq<ReferenceView>) -> bool {
    exists|k: int|
        0 <= k < protected.len() && generation.root.is_prefix_of(#[trigger] protected[k].path)
}

/// Whether a generation is kept for its own sake.
pub open spec fn is_seed(survey: SurveyView, protected: Seq<ReferenceView>, at: int) -> bool {
    let generation = survey.generations[at];
    ||| generation.completed_at is None
    ||| is_rollback_copy(survey.generations, at)
    ||| survey.current.contains(generation.root)
    ||| is_live(generation, protected)
}

/// Whether a generation refers to a path inside another one.
pub open spec fn refers_to(generation: GenerationView, other: GenerationView) -> bool {
    exists|k: int|
        0 <= k < generation.references.len() && other.root.is_prefix_of(
            #[trigger] generation.references[k].path,
        )
}

/// Whether every generation that a kept one refers to is kept.
pub open spec fn is_closed(generations: Seq<GenerationView>, keep: Seq<bool>) -> bool {
    &&& keep.len() == generations.len()
    &&& forall|i: int, j: int|
        #![trigger refers_to(generations[i], generations[j])]
        0 <= i < keep.len() && 0 <= j < keep.len() && keep[i] && refers_to(
            generations[i],
            generations[j],
        ) ==> keep[j]
}

/// Whether a choice of generations keeps enough of a survey.
pub open spec fn keeps_enough(
    survey: SurveyView,
    protected: Seq<ReferenceView>,
    keep: Seq<bool>,
) -> bool {
    &&& is_closed(survey.generations, keep)
    &&& forall|i: int| 0 <= i < keep.len() && #[trigger] is_seed(survey, protected, i) ==> keep[i]
}

/// Whether a generation is kept: every choice that keeps enough keeps it.
pub open spec fn is_retained(survey: SurveyView, protected: Seq<ReferenceView>, at: int) -> bool {
    forall|keep: Seq<bool>| #[trigger] keeps_enough(survey, protected, keep) ==> keep[at]
}

/// For each generation whether it is kept.
pub open spec fn retained(survey: SurveyView, protected: Seq<ReferenceView>) -> Seq<bool> {
    Seq::new(survey.generations.len(), |i: int| is_retained(survey, protected, i))
}

// ---------------------------------------------------------------------------------------------
// What goes
// ---------------------------------------------------------------------------------------------

/// Whether some generation refers to a file or to a directory that holds it.
pub open spec fn is_referenced(generations: Seq<GenerationView>, file: Seq<Part>) -> bool {
    exists|i: int|
        0 <= i < generations.len() && #[trigger] is_referenced_by(generations[i], file)
}

pub open spec fn is_referenced_by(generation: GenerationView, file: Seq<Part>) -> bool {
    exists|k: int|
        0 <= k < generation.references.len() && (#[trigger] generation.references[k]).path.is_prefix_of(
            file,
        )
}

/// Whether a file is a layer that no checkpoint refers to.
pub open spec fn is_unused_layer(generations: Seq<GenerationView>, file: Seq<Part>) -> bool {
    &&& StorePath::name_of(file) matches Some(name)
    &&& paths::has_extension(name, text::text_bytes("commit"@))
    &&& !is_referenced(generations, file)
}

/// The unused layers among the first `count` files of a generation.
pub open spec fn unused_layers_of(
    generations: Seq<GenerationView>,
    files: Seq<Seq<Part>>,
    count: nat,
) -> Seq<Seq<Part>>
    decreases count,
{
    if count == 0 {
        Seq::empty()
    } else {
        let before = unused_layers_of(generations, files, (count - 1) as nat);
        if is_unused_layer(generations, files[count - 1]) {
            before.push(files[count - 1])
        } else {
            before
        }
    }
}

/// Whether the unused layers of a kept generation may go: its checkpoint is complete and no live
/// guest uses it.
pub open spec fn may_lose_layers(generation: GenerationView, protected: Seq<ReferenceView>) -> bool {
    generation.completed_at is Some && !is_live(generation, protected)
}

/// What is removed.
pub struct SelectionView {
    pub generations: Seq<Seq<Part>>,
    pub unused_layers: Seq<Seq<Part>>,
    pub removed_files: Seq<Seq<Part>>,
}

/// What is removed of the first `count` generations.
pub open spec fn selection(
    survey: SurveyView,
    protected: Seq<ReferenceView>,
    count: nat,
) -> SelectionView
    decreases count,
{
    if count == 0 {
        SelectionView {
            generations: Seq::empty(),
            unused_layers: Seq::empty(),
            removed_files: Seq::empty(),
        }
    } else {
        let before = selection(survey, protected, (count - 1) as nat);
        let generation = survey.generations[count - 1];
        if !retained(survey, protected)[count - 1] {
            SelectionView {
                generations: before.generations.push(generation.root),
                unused_layers: before.unused_layers,
                removed_files: before.removed_files + generation.files,
            }
        } else if may_lose_layers(generation, protected) {
            let layers = unused_layers_of(
                survey.generations,
                generation.files,
                generation.files.len(),
            );
            SelectionView {
                generations: before.generations,
                unused_layers: before.unused_layers + layers,
                removed_files: before.removed_files + layers,
            }
        } else {
            before
        }
    }
}

/// How many of the first `count` flags are set.
pub open spec fn count_set(flags: Seq<bool>, count: nat) -> nat
    decreases count,
{
    if count == 0 {
        0
    } else {
        count_set(flags, (count - 1) as nat) + if flags[count - 1] {
            1nat
        } else {
            0
        }
    }
}

/// The first of these references that lies in the store and does not exist.
pub open spec fn first_missing_in(artifacts: Seq<Part>, references: Seq<ReferenceView>) -> Option<
    Seq<Part>,
>
    decreases references.len(),
{
    if references.len() == 0 {
        None
    } else if artifacts.is_prefix_of(references[0].path) && !references[0].exists {
        Some(references[0].path)
    } else {
        first_missing_in(artifacts, references.skip(1))
    }
}

/// The first missing reference of these generations, and then of the live guests.
pub open spec fn first_missing(
    artifacts: Seq<Part>,
    generations: Seq<GenerationView>,
    protected: Seq<ReferenceView>,
) -> Option<Seq<Part>>
    decreases generations.len(),
{
    if generations.len() == 0 {
        first_missing_in(artifacts, protected)
    } else {
        match first_missing_in(artifacts, generations[0].references) {
            Some(path) => Some(path),
            None => first_missing(artifacts, generations.skip(1), protected),
        }
    }
}

/// Whether every current generation was found in the store.
pub open spec fn current_is_known(survey: SurveyView) -> bool {
    forall|k: int|
        0 <= k < survey.current.len() ==> has_root(survey.generations, #[trigger] survey.current[k])
}

pub open spec fn has_root(generations: Seq<GenerationView>, root: Seq<Part>) -> bool {
    exists|i: int| 0 <= i < generations.len() && (#[trigger] generations[i]).root == root
}

// ---------------------------------------------------------------------------------------------
// The survey of a store
// ---------------------------------------------------------------------------------------------

/// What was found in a store. The artifacts directory and the current generations are canonical
/// paths.
#[derive(Debug)]
pub struct RetentionSurvey {
    artifacts: StorePath,
    current: Vec<StorePath>,
    generations: Vec<Generation>,
}

pub struct SurveyView {
    pub artifacts: Seq<Part>,
    pub current: Seq<Seq<Part>>,
    pub generations: Seq<GenerationView>,
}

impl View for RetentionSurvey {
    type V = SurveyView;

    closed spec fn view(&self) -> SurveyView {
        SurveyView {
            artifacts: self.artifacts@,
            current: paths_view(self.current@),
            generations: Seq::new(self.generations@.len(), |i: int| self.generations@[i]@),
        }
    }
}

/// Whether the generations stand in the order of their paths, each once.
pub open spec fn is_ordered(generations: Seq<GenerationView>) -> bool {
    forall|i: int, j: int|
        0 <= i < j < generations.len() ==> path_order::parts_before(
            (#[trigger] generations[i]).root,
            (#[trigger] generations[j]).root,
        )
}

/// Where a generation with this root belongs.
pub open spec fn place_of(generations: Seq<GenerationView>, root: Seq<Part>, from: int) -> int
    decreases generations.len() - from,
{
    if from >= generations.len() {
        from
    } else if path_order::parts_before(generations[from].root, root) {
        place_of(generations, root, from + 1)
    } else {
        from
    }
}

/// The generations with one more at its place; it takes the place of one with the same root.
pub open spec fn with_generation(
    generations: Seq<GenerationView>,
    generation: GenerationView,
) -> Seq<GenerationView> {
    let place = place_of(generations, generation.root, 0);
    if place < generations.len() && generations[place].root == generation.root {
        generations.update(place, generation)
    } else {
        generations.insert(place, generation)
    }
}

impl RetentionSurvey {
    #[verifier::type_invariant]
    spec fn ordered(self) -> bool {
        is_ordered(self@.generations)
    }

    pub fn new(artifacts: StorePath, current: Vec<StorePath>) -> (survey: RetentionSurvey)
        ensures
            survey@.artifacts == artifacts@,
            survey@.current == paths_view(current@),
            survey@.generations == Seq::<GenerationView>::empty(),
    {
        let survey = RetentionSurvey { artifacts, current, generations: Vec::new() };
        assert(survey@.generations =~= Seq::<GenerationView>::empty());
        survey
    }

    /// The generations of a survey stand in the order of their paths, each once.
    pub fn generations_are_ordered(&self)
        ensures
            is_ordered(self@.generations),
    {
        proof {
            use_type_invariant(self);
        }
    }

    /// Adds the generation at `root` in the directory `sandbox_name`. `references` is what the
    /// checkpoint refers to, where its schema is known. A generation that is not complete may refer
    /// to anything: nothing is added, and the survey is given up.
    pub fn add_generation(
        &mut self,
        sandbox_name: &[u8],
        root: StorePath,
        files: Vec<StorePath>,
        found: Result<PersistedPausedRecord, String>,
        references: Option<Vec<ReferencedPath>>,
        marker_present: bool,
    ) -> (outcome: Result<(), RetentionRefusal>)
        ensures
            found matches Err(source) ==> outcome == Err::<(), RetentionRefusal>(
                (RetentionRefusal::UnreadableRecord { source }),
            ) && final(self)@ == old(self)@,
            found matches Ok(record) ==> ({
                let same_identity = record.artifact_root@ == root@ && record.metadata.id.text()
                    == text::lossy_text(sandbox_name@);
                match outcome {
                    Ok(_) => {
                        &&& same_identity
                        &&& references matches Some(references)
                        &&& final(self)@.artifacts == old(self)@.artifacts
                        &&& final(self)@.current == old(self)@.current
                        &&& final(self)@.generations == with_generation(
                            old(self)@.generations,
                            GenerationView {
                                root: root@,
                                sandbox_id: record.metadata.id,
                                files: paths_view(files@),
                                references: references_view(references@),
                                completed_at: completion(&record, marker_present),
                            },
                        )
                    },
                    Err(RetentionRefusal::IdentityDiffers) => !same_identity && final(self)@
                        == old(self)@,
                    Err(RetentionRefusal::UnknownSchema) => same_identity && references is None
                        && final(self)@ == old(self)@,
                    Err(_) => false,
                }
            }),
    {
        let record = match found {
            Ok(record) => record,
            Err(source) => return Err(RetentionRefusal::UnreadableRecord { source }),
        };
        if !record.artifact_root.same(&root) || record.metadata.id.to_text() != text::utf8_lossy(
            sandbox_name,
        ) {
            return Err(RetentionRefusal::IdentityDiffers);
        }
        let references = match references {
            Some(references) => references,
            None => return Err(RetentionRefusal::UnknownSchema),
        };
        let completed_at = if record.commit_state == PersistedPausedCommitState::Committed
            && !record.metadata.resume_recovery_pending && !marker_present {
            record.checkpoint_at_unix_ms
        } else {
            None
        };
        let generation = Generation {
            root,
            sandbox_id: record.metadata.id,
            files,
            references,
            completed_at,
        };
        self.insert(generation);
        Ok(())
    }

    fn insert(&mut self, generation: Generation)
        ensures
            final(self)@.artifacts == old(self)@.artifacts,
            final(self)@.current == old(self)@.current,
            final(self)@.generations == with_generation(old(self)@.generations, generation@),
    {
        proof {
            use_type_invariant(&*self);
        }
        let ghost gens = self@.generations;
        let mut place: usize = 0;
        while place < self.generations.len() && path_order::is_before(
            &self.generations[place].root,
            &generation.root,
        )
            invariant
                place <= self.generations@.len(),
                gens == self@.generations,
                place_of(gens, generation@.root, 0) == place_of(gens, generation@.root, place as int),
                forall|i: int| 0 <= i < place ==> path_order::parts_before(
                    #[trigger] gens[i].root,
                    generation@.root,
                ),
            decreases self.generations@.len() - place,
        {
            assert(gens[place as int].root == self.generations@[place as int].root@);
            place += 1;
        }
        assert(place < gens.len() ==> gens[place as int].root == self.generations@[place as int].root@);
        proof {
            ordered_with_generation(gens, generation@, place as int);
        }
        if place < self.generations.len() && self.generations[place].root.same(&generation.root) {
            self.replace_generation(place, generation);
        } else {
            self.insert_generation(place, generation);
        }
    }

    fn replace_generation(&mut self, place: usize, generation: Generation)
        requires
            place < old(self)@.generations.len(),
            is_ordered(old(self)@.generations.update(place as int, generation@)),
        ensures
            final(self)@.artifacts == old(self)@.artifacts,
            final(self)@.current == old(self)@.current,
            final(self)@.generations == old(self)@.generations.update(place as int, generation@),
    {
        let mut generations: Vec<Generation> = Vec::new();
        core::mem::swap(&mut generations, &mut self.generations);
        let ghost before = generations@;
        generations.set(place, generation);
        let ghost after = generations@;
        assert(Seq::new(after.len(), |i: int| after[i]@) =~= Seq::new(
            before.len(),
            |i: int| before[i]@,
        ).update(place as int, generation@));
        self.generations = generations;
    }

    fn insert_generation(&mut self, place: usize, generation: Generation)
        requires
            place <= old(self)@.generations.len(),
            is_ordered(old(self)@.generations.insert(place as int, generation@)),
        ensures
            final(self)@.artifacts == old(self)@.artifacts,
            final(self)@.current == old(self)@.current,
            final(self)@.generations == old(self)@.generations.insert(place as int, generation@),
    {
        let mut generations: Vec<Generation> = Vec::new();
        core::mem::swap(&mut generations, &mut self.generations);
        let ghost before = generations@;
        generations.insert(place, generation);
        let ghost after = generations@;
        assert(Seq::new(after.len(), |i: int| after[i]@) =~= Seq::new(
            before.len(),
            |i: int| before[i]@,
        ).insert(place as int, generation@));
        self.generations = generations;
    }
}

proof fn ordered_with_generation(
    generations: Seq<GenerationView>,
    generation: GenerationView,
    place: int,
)
    requires
        is_ordered(generations),
        0 <= place <= generations.len(),
        place == place_of(generations, generation.root, 0),
        forall|i: int| 0 <= i < place ==> path_order::parts_before(
            #[trigger] generations[i].root,
            generation.root,
        ),
        place < generations.len() ==> !path_order::parts_before(
            generations[place].root,
            generation.root,
        ),
    ensures
        is_ordered(with_generation(generations, generation)),
{
    let next = with_generation(generations, generation);
    let replaced = place < generations.len() && generations[place].root == generation.root;
    assert forall|i: int| place <= i < generations.len() && !(replaced && i == place) implies path_order::parts_before(
        generation.root,
        #[trigger] generations[i].root,
    ) by {
        path_order::path_order_is_total(generations[place].root, generation.root);
        if !replaced && i > place {
            path_order::path_order_is_transitive(
                generation.root,
                generations[place].root,
                generations[i].root,
            );
        }
    }
    assert forall|i: int, j: int| 0 <= i < j < next.len() implies path_order::parts_before(
        (#[trigger] next[i]).root,
        (#[trigger] next[j]).root,
    ) by {
        let ii = if replaced || i < place { i } else { i - 1 };
        let jj = if replaced || j < place { j } else { j - 1 };
        if i != place && j != place {
            assert(next[i] == generations[ii] && next[j] == generations[jj]);
        } else if i == place {
            assert(next[j] == generations[jj]);
        } else {
            assert(next[i] == generations[i]);
        }
    }
}

/// What a plan removes, with the files whose links have to be counted.
#[derive(Debug)]
pub struct RetentionSelection {
    pub generations: Vec<StorePath>,
    pub unused_layers: Vec<StorePath>,
    pub removed_files: Vec<StorePath>,
    pub retained_generations: usize,
}

impl RetentionSelection {
    pub open spec fn removed(&self) -> SelectionView {
        SelectionView {
            generations: paths_view(self.generations@),
            unused_layers: paths_view(self.unused_layers@),
            removed_files: paths_view(self.removed_files@),
        }
    }
}

fn push_path(paths: &mut Vec<StorePath>, path: &StorePath)
    ensures
        paths_view(final(paths)@) == paths_view(old(paths)@).push(path@),
{
    let ghost before = paths@;
    paths.push(path.copy());
    assert(paths_view(paths@) =~= paths_view(before).push(path@));
}

fn push_paths(paths: &mut Vec<StorePath>, more: &Vec<StorePath>)
    ensures
        paths_view(final(paths)@) == paths_view(old(paths)@) + paths_view(more@),
{
    let ghost before = paths_view(paths@);
    let mut at: usize = 0;
    assert(paths_view(paths@) =~= before + paths_view(more@).take(0));
    while at < more.len()
        invariant
            at <= more@.len(),
            paths_view(paths@) == before + paths_view(more@).take(at as int),
        decreases more@.len() - at,
    {
        push_path(paths, &more[at]);
        assert(before + paths_view(more@).take(at + 1) =~= (before + paths_view(more@).take(at as int)).push(
            paths_view(more@)[at as int],
        ));
        at += 1;
    }
    assert(paths_view(more@).take(at as int) =~= paths_view(more@));
}

/// Whether one of these paths lies in the directory `root`.
fn any_inside(references: &Vec<ReferencedPath>, root: &StorePath) -> (answer: bool)
    ensures
        answer == exists|k: int|
            0 <= k < references@.len() && root@.is_prefix_of(
                #[trigger] references_view(references@)[k].path,
            ),
{
    let mut at: usize = 0;
    while at < references.len()
        invariant
            at <= references@.len(),
            forall|k: int| 0 <= k < at ==> !root@.is_prefix_of(
                #[trigger] references_view(references@)[k].path,
            ),
        decreases references@.len() - at,
    {
        if references[at].path.starts_with(root) {
            assert(root@.is_prefix_of(references_view(references@)[at as int].path));
            return true;
        }
        at += 1;
    }
    false
}

fn missing_reference(artifacts: &StorePath, references: &Vec<ReferencedPath>) -> (missing: Option<
    StorePath,
>)
    ensures
        match missing {
            Some(path) => first_missing_in(artifacts@, references_view(references@)) == Some(path@),
            None => first_missing_in(artifacts@, references_view(references@)) is None,
        },
{
    let ghost all = references_view(references@);
    let mut at: usize = 0;
    assert(all.skip(0) =~= all);
    while at < references.len()
        invariant
            at <= references@.len(),
            all == references_view(references@),
            first_missing_in(artifacts@, all) == first_missing_in(artifacts@, all.skip(at as int)),
        decreases references@.len() - at,
    {
        assert(all.skip(at as int)[0] == references@[at as int]@);
        if references[at].path.starts_with(artifacts) && !references[at].exists {
            return Some(references[at].path.copy());
        }
        assert(all.skip(at as int).skip(1) =~= all.skip(at + 1));
        at += 1;
    }
    None
}

/// Whether every marked generation is marked in every choice that keeps enough.
spec fn is_justified(
    survey: SurveyView,
    protected: Seq<ReferenceView>,
    keep: Seq<bool>,
) -> bool {
    forall|other: Seq<bool>| #[trigger]
        keeps_enough(survey, protected, other) ==> forall|i: int|
            0 <= i < keep.len() && keep[i] ==> #[trigger] other[i]
}

impl RetentionSurvey {
    fn is_more_recent(&self, left: usize, right: usize) -> (answer: bool)
        requires
            left < self@.generations.len(),
            right < self@.generations.len(),
        ensures
            answer == more_recent(
                self@.generations[left as int],
                self@.generations[right as int],
            ),
    {
        match (self.generations[left].completed_at, self.generations[right].completed_at) {
            (Some(l), Some(r)) => l > r || (l == r && path_order::is_before(
                &self.generations[right].root,
                &self.generations[left].root,
            )),
            _ => false,
        }
    }

    fn has_rollback_copy(&self, at: usize) -> (answer: bool)
        requires
            at < self@.generations.len(),
        ensures
            answer == is_rollback_copy(self@.generations, at as int),
    {
        let ghost gens = self@.generations;
        if self.generations[at].completed_at.is_none() {
            return false;
        }
        let mut newer: usize = 0;
        let mut count: usize = 0;
        while count < self.generations.len()
            invariant
                count <= self.generations@.len(),
                at < self.generations@.len(),
                gens == self@.generations,
                newer <= count,
                newer == newer_checkpoints(gens, gens[at as int], count as nat),
            decreases self.generations@.len() - count,
        {
            if self.generations[count].sandbox_id == self.generations[at].sandbox_id
                && self.is_more_recent(count, at) {
                newer += 1;
            }
            count += 1;
        }
        newer < 2
    }

    fn has_current(&self, at: usize) -> (answer: bool)
        requires
            at < self@.generations.len(),
        ensures
            answer == self@.current.contains(self@.generations[at as int].root),
    {
        let ghost root = self@.generations[at as int].root;
        let mut k: usize = 0;
        while k < self.current.len()
            invariant
                k <= self.current@.len(),
                at < self.generations@.len(),
                root == self@.generations[at as int].root,
                forall|i: int| 0 <= i < k ==> self@.current[i] != root,
            decreases self.current@.len() - k,
        {
            if self.current[k].same(&self.generations[at].root) {
                assert(self@.current[k as int] == root);
                return true;
            }
            k += 1;
        }
        false
    }

    fn has_live(&self, at: usize, protected: &Vec<ReferencedPath>) -> (answer: bool)
        requires
            at < self@.generations.len(),
        ensures
            answer == is_live(self@.generations[at as int], references_view(protected@)),
    {
        any_inside(protected, &self.generations[at].root)
    }

    fn has_reference_to(&self, from: usize, to: usize) -> (answer: bool)
        requires
            from < self@.generations.len(),
            to < self@.generations.len(),
        ensures
            answer == refers_to(self@.generations[from as int], self@.generations[to as int]),
    {
        let answer = any_inside(&self.generations[from].references, &self.generations[to].root);
        let ghost references = self@.generations[from as int].references;
        let ghost root = self@.generations[to as int].root;
        assert(references == references_view(self.generations@[from as int].references@));
        assert(answer ==> exists|k: int|
            0 <= k < references.len() && root.is_prefix_of(#[trigger] references[k].path));
        answer
    }

    fn knows_current(&self) -> (answer: bool)
        ensures
            answer == current_is_known(self@),
    {
        let mut k: usize = 0;
        while k < self.current.len()
            invariant
                k <= self.current@.len(),
                forall|i: int| 0 <= i < k ==> has_root(self@.generations, #[trigger] self@.current[i]),
            decreases self.current@.len() - k,
        {
            let mut found = false;
            let mut i: usize = 0;
            while i < self.generations.len() && !found
                invariant
                    i <= self.generations@.len(),
                    k < self.current@.len(),
                    found ==> has_root(self@.generations, self@.current[k as int]),
                    !found ==> forall|j: int|
                        0 <= j < i ==> (#[trigger] self@.generations[j]).root
                            != self@.current[k as int],
                decreases self.generations@.len() - i + if found { 0int } else { 1int },
            {
                if self.generations[i].root.same(&self.current[k]) {
                    assert(self@.generations[i as int].root == self@.current[k as int]);
                    found = true;
                } else {
                    i += 1;
                }
            }
            if !found {
                assert(!has_root(self@.generations, self@.current[k as int]));
                return false;
            }
            k += 1;
        }
        true
    }

    fn missing(&self, protected: &Vec<ReferencedPath>) -> (missing: Option<StorePath>)
        ensures
            ({
                let first = first_missing(
                    self@.artifacts,
                    self@.generations,
                    references_view(protected@),
                );
                match missing {
                    Some(path) => first == Some(path@),
                    None => first is None,
                }
            }),
    {
        let ghost gens = self@.generations;
        let ghost guests = references_view(protected@);
        let mut at: usize = 0;
        assert(gens.skip(0) =~= gens);
        while at < self.generations.len()
            invariant
                at <= self.generations@.len(),
                gens == self@.generations,
                guests == references_view(protected@),
                first_missing(self@.artifacts, gens, guests) == first_missing(
                    self@.artifacts,
                    gens.skip(at as int),
                    guests,
                ),
            decreases self.generations@.len() - at,
        {
            assert(gens.skip(at as int)[0] == gens[at as int]);
            assert(gens[at as int].references == references_view(
                self.generations@[at as int].references@,
            ));
            let missing = missing_reference(&self.artifacts, &self.generations[at].references);
            if missing.is_some() {
                return missing;
            }
            assert(gens.skip(at as int).skip(1) =~= gens.skip(at + 1));
            at += 1;
        }
        missing_reference(&self.artifacts, protected)
    }

    fn seeds(&self, protected: &Vec<ReferencedPath>) -> (keep: Vec<bool>)
        ensures
            keep@.len() == self@.generations.len(),
            forall|i: int| 0 <= i < keep@.len() ==> keep@[i] == #[trigger] is_seed(
                self@,
                references_view(protected@),
                i,
            ),
    {
        let mut keep: Vec<bool> = Vec::new();
        while keep.len() < self.generations.len()
            invariant
                keep@.len() <= self.generations@.len(),
                forall|i: int| 0 <= i < keep@.len() ==> keep@[i] == #[trigger] is_seed(
                    self@,
                    references_view(protected@),
                    i,
                ),
            decreases self.generations@.len() - keep@.len(),
        {
            let at: usize = keep.len();
            let seed = self.generations[at].completed_at.is_none() || self.has_rollback_copy(at)
                || self.has_current(at) || self.has_live(at, protected);
            keep.push(seed);
        }
        keep
    }

    /// Marks everything that the marked generation `from` refers to.
    fn mark_targets(&self, from: usize, keep: &mut Vec<bool>, protected: Ghost<Seq<ReferenceView>>) -> (
    grown: bool)
        requires
            from < self@.generations.len(),
            old(keep)@.len() == self@.generations.len(),
            old(keep)@[from as int],
            is_justified(self@, protected@, old(keep)@),
        ensures
            final(keep)@.len() == old(keep)@.len(),
            forall|i: int| 0 <= i < old(keep)@.len() && old(keep)@[i] ==> final(keep)@[i],
            is_justified(self@, protected@, final(keep)@),
            forall|j: int|
                0 <= j < final(keep)@.len() && refers_to(
                    self@.generations[from as int],
                    #[trigger] self@.generations[j],
                ) ==> final(keep)@[j],
            !grown ==> final(keep)@ == old(keep)@,
            grown ==> count_set(final(keep)@, final(keep)@.len()) > count_set(
                old(keep)@,
                old(keep)@.len(),
            ),
    {
        let ghost gens = self@.generations;
        let ghost before = keep@;
        let mut grown = false;
        let mut at: usize = 0;
        while at < keep.len()
            invariant
                at <= keep@.len(),
                gens == self@.generations,
                from < gens.len(),
                keep@.len() == before.len() == gens.len(),
                before[from as int],
                forall|i: int| 0 <= i < before.len() && before[i] ==> keep@[i],
                is_justified(self@, protected@, keep@),
                forall|j: int| 0 <= j < at && refers_to(gens[from as int], #[trigger] gens[j]) ==> keep@[j],
                !grown ==> keep@ == before,
                grown ==> count_set(keep@, keep@.len()) > count_set(before, before.len()),
            decreases keep@.len() - at,
        {
            if !keep[at] && self.has_reference_to(from, at) {
                let ghost current = keep@;
                keep.set(at, true);
                grown = true;
                proof {
                    assert(keep@ == current.update(at as int, true));
                    count_grows(current, at as int, current.len());
                    assert forall|other: Seq<bool>|
                        #[trigger] keeps_enough(self@, protected@, other) implies forall|i: int|
                        0 <= i < keep@.len() && keep@[i] ==> #[trigger] other[i] by {
                        assert(other[from as int]);
                        assert(refers_to(gens[from as int], gens[at as int]));
                        assert(other[at as int]);
                    }
                }
            }
            at += 1;
        }
        grown
    }

    /// For each generation whether it is kept.
    fn closure(&self, protected: &Vec<ReferencedPath>) -> (keep: Vec<bool>)
        ensures
            keep@ == retained(self@, references_view(protected@)),
    {
        let ghost gens = self@.generations;
        let ghost guests = references_view(protected@);
        let mut keep = self.seeds(protected);
        proof {
            assert(is_justified(self@, guests, keep@)) by {
                assert forall|other: Seq<bool>| #[trigger]
                    keeps_enough(self@, guests, other) implies forall|i: int|
                    0 <= i < keep@.len() && keep@[i] ==> #[trigger] other[i] by {
                    assert forall|i: int| 0 <= i < keep@.len() && keep@[i] implies #[trigger] other[i] by {
                        assert(is_seed(self@, guests, i));
                    }
                }
            }
            count_is_bounded(keep@, keep@.len());
        }
        let mut growing = true;
        while growing
            invariant
                gens == self@.generations,
                guests == references_view(protected@),
                keep@.len() == gens.len(),
                forall|i: int| 0 <= i < gens.len() && #[trigger] is_seed(self@, guests, i) ==> keep@[i],
                is_justified(self@, guests, keep@),
                !growing ==> is_closed(gens, keep@),
                count_set(keep@, keep@.len()) <= gens.len(),
            decreases gens.len() - count_set(keep@, keep@.len()), if growing { 1int } else { 0int },
        {
            let ghost start = keep@;
            growing = false;
            let mut at: usize = 0;
            while at < keep.len()
                invariant
                    at <= keep@.len(),
                    gens == self@.generations,
                    keep@.len() == start.len() == gens.len(),
                    forall|i: int| 0 <= i < start.len() && start[i] ==> keep@[i],
                    is_justified(self@, guests, keep@),
                    !growing ==> keep@ == start,
                    !growing ==> forall|i: int, j: int|
                        #![trigger refers_to(gens[i], gens[j])]
                        0 <= i < at && 0 <= j < gens.len() && keep@[i] && refers_to(gens[i], gens[j])
                            ==> keep@[j],
                    growing ==> count_set(keep@, keep@.len()) > count_set(start, start.len()),
                    count_set(start, start.len()) <= gens.len(),
                    count_set(keep@, keep@.len()) <= gens.len(),
                decreases keep@.len() - at,
            {
                if keep[at] {
                    let grown = self.mark_targets(at, &mut keep, Ghost(guests));
                    if grown {
                        growing = true;
                    }
                    proof {
                        count_is_bounded(keep@, keep@.len());
                    }
                }
                at += 1;
            }
        }
        proof {
            assert(keeps_enough(self@, guests, keep@));
            assert forall|i: int| 0 <= i < keep@.len() implies keep@[i] == is_retained(
                self@,
                guests,
                i,
            ) by {
                if keep@[i] {
                    assert forall|other: Seq<bool>| #[trigger]
                        keeps_enough(self@, guests, other) implies other[i] by {
                        assert(other[i]);
                    }
                }
            }
            assert(keep@ =~= retained(self@, guests));
        }
        keep
    }

    fn has_unused_layer(&self, file: &StorePath) -> (answer: bool)
        ensures
            answer == is_unused_layer(self@.generations, file@),
    {
        let name = match file.file_name() {
            Some(name) => name,
            None => return false,
        };
        proof {
            commit_has_no_dot();
        }
        if !paths::extension_is(&name, "commit".as_bytes()) {
            return false;
        }
        let mut at: usize = 0;
        while at < self.generations.len()
            invariant
                at <= self.generations@.len(),
                forall|i: int| 0 <= i < at ==> !#[trigger] is_referenced_by(
                    self@.generations[i],
                    file@,
                ),
            decreases self.generations@.len() - at,
        {
            let mut k: usize = 0;
            while k < self.generations[at].references.len()
                invariant
                    at < self.generations@.len(),
                    k <= self.generations@[at as int].references@.len(),
                    forall|i: int|
                        0 <= i < k ==> !(#[trigger] self@.generations[at as int].references[i]).path.is_prefix_of(
                            file@,
                        ),
                decreases self.generations@[at as int].references@.len() - k,
            {
                if file.starts_with(&self.generations[at].references[k].path) {
                    assert(self@.generations[at as int].references[k as int].path.is_prefix_of(file@));
                    assert(is_referenced_by(self@.generations[at as int], file@));
                    return false;
                }
                k += 1;
            }
            assert(!is_referenced_by(self@.generations[at as int], file@));
            at += 1;
        }
        true
    }

    fn unused_layers(&self, at: usize) -> (layers: Vec<StorePath>)
        requires
            at < self@.generations.len(),
        ensures
            paths_view(layers@) == unused_layers_of(
                self@.generations,
                self@.generations[at as int].files,
                self@.generations[at as int].files.len(),
            ),
    {
        let ghost files = self@.generations[at as int].files;
        let mut layers: Vec<StorePath> = Vec::new();
        let mut k: usize = 0;
        assert(paths_view(layers@) =~= Seq::<Seq<Part>>::empty());
        while k < self.generations[at].files.len()
            invariant
                at < self.generations@.len(),
                files == self@.generations[at as int].files,
                k <= self.generations@[at as int].files@.len(),
                paths_view(layers@) == unused_layers_of(self@.generations, files, k as nat),
            decreases self.generations@[at as int].files@.len() - k,
        {
            let file = &self.generations[at].files[k];
            assert(file@ == files[k as int]);
            if self.has_unused_layer(file) {
                push_path(&mut layers, file);
            }
            k += 1;
        }
        layers
    }

    /// What may be removed while the live guests use the paths in `protected`.
    pub fn plan(&self, protected: &Vec<ReferencedPath>) -> (outcome: Result<
        RetentionSelection,
        RetentionRefusal,
    >)
        ensures
            ({
                let guests = references_view(protected@);
                let missing = first_missing(self@.artifacts, self@.generations, guests);
                match outcome {
                    Ok(plan) => {
                        &&& current_is_known(self@)
                        &&& missing is None
                        &&& plan.removed() == selection(self@, guests, self@.generations.len())
                        &&& plan.retained_generations == count_set(
                            retained(self@, guests),
                            self@.generations.len(),
                        )
                    },
                    Err(RetentionRefusal::CurrentOutsideInventory) => !current_is_known(self@),
                    Err(RetentionRefusal::MissingReference { path }) => current_is_known(self@)
                        && missing == Some(path@),
                    Err(_) => false,
                }
            }),
    {
        if !self.knows_current() {
            return Err(RetentionRefusal::CurrentOutsideInventory);
        }
        if let Some(path) = self.missing(protected) {
            return Err(RetentionRefusal::MissingReference { path });
        }
        let keep = self.closure(protected);
        let ghost guests = references_view(protected@);
        let ghost flags = retained(self@, guests);
        let mut plan = RetentionSelection {
            generations: Vec::new(),
            unused_layers: Vec::new(),
            removed_files: Vec::new(),
            retained_generations: 0,
        };
        let mut at: usize = 0;
        assert(plan.removed().generations =~= Seq::<Seq<Part>>::empty());
        assert(plan.removed().unused_layers =~= Seq::<Seq<Part>>::empty());
        assert(plan.removed().removed_files =~= Seq::<Seq<Part>>::empty());
        while at < self.generations.len()
            invariant
                at <= self.generations@.len(),
                guests == references_view(protected@),
                flags == retained(self@, guests),
                keep@ == flags,
                plan.removed() == selection(self@, guests, at as nat),
                plan.retained_generations <= at,
                plan.retained_generations == count_set(flags, at as nat),
            decreases self.generations@.len() - at,
        {
            let ghost generation = self@.generations[at as int];
            if !keep[at] {
                push_path(&mut plan.generations, &self.generations[at].root);
                push_paths(&mut plan.removed_files, &self.generations[at].files);
            } else {
                plan.retained_generations += 1;
                if self.generations[at].completed_at.is_some() && !self.has_live(at, protected) {
                    let layers = self.unused_layers(at);
                    push_paths(&mut plan.unused_layers, &layers);
                    push_paths(&mut plan.removed_files, &layers);
                }
            }
            at += 1;
        }
        Ok(plan)
    }
}

proof fn commit_has_no_dot()
    ensures
        !text::text_bytes("commit"@).contains(paths::DOT),
{
    reveal_strlit("commit");
    let word = "commit"@;
    assert(vstd::utf8::is_ascii_chars(word));
    vstd::utf8::is_ascii_chars_encode_utf8(word);
    assert(text::text_bytes(word) =~= Seq::new(word.len(), |i: int| word[i] as u8));
    assert forall|i: int| 0 <= i < text::text_bytes(word).len() implies text::text_bytes(word)[i]
        != paths::DOT by {
        assert(word[i] as u8 != paths::DOT);
    }
}

proof fn count_is_bounded(flags: Seq<bool>, count: nat)
    requires
        count <= flags.len(),
    ensures
        count_set(flags, count) <= count,
    decreases count,
{
    if count > 0 {
        count_is_bounded(flags, (count - 1) as nat);
    }
}

proof fn count_grows(flags: Seq<bool>, at: int, count: nat)
    requires
        0 <= at < flags.len(),
        !flags[at],
        count <= flags.len(),
    ensures
        count_set(flags.update(at, true), count) == count_set(flags, count) + if at < count {
            1nat
        } else {
            0
        },
    decreases count,
{
    if count > 0 {
        count_grows(flags, at, (count - 1) as nat);
    }
}

// ---------------------------------------------------------------------------------------------
// What is won
// ---------------------------------------------------------------------------------------------

/// The disk space that one removed file occupies.
#[derive(Clone, Copy, Debug, PartialEq, Eq, Structural)]
pub struct FileUsage {
    pub device: u64,
    pub inode: u64,
    pub links: u64,
    /// In units of 512 bytes.
    pub blocks: u64,
}

pub open spec fn same_inode(left: FileUsage, right: FileUsage) -> bool {
    left.device == right.device && left.inode == right.inode
}

/// How many of the first `count` files are links to the inode of `usage`.
pub open spec fn removed_links(usages: Seq<FileUsage>, usage: FileUsage, count: nat) -> nat
    decreases count,
{
    if count == 0 {
        0
    } else {
        removed_links(usages, usage, (count - 1) as nat) + if same_inode(usages[count - 1], usage) {
            1nat
        } else {
            0
        }
    }
}

/// The bytes won by removing all these files that are accounted to the first `count` of them: an
/// inode counts once, at its first link, and only where every link to it is removed.
pub open spec fn bytes_won(usages: Seq<FileUsage>, count: nat) -> nat
    decreases count,
{
    if count == 0 {
        0
    } else {
        let usage = usages[count - 1];
        bytes_won(usages, (count - 1) as nat) + if removed_links(usages, usage, (count - 1) as nat) == 0
            && removed_links(usages, usage, usages.len()) == usage.links {
            (usage.blocks * 512) as nat
        } else {
            0
        }
    }
}

fn count_links(usages: &Vec<FileUsage>, usage: FileUsage, end: usize) -> (links: u64)
    requires
        end <= usages@.len(),
    ensures
        links == removed_links(usages@, usage, end as nat),
        links <= end,
{
    let mut links: u64 = 0;
    let mut at: usize = 0;
    while at < end
        invariant
            at <= end <= usages@.len(),
            links <= at,
            links == removed_links(usages@, usage, at as nat),
        decreases end - at,
    {
        if usages[at].device == usage.device && usages[at].inode == usage.inode {
            links += 1;
        }
        at += 1;
    }
    links
}

proof fn bytes_won_grow(usages: Seq<FileUsage>, small: nat, large: nat)
    requires
        small <= large <= usages.len(),
    ensures
        bytes_won(usages, small) <= bytes_won(usages, large),
    decreases large,
{
    if small < large {
        bytes_won_grow(usages, small, (large - 1) as nat);
    }
}

/// What is removed from a store, and how much that wins.
#[derive(Debug)]
pub struct RetentionPlan {
    pub generations: Vec<StorePath>,
    pub unused_layers: Vec<StorePath>,
    pub reclaimable_bytes: u64,
    pub retained_generations: usize,
}

impl RetentionSelection {
    /// The plan, given the disk space of each removed file.
    pub fn account(self, usages: &Vec<FileUsage>) -> (plan: RetentionPlan)
        requires
            forall|k: int| 0 <= k < usages@.len() ==> (#[trigger] usages@[k]).blocks * 512 <= u64::MAX,
            bytes_won(usages@, usages@.len()) <= u64::MAX,
        ensures
            plan.generations == self.generations,
            plan.unused_layers == self.unused_layers,
            plan.retained_generations == self.retained_generations,
            plan.reclaimable_bytes == bytes_won(usages@, usages@.len()),
    {
        let mut reclaimable_bytes: u64 = 0;
        let mut at: usize = 0;
        while at < usages.len()
            invariant
                at <= usages@.len(),
                forall|k: int| 0 <= k < usages@.len() ==> (#[trigger] usages@[k]).blocks * 512 <= u64::MAX,
                bytes_won(usages@, usages@.len()) <= u64::MAX,
                reclaimable_bytes == bytes_won(usages@, at as nat),
            decreases usages@.len() - at,
        {
            let usage: FileUsage = usages[at];
            proof {
                bytes_won_grow(usages@, (at + 1) as nat, usages@.len());
            }
            if count_links(usages, usage, at) == 0 && count_links(usages, usage, usages.len())
                == usage.links {
                reclaimable_bytes += usage.blocks * 512;
            }
            at += 1;
        }
        RetentionPlan {
            generations: self.generations,
            unused_layers: self.unused_layers,
            reclaimable_bytes,
            retained_generations: self.retained_generations,
        }
    }
}

/// Whether a file is the record of its generation.
pub open spec fn is_manifest(file: Seq<Part>) -> bool {
    StorePath::name_of(file) == Some(crate::orchestrator::persistence::codecs::manifest_name())
}

/// Those of the first `count` files that are records, or those that are not.
pub open spec fn files_with(files: Seq<Seq<Part>>, manifests: bool, count: nat) -> Seq<Seq<Part>>
    decreases count,
{
    if count == 0 {
        Seq::empty()
    } else {
        let before = files_with(files, manifests, (count - 1) as nat);
        if is_manifest(files[count - 1]) == manifests {
            before.push(files[count - 1])
        } else {
            before
        }
    }
}

/// The order in which the files of a generation are removed: the identifying record goes last, so
/// that what an interrupted removal leaves behind can still be recognized.
pub fn removal_order(files: &Vec<StorePath>) -> (order: Vec<StorePath>)
    ensures
        paths_view(order@) == files_with(paths_view(files@), false, files@.len()) + files_with(
            paths_view(files@),
            true,
            files@.len(),
        ),
{
    let ghost all = paths_view(files@);
    let mut payload: Vec<StorePath> = Vec::new();
    let mut manifests: Vec<StorePath> = Vec::new();
    let mut at: usize = 0;
    assert(paths_view(payload@) =~= Seq::<Seq<Part>>::empty());
    assert(paths_view(manifests@) =~= Seq::<Seq<Part>>::empty());
    while at < files.len()
        invariant
            at <= files@.len(),
            all == paths_view(files@),
            paths_view(payload@) == files_with(all, false, at as nat),
            paths_view(manifests@) == files_with(all, true, at as nat),
        decreases files@.len() - at,
    {
        let is_record = match files[at].file_name() {
            Some(name) => text::bytes_equal(&name, "paused-record.v2.json".as_bytes()),
            None => false,
        };
        assert(is_record == is_manifest(all[at as int]));
        if is_record {
            push_path(&mut manifests, &files[at]);
        } else {
            push_path(&mut payload, &files[at]);
        }
        at += 1;
    }
    push_paths(&mut payload, &manifests);
    payload
}

// ---------------------------------------------------------------------------------------------
// Laws
// ---------------------------------------------------------------------------------------------

/// What is kept holds every generation that is kept for its own sake, and everything that the kept
/// generations refer to.
pub proof fn retained_generations_keep_enough(survey: SurveyView, protected: Seq<ReferenceView>)
    ensures
        keeps_enough(survey, protected, retained(survey, protected)),
{
    let keep = retained(survey, protected);
    let gens = survey.generations;
    assert forall|i: int, j: int|
        #![trigger refers_to(gens[i], gens[j])]
        0 <= i < keep.len() && 0 <= j < keep.len() && keep[i] && refers_to(gens[i], gens[j]) implies keep[j] by {
        assert(is_retained(survey, protected, i));
        assert forall|other: Seq<bool>| #[trigger]
            keeps_enough(survey, protected, other) implies other[j] by {
            assert(other[i]);
            assert(is_closed(gens, other));
        }
    }
    assert forall|i: int| 0 <= i < keep.len() && #[trigger] is_seed(survey, protected, i) implies keep[i] by {
        assert forall|other: Seq<bool>| #[trigger]
            keeps_enough(survey, protected, other) implies other[i] by {}
    }
}

/// The current generation, the two latest complete ones, every incomplete or uncertain one and
/// every one that a live guest uses is kept.
pub proof fn protected_generations_are_retained(
    survey: SurveyView,
    protected: Seq<ReferenceView>,
    at: int,
)
    requires
        0 <= at < survey.generations.len(),
        survey.current.contains(survey.generations[at].root) || is_rollback_copy(
            survey.generations,
            at,
        ) || survey.generations[at].completed_at is None || is_live(
            survey.generations[at],
            protected,
        ),
    ensures
        retained(survey, protected)[at],
{
    retained_generations_keep_enough(survey, protected);
    assert(is_seed(survey, protected, at));
}

/// No kept generation and no live guest refers to anything inside a removed generation.
pub proof fn removed_generations_are_unreferenced(
    survey: SurveyView,
    protected: Seq<ReferenceView>,
    kept: int,
    removed: int,
)
    requires
        0 <= kept < survey.generations.len(),
        0 <= removed < survey.generations.len(),
        retained(survey, protected)[kept],
        !retained(survey, protected)[removed],
    ensures
        !refers_to(survey.generations[kept], survey.generations[removed]),
        !is_live(survey.generations[removed], protected),
        survey.generations[removed].completed_at is Some,
        !survey.current.contains(survey.generations[removed].root),
{
    retained_generations_keep_enough(survey, protected);
    assert(!is_seed(survey, protected, removed));
    if refers_to(survey.generations[kept], survey.generations[removed]) {
        assert(retained(survey, protected)[removed]);
    }
}

/// Nothing beyond what is needed is kept: whatever keeps enough keeps all of it.
pub proof fn nothing_more_is_retained(
    survey: SurveyView,
    protected: Seq<ReferenceView>,
    keep: Seq<bool>,
    at: int,
)
    requires
        keeps_enough(survey, protected, keep),
        0 <= at < survey.generations.len(),
        retained(survey, protected)[at],
    ensures
        keep[at],
{
    assert(is_retained(survey, protected, at));
}

/// A removed layer is a `.commit` file that no checkpoint refers to, in a kept generation whose
/// checkpoint is complete and that no live guest uses.
pub proof fn removed_layers_are_unused(
    survey: SurveyView,
    protected: Seq<ReferenceView>,
    count: nat,
    layer: Seq<Part>,
)
    requires
        count <= survey.generations.len(),
        selection(survey, protected, count).unused_layers.contains(layer),
    ensures
        is_unused_layer(survey.generations, layer),
        exists|at: int|
            #![trigger survey.generations[at]]
            {
                &&& 0 <= at < count
                &&& retained(survey, protected)[at]
                &&& may_lose_layers(survey.generations[at], protected)
                &&& survey.generations[at].files.contains(layer)
            },
    decreases count,
{
    if count > 0 {
        let before = selection(survey, protected, (count - 1) as nat);
        let generation = survey.generations[count - 1];
        if before.unused_layers.contains(layer) {
            removed_layers_are_unused(survey, protected, (count - 1) as nat, layer);
        } else {
            let layers = unused_layers_of(
                survey.generations,
                generation.files,
                generation.files.len(),
            );
            let all = selection(survey, protected, count).unused_layers;
            let k = choose|k: int| 0 <= k < all.len() && all[k] == layer;
            assert(k >= before.unused_layers.len()) by {
                if k < before.unused_layers.len() {
                    assert(before.unused_layers[k] == layer);
                }
            }
            assert(layers[k - before.unused_layers.len()] == layer);
            layers_come_from_files(survey.generations, generation.files, generation.files.len(), layer);
            assert(survey.generations[count - 1].files.contains(layer));
        }
    }
}

proof fn layers_come_from_files(
    generations: Seq<GenerationView>,
    files: Seq<Seq<Part>>,
    count: nat,
    layer: Seq<Part>,
)
    requires
        count <= files.len(),
        unused_layers_of(generations, files, count).contains(layer),
    ensures
        is_unused_layer(generations, layer),
        files.contains(layer),
    decreases count,
{
    if count > 0 {
        let before = unused_layers_of(generations, files, (count - 1) as nat);
        if before.contains(layer) {
            layers_come_from_files(generations, files, (count - 1) as nat, layer);
        } else {
            let all = unused_layers_of(generations, files, count);
            let k = choose|k: int| 0 <= k < all.len() && all[k] == layer;
            if k < before.len() {
                assert(before[k] == layer);
            }
            assert(files[count - 1] == layer);
        }
    }
}

/// A generation is removed exactly if it is not kept.
pub proof fn exactly_the_unretained_are_removed(
    survey: SurveyView,
    protected: Seq<ReferenceView>,
    count: nat,
    at: int,
)
    requires
        is_ordered(survey.generations),
        count <= survey.generations.len(),
        0 <= at < survey.generations.len(),
    ensures
        selection(survey, protected, count).generations.contains(survey.generations[at].root) <==> (at
            < count && !retained(survey, protected)[at]),
    decreases count,
{
    if count > 0 {
        exactly_the_unretained_are_removed(survey, protected, (count - 1) as nat, at);
        let before = selection(survey, protected, (count - 1) as nat).generations;
        let root = survey.generations[at].root;
        let last = survey.generations[count - 1].root;
        if !retained(survey, protected)[count - 1] {
            let all = selection(survey, protected, count).generations;
            assert(all == before.push(last));
            assert(all.contains(root) <==> before.contains(root) || last == root) by {
                if before.contains(root) {
                    let k = choose|k: int| 0 <= k < before.len() && before[k] == root;
                    assert(all[k] == root);
                }
                if last == root {
                    assert(all[before.len() as int] == root);
                }
                if all.contains(root) && last != root {
                    let k = choose|k: int| 0 <= k < all.len() && all[k] == root;
                    assert(before[k] == root);
                }
            }
            if at != count - 1 {
                path_order::path_order_is_total(root, last);
                if at < count - 1 {
                    assert(path_order::parts_before(survey.generations[at].root, survey.generations[count - 1].root));
                } else {
                    assert(path_order::parts_before(survey.generations[count - 1].root, survey.generations[at].root));
                }
            }
        }
    }
}

/// Whether the generation at `later` holds a complete checkpoint of the same sandbox as the one at
/// `at`, taken after it, or at the same time under a later path.
pub open spec fn came_later(survey: SurveyView, later: int, at: int) -> bool {
    let (found, other) = (survey.generations[later], survey.generations[at]);
    &&& 0 <= later < survey.generations.len()
    &&& found.sandbox_id == other.sandbox_id
    &&& found.completed_at is Some
    &&& other.completed_at is Some
    &&& found.completed_at->0 > other.completed_at->0 || (found.completed_at == other.completed_at
        && later > at)
}

proof fn recency_is_lateness(survey: SurveyView, later: int, at: int)
    requires
        is_ordered(survey.generations),
        0 <= at < survey.generations.len(),
        0 <= later < survey.generations.len(),
    ensures
        came_later(survey, later, at) <==> survey.generations[later].sandbox_id
            == survey.generations[at].sandbox_id && more_recent(
            survey.generations[later],
            survey.generations[at],
        ),
{
    let gens = survey.generations;
    path_order::path_order_is_total(gens[at].root, gens[later].root);
    if later > at {
        assert(path_order::parts_before(gens[at].root, gens[later].root));
    } else if later < at {
        assert(path_order::parts_before(gens[later].root, gens[at].root));
    }
}

proof fn a_counted_checkpoint_is_later(survey: SurveyView, at: int, count: nat)
    requires
        is_ordered(survey.generations),
        0 <= at < survey.generations.len(),
        count <= survey.generations.len(),
        newer_checkpoints(survey.generations, survey.generations[at], count) >= 1,
    ensures
        exists|i: int| 0 <= i < count && #[trigger] came_later(survey, i, at),
    decreases count,
{
    if count > 0 {
        recency_is_lateness(survey, count - 1, at);
        if !came_later(survey, count - 1, at) {
            a_counted_checkpoint_is_later(survey, at, (count - 1) as nat);
            let i = choose|i: int| 0 <= i < count - 1 && #[trigger] came_later(survey, i, at);
            assert(came_later(survey, i, at));
        }
    }
}

proof fn two_counted_checkpoints_are_later(survey: SurveyView, at: int, count: nat)
    requires
        is_ordered(survey.generations),
        0 <= at < survey.generations.len(),
        count <= survey.generations.len(),
        newer_checkpoints(survey.generations, survey.generations[at], count) >= 2,
    ensures
        exists|i: int, j: int|
            0 <= i < j < count && #[trigger] came_later(survey, i, at) && #[trigger] came_later(
                survey,
                j,
                at,
            ),
    decreases count,
{
    if count > 0 {
        recency_is_lateness(survey, count - 1, at);
        if came_later(survey, count - 1, at) {
            a_counted_checkpoint_is_later(survey, at, (count - 1) as nat);
            let i = choose|i: int| 0 <= i < count - 1 && #[trigger] came_later(survey, i, at);
            assert(came_later(survey, i, at) && came_later(survey, count - 1, at));
        } else {
            two_counted_checkpoints_are_later(survey, at, (count - 1) as nat);
            let (i, j) = choose|i: int, j: int|
                0 <= i < j < count - 1 && #[trigger] came_later(survey, i, at)
                    && #[trigger] came_later(survey, j, at);
            assert(came_later(survey, i, at) && came_later(survey, j, at));
        }
    }
}

proof fn later_checkpoints_count(survey: SurveyView, at: int, first: int, second: int, count: nat)
    requires
        is_ordered(survey.generations),
        0 <= at < survey.generations.len(),
        count <= survey.generations.len(),
        0 <= first < second,
        came_later(survey, first, at),
        came_later(survey, second, at),
    ensures
        first < count ==> newer_checkpoints(survey.generations, survey.generations[at], count) >= 1,
        second < count ==> newer_checkpoints(survey.generations, survey.generations[at], count) >= 2,
    decreases count,
{
    if count > 0 {
        later_checkpoints_count(survey, at, first, second, (count - 1) as nat);
        recency_is_lateness(survey, count - 1, at);
    }
}

/// For every sandbox, each complete generation with fewer than two later complete ones of the same
/// sandbox stays, whatever other sandboxes have.
pub proof fn the_two_latest_checkpoints_stay(survey: SurveyView, protected: Seq<ReferenceView>, at: int)
    requires
        is_ordered(survey.generations),
        0 <= at < survey.generations.len(),
        survey.generations[at].completed_at is Some,
        forall|i: int, j: int|
            0 <= i < j && #[trigger] came_later(survey, i, at) ==> !#[trigger] came_later(
                survey,
                j,
                at,
            ),
    ensures
        retained(survey, protected)[at],
{
    let count = newer_checkpoints(survey.generations, survey.generations[at], survey.generations.len());
    if count >= 2 {
        two_counted_checkpoints_are_later(survey, at, survey.generations.len());
    }
    protected_generations_are_retained(survey, protected, at);
}

/// A complete generation goes where two later complete ones of its sandbox are there, it is not
/// current, no live guest uses it, and no other generation that stays refers to anything in it.
pub proof fn older_checkpoints_go(
    survey: SurveyView,
    protected: Seq<ReferenceView>,
    at: int,
    first: int,
    second: int,
)
    requires
        is_ordered(survey.generations),
        0 <= at < survey.generations.len(),
        0 <= first < second,
        came_later(survey, first, at),
        came_later(survey, second, at),
        forall|k: int|
            0 <= k < survey.current.len() ==> #[trigger] survey.current[k]
                != survey.generations[at].root,
        forall|k: int|
            0 <= k < protected.len() ==> !survey.generations[at].root.is_prefix_of(
                #[trigger] protected[k].path,
            ),
        forall|i: int, k: int|
            0 <= i < survey.generations.len() && i != at && retained(survey, protected)[i] && 0 <= k
                < survey.generations[i].references.len() ==> !survey.generations[at].root.is_prefix_of(
                #[trigger] survey.generations[i].references[k].path,
            ),
    ensures
        !retained(survey, protected)[at],
{
    let gens = survey.generations;
    let kept = retained(survey, protected);
    let keep = kept.update(at, false);
    later_checkpoints_count(survey, at, first, second, gens.len());
    retained_generations_keep_enough(survey, protected);
    assert(!is_live(gens[at], protected));
    assert(!is_seed(survey, protected, at));
    assert forall|i: int, j: int|
        #![trigger refers_to(gens[i], gens[j])]
        0 <= i < keep.len() && 0 <= j < keep.len() && keep[i] && refers_to(gens[i], gens[j]) implies keep[j] by {
        assert(kept[i]);
        if j == at {
            assert(!refers_to(gens[i], gens[at]));
        }
    }
    assert forall|i: int| 0 <= i < keep.len() && #[trigger] is_seed(survey, protected, i) implies keep[i] by {}
    assert(keeps_enough(survey, protected, keep));
    if kept[at] {
        assert(is_retained(survey, protected, at));
        assert(keep[at]);
    }
}

/// The latest of the first `count` complete generations of a sandbox other than `left_out`.
proof fn a_latest_checkpoint(survey: SurveyView, witness: int, left_out: int, count: nat) -> (latest: int)
    requires
        count <= survey.generations.len(),
        0 <= witness < count,
        witness != left_out,
        survey.generations[witness].completed_at is Some,
    ensures
        0 <= latest < count,
        latest != left_out,
        survey.generations[latest].completed_at is Some,
        survey.generations[latest].sandbox_id == survey.generations[witness].sandbox_id,
        forall|i: int|
            0 <= i < count && i != left_out ==> !#[trigger] came_later(survey, i, latest),
    decreases count,
{
    let last = count - 1;
    let gens = survey.generations;
    let belongs = last != left_out && gens[last].completed_at is Some && gens[last].sandbox_id
        == gens[witness].sandbox_id;
    if exists|w: int|
        0 <= w < last && w != left_out && (#[trigger] gens[w]).completed_at is Some
            && gens[w].sandbox_id == gens[witness].sandbox_id {
        let w = choose|w: int|
            0 <= w < last && w != left_out && (#[trigger] gens[w]).completed_at is Some
                && gens[w].sandbox_id == gens[witness].sandbox_id;
        let before = a_latest_checkpoint(survey, w, left_out, last as nat);
        if belongs && came_later(survey, last, before) {
            assert forall|i: int| 0 <= i < count && i != left_out implies !#[trigger] came_later(
                survey,
                i,
                last,
            ) by {
                if i < last && came_later(survey, i, last) {
                    assert(came_later(survey, i, before));
                }
            }
            last
        } else {
            before
        }
    } else {
        assert(witness == last) by {
            if witness < last {
                assert(gens[witness].completed_at is Some);
            }
        }
        assert forall|i: int| 0 <= i < count && i != left_out implies !#[trigger] came_later(
            survey,
            i,
            last,
        ) by {
            if i < last && came_later(survey, i, last) {
                assert(gens[i].completed_at is Some);
            }
        }
        last
    }
}

/// A sandbox with two complete generations keeps two of them.
pub proof fn two_checkpoints_of_a_sandbox_stay(
    survey: SurveyView,
    protected: Seq<ReferenceView>,
    first: int,
    second: int,
)
    requires
        is_ordered(survey.generations),
        0 <= first < survey.generations.len(),
        0 <= second < survey.generations.len(),
        first != second,
        survey.generations[first].completed_at is Some,
        survey.generations[second].completed_at is Some,
        survey.generations[first].sandbox_id == survey.generations[second].sandbox_id,
    ensures
        exists|i: int, j: int|
            {
                &&& 0 <= i < survey.generations.len()
                &&& 0 <= j < survey.generations.len()
                &&& i != j
                &&& (#[trigger] survey.generations[i]).sandbox_id
                    == survey.generations[first].sandbox_id
                &&& (#[trigger] survey.generations[j]).sandbox_id
                    == survey.generations[first].sandbox_id
                &&& survey.generations[i].completed_at is Some
                &&& survey.generations[j].completed_at is Some
                &&& retained(survey, protected)[i]
                &&& retained(survey, protected)[j]
            },
{
    let gens = survey.generations;
    let latest = a_latest_checkpoint(survey, first, -1, gens.len());
    let other = if latest == first {
        second
    } else {
        first
    };
    let next = a_latest_checkpoint(survey, other, latest, gens.len());
    assert forall|i: int, j: int|
        0 <= i < j && #[trigger] came_later(survey, i, next) implies !#[trigger] came_later(
        survey,
        j,
        next,
    ) by {
        if came_later(survey, j, next) {
            assert(i == latest && j == latest);
        }
    }
    the_two_latest_checkpoints_stay(survey, protected, latest);
    the_two_latest_checkpoints_stay(survey, protected, next);
    assert(gens[latest].completed_at is Some && gens[next].completed_at is Some);
}

/// A generation stays that is current, that is not known to be complete and certain, or inside
/// which a live guest or a generation that stays refers to a path.
pub proof fn what_is_needed_stays(survey: SurveyView, protected: Seq<ReferenceView>, at: int)
    requires
        0 <= at < survey.generations.len(),
    ensures
        survey.generations[at].completed_at is None ==> retained(survey, protected)[at],
        forall|k: int|
            0 <= k < survey.current.len() && #[trigger] survey.current[k]
                == survey.generations[at].root ==> retained(survey, protected)[at],
        forall|k: int|
            0 <= k < protected.len() && survey.generations[at].root.is_prefix_of(
                #[trigger] protected[k].path,
            ) ==> retained(survey, protected)[at],
        forall|i: int, k: int|
            0 <= i < survey.generations.len() && 0 <= k < survey.generations[i].references.len()
                && retained(survey, protected)[i] && survey.generations[at].root.is_prefix_of(
                #[trigger] survey.generations[i].references[k].path,
            ) ==> retained(survey, protected)[at],
{
    let gens = survey.generations;
    retained_generations_keep_enough(survey, protected);
    if gens[at].completed_at is None {
        assert(is_seed(survey, protected, at));
    }
    assert forall|k: int|
        0 <= k < survey.current.len() && #[trigger] survey.current[k] == gens[at].root implies retained(
        survey,
        protected,
    )[at] by {
        assert(is_seed(survey, protected, at));
    }
    assert forall|k: int|
        0 <= k < protected.len() && gens[at].root.is_prefix_of(
            #[trigger] protected[k].path,
        ) implies retained(survey, protected)[at] by {
        assert(is_live(gens[at], protected));
        assert(is_seed(survey, protected, at));
    }
    assert forall|i: int, k: int|
        0 <= i < gens.len() && 0 <= k < gens[i].references.len() && retained(survey, protected)[i]
            && gens[at].root.is_prefix_of(#[trigger] gens[i].references[k].path) implies retained(
        survey,
        protected,
    )[at] by {
        assert(refers_to(gens[i], gens[at]));
    }
}

/// Whether a file is called by at least one byte and `.commit`, and no generation refers to it or
/// to a directory above it.
pub open spec fn is_forgotten_layer(generations: Seq<GenerationView>, file: Seq<Part>) -> bool {
    &&& file.len() > 0
    &&& file.last() matches Part::Name(name)
    &&& name.len() > 7
    &&& name.subrange(name.len() - 7, name.len() as int) == seq![46u8, 99, 111, 109, 109, 105, 116]
    &&& forall|i: int, k: int|
        0 <= i < generations.len() && 0 <= k < generations[i].references.len() ==> !(
        #[trigger] generations[i].references[k]).path.is_prefix_of(file)
}

proof fn unused_layers_are_forgotten(generations: Seq<GenerationView>, file: Seq<Part>)
    ensures
        is_unused_layer(generations, file) <==> is_forgotten_layer(generations, file),
{
    reveal_strlit("commit");
    let word = "commit"@;
    assert(vstd::utf8::is_ascii_chars(word));
    vstd::utf8::is_ascii_chars_encode_utf8(word);
    assert(text::text_bytes(word) =~= seq![99u8, 111, 109, 109, 105, 116]);
    assert(seq![paths::DOT] + text::text_bytes(word) =~= seq![46u8, 99, 111, 109, 109, 105, 116]);
    if is_unused_layer(generations, file) {
        assert forall|i: int, k: int|
            0 <= i < generations.len() && 0 <= k < generations[i].references.len() implies !(
        #[trigger] generations[i].references[k]).path.is_prefix_of(file) by {
            if generations[i].references[k].path.is_prefix_of(file) {
                assert(is_referenced_by(generations[i], file));
            }
        }
    }
    if is_forgotten_layer(generations, file) && is_referenced(generations, file) {
        let i = choose|i: int|
            0 <= i < generations.len() && #[trigger] is_referenced_by(generations[i], file);
        let k = choose|k: int|
            0 <= k < generations[i].references.len() && (
            #[trigger] generations[i].references[k]).path.is_prefix_of(file);
        assert(false);
    }
}

proof fn layers_are_the_unused_files(
    generations: Seq<GenerationView>,
    files: Seq<Seq<Part>>,
    count: nat,
    file: Seq<Part>,
)
    requires
        count <= files.len(),
    ensures
        unused_layers_of(generations, files, count).contains(file) <==> is_unused_layer(
            generations,
            file,
        ) && files.take(count as int).contains(file),
    decreases count,
{
    if count > 0 {
        layers_are_the_unused_files(generations, files, (count - 1) as nat, file);
        let before = unused_layers_of(generations, files, (count - 1) as nat);
        let all = unused_layers_of(generations, files, count);
        assert(files.take(count as int) =~= files.take(count - 1).push(files[count - 1]));
        pushing_adds_one(files.take(count - 1), files[count - 1], file);
        pushing_adds_one(before, files[count - 1], file);
    }
}

proof fn pushing_adds_one(items: Seq<Seq<Part>>, item: Seq<Part>, sought: Seq<Part>)
    ensures
        items.push(item).contains(sought) <==> items.contains(sought) || item == sought,
{
    let all = items.push(item);
    if items.contains(sought) {
        let k = choose|k: int| 0 <= k < items.len() && items[k] == sought;
        assert(all[k] == sought);
    }
    if item == sought {
        assert(all[items.len() as int] == sought);
    }
    if all.contains(sought) && item != sought {
        let k = choose|k: int| 0 <= k < all.len() && all[k] == sought;
        assert(items[k] == sought);
    }
}

proof fn joining_adds_both(left: Seq<Seq<Part>>, right: Seq<Seq<Part>>, sought: Seq<Part>)
    ensures
        (left + right).contains(sought) <==> left.contains(sought) || right.contains(sought),
{
    let all = left + right;
    if left.contains(sought) {
        let k = choose|k: int| 0 <= k < left.len() && left[k] == sought;
        assert(all[k] == sought);
    }
    if right.contains(sought) {
        let k = choose|k: int| 0 <= k < right.len() && right[k] == sought;
        assert(all[left.len() + k] == sought);
    }
    if all.contains(sought) {
        let k = choose|k: int| 0 <= k < all.len() && all[k] == sought;
        if k < left.len() {
            assert(left[k] == sought);
        } else {
            assert(right[k - left.len()] == sought);
        }
    }
}

/// Whether a file is a forgotten layer of the generation at `at`, which stays, holds a complete
/// checkpoint and is used by no live guest.
pub open spec fn loses_layer(
    survey: SurveyView,
    protected: Seq<ReferenceView>,
    at: int,
    file: Seq<Part>,
) -> bool {
    &&& 0 <= at < survey.generations.len()
    &&& retained(survey, protected)[at]
    &&& survey.generations[at].completed_at is Some
    &&& forall|k: int|
        0 <= k < protected.len() ==> !survey.generations[at].root.is_prefix_of(
            #[trigger] protected[k].path,
        )
    &&& survey.generations[at].files.contains(file)
    &&& is_forgotten_layer(survey.generations, file)
}

/// Whether a file is one of the generation at `at`, which goes.
pub open spec fn goes_with_generation(
    survey: SurveyView,
    protected: Seq<ReferenceView>,
    at: int,
    file: Seq<Part>,
) -> bool {
    &&& 0 <= at < survey.generations.len()
    &&& !retained(survey, protected)[at]
    &&& survey.generations[at].files.contains(file)
}

proof fn a_prefix_of_a_plan(
    survey: SurveyView,
    protected: Seq<ReferenceView>,
    count: nat,
    file: Seq<Part>,
)
    requires
        count <= survey.generations.len(),
    ensures
        selection(survey, protected, count).unused_layers.contains(file) <==> exists|at: int|
            at < count && #[trigger] loses_layer(survey, protected, at, file),
        selection(survey, protected, count).removed_files.contains(file) <==> selection(
            survey,
            protected,
            count,
        ).unused_layers.contains(file) || exists|at: int|
            at < count && #[trigger] goes_with_generation(survey, protected, at, file),
        selection(survey, protected, count).generations.len() + count_set(
            retained(survey, protected),
            count,
        ) == count,
    decreases count,
{
    let chosen = selection(survey, protected, count);
    if count > 0 {
        a_prefix_of_a_plan(survey, protected, (count - 1) as nat, file);
        let before = selection(survey, protected, (count - 1) as nat);
        let last = count - 1;
        let generation = survey.generations[last];
        let layers = unused_layers_of(survey.generations, generation.files, generation.files.len());
        layers_are_the_unused_files(
            survey.generations,
            generation.files,
            generation.files.len(),
            file,
        );
        assert(generation.files.take(generation.files.len() as int) =~= generation.files);
        unused_layers_are_forgotten(survey.generations, file);
        joining_adds_both(before.unused_layers, layers, file);
        joining_adds_both(before.removed_files, layers, file);
        joining_adds_both(before.removed_files, generation.files, file);
        assert(loses_layer(survey, protected, last, file) <==> retained(survey, protected)[last]
            && may_lose_layers(generation, protected) && layers.contains(file)) by {
            if loses_layer(survey, protected, last, file) {
                assert(!is_live(generation, protected));
            }
            if may_lose_layers(generation, protected) {
                assert forall|k: int| 0 <= k < protected.len() implies !generation.root.is_prefix_of(
                    #[trigger] protected[k].path,
                ) by {
                    if generation.root.is_prefix_of(protected[k].path) {
                        assert(is_live(generation, protected));
                    }
                }
            }
        }
        assert(goes_with_generation(survey, protected, last, file) <==> !retained(
            survey,
            protected,
        )[last] && generation.files.contains(file));
        if exists|at: int| at < count - 1 && #[trigger] loses_layer(survey, protected, at, file) {
            let at = choose|at: int|
                at < count - 1 && #[trigger] loses_layer(survey, protected, at, file);
            assert(at < count && loses_layer(survey, protected, at, file));
        }
        if exists|at: int| at < count && #[trigger] loses_layer(survey, protected, at, file) {
            let at = choose|at: int| at < count && #[trigger] loses_layer(survey, protected, at, file);
            assert(at == last || at < count - 1);
        }
        if exists|at: int| at < count - 1 && #[trigger] goes_with_generation(survey, protected, at, file) {
            let at = choose|at: int|
                at < count - 1 && #[trigger] goes_with_generation(survey, protected, at, file);
            assert(at < count && goes_with_generation(survey, protected, at, file));
        }
        if exists|at: int| at < count && #[trigger] goes_with_generation(survey, protected, at, file) {
            let at = choose|at: int|
                at < count && #[trigger] goes_with_generation(survey, protected, at, file);
            assert(at == last || at < count - 1);
        }
    } else {
        assert forall|at: int| at < count implies !#[trigger] loses_layer(survey, protected, at, file) by {}
        assert forall|at: int| at < count implies !#[trigger] goes_with_generation(
            survey,
            protected,
            at,
            file,
        ) by {}
    }
}

/// A plan takes single files out of generations that stay exactly where they are forgotten layers,
/// it counts the links of exactly the files that go, and every generation goes or stays.
pub proof fn plans_take_nothing_else(survey: SurveyView, protected: Seq<ReferenceView>, file: Seq<Part>)
    ensures
        ({
            let plan = selection(survey, protected, survey.generations.len());
            &&& plan.unused_layers.contains(file) <==> exists|at: int| #[trigger]
                loses_layer(survey, protected, at, file)
            &&& plan.removed_files.contains(file) <==> plan.unused_layers.contains(file) || exists|
                at: int,
            | #[trigger] goes_with_generation(survey, protected, at, file)
            &&& plan.generations.len() + count_set(
                retained(survey, protected),
                survey.generations.len(),
            ) == survey.generations.len()
        }),
{
    let count = survey.generations.len();
    a_prefix_of_a_plan(survey, protected, count, file);
    if exists|at: int| #[trigger] loses_layer(survey, protected, at, file) {
        let at = choose|at: int| #[trigger] loses_layer(survey, protected, at, file);
        assert(at < count);
    }
    if exists|at: int| #[trigger] goes_with_generation(survey, protected, at, file) {
        let at = choose|at: int| #[trigger] goes_with_generation(survey, protected, at, file);
        assert(at < count);
    }
}

/// Whether a reference names something in the store that is not there.
pub open spec fn dangles(artifacts: Seq<Part>, reference: ReferenceView) -> bool {
    !reference.exists && reference.path.len() >= artifacts.len() && reference.path.take(
        artifacts.len() as int,
    ) == artifacts
}

proof fn a_missing_reference_dangles(artifacts: Seq<Part>, references: Seq<ReferenceView>)
    ensures
        match first_missing_in(artifacts, references) {
            Some(path) => exists|k: int|
                0 <= k < references.len() && dangles(artifacts, #[trigger] references[k])
                    && references[k].path == path,
            None => forall|k: int|
                0 <= k < references.len() ==> !dangles(artifacts, #[trigger] references[k]),
        },
    decreases references.len(),
{
    if references.len() > 0 {
        let first = references[0];
        let rest = references.skip(1);
        assert(artifacts.is_prefix_of(first.path) <==> first.path.len() >= artifacts.len()
            && first.path.take(artifacts.len() as int) == artifacts) by {
            if artifacts.is_prefix_of(first.path) {
                assert(first.path.take(artifacts.len() as int) =~= artifacts);
            }
        }
        if !dangles(artifacts, first) {
            a_missing_reference_dangles(artifacts, rest);
            match first_missing_in(artifacts, rest) {
                Some(path) => {
                    let k = choose|k: int|
                        0 <= k < rest.len() && dangles(artifacts, #[trigger] rest[k]) && rest[k].path
                            == path;
                    assert(references[k + 1] == rest[k]);
                },
                None => {
                    assert forall|k: int| 0 <= k < references.len() implies !dangles(
                        artifacts,
                        #[trigger] references[k],
                    ) by {
                        if k > 0 {
                            assert(rest[k - 1] == references[k]);
                        }
                    }
                },
            }
        }
    }
}

/// Whether a generation or a live guest refers to a path in the store that is not there.
pub open spec fn is_dangling(
    artifacts: Seq<Part>,
    generations: Seq<GenerationView>,
    protected: Seq<ReferenceView>,
    path: Seq<Part>,
) -> bool {
    ||| exists|k: int|
        0 <= k < protected.len() && dangles(artifacts, #[trigger] protected[k]) && protected[k].path
            == path
    ||| exists|i: int, k: int|
        0 <= i < generations.len() && 0 <= k < generations[i].references.len() && dangles(
            artifacts,
            #[trigger] generations[i].references[k],
        ) && generations[i].references[k].path == path
}

/// A plan is refused for a missing reference exactly where a generation, whether it would stay or
/// go, or a live guest refers to something in the store that is not there.
pub proof fn missing_references_refuse_a_plan(
    artifacts: Seq<Part>,
    generations: Seq<GenerationView>,
    protected: Seq<ReferenceView>,
)
    ensures
        match first_missing(artifacts, generations, protected) {
            Some(path) => is_dangling(artifacts, generations, protected, path),
            None => forall|path: Seq<Part>|
                !#[trigger] is_dangling(artifacts, generations, protected, path),
        },
    decreases generations.len(),
{
    a_missing_reference_dangles(artifacts, protected);
    if generations.len() > 0 {
        let rest = generations.skip(1);
        a_missing_reference_dangles(artifacts, generations[0].references);
        missing_references_refuse_a_plan(artifacts, rest, protected);
        match first_missing_in(artifacts, generations[0].references) {
            Some(path) => {
                let k = choose|k: int|
                    0 <= k < generations[0].references.len() && dangles(
                        artifacts,
                        #[trigger] generations[0].references[k],
                    ) && generations[0].references[k].path == path;
                assert(dangles(artifacts, generations[0].references[k]));
            },
            None => match first_missing(artifacts, rest, protected) {
                Some(path) => {
                    if exists|i: int, k: int|
                        0 <= i < rest.len() && 0 <= k < rest[i].references.len() && dangles(
                            artifacts,
                            #[trigger] rest[i].references[k],
                        ) && rest[i].references[k].path == path {
                        let (i, k) = choose|i: int, k: int|
                            0 <= i < rest.len() && 0 <= k < rest[i].references.len() && dangles(
                                artifacts,
                                #[trigger] rest[i].references[k],
                            ) && rest[i].references[k].path == path;
                        assert(generations[i + 1] == rest[i]);
                        assert(dangles(artifacts, generations[i + 1].references[k]));
                    }
                },
                None => {
                    assert forall|path: Seq<Part>|
                        !#[trigger] is_dangling(artifacts, generations, protected, path) by {
                        assert(!is_dangling(artifacts, rest, protected, path));
                        if exists|i: int, k: int|
                            0 <= i < generations.len() && 0 <= k < generations[i].references.len()
                                && dangles(artifacts, #[trigger] generations[i].references[k])
                                && generations[i].references[k].path == path {
                            let (i, k) = choose|i: int, k: int|
                                0 <= i < generations.len() && 0 <= k
                                    < generations[i].references.len() && dangles(
                                    artifacts,
                                    #[trigger] generations[i].references[k],
                                ) && generations[i].references[k].path == path;
                            if i > 0 {
                                assert(rest[i - 1] == generations[i]);
                                assert(dangles(artifacts, rest[i - 1].references[k]));
                            }
                        }
                    }
                },
            },
        }
    }
}

/// A checkpoint counts as complete only where its record is committed, awaits no recovery and has no
/// marker beside it; it was taken when its record says.
pub proof fn uncertain_checkpoints_are_never_complete(record: &PersistedPausedRecord, marker_present: bool)
    ensures
        completion(record, marker_present) is Some ==> record.commit_state is Committed
            && !record.metadata.resume_recovery_pending && !marker_present,
        completion(record, marker_present) is Some ==> completion(record, marker_present)
            == record.checkpoint_at_unix_ms,
        record.commit_state is Committed && !record.metadata.resume_recovery_pending
            && !marker_present ==> completion(record, marker_present) == record.checkpoint_at_unix_ms,
{
}

/// The files of a generation are all removed, each once, and the record that identifies it after
/// all the others.
pub proof fn records_are_removed_last(files: Seq<Seq<Part>>)
    ensures
        ({
            let order = files_with(files, false, files.len()) + files_with(files, true, files.len());
            let record = Part::Name(text::text_bytes("paused-record.v2.json"@));
            &&& order.to_multiset() == files.to_multiset()
            &&& forall|i: int, j: int|
                0 <= i < j < order.len() && #[trigger] order[i].len() > 0 && order[i].last() == record
                    ==> #[trigger] order[j].len() > 0 && order[j].last() == record
        }),
{
    let payload = files_with(files, false, files.len());
    let manifests = files_with(files, true, files.len());
    let order = payload + manifests;
    let record = Part::Name(text::text_bytes("paused-record.v2.json"@));
    split_files_add_up(files, files.len());
    assert(files.take(files.len() as int) =~= files);
    vstd::seq_lib::lemma_multiset_commutative(payload, manifests);
    assert forall|i: int, j: int|
        0 <= i < j < order.len() && #[trigger] order[i].len() > 0 && order[i].last() == record implies #[trigger] order[j].len()
        > 0 && order[j].last() == record by {
        if i < payload.len() {
            assert(payload[i] == order[i]);
            assert(is_manifest(payload[i]));
        }
        assert(manifests[j - payload.len()] == order[j]);
        assert(is_manifest(order[j]));
    }
}

proof fn split_files_add_up(files: Seq<Seq<Part>>, count: nat)
    requires
        count <= files.len(),
    ensures
        files_with(files, false, count).to_multiset().add(
            files_with(files, true, count).to_multiset(),
        ) == files.take(count as int).to_multiset(),
        forall|k: int|
            0 <= k < files_with(files, false, count).len() ==> !is_manifest(
                #[trigger] files_with(files, false, count)[k],
            ),
        forall|k: int|
            0 <= k < files_with(files, true, count).len() ==> is_manifest(
                #[trigger] files_with(files, true, count)[k],
            ),
    decreases count,
{
    broadcast use vstd::seq_lib::group_to_multiset_ensures;

    if count > 0 {
        split_files_add_up(files, (count - 1) as nat);
        let payload = files_with(files, false, (count - 1) as nat);
        let manifests = files_with(files, true, (count - 1) as nat);
        let file = files[count - 1];
        assert(files.take(count as int) =~= files.take(count - 1).push(file));
        vstd::seq_lib::to_multiset_build(files.take(count - 1), file);
        if is_manifest(file) {
            vstd::seq_lib::to_multiset_build(manifests, file);
        } else {
            vstd::seq_lib::to_multiset_build(payload, file);
        }
        assert(files_with(files, false, count).to_multiset().add(
            files_with(files, true, count).to_multiset(),
        ) =~= files.take(count as int).to_multiset());
    } else {
        assert(files.take(0) =~= Seq::empty());
        assert(files_with(files, false, count).to_multiset().add(
            files_with(files, true, count).to_multiset(),
        ) =~= files.take(count as int).to_multiset());
    }
}

/// Removing one more file whose inode none of the others shares wins its space exactly where it is
/// the only link to it.
pub proof fn a_lone_link_wins_its_space(usages: Seq<FileUsage>, usage: FileUsage)
    requires
        forall|i: int|
            0 <= i < usages.len() ==> (#[trigger] usages[i]).device != usage.device || usages[i].inode
                != usage.inode,
    ensures
        bytes_won(usages.push(usage), usages.len() + 1) == bytes_won(usages, usages.len()) + if usage.links
            == 1 {
            usage.blocks * 512
        } else {
            0
        },
{
    let all = usages.push(usage);
    strangers_are_no_links(usages, usage, usages.len());
    fresh_links_change_nothing(usages, usage, usages.len());
    strangers_are_no_links(all, usage, usages.len());
}

proof fn strangers_are_no_links(usages: Seq<FileUsage>, usage: FileUsage, count: nat)
    requires
        count <= usages.len(),
        forall|i: int| 0 <= i < count ==> !same_inode(#[trigger] usages[i], usage),
    ensures
        removed_links(usages, usage, count) == 0,
    decreases count,
{
    if count > 0 {
        strangers_are_no_links(usages, usage, (count - 1) as nat);
    }
}

proof fn same_files_have_same_links(left: Seq<FileUsage>, right: Seq<FileUsage>, usage: FileUsage, count: nat)
    requires
        count <= left.len(),
        count <= right.len(),
        forall|i: int| 0 <= i < count ==> #[trigger] left[i] == right[i],
    ensures
        removed_links(left, usage, count) == removed_links(right, usage, count),
    decreases count,
{
    if count > 0 {
        same_files_have_same_links(left, right, usage, (count - 1) as nat);
    }
}

proof fn fresh_links_change_nothing(usages: Seq<FileUsage>, usage: FileUsage, count: nat)
    requires
        count <= usages.len(),
        forall|i: int| 0 <= i < usages.len() ==> !same_inode(#[trigger] usages[i], usage),
    ensures
        bytes_won(usages.push(usage), count) == bytes_won(usages, count),
    decreases count,
{
    if count > 0 {
        let all = usages.push(usage);
        let found = usages[count - 1];
        fresh_links_change_nothing(usages, usage, (count - 1) as nat);
        same_files_have_same_links(usages, all, found, (count - 1) as nat);
        same_files_have_same_links(usages, all, found, usages.len());
    }
}

/// Removing several links to one inode wins its space once, and only where these are all of them.
pub proof fn shared_inodes_count_once(usages: Seq<FileUsage>)
    requires
        usages.len() > 0,
        forall|i: int|
            0 <= i < usages.len() ==> (#[trigger] usages[i]).device == usages[0].device
                && usages[i].inode == usages[0].inode && usages[i].links == usages[0].links,
    ensures
        bytes_won(usages, usages.len()) == if usages[0].links == usages.len() {
            usages[0].blocks * 512
        } else {
            0
        },
{
    one_inode_counts_once(usages, usages.len());
}

proof fn one_inode_counts_once(usages: Seq<FileUsage>, count: nat)
    requires
        0 < count <= usages.len(),
        forall|i: int|
            0 <= i < usages.len() ==> same_inode(#[trigger] usages[i], usages[0]) && usages[i].links
                == usages[0].links,
    ensures
        bytes_won(usages, count) == if usages[0].links == usages.len() {
            usages[0].blocks * 512
        } else {
            0
        },
    decreases count,
{
    let found = usages[count - 1];
    friends_are_links(usages, found, (count - 1) as nat);
    friends_are_links(usages, found, usages.len());
    if count > 1 {
        one_inode_counts_once(usages, (count - 1) as nat);
    } else {
        assert(bytes_won(usages, 0) == 0);
    }
}

proof fn friends_are_links(usages: Seq<FileUsage>, usage: FileUsage, count: nat)
    requires
        count <= usages.len(),
        forall|i: int| 0 <= i < count ==> same_inode(#[trigger] usages[i], usage),
    ensures
        removed_links(usages, usage, count) == count,
    decreases count,
{
    if count > 0 {
        friends_are_links(usages, usage, (count - 1) as nat);
    }
}

proof fn places_are_found(generations: Seq<GenerationView>, root: Seq<Part>, from: int)
    requires
        0 <= from <= generations.len(),
    ensures
        from <= place_of(generations, root, from) <= generations.len(),
        forall|i: int|
            from <= i < place_of(generations, root, from) ==> path_order::parts_before(
                #[trigger] generations[i].root,
                root,
            ),
        place_of(generations, root, from) < generations.len() ==> !path_order::parts_before(
            generations[place_of(generations, root, from)].root,
            root,
        ),
    decreases generations.len() - from,
{
    if from < generations.len() && path_order::parts_before(generations[from].root, root) {
        places_are_found(generations, root, from + 1);
    }
}

/// A survey to which a generation is added holds it, and holds every other generation that it held,
/// each once and in the order of their paths; only one at the same path gives way to it.
pub proof fn surveys_hold_each_generation_once(
    generations: Seq<GenerationView>,
    generation: GenerationView,
    other: GenerationView,
)
    requires
        is_ordered(generations),
    ensures
        ({
            let next = with_generation(generations, generation);
            &&& next.contains(generation)
            &&& other.root != generation.root ==> (next.contains(other) <==> generations.contains(
                other,
            ))
            &&& next.contains(other) && other.root == generation.root ==> other == generation
            &&& next.len() == generations.len() + if has_root(generations, generation.root) {
                0int
            } else {
                1
            }
            &&& is_ordered(next)
        }),
{
    let root = generation.root;
    let place = place_of(generations, root, 0);
    let next = with_generation(generations, generation);
    places_are_found(generations, root, 0);
    ordered_with_generation(generations, generation, place);
    let replaced = place < generations.len() && generations[place].root == root;
    assert(next[place] == generation);
    assert forall|i: int| 0 <= i < generations.len() && generations[i].root == root implies replaced
        && i == place by {
        path_order::path_order_is_total(generations[i].root, root);
        if i < place {
            assert(path_order::parts_before(generations[i].root, root));
        } else if i > place {
            assert(path_order::parts_before(generations[place].root, generations[i].root));
        }
    }
    if replaced {
        assert(has_root(generations, root));
    }
    if generations.contains(other) && other.root != root {
        let k = choose|k: int| 0 <= k < generations.len() && generations[k] == other;
        if replaced || k < place {
            assert(next[k] == other);
        } else {
            assert(next[k + 1] == other);
        }
    }
    if next.contains(other) {
        let k = choose|k: int| 0 <= k < next.len() && next[k] == other;
        if k != place {
            let before = if replaced || k < place {
                k
            } else {
                k - 1
            };
            assert(generations[before] == other);
        }
    }
}

/// Only a directory whose name is that of a sandbox or a generation is accepted in the store.
pub proof fn only_named_directories_are_accepted(kind: EntryKind, name: Seq<u8>)
    ensures
        !(kind is Directory) ==> !is_uuid_directory(kind, name),
        SandboxId::parsed(text::lossy_text(name)) is None ==> !is_uuid_directory(kind, name),
        SandboxId::parsed(text::lossy_text(name)) is Some ==> is_uuid_directory(
            EntryKind::Directory,
            name,
        ),
{
}

/// A survey knows its current generations exactly where each of them was found.
pub proof fn current_generations_are_found(survey: SurveyView, at: int)
    ensures
        current_is_known(survey) && 0 <= at < survey.current.len() ==> exists|i: int|
            0 <= i < survey.generations.len() && (#[trigger] survey.generations[i]).root
                == survey.current[at],
        0 <= at < survey.current.len() && (forall|i: int|
            0 <= i < survey.generations.len() ==> (#[trigger] survey.generations[i]).root
                != survey.current[at]) ==> !current_is_known(survey),
        survey.current.len() == 0 ==> current_is_known(survey),
{
    if 0 <= at < survey.current.len() && current_is_known(survey) {
        assert(has_root(survey.generations, survey.current[at]));
    }
}

/// Every flag that is set counts one, and one that is not counts nothing.
pub proof fn set_flags_are_counted(flags: Seq<bool>, count: nat)
    requires
        count < flags.len(),
    ensures
        count_set(flags, 0) == 0,
        flags[count as int] ==> count_set(flags, count + 1) == count_set(flags, count) + 1,
        !flags[count as int] ==> count_set(flags, count + 1) == count_set(flags, count),
{
}

/// What is told of a refusal names the path that it is about, and a record that cannot be read tells
/// why.
pub proof fn refusals_name_their_path(told: RetentionRefusal)
    ensures
        told matches RetentionRefusal::Symlink { path } ==> text::mentions(told.shown(), path.shown()),
        told matches RetentionRefusal::MissingReference { path } ==> text::mentions(
            told.shown(),
            path.shown(),
        ),
        told matches RetentionRefusal::UnreadableRecord { source } ==> told.shown() == source@,
{
    broadcast use {text::the_end_is_mentioned, text::the_beginning_mentions};

}

} // verus!
