//! A conservative estimate of what a checkpoint takes, and whether a filesystem has it.
//!
//! The estimate is no reservation: a filesystem may still fill up while a checkpoint is written.

use crate::paths::StorePath;
use crate::text;
use vstd::prelude::*;

verus! {

/// A limit below which no filesystem may be brought.
pub const MINIMAL_HEADROOM: u64 = 1073741824;

/// Inodes that stay free on every filesystem.
pub const SPARE_INODES: u64 = 4096;

/// How many of the largest consumers are told.
pub const TOLD_CONSUMERS: usize = 5;

/// Why an estimate or a check fails.
#[derive(Clone, Copy, Debug, PartialEq, Eq, Structural)]
pub enum CapacityFault {
    DiskEstimate,
    MemoryEstimate,
    Estimate,
    InodeEstimate,
    Bytes,
    Inodes,
    Headroom,
    NoAncestor,
}

impl CapacityFault {
    pub open spec fn shown(self) -> Seq<char> {
        match self {
            CapacityFault::DiskEstimate => "checkpoint disk estimate overflow"@,
            CapacityFault::MemoryEstimate => "checkpoint memory estimate overflow"@,
            CapacityFault::Estimate => "checkpoint estimate overflow"@,
            CapacityFault::InodeEstimate => "checkpoint inode estimate overflow"@,
            CapacityFault::Bytes => "checkpoint bytes overflow"@,
            CapacityFault::Inodes => "checkpoint inodes overflow"@,
            CapacityFault::Headroom => "checkpoint headroom overflow"@,
            CapacityFault::NoAncestor => "checkpoint path has no existing ancestor"@,
        }
    }

    pub fn message(self) -> (message: &'static str)
        ensures
            message@ == self.shown(),
    {
        match self {
            CapacityFault::DiskEstimate => "checkpoint disk estimate overflow",
            CapacityFault::MemoryEstimate => "checkpoint memory estimate overflow",
            CapacityFault::Estimate => "checkpoint estimate overflow",
            CapacityFault::InodeEstimate => "checkpoint inode estimate overflow",
            CapacityFault::Bytes => "checkpoint bytes overflow",
            CapacityFault::Inodes => "checkpoint inodes overflow",
            CapacityFault::Headroom => "checkpoint headroom overflow",
            CapacityFault::NoAncestor => "checkpoint path has no existing ancestor",
        }
    }
}

/// What a checkpoint may take at a path.
#[derive(Debug)]
pub struct CheckpointCapacity {
    pub path: StorePath,
    pub bytes: u64,
    pub inodes: u64,
}

/// The exported disk and memory, each with its compacted form beside it.
pub open spec fn raw_bytes(disk_bytes: u64, memory_bytes: u64) -> int {
    2 * disk_bytes + 2 * memory_bytes
}

/// The raw size and a quarter for indexes and encoding.
pub open spec fn estimated_bytes(disk_bytes: u64, memory_bytes: u64) -> int {
    raw_bytes(disk_bytes, memory_bytes) + raw_bytes(disk_bytes, memory_bytes) / 4
}

/// A fixed number for every drive and for the memory.
pub open spec fn estimated_inodes(drives: u64) -> int {
    (drives + 1) * 2048
}

/// What is too large to be estimated.
pub open spec fn estimate_fault(disk_bytes: u64, memory_bytes: u64, drives: u64) -> Option<
    CapacityFault,
> {
    if 2 * disk_bytes > u64::MAX {
        Some(CapacityFault::DiskEstimate)
    } else if 2 * memory_bytes > u64::MAX {
        Some(CapacityFault::MemoryEstimate)
    } else if estimated_bytes(disk_bytes, memory_bytes) > u64::MAX {
        Some(CapacityFault::Estimate)
    } else if estimated_inodes(drives) > u64::MAX {
        Some(CapacityFault::InodeEstimate)
    } else {
        None
    }
}

impl CheckpointCapacity {
    pub fn new(path: StorePath, disk_bytes: u64, memory_bytes: u64, drives: u64) -> (capacity: Result<
        CheckpointCapacity,
        CapacityFault,
    >)
        ensures
            match capacity {
                Ok(capacity) => {
                    &&& estimate_fault(disk_bytes, memory_bytes, drives) is None
                    &&& capacity.path == path
                    &&& capacity.bytes == estimated_bytes(disk_bytes, memory_bytes)
                    &&& capacity.inodes == estimated_inodes(drives)
                },
                Err(fault) => estimate_fault(disk_bytes, memory_bytes, drives) == Some(fault),
            },
    {
        let disk: u64 = match disk_bytes.checked_mul(2) {
            Some(disk) => disk,
            None => return Err(CapacityFault::DiskEstimate),
        };
        let memory: u64 = match memory_bytes.checked_mul(2) {
            Some(memory) => memory,
            None => return Err(CapacityFault::MemoryEstimate),
        };
        let raw: u64 = match disk.checked_add(memory) {
            Some(raw) => raw,
            None => return Err(CapacityFault::Estimate),
        };
        let bytes: u64 = match raw.checked_add(raw / 4) {
            Some(bytes) => bytes,
            None => return Err(CapacityFault::Estimate),
        };
        let counted: u64 = match drives.checked_add(1) {
            Some(counted) => counted,
            None => return Err(CapacityFault::InodeEstimate),
        };
        let inodes: u64 = match counted.checked_mul(2048) {
            Some(inodes) => inodes,
            None => return Err(CapacityFault::InodeEstimate),
        };
        Ok(CheckpointCapacity { path, bytes, inodes })
    }
}

/// How the search for a directory that exists goes on.
#[derive(Debug)]
pub enum AncestorStep {
    Found,
    /// Look at the directory above.
    Try { path: StorePath },
}

/// How the search goes on from a path that exists or does not.
pub open spec fn is_ancestor_step(
    path: StorePath,
    present: bool,
    step: Result<AncestorStep, CapacityFault>,
) -> bool {
    if present {
        step matches Ok(AncestorStep::Found)
    } else {
        match StorePath::parent_parts(path@) {
            Some(parent) => step matches Ok(AncestorStep::Try { path: next }) && next@ == parent,
            None => step matches Err(CapacityFault::NoAncestor),
        }
    }
}

/// Goes from a path towards its root until something exists.
pub fn existing_ancestor(path: &StorePath, present: bool) -> (step: Result<
    AncestorStep,
    CapacityFault,
>)
    ensures
        is_ancestor_step(*path, present, step),
{
    if present {
        return Ok(AncestorStep::Found);
    }
    match path.parent() {
        Some(path) => Ok(AncestorStep::Try { path }),
        None => Err(CapacityFault::NoAncestor),
    }
}

/// What one checkpoint takes from one filesystem.
#[derive(Debug)]
pub struct PlacedRequirement {
    pub device: u64,
    /// The directory that exists.
    pub path: StorePath,
    pub bytes: u64,
    pub inodes: u64,
}

/// What all checkpoints together take from one filesystem.
#[derive(Debug)]
pub struct FilesystemDemand {
    pub device: u64,
    pub path: StorePath,
    pub bytes: u64,
    pub inodes: u64,
}

/// The bytes that are asked of a device.
pub open spec fn bytes_on(placed: Seq<PlacedRequirement>, device: u64) -> int
    decreases placed.len(),
{
    if placed.len() == 0 {
        0
    } else {
        bytes_on(placed.drop_last(), device) + if placed.last().device == device {
            placed.last().bytes as int
        } else {
            0
        }
    }
}

/// The inodes that are asked of a device.
pub open spec fn inodes_on(placed: Seq<PlacedRequirement>, device: u64) -> int
    decreases placed.len(),
{
    if placed.len() == 0 {
        0
    } else {
        inodes_on(placed.drop_last(), device) + if placed.last().device == device {
            placed.last().inodes as int
        } else {
            0
        }
    }
}

/// The first of the requirements from `from` on that is on a device.
pub open spec fn first_on(placed: Seq<PlacedRequirement>, device: u64, from: int) -> Option<int>
    decreases placed.len() - from,
{
    if from >= placed.len() {
        None
    } else if placed[from].device == device {
        Some(from)
    } else {
        first_on(placed, device, from + 1)
    }
}

/// Whether these are the demands that requirements make, by device.
pub open spec fn are_demands(demands: Seq<FilesystemDemand>, placed: Seq<PlacedRequirement>) -> bool {
    &&& forall|i: int, j: int|
        0 <= i < j < demands.len() ==> (#[trigger] demands[i]).device < (#[trigger] demands[j]).device
    &&& forall|i: int| 0 <= i < demands.len() ==> is_demand(#[trigger] demands[i], placed)
    &&& forall|k: int|
        0 <= k < placed.len() ==> is_demanded(demands, (#[trigger] placed[k]).device)
}

/// Whether a demand is that of a device.
pub open spec fn is_demand(demand: FilesystemDemand, placed: Seq<PlacedRequirement>) -> bool {
    &&& demand.bytes == bytes_on(placed, demand.device)
    &&& demand.inodes == inodes_on(placed, demand.device)
    &&& first_on(placed, demand.device, 0) matches Some(first)
        && demand.path.spelled() == placed[first].path.spelled()
}

/// Whether a demand on a device is among these.
pub open spec fn is_demanded(demands: Seq<FilesystemDemand>, device: u64) -> bool {
    exists|i: int| 0 <= i < demands.len() && (#[trigger] demands[i]).device == device
}

/// What the requirements up to this one make too large.
pub open spec fn demand_fault(placed: Seq<PlacedRequirement>, at: int) -> Option<CapacityFault> {
    let device = placed[at].device;
    if bytes_on(placed.take(at + 1), device) > u64::MAX {
        Some(CapacityFault::Bytes)
    } else if inodes_on(placed.take(at + 1), device) > u64::MAX {
        Some(CapacityFault::Inodes)
    } else {
        None
    }
}

proof fn first_on_is_first(placed: Seq<PlacedRequirement>, device: u64, from: int)
    requires
        0 <= from <= placed.len(),
    ensures
        match first_on(placed, device, from) {
            Some(at) => from <= at < placed.len() && placed[at].device == device,
            None => forall|k: int| from <= k < placed.len() ==> (#[trigger] placed[k]).device != device,
        },
    decreases placed.len() - from,
{
    if from < placed.len() && placed[from].device != device {
        first_on_is_first(placed, device, from + 1);
    }
}

proof fn first_on_stays(placed: Seq<PlacedRequirement>, more: PlacedRequirement, device: u64, from: int)
    requires
        0 <= from <= placed.len(),
    ensures
        first_on(placed, device, from) is Some ==> first_on(placed.push(more), device, from)
            == first_on(placed, device, from),
        first_on(placed, device, from) is None ==> first_on(placed.push(more), device, from)
            == if more.device == device {
            Some(placed.len() as int)
        } else {
            None
        },
    decreases placed.len() - from,
{
    let longer = placed.push(more);
    if from < placed.len() {
        assert(longer[from] == placed[from]);
        if placed[from].device != device {
            first_on_stays(placed, more, device, from + 1);
        }
    } else {
        assert(longer[from] == more);
        assert(first_on(longer, device, from + 1) is None);
    }
}

proof fn nothing_asked_is_nothing(placed: Seq<PlacedRequirement>, device: u64)
    requires
        first_on(placed, device, 0) is None,
    ensures
        bytes_on(placed, device) == 0,
        inodes_on(placed, device) == 0,
    decreases placed.len(),
{
    first_on_is_first(placed, device, 0);
    if placed.len() > 0 {
        let rest = placed.drop_last();
        first_on_is_first(rest, device, 0);
        assert(placed[placed.len() - 1].device != device);
        if first_on(rest, device, 0) is Some {
            let at = first_on(rest, device, 0)->0;
            assert(placed[at] == rest[at]);
        }
        nothing_asked_is_nothing(rest, device);
    }
}

/// Where a device stands, or would stand, among demands in order.
fn find_device(demands: &Vec<FilesystemDemand>, device: u64) -> (found: (usize, bool))
    requires
        forall|i: int, j: int|
            0 <= i < j < demands@.len() ==> (#[trigger] demands@[i]).device < (
            #[trigger] demands@[j]).device,
    ensures
        found.0 <= demands@.len(),
        forall|i: int| 0 <= i < found.0 ==> (#[trigger] demands@[i]).device < device,
        found.1 ==> found.0 < demands@.len() && demands@[found.0 as int].device == device,
        !found.1 ==> forall|i: int|
            found.0 <= i < demands@.len() ==> (#[trigger] demands@[i]).device > device,
{
    let mut at: usize = 0;
    while at < demands.len() && demands[at].device < device
        invariant
            at <= demands@.len(),
            forall|i: int| 0 <= i < at ==> (#[trigger] demands@[i]).device < device,
        decreases demands@.len() - at,
    {
        at += 1;
    }
    if at < demands.len() && demands[at].device == device {
        return (at, true);
    }
    assert forall|i: int| at <= i < demands@.len() implies (#[trigger] demands@[i]).device > device by {
        assert(demands@[at as int].device > device);
        if i > at {
            assert(demands@[at as int].device < demands@[i].device);
        }
    }
    (at, false)
}

proof fn demands_grow(
    before: Seq<FilesystemDemand>,
    after: Seq<FilesystemDemand>,
    placed: Seq<PlacedRequirement>,
    more: PlacedRequirement,
    at: int,
    known: bool,
)
    requires
        are_demands(before, placed),
        0 <= at <= before.len(),
        forall|i: int| 0 <= i < at ==> (#[trigger] before[i]).device < more.device,
        known ==> at < before.len() && before[at].device == more.device,
        !known ==> forall|i: int| at <= i < before.len() ==> (#[trigger] before[i]).device
            > more.device,
        known ==> {
            &&& after.len() == before.len()
            &&& forall|i: int| 0 <= i < before.len() && i != at ==> #[trigger] after[i] == before[i]
            &&& after[at].device == more.device
            &&& after[at].path.spelled() == before[at].path.spelled()
            &&& after[at].bytes == before[at].bytes + more.bytes
            &&& after[at].inodes == before[at].inodes + more.inodes
        },
        !known ==> {
            &&& after.len() == before.len() + 1
            &&& forall|i: int| 0 <= i < at ==> #[trigger] after[i] == before[i]
            &&& forall|i: int| at < i < after.len() ==> #[trigger] after[i] == before[i - 1]
            &&& after[at].device == more.device
            &&& after[at].path.spelled() == more.path.spelled()
            &&& after[at].bytes == more.bytes
            &&& after[at].inodes == more.inodes
        },
    ensures
        are_demands(after, placed.push(more)),
{
    let longer = placed.push(more);
    assert(longer.drop_last() =~= placed);
    assert forall|i: int, j: int| 0 <= i < j < after.len() implies (#[trigger] after[i]).device < (
    #[trigger] after[j]).device by {
        if known {
            assert(before[i].device < before[j].device);
        } else {
            let p = if i < at {
                i
            } else {
                i - 1
            };
            let q = if j < at {
                j
            } else {
                j - 1
            };
            if i != at && j != at {
                assert(before[p].device < before[q].device);
            }
        }
    }
    assert forall|i: int| 0 <= i < after.len() implies is_demand(#[trigger] after[i], longer) by {
        let device = after[i].device;
        first_on_stays(placed, more, device, 0);
        if i == at {
            if known {
                assert(is_demand(before[at], placed));
                first_on_is_first(placed, device, 0);
            } else {
                assert(first_on(placed, device, 0) is None) by {
                    first_on_is_first(placed, device, 0);
                    if first_on(placed, device, 0) is Some {
                        let k = first_on(placed, device, 0)->0;
                        assert(is_demanded(before, placed[k].device));
                    }
                }
                nothing_asked_is_nothing(placed, device);
            }
        } else {
            let p = if known || i < at {
                i
            } else {
                i - 1
            };
            assert(after[i] == before[p]);
            assert(is_demand(before[p], placed));
            first_on_is_first(placed, device, 0);
        }
    }
    assert forall|k: int| 0 <= k < longer.len() implies is_demanded(
        after,
        (#[trigger] longer[k]).device,
    ) by {
        if k == placed.len() {
            assert(after[at].device == more.device);
        } else {
            assert(longer[k] == placed[k]);
            assert(is_demanded(before, placed[k].device));
            let i = choose|i: int|
                0 <= i < before.len() && (#[trigger] before[i]).device == placed[k].device;
            let q = if known || i < at {
                i
            } else {
                i + 1
            };
            assert(after[q].device == placed[k].device);
        }
    }
}

/// Adds up what checkpoints take from each filesystem.
pub fn gather_demands(placed: &Vec<PlacedRequirement>) -> (outcome: Result<
    Vec<FilesystemDemand>,
    CapacityFault,
>)
    ensures
        match outcome {
            Ok(demands) => are_demands(demands@, placed@) && forall|i: int|
                0 <= i < placed@.len() ==> (#[trigger] demand_fault(placed@, i)) is None,
            Err(fault) => exists|i: int|
                {
                    &&& 0 <= i < placed@.len()
                    &&& (#[trigger] demand_fault(placed@, i)) == Some(fault)
                    &&& forall|j: int| 0 <= j < i ==> (#[trigger] demand_fault(placed@, j)) is None
                },
        },
{
    let mut demands: Vec<FilesystemDemand> = Vec::new();
    let mut at: usize = 0;
    while at < placed.len()
        invariant
            at <= placed@.len(),
            are_demands(demands@, placed@.take(at as int)),
            forall|j: int| 0 <= j < at ==> (#[trigger] demand_fault(placed@, j)) is None,
        decreases placed@.len() - at,
    {
        let more = &placed[at];
        let ghost done = placed@.take(at as int);
        let ghost before = demands@;
        let (position, known) = find_device(&demands, more.device);
        proof {
            assert(placed@.take(at + 1) =~= done.push(*more));
            assert(done.push(*more).drop_last() =~= done);
        }
        if known {
            proof {
                assert(is_demand(demands@[position as int], done));
            }
            let bytes: u64 = match demands[position].bytes.checked_add(more.bytes) {
                Some(bytes) => bytes,
                None => {
                    assert(demand_fault(placed@, at as int) == Some(CapacityFault::Bytes));
                    return Err(CapacityFault::Bytes);
                },
            };
            let inodes: u64 = match demands[position].inodes.checked_add(more.inodes) {
                Some(inodes) => inodes,
                None => {
                    assert(demand_fault(placed@, at as int) == Some(CapacityFault::Inodes));
                    return Err(CapacityFault::Inodes);
                },
            };
            let demand = FilesystemDemand {
                device: more.device,
                path: demands[position].path.copy(),
                bytes,
                inodes,
            };
            demands.set(position, demand);
        } else {
            let demand = FilesystemDemand {
                device: more.device,
                path: more.path.copy(),
                bytes: more.bytes,
                inodes: more.inodes,
            };
            proof {
                assert(first_on(done, more.device, 0) is None) by {
                    first_on_is_first(done, more.device, 0);
                    if first_on(done, more.device, 0) is Some {
                        let k = first_on(done, more.device, 0)->0;
                        assert(is_demanded(before, done[k].device));
                    }
                }
                nothing_asked_is_nothing(done, more.device);
            }
            demands.insert(position, demand);
        }
        proof {
            demands_grow(before, demands@, done, *more, position as int, known);
            assert(demand_fault(placed@, at as int) is None);
        }
        at += 1;
    }
    assert(placed@.take(at as int) =~= placed@);
    Ok(demands)
}

/// What a filesystem has.
#[derive(Clone, Copy, Debug, PartialEq, Eq, Structural)]
pub struct FilesystemStats {
    pub blocks: u64,
    pub blocks_available: u64,
    pub fragment_size: u64,
    pub files_available: u64,
}

/// A product that stops at the largest number.
pub open spec fn saturated_product(left: u64, right: u64) -> int {
    if left * right > u64::MAX {
        u64::MAX as int
    } else {
        left * right
    }
}

fn saturating_product(left: u64, right: u64) -> (product: u64)
    ensures
        product == saturated_product(left, right),
{
    match left.checked_mul(right) {
        Some(product) => product,
        None => u64::MAX,
    }
}

/// What a filesystem keeps free: a twentieth of it, and at least the minimum.
pub open spec fn headroom_of(stats: FilesystemStats) -> int {
    let share = saturated_product(stats.blocks, stats.fragment_size) / 20;
    if share > MINIMAL_HEADROOM {
        share
    } else {
        MINIMAL_HEADROOM as int
    }
}

/// The inodes that have to be free for a demand.
pub open spec fn inodes_for(inodes: u64) -> int {
    if inodes + SPARE_INODES > u64::MAX {
        u64::MAX as int
    } else {
        inodes + SPARE_INODES
    }
}

/// What a filesystem is asked for and has.
#[derive(Clone, Copy, Debug, PartialEq, Eq, Structural)]
pub struct CapacityReport {
    pub required_bytes: u64,
    pub available_bytes: u64,
    pub headroom_bytes: u64,
    pub required_inodes: u64,
    pub available_inodes: u64,
}

impl CapacityReport {
    /// Whether the filesystem has what it is asked for.
    pub open spec fn suffices(self) -> bool {
        self.available_bytes >= self.required_bytes && self.available_inodes >= self.required_inodes
    }

    pub fn is_sufficient(self) -> (answer: bool)
        ensures
            answer == self.suffices(),
    {
        self.available_bytes >= self.required_bytes && self.available_inodes >= self.required_inodes
    }
}

/// Holds a demand against a filesystem.
pub fn check(demand: &FilesystemDemand, stats: FilesystemStats) -> (outcome: Result<
    CapacityReport,
    CapacityFault,
>)
    ensures
        match outcome {
            Ok(report) => {
                &&& report.headroom_bytes == headroom_of(stats)
                &&& report.required_bytes == demand.bytes + headroom_of(stats)
                &&& report.available_bytes == saturated_product(
                    stats.blocks_available,
                    stats.fragment_size,
                )
                &&& report.required_inodes == inodes_for(demand.inodes)
                &&& report.available_inodes == stats.files_available
            },
            Err(fault) => fault is Headroom && demand.bytes + headroom_of(stats) > u64::MAX,
        },
{
    let available_bytes: u64 = saturating_product(stats.blocks_available, stats.fragment_size);
    let share: u64 = saturating_product(stats.blocks, stats.fragment_size) / 20;
    let headroom_bytes: u64 = if share > MINIMAL_HEADROOM {
        share
    } else {
        MINIMAL_HEADROOM
    };
    let required_bytes: u64 = match demand.bytes.checked_add(headroom_bytes) {
        Some(required_bytes) => required_bytes,
        None => return Err(CapacityFault::Headroom),
    };
    let required_inodes: u64 = match demand.inodes.checked_add(SPARE_INODES) {
        Some(required_inodes) => required_inodes,
        None => u64::MAX,
    };
    Ok(
        CapacityReport {
            required_bytes,
            available_bytes,
            headroom_bytes,
            required_inodes,
            available_inodes: stats.files_available,
        },
    )
}

/// Why guests are not stopped for a checkpoint, with the largest consumers of the filesystem as a
/// text.
pub fn refusal(demand: &FilesystemDemand, report: CapacityReport, consumers: &str) -> (shown: String)
    ensures
        shown@ == "checkpoint capacity refused before stopping guests: filesystem="@
            + demand.path.shown() + " required_bytes="@ + text::decimal(
            report.required_bytes as nat,
        ) + " available_bytes="@ + text::decimal(report.available_bytes as nat)
            + " headroom_bytes="@ + text::decimal(report.headroom_bytes as nat)
            + " required_inodes="@ + text::decimal(report.required_inodes as nat)
            + " available_inodes="@ + text::decimal(report.available_inodes as nat)
            + " largest_state_consumers="@ + consumers@
            + "; add capacity or review reference-aware cleanup; do not remove live layers or recovery backups"@,
{
    let mut shown = text::concat2(
        "checkpoint capacity refused before stopping guests: filesystem=",
        demand.path.to_text().as_str(),
    );
    shown.append(" required_bytes=");
    shown.append(text::decimal_text(report.required_bytes).as_str());
    shown.append(" available_bytes=");
    shown.append(text::decimal_text(report.available_bytes).as_str());
    shown.append(" headroom_bytes=");
    shown.append(text::decimal_text(report.headroom_bytes).as_str());
    shown.append(" required_inodes=");
    shown.append(text::decimal_text(report.required_inodes).as_str());
    shown.append(" available_inodes=");
    shown.append(text::decimal_text(report.available_inodes).as_str());
    shown.append(" largest_state_consumers=");
    shown.append(consumers);
    shown.append(
        "; add capacity or review reference-aware cleanup; do not remove live layers or recovery backups",
    );
    shown
}

/// A file or directory that was looked at without following it.
#[derive(Clone, Copy, Debug, PartialEq, Eq, Structural)]
pub struct DiskEntry {
    pub device: u64,
    pub inode: u64,
    /// Of 512 bytes each.
    pub blocks: u64,
    pub is_symlink: bool,
    pub is_directory: bool,
}

/// The disk space below a path, each inode counted once.
#[derive(Debug)]
pub struct Allocation {
    bytes: u64,
    seen: Vec<DiskEntry>,
}

/// Whether an inode was counted.
pub open spec fn is_seen(seen: Seq<DiskEntry>, entry: DiskEntry) -> bool {
    exists|i: int|
        0 <= i < seen.len() && (#[trigger] seen[i]).device == entry.device && seen[i].inode
            == entry.inode
}

impl Allocation {
    pub closed spec fn bytes(&self) -> u64 {
        self.bytes
    }

    /// What was counted.
    pub closed spec fn seen(&self) -> Seq<DiskEntry> {
        self.seen@
    }

    pub fn new() -> (allocation: Allocation)
        ensures
            allocation.bytes() == 0,
            allocation.seen().len() == 0,
    {
        Allocation { bytes: 0, seen: Vec::new() }
    }

    pub fn total(&self) -> (bytes: u64)
        ensures
            bytes == self.bytes(),
    {
        self.bytes
    }

    /// Counts an entry, unless it is a symlink or was counted already, and tells whether to look
    /// at what it holds.
    pub fn visit(&mut self, entry: DiskEntry) -> (descend: bool)
        ensures
            if entry.is_symlink || is_seen(old(self).seen(), entry) {
                !descend && *final(self) == *old(self)
            } else {
                &&& descend == entry.is_directory
                &&& final(self).seen() == old(self).seen().push(entry)
                &&& final(self).bytes() == {
                    let sum = old(self).bytes() + saturated_product(entry.blocks, 512);
                    if sum > u64::MAX {
                        u64::MAX as int
                    } else {
                        sum
                    }
                }
            },
    {
        if entry.is_symlink {
            return false;
        }
        let mut at: usize = 0;
        while at < self.seen.len()
            invariant
                at <= self.seen@.len(),
                *self == *old(self),
                forall|i: int|
                    0 <= i < at ==> !((#[trigger] self.seen@[i]).device == entry.device
                        && self.seen@[i].inode == entry.inode),
            decreases self.seen@.len() - at,
        {
            if self.seen[at].device == entry.device && self.seen[at].inode == entry.inode {
                return false;
            }
            at += 1;
        }
        let counted: u64 = saturating_product(entry.blocks, 512);
        self.bytes =
        match self.bytes.checked_add(counted) {
            Some(bytes) => bytes,
            None => u64::MAX,
        };
        self.seen.push(entry);
        entry.is_directory
    }
}

/// What one entry of a state directory takes.
#[derive(Debug)]
pub struct Consumer {
    pub name: String,
    pub bytes: u64,
}

/// Where a consumer goes among others from the largest down: behind those that are as large.
pub open spec fn rank_among(ranked: Seq<Consumer>, bytes: u64, from: int) -> int
    decreases ranked.len() - from,
{
    if from >= ranked.len() || ranked[from].bytes < bytes {
        from
    } else {
        rank_among(ranked, bytes, from + 1)
    }
}

/// Consumers from the largest down; those that are as large as each other stay in order.
pub open spec fn ranked(usage: Seq<Consumer>) -> Seq<Consumer>
    decreases usage.len(),
{
    if usage.len() == 0 {
        Seq::empty()
    } else {
        let before = ranked(usage.drop_last());
        before.insert(rank_among(before, usage.last().bytes, 0), usage.last())
    }
}

proof fn ranks_are_positions(ranked: Seq<Consumer>, bytes: u64, from: int)
    requires
        0 <= from <= ranked.len(),
    ensures
        from <= rank_among(ranked, bytes, from) <= ranked.len(),
        forall|k: int|
            from <= k < rank_among(ranked, bytes, from) ==> (#[trigger] ranked[k]).bytes >= bytes,
        rank_among(ranked, bytes, from) < ranked.len() ==> ranked[rank_among(
            ranked,
            bytes,
            from,
        )].bytes < bytes,
    decreases ranked.len() - from,
{
    if from < ranked.len() && ranked[from].bytes >= bytes {
        ranks_are_positions(ranked, bytes, from + 1);
    }
}

/// The largest consumers, from the largest down.
pub fn largest_consumers(usage: Vec<Consumer>) -> (largest: Vec<Consumer>)
    ensures
        largest@ == if ranked(usage@).len() > TOLD_CONSUMERS {
            ranked(usage@).take(TOLD_CONSUMERS as int)
        } else {
            ranked(usage@)
        },
{
    let ghost all = usage@;
    let mut pending = usage;
    let ghost mut done: int = 0;
    let mut largest: Vec<Consumer> = Vec::new();
    assert(all.take(0) =~= Seq::<Consumer>::empty());
    while pending.len() > 0
        invariant
            0 <= done <= all.len(),
            pending@ == all.skip(done),
            largest@ == ranked(all.take(done)),
        decreases pending@.len(),
    {
        assert(pending@[0] == all[done]);
        let consumer = pending.remove(0);
        let mut at: usize = 0;
        while at < largest.len() && largest[at].bytes >= consumer.bytes
            invariant
                at <= largest@.len(),
                rank_among(largest@, consumer.bytes, 0) == rank_among(
                    largest@,
                    consumer.bytes,
                    at as int,
                ),
            decreases largest@.len() - at,
        {
            at += 1;
        }
        proof {
            assert(all.take(done + 1).drop_last() =~= all.take(done));
            assert(all.take(done + 1).last() == all[done]);
            done = done + 1;
        }
        largest.insert(at, consumer);
        assert(pending@ =~= all.skip(done));
    }
    assert(all.take(done) =~= all);
    if largest.len() > TOLD_CONSUMERS {
        largest.truncate(TOLD_CONSUMERS);
        assert(largest@ =~= ranked(all).take(TOLD_CONSUMERS as int));
    }
    largest
}

// ---------------------------------------------------------------------------------------------
// Laws
// ---------------------------------------------------------------------------------------------

/// Consumers are told from the largest down, and every one of them has a place.
pub proof fn ranks_go_down(usage: Seq<Consumer>)
    ensures
        ranked(usage).len() == usage.len(),
        forall|i: int, j: int|
            0 <= i < j < usage.len() ==> (#[trigger] ranked(usage)[i]).bytes >= (
            #[trigger] ranked(usage)[j]).bytes,
        ranked(usage).to_multiset() == usage.to_multiset(),
    decreases usage.len(),
{
    broadcast use vstd::seq_lib::group_to_multiset_ensures;

    if usage.len() > 0 {
        let rest = usage.drop_last();
        let last = usage.last();
        let before = ranked(rest);
        ranks_go_down(rest);
        ranks_are_positions(before, last.bytes, 0);
        let at = rank_among(before, last.bytes, 0);
        let after = ranked(usage);
        assert forall|i: int, j: int| 0 <= i < j < usage.len() implies (#[trigger] after[i]).bytes >= (
        #[trigger] after[j]).bytes by {
            let p = if i < at {
                i
            } else {
                i - 1
            };
            let q = if j < at {
                j
            } else {
                j - 1
            };
            if i != at && j != at {
                assert(before[p].bytes >= before[q].bytes);
            } else if i == at && j > at {
                assert(before[at].bytes >= before[q].bytes);
            }
        }
        vstd::seq_lib::to_multiset_insert(before, at, last);
        assert(usage =~= rest.push(last));
        vstd::seq_lib::to_multiset_build(rest, last);
    }
}

/// Whether a search looked at these paths one after the other, and found each of them present or
/// not.
pub open spec fn is_ancestor_search(paths: Seq<StorePath>, present: Seq<bool>) -> bool {
    &&& paths.len() > 0
    &&& present.len() == paths.len()
    &&& forall|i: int|
        0 <= i < paths.len() - 1 ==> is_ancestor_step(
            #[trigger] paths[i],
            present[i],
            Ok(AncestorStep::Try { path: paths[i + 1] }),
        )
}

/// A search looks at a path and at every directory above it in turn, and ends at the first of them
/// that exists: all before it do not. It fails only at the top, where none of them exists.
pub proof fn the_nearest_ancestor_is_found(
    paths: Seq<StorePath>,
    present: Seq<bool>,
    end: Result<AncestorStep, CapacityFault>,
)
    requires
        is_ancestor_search(paths, present),
        is_ancestor_step(paths.last(), present.last(), end),
        !(end matches Ok(AncestorStep::Try { .. })),
    ensures
        paths.len() <= paths[0]@.len() + 1,
        forall|i: int|
            0 <= i < paths.len() ==> (#[trigger] paths[i])@ == paths[0]@.take(paths[0]@.len() - i),
        forall|i: int| 0 <= i < paths.len() - 1 ==> !#[trigger] present[i],
        present.last() <==> end matches Ok(AncestorStep::Found),
        !present.last() <==> end matches Err(CapacityFault::NoAncestor),
        !present.last() ==> StorePath::parent_parts(paths.last()@) is None,
{
    let last = paths.len() - 1;
    ancestors_are_prefixes(paths, present, last);
    assert forall|i: int| 0 <= i < paths.len() implies (#[trigger] paths[i])@ == paths[0]@.take(
        paths[0]@.len() - i,
    ) by {
        ancestors_are_prefixes(paths, present, i);
    }
    assert forall|i: int| 0 <= i < last implies !#[trigger] present[i] by {
        assert(is_ancestor_step(paths[i], present[i], Ok(AncestorStep::Try { path: paths[i + 1] })));
    }
}

proof fn ancestors_are_prefixes(paths: Seq<StorePath>, present: Seq<bool>, at: int)
    requires
        is_ancestor_search(paths, present),
        0 <= at < paths.len(),
    ensures
        at <= paths[0]@.len(),
        paths[at]@ == paths[0]@.take(paths[0]@.len() - at),
    decreases at,
{
    if at == 0 {
        assert(paths[0]@.take(paths[0]@.len() as int) =~= paths[0]@);
    } else {
        let below = at - 1;
        ancestors_are_prefixes(paths, present, below);
        assert(is_ancestor_step(
            paths[below],
            present[below],
            Ok(AncestorStep::Try { path: paths[below + 1] }),
        ));
        assert(paths[below]@.drop_last() =~= paths[0]@.take(paths[0]@.len() - at));
    }
}

/// A larger disk, a larger memory or more drives never lower the estimate.
pub proof fn estimates_grow(disk: u64, memory: u64, drives: u64, more_disk: u64, more_memory: u64, more_drives: u64)
    requires
        disk <= more_disk,
        memory <= more_memory,
        drives <= more_drives,
    ensures
        estimated_bytes(disk, memory) <= estimated_bytes(more_disk, more_memory),
        estimated_inodes(drives) <= estimated_inodes(more_drives),
        estimated_bytes(disk, memory) >= disk + memory,
{
}

/// A checkpoint is estimated at twice its disk and its memory and a quarter more, rounded down to a
/// byte, and at two thousand and forty-eight inodes for its memory and for each drive.
pub proof fn estimates_double_and_add_a_quarter(disk: u64, memory: u64, drives: u64)
    ensures
        4 * estimated_bytes(disk, memory) <= 10 * (disk + memory),
        10 * (disk + memory) < 4 * estimated_bytes(disk, memory) + 4,
        estimated_inodes(0) == 2048,
        drives < u64::MAX ==> estimated_inodes((drives + 1) as u64) == estimated_inodes(drives) + 2048,
{
}

/// An estimate fails exactly where it, or a part of it, is too large a number, and tells the first
/// that is.
pub proof fn estimates_fail_where_they_are_too_large(disk: u64, memory: u64, drives: u64)
    ensures
        ({
            let fault = estimate_fault(disk, memory, drives);
            let bytes = 2 * disk + 2 * memory + (2 * disk + 2 * memory) / 4;
            let inodes = (drives + 1) * 2048;
            &&& fault is None <==> bytes <= u64::MAX && inodes <= u64::MAX
            &&& 2 * disk > u64::MAX ==> fault == Some(CapacityFault::DiskEstimate)
            &&& 2 * disk <= u64::MAX && 2 * memory > u64::MAX ==> fault == Some(
                CapacityFault::MemoryEstimate,
            )
            &&& 2 * disk <= u64::MAX && 2 * memory <= u64::MAX && bytes > u64::MAX ==> fault == Some(
                CapacityFault::Estimate,
            )
            &&& bytes <= u64::MAX && inodes > u64::MAX ==> fault == Some(CapacityFault::InodeEstimate)
        }),
{
}

/// What is asked of a device is the sum over the requirements on it, each once, and on no other.
pub proof fn demands_add_up(placed: Seq<PlacedRequirement>, next: PlacedRequirement, device: u64)
    ensures
        bytes_on(Seq::empty(), device) == 0,
        inodes_on(Seq::empty(), device) == 0,
        next.device == device ==> bytes_on(placed.push(next), device) == bytes_on(placed, device)
            + next.bytes && inodes_on(placed.push(next), device) == inodes_on(placed, device)
            + next.inodes,
        next.device != device ==> bytes_on(placed.push(next), device) == bytes_on(placed, device)
            && inodes_on(placed.push(next), device) == inodes_on(placed, device),
{
    assert(placed.push(next).drop_last() =~= placed);
}

/// Every device that is asked for anything has one demand, the devices in order; it is spelled as the
/// first requirement on that device, and a demand on a device that nobody asks is not made.
pub proof fn every_device_has_one_demand(
    demands: Seq<FilesystemDemand>,
    placed: Seq<PlacedRequirement>,
    at: int,
    wanted: int,
)
    requires
        are_demands(demands, placed),
    ensures
        0 <= wanted < placed.len() ==> exists|i: int|
            0 <= i < demands.len() && (#[trigger] demands[i]).device == placed[wanted].device,
        0 <= at < demands.len() ==> {
            &&& demands[at].bytes == bytes_on(placed, demands[at].device)
            &&& demands[at].inodes == inodes_on(placed, demands[at].device)
            &&& exists|k: int|
                {
                    &&& 0 <= k < placed.len()
                    &&& (#[trigger] placed[k]).device == demands[at].device
                    &&& demands[at].path.spelled() == placed[k].path.spelled()
                    &&& forall|j: int| 0 <= j < k ==> (#[trigger] placed[j]).device
                        != demands[at].device
                }
        },
        0 <= at < demands.len() && 0 <= wanted < demands.len() && at < wanted ==> demands[at].device
            < demands[wanted].device,
{
    if 0 <= wanted < placed.len() {
        assert(is_demanded(demands, placed[wanted].device));
    }
    if 0 <= at < demands.len() {
        assert(is_demand(demands[at], placed));
        let device = demands[at].device;
        the_first_is_first(placed, device, 0);
        let k = first_on(placed, device, 0)->0;
        assert(placed[k].device == device);
    }
}

proof fn the_first_is_first(placed: Seq<PlacedRequirement>, device: u64, from: int)
    requires
        0 <= from <= placed.len(),
    ensures
        first_on(placed, device, from) matches Some(at) ==> from <= at < placed.len()
            && placed[at].device == device && forall|k: int|
            from <= k < at ==> (#[trigger] placed[k]).device != device,
    decreases placed.len() - from,
{
    if from < placed.len() && placed[from].device != device {
        the_first_is_first(placed, device, from + 1);
    }
}

/// The requirements up to one make too much exactly where their sum on its device is too large a
/// number, first in bytes and then in inodes.
pub proof fn sums_fail_where_they_are_too_large(placed: Seq<PlacedRequirement>, at: int)
    requires
        0 <= at < placed.len(),
    ensures
        ({
            let sofar = placed.take(at + 1);
            let device = placed[at].device;
            &&& bytes_on(sofar, device) > u64::MAX ==> demand_fault(placed, at) == Some(
                CapacityFault::Bytes,
            )
            &&& bytes_on(sofar, device) <= u64::MAX && inodes_on(sofar, device) > u64::MAX
                ==> demand_fault(placed, at) == Some(CapacityFault::Inodes)
            &&& bytes_on(sofar, device) <= u64::MAX && inodes_on(sofar, device) <= u64::MAX
                ==> demand_fault(placed, at) is None
        }),
{
}

/// A twentieth of a filesystem stays free, and never less than a gibibyte; four thousand and
/// ninety-six inodes stay free; and sizes that are too large a number count as the largest.
pub proof fn filesystems_keep_some_room(stats: FilesystemStats, inodes: u64)
    ensures
        ({
            let product = stats.blocks * stats.fragment_size;
            let size = if product > u64::MAX {
                u64::MAX as int
            } else {
                product
            };
            let headroom = headroom_of(stats);
            &&& saturated_product(stats.blocks, stats.fragment_size) == size
            &&& headroom >= 1073741824
            &&& headroom > 1073741824 ==> 20 * headroom <= size
            &&& size < 20 * (headroom + 1)
        }),
        inodes <= u64::MAX - 4096 ==> inodes_for(inodes) == inodes + 4096,
        inodes > u64::MAX - 4096 ==> inodes_for(inodes) == u64::MAX,
{
}

/// A filesystem has what it is asked for exactly where it has the bytes and the inodes.
pub proof fn both_bytes_and_inodes_count(report: CapacityReport)
    ensures
        report.available_bytes < report.required_bytes ==> !report.suffices(),
        report.available_inodes < report.required_inodes ==> !report.suffices(),
        report.available_bytes >= report.required_bytes && report.available_inodes
            >= report.required_inodes ==> report.suffices(),
{
}

/// An inode was counted where one of the same number on the same device was.
pub proof fn inodes_are_told_by_device_and_number(seen: Seq<DiskEntry>, next: DiskEntry, entry: DiskEntry)
    ensures
        !is_seen(Seq::empty(), entry),
        is_seen(seen.push(next), entry) <==> is_seen(seen, entry) || (next.device == entry.device
            && next.inode == entry.inode),
{
    let more = seen.push(next);
    assert(more[seen.len() as int] == next);
    if is_seen(seen, entry) {
        let i = choose|i: int|
            0 <= i < seen.len() && (#[trigger] seen[i]).device == entry.device && seen[i].inode
                == entry.inode;
        assert(more[i] == seen[i]);
    }
    if is_seen(more, entry) {
        let i = choose|i: int|
            0 <= i < more.len() && (#[trigger] more[i]).device == entry.device && more[i].inode
                == entry.inode;
        if i < seen.len() {
            assert(seen[i] == more[i]);
        }
    }
}

/// A consumer that is not larger than any other comes last, behind those of its size; one that is
/// larger than all others comes first. Five are told at most.
pub proof fn consumers_of_a_size_stay_in_order(usage: Seq<Consumer>, next: Consumer)
    ensures
        (forall|k: int| 0 <= k < ranked(usage).len() ==> (#[trigger] ranked(usage)[k]).bytes
            >= next.bytes) ==> ranked(usage.push(next)) == ranked(usage).push(next),
        (forall|k: int| 0 <= k < ranked(usage).len() ==> (#[trigger] ranked(usage)[k]).bytes
            < next.bytes) ==> ranked(usage.push(next)) == seq![next] + ranked(usage),
        TOLD_CONSUMERS == 5,
{
    let before = ranked(usage);
    assert(usage.push(next).drop_last() =~= usage);
    ranks_are_positions(before, next.bytes, 0);
    let at = rank_among(before, next.bytes, 0);
    if forall|k: int| 0 <= k < before.len() ==> (#[trigger] before[k]).bytes >= next.bytes {
        assert(at == before.len());
        assert(before.insert(at, next) =~= before.push(next));
    }
    if forall|k: int| 0 <= k < before.len() ==> (#[trigger] before[k]).bytes < next.bytes {
        if at > 0 {
            assert(before[0].bytes >= next.bytes);
        }
        assert(before.insert(0, next) =~= seq![next] + before);
    }
}

/// Different faults of an estimate have different messages.
pub proof fn overflows_are_told_apart(left: CapacityFault, right: CapacityFault)
    ensures
        left.shown() == right.shown() ==> left == right,
{
    reveal_strlit("checkpoint disk estimate overflow");
    reveal_strlit("checkpoint memory estimate overflow");
    reveal_strlit("checkpoint estimate overflow");
    reveal_strlit("checkpoint inode estimate overflow");
    reveal_strlit("checkpoint bytes overflow");
    reveal_strlit("checkpoint inodes overflow");
    reveal_strlit("checkpoint headroom overflow");
    reveal_strlit("checkpoint path has no existing ancestor");
    assert("checkpoint disk estimate overflow"@.len() == 33);
    assert("checkpoint memory estimate overflow"@.len() == 35);
    assert("checkpoint estimate overflow"@.len() == 28);
    assert("checkpoint headroom overflow"@.len() == 28);
    assert("checkpoint estimate overflow"@[11] == 'e');
    assert("checkpoint headroom overflow"@[11] == 'h');
    assert("checkpoint inode estimate overflow"@.len() == 34);
    assert("checkpoint bytes overflow"@.len() == 25);
    assert("checkpoint inodes overflow"@.len() == 26);
    assert("checkpoint path has no existing ancestor"@.len() == 40);
}

} // verus!
