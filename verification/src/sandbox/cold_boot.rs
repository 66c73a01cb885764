//! Recovery from a disk alone. A checkpoint with memory is never taken for a disk-only record.

use crate::json;
use crate::orchestrator::types::Document;
use crate::paths;
use crate::paths::{Part, StorePath};
use crate::text;
use vstd::prelude::*;

verus! {

/// The version of disk-only records.
pub const COLD_BOOT_VERSION: u64 = 1;

/// Why a disk-only record or disk is refused.
#[derive(Clone, Copy, Debug, PartialEq, Eq, Structural)]
pub enum ColdBootFault {
    AlreadyWritable,
    NoParent,
    UnsupportedVersion,
}

impl ColdBootFault {
    pub open spec fn shown(self) -> Seq<char> {
        match self {
            ColdBootFault::AlreadyWritable => "cold-boot capture already has a writable upper"@,
            ColdBootFault::NoParent => "cold-boot disk has no parent"@,
            ColdBootFault::UnsupportedVersion => "unsupported disk-only boot record version"@,
        }
    }

    pub fn message(self) -> (message: &'static str)
        ensures
            message@ == self.shown(),
    {
        match self {
            ColdBootFault::AlreadyWritable => "cold-boot capture already has a writable upper",
            ColdBootFault::NoParent => "cold-boot disk has no parent",
            ColdBootFault::UnsupportedVersion => "unsupported disk-only boot record version",
        }
    }
}

/// The files of a writable layer.
#[derive(Debug)]
pub struct WritableDisk {
    pub data: StorePath,
    pub index: StorePath,
}

/// Plans the writable layer of a captured disk, next to its image. An existing writable layer is
/// never replaced.
pub fn prepare_writable_disk(image_path: &StorePath, upper_data: &str) -> (outcome: Result<
    WritableDisk,
    ColdBootFault,
>)
    ensures
        if upper_data@.len() > 0 {
            outcome matches Err(fault) && fault is AlreadyWritable
        } else {
            match StorePath::parent_parts(image_path@) {
                None => outcome matches Err(fault) && fault is NoParent,
                Some(parent) => outcome matches Ok(disk) && disk.data@ == parent.push(
                    Part::Name(text::text_bytes("boot-upper.data"@)),
                ) && disk.index@ == parent.push(
                    Part::Name(text::text_bytes("boot-upper.index"@)),
                ),
            }
        },
{
    if !upper_data.is_empty() {
        return Err(ColdBootFault::AlreadyWritable);
    }
    proof {
        reveal_strlit("boot-upper.data");
        paths::text_is_plain_name("boot-upper.data"@);
        reveal_strlit("boot-upper.index");
        paths::text_is_plain_name("boot-upper.index"@);
    }
    match image_path.parent() {
        None => Err(ColdBootFault::NoParent),
        Some(parent) => Ok(
            WritableDisk {
                data: parent.join_text("boot-upper.data"),
                index: parent.join_text("boot-upper.index"),
            },
        ),
    }
}

/// A record by which a sandbox is booted from its disk. The configuration is one that was
/// validated.
#[derive(Debug)]
pub struct FirecrackerColdBootState {
    pub cold_boot_version: u64,
    pub config: Document,
}

impl FirecrackerColdBootState {
    /// A record of the current version for a configuration, unless that was found wanting.
    pub fn new(validated: Result<Document, String>) -> (state: Result<
        FirecrackerColdBootState,
        String,
    >)
        ensures
            state == match validated {
                Ok(config) => Ok::<FirecrackerColdBootState, String>(
                    (FirecrackerColdBootState { cold_boot_version: COLD_BOOT_VERSION, config }),
                ),
                Err(source) => Err(source),
            },
    {
        match validated {
            Ok(config) => Ok(
                FirecrackerColdBootState { cold_boot_version: COLD_BOOT_VERSION, config },
            ),
            Err(source) => Err(source),
        }
    }

    /// Requires the current version.
    pub fn require_version(&self) -> (outcome: Result<(), ColdBootFault>)
        ensures
            outcome == if self.cold_boot_version == COLD_BOOT_VERSION {
                Ok(())
            } else {
                Err::<(), ColdBootFault>(ColdBootFault::UnsupportedVersion)
            },
    {
        if self.cold_boot_version == COLD_BOOT_VERSION {
            Ok(())
        } else {
            Err(ColdBootFault::UnsupportedVersion)
        }
    }
}

/// What a persisted recovery state is.
#[derive(Clone, Copy, Debug, PartialEq, Eq, Structural)]
pub enum RecoveryKind {
    /// A disk alone.
    ColdBoot,
    /// A disk and memory.
    Memory,
}

/// Tells disk-only records by their version field.
pub fn decode_recovery_state(state: &[u8]) -> (kind: RecoveryKind)
    ensures
        kind == if json::json_has_field(state@, "cold_boot_version"@) {
            RecoveryKind::ColdBoot
        } else {
            RecoveryKind::Memory
        },
{
    if json::has_field(state, "cold_boot_version") {
        RecoveryKind::ColdBoot
    } else {
        RecoveryKind::Memory
    }
}

/// Different faults of a disk-only record have different messages.
pub proof fn cold_boot_faults_are_told_apart(left: ColdBootFault, right: ColdBootFault)
    ensures
        left.shown() == right.shown() ==> left == right,
{
    reveal_strlit("cold-boot capture already has a writable upper");
    reveal_strlit("cold-boot disk has no parent");
    reveal_strlit("unsupported disk-only boot record version");
    assert("cold-boot capture already has a writable upper"@.len() == 46);
    assert("cold-boot disk has no parent"@.len() == 28);
    assert("unsupported disk-only boot record version"@.len() == 41);
}

} // verus!
