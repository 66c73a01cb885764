//! What sandboxes run on.

use crate::orchestrator::types::{SandboxResources, SnapshotRuntimeVersions};
use vstd::prelude::*;

verus! {

const MIB: u64 = 1048576;

/// The number of MiB that hold this many bytes.
pub open spec fn mib_ceil(bytes: u64) -> int {
    (bytes + 1048575) / 1048576
}

fn bytes_to_mib_ceil(bytes: u64) -> (mib: u64)
    ensures
        mib == mib_ceil(bytes),
{
    let whole: u64 = bytes / MIB;
    if bytes % MIB == 0 {
        whole
    } else {
        whole + 1
    }
}

/// Resources with the size of the root block device, where that is known.
pub open spec fn with_rootfs_size(
    resources: SandboxResources,
    rootfs_virtual_size: Option<u64>,
) -> SandboxResources {
    match rootfs_virtual_size {
        Some(size) => SandboxResources { disk_size_mib: mib_ceil(size) as u64, ..resources },
        None => resources,
    }
}

/// Takes over the size of the root block device from the runtime. Attached drives are separately
/// configured storage and do not count.
pub fn resources_with_runtime_info(
    resources: SandboxResources,
    rootfs_virtual_size: Option<u64>,
) -> (updated: SandboxResources)
    ensures
        updated == with_rootfs_size(resources, rootfs_virtual_size),
{
    match rootfs_virtual_size {
        Some(size) => SandboxResources { disk_size_mib: bytes_to_mib_ceil(size), ..resources },
        None => resources,
    }
}

/// The resources of a fresh sandbox for which none are asked. The disk size is known once the
/// root block device is there.
pub fn default_fresh_sandbox_resources(vcpu_count: u32, mem_size_mib: u32) -> (resources:
    SandboxResources)
    ensures
        resources == (SandboxResources {
            cpu_count: vcpu_count,
            memory_mib: mem_size_mib,
            disk_size_mib: 0,
        }),
{
    SandboxResources { cpu_count: vcpu_count, memory_mib: mem_size_mib, disk_size_mib: 0 }
}

fn version_or_unknown(version: &Option<String>) -> (text: String)
    ensures
        match *version {
            Some(version) => text == version,
            None => text@ == "unknown"@,
        },
{
    match version {
        Some(version) => version.clone(),
        None => "unknown".to_owned(),
    }
}

/// The versions that a fresh sandbox is started with, as configured.
pub fn configured_runtime_versions(
    kernel: &Option<String>,
    firecracker: &Option<String>,
    envd: &String,
    tools: &String,
) -> (versions: SnapshotRuntimeVersions)
    ensures
        match *kernel {
            Some(kernel) => versions.kernel == kernel,
            None => versions.kernel@ == "unknown"@,
        },
        match *firecracker {
            Some(firecracker) => versions.firecracker == firecracker,
            None => versions.firecracker@ == "unknown"@,
        },
        versions.envd == *envd,
        versions.tools == *tools,
{
    SnapshotRuntimeVersions {
        kernel: version_or_unknown(kernel),
        firecracker: version_or_unknown(firecracker),
        envd: envd.clone(),
        tools: tools.clone(),
    }
}

/// The disk size that the runtime tells is rounded up to whole MiB, and nothing else of the resources
/// changes; where the runtime tells none, nothing changes.
pub proof fn disks_are_rounded_up(resources: SandboxResources, size: u64)
    ensures
        with_rootfs_size(resources, None) == resources,
        ({
            let updated = with_rootfs_size(resources, Some(size));
            &&& updated.cpu_count == resources.cpu_count
            &&& updated.memory_mib == resources.memory_mib
            &&& size <= updated.disk_size_mib * 1048576
            &&& updated.disk_size_mib * 1048576 < size + 1048576
        }),
{
}

} // verus!
