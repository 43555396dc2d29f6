use vstd::prelude::*;

use crate::facts::HostFacts;
use crate::normalize::{assemble_facts, lemma_facts_normalized, wf_facts};
use crate::os_query::{cpu_brand, cpu_frequency, disk_available_space, disk_file_system, disk_list,
    disk_mount_point, disk_name, disk_total_space, fresh_system, query_available_memory,
    query_os_name, query_os_version, query_physical_core_count, query_total_memory,
    query_used_memory, refresh_system, refreshed_disks, system_cpus};
use crate::raw::{lemma_snapshot_view_wf, RawProcessor, RawSnapshot, RawVolume};

verus! {

/// Query the OS layer for one fresh raw snapshot: identity, processors,
/// memory and volumes, each exactly as reported, in enumeration order.
/// The architecture is the compile-time constant of the host triple,
/// supplied by the embedding shell; it is recorded unchanged.
fn read_snapshot(architecture: String) -> (raw: RawSnapshot)
    ensures
        raw.architecture@ == architecture@,
{
    let mut sys = fresh_system();
    refresh_system(&mut sys);

    let os_name = query_os_name();
    let os_version = query_os_version();
    let physical_core_count = query_physical_core_count();

    let cpus = system_cpus(&sys);
    let n_cpus: usize = cpus.len();
    let mut processors: Vec<RawProcessor> = Vec::new();
    let mut i: usize = 0;
    while i < n_cpus
        invariant
            n_cpus == cpus@.len(),
            0 <= i <= n_cpus,
        decreases n_cpus - i,
    {
        let cpu = &cpus[i];
        processors.push(RawProcessor { brand: cpu_brand(cpu), frequency_mhz: cpu_frequency(cpu) });
        i += 1;
    }

    let memory_total_bytes = query_total_memory(&sys);
    let memory_available_bytes = query_available_memory(&sys);
    let memory_used_bytes = query_used_memory(&sys);

    let disks = refreshed_disks();
    let list = disk_list(&disks);
    let n_disks: usize = list.len();
    let mut volumes: Vec<RawVolume> = Vec::new();
    let mut k: usize = 0;
    while k < n_disks
        invariant
            n_disks == list@.len(),
            0 <= k <= n_disks,
        decreases n_disks - k,
    {
        let disk = &list[k];
        volumes.push(RawVolume {
            name: disk_name(disk),
            mount_point: disk_mount_point(disk),
            total_bytes: disk_total_space(disk),
            available_bytes: disk_available_space(disk),
            file_system: disk_file_system(disk),
        });
        k += 1;
    }

    RawSnapshot {
        os_name,
        os_version,
        architecture,
        processors,
        physical_core_count,
        memory_total_bytes,
        memory_available_bytes,
        memory_used_bytes,
        volumes,
    }
}

/// Collect the current host facts: query the OS fresh (no caching) and
/// assemble the normalized record, whole or not at all.
///
/// The values the OS reports are live machine state, so no contract can
/// pin them; what is promised of every outcome is that the call
/// succeeds, that the record carries the given architecture unchanged,
/// and that it is fully normalized (`wf_facts`): the one stub GPU entry,
/// non-negative figures, and every volume with a non-empty label, the
/// placeholder drive type and used space clamped at zero. The exact
/// policy is proved of [`assemble_facts`], which maps any raw snapshot
/// to its record.
pub fn collect(architecture: String) -> (r: Result<HostFacts, String>)
    ensures
        r is Ok,
        r matches Ok(facts) ==> wf_facts(facts@) && facts@.os.architecture == architecture@,
{
    let raw = read_snapshot(architecture);
    let facts = assemble_facts(&raw);
    proof {
        lemma_snapshot_view_wf(raw);
        lemma_facts_normalized(raw@);
    }
    Ok(facts)
}

} // verus!
