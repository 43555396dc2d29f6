use vstd::prelude::*;

use crate::facts::{CpuFacts, CpuFactsV, GpuFacts, GpuFactsV, HostFacts, HostFactsV, MemoryFacts,
    MemoryFactsV, OsFacts, OsFactsV, VolumeFacts, VolumeFactsV};
use crate::raw::{raw_wf, RawProcessorV, RawProcessor, RawSnapshot, RawSnapshotV, RawVolume,
    RawVolumeV};
use crate::strutil::{contains_substring, has_substring};

verus! {

/// Bytes per whole gibibyte; volume figures are reported in this unit.
pub const BYTES_PER_GIB: u64 = 1024 * 1024 * 1024;

/// Capacity substituted when a volume's reported total is implausibly
/// small and its mount point looks like the primary system volume. A
/// documented workaround for unreliable OS reporting, not a measurement.
pub const PLACEHOLDER_CAPACITY_GIB: u64 = 512;

/// The documented default for an OS fact the OS layer cannot supply.
pub open spec fn default_unknown(fact: Option<Seq<char>>) -> Seq<char> {
    match fact {
        Some(s) => s,
        None => "Unknown"@,
    }
}

/// OS identity after defaulting: name and version each fall back to
/// "Unknown" independently; the architecture is always present.
pub open spec fn os_facts_of(
    name: Option<Seq<char>>,
    version: Option<Seq<char>>,
    architecture: Seq<char>,
) -> OsFactsV {
    OsFactsV {
        name: default_unknown(name),
        version: default_unknown(version),
        architecture: architecture,
    }
}

/// CPU facts from the enumerated processors: brand and frequency come
/// from the first processor only, with "Unknown"/0 when none is listed;
/// the core count prefers the reported physical count and falls back to
/// the logical processor count.
pub open spec fn cpu_facts_of(
    processors: Seq<RawProcessorV>,
    physical_core_count: Option<int>,
) -> CpuFactsV {
    CpuFactsV {
        brand_name: if processors.len() > 0 {
            processors[0].brand
        } else {
            "Unknown"@
        },
        physical_core_count: match physical_core_count {
            Some(n) => n,
            None => processors.len() as int,
        },
        frequency_mhz: if processors.len() > 0 {
            processors[0].frequency_mhz
        } else {
            0
        },
    }
}

/// Whole gibibytes in `bytes`, by integer division.
pub open spec fn gib_of(bytes: int) -> int {
    bytes / (BYTES_PER_GIB as int)
}

/// The mount point textually indicates the primary system volume.
pub open spec fn looks_like_system_mount(mount_point: Seq<char>) -> bool {
    has_substring(mount_point, "C:"@)
}

/// Converted capacity of a volume: ordinarily whole gibibytes of the raw
/// total; but when the raw total is at most one gibibyte and the mount
/// point looks like the system volume, the placeholder capacity instead.
pub open spec fn volume_total_gib(v: RawVolumeV) -> int {
    if v.total_bytes > BYTES_PER_GIB as int {
        gib_of(v.total_bytes)
    } else if looks_like_system_mount(v.mount_point) {
        PLACEHOLDER_CAPACITY_GIB as int
    } else {
        gib_of(v.total_bytes)
    }
}

/// A volume normalized: empty names become "System Drive", raw bytes
/// become whole gibibytes, used space is clamped at zero, and the drive
/// type is a constant placeholder.
pub open spec fn volume_facts_of(v: RawVolumeV) -> VolumeFactsV {
    let total = volume_total_gib(v);
    let available = gib_of(v.available_bytes);
    VolumeFactsV {
        label: if v.name.len() == 0 {
            "System Drive"@
        } else {
            v.name
        },
        mount_point: v.mount_point,
        total: total,
        available: available,
        used: if total > available {
            total - available
        } else {
            0
        },
        file_system: v.file_system,
        drive_type: "SSD"@,
    }
}

/// All volumes normalized, in OS enumeration order.
pub open spec fn storage_facts_of(volumes: Seq<RawVolumeV>) -> Seq<VolumeFactsV> {
    volumes.map_values(|v: RawVolumeV| volume_facts_of(v))
}

/// The single placeholder entry of the stubbed GPU probe.
pub open spec fn gpu_stub() -> GpuFactsV {
    GpuFactsV { name: "Unknown GPU"@, vendor: "Unknown"@, memory: None }
}

/// The full normalization policy: what the assembled record holds for a
/// given raw snapshot. Memory figures are taken as-is; everything else is
/// defaulted or converted as the component policies above say.
pub open spec fn facts_of(raw: RawSnapshotV) -> HostFactsV {
    HostFactsV {
        os: os_facts_of(raw.os_name, raw.os_version, raw.architecture),
        cpu: cpu_facts_of(raw.processors, raw.physical_core_count),
        memory: MemoryFactsV {
            total_bytes: raw.memory_total_bytes,
            available_bytes: raw.memory_available_bytes,
            used_bytes: raw.memory_used_bytes,
        },
        storage: storage_facts_of(raw.volumes),
        gpu: seq![gpu_stub()],
    }
}

/// A normalized volume record: a non-empty label, the constant drive
/// type, non-negative figures, and used space that is exactly the
/// clamped difference of its own total and available figures.
pub open spec fn wf_volume(v: VolumeFactsV) -> bool {
    &&& v.label.len() > 0
    &&& v.drive_type == "SSD"@
    &&& 0 <= v.total
    &&& 0 <= v.available
    &&& v.used == if v.total > v.available {
        v.total - v.available
    } else {
        0
    }
}

/// A fully normalized record: every scalar populated and non-negative,
/// every volume well formed, and exactly the one stub GPU entry.
pub open spec fn wf_facts(f: HostFactsV) -> bool {
    &&& f.gpu.len() == 1
    &&& f.gpu[0] == gpu_stub()
    &&& forall|i: int| 0 <= i < f.storage.len() ==> wf_volume(#[trigger] f.storage[i])
    &&& 0 <= f.cpu.physical_core_count
    &&& 0 <= f.cpu.frequency_mhz
    &&& 0 <= f.memory.total_bytes
    &&& 0 <= f.memory.available_bytes
    &&& 0 <= f.memory.used_bytes
}

/// Resolve the OS identity, defaulting name and version independently.
pub fn resolve_os(name: &Option<String>, version: &Option<String>, architecture: &str) -> (r:
    OsFacts)
    ensures
        r@ == os_facts_of(name.deep_view(), version.deep_view(), architecture@),
{
    let resolved_name: String = match name {
        Some(n) => n.clone(),
        None => "Unknown".to_owned(),
    };
    let resolved_version: String = match version {
        Some(v) => v.clone(),
        None => "Unknown".to_owned(),
    };
    OsFacts {
        name: resolved_name,
        version: resolved_version,
        architecture: architecture.to_owned(),
    }
}

/// Resolve the CPU facts from the enumerated processors and the reported
/// physical core count.
pub fn resolve_cpu(processors: &Vec<RawProcessor>, physical_core_count: Option<usize>) -> (r:
    CpuFacts)
    ensures
        r@ == cpu_facts_of(
            processors.deep_view(),
            match physical_core_count {
                Some(n) => Some(n as int),
                None => None,
            },
        ),
        // a reported physical count wins; otherwise the logical count
        match physical_core_count {
            Some(n) => r.physical_core_count == n,
            None => r.physical_core_count == processors@.len(),
        },
        // an empty processor list yields the documented defaults
        processors@.len() == 0 ==> r@.brand_name == "Unknown"@ && r.frequency_mhz == 0,
{
    let cores: usize = match physical_core_count {
        Some(n) => n,
        None => processors.len(),
    };
    if processors.len() > 0 {
        let first: &RawProcessor = &processors[0];
        CpuFacts {
            brand_name: first.brand.clone(),
            physical_core_count: cores,
            frequency_mhz: first.frequency_mhz,
        }
    } else {
        CpuFacts {
            brand_name: "Unknown".to_owned(),
            physical_core_count: cores,
            frequency_mhz: 0,
        }
    }
}

/// Normalize one volume: substitute the label, convert to gibibytes with
/// the system-drive placeholder heuristic, and clamp used space at zero.
pub fn normalize_volume(v: &RawVolume) -> (r: VolumeFacts)
    ensures
        r@ == volume_facts_of(v@),
        // available above total never wraps: used is clamped to zero
        r@.available >= r@.total ==> r@.used == 0,
        // an empty reported name becomes the documented label
        v@.name.len() == 0 ==> r@.label == "System Drive"@,
{
    let total_gib: u64 = if v.total_bytes > BYTES_PER_GIB {
        v.total_bytes / BYTES_PER_GIB
    } else if contains_substring(v.mount_point.as_str(), "C:") {
        PLACEHOLDER_CAPACITY_GIB
    } else {
        v.total_bytes / BYTES_PER_GIB
    };
    let available_gib: u64 = v.available_bytes / BYTES_PER_GIB;
    let used_gib: u64 = if total_gib > available_gib {
        total_gib - available_gib
    } else {
        0
    };
    let label: String = if v.name.as_str().is_empty() {
        "System Drive".to_owned()
    } else {
        v.name.clone()
    };
    VolumeFacts {
        label: label,
        mount_point: v.mount_point.clone(),
        total: total_gib,
        available: available_gib,
        used: used_gib,
        file_system: v.file_system.clone(),
        drive_type: "SSD".to_owned(),
    }
}

/// Normalize every enumerated volume, keeping the enumeration order.
pub fn normalize_storage(volumes: &Vec<RawVolume>) -> (r: Vec<VolumeFacts>)
    ensures
        r.deep_view() == storage_facts_of(volumes.deep_view()),
{
    let mut out: Vec<VolumeFacts> = Vec::new();
    let n: usize = volumes.len();
    let mut i: usize = 0;
    while i < n
        invariant
            n == volumes@.len(),
            0 <= i <= n,
            out@.len() == i as int,
            forall|j: int| 0 <= j < i ==> (#[trigger] out@[j])@ == volume_facts_of(volumes@[j]@),
        decreases n - i,
    {
        let f = normalize_volume(&volumes[i]);
        out.push(f);
        i += 1;
    }
    proof {
        let lhs = out.deep_view();
        let rhs = storage_facts_of(volumes.deep_view());
        assert forall|k: int| 0 <= k < lhs.len() implies lhs[k] == rhs[k] by {
            assert(lhs[k] == out@[k].deep_view());
            assert(volumes.deep_view()[k] == volumes@[k].deep_view());
        }
        assert(lhs =~= rhs);
    }
    out
}

/// The stubbed GPU probe: no real detection, always the one placeholder
/// entry.
pub fn detect_gpu() -> (r: Vec<GpuFacts>)
    ensures
        r.deep_view() == seq![gpu_stub()],
{
    let mut out: Vec<GpuFacts> = Vec::new();
    out.push(GpuFacts {
        name: "Unknown GPU".to_owned(),
        vendor: "Unknown".to_owned(),
        memory: None,
    });
    proof {
        assert(out.deep_view() =~= seq![gpu_stub()]);
    }
    out
}

/// Assemble the response record from one raw snapshot: exactly the
/// normalization policy `facts_of`, for every snapshot.
pub fn assemble_facts(raw: &RawSnapshot) -> (r: HostFacts)
    ensures
        r@ == facts_of(raw@),
{
    let os = resolve_os(&raw.os_name, &raw.os_version, raw.architecture.as_str());
    let cpu = resolve_cpu(&raw.processors, raw.physical_core_count);
    let memory = MemoryFacts {
        total_bytes: raw.memory_total_bytes,
        available_bytes: raw.memory_available_bytes,
        used_bytes: raw.memory_used_bytes,
    };
    let storage = normalize_storage(&raw.volumes);
    let gpu = detect_gpu();
    let record = HostFacts { os, cpu, memory, storage, gpu };
    proof {
        assert(record@.storage =~= facts_of(raw@).storage);
        assert(record@.gpu =~= facts_of(raw@).gpu);
    }
    record
}

/// Every record assembled from a machine snapshot is fully normalized:
/// each field holds either reported data or its documented default, no
/// figure is negative, and each volume obeys the clamp and label policy.
pub proof fn lemma_facts_normalized(raw: RawSnapshotV)
    requires
        raw_wf(raw),
    ensures
        wf_facts(facts_of(raw)),
{
    reveal_strlit("System Drive");
    let f = facts_of(raw);
    assert forall|i: int| 0 <= i < f.storage.len() implies wf_volume(#[trigger] f.storage[i]) by {
        let v = raw.volumes[i];
        assert(0 <= v.total_bytes && 0 <= v.available_bytes);
        assert(f.storage[i] == volume_facts_of(v));
        assert("System Drive"@.len() > 0);
    }
    if raw.processors.len() > 0 {
        assert(0 <= raw.processors[0].frequency_mhz);
    }
}

/// Collecting twice on a host whose OS identity and processor facts have
/// not changed yields identical OS and CPU facts, whatever the live
/// memory and storage figures did in between.
pub proof fn lemma_identity_facts_stable(first: RawSnapshotV, second: RawSnapshotV)
    requires
        first.os_name == second.os_name,
        first.os_version == second.os_version,
        first.architecture == second.architecture,
        first.processors == second.processors,
        first.physical_core_count == second.physical_core_count,
    ensures
        facts_of(first).os == facts_of(second).os,
        facts_of(first).cpu == facts_of(second).cpu,
{
}

} // verus!
