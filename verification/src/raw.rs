use vstd::prelude::*;

verus! {

/// One logical processor as enumerated by the OS layer.
pub struct RawProcessor {
    pub brand: String,
    pub frequency_mhz: u64,
}

pub ghost struct RawProcessorV {
    pub brand: Seq<char>,
    pub frequency_mhz: int,
}

impl View for RawProcessor {
    type V = RawProcessorV;

    open spec fn view(&self) -> RawProcessorV {
        RawProcessorV {
            brand: self.brand@,
            frequency_mhz: self.frequency_mhz as int,
        }
    }
}

impl DeepView for RawProcessor {
    type V = RawProcessorV;

    open spec fn deep_view(&self) -> RawProcessorV {
        self.view()
    }
}

/// One mounted volume as enumerated by the OS layer, in raw bytes.
pub struct RawVolume {
    /// Name as reported; may be empty.
    pub name: String,
    pub mount_point: String,
    pub total_bytes: u64,
    pub available_bytes: u64,
    pub file_system: String,
}

pub ghost struct RawVolumeV {
    pub name: Seq<char>,
    pub mount_point: Seq<char>,
    pub total_bytes: int,
    pub available_bytes: int,
    pub file_system: Seq<char>,
}

impl View for RawVolume {
    type V = RawVolumeV;

    open spec fn view(&self) -> RawVolumeV {
        RawVolumeV {
            name: self.name@,
            mount_point: self.mount_point@,
            total_bytes: self.total_bytes as int,
            available_bytes: self.available_bytes as int,
            file_system: self.file_system@,
        }
    }
}

impl DeepView for RawVolume {
    type V = RawVolumeV;

    open spec fn deep_view(&self) -> RawVolumeV {
        self.view()
    }
}

/// Everything the OS layer hands over for one collection, before any
/// normalization. Each optional fact stays optional here; the documented
/// default is substituted only when the response record is assembled.
pub struct RawSnapshot {
    /// OS name, if the OS reports one.
    pub os_name: Option<String>,
    /// OS version, if the OS reports one.
    pub os_version: Option<String>,
    /// Compile-time architecture identifier of the host triple, supplied by
    /// the embedding shell; always present.
    pub architecture: String,
    /// Logical processors in OS enumeration order.
    pub processors: Vec<RawProcessor>,
    /// Physical core count, if the OS can report one.
    pub physical_core_count: Option<usize>,
    pub memory_total_bytes: u64,
    pub memory_available_bytes: u64,
    pub memory_used_bytes: u64,
    /// Mounted volumes in OS enumeration order.
    pub volumes: Vec<RawVolume>,
}

pub ghost struct RawSnapshotV {
    pub os_name: Option<Seq<char>>,
    pub os_version: Option<Seq<char>>,
    pub architecture: Seq<char>,
    pub processors: Seq<RawProcessorV>,
    pub physical_core_count: Option<int>,
    pub memory_total_bytes: int,
    pub memory_available_bytes: int,
    pub memory_used_bytes: int,
    pub volumes: Seq<RawVolumeV>,
}

impl View for RawSnapshot {
    type V = RawSnapshotV;

    open spec fn view(&self) -> RawSnapshotV {
        RawSnapshotV {
            os_name: self.os_name.deep_view(),
            os_version: self.os_version.deep_view(),
            architecture: self.architecture@,
            processors: self.processors.deep_view(),
            physical_core_count: match self.physical_core_count {
                Some(n) => Some(n as int),
                None => None,
            },
            memory_total_bytes: self.memory_total_bytes as int,
            memory_available_bytes: self.memory_available_bytes as int,
            memory_used_bytes: self.memory_used_bytes as int,
            volumes: self.volumes.deep_view(),
        }
    }
}

/// Bounds that hold of the view of every `RawSnapshot` an OS layer can
/// build: all numeric figures are machine integers, hence non-negative.
pub open spec fn raw_wf(raw: RawSnapshotV) -> bool {
    &&& (match raw.physical_core_count {
        Some(n) => 0 <= n <= usize::MAX,
        None => true,
    })
    &&& 0 <= raw.memory_total_bytes
    &&& 0 <= raw.memory_available_bytes
    &&& 0 <= raw.memory_used_bytes
    &&& forall|i: int|
        0 <= i < raw.processors.len() ==> 0 <= (#[trigger] raw.processors[i]).frequency_mhz
    &&& forall|i: int|
        0 <= i < raw.volumes.len() ==> {
            &&& 0 <= (#[trigger] raw.volumes[i]).total_bytes
            &&& 0 <= raw.volumes[i].available_bytes
        }
}

/// The view of a snapshot built from machine values is well formed.
pub proof fn lemma_snapshot_view_wf(raw: RawSnapshot)
    ensures
        raw_wf(raw@),
{
}

} // verus!
