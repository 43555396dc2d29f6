use vstd::prelude::*;

verus! {

/// Identity of the host operating system.
pub struct OsFacts {
    /// OS name, or "Unknown" when the OS layer cannot report one.
    pub name: String,
    /// OS version, or "Unknown" when the OS layer cannot report one.
    pub version: String,
    /// Target architecture of the host; always resolved, never defaulted.
    pub architecture: String,
}

pub ghost struct OsFactsV {
    pub name: Seq<char>,
    pub version: Seq<char>,
    pub architecture: Seq<char>,
}

impl View for OsFacts {
    type V = OsFactsV;

    open spec fn view(&self) -> OsFactsV {
        OsFactsV {
            name: self.name@,
            version: self.version@,
            architecture: self.architecture@,
        }
    }
}

/// Facts about the host processor.
pub struct CpuFacts {
    /// Brand string of the first enumerated logical processor, or "Unknown".
    pub brand_name: String,
    /// Physical core count when the OS reports one, else the logical count.
    pub physical_core_count: usize,
    /// Clock frequency of the first enumerated logical processor, in MHz.
    pub frequency_mhz: u64,
}

pub ghost struct CpuFactsV {
    pub brand_name: Seq<char>,
    pub physical_core_count: int,
    pub frequency_mhz: int,
}

impl View for CpuFacts {
    type V = CpuFactsV;

    open spec fn view(&self) -> CpuFactsV {
        CpuFactsV {
            brand_name: self.brand_name@,
            physical_core_count: self.physical_core_count as int,
            frequency_mhz: self.frequency_mhz as int,
        }
    }
}

/// Memory figures as the OS reports them, in bytes; taken as-is, not derived.
pub struct MemoryFacts {
    pub total_bytes: u64,
    pub available_bytes: u64,
    pub used_bytes: u64,
}

pub ghost struct MemoryFactsV {
    pub total_bytes: int,
    pub available_bytes: int,
    pub used_bytes: int,
}

impl View for MemoryFacts {
    type V = MemoryFactsV;

    open spec fn view(&self) -> MemoryFactsV {
        MemoryFactsV {
            total_bytes: self.total_bytes as int,
            available_bytes: self.available_bytes as int,
            used_bytes: self.used_bytes as int,
        }
    }
}

/// One mounted storage volume, normalized to whole gibibytes.
pub struct VolumeFacts {
    /// Volume name as reported, or "System Drive" when reported empty.
    pub label: String,
    pub mount_point: String,
    /// Capacity in gibibytes (or the placeholder capacity, see the
    /// normalization policy).
    pub total: u64,
    /// Free space in gibibytes.
    pub available: u64,
    /// total - available, clamped to zero instead of wrapping.
    pub used: u64,
    pub file_system: String,
    /// Constant placeholder; no real medium detection is performed.
    pub drive_type: String,
}

pub ghost struct VolumeFactsV {
    pub label: Seq<char>,
    pub mount_point: Seq<char>,
    pub total: int,
    pub available: int,
    pub used: int,
    pub file_system: Seq<char>,
    pub drive_type: Seq<char>,
}

impl View for VolumeFacts {
    type V = VolumeFactsV;

    open spec fn view(&self) -> VolumeFactsV {
        VolumeFactsV {
            label: self.label@,
            mount_point: self.mount_point@,
            total: self.total as int,
            available: self.available as int,
            used: self.used as int,
            file_system: self.file_system@,
            drive_type: self.drive_type@,
        }
    }
}

impl DeepView for VolumeFacts {
    type V = VolumeFactsV;

    open spec fn deep_view(&self) -> VolumeFactsV {
        self.view()
    }
}

/// One graphics adapter entry. Probing is stubbed: the collector always
/// reports a single placeholder entry.
pub struct GpuFacts {
    pub name: String,
    pub vendor: String,
    pub memory: Option<u64>,
}

pub ghost struct GpuFactsV {
    pub name: Seq<char>,
    pub vendor: Seq<char>,
    pub memory: Option<int>,
}

impl View for GpuFacts {
    type V = GpuFactsV;

    open spec fn view(&self) -> GpuFactsV {
        GpuFactsV {
            name: self.name@,
            vendor: self.vendor@,
            memory: match self.memory {
                Some(m) => Some(m as int),
                None => None,
            },
        }
    }
}

impl DeepView for GpuFacts {
    type V = GpuFactsV;

    open spec fn deep_view(&self) -> GpuFactsV {
        self.view()
    }
}

/// The aggregated snapshot of host facts, produced whole on every
/// collection; immutable once built.
pub struct HostFacts {
    pub os: OsFacts,
    pub cpu: CpuFacts,
    pub memory: MemoryFacts,
    /// Volumes in OS enumeration order; no de-duplication.
    pub storage: Vec<VolumeFacts>,
    /// Always exactly one placeholder entry (probing is stubbed).
    pub gpu: Vec<GpuFacts>,
}

pub ghost struct HostFactsV {
    pub os: OsFactsV,
    pub cpu: CpuFactsV,
    pub memory: MemoryFactsV,
    pub storage: Seq<VolumeFactsV>,
    pub gpu: Seq<GpuFactsV>,
}

impl View for HostFacts {
    type V = HostFactsV;

    open spec fn view(&self) -> HostFactsV {
        HostFactsV {
            os: self.os@,
            cpu: self.cpu@,
            memory: self.memory@,
            storage: self.storage.deep_view(),
            gpu: self.gpu.deep_view(),
        }
    }
}

} // verus!
