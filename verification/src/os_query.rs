//! The OS-query seam: every call into the `sysinfo` crate stands here,
//! behind a trusted item. What comes back reflects live machine state, so
//! no contract pins the values; the verified collector takes them as
//! arguments and is proved for every value they may take.

use vstd::prelude::*;

verus! {

#[verifier::external_type_specification]
#[verifier::external_body]
pub struct ExSystem(sysinfo::System);

#[verifier::external_type_specification]
#[verifier::external_body]
pub struct ExCpu(sysinfo::Cpu);

#[verifier::external_type_specification]
#[verifier::external_body]
pub struct ExDisks(sysinfo::Disks);

#[verifier::external_type_specification]
#[verifier::external_body]
pub struct ExDisk(sysinfo::Disk);

/// Relies on sysinfo::System::new_all: a System with every category of
/// data loaded and refreshed once.
#[verifier::external_body]
pub(crate) fn fresh_system() -> sysinfo::System {
    sysinfo::System::new_all()
}

/// Relies on sysinfo::System::refresh_all: re-reads every category of
/// data on the given System.
#[verifier::external_body]
pub(crate) fn refresh_system(sys: &mut sysinfo::System) {
    sys.refresh_all();
}

/// Relies on sysinfo::System::name: the OS name, when the OS reports
/// one.
#[verifier::external_body]
pub(crate) fn query_os_name() -> Option<String> {
    sysinfo::System::name()
}

/// Relies on sysinfo::System::os_version: the OS version, when the OS
/// reports one.
#[verifier::external_body]
pub(crate) fn query_os_version() -> Option<String> {
    sysinfo::System::os_version()
}

/// Relies on sysinfo::System::physical_core_count: the number of
/// physical cores, when the OS can report it.
#[verifier::external_body]
pub(crate) fn query_physical_core_count() -> Option<usize> {
    sysinfo::System::physical_core_count()
}

/// Relies on sysinfo::System::cpus: the logical processors the System
/// holds, in enumeration order.
#[verifier::external_body]
pub(crate) fn system_cpus<'a>(sys: &'a sysinfo::System) -> &'a [sysinfo::Cpu] {
    sys.cpus()
}

/// Relies on sysinfo::Cpu::brand: the processor's brand string.
#[verifier::external_body]
pub(crate) fn cpu_brand(cpu: &sysinfo::Cpu) -> String {
    cpu.brand().to_owned()
}

/// Relies on sysinfo::Cpu::frequency: the processor's frequency in MHz.
#[verifier::external_body]
pub(crate) fn cpu_frequency(cpu: &sysinfo::Cpu) -> u64 {
    cpu.frequency()
}

/// Relies on sysinfo::System::total_memory: total RAM in bytes.
#[verifier::external_body]
pub(crate) fn query_total_memory(sys: &sysinfo::System) -> u64 {
    sys.total_memory()
}

/// Relies on sysinfo::System::available_memory: available RAM in bytes.
#[verifier::external_body]
pub(crate) fn query_available_memory(sys: &sysinfo::System) -> u64 {
    sys.available_memory()
}

/// Relies on sysinfo::System::used_memory: used RAM in bytes.
#[verifier::external_body]
pub(crate) fn query_used_memory(sys: &sysinfo::System) -> u64 {
    sys.used_memory()
}

/// Relies on sysinfo::Disks::new_with_refreshed_list: the mounted
/// volumes, enumerated and refreshed once.
#[verifier::external_body]
pub(crate) fn refreshed_disks() -> sysinfo::Disks {
    sysinfo::Disks::new_with_refreshed_list()
}

/// Relies on sysinfo::Disks::list: the enumerated volumes, in order.
#[verifier::external_body]
pub(crate) fn disk_list<'a>(disks: &'a sysinfo::Disks) -> &'a [sysinfo::Disk] {
    disks.list()
}

/// Relies on sysinfo::Disk::name: the volume's name, lossily decoded;
/// may be empty.
#[verifier::external_body]
pub(crate) fn disk_name(disk: &sysinfo::Disk) -> String {
    disk.name().to_string_lossy().into_owned()
}

/// Relies on sysinfo::Disk::mount_point: the mount path, lossily
/// decoded.
#[verifier::external_body]
pub(crate) fn disk_mount_point(disk: &sysinfo::Disk) -> String {
    disk.mount_point().to_string_lossy().into_owned()
}

/// Relies on sysinfo::Disk::total_space: the volume's size in bytes.
#[verifier::external_body]
pub(crate) fn disk_total_space(disk: &sysinfo::Disk) -> u64 {
    disk.total_space()
}

/// Relies on sysinfo::Disk::available_space: free bytes on the volume.
#[verifier::external_body]
pub(crate) fn disk_available_space(disk: &sysinfo::Disk) -> u64 {
    disk.available_space()
}

/// Relies on sysinfo::Disk::file_system: the file-system label, lossily
/// decoded.
#[verifier::external_body]
pub(crate) fn disk_file_system(disk: &sysinfo::Disk) -> String {
    disk.file_system().to_string_lossy().into_owned()
}

} // verus!
