use host_facts::normalize::{
    assemble_facts, detect_gpu, normalize_storage, normalize_volume, resolve_cpu, resolve_os,
};
use host_facts::raw::{RawProcessor, RawSnapshot, RawVolume};

fn volume(name: &str, mount: &str, total_bytes: u64, available_bytes: u64, fs: &str) -> RawVolume {
    RawVolume {
        name: name.to_string(),
        mount_point: mount.to_string(),
        total_bytes,
        available_bytes,
        file_system: fs.to_string(),
    }
}

#[test]
fn os_facts_keep_reported_values() {
    let os = resolve_os(
        &Some("Linux".to_string()),
        &Some("6.1".to_string()),
        "x86_64",
    );
    assert_eq!(os.name, "Linux");
    assert_eq!(os.version, "6.1");
    assert_eq!(os.architecture, "x86_64");
}

#[test]
fn os_facts_default_independently() {
    let os = resolve_os(&None, &Some("6.1".to_string()), "aarch64");
    assert_eq!(os.name, "Unknown");
    assert_eq!(os.version, "6.1");
    assert_eq!(os.architecture, "aarch64");

    let os = resolve_os(&Some("Linux".to_string()), &None, "aarch64");
    assert_eq!(os.name, "Linux");
    assert_eq!(os.version, "Unknown");
}

#[test]
fn physical_core_count_wins_over_logical() {
    let processors = vec![
        RawProcessor { brand: "CPU A".to_string(), frequency_mhz: 2400 },
        RawProcessor { brand: "CPU A".to_string(), frequency_mhz: 2400 },
        RawProcessor { brand: "CPU A".to_string(), frequency_mhz: 2400 },
        RawProcessor { brand: "CPU A".to_string(), frequency_mhz: 2400 },
        RawProcessor { brand: "CPU A".to_string(), frequency_mhz: 2400 },
        RawProcessor { brand: "CPU A".to_string(), frequency_mhz: 2400 },
        RawProcessor { brand: "CPU A".to_string(), frequency_mhz: 2400 },
        RawProcessor { brand: "CPU A".to_string(), frequency_mhz: 2400 },
    ];
    let cpu = resolve_cpu(&processors, Some(4));
    assert_eq!(cpu.physical_core_count, 4);
}

#[test]
fn unreported_physical_count_falls_back_to_logical() {
    let processors = vec![
        RawProcessor { brand: "CPU A".to_string(), frequency_mhz: 2400 },
        RawProcessor { brand: "CPU A".to_string(), frequency_mhz: 2400 },
        RawProcessor { brand: "CPU A".to_string(), frequency_mhz: 2400 },
    ];
    let cpu = resolve_cpu(&processors, None);
    assert_eq!(cpu.physical_core_count, 3);
}

#[test]
fn brand_and_frequency_come_from_first_processor() {
    let processors = vec![
        RawProcessor { brand: "First".to_string(), frequency_mhz: 3600 },
        RawProcessor { brand: "Second".to_string(), frequency_mhz: 1200 },
    ];
    let cpu = resolve_cpu(&processors, None);
    assert_eq!(cpu.brand_name, "First");
    assert_eq!(cpu.frequency_mhz, 3600);
}

#[test]
fn empty_processor_list_yields_defaults() {
    let cpu = resolve_cpu(&Vec::new(), None);
    assert_eq!(cpu.brand_name, "Unknown");
    assert_eq!(cpu.frequency_mhz, 0);
    assert_eq!(cpu.physical_core_count, 0);
}

#[test]
fn available_above_total_clamps_used_to_zero() {
    // 2 GiB total, 8 GiB available: mocked OS data where available > total.
    let v = normalize_volume(&volume("data", "/data", 2_147_483_648, 8_589_934_592, "ext4"));
    assert_eq!(v.total, 2);
    assert_eq!(v.available, 8);
    assert_eq!(v.used, 0);
}

#[test]
fn empty_volume_name_becomes_system_drive() {
    let v = normalize_volume(&volume("", "/", 500_000_000_000, 250_000_000_000, "ext4"));
    assert_eq!(v.label, "System Drive");
}

#[test]
fn reported_volume_name_is_kept() {
    let v = normalize_volume(&volume("data", "/data", 500_000_000_000, 250_000_000_000, "ext4"));
    assert_eq!(v.label, "data");
}

#[test]
fn bytes_convert_to_whole_gibibytes() {
    let v = normalize_volume(&volume("d", "/d", 500_000_000_000, 250_000_000_000, "ext4"));
    assert_eq!(v.total, 465);
    assert_eq!(v.available, 232);
    assert_eq!(v.used, 233);
}

#[test]
fn small_total_on_system_mount_gets_placeholder_capacity() {
    let v = normalize_volume(&volume("", "C:\\", 0, 0, "NTFS"));
    assert_eq!(v.total, 512);
    assert_eq!(v.available, 0);
    assert_eq!(v.used, 512);
}

#[test]
fn small_total_elsewhere_is_reported_as_measured() {
    let v = normalize_volume(&volume("tiny", "/mnt/tiny", 1_000_000, 0, "vfat"));
    assert_eq!(v.total, 0);
    assert_eq!(v.available, 0);
    assert_eq!(v.used, 0);
}

#[test]
fn exactly_one_gibibyte_is_not_above_threshold() {
    // the threshold is strict: exactly one gibibyte still counts as an
    // implausibly small total, so a system-looking mount gets the placeholder
    let v = normalize_volume(&volume("edge", "C:\\", 1_073_741_824, 0, "NTFS"));
    assert_eq!(v.total, 512);
    // elsewhere the measured value is converted as usual
    let v = normalize_volume(&volume("edge", "/edge", 1_073_741_824, 0, "ext4"));
    assert_eq!(v.total, 1);
}

#[test]
fn drive_type_is_constant_placeholder() {
    let v = normalize_volume(&volume("d", "/d", 500_000_000_000, 0, "ext4"));
    assert_eq!(v.drive_type, "SSD");
}

#[test]
fn storage_keeps_enumeration_order() {
    let volumes = vec![
        volume("b", "/b", 500_000_000_000, 0, "ext4"),
        volume("a", "/a", 250_000_000_000, 0, "xfs"),
    ];
    let storage = normalize_storage(&volumes);
    assert_eq!(storage.len(), 2);
    assert_eq!(storage[0].label, "b");
    assert_eq!(storage[0].file_system, "ext4");
    assert_eq!(storage[1].label, "a");
    assert_eq!(storage[1].file_system, "xfs");
}

#[test]
fn gpu_probe_is_the_documented_stub() {
    let gpu = detect_gpu();
    assert_eq!(gpu.len(), 1);
    assert_eq!(gpu[0].name, "Unknown GPU");
    assert_eq!(gpu[0].vendor, "Unknown");
    assert_eq!(gpu[0].memory, None);
}

fn scenario_snapshot() -> RawSnapshot {
    RawSnapshot {
        os_name: Some("TestOS".to_string()),
        os_version: Some("1.0".to_string()),
        architecture: "x86_64".to_string(),
        processors: vec![RawProcessor { brand: "TestCPU".to_string(), frequency_mhz: 3000 }],
        physical_core_count: Some(4),
        memory_total_bytes: 16_000_000_000,
        memory_available_bytes: 8_000_000_000,
        memory_used_bytes: 8_000_000_000,
        volumes: vec![volume("", "/", 500_000_000_000, 250_000_000_000, "ext4")],
    }
}

#[test]
fn end_to_end_scenario() {
    let facts = assemble_facts(&scenario_snapshot());
    assert_eq!(facts.os.name, "TestOS");
    assert_eq!(facts.os.version, "1.0");
    assert_eq!(facts.os.architecture, "x86_64");
    assert_eq!(facts.cpu.brand_name, "TestCPU");
    assert_eq!(facts.cpu.physical_core_count, 4);
    assert_eq!(facts.cpu.frequency_mhz, 3000);
    assert_eq!(facts.memory.total_bytes, 16_000_000_000);
    assert_eq!(facts.memory.available_bytes, 8_000_000_000);
    assert_eq!(facts.memory.used_bytes, 8_000_000_000);
    assert_eq!(facts.storage.len(), 1);
    assert_eq!(facts.storage[0].label, "System Drive");
    assert_eq!(facts.storage[0].mount_point, "/");
    assert_eq!(facts.storage[0].total, 465);
    assert_eq!(facts.storage[0].available, 232);
    // whole-gibibyte figures: used is the clamped difference of the
    // converted total and available, 465 - 232
    assert_eq!(facts.storage[0].used, 233);
    assert_eq!(facts.storage[0].file_system, "ext4");
    assert_eq!(facts.gpu.len(), 1);
    assert_eq!(facts.gpu[0].name, "Unknown GPU");
}

#[test]
fn assembling_the_same_snapshot_twice_is_identical() {
    let first = assemble_facts(&scenario_snapshot());
    let second = assemble_facts(&scenario_snapshot());
    assert_eq!(first.os.name, second.os.name);
    assert_eq!(first.os.version, second.os.version);
    assert_eq!(first.os.architecture, second.os.architecture);
    assert_eq!(first.cpu.brand_name, second.cpu.brand_name);
    assert_eq!(first.cpu.physical_core_count, second.cpu.physical_core_count);
    assert_eq!(first.cpu.frequency_mhz, second.cpu.frequency_mhz);
}

#[test]
fn all_facts_missing_yields_all_defaults() {
    let raw = RawSnapshot {
        os_name: None,
        os_version: None,
        architecture: "x86_64".to_string(),
        processors: Vec::new(),
        physical_core_count: None,
        memory_total_bytes: 0,
        memory_available_bytes: 0,
        memory_used_bytes: 0,
        volumes: Vec::new(),
    };
    let facts = assemble_facts(&raw);
    assert_eq!(facts.os.name, "Unknown");
    assert_eq!(facts.os.version, "Unknown");
    assert_eq!(facts.os.architecture, "x86_64");
    assert_eq!(facts.cpu.brand_name, "Unknown");
    assert_eq!(facts.cpu.physical_core_count, 0);
    assert_eq!(facts.cpu.frequency_mhz, 0);
    assert_eq!(facts.storage.len(), 0);
    assert_eq!(facts.gpu.len(), 1);
}
