//! Collection against the real OS layer (the `sysinfo` crate): these
//! exercise the trusted wrappers end to end and check every promise the
//! collector makes of any outcome.

use host_facts::collector::collect;

#[test]
fn collect_succeeds_on_a_reachable_host() {
    let result = collect("x86_64".to_string());
    assert!(result.is_ok());
}

#[test]
fn collected_record_is_fully_normalized() {
    let facts = collect("x86_64".to_string()).unwrap();
    assert_eq!(facts.os.architecture, "x86_64");
    assert!(!facts.os.name.is_empty());
    assert!(!facts.os.version.is_empty());
    assert_eq!(facts.gpu.len(), 1);
    assert_eq!(facts.gpu[0].name, "Unknown GPU");
    assert_eq!(facts.gpu[0].vendor, "Unknown");
    assert_eq!(facts.gpu[0].memory, None);
    for v in &facts.storage {
        assert!(!v.label.is_empty());
        assert_eq!(v.drive_type, "SSD");
        if v.total > v.available {
            assert_eq!(v.used, v.total - v.available);
        } else {
            assert_eq!(v.used, 0);
        }
    }
}

#[test]
fn consecutive_collections_agree_on_identity_facts() {
    let first = collect("x86_64".to_string()).unwrap();
    let second = collect("x86_64".to_string()).unwrap();
    assert_eq!(first.os.name, second.os.name);
    assert_eq!(first.os.version, second.os.version);
    assert_eq!(first.os.architecture, second.os.architecture);
    assert_eq!(first.cpu.brand_name, second.cpu.brand_name);
    assert_eq!(first.cpu.physical_core_count, second.cpu.physical_core_count);
}
