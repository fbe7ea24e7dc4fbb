//! The catalog resolver on constructed snapshots: wildcard counting, the
//! success/failure boundary of index resolution, resolution order, and
//! idempotence of counting over an unchanged snapshot.

use slabhiddevice::catalog::{
    attributes_of, count_matching, record_matches, resolve, resolve_position, DeviceRecord,
};
use slabhiddevice::error::HidDeviceError;

fn record(vid: u16, pid: u16, rel: u16, serial: &str) -> DeviceRecord {
    DeviceRecord {
        vendor_id: vid,
        product_id: pid,
        release_number: rel,
        path: None,
        product_string: None,
        serial_number: Some(String::from(serial)),
        manufacturer_string: None,
    }
}

fn mixed_snapshot() -> Vec<DeviceRecord> {
    vec![
        record(0x046d, 0xc31c, 1, "kbd"),
        record(0x10c4, 0xea90, 2, "bridge-a"),
        record(0x046d, 0xea90, 3, "mouse"),
        record(0x10c4, 0xea90, 4, "bridge-b"),
    ]
}

#[test]
fn wildcard_filter_counts_every_record() {
    let snapshot = mixed_snapshot();
    assert_eq!(count_matching(&snapshot, 0, 0), 4);
}

#[test]
fn wildcard_on_empty_snapshot_counts_zero() {
    let snapshot: Vec<DeviceRecord> = Vec::new();
    assert_eq!(count_matching(&snapshot, 0, 0), 0);
    assert_eq!(count_matching(&snapshot, 0x10c4, 0xea90), 0);
}

#[test]
fn wildcard_on_one_field_matches_on_the_other() {
    let snapshot = mixed_snapshot();
    assert_eq!(count_matching(&snapshot, 0, 0xea90), 3);
    assert_eq!(count_matching(&snapshot, 0x046d, 0), 2);
}

#[test]
fn resolve_succeeds_exactly_below_the_count() {
    let snapshot = mixed_snapshot();
    let count = count_matching(&snapshot, 0x10c4, 0xea90);
    assert_eq!(count, 2);
    for i in 0..count {
        assert!(resolve(&snapshot, i, 0x10c4, 0xea90).is_ok());
    }
    assert!(matches!(
        resolve(&snapshot, count, 0x10c4, 0xea90),
        Err(HidDeviceError::DeviceNotFound)
    ));
    assert!(matches!(
        resolve(&snapshot, count + 1, 0x10c4, 0xea90),
        Err(HidDeviceError::DeviceNotFound)
    ));
}

#[test]
fn resolve_walks_matching_records_in_snapshot_order() {
    let snapshot = mixed_snapshot();
    let first = resolve(&snapshot, 0, 0x10c4, 0xea90).unwrap();
    let second = resolve(&snapshot, 1, 0x10c4, 0xea90).unwrap();
    assert_eq!(first.serial_number.as_deref(), Some("bridge-a"));
    assert_eq!(second.serial_number.as_deref(), Some("bridge-b"));
}

#[test]
fn resolve_position_counts_only_matching_entries() {
    let snapshot = mixed_snapshot();
    assert_eq!(resolve_position(&snapshot, 0, 0x10c4, 0xea90), Ok(1));
    assert_eq!(resolve_position(&snapshot, 1, 0x10c4, 0xea90), Ok(3));
    assert_eq!(
        resolve_position(&snapshot, 2, 0x10c4, 0xea90),
        Err(HidDeviceError::DeviceNotFound)
    );
}

#[test]
fn counting_twice_over_an_unchanged_snapshot_agrees() {
    let snapshot = mixed_snapshot();
    let first = count_matching(&snapshot, 0x10c4, 0xea90);
    let second = count_matching(&snapshot, 0x10c4, 0xea90);
    assert_eq!(first, second);
}

#[test]
fn matching_is_a_pure_pairwise_test() {
    let r = record(0x10c4, 0xea90, 0, "x");
    assert!(record_matches(&r, 0x10c4, 0xea90));
    assert!(record_matches(&r, 0, 0xea90));
    assert!(record_matches(&r, 0x10c4, 0));
    assert!(record_matches(&r, 0, 0));
    assert!(!record_matches(&r, 0x10c5, 0xea90));
    assert!(!record_matches(&r, 0x10c4, 0xea91));
}

#[test]
fn attributes_are_the_record_fields_exactly() {
    let r = record(0x10c4, 0xea90, 0x0102, "x");
    assert_eq!(attributes_of(&r), (0x10c4, 0xea90, 0x0102));
}
