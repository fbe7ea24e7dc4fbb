//! The CP2112 scenario: a snapshot holding one CP2112 bridge (vendor id
//! 0x10c4, product id 0xea90) and no other matching device, driven through
//! the catalog resolver and the string rendering.

use slabhiddevice::catalog::{attributes_of, count_matching, resolve, DeviceRecord};
use slabhiddevice::strings::hid_string_of_record;
use slabhiddevice::types::HidStringType;

fn cp2112_snapshot() -> Vec<DeviceRecord> {
    vec![DeviceRecord {
        vendor_id: 0x10c4,
        product_id: 0xea90,
        release_number: 0,
        path: Some(String::from("/dev/hidraw0")),
        product_string: Some(String::from("CP2112 HID USB-to-SMBus Bridge")),
        serial_number: Some(String::from("0001")),
        manufacturer_string: Some(String::from("Silicon Laboratories")),
    }]
}

#[test]
fn test_cp2112_get_num_device() {
    let snapshot = cp2112_snapshot();
    let vid = 0x10c4;
    let pid = 0xea90;
    assert_eq!(count_matching(&snapshot, vid, pid), 1);
}

#[test]
fn test_cp2112_get_manufacturer_string() {
    let snapshot = cp2112_snapshot();
    let vid = 0x10c4;
    let pid = 0xea90;
    let record = resolve(&snapshot, 0, vid, pid).unwrap();
    assert_eq!(
        hid_string_of_record(record, HidStringType::Manufacturer).unwrap(),
        "Silicon Laboratories"
    );
}

#[test]
fn test_cp2112_get_product_string() {
    let snapshot = cp2112_snapshot();
    let vid = 0x10c4;
    let pid = 0xea90;
    let record = resolve(&snapshot, 0, vid, pid).unwrap();
    assert_eq!(
        hid_string_of_record(record, HidStringType::Product).unwrap(),
        "CP2112 HID USB-to-SMBus Bridge"
    );
}

#[test]
fn test_cp2112_get_vid_string() {
    let snapshot = cp2112_snapshot();
    let vid = 0x10c4;
    let pid = 0xea90;
    let record = resolve(&snapshot, 0, vid, pid).unwrap();
    assert_eq!(
        hid_string_of_record(record, HidStringType::Vid).unwrap(),
        "10c4"
    );
}

#[test]
fn test_cp2112_get_pid_string() {
    let snapshot = cp2112_snapshot();
    let vid = 0x10c4;
    let pid = 0xea90;
    let record = resolve(&snapshot, 0, vid, pid).unwrap();
    assert_eq!(
        hid_string_of_record(record, HidStringType::Pid).unwrap(),
        "ea90"
    );
}

#[test]
fn test_cp2112_get_attributes() {
    let snapshot = cp2112_snapshot();
    let vid = 0x10c4;
    let pid = 0xea90;
    let record = resolve(&snapshot, 0, vid, pid).unwrap();
    assert_eq!(attributes_of(record), (0x10c4, 0xea90, 0));
}

#[test]
fn cp2112_resolve_one_past_the_count_is_not_found() {
    let snapshot = cp2112_snapshot();
    let vid = 0x10c4;
    let pid = 0xea90;
    assert!(matches!(
        resolve(&snapshot, 1, vid, pid),
        Err(slabhiddevice::error::HidDeviceError::DeviceNotFound)
    ));
}
