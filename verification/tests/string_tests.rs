//! Hexadecimal rendering and the fixed-fallback policy for absent optional
//! strings.

use slabhiddevice::catalog::DeviceRecord;
use slabhiddevice::error::HidDeviceError;
use slabhiddevice::hex::format_hex_u16;
use slabhiddevice::strings::{hid_string_of_record, string_or_empty};
use slabhiddevice::types::HidStringType;

fn bare_record(vid: u16, pid: u16) -> DeviceRecord {
    DeviceRecord {
        vendor_id: vid,
        product_id: pid,
        release_number: 0,
        path: None,
        product_string: None,
        serial_number: None,
        manufacturer_string: None,
    }
}

#[test]
fn hex_is_lowercase_with_no_padding() {
    assert_eq!(format_hex_u16(0x10c4), "10c4");
    assert_eq!(format_hex_u16(0xea90), "ea90");
    assert_eq!(format_hex_u16(0x00ff), "ff");
    assert_eq!(format_hex_u16(0x0010), "10");
    assert_eq!(format_hex_u16(0xffff), "ffff");
    assert_eq!(format_hex_u16(0xabcd), "abcd");
}

#[test]
fn hex_of_zero_is_a_single_zero_digit() {
    assert_eq!(format_hex_u16(0), "0");
    assert_eq!(format_hex_u16(1), "1");
    assert_eq!(format_hex_u16(0xf), "f");
}

#[test]
fn vid_and_pid_render_their_own_field() {
    let r = bare_record(0x10c4, 0xea90);
    assert_eq!(
        hid_string_of_record(&r, HidStringType::Vid).unwrap(),
        "10c4"
    );
    assert_eq!(
        hid_string_of_record(&r, HidStringType::Pid).unwrap(),
        "ea90"
    );
}

#[test]
fn absent_product_string_falls_back_to_empty() {
    let r = bare_record(0x10c4, 0xea90);
    assert_eq!(hid_string_of_record(&r, HidStringType::Product).unwrap(), "");
}

#[test]
fn absent_serial_and_manufacturer_fall_back_to_default() {
    let r = bare_record(0x10c4, 0xea90);
    assert_eq!(
        hid_string_of_record(&r, HidStringType::Serial).unwrap(),
        "default"
    );
    assert_eq!(
        hid_string_of_record(&r, HidStringType::Manufacturer).unwrap(),
        "default"
    );
}

#[test]
fn present_strings_render_unchanged() {
    let mut r = bare_record(0x10c4, 0xea90);
    r.product_string = Some(String::from("CP2112 HID USB-to-SMBus Bridge"));
    r.serial_number = Some(String::from("0001"));
    r.manufacturer_string = Some(String::from("Silicon Laboratories"));
    assert_eq!(
        hid_string_of_record(&r, HidStringType::Product).unwrap(),
        "CP2112 HID USB-to-SMBus Bridge"
    );
    assert_eq!(
        hid_string_of_record(&r, HidStringType::Serial).unwrap(),
        "0001"
    );
    assert_eq!(
        hid_string_of_record(&r, HidStringType::Manufacturer).unwrap(),
        "Silicon Laboratories"
    );
}

#[test]
fn path_renders_when_it_decoded() {
    let mut r = bare_record(0x10c4, 0xea90);
    r.path = Some(String::from("/dev/hidraw3"));
    assert_eq!(
        hid_string_of_record(&r, HidStringType::Path).unwrap(),
        "/dev/hidraw3"
    );
}

#[test]
fn undecodable_path_cannot_get_hid_info() {
    let r = bare_record(0x10c4, 0xea90);
    assert!(matches!(
        hid_string_of_record(&r, HidStringType::Path),
        Err(HidDeviceError::CannotGetHidInfo)
    ));
}

#[test]
fn absent_indexed_string_resolves_to_empty() {
    assert_eq!(string_or_empty(None), "");
    assert_eq!(string_or_empty(Some(String::from("serial"))), "serial");
}

#[test]
fn error_kinds_carry_their_description() {
    assert_eq!(
        HidDeviceError::DeviceNotFound.message(),
        "The specified device index was invalid or the device does not exist or is inaccessible"
    );
    assert_eq!(HidDeviceError::TransferFailed.message(), "The host failed to communicate with the device or function parameters are incorrect");
    assert_eq!(HidDeviceError::CannotGetHidInfo.message(), "Cannot retrieve device path");
}
