//! The boundary to the OS-level HID transport. Each function here wraps one
//! capability of the `hidapi` crate; everything above this module is verified
//! against the contracts stated here.

use vstd::prelude::*;

use crate::catalog::DeviceRecord;
use crate::hiddevice::HidDeviceHandle;

verus! {

#[verifier::external_type_specification]
#[verifier::external_body]
pub struct ExHidApi(hidapi::HidApi);

#[verifier::external_type_specification]
#[verifier::external_body]
pub struct ExHidError(hidapi::HidError);

/// Relies on hidapi::HidApi::new: initializes the transport and takes the
/// enumeration snapshot it will serve from its cache. Nothing is promised of
/// the outcome.
#[verifier::external_body]
pub(crate) fn hidapi_new() -> Result<hidapi::HidApi, hidapi::HidError> {
    hidapi::HidApi::new()
}

/// Relies on hidapi::HidApi::device_list and the hidapi::DeviceInfo
/// accessors: copies each entry of the cached enumeration into a plain
/// record, in enumeration order. A raw path that is not valid text becomes an
/// absent path.
#[verifier::external_body]
pub(crate) fn hidapi_snapshot(api: &hidapi::HidApi) -> Vec<DeviceRecord> {
    let mut v = Vec::new();
    for d in api.device_list() {
        v.push(DeviceRecord {
            vendor_id: d.vendor_id(),
            product_id: d.product_id(),
            release_number: d.release_number(),
            path: d.path().to_str().ok().map(|s| s.to_string()),
            product_string: d.product_string().map(|s| s.to_string()),
            serial_number: d.serial_number().map(|s| s.to_string()),
            manufacturer_string: d.manufacturer_string().map(|s| s.to_string()),
        });
    }
    v
}

/// Relies on hidapi::HidApi::open: opens a device with the given vendor and
/// product id; when several share the pair, which unit opens is not promised.
/// The backend panics should a device path on the machine not be valid UTF-8;
/// hidraw paths are fixed-form ASCII, and the backend itself treats the case
/// as impossible.
#[verifier::external_body]
pub(crate) fn hidapi_open_by_ids(api: &hidapi::HidApi, vid: u16, pid: u16) -> Result<
    HidDeviceHandle,
    hidapi::HidError,
> {
    api.open(vid, pid).map(HidDeviceHandle)
}

/// Relies on hidapi::HidApi::device_list and hidapi::DeviceInfo::open_device:
/// opens the device at a position of the cached enumeration; yields nothing
/// when the position is out of range. The backend panics should a device path
/// on the machine not be valid UTF-8; hidraw paths are fixed-form ASCII, and
/// the backend itself treats the case as impossible.
#[verifier::external_body]
pub(crate) fn hidapi_open_nth(api: &hidapi::HidApi, pos: usize) -> Option<
    Result<HidDeviceHandle, hidapi::HidError>,
> {
    match api.device_list().nth(pos) {
        None => None,
        Some(d) => Some(d.open_device(api).map(HidDeviceHandle)),
    }
}

/// Relies on hidapi::HidDevice::get_device_info: reads the open device's own
/// enumeration entry and copies it into a plain record.
#[verifier::external_body]
pub(crate) fn hidapi_device_info(dev: &HidDeviceHandle) -> Result<
    DeviceRecord,
    hidapi::HidError,
> {
    let d = dev.0.get_device_info()?;
    Ok(DeviceRecord {
        vendor_id: d.vendor_id(),
        product_id: d.product_id(),
        release_number: d.release_number(),
        path: d.path().to_str().ok().map(|s| s.to_string()),
        product_string: d.product_string().map(|s| s.to_string()),
        serial_number: d.serial_number().map(|s| s.to_string()),
        manufacturer_string: d.manufacturer_string().map(|s| s.to_string()),
    })
}

/// Relies on hidapi::HidDevice::get_indexed_string: fetches the entry at the
/// index of the device's string table; a device without one yields nothing.
#[verifier::external_body]
pub(crate) fn hidapi_indexed_string(dev: &HidDeviceHandle, string_index: i32) -> Result<
    Option<String>,
    hidapi::HidError,
> {
    dev.0.get_indexed_string(string_index)
}

/// Relies on hidapi::HidDevice::send_feature_report: sends the bytes as one
/// feature report, whose first byte carries the report id.
#[verifier::external_body]
pub(crate) fn hidapi_send_feature_report(dev: &HidDeviceHandle, data: &[u8]) -> Result<
    (),
    hidapi::HidError,
> {
    dev.0.send_feature_report(data)
}

/// Relies on hidapi::HidDevice::get_feature_report: fills a prefix of the
/// buffer with one feature report and returns how many bytes came, report id
/// included; the count never exceeds the buffer's length, which the call
/// leaves unchanged.
#[verifier::external_body]
pub(crate) fn hidapi_get_feature_report(dev: &HidDeviceHandle, buf: &mut Vec<u8>) -> (r: Result<
    usize,
    hidapi::HidError,
>)
    ensures
        final(buf)@.len() == old(buf)@.len(),
        r is Ok ==> r->Ok_0 <= old(buf)@.len(),
{
    dev.0.get_feature_report(buf.as_mut_slice())
}

/// Relies on hidapi::HidDevice::write: sends the bytes as one output report,
/// whose first byte carries the report id, and returns how many bytes the
/// device took.
#[verifier::external_body]
pub(crate) fn hidapi_write(dev: &HidDeviceHandle, data: &[u8]) -> Result<
    usize,
    hidapi::HidError,
> {
    dev.0.write(data)
}

/// Relies on hidapi::HidDevice::read: fills a prefix of the buffer with one
/// input report and returns how many bytes came; the count never exceeds the
/// buffer's length, which the call leaves unchanged.
#[verifier::external_body]
pub(crate) fn hidapi_read(dev: &HidDeviceHandle, buf: &mut Vec<u8>) -> (r: Result<
    usize,
    hidapi::HidError,
>)
    ensures
        final(buf)@.len() == old(buf)@.len(),
        r is Ok ==> r->Ok_0 <= old(buf)@.len(),
{
    dev.0.read(buf.as_mut_slice())
}

} // verus!
