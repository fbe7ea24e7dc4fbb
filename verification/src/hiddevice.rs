//! The device catalog resolver and transfer gateway. A `HidDevice` owns the
//! transport context together with the enumeration snapshot taken when the
//! context was created; every count, lookup and index resolution reads that
//! one snapshot, so validation and resolution can never disagree. A
//! `HidDeviceHandle` is an exclusively owned open channel to one physical
//! device, handed to the gateway operations.

use vstd::prelude::*;

use crate::catalog::{
    count_matching, match_count, resolve_position, resolved_record, DeviceRecord,
};
use crate::error::{HidDeviceError, HidDeviceResult};
use crate::strings::{hid_string_of_record, spec_hid_string, string_or_empty};
use crate::transport::{
    hidapi_device_info, hidapi_get_feature_report, hidapi_indexed_string, hidapi_new,
    hidapi_open_by_ids, hidapi_open_nth, hidapi_read, hidapi_send_feature_report,
    hidapi_snapshot, hidapi_write,
};
use crate::types::HidStringType;

verus! {

/// An opaque, exclusively owned capability: an open communication channel to
/// one physical device. The wrapped transport handle is hidden from
/// verification; the transport wrappers alone look inside.
#[verifier::external_body]
pub struct HidDeviceHandle(pub hidapi::HidDevice);

/// The device catalog resolver and transfer gateway. Holds the transport
/// context and the enumeration snapshot taken when the context was created.
pub struct HidDevice {
    hidapi: hidapi::HidApi,
    records: Vec<DeviceRecord>,
}

impl HidDevice {
    /// The enumeration snapshot this context counts and resolves against.
    pub closed spec fn snapshot(&self) -> Seq<DeviceRecord> {
        self.records@
    }

    #[verifier::type_invariant]
    spec fn wf(&self) -> bool {
        self.records@.len() <= u32::MAX
    }

    /// Creates a context: initializes the transport and takes the enumeration
    /// snapshot. Fails with `SystemError` when the transport cannot be
    /// initialized.
    pub fn new() -> (r: HidDeviceResult<Self>)
        ensures
            r is Err ==> r->Err_0 == HidDeviceError::SystemError,
    {
        match hidapi_new() {
            Ok(api) => {
                let mut records = hidapi_snapshot(&api);
                if records.len() > u32::MAX as usize {
                    records.truncate(u32::MAX as usize);
                }
                Ok(HidDevice { hidapi: api, records })
            },
            Err(_) => Err(HidDeviceError::SystemError),
        }
    }

    /// Counts the snapshot records matching the filter; a zero vendor or
    /// product id is a wildcard. Zero is a valid, non-error result.
    pub fn hid_device_get_num_hid_devices(&self, vid: u16, pid: u16) -> (n: u32)
        ensures
            n as nat == match_count(self.snapshot(), vid, pid),
    {
        proof {
            use_type_invariant(self);
        }
        count_matching(&self.records, vid, pid)
    }

    /// Renders one descriptive string of the device the ordinal index
    /// resolves to under the filter. An index at or beyond the matching count
    /// means the device is not found; otherwise the resolved record renders
    /// exactly as `spec_hid_string` describes.
    pub fn hid_device_get_hid_string(
        &self,
        index: u32,
        vid: u16,
        pid: u16,
        hid_string_type: HidStringType,
    ) -> (r: HidDeviceResult<String>)
        ensures
            (index as nat) >= match_count(self.snapshot(), vid, pid) ==> r is Err && r->Err_0
                == HidDeviceError::DeviceNotFound,
            (index as nat) < match_count(self.snapshot(), vid, pid) ==> (r is Ok
                <==> spec_hid_string(
                resolved_record(self.snapshot(), index, vid, pid),
                hid_string_type,
            ) is Ok),
            (index as nat) < match_count(self.snapshot(), vid, pid) && r is Ok ==> r->Ok_0@
                == spec_hid_string(
                resolved_record(self.snapshot(), index, vid, pid),
                hid_string_type,
            )->Ok_0,
            (index as nat) < match_count(self.snapshot(), vid, pid) && r is Err ==> r->Err_0
                == spec_hid_string(
                resolved_record(self.snapshot(), index, vid, pid),
                hid_string_type,
            )->Err_0,
    {
        proof {
            use_type_invariant(self);
        }
        match resolve_position(&self.records, index, vid, pid) {
            Ok(pos) => hid_string_of_record(&self.records[pos], hid_string_type),
            Err(e) => Err(e),
        }
    }

    /// Fetches an entry of the string table of the device the ordinal index
    /// resolves to under the filter. An index at or beyond the matching count
    /// means the device is not found; a device that cannot be opened, or a
    /// table entry that cannot be fetched, is reported as such. An absent
    /// entry resolves to the empty string, not an error.
    pub fn hid_device_get_hid_indexed_string(
        &self,
        index: u32,
        vid: u16,
        pid: u16,
        string_index: i32,
    ) -> (r: HidDeviceResult<String>)
        ensures
            (index as nat) >= match_count(self.snapshot(), vid, pid) ==> r is Err && r->Err_0
                == HidDeviceError::DeviceNotFound,
            (index as nat) < match_count(self.snapshot(), vid, pid) ==> (r is Ok || r->Err_0
                == HidDeviceError::DeviceNotOpened || r->Err_0 == HidDeviceError::CannotGetHidInfo),
            r is Err ==> (r->Err_0 == HidDeviceError::DeviceNotFound || r->Err_0
                == HidDeviceError::DeviceNotOpened || r->Err_0 == HidDeviceError::CannotGetHidInfo),
    {
        proof {
            use_type_invariant(self);
        }
        match resolve_position(&self.records, index, vid, pid) {
            Ok(pos) => match hidapi_open_nth(&self.hidapi, pos) {
                Some(Ok(handle)) => self.hid_device_get_indexed_string(&handle, string_index),
                Some(Err(_)) => Err(HidDeviceError::DeviceNotOpened),
                None => Err(HidDeviceError::CannotGetHidInfo),
            },
            Err(e) => Err(e),
        }
    }

    /// Reads the attribute triple (vendor id, product id, release number) of
    /// the device the ordinal index resolves to under the filter. An index at
    /// or beyond the matching count means the device is not found; otherwise
    /// the triple is exactly the resolved record's fields.
    pub fn hid_device_get_hid_attributes(&self, index: u32, vid: u16, pid: u16) -> (r:
        HidDeviceResult<(u16, u16, u16)>)
        ensures
            (index as nat) >= match_count(self.snapshot(), vid, pid) ==> r is Err && r->Err_0
                == HidDeviceError::DeviceNotFound,
            (index as nat) < match_count(self.snapshot(), vid, pid) ==> r is Ok && r->Ok_0 == (
            resolved_record(self.snapshot(), index, vid, pid).vendor_id,
            resolved_record(self.snapshot(), index, vid, pid).product_id,
            resolved_record(self.snapshot(), index, vid, pid).release_number,
            ),
    {
        proof {
            use_type_invariant(self);
        }
        match resolve_position(&self.records, index, vid, pid) {
            Ok(pos) => Ok(crate::catalog::attributes_of(&self.records[pos])),
            Err(e) => Err(e),
        }
    }

    /// Opens the device the ordinal index resolves to under the filter. The
    /// open call is driven by the filter's vendor/product pair: when several
    /// records share the pair, which physical unit opens is the transport's
    /// choice. An index at or beyond the matching count means the device is
    /// not found; a failing open is a system error.
    pub fn hid_device_open(&self, index: u32, vid: u16, pid: u16) -> (r: HidDeviceResult<
        HidDeviceHandle,
    >)
        ensures
            (index as nat) >= match_count(self.snapshot(), vid, pid) ==> r is Err && r->Err_0
                == HidDeviceError::DeviceNotFound,
            (index as nat) < match_count(self.snapshot(), vid, pid) ==> (r is Ok || r->Err_0
                == HidDeviceError::SystemError),
            r is Err ==> (r->Err_0 == HidDeviceError::DeviceNotFound || r->Err_0
                == HidDeviceError::SystemError),
    {
        proof {
            use_type_invariant(self);
        }
        match resolve_position(&self.records, index, vid, pid) {
            Ok(_pos) => match hidapi_open_by_ids(&self.hidapi, vid, pid) {
                Ok(handle) => Ok(handle),
                Err(_) => Err(HidDeviceError::SystemError),
            },
            Err(e) => Err(e),
        }
    }

    /// Renders one descriptive string of an opened device, from its own live
    /// enumeration entry. A device that cannot report its entry is a system
    /// error; only the path kind can fail beyond that, when the raw path is
    /// not valid text.
    pub fn hid_device_get_string(
        &self,
        device_handle: &HidDeviceHandle,
        hid_string_type: HidStringType,
    ) -> (r: HidDeviceResult<String>)
        ensures
            r is Err ==> (r->Err_0 == HidDeviceError::SystemError || r->Err_0
                == HidDeviceError::CannotGetHidInfo),
            hid_string_type != HidStringType::Path && r is Err ==> r->Err_0
                == HidDeviceError::SystemError,
    {
        match hidapi_device_info(device_handle) {
            Ok(info) => hid_string_of_record(&info, hid_string_type),
            Err(_) => Err(HidDeviceError::SystemError),
        }
    }

    /// Fetches an entry of an opened device's string table. A transport
    /// failure is reported; an absent entry resolves to the empty string, not
    /// an error.
    pub fn hid_device_get_indexed_string(
        &self,
        device_handle: &HidDeviceHandle,
        string_index: i32,
    ) -> (r: HidDeviceResult<String>)
        ensures
            r is Err ==> r->Err_0 == HidDeviceError::CannotGetHidInfo,
    {
        match hidapi_indexed_string(device_handle, string_index) {
            Ok(s) => Ok(string_or_empty(s)),
            Err(_) => Err(HidDeviceError::CannotGetHidInfo),
        }
    }

    /// Sends a feature report to an opened device; the first byte of the data
    /// carries the report id. Every transport failure collapses to
    /// `TransferFailed`.
    pub fn hid_device_set_feature_report_control(
        &self,
        device_handle: &HidDeviceHandle,
        data: &[u8],
    ) -> (r: HidDeviceResult<()>)
        ensures
            r is Err ==> r->Err_0 == HidDeviceError::TransferFailed,
    {
        match hidapi_send_feature_report(device_handle, data) {
            Ok(_) => Ok(()),
            Err(_) => Err(HidDeviceError::TransferFailed),
        }
    }

    /// Receives a feature report from an opened device into the caller's
    /// buffer and returns how many bytes came, never more than the buffer
    /// holds; the buffer keeps its length. Every transport failure collapses
    /// to `TransferFailed`.
    pub fn hid_device_get_feature_report_control(
        &self,
        device_handle: &HidDeviceHandle,
        data: &mut Vec<u8>,
    ) -> (r: HidDeviceResult<usize>)
        ensures
            final(data)@.len() == old(data)@.len(),
            r is Ok ==> r->Ok_0 <= old(data)@.len(),
            r is Err ==> r->Err_0 == HidDeviceError::TransferFailed,
    {
        match hidapi_get_feature_report(device_handle, data) {
            Ok(report_size) => Ok(report_size),
            Err(_) => Err(HidDeviceError::TransferFailed),
        }
    }

    /// Writes an output report to an opened device; the first byte of the
    /// data carries the report id. Every transport failure collapses to
    /// `TransferFailed`.
    pub fn hid_device_set_output_report(
        &self,
        device_handle: &HidDeviceHandle,
        data: &[u8],
    ) -> (r: HidDeviceResult<()>)
        ensures
            r is Err ==> r->Err_0 == HidDeviceError::TransferFailed,
    {
        match hidapi_write(device_handle, data) {
            Ok(_) => Ok(()),
            Err(_) => Err(HidDeviceError::TransferFailed),
        }
    }

    /// Reads an input report from an opened device into the caller's buffer
    /// and returns how many bytes came, never more than the buffer holds; the
    /// buffer keeps its length. Every transport failure collapses to
    /// `TransferFailed`.
    pub fn hid_device_get_input_report(
        &self,
        device_handle: &HidDeviceHandle,
        buf: &mut Vec<u8>,
    ) -> (r: HidDeviceResult<usize>)
        ensures
            final(buf)@.len() == old(buf)@.len(),
            r is Ok ==> r->Ok_0 <= old(buf)@.len(),
            r is Err ==> r->Err_0 == HidDeviceError::TransferFailed,
    {
        match hidapi_read(device_handle, buf) {
            Ok(report_size) => Ok(report_size),
            Err(_) => Err(HidDeviceError::TransferFailed),
        }
    }
}

} // verus!
