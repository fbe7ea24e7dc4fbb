//! Rendering a device record's fields as text: hexadecimal ids, the decoded
//! path, and the optional descriptor strings with their fixed fallbacks. A
//! missing optional string is a deliberate "never fail" policy: the product
//! string falls back to the empty string, the serial number and manufacturer
//! strings to `"default"`.

use vstd::prelude::*;

use crate::catalog::DeviceRecord;
use crate::error::{HidDeviceError, HidDeviceResult};
use crate::hex::{format_hex_u16, hex_seq, hex_val, is_lower_hex_digit, lemma_hex_seq_canonical};
use crate::types::HidStringType;

verus! {

/// What rendering a record's field as text yields: the text for each string
/// kind, or the error for a path that is not valid text.
pub open spec fn spec_hid_string(r: DeviceRecord, kind: HidStringType) -> Result<
    Seq<char>,
    HidDeviceError,
> {
    match kind {
        HidStringType::Vid => Ok(hex_seq(r.vendor_id as nat)),
        HidStringType::Pid => Ok(hex_seq(r.product_id as nat)),
        HidStringType::Path => match r.path {
            Some(p) => Ok(p@),
            None => Err(HidDeviceError::CannotGetHidInfo),
        },
        HidStringType::Product => Ok(
            match r.product_string {
                Some(p) => p@,
                None => Seq::empty(),
            },
        ),
        HidStringType::Serial => Ok(
            match r.serial_number {
                Some(p) => p@,
                None => "default"@,
            },
        ),
        HidStringType::Manufacturer => Ok(
            match r.manufacturer_string {
                Some(p) => p@,
                None => "default"@,
            },
        ),
    }
}

/// Rendering the vendor or product id of any record always succeeds and
/// always yields lowercase hexadecimal with no leading zero beyond the
/// natural representation: the digits read back as the id itself, and the
/// first digit is `'0'` only when the id is zero.
pub proof fn lemma_id_strings_canonical(r: DeviceRecord)
    ensures
        spec_hid_string(r, HidStringType::Vid) is Ok,
        hex_val(spec_hid_string(r, HidStringType::Vid)->Ok_0) == r.vendor_id,
        forall|i: int|
            0 <= i < spec_hid_string(r, HidStringType::Vid)->Ok_0.len()
                ==> is_lower_hex_digit(#[trigger] spec_hid_string(r, HidStringType::Vid)->Ok_0[i]),
        r.vendor_id > 0 ==> spec_hid_string(r, HidStringType::Vid)->Ok_0[0] != '0',
        spec_hid_string(r, HidStringType::Pid) is Ok,
        hex_val(spec_hid_string(r, HidStringType::Pid)->Ok_0) == r.product_id,
        r.product_id > 0 ==> spec_hid_string(r, HidStringType::Pid)->Ok_0[0] != '0',
{
    lemma_hex_seq_canonical(r.vendor_id as nat);
    lemma_hex_seq_canonical(r.product_id as nat);
}

/// Renders one field of a record as text, exactly as `spec_hid_string`
/// describes: ids as lowercase hexadecimal, absent optional strings as their
/// fixed fallback, and an undecodable path as an error.
pub fn hid_string_of_record(record: &DeviceRecord, kind: HidStringType) -> (r: HidDeviceResult<
    String,
>)
    ensures
        r is Ok <==> spec_hid_string(*record, kind) is Ok,
        r is Ok ==> r->Ok_0@ == spec_hid_string(*record, kind)->Ok_0,
        r is Err ==> r->Err_0 == spec_hid_string(*record, kind)->Err_0,
{
    match kind {
        HidStringType::Vid => Ok(format_hex_u16(record.vendor_id)),
        HidStringType::Pid => Ok(format_hex_u16(record.product_id)),
        HidStringType::Path => match &record.path {
            Some(p) => Ok(p.clone()),
            None => Err(HidDeviceError::CannotGetHidInfo),
        },
        HidStringType::Product => match &record.product_string {
            Some(p) => Ok(p.clone()),
            None => Ok(String::new()),
        },
        HidStringType::Serial => match &record.serial_number {
            Some(p) => Ok(p.clone()),
            None => Ok("default".to_owned()),
        },
        HidStringType::Manufacturer => match &record.manufacturer_string {
            Some(p) => Ok(p.clone()),
            None => Ok("default".to_owned()),
        },
    }
}

/// The text an indexed-string lookup resolves to: the string when the device
/// supplied one, the empty string when it supplied none. An absent string is
/// not an error.
pub fn string_or_empty(s: Option<String>) -> (r: String)
    ensures
        s is Some ==> r@ == s->0@,
        s is None ==> r@ == Seq::<char>::empty(),
{
    match s {
        Some(v) => v,
        None => String::new(),
    }
}

} // verus!
