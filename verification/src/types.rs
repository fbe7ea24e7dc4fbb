//! Selector for the descriptive strings a device (or a device record) can
//! render.

use vstd::prelude::*;

verus! {

/// Which field of a device record to render as text.
#[derive(Debug, Copy, Clone, PartialEq, Eq, Structural)]
pub enum HidStringType {
    /// The vendor id, rendered as lowercase hexadecimal.
    Vid,
    /// The product id, rendered as lowercase hexadecimal.
    Pid,
    /// The raw device path, decoded as text.
    Path,
    /// The product string; an absent string renders as the empty string.
    Product,
    /// The serial number; an absent string renders as `"default"`.
    Serial,
    /// The manufacturer string; an absent string renders as `"default"`.
    Manufacturer,
}

} // verus!
