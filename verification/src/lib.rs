//! A small library for talking to USB HID devices: enumerating the devices
//! that match a vendor/product filter, resolving an ordinal index within the
//! filtered list to one concrete device, and reading strings, attributes and
//! reports from an opened device handle.

pub mod catalog;
pub mod error;
pub mod hex;
pub mod hiddevice;
pub mod strings;
pub mod transport;
pub mod types;
