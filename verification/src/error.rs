//! The library's error taxonomy: every operation either returns its result or
//! one flat error kind, with no nested causes.

use vstd::prelude::*;

verus! {

/// A result of a function that may return a `HidDeviceError`.
pub type HidDeviceResult<T> = Result<T, HidDeviceError>;

/// Error returned by the library.
#[derive(Debug, Copy, Clone, PartialEq, Eq, Structural)]
pub enum HidDeviceError {
    /// Invalid handle.
    InvalidHandle,
    /// Specified (typically non-buffer related) parameter is wrong or unexpected.
    InvalidParameter,
    /// Specified buffer is not large enough to return requested data.
    InvalidBufferSize,
    /// Function not supported or unimplemented on this platform.
    FunctionNotSupported,
    /// A system error occurred.
    SystemError,
    /// The specified device index was invalid or the device does not exist or
    /// is inaccessible.
    DeviceNotFound,
    /// The device must be opened prior to calling the function.
    DeviceNotOpened,
    /// The device is already opened and cannot be re-opened.
    DeviceAlreadyOpened,
    /// The get or set report function returned due to a timeout.
    TransferTimeout,
    /// The host failed to communicate with the device or function parameters
    /// are incorrect.
    TransferFailed,
    /// Cannot retrieve device path or another descriptor string.
    CannotGetHidInfo,
    /// Other error.
    Other,
}

/// The descriptive text for each error kind.
pub open spec fn spec_message(e: HidDeviceError) -> Seq<char> {
    match e {
        HidDeviceError::InvalidHandle => "Invalid Handle"@,
        HidDeviceError::InvalidParameter => "Specified (typically non-buffer related) parameter is wrong or unexpected"@,
        HidDeviceError::InvalidBufferSize => "Specified buffer is not large enough to return requested data"@,
        HidDeviceError::FunctionNotSupported => "Function not supported or unimplemented on this platform"@,
        HidDeviceError::SystemError => "System error "@,
        HidDeviceError::DeviceNotFound => "The specified device index was invalid or the device does not exist or is inaccessible"@,
        HidDeviceError::DeviceNotOpened => "The device must be opened prior to calling the function"@,
        HidDeviceError::DeviceAlreadyOpened => "The device is already opened and cannot be re-opened."@,
        HidDeviceError::TransferTimeout => "The get or set report function returned due to a timeout"@,
        HidDeviceError::TransferFailed => "The host failed to communicate with the device or function parameters are incorrect"@,
        HidDeviceError::CannotGetHidInfo => "Cannot retrieve device path"@,
        HidDeviceError::Other => "Other error"@,
    }
}

impl HidDeviceError {
    /// A human-readable description of the error kind.
    pub fn message(&self) -> (r: &'static str)
        ensures
            r@ == spec_message(*self),
    {
        match self {
            HidDeviceError::InvalidHandle => "Invalid Handle",
            HidDeviceError::InvalidParameter => "Specified (typically non-buffer related) parameter is wrong or unexpected",
            HidDeviceError::InvalidBufferSize => "Specified buffer is not large enough to return requested data",
            HidDeviceError::FunctionNotSupported => "Function not supported or unimplemented on this platform",
            HidDeviceError::SystemError => "System error ",
            HidDeviceError::DeviceNotFound => "The specified device index was invalid or the device does not exist or is inaccessible",
            HidDeviceError::DeviceNotOpened => "The device must be opened prior to calling the function",
            HidDeviceError::DeviceAlreadyOpened => "The device is already opened and cannot be re-opened.",
            HidDeviceError::TransferTimeout => "The get or set report function returned due to a timeout",
            HidDeviceError::TransferFailed => "The host failed to communicate with the device or function parameters are incorrect",
            HidDeviceError::CannotGetHidInfo => "Cannot retrieve device path",
            HidDeviceError::Other => "Other error",
        }
    }
}

} // verus!
