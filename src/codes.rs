//! The status codes given distinguished treatment, and the coarse error kinds
//! that the rest of a graphics layer recovers on.

use vstd::prelude::*;

verus! {

/// `E_UNEXPECTED` (`0x8000FFFF`).
pub const E_UNEXPECTED: i32 = -2147418113;

/// `E_NOTIMPL` (`0x80004001`).
pub const E_NOTIMPL: i32 = -2147467263;

/// `E_OUTOFMEMORY` (`0x8007000E`).
pub const E_OUTOFMEMORY: i32 = -2147024882;

/// `E_INVALIDARG` (`0x80070057`).
pub const E_INVALIDARG: i32 = -2147024809;

/// `DXGI_ERROR_DEVICE_REMOVED` (`0x887A0005`).
pub const DXGI_ERROR_DEVICE_REMOVED: i32 = -2005270523;

/// `DXGI_ERROR_DEVICE_RESET` (`0x887A0007`).
pub const DXGI_ERROR_DEVICE_RESET: i32 = -2005270521;

/// What a caller can do about a failed device operation.
#[derive(Debug, Clone, Copy, PartialEq, Eq, Structural)]
pub enum DeviceError {
    /// The device rejected an allocation.
    OutOfMemory,
    /// The device is no longer usable; every handle tied to it is invalid.
    Lost,
    /// Any other failure.
    Unknown,
}

/// A status code read as an unsigned 32-bit integer (two's complement).
pub open spec fn as_unsigned(status: i32) -> nat {
    if status >= 0 {
        status as nat
    } else {
        (status + 0x1_0000_0000) as nat
    }
}

/// Reads a status code as an unsigned 32-bit integer, so that `-1` is
/// `0xFFFFFFFF`.
pub fn to_unsigned(status: i32) -> (r: u32)
    ensures
        r as nat == as_unsigned(status),
{
    if status >= 0 {
        status as u32
    } else {
        (status as i64 + 0x1_0000_0000i64) as u32
    }
}

/// The fixed human-readable name of a well-known failure code, if it has one.
pub open spec fn known_description(status: i32) -> Option<Seq<char>> {
    if status == E_UNEXPECTED {
        Some("unexpected"@)
    } else if status == E_NOTIMPL {
        Some("not implemented"@)
    } else if status == E_OUTOFMEMORY {
        Some("out of memory"@)
    } else if status == E_INVALIDARG {
        Some("invalid argument"@)
    } else if status == DXGI_ERROR_DEVICE_RESET {
        Some("device reset"@)
    } else if status == DXGI_ERROR_DEVICE_REMOVED {
        Some("device removed"@)
    } else {
        None
    }
}

/// The error kind of a raw status code. Only allocation failure and the two
/// device-loss codes are told apart; every other code is `Unknown`.
pub open spec fn device_error_of(status: i32) -> DeviceError {
    if status == E_OUTOFMEMORY {
        DeviceError::OutOfMemory
    } else if status == DXGI_ERROR_DEVICE_REMOVED || status == DXGI_ERROR_DEVICE_RESET {
        DeviceError::Lost
    } else {
        DeviceError::Unknown
    }
}

/// Maps a raw status code to its error kind.
pub fn device_error(status: i32) -> (r: DeviceError)
    ensures
        r == device_error_of(status),
{
    if status == E_OUTOFMEMORY {
        DeviceError::OutOfMemory
    } else if status == DXGI_ERROR_DEVICE_REMOVED || status == DXGI_ERROR_DEVICE_RESET {
        DeviceError::Lost
    } else {
        DeviceError::Unknown
    }
}

} // verus!
