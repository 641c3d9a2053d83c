//! Status codes returned by the firmware and their classification.

use vstd::prelude::*;

verus! {

#[verifier::external_type_specification]
pub struct ExStatus(uefi_raw::Status);

/// Relies on uefi_raw's `Status::is_success`: a status is success exactly
/// when its code is zero (it compares against `Status::SUCCESS`, which is `Status(0)`).
pub assume_specification[ uefi_raw::Status::is_success ](self_: uefi_raw::Status) -> (r: bool)
    ensures
        r == (self_.0 == 0),
;

/// Bit that marks a status code as an error: the highest bit of a `usize`.
pub const ERROR_BIT: usize = usize::MAX - usize::MAX / 2;

/// The command completed.
pub const SUCCESS: usize = 0;

/// Warning: the receive buffer was too small; it holds truncated data.
pub const WARN_BUFFER_TOO_SMALL: usize = 4;

/// The command buffer was invalid.
pub const INVALID_PARAMETER: usize = ERROR_BIT + 2;

/// The medium does not support security protocol commands.
pub const UNSUPPORTED: usize = ERROR_BIT + 3;

/// The receive buffer was too small; it holds truncated data.
pub const BUFFER_TOO_SMALL: usize = ERROR_BIT + 5;

/// The command completed with an error at the device.
pub const DEVICE_ERROR: usize = ERROR_BIT + 7;

/// There is no medium in the device.
pub const NO_MEDIA: usize = ERROR_BIT + 12;

/// The medium id does not name the current medium.
pub const MEDIA_CHANGED: usize = ERROR_BIT + 13;

/// The command did not complete within the timeout.
pub const TIMEOUT: usize = ERROR_BIT + 18;

/// Why a security protocol command failed.
#[derive(Clone, Copy, Debug, PartialEq, Eq, Structural)]
pub enum ErrorKind {
    /// The medium does not support security protocol commands.
    Unsupported,
    /// The command completed with an error at the device.
    DeviceError,
    /// There is no medium in the device.
    NoMedia,
    /// The medium id does not name the current medium.
    MediaChanged,
    /// The command buffer was invalid.
    InvalidParameter,
    /// The command did not complete within the timeout.
    Timeout,
    /// The receive buffer was too small for the response. Only its first
    /// `received` bytes hold (truncated) data.
    BufferTooSmall { received: usize },
    /// A status code outside the protocol's documented set.
    Other { status: usize },
}

/// The error that a failing status code stands for, for either entry point.
/// A buffer-too-small status is only meaningful for a receive; here it is
/// left to `Other`.
pub open spec fn command_error(code: usize) -> ErrorKind {
    if code == UNSUPPORTED {
        ErrorKind::Unsupported
    } else if code == DEVICE_ERROR {
        ErrorKind::DeviceError
    } else if code == NO_MEDIA {
        ErrorKind::NoMedia
    } else if code == MEDIA_CHANGED {
        ErrorKind::MediaChanged
    } else if code == INVALID_PARAMETER {
        ErrorKind::InvalidParameter
    } else if code == TIMEOUT {
        ErrorKind::Timeout
    } else {
        ErrorKind::Other { status: code }
    }
}

/// Whether a status code reports that a receive buffer was too small,
/// as a warning or as an error.
pub open spec fn is_buffer_too_small(code: usize) -> bool {
    code == WARN_BUFFER_TOO_SMALL || code == BUFFER_TOO_SMALL
}

/// Classifies a status code into the protocol's error taxonomy.
pub fn classify(status: uefi_raw::Status) -> (k: ErrorKind)
    ensures
        k == command_error(status.0),
{
    let code = status.0;
    if code == UNSUPPORTED {
        ErrorKind::Unsupported
    } else if code == DEVICE_ERROR {
        ErrorKind::DeviceError
    } else if code == NO_MEDIA {
        ErrorKind::NoMedia
    } else if code == MEDIA_CHANGED {
        ErrorKind::MediaChanged
    } else if code == INVALID_PARAMETER {
        ErrorKind::InvalidParameter
    } else if code == TIMEOUT {
        ErrorKind::Timeout
    } else {
        ErrorKind::Other { status: code }
    }
}

} // verus!
