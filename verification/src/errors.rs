//! Error taxonomy of the streaming core.

use vstd::prelude::*;

verus! {

/// Opening or configuring a capture device failed. Fatal to the worker
/// being started; surfaced to the first subscriber.
#[derive(Clone, Copy, Debug, PartialEq, Eq, Structural)]
pub enum DeviceError {
    /// The device reported no usable capture mode.
    NoModes,
    /// The H.264 encoder could not be initialized.
    EncoderInitFailed,
}

/// Capturing or transcoding one frame failed mid-stream. Fatal to the
/// worker: every subscriber observes sink closure.
#[derive(Clone, Copy, Debug, PartialEq, Eq, Structural)]
pub enum ReadError {
    /// The raw frame was not a decodable JPEG image.
    DecodeFailed,
    /// The decoded pixel buffer does not match the configured mode's
    /// dimensions, or the dimensions are odd.
    DimensionMismatch,
    /// The encoder rejected the frame.
    EncodeFailed,
}

/// A registry request that the caller can recover from.
#[derive(Clone, Copy, Debug, PartialEq, Eq, Structural)]
pub enum RegistryError {
    /// No live worker serves the requested device path.
    UnknownPath,
    /// A worker for this device path is already registered.
    PathBusy,
    /// The requested mode index is outside the worker's mode catalog.
    InvalidModeIndex,
}

} // verus!
