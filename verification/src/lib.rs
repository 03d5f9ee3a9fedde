//! Verified core of a camera-to-WebRTC streaming backend.
//!
//! Each capture device is opened at most once; a dedicated worker reads raw
//! frames, transcodes them to H.264, and fans the encoded units out to every
//! subscriber of that camera. The modules here hold the decision logic of
//! that multiplexer — the mode catalog, the one-slot subscriber sink, the
//! worker state machine, the registry of live workers, and the peer-session
//! forwarder — each with a contract checked by Verus. The blocking device
//! I/O, the async runtime, and the WebRTC transport live outside the
//! library and drive it through these functions.

pub mod capture;
pub mod digits;
pub mod errors;
pub mod fraction;
pub mod mode;
pub mod registry;
pub mod session;
pub mod sink;
pub mod worker;
