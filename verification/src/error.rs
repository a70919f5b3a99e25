//! Failure classification for control-channel requests.

use vstd::prelude::*;

verus! {

/// A classified failure surfaced by a control request.
///
/// Failures reported by the control channel itself are propagated to
/// the caller unchanged in meaning: this layer never retries a request
/// and never downgrades a failure to a default value. Two conditions
/// are raised locally instead of by the channel:
///
/// * [`SystemError::InvalidArgument`] is also returned when a
///   vertical-blank wait is asked for a CRTC index whose shifted
///   encoding would collide with reserved bits of the request-type
///   word; the request is rejected before any round trip is issued.
/// * [`SystemError::ProtocolDefect`] marks a vertical-blank reply whose
///   direction bits disagree with the request that was sent. It is a
///   logic fault in the cooperating driver or transport, not a normal
///   error; interpretation of such a reply stops immediately.
#[derive(Debug, Clone, Copy, PartialEq, Eq, Hash, Structural)]
pub enum SystemError {
    /// The resource addressed by the request does not exist (any more).
    NotFound,
    /// The process may not issue this request on this device.
    PermissionDenied,
    /// The request itself was malformed.
    InvalidArgument,
    /// The kernel could not copy the reply into this process.
    MemoryFault,
    /// The underlying device has been removed.
    DeviceRemoved,
    /// A reply broke the request/reply protocol of this layer.
    ProtocolDefect,
    /// Any other failure, carrying the raw error number it came with.
    Unknown { errno: u32 },
}

} // verus!
