//! Capability identifiers.
//!
//! Capabilities are queried and enabled through the capability
//! collaborator outside this layer; this layer only fixes the
//! identifier each capability carries on the wire. Callers relying on
//! capability-gated operations — a nonzero CRTC index in a vblank wait,
//! or plane enumeration — check the corresponding capability first.

use vstd::prelude::*;

verus! {

/// A capability a graphics driver may report.
#[derive(Debug, Clone, Copy, PartialEq, Eq, Hash, Structural)]
pub enum DriverCapability {
    /// Dumb-buffer support for scanout.
    DumbBuffer,
    /// Whether the kernel accepts a CRTC index packed into a vblank
    /// wait request.
    VBlankHighCrtc,
    /// Preferred depth to use for dumb buffers.
    DumbPreferredDepth,
    /// Whether dumb buffers prefer a shadow buffer.
    DumbPreferShadow,
    /// Whether PRIME handles are supported.
    Prime,
    /// Whether vblank timestamps use the monotonic clock.
    MonotonicTimestamp,
    /// Asynchronous page flipping support.
    AsyncPageFlip,
    /// Width of cursor buffers.
    CursorWidth,
    /// Height of cursor buffers.
    CursorHeight,
    /// Whether framebuffers can be created with modifiers.
    AddFb2Modifiers,
    /// Whether page-flip targets are supported.
    PageFlipTarget,
    /// Whether vblank events report the CRTC they occurred on.
    CrtcInVBlankEvent,
    /// Synchronisation object support.
    SyncObj,
    /// Timeline synchronisation object support.
    TimelineSyncObj,
    /// Asynchronous page flipping support for the atomic interface.
    AtomicAsyncPageFlip,
}

/// The wire identifier of a driver capability.
pub open spec fn driver_capability_value(cap: DriverCapability) -> u64 {
    match cap {
        DriverCapability::DumbBuffer => 1,
        DriverCapability::VBlankHighCrtc => 2,
        DriverCapability::DumbPreferredDepth => 3,
        DriverCapability::DumbPreferShadow => 4,
        DriverCapability::Prime => 5,
        DriverCapability::MonotonicTimestamp => 6,
        DriverCapability::AsyncPageFlip => 7,
        DriverCapability::CursorWidth => 8,
        DriverCapability::CursorHeight => 9,
        DriverCapability::AddFb2Modifiers => 16,
        DriverCapability::PageFlipTarget => 17,
        DriverCapability::CrtcInVBlankEvent => 18,
        DriverCapability::SyncObj => 19,
        DriverCapability::TimelineSyncObj => 20,
        DriverCapability::AtomicAsyncPageFlip => 21,
    }
}

impl DriverCapability {
    /// The wire identifier of this capability, as a capability query
    /// expects it.
    pub fn raw_value(self) -> (r: u64)
        ensures
            r == driver_capability_value(self),
    {
        match self {
            DriverCapability::DumbBuffer => 1,
            DriverCapability::VBlankHighCrtc => 2,
            DriverCapability::DumbPreferredDepth => 3,
            DriverCapability::DumbPreferShadow => 4,
            DriverCapability::Prime => 5,
            DriverCapability::MonotonicTimestamp => 6,
            DriverCapability::AsyncPageFlip => 7,
            DriverCapability::CursorWidth => 8,
            DriverCapability::CursorHeight => 9,
            DriverCapability::AddFb2Modifiers => 16,
            DriverCapability::PageFlipTarget => 17,
            DriverCapability::CrtcInVBlankEvent => 18,
            DriverCapability::SyncObj => 19,
            DriverCapability::TimelineSyncObj => 20,
            DriverCapability::AtomicAsyncPageFlip => 21,
        }
    }
}

/// A capability a process may ask the driver to expose or hide.
#[derive(Debug, Clone, Copy, PartialEq, Eq, Hash, Structural)]
pub enum ClientCapability {
    /// The driver provides 3D screen control.
    Stereo3D,
    /// The driver exposes every plane type to this process; plane
    /// enumeration yields nothing without it.
    UniversalPlanes,
    /// The driver provides atomic mode-setting.
    Atomic,
    /// Modes carry aspect ratio information.
    AspectRatio,
    /// The driver exposes writeback connectors.
    WritebackConnectors,
    /// This process sets cursor-plane hotspot properties.
    CursorPlaneHotspot,
}

/// The wire identifier of a client capability.
pub open spec fn client_capability_value(cap: ClientCapability) -> u64 {
    match cap {
        ClientCapability::Stereo3D => 1,
        ClientCapability::UniversalPlanes => 2,
        ClientCapability::Atomic => 3,
        ClientCapability::AspectRatio => 4,
        ClientCapability::WritebackConnectors => 5,
        ClientCapability::CursorPlaneHotspot => 6,
    }
}

impl ClientCapability {
    /// The wire identifier of this capability, as a capability request
    /// expects it.
    pub fn raw_value(self) -> (r: u64)
        ensures
            r == client_capability_value(self),
    {
        match self {
            ClientCapability::Stereo3D => 1,
            ClientCapability::UniversalPlanes => 2,
            ClientCapability::Atomic => 3,
            ClientCapability::AspectRatio => 4,
            ClientCapability::WritebackConnectors => 5,
            ClientCapability::CursorPlaneHotspot => 6,
        }
    }
}

} // verus!
