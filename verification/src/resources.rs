//! Whole-device resource enumeration.
//!
//! One enumeration request yields every handle the device currently
//! controls, per category, each category received into a fixed-capacity
//! buffer that keeps exactly the count the kernel reported. The result
//! is a fresh read-only snapshot: it is never mutated afterwards and
//! holds no reference back to the device.

use crate::buffer::{BoundedBuffer, BUFFER_CAPACITY};
use crate::handle::{
    connector_handles, crtc_handles, encoder_handles, framebuffer_handles, plane_handles,
    ConnectorHandle, CrtcHandle, EncoderHandle, FramebufferHandle, PlaneHandle,
};
use vstd::prelude::*;

verus! {

/// The raw reply of one whole-device enumeration request, as the
/// control channel hands it over.
#[derive(Debug, Clone, PartialEq, Eq, Hash)]
pub struct RawResources {
    /// Framebuffer identifiers.
    pub fbs: Vec<u32>,
    /// CRTC identifiers.
    pub crtcs: Vec<u32>,
    /// Connector identifiers.
    pub connectors: Vec<u32>,
    /// Encoder identifiers.
    pub encoders: Vec<u32>,
    /// Smallest supported mode width.
    pub min_width: u32,
    /// Largest supported mode width.
    pub max_width: u32,
    /// Smallest supported mode height.
    pub min_height: u32,
    /// Largest supported mode height.
    pub max_height: u32,
}

impl RawResources {
    /// What this layer requires of the channel that filled the reply:
    /// no list holds more entries than the slot capacity offered.
    pub open spec fn wf(&self) -> bool {
        &&& self.fbs@.len() <= BUFFER_CAPACITY
        &&& self.crtcs@.len() <= BUFFER_CAPACITY
        &&& self.connectors@.len() <= BUFFER_CAPACITY
        &&& self.encoders@.len() <= BUFFER_CAPACITY
    }
}

/// Every resource handle a device controls, excluding planes, plus the
/// device's supported mode size bounds.
#[derive(Debug, PartialEq, Eq, Hash)]
pub struct ResourceHandles {
    fbs: BoundedBuffer<FramebufferHandle>,
    crtcs: BoundedBuffer<CrtcHandle>,
    connectors: BoundedBuffer<ConnectorHandle>,
    encoders: BoundedBuffer<EncoderHandle>,
    width: (u32, u32),
    height: (u32, u32),
}

impl ResourceHandles {
    /// The occupied framebuffer list.
    pub closed spec fn spec_framebuffers(&self) -> Seq<FramebufferHandle> {
        self.fbs@
    }

    /// The occupied CRTC list.
    pub closed spec fn spec_crtcs(&self) -> Seq<CrtcHandle> {
        self.crtcs@
    }

    /// The occupied connector list.
    pub closed spec fn spec_connectors(&self) -> Seq<ConnectorHandle> {
        self.connectors@
    }

    /// The occupied encoder list.
    pub closed spec fn spec_encoders(&self) -> Seq<EncoderHandle> {
        self.encoders@
    }

    /// The supported mode width range, as (min, max).
    pub closed spec fn spec_width(&self) -> (u32, u32) {
        self.width
    }

    /// The supported mode height range, as (min, max).
    pub closed spec fn spec_height(&self) -> (u32, u32) {
        self.height
    }

    /// Whether this snapshot is exactly the decoding of the raw reply
    /// `raw`: each category keeps exactly the entries the kernel
    /// reported, in order, each tagged with its resource kind, together
    /// with the device's mode size bounds.
    pub open spec fn decodes(self, raw: RawResources) -> bool {
        &&& self.spec_framebuffers().len() == raw.fbs@.len()
        &&& forall|i: int|
            0 <= i < raw.fbs@.len() ==> self.spec_framebuffers()[i].spec_raw() == raw.fbs@[i]
        &&& self.spec_crtcs().len() == raw.crtcs@.len()
        &&& forall|i: int|
            0 <= i < raw.crtcs@.len() ==> self.spec_crtcs()[i].spec_raw() == raw.crtcs@[i]
        &&& self.spec_connectors().len() == raw.connectors@.len()
        &&& forall|i: int|
            0 <= i < raw.connectors@.len() ==> self.spec_connectors()[i].spec_raw()
                == raw.connectors@[i]
        &&& self.spec_encoders().len() == raw.encoders@.len()
        &&& forall|i: int|
            0 <= i < raw.encoders@.len() ==> self.spec_encoders()[i].spec_raw()
                == raw.encoders@[i]
        &&& self.spec_width() == (raw.min_width, raw.max_width)
        &&& self.spec_height() == (raw.min_height, raw.max_height)
    }

    /// Decodes one raw enumeration reply.
    pub fn from_raw(raw: RawResources) -> (r: Self)
        requires
            raw.wf(),
        ensures
            r.decodes(raw),
    {
        ResourceHandles {
            fbs: BoundedBuffer::from_items(framebuffer_handles(&raw.fbs)),
            crtcs: BoundedBuffer::from_items(crtc_handles(&raw.crtcs)),
            connectors: BoundedBuffer::from_items(connector_handles(&raw.connectors)),
            encoders: BoundedBuffer::from_items(encoder_handles(&raw.encoders)),
            width: (raw.min_width, raw.max_width),
            height: (raw.min_height, raw.max_height),
        }
    }

    /// The connectors the device controls.
    pub fn connectors(&self) -> (s: &[ConnectorHandle])
        ensures
            s@ == self.spec_connectors(),
    {
        self.connectors.as_slice()
    }

    /// The encoders the device controls.
    pub fn encoders(&self) -> (s: &[EncoderHandle])
        ensures
            s@ == self.spec_encoders(),
    {
        self.encoders.as_slice()
    }

    /// The CRTCs the device controls.
    pub fn crtcs(&self) -> (s: &[CrtcHandle])
        ensures
            s@ == self.spec_crtcs(),
    {
        self.crtcs.as_slice()
    }

    /// The framebuffers the device currently exposes to this process.
    pub fn framebuffers(&self) -> (s: &[FramebufferHandle])
        ensures
            s@ == self.spec_framebuffers(),
    {
        self.fbs.as_slice()
    }

    /// The supported mode width range, as (min, max).
    pub fn width(&self) -> (r: (u32, u32))
        ensures
            r == self.spec_width(),
    {
        self.width
    }

    /// The supported mode height range, as (min, max).
    pub fn height(&self) -> (r: (u32, u32))
        ensures
            r == self.spec_height(),
    {
        self.height
    }
}

impl Clone for ResourceHandles {
    /// A clone carries the same enumeration snapshot.
    fn clone(&self) -> (r: Self)
        ensures
            r.spec_framebuffers() == self.spec_framebuffers(),
            r.spec_crtcs() == self.spec_crtcs(),
            r.spec_connectors() == self.spec_connectors(),
            r.spec_encoders() == self.spec_encoders(),
            r.spec_width() == self.spec_width(),
            r.spec_height() == self.spec_height(),
    {
        ResourceHandles {
            fbs: self.fbs.clone(),
            crtcs: self.crtcs.clone(),
            connectors: self.connectors.clone(),
            encoders: self.encoders.clone(),
            width: self.width,
            height: self.height,
        }
    }
}

/// The raw reply of one plane enumeration request, as the control
/// channel hands it over.
#[derive(Debug, Clone, PartialEq, Eq, Hash)]
pub struct RawPlaneResources {
    /// Plane identifiers.
    pub planes: Vec<u32>,
}

impl RawPlaneResources {
    /// What this layer requires of the channel that filled the reply:
    /// the list holds no more entries than the slot capacity offered.
    pub open spec fn wf(&self) -> bool {
        self.planes@.len() <= BUFFER_CAPACITY
    }
}

/// Every plane handle a device controls. Planes are enumerated by a
/// distinct query, available once the universal-planes capability has
/// been requested from the capability collaborator.
#[derive(Debug, PartialEq, Eq, Hash)]
pub struct PlaneResourceHandles {
    planes: BoundedBuffer<PlaneHandle>,
}

impl PlaneResourceHandles {
    /// The occupied plane list.
    pub closed spec fn spec_planes(&self) -> Seq<PlaneHandle> {
        self.planes@
    }

    /// Whether this snapshot is exactly the decoding of the raw reply
    /// `raw`: it keeps exactly the entries the kernel reported, in
    /// order, each tagged as a plane.
    pub open spec fn decodes(self, raw: RawPlaneResources) -> bool {
        &&& self.spec_planes().len() == raw.planes@.len()
        &&& forall|i: int|
            0 <= i < raw.planes@.len() ==> self.spec_planes()[i].spec_raw() == raw.planes@[i]
    }

    /// Decodes one raw plane enumeration reply.
    pub fn from_raw(raw: RawPlaneResources) -> (r: Self)
        requires
            raw.wf(),
        ensures
            r.decodes(raw),
    {
        PlaneResourceHandles { planes: BoundedBuffer::from_items(plane_handles(&raw.planes)) }
    }

    /// The planes the device controls.
    pub fn planes(&self) -> (s: &[PlaneHandle])
        ensures
            s@ == self.spec_planes(),
    {
        self.planes.as_slice()
    }
}

impl Clone for PlaneResourceHandles {
    /// A clone carries the same enumeration snapshot.
    fn clone(&self) -> (r: Self)
        ensures
            r.spec_planes() == self.spec_planes(),
    {
        PlaneResourceHandles { planes: self.planes.clone() }
    }
}

} // verus!
