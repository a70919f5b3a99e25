//! Tagged handle types, one per resource kind.
//!
//! The kernel names every resource with a 32-bit identifier, but an
//! identifier is only meaningful together with the kind of resource it
//! was reported for. Each kind therefore gets its own wrapper type, so
//! that a handle of one kind can never be passed where another kind is
//! expected, even when the numeric values collide. Handles are opaque:
//! the kernel owns their lifecycle, and this layer only carries them.

use vstd::prelude::*;

verus! {

/// Identifies a framebuffer: a process-visible wrapper around a memory
/// buffer that can be attached to a plane.
#[derive(Debug, Clone, Copy, Eq, Hash)]
pub struct FramebufferHandle {
    raw: u32,
}

impl FramebufferHandle {
    /// The raw identifier the kernel reported for this framebuffer.
    pub closed spec fn spec_raw(self) -> u32 {
        self.raw
    }

    /// Wraps a raw identifier reported by the kernel.
    pub fn new(raw: u32) -> (h: Self)
        ensures
            h.spec_raw() == raw,
    {
        FramebufferHandle { raw }
    }

    /// The raw identifier, as the kernel ABI expects it.
    pub fn raw(self) -> (r: u32)
        ensures
            r == self.spec_raw(),
    {
        self.raw
    }
}

impl PartialEq for FramebufferHandle {
    fn eq(&self, other: &Self) -> (r: bool) {
        self.raw == other.raw
    }
}

impl vstd::std_specs::cmp::PartialEqSpecImpl for FramebufferHandle {
    open spec fn obeys_eq_spec() -> bool {
        true
    }

    open spec fn eq_spec(&self, other: &Self) -> bool {
        self.spec_raw() == other.spec_raw()
    }
}

/// Equality of framebuffer handles is exactly equality of the wrapped
/// identifiers, and so coincides with value equality.
pub proof fn lemma_framebuffer_handle_eq_is_structural()
    ensures
        vstd::laws_eq::obeys_concrete_eq::<FramebufferHandle>(),
{
    reveal(vstd::laws_eq::obeys_concrete_eq);
}

/// Identifies a CRTC: a scanout engine that reads pixel data from a
/// plane and drives an encoder/connector pair at a given timing.
#[derive(Debug, Clone, Copy, Eq, Hash)]
pub struct CrtcHandle {
    raw: u32,
}

impl CrtcHandle {
    /// The raw identifier the kernel reported for this CRTC.
    pub closed spec fn spec_raw(self) -> u32 {
        self.raw
    }

    /// Wraps a raw identifier reported by the kernel.
    pub fn new(raw: u32) -> (h: Self)
        ensures
            h.spec_raw() == raw,
    {
        CrtcHandle { raw }
    }

    /// The raw identifier, as the kernel ABI expects it.
    pub fn raw(self) -> (r: u32)
        ensures
            r == self.spec_raw(),
    {
        self.raw
    }
}

impl PartialEq for CrtcHandle {
    fn eq(&self, other: &Self) -> (r: bool) {
        self.raw == other.raw
    }
}

impl vstd::std_specs::cmp::PartialEqSpecImpl for CrtcHandle {
    open spec fn obeys_eq_spec() -> bool {
        true
    }

    open spec fn eq_spec(&self, other: &Self) -> bool {
        self.spec_raw() == other.spec_raw()
    }
}

/// Equality of CRTC handles is exactly equality of the wrapped
/// identifiers, and so coincides with value equality.
pub proof fn lemma_crtc_handle_eq_is_structural()
    ensures
        vstd::laws_eq::obeys_concrete_eq::<CrtcHandle>(),
{
    reveal(vstd::laws_eq::obeys_concrete_eq);
}

/// Identifies a connector: the representation of a physical output
/// port, such as a DisplayPort or VGA plug.
#[derive(Debug, Clone, Copy, Eq, Hash)]
pub struct ConnectorHandle {
    raw: u32,
}

impl ConnectorHandle {
    /// The raw identifier the kernel reported for this connector.
    pub closed spec fn spec_raw(self) -> u32 {
        self.raw
    }

    /// Wraps a raw identifier reported by the kernel.
    pub fn new(raw: u32) -> (h: Self)
        ensures
            h.spec_raw() == raw,
    {
        ConnectorHandle { raw }
    }

    /// The raw identifier, as the kernel ABI expects it.
    pub fn raw(self) -> (r: u32)
        ensures
            r == self.spec_raw(),
    {
        self.raw
    }
}

impl PartialEq for ConnectorHandle {
    fn eq(&self, other: &Self) -> (r: bool) {
        self.raw == other.raw
    }
}

impl vstd::std_specs::cmp::PartialEqSpecImpl for ConnectorHandle {
    open spec fn obeys_eq_spec() -> bool {
        true
    }

    open spec fn eq_spec(&self, other: &Self) -> bool {
        self.spec_raw() == other.spec_raw()
    }
}

/// Equality of connector handles is exactly equality of the wrapped
/// identifiers, and so coincides with value equality.
pub proof fn lemma_connector_handle_eq_is_structural()
    ensures
        vstd::laws_eq::obeys_concrete_eq::<ConnectorHandle>(),
{
    reveal(vstd::laws_eq::obeys_concrete_eq);
}

/// Identifies an encoder: the stage that turns pixel data from a CRTC
/// into a signal a connector understands.
#[derive(Debug, Clone, Copy, Eq, Hash)]
pub struct EncoderHandle {
    raw: u32,
}

impl EncoderHandle {
    /// The raw identifier the kernel reported for this encoder.
    pub closed spec fn spec_raw(self) -> u32 {
        self.raw
    }

    /// Wraps a raw identifier reported by the kernel.
    pub fn new(raw: u32) -> (h: Self)
        ensures
            h.spec_raw() == raw,
    {
        EncoderHandle { raw }
    }

    /// The raw identifier, as the kernel ABI expects it.
    pub fn raw(self) -> (r: u32)
        ensures
            r == self.spec_raw(),
    {
        self.raw
    }
}

impl PartialEq for EncoderHandle {
    fn eq(&self, other: &Self) -> (r: bool) {
        self.raw == other.raw
    }
}

impl vstd::std_specs::cmp::PartialEqSpecImpl for EncoderHandle {
    open spec fn obeys_eq_spec() -> bool {
        true
    }

    open spec fn eq_spec(&self, other: &Self) -> bool {
        self.spec_raw() == other.spec_raw()
    }
}

/// Equality of encoder handles is exactly equality of the wrapped
/// identifiers, and so coincides with value equality.
pub proof fn lemma_encoder_handle_eq_is_structural()
    ensures
        vstd::laws_eq::obeys_concrete_eq::<EncoderHandle>(),
{
    reveal(vstd::laws_eq::obeys_concrete_eq);
}

/// Identifies a plane: a buffer slot that a CRTC can scan out.
#[derive(Debug, Clone, Copy, Eq, Hash)]
pub struct PlaneHandle {
    raw: u32,
}

impl PlaneHandle {
    /// The raw identifier the kernel reported for this plane.
    pub closed spec fn spec_raw(self) -> u32 {
        self.raw
    }

    /// Wraps a raw identifier reported by the kernel.
    pub fn new(raw: u32) -> (h: Self)
        ensures
            h.spec_raw() == raw,
    {
        PlaneHandle { raw }
    }

    /// The raw identifier, as the kernel ABI expects it.
    pub fn raw(self) -> (r: u32)
        ensures
            r == self.spec_raw(),
    {
        self.raw
    }
}

impl PartialEq for PlaneHandle {
    fn eq(&self, other: &Self) -> (r: bool) {
        self.raw == other.raw
    }
}

impl vstd::std_specs::cmp::PartialEqSpecImpl for PlaneHandle {
    open spec fn obeys_eq_spec() -> bool {
        true
    }

    open spec fn eq_spec(&self, other: &Self) -> bool {
        self.spec_raw() == other.spec_raw()
    }
}

/// Equality of plane handles is exactly equality of the wrapped
/// identifiers, and so coincides with value equality.
pub proof fn lemma_plane_handle_eq_is_structural()
    ensures
        vstd::laws_eq::obeys_concrete_eq::<PlaneHandle>(),
{
    reveal(vstd::laws_eq::obeys_concrete_eq);
}

/// Tags every raw identifier of a reported framebuffer list.
pub(crate) fn framebuffer_handles(ids: &Vec<u32>) -> (v: Vec<FramebufferHandle>)
    ensures
        v@.len() == ids@.len(),
        forall|i: int| 0 <= i < ids@.len() ==> v@[i].spec_raw() == ids@[i],
{
    let mut v: Vec<FramebufferHandle> = Vec::new();
    let mut i: usize = 0;
    while i < ids.len()
        invariant
            i <= ids@.len(),
            v@.len() == i,
            forall|j: int| 0 <= j < i ==> v@[j].spec_raw() == ids@[j],
        decreases ids@.len() - i,
    {
        v.push(FramebufferHandle::new(ids[i]));
        i += 1;
    }
    v
}

/// Tags every raw identifier of a reported CRTC list.
pub(crate) fn crtc_handles(ids: &Vec<u32>) -> (v: Vec<CrtcHandle>)
    ensures
        v@.len() == ids@.len(),
        forall|i: int| 0 <= i < ids@.len() ==> v@[i].spec_raw() == ids@[i],
{
    let mut v: Vec<CrtcHandle> = Vec::new();
    let mut i: usize = 0;
    while i < ids.len()
        invariant
            i <= ids@.len(),
            v@.len() == i,
            forall|j: int| 0 <= j < i ==> v@[j].spec_raw() == ids@[j],
        decreases ids@.len() - i,
    {
        v.push(CrtcHandle::new(ids[i]));
        i += 1;
    }
    v
}

/// Tags every raw identifier of a reported connector list.
pub(crate) fn connector_handles(ids: &Vec<u32>) -> (v: Vec<ConnectorHandle>)
    ensures
        v@.len() == ids@.len(),
        forall|i: int| 0 <= i < ids@.len() ==> v@[i].spec_raw() == ids@[i],
{
    let mut v: Vec<ConnectorHandle> = Vec::new();
    let mut i: usize = 0;
    while i < ids.len()
        invariant
            i <= ids@.len(),
            v@.len() == i,
            forall|j: int| 0 <= j < i ==> v@[j].spec_raw() == ids@[j],
        decreases ids@.len() - i,
    {
        v.push(ConnectorHandle::new(ids[i]));
        i += 1;
    }
    v
}

/// Tags every raw identifier of a reported encoder list.
pub(crate) fn encoder_handles(ids: &Vec<u32>) -> (v: Vec<EncoderHandle>)
    ensures
        v@.len() == ids@.len(),
        forall|i: int| 0 <= i < ids@.len() ==> v@[i].spec_raw() == ids@[i],
{
    let mut v: Vec<EncoderHandle> = Vec::new();
    let mut i: usize = 0;
    while i < ids.len()
        invariant
            i <= ids@.len(),
            v@.len() == i,
            forall|j: int| 0 <= j < i ==> v@[j].spec_raw() == ids@[j],
        decreases ids@.len() - i,
    {
        v.push(EncoderHandle::new(ids[i]));
        i += 1;
    }
    v
}

/// Tags every raw identifier of a reported plane list.
pub(crate) fn plane_handles(ids: &Vec<u32>) -> (v: Vec<PlaneHandle>)
    ensures
        v@.len() == ids@.len(),
        forall|i: int| 0 <= i < ids@.len() ==> v@[i].spec_raw() == ids@[i],
{
    let mut v: Vec<PlaneHandle> = Vec::new();
    let mut i: usize = 0;
    while i < ids.len()
        invariant
            i <= ids@.len(),
            v@.len() == i,
            forall|j: int| 0 <= j < i ==> v@[j].spec_raw() == ids@[j],
        decreases ids@.len() - i,
    {
        v.push(PlaneHandle::new(ids[i]));
        i += 1;
    }
    v
}

} // verus!
