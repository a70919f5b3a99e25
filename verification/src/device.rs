//! The device trait: a control channel and the operations built on it.
//!
//! This crate provides no concrete device object; the user implements
//! [`Device`] for whatever wraps their open device node, supplying the
//! raw request methods that perform one privileged request/response
//! exchange each. The provided methods are the operations of this
//! layer: each issues exactly one request per call, decodes the reply
//! with the verified decoders of this crate, and propagates a channel
//! failure to the caller unchanged. Nothing is cached across calls and
//! nothing is retried.

use crate::buffer::BUFFER_CAPACITY;
use crate::connector::{ConnectorInfo, RawConnectorInfo};
use crate::error::SystemError;
use crate::handle::{ConnectorHandle, CrtcHandle, EncoderHandle, FramebufferHandle, PlaneHandle};
use crate::resources::{PlaneResourceHandles, RawPlaneResources, RawResources, ResourceHandles};
use crate::vblank::{
    crtc_index_fits, decode_wait_reply, decoded_time, encode_wait_request, expected_reply_type,
    request_type_word, RawVblankReply, WaitVblankFlags, WaitVblankReply, WaitVblankTarget,
};
use vstd::prelude::*;

verus! {

/// An authentication token, unique to an open device handle, that can
/// be sent to the process holding the master lock to allow
/// unprivileged use of the device.
#[derive(Debug, Clone, Copy, PartialEq, Eq, Hash, Structural)]
pub struct AuthToken {
    magic: u32,
}

impl AuthToken {
    /// The raw token value.
    pub closed spec fn spec_magic(self) -> u32 {
        self.magic
    }

    /// Wraps a raw token value the kernel generated.
    pub fn new(magic: u32) -> (t: Self)
        ensures
            t.spec_magic() == magic,
    {
        AuthToken { magic }
    }

    /// The raw token value, as the kernel ABI expects it.
    pub fn magic(self) -> (r: u32)
        ensures
            r == self.spec_magic(),
    {
        self.magic
    }
}

/// Information about one encoder. Field decoding for encoders is not
/// part of this layer; what the query preserves is its shape: one round
/// trip keyed by one handle, failing when the handle is stale or
/// unknown.
#[derive(Debug, Clone, Copy, PartialEq, Eq, Hash, Structural)]
pub struct EncoderInfo;

/// Information about one CRTC; see [`EncoderInfo`] for why it carries
/// no fields.
#[derive(Debug, Clone, Copy, PartialEq, Eq, Hash, Structural)]
pub struct CrtcInfo;

/// Information about one framebuffer; see [`EncoderInfo`] for why it
/// carries no fields.
#[derive(Debug, Clone, Copy, PartialEq, Eq, Hash, Structural)]
pub struct FramebufferInfo;

/// Information about one plane; see [`EncoderInfo`] for why it carries
/// no fields.
#[derive(Debug, Clone, Copy, PartialEq, Eq, Hash, Structural)]
pub struct PlaneInfo;

/// An open mode-setting control device.
///
/// The `raw_` methods are the control channel: each performs one
/// request/response exchange against the underlying device and either
/// fills the reply or reports a classified failure. Their contracts
/// state what this layer consumes from the channel: a reply list never
/// holds more entries than the slot capacity the request offered — when
/// the device reports more, the reply is truncated to capacity and the
/// request still succeeds — and the property and property-value lists
/// of a connector reply are filled from the one count the kernel
/// reports for both. Nothing else is assumed: in particular, no raw
/// method is promised to succeed, and the values a reply carries are
/// the kernel's alone.
pub trait Device {
    /// One whole-device resource enumeration exchange, offering
    /// `capacity` slots per category.
    fn raw_resources(&self, capacity: usize) -> (r: Result<RawResources, SystemError>)
        ensures
            r matches Ok(raw) ==> raw.fbs@.len() <= capacity && raw.crtcs@.len() <= capacity
                && raw.connectors@.len() <= capacity && raw.encoders@.len() <= capacity,
    ;

    /// One plane enumeration exchange, offering `capacity` slots.
    fn raw_plane_resources(&self, capacity: usize) -> (r: Result<RawPlaneResources, SystemError>)
        ensures
            r matches Ok(raw) ==> raw.planes@.len() <= capacity,
    ;

    /// One connector detail exchange keyed by a raw connector
    /// identifier, offering `capacity` slots per list.
    fn raw_connector(&self, connector_id: u32, capacity: usize) -> (r: Result<
        RawConnectorInfo,
        SystemError,
    >)
        ensures
            r matches Ok(raw) ==> raw.encoders@.len() <= capacity && raw.props@.len() <= capacity
                && raw.prop_values@.len() <= capacity && raw.modes@.len() <= capacity
                && raw.props@.len() == raw.prop_values@.len(),
    ;

    /// One encoder detail exchange keyed by a raw encoder identifier.
    fn raw_encoder(&self, encoder_id: u32) -> Result<(), SystemError>;

    /// One CRTC detail exchange keyed by a raw CRTC identifier.
    fn raw_crtc(&self, crtc_id: u32) -> Result<(), SystemError>;

    /// One framebuffer detail exchange keyed by a raw framebuffer
    /// identifier.
    fn raw_framebuffer(&self, framebuffer_id: u32) -> Result<(), SystemError>;

    /// One plane detail exchange keyed by a raw plane identifier.
    fn raw_plane(&self, plane_id: u32) -> Result<(), SystemError>;

    /// One vblank wait exchange: hands the packed request-type word,
    /// the target sequence and the caller's opaque word to the kernel
    /// and blocks (or registers an event) until it answers.
    fn raw_wait_vblank(&self, request_type: u32, sequence: u32, user_data: usize) -> Result<
        RawVblankReply,
        SystemError,
    >;

    /// Gets the set of resource handles that this device currently
    /// controls, receiving up to [`BUFFER_CAPACITY`] entries per
    /// category. On success the result is exactly the decoding of the
    /// reply the channel delivered; a channel failure is returned
    /// verbatim.
    fn resource_handles(&self) -> (r: Result<ResourceHandles, SystemError>)
        ensures
            r matches Ok(rh) ==> exists|raw: RawResources| #![auto] raw.wf() && rh.decodes(raw),
    {
        match self.raw_resources(BUFFER_CAPACITY) {
            Ok(raw) => Ok(ResourceHandles::from_raw(raw)),
            Err(e) => Err(e),
        }
    }

    /// Gets the set of plane handles that this device currently has,
    /// receiving up to [`BUFFER_CAPACITY`] entries. On success the
    /// result is exactly the decoding of the reply the channel
    /// delivered; a channel failure is returned verbatim.
    fn plane_handles(&self) -> (r: Result<PlaneResourceHandles, SystemError>)
        ensures
            r matches Ok(ph) ==> exists|raw: RawPlaneResources| #![auto]
                raw.wf() && ph.decodes(raw),
    {
        match self.raw_plane_resources(BUFFER_CAPACITY) {
            Ok(raw) => Ok(PlaneResourceHandles::from_raw(raw)),
            Err(e) => Err(e),
        }
    }

    /// Returns information about a specific connector, receiving up to
    /// [`BUFFER_CAPACITY`] entries per list. On success the result is
    /// exactly the decoding, for `handle`, of the reply the channel
    /// delivered; a channel failure — a stale or unknown handle
    /// included — is returned verbatim.
    fn get_connector(&self, handle: ConnectorHandle) -> (r: Result<ConnectorInfo, SystemError>)
        ensures
            r matches Ok(info) ==> exists|raw: RawConnectorInfo| #![auto]
                raw.wf() && info.decodes(handle, raw),
    {
        match self.raw_connector(handle.raw(), BUFFER_CAPACITY) {
            Ok(raw) => Ok(ConnectorInfo::from_raw(handle, raw)),
            Err(e) => Err(e),
        }
    }

    /// Returns information about a specific encoder: one round trip
    /// keyed by the handle, failing when the channel fails.
    fn get_encoder(&self, handle: EncoderHandle) -> (r: Result<EncoderInfo, SystemError>)
        ensures
            r matches Ok(info) ==> info == EncoderInfo,
    {
        match self.raw_encoder(handle.raw()) {
            Ok(_) => Ok(EncoderInfo),
            Err(e) => Err(e),
        }
    }

    /// Returns information about a specific CRTC: one round trip keyed
    /// by the handle, failing when the channel fails.
    fn get_crtc(&self, handle: CrtcHandle) -> (r: Result<CrtcInfo, SystemError>)
        ensures
            r matches Ok(info) ==> info == CrtcInfo,
    {
        match self.raw_crtc(handle.raw()) {
            Ok(_) => Ok(CrtcInfo),
            Err(e) => Err(e),
        }
    }

    /// Returns information about a specific framebuffer: one round trip
    /// keyed by the handle, failing when the channel fails.
    fn get_framebuffer(&self, handle: FramebufferHandle) -> (r: Result<
        FramebufferInfo,
        SystemError,
    >)
        ensures
            r matches Ok(info) ==> info == FramebufferInfo,
    {
        match self.raw_framebuffer(handle.raw()) {
            Ok(_) => Ok(FramebufferInfo),
            Err(e) => Err(e),
        }
    }

    /// Returns information about a specific plane: one round trip keyed
    /// by the handle, failing when the channel fails.
    fn get_plane(&self, handle: PlaneHandle) -> (r: Result<PlaneInfo, SystemError>)
        ensures
            r matches Ok(info) ==> info == PlaneInfo,
    {
        match self.raw_plane(handle.raw()) {
            Ok(_) => Ok(PlaneInfo),
            Err(e) => Err(e),
        }
    }

    /// Waits for a vblank on the CRTC with index `crtc_index`.
    ///
    /// A CRTC index whose shifted encoding would collide with reserved
    /// bits of the request-type word is rejected with
    /// [`SystemError::InvalidArgument`] before any request is issued.
    /// Otherwise one request is issued; on success the reply's
    /// direction bits matched the request, the frame sequence is passed
    /// through unchanged, and the timestamp pair is decoded with the
    /// all-zero sentinel mapped to `None`. A reply with mismatched
    /// direction bits is rejected as [`SystemError::ProtocolDefect`].
    ///
    /// Only drivers reporting the high-CRTC capability support a
    /// nonzero index; callers check that capability first, through the
    /// capability collaborator outside this layer.
    fn wait_vblank(
        &self,
        target_sequence: WaitVblankTarget,
        flags: WaitVblankFlags,
        crtc_index: u32,
        user_data: usize,
    ) -> (r: Result<WaitVblankReply, SystemError>)
        ensures
            !crtc_index_fits(crtc_index) ==> r == Err::<WaitVblankReply, SystemError>(
                SystemError::InvalidArgument,
            ),
            r matches Ok(rep) ==> crtc_index_fits(crtc_index) && exists|raw: RawVblankReply|
                #![auto]
                {
                    &&& raw.reply_type == expected_reply_type(
                        request_type_word(target_sequence, flags, crtc_index),
                        target_sequence,
                    )
                    &&& rep.spec_frame() == raw.sequence
                    &&& rep.spec_time() == decoded_time(raw.tval_sec, raw.tval_usec)
                },
    {
        let (request_type, sequence) = match encode_wait_request(
            target_sequence,
            flags,
            crtc_index,
        ) {
            Ok(encoded) => encoded,
            Err(e) => {
                return Err(e);
            },
        };
        match self.raw_wait_vblank(request_type, sequence, user_data) {
            Ok(raw) => decode_wait_reply(request_type, target_sequence, raw),
            Err(e) => Err(e),
        }
    }
}

} // verus!
