//! The vertical-blank wait protocol, exercised against a stub control
//! channel that records whether a round trip happened.

use std::cell::Cell;

use drm::connector::RawConnectorInfo;
use drm::device::Device;
use drm::resources::{RawPlaneResources, RawResources};
use drm::vblank::{
    encode_wait_request, RawVblankReply, VblankTimestamp, WaitVblankFlags, WaitVblankTarget,
    VBLANK_EVENT, VBLANK_NEXT_ON_MISS,
};
use drm::SystemError;

/// A simulated device for vblank waits: answers a wait with the
/// configured sequence and timestamp, echoing the request-type word
/// with the direction bit masked out (or deliberately broken), and
/// records whether it was invoked at all.
struct VblankStub {
    fail: Option<SystemError>,
    sequence: u32,
    tval_sec: u64,
    tval_usec: u32,
    break_protocol: bool,
    invoked: Cell<bool>,
}

impl VblankStub {
    fn replying(sequence: u32, tval_sec: u64, tval_usec: u32) -> Self {
        VblankStub {
            fail: None,
            sequence,
            tval_sec,
            tval_usec,
            break_protocol: false,
            invoked: Cell::new(false),
        }
    }
}

impl Device for VblankStub {
    fn raw_resources(&self, _capacity: usize) -> Result<RawResources, SystemError> {
        Err(SystemError::Unknown { errno: 0 })
    }

    fn raw_plane_resources(&self, _capacity: usize) -> Result<RawPlaneResources, SystemError> {
        Err(SystemError::Unknown { errno: 0 })
    }

    fn raw_connector(
        &self,
        _connector_id: u32,
        _capacity: usize,
    ) -> Result<RawConnectorInfo, SystemError> {
        Err(SystemError::Unknown { errno: 0 })
    }

    fn raw_encoder(&self, _encoder_id: u32) -> Result<(), SystemError> {
        Err(SystemError::Unknown { errno: 0 })
    }

    fn raw_crtc(&self, _crtc_id: u32) -> Result<(), SystemError> {
        Err(SystemError::Unknown { errno: 0 })
    }

    fn raw_framebuffer(&self, _framebuffer_id: u32) -> Result<(), SystemError> {
        Err(SystemError::Unknown { errno: 0 })
    }

    fn raw_plane(&self, _plane_id: u32) -> Result<(), SystemError> {
        Err(SystemError::Unknown { errno: 0 })
    }

    fn raw_wait_vblank(
        &self,
        request_type: u32,
        _sequence: u32,
        _user_data: usize,
    ) -> Result<RawVblankReply, SystemError> {
        self.invoked.set(true);
        if let Some(e) = self.fail {
            return Err(e);
        }
        let masked = request_type & !1;
        let reply_type = if self.break_protocol { masked ^ 1 } else { masked };
        Ok(RawVblankReply {
            reply_type,
            sequence: self.sequence,
            tval_sec: self.tval_sec,
            tval_usec: self.tval_usec,
        })
    }
}

#[test]
fn colliding_crtc_index_fails_without_any_round_trip() {
    let stub = VblankStub::replying(0, 0, 0);
    let got = stub.wait_vblank(WaitVblankTarget::Relative(1), WaitVblankFlags::empty(), 32, 0);
    assert_eq!(got.unwrap_err(), SystemError::InvalidArgument);
    assert!(!stub.invoked.get());

    let got = stub.wait_vblank(
        WaitVblankTarget::Absolute(5),
        WaitVblankFlags::empty(),
        u32::MAX,
        0,
    );
    assert_eq!(got.unwrap_err(), SystemError::InvalidArgument);
    assert!(!stub.invoked.get());
}

#[test]
fn largest_packable_crtc_index_is_accepted() {
    let stub = VblankStub::replying(7, 0, 0);
    let reply = stub.wait_vblank(WaitVblankTarget::Relative(1), WaitVblankFlags::empty(), 31, 0);
    assert!(stub.invoked.get());
    assert_eq!(reply.unwrap().frame(), 7);
}

#[test]
fn absolute_wait_round_trips_the_sequence() {
    let stub = VblankStub::replying(1000, 0, 0);
    let reply = stub
        .wait_vblank(WaitVblankTarget::Absolute(1000), WaitVblankFlags::empty(), 0, 0)
        .unwrap();
    assert_eq!(reply.frame(), 1000);
    assert_eq!(reply.time(), None);
}

#[test]
fn zero_timestamp_pair_decodes_to_none() {
    let stub = VblankStub::replying(3, 0, 0);
    let reply = stub
        .wait_vblank(
            WaitVblankTarget::Relative(1),
            WaitVblankFlags { event: true, next_on_miss: false },
            0,
            0,
        )
        .unwrap();
    assert_eq!(reply.time(), None);
}

#[test]
fn timestamp_microseconds_convert_to_nanoseconds() {
    let stub = VblankStub::replying(3, 1, 500);
    let reply = stub
        .wait_vblank(WaitVblankTarget::Relative(1), WaitVblankFlags::empty(), 0, 0)
        .unwrap();
    assert_eq!(reply.time(), Some(VblankTimestamp { secs: 1, nanos: 500_000 }));
}

#[test]
fn zero_seconds_with_nonzero_microseconds_is_a_timestamp() {
    let stub = VblankStub::replying(3, 0, 250);
    let reply = stub
        .wait_vblank(WaitVblankTarget::Relative(1), WaitVblankFlags::empty(), 0, 0)
        .unwrap();
    assert_eq!(reply.time(), Some(VblankTimestamp { secs: 0, nanos: 250_000 }));
}

#[test]
fn mismatched_direction_bits_are_a_protocol_defect() {
    let mut stub = VblankStub::replying(9, 0, 0);
    stub.break_protocol = true;
    let got = stub.wait_vblank(WaitVblankTarget::Relative(1), WaitVblankFlags::empty(), 0, 0);
    assert_eq!(got.unwrap_err(), SystemError::ProtocolDefect);
}

#[test]
fn channel_failure_propagates_verbatim() {
    let mut stub = VblankStub::replying(0, 0, 0);
    stub.fail = Some(SystemError::PermissionDenied);
    let got = stub.wait_vblank(WaitVblankTarget::Absolute(1), WaitVblankFlags::empty(), 0, 0);
    assert_eq!(got.unwrap_err(), SystemError::PermissionDenied);
}

#[test]
fn encoding_packs_direction_index_and_flags() {
    let encoded = encode_wait_request(
        WaitVblankTarget::Relative(5),
        WaitVblankFlags { event: true, next_on_miss: true },
        3,
    );
    assert_eq!(encoded, Ok((0x1 | (3 << 1) | VBLANK_EVENT | VBLANK_NEXT_ON_MISS, 5)));
    assert_eq!(encoded, Ok((0x1400_0007, 5)));

    let absolute = encode_wait_request(WaitVblankTarget::Absolute(1000), WaitVblankFlags::empty(), 0);
    assert_eq!(absolute, Ok((0, 1000)));
}

#[test]
fn encoding_rejects_a_colliding_index() {
    let encoded = encode_wait_request(WaitVblankTarget::Absolute(1), WaitVblankFlags::empty(), 32);
    assert_eq!(encoded, Err(SystemError::InvalidArgument));
}

#[test]
fn flag_bits_match_the_wire_values() {
    assert_eq!(WaitVblankFlags::empty().bits(), 0);
    assert_eq!(WaitVblankFlags { event: true, next_on_miss: false }.bits(), VBLANK_EVENT);
    assert_eq!(
        WaitVblankFlags { event: false, next_on_miss: true }.bits(),
        VBLANK_NEXT_ON_MISS
    );
    assert_eq!(
        WaitVblankFlags { event: true, next_on_miss: true }.bits(),
        VBLANK_EVENT | VBLANK_NEXT_ON_MISS
    );
}
