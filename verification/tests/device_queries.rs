//! Resource enumeration and per-resource detail queries, exercised
//! against a stub control channel.

use drm::caps::{ClientCapability, DriverCapability};
use drm::connector::{ConnectionState, ConnectorType, RawConnectorInfo};
use drm::device::{AuthToken, CrtcInfo, Device, EncoderInfo, FramebufferInfo, PlaneInfo};
use drm::handle::{ConnectorHandle, EncoderHandle};
use drm::mode::Mode;
use drm::resources::{RawPlaneResources, RawResources};
use drm::vblank::RawVblankReply;
use drm::SystemError;

fn mode(clock: u32, width: u16, height: u16) -> Mode {
    Mode {
        clock,
        hdisplay: width,
        hsync_start: width + 16,
        hsync_end: width + 32,
        htotal: width + 80,
        hskew: 0,
        vdisplay: height,
        vsync_start: height + 3,
        vsync_end: height + 6,
        vtotal: height + 30,
        vscan: 0,
        vrefresh: 60,
    }
}

fn empty_connector_reply() -> RawConnectorInfo {
    RawConnectorInfo {
        connector_type: 0,
        connector_type_id: 1,
        connection: 3,
        mm_width: 0,
        mm_height: 0,
        encoder_id: 0,
        encoders: Vec::new(),
        props: Vec::new(),
        prop_values: Vec::new(),
        modes: Vec::new(),
    }
}

/// A simulated device: answers every request from configured replies,
/// truncating list replies to the offered capacity as the kernel-side
/// contract demands.
struct StubDevice {
    resources: Result<RawResources, SystemError>,
    planes: Result<RawPlaneResources, SystemError>,
    connector: Result<RawConnectorInfo, SystemError>,
    detail: Result<(), SystemError>,
}

impl StubDevice {
    fn healthy() -> Self {
        StubDevice {
            resources: Ok(RawResources {
                fbs: Vec::new(),
                crtcs: Vec::new(),
                connectors: Vec::new(),
                encoders: Vec::new(),
                min_width: 0,
                max_width: 0,
                min_height: 0,
                max_height: 0,
            }),
            planes: Ok(RawPlaneResources { planes: Vec::new() }),
            connector: Ok(empty_connector_reply()),
            detail: Ok(()),
        }
    }
}

impl Device for StubDevice {
    fn raw_resources(&self, capacity: usize) -> Result<RawResources, SystemError> {
        let mut reply = self.resources.clone();
        if let Ok(raw) = &mut reply {
            raw.fbs.truncate(capacity);
            raw.crtcs.truncate(capacity);
            raw.connectors.truncate(capacity);
            raw.encoders.truncate(capacity);
        }
        reply
    }

    fn raw_plane_resources(&self, capacity: usize) -> Result<RawPlaneResources, SystemError> {
        let mut reply = self.planes.clone();
        if let Ok(raw) = &mut reply {
            raw.planes.truncate(capacity);
        }
        reply
    }

    fn raw_connector(
        &self,
        _connector_id: u32,
        capacity: usize,
    ) -> Result<RawConnectorInfo, SystemError> {
        let mut reply = self.connector.clone();
        if let Ok(raw) = &mut reply {
            raw.encoders.truncate(capacity);
            raw.modes.truncate(capacity);
            let kept = raw.props.len().min(raw.prop_values.len()).min(capacity);
            raw.props.truncate(kept);
            raw.prop_values.truncate(kept);
        }
        reply
    }

    fn raw_encoder(&self, _encoder_id: u32) -> Result<(), SystemError> {
        self.detail
    }

    fn raw_crtc(&self, _crtc_id: u32) -> Result<(), SystemError> {
        self.detail
    }

    fn raw_framebuffer(&self, _framebuffer_id: u32) -> Result<(), SystemError> {
        self.detail
    }

    fn raw_plane(&self, _plane_id: u32) -> Result<(), SystemError> {
        self.detail
    }

    fn raw_wait_vblank(
        &self,
        _request_type: u32,
        _sequence: u32,
        _user_data: usize,
    ) -> Result<RawVblankReply, SystemError> {
        Err(SystemError::Unknown { errno: 0 })
    }
}

#[test]
fn enumeration_exposes_exactly_the_reported_counts() {
    let mut stub = StubDevice::healthy();
    stub.resources = Ok(RawResources {
        fbs: Vec::new(),
        crtcs: vec![10, 11, 12],
        connectors: vec![20, 21],
        encoders: vec![30],
        min_width: 640,
        max_width: 4096,
        min_height: 480,
        max_height: 2160,
    });
    let handles = stub.resource_handles().unwrap();
    assert_eq!(handles.crtcs().len(), 3);
    assert_eq!(handles.connectors().len(), 2);
    assert_eq!(handles.encoders().len(), 1);
    assert_eq!(handles.framebuffers().len(), 0);
    assert_eq!(handles.crtcs()[0].raw(), 10);
    assert_eq!(handles.connectors()[1].raw(), 21);
    assert_eq!(handles.encoders()[0].raw(), 30);
    assert_eq!(handles.width(), (640, 4096));
    assert_eq!(handles.height(), (480, 2160));
}

#[test]
fn enumeration_of_an_overfull_device_truncates_and_succeeds() {
    let mut stub = StubDevice::healthy();
    stub.resources = Ok(RawResources {
        fbs: Vec::new(),
        crtcs: Vec::new(),
        connectors: (1..=40).collect(),
        encoders: Vec::new(),
        min_width: 0,
        max_width: 0,
        min_height: 0,
        max_height: 0,
    });
    let handles = stub.resource_handles().unwrap();
    assert_eq!(handles.connectors().len(), 32);
    assert_eq!(handles.connectors()[31].raw(), 32);
}

#[test]
fn enumeration_failure_propagates_verbatim() {
    let mut stub = StubDevice::healthy();
    stub.resources = Err(SystemError::DeviceRemoved);
    assert_eq!(stub.resource_handles().unwrap_err(), SystemError::DeviceRemoved);
}

#[test]
fn equal_reports_give_equal_resource_handles() {
    let mut stub = StubDevice::healthy();
    stub.resources = Ok(RawResources {
        fbs: vec![5],
        crtcs: vec![10, 11],
        connectors: vec![20],
        encoders: vec![30],
        min_width: 1,
        max_width: 2,
        min_height: 3,
        max_height: 4,
    });
    let first = stub.resource_handles().unwrap();
    let second = stub.resource_handles().unwrap();
    assert_eq!(first, second);
}

#[test]
fn plane_enumeration_exposes_exactly_the_reported_planes() {
    let mut stub = StubDevice::healthy();
    stub.planes = Ok(RawPlaneResources { planes: vec![71, 72, 73, 74] });
    let planes = stub.plane_handles().unwrap();
    assert_eq!(planes.planes().len(), 4);
    assert_eq!(planes.planes()[2].raw(), 73);
    let again = stub.plane_handles().unwrap();
    assert_eq!(planes, again);
}

#[test]
fn plane_enumeration_failure_propagates_verbatim() {
    let mut stub = StubDevice::healthy();
    stub.planes = Err(SystemError::PermissionDenied);
    assert_eq!(stub.plane_handles().unwrap_err(), SystemError::PermissionDenied);
}

#[test]
fn zero_encoder_field_decodes_to_no_bound_encoder() {
    let stub = StubDevice::healthy();
    let info = stub.get_connector(ConnectorHandle::new(7)).unwrap();
    assert_eq!(info.current_encoder(), None);
}

#[test]
fn nonzero_encoder_field_decodes_to_that_encoder() {
    let mut stub = StubDevice::healthy();
    let mut reply = empty_connector_reply();
    reply.encoder_id = 42;
    stub.connector = Ok(reply);
    let info = stub.get_connector(ConnectorHandle::new(7)).unwrap();
    assert_eq!(info.current_encoder(), Some(EncoderHandle::new(42)));
    assert_eq!(info.current_encoder().unwrap().raw(), 42);
}

#[test]
fn property_and_value_lists_share_their_length() {
    let mut stub = StubDevice::healthy();
    let mut reply = empty_connector_reply();
    reply.props = vec![100, 101, 102];
    reply.prop_values = vec![1, 2, 3];
    stub.connector = Ok(reply);
    let info = stub.get_connector(ConnectorHandle::new(7)).unwrap();
    assert_eq!(info.properties().len(), info.property_values().len());
    assert_eq!(info.properties(), &[100, 101, 102]);
    assert_eq!(info.property_values(), &[1, 2, 3]);
}

#[test]
fn connector_scalars_decode_to_their_kinds() {
    let mut stub = StubDevice::healthy();
    let mut reply = empty_connector_reply();
    reply.connector_type = 11;
    reply.connector_type_id = 2;
    reply.connection = 1;
    reply.mm_width = 600;
    reply.mm_height = 340;
    stub.connector = Ok(reply);
    let handle = ConnectorHandle::new(9);
    let info = stub.get_connector(handle).unwrap();
    assert_eq!(info.handle(), handle);
    assert_eq!(info.connector_type(), ConnectorType::HDMIA);
    assert_eq!(info.connector_type_id(), 2);
    assert_eq!(info.state(), ConnectionState::Connected);
    assert_eq!(info.size(), (600, 340));
}

#[test]
fn connector_lists_decode_in_order() {
    let mut stub = StubDevice::healthy();
    let mut reply = empty_connector_reply();
    reply.encoders = vec![31, 32];
    reply.modes = vec![mode(148500, 1920, 1080), mode(25175, 640, 480)];
    stub.connector = Ok(reply);
    let info = stub.get_connector(ConnectorHandle::new(7)).unwrap();
    assert_eq!(info.encoders().len(), 2);
    assert_eq!(info.encoders()[0].raw(), 31);
    assert_eq!(info.encoders()[1].raw(), 32);
    assert_eq!(info.modes().len(), 2);
    assert_eq!(info.modes()[0].size(), (1920, 1080));
    assert_eq!(info.modes()[1].clock(), 25175);
}

#[test]
fn connector_query_failure_propagates_verbatim() {
    let mut stub = StubDevice::healthy();
    stub.connector = Err(SystemError::NotFound);
    let got = stub.get_connector(ConnectorHandle::new(999));
    assert_eq!(got.unwrap_err(), SystemError::NotFound);
}

#[test]
fn connector_type_codes_decode_by_the_kernel_table() {
    assert_eq!(ConnectorType::from_code(0), ConnectorType::Unknown);
    assert_eq!(ConnectorType::from_code(1), ConnectorType::VGA);
    assert_eq!(ConnectorType::from_code(7), ConnectorType::LVDS);
    assert_eq!(ConnectorType::from_code(10), ConnectorType::DisplayPort);
    assert_eq!(ConnectorType::from_code(14), ConnectorType::EDP);
    assert_eq!(ConnectorType::from_code(20), ConnectorType::USB);
    assert_eq!(ConnectorType::from_code(21), ConnectorType::Unknown);
    assert_eq!(ConnectorType::from_code(u32::MAX), ConnectorType::Unknown);
}

#[test]
fn connection_state_codes_decode_by_the_kernel_table() {
    assert_eq!(ConnectionState::from_code(1), ConnectionState::Connected);
    assert_eq!(ConnectionState::from_code(2), ConnectionState::Disconnected);
    assert_eq!(ConnectionState::from_code(3), ConnectionState::Unknown);
    assert_eq!(ConnectionState::from_code(0), ConnectionState::Unknown);
}

#[test]
fn detail_queries_follow_the_channel_verdict() {
    let stub = StubDevice::healthy();
    assert_eq!(stub.get_encoder(EncoderHandle::new(1)), Ok(EncoderInfo));
    assert_eq!(stub.get_crtc(drm::handle::CrtcHandle::new(1)), Ok(CrtcInfo));
    assert_eq!(stub.get_framebuffer(drm::handle::FramebufferHandle::new(1)), Ok(FramebufferInfo));
    assert_eq!(stub.get_plane(drm::handle::PlaneHandle::new(1)), Ok(PlaneInfo));

    let mut failing = StubDevice::healthy();
    failing.detail = Err(SystemError::NotFound);
    assert_eq!(failing.get_encoder(EncoderHandle::new(1)), Err(SystemError::NotFound));
    assert_eq!(failing.get_crtc(drm::handle::CrtcHandle::new(1)), Err(SystemError::NotFound));
    assert_eq!(
        failing.get_framebuffer(drm::handle::FramebufferHandle::new(1)),
        Err(SystemError::NotFound)
    );
    assert_eq!(failing.get_plane(drm::handle::PlaneHandle::new(1)), Err(SystemError::NotFound));
}

#[test]
fn mode_accessors_expose_the_timing_fields() {
    let m = mode(148500, 1920, 1080);
    assert_eq!(m.clock(), 148500);
    assert_eq!(m.size(), (1920, 1080));
    assert_eq!(m.hsync(), (1936, 1952, 2000));
    assert_eq!(m.vsync(), (1083, 1086, 1110));
    assert_eq!(m.hskew(), 0);
    assert_eq!(m.vscan(), 0);
    assert_eq!(m.vrefresh(), 60);
    assert_eq!(m, mode(148500, 1920, 1080));
    assert!(m != mode(148500, 1920, 1200));
}

#[test]
fn capability_identifiers_match_the_wire_values() {
    assert_eq!(DriverCapability::DumbBuffer.raw_value(), 1);
    assert_eq!(DriverCapability::VBlankHighCrtc.raw_value(), 2);
    assert_eq!(DriverCapability::Prime.raw_value(), 5);
    assert_eq!(DriverCapability::AddFb2Modifiers.raw_value(), 16);
    assert_eq!(DriverCapability::AtomicAsyncPageFlip.raw_value(), 21);
    assert_eq!(ClientCapability::Stereo3D.raw_value(), 1);
    assert_eq!(ClientCapability::UniversalPlanes.raw_value(), 2);
    assert_eq!(ClientCapability::CursorPlaneHotspot.raw_value(), 6);
}

#[test]
fn unclassified_failures_keep_their_error_number() {
    let mut stub = StubDevice::healthy();
    stub.planes = Err(SystemError::Unknown { errno: 123 });
    assert_eq!(stub.plane_handles().unwrap_err(), SystemError::Unknown { errno: 123 });
    stub.connector = Err(SystemError::MemoryFault);
    assert_eq!(
        stub.get_connector(ConnectorHandle::new(1)).unwrap_err(),
        SystemError::MemoryFault
    );
}

#[test]
fn cloned_snapshots_equal_their_original() {
    let mut stub = StubDevice::healthy();
    stub.resources = Ok(RawResources {
        fbs: vec![5],
        crtcs: vec![10],
        connectors: vec![20, 21],
        encoders: vec![30],
        min_width: 1,
        max_width: 2,
        min_height: 3,
        max_height: 4,
    });
    let mut reply = empty_connector_reply();
    reply.props = vec![100];
    reply.prop_values = vec![7];
    reply.encoder_id = 42;
    stub.connector = Ok(reply);

    let handles = stub.resource_handles().unwrap();
    assert_eq!(handles.clone(), handles);

    let planes = stub.plane_handles().unwrap();
    assert_eq!(planes.clone(), planes);

    let info = stub.get_connector(ConnectorHandle::new(7)).unwrap();
    assert_eq!(info.clone(), info);
}

#[test]
fn auth_tokens_carry_their_magic() {
    let token = AuthToken::new(0xC0FFEE);
    assert_eq!(token.magic(), 0xC0FFEE);
    assert_eq!(token, AuthToken::new(0xC0FFEE));
}
