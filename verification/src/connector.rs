//! Connector detail queries.
//!
//! A connector represents one physical output port. Querying it yields
//! its kind and per-kind instance id, its current connection state, its
//! physical size in millimeters, the lists of property handles and
//! property values (index-aligned, always of equal occupied length),
//! the encoders able to drive it, the display modes it supports, and
//! the encoder currently bound to it, where the kernel reports the
//! sentinel value 0 when no encoder is bound.

use crate::buffer::{BoundedBuffer, BUFFER_CAPACITY};
use crate::handle::{encoder_handles, ConnectorHandle, EncoderHandle};
use crate::mode::Mode;
use vstd::prelude::*;

verus! {

/// The kind of physical port a connector is.
#[derive(Debug, Clone, Copy, PartialEq, Eq, Hash, Structural)]
pub enum ConnectorType {
    /// A port the kernel could not classify.
    Unknown,
    /// VGA.
    VGA,
    /// DVI-I.
    DVII,
    /// DVI-D.
    DVID,
    /// DVI-A.
    DVIA,
    /// Composite video.
    Composite,
    /// S-Video.
    SVideo,
    /// An embedded LVDS panel.
    LVDS,
    /// Component video.
    Component,
    /// A nine-pin DIN port.
    NinePinDIN,
    /// DisplayPort.
    DisplayPort,
    /// HDMI type A.
    HDMIA,
    /// HDMI type B.
    HDMIB,
    /// A TV output.
    TV,
    /// Embedded DisplayPort.
    EDP,
    /// A virtual output.
    Virtual,
    /// A DSI panel.
    DSI,
    /// A DPI panel.
    DPI,
    /// A writeback connector exposing composited output back to memory.
    Writeback,
    /// An SPI panel.
    SPI,
    /// A USB-attached display.
    USB,
}

/// The connector kind encoded by a raw type code; codes beyond the
/// known range decode to [`ConnectorType::Unknown`].
pub open spec fn connector_type_of_code(code: u32) -> ConnectorType {
    if code == 1 {
        ConnectorType::VGA
    } else if code == 2 {
        ConnectorType::DVII
    } else if code == 3 {
        ConnectorType::DVID
    } else if code == 4 {
        ConnectorType::DVIA
    } else if code == 5 {
        ConnectorType::Composite
    } else if code == 6 {
        ConnectorType::SVideo
    } else if code == 7 {
        ConnectorType::LVDS
    } else if code == 8 {
        ConnectorType::Component
    } else if code == 9 {
        ConnectorType::NinePinDIN
    } else if code == 10 {
        ConnectorType::DisplayPort
    } else if code == 11 {
        ConnectorType::HDMIA
    } else if code == 12 {
        ConnectorType::HDMIB
    } else if code == 13 {
        ConnectorType::TV
    } else if code == 14 {
        ConnectorType::EDP
    } else if code == 15 {
        ConnectorType::Virtual
    } else if code == 16 {
        ConnectorType::DSI
    } else if code == 17 {
        ConnectorType::DPI
    } else if code == 18 {
        ConnectorType::Writeback
    } else if code == 19 {
        ConnectorType::SPI
    } else if code == 20 {
        ConnectorType::USB
    } else {
        ConnectorType::Unknown
    }
}

impl ConnectorType {
    /// Decodes the raw connector type code of a kernel reply.
    pub fn from_code(code: u32) -> (t: Self)
        ensures
            t == connector_type_of_code(code),
    {
        match code {
            1 => ConnectorType::VGA,
            2 => ConnectorType::DVII,
            3 => ConnectorType::DVID,
            4 => ConnectorType::DVIA,
            5 => ConnectorType::Composite,
            6 => ConnectorType::SVideo,
            7 => ConnectorType::LVDS,
            8 => ConnectorType::Component,
            9 => ConnectorType::NinePinDIN,
            10 => ConnectorType::DisplayPort,
            11 => ConnectorType::HDMIA,
            12 => ConnectorType::HDMIB,
            13 => ConnectorType::TV,
            14 => ConnectorType::EDP,
            15 => ConnectorType::Virtual,
            16 => ConnectorType::DSI,
            17 => ConnectorType::DPI,
            18 => ConnectorType::Writeback,
            19 => ConnectorType::SPI,
            20 => ConnectorType::USB,
            _ => ConnectorType::Unknown,
        }
    }
}

/// Whether a display is currently attached to a connector.
#[derive(Debug, Clone, Copy, PartialEq, Eq, Hash, Structural)]
pub enum ConnectionState {
    /// A display is attached.
    Connected,
    /// No display is attached.
    Disconnected,
    /// The kernel cannot tell.
    Unknown,
}

/// The connection state encoded by a raw tri-state code; every code
/// other than the two definite ones decodes to
/// [`ConnectionState::Unknown`].
pub open spec fn connection_state_of_code(code: u32) -> ConnectionState {
    if code == 1 {
        ConnectionState::Connected
    } else if code == 2 {
        ConnectionState::Disconnected
    } else {
        ConnectionState::Unknown
    }
}

impl ConnectionState {
    /// Decodes the raw connection state code of a kernel reply.
    pub fn from_code(code: u32) -> (s: Self)
        ensures
            s == connection_state_of_code(code),
    {
        match code {
            1 => ConnectionState::Connected,
            2 => ConnectionState::Disconnected,
            _ => ConnectionState::Unknown,
        }
    }
}

/// The scalars and lists of one raw connector detail reply, as the
/// control channel hands them over.
#[derive(Debug, Clone, PartialEq, Eq, Hash)]
pub struct RawConnectorInfo {
    /// Raw connector type code.
    pub connector_type: u32,
    /// Instance id among connectors of the same type.
    pub connector_type_id: u32,
    /// Raw tri-state connection code.
    pub connection: u32,
    /// Physical width in millimeters.
    pub mm_width: u32,
    /// Physical height in millimeters.
    pub mm_height: u32,
    /// Currently bound encoder, 0 when none is bound.
    pub encoder_id: u32,
    /// Encoders able to drive this connector.
    pub encoders: Vec<u32>,
    /// Property handles, index-aligned with `prop_values`.
    pub props: Vec<u32>,
    /// Property values, index-aligned with `props`.
    pub prop_values: Vec<u64>,
    /// Supported display modes.
    pub modes: Vec<Mode>,
}

impl RawConnectorInfo {
    /// What this layer requires of the channel that filled the reply:
    /// no list holds more entries than the slot capacity offered, and
    /// the property and property-value lists were filled from the one
    /// count the kernel reports for both.
    pub open spec fn wf(&self) -> bool {
        &&& self.encoders@.len() <= BUFFER_CAPACITY
        &&& self.props@.len() <= BUFFER_CAPACITY
        &&& self.prop_values@.len() <= BUFFER_CAPACITY
        &&& self.modes@.len() <= BUFFER_CAPACITY
        &&& self.props@.len() == self.prop_values@.len()
    }
}

/// The decoded state of one connector, a read-only snapshot produced by
/// a single detail query.
#[derive(Debug, PartialEq, Eq, Hash)]
pub struct ConnectorInfo {
    handle: ConnectorHandle,
    conn_type: ConnectorType,
    conn_type_id: u32,
    connection: ConnectionState,
    size: (u32, u32),
    props: BoundedBuffer<u32>,
    prop_values: BoundedBuffer<u64>,
    encoders: BoundedBuffer<EncoderHandle>,
    modes: BoundedBuffer<Mode>,
    curr_enc: Option<EncoderHandle>,
}

impl ConnectorInfo {
    /// The property and property-value lists are index-aligned: they
    /// always carry the same occupied length.
    #[verifier::type_invariant]
    spec fn parallel_properties(self) -> bool {
        self.props@.len() == self.prop_values@.len()
    }

    /// The handle this snapshot was queried with.
    pub closed spec fn spec_handle(&self) -> ConnectorHandle {
        self.handle
    }

    /// The decoded connector kind.
    pub closed spec fn spec_connector_type(&self) -> ConnectorType {
        self.conn_type
    }

    /// The instance id among connectors of the same kind.
    pub closed spec fn spec_connector_type_id(&self) -> u32 {
        self.conn_type_id
    }

    /// The decoded connection state.
    pub closed spec fn spec_state(&self) -> ConnectionState {
        self.connection
    }

    /// Physical size in millimeters.
    pub closed spec fn spec_size(&self) -> (u32, u32) {
        self.size
    }

    /// The occupied property handle list.
    pub closed spec fn spec_properties(&self) -> Seq<u32> {
        self.props@
    }

    /// The occupied property value list.
    pub closed spec fn spec_property_values(&self) -> Seq<u64> {
        self.prop_values@
    }

    /// The occupied encoder list.
    pub closed spec fn spec_encoders(&self) -> Seq<EncoderHandle> {
        self.encoders@
    }

    /// The occupied mode list.
    pub closed spec fn spec_modes(&self) -> Seq<Mode> {
        self.modes@
    }

    /// The currently bound encoder, if any.
    pub closed spec fn spec_current_encoder(&self) -> Option<EncoderHandle> {
        self.curr_enc
    }

    /// Whether this snapshot is exactly the decoding of the raw detail
    /// reply `raw` for the connector `handle`: the raw type and
    /// connection codes are decoded to their enumerated kinds, every
    /// received list is retained at exactly its occupied length, and
    /// the bound-encoder field maps the sentinel 0 to `None` and any
    /// other value to the encoder handle of that value.
    pub open spec fn decodes(self, handle: ConnectorHandle, raw: RawConnectorInfo) -> bool {
        &&& self.spec_handle() == handle
        &&& self.spec_connector_type() == connector_type_of_code(raw.connector_type)
        &&& self.spec_connector_type_id() == raw.connector_type_id
        &&& self.spec_state() == connection_state_of_code(raw.connection)
        &&& self.spec_size() == (raw.mm_width, raw.mm_height)
        &&& self.spec_properties() == raw.props@
        &&& self.spec_property_values() == raw.prop_values@
        &&& self.spec_modes() == raw.modes@
        &&& self.spec_encoders().len() == raw.encoders@.len()
        &&& forall|i: int|
            0 <= i < raw.encoders@.len() ==> self.spec_encoders()[i].spec_raw()
                == raw.encoders@[i]
        &&& raw.encoder_id == 0 ==> self.spec_current_encoder() is None
        &&& raw.encoder_id != 0 ==> (self.spec_current_encoder() matches Some(h)
            && h.spec_raw() == raw.encoder_id)
    }

    /// Decodes one raw connector detail reply.
    pub fn from_raw(handle: ConnectorHandle, raw: RawConnectorInfo) -> (info: Self)
        requires
            raw.wf(),
        ensures
            info.decodes(handle, raw),
    {
        let encoders = encoder_handles(&raw.encoders);
        ConnectorInfo {
            handle,
            conn_type: ConnectorType::from_code(raw.connector_type),
            conn_type_id: raw.connector_type_id,
            connection: ConnectionState::from_code(raw.connection),
            size: (raw.mm_width, raw.mm_height),
            props: BoundedBuffer::from_items(raw.props),
            prop_values: BoundedBuffer::from_items(raw.prop_values),
            encoders: BoundedBuffer::from_items(encoders),
            modes: BoundedBuffer::from_items(raw.modes),
            curr_enc: if raw.encoder_id == 0 {
                None
            } else {
                Some(EncoderHandle::new(raw.encoder_id))
            },
        }
    }

    /// The handle this snapshot was queried with.
    pub fn handle(&self) -> (h: ConnectorHandle)
        ensures
            h == self.spec_handle(),
    {
        self.handle
    }

    /// The kind of port this connector is.
    pub fn connector_type(&self) -> (t: ConnectorType)
        ensures
            t == self.spec_connector_type(),
    {
        self.conn_type
    }

    /// The instance id among connectors of the same kind.
    pub fn connector_type_id(&self) -> (id: u32)
        ensures
            id == self.spec_connector_type_id(),
    {
        self.conn_type_id
    }

    /// Whether a display is currently attached.
    pub fn state(&self) -> (s: ConnectionState)
        ensures
            s == self.spec_state(),
    {
        self.connection
    }

    /// Physical size in millimeters, as (width, height).
    pub fn size(&self) -> (s: (u32, u32))
        ensures
            s == self.spec_size(),
    {
        self.size
    }

    /// The property handles of this connector; index-aligned with
    /// [`ConnectorInfo::property_values`], which always has the same
    /// length.
    pub fn properties(&self) -> (s: &[u32])
        ensures
            s@ == self.spec_properties(),
            s@.len() == self.spec_property_values().len(),
    {
        proof {
            use_type_invariant(self);
        }
        self.props.as_slice()
    }

    /// The property values of this connector; index-aligned with
    /// [`ConnectorInfo::properties`], which always has the same length.
    pub fn property_values(&self) -> (s: &[u64])
        ensures
            s@ == self.spec_property_values(),
            s@.len() == self.spec_properties().len(),
    {
        proof {
            use_type_invariant(self);
        }
        self.prop_values.as_slice()
    }

    /// The encoders able to drive this connector.
    pub fn encoders(&self) -> (s: &[EncoderHandle])
        ensures
            s@ == self.spec_encoders(),
    {
        self.encoders.as_slice()
    }

    /// The display modes this connector supports.
    pub fn modes(&self) -> (s: &[Mode])
        ensures
            s@ == self.spec_modes(),
    {
        self.modes.as_slice()
    }

    /// The encoder currently bound to this connector, or `None` when
    /// the kernel reported the sentinel value 0.
    pub fn current_encoder(&self) -> (e: Option<EncoderHandle>)
        ensures
            e == self.spec_current_encoder(),
    {
        self.curr_enc
    }
}

impl Clone for ConnectorInfo {
    /// A clone carries the same decoded snapshot.
    fn clone(&self) -> (r: Self)
        ensures
            r.spec_handle() == self.spec_handle(),
            r.spec_connector_type() == self.spec_connector_type(),
            r.spec_connector_type_id() == self.spec_connector_type_id(),
            r.spec_state() == self.spec_state(),
            r.spec_size() == self.spec_size(),
            r.spec_properties() == self.spec_properties(),
            r.spec_property_values() == self.spec_property_values(),
            r.spec_encoders() == self.spec_encoders(),
            r.spec_modes() == self.spec_modes(),
            r.spec_current_encoder() == self.spec_current_encoder(),
    {
        proof {
            use_type_invariant(self);
        }
        ConnectorInfo {
            handle: self.handle,
            conn_type: self.conn_type,
            conn_type_id: self.conn_type_id,
            connection: self.connection,
            size: self.size,
            props: self.props.clone(),
            prop_values: self.prop_values.clone(),
            encoders: self.encoders.clone(),
            modes: self.modes.clone(),
            curr_enc: self.curr_enc,
        }
    }
}

} // verus!
