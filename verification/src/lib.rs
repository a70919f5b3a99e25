//! A safe interface to a kernel mode-setting (KMS) control device.
//!
//! A userspace process opens a display control device and issues
//! fixed-format requests against it to enumerate scanout resources
//! (framebuffers, CRTCs, connectors, encoders, planes), to query a
//! single resource in detail, and to wait for vertical-blank events.
//!
//! The raw request/reply exchange is performed by a control channel
//! that the user of this crate supplies by implementing [`device::Device`];
//! this crate owns the marshalling around it: fixed-capacity receive
//! buffers that track how many slots a query filled, one tagged handle
//! type per resource kind, sentinel decoding for optional fields, and
//! the bit-packed vertical-blank wait encoding with its overflow
//! precondition.

pub mod buffer;
pub mod caps;
pub mod connector;
pub mod device;
pub mod error;
pub mod handle;
pub mod mode;
pub mod resources;
pub mod vblank;

pub use caps::{ClientCapability, DriverCapability};
pub use device::{AuthToken, Device};
pub use error::SystemError;
pub use vblank::{WaitVblankFlags, WaitVblankReply, WaitVblankTarget};
