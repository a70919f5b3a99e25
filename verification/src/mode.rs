//! Display mode descriptors.
//!
//! A [`Mode`] is an immutable timing record copied field by field out of
//! the kernel's raw timing structure when a connector is queried. No
//! validation of timing consistency (say, sync start below sync end) is
//! performed here; a mode has no identity beyond its field values, and
//! its on-wire layout is exactly reconstructible from them.

use vstd::prelude::*;

verus! {

/// An immutable display timing record.
#[derive(Debug, Clone, Copy, Eq, Hash)]
pub struct Mode {
    /// Pixel clock, in kHz.
    pub clock: u32,
    /// Horizontal display size.
    pub hdisplay: u16,
    /// Horizontal sync start.
    pub hsync_start: u16,
    /// Horizontal sync end.
    pub hsync_end: u16,
    /// Horizontal total.
    pub htotal: u16,
    /// Horizontal skew.
    pub hskew: u16,
    /// Vertical display size.
    pub vdisplay: u16,
    /// Vertical sync start.
    pub vsync_start: u16,
    /// Vertical sync end.
    pub vsync_end: u16,
    /// Vertical total.
    pub vtotal: u16,
    /// Vertical scan.
    pub vscan: u16,
    /// Vertical refresh rate.
    pub vrefresh: u32,
}

impl Mode {
    /// The clock speed of this mode, in kHz.
    pub fn clock(&self) -> (r: u32)
        ensures
            r == self.clock,
    {
        self.clock
    }

    /// The size (resolution) of the mode, as (width, height).
    pub fn size(&self) -> (r: (u16, u16))
        ensures
            r == (self.hdisplay, self.vdisplay),
    {
        (self.hdisplay, self.vdisplay)
    }

    /// The horizontal sync start, end, and total.
    pub fn hsync(&self) -> (r: (u16, u16, u16))
        ensures
            r == (self.hsync_start, self.hsync_end, self.htotal),
    {
        (self.hsync_start, self.hsync_end, self.htotal)
    }

    /// The vertical sync start, end, and total.
    pub fn vsync(&self) -> (r: (u16, u16, u16))
        ensures
            r == (self.vsync_start, self.vsync_end, self.vtotal),
    {
        (self.vsync_start, self.vsync_end, self.vtotal)
    }

    /// The horizontal skew of this mode.
    pub fn hskew(&self) -> (r: u16)
        ensures
            r == self.hskew,
    {
        self.hskew
    }

    /// The vertical scan of this mode.
    pub fn vscan(&self) -> (r: u16)
        ensures
            r == self.vscan,
    {
        self.vscan
    }

    /// The vertical refresh rate of this mode.
    pub fn vrefresh(&self) -> (r: u32)
        ensures
            r == self.vrefresh,
    {
        self.vrefresh
    }
}

impl PartialEq for Mode {
    fn eq(&self, other: &Self) -> (r: bool) {
        self.clock == other.clock && self.hdisplay == other.hdisplay
            && self.hsync_start == other.hsync_start && self.hsync_end == other.hsync_end
            && self.htotal == other.htotal && self.hskew == other.hskew
            && self.vdisplay == other.vdisplay && self.vsync_start == other.vsync_start
            && self.vsync_end == other.vsync_end && self.vtotal == other.vtotal
            && self.vscan == other.vscan && self.vrefresh == other.vrefresh
    }
}

impl vstd::std_specs::cmp::PartialEqSpecImpl for Mode {
    open spec fn obeys_eq_spec() -> bool {
        true
    }

    open spec fn eq_spec(&self, other: &Self) -> bool {
        *self == *other
    }
}

/// Two modes with identical fields are interchangeable: `==` on modes
/// is exactly value equality.
pub proof fn lemma_mode_eq_is_structural()
    ensures
        vstd::laws_eq::obeys_concrete_eq::<Mode>(),
{
    reveal(vstd::laws_eq::obeys_concrete_eq);
}

} // verus!
