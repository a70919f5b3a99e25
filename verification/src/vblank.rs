//! The vertical-blank wait protocol.
//!
//! A wait request packs three logically independent pieces of
//! information into one 32-bit request-type word: the direction bit
//! (absolute or relative target sequence), the behaviour flags (deliver
//! an event instead of blocking; wait for the next vblank when the
//! target was missed), and the CRTC index, shifted into a reserved
//! high-order field. An index whose shifted encoding would spill out of
//! that field is rejected before any request is issued. The reply
//! carries the frame sequence that was reached and a timestamp pair
//! whose all-zero value is the sentinel for "no synchronous timestamp
//! was taken".

use crate::error::SystemError;
use vstd::prelude::*;

verus! {

/// Request-type bit for an absolute target sequence.
pub const VBLANK_ABSOLUTE: u32 = 0x0;

/// Request-type bit for a relative target sequence.
pub const VBLANK_RELATIVE: u32 = 0x1;

/// Behaviour flag: deliver an event instead of blocking.
pub const VBLANK_EVENT: u32 = 0x0400_0000;

/// Behaviour flag: if the target was missed, wait for the next vblank
/// instead of failing.
pub const VBLANK_NEXT_ON_MISS: u32 = 0x1000_0000;

/// How far the CRTC index is shifted into the request-type word.
pub const VBLANK_HIGH_CRTC_SHIFT: u32 = 1;

/// The bits of the request-type word reserved for the shifted CRTC
/// index.
pub const VBLANK_HIGH_CRTC_MASK: u32 = 0x3E;

/// A vblank sequence to wait for.
#[derive(Debug, Clone, Copy, PartialEq, Eq, Hash, Structural)]
pub enum WaitVblankTarget {
    /// Wait until a specific vblank sequence number is reached.
    Absolute(u32),
    /// Wait for the given number of further vblanks.
    Relative(u32),
}

/// Flags altering the behaviour of a vblank wait.
#[derive(Debug, Clone, Copy, PartialEq, Eq, Hash, Structural)]
pub struct WaitVblankFlags {
    /// Deliver an event instead of blocking; the reply then carries no
    /// timestamp.
    pub event: bool,
    /// If the target sequence was missed, wait for the next vblank
    /// instead of failing.
    pub next_on_miss: bool,
}

impl WaitVblankFlags {
    /// The flag bits this set contributes to the request-type word.
    pub open spec fn spec_bits(self) -> u32 {
        (if self.event {
            VBLANK_EVENT
        } else {
            0u32
        }) | (if self.next_on_miss {
            VBLANK_NEXT_ON_MISS
        } else {
            0u32
        })
    }

    /// No flag set: block until the target sequence is reached.
    pub fn empty() -> (f: Self)
        ensures
            !f.event,
            !f.next_on_miss,
    {
        WaitVblankFlags { event: false, next_on_miss: false }
    }

    /// Computes the flag bits of the request-type word.
    pub fn bits(self) -> (r: u32)
        ensures
            r == self.spec_bits(),
    {
        (if self.event {
            VBLANK_EVENT
        } else {
            0u32
        }) | (if self.next_on_miss {
            VBLANK_NEXT_ON_MISS
        } else {
            0u32
        })
    }
}

/// The direction bit a target contributes to the request-type word.
pub open spec fn direction_bits(target: WaitVblankTarget) -> u32 {
    match target {
        WaitVblankTarget::Absolute(_) => VBLANK_ABSOLUTE,
        WaitVblankTarget::Relative(_) => VBLANK_RELATIVE,
    }
}

/// The sequence number a target asks to wait for.
pub open spec fn target_sequence(target: WaitVblankTarget) -> u32 {
    match target {
        WaitVblankTarget::Absolute(n) => n,
        WaitVblankTarget::Relative(n) => n,
    }
}

/// Whether a CRTC index can be packed into the reserved high-order
/// field of the request-type word at all.
pub open spec fn crtc_index_fits(crtc_index: u32) -> bool {
    crtc_index <= VBLANK_HIGH_CRTC_MASK >> VBLANK_HIGH_CRTC_SHIFT
}

/// The packed request-type word of a wait request: direction bit,
/// shifted CRTC index, and behaviour flags.
pub open spec fn request_type_word(
    target: WaitVblankTarget,
    flags: WaitVblankFlags,
    crtc_index: u32,
) -> u32 {
    direction_bits(target) | (crtc_index << VBLANK_HIGH_CRTC_SHIFT) | flags.spec_bits()
}

/// A CRTC index fits exactly when it is at most 31, and exactly when
/// its shifted encoding collides with none of the bits reserved for the
/// direction and behaviour flags.
pub proof fn lemma_crtc_index_collision(crtc_index: u32)
    ensures
        crtc_index_fits(crtc_index) <==> crtc_index <= 31,
        crtc_index_fits(crtc_index) <==> (((crtc_index as u64) << 1) & !0x3Eu64) == 0,
{
    assert(VBLANK_HIGH_CRTC_MASK >> VBLANK_HIGH_CRTC_SHIFT == 31) by (bit_vector);
    assert(crtc_index <= 31 <==> (((crtc_index as u64) << 1) & !0x3Eu64) == 0) by (bit_vector);
}

/// Packing the three components of the request-type word loses nothing:
/// each of the direction bit, the CRTC index and either behaviour flag
/// is recovered from the packed word by masking its own field.
pub proof fn lemma_request_word_packs_independently(
    target: WaitVblankTarget,
    flags: WaitVblankFlags,
    crtc_index: u32,
)
    requires
        crtc_index_fits(crtc_index),
    ensures
        request_type_word(target, flags, crtc_index) & 0x1 == direction_bits(target),
        (request_type_word(target, flags, crtc_index) & VBLANK_HIGH_CRTC_MASK)
            >> VBLANK_HIGH_CRTC_SHIFT == crtc_index,
        request_type_word(target, flags, crtc_index) & VBLANK_EVENT == (if flags.event {
            VBLANK_EVENT
        } else {
            0u32
        }),
        request_type_word(target, flags, crtc_index) & VBLANK_NEXT_ON_MISS == (
        if flags.next_on_miss {
            VBLANK_NEXT_ON_MISS
        } else {
            0u32
        }),
{
    lemma_crtc_index_collision(crtc_index);
    let dir = direction_bits(target);
    let ev: u32 = if flags.event {
        VBLANK_EVENT
    } else {
        0u32
    };
    let nom: u32 = if flags.next_on_miss {
        VBLANK_NEXT_ON_MISS
    } else {
        0u32
    };
    assert(request_type_word(target, flags, crtc_index) == dir | (crtc_index << 1) | (ev | nom));
    lemma_pack_fields(dir, ev, nom, crtc_index);
}

proof fn lemma_pack_fields(dir: u32, ev: u32, nom: u32, idx: u32)
    by (bit_vector)
    requires
        dir == 0 || dir == 1,
        ev == 0 || ev == 0x0400_0000u32,
        nom == 0 || nom == 0x1000_0000u32,
        idx <= 31,
    ensures
        (dir | (idx << 1u32) | (ev | nom)) & 0x1 == dir,
        ((dir | (idx << 1u32) | (ev | nom)) & 0x3E) >> 1u32 == idx,
        (dir | (idx << 1u32) | (ev | nom)) & 0x0400_0000u32 == ev,
        (dir | (idx << 1u32) | (ev | nom)) & 0x1000_0000u32 == nom,
{
}

/// Encodes one wait request: the packed request-type word and the
/// sequence number to hand to the control channel. An index whose
/// shifted encoding would collide with reserved bits is rejected here,
/// before any request is issued.
pub fn encode_wait_request(
    target: WaitVblankTarget,
    flags: WaitVblankFlags,
    crtc_index: u32,
) -> (r: Result<(u32, u32), SystemError>)
    ensures
        crtc_index_fits(crtc_index) ==> r == Ok::<(u32, u32), SystemError>(
            (request_type_word(target, flags, crtc_index), target_sequence(target)),
        ),
        !crtc_index_fits(crtc_index) ==> r == Err::<(u32, u32), SystemError>(
            SystemError::InvalidArgument,
        ),
{
    if crtc_index > VBLANK_HIGH_CRTC_MASK >> VBLANK_HIGH_CRTC_SHIFT {
        return Err(SystemError::InvalidArgument);
    }
    let high_crtc = crtc_index << VBLANK_HIGH_CRTC_SHIFT;
    let (sequence, direction) = match target {
        WaitVblankTarget::Absolute(n) => (n, VBLANK_ABSOLUTE),
        WaitVblankTarget::Relative(n) => (n, VBLANK_RELATIVE),
    };
    Ok((direction | high_crtc | flags.bits(), sequence))
}

/// The raw reply of one wait request, as the control channel hands it
/// over.
#[derive(Debug, Clone, Copy, PartialEq, Eq, Hash, Structural)]
pub struct RawVblankReply {
    /// The request-type word echoed by the kernel.
    pub reply_type: u32,
    /// The absolute frame sequence that was reached.
    pub sequence: u32,
    /// Timestamp seconds; 0 together with zero microseconds means no
    /// timestamp was taken.
    pub tval_sec: u64,
    /// Timestamp microseconds.
    pub tval_usec: u32,
}

/// The instant a vblank occurred, in seconds and nanoseconds.
#[derive(Debug, Clone, Copy, PartialEq, Eq, Hash, Structural)]
pub struct VblankTimestamp {
    /// Whole seconds.
    pub secs: u64,
    /// Nanoseconds beyond the whole seconds, converted from the
    /// microsecond resolution of the reply.
    pub nanos: u64,
}

/// The timestamp decoded from a reply's timestamp pair: `None` when
/// both components are exactly zero (the sentinel for "an event was
/// requested instead of a synchronous timestamp"), otherwise the
/// reported instant with microseconds converted to nanoseconds.
pub open spec fn decoded_time(sec: u64, usec: u32) -> Option<VblankTimestamp> {
    if sec == 0 && usec == 0 {
        None
    } else {
        Some(VblankTimestamp { secs: sec, nanos: (usec * 1000) as u64 })
    }
}

/// The reply's request-type word must equal the request's word with the
/// direction bits masked out.
pub open spec fn expected_reply_type(request_type: u32, target: WaitVblankTarget) -> u32 {
    request_type & !direction_bits(target)
}

/// The decoded reply of one vblank wait.
#[derive(Debug, Clone, Copy, PartialEq, Eq, Hash, Structural)]
pub struct WaitVblankReply {
    frame: u32,
    time: Option<VblankTimestamp>,
}

impl WaitVblankReply {
    /// The absolute frame sequence at which the vblank occurred.
    pub closed spec fn spec_frame(&self) -> u32 {
        self.frame
    }

    /// The decoded timestamp, `None` when the reply carried the
    /// all-zero sentinel.
    pub closed spec fn spec_time(&self) -> Option<VblankTimestamp> {
        self.time
    }

    /// The absolute frame sequence at which the vblank occurred.
    pub fn frame(&self) -> (r: u32)
        ensures
            r == self.spec_frame(),
    {
        self.frame
    }

    /// The time at which the vblank occurred; `None` if an asynchronous
    /// event was requested instead.
    pub fn time(&self) -> (r: Option<VblankTimestamp>)
        ensures
            r == self.spec_time(),
    {
        self.time
    }
}

/// Decodes one raw wait reply against the request it answers. A reply
/// whose direction bits disagree with the request broke the protocol:
/// it is rejected as a defect and not interpreted any further. The
/// frame sequence is passed through unchanged; the timestamp pair is
/// decoded with the all-zero sentinel mapped to `None`.
pub fn decode_wait_reply(
    request_type: u32,
    target: WaitVblankTarget,
    raw: RawVblankReply,
) -> (r: Result<WaitVblankReply, SystemError>)
    ensures
        raw.reply_type == expected_reply_type(request_type, target) ==> (r matches Ok(rep)
            && rep.spec_frame() == raw.sequence && rep.spec_time() == decoded_time(
            raw.tval_sec,
            raw.tval_usec,
        )),
        raw.reply_type != expected_reply_type(request_type, target) ==> r == Err::<
            WaitVblankReply,
            SystemError,
        >(SystemError::ProtocolDefect),
{
    let direction = match target {
        WaitVblankTarget::Absolute(_) => VBLANK_ABSOLUTE,
        WaitVblankTarget::Relative(_) => VBLANK_RELATIVE,
    };
    if raw.reply_type != request_type & !direction {
        return Err(SystemError::ProtocolDefect);
    }
    let time = if raw.tval_sec == 0 && raw.tval_usec == 0 {
        None
    } else {
        Some(VblankTimestamp { secs: raw.tval_sec, nanos: (raw.tval_usec as u64) * 1000 })
    };
    Ok(WaitVblankReply { frame: raw.sequence, time })
}

} // verus!
