//! The force-feedback return path: which consumer records travel back to
//! the owner of a device, and the rumble effect they describe.

use vstd::prelude::*;
use crate::protocol::{FeedbackEvent, LinuxInputEvent, EV_FF, FF_RUMBLE};
use crate::wire::{i32_bits, i32_to_bits};

verus! {

/// The magnitudes of a rumble command that still waits for its duration.
#[derive(Debug, Clone, Copy, PartialEq, Eq, Structural)]
pub struct RumbleDecoder {
    pub strong: u16,
    pub weak: u16,
}

/// The upper half of the 32-bit pattern of `value`.
pub open spec fn high_half(value: i32) -> u16 {
    (i32_bits(value) / 0x1_0000) as u16
}

/// The lower half of the 32-bit pattern of `value`.
pub open spec fn low_half(value: i32) -> u16 {
    (i32_bits(value) % 0x1_0000) as u16
}

/// The decoder after one record.
pub open spec fn decoder_after(d: RumbleDecoder, e: LinuxInputEvent) -> RumbleDecoder {
    if e.event_type == EV_FF && e.code == FF_RUMBLE && e.value != 0 {
        RumbleDecoder { strong: high_half(e.value), weak: low_half(e.value) }
    } else {
        d
    }
}

/// The effect one record completes: a rumble command of value zero stops
/// the rumble; any other rumble command only sets the magnitudes; the
/// record after it (code `FF_RUMBLE + 1`) carries the duration and
/// completes the effect. No other record completes anything.
pub open spec fn effect_of(d: RumbleDecoder, e: LinuxInputEvent) -> Option<FeedbackEvent> {
    if e.event_type != EV_FF {
        None
    } else if e.code == FF_RUMBLE {
        if e.value == 0 {
            Some(FeedbackEvent::RumbleStop)
        } else {
            None
        }
    } else if e.code == FF_RUMBLE + 1 {
        Some(
            FeedbackEvent::Rumble {
                strong_magnitude: d.strong,
                weak_magnitude: d.weak,
                duration_ms: low_half(e.value),
            },
        )
    } else {
        None
    }
}

impl RumbleDecoder {
    /// A decoder that has seen no command.
    pub fn new() -> (r: RumbleDecoder)
        ensures
            r == (RumbleDecoder { strong: 0, weak: 0 }),
    {
        RumbleDecoder { strong: 0, weak: 0 }
    }

    /// Takes one record in and returns the effect it completes.
    pub fn feed(&mut self, e: &LinuxInputEvent) -> (r: Option<FeedbackEvent>)
        ensures
            r == effect_of(*old(self), *e),
            *final(self) == decoder_after(*old(self), *e),
    {
        if e.event_type != EV_FF {
            return None;
        }
        let bits: u32 = i32_to_bits(e.value);
        if e.code == FF_RUMBLE {
            if e.value == 0 {
                Some(FeedbackEvent::RumbleStop)
            } else {
                self.strong = (bits / 0x1_0000) as u16;
                self.weak = (bits % 0x1_0000) as u16;
                None
            }
        } else if e.code == FF_RUMBLE + 1 {
            Some(
                FeedbackEvent::Rumble {
                    strong_magnitude: self.strong,
                    weak_magnitude: self.weak,
                    duration_ms: (bits % 0x1_0000) as u16,
                },
            )
        } else {
            None
        }
    }
}

} // verus!
