//! A stub of the pixel-processing unit: it owns a frame buffer and a tick
//! hook, but produces no pixels. The bus gates VRAM and OAM accesses by
//! the mode bits mirrored in STAT.

use vstd::prelude::*;
use crate::bus::Bus;

verus! {

/// Width of the visible frame in pixels.
pub const GB_W: usize = 160;

/// Height of the visible frame in pixels.
pub const GB_H: usize = 144;

/// Number of pixels in one frame.
pub const FB_LEN: usize = 23040;

/// The pixel-processing unit stub; the frame holds one RGBA word per pixel.
pub struct Ppu {
    /// The frame being drawn, one RGBA word per pixel.
    pub frame: Vec<u32>,
}

impl Ppu {
    /// A PPU with a black frame.
    pub fn new() -> (ppu: Ppu)
        ensures
            ppu.frame@.len() == FB_LEN,
    {
        let mut frame: Vec<u32> = Vec::new();
        let mut k: usize = 0;
        while k < FB_LEN
            invariant
                k <= FB_LEN,
                frame@.len() == k,
            decreases FB_LEN - k,
        {
            frame.push(0);
            k = k + 1;
        }
        Ppu { frame }
    }

    /// One T-cycle of the stub: no observable work.
    pub fn tick(&mut self, bus: &mut Bus)
        ensures
            *final(self) == *old(self),
            *final(bus) == *old(bus),
    {
        let _ = bus;
    }
}

} // verus!
