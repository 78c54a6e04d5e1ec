//! Sizes of the memory regions that the guest sees.

use vstd::prelude::*;

verus! {

/// Default size of the video memory: 128 MiB.
pub const DEFAULT_VRAM_LEN: usize = 0x8000000;

/// Lengths, in bytes, of the regions of a device. The regions themselves are
/// handed over as memory when the device is made.
#[derive(Debug, Clone, Copy, PartialEq, Eq, Structural)]
pub struct ChipConfig {
    /// Length of the FIFO region.
    pub fifo_len: usize,
    /// Length of the framebuffer region.
    pub fb_len: usize,
    /// Length of the video memory.
    pub vram_len: usize,
}

impl Default for ChipConfig {
    /// No FIFO, no framebuffer, and the default video memory.
    fn default() -> (config: Self)
        ensures
            config == (ChipConfig { fifo_len: 0, fb_len: 0, vram_len: DEFAULT_VRAM_LEN }),
    {
        ChipConfig { fifo_len: 0, fb_len: 0, vram_len: DEFAULT_VRAM_LEN }
    }
}

} // verus!
