//! Viewport dimensions and the pixel buffer a render produces.

use vstd::prelude::*;

verus! {

/// A requested viewport dimension clamped to the renderable range: anything
/// below one pixel becomes one pixel.
pub open spec fn clamped_dim(v: int) -> u32 {
    if v < 1 {
        1u32
    } else if v > u32::MAX {
        u32::MAX
    } else {
        v as u32
    }
}

/// Clamps a requested viewport dimension to a minimum of one pixel.
pub fn clamp_dimension(v: i32) -> (r: u32)
    ensures
        r == clamped_dim(v as int),
        r >= 1,
{
    if v < 1 {
        1
    } else {
        v as u32
    }
}

/// A width × height array of RGBA8 pixels, row-major, four bytes per pixel;
/// the output of rasterization and the input of encoding. Exclusively owned
/// by one render call.
pub struct PixelBuffer {
    /// Width in pixels.
    pub width: u32,
    /// Height in pixels.
    pub height: u32,
    /// Raw RGBA bytes, row-major, four bytes per pixel.
    pub data: Vec<u8>,
}

impl PixelBuffer {
    /// The buffer holds exactly four bytes for each of its width × height
    /// pixels.
    pub open spec fn wf(self) -> bool {
        self.data@.len() == 4 * (self.width as int) * (self.height as int)
    }
}

/// Clamping never yields a zero dimension, so no downstream stage can fail on
/// account of a zero-sized viewport alone.
pub proof fn lemma_clamped_dim_positive(v: int)
    ensures
        clamped_dim(v) >= 1,
{
}

} // verus!
