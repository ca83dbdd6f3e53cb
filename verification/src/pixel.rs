//! The pixel type shared by every backend: four 8-bit channels, fixed RGBA
//! order.

use vstd::prelude::*;

verus! {

/// One RGBA pixel. All four channels are always in `[0, 255]` by type; the
/// channel order is fixed and identical across all backends.
#[derive(Clone, Copy, PartialEq, Eq, Structural, Debug)]
pub struct Pixel {
    pub r: u8,
    pub g: u8,
    pub b: u8,
    pub a: u8,
}

impl Pixel {
    /// Builds a pixel from its four channels.
    pub fn new(r: u8, g: u8, b: u8, a: u8) -> (p: Pixel)
        ensures
            p == (Pixel { r, g, b, a }),
    {
        Pixel { r, g, b, a }
    }

    /// A fully opaque pixel with the given color channels.
    pub fn opaque(r: u8, g: u8, b: u8) -> (p: Pixel)
        ensures
            p == (Pixel { r, g, b, a: 255u8 }),
    {
        Pixel { r, g, b, a: 255 }
    }
}

/// The pixel stored at index `k` of a flat interleaved RGBA byte buffer.
pub open spec fn pixel_at(d: Seq<u8>, k: int) -> Pixel {
    Pixel { r: d[4 * k], g: d[4 * k + 1], b: d[4 * k + 2], a: d[4 * k + 3] }
}

/// Channel `j` (0 = R, 1 = G, 2 = B, 3 = A) of a pixel, for byte-level
/// statements about interleaved buffers.
pub open spec fn channel_of(p: Pixel, j: int) -> u8 {
    if j == 0 {
        p.r
    } else if j == 1 {
        p.g
    } else if j == 2 {
        p.b
    } else {
        p.a
    }
}

} // verus!
