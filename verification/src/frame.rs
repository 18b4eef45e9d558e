//! Frame geometry: byte sizes and row strides of packed 32-bit-pixel frames.

use vstd::prelude::*;

verus! {

/// Number of bytes needed to hold a frame of the given dimensions, at four
/// bytes per pixel.
pub open spec fn frame_bytes(width: u16, height: u16) -> int {
    width * height * 4
}

/// A frame with no pixels; presenting one is a no-op.
pub open spec fn zero_area(width: u16, height: u16) -> bool {
    width == 0 || height == 0
}

/// A frame's byte size is never negative and always fits in 64 bits: the
/// dimensions are 16-bit values.
pub proof fn lemma_frame_bytes_bounds(width: u16, height: u16)
    ensures
        0 <= frame_bytes(width, height) <= 17179344900,
{
    assert(0 <= width * height * 4 <= 65535 * 65535 * 4) by (nonlinear_arith)
        requires
            width <= 65535,
            height <= 65535,
    ;
}

/// Byte size of a frame. The product of two 16-bit dimensions and the four
/// bytes per pixel always fits in 64 bits, so the computation cannot
/// overflow.
pub fn frame_size_bytes(width: u16, height: u16) -> (r: u64)
    ensures
        r == frame_bytes(width, height),
{
    proof {
        assert((width as int) * (height as int) <= 65535 * 65535) by (nonlinear_arith)
            requires
                width <= 65535,
                height <= 65535,
        ;
    }
    (width as u64) * (height as u64) * 4
}

/// Bytes per row of a frame. Computed in 32 bits: the widest row, 65535
/// pixels, takes 262140 bytes.
pub fn stride_bytes(width: u16) -> (r: u32)
    ensures
        r == width * 4,
{
    (width as u32) * 4
}

} // verus!
