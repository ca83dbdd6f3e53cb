//! The opaque-background fast path: under the caller-owned premise that the
//! background alpha is 255 the composited alpha is 255 as well, so the final
//! division and the lookup table drop out and each channel is one widened
//! multiply-add followed by a right shift by 8.

use vstd::prelude::*;

use crate::backend::BlendError;
use crate::formula::lemma_opaque_channel_bounds;
use crate::formula::opaque_blend;
use crate::formula::opaque_blended;
use crate::formula::opaque_channel;
use crate::pixel::Pixel;
use crate::pixel::channel_of;
use crate::pixel::pixel_at;
use crate::raster::Image;

verus! {

/// The high byte of a widened 16-bit lane: `x >> 8`, which is `x / 256`.
/// This is the narrowing step every fast-path channel ends with.
pub(crate) fn lane_high_byte(x: u16) -> (b: u8)
    ensures
        b == x as int / 256,
{
    assert(x >> 8u16 == x / 256 && x / 256 < 256) by (bit_vector);
    (x >> 8u16) as u8
}

/// One fast-path output color channel: `(s*a + (255 - a)*d) >> 8`, computed
/// in a widened 16-bit lane so the multiply-add cannot overflow.
pub(crate) fn opaque_fast_channel(s: u8, d: u8, a: u8) -> (c: u8)
    ensures
        c == opaque_channel(s as int, d as int, a as int),
{
    proof {
        lemma_opaque_channel_bounds(s as int, d as int, a as int);
    }
    let aw = a as u16;
    // 255 - a cannot underflow: a is an 8-bit value, so no saturation is
    // ever needed here even though the lane instruction this mirrors
    // subtracts saturating.
    let na: u16 = 255 - aw;
    let lane: u16 = (s as u16) * aw + na * (d as u16);
    lane_high_byte(lane)
}

/// The fast path's output for one pixel pair: blended color channels, the
/// output alpha forced to exactly 255 — never left data-dependent.
pub fn opaque_blend_pixel(bg: Pixel, fg: Pixel) -> (out: Pixel)
    ensures
        out == opaque_blend(bg, fg),
{
    Pixel {
        r: opaque_fast_channel(fg.r, bg.r, fg.a),
        g: opaque_fast_channel(fg.g, bg.g, fg.a),
        b: opaque_fast_channel(fg.b, bg.b, fg.a),
        a: 255,
    }
}

/// Composites `fg` over `bg` in place with the opaque-background fast path.
/// The premise that `bg` is fully opaque is the caller's to keep (it is not
/// checked, matching the fast path's role as an inner loop); the output is
/// pinned to the fast-path formula for every input either way. Fails only
/// on a dimension mismatch, detected before any pixel work.
pub fn composite_opaque(bg: &mut Image, fg: &Image) -> (r: Result<(), BlendError>)
    requires
        old(bg).wf(),
        fg.wf(),
    ensures
        final(bg).wf(),
        final(bg).same_dims(old(bg)),
        r is Ok <==> old(bg).same_dims(fg),
        r is Ok ==> final(bg)@ == opaque_blended(old(bg)@, fg@),
        r is Err ==> r->Err_0 == BlendError::DimensionMismatch && final(bg)@ == old(bg)@,
{
    if bg.width() != fg.width() || bg.height() != fg.height() {
        return Err(BlendError::DimensionMismatch);
    }
    let n = bg.bytes().len();
    let count = n / 4;
    proof {
        let w = old(bg).spec_width() as int;
        let h = old(bg).spec_height() as int;
        assert(4 * w * h == 4 * (w * h)) by (nonlinear_arith);
        vstd::arithmetic::div_mod::lemma_div_multiples_vanish(w * h, 4);
    }
    assert(4 * count == n && fg@.len() == n);
    let mut k: usize = 0;
    while k < count
        invariant
            0 <= k <= count,
            bg.wf(),
            bg.same_dims(old(bg)),
            bg@.len() == n,
            old(bg)@.len() == n,
            fg@.len() == n,
            4 * count == n,
            forall|i: int| 0 <= i < 4 * k ==> bg@[i] == #[trigger] opaque_blended(old(bg)@, fg@)[i],
            forall|i: int| 4 * k <= i < n ==> #[trigger] bg@[i] == old(bg)@[i],
        decreases count - k,
    {
        let bp = bg.load_pixel(k);
        let fp = fg.load_pixel(k);
        assert(bp == pixel_at(old(bg)@, k as int));
        let op = opaque_blend_pixel(bp, fp);
        bg.store_pixel(k, op);
        proof {
            assert forall|i: int| 4 * k <= i < 4 * (k + 1) implies bg@[i] == #[trigger] opaque_blended(
                old(bg)@,
                fg@,
            )[i] by {
                assert(i / 4 == k as int && channel_of(op, i % 4) == bg@[i]);
            }
        }
        k = k + 1;
    }
    proof {
        assert(bg@ =~= opaque_blended(old(bg)@, fg@));
    }
    Ok(())
}

} // verus!
