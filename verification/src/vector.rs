//! The lane-parallel backends: the opaque-background fast path computed for
//! a batch of pixels per step rather than one pixel per loop iteration.
//!
//! The narrow variant mirrors a 128-bit integer register: two interleaved
//! RGBA pixels are loaded at once, deinterleaved into widened 16-bit channel
//! lanes (8-bit times 8-bit needs 16-bit headroom), the foreground alpha is
//! broadcast across its pixel's three color lanes, one lane-wise
//! multiply-add computes `s*a + (255 - a)*d` for all lanes, each lane is
//! re-narrowed to its high byte, and the result is reinterleaved with the
//! alpha byte of every output pixel forced to 255.
//!
//! The wide variant mirrors a 256-bit register processing four pixels per
//! step. A 256-bit byte shuffle cannot move bytes across its two 128-bit
//! halves, so the wide kernel is built half-by-half: each step runs the
//! two-pixel lane kernel once per half.
//!
//! Buffers whose pixel count is not a multiple of the batch width are
//! finished by a scalar remainder loop over the same formula; both variants
//! are pinned to exactly the sequence the scalar fast path produces.

use vstd::prelude::*;

use crate::backend::BlendError;
use crate::formula::lemma_opaque_channel_bounds;
use crate::formula::opaque_blend;
use crate::formula::opaque_blended;
use crate::formula::opaque_channel;
use crate::opaque::lane_high_byte;
use crate::opaque::opaque_blend_pixel;
use crate::pixel::Pixel;
use crate::pixel::channel_of;
use crate::pixel::pixel_at;
use crate::raster::Image;

verus! {

/// One two-pixel batch in widened 16-bit lanes: the lane arithmetic of the
/// 128-bit kernel, covering pixels `k` and `k + 1`.
fn blend_pair(bg: &mut Image, fg: &Image, k: usize)
    requires
        old(bg).wf(),
        fg.wf(),
        old(bg)@.len() == fg@.len(),
        4 * k + 7 < old(bg)@.len(),
    ensures
        final(bg).wf(),
        final(bg).same_dims(old(bg)),
        final(bg)@.len() == old(bg)@.len(),
        forall|i: int|
            0 <= i < old(bg)@.len() && !(4 * k <= i < 4 * k + 8) ==> final(bg)@[i] == old(
                bg,
            )@[i],
        forall|i: int|
            4 * k <= i < 4 * k + 8 ==> final(bg)@[i] == channel_of(
                opaque_blend(pixel_at(old(bg)@, i / 4), pixel_at(fg@, i / 4)),
                i % 4,
            ),
{
    let n = bg.bytes().len();
    assert(4 * k + 7 < n);
    // One 8-byte load per buffer: two interleaved RGBA pixels.
    let b0 = bg.load_pixel(k);
    let b1 = bg.load_pixel(k + 1);
    let f0 = fg.load_pixel(k);
    let f1 = fg.load_pixel(k + 1);
    // Alpha broadcast: each foreground alpha replicated over its pixel's
    // three color lane positions, already widened to 16 bits.
    let a0: u16 = f0.a as u16;
    let a1: u16 = f1.a as u16;
    // `255 - alpha` per lane. The register kernel subtracts saturating; an
    // 8-bit alpha can never exceed 255, so the subtraction is proved never
    // to underflow.
    let na0: u16 = 255 - a0;
    let na1: u16 = 255 - a1;
    proof {
        lemma_opaque_channel_bounds(f0.r as int, b0.r as int, f0.a as int);
        lemma_opaque_channel_bounds(f0.g as int, b0.g as int, f0.a as int);
        lemma_opaque_channel_bounds(f0.b as int, b0.b as int, f0.a as int);
        lemma_opaque_channel_bounds(f1.r as int, b1.r as int, f1.a as int);
        lemma_opaque_channel_bounds(f1.g as int, b1.g as int, f1.a as int);
        lemma_opaque_channel_bounds(f1.b as int, b1.b as int, f1.a as int);
    }
    // Lane-wise multiply-add in the widened lanes; the sum is at most
    // 255 * 255, so the 16-bit lanes cannot overflow.
    let lane_r0: u16 = (f0.r as u16) * a0 + na0 * (b0.r as u16);
    let lane_g0: u16 = (f0.g as u16) * a0 + na0 * (b0.g as u16);
    let lane_b0: u16 = (f0.b as u16) * a0 + na0 * (b0.b as u16);
    let lane_r1: u16 = (f1.r as u16) * a1 + na1 * (b1.r as u16);
    let lane_g1: u16 = (f1.g as u16) * a1 + na1 * (b1.g as u16);
    let lane_b1: u16 = (f1.b as u16) * a1 + na1 * (b1.b as u16);
    // Re-narrow each lane to its high byte and reinterleave, forcing the
    // alpha byte of both output pixels to 255.
    let out0 = Pixel {
        r: lane_high_byte(lane_r0),
        g: lane_high_byte(lane_g0),
        b: lane_high_byte(lane_b0),
        a: 255,
    };
    let out1 = Pixel {
        r: lane_high_byte(lane_r1),
        g: lane_high_byte(lane_g1),
        b: lane_high_byte(lane_b1),
        a: 255,
    };
    assert(out0 == opaque_blend(b0, f0) && out1 == opaque_blend(b1, f1));
    bg.store_pixel(k, out0);
    bg.store_pixel(k + 1, out1);
    proof {
        assert forall|i: int| 4 * k <= i < 4 * k + 8 implies bg@[i] == channel_of(
            opaque_blend(pixel_at(old(bg)@, i / 4), pixel_at(fg@, i / 4)),
            i % 4,
        ) by {
            if i < 4 * k + 4 {
                assert(i / 4 == k as int);
            } else {
                assert(i / 4 == k + 1);
            }
        }
    }
}

/// The shared whole-buffer shape of both lane backends: batches of
/// `batch` pixels (2 or 4) over the aligned middle, then a scalar remainder
/// loop for the trailing partial batch.
fn composite_batched(bg: &mut Image, fg: &Image, wide: bool) -> (r: Result<(), BlendError>)
    requires
        old(bg).wf(),
        fg.wf(),
    ensures
        final(bg).wf(),
        final(bg).same_dims(old(bg)),
        r is Ok <==> old(bg).same_dims(fg),
        r is Ok ==> final(bg)@ == opaque_blended(old(bg)@, fg@),
        r is Err ==> r->Err_0 == BlendError::DimensionMismatch && final(bg)@ == old(bg)@,
{
    if bg.width() != fg.width() || bg.height() != fg.height() {
        return Err(BlendError::DimensionMismatch);
    }
    let n = bg.bytes().len();
    let count = n / 4;
    proof {
        let w = old(bg).spec_width() as int;
        let h = old(bg).spec_height() as int;
        assert(4 * w * h == 4 * (w * h)) by (nonlinear_arith);
        vstd::arithmetic::div_mod::lemma_div_multiples_vanish(w * h, 4);
    }
    assert(4 * count == n && fg@.len() == n);
    let batch: usize = if wide {
        4
    } else {
        2
    };
    let mut k: usize = 0;
    while k + batch <= count
        invariant
            0 <= k <= count,
            batch == 2 || batch == 4,
            fg.wf(),
            bg.wf(),
            bg.same_dims(old(bg)),
            bg@.len() == n,
            old(bg)@.len() == n,
            fg@.len() == n,
            4 * count == n,
            forall|i: int| 0 <= i < 4 * k ==> bg@[i] == #[trigger] opaque_blended(old(bg)@, fg@)[i],
            forall|i: int| 4 * k <= i < n ==> #[trigger] bg@[i] == old(bg)@[i],
        decreases count - k,
    {
        let ghost pre = bg@;
        blend_pair(bg, fg, k);
        let ghost mid = bg@;
        if batch == 4 {
            blend_pair(bg, fg, k + 2);
        }
        proof {
            assert forall|i: int| 4 * k <= i < 4 * (k + batch) implies bg@[i]
                == #[trigger] opaque_blended(old(bg)@, fg@)[i] by {
                let p = i / 4;
                assert(4 * k <= 4 * p && 4 * p + 3 < 4 * (k + batch));
                assert(pixel_at(pre, p) == pixel_at(old(bg)@, p));
                if i < 4 * k + 8 {
                    assert(mid[i] == channel_of(
                        opaque_blend(pixel_at(pre, p), pixel_at(fg@, p)),
                        i % 4,
                    ));
                    assert(bg@[i] == mid[i]);
                } else {
                    assert(pixel_at(mid, p) == pixel_at(pre, p));
                    assert(bg@[i] == channel_of(
                        opaque_blend(pixel_at(mid, p), pixel_at(fg@, p)),
                        i % 4,
                    ));
                }
            }
        }
        k = k + batch;
    }
    // Scalar remainder: the partial batch past the aligned middle.
    while k < count
        invariant
            0 <= k <= count,
            fg.wf(),
            bg.wf(),
            bg.same_dims(old(bg)),
            bg@.len() == n,
            old(bg)@.len() == n,
            fg@.len() == n,
            4 * count == n,
            forall|i: int| 0 <= i < 4 * k ==> bg@[i] == #[trigger] opaque_blended(old(bg)@, fg@)[i],
            forall|i: int| 4 * k <= i < n ==> #[trigger] bg@[i] == old(bg)@[i],
        decreases count - k,
    {
        let bp = bg.load_pixel(k);
        let fp = fg.load_pixel(k);
        assert(bp == pixel_at(old(bg)@, k as int));
        let op = opaque_blend_pixel(bp, fp);
        bg.store_pixel(k, op);
        proof {
            assert forall|i: int| 4 * k <= i < 4 * (k + 1) implies bg@[i] == #[trigger] opaque_blended(
                old(bg)@,
                fg@,
            )[i] by {
                assert(i / 4 == k as int && channel_of(op, i % 4) == bg@[i]);
            }
        }
        k = k + 1;
    }
    proof {
        assert(bg@ =~= opaque_blended(old(bg)@, fg@));
    }
    Ok(())
}

/// The narrow lane backend: two pixels per batch, as 128-bit registers
/// carry them. Produces exactly the scalar fast path's output sequence.
pub fn composite_vector_narrow(bg: &mut Image, fg: &Image) -> (r: Result<(), BlendError>)
    requires
        old(bg).wf(),
        fg.wf(),
    ensures
        final(bg).wf(),
        final(bg).same_dims(old(bg)),
        r is Ok <==> old(bg).same_dims(fg),
        r is Ok ==> final(bg)@ == opaque_blended(old(bg)@, fg@),
        r is Err ==> r->Err_0 == BlendError::DimensionMismatch && final(bg)@ == old(bg)@,
{
    composite_batched(bg, fg, false)
}

/// The wide lane backend: four pixels per batch as two independently
/// shuffled two-pixel halves, as 256-bit registers carry them. Produces
/// exactly the scalar fast path's output sequence.
pub fn composite_vector_wide(bg: &mut Image, fg: &Image) -> (r: Result<(), BlendError>)
    requires
        old(bg).wf(),
        fg.wf(),
    ensures
        final(bg).wf(),
        final(bg).same_dims(old(bg)),
        r is Ok <==> old(bg).same_dims(fg),
        r is Ok ==> final(bg)@ == opaque_blended(old(bg)@, fg@),
        r is Err ==> r->Err_0 == BlendError::DimensionMismatch && final(bg)@ == old(bg)@,
{
    composite_batched(bg, fg, true)
}

} // verus!
