//! The reference backend: the exact src-over formula, evaluated pixel by
//! pixel in integer arithmetic wide enough to lose nothing, with the final
//! scaled channel truncated. Every other backend's output is judged against
//! this one.

use vstd::prelude::*;

use crate::backend::BlendError;
use crate::formula::lemma_reference_bounds;
use crate::formula::lemma_src_over_den_bounds;
use crate::formula::reference_blend;
use crate::formula::reference_blended;
use crate::formula::reference_channel;
use crate::formula::src_over_den;
use crate::formula::src_over_num;
use crate::pixel::Pixel;
use crate::pixel::channel_of;
use crate::pixel::pixel_at;
use crate::raster::Image;

verus! {

/// One exact output color channel: `(255*s*a + d*da*(255 - a)) / den`,
/// truncated. The caller has already ruled out a zero denominator.
fn exact_channel(s: u8, d: u8, a: u8, da: u8) -> (c: u8)
    requires
        src_over_den(a as int, da as int) > 0,
    ensures
        c == reference_channel(s as int, d as int, a as int, da as int),
{
    proof {
        lemma_reference_bounds(s as int, d as int, a as int, da as int);
    }
    let sw = s as u32;
    let dw = d as u32;
    let aw = a as u32;
    let daw = da as u32;
    proof {
        assert(255 * sw <= 65025 && 255 * sw * aw <= 16581375 && dw * daw <= 65025 && dw * daw * (
        255 - aw) <= 16581375 && 255 * aw + daw * (255 - aw) <= 65025) by (nonlinear_arith)
            requires
                sw <= 255,
                dw <= 255,
                aw <= 255,
                daw <= 255,
        ;
    }
    let num: u32 = 255 * sw * aw + dw * daw * (255 - aw);
    let den: u32 = 255 * aw + daw * (255 - aw);
    assert(num == src_over_num(s as int, d as int, a as int, da as int));
    assert(den == src_over_den(a as int, da as int));
    (num / den) as u8
}

/// The reference backend's output for one pixel pair. When both inputs are
/// fully transparent the composited alpha is zero and the background pixel
/// is returned unchanged.
pub fn reference_blend_pixel(bg: Pixel, fg: Pixel) -> (out: Pixel)
    ensures
        out == reference_blend(bg, fg),
{
    proof {
        lemma_src_over_den_bounds(fg.a as int, bg.a as int);
    }
    let aw = fg.a as u32;
    let daw = bg.a as u32;
    proof {
        assert(daw * (255 - aw) <= 65025) by (nonlinear_arith)
            requires
                aw <= 255,
                daw <= 255,
        ;
    }
    let den: u32 = 255 * aw + daw * (255 - aw);
    if den == 0 {
        return bg;
    }
    proof {
        lemma_reference_bounds(fg.r as int, bg.r as int, fg.a as int, bg.a as int);
    }
    let out_a: u8 = (den / 255) as u8;
    Pixel {
        r: exact_channel(fg.r, bg.r, fg.a, bg.a),
        g: exact_channel(fg.g, bg.g, fg.a, bg.a),
        b: exact_channel(fg.b, bg.b, fg.a, bg.a),
        a: out_a,
    }
}

/// Composites `fg` over `bg` in place with the exact formula. Fails only on
/// a dimension mismatch, detected before any pixel work.
pub fn composite_reference(bg: &mut Image, fg: &Image) -> (r: Result<(), BlendError>)
    requires
        old(bg).wf(),
        fg.wf(),
    ensures
        final(bg).wf(),
        final(bg).same_dims(old(bg)),
        r is Ok <==> old(bg).same_dims(fg),
        r is Ok ==> final(bg)@ == reference_blended(old(bg)@, fg@),
        r is Err ==> r->Err_0 == BlendError::DimensionMismatch && final(bg)@ == old(bg)@,
{
    if bg.width() != fg.width() || bg.height() != fg.height() {
        return Err(BlendError::DimensionMismatch);
    }
    let n = bg.bytes().len();
    let count = n / 4;
    proof {
        let w = old(bg).spec_width() as int;
        let h = old(bg).spec_height() as int;
        assert(4 * w * h == 4 * (w * h)) by (nonlinear_arith);
        vstd::arithmetic::div_mod::lemma_div_multiples_vanish(w * h, 4);
    }
    assert(4 * count == n && fg@.len() == n);
    let mut k: usize = 0;
    while k < count
        invariant
            0 <= k <= count,
            bg.wf(),
            bg.same_dims(old(bg)),
            bg@.len() == n,
            old(bg)@.len() == n,
            fg@.len() == n,
            4 * count == n,
            forall|i: int|
                0 <= i < 4 * k ==> bg@[i] == #[trigger] reference_blended(old(bg)@, fg@)[i],
            forall|i: int| 4 * k <= i < n ==> #[trigger] bg@[i] == old(bg)@[i],
        decreases count - k,
    {
        let bp = bg.load_pixel(k);
        let fp = fg.load_pixel(k);
        assert(bp == pixel_at(old(bg)@, k as int));
        let op = reference_blend_pixel(bp, fp);
        bg.store_pixel(k, op);
        proof {
            assert forall|i: int| 4 * k <= i < 4 * (k + 1) implies bg@[i] == #[trigger] reference_blended(
                old(bg)@,
                fg@,
            )[i] by {
                assert(i / 4 == k as int && channel_of(op, i % 4) == bg@[i]);
            }
        }
        k = k + 1;
    }
    proof {
        assert(bg@ =~= reference_blended(old(bg)@, fg@));
    }
    Ok(())
}

} // verus!
