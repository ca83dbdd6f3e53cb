//! The fixed-point backend: the src-over formula in premultiplied integer
//! form with denominator 255 (every division truncates, biasing each step
//! down by less than one unit), and the final unmultiply step served by the
//! precomputed lookup table instead of a runtime division.

use vstd::prelude::*;

use crate::backend::BlendError;
use crate::formula::fixed_alpha;
use crate::formula::fixed_blend;
use crate::formula::fixed_blended;
use crate::formula::fixed_channel;
use crate::formula::fixed_premul_channel;
use crate::formula::lemma_fixed_alpha_bounds;
use crate::formula::lemma_fixed_premul_channel_bounds;
use crate::formula::lemma_premul_bounds;
use crate::formula::premul;
use crate::pixel::Pixel;
use crate::pixel::channel_of;
use crate::pixel::pixel_at;
use crate::raster::Image;
use crate::table::UnmultiplyTable;

verus! {

/// One fixed-point output color channel: premultiply both inputs, combine,
/// then unmultiply by the (already clamped, nonzero) composited alpha
/// through the table.
fn fixed_point_channel(table: &UnmultiplyTable, s: u8, d: u8, a: u8, da: u8, af: u8) -> (c: u8)
    requires
        table.wf(),
        af == fixed_alpha(a as int, da as int),
        af >= 1,
    ensures
        c == fixed_channel(s as int, d as int, a as int, da as int),
{
    proof {
        lemma_premul_bounds(s as int, a as int);
        lemma_premul_bounds(d as int, da as int);
        lemma_fixed_premul_channel_bounds(s as int, d as int, a as int, da as int);
        assert((s as int) * (a as int) <= 65025 && (d as int) * (da as int) <= 65025 && (255 - (
        a as int)) * premul(d as int, da as int) <= 65025) by (nonlinear_arith)
            requires
                0 <= s as int <= 255,
                0 <= d as int <= 255,
                0 <= a as int <= 255,
                0 <= da as int <= 255,
                0 <= premul(d as int, da as int) <= 255,
        ;
    }
    let sp: u32 = (s as u32) * (a as u32) / 255;
    let dp: u32 = (d as u32) * (da as u32) / 255;
    let rp: u32 = sp + (255 - (a as u32)) * dp / 255;
    assert(rp == fixed_premul_channel(s as int, d as int, a as int, da as int));
    table.unmultiply(rp as u8, af)
}

/// The fixed-point backend's output for one pixel pair. The composited
/// alpha is clamped to 255 before it indexes the table — mandatory, since
/// the truncated integer formula can land one above the representable
/// range — and when it is zero (both inputs fully transparent) the
/// background pixel is returned unchanged.
pub fn fixed_blend_pixel(table: &UnmultiplyTable, bg: Pixel, fg: Pixel) -> (out: Pixel)
    requires
        table.wf(),
    ensures
        out == fixed_blend(bg, fg),
{
    proof {
        lemma_fixed_alpha_bounds(fg.a as int, bg.a as int);
        lemma_premul_bounds(bg.a as int, fg.a as int);
        assert((bg.a as int) * (fg.a as int) <= 65025) by (nonlinear_arith)
            requires
                0 <= bg.a as int <= 255,
                0 <= fg.a as int <= 255,
        ;
    }
    let pa: u32 = (bg.a as u32) * (fg.a as u32) / 255;
    let af_raw: u32 = (bg.a as u32) + (fg.a as u32) - pa;
    let af: u32 = if af_raw > 255 {
        255
    } else {
        af_raw
    };
    assert(af == fixed_alpha(fg.a as int, bg.a as int));
    if af == 0 {
        return bg;
    }
    Pixel {
        r: fixed_point_channel(table, fg.r, bg.r, fg.a, bg.a, af as u8),
        g: fixed_point_channel(table, fg.g, bg.g, fg.a, bg.a, af as u8),
        b: fixed_point_channel(table, fg.b, bg.b, fg.a, bg.a, af as u8),
        a: af as u8,
    }
}

/// Composites `fg` over `bg` in place in fixed point. Fails only on a
/// dimension mismatch, detected before any pixel work.
pub fn composite_fixed(table: &UnmultiplyTable, bg: &mut Image, fg: &Image) -> (r: Result<
    (),
    BlendError,
>)
    requires
        table.wf(),
        old(bg).wf(),
        fg.wf(),
    ensures
        final(bg).wf(),
        final(bg).same_dims(old(bg)),
        r is Ok <==> old(bg).same_dims(fg),
        r is Ok ==> final(bg)@ == fixed_blended(old(bg)@, fg@),
        r is Err ==> r->Err_0 == BlendError::DimensionMismatch && final(bg)@ == old(bg)@,
{
    if bg.width() != fg.width() || bg.height() != fg.height() {
        return Err(BlendError::DimensionMismatch);
    }
    let n = bg.bytes().len();
    let count = n / 4;
    proof {
        let w = old(bg).spec_width() as int;
        let h = old(bg).spec_height() as int;
        assert(4 * w * h == 4 * (w * h)) by (nonlinear_arith);
        vstd::arithmetic::div_mod::lemma_div_multiples_vanish(w * h, 4);
    }
    assert(4 * count == n && fg@.len() == n);
    let mut k: usize = 0;
    while k < count
        invariant
            0 <= k <= count,
            table.wf(),
            bg.wf(),
            bg.same_dims(old(bg)),
            bg@.len() == n,
            old(bg)@.len() == n,
            fg@.len() == n,
            4 * count == n,
            forall|i: int| 0 <= i < 4 * k ==> bg@[i] == #[trigger] fixed_blended(old(bg)@, fg@)[i],
            forall|i: int| 4 * k <= i < n ==> #[trigger] bg@[i] == old(bg)@[i],
        decreases count - k,
    {
        let bp = bg.load_pixel(k);
        let fp = fg.load_pixel(k);
        assert(bp == pixel_at(old(bg)@, k as int));
        let op = fixed_blend_pixel(table, bp, fp);
        bg.store_pixel(k, op);
        proof {
            assert forall|i: int| 4 * k <= i < 4 * (k + 1) implies bg@[i] == #[trigger] fixed_blended(
                old(bg)@,
                fg@,
            )[i] by {
                assert(i / 4 == k as int && channel_of(op, i % 4) == bg@[i]);
            }
        }
        k = k + 1;
    }
    proof {
        assert(bg@ =~= fixed_blended(old(bg)@, fg@));
    }
    Ok(())
}

} // verus!
