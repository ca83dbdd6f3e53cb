//! The compositing formula: premultiplied src-over blending, stated once as
//! mathematical spec functions and consumed by every backend.
//!
//! Channels and alphas are 8-bit values read as integers in `[0, 255]`.
//! Writing `s` for a foreground color channel, `d` for the matching
//! background channel, `a` for the foreground alpha and `da` for the
//! background alpha, the normalized src-over formula
//!
//! ```text
//! alpha_out = da + a - da * a
//! out       = (s * a + d * da * (1 - a)) / alpha_out        [alpha_out > 0]
//! ```
//!
//! (all terms in `[0, 1]`) scales to the integer forms below. Two forms are
//! given: the exact one, used by the reference backend, and a fixed-point
//! approximation with denominator 255 (the rounding bias of every division is
//! downward, by less than one unit per division), used by the table-driven
//! backend. The opaque-background fast path uses a right shift by 8, that is
//! denominator 256, in place of the final division.

use vstd::prelude::*;

use crate::arith::lemma_div_nonneg_bound;
use crate::arith::lemma_scale_div_le;
use crate::pixel::Pixel;
use crate::pixel::channel_of;
use crate::pixel::pixel_at;

verus! {

/// `x` capped at 255, the largest representable channel value.
pub open spec fn clamp255(x: int) -> int {
    if x > 255 {
        255
    } else {
        x
    }
}

// ---------------------------------------------------------------------------
// Exact form (reference backend).
// ---------------------------------------------------------------------------

/// Numerator of the exact src-over color channel, scaled by `255 * 255 * 255`
/// relative to the normalized formula: `255*s*a + d*da*(255 - a)`.
pub open spec fn src_over_num(s: int, d: int, a: int, da: int) -> int {
    255 * s * a + d * da * (255 - a)
}

/// Denominator of the exact src-over color channel: `255 * 255 * alpha_out`
/// in normalized terms, that is `255*a + da*(255 - a)`. It is zero exactly
/// when both inputs are fully transparent.
pub open spec fn src_over_den(a: int, da: int) -> int {
    255 * a + da * (255 - a)
}

/// The exact src-over color channel, truncated to an integer: what the
/// normalized formula yields for the output channel, scaled by 255 and
/// rounded toward zero. Meaningful only when `src_over_den(a, da) > 0`.
pub open spec fn reference_channel(s: int, d: int, a: int, da: int) -> int {
    src_over_num(s, d, a, da) / src_over_den(a, da)
}

/// The exact src-over output alpha, scaled by 255 and truncated:
/// `alpha_out = da + a - da*a/255`, computed without intermediate rounding.
pub open spec fn reference_alpha(a: int, da: int) -> int {
    src_over_den(a, da) / 255
}

/// The reference backend's whole output pixel. When the composited alpha is
/// zero (both inputs fully transparent) the background pixel is left
/// unchanged rather than dividing by zero.
pub open spec fn reference_blend(bg: Pixel, fg: Pixel) -> Pixel {
    if src_over_den(fg.a as int, bg.a as int) == 0 {
        bg
    } else {
        Pixel {
            r: reference_channel(fg.r as int, bg.r as int, fg.a as int, bg.a as int) as u8,
            g: reference_channel(fg.g as int, bg.g as int, fg.a as int, bg.a as int) as u8,
            b: reference_channel(fg.b as int, bg.b as int, fg.a as int, bg.a as int) as u8,
            a: reference_alpha(fg.a as int, bg.a as int) as u8,
        }
    }
}

// ---------------------------------------------------------------------------
// Fixed-point form (table-driven backend).
// ---------------------------------------------------------------------------

/// A channel premultiplied by an alpha in fixed point: `c * a / 255`,
/// truncated.
pub open spec fn premul(c: int, a: int) -> int {
    c * a / 255
}

/// The fixed-point composited alpha: `da + a - da*a/255`, clamped to 255
/// before it is used to index the unmultiply table. The clamp is mandatory:
/// the truncated product can leave the sum one above 255.
pub open spec fn fixed_alpha(a: int, da: int) -> int {
    clamp255(da + a - premul(da, a))
}

/// The fixed-point premultiplied output channel:
/// `s*a/255 + (255 - a) * (d*da/255) / 255`, each division truncated.
pub open spec fn fixed_premul_channel(s: int, d: int, a: int, da: int) -> int {
    premul(s, a) + (255 - a) * premul(d, da) / 255
}

/// One entry of the divide-by-alpha lookup table: `255 * n / d` rounded to
/// nearest (half away from zero), capped at 255. Entries with denominator 0
/// are never read and carry no meaning.
pub open spec fn unmul_entry(n: int, d: int) -> int {
    clamp255((510 * n + d) / (2 * d))
}

/// The fixed-point backend's output color channel: premultiply, then
/// unmultiply by the composited alpha through the lookup table. Meaningful
/// only when `fixed_alpha(a, da) > 0`.
pub open spec fn fixed_channel(s: int, d: int, a: int, da: int) -> int {
    unmul_entry(fixed_premul_channel(s, d, a, da), fixed_alpha(a, da))
}

/// The fixed-point backend's whole output pixel, with the same
/// transparent-degenerate policy as the reference: the composited alpha is
/// zero only when both inputs are fully transparent, and then the background
/// pixel is left unchanged.
pub open spec fn fixed_blend(bg: Pixel, fg: Pixel) -> Pixel {
    if fixed_alpha(fg.a as int, bg.a as int) == 0 {
        bg
    } else {
        Pixel {
            r: fixed_channel(fg.r as int, bg.r as int, fg.a as int, bg.a as int) as u8,
            g: fixed_channel(fg.g as int, bg.g as int, fg.a as int, bg.a as int) as u8,
            b: fixed_channel(fg.b as int, bg.b as int, fg.a as int, bg.a as int) as u8,
            a: fixed_alpha(fg.a as int, bg.a as int) as u8,
        }
    }
}

// ---------------------------------------------------------------------------
// Opaque-background fast path.
// ---------------------------------------------------------------------------

/// The fast-path output channel under the opaque-background assumption:
/// `(s*a + (255 - a)*d) >> 8`. With the background alpha pinned at 255 the
/// composited alpha is 255 and the final division drops out entirely.
pub open spec fn opaque_channel(s: int, d: int, a: int) -> int {
    (s * a + (255 - a) * d) / 256
}

/// The fast path's whole output pixel: blended color channels, output alpha
/// forced to exactly 255. The formula itself never needs the background
/// alpha; its agreement with the other backends is proved under the
/// caller-owned premise that the background is fully opaque.
pub open spec fn opaque_blend(bg: Pixel, fg: Pixel) -> Pixel {
    Pixel {
        r: opaque_channel(fg.r as int, bg.r as int, fg.a as int) as u8,
        g: opaque_channel(fg.g as int, bg.g as int, fg.a as int) as u8,
        b: opaque_channel(fg.b as int, bg.b as int, fg.a as int) as u8,
        a: 255,
    }
}

// ---------------------------------------------------------------------------
// Whole-buffer forms.
// ---------------------------------------------------------------------------

/// An interleaved RGBA byte buffer blended pixel-by-pixel by `f`: byte `i`
/// belongs to pixel `i / 4` and channel `i % 4`.
pub open spec fn blended_bytes(bgd: Seq<u8>, fgd: Seq<u8>, f: spec_fn(Pixel, Pixel) -> Pixel) -> Seq<
    u8,
> {
    Seq::new(bgd.len(), |i: int| channel_of(f(pixel_at(bgd, i / 4), pixel_at(fgd, i / 4)), i % 4))
}

/// The reference backend applied to a whole buffer.
pub open spec fn reference_blended(bgd: Seq<u8>, fgd: Seq<u8>) -> Seq<u8> {
    blended_bytes(bgd, fgd, |b: Pixel, f: Pixel| reference_blend(b, f))
}

/// The fixed-point backend applied to a whole buffer.
pub open spec fn fixed_blended(bgd: Seq<u8>, fgd: Seq<u8>) -> Seq<u8> {
    blended_bytes(bgd, fgd, |b: Pixel, f: Pixel| fixed_blend(b, f))
}

/// The opaque-background fast path applied to a whole buffer. The batched
/// lane backends are pinned to this same sequence, which is what makes their
/// agreement with the scalar fast path an equality rather than a tolerance.
pub open spec fn opaque_blended(bgd: Seq<u8>, fgd: Seq<u8>) -> Seq<u8> {
    blended_bytes(bgd, fgd, |b: Pixel, f: Pixel| opaque_blend(b, f))
}

// ---------------------------------------------------------------------------
// Range facts the executable backends rest on.
// ---------------------------------------------------------------------------

/// A premultiplied channel stays within both of its factors' ranges.
pub proof fn lemma_premul_bounds(c: int, a: int)
    requires
        0 <= c <= 255,
        0 <= a <= 255,
    ensures
        0 <= premul(c, a) <= a,
        premul(c, a) <= c,
{
    lemma_scale_div_le(c, a, 255);
    lemma_scale_div_le(a, c, 255);
    assert(c * a == a * c) by (nonlinear_arith);
}

/// The exact denominator is nonnegative, fits well below `u32`, and vanishes
/// exactly when both inputs are fully transparent.
pub proof fn lemma_src_over_den_bounds(a: int, da: int)
    requires
        0 <= a <= 255,
        0 <= da <= 255,
    ensures
        0 <= src_over_den(a, da) <= 65025,
        src_over_den(a, da) == 0 <==> (a == 0 && da == 0),
{
    assert(0 <= da * (255 - a) <= 255 * (255 - a)) by (nonlinear_arith)
        requires
            0 <= a <= 255,
            0 <= da <= 255,
    ;
    assert(da >= 1 ==> da * (255 - a) >= 255 - a) by (nonlinear_arith)
        requires
            0 <= a <= 255,
    ;
}

/// With a positive denominator, the exact output channel and alpha are
/// 8-bit values, and the numerator stays within `u32` range.
pub proof fn lemma_reference_bounds(s: int, d: int, a: int, da: int)
    requires
        0 <= s <= 255,
        0 <= d <= 255,
        0 <= a <= 255,
        0 <= da <= 255,
        src_over_den(a, da) > 0,
    ensures
        0 <= src_over_num(s, d, a, da) <= 255 * src_over_den(a, da),
        255 * src_over_den(a, da) <= 16581375,
        0 <= reference_channel(s, d, a, da) <= 255,
        0 <= reference_alpha(a, da) <= 255,
{
    lemma_src_over_den_bounds(a, da);
    assert(0 <= src_over_num(s, d, a, da) <= 255 * src_over_den(a, da)) by (nonlinear_arith)
        requires
            0 <= s <= 255,
            0 <= d <= 255,
            0 <= a <= 255,
            0 <= da <= 255,
    ;
    lemma_div_nonneg_bound(src_over_num(s, d, a, da), src_over_den(a, da), 255);
    lemma_div_nonneg_bound(src_over_den(a, da), 255, 255);
}

/// The fixed-point composited alpha is an 8-bit value even before the
/// clamp caps it, and it vanishes exactly when both inputs are fully
/// transparent.
pub proof fn lemma_fixed_alpha_bounds(a: int, da: int)
    requires
        0 <= a <= 255,
        0 <= da <= 255,
    ensures
        0 <= da + a - premul(da, a) <= 256,
        0 <= fixed_alpha(a, da) <= 255,
        fixed_alpha(a, da) == 0 <==> (a == 0 && da == 0),
        a == 255 || da == 255 ==> fixed_alpha(a, da) == 255,
{
    lemma_premul_bounds(da, a);
    assert(da + a - premul(da, a) <= 256) by {
        vstd::arithmetic::div_mod::lemma_fundamental_div_mod(da * a, 255);
        vstd::arithmetic::div_mod::lemma_remainder_lower(da * a, 255);
        assert(255 * da + 255 * a - da * a <= 65025) by (nonlinear_arith)
            requires
                0 <= a <= 255,
                0 <= da <= 255,
        ;
    }
    if a == 0 && da == 0 {
        assert(premul(0, 0) == 0);
    }
    if a == 255 {
        assert(premul(da, 255) == da * 255 / 255);
        assert(da * 255 / 255 == da) by {
            vstd::arithmetic::div_mod::lemma_div_by_multiple(da, 255);
        }
    }
    if da == 255 {
        assert(premul(255, a) == 255 * a / 255);
        assert(255 * a / 255 == a) by {
            vstd::arithmetic::div_mod::lemma_div_multiples_vanish(a, 255);
        }
    }
}

/// The fixed-point premultiplied channel never exceeds the composited
/// alpha's pre-clamp value, and in particular is an 8-bit value: each of its
/// two terms is bounded by the matching term of the alpha.
pub proof fn lemma_fixed_premul_channel_bounds(s: int, d: int, a: int, da: int)
    requires
        0 <= s <= 255,
        0 <= d <= 255,
        0 <= a <= 255,
        0 <= da <= 255,
    ensures
        0 <= fixed_premul_channel(s, d, a, da) <= 255,
{
    lemma_premul_bounds(s, a);
    lemma_premul_bounds(d, da);
    lemma_scale_div_le(premul(d, da), 255 - a, 255);
    assert((255 - a) * premul(d, da) == premul(d, da) * (255 - a)) by (nonlinear_arith);
}

/// The fast-path output channel is an 8-bit value.
pub proof fn lemma_opaque_channel_bounds(s: int, d: int, a: int)
    requires
        0 <= s <= 255,
        0 <= d <= 255,
        0 <= a <= 255,
    ensures
        0 <= s * a + (255 - a) * d <= 65025,
        0 <= opaque_channel(s, d, a) <= 255,
{
    assert(0 <= s * a + (255 - a) * d <= 65025) by (nonlinear_arith)
        requires
            0 <= s <= 255,
            0 <= d <= 255,
            0 <= a <= 255,
    ;
    lemma_div_nonneg_bound(s * a + (255 - a) * d, 256, 255);
}

} // verus!
