//! The cross-backend agreement laws: what makes the strategies
//! interchangeable. Each law is stated over the same spec formulas that the
//! backends' own contracts are pinned to, so together they bound the
//! behavior of the executable code.

use vstd::prelude::*;

use vstd::arithmetic::div_mod::lemma_div_by_multiple;
use vstd::arithmetic::div_mod::lemma_div_is_ordered;
use vstd::arithmetic::div_mod::lemma_div_multiples_vanish;
use vstd::arithmetic::div_mod::lemma_div_multiples_vanish_fancy;
use crate::arith::lemma_div255_div256;
use crate::arith::lemma_sum_div;
use crate::backend::Backend;
use crate::formula::fixed_alpha;
use crate::formula::fixed_blend;
use crate::formula::fixed_channel;
use crate::formula::fixed_premul_channel;
use crate::formula::lemma_fixed_alpha_bounds;
use crate::formula::lemma_fixed_premul_channel_bounds;
use crate::formula::lemma_opaque_channel_bounds;
use crate::formula::lemma_premul_bounds;
use crate::formula::lemma_reference_bounds;
use crate::formula::lemma_src_over_den_bounds;
use crate::formula::opaque_blend;
use crate::formula::opaque_channel;
use crate::formula::premul;
use crate::formula::reference_alpha;
use crate::formula::reference_blend;
use crate::formula::reference_channel;
use crate::formula::src_over_den;
use crate::formula::src_over_num;
use crate::formula::unmul_entry;
use crate::harness::backend_blended;
use crate::pixel::Pixel;

verus! {

/// Two channel values agree within `tol` units.
pub open spec fn within(x: int, y: int, tol: int) -> bool {
    -tol <= x - y <= tol
}

// ---------------------------------------------------------------------------
// The lookup table's boundary row.
// ---------------------------------------------------------------------------

/// Unmultiplying by denominator 255 is a no-op: `T[x][255] == x` for every
/// 8-bit `x`. (The table is never indexed with denominator 0; its exec
/// accessor demands a live denominator.)
pub proof fn lemma_unmul_identity(x: int)
    requires
        0 <= x <= 255,
    ensures
        unmul_entry(x, 255) == x,
{
    lemma_div_multiples_vanish_fancy(x, 255, 510);
}

// ---------------------------------------------------------------------------
// The exact formula over an opaque background.
// ---------------------------------------------------------------------------

/// Over a fully opaque background the exact channel collapses to
/// `(s*a + (255 - a)*d) / 255` and the exact output alpha to exactly 255.
pub proof fn lemma_reference_channel_opaque_bg(s: int, d: int, a: int)
    requires
        0 <= s <= 255,
        0 <= d <= 255,
        0 <= a <= 255,
    ensures
        src_over_den(a, 255) == 65025,
        reference_channel(s, d, a, 255) == (s * a + (255 - a) * d) / 255,
        reference_alpha(a, 255) == 255,
{
    let x = s * a + (255 - a) * d;
    assert(src_over_num(s, d, a, 255) == 255 * x) by {
        assert(255 * s * a + d * 255 * (255 - a) == 255 * (s * a + (255 - a) * d))
            by (nonlinear_arith);
    }
    assert(0 <= s * a + (255 - a) * d) by (nonlinear_arith)
        requires
            0 <= s <= 255,
            0 <= d <= 255,
            0 <= a <= 255,
    ;
    assert((255 * x) / 65025 == x / 255) by {
        vstd::arithmetic::div_mod::lemma_div_denominator(255 * x, 255, 255);
        lemma_div_multiples_vanish(x, 255);
    }
    lemma_div_multiples_vanish(255, 255);
}

// ---------------------------------------------------------------------------
// Oracle agreement over an opaque background.
// ---------------------------------------------------------------------------

/// The fast path tracks the exact formula from below, one unit at most:
/// for every pixel pair over an opaque background each fast-path channel is
/// within the two-unit tolerance of the exact channel, and the alphas agree
/// exactly.
pub proof fn lemma_oracle_agreement_opaque(bg: Pixel, fg: Pixel)
    requires
        bg.a == 255,
    ensures
        within(opaque_blend(bg, fg).r as int, reference_blend(bg, fg).r as int, 2),
        within(opaque_blend(bg, fg).g as int, reference_blend(bg, fg).g as int, 2),
        within(opaque_blend(bg, fg).b as int, reference_blend(bg, fg).b as int, 2),
        opaque_blend(bg, fg).a == reference_blend(bg, fg).a,
{
    lemma_src_over_den_bounds(fg.a as int, 255);
    lemma_channel_agreement_opaque(fg.r as int, bg.r as int, fg.a as int);
    lemma_channel_agreement_opaque(fg.g as int, bg.g as int, fg.a as int);
    lemma_channel_agreement_opaque(fg.b as int, bg.b as int, fg.a as int);
    lemma_reference_channel_opaque_bg(fg.r as int, bg.r as int, fg.a as int);
}

/// One channel of the previous law: `x/256` sits within one unit below
/// `x/255`.
proof fn lemma_channel_agreement_opaque(s: int, d: int, a: int)
    requires
        0 <= s <= 255,
        0 <= d <= 255,
        0 <= a <= 255,
    ensures
        0 <= reference_channel(s, d, a, 255) - opaque_channel(s, d, a) <= 1,
        0 <= reference_channel(s, d, a, 255) <= 255,
        0 <= opaque_channel(s, d, a) <= 255,
{
    lemma_reference_channel_opaque_bg(s, d, a);
    lemma_opaque_channel_bounds(s, d, a);
    lemma_src_over_den_bounds(a, 255);
    lemma_reference_bounds(s, d, a, 255);
    lemma_div255_div256(s * a + (255 - a) * d);
}

/// The fixed-point backend tracks the exact formula from below, one unit
/// at most, over an opaque background: each channel within the two-unit
/// tolerance, alphas exactly equal. (Over a translucent background the
/// truncated premultiply step can lose much more — a background of alpha 1
/// is flattened to zero — which is why this law, like the fast path's,
/// carries the opaque premise.)
pub proof fn lemma_oracle_agreement_fixed(bg: Pixel, fg: Pixel)
    requires
        bg.a == 255,
    ensures
        within(fixed_blend(bg, fg).r as int, reference_blend(bg, fg).r as int, 2),
        within(fixed_blend(bg, fg).g as int, reference_blend(bg, fg).g as int, 2),
        within(fixed_blend(bg, fg).b as int, reference_blend(bg, fg).b as int, 2),
        fixed_blend(bg, fg).a == reference_blend(bg, fg).a,
{
    lemma_src_over_den_bounds(fg.a as int, 255);
    lemma_fixed_alpha_bounds(fg.a as int, 255);
    lemma_channel_agreement_fixed(fg.r as int, bg.r as int, fg.a as int);
    lemma_channel_agreement_fixed(fg.g as int, bg.g as int, fg.a as int);
    lemma_channel_agreement_fixed(fg.b as int, bg.b as int, fg.a as int);
    lemma_reference_channel_opaque_bg(fg.r as int, bg.r as int, fg.a as int);
}

/// One channel of the previous law: splitting the division over the two
/// premultiplied terms loses at most one unit, and the unmultiply row for
/// denominator 255 is the identity.
proof fn lemma_channel_agreement_fixed(s: int, d: int, a: int)
    requires
        0 <= s <= 255,
        0 <= d <= 255,
        0 <= a <= 255,
    ensures
        fixed_channel(s, d, a, 255) == premul(s, a) + (255 - a) * d / 255,
        0 <= reference_channel(s, d, a, 255) - fixed_channel(s, d, a, 255) <= 1,
        0 <= fixed_channel(s, d, a, 255) <= 255,
        0 <= reference_channel(s, d, a, 255) <= 255,
{
    lemma_src_over_den_bounds(a, 255);
    lemma_reference_bounds(s, d, a, 255);
    lemma_reference_channel_opaque_bg(s, d, a);
    lemma_fixed_alpha_bounds(a, 255);
    lemma_fixed_premul_channel_bounds(s, d, a, 255);
    assert(premul(d, 255) == d) by {
        lemma_div_by_multiple(d, 255);
    }
    assert(fixed_premul_channel(s, d, a, 255) == premul(s, a) + (255 - a) * d / 255);
    lemma_unmul_identity(fixed_premul_channel(s, d, a, 255));
    assert(0 <= s * a && 0 <= (255 - a) * d) by (nonlinear_arith)
        requires
            0 <= s <= 255,
            0 <= d <= 255,
            0 <= a <= 255,
    ;
    lemma_sum_div(s * a, (255 - a) * d, 255);
}

/// The fixed-point composited alpha tracks the exact output alpha within
/// one unit for every pixel pair, opaque background or not: the single
/// truncated product costs at most one unit, and the mandatory clamp only
/// ever fires when the exact alpha is already at the maximum.
pub proof fn lemma_alpha_agreement(a: int, da: int)
    requires
        0 <= a <= 255,
        0 <= da <= 255,
    ensures
        within(fixed_alpha(a, da), reference_alpha(a, da), 1),
        reference_alpha(a, da) <= fixed_alpha(a, da),
{
    lemma_fixed_alpha_bounds(a, da);
    lemma_premul_bounds(da, a);
    lemma_src_over_den_bounds(a, da);
    if a == 0 && da == 0 {
    } else {
        lemma_reference_bounds(a, a, a, da);
        let p = da * a / 255;
        let rem = da * a % 255;
        vstd::arithmetic::div_mod::lemma_fundamental_div_mod(da * a, 255);
        vstd::arithmetic::div_mod::lemma_remainder_lower(da * a, 255);
        vstd::arithmetic::div_mod::lemma_remainder_upper(da * a, 255);
        assert(src_over_den(a, da) == 255 * a + 255 * da - da * a) by (nonlinear_arith);
        if rem == 0 {
            assert(src_over_den(a, da) == 255 * (a + da - p));
            lemma_div_multiples_vanish(a + da - p, 255);
        } else {
            assert(src_over_den(a, da) == 255 * (a + da - p - 1) + (255 - rem));
            lemma_div_multiples_vanish_fancy(a + da - p - 1, 255 - rem, 255);
        }
    }
}

/// Over an opaque background the fast path and the fixed-point backend
/// agree within the two-unit tolerance on every color channel, and both
/// produce output alpha exactly 255.
pub proof fn lemma_opaque_matches_fixed(bg: Pixel, fg: Pixel)
    requires
        bg.a == 255,
    ensures
        within(opaque_blend(bg, fg).r as int, fixed_blend(bg, fg).r as int, 2),
        within(opaque_blend(bg, fg).g as int, fixed_blend(bg, fg).g as int, 2),
        within(opaque_blend(bg, fg).b as int, fixed_blend(bg, fg).b as int, 2),
        opaque_blend(bg, fg).a == 255,
        fixed_blend(bg, fg).a == 255,
{
    lemma_src_over_den_bounds(fg.a as int, 255);
    lemma_fixed_alpha_bounds(fg.a as int, 255);
    lemma_channel_agreement_opaque(fg.r as int, bg.r as int, fg.a as int);
    lemma_channel_agreement_opaque(fg.g as int, bg.g as int, fg.a as int);
    lemma_channel_agreement_opaque(fg.b as int, bg.b as int, fg.a as int);
    lemma_channel_agreement_fixed(fg.r as int, bg.r as int, fg.a as int);
    lemma_channel_agreement_fixed(fg.g as int, bg.g as int, fg.a as int);
    lemma_channel_agreement_fixed(fg.b as int, bg.b as int, fg.a as int);
}

// ---------------------------------------------------------------------------
// Transparent foreground: compositing is the identity.
// ---------------------------------------------------------------------------

/// A fully transparent foreground leaves the background pixel exactly
/// unchanged under the exact formula, for every background (a fully
/// transparent background is the degenerate case, left unchanged by
/// policy).
pub proof fn lemma_transparent_fg_reference(bg: Pixel, fg: Pixel)
    requires
        fg.a == 0,
    ensures
        reference_blend(bg, fg) == bg,
{
    lemma_src_over_den_bounds(0, bg.a as int);
    if bg.a != 0 {
        let da = bg.a as int;
        assert(src_over_den(0, da) == 255 * da) by (nonlinear_arith);
        lemma_transparent_channel(bg.r as int, da);
        lemma_transparent_channel(bg.g as int, da);
        lemma_transparent_channel(bg.b as int, da);
        assert(reference_alpha(0, da) == da) by {
            assert(src_over_den(0, da) == da * 255) by (nonlinear_arith);
            lemma_div_by_multiple(da, 255);
        }
    }
}

/// One channel of the previous law: `(d*da*255) / (255*da) == d`.
proof fn lemma_transparent_channel(d: int, da: int)
    requires
        0 <= d <= 255,
        1 <= da <= 255,
    ensures
        reference_channel(0, d, 0, da) == d,
{
    assert(src_over_num(0, d, 0, da) == d * (255 * da)) by (nonlinear_arith);
    assert(src_over_den(0, da) == 255 * da) by (nonlinear_arith);
    lemma_div_by_multiple(d, 255 * da);
}

/// A fully transparent foreground over a fully opaque background leaves the
/// background pixel exactly unchanged under the fixed-point backend too:
/// the premultiply by alpha 255 and the unmultiply row 255 are both exact.
/// (Over a translucent background the truncated premultiply loses
/// information and only the exact formula restores the pixel.)
pub proof fn lemma_transparent_fg_fixed(bg: Pixel, fg: Pixel)
    requires
        fg.a == 0,
        bg.a == 255,
    ensures
        fixed_blend(bg, fg) == bg,
{
    lemma_fixed_alpha_bounds(0, 255);
    lemma_transparent_fixed_channel(bg.r as int);
    lemma_transparent_fixed_channel(bg.g as int);
    lemma_transparent_fixed_channel(bg.b as int);
}

/// One channel of the previous law.
proof fn lemma_transparent_fixed_channel(d: int)
    requires
        0 <= d <= 255,
    ensures
        fixed_channel(0, d, 0, 255) == d,
{
    lemma_fixed_alpha_bounds(0, 255);
    assert(premul(0, 0) == 0);
    assert(premul(d, 255) == d) by {
        lemma_div_by_multiple(d, 255);
    }
    assert(fixed_premul_channel(0, d, 0, 255) == 255 * d / 255);
    assert(255 * d / 255 == d) by {
        lemma_div_multiples_vanish(d, 255);
    }
    lemma_unmul_identity(d);
}

/// A fully transparent foreground leaves each background color channel
/// within one unit under the fast path (the shift by 8 in place of the
/// division by 255 loses at most one unit), and the output alpha is the
/// background's own 255.
pub proof fn lemma_transparent_fg_opaque(bg: Pixel, fg: Pixel)
    requires
        fg.a == 0,
        bg.a == 255,
    ensures
        within(opaque_blend(bg, fg).r as int, bg.r as int, 2),
        within(opaque_blend(bg, fg).g as int, bg.g as int, 2),
        within(opaque_blend(bg, fg).b as int, bg.b as int, 2),
        opaque_blend(bg, fg).a == bg.a,
{
    lemma_transparent_opaque_channel(bg.r as int);
    lemma_transparent_opaque_channel(bg.g as int);
    lemma_transparent_opaque_channel(bg.b as int);
}

/// One channel of the previous law: `d - 1 <= (255*d)/256 <= d`.
proof fn lemma_transparent_opaque_channel(d: int)
    requires
        0 <= d <= 255,
    ensures
        d - 1 <= opaque_channel(0, d, 0) <= d,
        0 <= opaque_channel(0, d, 0) <= 255,
{
    assert(opaque_channel(0, d, 0) == 255 * d / 256);
    lemma_div_is_ordered(255 * d, 256 * d, 256);
    lemma_div_multiples_vanish(d, 256);
    if d >= 1 {
        lemma_div_is_ordered(256 * (d - 1), 255 * d, 256);
        lemma_div_multiples_vanish(d - 1, 256);
    }
    vstd::arithmetic::div_mod::lemma_div_pos_is_pos(255 * d, 256);
}

// ---------------------------------------------------------------------------
// Opaque foreground: compositing is full replacement.
// ---------------------------------------------------------------------------

/// A fully opaque foreground replaces the pixel exactly under the exact
/// formula, for every background.
pub proof fn lemma_opaque_fg_reference(bg: Pixel, fg: Pixel)
    requires
        fg.a == 255,
    ensures
        reference_blend(bg, fg) == fg,
{
    lemma_src_over_den_bounds(255, bg.a as int);
    let da = bg.a as int;
    assert(src_over_den(255, da) == 65025) by (nonlinear_arith);
    lemma_replacement_channel(fg.r as int, bg.r as int, da);
    lemma_replacement_channel(fg.g as int, bg.g as int, da);
    lemma_replacement_channel(fg.b as int, bg.b as int, da);
    lemma_div_multiples_vanish(255, 255);
    assert(reference_alpha(255, da) == 65025int / 255);
}

/// One channel of the previous law: `(255*s*255) / 65025 == s`.
proof fn lemma_replacement_channel(s: int, d: int, da: int)
    requires
        0 <= s <= 255,
        0 <= d <= 255,
        0 <= da <= 255,
    ensures
        reference_channel(s, d, 255, da) == s,
{
    assert(src_over_num(s, d, 255, da) == s * 65025) by (nonlinear_arith);
    assert(src_over_den(255, da) == 65025) by (nonlinear_arith);
    lemma_div_by_multiple(s, 65025);
}

/// A fully opaque foreground replaces the pixel exactly under the
/// fixed-point backend too.
pub proof fn lemma_opaque_fg_fixed(bg: Pixel, fg: Pixel)
    requires
        fg.a == 255,
    ensures
        fixed_blend(bg, fg) == fg,
{
    lemma_fixed_alpha_bounds(255, bg.a as int);
    lemma_replacement_fixed_channel(fg.r as int, bg.r as int, bg.a as int);
    lemma_replacement_fixed_channel(fg.g as int, bg.g as int, bg.a as int);
    lemma_replacement_fixed_channel(fg.b as int, bg.b as int, bg.a as int);
}

/// One channel of the previous law.
proof fn lemma_replacement_fixed_channel(s: int, d: int, da: int)
    requires
        0 <= s <= 255,
        0 <= d <= 255,
        0 <= da <= 255,
    ensures
        fixed_channel(s, d, 255, da) == s,
{
    lemma_fixed_alpha_bounds(255, da);
    lemma_premul_bounds(d, da);
    assert(premul(s, 255) == s) by {
        lemma_div_by_multiple(s, 255);
    }
    assert((255 - 255) * premul(d, da) == 0) by (nonlinear_arith);
    assert(fixed_premul_channel(s, d, 255, da) == s + 0int / 255);
    lemma_unmul_identity(s);
}

/// A fully opaque foreground replaces each color channel within one unit
/// under the fast path, and the output alpha is the foreground's own 255.
pub proof fn lemma_opaque_fg_opaque(bg: Pixel, fg: Pixel)
    requires
        fg.a == 255,
    ensures
        within(opaque_blend(bg, fg).r as int, fg.r as int, 2),
        within(opaque_blend(bg, fg).g as int, fg.g as int, 2),
        within(opaque_blend(bg, fg).b as int, fg.b as int, 2),
        opaque_blend(bg, fg).a == fg.a,
{
    lemma_replacement_opaque_channel(fg.r as int, bg.r as int);
    lemma_replacement_opaque_channel(fg.g as int, bg.g as int);
    lemma_replacement_opaque_channel(fg.b as int, bg.b as int);
}

/// One channel of the previous law: `s - 1 <= (s*255)/256 <= s`.
proof fn lemma_replacement_opaque_channel(s: int, d: int)
    requires
        0 <= s <= 255,
        0 <= d <= 255,
    ensures
        s - 1 <= opaque_channel(s, d, 255) <= s,
        0 <= opaque_channel(s, d, 255) <= 255,
{
    assert(opaque_channel(s, d, 255) == s * 255 / 256) by (nonlinear_arith);
    lemma_div_is_ordered(s * 255, 256 * s, 256);
    lemma_div_multiples_vanish(s, 256);
    if s >= 1 {
        lemma_div_is_ordered(256 * (s - 1), s * 255, 256);
        lemma_div_multiples_vanish(s - 1, 256);
    }
    vstd::arithmetic::div_mod::lemma_div_pos_is_pos(s * 255, 256);
}

// ---------------------------------------------------------------------------
// Batch/scalar equivalence.
// ---------------------------------------------------------------------------

/// Both lane backends are contracted to exactly the scalar fast path's
/// output sequence — for every buffer, including those whose pixel count is
/// not a multiple of the batch width, which the lane backends finish with
/// their scalar remainder loop. Agreement is therefore pixel-for-pixel
/// equality, not a tolerance.
pub proof fn lemma_batch_scalar_equivalence(bgd: Seq<u8>, fgd: Seq<u8>)
    ensures
        backend_blended(Backend::VectorNarrow, bgd, fgd) == backend_blended(
            Backend::OpaqueFast,
            bgd,
            fgd,
        ),
        backend_blended(Backend::VectorWide, bgd, fgd) == backend_blended(
            Backend::OpaqueFast,
            bgd,
            fgd,
        ),
{
}

} // verus!
