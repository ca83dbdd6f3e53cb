//! Backend dispatch and the benchmark harness's verified core: one
//! capability interface (`composite`) implemented by tagged backend
//! variants, canonical test-image generation, and the clone-per-backend
//! trial runner. Timing sits with the caller — the clock is an external
//! capability, used identically around every backend.

use vstd::prelude::*;

use crate::backend::Backend;
use crate::backend::BlendError;
use crate::backend::Capabilities;
use crate::fixed::composite_fixed;
use crate::formula::fixed_blended;
use crate::formula::opaque_blended;
use crate::formula::reference_blended;
use crate::opaque::composite_opaque;
use crate::pixel::Pixel;
use crate::raster::Image;
use crate::reference::composite_reference;
use crate::table::UnmultiplyTable;
use crate::vector::composite_vector_narrow;
use crate::vector::composite_vector_wide;

verus! {

/// Whether this library can execute the given backend on a host with the
/// given vector extensions. The lane backends need their extension; the
/// device backend's host side (device acquisition, transfer, enqueue) is
/// plumbing outside this library, so dispatch reports it unsupported and
/// the surrounding program decides whether a device is on hand.
pub open spec fn supported(backend: Backend, caps: Capabilities) -> bool {
    match backend {
        Backend::FloatReference => true,
        Backend::FixedPoint => true,
        Backend::OpaqueFast => true,
        Backend::VectorNarrow => caps.narrow_vector,
        Backend::VectorWide => caps.wide_vector,
        Backend::DeviceOffload => false,
    }
}

/// What each backend is contracted to produce: the exact formula for the
/// reference (and for the device kernel, which expresses the same exact
/// formula per pixel), the fixed-point formula for the table-driven
/// backend, and the fast-path formula for the opaque specialization and
/// both of its batched lane forms.
pub open spec fn backend_blended(backend: Backend, bgd: Seq<u8>, fgd: Seq<u8>) -> Seq<u8> {
    match backend {
        Backend::FloatReference => reference_blended(bgd, fgd),
        Backend::FixedPoint => fixed_blended(bgd, fgd),
        Backend::OpaqueFast => opaque_blended(bgd, fgd),
        Backend::VectorNarrow => opaque_blended(bgd, fgd),
        Backend::VectorWide => opaque_blended(bgd, fgd),
        Backend::DeviceOffload => reference_blended(bgd, fgd),
    }
}

/// Routes one composite call to the selected strategy. An unsupported
/// backend is refused before anything else; a dimension mismatch is
/// detected before any pixel work; on success the background holds exactly
/// the selected backend's contracted output.
pub fn composite(
    backend: Backend,
    caps: Capabilities,
    table: &UnmultiplyTable,
    bg: &mut Image,
    fg: &Image,
) -> (r: Result<(), BlendError>)
    requires
        table.wf(),
        old(bg).wf(),
        fg.wf(),
    ensures
        final(bg).wf(),
        final(bg).same_dims(old(bg)),
        r is Ok <==> (supported(backend, caps) && old(bg).same_dims(fg)),
        r is Ok ==> final(bg)@ == backend_blended(backend, old(bg)@, fg@),
        r is Err ==> final(bg)@ == old(bg)@,
        !supported(backend, caps) ==> r == Result::<(), BlendError>::Err(BlendError::Unsupported),
        supported(backend, caps) && !old(bg).same_dims(fg) ==> r == Result::<(
            ),
            BlendError,
        >::Err(BlendError::DimensionMismatch),
{
    match backend {
        Backend::FloatReference => composite_reference(bg, fg),
        Backend::FixedPoint => composite_fixed(table, bg, fg),
        Backend::OpaqueFast => composite_opaque(bg, fg),
        Backend::VectorNarrow => {
            if caps.narrow_vector {
                composite_vector_narrow(bg, fg)
            } else {
                Err(BlendError::Unsupported)
            }
        },
        Backend::VectorWide => {
            if caps.wide_vector {
                composite_vector_wide(bg, fg)
            } else {
                Err(BlendError::Unsupported)
            }
        },
        Backend::DeviceOffload => Err(BlendError::Unsupported),
    }
}

/// Builds the two canonical same-size trial buffers: a constant-filled
/// background and a constant-filled foreground. Fails only when the byte
/// length would not fit the address space.
pub fn generate_images(width: u32, height: u32, bg_fill: Pixel, fg_fill: Pixel) -> (r: Option<
    (Image, Image),
>)
    ensures
        r is Some <==> 4 * (width as int) * (height as int) <= usize::MAX,
        r is Some ==> {
            let (bg, fg) = r->Some_0;
            &&& bg.wf()
            &&& fg.wf()
            &&& bg.spec_width() == width && bg.spec_height() == height
            &&& fg.spec_width() == width && fg.spec_height() == height
            &&& forall|k: int| 0 <= k < bg.pixel_count() ==> #[trigger] bg.spec_pixel(k) == bg_fill
            &&& forall|k: int| 0 <= k < fg.pixel_count() ==> #[trigger] fg.spec_pixel(k) == fg_fill
        },
{
    let bg = match Image::new(width, height, bg_fill) {
        Some(img) => img,
        None => {
            return None;
        },
    };
    let fg = match Image::new(width, height, fg_fill) {
        Some(img) => img,
        None => {
            return None;
        },
    };
    Some((bg, fg))
}

/// One benchmark trial's data path: clone the background (backends mutate
/// in place, and every backend must see an identical clone, not a previous
/// backend's output), composite, and hand back the blended clone for
/// sampling and cross-validation. The caller times the call with its clock
/// capability.
pub fn run_backend(
    backend: Backend,
    caps: Capabilities,
    table: &UnmultiplyTable,
    bg: &Image,
    fg: &Image,
) -> (r: Result<Image, BlendError>)
    requires
        table.wf(),
        bg.wf(),
        fg.wf(),
    ensures
        r is Ok <==> (supported(backend, caps) && bg.same_dims(fg)),
        r is Ok ==> {
            let out = r->Ok_0;
            &&& out.wf()
            &&& out.same_dims(bg)
            &&& out@ == backend_blended(backend, bg@, fg@)
        },
        !supported(backend, caps) ==> r == Result::<Image, BlendError>::Err(
            BlendError::Unsupported,
        ),
        supported(backend, caps) && !bg.same_dims(fg) ==> r == Result::<Image, BlendError>::Err(
            BlendError::DimensionMismatch,
        ),
{
    let mut out = bg.duplicate();
    match composite(backend, caps, table, &mut out, fg) {
        Ok(()) => Ok(out),
        Err(e) => Err(e),
    }
}

} // verus!
