//! The backend taxonomy and the error taxonomy shared by every compositing
//! strategy.

use vstd::prelude::*;

verus! {

/// One of the interchangeable execution strategies for the same src-over
/// contract.
#[derive(Clone, Copy, PartialEq, Eq, Structural, Debug)]
pub enum Backend {
    /// The correctness oracle: the exact formula, pixel by pixel.
    FloatReference,
    /// Integer premultiplication plus the divide-by-alpha lookup table.
    FixedPoint,
    /// The specialization for fully opaque backgrounds; no final division.
    OpaqueFast,
    /// The fast path batched two pixels per step, as 128-bit lanes carry it.
    VectorNarrow,
    /// The fast path batched four pixels per step in two half-register
    /// sub-batches, as 256-bit lanes carry it.
    VectorWide,
    /// The formula dispatched per-pixel on an offload device. The host-side
    /// device work is plumbing outside this library; without a device
    /// capability the dispatcher reports it unsupported.
    DeviceOffload,
}

/// Why a composite call did not produce a blended buffer.
#[derive(Clone, Copy, PartialEq, Eq, Structural, Debug)]
pub enum BlendError {
    /// A required hardware capability (vector extension or compute device)
    /// is absent. Recoverable: fall back to a slower backend.
    Unsupported,
    /// Background and foreground differ in size. Detected before any pixel
    /// work begins.
    DimensionMismatch,
    /// The composited alpha of a pixel pair is zero. Never returned by the
    /// backends here: the policy is to leave that destination pixel
    /// unchanged, not to fail the call.
    DivisionDegenerate,
    /// A host-device transfer or kernel enqueue failed. Reserved for the
    /// device path, whose host side lives outside this library.
    DeviceTransferFailure,
}

/// Which vector instruction extensions the host offers. Probed once at
/// startup by the surrounding program (the probe itself is platform
/// plumbing); the dispatcher only reads the answers and never re-probes
/// per call.
#[derive(Clone, Copy, PartialEq, Eq, Structural, Debug)]
pub struct Capabilities {
    /// 128-bit integer vector lanes are available.
    pub narrow_vector: bool,
    /// 256-bit integer vector lanes are available.
    pub wide_vector: bool,
}

impl Capabilities {
    /// A host with no vector extensions at all; the portable backends
    /// still run.
    pub fn none() -> (c: Capabilities)
        ensures
            !c.narrow_vector && !c.wide_vector,
    {
        Capabilities { narrow_vector: false, wide_vector: false }
    }

    /// A host with the given vector extensions.
    pub fn new(narrow_vector: bool, wide_vector: bool) -> (c: Capabilities)
        ensures
            c == (Capabilities { narrow_vector, wide_vector }),
    {
        Capabilities { narrow_vector, wide_vector }
    }
}

} // verus!
