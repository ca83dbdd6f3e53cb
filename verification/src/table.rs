//! The precomputed divide-by-alpha lookup table used by the fixed-point
//! backend: 256 x 256 entries, built once before any blend, read-only
//! thereafter.

use vstd::prelude::*;

use crate::formula::unmul_entry;

verus! {

/// `T[n][d] = clamp255(round(255 * n / d))` for every numerator `n` and
/// every live denominator `d >= 1`, stored row-major. Entries with
/// denominator 0 are never read: the denominator is always the composited
/// alpha, which the blend loops special-case when it is zero.
pub struct UnmultiplyTable {
    data: Vec<u8>,
}

impl View for UnmultiplyTable {
    type V = Seq<u8>;

    closed spec fn view(&self) -> Seq<u8> {
        self.data@
    }
}

impl UnmultiplyTable {
    /// Every live entry holds the rounded unmultiplied value.
    pub open spec fn wf(&self) -> bool {
        &&& self@.len() == 65536
        &&& forall|n: int, d: int|
            0 <= n < 256 && 1 <= d < 256 ==> #[trigger] self@[n * 256 + d] == unmul_entry(n, d)
    }

    /// Builds the table. Row `n` holds numerator `n`; column `d` holds
    /// denominator `d`; column 0 is filler that no caller may read.
    pub fn new() -> (t: UnmultiplyTable)
        ensures
            t.wf(),
    {
        let mut data: Vec<u8> = Vec::new();
        let mut n: usize = 0;
        while n < 256
            invariant
                0 <= n <= 256,
                data@.len() == n * 256,
                forall|i: int, d: int|
                    0 <= i < n && 1 <= d < 256 ==> #[trigger] data@[i * 256 + d] == unmul_entry(
                        i,
                        d,
                    ),
            decreases 256 - n,
        {
            let mut d: usize = 0;
            while d < 256
                invariant
                    0 <= n < 256,
                    0 <= d <= 256,
                    data@.len() == n * 256 + d,
                    forall|i: int, j: int|
                        0 <= i < n && 1 <= j < 256 ==> #[trigger] data@[i * 256 + j]
                            == unmul_entry(i, j),
                    forall|j: int|
                        1 <= j < d ==> #[trigger] data@[n * 256 + j] == unmul_entry(n as int, j),
                decreases 256 - d,
            {
                if d == 0 {
                    data.push(0);
                } else {
                    let num: u32 = 510 * (n as u32) + (d as u32);
                    let den: u32 = 2 * (d as u32);
                    let q: u32 = num / den;
                    let e: u8 = if q > 255 {
                        255
                    } else {
                        q as u8
                    };
                    data.push(e);
                }
                d = d + 1;
            }
            n = n + 1;
        }
        UnmultiplyTable { data }
    }

    /// Looks up `round(255 * n / d)` for a live denominator. The demand
    /// `d >= 1` is the table's contract that it is never indexed with
    /// denominator zero.
    pub fn unmultiply(&self, n: u8, d: u8) -> (r: u8)
        requires
            self.wf(),
            d >= 1,
        ensures
            r == unmul_entry(n as int, d as int),
    {
        let idx: usize = (n as usize) * 256 + (d as usize);
        self.data[idx]
    }
}

} // verus!
