//! The image buffer shared by every backend: a width x height grid of RGBA
//! pixels stored as one flat byte sequence in row-major order.

use vstd::prelude::*;

use crate::pixel::Pixel;
use crate::pixel::channel_of;
use crate::pixel::pixel_at;

verus! {

/// An RGBA image. The buffer length is exactly `width * height * 4` bytes
/// (so always a multiple of 4); the dimensions never change after creation.
#[derive(Debug)]
pub struct Image {
    width: u32,
    height: u32,
    data: Vec<u8>,
}

impl View for Image {
    type V = Seq<u8>;

    closed spec fn view(&self) -> Seq<u8> {
        self.data@
    }
}

impl Image {
    /// The width in pixels.
    pub closed spec fn spec_width(&self) -> u32 {
        self.width
    }

    /// The height in pixels.
    pub closed spec fn spec_height(&self) -> u32 {
        self.height
    }

    /// The buffer invariant: flat length is exactly `4 * width * height`.
    pub open spec fn wf(&self) -> bool {
        self@.len() == 4 * (self.spec_width() as int) * (self.spec_height() as int)
    }

    /// How many pixels the image holds.
    pub open spec fn pixel_count(&self) -> int {
        (self.spec_width() as int) * (self.spec_height() as int)
    }

    /// The pixel stored at flat index `k` (row-major).
    pub open spec fn spec_pixel(&self, k: int) -> Pixel {
        pixel_at(self@, k)
    }

    /// Two images cover the same grid.
    pub open spec fn same_dims(&self, other: &Image) -> bool {
        self.spec_width() == other.spec_width() && self.spec_height() == other.spec_height()
    }

    pub fn width(&self) -> (w: u32)
        ensures
            w == self.spec_width(),
    {
        self.width
    }

    pub fn height(&self) -> (h: u32)
        ensures
            h == self.spec_height(),
    {
        self.height
    }

    /// The raw interleaved RGBA bytes.
    pub fn bytes(&self) -> (d: &Vec<u8>)
        ensures
            d@ == self@,
    {
        &self.data
    }

    /// Surrenders the raw interleaved RGBA bytes.
    pub fn into_bytes(self) -> (d: Vec<u8>)
        ensures
            d@ == self@,
    {
        self.data
    }

    /// Builds an image of the given dimensions filled with one pixel value.
    /// Fails only when the byte length would not fit the address space.
    pub fn new(width: u32, height: u32, fill: Pixel) -> (r: Option<Image>)
        ensures
            r is Some <==> 4 * (width as int) * (height as int) <= usize::MAX,
            r is Some ==> {
                let img = r->Some_0;
                &&& img.wf()
                &&& img.spec_width() == width
                &&& img.spec_height() == height
                &&& forall|k: int|
                    0 <= k < img.pixel_count() ==> #[trigger] img.spec_pixel(k) == fill
            },
    {
        proof {
            lemma_byte_total_bounds(width as int, height as int);
        }
        let count: u64 = (width as u64) * (height as u64);
        let cap: u64 = (usize::MAX as u64) / 4;
        proof {
            lemma_quarter_cap(count as int, usize::MAX as int);
        }
        if count > cap {
            return None;
        }
        let mut data: Vec<u8> = Vec::new();
        let mut k: u64 = 0;
        while k < count
            invariant
                0 <= k <= count,
                count == (width as int) * (height as int),
                4 * count <= usize::MAX,
                data@.len() == 4 * k,
                forall|i: int|
                    0 <= i < data@.len() ==> data@[i] == channel_of(fill, #[trigger] (i % 4)),
            decreases count - k,
        {
            data.push(fill.r);
            data.push(fill.g);
            data.push(fill.b);
            data.push(fill.a);
            k = k + 1;
        }
        let img = Image { width, height, data };
        proof {
            assert forall|j: int| 0 <= j < img.pixel_count() implies #[trigger] img.spec_pixel(j)
                == fill by {
                assert((4 * j) % 4 == 0 && (4 * j + 1) % 4 == 1 && (4 * j + 2) % 4 == 2 && (4 * j
                    + 3) % 4 == 3);
            }
        }
        Some(img)
    }

    /// Wraps an existing interleaved RGBA buffer. Fails exactly when the
    /// buffer length does not match the dimensions.
    pub fn from_bytes(width: u32, height: u32, data: Vec<u8>) -> (r: Option<Image>)
        ensures
            r is Some <==> data@.len() == 4 * (width as int) * (height as int),
            r is Some ==> {
                let img = r->Some_0;
                &&& img.wf()
                &&& img.spec_width() == width
                &&& img.spec_height() == height
                &&& img@ == data@
            },
    {
        proof {
            lemma_byte_total_bounds(width as int, height as int);
        }
        let n = data.len();
        let count: u64 = (width as u64) * (height as u64);
        let cap: u64 = (usize::MAX as u64) / 4;
        proof {
            lemma_quarter_cap(count as int, usize::MAX as int);
        }
        if count > cap {
            return None;
        }
        if (n as u64) == 4 * count {
            Some(Image { width, height, data })
        } else {
            None
        }
    }

    /// An independent copy: same dimensions, same bytes. The harness clones
    /// the background once per backend with this, so no backend sees another
    /// backend's mutation.
    pub fn duplicate(&self) -> (r: Image)
        ensures
            r@ == self@,
            r.spec_width() == self.spec_width(),
            r.spec_height() == self.spec_height(),
    {
        let n = self.data.len();
        let mut data: Vec<u8> = Vec::new();
        let mut i: usize = 0;
        while i < n
            invariant
                0 <= i <= n,
                n == self@.len(),
                data@ =~= self@.subrange(0, i as int),
            decreases n - i,
        {
            data.push(self.data[i]);
            i = i + 1;
        }
        proof {
            assert(data@ =~= self@);
        }
        Image { width: self.width, height: self.height, data }
    }

    /// Reads the pixel at flat index `k`.
    pub fn load_pixel(&self, k: usize) -> (p: Pixel)
        requires
            4 * k + 3 < self@.len(),
        ensures
            p == self.spec_pixel(k as int),
    {
        let n = self.data.len();
        assert(4 * k + 3 < n);
        let base = 4 * k;
        Pixel {
            r: self.data[base],
            g: self.data[base + 1],
            b: self.data[base + 2],
            a: self.data[base + 3],
        }
    }

    /// Overwrites the pixel at flat index `k`.
    pub fn store_pixel(&mut self, k: usize, p: Pixel)
        requires
            4 * k + 3 < old(self)@.len(),
        ensures
            final(self)@ =~= old(self)@.update(4 * k, p.r).update(4 * k + 1, p.g).update(
                4 * k + 2,
                p.b,
            ).update(4 * k + 3, p.a),
            final(self).spec_width() == old(self).spec_width(),
            final(self).spec_height() == old(self).spec_height(),
    {
        let n = self.data.len();
        assert(4 * k + 3 < n);
        let base = 4 * k;
        self.data.set(base, p.r);
        self.data.set(base + 1, p.g);
        self.data.set(base + 2, p.b);
        self.data.set(base + 3, p.a);
    }

    /// Reads the pixel at column `x`, row `y`; `None` outside the grid.
    pub fn get_pixel(&self, x: u32, y: u32) -> (r: Option<Pixel>)
        requires
            self.wf(),
        ensures
            r is Some <==> (x < self.spec_width() && y < self.spec_height()),
            r is Some ==> r->Some_0 == self.spec_pixel(
                (y as int) * (self.spec_width() as int) + x as int,
            ),
    {
        if x >= self.width || y >= self.height {
            return None;
        }
        let n = self.data.len();
        proof {
            lemma_pixel_index_bound(
                x as int,
                y as int,
                self.spec_width() as int,
                self.spec_height() as int,
            );
        }
        let k: u64 = (y as u64) * (self.width as u64) + (x as u64);
        proof {
            let w = self.spec_width() as int;
            let h = self.spec_height() as int;
            lemma_byte_total_bounds(w, h);
            assert(n == 4 * (w * h));
            assert(4 * k + 3 < n);
        }
        Some(self.load_pixel(k as usize))
    }

    /// Overwrites the pixel at column `x`, row `y`; reports whether the
    /// coordinates were inside the grid (the image is unchanged otherwise).
    pub fn set_pixel(&mut self, x: u32, y: u32, p: Pixel) -> (ok: bool)
        requires
            old(self).wf(),
        ensures
            ok <==> (x < old(self).spec_width() && y < old(self).spec_height()),
            final(self).wf(),
            final(self).spec_width() == old(self).spec_width(),
            final(self).spec_height() == old(self).spec_height(),
            ok ==> final(self)@ =~= {
                let base = 4 * ((y as int) * (old(self).spec_width() as int) + x as int);
                old(self)@.update(base, p.r).update(base + 1, p.g).update(base + 2, p.b).update(
                    base + 3,
                    p.a,
                )
            },
            !ok ==> final(self)@ == old(self)@,
    {
        if x >= self.width || y >= self.height {
            return false;
        }
        let n = self.data.len();
        proof {
            lemma_pixel_index_bound(
                x as int,
                y as int,
                self.spec_width() as int,
                self.spec_height() as int,
            );
        }
        let k: u64 = (y as u64) * (self.width as u64) + (x as u64);
        proof {
            let w = self.spec_width() as int;
            let h = self.spec_height() as int;
            lemma_byte_total_bounds(w, h);
            assert(n == 4 * (w * h));
            assert(4 * k + 3 < n);
        }
        self.store_pixel(k as usize, p);
        true
    }
}

/// The pixel count of a grid of `u32` dimensions fits `u64` arithmetic.
proof fn lemma_byte_total_bounds(w: int, h: int)
    requires
        0 <= w < 0x1_0000_0000,
        0 <= h < 0x1_0000_0000,
    ensures
        0 <= w * h < 0x1_0000_0000_0000_0000,
        4 * (w * h) == 4 * w * h,
{
    assert(0 <= w * h && w * h < 0x1_0000_0000_0000_0000int && 4 * (w * h) == 4 * w * h)
        by (nonlinear_arith)
        requires
            0 <= w < 0x1_0000_0000,
            0 <= h < 0x1_0000_0000,
    ;
}

/// Comparing a count against a quarter of a bound decides whether four
/// times the count stays within the bound.
proof fn lemma_quarter_cap(c: int, m: int)
    requires
        0 <= c,
        0 <= m,
    ensures
        c <= m / 4 ==> 4 * c <= m,
        c > m / 4 ==> 4 * c > m,
{
    vstd::arithmetic::div_mod::lemma_fundamental_div_mod(m, 4);
    vstd::arithmetic::div_mod::lemma_remainder_lower(m, 4);
    vstd::arithmetic::div_mod::lemma_remainder_upper(m, 4);
}

/// A coordinate inside the grid names a pixel index inside the buffer.
proof fn lemma_pixel_index_bound(x: int, y: int, w: int, h: int)
    requires
        0 <= x < w < 0x1_0000_0000,
        0 <= y < h < 0x1_0000_0000,
    ensures
        0 <= y * w + x < w * h,
        w * h < 0x1_0000_0000_0000_0000,
{
    assert(y * w + x < w * h && y * w >= 0) by (nonlinear_arith)
        requires
            0 <= x < w,
            0 <= y < h,
    ;
    lemma_byte_total_bounds(w, h);
}

} // verus!
