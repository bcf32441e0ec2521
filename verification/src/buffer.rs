//! The pixel buffer: a row-major grid of RGBA samples with the number of
//! pixels that make up one logical point along each axis.

use crate::color::Rgba;
use crate::geometry::{Point, Rect, Size};
use vstd::prelude::*;

verus! {

/// A `width` by `height` grid of RGBA samples, four bytes each, row after
/// row, and the scale that maps logical points to pixels. A buffer is never
/// changed after it was made.
#[derive(Debug, PartialEq, Eq, Hash)]
pub struct PixelBuffer {
    width: u32,
    height: u32,
    scale: u32,
    data: Vec<u8>,
}

impl View for PixelBuffer {
    type V = Seq<u8>;

    /// The bytes of the buffer: red, green, blue, alpha of each pixel.
    closed spec fn view(&self) -> Seq<u8> {
        self.data@
    }
}

/// Number of bytes that a grid of the given dimensions takes.
pub open spec fn spec_byte_len(width: u32, height: u32) -> int {
    width * height * 4
}

/// The `p`-th sample of a sequence of bytes that holds four bytes a sample.
pub open spec fn spec_sample(bytes: Seq<u8>, p: int) -> Rgba {
    Rgba { r: bytes[4 * p], g: bytes[4 * p + 1], b: bytes[4 * p + 2], a: bytes[4 * p + 3] }
}

impl PixelBuffer {
    #[verifier::type_invariant]
    spec fn inv(self) -> bool {
        self.wf()
    }

    /// Validity of a buffer: the scale is at least 1 and the bytes are those
    /// of `width * height` pixels.
    pub closed spec fn wf(self) -> bool {
        self.scale >= 1 && self.data@.len() == spec_byte_len(self.width, self.height)
    }

    /// The scale of a valid buffer is at least 1, and its bytes are four
    /// for each pixel.
    pub proof fn lemma_scale_is_positive(self)
        requires
            self.wf(),
        ensures
            self.spec_scale() >= 1,
            self@.len() == spec_byte_len(self.spec_width(), self.spec_height()),
    {
    }

    /// Width in pixels.
    pub closed spec fn spec_width(self) -> u32 {
        self.width
    }

    /// Height in pixels.
    pub closed spec fn spec_height(self) -> u32 {
        self.height
    }

    /// Pixels per logical point along each axis.
    pub closed spec fn spec_scale(self) -> u32 {
        self.scale
    }

    /// The sample in column `col` of row `row`, counted in pixels.
    pub open spec fn spec_pixel(self, col: int, row: int) -> Rgba {
        spec_sample(self@, row * self.spec_width() + col)
    }

    /// Extent of the buffer in logical points: the whole points that fit in
    /// `width` and `height` pixels.
    pub open spec fn spec_size(self) -> Size {
        Size {
            width: (self.spec_width() / self.spec_scale()) as u32,
            height: (self.spec_height() / self.spec_scale()) as u32,
        }
    }

    /// The rectangle of all logical points of the buffer, with origin `(0, 0)`.
    pub open spec fn spec_bounds(self) -> Rect {
        Rect { origin: Point { x: 0, y: 0 }, size: self.spec_size() }
    }

    /// The sample at a logical point: the pixel at `scale` times its
    /// coordinates.
    pub open spec fn spec_get(self, x: int, y: int) -> Rgba {
        self.spec_pixel(x * self.spec_scale(), y * self.spec_scale())
    }

    /// A buffer of `width` by `height` pixels over `data`; `None` unless
    /// `scale` is at least 1 and `data` holds four bytes for each pixel.
    pub fn new(width: u32, height: u32, scale: u32, data: Vec<u8>) -> (res: Option<PixelBuffer>)
        ensures
            res is Some <==> scale >= 1 && data@.len() == spec_byte_len(width, height),
            res is Some ==> {
                let b = res->Some_0;
                &&& b.wf()
                &&& b.spec_width() == width
                &&& b.spec_height() == height
                &&& b.spec_scale() == scale
                &&& b@ == data@
            },
    {
        assert(width * height * 4 <= 0xffff_ffff * 0xffff_ffff * 4) by (nonlinear_arith)
            requires
                0 <= width <= 0xffff_ffff,
                0 <= height <= 0xffff_ffff,
        ;
        let expected: u128 = (width as u128) * (height as u128) * 4;
        if scale >= 1 && data.len() as u128 == expected {
            Some(PixelBuffer { width, height, scale, data })
        } else {
            None
        }
    }

    /// Width in pixels.
    pub fn width(&self) -> (w: u32)
        ensures
            w == self.spec_width(),
    {
        self.width
    }

    /// Height in pixels.
    pub fn height(&self) -> (h: u32)
        ensures
            h == self.spec_height(),
    {
        self.height
    }

    /// Pixels per logical point.
    pub fn scale(&self) -> (s: u32)
        ensures
            s == self.spec_scale(),
            s >= 1,
    {
        proof {
            use_type_invariant(self);
        }
        self.scale
    }

    /// Extent in logical points.
    pub fn size(&self) -> (s: Size)
        ensures
            s == self.spec_size(),
    {
        proof {
            use_type_invariant(self);
        }
        Size { width: self.width / self.scale, height: self.height / self.scale }
    }

    /// The rectangle of all logical points, with origin `(0, 0)`.
    pub fn bounds(&self) -> (r: Rect)
        ensures
            r == self.spec_bounds(),
    {
        Rect { origin: Point { x: 0, y: 0 }, size: self.size() }
    }

    /// The bytes of the buffer, borrowed from it and not copied: four bytes
    /// for each pixel, row after row.
    pub fn raw_view(&self) -> (bytes: &[u8])
        ensures
            bytes@ == self@,
            bytes@.len() == spec_byte_len(self.spec_width(), self.spec_height()),
            self.wf(),
    {
        proof {
            use_type_invariant(self);
        }
        self.data.as_slice()
    }

    /// The sample in column `col` of row `row`, counted in pixels.
    pub fn pixel(&self, col: u32, row: u32) -> (c: Rgba)
        requires
            col < self.spec_width(),
            row < self.spec_height(),
        ensures
            c == self.spec_pixel(col as int, row as int),
    {
        let n: usize = self.data.len();
        proof {
            use_type_invariant(self);
            lemma_index_in_range(self.width, self.height, col, row);
            assert(n == spec_byte_len(self.width, self.height));
        }
        let i: usize = 4 * (row as usize * self.width as usize + col as usize);
        Rgba { r: self.data[i], g: self.data[i + 1], b: self.data[i + 2], a: self.data[i + 3] }
    }

    /// The sample at a logical point of the buffer.
    pub fn get(&self, point: Point) -> (c: Rgba)
        requires
            self.spec_bounds().spec_contains_point(point),
        ensures
            c == self.spec_get(point.x as int, point.y as int),
    {
        proof {
            use_type_invariant(self);
            lemma_scaled_in_range(self.width, self.scale, point.x);
            lemma_scaled_in_range(self.height, self.scale, point.y);
        }
        self.pixel(point.x * self.scale, point.y * self.scale)
    }

    /// An independent buffer of the pixels that `rect` covers, with the same
    /// scale: its logical point `(x, y)` is the point
    /// `(rect.origin.x + x, rect.origin.y + y)` of `self`.
    pub fn cropped(&self, rect: Rect) -> (c: PixelBuffer)
        requires
            self.spec_bounds().spec_contains_rect(rect),
        ensures
            c.wf(),
            c.spec_scale() == self.spec_scale(),
            c.spec_width() == rect.size.width * self.spec_scale(),
            c.spec_height() == rect.size.height * self.spec_scale(),
            c.spec_size() == rect.size,
            forall|col: int, row: int|
                0 <= col < c.spec_width() && 0 <= row < c.spec_height() ==> #[trigger] c.spec_pixel(
                    col,
                    row,
                ) == self.spec_pixel(
                    rect.origin.x * self.spec_scale() + col,
                    rect.origin.y * self.spec_scale() + row,
                ),
            forall|x: int, y: int|
                0 <= x < rect.size.width && 0 <= y < rect.size.height ==> #[trigger] c.spec_get(x, y)
                    == self.spec_get(rect.origin.x + x, rect.origin.y + y),
    {
        proof {
            use_type_invariant(self);
            lemma_scaled_rect_in_range(self.width, self.scale, rect.origin.x, rect.size.width);
            lemma_scaled_rect_in_range(self.height, self.scale, rect.origin.y, rect.size.height);
        }
        let w: u32 = rect.size.width * self.scale;
        let h: u32 = rect.size.height * self.scale;
        let x0: u32 = rect.origin.x * self.scale;
        let y0: u32 = rect.origin.y * self.scale;
        assert(w * h <= 0xffff_ffff * 0xffff_ffff) by (nonlinear_arith)
            requires
                0 <= w <= 0xffff_ffff,
                0 <= h <= 0xffff_ffff,
        ;
        let n: u64 = w as u64 * h as u64;
        let mut data: Vec<u8> = Vec::new();
        let mut k: u64 = 0;
        while k < n
            invariant
                self.wf(),
                k <= n,
                n == w * h,
                x0 + w <= self.width,
                y0 + h <= self.height,
                data@.len() == 4 * k,
                forall|p: int|
                    0 <= p < k ==> #[trigger] spec_sample(data@, p) == self.spec_pixel(
                        x0 + p % (w as int),
                        y0 + p / (w as int),
                    ),
            decreases n - k,
        {
            proof {
                lemma_linear_index(w, h, k as int);
            }
            let col: u32 = (k % w as u64) as u32;
            let row: u32 = (k / w as u64) as u32;
            let c = self.pixel(x0 + col, y0 + row);
            let ghost before = data@;
            data.push(c.r);
            data.push(c.g);
            data.push(c.b);
            data.push(c.a);
            proof {
                assert forall|p: int| 0 <= p < k + 1 implies #[trigger] spec_sample(data@, p)
                    == self.spec_pixel(x0 + p % (w as int), y0 + p / (w as int)) by {
                    if p < k {
                        assert(spec_sample(data@, p) == spec_sample(before, p));
                    }
                }
            }
            k += 1;
        }
        let c = PixelBuffer { width: w, height: h, scale: self.scale, data };
        proof {
            assert(c.wf()) by (nonlinear_arith)
                requires
                    c.scale >= 1,
                    c.data@.len() == 4 * (w * h),
                    c.width == w,
                    c.height == h,
                    c.wf() == (c.scale >= 1 && c.data@.len() == c.width * c.height * 4),
            ;
            lemma_scaled_extent(rect.size.width, self.scale);
            lemma_scaled_extent(rect.size.height, self.scale);
            assert forall|col: int, row: int|
                0 <= col < c.spec_width() && 0 <= row < c.spec_height() implies #[trigger] c.spec_pixel(
                col,
                row,
            ) == self.spec_pixel(
                rect.origin.x * self.spec_scale() + col,
                rect.origin.y * self.spec_scale() + row,
            ) by {
                lemma_index_in_range(w, h, col as u32, row as u32);
                lemma_linear_index_of(w, col, row);
                let p = row * w + col;
                assert(spec_sample(data@, p) == self.spec_pixel(x0 + p % (w as int), y0 + p / (w as int)));
            }
            assert forall|x: int, y: int|
                0 <= x < rect.size.width && 0 <= y < rect.size.height implies #[trigger] c.spec_get(
                x,
                y,
            ) == self.spec_get(rect.origin.x + x, rect.origin.y + y) by {
                let s = self.scale as int;
                lemma_scaled_in_range(w, self.scale, x as u32);
                lemma_scaled_in_range(h, self.scale, y as u32);
                assert((rect.origin.x + x) * s == rect.origin.x * s + x * s) by (nonlinear_arith);
                assert((rect.origin.y + y) * s == rect.origin.y * s + y * s) by (nonlinear_arith);
                assert(0 <= x * s && 0 <= y * s) by (nonlinear_arith)
                    requires
                        0 <= x,
                        0 <= y,
                        s >= 1,
                ;
                assert(c.spec_pixel(x * s, y * s) == self.spec_pixel(
                    rect.origin.x * s + x * s,
                    rect.origin.y * s + y * s,
                ));
            }
        }
        c
    }

    /// Whether both buffers have the same dimensions, the same scale and the
    /// same bytes.
    pub fn content_eq(&self, other: &PixelBuffer) -> (e: bool)
        ensures
            e <==> {
                &&& self.spec_width() == other.spec_width()
                &&& self.spec_height() == other.spec_height()
                &&& self.spec_scale() == other.spec_scale()
                &&& self@ == other@
            },
    {
        if self.width != other.width || self.height != other.height || self.scale != other.scale
            || self.data.len() != other.data.len() {
            proof {
                use_type_invariant(self);
                use_type_invariant(other);
            }
            return false;
        }
        let n: usize = self.data.len();
        let mut i: usize = 0;
        while i < n
            invariant
                i <= n,
                n == self.data@.len(),
                n == other.data@.len(),
                forall|j: int| 0 <= j < i ==> self.data@[j] == other.data@[j],
            decreases n - i,
        {
            if self.data[i] != other.data[i] {
                return false;
            }
            i += 1;
        }
        assert(self.data@ =~= other.data@);
        true
    }
}

impl Clone for PixelBuffer {
    /// An independent copy with the same dimensions, scale and bytes.
    fn clone(&self) -> (c: PixelBuffer)
        ensures
            c.wf(),
            c.spec_width() == self.spec_width(),
            c.spec_height() == self.spec_height(),
            c.spec_scale() == self.spec_scale(),
            c@ == self@,
    {
        proof {
            use_type_invariant(self);
        }
        PixelBuffer {
            width: self.width,
            height: self.height,
            scale: self.scale,
            data: self.data.clone(),
        }
    }
}

/// The bytes of the pixel in column `col` of row `row` lie within the bytes
/// of a `width` by `height` grid.
pub proof fn lemma_index_in_range(width: u32, height: u32, col: u32, row: u32)
    requires
        col < width,
        row < height,
    ensures
        0 <= row * width + col < width * height,
        4 * (row * width + col) + 3 < spec_byte_len(width, height),
{
    assert(row * width + col < width * height) by (nonlinear_arith)
        requires
            0 <= col < width,
            0 <= row < height,
    ;
    assert(0 <= row * width) by (nonlinear_arith)
        requires
            0 <= row,
            0 <= width,
    ;
}

/// A range of logical coordinates that ends no later than `extent / scale`
/// covers, times `scale`, pixels that end no later than `extent`.
pub proof fn lemma_scaled_rect_in_range(extent: u32, scale: u32, origin: u32, length: u32)
    requires
        scale >= 1,
        origin + length <= extent / scale,
    ensures
        origin * scale + length * scale <= extent,
        0 <= origin * scale,
        0 <= length * scale,
{
    let q = extent / scale;
    assert(q * scale <= extent) by (nonlinear_arith)
        requires
            q == extent / scale,
            scale >= 1,
            extent >= 0,
    ;
    assert(origin * scale + length * scale <= q * scale && 0 <= origin * scale && 0 <= length
        * scale) by (nonlinear_arith)
        requires
            0 <= origin,
            0 <= length,
            origin + length <= q,
            scale >= 1,
    ;
}

/// A length of `length` logical points is `length * scale` pixels, which
/// holds exactly `length` whole points again.
pub proof fn lemma_scaled_extent(length: u32, scale: u32)
    requires
        scale >= 1,
    ensures
        (length * scale) / (scale as int) == length,
{
    vstd::arithmetic::div_mod::lemma_div_multiples_vanish(length as int, scale as int);
    assert(length * scale == scale * length) by (nonlinear_arith);
}

/// A position `k` in a row-major walk of a `width` by `height` grid lies in
/// column `k % width` of row `k / width`.
pub proof fn lemma_linear_index(width: u32, height: u32, k: int)
    requires
        0 <= k < width * height,
    ensures
        width > 0,
        0 <= k % (width as int) < width,
        0 <= k / (width as int) < height,
        k == (k / (width as int)) * width + k % (width as int),
{
    assert(width > 0) by (nonlinear_arith)
        requires
            0 <= k < width * height,
            width >= 0,
    ;
    let w = width as int;
    vstd::arithmetic::div_mod::lemma_fundamental_div_mod(k, w);
    vstd::arithmetic::div_mod::lemma_mod_bound(k, w);
    let q = k / w;
    assert(w * q == q * w) by (nonlinear_arith);
    assert(0 <= q < height) by (nonlinear_arith)
        requires
            0 <= k < w * height,
            k == q * w + k % w,
            0 <= k % w < w,
            w > 0,
    ;
}

/// The pixel in column `col` of row `row` is position `row * width + col` of
/// a row-major walk.
pub proof fn lemma_linear_index_of(width: u32, col: int, row: int)
    requires
        0 <= col < width,
        0 <= row,
    ensures
        (row * width + col) % (width as int) == col,
        (row * width + col) / (width as int) == row,
{
    vstd::arithmetic::div_mod::lemma_fundamental_div_mod_converse(
        row * width + col,
        width as int,
        row,
        col,
    );
}

/// A logical coordinate below `extent / scale` lands, times `scale`, on a
/// pixel below `extent`.
pub proof fn lemma_scaled_in_range(extent: u32, scale: u32, x: u32)
    requires
        scale >= 1,
        x < extent / scale,
    ensures
        x * scale < extent,
        x * scale + scale <= extent,
{
    let q = extent / scale;
    assert(q * scale <= extent) by (nonlinear_arith)
        requires
            q == extent / scale,
            scale >= 1,
            extent >= 0,
    ;
    assert(x * scale + scale <= q * scale) by (nonlinear_arith)
        requires
            0 <= x < q,
            scale >= 1,
    ;
}

} // verus!
