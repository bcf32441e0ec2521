//! The bitmap: a pixel buffer with its bounds, point queries, cropping and
//! comparison within a tolerance.

use crate::buffer::PixelBuffer;
use crate::color::{colors_match, spec_colors_match, spec_rgb_to_hex, Rgba};
use crate::error::BitmapError;
use crate::geometry::{Point, Rect, Size};
use vstd::prelude::*;

verus! {

/// An image that can be searched. It owns its pixel buffer.
#[derive(Debug, PartialEq, Eq, Hash)]
pub struct Bitmap {
    buffer: PixelBuffer,
}

impl View for Bitmap {
    type V = PixelBuffer;

    /// The pixel buffer of the bitmap.
    closed spec fn view(&self) -> PixelBuffer {
        self.buffer
    }
}

/// Whether two buffers agree in width, height and scale and each pixel of
/// one is within `tolerance` steps of the pixel in the same place of the
/// other.
pub open spec fn spec_bitmap_eq(a: PixelBuffer, b: PixelBuffer, tolerance: u32) -> bool {
    &&& a.spec_width() == b.spec_width()
    &&& a.spec_height() == b.spec_height()
    &&& a.spec_scale() == b.spec_scale()
    &&& forall|col: int, row: int|
        0 <= col < a.spec_width() && 0 <= row < a.spec_height() ==> spec_colors_match(
            #[trigger] a.spec_pixel(col, row),
            b.spec_pixel(col, row),
            tolerance,
        )
}

/// The tolerance that an absent argument stands for: an exact match.
pub open spec fn spec_tolerance(tolerance: Option<u32>) -> u32 {
    match tolerance {
        Some(t) => t,
        None => 0,
    }
}

/// The tolerance that an absent argument stands for: an exact match.
pub fn tolerance_or_default(tolerance: Option<u32>) -> (t: u32)
    ensures
        t == spec_tolerance(tolerance),
{
    match tolerance {
        Some(t) => t,
        None => 0,
    }
}

impl Bitmap {
    /// The bitmap that owns `buffer`.
    pub fn new(buffer: PixelBuffer) -> (b: Bitmap)
        ensures
            b@ == buffer,
    {
        Bitmap { buffer }
    }

    /// A bitmap of `width` by `height` pixels over `data`, four bytes a
    /// pixel; an absent scale is 1. `None` unless the scale is at least 1
    /// and `data` has `width * height * 4` bytes.
    pub fn from_raw(width: u32, height: u32, scale: Option<u32>, data: Vec<u8>) -> (res: Option<
        Bitmap,
    >)
        ensures
            res is Some <==> (scale is Some ==> scale->Some_0 >= 1) && data@.len()
                == crate::buffer::spec_byte_len(width, height),
            res is Some ==> {
                let b = res->Some_0;
                &&& b@.wf()
                &&& b@.spec_width() == width
                &&& b@.spec_height() == height
                &&& b@.spec_scale() == (if scale is Some {
                    scale->Some_0
                } else {
                    1
                })
                &&& b@@ == data@
            },
    {
        let s: u32 = match scale {
            Some(s) => s,
            None => 1,
        };
        match PixelBuffer::new(width, height, s, data) {
            Some(buffer) => Some(Bitmap { buffer }),
            None => None,
        }
    }

    /// The pixel buffer of the bitmap.
    pub fn buffer(&self) -> (b: &PixelBuffer)
        ensures
            *b == self@,
    {
        &self.buffer
    }

    /// Pixels per logical point.
    pub fn scale(&self) -> (s: u32)
        ensures
            s == self@.spec_scale(),
            s >= 1,
    {
        self.buffer.scale()
    }

    /// Width in logical points.
    pub fn width(&self) -> (w: u32)
        ensures
            w == self@.spec_size().width,
    {
        self.buffer.size().width
    }

    /// Height in logical points.
    pub fn height(&self) -> (h: u32)
        ensures
            h == self@.spec_size().height,
    {
        self.buffer.size().height
    }

    /// Extent in logical points.
    pub fn size(&self) -> (s: Size)
        ensures
            s == self@.spec_size(),
    {
        self.buffer.size()
    }

    /// The rectangle of all logical points of the bitmap; its origin is
    /// `(0, 0)`.
    pub fn bounds(&self) -> (r: Rect)
        ensures
            r == self@.spec_bounds(),
    {
        self.buffer.bounds()
    }

    /// Whether the point is one of the bitmap.
    pub fn point_in_bounds(&self, point: Point) -> (c: bool)
        ensures
            c == self@.spec_bounds().spec_contains_point(point),
    {
        self.buffer.bounds().contains_point(point)
    }

    /// Whether the rectangle lies within the bitmap.
    pub fn rect_in_bounds(&self, rect: Rect) -> (c: bool)
        ensures
            c == self@.spec_bounds().spec_contains_rect(rect),
    {
        self.buffer.bounds().contains_rect(rect)
    }

    /// The sample at a point of the bitmap; `OutOfBounds` for any other
    /// point.
    pub fn get_pixel(&self, point: Point) -> (res: Result<Rgba, BitmapError>)
        ensures
            self@.spec_bounds().spec_contains_point(point) ==> res == Ok::<Rgba, BitmapError>(
                self@.spec_get(point.x as int, point.y as int),
            ),
            !self@.spec_bounds().spec_contains_point(point) ==> res == Err::<Rgba, BitmapError>(
                BitmapError::OutOfBounds,
            ),
    {
        if !self.point_in_bounds(point) {
            Err(BitmapError::OutOfBounds)
        } else {
            Ok(self.buffer.get(point))
        }
    }

    /// The packed colour at a point of the bitmap, without its alpha;
    /// `OutOfBounds` for any other point.
    pub fn get_color(&self, point: Point) -> (res: Result<u32, BitmapError>)
        ensures
            self@.spec_bounds().spec_contains_point(point) ==> res == Ok::<u32, BitmapError>(
                {
                    let c = self@.spec_get(point.x as int, point.y as int);
                    spec_rgb_to_hex(c.r, c.g, c.b)
                },
            ),
            !self@.spec_bounds().spec_contains_point(point) ==> res == Err::<u32, BitmapError>(
                BitmapError::OutOfBounds,
            ),
    {
        if !self.point_in_bounds(point) {
            Err(BitmapError::OutOfBounds)
        } else {
            let c = self.buffer.get(point);
            Ok(c.to_hex())
        }
    }

    /// Whether the bitmap has a pixel in column `col` of row `row`.
    pub fn pixel_in_bounds(&self, col: u32, row: u32) -> (c: bool)
        ensures
            c == (col < self@.spec_width() && row < self@.spec_height()),
    {
        col < self.buffer.width() && row < self.buffer.height()
    }

    /// The packed colour of the pixel in column `col` of row `row`, without
    /// its alpha; `OutOfBounds` where the bitmap has no such pixel. The
    /// logical point `(x, y)` is the pixel `(x * scale, y * scale)`; a
    /// position between whole points is the pixel that its coordinates
    /// times the scale, rounded down, name.
    pub fn get_color_at_pixel(&self, col: u32, row: u32) -> (res: Result<u32, BitmapError>)
        ensures
            col < self@.spec_width() && row < self@.spec_height() ==> res == Ok::<
                u32,
                BitmapError,
            >(
                {
                    let c = self@.spec_pixel(col as int, row as int);
                    spec_rgb_to_hex(c.r, c.g, c.b)
                },
            ),
            !(col < self@.spec_width() && row < self@.spec_height()) ==> res == Err::<
                u32,
                BitmapError,
            >(BitmapError::OutOfBounds),
    {
        if !self.pixel_in_bounds(col, row) {
            Err(BitmapError::OutOfBounds)
        } else {
            let c = self.buffer.pixel(col, row);
            Ok(c.to_hex())
        }
    }

    /// A new bitmap of the part that `rect` covers, with the same scale and
    /// pixels of its own; `OutOfBounds` unless `rect` lies within the
    /// bitmap. The point `(x, y)` of the new bitmap is the point
    /// `(rect.origin.x + x, rect.origin.y + y)` of this one.
    pub fn cropped(&self, rect: Rect) -> (res: Result<Bitmap, BitmapError>)
        ensures
            res is Ok <==> self@.spec_bounds().spec_contains_rect(rect),
            res is Err ==> res == Err::<Bitmap, BitmapError>(BitmapError::OutOfBounds),
            res is Ok ==> {
                let c = res->Ok_0@;
                let s = self@.spec_scale();
                &&& c.wf()
                &&& c.spec_scale() == s
                &&& c.spec_width() == rect.size.width * s
                &&& c.spec_height() == rect.size.height * s
                &&& c.spec_size() == rect.size
                &&& forall|col: int, row: int|
                    0 <= col < c.spec_width() && 0 <= row < c.spec_height() ==> #[trigger] c.spec_pixel(
                        col,
                        row,
                    ) == self@.spec_pixel(rect.origin.x * s + col, rect.origin.y * s + row)
                &&& forall|x: int, y: int|
                    0 <= x < rect.size.width && 0 <= y < rect.size.height ==> #[trigger] c.spec_get(
                        x,
                        y,
                    ) == self@.spec_get(rect.origin.x + x, rect.origin.y + y)
            },
    {
        if !self.rect_in_bounds(rect) {
            Err(BitmapError::OutOfBounds)
        } else {
            Ok(Bitmap { buffer: self.buffer.cropped(rect) })
        }
    }

    /// Whether `bitmap` has the width, height and scale of `self` and each
    /// of its pixels is within `tolerance` steps of the pixel in the same
    /// place of `self`. An absent tolerance is 0: red, green and blue of
    /// every pixel agree.
    pub fn is_bitmap_equal(&self, bitmap: &Bitmap, tolerance: Option<u32>) -> (e: bool)
        ensures
            e == spec_bitmap_eq(self@, bitmap@, spec_tolerance(tolerance)),
    {
        let t = tolerance_or_default(tolerance);
        let a = &self.buffer;
        let b = &bitmap.buffer;
        if a.width() != b.width() || a.height() != b.height() || a.scale() != b.scale() {
            return false;
        }
        let w: u32 = a.width();
        let h: u32 = a.height();
        let mut row: u32 = 0;
        while row < h
            invariant
                row <= h,
                *a == self@,
                *b == bitmap@,
                t == spec_tolerance(tolerance),
                w == a.spec_width(),
                w == b.spec_width(),
                h == a.spec_height(),
                h == b.spec_height(),
                forall|c: int, r: int|
                    0 <= c < w && 0 <= r < row ==> spec_colors_match(
                        #[trigger] a.spec_pixel(c, r),
                        b.spec_pixel(c, r),
                        t,
                    ),
            decreases h - row,
        {
            let mut col: u32 = 0;
            while col < w
                invariant
                    col <= w,
                    row < h,
                    *a == self@,
                    *b == bitmap@,
                    t == spec_tolerance(tolerance),
                    w == a.spec_width(),
                    w == b.spec_width(),
                    h == a.spec_height(),
                    h == b.spec_height(),
                    forall|c: int, r: int|
                        0 <= c < w && 0 <= r < row ==> spec_colors_match(
                            #[trigger] a.spec_pixel(c, r),
                            b.spec_pixel(c, r),
                            t,
                        ),
                    forall|c: int|
                        0 <= c < col ==> spec_colors_match(
                            #[trigger] a.spec_pixel(c, row as int),
                            b.spec_pixel(c, row as int),
                            t,
                        ),
                decreases w - col,
            {
                if !colors_match(a.pixel(col, row), b.pixel(col, row), t) {
                    assert(!spec_colors_match(
                        self@.spec_pixel(col as int, row as int),
                        bitmap@.spec_pixel(col as int, row as int),
                        t,
                    ));
                    return false;
                }
                col += 1;
            }
            row += 1;
        }
        true
    }
}

impl Clone for Bitmap {
    /// An independent copy of the bitmap.
    fn clone(&self) -> (c: Bitmap)
        ensures
            c@.wf(),
            c@.spec_width() == self@.spec_width(),
            c@.spec_height() == self@.spec_height(),
            c@.spec_scale() == self@.spec_scale(),
            c@@ == self@@,
    {
        Bitmap { buffer: self.buffer.clone() }
    }
}

/// A logical point of a bitmap is the pixel at its coordinates times the
/// scale: that pixel exists, and reading the point reads it.
pub proof fn lemma_point_is_scaled_pixel(a: PixelBuffer, p: Point)
    requires
        a.wf(),
        a.spec_bounds().spec_contains_point(p),
    ensures
        0 <= p.x * a.spec_scale() < a.spec_width(),
        0 <= p.y * a.spec_scale() < a.spec_height(),
        a.spec_get(p.x as int, p.y as int) == a.spec_pixel(
            p.x * a.spec_scale(),
            p.y * a.spec_scale(),
        ),
{
    a.lemma_scale_is_positive();
    crate::buffer::lemma_scaled_in_range(a.spec_width(), a.spec_scale(), p.x);
    crate::buffer::lemma_scaled_in_range(a.spec_height(), a.spec_scale(), p.y);
    assert(0 <= p.x * a.spec_scale() && 0 <= p.y * a.spec_scale()) by (nonlinear_arith)
        requires
            0 <= p.x,
            0 <= p.y,
            a.spec_scale() >= 1,
    ;
}

/// A bitmap equals itself, and every bitmap with the same dimensions, scale
/// and bytes, at every tolerance.
pub proof fn lemma_bitmap_eq_same_content(a: PixelBuffer, b: PixelBuffer, tolerance: u32)
    requires
        a.spec_width() == b.spec_width(),
        a.spec_height() == b.spec_height(),
        a.spec_scale() == b.spec_scale(),
        a@ == b@,
    ensures
        spec_bitmap_eq(a, b, tolerance),
        spec_bitmap_eq(a, a, tolerance),
{
}

/// Equality within a tolerance does not depend on the order of the two
/// bitmaps.
pub proof fn lemma_bitmap_eq_symmetric(a: PixelBuffer, b: PixelBuffer, tolerance: u32)
    ensures
        spec_bitmap_eq(a, b, tolerance) == spec_bitmap_eq(b, a, tolerance),
{
    if spec_bitmap_eq(a, b, tolerance) {
        assert forall|col: int, row: int|
            0 <= col < b.spec_width() && 0 <= row < b.spec_height() implies spec_colors_match(
            #[trigger] b.spec_pixel(col, row),
            a.spec_pixel(col, row),
            tolerance,
        ) by {
            assert(spec_colors_match(a.spec_pixel(col, row), b.spec_pixel(col, row), tolerance));
        }
    }
    if spec_bitmap_eq(b, a, tolerance) {
        assert forall|col: int, row: int|
            0 <= col < a.spec_width() && 0 <= row < a.spec_height() implies spec_colors_match(
            #[trigger] a.spec_pixel(col, row),
            b.spec_pixel(col, row),
            tolerance,
        ) by {
            assert(spec_colors_match(b.spec_pixel(col, row), a.spec_pixel(col, row), tolerance));
        }
    }
}

/// Bitmaps that are equal within one tolerance are equal within every
/// larger one.
pub proof fn lemma_bitmap_eq_monotonic(a: PixelBuffer, b: PixelBuffer, t1: u32, t2: u32)
    requires
        t1 <= t2,
        spec_bitmap_eq(a, b, t1),
    ensures
        spec_bitmap_eq(a, b, t2),
{
    assert forall|col: int, row: int|
        0 <= col < a.spec_width() && 0 <= row < a.spec_height() implies spec_colors_match(
        #[trigger] a.spec_pixel(col, row),
        b.spec_pixel(col, row),
        t2,
    ) by {
        assert(spec_colors_match(a.spec_pixel(col, row), b.spec_pixel(col, row), t1));
    }
}

/// At tolerance 0 two bitmaps are equal exactly when they agree in width,
/// height and scale and in red, green and blue of every pixel.
pub proof fn lemma_bitmap_eq_exact(a: PixelBuffer, b: PixelBuffer)
    ensures
        spec_bitmap_eq(a, b, 0) <==> {
            &&& a.spec_width() == b.spec_width()
            &&& a.spec_height() == b.spec_height()
            &&& a.spec_scale() == b.spec_scale()
            &&& forall|col: int, row: int|
                0 <= col < a.spec_width() && 0 <= row < a.spec_height() ==> {
                    let p = #[trigger] a.spec_pixel(col, row);
                    let q = b.spec_pixel(col, row);
                    p.r == q.r && p.g == q.g && p.b == q.b
                }
        },
{
    if spec_bitmap_eq(a, b, 0) {
        assert forall|col: int, row: int|
            0 <= col < a.spec_width() && 0 <= row < a.spec_height() implies {
            let p = #[trigger] a.spec_pixel(col, row);
            let q = b.spec_pixel(col, row);
            p.r == q.r && p.g == q.g && p.b == q.b
        } by {
            assert(spec_colors_match(a.spec_pixel(col, row), b.spec_pixel(col, row), 0));
        }
    }
}

/// A pixel that differs by more than the tolerance makes two bitmaps
/// unequal.
pub proof fn lemma_bitmap_eq_needs_every_pixel(
    a: PixelBuffer,
    b: PixelBuffer,
    tolerance: u32,
    col: int,
    row: int,
)
    requires
        0 <= col < a.spec_width(),
        0 <= row < a.spec_height(),
        !spec_colors_match(a.spec_pixel(col, row), b.spec_pixel(col, row), tolerance),
    ensures
        !spec_bitmap_eq(a, b, tolerance),
{
}

} // verus!
