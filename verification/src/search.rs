//! The search engine: where a colour or a smaller bitmap occurs in a bitmap,
//! within a tolerance, in row-major scan order.

use crate::bitmap::{spec_tolerance, tolerance_or_default, Bitmap};
use crate::buffer::{lemma_index_in_range, lemma_linear_index, PixelBuffer};
use crate::color::{colors_match, spec_color_of_hex, spec_colors_match, Rgba};
use crate::error::BitmapError;
use crate::geometry::{Point, Rect};
use vstd::prelude::*;

verus! {

/// Number of positions that a rectangle holds.
pub open spec fn spec_scan_len(rect: Rect) -> int {
    rect.size.width * rect.size.height
}

/// Place of a point in the row-major walk of a rectangle: the rows above it
/// come first, then the points to its left.
pub open spec fn spec_scan_index(rect: Rect, p: Point) -> int {
    (p.y - rect.origin.y) * rect.size.width + (p.x - rect.origin.x)
}

/// The point at place `k` of the row-major walk of a rectangle.
pub open spec fn spec_scan_point(rect: Rect, k: int) -> Point {
    Point {
        x: (rect.origin.x + k % (rect.size.width as int)) as u32,
        y: (rect.origin.y + k / (rect.size.width as int)) as u32,
    }
}

/// The place at which a scan begins: that of the start point, or the first
/// one where no start point is given.
pub open spec fn spec_scan_start(rect: Rect, start_point: Option<Point>) -> int {
    match start_point {
        Some(p) => spec_scan_index(rect, p),
        None => 0,
    }
}

/// The positions that a scan visits, in the order in which it visits them:
/// from the start point to the right end of its row, then each later row of
/// the rectangle from left to right.
pub open spec fn spec_scan(rect: Rect, start_point: Option<Point>) -> Seq<Point> {
    let first = spec_scan_start(rect, start_point);
    Seq::new((spec_scan_len(rect) - first) as nat, |i: int| spec_scan_point(rect, first + i))
}

/// The rectangle that a search covers: the one given, or the whole bitmap.
pub open spec fn spec_search_rect(hay: PixelBuffer, rect: Option<Rect>) -> Rect {
    match rect {
        Some(r) => r,
        None => hay.spec_bounds(),
    }
}

/// Whether a search can be made: the rectangle lies within the bitmap, and
/// a start point that is given belongs to the rectangle.
pub open spec fn spec_search_in_bounds(
    hay: PixelBuffer,
    rect: Option<Rect>,
    start_point: Option<Point>,
) -> bool {
    let r = spec_search_rect(hay, rect);
    &&& hay.spec_bounds().spec_contains_rect(r)
    &&& start_point is Some ==> r.spec_contains_point(start_point->Some_0)
}

/// The test of a colour search: whether the sample at a point matches
/// `color` within `tolerance`.
pub open spec fn spec_color_at(hay: PixelBuffer, color: Rgba, tolerance: u32) -> spec_fn(
    Point,
) -> bool {
    |p: Point| spec_colors_match(hay.spec_get(p.x as int, p.y as int), color, tolerance)
}

/// Whether `needle`, with its top-left corner on `p`, stays within `rect`
/// and each of its points matches the point of `hay` below it within
/// `tolerance`. A needle without area is nowhere.
pub open spec fn spec_needle_at(
    hay: PixelBuffer,
    needle: PixelBuffer,
    rect: Rect,
    tolerance: u32,
    p: Point,
) -> bool {
    let n = needle.spec_size();
    &&& n.width > 0
    &&& n.height > 0
    &&& p.x + n.width <= rect.spec_max_x()
    &&& p.y + n.height <= rect.spec_max_y()
    &&& forall|i: int, j: int|
        0 <= i < n.width && 0 <= j < n.height ==> spec_colors_match(
            hay.spec_get(p.x + i, p.y + j),
            #[trigger] needle.spec_get(i, j),
            tolerance,
        )
}

/// The test of a bitmap search.
pub open spec fn spec_bitmap_at(
    hay: PixelBuffer,
    needle: PixelBuffer,
    rect: Rect,
    tolerance: u32,
) -> spec_fn(Point) -> bool {
    |p: Point| spec_needle_at(hay, needle, rect, tolerance, p)
}

/// The first element of a sequence, if it has one.
pub open spec fn spec_first(s: Seq<Point>) -> Option<Point> {
    if s.len() > 0 {
        Some(s[0])
    } else {
        None
    }
}

/// Every position of the scan at which `color` is found, in scan order.
pub open spec fn spec_find_every_color(
    hay: PixelBuffer,
    color: u32,
    tolerance: Option<u32>,
    rect: Option<Rect>,
    start_point: Option<Point>,
) -> Seq<Point> {
    spec_scan(spec_search_rect(hay, rect), start_point).filter(
        spec_color_at(hay, spec_color_of_hex(color), spec_tolerance(tolerance)),
    )
}

/// Every position of the scan at which `needle` is found, in scan order.
pub open spec fn spec_find_every_bitmap(
    hay: PixelBuffer,
    needle: PixelBuffer,
    tolerance: Option<u32>,
    rect: Option<Rect>,
    start_point: Option<Point>,
) -> Seq<Point> {
    spec_scan(spec_search_rect(hay, rect), start_point).filter(
        spec_bitmap_at(hay, needle, spec_search_rect(hay, rect), spec_tolerance(tolerance)),
    )
}

/// The first position of the scan at which `color` is found, if there is one.
pub open spec fn spec_find_color(
    hay: PixelBuffer,
    color: u32,
    tolerance: Option<u32>,
    rect: Option<Rect>,
    start_point: Option<Point>,
) -> Option<Point> {
    spec_first(spec_find_every_color(hay, color, tolerance, rect, start_point))
}

/// Number of positions of the scan at which `color` is found.
pub open spec fn spec_count_of_color(
    hay: PixelBuffer,
    color: u32,
    tolerance: Option<u32>,
    rect: Option<Rect>,
    start_point: Option<Point>,
) -> nat {
    spec_find_every_color(hay, color, tolerance, rect, start_point).len()
}

/// The first position of the scan at which `needle` is found, if there is
/// one.
pub open spec fn spec_find_bitmap(
    hay: PixelBuffer,
    needle: PixelBuffer,
    tolerance: Option<u32>,
    rect: Option<Rect>,
    start_point: Option<Point>,
) -> Option<Point> {
    spec_first(spec_find_every_bitmap(hay, needle, tolerance, rect, start_point))
}

/// Number of positions of the scan at which `needle` is found.
pub open spec fn spec_count_of_bitmap(
    hay: PixelBuffer,
    needle: PixelBuffer,
    tolerance: Option<u32>,
    rect: Option<Rect>,
    start_point: Option<Point>,
) -> nat {
    spec_find_every_bitmap(hay, needle, tolerance, rect, start_point).len()
}

/// The error of a bitmap search, if it has one: `ScaleMismatch` where the
/// two bitmaps differ in scale, else `OutOfBounds` where the rectangle or
/// the start point is out of bounds.
pub open spec fn spec_bitmap_search_error(
    hay: PixelBuffer,
    needle: PixelBuffer,
    rect: Option<Rect>,
    start_point: Option<Point>,
) -> Option<BitmapError> {
    if hay.spec_scale() != needle.spec_scale() {
        Some(BitmapError::ScaleMismatch)
    } else if !spec_search_in_bounds(hay, rect, start_point) {
        Some(BitmapError::OutOfBounds)
    } else {
        None
    }
}

/// The outcome of a bitmap search that finds `found` where it can be made.
pub open spec fn spec_bitmap_search<T>(
    hay: PixelBuffer,
    needle: PixelBuffer,
    rect: Option<Rect>,
    start_point: Option<Point>,
    found: T,
) -> Result<T, BitmapError> {
    match spec_bitmap_search_error(hay, needle, rect, start_point) {
        Some(e) => Err(e),
        None => Ok(found),
    }
}

/// The outcome of a colour search that finds `found` where it can be made.
pub open spec fn spec_color_search<T>(
    hay: PixelBuffer,
    rect: Option<Rect>,
    start_point: Option<Point>,
    found: T,
) -> Result<T, BitmapError> {
    if spec_search_in_bounds(hay, rect, start_point) {
        Ok(found)
    } else {
        Err(BitmapError::OutOfBounds)
    }
}

/// What a scan looks for at each position.
enum Probe<'a> {
    Color(Rgba),
    Needle(&'a PixelBuffer),
}

/// The test that a probe makes at each position.
spec fn probe_test(hay: PixelBuffer, probe: Probe, rect: Rect, tolerance: u32) -> spec_fn(
    Point,
) -> bool {
    match probe {
        Probe::Color(c) => spec_color_at(hay, c, tolerance),
        Probe::Needle(n) => spec_bitmap_at(hay, *n, rect, tolerance),
    }
}

/// The positions from place `first` of the walk of `rect` to its end.
spec fn scan_from(rect: Rect, first: int) -> Seq<Point> {
    Seq::new((spec_scan_len(rect) - first) as nat, |i: int| spec_scan_point(rect, first + i))
}

/// Compares the needle with what lies below it when its corner is on `p`,
/// and stops at the first point that differs.
fn needle_at(hay: &PixelBuffer, needle: &PixelBuffer, rect: Rect, tolerance: u32, p: Point) -> (m:
    bool)
    requires
        hay.spec_bounds().spec_contains_rect(rect),
        rect.spec_contains_point(p),
    ensures
        m == spec_needle_at(*hay, *needle, rect, tolerance, p),
{
    let n = needle.size();
    if n.width == 0 || n.height == 0 {
        return false;
    }
    if p.x as u64 + n.width as u64 > rect.max_x() || p.y as u64 + n.height as u64 > rect.max_y() {
        return false;
    }
    let mut j: u32 = 0;
    while j < n.height
        invariant
            j <= n.height,
            n == needle.spec_size(),
            hay.spec_bounds().spec_contains_rect(rect),
            p.x + n.width <= rect.spec_max_x(),
            p.y + n.height <= rect.spec_max_y(),
            forall|a: int, b: int|
                0 <= a < n.width && 0 <= b < j ==> spec_colors_match(
                    hay.spec_get(p.x + a, p.y + b),
                    #[trigger] needle.spec_get(a, b),
                    tolerance,
                ),
        decreases n.height - j,
    {
        let mut i: u32 = 0;
        while i < n.width
            invariant
                i <= n.width,
                j < n.height,
                n == needle.spec_size(),
                hay.spec_bounds().spec_contains_rect(rect),
                p.x + n.width <= rect.spec_max_x(),
                p.y + n.height <= rect.spec_max_y(),
                forall|a: int, b: int|
                    0 <= a < n.width && 0 <= b < j ==> spec_colors_match(
                        hay.spec_get(p.x + a, p.y + b),
                        #[trigger] needle.spec_get(a, b),
                        tolerance,
                    ),
                forall|a: int|
                    0 <= a < i ==> spec_colors_match(
                        hay.spec_get(p.x + a, p.y + j),
                        #[trigger] needle.spec_get(a, j as int),
                        tolerance,
                    ),
            decreases n.width - i,
        {
            let below = hay.get(Point { x: p.x + i, y: p.y + j });
            let own = needle.get(Point { x: i, y: j });
            if !colors_match(below, own, tolerance) {
                assert(!spec_colors_match(
                    hay.spec_get(p.x + i, p.y + j),
                    needle.spec_get(i as int, j as int),
                    tolerance,
                ));
                return false;
            }
            i += 1;
        }
        j += 1;
    }
    true
}

/// Makes the probe's test at one position of the rectangle.
fn probe_hit(hay: &PixelBuffer, probe: &Probe, rect: Rect, tolerance: u32, p: Point) -> (m: bool)
    requires
        hay.spec_bounds().spec_contains_rect(rect),
        rect.spec_contains_point(p),
    ensures
        m == probe_test(*hay, *probe, rect, tolerance)(p),
{
    match probe {
        Probe::Color(c) => colors_match(hay.get(p), *c, tolerance),
        Probe::Needle(n) => needle_at(hay, n, rect, tolerance, p),
    }
}

/// The point at place `k` of the walk of `rect`.
fn scan_point(rect: Rect, k: u64) -> (p: Point)
    requires
        k < spec_scan_len(rect),
        rect.spec_max_x() <= u32::MAX,
        rect.spec_max_y() <= u32::MAX,
    ensures
        p == spec_scan_point(rect, k as int),
        rect.spec_contains_point(p),
{
    proof {
        lemma_linear_index(rect.size.width, rect.size.height, k as int);
    }
    let w: u64 = rect.size.width as u64;
    Point { x: rect.origin.x + (k % w) as u32, y: rect.origin.y + (k / w) as u32 }
}

/// Number of positions of `rect`, and the place at which the scan begins.
fn scan_range(rect: Rect, start_point: Option<Point>) -> (range: (u64, u64))
    requires
        start_point is Some ==> rect.spec_contains_point(start_point->Some_0),
    ensures
        range.0 == spec_scan_start(rect, start_point),
        range.1 == spec_scan_len(rect),
        range.0 <= range.1,
{
    let w: u64 = rect.size.width as u64;
    let h: u64 = rect.size.height as u64;
    assert(0 <= w * h <= 0xffff_ffff * 0xffff_ffff) by (nonlinear_arith)
        requires
            0 <= w <= 0xffff_ffff,
            0 <= h <= 0xffff_ffff,
    ;
    let len: u64 = w * h;
    match start_point {
        Some(p) => {
            let col: u32 = p.x - rect.origin.x;
            let row: u32 = p.y - rect.origin.y;
            proof {
                lemma_index_in_range(rect.size.width, rect.size.height, col, row);
            }
            (row as u64 * w + col as u64, len)
        },
        None => (0, len),
    }
}

/// The first position of the scan that passes the probe's test.
fn first_hit(hay: &PixelBuffer, probe: &Probe, rect: Rect, tolerance: u32, first: u64, len: u64) -> (res:
    Option<Point>)
    requires
        hay.spec_bounds().spec_contains_rect(rect),
        first <= len,
        len == spec_scan_len(rect),
    ensures
        res == spec_first(
            scan_from(rect, first as int).filter(probe_test(*hay, *probe, rect, tolerance)),
        ),
{
    let ghost test = probe_test(*hay, *probe, rect, tolerance);
    let ghost scan = scan_from(rect, first as int);
    let mut k: u64 = first;
    proof {
        reveal(Seq::filter);
        assert(scan.take(0).filter(test).len() == 0);
    }
    while k < len
        invariant
            first <= k <= len,
            len == spec_scan_len(rect),
            hay.spec_bounds().spec_contains_rect(rect),
            test == probe_test(*hay, *probe, rect, tolerance),
            scan == scan_from(rect, first as int),
            scan.take(k - first).filter(test).len() == 0,
        decreases len - k,
    {
        let p = scan_point(rect, k);
        let hit = probe_hit(hay, probe, rect, tolerance, p);
        proof {
            let i = k - first;
            assert(scan[i] == p);
            assert(scan.take(i + 1) =~= scan.take(i).push(p));
            scan.take(i).lemma_filter_push(p, test);
            if hit {
                assert(scan =~= scan.take(i + 1) + scan.skip(i + 1));
                Seq::filter_distributes_over_add(scan.take(i + 1), scan.skip(i + 1), test);
                assert(scan.take(i + 1).filter(test)[0] == p);
                assert(scan.filter(test)[0] == p);
            }
        }
        if hit {
            return Some(p);
        }
        k += 1;
    }
    proof {
        assert(scan.take(len - first) =~= scan);
    }
    None
}

/// Every position of the scan that passes the probe's test, in scan order.
fn every_hit(hay: &PixelBuffer, probe: &Probe, rect: Rect, tolerance: u32, first: u64, len: u64) -> (res:
    Vec<Point>)
    requires
        hay.spec_bounds().spec_contains_rect(rect),
        first <= len,
        len == spec_scan_len(rect),
    ensures
        res@ == scan_from(rect, first as int).filter(probe_test(*hay, *probe, rect, tolerance)),
{
    let ghost test = probe_test(*hay, *probe, rect, tolerance);
    let ghost scan = scan_from(rect, first as int);
    let mut found: Vec<Point> = Vec::new();
    let mut k: u64 = first;
    proof {
        reveal(Seq::filter);
        assert(scan.take(0).filter(test) =~= found@);
    }
    while k < len
        invariant
            first <= k <= len,
            len == spec_scan_len(rect),
            hay.spec_bounds().spec_contains_rect(rect),
            test == probe_test(*hay, *probe, rect, tolerance),
            scan == scan_from(rect, first as int),
            found@ == scan.take(k - first).filter(test),
        decreases len - k,
    {
        let p = scan_point(rect, k);
        proof {
            let i = k - first;
            assert(scan[i] == p);
            assert(scan.take(i + 1) =~= scan.take(i).push(p));
            scan.take(i).lemma_filter_push(p, test);
        }
        if probe_hit(hay, probe, rect, tolerance, p) {
            found.push(p);
        }
        k += 1;
    }
    proof {
        assert(scan.take(len - first) =~= scan);
    }
    found
}

/// Number of positions of the scan that pass the probe's test, counted
/// without keeping them.
fn count_hits(hay: &PixelBuffer, probe: &Probe, rect: Rect, tolerance: u32, first: u64, len: u64) -> (res:
    u64)
    requires
        hay.spec_bounds().spec_contains_rect(rect),
        first <= len,
        len == spec_scan_len(rect),
    ensures
        res == scan_from(rect, first as int).filter(
            probe_test(*hay, *probe, rect, tolerance),
        ).len(),
{
    let ghost test = probe_test(*hay, *probe, rect, tolerance);
    let ghost scan = scan_from(rect, first as int);
    let mut count: u64 = 0;
    let mut k: u64 = first;
    proof {
        reveal(Seq::filter);
        assert(scan.take(0).filter(test).len() == 0);
    }
    while k < len
        invariant
            first <= k <= len,
            len == spec_scan_len(rect),
            hay.spec_bounds().spec_contains_rect(rect),
            test == probe_test(*hay, *probe, rect, tolerance),
            scan == scan_from(rect, first as int),
            count == scan.take(k - first).filter(test).len(),
            count <= k - first,
        decreases len - k,
    {
        let p = scan_point(rect, k);
        proof {
            let i = k - first;
            assert(scan[i] == p);
            assert(scan.take(i + 1) =~= scan.take(i).push(p));
            scan.take(i).lemma_filter_push(p, test);
        }
        if probe_hit(hay, probe, rect, tolerance, p) {
            count += 1;
        }
        k += 1;
    }
    proof {
        assert(scan.take(len - first) =~= scan);
    }
    count
}

impl Bitmap {
    /// Checks the rectangle and the start point of a search against the
    /// bitmap and gives the rectangle that the search covers.
    fn search_rect(&self, rect: Option<Rect>, start_point: Option<Point>) -> (res: Option<Rect>)
        ensures
            res is Some <==> spec_search_in_bounds(self@, rect, start_point),
            res is Some ==> res->Some_0 == spec_search_rect(self@, rect),
    {
        let bounds = self.bounds();
        let r = match rect {
            Some(r) => r,
            None => bounds,
        };
        if !bounds.contains_rect(r) {
            return None;
        }
        match start_point {
            Some(p) => {
                if !r.contains_point(p) {
                    return None;
                }
            },
            None => {},
        }
        Some(r)
    }

    /// The first position, in scan order, whose sample matches `color`
    /// within `tolerance`, or `None` where no position of the scan does.
    /// The scan covers `rect`, or the whole bitmap, from `start_point`, or
    /// from the origin of the rectangle. `OutOfBounds` unless the rectangle
    /// lies within the bitmap and a start point that is given belongs to the
    /// rectangle.
    pub fn find_color(
        &self,
        color: u32,
        tolerance: Option<u32>,
        rect: Option<Rect>,
        start_point: Option<Point>,
    ) -> (res: Result<Option<Point>, BitmapError>)
        ensures
            res == spec_color_search(
                self@,
                rect,
                start_point,
                spec_find_color(self@, color, tolerance, rect, start_point),
            ),
    {
        match self.search_rect(rect, start_point) {
            None => Err(BitmapError::OutOfBounds),
            Some(r) => {
                let probe = Probe::Color(Rgba::from_hex(color));
                let t = tolerance_or_default(tolerance);
                let (first, len) = scan_range(r, start_point);
                Ok(first_hit(self.buffer(), &probe, r, t, first, len))
            },
        }
    }

    /// Every position of the scan whose sample matches `color` within
    /// `tolerance`, in scan order; empty where there is none. Rectangle,
    /// start point and error are those of `find_color`.
    pub fn find_every_color(
        &self,
        color: u32,
        tolerance: Option<u32>,
        rect: Option<Rect>,
        start_point: Option<Point>,
    ) -> (res: Result<Vec<Point>, BitmapError>)
        ensures
            res is Ok <==> spec_search_in_bounds(self@, rect, start_point),
            res is Ok ==> res->Ok_0@ == spec_find_every_color(
                self@,
                color,
                tolerance,
                rect,
                start_point,
            ),
            res is Err ==> res->Err_0 == BitmapError::OutOfBounds,
    {
        match self.search_rect(rect, start_point) {
            None => Err(BitmapError::OutOfBounds),
            Some(r) => {
                let probe = Probe::Color(Rgba::from_hex(color));
                let t = tolerance_or_default(tolerance);
                let (first, len) = scan_range(r, start_point);
                Ok(every_hit(self.buffer(), &probe, r, t, first, len))
            },
        }
    }

    /// Number of positions of the scan whose sample matches `color` within
    /// `tolerance`: the length of what `find_every_color` returns, counted
    /// without building it.
    pub fn count_of_color(
        &self,
        color: u32,
        tolerance: Option<u32>,
        rect: Option<Rect>,
        start_point: Option<Point>,
    ) -> (res: Result<u64, BitmapError>)
        ensures
            res is Ok <==> spec_search_in_bounds(self@, rect, start_point),
            res is Ok ==> res->Ok_0 == spec_count_of_color(
                self@,
                color,
                tolerance,
                rect,
                start_point,
            ),
            res is Err ==> res->Err_0 == BitmapError::OutOfBounds,
    {
        match self.search_rect(rect, start_point) {
            None => Err(BitmapError::OutOfBounds),
            Some(r) => {
                let probe = Probe::Color(Rgba::from_hex(color));
                let t = tolerance_or_default(tolerance);
                let (first, len) = scan_range(r, start_point);
                Ok(count_hits(self.buffer(), &probe, r, t, first, len))
            },
        }
    }

    /// The first position, in scan order, at which `needle` is found within
    /// `tolerance`: the needle, with its top-left corner there, stays within
    /// the rectangle and each of its points matches the point below it.
    /// `None` where it is found nowhere, as when the needle is larger than
    /// the rectangle or has no area. `ScaleMismatch` where the two bitmaps
    /// differ in scale; else `OutOfBounds` as for `find_color`.
    pub fn find_bitmap(
        &self,
        needle: &Bitmap,
        tolerance: Option<u32>,
        rect: Option<Rect>,
        start_point: Option<Point>,
    ) -> (res: Result<Option<Point>, BitmapError>)
        ensures
            res == spec_bitmap_search(
                self@,
                needle@,
                rect,
                start_point,
                spec_find_bitmap(self@, needle@, tolerance, rect, start_point),
            ),
    {
        if needle.scale() != self.scale() {
            return Err(BitmapError::ScaleMismatch);
        }
        match self.search_rect(rect, start_point) {
            None => Err(BitmapError::OutOfBounds),
            Some(r) => {
                let probe = Probe::Needle(needle.buffer());
                let t = tolerance_or_default(tolerance);
                let (first, len) = scan_range(r, start_point);
                Ok(first_hit(self.buffer(), &probe, r, t, first, len))
            },
        }
    }

    /// Every position of the scan at which `needle` is found within
    /// `tolerance`, in scan order; empty where there is none. Errors are
    /// those of `find_bitmap`.
    pub fn find_every_bitmap(
        &self,
        needle: &Bitmap,
        tolerance: Option<u32>,
        rect: Option<Rect>,
        start_point: Option<Point>,
    ) -> (res: Result<Vec<Point>, BitmapError>)
        ensures
            res is Ok <==> spec_bitmap_search_error(self@, needle@, rect, start_point) is None,
            res is Ok ==> res->Ok_0@ == spec_find_every_bitmap(
                self@,
                needle@,
                tolerance,
                rect,
                start_point,
            ),
            res is Err ==> Some(res->Err_0) == spec_bitmap_search_error(
                self@,
                needle@,
                rect,
                start_point,
            ),
    {
        if needle.scale() != self.scale() {
            return Err(BitmapError::ScaleMismatch);
        }
        match self.search_rect(rect, start_point) {
            None => Err(BitmapError::OutOfBounds),
            Some(r) => {
                let probe = Probe::Needle(needle.buffer());
                let t = tolerance_or_default(tolerance);
                let (first, len) = scan_range(r, start_point);
                Ok(every_hit(self.buffer(), &probe, r, t, first, len))
            },
        }
    }

    /// Number of positions of the scan at which `needle` is found within
    /// `tolerance`: the length of what `find_every_bitmap` returns, counted
    /// without building it.
    pub fn count_of_bitmap(
        &self,
        needle: &Bitmap,
        tolerance: Option<u32>,
        rect: Option<Rect>,
        start_point: Option<Point>,
    ) -> (res: Result<u64, BitmapError>)
        ensures
            res is Ok <==> spec_bitmap_search_error(self@, needle@, rect, start_point) is None,
            res is Ok ==> res->Ok_0 == spec_count_of_bitmap(
                self@,
                needle@,
                tolerance,
                rect,
                start_point,
            ),
            res is Err ==> Some(res->Err_0) == spec_bitmap_search_error(
                self@,
                needle@,
                rect,
                start_point,
            ),
    {
        if needle.scale() != self.scale() {
            return Err(BitmapError::ScaleMismatch);
        }
        match self.search_rect(rect, start_point) {
            None => Err(BitmapError::OutOfBounds),
            Some(r) => {
                let probe = Probe::Needle(needle.buffer());
                let t = tolerance_or_default(tolerance);
                let (first, len) = scan_range(r, start_point);
                Ok(count_hits(self.buffer(), &probe, r, t, first, len))
            },
        }
    }
}

} // verus!
