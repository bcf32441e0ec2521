//! What holds of every search: the order of the scan, what the first match
//! is, and the cases in which nothing can be found.

use crate::bitmap::spec_tolerance;
use crate::buffer::{lemma_index_in_range, lemma_linear_index, lemma_linear_index_of, PixelBuffer};
use crate::color::MAX_DISTANCE;
use crate::error::BitmapError;
use crate::geometry::{Point, Rect};
use crate::search::{
    spec_bitmap_at, spec_bitmap_search, spec_count_of_bitmap, spec_count_of_color, spec_find_bitmap, spec_find_color,
    spec_find_every_bitmap, spec_find_every_color, spec_first, spec_needle_at, spec_scan,
    spec_scan_index, spec_scan_len, spec_scan_point, spec_scan_start, spec_search_in_bounds,
    spec_search_rect,
};
use vstd::prelude::*;

verus! {

/// Whether `p` comes before `q` when rows are read from top to bottom and
/// each row from left to right.
pub open spec fn spec_row_major_before(p: Point, q: Point) -> bool {
    p.y < q.y || (p.y == q.y && p.x < q.x)
}

/// Whether a rectangle and a start point can be scanned: the far edges of
/// the rectangle are coordinates, and a start point that is given belongs
/// to it. Every rectangle within a bitmap has such edges.
pub open spec fn spec_scannable(rect: Rect, start_point: Option<Point>) -> bool {
    &&& rect.spec_max_x() <= u32::MAX
    &&& rect.spec_max_y() <= u32::MAX
    &&& start_point is Some ==> rect.spec_contains_point(start_point->Some_0)
}

/// A search that is in bounds scans a rectangle that can be scanned.
pub proof fn lemma_in_bounds_scannable(
    hay: PixelBuffer,
    rect: Option<Rect>,
    start_point: Option<Point>,
)
    requires
        spec_search_in_bounds(hay, rect, start_point),
    ensures
        spec_scannable(spec_search_rect(hay, rect), start_point),
{
}

/// The scan begins at a place of the rectangle and ends with its last one.
pub proof fn lemma_scan_length(rect: Rect, start_point: Option<Point>)
    requires
        spec_scannable(rect, start_point),
    ensures
        0 <= spec_scan_start(rect, start_point) <= spec_scan_len(rect),
        start_point is Some ==> spec_scan_start(rect, start_point) < spec_scan_len(rect),
        spec_scan(rect, start_point).len() == spec_scan_len(rect) - spec_scan_start(
            rect,
            start_point,
        ),
        spec_scan_len(rect) <= u64::MAX,
{
    let w = rect.size.width;
    let h = rect.size.height;
    assert(0 <= w * h <= 0xffff_ffff * 0xffff_ffff) by (nonlinear_arith)
        requires
            0 <= w <= 0xffff_ffff,
            0 <= h <= 0xffff_ffff,
    ;
    if let Some(p) = start_point {
        lemma_index_in_range(w, h, (p.x - rect.origin.x) as u32, (p.y - rect.origin.y) as u32);
    }
}

/// The `i`-th position of a scan is the point at place `start + i` of the
/// rectangle: it belongs to the rectangle, and its place is `start + i`.
pub proof fn lemma_scan_position(rect: Rect, start_point: Option<Point>, i: int)
    requires
        spec_scannable(rect, start_point),
        0 <= i < spec_scan(rect, start_point).len(),
    ensures
        rect.spec_contains_point(spec_scan(rect, start_point)[i]),
        spec_scan_index(rect, spec_scan(rect, start_point)[i]) == spec_scan_start(
            rect,
            start_point,
        ) + i,
{
    lemma_scan_length(rect, start_point);
    let k = spec_scan_start(rect, start_point) + i;
    lemma_linear_index(rect.size.width, rect.size.height, k);
    assert(spec_scan(rect, start_point)[i] == spec_scan_point(rect, k));
}

/// The scan begins with the start point, and with the origin of the
/// rectangle where no start point is given and the rectangle has area.
pub proof fn lemma_scan_begins_at_start(rect: Rect, start_point: Option<Point>)
    requires
        spec_scannable(rect, start_point),
        spec_scan_len(rect) > 0,
    ensures
        spec_scan(rect, start_point).len() > 0,
        spec_scan(rect, start_point)[0] == (match start_point {
            Some(p) => p,
            None => rect.origin,
        }),
{
    lemma_scan_length(rect, start_point);
    lemma_scan_position(rect, start_point, 0);
    let p = spec_scan(rect, start_point)[0];
    let q = match start_point {
        Some(p) => p,
        None => rect.origin,
    };
    lemma_linear_index(rect.size.width, rect.size.height, 0);
    assert(rect.spec_contains_point(q));
    lemma_place_decides_point(rect, p, q);
}

/// Two points of a rectangle with the same place are the same point.
pub proof fn lemma_place_decides_point(rect: Rect, p: Point, q: Point)
    requires
        rect.spec_contains_point(p),
        rect.spec_contains_point(q),
        spec_scan_index(rect, p) == spec_scan_index(rect, q),
    ensures
        p == q,
{
    let w = rect.size.width;
    lemma_linear_index_of(w, p.x - rect.origin.x, p.y - rect.origin.y);
    lemma_linear_index_of(w, q.x - rect.origin.x, q.y - rect.origin.y);
}

/// Places follow the row-major order: of two points of a rectangle, the one
/// in the higher row, or further left in the same row, has the lower place.
pub proof fn lemma_place_is_row_major(rect: Rect, p: Point, q: Point)
    requires
        rect.spec_contains_point(p),
        rect.spec_contains_point(q),
    ensures
        spec_scan_index(rect, p) < spec_scan_index(rect, q) <==> spec_row_major_before(p, q),
{
    let w = rect.size.width as int;
    let pr = p.y - rect.origin.y;
    let qr = q.y - rect.origin.y;
    let pc = p.x - rect.origin.x;
    let qc = q.x - rect.origin.x;
    if pr < qr {
        assert(pr * w + w <= qr * w) by (nonlinear_arith)
            requires
                pr < qr,
                w >= 0,
        ;
    } else if qr < pr {
        assert(qr * w + w <= pr * w) by (nonlinear_arith)
            requires
                qr < pr,
                w >= 0,
        ;
    }
}

/// A scan is in row-major order: of two of its positions the earlier one
/// lies in a higher row, or further left in the same row.
pub proof fn lemma_scan_is_row_major(rect: Rect, start_point: Option<Point>, i: int, j: int)
    requires
        spec_scannable(rect, start_point),
        0 <= i < j < spec_scan(rect, start_point).len(),
    ensures
        spec_row_major_before(spec_scan(rect, start_point)[i], spec_scan(rect, start_point)[j]),
{
    lemma_scan_position(rect, start_point, i);
    lemma_scan_position(rect, start_point, j);
    lemma_place_is_row_major(
        rect,
        spec_scan(rect, start_point)[i],
        spec_scan(rect, start_point)[j],
    );
}

/// A scan visits every point of the rectangle that does not come before
/// the start point, at the place that its distance from the start gives.
pub proof fn lemma_scan_is_complete(rect: Rect, start_point: Option<Point>, p: Point)
    requires
        spec_scannable(rect, start_point),
        rect.spec_contains_point(p),
        spec_scan_index(rect, p) >= spec_scan_start(rect, start_point),
    ensures
        0 <= spec_scan_index(rect, p) - spec_scan_start(rect, start_point) < spec_scan(
            rect,
            start_point,
        ).len(),
        spec_scan(rect, start_point)[spec_scan_index(rect, p) - spec_scan_start(rect, start_point)]
            == p,
{
    lemma_scan_length(rect, start_point);
    lemma_index_in_range(
        rect.size.width,
        rect.size.height,
        (p.x - rect.origin.x) as u32,
        (p.y - rect.origin.y) as u32,
    );
    let i = spec_scan_index(rect, p) - spec_scan_start(rect, start_point);
    lemma_scan_position(rect, start_point, i);
    lemma_place_decides_point(rect, spec_scan(rect, start_point)[i], p);
}

/// The first match of a scan: nothing is found exactly when no position
/// passes the test, and what is found is a position that passes it and that
/// no passing position precedes.
pub proof fn lemma_first_found(scan: Seq<Point>, test: spec_fn(Point) -> bool)
    ensures
        spec_first(scan.filter(test)) is None <==> forall|i: int|
            0 <= i < scan.len() ==> !test(#[trigger] scan[i]),
        spec_first(scan.filter(test)) is Some ==> exists|i: int|
            {
                &&& 0 <= i < scan.len()
                &&& #[trigger] scan[i] == spec_first(scan.filter(test))->Some_0
                &&& test(scan[i])
                &&& forall|j: int| 0 <= j < i ==> !test(#[trigger] scan[j])
            },
    decreases scan.len(),
{
    reveal(Seq::filter);
    if scan.len() > 0 {
        let rest = scan.drop_last();
        let last = scan.last();
        lemma_first_found(rest, test);
        assert forall|i: int| 0 <= i < rest.len() implies rest[i] == scan[i] by {}
        if rest.filter(test).len() > 0 {
            let i = choose|i: int|
                {
                    &&& 0 <= i < rest.len()
                    &&& #[trigger] rest[i] == spec_first(rest.filter(test))->Some_0
                    &&& test(rest[i])
                    &&& forall|j: int| 0 <= j < i ==> !test(#[trigger] rest[j])
                };
            assert(scan[i] == spec_first(scan.filter(test))->Some_0);
            assert forall|j: int| 0 <= j < i implies !test(#[trigger] scan[j]) by {
                assert(rest[j] == scan[j]);
            }
            assert(test(scan[i]));
        } else {
            assert forall|j: int| 0 <= j < rest.len() implies !test(#[trigger] scan[j]) by {
                assert(!test(rest[j]));
            }
            if test(last) {
                let i = scan.len() - 1;
                assert(scan.filter(test) =~= seq![last]);
                assert(scan[i] == spec_first(scan.filter(test))->Some_0);
            } else {
                assert forall|j: int| 0 <= j < scan.len() implies !test(#[trigger] scan[j]) by {
                    if j < rest.len() {
                        assert(!test(rest[j]));
                    }
                }
            }
        }
    }
}

/// What is found is what passes the test: each position found passes it
/// and is one of the scan, each position of the scan that passes it is
/// found, and no more positions are found than the scan has.
pub proof fn lemma_found_are_the_matches(scan: Seq<Point>, test: spec_fn(Point) -> bool)
    ensures
        forall|a: int|
            0 <= a < scan.filter(test).len() ==> test(#[trigger] scan.filter(test)[a])
                && scan.contains(scan.filter(test)[a]),
        forall|i: int|
            0 <= i < scan.len() && test(scan[i]) ==> scan.filter(test).contains(#[trigger] scan[i]),
        scan.filter(test).len() <= scan.len(),
{
    let found = scan.filter(test);
    scan.lemma_filter_len(test);
    assert forall|a: int| 0 <= a < found.len() implies test(#[trigger] found[a]) && scan.contains(
        found[a],
    ) by {
        scan.lemma_filter_pred(test, a);
        assert(found.contains(found[a]));
        scan.lemma_filter_contains_rev(test, found[a]);
    }
    assert forall|i: int| 0 <= i < scan.len() && test(scan[i]) implies found.contains(
        #[trigger] scan[i],
    ) by {
        scan.lemma_filter_contains(test, i);
    }
}

/// What is found keeps the order of the scan: of two positions found, the
/// earlier one is visited earlier.
pub proof fn lemma_found_in_scan_order(
    scan: Seq<Point>,
    test: spec_fn(Point) -> bool,
    a: int,
    b: int,
)
    requires
        0 <= a < b < scan.filter(test).len(),
    ensures
        exists|i: int, j: int|
            0 <= i < j < scan.len() && #[trigger] scan[i] == scan.filter(test)[a]
                && #[trigger] scan[j] == scan.filter(test)[b],
    decreases scan.len(),
{
    reveal(Seq::filter);
    let found = scan.filter(test);
    let rest = scan.drop_last();
    let last = scan.last();
    if test(last) && b == found.len() - 1 {
        lemma_found_are_the_matches(rest, test);
        let early = rest.filter(test);
        assert(early[a] == found[a]);
        assert(rest.contains(early[a]));
        let i = choose|i: int| 0 <= i < rest.len() && rest[i] == early[a];
        let j = scan.len() - 1;
        assert(scan[i] == found[a] && scan[j] == found[b]);
    } else {
        lemma_found_in_scan_order(rest, test, a, b);
        let early = rest.filter(test);
        let (i, j) = choose|i: int, j: int|
            0 <= i < j < rest.len() && #[trigger] rest[i] == early[a] && #[trigger] rest[j]
                == early[b];
        assert(scan[i] == found[a] && scan[j] == found[b]);
    }
}

/// The positions at which a colour is found are in row-major order, so no
/// position is found twice.
pub proof fn lemma_colors_found_row_major(
    hay: PixelBuffer,
    color: u32,
    tolerance: Option<u32>,
    rect: Option<Rect>,
    start_point: Option<Point>,
    a: int,
    b: int,
)
    requires
        spec_search_in_bounds(hay, rect, start_point),
        0 <= a < b < spec_find_every_color(hay, color, tolerance, rect, start_point).len(),
    ensures
        spec_row_major_before(
            spec_find_every_color(hay, color, tolerance, rect, start_point)[a],
            spec_find_every_color(hay, color, tolerance, rect, start_point)[b],
        ),
{
    let r = spec_search_rect(hay, rect);
    let scan = spec_scan(r, start_point);
    let test = crate::search::spec_color_at(
        hay,
        crate::color::spec_color_of_hex(color),
        spec_tolerance(tolerance),
    );
    lemma_found_in_scan_order(scan, test, a, b);
    let (i, j) = choose|i: int, j: int|
        0 <= i < j < scan.len() && #[trigger] scan[i] == scan.filter(test)[a] && #[trigger] scan[j]
            == scan.filter(test)[b];
    lemma_scan_is_row_major(r, start_point, i, j);
}

/// The positions at which a bitmap is found are in row-major order, so no
/// position is found twice.
pub proof fn lemma_bitmaps_found_row_major(
    hay: PixelBuffer,
    needle: PixelBuffer,
    tolerance: Option<u32>,
    rect: Option<Rect>,
    start_point: Option<Point>,
    a: int,
    b: int,
)
    requires
        spec_search_in_bounds(hay, rect, start_point),
        0 <= a < b < spec_find_every_bitmap(hay, needle, tolerance, rect, start_point).len(),
    ensures
        spec_row_major_before(
            spec_find_every_bitmap(hay, needle, tolerance, rect, start_point)[a],
            spec_find_every_bitmap(hay, needle, tolerance, rect, start_point)[b],
        ),
{
    let r = spec_search_rect(hay, rect);
    let scan = spec_scan(r, start_point);
    let test = spec_bitmap_at(hay, needle, r, spec_tolerance(tolerance));
    lemma_found_in_scan_order(scan, test, a, b);
    let (i, j) = choose|i: int, j: int|
        0 <= i < j < scan.len() && #[trigger] scan[i] == scan.filter(test)[a] && #[trigger] scan[j]
            == scan.filter(test)[b];
    lemma_scan_is_row_major(r, start_point, i, j);
}

/// Counting and listing agree: the count of a colour is the number of
/// positions at which it is found, a number that fits the count's type, and
/// the first position found is the first of the list.
pub proof fn lemma_color_count_is_number_found(
    hay: PixelBuffer,
    color: u32,
    tolerance: Option<u32>,
    rect: Option<Rect>,
    start_point: Option<Point>,
)
    requires
        spec_search_in_bounds(hay, rect, start_point),
    ensures
        spec_count_of_color(hay, color, tolerance, rect, start_point) == spec_find_every_color(
            hay,
            color,
            tolerance,
            rect,
            start_point,
        ).len(),
        spec_count_of_color(hay, color, tolerance, rect, start_point) <= spec_scan_len(
            spec_search_rect(hay, rect),
        ) <= u64::MAX,
        spec_find_color(hay, color, tolerance, rect, start_point) is None <==> spec_count_of_color(
            hay,
            color,
            tolerance,
            rect,
            start_point,
        ) == 0,
        spec_find_color(hay, color, tolerance, rect, start_point) is Some ==> spec_find_color(
            hay,
            color,
            tolerance,
            rect,
            start_point,
        )->Some_0 == spec_find_every_color(hay, color, tolerance, rect, start_point)[0],
{
    let r = spec_search_rect(hay, rect);
    lemma_scan_length(r, start_point);
    spec_scan(r, start_point).lemma_filter_len(
        crate::search::spec_color_at(
            hay,
            crate::color::spec_color_of_hex(color),
            spec_tolerance(tolerance),
        ),
    );
}

/// Counting and listing agree: the count of a bitmap is the number of
/// positions at which it is found, a number that fits the count's type, and
/// the first position found is the first of the list.
pub proof fn lemma_bitmap_count_is_number_found(
    hay: PixelBuffer,
    needle: PixelBuffer,
    tolerance: Option<u32>,
    rect: Option<Rect>,
    start_point: Option<Point>,
)
    requires
        spec_search_in_bounds(hay, rect, start_point),
    ensures
        spec_count_of_bitmap(hay, needle, tolerance, rect, start_point) == spec_find_every_bitmap(
            hay,
            needle,
            tolerance,
            rect,
            start_point,
        ).len(),
        spec_count_of_bitmap(hay, needle, tolerance, rect, start_point) <= spec_scan_len(
            spec_search_rect(hay, rect),
        ) <= u64::MAX,
        spec_find_bitmap(hay, needle, tolerance, rect, start_point) is None
            <==> spec_count_of_bitmap(hay, needle, tolerance, rect, start_point) == 0,
        spec_find_bitmap(hay, needle, tolerance, rect, start_point) is Some ==> spec_find_bitmap(
            hay,
            needle,
            tolerance,
            rect,
            start_point,
        )->Some_0 == spec_find_every_bitmap(hay, needle, tolerance, rect, start_point)[0],
{
    let r = spec_search_rect(hay, rect);
    lemma_scan_length(r, start_point);
    spec_scan(r, start_point).lemma_filter_len(
        spec_bitmap_at(hay, needle, r, spec_tolerance(tolerance)),
    );
}

/// A rectangle without area has no positions: whatever the bitmap holds,
/// nothing is found in it.
pub proof fn lemma_nothing_in_empty_rect(
    hay: PixelBuffer,
    needle: PixelBuffer,
    color: u32,
    tolerance: Option<u32>,
    rect: Rect,
)
    requires
        rect.size.width == 0 || rect.size.height == 0,
    ensures
        spec_scan(rect, None).len() == 0,
        spec_find_every_color(hay, color, tolerance, Some(rect), None) == Seq::<Point>::empty(),
        spec_find_color(hay, color, tolerance, Some(rect), None) is None,
        spec_count_of_color(hay, color, tolerance, Some(rect), None) == 0,
        spec_find_every_bitmap(hay, needle, tolerance, Some(rect), None) == Seq::<Point>::empty(),
        spec_find_bitmap(hay, needle, tolerance, Some(rect), None) is None,
        spec_count_of_bitmap(hay, needle, tolerance, Some(rect), None) == 0,
{
    reveal(Seq::filter);
    assert(spec_scan_len(rect) == 0) by (nonlinear_arith)
        requires
            rect.size.width == 0 || rect.size.height == 0,
            spec_scan_len(rect) == rect.size.width * rect.size.height,
    ;
    assert(spec_find_every_color(hay, color, tolerance, Some(rect), None) =~= Seq::<
        Point,
    >::empty());
    assert(spec_find_every_bitmap(hay, needle, tolerance, Some(rect), None) =~= Seq::<
        Point,
    >::empty());
}

/// A needle that is wider or higher than the rectangle of the search, or
/// that has no area, is found nowhere: where the two bitmaps have the same
/// scale, the search succeeds and finds nothing.
pub proof fn lemma_needle_that_cannot_fit(
    hay: PixelBuffer,
    needle: PixelBuffer,
    tolerance: Option<u32>,
    rect: Option<Rect>,
    start_point: Option<Point>,
)
    requires
        spec_search_in_bounds(hay, rect, start_point),
        ({
            let r = spec_search_rect(hay, rect);
            let n = needle.spec_size();
            n.width > r.size.width || n.height > r.size.height || n.width == 0 || n.height == 0
        }),
    ensures
        spec_find_every_bitmap(hay, needle, tolerance, rect, start_point) == Seq::<Point>::empty(),
        spec_find_bitmap(hay, needle, tolerance, rect, start_point) is None,
        spec_count_of_bitmap(hay, needle, tolerance, rect, start_point) == 0,
        hay.spec_scale() == needle.spec_scale() ==> spec_bitmap_search(
            hay,
            needle,
            rect,
            start_point,
            spec_find_bitmap(hay, needle, tolerance, rect, start_point),
        ) == Ok::<Option<Point>, BitmapError>(None),
{
    let r = spec_search_rect(hay, rect);
    let scan = spec_scan(r, start_point);
    let test = spec_bitmap_at(hay, needle, r, spec_tolerance(tolerance));
    assert forall|i: int| 0 <= i < scan.len() implies !test(#[trigger] scan[i]) by {
        lemma_scan_position(r, start_point, i);
    }
    lemma_first_found(scan, test);
    assert(scan.filter(test) =~= Seq::<Point>::empty());
}

/// A part cut out of a bitmap is found in it where it was cut: a needle
/// that holds the points of `rect` matches with its corner on the origin of
/// `rect`, at every tolerance and in every rectangle that `rect` lies
/// within.
pub proof fn lemma_cropped_part_is_found(
    hay: PixelBuffer,
    part: PixelBuffer,
    rect: Rect,
    within: Rect,
    tolerance: u32,
)
    requires
        within.spec_contains_rect(rect),
        rect.size.width > 0,
        rect.size.height > 0,
        part.spec_size() == rect.size,
        forall|x: int, y: int|
            0 <= x < rect.size.width && 0 <= y < rect.size.height ==> #[trigger] part.spec_get(x, y)
                == hay.spec_get(rect.origin.x + x, rect.origin.y + y),
    ensures
        spec_needle_at(hay, part, within, tolerance, rect.origin),
{
}

/// At the full tolerance every pair of colours matches, so a needle with
/// area is found wherever it stays within the rectangle.
pub proof fn lemma_full_tolerance_finds_what_fits(
    hay: PixelBuffer,
    needle: PixelBuffer,
    rect: Rect,
    tolerance: u32,
    p: Point,
)
    requires
        tolerance >= MAX_DISTANCE,
    ensures
        spec_needle_at(hay, needle, rect, tolerance, p) <==> {
            let n = needle.spec_size();
            &&& n.width > 0
            &&& n.height > 0
            &&& p.x + n.width <= rect.spec_max_x()
            &&& p.y + n.height <= rect.spec_max_y()
        },
{
}

} // verus!
