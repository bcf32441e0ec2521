use autopy::bitmap::Bitmap;
use autopy::color::rgb_to_hex;
use autopy::error::BitmapError;
use autopy::geometry::{Point, Rect, Size};

const WHITE: [u8; 4] = [255, 255, 255, 255];
const RED: [u8; 4] = [255, 0, 0, 255];
const BLUE: [u8; 4] = [0, 0, 255, 255];

fn solid(width: u32, height: u32, color: [u8; 4]) -> Vec<u8> {
    let mut data = Vec::new();
    for _ in 0..(width * height) {
        data.extend_from_slice(&color);
    }
    data
}

fn put(data: &mut Vec<u8>, width: u32, x: u32, y: u32, color: [u8; 4]) {
    let i = ((y * width + x) * 4) as usize;
    data[i..i + 4].copy_from_slice(&color);
}

fn rect(x: u32, y: u32, w: u32, h: u32) -> Rect {
    Rect::new(Point::new(x, y), Size::new(w, h))
}

fn noise(width: u32, height: u32, seed: u32) -> Vec<u8> {
    let mut state = seed;
    let mut data = Vec::new();
    for _ in 0..(width * height * 4) {
        state = state.wrapping_mul(1664525).wrapping_add(1013904223);
        data.push(((state >> 24) % 4 * 60) as u8);
    }
    data
}

#[test]
fn find_color_returns_first_match_in_row_major_order() {
    let mut data = solid(8, 6, WHITE);
    put(&mut data, 8, 2, 3, RED);
    put(&mut data, 8, 5, 1, RED);
    let bmp = Bitmap::from_raw(8, 6, None, data).unwrap();
    let red = rgb_to_hex(255, 0, 0);
    assert_eq!(bmp.find_color(red, None, None, None), Ok(Some(Point::new(5, 1))));
    assert_eq!(
        bmp.find_color(red, Some(0), Some(rect(0, 0, 8, 6)), Some(Point::new(0, 0))),
        Ok(Some(Point::new(5, 1)))
    );
    assert_eq!(
        bmp.find_every_color(red, None, None, None),
        Ok(vec![Point::new(5, 1), Point::new(2, 3)])
    );
    assert_eq!(bmp.count_of_color(red, None, None, None), Ok(2));
}

#[test]
fn find_color_starts_at_the_start_point_on_the_first_row_only() {
    let mut data = solid(5, 3, WHITE);
    put(&mut data, 5, 1, 0, RED);
    put(&mut data, 5, 3, 0, RED);
    put(&mut data, 5, 0, 1, RED);
    put(&mut data, 5, 4, 2, RED);
    let bmp = Bitmap::from_raw(5, 3, None, data).unwrap();
    let red = rgb_to_hex(255, 0, 0);
    assert_eq!(
        bmp.find_every_color(red, None, None, Some(Point::new(2, 0))),
        Ok(vec![Point::new(3, 0), Point::new(0, 1), Point::new(4, 2)])
    );
    assert_eq!(
        bmp.find_color(red, None, None, Some(Point::new(4, 0))),
        Ok(Some(Point::new(0, 1)))
    );
    assert_eq!(
        bmp.find_every_color(red, None, Some(rect(1, 0, 3, 2)), Some(Point::new(2, 0))),
        Ok(vec![Point::new(3, 0)])
    );
    assert_eq!(
        bmp.find_every_color(red, None, Some(rect(1, 0, 3, 2)), None),
        Ok(vec![Point::new(1, 0), Point::new(3, 0)])
    );
}

#[test]
fn find_color_without_a_match_is_none() {
    let bmp = Bitmap::from_raw(3, 3, None, solid(3, 3, WHITE)).unwrap();
    assert_eq!(bmp.find_color(rgb_to_hex(1, 2, 3), None, None, None), Ok(None));
    assert_eq!(bmp.find_every_color(rgb_to_hex(1, 2, 3), None, None, None), Ok(vec![]));
    assert_eq!(bmp.count_of_color(rgb_to_hex(1, 2, 3), None, None, None), Ok(0));
}

#[test]
fn find_color_within_tolerance() {
    let mut data = solid(3, 1, WHITE);
    put(&mut data, 3, 1, 0, [250, 255, 255, 0]);
    put(&mut data, 3, 2, 0, [250, 250, 255, 0]);
    let bmp = Bitmap::from_raw(3, 1, None, data).unwrap();
    let white = rgb_to_hex(255, 255, 255);
    assert_eq!(bmp.count_of_color(white, Some(0), None, None), Ok(1));
    assert_eq!(bmp.count_of_color(white, Some(4), None, None), Ok(1));
    assert_eq!(bmp.count_of_color(white, Some(5), None, None), Ok(2));
    assert_eq!(bmp.count_of_color(white, Some(10), None, None), Ok(3));
    assert_eq!(bmp.count_of_color(rgb_to_hex(0, 0, 0), Some(765), None, None), Ok(3));
    assert_eq!(bmp.count_of_color(rgb_to_hex(0, 0, 0), Some(734), None, None), Ok(0));
}

#[test]
fn count_of_color_equals_length_of_find_every_color() {
    for seed in 0..20u32 {
        let (w, h) = (3 + seed % 5, 2 + seed % 4);
        let bmp = Bitmap::from_raw(w, h, None, noise(w, h, seed)).unwrap();
        for tolerance in [0u32, 30, 60, 200, 765] {
            let color = rgb_to_hex(60, 120, 180);
            let start = Some(Point::new(seed % w, seed % h));
            let every = bmp.find_every_color(color, Some(tolerance), None, start).unwrap();
            let count = bmp.count_of_color(color, Some(tolerance), None, start).unwrap();
            assert_eq!(count, every.len() as u64);
            assert_eq!(
                bmp.find_color(color, Some(tolerance), None, start).unwrap(),
                every.first().copied()
            );
        }
    }
}

#[test]
fn count_of_bitmap_equals_length_of_find_every_bitmap() {
    for seed in 0..20u32 {
        let (w, h) = (4 + seed % 5, 3 + seed % 4);
        let bmp = Bitmap::from_raw(w, h, None, noise(w, h, seed)).unwrap();
        let needle = bmp.cropped(rect(1, 1, 2, 1)).unwrap();
        for tolerance in [0u32, 60, 200, 765] {
            let every = bmp.find_every_bitmap(&needle, Some(tolerance), None, None).unwrap();
            let count = bmp.count_of_bitmap(&needle, Some(tolerance), None, None).unwrap();
            assert_eq!(count, every.len() as u64);
            assert!(every.contains(&Point::new(1, 1)));
            assert_eq!(
                bmp.find_bitmap(&needle, Some(tolerance), None, None).unwrap(),
                every.first().copied()
            );
        }
    }
}

#[test]
fn searches_reject_a_rect_out_of_bounds() {
    let bmp = Bitmap::from_raw(4, 4, None, solid(4, 4, WHITE)).unwrap();
    let needle = Bitmap::from_raw(1, 1, None, solid(1, 1, WHITE)).unwrap();
    let too_wide = Some(rect(1, 0, 4, 4));
    let white = rgb_to_hex(255, 255, 255);
    assert_eq!(bmp.find_color(white, None, too_wide, None), Err(BitmapError::OutOfBounds));
    assert_eq!(bmp.find_every_color(white, None, too_wide, None), Err(BitmapError::OutOfBounds));
    assert_eq!(bmp.count_of_color(white, None, too_wide, None), Err(BitmapError::OutOfBounds));
    assert_eq!(bmp.find_bitmap(&needle, None, too_wide, None), Err(BitmapError::OutOfBounds));
    assert_eq!(bmp.find_every_bitmap(&needle, None, too_wide, None), Err(BitmapError::OutOfBounds));
    assert_eq!(bmp.count_of_bitmap(&needle, None, too_wide, None), Err(BitmapError::OutOfBounds));
    assert_eq!(
        bmp.find_color(white, None, Some(rect(u32::MAX, 0, 2, 1)), None),
        Err(BitmapError::OutOfBounds)
    );
}

#[test]
fn searches_reject_a_start_point_outside_the_rect() {
    let bmp = Bitmap::from_raw(4, 4, None, solid(4, 4, WHITE)).unwrap();
    let white = rgb_to_hex(255, 255, 255);
    assert_eq!(
        bmp.find_color(white, None, Some(rect(1, 1, 2, 2)), Some(Point::new(0, 1))),
        Err(BitmapError::OutOfBounds)
    );
    assert_eq!(
        bmp.find_color(white, None, Some(rect(1, 1, 2, 2)), Some(Point::new(3, 1))),
        Err(BitmapError::OutOfBounds)
    );
    assert_eq!(
        bmp.find_color(white, None, None, Some(Point::new(0, 4))),
        Err(BitmapError::OutOfBounds)
    );
    assert_eq!(
        bmp.find_color(white, None, Some(rect(1, 1, 2, 2)), Some(Point::new(2, 2))),
        Ok(Some(Point::new(2, 2)))
    );
}

#[test]
fn zero_area_rect_has_no_positions() {
    let bmp = Bitmap::from_raw(6, 6, None, solid(6, 6, WHITE)).unwrap();
    let needle = Bitmap::from_raw(1, 1, None, solid(1, 1, WHITE)).unwrap();
    let white = rgb_to_hex(255, 255, 255);
    for empty in [rect(0, 0, 0, 5), rect(1, 1, 5, 0), rect(6, 6, 0, 0)] {
        assert_eq!(bmp.find_every_color(white, Some(765), Some(empty), None), Ok(vec![]));
        assert_eq!(bmp.find_color(white, Some(765), Some(empty), None), Ok(None));
        assert_eq!(bmp.count_of_color(white, Some(765), Some(empty), None), Ok(0));
        assert_eq!(bmp.find_bitmap(&needle, Some(765), Some(empty), None), Ok(None));
        assert_eq!(bmp.find_every_bitmap(&needle, Some(765), Some(empty), None), Ok(vec![]));
        assert_eq!(bmp.count_of_bitmap(&needle, Some(765), Some(empty), None), Ok(0));
    }
}

#[test]
fn empty_bitmap_has_no_positions() {
    let bmp = Bitmap::from_raw(0, 3, None, vec![]).unwrap();
    assert_eq!(bmp.find_every_color(0, Some(765), None, None), Ok(vec![]));
    assert_eq!(bmp.find_color(0, Some(765), None, Some(Point::new(0, 0))), Err(BitmapError::OutOfBounds));
}

#[test]
fn needle_larger_than_rect_is_not_found() {
    let bmp = Bitmap::from_raw(12, 12, None, solid(12, 12, WHITE)).unwrap();
    let needle = Bitmap::from_raw(10, 10, None, solid(10, 10, WHITE)).unwrap();
    let region = Some(rect(0, 0, 5, 5));
    assert_eq!(bmp.find_bitmap(&needle, None, region, None), Ok(None));
    assert_eq!(bmp.find_every_bitmap(&needle, Some(765), region, None), Ok(vec![]));
    assert_eq!(bmp.count_of_bitmap(&needle, Some(765), region, None), Ok(0));
    assert_eq!(bmp.find_bitmap(&needle, None, None, None), Ok(Some(Point::new(0, 0))));
    let huge = Bitmap::from_raw(13, 1, None, solid(13, 1, WHITE)).unwrap();
    assert_eq!(bmp.find_bitmap(&huge, Some(765), None, None), Ok(None));
}

#[test]
fn find_bitmap_finds_an_exact_block() {
    let mut data = solid(4, 4, WHITE);
    for (x, y) in [(1, 1), (2, 1), (1, 2), (2, 2)] {
        put(&mut data, 4, x, y, BLUE);
    }
    let bmp = Bitmap::from_raw(4, 4, None, data).unwrap();
    let needle = Bitmap::from_raw(2, 2, None, solid(2, 2, BLUE)).unwrap();
    assert_eq!(bmp.find_bitmap(&needle, Some(0), None, None), Ok(Some(Point::new(1, 1))));
    assert_eq!(bmp.find_every_bitmap(&needle, None, None, None), Ok(vec![Point::new(1, 1)]));
    assert_eq!(bmp.count_of_bitmap(&needle, None, None, None), Ok(1));
    assert_eq!(bmp.find_bitmap(&needle, None, Some(rect(1, 1, 2, 2)), None), Ok(Some(Point::new(1, 1))));
    assert_eq!(bmp.find_bitmap(&needle, None, Some(rect(0, 0, 2, 3)), None), Ok(None));
    assert_eq!(bmp.find_bitmap(&needle, None, None, Some(Point::new(2, 1))), Ok(None));
}

#[test]
fn find_bitmap_keeps_the_window_within_the_rect() {
    let bmp = Bitmap::from_raw(4, 3, None, solid(4, 3, WHITE)).unwrap();
    let needle = Bitmap::from_raw(2, 2, None, solid(2, 2, WHITE)).unwrap();
    assert_eq!(
        bmp.find_every_bitmap(&needle, None, None, None),
        Ok(vec![
            Point::new(0, 0),
            Point::new(1, 0),
            Point::new(2, 0),
            Point::new(0, 1),
            Point::new(1, 1),
            Point::new(2, 1)
        ])
    );
    assert_eq!(
        bmp.find_every_bitmap(&needle, None, Some(rect(1, 0, 3, 2)), Some(Point::new(2, 0))),
        Ok(vec![Point::new(2, 0)])
    );
}

#[test]
fn full_tolerance_matches_the_first_position_that_fits() {
    let bmp = Bitmap::from_raw(5, 5, None, noise(5, 5, 7)).unwrap();
    let needle = Bitmap::from_raw(2, 2, None, noise(2, 2, 99)).unwrap();
    assert_eq!(bmp.find_bitmap(&needle, Some(765), None, None), Ok(Some(Point::new(0, 0))));
    assert_eq!(
        bmp.find_bitmap(&needle, Some(765), None, Some(Point::new(4, 1))),
        Ok(Some(Point::new(0, 2)))
    );
    assert_eq!(bmp.count_of_bitmap(&needle, Some(765), None, None), Ok(16));
    assert_eq!(bmp.count_of_bitmap(&needle, Some(800), None, None), Ok(16));
}

#[test]
fn needle_without_area_is_never_found() {
    let bmp = Bitmap::from_raw(3, 3, None, solid(3, 3, WHITE)).unwrap();
    let needle = Bitmap::from_raw(0, 2, None, vec![]).unwrap();
    assert_eq!(bmp.find_bitmap(&needle, Some(765), None, None), Ok(None));
    assert_eq!(bmp.find_every_bitmap(&needle, Some(765), None, None), Ok(vec![]));
    assert_eq!(bmp.count_of_bitmap(&needle, Some(765), None, None), Ok(0));
}

#[test]
fn bitmap_search_rejects_a_needle_of_another_scale() {
    let bmp = Bitmap::from_raw(4, 4, Some(2), solid(4, 4, WHITE)).unwrap();
    let needle = Bitmap::from_raw(1, 1, Some(1), solid(1, 1, WHITE)).unwrap();
    assert_eq!(bmp.find_bitmap(&needle, None, None, None), Err(BitmapError::ScaleMismatch));
    assert_eq!(bmp.find_every_bitmap(&needle, None, None, None), Err(BitmapError::ScaleMismatch));
    assert_eq!(bmp.count_of_bitmap(&needle, None, None, None), Err(BitmapError::ScaleMismatch));
    assert_eq!(
        bmp.find_bitmap(&needle, None, Some(rect(0, 0, 9, 9)), None),
        Err(BitmapError::ScaleMismatch)
    );
}

#[test]
fn searches_work_in_logical_points() {
    let mut data = solid(6, 4, WHITE);
    put(&mut data, 6, 4, 2, RED);
    put(&mut data, 6, 1, 1, RED);
    let bmp = Bitmap::from_raw(6, 4, Some(2), data).unwrap();
    let red = rgb_to_hex(255, 0, 0);
    assert_eq!(bmp.bounds(), rect(0, 0, 3, 2));
    assert_eq!(bmp.find_every_color(red, None, None, None), Ok(vec![Point::new(2, 1)]));
    assert_eq!(bmp.find_color(red, None, Some(rect(0, 0, 4, 2)), None), Err(BitmapError::OutOfBounds));
    let needle = bmp.cropped(rect(2, 1, 1, 1)).unwrap();
    assert_eq!(needle.scale(), 2);
    assert_eq!(bmp.find_bitmap(&needle, None, None, None), Ok(Some(Point::new(2, 1))));
}
