use autopy::bitmap::Bitmap;
use autopy::buffer::PixelBuffer;
use autopy::color::Rgba;
use autopy::error::BitmapError;
use autopy::geometry::{Point, Rect, Size};

fn gradient(width: u32, height: u32) -> Vec<u8> {
    let mut data = Vec::new();
    for y in 0..height {
        for x in 0..width {
            data.extend_from_slice(&[x as u8, y as u8, (x + 10 * y) as u8, 255]);
        }
    }
    data
}

fn area(x: u32, y: u32, w: u32, h: u32) -> Rect {
    Rect::new(Point::new(x, y), Size::new(w, h))
}

#[test]
fn buffer_needs_four_bytes_a_pixel_and_a_scale() {
    assert!(PixelBuffer::new(2, 2, 1, vec![0; 16]).is_some());
    assert!(PixelBuffer::new(2, 2, 1, vec![0; 15]).is_none());
    assert!(PixelBuffer::new(2, 2, 1, vec![0; 17]).is_none());
    assert!(PixelBuffer::new(2, 2, 0, vec![0; 16]).is_none());
    assert!(PixelBuffer::new(0, 7, 3, vec![]).is_some());
    assert!(PixelBuffer::new(u32::MAX, u32::MAX, 1, vec![0; 4]).is_none());
    assert!(Bitmap::from_raw(1, 1, None, vec![1, 2, 3, 4]).is_some());
    assert!(Bitmap::from_raw(1, 1, Some(0), vec![1, 2, 3, 4]).is_none());
    assert!(Bitmap::from_raw(1, 2, None, vec![1, 2, 3, 4]).is_none());
}

#[test]
fn buffer_reads_pixels_row_major() {
    let buf = PixelBuffer::new(3, 2, 1, gradient(3, 2)).unwrap();
    assert_eq!(buf.width(), 3);
    assert_eq!(buf.height(), 2);
    assert_eq!(buf.scale(), 1);
    assert_eq!(buf.pixel(2, 1), Rgba::new(2, 1, 12, 255));
    assert_eq!(buf.get(Point::new(0, 1)), Rgba::new(0, 1, 10, 255));
    assert_eq!(buf.raw_view(), gradient(3, 2).as_slice());
    assert_eq!(buf.raw_view().len(), 24);
}

#[test]
fn buffer_scale_maps_points_to_pixels() {
    let buf = PixelBuffer::new(5, 4, 2, gradient(5, 4)).unwrap();
    assert_eq!(buf.size(), Size::new(2, 2));
    assert_eq!(buf.bounds(), area(0, 0, 2, 2));
    assert_eq!(buf.get(Point::new(1, 1)), Rgba::new(2, 2, 22, 255));
    assert_eq!(buf.get(Point::new(0, 0)), Rgba::new(0, 0, 0, 255));
}

#[test]
fn buffer_equality_is_by_content() {
    let a = PixelBuffer::new(2, 1, 1, vec![1, 2, 3, 4, 5, 6, 7, 8]).unwrap();
    let b = PixelBuffer::new(2, 1, 1, vec![1, 2, 3, 4, 5, 6, 7, 8]).unwrap();
    let other_alpha = PixelBuffer::new(2, 1, 1, vec![1, 2, 3, 4, 5, 6, 7, 9]).unwrap();
    let other_scale = PixelBuffer::new(2, 1, 2, vec![1, 2, 3, 4, 5, 6, 7, 8]).unwrap();
    let other_shape = PixelBuffer::new(1, 2, 1, vec![1, 2, 3, 4, 5, 6, 7, 8]).unwrap();
    assert!(a.content_eq(&b));
    assert!(a == b);
    assert!(!a.content_eq(&other_alpha));
    assert!(!a.content_eq(&other_scale));
    assert!(!a.content_eq(&other_shape));
    assert!(a.clone().content_eq(&a));
    let mut seen = std::collections::HashSet::new();
    seen.insert(a);
    assert!(seen.contains(&b));
    assert!(!seen.contains(&other_scale));
}

#[test]
fn bitmap_bounds_and_size() {
    let bmp = Bitmap::from_raw(4, 6, Some(2), gradient(4, 6)).unwrap();
    assert_eq!(bmp.scale(), 2);
    assert_eq!(bmp.width(), 2);
    assert_eq!(bmp.height(), 3);
    assert_eq!(bmp.size(), Size::new(2, 3));
    assert_eq!(bmp.bounds(), area(0, 0, 2, 3));
    assert_eq!(bmp.buffer().width(), 4);
}

#[test]
fn point_in_bounds_is_half_open() {
    let bmp = Bitmap::from_raw(3, 2, None, gradient(3, 2)).unwrap();
    assert!(bmp.point_in_bounds(Point::new(0, 0)));
    assert!(bmp.point_in_bounds(Point::new(2, 1)));
    assert!(!bmp.point_in_bounds(Point::new(3, 1)));
    assert!(!bmp.point_in_bounds(Point::new(2, 2)));
    assert!(!bmp.point_in_bounds(Point::new(u32::MAX, u32::MAX)));
}

#[test]
fn rect_in_bounds_allows_the_far_edge() {
    let bmp = Bitmap::from_raw(3, 2, None, gradient(3, 2)).unwrap();
    assert!(bmp.rect_in_bounds(area(0, 0, 3, 2)));
    assert!(bmp.rect_in_bounds(area(1, 1, 2, 1)));
    assert!(bmp.rect_in_bounds(area(3, 2, 0, 0)));
    assert!(!bmp.rect_in_bounds(area(1, 0, 3, 2)));
    assert!(!bmp.rect_in_bounds(area(0, 1, 3, 2)));
    assert!(!bmp.rect_in_bounds(area(4, 0, 0, 0)));
    assert!(!bmp.rect_in_bounds(area(1, 0, u32::MAX, 1)));
}

#[test]
fn get_color_packs_the_sample() {
    let bmp = Bitmap::from_raw(3, 2, None, gradient(3, 2)).unwrap();
    assert_eq!(bmp.get_color(Point::new(2, 1)), Ok(0x02010c));
    assert_eq!(bmp.get_pixel(Point::new(2, 1)), Ok(Rgba::new(2, 1, 12, 255)));
    assert_eq!(bmp.get_color(Point::new(3, 1)), Err(BitmapError::OutOfBounds));
    assert_eq!(bmp.get_pixel(Point::new(0, 2)), Err(BitmapError::OutOfBounds));
}

#[test]
fn cropped_copies_the_pixels_of_the_rect() {
    let bmp = Bitmap::from_raw(4, 3, None, gradient(4, 3)).unwrap();
    let part = bmp.cropped(area(1, 1, 2, 2)).unwrap();
    assert_eq!(part.size(), Size::new(2, 2));
    assert_eq!(part.scale(), 1);
    assert_eq!(
        part.buffer().raw_view(),
        &[1, 1, 11, 255, 2, 1, 12, 255, 1, 2, 21, 255, 2, 2, 22, 255][..]
    );
    drop(bmp);
    assert_eq!(part.get_color(Point::new(1, 1)), Ok(0x020216));
    let whole = part.cropped(area(0, 0, 2, 2)).unwrap();
    assert!(whole.buffer().content_eq(part.buffer()));
    let none = part.cropped(area(2, 2, 0, 0)).unwrap();
    assert_eq!(none.size(), Size::new(0, 0));
}

#[test]
fn cropped_rejects_a_rect_out_of_bounds() {
    let bmp = Bitmap::from_raw(4, 3, None, gradient(4, 3)).unwrap();
    assert_eq!(bmp.cropped(area(3, 0, 2, 1)).err(), Some(BitmapError::OutOfBounds));
    assert_eq!(bmp.cropped(area(0, 0, 4, 4)).err(), Some(BitmapError::OutOfBounds));
    assert_eq!(bmp.cropped(area(5, 5, 0, 0)).err(), Some(BitmapError::OutOfBounds));
}

#[test]
fn cropped_keeps_the_scale() {
    let bmp = Bitmap::from_raw(6, 4, Some(2), gradient(6, 4)).unwrap();
    let part = bmp.cropped(area(1, 1, 2, 1)).unwrap();
    assert_eq!(part.scale(), 2);
    assert_eq!(part.buffer().width(), 4);
    assert_eq!(part.buffer().height(), 2);
    assert_eq!(part.get_pixel(Point::new(0, 0)), bmp.get_pixel(Point::new(1, 1)));
    assert_eq!(part.get_pixel(Point::new(1, 0)), bmp.get_pixel(Point::new(2, 1)));
    assert_eq!(part.buffer().pixel(1, 1), bmp.buffer().pixel(3, 3));
}

#[test]
fn bitmap_equality_with_tolerance() {
    let a = Bitmap::from_raw(2, 2, None, gradient(2, 2)).unwrap();
    let mut changed = gradient(2, 2);
    changed[5] += 1;
    let b = Bitmap::from_raw(2, 2, None, changed).unwrap();
    assert!(a.is_bitmap_equal(&a.clone(), None));
    assert!(!a.is_bitmap_equal(&b, None));
    assert!(!a.is_bitmap_equal(&b, Some(0)));
    assert!(a.is_bitmap_equal(&b, Some(1)));
    assert!(b.is_bitmap_equal(&a, Some(1)));
    assert!(a.is_bitmap_equal(&b, Some(765)));
}

#[test]
fn bitmap_equality_needs_equal_dimensions_and_scale() {
    let a = Bitmap::from_raw(2, 1, None, vec![9; 8]).unwrap();
    let tall = Bitmap::from_raw(1, 2, None, vec![9; 8]).unwrap();
    let scaled = Bitmap::from_raw(2, 1, Some(2), vec![9; 8]).unwrap();
    assert!(!a.is_bitmap_equal(&tall, Some(765)));
    assert!(!a.is_bitmap_equal(&scaled, Some(765)));
    let empty = Bitmap::from_raw(0, 0, None, vec![]).unwrap();
    assert!(empty.is_bitmap_equal(&empty.clone(), None));
}

#[test]
fn bitmap_equality_leaves_alpha_out() {
    let a = Bitmap::from_raw(1, 1, None, vec![1, 2, 3, 0]).unwrap();
    let b = Bitmap::from_raw(1, 1, None, vec![1, 2, 3, 255]).unwrap();
    assert!(a.is_bitmap_equal(&b, None));
    assert!(!a.buffer().content_eq(b.buffer()));
}

#[test]
fn pixels_are_addressed_below_the_grid_of_points() {
    let bmp = Bitmap::from_raw(5, 4, Some(2), gradient(5, 4)).unwrap();
    assert_eq!(bmp.get_color_at_pixel(1, 1), Ok(0x01010b));
    assert_eq!(bmp.get_color_at_pixel(4, 3), Ok(0x040322));
    assert_eq!(bmp.get_color_at_pixel(5, 3), Err(BitmapError::OutOfBounds));
    assert_eq!(bmp.get_color_at_pixel(4, 4), Err(BitmapError::OutOfBounds));
    assert!(bmp.pixel_in_bounds(4, 3));
    assert!(!bmp.pixel_in_bounds(5, 0));
    assert!(!bmp.pixel_in_bounds(0, 4));
    assert_eq!(bmp.get_color(Point::new(1, 1)), bmp.get_color_at_pixel(2, 2));
    assert_eq!(bmp.get_color(Point::new(0, 1)), bmp.get_color_at_pixel(0, 2));
    assert!(!bmp.point_in_bounds(Point::new(2, 0)));
}
