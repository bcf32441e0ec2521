use autopy::export::{buffer_plan, BufferPlan};

const WRITABLE: i32 = 0x01;
const FORMAT: i32 = 0x04;
const ND: i32 = 0x08;
const STRIDES: i32 = 0x10 | ND;

fn plan(flags: i32) -> Option<BufferPlan> {
    buffer_plan(flags, WRITABLE, FORMAT, ND, STRIDES)
}

#[test]
fn a_request_for_writable_memory_is_refused() {
    assert_eq!(plan(WRITABLE), None);
    assert_eq!(plan(WRITABLE | FORMAT | STRIDES), None);
    assert_eq!(plan(0x7fff_ffff), None);
    assert_eq!(plan(-1), None);
}

#[test]
fn a_plain_request_gets_read_only_single_bytes() {
    let simple = plan(0).unwrap();
    assert!(simple.readonly);
    assert_eq!(simple.itemsize, 1);
    assert_eq!(simple.ndim, 1);
    assert!(!simple.with_format);
    assert!(!simple.with_shape);
    assert!(!simple.with_strides);
}

#[test]
fn a_request_gets_the_parts_it_asks_for() {
    let with_format = plan(FORMAT).unwrap();
    assert!(with_format.with_format && !with_format.with_shape && !with_format.with_strides);
    let with_shape = plan(ND).unwrap();
    assert!(!with_shape.with_format && with_shape.with_shape && !with_shape.with_strides);
    let with_strides = plan(STRIDES).unwrap();
    assert!(with_strides.with_shape && with_strides.with_strides);
    let half_strides = plan(0x10).unwrap();
    assert!(!half_strides.with_shape && !half_strides.with_strides);
    let full = plan(FORMAT | STRIDES).unwrap();
    assert!(full.with_format && full.with_shape && full.with_strides);
}
