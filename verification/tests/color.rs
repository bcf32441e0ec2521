use autopy::color::{color_distance, colors_match, hex_to_rgb, rgb_to_hex, Rgba, MAX_DISTANCE};

#[test]
fn hex_round_trip_on_edge_values() {
    let values: [u8; 4] = [0, 1, 127, 255];
    for &r in values.iter() {
        for &g in values.iter() {
            for &b in values.iter() {
                assert_eq!(hex_to_rgb(rgb_to_hex(r, g, b)), (r, g, b));
            }
        }
    }
}

#[test]
fn rgb_to_hex_packs_most_significant_first() {
    assert_eq!(rgb_to_hex(0x12, 0x34, 0x56), 0x123456);
    assert_eq!(rgb_to_hex(255, 255, 255), 0xffffff);
    assert_eq!(rgb_to_hex(0, 0, 0), 0);
    assert_eq!(rgb_to_hex(1, 0, 0), 65536);
}

#[test]
fn hex_to_rgb_ignores_bits_above_the_colour() {
    assert_eq!(hex_to_rgb(0xff123456), (0x12, 0x34, 0x56));
    assert_eq!(hex_to_rgb(0xabcdef), (0xab, 0xcd, 0xef));
}

#[test]
fn distance_of_a_colour_to_itself_is_zero() {
    let c = Rgba::new(12, 200, 99, 7);
    assert_eq!(color_distance(c, c), 0);
}

#[test]
fn distance_of_black_and_white_is_the_maximum() {
    let black = Rgba::new(0, 0, 0, 255);
    let white = Rgba::new(255, 255, 255, 255);
    assert_eq!(color_distance(black, white), MAX_DISTANCE);
    assert_eq!(color_distance(white, black), 765);
}

#[test]
fn distance_leaves_alpha_out() {
    let a = Rgba::new(10, 20, 30, 0);
    let b = Rgba::new(10, 20, 30, 255);
    assert_eq!(color_distance(a, b), 0);
    assert_eq!(color_distance(Rgba::new(10, 20, 30, 0), Rgba::new(13, 18, 30, 9)), 5);
}

#[test]
fn tolerance_boundaries() {
    let a = Rgba::new(10, 20, 30, 255);
    let b = Rgba::new(11, 20, 30, 255);
    assert!(colors_match(a, a, 0));
    assert!(!colors_match(a, b, 0));
    assert!(colors_match(a, b, 1));
    assert!(colors_match(Rgba::new(0, 0, 0, 0), Rgba::new(255, 255, 255, 0), 765));
    assert!(!colors_match(Rgba::new(0, 0, 0, 0), Rgba::new(255, 255, 255, 0), 764));
    assert!(colors_match(Rgba::new(0, 0, 0, 0), Rgba::new(255, 255, 255, 0), u32::MAX));
}

#[test]
fn colour_of_a_packed_value_is_opaque() {
    assert_eq!(Rgba::from_hex(0x0a0b0c), Rgba::new(10, 11, 12, 255));
    assert_eq!(Rgba::new(10, 11, 12, 3).to_hex(), 0x0a0b0c);
}

#[test]
fn distance_is_symmetric_and_obeys_the_triangle_inequality() {
    let colors = [
        Rgba::new(0, 0, 0, 0),
        Rgba::new(255, 255, 255, 255),
        Rgba::new(10, 200, 30, 9),
        Rgba::new(11, 199, 31, 9),
        Rgba::new(128, 0, 255, 1),
    ];
    for &a in colors.iter() {
        for &b in colors.iter() {
            assert_eq!(color_distance(a, b), color_distance(b, a));
            assert!(color_distance(a, b) <= MAX_DISTANCE);
            assert_eq!(color_distance(a, b) == 0, (a.r, a.g, a.b) == (b.r, b.g, b.b));
            for &c in colors.iter() {
                assert!(color_distance(a, c) <= color_distance(a, b) + color_distance(b, c));
            }
        }
    }
}

#[test]
fn matching_grows_with_the_tolerance() {
    let a = Rgba::new(10, 200, 30, 9);
    let b = Rgba::new(20, 190, 35, 9);
    assert_eq!(color_distance(a, b), 25);
    for tolerance in 0..=40u32 {
        assert_eq!(colors_match(a, b, tolerance), tolerance >= 25);
    }
}

#[test]
fn packing_is_one_to_one() {
    for hex in [0u32, 1, 255, 256, 65535, 65536, 0x7f7f7f, 0xffffff] {
        let (r, g, b) = hex_to_rgb(hex);
        assert_eq!(rgb_to_hex(r, g, b), hex);
    }
}
