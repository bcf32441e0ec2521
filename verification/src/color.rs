//! Colour model: RGBA samples, 24-bit hex packing and the colour distance
//! that tolerant matching is built on.

use vstd::prelude::*;

verus! {

/// Largest value of [`color_distance`]: black against white.
pub const MAX_DISTANCE: u32 = 765;

/// One sample of a pixel buffer. Alpha is carried along and never compared.
#[derive(Clone, Copy, Debug, PartialEq, Eq, Hash, Structural)]
pub struct Rgba {
    pub r: u8,
    pub g: u8,
    pub b: u8,
    pub a: u8,
}

/// The packed value of a colour: `r * 2^16 + g * 2^8 + b`.
pub open spec fn spec_rgb_to_hex(red: u8, green: u8, blue: u8) -> u32 {
    (red as u32 * 65536 + green as u32 * 256 + blue as u32) as u32
}

/// The three low bytes of a packed colour, most significant first.
pub open spec fn spec_hex_to_rgb(hex: u32) -> (u8, u8, u8) {
    (((hex / 65536) % 256) as u8, ((hex / 256) % 256) as u8, (hex % 256) as u8)
}

/// Absolute difference of two channel values.
pub open spec fn channel_delta(x: u8, y: u8) -> int {
    if x >= y {
        x - y
    } else {
        y - x
    }
}

/// Distance of two colours in steps of 1/765: the sum of the absolute
/// differences of the red, green and blue channels. Divided by 765 it is the
/// mean per-channel difference on a scale from 0 to 1.
pub open spec fn spec_color_distance(a: Rgba, b: Rgba) -> int {
    channel_delta(a.r, b.r) + channel_delta(a.g, b.g) + channel_delta(a.b, b.b)
}

/// Whether two colours are within `tolerance` steps of each other.
pub open spec fn spec_colors_match(a: Rgba, b: Rgba, tolerance: u32) -> bool {
    spec_color_distance(a, b) <= tolerance
}

/// Packs three channel values into a 24-bit colour.
pub fn rgb_to_hex(red: u8, green: u8, blue: u8) -> (hex: u32)
    ensures
        hex == spec_rgb_to_hex(red, green, blue),
        hex == red as u32 * 65536 + green as u32 * 256 + blue as u32,
        hex < 0x100_0000,
{
    let r: u32 = red as u32;
    let g: u32 = green as u32;
    let b: u32 = blue as u32;
    assert((r << 16) | (g << 8) | b == r * 65536 + g * 256 + b) by (bit_vector)
        requires
            r < 256,
            g < 256,
            b < 256,
    ;
    (r << 16) | (g << 8) | b
}

/// Unpacks the three low bytes of a colour; bits above the 24th are ignored.
pub fn hex_to_rgb(hex: u32) -> (rgb: (u8, u8, u8))
    ensures
        rgb == spec_hex_to_rgb(hex),
{
    assert((hex >> 16) & 0xff == (hex / 65536) % 256) by (bit_vector);
    assert((hex >> 8) & 0xff == (hex / 256) % 256) by (bit_vector);
    assert(hex & 0xff == hex % 256) by (bit_vector);
    let red: u8 = ((hex >> 16) & 0xff) as u8;
    let green: u8 = ((hex >> 8) & 0xff) as u8;
    let blue: u8 = (hex & 0xff) as u8;
    (red, green, blue)
}

/// The opaque colour that a packed value stands for in a search.
pub open spec fn spec_color_of_hex(hex: u32) -> Rgba {
    Rgba {
        r: spec_hex_to_rgb(hex).0,
        g: spec_hex_to_rgb(hex).1,
        b: spec_hex_to_rgb(hex).2,
        a: 255,
    }
}

impl Rgba {
    /// A colour from its four channels.
    pub fn new(r: u8, g: u8, b: u8, a: u8) -> (c: Rgba)
        ensures
            c == (Rgba { r, g, b, a }),
    {
        Rgba { r, g, b, a }
    }

    /// The opaque colour of a packed value.
    pub fn from_hex(hex: u32) -> (c: Rgba)
        ensures
            c == spec_color_of_hex(hex),
    {
        let (r, g, b) = hex_to_rgb(hex);
        Rgba { r, g, b, a: 255 }
    }

    /// The packed value of the colour, without its alpha.
    pub fn to_hex(&self) -> (hex: u32)
        ensures
            hex == spec_rgb_to_hex(self.r, self.g, self.b),
    {
        rgb_to_hex(self.r, self.g, self.b)
    }
}

fn abs_delta(x: u8, y: u8) -> (d: u32)
    ensures
        d == channel_delta(x, y),
        d <= 255,
{
    if x >= y {
        (x - y) as u32
    } else {
        (y - x) as u32
    }
}

/// Distance of two colours in steps of 1/765, alpha left out.
pub fn color_distance(a: Rgba, b: Rgba) -> (d: u32)
    ensures
        d == spec_color_distance(a, b),
        d <= MAX_DISTANCE,
{
    abs_delta(a.r, b.r) + abs_delta(a.g, b.g) + abs_delta(a.b, b.b)
}

/// Whether `a` matches `b` within `tolerance` steps. A tolerance of 0 asks
/// for equal red, green and blue; any tolerance of 765 or more matches every
/// pair, so larger values behave as 765 does.
pub fn colors_match(a: Rgba, b: Rgba, tolerance: u32) -> (m: bool)
    ensures
        m == spec_colors_match(a, b, tolerance),
{
    color_distance(a, b) <= tolerance
}

/// Unpacking a packed colour gives back the three channel values.
pub proof fn lemma_hex_round_trip(red: u8, green: u8, blue: u8)
    ensures
        spec_hex_to_rgb(spec_rgb_to_hex(red, green, blue)) == (red, green, blue),
{
}

/// Packing the unpacked channels of a 24-bit value gives the value back, so
/// packing is a bijection between channel triples and `[0, 2^24)`.
pub proof fn lemma_rgb_round_trip(hex: u32)
    requires
        hex < 0x100_0000,
    ensures
        spec_rgb_to_hex(spec_hex_to_rgb(hex).0, spec_hex_to_rgb(hex).1, spec_hex_to_rgb(hex).2)
            == hex,
{
}

/// A colour is at distance 0 from itself.
pub proof fn lemma_distance_to_self(c: Rgba)
    ensures
        spec_color_distance(c, c) == 0,
{
}

/// The distance does not depend on the order of its arguments.
pub proof fn lemma_distance_symmetric(a: Rgba, b: Rgba)
    ensures
        spec_color_distance(a, b) == spec_color_distance(b, a),
{
}

/// The distance is 0 exactly when red, green and blue agree.
pub proof fn lemma_distance_zero_iff_same_rgb(a: Rgba, b: Rgba)
    ensures
        spec_color_distance(a, b) == 0 <==> (a.r == b.r && a.g == b.g && a.b == b.b),
{
}

/// The distance lies between 0 and 765, and black against white reaches 765
/// whatever the alpha values are.
pub proof fn lemma_distance_bounds(a: Rgba, b: Rgba, alpha1: u8, alpha2: u8)
    ensures
        0 <= spec_color_distance(a, b) <= MAX_DISTANCE,
        spec_color_distance(
            Rgba { r: 0, g: 0, b: 0, a: alpha1 },
            Rgba { r: 255, g: 255, b: 255, a: alpha2 },
        ) == MAX_DISTANCE,
{
}

/// The distance obeys the triangle inequality.
pub proof fn lemma_distance_triangle(a: Rgba, b: Rgba, c: Rgba)
    ensures
        spec_color_distance(a, c) <= spec_color_distance(a, b) + spec_color_distance(b, c),
{
}

/// Matching grows with the tolerance: what matches at one tolerance matches
/// at every larger one, tolerance 0 is equality of red, green and blue, and
/// tolerance 765 matches everything.
pub proof fn lemma_match_monotonic(a: Rgba, b: Rgba, t1: u32, t2: u32)
    requires
        t1 <= t2,
    ensures
        spec_colors_match(a, b, t1) ==> spec_colors_match(a, b, t2),
        spec_colors_match(a, b, 0) <==> (a.r == b.r && a.g == b.g && a.b == b.b),
        spec_colors_match(a, b, MAX_DISTANCE),
{
}

/// A tolerance above 765 is as good as 765: matching with it is matching
/// with the tolerance cut down to the largest distance.
pub proof fn lemma_tolerance_is_clamped(a: Rgba, b: Rgba, tolerance: u32)
    ensures
        spec_colors_match(a, b, tolerance) == spec_colors_match(
            a,
            b,
            if tolerance > MAX_DISTANCE {
                MAX_DISTANCE
            } else {
                tolerance
            },
        ),
{
}

} // verus!
