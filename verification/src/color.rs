//! Packed pixel colors.

use vstd::prelude::*;
use crate::fixed::div_floor;
use crate::vector::Vec3;

verus! {

/// The packed value of a color given by its three 8-bit channels:
/// red in bits 16..24, green in bits 8..16, blue in bits 0..8.
pub open spec fn packed_rgb(r: u8, g: u8, b: u8) -> u32 {
    (r as u32 * 65536 + g as u32 * 256 + b as u32) as u32
}

/// Packs three 8-bit channels into one pixel value.
pub fn from_u8_rgb(r: u8, g: u8, b: u8) -> (pixel: u32)
    ensures
        pixel == packed_rgb(r, g, b),
        pixel == ((r as u32) << 16) | ((g as u32) << 8) | (b as u32),
{
    let (r, g, b) = (r as u32, g as u32, b as u32);
    assert(((r << 16) | (g << 8) | b) == r * 65536 + g * 256 + b) by (bit_vector)
        requires
            r < 256,
            g < 256,
            b < 256,
    ;
    (r << 16) | (g << 8) | b
}

/// The 8-bit value of a raw color channel: the channel times 255 with the
/// fraction dropped, limited to `0..=255`.
pub open spec fn channel_byte_spec(c: int) -> int {
    let scaled = (c * 255) / 65536;
    if scaled < 0 {
        0
    } else if scaled > 255 {
        255
    } else {
        scaled
    }
}

/// The packed value of a color given by three raw channels.
pub open spec fn packed_vec3_spec(rgb: (int, int, int)) -> u32 {
    packed_rgb(
        channel_byte_spec(rgb.0) as u8,
        channel_byte_spec(rgb.1) as u8,
        channel_byte_spec(rgb.2) as u8,
    )
}

/// The 8-bit value of a raw color channel.
pub fn channel_byte(c: i32) -> (b: u8)
    ensures
        b == channel_byte_spec(c as int),
{
    let scaled: i128 = div_floor((c as i128) * 255, 65536);
    if scaled < 0 {
        0
    } else if scaled > 255 {
        255
    } else {
        scaled as u8
    }
}

/// Packs a color of three raw channels into one pixel value.
pub fn from_vec3_rgb(rgb: &Vec3) -> (pixel: u32)
    ensures
        pixel == packed_vec3_spec(rgb@),
{
    from_u8_rgb(channel_byte(rgb.x), channel_byte(rgb.y), channel_byte(rgb.z))
}

} // verus!
