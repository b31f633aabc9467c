//! The projector: from model space to normalized device coordinates and on
//! to pixel coordinates.

use vstd::prelude::*;
use crate::fixed::{clamp_i32, div_fixed, div_floor, div_spec, lemma_div_between, saturate, ONE};
use crate::vector::{mul_vec4_spec, Mat4, Mat4View, Vec2, Vec3, Vec4};

verus! {

/// The normalized device coordinates of the model-space point `p` under the
/// matrix `m`, and the reciprocal of its clip-space `w`: the product of `m`
/// and `(p, 1)`, divided by its `w`.  Where that `w` is zero the quotients
/// lie at the ends of the range.
pub open spec fn project_spec(p: (int, int, int), m: Mat4View) -> ((int, int, int), int) {
    let clip = mul_vec4_spec(m, (p.0, p.1, p.2, 65536));
    (
        (div_spec(clip.0, clip.3), div_spec(clip.1, clip.3), div_spec(clip.2, clip.3)),
        div_spec(65536, clip.3),
    )
}

/// The raw pixel coordinate of the normalized device coordinate `n` along
/// an axis of `size` pixels: `(n * -0.5 + 0.5) * size`, so that `1` maps to
/// the pixel `0` and `-1` to the pixel `size`.
pub open spec fn screen_coord_spec(n: int, size: int) -> int {
    clamp_i32(((65536 - n) * size) / 2)
}

/// The normalized device coordinate of the raw pixel coordinate `c` along
/// an axis of `size` pixels: `1 - 2 * c / size`, rounded down.
pub open spec fn clip_coord_spec(c: int, size: int) -> int {
    65536 + (-(2 * c)) / size
}

/// The pixel coordinates of a point in normalized device coordinates on a
/// screen of `width` by `height` pixels.
pub open spec fn clip_to_screen_spec(n: (int, int), width: int, height: int) -> (int, int) {
    (screen_coord_spec(n.0, width), screen_coord_spec(n.1, height))
}

/// The point in normalized device coordinates of given pixel coordinates.
pub open spec fn screen_to_clip_spec(c: (int, int), width: int, height: int) -> (int, int) {
    (clip_coord_spec(c.0, width), clip_coord_spec(c.1, height))
}

/// Mapping a normalized device coordinate to the screen and back recovers it
/// within one raw unit, on every axis of at least one pixel and where the
/// pixel coordinate is representable: the coordinate that comes back is the
/// one that went in or the raw value above it.  On an axis of at least two
/// pixels it is exactly the one that went in.
pub proof fn lemma_screen_coord_round_trip(n: int, size: int)
    requires
        size >= 1,
        i32::MIN <= ((65536 - n) * size) / 2 <= i32::MAX,
    ensures
        n <= clip_coord_spec(screen_coord_spec(n, size), size) <= n + 1,
        size >= 2 ==> clip_coord_spec(screen_coord_spec(n, size), size) == n,
{
    let t = (65536 - n) * size;
    let c = t / 2;
    let k = n - 65536;
    assert(k * size == -t) by (nonlinear_arith)
        requires
            t == (65536 - n) * size,
            k == n - 65536,
    ;
    assert((k + 1) * size == k * size + size) by (nonlinear_arith);
    assert((k + 2) * size == k * size + size + size) by (nonlinear_arith);
    if -(2 * c) < (k + 1) * size {
        lemma_div_between(-(2 * c), size, k);
    } else {
        lemma_div_between(-(2 * c), size, k + 1);
    }
}

/// Mapping a point in normalized device coordinates to the screen and back
/// recovers it within one raw unit per coordinate, on every screen of at
/// least one pixel and where the pixel coordinates are representable.  On a
/// screen of at least two by two pixels it is recovered exactly.
pub proof fn lemma_clip_to_screen_round_trip(n: (int, int), width: int, height: int)
    requires
        width >= 1,
        height >= 1,
        i32::MIN <= ((65536 - n.0) * width) / 2 <= i32::MAX,
        i32::MIN <= ((65536 - n.1) * height) / 2 <= i32::MAX,
    ensures
        ({
            let back = screen_to_clip_spec(clip_to_screen_spec(n, width, height), width, height);
            &&& n.0 <= back.0 <= n.0 + 1
            &&& n.1 <= back.1 <= n.1 + 1
            &&& width >= 2 ==> back.0 == n.0
            &&& height >= 2 ==> back.1 == n.1
        }),
{
    lemma_screen_coord_round_trip(n.0, width);
    lemma_screen_coord_round_trip(n.1, height);
}

/// Projects a model-space point: returns its normalized device coordinates
/// and the reciprocal of its clip-space `w`.  A `w` that is zero or negative
/// is not treated specially: the coordinates then lie at the ends of the
/// range, or on the far side.
pub fn project(p: &Vec3, mvp: &Mat4) -> (r: (Vec3, i32))
    ensures
        (r.0@, r.1 as int) == project_spec(p@, mvp@),
{
    let proj_pos: Vec4 = mvp.mul_vec4(&Vec4 { x: p.x, y: p.y, z: p.z, w: ONE });
    let rec: i32 = div_fixed(ONE, proj_pos.w);
    (
        Vec3 {
            x: div_fixed(proj_pos.x, proj_pos.w),
            y: div_fixed(proj_pos.y, proj_pos.w),
            z: div_fixed(proj_pos.z, proj_pos.w),
        },
        rec,
    )
}

/// One pixel coordinate of a normalized device coordinate.
fn screen_coord(n: i32, size: usize) -> (c: i32)
    ensures
        c == screen_coord_spec(n as int, size as int),
{
    let d: i128 = 65536 - (n as i128);
    proof {
        assert(-(0x1_0000_0000 * 0xffff_ffff_ffff_ffff) <= d * size <= 0x1_0000_0000
            * 0xffff_ffff_ffff_ffff) by (nonlinear_arith)
            requires
                -0x1_0000_0000 <= d <= 0x1_0000_0000,
                0 <= size <= 0xffff_ffff_ffff_ffff,
        ;
    }
    saturate(div_floor(d * (size as i128), 2))
}

/// Maps normalized device coordinates to pixel coordinates on a screen of
/// `width` by `height` pixels, with the vertical axis flipped.
pub fn clip_to_screen_space(clip_space: &Vec2, width: usize, height: usize) -> (r: Vec2)
    ensures
        r@ == clip_to_screen_spec(clip_space@, width as int, height as int),
{
    Vec2 { x: screen_coord(clip_space.x, width), y: screen_coord(clip_space.y, height) }
}

} // verus!
