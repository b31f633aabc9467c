//! Fixed-point vectors and matrices.

use vstd::prelude::*;
use crate::fixed::{
    clamp_i32, div_floor, div_spec, isqrt, isqrt_spec, lemma_mul_bounded, mul_fixed,
    mul_spec, saturate,
};

verus! {

/// A point or direction in the plane, in Q16.16.
#[derive(Clone, Copy, Debug)]
pub struct Vec2 {
    pub x: i32,
    pub y: i32,
}

/// A point, direction or color in space, in Q16.16.
#[derive(Clone, Copy, Debug)]
pub struct Vec3 {
    pub x: i32,
    pub y: i32,
    pub z: i32,
}

/// A homogeneous point or a color with alpha, in Q16.16.
#[derive(Clone, Copy, Debug)]
pub struct Vec4 {
    pub x: i32,
    pub y: i32,
    pub z: i32,
    pub w: i32,
}

impl View for Vec2 {
    type V = (int, int);

    open spec fn view(&self) -> (int, int) {
        (self.x as int, self.y as int)
    }
}

impl View for Vec3 {
    type V = (int, int, int);

    open spec fn view(&self) -> (int, int, int) {
        (self.x as int, self.y as int, self.z as int)
    }
}

impl View for Vec4 {
    type V = (int, int, int, int);

    open spec fn view(&self) -> (int, int, int, int) {
        (self.x as int, self.y as int, self.z as int, self.w as int)
    }
}

impl Vec2 {
    pub fn new(x: i32, y: i32) -> (v: Vec2)
        ensures
            v == (Vec2 { x, y }),
    {
        Vec2 { x, y }
    }
}

impl Vec3 {
    pub fn new(x: i32, y: i32, z: i32) -> (v: Vec3)
        ensures
            v == (Vec3 { x, y, z }),
    {
        Vec3 { x, y, z }
    }
}

impl Vec4 {
    pub fn new(x: i32, y: i32, z: i32, w: i32) -> (v: Vec4)
        ensures
            v == (Vec4 { x, y, z, w }),
    {
        Vec4 { x, y, z, w }
    }
}

/// A 4x4 matrix in Q16.16, given by its four rows.
#[derive(Clone, Copy, Debug)]
pub struct Mat4 {
    pub r0: Vec4,
    pub r1: Vec4,
    pub r2: Vec4,
    pub r3: Vec4,
}

/// What a matrix holds: its four rows.
pub type Mat4View = (
    (int, int, int, int),
    (int, int, int, int),
    (int, int, int, int),
    (int, int, int, int),
);

impl View for Mat4 {
    type V = Mat4View;

    open spec fn view(&self) -> Mat4View {
        (self.r0@, self.r1@, self.r2@, self.r3@)
    }
}

/// The fixed-point dot product of two vectors in space: the exact sum of the
/// products, rounded down once.
pub open spec fn dot3_spec(a: (int, int, int), b: (int, int, int)) -> int {
    clamp_i32((a.0 * b.0 + a.1 * b.1 + a.2 * b.2) / 65536)
}

/// The fixed-point dot product of two homogeneous vectors.
pub open spec fn dot4_spec(a: (int, int, int, int), b: (int, int, int, int)) -> int {
    clamp_i32((a.0 * b.0 + a.1 * b.1 + a.2 * b.2 + a.3 * b.3) / 65536)
}

/// The raw length of a vector: the integer square root of the sum of the
/// squares of its raw components.
pub open spec fn length3_spec(v: (int, int, int)) -> int {
    isqrt_spec(v.0 * v.0 + v.1 * v.1 + v.2 * v.2)
}

/// The vector scaled to length one.  The zero vector stays zero.
pub open spec fn normalize3_spec(v: (int, int, int)) -> (int, int, int) {
    let len = length3_spec(v);
    if len == 0 {
        (0, 0, 0)
    } else {
        (div_spec(v.0, len), div_spec(v.1, len), div_spec(v.2, len))
    }
}

/// The blend of two raw values: `a` at `s == 0`, `b` at `s == 1`.
pub open spec fn lerp_spec(a: int, b: int, s: int) -> int {
    clamp_i32(a + ((b - a) * s) / 65536)
}

/// The blend of two homogeneous vectors, component by component.
pub open spec fn lerp4_spec(a: (int, int, int, int), b: (int, int, int, int), s: int) -> (
    int,
    int,
    int,
    int,
) {
    (lerp_spec(a.0, b.0, s), lerp_spec(a.1, b.1, s), lerp_spec(a.2, b.2, s), lerp_spec(a.3, b.3, s))
}

/// The product of two homogeneous vectors, component by component.
pub open spec fn mul4_spec(a: (int, int, int, int), b: (int, int, int, int)) -> (
    int,
    int,
    int,
    int,
) {
    (mul_spec(a.0, b.0), mul_spec(a.1, b.1), mul_spec(a.2, b.2), mul_spec(a.3, b.3))
}

/// A vector in space times a scalar.
pub open spec fn scale3_spec(v: (int, int, int), s: int) -> (int, int, int) {
    (mul_spec(v.0, s), mul_spec(v.1, s), mul_spec(v.2, s))
}

/// The product of a matrix and a homogeneous vector.
pub open spec fn mul_vec4_spec(m: Mat4View, v: (int, int, int, int)) -> (int, int, int, int) {
    (dot4_spec(m.0, v), dot4_spec(m.1, v), dot4_spec(m.2, v), dot4_spec(m.3, v))
}

/// Blends two raw values.
pub fn lerp(a: i32, b: i32, s: i32) -> (r: i32)
    ensures
        r == lerp_spec(a as int, b as int, s as int),
{
    let d: i128 = (b as i128) - (a as i128);
    proof {
        lemma_mul_bounded(d as int, s as int, 0x1_0000_0000, 0x8000_0000);
    }
    saturate((a as i128) + div_floor(d * (s as i128), 65536))
}

impl Vec3 {
    /// The dot product.
    pub fn dot(&self, rhs: &Vec3) -> (r: i32)
        ensures
            r == dot3_spec(self@, rhs@),
    {
        proof {
            lemma_mul_bounded(self.x as int, rhs.x as int, 0x8000_0000, 0x8000_0000);
            lemma_mul_bounded(self.y as int, rhs.y as int, 0x8000_0000, 0x8000_0000);
            lemma_mul_bounded(self.z as int, rhs.z as int, 0x8000_0000, 0x8000_0000);
        }
        let sum: i128 = (self.x as i128) * (rhs.x as i128) + (self.y as i128) * (rhs.y as i128) + (
        self.z as i128) * (rhs.z as i128);
        saturate(div_floor(sum, 65536))
    }

    /// The vector scaled to length one.  The zero vector stays zero.
    pub fn normalize(&self) -> (r: Vec3)
        ensures
            r@ == normalize3_spec(self@),
    {
        proof {
            lemma_mul_bounded(self.x as int, self.x as int, 0x8000_0000, 0x8000_0000);
            lemma_mul_bounded(self.y as int, self.y as int, 0x8000_0000, 0x8000_0000);
            lemma_mul_bounded(self.z as int, self.z as int, 0x8000_0000, 0x8000_0000);
            assert((self.x as int) * (self.x as int) >= 0) by (nonlinear_arith);
            assert((self.y as int) * (self.y as int) >= 0) by (nonlinear_arith);
            assert((self.z as int) * (self.z as int) >= 0) by (nonlinear_arith);
        }
        let x: i64 = self.x as i64;
        let y: i64 = self.y as i64;
        let z: i64 = self.z as i64;
        let sum: u64 = (x * x) as u64 + (y * y) as u64 + (z * z) as u64;
        let len: i128 = isqrt(sum) as i128;
        if len == 0 {
            Vec3 { x: 0, y: 0, z: 0 }
        } else {
            Vec3 {
                x: saturate(div_floor((self.x as i128) * 65536, len)),
                y: saturate(div_floor((self.y as i128) * 65536, len)),
                z: saturate(div_floor((self.z as i128) * 65536, len)),
            }
        }
    }

    /// The vector times a scalar.
    pub fn scale(&self, s: i32) -> (r: Vec3)
        ensures
            r@ == scale3_spec(self@, s as int),
    {
        Vec3 { x: mul_fixed(self.x, s), y: mul_fixed(self.y, s), z: mul_fixed(self.z, s) }
    }
}

impl Vec4 {
    /// The dot product.
    pub fn dot(&self, rhs: &Vec4) -> (r: i32)
        ensures
            r == dot4_spec(self@, rhs@),
    {
        proof {
            lemma_mul_bounded(self.x as int, rhs.x as int, 0x8000_0000, 0x8000_0000);
            lemma_mul_bounded(self.y as int, rhs.y as int, 0x8000_0000, 0x8000_0000);
            lemma_mul_bounded(self.z as int, rhs.z as int, 0x8000_0000, 0x8000_0000);
            lemma_mul_bounded(self.w as int, rhs.w as int, 0x8000_0000, 0x8000_0000);
        }
        let sum: i128 = (self.x as i128) * (rhs.x as i128) + (self.y as i128) * (rhs.y as i128) + (
        self.z as i128) * (rhs.z as i128) + (self.w as i128) * (rhs.w as i128);
        saturate(div_floor(sum, 65536))
    }

    /// The blend of two vectors: `self` at `s == 0`, `rhs` at `s == 1`.
    pub fn lerp(&self, rhs: &Vec4, s: i32) -> (r: Vec4)
        ensures
            r@ == lerp4_spec(self@, rhs@, s as int),
    {
        Vec4 {
            x: lerp(self.x, rhs.x, s),
            y: lerp(self.y, rhs.y, s),
            z: lerp(self.z, rhs.z, s),
            w: lerp(self.w, rhs.w, s),
        }
    }

    /// The product of two vectors, component by component.
    pub fn mul(&self, rhs: &Vec4) -> (r: Vec4)
        ensures
            r@ == mul4_spec(self@, rhs@),
    {
        Vec4 {
            x: mul_fixed(self.x, rhs.x),
            y: mul_fixed(self.y, rhs.y),
            z: mul_fixed(self.z, rhs.z),
            w: mul_fixed(self.w, rhs.w),
        }
    }
}

impl Mat4 {
    /// The product of the matrix and a homogeneous vector.
    pub fn mul_vec4(&self, v: &Vec4) -> (r: Vec4)
        ensures
            r@ == mul_vec4_spec(self@, v@),
    {
        Vec4 { x: self.r0.dot(v), y: self.r1.dot(v), z: self.r2.dot(v), w: self.r3.dot(v) }
    }
}

} // verus!
