//! The rasterizer core: edge functions, coverage, barycentric weights and
//! attribute interpolation.
//!
//! Edge values are exact: the product of two Q16.16 differences is kept with
//! all of its 32 fractional bits.  Barycentric weights are never rounded
//! either.  A weight is the ratio of an edge value to the doubled area, and
//! every interpolation divides once, at the end.  128 bits are enough for
//! every triangle whose vertices are representable.

use vstd::prelude::*;
use crate::fixed::{
    clamp_i32, div_floor, floor_div, lemma_div_between, lemma_div_bounds, lemma_mul_bounded,
    saturate,
};
use crate::vector::{Vec2, Vec3};

verus! {

/// Twice the signed area of the triangle `(a, b, p)`.
pub open spec fn edge_spec(a: (int, int), b: (int, int), p: (int, int)) -> int {
    (b.0 - a.0) * (p.1 - a.1) - (b.1 - a.1) * (p.0 - a.0)
}

/// The point `p` turned and scaled by the matrix `[[c, -s], [s, c]]`.
pub open spec fn rotate_spec(p: (int, int), c: int, s: int) -> (int, int) {
    (c * p.0 - s * p.1, s * p.0 + c * p.1)
}

/// The sample point of pixel `(x, y)`: its center.
pub open spec fn pixel_center_spec(x: int, y: int) -> (int, int) {
    (x * 65536 + 32768, y * 65536 + 32768)
}

/// A vertex after the vertex stage: its pixel position, its depth in
/// normalized device coordinates, the reciprocal of its clip-space `w`, and
/// the attributes that are interpolated over the triangle.
#[derive(Clone, Copy, Debug)]
pub struct ScreenVertex {
    pub position: Vec2,
    pub depth: i32,
    pub inv_w: i32,
    pub normal: Vec3,
    pub tex_coord: Vec2,
}

/// Swapping the first two points negates the edge function.
pub proof fn lemma_edge_antisymmetric(a: (int, int), b: (int, int), p: (int, int))
    ensures
        edge_spec(b, a, p) == -edge_spec(a, b, p),
{
    let (ax, ay) = a;
    let (bx, by) = b;
    let (px, py) = p;
    assert((ax - bx) * (py - by) - (ay - by) * (px - bx) == -((bx - ax) * (py - ay) - (by - ay) * (
    px - ax))) by (nonlinear_arith);
}

/// Applying the matrix `[[c, -s], [s, c]]` to all three points multiplies the
/// edge function by its determinant `c * c + s * s`.  A rotation by an angle
/// of cosine `c / n` and sine `s / n` is that matrix divided by `n`, and it
/// scales areas by `(c * c + s * s) / (n * n)`, which is one.
pub proof fn lemma_edge_rotation_scales(
    a: (int, int),
    b: (int, int),
    p: (int, int),
    c: int,
    s: int,
)
    ensures
        edge_spec(rotate_spec(a, c, s), rotate_spec(b, c, s), rotate_spec(p, c, s)) == (c * c + s
            * s) * edge_spec(a, b, p),
{
    let (ax, ay) = a;
    let (bx, by) = b;
    let (px, py) = p;
    let dx = bx - ax;
    let dy = by - ay;
    let qx = px - ax;
    let qy = py - ay;
    assert((c * bx - s * by) - (c * ax - s * ay) == c * dx - s * dy) by (nonlinear_arith)
        requires
            dx == bx - ax,
            dy == by - ay,
    ;
    assert((s * bx + c * by) - (s * ax + c * ay) == s * dx + c * dy) by (nonlinear_arith)
        requires
            dx == bx - ax,
            dy == by - ay,
    ;
    assert((c * px - s * py) - (c * ax - s * ay) == c * qx - s * qy) by (nonlinear_arith)
        requires
            qx == px - ax,
            qy == py - ay,
    ;
    assert((s * px + c * py) - (s * ax + c * ay) == s * qx + c * qy) by (nonlinear_arith)
        requires
            qx == px - ax,
            qy == py - ay,
    ;
    lemma_rotation_determinant(dx, dy, qx, qy, c, s);
}

/// The cross product of two vectors turned by `[[c, -s], [s, c]]` is the
/// cross product of the vectors times `c * c + s * s`.
proof fn lemma_rotation_determinant(dx: int, dy: int, qx: int, qy: int, c: int, s: int)
    ensures
        (c * dx - s * dy) * (s * qx + c * qy) - (s * dx + c * dy) * (c * qx - s * qy) == (c * c + s
            * s) * (dx * qy - dy * qx),
{
    let cs = c * s;
    let cc = c * c;
    let ss = s * s;
    assert(s * c == cs) by (nonlinear_arith)
        requires
            cs == c * s,
    ;
    lemma_expand_sum_product(c * dx, -(s * dy), s * qx, c * qy);
    lemma_expand_sum_product(s * dx, c * dy, c * qx, -(s * qy));
    lemma_regroup_product(c, dx, s, qx);
    lemma_regroup_product(c, dx, c, qy);
    lemma_regroup_product(s, dy, s, qx);
    lemma_regroup_product(s, dy, c, qy);
    lemma_regroup_product(s, dx, c, qx);
    lemma_regroup_product(s, dx, s, qy);
    lemma_regroup_product(c, dy, c, qx);
    lemma_regroup_product(c, dy, s, qy);
    lemma_negate_product(s * dy, s * qx);
    lemma_negate_product(s * dy, c * qy);
    lemma_negate_product(s * qy, s * dx);
    lemma_negate_product(s * qy, c * dy);
    assert((s * dx) * (s * qy) == (s * qy) * (s * dx)) by (nonlinear_arith);
    assert((c * dy) * (s * qy) == (s * qy) * (c * dy)) by (nonlinear_arith);
    lemma_expand_sum_product(cc, ss, dx * qy, -(dy * qx));
    lemma_negate_product(dy * qx, cc);
    lemma_negate_product(dy * qx, ss);
    assert(cc * (dy * qx) == (dy * qx) * cc) by (nonlinear_arith);
    assert(ss * (dy * qx) == (dy * qx) * ss) by (nonlinear_arith);
}

/// The product of two sums, multiplied out.
proof fn lemma_expand_sum_product(a: int, b: int, c: int, d: int)
    ensures
        (a + b) * (c + d) == a * c + a * d + b * c + b * d,
{
    assert((a + b) * (c + d) == a * c + a * d + b * c + b * d) by (nonlinear_arith);
}

/// A product of two products, with the inner factors exchanged.
proof fn lemma_regroup_product(a: int, b: int, c: int, d: int)
    ensures
        (a * b) * (c * d) == (a * c) * (b * d),
{
    assert((a * b) * (c * d) == (a * c) * (b * d)) by (nonlinear_arith);
}

/// A negated factor negates the product, on either side.
proof fn lemma_negate_product(a: int, b: int)
    ensures
        (-a) * b == -(a * b),
        b * (-a) == -(a * b),
{
    assert((-a) * b == -(a * b)) by (nonlinear_arith);
    assert(b * (-a) == -(a * b)) by (nonlinear_arith);
}

/// The edge function does not change when all three points are rotated by
/// the same rotation, that is by a matrix `[[c, -s], [s, c]]` of determinant one.
pub proof fn lemma_edge_rotation_invariant(
    a: (int, int),
    b: (int, int),
    p: (int, int),
    c: int,
    s: int,
)
    requires
        c * c + s * s == 1,
    ensures
        edge_spec(rotate_spec(a, c, s), rotate_spec(b, c, s), rotate_spec(p, c, s)) == edge_spec(
            a,
            b,
            p,
        ),
{
    lemma_edge_rotation_scales(a, b, p, c, s);
    assert(1 * edge_spec(a, b, p) == edge_spec(a, b, p));
}

/// The three edge values of a point sum to the doubled area of the triangle.
pub proof fn lemma_edges_sum_to_area(v0: (int, int), v1: (int, int), v2: (int, int), p: (int, int))
    ensures
        edge_spec(v1, v2, p) + edge_spec(v2, v0, p) + edge_spec(v0, v1, p) == edge_spec(
            v0,
            v1,
            v2,
        ),
{
    let (x0, y0) = v0;
    let (x1, y1) = v1;
    let (x2, y2) = v2;
    let (px, py) = p;
    lemma_expand_product(x2, x1, py, y1);
    lemma_expand_product(y2, y1, px, x1);
    lemma_expand_product(x0, x2, py, y2);
    lemma_expand_product(y0, y2, px, x2);
    lemma_expand_product(x1, x0, py, y0);
    lemma_expand_product(y1, y0, px, x0);
    lemma_expand_product(x1, x0, y2, y0);
    lemma_expand_product(y1, y0, x2, x0);
    assert(x1 * y1 == y1 * x1) by (nonlinear_arith);
    assert(x2 * y2 == y2 * x2) by (nonlinear_arith);
    assert(x0 * y0 == y0 * x0) by (nonlinear_arith);
    assert(x2 * y1 == y1 * x2) by (nonlinear_arith);
    assert(x1 * y2 == y2 * x1) by (nonlinear_arith);
    assert(x0 * y2 == y2 * x0) by (nonlinear_arith);
    assert(x2 * y0 == y0 * x2) by (nonlinear_arith);
    assert(x1 * y0 == y0 * x1) by (nonlinear_arith);
    assert(x0 * y1 == y1 * x0) by (nonlinear_arith);
}

/// The product of two differences, multiplied out.
proof fn lemma_expand_product(a: int, b: int, c: int, d: int)
    ensures
        (a - b) * (c - d) == a * c - a * d - b * c + b * d,
{
    assert((a - b) * (c - d) == a * c - a * d - b * c + b * d) by (nonlinear_arith);
}

/// The edge function of three points in a square of side `d` is bounded by
/// twice the area of the square.
pub proof fn lemma_edge_bounded(a: (int, int), b: (int, int), p: (int, int), low: int, d: int)
    requires
        low <= a.0 <= low + d,
        low <= a.1 <= low + d,
        low <= b.0 <= low + d,
        low <= b.1 <= low + d,
        low <= p.0 <= low + d,
        low <= p.1 <= low + d,
    ensures
        -(2 * (d * d)) <= edge_spec(a, b, p) <= 2 * (d * d),
{
    lemma_mul_bounded(b.0 - a.0, p.1 - a.1, d, d);
    lemma_mul_bounded(b.1 - a.1, p.0 - a.0, d, d);
}

/// Twice the signed area of the triangle `(a, b, p)`, in units of `2^-32`
/// square pixels.  It is positive when `p` lies to the inner side of the
/// directed line from `a` to `b` for the winding that the projection gives.
pub fn edge_function(a: &Vec2, b: &Vec2, p: &Vec2) -> (e: i128)
    ensures
        e == edge_spec(a@, b@, p@),
{
    let dx: i128 = (b.x as i128) - (a.x as i128);
    let dy: i128 = (b.y as i128) - (a.y as i128);
    let qx: i128 = (p.x as i128) - (a.x as i128);
    let qy: i128 = (p.y as i128) - (a.y as i128);
    proof {
        lemma_mul_bounded(dx as int, qy as int, 0x1_0000_0000, 0x1_0000_0000);
        lemma_mul_bounded(dy as int, qx as int, 0x1_0000_0000, 0x1_0000_0000);
    }
    dx * qy - dy * qx
}

/// Whether `p` lies strictly inside the triangle `(a, b, c)`.
pub open spec fn inside_spec(a: (int, int), b: (int, int), c: (int, int), p: (int, int)) -> bool {
    edge_spec(b, c, p) > 0 && edge_spec(c, a, p) > 0 && edge_spec(a, b, p) > 0
}

/// Tests whether `p` lies strictly inside the triangle `(a, b, c)`.  Points on
/// an edge are outside.
pub fn inside_triangle(a: &Vec2, b: &Vec2, c: &Vec2, p: &Vec2) -> (inside: bool)
    ensures
        inside == inside_spec(a@, b@, c@, p@),
{
    let a0: i128 = edge_function(b, c, p);
    let a1: i128 = edge_function(c, a, p);
    let a2: i128 = edge_function(a, b, p);
    a0 > 0 && a1 > 0 && a2 > 0
}

/// The value of an attribute at a sample point by plain barycentric
/// interpolation: the sum of the vertex values, each times its weight
/// `a_i / area`, rounded down.  `a` holds the three edge values.
pub open spec fn linear_spec(a: (int, int, int), v: (int, int, int)) -> int {
    let area = a.0 + a.1 + a.2;
    if area == 0 {
        0
    } else {
        clamp_i32(floor_div(v.0 * a.0 + v.1 * a.1 + v.2 * a.2, area))
    }
}

/// The value of an attribute at a sample point by perspective-correct
/// interpolation.  With weights `w_i = a_i / area` and reciprocal depths
/// `iw_i`, it is `(sum of v_i * iw_i * w_i) / (sum of iw_i * w_i)`, in which
/// the area cancels.  It is rounded down and limited to `i32`, and it is zero
/// where the denominator vanishes.
pub open spec fn perspective_spec(a: (int, int, int), iw: (int, int, int), v: (int, int, int)) -> int {
    let den = iw.0 * a.0 + iw.1 * a.1 + iw.2 * a.2;
    let num = v.0 * (iw.0 * a.0) + v.1 * (iw.1 * a.1) + v.2 * (iw.2 * a.2);
    if den == 0 {
        0
    } else {
        clamp_i32(floor_div(num, den))
    }
}

/// The smallest of three values.
pub open spec fn min3_spec(a: int, b: int, c: int) -> int {
    if a <= b && a <= c {
        a
    } else if b <= c {
        b
    } else {
        c
    }
}

/// The largest of three values.
pub open spec fn max3_spec(a: int, b: int, c: int) -> int {
    if a >= b && a >= c {
        a
    } else if b >= c {
        b
    } else {
        c
    }
}

/// Plain barycentric interpolation with positive weights stays within the
/// extent of the vertex values.
pub proof fn lemma_linear_within_extent(a: (int, int, int), v: (int, int, int))
    requires
        a.0 > 0,
        a.1 > 0,
        a.2 > 0,
        i32::MIN <= min3_spec(v.0, v.1, v.2),
        max3_spec(v.0, v.1, v.2) <= i32::MAX,
    ensures
        min3_spec(v.0, v.1, v.2) <= linear_spec(a, v) <= max3_spec(v.0, v.1, v.2),
{
    let area = a.0 + a.1 + a.2;
    let low = min3_spec(v.0, v.1, v.2);
    let high = max3_spec(v.0, v.1, v.2);
    let sum = v.0 * a.0 + v.1 * a.1 + v.2 * a.2;
    assert(low * a.0 <= v.0 * a.0 <= high * a.0) by (nonlinear_arith)
        requires
            low <= v.0 <= high,
            a.0 > 0,
    ;
    assert(low * a.1 <= v.1 * a.1 <= high * a.1) by (nonlinear_arith)
        requires
            low <= v.1 <= high,
            a.1 > 0,
    ;
    assert(low * a.2 <= v.2 * a.2 <= high * a.2) by (nonlinear_arith)
        requires
            low <= v.2 <= high,
            a.2 > 0,
    ;
    assert(low * area == low * a.0 + low * a.1 + low * a.2) by (nonlinear_arith)
        requires
            area == a.0 + a.1 + a.2,
    ;
    assert(high * area == high * a.0 + high * a.1 + high * a.2) by (nonlinear_arith)
        requires
            area == a.0 + a.1 + a.2,
    ;
    lemma_div_bounds(sum, area);
    let q = sum / area;
    assert(low <= q <= high) by (nonlinear_arith)
        requires
            area > 0,
            low * area <= sum <= high * area,
            q * area <= sum < (q + 1) * area,
    ;
}

/// A common non-zero factor of dividend and divisor does not change the
/// rounded-down quotient.
pub proof fn lemma_floor_div_cancel(c: int, n: int, d: int)
    requires
        c != 0,
        d > 0,
    ensures
        floor_div(c * n, c * d) == floor_div(n, d),
{
    let q = n / d;
    lemma_div_bounds(n, d);
    if c > 0 {
        assert(c * d > 0) by (nonlinear_arith)
            requires
                c > 0,
                d > 0,
        ;
        assert(q * (c * d) <= c * n < (q + 1) * (c * d)) by (nonlinear_arith)
            requires
                c > 0,
                q * d <= n < (q + 1) * d,
        ;
        lemma_div_between(c * n, c * d, q);
    } else {
        let k = -c;
        assert(-(c * d) == k * d && -(c * n) == k * n) by (nonlinear_arith)
            requires
                k == -c,
        ;
        assert(k * d > 0) by (nonlinear_arith)
            requires
                k > 0,
                d > 0,
        ;
        assert(q * (k * d) <= k * n < (q + 1) * (k * d)) by (nonlinear_arith)
            requires
                k > 0,
                q * d <= n < (q + 1) * d,
        ;
        lemma_div_between(k * n, k * d, q);
    }
}

/// When the three reciprocal depths are equal and not zero, as they are
/// under an orthographic projection where each is one, perspective-correct
/// interpolation of any attribute equals plain barycentric interpolation.
pub proof fn lemma_perspective_is_linear(a: (int, int, int), c: int, v: (int, int, int))
    requires
        c != 0,
        a.0 + a.1 + a.2 > 0,
    ensures
        perspective_spec(a, (c, c, c), v) == linear_spec(a, v),
{
    let area = a.0 + a.1 + a.2;
    let n = v.0 * a.0 + v.1 * a.1 + v.2 * a.2;
    assert(c * a.0 + c * a.1 + c * a.2 == c * area) by (nonlinear_arith)
        requires
            area == a.0 + a.1 + a.2,
    ;
    assert(v.0 * (c * a.0) == c * (v.0 * a.0)) by (nonlinear_arith);
    assert(v.1 * (c * a.1) == c * (v.1 * a.1)) by (nonlinear_arith);
    assert(v.2 * (c * a.2) == c * (v.2 * a.2)) by (nonlinear_arith);
    assert(c * (v.0 * a.0) + c * (v.1 * a.1) + c * (v.2 * a.2) == c * n) by (nonlinear_arith)
        requires
            n == v.0 * a.0 + v.1 * a.1 + v.2 * a.2,
    ;
    assert(c * area != 0) by (nonlinear_arith)
        requires
            c != 0,
            area > 0,
    ;
    lemma_floor_div_cancel(c, n, area);
}

/// The largest doubled area of a triangle whose vertices have coordinates
/// in the range of `i32`: twice the square of `2^32 - 1`.
pub const AREA_LIMIT: i128 = 0x1_ffff_fffc_0000_0002;

/// The edge values of one sample point against the three edges of a
/// triangle.  The barycentric weight of vertex `i` is `a_i / area`.
#[derive(Clone, Copy, Debug)]
pub struct Barycentric {
    pub a0: i128,
    pub a1: i128,
    pub a2: i128,
}

impl Barycentric {
    /// The doubled area of the triangle: the sum of the edge values.
    pub open spec fn area(&self) -> int {
        self.a0 + self.a1 + self.a2
    }

    /// The sample point lies strictly inside the triangle.
    pub open spec fn covered(&self) -> bool {
        self.a0 > 0 && self.a1 > 0 && self.a2 > 0
    }

    /// The sample point is covered and the area is no larger than that of a
    /// triangle of representable vertices can be, so that the interpolation
    /// can be computed in 128 bits.
    pub open spec fn wf(&self) -> bool {
        self.covered() && self.area() <= 0x1_ffff_fffc_0000_0002
    }

    /// The edge values of `p` in the triangle `(v0, v1, v2)`.
    pub open spec fn of(v0: (int, int), v1: (int, int), v2: (int, int), p: (int, int)) -> (
        int,
        int,
        int,
    ) {
        (edge_spec(v1, v2, p), edge_spec(v2, v0, p), edge_spec(v0, v1, p))
    }

    /// Computes the three edge values of `p`.
    pub fn new(v0: &Vec2, v1: &Vec2, v2: &Vec2, p: &Vec2) -> (b: Barycentric)
        ensures
            b@ == Self::of(v0@, v1@, v2@, p@),
            b.area() == edge_spec(v0@, v1@, v2@),
            b.covered() == inside_spec(v0@, v1@, v2@, p@),
            b.covered() ==> b.wf(),
    {
        proof {
            lemma_edges_sum_to_area(v0@, v1@, v2@, p@);
            lemma_edge_bounded(v0@, v1@, v2@, i32::MIN as int, 0xffff_ffff);
            assert(2 * (0xffff_ffffint * 0xffff_ffffint) == 0x1_ffff_fffc_0000_0002) by (nonlinear_arith);
        }
        Barycentric {
            a0: edge_function(v1, v2, p),
            a1: edge_function(v2, v0, p),
            a2: edge_function(v0, v1, p),
        }
    }

    /// Whether the sample point lies strictly inside the triangle.
    pub fn is_covered(&self) -> (c: bool)
        ensures
            c == self.covered(),
    {
        self.a0 > 0 && self.a1 > 0 && self.a2 > 0
    }

    /// Whether the sample point is covered and the area is small enough for
    /// the interpolation to be computed in 128 bits.
    pub fn check(&self) -> (ok: bool)
        ensures
            ok == self.wf(),
    {
        self.is_covered() && self.a0 <= AREA_LIMIT && self.a1 <= AREA_LIMIT && self.a2
            <= AREA_LIMIT && self.a0 + self.a1 + self.a2 <= AREA_LIMIT
    }

    /// The three edge values as integers.
    pub open spec fn view(&self) -> (int, int, int) {
        (self.a0 as int, self.a1 as int, self.a2 as int)
    }

    /// Interpolates an attribute with the plain barycentric weights.
    pub fn interpolate_linear(&self, v0: i32, v1: i32, v2: i32) -> (r: i32)
        requires
            self.wf(),
        ensures
            r == linear_spec(self@, (v0 as int, v1 as int, v2 as int)),
    {
        proof {
            lemma_mul_bounded(v0 as int, self.a0 as int, 0x8000_0000, self.a0 as int);
            lemma_mul_bounded(v1 as int, self.a1 as int, 0x8000_0000, self.a1 as int);
            lemma_mul_bounded(v2 as int, self.a2 as int, 0x8000_0000, self.a2 as int);
        }
        let area: i128 = self.a0 + self.a1 + self.a2;
        let num: i128 = (v0 as i128) * self.a0 + (v1 as i128) * self.a1 + (v2 as i128) * self.a2;
        saturate(div_floor(num, area))
    }

    /// Interpolates an attribute perspective-correctly, from the reciprocal
    /// depths `iw0`, `iw1`, `iw2` of the three vertices.
    pub fn interpolate(&self, iw0: i32, iw1: i32, iw2: i32, v0: i32, v1: i32, v2: i32) -> (r: i32)
        requires
            self.wf(),
        ensures
            r == perspective_spec(
                self@,
                (iw0 as int, iw1 as int, iw2 as int),
                (v0 as int, v1 as int, v2 as int),
            ),
    {
        proof {
            lemma_mul_bounded(iw0 as int, self.a0 as int, 0x8000_0000, self.a0 as int);
            lemma_mul_bounded(iw1 as int, self.a1 as int, 0x8000_0000, self.a1 as int);
            lemma_mul_bounded(iw2 as int, self.a2 as int, 0x8000_0000, self.a2 as int);
        }
        let q0: i128 = (iw0 as i128) * self.a0;
        let q1: i128 = (iw1 as i128) * self.a1;
        let q2: i128 = (iw2 as i128) * self.a2;
        proof {
            lemma_mul_bounded(v0 as int, q0 as int, 0x8000_0000, 0x8000_0000 * self.a0);
            lemma_mul_bounded(v1 as int, q1 as int, 0x8000_0000, 0x8000_0000 * self.a1);
            lemma_mul_bounded(v2 as int, q2 as int, 0x8000_0000, 0x8000_0000 * self.a2);
        }
        let den: i128 = q0 + q1 + q2;
        let num: i128 = (v0 as i128) * q0 + (v1 as i128) * q1 + (v2 as i128) * q2;
        if den == 0 {
            0
        } else {
            saturate(div_floor(num, den))
        }
    }
}

/// A triangle without area, or of the other winding, covers no point.
pub proof fn lemma_degenerate_covers_nothing(
    v0: (int, int),
    v1: (int, int),
    v2: (int, int),
    p: (int, int),
)
    requires
        edge_spec(v0, v1, v2) <= 0,
    ensures
        !inside_spec(v0, v1, v2, p),
{
    lemma_edges_sum_to_area(v0, v1, v2, p);
}

/// For a point strictly inside a triangle, each barycentric weight
/// `a_i / area` lies strictly between zero and one, and the three sum to one:
/// each edge value lies strictly between zero and the doubled area, which is
/// positive and equal to their sum.
pub proof fn lemma_barycentric_weights(
    v0: (int, int),
    v1: (int, int),
    v2: (int, int),
    p: (int, int),
)
    requires
        inside_spec(v0, v1, v2, p),
    ensures
        ({
            let (a0, a1, a2) = Barycentric::of(v0, v1, v2, p);
            let area = edge_spec(v0, v1, v2);
            &&& area > 0
            &&& 0 < a0 < area
            &&& 0 < a1 < area
            &&& 0 < a2 < area
            &&& a0 + a1 + a2 == area
        }),
{
    lemma_edges_sum_to_area(v0, v1, v2, p);
}

} // verus!
