use softraster::fixed::{HALF, ONE};
use softraster::raster::{edge_function, inside_triangle, Barycentric, AREA_LIMIT};
use softraster::vector::Vec2;

fn px(x: i32, y: i32) -> Vec2 {
    Vec2::new(x * ONE, y * ONE)
}

fn center(x: i32, y: i32) -> Vec2 {
    Vec2::new(x * ONE + HALF, y * ONE + HALF)
}

#[test]
fn edge_function_is_twice_the_signed_area() {
    let unit: i128 = (ONE as i128) * (ONE as i128);
    // the triangle (0,0), (4,0), (0,4) has area 8
    assert_eq!(edge_function(&px(0, 0), &px(4, 0), &px(0, 4)), 16 * unit);
    assert_eq!(edge_function(&px(0, 0), &px(0, 4), &px(4, 0)), -16 * unit);
    // a point on the line
    assert_eq!(edge_function(&px(0, 0), &px(4, 4), &px(2, 2)), 0);
    // (b.x - a.x) * (p.y - a.y) - (b.y - a.y) * (p.x - a.x)
    assert_eq!(edge_function(&px(1, 2), &px(4, 6), &px(3, -1)), (3 * -3 - 4 * 2) * unit);
}

#[test]
fn edge_function_is_exact_in_raw_units() {
    let a = Vec2::new(1, 2);
    let b = Vec2::new(4, 6);
    let p = Vec2::new(3, -1);
    assert_eq!(edge_function(&a, &b, &p), -17);
}

#[test]
fn edge_function_does_not_overflow() {
    let a = Vec2::new(i32::MIN, i32::MIN);
    let b = Vec2::new(i32::MAX, i32::MIN);
    let p = Vec2::new(i32::MIN, i32::MAX);
    let d: i128 = (i32::MAX as i128) - (i32::MIN as i128);
    assert_eq!(edge_function(&a, &b, &p), d * d);
}

#[test]
fn edge_function_is_antisymmetric() {
    let points = [px(0, 0), px(4, 1), px(-3, 7), Vec2::new(12345, -54321), center(2, 5)];
    for a in points.iter() {
        for b in points.iter() {
            for p in points.iter() {
                assert_eq!(edge_function(b, a, p), -edge_function(a, b, p));
            }
        }
    }
}

#[test]
fn edge_function_is_invariant_under_a_quarter_turn() {
    // a quarter turn takes (x, y) to (-y, x)
    let turn = |v: &Vec2| Vec2::new(-v.y, v.x);
    let a = px(1, 2);
    let b = px(4, 6);
    let p = Vec2::new(3 * ONE + 17, -ONE + 5);
    assert_eq!(edge_function(&turn(&a), &turn(&b), &turn(&p)), edge_function(&a, &b, &p));
}

#[test]
fn inside_triangle_is_strict() {
    let a = px(0, 0);
    let b = px(4, 0);
    let c = px(0, 4);
    assert!(inside_triangle(&a, &b, &c, &center(1, 1)));
    assert!(inside_triangle(&a, &b, &c, &center(0, 0)));
    assert!(!inside_triangle(&a, &b, &c, &center(3, 3)));
    // on an edge, and on a vertex
    assert!(!inside_triangle(&a, &b, &c, &px(2, 0)));
    assert!(!inside_triangle(&a, &b, &c, &px(2, 2)));
    assert!(!inside_triangle(&a, &b, &c, &px(0, 0)));
    // the other winding covers nothing
    assert!(!inside_triangle(&a, &c, &b, &center(1, 1)));
}

#[test]
fn inside_triangle_rejects_a_degenerate_triangle() {
    let a = px(0, 0);
    let b = px(2, 2);
    let c = px(4, 4);
    for x in 0..5 {
        for y in 0..5 {
            assert!(!inside_triangle(&a, &b, &c, &center(x, y)));
            assert!(!inside_triangle(&a, &b, &c, &px(x, y)));
        }
    }
}

#[test]
fn barycentric_weights_lie_between_zero_and_one_and_sum_to_one() {
    let v0 = px(0, 0);
    let v1 = px(4, 0);
    let v2 = px(0, 4);
    let area = edge_function(&v0, &v1, &v2);
    assert!(area > 0);
    for x in 0..4 {
        for y in 0..4 {
            let p = center(x, y);
            let b = Barycentric::new(&v0, &v1, &v2, &p);
            assert_eq!(b.a0 + b.a1 + b.a2, area);
            assert_eq!(b.is_covered(), inside_triangle(&v0, &v1, &v2, &p));
            if b.is_covered() {
                assert!(0 < b.a0 && b.a0 < area);
                assert!(0 < b.a1 && b.a1 < area);
                assert!(0 < b.a2 && b.a2 < area);
            }
        }
    }
}

#[test]
fn barycentric_edge_values() {
    let unit: i128 = (ONE as i128) * (ONE as i128);
    let b = Barycentric::new(&px(0, 0), &px(4, 0), &px(0, 4), &center(1, 1));
    // weights 1/4, 3/8, 3/8
    assert_eq!((b.a0, b.a1, b.a2), (4 * unit, 6 * unit, 6 * unit));
}

#[test]
fn interpolate_linear_weighs_the_vertex_values() {
    let b = Barycentric::new(&px(0, 0), &px(4, 0), &px(0, 4), &center(1, 1));
    // 1/4 * 8 + 3/8 * 16 + 3/8 * 0 == 8
    assert_eq!(b.interpolate_linear(8 * ONE, 16 * ONE, 0), 8 * ONE);
    assert_eq!(b.interpolate_linear(ONE, ONE, ONE), ONE);
    assert_eq!(b.interpolate_linear(-ONE, -ONE, -ONE), -ONE);
    // rounds down: (1 * 4 + 0 + 0) / 16
    assert_eq!(b.interpolate_linear(1, 0, 0), 0);
    assert_eq!(b.interpolate_linear(-1, 0, 0), -1);
    assert_eq!(b.interpolate_linear(i32::MAX, i32::MAX, i32::MAX), i32::MAX);
    assert_eq!(b.interpolate_linear(i32::MIN, i32::MIN, i32::MIN), i32::MIN);
}

#[test]
fn interpolate_is_perspective_correct() {
    let b = Barycentric::new(&px(0, 0), &px(4, 0), &px(0, 4), &center(1, 1));
    // weights 1/4, 3/8, 3/8 with reciprocal depths 1, 1/2, 1/4:
    // (8 * 1/4 + 16 * 3/16 + 0) / (1/4 + 3/16 + 3/32) == 5 / (17/32) == 160/17
    let r = b.interpolate(ONE, HALF, ONE / 4, 8 * ONE, 16 * ONE, 0);
    assert_eq!(r as i64, (160 * ONE as i64).div_euclid(17));
}

#[test]
fn interpolate_with_equal_reciprocal_depths_is_linear() {
    let v0 = Vec2::new(3 * ONE + 1234, ONE + 77);
    let v1 = Vec2::new(11 * ONE - 99, 2 * ONE);
    let v2 = Vec2::new(5 * ONE, 9 * ONE + 4321);
    let values = [(8 * ONE, 16 * ONE, 0), (-12345, 777, 99999), (1, 2, 3), (i32::MAX, 0, i32::MIN)];
    let mut covered = 0;
    for x in 0..12 {
        for y in 0..12 {
            let b = Barycentric::new(&v0, &v1, &v2, &center(x, y));
            if !b.is_covered() {
                continue;
            }
            covered += 1;
            for (a0, a1, a2) in values {
                let linear = b.interpolate_linear(a0, a1, a2);
                for w in [ONE, 1, HALF, 3 * ONE, -ONE, i32::MAX] {
                    assert_eq!(b.interpolate(w, w, w, a0, a1, a2), linear);
                }
            }
        }
    }
    assert!(covered > 10);
}

#[test]
fn interpolate_with_a_vanishing_denominator_is_zero() {
    let b = Barycentric::new(&px(0, 0), &px(4, 0), &px(0, 4), &center(1, 1));
    assert_eq!(b.interpolate(0, 0, 0, ONE, ONE, ONE), 0);
    // 1/4 * 3 + 3/8 * -2 + 0 == 0
    assert_eq!(b.interpolate(3 * ONE, -2 * ONE, 0, ONE, ONE, ONE), 0);
}

#[test]
fn interpolate_saturates() {
    let b = Barycentric::new(&px(0, 0), &px(4, 0), &px(0, 4), &center(1, 1));
    // denominator 1/4 * 1 - 3/8 * (2/3 - 1/65536) > 0 but tiny
    let r = b.interpolate(3 * ONE, -2 * ONE + 1, 0, i32::MAX, 0, 0);
    assert_eq!(r, i32::MAX);
}

#[test]
fn check_tells_when_a_sample_can_be_interpolated() {
    let v0 = px(0, 0);
    let v1 = px(4, 0);
    let v2 = px(0, 4);
    assert!(Barycentric::new(&v0, &v1, &v2, &center(1, 1)).check());
    // not covered
    assert!(!Barycentric::new(&v0, &v1, &v2, &center(3, 3)).check());
    assert!(!Barycentric::new(&v0, &v1, &v2, &px(2, 0)).check());
    // the largest triangle of representable vertices
    let huge = Barycentric::new(
        &Vec2::new(i32::MIN, i32::MIN),
        &Vec2::new(i32::MAX, i32::MIN),
        &Vec2::new(i32::MIN, i32::MAX),
        &center(-1, -1),
    );
    assert!(huge.is_covered());
    assert_eq!(huge.a0 + huge.a1 + huge.a2, ((1i128 << 32) - 1) * ((1i128 << 32) - 1));
    assert!(huge.check());
    assert_eq!(huge.interpolate_linear(i32::MIN, i32::MIN, i32::MIN), i32::MIN);
    assert_eq!(huge.interpolate(i32::MIN, i32::MIN, i32::MIN, i32::MAX, i32::MAX, i32::MAX), i32::MAX);
    // edge values that no triangle of representable vertices has
    assert!(!Barycentric { a0: 1 << 100, a1: 1, a2: 1 }.check());
    assert!(!Barycentric { a0: AREA_LIMIT, a1: 1, a2: 1 }.check());
    assert!(Barycentric { a0: AREA_LIMIT - 2, a1: 1, a2: 1 }.check());
}

#[test]
fn interpolate_linear_stays_within_the_vertex_values() {
    let v0 = Vec2::new(3 * ONE + 1234, ONE + 77);
    let v1 = Vec2::new(11 * ONE - 99, 2 * ONE);
    let v2 = Vec2::new(5 * ONE, 9 * ONE + 4321);
    for x in 0..12 {
        for y in 0..12 {
            let b = Barycentric::new(&v0, &v1, &v2, &center(x, y));
            if b.is_covered() {
                let z = b.interpolate_linear(100, 65536, 30000);
                assert!(100 <= z && z <= 65536);
            }
        }
    }
}
