//! The shader stage: the color of a pixel that passed the depth test.

use vstd::prelude::*;
use crate::color::{from_vec3_rgb, packed_vec3_spec};
use crate::fixed::div_floor;
use crate::model::Material;
use crate::raster::{perspective_spec, Barycentric, ScreenVertex};
use crate::vector::{dot3_spec, mul4_spec, normalize3_spec, scale3_spec, Vec2, Vec3, Vec4};

verus! {

/// How a covered pixel gets its color.
#[derive(Clone, Copy, Debug)]
pub enum Shader {
    /// One packed color for every pixel.
    Flat(u32),
    /// The interpolated normal shown as a color.
    Normals,
    /// The base color of the material, times its texture where it has one,
    /// lit by one directional light.
    Lit,
}

/// The direction towards the light, of length one: the light shines along
/// `(0.3, -0.8, -0.4)`.
pub open spec fn to_light_spec() -> (int, int, int) {
    normalize3_spec((-19661, 52429, 26214))
}

/// The three reciprocal depths of a triangle.
pub open spec fn inv_w_spec(v0: ScreenVertex, v1: ScreenVertex, v2: ScreenVertex) -> (
    int,
    int,
    int,
) {
    (v0.inv_w as int, v1.inv_w as int, v2.inv_w as int)
}

/// The normal at a sample point: the normals of the vertices interpolated
/// perspective-correctly and then scaled to length one.
pub open spec fn fragment_normal_spec(
    a: (int, int, int),
    v0: ScreenVertex,
    v1: ScreenVertex,
    v2: ScreenVertex,
) -> (int, int, int) {
    let iw = inv_w_spec(v0, v1, v2);
    normalize3_spec(
        (
            perspective_spec(a, iw, (v0.normal.x as int, v1.normal.x as int, v2.normal.x as int)),
            perspective_spec(a, iw, (v0.normal.y as int, v1.normal.y as int, v2.normal.y as int)),
            perspective_spec(a, iw, (v0.normal.z as int, v1.normal.z as int, v2.normal.z as int)),
        ),
    )
}

/// The texture coordinate at a sample point, interpolated
/// perspective-correctly.
pub open spec fn fragment_tex_coord_spec(
    a: (int, int, int),
    v0: ScreenVertex,
    v1: ScreenVertex,
    v2: ScreenVertex,
) -> (int, int) {
    let iw = inv_w_spec(v0, v1, v2);
    (
        perspective_spec(
            a,
            iw,
            (v0.tex_coord.x as int, v1.tex_coord.x as int, v2.tex_coord.x as int),
        ),
        perspective_spec(
            a,
            iw,
            (v0.tex_coord.y as int, v1.tex_coord.y as int, v2.tex_coord.y as int),
        ),
    )
}

/// The color that shows a normal of length one: each component halved and
/// moved up by one half.
pub open spec fn normal_color_spec(n: (int, int, int)) -> (int, int, int) {
    (n.0 / 2 + 32768, n.1 / 2 + 32768, n.2 / 2 + 32768)
}

/// The base color of a material at a texture coordinate: its base color,
/// times the sample of its texture where it has one.
pub open spec fn base_color_spec(material: Material, uv: (int, int)) -> (int, int, int, int) {
    match material.base_color_texture {
        Some(texture) => mul4_spec(material.base_color@, texture@.sample_pixel(uv.0, uv.1)),
        None => material.base_color@,
    }
}

/// The lit color of a surface of the given base color and normal: the base
/// color times the cosine between the normal and the direction towards the
/// light.  The cosine is not limited to zero from below.
pub open spec fn lit_color_spec(base: (int, int, int, int), normal: (int, int, int)) -> (
    int,
    int,
    int,
) {
    scale3_spec((base.0, base.1, base.2), dot3_spec(normal, to_light_spec()))
}

/// The packed color of the sample point with edge values `a` in the
/// triangle `(v0, v1, v2)`.
pub open spec fn shade_spec(
    shader: Shader,
    material: Material,
    a: (int, int, int),
    v0: ScreenVertex,
    v1: ScreenVertex,
    v2: ScreenVertex,
) -> u32 {
    match shader {
        Shader::Flat(color) => color,
        Shader::Normals => packed_vec3_spec(
            normal_color_spec(fragment_normal_spec(a, v0, v1, v2)),
        ),
        Shader::Lit => packed_vec3_spec(
            lit_color_spec(
                base_color_spec(material, fragment_tex_coord_spec(a, v0, v1, v2)),
                fragment_normal_spec(a, v0, v1, v2),
            ),
        ),
    }
}

/// The direction towards the light.
pub fn to_light() -> (d: Vec3)
    ensures
        d@ == to_light_spec(),
{
    Vec3 { x: -19661, y: 52429, z: 26214 }.normalize()
}

/// The normal at a sample point.
pub fn fragment_normal(
    bary: &Barycentric,
    v0: &ScreenVertex,
    v1: &ScreenVertex,
    v2: &ScreenVertex,
) -> (n: Vec3)
    requires
        bary.wf(),
    ensures
        n@ == fragment_normal_spec(bary@, *v0, *v1, *v2),
{
    Vec3 {
        x: bary.interpolate(v0.inv_w, v1.inv_w, v2.inv_w, v0.normal.x, v1.normal.x, v2.normal.x),
        y: bary.interpolate(v0.inv_w, v1.inv_w, v2.inv_w, v0.normal.y, v1.normal.y, v2.normal.y),
        z: bary.interpolate(v0.inv_w, v1.inv_w, v2.inv_w, v0.normal.z, v1.normal.z, v2.normal.z),
    }.normalize()
}

/// The texture coordinate at a sample point.
pub fn fragment_tex_coord(
    bary: &Barycentric,
    v0: &ScreenVertex,
    v1: &ScreenVertex,
    v2: &ScreenVertex,
) -> (uv: Vec2)
    requires
        bary.wf(),
    ensures
        uv@ == fragment_tex_coord_spec(bary@, *v0, *v1, *v2),
{
    Vec2 {
        x: bary.interpolate(
            v0.inv_w,
            v1.inv_w,
            v2.inv_w,
            v0.tex_coord.x,
            v1.tex_coord.x,
            v2.tex_coord.x,
        ),
        y: bary.interpolate(
            v0.inv_w,
            v1.inv_w,
            v2.inv_w,
            v0.tex_coord.y,
            v1.tex_coord.y,
            v2.tex_coord.y,
        ),
    }
}

/// One component of the color that shows a normal.
fn normal_channel(n: i32) -> (c: i32)
    ensures
        c == n / 2 + 32768,
{
    (div_floor(n as i128, 2) + 32768) as i32
}

/// The packed color of a sample point that passed the depth test.
pub fn shade(
    shader: &Shader,
    material: &Material,
    bary: &Barycentric,
    v0: &ScreenVertex,
    v1: &ScreenVertex,
    v2: &ScreenVertex,
) -> (color: u32)
    requires
        bary.wf(),
        material.wf(),
    ensures
        color == shade_spec(*shader, *material, bary@, *v0, *v1, *v2),
{
    match shader {
        Shader::Flat(color) => *color,
        Shader::Normals => {
            let n: Vec3 = fragment_normal(bary, v0, v1, v2);
            from_vec3_rgb(
                &Vec3 { x: normal_channel(n.x), y: normal_channel(n.y), z: normal_channel(n.z) },
            )
        },
        Shader::Lit => {
            let normal: Vec3 = fragment_normal(bary, v0, v1, v2);
            let tex_coord: Vec2 = fragment_tex_coord(bary, v0, v1, v2);
            let base_color: Vec4 = match &material.base_color_texture {
                Some(texture) => material.base_color.mul(
                    &texture.sample_pixel(tex_coord.x, tex_coord.y),
                ),
                None => material.base_color,
            };
            let light_intensity: i32 = normal.dot(&to_light());
            let final_color: Vec3 = Vec3 {
                x: base_color.x,
                y: base_color.y,
                z: base_color.z,
            }.scale(light_intensity);
            from_vec3_rgb(&final_color)
        },
    }
}

} // verus!
