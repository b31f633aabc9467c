//! The render pass: the vertex stage, the scan of a triangle over the pixels
//! that it covers, and the walk over the triangles of a model.

use vstd::prelude::*;
use vstd::arithmetic::div_mod::{lemma_fundamental_div_mod, lemma_multiply_divide_lt};
use crate::fixed::{div_floor, lemma_div_between, HALF, ONE};
use crate::framebuffer::{
    depth_test_spec, depth_to_stored, lemma_depth_round_trip, stored_to_depth, Framebuffer,
};
use crate::model::{Material, Mesh, Model, Vertex};
use crate::projector::{clip_to_screen_space, clip_to_screen_spec, project, project_spec};
use crate::raster::{
    inside_spec, lemma_linear_within_extent, linear_spec, max3_spec, min3_spec,
    pixel_center_spec, Barycentric, ScreenVertex,
};
use crate::shader::{shade, shade_spec, Shader};
use crate::vector::{mul_vec4_spec, Mat4, Mat4View, Vec2, Vec3, Vec4};

verus! {

/// What a render pass works on: the cells of the color buffer and of the
/// depth buffer, row by row.
pub struct Frame {
    pub color: Seq<u32>,
    pub depth: Seq<u32>,
}

/// The vertex `v` after the vertex stage: projected by `mvp` and mapped to
/// the screen, with its normal transformed by `normal_matrix`.
pub open spec fn screen_vertex_spec(
    v: Vertex,
    mvp: Mat4View,
    normal_matrix: Mat4View,
    width: int,
    height: int,
) -> ScreenVertex {
    let (ndc, inv_w) = project_spec(v.position@, mvp);
    let position = clip_to_screen_spec((ndc.0, ndc.1), width, height);
    let normal = mul_vec4_spec(
        normal_matrix,
        (v.normal.x as int, v.normal.y as int, v.normal.z as int, 65536),
    );
    ScreenVertex {
        position: Vec2 { x: position.0 as i32, y: position.1 as i32 },
        depth: ndc.2 as i32,
        inv_w: inv_w as i32,
        normal: Vec3 { x: normal.0 as i32, y: normal.1 as i32, z: normal.2 as i32 },
        tex_coord: v.tex_coord,
    }
}

/// Whether the triangle `(v0, v1, v2)` covers the pixel `(x, y)`: the
/// center of the pixel lies strictly inside it.
pub open spec fn covers(v0: ScreenVertex, v1: ScreenVertex, v2: ScreenVertex, x: int, y: int) -> bool {
    inside_spec(v0.position@, v1.position@, v2.position@, pixel_center_spec(x, y))
}

/// The edge values of the center of the pixel `(x, y)` in the triangle
/// `(v0, v1, v2)`.
pub open spec fn pixel_weights(
    v0: ScreenVertex,
    v1: ScreenVertex,
    v2: ScreenVertex,
    x: int,
    y: int,
) -> (int, int, int) {
    Barycentric::of(v0.position@, v1.position@, v2.position@, pixel_center_spec(x, y))
}

/// The depth of the triangle `(v0, v1, v2)` at the center of the pixel
/// `(x, y)`, interpolated with the plain barycentric weights.
pub open spec fn fragment_depth_spec(
    v0: ScreenVertex,
    v1: ScreenVertex,
    v2: ScreenVertex,
    x: int,
    y: int,
) -> int {
    linear_spec(
        pixel_weights(v0, v1, v2, x, y),
        (v0.depth as int, v1.depth as int, v2.depth as int),
    )
}

/// What a fragment of the given color and depth makes of a cell that holds
/// `color` and `depth`: where it passes the depth test the cell gets its
/// color and its depth, otherwise the cell stays as it is.
pub open spec fn resolve_spec(color: u32, depth: u32, fragment_color: u32, z: int) -> (u32, u32) {
    let (pass, stored) = depth_test_spec(depth as int, z);
    if pass {
        (fragment_color, stored as u32)
    } else {
        (color, depth)
    }
}

/// What the triangle `(v0, v1, v2)` makes of the cell of pixel `(x, y)`
/// that holds `color` and `depth`.  Where the center of the pixel lies
/// strictly inside the triangle and the depth there passes the depth test,
/// the cell gets the shaded color and that depth.  Otherwise it stays as it
/// is.
pub open spec fn fragment_spec(
    color: u32,
    depth: u32,
    shader: Shader,
    material: Material,
    v0: ScreenVertex,
    v1: ScreenVertex,
    v2: ScreenVertex,
    x: int,
    y: int,
) -> (u32, u32) {
    if covers(v0, v1, v2, x, y) {
        resolve_spec(
            color,
            depth,
            shade_spec(shader, material, pixel_weights(v0, v1, v2, x, y), v0, v1, v2),
            fragment_depth_spec(v0, v1, v2, x, y),
        )
    } else {
        (color, depth)
    }
}

/// Of two fragments at one pixel whose depths differ and lie within
/// `[0, 1]`, the nearer one wins whatever the order: the cell is the same
/// after both, and where the nearer one lies in front of what the cell held,
/// the cell holds its color and its depth.
pub proof fn lemma_nearer_fragment_wins(
    color: u32,
    depth: u32,
    near_color: u32,
    near: int,
    far_color: u32,
    far: int,
)
    requires
        0 <= near < far <= 65536,
    ensures
        ({
            let near_first = resolve_spec(color, depth, near_color, near);
            let far_first = resolve_spec(color, depth, far_color, far);
            let a = resolve_spec(near_first.0, near_first.1, far_color, far);
            let b = resolve_spec(far_first.0, far_first.1, near_color, near);
            &&& a == b
            &&& near < stored_to_depth(depth as int) ==> a == (
                near_color,
                depth_to_stored(near) as u32,
            )
            &&& near >= stored_to_depth(depth as int) ==> a == (color, depth)
        }),
{
    lemma_depth_round_trip(near);
    lemma_depth_round_trip(far);
}

/// The vertices of a triangle have their depths within `[0, 1]`.
pub open spec fn depths_in_range(v0: ScreenVertex, v1: ScreenVertex, v2: ScreenVertex) -> bool {
    0 <= v0.depth <= 65536 && 0 <= v1.depth <= 65536 && 0 <= v2.depth <= 65536
}

/// Two triangles whose vertices have their depths within `[0, 1]` and that
/// are drawn one after the other leave a cell the same in either order,
/// unless both cover its pixel at the same depth: where both cover it, the
/// nearer one wins.
pub proof fn lemma_draw_order(
    color: u32,
    depth: u32,
    shader_a: Shader,
    material_a: Material,
    a0: ScreenVertex,
    a1: ScreenVertex,
    a2: ScreenVertex,
    shader_b: Shader,
    material_b: Material,
    b0: ScreenVertex,
    b1: ScreenVertex,
    b2: ScreenVertex,
    x: int,
    y: int,
)
    requires
        depths_in_range(a0, a1, a2),
        depths_in_range(b0, b1, b2),
        covers(a0, a1, a2, x, y) && covers(b0, b1, b2, x, y) ==> fragment_depth_spec(
            a0,
            a1,
            a2,
            x,
            y,
        ) != fragment_depth_spec(b0, b1, b2, x, y),
    ensures
        ({
            let a_first = fragment_spec(color, depth, shader_a, material_a, a0, a1, a2, x, y);
            let b_first = fragment_spec(color, depth, shader_b, material_b, b0, b1, b2, x, y);
            let a_then_b = fragment_spec(
                a_first.0,
                a_first.1,
                shader_b,
                material_b,
                b0,
                b1,
                b2,
                x,
                y,
            );
            let b_then_a = fragment_spec(
                b_first.0,
                b_first.1,
                shader_a,
                material_a,
                a0,
                a1,
                a2,
                x,
                y,
            );
            let za = fragment_depth_spec(a0, a1, a2, x, y);
            let zb = fragment_depth_spec(b0, b1, b2, x, y);
            &&& a_then_b == b_then_a
            &&& covers(a0, a1, a2, x, y) && covers(b0, b1, b2, x, y) && za < zb
                && za < stored_to_depth(depth as int) ==> a_then_b == (
                shade_spec(shader_a, material_a, pixel_weights(a0, a1, a2, x, y), a0, a1, a2),
                depth_to_stored(za) as u32,
            )
        }),
{
    if covers(a0, a1, a2, x, y) && covers(b0, b1, b2, x, y) {
        let za = fragment_depth_spec(a0, a1, a2, x, y);
        let zb = fragment_depth_spec(b0, b1, b2, x, y);
        let ca = shade_spec(shader_a, material_a, pixel_weights(a0, a1, a2, x, y), a0, a1, a2);
        let cb = shade_spec(shader_b, material_b, pixel_weights(b0, b1, b2, x, y), b0, b1, b2);
        lemma_linear_within_extent(
            pixel_weights(a0, a1, a2, x, y),
            (a0.depth as int, a1.depth as int, a2.depth as int),
        );
        lemma_linear_within_extent(
            pixel_weights(b0, b1, b2, x, y),
            (b0.depth as int, b1.depth as int, b2.depth as int),
        );
        if za < zb {
            lemma_nearer_fragment_wins(color, depth, ca, za, cb, zb);
        } else {
            lemma_nearer_fragment_wins(color, depth, cb, zb, ca, za);
        }
    }
}

/// The frame after the triangle `(v0, v1, v2)` has been rasterized into a
/// frame of rows of `width` pixels: every cell is what [`fragment_spec`]
/// makes of it.
pub open spec fn raster_spec(
    frame: Frame,
    width: int,
    shader: Shader,
    material: Material,
    v0: ScreenVertex,
    v1: ScreenVertex,
    v2: ScreenVertex,
) -> Frame {
    Frame {
        color: Seq::new(
            frame.color.len(),
            |i: int|
                fragment_spec(
                    frame.color[i],
                    frame.depth[i],
                    shader,
                    material,
                    v0,
                    v1,
                    v2,
                    i % width,
                    i / width,
                ).0,
        ),
        depth: Seq::new(
            frame.depth.len(),
            |i: int|
                fragment_spec(
                    frame.color[i],
                    frame.depth[i],
                    shader,
                    material,
                    v0,
                    v1,
                    v2,
                    i % width,
                    i / width,
                ).1,
        ),
    }
}

/// The frame after the triangle of the model-space vertices `(v0, v1, v2)`
/// has been drawn: the three are taken through the vertex stage and the
/// triangle is rasterized.
pub open spec fn draw_triangle_spec(
    frame: Frame,
    width: int,
    height: int,
    shader: Shader,
    material: Material,
    v0: Vertex,
    v1: Vertex,
    v2: Vertex,
    mvp: Mat4View,
    normal_matrix: Mat4View,
) -> Frame {
    raster_spec(
        frame,
        width,
        shader,
        material,
        screen_vertex_spec(v0, mvp, normal_matrix, width, height),
        screen_vertex_spec(v1, mvp, normal_matrix, width, height),
        screen_vertex_spec(v2, mvp, normal_matrix, width, height),
    )
}

/// The frame after the first `n` triangles of `mesh` have been drawn, in
/// order, with the given material.
pub open spec fn draw_mesh_spec(
    frame: Frame,
    width: int,
    height: int,
    shader: Shader,
    material: Material,
    mesh: Mesh,
    mvp: Mat4View,
    normal_matrix: Mat4View,
    n: nat,
) -> Frame
    decreases n,
{
    if n == 0 {
        frame
    } else {
        draw_triangle_spec(
            draw_mesh_spec(
                frame,
                width,
                height,
                shader,
                material,
                mesh,
                mvp,
                normal_matrix,
                (n - 1) as nat,
            ),
            width,
            height,
            shader,
            material,
            mesh.corner(n - 1, 0),
            mesh.corner(n - 1, 1),
            mesh.corner(n - 1, 2),
            mvp,
            normal_matrix,
        )
    }
}

/// The frame after the first `k` meshes of `model` have been drawn, in
/// order, each with all of its triangles and with the material that it
/// names.
pub open spec fn draw_model_spec(
    frame: Frame,
    width: int,
    height: int,
    shader: Shader,
    model: Model,
    mvp: Mat4View,
    normal_matrix: Mat4View,
    k: nat,
) -> Frame
    decreases k,
{
    if k == 0 {
        frame
    } else {
        let mesh = model.meshes@[k - 1];
        draw_mesh_spec(
            draw_model_spec(
                frame,
                width,
                height,
                shader,
                model,
                mvp,
                normal_matrix,
                (k - 1) as nat,
            ),
            width,
            height,
            shader,
            model.materials@[mesh.material_idx as int],
            mesh,
            mvp,
            normal_matrix,
            mesh.triangle_count(),
        )
    }
}

/// The first pixel of the scan along an axis on which the three vertices
/// have the raw coordinates `a`, `b`, `c`.
pub open spec fn scan_start_spec(a: int, b: int, c: int) -> int {
    let low = min3_spec(a, b, c);
    if low < 0 {
        0
    } else {
        low / 65536
    }
}

/// The pixel behind the last of the scan along an axis of `size` pixels.
pub open spec fn scan_end_spec(a: int, b: int, c: int, size: int) -> int {
    let high = max3_spec(a, b, c) / 65536 + 1;
    if high < 0 {
        0
    } else if high > size {
        size
    } else {
        high
    }
}

/// Whether the scan has been at pixel `(px, py)` when it stands at
/// `(x, y)`: the scan goes column by column and down each column.
pub open spec fn scanned(
    px: int,
    py: int,
    x0: int,
    x1: int,
    y0: int,
    y1: int,
    x: int,
    y: int,
) -> bool {
    x0 <= px < x1 && y0 <= py < y1 && (px < x || (px == x && py < y))
}

/// The edge values of a point, each times the offset of its vertex from the
/// point along one axis, sum to zero: the point is the mean of the vertices
/// weighted by its edge values.
pub proof fn lemma_barycentric_moment(
    v0: (int, int),
    v1: (int, int),
    v2: (int, int),
    p: (int, int),
)
    ensures
        ({
            let (a0, a1, a2) = Barycentric::of(v0, v1, v2, p);
            &&& a0 * (v0.0 - p.0) + a1 * (v1.0 - p.0) + a2 * (v2.0 - p.0) == 0
            &&& a0 * (v0.1 - p.1) + a1 * (v1.1 - p.1) + a2 * (v2.1 - p.1) == 0
        }),
{
    let (a0, a1, a2) = Barycentric::of(v0, v1, v2, p);
    let u0 = v0.0 - p.0;
    let u1 = v1.0 - p.0;
    let u2 = v2.0 - p.0;
    let w0 = v0.1 - p.1;
    let w1 = v1.1 - p.1;
    let w2 = v2.1 - p.1;
    assert(a0 == u1 * w2 - u2 * w1) by (nonlinear_arith)
        requires
            a0 == (u2 - u1) * (-w1) - (w2 - w1) * (-u1),
    ;
    assert(a1 == u2 * w0 - u0 * w2) by (nonlinear_arith)
        requires
            a1 == (u0 - u2) * (-w2) - (w0 - w2) * (-u2),
    ;
    assert(a2 == u0 * w1 - u1 * w0) by (nonlinear_arith)
        requires
            a2 == (u1 - u0) * (-w0) - (w1 - w0) * (-u0),
    ;
    assert(a0 * u0 == (u1 * w2) * u0 - (u2 * w1) * u0) by (nonlinear_arith)
        requires
            a0 == u1 * w2 - u2 * w1,
    ;
    assert(a1 * u1 == (u2 * w0) * u1 - (u0 * w2) * u1) by (nonlinear_arith)
        requires
            a1 == u2 * w0 - u0 * w2,
    ;
    assert(a2 * u2 == (u0 * w1) * u2 - (u1 * w0) * u2) by (nonlinear_arith)
        requires
            a2 == u0 * w1 - u1 * w0,
    ;
    assert((u1 * w2) * u0 == (u0 * w2) * u1) by (nonlinear_arith);
    assert((u2 * w1) * u0 == (u0 * w1) * u2) by (nonlinear_arith);
    assert((u2 * w0) * u1 == (u1 * w0) * u2) by (nonlinear_arith);
    assert(a0 * w0 == (u1 * w2) * w0 - (u2 * w1) * w0) by (nonlinear_arith)
        requires
            a0 == u1 * w2 - u2 * w1,
    ;
    assert(a1 * w1 == (u2 * w0) * w1 - (u0 * w2) * w1) by (nonlinear_arith)
        requires
            a1 == u2 * w0 - u0 * w2,
    ;
    assert(a2 * w2 == (u0 * w1) * w2 - (u1 * w0) * w2) by (nonlinear_arith)
        requires
            a2 == u0 * w1 - u1 * w0,
    ;
    assert((u1 * w2) * w0 == (u1 * w0) * w2) by (nonlinear_arith);
    assert((u2 * w1) * w0 == (u2 * w0) * w1) by (nonlinear_arith);
    assert((u0 * w2) * w1 == (u0 * w1) * w2) by (nonlinear_arith);
}

/// Three positive weights cannot balance three offsets of one sign.
proof fn lemma_no_balance(a0: int, a1: int, a2: int, u0: int, u1: int, u2: int)
    requires
        a0 > 0,
        a1 > 0,
        a2 > 0,
        a0 * u0 + a1 * u1 + a2 * u2 == 0,
    ensures
        !(u0 > 0 && u1 > 0 && u2 > 0),
        !(u0 < 0 && u1 < 0 && u2 < 0),
{
    if u0 > 0 && u1 > 0 && u2 > 0 {
        assert(a0 * u0 > 0 && a1 * u1 > 0 && a2 * u2 > 0) by (nonlinear_arith)
            requires
                a0 > 0,
                a1 > 0,
                a2 > 0,
                u0 > 0,
                u1 > 0,
                u2 > 0,
        ;
    }
    if u0 < 0 && u1 < 0 && u2 < 0 {
        assert(a0 * u0 < 0 && a1 * u1 < 0 && a2 * u2 < 0) by (nonlinear_arith)
            requires
                a0 > 0,
                a1 > 0,
                a2 > 0,
                u0 < 0,
                u1 < 0,
                u2 < 0,
        ;
    }
}

/// A point strictly inside a triangle lies within the extent of its
/// vertices along both axes.
pub proof fn lemma_inside_within_extent(
    v0: (int, int),
    v1: (int, int),
    v2: (int, int),
    p: (int, int),
)
    requires
        inside_spec(v0, v1, v2, p),
    ensures
        min3_spec(v0.0, v1.0, v2.0) <= p.0 <= max3_spec(v0.0, v1.0, v2.0),
        min3_spec(v0.1, v1.1, v2.1) <= p.1 <= max3_spec(v0.1, v1.1, v2.1),
{
    let (a0, a1, a2) = Barycentric::of(v0, v1, v2, p);
    lemma_barycentric_moment(v0, v1, v2, p);
    lemma_no_balance(a0, a1, a2, v0.0 - p.0, v1.0 - p.0, v2.0 - p.0);
    lemma_no_balance(a0, a1, a2, v0.1 - p.1, v1.1 - p.1, v2.1 - p.1);
}

/// A pixel on the screen whose center lies strictly inside a triangle lies
/// within the scan.
pub proof fn lemma_covered_pixel_is_scanned(
    v0: (int, int),
    v1: (int, int),
    v2: (int, int),
    width: int,
    height: int,
    x: int,
    y: int,
)
    requires
        0 <= x < width,
        0 <= y < height,
        inside_spec(v0, v1, v2, pixel_center_spec(x, y)),
    ensures
        scan_start_spec(v0.0, v1.0, v2.0) <= x < scan_end_spec(v0.0, v1.0, v2.0, width),
        scan_start_spec(v0.1, v1.1, v2.1) <= y < scan_end_spec(v0.1, v1.1, v2.1, height),
{
    lemma_inside_within_extent(v0, v1, v2, pixel_center_spec(x, y));
}

/// The cell at position `i` belongs to the pixel in column `i % width` of
/// row `i / width`, which lies on the screen.
pub proof fn lemma_cell_to_pixel(width: int, height: int, i: int)
    requires
        0 <= i < width * height,
        0 <= width,
    ensures
        0 < width,
        0 <= i % width < width,
        0 <= i / width < height,
        i == i % width + (i / width) * width,
{
    assert(0 < width) by (nonlinear_arith)
        requires
            0 <= i < width * height,
            0 <= width,
    ;
    lemma_fundamental_div_mod(i, width);
    lemma_multiply_divide_lt(i, width, height);
    assert(0 <= i / width) by (nonlinear_arith)
        requires
            0 <= i,
            0 < width,
    ;
    assert(width * (i / width) == (i / width) * width) by (nonlinear_arith);
}

/// The pixel `(x, y)` has the cell at position `x + y * width`.
pub proof fn lemma_pixel_to_cell(width: int, x: int, y: int)
    requires
        0 <= x < width,
    ensures
        (x + y * width) % width == x,
        (x + y * width) / width == y,
{
    assert((y + 1) * width == y * width + width) by (nonlinear_arith);
    lemma_div_between(x + y * width, width, y);
    lemma_fundamental_div_mod(x + y * width, width);
    assert(width * y == y * width) by (nonlinear_arith);
}

/// Takes a vertex through the vertex stage.
pub fn screen_vertex(
    v: &Vertex,
    mvp: &Mat4,
    normal_matrix: &Mat4,
    width: usize,
    height: usize,
) -> (r: ScreenVertex)
    ensures
        r == screen_vertex_spec(*v, mvp@, normal_matrix@, width as int, height as int),
{
    let (ndc, inv_w) = project(&v.position, mvp);
    let position: Vec2 = clip_to_screen_space(&Vec2 { x: ndc.x, y: ndc.y }, width, height);
    let n: Vec4 = normal_matrix.mul_vec4(
        &Vec4 { x: v.normal.x, y: v.normal.y, z: v.normal.z, w: ONE },
    );
    ScreenVertex {
        position,
        depth: ndc.z,
        inv_w,
        normal: Vec3 { x: n.x, y: n.y, z: n.z },
        tex_coord: v.tex_coord,
    }
}

/// The scan of one triangle over a frame of rows of `width` pixels, through
/// the columns `x0..x1` and, in each of them, the rows `y0..y1`.
pub struct Scan {
    pub frame: Frame,
    pub width: int,
    pub shader: Shader,
    pub material: Material,
    pub v0: ScreenVertex,
    pub v1: ScreenVertex,
    pub v2: ScreenVertex,
    pub x0: int,
    pub x1: int,
    pub y0: int,
    pub y1: int,
}

impl Scan {
    /// What the scan that stands at `(x, y)` has made of the cell at
    /// position `i`: a cell whose pixel the scan has been at is what
    /// [`fragment_spec`] makes of it, any other cell is as it was.
    pub open spec fn cell(self, x: int, y: int, i: int) -> (u32, u32) {
        if scanned(i % self.width, i / self.width, self.x0, self.x1, self.y0, self.y1, x, y) {
            fragment_spec(
                self.frame.color[i],
                self.frame.depth[i],
                self.shader,
                self.material,
                self.v0,
                self.v1,
                self.v2,
                i % self.width,
                i / self.width,
            )
        } else {
            (self.frame.color[i], self.frame.depth[i])
        }
    }
}

/// The range of pixels that the scan visits along one axis.
fn scan_range(a: i32, b: i32, c: i32, size: usize) -> (r: (usize, usize))
    ensures
        r.0 == scan_start_spec(a as int, b as int, c as int),
        r.1 == scan_end_spec(a as int, b as int, c as int, size as int),
        r.1 <= 32768,
        r.1 <= size,
{
    let low: i32 = if a <= b && a <= c {
        a
    } else if b <= c {
        b
    } else {
        c
    };
    let high: i32 = if a >= b && a >= c {
        a
    } else if b >= c {
        b
    } else {
        c
    };
    let start: usize = if low < 0 {
        0
    } else {
        (low / 65536) as usize
    };
    let top: i128 = div_floor(high as i128, 65536) + 1;
    let end: usize = if top < 0 {
        0
    } else if top > size as i128 {
        size
    } else {
        top as usize
    };
    (start, end)
}

/// Tests one pixel against a triangle and, where its center is
/// covered and the depth test passes, stores its depth and its color.
fn rasterize_pixel(
    framebuffer: &mut Framebuffer,
    depth_buffer: &mut Framebuffer,
    shader: &Shader,
    material: &Material,
    v0: &ScreenVertex,
    v1: &ScreenVertex,
    v2: &ScreenVertex,
    x: usize,
    y: usize,
)
    requires
        old(framebuffer).wf(),
        old(depth_buffer).wf(),
        old(framebuffer).spec_width() == old(depth_buffer).spec_width(),
        old(framebuffer).spec_height() == old(depth_buffer).spec_height(),
        material.wf(),
        x < old(framebuffer).spec_width(),
        y < old(framebuffer).spec_height(),
        x < 32768,
        y < 32768,
    ensures
        final(framebuffer).wf(),
        final(depth_buffer).wf(),
        final(framebuffer).spec_width() == old(framebuffer).spec_width(),
        final(framebuffer).spec_height() == old(framebuffer).spec_height(),
        final(depth_buffer).spec_width() == old(depth_buffer).spec_width(),
        final(depth_buffer).spec_height() == old(depth_buffer).spec_height(),
        ({
            let i = old(framebuffer).index_of(x as int, y as int);
            let cell = fragment_spec(
                old(framebuffer)@[i],
                old(depth_buffer)@[i],
                *shader,
                *material,
                *v0,
                *v1,
                *v2,
                x as int,
                y as int,
            );
            &&& final(framebuffer)@ == old(framebuffer)@.update(i, cell.0)
            &&& final(depth_buffer)@ == old(depth_buffer)@.update(i, cell.1)
        }),
{
    let ghost i = framebuffer.index_of(x as int, y as int);
    proof {
        framebuffer.lemma_index_in_range(x as int, y as int);
        depth_buffer.lemma_index_in_range(x as int, y as int);
    }
    let p: Vec2 = Vec2 { x: (x as i32) * ONE + HALF, y: (y as i32) * ONE + HALF };
    let bary: Barycentric = Barycentric::new(&v0.position, &v1.position, &v2.position, &p);
    if bary.is_covered() {
        let z: i32 = bary.interpolate_linear(v0.depth, v1.depth, v2.depth);
        if depth_buffer.depth_test(x, y, z) {
            let color: u32 = shade(shader, material, &bary, v0, v1, v2);
            framebuffer.set_pixel(x, y, color);
        } else {
            assert(framebuffer@ =~= framebuffer@.update(i, framebuffer@[i]));
        }
    } else {
        assert(framebuffer@ =~= framebuffer@.update(i, framebuffer@[i]));
        assert(depth_buffer@ =~= depth_buffer@.update(i, depth_buffer@[i]));
    }
}

/// Rasterizes the triangle of three screen-space vertices: every pixel
/// whose center lies strictly inside the triangle is depth-tested and, where
/// it passes, shaded.
pub fn rasterize_triangle(
    framebuffer: &mut Framebuffer,
    depth_buffer: &mut Framebuffer,
    shader: &Shader,
    material: &Material,
    v0: &ScreenVertex,
    v1: &ScreenVertex,
    v2: &ScreenVertex,
)
    requires
        old(framebuffer).wf(),
        old(depth_buffer).wf(),
        old(framebuffer).spec_width() == old(depth_buffer).spec_width(),
        old(framebuffer).spec_height() == old(depth_buffer).spec_height(),
        material.wf(),
    ensures
        final(framebuffer).wf(),
        final(depth_buffer).wf(),
        final(framebuffer).spec_width() == old(framebuffer).spec_width(),
        final(framebuffer).spec_height() == old(framebuffer).spec_height(),
        final(depth_buffer).spec_width() == old(depth_buffer).spec_width(),
        final(depth_buffer).spec_height() == old(depth_buffer).spec_height(),
        (Frame { color: final(framebuffer)@, depth: final(depth_buffer)@ }) == raster_spec(
            Frame { color: old(framebuffer)@, depth: old(depth_buffer)@ },
            old(framebuffer).spec_width() as int,
            *shader,
            *material,
            *v0,
            *v1,
            *v2,
        ),
{
    let ghost frame = Frame { color: framebuffer@, depth: depth_buffer@ };
    let width: usize = framebuffer.width();
    let height: usize = framebuffer.height();
    let ghost after = raster_spec(frame, width as int, *shader, *material, *v0, *v1, *v2);
    proof {
        framebuffer.lemma_len();
        depth_buffer.lemma_len();
    }
    let (x0, x1): (usize, usize) = scan_range(
        v0.position.x,
        v1.position.x,
        v2.position.x,
        width,
    );
    let (y0, y1): (usize, usize) = scan_range(
        v0.position.y,
        v1.position.y,
        v2.position.y,
        height,
    );
    let ghost scan = Scan {
        frame,
        width: width as int,
        shader: *shader,
        material: *material,
        v0: *v0,
        v1: *v1,
        v2: *v2,
        x0: x0 as int,
        x1: x1 as int,
        y0: y0 as int,
        y1: y1 as int,
    };
    let mut x: usize = x0;
    while x < x1
        invariant
            framebuffer.wf(),
            depth_buffer.wf(),
            framebuffer.spec_width() == width,
            framebuffer.spec_height() == height,
            depth_buffer.spec_width() == width,
            depth_buffer.spec_height() == height,
            framebuffer@.len() == width * height,
            depth_buffer@.len() == width * height,
            scan.frame == frame,
            scan.width == width,
            scan.shader == *shader,
            scan.material == *material,
            scan.v0 == *v0 && scan.v1 == *v1 && scan.v2 == *v2,
            scan.x0 == x0 && scan.x1 == x1 && scan.y0 == y0 && scan.y1 == y1,
            frame.color.len() == width * height,
            frame.depth.len() == width * height,
            material.wf(),
            x0 <= x,
            x1 <= width,
            x1 <= 32768,
            y1 <= height,
            y1 <= 32768,
            forall|i: int|
                0 <= i < width * height ==> (framebuffer@[i], depth_buffer@[i])
                    == #[trigger] scan.cell(x as int, y0 as int, i),
        decreases x1 - x,
    {
        let mut y: usize = y0;
        while y < y1
            invariant
                framebuffer.wf(),
                depth_buffer.wf(),
                framebuffer.spec_width() == width,
                framebuffer.spec_height() == height,
                depth_buffer.spec_width() == width,
                depth_buffer.spec_height() == height,
                framebuffer@.len() == width * height,
                depth_buffer@.len() == width * height,
                scan.frame == frame,
                scan.width == width,
                scan.shader == *shader,
                scan.material == *material,
                scan.v0 == *v0 && scan.v1 == *v1 && scan.v2 == *v2,
                scan.x0 == x0 && scan.x1 == x1 && scan.y0 == y0 && scan.y1 == y1,
                frame.color.len() == width * height,
                frame.depth.len() == width * height,
                material.wf(),
                x0 <= x < x1,
                x1 <= width,
                x1 <= 32768,
                y0 <= y,
                y1 <= height,
                y1 <= 32768,
                forall|i: int|
                    0 <= i < width * height ==> (framebuffer@[i], depth_buffer@[i])
                        == #[trigger] scan.cell(x as int, y as int, i),
            decreases y1 - y,
        {
            let ghost color_before = framebuffer@;
            let ghost depth_before = depth_buffer@;
            let ghost at = framebuffer.index_of(x as int, y as int);
            proof {
                framebuffer.lemma_index_in_range(x as int, y as int);
                lemma_pixel_to_cell(width as int, x as int, y as int);
            }
            rasterize_pixel(framebuffer, depth_buffer, shader, material, v0, v1, v2, x, y);
            proof {
                assert forall|i: int| 0 <= i < width * height implies (
                    framebuffer@[i],
                    depth_buffer@[i],
                ) == #[trigger] scan.cell(x as int, y + 1, i) by {
                    let before = scan.cell(x as int, y as int, i);
                    assert((color_before[i], depth_before[i]) == before);
                    lemma_cell_to_pixel(width as int, height as int, i);
                    if i != at {
                        assert(!(i % (width as int) == x && i / (width as int) == y));
                    }
                }
            }
            y = y + 1;
        }
        proof {
            assert forall|i: int| 0 <= i < width * height implies (
                framebuffer@[i],
                depth_buffer@[i],
            ) == #[trigger] scan.cell(x + 1, y0 as int, i) by {
                let before = scan.cell(x as int, y as int, i);
                assert((framebuffer@[i], depth_buffer@[i]) == before);
            }
        }
        x = x + 1;
    }
    proof {
        assert forall|i: int| 0 <= i < width * height implies framebuffer@[i] == after.color[i]
            && depth_buffer@[i] == after.depth[i] by {
            let last = scan.cell(x as int, y0 as int, i);
            assert((framebuffer@[i], depth_buffer@[i]) == last);
            lemma_cell_to_pixel(width as int, height as int, i);
            let px = i % (width as int);
            let py = i / (width as int);
            if inside_spec(v0.position@, v1.position@, v2.position@, pixel_center_spec(px, py)) {
                lemma_covered_pixel_is_scanned(
                    v0.position@,
                    v1.position@,
                    v2.position@,
                    width as int,
                    height as int,
                    px,
                    py,
                );
            }
        }
        assert(framebuffer@ =~= after.color);
        assert(depth_buffer@ =~= after.depth);
    }
}

/// Draws one triangle of a mesh: takes its three vertices through the
/// vertex stage and rasterizes them.
pub fn draw_triangle(
    framebuffer: &mut Framebuffer,
    depth_buffer: &mut Framebuffer,
    v0: &Vertex,
    v1: &Vertex,
    v2: &Vertex,
    mvp: &Mat4,
    inv_trans_model_matrix: &Mat4,
    material: &Material,
    shader: &Shader,
)
    requires
        old(framebuffer).wf(),
        old(depth_buffer).wf(),
        old(framebuffer).spec_width() == old(depth_buffer).spec_width(),
        old(framebuffer).spec_height() == old(depth_buffer).spec_height(),
        material.wf(),
    ensures
        final(framebuffer).wf(),
        final(depth_buffer).wf(),
        final(framebuffer).spec_width() == old(framebuffer).spec_width(),
        final(framebuffer).spec_height() == old(framebuffer).spec_height(),
        final(depth_buffer).spec_width() == old(depth_buffer).spec_width(),
        final(depth_buffer).spec_height() == old(depth_buffer).spec_height(),
        (Frame { color: final(framebuffer)@, depth: final(depth_buffer)@ }) == draw_triangle_spec(
            Frame { color: old(framebuffer)@, depth: old(depth_buffer)@ },
            old(framebuffer).spec_width() as int,
            old(framebuffer).spec_height() as int,
            *shader,
            *material,
            *v0,
            *v1,
            *v2,
            mvp@,
            inv_trans_model_matrix@,
        ),
{
    let width: usize = framebuffer.width();
    let height: usize = framebuffer.height();
    let s0: ScreenVertex = screen_vertex(v0, mvp, inv_trans_model_matrix, width, height);
    let s1: ScreenVertex = screen_vertex(v1, mvp, inv_trans_model_matrix, width, height);
    let s2: ScreenVertex = screen_vertex(v2, mvp, inv_trans_model_matrix, width, height);
    rasterize_triangle(framebuffer, depth_buffer, shader, material, &s0, &s1, &s2);
}

/// Draws every triangle of every mesh of a model, in order, each mesh with
/// the material that it names.
pub fn draw_model(
    framebuffer: &mut Framebuffer,
    depth_buffer: &mut Framebuffer,
    model: &Model,
    mvp: &Mat4,
    inv_trans_model_matrix: &Mat4,
    shader: &Shader,
)
    requires
        old(framebuffer).wf(),
        old(depth_buffer).wf(),
        old(framebuffer).spec_width() == old(depth_buffer).spec_width(),
        old(framebuffer).spec_height() == old(depth_buffer).spec_height(),
        model.wf(),
    ensures
        final(framebuffer).wf(),
        final(depth_buffer).wf(),
        final(framebuffer).spec_width() == old(framebuffer).spec_width(),
        final(framebuffer).spec_height() == old(framebuffer).spec_height(),
        final(depth_buffer).spec_width() == old(depth_buffer).spec_width(),
        final(depth_buffer).spec_height() == old(depth_buffer).spec_height(),
        (Frame { color: final(framebuffer)@, depth: final(depth_buffer)@ }) == draw_model_spec(
            Frame { color: old(framebuffer)@, depth: old(depth_buffer)@ },
            old(framebuffer).spec_width() as int,
            old(framebuffer).spec_height() as int,
            *shader,
            *model,
            mvp@,
            inv_trans_model_matrix@,
            model.meshes@.len(),
        ),
{
    let ghost frame = Frame { color: framebuffer@, depth: depth_buffer@ };
    let ghost width = framebuffer.spec_width() as int;
    let ghost height = framebuffer.spec_height() as int;
    let mut k: usize = 0;
    while k < model.meshes.len()
        invariant
            framebuffer.wf(),
            depth_buffer.wf(),
            framebuffer.spec_width() == width,
            framebuffer.spec_height() == height,
            depth_buffer.spec_width() == width,
            depth_buffer.spec_height() == height,
            model.wf(),
            k <= model.meshes@.len(),
            (Frame { color: framebuffer@, depth: depth_buffer@ }) == draw_model_spec(
                frame,
                width,
                height,
                *shader,
                *model,
                mvp@,
                inv_trans_model_matrix@,
                k as nat,
            ),
        decreases model.meshes@.len() - k,
    {
        let mesh: &Mesh = &model.meshes[k];
        let material: &Material = &model.materials[mesh.material_idx];
        let ghost start = Frame { color: framebuffer@, depth: depth_buffer@ };
        let count: usize = mesh.indices.len() / 3;
        let mut i: usize = 0;
        while i < count
            invariant
                framebuffer.wf(),
                depth_buffer.wf(),
                framebuffer.spec_width() == width,
                framebuffer.spec_height() == height,
                depth_buffer.spec_width() == width,
                depth_buffer.spec_height() == height,
                mesh.wf(),
                material.wf(),
                count == mesh.triangle_count(),
                mesh.indices@.len() <= usize::MAX,
                i <= count,
                (Frame { color: framebuffer@, depth: depth_buffer@ }) == draw_mesh_spec(
                    start,
                    width,
                    height,
                    *shader,
                    *material,
                    *mesh,
                    mvp@,
                    inv_trans_model_matrix@,
                    i as nat,
                ),
            decreases count - i,
        {
            let v0: Vertex = mesh.vertices[mesh.indices[i * 3] as usize];
            let v1: Vertex = mesh.vertices[mesh.indices[i * 3 + 1] as usize];
            let v2: Vertex = mesh.vertices[mesh.indices[i * 3 + 2] as usize];
            draw_triangle(
                framebuffer,
                depth_buffer,
                &v0,
                &v1,
                &v2,
                mvp,
                inv_trans_model_matrix,
                material,
                shader,
            );
            i = i + 1;
        }
        k = k + 1;
    }
}

} // verus!
