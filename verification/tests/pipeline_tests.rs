use softraster::fixed::{HALF, ONE};
use softraster::framebuffer::Framebuffer;
use softraster::model::{Material, Mesh, Model, Vertex};
use softraster::pipeline::{draw_model, draw_triangle, rasterize_triangle, screen_vertex};
use softraster::raster::ScreenVertex;
use softraster::shader::Shader;
use softraster::vector::{Mat4, Vec2, Vec3, Vec4};

const CLEAR: u32 = 0x141414;

fn buffers(width: usize, height: usize) -> (Framebuffer, Framebuffer) {
    let mut color = Framebuffer::new(width, height);
    let mut depth = Framebuffer::new(width, height);
    color.clear(CLEAR);
    depth.clear(u32::MAX);
    (color, depth)
}

fn corner(x: i32, y: i32, depth: i32) -> ScreenVertex {
    ScreenVertex {
        position: Vec2::new(x * ONE, y * ONE),
        depth,
        inv_w: ONE,
        normal: Vec3::new(0, 0, ONE),
        tex_coord: Vec2::new(0, 0),
    }
}

fn identity() -> Mat4 {
    Mat4 {
        r0: Vec4::new(ONE, 0, 0, 0),
        r1: Vec4::new(0, ONE, 0, 0),
        r2: Vec4::new(0, 0, ONE, 0),
        r3: Vec4::new(0, 0, 0, ONE),
    }
}

fn vertex(x: i32, y: i32, z: i32) -> Vertex {
    Vertex { position: Vec3::new(x, y, z), normal: Vec3::new(0, 0, ONE), tex_coord: Vec2::new(0, 0) }
}

fn pixels(fb: &Framebuffer) -> Vec<u32> {
    let mut all = Vec::new();
    for y in 0..fb.height() {
        for x in 0..fb.width() {
            all.push(fb.get_pixel(x, y));
        }
    }
    all
}

fn covered(fb: &Framebuffer, color: u32) -> Vec<(usize, usize)> {
    let mut all = Vec::new();
    for y in 0..fb.height() {
        for x in 0..fb.width() {
            if fb.get_pixel(x, y) == color {
                all.push((x, y));
            }
        }
    }
    all
}

#[test]
fn single_triangle_covers_the_pixels_whose_centers_are_inside() {
    let (mut color, mut depth) = buffers(8, 8);
    let material = Material::default();
    rasterize_triangle(
        &mut color,
        &mut depth,
        &Shader::Flat(0xff0000),
        &material,
        &corner(0, 0, HALF),
        &corner(4, 0, HALF),
        &corner(0, 4, HALF),
    );
    assert_eq!(color.get_pixel(1, 1), 0xff0000);
    assert_eq!(color.get_pixel(3, 3), CLEAR);
    // pixels are sampled at their centers: (0.5, 0.5) lies strictly inside,
    // so the pixel at the corner is covered and no tie has to be broken
    assert_eq!(color.get_pixel(0, 0), 0xff0000);
    // the center of (3, 0) lies on the edge from (4, 0) to (0, 4): outside
    assert_eq!(color.get_pixel(3, 0), CLEAR);
    assert_eq!(covered(&color, 0xff0000), vec![(0, 0), (1, 0), (2, 0), (0, 1), (1, 1), (0, 2)]);
    assert_eq!(
        covered(&color, CLEAR).len() + covered(&color, 0xff0000).len(),
        64
    );
    for (x, y) in covered(&color, 0xff0000) {
        assert_eq!(depth.get_pixel_f32(x, y), HALF);
    }
    for (x, y) in covered(&color, CLEAR) {
        assert_eq!(depth.get_pixel(x, y), u32::MAX);
        assert_eq!(depth.get_pixel_f32(x, y), ONE);
    }
    // the center of (2, 1) lies on the edge from (4, 0) to (0, 4): outside
    assert_eq!(color.get_pixel(2, 1), CLEAR);
    assert_eq!(depth.get_pixel_f32(2, 1), ONE);
    assert_eq!(depth.get_pixel_f32(3, 3), ONE);
}

#[test]
fn triangle_of_the_other_winding_is_not_drawn() {
    let (mut color, mut depth) = buffers(8, 8);
    rasterize_triangle(
        &mut color,
        &mut depth,
        &Shader::Flat(0xff0000),
        &Material::default(),
        &corner(0, 0, HALF),
        &corner(0, 4, HALF),
        &corner(4, 0, HALF),
    );
    assert_eq!(pixels(&color), vec![CLEAR; 64]);
    assert_eq!(pixels(&depth), vec![u32::MAX; 64]);
}

#[test]
fn degenerate_triangle_is_not_drawn() {
    let (mut color, mut depth) = buffers(8, 8);
    rasterize_triangle(
        &mut color,
        &mut depth,
        &Shader::Flat(0xff0000),
        &Material::default(),
        &corner(0, 0, HALF),
        &corner(3, 3, HALF),
        &corner(6, 6, HALF),
    );
    rasterize_triangle(
        &mut color,
        &mut depth,
        &Shader::Flat(0xff0000),
        &Material::default(),
        &corner(2, 2, HALF),
        &corner(2, 2, HALF),
        &corner(2, 2, HALF),
    );
    assert_eq!(pixels(&color), vec![CLEAR; 64]);
    assert_eq!(pixels(&depth), vec![u32::MAX; 64]);
}

#[test]
fn depth_is_interpolated_with_the_plain_weights() {
    let (mut color, mut depth) = buffers(8, 8);
    rasterize_triangle(
        &mut color,
        &mut depth,
        &Shader::Flat(1),
        &Material::default(),
        &corner(0, 0, ONE / 4),
        &corner(4, 0, HALF),
        &corner(0, 4, 3 * ONE / 4),
    );
    // at the center of (0, 0) the weights are 12/16, 2/16 and 2/16
    assert_eq!(depth.get_pixel_f32(0, 0), 22528);
    assert_eq!(depth.get_pixel_f32(1, 0), 26624);
    assert_eq!(depth.get_pixel_f32(2, 0), 30720);
    assert_eq!(depth.get_pixel_f32(0, 1), 30720);
    assert_eq!(depth.get_pixel_f32(1, 1), 34816);
    assert_eq!(depth.get_pixel_f32(0, 2), 38912);
    assert_eq!(depth.get_pixel(3, 0), u32::MAX);
}

#[test]
fn triangle_is_cut_off_at_the_screen() {
    let (mut color, mut depth) = buffers(4, 3);
    rasterize_triangle(
        &mut color,
        &mut depth,
        &Shader::Flat(7),
        &Material::default(),
        &corner(-100, -100, HALF),
        &corner(300, -100, HALF),
        &corner(-100, 300, HALF),
    );
    assert_eq!(pixels(&color), vec![7; 12]);
}

#[test]
fn triangle_off_the_screen_changes_nothing() {
    let (mut color, mut depth) = buffers(4, 4);
    for (dx, dy) in [(-20, 0), (20, 0), (0, -20), (0, 20), (-20, -20), (20, 20)] {
        rasterize_triangle(
            &mut color,
            &mut depth,
            &Shader::Flat(7),
            &Material::default(),
            &corner(dx, dy, HALF),
            &corner(dx + 4, dy, HALF),
            &corner(dx, dy + 4, HALF),
        );
    }
    assert_eq!(pixels(&color), vec![CLEAR; 16]);
    assert_eq!(pixels(&depth), vec![u32::MAX; 16]);
}

#[test]
fn triangle_with_vertices_at_the_ends_of_the_range_is_drawn() {
    let (mut color, mut depth) = buffers(4, 4);
    let right = ScreenVertex { position: Vec2::new(i32::MAX, i32::MIN), ..corner(0, 0, HALF) };
    let down = ScreenVertex { position: Vec2::new(i32::MIN, i32::MAX), ..corner(0, 0, HALF) };
    let origin = ScreenVertex { position: Vec2::new(i32::MIN, i32::MIN), ..corner(0, 0, HALF) };
    rasterize_triangle(
        &mut color,
        &mut depth,
        &Shader::Lit,
        &Material::default(),
        &origin,
        &right,
        &down,
    );
    // the edge from `right` to `down` passes through the pixel (0, 0):
    // its center lies beyond, as all the others do
    assert_eq!(pixels(&color), vec![CLEAR; 16]);
    let far_right = ScreenVertex { position: Vec2::new(i32::MAX, -ONE), ..corner(0, 0, HALF) };
    let far_down = ScreenVertex { position: Vec2::new(-ONE, i32::MAX), ..corner(0, 0, HALF) };
    rasterize_triangle(
        &mut color,
        &mut depth,
        &Shader::Lit,
        &Material::default(),
        &corner(-1, -1, HALF),
        &far_right,
        &far_down,
    );
    assert_eq!(pixels(&color), vec![0x6c6c6c; 16]);
    assert_eq!(pixels(&depth), vec![0x8000_0000; 16]);
}

#[test]
fn nearer_triangle_wins_in_either_order() {
    let near = [corner(0, 0, ONE / 4), corner(6, 0, ONE / 4), corner(0, 6, ONE / 4)];
    let far = [corner(1, 1, HALF), corner(7, 1, HALF), corner(1, 7, HALF)];
    let draw = |first: &[ScreenVertex; 3], a: u32, second: &[ScreenVertex; 3], b: u32| {
        let (mut color, mut depth) = buffers(8, 8);
        let material = Material::default();
        rasterize_triangle(&mut color, &mut depth, &Shader::Flat(a), &material, &first[0], &first[1], &first[2]);
        rasterize_triangle(&mut color, &mut depth, &Shader::Flat(b), &material, &second[0], &second[1], &second[2]);
        (pixels(&color), pixels(&depth))
    };
    let only = |tri: &[ScreenVertex; 3]| {
        let (mut color, mut depth) = buffers(8, 8);
        rasterize_triangle(&mut color, &mut depth, &Shader::Flat(1), &Material::default(), &tri[0], &tri[1], &tri[2]);
        pixels(&color)
    };
    let (near_red, far_blue) = (0xff0000, 0x0000ff);
    let near_first = draw(&near, near_red, &far, far_blue);
    let far_first = draw(&far, far_blue, &near, near_red);
    assert_eq!(near_first, far_first);
    let in_near = only(&near);
    let in_far = only(&far);
    let mut both = 0;
    for i in 0..64 {
        let expected = if in_near[i] == 1 {
            near_red
        } else if in_far[i] == 1 {
            far_blue
        } else {
            CLEAR
        };
        assert_eq!(near_first.0[i], expected);
        if in_near[i] == 1 && in_far[i] == 1 {
            both += 1;
            assert_eq!(near_first.1[i], (ONE as u32 / 4) * 65536);
        }
    }
    // both cover (1,1), (2,1), (1,2), (3,1), (2,2) and (1,3)
    assert_eq!(both, 6);
    assert_eq!(near_first.0[1 + 1 * 8], near_red);
    assert_eq!(near_first.0[0], near_red);
    assert_eq!(near_first.0[3 + 3 * 8], far_blue);
    assert_eq!(near_first.0[7 + 7 * 8], CLEAR);
}

#[test]
fn equal_depth_keeps_the_first_triangle() {
    let (mut color, mut depth) = buffers(8, 8);
    let tri = [corner(0, 0, HALF), corner(4, 0, HALF), corner(0, 4, HALF)];
    let material = Material::default();
    rasterize_triangle(&mut color, &mut depth, &Shader::Flat(1), &material, &tri[0], &tri[1], &tri[2]);
    rasterize_triangle(&mut color, &mut depth, &Shader::Flat(2), &material, &tri[0], &tri[1], &tri[2]);
    assert_eq!(covered(&color, 1).len(), 6);
    assert_eq!(covered(&color, 2).len(), 0);
}

#[test]
fn screen_vertex_projects_and_transforms() {
    let v = Vertex {
        position: Vec3::new(HALF, -HALF, ONE / 4),
        normal: Vec3::new(ONE, 2 * ONE, 3 * ONE),
        tex_coord: Vec2::new(11, 22),
    };
    // the normal matrix scales by two and, as the normal is taken with
    // w == 1, moves by its last column
    let normal_matrix = Mat4 {
        r0: Vec4::new(2 * ONE, 0, 0, ONE),
        r1: Vec4::new(0, 2 * ONE, 0, 0),
        r2: Vec4::new(0, 0, 2 * ONE, -ONE),
        r3: Vec4::new(0, 0, 0, ONE),
    };
    let s = screen_vertex(&v, &identity(), &normal_matrix, 8, 4);
    assert_eq!((s.position.x, s.position.y), (2 * ONE, 3 * ONE));
    assert_eq!(s.depth, ONE / 4);
    assert_eq!(s.inv_w, ONE);
    assert_eq!((s.normal.x, s.normal.y, s.normal.z), (3 * ONE, 4 * ONE, 5 * ONE));
    assert_eq!((s.tex_coord.x, s.tex_coord.y), (11, 22));
}

#[test]
fn screen_vertex_on_the_camera_plane_lies_at_the_ends_of_the_range() {
    let mut m = identity();
    m.r3 = Vec4::new(0, 0, ONE, 0);
    let s = screen_vertex(&vertex(0, ONE, 0), &m, &identity(), 8, 8);
    assert_eq!((s.position.x, s.position.y), (4 * ONE, i32::MIN));
    assert_eq!((s.depth, s.inv_w), (0, i32::MAX));
}

#[test]
fn draw_triangle_projects_its_vertices() {
    // under the identity the corners (1, 1), (0, 1), (1, 0) of the
    // normalized device coordinates are the pixels (0, 0), (4, 0), (0, 4)
    let (mut color, mut depth) = buffers(8, 8);
    draw_triangle(
        &mut color,
        &mut depth,
        &vertex(ONE, ONE, HALF),
        &vertex(0, ONE, HALF),
        &vertex(ONE, 0, HALF),
        &identity(),
        &identity(),
        &Material::default(),
        &Shader::Lit,
    );
    assert_eq!(covered(&color, 0x6c6c6c), vec![(0, 0), (1, 0), (2, 0), (0, 1), (1, 1), (0, 2)]);
    assert_eq!(covered(&color, CLEAR).len(), 58);
    assert_eq!(depth.get_pixel_f32(1, 1), HALF);
    assert_eq!(depth.get_pixel_f32(0, 0), HALF);
    // outside, and on an edge: the clear color, and the depth one
    assert_eq!(color.get_pixel(3, 3), CLEAR);
    assert_eq!(depth.get_pixel_f32(3, 3), ONE);
    assert_eq!(color.get_pixel(2, 1), CLEAR);
    assert_eq!(depth.get_pixel_f32(2, 1), ONE);
}

#[test]
fn draw_triangle_with_a_vertex_on_the_camera_plane_does_not_fail() {
    let mut m = identity();
    m.r3 = Vec4::new(0, 0, ONE, 0);
    let (mut color, mut depth) = buffers(8, 8);
    draw_triangle(
        &mut color,
        &mut depth,
        &vertex(ONE, ONE, ONE),
        &vertex(0, ONE, 0),
        &vertex(ONE, 0, ONE),
        &m,
        &identity(),
        &Material::default(),
        &Shader::Flat(9),
    );
    // the vertex lies far above the screen: the triangle is a sliver that
    // covers no center
    assert_eq!(pixels(&color), vec![CLEAR; 64]);
    assert_eq!(pixels(&depth), vec![u32::MAX; 64]);
}

fn two_triangle_model() -> Model {
    let mut model = Model::with_materials(2);
    let near = Mesh {
        vertices: vec![vertex(ONE, ONE, ONE / 4), vertex(0, ONE, ONE / 4), vertex(ONE, 0, ONE / 4)],
        indices: vec![0, 1, 2],
        material_idx: 0,
    };
    let far = Mesh {
        vertices: vec![
            vertex(ONE, ONE, HALF),
            vertex(-ONE, ONE, HALF),
            vertex(ONE, -ONE, HALF),
            vertex(-ONE, -ONE, HALF),
        ],
        indices: vec![0, 1, 2, 3, 2, 1],
        material_idx: 1,
    };
    model.add_mesh(near, Vec4::new(ONE, ONE, ONE, ONE), None).unwrap();
    model.add_mesh(far, Vec4::new(ONE, 0, 0, ONE), None).unwrap();
    model
}

#[test]
fn draw_model_draws_every_triangle_with_its_material() {
    let model = two_triangle_model();
    let (mut color, mut depth) = buffers(8, 8);
    draw_model(&mut color, &mut depth, &model, &identity(), &identity(), &Shader::Lit);
    // the near triangle is white, the two far ones cover the rest in red;
    // the centers on their common diagonal belong to neither
    let white = covered(&color, 0x6c6c6c);
    assert_eq!(white, vec![(0, 0), (1, 0), (2, 0), (0, 1), (1, 1), (0, 2)]);
    let red = covered(&color, 0x6c0000);
    let clear = covered(&color, CLEAR);
    assert_eq!(clear, vec![(7, 0), (6, 1), (5, 2), (4, 3), (3, 4), (2, 5), (1, 6), (0, 7)]);
    assert_eq!(red.len(), 64 - 6 - 8);
    assert_eq!(depth.get_pixel_f32(0, 0), ONE / 4);
    assert_eq!(depth.get_pixel_f32(7, 7), HALF);
    assert_eq!(depth.get_pixel(7, 0), u32::MAX);
}

#[test]
fn draw_model_is_the_sequence_of_its_triangles() {
    let model = two_triangle_model();
    let (mut color, mut depth) = buffers(8, 8);
    draw_model(&mut color, &mut depth, &model, &identity(), &identity(), &Shader::Normals);
    let (mut color2, mut depth2) = buffers(8, 8);
    for mesh in model.meshes.iter() {
        for t in 0..mesh.indices.len() / 3 {
            draw_triangle(
                &mut color2,
                &mut depth2,
                &mesh.vertices[mesh.indices[3 * t] as usize],
                &mesh.vertices[mesh.indices[3 * t + 1] as usize],
                &mesh.vertices[mesh.indices[3 * t + 2] as usize],
                &identity(),
                &identity(),
                &model.materials[mesh.material_idx],
                &Shader::Normals,
            );
        }
    }
    assert_eq!(pixels(&color), pixels(&color2));
    assert_eq!(pixels(&depth), pixels(&depth2));
    assert_eq!(color.get_pixel(0, 0), 0x7f7fff);
}

#[test]
fn draw_model_without_meshes_changes_nothing() {
    let model = Model::with_materials(0);
    let (mut color, mut depth) = buffers(3, 2);
    draw_model(&mut color, &mut depth, &model, &identity(), &identity(), &Shader::Flat(5));
    assert_eq!(pixels(&color), vec![CLEAR; 6]);
    assert_eq!(pixels(&depth), vec![u32::MAX; 6]);
}
