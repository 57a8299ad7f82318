//! Rasterization and the render pipeline: coverage, interpolation and the
//! end-to-end constant-color scenario.

use softrender::fragment::Fragment;
use softrender::framebuffer::Framebuffer;
use softrender::noise::NoiseSamples;
use softrender::pipeline::{draw_orbit, render_fragments, render_shaded, transform_vertices, uniforms_for_object};
use softrender::renderer::{Object, Transform};
use softrender::raster::triangle;
use softrender::renderer::ShaderType;
use softrender::vecmat::{Fx2, Fx3, Mat4};
use softrender::vertex::Vertex;
use softrender::Uniforms;

fn screen_vertex(px: i64, py: i64, depth: i64) -> Vertex {
    Vertex {
        position: Fx3 { x: px * 65536, y: py * 65536, z: 0 },
        normal: Fx3 { x: 0, y: 0, z: 65536 },
        tex_coords: Fx2 { x: 0, y: 0 },
        color: None,
        transformed_position: Fx3 { x: px * 65536, y: py * 65536, z: depth },
        // unit-length normal toward the viewer: lighting intensity 1.0
        transformed_normal: Fx3 { x: 0, y: 0, z: 65536 },
    }
}

fn identity_uniforms() -> Uniforms {
    Uniforms {
        model_matrix: Mat4::identity(),
        view_matrix: Mat4::identity(),
        projection_matrix: Mat4::identity(),
        viewport_matrix: Mat4::identity(),
        time: 0,
        noise: softrender::noise::create_cloud_noise(),
    }
}

fn covered_set(frags: &[Fragment]) -> Vec<(usize, usize)> {
    let mut v: Vec<(usize, usize)> = frags.iter().map(|f| (f.x, f.y)).collect();
    v.sort();
    v
}

#[test]
fn offscreen_triangle_emits_no_fragments() {
    // entirely left of the target
    let t = triangle(
        &screen_vertex(-30, 5, 100),
        &screen_vertex(-20, 5, 100),
        &screen_vertex(-30, 15, 100),
        64,
        64,
    );
    assert_eq!(t.len(), 0);
    // entirely below the target
    let t = triangle(
        &screen_vertex(5, 100, 100),
        &screen_vertex(25, 100, 100),
        &screen_vertex(5, 120, 100),
        64,
        64,
    );
    assert_eq!(t.len(), 0);
}

#[test]
fn degenerate_triangle_emits_no_fragments() {
    let t = triangle(
        &screen_vertex(5, 5, 100),
        &screen_vertex(10, 10, 100),
        &screen_vertex(15, 15, 100),
        64,
        64,
    );
    assert_eq!(t.len(), 0);
}

#[test]
fn interior_pixels_appear_exactly_once_and_no_others() {
    let frags = triangle(
        &screen_vertex(10, 10, 32768),
        &screen_vertex(20, 10, 32768),
        &screen_vertex(10, 20, 32768),
        30,
        30,
    );
    let set = covered_set(&frags);
    // no pixel appears twice
    let mut dedup = set.clone();
    dedup.dedup();
    assert_eq!(set, dedup);
    // the inclusive edge rule: exactly the pixels with x >= 10, y >= 10 and
    // x + y <= 30 are covered
    for y in 0..30usize {
        for x in 0..30usize {
            let expected = x >= 10 && y >= 10 && x + y <= 30;
            assert_eq!(set.binary_search(&(x, y)).is_ok(), expected, "pixel {x},{y}");
        }
    }
}

#[test]
fn winding_direction_does_not_change_coverage() {
    let a = screen_vertex(3, 3, 100);
    let b = screen_vertex(12, 4, 100);
    let c = screen_vertex(5, 13, 100);
    let fwd = covered_set(&triangle(&a, &b, &c, 32, 32));
    let rev = covered_set(&triangle(&a, &c, &b, 32, 32));
    assert_eq!(fwd, rev);
    assert!(!fwd.is_empty());
}

#[test]
fn interpolation_reproduces_vertex_attributes_exactly() {
    let mut a = screen_vertex(4, 4, 11111);
    a.position = Fx3 { x: 123456, y: -654321, z: 99999 };
    a.tex_coords = Fx2 { x: 4242, y: -17 };
    let b = screen_vertex(14, 4, 77777);
    let c = screen_vertex(4, 14, 44444);
    let frags = triangle(&a, &b, &c, 32, 32);
    let at_a: Vec<&Fragment> = frags.iter().filter(|f| f.x == 4 && f.y == 4).collect();
    assert_eq!(at_a.len(), 1);
    let f = at_a[0];
    assert_eq!(f.depth, 11111);
    assert_eq!(f.vertex_position, a.position);
    assert_eq!(f.tex_coords, a.tex_coords);
    assert_eq!(f.intensity, 65536);
}

#[test]
fn trailing_partial_group_is_discarded() {
    let u = identity_uniforms();
    let vs = vec![
        screen_vertex(2, 2, 100),
        screen_vertex(8, 2, 100),
        screen_vertex(2, 8, 100),
        screen_vertex(20, 20, 100),
        screen_vertex(28, 20, 100),
    ];
    let frags = render_fragments(&u, &vs, 32, 32);
    // only the first complete triple rasterizes; the trailing two vertices
    // are dropped without error
    assert!(frags.iter().all(|f| f.x < 16 && f.y < 16));
    assert!(!frags.is_empty());
}

#[test]
fn transform_with_identity_matrices_keeps_positions() {
    let u = identity_uniforms();
    let vs = vec![screen_vertex(3, 7, 500)];
    let tv = transform_vertices(&vs, &u);
    assert_eq!(tv.len(), 1);
    // with all matrices the identity the screen position is the object
    // position (w stays 1), and the normal is unchanged
    assert_eq!(tv[0].transformed_position.x, 3 * 65536);
    assert_eq!(tv[0].transformed_position.y, 7 * 65536);
    assert_eq!(tv[0].transformed_normal, vs[0].normal);
}

#[test]
fn end_to_end_constant_triangle() {
    // a triangle with screen-space vertices (10,10), (20,10), (10,20),
    // uniform depth 0.5 and intensity 1.0, rendered into a 30x30 target
    // cleared to black and shaded with a constant color, paints exactly the
    // triangle's pixels (inclusive edges) with that color
    let mut fb = Framebuffer::new(30, 30);
    fb.set_background_color(0);
    fb.clear();
    let u = identity_uniforms();
    let frags = triangle(
        &screen_vertex(10, 10, 32768),
        &screen_vertex(20, 10, 32768),
        &screen_vertex(10, 20, 32768),
        30,
        30,
    );
    // the cloud material with a sample above the threshold is constant
    // white, and intensity 1.0 keeps it white
    let samples: Vec<NoiseSamples> = frags.iter().map(|_| NoiseSamples { a: 65536, b: 0 }).collect();
    render_shaded(&mut fb, ShaderType::Cloud, &u, &frags, &samples);
    for y in 0..30usize {
        for x in 0..30usize {
            let inside = x >= 10 && y >= 10 && x + y <= 30;
            let expected = if inside { 0xFFFFFF } else { 0 };
            assert_eq!(fb.get_color(x, y), expected, "pixel {x},{y}");
            if inside {
                assert_eq!(fb.get_depth(x, y), 32768);
            }
        }
    }
}

#[test]
fn nearer_surface_wins_between_triangles() {
    let mut fb = Framebuffer::new(30, 30);
    fb.clear();
    let u = identity_uniforms();
    let tri_far = triangle(
        &screen_vertex(0, 0, 40000),
        &screen_vertex(29, 0, 40000),
        &screen_vertex(0, 29, 40000),
        30,
        30,
    );
    let far_samples: Vec<NoiseSamples> = tri_far.iter().map(|_| NoiseSamples { a: 65536, b: 0 }).collect();
    // far surface: cloud white
    render_shaded(&mut fb, ShaderType::Cloud, &u, &tri_far, &far_samples);
    let tri_near = triangle(
        &screen_vertex(5, 5, 20000),
        &screen_vertex(12, 5, 20000),
        &screen_vertex(5, 12, 20000),
        30,
        30,
    );
    let near_samples: Vec<NoiseSamples> = tri_near.iter().map(|_| NoiseSamples { a: 65536, b: 0 }).collect();
    // near surface: dual-tone blue (sample above zero), scaled by intensity 1
    render_shaded(&mut fb, ShaderType::BlueGreen, &u, &tri_near, &near_samples);
    assert_eq!(fb.get_color(6, 6), 0x0000FF);
    assert_eq!(fb.get_depth(6, 6), 20000);
    assert_eq!(fb.get_color(20, 2), 0xFFFFFF);
}

#[test]
fn draw_orbit_paints_the_circle_points() {
    let mut fb = Framebuffer::new(100, 100);
    fb.clear();
    draw_orbit(&mut fb, 30 * 65536);
    // the first orbit point: angle zero, so x = 50 + 30 (square target,
    // aspect one) and z = 50
    assert_eq!(fb.get_color(80, 50), 0x888888);
    // the depth buffer is untouched and only the orbit color is painted
    let mut painted = 0;
    for y in 0..100usize {
        for x in 0..100usize {
            let c = fb.get_color(x, y);
            assert!(c == 0 || c == 0x888888);
            if c != 0 {
                painted += 1;
            }
            assert_eq!(fb.get_depth(x, y), softrender::framebuffer::FAR_DEPTH);
        }
    }
    assert!(painted > 100);
}

#[test]
fn uniforms_for_object_rebuilds_the_model_matrix() {
    let u = identity_uniforms();
    let object = Object {
        vertices: vec![],
        transform: Transform {
            position: Fx3 { x: 131072, y: 0, z: -65536 },
            scale: 32768,
            rotation: Fx3 { x: 0, y: 0, z: 0 },
        },
        shader: ShaderType::Cloud,
    };
    let u2 = uniforms_for_object(&u, &object);
    assert_eq!(u2.model_matrix.m03, 131072);
    assert_eq!(u2.model_matrix.m00, 32768);
    assert_eq!(u2.model_matrix.m23, -65536);
    assert_eq!(u2.view_matrix, u.view_matrix);
    assert_eq!(u2.time, u.time);
}
