//! The orbital camera, the matrix builders and the material functions.

use rand::Rng;
use rand::SeedableRng;
use softrender::camera::{Camera, MIN_RADIUS};
use softrender::color::Color;
use softrender::fragment::Fragment;
use softrender::matrices::{
    create_model_matrix, create_perspective_matrix, create_view_matrix, create_viewport_matrix,
};
use softrender::noise::{
    create_cell_noise, create_cloud_noise, create_ground_noise, create_lava_noise, create_noise,
    NoiseKind, NoiseSamples,
};
use softrender::renderer::{NoiseUse, Renderer, ShaderType};
use softrender::shaders::{
    black_and_white, blue_green_shader, cellular_shader, cloud_shader, cloud_plan, dalmata_shader,
    fragment_shader, gaseous_giant_shader, lava_shader, moon_shader, random_color_shader,
    ring_shader, rocky_planet_shader, sample_plan, shade_fragment, solar_plan, solar_shader,
    tri_color_shader, vertex_shader,
};
use softrender::vecmat::{Fx2, Fx3, Mat4};
use softrender::vertex::Vertex;
use softrender::Uniforms;

fn frag(x_fx: i64, y_fx: i64, depth: i64, intensity: i64) -> Fragment {
    Fragment {
        x: 0,
        y: 0,
        depth,
        vertex_position: Fx3 { x: x_fx, y: y_fx, z: 0 },
        intensity,
        tex_coords: Fx2 { x: 0, y: 0 },
    }
}

fn uniforms(time: u32) -> Uniforms {
    Uniforms {
        model_matrix: Mat4::identity(),
        view_matrix: Mat4::identity(),
        projection_matrix: Mat4::identity(),
        viewport_matrix: Mat4::identity(),
        time,
        noise: create_cloud_noise(),
    }
}

fn ns(a: i64, b: i64) -> NoiseSamples {
    NoiseSamples { a, b }
}

#[test]
fn camera_orbit_round_trip_restores_the_eye() {
    let mut cam = Camera::new(
        Fx3 { x: 65536, y: 0, z: -131072 },
        Fx3 { x: 0, y: 65536, z: 0 },
        1234,
        4321,
        10 * 65536,
    );
    let eye0 = cam.eye();
    let delta = 4117; // about pi/50 in fixed-point radians
    cam.orbit(delta, 0);
    assert_ne!(cam.eye(), eye0);
    cam.orbit(-delta, 0);
    assert_eq!(cam.eye(), eye0);
    cam.orbit(0, delta);
    cam.orbit(0, -delta);
    assert_eq!(cam.eye(), eye0);
}

#[test]
fn camera_zoom_round_trip_restores_the_distance() {
    let mut cam = Camera::new(
        Fx3 { x: 0, y: 0, z: 0 },
        Fx3 { x: 0, y: 65536, z: 0 },
        0,
        0,
        10 * 65536,
    );
    cam.zoom(6554);
    assert_eq!(cam.radius, 10 * 65536 - 6554);
    cam.zoom(-6554);
    assert_eq!(cam.radius, 10 * 65536);
    // zooming is bounded away from zero distance
    cam.zoom(i64::MAX);
    assert_eq!(cam.radius, MIN_RADIUS);
}

#[test]
fn camera_eye_formula_and_center_motion() {
    let mut cam = Camera::new(
        Fx3 { x: 0, y: 0, z: 0 },
        Fx3 { x: 0, y: 65536, z: 0 },
        0,
        0,
        65536,
    );
    // yaw 0, pitch 0: the eye sits one unit along positive z
    assert_eq!(cam.eye(), Fx3 { x: 0, y: 0, z: 65536 });
    cam.move_center(Fx3 { x: 65536, y: 0, z: 0 });
    assert_eq!(cam.center, Fx3 { x: 65536, y: 0, z: 0 });
    assert_eq!(cam.eye(), Fx3 { x: 65536, y: 0, z: 65536 });
    // a radius below the minimum is raised to it
    let small = Camera::new(cam.center, cam.up, 0, 0, 1);
    assert_eq!(small.radius, MIN_RADIUS);
}

#[test]
fn viewport_matrix_centers_and_flips() {
    let m = create_viewport_matrix(800 * 65536, 600 * 65536);
    assert_eq!(m.m00, 400 * 65536);
    assert_eq!(m.m03, 400 * 65536);
    assert_eq!(m.m11, -300 * 65536);
    assert_eq!(m.m13, 300 * 65536);
    assert_eq!(m.m22, 65536);
    assert_eq!(m.m33, 65536);
}

#[test]
fn perspective_matrix_shape() {
    let m = create_perspective_matrix(800 * 65536, 600 * 65536);
    assert_eq!(m.m32, -65536);
    assert_eq!(m.m33, 0);
    assert!(m.m11 > 65536); // cot(22.5 degrees) is about 2.4
    assert!(m.m00 < m.m11); // divided by the 4:3 aspect ratio
    assert!(m.m22 < 0);
}

#[test]
fn model_matrix_with_zero_rotation_is_scale_and_translation() {
    let m = create_model_matrix(
        Fx3 { x: 131072, y: -65536, z: 196608 },
        32768,
        Fx3 { x: 0, y: 0, z: 0 },
    );
    assert_eq!(m.m00, 32768);
    assert_eq!(m.m11, 32768);
    assert_eq!(m.m22, 32768);
    assert_eq!(m.m03, 131072);
    assert_eq!(m.m13, -65536);
    assert_eq!(m.m23, 196608);
    assert_eq!(m.m33, 65536);
    assert_eq!(m.m01, 0);
}

#[test]
fn view_matrix_looks_down_negative_z() {
    // eye at +1 z looking at the origin: forward is -z, so the third row
    // holds +z and the translation carries the eye distance
    let m = create_view_matrix(
        Fx3 { x: 0, y: 0, z: 65536 },
        Fx3 { x: 0, y: 0, z: 0 },
        Fx3 { x: 0, y: 65536, z: 0 },
    );
    assert_eq!(m.m20, 0);
    assert_eq!(m.m21, 0);
    assert_eq!(m.m22, 65536);
    assert_eq!(m.m23, -65536);
    assert_eq!(m.m00, 65536); // side vector +x
    assert_eq!(m.m11, 65536); // up vector +y
}

#[test]
fn singular_model_block_falls_back_to_identity_normals() {
    let v = Vertex::new(
        Fx3 { x: 65536, y: 0, z: 0 },
        Fx3 { x: 12345, y: -54321, z: 65536 },
        Fx2 { x: 0, y: 0 },
    );
    let mut u = uniforms(0);
    // a zero scale makes the upper 3x3 block singular; the normal transform
    // silently substitutes the identity
    u.model_matrix = create_model_matrix(Fx3 { x: 0, y: 0, z: 0 }, 0, Fx3 { x: 0, y: 0, z: 0 });
    let t = vertex_shader(&v, &u);
    assert_eq!(t.transformed_normal, v.normal);
}

#[test]
fn rocky_material_three_bands() {
    let f = frag(65536, 65536, 0, 65536);
    let u = uniforms(0);
    assert_eq!(rocky_planet_shader(&f, &u, &ns(131072, 131072)), Color::new(210, 180, 140));
    assert_eq!(rocky_planet_shader(&f, &u, &ns(65536, 65536)), Color::new(139, 69, 19));
    assert_eq!(rocky_planet_shader(&f, &u, &ns(0, 0)), Color::new(50, 25, 0));
    // intensity scales the chosen color
    let half = frag(65536, 65536, 0, 32768);
    assert_eq!(rocky_planet_shader(&half, &u, &ns(0, 0)), Color::new(25, 12, 0));
    // the moon tag reuses the rock material
    assert_eq!(
        moon_shader(&f, &u, &ns(65536, 65536)),
        rocky_planet_shader(&f, &u, &ns(65536, 65536))
    );
}

#[test]
fn gaseous_material_three_bands() {
    let f = frag(0, 0, 0, 65536);
    let u = uniforms(0);
    assert_eq!(gaseous_giant_shader(&f, &u, &ns(65536, 65536)), Color::new(232, 220, 77));
    assert_eq!(gaseous_giant_shader(&f, &u, &ns(32768, 32768)), Color::new(255, 235, 127));
    assert_eq!(gaseous_giant_shader(&f, &u, &ns(0, 0)), Color::new(245, 212, 122));
    // the magnitude fold makes a negative sample band like a positive one
    assert_eq!(gaseous_giant_shader(&f, &u, &ns(-65536, -65536)), Color::new(232, 220, 77));
}

#[test]
fn solar_material_three_bands() {
    let f = frag(0, 0, 0, 65536);
    let u = uniforms(0);
    assert_eq!(solar_shader(&f, &u, &ns(65536, 65536)), Color::new(255, 157, 0));
    assert_eq!(solar_shader(&f, &u, &ns(0, 0)), Color::new(255, 179, 0));
    assert_eq!(solar_shader(&f, &u, &ns(-65536, -65536)), Color::new(255, 200, 0));
}

#[test]
fn dual_tone_and_three_band_materials() {
    let f = frag(0, 0, 0, 65536);
    let u = uniforms(0);
    assert_eq!(blue_green_shader(&f, &u, &ns(1, 0)), Color::new(0, 0, 255));
    assert_eq!(blue_green_shader(&f, &u, &ns(0, 0)), Color::new(0, 255, 0));
    assert_eq!(tri_color_shader(&f, &u, &ns(65536, 0)), Color::new(0, 0, 255));
    assert_eq!(tri_color_shader(&f, &u, &ns(0, 0)), Color::new(0, 255, 255));
    assert_eq!(tri_color_shader(&f, &u, &ns(-65536, 0)), Color::new(0, 255, 0));
    // the ring tag reuses the three-band material
    assert_eq!(ring_shader(&f, &u, &ns(0, 0)), tri_color_shader(&f, &u, &ns(0, 0)));
}

#[test]
fn spot_cloud_and_mosaic_materials() {
    let f = frag(0, 0, 0, 65536);
    let u = uniforms(0);
    assert_eq!(dalmata_shader(&f, &u, &ns(0, 0)), Color::new(255, 255, 255));
    assert_eq!(dalmata_shader(&f, &u, &ns(40000, 0)), Color::new(0, 0, 0));
    assert_eq!(cloud_shader(&f, &u, &ns(40000, 0)), Color::new(255, 255, 255));
    assert_eq!(cloud_shader(&f, &u, &ns(0, 0)), Color::new(30, 97, 145));
    assert_eq!(cellular_shader(&f, &u, &ns(0, 0)), Color::new(85, 107, 47));
    assert_eq!(cellular_shader(&f, &u, &ns(20000, 0)), Color::new(124, 252, 0));
    assert_eq!(cellular_shader(&f, &u, &ns(-20000, 0)), Color::new(124, 252, 0));
    assert_eq!(cellular_shader(&f, &u, &ns(46000, 0)), Color::new(34, 139, 34));
    assert_eq!(cellular_shader(&f, &u, &ns(60000, 0)), Color::new(173, 255, 47));
}

#[test]
fn lava_material_blends() {
    let f = frag(0, 0, 0, 65536);
    let u = uniforms(0);
    assert_eq!(lava_shader(&f, &u, &ns(32768, 32768)), Color::new(192, 130, 0));
    assert_eq!(lava_shader(&f, &u, &ns(-65536, -65536)), Color::new(130, 20, 0));
    assert_eq!(lava_shader(&f, &u, &ns(65536, 65536)), Color::new(255, 240, 0));
}

#[test]
fn dither_material_matches_an_independent_draw() {
    let f = frag(3 * 65536, 5 * 65536, 0, 65536);
    let u = uniforms(7);
    let c1 = black_and_white(&f, &u);
    let c2 = black_and_white(&f, &u);
    // bit-identical on identical inputs
    assert_eq!(c1, c2);
    assert!(c1 == Color::new(0, 0, 0) || c1 == Color::new(255, 255, 255));
    // the same seed derivation, drawn independently with the same generator
    let seed: u64 = 7 * 3 * 5; // |time * y * x| in whole units
    let mut rng = rand::rngs::StdRng::seed_from_u64(seed);
    let draw: u8 = rng.gen_range(0..=100u8);
    let expected = if draw < 50 { Color::new(0, 0, 0) } else { Color::new(255, 255, 255) };
    assert_eq!(c1, expected);
}

#[test]
fn random_color_matches_an_independent_draw() {
    let f = frag(0, 0, 0, 65536);
    let u = uniforms(42);
    let c1 = random_color_shader(&f, &u);
    assert_eq!(c1, random_color_shader(&f, &u));
    let mut rng = rand::rngs::StdRng::seed_from_u64(42);
    let r: u8 = rng.gen_range(0..=255u8);
    let g: u8 = rng.gen_range(0..=255u8);
    let b: u8 = rng.gen_range(0..=255u8);
    assert_eq!(c1, Color::new(r, g, b));
}

#[test]
fn material_purity_across_the_dispatch() {
    let f = frag(12345, -6789, 4242, 50000);
    let u = uniforms(99);
    let s = ns(31415, -27182);
    for shader in [
        ShaderType::RandomColor,
        ShaderType::BlackAndWhite,
        ShaderType::Dalmata,
        ShaderType::Cloud,
        ShaderType::Cellular,
        ShaderType::Lava,
        ShaderType::BlueGreen,
        ShaderType::MoonShader,
        ShaderType::RingShader,
    ] {
        let c1 = shade_fragment(shader, &f, &u, &s);
        let c2 = shade_fragment(shader, &f, &u, &s);
        assert_eq!(c1, c2);
    }
    // the fragment-shader entry point dispatches on the renderer's tag
    let renderer = Renderer { current_shader: ShaderType::Cloud, current_noise: NoiseUse::Cloud };
    assert_eq!(fragment_shader(&f, &u, &renderer, &s), cloud_shader(&f, &u, &s));
    // the reserved tags reuse other materials; the lava tag runs the star
    assert_eq!(shade_fragment(ShaderType::Lava, &f, &u, &s), solar_shader(&f, &u, &s));
    assert_eq!(
        shade_fragment(ShaderType::RandomColor, &f, &u, &s),
        gaseous_giant_shader(&f, &u, &s)
    );
}

#[test]
fn solar_sample_plan_offsets() {
    // at frame zero the pulsation is zero, so the plan's coordinates are
    // pure zoom-and-offset: the first sample sits at the scaled origin and
    // the second is offset by 1200 on every axis before the zoom of 800
    let f = frag(0, 0, 0, 65536);
    let u = uniforms(0);
    let p = solar_plan(&f, &u);
    let first = p.first.expect("two 3-D samples");
    assert!(first.three_d);
    assert_eq!(first.x, 0);
    assert_eq!(first.y, 0);
    assert_eq!(first.z, 0);
    let second = p.second.expect("two 3-D samples");
    assert_eq!(second.x, 1200 * 800 * 65536);
    assert_eq!(second.y, 1200 * 800 * 65536);
    assert_eq!(second.z, 1200 * 800 * 65536);
}

#[test]
fn cloud_sample_plan_coordinates() {
    let f = frag(65536, 2 * 65536, 0, 65536);
    let u = uniforms(0);
    let p = cloud_plan(&f, &u);
    let req = p.first.expect("one 2-D sample");
    assert!(!req.three_d);
    assert_eq!(req.x, 200 * 65536); // x*zoom + offset = 100 + 100
    assert_eq!(req.y, 300 * 65536); // y*zoom + offset = 200 + 100
    assert!(p.second.is_none());
    // no-noise materials ask for nothing
    let empty = sample_plan(ShaderType::BlackAndWhite, &f, &u);
    assert!(empty.first.is_none() && empty.second.is_none());
}

#[test]
fn noise_configurations_match_their_materials() {
    let cloud = create_cloud_noise();
    assert_eq!(cloud.seed, 1337);
    assert_eq!(cloud.kind, NoiseKind::OpenSimplex2);
    assert!(cloud.frequency.is_none() && cloud.fractal.is_none());
    let cell = create_cell_noise();
    assert_eq!(cell.kind, NoiseKind::Cellular);
    assert_eq!(cell.frequency, Some(6554)); // 0.1 in fixed point
    let ground = create_ground_noise();
    assert_eq!(ground.fractal.unwrap().octaves, 5);
    assert_eq!(ground.frequency, Some(3277)); // 0.05
    let lava = create_lava_noise();
    assert_eq!(lava.seed, 42);
    assert_eq!(lava.kind, NoiseKind::Perlin);
    assert_eq!(lava.fractal.unwrap().octaves, 6);
    let renderer = Renderer { current_shader: ShaderType::Cloud, current_noise: NoiseUse::Lava };
    assert_eq!(create_noise(&renderer), lava);
}

#[test]
fn cloud_material_over_a_real_noise_field() {
    // sample a real coherent-noise generator at the coordinates the library
    // asks for, and check the material maps the value to one of its two
    // colors
    let mut gen = fastnoise_lite::FastNoiseLite::with_seed(1337);
    gen.set_noise_type(Some(fastnoise_lite::NoiseType::OpenSimplex2));
    let f = frag(65536 / 2, 65536 / 4, 0, 65536);
    let u = uniforms(3);
    let p = cloud_plan(&f, &u);
    let req = p.first.unwrap();
    let value = gen.get_noise_2d(req.x as f32 / 65536.0, req.y as f32 / 65536.0);
    let fx_value = (value * 65536.0) as i64;
    let c = cloud_shader(&f, &u, &ns(fx_value, 0));
    assert!(c == Color::new(255, 255, 255) || c == Color::new(30, 97, 145));
}
