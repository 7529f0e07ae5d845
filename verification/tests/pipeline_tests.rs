use planetarium::camera::Camera;
use planetarium::color::Color;
use planetarium::fixed::{fcos, fsin, isqrt, FP, HALF_PI_FP};
use planetarium::framebuffer::Framebuffer;
use planetarium::linalg::{mat_identity, Vec2, Vec3};
use planetarium::pipeline::{
    create_noise, handle_input, render, transform_and_rasterize, unit_sphere, InputState, Uniforms,
};
use planetarium::shaders::{shade, ShaderKind};
use planetarium::transform::{
    create_model_matrix, create_perspective_matrix, create_view_matrix, create_viewport_matrix,
};
use planetarium::vertex::Fragment;

fn no_keys() -> InputState {
    InputState {
        key1: false,
        key2: false,
        key3: false,
        key4: false,
        key5: false,
        key6: false,
        key7: false,
        key8: false,
        orbit_left: false,
        orbit_right: false,
        pitch_up: false,
        pitch_down: false,
        move_left: false,
        move_right: false,
        move_up: false,
        move_down: false,
        zoom_in: false,
        zoom_out: false,
    }
}

fn demo_uniforms() -> Uniforms {
    let eye = Vec3 { x: 0, y: 0, z: 5 * FP };
    let center = Vec3 { x: 0, y: 0, z: 0 };
    let up = Vec3 { x: 0, y: FP, z: 0 };
    Uniforms {
        model_matrix: create_model_matrix(Vec3 { x: 0, y: 0, z: 0 }, FP, Vec3 { x: 0, y: 0, z: 0 }),
        view_matrix: create_view_matrix(eye, center, up),
        projection_matrix: create_perspective_matrix(800, 600),
        viewport_matrix: create_viewport_matrix(800, 600),
        time: 0,
        noise: create_noise(),
    }
}

fn demo_fragment() -> Fragment {
    Fragment {
        x: 10,
        y: 12,
        depth: 1000,
        normal: Vec3 { x: 0, y: 30000, z: 50000 },
        tex_coords: Vec2 { x: 20000, y: 40000 },
        intensity: 50000,
    }
}

#[test]
fn shader_determinism() {
    let u = demo_uniforms();
    let f = demo_fragment();
    for kind in [
        ShaderKind::Rocky,
        ShaderKind::GasGiant,
        ShaderKind::GasGiant2,
        ShaderKind::Volcanic,
        ShaderKind::Icy,
        ShaderKind::Desert,
        ShaderKind::Water,
        ShaderKind::Moon,
        ShaderKind::Ring,
    ] {
        let c1 = shade(kind, &f, &u);
        let c2 = shade(kind, &f, &u);
        assert_eq!(c1, c2);
    }
}

#[test]
fn end_to_end_sphere_fragments_in_bounds() {
    let mesh = unit_sphere(8, 8);
    assert_eq!(mesh.len(), 6 * 8 * 8);
    let u = demo_uniforms();
    let frags = transform_and_rasterize(&u, &mesh);
    assert!(!frags.is_empty());
    for f in &frags {
        assert!(f.x >= 0 && f.x < 800);
        assert!(f.y >= 0 && f.y < 600);
        // Shading an accepted fragment with the rocky shader succeeds.
        let _ = shade(ShaderKind::Rocky, f, &u);
    }
}

#[test]
fn render_full_frame() {
    let mut fb = Framebuffer::new(800, 600);
    fb.set_background_color(0x333355);
    fb.clear();
    let mesh = unit_sphere(8, 8);
    let ring: Vec<planetarium::vertex::Vertex> = Vec::new();
    let u = demo_uniforms();
    render(&mut fb, &u, &mesh, &ring, ShaderKind::Rocky, false);
    // Something was drawn over the background.
    assert!(fb.buffer.iter().any(|&c| c != 0x333355));
    assert_eq!(fb.width, 800);
    assert_eq!(fb.height, 600);
}

#[test]
fn shader_selection_keys() {
    let mut cam = Camera::new(
        Vec3 { x: 0, y: 0, z: 5 * FP },
        Vec3 { x: 0, y: 0, z: 0 },
        Vec3 { x: 0, y: FP, z: 0 },
    );
    let mut kind = ShaderKind::Rocky;
    let mut ring = true;
    // The second gas giant leaves the ring flag as it was.
    let mut input = no_keys();
    input.key2 = true;
    handle_input(&input, &mut cam, &mut kind, &mut ring);
    assert_eq!(kind, ShaderKind::GasGiant);
    assert!(ring);
    // Every other selection forces the flag.
    let mut input = no_keys();
    input.key7 = true;
    handle_input(&input, &mut cam, &mut kind, &mut ring);
    assert_eq!(kind, ShaderKind::Moon);
    assert!(!ring);
    let mut input = no_keys();
    input.key8 = true;
    handle_input(&input, &mut cam, &mut kind, &mut ring);
    assert_eq!(kind, ShaderKind::GasGiant2);
    assert!(ring);
}

#[test]
fn camera_moves_with_input() {
    let mut cam = Camera::new(
        Vec3 { x: 0, y: 0, z: 5 * FP },
        Vec3 { x: 0, y: 0, z: 0 },
        Vec3 { x: 0, y: FP, z: 0 },
    );
    let mut kind = ShaderKind::Rocky;
    let mut ring = false;
    let mut input = no_keys();
    input.move_right = true;
    handle_input(&input, &mut cam, &mut kind, &mut ring);
    assert_eq!(cam.center.x, FP);
    assert_eq!(cam.eye.x, FP);
    assert_eq!(cam.eye.z, 5 * FP);
    // Zooming in moves the eye toward the center.
    let before = cam.eye.z;
    let mut input = no_keys();
    input.zoom_in = true;
    handle_input(&input, &mut cam, &mut kind, &mut ring);
    assert!(cam.eye.z < before);
    // Orbiting keeps the center fixed.
    let center = cam.center;
    let mut input = no_keys();
    input.orbit_left = true;
    handle_input(&input, &mut cam, &mut kind, &mut ring);
    assert_eq!(cam.center, center);
}

#[test]
fn color_arithmetic_exact() {
    let c = Color::new(0x12, 0x34, 0x56);
    assert_eq!(c.to_hex(), 0x123456);
    assert_eq!(Color::from_hex(0xABCDEF), Color::new(0xAB, 0xCD, 0xEF));
    // Full intensity keeps the color, zero extinguishes it.
    assert_eq!(c.scale(FP), c);
    assert_eq!(c.scale(0), Color::new(0, 0, 0));
    assert_eq!(Color::new(100, 100, 100).scale(FP / 2), Color::new(50, 50, 50));
    // Lerp endpoints.
    let d = Color::new(200, 100, 0);
    assert_eq!(c.lerp(d, 0), c);
    assert_eq!(c.lerp(d, FP), d);
    // Saturating add.
    assert_eq!(Color::new(200, 200, 200).add(Color::new(100, 10, 0)), Color::new(255, 210, 200));
}

#[test]
fn trig_and_sqrt_values() {
    assert_eq!(fsin(0), 0);
    // Rounding makes the wave exact at the quarter-turn lattice points.
    assert_eq!(fcos(0), FP);
    assert_eq!(fsin(HALF_PI_FP), FP);
    assert_eq!(fsin(HALF_PI_FP * 3), -FP);
    assert_eq!(isqrt(0), 0);
    assert_eq!(isqrt(16), 4);
    assert_eq!(isqrt(17), 4);
    assert_eq!(isqrt(24), 4);
    assert_eq!(isqrt(25), 5);
    assert_eq!(isqrt(u64::MAX), 0xFFFF_FFFF);
}

#[test]
fn noise_is_deterministic_and_bounded() {
    let n = create_noise();
    assert_eq!(n.seed, 1337);
    let mut samples = Vec::new();
    for i in 0..50i64 {
        let s = n.sample2(i * 12345, i * 54321 - 1000000);
        assert!(s >= -FP && s <= FP);
        samples.push(s);
    }
    for i in 0..50i64 {
        let s = n.sample2(i * 12345, i * 54321 - 1000000);
        assert_eq!(s, samples[i as usize]);
    }
    // The field is not constant.
    assert!(samples.iter().any(|&s| s != samples[0]));
}

#[test]
fn viewport_matrix_entries() {
    let m = create_viewport_matrix(800, 600);
    assert_eq!(m.m00, 800 * 0x8000);
    assert_eq!(m.m03, 800 * 0x8000);
    assert_eq!(m.m11, -(600 * 0x8000));
    assert_eq!(m.m13, 600 * 0x8000);
    assert_eq!(m.m22, FP);
    assert_eq!(m.m33, FP);
}

#[test]
fn identity_model_matrix_from_zero_inputs() {
    let m = create_model_matrix(Vec3 { x: 0, y: 0, z: 0 }, FP, Vec3 { x: 0, y: 0, z: 0 });
    let id = mat_identity();
    assert_eq!(m, id);
}
