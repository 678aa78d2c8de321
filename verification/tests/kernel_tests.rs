//! Tests of the fixed-point arithmetic and the edge-detection kernel.

use edge_detection::fixed::{abs, clamp, fp_mul, max, FP_ONE, FP_MAX};
use edge_detection::kernel::{
    apply_edge_detection, compensated, distorted_axis, dot, fragment, radius_of, sin_fp, sobel_mag,
    steepness, texel_of, uv_of, Patch,
};
use edge_detection::key::EdgeDetectionKey;
use edge_detection::params::{EdgeDetection, EdgeDetectionUniform};
use edge_detection::texture::{LinearRgba, Texture, Vec2, Vec3};

fn rgba(red: i64, green: i64, blue: i64) -> LinearRgba {
    LinearRgba {
        red,
        green,
        blue,
        alpha: FP_ONE,
    }
}

fn flat_color(width: usize, height: usize, c: LinearRgba) -> Texture<LinearRgba> {
    Texture {
        width,
        height,
        texels: vec![c; width * height],
    }
}

fn flat_depth(width: usize, height: usize, d: i64) -> Texture<i64> {
    Texture {
        width,
        height,
        texels: vec![d; width * height],
    }
}

fn facing_normals(width: usize, height: usize) -> Texture<Vec3> {
    Texture {
        width,
        height,
        texels: vec![
            Vec3 {
                x: 0,
                y: 0,
                z: FP_ONE
            };
            width * height
        ],
    }
}

fn head_on_view() -> Vec3 {
    Vec3 {
        x: 0,
        y: 0,
        z: FP_ONE,
    }
}

fn key_all(enable_depth: bool, enable_normal: bool, enable_color: bool) -> EdgeDetectionKey {
    EdgeDetectionKey {
        enable_depth,
        enable_normal,
        enable_color,
        hdr: false,
        multisampled: false,
    }
}

#[test]
fn fp_mul_is_exact_on_scaled_products() {
    assert_eq!(fp_mul(2_500_000, 400_000), 1_000_000);
    assert_eq!(fp_mul(-1_500_000, 500_000), -750_000);
    assert_eq!(fp_mul(1, 1), 0);
    assert_eq!(fp_mul(0, 123_456), 0);
    assert_eq!(fp_mul(FP_ONE, FP_ONE), FP_ONE);
}

#[test]
fn clamp_abs_max_behave() {
    assert_eq!(clamp(5, 0, 3), 3);
    assert_eq!(clamp(-5, 0, 3), 0);
    assert_eq!(clamp(2, 0, 3), 2);
    assert_eq!(abs(-7), 7);
    assert_eq!(abs(7), 7);
    assert_eq!(max(3, 9), 9);
}

#[test]
fn sine_hits_the_cardinal_points() {
    assert_eq!(sin_fp(0), 0);
    assert_eq!(sin_fp(500_000), FP_ONE);
    assert_eq!(sin_fp(1_000_000), 0);
    assert_eq!(sin_fp(1_500_000), -FP_ONE);
    assert_eq!(sin_fp(2_000_000), 0);
    assert_eq!(sin_fp(2_500_000), FP_ONE);
}

#[test]
fn sobel_magnitude_of_a_vertical_step() {
    let p = Patch {
        s00: 0,
        s01: 0,
        s02: FP_ONE,
        s10: 0,
        s11: 0,
        s12: FP_ONE,
        s20: 0,
        s21: 0,
        s22: FP_ONE,
    };
    assert_eq!(sobel_mag(&p), 4 * FP_ONE);
    let uniform = Patch {
        s00: 7,
        s01: 7,
        s02: 7,
        s10: 7,
        s11: 7,
        s12: 7,
        s20: 7,
        s21: 7,
        s22: 7,
    };
    assert_eq!(sobel_mag(&uniform), 0);
}

#[test]
fn thickness_rounds_to_texel_radius() {
    assert_eq!(radius_of(0), 0);
    assert_eq!(radius_of(FP_ONE), 1);
    assert_eq!(radius_of(1_499_999), 1);
    assert_eq!(radius_of(1_500_000), 2);
}

#[test]
fn texel_lookup_clamps_and_roundtrips() {
    assert_eq!(texel_of(uv_of(5), 8), 5);
    assert_eq!(texel_of(uv_of(0), 8), 0);
    assert_eq!(texel_of(uv_of(7), 8), 7);
    assert_eq!(texel_of(-100, 8), 0);
    assert_eq!(texel_of(100 * FP_ONE, 8), 7);
}

#[test]
fn zero_strength_distortion_leaves_the_axis() {
    assert_eq!(distorted_axis(uv_of(3), 123_456, 0), uv_of(3));
}

#[test]
fn full_strength_distortion_shifts_one_texel() {
    // At the first texel center the sine peaks, so a full-strength
    // distortion moves the sampling center one texel to the right.
    let uv = uv_of(0);
    assert_eq!(distorted_axis(uv, FP_ONE, FP_ONE), uv + FP_ONE);
    assert_eq!(texel_of(distorted_axis(uv, FP_ONE, FP_ONE), 4), 1);
}

#[test]
fn head_on_surface_has_zero_steepness() {
    let n = head_on_view();
    assert_eq!(dot(n, n), FP_ONE);
    assert_eq!(steepness(n, n), 0);
    let sideways = Vec3 {
        x: FP_ONE,
        y: 0,
        z: 0,
    };
    assert_eq!(steepness(sideways, head_on_view()), FP_ONE);
}

#[test]
fn steep_angle_compensation_scales_past_threshold() {
    // Past the threshold the gradient is halved; below it, untouched.
    assert_eq!(compensated(2_000_000, 600_000, 500_000, 500_000), 1_000_000);
    assert_eq!(compensated(2_000_000, 400_000, 500_000, 500_000), 2_000_000);
    // A multiplier of one unit changes nothing even past the threshold.
    assert_eq!(compensated(2_000_000, 600_000, 500_000, FP_ONE), 2_000_000);
    // Increasing steepness never raises the effective gradient.
    let lo = compensated(2_000_000, 400_000, 500_000, 500_000);
    let hi = compensated(2_000_000, 900_000, 500_000, 500_000);
    assert!(hi <= lo);
}

#[test]
fn all_channels_disabled_is_pass_through() {
    let color = flat_color(4, 4, rgba(250_000, 500_000, 750_000));
    let depth = flat_depth(4, 4, 5_000_000);
    let normal = facing_normals(4, 4);
    let u = EdgeDetectionUniform::from(&EdgeDetection::default());
    let key = key_all(false, false, false);
    let out = apply_edge_detection(&key, &u, &color, &depth, &normal, head_on_view());
    assert_eq!(out.texels, color.texels);
}

#[test]
fn flat_plane_head_on_produces_no_edges() {
    // A flat, uniformly colored plane facing the camera head-on, with
    // the default thresholds, is left untouched by all three channels.
    let color = flat_color(5, 4, rgba(500_000, 500_000, 500_000));
    let depth = flat_depth(5, 4, 3_000_000);
    let normal = facing_normals(5, 4);
    let ed = EdgeDetection::default();
    assert_eq!(ed.depth_threshold, FP_ONE);
    assert_eq!(ed.normal_threshold, 800_000);
    assert_eq!(ed.color_threshold, 0);
    assert_eq!(ed.steep_angle_threshold, 500_000);
    let u = EdgeDetectionUniform::from(&ed);
    let key = key_all(true, true, true);
    let out = apply_edge_detection(&key, &u, &color, &depth, &normal, head_on_view());
    assert_eq!(out.width, 5);
    assert_eq!(out.height, 4);
    assert_eq!(out.texels, color.texels);
}

#[test]
fn color_boundary_between_two_cubes_is_marked() {
    // Two regions of different colors share a vertical boundary; with
    // only the color channel enabled and a zero threshold, exactly the
    // boundary pixels take the edge color and the interiors stay.
    let width = 4;
    let height = 2;
    let red = rgba(FP_ONE, 0, 0);
    let blue = rgba(0, 0, FP_ONE);
    let mut texels = Vec::new();
    for _y in 0..height {
        for x in 0..width {
            texels.push(if x < 2 { red } else { blue });
        }
    }
    let color = Texture {
        width,
        height,
        texels,
    };
    let depth = flat_depth(width, height, 3_000_000);
    let normal = facing_normals(width, height);
    let mut ed = EdgeDetection::default();
    ed.color_threshold = 0;
    ed.edge_color = LinearRgba {
        red: 0,
        green: FP_ONE,
        blue: 0,
        alpha: 0,
    };
    let u = EdgeDetectionUniform::from(&ed);
    let key = key_all(false, false, true);
    let out = apply_edge_detection(&key, &u, &color, &depth, &normal, head_on_view());
    let edge = LinearRgba {
        red: 0,
        green: FP_ONE,
        blue: 0,
        alpha: FP_ONE,
    };
    for y in 0..height {
        assert_eq!(out.texels[y * width + 0], red);
        assert_eq!(out.texels[y * width + 1], edge);
        assert_eq!(out.texels[y * width + 2], edge);
        assert_eq!(out.texels[y * width + 3], blue);
    }
}

#[test]
fn edge_pixels_are_opaque() {
    // The composited edge color is opaque whatever alpha the
    // configuration carried.
    let color = flat_color(2, 1, rgba(0, 0, 0));
    let mut texels = color.texels.clone();
    texels[1] = rgba(FP_ONE, FP_ONE, FP_ONE);
    let color = Texture {
        width: 2,
        height: 1,
        texels,
    };
    let depth = flat_depth(2, 1, 0);
    let normal = facing_normals(2, 1);
    let mut ed = EdgeDetection::default();
    ed.edge_color = LinearRgba {
        red: FP_ONE,
        green: 0,
        blue: 0,
        alpha: 123,
    };
    let u = EdgeDetectionUniform::from(&ed);
    let key = key_all(false, false, true);
    let out = apply_edge_detection(&key, &u, &color, &depth, &normal, head_on_view());
    assert_eq!(out.texels[0].alpha, FP_ONE);
    assert_eq!(out.texels[0].red, FP_ONE);
}

#[test]
fn threshold_above_any_gradient_never_trips() {
    // The color channel is enabled but its threshold exceeds every
    // gradient the scene can produce: the output is the source exactly.
    let width = 4;
    let height = 2;
    let red = rgba(FP_ONE, 0, 0);
    let blue = rgba(0, 0, FP_ONE);
    let mut texels = Vec::new();
    for _y in 0..height {
        for x in 0..width {
            texels.push(if x < 2 { red } else { blue });
        }
    }
    let color = Texture {
        width,
        height,
        texels,
    };
    let depth = flat_depth(width, height, 3_000_000);
    let normal = facing_normals(width, height);
    let mut ed = EdgeDetection::default();
    ed.color_threshold = FP_MAX;
    let u = EdgeDetectionUniform::from(&ed);
    let key = key_all(false, false, true);
    let out = apply_edge_detection(&key, &u, &color, &depth, &normal, head_on_view());
    assert_eq!(out.texels, color.texels);
}

#[test]
fn zero_strength_matches_distortion_free_kernel() {
    // A zero distortion strength is a true no-op: whatever the
    // frequency says, the result equals the run with no distortion
    // configured at all.
    let color = flat_color(3, 3, rgba(100_000, 200_000, 300_000));
    let depth = flat_depth(3, 3, 2_000_000);
    let normal = facing_normals(3, 3);
    let mut with_freq = EdgeDetection::default();
    with_freq.uv_distortion_frequency = Vec2 {
        x: 150_000_000,
        y: 99_000_000,
    };
    with_freq.uv_distortion_strength = Vec2 { x: 0, y: 0 };
    let plain = EdgeDetection::default();
    let key = key_all(true, true, true);
    let a = apply_edge_detection(
        &key,
        &EdgeDetectionUniform::from(&with_freq),
        &color,
        &depth,
        &normal,
        head_on_view(),
    );
    let b = apply_edge_detection(
        &key,
        &EdgeDetectionUniform::from(&plain),
        &color,
        &depth,
        &normal,
        head_on_view(),
    );
    assert_eq!(a.texels, b.texels);
}

#[test]
fn depth_discontinuity_trips_only_the_depth_channel() {
    // A depth step far larger than the threshold marks the boundary
    // even though color and normals are uniform.
    let width = 4;
    let height = 1;
    let color = flat_color(width, height, rgba(500_000, 500_000, 500_000));
    let mut depth_texels = Vec::new();
    for x in 0..width {
        depth_texels.push(if x < 2 { 1_000_000 } else { 20_000_000 });
    }
    let depth = Texture {
        width,
        height,
        texels: depth_texels,
    };
    let normal = facing_normals(width, height);
    let u = EdgeDetectionUniform::from(&EdgeDetection::default());
    let key = key_all(true, false, false);
    let out = apply_edge_detection(&key, &u, &color, &depth, &normal, head_on_view());
    let edge = rgba(0, 0, 0);
    assert_eq!(out.texels[0], color.texels[0]);
    assert_eq!(out.texels[1], edge);
    assert_eq!(out.texels[2], edge);
    assert_eq!(out.texels[3], color.texels[3]);
}

#[test]
fn fragment_matches_apply_per_pixel() {
    let color = flat_color(3, 2, rgba(400_000, 100_000, 900_000));
    let depth = flat_depth(3, 2, 1_000_000);
    let normal = facing_normals(3, 2);
    let u = EdgeDetectionUniform::from(&EdgeDetection::default());
    let key = key_all(true, true, true);
    let out = apply_edge_detection(&key, &u, &color, &depth, &normal, head_on_view());
    for y in 0..2 {
        for x in 0..3 {
            let f = fragment(&key, &u, &color, &depth, &normal, head_on_view(), x, y);
            assert_eq!(out.texels[y * 3 + x], f);
        }
    }
}

#[test]
fn sampling_clamps_at_the_border() {
    let mut texels = Vec::new();
    for i in 0..6 {
        texels.push(i as i64);
    }
    let t = Texture {
        width: 3,
        height: 2,
        texels,
    };
    assert_eq!(t.sample(-5, -5), 0);
    assert_eq!(t.sample(10, 10), 5);
    assert_eq!(t.sample(1, 1), 4);
    assert_eq!(t.at(2, 0), 2);
}
