//! The edge-detection kernel.
//!
//! A fixed-point model of the fragment program: for every output pixel,
//! independently, optionally perturb the sampling position with a sine
//! distortion, estimate a Sobel gradient magnitude per enabled channel
//! (depth, normal, color) over a neighborhood whose radius the channel's
//! thickness sets, compensate the depth gradient on surfaces seen at a
//! steep angle, and classify the pixel as an edge when any enabled
//! channel's gradient exceeds its threshold. An edge pixel takes the
//! configured edge color, opaque; any other pixel passes the source
//! color sample through unchanged.
//!
//! Coordinates are carried in fixed-point texel units, and the
//! distortion frequency counts periods per texel. The channel selection
//! comes from the pipeline-variant key, as the compiled variants do it;
//! a disabled channel never contributes.

use vstd::prelude::*;
use vstd::arithmetic::div_mod::{lemma_div_is_ordered, lemma_fundamental_div_mod_converse};
use crate::fixed::{
    FP_ONE, FP_HALF, FP_MAX, fp_bounded, fp_unit, fp_scale_down, spec_fp_mul, fp_mul, spec_clamp,
    clamp, spec_abs, abs, spec_max, max, lemma_mul_bound, lemma_fp_scale_down_monotonic,
    lemma_fp_scale_down_exact, lemma_fp_mul_le, lemma_fp_mul_zero,
};
use crate::texture::{
    MAX_DIM, Vec3, LinearRgba, Texture, depth_texture_bounded, normal_texture_bounded,
    color_texture_bounded,
};
use crate::params::EdgeDetectionUniform;
use crate::key::EdgeDetectionKey;

verus! {

/// One period of the distortion sine, in fixed-point.
pub const FP_PERIOD: i64 = 2_000_000;

/// The fixed-point sine approximation: a parabolic arc per half period,
/// ranging over `[-FP_ONE, FP_ONE]`, with one full period every
/// [`FP_PERIOD`] units of the argument.
pub open spec fn spec_sin_fp(t: int) -> int {
    let p = t % (FP_PERIOD as int);
    if p < FP_ONE {
        (4 * p * (FP_ONE - p)) / (FP_ONE as int)
    } else {
        -((4 * (p - FP_ONE) * (FP_PERIOD - p)) / (FP_ONE as int))
    }
}

/// The parabolic arc stays within one unit.
pub proof fn lemma_parabola_bounds(q: int)
    requires
        0 <= q < FP_ONE,
    ensures
        0 <= (4 * q * (FP_ONE - q)) / (FP_ONE as int) <= FP_ONE,
{
    let d = FP_ONE as int;
    assert(0 <= 4 * q * (d - q) <= d * d) by (nonlinear_arith)
        requires
            0 <= q < d,
    ;
    lemma_div_is_ordered(0, 4 * q * (d - q), d);
    lemma_div_is_ordered(4 * q * (d - q), d * d, d);
    lemma_fp_scale_down_exact(d);
}

/// The sine approximation stays within one unit.
pub proof fn lemma_sin_fp_bounds(t: int)
    requires
        t >= 0,
    ensures
        fp_unit(spec_sin_fp(t)),
{
    let p = t % (FP_PERIOD as int);
    assert(0 <= p < FP_PERIOD);
    if p < FP_ONE {
        lemma_parabola_bounds(p);
    } else {
        lemma_parabola_bounds(p - FP_ONE);
        assert(FP_PERIOD - p == FP_ONE - (p - FP_ONE));
    }
}

/// Executable sine approximation.
pub fn sin_fp(t: i64) -> (r: i64)
    requires
        t >= 0,
    ensures
        r == spec_sin_fp(t as int),
        fp_unit(r as int),
{
    proof {
        lemma_sin_fp_bounds(t as int);
    }
    let p: i64 = ((t as u64) % (FP_PERIOD as u64)) as i64;
    if p < FP_ONE {
        ((4 * (p as u64) * ((FP_ONE - p) as u64)) / (FP_ONE as u64)) as i64
    } else {
        -(((4 * ((p - FP_ONE) as u64) * ((FP_PERIOD - p) as u64)) / (FP_ONE as u64)) as i64)
    }
}

/// A product of unit-range factors stays within one unit.
pub proof fn lemma_fp_mul_unit(a: int, b: int)
    requires
        fp_unit(a),
        fp_unit(b),
    ensures
        fp_unit(spec_fp_mul(a, b)),
{
    let d = FP_ONE as int;
    lemma_mul_bound(a, b, d, d);
    lemma_fp_scale_down_monotonic(a * b, d * d);
    lemma_fp_scale_down_monotonic(-(d * d), a * b);
    lemma_fp_scale_down_exact(d);
    assert(fp_scale_down(-(d * d)) == -d);
}

/// The fixed-point position of a texel's center along one axis.
pub open spec fn spec_uv_of(i: int) -> int {
    i * FP_ONE + FP_HALF
}

/// Executable texel-center position.
pub fn uv_of(i: usize) -> (r: i64)
    requires
        i < MAX_DIM,
    ensures
        r == spec_uv_of(i as int),
        FP_HALF <= r < MAX_DIM * FP_ONE,
{
    (i as i64) * FP_ONE + FP_HALF
}

/// One axis of the UV distortion: perturb a position by the strength
/// times a sine of the position scaled by the frequency.
pub open spec fn spec_distorted_axis(uv: int, freq: int, strength: int) -> int {
    uv + spec_fp_mul(strength, spec_sin_fp(spec_fp_mul(uv, freq)))
}

/// A zero strength leaves the axis exactly where it was.
pub proof fn lemma_zero_strength_axis(uv: int, freq: int)
    ensures
        spec_distorted_axis(uv, freq, 0) == uv,
{
    lemma_fp_mul_zero(spec_sin_fp(spec_fp_mul(uv, freq)));
}

/// Executable distortion of one axis.
pub fn distorted_axis(uv: i64, freq: i64, strength: i64) -> (r: i64)
    requires
        0 <= uv <= MAX_DIM * FP_ONE,
        0 <= freq <= crate::params::FREQ_MAX,
        0 <= strength <= FP_ONE,
    ensures
        r == spec_distorted_axis(uv as int, freq as int, strength as int),
        uv - FP_ONE <= r <= uv + FP_ONE,
{
    proof {
        lemma_mul_bound(uv as int, freq as int, MAX_DIM * FP_ONE, crate::params::FREQ_MAX as int);
        assert(0 <= uv * freq) by (nonlinear_arith)
            requires
                0 <= uv,
                0 <= freq,
        ;
        lemma_fp_scale_down_monotonic(0, uv as int * freq as int);
    }
    let arg = fp_mul(uv, freq);
    let s = sin_fp(arg);
    proof {
        lemma_mul_bound(strength as int, s as int, FP_ONE as int, FP_ONE as int);
        lemma_fp_mul_unit(strength as int, s as int);
    }
    let offset = fp_mul(strength, s);
    uv + offset
}

/// The texel an axis position falls on, clamped to the axis range.
pub open spec fn spec_texel_of(v: int, dim: int) -> int {
    spec_clamp(fp_scale_down(v), 0, dim - 1)
}

/// The center of a texel falls back on that texel.
pub proof fn lemma_texel_roundtrip(i: int, dim: int)
    requires
        0 <= i < dim,
    ensures
        spec_texel_of(spec_uv_of(i), dim) == i,
{
    lemma_fundamental_div_mod_converse(i * FP_ONE + FP_HALF, FP_ONE as int, i, FP_HALF as int);
    assert(spec_uv_of(i) >= 0) by (nonlinear_arith)
        requires
            i >= 0,
    ;
}

/// Executable texel lookup along one axis.
pub fn texel_of(v: i64, dim: usize) -> (r: usize)
    requires
        1 <= dim <= MAX_DIM,
        -(2 * FP_ONE) <= v <= (MAX_DIM + 2) * FP_ONE,
    ensures
        r == spec_texel_of(v as int, dim as int),
        r < dim,
{
    if v < 0 {
        proof {
            lemma_div_is_ordered(0, -(v as int), FP_ONE as int);
        }
        0
    } else {
        let t = (v as u64) / (FP_ONE as u64);
        if t >= dim as u64 {
            dim - 1
        } else {
            t as usize
        }
    }
}

/// A 3-by-3 neighborhood of one scalar channel, rows top to bottom,
/// columns left to right.
#[derive(Clone, Copy, Debug, PartialEq, Eq, Structural)]
pub struct Patch {
    pub s00: i64,
    pub s01: i64,
    pub s02: i64,
    pub s10: i64,
    pub s11: i64,
    pub s12: i64,
    pub s20: i64,
    pub s21: i64,
    pub s22: i64,
}

/// Every sample of the patch is bounded.
pub open spec fn spec_patch_bounded(p: Patch) -> bool {
    &&& fp_bounded(p.s00 as int)
    &&& fp_bounded(p.s01 as int)
    &&& fp_bounded(p.s02 as int)
    &&& fp_bounded(p.s10 as int)
    &&& fp_bounded(p.s11 as int)
    &&& fp_bounded(p.s12 as int)
    &&& fp_bounded(p.s20 as int)
    &&& fp_bounded(p.s21 as int)
    &&& fp_bounded(p.s22 as int)
}

/// The Sobel-weighted finite difference along the horizontal axis.
pub open spec fn spec_sobel_gx(p: Patch) -> int {
    (p.s02 + 2 * p.s12 + p.s22) - (p.s00 + 2 * p.s10 + p.s20)
}

/// The Sobel-weighted finite difference along the vertical axis.
pub open spec fn spec_sobel_gy(p: Patch) -> int {
    (p.s20 + 2 * p.s21 + p.s22) - (p.s00 + 2 * p.s01 + p.s02)
}

/// The gradient magnitude of one channel: the larger of the two axis
/// magnitudes.
pub open spec fn spec_sobel_mag(p: Patch) -> int {
    spec_max(spec_abs(spec_sobel_gx(p)), spec_abs(spec_sobel_gy(p)))
}

/// Executable Sobel gradient magnitude.
pub fn sobel_mag(p: &Patch) -> (r: i64)
    requires
        spec_patch_bounded(*p),
    ensures
        r == spec_sobel_mag(*p),
        0 <= r <= 8 * FP_MAX,
{
    let gx = (p.s02 + 2 * p.s12 + p.s22) - (p.s00 + 2 * p.s10 + p.s20);
    let gy = (p.s20 + 2 * p.s21 + p.s22) - (p.s00 + 2 * p.s01 + p.s02);
    max(abs(gx), abs(gy))
}

/// A clamped sample of a bounded depth texture is bounded.
pub proof fn lemma_depth_sample_bounded(t: Texture<i64>, x: int, y: int)
    requires
        t.wf(),
        depth_texture_bounded(t),
    ensures
        fp_bounded(t.spec_sample(x, y) as int),
{
    let cx = spec_clamp(x, 0, t.width - 1);
    let cy = spec_clamp(y, 0, t.height - 1);
    t.lemma_index_in_bounds(cx, cy);
    assert(fp_bounded(t.texels@[cy * t.width + cx] as int));
}

/// A clamped sample of a bounded normal texture is a unit-range vector.
pub proof fn lemma_normal_sample_unit(t: Texture<Vec3>, x: int, y: int)
    requires
        t.wf(),
        normal_texture_bounded(t),
    ensures
        fp_unit(t.spec_sample(x, y).x as int),
        fp_unit(t.spec_sample(x, y).y as int),
        fp_unit(t.spec_sample(x, y).z as int),
{
    let cx = spec_clamp(x, 0, t.width - 1);
    let cy = spec_clamp(y, 0, t.height - 1);
    t.lemma_index_in_bounds(cx, cy);
    assert(fp_unit(t.texels@[cy * t.width + cx].x as int));
}

/// A clamped sample of a bounded color texture has bounded channels.
pub proof fn lemma_color_sample_bounded(t: Texture<LinearRgba>, x: int, y: int)
    requires
        t.wf(),
        color_texture_bounded(t),
    ensures
        fp_bounded(t.spec_sample(x, y).red as int),
        fp_bounded(t.spec_sample(x, y).green as int),
        fp_bounded(t.spec_sample(x, y).blue as int),
        fp_bounded(t.spec_sample(x, y).alpha as int),
{
    let cx = spec_clamp(x, 0, t.width - 1);
    let cy = spec_clamp(y, 0, t.height - 1);
    t.lemma_index_in_bounds(cx, cy);
    assert(fp_bounded(t.texels@[cy * t.width + cx].red as int));
}

/// The 3-by-3 neighborhood of a scalar texture around a center, with
/// the given texel radius.
pub open spec fn spec_patch_scalar(t: Texture<i64>, cx: int, cy: int, rad: int) -> Patch {
    Patch {
        s00: t.spec_sample(cx - rad, cy - rad),
        s01: t.spec_sample(cx, cy - rad),
        s02: t.spec_sample(cx + rad, cy - rad),
        s10: t.spec_sample(cx - rad, cy),
        s11: t.spec_sample(cx, cy),
        s12: t.spec_sample(cx + rad, cy),
        s20: t.spec_sample(cx - rad, cy + rad),
        s21: t.spec_sample(cx, cy + rad),
        s22: t.spec_sample(cx + rad, cy + rad),
    }
}

/// Largest texel radius a thickness can round to.
pub const RAD_MAX: i64 = 0x10_0000;

/// Gather the neighborhood of a scalar channel.
pub fn gather_scalar(t: &Texture<i64>, cx: i64, cy: i64, rad: i64) -> (p: Patch)
    requires
        t.wf(),
        depth_texture_bounded(*t),
        0 <= cx < t.width,
        0 <= cy < t.height,
        0 <= rad <= RAD_MAX,
    ensures
        p == spec_patch_scalar(*t, cx as int, cy as int, rad as int),
        spec_patch_bounded(p),
{
    let p = Patch {
        s00: t.sample(cx - rad, cy - rad),
        s01: t.sample(cx, cy - rad),
        s02: t.sample(cx + rad, cy - rad),
        s10: t.sample(cx - rad, cy),
        s11: t.sample(cx, cy),
        s12: t.sample(cx + rad, cy),
        s20: t.sample(cx - rad, cy + rad),
        s21: t.sample(cx, cy + rad),
        s22: t.sample(cx + rad, cy + rad),
    };
    proof {
        lemma_depth_sample_bounded(*t, cx - rad, cy - rad);
        lemma_depth_sample_bounded(*t, cx as int, cy - rad);
        lemma_depth_sample_bounded(*t, cx + rad, cy - rad);
        lemma_depth_sample_bounded(*t, cx - rad, cy as int);
        lemma_depth_sample_bounded(*t, cx as int, cy as int);
        lemma_depth_sample_bounded(*t, cx + rad, cy as int);
        lemma_depth_sample_bounded(*t, cx - rad, cy + rad);
        lemma_depth_sample_bounded(*t, cx as int, cy + rad);
        lemma_depth_sample_bounded(*t, cx + rad, cy + rad);
    }
    p
}

/// One component's neighborhood of a normal texture.
pub open spec fn spec_patch_normal_x(t: Texture<Vec3>, cx: int, cy: int, rad: int) -> Patch {
    Patch {
        s00: t.spec_sample(cx - rad, cy - rad).x,
        s01: t.spec_sample(cx, cy - rad).x,
        s02: t.spec_sample(cx + rad, cy - rad).x,
        s10: t.spec_sample(cx - rad, cy).x,
        s11: t.spec_sample(cx, cy).x,
        s12: t.spec_sample(cx + rad, cy).x,
        s20: t.spec_sample(cx - rad, cy + rad).x,
        s21: t.spec_sample(cx, cy + rad).x,
        s22: t.spec_sample(cx + rad, cy + rad).x,
    }
}

/// The second component's neighborhood of a normal texture.
pub open spec fn spec_patch_normal_y(t: Texture<Vec3>, cx: int, cy: int, rad: int) -> Patch {
    Patch {
        s00: t.spec_sample(cx - rad, cy - rad).y,
        s01: t.spec_sample(cx, cy - rad).y,
        s02: t.spec_sample(cx + rad, cy - rad).y,
        s10: t.spec_sample(cx - rad, cy).y,
        s11: t.spec_sample(cx, cy).y,
        s12: t.spec_sample(cx + rad, cy).y,
        s20: t.spec_sample(cx - rad, cy + rad).y,
        s21: t.spec_sample(cx, cy + rad).y,
        s22: t.spec_sample(cx + rad, cy + rad).y,
    }
}

/// The third component's neighborhood of a normal texture.
pub open spec fn spec_patch_normal_z(t: Texture<Vec3>, cx: int, cy: int, rad: int) -> Patch {
    Patch {
        s00: t.spec_sample(cx - rad, cy - rad).z,
        s01: t.spec_sample(cx, cy - rad).z,
        s02: t.spec_sample(cx + rad, cy - rad).z,
        s10: t.spec_sample(cx - rad, cy).z,
        s11: t.spec_sample(cx, cy).z,
        s12: t.spec_sample(cx + rad, cy).z,
        s20: t.spec_sample(cx - rad, cy + rad).z,
        s21: t.spec_sample(cx, cy + rad).z,
        s22: t.spec_sample(cx + rad, cy + rad).z,
    }
}

/// Gather the three component neighborhoods of the normal texture.
pub fn gather_normal(t: &Texture<Vec3>, cx: i64, cy: i64, rad: i64) -> (p: (Patch, Patch, Patch))
    requires
        t.wf(),
        normal_texture_bounded(*t),
        0 <= cx < t.width,
        0 <= cy < t.height,
        0 <= rad <= RAD_MAX,
    ensures
        p.0 == spec_patch_normal_x(*t, cx as int, cy as int, rad as int),
        p.1 == spec_patch_normal_y(*t, cx as int, cy as int, rad as int),
        p.2 == spec_patch_normal_z(*t, cx as int, cy as int, rad as int),
        spec_patch_bounded(p.0),
        spec_patch_bounded(p.1),
        spec_patch_bounded(p.2),
{
    let v00 = t.sample(cx - rad, cy - rad);
    let v01 = t.sample(cx, cy - rad);
    let v02 = t.sample(cx + rad, cy - rad);
    let v10 = t.sample(cx - rad, cy);
    let v11 = t.sample(cx, cy);
    let v12 = t.sample(cx + rad, cy);
    let v20 = t.sample(cx - rad, cy + rad);
    let v21 = t.sample(cx, cy + rad);
    let v22 = t.sample(cx + rad, cy + rad);
    proof {
        lemma_normal_sample_unit(*t, cx - rad, cy - rad);
        lemma_normal_sample_unit(*t, cx as int, cy - rad);
        lemma_normal_sample_unit(*t, cx + rad, cy - rad);
        lemma_normal_sample_unit(*t, cx - rad, cy as int);
        lemma_normal_sample_unit(*t, cx as int, cy as int);
        lemma_normal_sample_unit(*t, cx + rad, cy as int);
        lemma_normal_sample_unit(*t, cx - rad, cy + rad);
        lemma_normal_sample_unit(*t, cx as int, cy + rad);
        lemma_normal_sample_unit(*t, cx + rad, cy + rad);
    }
    (
        Patch {
            s00: v00.x,
            s01: v01.x,
            s02: v02.x,
            s10: v10.x,
            s11: v11.x,
            s12: v12.x,
            s20: v20.x,
            s21: v21.x,
            s22: v22.x,
        },
        Patch {
            s00: v00.y,
            s01: v01.y,
            s02: v02.y,
            s10: v10.y,
            s11: v11.y,
            s12: v12.y,
            s20: v20.y,
            s21: v21.y,
            s22: v22.y,
        },
        Patch {
            s00: v00.z,
            s01: v01.z,
            s02: v02.z,
            s10: v10.z,
            s11: v11.z,
            s12: v12.z,
            s20: v20.z,
            s21: v21.z,
            s22: v22.z,
        },
    )
}

/// The red channel's neighborhood of a color texture.
pub open spec fn spec_patch_color_red(t: Texture<LinearRgba>, cx: int, cy: int, rad: int) -> Patch {
    Patch {
        s00: t.spec_sample(cx - rad, cy - rad).red,
        s01: t.spec_sample(cx, cy - rad).red,
        s02: t.spec_sample(cx + rad, cy - rad).red,
        s10: t.spec_sample(cx - rad, cy).red,
        s11: t.spec_sample(cx, cy).red,
        s12: t.spec_sample(cx + rad, cy).red,
        s20: t.spec_sample(cx - rad, cy + rad).red,
        s21: t.spec_sample(cx, cy + rad).red,
        s22: t.spec_sample(cx + rad, cy + rad).red,
    }
}

/// The green channel's neighborhood of a color texture.
pub open spec fn spec_patch_color_green(
    t: Texture<LinearRgba>,
    cx: int,
    cy: int,
    rad: int,
) -> Patch {
    Patch {
        s00: t.spec_sample(cx - rad, cy - rad).green,
        s01: t.spec_sample(cx, cy - rad).green,
        s02: t.spec_sample(cx + rad, cy - rad).green,
        s10: t.spec_sample(cx - rad, cy).green,
        s11: t.spec_sample(cx, cy).green,
        s12: t.spec_sample(cx + rad, cy).green,
        s20: t.spec_sample(cx - rad, cy + rad).green,
        s21: t.spec_sample(cx, cy + rad).green,
        s22: t.spec_sample(cx + rad, cy + rad).green,
    }
}

/// The blue channel's neighborhood of a color texture.
pub open spec fn spec_patch_color_blue(
    t: Texture<LinearRgba>,
    cx: int,
    cy: int,
    rad: int,
) -> Patch {
    Patch {
        s00: t.spec_sample(cx - rad, cy - rad).blue,
        s01: t.spec_sample(cx, cy - rad).blue,
        s02: t.spec_sample(cx + rad, cy - rad).blue,
        s10: t.spec_sample(cx - rad, cy).blue,
        s11: t.spec_sample(cx, cy).blue,
        s12: t.spec_sample(cx + rad, cy).blue,
        s20: t.spec_sample(cx - rad, cy + rad).blue,
        s21: t.spec_sample(cx, cy + rad).blue,
        s22: t.spec_sample(cx + rad, cy + rad).blue,
    }
}

/// Gather the three channel neighborhoods of the color texture.
pub fn gather_color(
    t: &Texture<LinearRgba>,
    cx: i64,
    cy: i64,
    rad: i64,
) -> (p: (Patch, Patch, Patch))
    requires
        t.wf(),
        color_texture_bounded(*t),
        0 <= cx < t.width,
        0 <= cy < t.height,
        0 <= rad <= RAD_MAX,
    ensures
        p.0 == spec_patch_color_red(*t, cx as int, cy as int, rad as int),
        p.1 == spec_patch_color_green(*t, cx as int, cy as int, rad as int),
        p.2 == spec_patch_color_blue(*t, cx as int, cy as int, rad as int),
        spec_patch_bounded(p.0),
        spec_patch_bounded(p.1),
        spec_patch_bounded(p.2),
{
    let v00 = t.sample(cx - rad, cy - rad);
    let v01 = t.sample(cx, cy - rad);
    let v02 = t.sample(cx + rad, cy - rad);
    let v10 = t.sample(cx - rad, cy);
    let v11 = t.sample(cx, cy);
    let v12 = t.sample(cx + rad, cy);
    let v20 = t.sample(cx - rad, cy + rad);
    let v21 = t.sample(cx, cy + rad);
    let v22 = t.sample(cx + rad, cy + rad);
    proof {
        lemma_color_sample_bounded(*t, cx - rad, cy - rad);
        lemma_color_sample_bounded(*t, cx as int, cy - rad);
        lemma_color_sample_bounded(*t, cx + rad, cy - rad);
        lemma_color_sample_bounded(*t, cx - rad, cy as int);
        lemma_color_sample_bounded(*t, cx as int, cy as int);
        lemma_color_sample_bounded(*t, cx + rad, cy as int);
        lemma_color_sample_bounded(*t, cx - rad, cy + rad);
        lemma_color_sample_bounded(*t, cx as int, cy + rad);
        lemma_color_sample_bounded(*t, cx + rad, cy + rad);
    }
    (
        Patch {
            s00: v00.red,
            s01: v01.red,
            s02: v02.red,
            s10: v10.red,
            s11: v11.red,
            s12: v12.red,
            s20: v20.red,
            s21: v21.red,
            s22: v22.red,
        },
        Patch {
            s00: v00.green,
            s01: v01.green,
            s02: v02.green,
            s10: v10.green,
            s11: v11.green,
            s12: v12.green,
            s20: v20.green,
            s21: v21.green,
            s22: v22.green,
        },
        Patch {
            s00: v00.blue,
            s01: v01.blue,
            s02: v02.blue,
            s10: v10.blue,
            s11: v11.blue,
            s12: v12.blue,
            s20: v20.blue,
            s21: v21.blue,
            s22: v22.blue,
        },
    )
}

/// The texel radius a thickness rounds to.
pub open spec fn spec_radius(thickness: int) -> int {
    (thickness + FP_HALF) / (FP_ONE as int)
}

/// Executable radius of a channel's neighborhood.
pub fn radius_of(thickness: i64) -> (r: i64)
    requires
        0 <= thickness <= FP_MAX,
    ensures
        r == spec_radius(thickness as int),
        0 <= r <= RAD_MAX,
{
    proof {
        lemma_div_is_ordered(0, thickness as int + FP_HALF, FP_ONE as int);
        lemma_div_is_ordered(thickness as int + FP_HALF, FP_MAX as int + FP_HALF, FP_ONE as int);
        assert((FP_MAX as int + FP_HALF) / (FP_ONE as int) <= RAD_MAX);
    }
    (((thickness + FP_HALF) as u64) / (FP_ONE as u64)) as i64
}

/// The fixed-point dot product of two vectors.
pub open spec fn spec_dot(a: Vec3, b: Vec3) -> int {
    spec_fp_mul(a.x as int, b.x as int) + spec_fp_mul(a.y as int, b.y as int) + spec_fp_mul(
        a.z as int,
        b.z as int,
    )
}

/// Executable dot product of unit-range vectors.
pub fn dot(a: Vec3, b: Vec3) -> (r: i64)
    requires
        fp_unit(a.x as int),
        fp_unit(a.y as int),
        fp_unit(a.z as int),
        fp_unit(b.x as int),
        fp_unit(b.y as int),
        fp_unit(b.z as int),
    ensures
        r == spec_dot(a, b),
        -3 * FP_ONE <= r <= 3 * FP_ONE,
{
    proof {
        lemma_mul_bound(a.x as int, b.x as int, FP_ONE as int, FP_ONE as int);
        lemma_mul_bound(a.y as int, b.y as int, FP_ONE as int, FP_ONE as int);
        lemma_mul_bound(a.z as int, b.z as int, FP_ONE as int, FP_ONE as int);
        lemma_fp_mul_unit(a.x as int, b.x as int);
        lemma_fp_mul_unit(a.y as int, b.y as int);
        lemma_fp_mul_unit(a.z as int, b.z as int);
    }
    fp_mul(a.x, b.x) + fp_mul(a.y, b.y) + fp_mul(a.z, b.z)
}

/// How steeply a surface faces away from the view: one unit minus the
/// clamped cosine of the angle between the surface normal and the view
/// direction. Zero for a head-on surface, one unit at or past grazing.
pub open spec fn spec_steepness(normal: Vec3, view: Vec3) -> int {
    FP_ONE - spec_clamp(spec_dot(normal, view), 0, FP_ONE as int)
}

/// Executable steepness.
pub fn steepness(normal: Vec3, view: Vec3) -> (r: i64)
    requires
        fp_unit(normal.x as int),
        fp_unit(normal.y as int),
        fp_unit(normal.z as int),
        fp_unit(view.x as int),
        fp_unit(view.y as int),
        fp_unit(view.z as int),
    ensures
        r == spec_steepness(normal, view),
        0 <= r <= FP_ONE,
{
    let c = clamp(dot(normal, view), 0, FP_ONE);
    FP_ONE - c
}

/// The effective depth gradient after steep-angle compensation: past
/// the steepness threshold the raw gradient is scaled down by the
/// multiplier, so that the fast depth variation of grazing surfaces is
/// not mistaken for an edge.
pub open spec fn spec_compensated(grad: int, steep: int, threshold: int, multiplier: int) -> int {
    if steep > threshold {
        spec_fp_mul(grad, multiplier)
    } else {
        grad
    }
}

/// Executable steep-angle compensation.
pub fn compensated(grad: i64, steep: i64, threshold: i64, multiplier: i64) -> (r: i64)
    requires
        0 <= grad <= 8 * FP_MAX,
        0 <= multiplier <= FP_ONE,
    ensures
        r == spec_compensated(grad as int, steep as int, threshold as int, multiplier as int),
        0 <= r <= grad,
{
    proof {
        lemma_mul_bound(grad as int, multiplier as int, 8 * FP_MAX as int, FP_ONE as int);
        lemma_fp_mul_le(grad as int, multiplier as int);
    }
    if steep > threshold {
        fp_mul(grad, multiplier)
    } else {
        grad
    }
}

/// Steep-angle compensation is monotonic: for a fixed raw depth
/// gradient, a steeper view angle never raises — and, with a multiplier
/// below one, never raises and possibly lowers — the effective gradient
/// compared against the depth threshold; with a multiplier of exactly
/// one unit it changes nothing at all.
pub proof fn lemma_steep_angle_compensation_monotonic(
    grad: int,
    steep_lo: int,
    steep_hi: int,
    threshold: int,
    multiplier: int,
)
    requires
        0 <= grad,
        0 <= multiplier <= FP_ONE,
        steep_lo <= steep_hi,
    ensures
        spec_compensated(grad, steep_hi, threshold, multiplier) <= spec_compensated(
            grad,
            steep_lo,
            threshold,
            multiplier,
        ),
        multiplier == FP_ONE ==> spec_compensated(grad, steep_hi, threshold, multiplier)
            == spec_compensated(grad, steep_lo, threshold, multiplier),
{
    lemma_fp_mul_le(grad, multiplier);
}

/// The larger of three values.
pub open spec fn spec_max3(a: int, b: int, c: int) -> int {
    spec_max(spec_max(a, b), c)
}

/// The depth channel's raw gradient at a center.
pub open spec fn spec_depth_gradient(
    depth: Texture<i64>,
    cx: int,
    cy: int,
    thickness: int,
) -> int {
    spec_sobel_mag(spec_patch_scalar(depth, cx, cy, spec_radius(thickness)))
}

/// The normal channel's gradient at a center: the largest component
/// gradient of the decoded normal vector.
pub open spec fn spec_normal_gradient(
    normal: Texture<Vec3>,
    cx: int,
    cy: int,
    thickness: int,
) -> int {
    let rad = spec_radius(thickness);
    spec_max3(
        spec_sobel_mag(spec_patch_normal_x(normal, cx, cy, rad)),
        spec_sobel_mag(spec_patch_normal_y(normal, cx, cy, rad)),
        spec_sobel_mag(spec_patch_normal_z(normal, cx, cy, rad)),
    )
}

/// The color channel's gradient at a center: the largest channel
/// gradient of the linear color.
pub open spec fn spec_color_gradient(
    color: Texture<LinearRgba>,
    cx: int,
    cy: int,
    thickness: int,
) -> int {
    let rad = spec_radius(thickness);
    spec_max3(
        spec_sobel_mag(spec_patch_color_red(color, cx, cy, rad)),
        spec_sobel_mag(spec_patch_color_green(color, cx, cy, rad)),
        spec_sobel_mag(spec_patch_color_blue(color, cx, cy, rad)),
    )
}

/// Whether the pixel whose sampling center is `(cx, cy)` lies on an
/// edge: any enabled channel's (possibly compensated) gradient exceeds
/// its threshold. A disabled channel never contributes.
pub open spec fn spec_is_edge_at(
    key: EdgeDetectionKey,
    u: EdgeDetectionUniform,
    color: Texture<LinearRgba>,
    depth: Texture<i64>,
    normal: Texture<Vec3>,
    view: Vec3,
    cx: int,
    cy: int,
) -> bool {
    let depth_edge = key.enable_depth && spec_compensated(
        spec_depth_gradient(depth, cx, cy, u.depth_thickness as int),
        spec_steepness(normal.spec_sample(cx, cy), view),
        u.steep_angle_threshold as int,
        u.steep_angle_multiplier as int,
    ) > u.depth_threshold;
    let normal_edge = key.enable_normal && spec_normal_gradient(
        normal,
        cx,
        cy,
        u.normal_thickness as int,
    ) > u.normal_threshold;
    let color_edge = key.enable_color && spec_color_gradient(
        color,
        cx,
        cy,
        u.color_thickness as int,
    ) > u.color_threshold;
    depth_edge || normal_edge || color_edge
}

/// The output color of the pixel whose sampling center is `(cx, cy)`:
/// the configured edge color, opaque, on an edge; the source color
/// sample, unchanged, anywhere else.
pub open spec fn spec_fragment_at(
    key: EdgeDetectionKey,
    u: EdgeDetectionUniform,
    color: Texture<LinearRgba>,
    depth: Texture<i64>,
    normal: Texture<Vec3>,
    view: Vec3,
    cx: int,
    cy: int,
) -> LinearRgba {
    if spec_is_edge_at(key, u, color, depth, normal, view, cx, cy) {
        LinearRgba {
            red: u.edge_color.red,
            green: u.edge_color.green,
            blue: u.edge_color.blue,
            alpha: FP_ONE,
        }
    } else {
        color.spec_sample(cx, cy)
    }
}

/// The horizontal sampling center of the pixel in column `x`: its
/// texel center, distorted, back on the axis.
pub open spec fn spec_center_x(u: EdgeDetectionUniform, width: int, x: int) -> int {
    spec_texel_of(
        spec_distorted_axis(
            spec_uv_of(x),
            u.uv_distortion_frequency.x as int,
            u.uv_distortion_strength.x as int,
        ),
        width,
    )
}

/// The vertical sampling center of the pixel in row `y`.
pub open spec fn spec_center_y(u: EdgeDetectionUniform, height: int, y: int) -> int {
    spec_texel_of(
        spec_distorted_axis(
            spec_uv_of(y),
            u.uv_distortion_frequency.y as int,
            u.uv_distortion_strength.y as int,
        ),
        height,
    )
}

/// The kernel as the shader's entry point runs it for the pixel at
/// `(x, y)`: distort the sampling position, then classify and composite
/// at the resulting center.
pub open spec fn spec_fragment(
    key: EdgeDetectionKey,
    u: EdgeDetectionUniform,
    color: Texture<LinearRgba>,
    depth: Texture<i64>,
    normal: Texture<Vec3>,
    view: Vec3,
    x: int,
    y: int,
) -> LinearRgba {
    spec_fragment_at(
        key,
        u,
        color,
        depth,
        normal,
        view,
        spec_center_x(u, color.width as int, x),
        spec_center_y(u, color.height as int, y),
    )
}

/// The kernel with the distortion step skipped entirely: the sampling
/// center of the pixel at `(x, y)` is that pixel itself.
pub open spec fn spec_fragment_undistorted(
    key: EdgeDetectionKey,
    u: EdgeDetectionUniform,
    color: Texture<LinearRgba>,
    depth: Texture<i64>,
    normal: Texture<Vec3>,
    view: Vec3,
    x: int,
    y: int,
) -> LinearRgba {
    spec_fragment_at(key, u, color, depth, normal, view, x, y)
}

/// The textures a pass reads agree with the output size and carry
/// decoded, bounded values.
pub open spec fn spec_inputs_wf(
    color: Texture<LinearRgba>,
    depth: Texture<i64>,
    normal: Texture<Vec3>,
    view: Vec3,
) -> bool {
    &&& color.wf()
    &&& depth.wf()
    &&& normal.wf()
    &&& depth.width == color.width
    &&& depth.height == color.height
    &&& normal.width == color.width
    &&& normal.height == color.height
    &&& color_texture_bounded(color)
    &&& depth_texture_bounded(depth)
    &&& normal_texture_bounded(normal)
    &&& fp_unit(view.x as int)
    &&& fp_unit(view.y as int)
    &&& fp_unit(view.z as int)
}

/// The fragment program of the effect, for one pixel.
pub fn fragment(
    key: &EdgeDetectionKey,
    u: &EdgeDetectionUniform,
    color: &Texture<LinearRgba>,
    depth: &Texture<i64>,
    normal: &Texture<Vec3>,
    view: Vec3,
    x: usize,
    y: usize,
) -> (r: LinearRgba)
    requires
        u.valid(),
        spec_inputs_wf(*color, *depth, *normal, view),
        x < color.width,
        y < color.height,
    ensures
        r == spec_fragment(*key, *u, *color, *depth, *normal, view, x as int, y as int),
{
    let uvx = uv_of(x);
    let uvy = uv_of(y);
    let dx = distorted_axis(uvx, u.uv_distortion_frequency.x, u.uv_distortion_strength.x);
    let dy = distorted_axis(uvy, u.uv_distortion_frequency.y, u.uv_distortion_strength.y);
    let cx = texel_of(dx, color.width);
    let cy = texel_of(dy, color.height);
    let cxi = cx as i64;
    let cyi = cy as i64;

    let mut edge: bool = false;
    if key.enable_depth {
        let rad = radius_of(u.depth_thickness);
        let patch = gather_scalar(depth, cxi, cyi, rad);
        let grad = sobel_mag(&patch);
        let n = normal.sample(cxi, cyi);
        proof {
            lemma_normal_sample_unit(*normal, cxi as int, cyi as int);
        }
        let steep = steepness(n, view);
        let eff = compensated(grad, steep, u.steep_angle_threshold, u.steep_angle_multiplier);
        if eff > u.depth_threshold {
            edge = true;
        }
    }
    if !edge && key.enable_normal {
        let rad = radius_of(u.normal_thickness);
        let (px, py, pz) = gather_normal(normal, cxi, cyi, rad);
        let grad = max(max(sobel_mag(&px), sobel_mag(&py)), sobel_mag(&pz));
        if grad > u.normal_threshold {
            edge = true;
        }
    }
    if !edge && key.enable_color {
        let rad = radius_of(u.color_thickness);
        let (pr, pg, pb) = gather_color(color, cxi, cyi, rad);
        let grad = max(max(sobel_mag(&pr), sobel_mag(&pg)), sobel_mag(&pb));
        if grad > u.color_threshold {
            edge = true;
        }
    }

    if edge {
        LinearRgba {
            red: u.edge_color.red,
            green: u.edge_color.green,
            blue: u.edge_color.blue,
            alpha: FP_ONE,
        }
    } else {
        color.sample(cxi, cyi)
    }
}

/// A position in a row strictly above row `y` indexes below the start
/// of row `y`.
pub proof fn lemma_row_index_lt(xx: int, yy: int, w: int, y: int)
    requires
        0 <= xx < w,
        0 <= yy < y,
    ensures
        0 <= yy * w + xx < y * w,
{
    assert(0 <= yy * w + xx < y * w) by (nonlinear_arith)
        requires
            0 <= xx < w,
            0 <= yy < y,
    ;
}

/// Run the kernel over every pixel of the view: the full-screen pass.
/// The output texture has the source's size, and every one of its
/// texels is exactly what the fragment program computes for that pixel.
pub fn apply_edge_detection(
    key: &EdgeDetectionKey,
    u: &EdgeDetectionUniform,
    color: &Texture<LinearRgba>,
    depth: &Texture<i64>,
    normal: &Texture<Vec3>,
    view: Vec3,
) -> (out: Texture<LinearRgba>)
    requires
        u.valid(),
        spec_inputs_wf(*color, *depth, *normal, view),
    ensures
        out.width == color.width,
        out.height == color.height,
        out.wf(),
        forall|x: int, y: int|
            0 <= x < color.width && 0 <= y < color.height ==> #[trigger] out.spec_at(x, y)
                == spec_fragment(*key, *u, *color, *depth, *normal, view, x, y),
{
    let w = color.width;
    let h = color.height;
    let mut texels: Vec<LinearRgba> = Vec::new();
    let mut y: usize = 0;
    while y < h
        invariant
            u.valid(),
            spec_inputs_wf(*color, *depth, *normal, view),
            w == color.width,
            h == color.height,
            y <= h,
            texels@.len() == y * w,
            forall|xx: int, yy: int|
                0 <= xx < w && 0 <= yy < y ==> #[trigger] texels@[yy * w + xx] == spec_fragment(
                    *key,
                    *u,
                    *color,
                    *depth,
                    *normal,
                    view,
                    xx,
                    yy,
                ),
        decreases h - y,
    {
        let mut x: usize = 0;
        while x < w
            invariant
                u.valid(),
                spec_inputs_wf(*color, *depth, *normal, view),
                w == color.width,
                h == color.height,
                y < h,
                x <= w,
                texels@.len() == y * w + x,
                forall|xx: int, yy: int|
                    0 <= xx < w && 0 <= yy < y ==> #[trigger] texels@[yy * w + xx]
                        == spec_fragment(*key, *u, *color, *depth, *normal, view, xx, yy),
                forall|xx: int|
                    0 <= xx < x ==> #[trigger] texels@[y * w + xx] == spec_fragment(
                        *key,
                        *u,
                        *color,
                        *depth,
                        *normal,
                        view,
                        xx,
                        y as int,
                    ),
            decreases w - x,
        {
            proof {
                lemma_mul_bound(y as int, w as int, MAX_DIM as int, MAX_DIM as int);
            }
            let f = fragment(key, u, color, depth, normal, view, x, y);
            texels.push(f);
            proof {
                assert forall|xx: int, yy: int|
                    0 <= xx < w && 0 <= yy < y implies #[trigger] texels@[yy * w + xx]
                    == spec_fragment(*key, *u, *color, *depth, *normal, view, xx, yy) by {
                    lemma_row_index_lt(xx, yy, w as int, y as int);
                }
            }
            x += 1;
        }
        proof {
            assert((y + 1) * w == y * w + w) by (nonlinear_arith);
        }
        y += 1;
    }
    proof {
        assert(texels@.len() == h * w);
        assert(h * w == w * h) by (nonlinear_arith);
    }
    let out = Texture { width: w, height: h, texels };
    proof {
        assert(out.wf());
        assert forall|x: int, y2: int|
            0 <= x < color.width && 0 <= y2 < color.height implies #[trigger] out.spec_at(x, y2)
            == spec_fragment(*key, *u, *color, *depth, *normal, view, x, y2) by {
            assert(out.texels@[y2 * w + x] == spec_fragment(
                *key,
                *u,
                *color,
                *depth,
                *normal,
                view,
                x,
                y2,
            ));
        }
    }
    out
}

/// With every channel disabled the kernel is a pure pass-through: the
/// output of each pixel is the unmodified source color sample at its
/// (possibly distorted) sampling center.
pub proof fn lemma_all_channels_disabled_pass_through(
    key: EdgeDetectionKey,
    u: EdgeDetectionUniform,
    color: Texture<LinearRgba>,
    depth: Texture<i64>,
    normal: Texture<Vec3>,
    view: Vec3,
    x: int,
    y: int,
)
    requires
        !key.enable_depth,
        !key.enable_normal,
        !key.enable_color,
    ensures
        spec_fragment(key, u, color, depth, normal, view, x, y) == color.spec_sample(
            spec_center_x(u, color.width as int, x),
            spec_center_y(u, color.height as int, y),
        ),
{
}

/// No false positives on uniform regions: where the raw depth gradient
/// already lies below the depth threshold and neither other channel's
/// gradient exceeds its own threshold, the pixel keeps its source
/// color — compensation can only lower the depth gradient further.
pub proof fn lemma_no_edge_below_thresholds(
    key: EdgeDetectionKey,
    u: EdgeDetectionUniform,
    color: Texture<LinearRgba>,
    depth: Texture<i64>,
    normal: Texture<Vec3>,
    view: Vec3,
    x: int,
    y: int,
)
    requires
        u.valid(),
        spec_depth_gradient(
            depth,
            spec_center_x(u, color.width as int, x),
            spec_center_y(u, color.height as int, y),
            u.depth_thickness as int,
        ) < u.depth_threshold,
        key.enable_normal ==> spec_normal_gradient(
            normal,
            spec_center_x(u, color.width as int, x),
            spec_center_y(u, color.height as int, y),
            u.normal_thickness as int,
        ) <= u.normal_threshold,
        key.enable_color ==> spec_color_gradient(
            color,
            spec_center_x(u, color.width as int, x),
            spec_center_y(u, color.height as int, y),
            u.color_thickness as int,
        ) <= u.color_threshold,
    ensures
        spec_fragment(key, u, color, depth, normal, view, x, y) == color.spec_sample(
            spec_center_x(u, color.width as int, x),
            spec_center_y(u, color.height as int, y),
        ),
{
    let cx = spec_center_x(u, color.width as int, x);
    let cy = spec_center_y(u, color.height as int, y);
    let grad = spec_depth_gradient(depth, cx, cy, u.depth_thickness as int);
    if grad >= 0 {
        lemma_fp_mul_le(grad, u.steep_angle_multiplier as int);
    } else {
        let p = grad * (u.steep_angle_multiplier as int);
        lemma_mul_bound(grad, u.steep_angle_multiplier as int, -grad, FP_ONE as int);
        lemma_fp_scale_down_monotonic(p, 0);
    }
}

/// With every channel disabled and no distortion, the pass is the
/// identity: every pixel keeps exactly its own source texel.
pub proof fn lemma_pass_through_identity(
    key: EdgeDetectionKey,
    u: EdgeDetectionUniform,
    color: Texture<LinearRgba>,
    depth: Texture<i64>,
    normal: Texture<Vec3>,
    view: Vec3,
    x: int,
    y: int,
)
    requires
        color.wf(),
        !key.enable_depth,
        !key.enable_normal,
        !key.enable_color,
        u.uv_distortion_strength.x == 0,
        u.uv_distortion_strength.y == 0,
        0 <= x < color.width,
        0 <= y < color.height,
    ensures
        spec_fragment(key, u, color, depth, normal, view, x, y) == color.spec_at(x, y),
{
    lemma_zero_strength_axis(spec_uv_of(x), u.uv_distortion_frequency.x as int);
    lemma_zero_strength_axis(spec_uv_of(y), u.uv_distortion_frequency.y as int);
    lemma_texel_roundtrip(x, color.width as int);
    lemma_texel_roundtrip(y, color.height as int);
}

/// A distortion of zero strength is a true no-op: for every pixel of
/// the view, the kernel's output is bit-identical to the kernel with
/// the distortion step skipped entirely.
pub proof fn lemma_zero_distortion_pass_identical(
    key: EdgeDetectionKey,
    u: EdgeDetectionUniform,
    color: Texture<LinearRgba>,
    depth: Texture<i64>,
    normal: Texture<Vec3>,
    view: Vec3,
    x: int,
    y: int,
)
    requires
        color.wf(),
        u.uv_distortion_strength.x == 0,
        u.uv_distortion_strength.y == 0,
        0 <= x < color.width,
        0 <= y < color.height,
    ensures
        spec_fragment(key, u, color, depth, normal, view, x, y) == spec_fragment_undistorted(
            key,
            u,
            color,
            depth,
            normal,
            view,
            x,
            y,
        ),
{
    lemma_zero_strength_axis(spec_uv_of(x), u.uv_distortion_frequency.x as int);
    lemma_zero_strength_axis(spec_uv_of(y), u.uv_distortion_frequency.y as int);
    lemma_texel_roundtrip(x, color.width as int);
    lemma_texel_roundtrip(y, color.height as int);
}

} // verus!
