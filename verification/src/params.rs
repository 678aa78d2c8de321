//! The user-facing effect configuration and its per-frame snapshot.
//!
//! [`EdgeDetection`] is the record the application mutates between frames.
//! Once per frame, per view, the extraction stage copies the subset the
//! shader needs into an immutable [`EdgeDetectionUniform`], which is then
//! uploaded and consumed by the pass. All scalar fields are fixed-point
//! values scaled by [`crate::fixed::FP_ONE`].

use vstd::prelude::*;
use crate::fixed::{FP_ONE, FP_HALF, FP_MAX};
use crate::texture::{Vec2, LinearRgba};

verus! {

/// Largest distortion frequency the model accepts; keeps the sine
/// argument within the multiplier's range.
pub const FREQ_MAX: i64 = 0x1000_0000;

/// Per-view configuration of the edge-detection effect.
///
/// Thresholds and thicknesses are non-negative; the steep-angle
/// parameters and the distortion strength lie within one unit. The core
/// does not validate the fields — callers keep them inside
/// [`EdgeDetection::valid`], and the verified kernel requires it.
#[derive(Clone, Copy, Debug, PartialEq, Eq, Structural)]
pub struct EdgeDetection {
    /// Depth gradients above this threshold mark an edge.
    pub depth_threshold: i64,
    /// Normal gradients above this threshold mark an edge.
    pub normal_threshold: i64,
    /// Color gradients above this threshold mark an edge.
    pub color_threshold: i64,
    /// Steepness (one minus the cosine of the view/normal angle) above
    /// which the depth gradient is scaled down before thresholding.
    pub steep_angle_threshold: i64,
    /// Factor, within one unit, applied to the depth gradient on steep
    /// surfaces.
    pub steep_angle_multiplier: i64,
    /// Sample radius multiplier of the depth channel.
    pub depth_thickness: i64,
    /// Sample radius multiplier of the normal channel.
    pub normal_thickness: i64,
    /// Sample radius multiplier of the color channel.
    pub color_thickness: i64,
    /// Frequency, per texel, of the sine UV distortion.
    pub uv_distortion_frequency: Vec2,
    /// Strength, within one unit, of the sine UV distortion.
    pub uv_distortion_strength: Vec2,
    /// Color drawn over detected edges; the alpha channel is ignored.
    pub edge_color: LinearRgba,
    /// Whether depth gradients are evaluated.
    pub enable_depth: bool,
    /// Whether normal gradients are evaluated.
    pub enable_normal: bool,
    /// Whether color gradients are evaluated.
    pub enable_color: bool,
}

impl EdgeDetection {
    /// The fields lie in the ranges the kernel is specified over.
    pub open spec fn valid(self) -> bool {
        &&& 0 <= self.depth_threshold <= FP_MAX
        &&& 0 <= self.normal_threshold <= FP_MAX
        &&& 0 <= self.color_threshold <= FP_MAX
        &&& 0 <= self.steep_angle_threshold <= FP_ONE
        &&& 0 <= self.steep_angle_multiplier <= FP_ONE
        &&& 0 <= self.depth_thickness <= FP_MAX
        &&& 0 <= self.normal_thickness <= FP_MAX
        &&& 0 <= self.color_thickness <= FP_MAX
        &&& 0 <= self.uv_distortion_frequency.x <= FREQ_MAX
        &&& 0 <= self.uv_distortion_frequency.y <= FREQ_MAX
        &&& 0 <= self.uv_distortion_strength.x <= FP_ONE
        &&& 0 <= self.uv_distortion_strength.y <= FP_ONE
        &&& 0 <= self.edge_color.red <= FP_MAX
        &&& 0 <= self.edge_color.green <= FP_MAX
        &&& 0 <= self.edge_color.blue <= FP_MAX
        &&& 0 <= self.edge_color.alpha <= FP_MAX
    }
}

impl Default for EdgeDetection {
    /// One unit of depth threshold, eight tenths of normal threshold, a
    /// zero color threshold, black edges, and every channel enabled.
    fn default() -> (r: Self)
        ensures
            r.depth_threshold == FP_ONE,
            r.normal_threshold == 800_000,
            r.color_threshold == 0,
            r.steep_angle_threshold == FP_HALF,
            r.steep_angle_multiplier == FP_HALF,
            r.depth_thickness == FP_ONE,
            r.normal_thickness == FP_ONE,
            r.color_thickness == FP_ONE,
            r.uv_distortion_frequency == (Vec2 { x: 0, y: 0 }),
            r.uv_distortion_strength == (Vec2 { x: 0, y: 0 }),
            r.edge_color == (LinearRgba { red: 0, green: 0, blue: 0, alpha: FP_ONE }),
            r.enable_depth,
            r.enable_normal,
            r.enable_color,
            r.valid(),
    {
        EdgeDetection {
            depth_threshold: FP_ONE,
            normal_threshold: 800_000,
            color_threshold: 0,
            steep_angle_threshold: FP_HALF,
            steep_angle_multiplier: FP_HALF,
            depth_thickness: FP_ONE,
            normal_thickness: FP_ONE,
            color_thickness: FP_ONE,
            uv_distortion_frequency: Vec2 { x: 0, y: 0 },
            uv_distortion_strength: Vec2 { x: 0, y: 0 },
            edge_color: LinearRgba { red: 0, green: 0, blue: 0, alpha: FP_ONE },
            enable_depth: true,
            enable_normal: true,
            enable_color: true,
        }
    }
}

/// The immutable per-frame snapshot of the fields the shader consumes.
///
/// Produced once per frame per view by
/// [`EdgeDetectionUniform::extract_edge_detection_settings`], uploaded to a
/// GPU-visible buffer, and discarded at frame end. The feature toggles are
/// not part of it: they select the compiled pipeline variant instead.
#[derive(Clone, Copy, Debug, PartialEq, Eq, Structural)]
pub struct EdgeDetectionUniform {
    /// Depth gradients above this threshold mark an edge.
    pub depth_threshold: i64,
    /// Normal gradients above this threshold mark an edge.
    pub normal_threshold: i64,
    /// Color gradients above this threshold mark an edge.
    pub color_threshold: i64,
    /// Steepness above which the depth gradient is scaled down.
    pub steep_angle_threshold: i64,
    /// Factor applied to the depth gradient on steep surfaces.
    pub steep_angle_multiplier: i64,
    /// Sample radius multiplier of the depth channel.
    pub depth_thickness: i64,
    /// Sample radius multiplier of the normal channel.
    pub normal_thickness: i64,
    /// Sample radius multiplier of the color channel.
    pub color_thickness: i64,
    /// Frequency, per texel, of the sine UV distortion.
    pub uv_distortion_frequency: Vec2,
    /// Strength, within one unit, of the sine UV distortion.
    pub uv_distortion_strength: Vec2,
    /// Color drawn over detected edges, as linear RGB.
    pub edge_color: LinearRgba,
}

impl EdgeDetectionUniform {
    /// The snapshot of a given configuration.
    pub open spec fn spec_from(ed: EdgeDetection) -> EdgeDetectionUniform {
        EdgeDetectionUniform {
            depth_threshold: ed.depth_threshold,
            normal_threshold: ed.normal_threshold,
            color_threshold: ed.color_threshold,
            steep_angle_threshold: ed.steep_angle_threshold,
            steep_angle_multiplier: ed.steep_angle_multiplier,
            depth_thickness: ed.depth_thickness,
            normal_thickness: ed.normal_thickness,
            color_thickness: ed.color_thickness,
            uv_distortion_frequency: ed.uv_distortion_frequency,
            uv_distortion_strength: ed.uv_distortion_strength,
            edge_color: ed.edge_color,
        }
    }

    /// The snapshot ranges, inherited from a valid configuration.
    pub open spec fn valid(self) -> bool {
        &&& 0 <= self.depth_threshold <= FP_MAX
        &&& 0 <= self.normal_threshold <= FP_MAX
        &&& 0 <= self.color_threshold <= FP_MAX
        &&& 0 <= self.steep_angle_threshold <= FP_ONE
        &&& 0 <= self.steep_angle_multiplier <= FP_ONE
        &&& 0 <= self.depth_thickness <= FP_MAX
        &&& 0 <= self.normal_thickness <= FP_MAX
        &&& 0 <= self.color_thickness <= FP_MAX
        &&& 0 <= self.uv_distortion_frequency.x <= FREQ_MAX
        &&& 0 <= self.uv_distortion_frequency.y <= FREQ_MAX
        &&& 0 <= self.uv_distortion_strength.x <= FP_ONE
        &&& 0 <= self.uv_distortion_strength.y <= FP_ONE
        &&& 0 <= self.edge_color.red <= FP_MAX
        &&& 0 <= self.edge_color.green <= FP_MAX
        &&& 0 <= self.edge_color.blue <= FP_MAX
        &&& 0 <= self.edge_color.alpha <= FP_MAX
    }

    /// The extraction stage: produce the frame's snapshot for one view,
    /// or nothing at all when the platform cannot sample depth textures
    /// (the pass then becomes a no-op for the view).
    pub fn extract_edge_detection_settings(
        depth_texture_sampling_supported: bool,
        ed: &EdgeDetection,
    ) -> (r: Option<EdgeDetectionUniform>)
        ensures
            depth_texture_sampling_supported ==> r == Some(Self::spec_from(*ed)),
            !depth_texture_sampling_supported ==> r is None,
            ed.valid() && r is Some ==> r->Some_0.valid(),
    {
        if !depth_texture_sampling_supported {
            return None;
        }
        Some(EdgeDetectionUniform::from(ed))
    }
}

impl From<&EdgeDetection> for EdgeDetectionUniform {
    /// Copy the shader-visible subset of the configuration.
    fn from(ed: &EdgeDetection) -> (r: Self) {
        EdgeDetectionUniform {
            depth_threshold: ed.depth_threshold,
            normal_threshold: ed.normal_threshold,
            color_threshold: ed.color_threshold,
            steep_angle_threshold: ed.steep_angle_threshold,
            steep_angle_multiplier: ed.steep_angle_multiplier,
            depth_thickness: ed.depth_thickness,
            normal_thickness: ed.normal_thickness,
            color_thickness: ed.color_thickness,
            uv_distortion_frequency: ed.uv_distortion_frequency,
            uv_distortion_strength: ed.uv_distortion_strength,
            edge_color: ed.edge_color,
        }
    }
}

impl vstd::std_specs::convert::FromSpecImpl<&EdgeDetection> for EdgeDetectionUniform {
    open spec fn obeys_from_spec() -> bool {
        true
    }

    open spec fn from_spec(ed: &EdgeDetection) -> Self {
        EdgeDetectionUniform::spec_from(*ed)
    }
}

} // verus!
