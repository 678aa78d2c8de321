//! CPU-side model of the textures the pass reads and writes.
//!
//! A texture is a row-major vector of texels. The kernel samples it with
//! clamp-to-edge addressing, as the effect's linear sampler does at the
//! border of the screen.

use vstd::prelude::*;
use vstd::arithmetic::mul::lemma_mul_inequality;
use crate::fixed::{fp_bounded, fp_unit};

verus! {

/// Largest side length of a texture the model accepts.
pub const MAX_DIM: usize = 16384;

/// A fixed-point 2-vector: a UV coordinate, a distortion frequency or
/// strength.
#[derive(Clone, Copy, Debug, PartialEq, Eq, Structural)]
pub struct Vec2 {
    pub x: i64,
    pub y: i64,
}

/// A fixed-point 3-vector: a decoded surface normal or a view direction.
#[derive(Clone, Copy, Debug, PartialEq, Eq, Structural)]
pub struct Vec3 {
    pub x: i64,
    pub y: i64,
    pub z: i64,
}

/// A linear-space RGBA color with fixed-point channels.
#[derive(Clone, Copy, Debug, PartialEq, Eq, Structural)]
pub struct LinearRgba {
    pub red: i64,
    pub green: i64,
    pub blue: i64,
    pub alpha: i64,
}

/// A row-major texture of texels of type `T`.
#[derive(Clone, Debug)]
pub struct Texture<T> {
    pub width: usize,
    pub height: usize,
    pub texels: Vec<T>,
}

impl<T: Copy> Texture<T> {
    /// The texture has plausible dimensions and one texel per position.
    pub open spec fn wf(self) -> bool {
        &&& 1 <= self.width <= MAX_DIM
        &&& 1 <= self.height <= MAX_DIM
        &&& self.texels@.len() == self.width * self.height
    }

    /// The texel at column `x` of row `y`.
    pub open spec fn spec_at(self, x: int, y: int) -> T {
        self.texels@[y * self.width + x]
    }

    /// The texel at the position nearest to `(x, y)`: clamp-to-edge
    /// addressing.
    pub open spec fn spec_sample(self, x: int, y: int) -> T {
        self.spec_at(
            crate::fixed::spec_clamp(x, 0, self.width - 1),
            crate::fixed::spec_clamp(y, 0, self.height - 1),
        )
    }

    /// An in-range position indexes into the texel vector.
    pub proof fn lemma_index_in_bounds(self, x: int, y: int)
        requires
            self.wf(),
            0 <= x < self.width,
            0 <= y < self.height,
        ensures
            0 <= y * self.width + x < self.texels@.len(),
    {
        let w = self.width as int;
        let h = self.height as int;
        assert(0 <= y * w) by (nonlinear_arith)
            requires
                0 <= y,
                0 < w,
        ;
        lemma_mul_inequality(y, h - 1, w);
        assert((h - 1) * w + w == h * w) by (nonlinear_arith);
    }

    /// Read the texel at an in-range position.
    pub fn at(&self, x: usize, y: usize) -> (r: T)
        requires
            self.wf(),
            x < self.width,
            y < self.height,
        ensures
            r == self.spec_at(x as int, y as int),
    {
        let len: usize = self.texels.len();
        proof {
            self.lemma_index_in_bounds(x as int, y as int);
            assert(y * self.width + x < len);
        }
        self.texels[y * self.width + x]
    }

    /// Read the texel nearest to `(x, y)`, clamping to the edge.
    pub fn sample(&self, x: i64, y: i64) -> (r: T)
        requires
            self.wf(),
        ensures
            r == self.spec_sample(x as int, y as int),
    {
        let cx: i64 = crate::fixed::clamp(x, 0, (self.width - 1) as i64);
        let cy: i64 = crate::fixed::clamp(y, 0, (self.height - 1) as i64);
        self.at(cx as usize, cy as usize)
    }
}

/// Every texel of a depth texture is a bounded fixed-point sample.
pub open spec fn depth_texture_bounded(t: Texture<i64>) -> bool {
    forall|i: int| 0 <= i < t.texels@.len() ==> fp_bounded(#[trigger] t.texels@[i] as int)
}

/// Every texel of a normal texture is a decoded unit-range vector.
pub open spec fn normal_texture_bounded(t: Texture<Vec3>) -> bool {
    forall|i: int|
        0 <= i < t.texels@.len() ==> {
            &&& fp_unit(#[trigger] t.texels@[i].x as int)
            &&& fp_unit(t.texels@[i].y as int)
            &&& fp_unit(t.texels@[i].z as int)
        }
}

/// Every texel of a color texture holds bounded linear channels.
pub open spec fn color_texture_bounded(t: Texture<LinearRgba>) -> bool {
    forall|i: int|
        0 <= i < t.texels@.len() ==> {
            &&& fp_bounded(#[trigger] t.texels@[i].red as int)
            &&& fp_bounded(t.texels@[i].green as int)
            &&& fp_bounded(t.texels@[i].blue as int)
            &&& fp_bounded(t.texels@[i].alpha as int)
        }
}

} // verus!
