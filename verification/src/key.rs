//! The pipeline-variant key.
//!
//! Five booleans select a compiled pipeline variant: the three feature
//! toggles choose which gradient channels the kernel evaluates at compile
//! time, and the HDR and multisampling flags fix the output format and
//! the texture binding kinds. The key space is closed and small, so every
//! variant can be cached for the application's lifetime.

use vstd::prelude::*;
use crate::params::EdgeDetection;

verus! {

/// Number of distinct pipeline-variant keys.
pub const KEY_SPACE: usize = 32;

/// A discrete pipeline-variant key. Equal keys must resolve to the
/// identical compiled pipeline.
#[derive(Clone, Copy, Debug, PartialEq, Eq, Hash, Structural)]
pub struct EdgeDetectionKey {
    /// Whether the variant evaluates depth gradients.
    pub enable_depth: bool,
    /// Whether the variant evaluates normal gradients.
    pub enable_normal: bool,
    /// Whether the variant evaluates color gradients.
    pub enable_color: bool,
    /// Whether the variant renders to the HDR output format.
    pub hdr: bool,
    /// Whether the variant reads multisampled depth and normal textures.
    pub multisampled: bool,
}

impl EdgeDetectionKey {
    /// The key a view resolves: the configuration's toggles joined with
    /// the view's HDR and multisampling state.
    pub fn new(edge_detection: &EdgeDetection, hdr: bool, multisampled: bool) -> (r: Self)
        ensures
            r == (EdgeDetectionKey {
                enable_depth: edge_detection.enable_depth,
                enable_normal: edge_detection.enable_normal,
                enable_color: edge_detection.enable_color,
                hdr,
                multisampled,
            }),
    {
        EdgeDetectionKey {
            enable_depth: edge_detection.enable_depth,
            enable_normal: edge_detection.enable_normal,
            enable_color: edge_detection.enable_color,
            hdr,
            multisampled,
        }
    }

    /// The key's position in the closed key space.
    pub open spec fn spec_index(self) -> int {
        (if self.enable_depth { 16int } else { 0int })
            + (if self.enable_normal { 8int } else { 0int })
            + (if self.enable_color { 4int } else { 0int })
            + (if self.hdr { 2int } else { 0int })
            + (if self.multisampled { 1int } else { 0int })
    }

    /// Distinct keys occupy distinct positions.
    pub proof fn lemma_index_injective(a: Self, b: Self)
        requires
            a.spec_index() == b.spec_index(),
        ensures
            a == b,
    {
    }

    /// The position lies within the key space.
    pub proof fn lemma_index_in_space(self)
        ensures
            0 <= self.spec_index() < KEY_SPACE,
    {
    }

    /// Executable position of the key.
    pub fn index(&self) -> (r: usize)
        ensures
            r == self.spec_index(),
            r < KEY_SPACE,
    {
        let mut r: usize = 0;
        if self.enable_depth {
            r += 16;
        }
        if self.enable_normal {
            r += 8;
        }
        if self.enable_color {
            r += 4;
        }
        if self.hdr {
            r += 2;
        }
        if self.multisampled {
            r += 1;
        }
        r
    }
}

} // verus!
