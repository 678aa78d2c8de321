//! Screen-space edge detection for a 3D renderer.
//!
//! Given a rendered color buffer together with the depth and normal buffers
//! of the same frame, the effect produces a new color buffer in which
//! geometric and material edges are overlaid in a configurable color.
//!
//! The crate covers the runtime core of the effect:
//! the user-facing [`params::EdgeDetection`] configuration, its per-frame
//! snapshot [`params::EdgeDetectionUniform`], the pipeline-variant key and
//! cache that map feature toggles to compiled pipeline handles, the per-frame
//! pass protocol that binds resources and issues the full-screen draw, and a
//! fixed-point reference model of the edge-detection kernel itself.
//!
//! GPU resources, the host renderer's scene graph and its render-graph
//! scheduler are external collaborators: the crate only decides, and hands
//! plain values to the embedding that talks to them.

pub mod cache;
pub mod fixed;
pub mod kernel;
pub mod key;
pub mod node;
pub mod params;
pub mod pipeline;
pub mod texture;
