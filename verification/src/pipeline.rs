//! The pipeline description side of the effect.
//!
//! [`EdgeDetectionPipeline`] holds the global, once-per-application data:
//! the linear sampler description and the two bind-group layouts, one for
//! multisampled views and one for single-sampled views. Specializing it
//! with an [`EdgeDetectionKey`] yields the complete descriptor of one
//! pipeline variant: which layout it binds, which compile-time shader
//! definitions select the gradient channels, and which output format it
//! renders to. The embedding turns the descriptor into a real GPU
//! pipeline; everything the descriptor says is decided here.

use vstd::prelude::*;
use crate::key::EdgeDetectionKey;

verus! {

/// Texture filtering mode of a sampler.
#[derive(Clone, Copy, Debug, PartialEq, Eq, Structural)]
pub enum FilterMode {
    /// Nearest-texel lookup.
    Nearest,
    /// Linear interpolation between texels.
    Linear,
}

/// Description of the sampler the pass binds.
#[derive(Clone, Copy, Debug, PartialEq, Eq, Structural)]
pub struct SamplerDescriptor {
    /// Filtering used when the texture is magnified.
    pub mag_filter: FilterMode,
    /// Filtering used when the texture is minified.
    pub min_filter: FilterMode,
}

/// One entry of the fragment-stage bind-group layout, in binding order.
#[derive(Clone, Copy, Debug, PartialEq, Eq, Structural)]
pub enum LayoutEntry {
    /// The current color buffer, filterable.
    ColorTexture,
    /// The depth prepass texture; multisampled when the view is.
    DepthTexture { multisampled: bool },
    /// The normal prepass texture; multisampled when the view is, and
    /// then not filterable.
    NormalTexture { multisampled: bool, filterable: bool },
    /// The filtering sampler.
    FilteringSampler,
    /// The view uniforms, bound with a dynamic offset.
    ViewUniform { dynamic_offset: bool },
    /// The effect's snapshot uniform, bound with a dynamic offset.
    EffectUniform { dynamic_offset: bool },
}

/// A compile-time shader definition of one variant.
#[derive(Clone, Copy, Debug, PartialEq, Eq, Structural)]
pub enum ShaderDef {
    /// The variant evaluates depth gradients.
    EnableDepth,
    /// The variant evaluates normal gradients.
    EnableNormal,
    /// The variant evaluates color gradients.
    EnableColor,
    /// The variant reads multisampled prepass textures.
    Multisampled,
}

/// Output color format of a variant.
#[derive(Clone, Copy, Debug, PartialEq, Eq, Structural)]
pub enum OutputFormat {
    /// The renderer's standard low-dynamic-range format.
    Standard,
    /// The renderer's high-dynamic-range format.
    Hdr,
}

/// The full description of one pipeline variant.
#[derive(Clone, Debug)]
pub struct RenderPipelineDescriptor {
    /// The bind-group layout the variant expects.
    pub layout: Vec<LayoutEntry>,
    /// The compile-time definitions handed to the fragment shader.
    pub shader_defs: Vec<ShaderDef>,
    /// The output color format.
    pub format: OutputFormat,
    /// Whether the variant blends with the destination; the kernel
    /// writes a final composited color, so it never blends.
    pub blend: bool,
    /// Whether a depth/stencil test runs; a full-screen pass needs none.
    pub depth_stencil: bool,
}

/// The layout the pass binds for a given multisampling state.
pub open spec fn spec_layout(multisampled: bool) -> Seq<LayoutEntry> {
    seq![
        LayoutEntry::ColorTexture,
        LayoutEntry::DepthTexture { multisampled },
        LayoutEntry::NormalTexture { multisampled, filterable: !multisampled },
        LayoutEntry::FilteringSampler,
        LayoutEntry::ViewUniform { dynamic_offset: true },
        LayoutEntry::EffectUniform { dynamic_offset: true },
    ]
}

/// The shader definitions of a key's variant, in a fixed order.
pub open spec fn spec_shader_defs(key: EdgeDetectionKey) -> Seq<ShaderDef> {
    let defs = Seq::<ShaderDef>::empty();
    let defs = if key.enable_depth { defs.push(ShaderDef::EnableDepth) } else { defs };
    let defs = if key.enable_normal { defs.push(ShaderDef::EnableNormal) } else { defs };
    let defs = if key.enable_color { defs.push(ShaderDef::EnableColor) } else { defs };
    if key.multisampled { defs.push(ShaderDef::Multisampled) } else { defs }
}

/// The output format a key's variant renders to.
pub open spec fn spec_output_format(key: EdgeDetectionKey) -> OutputFormat {
    if key.hdr { OutputFormat::Hdr } else { OutputFormat::Standard }
}

/// The global pipeline data, created once at startup.
#[derive(Clone, Debug)]
pub struct EdgeDetectionPipeline {
    /// The linear sampler description.
    pub sampler: SamplerDescriptor,
    /// Bind-group layout for multisampled views.
    pub layout_with_msaa: Vec<LayoutEntry>,
    /// Bind-group layout for single-sampled views.
    pub layout_without_msaa: Vec<LayoutEntry>,
}

impl EdgeDetectionPipeline {
    /// The pipeline data is the one this module prescribes.
    pub open spec fn wf(self) -> bool {
        &&& self.sampler == (SamplerDescriptor {
            mag_filter: FilterMode::Linear,
            min_filter: FilterMode::Linear,
        })
        &&& self.layout_with_msaa@ == spec_layout(true)
        &&& self.layout_without_msaa@ == spec_layout(false)
    }

    /// Build the global pipeline data: a linear sampler and the two
    /// bind-group layouts.
    pub fn new() -> (r: Self)
        ensures
            r.wf(),
    {
        let layout_with_msaa = vec![
            LayoutEntry::ColorTexture,
            LayoutEntry::DepthTexture { multisampled: true },
            LayoutEntry::NormalTexture { multisampled: true, filterable: false },
            LayoutEntry::FilteringSampler,
            LayoutEntry::ViewUniform { dynamic_offset: true },
            LayoutEntry::EffectUniform { dynamic_offset: true },
        ];
        let layout_without_msaa = vec![
            LayoutEntry::ColorTexture,
            LayoutEntry::DepthTexture { multisampled: false },
            LayoutEntry::NormalTexture { multisampled: false, filterable: true },
            LayoutEntry::FilteringSampler,
            LayoutEntry::ViewUniform { dynamic_offset: true },
            LayoutEntry::EffectUniform { dynamic_offset: true },
        ];
        proof {
            assert(layout_with_msaa@ =~= spec_layout(true));
            assert(layout_without_msaa@ =~= spec_layout(false));
        }
        EdgeDetectionPipeline {
            sampler: SamplerDescriptor {
                mag_filter: FilterMode::Linear,
                min_filter: FilterMode::Linear,
            },
            layout_with_msaa,
            layout_without_msaa,
        }
    }

    /// The bind-group layout matching a view's multisampling state.
    pub fn bind_group_layout(&self, multisampled: bool) -> (r: &Vec<LayoutEntry>)
        requires
            self.wf(),
        ensures
            r@ == spec_layout(multisampled),
    {
        if multisampled {
            &self.layout_with_msaa
        } else {
            &self.layout_without_msaa
        }
    }

    /// Specialize the pipeline for one variant key: fix the layout, the
    /// compile-time channel selection, and the output format. The same
    /// key always yields the same descriptor.
    pub fn specialize(&self, key: EdgeDetectionKey) -> (r: RenderPipelineDescriptor)
        requires
            self.wf(),
        ensures
            r.layout@ == spec_layout(key.multisampled),
            r.shader_defs@ == spec_shader_defs(key),
            r.format == spec_output_format(key),
            !r.blend,
            !r.depth_stencil,
    {
        let mut shader_defs: Vec<ShaderDef> = Vec::new();
        if key.enable_depth {
            shader_defs.push(ShaderDef::EnableDepth);
        }
        if key.enable_normal {
            shader_defs.push(ShaderDef::EnableNormal);
        }
        if key.enable_color {
            shader_defs.push(ShaderDef::EnableColor);
        }
        if key.multisampled {
            shader_defs.push(ShaderDef::Multisampled);
        }
        let format = if key.hdr { OutputFormat::Hdr } else { OutputFormat::Standard };
        let layout = self.bind_group_layout(key.multisampled).clone();
        RenderPipelineDescriptor {
            layout,
            shader_defs,
            format,
            blend: false,
            depth_stencil: false,
        }
    }
}

} // verus!
