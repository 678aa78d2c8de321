//! The per-frame pass protocol.
//!
//! [`EdgeDetectionNode::run`] is the decision procedure of the render-graph
//! node: given what the frame offers — whether the variant's pipeline is
//! compiled, whether the depth and normal prepass textures exist, whether
//! the view and effect uniforms were uploaded — it either skips the pass
//! for this frame (a benign no-op; the previous color persists and the
//! pass retries next frame) or commits to a draw. A draw fixes the whole
//! command: the fresh binding set in order, the two dynamic offsets, the
//! ping-pong source and destination, and the three-vertex full-screen
//! triangle. The embedding only replays the returned plan against the GPU.

use vstd::prelude::*;
use crate::pipeline::{spec_layout, LayoutEntry};

verus! {

/// The two physical color buffers a view ping-pongs between.
#[derive(Clone, Copy, Debug, PartialEq, Eq, Structural)]
pub enum ColorBuffer {
    /// The first physical buffer.
    A,
    /// The second physical buffer.
    B,
}

/// The view's ping-pong state: which physical buffer currently holds the
/// frame's color.
#[derive(Clone, Copy, Debug, PartialEq, Eq, Structural)]
pub struct ViewTargetState {
    /// True when buffer `A` is the current main color buffer.
    pub main_is_a: bool,
}

impl ViewTargetState {
    /// The buffer currently holding the color.
    pub open spec fn spec_main(self) -> ColorBuffer {
        if self.main_is_a {
            ColorBuffer::A
        } else {
            ColorBuffer::B
        }
    }

    /// The buffer the next write targets.
    pub open spec fn spec_other(self) -> ColorBuffer {
        if self.main_is_a {
            ColorBuffer::B
        } else {
            ColorBuffer::A
        }
    }

    /// Begin a post-process write: hand out the current buffer as the
    /// source and the other physical buffer as the destination, and flip
    /// which buffer is current. Source and destination are never the
    /// same physical buffer.
    pub fn post_process_write(&mut self) -> (r: (ColorBuffer, ColorBuffer))
        ensures
            r.0 == old(self).spec_main(),
            r.1 == old(self).spec_other(),
            r.0 != r.1,
            final(self).spec_main() == r.1,
    {
        let source = if self.main_is_a {
            ColorBuffer::A
        } else {
            ColorBuffer::B
        };
        let destination = if self.main_is_a {
            ColorBuffer::B
        } else {
            ColorBuffer::A
        };
        self.main_is_a = !self.main_is_a;
        (source, destination)
    }
}

/// One entry of the binding set the pass constructs afresh each frame.
#[derive(Clone, Copy, Debug, PartialEq, Eq, Structural)]
pub enum BindingResource {
    /// The source view of the current color buffer.
    ColorSource(ColorBuffer),
    /// The depth prepass texture.
    DepthPrepass,
    /// The normal prepass texture.
    NormalPrepass,
    /// The effect's linear sampler.
    LinearSampler,
    /// The view uniforms.
    ViewUniforms,
    /// The effect's snapshot uniform.
    EffectUniforms,
}

/// What the frame offers the node for one view.
#[derive(Clone, Copy, Debug, PartialEq, Eq, Structural)]
pub struct PassInputs {
    /// Whether the variant's compiled pipeline is available; it is not
    /// during the first frames after a key changes.
    pub pipeline_ready: bool,
    /// Whether the renderer produced a depth prepass this frame.
    pub has_depth_texture: bool,
    /// Whether the renderer produced a normal prepass this frame.
    pub has_normal_texture: bool,
    /// Whether the view uniforms were uploaded this frame.
    pub has_view_uniforms: bool,
    /// Whether the effect's snapshot uniform was uploaded this frame.
    pub has_effect_uniforms: bool,
    /// Whether the view's render target is multisampled.
    pub multisampled: bool,
    /// Dynamic offset of the view's slice of the view uniforms.
    pub view_uniform_offset: u32,
    /// Dynamic offset of the view's slice of the effect uniforms.
    pub effect_uniform_offset: u32,
}

impl PassInputs {
    /// Every resource the draw needs is present this frame.
    pub open spec fn spec_resources_present(self) -> bool {
        &&& self.pipeline_ready
        &&& self.has_depth_texture
        &&& self.has_normal_texture
        &&& self.has_view_uniforms
        &&& self.has_effect_uniforms
    }
}

/// The complete record of one issued draw.
#[derive(Clone, Debug)]
pub struct DrawPlan {
    /// The bind-group layout the binding set is built against.
    pub layout: Vec<LayoutEntry>,
    /// The binding set, in binding order.
    pub bindings: Vec<BindingResource>,
    /// The dynamic offsets passed with the binding set: the view
    /// uniform's, then the effect uniform's.
    pub dynamic_offsets: Vec<u32>,
    /// The color attachment written by the draw.
    pub destination: ColorBuffer,
    /// Number of vertices of the full-screen triangle.
    pub vertex_count: u32,
    /// Number of instances drawn.
    pub instance_count: u32,
}

/// The outcome of running the node for one view.
#[derive(Clone, Debug)]
pub enum PassAction {
    /// A resource was missing; nothing is drawn this frame for this
    /// view, and nothing else changes.
    Skip,
    /// The pass draws as the plan records.
    Draw(DrawPlan),
}

/// The binding set of one draw: the six resources of the layout, with
/// the color source bound to the buffer the ping-pong handed out.
pub open spec fn spec_bindings(source: ColorBuffer) -> Seq<BindingResource> {
    seq![
        BindingResource::ColorSource(source),
        BindingResource::DepthPrepass,
        BindingResource::NormalPrepass,
        BindingResource::LinearSampler,
        BindingResource::ViewUniforms,
        BindingResource::EffectUniforms,
    ]
}

/// The render-graph node of the effect.
#[derive(Clone, Copy, Debug, Default)]
pub struct EdgeDetectionNode;

impl EdgeDetectionNode {
    /// Run the node for one view: skip when any resource is missing
    /// this frame, otherwise flip the ping-pong and commit to the draw.
    ///
    /// A skip leaves the ping-pong untouched: the frame's color stays
    /// where it was. A draw reads the old main buffer, writes the other
    /// physical buffer, and leaves that buffer as the new main; the
    /// binding set is rebuilt from scratch with the frame's dynamic
    /// offsets, and the draw is a blend-free, depth-test-free triangle
    /// of three vertices.
    pub fn run(
        &self,
        pipeline: &crate::pipeline::EdgeDetectionPipeline,
        target: &mut ViewTargetState,
        inputs: &PassInputs,
    ) -> (r: PassAction)
        requires
            pipeline.wf(),
        ensures
            r is Skip <==> !inputs.spec_resources_present(),
            r is Skip ==> *final(target) == *old(target),
            match r {
                PassAction::Skip => true,
                PassAction::Draw(plan) => {
                    &&& plan.layout@ == spec_layout(inputs.multisampled)
                    &&& plan.bindings@ == spec_bindings(old(target).spec_main())
                    &&& plan.dynamic_offsets@ == seq![
                        inputs.view_uniform_offset,
                        inputs.effect_uniform_offset,
                    ]
                    &&& plan.destination == old(target).spec_other()
                    &&& plan.destination != old(target).spec_main()
                    &&& final(target).spec_main() == plan.destination
                    &&& plan.vertex_count == 3
                    &&& plan.instance_count == 1
                },
            },
    {
        if !inputs.pipeline_ready {
            return PassAction::Skip;
        }
        if !inputs.has_depth_texture || !inputs.has_normal_texture {
            return PassAction::Skip;
        }
        if !inputs.has_view_uniforms {
            return PassAction::Skip;
        }
        if !inputs.has_effect_uniforms {
            return PassAction::Skip;
        }
        let (source, destination) = target.post_process_write();
        let layout = pipeline.bind_group_layout(inputs.multisampled).clone();
        let bindings = vec![
            BindingResource::ColorSource(source),
            BindingResource::DepthPrepass,
            BindingResource::NormalPrepass,
            BindingResource::LinearSampler,
            BindingResource::ViewUniforms,
            BindingResource::EffectUniforms,
        ];
        let dynamic_offsets = vec![inputs.view_uniform_offset, inputs.effect_uniform_offset];
        proof {
            assert(bindings@ =~= spec_bindings(old(target).spec_main()));
            assert(dynamic_offsets@ =~= seq![
                inputs.view_uniform_offset,
                inputs.effect_uniform_offset,
            ]);
        }
        PassAction::Draw(
            DrawPlan {
                layout,
                bindings,
                dynamic_offsets,
                destination,
                vertex_count: 3,
                instance_count: 1,
            },
        )
    }
}

} // verus!
