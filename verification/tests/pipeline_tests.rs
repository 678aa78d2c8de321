//! Tests of the configuration, the variant key and cache, the pipeline
//! descriptions, and the per-frame pass protocol.

use edge_detection::cache::{
    prepare_edge_detection_pipelines, PipelineVariantCache, VariantSlot, ViewInfo,
};
use edge_detection::fixed::FP_ONE;
use edge_detection::key::EdgeDetectionKey;
use edge_detection::node::{
    BindingResource, ColorBuffer, EdgeDetectionNode, PassAction, PassInputs, ViewTargetState,
};
use edge_detection::params::{EdgeDetection, EdgeDetectionUniform};
use edge_detection::pipeline::{
    EdgeDetectionPipeline, FilterMode, LayoutEntry, OutputFormat, ShaderDef,
};
use edge_detection::texture::{LinearRgba, Vec2};

fn key_of(enable_depth: bool, enable_normal: bool, enable_color: bool, hdr: bool, multisampled: bool) -> EdgeDetectionKey {
    EdgeDetectionKey {
        enable_depth,
        enable_normal,
        enable_color,
        hdr,
        multisampled,
    }
}

fn all_inputs() -> PassInputs {
    PassInputs {
        pipeline_ready: true,
        has_depth_texture: true,
        has_normal_texture: true,
        has_view_uniforms: true,
        has_effect_uniforms: true,
        multisampled: false,
        view_uniform_offset: 256,
        effect_uniform_offset: 64,
    }
}

#[test]
fn defaults_match_the_documented_configuration() {
    let ed = EdgeDetection::default();
    assert_eq!(ed.depth_threshold, FP_ONE);
    assert_eq!(ed.normal_threshold, 800_000);
    assert_eq!(ed.color_threshold, 0);
    assert_eq!(ed.steep_angle_threshold, 500_000);
    assert_eq!(ed.steep_angle_multiplier, 500_000);
    assert_eq!(ed.depth_thickness, FP_ONE);
    assert_eq!(ed.uv_distortion_strength, Vec2 { x: 0, y: 0 });
    assert_eq!(
        ed.edge_color,
        LinearRgba {
            red: 0,
            green: 0,
            blue: 0,
            alpha: FP_ONE
        }
    );
    assert!(ed.enable_depth && ed.enable_normal && ed.enable_color);
}

#[test]
fn extraction_snapshots_or_skips() {
    let ed = EdgeDetection::default();
    let some = EdgeDetectionUniform::extract_edge_detection_settings(true, &ed);
    assert_eq!(some, Some(EdgeDetectionUniform::from(&ed)));
    let none = EdgeDetectionUniform::extract_edge_detection_settings(false, &ed);
    assert_eq!(none, None);
}

#[test]
fn snapshot_copies_the_shader_visible_fields() {
    let mut ed = EdgeDetection::default();
    ed.depth_threshold = 123;
    ed.normal_threshold = 456;
    ed.color_threshold = 789;
    ed.steep_angle_threshold = 1000;
    ed.steep_angle_multiplier = 2000;
    ed.edge_color = LinearRgba {
        red: 1,
        green: 2,
        blue: 3,
        alpha: 4,
    };
    let u = EdgeDetectionUniform::from(&ed);
    assert_eq!(u.depth_threshold, 123);
    assert_eq!(u.normal_threshold, 456);
    assert_eq!(u.color_threshold, 789);
    assert_eq!(u.steep_angle_threshold, 1000);
    assert_eq!(u.steep_angle_multiplier, 2000);
    assert_eq!(u.edge_color.blue, 3);
}

#[test]
fn key_copies_toggles_and_view_state() {
    let mut ed = EdgeDetection::default();
    ed.enable_normal = false;
    let key = EdgeDetectionKey::new(&ed, true, false);
    assert!(key.enable_depth);
    assert!(!key.enable_normal);
    assert!(key.enable_color);
    assert!(key.hdr);
    assert!(!key.multisampled);
}

#[test]
fn key_index_spans_the_key_space() {
    assert_eq!(key_of(false, false, false, false, false).index(), 0);
    assert_eq!(key_of(true, true, true, true, true).index(), 31);
    assert_eq!(key_of(true, false, false, false, false).index(), 16);
    assert_eq!(key_of(false, false, false, false, true).index(), 1);
}

#[test]
fn layouts_differ_only_in_multisampling() {
    let p = EdgeDetectionPipeline::new();
    assert_eq!(p.sampler.mag_filter, FilterMode::Linear);
    assert_eq!(p.sampler.min_filter, FilterMode::Linear);
    let with_msaa = p.bind_group_layout(true);
    let without = p.bind_group_layout(false);
    assert_eq!(with_msaa.len(), 6);
    assert_eq!(without.len(), 6);
    assert_eq!(with_msaa[0], LayoutEntry::ColorTexture);
    assert_eq!(with_msaa[1], LayoutEntry::DepthTexture { multisampled: true });
    assert_eq!(
        with_msaa[2],
        LayoutEntry::NormalTexture {
            multisampled: true,
            filterable: false
        }
    );
    assert_eq!(without[1], LayoutEntry::DepthTexture { multisampled: false });
    assert_eq!(
        without[2],
        LayoutEntry::NormalTexture {
            multisampled: false,
            filterable: true
        }
    );
    assert_eq!(with_msaa[3], LayoutEntry::FilteringSampler);
    assert_eq!(with_msaa[4], LayoutEntry::ViewUniform { dynamic_offset: true });
    assert_eq!(with_msaa[5], LayoutEntry::EffectUniform { dynamic_offset: true });
}

#[test]
fn specialization_selects_defs_and_format() {
    let p = EdgeDetectionPipeline::new();
    let d = p.specialize(key_of(true, false, true, true, true));
    assert_eq!(
        d.shader_defs,
        vec![
            ShaderDef::EnableDepth,
            ShaderDef::EnableColor,
            ShaderDef::Multisampled
        ]
    );
    assert_eq!(d.format, OutputFormat::Hdr);
    assert!(!d.blend);
    assert!(!d.depth_stencil);
    assert_eq!(d.layout[1], LayoutEntry::DepthTexture { multisampled: true });

    let d2 = p.specialize(key_of(false, true, false, false, false));
    assert_eq!(d2.shader_defs, vec![ShaderDef::EnableNormal]);
    assert_eq!(d2.format, OutputFormat::Standard);
}

#[test]
fn cache_returns_the_same_handle_for_the_same_key() {
    let mut cache = PipelineVariantCache::new();
    let key = key_of(true, true, true, false, false);
    let (id1, fresh1) = cache.specialize(key);
    assert!(fresh1);
    let (id2, fresh2) = cache.specialize(key);
    assert!(!fresh2);
    assert_eq!(id1, id2);
    let (id3, _) = cache.specialize(key);
    assert_eq!(id1, id3);
}

#[test]
fn cache_never_collides_distinct_keys() {
    let mut cache = PipelineVariantCache::new();
    let mut ids = Vec::new();
    for bits in 0..32u32 {
        let key = key_of(
            bits & 16 != 0,
            bits & 8 != 0,
            bits & 4 != 0,
            bits & 2 != 0,
            bits & 1 != 0,
        );
        let (id, fresh) = cache.specialize(key);
        assert!(fresh);
        ids.push(id.0);
    }
    for i in 0..ids.len() {
        for j in 0..i {
            assert_ne!(ids[i], ids[j]);
        }
    }
}

#[test]
fn toggling_a_flag_reaches_a_fresh_variant_without_crashing() {
    // A feature flag flips between frames; the next frame's preparation
    // simply queues the never-compiled variant and goes on.
    let mut cache = PipelineVariantCache::new();
    let mut ed = EdgeDetection::default();
    let k1 = EdgeDetectionKey::new(&ed, false, false);
    let (id1, _) = cache.specialize(k1);
    ed.enable_color = false;
    let k2 = EdgeDetectionKey::new(&ed, false, false);
    let (id2, fresh2) = cache.specialize(k2);
    assert!(fresh2);
    assert_ne!(id1.0, id2.0);
    // And back again: the first variant is still cached.
    ed.enable_color = true;
    let k3 = EdgeDetectionKey::new(&ed, false, false);
    let (id3, fresh3) = cache.specialize(k3);
    assert!(!fresh3);
    assert_eq!(id1, id3);
}

#[test]
fn failed_variants_log_once_and_stay_failed() {
    let mut cache = PipelineVariantCache::new();
    let key = key_of(true, false, false, false, true);
    assert!(!cache.mark_failed(key));
    let (id, _) = cache.specialize(key);
    assert!(cache.mark_failed(key));
    assert!(!cache.mark_failed(key));
    assert_eq!(cache.status(key), VariantSlot::Failed(id.0));
    let (id2, fresh) = cache.specialize(key);
    assert_eq!(id, id2);
    assert!(!fresh);
}

#[test]
fn preparation_resolves_every_view() {
    let mut cache = PipelineVariantCache::new();
    let ed = EdgeDetection::default();
    let views = vec![
        ViewInfo {
            hdr: false,
            msaa_samples: 1,
            edge_detection: ed,
        },
        ViewInfo {
            hdr: true,
            msaa_samples: 4,
            edge_detection: ed,
        },
        ViewInfo {
            hdr: false,
            msaa_samples: 1,
            edge_detection: ed,
        },
    ];
    let ids = prepare_edge_detection_pipelines(&mut cache, &views);
    assert_eq!(ids.len(), 3);
    assert_eq!(ids[0], ids[2]);
    assert_ne!(ids[0], ids[1]);
}

#[test]
fn missing_resources_skip_without_flipping() {
    let node = EdgeDetectionNode;
    let pipeline = EdgeDetectionPipeline::new();
    let mut target = ViewTargetState { main_is_a: true };
    for miss in 0..5 {
        let mut inputs = all_inputs();
        match miss {
            0 => inputs.pipeline_ready = false,
            1 => inputs.has_depth_texture = false,
            2 => inputs.has_normal_texture = false,
            3 => inputs.has_view_uniforms = false,
            _ => inputs.has_effect_uniforms = false,
        }
        let action = node.run(&pipeline, &mut target, &inputs);
        assert!(matches!(action, PassAction::Skip));
        assert!(target.main_is_a);
    }
}

#[test]
fn a_draw_binds_in_order_and_ping_pongs() {
    let node = EdgeDetectionNode;
    let pipeline = EdgeDetectionPipeline::new();
    let mut target = ViewTargetState { main_is_a: true };
    let inputs = all_inputs();
    let action = node.run(&pipeline, &mut target, &inputs);
    match action {
        PassAction::Draw(plan) => {
            assert_eq!(
                plan.bindings,
                vec![
                    BindingResource::ColorSource(ColorBuffer::A),
                    BindingResource::DepthPrepass,
                    BindingResource::NormalPrepass,
                    BindingResource::LinearSampler,
                    BindingResource::ViewUniforms,
                    BindingResource::EffectUniforms,
                ]
            );
            assert_eq!(plan.dynamic_offsets, vec![256, 64]);
            assert_eq!(plan.destination, ColorBuffer::B);
            assert_eq!(plan.vertex_count, 3);
            assert_eq!(plan.instance_count, 1);
            assert_eq!(plan.layout[1], LayoutEntry::DepthTexture { multisampled: false });
        }
        PassAction::Skip => panic!("expected a draw"),
    }
    assert!(!target.main_is_a);
    // The next frame reads what the last frame wrote and writes the
    // other physical buffer.
    let action = node.run(&pipeline, &mut target, &inputs);
    match action {
        PassAction::Draw(plan) => {
            assert_eq!(plan.bindings[0], BindingResource::ColorSource(ColorBuffer::B));
            assert_eq!(plan.destination, ColorBuffer::A);
        }
        PassAction::Skip => panic!("expected a draw"),
    }
    assert!(target.main_is_a);
}
