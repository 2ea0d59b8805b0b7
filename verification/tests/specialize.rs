use billboard_render::pipeline::{
    BillboardPipeline, BillboardPipelineKey, BlendFactor, BlendOperation, DepthCompare,
    MeshVertexLayout, PipelineCache, RenderDevice, ShaderDef, SpecializedMeshPipelineError,
    SpecializedMeshPipelines, TargetFormat, VertexAttribute,
};

fn pipeline() -> BillboardPipeline {
    let mut device = RenderDevice::new();
    BillboardPipeline::from_world(&mut device)
}

fn full_layout() -> MeshVertexLayout {
    MeshVertexLayout { has_position: true, has_uv: true, has_color: true }
}

#[test]
fn specialize_translates_key_bits_into_descriptor_state() {
    let pipeline = pipeline();
    let mut key = BillboardPipelineKey::from_msaa_samples(4);
    key.insert(BillboardPipelineKey::DEPTH);
    key.insert(BillboardPipelineKey::LOCK_Y);
    key.insert(BillboardPipelineKey::HDR);
    let descriptor = pipeline.specialize(key, &full_layout()).unwrap();

    assert_eq!(descriptor.depth_compare, DepthCompare::Greater);
    assert!(!descriptor.depth_write_enabled);
    assert_eq!(descriptor.target_format, TargetFormat::Hdr);
    assert_eq!(descriptor.msaa_count, 4);
    assert_eq!(
        descriptor.shader_defs,
        vec![ShaderDef::VertexColor, ShaderDef::LockY]
    );
    assert_eq!(descriptor.vertex_attributes.len(), 3);
    assert_eq!(descriptor.vertex_attributes[0].attribute, VertexAttribute::Position);
    assert_eq!(descriptor.vertex_attributes[0].shader_location, 0);
    assert_eq!(descriptor.vertex_attributes[1].attribute, VertexAttribute::Uv);
    assert_eq!(descriptor.vertex_attributes[1].shader_location, 1);
    assert_eq!(descriptor.vertex_attributes[2].attribute, VertexAttribute::Color);
    assert_eq!(descriptor.vertex_attributes[2].shader_location, 2);
    assert_eq!(
        descriptor.bind_group_layouts,
        vec![
            pipeline.view_layout.id,
            pipeline.billboard_layout.id,
            pipeline.texture_layout.id
        ]
    );
}

#[test]
fn specialize_without_depth_flag_always_passes() {
    let pipeline = pipeline();
    let key = BillboardPipelineKey::from_msaa_samples(1);
    let descriptor = pipeline.specialize(key, &full_layout()).unwrap();
    assert_eq!(descriptor.depth_compare, DepthCompare::Always);
    assert_eq!(descriptor.target_format, TargetFormat::Standard);
    assert_eq!(descriptor.shader_defs, vec![ShaderDef::VertexColor]);
}

#[test]
fn specialize_blends_source_over_color_and_additive_alpha() {
    let pipeline = pipeline();
    let descriptor = pipeline
        .specialize(BillboardPipelineKey::empty(), &full_layout())
        .unwrap();
    // Source-over for color; deliberately additive for alpha, so
    // overlapping billboards do not double-darken.
    assert_eq!(descriptor.blend.color.src_factor, BlendFactor::SrcAlpha);
    assert_eq!(descriptor.blend.color.dst_factor, BlendFactor::OneMinusSrcAlpha);
    assert_eq!(descriptor.blend.color.operation, BlendOperation::Add);
    assert_eq!(descriptor.blend.alpha.src_factor, BlendFactor::One);
    assert_eq!(descriptor.blend.alpha.dst_factor, BlendFactor::One);
    assert_eq!(descriptor.blend.alpha.operation, BlendOperation::Add);
}

#[test]
fn specialize_rejects_layout_missing_position() {
    let pipeline = pipeline();
    let layout = MeshVertexLayout { has_position: false, has_uv: true, has_color: false };
    let err = pipeline
        .specialize(BillboardPipelineKey::empty(), &layout)
        .unwrap_err();
    assert_eq!(
        err,
        SpecializedMeshPipelineError::MissingVertexAttribute(VertexAttribute::Position)
    );
}

#[test]
fn specialize_rejects_layout_missing_uv() {
    let pipeline = pipeline();
    let layout = MeshVertexLayout { has_position: true, has_uv: false, has_color: true };
    let err = pipeline
        .specialize(BillboardPipelineKey::empty(), &layout)
        .unwrap_err();
    assert_eq!(
        err,
        SpecializedMeshPipelineError::MissingVertexAttribute(VertexAttribute::Uv)
    );
}

#[test]
fn specialize_twice_returns_same_cached_pipeline_identity() {
    let pipeline = pipeline();
    let mut cache = PipelineCache::new();
    let mut pipelines = SpecializedMeshPipelines::new();
    let key = BillboardPipelineKey::from_msaa_samples(4);
    let layout = full_layout();

    let first = pipelines
        .specialize(&mut cache, &pipeline, key, &layout)
        .unwrap();
    let second = pipelines
        .specialize(&mut cache, &pipeline, key, &layout)
        .unwrap();
    assert_eq!(first, second);
    // One pipeline built, not two: the cached identity was reused.
    assert_eq!(cache.pipelines.len(), 1);
    assert_eq!(pipelines.entries.len(), 1);
}

#[test]
fn specialize_distinct_pairs_get_distinct_pipelines() {
    let pipeline = pipeline();
    let mut cache = PipelineCache::new();
    let mut pipelines = SpecializedMeshPipelines::new();
    let layout = full_layout();

    let a = pipelines
        .specialize(&mut cache, &pipeline, BillboardPipelineKey::empty(), &layout)
        .unwrap();
    let mut depth_key = BillboardPipelineKey::empty();
    depth_key.insert(BillboardPipelineKey::DEPTH);
    let b = pipelines
        .specialize(&mut cache, &pipeline, depth_key, &layout)
        .unwrap();
    assert_ne!(a, b);
    assert_eq!(cache.pipelines.len(), 2);
}

#[test]
fn specialize_error_caches_nothing() {
    let pipeline = pipeline();
    let mut cache = PipelineCache::new();
    let mut pipelines = SpecializedMeshPipelines::new();
    let layout = MeshVertexLayout { has_position: false, has_uv: false, has_color: false };
    assert!(pipelines
        .specialize(&mut cache, &pipeline, BillboardPipelineKey::empty(), &layout)
        .is_err());
    assert_eq!(cache.pipelines.len(), 0);
    assert_eq!(pipelines.entries.len(), 0);
}
