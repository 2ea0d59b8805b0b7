use billboard_render::draw::{
    depth_compare_passes, record_billboard_phase, RenderPassCommand, TrackedRenderPass,
};
use billboard_render::math::{GlobalTransform, IMat4, IVec3, IVec4, Transform, UVec2};
use billboard_render::pipeline::{
    sort_phase_back_to_front, AssetEvent, BillboardImageBindGroups, BillboardPipeline,
    BillboardPipelineKey, BillboardView, DepthCompare, ExtractedView, GpuBufferInfo, GpuImage,
    GpuMesh, ImageBindGroup, MeshVertexLayout, RenderDevice, Transparent3d,
};
use billboard_render::plugin::{
    render_billboard_frame, BillboardFrameInput, BillboardRenderContext,
};
use billboard_render::text::{
    update_billboard_text_layout, Anchor, AtlasRect, BillboardTextHandles, Color, JustifyText,
    LayoutUpdate, MeshAssets, PositionedGlyph, ShapingOutcome, Text, TextBillboardSource,
    TextLayoutInfo, TextSection, TextureAtlas,
};
use billboard_render::texture::TextureBillboardSource;
use billboard_render::{BillboardDepth, BillboardMesh, BillboardTexture};

const RED: Color = Color { r: 255, g: 0, b: 0, a: 255 };
const WHITE: Color = Color { r: 255, g: 255, b: 255, a: 255 };

fn identityish() -> IMat4 {
    IMat4 {
        x_axis: IVec4 { x: 1, y: 0, z: 0, w: 0 },
        y_axis: IVec4 { x: 0, y: 1, z: 0, w: 0 },
        z_axis: IVec4 { x: 0, y: 0, z: 1, w: 0 },
        w_axis: IVec4 { x: 0, y: 0, z: 50, w: 1 },
    }
}

fn full_layout() -> MeshVertexLayout {
    MeshVertexLayout { has_position: true, has_uv: true, has_color: true }
}

fn view_over(entities: &[u64]) -> BillboardView {
    BillboardView {
        entity: 1000,
        view: ExtractedView {
            hdr: false,
            rangefinder: IVec4 { x: 0, y: 0, z: 1, w: 0 },
        },
        visible_entities: entities.to_vec(),
    }
}

fn texture_source(entity: u64, z: i32) -> TextureBillboardSource {
    let mut matrix = identityish();
    matrix.w_axis.z = z;
    TextureBillboardSource {
        entity,
        visible: true,
        global_transform: GlobalTransform { matrix },
        transform: Transform { scale: IVec3 { x: 1, y: 1, z: 1 } },
        mesh: BillboardMesh(11),
        texture: BillboardTexture(22),
        depth: BillboardDepth(true),
        lock_axis: None,
    }
}

fn gpu_mesh() -> GpuMesh {
    GpuMesh {
        vertex_buffer: 500,
        vertex_count: 4,
        buffer_info: GpuBufferInfo::Indexed { buffer: 501, count: 6 },
        layout: full_layout(),
    }
}

fn frame_input(
    text_sources: Vec<TextBillboardSource>,
    texture_sources: Vec<TextureBillboardSource>,
    views: Vec<BillboardView>,
    events: Vec<AssetEvent>,
) -> BillboardFrameInput {
    BillboardFrameInput {
        text_sources,
        texture_sources,
        views,
        msaa_samples: 4,
        transparent_draw_function: 77,
        gpu_images: vec![
            (22, GpuImage { texture_view: 600, sampler: 601 }),
            (7, GpuImage { texture_view: 610, sampler: 611 }),
        ],
        gpu_meshes: vec![(11, gpu_mesh()), (0, gpu_mesh())],
        events,
        view_uniforms_buffer: Some(900),
    }
}

#[test]
fn two_section_text_billboard_yields_one_candidate_with_split_colors() {
    // Two sections "A" (red) and "B" (white), both rasterized into one
    // atlas: layout yields one mesh group, extraction one record, the
    // frame one draw candidate.
    let text = Text {
        sections: vec![
            TextSection { value: String::from("A"), color: RED },
            TextSection { value: String::from("B"), color: WHITE },
        ],
        justify: JustifyText::Left,
        linebreak_no_wrap: false,
    };
    let atlas = TextureAtlas {
        size: UVec2 { x: 100, y: 50 },
        rects: vec![
            AtlasRect { min: UVec2 { x: 0, y: 0 }, max: UVec2 { x: 10, y: 20 } },
            AtlasRect { min: UVec2 { x: 10, y: 0 }, max: UVec2 { x: 25, y: 20 } },
        ],
    };
    let atlases = vec![(7u64, atlas)];
    let info = TextLayoutInfo {
        glyphs: vec![
            PositionedGlyph {
                position_x: 0,
                position_y: 0,
                size_x: 10,
                size_y: 20,
                atlas_texture: 7,
                glyph_index: 0,
                section_index: 0,
            },
            PositionedGlyph {
                position_x: 12,
                position_y: 0,
                size_x: 15,
                size_y: 20,
                atlas_texture: 7,
                glyph_index: 1,
                section_index: 1,
            },
        ],
        logical_size: UVec2 { x: 27, y: 20 },
    };
    let anchor = Anchor { x2: 0, y2: 0 };
    let mut meshes = MeshAssets::new();
    let mut handles = BillboardTextHandles::new();
    let r = update_billboard_text_layout(
        true,
        false,
        &ShapingOutcome::Ready(info),
        &text,
        &anchor,
        &atlases,
        &mut meshes,
        &mut handles,
    );
    assert_eq!(r, LayoutUpdate::Rebuilt);
    assert_eq!(handles.len(), 1);

    // The one mesh holds 8 vertices: the first four red, the next four white.
    let mesh = meshes.get(handles.get(0).mesh).unwrap();
    assert_eq!(mesh.positions.len(), 8);
    assert_eq!(&mesh.colors[0..4], &[RED, RED, RED, RED]);
    assert_eq!(&mesh.colors[4..8], &[WHITE, WHITE, WHITE, WHITE]);

    // Run the frame: extraction yields exactly one record, and the view
    // queues exactly one candidate for it.
    let text_source = TextBillboardSource {
        entity: 42,
        visible: true,
        global_transform: GlobalTransform { matrix: identityish() },
        transform: Transform { scale: IVec3 { x: 1, y: 1, z: 1 } },
        handles,
        depth: BillboardDepth(true),
        lock_axis: None,
    };
    let mut input = frame_input(vec![text_source], vec![], vec![view_over(&[42])], vec![]);
    // The text mesh was stored under identity 0; mark it GPU-resident.
    input.gpu_meshes = vec![(0, gpu_mesh())];
    let mut ctx = BillboardRenderContext::new(RenderDevice::new());
    let out = render_billboard_frame(&mut ctx, &input);

    assert_eq!(out.draw_records.len(), 1);
    assert_eq!(out.phases.len(), 1);
    assert_eq!(out.phases[0].len(), 1);
    assert_eq!(out.phases[0][0].draw_function, 77);
}

#[test]
fn removed_texture_evicts_bind_group_and_next_frame_rebuilds_it() {
    let mut ctx = BillboardRenderContext::new(RenderDevice::new());

    // First frame: the texture gets a cached bind group.
    let input = frame_input(vec![], vec![texture_source(5, 10)], vec![view_over(&[5])], vec![]);
    render_billboard_frame(&mut ctx, &input);
    assert_eq!(ctx.image_bind_groups.values.len(), 1);
    assert_eq!(ctx.image_bind_groups.values[0].0, 22);
    let first_group_id = ctx.image_bind_groups.values[0].1.id;

    // The removal event evicts the entry: the next lookup finds nothing.
    let mut groups_after_event = BillboardImageBindGroups {
        values: ctx.image_bind_groups.values.clone(),
    };
    groups_after_event.evict(&vec![AssetEvent::Removed { id: 22 }]);
    assert!(groups_after_event.values.is_empty());

    // A whole frame carrying the event: the group is rebuilt fresh for
    // the next draw, under a new identity — never reused.
    let input = frame_input(
        vec![],
        vec![texture_source(5, 10)],
        vec![view_over(&[5])],
        vec![AssetEvent::Removed { id: 22 }],
    );
    render_billboard_frame(&mut ctx, &input);
    assert_eq!(ctx.image_bind_groups.values.len(), 1);
    let second_group_id = ctx.image_bind_groups.values[0].1.id;
    assert_ne!(first_group_id, second_group_id);
}

#[test]
fn added_event_does_not_evict() {
    let mut groups = BillboardImageBindGroups {
        values: vec![(
            22,
            ImageBindGroup { id: 1, layout: 2, texture_view: 3, sampler: 4 },
        )],
    };
    groups.evict(&vec![AssetEvent::Added { id: 22 }]);
    assert_eq!(groups.values.len(), 1);
    groups.evict(&vec![AssetEvent::Modified { id: 22 }]);
    assert!(groups.values.is_empty());
}

#[test]
fn depth_flag_off_always_passes_depth_flag_on_needs_nearer() {
    // Depth in fixed point: 0 stands for 0.0, 1000 for 1.0.
    let device_key_off = BillboardPipelineKey::empty();
    let pipeline = {
        let mut device = RenderDevice::new();
        BillboardPipeline::from_world(&mut device)
    };
    let off = pipeline
        .specialize(device_key_off, &full_layout())
        .unwrap()
        .depth_compare;
    assert_eq!(off, DepthCompare::Always);
    for stored in [0u32, 1, 500, 1000, u32::MAX] {
        assert!(depth_compare_passes(off, 0, stored));
        assert!(depth_compare_passes(off, 1000, stored));
    }

    let mut key_on = BillboardPipelineKey::empty();
    key_on.insert(BillboardPipelineKey::DEPTH);
    let on = pipeline
        .specialize(key_on, &full_layout())
        .unwrap()
        .depth_compare;
    assert_eq!(on, DepthCompare::Greater);
    // Reversed-Z: greater is nearer; only nearer fragments pass.
    assert!(depth_compare_passes(on, 1000, 500));
    assert!(!depth_compare_passes(on, 500, 1000));
    assert!(!depth_compare_passes(on, 500, 500));
}

#[test]
fn phases_are_sorted_back_to_front() {
    let mut phase = vec![
        Transparent3d { distance: 10, pipeline: 0, entity: 1, draw_function: 0 },
        Transparent3d { distance: 30, pipeline: 0, entity: 2, draw_function: 0 },
        Transparent3d { distance: 20, pipeline: 0, entity: 3, draw_function: 0 },
    ];
    sort_phase_back_to_front(&mut phase);
    let distances: Vec<i128> = phase.iter().map(|c| c.distance).collect();
    assert_eq!(distances, vec![30, 20, 10]);
    let entities: Vec<u64> = phase.iter().map(|c| c.entity).collect();
    assert_eq!(entities, vec![2, 3, 1]);
}

#[test]
fn frame_sorts_candidates_far_first() {
    let mut ctx = BillboardRenderContext::new(RenderDevice::new());
    // Two textured billboards at different camera-space depths.
    let near = texture_source(1, 10);
    let far = texture_source(2, 90);
    let input = frame_input(vec![], vec![near, far], vec![view_over(&[1, 2])], vec![]);
    let out = render_billboard_frame(&mut ctx, &input);
    assert_eq!(out.phases[0].len(), 2);
    assert!(out.phases[0][0].distance >= out.phases[0][1].distance);
    assert_eq!(out.phases[0][0].distance, 90);
    assert_eq!(out.phases[0][1].distance, 10);
}

#[test]
fn frame_refills_uniform_buffer_each_frame() {
    let mut ctx = BillboardRenderContext::new(RenderDevice::new());
    let input = frame_input(
        vec![],
        vec![texture_source(1, 10), texture_source(2, 20)],
        vec![view_over(&[1, 2])],
        vec![],
    );
    render_billboard_frame(&mut ctx, &input);
    assert_eq!(ctx.uniforms_buffer.uniforms.len(), 2);
    assert_eq!(ctx.uniform_indices.indices, vec![0, 1]);
    let buffer_id = ctx.uniforms_buffer.buffer;
    assert!(buffer_id.is_some());

    // A frame with one billboard: the buffer holds exactly this frame's
    // uniform, under the same allocation.
    let input = frame_input(vec![], vec![texture_source(3, 30)], vec![view_over(&[3])], vec![]);
    render_billboard_frame(&mut ctx, &input);
    assert_eq!(ctx.uniforms_buffer.uniforms.len(), 1);
    assert_eq!(ctx.uniform_indices.indices, vec![0]);
    assert_eq!(ctx.uniforms_buffer.buffer, buffer_id);
}

#[test]
fn recorded_commands_follow_the_fixed_sequence() {
    let mut ctx = BillboardRenderContext::new(RenderDevice::new());
    let input = frame_input(vec![], vec![texture_source(1, 10)], vec![view_over(&[1])], vec![]);
    let out = render_billboard_frame(&mut ctx, &input);
    assert_eq!(out.phases[0].len(), 1);

    let view_bind_group = out.view_bind_groups[0].1;
    let billboard_bind_group = out.billboard_bind_group.unwrap();
    let mut pass = TrackedRenderPass::new();
    record_billboard_phase(
        &out.phases[0],
        0,
        &view_bind_group,
        &billboard_bind_group,
        &ctx.image_bind_groups,
        &out.draw_records,
        &input.gpu_meshes,
        &mut pass,
    );

    // Pipeline, three bind groups in slot order, vertex and index
    // buffers, one indexed draw.
    assert_eq!(pass.commands.len(), 7);
    assert!(matches!(pass.commands[0], RenderPassCommand::SetPipeline { .. }));
    assert!(matches!(
        pass.commands[1],
        RenderPassCommand::SetBindGroup { index: 0, .. }
    ));
    assert!(matches!(
        pass.commands[2],
        RenderPassCommand::SetBindGroup { index: 1, .. }
    ));
    assert!(matches!(
        pass.commands[3],
        RenderPassCommand::SetBindGroup { index: 2, .. }
    ));
    assert!(matches!(
        pass.commands[4],
        RenderPassCommand::SetVertexBuffer { slot: 0, buffer: 500 }
    ));
    assert!(matches!(
        pass.commands[5],
        RenderPassCommand::SetIndexBuffer { buffer: 501 }
    ));
    assert!(matches!(pass.commands[6], RenderPassCommand::DrawIndexed { indices: 6 }));
}

#[test]
fn billboard_with_unready_mesh_is_skipped_this_frame() {
    let mut ctx = BillboardRenderContext::new(RenderDevice::new());
    let mut input = frame_input(vec![], vec![texture_source(1, 10)], vec![view_over(&[1])], vec![]);
    // The mesh asset is not GPU-resident yet.
    input.gpu_meshes = vec![];
    let out = render_billboard_frame(&mut ctx, &input);
    assert_eq!(out.phases[0].len(), 0);
}

#[test]
fn recording_skips_candidate_without_cached_bind_group() {
    let view_bind_group = billboard_render::pipeline::BillboardViewBindGroup {
        value: billboard_render::pipeline::UniformBindGroup { id: 1, layout: 2, buffer: 3 },
    };
    let billboard_bind_group = billboard_render::pipeline::BillboardBindGroup {
        value: billboard_render::pipeline::UniformBindGroup { id: 4, layout: 5, buffer: 6 },
    };
    let images = BillboardImageBindGroups { values: vec![] };
    let records = vec![(
        0u64,
        billboard_render::text::ExtractedBillboard {
            uniform: billboard_render::BillboardUniform { transform: identityish() },
            mesh: billboard_render::pipeline::RenderBillboardMesh { id: 11 },
            image: billboard_render::pipeline::RenderBillboardImage { id: 22 },
            billboard: billboard_render::text::RenderBillboard {
                depth: BillboardDepth(true),
                lock_axis: None,
            },
        },
    )];
    let phase = vec![Transparent3d { distance: 1, pipeline: 0, entity: 0, draw_function: 0 }];
    let mut pass = TrackedRenderPass::new();
    record_billboard_phase(
        &phase,
        0,
        &view_bind_group,
        &billboard_bind_group,
        &images,
        &records,
        &vec![(11, gpu_mesh())],
        &mut pass,
    );
    // No bind group for the texture: the candidate records nothing.
    assert!(pass.commands.is_empty());
}

#[test]
fn recording_unready_mesh_binds_state_but_defers_the_draw() {
    let mut ctx = BillboardRenderContext::new(RenderDevice::new());
    let input = frame_input(vec![], vec![texture_source(1, 10)], vec![view_over(&[1])], vec![]);
    let out = render_billboard_frame(&mut ctx, &input);
    let view_bind_group = out.view_bind_groups[0].1;
    let billboard_bind_group = out.billboard_bind_group.unwrap();

    // The mesh upload has not finished by record time.
    let mut pass = TrackedRenderPass::new();
    record_billboard_phase(
        &out.phases[0],
        0,
        &view_bind_group,
        &billboard_bind_group,
        &ctx.image_bind_groups,
        &out.draw_records,
        &vec![],
        &mut pass,
    );
    // Pipeline and the three bind groups are set, but no buffers are
    // bound and no draw is issued: the candidate waits for a later frame.
    assert_eq!(pass.commands.len(), 4);
    assert!(matches!(pass.commands[0], RenderPassCommand::SetPipeline { .. }));
    assert!(matches!(pass.commands[3], RenderPassCommand::SetBindGroup { index: 2, .. }));
}
