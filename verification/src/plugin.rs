//! The per-frame render pipeline, as an explicit sequence of stages: a
//! render context owns the long-lived caches, and one call runs
//! extraction, uniform preparation, bind-group preparation, queueing and
//! transparency sorting over explicit data. The host performs the GPU
//! uploads and submits the recorded commands; nothing here blocks.

use vstd::prelude::*;

use crate::billboard_uniform::{
    prepare_billboard_uniforms, BillboardUniformIndices, BillboardUniforms,
    BillboardUniformsBuffer,
};
use crate::pipeline::{
    prepare_billboard_bind_group, prepare_billboard_view_bind_groups, queue_billboard_texture,
    sort_phase_back_to_front, spec_phase_sorted,
    spec_pipelines_well_formed, spec_queue_views, spec_total_visible, AssetEvent, BillboardBindGroup,
    BillboardImageBindGroups, BillboardPipeline, BillboardView, BillboardViewBindGroup,
    ExtractedView, GpuImage, GpuMesh, ImageBindGroup, PipelineCache, QueueState, RenderDevice,
    SpecializedMeshPipelines, Transparent3d,
};
use crate::text::{extract_billboard_text, spec_extract_text, ExtractedBillboard,
    TextBillboardSource};
use crate::texture::{extract_billboard_texture, spec_extract_texture, TextureBillboardSource};

verus! {

/// The long-lived render state of the billboard subsystem: the GPU device
/// handle, the shared pipeline layouts, and the caches that persist
/// across frames (append-only or evict-on-notification).
pub struct BillboardRenderContext {
    pub render_device: RenderDevice,
    pub billboard_pipeline: BillboardPipeline,
    pub pipeline_cache: PipelineCache,
    pub specialized_pipelines: SpecializedMeshPipelines,
    pub image_bind_groups: BillboardImageBindGroups,
    pub uniforms_buffer: BillboardUniformsBuffer,
    pub uniform_indices: BillboardUniformIndices,
}

impl BillboardRenderContext {
    /// The memoization table points only at pipelines the cache really
    /// holds, each built from its own key and layout.
    pub open spec fn wf(&self) -> bool {
        spec_pipelines_well_formed(
            self.specialized_pipelines.entries@,
            self.billboard_pipeline,
            self.pipeline_cache.pipelines@,
        )
    }

    /// A fresh context: the three bind group layouts built on the device,
    /// every cache empty.
    pub fn new(render_device: RenderDevice) -> (ctx: Self)
        requires
            render_device.next_resource_id + 3 <= u64::MAX,
        ensures
            ctx.wf(),
            ctx.pipeline_cache.pipelines@.len() == 0,
            ctx.specialized_pipelines.entries@.len() == 0,
            ctx.image_bind_groups.values@.len() == 0,
            ctx.render_device.next_resource_id == render_device.next_resource_id + 3,
    {
        let mut render_device = render_device;
        let billboard_pipeline = BillboardPipeline::from_world(&mut render_device);
        BillboardRenderContext {
            render_device,
            billboard_pipeline,
            pipeline_cache: PipelineCache::new(),
            specialized_pipelines: SpecializedMeshPipelines::new(),
            image_bind_groups: BillboardImageBindGroups::new(),
            uniforms_buffer: BillboardUniformsBuffer::new(),
            uniform_indices: BillboardUniformIndices::new(),
        }
    }
}

/// Extraction over both billboard kinds: the text batch first, then the
/// textured batch, each in source order.
pub fn extract_billboards(
    text_sources: &Vec<TextBillboardSource>,
    texture_sources: &Vec<TextureBillboardSource>,
) -> (batch: Vec<(u64, ExtractedBillboard)>)
    ensures
        batch@ == spec_extract_text(text_sources@) + spec_extract_texture(texture_sources@),
{
    let mut batch = extract_billboard_text(text_sources);
    let texture_batch = extract_billboard_texture(texture_sources);
    let mut i: usize = 0;
    while i < texture_batch.len()
        invariant
            i <= texture_batch@.len(),
            texture_batch@ == spec_extract_texture(texture_sources@),
            batch@ == spec_extract_text(text_sources@) + texture_batch@.take(i as int),
        decreases texture_batch@.len() - i,
    {
        batch.push(texture_batch[i]);
        proof {
            assert(batch@ =~= spec_extract_text(text_sources@) + texture_batch@.take(
                i as int + 1,
            ));
        }
        i = i + 1;
    }
    proof {
        assert(texture_batch@.take(texture_batch@.len() as int) =~= texture_batch@);
    }
    batch
}

/// The frame's draw records: each extracted record under its own
/// render-world draw identity, which doubles as its dynamic uniform
/// index.
pub open spec fn spec_draw_records(batch: Seq<(u64, ExtractedBillboard)>) -> Seq<
    (u64, ExtractedBillboard),
> {
    Seq::new(batch.len(), |i: int| (i as u64, batch[i].1))
}

/// Spawns the extracted batch into the render world: every record gets
/// its own draw identity, in batch order.
pub fn spawn_billboard_batch(batch: &Vec<(u64, ExtractedBillboard)>) -> (records: Vec<
    (u64, ExtractedBillboard),
>)
    ensures
        records@ == spec_draw_records(batch@),
{
    let mut records: Vec<(u64, ExtractedBillboard)> = Vec::new();
    let mut i: usize = 0;
    while i < batch.len()
        invariant
            i <= batch@.len(),
            records@ == spec_draw_records(batch@).take(i as int),
        decreases batch@.len() - i,
    {
        records.push((i as u64, batch[i].1));
        proof {
            assert(records@ =~= spec_draw_records(batch@).take(i as int + 1));
        }
        i = i + 1;
    }
    proof {
        assert(spec_draw_records(batch@).take(batch@.len() as int) =~= spec_draw_records(batch@));
    }
    records
}

/// The draw identities a view sees: those of the records whose source
/// entity is in the view's visible set, in record order.
pub open spec fn spec_visible_draws(
    batch: Seq<(u64, ExtractedBillboard)>,
    visible: Seq<u64>,
) -> Seq<u64>
    decreases batch.len(),
{
    if batch.len() == 0 {
        Seq::empty()
    } else {
        let rest = spec_visible_draws(batch.drop_last(), visible);
        if visible.contains(batch.last().0) {
            rest.push((batch.len() - 1) as u64)
        } else {
            rest
        }
    }
}

/// Whether a value occurs in a list of identities.
fn contains_entity(values: &Vec<u64>, value: u64) -> (r: bool)
    ensures
        r == values@.contains(value),
{
    let mut i: usize = 0;
    while i < values.len()
        invariant
            i <= values@.len(),
            forall|j: int| 0 <= j < i ==> values@[j] != value,
        decreases values@.len() - i,
    {
        if values[i] == value {
            return true;
        }
        i = i + 1;
    }
    false
}

/// Computes the draw identities a view sees this frame, from the source
/// entities its visibility pass reported.
pub fn visible_billboard_draws(
    batch: &Vec<(u64, ExtractedBillboard)>,
    visible_entities: &Vec<u64>,
) -> (draws: Vec<u64>)
    ensures
        draws@ == spec_visible_draws(batch@, visible_entities@),
{
    let mut draws: Vec<u64> = Vec::new();
    proof {
        assert(batch@.take(0) =~= Seq::<(u64, ExtractedBillboard)>::empty());
    }
    let mut i: usize = 0;
    while i < batch.len()
        invariant
            i <= batch@.len(),
            draws@ == spec_visible_draws(batch@.take(i as int), visible_entities@),
        decreases batch@.len() - i,
    {
        proof {
            assert(batch@.take(i as int + 1).drop_last() =~= batch@.take(i as int));
            assert(batch@.take(i as int + 1).last() == batch@[i as int]);
        }
        if contains_entity(visible_entities, batch[i].0) {
            draws.push(i as u64);
        }
        i = i + 1;
    }
    proof {
        assert(batch@.take(batch@.len() as int) =~= batch@);
    }
    draws
}


/// The total number of draw slots across all views after visibility
/// expansion: the most texture bind groups one queueing pass can create.
pub open spec fn spec_total_visible_draws(
    batch: Seq<(u64, ExtractedBillboard)>,
    views: Seq<BillboardView>,
) -> int
    decreases views.len(),
{
    if views.len() == 0 {
        0int
    } else {
        spec_total_visible_draws(batch, views.drop_last()) + spec_visible_draws(
            batch,
            views.last().visible_entities@,
        ).len()
    }
}

/// No view can see a negative number of draw slots.
proof fn lemma_total_visible_draws_nonneg(
    batch: Seq<(u64, ExtractedBillboard)>,
    views: Seq<BillboardView>,
)
    ensures
        spec_total_visible_draws(batch, views) >= 0,
    decreases views.len(),
{
    if views.len() > 0 {
        lemma_total_visible_draws_nonneg(batch, views.drop_last());
    }
}

/// Expands each view's visible source entities into the draw identities
/// it sees this frame.
pub fn expand_billboard_views(
    batch: &Vec<(u64, ExtractedBillboard)>,
    views: &Vec<BillboardView>,
) -> (r: Vec<BillboardView>)
    ensures
        r@.len() == views@.len(),
        forall|v: int|
            0 <= v < views@.len() ==> (#[trigger] r@[v]).entity == views@[v].entity && r@[v].view
                == views@[v].view && r@[v].visible_entities@ == spec_visible_draws(
                batch@,
                views@[v].visible_entities@,
            ),
        spec_total_visible(r@) == spec_total_visible_draws(batch@, views@),
{
    let mut r: Vec<BillboardView> = Vec::new();
    proof {
        assert(views@.take(0) =~= Seq::<BillboardView>::empty());
    }
    let mut v: usize = 0;
    while v < views.len()
        invariant
            v <= views@.len(),
            r@.len() == v,
            forall|u: int|
                0 <= u < v ==> (#[trigger] r@[u]).entity == views@[u].entity && r@[u].view
                    == views@[u].view && r@[u].visible_entities@ == spec_visible_draws(
                    batch@,
                    views@[u].visible_entities@,
                ),
            spec_total_visible(r@) == spec_total_visible_draws(batch@, views@.take(v as int)),
        decreases views@.len() - v,
    {
        let ghost prev = r@;
        let draws = visible_billboard_draws(batch, &views[v].visible_entities);
        r.push(BillboardView { entity: views[v].entity, view: views[v].view, visible_entities: draws });
        proof {
            assert(r@.drop_last() =~= prev);
            assert(views@.take(v as int + 1).drop_last() =~= views@.take(v as int));
            assert(views@.take(v as int + 1).last() == views@[v as int]);
        }
        v = v + 1;
    }
    proof {
        assert(views@.take(views@.len() as int) =~= views@);
    }
    r
}

/// Collects the uniform of every draw record, in record order, for the
/// frame's uniform buffer.
pub fn collect_billboard_uniforms(records: &Vec<(u64, ExtractedBillboard)>) -> (u:
    BillboardUniforms)
    ensures
        u.uniforms@ == records@.map_values(
            |r: (u64, ExtractedBillboard)| r.1.uniform,
        ),
{
    let mut uniforms: Vec<crate::BillboardUniform> = Vec::new();
    let mut i: usize = 0;
    while i < records.len()
        invariant
            i <= records@.len(),
            uniforms@ == records@.take(i as int).map_values(
                |r: (u64, ExtractedBillboard)| r.1.uniform,
            ),
        decreases records@.len() - i,
    {
        uniforms.push(records[i].1.uniform);
        proof {
            assert(uniforms@ =~= records@.take(i as int + 1).map_values(
                |r: (u64, ExtractedBillboard)| r.1.uniform,
            ));
        }
        i = i + 1;
    }
    proof {
        assert(records@.take(records@.len() as int) =~= records@);
    }
    BillboardUniforms { uniforms }
}

/// Everything the host hands the billboard subsystem for one frame.
pub struct BillboardFrameInput {
    pub text_sources: Vec<TextBillboardSource>,
    pub texture_sources: Vec<TextureBillboardSource>,
    pub views: Vec<BillboardView>,
    pub msaa_samples: u32,
    pub transparent_draw_function: u64,
    pub gpu_images: Vec<(u64, GpuImage)>,
    pub gpu_meshes: Vec<(u64, GpuMesh)>,
    pub events: Vec<AssetEvent>,
    pub view_uniforms_buffer: Option<u64>,
}

/// The frame's transient render state: draw records, prepared bind
/// groups, and one sorted transparent phase per view. Discarded with the
/// frame.
pub struct BillboardFrameOutput {
    pub draw_records: Vec<(u64, ExtractedBillboard)>,
    pub views: Vec<BillboardView>,
    pub view_bind_groups: Vec<(u64, BillboardViewBindGroup)>,
    pub billboard_bind_group: Option<BillboardBindGroup>,
    pub phases: Vec<Vec<Transparent3d>>,
}

/// The frame's extraction batch: visible text billboards (one record per
/// atlas group), then visible textured billboards.
pub open spec fn spec_frame_batch(input: BillboardFrameInput) -> Seq<(u64, ExtractedBillboard)> {
    spec_extract_text(input.text_sources@) + spec_extract_texture(input.texture_sources@)
}

/// The GPU resource identities one frame can allocate: one view bind
/// group per view, the uniform buffer, the per-billboard bind group, and
/// one texture bind group per draw slot.
pub open spec fn spec_frame_device_budget(input: BillboardFrameInput) -> int {
    input.views@.len() + 2 + spec_total_visible_draws(spec_frame_batch(input), input.views@)
}

/// The device counter after the preparation stages, before queueing.
pub open spec fn spec_prepared_next_id(ctx: BillboardRenderContext, input: BillboardFrameInput) -> int {
    ctx.render_device.next_resource_id + (if ctx.uniforms_buffer.buffer is None {
        1int
    } else {
        0int
    }) + 1 + (if input.view_uniforms_buffer is Some {
        input.views@.len() as int
    } else {
        0int
    })
}

/// Runs one frame of the billboard render pipeline, stage by stage:
/// extract the visible billboards, spawn their draw records, refill the
/// uniform buffer, prepare the uniform bind groups, queue each view's
/// draw candidates against the caches, and sort every phase back to
/// front. The host then uploads buffers and records the passes.
pub fn render_billboard_frame(
    ctx: &mut BillboardRenderContext,
    input: &BillboardFrameInput,
) -> (out: BillboardFrameOutput)
    requires
        old(ctx).wf(),
        spec_frame_batch(*input).len() <= u32::MAX,
        old(ctx).render_device.next_resource_id + spec_frame_device_budget(*input) <= u64::MAX,
    ensures
        final(ctx).wf(),
        out.draw_records@ == spec_draw_records(spec_frame_batch(*input)),
        out.views@.len() == input.views@.len(),
        forall|v: int|
            0 <= v < input.views@.len() ==> (#[trigger] out.views@[v]).entity == input.views@[
                v
            ].entity && out.views@[v].view == input.views@[v].view && out.views@[
                v
            ].visible_entities@ == spec_visible_draws(
                spec_frame_batch(*input),
                input.views@[v].visible_entities@,
            ),
        final(ctx).uniforms_buffer.uniforms@ == spec_frame_batch(*input).map_values(
            |r: (u64, ExtractedBillboard)| r.1.uniform,
        ),
        final(ctx).uniforms_buffer.buffer is Some,
        final(ctx).uniform_indices.indices@ == Seq::new(
            spec_frame_batch(*input).len(),
            |i: int| i as u32,
        ),
        input.view_uniforms_buffer is None ==> out.view_bind_groups@.len() == 0,
        input.view_uniforms_buffer matches Some(buffer) ==> out.view_bind_groups@.len()
            == input.views@.len() && forall|v: int|
            0 <= v < input.views@.len() ==> (#[trigger] out.view_bind_groups@[v]).0
                == input.views@[v].entity
                && out.view_bind_groups@[v].1.value.layout
                == old(ctx).billboard_pipeline.view_layout.id
                && out.view_bind_groups@[v].1.value.buffer == buffer,
        out.billboard_bind_group matches Some(g) && g.value.layout
            == old(ctx).billboard_pipeline.billboard_layout.id
            && Some(g.value.buffer) == final(ctx).uniforms_buffer.buffer,
        ({
            let st0 = QueueState {
                entries: old(ctx).specialized_pipelines.entries@,
                pipeline_count: old(ctx).pipeline_cache.pipelines@.len() as int,
                bind_groups: old(ctx).image_bind_groups.values@.filter(
                    |kv: (u64, ImageBindGroup)| !crate::pipeline::spec_evicted(
                        input.events@,
                        kv.0,
                    ),
                ),
                next_resource_id: spec_prepared_next_id(*old(ctx), *input),
            };
            let (st2, per_view) = spec_queue_views(
                st0,
                out.views@,
                input.msaa_samples,
                input.transparent_draw_function,
                old(ctx).billboard_pipeline.texture_layout.id,
                out.draw_records@,
                input.gpu_images@,
                input.gpu_meshes@,
            );
            &&& final(ctx).specialized_pipelines.entries@ == st2.entries
            &&& final(ctx).pipeline_cache.pipelines@.len() == st2.pipeline_count
            &&& final(ctx).pipeline_cache.pipelines@.take(
                old(ctx).pipeline_cache.pipelines@.len() as int
            ) == old(ctx).pipeline_cache.pipelines@
            &&& final(ctx).image_bind_groups.values@ == st2.bind_groups
            &&& final(ctx).render_device.next_resource_id == st2.next_resource_id
            &&& final(ctx).billboard_pipeline == old(ctx).billboard_pipeline
            &&& out.phases@.len() == input.views@.len()
            &&& forall|v: int|
                0 <= v < input.views@.len() ==> spec_phase_sorted((#[trigger] out.phases@[v])@)
                    && out.phases@[v]@.to_multiset() == per_view[v].to_multiset()
        }),
{
    proof {
        lemma_total_visible_draws_nonneg(spec_frame_batch(*input), input.views@);
    }
    // Extraction: simulation state to render-world draw records.
    let batch = extract_billboards(&input.text_sources, &input.texture_sources);
    let draw_records = spawn_billboard_batch(&batch);

    // The per-frame uniform buffer is cleared and refilled.
    let frame_uniforms = collect_billboard_uniforms(&draw_records);
    proof {
        assert(frame_uniforms.uniforms@.len() == spec_frame_batch(*input).len());
        assert(spec_draw_records(batch@).map_values(
            |r: (u64, ExtractedBillboard)| r.1.uniform,
        ) =~= batch@.map_values(|r: (u64, ExtractedBillboard)| r.1.uniform));
    }
    prepare_billboard_uniforms(
        &frame_uniforms,
        &mut ctx.uniforms_buffer,
        &mut ctx.uniform_indices,
        &mut ctx.render_device,
    );

    // The shared per-billboard bind group over the refilled buffer.
    let billboard_bind_group = prepare_billboard_bind_group(
        &mut ctx.render_device,
        &ctx.billboard_pipeline,
        ctx.uniforms_buffer.binding(),
    );

    // One view-uniform bind group per view entity.
    let mut view_entities: Vec<u64> = Vec::new();
    let mut v: usize = 0;
    while v < input.views.len()
        invariant
            v <= input.views@.len(),
            view_entities@.len() == v,
            forall|u: int| 0 <= u < v ==> view_entities@[u] == (#[trigger] input.views@[u]).entity,
        decreases input.views@.len() - v,
    {
        view_entities.push(input.views[v].entity);
        v = v + 1;
    }
    let view_bind_groups = prepare_billboard_view_bind_groups(
        &view_entities,
        &mut ctx.render_device,
        &ctx.billboard_pipeline,
        input.view_uniforms_buffer,
    );

    // Queue each view's candidates against the long-lived caches.
    let views = expand_billboard_views(&batch, &input.views);
    let mut phases: Vec<Vec<Transparent3d>> = Vec::new();
    let mut p: usize = 0;
    while p < views.len()
        invariant
            p <= views@.len(),
            phases@.len() == p,
            forall|u: int| 0 <= u < p ==> (#[trigger] phases@[u])@.len() == 0,
        decreases views@.len() - p,
    {
        phases.push(Vec::new());
        p = p + 1;
    }
    queue_billboard_texture(
        &views,
        &mut phases,
        &mut ctx.pipeline_cache,
        &mut ctx.image_bind_groups,
        &mut ctx.specialized_pipelines,
        &mut ctx.render_device,
        input.transparent_draw_function,
        input.msaa_samples,
        &ctx.billboard_pipeline,
        &input.gpu_images,
        &input.gpu_meshes,
        &input.events,
        &draw_records,
    );

    proof {
        let st0 = QueueState {
            entries: old(ctx).specialized_pipelines.entries@,
            pipeline_count: old(ctx).pipeline_cache.pipelines@.len() as int,
            bind_groups: old(ctx).image_bind_groups.values@.filter(
                |kv: (u64, ImageBindGroup)| !crate::pipeline::spec_evicted(input.events@, kv.0),
            ),
            next_resource_id: spec_prepared_next_id(*old(ctx), *input),
        };
        let (st2, per_view) = spec_queue_views(
            st0,
            views@,
            input.msaa_samples,
            input.transparent_draw_function,
            old(ctx).billboard_pipeline.texture_layout.id,
            draw_records@,
            input.gpu_images@,
            input.gpu_meshes@,
        );
        assert forall|u: int| 0 <= u < views@.len() implies (#[trigger] phases@[u])@
            == per_view[u] by {
            assert(Seq::<Transparent3d>::empty() + per_view[u] =~= per_view[u]);
        }
    }

    // Transparency wants far-first order within each view.
    let ghost queued_phases = phases@;
    let mut sorted_phases: Vec<Vec<Transparent3d>> = Vec::new();
    while phases.len() > 0
        invariant
            sorted_phases@.len() + phases@.len() == queued_phases.len(),
            phases@ == queued_phases.skip(sorted_phases@.len() as int),
            forall|u: int|
                0 <= u < sorted_phases@.len() ==> spec_phase_sorted(
                    (#[trigger] sorted_phases@[u])@,
                ) && sorted_phases@[u]@.to_multiset() == queued_phases[u]@.to_multiset(),
        decreases phases@.len(),
    {
        let ghost done = sorted_phases@.len() as int;
        let mut phase = phases.remove(0);
        proof {
            assert(phases@ =~= queued_phases.skip(done + 1));
            assert(phase@ == queued_phases[done]@);
        }
        sort_phase_back_to_front(&mut phase);
        sorted_phases.push(phase);
    }
    proof {
        assert(queued_phases.skip(0) =~= queued_phases);
    }

    BillboardFrameOutput {
        draw_records,
        views,
        view_bind_groups,
        billboard_bind_group,
        phases: sorted_phases,
    }
}

} // verus!
