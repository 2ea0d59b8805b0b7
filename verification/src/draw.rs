//! The render command sequence: the fixed, ordered GPU state-binding and
//! draw operations recorded for each transparent billboard candidate, and
//! the depth-comparison semantics the recorded pipeline selects.

use vstd::prelude::*;

use crate::assoc::{assoc_index, spec_assoc_lookup};
use crate::pipeline::{
    BillboardBindGroup, BillboardImageBindGroups, BillboardViewBindGroup, DepthCompare,
    GpuBufferInfo, GpuMesh, RenderBillboardImage, RenderBillboardMesh, Transparent3d,
};

verus! {

// ---------------------------------------------------------------------------
// Depth comparison
// ---------------------------------------------------------------------------

/// Whether a fragment passes the depth test. Depth values follow the
/// reversed-Z convention: larger is nearer the camera.
pub open spec fn spec_depth_passes(compare: DepthCompare, fragment: u32, stored: u32) -> bool {
    match compare {
        DepthCompare::Greater => fragment > stored,
        DepthCompare::Always => true,
    }
}

/// Evaluates the depth comparison a pipeline variant was built with.
pub fn depth_compare_passes(compare: DepthCompare, fragment: u32, stored: u32) -> (r: bool)
    ensures
        r == spec_depth_passes(compare, fragment, stored),
{
    match compare {
        DepthCompare::Greater => fragment > stored,
        DepthCompare::Always => true,
    }
}

/// Law: the depth flag decides the depth test. A billboard whose key has
/// the depth flag clear always passes, against any stored depth; one with
/// the flag set passes exactly when it is nearer under the reversed-Z
/// `greater` comparison.
pub proof fn lemma_depth_flag_semantics(bits: u32, fragment: u32, stored: u32)
    ensures
        bits & crate::pipeline::BillboardPipelineKey::DEPTH == 0 ==> spec_depth_passes(
            crate::pipeline::spec_depth_compare(bits),
            fragment,
            stored,
        ),
        bits & crate::pipeline::BillboardPipelineKey::DEPTH
            == crate::pipeline::BillboardPipelineKey::DEPTH ==> spec_depth_passes(
            crate::pipeline::spec_depth_compare(bits),
            fragment,
            stored,
        ) == (fragment > stored),
{
    assert((1u32 << 1) != 0) by (bit_vector);
}

// ---------------------------------------------------------------------------
// The tracked render pass
// ---------------------------------------------------------------------------

/// One GPU operation recorded into the pass.
#[derive(Clone, Copy, PartialEq, Eq, Structural, Debug)]
pub enum RenderPassCommand {
    SetPipeline { pipeline: usize },
    SetBindGroup { index: u32, bind_group: u64, dynamic_offset: Option<u32> },
    SetVertexBuffer { slot: u32, buffer: u64 },
    SetIndexBuffer { buffer: u64 },
    DrawIndexed { indices: u32 },
    Draw { vertices: u32 },
}

/// The pass being recorded: the commands in order. The host submits them
/// to the GPU after recording; nothing here blocks.
pub struct TrackedRenderPass {
    pub commands: Vec<RenderPassCommand>,
}

impl TrackedRenderPass {
    /// An empty pass.
    pub fn new() -> (p: Self)
        ensures
            p.commands@.len() == 0,
    {
        TrackedRenderPass { commands: Vec::new() }
    }

    /// Records a pipeline switch.
    pub fn set_render_pipeline(&mut self, pipeline: usize)
        ensures
            final(self).commands@ == old(self).commands@.push(
                RenderPassCommand::SetPipeline { pipeline },
            ),
    {
        self.commands.push(RenderPassCommand::SetPipeline { pipeline });
    }

    /// Records binding a bind group at a slot, with an optional dynamic
    /// offset.
    pub fn set_bind_group(&mut self, index: u32, bind_group: u64, dynamic_offset: Option<u32>)
        ensures
            final(self).commands@ == old(self).commands@.push(
                RenderPassCommand::SetBindGroup { index, bind_group, dynamic_offset },
            ),
    {
        self.commands.push(RenderPassCommand::SetBindGroup { index, bind_group, dynamic_offset });
    }

    /// Records binding a vertex buffer at a slot.
    pub fn set_vertex_buffer(&mut self, slot: u32, buffer: u64)
        ensures
            final(self).commands@ == old(self).commands@.push(
                RenderPassCommand::SetVertexBuffer { slot, buffer },
            ),
    {
        self.commands.push(RenderPassCommand::SetVertexBuffer { slot, buffer });
    }

    /// Records binding the index buffer.
    pub fn set_index_buffer(&mut self, buffer: u64)
        ensures
            final(self).commands@ == old(self).commands@.push(
                RenderPassCommand::SetIndexBuffer { buffer },
            ),
    {
        self.commands.push(RenderPassCommand::SetIndexBuffer { buffer });
    }

    /// Records an indexed draw.
    pub fn draw_indexed(&mut self, indices: u32)
        ensures
            final(self).commands@ == old(self).commands@.push(
                RenderPassCommand::DrawIndexed { indices },
            ),
    {
        self.commands.push(RenderPassCommand::DrawIndexed { indices });
    }

    /// Records a non-indexed draw.
    pub fn draw(&mut self, vertices: u32)
        ensures
            final(self).commands@ == old(self).commands@.push(
                RenderPassCommand::Draw { vertices },
            ),
    {
        self.commands.push(RenderPassCommand::Draw { vertices });
    }
}

/// Whether a render command step succeeded. A failure means the frame's
/// state is missing something the draw needs; the candidate's draw is
/// abandoned for this frame.
#[derive(Clone, Copy, PartialEq, Eq, Structural, Debug)]
pub enum RenderCommandResult {
    Success,
    Failure,
}

// ---------------------------------------------------------------------------
// The per-candidate command sequence
// ---------------------------------------------------------------------------

/// Binds the view-uniform bind group at slot `I`, offset by the view's
/// dynamic uniform offset.
pub struct SetBillboardViewBindGroup<const I: usize>;

impl<const I: usize> SetBillboardViewBindGroup<I> {
    /// Records the bind: the view's uniform group at slot `I` with the
    /// view's offset.
    pub fn render(
        view_uniform_offset: u32,
        view_bind_group: &BillboardViewBindGroup,
        pass: &mut TrackedRenderPass,
    ) -> (r: RenderCommandResult)
        requires
            I < 0x1_0000_0000,
        ensures
            final(pass).commands@ == old(pass).commands@.push(
                RenderPassCommand::SetBindGroup {
                    index: I as u32,
                    bind_group: view_bind_group.value.id,
                    dynamic_offset: Some(view_uniform_offset),
                },
            ),
            r == RenderCommandResult::Success,
    {
        pass.set_bind_group(I as u32, view_bind_group.value.id, Some(view_uniform_offset));
        RenderCommandResult::Success
    }
}

/// Binds the shared per-billboard uniform bind group at slot `I`, offset
/// by the candidate's dynamic uniform index.
pub struct SetBillboardBindGroup<const I: usize>;

impl<const I: usize> SetBillboardBindGroup<I> {
    /// Records the bind. The candidate entity owns a dynamic uniform
    /// index by construction of the uniform buffer; a candidate without
    /// one is a frame-state error the queue stage never produces.
    pub fn render(
        billboard_index: Option<u32>,
        billboard_bind_group: &BillboardBindGroup,
        pass: &mut TrackedRenderPass,
    ) -> (r: RenderCommandResult)
        requires
            I < 0x1_0000_0000,
            billboard_index is Some,
        ensures
            final(pass).commands@ == old(pass).commands@.push(
                RenderPassCommand::SetBindGroup {
                    index: I as u32,
                    bind_group: billboard_bind_group.value.id,
                    dynamic_offset: billboard_index,
                },
            ),
            r == RenderCommandResult::Success,
    {
        let index = match billboard_index {
            Some(index) => index,
            None => 0,
        };
        pass.set_bind_group(I as u32, billboard_bind_group.value.id, Some(index));
        RenderCommandResult::Success
    }
}

/// Binds the candidate texture's bind group at slot `I`.
pub struct SetBillboardTextureBindGroup<const I: usize>;

impl<const I: usize> SetBillboardTextureBindGroup<I> {
    /// Records the bind. The queue stage cached a bind group for every
    /// texture it queued a candidate for, so the lookup is owed to
    /// succeed.
    pub fn render(
        billboard_texture: Option<&RenderBillboardImage>,
        images: &BillboardImageBindGroups,
        pass: &mut TrackedRenderPass,
    ) -> (r: RenderCommandResult)
        requires
            I < 0x1_0000_0000,
            billboard_texture matches Some(texture) && spec_assoc_lookup(
                images.values@,
                texture.id,
            ) is Some,
        ensures
            final(pass).commands@ == old(pass).commands@.push(
                RenderPassCommand::SetBindGroup {
                    index: I as u32,
                    bind_group: spec_assoc_lookup(
                        images.values@,
                        billboard_texture.unwrap().id,
                    ).unwrap().id,
                    dynamic_offset: None,
                },
            ),
            r == RenderCommandResult::Success,
    {
        let texture = match billboard_texture {
            Some(texture) => texture,
            None => {
                return RenderCommandResult::Failure;
            },
        };
        let bind_group = match assoc_index(&images.values, texture.id) {
            Some(i) => images.values[i].1,
            None => {
                return RenderCommandResult::Failure;
            },
        };
        pass.set_bind_group(I as u32, bind_group.id, None);
        RenderCommandResult::Success
    }
}

/// The commands `DrawBillboardMesh` records for a resident mesh: its
/// vertex buffer, then an indexed or direct draw.
pub open spec fn spec_draw_mesh_commands(mesh: GpuMesh) -> Seq<RenderPassCommand> {
    match mesh.buffer_info {
        GpuBufferInfo::Indexed { buffer, count } => seq![
            RenderPassCommand::SetVertexBuffer { slot: 0, buffer: mesh.vertex_buffer },
            RenderPassCommand::SetIndexBuffer { buffer },
            RenderPassCommand::DrawIndexed { indices: count },
        ],
        GpuBufferInfo::NonIndexed => seq![
            RenderPassCommand::SetVertexBuffer { slot: 0, buffer: mesh.vertex_buffer },
            RenderPassCommand::Draw { vertices: mesh.vertex_count },
        ],
    }
}

/// Issues the candidate's draw over its mesh's buffers.
pub struct DrawBillboardMesh;

impl DrawBillboardMesh {
    /// Records the draw: vertex buffer, then an indexed draw through the
    /// mesh's index buffer, or a direct draw if it has none. A mesh whose
    /// GPU upload is still pending fails the step — the candidate is
    /// simply deferred to a later frame.
    pub fn render(
        mesh: Option<&RenderBillboardMesh>,
        gpu_meshes: &Vec<(u64, GpuMesh)>,
        pass: &mut TrackedRenderPass,
    ) -> (r: RenderCommandResult)
        requires
            mesh is Some,
        ensures
            ({
                let lookup = spec_assoc_lookup(gpu_meshes@, mesh.unwrap().id);
                match lookup {
                    Some(gpu_mesh) => {
                        &&& r == RenderCommandResult::Success
                        &&& final(pass).commands@ == old(pass).commands@
                            + spec_draw_mesh_commands(gpu_mesh)
                    },
                    None => {
                        &&& r == RenderCommandResult::Failure
                        &&& final(pass).commands@ == old(pass).commands@
                    },
                }
            }),
    {
        let mesh = match mesh {
            Some(mesh) => mesh,
            None => {
                return RenderCommandResult::Failure;
            },
        };
        let gpu_mesh = match assoc_index(gpu_meshes, mesh.id) {
            Some(i) => gpu_meshes[i].1,
            None => {
                return RenderCommandResult::Failure;
            },
        };
        pass.set_vertex_buffer(0, gpu_mesh.vertex_buffer);
        match gpu_mesh.buffer_info {
            GpuBufferInfo::Indexed { buffer, count } => {
                pass.set_index_buffer(buffer);
                pass.draw_indexed(count);
            },
            GpuBufferInfo::NonIndexed => {
                pass.draw(gpu_mesh.vertex_count);
            },
        }
        proof {
            let lookup = spec_assoc_lookup(gpu_meshes@, mesh.id);
            assert(final(pass).commands@ =~= old(pass).commands@ + spec_draw_mesh_commands(
                lookup.unwrap(),
            ));
        }
        RenderCommandResult::Success
    }
}

/// The state-binding prefix one candidate records: pipeline, view
/// uniforms, per-object uniform, then its texture.
pub open spec fn spec_draw_billboard_bindings(
    item: Transparent3d,
    view_uniform_offset: u32,
    billboard_index: u32,
    view_bind_group: BillboardViewBindGroup,
    billboard_bind_group: BillboardBindGroup,
    texture_bind_group_id: u64,
) -> Seq<RenderPassCommand> {
    seq![
        RenderPassCommand::SetPipeline { pipeline: item.pipeline },
        RenderPassCommand::SetBindGroup {
            index: 0,
            bind_group: view_bind_group.value.id,
            dynamic_offset: Some(view_uniform_offset),
        },
        RenderPassCommand::SetBindGroup {
            index: 1,
            bind_group: billboard_bind_group.value.id,
            dynamic_offset: Some(billboard_index),
        },
        RenderPassCommand::SetBindGroup {
            index: 2,
            bind_group: texture_bind_group_id,
            dynamic_offset: None,
        },
    ]
}

/// The full command sequence one candidate records when its mesh is
/// resident: the state bindings, then the mesh draw.
pub open spec fn spec_draw_billboard_commands(
    item: Transparent3d,
    view_uniform_offset: u32,
    billboard_index: u32,
    view_bind_group: BillboardViewBindGroup,
    billboard_bind_group: BillboardBindGroup,
    texture_bind_group_id: u64,
    gpu_mesh: GpuMesh,
) -> Seq<RenderPassCommand> {
    spec_draw_billboard_bindings(
        item,
        view_uniform_offset,
        billboard_index,
        view_bind_group,
        billboard_bind_group,
        texture_bind_group_id,
    ) + spec_draw_mesh_commands(gpu_mesh)
}

/// Records the fixed ordered sequence for one draw candidate: bind the
/// selected pipeline, the view-uniform group (with the view's dynamic
/// offset), the per-object uniform group (with the candidate's dynamic
/// index), the candidate texture's group, then the mesh buffers and the
/// draw itself. A mesh not yet GPU-resident records the bindings but no
/// draw, fails, and is retried some later frame.
pub fn draw_billboard(
    item: &Transparent3d,
    view_uniform_offset: u32,
    billboard_index: u32,
    view_bind_group: &BillboardViewBindGroup,
    billboard_bind_group: &BillboardBindGroup,
    images: &BillboardImageBindGroups,
    texture: &RenderBillboardImage,
    mesh: &RenderBillboardMesh,
    gpu_meshes: &Vec<(u64, GpuMesh)>,
    pass: &mut TrackedRenderPass,
) -> (r: RenderCommandResult)
    requires
        spec_assoc_lookup(images.values@, texture.id) is Some,
    ensures
        ({
            let lookup = spec_assoc_lookup(gpu_meshes@, mesh.id);
            match lookup {
                Some(gpu_mesh) => {
                    &&& r == RenderCommandResult::Success
                    &&& final(pass).commands@ == old(pass).commands@
                        + spec_draw_billboard_commands(
                        *item,
                        view_uniform_offset,
                        billboard_index,
                        *view_bind_group,
                        *billboard_bind_group,
                        spec_assoc_lookup(images.values@, texture.id).unwrap().id,
                        gpu_mesh,
                    )
                },
                None => {
                    &&& r == RenderCommandResult::Failure
                    &&& final(pass).commands@ == old(pass).commands@
                        + spec_draw_billboard_bindings(
                        *item,
                        view_uniform_offset,
                        billboard_index,
                        *view_bind_group,
                        *billboard_bind_group,
                        spec_assoc_lookup(images.values@, texture.id).unwrap().id,
                    )
                },
            }
        }),
{
    pass.set_render_pipeline(item.pipeline);
    let view_result = SetBillboardViewBindGroup::<0>::render(
        view_uniform_offset,
        view_bind_group,
        pass,
    );
    let billboard_result = SetBillboardBindGroup::<1>::render(
        Some(billboard_index),
        billboard_bind_group,
        pass,
    );
    let texture_result = SetBillboardTextureBindGroup::<2>::render(Some(texture), images, pass);
    let mesh_result = DrawBillboardMesh::render(Some(mesh), gpu_meshes, pass);
    proof {
        if spec_assoc_lookup(gpu_meshes@, mesh.id) is Some {
            assert(final(pass).commands@ =~= old(pass).commands@ + spec_draw_billboard_commands(
                *item,
                view_uniform_offset,
                billboard_index,
                *view_bind_group,
                *billboard_bind_group,
                spec_assoc_lookup(images.values@, texture.id).unwrap().id,
                spec_assoc_lookup(gpu_meshes@, mesh.id).unwrap(),
            ));
        } else {
            assert(final(pass).commands@ =~= old(pass).commands@ + spec_draw_billboard_bindings(
                *item,
                view_uniform_offset,
                billboard_index,
                *view_bind_group,
                *billboard_bind_group,
                spec_assoc_lookup(images.values@, texture.id).unwrap().id,
            ));
        }
    }
    mesh_result
}


/// The commands a whole sorted phase records, candidate by candidate: a
/// candidate whose draw record is gone, or whose texture has no cached
/// bind group, records nothing and is skipped; one whose mesh is not yet
/// GPU-resident records its bindings and defers the draw; the rest record
/// the full sequence.
pub open spec fn spec_record_phase(
    phase: Seq<Transparent3d>,
    view_uniform_offset: u32,
    view_bind_group: BillboardViewBindGroup,
    billboard_bind_group: BillboardBindGroup,
    bind_groups: Seq<(u64, crate::pipeline::ImageBindGroup)>,
    records: Seq<(u64, crate::text::ExtractedBillboard)>,
    gpu_meshes: Seq<(u64, GpuMesh)>,
) -> Seq<RenderPassCommand>
    decreases phase.len(),
{
    if phase.len() == 0 {
        Seq::empty()
    } else {
        let rest = spec_record_phase(
            phase.drop_last(),
            view_uniform_offset,
            view_bind_group,
            billboard_bind_group,
            bind_groups,
            records,
            gpu_meshes,
        );
        let c = phase.last();
        rest + (match spec_assoc_lookup(records, c.entity) {
            None => Seq::empty(),
            Some(record) => match spec_assoc_lookup(bind_groups, record.image.id) {
                None => Seq::empty(),
                Some(texture_group) => match spec_assoc_lookup(gpu_meshes, record.mesh.id) {
                    Some(gpu_mesh) => spec_draw_billboard_commands(
                        c,
                        view_uniform_offset,
                        c.entity as u32,
                        view_bind_group,
                        billboard_bind_group,
                        texture_group.id,
                        gpu_mesh,
                    ),
                    None => spec_draw_billboard_bindings(
                        c,
                        view_uniform_offset,
                        c.entity as u32,
                        view_bind_group,
                        billboard_bind_group,
                        texture_group.id,
                    ),
                },
            },
        })
    }
}

/// Records one view's sorted phase: for each candidate in order, the
/// fixed bind-and-draw sequence, with the candidate's draw identity as
/// its dynamic uniform index. Candidates whose frame state is incomplete
/// are skipped or deferred, never aborting the rest of the phase.
pub fn record_billboard_phase(
    phase: &Vec<Transparent3d>,
    view_uniform_offset: u32,
    view_bind_group: &BillboardViewBindGroup,
    billboard_bind_group: &BillboardBindGroup,
    images: &BillboardImageBindGroups,
    records: &Vec<(u64, crate::text::ExtractedBillboard)>,
    gpu_meshes: &Vec<(u64, GpuMesh)>,
    pass: &mut TrackedRenderPass,
)
    requires
        forall|i: int| 0 <= i < phase@.len() ==> (#[trigger] phase@[i]).entity <= u32::MAX,
    ensures
        final(pass).commands@ == old(pass).commands@ + spec_record_phase(
            phase@,
            view_uniform_offset,
            *view_bind_group,
            *billboard_bind_group,
            images.values@,
            records@,
            gpu_meshes@,
        ),
{
    proof {
        assert(phase@.take(0) =~= Seq::<Transparent3d>::empty());
        assert(old(pass).commands@ + Seq::<RenderPassCommand>::empty() =~= old(pass).commands@);
    }
    let mut i: usize = 0;
    while i < phase.len()
        invariant
            i <= phase@.len(),
            forall|j: int| 0 <= j < phase@.len() ==> (#[trigger] phase@[j]).entity <= u32::MAX,
            pass.commands@ == old(pass).commands@ + spec_record_phase(
                phase@.take(i as int),
                view_uniform_offset,
                *view_bind_group,
                *billboard_bind_group,
                images.values@,
                records@,
                gpu_meshes@,
            ),
        decreases phase@.len() - i,
    {
        let candidate = phase[i];
        proof {
            assert(phase@.take(i as int + 1).drop_last() =~= phase@.take(i as int));
            assert(phase@.take(i as int + 1).last() == phase@[i as int]);
        }
        let record = match assoc_index(records, candidate.entity) {
            Some(r) => records[r].1,
            None => {
                proof {
                    assert(pass.commands@ =~= old(pass).commands@ + spec_record_phase(
                        phase@.take(i as int + 1),
                        view_uniform_offset,
                        *view_bind_group,
                        *billboard_bind_group,
                        images.values@,
                        records@,
                        gpu_meshes@,
                    ));
                }
                i = i + 1;
                continue;
            },
        };
        let cached = assoc_index(&images.values, record.image.id);
        if cached.is_none() {
            proof {
                assert(pass.commands@ =~= old(pass).commands@ + spec_record_phase(
                    phase@.take(i as int + 1),
                    view_uniform_offset,
                    *view_bind_group,
                    *billboard_bind_group,
                    images.values@,
                    records@,
                    gpu_meshes@,
                ));
            }
            i = i + 1;
            continue;
        }
        let billboard_index = candidate.entity as u32;
        draw_billboard(
            &candidate,
            view_uniform_offset,
            billboard_index,
            view_bind_group,
            billboard_bind_group,
            images,
            &record.image,
            &record.mesh,
            gpu_meshes,
            pass,
        );
        proof {
            assert(pass.commands@ =~= old(pass).commands@ + spec_record_phase(
                phase@.take(i as int + 1),
                view_uniform_offset,
                *view_bind_group,
                *billboard_bind_group,
                images.values@,
                records@,
                gpu_meshes@,
            ));
        }
        i = i + 1;
    }
    proof {
        assert(phase@.take(phase@.len() as int) =~= phase@);
    }
}

} // verus!
