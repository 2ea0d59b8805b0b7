//! The per-frame billboard uniform buffer: cleared and refilled every
//! frame from the extracted billboards, since per-object transforms
//! change frequently. Each billboard's uniform sits at a dynamic index,
//! and the per-object bind group offsets into the buffer by that index at
//! draw time.

use vstd::prelude::*;

use crate::pipeline::RenderDevice;
use crate::BillboardUniform;

verus! {

/// The uniforms collected for this frame, one per extracted billboard
/// draw record, in record order.
pub struct BillboardUniforms {
    pub uniforms: Vec<BillboardUniform>,
}

/// The dynamic uniform buffer the frame's uniforms upload through. The
/// CPU-side values live here; the host uploads them to the GPU buffer
/// under `buffer`, allocated once on first write.
pub struct BillboardUniformsBuffer {
    pub uniforms: Vec<BillboardUniform>,
    pub buffer: Option<u64>,
}

impl BillboardUniformsBuffer {
    /// An empty buffer with no GPU allocation yet.
    pub fn new() -> (b: Self)
        ensures
            b.uniforms@.len() == 0,
            b.buffer is None,
    {
        BillboardUniformsBuffer { uniforms: Vec::new(), buffer: None }
    }

    /// The uniform values staged for upload, in dynamic-index order.
    pub fn uniforms(&self) -> (r: &Vec<BillboardUniform>)
        ensures
            r == &self.uniforms,
    {
        &self.uniforms
    }

    /// The GPU buffer the uniforms upload into, once allocated.
    pub fn binding(&self) -> (r: Option<u64>)
        ensures
            r == self.buffer,
    {
        self.buffer
    }
}

/// The dynamic uniform index of each billboard draw record, parallel to
/// the record list: record `i` draws with offset index `i`.
pub struct BillboardUniformIndices {
    pub indices: Vec<u32>,
}

impl BillboardUniformIndices {
    /// No indices assigned yet.
    pub fn new() -> (b: Self)
        ensures
            b.indices@.len() == 0,
    {
        BillboardUniformIndices { indices: Vec::new() }
    }
}

/// Refills the uniform buffer for this frame: drops last frame's
/// contents, stages every collected uniform in order, assigns each its
/// dynamic index, and makes sure a GPU buffer is allocated for the
/// upload. Nothing persists across frames but the allocation itself.
pub fn prepare_billboard_uniforms(
    billboard_uniforms: &BillboardUniforms,
    buffer: &mut BillboardUniformsBuffer,
    indices: &mut BillboardUniformIndices,
    render_device: &mut RenderDevice,
)
    requires
        billboard_uniforms.uniforms@.len() <= u32::MAX,
        old(render_device).next_resource_id < u64::MAX,
    ensures
        final(buffer).uniforms@ == billboard_uniforms.uniforms@,
        final(buffer).buffer is Some,
        old(buffer).buffer is Some ==> final(buffer).buffer == old(buffer).buffer,
        final(indices).indices@ == Seq::new(
            billboard_uniforms.uniforms@.len(),
            |i: int| i as u32,
        ),
        final(render_device).next_resource_id == old(render_device).next_resource_id + (
        if old(buffer).buffer is None {
            1int
        } else {
            0int
        }),
{
    buffer.uniforms.clear();
    indices.indices.clear();

    let count = billboard_uniforms.uniforms.len();
    let mut i: usize = 0;
    while i < count
        invariant
            i <= count,
            count == billboard_uniforms.uniforms@.len(),
            count <= u32::MAX,
            buffer.buffer == old(buffer).buffer,
            render_device.next_resource_id == old(render_device).next_resource_id,
            old(render_device).next_resource_id < u64::MAX,
            buffer.uniforms@ == billboard_uniforms.uniforms@.take(i as int),
            indices.indices@ == Seq::new(i as nat, |j: int| j as u32),
        decreases count - i,
    {
        buffer.uniforms.push(billboard_uniforms.uniforms[i]);
        indices.indices.push(i as u32);
        proof {
            assert(buffer.uniforms@ =~= billboard_uniforms.uniforms@.take(i as int + 1));
            assert(indices.indices@ =~= Seq::new((i + 1) as nat, |j: int| j as u32));
        }
        i = i + 1;
    }
    proof {
        assert(billboard_uniforms.uniforms@.take(count as int) =~= billboard_uniforms.uniforms@);
    }

    if buffer.buffer.is_none() {
        // Allocate the GPU-side buffer on first use; the identity is a
        // device resource like any other.
        let id = render_device.next_resource_id;
        render_device.next_resource_id = render_device.next_resource_id + 1;
        buffer.buffer = Some(id);
    }
}

} // verus!
