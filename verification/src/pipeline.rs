//! Pipeline key and specialization: the bit-packed permutation key that
//! selects a GPU pipeline variant, and the memoizing specialization that
//! turns a key plus a vertex layout into a pipeline descriptor.
//!
//! Key layout: bit 0 distinguishes texture mode from text mode, bits 1..=4
//! carry the depth, Y-lock, rotation-lock and HDR features, and the top 3
//! bits carry `log2` of the MSAA sample count (1x up to 128x).

use vstd::prelude::*;
use vstd::std_specs::bits::{axiom_u32_trailing_zeros, u32_trailing_zeros};

use vstd::multiset::Multiset;

use crate::assoc::{assoc_index, spec_assoc_lookup};
use crate::math::IVec4;

verus! {

/// Bit-packed pipeline permutation key. Every distinct bit pattern selects
/// at most one specialized pipeline object (memoized by the pipeline cache).
#[derive(Clone, Copy, PartialEq, Eq, Structural, Debug)]
pub struct BillboardPipelineKey {
    pub bits: u32,
}

impl BillboardPipelineKey {
    /// Text mode: the zero key, no flag set.
    pub const TEXT: u32 = 0;

    /// Texture mode, mutually exclusive with text mode by construction.
    pub const TEXTURE: u32 = 1u32 << 0;

    /// Depth testing on (reversed-Z `greater` comparison).
    pub const DEPTH: u32 = 1u32 << 1;

    /// Orientation locked around the Y axis.
    pub const LOCK_Y: u32 = 1u32 << 2;

    /// Own rotation kept instead of full camera facing.
    pub const LOCK_ROTATION: u32 = 1u32 << 3;

    /// The view renders to an HDR color target.
    pub const HDR: u32 = 1u32 << 4;

    /// Mask of the 3-bit MSAA field before shifting.
    pub const MSAA_MASK_BITS: u32 = 0b111;

    /// The MSAA field occupies the top 3 bits of the key.
    pub const MSAA_SHIFT_BITS: u32 = 29;

    /// The bits of the key reserved for the MSAA sample-count field.
    pub const MSAA_RESERVED_BITS: u32 = 0b111u32 << 29;

    /// The key with no flag set and 1x MSAA: the text-mode base key.
    pub fn empty() -> (key: Self)
        ensures
            key.bits == 0,
    {
        Self { bits: 0 }
    }

    /// The key holding exactly the given bits.
    pub fn from_bits(bits: u32) -> (key: Self)
        ensures
            key.bits == bits,
    {
        Self { bits }
    }

    /// Whether every bit of `flags` is set in this key.
    pub fn contains(&self, flags: u32) -> (r: bool)
        ensures
            r == (self.bits & flags == flags),
    {
        self.bits & flags == flags
    }

    /// Sets every bit of `flags` in this key, leaving the rest unchanged.
    pub fn insert(&mut self, flags: u32)
        ensures
            final(self).bits == old(self).bits | flags,
    {
        self.bits = self.bits | flags;
    }

    /// Encodes an MSAA sample count as `log2(count)` in the top 3 bits;
    /// every other bit of the resulting key is clear.
    pub fn from_msaa_samples(msaa_samples: u32) -> (key: Self)
        ensures
            key.bits == spec_msaa_key_bits(msaa_samples),
            key.bits & Self::MSAA_RESERVED_BITS == key.bits,
    {
        let msaa_bits = (msaa_samples.trailing_zeros() & Self::MSAA_MASK_BITS)
            << Self::MSAA_SHIFT_BITS;
        proof {
            let tz = u32_trailing_zeros(msaa_samples);
            assert(((tz & 0b111) << 29) & (0b111u32 << 29) == ((tz & 0b111) << 29))
                by (bit_vector);
        }
        Self { bits: msaa_bits }
    }

    /// Decodes the MSAA sample count from the top 3 bits of the key.
    pub fn msaa_samples(&self) -> (samples: u32)
        ensures
            samples == spec_msaa_samples(self.bits),
    {
        let exponent = (self.bits >> Self::MSAA_SHIFT_BITS) & Self::MSAA_MASK_BITS;
        proof {
            let b = self.bits;
            assert(((b >> 29) & 0b111) <= 7) by (bit_vector);
        }
        1u32 << exponent
    }
}

/// The bits `from_msaa_samples` produces for a sample count.
pub open spec fn spec_msaa_key_bits(msaa_samples: u32) -> u32 {
    (u32_trailing_zeros(msaa_samples) & 0b111) << 29
}

/// The sample count `msaa_samples` decodes from a key's bits.
pub open spec fn spec_msaa_samples(bits: u32) -> u32 {
    1u32 << ((bits >> 29) & 0b111)
}

/// A sample count the 3-bit field can carry exactly: a power of two from
/// 1x up to 128x.
pub open spec fn spec_encodable_msaa(samples: u32) -> bool {
    exists|k: u32| k <= 7 && samples == (1u32 << k)
}

/// The number of trailing zeros of `1 << k` is `k` itself.
proof fn lemma_trailing_zeros_pow2(k: u32)
    requires
        k < 32,
    ensures
        u32_trailing_zeros(1u32 << k) == k,
{
    let i = 1u32 << k;
    axiom_u32_trailing_zeros(i);
    assert(i != 0) by (bit_vector)
        requires
            i == 1u32 << k && k < 32,
    ;
    let tz = u32_trailing_zeros(i);
    if tz < k {
        assert((i >> tz) & 1u32 == 0u32) by (bit_vector)
            requires
                i == 1u32 << k && tz < k && k < 32,
        ;
    } else if tz > k {
        assert((i >> k) & 1u32 == 0u32);
        assert((i >> k) & 1u32 == 1u32) by (bit_vector)
            requires
                i == 1u32 << k && k < 32,
        ;
    }
}

/// Law: encoding an MSAA sample count and decoding it again returns the
/// count exactly, for every count the field can carry (1, 2, 4, ..., 128).
pub proof fn lemma_msaa_round_trip(samples: u32)
    requires
        spec_encodable_msaa(samples),
    ensures
        spec_msaa_samples(spec_msaa_key_bits(samples)) == samples,
{
    let k = choose|k: u32| k <= 7 && samples == (1u32 << k);
    lemma_trailing_zeros_pow2(k);
    assert(((((k & 0b111) << 29) >> 29) & 0b111) == k) by (bit_vector)
        requires
            k <= 7,
    ;
}

/// Law: the feature bits and the MSAA field of a key are independent.
/// Setting or clearing any flags outside the reserved MSAA bits leaves the
/// decoded sample count unchanged, and merging an MSAA encoding into a key
/// leaves every such flag unchanged.
pub proof fn lemma_key_flags_msaa_independent(bits: u32, flags: u32, samples: u32)
    requires
        flags & BillboardPipelineKey::MSAA_RESERVED_BITS == 0,
    ensures
        spec_msaa_samples(bits | flags) == spec_msaa_samples(bits),
        spec_msaa_samples(bits & !flags) == spec_msaa_samples(bits),
        (bits | spec_msaa_key_bits(samples)) & flags == bits & flags,
{
    let tz = u32_trailing_zeros(samples);
    assert((bits | flags) >> 29 == bits >> 29) by (bit_vector)
        requires
            flags & (0b111u32 << 29) == 0,
    ;
    assert((bits & !flags) >> 29 == bits >> 29) by (bit_vector)
        requires
            flags & (0b111u32 << 29) == 0,
    ;
    assert((bits | ((tz & 0b111) << 29)) & flags == bits & flags) by (bit_vector)
        requires
            flags & (0b111u32 << 29) == 0,
    ;
}

/// Every mode and feature flag of the key lies outside the MSAA field, so
/// the independence law applies to each of them.
pub proof fn lemma_feature_flags_outside_msaa_field()
    ensures
        BillboardPipelineKey::TEXTURE & BillboardPipelineKey::MSAA_RESERVED_BITS == 0,
        BillboardPipelineKey::DEPTH & BillboardPipelineKey::MSAA_RESERVED_BITS == 0,
        BillboardPipelineKey::LOCK_Y & BillboardPipelineKey::MSAA_RESERVED_BITS == 0,
        BillboardPipelineKey::LOCK_ROTATION & BillboardPipelineKey::MSAA_RESERVED_BITS == 0,
        BillboardPipelineKey::HDR & BillboardPipelineKey::MSAA_RESERVED_BITS == 0,
{
    assert((1u32 << 0) & (0b111u32 << 29) == 0) by (bit_vector);
    assert((1u32 << 1) & (0b111u32 << 29) == 0) by (bit_vector);
    assert((1u32 << 2) & (0b111u32 << 29) == 0) by (bit_vector);
    assert((1u32 << 3) & (0b111u32 << 29) == 0) by (bit_vector);
    assert((1u32 << 4) & (0b111u32 << 29) == 0) by (bit_vector);
}

/// The mesh a render-world billboard draws with, by asset identity.
#[derive(Clone, Copy, PartialEq, Eq, Structural, Debug)]
pub struct RenderBillboardMesh {
    pub id: u64,
}

/// The texture a render-world billboard samples, by asset identity.
#[derive(Clone, Copy, PartialEq, Eq, Structural, Debug)]
pub struct RenderBillboardImage {
    pub id: u64,
}

// ---------------------------------------------------------------------------
// GPU resource models
// ---------------------------------------------------------------------------

/// Which shader stages see a binding.
#[derive(Clone, Copy, PartialEq, Eq, Structural, Debug)]
pub struct ShaderStages {
    pub vertex: bool,
    pub fragment: bool,
}

/// The kind of resource a bind group slot carries.
#[derive(Clone, Copy, PartialEq, Eq, Structural, Debug)]
pub enum BindingType {
    UniformBuffer { has_dynamic_offset: bool },
    Texture,
    Sampler,
}

/// One slot of a bind group layout.
#[derive(Clone, Copy, PartialEq, Eq, Structural, Debug)]
pub struct BindGroupLayoutEntry {
    pub binding: u32,
    pub visibility: ShaderStages,
    pub ty: BindingType,
}

/// A bind group layout held by the GPU device; `id` is its identity among
/// all device-created resources.
#[derive(Clone, PartialEq, Eq, Debug)]
pub struct BindGroupLayout {
    pub id: u64,
    pub entries: Vec<BindGroupLayoutEntry>,
}

/// A bind group over a single dynamically offset uniform buffer. Two
/// groups with equal contents are still distinct GPU objects; `id` tells
/// them apart, so a contract can say that a group was rebuilt rather than
/// reused.
#[derive(Clone, Copy, PartialEq, Eq, Structural, Debug)]
pub struct UniformBindGroup {
    pub id: u64,
    pub layout: u64,
    pub buffer: u64,
}

/// A bind group over a texture view (slot 0) and its sampler (slot 1),
/// with the same fresh-identity convention as [`UniformBindGroup`].
#[derive(Clone, Copy, PartialEq, Eq, Structural, Debug)]
pub struct ImageBindGroup {
    pub id: u64,
    pub layout: u64,
    pub texture_view: u64,
    pub sampler: u64,
}

/// The GPU device as this crate sees it: an allocator of bind group layouts
/// and bind groups. Every created object gets a fresh identity, strictly
/// larger than all identities handed out before.
#[derive(Clone, Copy, PartialEq, Eq, Structural, Debug)]
pub struct RenderDevice {
    pub next_resource_id: u64,
}

impl RenderDevice {
    /// A device that has not handed out any resource yet.
    pub fn new() -> (d: Self)
        ensures
            d.next_resource_id == 0,
    {
        Self { next_resource_id: 0 }
    }

    /// Creates a bind group layout with the given slots and a fresh identity.
    pub fn create_bind_group_layout(&mut self, entries: Vec<BindGroupLayoutEntry>) -> (l:
        BindGroupLayout)
        requires
            old(self).next_resource_id < u64::MAX,
        ensures
            l.id == old(self).next_resource_id,
            l.entries@ == entries@,
            final(self).next_resource_id == old(self).next_resource_id + 1,
    {
        let id = self.next_resource_id;
        self.next_resource_id = self.next_resource_id + 1;
        BindGroupLayout { id, entries }
    }

    /// Creates a uniform-buffer bind group with a fresh identity.
    pub fn create_uniform_bind_group(&mut self, layout: &BindGroupLayout, buffer: u64) -> (g:
        UniformBindGroup)
        requires
            old(self).next_resource_id < u64::MAX,
        ensures
            g == (UniformBindGroup {
                id: old(self).next_resource_id,
                layout: layout.id,
                buffer,
            }),
            final(self).next_resource_id == old(self).next_resource_id + 1,
    {
        let id = self.next_resource_id;
        self.next_resource_id = self.next_resource_id + 1;
        UniformBindGroup { id, layout: layout.id, buffer }
    }

    /// Creates a texture-and-sampler bind group with a fresh identity.
    pub fn create_image_bind_group(
        &mut self,
        layout: &BindGroupLayout,
        texture_view: u64,
        sampler: u64,
    ) -> (g: ImageBindGroup)
        requires
            old(self).next_resource_id < u64::MAX,
        ensures
            g == (ImageBindGroup {
                id: old(self).next_resource_id,
                layout: layout.id,
                texture_view,
                sampler,
            }),
            final(self).next_resource_id == old(self).next_resource_id + 1,
    {
        let id = self.next_resource_id;
        self.next_resource_id = self.next_resource_id + 1;
        ImageBindGroup { id, layout: layout.id, texture_view, sampler }
    }
}

// ---------------------------------------------------------------------------
// Vertex layouts and pipeline descriptors
// ---------------------------------------------------------------------------

/// Which vertex attributes a mesh's buffer layout offers.
#[derive(Clone, Copy, PartialEq, Eq, Structural, Debug)]
pub struct MeshVertexLayout {
    pub has_position: bool,
    pub has_uv: bool,
    pub has_color: bool,
}

/// A vertex attribute the billboard shader consumes.
#[derive(Clone, Copy, PartialEq, Eq, Structural, Debug)]
pub enum VertexAttribute {
    Position,
    Uv,
    Color,
}

/// An attribute bound to its fixed shader location.
#[derive(Clone, Copy, PartialEq, Eq, Structural, Debug)]
pub struct VertexAttributeLocation {
    pub attribute: VertexAttribute,
    pub shader_location: u32,
}

/// A compile-time toggle injected into the shader source.
#[derive(Clone, Copy, PartialEq, Eq, Structural, Debug)]
pub enum ShaderDef {
    VertexColor,
    LockY,
    LockRotation,
}

/// The depth comparison a pipeline variant uses. Depth values follow the
/// reversed-Z convention: larger is nearer the camera.
#[derive(Clone, Copy, PartialEq, Eq, Structural, Debug)]
pub enum DepthCompare {
    Greater,
    Always,
}

/// The color target format, chosen by the view's HDR flag.
#[derive(Clone, Copy, PartialEq, Eq, Structural, Debug)]
pub enum TargetFormat {
    Hdr,
    Standard,
}

/// A blend factor of the fixed-function blender.
#[derive(Clone, Copy, PartialEq, Eq, Structural, Debug)]
pub enum BlendFactor {
    SrcAlpha,
    OneMinusSrcAlpha,
    One,
}

/// A blend operation of the fixed-function blender.
#[derive(Clone, Copy, PartialEq, Eq, Structural, Debug)]
pub enum BlendOperation {
    Add,
}

/// Blending for one channel group.
#[derive(Clone, Copy, PartialEq, Eq, Structural, Debug)]
pub struct BlendComponent {
    pub src_factor: BlendFactor,
    pub dst_factor: BlendFactor,
    pub operation: BlendOperation,
}

/// Blending for the color channels and the alpha channel.
#[derive(Clone, Copy, PartialEq, Eq, Structural, Debug)]
pub struct BlendState {
    pub color: BlendComponent,
    pub alpha: BlendComponent,
}

/// Everything a specialized billboard pipeline variant is built from.
#[derive(Clone, PartialEq, Eq, Debug)]
pub struct RenderPipelineDescriptor {
    pub shader_defs: Vec<ShaderDef>,
    pub vertex_attributes: Vec<VertexAttributeLocation>,
    /// The three bind group layouts, by identity, in binding order:
    /// view uniforms, per-billboard uniform, texture and sampler.
    pub bind_group_layouts: Vec<u64>,
    pub target_format: TargetFormat,
    pub blend: BlendState,
    pub depth_compare: DepthCompare,
    pub depth_write_enabled: bool,
    pub msaa_count: u32,
}

/// Specialization failure: the mesh's vertex layout lacks an attribute the
/// shader requires. The affected draw is skipped for the frame; other draws
/// are unaffected.
#[derive(Clone, Copy, PartialEq, Eq, Structural, Debug)]
pub enum SpecializedMeshPipelineError {
    MissingVertexAttribute(VertexAttribute),
}

/// The shader toggles a key and layout select, in the order they are
/// injected: vertex color, then Y lock, then rotation lock.
pub open spec fn spec_shader_defs(bits: u32, layout: MeshVertexLayout) -> Seq<ShaderDef> {
    (if layout.has_color {
        seq![ShaderDef::VertexColor]
    } else {
        Seq::empty()
    }) + (if bits & BillboardPipelineKey::LOCK_Y == BillboardPipelineKey::LOCK_Y {
        seq![ShaderDef::LockY]
    } else {
        Seq::empty()
    }) + (if bits & BillboardPipelineKey::LOCK_ROTATION == BillboardPipelineKey::LOCK_ROTATION {
        seq![ShaderDef::LockRotation]
    } else {
        Seq::empty()
    })
}

/// The vertex attributes a layout feeds the shader: position and UV at
/// their fixed locations, and per-vertex color when the mesh offers it.
pub open spec fn spec_vertex_attribute_locations(layout: MeshVertexLayout) -> Seq<
    VertexAttributeLocation,
> {
    seq![
        VertexAttributeLocation { attribute: VertexAttribute::Position, shader_location: 0 },
        VertexAttributeLocation { attribute: VertexAttribute::Uv, shader_location: 1 },
    ] + (if layout.has_color {
        seq![VertexAttributeLocation { attribute: VertexAttribute::Color, shader_location: 2 }]
    } else {
        Seq::empty()
    })
}

/// Reversed-Z `greater` when the DEPTH flag is set, else always pass.
pub open spec fn spec_depth_compare(bits: u32) -> DepthCompare {
    if bits & BillboardPipelineKey::DEPTH == BillboardPipelineKey::DEPTH {
        DepthCompare::Greater
    } else {
        DepthCompare::Always
    }
}

/// HDR color target iff the HDR flag is set.
pub open spec fn spec_target_format(bits: u32) -> TargetFormat {
    if bits & BillboardPipelineKey::HDR == BillboardPipelineKey::HDR {
        TargetFormat::Hdr
    } else {
        TargetFormat::Standard
    }
}

/// Source-over blending for the color channels and additive blending for
/// the alpha channel — the additive alpha avoids double-darkening where
/// billboards overlap, and is deliberate.
pub open spec fn spec_blend_state() -> BlendState {
    BlendState {
        color: BlendComponent {
            src_factor: BlendFactor::SrcAlpha,
            dst_factor: BlendFactor::OneMinusSrcAlpha,
            operation: BlendOperation::Add,
        },
        alpha: BlendComponent {
            src_factor: BlendFactor::One,
            dst_factor: BlendFactor::One,
            operation: BlendOperation::Add,
        },
    }
}

/// Whether a vertex layout satisfies the shader's required attributes.
pub open spec fn spec_layout_compatible(layout: MeshVertexLayout) -> bool {
    layout.has_position && layout.has_uv
}

/// What `BillboardPipeline::specialize` builds for a key and a layout.
pub open spec fn spec_descriptor_matches(
    d: RenderPipelineDescriptor,
    pipeline: BillboardPipeline,
    bits: u32,
    layout: MeshVertexLayout,
) -> bool {
    &&& d.shader_defs@ == spec_shader_defs(bits, layout)
    &&& d.vertex_attributes@ == spec_vertex_attribute_locations(layout)
    &&& d.bind_group_layouts@ == seq![
        pipeline.view_layout.id,
        pipeline.billboard_layout.id,
        pipeline.texture_layout.id,
    ]
    &&& d.target_format == spec_target_format(bits)
    &&& d.blend == spec_blend_state()
    &&& d.depth_compare == spec_depth_compare(bits)
    &&& d.depth_write_enabled == false
    &&& d.msaa_count == spec_msaa_samples(bits)
}

// ---------------------------------------------------------------------------
// The billboard pipeline and its specialization
// ---------------------------------------------------------------------------

/// The shared state of all billboard pipeline variants: the three bind
/// group layouts every variant binds in the same order.
#[derive(Clone, PartialEq, Eq, Debug)]
pub struct BillboardPipeline {
    pub view_layout: BindGroupLayout,
    pub billboard_layout: BindGroupLayout,
    pub texture_layout: BindGroupLayout,
}

/// The single slot of the view-uniform layout: a dynamically offset uniform
/// buffer visible to both shader stages.
pub open spec fn spec_view_layout_entries() -> Seq<BindGroupLayoutEntry> {
    seq![
        BindGroupLayoutEntry {
            binding: 0,
            visibility: ShaderStages { vertex: true, fragment: true },
            ty: BindingType::UniformBuffer { has_dynamic_offset: true },
        },
    ]
}

/// The single slot of the per-billboard uniform layout: a dynamically
/// offset uniform buffer for the vertex stage.
pub open spec fn spec_billboard_layout_entries() -> Seq<BindGroupLayoutEntry> {
    seq![
        BindGroupLayoutEntry {
            binding: 0,
            visibility: ShaderStages { vertex: true, fragment: false },
            ty: BindingType::UniformBuffer { has_dynamic_offset: true },
        },
    ]
}

/// The two slots of the texture layout: the atlas or billboard texture and
/// its sampler, both for the fragment stage.
pub open spec fn spec_texture_layout_entries() -> Seq<BindGroupLayoutEntry> {
    seq![
        BindGroupLayoutEntry {
            binding: 0,
            visibility: ShaderStages { vertex: false, fragment: true },
            ty: BindingType::Texture,
        },
        BindGroupLayoutEntry {
            binding: 1,
            visibility: ShaderStages { vertex: false, fragment: true },
            ty: BindingType::Sampler,
        },
    ]
}

impl BillboardPipeline {
    /// Builds the three bind group layouts on the device, each with a fresh
    /// identity.
    pub fn from_world(render_device: &mut RenderDevice) -> (p: Self)
        requires
            old(render_device).next_resource_id + 3 <= u64::MAX,
        ensures
            p.view_layout.entries@ == spec_view_layout_entries(),
            p.billboard_layout.entries@ == spec_billboard_layout_entries(),
            p.texture_layout.entries@ == spec_texture_layout_entries(),
            p.view_layout.id == old(render_device).next_resource_id,
            p.billboard_layout.id == old(render_device).next_resource_id + 1,
            p.texture_layout.id == old(render_device).next_resource_id + 2,
            final(render_device).next_resource_id == old(render_device).next_resource_id + 3,
    {
        let mut view_entries: Vec<BindGroupLayoutEntry> = Vec::new();
        view_entries.push(BindGroupLayoutEntry {
            binding: 0,
            visibility: ShaderStages { vertex: true, fragment: true },
            ty: BindingType::UniformBuffer { has_dynamic_offset: true },
        });
        let view_layout = render_device.create_bind_group_layout(view_entries);

        let mut billboard_entries: Vec<BindGroupLayoutEntry> = Vec::new();
        billboard_entries.push(BindGroupLayoutEntry {
            binding: 0,
            visibility: ShaderStages { vertex: true, fragment: false },
            ty: BindingType::UniformBuffer { has_dynamic_offset: true },
        });
        let billboard_layout = render_device.create_bind_group_layout(billboard_entries);

        let mut texture_entries: Vec<BindGroupLayoutEntry> = Vec::new();
        texture_entries.push(BindGroupLayoutEntry {
            binding: 0,
            visibility: ShaderStages { vertex: false, fragment: true },
            ty: BindingType::Texture,
        });
        texture_entries.push(BindGroupLayoutEntry {
            binding: 1,
            visibility: ShaderStages { vertex: false, fragment: true },
            ty: BindingType::Sampler,
        });
        let texture_layout = render_device.create_bind_group_layout(texture_entries);

        BillboardPipeline { view_layout, billboard_layout, texture_layout }
    }

    /// Translates a key and a vertex layout into a concrete pipeline
    /// descriptor. Fails — with the first missing required attribute — iff
    /// the layout lacks position or UV; the caller skips that draw
    /// candidate for the frame rather than aborting.
    pub fn specialize(&self, key: BillboardPipelineKey, layout: &MeshVertexLayout) -> (r: Result<
        RenderPipelineDescriptor,
        SpecializedMeshPipelineError,
    >)
        ensures
            r is Ok <==> spec_layout_compatible(*layout),
            (r matches Ok(d) ==> spec_descriptor_matches(d, *self, key.bits, *layout)),
            !layout.has_position ==> (r matches Err(e) && e
                == SpecializedMeshPipelineError::MissingVertexAttribute(VertexAttribute::Position)),
            layout.has_position && !layout.has_uv ==> (r matches Err(e) && e
                == SpecializedMeshPipelineError::MissingVertexAttribute(VertexAttribute::Uv)),
    {
        if !layout.has_position {
            return Err(
                SpecializedMeshPipelineError::MissingVertexAttribute(VertexAttribute::Position),
            );
        }
        if !layout.has_uv {
            return Err(SpecializedMeshPipelineError::MissingVertexAttribute(VertexAttribute::Uv));
        }

        let mut shader_defs: Vec<ShaderDef> = Vec::new();
        let mut attributes: Vec<VertexAttributeLocation> = Vec::new();

        attributes.push(
            VertexAttributeLocation { attribute: VertexAttribute::Position, shader_location: 0 },
        );
        attributes.push(
            VertexAttributeLocation { attribute: VertexAttribute::Uv, shader_location: 1 },
        );

        if layout.has_color {
            shader_defs.push(ShaderDef::VertexColor);
            attributes.push(
                VertexAttributeLocation { attribute: VertexAttribute::Color, shader_location: 2 },
            );
        }

        let depth_compare = if key.contains(BillboardPipelineKey::DEPTH) {
            DepthCompare::Greater
        } else {
            DepthCompare::Always
        };

        if key.contains(BillboardPipelineKey::LOCK_Y) {
            shader_defs.push(ShaderDef::LockY);
        }
        if key.contains(BillboardPipelineKey::LOCK_ROTATION) {
            shader_defs.push(ShaderDef::LockRotation);
        }

        let mut bind_group_layouts: Vec<u64> = Vec::new();
        bind_group_layouts.push(self.view_layout.id);
        bind_group_layouts.push(self.billboard_layout.id);
        bind_group_layouts.push(self.texture_layout.id);

        let target_format = if key.contains(BillboardPipelineKey::HDR) {
            TargetFormat::Hdr
        } else {
            TargetFormat::Standard
        };

        let msaa_count = key.msaa_samples();

        proof {
            assert(shader_defs@ =~= spec_shader_defs(key.bits, *layout));
            assert(attributes@ =~= spec_vertex_attribute_locations(*layout));
            assert(bind_group_layouts@ =~= seq![
                self.view_layout.id,
                self.billboard_layout.id,
                self.texture_layout.id,
            ]);
        }

        Ok(
            RenderPipelineDescriptor {
                shader_defs,
                vertex_attributes: attributes,
                bind_group_layouts,
                target_format,
                blend: BlendState {
                    color: BlendComponent {
                        src_factor: BlendFactor::SrcAlpha,
                        dst_factor: BlendFactor::OneMinusSrcAlpha,
                        operation: BlendOperation::Add,
                    },
                    alpha: BlendComponent {
                        src_factor: BlendFactor::One,
                        dst_factor: BlendFactor::One,
                        operation: BlendOperation::Add,
                    },
                },
                depth_compare,
                depth_write_enabled: false,
                msaa_count,
            },
        )
    }
}

// ---------------------------------------------------------------------------
// Pipeline memoization
// ---------------------------------------------------------------------------

/// The store of built pipeline variants; a pipeline identity is an index
/// into it. The host compiles these descriptors into GPU programs.
#[derive(Clone, PartialEq, Eq, Debug)]
pub struct PipelineCache {
    pub pipelines: Vec<RenderPipelineDescriptor>,
}

impl PipelineCache {
    /// An empty cache: no variant built yet.
    pub fn new() -> (c: Self)
        ensures
            c.pipelines@.len() == 0,
    {
        Self { pipelines: Vec::new() }
    }
}

/// The memoization table of `specialize`: which (key, vertex layout) pairs
/// already have a pipeline, and under which identity.
#[derive(Clone, PartialEq, Eq, Debug)]
pub struct SpecializedMeshPipelines {
    pub entries: Vec<(BillboardPipelineKey, MeshVertexLayout, usize)>,
}

/// The identity memoized for a (key, layout) pair, if any: the first entry
/// that carries the pair.
pub open spec fn spec_pipeline_lookup(
    entries: Seq<(BillboardPipelineKey, MeshVertexLayout, usize)>,
    key: BillboardPipelineKey,
    layout: MeshVertexLayout,
) -> Option<usize>
    decreases entries.len(),
{
    if entries.len() == 0 {
        None
    } else if entries[0].0 == key && entries[0].1 == layout {
        Some(entries[0].2)
    } else {
        spec_pipeline_lookup(entries.drop_first(), key, layout)
    }
}

/// The memoization table only points at built pipelines, and each entry's
/// pipeline is exactly what specializing its pair builds.
pub open spec fn spec_pipelines_well_formed(
    entries: Seq<(BillboardPipelineKey, MeshVertexLayout, usize)>,
    pipeline: BillboardPipeline,
    pipelines: Seq<RenderPipelineDescriptor>,
) -> bool {
    forall|i: int|
        0 <= i < entries.len() ==> {
            &&& (#[trigger] entries[i]).2 < pipelines.len()
            &&& spec_layout_compatible(entries[i].1)
            &&& spec_descriptor_matches(
                pipelines[entries[i].2 as int],
                pipeline,
                entries[i].0.bits,
                entries[i].1,
            )
        }
}

/// Law: once a pair is memoized under an identity, every later lookup of
/// the same pair finds that same identity — appending entries for other
/// pairs never disturbs it. Together with the contract of
/// `SpecializedMeshPipelines::specialize` this gives idempotence: a second
/// call with an identical (key, layout) pair returns the cached identity
/// and builds nothing new.
pub proof fn lemma_pipeline_lookup_push(
    entries: Seq<(BillboardPipelineKey, MeshVertexLayout, usize)>,
    key: BillboardPipelineKey,
    layout: MeshVertexLayout,
    entry: (BillboardPipelineKey, MeshVertexLayout, usize),
)
    ensures
        spec_pipeline_lookup(entries, key, layout) is Some ==> spec_pipeline_lookup(
            entries.push(entry),
            key,
            layout,
        ) == spec_pipeline_lookup(entries, key, layout),
        spec_pipeline_lookup(entries, key, layout) is None && entry.0 == key && entry.1 == layout
            ==> spec_pipeline_lookup(entries.push(entry), key, layout) == Some(entry.2),
        spec_pipeline_lookup(entries, key, layout) is None && !(entry.0 == key && entry.1
            == layout) ==> spec_pipeline_lookup(entries.push(entry), key, layout) is None,
    decreases entries.len(),
{
    let pushed = entries.push(entry);
    assert(pushed.len() == entries.len() + 1);
    if entries.len() == 0 {
        assert(pushed[0] == entry);
        assert(pushed.drop_first() =~= Seq::<(BillboardPipelineKey, MeshVertexLayout, usize)>::empty());
        if entry.0 == key && entry.1 == layout {
            assert(spec_pipeline_lookup(pushed, key, layout) == Some(entry.2));
        } else {
            assert(spec_pipeline_lookup(pushed, key, layout)
                == spec_pipeline_lookup(pushed.drop_first(), key, layout));
            assert(spec_pipeline_lookup(pushed.drop_first(), key, layout) is None);
        }
    } else {
        assert(pushed[0] == entries[0]);
        assert(pushed.drop_first() =~= entries.drop_first().push(entry));
        lemma_pipeline_lookup_push(entries.drop_first(), key, layout, entry);
        if entries[0].0 == key && entries[0].1 == layout {
            assert(spec_pipeline_lookup(entries, key, layout) == Some(entries[0].2));
            assert(spec_pipeline_lookup(pushed, key, layout) == Some(entries[0].2));
        } else {
            assert(spec_pipeline_lookup(entries, key, layout)
                == spec_pipeline_lookup(entries.drop_first(), key, layout));
            assert(spec_pipeline_lookup(pushed, key, layout)
                == spec_pipeline_lookup(entries.drop_first().push(entry), key, layout));
        }
    }
}

impl SpecializedMeshPipelines {
    /// An empty memoization table.
    pub fn new() -> (s: Self)
        ensures
            s.entries@.len() == 0,
    {
        Self { entries: Vec::new() }
    }

    /// Returns the pipeline identity for a key and vertex layout,
    /// memoized: a pair seen before returns its cached identity and builds
    /// nothing; a new compatible pair builds its descriptor and registers
    /// it under the next free identity; a new incompatible pair fails and
    /// caches nothing.
    pub fn specialize(
        &mut self,
        cache: &mut PipelineCache,
        pipeline: &BillboardPipeline,
        key: BillboardPipelineKey,
        layout: &MeshVertexLayout,
    ) -> (r: Result<usize, SpecializedMeshPipelineError>)
        requires
            spec_pipelines_well_formed(old(self).entries@, *pipeline, old(cache).pipelines@),
        ensures
            spec_pipelines_well_formed(final(self).entries@, *pipeline, final(cache).pipelines@),
            match spec_pipeline_lookup(old(self).entries@, key, *layout) {
                Some(id) => {
                    &&& (r matches Ok(rid) && rid == id)
                    &&& final(self).entries@ == old(self).entries@
                    &&& final(cache).pipelines@ == old(cache).pipelines@
                },
                None => {
                    if spec_layout_compatible(*layout) {
                        &&& (r matches Ok(rid) && rid == old(cache).pipelines@.len())
                        &&& final(cache).pipelines@.len() == old(cache).pipelines@.len() + 1
                        &&& final(cache).pipelines@.take(old(cache).pipelines@.len() as int)
                            == old(cache).pipelines@
                        &&& spec_descriptor_matches(
                            final(cache).pipelines@.last(),
                            *pipeline,
                            key.bits,
                            *layout,
                        )
                        &&& final(self).entries@ == old(self).entries@.push(
                            (key, *layout, old(cache).pipelines@.len() as usize),
                        )
                    } else {
                        &&& r is Err
                        &&& final(self).entries@ == old(self).entries@
                        &&& final(cache).pipelines@ == old(cache).pipelines@
                    }
                },
            },
            (r matches Ok(rid) ==> spec_pipeline_lookup(final(self).entries@, key, *layout)
                == Some(rid)),
            (r matches Err(e) ==> !spec_layout_compatible(*layout)),
    {
        let ghost old_entries = self.entries@;
        proof {
            assert(old_entries.skip(0) =~= old_entries);
        }
        let mut i: usize = 0;
        while i < self.entries.len()
            invariant
                i <= self.entries@.len(),
                old_entries == old(self).entries@,
                self.entries@ == old_entries,
                cache.pipelines@ == old(cache).pipelines@,
                spec_pipelines_well_formed(old(self).entries@, *pipeline, old(cache).pipelines@),
                spec_pipeline_lookup(old_entries, key, *layout) == spec_pipeline_lookup(
                    old_entries.skip(i as int),
                    key,
                    *layout,
                ),
            decreases self.entries@.len() - i,
        {
            let (entry_key, entry_layout, entry_id) = self.entries[i];
            proof {
                assert(old_entries.skip(i as int).drop_first() =~= old_entries.skip(i as int + 1));
                assert(old_entries.skip(i as int)[0] == old_entries[i as int]);
            }
            if entry_key == key && entry_layout == *layout {
                proof {
                    assert(spec_pipeline_lookup(old_entries.skip(i as int), key, *layout)
                        == Some(entry_id));
                    assert(self.entries@ == old(self).entries@);
                }
                return Ok(entry_id);
            }
            i = i + 1;
        }
        proof {
            assert(old_entries.skip(old_entries.len() as int) =~= Seq::empty());
        }

        let descriptor = match pipeline.specialize(key, layout) {
            Ok(descriptor) => descriptor,
            Err(err) => {
                return Err(err);
            },
        };

        let id = cache.pipelines.len();
        cache.pipelines.push(descriptor);
        self.entries.push((key, *layout, id));
        proof {
            assert(final(cache).pipelines@.take(old(cache).pipelines@.len() as int) =~= old(
                cache,
            ).pipelines@);
            lemma_pipeline_lookup_push(old_entries, key, *layout, (key, *layout, id));
        }
        Ok(id)
    }
}

// ---------------------------------------------------------------------------
// Queueing draw candidates
// ---------------------------------------------------------------------------

/// A texture resident on the GPU: its texture view and sampler objects.
#[derive(Clone, Copy, PartialEq, Eq, Structural, Debug)]
pub struct GpuImage {
    pub texture_view: u64,
    pub sampler: u64,
}

/// How a GPU mesh is drawn: through an index buffer, or directly over its
/// vertices.
#[derive(Clone, Copy, PartialEq, Eq, Structural, Debug)]
pub enum GpuBufferInfo {
    Indexed { buffer: u64, count: u32 },
    NonIndexed,
}

/// A mesh resident on the GPU.
#[derive(Clone, Copy, PartialEq, Eq, Structural, Debug)]
pub struct GpuMesh {
    pub vertex_buffer: u64,
    pub vertex_count: u32,
    pub buffer_info: GpuBufferInfo,
    pub layout: MeshVertexLayout,
}

/// A change notification from the external asset system, keyed by texture
/// identity.
#[derive(Clone, Copy, PartialEq, Eq, Structural, Debug)]
pub enum AssetEvent {
    Added { id: u64 },
    LoadedWithDependencies { id: u64 },
    Modified { id: u64 },
    Removed { id: u64 },
    Unused { id: u64 },
}

/// Whether an event invalidates the cached bind group of a texture: a
/// modified, removed or unloaded texture must not keep a stale bind group;
/// a newly added one has nothing cached yet.
pub open spec fn spec_event_evicts(e: AssetEvent, id: u64) -> bool {
    match e {
        AssetEvent::Modified { id: eid } => eid == id,
        AssetEvent::Removed { id: eid } => eid == id,
        AssetEvent::Unused { id: eid } => eid == id,
        _ => false,
    }
}

/// Whether any event of the frame evicts the given texture's bind group.
pub open spec fn spec_evicted(events: Seq<AssetEvent>, id: u64) -> bool {
    exists|j: int| 0 <= j < events.len() && spec_event_evicts(#[trigger] events[j], id)
}

/// The cache of texture bind groups, keyed by texture asset identity.
/// At most one live bind group per texture; entries of changed or removed
/// textures are evicted eagerly, so a stale group referencing a freed GPU
/// resource is never reused.
pub struct BillboardImageBindGroups {
    pub values: Vec<(u64, ImageBindGroup)>,
}

impl BillboardImageBindGroups {
    /// An empty cache.
    pub fn new() -> (c: Self)
        ensures
            c.values@.len() == 0,
    {
        Self { values: Vec::new() }
    }

    /// Whether any event of this frame evicts the given texture.
    fn is_evicted(events: &Vec<AssetEvent>, id: u64) -> (r: bool)
        ensures
            r == spec_evicted(events@, id),
    {
        let mut j: usize = 0;
        while j < events.len()
            invariant
                j <= events@.len(),
                forall|i: int| 0 <= i < j ==> !spec_event_evicts(#[trigger] events@[i], id),
            decreases events@.len() - j,
        {
            let evicts = match events[j] {
                AssetEvent::Modified { id: eid } => eid == id,
                AssetEvent::Removed { id: eid } => eid == id,
                AssetEvent::Unused { id: eid } => eid == id,
                _ => false,
            };
            if evicts {
                return true;
            }
            j = j + 1;
        }
        false
    }

    /// Drops every cached bind group whose texture an event of this frame
    /// modified, removed or unloaded; all other entries stay, in order.
    pub fn evict(&mut self, events: &Vec<AssetEvent>)
        ensures
            final(self).values@ == old(self).values@.filter(
                |kv: (u64, ImageBindGroup)| !spec_evicted(events@, kv.0),
            ),
    {
        let ghost old_values = self.values@;
        let ghost pred = |kv: (u64, ImageBindGroup)| !spec_evicted(events@, kv.0);
        let mut kept: Vec<(u64, ImageBindGroup)> = Vec::new();
        proof {
            reveal(Seq::filter);
            assert(old_values.take(0) =~= Seq::<(u64, ImageBindGroup)>::empty());
        }
        let mut i: usize = 0;
        while i < self.values.len()
            invariant
                i <= old_values.len(),
                self.values@ == old_values,
                pred == (|kv: (u64, ImageBindGroup)| !spec_evicted(events@, kv.0)),
                kept@ == old_values.take(i as int).filter(pred),
            decreases old_values.len() - i,
        {
            let (id, group) = self.values[i];
            proof {
                reveal(Seq::filter);
                assert(old_values.take(i as int + 1).drop_last() =~= old_values.take(i as int));
                assert(old_values.take(i as int + 1).last() == old_values[i as int]);
            }
            if !Self::is_evicted(events, id) {
                kept.push((id, group));
            }
            i = i + 1;
        }
        proof {
            assert(old_values.take(old_values.len() as int) =~= old_values);
        }
        self.values = kept;
    }
}

/// Law: eviction is exact. After the frame's events are processed, a
/// texture one of them modified, removed or unloaded has no cached bind
/// group left — the next lookup misses, and the next draw builds a fresh
/// group — while every other texture keeps exactly the binding it had.
pub proof fn lemma_eviction_exact(
    values: Seq<(u64, ImageBindGroup)>,
    events: Seq<AssetEvent>,
    id: u64,
)
    ensures
        spec_evicted(events, id) ==> spec_assoc_lookup(
            values.filter(|kv: (u64, ImageBindGroup)| !spec_evicted(events, kv.0)),
            id,
        ) is None,
        !spec_evicted(events, id) ==> spec_assoc_lookup(
            values.filter(|kv: (u64, ImageBindGroup)| !spec_evicted(events, kv.0)),
            id,
        ) == spec_assoc_lookup(values, id),
    decreases values.len(),
{
    reveal(Seq::filter);
    let pred = |kv: (u64, ImageBindGroup)| !spec_evicted(events, kv.0);
    if values.len() == 0 {
    } else {
        let rest = values.drop_last();
        let last = values.last();
        lemma_eviction_exact(rest, events, id);
        crate::assoc::lemma_assoc_lookup_push(rest, id, last);
        assert(values =~= rest.push(last));
        if pred(last) {
            crate::assoc::lemma_assoc_lookup_push(rest.filter(pred), id, last);
        } else {
            // The dropped entry's texture was evicted; a key that was not
            // evicted cannot be that texture's.
            if !spec_evicted(events, id) {
                assert(last.0 != id);
            }
        }
    }
}

/// The camera-relevant state of one extracted view: whether it renders to
/// an HDR target, and the row of its view matrix that measures
/// camera-space distance for transparency sorting.
#[derive(Clone, Copy, PartialEq, Eq, Structural, Debug)]
pub struct ExtractedView {
    pub hdr: bool,
    pub rangefinder: IVec4,
}

/// One view to queue draws for: the view entity, the view itself, and
/// the draw entities visible in it this frame.
pub struct BillboardView {
    pub entity: u64,
    pub view: ExtractedView,
    pub visible_entities: Vec<u64>,
}

/// One transparent-pass draw candidate: ephemeral, created during
/// queueing and consumed by command recording within the same frame.
#[derive(Clone, Copy, PartialEq, Eq, Structural, Debug)]
pub struct Transparent3d {
    pub distance: i128,
    pub pipeline: usize,
    pub entity: u64,
    pub draw_function: u64,
}

/// The camera-space distance of a transform's translation column under a
/// view's rangefinder row.
pub open spec fn spec_distance(rangefinder: IVec4, translation: IVec4) -> int {
    rangefinder.x * translation.x + rangefinder.y * translation.y + rangefinder.z * translation.z
        + rangefinder.w * translation.w
}

/// The product of two 32-bit coordinates, exactly.
fn mul_i32(a: i32, b: i32) -> (r: i64)
    ensures
        r == a * b,
{
    proof {
        assert(-0x4000_0000_0000_0000 <= (a as int) * (b as int) <= 0x4000_0000_0000_0000)
            by (nonlinear_arith)
            requires
                -0x8000_0000 <= a <= 0x7fff_ffff,
                -0x8000_0000 <= b <= 0x7fff_ffff,
        ;
    }
    (a as i64) * (b as i64)
}

/// The camera-space distance used to sort a candidate back to front.
pub fn compute_distance(rangefinder: &IVec4, translation: &IVec4) -> (d: i128)
    ensures
        d == spec_distance(*rangefinder, *translation),
{
    let px = mul_i32(rangefinder.x, translation.x);
    let py = mul_i32(rangefinder.y, translation.y);
    let pz = mul_i32(rangefinder.z, translation.z);
    let pw = mul_i32(rangefinder.w, translation.w);
    (px as i128) + (py as i128) + (pz as i128) + (pw as i128)
}

/// The pipeline key a billboard draws with under a view: the MSAA field
/// from the frame's sample count, then each feature flag set iff its
/// condition holds — depth testing on, Y lock requested, rotation lock
/// requested, HDR target.
pub open spec fn spec_key_bits_for(b: crate::text::RenderBillboard, hdr: bool, msaa_samples: u32) -> u32 {
    let k0 = spec_msaa_key_bits(msaa_samples);
    let k1 = if b.depth.0 {
        k0 | BillboardPipelineKey::DEPTH
    } else {
        k0
    };
    let k2 = if (match b.lock_axis {
        Some(l) => l.y_axis,
        None => false,
    }) {
        k1 | BillboardPipelineKey::LOCK_Y
    } else {
        k1
    };
    let k3 = if (match b.lock_axis {
        Some(l) => l.rotation,
        None => false,
    }) {
        k2 | BillboardPipelineKey::LOCK_ROTATION
    } else {
        k2
    };
    if hdr {
        k3 | BillboardPipelineKey::HDR
    } else {
        k3
    }
}

// ---------------------------------------------------------------------------
// Preparing uniform bind groups
// ---------------------------------------------------------------------------

/// The per-view uniform bind group, attached to its view entity.
#[derive(Clone, Copy, PartialEq, Eq, Structural, Debug)]
pub struct BillboardViewBindGroup {
    pub value: UniformBindGroup,
}

/// The shared per-billboard uniform bind group, offset per draw by the
/// billboard's dynamic uniform index.
#[derive(Clone, Copy, PartialEq, Eq, Structural, Debug)]
pub struct BillboardBindGroup {
    pub value: UniformBindGroup,
}

/// Creates one view-uniform bind group per view entity over the frame's
/// view uniform buffer; with no buffer allocated yet, creates nothing.
pub fn prepare_billboard_view_bind_groups(
    views: &Vec<u64>,
    render_device: &mut RenderDevice,
    billboard_pipeline: &BillboardPipeline,
    view_uniforms_buffer: Option<u64>,
) -> (r: Vec<(u64, BillboardViewBindGroup)>)
    requires
        old(render_device).next_resource_id + views@.len() <= u64::MAX,
    ensures
        view_uniforms_buffer is None ==> r@.len() == 0 && *final(render_device) == *old(
            render_device,
        ),
        view_uniforms_buffer matches Some(buffer) ==> {
            &&& r@.len() == views@.len()
            &&& final(render_device).next_resource_id == old(render_device).next_resource_id
                + views@.len()
            &&& forall|i: int|
                0 <= i < views@.len() ==> #[trigger] r@[i] == (
                    views@[i],
                    BillboardViewBindGroup {
                        value: UniformBindGroup {
                            id: (old(render_device).next_resource_id + i) as u64,
                            layout: billboard_pipeline.view_layout.id,
                            buffer,
                        },
                    },
                )
        },
{
    let buffer = match view_uniforms_buffer {
        Some(buffer) => buffer,
        None => {
            return Vec::new();
        },
    };
    let mut r: Vec<(u64, BillboardViewBindGroup)> = Vec::new();
    let mut i: usize = 0;
    while i < views.len()
        invariant
            i <= views@.len(),
            old(render_device).next_resource_id + views@.len() <= u64::MAX,
            render_device.next_resource_id == old(render_device).next_resource_id + i,
            r@.len() == i,
            forall|j: int|
                0 <= j < i ==> #[trigger] r@[j] == (
                    views@[j],
                    BillboardViewBindGroup {
                        value: UniformBindGroup {
                            id: (old(render_device).next_resource_id + j) as u64,
                            layout: billboard_pipeline.view_layout.id,
                            buffer,
                        },
                    },
                ),
        decreases views@.len() - i,
    {
        let group = render_device.create_uniform_bind_group(
            &billboard_pipeline.view_layout,
            buffer,
        );
        r.push((views[i], BillboardViewBindGroup { value: group }));
        i = i + 1;
    }
    r
}

/// Creates the frame's shared per-billboard uniform bind group over the
/// billboard uniform buffer; with no buffer allocated yet, creates
/// nothing.
pub fn prepare_billboard_bind_group(
    render_device: &mut RenderDevice,
    billboard_pipeline: &BillboardPipeline,
    billboard_uniforms_buffer: Option<u64>,
) -> (r: Option<BillboardBindGroup>)
    requires
        old(render_device).next_resource_id < u64::MAX,
    ensures
        billboard_uniforms_buffer is None ==> r is None && *final(render_device) == *old(
            render_device,
        ),
        billboard_uniforms_buffer matches Some(buffer) ==> {
            &&& r == Some(
                BillboardBindGroup {
                    value: UniformBindGroup {
                        id: old(render_device).next_resource_id,
                        layout: billboard_pipeline.billboard_layout.id,
                        buffer,
                    },
                },
            )
            &&& final(render_device).next_resource_id == old(render_device).next_resource_id + 1
        },
{
    let buffer = match billboard_uniforms_buffer {
        Some(buffer) => buffer,
        None => {
            return None;
        },
    };
    let group = render_device.create_uniform_bind_group(
        &billboard_pipeline.billboard_layout,
        buffer,
    );
    Some(BillboardBindGroup { value: group })
}

/// The caches and allocator state the queueing stage threads through its
/// per-entity steps, as mathematical values.
pub ghost struct QueueState {
    pub entries: Seq<(BillboardPipelineKey, MeshVertexLayout, usize)>,
    pub pipeline_count: int,
    pub bind_groups: Seq<(u64, ImageBindGroup)>,
    pub next_resource_id: int,
}

/// Emits the draw candidate for a billboard whose pipeline is settled:
/// computes its sorting distance, and caches a fresh texture bind group
/// if its texture has none.
pub open spec fn spec_queue_emit(
    st: QueueState,
    entity: u64,
    view: ExtractedView,
    draw_function: u64,
    texture_layout: u64,
    billboard: crate::text::ExtractedBillboard,
    gpu_image: GpuImage,
    pipeline_id: usize,
) -> (QueueState, Seq<Transparent3d>) {
    let candidate = Transparent3d {
        distance: spec_distance(view.rangefinder, billboard.uniform.transform.w_axis) as i128,
        pipeline: pipeline_id,
        entity,
        draw_function,
    };
    let st2 = if spec_assoc_lookup(st.bind_groups, billboard.image.id) is Some {
        st
    } else {
        QueueState {
            entries: st.entries,
            pipeline_count: st.pipeline_count,
            bind_groups: st.bind_groups.push(
                (
                    billboard.image.id,
                    ImageBindGroup {
                        id: st.next_resource_id as u64,
                        layout: texture_layout,
                        texture_view: gpu_image.texture_view,
                        sampler: gpu_image.sampler,
                    },
                ),
            ),
            next_resource_id: st.next_resource_id + 1,
        }
    };
    (st2, seq![candidate])
}

/// What queueing one visible entity does. An entity without billboard
/// state, or whose texture or mesh is not yet GPU-resident, or whose mesh
/// layout fails specialization, contributes nothing this frame — the
/// first two skips are transient, the last is per-candidate recoverable.
/// Otherwise it contributes one candidate under the pipeline its key and
/// layout select, memoizing a new pipeline if the pair is new.
pub open spec fn spec_queue_step(
    st: QueueState,
    entity: u64,
    view: ExtractedView,
    msaa_samples: u32,
    draw_function: u64,
    texture_layout: u64,
    billboards: Seq<(u64, crate::text::ExtractedBillboard)>,
    gpu_images: Seq<(u64, GpuImage)>,
    gpu_meshes: Seq<(u64, GpuMesh)>,
) -> (QueueState, Seq<Transparent3d>) {
    match spec_assoc_lookup(billboards, entity) {
        None => (st, Seq::empty()),
        Some(billboard) => match spec_assoc_lookup(gpu_images, billboard.image.id) {
            None => (st, Seq::empty()),
            Some(gpu_image) => match spec_assoc_lookup(gpu_meshes, billboard.mesh.id) {
                None => (st, Seq::empty()),
                Some(gpu_mesh) => {
                    let key = BillboardPipelineKey {
                        bits: spec_key_bits_for(billboard.billboard, view.hdr, msaa_samples),
                    };
                    let layout = gpu_mesh.layout;
                    match spec_pipeline_lookup(st.entries, key, layout) {
                        Some(pipeline_id) => spec_queue_emit(
                            st,
                            entity,
                            view,
                            draw_function,
                            texture_layout,
                            billboard,
                            gpu_image,
                            pipeline_id,
                        ),
                        None => if spec_layout_compatible(layout) {
                            let st1 = QueueState {
                                entries: st.entries.push(
                                    (key, layout, st.pipeline_count as usize),
                                ),
                                pipeline_count: st.pipeline_count + 1,
                                bind_groups: st.bind_groups,
                                next_resource_id: st.next_resource_id,
                            };
                            spec_queue_emit(
                                st1,
                                entity,
                                view,
                                draw_function,
                                texture_layout,
                                billboard,
                                gpu_image,
                                st.pipeline_count as usize,
                            )
                        } else {
                            (st, Seq::empty())
                        },
                    }
                },
            },
        },
    }
}

/// Queueing a list of visible entities: each step threads the caches on,
/// and the candidates concatenate in entity order.
pub open spec fn spec_queue_entities(
    st: QueueState,
    entities: Seq<u64>,
    view: ExtractedView,
    msaa_samples: u32,
    draw_function: u64,
    texture_layout: u64,
    billboards: Seq<(u64, crate::text::ExtractedBillboard)>,
    gpu_images: Seq<(u64, GpuImage)>,
    gpu_meshes: Seq<(u64, GpuMesh)>,
) -> (QueueState, Seq<Transparent3d>)
    decreases entities.len(),
{
    if entities.len() == 0 {
        (st, Seq::empty())
    } else {
        let prefix = spec_queue_entities(
            st,
            entities.drop_last(),
            view,
            msaa_samples,
            draw_function,
            texture_layout,
            billboards,
            gpu_images,
            gpu_meshes,
        );
        let step = spec_queue_step(
            prefix.0,
            entities.last(),
            view,
            msaa_samples,
            draw_function,
            texture_layout,
            billboards,
            gpu_images,
            gpu_meshes,
        );
        (step.0, prefix.1 + step.1)
    }
}

/// Queueing all views of the frame: the caches thread across views, and
/// each view collects its own candidate list.
pub open spec fn spec_queue_views(
    st: QueueState,
    views: Seq<BillboardView>,
    msaa_samples: u32,
    draw_function: u64,
    texture_layout: u64,
    billboards: Seq<(u64, crate::text::ExtractedBillboard)>,
    gpu_images: Seq<(u64, GpuImage)>,
    gpu_meshes: Seq<(u64, GpuMesh)>,
) -> (QueueState, Seq<Seq<Transparent3d>>)
    decreases views.len(),
{
    if views.len() == 0 {
        (st, Seq::empty())
    } else {
        let prefix = spec_queue_views(
            st,
            views.drop_last(),
            msaa_samples,
            draw_function,
            texture_layout,
            billboards,
            gpu_images,
            gpu_meshes,
        );
        let this_view = spec_queue_entities(
            prefix.0,
            views.last().visible_entities@,
            views.last().view,
            msaa_samples,
            draw_function,
            texture_layout,
            billboards,
            gpu_images,
            gpu_meshes,
        );
        (this_view.0, prefix.1.push(this_view.1))
    }
}

/// The total number of visible-entity slots across all views: the most
/// GPU resources one queueing pass can allocate.
pub open spec fn spec_total_visible(views: Seq<BillboardView>) -> int
    decreases views.len(),
{
    if views.len() == 0 {
        0int
    } else {
        spec_total_visible(views.drop_last()) + views.last().visible_entities@.len()
    }
}

/// One queue step allocates at most one GPU resource identity and never
/// rolls the allocator back.
proof fn lemma_queue_step_next_bound(
    st: QueueState,
    entity: u64,
    view: ExtractedView,
    msaa_samples: u32,
    draw_function: u64,
    texture_layout: u64,
    billboards: Seq<(u64, crate::text::ExtractedBillboard)>,
    gpu_images: Seq<(u64, GpuImage)>,
    gpu_meshes: Seq<(u64, GpuMesh)>,
)
    ensures
        ({
            let (st2, cands) = spec_queue_step(
                st,
                entity,
                view,
                msaa_samples,
                draw_function,
                texture_layout,
                billboards,
                gpu_images,
                gpu_meshes,
            );
            st.next_resource_id <= st2.next_resource_id <= st.next_resource_id + 1
        }),
{
}

/// Queueing a list of entities allocates at most one GPU resource
/// identity per entity.
proof fn lemma_queue_entities_next_bound(
    st: QueueState,
    entities: Seq<u64>,
    view: ExtractedView,
    msaa_samples: u32,
    draw_function: u64,
    texture_layout: u64,
    billboards: Seq<(u64, crate::text::ExtractedBillboard)>,
    gpu_images: Seq<(u64, GpuImage)>,
    gpu_meshes: Seq<(u64, GpuMesh)>,
)
    ensures
        ({
            let (st2, cands) = spec_queue_entities(
                st,
                entities,
                view,
                msaa_samples,
                draw_function,
                texture_layout,
                billboards,
                gpu_images,
                gpu_meshes,
            );
            st.next_resource_id <= st2.next_resource_id <= st.next_resource_id + entities.len()
        }),
    decreases entities.len(),
{
    if entities.len() > 0 {
        lemma_queue_entities_next_bound(
            st,
            entities.drop_last(),
            view,
            msaa_samples,
            draw_function,
            texture_layout,
            billboards,
            gpu_images,
            gpu_meshes,
        );
        let prefix = spec_queue_entities(
            st,
            entities.drop_last(),
            view,
            msaa_samples,
            draw_function,
            texture_layout,
            billboards,
            gpu_images,
            gpu_meshes,
        );
        lemma_queue_step_next_bound(
            prefix.0,
            entities.last(),
            view,
            msaa_samples,
            draw_function,
            texture_layout,
            billboards,
            gpu_images,
            gpu_meshes,
        );
    }
}

/// Queueing a prefix of the views allocates at most one GPU resource
/// identity per visible-entity slot in that prefix.
proof fn lemma_queue_views_next_bound(
    st: QueueState,
    views: Seq<BillboardView>,
    msaa_samples: u32,
    draw_function: u64,
    texture_layout: u64,
    billboards: Seq<(u64, crate::text::ExtractedBillboard)>,
    gpu_images: Seq<(u64, GpuImage)>,
    gpu_meshes: Seq<(u64, GpuMesh)>,
)
    ensures
        ({
            let (st2, per) = spec_queue_views(
                st,
                views,
                msaa_samples,
                draw_function,
                texture_layout,
                billboards,
                gpu_images,
                gpu_meshes,
            );
            st.next_resource_id <= st2.next_resource_id <= st.next_resource_id
                + spec_total_visible(views)
        }),
    decreases views.len(),
{
    if views.len() > 0 {
        lemma_queue_views_next_bound(
            st,
            views.drop_last(),
            msaa_samples,
            draw_function,
            texture_layout,
            billboards,
            gpu_images,
            gpu_meshes,
        );
        let prefix = spec_queue_views(
            st,
            views.drop_last(),
            msaa_samples,
            draw_function,
            texture_layout,
            billboards,
            gpu_images,
            gpu_meshes,
        );
        lemma_queue_entities_next_bound(
            prefix.0,
            views.last().visible_entities@,
            views.last().view,
            msaa_samples,
            draw_function,
            texture_layout,
            billboards,
            gpu_images,
            gpu_meshes,
        );
    }
}

/// Queueing collects exactly one candidate list per view.
proof fn lemma_queue_views_count(
    st: QueueState,
    views: Seq<BillboardView>,
    msaa_samples: u32,
    draw_function: u64,
    texture_layout: u64,
    billboards: Seq<(u64, crate::text::ExtractedBillboard)>,
    gpu_images: Seq<(u64, GpuImage)>,
    gpu_meshes: Seq<(u64, GpuMesh)>,
)
    ensures
        spec_queue_views(
            st,
            views,
            msaa_samples,
            draw_function,
            texture_layout,
            billboards,
            gpu_images,
            gpu_meshes,
        ).1.len() == views.len(),
    decreases views.len(),
{
    if views.len() > 0 {
        lemma_queue_views_count(
            st,
            views.drop_last(),
            msaa_samples,
            draw_function,
            texture_layout,
            billboards,
            gpu_images,
            gpu_meshes,
        );
    }
}

/// The visible-entity total of a prefix never exceeds the whole frame's.
proof fn lemma_total_visible_take_le(views: Seq<BillboardView>, v: int)
    requires
        0 <= v <= views.len(),
    ensures
        spec_total_visible(views.take(v)) <= spec_total_visible(views),
    decreases views.len() - v,
{
    if v == views.len() {
        assert(views.take(v) =~= views);
    } else {
        lemma_total_visible_take_le(views, v + 1);
        assert(views.take(v + 1).drop_last() =~= views.take(v));
        assert(views.take(v + 1).last() == views[v]);
    }
}

/// The camera-space distance of any billboard fits the candidate's
/// distance field.
proof fn lemma_distance_fits(rangefinder: IVec4, translation: IVec4)
    ensures
        -0x1_0000_0000_0000_0000 <= spec_distance(rangefinder, translation)
            <= 0x1_0000_0000_0000_0000,
{
    assert(-0x1_0000_0000_0000_0000 <= rangefinder.x * translation.x + rangefinder.y
        * translation.y + rangefinder.z * translation.z + rangefinder.w * translation.w
        <= 0x1_0000_0000_0000_0000) by (nonlinear_arith)
        requires
            -0x8000_0000 <= rangefinder.x <= 0x7fff_ffff,
            -0x8000_0000 <= rangefinder.y <= 0x7fff_ffff,
            -0x8000_0000 <= rangefinder.z <= 0x7fff_ffff,
            -0x8000_0000 <= rangefinder.w <= 0x7fff_ffff,
            -0x8000_0000 <= translation.x <= 0x7fff_ffff,
            -0x8000_0000 <= translation.y <= 0x7fff_ffff,
            -0x8000_0000 <= translation.z <= 0x7fff_ffff,
            -0x8000_0000 <= translation.w <= 0x7fff_ffff,
    ;
}

/// Queues one visible entity: looks up its billboard state and GPU
/// assets, builds the pipeline key, specializes (skipping the candidate
/// on an incompatible layout), ensures its texture bind group is cached,
/// and appends the draw candidate. Skips silently when the entity has no
/// billboard or its assets are not resident yet.
fn queue_one_billboard(
    entity: u64,
    view: &ExtractedView,
    msaa_samples: u32,
    draw_function: u64,
    billboard_pipeline: &BillboardPipeline,
    billboard_pipelines: &mut SpecializedMeshPipelines,
    pipeline_cache: &mut PipelineCache,
    render_device: &mut RenderDevice,
    image_bind_groups: &mut BillboardImageBindGroups,
    billboards: &Vec<(u64, crate::text::ExtractedBillboard)>,
    gpu_images: &Vec<(u64, GpuImage)>,
    gpu_meshes: &Vec<(u64, GpuMesh)>,
    phase: &mut Vec<Transparent3d>,
)
    requires
        spec_pipelines_well_formed(
            old(billboard_pipelines).entries@,
            *billboard_pipeline,
            old(pipeline_cache).pipelines@,
        ),
        old(render_device).next_resource_id < u64::MAX,
    ensures
        spec_pipelines_well_formed(
            final(billboard_pipelines).entries@,
            *billboard_pipeline,
            final(pipeline_cache).pipelines@,
        ),
        final(pipeline_cache).pipelines@.take(old(pipeline_cache).pipelines@.len() as int) == old(
            pipeline_cache,
        ).pipelines@,
        old(pipeline_cache).pipelines@.len() <= final(pipeline_cache).pipelines@.len(),
        ({
            let st0 = QueueState {
                entries: old(billboard_pipelines).entries@,
                pipeline_count: old(pipeline_cache).pipelines@.len() as int,
                bind_groups: old(image_bind_groups).values@,
                next_resource_id: old(render_device).next_resource_id as int,
            };
            let (st2, cands) = spec_queue_step(
                st0,
                entity,
                *view,
                msaa_samples,
                draw_function,
                billboard_pipeline.texture_layout.id,
                billboards@,
                gpu_images@,
                gpu_meshes@,
            );
            &&& final(billboard_pipelines).entries@ == st2.entries
            &&& final(pipeline_cache).pipelines@.len() == st2.pipeline_count
            &&& final(image_bind_groups).values@ == st2.bind_groups
            &&& final(render_device).next_resource_id == st2.next_resource_id
            &&& final(phase)@ == old(phase)@ + cands
        }),
{
    proof {
        assert(old(phase)@ + Seq::<Transparent3d>::empty() =~= old(phase)@);
    }
    let billboard = match assoc_index(billboards, entity) {
        Some(i) => billboards[i].1,
        None => {
            return ;
        },
    };
    let gpu_image = match assoc_index(gpu_images, billboard.image.id) {
        Some(i) => gpu_images[i].1,
        None => {
            return ;
        },
    };
    let gpu_mesh = match assoc_index(gpu_meshes, billboard.mesh.id) {
        Some(i) => gpu_meshes[i].1,
        None => {
            return ;
        },
    };

    let mut key = BillboardPipelineKey::from_msaa_samples(msaa_samples);
    if billboard.billboard.depth.0 {
        key.insert(BillboardPipelineKey::DEPTH);
    }
    let lock_y = match billboard.billboard.lock_axis {
        Some(lock) => lock.y_axis,
        None => false,
    };
    if lock_y {
        key.insert(BillboardPipelineKey::LOCK_Y);
    }
    let lock_rotation = match billboard.billboard.lock_axis {
        Some(lock) => lock.rotation,
        None => false,
    };
    if lock_rotation {
        key.insert(BillboardPipelineKey::LOCK_ROTATION);
    }
    if view.hdr {
        key.insert(BillboardPipelineKey::HDR);
    }
    proof {
        assert(key.bits == spec_key_bits_for(billboard.billboard, view.hdr, msaa_samples));
    }

    let layout = gpu_mesh.layout;
    let pipeline_id = match billboard_pipelines.specialize(
        pipeline_cache,
        billboard_pipeline,
        key,
        &layout,
    ) {
        Ok(id) => id,
        Err(_) => {
            // A malformed mesh must not abort the frame: the host logs the
            // error and this candidate is skipped.
            return ;
        },
    };

    let distance = compute_distance(&view.rangefinder, &billboard.uniform.transform.w_axis);
    proof {
        lemma_distance_fits(view.rangefinder, billboard.uniform.transform.w_axis);
    }

    if assoc_index(&image_bind_groups.values, billboard.image.id).is_none() {
        let group = render_device.create_image_bind_group(
            &billboard_pipeline.texture_layout,
            gpu_image.texture_view,
            gpu_image.sampler,
        );
        image_bind_groups.values.push((billboard.image.id, group));
    }

    phase.push(Transparent3d { distance, pipeline: pipeline_id, entity, draw_function });
    proof {
        let st0 = QueueState {
            entries: old(billboard_pipelines).entries@,
            pipeline_count: old(pipeline_cache).pipelines@.len() as int,
            bind_groups: old(image_bind_groups).values@,
            next_resource_id: old(render_device).next_resource_id as int,
        };
        let (st2, cands) = spec_queue_step(
            st0,
            entity,
            *view,
            msaa_samples,
            draw_function,
            billboard_pipeline.texture_layout.id,
            billboards@,
            gpu_images@,
            gpu_meshes@,
        );
        assert(phase@ =~= old(phase)@ + cands);
    }
}

/// Queues the transparent-pass draws of every view for this frame.
///
/// First the texture bind-group cache drops every entry an asset event
/// invalidated. Then, per view and per visible entity, each billboard
/// with resident assets contributes one sorted-later candidate to that
/// view's phase; pipelines are memoized across views, and texture bind
/// groups are created — fresh, never reused from before their eviction —
/// the first time a texture is drawn.
pub fn queue_billboard_texture(
    views: &Vec<BillboardView>,
    phases: &mut Vec<Vec<Transparent3d>>,
    pipeline_cache: &mut PipelineCache,
    image_bind_groups: &mut BillboardImageBindGroups,
    billboard_pipelines: &mut SpecializedMeshPipelines,
    render_device: &mut RenderDevice,
    transparent_draw_function: u64,
    msaa_samples: u32,
    billboard_pipeline: &BillboardPipeline,
    gpu_images: &Vec<(u64, GpuImage)>,
    gpu_meshes: &Vec<(u64, GpuMesh)>,
    events: &Vec<AssetEvent>,
    billboards: &Vec<(u64, crate::text::ExtractedBillboard)>,
)
    requires
        old(phases)@.len() == views@.len(),
        spec_pipelines_well_formed(
            old(billboard_pipelines).entries@,
            *billboard_pipeline,
            old(pipeline_cache).pipelines@,
        ),
        old(render_device).next_resource_id + spec_total_visible(views@) <= u64::MAX,
    ensures
        spec_pipelines_well_formed(
            final(billboard_pipelines).entries@,
            *billboard_pipeline,
            final(pipeline_cache).pipelines@,
        ),
        final(pipeline_cache).pipelines@.take(old(pipeline_cache).pipelines@.len() as int) == old(
            pipeline_cache,
        ).pipelines@,
        ({
            let st0 = QueueState {
                entries: old(billboard_pipelines).entries@,
                pipeline_count: old(pipeline_cache).pipelines@.len() as int,
                bind_groups: old(image_bind_groups).values@.filter(
                    |kv: (u64, ImageBindGroup)| !spec_evicted(events@, kv.0),
                ),
                next_resource_id: old(render_device).next_resource_id as int,
            };
            let (st2, per_view) = spec_queue_views(
                st0,
                views@,
                msaa_samples,
                transparent_draw_function,
                billboard_pipeline.texture_layout.id,
                billboards@,
                gpu_images@,
                gpu_meshes@,
            );
            &&& final(billboard_pipelines).entries@ == st2.entries
            &&& final(pipeline_cache).pipelines@.len() == st2.pipeline_count
            &&& final(image_bind_groups).values@ == st2.bind_groups
            &&& final(render_device).next_resource_id == st2.next_resource_id
            &&& final(phases)@.len() == views@.len()
            &&& forall|v: int|
                0 <= v < views@.len() ==> (#[trigger] final(phases)@[v])@ == old(phases)@[v]@
                    + per_view[v]
        }),
{
    image_bind_groups.evict(events);

    let ghost st0 = QueueState {
        entries: billboard_pipelines.entries@,
        pipeline_count: pipeline_cache.pipelines@.len() as int,
        bind_groups: image_bind_groups.values@,
        next_resource_id: render_device.next_resource_id as int,
    };
    let ghost old_pipelines_len = pipeline_cache.pipelines@.len() as int;

    let mut new_phases: Vec<Vec<Transparent3d>> = Vec::new();
    proof {
        assert(views@.take(0) =~= Seq::<BillboardView>::empty());
    }
    let mut v: usize = 0;
    while v < views.len()
        invariant
            v <= views@.len(),
            phases@.len() == views@.len(),
            phases@ == old(phases)@,
            st0 == (QueueState {
                entries: old(billboard_pipelines).entries@,
                pipeline_count: old(pipeline_cache).pipelines@.len() as int,
                bind_groups: old(image_bind_groups).values@.filter(
                    |kv: (u64, ImageBindGroup)| !spec_evicted(events@, kv.0),
                ),
                next_resource_id: old(render_device).next_resource_id as int,
            }),
            old_pipelines_len == old(pipeline_cache).pipelines@.len() as int,
            st0.next_resource_id + spec_total_visible(views@) <= u64::MAX,
            spec_pipelines_well_formed(
                billboard_pipelines.entries@,
                *billboard_pipeline,
                pipeline_cache.pipelines@,
            ),
            old_pipelines_len <= pipeline_cache.pipelines@.len(),
            pipeline_cache.pipelines@.take(old_pipelines_len) == old(pipeline_cache).pipelines@,
            ({
                let (st_v, per_view) = spec_queue_views(
                    st0,
                    views@.take(v as int),
                    msaa_samples,
                    transparent_draw_function,
                    billboard_pipeline.texture_layout.id,
                    billboards@,
                    gpu_images@,
                    gpu_meshes@,
                );
                &&& billboard_pipelines.entries@ == st_v.entries
                &&& pipeline_cache.pipelines@.len() == st_v.pipeline_count
                &&& image_bind_groups.values@ == st_v.bind_groups
                &&& render_device.next_resource_id == st_v.next_resource_id
                &&& new_phases@.len() == v
                &&& forall|u: int|
                    0 <= u < v ==> (#[trigger] new_phases@[u])@ == old(phases)@[u]@ + per_view[u]
            }),
        decreases views@.len() - v,
    {
        let ghost (st_v, per_view) = spec_queue_views(
            st0,
            views@.take(v as int),
            msaa_samples,
            transparent_draw_function,
            billboard_pipeline.texture_layout.id,
            billboards@,
            gpu_images@,
            gpu_meshes@,
        );
        proof {
            lemma_queue_views_next_bound(
                st0,
                views@.take(v as int),
                msaa_samples,
                transparent_draw_function,
                billboard_pipeline.texture_layout.id,
                billboards@,
                gpu_images@,
                gpu_meshes@,
            );
            lemma_total_visible_take_le(views@, v as int);
        }

        let billboard_view = &views[v];
        let view = billboard_view.view;
        let entity_count = billboard_view.visible_entities.len();

        // Copy the view's phase so far; candidates append to it.
        let mut phase: Vec<Transparent3d> = Vec::new();
        let mut j: usize = 0;
        while j < phases[v].len()
            invariant
                v < phases@.len(),
                j <= phases@[v as int]@.len(),
                phases@ == old(phases)@,
                phase@ == phases@[v as int]@.take(j as int),
            decreases phases@[v as int]@.len() - j,
        {
            phase.push(phases[v][j]);
            proof {
                assert(phases@[v as int]@.take(j as int + 1) =~= phases@[v as int]@.take(
                    j as int,
                ).push(phases@[v as int]@[j as int]));
            }
            j = j + 1;
        }
        proof {
            assert(phases@[v as int]@.take(phases@[v as int]@.len() as int) =~= phases@[
                v as int
            ]@);
            assert(views@.take(v as int + 1).drop_last() =~= views@.take(v as int));
            assert(views@.take(v as int + 1).last() == views@[v as int]);
            assert(views@[v as int].visible_entities@.take(0) =~= Seq::<u64>::empty());
            lemma_total_visible_take_le(views@, v as int + 1);
        }

        let mut e: usize = 0;
        while e < entity_count
            invariant
                e <= views@[v as int].visible_entities@.len(),
                v < views@.len(),
                entity_count == views@[v as int].visible_entities@.len(),
                view == views@[v as int].view,
                st0.next_resource_id + spec_total_visible(views@) <= u64::MAX,
                spec_total_visible(views@.take(v as int)) + views@[
                    v as int
                ].visible_entities@.len() <= spec_total_visible(views@),
                st_v == spec_queue_views(
                    st0,
                    views@.take(v as int),
                    msaa_samples,
                    transparent_draw_function,
                    billboard_pipeline.texture_layout.id,
                    billboards@,
                    gpu_images@,
                    gpu_meshes@,
                ).0,
                st_v.next_resource_id <= st0.next_resource_id + spec_total_visible(
                    views@.take(v as int),
                ),
                old_pipelines_len == old(pipeline_cache).pipelines@.len() as int,
                spec_pipelines_well_formed(
                    billboard_pipelines.entries@,
                    *billboard_pipeline,
                    pipeline_cache.pipelines@,
                ),
                old_pipelines_len <= pipeline_cache.pipelines@.len(),
                pipeline_cache.pipelines@.take(old_pipelines_len) == old(
                    pipeline_cache,
                ).pipelines@,
                ({
                    let (st_e, cands) = spec_queue_entities(
                        st_v,
                        views@[v as int].visible_entities@.take(e as int),
                        views@[v as int].view,
                        msaa_samples,
                        transparent_draw_function,
                        billboard_pipeline.texture_layout.id,
                        billboards@,
                        gpu_images@,
                        gpu_meshes@,
                    );
                    &&& billboard_pipelines.entries@ == st_e.entries
                    &&& pipeline_cache.pipelines@.len() == st_e.pipeline_count
                    &&& image_bind_groups.values@ == st_e.bind_groups
                    &&& render_device.next_resource_id == st_e.next_resource_id
                    &&& phase@ == old(phases)@[v as int]@ + cands
                }),
            decreases entity_count - e,
        {
            let ghost (st_e, cands) = spec_queue_entities(
                st_v,
                views@[v as int].visible_entities@.take(e as int),
                views@[v as int].view,
                msaa_samples,
                transparent_draw_function,
                billboard_pipeline.texture_layout.id,
                billboards@,
                gpu_images@,
                gpu_meshes@,
            );
            proof {
                lemma_queue_entities_next_bound(
                    st_v,
                    views@[v as int].visible_entities@.take(e as int),
                    views@[v as int].view,
                    msaa_samples,
                    transparent_draw_function,
                    billboard_pipeline.texture_layout.id,
                    billboards@,
                    gpu_images@,
                    gpu_meshes@,
                );
                assert(views@[v as int].visible_entities@.take(e as int).len() == e as int);
                assert(views@[v as int].visible_entities@.take(e as int + 1).drop_last()
                    =~= views@[v as int].visible_entities@.take(e as int));
                assert(views@[v as int].visible_entities@.take(e as int + 1).last() == views@[
                    v as int
                ].visible_entities@[e as int]);
            }
            let entity = views[v].visible_entities[e];
            let ghost pre_pipelines = pipeline_cache.pipelines@;
            let ghost pre_pipelines_len = pipeline_cache.pipelines@.len() as int;
            queue_one_billboard(
                entity,
                &view,
                msaa_samples,
                transparent_draw_function,
                billboard_pipeline,
                billboard_pipelines,
                pipeline_cache,
                render_device,
                image_bind_groups,
                billboards,
                gpu_images,
                gpu_meshes,
                &mut phase,
            );
            proof {
                assert(pre_pipelines.take(old_pipelines_len) == old(pipeline_cache).pipelines@);
                assert(old_pipelines_len <= pre_pipelines.len());
                assert(pipeline_cache.pipelines@.take(pre_pipelines_len) == pre_pipelines);
                assert forall|i2: int| 0 <= i2 < old_pipelines_len implies #[trigger] pipeline_cache.pipelines@[i2]
                    == old(pipeline_cache).pipelines@[i2] by {
                    assert(pipeline_cache.pipelines@.take(pre_pipelines_len)[i2]
                        == pipeline_cache.pipelines@[i2]);
                    assert(pre_pipelines.take(old_pipelines_len)[i2] == pre_pipelines[i2]);
                }
                assert(pipeline_cache.pipelines@.take(old_pipelines_len) =~= old(
                    pipeline_cache,
                ).pipelines@);
            }
            e = e + 1;
        }
        proof {
            assert(views@[v as int].visible_entities@.take(
                views@[v as int].visible_entities@.len() as int,
            ) =~= views@[v as int].visible_entities@);
        }
        new_phases.push(phase);
        proof {
            let next_fold = spec_queue_views(
                st0,
                views@.take(v as int + 1),
                msaa_samples,
                transparent_draw_function,
                billboard_pipeline.texture_layout.id,
                billboards@,
                gpu_images@,
                gpu_meshes@,
            );
            let this_view = spec_queue_entities(
                st_v,
                views@[v as int].visible_entities@,
                views@[v as int].view,
                msaa_samples,
                transparent_draw_function,
                billboard_pipeline.texture_layout.id,
                billboards@,
                gpu_images@,
                gpu_meshes@,
            );
            lemma_queue_views_count(
                st0,
                views@.take(v as int),
                msaa_samples,
                transparent_draw_function,
                billboard_pipeline.texture_layout.id,
                billboards@,
                gpu_images@,
                gpu_meshes@,
            );
            assert(per_view.len() == v as int);
            assert(next_fold.1 == per_view.push(this_view.1));
            assert(new_phases@[v as int]@ == old(phases)@[v as int]@ + next_fold.1[v as int]);
        }
        v = v + 1;
    }
    proof {
        assert(views@.take(views@.len() as int) =~= views@);
    }
    *phases = new_phases;
}

/// Back-to-front order: every candidate is at least as distant as each
/// one after it, so transparent billboards blend far-first.
pub open spec fn spec_phase_sorted(phase: Seq<Transparent3d>) -> bool {
    forall|i: int, j: int|
        0 <= i < j < phase.len() ==> (#[trigger] phase[i]).distance >= (#[trigger] phase[j]).distance
}

/// Sorts a view's draw candidates back to front (farthest first) for
/// correct alpha blending; the candidates themselves are exactly those
/// queued, rearranged only.
pub fn sort_phase_back_to_front(phase: &mut Vec<Transparent3d>)
    ensures
        spec_phase_sorted(final(phase)@),
        final(phase)@.to_multiset() == old(phase)@.to_multiset(),
{
    broadcast use vstd::prelude::Seq::to_multiset_ensures;
    broadcast use vstd::multiset::group_multiset_axioms;

    let mut rest: Vec<Transparent3d> = Vec::new();
    std::mem::swap(phase, &mut rest);
    proof {
        phase@.to_multiset_ensures();
        assert forall|x: Transparent3d| #[trigger] phase@.to_multiset().count(x) == 0 by {
            assert(!phase@.contains(x));
        }
        assert(phase@.to_multiset().add(rest@.to_multiset()) =~= old(phase)@.to_multiset());
    }
    while rest.len() > 0
        invariant
            spec_phase_sorted(phase@),
            forall|i: int, j: int|
                0 <= i < phase@.len() && 0 <= j < rest@.len() ==> (#[trigger] phase@[i]).distance
                    >= (#[trigger] rest@[j]).distance,
            phase@.to_multiset().add(rest@.to_multiset()) == old(phase)@.to_multiset(),
        decreases rest@.len(),
    {
        let mut best: usize = 0;
        let mut j: usize = 1;
        while j < rest.len()
            invariant
                best < rest@.len(),
                j <= rest@.len(),
                forall|i: int|
                    0 <= i < j ==> rest@[best as int].distance >= (#[trigger] rest@[i]).distance,
            decreases rest@.len() - j,
        {
            if rest[j].distance > rest[best].distance {
                best = j;
            }
            j = j + 1;
        }
        let ghost pre_phase = phase@;
        let ghost pre_rest = rest@;
        let candidate = rest.remove(best);
        phase.push(candidate);
        proof {
            pre_rest.to_multiset_ensures();
            pre_phase.to_multiset_ensures();
            assert(pre_rest.contains(pre_rest[best as int]));
            assert(pre_rest.to_multiset().count(candidate) > 0);
            assert(phase@.to_multiset() =~= pre_phase.to_multiset().insert(candidate));
            assert(rest@.to_multiset() =~= pre_rest.to_multiset().remove(candidate));
            assert(phase@.to_multiset().add(rest@.to_multiset()) =~= pre_phase.to_multiset().add(
                pre_rest.to_multiset(),
            ));
        }
    }
    proof {
        rest@.to_multiset_ensures();
        assert forall|x: Transparent3d| #[trigger] rest@.to_multiset().count(x) == 0 by {
            assert(!rest@.contains(x));
        }
        assert(phase@.to_multiset() =~= phase@.to_multiset().add(rest@.to_multiset()));
    }
}

} // verus!
