//! Text billboards: shaped glyph runs turned into renderable meshes,
//! batched by atlas texture, and extracted into per-frame draw records.
//!
//! Text shaping itself (font loading, line breaking, rasterization into
//! atlases) is an external service; it hands this module already positioned
//! glyphs, each referring to an atlas texture and a sub-rectangle in it.
//!
//! Coordinates: glyph positions and sizes arrive in fixed-point units (see
//! [`crate::math`]). Mesh vertex positions are produced in *half units* —
//! every value is twice the coordinate it stands for — so that glyph
//! centers, half sizes and anchor offsets stay exact integers. UVs are kept
//! as atlas pixel coordinates next to the atlas size; the pair is the
//! normalized UV as an exact rational, divided out when the mesh is
//! uploaded.

use vstd::prelude::*;

use crate::assoc::spec_assoc_lookup;
use crate::math::{GlobalTransform, Transform, UVec2};
use crate::pipeline::{RenderBillboardImage, RenderBillboardMesh};
use crate::utils::{calculate_billboard_uniform, spec_billboard_uniform};
use crate::{BillboardDepth, BillboardLockAxis, BillboardUniform};

verus! {

// ---------------------------------------------------------------------------
// Colors, sections, anchors and bounds
// ---------------------------------------------------------------------------

/// An RGBA color with 8-bit channels, copied verbatim onto mesh vertices.
#[derive(Clone, Copy, PartialEq, Eq, Structural, Debug)]
pub struct Color {
    pub r: u8,
    pub g: u8,
    pub b: u8,
    pub a: u8,
}

/// One run of text with a single style; glyphs refer back to their section
/// for the vertex color.
#[derive(Debug)]
pub struct TextSection {
    pub value: String,
    pub color: Color,
}

/// How lines of text are justified inside their bounds; consumed by the
/// external shaping service.
#[derive(Clone, Copy, PartialEq, Eq, Structural, Debug)]
pub enum JustifyText {
    Left,
    Center,
    Right,
}

/// The text content of a billboard, as handed to the shaping service.
#[derive(Debug)]
pub struct Text {
    pub sections: Vec<TextSection>,
    pub justify: JustifyText,
    /// When set, the shaper receives an unbounded wrap width instead of the
    /// bound's width: lines never break.
    pub linebreak_no_wrap: bool,
}

/// The box a text billboard is laid out in, in fixed-point units.
#[derive(Clone, Copy, PartialEq, Eq, Structural, Debug)]
pub struct BillboardTextBounds {
    pub size: UVec2,
}

/// Where the laid-out text block sits relative to the billboard's origin,
/// in *half units* of the block size: `(-1, -1)` is bottom-left,
/// `(0, 0)` centered, `(1, 1)` top-right.
#[derive(Clone, Copy, PartialEq, Eq, Structural, Debug)]
pub struct Anchor {
    pub x2: i32,
    pub y2: i32,
}

impl Default for Anchor {
    /// The text block is centered on the billboard origin.
    fn default() -> (a: Self)
        ensures
            a.x2 == 0,
            a.y2 == 0,
    {
        Self { x2: 0, y2: 0 }
    }
}

// ---------------------------------------------------------------------------
// Shaped glyphs and atlases
// ---------------------------------------------------------------------------

/// A sub-rectangle of an atlas texture, in pixels.
#[derive(Clone, Copy, PartialEq, Eq, Structural, Debug)]
pub struct AtlasRect {
    pub min: UVec2,
    pub max: UVec2,
}

/// One atlas texture's geometry: its pixel size and the sub-rectangle of
/// every glyph rasterized into it.
#[derive(Debug)]
pub struct TextureAtlas {
    pub size: UVec2,
    pub rects: Vec<AtlasRect>,
}

/// One glyph as the shaping service positioned it: center position and
/// size in text-local fixed-point units, the atlas texture holding its
/// raster, the index of its sub-rectangle there, and the text section it
/// came from.
#[derive(Clone, Copy, PartialEq, Eq, Structural, Debug)]
pub struct PositionedGlyph {
    pub position_x: i32,
    pub position_y: i32,
    pub size_x: u32,
    pub size_y: u32,
    pub atlas_texture: u64,
    pub glyph_index: usize,
    pub section_index: usize,
}

/// What the shaping service returns for one layout pass.
#[derive(Debug)]
pub struct TextLayoutInfo {
    pub glyphs: Vec<PositionedGlyph>,
    pub logical_size: UVec2,
}

/// The outcome of asking the shaping service for a layout. A missing font
/// is transient — the entity retries next frame. A glyph that cannot be
/// rasterized (atlas overflow or similar) is a configuration error that
/// retrying will not resolve.
#[derive(Debug)]
pub enum ShapingOutcome {
    Ready(TextLayoutInfo),
    FontNotReady,
    GlyphFailed,
}

// ---------------------------------------------------------------------------
// Mesh and image handle groups (smallvec-backed)
// ---------------------------------------------------------------------------

/// One mesh built for a text billboard and the atlas texture it samples:
/// a pair of asset-identity tokens.
#[derive(Clone, Copy, PartialEq, Eq, Structural, Debug)]
pub struct BillboardTextHandleGroup {
    pub mesh: u64,
    pub image: u64,
}

/// The meshes currently standing in for a text billboard's content, one
/// per atlas texture its glyphs touch. Replaced wholesale whenever the
/// text is laid out again. Backed by a `smallvec::SmallVec` sized for the
/// common single-atlas case; Verus sees the collection only through
/// [`spec_handle_groups`] and the trusted methods below.
#[verifier::external_body]
pub struct BillboardTextHandles {
    inner: smallvec::SmallVec<[BillboardTextHandleGroup; 1]>,
}

pub uninterp spec fn spec_handle_groups(v: BillboardTextHandles) -> Seq<(u64, u64)>;

impl BillboardTextHandles {
    /// The handle groups held, as (mesh identity, image identity) pairs in
    /// insertion order.
    pub open spec fn groups(&self) -> Seq<(u64, u64)> {
        spec_handle_groups(*self)
    }

    /// Relies on smallvec::SmallVec::new: the fresh vector is empty.
    #[verifier::external_body]
    pub fn new() -> (h: Self)
        ensures
            spec_handle_groups(h) == Seq::<(u64, u64)>::empty(),
    {
        BillboardTextHandles { inner: smallvec::SmallVec::new() }
    }

    /// Relies on smallvec::SmallVec::push: appends the element at the
    /// back. The length bound keeps the reallocation inside `push` from
    /// overflowing its capacity arithmetic.
    #[verifier::external_body]
    pub fn push(&mut self, group: BillboardTextHandleGroup)
        requires
            spec_handle_groups(*old(self)).len() < 0x1000_0000,
        ensures
            spec_handle_groups(*final(self)) == spec_handle_groups(*old(self)).push(
                (group.mesh, group.image),
            ),
    {
        self.inner.push(group)
    }

    /// Relies on smallvec::SmallVec::clear: removes every element.
    #[verifier::external_body]
    pub fn clear(&mut self)
        ensures
            spec_handle_groups(*final(self)) == Seq::<(u64, u64)>::empty(),
    {
        self.inner.clear()
    }

    /// Relies on smallvec::SmallVec::len: the number of elements.
    #[verifier::external_body]
    pub fn len(&self) -> (n: usize)
        ensures
            n == spec_handle_groups(*self).len(),
    {
        self.inner.len()
    }

    /// Relies on smallvec::SmallVec's Index impl, which indexes the
    /// vector's slice view: element `i` of the vector.
    #[verifier::external_body]
    pub fn get(&self, i: usize) -> (g: BillboardTextHandleGroup)
        requires
            i < spec_handle_groups(*self).len(),
        ensures
            g.mesh == spec_handle_groups(*self)[i as int].0,
            g.image == spec_handle_groups(*self)[i as int].1,
    {
        self.inner[i]
    }
}

impl Default for BillboardTextHandles {
    /// Same as [`BillboardTextHandles::new`]: no content yet.
    fn default() -> (h: Self)
        ensures
            h.groups() == Seq::<(u64, u64)>::empty(),
    {
        Self::new()
    }
}

// ---------------------------------------------------------------------------
// Extraction of text billboards
// ---------------------------------------------------------------------------

/// The draw-relevant state of a billboard in the render world, copied out
/// of the simulation world once per frame.
#[derive(Clone, Copy, PartialEq, Eq, Structural, Debug)]
pub struct RenderBillboard {
    pub depth: BillboardDepth,
    pub lock_axis: Option<BillboardLockAxis>,
}

/// Everything one draw of a billboard needs, produced by extraction and
/// discarded with the frame.
#[derive(Clone, Copy, PartialEq, Eq, Structural, Debug)]
pub struct ExtractedBillboard {
    pub uniform: BillboardUniform,
    pub mesh: RenderBillboardMesh,
    pub image: RenderBillboardImage,
    pub billboard: RenderBillboard,
}

/// The simulation-side state of one text billboard entity, as extraction
/// reads it.
pub struct TextBillboardSource {
    pub entity: u64,
    pub visible: bool,
    pub global_transform: GlobalTransform,
    pub transform: Transform,
    pub handles: BillboardTextHandles,
    pub depth: BillboardDepth,
    pub lock_axis: Option<BillboardLockAxis>,
}

/// The records one text billboard contributes to a frame: nothing when it
/// is invisible, otherwise one record per handle group, in order.
pub open spec fn spec_extract_text_one(s: TextBillboardSource) -> Seq<(u64, ExtractedBillboard)> {
    if s.visible {
        s.handles.groups().map_values(
            |g: (u64, u64)|
                (
                    s.entity,
                    ExtractedBillboard {
                        uniform: spec_billboard_uniform(s.global_transform, s.transform, s.lock_axis),
                        mesh: RenderBillboardMesh { id: g.0 },
                        image: RenderBillboardImage { id: g.1 },
                        billboard: RenderBillboard { depth: s.depth, lock_axis: s.lock_axis },
                    },
                ),
        )
    } else {
        Seq::empty()
    }
}

/// The whole extraction batch: each source's contribution, concatenated in
/// source order.
pub open spec fn spec_extract_text(sources: Seq<TextBillboardSource>) -> Seq<
    (u64, ExtractedBillboard),
>
    decreases sources.len(),
{
    if sources.len() == 0 {
        Seq::empty()
    } else {
        spec_extract_text(sources.drop_last()) + spec_extract_text_one(sources.last())
    }
}

/// Law: the visibility filter. An invisible entity contributes no record
/// at all to the frame's batch; a visible one contributes exactly one
/// record per handle group, each carrying its entity and its uniform.
pub proof fn lemma_text_visibility_filter(s: TextBillboardSource)
    ensures
        !s.visible ==> spec_extract_text_one(s).len() == 0,
        s.visible ==> spec_extract_text_one(s).len() == s.handles.groups().len(),
        s.visible ==> forall|j: int|
            0 <= j < s.handles.groups().len() ==> (#[trigger] spec_extract_text_one(s)[j]).0
                == s.entity && spec_extract_text_one(s)[j].1.uniform == spec_billboard_uniform(
                s.global_transform,
                s.transform,
                s.lock_axis,
            ),
{
}

/// Runs once per frame at the simulation-to-render boundary: filters for
/// visible text billboards and copies their draw state out, one record per
/// atlas-backed mesh group. Reads only; tolerates an empty world.
pub fn extract_billboard_text(sources: &Vec<TextBillboardSource>) -> (batch: Vec<
    (u64, ExtractedBillboard),
>)
    ensures
        batch@ == spec_extract_text(sources@),
{
    let mut batch: Vec<(u64, ExtractedBillboard)> = Vec::new();
    proof {
        assert(sources@.take(0) =~= Seq::<TextBillboardSource>::empty());
    }
    let mut i: usize = 0;
    while i < sources.len()
        invariant
            i <= sources@.len(),
            batch@ == spec_extract_text(sources@.take(i as int)),
        decreases sources@.len() - i,
    {
        let source = &sources[i];
        if source.visible {
            let uniform = calculate_billboard_uniform(
                &source.global_transform,
                &source.transform,
                source.lock_axis.as_ref(),
            );
            let group_count = source.handles.len();
            let mut j: usize = 0;
            while j < group_count
                invariant
                    j <= source.handles.groups().len(),
                    group_count == source.handles.groups().len(),
                    source == &sources@[i as int],
                    i < sources@.len(),
                    source.visible,
                    uniform == spec_billboard_uniform(
                        source.global_transform,
                        source.transform,
                        source.lock_axis,
                    ),
                    batch@ == spec_extract_text(sources@.take(i as int))
                        + spec_extract_text_one(sources@[i as int]).take(j as int),
                decreases group_count - j,
            {
                let group = source.handles.get(j);
                batch.push(
                    (
                        source.entity,
                        ExtractedBillboard {
                            uniform,
                            mesh: RenderBillboardMesh { id: group.mesh },
                            image: RenderBillboardImage { id: group.image },
                            billboard: RenderBillboard {
                                depth: source.depth,
                                lock_axis: source.lock_axis,
                            },
                        },
                    ),
                );
                proof {
                    let one = spec_extract_text_one(sources@[i as int]);
                    assert(one[j as int] == batch@.last());
                    assert(one.take(j as int + 1) =~= one.take(j as int).push(one[j as int]));
                }
                j = j + 1;
            }
            proof {
                let one = spec_extract_text_one(sources@[i as int]);
                assert(one.take(one.len() as int) =~= one);
                assert(sources@.take(i as int + 1).drop_last() =~= sources@.take(i as int));
                assert(sources@.take(i as int + 1).last() == sources@[i as int]);
            }
        } else {
            proof {
                assert(spec_extract_text_one(sources@[i as int]) =~= Seq::<
                    (u64, ExtractedBillboard),
                >::empty());
                assert(sources@.take(i as int + 1).drop_last() =~= sources@.take(i as int));
                assert(sources@.take(i as int + 1).last() == sources@[i as int]);
            }
        }
        i = i + 1;
    }
    proof {
        assert(sources@.take(sources@.len() as int) =~= sources@);
    }
    batch
}

// ---------------------------------------------------------------------------
// Grouping glyphs by atlas texture
// ---------------------------------------------------------------------------

/// The distinct atlas textures a glyph run touches, in order of first
/// occurrence — the insertion order that keeps mesh grouping
/// deterministic.
pub open spec fn spec_atlas_keys(glyphs: Seq<PositionedGlyph>) -> Seq<u64>
    decreases glyphs.len(),
{
    if glyphs.len() == 0 {
        Seq::empty()
    } else {
        let rest = spec_atlas_keys(glyphs.drop_last());
        if rest.contains(glyphs.last().atlas_texture) {
            rest
        } else {
            rest.push(glyphs.last().atlas_texture)
        }
    }
}

/// The glyphs of a run backed by one atlas texture, in run order.
pub open spec fn spec_glyphs_for_texture(glyphs: Seq<PositionedGlyph>, texture: u64) -> Seq<
    PositionedGlyph,
> {
    glyphs.filter(|g: PositionedGlyph| g.atlas_texture == texture)
}

/// There are never more atlas buckets than glyphs.
pub proof fn lemma_atlas_keys_len(glyphs: Seq<PositionedGlyph>)
    ensures
        spec_atlas_keys(glyphs).len() <= glyphs.len(),
    decreases glyphs.len(),
{
    if glyphs.len() > 0 {
        lemma_atlas_keys_len(glyphs.drop_last());
    }
}

/// Every atlas bucket key is the atlas texture of some glyph of the run.
pub proof fn lemma_atlas_keys_are_textures(glyphs: Seq<PositionedGlyph>, i: int)
    requires
        0 <= i < spec_atlas_keys(glyphs).len(),
    ensures
        exists|k: int|
            0 <= k < glyphs.len() && (#[trigger] glyphs[k]).atlas_texture == spec_atlas_keys(
                glyphs,
            )[i],
    decreases glyphs.len(),
{
    if glyphs.len() > 0 {
        let rest = spec_atlas_keys(glyphs.drop_last());
        if i < rest.len() {
            lemma_atlas_keys_are_textures(glyphs.drop_last(), i);
            let k = choose|k: int|
                0 <= k < glyphs.drop_last().len() && (#[trigger] glyphs.drop_last()[k]).atlas_texture
                    == rest[i];
            assert(glyphs[k].atlas_texture == spec_atlas_keys(glyphs)[i]);
        } else {
            assert(glyphs[glyphs.len() - 1].atlas_texture == spec_atlas_keys(glyphs)[i]);
        }
    }
}

/// Whether a key vector holds a value.
fn keys_contain(keys: &Vec<u64>, value: u64) -> (r: bool)
    ensures
        r == keys@.contains(value),
{
    let mut i: usize = 0;
    while i < keys.len()
        invariant
            i <= keys@.len(),
            forall|j: int| 0 <= j < i ==> keys@[j] != value,
        decreases keys@.len() - i,
    {
        if keys[i] == value {
            return true;
        }
        i = i + 1;
    }
    false
}

/// Groups a glyph run by backing atlas texture: one bucket per distinct
/// texture, in order of first occurrence, each holding its glyphs in run
/// order.
pub fn group_glyphs_by_atlas(glyphs: &Vec<PositionedGlyph>) -> (r: Vec<
    (u64, Vec<PositionedGlyph>),
>)
    ensures
        r@.len() == spec_atlas_keys(glyphs@).len(),
        forall|i: int|
            0 <= i < r@.len() ==> (#[trigger] r@[i]).0 == spec_atlas_keys(glyphs@)[i] && r@[i].1@
                == spec_glyphs_for_texture(glyphs@, spec_atlas_keys(glyphs@)[i]),
{
    let mut keys: Vec<u64> = Vec::new();
    proof {
        assert(glyphs@.take(0) =~= Seq::<PositionedGlyph>::empty());
    }
    let mut i: usize = 0;
    while i < glyphs.len()
        invariant
            i <= glyphs@.len(),
            keys@ == spec_atlas_keys(glyphs@.take(i as int)),
        decreases glyphs@.len() - i,
    {
        let texture = glyphs[i].atlas_texture;
        proof {
            assert(glyphs@.take(i as int + 1).drop_last() =~= glyphs@.take(i as int));
            assert(glyphs@.take(i as int + 1).last() == glyphs@[i as int]);
        }
        if !keys_contain(&keys, texture) {
            keys.push(texture);
        }
        i = i + 1;
    }
    proof {
        assert(glyphs@.take(glyphs@.len() as int) =~= glyphs@);
    }

    let mut r: Vec<(u64, Vec<PositionedGlyph>)> = Vec::new();
    let mut k: usize = 0;
    while k < keys.len()
        invariant
            k <= keys@.len(),
            keys@ == spec_atlas_keys(glyphs@),
            r@.len() == k,
            forall|i: int|
                0 <= i < k ==> (#[trigger] r@[i]).0 == spec_atlas_keys(glyphs@)[i] && r@[i].1@
                    == spec_glyphs_for_texture(glyphs@, spec_atlas_keys(glyphs@)[i]),
        decreases keys@.len() - k,
    {
        let key = keys[k];
        let mut bucket: Vec<PositionedGlyph> = Vec::new();
        proof {
            reveal(Seq::filter);
            assert(glyphs@.take(0) =~= Seq::<PositionedGlyph>::empty());
        }
        let mut j: usize = 0;
        while j < glyphs.len()
            invariant
                j <= glyphs@.len(),
                bucket@ == spec_glyphs_for_texture(glyphs@.take(j as int), key),
            decreases glyphs@.len() - j,
        {
            proof {
                reveal(Seq::filter);
                assert(glyphs@.take(j as int + 1).drop_last() =~= glyphs@.take(j as int));
                assert(glyphs@.take(j as int + 1).last() == glyphs@[j as int]);
            }
            if glyphs[j].atlas_texture == key {
                bucket.push(glyphs[j]);
            }
            j = j + 1;
        }
        proof {
            assert(glyphs@.take(glyphs@.len() as int) =~= glyphs@);
        }
        r.push((key, bucket));
        k = k + 1;
    }
    r
}

// ---------------------------------------------------------------------------
// Building the text mesh for one atlas bucket
// ---------------------------------------------------------------------------

/// One mesh vertex position, in half units of text-local space; the quad
/// lies in the local XY plane, so `z` is always zero.
#[derive(Clone, Copy, PartialEq, Eq, Structural, Debug)]
pub struct VertexPosition {
    pub x: i64,
    pub y: i64,
    pub z: i64,
}

/// A GPU-uploadable mesh for the glyphs of one atlas bucket. Vertex UVs
/// are atlas pixel coordinates; dividing them by `atlas_size` at upload
/// yields the normalized UVs, exactly.
#[derive(Debug)]
pub struct TextMesh {
    pub positions: Vec<VertexPosition>,
    pub uvs: Vec<UVec2>,
    pub atlas_size: UVec2,
    pub colors: Vec<Color>,
    pub indices: Vec<u32>,
}

/// Whether a value fits the mesh's vertex coordinate type.
pub open spec fn i64_fits(x: int) -> bool {
    i64::MIN <= x <= i64::MAX
}

/// The horizontal anchor offset, in half units: `-(anchor + 1/2)` of the
/// laid-out block's size, written over doubled anchors.
pub open spec fn spec_align_offset_x(anchor: Anchor, logical_size: UVec2) -> int {
    -((anchor.x2 + 1) * logical_size.x)
}

/// The vertical anchor offset, in half units.
pub open spec fn spec_align_offset_y(anchor: Anchor, logical_size: UVec2) -> int {
    -((anchor.y2 + 1) * logical_size.y)
}

/// The least X coordinate of a glyph's quad, in half units: twice the
/// center, minus the size, plus the anchor offset.
pub open spec fn spec_glyph_min_x(g: PositionedGlyph, off_x: int) -> int {
    2 * g.position_x - g.size_x + off_x
}

/// The greatest X coordinate of a glyph's quad, in half units.
pub open spec fn spec_glyph_max_x(g: PositionedGlyph, off_x: int) -> int {
    2 * g.position_x + g.size_x + off_x
}

/// The least Y coordinate of a glyph's quad, in half units.
pub open spec fn spec_glyph_min_y(g: PositionedGlyph, off_y: int) -> int {
    2 * g.position_y - g.size_y + off_y
}

/// The greatest Y coordinate of a glyph's quad, in half units.
pub open spec fn spec_glyph_max_y(g: PositionedGlyph, off_y: int) -> int {
    2 * g.position_y + g.size_y + off_y
}

/// The mesh arithmetic stays within the vertex coordinate type for every
/// glyph of the run: the machine limit the builder asks of its caller.
pub open spec fn spec_mesh_arith_ok(
    glyphs: Seq<PositionedGlyph>,
    anchor: Anchor,
    logical_size: UVec2,
) -> bool {
    let off_x = spec_align_offset_x(anchor, logical_size);
    let off_y = spec_align_offset_y(anchor, logical_size);
    &&& i64_fits((anchor.x2 + 1) * logical_size.x)
    &&& i64_fits((anchor.y2 + 1) * logical_size.y)
    &&& i64_fits(off_x)
    &&& i64_fits(off_y)
    &&& forall|g: PositionedGlyph|
        glyphs.contains(g) ==> i64_fits(#[trigger] spec_glyph_min_x(g, off_x)) && i64_fits(
            spec_glyph_max_x(g, off_x),
        ) && i64_fits(spec_glyph_min_y(g, off_y)) && i64_fits(spec_glyph_max_y(g, off_y))
}

/// The four corners of one glyph's quad, in the fixed winding the index
/// pattern expects: min corner, then up, then across, then down.
pub open spec fn spec_glyph_positions(g: PositionedGlyph, off_x: int, off_y: int) -> Seq<
    VertexPosition,
> {
    seq![
        VertexPosition {
            x: spec_glyph_min_x(g, off_x) as i64,
            y: spec_glyph_min_y(g, off_y) as i64,
            z: 0,
        },
        VertexPosition {
            x: spec_glyph_min_x(g, off_x) as i64,
            y: spec_glyph_max_y(g, off_y) as i64,
            z: 0,
        },
        VertexPosition {
            x: spec_glyph_max_x(g, off_x) as i64,
            y: spec_glyph_max_y(g, off_y) as i64,
            z: 0,
        },
        VertexPosition {
            x: spec_glyph_max_x(g, off_x) as i64,
            y: spec_glyph_min_y(g, off_y) as i64,
            z: 0,
        },
    ]
}

/// The four UV corners of a glyph's sub-rectangle, matching the position
/// winding with texture space running top-down.
pub open spec fn spec_glyph_uvs(rect: AtlasRect) -> Seq<UVec2> {
    seq![
        UVec2 { x: rect.min.x, y: rect.max.y },
        UVec2 { x: rect.min.x, y: rect.min.y },
        UVec2 { x: rect.max.x, y: rect.min.y },
        UVec2 { x: rect.max.x, y: rect.max.y },
    ]
}

/// The six indices of a glyph's two triangles over vertex base `b`, wound
/// consistently with the front-face convention.
pub open spec fn spec_glyph_indices(b: int) -> Seq<u32> {
    seq![b as u32, (b + 2) as u32, (b + 1) as u32, b as u32, (b + 3) as u32, (b + 2) as u32]
}

/// All vertex positions of a bucket's mesh, four per glyph in run order.
pub open spec fn spec_text_mesh_positions(
    glyphs: Seq<PositionedGlyph>,
    off_x: int,
    off_y: int,
) -> Seq<VertexPosition>
    decreases glyphs.len(),
{
    if glyphs.len() == 0 {
        Seq::empty()
    } else {
        spec_text_mesh_positions(glyphs.drop_last(), off_x, off_y) + spec_glyph_positions(
            glyphs.last(),
            off_x,
            off_y,
        )
    }
}

/// All vertex UVs of a bucket's mesh, four per glyph: each glyph's
/// sub-rectangle corners in the bucket's atlas.
pub open spec fn spec_text_mesh_uvs(glyphs: Seq<PositionedGlyph>, rects: Seq<AtlasRect>) -> Seq<
    UVec2,
>
    decreases glyphs.len(),
{
    if glyphs.len() == 0 {
        Seq::empty()
    } else {
        spec_text_mesh_uvs(glyphs.drop_last(), rects) + spec_glyph_uvs(
            rects[glyphs.last().glyph_index as int],
        )
    }
}

/// All vertex colors of a bucket's mesh: each glyph's four vertices carry
/// its text section's color.
pub open spec fn spec_text_mesh_colors(
    glyphs: Seq<PositionedGlyph>,
    section_colors: Seq<Color>,
) -> Seq<Color>
    decreases glyphs.len(),
{
    if glyphs.len() == 0 {
        Seq::empty()
    } else {
        let c = section_colors[glyphs.last().section_index as int];
        spec_text_mesh_colors(glyphs.drop_last(), section_colors) + seq![c, c, c, c]
    }
}

/// All triangle indices of a bucket's mesh, six per glyph over its four
/// vertices.
pub open spec fn spec_text_mesh_indices(n: int) -> Seq<u32>
    decreases n,
{
    if n <= 0 {
        Seq::empty()
    } else {
        spec_text_mesh_indices(n - 1) + spec_glyph_indices(4 * (n - 1))
    }
}

/// The colors of a text's sections, in section order.
pub open spec fn spec_section_colors(sections: Seq<TextSection>) -> Seq<Color> {
    sections.map_values(|s: TextSection| s.color)
}

/// Builds the mesh for the glyphs of one atlas bucket: four vertices and
/// six indices per glyph. Vertex positions place each glyph's quad at its
/// position plus the anchor offset, half the glyph size to each side; UVs
/// are the glyph's sub-rectangle in the atlas; each vertex carries its
/// glyph's section color, fetched anew only when the section index
/// changes.
pub fn build_text_mesh(
    glyphs: &Vec<PositionedGlyph>,
    sections: &Vec<TextSection>,
    atlas: &TextureAtlas,
    anchor: &Anchor,
    logical_size: UVec2,
) -> (mesh: TextMesh)
    requires
        forall|g: PositionedGlyph|
            glyphs@.contains(g) ==> (#[trigger] g.glyph_index) < atlas.rects@.len()
                && g.section_index < sections@.len(),
        spec_mesh_arith_ok(glyphs@, *anchor, logical_size),
        4 * glyphs@.len() <= u32::MAX,
    ensures
        mesh.atlas_size == atlas.size,
        mesh.positions@ == spec_text_mesh_positions(
            glyphs@,
            spec_align_offset_x(*anchor, logical_size),
            spec_align_offset_y(*anchor, logical_size),
        ),
        mesh.uvs@ == spec_text_mesh_uvs(glyphs@, atlas.rects@),
        mesh.colors@ == spec_text_mesh_colors(glyphs@, spec_section_colors(sections@)),
        mesh.indices@ == spec_text_mesh_indices(glyphs@.len() as int),
        mesh.positions@.len() == 4 * glyphs@.len(),
        mesh.uvs@.len() == 4 * glyphs@.len(),
        mesh.colors@.len() == 4 * glyphs@.len(),
        mesh.indices@.len() == 6 * glyphs@.len(),
{
    let ghost off_x = spec_align_offset_x(*anchor, logical_size);
    let ghost off_y = spec_align_offset_y(*anchor, logical_size);

    let align_x: i64 = -((anchor.x2 as i64 + 1) * (logical_size.x as i64));
    let align_y: i64 = -((anchor.y2 as i64 + 1) * (logical_size.y as i64));

    let mut positions: Vec<VertexPosition> = Vec::new();
    let mut uvs: Vec<UVec2> = Vec::new();
    let mut colors: Vec<Color> = Vec::new();
    let mut indices: Vec<u32> = Vec::new();

    let mut color = Color { r: 255, g: 255, b: 255, a: 255 };
    let mut current_section: usize = usize::MAX;
    let section_count = sections.len();

    proof {
        assert(glyphs@.take(0) =~= Seq::<PositionedGlyph>::empty());
    }
    let mut i: usize = 0;
    while i < glyphs.len()
        invariant
            i <= glyphs@.len(),
            forall|g: PositionedGlyph|
                glyphs@.contains(g) ==> (#[trigger] g.glyph_index) < atlas.rects@.len()
                    && g.section_index < sections@.len(),
            spec_mesh_arith_ok(glyphs@, *anchor, logical_size),
            4 * glyphs@.len() <= u32::MAX,
            align_x == off_x,
            align_y == off_y,
            off_x == spec_align_offset_x(*anchor, logical_size),
            off_y == spec_align_offset_y(*anchor, logical_size),
            positions@ == spec_text_mesh_positions(glyphs@.take(i as int), off_x, off_y),
            uvs@ == spec_text_mesh_uvs(glyphs@.take(i as int), atlas.rects@),
            colors@ == spec_text_mesh_colors(
                glyphs@.take(i as int),
                spec_section_colors(sections@),
            ),
            indices@ == spec_text_mesh_indices(i as int),
            positions@.len() == 4 * i,
            uvs@.len() == 4 * i,
            colors@.len() == 4 * i,
            indices@.len() == 6 * i,
            section_count == sections@.len(),
            current_section != usize::MAX ==> current_section < sections@.len() && color
                == spec_section_colors(sections@)[current_section as int],
        decreases glyphs@.len() - i,
    {
        let glyph = glyphs[i];
        proof {
            assert(glyphs@.contains(glyphs@[i as int]));
            assert(i64_fits(spec_glyph_min_x(glyphs@[i as int], off_x)));
            assert(i64_fits(spec_glyph_max_x(glyphs@[i as int], off_x)));
            assert(i64_fits(spec_glyph_min_y(glyphs@[i as int], off_y)));
            assert(i64_fits(spec_glyph_max_y(glyphs@[i as int], off_y)));
            assert(glyphs@.take(i as int + 1).drop_last() =~= glyphs@.take(i as int));
            assert(glyphs@.take(i as int + 1).last() == glyphs@[i as int]);
        }

        let index_base: u32 = (4 * i) as u32;

        let min_x: i64 = 2 * (glyph.position_x as i64) - (glyph.size_x as i64) + align_x;
        let max_x: i64 = 2 * (glyph.position_x as i64) + (glyph.size_x as i64) + align_x;
        let min_y: i64 = 2 * (glyph.position_y as i64) - (glyph.size_y as i64) + align_y;
        let max_y: i64 = 2 * (glyph.position_y as i64) + (glyph.size_y as i64) + align_y;

        positions.push(VertexPosition { x: min_x, y: min_y, z: 0 });
        positions.push(VertexPosition { x: min_x, y: max_y, z: 0 });
        positions.push(VertexPosition { x: max_x, y: max_y, z: 0 });
        positions.push(VertexPosition { x: max_x, y: min_y, z: 0 });

        let rect = atlas.rects[glyph.glyph_index];
        uvs.push(UVec2 { x: rect.min.x, y: rect.max.y });
        uvs.push(UVec2 { x: rect.min.x, y: rect.min.y });
        uvs.push(UVec2 { x: rect.max.x, y: rect.min.y });
        uvs.push(UVec2 { x: rect.max.x, y: rect.max.y });

        if glyph.section_index != current_section {
            color = sections[glyph.section_index].color;
            current_section = glyph.section_index;
        }
        proof {
            assert(glyph.section_index < section_count);
            assert(color == spec_section_colors(sections@)[glyph.section_index as int]);
        }
        colors.push(color);
        colors.push(color);
        colors.push(color);
        colors.push(color);

        indices.push(index_base);
        indices.push(index_base + 2);
        indices.push(index_base + 1);
        indices.push(index_base);
        indices.push(index_base + 3);
        indices.push(index_base + 2);

        proof {
            let taken = glyphs@.take(i as int + 1);
            assert(positions@ =~= spec_text_mesh_positions(glyphs@.take(i as int), off_x, off_y)
                + spec_glyph_positions(glyphs@[i as int], off_x, off_y));
            assert(uvs@ =~= spec_text_mesh_uvs(glyphs@.take(i as int), atlas.rects@)
                + spec_glyph_uvs(atlas.rects@[glyphs@[i as int].glyph_index as int]));
            assert(colors@ =~= spec_text_mesh_colors(
                glyphs@.take(i as int),
                spec_section_colors(sections@),
            ) + {
                let c = spec_section_colors(sections@)[glyphs@[i as int].section_index as int];
                seq![c, c, c, c]
            });
            assert(indices@ =~= spec_text_mesh_indices(i as int) + spec_glyph_indices(
                4 * (i as int),
            ));
        }
        i = i + 1;
    }
    proof {
        assert(glyphs@.take(glyphs@.len() as int) =~= glyphs@);
    }

    TextMesh { positions, uvs, atlas_size: atlas.size, colors, indices }
}

// ---------------------------------------------------------------------------
// The per-entity layout pass
// ---------------------------------------------------------------------------

/// The mesh assets this subsystem owns: every mesh built for a text
/// billboard, identified by its index.
pub struct MeshAssets {
    pub items: Vec<TextMesh>,
}

impl MeshAssets {
    /// No meshes built yet.
    pub fn new() -> (m: Self)
        ensures
            m.items@.len() == 0,
    {
        MeshAssets { items: Vec::new() }
    }

    /// Stores a mesh and returns its identity.
    pub fn add(&mut self, mesh: TextMesh) -> (id: u64)
        ensures
            final(self).items@.len() == old(self).items@.len() + 1,
            final(self).items@.last() == mesh,
            final(self).items@.take(old(self).items@.len() as int) == old(self).items@,
            id == old(self).items@.len() as u64,
            old(self).items@.len() <= u64::MAX,
    {
        let id = self.items.len() as u64;
        self.items.push(mesh);
        proof {
            assert(final(self).items@.take(old(self).items@.len() as int) =~= old(self).items@);
        }
        id
    }

    /// The mesh stored under an identity, if any.
    pub fn get(&self, id: u64) -> (r: Option<&TextMesh>)
        ensures
            id < self.items@.len() ==> (r matches Some(m) && m == &self.items@[id as int]),
            id >= self.items@.len() ==> r is None,
    {
        if id < self.items.len() as u64 {
            Some(&self.items[id as usize])
        } else {
            None
        }
    }
}

/// The wrap bounds handed to the shaping service: no-wrap text gets an
/// unbounded wrap width (`None`) instead of the bound's width.
pub fn effective_text_bounds(text: &Text, bounds: &BillboardTextBounds) -> (r: (Option<u32>, u32))
    ensures
        text.linebreak_no_wrap ==> r.0 is None,
        !text.linebreak_no_wrap ==> r.0 == Some(bounds.size.x),
        r.1 == bounds.size.y,
{
    if text.linebreak_no_wrap {
        (None, bounds.size.y)
    } else {
        (Some(bounds.size.x), bounds.size.y)
    }
}

/// What one layout pass did for one text entity.
#[derive(Clone, Copy, PartialEq, Eq, Structural, Debug)]
pub enum LayoutUpdate {
    /// Nothing changed; the entity keeps its meshes.
    Unchanged,
    /// The font is not ready yet: transient, re-queue the entity and retry
    /// next frame.
    Requeued,
    /// A glyph could not be rasterized: a configuration error that will
    /// not resolve by retrying. The pass for this entity aborts; its old
    /// meshes stay.
    Failed,
    /// Layout succeeded: the entity's mesh groups were replaced wholesale.
    Rebuilt,
}

/// Every glyph of a run refers to a known atlas, to a sub-rectangle that
/// atlas has, and to a text section that exists.
pub open spec fn spec_layout_glyphs_ok(
    glyphs: Seq<PositionedGlyph>,
    atlases: Seq<(u64, TextureAtlas)>,
    section_count: int,
) -> bool {
    forall|g: PositionedGlyph|
        glyphs.contains(g) ==> {
            &&& (#[trigger] spec_assoc_lookup(atlases, g.atlas_texture)) is Some
            &&& g.glyph_index < spec_assoc_lookup(atlases, g.atlas_texture).unwrap().rects@.len()
            &&& g.section_index < section_count
        }
}

/// One laid-out pass over one text entity, after the external shaping
/// service answered.
///
/// A clean entity (`changed` and `queued` both false) is left alone. A
/// missing font re-queues the entity; a rasterization failure aborts the
/// pass for this entity, loudly, in the result. On success the entity's
/// handle groups are replaced atomically: one fresh mesh per atlas bucket
/// of the glyph run, in first-occurrence order, each handle pairing the
/// new mesh identity with its bucket's atlas texture.
pub fn update_billboard_text_layout(
    changed: bool,
    queued: bool,
    shaping: &ShapingOutcome,
    text: &Text,
    anchor: &Anchor,
    atlases: &Vec<(u64, TextureAtlas)>,
    meshes: &mut MeshAssets,
    handles: &mut BillboardTextHandles,
) -> (r: LayoutUpdate)
    requires
        (changed || queued) ==> (shaping matches ShapingOutcome::Ready(info) ==> {
            &&& spec_layout_glyphs_ok(info.glyphs@, atlases@, text.sections@.len() as int)
            &&& spec_mesh_arith_ok(info.glyphs@, *anchor, info.logical_size)
            &&& info.glyphs@.len() < 0x1000_0000
        }),
    ensures
        !(changed || queued) ==> r == LayoutUpdate::Unchanged,
        (changed || queued) && shaping is FontNotReady ==> r == LayoutUpdate::Requeued,
        (changed || queued) && shaping is GlyphFailed ==> r == LayoutUpdate::Failed,
        r != LayoutUpdate::Rebuilt ==> final(meshes).items@ == old(meshes).items@
            && final(handles).groups() == old(handles).groups(),
        (changed || queued) ==> (shaping matches ShapingOutcome::Ready(info) ==> {
            let keys = spec_atlas_keys(info.glyphs@);
            let old_count = old(meshes).items@.len() as int;
            let off_x = spec_align_offset_x(*anchor, info.logical_size);
            let off_y = spec_align_offset_y(*anchor, info.logical_size);
            &&& r == LayoutUpdate::Rebuilt
            &&& final(meshes).items@.len() == old_count + keys.len()
            &&& final(meshes).items@.take(old_count) == old(meshes).items@
            &&& final(handles).groups() == Seq::new(
                keys.len(),
                |i: int| (((old_count + i) as u64, keys[i])),
            )
            &&& forall|i: int|
                0 <= i < keys.len() ==> {
                    let m = #[trigger] final(meshes).items@[old_count + i];
                    let bucket = spec_glyphs_for_texture(info.glyphs@, keys[i]);
                    let atlas = spec_assoc_lookup(atlases@, keys[i]).unwrap();
                    &&& m.atlas_size == atlas.size
                    &&& m.positions@ == spec_text_mesh_positions(bucket, off_x, off_y)
                    &&& m.uvs@ == spec_text_mesh_uvs(bucket, atlas.rects@)
                    &&& m.colors@ == spec_text_mesh_colors(
                        bucket,
                        spec_section_colors(text.sections@),
                    )
                    &&& m.indices@ == spec_text_mesh_indices(bucket.len() as int)
                }
        }),
{
    if !(changed || queued) {
        return LayoutUpdate::Unchanged;
    }
    match shaping {
        ShapingOutcome::FontNotReady => LayoutUpdate::Requeued,
        ShapingOutcome::GlyphFailed => LayoutUpdate::Failed,
        ShapingOutcome::Ready(info) => {
            let buckets = group_glyphs_by_atlas(&info.glyphs);
            let ghost keys = spec_atlas_keys(info.glyphs@);
            let ghost old_count = old(meshes).items@.len() as int;
            let ghost off_x = spec_align_offset_x(*anchor, info.logical_size);
            let ghost off_y = spec_align_offset_y(*anchor, info.logical_size);

            handles.clear();
            proof {
                lemma_atlas_keys_len(info.glyphs@);
                assert(handles.groups() =~= Seq::new(
                    0,
                    |i: int| (((old_count + i) as u64, keys[i])),
                ));
            }

            let mut k: usize = 0;
            while k < buckets.len()
                invariant
                    k <= buckets@.len(),
                    buckets@.len() == keys.len(),
                    keys == spec_atlas_keys(info.glyphs@),
                    keys.len() <= info.glyphs@.len(),
                    forall|i: int|
                        0 <= i < buckets@.len() ==> (#[trigger] buckets@[i]).0 == keys[i]
                            && buckets@[i].1@ == spec_glyphs_for_texture(info.glyphs@, keys[i]),
                    spec_layout_glyphs_ok(info.glyphs@, atlases@, text.sections@.len() as int),
                    spec_mesh_arith_ok(info.glyphs@, *anchor, info.logical_size),
                    info.glyphs@.len() < 0x1000_0000,
                    old_count == old(meshes).items@.len() as int,
                    off_x == spec_align_offset_x(*anchor, info.logical_size),
                    off_y == spec_align_offset_y(*anchor, info.logical_size),
                    meshes.items@.len() == old_count + k,
                    meshes.items@.take(old_count) == old(meshes).items@,
                    handles.groups() == Seq::new(
                        k as nat,
                        |i: int| (((old_count + i) as u64, keys[i])),
                    ),
                    forall|i: int|
                        0 <= i < k ==> {
                            let m = #[trigger] meshes.items@[old_count + i];
                            let bucket = spec_glyphs_for_texture(info.glyphs@, keys[i]);
                            let atlas = spec_assoc_lookup(atlases@, keys[i]).unwrap();
                            &&& m.atlas_size == atlas.size
                            &&& m.positions@ == spec_text_mesh_positions(bucket, off_x, off_y)
                            &&& m.uvs@ == spec_text_mesh_uvs(bucket, atlas.rects@)
                            &&& m.colors@ == spec_text_mesh_colors(
                                bucket,
                                spec_section_colors(text.sections@),
                            )
                            &&& m.indices@ == spec_text_mesh_indices(bucket.len() as int)
                        },
                decreases buckets@.len() - k,
            {
                let texture = buckets[k].0;
                proof {
                    lemma_atlas_keys_are_textures(info.glyphs@, k as int);
                    let gk = choose|j: int|
                        0 <= j < info.glyphs@.len() && (#[trigger] info.glyphs@[j]).atlas_texture
                            == keys[k as int];
                    assert(info.glyphs@.contains(info.glyphs@[gk]));
                }
                let atlas_index = match crate::assoc::assoc_index(atlases, texture) {
                    Some(idx) => idx,
                    None => {
                        proof {
                            assert(false);
                        }
                        return LayoutUpdate::Failed;
                    },
                };
                let atlas = &atlases[atlas_index].1;
                proof {
                    let bucket = buckets@[k as int].1@;
                    let pred = |g: PositionedGlyph| g.atlas_texture == keys[k as int];
                    assert forall|g: PositionedGlyph| bucket.contains(g) implies
                        info.glyphs@.contains(g) && g.atlas_texture == keys[k as int] by {
                        info.glyphs@.lemma_filter_contains_rev(pred, g);
                        let bi = choose|bi: int| 0 <= bi < bucket.len() && bucket[bi] == g;
                        info.glyphs@.lemma_filter_pred(pred, bi);
                    }
                    info.glyphs@.lemma_filter_len(pred);
                    assert(atlases@[atlas_index as int].1 == spec_assoc_lookup(
                        atlases@,
                        keys[k as int],
                    ).unwrap());
                }
                let mesh = build_text_mesh(
                    &buckets[k].1,
                    &text.sections,
                    atlas,
                    anchor,
                    info.logical_size,
                );
                let ghost prev_items = meshes.items@;
                let id = meshes.add(mesh);
                handles.push(BillboardTextHandleGroup { mesh: id, image: texture });
                proof {
                    assert(handles.groups() =~= Seq::new(
                        (k + 1) as nat,
                        |i: int| (((old_count + i) as u64, keys[i])),
                    ));
                    assert forall|i: int| 0 <= i < k implies #[trigger] meshes.items@[old_count
                        + i] == prev_items[old_count + i] by {
                        assert(meshes.items@.take(prev_items.len() as int)[old_count + i]
                            == meshes.items@[old_count + i]);
                    }
                    assert(meshes.items@[old_count + k as int] == meshes.items@.last());
                    assert(meshes.items@.take(old_count) =~= old(meshes).items@);
                }
                k = k + 1;
            }
            LayoutUpdate::Rebuilt
        },
    }
}

} // verus!
