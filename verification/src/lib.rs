//! Camera-facing billboard rendering core.
//!
//! Billboards are flat quads positioned in 3D world space that either face
//! the camera freely or are constrained by an axis lock. This crate holds the
//! per-frame render data flow for such quads: computing the per-billboard
//! uniform transform, building text meshes from shaped glyph runs batched by
//! atlas texture, extracting visible billboards into per-frame draw records,
//! selecting a specialized pipeline variant through a bit-packed key, caching
//! bind groups keyed by resource identity, and recording the ordered draw
//! command sequence.
//!
//! The host engine's entity storage, asset loading, text shaping and GPU
//! submission are external collaborators: they hand this crate plain values
//! (asset-identity tokens, fixed-point coordinates, shaped glyph runs) and
//! receive plain values back.

use vstd::prelude::*;

pub mod assoc;
pub mod billboard_uniform;
pub mod draw;
pub mod math;
pub mod pipeline;
pub mod plugin;
pub mod text;
pub mod texture;
pub mod utils;

use crate::math::IMat4;

verus! {

/// Per-billboard uniform data uploaded to the GPU each frame: the world
/// transform the vertex stage applies before camera facing.
#[derive(Clone, Copy, PartialEq, Eq, Structural, Debug)]
pub struct BillboardUniform {
    pub transform: IMat4,
}

/// Reference to the mesh asset a textured billboard draws with.
/// Assets are owned by the host's asset table; this holds only its identity.
#[derive(Clone, Copy, PartialEq, Eq, Structural, Debug)]
pub struct BillboardMesh(pub u64);

/// Reference to the texture asset a textured billboard samples from.
#[derive(Clone, Copy, PartialEq, Eq, Structural, Debug)]
pub struct BillboardTexture(pub u64);

/// Whether the billboard takes part in depth testing.
///
/// `true`: test against the depth buffer with the reversed-Z `greater`
/// comparison. `false`: always pass, so the billboard renders on top.
#[derive(Clone, Copy, PartialEq, Eq, Structural, Debug)]
pub struct BillboardDepth(pub bool);

impl Default for BillboardDepth {
    /// Depth testing is on unless explicitly disabled.
    fn default() -> (d: Self)
        ensures
            d.0,
    {
        Self(true)
    }
}

/// Optional orientation constraint: keep the billboard upright around the Y
/// axis, or keep its own rotation, instead of fully facing the camera.
#[derive(Clone, Copy, PartialEq, Eq, Structural, Debug)]
pub struct BillboardLockAxis {
    pub y_axis: bool,
    pub rotation: bool,
}

impl Default for BillboardLockAxis {
    /// No locking: full camera-facing behavior.
    fn default() -> (l: Self)
        ensures
            !l.y_axis,
            !l.rotation,
    {
        Self { y_axis: false, rotation: false }
    }
}

/// Spawn-time descriptor wrapping any billboard bundle with an axis-lock
/// constraint.
pub struct BillboardLockAxisBundle<T> {
    pub billboard_bundle: T,
    pub lock_axis: BillboardLockAxis,
}

/// Spawn-time descriptor of a textured billboard: the quad mesh and the
/// texture it samples, placed by its transforms, with its visibility and
/// depth flags.
pub struct BillboardTextureBundle {
    pub mesh: BillboardMesh,
    pub texture: BillboardTexture,
    pub transform: crate::math::Transform,
    pub global_transform: crate::math::GlobalTransform,
    pub visibility: bool,
    pub billboard_depth: BillboardDepth,
}

/// Spawn-time descriptor of a text billboard: the text content, its
/// layout bounds and anchor, its transforms, flags, and the handle
/// storage its meshes will live in.
pub struct BillboardTextBundle {
    pub text: crate::text::Text,
    pub text_bounds: crate::text::BillboardTextBounds,
    pub text_anchor: crate::text::Anchor,
    pub transform: crate::math::Transform,
    pub global_transform: crate::math::GlobalTransform,
    pub visibility: bool,
    pub billboard_depth: BillboardDepth,
    pub billboard_text_handles: crate::text::BillboardTextHandles,
}

} // verus!
