//! Fixed-point vector and matrix types.
//!
//! The host engine works in floating point; this crate works on fixed-point
//! values in a scale the host chooses (every coordinate is `real * S` for one
//! global factor `S`). The logic here only selects, copies and compares
//! transform entries, so the scale never appears in the code; it only matters
//! to the host-side conversion.

use vstd::prelude::*;

verus! {

/// 2D vector of fixed-point coordinates.
#[derive(Clone, Copy, PartialEq, Eq, Structural, Debug)]
pub struct IVec2 {
    pub x: i32,
    pub y: i32,
}

/// 2D vector of non-negative sizes (atlas dimensions, layout sizes).
#[derive(Clone, Copy, PartialEq, Eq, Structural, Debug)]
pub struct UVec2 {
    pub x: u32,
    pub y: u32,
}

/// 3D vector of fixed-point coordinates.
#[derive(Clone, Copy, PartialEq, Eq, Structural, Debug)]
pub struct IVec3 {
    pub x: i32,
    pub y: i32,
    pub z: i32,
}

/// 4D vector of fixed-point coordinates: one column of a 4x4 matrix.
#[derive(Clone, Copy, PartialEq, Eq, Structural, Debug)]
pub struct IVec4 {
    pub x: i32,
    pub y: i32,
    pub z: i32,
    pub w: i32,
}

/// Column-major 4x4 transform matrix in fixed-point coordinates.
/// `w_axis` is the translation column.
#[derive(Clone, Copy, PartialEq, Eq, Structural, Debug)]
pub struct IMat4 {
    pub x_axis: IVec4,
    pub y_axis: IVec4,
    pub z_axis: IVec4,
    pub w_axis: IVec4,
}

/// The local transform state this subsystem reads from a billboard entity:
/// only the per-axis scale factors. Translation and rotation reach the
/// renderer solely through the composed world matrix of [`GlobalTransform`].
#[derive(Clone, Copy, PartialEq, Eq, Structural, Debug)]
pub struct Transform {
    pub scale: IVec3,
}

/// The composed world transform of a billboard entity, as the host's
/// transform-propagation system computed it.
#[derive(Clone, Copy, PartialEq, Eq, Structural, Debug)]
pub struct GlobalTransform {
    pub matrix: IMat4,
}

} // verus!
