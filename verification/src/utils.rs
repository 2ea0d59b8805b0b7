//! The uniform/transform calculator: the per-billboard world matrix that is
//! uploaded to the GPU.
//!
//! With an axis lock present, the full world matrix passes through unchanged
//! and the GPU shader stage enforces the constraint using the lock flags
//! encoded in the pipeline key. Without a lock, the rotation component is
//! stripped here: the matrix keeps only the per-axis scale on its basis
//! columns and the world translation, so the shader's camera-facing logic
//! fully decides orientation.

use vstd::prelude::*;

use crate::math::{GlobalTransform, IMat4, IVec4, Transform};
use crate::{BillboardLockAxis, BillboardUniform};

verus! {

/// The matrix a free-facing billboard draws with: identity basis columns
/// scaled by the local scale factors, and the world translation column.
pub open spec fn spec_matrix_without_rotation(global: GlobalTransform, local: Transform) -> IMat4 {
    IMat4 {
        x_axis: IVec4 { x: local.scale.x, y: 0, z: 0, w: 0 },
        y_axis: IVec4 { x: 0, y: local.scale.y, z: 0, w: 0 },
        z_axis: IVec4 { x: 0, y: 0, z: local.scale.z, w: 0 },
        w_axis: global.matrix.w_axis,
    }
}

/// The uniform transform for a billboard: the full world matrix when an axis
/// lock is present, the rotation-free matrix otherwise.
pub open spec fn spec_billboard_uniform(
    global: GlobalTransform,
    local: Transform,
    lock_axis: Option<BillboardLockAxis>,
) -> BillboardUniform {
    BillboardUniform {
        transform: if lock_axis is Some {
            global.matrix
        } else {
            spec_matrix_without_rotation(global, local)
        },
    }
}

/// Discards the world rotation entirely: the result scales by the local
/// per-axis scale and translates to the world position, nothing else.
pub fn compute_matrix_without_rotation(
    global_transform: &GlobalTransform,
    transform: &Transform,
) -> (m: IMat4)
    ensures
        m == spec_matrix_without_rotation(*global_transform, *transform),
{
    IMat4 {
        x_axis: IVec4 { x: transform.scale.x, y: 0, z: 0, w: 0 },
        y_axis: IVec4 { x: 0, y: transform.scale.y, z: 0, w: 0 },
        z_axis: IVec4 { x: 0, y: 0, z: transform.scale.z, w: 0 },
        w_axis: global_transform.matrix.w_axis,
    }
}

/// Computes the uniform a billboard uploads: full world matrix when locked,
/// rotation-free matrix when free-facing. Pure; no error conditions.
pub fn calculate_billboard_uniform(
    global_transform: &GlobalTransform,
    transform: &Transform,
    lock_axis: Option<&BillboardLockAxis>,
) -> (u: BillboardUniform)
    ensures
        u == spec_billboard_uniform(
            *global_transform,
            *transform,
            match lock_axis {
                Some(l) => Some(*l),
                None => None,
            },
        ),
{
    let transform_matrix = if lock_axis.is_some() {
        global_transform.matrix
    } else {
        compute_matrix_without_rotation(global_transform, transform)
    };
    BillboardUniform { transform: transform_matrix }
}

/// Law: with no axis lock, the computed transform preserves translation and
/// per-axis scale exactly and its basis is rotation-free — the upper-left
/// 3x3 block is `diag(scale)` whatever rotation the world matrix holds.
pub proof fn lemma_unlocked_uniform_strips_rotation(global: GlobalTransform, local: Transform)
    ensures
        ({
            let m = spec_billboard_uniform(global, local, None).transform;
            &&& m.x_axis == IVec4 { x: local.scale.x, y: 0, z: 0, w: 0 }
            &&& m.y_axis == IVec4 { x: 0, y: local.scale.y, z: 0, w: 0 }
            &&& m.z_axis == IVec4 { x: 0, y: 0, z: local.scale.z, w: 0 }
            &&& m.w_axis == global.matrix.w_axis
        }),
{
}

/// Law: with an axis lock present, the computed transform is the full world
/// matrix unchanged, whatever the lock flags are.
pub proof fn lemma_locked_uniform_is_world_matrix(
    global: GlobalTransform,
    local: Transform,
    lock: BillboardLockAxis,
)
    ensures
        spec_billboard_uniform(global, local, Some(lock)).transform == global.matrix,
{
}

} // verus!
