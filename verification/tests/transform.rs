use billboard_render::math::{GlobalTransform, IMat4, IVec3, IVec4, Transform};
use billboard_render::utils::{calculate_billboard_uniform, compute_matrix_without_rotation};
use billboard_render::BillboardLockAxis;

fn rotated_world_matrix() -> IMat4 {
    // An arbitrary matrix whose basis columns carry rotation-like junk.
    IMat4 {
        x_axis: IVec4 { x: 3, y: -4, z: 5, w: 0 },
        y_axis: IVec4 { x: 7, y: 2, z: -6, w: 0 },
        z_axis: IVec4 { x: -1, y: 8, z: 9, w: 0 },
        w_axis: IVec4 { x: 100, y: -200, z: 300, w: 1024 },
    }
}

#[test]
fn unlocked_transform_strips_rotation_keeps_scale_and_translation() {
    let global = GlobalTransform { matrix: rotated_world_matrix() };
    let local = Transform { scale: IVec3 { x: 2, y: 3, z: 4 } };
    let uniform = calculate_billboard_uniform(&global, &local, None);
    let m = uniform.transform;
    // The upper-left block is diag(scale): no trace of the rotation.
    assert_eq!(m.x_axis, IVec4 { x: 2, y: 0, z: 0, w: 0 });
    assert_eq!(m.y_axis, IVec4 { x: 0, y: 3, z: 0, w: 0 });
    assert_eq!(m.z_axis, IVec4 { x: 0, y: 0, z: 4, w: 0 });
    // The translation column is preserved exactly.
    assert_eq!(m.w_axis, IVec4 { x: 100, y: -200, z: 300, w: 1024 });
}

#[test]
fn locked_transform_is_world_matrix_unchanged() {
    let global = GlobalTransform { matrix: rotated_world_matrix() };
    let local = Transform { scale: IVec3 { x: 2, y: 3, z: 4 } };
    let lock = BillboardLockAxis { y_axis: true, rotation: false };
    let uniform = calculate_billboard_uniform(&global, &local, Some(&lock));
    assert_eq!(uniform.transform, rotated_world_matrix());

    // Any lock flags give passthrough, rotation lock included.
    let lock = BillboardLockAxis { y_axis: false, rotation: true };
    let uniform = calculate_billboard_uniform(&global, &local, Some(&lock));
    assert_eq!(uniform.transform, rotated_world_matrix());
}

#[test]
fn compute_matrix_without_rotation_matches_manual_construction() {
    let global = GlobalTransform { matrix: rotated_world_matrix() };
    let local = Transform { scale: IVec3 { x: -5, y: 1, z: 0 } };
    let m = compute_matrix_without_rotation(&global, &local);
    assert_eq!(m.x_axis, IVec4 { x: -5, y: 0, z: 0, w: 0 });
    assert_eq!(m.y_axis, IVec4 { x: 0, y: 1, z: 0, w: 0 });
    assert_eq!(m.z_axis, IVec4 { x: 0, y: 0, z: 0, w: 0 });
    assert_eq!(m.w_axis, global.matrix.w_axis);
}
