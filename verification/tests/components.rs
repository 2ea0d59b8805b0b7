use billboard_render::math::{GlobalTransform, IMat4, IVec3, IVec4, Transform};
use billboard_render::text::Anchor;
use billboard_render::{
    BillboardDepth, BillboardLockAxis, BillboardMesh, BillboardTexture, BillboardTextureBundle,
    BillboardLockAxisBundle,
};

#[test]
fn depth_testing_is_on_by_default() {
    assert!(BillboardDepth::default().0);
}

#[test]
fn axis_lock_defaults_to_no_locking() {
    let lock = BillboardLockAxis::default();
    assert!(!lock.y_axis);
    assert!(!lock.rotation);
}

#[test]
fn anchor_defaults_to_center() {
    let anchor = Anchor::default();
    assert_eq!((anchor.x2, anchor.y2), (0, 0));
}

#[test]
fn lock_axis_bundle_wraps_any_billboard_bundle() {
    let inner = BillboardTextureBundle {
        mesh: BillboardMesh(1),
        texture: BillboardTexture(2),
        transform: Transform { scale: IVec3 { x: 1, y: 1, z: 1 } },
        global_transform: GlobalTransform {
            matrix: IMat4 {
                x_axis: IVec4 { x: 1, y: 0, z: 0, w: 0 },
                y_axis: IVec4 { x: 0, y: 1, z: 0, w: 0 },
                z_axis: IVec4 { x: 0, y: 0, z: 1, w: 0 },
                w_axis: IVec4 { x: 0, y: 0, z: 0, w: 1 },
            },
        },
        visibility: true,
        billboard_depth: BillboardDepth::default(),
    };
    let bundle = BillboardLockAxisBundle {
        billboard_bundle: inner,
        lock_axis: BillboardLockAxis { y_axis: true, rotation: false },
    };
    assert!(bundle.lock_axis.y_axis);
    assert_eq!(bundle.billboard_bundle.mesh, BillboardMesh(1));
    assert_eq!(bundle.billboard_bundle.texture, BillboardTexture(2));
}
