use billboard_render::math::{GlobalTransform, IMat4, IVec3, IVec4, Transform};
use billboard_render::text::{
    extract_billboard_text, BillboardTextHandleGroup, BillboardTextHandles, TextBillboardSource,
};
use billboard_render::texture::{extract_billboard_texture, TextureBillboardSource};
use billboard_render::{BillboardDepth, BillboardLockAxis, BillboardMesh, BillboardTexture};

fn identityish() -> IMat4 {
    IMat4 {
        x_axis: IVec4 { x: 1, y: 0, z: 0, w: 0 },
        y_axis: IVec4 { x: 0, y: 1, z: 0, w: 0 },
        z_axis: IVec4 { x: 0, y: 0, z: 1, w: 0 },
        w_axis: IVec4 { x: 5, y: 6, z: 7, w: 1 },
    }
}

fn texture_source(entity: u64, visible: bool) -> TextureBillboardSource {
    TextureBillboardSource {
        entity,
        visible,
        global_transform: GlobalTransform { matrix: identityish() },
        transform: Transform { scale: IVec3 { x: 1, y: 1, z: 1 } },
        mesh: BillboardMesh(11),
        texture: BillboardTexture(22),
        depth: BillboardDepth(true),
        lock_axis: None,
    }
}

fn text_source(entity: u64, visible: bool, groups: &[(u64, u64)]) -> TextBillboardSource {
    let mut handles = BillboardTextHandles::new();
    for (mesh, image) in groups {
        handles.push(BillboardTextHandleGroup { mesh: *mesh, image: *image });
    }
    TextBillboardSource {
        entity,
        visible,
        global_transform: GlobalTransform { matrix: identityish() },
        transform: Transform { scale: IVec3 { x: 1, y: 1, z: 1 } },
        handles,
        depth: BillboardDepth(false),
        lock_axis: Some(BillboardLockAxis { y_axis: true, rotation: false }),
    }
}

#[test]
fn invisible_texture_billboard_contributes_nothing() {
    let batch = extract_billboard_texture(&vec![texture_source(1, false)]);
    assert!(batch.is_empty());
}

#[test]
fn visibility_flip_appears_in_next_frame_batch() {
    // Frame with the entity hidden: absent entirely, not hidden-but-cached.
    let batch = extract_billboard_texture(&vec![texture_source(1, false)]);
    assert!(batch.is_empty());
    // The next frame extracts anew; with visibility flipped the entity is
    // in that frame's batch at once.
    let batch = extract_billboard_texture(&vec![texture_source(1, true)]);
    assert_eq!(batch.len(), 1);
    assert_eq!(batch[0].0, 1);
}

#[test]
fn texture_extraction_copies_draw_state() {
    let batch = extract_billboard_texture(&vec![texture_source(3, true)]);
    assert_eq!(batch.len(), 1);
    let (entity, record) = batch[0];
    assert_eq!(entity, 3);
    assert_eq!(record.mesh.id, 11);
    assert_eq!(record.image.id, 22);
    assert!(record.billboard.depth.0);
    assert!(record.billboard.lock_axis.is_none());
    // No lock: the uniform strips rotation but keeps the translation.
    assert_eq!(record.uniform.transform.w_axis, IVec4 { x: 5, y: 6, z: 7, w: 1 });
}

#[test]
fn invisible_text_billboard_contributes_nothing() {
    let batch = extract_billboard_text(&vec![text_source(9, false, &[(1, 2)])]);
    assert!(batch.is_empty());
}

#[test]
fn text_billboard_emits_one_record_per_atlas_group() {
    let sources = vec![text_source(9, true, &[(1, 100), (2, 200)])];
    let batch = extract_billboard_text(&sources);
    assert_eq!(batch.len(), 2);
    assert_eq!(batch[0].0, 9);
    assert_eq!(batch[1].0, 9);
    assert_eq!(batch[0].1.mesh.id, 1);
    assert_eq!(batch[0].1.image.id, 100);
    assert_eq!(batch[1].1.mesh.id, 2);
    assert_eq!(batch[1].1.image.id, 200);
    // Locked: the full world matrix passes through.
    assert_eq!(batch[0].1.uniform.transform, identityish());
}

#[test]
fn mixed_visibility_keeps_only_visible_sources_in_order() {
    let sources = vec![
        text_source(1, true, &[(10, 20)]),
        text_source(2, false, &[(30, 40)]),
        text_source(3, true, &[(50, 60)]),
    ];
    let batch = extract_billboard_text(&sources);
    assert_eq!(batch.len(), 2);
    assert_eq!(batch[0].0, 1);
    assert_eq!(batch[1].0, 3);
}
