use billboard_render::math::UVec2;
use billboard_render::text::{
    build_text_mesh, effective_text_bounds, group_glyphs_by_atlas, update_billboard_text_layout,
    Anchor, AtlasRect, BillboardTextBounds, BillboardTextHandles, Color, JustifyText,
    LayoutUpdate, MeshAssets, PositionedGlyph, ShapingOutcome, Text, TextLayoutInfo, TextSection,
    TextureAtlas,
};

const RED: Color = Color { r: 255, g: 0, b: 0, a: 255 };
const WHITE: Color = Color { r: 255, g: 255, b: 255, a: 255 };

fn glyph(x: i32, texture: u64, glyph_index: usize, section_index: usize) -> PositionedGlyph {
    PositionedGlyph {
        position_x: x,
        position_y: 0,
        size_x: 10,
        size_y: 20,
        atlas_texture: texture,
        glyph_index,
        section_index,
    }
}

fn atlas_100x50() -> TextureAtlas {
    TextureAtlas {
        size: UVec2 { x: 100, y: 50 },
        rects: vec![
            AtlasRect { min: UVec2 { x: 0, y: 0 }, max: UVec2 { x: 10, y: 20 } },
            AtlasRect { min: UVec2 { x: 10, y: 0 }, max: UVec2 { x: 25, y: 20 } },
        ],
    }
}

#[test]
fn two_glyphs_one_bucket_emit_eight_vertices_twelve_indices() {
    let glyphs = vec![glyph(0, 7, 0, 0), glyph(12, 7, 1, 0)];
    let sections = vec![TextSection { value: String::from("ab"), color: RED }];
    let atlas = atlas_100x50();
    let anchor = Anchor { x2: 0, y2: 0 };
    let mesh = build_text_mesh(&glyphs, &sections, &atlas, &anchor, UVec2 { x: 22, y: 20 });

    assert_eq!(mesh.positions.len(), 8);
    assert_eq!(mesh.uvs.len(), 8);
    assert_eq!(mesh.colors.len(), 8);
    assert_eq!(mesh.indices.len(), 12);

    // UV corners are each glyph's sub-rectangle, in atlas pixels; divided
    // by the carried atlas size they are the normalized rectangle.
    assert_eq!(mesh.atlas_size, UVec2 { x: 100, y: 50 });
    assert_eq!(mesh.uvs[0], UVec2 { x: 0, y: 20 });
    assert_eq!(mesh.uvs[1], UVec2 { x: 0, y: 0 });
    assert_eq!(mesh.uvs[2], UVec2 { x: 10, y: 0 });
    assert_eq!(mesh.uvs[3], UVec2 { x: 10, y: 20 });
    assert_eq!(mesh.uvs[4], UVec2 { x: 10, y: 20 });
    assert_eq!(mesh.uvs[5], UVec2 { x: 10, y: 0 });
    assert_eq!(mesh.uvs[6], UVec2 { x: 25, y: 0 });
    assert_eq!(mesh.uvs[7], UVec2 { x: 25, y: 20 });

    // Two triangles per glyph over its four vertices.
    assert_eq!(mesh.indices, vec![0, 2, 1, 0, 3, 2, 4, 6, 5, 4, 7, 6]);
}

#[test]
fn vertex_positions_are_center_plus_minus_half_size_with_anchor() {
    // One glyph centered at (8, 0), size 10x20, centered anchor over a
    // 22x20 block: offset is -(0+1)*size in half units.
    let glyphs = vec![glyph(8, 7, 0, 0)];
    let sections = vec![TextSection { value: String::from("a"), color: RED }];
    let atlas = atlas_100x50();
    let anchor = Anchor { x2: 0, y2: 0 };
    let mesh = build_text_mesh(&glyphs, &sections, &atlas, &anchor, UVec2 { x: 22, y: 20 });

    // Half-unit coordinates: x = 2*8 ± 10 - 22, y = 2*0 ± 20 - 20.
    let min_x = 2 * 8 - 10 - 22;
    let max_x = 2 * 8 + 10 - 22;
    let min_y = -20 - 20;
    let max_y = 20 - 20;
    assert_eq!((mesh.positions[0].x, mesh.positions[0].y), (min_x, min_y));
    assert_eq!((mesh.positions[1].x, mesh.positions[1].y), (min_x, max_y));
    assert_eq!((mesh.positions[2].x, mesh.positions[2].y), (max_x, max_y));
    assert_eq!((mesh.positions[3].x, mesh.positions[3].y), (max_x, min_y));
    assert!(mesh.positions.iter().all(|p| p.z == 0));
}

#[test]
fn section_colors_cover_each_glyphs_four_vertices() {
    let glyphs = vec![glyph(0, 7, 0, 0), glyph(12, 7, 1, 1)];
    let sections = vec![
        TextSection { value: String::from("A"), color: RED },
        TextSection { value: String::from("B"), color: WHITE },
    ];
    let atlas = atlas_100x50();
    let anchor = Anchor { x2: 0, y2: 0 };
    let mesh = build_text_mesh(&glyphs, &sections, &atlas, &anchor, UVec2 { x: 22, y: 20 });
    assert_eq!(&mesh.colors[0..4], &[RED, RED, RED, RED]);
    assert_eq!(&mesh.colors[4..8], &[WHITE, WHITE, WHITE, WHITE]);
}

#[test]
fn grouping_preserves_first_occurrence_order() {
    let glyphs = vec![
        glyph(0, 7, 0, 0),
        glyph(1, 9, 0, 0),
        glyph(2, 7, 1, 0),
        glyph(3, 9, 1, 0),
    ];
    let buckets = group_glyphs_by_atlas(&glyphs);
    assert_eq!(buckets.len(), 2);
    assert_eq!(buckets[0].0, 7);
    assert_eq!(buckets[1].0, 9);
    assert_eq!(buckets[0].1.len(), 2);
    assert_eq!(buckets[1].1.len(), 2);
    assert_eq!(buckets[0].1[0].position_x, 0);
    assert_eq!(buckets[0].1[1].position_x, 2);
    assert_eq!(buckets[1].1[0].position_x, 1);
    assert_eq!(buckets[1].1[1].position_x, 3);
}

fn plain_text(sections: Vec<TextSection>) -> Text {
    Text { sections, justify: JustifyText::Left, linebreak_no_wrap: false }
}

#[test]
fn clean_entity_is_left_alone() {
    let text = plain_text(vec![]);
    let anchor = Anchor { x2: 0, y2: 0 };
    let atlases: Vec<(u64, TextureAtlas)> = Vec::new();
    let mut meshes = MeshAssets::new();
    let mut handles = BillboardTextHandles::new();
    let outcome = ShapingOutcome::FontNotReady;
    let r = update_billboard_text_layout(
        false, false, &outcome, &text, &anchor, &atlases, &mut meshes, &mut handles,
    );
    assert_eq!(r, LayoutUpdate::Unchanged);
    assert_eq!(handles.len(), 0);
}

#[test]
fn missing_font_requeues_entity() {
    let text = plain_text(vec![]);
    let anchor = Anchor { x2: 0, y2: 0 };
    let atlases: Vec<(u64, TextureAtlas)> = Vec::new();
    let mut meshes = MeshAssets::new();
    let mut handles = BillboardTextHandles::new();
    let outcome = ShapingOutcome::FontNotReady;
    let r = update_billboard_text_layout(
        true, false, &outcome, &text, &anchor, &atlases, &mut meshes, &mut handles,
    );
    assert_eq!(r, LayoutUpdate::Requeued);
}

#[test]
fn glyph_failure_is_fatal_for_the_pass() {
    let text = plain_text(vec![]);
    let anchor = Anchor { x2: 0, y2: 0 };
    let atlases: Vec<(u64, TextureAtlas)> = Vec::new();
    let mut meshes = MeshAssets::new();
    let mut handles = BillboardTextHandles::new();
    let outcome = ShapingOutcome::GlyphFailed;
    let r = update_billboard_text_layout(
        false, true, &outcome, &text, &anchor, &atlases, &mut meshes, &mut handles,
    );
    assert_eq!(r, LayoutUpdate::Failed);
    assert_eq!(meshes.items.len(), 0);
}

#[test]
fn successful_layout_replaces_handles_wholesale() {
    let text = plain_text(vec![TextSection { value: String::from("ab"), color: RED }]);
    let anchor = Anchor { x2: 0, y2: 0 };
    let atlases = vec![(7u64, atlas_100x50())];
    let mut meshes = MeshAssets::new();
    let mut handles = BillboardTextHandles::new();
    // A stale handle group from an earlier layout pass.
    handles.push(billboard_render::text::BillboardTextHandleGroup { mesh: 99, image: 99 });

    let info = TextLayoutInfo {
        glyphs: vec![glyph(0, 7, 0, 0), glyph(12, 7, 1, 0)],
        logical_size: UVec2 { x: 22, y: 20 },
    };
    let r = update_billboard_text_layout(
        true,
        false,
        &ShapingOutcome::Ready(info),
        &text,
        &anchor,
        &atlases,
        &mut meshes,
        &mut handles,
    );
    assert_eq!(r, LayoutUpdate::Rebuilt);
    // The stale group is gone: one fresh group per atlas bucket.
    assert_eq!(handles.len(), 1);
    let group = handles.get(0);
    assert_eq!(group.image, 7);
    assert_eq!(group.mesh, 0);
    assert_eq!(meshes.items.len(), 1);
    assert_eq!(meshes.items[0].positions.len(), 8);
}

#[test]
fn no_wrap_text_gets_unbounded_wrap_width() {
    let bounds = BillboardTextBounds { size: UVec2 { x: 640, y: 480 } };
    let wrapped = plain_text(vec![]);
    assert_eq!(effective_text_bounds(&wrapped, &bounds), (Some(640), 480));
    let mut no_wrap = plain_text(vec![]);
    no_wrap.linebreak_no_wrap = true;
    assert_eq!(effective_text_bounds(&no_wrap, &bounds), (None, 480));
}
