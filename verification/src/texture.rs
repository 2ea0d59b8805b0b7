//! Textured billboards: extraction of image-carrying quads into per-frame
//! draw records.

use vstd::prelude::*;

use crate::math::{GlobalTransform, Transform};
use crate::pipeline::{RenderBillboardImage, RenderBillboardMesh};
use crate::text::{ExtractedBillboard, RenderBillboard};
use crate::utils::{calculate_billboard_uniform, spec_billboard_uniform};
use crate::{BillboardDepth, BillboardLockAxis, BillboardMesh, BillboardTexture};

verus! {

/// The simulation-side state of one textured billboard entity, as
/// extraction reads it.
#[derive(Clone, Copy, PartialEq, Eq, Structural, Debug)]
pub struct TextureBillboardSource {
    pub entity: u64,
    pub visible: bool,
    pub global_transform: GlobalTransform,
    pub transform: Transform,
    pub mesh: BillboardMesh,
    pub texture: BillboardTexture,
    pub depth: BillboardDepth,
    pub lock_axis: Option<BillboardLockAxis>,
}

/// The record one textured billboard contributes to a frame, when it is
/// visible.
pub open spec fn spec_extract_texture_one(s: TextureBillboardSource) -> (u64, ExtractedBillboard) {
    (
        s.entity,
        ExtractedBillboard {
            uniform: spec_billboard_uniform(s.global_transform, s.transform, s.lock_axis),
            mesh: RenderBillboardMesh { id: s.mesh.0 },
            image: RenderBillboardImage { id: s.texture.0 },
            billboard: RenderBillboard { depth: s.depth, lock_axis: s.lock_axis },
        },
    )
}

/// The whole extraction batch for textured billboards: one record per
/// visible source, in source order; invisible sources contribute nothing.
pub open spec fn spec_extract_texture(sources: Seq<TextureBillboardSource>) -> Seq<
    (u64, ExtractedBillboard),
>
    decreases sources.len(),
{
    if sources.len() == 0 {
        Seq::empty()
    } else {
        spec_extract_texture(sources.drop_last()) + (if sources.last().visible {
            seq![spec_extract_texture_one(sources.last())]
        } else {
            Seq::empty()
        })
    }
}

/// Law: the visibility filter for textured billboards. An invisible
/// entity contributes no record; a visible one contributes exactly one,
/// carrying its entity, asset identities and uniform.
pub proof fn lemma_texture_visibility_filter(sources: Seq<TextureBillboardSource>)
    ensures
        spec_extract_texture(sources).len() <= sources.len(),
        sources.len() > 0 && !sources.last().visible ==> spec_extract_texture(sources)
            == spec_extract_texture(sources.drop_last()),
        sources.len() > 0 && sources.last().visible ==> spec_extract_texture(sources)
            == spec_extract_texture(sources.drop_last()).push(
            spec_extract_texture_one(sources.last()),
        ),
    decreases sources.len(),
{
    if sources.len() > 0 {
        lemma_texture_visibility_filter(sources.drop_last());
        if sources.last().visible {
            assert(spec_extract_texture(sources.drop_last()) + seq![
                spec_extract_texture_one(sources.last()),
            ] =~= spec_extract_texture(sources.drop_last()).push(
                spec_extract_texture_one(sources.last()),
            ));
        } else {
            assert(spec_extract_texture(sources.drop_last()) + Seq::<
                (u64, ExtractedBillboard),
            >::empty() =~= spec_extract_texture(sources.drop_last()));
        }
    }
}

/// Runs once per frame at the simulation-to-render boundary: filters for
/// visible textured billboards and copies their draw state out, one
/// record each. Reads only; tolerates an empty world.
pub fn extract_billboard_texture(sources: &Vec<TextureBillboardSource>) -> (batch: Vec<
    (u64, ExtractedBillboard),
>)
    ensures
        batch@ == spec_extract_texture(sources@),
{
    let mut batch: Vec<(u64, ExtractedBillboard)> = Vec::new();
    proof {
        assert(sources@.take(0) =~= Seq::<TextureBillboardSource>::empty());
    }
    let mut i: usize = 0;
    while i < sources.len()
        invariant
            i <= sources@.len(),
            batch@ == spec_extract_texture(sources@.take(i as int)),
        decreases sources@.len() - i,
    {
        let source = &sources[i];
        proof {
            assert(sources@.take(i as int + 1).drop_last() =~= sources@.take(i as int));
            assert(sources@.take(i as int + 1).last() == sources@[i as int]);
        }
        if source.visible {
            let uniform = calculate_billboard_uniform(
                &source.global_transform,
                &source.transform,
                source.lock_axis.as_ref(),
            );
            batch.push(
                (
                    source.entity,
                    ExtractedBillboard {
                        uniform,
                        mesh: RenderBillboardMesh { id: source.mesh.0 },
                        image: RenderBillboardImage { id: source.texture.0 },
                        billboard: RenderBillboard {
                            depth: source.depth,
                            lock_axis: source.lock_axis,
                        },
                    },
                ),
            );
            proof {
                assert(batch@ =~= spec_extract_texture(sources@.take(i as int)) + seq![
                    spec_extract_texture_one(sources@[i as int]),
                ]);
            }
        } else {
            proof {
                assert(batch@ =~= spec_extract_texture(sources@.take(i as int)) + Seq::<
                    (u64, ExtractedBillboard),
                >::empty());
            }
        }
        i = i + 1;
    }
    proof {
        assert(sources@.take(sources@.len() as int) =~= sources@);
    }
    batch
}

} // verus!
