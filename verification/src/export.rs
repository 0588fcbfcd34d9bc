//! Whole batches: every shape of a document made dense.
//!
//! Each shape is handled on its own. A shape that cannot be made dense is
//! left out of the output and noted with its position and the reason; the
//! shapes after it are handled as if nothing had happened.

use vstd::prelude::*;
use crate::append::append_failure;
use crate::append::is_appended;
use crate::append::reconstruct_appended;
use crate::dense::is_full_array_of;
use crate::dense::reconstruct_full_array;
use crate::dense::ExchangeShapeReference;
use crate::error::Error;
use crate::mesh::related_mesh;
use crate::mesh::RendererMeshes;
use crate::mesh::SkinnedMeshRenderer;
use crate::pairing::obstacle;
use crate::shape::BlendShape;
use crate::shape::BlendShapes;

verus! {

/// The full-array records of one document, in the order of their shapes.
#[derive(Debug, Default)]
pub struct UnityBlendShapes {
    pub meshes: Vec<ExchangeShapeReference>,
}

/// A shape that was left out: its position among the shapes, and why.
#[derive(Clone, Copy, Debug, PartialEq, Eq, Structural)]
pub struct Skipped {
    pub position: usize,
    pub reason: Error,
}

/// What a batch in full-array form gives.
#[derive(Debug)]
pub struct FullArrayBatch {
    pub output: UnityBlendShapes,
    pub skipped: Vec<Skipped>,
}

/// What a batch in append mode gives.
#[derive(Debug)]
pub struct AppendBatch {
    pub output: BlendShapes,
    pub skipped: Vec<Skipped>,
}

/// Whether `records` and `skipped` are what a full-array batch over `shapes`
/// gives: going through the shapes in order, every shape that nothing stands
/// in the way of adds its record, and every other shape adds a note.
pub open spec fn is_full_array_batch(
    records: Seq<ExchangeShapeReference>,
    skipped: Seq<Skipped>,
    shapes: Seq<BlendShape>,
    meshes: Seq<SkinnedMeshRenderer>,
    new_shape_name: Seq<char>,
) -> bool
    decreases shapes.len(),
{
    if shapes.len() == 0 {
        records.len() == 0 && skipped.len() == 0
    } else {
        match obstacle(shapes.last(), meshes) {
            None => {
                &&& records.len() > 0
                &&& is_full_array_of(
                    records.last(),
                    shapes.last(),
                    meshes[related_mesh(shapes.last().name@, meshes)->0],
                    new_shape_name,
                )
                &&& is_full_array_batch(
                    records.drop_last(),
                    skipped,
                    shapes.drop_last(),
                    meshes,
                    new_shape_name,
                )
            },
            Some(reason) => {
                &&& skipped.len() > 0
                &&& skipped.last() == (Skipped { position: (shapes.len() - 1) as usize, reason })
                &&& is_full_array_batch(
                    records,
                    skipped.drop_last(),
                    shapes.drop_last(),
                    meshes,
                    new_shape_name,
                )
            },
        }
    }
}

/// Whether `dense` and `skipped` are what an append-mode batch over `shapes`
/// gives: going through the shapes in order, every shape that can be extended
/// adds its extended form, and every other shape adds a note.
pub open spec fn is_append_batch(
    dense: Seq<BlendShape>,
    skipped: Seq<Skipped>,
    shapes: Seq<BlendShape>,
    meshes: Seq<SkinnedMeshRenderer>,
) -> bool
    decreases shapes.len(),
{
    if shapes.len() == 0 {
        dense.len() == 0 && skipped.len() == 0
    } else {
        match append_failure(shapes.last(), meshes) {
            None => {
                &&& dense.len() > 0
                &&& is_appended(
                    dense.last(),
                    shapes.last(),
                    meshes[related_mesh(shapes.last().name@, meshes)->0].vertices@,
                )
                &&& is_append_batch(dense.drop_last(), skipped, shapes.drop_last(), meshes)
            },
            Some(reason) => {
                &&& skipped.len() > 0
                &&& skipped.last() == (Skipped { position: (shapes.len() - 1) as usize, reason })
                &&& is_append_batch(dense, skipped.drop_last(), shapes.drop_last(), meshes)
            },
        }
    }
}

/// A batch accounts for every shape once: as a record or as a note.
pub proof fn lemma_full_array_batch_is_complete(
    records: Seq<ExchangeShapeReference>,
    skipped: Seq<Skipped>,
    shapes: Seq<BlendShape>,
    meshes: Seq<SkinnedMeshRenderer>,
    new_shape_name: Seq<char>,
)
    requires
        is_full_array_batch(records, skipped, shapes, meshes, new_shape_name),
    ensures
        records.len() + skipped.len() == shapes.len(),
    decreases shapes.len(),
{
    if shapes.len() > 0 {
        match obstacle(shapes.last(), meshes) {
            None => lemma_full_array_batch_is_complete(
                records.drop_last(),
                skipped,
                shapes.drop_last(),
                meshes,
                new_shape_name,
            ),
            Some(reason) => lemma_full_array_batch_is_complete(
                records,
                skipped.drop_last(),
                shapes.drop_last(),
                meshes,
                new_shape_name,
            ),
        }
    }
}

/// Makes every shape dense in full-array form.
pub fn build_unity_blendshapes(
    blendshape_holder: &BlendShapes,
    render_meshes: &RendererMeshes,
    new_shape_name: &str,
) -> (r: FullArrayBatch)
    ensures
        is_full_array_batch(
            r.output.meshes@,
            r.skipped@,
            blendshape_holder.blendshapes@,
            render_meshes.meshes@,
            new_shape_name@,
        ),
{
    let shapes = &blendshape_holder.blendshapes;
    let mut meshes: Vec<ExchangeShapeReference> = Vec::new();
    let mut skipped: Vec<Skipped> = Vec::new();
    let mut position: usize = 0;
    while position < shapes.len()
        invariant
            position <= shapes.len(),
            is_full_array_batch(
                meshes@,
                skipped@,
                shapes@.subrange(0, position as int),
                render_meshes.meshes@,
                new_shape_name@,
            ),
        decreases shapes.len() - position,
    {
        let ghost meshes_before = meshes@;
        let ghost skipped_before = skipped@;
        proof {
            let longer = shapes@.subrange(0, position + 1);
            assert(longer.drop_last() =~= shapes@.subrange(0, position as int));
        }
        match reconstruct_full_array(&shapes[position], &render_meshes.meshes, new_shape_name) {
            Ok(new_shape) => {
                meshes.push(new_shape);
                proof {
                    assert(meshes@.drop_last() =~= meshes_before);
                }
            },
            Err(reason) => {
                skipped.push(Skipped { position, reason });
                proof {
                    assert(skipped@.drop_last() =~= skipped_before);
                }
            },
        }
        position += 1;
    }
    proof {
        assert(shapes@.subrange(0, position as int) =~= shapes@);
    }
    FullArrayBatch { output: UnityBlendShapes { meshes }, skipped }
}

/// Makes every shape dense in append mode.
pub fn build_dense_blendshapes(blendshape_holder: BlendShapes, render_meshes: &RendererMeshes) -> (r:
    AppendBatch)
    ensures
        is_append_batch(
            r.output.blendshapes@,
            r.skipped@,
            blendshape_holder.blendshapes@,
            render_meshes.meshes@,
        ),
{
    let ghost shapes = blendshape_holder.blendshapes@;
    let count: usize = blendshape_holder.blendshapes.len();
    let mut dense: Vec<BlendShape> = Vec::new();
    let mut skipped: Vec<Skipped> = Vec::new();
    for shape in it: blendshape_holder.blendshapes
        invariant
            it.seq() == shapes,
            shapes.len() == count,
            dense.len() + skipped.len() == it.index(),
            is_append_batch(
                dense@,
                skipped@,
                shapes.subrange(0, it.index()),
                render_meshes.meshes@,
            ),
    {
        let ghost dense_before = dense@;
        let ghost skipped_before = skipped@;
        let position: usize = dense.len() + skipped.len();
        proof {
            let longer = shapes.subrange(0, it.index() + 1);
            assert(longer.drop_last() =~= shapes.subrange(0, it.index()));
        }
        let mut shape = shape;
        match reconstruct_appended(&mut shape, &render_meshes.meshes) {
            Ok(()) => {
                dense.push(shape);
                proof {
                    assert(dense@.drop_last() =~= dense_before);
                }
            },
            Err(reason) => {
                skipped.push(Skipped { position, reason });
                proof {
                    assert(skipped@.drop_last() =~= skipped_before);
                }
            },
        }
    }
    proof {
        assert(shapes.subrange(0, shapes.len() as int) =~= shapes);
    }
    AppendBatch { output: BlendShapes { blendshapes: dense }, skipped }
}

} // verus!
