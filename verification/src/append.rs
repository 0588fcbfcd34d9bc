//! Append mode: a shape extended to every vertex of its mesh.
//!
//! The shape keeps its entries. For every vertex beyond the cutoff one entry
//! is added: the vertex's index, and the offset that the shape gives to the
//! first vertex before the cutoff that shares its position. Nothing is
//! converted on the way. Where a vertex beyond the cutoff has no such match,
//! nothing is added at all and the gap is reported.

use vstd::prelude::*;
use vstd::slice::slice_subrange;
use crate::correspondence::find_matching_indices;
use crate::correspondence::lemma_matching_indices;
use crate::correspondence::records_scan;
use crate::dense::source_of;
use crate::error::Error;
use crate::mesh::locate_mesh;
use crate::mesh::related_mesh;
use crate::mesh::SkinnedMeshRenderer;
use crate::pairing::fit;
use crate::pairing::misfit;
use crate::scalar::Scalar;
use crate::shape::lemma_last_entry;
use crate::shape::BlendShape;
use crate::vector::Vector3;

verus! {

broadcast use vstd::std_specs::hash::group_hash_axioms;

/// The indices of the vertices beyond `cutoff` in a mesh of `vertex_count`
/// vertices, ascending.
pub open spec fn tail_indices(cutoff: int, vertex_count: int) -> Seq<i64> {
    Seq::new((vertex_count - cutoff - 1) as nat, |k: int| (cutoff + 1 + k) as i64)
}

/// Whether some vertex beyond the cutoff has no vertex to take its offset from.
pub open spec fn has_gap(shape: BlendShape, mesh: Seq<Vector3>) -> bool {
    exists|vertex: int| shape.cutoff() < vertex < mesh.len() && source_of(shape, mesh, vertex) is None
}

/// The offsets of the vertices beyond the cutoff, three components to a
/// vertex: each the offset that the shape gives to the vertex's source.
pub open spec fn tail_offsets(shape: BlendShape, mesh: Seq<Vector3>) -> Seq<Scalar> {
    Seq::new(
        (3 * (mesh.len() - shape.cutoff() - 1)) as nat,
        |place: int|
            shape.offset_of(source_of(shape, mesh, shape.cutoff() + 1 + place / 3)->0).component(
                place % 3,
            ),
    )
}

/// Whether `dense` is `sparse` extended to every vertex of `mesh`.
pub open spec fn is_appended(dense: BlendShape, sparse: BlendShape, mesh: Seq<Vector3>) -> bool {
    &&& dense.id == sparse.id
    &&& dense.name@ == sparse.name@
    &&& dense.normals_view() == sparse.normals_view()
    &&& dense.indices@ == sparse.indices@ + tail_indices(sparse.cutoff(), mesh.len() as int)
    &&& dense.vertices@ == sparse.vertices@ + tail_offsets(sparse, mesh)
}

/// What keeps a shape from being extended over `mesh`, if anything does: a
/// misfit, or else a gap.
pub open spec fn densify_failure(shape: BlendShape, mesh: Seq<Vector3>) -> Option<Error> {
    match misfit(shape, mesh.len() as int) {
        Some(found) => Some(found),
        None => if has_gap(shape, mesh) {
            Some(Error::ReconstructionGap)
        } else {
            None
        },
    }
}

/// What keeps a shape from being extended over its mesh, if anything does.
/// The mesh is looked for first.
pub open spec fn append_failure(shape: BlendShape, meshes: Seq<SkinnedMeshRenderer>) -> Option<
    Error,
> {
    match related_mesh(shape.name@, meshes) {
        None => Some(Error::AmbiguousOrMissingMesh),
        Some(position) => densify_failure(shape, meshes[position].vertices@),
    }
}

/// An extended shape is as well aligned as the shape it came from: it gains
/// three offset components for every index it gains.
pub proof fn lemma_appended_is_aligned(dense: BlendShape, sparse: BlendShape, mesh: Seq<Vector3>)
    requires
        sparse.is_aligned(),
        sparse.cutoff() < mesh.len(),
        is_appended(dense, sparse, mesh),
    ensures
        dense.is_aligned(),
{
}

/// The indices of an extended shape are those it had, followed by every index
/// from the one behind the cutoff up to the mesh's last, each once and in
/// rising order. Where the shape's own indices rise strictly, so do all of
/// them together; where they count up from zero without a gap, all of them
/// together name every vertex of the mesh once.
pub proof fn lemma_appended_indices(dense: BlendShape, sparse: BlendShape, mesh: Seq<Vector3>)
    requires
        sparse.indices.len() > 0,
        -1 <= sparse.cutoff() < mesh.len() <= i64::MAX,
        is_appended(dense, sparse, mesh),
    ensures
        dense.indices.len() == sparse.indices.len() + (mesh.len() - sparse.cutoff() - 1),
        forall|entry: int|
            0 <= entry < sparse.indices.len() ==> dense.indices[entry] == sparse.indices[entry],
        forall|k: int|
            0 <= k < mesh.len() - sparse.cutoff() - 1 ==> #[trigger] dense.indices[sparse.indices.len()
                + k] == sparse.cutoff() + 1 + k,
        (forall|a: int, b: int|
            0 <= a < b < sparse.indices.len() ==> sparse.indices[a] < sparse.indices[b]) ==> (forall|
            a: int,
            b: int,
        | 0 <= a < b < dense.indices.len() ==> dense.indices[a] < dense.indices[b]),
        (forall|entry: int| 0 <= entry < sparse.indices.len() ==> sparse.indices[entry] == entry)
            ==> dense.indices.len() == mesh.len() && (forall|entry: int|
            0 <= entry < dense.indices.len() ==> dense.indices[entry] == entry),
{
}

impl BlendShape {
    /// Extends the shape to every vertex of `mesh`.
    ///
    /// On success the shape has gained one entry for each vertex beyond its
    /// cutoff. Where the mesh does not carry the shape, or one of those
    /// vertices shares its position with no vertex before the cutoff, the
    /// shape is left as it was.
    pub fn densify(&mut self, mesh: &Vec<Vector3>) -> (r: Result<(), Error>)
        ensures
            match r {
                Ok(()) => {
                    &&& densify_failure(*old(self), mesh@) is None
                    &&& is_appended(*final(self), *old(self), mesh@)
                    &&& final(self).is_aligned()
                },
                Err(e) => {
                    &&& densify_failure(*old(self), mesh@) == Some(e)
                    &&& *final(self) == *old(self)
                },
            },
    {
        match fit(self, mesh.len()) {
            Ok(()) => {},
            Err(e) => {
                return Err(e);
            },
        }
        let count: usize = self.indices.len();
        let head: usize = self.indices[count - 1] as usize + 1;
        let vertex_count: usize = mesh.len();
        let tail: usize = vertex_count - head;
        let all = mesh.as_slice();
        let matching = find_matching_indices(
            slice_subrange(all, 0, head),
            slice_subrange(all, head, vertex_count),
        );
        let ghost front = mesh@.subrange(0, head as int);
        let ghost back = mesh@.subrange(head as int, vertex_count as int);
        let mut extra_indices: Vec<i64> = Vec::new();
        let mut extra_offsets: Vec<Scalar> = Vec::new();
        let mut key: usize = 0;
        while key < tail
            invariant
                key <= tail,
                head + tail == vertex_count == mesh.len() <= i64::MAX,
                head == self.cutoff() + 1,
                *self == *old(self),
                self.is_well_formed(),
                self.fits(vertex_count as int),
                front == mesh@.subrange(0, head as int),
                back == mesh@.subrange(head as int, vertex_count as int),
                records_scan(matching@, front, back),
                forall|vertex: int|
                    head <= vertex < head + key ==> source_of(*self, mesh@, vertex) is Some,
                extra_indices.len() == key,
                forall|k: int| 0 <= k < key ==> extra_indices@[k] == head + k,
                extra_offsets.len() == 3 * key,
                forall|place: int|
                    0 <= place < 3 * key ==> #[trigger] extra_offsets@[place] == self.offset_of(
                        source_of(*self, mesh@, head + place / 3)->0,
                    ).component(place % 3),
            decreases tail - key,
        {
            let found = matching.get(&(key as i64));
            let value: &Vec<i64> = found.unwrap();
            if value.len() == 0 {
                return Err(Error::ReconstructionGap);
            }
            proof {
                lemma_matching_indices(front, mesh@[head + key]);
                lemma_last_entry(self.indices@, value@[0] as int);
            }
            let source: i64 = value[0];
            let ghost before = extra_offsets@;
            match self.entry_of(source) {
                Some(entry) => {
                    extra_offsets.push(self.vertices[3 * entry]);
                    extra_offsets.push(self.vertices[3 * entry + 1]);
                    extra_offsets.push(self.vertices[3 * entry + 2]);
                },
                None => {
                    extra_offsets.push(Scalar::zero());
                    extra_offsets.push(Scalar::zero());
                    extra_offsets.push(Scalar::zero());
                },
            }
            extra_indices.push((head + key) as i64);
            proof {
                let offset = self.offset_of(source as int);
                assert(extra_offsets@[3 * key] == offset.component(0));
                assert(extra_offsets@[3 * key + 1] == offset.component(1));
                assert(extra_offsets@[3 * key + 2] == offset.component(2));
                assert forall|place: int|
                    0 <= place < 3 * (key + 1) implies #[trigger] extra_offsets@[place]
                    == self.offset_of(source_of(*self, mesh@, head + place / 3)->0).component(
                    place % 3,
                ) by {
                    if place < 3 * key {
                        assert(extra_offsets@[place] == before[place]);
                    }
                }
            }
            key += 1;
        }
        proof {
            assert(extra_indices@ =~= tail_indices(self.cutoff(), vertex_count as int));
            assert(extra_offsets@ =~= tail_offsets(*self, mesh@));
        }
        self.indices.append(&mut extra_indices);
        self.vertices.append(&mut extra_offsets);
        Ok(())
    }
}

/// Makes one shape dense in append mode.
///
/// The shape is paired with its mesh by name and then extended to every
/// vertex of that mesh. On any failure the shape is left as it was.
pub fn reconstruct_appended(shape: &mut BlendShape, meshes: &Vec<SkinnedMeshRenderer>) -> (r:
    Result<(), Error>)
    ensures
        match r {
            Ok(()) => {
                &&& append_failure(*old(shape), meshes@) is None
                &&& is_appended(
                    *final(shape),
                    *old(shape),
                    meshes@[related_mesh(old(shape).name@, meshes@)->0].vertices@,
                )
                &&& final(shape).is_aligned()
            },
            Err(e) => {
                &&& append_failure(*old(shape), meshes@) == Some(e)
                &&& *final(shape) == *old(shape)
            },
        },
{
    let position: usize = match locate_mesh(shape.name.as_str(), meshes) {
        Ok(position) => position,
        Err(e) => {
            return Err(e);
        },
    };
    shape.densify(&meshes[position].vertices)
}

} // verus!
