//! Full-array records: one offset for every vertex of a mesh.
//!
//! A record is built in two steps. First every offset of the shape is written
//! to the slot of its vertex, with the sign of its first component flipped for
//! the target's coordinate system; slots that the shape does not name stay
//! zero. Then every vertex beyond the cutoff takes over the slot of the first
//! vertex before the cutoff that shares its position. The slot is copied as it
//! stands, so the sign is flipped once and never again.

use std::collections::HashMap;
use vstd::prelude::*;
use vstd::slice::slice_subrange;
use crate::correspondence::find_matching_indices;
use crate::correspondence::first_match;
use crate::correspondence::lemma_first_match;
use crate::correspondence::lemma_matching_indices;
use crate::correspondence::records_scan;
use crate::error::Error;
use crate::mesh::mesh_key;
use crate::mesh::related_mesh;
use crate::mesh::SkinnedMeshRenderer;
use crate::pairing::obstacle;
use crate::pairing::pair;
use crate::scalar::lemma_negated_keeps_magnitude;
use crate::scalar::lemma_negated_twice;
use crate::shape::last_entry;
use crate::shape::lemma_last_entry;
use crate::shape::BlendShape;
use crate::text::join_names;
use crate::vector::Vector3;

verus! {

broadcast use vstd::std_specs::hash::group_hash_axioms;

/// A shape made dense for one mesh: a name, the first slot beyond the shape's
/// cutoff, and one offset for every vertex of the mesh.
#[derive(Debug, Default)]
pub struct ExchangeShapeReference {
    pub name: String,
    pub cutoff: usize,
    pub vertices: Vec<Vector3>,
}

/// The offset that a full array holds for `vertex` before anything is copied:
/// the shape's offset for it with the first component's sign flipped, or zero
/// for a vertex that the shape does not name.
pub open spec fn converted_offset(shape: BlendShape, vertex: int) -> Vector3 {
    match last_entry(shape.indices@, vertex) {
        Some(entry) => shape.offset(entry).mirrored(),
        None => Vector3::zero(),
    }
}

/// The full array before anything is copied.
pub open spec fn scattered(shape: BlendShape, vertex_count: nat) -> Seq<Vector3> {
    Seq::new(vertex_count, |vertex: int| converted_offset(shape, vertex))
}

/// `base` with every slot from `head` on replaced by the slot of the first
/// vertex before `head` that shares its position in `mesh`, where there is one.
pub open spec fn filled(base: Seq<Vector3>, head: int, mesh: Seq<Vector3>) -> Seq<Vector3> {
    Seq::new(
        base.len(),
        |slot: int|
            if head <= slot {
                match first_match(mesh.subrange(0, head), mesh[slot]) {
                    Some(source) => base[source],
                    None => base[slot],
                }
            } else {
                base[slot]
            },
    )
}

/// The vertex before the cutoff whose offset `vertex` takes over: the first
/// one that shares its position.
pub open spec fn source_of(shape: BlendShape, mesh: Seq<Vector3>, vertex: int) -> Option<int> {
    first_match(mesh.subrange(0, shape.cutoff() + 1), mesh[vertex])
}

/// The full array of a shape over a mesh.
pub open spec fn full_array(shape: BlendShape, mesh: Seq<Vector3>) -> Seq<Vector3> {
    filled(scattered(shape, mesh.len()), shape.cutoff() + 1, mesh)
}

/// A full array has one slot for every vertex of the mesh.
pub proof fn lemma_full_array_length(shape: BlendShape, mesh: Seq<Vector3>)
    ensures
        full_array(shape, mesh).len() == mesh.len(),
{
}

/// The sign of an offset's first component is flipped once on its way into
/// the full array: the slot of a vertex up to the cutoff holds the offset
/// stored for it with that one sign bit changed and every other bit as stored.
/// Flipping the slot's sign again would give the stored offset back.
pub proof fn lemma_sign_flipped_once(shape: BlendShape, mesh: Seq<Vector3>, entry: int)
    requires
        0 <= entry < shape.indices.len(),
        0 <= shape.indices[entry] <= shape.cutoff() < mesh.len(),
        last_entry(shape.indices@, shape.indices[entry] as int) == Some(entry),
    ensures
        full_array(shape, mesh)[shape.indices[entry] as int] == shape.offset(entry).mirrored(),
        full_array(shape, mesh)[shape.indices[entry] as int].x == shape.offset(entry).x.negated(),
        full_array(shape, mesh)[shape.indices[entry] as int].x.bits != shape.offset(entry).x.bits,
        full_array(shape, mesh)[shape.indices[entry] as int].x.negated() == shape.offset(entry).x,
        full_array(shape, mesh)[shape.indices[entry] as int].y == shape.offset(entry).y,
        full_array(shape, mesh)[shape.indices[entry] as int].z == shape.offset(entry).z,
{
    lemma_negated_twice(shape.offset(entry).x);
    lemma_negated_keeps_magnitude(shape.offset(entry).x);
}

/// A vertex beyond the cutoff that has a source holds the source's slot bit
/// for bit: what was converted for the source is copied, not converted again.
pub proof fn lemma_copied_unchanged(shape: BlendShape, mesh: Seq<Vector3>, vertex: int)
    requires
        0 <= shape.cutoff() < vertex < mesh.len() <= i64::MAX,
        source_of(shape, mesh, vertex) is Some,
    ensures
        0 <= source_of(shape, mesh, vertex)->0 <= shape.cutoff(),
        mesh[source_of(shape, mesh, vertex)->0].same_position(mesh[vertex]),
        full_array(shape, mesh)[vertex] == full_array(shape, mesh)[source_of(shape, mesh, vertex)->0],
        full_array(shape, mesh)[vertex] == converted_offset(
            shape,
            source_of(shape, mesh, vertex)->0,
        ),
{
    lemma_first_match(mesh.subrange(0, shape.cutoff() + 1), mesh[vertex]);
}

/// A vertex beyond the cutoff that has no source keeps its own slot, and that
/// slot is zero where the shape names no vertex beyond its cutoff.
pub proof fn lemma_unmatched_stays(shape: BlendShape, mesh: Seq<Vector3>, vertex: int)
    requires
        0 <= shape.cutoff() < vertex < mesh.len(),
        source_of(shape, mesh, vertex) is None,
    ensures
        full_array(shape, mesh)[vertex] == converted_offset(shape, vertex),
        (forall|entry: int|
            0 <= entry < shape.indices.len() ==> shape.indices[entry] <= shape.cutoff())
            ==> full_array(shape, mesh)[vertex] == Vector3::zero(),
{
    lemma_last_entry(shape.indices@, vertex);
}

/// Whether `matching` has an entry for every slot from `head` up to `len`,
/// keyed by the slot's distance from `head`, and names only slots before `head`.
pub open spec fn covers_tail(matching: Map<i64, Vec<i64>>, head: int, len: int) -> bool {
    forall|key: i64|
        0 <= key < len - head ==> {
            &&& #[trigger] matching.contains_key(key)
            &&& matching[key]@.len() > 0 ==> 0 <= matching[key]@[0] < head
        }
}

/// `base` with every slot from `head` on replaced by the slot that `matching`
/// lists first for it, where it lists any.
pub open spec fn filled_from(base: Seq<Vector3>, head: int, matching: Map<i64, Vec<i64>>) -> Seq<
    Vector3,
> {
    Seq::new(
        base.len(),
        |slot: int|
            if head <= slot && matching[(slot - head) as i64]@.len() > 0 {
                base[matching[(slot - head) as i64]@[0] as int]
            } else {
                base[slot]
            },
    )
}

/// Filling from the record of a scan of a mesh's head for its tail is
/// filling from the mesh itself.
pub proof fn lemma_filled_from_scan(
    base: Seq<Vector3>,
    head: int,
    mesh: Seq<Vector3>,
    matching: Map<i64, Vec<i64>>,
)
    requires
        0 <= head <= mesh.len() <= i64::MAX,
        base.len() == mesh.len(),
        records_scan(matching, mesh.subrange(0, head), mesh.subrange(head, mesh.len() as int)),
    ensures
        covers_tail(matching, head, mesh.len() as int),
        filled_from(base, head, matching) == filled(base, head, mesh),
{
    let front = mesh.subrange(0, head);
    let back = mesh.subrange(head, mesh.len() as int);
    assert forall|key: i64| 0 <= key < mesh.len() - head implies {
        &&& #[trigger] matching.contains_key(key)
        &&& matching[key]@.len() > 0 ==> 0 <= matching[key]@[0] < head
    } by {
        lemma_matching_indices(front, back[key as int]);
    }
}

/// Whether `record` is the full-array record of `shape` over `mesh`, named
/// after the mesh and `new_shape_name`.
pub open spec fn is_full_array_of(
    record: ExchangeShapeReference,
    shape: BlendShape,
    mesh: SkinnedMeshRenderer,
    new_shape_name: Seq<char>,
) -> bool {
    &&& record.name@ == mesh_key(mesh.name@) + "__"@ + new_shape_name
    &&& record.cutoff == shape.cutoff() + 1
    &&& record.vertices@.len() == mesh.vertices@.len()
    &&& record.vertices@ == full_array(shape, mesh.vertices@)
}

/// `count` zero vectors.
fn zeros(count: usize) -> (r: Vec<Vector3>)
    ensures
        r.len() == count,
        forall|slot: int| 0 <= slot < count ==> r@[slot] == Vector3::zero(),
{
    let mut r: Vec<Vector3> = Vec::with_capacity(count);
    let mut slot: usize = 0;
    while slot < count
        invariant
            slot <= count,
            r.len() == slot,
            forall|k: int| 0 <= k < slot ==> r@[k] == Vector3::zero(),
        decreases count - slot,
    {
        r.push(Vector3::default());
        slot += 1;
    }
    r
}

impl ExchangeShapeReference {
    /// Writes every offset of `blendshape` to the slot of its vertex, with the
    /// first component's sign flipped, in an array of `vertex_count` zeros.
    pub fn new(name: String, blendshape: &BlendShape, vertex_count: usize) -> (r:
        ExchangeShapeReference)
        requires
            blendshape.is_well_formed(),
            blendshape.fits(vertex_count as int),
        ensures
            r.name == name,
            r.cutoff == blendshape.cutoff() + 1,
            r.vertices@ == scattered(*blendshape, vertex_count as nat),
    {
        let mut vertices = zeros(vertex_count);
        let count: usize = blendshape.indices.len();
        let mut i: usize = 0;
        while i < count
            invariant
                i <= count == blendshape.indices.len(),
                blendshape.is_well_formed(),
                blendshape.fits(vertex_count as int),
                vertices.len() == vertex_count,
                forall|vertex: int|
                    0 <= vertex < vertex_count ==> #[trigger] vertices@[vertex] == (match last_entry(
                        blendshape.indices@.subrange(0, i as int),
                        vertex,
                    ) {
                        Some(entry) => blendshape.offset(entry).mirrored(),
                        None => Vector3::zero(),
                    }),
            decreases count - i,
        {
            let start: usize = i * 3;
            let index: usize = blendshape.indices[i] as usize;
            proof {
                assert(blendshape.indices@.subrange(0, i + 1).drop_last()
                    =~= blendshape.indices@.subrange(0, i as int));
            }
            vertices[index].update(
                blendshape.vertices[start].negate(),
                blendshape.vertices[start + 1],
                blendshape.vertices[start + 2],
            );
            i += 1;
        }
        proof {
            assert(blendshape.indices@.subrange(0, count as int) =~= blendshape.indices@);
        }
        let cutoff: usize = blendshape.indices[count - 1] as usize + 1;
        ExchangeShapeReference { name, cutoff, vertices }
    }

    /// Gives every slot from the cutoff on the offset of the slot that
    /// `matching` lists first for it, copied as it stands. A slot for which
    /// nothing is listed keeps what it holds.
    pub fn propagate(&mut self, matching: &HashMap<i64, Vec<i64>>)
        requires
            old(self).cutoff <= old(self).vertices.len() <= i64::MAX,
            covers_tail(matching@, old(self).cutoff as int, old(self).vertices.len() as int),
        ensures
            final(self).name == old(self).name,
            final(self).cutoff == old(self).cutoff,
            final(self).vertices@ == filled_from(
                old(self).vertices@,
                old(self).cutoff as int,
                matching@,
            ),
    {
        let ghost base = self.vertices@;
        let head: usize = self.cutoff;
        let tail: usize = self.vertices.len() - head;
        let mut key: usize = 0;
        while key < tail
            invariant
                key <= tail,
                head + tail == base.len() <= i64::MAX,
                self.cutoff == head,
                self.name == old(self).name,
                self.vertices.len() == base.len(),
                covers_tail(matching@, head as int, base.len() as int),
                forall|slot: int|
                    0 <= slot < head + key ==> #[trigger] self.vertices@[slot] == filled_from(
                        base,
                        head as int,
                        matching@,
                    )[slot],
                forall|slot: int|
                    head + key <= slot < base.len() ==> #[trigger] self.vertices@[slot] == base[slot],
            decreases tail - key,
        {
            match matching.get(&(key as i64)) {
                Some(value) => {
                    if value.len() > 0 {
                        let first: Vector3 = self.vertices[value[0] as usize];
                        self.vertices[key + head].update(first.x, first.y, first.z);
                    }
                },
                None => {},
            }
            key += 1;
        }
    }
}

/// Makes one shape dense in full-array form.
///
/// The shape is paired with its mesh by name. The record then has one slot
/// for every vertex of that mesh: the shape's converted offsets at its own
/// indices, and from the cutoff on the offset of each vertex's first match
/// before the cutoff. A vertex beyond the cutoff without a match keeps its
/// slot as it is, which is zero unless the shape names that vertex.
pub fn reconstruct_full_array(
    shape: &BlendShape,
    meshes: &Vec<SkinnedMeshRenderer>,
    new_shape_name: &str,
) -> (r: Result<ExchangeShapeReference, Error>)
    ensures
        match r {
            Ok(record) => {
                &&& obstacle(*shape, meshes@) is None
                &&& is_full_array_of(
                    record,
                    *shape,
                    meshes@[related_mesh(shape.name@, meshes@)->0],
                    new_shape_name@,
                )
            },
            Err(e) => obstacle(*shape, meshes@) == Some(e),
        },
{
    let position: usize = match pair(shape, meshes) {
        Ok(position) => position,
        Err(e) => {
            return Err(e);
        },
    };
    let related_geometry: &SkinnedMeshRenderer = &meshes[position];
    let vertex_count: usize = related_geometry.vertices.len();
    let key = related_geometry.key();
    let name = join_names(key.as_str(), new_shape_name);
    let mut new_shape = ExchangeShapeReference::new(name, shape, vertex_count);
    let head: usize = new_shape.cutoff;
    let all = related_geometry.vertices.as_slice();
    let matching = find_matching_indices(
        slice_subrange(all, 0, head),
        slice_subrange(all, head, vertex_count),
    );
    proof {
        lemma_filled_from_scan(
            new_shape.vertices@,
            head as int,
            related_geometry.vertices@,
            matching@,
        );
    }
    new_shape.propagate(&matching);
    Ok(new_shape)
}

} // verus!
