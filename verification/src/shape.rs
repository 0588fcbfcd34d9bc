//! Sparse blendshapes and their decoding from a node.

use vstd::prelude::*;
use vstd::slice::slice_to_vec;
use crate::document::lengthen;
use crate::document::Node;
use crate::document::Property;
use crate::error::Error;
use crate::scalar::Scalar;
use crate::text::remove_all;
use crate::text::replace_first;
use crate::text::with_first_replaced;
use crate::text::without;
use crate::vector::Vector3;
use crate::widening::widen_all;

verus! {

/// The token that the document's writer attaches to a geometry's name.
pub const CONTROL_TOKEN: &'static str = "\0\u{1}Geometry";

/// A morph target as its node stores it: offsets for some of a mesh's vertices.
///
/// `indices` names the vertices, `vertices` holds three offset components for
/// each index in the same order, and `normals`, where the node has them,
/// holds normal components in the same layout.
#[derive(Debug, Default)]
pub struct BlendShape {
    pub id: i64,
    pub name: String,
    pub indices: Vec<i64>,
    pub vertices: Vec<Scalar>,
    pub normals: Option<Vec<Scalar>>,
}

/// The shapes of one document, in the order of their nodes.
#[derive(Debug, Default)]
pub struct BlendShapes {
    pub blendshapes: Vec<BlendShape>,
}

/// The name a shape gets from its node's name property: the control token is
/// taken out wherever it stands, then the first `old` is exchanged for `new`.
pub open spec fn decoded_name(raw: Seq<char>, old: Seq<char>, new: Seq<char>) -> Seq<char> {
    with_first_replaced(without(raw, CONTROL_TOKEN@), old, new)
}

/// The normals of a node: those of its fourth child, where it has four.
pub open spec fn decoded_normals(node: Node) -> Option<Seq<Scalar>> {
    if node.children.len() >= 4 {
        Some(node.scalar_record(3))
    } else {
        None
    }
}

/// Whether a node can be decoded: its first property is a 64-bit integer and
/// its second a string.
pub open spec fn is_decodable(node: Node) -> bool {
    &&& node.spec_property(0) matches Some(first) && first.integer() is Some
    &&& node.spec_property(1) matches Some(second) && second.text() is Some
}

/// The place of the last index equal to `vertex`, where there is one. Where a
/// vertex is named more than once, its last entry is the one that counts.
pub open spec fn last_entry(indices: Seq<i64>, vertex: int) -> Option<int>
    decreases indices.len(),
{
    if indices.len() == 0 {
        None
    } else if indices.last() == vertex {
        Some(indices.len() - 1)
    } else {
        last_entry(indices.drop_last(), vertex)
    }
}

/// What `last_entry` finds: a place that holds `vertex` with no such place
/// behind it, or nothing where no place holds it.
pub proof fn lemma_last_entry(indices: Seq<i64>, vertex: int)
    ensures
        match last_entry(indices, vertex) {
            Some(entry) => {
                &&& 0 <= entry < indices.len()
                &&& indices[entry] == vertex
                &&& forall|later: int| entry < later < indices.len() ==> indices[later] != vertex
            },
            None => forall|entry: int| 0 <= entry < indices.len() ==> indices[entry] != vertex,
        },
    decreases indices.len(),
{
    if indices.len() > 0 && indices.last() != vertex {
        let shorter = indices.drop_last();
        lemma_last_entry(shorter, vertex);
        match last_entry(shorter, vertex) {
            Some(entry) => {
                assert forall|later: int| entry < later < indices.len() implies indices[later]
                    != vertex by {
                    if later < shorter.len() {
                        assert(indices[later] == shorter[later]);
                    }
                }
            },
            None => {
                assert forall|entry: int| 0 <= entry < indices.len() implies indices[entry]
                    != vertex by {
                    if entry < shorter.len() {
                        assert(indices[entry] == shorter[entry]);
                    }
                }
            },
        }
    }
}

impl BlendShape {
    /// Whether the offsets come three to an index.
    pub open spec fn is_aligned(self) -> bool {
        self.indices.len() * 3 == self.vertices.len()
    }

    /// Whether the shape has the form of a sparse shape: at least one index,
    /// no negative index, and offsets three to an index.
    pub open spec fn is_well_formed(self) -> bool {
        &&& self.indices.len() > 0
        &&& self.is_aligned()
        &&& forall|entry: int| 0 <= entry < self.indices.len() ==> self.indices[entry] >= 0
    }

    /// Whether a mesh of `vertex_count` vertices has a vertex for every index.
    pub open spec fn fits(self, vertex_count: int) -> bool {
        forall|entry: int| 0 <= entry < self.indices.len() ==> self.indices[entry] < vertex_count
    }

    /// The cutoff: the last index of the shape. Vertices behind it exist in
    /// the dense mesh without an entry in the shape.
    pub open spec fn cutoff(self) -> int {
        self.indices@.last() as int
    }

    /// The offset stored at `entry`.
    pub open spec fn offset(self, entry: int) -> Vector3 {
        Vector3 {
            x: self.vertices[3 * entry],
            y: self.vertices[3 * entry + 1],
            z: self.vertices[3 * entry + 2],
        }
    }

    /// The offset that the shape gives to `vertex`: the one stored with its
    /// index, or none at all for a vertex that the shape does not move.
    pub open spec fn offset_of(self, vertex: int) -> Vector3 {
        match last_entry(self.indices@, vertex) {
            Some(entry) => self.offset(entry),
            None => Vector3::zero(),
        }
    }

    /// The normals as a sequence, where the shape has them.
    pub open spec fn normals_view(self) -> Option<Seq<Scalar>> {
        match self.normals {
            Some(values) => Some(values@),
            None => None,
        }
    }

    /// Whether the shape is what decoding `node` gives, with `old` renamed to `new`.
    pub open spec fn is_decoded_from(self, node: Node, old: Seq<char>, new: Seq<char>) -> bool {
        &&& is_decodable(node)
        &&& Some(self.id) == node.properties[0].integer()
        &&& self.name@ == decoded_name(node.properties[1].text()->0, old, new)
        &&& self.indices@ == node.integer_record(1)
        &&& self.vertices@ == node.scalar_record(2)
        &&& self.normals_view() == decoded_normals(node)
    }

    /// Decodes one node.
    ///
    /// Succeeds exactly on a decodable node. The index and offset arrays come
    /// from the second and third child and the normals from the fourth; an
    /// array that is missing or of another type is read as empty.
    pub fn new(input_node: &Node, old_shape_name: &str, new_shape_name: &str) -> (r: Result<
        BlendShape,
        Error,
    >)
        ensures
            match r {
                Ok(shape) => shape.is_decoded_from(
                    *input_node,
                    old_shape_name@,
                    new_shape_name@,
                ),
                Err(e) => e == Error::SchemaMismatch && !is_decodable(*input_node),
            },
    {
        let id: i64 = match input_node.property(0) {
            Some(property) => match Self::extract_i64(property) {
                Some(id) => id,
                None => {
                    return Err(Error::SchemaMismatch);
                },
            },
            None => {
                return Err(Error::SchemaMismatch);
            },
        };
        let raw_name: String = match input_node.property(1) {
            Some(property) => match Self::extract_string(property) {
                Some(name) => name,
                None => {
                    return Err(Error::SchemaMismatch);
                },
            },
            None => {
                return Err(Error::SchemaMismatch);
            },
        };
        let bare_name = remove_all(raw_name.as_str(), CONTROL_TOKEN);
        let name = replace_first(bare_name.as_str(), old_shape_name, new_shape_name);
        let indices: Vec<i64> = Self::integer_record(input_node, 1);
        let vertices: Vec<Scalar> = Self::scalar_record(input_node, 2);
        let normals: Option<Vec<Scalar>> = if input_node.children.len() >= 4 {
            Some(Self::scalar_record(input_node, 3))
        } else {
            None
        };
        Ok(BlendShape { id, name, indices, vertices, normals })
    }

    fn integer_record(node: &Node, position: usize) -> (r: Vec<i64>)
        ensures
            r@ == node.integer_record(position as int),
    {
        match node.first_property_of_child(position) {
            Some(property) => match Self::extract_i64_array(property) {
                Some(values) => values,
                None => Vec::new(),
            },
            None => Vec::new(),
        }
    }

    fn scalar_record(node: &Node, position: usize) -> (r: Vec<Scalar>)
        ensures
            r@ == node.scalar_record(position as int),
    {
        match node.first_property_of_child(position) {
            Some(property) => match Self::extract_f64_array(property) {
                Some(values) => values,
                None => Vec::new(),
            },
            None => Vec::new(),
        }
    }

    /// The text of a string property.
    pub fn extract_string(prop: &Property) -> (r: Option<String>)
        ensures
            match r {
                Some(value) => prop.text() == Some(value@),
                None => prop.text() is None,
            },
    {
        match prop {
            Property::String(value) => Some(value.clone()),
            _ => None,
        }
    }

    /// The number of a 64-bit integer property.
    pub fn extract_i64(prop: &Property) -> (r: Option<i64>)
        ensures
            r == prop.integer(),
    {
        match prop {
            Property::I64(value) => Some(*value),
            _ => None,
        }
    }

    /// The numbers of a floating-point array property, widened where the
    /// array is single-precision.
    pub fn extract_f64_array(prop: &Property) -> (r: Option<Vec<Scalar>>)
        ensures
            match r {
                Some(values) => prop.scalar_array() == Some(values@),
                None => prop.scalar_array() is None,
            },
    {
        match prop {
            Property::F64Array(value) => Some(slice_to_vec(value.as_slice())),
            Property::F32Array(value) => Some(widen_all(value)),
            _ => None,
        }
    }

    /// The numbers of an integer array property, lengthened where the array
    /// is 32-bit.
    pub fn extract_i64_array(prop: &Property) -> (r: Option<Vec<i64>>)
        ensures
            match r {
                Some(values) => prop.integer_array() == Some(values@),
                None => prop.integer_array() is None,
            },
    {
        match prop {
            Property::I64Array(value) => Some(slice_to_vec(value.as_slice())),
            Property::I32Array(value) => Some(lengthen(value)),
            _ => None,
        }
    }

    /// Tests whether the shape is well formed and fits a mesh of
    /// `vertex_count` vertices.
    pub fn check(&self, vertex_count: usize) -> (r: Result<(), Error>)
        ensures
            match r {
                Ok(()) => self.is_well_formed() && self.fits(vertex_count as int),
                Err(e) => if self.is_well_formed() {
                    e == Error::MalformedInput && !self.fits(vertex_count as int)
                } else {
                    e == Error::SchemaMismatch
                },
            },
    {
        let count: usize = self.indices.len();
        if count == 0 || self.vertices.len() % 3 != 0 || self.vertices.len() / 3 != count {
            return Err(Error::SchemaMismatch);
        }
        let mut fits: bool = true;
        let mut entry: usize = 0;
        while entry < count
            invariant
                entry <= count == self.indices.len(),
                forall|k: int| 0 <= k < entry ==> self.indices[k] >= 0,
                fits == forall|k: int| 0 <= k < entry ==> self.indices[k] < vertex_count,
            decreases count - entry,
        {
            let index: i64 = self.indices[entry];
            if index < 0 {
                return Err(Error::SchemaMismatch);
            }
            if index as u64 >= vertex_count as u64 {
                fits = false;
            }
            entry += 1;
        }
        if fits {
            Ok(())
        } else {
            Err(Error::MalformedInput)
        }
    }

    /// The place of the entry that holds the offset of `vertex`.
    pub fn entry_of(&self, vertex: i64) -> (r: Option<usize>)
        ensures
            match r {
                Some(entry) => last_entry(self.indices@, vertex as int) == Some(entry as int),
                None => last_entry(self.indices@, vertex as int) is None,
            },
    {
        let mut entry: usize = self.indices.len();
        proof {
            assert(self.indices@.subrange(0, entry as int) =~= self.indices@);
        }
        while entry > 0
            invariant
                entry <= self.indices.len(),
                last_entry(self.indices@, vertex as int) == last_entry(
                    self.indices@.subrange(0, entry as int),
                    vertex as int,
                ),
            decreases entry,
        {
            proof {
                assert(self.indices@.subrange(0, entry as int).drop_last()
                    =~= self.indices@.subrange(0, entry - 1));
            }
            entry -= 1;
            if self.indices[entry] == vertex {
                return Some(entry);
            }
        }
        None
    }
}

} // verus!
