//! What can go wrong for one node or one shape.

use vstd::prelude::*;

verus! {

/// Why a node was not decoded or a shape was not made dense. None of these
/// ends a batch: the node or shape is left out and the next one is taken.
#[derive(Clone, Copy, Debug, PartialEq, Eq, Structural)]
pub enum Error {
    /// A node or a shape does not have the form the schema asks for: an
    /// identifier that is no integer, a name that is no string, a shape with
    /// no index, with a negative index, or with offsets that do not come
    /// three to an index.
    SchemaMismatch,
    /// The reference mesh has no vertex at an index the shape uses, or more
    /// vertices than a 64-bit index can count.
    MalformedInput,
    /// A shape's name relates to no reference mesh, or to more than one.
    AmbiguousOrMissingMesh,
    /// A vertex beyond the cutoff shares its position with no vertex before it.
    ReconstructionGap,
}

} // verus!
