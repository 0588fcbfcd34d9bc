//! Pairing a shape with the mesh it deforms.
//!
//! Before a shape is made dense it must find exactly one reference mesh by
//! name, be well formed, and name only vertices that the mesh has.

use vstd::prelude::*;
use crate::error::Error;
use crate::mesh::locate_mesh;
use crate::mesh::related_mesh;
use crate::mesh::SkinnedMeshRenderer;
use crate::shape::BlendShape;

verus! {

/// Whether a mesh of `vertex_count` vertices can carry the shape: the shape is
/// well formed, every index has its vertex, and every position in the mesh
/// can be written as a 64-bit index.
pub open spec fn carries(shape: BlendShape, vertex_count: int) -> bool {
    &&& shape.is_well_formed()
    &&& shape.fits(vertex_count)
    &&& vertex_count <= i64::MAX
}

/// Why a mesh of `vertex_count` vertices cannot carry the shape, if it
/// cannot. The shape's own form is tested first, then its fit.
pub open spec fn misfit(shape: BlendShape, vertex_count: int) -> Option<Error> {
    if !shape.is_well_formed() {
        Some(Error::SchemaMismatch)
    } else if !carries(shape, vertex_count) {
        Some(Error::MalformedInput)
    } else {
        None
    }
}

/// What keeps a shape from being made dense, if anything does. The mesh is
/// looked for first, then the shape is held against it.
pub open spec fn obstacle(shape: BlendShape, meshes: Seq<SkinnedMeshRenderer>) -> Option<Error> {
    match related_mesh(shape.name@, meshes) {
        None => Some(Error::AmbiguousOrMissingMesh),
        Some(position) => misfit(shape, meshes[position].vertices.len() as int),
    }
}

/// Tests that a mesh of `vertex_count` vertices carries the shape.
pub fn fit(shape: &BlendShape, vertex_count: usize) -> (r: Result<(), Error>)
    ensures
        match r {
            Ok(()) => carries(*shape, vertex_count as int),
            Err(e) => misfit(*shape, vertex_count as int) == Some(e),
        },
{
    match shape.check(vertex_count) {
        Ok(()) => {},
        Err(e) => {
            return Err(e);
        },
    }
    if vertex_count as u64 > i64::MAX as u64 {
        return Err(Error::MalformedInput);
    }
    Ok(())
}

/// Finds the mesh of a shape and tests that it carries the shape.
pub fn pair(shape: &BlendShape, meshes: &Vec<SkinnedMeshRenderer>) -> (r: Result<usize, Error>)
    ensures
        match r {
            Ok(position) => {
                &&& obstacle(*shape, meshes@) is None
                &&& related_mesh(shape.name@, meshes@) == Some(position as int)
                &&& position < meshes.len()
                &&& carries(*shape, meshes@[position as int].vertices.len() as int)
            },
            Err(e) => obstacle(*shape, meshes@) == Some(e),
        },
{
    let position: usize = match locate_mesh(shape.name.as_str(), meshes) {
        Ok(position) => position,
        Err(e) => {
            return Err(e);
        },
    };
    match fit(shape, meshes[position].vertices.len()) {
        Ok(()) => Ok(position),
        Err(e) => Err(e),
    }
}

} // verus!
