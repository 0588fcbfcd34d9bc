//! Reference meshes and how a shape finds its own.

use vstd::prelude::*;
use crate::error::Error;
use crate::text::contains;
use crate::text::contains_text;
use crate::text::remove_all;
use crate::text::without;
use crate::vector::Vector3;

verus! {

/// The token that the exporter of the reference meshes attaches to a mesh's name.
pub const SHAPE_TOKEN: &'static str = ".Shape";

/// One mesh of the reference description: its name and its vertex positions
/// in the order of the dense mesh.
#[derive(Debug, Default)]
pub struct SkinnedMeshRenderer {
    pub name: String,
    pub vertices: Vec<Vector3>,
}

/// The reference description: every mesh of the scene.
#[derive(Debug, Default)]
pub struct RendererMeshes {
    pub meshes: Vec<SkinnedMeshRenderer>,
}

/// A mesh's name without the shape token.
pub open spec fn mesh_key(mesh_name: Seq<char>) -> Seq<char> {
    without(mesh_name, SHAPE_TOKEN@)
}

/// Whether a shape of this name belongs to this mesh: the shape's name holds
/// the mesh's key.
pub open spec fn relates(shape_name: Seq<char>, mesh: SkinnedMeshRenderer) -> bool {
    contains_text(shape_name, mesh_key(mesh.name@))
}

/// Whether the mesh at `position` is the one and only mesh that a shape of
/// this name belongs to.
pub open spec fn is_only_related(
    shape_name: Seq<char>,
    meshes: Seq<SkinnedMeshRenderer>,
    position: int,
) -> bool {
    &&& 0 <= position < meshes.len()
    &&& relates(shape_name, meshes[position])
    &&& forall|other: int|
        0 <= other < meshes.len() && other != position ==> !relates(
            shape_name,
            #[trigger] meshes[other],
        )
}

/// The position of the mesh that a shape of this name belongs to, where
/// exactly one mesh qualifies.
pub open spec fn related_mesh(shape_name: Seq<char>, meshes: Seq<SkinnedMeshRenderer>) -> Option<
    int,
> {
    if exists|position: int| is_only_related(shape_name, meshes, position) {
        Some(choose|position: int| is_only_related(shape_name, meshes, position))
    } else {
        None
    }
}

/// Where one mesh is the only related one, `related_mesh` names it.
pub proof fn lemma_related_mesh(
    shape_name: Seq<char>,
    meshes: Seq<SkinnedMeshRenderer>,
    position: int,
)
    requires
        is_only_related(shape_name, meshes, position),
    ensures
        related_mesh(shape_name, meshes) == Some(position),
{
}

impl SkinnedMeshRenderer {
    /// The mesh's name without the shape token.
    pub fn key(&self) -> (r: String)
        ensures
            r@ == mesh_key(self.name@),
    {
        remove_all(self.name.as_str(), SHAPE_TOKEN)
    }

    /// Whether a shape of this name belongs to this mesh.
    pub fn is_related_to(&self, shape_name: &str) -> (r: bool)
        ensures
            r == relates(shape_name@, *self),
    {
        let key = self.key();
        contains(shape_name, key.as_str())
    }
}

/// Finds the mesh that a shape of this name belongs to.
///
/// Succeeds exactly when one mesh and no other is related to the name.
pub fn locate_mesh(shape_name: &str, meshes: &Vec<SkinnedMeshRenderer>) -> (r: Result<
    usize,
    Error,
>)
    ensures
        match r {
            Ok(position) => related_mesh(shape_name@, meshes@) == Some(position as int),
            Err(e) => e == Error::AmbiguousOrMissingMesh && related_mesh(shape_name@, meshes@)
                is None,
        },
{
    let mut found: Option<usize> = None;
    let mut position: usize = 0;
    while position < meshes.len()
        invariant
            position <= meshes.len(),
            match found {
                Some(at) => {
                    &&& at < position
                    &&& relates(shape_name@, meshes@[at as int])
                    &&& forall|other: int|
                        0 <= other < position && other != at ==> !relates(
                            shape_name@,
                            #[trigger] meshes@[other],
                        )
                },
                None => forall|other: int|
                    0 <= other < position ==> !relates(shape_name@, #[trigger] meshes@[other]),
            },
        decreases meshes.len() - position,
    {
        if meshes[position].is_related_to(shape_name) {
            match found {
                Some(_) => {
                    return Err(Error::AmbiguousOrMissingMesh);
                },
                None => {
                    found = Some(position);
                },
            }
        }
        position += 1;
    }
    match found {
        Some(at) => {
            proof {
                lemma_related_mesh(shape_name@, meshes@, at as int);
            }
            Ok(at)
        },
        None => Err(Error::AmbiguousOrMissingMesh),
    }
}

} // verus!
