//! Dense morph-target reconstruction.
//!
//! A blendshape stores offsets for a subset of a mesh's vertices, under the
//! vertex numbering of the scene it was authored in. A renderer may number the
//! same mesh differently: it keeps the welded vertices first and appends a
//! copy for every vertex it had to split. This crate decodes shapes from a
//! scene's node tree, finds for every appended vertex the welded vertices at
//! the same position, and rebuilds each shape for the whole mesh.
//!
//! The steps, leaf first:
//!
//! - [`scalar`], [`vector`] and [`widening`]: coordinates as IEEE-754 bit
//!   patterns, their exact comparison, sign change and widening;
//! - [`text`]: substring tests and rewriting on names;
//! - [`document`], [`shape`] and [`filter`]: the node tree, the decoding of
//!   one node, and the choice of the nodes that are decoded;
//! - [`mesh`] and [`pairing`]: the reference meshes, and how a shape finds
//!   and fits its own;
//! - [`correspondence`]: the scan that matches vertices by position;
//! - [`dense`] and [`append`]: the two dense forms of a shape;
//! - [`export`]: whole batches.
//!
//! No function here panics or reads anything but its arguments. Every
//! function states what it returns, and every failure when it occurs.

pub mod append;
pub mod correspondence;
pub mod dense;
pub mod document;
pub mod error;
pub mod export;
pub mod filter;
pub mod mesh;
pub mod pairing;
pub mod scalar;
pub mod shape;
pub mod text;
pub mod vector;
pub mod widening;
