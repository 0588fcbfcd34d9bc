//! Choosing the nodes that are decoded.
//!
//! A node is chosen when it is of the geometry kind and its name property
//! holds the target text and none of the excluded texts. The tests are plain
//! case-sensitive substring tests.

use vstd::prelude::*;
use vstd::string::StringExecFns;
use crate::document::Document;
use crate::document::Node;
use crate::document::Property;
use crate::error::Error;
use crate::shape::is_decodable;
use crate::shape::BlendShape;
use crate::shape::BlendShapes;
use crate::text::contains;
use crate::text::contains_text;

verus! {

/// The name of the nodes that hold geometry.
pub const GEOMETRY_KIND: &'static str = "Geometry";

/// A test on names: one text that must occur and texts that must not.
#[derive(Debug)]
pub struct NameFilter {
    pub target: String,
    pub excluded: Vec<String>,
}

/// The shapes decoded from a list of nodes, in the nodes' order, and the
/// positions of the chosen nodes that could not be decoded.
#[derive(Debug)]
pub struct Extraction {
    pub blendshapes: BlendShapes,
    pub rejected: Vec<usize>,
}

/// Whether `filter` chooses `node`.
pub open spec fn is_selected(node: Node, filter: NameFilter) -> bool {
    &&& node.name@ == GEOMETRY_KIND@
    &&& node.spec_property(1) matches Some(property) && property.text() matches Some(name)
        && filter.admits(name)
}

/// Whether `shapes` and `rejected` are what extracting from `nodes` gives:
/// going through the nodes in order, every chosen node that can be decoded
/// adds its shape, and every chosen node that cannot adds its position.
pub open spec fn is_extraction(
    shapes: Seq<BlendShape>,
    rejected: Seq<usize>,
    nodes: Seq<Node>,
    filter: NameFilter,
    old: Seq<char>,
    new: Seq<char>,
) -> bool
    decreases nodes.len(),
{
    if nodes.len() == 0 {
        shapes.len() == 0 && rejected.len() == 0
    } else if !is_selected(nodes.last(), filter) {
        is_extraction(shapes, rejected, nodes.drop_last(), filter, old, new)
    } else if is_decodable(nodes.last()) {
        &&& shapes.len() > 0
        &&& shapes.last().is_decoded_from(nodes.last(), old, new)
        &&& is_extraction(shapes.drop_last(), rejected, nodes.drop_last(), filter, old, new)
    } else {
        &&& rejected.len() > 0
        &&& rejected.last() == nodes.len() - 1
        &&& is_extraction(shapes, rejected.drop_last(), nodes.drop_last(), filter, old, new)
    }
}

impl NameFilter {
    /// Whether the filter lets a name pass.
    pub open spec fn admits(self, name: Seq<char>) -> bool {
        &&& contains_text(name, self.target@)
        &&& forall|k: int|
            0 <= k < self.excluded.len() ==> !contains_text(name, #[trigger] self.excluded[k]@)
    }

    /// Whether the filter is the one for the plain variants of `target`: it
    /// excludes the corrective, tear, mouth, eyelash and eye variants.
    pub open spec fn is_plain_variants_of(self, target: Seq<char>) -> bool {
        &&& self.target@ == target
        &&& self.excluded.len() == 5
        &&& self.excluded[0]@ == "cbs"@
        &&& self.excluded[1]@ == "Tear"@
        &&& self.excluded[2]@ == "Mouth"@
        &&& self.excluded[3]@ == "Eyelashes"@
        &&& self.excluded[4]@ == "Eyes"@
    }

    pub fn new(target: &str, excluded: Vec<String>) -> (r: NameFilter)
        ensures
            r.target@ == target@,
            r.excluded == excluded,
    {
        NameFilter { target: String::from_str(target), excluded }
    }

    /// The filter for the plain variants of `target`.
    pub fn plain_variants(target: &str) -> (r: NameFilter)
        ensures
            r.is_plain_variants_of(target@),
    {
        let mut excluded: Vec<String> = Vec::new();
        excluded.push(String::from_str("cbs"));
        excluded.push(String::from_str("Tear"));
        excluded.push(String::from_str("Mouth"));
        excluded.push(String::from_str("Eyelashes"));
        excluded.push(String::from_str("Eyes"));
        NameFilter { target: String::from_str(target), excluded }
    }

    /// Tests a name.
    pub fn accepts(&self, name: &str) -> (r: bool)
        ensures
            r == self.admits(name@),
    {
        if !contains(name, self.target.as_str()) {
            return false;
        }
        let mut k: usize = 0;
        while k < self.excluded.len()
            invariant
                k <= self.excluded.len(),
                forall|l: int| 0 <= l < k ==> !contains_text(name@, #[trigger] self.excluded[l]@),
            decreases self.excluded.len() - k,
        {
            if contains(name, self.excluded[k].as_str()) {
                return false;
            }
            k += 1;
        }
        true
    }

    /// Tests a node.
    pub fn selects(&self, node: &Node) -> (r: bool)
        ensures
            r == is_selected(*node, *self),
    {
        let kind = String::from_str(GEOMETRY_KIND);
        if !(node.name == kind) {
            return false;
        }
        match node.property(1) {
            Some(property) => match property {
                Property::String(name) => self.accepts(name.as_str()),
                _ => false,
            },
            None => false,
        }
    }
}

/// A name that holds an excluded text does not pass, whatever else it holds.
pub proof fn lemma_excluded_text_rejects(filter: NameFilter, name: Seq<char>, k: int)
    requires
        0 <= k < filter.excluded.len(),
        contains_text(name, filter.excluded[k]@),
    ensures
        !filter.admits(name),
{
}

/// Decodes every node that `filter` chooses.
///
/// A chosen node that cannot be decoded does not end the run: its position is
/// noted and the next node is taken.
pub fn extract_blendshapes(
    nodes: &Vec<Node>,
    filter: &NameFilter,
    old_shape_name: &str,
    new_shape_name: &str,
) -> (r: Extraction)
    ensures
        is_extraction(
            r.blendshapes.blendshapes@,
            r.rejected@,
            nodes@,
            *filter,
            old_shape_name@,
            new_shape_name@,
        ),
{
    let mut new_blendshapes: Vec<BlendShape> = Vec::new();
    let mut rejected: Vec<usize> = Vec::new();
    let mut position: usize = 0;
    while position < nodes.len()
        invariant
            position <= nodes.len(),
            is_extraction(
                new_blendshapes@,
                rejected@,
                nodes@.subrange(0, position as int),
                *filter,
                old_shape_name@,
                new_shape_name@,
            ),
        decreases nodes.len() - position,
    {
        let ghost shapes_before = new_blendshapes@;
        let ghost rejected_before = rejected@;
        proof {
            let longer = nodes@.subrange(0, position + 1);
            assert(longer.drop_last() =~= nodes@.subrange(0, position as int));
        }
        if filter.selects(&nodes[position]) {
            match BlendShape::new(&nodes[position], old_shape_name, new_shape_name) {
                Ok(shape) => {
                    new_blendshapes.push(shape);
                    proof {
                        assert(new_blendshapes@.drop_last() =~= shapes_before);
                    }
                },
                Err(e) => {
                    rejected.push(position);
                    proof {
                        assert(rejected@.drop_last() =~= rejected_before);
                    }
                },
            }
        }
        position += 1;
    }
    proof {
        assert(nodes@.subrange(0, position as int) =~= nodes@);
    }
    Extraction { blendshapes: BlendShapes { blendshapes: new_blendshapes }, rejected }
}

/// Decodes the plain variants of `old_shape_name` from the geometry records
/// of a document, renaming them to `new_shape_name`.
///
/// Fails only where the document has no geometry records.
pub fn extract(document: &Document, old_shape_name: &str, new_shape_name: &str) -> (r: Result<
    Extraction,
    Error,
>)
    ensures
        match r {
            Ok(extraction) => document.spec_geometry_records() matches Some(nodes) && exists|
                filter: NameFilter,
            |
                filter.is_plain_variants_of(old_shape_name@) && is_extraction(
                    extraction.blendshapes.blendshapes@,
                    extraction.rejected@,
                    nodes,
                    filter,
                    old_shape_name@,
                    new_shape_name@,
                ),
            Err(e) => e == Error::SchemaMismatch && document.spec_geometry_records() is None,
        },
{
    let nodes = match document.geometry_records() {
        Ok(nodes) => nodes,
        Err(e) => {
            return Err(e);
        },
    };
    let filter = NameFilter::plain_variants(old_shape_name);
    let extraction = extract_blendshapes(nodes, &filter, old_shape_name, new_shape_name);
    Ok(extraction)
}

} // verus!
