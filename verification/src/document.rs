//! The node tree that shapes are decoded from.
//!
//! A document is a tree of named nodes. Each node carries an ordered list of
//! typed properties and an ordered list of child nodes. Nothing is read by
//! position without a check: every accessor says what it returns when the
//! position is empty or holds another type.

use vstd::prelude::*;
use crate::error::Error;
use crate::scalar::Scalar;
use crate::widening::widened_all;

verus! {

/// One typed value of a node. Floating-point payloads are carried as bit
/// patterns: binary32 in `F32` and `F32Array`, binary64 in `F64` and `F64Array`.
#[derive(Debug)]
pub enum Property {
    Bool(bool),
    I16(i16),
    I32(i32),
    I64(i64),
    F32(u32),
    F64(Scalar),
    BoolArray(Vec<bool>),
    I32Array(Vec<i32>),
    I64Array(Vec<i64>),
    F32Array(Vec<u32>),
    F64Array(Vec<Scalar>),
    String(String),
    Bytes(Vec<u8>),
}

/// A named node with its properties and children.
#[derive(Debug)]
pub struct Node {
    pub name: String,
    pub properties: Vec<Property>,
    pub children: Vec<Node>,
}

/// A whole document: its top-level nodes in order.
#[derive(Debug)]
pub struct Document {
    pub children: Vec<Node>,
}

/// The place among a document's top-level nodes of the node whose children
/// are the scene's geometry records.
pub const OBJECTS_POSITION: usize = 8;

/// 32-bit integers as 64-bit integers of the same value.
pub open spec fn lengthened(values: Seq<i32>) -> Seq<i64> {
    Seq::new(values.len(), |i: int| values[i] as i64)
}

impl Property {
    /// The text a property holds, if it is a string.
    pub open spec fn text(self) -> Option<Seq<char>> {
        match self {
            Property::String(value) => Some(value@),
            _ => None,
        }
    }

    /// The number a property holds, if it is a 64-bit integer.
    pub open spec fn integer(self) -> Option<i64> {
        match self {
            Property::I64(value) => Some(value),
            _ => None,
        }
    }

    /// The integers a property holds, if it is an array of 64-bit integers or
    /// of 32-bit integers; the latter keep their values.
    pub open spec fn integer_array(self) -> Option<Seq<i64>> {
        match self {
            Property::I64Array(values) => Some(values@),
            Property::I32Array(values) => Some(lengthened(values@)),
            _ => None,
        }
    }

    /// The numbers a property holds, if it is an array of double-precision or
    /// of single-precision numbers; the latter are widened.
    pub open spec fn scalar_array(self) -> Option<Seq<Scalar>> {
        match self {
            Property::F64Array(values) => Some(values@),
            Property::F32Array(values) => Some(widened_all(values@)),
            _ => None,
        }
    }
}

impl Node {
    /// The property at `position`, if the node has that many.
    pub open spec fn spec_property(self, position: int) -> Option<Property> {
        if 0 <= position < self.properties.len() {
            Some(self.properties[position])
        } else {
            None
        }
    }

    /// The child at `position`, if the node has that many.
    pub open spec fn spec_child(self, position: int) -> Option<Node> {
        if 0 <= position < self.children.len() {
            Some(self.children[position])
        } else {
            None
        }
    }

    /// The first property of the child at `position`, if both are there.
    pub open spec fn record(self, position: int) -> Option<Property> {
        match self.spec_child(position) {
            Some(child) => child.spec_property(0),
            None => None,
        }
    }

    /// The integers recorded by the child at `position`; none where the child,
    /// its first property or the right type is missing.
    pub open spec fn integer_record(self, position: int) -> Seq<i64> {
        match self.record(position) {
            Some(property) => match property.integer_array() {
                Some(values) => values,
                None => Seq::empty(),
            },
            None => Seq::empty(),
        }
    }

    /// The numbers recorded by the child at `position`; none where the child,
    /// its first property or the right type is missing.
    pub open spec fn scalar_record(self, position: int) -> Seq<Scalar> {
        match self.record(position) {
            Some(property) => match property.scalar_array() {
                Some(values) => values,
                None => Seq::empty(),
            },
            None => Seq::empty(),
        }
    }

    pub fn property(&self, position: usize) -> (r: Option<&Property>)
        ensures
            match r {
                Some(property) => self.spec_property(position as int) == Some(*property),
                None => self.spec_property(position as int) is None,
            },
    {
        if position < self.properties.len() {
            Some(&self.properties[position])
        } else {
            None
        }
    }

    pub fn child(&self, position: usize) -> (r: Option<&Node>)
        ensures
            match r {
                Some(child) => self.spec_child(position as int) == Some(*child),
                None => self.spec_child(position as int) is None,
            },
    {
        if position < self.children.len() {
            Some(&self.children[position])
        } else {
            None
        }
    }

    /// The first property of the child at `position`.
    pub fn first_property_of_child(&self, position: usize) -> (r: Option<&Property>)
        ensures
            match r {
                Some(property) => self.record(position as int) == Some(*property),
                None => self.record(position as int) is None,
            },
    {
        match self.child(position) {
            Some(child) => child.property(0),
            None => None,
        }
    }
}

impl Document {
    /// The geometry records of the document, where it has the node that holds them.
    pub open spec fn spec_geometry_records(self) -> Option<Seq<Node>> {
        if self.children.len() > OBJECTS_POSITION {
            Some(self.children[OBJECTS_POSITION as int].children@)
        } else {
            None
        }
    }

    /// The geometry records of the document.
    pub fn geometry_records(&self) -> (r: Result<&Vec<Node>, Error>)
        ensures
            match r {
                Ok(nodes) => self.spec_geometry_records() == Some(nodes@),
                Err(e) => e == Error::SchemaMismatch && self.spec_geometry_records() is None,
            },
    {
        if OBJECTS_POSITION < self.children.len() {
            Ok(&self.children[OBJECTS_POSITION].children)
        } else {
            Err(Error::SchemaMismatch)
        }
    }
}

/// Copies 32-bit integers into 64-bit integers of the same value.
pub fn lengthen(values: &Vec<i32>) -> (r: Vec<i64>)
    ensures
        r@ == lengthened(values@),
{
    let mut r: Vec<i64> = Vec::with_capacity(values.len());
    let mut i: usize = 0;
    while i < values.len()
        invariant
            i <= values.len(),
            r.len() == i,
            forall|k: int| 0 <= k < i ==> r@[k] == values@[k] as i64,
        decreases values.len() - i,
    {
        r.push(values[i] as i64);
        i += 1;
    }
    r
}

/// Widening an integer array keeps every value and the order.
pub proof fn lemma_lengthened_keeps_values(values: Seq<i32>)
    ensures
        lengthened(values).len() == values.len(),
        forall|i: int|
            0 <= i < values.len() ==> #[trigger] lengthened(values)[i] as int == values[i] as int,
{
}

} // verus!
