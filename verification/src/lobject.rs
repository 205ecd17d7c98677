//! The handle that scripts hold on an object tree.

use vstd::prelude::*;
use crate::number::Number;
use crate::number::Vector;
use crate::shape::Shape;
use crate::shape::well_formed_or_empty;
use crate::shape::Solid;

verus! {

/// A handle owns one object tree or nothing.
///
/// Nothing stands for a construction that failed. It is a value like any
/// other: whatever is done to an empty handle gives an empty handle.
#[derive(Debug, PartialEq)]
pub struct LObject {
    pub o: Option<Shape>,
}

impl View for LObject {
    type V = Option<Solid>;

    open spec fn view(&self) -> Option<Solid> {
        match self.o {
            Some(shape) => Some(shape@),
            None => None,
        }
    }
}

/// `tree` moved by `by`, where there is a tree.
pub open spec fn translated(tree: Option<Solid>, by: Vector) -> Option<Solid> {
    match tree {
        Some(solid) => Some(Solid::Translated { child: Box::new(solid), by }),
        None => None,
    }
}

/// `tree` turned by the angles `by`, where there is a tree.
pub open spec fn rotated(tree: Option<Solid>, by: Vector) -> Option<Solid> {
    match tree {
        Some(solid) => Some(Solid::Rotated { child: Box::new(solid), by }),
        None => None,
    }
}

/// `tree` scaled by the factors `by`, where there is a tree.
pub open spec fn scaled(tree: Option<Solid>, by: Vector) -> Option<Solid> {
    match tree {
        Some(solid) => Some(Solid::Scaled { child: Box::new(solid), by }),
        None => None,
    }
}

/// Nothing stays nothing, whatever it is moved, turned or scaled by.
pub proof fn lemma_nothing_stays_nothing(by: Vector)
    ensures
        translated(None, by) is None,
        rotated(None, by) is None,
        scaled(None, by) is None,
{
}

/// A transform wraps the tree and leaves it as it was: what was well
/// formed before is well formed after.
pub proof fn lemma_transforms_keep_trees_well_formed(tree: Option<Solid>, by: Vector)
    requires
        well_formed_or_empty(tree),
    ensures
        well_formed_or_empty(translated(tree, by)),
        well_formed_or_empty(rotated(tree, by)),
        well_formed_or_empty(scaled(tree, by)),
{
}

impl Clone for LObject {
    /// The copy owns a tree of its own.
    fn clone(&self) -> (r: LObject)
        ensures
            r@ == self@,
    {
        LObject { o: self.as_object() }
    }
}

impl LObject {
    /// The handle that holds nothing.
    pub fn empty() -> (r: LObject)
        ensures
            r@ is None,
    {
        LObject { o: None }
    }

    /// The handle that owns `shape`.
    pub fn holding(shape: Shape) -> (r: LObject)
        ensures
            r@ == Some(shape@),
    {
        LObject { o: Some(shape) }
    }

    pub fn is_empty(&self) -> (r: bool)
        ensures
            r == (self@ is None),
    {
        self.o.is_none()
    }

    /// A copy of the tree, for a caller that wants to own one.
    pub fn as_object(&self) -> (r: Option<Shape>)
        ensures
            r.is_some() == self@.is_some(),
            r matches Some(shape) ==> self@ == Some(shape@),
    {
        match &self.o {
            Some(shape) => Some(shape.clone()),
            None => None,
        }
    }

    /// A handle on a moved copy of the tree. The receiver keeps its tree as
    /// it was.
    pub fn translate(&mut self, x: Number, y: Number, z: Number) -> (r: LObject)
        ensures
            final(self)@ == old(self)@,
            r@ == translated(old(self)@, Vector { x, y, z }),
            well_formed_or_empty(old(self)@) ==> well_formed_or_empty(r@),
    {
        match self.as_object() {
            Some(shape) => LObject {
                o: Some(Shape::Translated { child: Box::new(shape), by: Vector { x, y, z } }),
            },
            None => LObject { o: None },
        }
    }

    /// A handle on a turned copy of the tree. The receiver keeps its tree as
    /// it was.
    pub fn rotate(&mut self, x: Number, y: Number, z: Number) -> (r: LObject)
        ensures
            final(self)@ == old(self)@,
            r@ == rotated(old(self)@, Vector { x, y, z }),
            well_formed_or_empty(old(self)@) ==> well_formed_or_empty(r@),
    {
        match self.as_object() {
            Some(shape) => LObject {
                o: Some(Shape::Rotated { child: Box::new(shape), by: Vector { x, y, z } }),
            },
            None => LObject { o: None },
        }
    }

    /// A handle on a scaled copy of the tree. The receiver keeps its tree as
    /// it was.
    pub fn scale(&mut self, x: Number, y: Number, z: Number) -> (r: LObject)
        ensures
            final(self)@ == old(self)@,
            r@ == scaled(old(self)@, Vector { x, y, z }),
            well_formed_or_empty(old(self)@) ==> well_formed_or_empty(r@),
    {
        match self.as_object() {
            Some(shape) => LObject {
                o: Some(Shape::Scaled { child: Box::new(shape), by: Vector { x, y, z } }),
            },
            None => LObject { o: None },
        }
    }
}

} // verus!
