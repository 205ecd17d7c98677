//! The object tree: what a script has asked to be built.
//!
//! A [`Shape`] is a description, not a solid with a surface: it records the
//! primitives, their numbers and how they are combined. Turning it into
//! something that can be evaluated at a point is left to the caller.

use vstd::prelude::*;
use crate::number::Number;
use crate::number::Vector;

verus! {

/// The six half-spaces that are aligned with an axis.
#[derive(Clone, Copy, Debug, PartialEq, Eq, Structural)]
pub enum Axis {
    X,
    Y,
    Z,
    NegX,
    NegY,
    NegZ,
}

/// An axis-aligned box given by two opposite corners.
#[derive(Clone, Copy, Debug, PartialEq, Eq, Structural)]
pub struct Bounds {
    pub low: Vector,
    pub high: Vector,
}

/// One node of the object tree. Every node owns its children.
#[derive(Debug, PartialEq)]
pub enum Shape {
    /// The half-space below `distance` along `axis`.
    Plane { axis: Axis, distance: Number },
    /// A plane in Hessian normal form.
    NormalPlane { normal: Vector, p: Number },
    /// The plane through three points.
    PlaneThrough { a: Vector, b: Vector, c: Vector },
    Sphere { radius: Number },
    /// An infinite cylinder along the Z axis.
    Cylinder { radius: Number },
    /// An infinite cone along the Z axis. `bounds`, where present, replaces
    /// the cone's own unbounded box.
    Cone { slope: Number, offset: Number, bounds: Option<Bounds> },
    /// The intersection of `children`, rounded with radius `smooth`.
    Intersection { children: Vec<Shape>, smooth: Number },
    Bend { child: Box<Shape>, width: Number },
    Twist { child: Box<Shape>, height: Number },
    /// The triangle mesh that was read from `path`.
    Mesh { path: String },
    Translated { child: Box<Shape>, by: Vector },
    Rotated { child: Box<Shape>, by: Vector },
    Scaled { child: Box<Shape>, by: Vector },
}

/// The mathematical value of a [`Shape`].
pub ghost enum Solid {
    Plane { axis: Axis, distance: Number },
    NormalPlane { normal: Vector, p: Number },
    PlaneThrough { a: Vector, b: Vector, c: Vector },
    Sphere { radius: Number },
    Cylinder { radius: Number },
    Cone { slope: Number, offset: Number, bounds: Option<Bounds> },
    Intersection { children: Seq<Solid>, smooth: Number },
    Bend { child: Box<Solid>, width: Number },
    Twist { child: Box<Solid>, height: Number },
    Mesh { path: Seq<char> },
    Translated { child: Box<Solid>, by: Vector },
    Rotated { child: Box<Solid>, by: Vector },
    Scaled { child: Box<Solid>, by: Vector },
}

impl Solid {
    /// An intersection node never stands for fewer than two solids, and is
    /// never rounded with a negative radius, here or anywhere below.
    pub open spec fn well_formed(self) -> bool
        decreases self,
    {
        match self {
            Solid::Intersection { children, smooth } => {
                &&& children.len() >= 2
                &&& smooth.is_non_negative()
                &&& forall|i: int|
                    0 <= i < children.len() ==> (#[trigger] children[i]).well_formed()
            },
            Solid::Bend { child, width } => child.well_formed(),
            Solid::Twist { child, height } => child.well_formed(),
            Solid::Translated { child, by } => child.well_formed(),
            Solid::Rotated { child, by } => child.well_formed(),
            Solid::Scaled { child, by } => child.well_formed(),
            _ => true,
        }
    }

    /// The intersection of `children`: nothing for no solid and nothing
    /// where one of them is not well formed; else the solid itself for
    /// one, a node for more. The node is rounded with `smooth` taken as a
    /// radius, so never with less than zero.
    pub open spec fn intersection(children: Seq<Solid>, smooth: Number) -> Option<Solid> {
        if children.len() == 0 || !all_well_formed(children) {
            None
        } else if children.len() == 1 {
            Some(children[0])
        } else {
            Some(Solid::Intersection { children, smooth: smooth.radius() })
        }
    }
}

/// Whether every solid of a sequence is well formed.
pub open spec fn all_well_formed(solids: Seq<Solid>) -> bool {
    forall|i: int| 0 <= i < solids.len() ==> (#[trigger] solids[i]).well_formed()
}

/// Whether a handle's tree, where it has one, is well formed.
pub open spec fn well_formed_or_empty(tree: Option<Solid>) -> bool {
    match tree {
        Some(solid) => solid.well_formed(),
        None => true,
    }
}

/// The values of a sequence of shapes, one by one.
pub open spec fn models(shapes: Seq<Shape>) -> Seq<Solid> {
    Seq::new(shapes.len(), |i: int| shapes[i].model())
}

impl Shape {
    pub open spec fn model(&self) -> Solid
        decreases self,
    {
        match self {
            Shape::Plane { axis, distance } => Solid::Plane { axis: *axis, distance: *distance },
            Shape::NormalPlane { normal, p } => Solid::NormalPlane { normal: *normal, p: *p },
            Shape::PlaneThrough { a, b, c } => Solid::PlaneThrough { a: *a, b: *b, c: *c },
            Shape::Sphere { radius } => Solid::Sphere { radius: *radius },
            Shape::Cylinder { radius } => Solid::Cylinder { radius: *radius },
            Shape::Cone { slope, offset, bounds } => Solid::Cone {
                slope: *slope,
                offset: *offset,
                bounds: *bounds,
            },
            Shape::Intersection { children, smooth } => Solid::Intersection {
                children: Seq::new(
                    children.len() as nat,
                    |i: int|
                        if 0 <= i < children.len() {
                            children[i].model()
                        } else {
                            Solid::Sphere { radius: Number::zero() }
                        },
                ),
                smooth: *smooth,
            },
            Shape::Bend { child, width } => Solid::Bend {
                child: Box::new(child.model()),
                width: *width,
            },
            Shape::Twist { child, height } => Solid::Twist {
                child: Box::new(child.model()),
                height: *height,
            },
            Shape::Mesh { path } => Solid::Mesh { path: path@ },
            Shape::Translated { child, by } => Solid::Translated {
                child: Box::new(child.model()),
                by: *by,
            },
            Shape::Rotated { child, by } => Solid::Rotated {
                child: Box::new(child.model()),
                by: *by,
            },
            Shape::Scaled { child, by } => Solid::Scaled { child: Box::new(child.model()), by: *by },
        }
    }

    /// The children of an intersection node are modelled one by one.
    pub proof fn lemma_intersection_model(children: Vec<Shape>, smooth: Number)
        ensures
            (Shape::Intersection { children, smooth })@ == (Solid::Intersection {
                children: models(children@),
                smooth,
            }),
    {
        let node = Shape::Intersection { children, smooth };
        assert(node.model()->Intersection_children =~= models(children@));
    }

    /// Whether the tree is well formed. From well-formed trees the
    /// constructors of this library build no others; a tree that was put
    /// together by hand may be ill formed.
    #[verifier::loop_isolation(false)]
    pub fn is_well_formed(&self) -> (r: bool)
        ensures
            r == self@.well_formed(),
        decreases self,
    {
        match self {
            Shape::Intersection { children, smooth } => {
                proof {
                    Shape::lemma_intersection_model(*children, *smooth);
                }
                if children.len() < 2 || !smooth.is_non_negative() {
                    return false;
                }
                let mut i: usize = 0;
                while i < children.len()
                    invariant
                        i <= children.len(),
                        forall|j: int| 0 <= j < i ==> children[j].model().well_formed(),
                    decreases children.len() - i,
                {
                    if !children[i].is_well_formed() {
                        assert(!models(children@)[i as int].well_formed());
                        return false;
                    }
                    i = i + 1;
                }
                true
            },
            Shape::Bend { child, width } => child.is_well_formed(),
            Shape::Twist { child, height } => child.is_well_formed(),
            Shape::Translated { child, by } => child.is_well_formed(),
            Shape::Rotated { child, by } => child.is_well_formed(),
            Shape::Scaled { child, by } => child.is_well_formed(),
            _ => true,
        }
    }

    /// Combines `children` as an intersection rounded with radius `smooth`.
    ///
    /// Nothing comes of no shape, and nothing of shapes of which one is
    /// not well formed. One shape alone is handed back as it is. A radius
    /// that is negative or not a number counts as zero. What is built is
    /// well formed.
    pub fn intersection(children: Vec<Shape>, smooth: Number) -> (r: Option<Shape>)
        ensures
            r.is_some() <==> children@.len() > 0 && all_well_formed(models(children@)),
            match r {
                Some(shape) => Some(shape@) == Solid::intersection(models(children@), smooth),
                None => Solid::intersection(models(children@), smooth).is_none(),
            },
            r matches Some(shape) ==> shape@.well_formed(),
    {
        let ghost solids = models(children@);
        let mut i: usize = 0;
        while i < children.len()
            invariant
                i <= children.len(),
                solids == models(children@),
                forall|j: int| 0 <= j < i ==> (#[trigger] solids[j]).well_formed(),
            decreases children.len() - i,
        {
            if !children[i].is_well_formed() {
                assert(!solids[i as int].well_formed());
                return None;
            }
            i = i + 1;
        }
        let mut children = children;
        if children.len() == 0 {
            None
        } else if children.len() == 1 {
            let only = children.pop();
            only
        } else {
            let smooth = smooth.radius();
            proof {
                Shape::lemma_intersection_model(children, smooth);
            }
            Some(Shape::Intersection { children, smooth })
        }
    }
}

impl View for Shape {
    type V = Solid;

    open spec fn view(&self) -> Solid {
        self.model()
    }
}

impl Clone for Shape {
    #[verifier::loop_isolation(false)]
    fn clone(&self) -> (r: Shape)
        ensures
            r@ == self@,
        decreases self,
    {
        match self {
            Shape::Plane { axis, distance } => Shape::Plane { axis: *axis, distance: *distance },
            Shape::NormalPlane { normal, p } => Shape::NormalPlane { normal: *normal, p: *p },
            Shape::PlaneThrough { a, b, c } => Shape::PlaneThrough { a: *a, b: *b, c: *c },
            Shape::Sphere { radius } => Shape::Sphere { radius: *radius },
            Shape::Cylinder { radius } => Shape::Cylinder { radius: *radius },
            Shape::Cone { slope, offset, bounds } => Shape::Cone {
                slope: *slope,
                offset: *offset,
                bounds: *bounds,
            },
            Shape::Intersection { children, smooth } => {
                let mut copies: Vec<Shape> = Vec::new();
                let mut i: usize = 0;
                while i < children.len()
                    invariant
                        i <= children.len(),
                        copies.len() == i,
                        forall|j: int| 0 <= j < i ==> copies[j].model() == children[j].model(),
                    decreases children.len() - i,
                {
                    let copy = children[i].clone();
                    copies.push(copy);
                    i = i + 1;
                }
                proof {
                    Shape::lemma_intersection_model(copies, *smooth);
                    Shape::lemma_intersection_model(*children, *smooth);
                    assert(models(copies@) =~= models(children@));
                }
                Shape::Intersection { children: copies, smooth: *smooth }
            },
            Shape::Bend { child, width } => Shape::Bend {
                child: Box::new((&**child).clone()),
                width: *width,
            },
            Shape::Twist { child, height } => Shape::Twist {
                child: Box::new((&**child).clone()),
                height: *height,
            },
            Shape::Mesh { path } => Shape::Mesh { path: path.clone() },
            Shape::Translated { child, by } => Shape::Translated {
                child: Box::new((&**child).clone()),
                by: *by,
            },
            Shape::Rotated { child, by } => Shape::Rotated {
                child: Box::new((&**child).clone()),
                by: *by,
            },
            Shape::Scaled { child, by } => Shape::Scaled {
                child: Box::new((&**child).clone()),
                by: *by,
            },
        }
    }
}

} // verus!
