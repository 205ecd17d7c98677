//! The native constructors: from numbers to object trees.
//!
//! These take arguments that are already of the right type. Whether a
//! script passed the right arguments is settled before, by the checks in
//! [`crate::alias`]. Arithmetic on the numbers themselves is the caller's
//! part: where a constructor needs half a length or the slope of a cone,
//! it takes that as an argument.

use vstd::prelude::*;
use vstd::string::StringExecFns;
use crate::alias::NativeCall;
use crate::console::Console;
use crate::lobject::LObject;
use crate::number::Number;
use crate::number::Vector;
use crate::shape::Axis;
use crate::shape::Bounds;
use crate::shape::Shape;
use crate::shape::well_formed_or_empty;
use crate::shape::Solid;
use crate::value::Value;

verus! {

/// The body of a capped cylinder, before the caps are put on.
#[derive(Clone, Copy, Debug, PartialEq, Eq, Structural)]
pub enum Body {
    /// Both ends have the same radius.
    Straight { radius: Number },
    /// The ends differ: a cone of the given slope whose tip lies `offset`
    /// from the origin, and whose wider end has radius `widest`.
    Tapered { slope: Number, offset: Number, widest: Number },
}

/// What arithmetic on the numbers of a call gives. The library does not
/// compute with numbers, so whoever asks for a box or a cylinder brings
/// these along.
#[derive(Clone, Copy, Debug, PartialEq, Eq, Structural)]
pub enum Derived {
    /// Nothing: the call needs no arithmetic.
    Nothing,
    /// Half of each side of a box.
    Halves(Vector),
    /// The body of a cylinder and half of its length.
    Taper { body: Body, half_length: Number },
}

/// What a checked call builds, given what arithmetic on its numbers gave.
/// A plane needs no arithmetic. A box needs its halves and a cylinder its
/// body and half length; without them nothing is built.
pub open spec fn constructed(call: NativeCall, derived: Derived) -> Option<Solid> {
    match call {
        NativeCall::Box { x, y, z, smooth } => match derived {
            Derived::Halves(half) => Some(
                Solid::Intersection { children: box_planes(half), smooth: smooth.radius() },
            ),
            _ => None,
        },
        NativeCall::Cylinder { length, radius1, radius2, smooth } => match derived {
            Derived::Taper { body, half_length } => Some(
                Solid::Intersection {
                    children: capped(body, half_length),
                    smooth: smooth.radius(),
                },
            ),
            _ => None,
        },
        NativeCall::Plane3Points { a, b, c } => Some(Solid::PlaneThrough { a, b, c }),
        NativeCall::PlaneHessian { normal, p } => Some(Solid::NormalPlane { normal, p }),
    }
}

/// The six half-spaces that enclose a box which reaches `half.x`, `half.y`
/// and `half.z` from the origin along the three axes.
pub open spec fn box_planes(half: Vector) -> Seq<Solid> {
    seq![
        Solid::Plane { axis: Axis::X, distance: half.x },
        Solid::Plane { axis: Axis::Y, distance: half.y },
        Solid::Plane { axis: Axis::Z, distance: half.z },
        Solid::Plane { axis: Axis::NegX, distance: half.x },
        Solid::Plane { axis: Axis::NegY, distance: half.y },
        Solid::Plane { axis: Axis::NegZ, distance: half.z },
    ]
}

/// The box that a cone is given in place of its own unbounded one:
/// `widest` to either side across the axis, and the large finite
/// sentinel along it.
pub open spec fn spec_cone_bounds(widest: Number) -> Bounds {
    Bounds {
        low: Vector { x: widest.negated(), y: widest.negated(), z: Number::neg_infinity() },
        high: Vector { x: widest, y: widest, z: Number::infinity() },
    }
}

/// The solid that `body` stands for.
pub open spec fn body_solid(body: Body) -> Solid {
    match body {
        Body::Straight { radius } => Solid::Cylinder { radius },
        Body::Tapered { slope, offset, widest } => Solid::Cone {
            slope,
            offset,
            bounds: Some(spec_cone_bounds(widest)),
        },
    }
}

/// A body between two caps at `half_length` above and below the origin.
pub open spec fn capped(body: Body, half_length: Number) -> Seq<Solid> {
    seq![
        body_solid(body),
        Solid::Plane { axis: Axis::Z, distance: half_length },
        Solid::Plane { axis: Axis::NegZ, distance: half_length },
    ]
}

/// What is sent when a mesh was read.
pub open spec fn mesh_warning() -> Seq<char> {
    "Warning: Mesh support is currently horribly inefficient!"@
}

/// What is sent when a mesh could not be read for `reason`.
pub open spec fn mesh_failure(reason: Seq<char>) -> Seq<char> {
    "Could not read mesh: "@ + reason
}

/// A half-space along `axis`. An offset that is no number counts as zero.
pub fn plane(axis: Axis, offset: &Value) -> (r: LObject)
    ensures
        r@ == Some(Solid::Plane { axis, distance: offset@.number_or_zero() }),
{
    LObject::holding(Shape::Plane { axis, distance: offset.number_or_zero() })
}

pub fn sphere(radius: Number) -> (r: LObject)
    ensures
        r@ == Some(Solid::Sphere { radius }),
{
    LObject::holding(Shape::Sphere { radius })
}

/// An infinite cylinder along the Z axis.
pub fn infinite_cylinder(radius: Number) -> (r: LObject)
    ensures
        r@ == Some(Solid::Cylinder { radius }),
{
    LObject::holding(Shape::Cylinder { radius })
}

/// An infinite cone along the Z axis with its tip at the origin.
pub fn infinite_cone(slope: Number) -> (r: LObject)
    ensures
        r@ == Some(Solid::Cone { slope, offset: Number::zero(), bounds: None }),
{
    LObject::holding(Shape::Cone { slope, offset: Number::zero(), bounds: None })
}

/// `object` bent around the Z axis; `width` is the length that makes one
/// full turn. An empty handle stays empty.
pub fn bend(object: &LObject, width: Number) -> (r: LObject)
    ensures
        r@ == match object@ {
            Some(solid) => Some(Solid::Bend { child: Box::new(solid), width }),
            None => None,
        },
        well_formed_or_empty(object@) ==> well_formed_or_empty(r@),
{
    match object.as_object() {
        Some(shape) => LObject::holding(Shape::Bend { child: Box::new(shape), width }),
        None => LObject::empty(),
    }
}

/// `object` twisted around the Z axis; `height` is the length that makes
/// one full turn. An empty handle stays empty.
pub fn twist(object: &LObject, height: Number) -> (r: LObject)
    ensures
        r@ == match object@ {
            Some(solid) => Some(Solid::Twist { child: Box::new(solid), height }),
            None => None,
        },
        well_formed_or_empty(object@) ==> well_formed_or_empty(r@),
{
    match object.as_object() {
        Some(shape) => LObject::holding(Shape::Twist { child: Box::new(shape), height }),
        None => LObject::empty(),
    }
}

/// The handle for a mesh file, once the caller has tried to read it.
///
/// A mesh that was read gives a mesh node and a warning. One that was not
/// gives an empty handle and the reason. Either way exactly one message
/// is sent, and the script goes on.
pub fn mesh(path: String, outcome: Result<(), String>, console: &mut Console) -> (r: LObject)
    ensures
        outcome is Ok ==> r@ == Some(Solid::Mesh { path: path@ }),
        outcome is Ok ==> final(console)@ == old(console)@.push(mesh_warning()),
        outcome matches Err(reason) ==> r@ is None,
        outcome matches Err(reason) ==> final(console)@ == old(console)@.push(
            mesh_failure(reason@),
        ),
{
    match outcome {
        Ok(()) => {
            console.send(String::from_str("Warning: Mesh support is currently horribly inefficient!"));
            LObject::holding(Shape::Mesh { path })
        },
        Err(reason) => {
            let message = String::from_str("Could not read mesh: ").concat(reason.as_str());
            console.send(message);
            LObject::empty()
        },
    }
}

/// A box as the intersection of six half-spaces, rounded with radius
/// `smooth`. `half` holds half of the box's size along each axis. A
/// radius that is negative or not a number counts as zero.
pub fn box_from_planes(half: Vector, smooth: Number) -> (r: LObject)
    ensures
        r@ == Some(Solid::Intersection { children: box_planes(half), smooth: smooth.radius() }),
        well_formed_or_empty(r@),
{
    let mut planes: Vec<Shape> = Vec::new();
    planes.push(Shape::Plane { axis: Axis::X, distance: half.x });
    planes.push(Shape::Plane { axis: Axis::Y, distance: half.y });
    planes.push(Shape::Plane { axis: Axis::Z, distance: half.z });
    planes.push(Shape::Plane { axis: Axis::NegX, distance: half.x });
    planes.push(Shape::Plane { axis: Axis::NegY, distance: half.y });
    planes.push(Shape::Plane { axis: Axis::NegZ, distance: half.z });
    assert(crate::shape::models(planes@) =~= box_planes(half));
    LObject { o: Shape::intersection(planes, smooth) }
}

/// A plane in Hessian normal form.
pub fn plane_hessian(normal: Vector, p: Number) -> (r: LObject)
    ensures
        r@ == Some(Solid::NormalPlane { normal, p }),
{
    LObject::holding(Shape::NormalPlane { normal, p })
}

/// The plane through the points `a`, `b` and `c`.
pub fn plane_3_points(a: Vector, b: Vector, c: Vector) -> (r: LObject)
    ensures
        r@ == Some(Solid::PlaneThrough { a, b, c }),
{
    LObject::holding(Shape::PlaneThrough { a, b, c })
}

/// The finite box for a cone whose wider end has radius `widest`.
#[verifier::when_used_as_spec(spec_cone_bounds)]
pub fn cone_bounds(widest: Number) -> (r: Bounds)
    ensures
        r == spec_cone_bounds(widest),
{
    Bounds {
        low: Vector { x: widest.negated(), y: widest.negated(), z: Number::neg_infinity() },
        high: Vector { x: widest, y: widest, z: Number::infinity() },
    }
}

/// A cylinder or cone between two caps, rounded with radius `smooth` where
/// caps and body meet. The caps lie `half_length` above and below the
/// origin. A cone gets a finite box before it is combined. A radius that
/// is negative or not a number counts as zero.
pub fn cylinder(body: Body, half_length: Number, smooth: Number) -> (r: LObject)
    ensures
        r@ == Some(
            Solid::Intersection { children: capped(body, half_length), smooth: smooth.radius() },
        ),
        well_formed_or_empty(r@),
{
    let conie = match body {
        Body::Straight { radius } => Shape::Cylinder { radius },
        Body::Tapered { slope, offset, widest } => Shape::Cone {
            slope,
            offset,
            bounds: Some(cone_bounds(widest)),
        },
    };
    let mut parts: Vec<Shape> = Vec::new();
    parts.push(conie);
    parts.push(Shape::Plane { axis: Axis::Z, distance: half_length });
    parts.push(Shape::Plane { axis: Axis::NegZ, distance: half_length });
    assert(crate::shape::models(parts@) =~= capped(body, half_length));
    LObject { o: Shape::intersection(parts, smooth) }
}

/// What is sent when a call came without the measures that it needs.
pub open spec fn construct_failure() -> Seq<char> {
    "Could not build object: the measures that the call needs are missing"@
}

/// Calls the native constructor that a checked call names.
///
/// The caller brings what arithmetic on the call's numbers gave. Where
/// that does not fit the call, nothing is built: the handle is empty, one
/// message says so, and the script goes on. Where something is built, no
/// message is sent.
pub fn construct(call: NativeCall, derived: Derived, console: &mut Console) -> (r: LObject)
    ensures
        r@ == constructed(call, derived),
        well_formed_or_empty(r@),
        r@ is Some ==> final(console)@ == old(console)@,
        r@ is None ==> final(console)@ == old(console)@.push(construct_failure()),
{
    let built = match call {
        NativeCall::Box { x, y, z, smooth } => match derived {
            Derived::Halves(half) => box_from_planes(half, smooth),
            _ => LObject::empty(),
        },
        NativeCall::Cylinder { length, radius1, radius2, smooth } => match derived {
            Derived::Taper { body, half_length } => cylinder(body, half_length, smooth),
            _ => LObject::empty(),
        },
        NativeCall::Plane3Points { a, b, c } => plane_3_points(a, b, c),
        NativeCall::PlaneHessian { normal, p } => plane_hessian(normal, p),
    };
    if built.is_empty() {
        console.send(
            String::from_str("Could not build object: the measures that the call needs are missing"),
        );
    }
    built
}

} // verus!
