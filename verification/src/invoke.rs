//! What a bound name does with the arguments of a call.
//!
//! A call either builds a handle at once, or settles on a native call that
//! still needs arithmetic on its numbers, or asks the host to read a file,
//! or stops the script. Which of these it is, and with which values, is
//! decided here for every name that a script can be given.

use vstd::prelude::*;
use crate::alias::check;
use crate::alias::checked_outcome;
use crate::alias::NativeCall;
use crate::alias::ScriptError;
use crate::bindings::Callable;
use crate::factory::bend;
use crate::factory::infinite_cone;
use crate::factory::infinite_cylinder;
use crate::factory::plane;
use crate::factory::sphere;
use crate::factory::twist;
use crate::lobject::LObject;
use crate::number::Number;
use crate::number::Vector;
use crate::shape::well_formed_or_empty;
use crate::shape::Solid;
use crate::value::argument;
use crate::value::data;
use crate::value::Datum;
use crate::value::Value;

verus! {

/// What comes of a call.
#[derive(Debug, PartialEq)]
pub enum Invocation {
    /// The handle that the call gives back.
    Built(LObject),
    /// The native call that is to be made once the caller has done the
    /// arithmetic that it needs.
    Construct(NativeCall),
    /// The file that the host is to read before the mesh constructor
    /// decides what the script gets.
    Load(String),
    /// The error that stops the script.
    Raise(ScriptError),
    /// The arguments are not of the types that the constructor takes.
    Refuse,
}

/// The mathematical value of an [`Invocation`].
pub ghost enum Invoked {
    Built(Option<Solid>),
    Construct(NativeCall),
    Load(Seq<char>),
    Raise(ScriptError),
    Refuse,
}

impl View for Invocation {
    type V = Invoked;

    open spec fn view(&self) -> Invoked {
        match self {
            Invocation::Built(handle) => Invoked::Built(handle@),
            Invocation::Construct(call) => Invoked::Construct(*call),
            Invocation::Load(path) => Invoked::Load(path@),
            Invocation::Raise(error) => Invoked::Raise(*error),
            Invocation::Refuse => Invoked::Refuse,
        }
    }
}

/// Whether the first `count` arguments are all numbers.
pub open spec fn numbers_given(args: Seq<Datum>, count: int) -> bool {
    forall|i: int| 0 <= i < count ==> (#[trigger] argument(args, i)) is Number
}

/// The argument at `index` as a number; zero where it is none.
pub open spec fn number_given(args: Seq<Datum>, index: int) -> Number {
    argument(args, index).number_or_zero()
}

/// Three arguments from `index` on as a triple.
pub open spec fn triple_given(args: Seq<Datum>, index: int) -> Vector {
    Vector {
        x: number_given(args, index),
        y: number_given(args, index + 1),
        z: number_given(args, index + 2),
    }
}

/// `solid` wrapped by what `callable` stands for, for the two names that
/// take an object and a number.
pub open spec fn wrapped(callable: Callable, object: Option<Solid>, by: Number) -> Option<Solid> {
    match object {
        Some(solid) => if callable is Bend {
            Some(Solid::Bend { child: Box::new(solid), width: by })
        } else {
            Some(Solid::Twist { child: Box::new(solid), height: by })
        },
        None => None,
    }
}

/// What comes of calling `callable` with `args`. Where the first argument
/// is a handle, `object` is the tree behind it.
///
/// - A half-space is built from whatever was passed; what is no number
///   counts as zero.
/// - A sphere, an infinite cylinder and an infinite cone take one number.
/// - Bending and twisting take a handle and then a number.
/// - A mesh takes the path of its file, which the host is to read.
/// - The hidden constructors take four numbers, or nine for the plane
///   through three points, and settle on a native call. A rounding radius
///   among them is taken as zero where it is negative.
/// - A checked name runs its check and settles on a native call or on the
///   error that the check found.
pub open spec fn invoked(callable: Callable, object: Option<Solid>, args: Seq<Datum>) -> Invoked {
    match callable {
        Callable::Plane(axis) => Invoked::Built(
            Some(Solid::Plane { axis, distance: number_given(args, 0) }),
        ),
        Callable::Sphere => if numbers_given(args, 1) {
            Invoked::Built(Some(Solid::Sphere { radius: number_given(args, 0) }))
        } else {
            Invoked::Refuse
        },
        Callable::InfiniteCylinder => if numbers_given(args, 1) {
            Invoked::Built(Some(Solid::Cylinder { radius: number_given(args, 0) }))
        } else {
            Invoked::Refuse
        },
        Callable::InfiniteCone => if numbers_given(args, 1) {
            Invoked::Built(
                Some(
                    Solid::Cone {
                        slope: number_given(args, 0),
                        offset: Number::zero(),
                        bounds: None,
                    },
                ),
            )
        } else {
            Invoked::Refuse
        },
        Callable::Bend | Callable::Twist => if argument(args, 1) is Number {
            Invoked::Built(wrapped(callable, object, number_given(args, 1)))
        } else {
            Invoked::Refuse
        },
        Callable::Mesh => match argument(args, 0) {
            Datum::Text(path) => Invoked::Load(path),
            _ => Invoked::Refuse,
        },
        Callable::NativeBox => if numbers_given(args, 4) {
            Invoked::Construct(
                NativeCall::Box {
                    x: number_given(args, 0),
                    y: number_given(args, 1),
                    z: number_given(args, 2),
                    smooth: number_given(args, 3).radius(),
                },
            )
        } else {
            Invoked::Refuse
        },
        Callable::NativePlaneHessian => if numbers_given(args, 4) {
            Invoked::Construct(
                NativeCall::PlaneHessian {
                    normal: triple_given(args, 0),
                    p: number_given(args, 3),
                },
            )
        } else {
            Invoked::Refuse
        },
        Callable::NativePlane3Points => if numbers_given(args, 9) {
            Invoked::Construct(
                NativeCall::Plane3Points {
                    a: triple_given(args, 0),
                    b: triple_given(args, 3),
                    c: triple_given(args, 6),
                },
            )
        } else {
            Invoked::Refuse
        },
        Callable::NativeCylinder => if numbers_given(args, 4) {
            Invoked::Construct(
                NativeCall::Cylinder {
                    length: number_given(args, 0),
                    radius1: number_given(args, 1),
                    radius2: number_given(args, 2),
                    smooth: number_given(args, 3).radius(),
                },
            )
        } else {
            Invoked::Refuse
        },
        _ => match checked_outcome(callable, args) {
            Some(Ok(call)) => Invoked::Construct(call),
            Some(Err(error)) => Invoked::Raise(error),
            None => Invoked::Refuse,
        },
    }
}

/// The first `count` arguments, where all of them are numbers.
fn numbers(args: &Vec<Value>, count: usize) -> (r: Option<Vec<Number>>)
    ensures
        r.is_some() == numbers_given(data(args@), count as int),
        r matches Some(found) ==> found@.len() == count && forall|i: int|
            0 <= i < count ==> found@[i] == number_given(data(args@), i),
{
    let mut found: Vec<Number> = Vec::new();
    let mut i: usize = 0;
    while i < count
        invariant
            i <= count,
            found@.len() == i,
            forall|j: int| 0 <= j < i ==> (#[trigger] argument(data(args@), j)) is Number,
            forall|j: int| 0 <= j < i ==> found@[j] == number_given(data(args@), j),
        decreases count - i,
    {
        if i >= args.len() {
            assert(argument(data(args@), i as int) is Nil);
            return None;
        }
        match args[i].as_number() {
            Some(n) => {
                found.push(n);
            },
            None => {
                assert(!(argument(data(args@), i as int) is Number));
                return None;
            },
        }
        i = i + 1;
    }
    Some(found)
}

/// Decides what comes of calling `callable` with `args`. Where the first
/// argument is a handle, the caller passes it as `object`; an empty
/// handle will do for every name that takes none.
pub fn invoke(callable: Callable, object: &LObject, args: &Vec<Value>) -> (r: Invocation)
    ensures
        r@ == invoked(callable, object@, data(args@)),
        r matches Invocation::Construct(call) ==> call.well_formed(),
        well_formed_or_empty(object@) ==> (r matches Invocation::Built(handle)
            ==> well_formed_or_empty(handle@)),
{
    let ghost given = data(args@);
    match callable {
        Callable::Plane(axis) => {
            if args.len() > 0 {
                Invocation::Built(plane(axis, &args[0]))
            } else {
                Invocation::Built(plane(axis, &Value::Nil))
            }
        },
        Callable::Sphere => match numbers(args, 1) {
            Some(n) => Invocation::Built(sphere(n[0])),
            None => Invocation::Refuse,
        },
        Callable::InfiniteCylinder => match numbers(args, 1) {
            Some(n) => Invocation::Built(infinite_cylinder(n[0])),
            None => Invocation::Refuse,
        },
        Callable::InfiniteCone => match numbers(args, 1) {
            Some(n) => Invocation::Built(infinite_cone(n[0])),
            None => Invocation::Refuse,
        },
        Callable::Bend => {
            if args.len() > 1 {
                match args[1].as_number() {
                    Some(width) => Invocation::Built(bend(object, width)),
                    None => Invocation::Refuse,
                }
            } else {
                Invocation::Refuse
            }
        },
        Callable::Twist => {
            if args.len() > 1 {
                match args[1].as_number() {
                    Some(height) => Invocation::Built(twist(object, height)),
                    None => Invocation::Refuse,
                }
            } else {
                Invocation::Refuse
            }
        },
        Callable::Mesh => {
            if args.len() > 0 {
                match &args[0] {
                    Value::Text(path) => Invocation::Load(path.clone()),
                    _ => Invocation::Refuse,
                }
            } else {
                Invocation::Refuse
            }
        },
        Callable::NativeBox => match numbers(args, 4) {
            Some(n) => Invocation::Construct(
                NativeCall::Box { x: n[0], y: n[1], z: n[2], smooth: n[3].radius() },
            ),
            None => Invocation::Refuse,
        },
        Callable::NativePlaneHessian => match numbers(args, 4) {
            Some(n) => Invocation::Construct(
                NativeCall::PlaneHessian { normal: Vector { x: n[0], y: n[1], z: n[2] }, p: n[3] },
            ),
            None => Invocation::Refuse,
        },
        Callable::NativePlane3Points => match numbers(args, 9) {
            Some(n) => Invocation::Construct(
                NativeCall::Plane3Points {
                    a: Vector { x: n[0], y: n[1], z: n[2] },
                    b: Vector { x: n[3], y: n[4], z: n[5] },
                    c: Vector { x: n[6], y: n[7], z: n[8] },
                },
            ),
            None => Invocation::Refuse,
        },
        Callable::NativeCylinder => match numbers(args, 4) {
            Some(n) => Invocation::Construct(
                NativeCall::Cylinder {
                    length: n[0],
                    radius1: n[1],
                    radius2: n[2],
                    smooth: n[3].radius(),
                },
            ),
            None => Invocation::Refuse,
        },
        _ => match check(callable, args) {
            Some(Ok(call)) => Invocation::Construct(call),
            Some(Err(error)) => Invocation::Raise(error),
            None => Invocation::Refuse,
        },
    }
}

/// A call that stops the script builds nothing: only a checked name ever
/// raises an error, and then no handle and no native call comes of it.
pub proof fn lemma_only_checks_raise(callable: Callable, object: Option<Solid>, args: Seq<Datum>)
    requires
        invoked(callable, object, args) is Raise,
    ensures
        callable is CheckedBox || callable is CheckedCylinder || callable is CheckedPlane3Points
            || callable is CheckedPlaneHessian,
        checked_outcome(callable, args) == Some(
            Err::<NativeCall, ScriptError>(invoked(callable, object, args)->Raise_0),
        ),
{
}

/// A cylinder without a numeric length stops the script, whatever else
/// was passed: the length is looked at before anything else, and nothing
/// is built.
pub proof fn lemma_cylinder_without_length_raises(object: Option<Solid>, args: Seq<Datum>)
    requires
        !(argument(args, 0).field("l"@) is Number),
    ensures
        invoked(Callable::CheckedCylinder, object, args) == Invoked::Raise(
            ScriptError::CylinderLength,
        ),
{
}

/// No call settles on a native call with a negative rounding radius.
pub proof fn lemma_no_negative_radius(callable: Callable, object: Option<Solid>, args: Seq<Datum>)
    ensures
        invoked(callable, object, args) matches Invoked::Construct(call) ==> call.well_formed(),
{
}

} // verus!
