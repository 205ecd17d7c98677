//! The checks behind the script-side names `Box`, `Cylinder`,
//! `Plane3Points` and `PlaneHessian`.
//!
//! Each name takes loosely typed arguments, checks their shape, and either
//! settles on the call of a native constructor or raises an error that
//! stops the script. Nothing is built before the check has passed.

use vstd::prelude::*;
use vstd::string::StringExecFns;
use crate::bindings::Callable;
use crate::number::Number;
use crate::number::Vector;
use crate::value::argument;
use crate::value::data;
use crate::value::Datum;
use crate::value::Value;

verus! {

/// Why a script was stopped.
#[derive(Clone, Copy, Debug, PartialEq, Eq, Structural)]
pub enum ScriptError {
    /// One of the three sizes of a box is no number.
    BoxArguments,
    /// A cylinder has no numeric length `l`.
    CylinderLength,
    /// A cylinder has neither a numeric `r` nor numeric `r1` and `r2`.
    CylinderRadius,
    /// One of three points is no table of three items.
    PlanePointsShape,
    /// A coordinate of one of three points is no number.
    PlanePointsElements,
    /// A normal is no table of three numbers.
    HessianNormal,
    /// The distance of a plane in Hessian form is no number.
    HessianOffset,
}

/// A native constructor together with the numbers it is to be called
/// with. The checks settle only on calls whose rounding radius is zero
/// or more.
#[derive(Clone, Copy, Debug, PartialEq, Eq, Structural)]
pub enum NativeCall {
    Box { x: Number, y: Number, z: Number, smooth: Number },
    Cylinder { length: Number, radius1: Number, radius2: Number, smooth: Number },
    Plane3Points { a: Vector, b: Vector, c: Vector },
    PlaneHessian { normal: Vector, p: Number },
}

impl NativeCall {
    /// Whether the rounding radius of the call, where it has one, is zero
    /// or more.
    pub open spec fn well_formed(self) -> bool {
        match self {
            NativeCall::Box { x, y, z, smooth } => smooth.is_non_negative(),
            NativeCall::Cylinder { length, radius1, radius2, smooth } => smooth.is_non_negative(),
            _ => true,
        }
    }
}

impl ScriptError {
    /// The text that the script's author gets to see.
    pub open spec fn text(self) -> Seq<char> {
        match self {
            ScriptError::BoxArguments => "all arguments must be numbers"@,
            ScriptError::CylinderLength => "l must be a valid number"@,
            ScriptError::CylinderRadius => "specify either r or r1 and r2"@,
            ScriptError::PlanePointsShape => "all three arguments must be tables of len 3"@,
            ScriptError::PlanePointsElements => "all table elements must be numbers"@,
            ScriptError::HessianNormal => "first argument (normal) must be a table of 3 numbers"@,
            ScriptError::HessianOffset => "second argument must be a number (p in hessian form)"@,
        }
    }

    pub fn message(&self) -> (r: String)
        ensures
            r@ == self.text(),
    {
        match self {
            ScriptError::BoxArguments => String::from_str("all arguments must be numbers"),
            ScriptError::CylinderLength => String::from_str("l must be a valid number"),
            ScriptError::CylinderRadius => String::from_str("specify either r or r1 and r2"),
            ScriptError::PlanePointsShape => String::from_str(
                "all three arguments must be tables of len 3",
            ),
            ScriptError::PlanePointsElements => String::from_str(
                "all table elements must be numbers",
            ),
            ScriptError::HessianNormal => String::from_str(
                "first argument (normal) must be a table of 3 numbers",
            ),
            ScriptError::HessianOffset => String::from_str(
                "second argument must be a number (p in hessian form)",
            ),
        }
    }
}

/// `Box(x, y, z, smooth)`: all three sizes must be numbers; a smoothing
/// radius that is no number, or that is negative, counts as zero.
pub open spec fn box_outcome(x: Datum, y: Datum, z: Datum, smooth: Datum) -> Result<
    NativeCall,
    ScriptError,
> {
    if x is Number && y is Number && z is Number {
        Ok(
            NativeCall::Box {
                x: x->Number_0,
                y: y->Number_0,
                z: z->Number_0,
                smooth: smooth.radius_or_zero(),
            },
        )
    } else {
        Err(ScriptError::BoxArguments)
    }
}

/// `Cylinder(arg)`: the field `l` must be a number. A numeric `r` is the
/// radius of both ends; without it both `r1` and `r2` must be numbers. A
/// field `s` that is no number, or that is negative, counts as zero.
pub open spec fn cylinder_outcome(arg: Datum) -> Result<NativeCall, ScriptError> {
    let length = arg.field("l"@);
    let radius = arg.field("r"@);
    let radius1 = arg.field("r1"@);
    let radius2 = arg.field("r2"@);
    let smooth = arg.field("s"@).radius_or_zero();
    if !(length is Number) {
        Err(ScriptError::CylinderLength)
    } else if radius is Number {
        Ok(
            NativeCall::Cylinder {
                length: length->Number_0,
                radius1: radius->Number_0,
                radius2: radius->Number_0,
                smooth,
            },
        )
    } else if radius1 is Number && radius2 is Number {
        Ok(
            NativeCall::Cylinder {
                length: length->Number_0,
                radius1: radius1->Number_0,
                radius2: radius2->Number_0,
                smooth,
            },
        )
    } else {
        Err(ScriptError::CylinderRadius)
    }
}

/// `Plane3Points(a, b, c)`: each argument must be a table of three items,
/// and then each item a number.
pub open spec fn plane_3_points_outcome(a: Datum, b: Datum, c: Datum) -> Result<
    NativeCall,
    ScriptError,
> {
    if !(a.has_three_items() && b.has_three_items() && c.has_three_items()) {
        Err(ScriptError::PlanePointsShape)
    } else if !(a.has_three_numbers() && b.has_three_numbers() && c.has_three_numbers()) {
        Err(ScriptError::PlanePointsElements)
    } else {
        Ok(NativeCall::Plane3Points { a: a.triple(), b: b.triple(), c: c.triple() })
    }
}

/// `PlaneHessian(n, p)`: `n` must be a table of three numbers and `p` a
/// number.
pub open spec fn plane_hessian_outcome(n: Datum, p: Datum) -> Result<NativeCall, ScriptError> {
    if !(n.has_three_items() && n.has_three_numbers()) {
        Err(ScriptError::HessianNormal)
    } else if !(p is Number) {
        Err(ScriptError::HessianOffset)
    } else {
        Ok(NativeCall::PlaneHessian { normal: n.triple(), p: p->Number_0 })
    }
}

/// What the checked name `callable` settles on when it is called with
/// `args`: `Box` reads four arguments, `Cylinder` one, `Plane3Points`
/// three and `PlaneHessian` two, and one that was left out is `Nil`. Of
/// a name that is no checked name nothing is said.
pub open spec fn checked_outcome(callable: Callable, args: Seq<Datum>) -> Option<
    Result<NativeCall, ScriptError>,
> {
    match callable {
        Callable::CheckedBox => Some(
            box_outcome(argument(args, 0), argument(args, 1), argument(args, 2), argument(args, 3)),
        ),
        Callable::CheckedCylinder => Some(cylinder_outcome(argument(args, 0))),
        Callable::CheckedPlane3Points => Some(
            plane_3_points_outcome(argument(args, 0), argument(args, 1), argument(args, 2)),
        ),
        Callable::CheckedPlaneHessian => Some(
            plane_hessian_outcome(argument(args, 0), argument(args, 1)),
        ),
        _ => None,
    }
}

/// The argument at `index`, or `fallback` where the script passed fewer.
fn pick<'a>(args: &'a Vec<Value>, index: usize, fallback: &'a Value) -> (r: &'a Value)
    requires
        fallback@ is Nil,
    ensures
        r@ == argument(data(args@), index as int),
{
    if index < args.len() {
        &args[index]
    } else {
        fallback
    }
}

/// Runs the check that stands behind the checked name `callable` on the
/// arguments of a call.
pub fn check(callable: Callable, args: &Vec<Value>) -> (r: Option<Result<NativeCall, ScriptError>>)
    ensures
        r == checked_outcome(callable, data(args@)),
        r matches Some(Ok(call)) ==> call.well_formed(),
{
    let nil = Value::Nil;
    match callable {
        Callable::CheckedBox => Some(
            check_box(
                pick(args, 0, &nil),
                pick(args, 1, &nil),
                pick(args, 2, &nil),
                pick(args, 3, &nil),
            ),
        ),
        Callable::CheckedCylinder => Some(check_cylinder(pick(args, 0, &nil))),
        Callable::CheckedPlane3Points => Some(
            check_plane_3_points(pick(args, 0, &nil), pick(args, 1, &nil), pick(args, 2, &nil)),
        ),
        Callable::CheckedPlaneHessian => Some(
            check_plane_hessian(pick(args, 0, &nil), pick(args, 1, &nil)),
        ),
        _ => None,
    }
}

/// Checks the arguments of `Box`. An argument that the script left out is
/// passed as `Nil`.
pub fn check_box(x: &Value, y: &Value, z: &Value, smooth: &Value) -> (r: Result<
    NativeCall,
    ScriptError,
>)
    ensures
        r == box_outcome(x@, y@, z@, smooth@),
        r is Ok <==> x@ is Number && y@ is Number && z@ is Number,
        r matches Ok(call) ==> call.well_formed(),
{
    match (x.as_number(), y.as_number(), z.as_number()) {
        (Some(x), Some(y), Some(z)) => Ok(
            NativeCall::Box { x, y, z, smooth: smooth.radius_or_zero() },
        ),
        _ => Err(ScriptError::BoxArguments),
    }
}

/// Checks the argument of `Cylinder`.
pub fn check_cylinder(arg: &Value) -> (r: Result<NativeCall, ScriptError>)
    ensures
        r == cylinder_outcome(arg@),
        r is Ok <==> arg@.field("l"@) is Number && (arg@.field("r"@) is Number || (arg@.field(
            "r1"@,
        ) is Number && arg@.field("r2"@) is Number)),
        r matches Ok(call) ==> call.well_formed(),
{
    let length = match arg.number_field("l") {
        Some(length) => length,
        None => {
            return Err(ScriptError::CylinderLength);
        },
    };
    let smooth = match arg.number_field("s") {
        Some(smooth) => smooth.radius(),
        None => Number::zero(),
    };
    match arg.number_field("r") {
        Some(radius) => Ok(
            NativeCall::Cylinder { length, radius1: radius, radius2: radius, smooth },
        ),
        None => match (arg.number_field("r1"), arg.number_field("r2")) {
            (Some(radius1), Some(radius2)) => Ok(
                NativeCall::Cylinder { length, radius1, radius2, smooth },
            ),
            _ => Err(ScriptError::CylinderRadius),
        },
    }
}

/// Checks the arguments of `Plane3Points`.
pub fn check_plane_3_points(a: &Value, b: &Value, c: &Value) -> (r: Result<
    NativeCall,
    ScriptError,
>)
    ensures
        r == plane_3_points_outcome(a@, b@, c@),
{
    if !(a.has_three_items() && b.has_three_items() && c.has_three_items()) {
        return Err(ScriptError::PlanePointsShape);
    }
    match (a.triple(), b.triple(), c.triple()) {
        (Some(a), Some(b), Some(c)) => Ok(NativeCall::Plane3Points { a, b, c }),
        _ => Err(ScriptError::PlanePointsElements),
    }
}

/// Checks the arguments of `PlaneHessian`.
pub fn check_plane_hessian(n: &Value, p: &Value) -> (r: Result<NativeCall, ScriptError>)
    ensures
        r == plane_hessian_outcome(n@, p@),
{
    if !n.has_three_items() {
        return Err(ScriptError::HessianNormal);
    }
    match n.triple() {
        Some(normal) => match p.as_number() {
            Some(p) => Ok(NativeCall::PlaneHessian { normal, p }),
            None => Err(ScriptError::HessianOffset),
        },
        None => Err(ScriptError::HessianNormal),
    }
}

/// A cylinder given one radius `r` is the cylinder given that radius
/// twice, as `r1` and `r2`.
pub proof fn lemma_one_radius_is_both(one: Datum, both: Datum, radius: Number)
    requires
        one.field("l"@) == both.field("l"@),
        one.field("s"@) == both.field("s"@),
        one.field("r"@) == Datum::Number(radius),
        !(both.field("r"@) is Number),
        both.field("r1"@) == Datum::Number(radius),
        both.field("r2"@) == Datum::Number(radius),
    ensures
        cylinder_outcome(one) == cylinder_outcome(both),
{
}

/// `Box` without a rounding radius is `Box` with the radius zero, and so
/// is `Box` with a radius that is no number or is negative.
pub proof fn lemma_box_radius_defaults_to_zero(x: Datum, y: Datum, z: Datum, smooth: Datum)
    requires
        !(smooth is Number) || !smooth->Number_0.is_non_negative(),
    ensures
        box_outcome(x, y, z, smooth) == box_outcome(x, y, z, Datum::Number(Number::zero())),
        box_outcome(x, y, z, Datum::Nil) == box_outcome(x, y, z, Datum::Number(Number::zero())),
{
}

/// No check settles on a call with a negative rounding radius.
pub proof fn lemma_checked_calls_are_well_formed(callable: Callable, args: Seq<Datum>)
    ensures
        checked_outcome(callable, args) matches Some(Ok(call)) ==> call.well_formed(),
{
}

/// Without a numeric length no cylinder is built, whatever else the
/// argument holds.
pub proof fn lemma_cylinder_needs_length(arg: Datum)
    requires
        !(arg.field("l"@) is Number),
    ensures
        cylinder_outcome(arg) == Err::<NativeCall, ScriptError>(ScriptError::CylinderLength),
{
}

/// A call that passed its check holds the sizes that the script gave,
/// unchanged, and the rounding radius that it gave or zero.
pub proof fn lemma_box_keeps_numbers(x: Number, y: Number, z: Number, smooth: Datum)
    ensures
        box_outcome(Datum::Number(x), Datum::Number(y), Datum::Number(z), smooth) == Ok::<
            NativeCall,
            ScriptError,
        >(NativeCall::Box { x, y, z, smooth: smooth.radius_or_zero() }),
{
}

} // verus!
