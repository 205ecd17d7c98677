//! The names that a script gets to call, and what stands behind each.

use vstd::prelude::*;
use vstd::string::StringExecFns;
use crate::alias::check;
use crate::alias::checked_outcome;
use crate::alias::NativeCall;
use crate::alias::ScriptError;
use crate::lobject::LObject;
use crate::shape::Axis;
use crate::alias::cylinder_outcome;
use crate::number::Number;
use crate::value::argument;
use crate::value::data;
use crate::value::Datum;
use crate::value::Value;

verus! {

/// What a bound name does when it is called.
#[derive(Clone, Copy, Debug, PartialEq, Eq, Structural)]
pub enum Callable {
    /// A half-space; an offset that is no number counts as zero.
    Plane(Axis),
    Sphere,
    InfiniteCylinder,
    InfiniteCone,
    Bend,
    Twist,
    Mesh,
    /// The checked names: they look at their arguments first and call a
    /// native constructor only when the arguments are in order.
    CheckedBox,
    CheckedCylinder,
    CheckedPlane3Points,
    CheckedPlaneHessian,
    /// The native constructors behind the checked names.
    NativeBox,
    NativePlaneHessian,
    NativePlane3Points,
    NativeCylinder,
}

impl Callable {
    /// Whether this is a constructor that trusts its arguments and is
    /// therefore kept away from scripts.
    pub open spec fn is_native(self) -> bool {
        self is NativeBox || self is NativePlaneHessian || self is NativePlane3Points
            || self is NativeCylinder
    }
}

/// Where a name is bound.
#[derive(Clone, Copy, Debug, PartialEq, Eq, Structural)]
pub enum Scope {
    /// In the environment that the script runs in.
    Environment,
    /// Among the interpreter's globals, which the script does not see.
    Hidden,
}

/// One name and what it is bound to.
#[derive(Debug, PartialEq)]
pub struct Binding {
    pub scope: Scope,
    pub name: String,
    pub callable: Callable,
}

/// The mathematical value of a [`Binding`].
pub ghost struct Bound {
    pub scope: Scope,
    pub name: Seq<char>,
    pub callable: Callable,
}

impl View for Binding {
    type V = Bound;

    open spec fn view(&self) -> Bound {
        Bound { scope: self.scope, name: self.name@, callable: self.callable }
    }
}

/// The values of a sequence of bindings, one by one.
pub open spec fn bounds(bindings: Seq<Binding>) -> Seq<Bound> {
    Seq::new(bindings.len(), |i: int| bindings[i]@)
}

/// Every binding, in the order in which it is made: the native
/// constructors that scripts may call, the hidden ones, and the checked
/// names in front of the hidden ones.
pub open spec fn exported() -> Seq<Bound> {
    seq![
        Bound { scope: Scope::Environment, name: "PlaneX"@, callable: Callable::Plane(Axis::X) },
        Bound { scope: Scope::Environment, name: "PlaneY"@, callable: Callable::Plane(Axis::Y) },
        Bound { scope: Scope::Environment, name: "PlaneZ"@, callable: Callable::Plane(Axis::Z) },
        Bound {
            scope: Scope::Environment,
            name: "PlaneNegX"@,
            callable: Callable::Plane(Axis::NegX),
        },
        Bound {
            scope: Scope::Environment,
            name: "PlaneNegY"@,
            callable: Callable::Plane(Axis::NegY),
        },
        Bound {
            scope: Scope::Environment,
            name: "PlaneNegZ"@,
            callable: Callable::Plane(Axis::NegZ),
        },
        Bound { scope: Scope::Environment, name: "Sphere"@, callable: Callable::Sphere },
        Bound {
            scope: Scope::Environment,
            name: "iCylinder"@,
            callable: Callable::InfiniteCylinder,
        },
        Bound { scope: Scope::Environment, name: "iCone"@, callable: Callable::InfiniteCone },
        Bound { scope: Scope::Environment, name: "Bend"@, callable: Callable::Bend },
        Bound { scope: Scope::Environment, name: "Twist"@, callable: Callable::Twist },
        Bound { scope: Scope::Environment, name: "Mesh"@, callable: Callable::Mesh },
        Bound { scope: Scope::Hidden, name: "__Box"@, callable: Callable::NativeBox },
        Bound {
            scope: Scope::Hidden,
            name: "__PlaneHessian"@,
            callable: Callable::NativePlaneHessian,
        },
        Bound {
            scope: Scope::Hidden,
            name: "__Plane3Points"@,
            callable: Callable::NativePlane3Points,
        },
        Bound { scope: Scope::Hidden, name: "__Cylinder"@, callable: Callable::NativeCylinder },
        Bound { scope: Scope::Environment, name: "Box"@, callable: Callable::CheckedBox },
        Bound { scope: Scope::Environment, name: "Cylinder"@, callable: Callable::CheckedCylinder },
        Bound {
            scope: Scope::Environment,
            name: "Plane3Points"@,
            callable: Callable::CheckedPlane3Points,
        },
        Bound {
            scope: Scope::Environment,
            name: "PlaneHessian"@,
            callable: Callable::CheckedPlaneHessian,
        },
    ]
}

/// What a script reaches under `name`: the binding of that name that was
/// made last in its environment. A later binding takes the place of an
/// earlier one of the same name.
pub open spec fn visible(table: Seq<Bound>, name: Seq<char>) -> Option<Callable>
    decreases table.len(),
{
    if table.len() == 0 {
        None
    } else if table.last().scope == Scope::Environment && table.last().name == name {
        Some(table.last().callable)
    } else {
        visible(table.drop_last(), name)
    }
}

/// What a script reaches under `name` once the four checked names are
/// bound, given what it reached before.
pub open spec fn with_aliases(before: Option<Callable>, name: Seq<char>) -> Option<Callable> {
    if name == "PlaneHessian"@ {
        Some(Callable::CheckedPlaneHessian)
    } else if name == "Plane3Points"@ {
        Some(Callable::CheckedPlane3Points)
    } else if name == "Cylinder"@ {
        Some(Callable::CheckedCylinder)
    } else if name == "Box"@ {
        Some(Callable::CheckedBox)
    } else {
        before
    }
}

/// Looks `name` up as a script would.
pub fn resolve(bindings: &Vec<Binding>, name: &str) -> (r: Option<Callable>)
    ensures
        r == visible(bounds(bindings@), name@),
{
    let key = name.to_owned();
    let ghost table = bounds(bindings@);
    let mut i: usize = bindings.len();
    assert(table.take(i as int) =~= table);
    while i > 0
        invariant
            i <= bindings.len(),
            key@ == name@,
            table == bounds(bindings@),
            visible(table, name@) == visible(table.take(i as int), name@),
        decreases i,
    {
        let ghost front = table.take(i as int);
        assert(front.last() == bindings@[i - 1]@);
        assert(front.drop_last() =~= table.take(i - 1));
        let binding = &bindings[i - 1];
        if matches!(binding.scope, Scope::Environment) && binding.name == key {
            return Some(binding.callable);
        }
        i = i - 1;
    }
    None
}

/// What a script gets when it calls `name` with `args`, as far as a check
/// decides it: nothing where the name is not bound to a checked name.
pub fn call_checked(bindings: &Vec<Binding>, name: &str, args: &Vec<Value>) -> (r: Option<
    Result<NativeCall, ScriptError>,
>)
    ensures
        r == match visible(bounds(bindings@), name@) {
            Some(callable) => checked_outcome(callable, data(args@)),
            None => None,
        },
{
    match resolve(bindings, name) {
        Some(callable) => check(callable, args),
        None => None,
    }
}

/// Binding one more name changes what that name leads to, and nothing
/// else.
pub proof fn lemma_visible_after_binding(table: Seq<Bound>, bound: Bound, name: Seq<char>)
    ensures
        visible(table.push(bound), name) == if bound.scope == Scope::Environment && bound.name
            == name {
            Some(bound.callable)
        } else {
            visible(table, name)
        },
{
    assert(table.push(bound).drop_last() =~= table);
}

fn bind(bindings: &mut Vec<Binding>, scope: Scope, name: &str, callable: Callable)
    ensures
        bounds(final(bindings)@) == bounds(old(bindings)@).push(
            Bound { scope, name: name@, callable },
        ),
{
    bindings.push(Binding { scope, name: String::from_str(name), callable });
    assert(bounds(bindings@) =~= bounds(old(bindings)@).push(
        Bound { scope, name: name@, callable },
    ));
}

impl LObject {
    /// The bindings that make the constructors available to a script.
    ///
    /// The caller registers each under its name: those of the environment
    /// in the table that the script runs in, the hidden ones among the
    /// globals.
    pub fn export_factories() -> (r: Vec<Binding>)
        ensures
            bounds(r@) == exported(),
    {
        let mut bindings: Vec<Binding> = Vec::new();
        assert(bounds(bindings@) =~= Seq::<Bound>::empty());
        bind(&mut bindings, Scope::Environment, "PlaneX", Callable::Plane(Axis::X));
        bind(&mut bindings, Scope::Environment, "PlaneY", Callable::Plane(Axis::Y));
        bind(&mut bindings, Scope::Environment, "PlaneZ", Callable::Plane(Axis::Z));
        bind(&mut bindings, Scope::Environment, "PlaneNegX", Callable::Plane(Axis::NegX));
        bind(&mut bindings, Scope::Environment, "PlaneNegY", Callable::Plane(Axis::NegY));
        bind(&mut bindings, Scope::Environment, "PlaneNegZ", Callable::Plane(Axis::NegZ));
        bind(&mut bindings, Scope::Environment, "Sphere", Callable::Sphere);
        bind(&mut bindings, Scope::Environment, "iCylinder", Callable::InfiniteCylinder);
        bind(&mut bindings, Scope::Environment, "iCone", Callable::InfiniteCone);
        bind(&mut bindings, Scope::Environment, "Bend", Callable::Bend);
        bind(&mut bindings, Scope::Environment, "Twist", Callable::Twist);
        bind(&mut bindings, Scope::Environment, "Mesh", Callable::Mesh);
        bind(&mut bindings, Scope::Hidden, "__Box", Callable::NativeBox);
        bind(&mut bindings, Scope::Hidden, "__PlaneHessian", Callable::NativePlaneHessian);
        bind(&mut bindings, Scope::Hidden, "__Plane3Points", Callable::NativePlane3Points);
        bind(&mut bindings, Scope::Hidden, "__Cylinder", Callable::NativeCylinder);
        LObject::add_aliases(&mut bindings);
        assert(bounds(bindings@) =~= exported());
        bindings
    }

    /// Binds the checked names `Box`, `Cylinder`, `Plane3Points` and
    /// `PlaneHessian` in the environment of the script.
    ///
    /// From then on each of the four leads to its check, whatever it led
    /// to before; every other name leads where it did.
    pub fn add_aliases(bindings: &mut Vec<Binding>)
        ensures
            bounds(final(bindings)@) == bounds(old(bindings)@).push(
                Bound { scope: Scope::Environment, name: "Box"@, callable: Callable::CheckedBox },
            ).push(
                Bound {
                    scope: Scope::Environment,
                    name: "Cylinder"@,
                    callable: Callable::CheckedCylinder,
                },
            ).push(
                Bound {
                    scope: Scope::Environment,
                    name: "Plane3Points"@,
                    callable: Callable::CheckedPlane3Points,
                },
            ).push(
                Bound {
                    scope: Scope::Environment,
                    name: "PlaneHessian"@,
                    callable: Callable::CheckedPlaneHessian,
                },
            ),
            forall|name: Seq<char>| #[trigger]
                visible(bounds(final(bindings)@), name) == with_aliases(
                    visible(bounds(old(bindings)@), name),
                    name,
                ),
            visible(bounds(final(bindings)@), "Box"@) == Some(Callable::CheckedBox),
            visible(bounds(final(bindings)@), "Cylinder"@) == Some(Callable::CheckedCylinder),
            visible(bounds(final(bindings)@), "Plane3Points"@) == Some(
                Callable::CheckedPlane3Points,
            ),
            visible(bounds(final(bindings)@), "PlaneHessian"@) == Some(
                Callable::CheckedPlaneHessian,
            ),
    {
        let ghost t0 = bounds(bindings@);
        bind(bindings, Scope::Environment, "Box", Callable::CheckedBox);
        let ghost t1 = bounds(bindings@);
        bind(bindings, Scope::Environment, "Cylinder", Callable::CheckedCylinder);
        let ghost t2 = bounds(bindings@);
        bind(bindings, Scope::Environment, "Plane3Points", Callable::CheckedPlane3Points);
        let ghost t3 = bounds(bindings@);
        bind(bindings, Scope::Environment, "PlaneHessian", Callable::CheckedPlaneHessian);
        proof {
            let t4 = bounds(bindings@);
            assert forall|name: Seq<char>| #[trigger]
                visible(t4, name) == with_aliases(visible(t0, name), name) by {
                lemma_visible_after_binding(t0, t1.last(), name);
                lemma_visible_after_binding(t1, t2.last(), name);
                lemma_visible_after_binding(t2, t3.last(), name);
                lemma_visible_after_binding(t3, t4.last(), name);
            }
            lemma_alias_names_differ();
        }
    }
}

/// The four checked names are four different names.
pub proof fn lemma_alias_names_differ()
    ensures
        "Box"@ != "Cylinder"@,
        "Box"@ != "Plane3Points"@,
        "Box"@ != "PlaneHessian"@,
        "Cylinder"@ != "Plane3Points"@,
        "Cylinder"@ != "PlaneHessian"@,
        "Plane3Points"@ != "PlaneHessian"@,
{
    reveal_strlit("Box");
    reveal_strlit("Cylinder");
    reveal_strlit("Plane3Points");
    reveal_strlit("PlaneHessian");
    assert("Box"@.len() == 3);
    assert("Cylinder"@.len() == 8);
    assert("Plane3Points"@.len() == 12);
    assert("PlaneHessian"@.len() == 12);
    assert("Plane3Points"@[5] == '3');
    assert("PlaneHessian"@[5] == 'H');
}

/// Once the checked names are bound, `Cylinder` without a numeric length
/// stops the script with the error about the length, whatever else was
/// passed and whatever `Cylinder` led to before.
pub proof fn lemma_cylinder_alias_needs_length(before: Option<Callable>, args: Seq<Datum>)
    requires
        !(argument(args, 0).field("l"@) is Number),
    ensures
        with_aliases(before, "Cylinder"@) == Some(Callable::CheckedCylinder),
        checked_outcome(Callable::CheckedCylinder, args) == Some(
            Err::<NativeCall, ScriptError>(ScriptError::CylinderLength),
        ),
{
    lemma_alias_names_differ();
}

/// Once the checked names are bound, `Box(x, y, z)` without a rounding
/// radius settles on what `Box(x, y, z, 0)` settles on.
pub proof fn lemma_box_alias_defaults_radius(before: Option<Callable>, x: Datum, y: Datum, z: Datum)
    ensures
        with_aliases(before, "Box"@) == Some(Callable::CheckedBox),
        checked_outcome(Callable::CheckedBox, seq![x, y, z]) == checked_outcome(
            Callable::CheckedBox,
            seq![x, y, z, Datum::Number(Number::zero())],
        ),
{
    lemma_alias_names_differ();
}

/// Once the checked names are bound, `Cylinder` with one radius `r`
/// settles on what `Cylinder` with that radius as `r1` and `r2` settles
/// on.
pub proof fn lemma_cylinder_alias_one_radius_is_both(
    before: Option<Callable>,
    one: Datum,
    both: Datum,
    radius: Number,
)
    requires
        one.field("l"@) == both.field("l"@),
        one.field("s"@) == both.field("s"@),
        one.field("r"@) == Datum::Number(radius),
        !(both.field("r"@) is Number),
        both.field("r1"@) == Datum::Number(radius),
        both.field("r2"@) == Datum::Number(radius),
    ensures
        with_aliases(before, "Cylinder"@) == Some(Callable::CheckedCylinder),
        checked_outcome(Callable::CheckedCylinder, seq![one]) == checked_outcome(
            Callable::CheckedCylinder,
            seq![both],
        ),
{
    lemma_alias_names_differ();
    assert(cylinder_outcome(one) == cylinder_outcome(both));
}

/// Whatever a script reaches by name was bound in its environment.
pub proof fn lemma_visible_is_bound(table: Seq<Bound>, name: Seq<char>)
    ensures
        visible(table, name) matches Some(callable) ==> exists|i: int|
            0 <= i < table.len() && (#[trigger] table[i]).scope == Scope::Environment
                && table[i].name == name && table[i].callable == callable,
    decreases table.len(),
{
    if table.len() > 0 && !(table.last().scope == Scope::Environment && table.last().name
        == name) {
        lemma_visible_is_bound(table.drop_last(), name);
        if visible(table, name) is Some {
            let i = choose|i: int|
                0 <= i < table.drop_last().len() && (#[trigger] table.drop_last()[i]).scope
                    == Scope::Environment && table.drop_last()[i].name == name
                    && table.drop_last()[i].callable == visible(table, name)->Some_0;
            assert(table[i] == table.drop_last()[i]);
        }
    }
}

/// No name leads a script to a constructor that trusts its arguments.
pub proof fn lemma_natives_stay_hidden(name: Seq<char>)
    ensures
        visible(exported(), name) matches Some(callable) ==> !callable.is_native(),
{
    lemma_visible_is_bound(exported(), name);
}

} // verus!
