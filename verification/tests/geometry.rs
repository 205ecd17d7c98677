use implicit3d::Bender;
use implicit3d::BoundingBox;
use implicit3d::Cone;
use implicit3d::Cylinder;
use implicit3d::Intersection;
use implicit3d::Mesh;
use implicit3d::NormalPlane;
use implicit3d::Object;
use implicit3d::PlaneNegX;
use implicit3d::PlaneNegY;
use implicit3d::PlaneNegZ;
use implicit3d::PlaneX;
use implicit3d::PlaneY;
use implicit3d::PlaneZ;
use implicit3d::Sphere;
use implicit3d::Twister;
use luascad::alias::check_box;
use luascad::alias::check_cylinder;
use luascad::alias::NativeCall;
use luascad::console::Console;
use luascad::factory::box_from_planes;
use luascad::factory::cylinder;
use luascad::factory::mesh;
use luascad::factory::sphere;
use luascad::factory::Body;
use luascad::lobject::LObject;
use luascad::number::Number;
use luascad::number::Vector;
use luascad::shape::Axis;
use luascad::shape::Shape;
use luascad::value::Entry;
use luascad::value::Value;
use nalgebra::Point3;
use nalgebra::Vector3;

const TOLERANCE: f64 = 1e-9;

fn pack(value: f64) -> Number {
    Number::from_bits(value.to_bits())
}

fn unpack(number: Number) -> f64 {
    f64::from_bits(number.to_bits())
}

fn point_of(v: &Vector) -> Point3<f64> {
    Point3::new(unpack(v.x), unpack(v.y), unpack(v.z))
}

fn vector_of(v: &Vector) -> Vector3<f64> {
    Vector3::new(unpack(v.x), unpack(v.y), unpack(v.z))
}

fn realize(shape: &Shape) -> Option<Box<dyn Object<f64>>> {
    Some(match shape {
        Shape::Plane { axis, distance } => {
            let d = unpack(*distance);
            match axis {
                Axis::X => Box::new(PlaneX::new(d)),
                Axis::Y => Box::new(PlaneY::new(d)),
                Axis::Z => Box::new(PlaneZ::new(d)),
                Axis::NegX => Box::new(PlaneNegX::new(d)),
                Axis::NegY => Box::new(PlaneNegY::new(d)),
                Axis::NegZ => Box::new(PlaneNegZ::new(d)),
            }
        }
        Shape::NormalPlane { normal, p } => {
            Box::new(NormalPlane::from_normal_and_p(vector_of(normal), unpack(*p)))
        }
        Shape::PlaneThrough { a, b, c } => {
            Box::new(NormalPlane::from_3_points(&point_of(a), &point_of(b), &point_of(c)))
        }
        Shape::Sphere { radius } => Box::new(Sphere::new(unpack(*radius))),
        Shape::Cylinder { radius } => Box::new(Cylinder::new(unpack(*radius))),
        Shape::Cone { slope, offset, bounds } => {
            let mut cone = Cone::new(unpack(*slope), unpack(*offset));
            if let Some(bounds) = bounds {
                cone.set_bbox(&BoundingBox::new(&point_of(&bounds.low), &point_of(&bounds.high)));
            }
            Box::new(cone)
        }
        Shape::Intersection { children, smooth } => {
            let mut parts = Vec::new();
            for child in children {
                parts.push(realize(child)?);
            }
            return Intersection::from_vec(parts, unpack(*smooth));
        }
        Shape::Bend { child, width } => Box::new(Bender::new(realize(child)?, unpack(*width))),
        Shape::Twist { child, height } => Box::new(Twister::new(realize(child)?, unpack(*height))),
        Shape::Mesh { path } => Box::new(Mesh::<f64>::try_new(path).ok()?),
        Shape::Translated { child, by } => realize(child)?.translate(&vector_of(by)),
        Shape::Rotated { child, by } => realize(child)?.rotate(&vector_of(by)),
        Shape::Scaled { child, by } => realize(child)?.scale(&vector_of(by)),
    })
}

fn built(handle: &LObject) -> Box<dyn Object<f64>> {
    realize(handle.o.as_ref().unwrap()).unwrap()
}

fn at(object: &dyn Object<f64>, x: f64, y: f64, z: f64) -> f64 {
    object.approx_value(&Point3::new(x, y, z), f64::INFINITY)
}

fn halves(call: NativeCall) -> (Vector, Number) {
    match call {
        NativeCall::Box { x, y, z, smooth } => (
            Vector {
                x: pack(unpack(x) / 2.0),
                y: pack(unpack(y) / 2.0),
                z: pack(unpack(z) / 2.0),
            },
            smooth,
        ),
        _ => panic!("not a box"),
    }
}

fn body_of(call: NativeCall) -> (Body, Number, Number) {
    match call {
        NativeCall::Cylinder { length, radius1, radius2, smooth } => {
            let (length, radius1, radius2) = (unpack(length), unpack(radius1), unpack(radius2));
            let body = if (radius1 - radius2).abs() < f64::EPSILON {
                Body::Straight { radius: pack(radius1) }
            } else {
                let slope = (radius2 - radius1).abs() / length;
                let offset = if radius1 < radius2 {
                    -radius1 / slope - length * 0.5
                } else {
                    radius2 / slope + length * 0.5
                };
                Body::Tapered {
                    slope: pack(slope),
                    offset: pack(offset),
                    widest: pack(radius1.max(radius2)),
                }
            };
            (body, pack(length / 2.0), smooth)
        }
        _ => panic!("not a cylinder"),
    }
}

fn table(fields: Vec<(&str, f64)>) -> Value {
    Value::Table(
        fields
            .into_iter()
            .map(|(name, value)| Entry {
                key: Value::Text(name.to_string()),
                value: Value::Number(pack(value)),
            })
            .collect(),
    )
}

#[test]
fn sphere_box_holds_the_sphere_and_the_surface_is_at_zero() {
    for radius in [0.25, 1.0, 2.0, 10.0, 1234.5] {
        let object = built(&sphere(pack(radius)));
        let surface = [
            (radius, 0.0, 0.0),
            (-radius, 0.0, 0.0),
            (0.0, radius, 0.0),
            (0.0, -radius, 0.0),
            (0.0, 0.0, radius),
            (0.0, 0.0, -radius),
        ];
        for (x, y, z) in surface {
            assert!(object.bbox().contains(&Point3::new(x, y, z)));
            assert!(at(&*object, x, y, z).abs() <= TOLERANCE * radius.max(1.0));
        }
        assert!(object.bbox().is_finite());
        assert!(at(&*object, 0.0, 0.0, 0.0) < 0.0);
        assert!(at(&*object, 2.0 * radius, 0.0, 0.0) > 0.0);
    }
}

#[test]
fn sharp_box_is_the_exact_box() {
    let number = |v: f64| Value::Number(pack(v));
    let call = check_box(&number(2.0), &number(4.0), &number(6.0), &Value::Nil).unwrap();
    let (half, smooth) = halves(call);
    assert_eq!(unpack(smooth), 0.0);
    let object = built(&box_from_planes(half, smooth));

    for (x, y, z) in [(0.0, 0.0, 0.0), (0.9, 1.9, 2.9), (-0.9, -1.9, -2.9), (0.5, -1.0, 2.0)] {
        assert!(at(&*object, x, y, z) < 0.0, "({x}, {y}, {z}) is inside");
    }
    for (x, y, z) in [
        (1.1, 0.0, 0.0),
        (-1.1, 0.0, 0.0),
        (0.0, 2.1, 0.0),
        (0.0, -2.1, 0.0),
        (0.0, 0.0, 3.1),
        (0.0, 0.0, -3.1),
        (5.0, 5.0, 5.0),
    ] {
        assert!(at(&*object, x, y, z) > 0.0, "({x}, {y}, {z}) is outside");
    }
    for (x, y, z) in [(1.0, 0.0, 0.0), (0.0, -2.0, 0.0), (0.0, 0.0, 3.0)] {
        assert!(at(&*object, x, y, z).abs() <= TOLERANCE);
    }
    assert_eq!(object.bbox().min, Point3::new(-1.0, -2.0, -3.0));
    assert_eq!(object.bbox().max, Point3::new(1.0, 2.0, 3.0));
}

#[test]
fn cylinder_with_one_radius_is_the_cylinder_with_two_equal_radii() {
    let one = check_cylinder(&table(vec![("l", 4.0), ("r", 2.0)])).unwrap();
    let both = check_cylinder(&table(vec![("l", 4.0), ("r1", 2.0), ("r2", 2.0)])).unwrap();
    let (body_one, half_one, smooth_one) = body_of(one);
    let (body_both, half_both, smooth_both) = body_of(both);
    assert_eq!(body_one, Body::Straight { radius: pack(2.0) });
    assert_eq!(unpack(half_one), 2.0);
    let first = cylinder(body_one, half_one, smooth_one);
    let second = cylinder(body_both, half_both, smooth_both);
    assert_eq!(first, second);

    let (first, second) = (built(&first), built(&second));
    let samples = [
        (0.0, 0.0, 0.0),
        (2.0, 0.0, 0.0),
        (0.0, 2.0, 1.0),
        (1.0, 1.0, 2.0),
        (0.0, 0.0, 2.0),
        (0.0, 0.0, -2.0),
        (0.0, 0.0, 3.0),
        (3.0, 0.0, 0.0),
        (-1.5, 0.5, -1.9),
    ];
    for (x, y, z) in samples {
        assert_eq!(at(&*first, x, y, z), at(&*second, x, y, z));
    }
    assert!(at(&*first, 0.0, 0.0, 0.0) < 0.0);
    assert!(at(&*first, 2.0, 0.0, 0.0).abs() <= TOLERANCE);
    assert!(at(&*first, 0.0, 0.0, 2.0).abs() <= TOLERANCE);
    assert!(at(&*first, 0.0, 0.0, -2.0).abs() <= TOLERANCE);
    assert!(at(&*first, 0.0, 0.0, 2.5) > 0.0);
    assert!(at(&*first, 0.0, 0.0, -2.5) > 0.0);
    assert!(at(&*first, 2.5, 0.0, 0.0) > 0.0);
    assert_eq!(first.bbox().min, Point3::new(-2.0, -2.0, -2.0));
    assert_eq!(first.bbox().max, Point3::new(2.0, 2.0, 2.0));
}

#[test]
fn cone_between_radius_one_and_three() {
    let call = check_cylinder(&table(vec![("l", 4.0), ("r1", 1.0), ("r2", 3.0)])).unwrap();
    let (body, half, smooth) = body_of(call);
    assert_eq!(
        body,
        Body::Tapered { slope: pack(0.5), offset: pack(-4.0), widest: pack(3.0) }
    );
    let object = built(&cylinder(body, half, smooth));
    assert_eq!(object.bbox().min, Point3::new(-3.0, -3.0, -2.0));
    assert_eq!(object.bbox().max, Point3::new(3.0, 3.0, 2.0));
    assert!(object.bbox().is_finite());

    for (x, y, z) in [(1.0, 0.0, 2.0), (0.0, -1.0, 2.0), (3.0, 0.0, -2.0), (0.0, 3.0, -2.0)] {
        assert!(at(&*object, x, y, z).abs() <= TOLERANCE, "({x}, {y}, {z}) is on a rim");
    }
    assert!(at(&*object, 2.0, 0.0, 0.0).abs() <= TOLERANCE);
    assert!(at(&*object, 0.0, 0.0, 0.0) < 0.0);
    assert!(at(&*object, 2.5, 0.0, 0.0) > 0.0);
    assert!(at(&*object, 0.0, 0.0, 2.5) > 0.0);
}

#[test]
fn cone_between_radius_three_and_one() {
    let call = check_cylinder(&table(vec![("l", 4.0), ("r1", 3.0), ("r2", 1.0)])).unwrap();
    let (body, half, smooth) = body_of(call);
    assert_eq!(
        body,
        Body::Tapered { slope: pack(0.5), offset: pack(4.0), widest: pack(3.0) }
    );
    let object = built(&cylinder(body, half, smooth));
    for (x, y, z) in [(1.0, 0.0, -2.0), (3.0, 0.0, 2.0)] {
        assert!(at(&*object, x, y, z).abs() <= TOLERANCE, "({x}, {y}, {z}) is on a rim");
    }
}

#[test]
fn two_translations_are_one_translation_by_the_sum() {
    let (half, smooth) = (Vector { x: pack(1.0), y: pack(2.0), z: pack(3.0) }, pack(0.0));
    let objects = [sphere(pack(1.5)), box_from_planes(half, smooth)];
    for mut object in objects {
        let mut once = object.translate(pack(1.0), pack(-2.0), pack(0.5));
        let twice = once.translate(pack(0.25), pack(4.0), pack(-1.0));
        let summed = object.translate(pack(1.25), pack(2.0), pack(-0.5));
        let (twice, summed) = (built(&twice), built(&summed));
        for (x, y, z) in [(0.0, 0.0, 0.0), (1.25, 2.0, -0.5), (3.0, 1.0, -2.0), (-4.0, 7.0, 0.1)] {
            assert!((at(&*twice, x, y, z) - at(&*summed, x, y, z)).abs() <= TOLERANCE);
        }
    }
}

#[test]
fn translating_a_clone_does_not_move_the_first_object() {
    let kept = sphere(pack(1.0));
    let before: Vec<f64> = [(0.0, 0.0, 0.0), (1.0, 0.0, 0.0), (5.0, 5.0, 5.0)]
        .iter()
        .map(|&(x, y, z)| at(&*built(&kept), x, y, z))
        .collect();
    let mut copy = kept.clone();
    let moved = copy.translate(pack(5.0), pack(5.0), pack(5.0));
    let after: Vec<f64> = [(0.0, 0.0, 0.0), (1.0, 0.0, 0.0), (5.0, 5.0, 5.0)]
        .iter()
        .map(|&(x, y, z)| at(&*built(&kept), x, y, z))
        .collect();
    assert_eq!(before, after);
    assert!(at(&*built(&moved), 5.0, 5.0, 5.0) < 0.0);
    assert!(at(&*built(&kept), 5.0, 5.0, 5.0) > 0.0);
}

#[test]
fn mesh_at_a_path_that_does_not_exist() {
    let path = "/nonexistent/path";
    let outcome = match Mesh::<f64>::try_new(path) {
        Ok(_) => Ok(()),
        Err(e) => Err(format!("{:}", e)),
    };
    assert!(outcome.is_err());
    let reason = outcome.clone().unwrap_err();
    let mut console = Console::new();
    let handle = mesh(path.to_string(), outcome, &mut console);
    assert!(handle.is_empty());
    assert_eq!(console.take(), vec![format!("Could not read mesh: {}", reason)]);
}

#[test]
fn box_with_a_negative_smooth_is_the_sharp_box() {
    let number = |v: f64| Value::Number(pack(v));
    let rounded = check_box(&number(2.0), &number(2.0), &number(2.0), &number(-1.0)).unwrap();
    let sharp = check_box(&number(2.0), &number(2.0), &number(2.0), &Value::Nil).unwrap();
    assert_eq!(rounded, sharp);
    let (half, smooth) = halves(rounded);
    assert_eq!(unpack(smooth), 0.0);
    let object = built(&box_from_planes(half, pack(-1.0)));
    let reference = built(&box_from_planes(half, pack(0.0)));
    for (x, y, z) in [(0.0, 0.0, 0.0), (1.0, 0.0, 0.0), (1.5, 1.5, 1.5), (0.9, 0.9, 0.9)] {
        assert_eq!(at(&*object, x, y, z), at(&*reference, x, y, z));
    }
}
