//! The Python classes of the module: their names, what their constructors
//! take, the fields they present as a dataclass, and the names (canonical
//! and alias) under which the module exports them.

use vstd::prelude::*;
use vstd::string::StringExecFns;
use crate::arguments::{distinct_names, Param};

verus! {

/// A class that the module exports.
#[derive(Debug, Clone, Copy, PartialEq, Eq, Structural, Hash)]
pub enum WrapperClass {
    EulerRot,
    Vec2,
    Vec3,
    Vec4,
    Quat,
    Mat3,
    Mat4,
    Affine3,
    Sphere,
    Capsule,
    Cuboid,
    Cylinder,
    ConvexPolytope,
    ConvexPolygon,
    Line,
    Ray,
    LineSegment,
    Plane,
    Pointcloud,
    SphereCollection,
    Collider,
    Shape,
    Interval,
    Nearest,
    QuadraticBezier,
    CubicBezier,
    Polyline,
    Spline,
}

/// The class's Python name (its `__name__`).
pub open spec fn class_name(c: WrapperClass) -> Seq<char> {
    match c {
        WrapperClass::EulerRot => "EulerRot"@,
        WrapperClass::Vec2 => "Vec2"@,
        WrapperClass::Vec3 => "Vec3"@,
        WrapperClass::Vec4 => "Vec4"@,
        WrapperClass::Quat => "Quat"@,
        WrapperClass::Mat3 => "Mat3"@,
        WrapperClass::Mat4 => "Mat4"@,
        WrapperClass::Affine3 => "Affine3"@,
        WrapperClass::Sphere => "Sphere"@,
        WrapperClass::Capsule => "Capsule"@,
        WrapperClass::Cuboid => "Cuboid"@,
        WrapperClass::Cylinder => "Cylinder"@,
        WrapperClass::ConvexPolytope => "ConvexPolytope"@,
        WrapperClass::ConvexPolygon => "ConvexPolygon"@,
        WrapperClass::Line => "Line"@,
        WrapperClass::Ray => "Ray"@,
        WrapperClass::LineSegment => "LineSegment"@,
        WrapperClass::Plane => "Plane"@,
        WrapperClass::Pointcloud => "Pointcloud"@,
        WrapperClass::SphereCollection => "SphereCollection"@,
        WrapperClass::Collider => "Collider"@,
        WrapperClass::Shape => "Shape"@,
        WrapperClass::Interval => "Interval"@,
        WrapperClass::Nearest => "Nearest"@,
        WrapperClass::QuadraticBezier => "QuadraticBezier"@,
        WrapperClass::CubicBezier => "CubicBezier"@,
        WrapperClass::Polyline => "Polyline"@,
        WrapperClass::Spline => "Spline"@,
    }
}

/// The constructor's parameters, in order, each with whether it is
/// required; `None` for a class that Python code cannot instantiate.
pub open spec fn constructor_spec(c: WrapperClass) -> Option<Seq<(Seq<char>, bool)>> {
    match c {
        WrapperClass::EulerRot => None,
        WrapperClass::Vec2 => Some(seq![("x"@, false), ("y"@, false)]),
        WrapperClass::Vec3 => Some(seq![("x"@, false), ("y"@, false), ("z"@, false)]),
        WrapperClass::Vec4 => Some(seq![("x"@, false), ("y"@, false), ("z"@, false), ("w"@, false)]),
        WrapperClass::Quat => Some(seq![("x"@, false), ("y"@, false), ("z"@, false), ("w"@, false)]),
        WrapperClass::Mat3 => Some(seq![("x_axis"@, true), ("y_axis"@, true), ("z_axis"@, true)]),
        WrapperClass::Mat4 => Some(seq![("x_axis"@, true), ("y_axis"@, true), ("z_axis"@, true), ("w_axis"@, true)]),
        WrapperClass::Affine3 => Some(seq![("translation"@, true), ("rotation"@, true)]),
        WrapperClass::Sphere => Some(seq![("center"@, true), ("radius"@, true)]),
        WrapperClass::Capsule => Some(seq![("p1"@, true), ("p2"@, true), ("radius"@, true)]),
        WrapperClass::Cuboid => Some(seq![("center"@, true), ("axes"@, true), ("half_extents"@, true)]),
        WrapperClass::Cylinder => Some(seq![("p1"@, true), ("p2"@, true), ("radius"@, true)]),
        WrapperClass::ConvexPolytope => Some(seq![("planes"@, true), ("vertices"@, true)]),
        WrapperClass::ConvexPolygon => Some(seq![("center"@, true), ("normal"@, true), ("vertices_2d"@, true)]),
        WrapperClass::Line => Some(seq![("origin"@, true), ("dir"@, true)]),
        WrapperClass::Ray => Some(seq![("origin"@, true), ("dir"@, true)]),
        WrapperClass::LineSegment => Some(seq![("p1"@, true), ("p2"@, true)]),
        WrapperClass::Plane => Some(seq![("normal"@, true), ("d"@, false)]),
        WrapperClass::Pointcloud => Some(seq![("points"@, true), ("r_range"@, false), ("point_radius"@, false)]),
        WrapperClass::SphereCollection => Some(seq![]),
        WrapperClass::Collider => Some(seq![]),
        WrapperClass::Shape => None,
        WrapperClass::Interval => Some(seq![("min"@, true), ("max"@, true)]),
        WrapperClass::Nearest => Some(seq![("t"@, true), ("point"@, true), ("dist_sq"@, true)]),
        WrapperClass::QuadraticBezier => Some(seq![("p0"@, true), ("p1"@, true), ("p2"@, true)]),
        WrapperClass::CubicBezier => Some(seq![("p0"@, true), ("p1"@, true), ("p2"@, true), ("p3"@, true)]),
        WrapperClass::Polyline => Some(seq![("points"@, false)]),
        WrapperClass::Spline => Some(seq![("points"@, false)]),
    }
}

/// The field names that the class presents as a dataclass, in order.
pub open spec fn field_names(c: WrapperClass) -> Seq<Seq<char>> {
    match c {
        WrapperClass::EulerRot => seq![],
        WrapperClass::Vec2 => seq!["x"@, "y"@],
        WrapperClass::Vec3 => seq!["x"@, "y"@, "z"@],
        WrapperClass::Vec4 => seq!["x"@, "y"@, "z"@, "w"@],
        WrapperClass::Quat => seq!["x"@, "y"@, "z"@, "w"@],
        WrapperClass::Mat3 => seq!["x_axis"@, "y_axis"@, "z_axis"@],
        WrapperClass::Mat4 => seq!["x_axis"@, "y_axis"@, "z_axis"@, "w_axis"@],
        WrapperClass::Affine3 => seq!["matrix3"@, "translation"@],
        WrapperClass::Sphere => seq!["center"@, "radius"@],
        WrapperClass::Capsule => seq!["p1"@, "p2"@, "radius"@],
        WrapperClass::Cuboid => seq!["center"@, "axes"@, "half_extents"@],
        WrapperClass::Cylinder => seq!["p1"@, "p2"@, "radius"@],
        WrapperClass::ConvexPolytope => seq!["planes"@, "vertices"@],
        WrapperClass::ConvexPolygon => seq!["center"@, "normal"@, "u_axis"@, "v_axis"@, "vertices_2d"@],
        WrapperClass::Line => seq!["origin"@, "dir"@],
        WrapperClass::Ray => seq!["origin"@, "dir"@],
        WrapperClass::LineSegment => seq!["p1"@, "p2"@],
        WrapperClass::Plane => seq!["normal"@, "d"@],
        WrapperClass::Pointcloud => seq![],
        WrapperClass::SphereCollection => seq![],
        WrapperClass::Collider => seq![],
        WrapperClass::Shape => seq![],
        WrapperClass::Interval => seq!["min"@, "max"@],
        WrapperClass::Nearest => seq!["t"@, "point"@, "dist_sq"@],
        WrapperClass::QuadraticBezier => seq!["points"@],
        WrapperClass::CubicBezier => seq!["points"@],
        WrapperClass::Polyline => seq!["points"@],
        WrapperClass::Spline => seq!["points"@],
    }
}

/// The class that the module attribute `name` refers to: every class is
/// exported under its own name, and some also under an alias.
pub open spec fn export_class(name: Seq<char>) -> Option<WrapperClass> {
    if name == "EulerRot"@ {
        Some(WrapperClass::EulerRot)
    } else if name == "Vec2"@ {
        Some(WrapperClass::Vec2)
    } else if name == "Vec3"@ {
        Some(WrapperClass::Vec3)
    } else if name == "Vec4"@ {
        Some(WrapperClass::Vec4)
    } else if name == "Quat"@ {
        Some(WrapperClass::Quat)
    } else if name == "Mat3"@ {
        Some(WrapperClass::Mat3)
    } else if name == "Mat4"@ {
        Some(WrapperClass::Mat4)
    } else if name == "Affine3"@ {
        Some(WrapperClass::Affine3)
    } else if name == "Sphere"@ {
        Some(WrapperClass::Sphere)
    } else if name == "Capsule"@ {
        Some(WrapperClass::Capsule)
    } else if name == "Cuboid"@ {
        Some(WrapperClass::Cuboid)
    } else if name == "Cylinder"@ {
        Some(WrapperClass::Cylinder)
    } else if name == "ConvexPolytope"@ {
        Some(WrapperClass::ConvexPolytope)
    } else if name == "ConvexPolygon"@ {
        Some(WrapperClass::ConvexPolygon)
    } else if name == "Line"@ {
        Some(WrapperClass::Line)
    } else if name == "Ray"@ {
        Some(WrapperClass::Ray)
    } else if name == "LineSegment"@ {
        Some(WrapperClass::LineSegment)
    } else if name == "Plane"@ {
        Some(WrapperClass::Plane)
    } else if name == "Pointcloud"@ {
        Some(WrapperClass::Pointcloud)
    } else if name == "SphereCollection"@ {
        Some(WrapperClass::SphereCollection)
    } else if name == "Collider"@ {
        Some(WrapperClass::Collider)
    } else if name == "Shape"@ {
        Some(WrapperClass::Shape)
    } else if name == "Interval"@ {
        Some(WrapperClass::Interval)
    } else if name == "Nearest"@ {
        Some(WrapperClass::Nearest)
    } else if name == "QuadraticBezier"@ {
        Some(WrapperClass::QuadraticBezier)
    } else if name == "CubicBezier"@ {
        Some(WrapperClass::CubicBezier)
    } else if name == "Polyline"@ {
        Some(WrapperClass::Polyline)
    } else if name == "Spline"@ {
        Some(WrapperClass::Spline)
    } else if name == "Quaternion"@ {
        Some(WrapperClass::Quat)
    } else if name == "Rotation3d"@ {
        Some(WrapperClass::Mat3)
    } else if name == "Translation3d"@ {
        Some(WrapperClass::Vec3)
    } else if name == "Transform3d"@ {
        Some(WrapperClass::Affine3)
    } else if name == "Box3d"@ {
        Some(WrapperClass::Cuboid)
    } else if name == "Sphere3d"@ {
        Some(WrapperClass::Sphere)
    } else if name == "Cylinder3d"@ {
        Some(WrapperClass::Cylinder)
    } else if name == "ObstacleUnion"@ {
        Some(WrapperClass::Collider)
    } else if name == "PointCloud"@ {
        Some(WrapperClass::Pointcloud)
    } else {
        None
    }
}

fn param(name: &str, required: bool) -> (p: Param)
    ensures
        p.name@ == name@,
        p.required == required,
{
    Param { name: String::from_str(name), required }
}

impl WrapperClass {
    /// The class's Python name.
    pub fn python_name(self) -> (r: &'static str)
        ensures
            r@ == class_name(self),
    {
        match self {
            WrapperClass::EulerRot => "EulerRot",
            WrapperClass::Vec2 => "Vec2",
            WrapperClass::Vec3 => "Vec3",
            WrapperClass::Vec4 => "Vec4",
            WrapperClass::Quat => "Quat",
            WrapperClass::Mat3 => "Mat3",
            WrapperClass::Mat4 => "Mat4",
            WrapperClass::Affine3 => "Affine3",
            WrapperClass::Sphere => "Sphere",
            WrapperClass::Capsule => "Capsule",
            WrapperClass::Cuboid => "Cuboid",
            WrapperClass::Cylinder => "Cylinder",
            WrapperClass::ConvexPolytope => "ConvexPolytope",
            WrapperClass::ConvexPolygon => "ConvexPolygon",
            WrapperClass::Line => "Line",
            WrapperClass::Ray => "Ray",
            WrapperClass::LineSegment => "LineSegment",
            WrapperClass::Plane => "Plane",
            WrapperClass::Pointcloud => "Pointcloud",
            WrapperClass::SphereCollection => "SphereCollection",
            WrapperClass::Collider => "Collider",
            WrapperClass::Shape => "Shape",
            WrapperClass::Interval => "Interval",
            WrapperClass::Nearest => "Nearest",
            WrapperClass::QuadraticBezier => "QuadraticBezier",
            WrapperClass::CubicBezier => "CubicBezier",
            WrapperClass::Polyline => "Polyline",
            WrapperClass::Spline => "Spline",
        }
    }

    /// The constructor's parameters; `None` when Python code cannot
    /// instantiate the class.
    pub fn constructor_params(self) -> (r: Option<Vec<Param>>)
        ensures
            r is Some <==> constructor_spec(self) is Some,
            r matches Some(ps) ==> ps@.len() == constructor_spec(self)->Some_0.len() && forall|i: int|
                0 <= i < ps@.len() ==> (#[trigger] ps@[i]).name@ == constructor_spec(self)->Some_0[i].0
                    && ps@[i].required == constructor_spec(self)->Some_0[i].1,
            r matches Some(ps) ==> distinct_names(ps@),
    {
        let r = match self {
            WrapperClass::EulerRot => None,
            WrapperClass::Vec2 => {
                let mut v: Vec<Param> = Vec::new();
                v.push(param("x", false));
                v.push(param("y", false));
                Some(v)
            },
            WrapperClass::Vec3 => {
                let mut v: Vec<Param> = Vec::new();
                v.push(param("x", false));
                v.push(param("y", false));
                v.push(param("z", false));
                Some(v)
            },
            WrapperClass::Vec4 => {
                let mut v: Vec<Param> = Vec::new();
                v.push(param("x", false));
                v.push(param("y", false));
                v.push(param("z", false));
                v.push(param("w", false));
                Some(v)
            },
            WrapperClass::Quat => {
                let mut v: Vec<Param> = Vec::new();
                v.push(param("x", false));
                v.push(param("y", false));
                v.push(param("z", false));
                v.push(param("w", false));
                Some(v)
            },
            WrapperClass::Mat3 => {
                let mut v: Vec<Param> = Vec::new();
                v.push(param("x_axis", true));
                v.push(param("y_axis", true));
                v.push(param("z_axis", true));
                Some(v)
            },
            WrapperClass::Mat4 => {
                let mut v: Vec<Param> = Vec::new();
                v.push(param("x_axis", true));
                v.push(param("y_axis", true));
                v.push(param("z_axis", true));
                v.push(param("w_axis", true));
                Some(v)
            },
            WrapperClass::Affine3 => {
                let mut v: Vec<Param> = Vec::new();
                v.push(param("translation", true));
                v.push(param("rotation", true));
                Some(v)
            },
            WrapperClass::Sphere => {
                let mut v: Vec<Param> = Vec::new();
                v.push(param("center", true));
                v.push(param("radius", true));
                Some(v)
            },
            WrapperClass::Capsule => {
                let mut v: Vec<Param> = Vec::new();
                v.push(param("p1", true));
                v.push(param("p2", true));
                v.push(param("radius", true));
                Some(v)
            },
            WrapperClass::Cuboid => {
                let mut v: Vec<Param> = Vec::new();
                v.push(param("center", true));
                v.push(param("axes", true));
                v.push(param("half_extents", true));
                Some(v)
            },
            WrapperClass::Cylinder => {
                let mut v: Vec<Param> = Vec::new();
                v.push(param("p1", true));
                v.push(param("p2", true));
                v.push(param("radius", true));
                Some(v)
            },
            WrapperClass::ConvexPolytope => {
                let mut v: Vec<Param> = Vec::new();
                v.push(param("planes", true));
                v.push(param("vertices", true));
                Some(v)
            },
            WrapperClass::ConvexPolygon => {
                let mut v: Vec<Param> = Vec::new();
                v.push(param("center", true));
                v.push(param("normal", true));
                v.push(param("vertices_2d", true));
                Some(v)
            },
            WrapperClass::Line => {
                let mut v: Vec<Param> = Vec::new();
                v.push(param("origin", true));
                v.push(param("dir", true));
                Some(v)
            },
            WrapperClass::Ray => {
                let mut v: Vec<Param> = Vec::new();
                v.push(param("origin", true));
                v.push(param("dir", true));
                Some(v)
            },
            WrapperClass::LineSegment => {
                let mut v: Vec<Param> = Vec::new();
                v.push(param("p1", true));
                v.push(param("p2", true));
                Some(v)
            },
            WrapperClass::Plane => {
                let mut v: Vec<Param> = Vec::new();
                v.push(param("normal", true));
                v.push(param("d", false));
                Some(v)
            },
            WrapperClass::Pointcloud => {
                let mut v: Vec<Param> = Vec::new();
                v.push(param("points", true));
                v.push(param("r_range", false));
                v.push(param("point_radius", false));
                Some(v)
            },
            WrapperClass::SphereCollection => {
                let mut v: Vec<Param> = Vec::new();
                Some(v)
            },
            WrapperClass::Collider => {
                let mut v: Vec<Param> = Vec::new();
                Some(v)
            },
            WrapperClass::Shape => None,
            WrapperClass::Interval => {
                let mut v: Vec<Param> = Vec::new();
                v.push(param("min", true));
                v.push(param("max", true));
                Some(v)
            },
            WrapperClass::Nearest => {
                let mut v: Vec<Param> = Vec::new();
                v.push(param("t", true));
                v.push(param("point", true));
                v.push(param("dist_sq", true));
                Some(v)
            },
            WrapperClass::QuadraticBezier => {
                let mut v: Vec<Param> = Vec::new();
                v.push(param("p0", true));
                v.push(param("p1", true));
                v.push(param("p2", true));
                Some(v)
            },
            WrapperClass::CubicBezier => {
                let mut v: Vec<Param> = Vec::new();
                v.push(param("p0", true));
                v.push(param("p1", true));
                v.push(param("p2", true));
                v.push(param("p3", true));
                Some(v)
            },
            WrapperClass::Polyline => {
                let mut v: Vec<Param> = Vec::new();
                v.push(param("points", false));
                Some(v)
            },
            WrapperClass::Spline => {
                let mut v: Vec<Param> = Vec::new();
                v.push(param("points", false));
                Some(v)
            },
        };
        proof {
            lemma_constructor_names_distinct(self);
            if r is Some {
                let ps = r->Some_0;
                let spec = constructor_spec(self)->Some_0;
                assert forall|x: int, y: int| 0 <= x < y < ps@.len() implies ps@[x].name@ != ps@[
                    y
                ].name@ by {
                    assert(ps@[x].name@ == spec[x].0);
                    assert(ps@[y].name@ == spec[y].0);
                }
            }
        }
        r
    }

    /// The field names that the class presents as a dataclass
    /// (`__dataclass_fields__`, and the keys of `__dict__`).
    pub fn dataclass_fields(self) -> (r: Vec<String>)
        ensures
            r@.len() == field_names(self).len(),
            forall|i: int| 0 <= i < r@.len() ==> (#[trigger] r@[i])@ == field_names(self)[i],
    {
        let mut v: Vec<String> = Vec::new();
        match self {
            WrapperClass::EulerRot => {  },
            WrapperClass::Vec2 => { v.push(String::from_str("x")); v.push(String::from_str("y")); },
            WrapperClass::Vec3 => { v.push(String::from_str("x")); v.push(String::from_str("y")); v.push(String::from_str("z")); },
            WrapperClass::Vec4 => { v.push(String::from_str("x")); v.push(String::from_str("y")); v.push(String::from_str("z")); v.push(String::from_str("w")); },
            WrapperClass::Quat => { v.push(String::from_str("x")); v.push(String::from_str("y")); v.push(String::from_str("z")); v.push(String::from_str("w")); },
            WrapperClass::Mat3 => { v.push(String::from_str("x_axis")); v.push(String::from_str("y_axis")); v.push(String::from_str("z_axis")); },
            WrapperClass::Mat4 => { v.push(String::from_str("x_axis")); v.push(String::from_str("y_axis")); v.push(String::from_str("z_axis")); v.push(String::from_str("w_axis")); },
            WrapperClass::Affine3 => { v.push(String::from_str("matrix3")); v.push(String::from_str("translation")); },
            WrapperClass::Sphere => { v.push(String::from_str("center")); v.push(String::from_str("radius")); },
            WrapperClass::Capsule => { v.push(String::from_str("p1")); v.push(String::from_str("p2")); v.push(String::from_str("radius")); },
            WrapperClass::Cuboid => { v.push(String::from_str("center")); v.push(String::from_str("axes")); v.push(String::from_str("half_extents")); },
            WrapperClass::Cylinder => { v.push(String::from_str("p1")); v.push(String::from_str("p2")); v.push(String::from_str("radius")); },
            WrapperClass::ConvexPolytope => { v.push(String::from_str("planes")); v.push(String::from_str("vertices")); },
            WrapperClass::ConvexPolygon => { v.push(String::from_str("center")); v.push(String::from_str("normal")); v.push(String::from_str("u_axis")); v.push(String::from_str("v_axis")); v.push(String::from_str("vertices_2d")); },
            WrapperClass::Line => { v.push(String::from_str("origin")); v.push(String::from_str("dir")); },
            WrapperClass::Ray => { v.push(String::from_str("origin")); v.push(String::from_str("dir")); },
            WrapperClass::LineSegment => { v.push(String::from_str("p1")); v.push(String::from_str("p2")); },
            WrapperClass::Plane => { v.push(String::from_str("normal")); v.push(String::from_str("d")); },
            WrapperClass::Pointcloud => {  },
            WrapperClass::SphereCollection => {  },
            WrapperClass::Collider => {  },
            WrapperClass::Shape => {  },
            WrapperClass::Interval => { v.push(String::from_str("min")); v.push(String::from_str("max")); },
            WrapperClass::Nearest => { v.push(String::from_str("t")); v.push(String::from_str("point")); v.push(String::from_str("dist_sq")); },
            WrapperClass::QuadraticBezier => { v.push(String::from_str("points")); },
            WrapperClass::CubicBezier => { v.push(String::from_str("points")); },
            WrapperClass::Polyline => { v.push(String::from_str("points")); },
            WrapperClass::Spline => { v.push(String::from_str("points")); },
        }
        v
    }
}

/// The class that a module attribute name refers to, if any.
pub fn lookup_export(name: &String) -> (r: Option<WrapperClass>)
    ensures
        r == export_class(name@),
{
    if *name == String::from_str("EulerRot") {
        return Some(WrapperClass::EulerRot);
    }
    if *name == String::from_str("Vec2") {
        return Some(WrapperClass::Vec2);
    }
    if *name == String::from_str("Vec3") {
        return Some(WrapperClass::Vec3);
    }
    if *name == String::from_str("Vec4") {
        return Some(WrapperClass::Vec4);
    }
    if *name == String::from_str("Quat") {
        return Some(WrapperClass::Quat);
    }
    if *name == String::from_str("Mat3") {
        return Some(WrapperClass::Mat3);
    }
    if *name == String::from_str("Mat4") {
        return Some(WrapperClass::Mat4);
    }
    if *name == String::from_str("Affine3") {
        return Some(WrapperClass::Affine3);
    }
    if *name == String::from_str("Sphere") {
        return Some(WrapperClass::Sphere);
    }
    if *name == String::from_str("Capsule") {
        return Some(WrapperClass::Capsule);
    }
    if *name == String::from_str("Cuboid") {
        return Some(WrapperClass::Cuboid);
    }
    if *name == String::from_str("Cylinder") {
        return Some(WrapperClass::Cylinder);
    }
    if *name == String::from_str("ConvexPolytope") {
        return Some(WrapperClass::ConvexPolytope);
    }
    if *name == String::from_str("ConvexPolygon") {
        return Some(WrapperClass::ConvexPolygon);
    }
    if *name == String::from_str("Line") {
        return Some(WrapperClass::Line);
    }
    if *name == String::from_str("Ray") {
        return Some(WrapperClass::Ray);
    }
    if *name == String::from_str("LineSegment") {
        return Some(WrapperClass::LineSegment);
    }
    if *name == String::from_str("Plane") {
        return Some(WrapperClass::Plane);
    }
    if *name == String::from_str("Pointcloud") {
        return Some(WrapperClass::Pointcloud);
    }
    if *name == String::from_str("SphereCollection") {
        return Some(WrapperClass::SphereCollection);
    }
    if *name == String::from_str("Collider") {
        return Some(WrapperClass::Collider);
    }
    if *name == String::from_str("Shape") {
        return Some(WrapperClass::Shape);
    }
    if *name == String::from_str("Interval") {
        return Some(WrapperClass::Interval);
    }
    if *name == String::from_str("Nearest") {
        return Some(WrapperClass::Nearest);
    }
    if *name == String::from_str("QuadraticBezier") {
        return Some(WrapperClass::QuadraticBezier);
    }
    if *name == String::from_str("CubicBezier") {
        return Some(WrapperClass::CubicBezier);
    }
    if *name == String::from_str("Polyline") {
        return Some(WrapperClass::Polyline);
    }
    if *name == String::from_str("Spline") {
        return Some(WrapperClass::Spline);
    }
    if *name == String::from_str("Quaternion") {
        return Some(WrapperClass::Quat);
    }
    if *name == String::from_str("Rotation3d") {
        return Some(WrapperClass::Mat3);
    }
    if *name == String::from_str("Translation3d") {
        return Some(WrapperClass::Vec3);
    }
    if *name == String::from_str("Transform3d") {
        return Some(WrapperClass::Affine3);
    }
    if *name == String::from_str("Box3d") {
        return Some(WrapperClass::Cuboid);
    }
    if *name == String::from_str("Sphere3d") {
        return Some(WrapperClass::Sphere);
    }
    if *name == String::from_str("Cylinder3d") {
        return Some(WrapperClass::Cylinder);
    }
    if *name == String::from_str("ObstacleUnion") {
        return Some(WrapperClass::Collider);
    }
    if *name == String::from_str("PointCloud") {
        return Some(WrapperClass::Pointcloud);
    }
    None
}

/// The module attributes that name classes, each with the class it refers
/// to: every class under its own name first, then the aliases.
pub open spec fn module_table() -> Seq<(&'static str, WrapperClass)> {
    seq![
        ("EulerRot", WrapperClass::EulerRot),
        ("Vec2", WrapperClass::Vec2),
        ("Vec3", WrapperClass::Vec3),
        ("Vec4", WrapperClass::Vec4),
        ("Quat", WrapperClass::Quat),
        ("Mat3", WrapperClass::Mat3),
        ("Mat4", WrapperClass::Mat4),
        ("Affine3", WrapperClass::Affine3),
        ("Sphere", WrapperClass::Sphere),
        ("Capsule", WrapperClass::Capsule),
        ("Cuboid", WrapperClass::Cuboid),
        ("Cylinder", WrapperClass::Cylinder),
        ("ConvexPolytope", WrapperClass::ConvexPolytope),
        ("ConvexPolygon", WrapperClass::ConvexPolygon),
        ("Line", WrapperClass::Line),
        ("Ray", WrapperClass::Ray),
        ("LineSegment", WrapperClass::LineSegment),
        ("Plane", WrapperClass::Plane),
        ("Pointcloud", WrapperClass::Pointcloud),
        ("SphereCollection", WrapperClass::SphereCollection),
        ("Collider", WrapperClass::Collider),
        ("Shape", WrapperClass::Shape),
        ("Interval", WrapperClass::Interval),
        ("Nearest", WrapperClass::Nearest),
        ("QuadraticBezier", WrapperClass::QuadraticBezier),
        ("CubicBezier", WrapperClass::CubicBezier),
        ("Polyline", WrapperClass::Polyline),
        ("Spline", WrapperClass::Spline),
        ("Quaternion", WrapperClass::Quat),
        ("Rotation3d", WrapperClass::Mat3),
        ("Translation3d", WrapperClass::Vec3),
        ("Transform3d", WrapperClass::Affine3),
        ("Box3d", WrapperClass::Cuboid),
        ("Sphere3d", WrapperClass::Sphere),
        ("Cylinder3d", WrapperClass::Cylinder),
        ("ObstacleUnion", WrapperClass::Collider),
        ("PointCloud", WrapperClass::Pointcloud),
    ]
}

/// Every entry of the attribute table names its class, the first 28 by
/// the class's own name, and every exported name has an entry.
pub proof fn lemma_module_table()
    ensures
        module_table().len() == 37,
        forall|k: int|
            0 <= k < 37 ==> export_class((#[trigger] module_table()[k]).0@) == Some(
                module_table()[k].1,
            ),
        forall|k: int| 0 <= k < 28 ==> (#[trigger] module_table()[k]).0@ == class_name(module_table()[k].1),
        forall|name: Seq<char>|
            #[trigger] export_class(name) is Some ==> exists|k: int|
                0 <= k < 37 && (#[trigger] module_table()[k]).0@ == name,
{
    lemma_export_name_facts();
    let t = module_table();
    assert forall|name: Seq<char>| #[trigger] export_class(name) is Some implies exists|k: int|
        0 <= k < 37 && (#[trigger] t[k]).0@ == name by {
        if name == "EulerRot"@ {
            assert(t[0].0@ == name);
        } else if name == "Vec2"@ {
            assert(t[1].0@ == name);
        } else if name == "Vec3"@ {
            assert(t[2].0@ == name);
        } else if name == "Vec4"@ {
            assert(t[3].0@ == name);
        } else if name == "Quat"@ {
            assert(t[4].0@ == name);
        } else if name == "Mat3"@ {
            assert(t[5].0@ == name);
        } else if name == "Mat4"@ {
            assert(t[6].0@ == name);
        } else if name == "Affine3"@ {
            assert(t[7].0@ == name);
        } else if name == "Sphere"@ {
            assert(t[8].0@ == name);
        } else if name == "Capsule"@ {
            assert(t[9].0@ == name);
        } else if name == "Cuboid"@ {
            assert(t[10].0@ == name);
        } else if name == "Cylinder"@ {
            assert(t[11].0@ == name);
        } else if name == "ConvexPolytope"@ {
            assert(t[12].0@ == name);
        } else if name == "ConvexPolygon"@ {
            assert(t[13].0@ == name);
        } else if name == "Line"@ {
            assert(t[14].0@ == name);
        } else if name == "Ray"@ {
            assert(t[15].0@ == name);
        } else if name == "LineSegment"@ {
            assert(t[16].0@ == name);
        } else if name == "Plane"@ {
            assert(t[17].0@ == name);
        } else if name == "Pointcloud"@ {
            assert(t[18].0@ == name);
        } else if name == "SphereCollection"@ {
            assert(t[19].0@ == name);
        } else if name == "Collider"@ {
            assert(t[20].0@ == name);
        } else if name == "Shape"@ {
            assert(t[21].0@ == name);
        } else if name == "Interval"@ {
            assert(t[22].0@ == name);
        } else if name == "Nearest"@ {
            assert(t[23].0@ == name);
        } else if name == "QuadraticBezier"@ {
            assert(t[24].0@ == name);
        } else if name == "CubicBezier"@ {
            assert(t[25].0@ == name);
        } else if name == "Polyline"@ {
            assert(t[26].0@ == name);
        } else if name == "Spline"@ {
            assert(t[27].0@ == name);
        } else if name == "Quaternion"@ {
            assert(t[28].0@ == name);
        } else if name == "Rotation3d"@ {
            assert(t[29].0@ == name);
        } else if name == "Translation3d"@ {
            assert(t[30].0@ == name);
        } else if name == "Transform3d"@ {
            assert(t[31].0@ == name);
        } else if name == "Box3d"@ {
            assert(t[32].0@ == name);
        } else if name == "Sphere3d"@ {
            assert(t[33].0@ == name);
        } else if name == "Cylinder3d"@ {
            assert(t[34].0@ == name);
        } else if name == "ObstacleUnion"@ {
            assert(t[35].0@ == name);
        } else if name == "PointCloud"@ {
            assert(t[36].0@ == name);
        }
    }
}

/// The module attributes that name classes (the table above).
pub fn module_attributes() -> (r: Vec<(&'static str, WrapperClass)>)
    ensures
        r@ == module_table(),
        r@.len() == 37,
        forall|k: int| 0 <= k < r@.len() ==> export_class((#[trigger] r@[k]).0@) == Some(r@[k].1),
        forall|k: int| 0 <= k < 28 ==> (#[trigger] r@[k]).0@ == class_name(r@[k].1),
        forall|name: Seq<char>|
            #[trigger] export_class(name) is Some ==> exists|k: int|
                0 <= k < r@.len() && (#[trigger] r@[k]).0@ == name,
{
    let mut v: Vec<(&'static str, WrapperClass)> = Vec::new();
    v.push(("EulerRot", WrapperClass::EulerRot));
    v.push(("Vec2", WrapperClass::Vec2));
    v.push(("Vec3", WrapperClass::Vec3));
    v.push(("Vec4", WrapperClass::Vec4));
    v.push(("Quat", WrapperClass::Quat));
    v.push(("Mat3", WrapperClass::Mat3));
    v.push(("Mat4", WrapperClass::Mat4));
    v.push(("Affine3", WrapperClass::Affine3));
    v.push(("Sphere", WrapperClass::Sphere));
    v.push(("Capsule", WrapperClass::Capsule));
    v.push(("Cuboid", WrapperClass::Cuboid));
    v.push(("Cylinder", WrapperClass::Cylinder));
    v.push(("ConvexPolytope", WrapperClass::ConvexPolytope));
    v.push(("ConvexPolygon", WrapperClass::ConvexPolygon));
    v.push(("Line", WrapperClass::Line));
    v.push(("Ray", WrapperClass::Ray));
    v.push(("LineSegment", WrapperClass::LineSegment));
    v.push(("Plane", WrapperClass::Plane));
    v.push(("Pointcloud", WrapperClass::Pointcloud));
    v.push(("SphereCollection", WrapperClass::SphereCollection));
    v.push(("Collider", WrapperClass::Collider));
    v.push(("Shape", WrapperClass::Shape));
    v.push(("Interval", WrapperClass::Interval));
    v.push(("Nearest", WrapperClass::Nearest));
    v.push(("QuadraticBezier", WrapperClass::QuadraticBezier));
    v.push(("CubicBezier", WrapperClass::CubicBezier));
    v.push(("Polyline", WrapperClass::Polyline));
    v.push(("Spline", WrapperClass::Spline));
    v.push(("Quaternion", WrapperClass::Quat));
    v.push(("Rotation3d", WrapperClass::Mat3));
    v.push(("Translation3d", WrapperClass::Vec3));
    v.push(("Transform3d", WrapperClass::Affine3));
    v.push(("Box3d", WrapperClass::Cuboid));
    v.push(("Sphere3d", WrapperClass::Sphere));
    v.push(("Cylinder3d", WrapperClass::Cylinder));
    v.push(("ObstacleUnion", WrapperClass::Collider));
    v.push(("PointCloud", WrapperClass::Pointcloud));
    proof {
        assert(v@ =~= module_table());
        lemma_module_table();
    }
    v
}

/// Lengths of the exported names, and the characters that tell apart names
/// of equal length.
proof fn lemma_export_name_facts()
    ensures
        "Affine3"@.len() == 7,
        "Box3d"@.len() == 5,
        "Capsule"@.len() == 7,
        "Collider"@.len() == 8,
        "ConvexPolygon"@.len() == 13,
        "ConvexPolytope"@.len() == 14,
        "CubicBezier"@.len() == 11,
        "Cuboid"@.len() == 6,
        "Cylinder"@.len() == 8,
        "Cylinder3d"@.len() == 10,
        "EulerRot"@.len() == 8,
        "Interval"@.len() == 8,
        "Line"@.len() == 4,
        "LineSegment"@.len() == 11,
        "Mat3"@.len() == 4,
        "Mat4"@.len() == 4,
        "Nearest"@.len() == 7,
        "ObstacleUnion"@.len() == 13,
        "Plane"@.len() == 5,
        "PointCloud"@.len() == 10,
        "Pointcloud"@.len() == 10,
        "Polyline"@.len() == 8,
        "QuadraticBezier"@.len() == 15,
        "Quat"@.len() == 4,
        "Quaternion"@.len() == 10,
        "Ray"@.len() == 3,
        "Rotation3d"@.len() == 10,
        "Shape"@.len() == 5,
        "Sphere"@.len() == 6,
        "Sphere3d"@.len() == 8,
        "SphereCollection"@.len() == 16,
        "Spline"@.len() == 6,
        "Transform3d"@.len() == 11,
        "Translation3d"@.len() == 13,
        "Vec2"@.len() == 4,
        "Vec3"@.len() == 4,
        "Vec4"@.len() == 4,
        "Affine3"@[0] == 'A',
        "Box3d"@[0] == 'B',
        "Capsule"@[0] == 'C',
        "Collider"@[0] == 'C',
        "Collider"@[1] == 'o',
        "ConvexPolygon"@[0] == 'C',
        "CubicBezier"@[0] == 'C',
        "Cuboid"@[0] == 'C',
        "Cylinder"@[0] == 'C',
        "Cylinder"@[1] == 'y',
        "Cylinder3d"@[0] == 'C',
        "EulerRot"@[0] == 'E',
        "Interval"@[0] == 'I',
        "Line"@[0] == 'L',
        "LineSegment"@[0] == 'L',
        "Mat3"@[0] == 'M',
        "Mat3"@[3] == '3',
        "Mat4"@[0] == 'M',
        "Mat4"@[3] == '4',
        "Nearest"@[0] == 'N',
        "ObstacleUnion"@[0] == 'O',
        "Plane"@[0] == 'P',
        "PointCloud"@[0] == 'P',
        "PointCloud"@[5] == 'C',
        "Pointcloud"@[0] == 'P',
        "Pointcloud"@[5] == 'c',
        "Polyline"@[0] == 'P',
        "Quat"@[0] == 'Q',
        "Quaternion"@[0] == 'Q',
        "Rotation3d"@[0] == 'R',
        "Shape"@[0] == 'S',
        "Sphere"@[0] == 'S',
        "Sphere"@[2] == 'h',
        "Sphere3d"@[0] == 'S',
        "Spline"@[0] == 'S',
        "Spline"@[2] == 'l',
        "Transform3d"@[0] == 'T',
        "Translation3d"@[0] == 'T',
        "Vec2"@[0] == 'V',
        "Vec2"@[3] == '2',
        "Vec3"@[0] == 'V',
        "Vec3"@[3] == '3',
        "Vec4"@[0] == 'V',
        "Vec4"@[3] == '4',
{
    reveal_strlit("Affine3");
    reveal_strlit("Box3d");
    reveal_strlit("Capsule");
    reveal_strlit("Collider");
    reveal_strlit("ConvexPolygon");
    reveal_strlit("ConvexPolytope");
    reveal_strlit("CubicBezier");
    reveal_strlit("Cuboid");
    reveal_strlit("Cylinder");
    reveal_strlit("Cylinder3d");
    reveal_strlit("EulerRot");
    reveal_strlit("Interval");
    reveal_strlit("Line");
    reveal_strlit("LineSegment");
    reveal_strlit("Mat3");
    reveal_strlit("Mat4");
    reveal_strlit("Nearest");
    reveal_strlit("ObstacleUnion");
    reveal_strlit("Plane");
    reveal_strlit("PointCloud");
    reveal_strlit("Pointcloud");
    reveal_strlit("Polyline");
    reveal_strlit("QuadraticBezier");
    reveal_strlit("Quat");
    reveal_strlit("Quaternion");
    reveal_strlit("Ray");
    reveal_strlit("Rotation3d");
    reveal_strlit("Shape");
    reveal_strlit("Sphere");
    reveal_strlit("Sphere3d");
    reveal_strlit("SphereCollection");
    reveal_strlit("Spline");
    reveal_strlit("Transform3d");
    reveal_strlit("Translation3d");
    reveal_strlit("Vec2");
    reveal_strlit("Vec3");
    reveal_strlit("Vec4");
}
/// Lengths of the parameter names, and the characters that tell apart the
/// names of one constructor that have equal length.
proof fn lemma_param_name_facts()
    ensures
        "axes"@.len() == 4,
        "center"@.len() == 6,
        "d"@.len() == 1,
        "dir"@.len() == 3,
        "dist_sq"@.len() == 7,
        "half_extents"@.len() == 12,
        "max"@.len() == 3,
        "min"@.len() == 3,
        "normal"@.len() == 6,
        "origin"@.len() == 6,
        "p0"@.len() == 2,
        "p1"@.len() == 2,
        "p2"@.len() == 2,
        "p3"@.len() == 2,
        "planes"@.len() == 6,
        "point"@.len() == 5,
        "point_radius"@.len() == 12,
        "points"@.len() == 6,
        "r_range"@.len() == 7,
        "radius"@.len() == 6,
        "rotation"@.len() == 8,
        "t"@.len() == 1,
        "translation"@.len() == 11,
        "vertices"@.len() == 8,
        "vertices_2d"@.len() == 11,
        "w"@.len() == 1,
        "w_axis"@.len() == 6,
        "x"@.len() == 1,
        "x_axis"@.len() == 6,
        "y"@.len() == 1,
        "y_axis"@.len() == 6,
        "z"@.len() == 1,
        "z_axis"@.len() == 6,
        "center"@[0] == 'c',
        "max"@[1] == 'a',
        "min"@[1] == 'i',
        "normal"@[0] == 'n',
        "p0"@[1] == '0',
        "p1"@[1] == '1',
        "p2"@[1] == '2',
        "p3"@[1] == '3',
        "radius"@[0] == 'r',
        "w"@[0] == 'w',
        "w_axis"@[0] == 'w',
        "x"@[0] == 'x',
        "x_axis"@[0] == 'x',
        "y"@[0] == 'y',
        "y_axis"@[0] == 'y',
        "z"@[0] == 'z',
        "z_axis"@[0] == 'z',
{
    reveal_strlit("axes");
    reveal_strlit("center");
    reveal_strlit("d");
    reveal_strlit("dir");
    reveal_strlit("dist_sq");
    reveal_strlit("half_extents");
    reveal_strlit("max");
    reveal_strlit("min");
    reveal_strlit("normal");
    reveal_strlit("origin");
    reveal_strlit("p0");
    reveal_strlit("p1");
    reveal_strlit("p2");
    reveal_strlit("p3");
    reveal_strlit("planes");
    reveal_strlit("point");
    reveal_strlit("point_radius");
    reveal_strlit("points");
    reveal_strlit("r_range");
    reveal_strlit("radius");
    reveal_strlit("rotation");
    reveal_strlit("t");
    reveal_strlit("translation");
    reveal_strlit("vertices");
    reveal_strlit("vertices_2d");
    reveal_strlit("w");
    reveal_strlit("w_axis");
    reveal_strlit("x");
    reveal_strlit("x_axis");
    reveal_strlit("y");
    reveal_strlit("y_axis");
    reveal_strlit("z");
    reveal_strlit("z_axis");
}

/// Every class is exported under its own name, and each alias refers to the
/// very same class as its canonical name (`Quaternion` is `Quat`, …).
pub proof fn lemma_exports_resolve()
    ensures
        forall|c: WrapperClass| #[trigger] export_class(class_name(c)) == Some(c),
        export_class("Quaternion"@) == Some(WrapperClass::Quat),
        export_class("Quaternion"@) == export_class("Quat"@),
        export_class("Rotation3d"@) == Some(WrapperClass::Mat3),
        export_class("Rotation3d"@) == export_class("Mat3"@),
        export_class("Translation3d"@) == Some(WrapperClass::Vec3),
        export_class("Translation3d"@) == export_class("Vec3"@),
        export_class("Transform3d"@) == Some(WrapperClass::Affine3),
        export_class("Transform3d"@) == export_class("Affine3"@),
        export_class("Box3d"@) == Some(WrapperClass::Cuboid),
        export_class("Box3d"@) == export_class("Cuboid"@),
        export_class("Sphere3d"@) == Some(WrapperClass::Sphere),
        export_class("Sphere3d"@) == export_class("Sphere"@),
        export_class("Cylinder3d"@) == Some(WrapperClass::Cylinder),
        export_class("Cylinder3d"@) == export_class("Cylinder"@),
        export_class("ObstacleUnion"@) == Some(WrapperClass::Collider),
        export_class("ObstacleUnion"@) == export_class("Collider"@),
        export_class("PointCloud"@) == Some(WrapperClass::Pointcloud),
        export_class("PointCloud"@) == export_class("Pointcloud"@),
{
    lemma_export_name_facts();
    assert forall|c: WrapperClass| #[trigger] export_class(class_name(c)) == Some(c) by {
        match c {
            WrapperClass::EulerRot => {},
            WrapperClass::Vec2 => {},
            WrapperClass::Vec3 => {},
            WrapperClass::Vec4 => {},
            WrapperClass::Quat => {},
            WrapperClass::Mat3 => {},
            WrapperClass::Mat4 => {},
            WrapperClass::Affine3 => {},
            WrapperClass::Sphere => {},
            WrapperClass::Capsule => {},
            WrapperClass::Cuboid => {},
            WrapperClass::Cylinder => {},
            WrapperClass::ConvexPolytope => {},
            WrapperClass::ConvexPolygon => {},
            WrapperClass::Line => {},
            WrapperClass::Ray => {},
            WrapperClass::LineSegment => {},
            WrapperClass::Plane => {},
            WrapperClass::Pointcloud => {},
            WrapperClass::SphereCollection => {},
            WrapperClass::Collider => {},
            WrapperClass::Shape => {},
            WrapperClass::Interval => {},
            WrapperClass::Nearest => {},
            WrapperClass::QuadraticBezier => {},
            WrapperClass::CubicBezier => {},
            WrapperClass::Polyline => {},
            WrapperClass::Spline => {},
        }
    }
}

/// The parameters of every constructor have pairwise distinct names.
pub proof fn lemma_constructor_names_distinct(c: WrapperClass)
    ensures
        constructor_spec(c) matches Some(ps) ==> forall|a: int, b: int|
            0 <= a < b < ps.len() ==> ps[a].0 != ps[b].0,
{
    lemma_param_name_facts();
    match c {
        WrapperClass::EulerRot => {},
        WrapperClass::Vec2 => {
            let ps = constructor_spec(c)->Some_0;
            assert(ps[0].0 != ps[1].0);
        },
        WrapperClass::Vec3 => {
            let ps = constructor_spec(c)->Some_0;
            assert(ps[0].0 != ps[1].0);
            assert(ps[0].0 != ps[2].0);
            assert(ps[1].0 != ps[2].0);
        },
        WrapperClass::Vec4 => {
            let ps = constructor_spec(c)->Some_0;
            assert(ps[0].0 != ps[1].0);
            assert(ps[0].0 != ps[2].0);
            assert(ps[0].0 != ps[3].0);
            assert(ps[1].0 != ps[2].0);
            assert(ps[1].0 != ps[3].0);
            assert(ps[2].0 != ps[3].0);
        },
        WrapperClass::Quat => {
            let ps = constructor_spec(c)->Some_0;
            assert(ps[0].0 != ps[1].0);
            assert(ps[0].0 != ps[2].0);
            assert(ps[0].0 != ps[3].0);
            assert(ps[1].0 != ps[2].0);
            assert(ps[1].0 != ps[3].0);
            assert(ps[2].0 != ps[3].0);
        },
        WrapperClass::Mat3 => {
            let ps = constructor_spec(c)->Some_0;
            assert(ps[0].0 != ps[1].0);
            assert(ps[0].0 != ps[2].0);
            assert(ps[1].0 != ps[2].0);
        },
        WrapperClass::Mat4 => {
            let ps = constructor_spec(c)->Some_0;
            assert(ps[0].0 != ps[1].0);
            assert(ps[0].0 != ps[2].0);
            assert(ps[0].0 != ps[3].0);
            assert(ps[1].0 != ps[2].0);
            assert(ps[1].0 != ps[3].0);
            assert(ps[2].0 != ps[3].0);
        },
        WrapperClass::Affine3 => {
            let ps = constructor_spec(c)->Some_0;
            assert(ps[0].0 != ps[1].0);
        },
        WrapperClass::Sphere => {
            let ps = constructor_spec(c)->Some_0;
            assert(ps[0].0 != ps[1].0);
        },
        WrapperClass::Capsule => {
            let ps = constructor_spec(c)->Some_0;
            assert(ps[0].0 != ps[1].0);
            assert(ps[0].0 != ps[2].0);
            assert(ps[1].0 != ps[2].0);
        },
        WrapperClass::Cuboid => {
            let ps = constructor_spec(c)->Some_0;
            assert(ps[0].0 != ps[1].0);
            assert(ps[0].0 != ps[2].0);
            assert(ps[1].0 != ps[2].0);
        },
        WrapperClass::Cylinder => {
            let ps = constructor_spec(c)->Some_0;
            assert(ps[0].0 != ps[1].0);
            assert(ps[0].0 != ps[2].0);
            assert(ps[1].0 != ps[2].0);
        },
        WrapperClass::ConvexPolytope => {
            let ps = constructor_spec(c)->Some_0;
            assert(ps[0].0 != ps[1].0);
        },
        WrapperClass::ConvexPolygon => {
            let ps = constructor_spec(c)->Some_0;
            assert(ps[0].0 != ps[1].0);
            assert(ps[0].0 != ps[2].0);
            assert(ps[1].0 != ps[2].0);
        },
        WrapperClass::Line => {
            let ps = constructor_spec(c)->Some_0;
            assert(ps[0].0 != ps[1].0);
        },
        WrapperClass::Ray => {
            let ps = constructor_spec(c)->Some_0;
            assert(ps[0].0 != ps[1].0);
        },
        WrapperClass::LineSegment => {
            let ps = constructor_spec(c)->Some_0;
            assert(ps[0].0 != ps[1].0);
        },
        WrapperClass::Plane => {
            let ps = constructor_spec(c)->Some_0;
            assert(ps[0].0 != ps[1].0);
        },
        WrapperClass::Pointcloud => {
            let ps = constructor_spec(c)->Some_0;
            assert(ps[0].0 != ps[1].0);
            assert(ps[0].0 != ps[2].0);
            assert(ps[1].0 != ps[2].0);
        },
        WrapperClass::SphereCollection => {},
        WrapperClass::Collider => {},
        WrapperClass::Shape => {},
        WrapperClass::Interval => {
            let ps = constructor_spec(c)->Some_0;
            assert(ps[0].0 != ps[1].0);
        },
        WrapperClass::Nearest => {
            let ps = constructor_spec(c)->Some_0;
            assert(ps[0].0 != ps[1].0);
            assert(ps[0].0 != ps[2].0);
            assert(ps[1].0 != ps[2].0);
        },
        WrapperClass::QuadraticBezier => {
            let ps = constructor_spec(c)->Some_0;
            assert(ps[0].0 != ps[1].0);
            assert(ps[0].0 != ps[2].0);
            assert(ps[1].0 != ps[2].0);
        },
        WrapperClass::CubicBezier => {
            let ps = constructor_spec(c)->Some_0;
            assert(ps[0].0 != ps[1].0);
            assert(ps[0].0 != ps[2].0);
            assert(ps[0].0 != ps[3].0);
            assert(ps[1].0 != ps[2].0);
            assert(ps[1].0 != ps[3].0);
            assert(ps[2].0 != ps[3].0);
        },
        WrapperClass::Polyline => {
            let ps = constructor_spec(c)->Some_0;
        },
        WrapperClass::Spline => {
            let ps = constructor_spec(c)->Some_0;
        },
    }
}

/// The classes whose constructor takes exactly the fields they present.
pub open spec fn built_from_fields(c: WrapperClass) -> bool {
    match c {
        WrapperClass::EulerRot | WrapperClass::Shape | WrapperClass::Affine3
        | WrapperClass::ConvexPolygon | WrapperClass::Pointcloud | WrapperClass::QuadraticBezier
        | WrapperClass::CubicBezier => false,
        _ => true,
    }
}

/// A class built from its fields takes them, in the same order, as its
/// constructor parameters: parameter `i` is the `i`-th field.
pub proof fn lemma_constructor_takes_fields(c: WrapperClass)
    requires
        built_from_fields(c),
    ensures
        constructor_spec(c) is Some,
        constructor_spec(c)->Some_0.len() == field_names(c).len(),
        forall|i: int|
            0 <= i < field_names(c).len() ==> #[trigger] constructor_spec(c)->Some_0[i].0
                == field_names(c)[i],
{
}

/// Component names of the vector types, in order.
pub open spec fn component_names() -> Seq<Seq<char>> {
    seq!["x"@, "y"@, "z"@, "w"@]
}

/// Column names of the matrix types, in order.
pub open spec fn column_names() -> Seq<Seq<char>> {
    seq!["x_axis"@, "y_axis"@, "z_axis"@, "w_axis"@]
}

/// Vectors and quaternions present one field per component, and matrices
/// one field per column, in order: `Vec3` is `x, y, z`, `Mat4` is
/// `x_axis, y_axis, z_axis, w_axis`.
pub proof fn lemma_fields_follow_components()
    ensures
        field_names(WrapperClass::Vec2) == component_names().take(2),
        field_names(WrapperClass::Vec3) == component_names().take(3),
        field_names(WrapperClass::Vec4) == component_names(),
        field_names(WrapperClass::Quat) == component_names(),
        field_names(WrapperClass::Mat3) == column_names().take(3),
        field_names(WrapperClass::Mat4) == column_names(),
{
    assert(field_names(WrapperClass::Vec2) =~= component_names().take(2));
    assert(field_names(WrapperClass::Vec3) =~= component_names().take(3));
    assert(field_names(WrapperClass::Vec4) =~= component_names());
    assert(field_names(WrapperClass::Quat) =~= component_names());
    assert(field_names(WrapperClass::Mat3) =~= column_names().take(3));
    assert(field_names(WrapperClass::Mat4) =~= column_names());
}

} // verus!
