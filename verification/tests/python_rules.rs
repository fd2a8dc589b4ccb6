//! Scenarios of the Python-facing surface whose deciding logic lives in the
//! library: argument binding, indexing, names, hash keys and shape checks.

use geomanpy::arguments::{plan_construction, ArgSource, BindError, Construction};
use geomanpy::arrays::{exact_components, flatten_rows, point_rows, uniform_rows};
use geomanpy::classes::{lookup_export, WrapperClass};
use geomanpy::euler::PyEulerRot;
use geomanpy::hashing::hash_key;
use geomanpy::indexing::{item_at, resolve_index};
use geomanpy::shapes::{collider_query, QueryError, ShapeKind};
use std::collections::HashSet;

fn kw(names: &[&str]) -> Vec<String> {
    names.iter().map(|s| s.to_string()).collect()
}

fn plan(class: WrapperClass, n_positional: usize, keywords: &[&str]) -> Result<Construction, BindError> {
    let params = class.constructor_params().expect("constructible class");
    plan_construction(&params, n_positional, &kw(keywords))
}

fn slots(class: WrapperClass, n_positional: usize, keywords: &[&str]) -> Vec<Option<ArgSource>> {
    match plan(class, n_positional, keywords) {
        Ok(Construction::Fields { slots }) => slots,
        other => panic!("expected bound fields, got {:?}", other),
    }
}

fn refused(class: WrapperClass, n_positional: usize, keywords: &[&str]) -> BindError {
    match plan(class, n_positional, keywords) {
        Err(e) => e,
        other => panic!("expected a refusal, got {:?}", other),
    }
}

use ArgSource::{Keyword as K, Positional as P};

fn bits(xs: &[f64]) -> Vec<u64> {
    xs.iter().map(|x| x.to_bits()).collect()
}

#[test]
fn vec2_indexing_binding_and_restore_plan() {
    let v = [1.0f64, 2.0];
    assert_eq!(item_at(&v, 0), Some(1.0));
    assert_eq!(item_at(&v, 1), Some(2.0));
    assert_eq!(item_at(&v, -1), Some(2.0));
    assert_eq!(slots(WrapperClass::Vec2, 2, &[]), vec![Some(P(0)), Some(P(1))]);
    assert_eq!(WrapperClass::Vec2.dataclass_fields(), kw(&["x", "y"]));
    // pickle round trip: the keyword state wins over everything else
    match plan(WrapperClass::Vec2, 0, &["__pickle_state__"]) {
        Ok(Construction::Restore { keyword }) => assert_eq!(keyword, 0),
        other => panic!("expected restore, got {:?}", other),
    }
}

#[test]
fn vec3_vec4_indexing_and_restore_plan() {
    let a = [1.0f64, 2.0, 3.0];
    assert_eq!(item_at(&a, 2), Some(3.0));
    assert_eq!(item_at(&a, -1), Some(3.0));
    let b = [1.0f64, 2.0, 3.0, 4.0];
    assert_eq!(item_at(&b, 3), Some(4.0));
    assert!(matches!(plan(WrapperClass::Vec3, 0, &["__pickle_state__"]), Ok(Construction::Restore { keyword: 0 })));
    assert!(matches!(plan(WrapperClass::Vec4, 0, &["__pickle_state__"]), Ok(Construction::Restore { keyword: 0 })));
}

#[test]
fn quat_mat_affine_restore_plan() {
    for class in [WrapperClass::Quat, WrapperClass::Mat3, WrapperClass::Mat4, WrapperClass::Affine3] {
        assert!(matches!(plan(class, 0, &["__pickle_state__"]), Ok(Construction::Restore { keyword: 0 })));
    }
    assert_eq!(PyEulerRot::from_value(4), Some(PyEulerRot::XYZ));
}

#[test]
fn sphere_binding_restore_plan_and_fields() {
    assert_eq!(slots(WrapperClass::Sphere, 2, &[]), vec![Some(P(0)), Some(P(1))]);
    assert!(matches!(plan(WrapperClass::Sphere, 0, &["__pickle_state__"]), Ok(Construction::Restore { keyword: 0 })));
    assert_eq!(WrapperClass::Sphere.dataclass_fields(), kw(&["center", "radius"]));
}

#[test]
fn capsule_and_collider_binding_and_collection_indexing() {
    assert_eq!(slots(WrapperClass::Capsule, 3, &[]), vec![Some(P(0)), Some(P(1)), Some(P(2))]);
    // SphereCollection of one sphere: sc[0] exists, sc[1] does not
    assert_eq!(resolve_index(0, 1), Some(0));
    assert_eq!(resolve_index(1, 1), None);
    assert_eq!(resolve_index(0, 2), Some(0));
    assert_eq!(slots(WrapperClass::Collider, 0, &[]), Vec::<Option<ArgSource>>::new());
    assert!(matches!(plan(WrapperClass::Collider, 0, &["__pickle_state__"]), Ok(Construction::Restore { keyword: 0 })));
}

#[test]
fn collider_refuses_pointcloud_queries() {
    assert_eq!(collider_query(ShapeKind::Sphere), Ok(()));
    assert_eq!(collider_query(ShapeKind::Capsule), Ok(()));
    assert_eq!(collider_query(ShapeKind::Pointcloud), Err(QueryError::PointcloudQuery));
}

#[test]
fn shape_base_type_is_exposed() {
    assert_eq!(WrapperClass::Shape.python_name(), "Shape");
    assert_eq!(lookup_export(&"Shape".to_string()), Some(WrapperClass::Shape));
    assert!(WrapperClass::Shape.constructor_params().is_none());
}

#[test]
fn domain_aliases_resolve_natively() {
    let pairs = [
        ("Quaternion", "Quat"),
        ("Rotation3d", "Mat3"),
        ("Translation3d", "Vec3"),
        ("Transform3d", "Affine3"),
        ("Box3d", "Cuboid"),
        ("Sphere3d", "Sphere"),
        ("Cylinder3d", "Cylinder"),
        ("ObstacleUnion", "Collider"),
        ("PointCloud", "Pointcloud"),
    ];
    for (alias, canonical) in pairs {
        let a = lookup_export(&alias.to_string());
        assert!(a.is_some());
        assert_eq!(a, lookup_export(&canonical.to_string()));
    }
    assert_eq!(lookup_export(&"Quaternion".to_string()), Some(WrapperClass::Quat));
    assert_eq!(lookup_export(&"PointCloud".to_string()), Some(WrapperClass::Pointcloud));
    // construction through the alias binds like the canonical class
    assert_eq!(slots(WrapperClass::Vec3, 3, &[]), vec![Some(P(0)), Some(P(1)), Some(P(2))]);
}

#[test]
fn keyword_constructors_bind_like_positionals() {
    assert_eq!(slots(WrapperClass::Vec2, 0, &["x", "y"]), vec![Some(K(0)), Some(K(1))]);
    assert_eq!(slots(WrapperClass::Vec2, 2, &[]), vec![Some(P(0)), Some(P(1))]);
    assert_eq!(slots(WrapperClass::Vec2, 1, &[]), vec![Some(P(0)), None]);
    assert_eq!(slots(WrapperClass::Vec2, 0, &[]), vec![None, None]);
    assert_eq!(slots(WrapperClass::Vec2, 0, &["y"]), vec![None, Some(K(0))]);
    assert_eq!(slots(WrapperClass::Vec3, 0, &["x", "z"]), vec![Some(K(0)), None, Some(K(1))]);
    assert_eq!(slots(WrapperClass::Vec3, 2, &[]), vec![Some(P(0)), Some(P(1)), None]);
    assert_eq!(slots(WrapperClass::Vec4, 0, &["w"]), vec![None, None, None, Some(K(0))]);
    assert_eq!(slots(WrapperClass::Vec4, 1, &["y"]), vec![Some(P(0)), Some(K(0)), None, None]);
    assert_eq!(slots(WrapperClass::Quat, 0, &["w"]), vec![None, None, None, Some(K(0))]);
    assert_eq!(slots(WrapperClass::Quat, 0, &[]), vec![None, None, None, None]);
    assert_eq!(slots(WrapperClass::Sphere, 0, &["center", "radius"]), vec![Some(K(0)), Some(K(1))]);
    assert_eq!(slots(WrapperClass::Sphere, 0, &["radius", "center"]), vec![Some(K(1)), Some(K(0))]);
    assert_eq!(
        slots(WrapperClass::Cylinder, 0, &["p1", "p2", "radius"]),
        vec![Some(K(0)), Some(K(1)), Some(K(2))]
    );
    assert_eq!(
        slots(WrapperClass::Capsule, 0, &["radius", "p1", "p2"]),
        vec![Some(K(1)), Some(K(2)), Some(K(0))]
    );
    assert_eq!(slots(WrapperClass::Plane, 0, &["normal"]), vec![Some(K(0)), None]);
    assert_eq!(slots(WrapperClass::Plane, 1, &["d"]), vec![Some(P(0)), Some(K(0))]);
}

#[test]
fn constructor_required_args_and_bad_kwargs() {
    let e = refused(WrapperClass::Sphere, 1, &[]);
    assert_eq!(e, BindError::MissingRequired { param: 1 });
    assert!(!e.is_type_error());
    assert_eq!(refused(WrapperClass::Sphere, 0, &[]), BindError::MissingRequired { param: 0 });
    let e = refused(WrapperClass::Sphere, 3, &[]);
    assert_eq!(e, BindError::TooManyPositional { given: 3, max: 2 });
    assert!(e.is_type_error());
    assert_eq!(refused(WrapperClass::Vec2, 0, &["x", "q"]), BindError::UnexpectedKeyword { keyword: 1 });
    assert_eq!(refused(WrapperClass::Vec2, 3, &[]), BindError::TooManyPositional { given: 3, max: 2 });
    assert_eq!(refused(WrapperClass::Vec2, 1, &["x"]), BindError::MultipleValues { param: 0 });
    assert_eq!(refused(WrapperClass::Mat3, 0, &[]), BindError::MissingRequired { param: 0 });
    assert_eq!(refused(WrapperClass::Mat4, 0, &[]), BindError::MissingRequired { param: 0 });
    assert_eq!(refused(WrapperClass::Affine3, 0, &[]), BindError::MissingRequired { param: 0 });
    assert_eq!(refused(WrapperClass::Cylinder, 2, &[]), BindError::MissingRequired { param: 2 });
    assert_eq!(refused(WrapperClass::Capsule, 0, &["p1", "p2"]), BindError::MissingRequired { param: 2 });
    let e = refused(WrapperClass::Capsule, 3, &["p1"]);
    assert_eq!(e, BindError::MultipleValues { param: 0 });
    assert!(e.is_type_error());
    assert_eq!(refused(WrapperClass::Cuboid, 0, &[]), BindError::MissingRequired { param: 0 });
    let e = refused(WrapperClass::Cuboid, 0, &["center", "axes", "half_extents", "bogus"]);
    assert_eq!(e, BindError::UnexpectedKeyword { keyword: 3 });
    assert!(e.is_type_error());
    let e = refused(WrapperClass::Collider, 1, &[]);
    assert_eq!(e, BindError::TooManyPositional { given: 1, max: 0 });
    assert!(e.is_type_error());
    assert_eq!(refused(WrapperClass::Pointcloud, 0, &[]), BindError::MissingRequired { param: 0 });
}

#[test]
fn cols_array_flattening() {
    let identity_cols = vec![vec![1.0f64, 0.0, 0.0], vec![0.0, 1.0, 0.0], vec![0.0, 0.0, 1.0]];
    assert_eq!(flatten_rows(&identity_cols, 3), vec![1.0, 0.0, 0.0, 0.0, 1.0, 0.0, 0.0, 0.0, 1.0]);
}

#[test]
fn negative_zero_hash_keys() {
    assert_eq!(hash_key(&bits(&[-0.0, 0.0, 0.0])), hash_key(&bits(&[0.0, 0.0, 0.0])));
    assert_eq!(hash_key(&bits(&[-0.0, 0.0])), hash_key(&bits(&[0.0, 0.0])));
    assert_eq!(hash_key(&bits(&[-0.0, -0.0, 0.0, 0.0])), hash_key(&bits(&[0.0, 0.0, 0.0, 0.0])));
}

#[test]
fn cuboid_keyword_binding_and_axes_rows() {
    assert_eq!(
        slots(WrapperClass::Cuboid, 0, &["center", "axes", "half_extents"]),
        vec![Some(K(0)), Some(K(1)), Some(K(2))]
    );
    assert_eq!(slots(WrapperClass::Cuboid, 3, &[]), vec![Some(P(0)), Some(P(1)), Some(P(2))]);
    let axes = vec![vec![1.0f64, 0.0, 0.0], vec![0.0, 1.0, 0.0], vec![0.0, 0.0, 1.0]];
    assert_eq!(uniform_rows(&axes, 3), Some(axes.clone()));
}

#[test]
fn convex_polygon_keyword_binding_and_vertex_rows() {
    assert_eq!(
        slots(WrapperClass::ConvexPolygon, 0, &["center", "normal", "vertices_2d"]),
        vec![Some(K(0)), Some(K(1)), Some(K(2))]
    );
    let verts = vec![vec![-1.0f64, -1.0], vec![1.0, -1.0], vec![1.0, 1.0], vec![-1.0, 1.0]];
    assert_eq!(uniform_rows(&verts, 2), Some(verts.clone()));
}

#[test]
fn convex_polytope_keyword_binding_and_vertex_rows() {
    assert_eq!(
        slots(WrapperClass::ConvexPolytope, 0, &["planes", "vertices"]),
        vec![Some(K(0)), Some(K(1))]
    );
    let mut verts = Vec::new();
    for x in [-0.5f64, 0.5] {
        for y in [-0.5f64, 0.5] {
            for z in [-0.5f64, 0.5] {
                verts.push(vec![x, y, z]);
            }
        }
    }
    assert_eq!(uniform_rows(&verts, 3).map(|v| v.len()), Some(8));
}

#[test]
fn pointcloud_shape_check_and_binding() {
    assert_eq!(point_rows(&[2, 3]), Some(2));
    assert_eq!(point_rows(&[2]), None);
    assert_eq!(slots(WrapperClass::Pointcloud, 1, &["point_radius"]), vec![Some(P(0)), None, Some(K(0))]);
    let pts = vec![vec![100.0f64, 0.0, 0.0], vec![101.0, 0.0, 0.0]];
    assert_eq!(uniform_rows(&pts, 3), Some(pts.clone()));
}

#[test]
fn euler_rot_equality_and_hash() {
    assert_eq!(PyEulerRot::ZYX, PyEulerRot::ZYX);
    assert_ne!(PyEulerRot::ZYX, PyEulerRot::XYZ);
    assert!(PyEulerRot::ZYX.eq_int(0));
    assert!(PyEulerRot::XYZ.eq_int(4));
    assert!(!PyEulerRot::ZYX.eq_int(4));
    let s: HashSet<PyEulerRot> = [PyEulerRot::ZYX, PyEulerRot::XYZ, PyEulerRot::ZYX].into_iter().collect();
    assert_eq!(s.len(), 2);
    assert!(s.contains(&PyEulerRot::XYZ));
}

#[test]
fn polyline_spline_points_keyword() {
    assert_eq!(slots(WrapperClass::Polyline, 0, &["points"]), vec![Some(K(0))]);
    assert_eq!(slots(WrapperClass::Polyline, 0, &[]), vec![None]);
    assert_eq!(slots(WrapperClass::Polyline, 1, &[]), vec![Some(P(0))]);
    assert_eq!(slots(WrapperClass::Spline, 0, &["points"]), vec![Some(K(0))]);
    let e = refused(WrapperClass::Polyline, 1, &["points"]);
    assert_eq!(e, BindError::MultipleValues { param: 0 });
    assert!(e.is_type_error());
    let e = refused(WrapperClass::Spline, 0, &["bogus"]);
    assert_eq!(e, BindError::UnexpectedKeyword { keyword: 0 });
    assert!(e.is_type_error());
}

#[test]
fn curve_constructors_bind_positionals() {
    assert_eq!(slots(WrapperClass::Interval, 2, &[]), vec![Some(P(0)), Some(P(1))]);
    assert_eq!(slots(WrapperClass::CubicBezier, 4, &[]).len(), 4);
    assert_eq!(slots(WrapperClass::QuadraticBezier, 3, &[]).len(), 3);
    assert_eq!(slots(WrapperClass::Polyline, 1, &[]), vec![Some(P(0))]);
    assert_eq!(slots(WrapperClass::Spline, 1, &[]), vec![Some(P(0))]);
}

#[test]
fn sequence_operands_need_exact_length() {
    let a = [1.5f64, -2.0, 3.25, 0.5];
    let b = [4.0f64, 0.5, -1.0, 2.0];
    for n in 2..=4usize {
        assert_eq!(exact_components(&a[..n], n), Some(a[..n].to_vec()));
        assert_eq!(exact_components(&b[..n], n), Some(b[..n].to_vec()));
        let mut longer = b[..n].to_vec();
        longer.push(1.0);
        assert_eq!(exact_components(&longer, n), None);
        assert_eq!(exact_components(&b[..n - 1], n), None);
    }
}

#[test]
fn quat_sequence_operands_need_four_items() {
    assert_eq!(exact_components(&[0.0f64, 0.0, 0.0, 1.0], 4), Some(vec![0.0, 0.0, 0.0, 1.0]));
    assert_eq!(exact_components(&[0.0f64, 0.0, 0.0], 4), None);
    assert_eq!(exact_components(&[0.0f64, 0.0, 1.0], 4), None);
    assert_eq!(exact_components(&[1.0f64, 2.0, 3.0], 3), Some(vec![1.0, 2.0, 3.0]));
}

#[test]
fn dataclass_field_names() {
    let mut f = WrapperClass::Sphere.dataclass_fields();
    f.sort();
    assert_eq!(f, kw(&["center", "radius"]));
    assert_eq!(WrapperClass::Vec3.dataclass_fields(), kw(&["x", "y", "z"]));
    assert!(WrapperClass::Collider.dataclass_fields().is_empty());
    assert_eq!(WrapperClass::Capsule.dataclass_fields(), kw(&["p1", "p2", "radius"]));
    assert_eq!(WrapperClass::Quat.dataclass_fields(), kw(&["x", "y", "z", "w"]));
    assert_eq!(WrapperClass::Interval.dataclass_fields(), kw(&["min", "max"]));
}
