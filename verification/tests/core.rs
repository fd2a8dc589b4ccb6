//! Unit checks of each library function on concrete values, including the
//! edge cases and the laws the library proves.

use geomanpy::arguments::{bind_arguments, plan_construction, ArgSource, BindError, Construction, Param};
use geomanpy::arrays::{
    batch_transform_rows, exact_components, flatten_rows, leading_block, matrix_from_buffer,
    point_rows, transpose, uniform_rows, vector_from_buffer, BatchShapeError,
};
use geomanpy::classes::{lookup_export, module_attributes, WrapperClass};
use geomanpy::euler::{PyEulerRot, EULER_ORDER_COUNT};
use geomanpy::hashing::{canonical_bits, hash_key, NEGATIVE_ZERO_BITS};
use geomanpy::indexing::{checked_index, item_at, resolve_index};
use geomanpy::mesh::plane_anchor_vertices;
use geomanpy::shapes::{
    add_obstacles, obstacle_count, obstacles_to_add, stream_plan, ObstacleArg, ObstacleError, ShapeCounts,
    ShapeKind,
};

fn p(name: &str, required: bool) -> Param {
    Param { name: name.to_string(), required }
}

fn kw(names: &[&str]) -> Vec<String> {
    names.iter().map(|s| s.to_string()).collect()
}

#[test]
fn resolve_index_follows_python_rules() {
    assert_eq!(resolve_index(0, 3), Some(0));
    assert_eq!(resolve_index(2, 3), Some(2));
    assert_eq!(resolve_index(3, 3), None);
    assert_eq!(resolve_index(-1, 3), Some(2));
    assert_eq!(resolve_index(-3, 3), Some(0));
    assert_eq!(resolve_index(-4, 3), None);
    assert_eq!(resolve_index(0, 0), None);
    assert_eq!(resolve_index(-1, 0), None);
    assert_eq!(resolve_index(isize::MIN, usize::MAX), Some(usize::MAX - (isize::MAX as usize) - 1));
    assert_eq!(resolve_index(isize::MIN, 5), None);
    assert_eq!(resolve_index(isize::MAX, usize::MAX), Some(isize::MAX as usize));
}

#[test]
fn negative_index_names_same_item() {
    let items = [10u32, 20, 30, 40];
    for i in 0..4isize {
        assert_eq!(item_at(&items, i), item_at(&items, i - 4));
        assert_eq!(item_at(&items, i), Some(items[i as usize]));
    }
    assert_eq!(item_at(&items, 4), None);
    assert_eq!(item_at(&items, -5), None);
}

#[test]
fn checked_index_bounds() {
    assert_eq!(checked_index(0, 3), Some(0));
    assert_eq!(checked_index(2, 3), Some(2));
    assert_eq!(checked_index(3, 3), None);
    assert_eq!(checked_index(3, 4), Some(3));
    assert_eq!(checked_index(4, 4), None);
}

#[test]
fn transpose_swaps_rows_and_columns() {
    let m = vec![vec![1, 2, 3], vec![4, 5, 6]];
    let t = transpose(&m, 3);
    assert_eq!(t, vec![vec![1, 4], vec![2, 5], vec![3, 6]]);
    assert_eq!(transpose(&t, 2), m);
    let empty: Vec<Vec<i32>> = Vec::new();
    assert_eq!(transpose(&empty, 2), vec![Vec::<i32>::new(), Vec::new()]);
}

#[test]
fn flatten_and_read_back() {
    let m = vec![vec![1, 2, 3], vec![4, 5, 6]];
    let flat = flatten_rows(&m, 3);
    assert_eq!(flat, vec![1, 2, 3, 4, 5, 6]);
    assert_eq!(matrix_from_buffer(&[2, 3], &flat, 2, 3), Some(m.clone()));
    assert_eq!(matrix_from_buffer(&[3, 2], &flat, 2, 3), None);
    assert_eq!(matrix_from_buffer(&[6], &flat, 2, 3), None);
    assert_eq!(matrix_from_buffer(&[2, 3, 1], &flat, 2, 3), None);
    assert_eq!(
        matrix_from_buffer(&[3, 2], &flat, 3, 2),
        Some(vec![vec![1, 2], vec![3, 4], vec![5, 6]])
    );
}

#[test]
fn vector_from_buffer_checks_shape() {
    let data = [1.0f64, 2.0, 3.0];
    assert_eq!(vector_from_buffer(&[3], &data, 3), Some(vec![1.0, 2.0, 3.0]));
    assert_eq!(vector_from_buffer(&[3], &data, 2), None);
    assert_eq!(vector_from_buffer(&[1, 3], &data, 3), None);
}

#[test]
fn leading_block_of_a_transform() {
    let m: Vec<Vec<i32>> = (0..4).map(|r| (0..4).map(|c| r * 4 + c).collect()).collect();
    assert_eq!(leading_block(&m, 4, 3, 3), vec![vec![0, 1, 2], vec![4, 5, 6], vec![8, 9, 10]]);
    assert_eq!(leading_block(&m, 4, 0, 3), Vec::<Vec<i32>>::new());
}

#[test]
fn uniform_rows_rejects_ragged_input() {
    let ok = vec![vec![1, 2, 3], vec![4, 5, 6]];
    assert_eq!(uniform_rows(&ok, 3), Some(ok.clone()));
    assert_eq!(uniform_rows(&ok, 2), None);
    let ragged = vec![vec![1, 2, 3], vec![4, 5]];
    assert_eq!(uniform_rows(&ragged, 3), None);
    assert_eq!(uniform_rows(&Vec::<Vec<i32>>::new(), 3), Some(Vec::new()));
}

#[test]
fn exact_components_len() {
    assert_eq!(exact_components(&[1, 2], 2), Some(vec![1, 2]));
    assert_eq!(exact_components::<i32>(&[], 0), Some(vec![]));
    assert_eq!(exact_components(&[1], 2), None);
}

#[test]
fn batch_transform_shape_checks() {
    assert_eq!(batch_transform_rows(&[4, 4], &[10, 3]), Ok(10));
    assert_eq!(batch_transform_rows(&[4, 4], &[0, 3]), Ok(0));
    assert_eq!(batch_transform_rows(&[3, 3], &[10, 3]), Err(BatchShapeError::TransformNot4x4));
    assert_eq!(batch_transform_rows(&[3, 3], &[10, 2]), Err(BatchShapeError::TransformNot4x4));
    assert_eq!(batch_transform_rows(&[4, 4], &[10, 2]), Err(BatchShapeError::PointsNotNx3));
    assert_eq!(batch_transform_rows(&[4, 4], &[30]), Err(BatchShapeError::PointsNotNx3));
    assert_eq!(point_rows(&[5, 3]), Some(5));
    assert_eq!(point_rows(&[5, 3, 1]), None);
}

#[test]
fn plane_anchors_are_first_face_vertices() {
    let faces = [[2usize, 0, 1], [3, 1, 0], [0, 2, 3], [1, 3, 2]];
    assert_eq!(plane_anchor_vertices(&faces, 4, 4), vec![2, 3, 0, 1]);
    assert_eq!(plane_anchor_vertices(&faces, 2, 4), vec![2, 3]);
    assert_eq!(plane_anchor_vertices(&faces, 0, 0), Vec::<usize>::new());
}

#[test]
fn hash_keys_identify_signed_zeros_only() {
    assert_eq!(canonical_bits(NEGATIVE_ZERO_BITS), 0);
    assert_eq!(canonical_bits(0), 0);
    assert_eq!(canonical_bits(1.5f64.to_bits()), 1.5f64.to_bits());
    assert_eq!(canonical_bits((-1.5f64).to_bits()), (-1.5f64).to_bits());
    assert_ne!(hash_key(&[1.0f64.to_bits()]), hash_key(&[(-1.0f64).to_bits()]));
    assert_eq!(hash_key(&[]), Vec::<u64>::new());
    assert_eq!(hash_key(&[(-0.0f64).to_bits(), 2.0f64.to_bits()]), vec![0, 2.0f64.to_bits()]);
}

#[test]
fn euler_values_round_trip() {
    let all = PyEulerRot::all();
    assert_eq!(all.len(), EULER_ORDER_COUNT);
    for (i, e) in all.iter().enumerate() {
        assert_eq!(e.value() as usize, i);
        assert_eq!(PyEulerRot::from_value(i as i64), Some(*e));
        assert!(e.eq_int(i as i64));
    }
    assert_eq!(PyEulerRot::ZYX.value(), 0);
    assert_eq!(PyEulerRot::XZXEx.value(), 23);
    assert_eq!(PyEulerRot::from_value(24), None);
    assert_eq!(PyEulerRot::from_value(-1), None);
    assert!(!PyEulerRot::ZYX.eq_int(-1));
}

#[test]
fn bind_refusals_in_order_of_precedence() {
    let params = vec![p("a", true), p("b", false)];
    // too many positional wins over everything
    assert_eq!(
        bind_arguments(&params, 3, &kw(&["a", "zzz"])),
        Err(BindError::TooManyPositional { given: 3, max: 2 })
    );
    // keywords are checked in order: the first refused one is reported
    assert_eq!(
        bind_arguments(&params, 1, &kw(&["zzz", "a"])),
        Err(BindError::UnexpectedKeyword { keyword: 0 })
    );
    assert_eq!(
        bind_arguments(&params, 1, &kw(&["a", "zzz"])),
        Err(BindError::MultipleValues { param: 0 })
    );
    // the same keyword twice is a clash
    assert_eq!(
        bind_arguments(&params, 0, &kw(&["b", "b", "a"])),
        Err(BindError::MultipleValues { param: 1 })
    );
    // the first unknown keyword is named
    assert_eq!(
        bind_arguments(&params, 0, &kw(&["a", "q", "r"])),
        Err(BindError::UnexpectedKeyword { keyword: 1 })
    );
    // an unknown keyword wins over a missing parameter
    assert_eq!(
        bind_arguments(&params, 0, &kw(&["q"])),
        Err(BindError::UnexpectedKeyword { keyword: 0 })
    );
    assert_eq!(bind_arguments(&params, 0, &[]), Err(BindError::MissingRequired { param: 0 }));
    assert_eq!(
        bind_arguments(&params, 0, &kw(&["b", "a"])),
        Ok(vec![Some(ArgSource::Keyword(1)), Some(ArgSource::Keyword(0))])
    );
    assert_eq!(
        bind_arguments(&params, 2, &[]),
        Ok(vec![Some(ArgSource::Positional(0)), Some(ArgSource::Positional(1))])
    );
    assert!(BindError::UnexpectedKeyword { keyword: 0 }.is_type_error());
    assert!(BindError::TooManyPositional { given: 1, max: 0 }.is_type_error());
    assert!(BindError::MultipleValues { param: 0 }.is_type_error());
    assert!(!BindError::MissingRequired { param: 0 }.is_type_error());
}

#[test]
fn pickle_state_after_type_errors() {
    let params = vec![p("a", true)];
    // state restores, even when a required parameter has no value
    match plan_construction(&params, 0, &kw(&["__pickle_state__"])) {
        Ok(Construction::Restore { keyword }) => assert_eq!(keyword, 0),
        other => panic!("expected restore, got {:?}", other),
    }
    match plan_construction(&params, 1, &kw(&["__pickle_state__"])) {
        Ok(Construction::Restore { keyword }) => assert_eq!(keyword, 0),
        other => panic!("expected restore, got {:?}", other),
    }
    // but the TypeError checks come first
    assert!(matches!(
        plan_construction(&params, 5, &kw(&["__pickle_state__"])),
        Err(BindError::TooManyPositional { given: 5, max: 1 })
    ));
    assert!(matches!(
        plan_construction(&params, 0, &kw(&["zzz", "__pickle_state__"])),
        Err(BindError::UnexpectedKeyword { keyword: 0 })
    ));
    assert!(matches!(
        plan_construction(&params, 1, &kw(&["__pickle_state__", "a"])),
        Err(BindError::MultipleValues { param: 0 })
    ));
    assert!(matches!(
        plan_construction(&params, 0, &kw(&["__pickle_state__", "__pickle_state__"])),
        Err(BindError::MultipleValues { param: 1 })
    ));
    // without state, the bound arguments or the missing parameter
    match plan_construction(&params, 1, &[]) {
        Ok(Construction::Fields { slots }) => assert_eq!(slots, vec![Some(ArgSource::Positional(0))]),
        other => panic!("expected fields, got {:?}", other),
    }
    assert!(matches!(plan_construction(&params, 0, &[]), Err(BindError::MissingRequired { param: 0 })));
    // bind_arguments accepts no state keyword
    assert_eq!(
        bind_arguments(&params, 0, &kw(&["__pickle_state__"])),
        Err(BindError::UnexpectedKeyword { keyword: 0 })
    );
}

#[test]
fn class_table() {
    for c in [WrapperClass::Vec2, WrapperClass::Mat4, WrapperClass::Spline, WrapperClass::EulerRot] {
        assert_eq!(lookup_export(&c.python_name().to_string()), Some(c));
    }
    assert_eq!(lookup_export(&"NoSuchThing".to_string()), None);
    assert_eq!(lookup_export(&"vec3".to_string()), None);
    assert!(WrapperClass::EulerRot.constructor_params().is_none());
    let ps = WrapperClass::Pointcloud.constructor_params().unwrap();
    let names: Vec<&str> = ps.iter().map(|p| p.name.as_str()).collect();
    assert_eq!(names, vec!["points", "r_range", "point_radius"]);
    assert_eq!(ps.iter().map(|p| p.required).collect::<Vec<_>>(), vec![true, false, false]);
    assert_eq!(
        WrapperClass::ConvexPolygon.dataclass_fields(),
        kw(&["center", "normal", "u_axis", "v_axis", "vertices_2d"])
    );
    assert_eq!(WrapperClass::Affine3.dataclass_fields(), kw(&["matrix3", "translation"]));
}

#[test]
fn module_attributes_resolve_to_their_classes() {
    let attrs = module_attributes();
    assert_eq!(attrs.len(), 37);
    for (name, class) in &attrs {
        assert_eq!(lookup_export(&name.to_string()), Some(*class));
    }
    for (name, class) in &attrs[..28] {
        assert_eq!(*name, class.python_name());
    }
    assert!(attrs.contains(&("Quaternion", WrapperClass::Quat)));
    assert!(attrs.contains(&("ObstacleUnion", WrapperClass::Collider)));
    assert!(attrs.contains(&("Translation3d", WrapperClass::Vec3)));
}

fn counts(s: usize, caps: usize, cub: usize, cyl: usize, pt: usize, pg: usize, pc: usize) -> ShapeCounts {
    ShapeCounts {
        spheres: s,
        capsules: caps,
        cuboids: cub,
        cylinders: cyl,
        polytopes: pt,
        polygons: pg,
        lines: 0,
        rays: 0,
        segments: 0,
        planes: 0,
        pointclouds: pc,
    }
}

#[test]
fn collider_listing_and_count() {
    let c = counts(2, 1, 0, 1, 0, 1, 2);
    let plan = stream_plan(&c);
    assert_eq!(
        plan,
        vec![
            (ShapeKind::Sphere, 0),
            (ShapeKind::Sphere, 1),
            (ShapeKind::Capsule, 0),
            (ShapeKind::Cylinder, 0),
            (ShapeKind::ConvexPolygon, 0),
            (ShapeKind::Pointcloud, 0),
            (ShapeKind::Pointcloud, 1),
        ]
    );
    assert_eq!(obstacle_count(&c), Some(plan.len()));
    let empty = counts(0, 0, 0, 0, 0, 0, 0);
    assert_eq!(obstacle_count(&empty), Some(0));
    assert!(stream_plan(&empty).is_empty());
    let huge = counts(usize::MAX, 1, 0, 0, 0, 0, 0);
    assert_eq!(obstacle_count(&huge), None);
    let edge = counts(usize::MAX - 1, 1, 0, 0, 0, 0, 0);
    assert_eq!(obstacle_count(&edge), Some(usize::MAX));
}

#[test]
fn collider_streams_lines_rays_segments_and_planes() {
    let mut c = counts(1, 0, 0, 0, 0, 0, 1);
    c.lines = 1;
    c.rays = 2;
    c.segments = 1;
    c.planes = 1;
    assert_eq!(
        stream_plan(&c),
        vec![
            (ShapeKind::Sphere, 0),
            (ShapeKind::Line, 0),
            (ShapeKind::Ray, 0),
            (ShapeKind::Ray, 1),
            (ShapeKind::LineSegment, 0),
            (ShapeKind::Plane, 0),
            (ShapeKind::Pointcloud, 0),
        ]
    );
    // the reported length leaves out lines, rays, segments and planes
    assert_eq!(obstacle_count(&c), Some(2));
    let only_line = add_obstacles(&counts(0, 0, 0, 0, 0, 0, 0), &[ShapeKind::Line]).unwrap();
    assert_eq!(stream_plan(&only_line), vec![(ShapeKind::Line, 0)]);
    assert_eq!(obstacle_count(&only_line), Some(0));
}

#[test]
fn obstacle_arguments() {
    assert_eq!(obstacles_to_add(&ObstacleArg::Nothing), Ok(vec![]));
    assert_eq!(obstacles_to_add(&ObstacleArg::One(ShapeKind::Cuboid)), Ok(vec![ShapeKind::Cuboid]));
    assert_eq!(
        obstacles_to_add(&ObstacleArg::Many(vec![Some(ShapeKind::Sphere), Some(ShapeKind::Plane)])),
        Ok(vec![ShapeKind::Sphere, ShapeKind::Plane])
    );
    assert_eq!(obstacles_to_add(&ObstacleArg::Many(vec![])), Ok(vec![]));
    assert_eq!(
        obstacles_to_add(&ObstacleArg::Many(vec![Some(ShapeKind::Sphere), None, None])),
        Err(ObstacleError::ItemNotObstacle { index: 1 })
    );
    assert_eq!(obstacles_to_add(&ObstacleArg::Unsupported), Err(ObstacleError::NotObstacle));
}

#[test]
fn adding_obstacles_updates_counts() {
    let c = counts(2, 1, 0, 1, 0, 1, 2);
    let before = obstacle_count(&c).unwrap();
    let kinds = vec![ShapeKind::Sphere, ShapeKind::Line, ShapeKind::Pointcloud, ShapeKind::Plane];
    let d = add_obstacles(&c, &kinds).unwrap();
    assert_eq!(d.spheres, 3);
    assert_eq!(d.lines, 1);
    assert_eq!(d.planes, 1);
    assert_eq!(d.pointclouds, 3);
    assert_eq!(obstacle_count(&d), Some(before + 2));
    assert_eq!(stream_plan(&d).len(), stream_plan(&c).len() + 4);
    assert_eq!(add_obstacles(&c, &[]), Some(c));
    let full = counts(usize::MAX, 0, 0, 0, 0, 0, 0);
    assert_eq!(add_obstacles(&full, &[ShapeKind::Sphere]), None);
    assert!(add_obstacles(&full, &[ShapeKind::Cuboid]).is_some());
}
