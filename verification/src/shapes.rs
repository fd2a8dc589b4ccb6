//! Shape kinds, and the bookkeeping of a collider's obstacles: which shape
//! queries a collider answers, how many obstacles it reports, and in what
//! order it lists them.

use vstd::prelude::*;

verus! {

/// The kinds of collision shape.
#[derive(Debug, Clone, Copy, PartialEq, Eq, Structural, Hash)]
pub enum ShapeKind {
    Sphere,
    Capsule,
    Cuboid,
    Cylinder,
    ConvexPolytope,
    ConvexPolygon,
    Line,
    Ray,
    LineSegment,
    Plane,
    Pointcloud,
}

/// Why a collider refuses a shape query.
#[derive(Debug, Clone, Copy, PartialEq, Eq, Structural)]
pub enum QueryError {
    /// A collider that may hold point clouds cannot be queried with a point
    /// cloud (`ValueError`).
    PointcloudQuery,
}

/// Whether a collider answers a collision query with a shape of this kind:
/// every kind but a point cloud.
pub fn collider_query(kind: ShapeKind) -> (r: Result<(), QueryError>)
    ensures
        r is Err <==> kind == ShapeKind::Pointcloud,
        r matches Err(e) ==> e == QueryError::PointcloudQuery,
{
    match kind {
        ShapeKind::Pointcloud => Err(QueryError::PointcloudQuery),
        _ => Ok(()),
    }
}

/// How many obstacles of each kind a collider holds.
#[derive(Debug, Clone, Copy, PartialEq, Eq, Structural)]
pub struct ShapeCounts {
    pub spheres: usize,
    pub capsules: usize,
    pub cuboids: usize,
    pub cylinders: usize,
    pub polytopes: usize,
    pub polygons: usize,
    pub lines: usize,
    pub rays: usize,
    pub segments: usize,
    pub planes: usize,
    pub pointclouds: usize,
}

/// Number of obstacles of kind `k`.
pub open spec fn count_of(c: ShapeCounts, k: ShapeKind) -> usize {
    match k {
        ShapeKind::Sphere => c.spheres,
        ShapeKind::Capsule => c.capsules,
        ShapeKind::Cuboid => c.cuboids,
        ShapeKind::Cylinder => c.cylinders,
        ShapeKind::ConvexPolytope => c.polytopes,
        ShapeKind::ConvexPolygon => c.polygons,
        ShapeKind::Line => c.lines,
        ShapeKind::Ray => c.rays,
        ShapeKind::LineSegment => c.segments,
        ShapeKind::Plane => c.planes,
        ShapeKind::Pointcloud => c.pointclouds,
    }
}

/// Total number of obstacles a collider holds.
pub open spec fn total_obstacles(c: ShapeCounts) -> int {
    count_of(c, ShapeKind::Sphere)
        + count_of(c, ShapeKind::Capsule)
        + count_of(c, ShapeKind::Cuboid)
        + count_of(c, ShapeKind::Cylinder)
        + count_of(c, ShapeKind::ConvexPolytope)
        + count_of(c, ShapeKind::ConvexPolygon)
        + count_of(c, ShapeKind::Line)
        + count_of(c, ShapeKind::Ray)
        + count_of(c, ShapeKind::LineSegment)
        + count_of(c, ShapeKind::Plane)
        + count_of(c, ShapeKind::Pointcloud)
}

/// The first `n` obstacles of kind `k`, each as its kind and index.
pub open spec fn run_of(k: ShapeKind, n: usize) -> Seq<(ShapeKind, usize)> {
    Seq::new(n as nat, |i: int| (k, i as usize))
}

/// The listing of a collider's obstacles: all spheres, then capsules,
/// cuboids, cylinders, polytopes, polygons, lines, rays, segments, planes
/// and point clouds, each kind in its stored order.
pub open spec fn listing(c: ShapeCounts) -> Seq<(ShapeKind, usize)> {
    run_of(ShapeKind::Sphere, c.spheres) + run_of(ShapeKind::Capsule, c.capsules) + run_of(
        ShapeKind::Cuboid,
        c.cuboids,
    ) + run_of(ShapeKind::Cylinder, c.cylinders) + run_of(ShapeKind::ConvexPolytope, c.polytopes)
        + run_of(ShapeKind::ConvexPolygon, c.polygons) + run_of(ShapeKind::Line, c.lines) + run_of(
        ShapeKind::Ray,
        c.rays,
    ) + run_of(ShapeKind::LineSegment, c.segments) + run_of(ShapeKind::Plane, c.planes) + run_of(
        ShapeKind::Pointcloud,
        c.pointclouds,
    )
}

/// The number of obstacles a collider reports as its length: its spheres,
/// capsules, cuboids, cylinders, polytopes, polygons and point clouds. Lines,
/// rays, segments and planes are held (and streamed) but not counted.
pub open spec fn reported_count(c: ShapeCounts) -> int {
    count_of(c, ShapeKind::Sphere)
        + count_of(c, ShapeKind::Capsule)
        + count_of(c, ShapeKind::Cuboid)
        + count_of(c, ShapeKind::Cylinder)
        + count_of(c, ShapeKind::ConvexPolytope)
        + count_of(c, ShapeKind::ConvexPolygon)
        + count_of(c, ShapeKind::Pointcloud)
}

/// The length a collider reports (`len`); `None` when that number does not
/// fit in a `usize`.
pub fn obstacle_count(c: &ShapeCounts) -> (r: Option<usize>)
    ensures
        r is Some <==> reported_count(*c) <= usize::MAX,
        r matches Some(n) ==> n == reported_count(*c),
{
    let total: u128 = c.spheres as u128 + c.capsules as u128 + c.cuboids as u128
        + c.cylinders as u128 + c.polytopes as u128 + c.polygons as u128
        + c.pointclouds as u128;
    if total <= usize::MAX as u128 {
        Some(total as usize)
    } else {
        None
    }
}

fn push_run(out: &mut Vec<(ShapeKind, usize)>, kind: ShapeKind, n: usize)
    ensures
        final(out)@ == old(out)@ + run_of(kind, n),
{
    let ghost start = out@;
    let mut i: usize = 0;
    while i < n
        invariant
            i <= n,
            out@ == start + run_of(kind, i),
        decreases n - i,
    {
        out.push((kind, i));
        i += 1;
        assert(out@ =~= start + run_of(kind, i));
    }
}

/// The obstacles a collider lists (`stream`): every one it holds, each as
/// its kind and its index among the obstacles of that kind.
pub fn stream_plan(c: &ShapeCounts) -> (r: Vec<(ShapeKind, usize)>)
    ensures
        r@ == listing(*c),
{
    let mut out: Vec<(ShapeKind, usize)> = Vec::new();
    push_run(&mut out, ShapeKind::Sphere, c.spheres);
    push_run(&mut out, ShapeKind::Capsule, c.capsules);
    push_run(&mut out, ShapeKind::Cuboid, c.cuboids);
    push_run(&mut out, ShapeKind::Cylinder, c.cylinders);
    push_run(&mut out, ShapeKind::ConvexPolytope, c.polytopes);
    push_run(&mut out, ShapeKind::ConvexPolygon, c.polygons);
    push_run(&mut out, ShapeKind::Line, c.lines);
    push_run(&mut out, ShapeKind::Ray, c.rays);
    push_run(&mut out, ShapeKind::LineSegment, c.segments);
    push_run(&mut out, ShapeKind::Plane, c.planes);
    push_run(&mut out, ShapeKind::Pointcloud, c.pointclouds);
    assert(out@ =~= listing(*c));
    out
}

/// A collider lists as many obstacles as it reports, each listed entry
/// names an obstacle it holds, and each obstacle it holds is listed.
pub proof fn lemma_listing_matches_count(c: ShapeCounts)
    ensures
        listing(c).len() == total_obstacles(c),
        forall|i: int|
            0 <= i < listing(c).len() ==> (#[trigger] listing(c)[i]).1 < count_of(c, listing(c)[i].0),
        forall|k: ShapeKind, j: usize| j < count_of(c, k) ==> listing(c).contains((k, j)),
{
    let l = listing(c);
    assert forall|i: int| 0 <= i < l.len() implies (#[trigger] l[i]).1 < count_of(c, l[i].0) by {}
    assert forall|k: ShapeKind, j: usize| j < count_of(c, k) implies l.contains((k, j)) by {
        let o1 = c.spheres as int;
        let o2 = o1 + c.capsules;
        let o3 = o2 + c.cuboids;
        let o4 = o3 + c.cylinders;
        let o5 = o4 + c.polytopes;
        let o6 = o5 + c.polygons;
        let o7 = o6 + c.lines;
        let o8 = o7 + c.rays;
        let o9 = o8 + c.segments;
        let o10 = o9 + c.planes;
        let idx: int = match k {
            ShapeKind::Sphere => j as int,
            ShapeKind::Capsule => o1 + j,
            ShapeKind::Cuboid => o2 + j,
            ShapeKind::Cylinder => o3 + j,
            ShapeKind::ConvexPolytope => o4 + j,
            ShapeKind::ConvexPolygon => o5 + j,
            ShapeKind::Line => o6 + j,
            ShapeKind::Ray => o7 + j,
            ShapeKind::LineSegment => o8 + j,
            ShapeKind::Plane => o9 + j,
            ShapeKind::Pointcloud => o10 + j,
        };
        assert(l[idx] == (k, j));
    }
}

/// What an argument of `new_with_any` (or `from_any`) is to a collider.
#[derive(Debug)]
pub enum ObstacleArg {
    /// `None`: nothing to add.
    Nothing,
    /// A single obstacle of this kind: a shape, a primitive, or a trimesh
    /// (taken as a convex polytope).
    One(ShapeKind),
    /// An iterable whose items are each an obstacle of the given kind, or
    /// (`None`) something that is not an obstacle.
    Many(Vec<Option<ShapeKind>>),
    /// Anything else.
    Unsupported,
}

/// Why a collider refuses the obstacles it is given.
#[derive(Debug, Clone, Copy, PartialEq, Eq, Structural)]
pub enum ObstacleError {
    /// The item with this index of an iterable is not an obstacle
    /// (`TypeError`).
    ItemNotObstacle { index: usize },
    /// The argument is neither `None`, an obstacle, nor an iterable
    /// (`TypeError`).
    NotObstacle,
}

/// Every item is an obstacle.
pub open spec fn all_obstacles(items: Seq<Option<ShapeKind>>) -> bool {
    forall|i: int| 0 <= i < items.len() ==> (#[trigger] items[i]) is Some
}

/// Item `i` is the first one that is not an obstacle.
pub open spec fn first_non_obstacle(items: Seq<Option<ShapeKind>>, i: int) -> bool {
    &&& 0 <= i < items.len()
    &&& items[i] is None
    &&& forall|j: int| 0 <= j < i ==> (#[trigger] items[j]) is Some
}

/// The kinds of the items (of items that are all obstacles).
pub open spec fn item_kinds(items: Seq<Option<ShapeKind>>) -> Seq<ShapeKind> {
    items.map_values(|o: Option<ShapeKind>| o->0)
}

/// The kinds of the items when every one is an obstacle; otherwise the
/// index of the first item that is not.
fn obstacle_items(items: &[Option<ShapeKind>]) -> (r: Result<Vec<ShapeKind>, usize>)
    ensures
        match r {
            Ok(v) => all_obstacles(items@) && v@ == item_kinds(items@),
            Err(index) => first_non_obstacle(items@, index as int),
        },
{
    let mut v: Vec<ShapeKind> = Vec::new();
    let mut i: usize = 0;
    while i < items.len()
        invariant
            i <= items@.len(),
            forall|j: int| 0 <= j < i ==> (#[trigger] items@[j]) is Some,
            v@ == item_kinds(items@.take(i as int)),
        decreases items@.len() - i,
    {
        match items[i] {
            Some(k) => {
                v.push(k);
            },
            None => {
                return Err(i);
            },
        }
        i += 1;
        assert(v@ =~= item_kinds(items@.take(i as int)));
    }
    assert(items@.take(i as int) =~= items@);
    Ok(v)
}

/// The kinds of the obstacles that an argument adds to a collider, in
/// order, or why it is refused: `None` adds nothing, a single obstacle adds
/// itself, an iterable adds its items when every one is an obstacle.
pub fn obstacles_to_add(arg: &ObstacleArg) -> (r: Result<Vec<ShapeKind>, ObstacleError>)
    ensures
        match arg {
            ObstacleArg::Nothing => r matches Ok(v) && v@ == Seq::<ShapeKind>::empty(),
            ObstacleArg::One(k) => r matches Ok(v) && v@ == seq![*k],
            ObstacleArg::Many(items) => match r {
                Ok(v) => all_obstacles(items@) && v@ == item_kinds(items@),
                Err(e) => e matches ObstacleError::ItemNotObstacle { index } && first_non_obstacle(
                    items@,
                    index as int,
                ),
            },
            ObstacleArg::Unsupported => r == Err::<Vec<ShapeKind>, ObstacleError>(
                ObstacleError::NotObstacle,
            ),
        },
{
    match arg {
        ObstacleArg::Nothing => Ok(Vec::new()),
        ObstacleArg::One(k) => {
            let mut v: Vec<ShapeKind> = Vec::new();
            v.push(*k);
            Ok(v)
        },
        ObstacleArg::Many(items) => match obstacle_items(items) {
            Ok(v) => Ok(v),
            Err(index) => Err(ObstacleError::ItemNotObstacle { index }),
        },
        ObstacleArg::Unsupported => Err(ObstacleError::NotObstacle),
    }
}

/// Number of times kind `k` occurs in `ks`.
pub open spec fn occurrences(ks: Seq<ShapeKind>, k: ShapeKind) -> int
    decreases ks.len(),
{
    if ks.len() == 0 {
        0
    } else {
        occurrences(ks.drop_last(), k) + if ks.last() == k {
            1int
        } else {
            0int
        }
    }
}

/// The counts of every kind stay within a `usize` once the obstacles of
/// kinds `ks` are added.
pub open spec fn counts_fit(c: ShapeCounts, ks: Seq<ShapeKind>) -> bool {
    forall|k: ShapeKind| count_of(c, k) + #[trigger] occurrences(ks, k) <= usize::MAX
}

/// The occurrences in a prefix are those of the shorter prefix plus the
/// new last item.
proof fn lemma_occurrences_step(ks: Seq<ShapeKind>, i: int, k: ShapeKind)
    requires
        0 <= i < ks.len(),
    ensures
        occurrences(ks.take(i + 1), k) == occurrences(ks.take(i), k) + if ks[i] == k {
            1int
        } else {
            0int
        },
{
    assert(ks.take(i + 1).drop_last() =~= ks.take(i));
}

/// A prefix has no more occurrences than the whole sequence.
proof fn lemma_occurrences_prefix(ks: Seq<ShapeKind>, i: int, k: ShapeKind)
    requires
        0 <= i <= ks.len(),
    ensures
        occurrences(ks.take(i), k) <= occurrences(ks, k),
    decreases ks.len() - i,
{
    if i < ks.len() {
        lemma_occurrences_step(ks, i, k);
        lemma_occurrences_prefix(ks, i + 1, k);
    } else {
        assert(ks.take(i) =~= ks);
    }
}

/// Counts with one more obstacle of kind `k`.
fn increment(c: &mut ShapeCounts, k: ShapeKind)
    requires
        count_of(*old(c), k) < usize::MAX,
    ensures
        count_of(*final(c), k) == count_of(*old(c), k) + 1,
        forall|k2: ShapeKind| k2 != k ==> #[trigger] count_of(*final(c), k2) == count_of(*old(c), k2),
{
    match k {
        ShapeKind::Sphere => c.spheres = c.spheres + 1,
        ShapeKind::Capsule => c.capsules = c.capsules + 1,
        ShapeKind::Cuboid => c.cuboids = c.cuboids + 1,
        ShapeKind::Cylinder => c.cylinders = c.cylinders + 1,
        ShapeKind::ConvexPolytope => c.polytopes = c.polytopes + 1,
        ShapeKind::ConvexPolygon => c.polygons = c.polygons + 1,
        ShapeKind::Line => c.lines = c.lines + 1,
        ShapeKind::Ray => c.rays = c.rays + 1,
        ShapeKind::LineSegment => c.segments = c.segments + 1,
        ShapeKind::Plane => c.planes = c.planes + 1,
        ShapeKind::Pointcloud => c.pointclouds = c.pointclouds + 1,
    }
}

/// The counts of a collider after adding obstacles of kinds `ks`; `None`
/// when a count would not fit in a `usize`.
pub fn add_obstacles(c: &ShapeCounts, ks: &[ShapeKind]) -> (r: Option<ShapeCounts>)
    ensures
        r is Some <==> counts_fit(*c, ks@),
        r matches Some(d) ==> forall|k: ShapeKind|
            #[trigger] count_of(d, k) == count_of(*c, k) + occurrences(ks@, k),
{
    let mut d: ShapeCounts = *c;
    let mut i: usize = 0;
    assert(ks@.take(0) =~= Seq::<ShapeKind>::empty());
    while i < ks.len()
        invariant
            i <= ks@.len(),
            forall|k: ShapeKind|
                #[trigger] count_of(d, k) == count_of(*c, k) + occurrences(ks@.take(i as int), k),
        decreases ks@.len() - i,
    {
        let k = ks[i];
        let n = match k {
            ShapeKind::Sphere => d.spheres,
            ShapeKind::Capsule => d.capsules,
            ShapeKind::Cuboid => d.cuboids,
            ShapeKind::Cylinder => d.cylinders,
            ShapeKind::ConvexPolytope => d.polytopes,
            ShapeKind::ConvexPolygon => d.polygons,
            ShapeKind::Line => d.lines,
            ShapeKind::Ray => d.rays,
            ShapeKind::LineSegment => d.segments,
            ShapeKind::Plane => d.planes,
            ShapeKind::Pointcloud => d.pointclouds,
        };
        assert(n == count_of(d, k));
        proof {
            lemma_occurrences_step(ks@, i as int, k);
        }
        if n == usize::MAX {
            proof {
                lemma_occurrences_prefix(ks@, i + 1, k);
                assert(count_of(*c, k) + occurrences(ks@, k) > usize::MAX);
            }
            return None;
        }
        proof {
            assert forall|k2: ShapeKind| k2 != k implies occurrences(ks@.take(i + 1), k2)
                == occurrences(ks@.take(i as int), k2) by {
                lemma_occurrences_step(ks@, i as int, k2);
            }
        }
        increment(&mut d, k);
        i += 1;
    }
    assert(ks@.take(i as int) =~= ks@);
    assert forall|k: ShapeKind| count_of(*c, k) + #[trigger] occurrences(ks@, k) <= usize::MAX by {
        assert(count_of(d, k) == count_of(*c, k) + occurrences(ks@, k));
    }
    Some(d)
}

/// The occurrences of all kinds add up to the length of the sequence, and
/// no kind occurs a negative number of times.
proof fn lemma_occurrences_sum(ks: Seq<ShapeKind>)
    ensures
        occurrences(ks, ShapeKind::Sphere) + occurrences(ks, ShapeKind::Capsule) + occurrences(ks, ShapeKind::Cuboid) + occurrences(ks, ShapeKind::Cylinder) + occurrences(ks, ShapeKind::ConvexPolytope) + occurrences(ks, ShapeKind::ConvexPolygon) + occurrences(ks, ShapeKind::Line) + occurrences(ks, ShapeKind::Ray) + occurrences(ks, ShapeKind::LineSegment) + occurrences(ks, ShapeKind::Plane) + occurrences(ks, ShapeKind::Pointcloud) == ks.len(),
        forall|k: ShapeKind| #[trigger] occurrences(ks, k) >= 0,
    decreases ks.len(),
{
    if ks.len() > 0 {
        lemma_occurrences_sum(ks.drop_last());
        assert forall|k: ShapeKind| #[trigger] occurrences(ks, k) >= 0 by {
            assert(occurrences(ks.drop_last(), k) >= 0);
        }
    }
}

/// Adding obstacles raises the number a collider reports, and the length of
/// its listing, by the number of obstacles added.
pub proof fn lemma_added_obstacles_counted(c: ShapeCounts, ks: Seq<ShapeKind>, d: ShapeCounts)
    requires
        forall|k: ShapeKind| #[trigger] count_of(d, k) == count_of(c, k) + occurrences(ks, k),
    ensures
        total_obstacles(d) == total_obstacles(c) + ks.len(),
        listing(d).len() == listing(c).len() + ks.len(),
{
    lemma_occurrences_sum(ks);
    lemma_listing_matches_count(c);
    lemma_listing_matches_count(d);
}

/// Adding one obstacle to a collider raises its reported length by one when
/// the obstacle is a sphere, capsule, cuboid, cylinder, polytope, polygon or
/// point cloud, and leaves it unchanged for a line, ray, segment or plane;
/// an empty collider reports length zero.
pub proof fn lemma_len_counts_solid_obstacles(c: ShapeCounts, k: ShapeKind, d: ShapeCounts)
    requires
        forall|k2: ShapeKind| #[trigger] count_of(d, k2) == count_of(c, k2) + if k2 == k {
            1int
        } else {
            0int
        },
    ensures
        (k == ShapeKind::Line || k == ShapeKind::Ray || k == ShapeKind::LineSegment || k
            == ShapeKind::Plane) ==> reported_count(d) == reported_count(c),
        !(k == ShapeKind::Line || k == ShapeKind::Ray || k == ShapeKind::LineSegment || k
            == ShapeKind::Plane) ==> reported_count(d) == reported_count(c) + 1,
        (forall|k2: ShapeKind| #[trigger] count_of(c, k2) == 0) ==> reported_count(c) == 0,
{
}

} // verus!
