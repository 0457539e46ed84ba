//! Laws of the intersection protocol, stated over the same spec functions
//! that the operation contracts use and proved once for all inputs.

use vstd::prelude::*;
use crate::geometry::Coordinate;
use crate::geometry::Geometry;
use crate::geometry::GeometryCollection;
use crate::geometry::MultiLineString;
use crate::geometry::MultiPoint;
use crate::geometry::MultiPolygon;
use crate::geometry::Point;
use crate::geometry::Polygon;
use crate::intersection::Intersection;
use crate::intersection_enums::GeometryIntersection;
use crate::intersection_enums::PointIntersection;
use crate::intersects::collection_meets;
use crate::intersects::cross;
use crate::intersects::geometry_meets;
use crate::intersects::line_string_meets;
use crate::intersects::multi_line_string_meets;
use crate::intersects::multi_point_meets;
use crate::intersects::multi_polygon_meets;
use crate::intersects::on_segment;
use crate::intersects::point_meets;
use crate::intersects::polygon_meets;
use crate::intersects::ring_parity;

verus! {

/// Symmetry: a geometry meets a point exactly when the point meets the
/// geometry, and on a hit both directions carry the same coordinate value —
/// the query point itself.
pub proof fn lemma_intersection_symmetric(g: Geometry, p: Point)
    ensures
        g.meets(&p) <==> p.meets(&g),
        g.hit(&p) == GeometryIntersection::Point(p),
        p.hit(&g) == PointIntersection::Point(p),
{
}

/// Reflexivity: every point meets itself, so intersecting a point with
/// itself always reports the point.
pub proof fn lemma_point_self_intersection(p: Point)
    ensures
        p.meets(&p),
        p.hit(&p) == PointIntersection::Point(p),
{
}

/// Existential composition: a MultiPoint meets a point exactly when some
/// member point meets it.
pub proof fn lemma_multi_point_existential(mp: MultiPoint, p: Point)
    ensures
        mp.meets(&p) <==> (exists|i: int|
            0 <= i < mp.0@.len() && (#[trigger] mp.0@[i]).meets(&p)),
{
    if multi_point_meets(mp, p.0) {
        let i = choose|i: int| 0 <= i < mp.0@.len() && #[trigger] point_meets(mp.0@[i], p.0);
        assert(mp.0@[i].meets(&p));
    }
    if exists|i: int| 0 <= i < mp.0@.len() && (#[trigger] mp.0@[i]).meets(&p) {
        let i = choose|i: int| 0 <= i < mp.0@.len() && (#[trigger] mp.0@[i]).meets(&p);
        assert(point_meets(mp.0@[i], p.0));
    }
}

/// Existential composition: a MultiLineString meets a point exactly when
/// some member polyline meets it.
pub proof fn lemma_multi_line_string_existential(mls: MultiLineString, p: Point)
    ensures
        mls.meets(&p) <==> (exists|i: int|
            0 <= i < mls.0@.len() && (#[trigger] mls.0@[i]).meets(&p)),
{
    if multi_line_string_meets(mls, p.0) {
        let i = choose|i: int|
            0 <= i < mls.0@.len() && #[trigger] line_string_meets(mls.0@[i], p.0);
        assert(mls.0@[i].meets(&p));
    }
    if exists|i: int| 0 <= i < mls.0@.len() && (#[trigger] mls.0@[i]).meets(&p) {
        let i = choose|i: int| 0 <= i < mls.0@.len() && (#[trigger] mls.0@[i]).meets(&p);
        assert(line_string_meets(mls.0@[i], p.0));
    }
}

/// Existential composition: a MultiPolygon meets a point exactly when some
/// member polygon meets it.
pub proof fn lemma_multi_polygon_existential(mp: MultiPolygon, p: Point)
    ensures
        mp.meets(&p) <==> (exists|i: int|
            0 <= i < mp.0@.len() && (#[trigger] mp.0@[i]).meets(&p)),
{
    if multi_polygon_meets(mp, p.0) {
        let i = choose|i: int| 0 <= i < mp.0@.len() && #[trigger] polygon_meets(mp.0@[i], p.0);
        assert(mp.0@[i].meets(&p));
    }
    if exists|i: int| 0 <= i < mp.0@.len() && (#[trigger] mp.0@[i]).meets(&p) {
        let i = choose|i: int| 0 <= i < mp.0@.len() && (#[trigger] mp.0@[i]).meets(&p);
        assert(polygon_meets(mp.0@[i], p.0));
    }
}

/// Existential composition: a GeometryCollection meets a point exactly when
/// some member geometry meets it.
pub proof fn lemma_collection_existential(gc: GeometryCollection, p: Point)
    ensures
        gc.meets(&p) <==> (exists|i: int|
            0 <= i < gc.0@.len() && (#[trigger] gc.0@[i]).meets(&p)),
{
    if collection_meets(gc, p.0) {
        let i = choose|i: int| 0 <= i < gc.0@.len() && geometry_meets(#[trigger] gc.0@[i], p.0);
        assert(gc.0@[i].meets(&p));
    }
    if exists|i: int| 0 <= i < gc.0@.len() && (#[trigger] gc.0@[i]).meets(&p) {
        let i = choose|i: int| 0 <= i < gc.0@.len() && (#[trigger] gc.0@[i]).meets(&p);
        assert(geometry_meets(gc.0@[i], p.0));
    }
}

/// Empty-container law: an empty MultiPoint meets no point.
pub proof fn lemma_empty_multi_point(mp: MultiPoint, p: Point)
    requires
        mp.0@.len() == 0,
    ensures
        !mp.meets(&p),
{
}

/// Empty-container law: an empty MultiLineString meets no point.
pub proof fn lemma_empty_multi_line_string(mls: MultiLineString, p: Point)
    requires
        mls.0@.len() == 0,
    ensures
        !mls.meets(&p),
{
}

/// Empty-container law: an empty MultiPolygon meets no point.
pub proof fn lemma_empty_multi_polygon(mp: MultiPolygon, p: Point)
    requires
        mp.0@.len() == 0,
    ensures
        !mp.meets(&p),
{
}

/// Empty-container law: an empty GeometryCollection meets no point.
pub proof fn lemma_empty_collection(gc: GeometryCollection, p: Point)
    requires
        gc.0@.len() == 0,
    ensures
        !gc.meets(&p),
{
}

/// A segment contains both of its endpoints.
pub proof fn lemma_segment_endpoints(a: Coordinate, b: Coordinate)
    ensures
        on_segment(a, b, a),
        on_segment(a, b, b),
{
    assert(cross(a, b, a) == 0) by (nonlinear_arith);
    assert(cross(a, b, b) == 0) by (nonlinear_arith);
}

/// Boundary inclusion: a polygon meets every vertex of its exterior ring,
/// provided the ring has a segment at all (a ring of a single coordinate has
/// none, and encloses nothing).
pub proof fn lemma_polygon_meets_exterior_vertex(poly: Polygon, i: int)
    requires
        poly.exterior.0@.len() >= 2,
        0 <= i < poly.exterior.0@.len(),
    ensures
        polygon_meets(poly, poly.exterior.0@[i]),
{
    let c = poly.exterior.0@[i];
    if i < poly.exterior.0@.len() - 1 {
        // The vertex starts the segment that leaves it.
        lemma_segment_endpoints(poly.exterior.0@[i], poly.exterior.0@[i + 1]);
        assert(on_segment(poly.exterior.0@[i], poly.exterior.0@[i + 1], c));
    } else {
        // The last vertex ends the segment that reaches it.
        let j: int = i - 1;
        lemma_segment_endpoints(poly.exterior.0@[j], poly.exterior.0@[j + 1]);
        assert(on_segment(poly.exterior.0@[j], poly.exterior.0@[j + 1], c));
    }
}

/// A segment contains the same coordinates whichever way round its endpoints
/// are given.
pub proof fn lemma_segment_direction_irrelevant(a: Coordinate, b: Coordinate, c: Coordinate)
    ensures
        on_segment(a, b, c) == on_segment(b, a, c),
{
    assert(cross(a, b, c) == -cross(b, a, c)) by (nonlinear_arith);
}

/// Boundary inclusion: a coordinate on some hole's ring still meets the
/// polygon.
pub proof fn lemma_polygon_meets_hole_boundary(poly: Polygon, i: int, c: Coordinate)
    requires
        0 <= i < poly.interiors@.len(),
        line_string_meets(poly.interiors@[i], c),
    ensures
        polygon_meets(poly, c),
{
}

/// Boundary exclusion: a coordinate strictly inside some hole — enclosed by
/// the hole's ring while touching no ring of the polygon — meets nothing.
pub proof fn lemma_polygon_misses_hole_interior(poly: Polygon, i: int, c: Coordinate)
    requires
        0 <= i < poly.interiors@.len(),
        ring_parity(poly.interiors@[i].0@, c),
        !line_string_meets(poly.exterior, c),
        forall|j: int| 0 <= j < poly.interiors@.len() ==> !#[trigger] line_string_meets(
            poly.interiors@[j],
            c,
        ),
    ensures
        !polygon_meets(poly, c),
{
}

} // verus!
