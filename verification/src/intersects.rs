//! The boundary-inclusive containment predicate: does a query coordinate lie
//! on (or, for areal geometry, inside) a shape?
//!
//! The spec functions here are the mathematical model that every intersection
//! contract refers to; the exec functions compute them exactly, using wide
//! intermediates so that no cross product can overflow.

use vstd::prelude::*;
use crate::geometry::Coordinate;
use crate::geometry::Geometry;
use crate::geometry::GeometryCollection;
use crate::geometry::Line;
use crate::geometry::LineString;
use crate::geometry::MultiLineString;
use crate::geometry::MultiPoint;
use crate::geometry::MultiPolygon;
use crate::geometry::Point;
use crate::geometry::Polygon;

verus! {

/// Two points meet exactly when their coordinates coincide; there is no
/// tolerance at this layer.
pub open spec fn point_meets(p: Point, c: Coordinate) -> bool {
    p.0 == c
}

/// Computes [`point_meets`] exactly.
pub fn point_contains(p: &Point, c: Coordinate) -> (r: bool)
    ensures
        r == point_meets(*p, c),
{
    p.0.x == c.x && p.0.y == c.y
}

/// The cross product of `b - a` and `c - a`: zero exactly when `a`, `b`, `c`
/// are collinear, and its sign gives the side of the directed line `a -> b`
/// on which `c` lies.
pub open spec fn cross(a: Coordinate, b: Coordinate, c: Coordinate) -> int {
    (b.x - a.x) * (c.y - a.y) - (b.y - a.y) * (c.x - a.x)
}

/// `c` lies on the closed segment from `a` to `b`: collinear with the two
/// endpoints and within their bounding extent. For a zero-length segment
/// (`a == b`) this reduces to `c == a`.
pub open spec fn on_segment(a: Coordinate, b: Coordinate, c: Coordinate) -> bool {
    &&& cross(a, b, c) == 0
    &&& (a.x <= c.x || b.x <= c.x)
    &&& (c.x <= a.x || c.x <= b.x)
    &&& (a.y <= c.y || b.y <= c.y)
    &&& (c.y <= a.y || c.y <= b.y)
}

/// `c` lies on the segment `l`.
pub open spec fn line_meets(l: Line, c: Coordinate) -> bool {
    on_segment(l.start, l.end, c)
}

/// The product of two differences of 32-bit coordinates stays far inside the
/// 128-bit range.
proof fn lemma_diff_product_bound(p: int, q: int)
    by (nonlinear_arith)
    requires
        -0x1_0000_0000 <= p <= 0x1_0000_0000,
        -0x1_0000_0000 <= q <= 0x1_0000_0000,
    ensures
        -0x1_0000_0000_0000_0000 <= p * q <= 0x1_0000_0000_0000_0000,
{
}

/// Computes [`cross`] exactly: the differences fit in 64 bits and their
/// products in 128 bits, so no step can overflow.
fn cross_product(a: Coordinate, b: Coordinate, c: Coordinate) -> (r: i128)
    ensures
        r as int == cross(a, b, c),
{
    let abx: i64 = b.x as i64 - a.x as i64;
    let aby: i64 = b.y as i64 - a.y as i64;
    let acx: i64 = c.x as i64 - a.x as i64;
    let acy: i64 = c.y as i64 - a.y as i64;
    proof {
        lemma_diff_product_bound(abx as int, acy as int);
        lemma_diff_product_bound(aby as int, acx as int);
    }
    abx as i128 * acy as i128 - aby as i128 * acx as i128
}

/// Computes [`on_segment`] exactly.
pub fn segment_contains(a: Coordinate, b: Coordinate, c: Coordinate) -> (r: bool)
    ensures
        r == on_segment(a, b, c),
{
    cross_product(a, b, c) == 0 && (a.x <= c.x || b.x <= c.x) && (c.x <= a.x || c.x <= b.x) && (a.y
        <= c.y || b.y <= c.y) && (c.y <= a.y || c.y <= b.y)
}

/// Computes [`line_meets`] exactly.
pub fn line_contains(l: &Line, c: Coordinate) -> (r: bool)
    ensures
        r == line_meets(*l, c),
{
    segment_contains(l.start, l.end, c)
}

/// `c` lies on some segment of the polyline `ls`: existential over the
/// consecutive segments. A polyline of fewer than two coordinates has no
/// segments, so nothing meets it.
pub open spec fn line_string_meets(ls: LineString, c: Coordinate) -> bool {
    exists|i: int|
        0 <= i < ls.0@.len() - 1 && #[trigger] on_segment(ls.0@[i], ls.0@[i + 1], c)
}

/// Computes [`line_string_meets`] exactly, stopping at the first segment hit.
pub fn line_string_contains(ls: &LineString, c: Coordinate) -> (r: bool)
    ensures
        r == line_string_meets(*ls, c),
{
    let n: usize = ls.0.len();
    if n < 2 {
        return false;
    }
    let mut i: usize = 0;
    while i + 1 < n
        invariant
            n == ls.0@.len(),
            i + 1 <= n,
            forall|j: int| 0 <= j < i ==> !#[trigger] on_segment(ls.0@[j], ls.0@[j + 1], c),
        decreases n - i,
    {
        if segment_contains(ls.0[i], ls.0[i + 1], c) {
            return true;
        }
        i = i + 1;
    }
    false
}

/// The horizontal ray running from `c` towards increasing `x` crosses the
/// segment from `a` to `b`.
///
/// The half-open rule `(a.y > c.y) != (b.y > c.y)` counts a segment only when
/// its two endpoints straddle the ray's line, so a ring vertex lying exactly
/// at the ray's height is counted by exactly one of its two segments; the
/// cross-product sign then places the crossing strictly to the right of `c`.
pub open spec fn ray_crosses(a: Coordinate, b: Coordinate, c: Coordinate) -> bool {
    &&& (a.y > c.y) != (b.y > c.y)
    &&& if b.y > a.y {
        cross(a, b, c) > 0
    } else {
        cross(a, b, c) < 0
    }
}

/// `c` is inside the ring `ring` by the even-odd (crossing-number) rule: the
/// horizontal ray from `c` crosses an odd number of the ring's consecutive
/// segments. The ring is taken as given, without an implicit closing segment;
/// a ring of fewer than two coordinates encloses nothing.
///
/// This counts only proper crossings, so for a coordinate lying on the ring
/// itself the boundary predicates take precedence over this rule.
pub open spec fn ring_parity(ring: Seq<Coordinate>, c: Coordinate) -> bool
    decreases ring.len(),
{
    if ring.len() < 2 {
        false
    } else {
        ring_parity(ring.drop_last(), c) != ray_crosses(
            ring[ring.len() - 2],
            ring[ring.len() - 1],
            c,
        )
    }
}

/// Computes [`ray_crosses`] exactly.
fn segment_crosses_ray(a: Coordinate, b: Coordinate, c: Coordinate) -> (r: bool)
    ensures
        r == ray_crosses(a, b, c),
{
    if (a.y > c.y) == (b.y > c.y) {
        return false;
    }
    let cr = cross_product(a, b, c);
    if b.y > a.y {
        cr > 0
    } else {
        cr < 0
    }
}

/// Computes [`ring_parity`] exactly by walking the ring's segments once.
pub fn ring_crossing_parity(ring: &LineString, c: Coordinate) -> (r: bool)
    ensures
        r == ring_parity(ring.0@, c),
{
    let n: usize = ring.0.len();
    if n < 2 {
        return false;
    }
    let mut parity = false;
    let mut i: usize = 1;
    while i < n
        invariant
            n == ring.0@.len(),
            1 <= i <= n,
            parity == ring_parity(ring.0@.subrange(0, i as int), c),
        decreases n - i,
    {
        if segment_crosses_ray(ring.0[i - 1], ring.0[i], c) {
            parity = !parity;
        }
        proof {
            let pre = ring.0@.subrange(0, i as int);
            let post = ring.0@.subrange(0, i + 1);
            assert(post.drop_last() =~= pre);
        }
        i = i + 1;
    }
    proof {
        assert(ring.0@.subrange(0, n as int) =~= ring.0@);
    }
    parity
}

/// `c` meets the polygon `poly` under the boundary-inclusive rule: it lies on
/// the exterior ring, or on some hole's ring, or it is enclosed by the
/// exterior ring and by no hole. A coordinate strictly inside a hole meets
/// nothing; one exactly on a hole's ring still counts.
pub open spec fn polygon_meets(poly: Polygon, c: Coordinate) -> bool {
    ||| line_string_meets(poly.exterior, c)
    ||| (exists|i: int|
        0 <= i < poly.interiors@.len() && #[trigger] line_string_meets(poly.interiors@[i], c))
    ||| (ring_parity(poly.exterior.0@, c) && (forall|i: int|
        0 <= i < poly.interiors@.len() ==> !#[trigger] ring_parity(poly.interiors@[i].0@, c)))
}

/// Computes [`polygon_meets`] exactly: boundary tests first, then the
/// even-odd enclosure tests.
#[verifier::loop_isolation(false)]
pub fn polygon_contains(poly: &Polygon, c: Coordinate) -> (r: bool)
    ensures
        r == polygon_meets(*poly, c),
{
    if line_string_contains(&poly.exterior, c) {
        return true;
    }
    let n: usize = poly.interiors.len();
    let mut i: usize = 0;
    while i < n
        invariant
            forall|j: int| 0 <= j < i ==> !#[trigger] line_string_meets(poly.interiors@[j], c),
        decreases n - i,
    {
        if line_string_contains(&poly.interiors[i], c) {
            return true;
        }
        i = i + 1;
    }
    if !ring_crossing_parity(&poly.exterior, c) {
        return false;
    }
    let mut i: usize = 0;
    while i < n
        invariant
            forall|j: int| 0 <= j < i ==> !#[trigger] ring_parity(poly.interiors@[j].0@, c),
        decreases n - i,
    {
        if ring_crossing_parity(&poly.interiors[i], c) {
            return false;
        }
        i = i + 1;
    }
    true
}

/// `c` coincides with some member point: existential over the members.
pub open spec fn multi_point_meets(mp: MultiPoint, c: Coordinate) -> bool {
    exists|i: int| 0 <= i < mp.0@.len() && #[trigger] point_meets(mp.0@[i], c)
}

/// Computes [`multi_point_meets`] exactly, stopping at the first member hit.
pub fn multi_point_contains(mp: &MultiPoint, c: Coordinate) -> (r: bool)
    ensures
        r == multi_point_meets(*mp, c),
{
    let n: usize = mp.0.len();
    let mut i: usize = 0;
    while i < n
        invariant
            n == mp.0@.len(),
            forall|j: int| 0 <= j < i ==> !#[trigger] point_meets(mp.0@[j], c),
        decreases n - i,
    {
        if point_contains(&mp.0[i], c) {
            return true;
        }
        i = i + 1;
    }
    false
}

/// `c` lies on some member polyline: existential over the members.
pub open spec fn multi_line_string_meets(mls: MultiLineString, c: Coordinate) -> bool {
    exists|i: int| 0 <= i < mls.0@.len() && #[trigger] line_string_meets(mls.0@[i], c)
}

/// Computes [`multi_line_string_meets`] exactly, stopping at the first
/// member hit.
pub fn multi_line_string_contains(mls: &MultiLineString, c: Coordinate) -> (r: bool)
    ensures
        r == multi_line_string_meets(*mls, c),
{
    let n: usize = mls.0.len();
    let mut i: usize = 0;
    while i < n
        invariant
            n == mls.0@.len(),
            forall|j: int| 0 <= j < i ==> !#[trigger] line_string_meets(mls.0@[j], c),
        decreases n - i,
    {
        if line_string_contains(&mls.0[i], c) {
            return true;
        }
        i = i + 1;
    }
    false
}

/// `c` meets some member polygon: existential over the members, which may
/// legally overlap.
pub open spec fn multi_polygon_meets(mp: MultiPolygon, c: Coordinate) -> bool {
    exists|i: int| 0 <= i < mp.0@.len() && #[trigger] polygon_meets(mp.0@[i], c)
}

/// Computes [`multi_polygon_meets`] exactly, stopping at the first member
/// hit (sequence order; overlapping members are fine).
pub fn multi_polygon_contains(mp: &MultiPolygon, c: Coordinate) -> (r: bool)
    ensures
        r == multi_polygon_meets(*mp, c),
{
    let n: usize = mp.0.len();
    let mut i: usize = 0;
    while i < n
        invariant
            n == mp.0@.len(),
            forall|j: int| 0 <= j < i ==> !#[trigger] polygon_meets(mp.0@[j], c),
        decreases n - i,
    {
        if polygon_contains(&mp.0[i], c) {
            return true;
        }
        i = i + 1;
    }
    false
}

/// `c` meets the geometry `g`, whatever its kind: dispatch on the union's
/// tag, recursing through nested collections.
pub open spec fn geometry_meets(g: Geometry, c: Coordinate) -> bool
    decreases g, 0int,
{
    match g {
        Geometry::Point(p) => point_meets(p, c),
        Geometry::Line(l) => line_meets(l, c),
        Geometry::LineString(ls) => line_string_meets(ls, c),
        Geometry::Polygon(poly) => polygon_meets(poly, c),
        Geometry::MultiPoint(mp) => multi_point_meets(mp, c),
        Geometry::MultiLineString(mls) => multi_line_string_meets(mls, c),
        Geometry::MultiPolygon(mp) => multi_polygon_meets(mp, c),
        Geometry::GeometryCollection(gc) => collection_meets(gc, c),
    }
}

/// `c` meets some member geometry of the collection: existential over the
/// heterogeneous members, nested collections included.
pub open spec fn collection_meets(gc: GeometryCollection, c: Coordinate) -> bool
    decreases gc, 0int,
{
    exists|i: int| 0 <= i < gc.0@.len() && geometry_meets(#[trigger] gc.0@[i], c)
}

/// Computes [`geometry_meets`] exactly.
pub fn geometry_contains(g: &Geometry, c: Coordinate) -> (r: bool)
    ensures
        r == geometry_meets(*g, c),
    decreases *g, 0int,
{
    match g {
        Geometry::Point(p) => point_contains(p, c),
        Geometry::Line(l) => line_contains(l, c),
        Geometry::LineString(ls) => line_string_contains(ls, c),
        Geometry::Polygon(poly) => polygon_contains(poly, c),
        Geometry::MultiPoint(mp) => multi_point_contains(mp, c),
        Geometry::MultiLineString(mls) => multi_line_string_contains(mls, c),
        Geometry::MultiPolygon(mp) => multi_polygon_contains(mp, c),
        Geometry::GeometryCollection(gc) => collection_contains(gc, c),
    }
}

/// Computes [`collection_meets`] exactly, stopping at the first member hit.
pub fn collection_contains(gc: &GeometryCollection, c: Coordinate) -> (r: bool)
    ensures
        r == collection_meets(*gc, c),
    decreases *gc, gc.0@.len() + 1,
{
    collection_contains_from(gc, 0, c)
}

/// Computes whether `c` meets some member of `gc` at index `i` or later,
/// recursing member by member.
fn collection_contains_from(gc: &GeometryCollection, i: usize, c: Coordinate) -> (r: bool)
    requires
        i <= gc.0@.len(),
    ensures
        r == exists|j: int| i <= j < gc.0@.len() && geometry_meets(#[trigger] gc.0@[j], c),
    decreases *gc, gc.0@.len() - i,
{
    if i == gc.0.len() {
        return false;
    }
    if geometry_contains(&gc.0[i], c) {
        return true;
    }
    collection_contains_from(gc, i + 1, c)
}

} // verus!
