//! The intersection operation: a single capability trait implemented once
//! per ordered pairing of geometry kinds.
//!
//! Leaf shapes apply the containment predicate directly; container shapes
//! answer by the existential rule over their members; the point-first
//! pairings delegate to the canonical shape-first direction and remap the
//! result tag, so the two directions can never diverge.

use vstd::prelude::*;
use crate::geometry::Geometry;
use crate::geometry::GeometryCollection;
use crate::geometry::Line;
use crate::geometry::LineString;
use crate::geometry::MultiLineString;
use crate::geometry::MultiPoint;
use crate::geometry::MultiPolygon;
use crate::geometry::Point;
use crate::geometry::Polygon;
use crate::intersection_enums::GeometryCollectionIntersection;
use crate::intersection_enums::GeometryIntersection;
use crate::intersection_enums::LineIntersection;
use crate::intersection_enums::LineStringIntersection;
use crate::intersection_enums::MultiLineStringIntersection;
use crate::intersection_enums::MultiPointIntersection;
use crate::intersection_enums::MultiPolygonIntersection;
use crate::intersection_enums::PointIntersection;
use crate::intersection_enums::PolygonIntersection;
use crate::intersects::collection_contains;
use crate::intersects::collection_meets;
use crate::intersects::geometry_contains;
use crate::intersects::geometry_meets;
use crate::intersects::line_contains;
use crate::intersects::line_meets;
use crate::intersects::line_string_contains;
use crate::intersects::line_string_meets;
use crate::intersects::multi_line_string_contains;
use crate::intersects::multi_line_string_meets;
use crate::intersects::multi_point_contains;
use crate::intersects::multi_point_meets;
use crate::intersects::multi_polygon_contains;
use crate::intersects::multi_polygon_meets;
use crate::intersects::point_contains;
use crate::intersects::point_meets;
use crate::intersects::polygon_contains;
use crate::intersects::polygon_meets;

verus! {

/// The trait that defines how intersecting geometries should behave.
///
/// Every implementation answers the same exact contract: `intersection`
/// returns `hit` when the two operands [`meets`](Intersection::meets), and
/// `miss` when they do not — so a caller knows, for every input, precisely
/// which result value comes back.
pub trait Intersection<Rhs = Self> {
    type Output;

    /// Whether the two operands share the queried point.
    spec fn meets(&self, rhs: &Rhs) -> bool;

    /// The result reported when the operands intersect.
    spec fn hit(&self, rhs: &Rhs) -> Self::Output;

    /// The result reported when the operands are disjoint.
    spec fn miss(&self) -> Self::Output;

    fn intersection(&self, rhs: &Rhs) -> (r: Self::Output)
        ensures
            r == (if self.meets(rhs) {
                self.hit(rhs)
            } else {
                self.miss()
            }),
    ;
}

impl Intersection for Point {
    type Output = PointIntersection;

    open spec fn meets(&self, rhs: &Point) -> bool {
        point_meets(*self, rhs.0)
    }

    open spec fn hit(&self, rhs: &Point) -> PointIntersection {
        PointIntersection::Point(*self)
    }

    open spec fn miss(&self) -> PointIntersection {
        PointIntersection::Empty
    }

    fn intersection(&self, rhs: &Point) -> PointIntersection {
        if point_contains(self, rhs.0) {
            PointIntersection::Point(*self)
        } else {
            PointIntersection::Empty
        }
    }
}

impl Intersection<Point> for Line {
    type Output = LineIntersection;

    open spec fn meets(&self, rhs: &Point) -> bool {
        line_meets(*self, rhs.0)
    }

    open spec fn hit(&self, rhs: &Point) -> LineIntersection {
        LineIntersection::Point(*rhs)
    }

    open spec fn miss(&self) -> LineIntersection {
        LineIntersection::Empty
    }

    fn intersection(&self, rhs: &Point) -> LineIntersection {
        if line_contains(self, rhs.0) {
            LineIntersection::Point(*rhs)
        } else {
            LineIntersection::Empty
        }
    }
}

impl Intersection<Point> for LineString {
    type Output = LineStringIntersection;

    open spec fn meets(&self, rhs: &Point) -> bool {
        line_string_meets(*self, rhs.0)
    }

    open spec fn hit(&self, rhs: &Point) -> LineStringIntersection {
        LineStringIntersection::Point(*rhs)
    }

    open spec fn miss(&self) -> LineStringIntersection {
        LineStringIntersection::Empty
    }

    fn intersection(&self, rhs: &Point) -> LineStringIntersection {
        if line_string_contains(self, rhs.0) {
            LineStringIntersection::Point(*rhs)
        } else {
            LineStringIntersection::Empty
        }
    }
}

impl Intersection<Point> for Polygon {
    type Output = PolygonIntersection;

    open spec fn meets(&self, rhs: &Point) -> bool {
        polygon_meets(*self, rhs.0)
    }

    open spec fn hit(&self, rhs: &Point) -> PolygonIntersection {
        PolygonIntersection::Point(*rhs)
    }

    open spec fn miss(&self) -> PolygonIntersection {
        PolygonIntersection::Empty
    }

    fn intersection(&self, rhs: &Point) -> PolygonIntersection {
        if polygon_contains(self, rhs.0) {
            PolygonIntersection::Point(*rhs)
        } else {
            PolygonIntersection::Empty
        }
    }
}

impl Intersection<Point> for MultiPoint {
    type Output = MultiPointIntersection;

    open spec fn meets(&self, rhs: &Point) -> bool {
        multi_point_meets(*self, rhs.0)
    }

    open spec fn hit(&self, rhs: &Point) -> MultiPointIntersection {
        MultiPointIntersection::Point(*rhs)
    }

    open spec fn miss(&self) -> MultiPointIntersection {
        MultiPointIntersection::Empty
    }

    fn intersection(&self, rhs: &Point) -> MultiPointIntersection {
        if multi_point_contains(self, rhs.0) {
            MultiPointIntersection::Point(*rhs)
        } else {
            MultiPointIntersection::Empty
        }
    }
}

impl Intersection<Point> for MultiLineString {
    type Output = MultiLineStringIntersection;

    open spec fn meets(&self, rhs: &Point) -> bool {
        multi_line_string_meets(*self, rhs.0)
    }

    open spec fn hit(&self, rhs: &Point) -> MultiLineStringIntersection {
        MultiLineStringIntersection::Point(*rhs)
    }

    open spec fn miss(&self) -> MultiLineStringIntersection {
        MultiLineStringIntersection::Empty
    }

    fn intersection(&self, rhs: &Point) -> MultiLineStringIntersection {
        if multi_line_string_contains(self, rhs.0) {
            MultiLineStringIntersection::Point(*rhs)
        } else {
            MultiLineStringIntersection::Empty
        }
    }
}

impl Intersection<Point> for MultiPolygon {
    type Output = MultiPolygonIntersection;

    open spec fn meets(&self, rhs: &Point) -> bool {
        multi_polygon_meets(*self, rhs.0)
    }

    open spec fn hit(&self, rhs: &Point) -> MultiPolygonIntersection {
        MultiPolygonIntersection::Point(*rhs)
    }

    open spec fn miss(&self) -> MultiPolygonIntersection {
        MultiPolygonIntersection::Empty
    }

    fn intersection(&self, rhs: &Point) -> MultiPolygonIntersection {
        if multi_polygon_contains(self, rhs.0) {
            MultiPolygonIntersection::Point(*rhs)
        } else {
            MultiPolygonIntersection::Empty
        }
    }
}

impl Intersection<Point> for GeometryCollection {
    type Output = GeometryCollectionIntersection;

    open spec fn meets(&self, rhs: &Point) -> bool {
        collection_meets(*self, rhs.0)
    }

    open spec fn hit(&self, rhs: &Point) -> GeometryCollectionIntersection {
        GeometryCollectionIntersection::Point(*rhs)
    }

    open spec fn miss(&self) -> GeometryCollectionIntersection {
        GeometryCollectionIntersection::Empty
    }

    fn intersection(&self, rhs: &Point) -> GeometryCollectionIntersection {
        if collection_contains(self, rhs.0) {
            GeometryCollectionIntersection::Point(*rhs)
        } else {
            GeometryCollectionIntersection::Empty
        }
    }
}

impl Intersection<Point> for Geometry {
    type Output = GeometryIntersection;

    open spec fn meets(&self, rhs: &Point) -> bool {
        geometry_meets(*self, rhs.0)
    }

    open spec fn hit(&self, rhs: &Point) -> GeometryIntersection {
        GeometryIntersection::Point(*rhs)
    }

    open spec fn miss(&self) -> GeometryIntersection {
        GeometryIntersection::Empty
    }

    fn intersection(&self, rhs: &Point) -> GeometryIntersection {
        if geometry_contains(self, rhs.0) {
            GeometryIntersection::Point(*rhs)
        } else {
            GeometryIntersection::Empty
        }
    }
}

impl Intersection<Line> for Point {
    type Output = PointIntersection;

    open spec fn meets(&self, rhs: &Line) -> bool {
        line_meets(*rhs, self.0)
    }

    open spec fn hit(&self, rhs: &Line) -> PointIntersection {
        PointIntersection::Point(*self)
    }

    open spec fn miss(&self) -> PointIntersection {
        PointIntersection::Empty
    }

    fn intersection(&self, rhs: &Line) -> PointIntersection {
        match rhs.intersection(self) {
            LineIntersection::Point(p) => PointIntersection::Point(p),
            LineIntersection::Empty => PointIntersection::Empty,
        }
    }
}

impl Intersection<LineString> for Point {
    type Output = PointIntersection;

    open spec fn meets(&self, rhs: &LineString) -> bool {
        line_string_meets(*rhs, self.0)
    }

    open spec fn hit(&self, rhs: &LineString) -> PointIntersection {
        PointIntersection::Point(*self)
    }

    open spec fn miss(&self) -> PointIntersection {
        PointIntersection::Empty
    }

    fn intersection(&self, rhs: &LineString) -> PointIntersection {
        match rhs.intersection(self) {
            LineStringIntersection::Point(p) => PointIntersection::Point(p),
            LineStringIntersection::Empty => PointIntersection::Empty,
        }
    }
}

impl Intersection<Polygon> for Point {
    type Output = PointIntersection;

    open spec fn meets(&self, rhs: &Polygon) -> bool {
        polygon_meets(*rhs, self.0)
    }

    open spec fn hit(&self, rhs: &Polygon) -> PointIntersection {
        PointIntersection::Point(*self)
    }

    open spec fn miss(&self) -> PointIntersection {
        PointIntersection::Empty
    }

    fn intersection(&self, rhs: &Polygon) -> PointIntersection {
        match rhs.intersection(self) {
            PolygonIntersection::Point(p) => PointIntersection::Point(p),
            PolygonIntersection::Empty => PointIntersection::Empty,
        }
    }
}

impl Intersection<MultiPoint> for Point {
    type Output = PointIntersection;

    open spec fn meets(&self, rhs: &MultiPoint) -> bool {
        multi_point_meets(*rhs, self.0)
    }

    open spec fn hit(&self, rhs: &MultiPoint) -> PointIntersection {
        PointIntersection::Point(*self)
    }

    open spec fn miss(&self) -> PointIntersection {
        PointIntersection::Empty
    }

    fn intersection(&self, rhs: &MultiPoint) -> PointIntersection {
        match rhs.intersection(self) {
            MultiPointIntersection::Point(p) => PointIntersection::Point(p),
            MultiPointIntersection::Empty => PointIntersection::Empty,
        }
    }
}

impl Intersection<MultiLineString> for Point {
    type Output = PointIntersection;

    open spec fn meets(&self, rhs: &MultiLineString) -> bool {
        multi_line_string_meets(*rhs, self.0)
    }

    open spec fn hit(&self, rhs: &MultiLineString) -> PointIntersection {
        PointIntersection::Point(*self)
    }

    open spec fn miss(&self) -> PointIntersection {
        PointIntersection::Empty
    }

    fn intersection(&self, rhs: &MultiLineString) -> PointIntersection {
        match rhs.intersection(self) {
            MultiLineStringIntersection::Point(p) => PointIntersection::Point(p),
            MultiLineStringIntersection::Empty => PointIntersection::Empty,
        }
    }
}

impl Intersection<MultiPolygon> for Point {
    type Output = PointIntersection;

    open spec fn meets(&self, rhs: &MultiPolygon) -> bool {
        multi_polygon_meets(*rhs, self.0)
    }

    open spec fn hit(&self, rhs: &MultiPolygon) -> PointIntersection {
        PointIntersection::Point(*self)
    }

    open spec fn miss(&self) -> PointIntersection {
        PointIntersection::Empty
    }

    fn intersection(&self, rhs: &MultiPolygon) -> PointIntersection {
        match rhs.intersection(self) {
            MultiPolygonIntersection::Point(p) => PointIntersection::Point(p),
            MultiPolygonIntersection::Empty => PointIntersection::Empty,
        }
    }
}

impl Intersection<GeometryCollection> for Point {
    type Output = PointIntersection;

    open spec fn meets(&self, rhs: &GeometryCollection) -> bool {
        collection_meets(*rhs, self.0)
    }

    open spec fn hit(&self, rhs: &GeometryCollection) -> PointIntersection {
        PointIntersection::Point(*self)
    }

    open spec fn miss(&self) -> PointIntersection {
        PointIntersection::Empty
    }

    fn intersection(&self, rhs: &GeometryCollection) -> PointIntersection {
        match rhs.intersection(self) {
            GeometryCollectionIntersection::Point(p) => PointIntersection::Point(p),
            GeometryCollectionIntersection::Empty => PointIntersection::Empty,
        }
    }
}

impl Intersection<Geometry> for Point {
    type Output = PointIntersection;

    open spec fn meets(&self, rhs: &Geometry) -> bool {
        geometry_meets(*rhs, self.0)
    }

    open spec fn hit(&self, rhs: &Geometry) -> PointIntersection {
        PointIntersection::Point(*self)
    }

    open spec fn miss(&self) -> PointIntersection {
        PointIntersection::Empty
    }

    fn intersection(&self, rhs: &Geometry) -> PointIntersection {
        match rhs.intersection(self) {
            GeometryIntersection::Point(p) => PointIntersection::Point(p),
            GeometryIntersection::Empty => PointIntersection::Empty,
        }
    }
}

} // verus!
