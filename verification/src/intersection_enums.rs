//! The intersection-result protocol: one two-variant result type per
//! geometry kind queried. A result either carries the intersecting point
//! (always a copy of the query point) or signals that there is none.

use vstd::prelude::*;
use crate::geometry::Point;

verus! {

/// The possible outcomes of intersecting a Point with another geometry.
#[derive(Clone, Copy, Debug, PartialEq, Eq, Structural)]
pub enum PointIntersection {
    Point(Point),
    Empty,
}

/// The possible outcomes of intersecting a Line with another geometry.
#[derive(Clone, Copy, Debug, PartialEq, Eq, Structural)]
pub enum LineIntersection {
    Point(Point),
    Empty,
}

/// The possible outcomes of intersecting a LineString with another geometry.
#[derive(Clone, Copy, Debug, PartialEq, Eq, Structural)]
pub enum LineStringIntersection {
    Point(Point),
    Empty,
}

/// The possible outcomes of intersecting a Polygon with another geometry.
#[derive(Clone, Copy, Debug, PartialEq, Eq, Structural)]
pub enum PolygonIntersection {
    Point(Point),
    Empty,
}

/// The possible outcomes of intersecting a MultiPoint with another geometry.
#[derive(Clone, Copy, Debug, PartialEq, Eq, Structural)]
pub enum MultiPointIntersection {
    Point(Point),
    Empty,
}

/// The possible outcomes of intersecting a MultiLineString with another
/// geometry.
#[derive(Clone, Copy, Debug, PartialEq, Eq, Structural)]
pub enum MultiLineStringIntersection {
    Point(Point),
    Empty,
}

/// The possible outcomes of intersecting a MultiPolygon with another
/// geometry.
#[derive(Clone, Copy, Debug, PartialEq, Eq, Structural)]
pub enum MultiPolygonIntersection {
    Point(Point),
    Empty,
}

/// The possible outcomes of intersecting a GeometryCollection with another
/// geometry.
#[derive(Clone, Copy, Debug, PartialEq, Eq, Structural)]
pub enum GeometryCollectionIntersection {
    Point(Point),
    Empty,
}

/// The possible outcomes of intersecting a Geometry with another geometry.
#[derive(Clone, Copy, Debug, PartialEq, Eq, Structural)]
pub enum GeometryIntersection {
    Point(Point),
    Empty,
}

} // verus!
