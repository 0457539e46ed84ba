//! The geometric value model: passive, immutable value types with structural
//! equality. Coordinates are integers, so every predicate over them is exact;
//! callers working in fractional units scale their data to an integer grid.

use vstd::prelude::*;

verus! {

/// A position on the two-dimensional integer grid.
#[derive(Clone, Copy, Debug, PartialEq, Eq, Structural)]
pub struct Coordinate {
    pub x: i32,
    pub y: i32,
}

/// A single location; a thin wrapper around its [`Coordinate`].
#[derive(Clone, Copy, Debug, PartialEq, Eq, Structural)]
pub struct Point(pub Coordinate);

impl Point {
    /// Builds the point at `(x, y)`.
    pub fn new(x: i32, y: i32) -> (p: Point)
        ensures
            p.0 == (Coordinate { x: x, y: y }),
    {
        Point(Coordinate { x: x, y: y })
    }

    /// The horizontal component.
    pub fn x(&self) -> (r: i32)
        ensures
            r == self.0.x,
    {
        self.0.x
    }

    /// The vertical component.
    pub fn y(&self) -> (r: i32)
        ensures
            r == self.0.y,
    {
        self.0.y
    }
}

/// An ordered sequence of coordinates, interpreted as the polyline joining
/// each coordinate to the next. A sequence of fewer than two coordinates has
/// no segments and meets nothing.
#[derive(Clone, Debug, PartialEq)]
pub struct LineString(pub Vec<Coordinate>);

/// An area bounded by one exterior ring, minus the areas bounded by the
/// interior rings (the holes).
///
/// Rings are stored as [`LineString`]s and are assumed closed (first
/// coordinate equal to the last); upholding that is the caller's
/// responsibility and is not validated here.
#[derive(Clone, Debug, PartialEq)]
pub struct Polygon {
    pub exterior: LineString,
    pub interiors: Vec<LineString>,
}

impl Polygon {
    /// Builds the polygon bounded by `exterior` with the given holes.
    pub fn new(exterior: LineString, interiors: Vec<LineString>) -> (p: Polygon)
        ensures
            p.exterior == exterior,
            p.interiors == interiors,
    {
        Polygon { exterior, interiors }
    }
}

/// A straight segment between two coordinates. Zero-length segments
/// (`start == end`) are permitted.
#[derive(Clone, Copy, Debug, PartialEq, Eq, Structural)]
pub struct Line {
    pub start: Coordinate,
    pub end: Coordinate,
}

impl Line {
    /// Builds the segment from `start` to `end`.
    pub fn new(start: Coordinate, end: Coordinate) -> (l: Line)
        ensures
            l.start == start,
            l.end == end,
    {
        Line { start, end }
    }
}

/// An ordered collection of [`Point`]s. An empty collection meets nothing.
#[derive(Clone, Debug, PartialEq)]
pub struct MultiPoint(pub Vec<Point>);

/// An ordered collection of [`LineString`]s. An empty collection meets
/// nothing.
#[derive(Clone, Debug, PartialEq)]
pub struct MultiLineString(pub Vec<LineString>);

/// An ordered collection of [`Polygon`]s. Members may overlap; an empty
/// collection meets nothing.
#[derive(Clone, Debug, PartialEq)]
pub struct MultiPolygon(pub Vec<Polygon>);

/// An ordered collection of heterogeneous [`Geometry`] values, possibly
/// containing further nested collections.
#[derive(Debug, PartialEq)]
pub struct GeometryCollection(pub Vec<Geometry>);

/// The closed tagged union over every geometry kind, used wherever
/// heterogeneous geometry must be stored or passed.
#[derive(Debug, PartialEq)]
pub enum Geometry {
    Point(Point),
    Line(Line),
    LineString(LineString),
    Polygon(Polygon),
    MultiPoint(MultiPoint),
    MultiLineString(MultiLineString),
    MultiPolygon(MultiPolygon),
    GeometryCollection(GeometryCollection),
}

} // verus!
