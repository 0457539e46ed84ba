//! Point-in-geometry intersection queries over two-dimensional vector
//! geometries: points, line segments, polylines, polygons with holes, their
//! multi-part collections, and heterogeneous geometry collections.
//!
//! Every geometry kind can be intersected with a query point (in either
//! argument order); the result either carries the query point itself or
//! signals that the two are disjoint.

pub mod geometry;
pub mod intersection;
pub mod intersection_enums;
pub mod intersects;
pub mod laws;

pub use geometry::Coordinate;
pub use geometry::Geometry;
pub use geometry::GeometryCollection;
pub use geometry::Line;
pub use geometry::LineString;
pub use geometry::MultiLineString;
pub use geometry::MultiPoint;
pub use geometry::MultiPolygon;
pub use geometry::Point;
pub use geometry::Polygon;
pub use intersection::Intersection;
pub use intersection_enums::GeometryCollectionIntersection;
pub use intersection_enums::GeometryIntersection;
pub use intersection_enums::LineIntersection;
pub use intersection_enums::LineStringIntersection;
pub use intersection_enums::MultiLineStringIntersection;
pub use intersection_enums::MultiPointIntersection;
pub use intersection_enums::MultiPolygonIntersection;
pub use intersection_enums::PointIntersection;
pub use intersection_enums::PolygonIntersection;
