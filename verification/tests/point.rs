//! Intersection queries in the point-first direction: the point delegates to
//! the canonical shape-first operation and remaps the result tag, so these
//! mirror the shape-first tests value for value.

use geo::Coordinate;
use geo::Geometry;
use geo::GeometryCollection;
use geo::Intersection;
use geo::Line;
use geo::LineString;
use geo::MultiLineString;
use geo::MultiPoint;
use geo::MultiPolygon;
use geo::Point;
use geo::Polygon;
use geo::intersection_enums::PointIntersection;

fn coord(x: i32, y: i32) -> Coordinate {
    Coordinate { x, y }
}

#[test]
fn with_line() {
    let line = Line::new(coord(0, 0), coord(10, 0));

    // Start of the line
    let point = Point::new(0, 0);

    assert_eq!(
        point.intersection(&line),
        PointIntersection::Point(point.clone())
    );

    // On the line
    let point = Point::new(5, 0);

    assert_eq!(
        point.intersection(&line),
        PointIntersection::Point(point.clone())
    );

    // End of the line
    let point = Point::new(10, 0);

    assert_eq!(
        point.intersection(&line),
        PointIntersection::Point(point.clone())
    );

    // Not on the line
    let point = Point::new(1, 1);

    assert_eq!(point.intersection(&line), PointIntersection::Empty);
}

#[test]
fn with_linestring() {
    let line_string = LineString(vec![coord(0, 0), coord(10, 0)]);

    // Start of LineString
    let point = Point::new(0, 0);

    assert_eq!(
        point.intersection(&line_string),
        PointIntersection::Point(point.clone())
    );

    // On of LineString
    let point = Point::new(5, 0);

    assert_eq!(
        point.intersection(&line_string),
        PointIntersection::Point(point.clone())
    );

    // End of LineString
    let point = Point::new(10, 0);

    assert_eq!(
        point.intersection(&line_string),
        PointIntersection::Point(point.clone())
    );

    // Not on LineString
    let point = Point::new(10, 10);

    assert_eq!(point.intersection(&line_string), PointIntersection::Empty,);
}

#[test]
fn with_polygon() {
    let exterior = LineString(vec![coord(0, 0), coord(100, 100), coord(100, 0), coord(0, 0)]);
    let interiors = vec![LineString(vec![
        coord(10, 10),
        coord(90, 90),
        coord(90, 10),
        coord(10, 10),
    ])];
    let polygon = Polygon::new(exterior, interiors);

    // Start of Polygon exterior
    let point = Point::new(0, 0);

    assert_eq!(
        point.intersection(&polygon),
        PointIntersection::Point(point.clone())
    );

    // On Polygon exterior
    let point = Point::new(50, 0);

    assert_eq!(
        point.intersection(&polygon),
        PointIntersection::Point(point.clone())
    );

    // Start of Polygon interior
    let point = Point::new(10, 10);

    assert_eq!(
        point.intersection(&polygon),
        PointIntersection::Point(point.clone())
    );

    // On Polygon interior
    let point = Point::new(90, 40);

    assert_eq!(
        point.intersection(&polygon),
        PointIntersection::Point(point.clone())
    );

    // In Polygon interior
    let point = Point::new(5, 5);

    assert_eq!(
        point.intersection(&polygon),
        PointIntersection::Point(point.clone())
    );

    // Not in or on Polygon
    let point = Point::new(1000, 1000);

    assert_eq!(point.intersection(&polygon), PointIntersection::Empty,);
}

#[test]
fn with_multipoint() {
    let multi_point = MultiPoint(vec![
        Point::new(0, 0),
        Point::new(1, 1),
        Point::new(1, 0),
        Point::new(0, 0),
    ]);

    // Point on MultiPoint
    let point = Point::new(0, 0);

    assert_eq!(
        point.intersection(&multi_point),
        PointIntersection::Point(point.clone())
    );

    // Not in or on MultiPoint
    let point = Point::new(10, 10);

    assert_eq!(point.intersection(&multi_point), PointIntersection::Empty,);
}

#[test]
fn with_multilinestring() {
    let line_string1 = LineString(vec![coord(0, 0), coord(10, 0)]);
    let line_string2 = LineString(vec![coord(100, 100), coord(200, 100)]);
    let mls = MultiLineString(vec![line_string1, line_string2]);

    // Start of first LineString in MultiLineString
    let point = Point::new(0, 0);

    assert_eq!(
        point.intersection(&mls),
        PointIntersection::Point(point.clone())
    );

    // On first LineString in MultiLineString
    let point = Point::new(5, 0);

    assert_eq!(
        point.intersection(&mls),
        PointIntersection::Point(point.clone())
    );

    // On second LineString in MultiLineString
    let point = Point::new(150, 100);

    assert_eq!(
        point.intersection(&mls),
        PointIntersection::Point(point.clone())
    );

    // Not on MultiLineString
    let point = Point::new(10, 10);

    assert_eq!(point.intersection(&mls), PointIntersection::Empty,);
}

#[test]
fn with_multipolygon() {
    let polygon1 = {
        let exterior =
            LineString(vec![coord(0, 0), coord(100, 100), coord(100, 0), coord(0, 0)]);
        let interiors = vec![LineString(vec![
            coord(10, 10),
            coord(90, 90),
            coord(90, 10),
            coord(10, 10),
        ])];
        Polygon::new(exterior, interiors)
    };

    let polygon2 = {
        let exterior = LineString(vec![
            coord(10000, 10000),
            coord(10100, 10100),
            coord(10100, 10000),
            coord(10000, 10000),
        ]);
        let interiors = vec![LineString(vec![
            coord(10010, 10010),
            coord(10090, 10090),
            coord(10090, 10010),
            coord(10010, 10010),
        ])];
        Polygon::new(exterior, interiors)
    };

    let multi_polygon = MultiPolygon(vec![polygon1, polygon2]);

    //-----------------------------------------------------------------------------------------
    // FIRST POLYGON
    //-----------------------------------------------------------------------------------------
    // Start of first Polygon exterior
    let point = Point::new(0, 0);

    assert_eq!(
        point.intersection(&multi_polygon),
        PointIntersection::Point(point.clone())
    );

    // On Polygon exterior
    let point = Point::new(50, 0);

    assert_eq!(
        point.intersection(&multi_polygon),
        PointIntersection::Point(point.clone())
    );

    // Start of first Polygon interior
    let point = Point::new(10, 10);

    assert_eq!(
        point.intersection(&multi_polygon),
        PointIntersection::Point(point.clone())
    );

    // On first Polygon interior
    let point = Point::new(90, 40);

    assert_eq!(
        point.intersection(&multi_polygon),
        PointIntersection::Point(point.clone())
    );

    // In first Polygon interior
    let point = Point::new(5, 5);

    assert_eq!(
        point.intersection(&multi_polygon),
        PointIntersection::Point(point.clone())
    );

    //-----------------------------------------------------------------------------------------
    // SECOND POLYGON
    //-----------------------------------------------------------------------------------------
    // Start of second Polygon exterior
    let point = Point::new(10000, 10000);

    assert_eq!(
        point.intersection(&multi_polygon),
        PointIntersection::Point(point.clone())
    );

    // On Polygon exterior
    let point = Point::new(10050, 10000);

    assert_eq!(
        point.intersection(&multi_polygon),
        PointIntersection::Point(point.clone())
    );

    // Start of second Polygon interior
    let point = Point::new(10010, 10010);

    assert_eq!(
        point.intersection(&multi_polygon),
        PointIntersection::Point(point.clone())
    );

    // On second Polygon interior
    let point = Point::new(10090, 10040);

    assert_eq!(
        point.intersection(&multi_polygon),
        PointIntersection::Point(point.clone())
    );

    // In second Polygon interior
    let point = Point::new(10005, 10005);

    assert_eq!(
        point.intersection(&multi_polygon),
        PointIntersection::Point(point.clone())
    );

    //-----------------------------------------------------------------------------------------
    // Not in or on Polygon
    //-----------------------------------------------------------------------------------------
    let point = Point::new(1000, 1000);

    assert_eq!(point.intersection(&multi_polygon), PointIntersection::Empty,);
}

#[test]
fn geometrycollection_with_point() {
    let mut geometries: Vec<Geometry> = vec![];

    geometries.push(Geometry::Point(Point::new(18000, 18000)));
    geometries.push(Geometry::Line(Line::new(
        coord(17900, 17900),
        coord(17800, 17900),
    )));
    geometries.push(Geometry::LineString(LineString(vec![
        coord(17000, 17000),
        coord(17100, 17000),
    ])));

    let polygon1 = {
        let exterior =
            LineString(vec![coord(0, 0), coord(100, 100), coord(100, 0), coord(0, 0)]);
        let interiors = vec![LineString(vec![
            coord(10, 10),
            coord(90, 90),
            coord(90, 10),
            coord(10, 10),
        ])];
        Polygon::new(exterior, interiors)
    };

    let polygon2 = {
        let exterior = LineString(vec![
            coord(10000, 10000),
            coord(10100, 10100),
            coord(10100, 10000),
            coord(10000, 10000),
        ]);
        let interiors = vec![LineString(vec![
            coord(10010, 10010),
            coord(10090, 10090),
            coord(10090, 10010),
            coord(10010, 10010),
        ])];
        Polygon::new(exterior, interiors)
    };

    geometries.push(Geometry::MultiPolygon(MultiPolygon(vec![polygon1, polygon2])));

    let geometry_collection = GeometryCollection(geometries);

    //-----------------------------------------------------------------------------------------
    // FIRST POLYGON
    //-----------------------------------------------------------------------------------------
    // Start of first Polygon exterior
    let point = Point::new(0, 0);

    assert_eq!(
        point.intersection(&geometry_collection),
        PointIntersection::Point(point.clone())
    );

    // On Polygon exterior
    let point = Point::new(50, 0);

    assert_eq!(
        point.intersection(&geometry_collection),
        PointIntersection::Point(point.clone())
    );

    // Start of first Polygon interior
    let point = Point::new(10, 10);

    assert_eq!(
        point.intersection(&geometry_collection),
        PointIntersection::Point(point.clone())
    );

    // On first Polygon interior
    let point = Point::new(90, 40);

    assert_eq!(
        point.intersection(&geometry_collection),
        PointIntersection::Point(point.clone())
    );

    // In first Polygon interior
    let point = Point::new(5, 5);

    assert_eq!(
        point.intersection(&geometry_collection),
        PointIntersection::Point(point.clone())
    );

    //-----------------------------------------------------------------------------------------
    // SECOND POLYGON
    //-----------------------------------------------------------------------------------------
    // Start of second Polygon exterior
    let point = Point::new(10000, 10000);

    assert_eq!(
        point.intersection(&geometry_collection),
        PointIntersection::Point(point.clone())
    );

    // On Polygon exterior
    let point = Point::new(10050, 10000);

    assert_eq!(
        point.intersection(&geometry_collection),
        PointIntersection::Point(point.clone())
    );

    // Start of second Polygon interior
    let point = Point::new(10010, 10010);

    assert_eq!(
        point.intersection(&geometry_collection),
        PointIntersection::Point(point.clone())
    );

    // On second Polygon interior
    let point = Point::new(10090, 10040);

    assert_eq!(
        point.intersection(&geometry_collection),
        PointIntersection::Point(point.clone())
    );

    // In second Polygon interior
    let point = Point::new(10005, 10005);

    assert_eq!(
        point.intersection(&geometry_collection),
        PointIntersection::Point(point.clone())
    );

    //-----------------------------------------------------------------------------------------
    // Not in or on Polygon
    //-----------------------------------------------------------------------------------------
    let point = Point::new(1000, 1000);

    assert_eq!(
        point.intersection(&geometry_collection),
        PointIntersection::Empty,
    );
}

#[test]
fn point_geometry_point_with_point() {
    let p1 = Point::new(180, 180);
    let p2 = p1.clone();
    let geometry_point = Geometry::Point(p1);

    assert_eq!(
        geometry_point.intersection(&p2),
        geo::intersection_enums::GeometryIntersection::Point(p1.clone())
    );

    // Not intersecting
    let p2 = Point::new(2, 2);

    assert_eq!(p2.intersection(&geometry_point), PointIntersection::Empty)
}
