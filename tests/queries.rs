use geo::{Closest, ClosestPoint, Contains, Distance, Geodesic, GeodesicArea};
use geo_types::{Coord, LineString, Point, Polygon};
use point_in_geojson::model::{Document, Feature, Geom};
use point_in_geojson::parse::parse_document;

fn square(x0: f64, y0: f64, size: f64) -> LineString<f64> {
    LineString::from(vec![
        (x0, y0),
        (x0 + size, y0),
        (x0 + size, y0 + size),
        (x0, y0 + size),
        (x0, y0),
    ])
}

fn inside_of(shapes: &[geo_types::Geometry<f64>], lon: f64, lat: f64) -> Vec<bool> {
    let p = Point::new(lon, lat);
    shapes.iter().map(|s| s.contains(&p)).collect()
}

fn polygonal(shape: usize) -> Geom {
    Geom::Polygonal { shape }
}

fn feature(geometry: Option<Geom>, has_properties: bool) -> Feature {
    Feature { geometry, has_properties }
}

#[test]
fn point_strictly_inside_simple_polygon_is_included() {
    let shapes = vec![geo_types::Geometry::Polygon(Polygon::new(square(0.0, 0.0, 1.0), vec![]))];
    let doc = Document::Geometry(polygonal(0));
    for (lon, lat) in [(0.5, 0.5), (0.1, 0.9), (0.9, 0.1)] {
        assert!(doc.point_included(&inside_of(&shapes, lon, lat)));
    }
    for (lon, lat) in [(2.0, 2.0), (-0.5, 0.5), (0.5, 1.5)] {
        assert!(!doc.point_included(&inside_of(&shapes, lon, lat)));
    }
}

#[test]
fn point_in_hole_is_not_included() {
    let shapes = vec![geo_types::Geometry::Polygon(Polygon::new(
        square(0.0, 0.0, 10.0),
        vec![square(4.0, 4.0, 2.0)],
    ))];
    let doc = Document::Feature(feature(Some(polygonal(0)), true));
    assert!(!doc.point_included(&inside_of(&shapes, 5.0, 5.0)));
    assert!(doc.point_included(&inside_of(&shapes, 1.0, 1.0)));
}

#[test]
fn nested_collections_are_searched() {
    let doc = Document::Geometry(Geom::Collection {
        members: vec![
            Geom::Other,
            Geom::Collection { members: vec![Geom::Other, polygonal(1)] },
            polygonal(0),
        ],
    });
    assert!(doc.point_included(&vec![false, true]));
    assert!(doc.point_included(&vec![true, false]));
    assert!(!doc.point_included(&vec![false, false]));
}

#[test]
fn feature_without_geometry_never_matches() {
    let doc = Document::Feature(feature(None, true));
    assert!(!doc.point_included(&vec![true]));
    assert_eq!(doc.point_included_with_properties(&vec![true]), Vec::<usize>::new());
}

#[test]
fn properties_of_matching_features_in_order() {
    let doc = Document::FeatureCollection(vec![
        feature(Some(polygonal(0)), true),
        feature(Some(polygonal(1)), true),
        feature(Some(polygonal(2)), false),
        feature(None, true),
        feature(Some(Geom::Collection { members: vec![polygonal(3)] }), true),
        feature(Some(polygonal(4)), true),
    ]);
    let inside = vec![true, false, true, true, true];
    assert!(doc.point_included(&inside));
    assert_eq!(doc.point_included_with_properties(&inside), vec![0, 4, 5]);
}

#[test]
fn bare_geometry_reports_no_properties() {
    let doc = Document::Geometry(polygonal(0));
    assert!(doc.point_included(&vec![true]));
    assert_eq!(doc.point_included_with_properties(&vec![true]), Vec::<usize>::new());
}

#[test]
fn single_feature_properties() {
    let doc = Document::Feature(feature(Some(polygonal(0)), true));
    assert_eq!(doc.point_included_with_properties(&vec![true]), vec![0]);
    assert_eq!(doc.point_included_with_properties(&vec![false]), Vec::<usize>::new());
}

#[test]
fn area_skips_polygons_under_a_collection() {
    let nested = Document::FeatureCollection(vec![feature(
        Some(Geom::Collection { members: vec![polygonal(0)] }),
        true,
    )]);
    assert_eq!(nested.area_shapes(), Vec::<usize>::new());
    let direct = Document::FeatureCollection(vec![feature(Some(polygonal(0)), true)]);
    assert_eq!(direct.area_shapes(), vec![0]);

    let shape = geo_types::Geometry::Polygon(Polygon::new(square(0.0, 0.0, 1.0), vec![]));
    let area: f64 = direct.area_shapes().iter().map(|_| shape.geodesic_area_signed().abs()).sum();
    assert!(area.round() > 1.2e10 && area.round() < 1.3e10);
}

#[test]
fn area_shapes_of_each_document_kind() {
    assert_eq!(Document::Geometry(polygonal(3)).area_shapes(), vec![3]);
    assert_eq!(Document::Geometry(Geom::Other).area_shapes(), Vec::<usize>::new());
    assert_eq!(Document::Feature(feature(Some(polygonal(2)), false)).area_shapes(), vec![2]);
    let doc = Document::FeatureCollection(vec![
        feature(Some(polygonal(0)), true),
        feature(None, true),
        feature(Some(Geom::Other), true),
        feature(Some(polygonal(1)), false),
    ]);
    assert_eq!(doc.area_shapes(), vec![0, 1]);
}

#[test]
fn distance_shapes_reach_into_collections() {
    let doc = Document::FeatureCollection(vec![
        feature(Some(Geom::Collection {
            members: vec![polygonal(0), Geom::Collection { members: vec![polygonal(1)] }],
        }), true),
        feature(None, false),
        feature(Some(polygonal(2)), false),
    ]);
    assert_eq!(doc.distance_shapes(), vec![0, 1, 2]);
}

#[test]
fn distance_shapes_of_bare_geometry_are_empty() {
    assert_eq!(Document::Geometry(polygonal(0)).distance_shapes(), Vec::<usize>::new());
    assert_eq!(
        Document::Feature(feature(Some(polygonal(0)), false)).distance_shapes(),
        vec![0]
    );
}

#[test]
fn closest_distance_inside_is_zero_and_outside_matches_edge() {
    let shapes = vec![geo_types::Geometry::Polygon(Polygon::new(square(0.0, 0.0, 1.0), vec![]))];
    let doc = Document::Feature(feature(Some(polygonal(0)), false));
    let distance = |lon: f64, lat: f64| {
        let p = Point::new(lon, lat);
        doc.distance_shapes()
            .into_iter()
            .map(|k| match shapes[k].closest_point(&p) {
                Closest::Intersection(c) | Closest::SinglePoint(c) => Geodesic.distance(p, c),
                Closest::Indeterminate => f64::INFINITY,
            })
            .fold(f64::INFINITY, f64::min)
    };
    assert_eq!(distance(0.5, 0.5), 0.0);
    let outside = distance(2.0, 0.5);
    let to_edge = Geodesic.distance(Point::new(2.0, 0.5), Point::from(Coord { x: 1.0, y: 0.5 }));
    assert!(outside > 0.0);
    assert!((outside - to_edge).abs() < 1.0);
}

#[test]
fn shapes_below_checks_indices() {
    let doc = Document::FeatureCollection(vec![
        feature(Some(Geom::Collection { members: vec![polygonal(0), polygonal(2)] }), true),
        feature(None, true),
    ]);
    assert!(doc.shapes_below(3));
    assert!(!doc.shapes_below(2));
    assert!(Document::Geometry(Geom::Other).shapes_below(0));
    assert!(!Document::Geometry(polygonal(0)).shapes_below(0));
}

#[test]
fn empty_text_is_refused() {
    let err = parse_document("").err().expect("empty text is not GeoJSON");
    let prefix = "Invalid GeoJSON string: ";
    assert!(err.message.starts_with(prefix));
    assert!(err.message.len() > prefix.len());
}

#[test]
fn missing_type_is_refused() {
    let err = parse_document(r#"{"coordinates":[0,0]}"#).err().expect("a type is required");
    assert!(err.message.starts_with("Invalid GeoJSON string: "));
    assert!(parse_document("not json").is_err());
}

#[test]
fn minimal_point_is_accepted_and_never_matches() {
    let parsed = parse_document(r#"{"type":"Point","coordinates":[0,0]}"#);
    assert!(matches!(parsed, Ok(geojson::GeoJson::Geometry(_))));
    let doc = Document::Geometry(Geom::Other);
    assert!(!doc.point_included(&vec![]));
    assert!(!doc.point_included(&vec![true, true]));
}

#[test]
fn feature_collection_text_is_accepted() {
    let text = r#"{"type":"FeatureCollection","features":[{"type":"Feature","properties":{"name":"a"},"geometry":{"type":"Polygon","coordinates":[[[0,0],[1,0],[1,1],[0,1],[0,0]]]}}]}"#;
    match parse_document(text) {
        Ok(geojson::GeoJson::FeatureCollection(ctn)) => assert_eq!(ctn.features.len(), 1),
        _ => panic!("a feature collection was expected"),
    }
}
