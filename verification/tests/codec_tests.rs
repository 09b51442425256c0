use place_geometry::codec::{
    collection_result, copy_bytes, encode_collection, encode_point, encode_polygon,
    encode_rectangle, is_not_a_number, less_than, rectangle_corners, same_number, Coordinate,
    EncodingError,
};

fn coordinate(lat: f64, lng: f64) -> Coordinate {
    Coordinate { lat: lat.to_bits(), lng: lng.to_bits() }
}

fn reference_point(lat: f64, lng: f64) -> Vec<u8> {
    wkb::geom_to_wkb(&geo::Geometry::Point(geo::Point::new(lng, lat))).unwrap()
}

fn reference_rectangle(c1: (f64, f64), c2: (f64, f64)) -> Vec<u8> {
    let first = geo::Coord { x: c1.1, y: c1.0 };
    let second = geo::Coord { x: c2.1, y: c2.0 };
    let polygon = geo::Polygon::from(geo::Rect::new(first, second));
    wkb::geom_to_wkb(&geo::Geometry::Polygon(polygon)).unwrap()
}

fn decode_ring(bytes: &[u8]) -> Vec<(f64, f64)> {
    let mut cursor = std::io::Cursor::new(bytes.to_vec());
    match wkb::wkb_to_geom(&mut cursor).unwrap() {
        geo::Geometry::Polygon(polygon) => {
            assert!(polygon.interiors().is_empty());
            polygon.exterior().0.iter().map(|c| (c.x, c.y)).collect()
        }
        other => panic!("not a polygon: {:?}", other),
    }
}

#[test]
fn point_has_exact_bytes() {
    let bytes = encode_point(&coordinate(2.0, 1.0));
    let expected: Vec<u8> = vec![
        1, 1, 0, 0, 0, 0, 0, 0, 0, 0, 0, 0xf0, 0x3f, 0, 0, 0, 0, 0, 0, 0, 0x40,
    ];
    assert_eq!(bytes, expected);
}

#[test]
fn point_agrees_with_the_binary_writer() {
    for (lat, lng) in [(13.7563, 100.5018), (-33.9, 18.4), (0.0, -0.0), (89.999, -179.999)] {
        assert_eq!(encode_point(&coordinate(lat, lng)), reference_point(lat, lng));
    }
}

#[test]
fn point_that_is_not_a_number_is_still_written() {
    let bytes = encode_point(&coordinate(f64::NAN, 1.0));
    assert_eq!(bytes.len(), 21);
    assert_eq!(bytes, reference_point(f64::NAN, 1.0));
}

#[test]
fn rectangle_agrees_with_the_binary_writer() {
    let cases = [
        ((13.9, 100.9), (13.5, 100.1)),
        ((13.5, 100.1), (13.9, 100.9)),
        ((-10.0, 20.0), (10.0, -20.0)),
        ((-1.5, -3.0), (-0.5, -2.0)),
        ((f64::INFINITY, 1.0), (0.0, 0.0)),
    ];
    for (c1, c2) in cases {
        let bytes = encode_rectangle(&coordinate(c1.0, c1.1), &coordinate(c2.0, c2.1)).unwrap();
        assert_eq!(bytes, reference_rectangle(c1, c2));
        assert_eq!(bytes.len(), 93);
    }
}

#[test]
fn rectangle_ring_is_closed_with_four_distinct_corners() {
    let bytes = encode_rectangle(&coordinate(13.9, 100.9), &coordinate(13.5, 100.1)).unwrap();
    let ring = decode_ring(&bytes);
    assert_eq!(ring.len(), 5);
    assert_eq!(ring[0], ring[4]);
    for i in 0..4 {
        for j in (i + 1)..4 {
            assert_ne!(ring[i], ring[j]);
        }
    }
    assert_eq!(
        ring,
        vec![(100.1, 13.5), (100.9, 13.5), (100.9, 13.9), (100.1, 13.9), (100.1, 13.5)]
    );
}

#[test]
fn rectangle_extent_equals_the_corners_extent() {
    let bytes = encode_rectangle(&coordinate(-4.0, 7.5), &coordinate(6.0, -2.5)).unwrap();
    let ring = decode_ring(&bytes);
    let min_x = ring.iter().map(|p| p.0).fold(f64::INFINITY, f64::min);
    let max_x = ring.iter().map(|p| p.0).fold(f64::NEG_INFINITY, f64::max);
    let min_y = ring.iter().map(|p| p.1).fold(f64::INFINITY, f64::min);
    let max_y = ring.iter().map(|p| p.1).fold(f64::NEG_INFINITY, f64::max);
    assert_eq!((min_x, max_x, min_y, max_y), (-2.5, 7.5, -4.0, 6.0));
}

#[test]
fn degenerate_rectangle_is_refused() {
    let flat = encode_rectangle(&coordinate(1.0, 5.0), &coordinate(1.0, 6.0));
    assert_eq!(flat, Err(EncodingError::DegenerateRectangle));
    let thin = encode_rectangle(&coordinate(1.0, 5.0), &coordinate(2.0, 5.0));
    assert_eq!(thin, Err(EncodingError::DegenerateRectangle));
    let zeros = encode_rectangle(&coordinate(0.0, 5.0), &coordinate(-0.0, 6.0));
    assert_eq!(zeros, Err(EncodingError::DegenerateRectangle));
}

#[test]
fn rectangle_with_a_corner_that_is_not_a_number_is_refused() {
    let bad = encode_rectangle(&coordinate(f64::NAN, 5.0), &coordinate(1.0, 6.0));
    assert_eq!(bad, Err(EncodingError::NotANumber));
    let bad = encode_rectangle(&coordinate(1.0, 5.0), &coordinate(2.0, f64::NAN));
    assert_eq!(bad, Err(EncodingError::NotANumber));
}

#[test]
fn corners_start_at_the_lower_left() {
    let ring = rectangle_corners(&coordinate(13.9, 100.9), &coordinate(13.5, 100.1));
    let expected: Vec<(u64, u64)> = [
        (100.1f64, 13.5f64),
        (100.9, 13.5),
        (100.9, 13.9),
        (100.1, 13.9),
        (100.1, 13.5),
    ]
    .iter()
    .map(|p| (p.0.to_bits(), p.1.to_bits()))
    .collect();
    assert_eq!(ring, expected);
}

#[test]
fn polygon_of_an_empty_ring() {
    let bytes = encode_polygon(&Vec::new());
    assert_eq!(bytes, vec![1, 3, 0, 0, 0, 1, 0, 0, 0, 0, 0, 0, 0]);
}

#[test]
fn polygon_of_a_triangle_agrees_with_the_binary_writer() {
    let points = [(0.0f64, 0.0f64), (4.0, 0.0), (0.0, 3.0), (0.0, 0.0)];
    let ring: Vec<(u64, u64)> = points.iter().map(|p| (p.0.to_bits(), p.1.to_bits())).collect();
    let line = geo::LineString::new(points.iter().map(|p| geo::Coord { x: p.0, y: p.1 }).collect());
    let expected =
        wkb::geom_to_wkb(&geo::Geometry::Polygon(geo::Polygon::new(line, Vec::new()))).unwrap();
    assert_eq!(encode_polygon(&ring), expected);
}

#[test]
fn order_of_bit_patterns_is_that_of_the_numbers() {
    let values = [
        f64::NEG_INFINITY,
        -1.0e300,
        -2.5,
        -1.0e-310,
        -0.0,
        0.0,
        5.0e-324,
        1.0,
        100.5018,
        f64::INFINITY,
        f64::NAN,
    ];
    for a in values {
        for b in values {
            assert_eq!(less_than(a.to_bits(), b.to_bits()), a < b, "{} < {}", a, b);
            if !a.is_nan() && !b.is_nan() {
                assert_eq!(same_number(a.to_bits(), b.to_bits()), a == b, "{} == {}", a, b);
            }
        }
        assert_eq!(is_not_a_number(a.to_bits()), a.is_nan());
    }
}

#[test]
fn copy_keeps_every_byte() {
    let source: Vec<u8> = vec![1, 2, 3, 250];
    assert_eq!(copy_bytes(&source), source);
    assert_eq!(copy_bytes(&Vec::new()), Vec::<u8>::new());
}

#[test]
fn collection_keeps_its_mix_of_geometries() {
    let document = "{\"type\":\"GeometryCollection\",\"geometries\":[{\"type\":\"Point\",\"coordinates\":[1.0,2.0]},{\"type\":\"LineString\",\"coordinates\":[[0.0,0.0],[1.0,1.0]]}]}";
    let bytes = encode_collection(document).unwrap();
    let mut expected: Vec<u8> = vec![1, 7, 0, 0, 0, 1, 0, 0, 0, 1, 7, 0, 0, 0, 2, 0, 0, 0];
    expected.extend_from_slice(&encode_point(&coordinate(2.0, 1.0)));
    expected.extend_from_slice(&[1, 2, 0, 0, 0, 2, 0, 0, 0]);
    for value in [0.0f64, 0.0, 1.0, 1.0] {
        expected.extend_from_slice(&value.to_le_bytes());
    }
    assert_eq!(bytes, expected);
}

#[test]
fn collection_of_a_malformed_document_is_refused() {
    assert_eq!(encode_collection("{}"), Err(EncodingError::MalformedGeometry));
    assert_eq!(encode_collection("boundary"), Err(EncodingError::MalformedGeometry));
    let short = "{\"type\":\"Polygon\",\"coordinates\":[[[1.0]]]}";
    assert_eq!(encode_collection(short), Err(EncodingError::MalformedGeometry));
}

#[test]
fn collection_result_maps_each_outcome() {
    assert_eq!(collection_result(Some(vec![1, 2, 3])), Ok(vec![1, 2, 3]));
    assert_eq!(collection_result(None), Err(EncodingError::MalformedGeometry));
}
