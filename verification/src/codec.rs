//! Geometry codec: points, viewport rectangles and geometry collections in
//! well-known binary form.
//!
//! A coordinate value is held as the bit pattern of an IEEE-754 double, so
//! every statement about encoded bytes is a statement about integers.

use vstd::prelude::*;

verus! {

pub const SIGN_BIT: u64 = 0x8000_0000_0000_0000;

pub const MAGNITUDE_MASK: u64 = 0x7fff_ffff_ffff_ffff;

pub const INFINITY_BITS: u64 = 0x7ff0_0000_0000_0000;

/// A geographic position; each field is the bit pattern of a double.
#[derive(Clone, Copy, Debug)]
pub struct Coordinate {
    pub lat: u64,
    pub lng: u64,
}

/// Why a shape could not be encoded.
#[derive(Clone, Copy, Debug, PartialEq, Eq, Structural)]
pub enum EncodingError {
    /// A corner of the rectangle is not a number.
    NotANumber,
    /// The rectangle has no width or no height.
    DegenerateRectangle,
    /// The document holds no geometry that can be read as a collection.
    MalformedGeometry,
}

/// The bit pattern stands for no number.
pub open spec fn is_nan(bits: u64) -> bool {
    (bits & MAGNITUDE_MASK) > INFINITY_BITS
}

/// An integer that orders bit patterns as the doubles they stand for are
/// ordered; both zeros map to 0.
pub open spec fn order_key(bits: u64) -> int {
    if bits & SIGN_BIT == 0 {
        (bits & MAGNITUDE_MASK) as int
    } else {
        -((bits & MAGNITUDE_MASK) as int)
    }
}

/// `a < b` as doubles: false whenever either side is not a number.
pub open spec fn precedes(a: u64, b: u64) -> bool {
    !is_nan(a) && !is_nan(b) && order_key(a) < order_key(b)
}

/// The smaller of two numbers, as a rectangle picks it.
pub open spec fn lower(a: u64, b: u64) -> u64 {
    if precedes(a, b) { a } else { b }
}

/// The larger of two numbers, as a rectangle picks it.
pub open spec fn upper(a: u64, b: u64) -> u64 {
    if precedes(a, b) { b } else { a }
}

/// The closed ring of the axis-aligned rectangle spanned by two corners,
/// as (x, y) pairs with x the longitude.
pub open spec fn rectangle_ring(c1: Coordinate, c2: Coordinate) -> Seq<(u64, u64)> {
    let lo_x = lower(c1.lng, c2.lng);
    let hi_x = upper(c1.lng, c2.lng);
    let lo_y = lower(c1.lat, c2.lat);
    let hi_y = upper(c1.lat, c2.lat);
    seq![(lo_x, lo_y), (hi_x, lo_y), (hi_x, hi_y), (lo_x, hi_y), (lo_x, lo_y)]
}

/// Both corners are numbers and the rectangle has width and height.
pub open spec fn is_proper_rectangle(c1: Coordinate, c2: Coordinate) -> bool {
    !has_nan(c1, c2) && order_key(c1.lng) != order_key(c2.lng) && order_key(c1.lat)
        != order_key(c2.lat)
}

/// One of the four values of two corners is not a number.
pub open spec fn has_nan(c1: Coordinate, c2: Coordinate) -> bool {
    is_nan(c1.lng) || is_nan(c1.lat) || is_nan(c2.lng) || is_nan(c2.lat)
}

/// The four bytes of a number, lowest first.
pub open spec fn le_bytes32(n: u32) -> Seq<u8> {
    seq![
        (n & 0xff) as u8,
        ((n >> 8) & 0xff) as u8,
        ((n >> 16) & 0xff) as u8,
        ((n >> 24) & 0xff) as u8,
    ]
}

/// The eight bytes of a number, lowest first.
pub open spec fn le_bytes64(n: u64) -> Seq<u8> {
    seq![
        (n & 0xff) as u8,
        ((n >> 8) & 0xff) as u8,
        ((n >> 16) & 0xff) as u8,
        ((n >> 24) & 0xff) as u8,
        ((n >> 32) & 0xff) as u8,
        ((n >> 40) & 0xff) as u8,
        ((n >> 48) & 0xff) as u8,
        ((n >> 56) & 0xff) as u8,
    ]
}

/// The bytes of a position: x, then y.
pub open spec fn position_bytes(p: (u64, u64)) -> Seq<u8> {
    le_bytes64(p.0) + le_bytes64(p.1)
}

/// The bytes of the positions of a ring, in their order.
pub open spec fn ring_bytes(ring: Seq<(u64, u64)>) -> Seq<u8>
    decreases ring.len(),
{
    if ring.len() == 0 {
        Seq::empty()
    } else {
        ring_bytes(ring.drop_last()) + position_bytes(ring.last())
    }
}

/// Little-endian well-known binary of a point.
pub open spec fn point_wkb(x: u64, y: u64) -> Seq<u8> {
    seq![1u8] + le_bytes32(1) + le_bytes64(x) + le_bytes64(y)
}

/// Little-endian well-known binary of a polygon with one ring.
pub open spec fn polygon_wkb(ring: Seq<(u64, u64)>) -> Seq<u8> {
    seq![1u8] + le_bytes32(3) + le_bytes32(1) + le_bytes32(ring.len() as u32) + ring_bytes(ring)
}

/// Whether a bit pattern stands for no number.
pub fn is_not_a_number(bits: u64) -> (r: bool)
    ensures
        r == is_nan(bits),
{
    (bits & MAGNITUDE_MASK) > INFINITY_BITS
}

/// Whether two bit patterns stand for equal numbers.
pub fn same_number(a: u64, b: u64) -> (r: bool)
    ensures
        r == (order_key(a) == order_key(b)),
{
    let ma: u64 = a & MAGNITUDE_MASK;
    let mb: u64 = b & MAGNITUDE_MASK;
    let na: bool = a & SIGN_BIT != 0;
    let nb: bool = b & SIGN_BIT != 0;
    if na == nb {
        ma == mb
    } else {
        ma == 0 && mb == 0
    }
}

fn push_le32(out: &mut Vec<u8>, n: u32)
    ensures
        final(out)@ == old(out)@ + le_bytes32(n),
{
    out.push((n & 0xff) as u8);
    out.push(((n >> 8) & 0xff) as u8);
    out.push(((n >> 16) & 0xff) as u8);
    out.push(((n >> 24) & 0xff) as u8);
    assert(out@ =~= old(out)@ + le_bytes32(n));
}

fn push_le64(out: &mut Vec<u8>, n: u64)
    ensures
        final(out)@ == old(out)@ + le_bytes64(n),
{
    out.push((n & 0xff) as u8);
    out.push(((n >> 8) & 0xff) as u8);
    out.push(((n >> 16) & 0xff) as u8);
    out.push(((n >> 24) & 0xff) as u8);
    out.push(((n >> 32) & 0xff) as u8);
    out.push(((n >> 40) & 0xff) as u8);
    out.push(((n >> 48) & 0xff) as u8);
    out.push(((n >> 56) & 0xff) as u8);
    assert(out@ =~= old(out)@ + le_bytes64(n));
}

/// A fresh vector with the same bytes.
pub fn copy_bytes(source: &Vec<u8>) -> (bytes: Vec<u8>)
    ensures
        bytes@ == source@,
{
    let mut out: Vec<u8> = Vec::new();
    let mut i: usize = 0;
    while i < source.len()
        invariant
            i <= source@.len(),
            out@ == source@.take(i as int),
        decreases source@.len() - i,
    {
        out.push(source[i]);
        assert(out@ =~= source@.take(i + 1));
        i += 1;
    }
    assert(source@.take(i as int) =~= source@);
    out
}

/// Encodes a point; longitude is written first.
pub fn encode_point(c: &Coordinate) -> (bytes: Vec<u8>)
    ensures
        bytes@ == point_wkb(c.lng, c.lat),
{
    let mut out: Vec<u8> = Vec::new();
    out.push(1u8);
    push_le32(&mut out, 1u32);
    push_le64(&mut out, c.lng);
    push_le64(&mut out, c.lat);
    assert(out@ =~= point_wkb(c.lng, c.lat));
    out
}

/// `a < b` on the numbers that two bit patterns stand for.
pub fn less_than(a: u64, b: u64) -> (r: bool)
    ensures
        r == precedes(a, b),
{
    if is_not_a_number(a) || is_not_a_number(b) {
        return false;
    }
    let ma: u64 = a & MAGNITUDE_MASK;
    let mb: u64 = b & MAGNITUDE_MASK;
    let na: bool = a & SIGN_BIT != 0;
    let nb: bool = b & SIGN_BIT != 0;
    if na {
        if nb {
            ma > mb
        } else {
            ma != 0 || mb != 0
        }
    } else {
        !nb && ma < mb
    }
}

/// The corners of the rectangle spanned by two positions, as a closed ring.
pub fn rectangle_corners(c1: &Coordinate, c2: &Coordinate) -> (ring: Vec<(u64, u64)>)
    ensures
        ring@ == rectangle_ring(*c1, *c2),
{
    let x_first: bool = less_than(c1.lng, c2.lng);
    let y_first: bool = less_than(c1.lat, c2.lat);
    let lo_x: u64 = if x_first { c1.lng } else { c2.lng };
    let hi_x: u64 = if x_first { c2.lng } else { c1.lng };
    let lo_y: u64 = if y_first { c1.lat } else { c2.lat };
    let hi_y: u64 = if y_first { c2.lat } else { c1.lat };
    let mut ring: Vec<(u64, u64)> = Vec::new();
    ring.push((lo_x, lo_y));
    ring.push((hi_x, lo_y));
    ring.push((hi_x, hi_y));
    ring.push((lo_x, hi_y));
    ring.push((lo_x, lo_y));
    assert(ring@ =~= rectangle_ring(*c1, *c2));
    ring
}

/// Encodes a polygon that has the given ring as its only one.
pub fn encode_polygon(ring: &Vec<(u64, u64)>) -> (bytes: Vec<u8>)
    requires
        ring@.len() <= u32::MAX,
    ensures
        bytes@ == polygon_wkb(ring@),
{
    let mut out: Vec<u8> = Vec::new();
    out.push(1u8);
    push_le32(&mut out, 3u32);
    push_le32(&mut out, 1u32);
    push_le32(&mut out, ring.len() as u32);
    let ghost header = out@;
    assert(header =~= seq![1u8] + le_bytes32(3) + le_bytes32(1) + le_bytes32(ring@.len() as u32));
    let mut i: usize = 0;
    while i < ring.len()
        invariant
            i <= ring@.len(),
            out@ == header + ring_bytes(ring@.take(i as int)),
        decreases ring@.len() - i,
    {
        let p = ring[i];
        push_le64(&mut out, p.0);
        push_le64(&mut out, p.1);
        proof {
            let next = ring@.take(i + 1);
            assert(next.drop_last() =~= ring@.take(i as int));
            assert(next.last() == p);
            assert(out@ =~= header + ring_bytes(next));
        }
        i += 1;
    }
    assert(ring@.take(i as int) =~= ring@);
    out
}

/// Encodes the rectangle spanned by two corners as a closed polygon.
pub fn encode_rectangle(c1: &Coordinate, c2: &Coordinate) -> (result: Result<
    Vec<u8>,
    EncodingError,
>)
    ensures
        is_proper_rectangle(*c1, *c2) ==> result is Ok && result->Ok_0@ == polygon_wkb(
            rectangle_ring(*c1, *c2),
        ),
        has_nan(*c1, *c2) ==> result == Err::<Vec<u8>, EncodingError>(EncodingError::NotANumber),
        !has_nan(*c1, *c2) && !is_proper_rectangle(*c1, *c2) ==> result == Err::<
            Vec<u8>,
            EncodingError,
        >(EncodingError::DegenerateRectangle),
{
    if is_not_a_number(c1.lng) || is_not_a_number(c1.lat) || is_not_a_number(c2.lng)
        || is_not_a_number(c2.lat) {
        return Err(EncodingError::NotANumber);
    }
    if same_number(c1.lng, c2.lng) || same_number(c1.lat, c2.lat) {
        return Err(EncodingError::DegenerateRectangle);
    }
    let ring = rectangle_corners(c1, c2);
    Ok(encode_polygon(&ring))
}

/// The binary form of the geometry collection that a geography document in
/// text holds, where it holds one.
pub uninterp spec fn collection_wkb(document: Seq<char>) -> Option<Seq<u8>>;

/// Trusted: `geojson::GeoJson::from_str`, `geojson::quick_collection` and
/// `wkb::geom_to_wkb` in turn. The text is read as a geography document, its
/// geometries are gathered into one collection, and the collection is
/// written in binary form; a failure of any step gives `None`. The result
/// depends on the text alone.
#[verifier::external_body]
#[allow(deprecated)]
fn write_collection(document: &str) -> (result: Option<Vec<u8>>)
    ensures
        result is Some <==> collection_wkb(document@) is Some,
        result is Some ==> result.unwrap()@ == collection_wkb(document@).unwrap(),
{
    let parsed: geojson::GeoJson = match document.parse() {
        Ok(parsed) => parsed,
        Err(_) => return None,
    };
    let shapes: geo::GeometryCollection = match geojson::quick_collection(&parsed) {
        Ok(shapes) => shapes,
        Err(_) => return None,
    };
    wkb::geom_to_wkb(&geo::Geometry::GeometryCollection(shapes)).ok()
}

/// What is returned for each outcome of the collection writer: its bytes,
/// or the error where it gave none.
pub fn collection_result(written: Option<Vec<u8>>) -> (result: Result<Vec<u8>, EncodingError>)
    ensures
        written is Some ==> result == Ok::<Vec<u8>, EncodingError>(written.unwrap()),
        written is None ==> result == Err::<Vec<u8>, EncodingError>(
            EncodingError::MalformedGeometry,
        ),
{
    match written {
        Some(bytes) => Ok(bytes),
        None => Err(EncodingError::MalformedGeometry),
    }
}

/// Encodes the geometries of a geography document as one collection.
pub fn encode_collection(document: &str) -> (result: Result<Vec<u8>, EncodingError>)
    ensures
        collection_wkb(document@) is Some ==> result is Ok && result->Ok_0@ == collection_wkb(
            document@,
        ).unwrap(),
        collection_wkb(document@) is None ==> result == Err::<Vec<u8>, EncodingError>(
            EncodingError::MalformedGeometry,
        ),
{
    collection_result(write_collection(document))
}

/// The number lies within the extent that two others span.
pub open spec fn within(bits: u64, a: u64, b: u64) -> bool {
    let lo = if order_key(a) < order_key(b) { order_key(a) } else { order_key(b) };
    let hi = if order_key(a) < order_key(b) { order_key(b) } else { order_key(a) };
    lo <= order_key(bits) <= hi
}

/// The ring of a proper rectangle has five positions of which the last
/// repeats the first, its first four are pairwise distinct, as bit patterns
/// and as numbers, every position lies within the extent of the two
/// corners, and each bound of that extent is reached.
pub proof fn lemma_rectangle_ring(c1: Coordinate, c2: Coordinate)
    requires
        is_proper_rectangle(c1, c2),
    ensures
        rectangle_ring(c1, c2).len() == 5,
        rectangle_ring(c1, c2)[4] == rectangle_ring(c1, c2)[0],
        forall|i: int, j: int|
            0 <= i < j < 4 ==> rectangle_ring(c1, c2)[i] != rectangle_ring(c1, c2)[j],
        forall|i: int, j: int|
            0 <= i < j < 4 ==> order_key(rectangle_ring(c1, c2)[i].0) != order_key(
                rectangle_ring(c1, c2)[j].0,
            ) || order_key(rectangle_ring(c1, c2)[i].1) != order_key(rectangle_ring(c1, c2)[j].1),
        forall|i: int|
            0 <= i < 5 ==> within(#[trigger] rectangle_ring(c1, c2)[i].0, c1.lng, c2.lng) && within(
                rectangle_ring(c1, c2)[i].1,
                c1.lat,
                c2.lat,
            ),
        order_key(rectangle_ring(c1, c2)[0].0) < order_key(rectangle_ring(c1, c2)[2].0),
        order_key(rectangle_ring(c1, c2)[0].1) < order_key(rectangle_ring(c1, c2)[2].1),
        order_key(rectangle_ring(c1, c2)[0].0) == order_key(lower(c1.lng, c2.lng)),
        order_key(rectangle_ring(c1, c2)[2].0) == order_key(upper(c1.lng, c2.lng)),
        order_key(rectangle_ring(c1, c2)[0].1) == order_key(lower(c1.lat, c2.lat)),
        order_key(rectangle_ring(c1, c2)[2].1) == order_key(upper(c1.lat, c2.lat)),
{
}

} // verus!
