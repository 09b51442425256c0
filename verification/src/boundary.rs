//! Boundary source: decoding of search results into boundary features.
//!
//! A search result arrives as a geography document. Its features carry a
//! property bag, decoded leniently, and the text of the feature itself, which
//! is encoded as one geometry collection.

use crate::codec::{collection_wkb, encode_collection};
use vstd::prelude::*;
use vstd::string::*;

verus! {

/// A value of a feature's property bag, as far as decoding reads it.
#[derive(Clone, Debug)]
pub enum PropertyValue {
    Null,
    Flag(bool),
    /// A number, with each reading of it that is exact; `double` is the bit
    /// pattern of the number as a double.
    Number { unsigned: Option<u64>, signed: Option<i64>, double: Option<u64> },
    Text(String),
    /// A list or an object.
    Nested,
}

/// One entry of a property bag.
#[derive(Clone, Debug)]
pub struct Property {
    pub name: String,
    pub value: PropertyValue,
}

/// Descriptive metadata of a boundary feature.
#[derive(Clone, Debug)]
pub struct Properties {
    pub osm_id: Option<usize>,
    pub osm_type: Option<String>,
    pub place_id: Option<usize>,
    pub place_rank: Option<i16>,
    pub place_type: Option<String>,
    /// Bit pattern of a double.
    pub importance: Option<u64>,
    pub display_name: Option<String>,
    pub category: Option<String>,
}

/// A feature of a geography document.
#[derive(Clone, Debug)]
pub struct Feature {
    pub properties: Option<Vec<Property>>,
    /// The feature as a document of its own, in text.
    pub document: String,
}

/// A geography document by its tag.
#[derive(Clone, Debug)]
pub enum BoundaryDocument {
    Geometry,
    Feature(Feature),
    FeatureCollection(Vec<Feature>),
}

/// The value under `name` in a bag: that of the first entry so named.
pub open spec fn lookup(bag: Seq<Property>, name: Seq<char>) -> Option<PropertyValue>
    decreases bag.len(),
{
    if bag.len() == 0 {
        None
    } else if bag[0].name@ == name {
        Some(bag[0].value)
    } else {
        lookup(bag.skip(1), name)
    }
}

pub open spec fn unsigned_of(value: Option<PropertyValue>) -> Option<usize> {
    match value {
        Some(PropertyValue::Number { unsigned: Some(n), .. }) => if n <= usize::MAX {
            Some(n as usize)
        } else {
            None
        },
        _ => None,
    }
}

pub open spec fn rank_of(value: Option<PropertyValue>) -> Option<i16> {
    match value {
        Some(PropertyValue::Number { signed: Some(n), .. }) => if i16::MIN <= n <= i16::MAX {
            Some(n as i16)
        } else {
            None
        },
        _ => None,
    }
}

pub open spec fn real_of(value: Option<PropertyValue>) -> Option<u64> {
    match value {
        Some(PropertyValue::Number { double, .. }) => double,
        _ => None,
    }
}

pub open spec fn text_of(value: Option<PropertyValue>) -> Option<Seq<char>> {
    match value {
        Some(PropertyValue::Text(s)) => Some(s@),
        _ => None,
    }
}

pub open spec fn text_view(text: Option<String>) -> Option<Seq<char>> {
    match text {
        Some(s) => Some(s@),
        None => None,
    }
}

pub open spec fn boundary_tag() -> Seq<char> {
    "boundary"@
}

impl Properties {
    /// Every field holds what the bag gives under its name, read leniently:
    /// a value that is absent or of another shape leaves the field empty.
    pub open spec fn decodes(self, bag: Seq<Property>) -> bool {
        &&& self.osm_id == unsigned_of(lookup(bag, "osm_id"@))
        &&& text_view(self.osm_type) == text_of(lookup(bag, "osm_type"@))
        &&& self.place_id == unsigned_of(lookup(bag, "place_id"@))
        &&& self.place_rank == rank_of(lookup(bag, "place_rank"@))
        &&& text_view(self.place_type) == text_of(lookup(bag, "type"@))
        &&& self.importance == real_of(lookup(bag, "importance"@))
        &&& text_view(self.display_name) == text_of(lookup(bag, "display_name"@))
        &&& text_view(self.category) == text_of(lookup(bag, "category"@))
    }

    pub open spec fn is_boundary(self) -> bool {
        text_view(self.category) == Some(boundary_tag())
    }

    /// Decodes a property bag; never fails.
    pub fn from_bag(bag: &Vec<Property>) -> (properties: Properties)
        ensures
            properties.decodes(bag@),
    {
        Properties {
            osm_id: read_unsigned(find(bag, "osm_id")),
            osm_type: read_text(find(bag, "osm_type")),
            place_id: read_unsigned(find(bag, "place_id")),
            place_rank: read_rank(find(bag, "place_rank")),
            place_type: read_text(find(bag, "type")),
            importance: read_real(find(bag, "importance")),
            display_name: read_text(find(bag, "display_name")),
            category: read_text(find(bag, "category")),
        }
    }

    /// Whether the category is exactly the boundary tag.
    pub fn has_boundary_category(&self) -> (r: bool)
        ensures
            r == self.is_boundary(),
    {
        match &self.category {
            Some(c) => {
                let tag: String = "boundary".to_owned();
                *c == tag
            },
            None => false,
        }
    }
}

/// Finds the first entry of a bag under a name.
pub fn find<'a>(bag: &'a Vec<Property>, name: &str) -> (value: Option<&'a PropertyValue>)
    ensures
        value is Some <==> lookup(bag@, name@) is Some,
        value is Some ==> *value.unwrap() == lookup(bag@, name@).unwrap(),
{
    let key: String = name.to_owned();
    let mut i: usize = 0;
    assert(bag@.skip(0) =~= bag@);
    while i < bag.len()
        invariant
            i <= bag@.len(),
            key@ == name@,
            lookup(bag@, name@) == lookup(bag@.skip(i as int), name@),
        decreases bag@.len() - i,
    {
        if bag[i].name == key {
            assert(bag@.skip(i as int)[0] == bag@[i as int]);
            return Some(&bag[i].value);
        }
        proof {
            let rest = bag@.skip(i as int);
            assert(rest[0] == bag@[i as int]);
            assert(rest.skip(1) =~= bag@.skip(i + 1));
        }
        i += 1;
    }
    assert(bag@.skip(i as int).len() == 0);
    None
}

fn read_unsigned(value: Option<&PropertyValue>) -> (r: Option<usize>)
    ensures
        value is Some ==> r == unsigned_of(Some(*value.unwrap())),
        value is None ==> r is None,
{
    match value {
        Some(PropertyValue::Number { unsigned: Some(n), .. }) => {
            if *n <= usize::MAX as u64 {
                Some(*n as usize)
            } else {
                None
            }
        },
        _ => None,
    }
}

fn read_rank(value: Option<&PropertyValue>) -> (r: Option<i16>)
    ensures
        value is Some ==> r == rank_of(Some(*value.unwrap())),
        value is None ==> r is None,
{
    match value {
        Some(PropertyValue::Number { signed: Some(n), .. }) => {
            if -32768 <= *n && *n <= 32767 {
                Some(*n as i16)
            } else {
                None
            }
        },
        _ => None,
    }
}

fn read_real(value: Option<&PropertyValue>) -> (r: Option<u64>)
    ensures
        value is Some ==> r == real_of(Some(*value.unwrap())),
        value is None ==> r is None,
{
    match value {
        Some(PropertyValue::Number { double, .. }) => *double,
        _ => None,
    }
}

fn read_text(value: Option<&PropertyValue>) -> (r: Option<String>)
    ensures
        value is Some ==> text_view(r) == text_of(Some(*value.unwrap())),
        value is None ==> r is None,
{
    match value {
        Some(PropertyValue::Text(s)) => Some(s.clone()),
        _ => None,
    }
}

/// The feature's bag names the boundary category.
pub open spec fn has_boundary_tag(feature: Feature) -> bool {
    feature.properties is Some && text_of(lookup(feature.properties.unwrap()@, "category"@))
        == Some(boundary_tag())
}

/// The feature is kept: it is a boundary and its geometry can be encoded.
pub open spec fn feature_retained(feature: Feature) -> bool {
    has_boundary_tag(feature) && collection_wkb(feature.document@) is Some
}

/// The features of a sequence that are kept, in their order.
pub open spec fn retained(features: Seq<Feature>) -> Seq<Feature>
    decreases features.len(),
{
    if features.len() == 0 {
        Seq::empty()
    } else if feature_retained(features.last()) {
        retained(features.drop_last()).push(features.last())
    } else {
        retained(features.drop_last())
    }
}

/// How many features of a sequence name the boundary category.
pub open spec fn boundary_count(features: Seq<Feature>) -> nat
    decreases features.len(),
{
    if features.len() == 0 {
        0
    } else if has_boundary_tag(features.last()) {
        boundary_count(features.drop_last()) + 1
    } else {
        boundary_count(features.drop_last())
    }
}

/// The features that a document holds.
pub open spec fn members(document: BoundaryDocument) -> Seq<Feature> {
    match document {
        BoundaryDocument::Geometry => Seq::empty(),
        BoundaryDocument::Feature(feature) => seq![feature],
        BoundaryDocument::FeatureCollection(features) => features@,
    }
}

/// The entry holds the decoded metadata and the encoded geometry of the
/// feature.
pub open spec fn entry_of(entry: (Properties, Vec<u8>), feature: Feature) -> bool {
    &&& feature.properties is Some
    &&& entry.0.decodes(feature.properties.unwrap()@)
    &&& Some(entry.1@) == collection_wkb(feature.document@)
}

/// The result lists exactly the kept features, and is `None` where none is
/// kept.
pub open spec fn lists(result: Option<Vec<(Properties, Vec<u8>)>>, kept: Seq<Feature>) -> bool {
    if kept.len() == 0 {
        result is None
    } else {
        &&& result is Some
        &&& result.unwrap()@.len() == kept.len()
        &&& forall|i: int| 0 <= i < kept.len() ==> entry_of(#[trigger] result.unwrap()@[i], kept[i])
    }
}

/// Keeps decoded metadata together with an encoded geometry where the
/// metadata names a boundary and there is a geometry.
pub fn pair_feature(properties: Properties, encoded: Option<Vec<u8>>) -> (result: (
    Option<Properties>,
    Option<Vec<u8>>,
))
    ensures
        properties.is_boundary() && encoded is Some ==> result.0 == Some(properties) && result.1
            == encoded,
        !(properties.is_boundary() && encoded is Some) ==> result.0 is None && result.1 is None,
{
    if properties.has_boundary_category() {
        match encoded {
            Some(bytes) => (Some(properties), Some(bytes)),
            None => (None, None),
        }
    } else {
        (None, None)
    }
}

/// Decodes one feature: its metadata and its encoded geometry where it is
/// kept, nothing otherwise.
pub fn parse_geo_feature(feature: &Feature) -> (result: (Option<Properties>, Option<Vec<u8>>))
    ensures
        feature_retained(*feature) ==> result.0 is Some && result.1 is Some && entry_of(
            (result.0.unwrap(), result.1.unwrap()),
            *feature,
        ),
        !feature_retained(*feature) ==> result.0 is None && result.1 is None,
{
    match &feature.properties {
        Some(bag) => {
            let properties = Properties::from_bag(bag);
            let encoded = if properties.has_boundary_category() {
                match encode_collection(feature.document.as_str()) {
                    Ok(bytes) => Some(bytes),
                    Err(_) => None,
                }
            } else {
                None
            };
            pair_feature(properties, encoded)
        },
        None => (None, None),
    }
}

/// Decodes a search result: the kept features of the document in their
/// order, or `None` where there is none. A bare geometry holds no feature.
pub fn parse_geojson(json: &BoundaryDocument) -> (result: Option<Vec<(Properties, Vec<u8>)>>)
    ensures
        lists(result, retained(members(*json))),
        json is Geometry ==> result is None,
{
    match json {
        BoundaryDocument::Geometry => None,
        BoundaryDocument::Feature(feature) => {
            assert(seq![*feature].drop_last() =~= Seq::<Feature>::empty());
            assert(retained(Seq::<Feature>::empty()) =~= Seq::<Feature>::empty());
            let res = parse_geo_feature(feature);
            match res {
                (Some(properties), Some(geom)) => {
                    let mut v: Vec<(Properties, Vec<u8>)> = Vec::new();
                    v.push((properties, geom));
                    assert(retained(seq![*feature]) =~= seq![*feature]);
                    Some(v)
                },
                _ => None,
            }
        },
        BoundaryDocument::FeatureCollection(features) => {
            let mut v: Vec<(Properties, Vec<u8>)> = Vec::new();
            let mut i: usize = 0;
            assert(features@.take(0) =~= Seq::<Feature>::empty());
            while i < features.len()
                invariant
                    i <= features@.len(),
                    v@.len() == retained(features@.take(i as int)).len(),
                    forall|j: int|
                        0 <= j < v@.len() ==> entry_of(
                            #[trigger] v@[j],
                            retained(features@.take(i as int))[j],
                        ),
                decreases features@.len() - i,
            {
                proof {
                    let next = features@.take(i + 1);
                    assert(next.drop_last() =~= features@.take(i as int));
                    assert(next.last() == features@[i as int]);
                }
                let res = parse_geo_feature(&features[i]);
                match res {
                    (Some(properties), Some(geom)) => {
                        v.push((properties, geom));
                    },
                    _ => {},
                }
                i += 1;
            }
            assert(features@.take(i as int) =~= features@);
            if v.is_empty() {
                None
            } else {
                Some(v)
            }
        },
    }
}

/// Where every feature that names the boundary category has a geometry that
/// can be encoded, as many features are kept as name that category.
pub proof fn lemma_retained_count(features: Seq<Feature>)
    requires
        forall|i: int|
            0 <= i < features.len() && has_boundary_tag(#[trigger] features[i])
                ==> collection_wkb(features[i].document@) is Some,
    ensures
        retained(features).len() == boundary_count(features),
    decreases features.len(),
{
    if features.len() > 0 {
        let rest = features.drop_last();
        assert forall|i: int|
            0 <= i < rest.len() && has_boundary_tag(#[trigger] rest[i]) implies collection_wkb(
            rest[i].document@,
        ) is Some by {
            assert(rest[i] == features[i]);
        }
        lemma_retained_count(rest);
    }
}

/// No more features are kept than name the boundary category.
pub proof fn lemma_retained_bound(features: Seq<Feature>)
    ensures
        retained(features).len() <= boundary_count(features),
    decreases features.len(),
{
    if features.len() > 0 {
        lemma_retained_bound(features.drop_last());
    }
}

pub open spec fn search_prefix() -> Seq<char> {
    "https://nominatim.openstreetmap.org/search.php?q="@
}

pub open spec fn search_address(country_name: Seq<char>, city_name: Seq<char>) -> Seq<char> {
    search_prefix() + city_name + ", "@ + country_name + "&polygon_geojson=1&format=geojson"@
}

/// The name and the value of a request header.
pub open spec fn header_is(header: (String, String), name: Seq<char>, value: Seq<char>) -> bool {
    header.0@ == name && header.1@ == value
}

/// The headers that every request to the boundary source carries.
pub fn constant_headers() -> (headers: Vec<(String, String)>)
    ensures
        headers@.len() == 3,
        header_is(headers@[0], "accept"@, "*/*"@),
        header_is(headers@[1], "accept-language"@, "en-US"@),
        header_is(headers@[2], "user-agent"@, "Mozilla/5.0"@),
{
    let mut headers: Vec<(String, String)> = Vec::new();
    headers.push((String::from_str("accept"), String::from_str("*/*")));
    headers.push((String::from_str("accept-language"), String::from_str("en-US")));
    headers.push((String::from_str("user-agent"), String::from_str("Mozilla/5.0")));
    headers
}

/// The boundary source.
pub struct OSMServices;

impl OSMServices {
    /// Address of the search request for a city.
    pub fn search_request(country_name: &str, city_name: &str) -> (url: String)
        ensures
            url@ == search_address(country_name@, city_name@),
    {
        let mut url = String::from_str("https://nominatim.openstreetmap.org/search.php?q=");
        url.append(city_name);
        url.append(", ");
        url.append(country_name);
        url.append("&polygon_geojson=1&format=geojson");
        url
    }

    /// The boundary features of an answer; an answer that could not be had
    /// or read gives none.
    pub fn get_detail_by_osm(answer: &Option<BoundaryDocument>) -> (result: Option<
        Vec<(Properties, Vec<u8>)>,
    >)
        ensures
            answer is None ==> result is None,
            answer is Some ==> lists(result, retained(members(answer.unwrap()))),
    {
        match answer {
            Some(document) => parse_geojson(document),
            None => None,
        }
    }
}

} // verus!
