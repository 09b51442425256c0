//! Place search: requests to the place-search service and what is read
//! from its answers.

use crate::codec::{
    encode_point, encode_polygon, is_not_a_number, is_proper_rectangle, point_wkb, polygon_wkb,
    rectangle_corners, rectangle_ring, same_number, Coordinate,
};
use vstd::prelude::*;
use vstd::string::*;

verus! {

/// Answer to an autocomplete request.
#[derive(Clone, Debug)]
pub struct AutoCompleteResponse {
    pub predictions: Vec<Place>,
}

/// One prediction of an autocomplete answer.
#[derive(Clone, Debug)]
pub struct Place {
    pub place_id: String,
}

/// Answer to a detail request.
#[derive(Clone, Copy, Debug)]
pub struct GeometryResponse {
    pub result: Result,
}

/// The place that a detail answer describes.
#[derive(Clone, Copy, Debug)]
pub struct Result {
    pub geometry: Geometry,
}

/// Center and suggested display rectangle of a place.
#[derive(Clone, Copy, Debug)]
pub struct Geometry {
    pub location: Coordinate,
    pub viewport: ViewPort,
}

/// A display rectangle by two opposite corners.
#[derive(Clone, Copy, Debug)]
pub struct ViewPort {
    pub northeast: Coordinate,
    pub southwest: Coordinate,
}

impl ViewPort {
    /// Both corners are numbers and span a rectangle with width and height.
    pub open spec fn is_proper(self) -> bool {
        is_proper_rectangle(self.northeast, self.southwest)
    }

    /// Whether the rectangle can be encoded.
    pub fn can_be_encoded(&self) -> (r: bool)
        ensures
            r == self.is_proper(),
    {
        !is_not_a_number(self.northeast.lng) && !is_not_a_number(self.northeast.lat)
            && !is_not_a_number(self.southwest.lng) && !is_not_a_number(self.southwest.lat)
            && !same_number(self.northeast.lng, self.southwest.lng) && !same_number(
            self.northeast.lat,
            self.southwest.lat,
        )
    }
}

impl Result {
    /// The center point in binary form.
    pub fn center(&self) -> (bytes: Vec<u8>)
        ensures
            bytes@ == point_wkb(self.geometry.location.lng, self.geometry.location.lat),
    {
        encode_point(&self.geometry.location)
    }

    /// The display rectangle as a closed polygon in binary form.
    pub fn bounding_box(&self) -> (bytes: Vec<u8>)
        requires
            self.geometry.viewport.is_proper(),
        ensures
            bytes@ == polygon_wkb(
                rectangle_ring(self.geometry.viewport.northeast, self.geometry.viewport.southwest),
            ),
    {
        let ring = rectangle_corners(
            &self.geometry.viewport.northeast,
            &self.geometry.viewport.southwest,
        );
        encode_polygon(&ring)
    }
}

pub open spec fn autocomplete_prefix() -> Seq<char> {
    "https://maps.googleapis.com/maps/api/place/autocomplete/json?input="@
}

pub open spec fn detail_prefix() -> Seq<char> {
    "https://maps.googleapis.com/maps/api/place/details/json?placeid="@
}

/// The text that both services are asked for: city, comma, space, country.
pub open spec fn query_text(country_name: Seq<char>, city_name: Seq<char>) -> Seq<char> {
    city_name + ", "@ + country_name
}

pub open spec fn autocomplete_address(
    country_name: Seq<char>,
    city_name: Seq<char>,
    location: Seq<char>,
    api_key: Seq<char>,
) -> Seq<char> {
    autocomplete_prefix() + query_text(country_name, city_name) + "&key="@ + api_key
        + "&location="@ + location + "&types=geocode"@
}

pub open spec fn detail_address(place_id: Seq<char>, api_key: Seq<char>) -> Seq<char> {
    detail_prefix() + place_id + "&fields=formatted_address,geometry,name&key="@ + api_key
}

/// The place-search service.
pub struct GoogleServices;

impl GoogleServices {
    /// Address of the autocomplete request for a city; `location` is the
    /// hint, latitude then longitude, as it is to appear in the address.
    pub fn place_id_request(
        country_name: &str,
        city_name: &str,
        location: &str,
        api_key: &str,
    ) -> (url: String)
        ensures
            url@ == autocomplete_address(country_name@, city_name@, location@, api_key@),
    {
        let mut url = String::from_str(
            "https://maps.googleapis.com/maps/api/place/autocomplete/json?input=",
        );
        url.append(city_name);
        url.append(", ");
        url.append(country_name);
        url.append("&key=");
        url.append(api_key);
        url.append("&location=");
        url.append(location);
        url.append("&types=geocode");
        url
    }

    /// The identifier of the first prediction, if there is any prediction.
    pub fn get_place_id(response: &AutoCompleteResponse) -> (id: Option<String>)
        ensures
            response.predictions@.len() == 0 ==> id is None,
            response.predictions@.len() > 0 ==> id == Some(response.predictions@[0].place_id),
    {
        if response.predictions.len() == 0 {
            None
        } else {
            Some(response.predictions[0].place_id.clone())
        }
    }

    /// Address of the detail request for a place.
    pub fn detail_request(place_id: &str, api_key: &str) -> (url: String)
        ensures
            url@ == detail_address(place_id@, api_key@),
    {
        let mut url = String::from_str(
            "https://maps.googleapis.com/maps/api/place/details/json?placeid=",
        );
        url.append(place_id);
        url.append("&fields=formatted_address,geometry,name&key=");
        url.append(api_key);
        url
    }
}

} // verus!
