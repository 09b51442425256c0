//! Resolution of one catalog entry, as a state machine: the caller performs
//! each action against the services and the store and hands back the event.

use crate::boundary::Properties;
use crate::codec::{
    copy_bytes, encode_point, encode_rectangle, has_nan, point_wkb, polygon_wkb, rectangle_ring,
    EncodingError,
};
use crate::search::GeometryResponse;
use vstd::prelude::*;

verus! {

/// A city of the catalog.
#[derive(Clone, Debug)]
pub struct City {
    pub region: String,
    pub name: String,
}

/// What is asked about one catalog entry; the position is a hint, each
/// field of it the bit pattern of a double.
#[derive(Clone, Debug)]
pub struct PlaceQuery {
    pub country_name: String,
    pub country_code: String,
    pub city_name: String,
    pub latitude: u64,
    pub longitude: u64,
}

/// The geometry stored for one boundary feature of a place.
#[derive(Clone, Debug)]
pub struct CityGeometryRecord {
    pub place_id: String,
    pub osm_id: Option<usize>,
    pub boundary: Vec<u8>,
    pub bounding_box: Vec<u8>,
    pub center_point: Vec<u8>,
}

/// The metadata stored beside a geometry record.
#[derive(Clone, Debug)]
pub struct CityInformationRecord {
    pub place_id: String,
    pub properties: Properties,
    pub country_code: String,
    pub country_name: String,
    pub city_name: String,
}

/// Where the resolution of an entry stands.
#[derive(Clone, Debug)]
pub enum EntryState {
    /// The store is being asked whether the entry is resolved already.
    CheckingExisting,
    /// The place search is being asked for an identifier.
    ResolvingIdentifier,
    /// Detail and boundaries of the place are being fetched.
    FetchingGeometry { place_id: String },
    Finished,
}

/// What the caller found when it performed an action.
#[derive(Clone, Debug)]
pub enum Event {
    Existing(Option<String>),
    Identifier(Option<String>),
    Geometry { detail: Option<GeometryResponse>, boundaries: Option<Vec<(Properties, Vec<u8>)>> },
}

/// What the caller is to do next.
#[derive(Clone, Debug)]
pub enum Action {
    ResolveIdentifier,
    FetchGeometry { place_id: String },
    /// Write each pair of records; one write that fails does not stop the
    /// others.
    Persist { records: Vec<(CityGeometryRecord, CityInformationRecord)> },
    /// The entry was resolved before.
    Skip,
    /// The place search gave no identifier.
    ReportUnresolved,
    /// Detail or boundaries are missing, or the viewport cannot be encoded:
    /// nothing is written.
    Abandon,
    /// The event does not answer the state.
    Ignore,
}

/// One pair of records holds the place, the feature's own identifier and
/// encoded boundary, the encoded viewport and center, the feature's
/// metadata and the names of the entry.
pub open spec fn record_of(
    record: (CityGeometryRecord, CityInformationRecord),
    place_id: String,
    detail: GeometryResponse,
    feature: (Properties, Vec<u8>),
    query: PlaceQuery,
) -> bool {
    let geometry = detail.result.geometry;
    &&& record.0.place_id@ == place_id@
    &&& record.0.osm_id == feature.0.osm_id
    &&& record.0.boundary@ == feature.1@
    &&& record.0.bounding_box@ == polygon_wkb(
        rectangle_ring(geometry.viewport.northeast, geometry.viewport.southwest),
    )
    &&& record.0.center_point@ == point_wkb(geometry.location.lng, geometry.location.lat)
    &&& record.1.place_id@ == place_id@
    &&& record.1.properties == feature.0
    &&& record.1.country_code@ == query.country_code@
    &&& record.1.country_name@ == query.country_name@
    &&& record.1.city_name@ == query.city_name@
}

/// There is one pair of records for each feature, in the features' order.
pub open spec fn persists(
    records: Seq<(CityGeometryRecord, CityInformationRecord)>,
    place_id: String,
    detail: GeometryResponse,
    features: Seq<(Properties, Vec<u8>)>,
    query: PlaceQuery,
) -> bool {
    &&& records.len() == features.len()
    &&& forall|i: int|
        0 <= i < records.len() ==> record_of(
            #[trigger] records[i],
            place_id,
            detail,
            features[i],
            query,
        )
}

/// The event carries all that a write needs.
pub open spec fn may_write(state: EntryState, event: Event) -> bool {
    &&& state is FetchingGeometry
    &&& event matches Event::Geometry { detail: Some(d), boundaries: Some(_) }
    &&& d.result.geometry.viewport.is_proper()
}

pub open spec fn next_state(state: EntryState, event: Event) -> EntryState {
    match (state, event) {
        (EntryState::CheckingExisting, Event::Existing(Some(_))) => EntryState::Finished,
        (EntryState::CheckingExisting, Event::Existing(None)) => EntryState::ResolvingIdentifier,
        (EntryState::ResolvingIdentifier, Event::Identifier(Some(id))) => {
            EntryState::FetchingGeometry { place_id: id }
        },
        (EntryState::ResolvingIdentifier, Event::Identifier(None)) => EntryState::Finished,
        (EntryState::FetchingGeometry { .. }, Event::Geometry { .. }) => EntryState::Finished,
        _ => state,
    }
}

/// The action that answers an event in a state.
pub open spec fn action_fits(
    action: Action,
    state: EntryState,
    event: Event,
    query: PlaceQuery,
) -> bool {
    match (state, event) {
        (EntryState::CheckingExisting, Event::Existing(Some(_))) => action is Skip,
        (EntryState::CheckingExisting, Event::Existing(None)) => action is ResolveIdentifier,
        (EntryState::ResolvingIdentifier, Event::Identifier(Some(id))) => {
            action == (Action::FetchGeometry { place_id: id })
        },
        (EntryState::ResolvingIdentifier, Event::Identifier(None)) => action is ReportUnresolved,
        (EntryState::FetchingGeometry { place_id }, Event::Geometry { detail, boundaries }) => {
            if may_write(state, event) {
                &&& action is Persist
                &&& persists(
                    action->records@,
                    place_id,
                    detail.unwrap(),
                    boundaries.unwrap()@,
                    query,
                )
            } else {
                action is Abandon
            }
        },
        _ => action is Ignore,
    }
}

/// Builds the records of a place: one pair for each boundary feature, each
/// with the same viewport and center.
pub fn fan_out(
    place_id: &String,
    detail: &GeometryResponse,
    boundaries: Vec<(Properties, Vec<u8>)>,
    query: &PlaceQuery,
) -> (result: core::result::Result<
    Vec<(CityGeometryRecord, CityInformationRecord)>,
    EncodingError,
>)
    ensures
        detail.result.geometry.viewport.is_proper() ==> result is Ok && persists(
            result->Ok_0@,
            *place_id,
            *detail,
            boundaries@,
            *query,
        ),
        !detail.result.geometry.viewport.is_proper() ==> result is Err && result->Err_0 == (
        if has_nan(
            detail.result.geometry.viewport.northeast,
            detail.result.geometry.viewport.southwest,
        ) {
            EncodingError::NotANumber
        } else {
            EncodingError::DegenerateRectangle
        }),
{
    let geometry = &detail.result.geometry;
    let bounding_box = match encode_rectangle(
        &geometry.viewport.northeast,
        &geometry.viewport.southwest,
    ) {
        Ok(bytes) => bytes,
        Err(e) => {
            return Err(e);
        },
    };
    let center_point = encode_point(&geometry.location);
    let ghost all = boundaries@;
    let mut rest = boundaries;
    let mut records: Vec<(CityGeometryRecord, CityInformationRecord)> = Vec::new();
    while rest.len() > 0
        invariant
            records@.len() + rest@.len() == all.len(),
            rest@ == all.skip(records@.len() as int),
            bounding_box@ == polygon_wkb(
                rectangle_ring(
                    detail.result.geometry.viewport.northeast,
                    detail.result.geometry.viewport.southwest,
                ),
            ),
            center_point@ == point_wkb(
                detail.result.geometry.location.lng,
                detail.result.geometry.location.lat,
            ),
            forall|j: int|
                0 <= j < records@.len() ==> record_of(
                    #[trigger] records@[j],
                    *place_id,
                    *detail,
                    all[j],
                    *query,
                ),
        decreases rest@.len(),
    {
        let ghost done = records@.len() as int;
        let feature = rest.remove(0);
        assert(feature == all[done]);
        assert(rest@ =~= all.skip(done + 1));
        let (properties, boundary) = feature;
        let geometry_record = CityGeometryRecord {
            place_id: place_id.clone(),
            osm_id: properties.osm_id,
            boundary,
            bounding_box: copy_bytes(&bounding_box),
            center_point: copy_bytes(&center_point),
        };
        let information_record = CityInformationRecord {
            place_id: place_id.clone(),
            properties,
            country_code: query.country_code.clone(),
            country_name: query.country_name.clone(),
            city_name: query.city_name.clone(),
        };
        records.push((geometry_record, information_record));
    }
    Ok(records)
}

/// Takes one step: the state after the event and what to do next.
pub fn advance(state: EntryState, event: Event, query: &PlaceQuery) -> (result: (
    EntryState,
    Action,
))
    ensures
        result.0 == next_state(state, event),
        action_fits(result.1, state, event, *query),
{
    match state {
        EntryState::CheckingExisting => match event {
            Event::Existing(Some(_)) => (EntryState::Finished, Action::Skip),
            Event::Existing(None) => (EntryState::ResolvingIdentifier, Action::ResolveIdentifier),
            _ => (EntryState::CheckingExisting, Action::Ignore),
        },
        EntryState::ResolvingIdentifier => match event {
            Event::Identifier(Some(id)) => {
                let place_id = id.clone();
                (EntryState::FetchingGeometry { place_id: id }, Action::FetchGeometry { place_id })
            },
            Event::Identifier(None) => (EntryState::Finished, Action::ReportUnresolved),
            _ => (EntryState::ResolvingIdentifier, Action::Ignore),
        },
        EntryState::FetchingGeometry { place_id } => match event {
            Event::Geometry { detail: Some(detail), boundaries: Some(boundaries) } => {
                match fan_out(&place_id, &detail, boundaries, query) {
                    Ok(records) => (EntryState::Finished, Action::Persist { records }),
                    Err(_) => (EntryState::Finished, Action::Abandon),
                }
            },
            Event::Geometry { .. } => (EntryState::Finished, Action::Abandon),
            _ => (EntryState::FetchingGeometry { place_id }, Action::Ignore),
        },
        EntryState::Finished => (EntryState::Finished, Action::Ignore),
    }
}

/// An entry that the store holds already is finished at once and nothing
/// is written for it, then or on any later event.
pub proof fn lemma_resolved_entry_is_not_written(id: String, later: Event)
    ensures
        next_state(EntryState::CheckingExisting, Event::Existing(Some(id))) == EntryState::Finished,
        !may_write(EntryState::CheckingExisting, Event::Existing(Some(id))),
        next_state(EntryState::Finished, later) == EntryState::Finished,
        !may_write(EntryState::Finished, later),
{
}

/// An action writes exactly where the event may be written.
pub proof fn lemma_writes_only_with_geometry(
    action: Action,
    state: EntryState,
    event: Event,
    query: PlaceQuery,
)
    requires
        action_fits(action, state, event, query),
    ensures
        action is Persist <==> may_write(state, event),
        action is FetchGeometry <==> state is ResolvingIdentifier && event matches Event::Identifier(
            Some(_),
        ),
{
}

} // verus!
