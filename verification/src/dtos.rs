//! Data transfer objects: what the API hands out and takes in, and the
//! conversion from a stored event row to the response the API returns.

use vstd::prelude::*;
use crate::events::EventRow;
use crate::models::Amenities;
use crate::models::CampingInfo;
use crate::models::EventDate;
use crate::models::EventType;
use crate::models::Location;

verus! {

/// The event as the API returns it: the full document, with the category
/// expanded to a full object rather than an id.
#[derive(Debug)]
pub struct EventResponse {
    pub name: String,
    pub description: String,
    pub event_type: EventType,
    pub website: Option<String>,
    pub date_info: EventDate,
    pub location_info: Location,
    pub amenities: Option<Amenities>,
    pub camping_info: Option<CampingInfo>,
}

/// The response built from a stored row: the document's fields, with the
/// category assembled from the row's denormalized category columns.
pub open spec fn response_of(row: EventRow) -> EventResponse {
    EventResponse {
        name: row.event_data.name,
        description: row.event_data.description,
        event_type: EventType {
            id: Some(row.event_type_id),
            name: row.event_type_name,
            description: row.event_type_description,
            map_indicator: row.event_type_map_indicator,
            category: row.event_type_category,
        },
        website: row.event_data.website,
        date_info: row.event_data.date_info,
        location_info: row.event_data.location_info,
        amenities: Some(row.event_data.amenities),
        camping_info: row.event_data.camping_info,
    }
}

/// `response_of` as a function value, for mapping row listings.
pub open spec fn responses_fn() -> spec_fn(EventRow) -> EventResponse {
    |row: EventRow| response_of(row)
}

impl EventResponse {
    /// Assembles the response for one stored row.
    pub fn from_row(row: EventRow) -> (r: Self)
        ensures
            r == response_of(row),
    {
        EventResponse {
            name: row.event_data.name,
            description: row.event_data.description,
            event_type: EventType {
                id: Some(row.event_type_id),
                name: row.event_type_name,
                description: row.event_type_description,
                map_indicator: row.event_type_map_indicator,
                category: row.event_type_category,
            },
            website: row.event_data.website,
            date_info: row.event_data.date_info,
            location_info: row.event_data.location_info,
            amenities: Some(row.event_data.amenities),
            camping_info: row.event_data.camping_info,
        }
    }
}

/// Turns a listing of stored rows into the responses the API returns,
/// in the same order.
pub fn rows_to_responses(rows: Vec<EventRow>) -> (r: Vec<EventResponse>)
    ensures
        r@ == rows@.map_values(responses_fn()),
{
    let mut out: Vec<EventResponse> = Vec::new();
    let mut i: usize = 0;
    proof {
        assert(out@ =~= rows@.subrange(0, 0).map_values(responses_fn()));
    }
    while i < rows.len()
        invariant
            i <= rows@.len(),
            out@ == rows@.subrange(0, i as int).map_values(responses_fn()),
        decreases rows@.len() - i,
    {
        let response = EventResponse::from_row(rows[i].clone());
        out.push(response);
        proof {
            assert(out@ =~= rows@.subrange(0, i + 1).map_values(responses_fn()));
        }
        i = i + 1;
    }
    proof {
        assert(rows@.subrange(0, rows@.len() as int) =~= rows@);
    }
    out
}

/// A request to create an event, reduced to the queryable essentials.
#[derive(Debug)]
pub struct CreateEventDto {
    pub name: String,
    pub description: String,
    pub event_type: Option<i64>,
    pub website: Option<String>,
}

/// A request to change an event's queryable essentials.
#[derive(Debug)]
pub struct UpdateEventDto {
    pub name: Option<String>,
    pub description: Option<String>,
    pub event_type: Option<String>,
    pub website: Option<String>,
}

/// The reduced event representation some listings return.
#[derive(Debug)]
pub struct EventResponseDto {
    pub id: i64,
    pub name: String,
    pub description: String,
    pub event_type: Option<i64>,
    pub website: Option<String>,
}

/// A request to create an event with a camping template applied.
#[derive(Debug)]
pub struct CreateEventRequest {
    pub name: String,
    pub description: String,
    pub event_type: Option<i64>,
    pub website: Option<String>,
    pub camping_profile_id_to_apply: Option<i64>,
    pub camping_info: Option<CampingInfo>,
}

/// One entry of the camping profile listing.
#[derive(Debug)]
pub struct CampingProfileListResponse {
    pub id: i64,
    pub profile_name: String,
    pub description: Option<String>,
}

/// A microevent as a persistence row with textual timestamps.
#[derive(Debug)]
pub struct MicroeventRow {
    pub id: i64,
    pub archive: bool,
    pub user_id: String,
    pub event_id: i64,
    pub name: String,
    pub description: String,
    pub start_time: Option<String>,
    pub end_time: Option<String>,
    pub created_at: Option<String>,
    pub updated_at: Option<String>,
}

/// A camping profile template as a persistence row.
#[derive(Debug)]
pub struct CampingProfileRow {
    pub id: i64,
    pub profile_name: String,
    pub description: Option<String>,
    pub camping_data: String,
}

/// An event category as a persistence row.
#[derive(Debug)]
pub struct EventTypeRow {
    pub id: i64,
    pub name: String,
    pub description: String,
    pub map_indicator: String,
    pub category: String,
}

} // verus!
