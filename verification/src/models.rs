//! The event document model: the full nested description of an event —
//! schedule, location, amenities and camping configuration.
//!
//! Coordinates are fixed-point micro-degrees (degrees times one million)
//! and dates are day numbers, so that every field is a plain value the
//! contracts can speak about exactly.

use vstd::prelude::*;

verus! {

/// The category of an event: a fair, a festival, a show.
#[derive(Debug)]
pub struct EventType {
    pub id: Option<i64>,
    pub name: String,
    pub description: String,
    pub map_indicator: String,
    pub category: String,
}

impl Clone for EventType {
    fn clone(&self) -> (r: Self)
        ensures
            r == *self,
    {
        EventType {
            id: self.id,
            name: self.name.clone(),
            description: self.description.clone(),
            map_indicator: self.map_indicator.clone(),
            category: self.category.clone(),
        }
    }
}

/// When an event runs, as day numbers, with arrival and departure slack.
#[derive(Debug)]
pub struct EventDate {
    pub start_date: Option<i64>,
    pub end_date: Option<i64>,
    pub single_day: bool,
    pub early_arrival_available: bool,
    pub early_arrival_date: Option<String>,
    pub late_departure_available: bool,
}

impl Clone for EventDate {
    fn clone(&self) -> (r: Self)
        ensures
            r == *self,
    {
        EventDate {
            start_date: self.start_date,
            end_date: self.end_date,
            single_day: self.single_day,
            early_arrival_available: self.early_arrival_available,
            early_arrival_date: match &self.early_arrival_date {
                Some(s) => Some(s.clone()),
                None => None,
            },
            late_departure_available: self.late_departure_available,
        }
    }
}

/// Where an event is, with coordinates in micro-degrees.
#[derive(Debug)]
pub struct Location {
    pub address: String,
    pub longitude: i64,
    pub latitude: i64,
    pub venue_name: Option<String>,
    pub parking_info: Option<String>,
}

impl Clone for Location {
    fn clone(&self) -> (r: Self)
        ensures
            r == *self,
    {
        Location {
            address: self.address.clone(),
            longitude: self.longitude,
            latitude: self.latitude,
            venue_name: match &self.venue_name {
                Some(s) => Some(s.clone()),
                None => None,
            },
            parking_info: match &self.parking_info {
                Some(s) => Some(s.clone()),
                None => None,
            },
        }
    }
}

/// On-site services an event offers.
#[derive(Debug)]
pub struct Amenities {
    pub bathrooms: bool,
    pub showers: bool,
    pub potable_water: bool,
    pub wifi: bool,
    pub cell_service_quality: Option<String>,
    pub firewood_available: bool,
    pub ice_available: bool,
    pub trash_service: bool,
    pub recycling: bool,
    pub laundry: bool,
}

impl Clone for Amenities {
    fn clone(&self) -> (r: Self)
        ensures
            r == *self,
    {
        Amenities {
            bathrooms: self.bathrooms,
            showers: self.showers,
            potable_water: self.potable_water,
            wifi: self.wifi,
            cell_service_quality: match &self.cell_service_quality {
                Some(s) => Some(s.clone()),
                None => None,
            },
            firewood_available: self.firewood_available,
            ice_available: self.ice_available,
            trash_service: self.trash_service,
            recycling: self.recycling,
            laundry: self.laundry,
        }
    }
}

/// Utility hookups a campsite offers.
#[derive(Debug)]
pub struct Hookups {
    pub electric: bool,
    pub water: bool,
    pub sewer: bool,
    pub amp_service: Option<String>,
}

impl Clone for Hookups {
    fn clone(&self) -> (r: Self)
        ensures
            r == *self,
    {
        Hookups {
            electric: self.electric,
            water: self.water,
            sewer: self.sewer,
            amp_service: match &self.amp_service {
                Some(s) => Some(s.clone()),
                None => None,
            },
        }
    }
}

/// What recreational vehicles an event's camping admits.
#[derive(Debug)]
pub struct RvCampingOptions {
    pub allowed: bool,
    pub class_a_allowed: bool,
    pub class_b_allowed: bool,
    pub class_c_allowed: bool,
    pub travel_trailers_allowed: bool,
    pub fifth_wheel_allowed: bool,
    pub max_length_feet: Option<u32>,
    pub max_width_feet: Option<u32>,
    pub hookups_available: Option<Hookups>,
    pub dump_station: bool,
}

impl Clone for RvCampingOptions {
    fn clone(&self) -> (r: Self)
        ensures
            r == *self,
    {
        RvCampingOptions {
            allowed: self.allowed,
            class_a_allowed: self.class_a_allowed,
            class_b_allowed: self.class_b_allowed,
            class_c_allowed: self.class_c_allowed,
            travel_trailers_allowed: self.travel_trailers_allowed,
            fifth_wheel_allowed: self.fifth_wheel_allowed,
            max_length_feet: self.max_length_feet,
            max_width_feet: self.max_width_feet,
            hookups_available: match &self.hookups_available {
                Some(h) => Some(h.clone()),
                None => None,
            },
            dump_station: self.dump_station,
        }
    }
}

/// What ordinary vehicles an event's camping admits.
#[derive(Debug, Clone, Copy, PartialEq, Eq, Structural)]
pub struct VehicleCampingOptions {
    pub van_camping: bool,
    pub car_camping: bool,
    pub truck_camping: bool,
    pub rooftop_tent_allowed: bool,
}

/// Quiet hours for generators; some events ban them outright.
#[derive(Debug)]
pub struct GeneratorQuietHours {
    pub all_day_restriction: bool,
    pub start_time: Option<String>,
    pub end_time: Option<String>,
    pub days_of_week: Option<String>,
}

impl Clone for GeneratorQuietHours {
    fn clone(&self) -> (r: Self)
        ensures
            r == *self,
    {
        GeneratorQuietHours {
            all_day_restriction: self.all_day_restriction,
            start_time: match &self.start_time {
                Some(s) => Some(s.clone()),
                None => None,
            },
            end_time: match &self.end_time {
                Some(s) => Some(s.clone()),
                None => None,
            },
            days_of_week: match &self.days_of_week {
                Some(s) => Some(s.clone()),
                None => None,
            },
        }
    }
}

/// Generator rules at a camping event.
#[derive(Debug)]
pub struct GeneratorOptions {
    pub generators_allowed: bool,
    pub quiet_hours: Option<GeneratorQuietHours>,
    pub max_decibel_limit: Option<u32>,
    pub inverter_generators_only: bool,
    pub propane_generators_allowed: bool,
    pub gasoline_generators_allowed: bool,
    pub diesel_generators_allowed: bool,
    pub designated_generator_areas: bool,
    pub distance_from_neighbors_feet: Option<u32>,
    pub fuel_storage_restrictions: Option<String>,
}

impl Clone for GeneratorOptions {
    fn clone(&self) -> (r: Self)
        ensures
            r == *self,
    {
        GeneratorOptions {
            generators_allowed: self.generators_allowed,
            quiet_hours: match &self.quiet_hours {
                Some(q) => Some(q.clone()),
                None => None,
            },
            max_decibel_limit: self.max_decibel_limit,
            inverter_generators_only: self.inverter_generators_only,
            propane_generators_allowed: self.propane_generators_allowed,
            gasoline_generators_allowed: self.gasoline_generators_allowed,
            diesel_generators_allowed: self.diesel_generators_allowed,
            designated_generator_areas: self.designated_generator_areas,
            distance_from_neighbors_feet: self.distance_from_neighbors_feet,
            fuel_storage_restrictions: match &self.fuel_storage_restrictions {
                Some(s) => Some(s.clone()),
                None => None,
            },
        }
    }
}

/// The camping configuration of an event.
#[derive(Debug)]
pub struct CampingInfo {
    pub camping_allowed: bool,
    pub walking_distance: bool,
    pub tent_camping: bool,
    pub rv_camping: RvCampingOptions,
    pub vehicle_camping: VehicleCampingOptions,
    pub campsite_reservations_required: bool,
    pub primitive_camping: bool,
    pub developed_campsites: bool,
    pub max_stay_nights: Option<u32>,
    pub pet_friendly: bool,
    pub quiet_hours: Option<String>,
    pub fires_allowed: bool,
    pub generator_options: Option<GeneratorOptions>,
}

impl Clone for CampingInfo {
    fn clone(&self) -> (r: Self)
        ensures
            r == *self,
    {
        CampingInfo {
            camping_allowed: self.camping_allowed,
            walking_distance: self.walking_distance,
            tent_camping: self.tent_camping,
            rv_camping: self.rv_camping.clone(),
            vehicle_camping: self.vehicle_camping,
            campsite_reservations_required: self.campsite_reservations_required,
            primitive_camping: self.primitive_camping,
            developed_campsites: self.developed_campsites,
            max_stay_nights: self.max_stay_nights,
            pet_friendly: self.pet_friendly,
            quiet_hours: match &self.quiet_hours {
                Some(s) => Some(s.clone()),
                None => None,
            },
            fires_allowed: self.fires_allowed,
            generator_options: match &self.generator_options {
                Some(g) => Some(g.clone()),
                None => None,
            },
        }
    }
}

/// The full event document: the base model every event is created from
/// and the snapshot the event store keeps beside its queryable columns.
#[derive(Debug)]
pub struct NomEvent {
    pub name: String,
    pub description: String,
    pub user_id: Option<String>,
    pub event_type_id: i64,
    pub event_type: EventType,
    pub website: Option<String>,
    pub date_info: EventDate,
    pub location_info: Location,
    pub amenities: Amenities,
    pub camping_info: Option<CampingInfo>,
}

impl Clone for NomEvent {
    fn clone(&self) -> (r: Self)
        ensures
            r == *self,
    {
        NomEvent {
            name: self.name.clone(),
            description: self.description.clone(),
            user_id: match &self.user_id {
                Some(s) => Some(s.clone()),
                None => None,
            },
            event_type_id: self.event_type_id,
            event_type: self.event_type.clone(),
            website: match &self.website {
                Some(s) => Some(s.clone()),
                None => None,
            },
            date_info: self.date_info.clone(),
            location_info: self.location_info.clone(),
            amenities: self.amenities.clone(),
            camping_info: match &self.camping_info {
                Some(c) => Some(c.clone()),
                None => None,
            },
        }
    }
}

/// Whether the document says camping is allowed; an absent camping
/// configuration means it is not.
pub open spec fn camping_flag(c: Option<CampingInfo>) -> bool {
    match c {
        Some(info) => info.camping_allowed,
        None => false,
    }
}

/// The Unicode white-space code points — the characters that trimming a
/// string removes from its ends.
pub open spec fn is_space(c: char) -> bool {
    let u = c as u32;
    ||| u == 0x20
    ||| (0x09 <= u && u <= 0x0D)
    ||| u == 0x85
    ||| u == 0xA0
    ||| u == 0x1680
    ||| (0x2000 <= u && u <= 0x200A)
    ||| u == 0x2028
    ||| u == 0x2029
    ||| u == 0x202F
    ||| u == 0x205F
    ||| u == 0x3000
}

/// Text that trims to nothing: every character is white space.  The
/// empty text is blank.
pub open spec fn is_blank(s: Seq<char>) -> bool {
    forall|i: int| 0 <= i < s.len() ==> is_space(#[trigger] s[i])
}

/// Whether `s` trims to nothing.
#[verifier::loop_isolation(false)]
pub fn is_blank_str(s: &String) -> (r: bool)
    ensures
        r == is_blank(s@),
{
    let text = s.as_str();
    let n = text.unicode_len();
    let mut i: usize = 0;
    while i < n
        invariant
            i <= n,
            n == s@.len(),
            text@ == s@,
            forall|j: int| 0 <= j < i ==> is_space(#[trigger] s@[j]),
        decreases n - i,
    {
        let c = text.get_char(i);
        let u = c as u32;
        let space = u == 0x20 || (0x09 <= u && u <= 0x0D) || u == 0x85 || u == 0xA0 || u == 0x1680
            || (0x2000 <= u && u <= 0x200A) || u == 0x2028 || u == 0x2029 || u == 0x202F
            || u == 0x205F || u == 0x3000;
        if !space {
            proof {
                assert(!is_space(s@[i as int]));
            }
            return false;
        }
        i = i + 1;
    }
    true
}

} // verus!
