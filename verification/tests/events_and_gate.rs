use nomad_events::auth::Claims;
use nomad_events::engine::UserCollectionLogic;
use nomad_events::errors::AppError;
use nomad_events::event_logic::EventLogic;
use nomad_events::events::EventContext;
use nomad_events::microevent_logic::MicroeventLogic;
use nomad_events::microevents::Microevent;
use nomad_events::microevents::MicroeventContext;
use nomad_events::models::Amenities;
use nomad_events::models::EventDate;
use nomad_events::models::EventType;
use nomad_events::models::Location;
use nomad_events::models::NomEvent;
use nomad_events::store::UserCollectionContext;

fn sample_event(name: &str, user: &str, lat: i64, lon: i64) -> NomEvent {
    NomEvent {
        name: name.to_string(),
        description: "a festival".to_string(),
        user_id: Some(user.to_string()),
        event_type_id: 1,
        event_type: EventType {
            id: None,
            name: "festival".to_string(),
            description: "music festival".to_string(),
            map_indicator: "pin".to_string(),
            category: "music".to_string(),
        },
        website: None,
        date_info: EventDate {
            start_date: Some(100),
            end_date: Some(101),
            single_day: false,
            early_arrival_available: false,
            early_arrival_date: None,
            late_departure_available: false,
        },
        location_info: Location {
            address: "somewhere".to_string(),
            longitude: lon,
            latitude: lat,
            venue_name: None,
            parking_info: None,
        },
        amenities: Amenities {
            bathrooms: true,
            showers: false,
            potable_water: true,
            wifi: false,
            cell_service_quality: None,
            firewood_available: false,
            ice_available: false,
            trash_service: false,
            recycling: false,
            laundry: false,
        },
        camping_info: None,
    }
}

fn claims_for(sub: &str, role: &str) -> Claims {
    Claims {
        sub: sub.to_string(),
        email: "user@example.com".to_string(),
        username: "someone".to_string(),
        role: role.to_string(),
        exp: 2000000000,
        iat: 1000000000,
    }
}

fn fresh_collections() -> UserCollectionLogic {
    UserCollectionLogic::new(UserCollectionContext::new())
}

#[test]
fn create_event_grants_ownership_to_creator() {
    let mut logic = EventLogic::new(EventContext::new());
    let mut collections = fresh_collections();
    let id = logic.create_event(sample_event("Fest", "alice", 0, 0), &mut collections).unwrap();
    let rec = collections.get(&"alice".to_string()).unwrap();
    assert_eq!(rec.created_events, vec![id]);
}

#[test]
fn create_event_without_user_is_rejected() {
    let mut logic = EventLogic::new(EventContext::new());
    let mut collections = fresh_collections();
    let mut event = sample_event("Fest", "alice", 0, 0);
    event.user_id = None;
    let result = logic.create_event(event, &mut collections);
    assert!(matches!(result, Err(AppError::ValidationError(_))));
}

#[test]
fn validation_rejects_empty_name() {
    let logic = EventLogic::new(EventContext::new());
    let mut event = sample_event("", "alice", 0, 0);
    event.name = "".to_string();
    assert!(matches!(logic.validate_event(&event), Err(AppError::ValidationError(_))));
}

#[test]
fn validation_rejects_whitespace_only_name() {
    let logic = EventLogic::new(EventContext::new());
    let mut event = sample_event("Fest", "alice", 0, 0);
    event.name = " ".to_string();
    assert!(matches!(logic.validate_event(&event), Err(AppError::ValidationError(_))));
    event.name = " \t\n ".to_string();
    assert!(matches!(logic.validate_event(&event), Err(AppError::ValidationError(_))));
    event.name = " A B ".to_string();
    assert!(logic.validate_event(&event).is_ok());
}

#[test]
fn validation_rejects_whitespace_only_description() {
    let logic = EventLogic::new(EventContext::new());
    let mut event = sample_event("Fest", "alice", 0, 0);
    event.description = "   ".to_string();
    assert!(matches!(logic.validate_event(&event), Err(AppError::ValidationError(_))));
}

#[test]
fn microevent_validation_rejects_whitespace_only_name() {
    let mut logic = MicroeventLogic::new(MicroeventContext::new());
    let mut collections = fresh_collections();
    let result = logic.create(sample_micro(" ", "alice", 1, None), 777, &mut collections);
    assert!(matches!(result, Err(AppError::ValidationError(_))));
    let rec = collections.get(&"alice".to_string()).unwrap();
    assert!(rec.created_microevents.is_empty());
}

#[test]
fn nearby_accepts_any_query_point() {
    let mut store = EventContext::new();
    store.create(&sample_event("Fest", "alice", 0, 0)).unwrap();
    let far = store.find_nearby(i64::MAX, i64::MAX, 10_000, 1_000_000).unwrap();
    assert!(far.is_empty());
    let deep = store.find_nearby(i64::MIN, i64::MIN, 500_000, 1).unwrap();
    assert!(deep.is_empty());
    let logic = EventLogic::new(EventContext::new());
    assert!(logic.get_nearby_events(i64::MIN, i64::MAX, 1, 1).is_ok());
}

#[test]
fn validation_rejects_empty_description() {
    let logic = EventLogic::new(EventContext::new());
    let mut event = sample_event("Fest", "alice", 0, 0);
    event.description = "".to_string();
    assert!(matches!(logic.validate_event(&event), Err(AppError::ValidationError(_))));
}

#[test]
fn validation_rejects_out_of_range_coordinates() {
    let logic = EventLogic::new(EventContext::new());
    let too_north = sample_event("Fest", "alice", 90_000_001, 0);
    assert!(matches!(logic.validate_event(&too_north), Err(AppError::ValidationError(_))));
    let too_west = sample_event("Fest", "alice", 0, -180_000_001);
    assert!(matches!(logic.validate_event(&too_west), Err(AppError::ValidationError(_))));
}

#[test]
fn validation_rejects_end_before_start() {
    let logic = EventLogic::new(EventContext::new());
    let mut event = sample_event("Fest", "alice", 0, 0);
    event.date_info.start_date = Some(200);
    event.date_info.end_date = Some(199);
    assert!(matches!(logic.validate_event(&event), Err(AppError::ValidationError(_))));
}

#[test]
fn validation_accepts_open_ended_dates() {
    let logic = EventLogic::new(EventContext::new());
    let mut event = sample_event("Fest", "alice", 0, 0);
    event.date_info.end_date = None;
    assert!(logic.validate_event(&event).is_ok());
}

#[test]
fn get_event_by_id_round_trips_the_document() {
    let mut logic = EventLogic::new(EventContext::new());
    let mut collections = fresh_collections();
    let id = logic.create_event(sample_event("Fest", "alice", 123, 456), &mut collections).unwrap();
    let response = logic.get_event_by_id(id).unwrap();
    assert_eq!(response.name, "Fest".to_string());
    assert_eq!(response.location_info.latitude, 123);
    assert_eq!(response.location_info.longitude, 456);
    assert_eq!(response.event_type.id, Some(1));
    assert_eq!(response.event_type.name, "festival".to_string());
}

#[test]
fn get_event_by_id_reports_not_found() {
    let logic = EventLogic::new(EventContext::new());
    assert!(matches!(logic.get_event_by_id(12345), Err(AppError::NotFound(_))));
}

#[test]
fn owner_can_update_their_event() {
    let mut logic = EventLogic::new(EventContext::new());
    let mut collections = fresh_collections();
    let id = logic.create_event(sample_event("Fest", "alice", 0, 0), &mut collections).unwrap();
    let renamed = sample_event("Renamed", "alice", 0, 0);
    let result = logic.update_event(id, renamed, claims_for("alice", "user"), &mut collections);
    assert!(result.is_ok());
    assert_eq!(logic.get_event_by_id(id).unwrap().name, "Renamed".to_string());
}

#[test]
fn non_owner_update_is_forbidden() {
    let mut logic = EventLogic::new(EventContext::new());
    let mut collections = fresh_collections();
    let id = logic.create_event(sample_event("Fest", "alice", 0, 0), &mut collections).unwrap();
    let hijack = sample_event("Hijacked", "mallory", 0, 0);
    let result = logic.update_event(id, hijack, claims_for("mallory", "user"), &mut collections);
    assert!(matches!(result, Err(AppError::Forbidden(_))));
    assert_eq!(logic.get_event_by_id(id).unwrap().name, "Fest".to_string());
}

#[test]
fn admin_update_bypasses_ownership() {
    let mut logic = EventLogic::new(EventContext::new());
    let mut collections = fresh_collections();
    let id = logic.create_event(sample_event("Fest", "alice", 0, 0), &mut collections).unwrap();
    let moderated = sample_event("Moderated", "alice", 0, 0);
    let result = logic.update_event(id, moderated, claims_for("root", "admin"), &mut collections);
    assert!(result.is_ok());
    assert_eq!(logic.get_event_by_id(id).unwrap().name, "Moderated".to_string());
}

#[test]
fn super_admin_delete_bypasses_ownership() {
    let mut logic = EventLogic::new(EventContext::new());
    let mut collections = fresh_collections();
    let id = logic.create_event(sample_event("Fest", "alice", 0, 0), &mut collections).unwrap();
    let result = logic.delete_event(id, claims_for("root", "super_admin"), &mut collections);
    assert!(result.is_ok());
    assert!(matches!(logic.get_event_by_id(id), Err(AppError::NotFound(_))));
}

#[test]
fn non_owner_delete_is_forbidden() {
    let mut logic = EventLogic::new(EventContext::new());
    let mut collections = fresh_collections();
    let id = logic.create_event(sample_event("Fest", "alice", 0, 0), &mut collections).unwrap();
    let result = logic.delete_event(id, claims_for("mallory", "user"), &mut collections);
    assert!(matches!(result, Err(AppError::Forbidden(_))));
    assert!(logic.get_event_by_id(id).is_ok());
}

#[test]
fn owner_delete_revokes_ownership() {
    let mut logic = EventLogic::new(EventContext::new());
    let mut collections = fresh_collections();
    let id = logic.create_event(sample_event("Fest", "alice", 0, 0), &mut collections).unwrap();
    logic.delete_event(id, claims_for("alice", "user"), &mut collections).unwrap();
    let rec = collections.get(&"alice".to_string()).unwrap();
    assert!(rec.created_events.is_empty());
}

#[test]
fn delete_create_delete_leaves_ownership_empty() {
    let mut logic = EventLogic::new(EventContext::new());
    let mut collections = fresh_collections();
    let user = claims_for("alice", "user");
    let first = logic.create_event(sample_event("Fest", "alice", 0, 0), &mut collections).unwrap();
    logic.delete_event(first, user.clone(), &mut collections).unwrap();
    let second = logic.create_event(sample_event("Fest", "alice", 0, 0), &mut collections).unwrap();
    logic.delete_event(second, user, &mut collections).unwrap();
    let rec = collections.get(&"alice".to_string()).unwrap();
    assert!(rec.created_events.is_empty());
}

#[test]
fn admin_delete_leaves_creators_stale_ownership_entry() {
    // The revocation runs against the caller's own record, so an admin
    // deleting someone else's event leaves the creator's created list
    // with a dangling id — the two-store consistency gap, observable.
    let mut logic = EventLogic::new(EventContext::new());
    let mut collections = fresh_collections();
    let id = logic.create_event(sample_event("Fest", "alice", 0, 0), &mut collections).unwrap();
    logic.delete_event(id, claims_for("root", "admin"), &mut collections).unwrap();
    let rec = collections.get(&"alice".to_string()).unwrap();
    assert_eq!(rec.created_events, vec![id]);
}

#[test]
fn delete_of_unknown_event_is_not_found() {
    let mut logic = EventLogic::new(EventContext::new());
    let mut collections = fresh_collections();
    let result = logic.delete_event(999, claims_for("root", "admin"), &mut collections);
    assert!(matches!(result, Err(AppError::NotFound(_))));
}

#[test]
fn update_of_unknown_event_is_not_found() {
    let mut logic = EventLogic::new(EventContext::new());
    let mut collections = fresh_collections();
    let event = sample_event("Fest", "alice", 0, 0);
    let result = logic.update_event(999, event, claims_for("root", "admin"), &mut collections);
    assert!(matches!(result, Err(AppError::NotFound(_))));
}

#[test]
fn nearby_radius_validation() {
    let logic = EventLogic::new(EventContext::new());
    assert!(matches!(
        logic.get_nearby_events(0, 0, 0, 1_000_000),
        Err(AppError::ValidationError(_))
    ));
    assert!(matches!(
        logic.get_nearby_events(0, 0, 500_001, 1_000_000),
        Err(AppError::ValidationError(_))
    ));
    assert!(logic.get_nearby_events(0, 0, 500_000, 1_000_000).is_ok());
}

#[test]
fn nearby_box_includes_diagonal_point_beyond_true_distance() {
    let mut store = EventContext::new();
    // A point at (0.1, 0.1) degrees: inside the 10-mile box at the
    // equator, although its true distance exceeds 10 miles.
    store.create(&sample_event("Corner", "alice", 100_000, 100_000)).unwrap();
    let found = store.find_nearby(0, 0, 10_000, 1_000_000).unwrap();
    assert_eq!(found.len(), 1);
    assert_eq!(found[0].name, "Corner".to_string());
}

#[test]
fn nearby_excludes_points_outside_the_box() {
    let mut store = EventContext::new();
    // 0.2 degrees of latitude is about 13.8 miles: outside a 10-mile box.
    store.create(&sample_event("Far", "alice", 200_000, 0)).unwrap();
    let found = store.find_nearby(0, 0, 10_000, 1_000_000).unwrap();
    assert!(found.is_empty());
}

#[test]
fn nearby_results_are_ordered_by_name() {
    let mut store = EventContext::new();
    store.create(&sample_event("Charlie", "alice", 1_000, 1_000)).unwrap();
    store.create(&sample_event("Alpha", "alice", 2_000, 2_000)).unwrap();
    store.create(&sample_event("Bravo", "alice", 3_000, 3_000)).unwrap();
    let found = store.find_nearby(0, 0, 10_000, 1_000_000).unwrap();
    let names: Vec<String> = found.iter().map(|r| r.name.clone()).collect();
    assert_eq!(
        names,
        vec!["Alpha".to_string(), "Bravo".to_string(), "Charlie".to_string()]
    );
}

#[test]
fn events_without_coordinates_are_never_nearby() {
    let mut store = EventContext::new();
    let id = store.create(&sample_event("Fest", "alice", 0, 0)).unwrap();
    store.delete(id).unwrap();
    let found = store.find_nearby(0, 0, 10_000, 1_000_000).unwrap();
    assert!(found.is_empty());
}

#[test]
fn id_list_lookup_drops_missing_ids() {
    let mut store = EventContext::new();
    let a = store.create(&sample_event("A", "alice", 0, 0)).unwrap();
    let b = store.create(&sample_event("B", "alice", 0, 0)).unwrap();
    let rows = store.get_by_id_list(vec![a, 424242, b]).unwrap();
    assert_eq!(rows.len(), 2);
    assert_eq!(rows[0].id, a);
    assert_eq!(rows[1].id, b);
}

#[test]
fn find_by_type_filters_by_category_id() {
    let mut store = EventContext::new();
    let mut concert = sample_event("Concert", "alice", 0, 0);
    concert.event_type_id = 2;
    store.create(&sample_event("Faire", "alice", 0, 0)).unwrap();
    let concert_id = store.create(&concert).unwrap();
    let rows = store.find_by_type(2).unwrap();
    assert_eq!(rows.len(), 1);
    assert_eq!(rows[0].id, concert_id);
}

#[test]
fn restored_events_keep_their_ids() {
    let mut store = EventContext::new();
    store.restore(&sample_event("Fest", "alice", 7, 8), 33).unwrap();
    let row = store.find_by_id(33).unwrap();
    assert_eq!(row.name, "Fest".to_string());
    assert_eq!(row.latitude, Some(7));
    assert!(store.restore(&sample_event("Other", "bob", 0, 0), 33).is_err());
    let fresh = store.create(&sample_event("Later", "alice", 0, 0)).unwrap();
    assert!(fresh > 33);
}

#[test]
fn stored_columns_match_the_document() {
    let mut store = EventContext::new();
    let id = store.create(&sample_event("Fest", "alice", 77, 88)).unwrap();
    let row = store.find_by_id(id).unwrap();
    assert_eq!(row.name, row.event_data.name);
    assert_eq!(row.latitude, Some(row.event_data.location_info.latitude));
    assert_eq!(row.longitude, Some(row.event_data.location_info.longitude));
    assert_eq!(row.start_date, row.event_data.date_info.start_date);
    assert_eq!(row.camping_allowed, false);
}

#[test]
fn hydration_drops_stale_favorites() {
    let mut events = EventContext::new();
    let mut collections = fresh_collections();
    let id = events.create(&sample_event("Fest", "alice", 0, 0)).unwrap();
    let user = "alice".to_string();
    collections.event_favorite_toggle(id, &user).unwrap();
    collections.event_favorite_toggle(424242, &user).unwrap();
    let favorites = collections.get_favorite_events(&events, &user).unwrap();
    assert_eq!(favorites.len(), 1);
    assert_eq!(favorites[0].name, "Fest".to_string());
}

#[test]
fn hydration_of_created_microevents_lists_them_in_store_order() {
    let mut micros = MicroeventContext::new();
    let mut micro_logic_collections = fresh_collections();
    let mut logic = MicroeventLogic::new(MicroeventContext::new());
    let a = logic
        .create(sample_micro("One", "alice", 1, Some(2)), 10, &mut micro_logic_collections)
        .unwrap();
    let b = logic
        .create(sample_micro("Two", "alice", 1, Some(1)), 10, &mut micro_logic_collections)
        .unwrap();
    // The hydration query reads a bare store; rebuild one with the same rows.
    micros.create(&sample_micro("One", "alice", 1, Some(2)), 10).unwrap();
    micros.create(&sample_micro("Two", "alice", 1, Some(1)), 10).unwrap();
    let user = "alice".to_string();
    let listed = micro_logic_collections.get_created_microevents(&micros, &user).unwrap();
    let names: Vec<String> = listed.iter().map(|m| m.name.clone()).collect();
    assert_eq!(vec![a, b], vec![1, 2]);
    assert_eq!(names, vec!["One".to_string(), "Two".to_string()]);
}

fn sample_micro(name: &str, user: &str, event_id: i64, start: Option<i64>) -> Microevent {
    Microevent {
        id: 0,
        event_id,
        user_id: user.to_string(),
        name: name.to_string(),
        archive: false,
        description: None,
        start_time: start,
        end_time: None,
        created_at: None,
        updated_at: None,
    }
}

#[test]
fn microevent_create_stamps_timestamps_and_grants_ownership() {
    let mut logic = MicroeventLogic::new(MicroeventContext::new());
    let mut collections = fresh_collections();
    let id = logic
        .create(sample_micro("Opening", "alice", 1, Some(50)), 777, &mut collections)
        .unwrap();
    let stored = logic.get(id).unwrap();
    assert_eq!(stored.created_at, Some(777));
    assert_eq!(stored.updated_at, Some(777));
    let rec = collections.get(&"alice".to_string()).unwrap();
    assert_eq!(rec.created_microevents, vec![id]);
}

#[test]
fn microevent_validation_rejects_empty_name() {
    let mut logic = MicroeventLogic::new(MicroeventContext::new());
    let mut collections = fresh_collections();
    let result = logic.create(sample_micro("", "alice", 1, None), 777, &mut collections);
    assert!(matches!(result, Err(AppError::ValidationError(_))));
}

#[test]
fn microevent_listing_is_ordered_by_start_time() {
    let mut logic = MicroeventLogic::new(MicroeventContext::new());
    let mut collections = fresh_collections();
    logic.create(sample_micro("Late", "alice", 1, Some(300)), 1, &mut collections).unwrap();
    logic.create(sample_micro("Early", "alice", 1, Some(100)), 1, &mut collections).unwrap();
    logic.create(sample_micro("Anytime", "alice", 1, None), 1, &mut collections).unwrap();
    let listed = logic.get_by_event(1).unwrap();
    let names: Vec<String> = listed.iter().map(|m| m.name.clone()).collect();
    assert_eq!(
        names,
        vec!["Anytime".to_string(), "Early".to_string(), "Late".to_string()]
    );
}

#[test]
fn microevent_update_keeps_creation_time() {
    let mut logic = MicroeventLogic::new(MicroeventContext::new());
    let mut collections = fresh_collections();
    let id = logic
        .create(sample_micro("Opening", "alice", 1, Some(50)), 100, &mut collections)
        .unwrap();
    let renamed = sample_micro("Renamed", "alice", 1, Some(60));
    logic
        .update(id, renamed, claims_for("alice", "user"), 200, &mut collections)
        .unwrap();
    let stored = logic.get(id).unwrap();
    assert_eq!(stored.name, "Renamed".to_string());
    assert_eq!(stored.created_at, Some(100));
    assert_eq!(stored.updated_at, Some(200));
}

#[test]
fn microevent_gate_forbids_non_owner() {
    let mut logic = MicroeventLogic::new(MicroeventContext::new());
    let mut collections = fresh_collections();
    let id = logic
        .create(sample_micro("Opening", "alice", 1, None), 100, &mut collections)
        .unwrap();
    let result = logic.delete(id, claims_for("mallory", "user"), &mut collections);
    assert!(matches!(result, Err(AppError::Forbidden(_))));
    let result = logic.delete(id, claims_for("alice", "user"), &mut collections);
    assert!(result.is_ok());
}
