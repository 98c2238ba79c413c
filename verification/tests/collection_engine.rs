use nomad_events::collection::UserEventDataRow;
use nomad_events::engine::UserCollection;
use nomad_events::engine::UserCollectionLogic;
use nomad_events::errors::AppError;
use nomad_events::store::UserCollectionContext;

fn fresh_engine() -> UserCollectionLogic {
    UserCollectionLogic::new(UserCollectionContext::new())
}

fn record_for(engine: &mut UserCollectionLogic, user: &str) -> UserEventDataRow {
    engine.get(&user.to_string()).expect("get-or-create must succeed")
}

#[test]
fn first_get_creates_empty_record() {
    let mut engine = fresh_engine();
    let rec = record_for(&mut engine, "alice");
    assert_eq!(rec.user_id, "alice".to_string());
    assert!(rec.favorite_events.is_empty());
    assert!(rec.favorite_microevents.is_empty());
    assert!(rec.saved_events.is_empty());
    assert!(rec.saved_microevents.is_empty());
    assert!(rec.created_events.is_empty());
    assert!(rec.created_microevents.is_empty());
}

#[test]
fn second_get_returns_same_record_unchanged() {
    let mut engine = fresh_engine();
    let first = record_for(&mut engine, "alice");
    let second = record_for(&mut engine, "alice");
    assert_eq!(first.id, second.id);
    assert_eq!(first.user_id, second.user_id);
    assert_eq!(first.favorite_events, second.favorite_events);
    assert_eq!(first.created_events, second.created_events);
}

#[test]
fn distinct_users_get_distinct_records() {
    let mut engine = fresh_engine();
    let a = record_for(&mut engine, "alice");
    let b = record_for(&mut engine, "bob");
    assert_ne!(a.id, b.id);
}

#[test]
fn toggle_adds_exactly_one_occurrence() {
    let mut engine = fresh_engine();
    let favorites = engine.event_favorite_toggle(5, &"alice".to_string()).unwrap();
    assert_eq!(favorites, vec![5]);
    let rec = record_for(&mut engine, "alice");
    assert_eq!(rec.favorite_events, vec![5]);
}

#[test]
fn toggle_twice_restores_original_state() {
    let mut engine = fresh_engine();
    let user = "alice".to_string();
    engine.event_favorite_toggle(3, &user).unwrap();
    engine.event_favorite_toggle(5, &user).unwrap();
    let after_second = engine.event_favorite_toggle(5, &user).unwrap();
    assert_eq!(after_second, vec![3]);
    let rec = record_for(&mut engine, "alice");
    assert_eq!(rec.favorite_events, vec![3]);
}

#[test]
fn toggles_touch_only_their_own_list() {
    let mut engine = fresh_engine();
    let user = "alice".to_string();
    engine.event_favorite_toggle(1, &user).unwrap();
    engine.microevent_favorite_toggle(2, &user).unwrap();
    engine.event_save_toggle(3, &user).unwrap();
    engine.microevent_save_toggle(4, &user).unwrap();
    let rec = record_for(&mut engine, "alice");
    assert_eq!(rec.favorite_events, vec![1]);
    assert_eq!(rec.favorite_microevents, vec![2]);
    assert_eq!(rec.saved_events, vec![3]);
    assert_eq!(rec.saved_microevents, vec![4]);
    assert!(rec.created_events.is_empty());
}

#[test]
fn concurrent_toggle_orders_converge_to_same_set() {
    let ids: Vec<i64> = vec![11, 22, 33, 44, 55];
    let mut forward = fresh_engine();
    for id in &ids {
        forward.event_favorite_toggle(*id, &"alice".to_string()).unwrap();
    }
    let mut backward = fresh_engine();
    for id in ids.iter().rev() {
        backward.event_favorite_toggle(*id, &"alice".to_string()).unwrap();
    }
    let mut a = record_for(&mut forward, "alice").favorite_events;
    let mut b = record_for(&mut backward, "alice").favorite_events;
    a.sort();
    b.sort();
    assert_eq!(a, ids);
    assert_eq!(b, ids);
}

#[test]
fn grant_once_appears_exactly_once() {
    let mut engine = fresh_engine();
    let created = engine.event_ownership(7, &"alice".to_string()).unwrap();
    assert_eq!(created, vec![7]);
    let rec = record_for(&mut engine, "alice");
    assert_eq!(rec.created_events.iter().filter(|x| **x == 7).count(), 1);
}

#[test]
fn revoke_after_grant_leaves_set_empty() {
    let mut engine = fresh_engine();
    let user = "alice".to_string();
    engine.event_ownership(7, &user).unwrap();
    let after = engine.remove_event_ownership(7, &user).unwrap();
    assert!(after.is_empty());
    let rec = record_for(&mut engine, "alice");
    assert!(rec.created_events.is_empty());
}

#[test]
fn revoke_of_absent_id_is_a_no_op() {
    let mut engine = fresh_engine();
    let user = "alice".to_string();
    engine.event_ownership(7, &user).unwrap();
    let after = engine.remove_event_ownership(99, &user).unwrap();
    assert_eq!(after, vec![7]);
}

#[test]
fn microevent_ownership_uses_its_own_list() {
    let mut engine = fresh_engine();
    let user = "alice".to_string();
    engine.microevent_ownership(9, &user).unwrap();
    let rec = record_for(&mut engine, "alice");
    assert_eq!(rec.created_microevents, vec![9]);
    assert!(rec.created_events.is_empty());
}

fn sync_request(id: i64, user: &str) -> UserCollection {
    UserCollection {
        id: Some(id),
        user_id: Some(user.to_string()),
        favorite_events: Some(vec![10, 20]),
        favorite_microevents: None,
        saved_events: Some(vec![30]),
        saved_microevents: None,
        created_events: None,
        created_microevents: None,
    }
}

#[test]
fn sync_replaces_favorites_and_saves() {
    let mut engine = fresh_engine();
    let rec = record_for(&mut engine, "alice");
    let stored = engine.update_without_ownership(sync_request(rec.id, "alice")).unwrap();
    assert_eq!(stored.favorite_events, vec![10, 20]);
    assert_eq!(stored.saved_events, vec![30]);
    assert!(stored.favorite_microevents.is_empty());
    let fetched = record_for(&mut engine, "alice");
    assert_eq!(fetched.favorite_events, vec![10, 20]);
    assert_eq!(fetched.saved_events, vec![30]);
}

#[test]
fn sync_cannot_forge_ownership() {
    let mut engine = fresh_engine();
    let user = "alice".to_string();
    engine.event_ownership(7, &user).unwrap();
    let rec = record_for(&mut engine, "alice");
    let mut request = sync_request(rec.id, "alice");
    request.created_events = Some(vec![666]);
    request.created_microevents = Some(vec![777]);
    let stored = engine.update_without_ownership(request).unwrap();
    assert_eq!(stored.created_events, vec![7]);
    assert!(stored.created_microevents.is_empty());
    let fetched = record_for(&mut engine, "alice");
    assert_eq!(fetched.created_events, vec![7]);
    assert!(fetched.created_microevents.is_empty());
}

#[test]
fn sync_with_mismatched_user_is_rejected_without_mutation() {
    let mut engine = fresh_engine();
    let user = "alice".to_string();
    engine.event_favorite_toggle(1, &user).unwrap();
    let rec = record_for(&mut engine, "alice");
    let request = sync_request(rec.id, "mallory");
    let result = engine.update_without_ownership(request);
    assert!(matches!(result, Err(AppError::ValidationError(_))));
    let fetched = record_for(&mut engine, "alice");
    assert_eq!(fetched.favorite_events, vec![1]);
    assert!(fetched.saved_events.is_empty());
}

#[test]
fn sync_without_id_is_rejected() {
    let mut engine = fresh_engine();
    let mut request = sync_request(1, "alice");
    request.id = None;
    let result = engine.update_without_ownership(request);
    assert!(matches!(result, Err(AppError::ValidationError(_))));
}

#[test]
fn sync_for_unknown_record_is_not_found() {
    let mut engine = fresh_engine();
    let result = engine.update_without_ownership(sync_request(424242, "alice"));
    assert!(matches!(result, Err(AppError::NotFound(_))));
}

#[test]
fn sync_without_user_id_is_rejected() {
    let mut engine = fresh_engine();
    let rec = record_for(&mut engine, "alice");
    let mut request = sync_request(rec.id, "alice");
    request.user_id = None;
    let result = engine.update_without_ownership(request);
    assert!(matches!(result, Err(AppError::ValidationError(_))));
}

fn stored_record(id: i64, user: &str) -> UserEventDataRow {
    UserEventDataRow {
        id,
        user_id: user.to_string(),
        favorite_events: vec![1, 2],
        favorite_microevents: vec![],
        saved_events: vec![3],
        saved_microevents: vec![],
        created_events: vec![4],
        created_microevents: vec![],
    }
}

#[test]
fn restore_keeps_the_stored_record_id() {
    let mut engine = fresh_engine();
    engine.restore(stored_record(17, "alice")).unwrap();
    let rec = record_for(&mut engine, "alice");
    assert_eq!(rec.id, 17);
    assert_eq!(rec.favorite_events, vec![1, 2]);
    assert_eq!(rec.created_events, vec![4]);
}

#[test]
fn restore_refuses_duplicates_and_bad_ids() {
    let mut engine = fresh_engine();
    engine.restore(stored_record(17, "alice")).unwrap();
    let dup_user = engine.restore(stored_record(18, "alice"));
    assert!(matches!(dup_user, Err(AppError::Conflict(_))));
    let dup_id = engine.restore(stored_record(17, "bob"));
    assert!(matches!(dup_id, Err(AppError::Conflict(_))));
    let bad_id = engine.restore(stored_record(0, "carol"));
    assert!(matches!(bad_id, Err(AppError::ValidationError(_))));
}

#[test]
fn fresh_ids_stay_above_restored_ones() {
    let mut engine = fresh_engine();
    engine.restore(stored_record(17, "alice")).unwrap();
    let rec = record_for(&mut engine, "bob");
    assert!(rec.id > 17);
}

#[test]
fn trusted_full_update_stores_created_lists_from_client() {
    let mut engine = fresh_engine();
    let rec = record_for(&mut engine, "alice");
    let mut request = sync_request(rec.id, "alice");
    request.created_events = Some(vec![666]);
    let stored = engine.update(request).unwrap();
    assert_eq!(stored.created_events, vec![666]);
    let fetched = record_for(&mut engine, "alice");
    assert_eq!(fetched.created_events, vec![666]);
}
