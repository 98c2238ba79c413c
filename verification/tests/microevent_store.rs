use nomad_events::microevents::Microevent;
use nomad_events::microevents::MicroeventContext;

fn micro(name: &str, user: &str, event_id: i64, start: Option<i64>) -> Microevent {
    Microevent {
        id: 0,
        event_id,
        user_id: user.to_string(),
        name: name.to_string(),
        archive: false,
        description: Some("something".to_string()),
        start_time: start,
        end_time: None,
        created_at: None,
        updated_at: None,
    }
}

#[test]
fn archive_hides_from_active_listing_without_deleting() {
    let mut store = MicroeventContext::new();
    let a = store.create(&micro("One", "alice", 1, Some(1)), 10).unwrap();
    let b = store.create(&micro("Two", "alice", 1, Some(2)), 10).unwrap();
    assert!(store.archive(a, 20).unwrap());
    let active = store.find_active().unwrap();
    assert_eq!(active.len(), 1);
    assert_eq!(active[0].id, b);
    let archived = store.find_by_id(a).unwrap();
    assert!(archived.archive);
    assert_eq!(archived.updated_at, Some(20));
    assert!(store.unarchive(a, 30).unwrap());
    assert_eq!(store.find_active().unwrap().len(), 2);
}

#[test]
fn archive_of_unknown_row_reports_no_effect() {
    let mut store = MicroeventContext::new();
    assert!(!store.archive(77, 20).unwrap());
}

#[test]
fn rows_of_one_user_come_sorted_by_start_time() {
    let mut store = MicroeventContext::new();
    store.create(&micro("Bobs", "bob", 1, Some(1)), 10).unwrap();
    store.create(&micro("Late", "alice", 1, Some(9)), 10).unwrap();
    store.create(&micro("Early", "alice", 2, Some(3)), 10).unwrap();
    let owned = store.find_by_user(&"alice".to_string()).unwrap();
    let names: Vec<String> = owned.iter().map(|m| m.name.clone()).collect();
    assert_eq!(names, vec!["Early".to_string(), "Late".to_string()]);
}

#[test]
fn microevent_id_list_lookup_drops_missing_ids() {
    let mut store = MicroeventContext::new();
    let a = store.create(&micro("One", "alice", 1, None), 10).unwrap();
    let rows = store.get_by_id_list(vec![a, 424242]).unwrap();
    assert_eq!(rows.len(), 1);
    assert_eq!(rows[0].id, a);
}

#[test]
fn restored_microevents_keep_their_ids_and_timestamps() {
    let mut store = MicroeventContext::new();
    let mut stored = micro("One", "alice", 1, Some(5));
    stored.id = 40;
    stored.created_at = Some(123);
    stored.updated_at = Some(456);
    store.restore(&stored).unwrap();
    let back = store.find_by_id(40).unwrap();
    assert_eq!(back.name, "One".to_string());
    assert_eq!(back.created_at, Some(123));
    assert_eq!(back.updated_at, Some(456));
    // A taken id is refused; fresh ids stay above the restored one.
    assert!(store.restore(&stored).is_err());
    let fresh = store.create(&micro("Two", "alice", 1, None), 10).unwrap();
    assert!(fresh > 40);
}

#[test]
fn deleting_frees_the_row_but_never_reuses_its_id() {
    let mut store = MicroeventContext::new();
    let a = store.create(&micro("One", "alice", 1, None), 10).unwrap();
    assert!(store.delete(a).unwrap());
    assert!(!store.delete(a).unwrap());
    let b = store.create(&micro("Two", "alice", 1, None), 10).unwrap();
    assert_ne!(a, b);
}
