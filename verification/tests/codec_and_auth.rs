use nomad_events::apikey::validate_api_key;
use nomad_events::auth::Claims;
use nomad_events::auth::UserRole;
use nomad_events::auth::extract_token;
use nomad_events::auth::has_permission;
use nomad_events::auth::require_admin;
use nomad_events::auth::require_owner_or_admin;
use nomad_events::auth::require_role;
use nomad_events::auth::require_super_admin;
use nomad_events::codec::RawCollectionRow;
use nomad_events::codec::decode_row;
use nomad_events::codec::encode_decode_round_trip;
use nomad_events::codec::encode_row;
use nomad_events::collection::UserEventDataRow;
use nomad_events::errors::AppError;

fn claims_for(sub: &str, role: &str) -> Claims {
    Claims {
        sub: sub.to_string(),
        email: "user@example.com".to_string(),
        username: "someone".to_string(),
        role: role.to_string(),
        exp: 2000000000,
        iat: 1000000000,
    }
}

#[test]
fn role_strings_decode_to_roles() {
    assert_eq!(claims_for("a", "admin").get_role(), UserRole::Admin);
    assert_eq!(claims_for("a", "super_admin").get_role(), UserRole::SuperAdmin);
    assert_eq!(claims_for("a", "user").get_role(), UserRole::User);
    assert_eq!(claims_for("a", "gardener").get_role(), UserRole::User);
}

#[test]
fn permission_is_a_total_order_on_roles() {
    let user = UserRole::User;
    let admin = UserRole::Admin;
    let root = UserRole::SuperAdmin;
    assert!(has_permission(&root, &user));
    assert!(has_permission(&root, &admin));
    assert!(has_permission(&root, &root));
    assert!(has_permission(&admin, &user));
    assert!(has_permission(&admin, &admin));
    assert!(!has_permission(&admin, &root));
    assert!(has_permission(&user, &user));
    assert!(!has_permission(&user, &admin));
    assert!(!has_permission(&user, &root));
}

#[test]
fn management_rights_follow_rank() {
    assert!(!UserRole::User.can_manage_users());
    assert!(UserRole::Admin.can_manage_users());
    assert!(UserRole::SuperAdmin.can_manage_users());
    assert!(!UserRole::Admin.can_manage_admins());
    assert!(UserRole::SuperAdmin.can_manage_admins());
    assert!(UserRole::Admin.can_delete_any_content());
    assert!(!UserRole::User.can_delete_any_content());
}

#[test]
fn role_gates_accept_and_refuse() {
    assert!(require_admin(&claims_for("a", "admin")).is_ok());
    assert!(require_admin(&claims_for("a", "super_admin")).is_ok());
    assert!(matches!(
        require_admin(&claims_for("a", "user")),
        Err(AppError::Forbidden(_))
    ));
    assert!(require_super_admin(&claims_for("a", "super_admin")).is_ok());
    assert!(matches!(
        require_super_admin(&claims_for("a", "admin")),
        Err(AppError::Forbidden(_))
    ));
    assert!(require_role(&claims_for("a", "admin"), &UserRole::User).is_ok());
    assert!(matches!(
        require_role(&claims_for("a", "user"), &UserRole::SuperAdmin),
        Err(AppError::Forbidden(_))
    ));
}

#[test]
fn owner_or_admin_gate() {
    let owner = "alice".to_string();
    assert!(require_owner_or_admin(&owner, &claims_for("alice", "user")).is_ok());
    assert!(require_owner_or_admin(&owner, &claims_for("mallory", "admin")).is_ok());
    assert!(matches!(
        require_owner_or_admin(&owner, &claims_for("mallory", "user")),
        Err(AppError::Forbidden(_))
    ));
}

#[test]
fn bearer_tokens_are_extracted() {
    assert_eq!(extract_token("Bearer abc.def").unwrap(), "abc.def".to_string());
    assert_eq!(extract_token("Bearer ").unwrap(), "".to_string());
    assert!(matches!(extract_token("Basic abc"), Err(AppError::Unauthorized(_))));
    assert!(matches!(extract_token("abc"), Err(AppError::Unauthorized(_))));
    assert!(matches!(extract_token(""), Err(AppError::Unauthorized(_))));
}

#[test]
fn api_key_digest_is_checked_against_real_sha256() {
    // Well-known SHA-256 digests.
    let empty_digest =
        "e3b0c44298fc1c149afbf4c8996fb92427ae41e4649b934ca495991b7852b855".to_string();
    let hello_digest =
        "2cf24dba5fb0a30e26e83b2ac5b9e29e1b161e5c1fa7425e73043362938b9824".to_string();
    assert!(validate_api_key(&"".to_string(), &empty_digest));
    assert!(validate_api_key(&"hello".to_string(), &hello_digest));
    assert!(!validate_api_key(&"hello".to_string(), &empty_digest));
    assert!(!validate_api_key(&"other".to_string(), &hello_digest));
}

fn sample_record() -> UserEventDataRow {
    UserEventDataRow {
        id: 12,
        user_id: "alice".to_string(),
        favorite_events: vec![1, 2],
        favorite_microevents: vec![],
        saved_events: vec![3],
        saved_microevents: vec![4, 5, 6],
        created_events: vec![7],
        created_microevents: vec![],
    }
}

#[test]
fn encode_writes_json_arrays() {
    let raw = encode_row(&sample_record());
    assert_eq!(raw.id, 12);
    assert_eq!(raw.user_id, "alice".to_string());
    assert_eq!(raw.favorite_events, Some("[1,2]".to_string()));
    assert_eq!(raw.favorite_microevents, Some("[]".to_string()));
    assert_eq!(raw.saved_microevents, Some("[4,5,6]".to_string()));
    assert_eq!(raw.created_events, Some("[7]".to_string()));
}

#[test]
fn decode_reads_json_arrays_and_defaults_missing_columns() {
    let raw = RawCollectionRow {
        id: 9,
        user_id: "bob".to_string(),
        favorite_events: Some("[10, 20, 30]".to_string()),
        favorite_microevents: None,
        saved_events: Some("[]".to_string()),
        saved_microevents: None,
        created_events: Some("[40]".to_string()),
        created_microevents: None,
    };
    let rec = decode_row(&raw).unwrap();
    assert_eq!(rec.id, 9);
    assert_eq!(rec.user_id, "bob".to_string());
    assert_eq!(rec.favorite_events, vec![10, 20, 30]);
    assert!(rec.favorite_microevents.is_empty());
    assert!(rec.saved_events.is_empty());
    assert_eq!(rec.created_events, vec![40]);
}

#[test]
fn decode_rejects_text_that_is_no_integer_array() {
    let raw = RawCollectionRow {
        id: 9,
        user_id: "bob".to_string(),
        favorite_events: Some("not json".to_string()),
        favorite_microevents: None,
        saved_events: None,
        saved_microevents: None,
        created_events: None,
        created_microevents: None,
    };
    assert!(matches!(decode_row(&raw), Err(AppError::SerializationError(_))));
}

#[test]
fn persisted_record_round_trips() {
    let rec = sample_record();
    let back = encode_decode_round_trip(&rec);
    assert_eq!(back.id, rec.id);
    assert_eq!(back.user_id, rec.user_id);
    assert_eq!(back.favorite_events, rec.favorite_events);
    assert_eq!(back.saved_microevents, rec.saved_microevents);
    assert_eq!(back.created_events, rec.created_events);
}

#[test]
fn error_messages_are_kept() {
    let e = AppError::NotFound("nothing here".to_string());
    assert_eq!(e.message(), &"nothing here".to_string());
}
