use surjo_backend::auth::{complete_login, is_admin, issue_claims, login_at, SESSION_SECONDS};
use surjo_backend::{
    create_user, get_user, google_auth, list_users, login, set_superadmin, update_user, ApiError,
    CreateUserRequest, Database, GoogleAuthRequest, LoginRequest, StoreError, StoredUser,
    UpdateUserRequest, User, UserResponse,
};

fn test_db() -> Database {
    Database::new().with_hash_cost(4)
}

fn new_user(email: &str, password: &str) -> CreateUserRequest {
    CreateUserRequest {
        email: email.to_string(),
        password: password.to_string(),
        first_name: None,
        last_name: None,
    }
}

fn creds(email: &str, password: &str) -> LoginRequest {
    LoginRequest { email: email.to_string(), password: password.to_string() }
}

fn sample_user(active: bool) -> User {
    User {
        id: "u-1".to_string(),
        email: "s@x.com".to_string(),
        first_name: Some("S".to_string()),
        last_name: None,
        is_active: active,
        created_at: 5_000_000,
        updated_at: 7_000_000,
    }
}

#[test]
fn created_ids_are_fresh_and_stamps_equal() {
    let mut db = test_db();
    let a = create_user(&mut db, &new_user("one@x.com", "pw")).unwrap();
    let b = create_user(&mut db, &new_user("two@x.com", "pw")).unwrap();
    assert_eq!(a.id.len(), 36);
    assert_eq!(b.id.len(), 36);
    assert_ne!(a.id, b.id);
    assert_eq!(a.created_at, a.updated_at);
    assert_eq!(b.created_at, b.updated_at);
}

#[test]
fn stored_hash_is_bcrypt_not_plaintext() {
    let mut db = test_db();
    create_user(&mut db, &new_user("h@x.com", "secret-pw")).unwrap();
    let row = db.row(0);
    let hash = row.password_hash.clone().expect("a hash is stored");
    assert_eq!(hash.len(), 60);
    assert_ne!(hash, "secret-pw");
    assert!(hash.starts_with("$2b$04$"));
}

#[test]
fn login_with_correct_password_grants_claims() {
    let mut db = test_db();
    let created = create_user(&mut db, &new_user("a@x.com", "pw123")).unwrap();
    let grant = login(&db, &creds("a@x.com", "pw123")).expect("login succeeds");
    assert_eq!(grant.user.id, created.id);
    assert_eq!(grant.user.email, "a@x.com");
    assert_eq!(grant.claims.sub, created.id);
    assert_eq!(grant.claims.email, "a@x.com");
    assert!(!grant.claims.is_admin);
    assert_eq!(grant.claims.exp, grant.claims.iat + 604800);
}

#[test]
fn login_reflects_admin_grant() {
    let mut db = test_db();
    create_user(&mut db, &new_user("boss@x.com", "pw")).unwrap();
    assert_eq!(set_superadmin(&mut db, "boss@x.com"), Ok(true));
    let grant = login(&db, &creds("boss@x.com", "pw")).unwrap();
    assert!(grant.claims.is_admin);
}

#[test]
fn login_rejections_share_unauthorized_status() {
    let mut db = test_db();
    create_user(&mut db, &new_user("a@x.com", "pw123")).unwrap();
    let wrong = login(&db, &creds("a@x.com", "wrong")).err().unwrap();
    let unknown = login(&db, &creds("nobody@x.com", "pw123")).err().unwrap();
    assert_eq!(wrong, ApiError::InvalidCredentials);
    assert_eq!(unknown, ApiError::InvalidCredentials);
    assert_eq!(wrong.status(), 401);
    assert_eq!(wrong.message(), "Invalid credentials");
    let disabled = StoredUser { user: sample_user(false), password_hash: Some("x".to_string()) };
    let e = complete_login(&disabled, true, false, 0).err().unwrap();
    assert_eq!(e, ApiError::AccountDisabled);
    assert_eq!(e.status(), 401);
    assert_eq!(e.message(), "Account is disabled");
}

#[test]
fn login_without_hash_is_refused() {
    let row = StoredUser { user: sample_user(true), password_hash: None };
    assert_eq!(complete_login(&row, true, false, 0).err(), Some(ApiError::InvalidCredentials));
}

#[test]
fn complete_login_issues_seven_day_claims() {
    let row = StoredUser { user: sample_user(true), password_hash: Some("h".to_string()) };
    let grant = complete_login(&row, true, true, 1_700_000_000_123_456).unwrap();
    assert_eq!(grant.claims.iat, 1_700_000_000);
    assert_eq!(grant.claims.exp, 1_700_604_800);
    assert!(grant.claims.is_admin);
    assert_eq!(grant.claims.sub, "u-1");
    assert_eq!(grant.user.first_name.as_deref(), Some("S"));
    assert_eq!(grant.user.updated_at, 7_000_000);
}

#[test]
fn claims_before_epoch_count_from_epoch() {
    let c = issue_claims(&sample_user(true), false, -5);
    assert_eq!(c.iat, 0);
    assert_eq!(c.exp, SESSION_SECONDS);
}

#[test]
fn login_at_fixed_time() {
    let mut db = test_db();
    create_user(&mut db, &new_user("t@x.com", "pw")).unwrap();
    let grant = login_at(&db, &creds("t@x.com", "pw"), 2_000_000).unwrap();
    assert_eq!(grant.claims.iat, 2);
    assert_eq!(grant.claims.exp, 2 + 604800);
    assert_eq!(login_at(&db, &creds("t@x.com", "nope"), 2_000_000).err(), Some(ApiError::InvalidCredentials));
}

#[test]
fn update_unknown_id_is_not_found_and_changes_nothing() {
    let mut db = test_db();
    create_user(&mut db, &new_user("a@x.com", "pw")).unwrap();
    let before = list_users(&db);
    let upd = UpdateUserRequest { first_name: Some("Z".to_string()), last_name: None };
    let err = update_user(&mut db, "missing", &upd).err().unwrap();
    assert_eq!(err, ApiError::NotFound);
    let after = list_users(&db);
    assert_eq!(before.len(), after.len());
    assert_eq!(before[0].first_name, after[0].first_name);
    assert_eq!(before[0].updated_at, after[0].updated_at);
}

#[test]
fn update_keeps_omitted_fields() {
    let mut db = test_db();
    let mut req = new_user("keep@x.com", "pw");
    req.first_name = Some("First".to_string());
    req.last_name = Some("Last".to_string());
    let created = create_user(&mut db, &req).unwrap();
    let upd = UpdateUserRequest { first_name: None, last_name: Some("New".to_string()) };
    let body = update_user(&mut db, &created.id, &upd).unwrap();
    assert_eq!(body.first_name.as_deref(), Some("First"));
    assert_eq!(body.last_name.as_deref(), Some("New"));
}

#[test]
fn update_stamp_moves_forward_when_clock_lags() {
    let mut db = test_db();
    let u = db
        .insert_user("id-1".to_string(), "c@x.com".to_string(), "h".to_string(), None, None, 100)
        .unwrap();
    let r = db.update_user(&"id-1".to_string(), Some("N".to_string()), None, 50).unwrap().unwrap();
    assert_eq!(r.updated_at, 101);
    assert_eq!(r.created_at, u.created_at);
    let r2 = db.update_user(&"id-1".to_string(), None, None, 500).unwrap().unwrap();
    assert_eq!(r2.updated_at, 500);
    assert_eq!(r2.first_name.as_deref(), Some("N"));
}

#[test]
fn update_at_latest_time_is_internal_error() {
    let mut db = test_db();
    db.insert_user("id-1".to_string(), "c@x.com".to_string(), "h".to_string(), None, None, i64::MAX)
        .unwrap();
    assert_eq!(db.update_user(&"id-1".to_string(), None, None, 0).err(), Some(StoreError::Internal));
    assert_eq!(db.update_user(&"id-2".to_string(), None, None, 0).map(|o| o.is_none()), Ok(true));
}

#[test]
fn insert_refuses_taken_id_email_and_empty_id() {
    let mut db = test_db();
    db.insert_user("id-1".to_string(), "c@x.com".to_string(), "h".to_string(), None, None, 10).unwrap();
    let taken_id = db.insert_user("id-1".to_string(), "d@x.com".to_string(), "h".to_string(), None, None, 11);
    assert_eq!(taken_id.err(), Some(StoreError::Conflict));
    let taken_email = db.insert_user("id-2".to_string(), "c@x.com".to_string(), "h".to_string(), None, None, 11);
    assert_eq!(taken_email.err(), Some(StoreError::Conflict));
    let empty = db.insert_user(String::new(), "e@x.com".to_string(), "h".to_string(), None, None, 11);
    assert_eq!(empty.err(), Some(StoreError::Internal));
    assert_eq!(list_users(&db).len(), 1);
}

#[test]
fn listing_is_newest_first() {
    let mut db = test_db();
    for (i, e) in ["p@x.com", "q@x.com", "r@x.com"].iter().enumerate() {
        db.insert_user(format!("id-{}", i), e.to_string(), "h".to_string(), None, None, 10).unwrap();
    }
    let newest = db
        .insert_user("id-9".to_string(), "s@x.com".to_string(), "h".to_string(), None, None, 5)
        .unwrap();
    assert_eq!(newest.created_at, 10);
    let list = list_users(&db);
    let emails: Vec<&str> = list.iter().map(|u| u.email.as_str()).collect();
    assert_eq!(emails, vec!["s@x.com", "r@x.com", "q@x.com", "p@x.com"]);
    for w in list.windows(2) {
        assert!(w[0].created_at >= w[1].created_at);
    }
}

#[test]
fn created_user_is_listed_first() {
    let mut db = test_db();
    create_user(&mut db, &new_user("old@x.com", "pw")).unwrap();
    let fresh = create_user(&mut db, &new_user("new@x.com", "pw")).unwrap();
    assert_eq!(list_users(&db)[0].id, fresh.id);
}

#[test]
fn listing_empty_store() {
    assert!(list_users(&test_db()).is_empty());
}

#[test]
fn admin_grant_is_idempotent() {
    let mut db = test_db();
    let u = create_user(&mut db, &new_user("adm@x.com", "pw")).unwrap();
    assert!(!is_admin(&db, &u.id));
    assert_eq!(set_superadmin(&mut db, "adm@x.com"), Ok(true));
    assert_eq!(set_superadmin(&mut db, "adm@x.com"), Ok(false));
    assert!(is_admin(&db, &u.id));
    assert!(db.has_permission(&u.id, &"admin".to_string()));
    assert_eq!(set_superadmin(&mut db, "ghost@x.com"), Err(ApiError::NotFound));
}

#[test]
fn grant_permission_reports_addition() {
    let mut db = test_db();
    let id = "id-7".to_string();
    let perm = "editor".to_string();
    assert!(db.grant_permission(&id, &perm, 1));
    assert!(!db.grant_permission(&id, &perm, 2));
    assert!(db.has_permission(&id, &perm));
    assert!(!db.has_permission(&id, &"admin".to_string()));
}

#[test]
fn federated_login_not_implemented() {
    let db = test_db();
    let r = google_auth(&db, &GoogleAuthRequest { code: "abc".to_string() });
    let e = r.err().unwrap();
    assert_eq!(e, ApiError::NotImplemented);
    assert_eq!(e.status(), 501);
}

#[test]
fn error_statuses() {
    assert_eq!(ApiError::NotFound.status(), 404);
    assert_eq!(ApiError::Conflict.status(), 409);
    assert_eq!(ApiError::Internal.status(), 500);
}

#[test]
fn response_projection_copies_fields() {
    let r = UserResponse::from(sample_user(true));
    assert_eq!(r.id, "u-1");
    assert_eq!(r.email, "s@x.com");
    assert_eq!(r.created_at, 5_000_000);
    assert_eq!(r.updated_at, 7_000_000);
    assert_eq!(r.last_name, None);
}

#[test]
fn end_to_end_account_flow() {
    let mut db = test_db();
    let created = create_user(&mut db, &new_user("a@x.com", "pw123")).unwrap();
    let ok = login(&db, &creds("a@x.com", "pw123")).unwrap();
    assert_eq!(ok.claims.sub, created.id);
    let bad = login(&db, &creds("a@x.com", "wrong")).err().unwrap();
    assert_eq!(bad.status(), 401);
    let got = get_user(&db, &created.id).unwrap();
    assert_eq!(got.email, "a@x.com");
    let upd = UpdateUserRequest { first_name: Some("B".to_string()), last_name: None };
    let updated = update_user(&mut db, &created.id, &upd).unwrap();
    assert_eq!(updated.first_name.as_deref(), Some("B"));
    assert!(updated.updated_at > created.updated_at);
    assert_eq!(get_user(&db, "0b5e7a0c-unused-id").err().map(|e| e.status()), Some(404));
}

fn stored(id: &str, email: &str, created: i64, updated: i64) -> StoredUser {
    StoredUser {
        user: User {
            id: id.to_string(),
            email: email.to_string(),
            first_name: None,
            last_name: Some("L".to_string()),
            is_active: false,
            created_at: created,
            updated_at: updated,
        },
        password_hash: None,
    }
}

#[test]
fn restore_rebuilds_rows_in_creation_order() {
    let mut db = test_db();
    assert_eq!(db.restore_user(stored("a", "a@x.com", 10, 20)), Ok(()));
    assert_eq!(db.restore_user(stored("b", "b@x.com", 10, 10)), Ok(()));
    assert_eq!(db.user_count(), 2);
    let list = list_users(&db);
    assert_eq!(list[0].id, "b");
    assert_eq!(list[1].updated_at, 20);
    assert!(!list[1].is_active);
    let e = login(&db, &creds("a@x.com", "pw")).err().unwrap();
    assert_eq!(e, ApiError::AccountDisabled);
    assert_eq!(e.message(), "Account is disabled");
}

#[test]
fn restore_refuses_rows_that_break_the_store() {
    let mut db = test_db();
    db.restore_user(stored("a", "a@x.com", 10, 20)).unwrap();
    assert_eq!(db.restore_user(stored("a", "z@x.com", 30, 30)), Err(StoreError::Conflict));
    assert_eq!(db.restore_user(stored("z", "a@x.com", 30, 30)), Err(StoreError::Conflict));
    assert_eq!(db.restore_user(stored("", "e@x.com", 30, 30)), Err(StoreError::Internal));
    assert_eq!(db.restore_user(stored("c", "c@x.com", 40, 30)), Err(StoreError::Internal));
    assert_eq!(db.restore_user(stored("d", "d@x.com", 5, 30)), Err(StoreError::Internal));
    assert_eq!(db.user_count(), 1);
}

#[test]
fn grants_are_readable_in_order() {
    let mut db = test_db();
    create_user(&mut db, &new_user("g@x.com", "pw")).unwrap();
    assert_eq!(db.grant_count(), 0);
    set_superadmin(&mut db, "g@x.com").unwrap();
    set_superadmin(&mut db, "g@x.com").unwrap();
    assert_eq!(db.grant_count(), 1);
    let g = db.grant(0);
    assert_eq!(g.permission, "admin");
    assert_eq!(g.user_id, db.row(0).user.id);
}

#[test]
fn error_messages_are_fixed() {
    assert_eq!(ApiError::NotFound.message(), "User not found");
    assert_eq!(ApiError::Conflict.message(), "User with this email already exists");
    assert_eq!(ApiError::NotImplemented.message(), "Google OAuth not implemented yet");
    assert_eq!(ApiError::Internal.message(), "Internal server error");
}
