use surjo_backend::{
    create_user, get_user, list_users, update_user, ApiError, CreateUserRequest, Database,
    UpdateUserRequest,
};

fn create_test_db() -> Database {
    Database::new().with_hash_cost(4)
}

fn request(email: &str, password: &str, first: Option<&str>, last: Option<&str>) -> CreateUserRequest {
    CreateUserRequest {
        email: email.to_string(),
        password: password.to_string(),
        first_name: first.map(|s| s.to_string()),
        last_name: last.map(|s| s.to_string()),
    }
}

#[test]
fn test_create_user() {
    let mut db = create_test_db();
    let user_data = request("test@example.com", "password123", Some("Test"), Some("User"));
    let body = create_user(&mut db, &user_data).expect("creation succeeds");
    assert_eq!(body.email, "test@example.com");
    assert_eq!(body.first_name.as_deref(), Some("Test"));
    assert_eq!(body.last_name.as_deref(), Some("User"));
    assert_eq!(body.is_active, true);
    assert!(!body.id.is_empty());
    assert!(body.created_at > 0);
    assert!(body.updated_at > 0);
}

#[test]
fn test_create_duplicate_user() {
    let mut db = create_test_db();
    let user_data = request("duplicate@example.com", "password123", Some("Test"), Some("User"));
    assert!(create_user(&mut db, &user_data).is_ok());
    let second = create_user(&mut db, &user_data);
    let err = second.err().expect("duplicate is refused");
    assert_eq!(err, ApiError::Conflict);
    assert_eq!(err.status(), 409);
    let with_email = list_users(&db).iter().filter(|u| u.email == "duplicate@example.com").count();
    assert_eq!(with_email, 1);
}

#[test]
fn test_list_users() {
    let mut db = create_test_db();
    let user_data = request("list_test@example.com", "password123", Some("List"), Some("Test"));
    create_user(&mut db, &user_data).expect("creation succeeds");
    let users = list_users(&db);
    assert_eq!(users.len(), 1);
    assert_eq!(users[0].email, "list_test@example.com");
}

#[test]
fn test_get_user_by_id() {
    let mut db = create_test_db();
    let user_data = request("get_test@example.com", "password123", Some("Get"), Some("Test"));
    let created = create_user(&mut db, &user_data).expect("creation succeeds");
    let body = get_user(&db, &created.id).expect("user is found");
    assert_eq!(body.email, "get_test@example.com");
    assert_eq!(body.id, created.id);
}

#[test]
fn test_get_nonexistent_user() {
    let db = create_test_db();
    let err = get_user(&db, "nonexistent-id").err().expect("no such user");
    assert_eq!(err.status(), 404);
}

#[test]
fn test_update_user() {
    let mut db = create_test_db();
    let user_data = request("update_test@example.com", "password123", Some("Original"), Some("Name"));
    let created = create_user(&mut db, &user_data).expect("creation succeeds");
    let update = UpdateUserRequest {
        first_name: Some("Updated".to_string()),
        last_name: Some("Name".to_string()),
    };
    let body = update_user(&mut db, &created.id, &update).expect("user is updated");
    assert_eq!(body.id, created.id);
    assert_eq!(body.first_name.as_deref(), Some("Updated"));
    assert_eq!(body.last_name.as_deref(), Some("Name"));
    assert_eq!(body.created_at, created.created_at);
    assert_ne!(body.updated_at, created.updated_at);
    assert!(body.updated_at > created.updated_at);
}
