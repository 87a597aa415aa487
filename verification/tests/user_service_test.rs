use circa_backend::auth::models::Claims;
use circa_backend::user::models::{
    CreateUserRequest, UpdateUserRequest, User, UserRole, UserStatus,
};
use circa_backend::user::service::{
    apply_update, authorize_delete, authorize_update, delete_outcome, plan_update, prepare_create,
    require_user,
};

fn make_claims(sub: &str, role: &str) -> Claims {
    Claims {
        sub: sub.to_string(),
        role: role.to_string(),
        exp: 9999999999,
    }
}

fn john() -> User {
    User {
        id: "1".to_string(),
        name: "John".to_string(),
        surname: "Doe".to_string(),
        email: "john@example.com".to_string(),
        phone: "123".to_string(),
        role: UserRole::Volunteer,
        status: UserStatus::Active,
    }
}

fn no_changes() -> UpdateUserRequest {
    UpdateUserRequest {
        name: None,
        surname: None,
        email: None,
        phone: None,
        role: None,
        status: None,
    }
}

// -- lookups --------------------------------------------------------------

#[test]
fn test_require_user_found() {
    let result = require_user(Some(john()));
    assert!(result.is_ok());
    assert_eq!(result.unwrap().id, "1");
}

#[test]
fn test_require_user_absent() {
    let result = require_user(None);
    assert!(result.is_err());
    assert_eq!(result.unwrap_err().message(), "Not found: User not found");
}

// -- create ---------------------------------------------------------------

#[test]
fn test_create_user_success() {
    let req = CreateUserRequest {
        name: "John".to_string(),
        surname: "Doe".to_string(),
        email: "john@example.com".to_string(),
        phone: "123".to_string(),
        role: UserRole::Organizer,
    };

    let result = prepare_create(req);
    assert!(result.is_ok());
    let user = result.unwrap();
    assert_eq!(user.name, "John");
    assert_eq!(user.surname, "Doe");
    assert_eq!(user.email, "john@example.com");
    assert_eq!(user.phone, "123");
    assert_eq!(user.role, UserRole::Organizer);
    assert_eq!(user.status, UserStatus::Active);
    assert_eq!(user.id.len(), 36);
}

#[test]
fn test_create_user_fresh_ids_differ() {
    let req = CreateUserRequest {
        name: "John".to_string(),
        surname: "Doe".to_string(),
        email: "john@example.com".to_string(),
        phone: "123".to_string(),
        role: UserRole::Staff,
    };
    let first = prepare_create(req.clone()).unwrap();
    let second = prepare_create(req).unwrap();
    assert_ne!(first.id, second.id);
}

#[test]
fn test_create_user_empty_email() {
    let req = CreateUserRequest {
        name: "John".to_string(),
        surname: "Doe".to_string(),
        email: "".to_string(),
        phone: "123".to_string(),
        role: UserRole::Organizer,
    };

    let result = prepare_create(req);
    assert!(result.is_err());
    assert_eq!(result.unwrap_err().message(), "Bad request: Email is required");
}

// -- update ---------------------------------------------------------------

#[test]
fn test_apply_update_replaces_present_fields() {
    let req = UpdateUserRequest {
        name: Some("Jane".to_string()),
        ..no_changes()
    };
    let updated = apply_update(john(), req);
    assert_eq!(updated.name, "Jane");
    assert_eq!(updated.surname, "Doe");
    assert_eq!(updated.email, "john@example.com");
    assert_eq!(updated.id, "1");
    assert_eq!(updated.role, UserRole::Volunteer);
    assert_eq!(updated.status, UserStatus::Active);
}

#[test]
fn test_apply_update_all_fields() {
    let req = UpdateUserRequest {
        name: Some("Jane".to_string()),
        surname: Some("Smith".to_string()),
        email: Some("jane@example.com".to_string()),
        phone: Some("456".to_string()),
        role: Some(UserRole::Admin),
        status: Some(UserStatus::Inactive),
    };
    let updated = apply_update(john(), req);
    assert_eq!(updated.id, "1");
    assert_eq!(updated.name, "Jane");
    assert_eq!(updated.surname, "Smith");
    assert_eq!(updated.email, "jane@example.com");
    assert_eq!(updated.phone, "456");
    assert_eq!(updated.role, UserRole::Admin);
    assert_eq!(updated.status, UserStatus::Inactive);
}

#[test]
fn test_apply_update_empty_request_keeps_record() {
    let updated = apply_update(john(), no_changes());
    assert_eq!(updated.id, "1");
    assert_eq!(updated.name, "John");
    assert_eq!(updated.surname, "Doe");
    assert_eq!(updated.email, "john@example.com");
    assert_eq!(updated.phone, "123");
    assert_eq!(updated.role, UserRole::Volunteer);
    assert_eq!(updated.status, UserStatus::Active);
}

#[test]
fn test_plan_update_found() {
    let req = UpdateUserRequest {
        name: Some("Jane".to_string()),
        ..no_changes()
    };
    let result = plan_update(Some(john()), req);
    assert!(result.is_ok());
    assert_eq!(result.unwrap().name, "Jane");
}

#[test]
fn test_plan_update_absent() {
    let result = plan_update(None, no_changes());
    assert!(result.is_err());
    assert_eq!(result.unwrap_err().message(), "Not found: User not found");
}

// -- authorization gates ----------------------------------------------------

#[test]
fn test_authorize_update_as_self() {
    assert!(authorize_update(&make_claims("1", "volunteer"), "1").is_ok());
}

#[test]
fn test_authorize_update_as_admin() {
    assert!(authorize_update(&make_claims("admin-id", "admin"), "2").is_ok());
}

#[test]
fn test_authorize_update_as_organizer() {
    assert!(authorize_update(&make_claims("org-id", "organizer"), "2").is_ok());
}

#[test]
fn test_authorize_update_forbidden() {
    let result = authorize_update(&make_claims("other-user", "volunteer"), "1");
    assert!(result.is_err());
    assert_eq!(result.unwrap_err().message(), "Forbidden");
}

#[test]
fn test_authorize_delete_as_self() {
    assert!(authorize_delete(&make_claims("1", "volunteer"), "1").is_ok());
}

#[test]
fn test_authorize_delete_as_admin() {
    assert!(authorize_delete(&make_claims("admin-id", "admin"), "1").is_ok());
}

#[test]
fn test_authorize_delete_forbidden() {
    let result = authorize_delete(&make_claims("other-user", "volunteer"), "1");
    assert!(result.is_err());
    assert_eq!(result.unwrap_err().message(), "Forbidden");
}

#[test]
fn test_authorize_delete_forbidden_as_organizer() {
    let result = authorize_delete(&make_claims("org-id", "organizer"), "1");
    assert!(result.is_err());
    assert_eq!(result.unwrap_err().message(), "Forbidden");
}

// -- delete outcome ---------------------------------------------------------

#[test]
fn test_delete_outcome_row_deleted() {
    assert!(delete_outcome(1).is_ok());
}

#[test]
fn test_delete_user_not_found() {
    let result = delete_outcome(0);
    assert!(result.is_err());
    assert_eq!(result.unwrap_err().message(), "Not found: User not found");
}
