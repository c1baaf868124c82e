use accounts_core::errors::ServiceError;
use accounts_core::hashing::hash_password;
use accounts_core::service::{
    create_user, get_users, register, session_ttl, signin_user, update_password, update_user,
    verify_token, CreateUserRequest, UpdatePasswordRequest, UpdateUserRequest,
    DEFAULT_SESSION_TTL,
};
use accounts_core::store::{NewUser, UserStore};
use accounts_core::token::{current_expiry, issue_jwt};

const SECRET: &str = "test-signing-secret";

fn jane_request() -> CreateUserRequest {
    CreateUserRequest {
        first_name: "Jane".to_string(),
        last_name: "Doe".to_string(),
        username: "janedoe".to_string(),
        email: "jane@x.com".to_string(),
        password: "Valid1Pass!".to_string(),
    }
}

#[test]
fn register_then_signin_rotates_token_version() {
    let mut store = UserStore::new();
    let (user, token) = register(&mut store, jane_request(), SECRET, DEFAULT_SESSION_TTL)
        .unwrap();
    assert_eq!(user.token_version, 0);
    assert_eq!(user.username, "janedoe");
    // the first token reflects token version 0 and verifies
    let (valid, reason) = verify_token(&store, &token, SECRET);
    assert!(valid);
    assert_eq!(reason, "ok");

    let (signed_in, _new_token) =
        signin_user(&mut store, "janedoe", "Valid1Pass!", SECRET, DEFAULT_SESSION_TTL).unwrap();
    assert!(signed_in.token_version != 0);
    // the pre-sign-in token is now stale
    let (valid, reason) = verify_token(&store, &token, SECRET);
    assert!(!valid);
    assert_eq!(reason, "token_version_mismatch");
}

#[test]
fn signin_by_email_works_and_wrong_password_is_uniform() {
    let mut store = UserStore::new();
    register(&mut store, jane_request(), SECRET, DEFAULT_SESSION_TTL).unwrap();
    assert!(
        signin_user(&mut store, "jane@x.com", "Valid1Pass!", SECRET, DEFAULT_SESSION_TTL).is_ok()
    );
    assert!(matches!(
        signin_user(&mut store, "janedoe", "Wrong2Pass!", SECRET, DEFAULT_SESSION_TTL),
        Err(ServiceError::InvalidCredentials)
    ));
    assert!(matches!(
        signin_user(&mut store, "nobody", "Valid1Pass!", SECRET, DEFAULT_SESSION_TTL),
        Err(ServiceError::InvalidCredentials)
    ));
}

#[test]
fn duplicate_email_conflicts_and_store_keeps_one_row() {
    let mut store = UserStore::new();
    register(&mut store, jane_request(), SECRET, DEFAULT_SESSION_TTL).unwrap();
    let mut second = jane_request();
    second.username = "janedoe2".to_string();
    let r = register(&mut store, second, SECRET, DEFAULT_SESSION_TTL);
    match r {
        Err(ServiceError::Conflict(m)) => assert_eq!(m, "Email already in use"),
        other => panic!("expected a conflict, got {:?}", other),
    }
    let rows = get_users(&store);
    assert_eq!(rows.len(), 1);
    assert_eq!(rows[0].email, "jane@x.com");
}

#[test]
fn duplicate_username_conflicts() {
    let mut store = UserStore::new();
    register(&mut store, jane_request(), SECRET, DEFAULT_SESSION_TTL).unwrap();
    let mut second = jane_request();
    second.email = "other@x.com".to_string();
    match register(&mut store, second, SECRET, DEFAULT_SESSION_TTL) {
        Err(ServiceError::Conflict(m)) => assert_eq!(m, "Username already in use"),
        other => panic!("expected a conflict, got {:?}", other),
    }
}

#[test]
fn register_rejects_short_fields() {
    let mut store = UserStore::new();
    let mut req = jane_request();
    req.username = "ab".to_string();
    match register(&mut store, req, SECRET, DEFAULT_SESSION_TTL) {
        Err(ServiceError::Validation(m)) => {
            assert_eq!(m, "Username must be at least 3 characters long")
        },
        other => panic!("expected a validation error, got {:?}", other),
    }
}

#[test]
fn verify_token_reports_structured_reasons() {
    let mut store = UserStore::new();
    register(&mut store, jane_request(), SECRET, DEFAULT_SESSION_TTL).unwrap();
    let (valid, reason) = verify_token(&store, "not-a-token", SECRET);
    assert!(!valid);
    assert_eq!(reason, "invalid");

    let expired = issue_jwt(0, "janedoe", 0, current_expiry(-7200), SECRET);
    let (valid, reason) = verify_token(&store, &expired, SECRET);
    assert!(!valid);
    assert_eq!(reason, "expired");

    let unknown_subject = issue_jwt(99, "ghost", 0, current_expiry(3600), SECRET);
    let (valid, reason) = verify_token(&store, &unknown_subject, SECRET);
    assert!(!valid);
    assert_eq!(reason, "user_not_found");
}

#[test]
fn stale_token_cannot_update_profile() {
    let mut store = UserStore::new();
    let (_, old_token) = register(&mut store, jane_request(), SECRET, DEFAULT_SESSION_TTL)
        .unwrap();
    signin_user(&mut store, "janedoe", "Valid1Pass!", SECRET, DEFAULT_SESSION_TTL).unwrap();
    let data = UpdateUserRequest {
        username: None,
        email: None,
        first_name: Some("Janet".to_string()),
        last_name: None,
    };
    assert!(matches!(
        update_user(&mut store, &old_token, SECRET, data),
        Err(ServiceError::InvalidToken)
    ));
}

#[test]
fn profile_update_applies_subset_and_keeps_sessions_valid() {
    let mut store = UserStore::new();
    let (_, token) = register(&mut store, jane_request(), SECRET, DEFAULT_SESSION_TTL).unwrap();
    let data = UpdateUserRequest {
        username: None,
        email: None,
        first_name: Some("Janet".to_string()),
        last_name: None,
    };
    let updated = update_user(&mut store, &token, SECRET, data).unwrap();
    assert_eq!(updated.first_name, "Janet");
    assert_eq!(updated.username, "janedoe");
    // profile update does not bump the token version: the token stays valid
    let (valid, reason) = verify_token(&store, &token, SECRET);
    assert!(valid);
    assert_eq!(reason, "ok");
}

#[test]
fn profile_update_rejects_taken_username() {
    let mut store = UserStore::new();
    register(&mut store, jane_request(), SECRET, DEFAULT_SESSION_TTL).unwrap();
    let other = CreateUserRequest {
        first_name: "John".to_string(),
        last_name: "Roe".to_string(),
        username: "johnroe".to_string(),
        email: "john@x.com".to_string(),
        password: "Valid1Pass!".to_string(),
    };
    let (_, token) = register(&mut store, other, SECRET, DEFAULT_SESSION_TTL).unwrap();
    let data = UpdateUserRequest {
        username: Some("janedoe".to_string()),
        email: None,
        first_name: None,
        last_name: None,
    };
    match update_user(&mut store, &token, SECRET, data) {
        Err(ServiceError::Conflict(m)) => assert_eq!(m, "Username already taken"),
        other => panic!("expected a conflict, got {:?}", other),
    }
}

#[test]
fn password_change_invalidates_outstanding_tokens() {
    let mut store = UserStore::new();
    let (_, token) = register(&mut store, jane_request(), SECRET, DEFAULT_SESSION_TTL).unwrap();
    let data = UpdatePasswordRequest {
        old_password: "Valid1Pass!".to_string(),
        new_password: "Next2Pass!".to_string(),
    };
    update_password(&mut store, &token, SECRET, data).unwrap();
    let (valid, reason) = verify_token(&store, &token, SECRET);
    assert!(!valid);
    assert_eq!(reason, "token_version_mismatch");
    // the new password signs in, the old one no longer does
    assert!(
        signin_user(&mut store, "janedoe", "Next2Pass!", SECRET, DEFAULT_SESSION_TTL).is_ok()
    );
    assert!(matches!(
        signin_user(&mut store, "janedoe", "Valid1Pass!", SECRET, DEFAULT_SESSION_TTL),
        Err(ServiceError::InvalidCredentials)
    ));
}

#[test]
fn password_change_rejects_wrong_old_password() {
    let mut store = UserStore::new();
    let (_, token) = register(&mut store, jane_request(), SECRET, DEFAULT_SESSION_TTL).unwrap();
    let data = UpdatePasswordRequest {
        old_password: "Wrong2Pass!".to_string(),
        new_password: "Next2Pass!".to_string(),
    };
    assert!(matches!(
        update_password(&mut store, &token, SECRET, data),
        Err(ServiceError::InvalidCredentials)
    ));
}

#[test]
fn password_change_rejects_same_and_weak_passwords() {
    let mut store = UserStore::new();
    let (_, token) = register(&mut store, jane_request(), SECRET, DEFAULT_SESSION_TTL).unwrap();
    let same = UpdatePasswordRequest {
        old_password: "Valid1Pass!".to_string(),
        new_password: "Valid1Pass!".to_string(),
    };
    match update_password(&mut store, &token, SECRET, same) {
        Err(ServiceError::Validation(m)) => {
            assert_eq!(m, "New password cannot be the same as the old password")
        },
        other => panic!("expected a validation error, got {:?}", other),
    }
    let weak = UpdatePasswordRequest {
        old_password: "Valid1Pass!".to_string(),
        new_password: "weakpass".to_string(),
    };
    match update_password(&mut store, &token, SECRET, weak) {
        Err(ServiceError::Validation(m)) => assert_eq!(
            m,
            "New password validation failed: Password must contain at least one uppercase letter"
        ),
        other => panic!("expected a validation error, got {:?}", other),
    }
}

#[test]
fn listing_joins_roles_with_default_placeholder() {
    let mut store = UserStore::new();
    let (jane, _) = register(&mut store, jane_request(), SECRET, DEFAULT_SESSION_TTL).unwrap();
    let other = CreateUserRequest {
        first_name: "John".to_string(),
        last_name: "Roe".to_string(),
        username: "johnroe".to_string(),
        email: "john@x.com".to_string(),
        password: "Valid1Pass!".to_string(),
    };
    register(&mut store, other, SECRET, DEFAULT_SESSION_TTL).unwrap();
    let admin = store.add_role("admin").unwrap();
    let editor = store.add_role("editor").unwrap();
    store.assign_role(jane.id, admin).unwrap();
    store.assign_role(jane.id, editor).unwrap();
    assert!(matches!(
        store.assign_role(jane.id, admin),
        Err(ServiceError::Conflict(_))
    ));
    assert!(matches!(store.assign_role(99, admin), Err(ServiceError::NotFound)));

    let rows = get_users(&store);
    assert_eq!(rows.len(), 2);
    assert_eq!(rows[0].username, "janedoe");
    assert_eq!(rows[0].roles, vec!["admin".to_string(), "editor".to_string()]);
    assert_eq!(rows[1].username, "johnroe");
    assert_eq!(rows[1].roles, vec!["default".to_string()]);
}

#[test]
fn create_user_takes_prehashed_credentials() {
    let mut store = UserStore::new();
    let hash = hash_password("Valid1Pass!").unwrap();
    let nu = NewUser {
        first_name: "Jane".to_string(),
        last_name: "Doe".to_string(),
        username: "janedoe".to_string(),
        email: "jane@x.com".to_string(),
        password_hash: hash,
        token_version: 0,
    };
    let (user, token) = create_user(&mut store, nu, SECRET, DEFAULT_SESSION_TTL).unwrap();
    assert_eq!(user.token_version, 0);
    assert_eq!(user.username, "janedoe");
    let (valid, reason) = verify_token(&store, &token, SECRET);
    assert!(valid);
    assert_eq!(reason, "ok");
    assert!(
        signin_user(&mut store, "janedoe", "Valid1Pass!", SECRET, DEFAULT_SESSION_TTL).is_ok()
    );
}

#[test]
fn session_ttl_defaults_when_unconfigured() {
    assert_eq!(session_ttl(None), 3600);
    assert_eq!(session_ttl(Some(60)), 60);
}
