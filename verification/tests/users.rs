use gateway::contexts::UserRole;
use gateway::error::GatewayError;
use gateway::settings::{settings_update_params, UpdateUserSettingsRequest, UserSettings, UserSettingsResponse};
use gateway::users::{
    build_cursor, check_login_account, check_login_password, create_user_role, next_user_cursor,
    user_write_error, validate_user_update, CreateUserRequest, LoginResponse, UpdateUserRequest,
    UserRecord, UserResponse, UserStoreFailure,
};

fn user(blocked: bool) -> UserRecord {
    UserRecord {
        id: 0x1,
        email: "user@example.com".to_string(),
        password_hash: "hash".to_string(),
        role: UserRole::User,
        blocked,
        created_at: 1,
        updated_at: 2,
    }
}

#[test]
fn login_checks() {
    assert!(matches!(check_login_account(None), Err(GatewayError::Unauthorized(m)) if m == "invalid credentials"));
    assert!(matches!(check_login_account(Some(user(true))), Err(GatewayError::Forbidden(m)) if m == "user is blocked"));
    assert!(check_login_account(Some(user(false))).is_ok());
    assert!(check_login_password(true).is_ok());
    assert!(matches!(check_login_password(false), Err(GatewayError::Unauthorized(_))));
    let response = LoginResponse::new("tok".to_string(), 9, user(false));
    assert_eq!(response.token_type, "bearer");
    assert_eq!(response.user.email, "user@example.com");
}

#[test]
fn account_requests() {
    let create = CreateUserRequest { email: "a@b".to_string(), password: "p".to_string(), role: None };
    assert_eq!(create_user_role(&create), UserRole::User);
    let empty = UpdateUserRequest { email: None, password: None, role: None, blocked: None };
    assert!(matches!(validate_user_update(&empty), Err(GatewayError::InvalidField { field, message })
        if field == "body" && message == "provide at least one field"));
    let some = UpdateUserRequest { email: None, password: None, role: None, blocked: Some(true) };
    assert!(validate_user_update(&some).is_ok());
    assert!(matches!(user_write_error(0x1, UserStoreFailure::EmailTaken), GatewayError::Conflict(m) if m == "email already exists"));
    assert!(matches!(user_write_error(0x1, UserStoreFailure::NotFound), GatewayError::UserNotFound(0x1)));
    let presented = UserResponse::from_record(user(false));
    assert_eq!(presented.id, 0x1);
}

#[test]
fn user_pages() {
    assert!(build_cursor(Some(1), None).is_err());
    assert_eq!(build_cursor(Some(1), Some(2)).unwrap().unwrap().user_id, 2);
    let page = vec![user(false)];
    assert_eq!(next_user_cursor(&page, 1).unwrap().created_at, 1);
    assert!(next_user_cursor(&page, 50).is_none());
}

#[test]
fn settings_changes() {
    let bad = UpdateUserSettingsRequest { default_chat_mode: None, default_k: Some(0), default_lang: None, theme: None };
    assert!(matches!(settings_update_params(bad), Err(GatewayError::InvalidField { field, message })
        if field == "default_k" && message == "must be greater than zero"));
    let good = UpdateUserSettingsRequest {
        default_chat_mode: Some("rdf-emb".to_string()),
        default_k: Some(15),
        default_lang: Some("pl".to_string()),
        theme: Some("dark".to_string()),
    };
    let params = settings_update_params(good).unwrap();
    assert_eq!(params.default_k, Some(15));
    assert_eq!(params.theme.as_deref(), Some("dark"));
    let none = UserSettingsResponse::from_stored(None);
    assert!(none.default_k.is_none() && none.theme.is_none());
    let stored = UserSettings {
        user_id: 1,
        default_chat_mode: None,
        default_k: Some(3),
        default_lang: None,
        theme: None,
        created_at: 0,
        updated_at: 0,
    };
    assert_eq!(UserSettingsResponse::from_stored(Some(stored)).default_k, Some(3));
}
