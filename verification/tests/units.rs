use user_lifecycle::config::AppConfig;
use user_lifecycle::marker_store::{MarkerStore, MemMarkerStore};
use user_lifecycle::mapper::user_to_response;
use user_lifecycle::service_error::ServiceError;
use user_lifecycle::user::User;

#[test]
fn config_getters_return_what_was_set() {
    let cfg = AppConfig::new(3001, "postgres://localhost/users".to_string());
    assert_eq!(cfg.app_port(), 3001);
    assert_eq!(cfg.database_url(), "postgres://localhost/users");
}

#[test]
fn generated_ids_differ_between_users() {
    let a = User::new("a@x.com".to_string(), "secret1".to_string());
    let b = User::new("b@x.com".to_string(), "secret2".to_string());
    assert_eq!(a.id.len(), 36);
    assert_eq!(b.id.len(), 36);
    assert_ne!(a.id, b.id);
}

#[test]
fn new_user_starts_unverified() {
    let user = User::new("a@x.com".to_string(), "secret1".to_string());
    assert_eq!(user.id.len(), 36);
    assert_eq!(user.email, "a@x.com");
    assert_eq!(user.password, "secret1");
    assert_eq!(user.email_verified_at, None);
    assert!(user.created_at.is_some());
    assert_eq!(user.updated_at, None);
}

#[test]
fn response_projection_drops_the_credential() {
    let user = User {
        id: "u-1".to_string(),
        email: "a@x.com".to_string(),
        email_verified_at: Some(7),
        password: "hash-material".to_string(),
        created_at: Some(5),
        updated_at: Some(7),
    };
    let view = user_to_response(&user);
    assert_eq!(view.id, "u-1");
    assert_eq!(view.email, "a@x.com");
    assert_eq!(view.email_verified_at, Some(7));
    assert_eq!(view.created_at, Some(5));
    assert_eq!(view.updated_at, Some(7));
}

#[test]
fn service_error_describes_itself() {
    let err = ServiceError { message: "boom".to_string(), success: false, status: 500 };
    assert_eq!(err.describe(), "UserError: boom");
}

#[test]
fn marker_store_upserts_by_key() {
    let mut store = MemMarkerStore::new();
    assert!(store.set_with_expiry("k".to_string(), "first".to_string(), 20));
    assert!(store.set_with_expiry("k".to_string(), "second".to_string(), 30));
    assert!(store.set_with_expiry("other".to_string(), "x".to_string(), 20));

    let (value, ttl) = store.find(&"k".to_string()).expect("the key is present");
    assert_eq!(value, "second");
    assert_eq!(ttl, 30);
    assert!(store.find(&"missing".to_string()).is_none());
}
