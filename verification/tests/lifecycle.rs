use user_lifecycle::dto::UserRequestDto;
use user_lifecycle::marker_store::MemMarkerStore;
use user_lifecycle::repository::{MemUserRepository, UserRepostory};
use user_lifecycle::service::UserService;

fn fresh_service() -> UserService<MemUserRepository, MemMarkerStore> {
    UserService::new(MemUserRepository::new(), MemMarkerStore::new())
}

fn request(email: &str, password: &str) -> UserRequestDto {
    UserRequestDto { email: email.to_string(), password: password.to_string() }
}

#[test]
fn create_fresh_user_succeeds() {
    let mut svc = fresh_service();
    let id = svc.save(request("a@x.com", "secret1")).expect("fresh email must be accepted");
    assert!(!id.is_empty());
    assert_eq!(id.len(), 36);

    let view = svc.find_by_id(id.clone()).expect("created user must be found");
    assert_eq!(view.id, id);
    assert_eq!(view.email, "a@x.com");
    assert_eq!(view.email_verified_at, None);
    assert!(view.created_at.is_some());
    assert_eq!(view.updated_at, None);
}

#[test]
fn create_duplicate_email_conflicts() {
    let mut svc = fresh_service();
    let id = svc.save(request("a@x.com", "secret1")).unwrap();

    let err = svc.save(request("a@x.com", "another-password")).unwrap_err();
    assert_eq!(err.status, 422);
    assert!(!err.success);
    assert_eq!(err.message, "user with given id [a@x.com] is already exist");

    let all = svc.find_all();
    assert_eq!(all.len(), 1);
    assert_eq!(all[0].id, id);
}

#[test]
fn persisted_credential_is_hashed() {
    let mut svc = fresh_service();
    let id = svc.save(request("a@x.com", "secret1")).unwrap();

    let row = svc.repo.find_by_id(id).expect("row must exist");
    assert_ne!(row.password, "secret1");
    assert_eq!(row.password.len(), 60);
    assert!(row.password.starts_with('$'));
    assert!(bcrypt::verify("secret1", &row.password).unwrap());
    assert!(!bcrypt::verify("secret2", &row.password).unwrap());
}

#[test]
fn verify_unverified_user_sets_timestamp() {
    let mut svc = fresh_service();
    let id = svc.save(request("a@x.com", "secret1")).unwrap();

    let view = svc.set_verified(id.clone()).expect("verification must succeed").expect(
        "the refreshed view is returned",
    );
    assert!(view.email_verified_at.is_some());
    assert_eq!(view.updated_at, view.email_verified_at);

    let fetched = svc.find_by_id(id.clone()).unwrap();
    assert_eq!(fetched.email_verified_at, view.email_verified_at);

    let marker = svc.markers.find(&format!("USER_VERIFIED_{}", id)).expect(
        "the verification marker is recorded",
    );
    assert_eq!(marker.0, "OK");
    assert_eq!(marker.1, 20);
}

#[test]
fn verify_already_verified_fails_and_changes_nothing() {
    let mut svc = fresh_service();
    let id = svc.save(request("a@x.com", "secret1")).unwrap();
    svc.set_verified(id.clone()).unwrap();
    let before = svc.find_by_id(id.clone()).unwrap();

    let err = svc.set_verified(id.clone()).unwrap_err();
    assert_eq!(err.status, 200);
    assert!(err.success);
    assert_eq!(
        err.message,
        format!("User with given id [{}] is already being verified", id),
    );

    let after = svc.find_by_id(id).unwrap();
    assert_eq!(after.updated_at, before.updated_at);
    assert_eq!(after.email_verified_at, before.email_verified_at);
}

#[test]
fn verify_unknown_id_fails_not_found() {
    let mut svc = fresh_service();
    let err = svc.set_verified("no-such-id".to_string()).unwrap_err();
    assert_eq!(err.status, 404);
    assert!(!err.success);
    assert_eq!(err.message, "User with given id [no-such-id] is not exist");
}

#[test]
fn delete_existing_returns_previous_view() {
    let mut svc = fresh_service();
    let id = svc.save(request("a@x.com", "secret1")).unwrap();

    let view = svc.delete_by_id(id.clone()).expect("the pre-delete view is returned");
    assert_eq!(view.id, id);
    assert_eq!(view.email, "a@x.com");

    assert!(svc.find_by_id(id).is_none());
    assert!(svc.find_all().is_empty());
}

#[test]
fn delete_unknown_returns_empty() {
    let mut svc = fresh_service();
    assert!(svc.delete_by_id("no-such-id".to_string()).is_none());
}

#[test]
fn full_lifecycle_scenario() {
    let mut svc = fresh_service();

    // Create: a fresh email is accepted and yields a generated id.
    let id = svc.save(request("a@x.com", "secret1")).expect("201: created");
    assert!(!id.is_empty());

    // Create again with the same email: a conflict.
    let err = svc.save(request("a@x.com", "secret1")).expect_err("422: conflict");
    assert_eq!(err.status, 422);

    // Get: the unverified view.
    let view = svc.find_by_id(id.clone()).expect("200: found");
    assert_eq!(view.email, "a@x.com");
    assert_eq!(view.email_verified_at, None);

    // Verify: the timestamp is now set.
    let verified = svc.set_verified(id.clone()).expect("200: verified").unwrap();
    assert!(verified.email_verified_at.is_some());

    // Verify again: already verified.
    let again = svc.set_verified(id.clone()).expect_err("already verified");
    assert_eq!(again.status, 200);
    assert!(again.success);

    // Delete: the last known view comes back.
    let last = svc.delete_by_id(id.clone()).expect("200: deleted");
    assert_eq!(last.email, "a@x.com");
    assert!(last.email_verified_at.is_some());

    // Get: gone.
    assert!(svc.find_by_id(id).is_none());
}

#[test]
fn find_all_keeps_store_order() {
    let mut svc = fresh_service();
    let first = svc.save(request("a@x.com", "secret1")).unwrap();
    let second = svc.save(request("b@x.com", "secret2")).unwrap();

    let all = svc.find_all();
    assert_eq!(all.len(), 2);
    assert_eq!(all[0].id, first);
    assert_eq!(all[0].email, "a@x.com");
    assert_eq!(all[1].id, second);
    assert_eq!(all[1].email, "b@x.com");
}
