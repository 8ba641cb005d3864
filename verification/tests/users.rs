use smmaster::access::{authorize_admin, authorize_mutation, role_of};
use smmaster::errors::AppError;
use smmaster::server::users::AppUsersService;
use smmaster::storage::Storage;
use smmaster::user::Role;

#[test]
fn first_registered_user_becomes_admin() {
    let mut users = AppUsersService::new(Storage::new());
    let (first, created) = users
        .register_user(1, String::from("Alice"), None, None, None, 10)
        .unwrap();
    assert!(created);
    assert_eq!(first.role, Role::Admin);
}

#[test]
fn second_registered_user_defaults_to_guest_until_promoted() {
    let mut users = AppUsersService::new(Storage::new());
    users
        .register_user(1, String::from("Alice"), None, None, None, 10)
        .unwrap();
    let (second, created) = users
        .register_user(2, String::from("Bob"), None, None, None, 20)
        .unwrap();
    assert!(created);
    assert_eq!(second.role, Role::Guest);

    // every mutating command is denied for the guest
    assert_eq!(
        authorize_mutation(second.role).err(),
        Some(AppError::Unauthorized)
    );
    assert_eq!(
        authorize_admin(second.role).err(),
        Some(AppError::Unauthorized)
    );

    let promoted = users.make_editor(2).unwrap();
    assert_eq!(promoted.role, Role::Editor);
    assert_eq!(authorize_mutation(promoted.role), Ok(()));
}

#[test]
fn registering_again_returns_the_stored_record() {
    let mut users = AppUsersService::new(Storage::new());
    let (first, _) = users
        .register_user(1, String::from("Alice"), None, None, None, 10)
        .unwrap();
    let (again, created) = users
        .register_user(1, String::from("Imposter"), None, None, None, 99)
        .unwrap();
    assert!(!created);
    assert_eq!(again, first);
}

#[test]
fn unknown_caller_is_a_guest_not_an_error() {
    let users = AppUsersService::new(Storage::new());
    let lookup = users.get_user(12345);
    assert_eq!(role_of(&lookup), Role::Guest);
}

#[test]
fn admin_gate_admits_only_admins() {
    assert_eq!(authorize_admin(Role::Admin), Ok(()));
    assert_eq!(authorize_admin(Role::Editor).err(), Some(AppError::Unauthorized));
    assert_eq!(authorize_mutation(Role::Editor), Ok(()));
    assert_eq!(authorize_mutation(Role::Admin), Ok(()));
}

#[test]
fn profile_validation_rejects_bad_fields() {
    let mut users = AppUsersService::new(Storage::new());
    let r = users.create_user(-5, String::from("Alice"), None, None, None, 0);
    assert_eq!(r.err(), Some(AppError::InvalidArgument));

    let r = users.create_user(1, String::new(), None, None, None, 0);
    assert_eq!(r.err(), Some(AppError::InvalidArgument));

    let r = users.create_user(
        1,
        String::from("Alice"),
        None,
        Some(String::from("ab")),
        None,
        0,
    );
    assert_eq!(r.err(), Some(AppError::InvalidArgument));

    let r = users.create_user(
        1,
        String::from("Alice"),
        None,
        Some(String::from("alice_99")),
        Some(String::from("en")),
        0,
    );
    assert!(r.is_ok());

    let r = users.create_user(
        2,
        String::from("Bob"),
        None,
        None,
        Some(String::from("EN")),
        0,
    );
    assert_eq!(r.err(), Some(AppError::InvalidArgument));
}

#[test]
fn make_guest_demotes_and_delete_removes() {
    let mut users = AppUsersService::new(Storage::new());
    users
        .register_user(1, String::from("Alice"), None, None, None, 10)
        .unwrap();
    users
        .register_user(2, String::from("Bob"), None, None, None, 20)
        .unwrap();
    users.make_editor(2).unwrap();
    let demoted = users.make_guest(2).unwrap();
    assert_eq!(demoted.role, Role::Guest);

    users.delete_user(2).unwrap();
    assert!(users.get_user(2).is_none());
    assert_eq!(users.delete_user(2).err(), Some(AppError::NotFound));
}

#[test]
fn list_users_sorts_by_creation_time() {
    let mut users = AppUsersService::new(Storage::new());
    users
        .register_user(1, String::from("Alice"), None, None, None, 30)
        .unwrap();
    users
        .register_user(2, String::from("Bob"), None, None, None, 10)
        .unwrap();
    users
        .register_user(3, String::from("Carol"), None, None, None, 20)
        .unwrap();

    let asc = users.list_users(1, 10, None, true).unwrap();
    let ids: Vec<i64> = asc.users.iter().map(|u| u.telegram_id).collect();
    assert_eq!(ids, vec![2, 3, 1]);
    assert_eq!(asc.total_count, 3);
    assert_eq!(asc.total_pages, 1);
    assert_eq!(asc.current_page, 1);

    let desc = users.list_users(1, 10, None, false).unwrap();
    let ids: Vec<i64> = desc.users.iter().map(|u| u.telegram_id).collect();
    assert_eq!(ids, vec![1, 3, 2]);
}

#[test]
fn list_users_filters_by_role() {
    let mut users = AppUsersService::new(Storage::new());
    users
        .register_user(1, String::from("Alice"), None, None, None, 10)
        .unwrap();
    users
        .register_user(2, String::from("Bob"), None, None, None, 20)
        .unwrap();

    let admins = users.list_users(1, 10, Some(Role::Admin), true).unwrap();
    assert_eq!(admins.total_count, 1);
    assert_eq!(admins.users[0].telegram_id, 1);

    let guests = users.list_users(1, 10, Some(Role::Guest), true).unwrap();
    assert_eq!(guests.total_count, 1);
    assert_eq!(guests.users[0].telegram_id, 2);

    assert_eq!(
        users.list_users(1, 9, None, true).err(),
        Some(AppError::InvalidArgument)
    );
}

#[test]
fn update_user_keeps_identity_and_creation_fields() {
    let mut users = AppUsersService::new(Storage::new());
    let (alice, _) = users
        .register_user(1, String::from("Alice"), None, None, None, 10)
        .unwrap();

    // stale identity fields in the argument are silently kept as stored
    let mut changed = alice.clone();
    changed.telegram_id = 99;
    changed.created_at = 777;
    changed.first_name = String::from("Alicia");
    changed.updated_at = 20;
    let updated = users.update_user(&changed).unwrap();
    assert_eq!(updated.id, alice.id);
    assert_eq!(updated.telegram_id, 1);
    assert_eq!(updated.created_at, 10);
    assert_eq!(updated.first_name, "Alicia");
    assert_eq!(updated.updated_at, 20);

    // the record is still found under its stored chat identifier
    let stored = users.get_user(1).unwrap();
    assert_eq!(stored, updated);
    assert!(users.get_user(99).is_none());

    // an unknown record id is reported as absent
    let mut unknown = alice.clone();
    unknown.id = alice.id.wrapping_add(1);
    assert_eq!(users.update_user(&unknown).err(), Some(AppError::NotFound));
}
