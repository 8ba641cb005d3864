use smmaster::errors::AppError;
use smmaster::post::{Post, Status};
use smmaster::server::posts::AppPostService;
use smmaster::server::users::AppUsersService;
use smmaster::storage::Storage;
use smmaster::user::Role;

fn storage_with_author(telegram_id: i64) -> Storage {
    let mut users = AppUsersService::new(Storage::new());
    users
        .create_user(telegram_id, String::from("Alice"), None, None, None, 1_000)
        .expect("author should be created");
    users.db
}

fn sample_builder() -> smmaster::post::PostBuilder {
    Post::builder()
        .id(7)
        .title(String::from("Launch"))
        .content(String::from("We shipped v2"))
        .author_id(11)
        .created_at(500)
}

#[test]
fn builder_accepts_valid_text() {
    let p = sample_builder().build().expect("valid post should build");
    assert_eq!(p.title, "Launch");
    assert_eq!(p.content, "We shipped v2");
    assert_eq!(p.status, Status::Draft);
    assert_eq!(p.publish_datetime, None);
}

#[test]
fn builder_rejects_empty_title() {
    let r = sample_builder().title(String::new()).build();
    assert_eq!(r.err(), Some(AppError::InvalidArgument));
}

#[test]
fn builder_rejects_oversized_title() {
    let r = sample_builder().title("x".repeat(256)).build();
    assert_eq!(r.err(), Some(AppError::InvalidArgument));
    assert!(sample_builder().title("x".repeat(255)).build().is_ok());
}

#[test]
fn builder_rejects_oversized_content() {
    let r = sample_builder().content("y".repeat(4097)).build();
    assert_eq!(r.err(), Some(AppError::InvalidArgument));
    assert!(sample_builder().content("y".repeat(4096)).build().is_ok());
}

#[test]
fn created_post_reads_back_identically() {
    let db = storage_with_author(42);
    let author_uuid = db.users_storage.get(42).unwrap().id;
    let mut posts = AppPostService::new(db);
    let created = posts
        .create_post(
            42,
            String::from("Launch"),
            String::from("We shipped v2"),
            None,
            None,
            None,
            None,
            None,
            2_000,
        )
        .expect("post should be created");
    let read = posts.get_post(created.id).expect("post should be stored");
    assert_eq!(read.title, "Launch");
    assert_eq!(read.content, "We shipped v2");
    assert_eq!(read.author_id, author_uuid);
    assert_eq!(read.status, Status::Draft);
    assert_eq!(read.publish_datetime, None);
    assert_eq!(read, created);
}

#[test]
fn create_post_for_unknown_author_is_not_found() {
    let mut posts = AppPostService::new(Storage::new());
    let r = posts.create_post(
        1,
        String::from("t"),
        String::from("c"),
        None,
        None,
        None,
        None,
        None,
        0,
    );
    assert_eq!(r.err(), Some(AppError::NotFound));
}

#[test]
fn create_post_with_bad_text_is_invalid() {
    let db = storage_with_author(42);
    let mut posts = AppPostService::new(db);
    let r = posts.create_post(
        42,
        String::new(),
        String::from("c"),
        None,
        None,
        None,
        None,
        None,
        0,
    );
    assert_eq!(r.err(), Some(AppError::InvalidArgument));
}

#[test]
fn publish_now_publishes_from_any_prior_status() {
    let db = storage_with_author(42);
    let mut posts = AppPostService::new(db);
    let created = posts
        .create_post(
            42,
            String::from("t"),
            String::from("c"),
            None,
            None,
            None,
            None,
            None,
            0,
        )
        .unwrap();
    let from_draft = posts.publish_now(created.id, 9_000).unwrap();
    assert_eq!(from_draft.status, Status::Published);
    assert_eq!(from_draft.publish_datetime, Some(9_000));

    let again = posts.publish_now(created.id, 9_500).unwrap();
    assert_eq!(again.status, Status::Published);
    assert_eq!(again.publish_datetime, Some(9_500));
}

#[test]
fn set_publish_date_schedules_from_any_prior_status() {
    let db = storage_with_author(42);
    let mut posts = AppPostService::new(db);
    let created = posts
        .create_post(
            42,
            String::from("t"),
            String::from("c"),
            None,
            None,
            None,
            None,
            None,
            0,
        )
        .unwrap();
    let scheduled = posts.set_publish_date(created.id, 77_000).unwrap();
    assert_eq!(scheduled.status, Status::Pending);
    assert_eq!(scheduled.publish_datetime, Some(77_000));

    posts.publish_now(created.id, 80_000).unwrap();
    let rescheduled = posts.set_publish_date(created.id, 90_000).unwrap();
    assert_eq!(rescheduled.status, Status::Pending);
    assert_eq!(rescheduled.publish_datetime, Some(90_000));
}

#[test]
fn publish_now_on_missing_post_is_not_found() {
    let mut posts = AppPostService::new(Storage::new());
    assert_eq!(posts.publish_now(5, 0).err(), Some(AppError::NotFound));
    assert_eq!(posts.set_publish_date(5, 0).err(), Some(AppError::NotFound));
}

#[test]
fn delete_post_removes_the_record() {
    let db = storage_with_author(42);
    let mut posts = AppPostService::new(db);
    let created = posts
        .create_post(
            42,
            String::from("t"),
            String::from("c"),
            None,
            None,
            None,
            None,
            None,
            0,
        )
        .unwrap();
    posts.delete_post(created.id).unwrap();
    assert!(posts.get_post(created.id).is_none());
    assert_eq!(posts.delete_post(created.id).err(), Some(AppError::NotFound));
}

#[test]
fn status_codes_round_trip() {
    for st in [Status::Draft, Status::Pending, Status::Published, Status::Abandoned] {
        assert_eq!(Status::from_i32(st.as_i32()).unwrap(), st);
    }
    assert_eq!(Status::from_i32(4).err(), Some(AppError::InvalidArgument));
    assert_eq!(Status::from_i32(-1).err(), Some(AppError::InvalidArgument));
}

#[test]
fn status_names_round_trip_with_draft_fallback() {
    assert_eq!(Status::from_name("Pending"), Status::Pending);
    assert_eq!(Status::from_name("Published"), Status::Published);
    assert_eq!(Status::from_name("Abandoned"), Status::Abandoned);
    assert_eq!(Status::from_name("Draft"), Status::Draft);
    assert_eq!(Status::from_name("anything else"), Status::Draft);
}

#[test]
fn role_codes_round_trip() {
    for role in [Role::Guest, Role::Editor, Role::Admin] {
        assert_eq!(Role::from_i32(role.as_i32()).unwrap(), role);
    }
    assert_eq!(Role::from_i32(3).err(), Some(AppError::InvalidArgument));
    assert_eq!(Role::from_name("Admin"), Role::Admin);
    assert_eq!(Role::from_name("Editor"), Role::Editor);
    assert_eq!(Role::from_name("nobody"), Role::Guest);
}

#[test]
fn fresh_ids_carry_the_version_bits() {
    let db = storage_with_author(42);
    let id = db.users_storage.get(42).unwrap().id;
    assert_eq!((id >> 76) & 0xf, 4);
    assert_eq!((id >> 62) & 0x3, 2);
}
