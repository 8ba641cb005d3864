use smmaster::errors::AppError;
use smmaster::post::Status;
use smmaster::publisher::{delivery_outcome, due_post_ids, publish_due, ChannelMedia};
use smmaster::server::posts::AppPostService;
use smmaster::server::users::AppUsersService;
use smmaster::storage::Storage;

fn service_with_author(telegram_id: i64) -> AppPostService {
    let mut users = AppUsersService::new(Storage::new());
    users
        .create_user(telegram_id, String::from("Alice"), None, None, None, 0)
        .unwrap();
    AppPostService::new(users.db)
}

fn draft(posts: &mut AppPostService, tg: i64, title: &str) -> u128 {
    posts
        .create_post(
            tg,
            String::from(title),
            String::from("body"),
            Some(String::from("tg-photo")),
            Some(String::from("vk-photo")),
            None,
            None,
            None,
            0,
        )
        .unwrap()
        .id
}

#[test]
fn due_selection_takes_only_pending_posts_whose_time_passed() {
    let mut posts = service_with_author(1);
    let still_draft = draft(&mut posts, 1, "a");
    let due = draft(&mut posts, 1, "b");
    let later = draft(&mut posts, 1, "c");
    let published = draft(&mut posts, 1, "d");
    posts.set_publish_date(due, 100).unwrap();
    posts.set_publish_date(later, 5_000).unwrap();
    posts.publish_now(published, 50).unwrap();

    let ids = due_post_ids(&posts, 1_000);
    assert_eq!(ids, vec![due]);
    let _ = still_draft;
}

#[test]
fn publish_due_flips_the_store_before_handing_out_the_job() {
    let mut posts = service_with_author(1);
    let id = draft(&mut posts, 1, "a");
    posts.set_publish_date(id, 100).unwrap();

    let job = publish_due(&mut posts, id, 1_000).expect("a due post yields a job");
    assert_eq!(job.post.status, Status::Published);
    assert_eq!(job.post.publish_datetime, Some(1_000));
    assert_eq!(job.vk, ChannelMedia::Photo(String::from("vk-photo")));
    assert_eq!(job.tg, ChannelMedia::Photo(String::from("tg-photo")));

    let stored = posts.get_post(id).unwrap();
    assert_eq!(stored.status, Status::Published);
    assert_eq!(stored.publish_datetime, Some(1_000));
}

#[test]
fn publish_due_twice_does_not_double_send() {
    let mut posts = service_with_author(1);
    let id = draft(&mut posts, 1, "a");
    posts.set_publish_date(id, 100).unwrap();

    assert!(publish_due(&mut posts, id, 1_000).is_some());
    assert!(publish_due(&mut posts, id, 2_000).is_none());
    assert!(due_post_ids(&posts, 2_000).is_empty());
}

#[test]
fn publish_due_skips_posts_not_yet_due() {
    let mut posts = service_with_author(1);
    let id = draft(&mut posts, 1, "a");
    posts.set_publish_date(id, 5_000).unwrap();
    assert!(publish_due(&mut posts, id, 1_000).is_none());
    assert_eq!(posts.get_post(id).unwrap().status, Status::Pending);
}

#[test]
fn publish_due_skips_missing_posts() {
    let mut posts = service_with_author(1);
    assert!(publish_due(&mut posts, 999, 1_000).is_none());
}

#[test]
fn social_network_failure_is_swallowed_and_post_stays_published() {
    let mut posts = service_with_author(1);
    let id = draft(&mut posts, 1, "a");
    posts.set_publish_date(id, 100).unwrap();
    let _job = publish_due(&mut posts, id, 1_000).unwrap();

    let outcome = delivery_outcome(false, true);
    assert_eq!(outcome, Ok(()));
    assert_eq!(posts.get_post(id).unwrap().status, Status::Published);
}

#[test]
fn chat_broadcast_failure_is_the_operations_result() {
    assert_eq!(delivery_outcome(true, false), Err(AppError::Internal));
    assert_eq!(delivery_outcome(false, false), Err(AppError::Internal));
    assert_eq!(delivery_outcome(true, true), Ok(()));
}

#[test]
fn media_precedence_is_photo_then_video_then_text() {
    let mut posts = service_with_author(1);
    let video_only = posts
        .create_post(
            1,
            String::from("v"),
            String::from("body"),
            None,
            None,
            Some(String::from("tg-video")),
            Some(String::from("vk-video")),
            None,
            0,
        )
        .unwrap()
        .id;
    posts.set_publish_date(video_only, 1).unwrap();
    let job = publish_due(&mut posts, video_only, 10).unwrap();
    assert_eq!(job.vk, ChannelMedia::Video(String::from("vk-video")));
    assert_eq!(job.tg, ChannelMedia::Video(String::from("tg-video")));

    let text_only = posts
        .create_post(
            1,
            String::from("t"),
            String::from("body"),
            None,
            None,
            None,
            None,
            None,
            0,
        )
        .unwrap()
        .id;
    posts.set_publish_date(text_only, 1).unwrap();
    let job = publish_due(&mut posts, text_only, 10).unwrap();
    assert_eq!(job.vk, ChannelMedia::Text);
    assert_eq!(job.tg, ChannelMedia::Text);
}
