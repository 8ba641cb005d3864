use smmaster::errors::AppError;
use smmaster::post::Status;
use smmaster::server::posts::AppPostService;
use smmaster::server::users::AppUsersService;
use smmaster::storage::Storage;

fn service_with_author(tg: i64) -> AppPostService {
    let mut users = AppUsersService::new(Storage::new());
    users
        .create_user(tg, String::from("Alice"), None, None, None, 0)
        .unwrap();
    AppPostService::new(users.db)
}

fn fill(posts: &mut AppPostService, tg: i64, count: usize) -> Vec<u128> {
    let mut ids = Vec::new();
    for i in 0..count {
        let id = posts
            .create_post(
                tg,
                format!("title {i}"),
                format!("content {i}"),
                None,
                None,
                None,
                None,
                None,
                i as i64,
            )
            .unwrap()
            .id;
        ids.push(id);
    }
    ids
}

#[test]
fn listing_pages_through_the_authors_posts_in_store_order() {
    let mut posts = service_with_author(1);
    let ids = fill(&mut posts, 1, 25);

    let page1 = posts.list_posts(1, 1, 10, None).unwrap();
    assert_eq!(page1.total_count, 25);
    assert_eq!(page1.total_pages, 3);
    assert_eq!(page1.current_page, 1);
    let got: Vec<u128> = page1.posts.iter().map(|p| p.id).collect();
    assert_eq!(got, ids[0..10].to_vec());

    let page3 = posts.list_posts(1, 3, 10, None).unwrap();
    assert_eq!(page3.posts.len(), 5);
    let got: Vec<u128> = page3.posts.iter().map(|p| p.id).collect();
    assert_eq!(got, ids[20..25].to_vec());

    let page4 = posts.list_posts(1, 4, 10, None).unwrap();
    assert!(page4.posts.is_empty());
    assert_eq!(page4.total_pages, 3);
}

#[test]
fn walking_pages_until_none_remain_visits_every_post_once() {
    let mut posts = service_with_author(1);
    let ids = fill(&mut posts, 1, 25);

    let mut seen: Vec<u128> = Vec::new();
    let mut page: u32 = 1;
    loop {
        let listing = posts.list_posts(1, page, 10, None).unwrap();
        seen.extend(listing.posts.iter().map(|p| p.id));
        if listing.total_pages > page {
            page += 1;
        } else {
            break;
        }
    }
    assert_eq!(seen, ids);
}

#[test]
fn listing_filters_by_status() {
    let mut posts = service_with_author(1);
    let ids = fill(&mut posts, 1, 3);
    posts.set_publish_date(ids[1], 100).unwrap();
    posts.publish_now(ids[2], 200).unwrap();

    let drafts = posts.list_posts(1, 1, 10, Some(Status::Draft)).unwrap();
    assert_eq!(drafts.total_count, 1);
    assert_eq!(drafts.posts[0].id, ids[0]);

    let pending = posts.list_posts(1, 1, 10, Some(Status::Pending)).unwrap();
    assert_eq!(pending.total_count, 1);
    assert_eq!(pending.posts[0].id, ids[1]);

    let published = posts.list_posts(1, 1, 10, Some(Status::Published)).unwrap();
    assert_eq!(published.total_count, 1);
    assert_eq!(published.posts[0].id, ids[2]);

    let abandoned = posts.list_posts(1, 1, 10, Some(Status::Abandoned)).unwrap();
    assert_eq!(abandoned.total_count, 0);
    assert_eq!(abandoned.total_pages, 0);
}

#[test]
fn listing_rejects_bad_parameters_and_unknown_authors() {
    let posts = service_with_author(1);
    assert_eq!(
        posts.list_posts(-1, 1, 10, None).err(),
        Some(AppError::InvalidArgument)
    );
    assert_eq!(posts.list_posts(9, 1, 10, None).err(), Some(AppError::NotFound));
    assert_eq!(
        posts.list_posts(1, 0, 10, None).err(),
        Some(AppError::InvalidArgument)
    );
    assert_eq!(
        posts.list_posts(1, 1, 9, None).err(),
        Some(AppError::InvalidArgument)
    );
    assert_eq!(
        posts.list_posts(1, 1, 101, None).err(),
        Some(AppError::InvalidArgument)
    );
}
