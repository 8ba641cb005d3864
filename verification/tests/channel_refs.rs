use smmaster::access::check_auth;
use smmaster::errors::AppError;
use smmaster::messages::{post_message_text, user_card_text, user_display_name};
use smmaster::post::{Post, Status};
use smmaster::user::{Role, User};
use smmaster::vk::{
    first_album_id, last_saved_photo_ref, photo_attachment_ref, uploaded_video_ref,
    video_attachment_ref, Album, AlbumsResponse, ApiResponse, OrigPhoto, SavePhotoResponse,
    UploadedVideoResponse,
};

fn album(id: i64) -> Album {
    Album {
        id,
        owner_id: 0,
        size: 0,
        title: String::new(),
        feed_disabled: 0,
        feed_has_pinned: 0,
        can_upload: 1,
        comments_disabled: 0,
        created: 0,
        description: String::new(),
        can_delete: false,
        can_include_to_feed: true,
        thumb_id: 0,
        thumb_is_last: 0,
        updated: 0,
        upload_by_admins_only: 0,
    }
}

fn saved(id: i64) -> SavePhotoResponse {
    SavePhotoResponse {
        album_id: 0,
        date: 0,
        id,
        owner_id: 0,
        sizes: Vec::new(),
        text: String::new(),
        user_id: 0,
        web_view_token: String::new(),
        has_tags: false,
        orig_photo: OrigPhoto {
            height: 0,
            type_field: String::new(),
            url: String::new(),
            width: 0,
        },
    }
}

#[test]
fn attachment_references_have_the_wall_format() {
    assert_eq!(photo_attachment_ref(123, 456), "photo-123_456");
    assert_eq!(video_attachment_ref(7, 8), "video-7_8");
    assert_eq!(photo_attachment_ref(-55, 9), "photo--55_9");
}

#[test]
fn first_album_is_the_upload_target() {
    let albums = AlbumsResponse {
        count: 2,
        items: vec![album(31), album(99)],
    };
    assert_eq!(first_album_id(&albums), Ok(31));

    let none = AlbumsResponse {
        count: 0,
        items: Vec::new(),
    };
    assert_eq!(first_album_id(&none), Err(AppError::Internal));
}

#[test]
fn the_last_saved_photo_becomes_the_reference() {
    let resp = ApiResponse {
        response: vec![saved(5), saved(6)],
    };
    assert_eq!(last_saved_photo_ref(77, &resp).unwrap(), "photo-77_6");

    let empty: ApiResponse<Vec<SavePhotoResponse>> = ApiResponse {
        response: Vec::new(),
    };
    assert_eq!(last_saved_photo_ref(77, &empty).err(), Some(AppError::Internal));
}

#[test]
fn uploaded_video_becomes_the_reference() {
    let resp = UploadedVideoResponse {
        video_hash: String::new(),
        size: 0,
        direct_link: String::new(),
        owner_id: 0,
        video_id: 321,
    };
    assert_eq!(uploaded_video_ref(9, &resp), "video-9_321");
}

fn sample_post(status: Status, publish_datetime: Option<i64>) -> Post {
    Post {
        id: 1,
        title: String::from("Launch"),
        content: String::from("We shipped v2"),
        tg_photo_file_id: None,
        vk_photo_file_id: None,
        tg_video_file_id: None,
        vk_video_file_id: None,
        status,
        created_at: 0,
        publish_datetime,
        author_id: 2,
    }
}

#[test]
fn post_card_text_follows_the_status() {
    let draft = sample_post(Status::Draft, None);
    assert_eq!(post_message_text(&draft), "Launch\nWe shipped v2");

    let pending = sample_post(Status::Pending, Some(1_735_711_200));
    assert_eq!(
        post_message_text(&pending),
        "Launch\nWe shipped v2\nPublish at: 01-01-2025 09:00:00"
    );

    let published = sample_post(Status::Published, Some(0));
    assert_eq!(
        post_message_text(&published),
        "Launch\nWe shipped v2\nPublished at: 01-01-1970 03:00:00"
    );
}

#[test]
fn user_cards_show_name_and_role() {
    let u = User {
        id: 1,
        telegram_id: 2,
        first_name: String::from("Alice"),
        last_name: Some(String::from("Smith")),
        username: None,
        language_code: None,
        role: Role::Editor,
        created_at: 0,
        updated_at: 0,
        last_activity: 0,
    };
    assert_eq!(user_display_name(&u), "Alice Smith");
    assert_eq!(user_card_text(&u), "Alice Smith: Editor");

    let bare = User {
        last_name: None,
        role: Role::Guest,
        ..u
    };
    assert_eq!(user_card_text(&bare), "Alice: Guest");
}

#[test]
fn bearer_credential_gates_requests() {
    assert_eq!(check_auth(Some("Bearer token-1"), "Bearer token-1"), Ok(()));
    assert_eq!(
        check_auth(Some("Bearer other"), "Bearer token-1").err(),
        Some(AppError::Unauthenticated)
    );
    assert_eq!(
        check_auth(None, "Bearer token-1").err(),
        Some(AppError::Unauthenticated)
    );
}
