use smmaster::dialogue::{advance, Effect, Event, State};
use smmaster::post::Status;
use smmaster::publisher::{due_post_ids, publish_due, ChannelMedia};
use smmaster::server::posts::AppPostService;
use smmaster::server::users::AppUsersService;
use smmaster::storage::Storage;
use smmaster::user::Role;

/// 2025-01-01 09:00 in the fixed +03:00 offset, as a UTC epoch instant.
const SCHEDULED_INSTANT: i64 = 1_735_711_200;

#[test]
fn editor_creates_schedules_and_the_scheduler_publishes() {
    // an admin exists; user A registers and is promoted to editor
    let mut users = AppUsersService::new(Storage::new());
    users
        .register_user(1, String::from("Root"), None, None, None, 0)
        .unwrap();
    users
        .register_user(2, String::from("A"), None, None, None, 5)
        .unwrap();
    users.make_editor(2).unwrap();
    let role = users.get_user(2).map(|u| u.role).unwrap_or(Role::Guest);
    assert_eq!(role, Role::Editor);

    // the conversational intake: create post, title, content, photo
    let (state, effect) = advance(State::Start, role, Event::CreateCommand);
    assert_eq!(effect, Effect::PromptTitle);
    let (state, effect) = advance(state, role, Event::Text(String::from("Launch")));
    assert_eq!(effect, Effect::PromptContent);
    let (state, effect) = advance(state, role, Event::Text(String::from("We shipped v2")));
    assert_eq!(effect, Effect::PromptMedia);
    let (state, effect) = advance(state, role, Event::Photo(String::from("photo-file-1")));
    assert_eq!(state, State::Start);
    let (title, content, tg_photo, tg_video) = match effect {
        Effect::CreateDraft {
            title,
            content,
            tg_photo_file_id,
            tg_video_file_id,
        } => (title, content, tg_photo_file_id, tg_video_file_id),
        other => panic!("expected a draft creation, got {other:?}"),
    };

    // the backend writes the draft
    let mut posts = AppPostService::new(users.db);
    let created = posts
        .create_post(2, title, content, tg_photo, None, tg_video, None, None, 100)
        .unwrap();
    assert_eq!(created.title, "Launch");
    assert_eq!(created.content, "We shipped v2");
    assert_eq!(created.status, Status::Draft);
    assert_eq!(created.tg_photo_file_id, Some(String::from("photo-file-1")));

    // user A selects "schedule" and sends the date text
    let (state, effect) = advance(
        State::Start,
        role,
        Event::ScheduleSelected { post_id: created.id },
    );
    assert_eq!(effect, Effect::PromptDate);
    let (state, effect) = advance(state, role, Event::Text(String::from("2025-01-01 09:00")));
    assert_eq!(state, State::Start);
    let (post_id, when) = match effect {
        Effect::Schedule {
            post_id,
            publish_datetime,
        } => (post_id, publish_datetime),
        other => panic!("expected a scheduling, got {other:?}"),
    };
    assert_eq!(post_id, created.id);
    assert_eq!(when, SCHEDULED_INSTANT);

    let scheduled = posts.set_publish_date(post_id, when).unwrap();
    assert_eq!(scheduled.status, Status::Pending);
    assert_eq!(scheduled.publish_datetime, Some(SCHEDULED_INSTANT));

    // before the instant, no cycle selects it
    assert!(due_post_ids(&posts, SCHEDULED_INSTANT - 1).is_empty());

    // at the instant, one cycle publishes it and both channels get the photo
    let due = due_post_ids(&posts, SCHEDULED_INSTANT);
    assert_eq!(due, vec![post_id]);
    let job = publish_due(&mut posts, post_id, SCHEDULED_INSTANT).unwrap();
    assert_eq!(job.post.status, Status::Published);
    assert_eq!(job.post.content, "We shipped v2");
    assert_eq!(job.tg, ChannelMedia::Photo(String::from("photo-file-1")));
    assert_eq!(job.vk, ChannelMedia::Text); // no social-network reference was attached
    assert_eq!(posts.get_post(post_id).unwrap().status, Status::Published);
}

#[test]
fn guest_is_denied_and_session_state_is_unchanged() {
    let state = State::ContentReceive {
        title: String::from("t"),
    };
    let (after, effect) = advance(state.clone(), Role::Guest, Event::Text(String::from("c")));
    assert_eq!(after, state);
    assert_eq!(effect, Effect::Denied);

    let (after, effect) = advance(state, Role::Guest, Event::CreateCommand);
    assert_eq!(
        after,
        State::ContentReceive {
            title: String::from("t")
        }
    );
    assert_eq!(effect, Effect::Denied);
}

#[test]
fn cancel_returns_to_idle_from_every_state() {
    let states = vec![
        State::Start,
        State::TitleReceive,
        State::ContentReceive {
            title: String::from("t"),
        },
        State::MediaReceive {
            title: String::from("t"),
            content: String::from("c"),
        },
        State::PublishDateReceive { post_id: 9 },
    ];
    for state in states {
        for role in [Role::Guest, Role::Editor, Role::Admin] {
            let (after, effect) = advance(state.clone(), role, Event::Cancel);
            assert_eq!(after, State::Start);
            assert_eq!(effect, Effect::Cancelled);
        }
    }
}

#[test]
fn mismatched_input_is_silently_ignored() {
    let (after, effect) = advance(
        State::TitleReceive,
        Role::Editor,
        Event::Photo(String::from("p")),
    );
    assert_eq!(after, State::TitleReceive);
    assert_eq!(effect, Effect::Ignore);

    let (after, effect) = advance(State::Start, Role::Editor, Event::Text(String::from("hi")));
    assert_eq!(after, State::Start);
    assert_eq!(effect, Effect::Ignore);
}

#[test]
fn malformed_date_keeps_waiting() {
    let state = State::PublishDateReceive { post_id: 4 };
    let (after, effect) = advance(
        state.clone(),
        Role::Editor,
        Event::Text(String::from("tomorrow")),
    );
    assert_eq!(after, state);
    assert_eq!(effect, Effect::InvalidDate);
}

#[test]
fn saving_without_media_uses_any_text() {
    let state = State::MediaReceive {
        title: String::from("t"),
        content: String::from("c"),
    };
    let (after, effect) = advance(state, Role::Editor, Event::Text(String::from("skip")));
    assert_eq!(after, State::Start);
    assert_eq!(
        effect,
        Effect::CreateDraft {
            title: String::from("t"),
            content: String::from("c"),
            tg_photo_file_id: None,
            tg_video_file_id: None,
        }
    );
}

#[test]
fn video_message_attaches_the_video_reference() {
    let state = State::MediaReceive {
        title: String::from("t"),
        content: String::from("c"),
    };
    let (_, effect) = advance(state, Role::Editor, Event::Video(String::from("vid-9")));
    assert_eq!(
        effect,
        Effect::CreateDraft {
            title: String::from("t"),
            content: String::from("c"),
            tg_photo_file_id: None,
            tg_video_file_id: Some(String::from("vid-9")),
        }
    );
}
