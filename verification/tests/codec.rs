use smmaster::callback::{page_nav, MyCallback, PageNav};
use smmaster::commands::Command;
use smmaster::datetime::{moscow, to_utc};
use smmaster::errors::AppError;
use smmaster::post::Status;
use smmaster::text_commands::TextCommand;

fn round_trip(cb: MyCallback) {
    let payload = cb.data();
    let back = MyCallback::from_str(payload.as_str()).expect("payload should decode");
    assert_eq!(back, cb);
}

#[test]
fn every_callback_round_trips() {
    round_trip(MyCallback::Cancel);
    round_trip(MyCallback::MakeUserEditor { id: 123 });
    round_trip(MyCallback::MakeUserGuest { id: 0 });
    round_trip(MyCallback::DeleteUser { id: -7 });
    round_trip(MyCallback::PublishNow { id: 340_282_366_920_938_463_463_374_607_431_768_211_455 });
    round_trip(MyCallback::DeletePost { id: 1 });
    round_trip(MyCallback::SetPublishDate { id: 42 });
    round_trip(MyCallback::Drafts { author_id: 55 });
    round_trip(MyCallback::Pending { author_id: i64::MIN });
    round_trip(MyCallback::Published { author_id: i64::MAX });
    round_trip(MyCallback::PostsNextPage {
        author_id: 9,
        status: Status::Draft,
        page: 2,
    });
    round_trip(MyCallback::PostsPreviousPage {
        author_id: -3,
        status: Status::Published,
        page: u32::MAX,
    });
}

#[test]
fn payloads_have_the_documented_shape() {
    assert_eq!(MyCallback::Cancel.data(), "ca");
    assert_eq!(MyCallback::MakeUserEditor { id: 12 }.data(), "me:12");
    assert_eq!(MyCallback::DeleteUser { id: -4 }.data(), "du:-4");
    assert_eq!(
        MyCallback::PostsNextPage {
            author_id: 7,
            status: Status::Pending,
            page: 3
        }
        .data(),
        "nx:7:1:3"
    );
}

#[test]
fn garbage_payloads_are_rejected() {
    for bad in [
        "", "c", "cax", "zz:1", "me:", "me:abc", "me:1:2", "nx:7", "nx:7:1", "nx:7:9:3",
        "nx:7:1:3:4", "nx::1:3", "pn:-3", "nx:7:1:4294967296",
    ] {
        assert_eq!(
            MyCallback::from_str(bad).err(),
            Some(AppError::InvalidArgument),
            "payload {bad:?} should be rejected"
        );
    }
}

#[test]
fn text_commands_round_trip() {
    for c in [
        TextCommand::Users,
        TextCommand::CreatePost,
        TextCommand::Drafts,
        TextCommand::Pending,
        TextCommand::Published,
        TextCommand::RequestAccess,
    ] {
        assert_eq!(TextCommand::from_str(c.label()).unwrap(), c);
    }
    assert_eq!(
        TextCommand::from_str("not a command").err(),
        Some(AppError::InvalidArgument)
    );
}

#[test]
fn slash_commands_round_trip() {
    for c in [Command::Help, Command::Start] {
        assert_eq!(Command::from_str(c.text()).unwrap(), c);
    }
    assert_eq!(Command::from_str("/stop").err(), Some(AppError::InvalidArgument));
}

#[test]
fn scheduling_text_reads_in_the_fixed_offset() {
    // 2025-01-01 09:00 +03:00 is 06:00 UTC
    assert_eq!(to_utc("2025-01-01 09:00"), Ok(1_735_711_200));
    // the epoch instant itself, shifted by the offset
    assert_eq!(to_utc("1970-01-01 03:00"), Ok(0));
    // a leap day: 2024-02-29 00:00 +03:00 is 2024-02-28 21:00 UTC
    assert_eq!(to_utc("2024-02-29 00:00"), Ok(1_709_154_000));
}

#[test]
fn malformed_scheduling_text_is_rejected() {
    for bad in [
        "", "2025-01-01", "2025-01-01 09:00:00", "2025-13-01 09:00", "2025-00-10 09:00",
        "2025-02-30 09:00", "2023-02-29 09:00", "2025-01-01 24:00", "2025-01-01 09:60",
        "1969-12-31 09:00", "2025/01/01 09:00", "yyyy-mm-dd hh:mm",
    ] {
        assert_eq!(
            to_utc(bad).err(),
            Some(AppError::InvalidArgument),
            "text {bad:?} should be rejected"
        );
    }
}

#[test]
fn instants_render_in_the_fixed_offset() {
    assert_eq!(moscow(1_735_711_200), "01-01-2025 09:00:00");
    assert_eq!(moscow(0), "01-01-1970 03:00:00");
    // 2024-02-29 12:34:56 +03:00
    let ts = to_utc("2024-02-29 12:34").unwrap() + 56;
    assert_eq!(moscow(ts), "29-02-2024 12:34:56");
}

#[test]
fn page_navigation_follows_position_and_remainder() {
    assert_eq!(page_nav(1, false), PageNav::CancelOnly);
    assert_eq!(page_nav(1, true), PageNav::NextOnly { next: 2 });
    assert_eq!(page_nav(5, true), PageNav::PrevAndNext { prev: 4, next: 6 });
    assert_eq!(page_nav(5, false), PageNav::PrevOnly { prev: 4 });
}
