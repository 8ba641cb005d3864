//! The conversational intake state machine.
//!
//! One session per chat identity collects a title, then content, then an
//! optional media attachment, and on completion asks the backend to create
//! a draft; a parallel path collects a publish date for an existing post.
//! Each state accepts only its expected message shape: mismatched input is
//! silently ignored, cancellation returns to idle from every state, and a
//! guest is turned away without touching the session state.

use vstd::prelude::*;

use crate::access::can_mutate;
use crate::datetime::{spec_to_utc, to_utc};
use crate::user::Role;

verus! {

/// The per-session dialogue position.
#[derive(Debug, PartialEq)]
pub enum State {
    /// Idle: no intake under way.
    Start,
    /// Waiting for the post's title.
    TitleReceive,
    /// Waiting for the post's content.
    ContentReceive { title: String },
    /// Waiting for an optional media attachment.
    MediaReceive { title: String, content: String },
    /// Waiting for the scheduling text of an existing post.
    PublishDateReceive { post_id: u128 },
}

impl Clone for State {
    /// A copy of the session position, equal to the original.
    fn clone(&self) -> (res: Self)
        ensures
            res == *self,
    {
        match self {
            State::Start => State::Start,
            State::TitleReceive => State::TitleReceive,
            State::ContentReceive { title } => State::ContentReceive { title: title.clone() },
            State::MediaReceive { title, content } => State::MediaReceive {
                title: title.clone(),
                content: content.clone(),
            },
            State::PublishDateReceive { post_id } => State::PublishDateReceive {
                post_id: *post_id,
            },
        }
    }
}

impl Default for State {
    /// A fresh session is idle.
    fn default() -> (r: Self)
        ensures
            r is Start,
    {
        State::Start
    }
}

/// One inbound update, reduced to plain values by the transport.
#[derive(Debug, PartialEq)]
pub enum Event {
    /// The create-post command was chosen.
    CreateCommand,
    /// Scheduling was chosen from a post's action menu.
    ScheduleSelected { post_id: u128 },
    /// The explicit cancel signal.
    Cancel,
    /// A plain text message.
    Text(String),
    /// A message carrying a photo, by its chat file reference.
    Photo(String),
    /// A message carrying a video, by its chat file reference.
    Video(String),
}

/// What the driver should do after a step.
#[derive(Debug, PartialEq)]
pub enum Effect {
    /// Ignored input: wait for a better message.
    Ignore,
    /// Access denied: answer so, leave the session as it was.
    Denied,
    /// Ask for the title.
    PromptTitle,
    /// Ask for the content.
    PromptContent,
    /// Ask for media, or any text to save without media.
    PromptMedia,
    /// Create the draft through the backend.
    CreateDraft {
        title: String,
        content: String,
        tg_photo_file_id: Option<String>,
        tg_video_file_id: Option<String>,
    },
    /// Ask for the scheduling text.
    PromptDate,
    /// Schedule the post through the backend.
    Schedule { post_id: u128, publish_datetime: i64 },
    /// Malformed scheduling text: report it, keep waiting.
    InvalidDate,
    /// The intake was cancelled and every collected field discarded.
    Cancelled,
}

/// The complete transition table: from a state, a caller's role and an
/// event to the next state and the driver's task.
pub open spec fn spec_advance(state: State, role: Role, event: Event) -> (State, Effect) {
    if event is Cancel {
        (State::Start, Effect::Cancelled)
    } else if !can_mutate(role) {
        (state, Effect::Denied)
    } else {
        match event {
            Event::CreateCommand => (State::TitleReceive, Effect::PromptTitle),
            Event::ScheduleSelected { post_id } => (
                State::PublishDateReceive { post_id },
                Effect::PromptDate,
            ),
            Event::Text(text) => match state {
                State::TitleReceive => (
                    State::ContentReceive { title: text },
                    Effect::PromptContent,
                ),
                State::ContentReceive { title } => (
                    State::MediaReceive { title, content: text },
                    Effect::PromptMedia,
                ),
                State::MediaReceive { title, content } => (
                    State::Start,
                    Effect::CreateDraft {
                        title,
                        content,
                        tg_photo_file_id: None,
                        tg_video_file_id: None,
                    },
                ),
                State::PublishDateReceive { post_id } => match spec_to_utc(text@) {
                    Some(t) => (
                        State::Start,
                        Effect::Schedule { post_id, publish_datetime: t as i64 },
                    ),
                    None => (State::PublishDateReceive { post_id }, Effect::InvalidDate),
                },
                State::Start => (State::Start, Effect::Ignore),
            },
            Event::Photo(file_id) => match state {
                State::MediaReceive { title, content } => (
                    State::Start,
                    Effect::CreateDraft {
                        title,
                        content,
                        tg_photo_file_id: Some(file_id),
                        tg_video_file_id: None,
                    },
                ),
                _ => (state, Effect::Ignore),
            },
            Event::Video(file_id) => match state {
                State::MediaReceive { title, content } => (
                    State::Start,
                    Effect::CreateDraft {
                        title,
                        content,
                        tg_photo_file_id: None,
                        tg_video_file_id: Some(file_id),
                    },
                ),
                _ => (state, Effect::Ignore),
            },
            Event::Cancel => (State::Start, Effect::Cancelled),
        }
    }
}

/// Advances one session by one inbound event.
pub fn advance(state: State, role: Role, event: Event) -> (r: (State, Effect))
    ensures
        r == spec_advance(state, role, event),
{
    if let Event::Cancel = event {
        return (State::Start, Effect::Cancelled);
    }
    if let Role::Guest = role {
        return (state, Effect::Denied);
    }
    match event {
        Event::CreateCommand => (State::TitleReceive, Effect::PromptTitle),
        Event::ScheduleSelected { post_id } => (
            State::PublishDateReceive { post_id },
            Effect::PromptDate,
        ),
        Event::Text(text) => match state {
            State::TitleReceive => (State::ContentReceive { title: text }, Effect::PromptContent),
            State::ContentReceive { title } => (
                State::MediaReceive { title, content: text },
                Effect::PromptMedia,
            ),
            State::MediaReceive { title, content } => (
                State::Start,
                Effect::CreateDraft {
                    title,
                    content,
                    tg_photo_file_id: None,
                    tg_video_file_id: None,
                },
            ),
            State::PublishDateReceive { post_id } => match to_utc(text.as_str()) {
                Ok(t) => (State::Start, Effect::Schedule { post_id, publish_datetime: t }),
                Err(_) => (State::PublishDateReceive { post_id }, Effect::InvalidDate),
            },
            State::Start => (State::Start, Effect::Ignore),
        },
        Event::Photo(file_id) => match state {
            State::MediaReceive { title, content } => (
                State::Start,
                Effect::CreateDraft {
                    title,
                    content,
                    tg_photo_file_id: Some(file_id),
                    tg_video_file_id: None,
                },
            ),
            other => (other, Effect::Ignore),
        },
        Event::Video(file_id) => match state {
            State::MediaReceive { title, content } => (
                State::Start,
                Effect::CreateDraft {
                    title,
                    content,
                    tg_photo_file_id: None,
                    tg_video_file_id: Some(file_id),
                },
            ),
            other => (other, Effect::Ignore),
        },
        Event::Cancel => (State::Start, Effect::Cancelled),
    }
}

/// A guest never moves the session: whatever the state and the event, the
/// state after a guest's step is the state before it, except through the
/// cancel signal, which anyone may use.
pub proof fn lemma_guest_cannot_advance(state: State, event: Event)
    requires
        !(event is Cancel),
    ensures
        spec_advance(state, Role::Guest, event).0 == state,
        spec_advance(state, Role::Guest, event).1 is Denied,
{
}

/// Cancellation is unconditional: from every state, whatever the role, the
/// cancel signal returns the session to idle and discards what was
/// collected.
pub proof fn lemma_cancel_resets(state: State, role: Role)
    ensures
        spec_advance(state, role, Event::Cancel).0 is Start,
        spec_advance(state, role, Event::Cancel).1 is Cancelled,
{
}

} // verus!
