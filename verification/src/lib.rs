//! A small team's multi-channel post publishing library.
//!
//! Posts are drafted through a conversational intake state machine, stored
//! with their lifecycle status, scheduled for a future instant, and handed
//! to a publish coordinator that dispatches them to two outbound channels.
//! Every piece of decision logic in this crate carries a verified contract.
//!
//! The layout, leaves first: [`errors`] is the failure taxonomy, [`text`]
//! and [`digits`] small string and decimal helpers, [`datetime`] the civil
//! calendar of the fixed offset. [`post`] and [`user`] are the two record
//! types with their builders and validation; [`pagination`] the shared
//! paging rules; [`storage`] the two keyed collections over them.
//! [`access`] is the role gate, [`server`] the backend operations,
//! [`publisher`] the scheduler's due-publish path with its partial-failure
//! policy, [`dialogue`] the intake state machine, and [`callback`],
//! [`commands`], [`text_commands`] and [`messages`] the command surface.
//! [`vk`] holds the social network's response shapes and reference
//! building.
#![verifier::loop_isolation(false)]

pub mod access;
pub mod callback;
pub mod commands;
pub mod datetime;
pub mod dialogue;
pub mod digits;
pub mod errors;
mod ids;
pub mod messages;
pub mod pagination;
pub mod post;
pub mod publisher;
pub mod server;
pub mod storage;
pub mod text;
pub mod text_commands;
pub mod user;
pub mod vk;
