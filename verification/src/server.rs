//! The backend services: the operations every front end goes through.

pub mod posts;
pub mod users;
