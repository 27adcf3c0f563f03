//! The records of the application's domain.

pub mod engagement;
pub mod media;
pub mod notification;
pub mod story;
pub mod user;
