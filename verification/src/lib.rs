//! A feed of user notifications: creation with actor enrichment, keyset
//! pagination that stays stable while new notifications arrive, and the
//! one-way transition from unread to read.

pub mod domain;
pub mod http;
pub mod ident;
pub mod infra;
pub mod json;
pub mod notifications;
pub mod paging;
pub mod text;
