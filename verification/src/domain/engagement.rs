//! Likes and comments on posts.

use crate::ident::{Id, Timestamp};
use vstd::prelude::*;

verus! {

/// One user's like of one post.
#[derive(Debug, Clone)]
pub struct Like {
    pub id: Id,
    pub user_id: Id,
    pub post_id: Id,
    pub created_at: Timestamp,
}

/// One user's comment on one post.
#[derive(Debug, Clone)]
pub struct Comment {
    pub id: Id,
    pub user_id: Id,
    pub post_id: Id,
    pub body: String,
    pub created_at: Timestamp,
}

} // verus!
