//! Uploaded media.

use crate::ident::{Id, Timestamp};
use vstd::prelude::*;

verus! {

/// An uploaded image in its three sizes.
#[derive(Debug, Clone)]
pub struct Media {
    pub id: Id,
    pub owner_id: Id,
    pub original_key: String,
    pub thumb_key: String,
    pub medium_key: String,
    pub width: i32,
    pub height: i32,
    pub bytes: i64,
    pub created_at: Timestamp,
    pub thumb_url: Option<String>,
    pub medium_url: Option<String>,
    pub original_url: Option<String>,
}

} // verus!
