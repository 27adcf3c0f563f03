//! The user record.

use crate::ident::{Id, Timestamp};
use vstd::prelude::*;

verus! {

/// A user of the application.
#[derive(Debug, Clone)]
pub struct User {
    pub id: Id,
    pub handle: String,
    pub email: String,
    pub display_name: String,
    pub bio: Option<String>,
    pub avatar_key: Option<String>,
    pub created_at: Timestamp,
}

/// A user as contracts speak of one.
pub ghost struct UserView {
    pub id: Id,
    pub handle: Seq<char>,
    pub email: Seq<char>,
    pub display_name: Seq<char>,
    pub bio: Option<Seq<char>>,
    pub avatar_key: Option<Seq<char>>,
    pub created_at: Timestamp,
}

/// The characters of a text that may be absent.
pub open spec fn optional_text(text: Option<String>) -> Option<Seq<char>> {
    match text {
        Some(text) => Some(text@),
        None => None,
    }
}

impl View for User {
    type V = UserView;

    open spec fn view(&self) -> UserView {
        UserView {
            id: self.id,
            handle: self.handle@,
            email: self.email@,
            display_name: self.display_name@,
            bio: optional_text(self.bio),
            avatar_key: optional_text(self.avatar_key),
            created_at: self.created_at,
        }
    }
}

} // verus!
