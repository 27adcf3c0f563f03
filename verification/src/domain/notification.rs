//! The notification record.

use crate::ident::{Id, Timestamp};
use crate::json::copy_value;
use crate::paging::{after_cursor, comes_before};
use serde_json::Value;
use vstd::prelude::*;

verus! {

/// One notification for one user.
#[derive(Debug)]
pub struct Notification {
    /// Unique among all notifications; never changes.
    pub id: Id,
    /// The user whom the notification is for.
    pub user_id: Id,
    /// The kind of event, such as `like`, `comment` or `follow`.
    pub notification_type: String,
    /// What the event was about; its shape depends on the kind.
    pub payload: Value,
    /// When the user read it; `None` while unread.
    pub read_at: Option<Timestamp>,
    /// When it was stored.
    pub created_at: Timestamp,
}

/// A notification as contracts speak of it.
pub ghost struct NotificationView {
    pub id: Id,
    pub user_id: Id,
    pub notification_type: Seq<char>,
    pub payload: Value,
    pub read_at: Option<Timestamp>,
    pub created_at: Timestamp,
}

impl View for Notification {
    type V = NotificationView;

    open spec fn view(&self) -> NotificationView {
        NotificationView {
            id: self.id,
            user_id: self.user_id,
            notification_type: self.notification_type@,
            payload: self.payload,
            read_at: self.read_at,
            created_at: self.created_at,
        }
    }
}

/// The notifications of a list as contracts speak of them.
pub open spec fn views(rows: Seq<Notification>) -> Seq<NotificationView> {
    Seq::new(rows.len(), |i: int| rows[i]@)
}

impl Clone for Notification {
    fn clone(&self) -> (copy: Self)
        ensures
            copy == *self,
    {
        Notification {
            id: self.id,
            user_id: self.user_id,
            notification_type: self.notification_type.clone(),
            payload: copy_value(&self.payload),
            read_at: self.read_at,
            created_at: self.created_at,
        }
    }
}

impl Notification {
    /// The position of this notification in its user's feed, by which the
    /// page after it is asked for.
    pub fn cursor(&self) -> (position: (Timestamp, Id))
        ensures
            position == (self.created_at, self.id),
    {
        (self.created_at, self.id)
    }

    /// Whether this notification stands before `other` in a feed: it is
    /// newer, or as old and has the greater identifier.
    pub fn precedes(&self, other: &Notification) -> (before: bool)
        ensures
            before == comes_before(self@, other@),
    {
        self.created_at > other.created_at || (self.created_at == other.created_at && self.id
            > other.id)
    }

    /// Whether this notification stands after the cursor's position in a
    /// feed; with no cursor every notification does.
    pub fn follows(&self, cursor: Option<(Timestamp, Id)>) -> (after: bool)
        ensures
            after == after_cursor(self@, cursor),
    {
        match cursor {
            None => true,
            Some(position) => self.created_at < position.0 || (self.created_at == position.0
                && self.id < position.1),
        }
    }
}

} // verus!
