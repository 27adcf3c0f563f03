//! Stories: who may see one, and how reactions to it are counted.

use crate::ident::{Id, Timestamp};
use crate::text::str_eq;
use vstd::prelude::*;

verus! {

/// A story: one piece of media shown for a limited time.
#[derive(Debug, Clone)]
pub struct Story {
    pub id: Id,
    pub user_id: Id,
    pub user_handle: Option<String>,
    pub user_display_name: Option<String>,
    pub user_avatar_key: Option<String>,
    pub user_avatar_url: Option<String>,
    pub media_id: Id,
    pub caption: Option<String>,
    pub created_at: Timestamp,
    pub expires_at: Timestamp,
    pub visibility: StoryVisibility,
    pub view_count: i32,
    pub reaction_count: i32,
}

/// Who may see a story.
#[derive(Debug, Clone, Copy, PartialEq, Eq, Structural)]
pub enum StoryVisibility {
    Public,
    FriendsOnly,
    CloseFriendsOnly,
}

/// How often one emoji was used in reaction to a story.
#[derive(Debug, Clone)]
pub struct EmojiCount {
    pub emoji: String,
    pub count: i64,
}

/// One user's reaction to a story.
#[derive(Debug, Clone)]
pub struct StoryReaction {
    pub id: Id,
    pub story_id: Id,
    pub user_id: Id,
    pub user_handle: Option<String>,
    pub emoji: String,
    pub created_at: Timestamp,
}

/// That a user has seen a story, and when.
#[derive(Debug, Clone)]
pub struct StoryView {
    pub viewer_id: Id,
    pub viewer_handle: Option<String>,
    pub viewer_display_name: Option<String>,
    pub viewer_avatar_key: Option<String>,
    pub viewer_avatar_url: Option<String>,
    pub viewed_at: Timestamp,
}

/// A named collection of stories that a user keeps.
#[derive(Debug, Clone)]
pub struct StoryHighlight {
    pub id: Id,
    pub user_id: Id,
    pub name: String,
    pub cover_story_id: Option<Id>,
    pub created_at: Timestamp,
    pub updated_at: Timestamp,
}

/// How a story was received.
#[derive(Debug, Clone)]
pub struct StoryMetrics {
    pub story_id: Id,
    pub view_count: i32,
    pub reaction_count: i32,
    pub reactions_by_emoji: Vec<EmojiCount>,
    pub viewer_ids: Vec<Id>,
}

impl StoryVisibility {
    /// The name under which this visibility is stored.
    pub open spec fn db_name(self) -> Seq<char> {
        match self {
            StoryVisibility::Public => "public"@,
            StoryVisibility::FriendsOnly => "friends_only"@,
            StoryVisibility::CloseFriendsOnly => "close_friends_only"@,
        }
    }

    /// The visibility that a stored name stands for, if it is one of the three names.
    pub open spec fn parse(value: Seq<char>) -> Option<StoryVisibility> {
        if value == "public"@ {
            Some(StoryVisibility::Public)
        } else if value == "friends_only"@ {
            Some(StoryVisibility::FriendsOnly)
        } else if value == "close_friends_only"@ {
            Some(StoryVisibility::CloseFriendsOnly)
        } else {
            None
        }
    }

    /// Reads a stored name; any other text gives `None`.
    pub fn from_db(value: &str) -> (visibility: Option<Self>)
        ensures
            visibility == Self::parse(value@),
    {
        if str_eq(value, "public") {
            Some(StoryVisibility::Public)
        } else if str_eq(value, "friends_only") {
            Some(StoryVisibility::FriendsOnly)
        } else if str_eq(value, "close_friends_only") {
            Some(StoryVisibility::CloseFriendsOnly)
        } else {
            None
        }
    }

    /// The name under which this visibility is stored.
    pub fn as_db(&self) -> (name: &'static str)
        ensures
            name@ == self.db_name(),
    {
        match self {
            StoryVisibility::Public => "public",
            StoryVisibility::FriendsOnly => "friends_only",
            StoryVisibility::CloseFriendsOnly => "close_friends_only",
        }
    }

    /// Reading back the stored name of a visibility gives that visibility.
    pub proof fn stored_name_reads_back(self)
        ensures
            Self::parse(self.db_name()) == Some(self),
    {
        reveal_strlit("public");
        reveal_strlit("friends_only");
        reveal_strlit("close_friends_only");
        assert("public"@.len() == 6);
        assert("friends_only"@.len() == 12);
        assert("close_friends_only"@.len() == 18);
    }
}

} // verus!
