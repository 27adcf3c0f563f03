use notification_feed::domain::story::StoryVisibility;

#[test]
fn stored_names_are_read() {
    assert_eq!(StoryVisibility::from_db("public"), Some(StoryVisibility::Public));
    assert_eq!(StoryVisibility::from_db("friends_only"), Some(StoryVisibility::FriendsOnly));
    assert_eq!(
        StoryVisibility::from_db("close_friends_only"),
        Some(StoryVisibility::CloseFriendsOnly)
    );
}

#[test]
fn other_texts_are_not_read() {
    assert_eq!(StoryVisibility::from_db(""), None);
    assert_eq!(StoryVisibility::from_db("Public"), None);
    assert_eq!(StoryVisibility::from_db("public "), None);
    assert_eq!(StoryVisibility::from_db("friends"), None);
    assert_eq!(StoryVisibility::from_db("close_friends_only_"), None);
}

#[test]
fn visibilities_are_stored_by_name() {
    assert_eq!(StoryVisibility::Public.as_db(), "public");
    assert_eq!(StoryVisibility::FriendsOnly.as_db(), "friends_only");
    assert_eq!(StoryVisibility::CloseFriendsOnly.as_db(), "close_friends_only");
}

#[test]
fn stored_name_reads_back() {
    for visibility in [
        StoryVisibility::Public,
        StoryVisibility::FriendsOnly,
        StoryVisibility::CloseFriendsOnly,
    ] {
        assert_eq!(StoryVisibility::from_db(visibility.as_db()), Some(visibility));
    }
}
