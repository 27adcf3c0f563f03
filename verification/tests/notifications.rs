use notification_feed::domain::notification::Notification;
use notification_feed::domain::user::User;
use notification_feed::infra::db::{Db, StoreError};
use notification_feed::notifications::{enrich, NotificationService};
use serde_json::Value;

const ALICE: u128 = 0xa1a2a3a4_b1b2_c1c2_d1d2_d3d4d5d6d7d8;
const BOB: u128 = 0x0000000b_0000_4000_8000_00000000000b;
const CAROL: u128 = 0x0000000c_0000_4000_8000_00000000000c;

fn user(id: u128, handle: &str, display_name: &str) -> User {
    User {
        id,
        handle: handle.to_string(),
        email: format!("{}@example.org", handle),
        display_name: display_name.to_string(),
        bio: None,
        avatar_key: None,
        created_at: 0,
    }
}

fn service() -> NotificationService {
    let mut db = Db::new(1);
    db.put_user(user(ALICE, "alice", "Alice A"));
    db.put_user(user(BOB, "bob", "Bob B"));
    NotificationService::new(db)
}

fn post(id: &str) -> Value {
    let mut members = serde_json::Map::new();
    members.insert("post_id".to_string(), Value::String(id.to_string()));
    Value::Object(members)
}

fn ids(page: &[Notification]) -> Vec<u128> {
    page.iter().map(|n| n.id).collect()
}

/// Five notifications for Bob, stored at the times 10, 20, 30, 40, 50 with
/// the identifiers 1 to 5.
fn five_for_bob() -> NotificationService {
    let mut svc = service();
    for step in 1..=5 {
        svc.db.set_now(step * 10);
        svc.create(BOB, "like", post("post-1")).unwrap();
    }
    svc
}

#[test]
fn self_event_writes_nothing() {
    let mut svc = service();
    assert_eq!(svc.create_if_not_self(ALICE, ALICE, "like", post("post-1")), Ok(()));
    assert_eq!(svc.create_if_not_self(CAROL, CAROL, "follow", Value::Null), Ok(()));
    assert!(svc.list(ALICE, None, 10).unwrap().is_empty());
    assert!(svc.list(CAROL, None, 10).unwrap().is_empty());
    // The sequence was not touched either: the next notification is the first.
    svc.create(ALICE, "follow", Value::Null).unwrap();
    assert_eq!(ids(&svc.list(ALICE, None, 10).unwrap()), vec![1]);
}

#[test]
fn enrichment_merges_actor_identity() {
    let mut svc = service();
    assert_eq!(svc.create_if_not_self(BOB, ALICE, "like", post("P1")), Ok(()));
    let page = svc.list(BOB, None, 10).unwrap();
    assert_eq!(page.len(), 1);
    let stored = &page[0];
    assert_eq!(stored.user_id, BOB);
    assert_eq!(stored.notification_type, "like");
    let members = stored.payload.as_object().unwrap();
    assert_eq!(members.len(), 4);
    assert_eq!(members["post_id"], Value::String("P1".to_string()));
    assert_eq!(
        members["actor_id"],
        Value::String("a1a2a3a4-b1b2-c1c2-d1d2-d3d4d5d6d7d8".to_string())
    );
    assert_eq!(members["actor_handle"], Value::String("alice".to_string()));
    assert_eq!(members["actor_display_name"], Value::String("Alice A".to_string()));
}

#[test]
fn identifier_text_is_hyphenated_lower_case() {
    let enriched = enrich(post("post-1"), 0x0123456789abcdef_fedcba9876543210, "h", "n");
    assert_eq!(
        enriched["actor_id"],
        Value::String("01234567-89ab-cdef-fedc-ba9876543210".to_string())
    );
    let smallest = enrich(post("post-1"), 0, "h", "n");
    assert_eq!(
        smallest["actor_id"],
        Value::String("00000000-0000-0000-0000-000000000000".to_string())
    );
    let greatest = enrich(post("post-1"), u128::MAX, "h", "n");
    assert_eq!(
        greatest["actor_id"],
        Value::String("ffffffff-ffff-ffff-ffff-ffffffffffff".to_string())
    );
}

#[test]
fn enrichment_replaces_members_of_the_same_name() {
    let mut members = serde_json::Map::new();
    members.insert("actor_handle".to_string(), Value::Bool(true));
    members.insert("actor_id".to_string(), Value::Null);
    members.insert("kept".to_string(), Value::Bool(false));
    let enriched = enrich(Value::Object(members), BOB, "bob", "Bob B");
    let members = enriched.as_object().unwrap();
    assert_eq!(members.len(), 4);
    assert_eq!(members["kept"], Value::Bool(false));
    assert_eq!(members["actor_handle"], Value::String("bob".to_string()));
    assert_eq!(
        members["actor_id"],
        Value::String("0000000b-0000-4000-8000-00000000000b".to_string())
    );
    assert_eq!(members["actor_display_name"], Value::String("Bob B".to_string()));
}

#[test]
fn payload_that_is_no_object_is_stored_unchanged() {
    let shapes = vec![
        Value::Null,
        Value::Bool(true),
        Value::String("plain".to_string()),
        Value::Array(vec![post("post-1")]),
        Value::Number(7.into()),
    ];
    for shape in shapes {
        assert_eq!(enrich(shape.clone(), ALICE, "alice", "Alice A"), shape);
        let mut svc = service();
        assert_eq!(svc.create_if_not_self(BOB, ALICE, "mention", shape.clone()), Ok(()));
        let page = svc.list(BOB, None, 10).unwrap();
        assert_eq!(page.len(), 1);
        assert_eq!(page[0].payload, shape);
    }
}

#[test]
fn unknown_actor_writes_nothing() {
    let mut svc = service();
    assert_eq!(svc.create_if_not_self(BOB, CAROL, "like", post("post-1")), Ok(()));
    assert!(svc.list(BOB, None, 10).unwrap().is_empty());
    svc.db.put_user(user(CAROL, "carol", "Carol C"));
    assert_eq!(svc.create_if_not_self(BOB, CAROL, "like", post("post-1")), Ok(()));
    let page = svc.list(BOB, None, 10).unwrap();
    assert_eq!(ids(&page), vec![1]);
    assert_eq!(page[0].payload["actor_handle"], Value::String("carol".to_string()));
}

#[test]
fn enrichment_is_a_snapshot() {
    let mut svc = service();
    svc.create_if_not_self(BOB, ALICE, "like", post("post-1")).unwrap();
    svc.db.put_user(user(ALICE, "alice2", "Alice Again"));
    svc.create_if_not_self(BOB, ALICE, "like", post("post-2")).unwrap();
    let page = svc.list(BOB, None, 10).unwrap();
    assert_eq!(ids(&page), vec![2, 1]);
    assert_eq!(page[0].payload["actor_handle"], Value::String("alice2".to_string()));
    assert_eq!(page[0].payload["actor_display_name"], Value::String("Alice Again".to_string()));
    assert_eq!(page[1].payload["actor_handle"], Value::String("alice".to_string()));
    assert_eq!(page[1].payload["actor_display_name"], Value::String("Alice A".to_string()));
}

#[test]
fn create_assigns_identifier_and_time() {
    let mut db = Db::new(41);
    db.set_now(1_700_000_000_000_000_000);
    let mut svc = NotificationService::new(db);
    assert_eq!(svc.create(BOB, "follow", post("post-9")), Ok(()));
    svc.db.set_now(-5);
    assert_eq!(svc.create(BOB, "comment", Value::Null), Ok(()));
    let page = svc.list(BOB, None, 10).unwrap();
    assert_eq!(page.len(), 2);
    assert_eq!(page[0].id, 41);
    assert_eq!(page[0].user_id, BOB);
    assert_eq!(page[0].notification_type, "follow");
    assert_eq!(page[0].payload, post("post-9"));
    assert_eq!(page[0].read_at, None);
    assert_eq!(page[0].created_at, 1_700_000_000_000_000_000);
    assert_eq!(page[0].cursor(), (1_700_000_000_000_000_000, 41));
    assert_eq!(page[1].id, 42);
    assert_eq!(page[1].notification_type, "comment");
    assert_eq!(page[1].payload, Value::Null);
    assert_eq!(page[1].created_at, -5);
}

#[test]
fn exhausted_identifiers_fail_and_write_nothing() {
    let mut svc = NotificationService::new(Db::new(u128::MAX - 1));
    svc.db.put_user(user(ALICE, "alice", "Alice A"));
    assert_eq!(svc.create(BOB, "like", post("post-1")), Ok(()));
    assert_eq!(svc.create(BOB, "like", post("post-2")), Err(StoreError::IdsExhausted));
    assert_eq!(
        svc.create_if_not_self(BOB, ALICE, "like", post("post-3")),
        Err(StoreError::IdsExhausted)
    );
    // What writes nothing still succeeds.
    assert_eq!(svc.create_if_not_self(BOB, BOB, "like", post("post-4")), Ok(()));
    assert_eq!(svc.create_if_not_self(BOB, CAROL, "like", post("post-5")), Ok(()));
    assert_eq!(ids(&svc.list(BOB, None, 10).unwrap()), vec![u128::MAX - 1]);
}

#[test]
fn pages_cover_the_feed_once_in_order() {
    let svc = five_for_bob();
    let first = svc.list(BOB, None, 2).unwrap();
    assert_eq!(ids(&first), vec![5, 4]);
    let second = svc.list(BOB, Some(first[1].cursor()), 2).unwrap();
    assert_eq!(ids(&second), vec![3, 2]);
    let third = svc.list(BOB, Some(second[1].cursor()), 2).unwrap();
    assert_eq!(ids(&third), vec![1]);
    let fourth = svc.list(BOB, Some(third[0].cursor()), 2).unwrap();
    assert!(fourth.is_empty());
    let times: Vec<i128> =
        first.iter().chain(second.iter()).chain(third.iter()).map(|n| n.created_at).collect();
    assert_eq!(times, vec![50, 40, 30, 20, 10]);
}

#[test]
fn page_sizes_do_not_change_the_feed() {
    let svc = five_for_bob();
    assert_eq!(ids(&svc.list(BOB, None, 1).unwrap()), vec![5]);
    assert_eq!(ids(&svc.list(BOB, None, 5).unwrap()), vec![5, 4, 3, 2, 1]);
    assert_eq!(ids(&svc.list(BOB, None, i64::MAX).unwrap()), vec![5, 4, 3, 2, 1]);
    assert_eq!(ids(&svc.list(BOB, Some((30, 3)), 1).unwrap()), vec![2]);
    assert_eq!(ids(&svc.list(BOB, Some((30, 3)), 7).unwrap()), vec![2, 1]);
}

#[test]
fn later_pages_are_stable_under_newer_inserts() {
    let mut svc = five_for_bob();
    let first = svc.list(BOB, None, 3).unwrap();
    assert_eq!(ids(&first), vec![5, 4, 3]);
    let cursor = first[2].cursor();
    let before = ids(&svc.list(BOB, Some(cursor), 2).unwrap());
    svc.db.set_now(60);
    svc.create(BOB, "follow", post("post-6")).unwrap();
    let after = svc.list(BOB, Some(cursor), 2).unwrap();
    assert_eq!(ids(&after), vec![2, 1]);
    assert_eq!(ids(&after), before);
    assert_eq!(ids(&svc.list(BOB, None, 3).unwrap()), vec![6, 5, 4]);
}

#[test]
fn equal_times_are_ordered_by_identifier() {
    let mut svc = service();
    svc.db.set_now(100);
    svc.create(BOB, "like", post("post-1")).unwrap();
    svc.create(BOB, "like", post("post-2")).unwrap();
    svc.db.set_now(90);
    svc.create(BOB, "like", post("post-3")).unwrap();
    for _ in 0..3 {
        assert_eq!(ids(&svc.list(BOB, None, 10).unwrap()), vec![2, 1, 3]);
    }
    let first = svc.list(BOB, None, 1).unwrap();
    assert_eq!(ids(&first), vec![2]);
    let second = svc.list(BOB, Some(first[0].cursor()), 1).unwrap();
    assert_eq!(ids(&second), vec![1]);
    let third = svc.list(BOB, Some(second[0].cursor()), 1).unwrap();
    assert_eq!(ids(&third), vec![3]);
}

#[test]
fn cursor_need_not_name_a_stored_notification() {
    let svc = five_for_bob();
    assert_eq!(ids(&svc.list(BOB, Some((35, 0)), 10).unwrap()), vec![3, 2, 1]);
    assert_eq!(ids(&svc.list(BOB, Some((30, u128::MAX)), 10).unwrap()), vec![3, 2, 1]);
    assert_eq!(ids(&svc.list(BOB, Some((30, 0)), 10).unwrap()), vec![2, 1]);
    assert_eq!(ids(&svc.list(BOB, Some((i128::MAX, u128::MAX)), 2).unwrap()), vec![5, 4]);
}

#[test]
fn nothing_to_show_is_an_empty_page() {
    let svc = five_for_bob();
    assert!(svc.list(ALICE, None, 3).unwrap().is_empty());
    assert!(svc.list(BOB, Some((10, 1)), 3).unwrap().is_empty());
    assert!(svc.list(BOB, Some((i128::MIN, 0)), 3).unwrap().is_empty());
    let empty = NotificationService::new(Db::new(1));
    assert!(empty.list(BOB, None, 1).unwrap().is_empty());
}

#[test]
fn a_feed_holds_only_its_owner_s_notifications() {
    let mut svc = service();
    svc.db.set_now(1);
    svc.create(BOB, "like", post("post-1")).unwrap();
    svc.db.set_now(2);
    svc.create(ALICE, "like", post("post-2")).unwrap();
    svc.db.set_now(3);
    svc.create(BOB, "like", post("post-3")).unwrap();
    assert_eq!(ids(&svc.list(BOB, None, 10).unwrap()), vec![3, 1]);
    assert_eq!(ids(&svc.list(ALICE, None, 10).unwrap()), vec![2]);
    assert_eq!(ids(&svc.list(BOB, Some((3, 3)), 10).unwrap()), vec![1]);
}

#[test]
fn reading_happens_once() {
    let mut svc = service();
    svc.db.set_now(10);
    svc.create(BOB, "like", post("post-1")).unwrap();
    svc.db.set_now(20);
    assert_eq!(svc.mark_read(1, BOB), Ok(true));
    assert_eq!(svc.list(BOB, None, 1).unwrap()[0].read_at, Some(20));
    svc.db.set_now(30);
    assert_eq!(svc.mark_read(1, BOB), Ok(false));
    assert_eq!(svc.list(BOB, None, 1).unwrap()[0].read_at, Some(20));
}

#[test]
fn only_the_owner_reads() {
    let mut svc = service();
    svc.db.set_now(10);
    svc.create(BOB, "like", post("post-1")).unwrap();
    svc.db.set_now(20);
    assert_eq!(svc.mark_read(1, ALICE), Ok(false));
    assert_eq!(svc.list(BOB, None, 1).unwrap()[0].read_at, None);
    assert_eq!(svc.mark_read(1, BOB), Ok(true));
    svc.db.set_now(30);
    assert_eq!(svc.mark_read(1, ALICE), Ok(false));
    assert_eq!(svc.list(BOB, None, 1).unwrap()[0].read_at, Some(20));
}

#[test]
fn reading_what_does_not_exist_changes_nothing() {
    let mut svc = five_for_bob();
    assert_eq!(svc.mark_read(6, BOB), Ok(false));
    assert_eq!(svc.mark_read(0, BOB), Ok(false));
    let page = svc.list(BOB, None, 10).unwrap();
    assert!(page.iter().all(|n| n.read_at.is_none()));
}

#[test]
fn reading_one_leaves_the_others_unread_and_in_place() {
    let mut svc = five_for_bob();
    svc.db.set_now(99);
    assert_eq!(svc.mark_read(3, BOB), Ok(true));
    let page = svc.list(BOB, None, 10).unwrap();
    assert_eq!(ids(&page), vec![5, 4, 3, 2, 1]);
    let read: Vec<Option<i128>> = page.iter().map(|n| n.read_at).collect();
    assert_eq!(read, vec![None, None, Some(99), None, None]);
    assert_eq!(page[2].created_at, 30);
}

#[test]
fn directory_gives_the_latest_entry() {
    let mut db = Db::new(1);
    assert!(db.find_user(ALICE).is_none());
    db.put_user(user(ALICE, "alice", "Alice A"));
    db.put_user(user(BOB, "bob", "Bob B"));
    db.put_user(user(ALICE, "al", "Al"));
    assert_eq!(db.find_user(ALICE).unwrap().handle, "al");
    assert_eq!(db.find_user(BOB).unwrap().display_name, "Bob B");
    assert!(db.find_user(CAROL).is_none());
}

#[test]
fn store_level_operations_agree_with_the_service() {
    let mut db = Db::new(7);
    db.set_now(5);
    assert_eq!(db.insert_notification(BOB, "like".to_string(), post("post-1")), Ok(()));
    assert_eq!(db.insert_notification(BOB, "like".to_string(), post("post-2")), Ok(()));
    assert_eq!(ids(&db.select_page(BOB, None, 1)), vec![8]);
    assert!(db.mark_read(7, BOB));
    assert!(!db.mark_read(7, BOB));
    let page = db.select_page(BOB, Some((5, 8)), 5);
    assert_eq!(ids(&page), vec![7]);
    assert_eq!(page[0].read_at, Some(5));
    let copy = page[0].clone();
    assert_eq!(copy.id, 7);
    assert_eq!(copy.payload, post("post-1"));
    assert_eq!(copy.notification_type, "like");
}

#[test]
fn notifications_compare_by_time_then_identifier() {
    let mut svc = service();
    svc.db.set_now(100);
    svc.create(BOB, "like", post("post-1")).unwrap();
    svc.create(BOB, "like", post("post-2")).unwrap();
    svc.db.set_now(90);
    svc.create(BOB, "like", post("post-3")).unwrap();
    let page = svc.list(BOB, None, 3).unwrap();
    let (second, first, third) = (&page[0], &page[1], &page[2]);
    assert_eq!((first.id, second.id, third.id), (1, 2, 3));
    assert!(second.precedes(first));
    assert!(!first.precedes(second));
    assert!(first.precedes(third));
    assert!(second.precedes(third));
    assert!(!third.precedes(first));
    assert!(!first.precedes(first));
    assert!(first.follows(None));
    assert!(first.follows(Some(second.cursor())));
    assert!(!second.follows(Some(first.cursor())));
    assert!(!first.follows(Some(first.cursor())));
    assert!(third.follows(Some((100, 0))));
    assert!(!third.follows(Some((90, 3))));
    assert!(third.follows(Some((90, 4))));
    assert!(!third.follows(Some((89, u128::MAX))));
}
