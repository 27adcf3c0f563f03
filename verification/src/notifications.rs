//! The notification service: what is written when something happens to a
//! user, what the user is shown, and how a notification becomes read.

use crate::domain::notification::{views, Notification};
use crate::ident::{hyphenated, id_text, Id, Timestamp};
use crate::infra::db::{can_mark, find_user, marked, Db, DbView, StoreError};
use crate::json::{is_object, json_members, json_string, set_member, string_value};
use crate::paging::is_page;
use serde_json::Value;
use vstd::prelude::*;

verus! {

/// Whether `enriched` is `base` with the actor's identity merged in: an
/// object gets the members `actor_id`, `actor_handle` and
/// `actor_display_name`, each a string, in place of members of those names
/// and beside all others; a document of any other shape is left as it is.
pub open spec fn is_enriched(
    base: Value,
    enriched: Value,
    actor_id: Id,
    handle: Seq<char>,
    display_name: Seq<char>,
) -> bool {
    match json_members(base) {
        Some(members) => json_members(enriched) == Some(
            members.insert("actor_id"@, json_string(hyphenated(actor_id))).insert(
                "actor_handle"@,
                json_string(handle),
            ).insert("actor_display_name"@, json_string(display_name)),
        ),
        None => enriched == base,
    }
}

/// What an enriched object holds: the actor's identifier as text, the
/// handle and the display name under their three keys, and under every
/// other key what the payload held there before, if anything.
pub proof fn enriched_object_holds(
    base: Value,
    enriched: Value,
    actor_id: Id,
    handle: Seq<char>,
    display_name: Seq<char>,
    key: Seq<char>,
)
    requires
        is_enriched(base, enriched, actor_id, handle, display_name),
        json_members(base) is Some,
    ensures
        json_members(enriched) is Some,
        ({
            let before = json_members(base).unwrap();
            let after = json_members(enriched).unwrap();
            &&& after.contains_key("actor_id"@)
            &&& after["actor_id"@] == json_string(hyphenated(actor_id))
            &&& after.contains_key("actor_handle"@)
            &&& after["actor_handle"@] == json_string(handle)
            &&& after.contains_key("actor_display_name"@)
            &&& after["actor_display_name"@] == json_string(display_name)
            &&& key != "actor_id"@ && key != "actor_handle"@ && key != "actor_display_name"@ ==> {
                &&& after.contains_key(key) <==> before.contains_key(key)
                &&& before.contains_key(key) ==> after[key] == before[key]
            }
        }),
{
    reveal_strlit("actor_id");
    reveal_strlit("actor_handle");
    reveal_strlit("actor_display_name");
    assert("actor_id"@.len() == 8);
    assert("actor_handle"@.len() == 12);
    assert("actor_display_name"@.len() == 18);
}

/// Whether nothing is written for an event by `actor` that concerns
/// `recipient`: nobody is notified of what they did themselves, nor of what
/// somebody did who is not in the directory.
pub open spec fn is_suppressed(db: DbView, recipient: Id, actor: Id) -> bool {
    actor == recipient || find_user(db.users, actor) is None
}

/// Merges the actor's identity into a payload that is an object, and hands
/// any other payload back unchanged.
pub fn enrich(payload: Value, actor_id: Id, handle: &str, display_name: &str) -> (enriched: Value)
    ensures
        is_enriched(payload, enriched, actor_id, handle@, display_name@),
{
    let mut enriched = payload;
    if is_object(&enriched) {
        set_member(&mut enriched, "actor_id", string_value(id_text(actor_id)));
        set_member(&mut enriched, "actor_handle", string_value(handle.to_owned()));
        set_member(&mut enriched, "actor_display_name", string_value(display_name.to_owned()));
    }
    enriched
}

/// Whether an event is the recipient's own doing. Such an event notifies
/// nobody, and no directory needs to be asked about it.
pub fn is_self_event(recipient_id: Id, actor_id: Id) -> (own: bool)
    ensures
        own == (actor_id == recipient_id),
{
    actor_id == recipient_id
}

/// The payload to store for an event by somebody else, from what the
/// directory says of the actor: the handle and the display name, or `None`
/// for an actor that it does not hold. For such an actor nothing is to be
/// stored; for any other, the payload enriched with the actor's identity.
pub fn payload_to_store(actor: Option<(&str, &str)>, actor_id: Id, payload: Value) -> (stored:
    Option<Value>)
    ensures
        match actor {
            Some(names) => stored is Some && is_enriched(
                payload,
                stored.unwrap(),
                actor_id,
                names.0@,
                names.1@,
            ),
            None => stored is None,
        },
{
    match actor {
        Some(names) => Some(enrich(payload, actor_id, names.0, names.1)),
        None => None,
    }
}

/// The notification service over a store.
pub struct NotificationService {
    pub db: Db,
}

impl NotificationService {
    /// A service over `db`.
    pub fn new(db: Db) -> (service: Self)
        ensures
            service.db == db,
    {
        Self { db }
    }

    /// Writes one unread notification for `user_id`, with the payload as it
    /// is given. Fails, and writes nothing, only when the store has no
    /// identifier left.
    pub fn create(&mut self, user_id: Id, notification_type: &str, payload: Value) -> (created:
        Result<(), StoreError>)
        requires
            old(self).db@.wf(),
        ensures
            final(self).db@.wf(),
            old(self).db@.next_id < u128::MAX ==> created is Ok && final(self).db@ == old(
                self
            ).db@.with_notification(user_id, notification_type@, payload),
            old(self).db@.next_id == u128::MAX ==> created == Err::<(), StoreError>(
                StoreError::IdsExhausted,
            ) && final(self).db@ == old(self).db@,
    {
        self.db.insert_notification(user_id, notification_type.to_owned(), payload)
    }

    /// Notifies `recipient_id` of something that `actor_id` did.
    ///
    /// Nothing is written, and that is a success, when the two are the same
    /// user or the actor is not in the directory. Otherwise one notification
    /// is written whose payload is the given one enriched with the actor's
    /// identity as the directory has it now; this fails, and writes nothing,
    /// only when the store has no identifier left.
    pub fn create_if_not_self(
        &mut self,
        recipient_id: Id,
        actor_id: Id,
        notification_type: &str,
        payload: Value,
    ) -> (created: Result<(), StoreError>)
        requires
            old(self).db@.wf(),
        ensures
            final(self).db@.wf(),
            is_suppressed(old(self).db@, recipient_id, actor_id) ==> created is Ok
                && final(self).db@ == old(self).db@,
            !is_suppressed(old(self).db@, recipient_id, actor_id) && old(self).db@.next_id
                < u128::MAX ==> created is Ok && {
                let actor = find_user(old(self).db@.users, actor_id).unwrap();
                let stored = final(self).db@.notifications.last().payload;
                &&& is_enriched(payload, stored, actor_id, actor.handle, actor.display_name)
                &&& final(self).db@ == old(self).db@.with_notification(
                    recipient_id,
                    notification_type@,
                    stored,
                )
            },
            !is_suppressed(old(self).db@, recipient_id, actor_id) && old(self).db@.next_id
                == u128::MAX ==> created == Err::<(), StoreError>(StoreError::IdsExhausted)
                && final(self).db@ == old(self).db@,
    {
        if is_self_event(recipient_id, actor_id) {
            return Ok(());
        }
        let actor = match self.db.find_user(actor_id) {
            Some(user) => Some((user.handle.as_str(), user.display_name.as_str())),
            None => None,
        };
        match payload_to_store(actor, actor_id, payload) {
            Some(enriched) => self.create(recipient_id, notification_type, enriched),
            None => Ok(()),
        }
    }

    /// The page of at most `limit` notifications of `user_id` that follow
    /// `cursor` in the feed, newest first; with no cursor, the feed's
    /// beginning. The page is empty where nothing follows. Never fails.
    pub fn list(&self, user_id: Id, cursor: Option<(Timestamp, Id)>, limit: i64) -> (listed: Result<
        Vec<Notification>,
        StoreError,
    >)
        requires
            self.db@.wf(),
            limit > 0,
        ensures
            listed is Ok,
            is_page(
                self.db@.notifications,
                user_id,
                cursor,
                limit as int,
                views(listed.unwrap()@),
            ),
    {
        Ok(self.db.select_page(user_id, cursor, limit))
    }

    /// Marks a notification as read at the store's time, if it belongs to
    /// `user_id` and is unread, and says whether it did: `false` covers a
    /// notification that does not exist, one of another user and one that
    /// was read before, and then nothing changes. Never fails.
    pub fn mark_read(&mut self, notification_id: Id, user_id: Id) -> (changed: Result<
        bool,
        StoreError,
    >)
        requires
            old(self).db@.wf(),
        ensures
            final(self).db@.wf(),
            changed == Ok::<bool, StoreError>(
                can_mark(old(self).db@.notifications, notification_id, user_id),
            ),
            final(self).db@ == (DbView {
                notifications: marked(
                    old(self).db@.notifications,
                    notification_id,
                    user_id,
                    old(self).db@.now,
                ),
                ..old(self).db@
            }),
    {
        Ok(self.db.mark_read(notification_id, user_id))
    }
}

} // verus!
