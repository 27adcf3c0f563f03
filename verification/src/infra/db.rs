//! The store: the directory of users and the table of notifications, held
//! in memory.
//!
//! The store gives each notification its identifier, from a sequence, and
//! its time of creation, from a clock that the host sets. Every operation
//! is one step: it either happens whole or leaves the store as it was.

use crate::domain::notification::{views, Notification, NotificationView};
use crate::domain::user::{User, UserView};
use crate::ident::{Id, Timestamp};
use crate::paging::{after_cursor, comes_before, cursor_of, in_feed, is_page, unique_ids};
use serde_json::Value;
use vstd::prelude::*;

verus! {

/// Why the store refused an operation.
#[derive(Debug, Clone, Copy, PartialEq, Eq, Structural)]
pub enum StoreError {
    /// The sequence of identifiers has reached its last value, which is
    /// never given out.
    IdsExhausted,
}

/// The store.
pub struct Db {
    users: Vec<User>,
    notifications: Vec<Notification>,
    now: Timestamp,
    next_id: Id,
}

/// The store as contracts speak of it.
pub ghost struct DbView {
    /// The directory, in the order in which users were put.
    pub users: Seq<UserView>,
    /// The notifications, in the order in which they were stored.
    pub notifications: Seq<NotificationView>,
    /// The store's clock.
    pub now: Timestamp,
    /// The identifier that the next notification gets.
    pub next_id: Id,
}

/// The latest entry of a directory for an identifier, if there is one.
pub open spec fn find_user(users: Seq<UserView>, id: Id) -> Option<UserView>
    decreases users.len(),
{
    if users.len() == 0 {
        None
    } else if users.last().id == id {
        Some(users.last())
    } else {
        find_user(users.drop_last(), id)
    }
}

/// Whether a notification is the unread one with this identifier that
/// belongs to `user`.
pub open spec fn is_unread_of(row: NotificationView, id: Id, user: Id) -> bool {
    row.id == id && row.user_id == user && row.read_at is None
}

/// Whether marking `id` as read for `user` changes anything.
pub open spec fn can_mark(rows: Seq<NotificationView>, id: Id, user: Id) -> bool {
    exists|i: int| 0 <= i < rows.len() && is_unread_of(#[trigger] rows[i], id, user)
}

/// A row after `id` was marked as read for `user` at `now`: the unread
/// notification with that identifier and owner is read at `now`, and any
/// other row is as before.
pub open spec fn mark_row(
    row: NotificationView,
    id: Id,
    user: Id,
    now: Timestamp,
) -> NotificationView {
    if is_unread_of(row, id, user) {
        NotificationView { read_at: Some(now), ..row }
    } else {
        row
    }
}

/// The rows after `id` was marked as read for `user` at `now`.
pub open spec fn marked(rows: Seq<NotificationView>, id: Id, user: Id, now: Timestamp) -> Seq<
    NotificationView,
> {
    Seq::new(rows.len(), |i: int| mark_row(rows[i], id, user, now))
}

/// Marking an unread notification as read for its owner changes that
/// notification, which is then read at the given time, and no other.
pub proof fn unread_is_marked(rows: Seq<NotificationView>, i: int, now: Timestamp)
    requires
        unique_ids(rows),
        0 <= i < rows.len(),
        rows[i].read_at is None,
    ensures
        can_mark(rows, rows[i].id, rows[i].user_id),
        marked(rows, rows[i].id, rows[i].user_id, now)[i] == (NotificationView {
            read_at: Some(now),
            ..rows[i]
        }),
        forall|j: int|
            0 <= j < rows.len() && j != i ==> #[trigger] marked(
                rows,
                rows[i].id,
                rows[i].user_id,
                now,
            )[j] == rows[j],
{
    assert(is_unread_of(rows[i], rows[i].id, rows[i].user_id));
    assert forall|j: int| 0 <= j < rows.len() && j != i implies #[trigger] marked(
        rows,
        rows[i].id,
        rows[i].user_id,
        now,
    )[j] == rows[j] by {
        assert(rows[j].id != rows[i].id);
    }
}

/// Marking the same notification as read a second time changes nothing,
/// whenever it is done and whether or not the first time changed anything.
pub proof fn second_mark_changes_nothing(
    rows: Seq<NotificationView>,
    id: Id,
    user: Id,
    first: Timestamp,
    second: Timestamp,
)
    ensures
        !can_mark(marked(rows, id, user, first), id, user),
        marked(marked(rows, id, user, first), id, user, second) == marked(rows, id, user, first),
{
    assert(marked(marked(rows, id, user, first), id, user, second) =~= marked(
        rows,
        id,
        user,
        first,
    ));
}

/// Nobody but its owner marks a notification as read: for anybody else
/// nothing changes, the time at which it was read included.
pub proof fn only_the_owner_marks(
    rows: Seq<NotificationView>,
    id: Id,
    owner: Id,
    other: Id,
    now: Timestamp,
)
    requires
        unique_ids(rows),
        exists|i: int|
            0 <= i < rows.len() && (#[trigger] rows[i]).id == id && rows[i].user_id == owner,
        other != owner,
    ensures
        !can_mark(rows, id, other),
        marked(rows, id, other, now) == rows,
{
    let i = choose|i: int|
        0 <= i < rows.len() && (#[trigger] rows[i]).id == id && rows[i].user_id == owner;
    assert forall|j: int| 0 <= j < rows.len() implies !is_unread_of(
        #[trigger] rows[j],
        id,
        other,
    ) by {
        if j != i {
            assert(rows[j].id != rows[i].id);
        }
    }
    assert(marked(rows, id, other, now) =~= rows);
}

/// Once a notification is read, the time at which it was read stays: no
/// marking clears or moves it.
pub proof fn read_time_stays(
    rows: Seq<NotificationView>,
    id: Id,
    user: Id,
    now: Timestamp,
    i: int,
)
    requires
        0 <= i < rows.len(),
        rows[i].read_at is Some,
    ensures
        marked(rows, id, user, now)[i] == rows[i],
{
}

/// Marking moves no page: the page of any request holds the same
/// notifications in the same places afterwards, the marked one as read.
pub proof fn marking_moves_no_page(
    rows: Seq<NotificationView>,
    id: Id,
    user: Id,
    now: Timestamp,
    feed_user: Id,
    cursor: Option<(Timestamp, Id)>,
    limit: int,
    page: Seq<NotificationView>,
)
    requires
        is_page(rows, feed_user, cursor, limit, page),
    ensures
        is_page(
            marked(rows, id, user, now),
            feed_user,
            cursor,
            limit,
            marked(page, id, user, now),
        ),
{
    let rows_after = marked(rows, id, user, now);
    let page_after = marked(page, id, user, now);
    assert forall|k: int| 0 <= k < page_after.len() implies rows_after.contains(
        #[trigger] page_after[k],
    ) && in_feed(page_after[k], feed_user, cursor) by {
        assert(rows.contains(page[k]));
        let i = choose|i: int| 0 <= i < rows.len() && rows[i] == page[k];
        assert(rows_after[i] == page_after[k]);
    }
    assert forall|j: int, k: int| 0 <= j < k < page_after.len() implies comes_before(
        #[trigger] page_after[j],
        #[trigger] page_after[k],
    ) by {
        assert(comes_before(page[j], page[k]));
    }
    assert forall|i: int|
        0 <= i < rows_after.len() && in_feed(#[trigger] rows_after[i], feed_user, cursor)
            && !page_after.contains(rows_after[i]) implies page_after.len() == limit && (
    page_after.len() > 0 ==> comes_before(page_after.last(), rows_after[i])) by {
        assert(in_feed(rows[i], feed_user, cursor));
        if page.contains(rows[i]) {
            let k = choose|k: int| 0 <= k < page.len() && page[k] == rows[i];
            assert(page_after[k] == rows_after[i]);
        }
        if page.len() > 0 {
            assert(page_after.last() == mark_row(page.last(), id, user, now));
        }
    }
}

/// A notification that is written at or before a cursor's position, as
/// any is that is written at a later time than the cursor's, changes no
/// page that is asked for by that cursor.
pub proof fn newer_notification_keeps_later_pages(
    db: DbView,
    recipient: Id,
    notification_type: Seq<char>,
    payload: Value,
    user: Id,
    cursor: (Timestamp, Id),
    limit: int,
    page: Seq<NotificationView>,
)
    requires
        is_page(db.notifications, user, Some(cursor), limit, page),
        db.now > cursor.0 || (db.now == cursor.0 && db.next_id >= cursor.1),
    ensures
        is_page(
            db.with_notification(recipient, notification_type, payload).notifications,
            user,
            Some(cursor),
            limit,
            page,
        ),
{
    crate::paging::page_ignores_rows_outside_its_feed(
        db.notifications,
        db.fresh(recipient, notification_type, payload),
        user,
        Some(cursor),
        limit,
        page,
    );
}

impl DbView {
    /// What every store keeps: no two notifications share an identifier,
    /// and none has one that is still to be given out.
    pub open spec fn wf(self) -> bool {
        &&& unique_ids(self.notifications)
        &&& forall|i: int|
            0 <= i < self.notifications.len() ==> (#[trigger] self.notifications[i]).id
                < self.next_id
    }

    /// The notification that the store would write now.
    pub open spec fn fresh(
        self,
        user: Id,
        notification_type: Seq<char>,
        payload: Value,
    ) -> NotificationView {
        NotificationView {
            id: self.next_id,
            user_id: user,
            notification_type,
            payload,
            read_at: None,
            created_at: self.now,
        }
    }

    /// The store after one notification was written.
    pub open spec fn with_notification(
        self,
        user: Id,
        notification_type: Seq<char>,
        payload: Value,
    ) -> DbView {
        DbView {
            notifications: self.notifications.push(self.fresh(user, notification_type, payload)),
            next_id: (self.next_id + 1) as Id,
            ..self
        }
    }
}

impl View for Db {
    type V = DbView;

    closed spec fn view(&self) -> DbView {
        DbView {
            users: Seq::new(self.users@.len(), |i: int| self.users@[i]@),
            notifications: views(self.notifications@),
            now: self.now,
            next_id: self.next_id,
        }
    }
}

impl Db {
    /// An empty store whose clock stands at zero and whose first
    /// notification will get the identifier `first_id`.
    pub fn new(first_id: Id) -> (db: Db)
        ensures
            db@ == (DbView {
                users: Seq::empty(),
                notifications: Seq::empty(),
                now: 0,
                next_id: first_id,
            }),
            db@.wf(),
    {
        let db = Db { users: Vec::new(), notifications: Vec::new(), now: 0, next_id: first_id };
        assert(db@.users =~= Seq::empty());
        assert(db@.notifications =~= Seq::empty());
        db
    }

    /// Sets the store's clock.
    pub fn set_now(&mut self, now: Timestamp)
        requires
            old(self)@.wf(),
        ensures
            final(self)@ == (DbView { now, ..old(self)@ }),
            final(self)@.wf(),
    {
        self.now = now;
    }

    /// Puts a user into the directory, in place of an earlier entry with
    /// the same identifier.
    pub fn put_user(&mut self, user: User)
        requires
            old(self)@.wf(),
        ensures
            final(self)@ == (DbView { users: old(self)@.users.push(user@), ..old(self)@ }),
            final(self)@.wf(),
    {
        self.users.push(user);
        assert(self@.users =~= old(self)@.users.push(user@));
    }

    /// Looks a user up by identifier.
    pub fn find_user(&self, id: Id) -> (found: Option<&User>)
        ensures
            match found {
                Some(user) => find_user(self@.users, id) == Some(user@),
                None => find_user(self@.users, id) is None,
            },
    {
        let mut i: usize = self.users.len();
        assert(self@.users.take(i as int) =~= self@.users);
        while i > 0
            invariant
                i <= self.users.len(),
                find_user(self@.users, id) == find_user(self@.users.take(i as int), id),
            decreases i,
        {
            let ghost before = self@.users.take(i as int);
            i = i - 1;
            assert(before.last() == self.users@[i as int]@);
            assert(before.drop_last() =~= self@.users.take(i as int));
            if self.users[i].id == id {
                return Some(&self.users[i]);
            }
        }
        assert(self@.users.take(0).len() == 0);
        None
    }

    /// Writes one notification for `user_id`, unread, with the next
    /// identifier of the sequence and the clock's time.
    pub fn insert_notification(
        &mut self,
        user_id: Id,
        notification_type: String,
        payload: Value,
    ) -> (written: Result<(), StoreError>)
        requires
            old(self)@.wf(),
        ensures
            old(self)@.next_id < u128::MAX ==> written is Ok && final(self)@ == old(
                self
            )@.with_notification(user_id, notification_type@, payload),
            old(self)@.next_id == u128::MAX ==> written == Err::<(), StoreError>(
                StoreError::IdsExhausted,
            ) && final(self)@ == old(self)@,
            final(self)@.wf(),
    {
        if self.next_id == u128::MAX {
            return Err(StoreError::IdsExhausted);
        }
        let row = Notification {
            id: self.next_id,
            user_id,
            notification_type,
            payload,
            read_at: None,
            created_at: self.now,
        };
        self.next_id = self.next_id + 1;
        self.notifications.push(row);
        assert(self@.notifications =~= old(self)@.notifications.push(row@));
        Ok(())
    }

    /// The row that stands first among those that `user_id` is shown after
    /// `cursor`, by its place in the table.
    fn first_after(&self, user_id: Id, cursor: Option<(Timestamp, Id)>) -> (first: Option<usize>)
        requires
            self@.wf(),
        ensures
            match first {
                Some(b) => {
                    &&& b < self@.notifications.len()
                    &&& in_feed(self@.notifications[b as int], user_id, cursor)
                    &&& forall|i: int|
                        0 <= i < self@.notifications.len() && i != b && in_feed(
                            #[trigger] self@.notifications[i],
                            user_id,
                            cursor,
                        ) ==> comes_before(self@.notifications[b as int], self@.notifications[i])
                },
                None => forall|i: int|
                    0 <= i < self@.notifications.len() ==> !in_feed(
                        #[trigger] self@.notifications[i],
                        user_id,
                        cursor,
                    ),
            },
    {
        let ghost rows = self@.notifications;
        let mut first: Option<usize> = None;
        let mut i: usize = 0;
        while i < self.notifications.len()
            invariant
                i <= self.notifications.len(),
                rows == self@.notifications,
                rows.len() == self.notifications.len(),
                unique_ids(rows),
                match first {
                    Some(b) => {
                        &&& b < i
                        &&& in_feed(rows[b as int], user_id, cursor)
                        &&& forall|j: int|
                            0 <= j < i && j != b && in_feed(#[trigger] rows[j], user_id, cursor)
                                ==> comes_before(rows[b as int], rows[j])
                    },
                    None => forall|j: int|
                        0 <= j < i ==> !in_feed(#[trigger] rows[j], user_id, cursor),
                },
            decreases self.notifications.len() - i,
        {
            let row = &self.notifications[i];
            assert(row@ == rows[i as int]);
            if row.user_id == user_id && row.follows(cursor) {
                match first {
                    None => {
                        first = Some(i);
                    },
                    Some(b) => {
                        let best = &self.notifications[b];
                        assert(best@ == rows[b as int]);
                        if row.precedes(best) {
                            first = Some(i);
                        }
                    },
                }
            }
            i = i + 1;
        }
        first
    }

    /// The page of at most `limit` notifications that `user_id` is shown
    /// after `cursor`, or from the newest on where there is no cursor.
    pub fn select_page(&self, user_id: Id, cursor: Option<(Timestamp, Id)>, limit: i64) -> (page:
        Vec<Notification>)
        requires
            self@.wf(),
            limit > 0,
        ensures
            is_page(self@.notifications, user_id, cursor, limit as int, views(page@)),
    {
        let ghost rows = self@.notifications;
        let mut page: Vec<Notification> = Vec::new();
        let mut bound = cursor;
        let mut exhausted = false;
        while !exhausted && (page.len() as u64) < (limit as u64)
            invariant
                limit > 0,
                self@.wf(),
                rows == self@.notifications,
                page.len() <= limit,
                page.len() == 0 ==> bound == cursor,
                page.len() > 0 ==> bound == Some(cursor_of(views(page@).last())),
                forall|k: int|
                    0 <= k < page.len() ==> rows.contains(#[trigger] views(page@)[k]) && in_feed(
                        views(page@)[k],
                        user_id,
                        cursor,
                    ),
                forall|j: int, k: int|
                    0 <= j < k < page.len() ==> comes_before(
                        #[trigger] views(page@)[j],
                        #[trigger] views(page@)[k],
                    ),
                forall|i: int|
                    0 <= i < rows.len() && in_feed(#[trigger] rows[i], user_id, cursor)
                        && !after_cursor(rows[i], bound) ==> views(page@).contains(rows[i]),
                exhausted ==> forall|i: int|
                    0 <= i < rows.len() ==> !in_feed(#[trigger] rows[i], user_id, bound),
            decreases (if exhausted { 0int } else { 1int }) + limit - page.len(),
        {
            match self.first_after(user_id, bound) {
                None => {
                    exhausted = true;
                },
                Some(b) => {
                    let ghost shown = views(page@);
                    let row = self.notifications[b].clone();
                    assert(row@ == rows[b as int]);
                    bound = Some((row.created_at, row.id));
                    page.push(row);
                    assert(views(page@) =~= shown.push(rows[b as int]));
                    assert forall|i: int|
                        0 <= i < rows.len() && in_feed(#[trigger] rows[i], user_id, cursor)
                            && !after_cursor(rows[i], bound) implies views(page@).contains(
                        rows[i],
                    ) by {
                        if shown.contains(rows[i]) {
                            let k = choose|k: int| 0 <= k < shown.len() && shown[k] == rows[i];
                            assert(views(page@)[k] == rows[i]);
                        } else {
                            assert(i == b);
                            assert(views(page@)[shown.len() as int] == rows[i]);
                        }
                    }
                },
            }
        }
        page
    }

    /// Marks the notification `notification_id` as read at the clock's
    /// time, if it belongs to `user_id` and is unread; says whether it did.
    pub fn mark_read(&mut self, notification_id: Id, user_id: Id) -> (changed: bool)
        requires
            old(self)@.wf(),
        ensures
            changed == can_mark(old(self)@.notifications, notification_id, user_id),
            final(self)@ == (DbView {
                notifications: marked(
                    old(self)@.notifications,
                    notification_id,
                    user_id,
                    old(self)@.now,
                ),
                ..old(self)@
            }),
            final(self)@.wf(),
    {
        let ghost rows = self@.notifications;
        let mut i: usize = 0;
        while i < self.notifications.len()
            invariant
                i <= self.notifications.len(),
                rows == self@.notifications,
                *self == *old(self),
                self@.wf(),
                forall|j: int| 0 <= j < i ==> (#[trigger] rows[j]).id != notification_id,
            decreases self.notifications.len() - i,
        {
            if self.notifications[i].id == notification_id {
                assert(rows[i as int] == self.notifications@[i as int]@);
                if self.notifications[i].user_id == user_id
                    && self.notifications[i].read_at.is_none() {
                    let mut row = self.notifications[i].clone();
                    row.read_at = Some(self.now);
                    self.notifications.set(i, row);
                    assert(is_unread_of(rows[i as int], notification_id, user_id));
                    assert forall|j: int| 0 <= j < rows.len() && j != i implies !is_unread_of(
                        #[trigger] rows[j],
                        notification_id,
                        user_id,
                    ) by {
                        assert(rows[j].id != rows[i as int].id);
                    }
                    assert(self.notifications@[i as int]@ == (NotificationView {
                        read_at: Some(self.now),
                        ..rows[i as int]
                    }));
                    assert(self@.notifications =~= marked(
                        rows,
                        notification_id,
                        user_id,
                        self.now,
                    ));
                    return true;
                }
                assert forall|j: int| 0 <= j < rows.len() implies !is_unread_of(
                    #[trigger] rows[j],
                    notification_id,
                    user_id,
                ) by {
                    if j != i {
                        assert(rows[j].id != rows[i as int].id);
                    }
                }
                assert(self@.notifications =~= marked(rows, notification_id, user_id, self.now));
                return false;
            }
            i = i + 1;
        }
        assert(self@.notifications =~= marked(rows, notification_id, user_id, self.now));
        false
    }
}

} // verus!
