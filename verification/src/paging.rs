//! The order of a feed and what a page of it is.
//!
//! A user's feed lists that user's notifications newest first; of two
//! stored at the same moment, the one with the greater identifier comes
//! first. A page is asked for by a cursor, the position of a notification
//! already seen, and holds what follows that position.

use crate::domain::notification::NotificationView;
use crate::ident::{Id, Timestamp};
use vstd::prelude::*;

verus! {

/// The position of a notification in a feed.
pub open spec fn cursor_of(row: NotificationView) -> (Timestamp, Id) {
    (row.created_at, row.id)
}

/// Whether `a` stands before `b` in a feed.
pub open spec fn comes_before(a: NotificationView, b: NotificationView) -> bool {
    a.created_at > b.created_at || (a.created_at == b.created_at && a.id > b.id)
}

/// Whether a notification stands after the cursor's position; with no
/// cursor every notification does.
pub open spec fn after_cursor(row: NotificationView, cursor: Option<(Timestamp, Id)>) -> bool {
    match cursor {
        None => true,
        Some(position) => row.created_at < position.0 || (row.created_at == position.0 && row.id
            < position.1),
    }
}

/// Whether a notification belongs to what `user` is shown after `cursor`.
pub open spec fn in_feed(row: NotificationView, user: Id, cursor: Option<(Timestamp, Id)>) -> bool {
    row.user_id == user && after_cursor(row, cursor)
}

/// No two rows share an identifier.
pub open spec fn unique_ids(rows: Seq<NotificationView>) -> bool {
    forall|i: int, j: int|
        0 <= i < j < rows.len() ==> (#[trigger] rows[i]).id != (#[trigger] rows[j]).id
}

/// Whether `page` is the page of at most `limit` notifications that `user`
/// is shown after `cursor`, out of `rows`: it holds only rows of that feed,
/// in feed order, and a row of the feed is missing only where the page is
/// full and the row stands after its last. With a limit of zero the page is
/// empty; for a limit below zero there is none.
pub open spec fn is_page(
    rows: Seq<NotificationView>,
    user: Id,
    cursor: Option<(Timestamp, Id)>,
    limit: int,
    page: Seq<NotificationView>,
) -> bool {
    &&& page.len() <= limit
    &&& forall|k: int|
        0 <= k < page.len() ==> rows.contains(#[trigger] page[k]) && in_feed(page[k], user, cursor)
    &&& forall|j: int, k: int|
        0 <= j < k < page.len() ==> comes_before(#[trigger] page[j], #[trigger] page[k])
    &&& forall|i: int|
        0 <= i < rows.len() && in_feed(#[trigger] rows[i], user, cursor) && !page.contains(rows[i])
            ==> page.len() == limit && (page.len() > 0 ==> comes_before(page.last(), rows[i]))
}

/// The feed order is a strict total order on notifications with different
/// identifiers: of two, exactly one comes before the other, and what comes
/// before a notification comes before all that it comes before.
pub proof fn feed_order_is_strict_and_total(
    a: NotificationView,
    b: NotificationView,
    c: NotificationView,
)
    ensures
        !comes_before(a, a),
        a.id != b.id ==> (comes_before(a, b) <==> !comes_before(b, a)),
        comes_before(a, b) && comes_before(b, c) ==> comes_before(a, c),
{
}

/// A cursor taken from a notification is followed by exactly what that
/// notification comes before.
pub proof fn cursor_marks_its_notification(seen: NotificationView, row: NotificationView)
    ensures
        after_cursor(row, Some(cursor_of(seen))) <==> comes_before(seen, row),
{
}

/// Of two notifications on a page that were stored at the same moment, the
/// one with the greater identifier comes first.
pub proof fn ties_break_by_id(
    rows: Seq<NotificationView>,
    user: Id,
    cursor: Option<(Timestamp, Id)>,
    limit: int,
    page: Seq<NotificationView>,
    j: int,
    k: int,
)
    requires
        is_page(rows, user, cursor, limit, page),
        0 <= j < k < page.len(),
        page[j].created_at == page[k].created_at,
    ensures
        page[j].id > page[k].id,
{
    assert(comes_before(page[j], page[k]));
}

/// No notification occurs twice on a page.
pub proof fn page_has_no_duplicates(
    rows: Seq<NotificationView>,
    user: Id,
    cursor: Option<(Timestamp, Id)>,
    limit: int,
    page: Seq<NotificationView>,
)
    requires
        is_page(rows, user, cursor, limit, page),
    ensures
        forall|j: int, k: int|
            0 <= j < page.len() && 0 <= k < page.len() && j != k ==> #[trigger] page[j]
                != #[trigger] page[k],
{
    assert forall|j: int, k: int|
        0 <= j < page.len() && 0 <= k < page.len() && j != k implies #[trigger] page[j]
        != #[trigger] page[k] by {
        if j < k {
            assert(comes_before(page[j], page[k]));
        } else {
            assert(comes_before(page[k], page[j]));
        }
    }
}

/// A page that is not full holds all that there is to show: every row of
/// the feed after the cursor is on it. So where nothing follows the cursor,
/// or the user has no notifications, the page is empty, and only then.
pub proof fn short_page_ends_the_feed(
    rows: Seq<NotificationView>,
    user: Id,
    cursor: Option<(Timestamp, Id)>,
    limit: int,
    page: Seq<NotificationView>,
)
    requires
        is_page(rows, user, cursor, limit, page),
        page.len() < limit,
    ensures
        forall|i: int|
            0 <= i < rows.len() && in_feed(#[trigger] rows[i], user, cursor) ==> page.contains(
                rows[i],
            ),
        page.len() == 0 <==> forall|i: int|
            0 <= i < rows.len() ==> !in_feed(#[trigger] rows[i], user, cursor),
{
    if page.len() > 0 {
        assert(rows.contains(page[0]));
        let i = choose|i: int| 0 <= i < rows.len() && rows[i] == page[0];
        assert(in_feed(rows[i], user, cursor));
    }
}

/// A row that does not belong to what a page is drawn from leaves the page
/// as it is when it is added to the rows: a notification for somebody else,
/// or one at or before the cursor, such as any that is newer than what the
/// cursor was taken from.
pub proof fn page_ignores_rows_outside_its_feed(
    rows: Seq<NotificationView>,
    added: NotificationView,
    user: Id,
    cursor: Option<(Timestamp, Id)>,
    limit: int,
    page: Seq<NotificationView>,
)
    requires
        is_page(rows, user, cursor, limit, page),
        !in_feed(added, user, cursor),
    ensures
        is_page(rows.push(added), user, cursor, limit, page),
{
    let grown = rows.push(added);
    assert forall|k: int| 0 <= k < page.len() implies grown.contains(#[trigger] page[k]) by {
        let i = choose|i: int| 0 <= i < rows.len() && rows[i] == page[k];
        assert(grown[i] == page[k]);
    }
    assert forall|i: int|
        0 <= i < grown.len() && in_feed(#[trigger] grown[i], user, cursor) && !page.contains(
            grown[i],
        ) implies page.len() == limit && (page.len() > 0 ==> comes_before(
        page.last(),
        grown[i],
    )) by {
        assert(i < rows.len());
        assert(grown[i] == rows[i]);
    }
}

/// Asking for the page after the last notification of a page continues
/// the feed where that page ended: the two pages together are the page of
/// both limits, so nothing is left out between them and nothing shown
/// twice. A page that was not full is followed by an empty one.
pub proof fn next_page_continues(
    rows: Seq<NotificationView>,
    user: Id,
    cursor: Option<(Timestamp, Id)>,
    first_limit: int,
    first: Seq<NotificationView>,
    next_limit: int,
    next: Seq<NotificationView>,
)
    requires
        is_page(rows, user, cursor, first_limit, first),
        first.len() > 0,
        is_page(rows, user, Some(cursor_of(first.last())), next_limit, next),
    ensures
        is_page(rows, user, cursor, first_limit + next_limit, first + next),
        first.len() < first_limit ==> next.len() == 0,
{
    let last = first.last();
    let onward = Some(cursor_of(last));
    let both = first + next;
    assert(in_feed(first[first.len() - 1], user, cursor));
    assert forall|k: int| 0 <= k < next.len() implies !first.contains(#[trigger] next[k]) by {
        if first.contains(next[k]) {
            let m = choose|m: int| 0 <= m < first.len() && first[m] == next[k];
            if m < first.len() - 1 {
                assert(comes_before(first[m], first[first.len() - 1]));
            }
        }
    }
    if first.len() < first_limit && next.len() > 0 {
        assert(rows.contains(next[0]));
        let i = choose|i: int| 0 <= i < rows.len() && rows[i] == next[0];
        assert(in_feed(rows[i], user, cursor));
    }
    assert forall|k: int| 0 <= k < both.len() implies rows.contains(#[trigger] both[k])
        && in_feed(both[k], user, cursor) by {
        if k < first.len() {
            assert(both[k] == first[k]);
        } else {
            assert(both[k] == next[k - first.len()]);
        }
    }
    assert forall|j: int, k: int| 0 <= j < k < both.len() implies comes_before(
        #[trigger] both[j],
        #[trigger] both[k],
    ) by {
        if k < first.len() {
            assert(comes_before(first[j], first[k]));
        } else if j >= first.len() {
            assert(comes_before(next[j - first.len()], next[k - first.len()]));
        } else {
            assert(in_feed(next[k - first.len()], user, onward));
            if j < first.len() - 1 {
                assert(comes_before(first[j], first[first.len() - 1]));
            }
        }
    }
    assert forall|i: int|
        0 <= i < rows.len() && in_feed(#[trigger] rows[i], user, cursor) && !both.contains(
            rows[i],
        ) implies both.len() == first_limit + next_limit && (both.len() > 0 ==> comes_before(
        both.last(),
        rows[i],
    )) by {
        if first.contains(rows[i]) {
            let m = choose|m: int| 0 <= m < first.len() && first[m] == rows[i];
            assert(both[m] == rows[i]);
        }
        assert(in_feed(rows[i], user, onward));
        if next.contains(rows[i]) {
            let m = choose|m: int| 0 <= m < next.len() && next[m] == rows[i];
            assert(both[first.len() + m] == rows[i]);
        }
        if next.len() > 0 {
            assert(both.last() == next.last());
        } else {
            assert(both.last() == last);
        }
    }
}

/// Where two pages for the same request agree on their first `k` places,
/// the notification at place `k` of the second is the one at place `k` of
/// the first or stands before it.
proof fn lemma_at_or_before(
    rows: Seq<NotificationView>,
    user: Id,
    cursor: Option<(Timestamp, Id)>,
    limit: int,
    one: Seq<NotificationView>,
    other: Seq<NotificationView>,
    k: int,
)
    requires
        is_page(rows, user, cursor, limit, one),
        is_page(rows, user, cursor, limit, other),
        0 <= k < one.len(),
        k < other.len(),
        forall|m: int| 0 <= m < k ==> one[m] == other[m],
    ensures
        other[k] == one[k] || comes_before(other[k], one[k]),
{
    if other.contains(one[k]) {
        let m = choose|m: int| 0 <= m < other.len() && other[m] == one[k];
        if m < k {
            assert(comes_before(one[m], one[k]));
        } else if m > k {
            assert(comes_before(other[k], other[m]));
        }
    } else {
        assert(rows.contains(one[k]));
        let i = choose|i: int| 0 <= i < rows.len() && rows[i] == one[k];
        assert(in_feed(rows[i], user, cursor));
        if k < other.len() - 1 {
            assert(comes_before(other[k], other[other.len() - 1]));
        }
    }
}

/// Two pages for the same request hold the same notifications in their
/// first `k` places.
proof fn lemma_pages_agree(
    rows: Seq<NotificationView>,
    user: Id,
    cursor: Option<(Timestamp, Id)>,
    limit: int,
    one: Seq<NotificationView>,
    other: Seq<NotificationView>,
    k: int,
)
    requires
        is_page(rows, user, cursor, limit, one),
        is_page(rows, user, cursor, limit, other),
        0 <= k <= one.len(),
        k <= other.len(),
    ensures
        forall|m: int| 0 <= m < k ==> one[m] == other[m],
    decreases k,
{
    if k > 0 {
        lemma_pages_agree(rows, user, cursor, limit, one, other, k - 1);
        lemma_at_or_before(rows, user, cursor, limit, one, other, k - 1);
        lemma_at_or_before(rows, user, cursor, limit, other, one, k - 1);
    }
}

/// A page that is as long as another for the same request is no longer.
proof fn lemma_no_longer(
    rows: Seq<NotificationView>,
    user: Id,
    cursor: Option<(Timestamp, Id)>,
    limit: int,
    one: Seq<NotificationView>,
    other: Seq<NotificationView>,
)
    requires
        is_page(rows, user, cursor, limit, one),
        is_page(rows, user, cursor, limit, other),
        one.len() <= other.len(),
    ensures
        one.len() == other.len(),
{
    if one.len() < other.len() {
        let extra = other[one.len() as int];
        lemma_pages_agree(rows, user, cursor, limit, one, other, one.len() as int);
        if one.contains(extra) {
            let m = choose|m: int| 0 <= m < one.len() && one[m] == extra;
            assert(comes_before(other[m], other[one.len() as int]));
        }
        assert(rows.contains(extra));
        let i = choose|i: int| 0 <= i < rows.len() && rows[i] == extra;
        assert(in_feed(rows[i], user, cursor));
    }
}

/// A request has one page: what is shown depends on the rows, the user, the
/// cursor and the limit, and on nothing else.
pub proof fn page_is_determined(
    rows: Seq<NotificationView>,
    user: Id,
    cursor: Option<(Timestamp, Id)>,
    limit: int,
    one: Seq<NotificationView>,
    other: Seq<NotificationView>,
)
    requires
        is_page(rows, user, cursor, limit, one),
        is_page(rows, user, cursor, limit, other),
    ensures
        one == other,
{
    if one.len() <= other.len() {
        lemma_no_longer(rows, user, cursor, limit, one, other);
    } else {
        lemma_no_longer(rows, user, cursor, limit, other, one);
    }
    lemma_pages_agree(rows, user, cursor, limit, one, other, one.len() as int);
    assert(one =~= other);
}

} // verus!
