//! What is kept for one person: bookmarks, levels, focus rules, read marks and bans; and the bounds
//! that requests are held to.

use vstd::prelude::*;

use crate::laws::delivering::thread_entry;
use crate::laws::desk::{category_entry, lemma_stands, stands};
use crate::laws::finding::{lemma_names_an_answer, names_an_answer};
use crate::laws::gathering::{has_read, lemma_nonempty, lemma_receipt};
use crate::laws::order::law_ordered_set;
use crate::laws::showing::{first_reason, focuses, heard, ticked};
use crate::laws::state::{ban_key, consistent, relation_key, rule_key};
use crate::laws::tables::distinct_by;
use crate::laws::writing::{
    category_exists, event_of_thread, holds_post, lemma_category_exists, lemma_event_of,
    lemma_holds_post, lemma_thread_entry,
};
use crate::model::{
    ActivityEventRow, BannedAuthorRow, BookmarkRow, CategoryFocusLevel, CategoryFormat,
    CategoryRow, ThreadFollowLevel, ThreadRow,
};
use crate::rows::{
    first_index, lemma_filter_contains, lemma_first_index, lemma_first_index_unique, some_row,
    update_first,
};
use crate::store::activity::{activity_mark, activity_receipt_not_of};
use crate::store::bookmarks::{
    bookmark_by, bookmark_removal, bookmark_saving, bookmark_snooze, bookmark_update, edit_target,
    reminder_settling,
};
use crate::store::catch_up::{
    CatchUpQuery, catch_up, new_receipt, not_yet_read, reading_mark, stranger_to,
};
use crate::store::categories::{
    answered_in, category_creation, category_deletion, category_is_not, category_transition,
    reformatted, renamed, reordered, rule_not_for, seeded,
};
use crate::store::focus::{focus_change, rule_by, rule_of};
use crate::store::follow::{
    bookmark_of, delivery_of, delivery_of_to, event_kept, level_change, level_of, receipt_kept,
    relation_of, survives_unwatch, with_level, without_watch_activity,
};
use crate::store::memory::Forum;
use crate::store::posting::{watches, with_alias};
use crate::store::reactions::{ban_not_of, ban_of, with_ban};
use crate::store::rules::{
    alias_list, catch_up_page_check, focus_page_check, mention_aliases, next_version, nonblank,
    nonempty, note_check, reading_ids, receipt_ids, reminder_check, signal_ids, trimmed,
};
use crate::store::tables::{category_is, post_is, thread_in, thread_is};
use crate::store::types::{
    ActivityReceiptRow, BookmarkReminderUpdate, CatchUpCursorRow, CatchUpView,
    CategoryFocusRuleRow, Failure, StoredActivityDeliveryRow, ThreadSubscriptionRow,
};
use crate::text::{blank_text, trim_text};
use crate::texts::ordered_set;

verus! {

// ---------------------------------------------------------------------------
// Bookmarks.
// ---------------------------------------------------------------------------

/// Whether a post with the identifier exists.
pub open spec fn post_exists(f: Forum, id: Seq<char>) -> bool {
    exists|p: int| 0 <= p < f.posts.len() && (#[trigger] f.posts[p]).id == id
}

/// Whether the bookmark at `i` is the owner's of the post: the first.
pub open spec fn saved_entry(f: Forum, owner_sub: Seq<char>, post_id: Seq<char>, i: int) -> bool {
    &&& 0 <= i < f.bookmarks.len()
    &&& f.bookmarks[i].owner_sub == owner_sub && f.bookmarks[i].post_id == post_id
    &&& forall|j: int|
        0 <= j < i ==> (#[trigger] f.bookmarks[j]).owner_sub != owner_sub || f.bookmarks[j].post_id
            != post_id
}

pub proof fn lemma_post_exists(f: Forum, id: Seq<char>)
    ensures
        some_row(f.posts, post_is(id)) <==> post_exists(f, id),
{
    if post_exists(f, id) {
        let p = choose|p: int| 0 <= p < f.posts.len() && (#[trigger] f.posts[p]).id == id;
        assert(post_is(id)(f.posts[p]));
    }
    if some_row(f.posts, post_is(id)) {
        let p = choose|p: int| 0 <= p < f.posts.len() && post_is(id)(#[trigger] f.posts[p]);
        assert(f.posts[p].id == id);
    }
}

pub proof fn lemma_saved_entry(f: Forum, owner_sub: Seq<char>, post_id: Seq<char>)
    ensures
        match first_index(f.bookmarks, bookmark_of(owner_sub, post_id)) {
            Some(i) => saved_entry(f, owner_sub, post_id, i),
            None => forall|i: int| !#[trigger] saved_entry(f, owner_sub, post_id, i),
        },
        forall|i: int| #[trigger]
            saved_entry(f, owner_sub, post_id, i) ==> first_index(
                f.bookmarks,
                bookmark_of(owner_sub, post_id),
            ) == Some(i),
{
    let which = bookmark_of(owner_sub, post_id);
    let s = f.bookmarks;
    lemma_first_index(s, which);
    match first_index(s, which) {
        Some(i) => {
            assert(which(s[i]));
            assert forall|j: int| 0 <= j < i implies (#[trigger] s[j]).owner_sub != owner_sub
                || s[j].post_id != post_id by {
                assert(!which(s[j]));
            }
        },
        None => {
            assert forall|i: int| !#[trigger] saved_entry(f, owner_sub, post_id, i) by {
                if saved_entry(f, owner_sub, post_id, i) {
                    assert(which(s[i]));
                }
            }
        },
    }
    assert forall|i: int| #[trigger] saved_entry(f, owner_sub, post_id, i) implies first_index(
        s,
        which,
    ) == Some(i) by {
        assert(which(s[i]));
        assert forall|j: int| 0 <= j < i implies !which(#[trigger] s[j]) by {}
        lemma_first_index_unique(s, which, i);
    }
}

/// Saving a live post for the first time adds an empty bookmark without a reminder; a post that was
/// saved before keeps its bookmark; an owner keeps a thousand at most.
pub proof fn law_post_is_saved(
    f: Forum,
    owner_sub: Seq<char>,
    post_id: Seq<char>,
    bookmark_id: Seq<char>,
    created_at: i64,
)
    ensures
        ({
            let (g, r) = bookmark_saving(f, owner_sub, post_id, bookmark_id, created_at);
            let saved = exists|i: int| #[trigger] saved_entry(f, owner_sub, post_id, i);
            let own = f.bookmarks.filter(|b: BookmarkRow| b.owner_sub == owner_sub).len();
            &&& r is Ok <==> post_exists(f, post_id) && (saved || own < 1000)
            &&& r is Err || saved ==> g == f
            &&& forall|i: int| #[trigger]
                saved_entry(f, owner_sub, post_id, i) && r is Ok ==> r->Ok_0 == f.bookmarks[i]
            &&& r is Ok && !saved ==> {
                &&& r->Ok_0 == (BookmarkRow {
                    bookmark_id,
                    owner_sub,
                    post_id,
                    note: Seq::empty(),
                    remind_at: None,
                    created_at,
                    updated_at: created_at,
                    version: 1,
                })
                &&& g == (Forum { bookmarks: f.bookmarks.push(r->Ok_0), ..f })
            }
        }),
{
    lemma_post_exists(f, post_id);
    lemma_saved_entry(f, owner_sub, post_id);
    assert((|b: BookmarkRow| b.owner_sub == owner_sub) =~= bookmark_by(owner_sub));
    if first_index(f.bookmarks, bookmark_of(owner_sub, post_id)) is Some {
        let i = first_index(f.bookmarks, bookmark_of(owner_sub, post_id))->0;
        assert(saved_entry(f, owner_sub, post_id, i));
    }
}

/// Whether an edit of a bookmark finds the row it was made against.
pub open spec fn may_edit(
    f: Forum,
    owner_sub: Seq<char>,
    post_id: Seq<char>,
    bookmark_id: Seq<char>,
    version: i64,
    i: int,
) -> bool {
    &&& saved_entry(f, owner_sub, post_id, i)
    &&& f.bookmarks[i].bookmark_id == bookmark_id
    &&& f.bookmarks[i].version == version
}

proof fn lemma_may_edit(
    f: Forum,
    owner_sub: Seq<char>,
    post_id: Seq<char>,
    bookmark_id: Seq<char>,
    version: i64,
)
    ensures
        edit_target(f, owner_sub, post_id, bookmark_id, version) is Ok <==> post_exists(f, post_id)
            && exists|i: int| #[trigger]
            may_edit(f, owner_sub, post_id, bookmark_id, version, i),
        forall|i: int| #[trigger]
            may_edit(f, owner_sub, post_id, bookmark_id, version, i) && post_exists(f, post_id)
                ==> edit_target(f, owner_sub, post_id, bookmark_id, version)
                == Ok::<BookmarkRow, Failure>(f.bookmarks[i]),
{
    lemma_post_exists(f, post_id);
    lemma_saved_entry(f, owner_sub, post_id);
    if let Some(i) = first_index(f.bookmarks, bookmark_of(owner_sub, post_id)) {
        assert(saved_entry(f, owner_sub, post_id, i));
        if f.bookmarks[i].bookmark_id == bookmark_id && f.bookmarks[i].version == version {
            assert(may_edit(f, owner_sub, post_id, bookmark_id, version, i));
        }
    }
}

/// Whether a moment may be set for a reminder: in the future, and at most ten years ahead.
pub open spec fn may_remind_at(at: int, now: int) -> bool {
    now < at <= now + 316224000
}

/// An edit stores the note and the reminder of the row it was made against, under the next version;
/// notes have two hundred characters at most. A refused edit changes nothing.
pub proof fn law_bookmark_is_edited(
    f: Forum,
    owner_sub: Seq<char>,
    post_id: Seq<char>,
    bookmark_id: Seq<char>,
    version: i64,
    note: Seq<char>,
    reminder: BookmarkReminderUpdate,
    changed_at: i64,
)
    ensures
        ({
            let (g, r) = bookmark_update(
                f,
                owner_sub,
                post_id,
                bookmark_id,
                version,
                note,
                reminder,
                changed_at,
            );
            &&& r is Ok <==> note.len() <= 200 && (reminder matches BookmarkReminderUpdate::SetTo(
                at,
            ) ==> may_remind_at(at as int, changed_at as int)) && post_exists(f, post_id)
                && version < i64::MAX && exists|i: int| #[trigger]
                may_edit(f, owner_sub, post_id, bookmark_id, version, i)
            &&& r is Err ==> g == f
            &&& forall|i: int| #[trigger]
                may_edit(f, owner_sub, post_id, bookmark_id, version, i) && r is Ok ==> {
                    &&& r->Ok_0 == (BookmarkRow {
                        note,
                        remind_at: match reminder {
                            BookmarkReminderUpdate::Keep => f.bookmarks[i].remind_at,
                            BookmarkReminderUpdate::Clear => None,
                            BookmarkReminderUpdate::SetTo(at) => Some(at),
                        },
                        updated_at: changed_at,
                        version: (version + 1) as i64,
                        ..f.bookmarks[i]
                    })
                    &&& g == (Forum { bookmarks: f.bookmarks.update(i, r->Ok_0), ..f })
                }
        }),
{
    lemma_may_edit(f, owner_sub, post_id, bookmark_id, version);
    lemma_saved_entry(f, owner_sub, post_id);
}

/// A due reminder is cleared, or moved to a later moment; one that is not due is left alone.
pub proof fn law_reminder_is_settled(
    f: Forum,
    owner_sub: Seq<char>,
    post_id: Seq<char>,
    bookmark_id: Seq<char>,
    version: i64,
    next: Option<i64>,
    changed_at: i64,
)
    ensures
        ({
            let (g, r) = reminder_settling(
                f,
                owner_sub,
                post_id,
                bookmark_id,
                version,
                next,
                changed_at,
            );
            let due = |i: int|
                f.bookmarks[i].remind_at is Some && f.bookmarks[i].remind_at->0 <= changed_at;
            &&& r is Ok <==> post_exists(f, post_id) && version < i64::MAX && exists|i: int|
                #[trigger]
                may_edit(f, owner_sub, post_id, bookmark_id, version, i) && due(i)
            &&& r is Err ==> g == f
            &&& forall|i: int| #[trigger]
                may_edit(f, owner_sub, post_id, bookmark_id, version, i) && r is Ok ==> {
                    &&& r->Ok_0 == (BookmarkRow {
                        remind_at: next,
                        updated_at: changed_at,
                        version: (version + 1) as i64,
                        ..f.bookmarks[i]
                    })
                    &&& g == (Forum { bookmarks: f.bookmarks.update(i, r->Ok_0), ..f })
                }
        }),
{
    lemma_may_edit(f, owner_sub, post_id, bookmark_id, version);
    lemma_saved_entry(f, owner_sub, post_id);
}

/// Snoozing is settling to a moment that may be set; a bookmark is removed by the edit that was made
/// against it, and only that one is.
pub proof fn law_bookmark_is_snoozed_or_removed(
    f: Forum,
    owner_sub: Seq<char>,
    post_id: Seq<char>,
    bookmark_id: Seq<char>,
    version: i64,
    remind_at: i64,
    changed_at: i64,
)
    ensures
        ({
            let snoozed = bookmark_snooze(
                f,
                owner_sub,
                post_id,
                bookmark_id,
                version,
                remind_at,
                changed_at,
            );
            let settled = reminder_settling(
                f,
                owner_sub,
                post_id,
                bookmark_id,
                version,
                Some(remind_at),
                changed_at,
            );
            let (g, r) = bookmark_removal(f, owner_sub, post_id, bookmark_id, version);
            &&& if may_remind_at(remind_at as int, changed_at as int) {
                snoozed == settled
            } else {
                snoozed.1 is Err && snoozed.0 == f
            }
            &&& r is Ok <==> exists|i: int| #[trigger]
                may_edit(f, owner_sub, post_id, bookmark_id, version, i)
            &&& r is Err ==> g == f
            &&& forall|i: int| #[trigger]
                may_edit(f, owner_sub, post_id, bookmark_id, version, i) ==> g == (Forum {
                    bookmarks: f.bookmarks.remove(i),
                    ..f
                })
        }),
{
    lemma_saved_entry(f, owner_sub, post_id);
    if let Some(i) = first_index(f.bookmarks, bookmark_of(owner_sub, post_id)) {
        assert(saved_entry(f, owner_sub, post_id, i));
        if f.bookmarks[i].bookmark_id == bookmark_id && f.bookmarks[i].version == version {
            assert(may_edit(f, owner_sub, post_id, bookmark_id, version, i));
        }
    }
}

// ---------------------------------------------------------------------------
// Levels and focus rules.
// ---------------------------------------------------------------------------

/// A level is set for a thread that exists; a thread has two hundred and fifty-six watchers at most.
/// The viewer then stands in that level to the thread and in no other, everybody else stands where
/// they stood, and content does not change.
pub proof fn law_level_is_set(
    f: Forum,
    thread_id: Seq<char>,
    viewer_sub: Seq<char>,
    level: ThreadFollowLevel,
    created_at: i64,
)
    requires
        consistent(f),
    ensures
        ({
            let (g, r) = level_change(f, thread_id, viewer_sub, level, created_at);
            let watchers = f.subscriptions.filter(
                |s: ThreadSubscriptionRow| s.thread_id == thread_id && s.level is Watch,
            ).len();
            &&& r is Ok <==> (exists|n: int| #[trigger] thread_entry(f, thread_id, n)) && !(level
                is Watch && !stands(f, viewer_sub, thread_id, ThreadFollowLevel::Watch) && watchers
                >= 256)
            &&& r is Err ==> g == f
            &&& r is Ok ==> {
                &&& forall|l: ThreadFollowLevel|
                    !(l is Unset) ==> (#[trigger] stands(g, viewer_sub, thread_id, l) <==> l == level)
                &&& forall|v: Seq<char>, t: Seq<char>, l: ThreadFollowLevel|
                    (v != viewer_sub || t != thread_id) && !(l is Unset) ==> (#[trigger] stands(
                        g,
                        v,
                        t,
                        l,
                    ) <==> stands(f, v, t, l))
                &&& g == (Forum {
                    subscriptions: g.subscriptions,
                    activity_events: g.activity_events,
                    activity_deliveries: g.activity_deliveries,
                    activity_receipts: g.activity_receipts,
                    ..f
                })
                &&& level is Watch ==> g.activity_events == f.activity_events
                    && g.activity_deliveries == f.activity_deliveries && g.activity_receipts
                    == f.activity_receipts
            }
        }),
{
    let (g, r) = level_change(f, thread_id, viewer_sub, level, created_at);
    let s = f.subscriptions;
    let after = g.subscriptions;
    let which = relation_of(thread_id, viewer_sub);
    lemma_thread_entry(f, thread_id);
    lemma_first_index(f.threads, thread_is(thread_id));
    assert((|s: ThreadSubscriptionRow| s.thread_id == thread_id && s.level is Watch) =~= watches(
        thread_id,
    ));
    lemma_stands(f, viewer_sub, thread_id);
    assert(stands(f, viewer_sub, thread_id, ThreadFollowLevel::Watch) <==> level_of(
        s,
        thread_id,
        viewer_sub,
    ) is Watch);
    lemma_first_index(s, which);
    if r is Ok {
        assert(after == with_level(s, thread_id, viewer_sub, level, created_at));
        assert forall|l: ThreadFollowLevel| !(l is Unset) implies (#[trigger] stands(
            g,
            viewer_sub,
            thread_id,
            l,
        ) <==> l == level) by {
            if stands(g, viewer_sub, thread_id, l) {
                let i = choose|i: int|
                    0 <= i < after.len() && (#[trigger] after[i]).thread_id == thread_id
                        && after[i].subscriber_sub == viewer_sub && after[i].level == l;
                lemma_level_row(s, thread_id, viewer_sub, level, created_at, i);
            }
            if l == level {
                match first_index(s, which) {
                    Some(k) => {
                        assert(which(s[k]));
                        assert(after[k].thread_id == thread_id);
                    },
                    None => {
                        assert(after[s.len() as int].thread_id == thread_id);
                    },
                }
            }
        }
        assert forall|v: Seq<char>, t: Seq<char>, l: ThreadFollowLevel|
            (v != viewer_sub || t != thread_id) && !(l is Unset) implies (#[trigger] stands(
            g,
            v,
            t,
            l,
        ) <==> stands(f, v, t, l)) by {
            if stands(g, v, t, l) {
                let i = choose|i: int|
                    0 <= i < after.len() && (#[trigger] after[i]).thread_id == t
                        && after[i].subscriber_sub == v && after[i].level == l;
                lemma_level_row(s, thread_id, viewer_sub, level, created_at, i);
                let j = choose|j: int| 0 <= j < s.len() && s[j] == after[i];
                assert(s[j].thread_id == t);
            }
            if stands(f, v, t, l) {
                let i = choose|i: int|
                    0 <= i < s.len() && (#[trigger] s[i]).thread_id == t && s[i].subscriber_sub == v
                        && s[i].level == l;
                match first_index(s, which) {
                    Some(k) => {
                        assert(which(s[k]));
                        assert(i != k);
                        if level is Unset {
                            let j = if i < k {
                                i
                            } else {
                                i - 1
                            };
                            assert(after[j] == s[i]);
                        } else {
                            assert(after[i] == s[i]);
                        }
                    },
                    None => {
                        assert(after[i] == s[i]);
                    },
                }
            }
        }
    }
}

/// Where a relationship comes from after a level was set.
proof fn lemma_level_row(
    s: Seq<ThreadSubscriptionRow>,
    thread_id: Seq<char>,
    viewer_sub: Seq<char>,
    level: ThreadFollowLevel,
    created_at: i64,
    i: int,
)
    requires
        distinct_by(s, relation_key()),
        0 <= i < with_level(s, thread_id, viewer_sub, level, created_at).len(),
    ensures
        ({
            let row = with_level(s, thread_id, viewer_sub, level, created_at)[i];
            if row.thread_id == thread_id && row.subscriber_sub == viewer_sub {
                row.level == level && !(level is Unset)
            } else {
                s.contains(row)
            }
        }),
{
    let which = relation_of(thread_id, viewer_sub);
    lemma_first_index(s, which);
    let after = with_level(s, thread_id, viewer_sub, level, created_at);
    match first_index(s, which) {
        Some(k) => {
            assert(which(s[k]));
            let j = if level is Unset && i >= k {
                i + 1
            } else {
                i
            };
            if j != k {
                assert(after[i] == s[j]);
                assert(relation_key()(s[k]) != relation_key()(s[j]));
            }
        },
        None => {
            if i < s.len() {
                assert(after[i] == s[i]);
                assert(!which(s[i]));
            }
        },
    }
}

/// When a viewer no longer watches a thread, the notices that came to them from watching it are
/// taken back, and no others.
pub proof fn law_unwatching_takes_notices_back(
    f: Forum,
    thread_id: Seq<char>,
    viewer_sub: Seq<char>,
    d: StoredActivityDeliveryRow,
)
    ensures
        without_watch_activity(f, thread_id, viewer_sub).activity_deliveries.contains(d)
            <==> f.activity_deliveries.contains(d) && !(event_of_thread(f, d.activity_id, thread_id)
            && d.delivery.recipient_kind is Subject && d.delivery.recipient_key == viewer_sub
            && d.delivery.reason is Following),
{
    lemma_event_of(f, d.activity_id, thread_id);
    lemma_filter_contains(
        f.activity_deliveries,
        survives_unwatch(f.activity_events, thread_id, viewer_sub),
    );
}

/// An event of the thread that nobody is told of any more is forgotten, with what was ticked off of
/// it; every other event stays.
pub proof fn law_unwatching_forgets_silent_events(
    f: Forum,
    thread_id: Seq<char>,
    viewer_sub: Seq<char>,
    e: ActivityEventRow,
    r: ActivityReceiptRow,
)
    ensures
        ({
            let g = without_watch_activity(f, thread_id, viewer_sub);
            let unheard = |id: Seq<char>|
                event_of_thread(f, id, thread_id) && !exists|k: int|
                    0 <= k < g.activity_deliveries.len() && (
                    #[trigger] g.activity_deliveries[k]).activity_id == id;
            &&& g.activity_events.contains(e) <==> f.activity_events.contains(e) && !unheard(e.id)
            &&& g.activity_receipts.contains(r) <==> f.activity_receipts.contains(r) && !unheard(
                r.activity_id,
            ) && (r.viewer_sub == viewer_sub && event_of_thread(f, r.activity_id, thread_id)
                ==> exists|k: int|
                0 <= k < g.activity_deliveries.len() && (
                #[trigger] g.activity_deliveries[k]).activity_id == r.activity_id
                    && g.activity_deliveries[k].delivery.recipient_kind is Subject
                    && g.activity_deliveries[k].delivery.recipient_key == viewer_sub)
        }),
{
    let g = without_watch_activity(f, thread_id, viewer_sub);
    let rows = g.activity_deliveries;
    assert forall|id: Seq<char>|
        some_row(rows, #[trigger] delivery_of(id)) == (exists|k: int|
            0 <= k < rows.len() && (#[trigger] rows[k]).activity_id == id) by {
        if exists|k: int| 0 <= k < rows.len() && (#[trigger] rows[k]).activity_id == id {
            let k = choose|k: int| 0 <= k < rows.len() && (#[trigger] rows[k]).activity_id == id;
            assert(delivery_of(id)(rows[k]));
        }
        if some_row(rows, delivery_of(id)) {
            let k = choose|k: int| 0 <= k < rows.len() && delivery_of(id)(#[trigger] rows[k]);
            assert(rows[k].activity_id == id);
        }
    }
    lemma_event_of(f, e.id, thread_id);
    lemma_event_of(f, r.activity_id, thread_id);
    lemma_filter_contains(
        f.activity_events,
        event_kept(f.activity_events, rows, thread_id),
    );
    lemma_filter_contains(
        f.activity_receipts,
        receipt_kept(f.activity_events, rows, thread_id, viewer_sub),
    );
    let to = delivery_of_to(r.activity_id, viewer_sub);
    if some_row(rows, to) {
        let k = choose|k: int| 0 <= k < rows.len() && to(#[trigger] rows[k]);
        assert(rows[k].activity_id == r.activity_id);
    }
    if exists|k: int|
        0 <= k < rows.len() && (#[trigger] rows[k]).activity_id == r.activity_id
            && rows[k].delivery.recipient_kind is Subject && rows[k].delivery.recipient_key
            == viewer_sub {
        let k = choose|k: int|
            0 <= k < rows.len() && (#[trigger] rows[k]).activity_id == r.activity_id
                && rows[k].delivery.recipient_kind is Subject && rows[k].delivery.recipient_key
                == viewer_sub;
        assert(to(rows[k]));
    }
}

/// A rule is set for a category that exists; a viewer keeps sixty-four at most. The viewer then has
/// that rule for the category and no other, and everybody else's rules stay.
pub proof fn law_focus_is_set(
    f: Forum,
    viewer_sub: Seq<char>,
    category_id: Seq<char>,
    level: CategoryFocusLevel,
    changed_at: i64,
)
    requires
        consistent(f),
    ensures
        ({
            let (g, r) = focus_change(f, viewer_sub, category_id, level, changed_at);
            let own = f.category_focus_rules.filter(
                |r: CategoryFocusRuleRow| r.viewer_sub == viewer_sub,
            ).len();
            let ruled = exists|i: int|
                0 <= i < f.category_focus_rules.len() && (
                #[trigger] f.category_focus_rules[i]).viewer_sub == viewer_sub
                    && f.category_focus_rules[i].category_id == category_id;
            &&& r is Ok <==> !blank_text(viewer_sub) && changed_at >= 0 && category_exists(
                f,
                category_id,
            ) && (ruled || level is Unset || own < 64)
            &&& r is Err ==> g == f
            &&& g == (Forum { category_focus_rules: g.category_focus_rules, ..f })
            &&& r is Ok ==> forall|i: int|
                0 <= i < g.category_focus_rules.len() && (
                #[trigger] g.category_focus_rules[i]).viewer_sub == viewer_sub
                    && g.category_focus_rules[i].category_id == category_id
                    ==> g.category_focus_rules[i].level == level && !(level is Unset)
            &&& r is Ok && !(level is Unset) ==> focuses(g, viewer_sub, category_id, level)
            &&& forall|x: CategoryFocusRuleRow|
                x.viewer_sub != viewer_sub || x.category_id != category_id ==> (
                #[trigger] g.category_focus_rules.contains(x) <==> f.category_focus_rules.contains(
                    x,
                ))
        }),
{
    let (g, r) = focus_change(f, viewer_sub, category_id, level, changed_at);
    let s = f.category_focus_rules;
    let after = g.category_focus_rules;
    let which = rule_of(viewer_sub, category_id);
    lemma_category_exists(f, category_id);
    assert((|r: CategoryFocusRuleRow| r.viewer_sub == viewer_sub) =~= rule_by(viewer_sub));
    lemma_first_index(s, which);
    let ruled = exists|i: int|
        0 <= i < s.len() && (#[trigger] s[i]).viewer_sub == viewer_sub && s[i].category_id
            == category_id;
    if ruled {
        let i = choose|i: int|
            0 <= i < s.len() && (#[trigger] s[i]).viewer_sub == viewer_sub && s[i].category_id
                == category_id;
        assert(which(s[i]));
    }
    match first_index(s, which) {
        Some(k) => {
            assert(which(s[k]));
            assert(s[k].viewer_sub == viewer_sub);
            assert forall|j: int| 0 <= j < s.len() && j != k implies !which(#[trigger] s[j]) by {
                assert(rule_key()(s[k]) != rule_key()(s[j]));
            }
            if r is Ok {
                assert forall|i: int|
                    0 <= i < after.len() && (#[trigger] after[i]).viewer_sub == viewer_sub
                        && after[i].category_id == category_id implies after[i].level == level && !(
                level is Unset) by {
                    let j = if level is Unset && i >= k {
                        i + 1
                    } else {
                        i
                    };
                    if j != k {
                        assert(after[i] == s[j]);
                        assert(!which(s[j]));
                    }
                }
                if !(level is Unset) {
                    assert(after[k].viewer_sub == viewer_sub);
                }
            }
            assert forall|x: CategoryFocusRuleRow|
                x.viewer_sub != viewer_sub || x.category_id != category_id implies (
            #[trigger] after.contains(x) <==> s.contains(x)) by {
                if s.contains(x) {
                    let i = choose|i: int| 0 <= i < s.len() && s[i] == x;
                    assert(i != k);
                    if after.len() < s.len() {
                        let j = if i < k {
                            i
                        } else {
                            i - 1
                        };
                        assert(after[j] == x);
                    } else {
                        assert(after[i] == x);
                    }
                }
                if after.contains(x) {
                    let i = choose|i: int| 0 <= i < after.len() && after[i] == x;
                    let j = if after.len() < s.len() && i >= k {
                        i + 1
                    } else {
                        i
                    };
                    assert(s[j] == x);
                }
            }
        },
        None => {
            if r is Ok && !(level is Unset) {
                assert(after[s.len() as int].viewer_sub == viewer_sub);
            }
            assert forall|i: int| 0 <= i < s.len() implies !((#[trigger] s[i]).viewer_sub
                == viewer_sub && s[i].category_id == category_id) by {
                assert(!which(s[i]));
            }
            assert forall|x: CategoryFocusRuleRow|
                x.viewer_sub != viewer_sub || x.category_id != category_id implies (
            #[trigger] after.contains(x) <==> s.contains(x)) by {
                if s.contains(x) {
                    let i = choose|i: int| 0 <= i < s.len() && s[i] == x;
                    assert(after[i] == x);
                }
                if after.contains(x) {
                    let i = choose|i: int| 0 <= i < after.len() && after[i] == x;
                    assert(s[i] == x);
                }
            }
        },
    }
}

// ---------------------------------------------------------------------------
// Read marks.
// ---------------------------------------------------------------------------

/// Posts of a thread are marked read, between one and twenty-four at a time, all of them or none.
/// The viewer has then read them besides what they had read before, and nobody else has read
/// anything new; new marks share the moment and the next generation.
pub proof fn law_posts_are_marked_read(
    f: Forum,
    viewer_sub: Seq<char>,
    thread_id: Seq<char>,
    post_ids: Seq<Seq<char>>,
    read_at: i64,
)
    ensures
        ({
            let (g, r) = reading_mark(f, viewer_sub, thread_id, post_ids, read_at);
            let named = |id: Seq<char>|
                id.len() > 0 && exists|m: int|
                    0 <= m < post_ids.len() && trim_text(#[trigger] post_ids[m]) == id;
            &&& r is Err ==> g == f
            &&& r is Ok ==> {
                &&& !blank_text(viewer_sub) && read_at >= 0
                &&& exists|n: int| #[trigger] thread_entry(f, thread_id, n)
                &&& forall|id: Seq<char>| #[trigger] named(id) ==> holds_post(f, thread_id, id)
                &&& forall|v: Seq<char>, id: Seq<char>| #[trigger]
                    has_read(g, v, id) <==> has_read(f, v, id) || (v == viewer_sub && named(id))
                &&& forall|i: int|
                    f.read_receipts.len() <= i < g.read_receipts.len() ==> (
                    #[trigger] g.read_receipts[i]).read_at == read_at
                        && g.read_receipts[i].read_seq == f.generation + 1
                &&& g.read_receipts.take(f.read_receipts.len() as int) == f.read_receipts
                &&& g == (Forum {
                    read_receipts: g.read_receipts,
                    generation: g.generation,
                    ..f
                })
            }
        }),
{
    let (g, r) = reading_mark(f, viewer_sub, thread_id, post_ids, read_at);
    let named = |id: Seq<char>|
        id.len() > 0 && exists|m: int|
            0 <= m < post_ids.len() && trim_text(#[trigger] post_ids[m]) == id;
    if r is Ok {
        let ids = receipt_ids(post_ids)->Ok_0;
        lemma_receipt_ids(post_ids);
        lemma_thread_entry(f, thread_id);
        lemma_first_index(f.threads, thread_is(thread_id));
        assert(thread_entry(f, thread_id, first_index(f.threads, thread_is(thread_id))->0));
        assert forall|id: Seq<char>| #[trigger] named(id) implies holds_post(f, thread_id, id) by {
            assert(ids.contains(id));
            let i = choose|i: int| 0 <= i < ids.len() && ids[i] == id;
            assert(!stranger_to(f.posts, thread_id)(ids[i]));
            lemma_holds_post(f, thread_id, id);
        }
        let lacking = not_yet_read(f.read_receipts, viewer_sub);
        let missing = ids.filter(lacking);
        let olds = f.read_receipts.len() as int;
        lemma_filter_contains(ids, lacking);
        assert(g.read_receipts =~= f.read_receipts + missing.map_values(
            new_receipt(viewer_sub, read_at, (f.generation + 1) as i64),
        ));
        assert(g.read_receipts.take(olds) =~= f.read_receipts);
        assert forall|v: Seq<char>, id: Seq<char>| #[trigger]
            has_read(g, v, id) <==> has_read(f, v, id) || (v == viewer_sub && named(id)) by {
            lemma_receipt(f, v, id);
            if has_read(f, v, id) {
                let i = choose|i: int|
                    0 <= i < f.read_receipts.len() && (#[trigger] f.read_receipts[i]).viewer_sub
                        == v && f.read_receipts[i].post_id == id;
                assert(g.read_receipts[i] == f.read_receipts[i]);
            } else if v == viewer_sub && named(id) {
                assert(ids.contains(id));
                assert(lacking(id));
                assert(missing.contains(id));
                let k = choose|k: int| 0 <= k < missing.len() && missing[k] == id;
                assert(g.read_receipts[olds + k].viewer_sub == viewer_sub);
            }
            if has_read(g, v, id) {
                let i = choose|i: int|
                    0 <= i < g.read_receipts.len() && (#[trigger] g.read_receipts[i]).viewer_sub
                        == v && g.read_receipts[i].post_id == id;
                if i < olds {
                    assert(f.read_receipts[i] == g.read_receipts[i]);
                } else {
                    assert(missing[i - olds] == id);
                    assert(missing.contains(id));
                    assert(ids.contains(id));
                }
            }
        }
    }
}

proof fn lemma_receipt_ids(ids: Seq<Seq<char>>)
    requires
        receipt_ids(ids) is Ok,
    ensures
        forall|id: Seq<char>| #[trigger]
            receipt_ids(ids)->Ok_0.contains(id) <==> id.len() > 0 && exists|m: int|
                0 <= m < ids.len() && trim_text(#[trigger] ids[m]) == id,
{
    let texts = trimmed(ids);
    lemma_nonempty(texts);
    law_ordered_set(nonempty(texts));
    assert forall|id: Seq<char>| #[trigger]
        receipt_ids(ids)->Ok_0.contains(id) <==> id.len() > 0 && exists|m: int|
            0 <= m < ids.len() && trim_text(#[trigger] ids[m]) == id by {
        if texts.contains(id) {
            let m = choose|m: int| 0 <= m < texts.len() && texts[m] == id;
            assert(trim_text(ids[m]) == id);
        }
        if exists|m: int| 0 <= m < ids.len() && trim_text(#[trigger] ids[m]) == id {
            let m = choose|m: int| 0 <= m < ids.len() && trim_text(#[trigger] ids[m]) == id;
            assert(texts[m] == id);
        }
    }
}

/// A viewer ticks off an event that they were told of and whose post is live, or takes that back;
/// nobody else's marks change.
pub proof fn law_event_is_ticked_off(
    f: Forum,
    activity_id: Seq<char>,
    viewer_sub: Seq<char>,
    read: bool,
    changed_at: i64,
)
    ensures
        ({
            let (g, r) = activity_mark(f, activity_id, viewer_sub, read, changed_at);
            &&& r is Err ==> g == f
            &&& r is Ok ==> {
                &&& first_reason(f, viewer_sub, activity_id) is Some
                &&& ticked(g, viewer_sub, activity_id) == read
                &&& forall|v: Seq<char>, id: Seq<char>|
                    v != viewer_sub || id != activity_id ==> (#[trigger] ticked(g, v, id) <==> ticked(
                        f,
                        v,
                        id,
                    ))
                &&& g == (Forum { activity_receipts: g.activity_receipts, ..f })
            }
        }),
{
    let (g, r) = activity_mark(f, activity_id, viewer_sub, read, changed_at);
    let s = f.activity_receipts;
    let after = g.activity_receipts;
    let keep = activity_receipt_not_of(activity_id, viewer_sub);
    let others = s.filter(keep);
    if r is Ok {
        lemma_filter_contains(s, keep);
        let to = delivery_of_to(activity_id, viewer_sub);
        let rows = f.activity_deliveries;
        let k = choose|k: int| 0 <= k < rows.len() && to(#[trigger] rows[k]);
        assert(rows[k].activity_id == activity_id);
        assert(heard(f, viewer_sub, activity_id, rows[k].delivery.reason));
        assert(others.len() <= after.len());
        assert forall|i: int| 0 <= i < others.len() implies after[i] == #[trigger] others[i] by {}
        if read {
            assert(after[others.len() as int].activity_id == activity_id);
        } else if ticked(g, viewer_sub, activity_id) {
            let i = choose|i: int|
                0 <= i < after.len() && (#[trigger] after[i]).activity_id == activity_id
                    && after[i].viewer_sub == viewer_sub;
            assert(others.contains(after[i]));
        }
        assert forall|v: Seq<char>, id: Seq<char>|
            v != viewer_sub || id != activity_id implies (#[trigger] ticked(g, v, id) <==> ticked(
            f,
            v,
            id,
        )) by {
            if ticked(f, v, id) {
                let i = choose|i: int|
                    0 <= i < s.len() && (#[trigger] s[i]).activity_id == id && s[i].viewer_sub == v;
                assert(s.contains(s[i]));
                assert(others.contains(s[i]));
                let j = choose|j: int| 0 <= j < others.len() && others[j] == s[i];
                assert(after[j] == s[i]);
            }
            if ticked(g, v, id) {
                let i = choose|i: int|
                    0 <= i < after.len() && (#[trigger] after[i]).activity_id == id
                        && after[i].viewer_sub == v;
                assert(i < others.len());
                assert(others.contains(others[i]));
                let j = choose|j: int| 0 <= j < s.len() && s[j] == others[i];
                assert(s[j].activity_id == id);
            }
        }
    }
}

// ---------------------------------------------------------------------------
// Bans and categories.
// ---------------------------------------------------------------------------

/// A ban replaces the one its author had, or is added; no other ban changes.
pub proof fn law_ban_is_kept(banned: Seq<BannedAuthorRow>, ban: BannedAuthorRow)
    requires
        distinct_by(banned, ban_key()),
    ensures
        forall|b: BannedAuthorRow| #[trigger]
            with_ban(banned, ban).contains(b) <==> b == ban || (banned.contains(b) && b.author_sub
                != ban.author_sub),
        forall|b: BannedAuthorRow|
            banned.filter(ban_not_of(ban.author_sub)).contains(b) <==> banned.contains(b)
                && b.author_sub != ban.author_sub,
{
    let which = ban_of(ban.author_sub);
    let after = with_ban(banned, ban);
    lemma_first_index(banned, which);
    lemma_filter_contains(banned, ban_not_of(ban.author_sub));
    assert forall|b: BannedAuthorRow| #[trigger]
        after.contains(b) <==> b == ban || (banned.contains(b) && b.author_sub != ban.author_sub) by {
        match first_index(banned, which) {
            Some(k) => {
                assert(which(banned[k]));
                assert(after[k] == ban);
                if after.contains(b) {
                    let i = choose|i: int| 0 <= i < after.len() && after[i] == b;
                    if i != k {
                        assert(banned[i] == b);
                        assert(ban_key()(banned[i]) != ban_key()(banned[k]));
                    }
                }
                if banned.contains(b) && b.author_sub != ban.author_sub {
                    let i = choose|i: int| 0 <= i < banned.len() && banned[i] == b;
                    assert(after[i] == b);
                }
            },
            None => {
                assert(after[banned.len() as int] == ban);
                if after.contains(b) {
                    let i = choose|i: int| 0 <= i < after.len() && after[i] == b;
                    if i < banned.len() {
                        assert(banned[i] == b);
                        assert(!which(banned[i]));
                    }
                }
                if banned.contains(b) {
                    let i = choose|i: int| 0 <= i < banned.len() && banned[i] == b;
                    assert(after[i] == b);
                }
            },
        }
    }
}

/// Renaming, reformatting and reordering change that of the one category; a category is created
/// under a free identifier only; the defaults fill an empty table only.
pub proof fn law_category_edits(
    f: Forum,
    id: Seq<char>,
    c: int,
    name: Seq<char>,
    format: CategoryFormat,
    sort_order: i64,
    category: CategoryRow,
    defaults: Seq<CategoryRow>,
)
    requires
        category_entry(f, id, c),
    ensures
        update_first(f.categories, category_is(id), renamed(name)) == f.categories.update(
            c,
            CategoryRow { name, ..f.categories[c] },
        ),
        update_first(f.categories, category_is(id), reformatted(format)) == f.categories.update(
            c,
            CategoryRow { format, ..f.categories[c] },
        ),
        update_first(f.categories, category_is(id), reordered(sort_order)) == f.categories.update(
            c,
            CategoryRow { sort_order, ..f.categories[c] },
        ),
        category_creation(f, category) == (if category_exists(f, category.id) {
            f
        } else {
            Forum { categories: f.categories.push(category), ..f }
        }),
        seeded(f, defaults) == f,
        seeded(Forum { categories: Seq::empty(), ..f }, defaults).categories == defaults,
{
    let which = category_is(id);
    assert(which(f.categories[c]));
    assert forall|j: int| 0 <= j < c implies !which(#[trigger] f.categories[j]) by {}
    lemma_first_index_unique(f.categories, which, c);
    lemma_category_exists(f, category.id);
}

/// A category changes its format unless it would become a discussion while one of its threads names
/// an answer. It is deleted once no thread is left in it, and everybody's rules for it with it.
pub proof fn law_category_changes(f: Forum, id: Seq<char>, format: CategoryFormat, c: int)
    requires
        category_entry(f, id, c),
    ensures
        ({
            let (g, r) = category_transition(f, id, format);
            let (h, gone) = category_deletion(f, id);
            let answered = exists|n: int|
                0 <= n < f.threads.len() && (#[trigger] f.threads[n]).category_id == id
                    && names_an_answer(f, f.threads[n]);
            let inhabited = exists|n: int|
                0 <= n < f.threads.len() && (#[trigger] f.threads[n]).category_id == id;
            &&& r is Ok <==> f.categories[c].format == format || format is Question || !answered
            &&& r is Err ==> g == f
            &&& r is Ok ==> g == (Forum {
                categories: f.categories.update(c, CategoryRow { format, ..f.categories[c] }),
                ..f
            })
            &&& gone is Ok <==> !inhabited
            &&& gone is Err ==> h == f
            &&& gone is Ok ==> h == (Forum {
                categories: f.categories.filter(|k: CategoryRow| k.id != id),
                category_focus_rules: f.category_focus_rules.filter(
                    |k: CategoryFocusRuleRow| k.category_id != id,
                ),
                ..f
            })
        }),
{
    let which = category_is(id);
    assert(which(f.categories[c]));
    assert forall|j: int| 0 <= j < c implies !which(#[trigger] f.categories[j]) by {}
    lemma_first_index_unique(f.categories, which, c);
    let test = answered_in(f, id);
    assert forall|t: ThreadRow| #[trigger] test(t) == (t.category_id == id && names_an_answer(
        f,
        t,
    )) by {
        lemma_names_an_answer(f, t);
    }
    if some_row(f.threads, test) {
        let n = choose|n: int| 0 <= n < f.threads.len() && test(#[trigger] f.threads[n]);
        assert(f.threads[n].category_id == id);
    }
    if exists|n: int|
        0 <= n < f.threads.len() && (#[trigger] f.threads[n]).category_id == id && names_an_answer(
            f,
            f.threads[n],
        ) {
        let n = choose|n: int|
            0 <= n < f.threads.len() && (#[trigger] f.threads[n]).category_id == id
                && names_an_answer(f, f.threads[n]);
        assert(test(f.threads[n]));
    }
    if some_row(f.threads, thread_in(id)) {
        let n = choose|n: int| 0 <= n < f.threads.len() && thread_in(id)(#[trigger] f.threads[n]);
        assert(f.threads[n].category_id == id);
    }
    if exists|n: int| 0 <= n < f.threads.len() && (#[trigger] f.threads[n]).category_id == id {
        let n = choose|n: int| 0 <= n < f.threads.len() && (#[trigger] f.threads[n]).category_id == id;
        assert(thread_in(id)(f.threads[n]));
    }
    if f.categories[c].format == format {
        assert(f.categories.update(c, CategoryRow { format, ..f.categories[c] }) =~= f.categories);
    }
    assert((|k: CategoryRow| k.id != id) =~= category_is_not(id));
    assert((|k: CategoryFocusRuleRow| k.category_id != id) =~= rule_not_for(id));
}

// ---------------------------------------------------------------------------
// Bounds.
// ---------------------------------------------------------------------------

/// The bounds that requests are held to.
pub proof fn law_bounds(
    note: Seq<char>,
    remind_at: int,
    now: int,
    limit: int,
    as_of: int,
    names: Seq<Seq<char>>,
    version: i64,
)
    ensures
        note_check(note) is Ok <==> note.len() <= 200,
        reminder_check(remind_at, now) is Ok <==> may_remind_at(remind_at, now),
        focus_page_check(limit, as_of) is Ok <==> as_of >= 0 && 0 <= limit <= 30,
        mention_aliases(names) is Ok <==> alias_list(names).len() <= 32,
        reading_ids(names) is Ok <==> ordered_set(nonblank(names)).len() <= 200,
        signal_ids(names) is Ok <==> ordered_set(nonempty(trimmed(names))).len() <= 200,
        receipt_ids(names) is Ok <==> 1 <= ordered_set(nonempty(trimmed(names))).len() <= 24,
        next_version(version) == (if version < i64::MAX {
            Ok::<i64, Failure>((version + 1) as i64)
        } else {
            next_version(i64::MAX)
        }),
        next_version(i64::MAX) is Err,
{
}

/// A catch-up page is held to its snapshot: the bounds are not negative, at most thirty-one rows are
/// asked for, and a cursor comes from the same view of the same snapshot.
pub proof fn law_catch_up_bounds(
    view: CatchUpView,
    as_of: int,
    generation: int,
    cursor: Option<CatchUpCursorRow>,
    limit: int,
)
    ensures
        catch_up_page_check(view, as_of, generation, cursor, limit) is Ok <==> {
            &&& as_of >= 0 && generation >= 0
            &&& 0 <= limit <= 31
            &&& cursor matches Some(c) ==> c.view == view && c.as_of == as_of
                && c.snapshot_generation == generation && !blank_text(c.thread_id) && 0
                <= c.activity_at <= as_of
        },
{
}

/// A desk is refused outside its bounds and for a snapshot that is still to come; nothing is looked
/// for where no row is asked for.
pub proof fn law_desk_is_refused(f: Forum, q: CatchUpQuery, limit: int)
    ensures
        ({
            let r = catch_up(f, q, limit);
            let held = catch_up_page_check(
                q.view,
                q.as_of as int,
                q.generation as int,
                q.before,
                limit,
            ) is Ok;
            &&& r is Ok <==> held && (limit == 0 || q.generation <= f.generation)
            &&& r is Err ==> r->Err_0 is InvalidOperation
            &&& held && limit == 0 ==> r->Ok_0.len() == 0
        }),
{
}

// ---------------------------------------------------------------------------
// Moments.
// ---------------------------------------------------------------------------

/// A level that is set carries the moment it was set.
pub proof fn law_level_keeps_its_moment(
    f: Forum,
    id: Seq<char>,
    viewer_sub: Seq<char>,
    level: ThreadFollowLevel,
    at: i64,
    i: int,
)
    requires
        consistent(f),
        level_change(f, id, viewer_sub, level, at).1 is Ok,
        0 <= i < level_change(f, id, viewer_sub, level, at).0.subscriptions.len(),
    ensures
        ({
            let row = level_change(f, id, viewer_sub, level, at).0.subscriptions[i];
            row.thread_id == id && row.subscriber_sub == viewer_sub ==> row.created_at == at
        }),
{
    let subs = f.subscriptions;
    let after = with_level(subs, id, viewer_sub, level, at);
    let which = relation_of(id, viewer_sub);
    lemma_first_index(subs, which);
    match first_index(subs, which) {
        Some(k) => {
            assert(which(subs[k]));
            let j = if level is Unset && i >= k {
                i + 1
            } else {
                i
            };
            if j != k {
                assert(after[i] == subs[j]);
                assert(relation_key()(subs[k]) != relation_key()(subs[j]));
            }
        },
        None => {
            if i < subs.len() {
                assert(!which(subs[i]));
            }
        },
    }
}

/// A rule carries the moment it was first set and the moment it was last changed, which setting it
/// again does not move.
pub proof fn law_rule_keeps_its_moments(
    f: Forum,
    id: Seq<char>,
    viewer_sub: Seq<char>,
    level: CategoryFocusLevel,
    at: i64,
    i: int,
)
    requires
        consistent(f),
        focus_change(f, viewer_sub, id, level, at).1 is Ok,
        0 <= i < focus_change(f, viewer_sub, id, level, at).0.category_focus_rules.len(),
    ensures
        ({
            let row = focus_change(f, viewer_sub, id, level, at).0.category_focus_rules[i];
            own_rule(row, viewer_sub, id) ==> if focuses(f, viewer_sub, id, level) {
                f.category_focus_rules.contains(row)
            } else {
                row.updated_at == at && if exists|j: int|
                    0 <= j < f.category_focus_rules.len() && own_rule(
                        #[trigger] f.category_focus_rules[j],
                        viewer_sub,
                        id,
                    ) {
                    exists|j: int|
                        0 <= j < f.category_focus_rules.len() && own_rule(
                            #[trigger] f.category_focus_rules[j],
                            viewer_sub,
                            id,
                        ) && f.category_focus_rules[j].created_at == row.created_at
                } else {
                    row.created_at == at
                }
            }
        }),
{
    let rules = f.category_focus_rules;
    let after = focus_change(f, viewer_sub, id, level, at).0.category_focus_rules;
    let own = rule_of(viewer_sub, id);
    lemma_first_index(rules, own);
    match first_index(rules, own) {
        Some(k) => {
            assert(own(rules[k]));
            assert(own_rule(rules[k], viewer_sub, id));
            if focuses(f, viewer_sub, id, level) {
                let m = choose|m: int|
                    0 <= m < rules.len() && (#[trigger] rules[m]).viewer_sub == viewer_sub
                        && rules[m].category_id == id && rules[m].level == level;
                assert(own(rules[m]));
                if m != k {
                    assert(rule_key()(rules[k]) != rule_key()(rules[m]));
                }
            } else {
                assert(rules[k].level != level);
            }
            let j = if level is Unset && i >= k {
                i + 1
            } else {
                i
            };
            if j != k {
                assert(after[i] == rules[j]);
                assert(rule_key()(rules[k]) != rule_key()(rules[j]));
            } else if rules[k].level == level {
                assert(rules.contains(rules[k]));
            }
        },
        None => {
            assert forall|m: int| 0 <= m < rules.len() implies !own_rule(
                #[trigger] rules[m],
                viewer_sub,
                id,
            ) by {
                assert(!own(rules[m]));
            }
            if i < rules.len() {
                assert(!own(rules[i]));
            }
        },
    }
}

/// Whether a rule is the viewer's for the category.
pub open spec fn own_rule(
    row: CategoryFocusRuleRow,
    viewer_sub: Seq<char>,
    category_id: Seq<char>,
) -> bool {
    row.viewer_sub == viewer_sub && row.category_id == category_id
}

/// A tick carries the moment it was made; an alias that was learned carries the moment of the post
/// it was learned from.
pub proof fn law_marks_keep_their_moments(
    f: Forum,
    activity_id: Seq<char>,
    viewer_sub: Seq<char>,
    email: Seq<char>,
    at: i64,
)
    ensures
        ({
            let (g, r) = activity_mark(f, activity_id, viewer_sub, true, at);
            let h = with_alias(f, viewer_sub, email, at);
            &&& r is Ok ==> forall|i: int|
                0 <= i < g.activity_receipts.len() && (
                #[trigger] g.activity_receipts[i]).activity_id == activity_id
                    && g.activity_receipts[i].viewer_sub == viewer_sub
                    ==> g.activity_receipts[i].read_at == at
            &&& forall|i: int|
                f.identity_aliases.len() <= i < h.identity_aliases.len() ==> (
                #[trigger] h.identity_aliases[i]).created_at == at && h.identity_aliases[i].subject
                    == viewer_sub
            &&& h.identity_aliases.len() <= f.identity_aliases.len() + 1
            &&& h.identity_aliases.take(f.identity_aliases.len() as int) == f.identity_aliases
        }),
{
    let (g, r) = activity_mark(f, activity_id, viewer_sub, true, at);
    let keep = activity_receipt_not_of(activity_id, viewer_sub);
    let others = f.activity_receipts.filter(keep);
    let h = with_alias(f, viewer_sub, email, at);
    assert(h.identity_aliases.take(f.identity_aliases.len() as int) =~= f.identity_aliases);
    if r is Ok {
        lemma_filter_contains(f.activity_receipts, keep);
        assert forall|i: int|
            0 <= i < g.activity_receipts.len() && (#[trigger] g.activity_receipts[i]).activity_id
                == activity_id && g.activity_receipts[i].viewer_sub == viewer_sub implies g.activity_receipts[i].read_at
            == at by {
            if i < others.len() {
                assert(others.contains(others[i]));
                assert(keep(others[i]));
            }
        }
    }
}

} // verus!
