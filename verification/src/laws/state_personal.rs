//! Personal records keep the store consistent.

use vstd::prelude::*;

use crate::laws::order::{law_ordered_set, law_text_less_irreflexive};
use crate::laws::state::{
    about_live_post, activity_consistent, activity_receipt_key, ban_key, bookmark_key, consistent,
    for_live_category, for_live_post, lemma_content_untouched, lemma_post_is, lemma_untouched,
    of_known_delivery, of_known_event, on_live_post, reaction_key, read_by_clock, receipt_key,
    relation_key, relations_consistent, rule_key, to_live_thread,
};
use crate::laws::tables::{
    all_rows, distinct_by, lemma_all_filter, lemma_count_push, lemma_count_remove,
    lemma_count_update, lemma_distinct_append, lemma_distinct_filter, lemma_distinct_push,
    lemma_distinct_remove, lemma_distinct_update, lemma_some_filter_keeps,
};
use crate::model::{
    ActivityEventRow, BannedAuthorRow, BookmarkRow, CategoryFocusLevel, ThreadFollowLevel,
};
use crate::rows::{count_rows, first_index, lemma_filter_contains, lemma_first_index, some_row};
use crate::store::activity::{
    activity_mark, activity_receipt_not_of, activity_receipt_of, batch_mark, batch_target,
    event_is, with_receipts,
};
use crate::store::bookmarks::{
    bookmark_by, bookmark_removal, bookmark_saving, bookmark_snooze, bookmark_update, edit_stored,
    edit_target, new_bookmark, reminder_after, reminder_settling, with_bookmark,
};
use crate::store::catch_up::{new_receipt, not_yet_read, reading_mark, stranger_to};
use crate::store::editing::event_is_in;
use crate::store::focus::{focus_change, rule_by, rule_of};
use crate::store::follow::{
    bookmark_of, delivery_of, delivery_of_to, event_kept, level_change, level_of, receipt_kept,
    receipt_of, relation_of, survives_unwatch, with_level, without_watch_activity,
};
use crate::store::memory::Forum;
use crate::store::posting::watches;
use crate::store::reactions::{ban_not_of, ban_of, reaction_is, reaction_toggle, with_ban};
use crate::store::rules::{next_version, nonempty, receipt_ids, trimmed};
use crate::store::tables::thread_is;
use crate::store::types::{
    ActivityReceiptRow, BookmarkReminderUpdate, CategoryFocusRuleRow, MAX_BOOKMARKS_PER_USER,
    MAX_CATEGORY_FOCUS_RULES, MAX_THREAD_FOLLOWERS, ReactionRow, StoredActivityDeliveryRow,
    ThreadSubscriptionRow,
};
use crate::text::text_less;

verus! {

// ---------------------------------------------------------------------------
// Following.
// ---------------------------------------------------------------------------

/// The relationships after one was set.
proof fn lemma_level_set(
    f: Forum,
    thread_id: Seq<char>,
    viewer_sub: Seq<char>,
    level: ThreadFollowLevel,
    created_at: i64,
)
    requires
        relations_consistent(f),
        some_row(f.threads, thread_is(thread_id)),
        level is Watch && !(level_of(f.subscriptions, thread_id, viewer_sub) is Watch)
            ==> count_rows(f.subscriptions, watches(thread_id)) < MAX_THREAD_FOLLOWERS,
    ensures
        relations_consistent(
            (Forum {
                subscriptions: with_level(
                    f.subscriptions,
                    thread_id,
                    viewer_sub,
                    level,
                    created_at,
                ),
                ..f
            }),
        ),
{
    let s = f.subscriptions;
    let r = with_level(s, thread_id, viewer_sub, level, created_at);
    let which = relation_of(thread_id, viewer_sub);
    let added = ThreadSubscriptionRow { thread_id, subscriber_sub: viewer_sub, level, created_at };
    lemma_first_index(s, which);
    match first_index(s, which) {
        Some(i) => {
            assert(to_live_thread(f.threads)(s[i]));
            if level is Unset {
                lemma_distinct_remove(s, i, relation_key());
                assert forall|k: int| 0 <= k < r.len() implies to_live_thread(f.threads)(
                    #[trigger] r[k],
                ) by {
                    let from = if k < i {
                        k
                    } else {
                        k + 1
                    };
                    assert(to_live_thread(f.threads)(s[from]));
                }
            } else {
                let x = ThreadSubscriptionRow { level, created_at, ..s[i] };
                lemma_distinct_update(s, i, x, relation_key());
                assert forall|k: int| 0 <= k < r.len() implies to_live_thread(f.threads)(
                    #[trigger] r[k],
                ) by {
                    assert(to_live_thread(f.threads)(s[k]));
                }
            }
        },
        None => {
            if !(level is Unset) {
                assert forall|k: int| 0 <= k < s.len() implies relation_key()(#[trigger] s[k])
                    != relation_key()(added) by {
                    assert(!which(s[k]));
                }
                lemma_distinct_push(s, added, relation_key());
                assert forall|k: int| 0 <= k < r.len() implies to_live_thread(f.threads)(
                    #[trigger] r[k],
                ) by {
                    if k < s.len() {
                        assert(to_live_thread(f.threads)(s[k]));
                    }
                }
            }
        },
    }
    assert forall|id: Seq<char>|
        #[trigger] count_rows(r, watches(id)) <= MAX_THREAD_FOLLOWERS by {
        assert(count_rows(s, watches(id)) <= MAX_THREAD_FOLLOWERS);
        match first_index(s, which) {
            Some(i) => {
                if level is Unset {
                    lemma_count_remove(s, i, watches(id));
                } else {
                    lemma_count_update(
                        s,
                        i,
                        ThreadSubscriptionRow { level, created_at, ..s[i] },
                        watches(id),
                    );
                }
            },
            None => {
                lemma_count_push(s, added, watches(id));
            },
        }
    }
}

/// The activity after a viewer stopped watching.
proof fn lemma_unwatched(f: Forum, thread_id: Seq<char>, viewer_sub: Seq<char>)
    requires
        activity_consistent(f),
    ensures
        activity_consistent(without_watch_activity(f, thread_id, viewer_sub)),
{
    let g = without_watch_activity(f, thread_id, viewer_sub);
    let events = f.activity_events;
    let survives = survives_unwatch(events, thread_id, viewer_sub);
    let kept = event_kept(events, g.activity_deliveries, thread_id);
    lemma_all_filter(events, kept, about_live_post(f.posts));
    lemma_all_filter(f.activity_deliveries, survives, of_known_event(events));
    assert forall|i: int| 0 <= i < g.activity_deliveries.len() implies of_known_event(
        g.activity_events,
    )(#[trigger] g.activity_deliveries[i]) by {
        let d = g.activity_deliveries[i];
        assert(of_known_event(events)(d));
        assert(delivery_of(d.activity_id)(g.activity_deliveries[i]));
        lemma_some_filter_keeps(events, kept, event_is(d.activity_id));
    }
    let keep_receipt = receipt_kept(events, g.activity_deliveries, thread_id, viewer_sub);
    lemma_all_filter(
        f.activity_receipts,
        keep_receipt,
        of_known_delivery(f.activity_deliveries),
    );
    assert forall|i: int| 0 <= i < g.activity_receipts.len() implies of_known_delivery(
        g.activity_deliveries,
    )(#[trigger] g.activity_receipts[i]) by {
        let r = g.activity_receipts[i];
        assert(keep_receipt(r));
        assert(of_known_delivery(f.activity_deliveries)(r));
        if r.viewer_sub != viewer_sub || !some_row(events, event_is_in(r.activity_id, thread_id)) {
            lemma_some_filter_keeps(
                f.activity_deliveries,
                survives,
                delivery_of_to(r.activity_id, r.viewer_sub),
            );
        }
    }
    lemma_distinct_filter(f.activity_receipts, keep_receipt, activity_receipt_key());
}

/// Setting a viewer's relationship to a thread keeps the forum consistent.
pub proof fn law_level_change_is_consistent(
    f: Forum,
    thread_id: Seq<char>,
    viewer_sub: Seq<char>,
    level: ThreadFollowLevel,
    created_at: i64,
)
    requires
        consistent(f),
    ensures
        consistent(level_change(f, thread_id, viewer_sub, level, created_at).0),
{
    if level_change(f, thread_id, viewer_sub, level, created_at).1 is Ok {
        lemma_level_set(f, thread_id, viewer_sub, level, created_at);
        let g = Forum {
            subscriptions: with_level(f.subscriptions, thread_id, viewer_sub, level, created_at),
            ..f
        };
        lemma_content_untouched(f, g);
        lemma_untouched(f, g);
        if !(level is Watch) {
            let h = without_watch_activity(g, thread_id, viewer_sub);
            lemma_unwatched(g, thread_id, viewer_sub);
            lemma_content_untouched(g, h);
            lemma_untouched(g, h);
        }
    }
}

/// Setting a focus rule keeps the forum consistent.
pub proof fn law_focus_change_is_consistent(
    f: Forum,
    viewer_sub: Seq<char>,
    category_id: Seq<char>,
    level: CategoryFocusLevel,
    changed_at: i64,
)
    requires
        consistent(f),
    ensures
        consistent(focus_change(f, viewer_sub, category_id, level, changed_at).0),
{
    let g = focus_change(f, viewer_sub, category_id, level, changed_at).0;
    let s = f.category_focus_rules;
    let r = g.category_focus_rules;
    let which = rule_of(viewer_sub, category_id);
    let live = for_live_category(f.categories);
    lemma_first_index(s, which);
    if r != s {
        match first_index(s, which) {
            Some(i) => {
                if level is Unset {
                    lemma_distinct_remove(s, i, rule_key());
                    assert forall|k: int| 0 <= k < r.len() implies live(#[trigger] r[k]) by {
                        let from = if k < i {
                            k
                        } else {
                            k + 1
                        };
                        assert(live(s[from]));
                    }
                    assert forall|viewer: Seq<char>|
                        #[trigger] count_rows(r, rule_by(viewer)) <= MAX_CATEGORY_FOCUS_RULES by {
                        lemma_count_remove(s, i, rule_by(viewer));
                        assert(count_rows(s, rule_by(viewer)) <= MAX_CATEGORY_FOCUS_RULES);
                    }
                } else {
                    let x = CategoryFocusRuleRow { level, updated_at: changed_at, ..s[i] };
                    lemma_distinct_update(s, i, x, rule_key());
                    assert forall|k: int| 0 <= k < r.len() implies live(#[trigger] r[k]) by {
                        assert(live(s[k]));
                    }
                    assert forall|viewer: Seq<char>|
                        #[trigger] count_rows(r, rule_by(viewer)) <= MAX_CATEGORY_FOCUS_RULES by {
                        lemma_count_update(s, i, x, rule_by(viewer));
                        assert(count_rows(s, rule_by(viewer)) <= MAX_CATEGORY_FOCUS_RULES);
                    }
                }
            },
            None => {
                let x = CategoryFocusRuleRow {
                    viewer_sub,
                    category_id,
                    level,
                    created_at: changed_at,
                    updated_at: changed_at,
                };
                assert(r == s.push(x));
                assert forall|k: int| 0 <= k < s.len() implies rule_key()(#[trigger] s[k])
                    != rule_key()(x) by {
                    assert(!which(s[k]));
                }
                lemma_distinct_push(s, x, rule_key());
                assert forall|k: int| 0 <= k < r.len() implies live(#[trigger] r[k]) by {
                    if k < s.len() {
                        assert(live(s[k]));
                    }
                }
                assert forall|viewer: Seq<char>|
                    #[trigger] count_rows(r, rule_by(viewer)) <= MAX_CATEGORY_FOCUS_RULES by {
                    lemma_count_push(s, x, rule_by(viewer));
                    assert(count_rows(s, rule_by(viewer)) <= MAX_CATEGORY_FOCUS_RULES);
                }
            },
        }
        lemma_content_untouched(f, g);
        lemma_untouched(f, g);
    } else {
        assert(g =~= f);
    }
}

// ---------------------------------------------------------------------------
// Reading.
// ---------------------------------------------------------------------------

proof fn lemma_distinct_from_filter<A>(s: Seq<A>, p: spec_fn(A) -> bool)
    requires
        s.no_duplicates(),
    ensures
        s.filter(p).no_duplicates(),
{
    let key = |x: A| x;
    lemma_distinct_filter(s, p, key);
    let r = s.filter(p);
    assert forall|i: int, j: int| 0 <= i < r.len() && 0 <= j < r.len() && i != j implies r[i]
        != r[j] by {
        assert(key(r[i]) != key(r[j]));
    }
}

/// Marking posts read keeps the forum consistent.
pub proof fn law_reading_mark_is_consistent(
    f: Forum,
    viewer_sub: Seq<char>,
    thread_id: Seq<char>,
    post_ids: Seq<Seq<char>>,
    read_at: i64,
)
    requires
        consistent(f),
    ensures
        consistent(reading_mark(f, viewer_sub, thread_id, post_ids, read_at).0),
{
    let (g, r) = reading_mark(f, viewer_sub, thread_id, post_ids, read_at);
    if r is Ok {
        let ids = receipt_ids(post_ids)->Ok_0;
        let test = not_yet_read(f.read_receipts, viewer_sub);
        let missing = ids.filter(test);
        if missing.len() > 0 {
            let seq = (f.generation + 1) as i64;
            let added = missing.map_values(new_receipt(viewer_sub, read_at, seq));
            law_ordered_set(nonempty(trimmed(post_ids)));
            assert(ids.no_duplicates()) by {
                assert forall|i: int, j: int|
                    0 <= i < ids.len() && 0 <= j < ids.len() && i != j implies ids[i] != ids[j] by {
                    law_text_less_irreflexive(ids[i]);
                    if i < j {
                        assert(text_less(ids[i], ids[j]));
                    } else {
                        assert(text_less(ids[j], ids[i]));
                    }
                }
            }
            lemma_distinct_from_filter(ids, test);
            lemma_filter_contains(ids, test);
            assert forall|i: int, j: int|
                0 <= i < added.len() && 0 <= j < added.len() && i != j implies receipt_key()(
                #[trigger] added[i],
            ) != receipt_key()(#[trigger] added[j]) by {
                assert(missing[i] != missing[j]);
            }
            assert forall|i: int, j: int|
                0 <= i < f.read_receipts.len() && 0 <= j < added.len() implies receipt_key()(
                #[trigger] f.read_receipts[i],
            ) != receipt_key()(#[trigger] added[j]) by {
                assert(missing.contains(missing[j]));
                if receipt_key()(f.read_receipts[i]) == receipt_key()(added[j]) {
                    assert(receipt_of(viewer_sub, missing[j])(f.read_receipts[i]));
                }
            }
            lemma_distinct_append(f.read_receipts, added, receipt_key());
            assert forall|i: int| 0 <= i < g.read_receipts.len() implies for_live_post(g.posts)(
                #[trigger] g.read_receipts[i],
            ) && read_by_clock(g.generation)(g.read_receipts[i]) by {
                if i < f.read_receipts.len() {
                    assert(for_live_post(f.posts)(f.read_receipts[i]));
                    assert(read_by_clock(f.generation)(f.read_receipts[i]));
                } else {
                    let j = i - f.read_receipts.len();
                    assert(g.read_receipts[i] == added[j]);
                    assert(missing.contains(missing[j]));
                    let k = choose|k: int| 0 <= k < ids.len() && ids[k] == missing[j];
                    assert(!stranger_to(f.posts, thread_id)(ids[k]));
                    lemma_post_is(f.posts, missing[j]);
                }
            }
            lemma_content_untouched(f, g);
            lemma_untouched(f, g);
        }
    }
}

/// Marking one event read or unread keeps the forum consistent.
pub proof fn law_activity_mark_is_consistent(
    f: Forum,
    activity_id: Seq<char>,
    viewer_sub: Seq<char>,
    read: bool,
    changed_at: i64,
)
    requires
        consistent(f),
    ensures
        consistent(activity_mark(f, activity_id, viewer_sub, read, changed_at).0),
{
    let (g, r) = activity_mark(f, activity_id, viewer_sub, read, changed_at);
    if r is Ok {
        let keep = activity_receipt_not_of(activity_id, viewer_sub);
        let others = f.activity_receipts.filter(keep);
        let known = of_known_delivery(f.activity_deliveries);
        let x = ActivityReceiptRow { activity_id, viewer_sub, read_at: changed_at };
        lemma_all_filter(f.activity_receipts, keep, known);
        lemma_distinct_filter(f.activity_receipts, keep, activity_receipt_key());
        assert forall|i: int| 0 <= i < others.len() implies activity_receipt_key()(
            #[trigger] others[i],
        ) != activity_receipt_key()(x) by {
            assert(keep(others[i]));
        }
        lemma_distinct_push(others, x, activity_receipt_key());
        assert forall|i: int| 0 <= i < g.activity_receipts.len() implies known(
            #[trigger] g.activity_receipts[i],
        ) by {
            if i < others.len() {
                assert(known(others[i]));
            }
        }
        lemma_content_untouched(f, g);
        lemma_untouched(f, g);
    }
}

proof fn lemma_receipts_added(
    receipts: Seq<ActivityReceiptRow>,
    targets: Seq<ActivityEventRow>,
    viewer_sub: Seq<char>,
    changed_at: i64,
    deliveries: Seq<StoredActivityDeliveryRow>,
)
    requires
        all_rows(receipts, of_known_delivery(deliveries)),
        distinct_by(receipts, activity_receipt_key()),
        forall|i: int|
            0 <= i < targets.len() ==> some_row(
                deliveries,
                delivery_of_to((#[trigger] targets[i]).id, viewer_sub),
            ),
    ensures
        all_rows(
            with_receipts(receipts, targets, viewer_sub, changed_at),
            of_known_delivery(deliveries),
        ),
        distinct_by(
            with_receipts(receipts, targets, viewer_sub, changed_at),
            activity_receipt_key(),
        ),
    decreases targets.len(),
{
    if targets.len() > 0 {
        let d = targets.drop_last();
        assert forall|i: int| 0 <= i < d.len() implies some_row(
            deliveries,
            delivery_of_to((#[trigger] d[i]).id, viewer_sub),
        ) by {
            assert(some_row(deliveries, delivery_of_to(targets[i].id, viewer_sub)));
        }
        lemma_receipts_added(receipts, d, viewer_sub, changed_at, deliveries);
        let rest = with_receipts(receipts, d, viewer_sub, changed_at);
        let id = targets.last().id;
        if !some_row(rest, activity_receipt_of(id, viewer_sub)) {
            let x = ActivityReceiptRow { activity_id: id, viewer_sub, read_at: changed_at };
            assert(some_row(
                deliveries,
                delivery_of_to(targets[targets.len() - 1].id, viewer_sub),
            ));
            assert forall|i: int| 0 <= i < rest.len() implies activity_receipt_key()(
                #[trigger] rest[i],
            ) != activity_receipt_key()(x) by {
                if activity_receipt_key()(rest[i]) == activity_receipt_key()(x) {
                    assert(activity_receipt_of(id, viewer_sub)(rest[i]));
                }
            }
            lemma_distinct_push(rest, x, activity_receipt_key());
            let r = rest.push(x);
            assert forall|i: int| 0 <= i < r.len() implies of_known_delivery(deliveries)(
                #[trigger] r[i],
            ) by {
                if i < rest.len() {
                    assert(of_known_delivery(deliveries)(rest[i]));
                }
            }
        }
    }
}

/// Marking a page of events read keeps the forum consistent.
pub proof fn law_batch_mark_is_consistent(
    f: Forum,
    viewer_sub: Seq<char>,
    activity_ids: Seq<Seq<char>>,
    changed_at: i64,
)
    requires
        consistent(f),
    ensures
        consistent(batch_mark(f, viewer_sub, activity_ids, changed_at).0),
{
    let (g, r) = batch_mark(f, viewer_sub, activity_ids, changed_at);
    if r is Ok {
        let wanted = batch_target(f, viewer_sub, activity_ids);
        let targets = f.activity_events.filter(wanted);
        lemma_all_filter(f.activity_events, wanted, about_live_post(f.posts));
        assert forall|i: int| 0 <= i < targets.len() implies some_row(
            f.activity_deliveries,
            delivery_of_to((#[trigger] targets[i]).id, viewer_sub),
        ) by {
            assert(wanted(targets[i]));
        }
        lemma_receipts_added(
            f.activity_receipts,
            targets,
            viewer_sub,
            changed_at,
            f.activity_deliveries,
        );
        lemma_content_untouched(f, g);
        lemma_untouched(f, g);
    }
}

// ---------------------------------------------------------------------------
// Bookmarks.
// ---------------------------------------------------------------------------

/// Saving a post keeps the forum consistent.
pub proof fn law_bookmark_saving_is_consistent(
    f: Forum,
    owner_sub: Seq<char>,
    post_id: Seq<char>,
    bookmark_id: Seq<char>,
    created_at: i64,
)
    requires
        consistent(f),
    ensures
        consistent(bookmark_saving(f, owner_sub, post_id, bookmark_id, created_at).0),
{
    let g = bookmark_saving(f, owner_sub, post_id, bookmark_id, created_at).0;
    let s = f.bookmarks;
    let which = bookmark_of(owner_sub, post_id);
    lemma_first_index(s, which);
    if g.bookmarks != s {
        let x = new_bookmark(bookmark_id, owner_sub, post_id, created_at);
        assert(g.bookmarks == s.push(x));
        assert forall|k: int| 0 <= k < s.len() implies bookmark_key()(#[trigger] s[k])
            != bookmark_key()(x) by {
            assert(!which(s[k]));
        }
        lemma_distinct_push(s, x, bookmark_key());
        assert forall|k: int| 0 <= k < g.bookmarks.len() implies on_live_post(g.posts)(
            #[trigger] g.bookmarks[k],
        ) by {
            if k < s.len() {
                assert(on_live_post(f.posts)(s[k]));
            }
        }
        assert forall|owner: Seq<char>|
            #[trigger] count_rows(g.bookmarks, bookmark_by(owner)) <= MAX_BOOKMARKS_PER_USER by {
            lemma_count_push(s, x, bookmark_by(owner));
            assert(count_rows(s, bookmark_by(owner)) <= MAX_BOOKMARKS_PER_USER);
        }
        lemma_content_untouched(f, g);
        lemma_untouched(f, g);
    } else {
        assert(g =~= f);
    }
}

/// An edit of a bookmark that keeps its owner and its post.
proof fn lemma_bookmark_edit(f: Forum, owner_sub: Seq<char>, post_id: Seq<char>, row: BookmarkRow)
    requires
        consistent(f),
        some_row(f.bookmarks, bookmark_of(owner_sub, post_id)),
        row.owner_sub == owner_sub,
        row.post_id == post_id,
    ensures
        consistent(with_bookmark(f, owner_sub, post_id, row)),
{
    let s = f.bookmarks;
    let which = bookmark_of(owner_sub, post_id);
    lemma_first_index(s, which);
    let i = first_index(s, which)->0;
    let g = with_bookmark(f, owner_sub, post_id, row);
    lemma_distinct_update(s, i, row, bookmark_key());
    assert forall|k: int| 0 <= k < g.bookmarks.len() implies on_live_post(g.posts)(
        #[trigger] g.bookmarks[k],
    ) by {
        assert(on_live_post(f.posts)(s[k]));
    }
    assert forall|owner: Seq<char>|
        #[trigger] count_rows(g.bookmarks, bookmark_by(owner)) <= MAX_BOOKMARKS_PER_USER by {
        lemma_count_update(s, i, row, bookmark_by(owner));
        assert(count_rows(s, bookmark_by(owner)) <= MAX_BOOKMARKS_PER_USER);
    }
    lemma_content_untouched(f, g);
    lemma_untouched(f, g);
}

proof fn lemma_edit_stored(f: Forum, owner_sub: Seq<char>, post_id: Seq<char>, edited: BookmarkRow)
    requires
        consistent(f),
        some_row(f.bookmarks, bookmark_of(owner_sub, post_id)),
        edited.owner_sub == owner_sub,
        edited.post_id == post_id,
    ensures
        consistent(edit_stored(f, owner_sub, post_id, edited).0),
{
    match next_version(edited.version) {
        Ok(version) => {
            lemma_bookmark_edit(f, owner_sub, post_id, BookmarkRow { version, ..edited });
        },
        Err(_) => {},
    }
}

/// Editing a bookmark keeps the forum consistent.
pub proof fn law_bookmark_update_is_consistent(
    f: Forum,
    owner_sub: Seq<char>,
    post_id: Seq<char>,
    bookmark_id: Seq<char>,
    version: i64,
    note: Seq<char>,
    reminder: BookmarkReminderUpdate,
    changed_at: i64,
)
    requires
        consistent(f),
    ensures
        consistent(
            bookmark_update(
                f,
                owner_sub,
                post_id,
                bookmark_id,
                version,
                note,
                reminder,
                changed_at,
            ).0,
        ),
{
    if edit_target(f, owner_sub, post_id, bookmark_id, version) is Ok {
        let row = edit_target(f, owner_sub, post_id, bookmark_id, version)->Ok_0;
        lemma_first_index(f.bookmarks, bookmark_of(owner_sub, post_id));
        lemma_edit_stored(
            f,
            owner_sub,
            post_id,
            BookmarkRow {
                note,
                remind_at: reminder_after(row.remind_at, reminder),
                updated_at: changed_at,
                ..row
            },
        );
    }
}

/// Settling and snoozing a reminder keep the forum consistent.
pub proof fn law_reminder_settling_is_consistent(
    f: Forum,
    owner_sub: Seq<char>,
    post_id: Seq<char>,
    bookmark_id: Seq<char>,
    version: i64,
    next: Option<i64>,
    remind_at: i64,
    changed_at: i64,
)
    requires
        consistent(f),
    ensures
        consistent(
            reminder_settling(f, owner_sub, post_id, bookmark_id, version, next, changed_at).0,
        ),
        consistent(
            bookmark_snooze(f, owner_sub, post_id, bookmark_id, version, remind_at, changed_at).0,
        ),
{
    if edit_target(f, owner_sub, post_id, bookmark_id, version) is Ok {
        let row = edit_target(f, owner_sub, post_id, bookmark_id, version)->Ok_0;
        lemma_first_index(f.bookmarks, bookmark_of(owner_sub, post_id));
        lemma_edit_stored(
            f,
            owner_sub,
            post_id,
            BookmarkRow { remind_at: next, updated_at: changed_at, ..row },
        );
        lemma_edit_stored(
            f,
            owner_sub,
            post_id,
            BookmarkRow { remind_at: Some(remind_at), updated_at: changed_at, ..row },
        );
    }
}

/// Removing a bookmark keeps the forum consistent.
pub proof fn law_bookmark_removal_is_consistent(
    f: Forum,
    owner_sub: Seq<char>,
    post_id: Seq<char>,
    bookmark_id: Seq<char>,
    version: i64,
)
    requires
        consistent(f),
    ensures
        consistent(bookmark_removal(f, owner_sub, post_id, bookmark_id, version).0),
{
    let (g, r) = bookmark_removal(f, owner_sub, post_id, bookmark_id, version);
    if r is Ok {
        let s = f.bookmarks;
        lemma_first_index(s, bookmark_of(owner_sub, post_id));
        let i = first_index(s, bookmark_of(owner_sub, post_id))->0;
        lemma_distinct_remove(s, i, bookmark_key());
        assert forall|k: int| 0 <= k < g.bookmarks.len() implies on_live_post(g.posts)(
            #[trigger] g.bookmarks[k],
        ) by {
            let from = if k < i {
                k
            } else {
                k + 1
            };
            assert(on_live_post(f.posts)(s[from]));
        }
        assert forall|owner: Seq<char>|
            #[trigger] count_rows(g.bookmarks, bookmark_by(owner)) <= MAX_BOOKMARKS_PER_USER by {
            lemma_count_remove(s, i, bookmark_by(owner));
            assert(count_rows(s, bookmark_by(owner)) <= MAX_BOOKMARKS_PER_USER);
        }
        lemma_content_untouched(f, g);
        lemma_untouched(f, g);
    }
}

// ---------------------------------------------------------------------------
// Reactions and bans.
// ---------------------------------------------------------------------------

/// Toggling a reaction keeps the forum consistent.
pub proof fn law_reaction_toggle_is_consistent(
    f: Forum,
    post_id: Seq<char>,
    user_sub: Seq<char>,
    kind: Seq<char>,
    created_at: i64,
)
    requires
        consistent(f),
    ensures
        consistent(reaction_toggle(f, post_id, user_sub, kind, created_at).0),
{
    let g = reaction_toggle(f, post_id, user_sub, kind, created_at).0;
    let s = f.reactions;
    let which = reaction_is(post_id, user_sub, kind);
    lemma_first_index(s, which);
    match first_index(s, which) {
        Some(i) => {
            lemma_distinct_remove(s, i, reaction_key());
        },
        None => {
            let x = ReactionRow { post_id, user_sub, kind, created_at };
            assert forall|k: int| 0 <= k < s.len() implies reaction_key()(#[trigger] s[k])
                != reaction_key()(x) by {
                assert(!which(s[k]));
            }
            lemma_distinct_push(s, x, reaction_key());
        },
    }
    lemma_content_untouched(f, g);
    lemma_untouched(f, g);
}

/// Adding and lifting a ban keep the forum consistent.
pub proof fn law_bans_are_consistent(f: Forum, ban: BannedAuthorRow, author_sub: Seq<char>)
    requires
        consistent(f),
    ensures
        consistent((Forum { banned: with_ban(f.banned, ban), ..f })),
        consistent((Forum { banned: f.banned.filter(ban_not_of(author_sub)), ..f })),
{
    let s = f.banned;
    let which = ban_of(ban.author_sub);
    lemma_first_index(s, which);
    match first_index(s, which) {
        Some(i) => {
            lemma_distinct_update(s, i, ban, ban_key());
        },
        None => {
            assert forall|k: int| 0 <= k < s.len() implies ban_key()(#[trigger] s[k]) != ban_key()(
                ban,
            ) by {
                assert(!which(s[k]));
            }
            lemma_distinct_push(s, ban, ban_key());
        },
    }
    lemma_distinct_filter(s, ban_not_of(author_sub), ban_key());
    let g = Forum { banned: with_ban(f.banned, ban), ..f };
    lemma_content_untouched(f, g);
    lemma_untouched(f, g);
    let h = Forum { banned: f.banned.filter(ban_not_of(author_sub)), ..f };
    lemma_content_untouched(f, h);
    lemma_untouched(f, h);
}

} // verus!
