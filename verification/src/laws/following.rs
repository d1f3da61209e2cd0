//! What following threads and focusing on categories promise.

use vstd::prelude::*;

use crate::laws::content::lemma_filter_all;
use crate::laws::order::{law_sorted_filter, law_sorted_members};
use crate::laws::pages::{
    distinct_events, law_activity_order, lemma_collected_filter, lemma_collected_kept,
    lemma_collected_len, lemma_collected_same, lemma_collected_sources,
};
use crate::laws::state::{consistent, relation_key, rule_key};
use crate::laws::state_writing::lemma_first_row_push;
use crate::laws::tables::{distinct_by, lemma_some_filter, lemma_some_filter_keeps};
use crate::model::{
    ActivityDeliveryRow, ActivityEventRow, ActivityItemRow, CategoryFocusLevel, PostRow,
    ThreadFollowLevel, ThreadRow,
};
use crate::rows::{
    collected, first_index, first_row, last_row, lemma_filter_contains, lemma_filter_push,
    lemma_first_index, lemma_first_index_unique, limited, some_row, sorted,
};
use crate::store::activity::{
    activity_item, activity_order, activity_receipt_of, activity_stream, delivery_for, reason_for,
};
use crate::store::catch_up::{CatchUpQuery, catch_up_item};
use crate::store::editing::event_is_in;
use crate::store::focus::{focus_change, focus_item, focus_level_of, rule_of};
use crate::store::follow::{
    delivery_of, delivery_of_to, event_kept, level_change, level_of, personal_signals,
    receipt_kept, relation_of, signals_entry, signals_of, survives_unwatch, with_level,
    without_watch_activity,
};
use crate::store::memory::Forum;
use crate::store::posting::{watch_delivery, watches};
use crate::store::rules::{best_reason, delivered_to, signal_ids};
use crate::store::tables::{category_is, thread_is};
use crate::store::threads::{feeds, list_admits};
use crate::store::types::{
    ActivityCursorRow, ActivityFilter, Failure, StoredActivityDeliveryRow, ThreadStatusFilter,
    ThreadSubscriptionRow,
};
use crate::text::{blank_text, trim_text};

verus! {

// ---------------------------------------------------------------------------
// Relationships to threads.
// ---------------------------------------------------------------------------

/// At most one row has a key, so a found row is the only one.
proof fn lemma_only_relation(
    s: Seq<ThreadSubscriptionRow>,
    thread_id: Seq<char>,
    viewer_sub: Seq<char>,
    i: int,
    j: int,
)
    requires
        distinct_by(s, relation_key()),
        0 <= i < s.len(),
        0 <= j < s.len(),
        relation_of(thread_id, viewer_sub)(s[i]),
        relation_of(thread_id, viewer_sub)(s[j]),
    ensures
        i == j,
{
    if i != j {
        assert(relation_key()(s[i]) != relation_key()(s[j]));
    }
}

proof fn lemma_with_level(
    s: Seq<ThreadSubscriptionRow>,
    thread_id: Seq<char>,
    viewer_sub: Seq<char>,
    level: ThreadFollowLevel,
    created_at: i64,
)
    requires
        distinct_by(s, relation_key()),
    ensures
        level_of(
            with_level(s, thread_id, viewer_sub, level, created_at),
            thread_id,
            viewer_sub,
        ) == level,
{
    let which = relation_of(thread_id, viewer_sub);
    let r = with_level(s, thread_id, viewer_sub, level, created_at);
    lemma_first_index(s, which);
    lemma_first_index(r, which);
    match first_index(s, which) {
        Some(i) => {
            if level is Unset {
                if first_index(r, which) is Some {
                    let k = first_index(r, which)->0;
                    let from = if k < i {
                        k
                    } else {
                        k + 1
                    };
                    assert(r[k] == s[from]);
                    lemma_only_relation(s, thread_id, viewer_sub, i, from);
                }
            } else {
                assert forall|j: int| 0 <= j < i implies !which(#[trigger] r[j]) by {
                    assert(!which(s[j]));
                }
                assert(which(r[i]));
                lemma_first_index_unique(r, which, i);
            }
        },
        None => {
            if !(level is Unset) {
                let k = s.len() as int;
                assert forall|j: int| 0 <= j < k implies !which(#[trigger] r[j]) by {
                    assert(!which(s[j]));
                }
                assert(which(r[k]));
                lemma_first_index_unique(r, which, k);
            }
        },
    }
}

proof fn lemma_with_level_other(
    s: Seq<ThreadSubscriptionRow>,
    thread_id: Seq<char>,
    viewer_sub: Seq<char>,
    level: ThreadFollowLevel,
    created_at: i64,
    other_thread: Seq<char>,
    other_viewer: Seq<char>,
)
    requires
        other_thread != thread_id || other_viewer != viewer_sub,
    ensures
        level_of(
            with_level(s, thread_id, viewer_sub, level, created_at),
            other_thread,
            other_viewer,
        ) == level_of(s, other_thread, other_viewer),
{
    let which = relation_of(thread_id, viewer_sub);
    let other = relation_of(other_thread, other_viewer);
    let r = with_level(s, thread_id, viewer_sub, level, created_at);
    lemma_first_index(s, which);
    lemma_first_index(s, other);
    lemma_first_index(r, other);
    match first_index(s, which) {
        Some(i) => {
            if level is Unset {
                match first_index(s, other) {
                    Some(k) => {
                        let to = if k < i {
                            k
                        } else {
                            k - 1
                        };
                        assert forall|j: int| 0 <= j < to implies !other(#[trigger] r[j]) by {
                            let from = if j < i {
                                j
                            } else {
                                j + 1
                            };
                            assert(!other(s[from]));
                        }
                        assert(r[to] == s[k]);
                        lemma_first_index_unique(r, other, to);
                    },
                    None => {
                        assert forall|j: int| 0 <= j < r.len() implies !other(#[trigger] r[j]) by {
                            let from = if j < i {
                                j
                            } else {
                                j + 1
                            };
                            assert(!other(s[from]));
                        }
                    },
                }
            } else {
                match first_index(s, other) {
                    Some(k) => {
                        assert forall|j: int| 0 <= j < k implies !other(#[trigger] r[j]) by {
                            assert(!other(s[j]));
                        }
                        assert(r[k] == s[k]);
                        lemma_first_index_unique(r, other, k);
                    },
                    None => {
                        assert forall|j: int| 0 <= j < r.len() implies !other(#[trigger] r[j]) by {
                            assert(!other(s[j]));
                        }
                    },
                }
            }
        },
        None => {
            if !(level is Unset) {
                lemma_first_row_push(
                    s,
                    ThreadSubscriptionRow {
                        thread_id,
                        subscriber_sub: viewer_sub,
                        level,
                        created_at,
                    },
                    other,
                );
            }
        },
    }
}

/// A relationship reads back as it was set, and no other relationship changes.
pub proof fn law_level_reads_back(
    f: Forum,
    thread_id: Seq<char>,
    viewer_sub: Seq<char>,
    level: ThreadFollowLevel,
    created_at: i64,
)
    requires
        consistent(f),
        level_change(f, thread_id, viewer_sub, level, created_at).1 is Ok,
    ensures
        ({
            let g = level_change(f, thread_id, viewer_sub, level, created_at).0;
            &&& level_of(g.subscriptions, thread_id, viewer_sub) == level
            &&& forall|other_thread: Seq<char>, other_viewer: Seq<char>|
                other_thread != thread_id || other_viewer != viewer_sub ==> (#[trigger] level_of(
                    g.subscriptions,
                    other_thread,
                    other_viewer,
                )) == level_of(f.subscriptions, other_thread, other_viewer)
            &&& g.threads == f.threads
            &&& g.posts == f.posts
            &&& g.read_receipts == f.read_receipts
            &&& g.bookmarks == f.bookmarks
        }),
{
    let g = level_change(f, thread_id, viewer_sub, level, created_at).0;
    lemma_with_level(f.subscriptions, thread_id, viewer_sub, level, created_at);
    assert forall|other_thread: Seq<char>, other_viewer: Seq<char>|
        other_thread != thread_id || other_viewer != viewer_sub implies (#[trigger] level_of(
        g.subscriptions,
        other_thread,
        other_viewer,
    )) == level_of(f.subscriptions, other_thread, other_viewer) by {
        lemma_with_level_other(
            f.subscriptions,
            thread_id,
            viewer_sub,
            level,
            created_at,
            other_thread,
            other_viewer,
        );
    }
}

/// Leaving the watch level takes back exactly the deliveries that only came from watching.
pub proof fn law_unwatching_takes_back(
    f: Forum,
    thread_id: Seq<char>,
    viewer_sub: Seq<char>,
    level: ThreadFollowLevel,
    created_at: i64,
)
    requires
        !(level is Watch),
        level_change(f, thread_id, viewer_sub, level, created_at).1 is Ok,
    ensures
        ({
            let g = level_change(f, thread_id, viewer_sub, level, created_at).0;
            forall|d: StoredActivityDeliveryRow| #[trigger]
                g.activity_deliveries.contains(d) <==> f.activity_deliveries.contains(d) && !(
                d.delivery.reason is Following && delivered_to(d.delivery, viewer_sub) && some_row(
                    f.activity_events,
                    event_is_in(d.activity_id, thread_id),
                ))
        }),
{
    let g = level_change(f, thread_id, viewer_sub, level, created_at).0;
    lemma_filter_contains(
        f.activity_deliveries,
        survives_unwatch(f.activity_events, thread_id, viewer_sub),
    );
}

proof fn lemma_unwatching_twice(f: Forum, thread_id: Seq<char>, viewer_sub: Seq<char>)
    ensures
        ({
            let g = without_watch_activity(f, thread_id, viewer_sub);
            without_watch_activity(g, thread_id, viewer_sub) == g
        }),
{
    let g = without_watch_activity(f, thread_id, viewer_sub);
    let events = f.activity_events;
    let survives = survives_unwatch(events, thread_id, viewer_sub);
    let kept = event_kept(events, g.activity_deliveries, thread_id);
    let keep_receipt = receipt_kept(events, g.activity_deliveries, thread_id, viewer_sub);
    lemma_filter_contains(events, kept);
    lemma_filter_contains(f.activity_deliveries, survives);
    lemma_filter_contains(f.activity_receipts, keep_receipt);
    assert forall|id: Seq<char>|
        some_row(g.activity_events, #[trigger] event_is_in(id, thread_id)) implies some_row(
        events,
        event_is_in(id, thread_id),
    ) by {
        lemma_some_filter(events, kept, event_is_in(id, thread_id));
    }
    let survives_again = survives_unwatch(g.activity_events, thread_id, viewer_sub);
    assert forall|i: int| 0 <= i < g.activity_deliveries.len() implies survives_again(
        #[trigger] g.activity_deliveries[i],
    ) by {
        let d = g.activity_deliveries[i];
        assert(g.activity_deliveries.contains(d));
        assert(survives(d));
        if some_row(g.activity_events, event_is_in(d.activity_id, thread_id)) {
            assert(some_row(events, event_is_in(d.activity_id, thread_id)));
        }
    }
    lemma_filter_all(g.activity_deliveries, survives_again);
    let kept_again = event_kept(g.activity_events, g.activity_deliveries, thread_id);
    assert forall|i: int| 0 <= i < g.activity_events.len() implies kept_again(
        #[trigger] g.activity_events[i],
    ) by {
        let e = g.activity_events[i];
        assert(g.activity_events.contains(e));
        assert(kept(e));
        if some_row(g.activity_events, event_is_in(e.id, thread_id)) {
            assert(some_row(events, event_is_in(e.id, thread_id)));
        }
    }
    lemma_filter_all(g.activity_events, kept_again);
    let keep_again = receipt_kept(
        g.activity_events,
        g.activity_deliveries,
        thread_id,
        viewer_sub,
    );
    assert forall|i: int| 0 <= i < g.activity_receipts.len() implies keep_again(
        #[trigger] g.activity_receipts[i],
    ) by {
        let r = g.activity_receipts[i];
        assert(g.activity_receipts.contains(r));
        assert(keep_receipt(r));
        if some_row(g.activity_events, event_is_in(r.activity_id, thread_id)) {
            assert(some_row(events, event_is_in(r.activity_id, thread_id)));
        }
    }
    lemma_filter_all(g.activity_receipts, keep_again);
    assert(without_watch_activity(g, thread_id, viewer_sub) =~= g);
}

/// Setting the same relationship again changes nothing.
pub proof fn law_level_change_is_idempotent(
    f: Forum,
    thread_id: Seq<char>,
    viewer_sub: Seq<char>,
    level: ThreadFollowLevel,
    created_at: i64,
)
    requires
        consistent(f),
        level_change(f, thread_id, viewer_sub, level, created_at).1 is Ok,
    ensures
        ({
            let g = level_change(f, thread_id, viewer_sub, level, created_at).0;
            level_change(g, thread_id, viewer_sub, level, created_at) == (g, Ok::<(), Failure>(()))
        }),
{
    let s = f.subscriptions;
    let g = level_change(f, thread_id, viewer_sub, level, created_at).0;
    let which = relation_of(thread_id, viewer_sub);
    let r = g.subscriptions;
    lemma_with_level(s, thread_id, viewer_sub, level, created_at);
    lemma_first_index(s, which);
    lemma_first_index(r, which);
    assert(with_level(r, thread_id, viewer_sub, level, created_at) =~= r) by {
        match first_index(s, which) {
            Some(i) => {
                if !(level is Unset) {
                    assert forall|j: int| 0 <= j < i implies !which(#[trigger] r[j]) by {
                        assert(!which(s[j]));
                    }
                    assert(which(r[i]));
                    lemma_first_index_unique(r, which, i);
                } else {
                    if first_index(r, which) is Some {
                        let k = first_index(r, which)->0;
                        let from = if k < i {
                            k
                        } else {
                            k + 1
                        };
                        assert(r[k] == s[from]);
                        lemma_only_relation(s, thread_id, viewer_sub, i, from);
                    }
                }
            },
            None => {
                if !(level is Unset) {
                    let k = s.len() as int;
                    assert forall|j: int| 0 <= j < k implies !which(#[trigger] r[j]) by {
                        assert(!which(s[j]));
                    }
                    assert(which(r[k]));
                    lemma_first_index_unique(r, which, k);
                }
            },
        }
    }
    let h = Forum { subscriptions: r, ..g };
    assert(h =~= g);
    if !(level is Watch) {
        lemma_unwatching_twice(
            Forum { subscriptions: r, ..f },
            thread_id,
            viewer_sub,
        );
    }
}

/// The reason that is left when deliveries for watching are taken back.
proof fn lemma_reason_left(
    s: Seq<StoredActivityDeliveryRow>,
    survives: spec_fn(StoredActivityDeliveryRow) -> bool,
    activity_id: Seq<char>,
    viewer_sub: Seq<char>,
)
    requires
        forall|d: StoredActivityDeliveryRow|
            d.activity_id == activity_id && delivered_to(d.delivery, viewer_sub) ==> (
            #[trigger] survives(d) == !(d.delivery.reason is Following)),
    ensures
        ({
            let before = best_reason(collected(s, delivery_for(activity_id, viewer_sub)));
            best_reason(collected(s.filter(survives), delivery_for(activity_id, viewer_sub)))
                == if before is Some && !(before->0 is Following) {
                before
            } else {
                None
            }
        }),
    decreases s.len(),
{
    reveal(Seq::filter);
    let which = delivery_for(activity_id, viewer_sub);
    if s.len() > 0 {
        let d = s.drop_last();
        let x = s.last();
        lemma_reason_left(d, survives, activity_id, viewer_sub);
        assert(s =~= d.push(x));
        lemma_filter_push(d, x, survives);
        if survives(x) {
            assert(s.filter(survives).drop_last() =~= d.filter(survives));
        }
        if which(x) is Some {
            assert(collected(s, which).drop_last() =~= collected(d, which));
            if survives(x) {
                assert(collected(s.filter(survives), which).drop_last() =~= collected(
                    d.filter(survives),
                    which,
                ));
            }
        }
    }
}

/// An event that has a reason for a viewer was delivered to them.
proof fn lemma_reason_is_delivered(f: Forum, activity_id: Seq<char>, viewer_sub: Seq<char>)
    requires
        reason_for(f, activity_id, viewer_sub) is Some,
    ensures
        some_row(f.activity_deliveries, delivery_of_to(activity_id, viewer_sub)),
        some_row(f.activity_deliveries, delivery_of(activity_id)),
{
    let which = delivery_for(activity_id, viewer_sub);
    let sources = lemma_collected_sources(f.activity_deliveries, which);
    assert(collected(f.activity_deliveries, which).len() > 0);
    let d = f.activity_deliveries[sources[0]];
    assert(which(d) is Some);
    assert(delivery_of_to(activity_id, viewer_sub)(d));
    assert(delivery_of(activity_id)(d));
}

/// What a viewer sees of an event after somebody stopped watching a thread.
proof fn lemma_item_unwatched(
    f: Forum,
    thread_id: Seq<char>,
    viewer_sub: Seq<char>,
    other: Seq<char>,
    filter: ActivityFilter,
    unread_only: bool,
    before: Option<ActivityCursorRow>,
    i: int,
)
    requires
        0 <= i < f.activity_events.len(),
    ensures
        ({
            let g = without_watch_activity(f, thread_id, viewer_sub);
            let e = f.activity_events[i];
            let was = activity_item(f, other, filter, unread_only, before)(e);
            activity_item(g, other, filter, unread_only, before)(e) == if other == viewer_sub && was
                is Some && !outside_watching(f.activity_events, thread_id)(was->0) {
                None
            } else {
                was
            }
        }),
{
    let g = without_watch_activity(f, thread_id, viewer_sub);
    let e = f.activity_events[i];
    let events = f.activity_events;
    let survives = survives_unwatch(events, thread_id, viewer_sub);
    let keep = receipt_kept(events, g.activity_deliveries, thread_id, viewer_sub);
    let which = delivery_for(e.id, other);
    let receipt = activity_receipt_of(e.id, other);
    if other == viewer_sub && some_row(events, event_is_in(e.id, thread_id)) {
        lemma_reason_left(f.activity_deliveries, survives, e.id, other);
    } else {
        lemma_collected_kept(f.activity_deliveries, which, survives);
    }
    lemma_some_filter(f.activity_receipts, keep, receipt);
    if reason_for(g, e.id, other) is Some {
        lemma_reason_is_delivered(g, e.id, other);
        if some_row(f.activity_receipts, receipt) {
            lemma_some_filter_keeps(f.activity_receipts, keep, receipt);
        }
    }
}

/// The activity other than what a viewer is told for watching a thread.
pub open spec fn outside_watching(
    events: Seq<ActivityEventRow>,
    thread_id: Seq<char>,
) -> spec_fn(ActivityItemRow) -> bool {
    |item: ActivityItemRow|
        !(item.reason is Following && some_row(events, event_is_in(item.event.id, thread_id)))
}

/// Whether a viewer is told for another reason than watching a thread.
pub open spec fn told_otherwise(item: ActivityItemRow, thread_id: Seq<char>) -> bool {
    !(item.reason is Following && item.event.thread_id == thread_id)
}

/// When no two events share an identifier, the activity for watching a thread is that of its own
/// events.
pub proof fn law_watching_is_told_by_own_events(
    f: Forum,
    thread_id: Seq<char>,
    item: ActivityItemRow,
)
    requires
        distinct_events(f.activity_events),
        f.activity_events.contains(item.event),
    ensures
        outside_watching(f.activity_events, thread_id)(item) <==> told_otherwise(item, thread_id),
{
    let events = f.activity_events;
    let i = choose|i: int| 0 <= i < events.len() && events[i] == item.event;
    if item.event.thread_id == thread_id {
        assert(event_is_in(item.event.id, thread_id)(events[i]));
    } else if some_row(events, event_is_in(item.event.id, thread_id)) {
        let j = choose|j: int|
            0 <= j < events.len() && event_is_in(item.event.id, thread_id)(#[trigger] events[j]);
        assert(events[i].id != events[j].id);
    }
}

/// Leaving the watch level takes what the viewer was told for watching alone off their activity.
/// What reached them for another reason too stays on it, read or unread as before. Watching takes
/// nothing off it, and nobody else's activity changes.
pub proof fn law_level_change_in_activity(
    f: Forum,
    thread_id: Seq<char>,
    viewer_sub: Seq<char>,
    level: ThreadFollowLevel,
    created_at: i64,
    filter: ActivityFilter,
    unread_only: bool,
    before: Option<ActivityCursorRow>,
    limit: int,
)
    requires
        level_change(f, thread_id, viewer_sub, level, created_at).1 is Ok,
        0 <= limit,
    ensures
        ({
            let g = level_change(f, thread_id, viewer_sub, level, created_at).0;
            let whole = activity_stream(
                f,
                viewer_sub,
                filter,
                unread_only,
                before,
                f.activity_events.len() as int,
            );
            &&& activity_stream(g, viewer_sub, filter, unread_only, before, limit) == limited(
                if level is Watch {
                    whole
                } else {
                    whole.filter(outside_watching(f.activity_events, thread_id))
                },
                limit,
            )
            &&& !(level is Watch) ==> forall|i: int|
                0 <= i < activity_stream(
                    g,
                    viewer_sub,
                    filter,
                    unread_only,
                    before,
                    limit,
                ).len() ==> told_otherwise(
                    #[trigger] activity_stream(
                        g,
                        viewer_sub,
                        filter,
                        unread_only,
                        before,
                        limit,
                    )[i],
                    thread_id,
                )
            &&& forall|other: Seq<char>|
                other != viewer_sub ==> (#[trigger] activity_stream(
                    g,
                    other,
                    filter,
                    unread_only,
                    before,
                    limit,
                )) == activity_stream(f, other, filter, unread_only, before, limit)
        }),
{
    let g = level_change(f, thread_id, viewer_sub, level, created_at).0;
    let own = activity_item(f, viewer_sub, filter, unread_only, before);
    let all = collected(f.activity_events, own);
    let le = activity_order();
    law_activity_order();
    law_sorted_members(all, le);
    assert(all.len() <= f.activity_events.len()) by {
        lemma_collected_len(f.activity_events, own);
    }
    assert(limited(sorted(all, le), f.activity_events.len() as int) =~= sorted(all, le));
    if level is Watch {
        assert forall|other: Seq<char>| (#[trigger] activity_stream(
            g,
            other,
            filter,
            unread_only,
            before,
            limit,
        )) == activity_stream(f, other, filter, unread_only, before, limit) by {
            lemma_same_activity(f, g, other, filter, unread_only, before);
        }
    } else {
        let q = outside_watching(f.activity_events, thread_id);
        lemma_activity_unwatched(
            f,
            g,
            thread_id,
            viewer_sub,
            viewer_sub,
            filter,
            unread_only,
            before,
        );
        law_sorted_filter(all, le, q);
        lemma_filter_contains(sorted(all, le), q);
        let left = sorted(all, le).filter(q);
        let page = activity_stream(g, viewer_sub, filter, unread_only, before, limit);
        let sources = lemma_collected_sources(f.activity_events, own);
        assert(page == limited(left, limit));
        assert forall|i: int| 0 <= i < page.len() implies told_otherwise(
            #[trigger] page[i],
            thread_id,
        ) by {
            assert(left[i] == page[i]);
            assert(left.contains(left[i]));
            assert(sorted(all, le).contains(left[i]));
            assert(all.contains(left[i]));
            let k = choose|k: int| 0 <= k < all.len() && all[k] == left[i];
            let e = f.activity_events[sources[k]];
            assert(own(e) == Some(left[i]));
            if e.thread_id == thread_id {
                assert(event_is_in(e.id, thread_id)(f.activity_events[sources[k]]));
            }
        }
        assert forall|other: Seq<char>| other != viewer_sub implies (#[trigger] activity_stream(
            g,
            other,
            filter,
            unread_only,
            before,
            limit,
        )) == activity_stream(f, other, filter, unread_only, before, limit) by {
            lemma_activity_unwatched(
                f,
                g,
                thread_id,
                viewer_sub,
                other,
                filter,
                unread_only,
                before,
            );
        }
    }
}

/// Relationships to threads alone do not show in activity.
proof fn lemma_same_activity(
    f: Forum,
    g: Forum,
    viewer_sub: Seq<char>,
    filter: ActivityFilter,
    unread_only: bool,
    before: Option<ActivityCursorRow>,
)
    requires
        g == (Forum { subscriptions: g.subscriptions, ..f }),
    ensures
        collected(g.activity_events, activity_item(g, viewer_sub, filter, unread_only, before))
            == collected(
            f.activity_events,
            activity_item(f, viewer_sub, filter, unread_only, before),
        ),
{
    let was = activity_item(f, viewer_sub, filter, unread_only, before);
    let now = activity_item(g, viewer_sub, filter, unread_only, before);
    assert forall|i: int| 0 <= i < f.activity_events.len() implies now(
        #[trigger] f.activity_events[i],
    ) == was(f.activity_events[i]) by {}
    lemma_collected_same(f.activity_events, now, was);
}

/// The activity of a viewer after somebody stopped watching a thread.
proof fn lemma_activity_unwatched(
    f: Forum,
    g: Forum,
    thread_id: Seq<char>,
    viewer_sub: Seq<char>,
    other: Seq<char>,
    filter: ActivityFilter,
    unread_only: bool,
    before: Option<ActivityCursorRow>,
)
    requires
        g == without_watch_activity(
            Forum { subscriptions: g.subscriptions, ..f },
            thread_id,
            viewer_sub,
        ),
    ensures
        ({
            let was = activity_item(f, other, filter, unread_only, before);
            let all = collected(f.activity_events, was);
            collected(g.activity_events, activity_item(g, other, filter, unread_only, before))
                == if other == viewer_sub {
                all.filter(outside_watching(f.activity_events, thread_id))
            } else {
                all
            }
        }),
{
    let h = Forum { subscriptions: g.subscriptions, ..f };
    let was = activity_item(f, other, filter, unread_only, before);
    let mid = activity_item(h, other, filter, unread_only, before);
    let now = activity_item(g, other, filter, unread_only, before);
    let outside = outside_watching(f.activity_events, thread_id);
    let left = |e: ActivityEventRow|
        if other == viewer_sub && was(e) is Some && !outside(was(e)->0) {
            None
        } else {
            was(e)
        };
    let keep = event_kept(f.activity_events, g.activity_deliveries, thread_id);
    assert forall|e: ActivityEventRow| (#[trigger] now(e)) is Some implies keep(e) by {
        lemma_reason_is_delivered(g, e.id, other);
    }
    lemma_collected_kept(f.activity_events, now, keep);
    assert forall|i: int| 0 <= i < f.activity_events.len() implies now(
        #[trigger] f.activity_events[i],
    ) == left(f.activity_events[i]) by {
        let e = f.activity_events[i];
        lemma_item_unwatched(h, thread_id, viewer_sub, other, filter, unread_only, before, i);
        assert(mid(e) == was(e));
    }
    lemma_collected_same(f.activity_events, now, left);
    if other == viewer_sub {
        lemma_collected_filter(f.activity_events, was, left, outside);
    } else {
        lemma_collected_same(f.activity_events, left, was);
    }
}

/// A viewer that watches or follows a thread finds it in their feeds; any other relationship keeps
/// it out.
pub proof fn law_feeds_follow_the_level(f: Forum, viewer_sub: Seq<char>, t: ThreadRow)
    requires
        consistent(f),
    ensures
        some_row(f.subscriptions, feeds(viewer_sub, t.id)) <==> level_of(
            f.subscriptions,
            t.id,
            viewer_sub,
        ).in_feeds(),
{
    let s = f.subscriptions;
    let which = relation_of(t.id, viewer_sub);
    lemma_first_index(s, which);
    if some_row(s, feeds(viewer_sub, t.id)) {
        let k = choose|k: int| 0 <= k < s.len() && feeds(viewer_sub, t.id)(#[trigger] s[k]);
        assert(which(s[k]));
        lemma_only_relation(s, t.id, viewer_sub, k, first_index(s, which)->0);
    }
    if level_of(s, t.id, viewer_sub).in_feeds() {
        let k = first_index(s, which)->0;
        assert(feeds(viewer_sub, t.id)(s[k]));
    }
}

/// A muted thread appears neither in the viewer's list, nor on their focus page, nor on their
/// catch-up desk.
pub proof fn law_muted_thread_stays_out(
    f: Forum,
    viewer_sub: Seq<char>,
    t: ThreadRow,
    category_id: Option<Seq<char>>,
    status: ThreadStatusFilter,
    as_of: i64,
    q: CatchUpQuery,
)
    requires
        consistent(f),
        level_of(f.subscriptions, t.id, viewer_sub) is Mute,
        q.viewer_sub == viewer_sub,
    ensures
        !list_admits(f, category_id, Some(viewer_sub), status)(t),
        focus_item(f, viewer_sub, as_of)(t) is None,
        catch_up_item(f, q)(t) is None,
{
    law_feeds_follow_the_level(f, viewer_sub, t);
}

/// Replies are delivered for watching only to viewers that watch the thread.
pub proof fn law_only_watchers_are_told(f: Forum, post: PostRow, d: ActivityDeliveryRow)
    requires
        collected(f.subscriptions, watch_delivery(post)).contains(d),
    ensures
        d.reason is Following,
        exists|i: int|
            0 <= i < f.subscriptions.len() && watches(post.thread_id)(
                #[trigger] f.subscriptions[i],
            ) && d.recipient_key == trim_text(f.subscriptions[i].subscriber_sub),
{
    let sources = lemma_collected_sources(f.subscriptions, watch_delivery(post));
    let c = collected(f.subscriptions, watch_delivery(post));
    let k = choose|k: int| 0 <= k < c.len() && c[k] == d;
    let i = sources[k];
    assert(watch_delivery(post)(f.subscriptions[i]) == Some(d));
    assert(watches(post.thread_id)(f.subscriptions[i]));
}

// ---------------------------------------------------------------------------
// Focus.
// ---------------------------------------------------------------------------

/// A focus rule reads back as it was set, and setting it again changes nothing.
pub proof fn law_focus_reads_back(
    f: Forum,
    viewer_sub: Seq<char>,
    category_id: Seq<char>,
    level: CategoryFocusLevel,
    changed_at: i64,
    later: i64,
)
    requires
        consistent(f),
        focus_change(f, viewer_sub, category_id, level, changed_at).1 is Ok,
        later >= 0,
    ensures
        ({
            let g = focus_change(f, viewer_sub, category_id, level, changed_at).0;
            &&& focus_level_of(g.category_focus_rules, viewer_sub, category_id) == level
            &&& focus_change(g, viewer_sub, category_id, level, later) == (
                g,
                Ok::<(), Failure>(()),
            )
        }),
{
    let g = focus_change(f, viewer_sub, category_id, level, changed_at).0;
    let s = f.category_focus_rules;
    let r = g.category_focus_rules;
    let which = rule_of(viewer_sub, category_id);
    lemma_first_index(s, which);
    lemma_first_index(r, which);
    match first_index(s, which) {
        Some(i) => {
            if level is Unset {
                if first_index(r, which) is Some {
                    let k = first_index(r, which)->0;
                    let from = if k < i {
                        k
                    } else {
                        k + 1
                    };
                    assert(r[k] == s[from]);
                    assert(rule_key()(s[from]) != rule_key()(s[i]));
                }
            } else {
                assert forall|j: int| 0 <= j < i implies !which(#[trigger] r[j]) by {
                    assert(!which(s[j]));
                }
                assert(which(r[i]));
                lemma_first_index_unique(r, which, i);
            }
        },
        None => {
            if !(level is Unset) {
                let k = s.len() as int;
                assert forall|j: int| 0 <= j < k implies !which(#[trigger] r[j]) by {
                    assert(!which(s[j]));
                }
                assert(which(r[k]));
                lemma_first_index_unique(r, which, k);
            }
        },
    }
}

/// Focus rules are private reading intent: setting one touches nothing but the rules, and tells
/// nobody.
pub proof fn law_focus_is_private(
    f: Forum,
    viewer_sub: Seq<char>,
    category_id: Seq<char>,
    level: CategoryFocusLevel,
    changed_at: i64,
)
    ensures
        ({
            let g = focus_change(f, viewer_sub, category_id, level, changed_at).0;
            &&& g == (Forum { category_focus_rules: g.category_focus_rules, ..f })
            &&& focus_change(f, viewer_sub, category_id, level, changed_at).1 is Err ==> g == f
        }),
{
}

/// A thread that the viewer watches or follows stays visible in a category they mute.
pub proof fn law_thread_choice_overrides_category_mute(
    f: Forum,
    viewer_sub: Seq<char>,
    t: ThreadRow,
    as_of: i64,
)
    requires
        last_row(f.category_focus_rules, rule_of(viewer_sub, t.category_id)) is Some,
        last_row(f.category_focus_rules, rule_of(viewer_sub, t.category_id))->0.level is Mute,
        first_row(f.categories, category_is(t.category_id)) is Some,
        t.created_at <= as_of,
    ensures
        focus_item(f, viewer_sub, as_of)(t) is Some <==> (level_of(
            f.subscriptions,
            t.id,
            viewer_sub,
        ) is Watch || level_of(f.subscriptions, t.id, viewer_sub) is Follow),
{
}

/// Giving up a focus rule is never refused for the number of rules.
pub proof fn law_unsetting_focus_is_free(
    f: Forum,
    viewer_sub: Seq<char>,
    category_id: Seq<char>,
    changed_at: i64,
)
    requires
        !blank_text(viewer_sub),
        changed_at >= 0,
        some_row(f.categories, category_is(category_id)),
    ensures
        focus_change(f, viewer_sub, category_id, CategoryFocusLevel::Unset, changed_at).1 is Ok,
        focus_change(
            f,
            viewer_sub,
            category_id,
            CategoryFocusLevel::Unset,
            changed_at,
        ).0.category_focus_rules.len() <= f.category_focus_rules.len(),
{
    lemma_first_index(f.category_focus_rules, rule_of(viewer_sub, category_id));
}

/// Personal signals are given for stored threads that were asked for, and for nothing else.
pub proof fn law_signals_are_for_live_threads(
    f: Forum,
    viewer_sub: Seq<char>,
    ids: Seq<Seq<char>>,
    k: int,
)
    requires
        personal_signals(f, viewer_sub, ids) is Ok,
        0 <= k < personal_signals(f, viewer_sub, ids)->Ok_0.len(),
    ensures
        ({
            let entry = personal_signals(f, viewer_sub, ids)->Ok_0[k];
            &&& signal_ids(ids)->Ok_0.contains(entry.thread_id)
            &&& last_row(f.threads, thread_is(entry.thread_id)) is Some
            &&& entry.signals == signals_of(
                f,
                viewer_sub,
                last_row(f.threads, thread_is(entry.thread_id))->0,
            )
        }),
{
    let unique = signal_ids(ids)->Ok_0;
    let from = lemma_collected_sources(unique, signals_entry(f, viewer_sub));
    assert(unique.contains(unique[from[k]]));
}

} // verus!
