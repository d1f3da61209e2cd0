//! Laws of the commands that mark events read against the store in memory.

use vstd::prelude::*;

use crate::laws::agreement::lemma_post_found;
use crate::laws::commanding::{ends_with, lemma_thread_is_whole, told_category, told_id};
use crate::laws::commanding_marking::told_thread_of;
use crate::laws::order::{
    law_ordered_set, law_sorted_members, law_text_less_irreflexive, lemma_sorted_distinct_by,
};
use crate::laws::state::{about_live_post, consistent, in_live_thread};
use crate::laws::tables::{distinct_by, lemma_distinct_filter};
use crate::laws::telling::{
    event_id, is_delivered, is_read, lemma_distinct_ids, lemma_same_length, lemma_shorter,
    lemma_with_receipts, unread_id,
};
use crate::relational::command::{AskRow, ToldRow, target_at, text_at};
use crate::relational::commands::receipts::{
    TargetProgress, batch_marking, event_marking, lock_broken, lock_holds, new_receipts,
    target_locks, target_missing, target_progress, targets_told,
};
use crate::relational::personal::{
    ActivityLockTargetRow, MembershipRow, membership_order, target_category, target_order,
    target_post, target_thread,
};
use crate::rows::{
    deduped, first_index, first_row, lemma_deduped, lemma_filter_contains, lemma_filter_push,
    lemma_first_index, some_row, sorted,
};
use crate::store::activity::{activity_mark, batch_mark, batch_target, event_is, event_live};
use crate::store::memory::Forum;
use crate::store::tables::{category_is, post_is_in, thread_is};
use crate::store::types::{Failure, MAX_ACTIVITY_BATCH};
use crate::text::text_less;
use crate::texts::ordered_set;

verus! {

/// The identifier of the event that a receipt is for.
pub open spec fn target_id() -> spec_fn(ActivityLockTargetRow) -> Seq<char> {
    |t: ActivityLockTargetRow| t.activity_id
}

/// What a receipt for an event locks.
pub open spec fn target_of(f: Forum) -> spec_fn(Seq<char>) -> ActivityLockTargetRow {
    |id: Seq<char>|
        {
            let e = first_row(f.activity_events, event_is(id))->0;
            ActivityLockTargetRow {
                category_id: first_row(f.threads, thread_is(e.thread_id))->0.category_id,
                thread_id: e.thread_id,
                post_id: e.post_id,
                activity_id: id,
            }
        }
}

/// Whether an event is stored.
pub open spec fn is_known(f: Forum, id: Seq<char>) -> bool {
    some_row(f.activity_events, event_is(id))
}

/// The database answers with what a receipt for an event locks.
pub open spec fn told_target(f: Forum) -> spec_fn(Seq<char>) -> ToldRow {
    |id: Seq<char>|
        ToldRow::Target(
            if is_known(f, id) {
                Some(target_of(f)(id))
            } else {
                None
            },
        )
}

/// The database locks a category.
pub open spec fn told_category_lock(f: Forum) -> spec_fn(Seq<char>) -> ToldRow {
    |id: Seq<char>| told_id(some_row(f.categories, category_is(id)), id)
}

/// The database locks a thread and answers with its category.
pub open spec fn told_thread_lock(f: Forum) -> spec_fn(MembershipRow) -> ToldRow {
    |m: MembershipRow| told_category(f, m.member)
}

/// The database locks a post and answers with its thread.
pub open spec fn told_post_lock(f: Forum) -> spec_fn(MembershipRow) -> ToldRow {
    |m: MembershipRow| told_thread_of(f.posts)(m.member)
}

/// The database locks an event that was delivered to the viewer.
pub open spec fn told_event_lock(f: Forum, viewer_sub: Seq<char>) -> spec_fn(
    ActivityLockTargetRow,
) -> ToldRow {
    |t: ActivityLockTargetRow| told_id(is_delivered(f, viewer_sub, t.activity_id), t.activity_id)
}

/// The targets in the order in which they are locked.
pub open spec fn targets_of(f: Forum, ids: Seq<Seq<char>>) -> Seq<ActivityLockTargetRow> {
    sorted(ids.map_values(target_of(f)), target_order())
}

/// What the database answers until the targets are locked.
pub open spec fn told_locks(f: Forum, viewer_sub: Seq<char>, ids: Seq<Seq<char>>) -> Seq<ToldRow> {
    let targets = targets_of(f, ids);
    ids.map_values(told_target(f)) + ordered_set(targets.map_values(target_category())).map_values(
        told_category_lock(f),
    ) + sorted(deduped(targets.map_values(target_thread())), membership_order()).map_values(
        told_thread_lock(f),
    ) + sorted(deduped(targets.map_values(target_post())), membership_order()).map_values(
        told_post_lock(f),
    ) + targets.map_values(told_event_lock(f, viewer_sub))
}

/// What the database answers about events that are marked read.
pub open spec fn batch_answers(f: Forum, viewer_sub: Seq<char>, ids: Seq<Seq<char>>) -> Seq<
    ToldRow,
> {
    told_locks(f, viewer_sub, ids) + targets_of(f, ids).map_values(
        |t: ActivityLockTargetRow|
            ToldRow::Affected(
                if is_read(f, viewer_sub, t.activity_id) {
                    0
                } else {
                    1
                },
            ),
    )
}

/// A stored event points at a stored thread in a stored category, and at a stored post in it.
proof fn lemma_event_is_live(f: Forum, id: Seq<char>)
    requires
        consistent(f),
        is_known(f, id),
    ensures
        ({
            let e = first_row(f.activity_events, event_is(id))->0;
            let t = target_of(f)(id);
            &&& first_row(f.activity_events, event_is(id)) is Some
            &&& e.id == id
            &&& event_live(f, e)
            &&& told_category(f, t.thread_id) == ToldRow::Text(Some(t.category_id))
            &&& some_row(f.categories, category_is(t.category_id))
            &&& told_thread_of(f.posts)(t.post_id) == ToldRow::Text(Some(t.thread_id))
        }),
{
    lemma_first_index(f.activity_events, event_is(id));
    let k = first_index(f.activity_events, event_is(id))->0;
    let e = f.activity_events[k];
    assert(about_live_post(f.posts)(f.activity_events[k]));
    let p = choose|p: int|
        0 <= p < f.posts.len() && post_is_in(e.post_id, e.thread_id)(#[trigger] f.posts[p]);
    assert(in_live_thread(f.threads)(f.posts[p]));
    lemma_first_index(f.threads, thread_is(e.thread_id));
    lemma_thread_is_whole(f, e.thread_id);
    lemma_post_found(f, e.post_id, e.thread_id);
    lemma_first_index(f.posts, post_is_in(e.post_id, e.thread_id));
}

/// The targets that were told.
proof fn lemma_told_targets(f: Forum, told: Seq<ToldRow>, ids: Seq<Seq<char>>)
    requires
        ids.len() <= told.len(),
        forall|k: int| 0 <= k < ids.len() ==> #[trigger] told[k] == told_target(f)(ids[k]),
        forall|k: int| 0 <= k < ids.len() ==> is_known(f, #[trigger] ids[k]),
    ensures
        targets_told(told, ids.len() as int) == ids.map_values(target_of(f)),
    decreases ids.len(),
{
    if ids.len() > 0 {
        let d = ids.drop_last();
        let n = ids.len() as int;
        assert forall|k: int| 0 <= k < d.len() implies #[trigger] told[k] == told_target(f)(
            d[k],
        ) by {
            assert(told[k] == told_target(f)(ids[k]));
        }
        assert forall|k: int| 0 <= k < d.len() implies is_known(f, #[trigger] d[k]) by {
            assert(is_known(f, ids[k]));
        }
        lemma_told_targets(f, told, d);
        assert(told[n - 1] == told_target(f)(ids[n - 1]));
        assert(is_known(f, ids[n - 1]));
        assert(ids.map_values(target_of(f)) =~= d.map_values(target_of(f)).push(
            target_of(f)(ids[n - 1]),
        ));
    } else {
        assert(ids.map_values(target_of(f)) =~= Seq::empty());
    }
}

/// Every target comes from an identifier.
proof fn lemma_targets(f: Forum, ids: Seq<Seq<char>>)
    ensures
        targets_of(f, ids).len() == ids.len(),
        forall|t: ActivityLockTargetRow| #[trigger] targets_of(f, ids).contains(t) ==> ids.contains(
            t.activity_id,
        ) && t == target_of(f)(t.activity_id),
        forall|id: Seq<char>| #[trigger] ids.contains(id) ==> targets_of(f, ids).contains(
            target_of(f)(id),
        ),
{
    let all = ids.map_values(target_of(f));
    law_sorted_members(all, target_order());
    assert forall|t: ActivityLockTargetRow| #[trigger] targets_of(f, ids).contains(
        t,
    ) implies ids.contains(t.activity_id) && t == target_of(f)(t.activity_id) by {
        assert(all.contains(t));
        let k = choose|k: int| 0 <= k < all.len() && all[k] == t;
        assert(ids[k] == t.activity_id);
    }
    assert forall|id: Seq<char>| #[trigger] ids.contains(id) implies targets_of(f, ids).contains(
        target_of(f)(id),
    ) by {
        let k = choose|k: int| 0 <= k < ids.len() && ids[k] == id;
        assert(all[k] == target_of(f)(id));
        assert(all.contains(target_of(f)(id)));
    }
}

/// The targets are locked when every event is stored and was delivered to the viewer; otherwise the
/// command fails.
proof fn lemma_locking<V>(f: Forum, viewer_sub: Seq<char>, ids: Seq<Seq<char>>, told: Seq<ToldRow>)
    requires
        consistent(f),
        told_locks(f, viewer_sub, ids).is_prefix_of(told),
    ensures
        ({
            let granted = forall|k: int|
                0 <= k < ids.len() ==> is_known(f, #[trigger] ids[k]) && is_delivered(
                    f,
                    viewer_sub,
                    ids[k],
                );
            match target_progress::<V>(viewer_sub, ids, told) {
                TargetProgress::Say(ask) => !granted && ask == AskRow::<V>::Fail(
                    Failure::NotFound("activity not found"@),
                ),
                TargetProgress::Ready { targets, at } => {
                    &&& granted
                    &&& targets == targets_of(f, ids)
                    &&& at == told_locks(f, viewer_sub, ids).len()
                },
            }
        }),
{
    let n = ids.len() as int;
    let locks_told = told_locks(f, viewer_sub, ids);
    let targets = targets_of(f, ids);
    let cats = ordered_set(targets.map_values(target_category()));
    let ths = sorted(deduped(targets.map_values(target_thread())), membership_order());
    let ps = sorted(deduped(targets.map_values(target_post())), membership_order());
    let locks = target_locks(viewer_sub, targets);
    let a = cats.len() as int;
    let b = ths.len() as int;
    let c = ps.len() as int;
    assert(forall|k: int| 0 <= k < locks_told.len() ==> told[k] == #[trigger] locks_told[k]);
    assert forall|k: int| 0 <= k < n implies #[trigger] told[k] == told_target(f)(ids[k]) by {
        assert(locks_told[k] == told_target(f)(ids[k]));
    }
    if target_missing(told, n) {
        let k = choose|k: int|
            0 <= k < n && k < told.len() && #[trigger] target_at(told, k) is None;
        assert(told[k] == told_target(f)(ids[k]));
        assert(!is_known(f, ids[k]));
    } else {
        assert forall|k: int| 0 <= k < n implies is_known(f, #[trigger] ids[k]) by {
            assert(target_at(told, k) is Some);
            assert(told[k] == told_target(f)(ids[k]));
        }
        lemma_told_targets(f, told, ids);
        lemma_targets(f, ids);
        assert(locks.len() == a + b + c + targets.len());
        assert forall|k: int| 0 <= k < a implies lock_holds(
            locks[k],
            #[trigger] text_at(told, n + k),
        ) by {
            assert(locks_told[n + k] == told_category_lock(f)(cats[k]));
            law_ordered_set(targets.map_values(target_category()));
            assert(cats.contains(cats[k]));
            let all = targets.map_values(target_category());
            assert(all.contains(cats[k]));
            let i = choose|i: int| 0 <= i < all.len() && all[i] == cats[k];
            assert(targets.contains(targets[i]));
            lemma_known(f, ids, targets[i]);
            lemma_event_is_live(f, targets[i].activity_id);
        }
        assert forall|k: int| a <= k < a + b implies lock_holds(
            locks[k],
            #[trigger] text_at(told, n + k),
        ) by {
            let m = ths[k - a];
            assert(locks_told[n + k] == told_thread_lock(f)(m));
            let all = targets.map_values(target_thread());
            law_sorted_members(deduped(all), membership_order());
            lemma_deduped(all);
            assert(ths.contains(m));
            assert(all.contains(m));
            let i = choose|i: int| 0 <= i < all.len() && all[i] == m;
            assert(targets.contains(targets[i]));
            lemma_known(f, ids, targets[i]);
            lemma_event_is_live(f, targets[i].activity_id);
        }
        assert forall|k: int| a + b <= k < a + b + c implies lock_holds(
            locks[k],
            #[trigger] text_at(told, n + k),
        ) by {
            let m = ps[k - a - b];
            assert(locks_told[n + k] == told_post_lock(f)(m));
            let all = targets.map_values(target_post());
            law_sorted_members(deduped(all), membership_order());
            lemma_deduped(all);
            assert(ps.contains(m));
            assert(all.contains(m));
            let i = choose|i: int| 0 <= i < all.len() && all[i] == m;
            assert(targets.contains(targets[i]));
            lemma_known(f, ids, targets[i]);
            lemma_event_is_live(f, targets[i].activity_id);
        }
        assert forall|k: int| a + b + c <= k < locks.len() implies (lock_holds(
            locks[k],
            #[trigger] text_at(told, n + k),
        ) <==> is_delivered(f, viewer_sub, targets[k - a - b - c].activity_id)) by {
            assert(locks_told[n + k] == told_event_lock(f, viewer_sub)(targets[k - a - b - c]));
        }
        if lock_broken(told, n, locks) {
            let k = choose|k: int|
                0 <= k < locks.len() && n + k < told.len() && !lock_holds(
                    locks[k],
                    #[trigger] text_at(told, n + k),
                );
            assert(a + b + c <= k);
            let t = targets[k - a - b - c];
            assert(targets.contains(t));
            let i = choose|i: int| 0 <= i < ids.len() && ids[i] == t.activity_id;
            assert(!is_delivered(f, viewer_sub, ids[i]));
        } else {
            assert forall|k: int| 0 <= k < ids.len() implies is_known(f, #[trigger] ids[k])
                && is_delivered(f, viewer_sub, ids[k]) by {
                assert(ids.contains(ids[k]));
                let t = target_of(f)(ids[k]);
                assert(targets.contains(t));
                let j = choose|j: int| 0 <= j < targets.len() && targets[j] == t;
                let l = a + b + c + j;
                assert(locks_told.len() == n + locks.len());
                assert(lock_holds(locks[l], text_at(told, n + l)));
            }
            assert(locks_told.len() == n + locks.len());
        }
    }
}

/// A target of stored events is of a stored event.
proof fn lemma_known(f: Forum, ids: Seq<Seq<char>>, t: ActivityLockTargetRow)
    requires
        targets_of(f, ids).contains(t),
        forall|k: int| 0 <= k < ids.len() ==> is_known(f, #[trigger] ids[k]),
    ensures
        is_known(f, t.activity_id),
        t == target_of(f)(t.activity_id),
{
    lemma_targets(f, ids);
    let i = choose|i: int| 0 <= i < ids.len() && ids[i] == t.activity_id;
    assert(is_known(f, ids[i]));
}

/// An event is marked or refused as in memory.
pub proof fn law_event_marking_ends_alike(
    f: Forum,
    activity_id: Seq<char>,
    viewer_sub: Seq<char>,
    read: bool,
    changed_at: i64,
)
    requires
        consistent(f),
    ensures
        ends_with(
            event_marking(
                activity_id,
                viewer_sub,
                read,
                changed_at,
                told_locks(f, viewer_sub, seq![activity_id]),
            ),
            activity_mark(f, activity_id, viewer_sub, read, changed_at).1,
        ),
{
    let ids = seq![activity_id];
    let told = told_locks(f, viewer_sub, ids);
    assert(told.is_prefix_of(told));
    lemma_locking::<()>(f, viewer_sub, ids, told);
    lemma_first_index(f.activity_events, event_is(activity_id));
    assert(ids[0] == activity_id);
    if is_known(f, activity_id) {
        lemma_event_is_live(f, activity_id);
    }
}

// ---------------------------------------------------------------------------
// Counting.
// ---------------------------------------------------------------------------

/// The receipts that were told to be new are those of the events that were not read.
proof fn lemma_new_receipts(
    f: Forum,
    told: Seq<ToldRow>,
    at: int,
    targets: Seq<ActivityLockTargetRow>,
    viewer_sub: Seq<char>,
)
    requires
        0 <= at,
        at + targets.len() <= told.len(),
        forall|k: int|
            0 <= k < targets.len() ==> #[trigger] told[at + k] == ToldRow::Affected(
                if is_read(f, viewer_sub, targets[k].activity_id) {
                    0
                } else {
                    1
                },
            ),
    ensures
        new_receipts(told, at, targets.len() as int) == targets.map_values(target_id()).filter(
            unread_id(f, viewer_sub),
        ).len(),
    decreases targets.len(),
{
    reveal(Seq::filter);
    if targets.len() > 0 {
        let d = targets.drop_last();
        let n = targets.len() as int;
        assert forall|k: int| 0 <= k < d.len() implies #[trigger] told[at + k] == ToldRow::Affected(
            if is_read(f, viewer_sub, d[k].activity_id) {
                0
            } else {
                1
            },
        ) by {
            assert(targets[k] == d[k]);
        }
        lemma_new_receipts(f, told, at, d, viewer_sub);
        let id = targets.last().activity_id;
        assert(told[at + (n - 1)] == ToldRow::Affected(
            if is_read(f, viewer_sub, targets[n - 1].activity_id) {
                0
            } else {
                1
            },
        ));
        assert(targets.map_values(target_id()) =~= d.map_values(target_id()).push(id));
        lemma_filter_push(d.map_values(target_id()), id, unread_id(f, viewer_sub));
    } else {
        assert(targets.map_values(target_id()) =~= Seq::empty());
        assert(targets.map_values(target_id()).filter(unread_id(f, viewer_sub)) =~= Seq::empty());
    }
}

/// A page of events is marked or refused as in memory, and the same number of receipts is new.
pub proof fn law_batch_marking_ends_alike(
    f: Forum,
    viewer_sub: Seq<char>,
    activity_ids: Seq<Seq<char>>,
    changed_at: i64,
)
    requires
        consistent(f),
        distinct_by(f.activity_events, event_id()),
    ensures
        ends_with(
            batch_marking(
                viewer_sub,
                activity_ids,
                changed_at,
                batch_answers(f, viewer_sub, ordered_set(activity_ids)),
            ),
            batch_mark(f, viewer_sub, activity_ids, changed_at).1,
        ),
{
    if activity_ids.len() <= MAX_ACTIVITY_BATCH {
        let ids = ordered_set(activity_ids);
        let told = batch_answers(f, viewer_sub, ids);
        let locks_told = told_locks(f, viewer_sub, ids);
        assert(locks_told.is_prefix_of(told));
        lemma_locking::<i64>(f, viewer_sub, ids, told);
        law_ordered_set(activity_ids);
        lemma_deduped(activity_ids);
        let wanted = batch_target(f, viewer_sub, activity_ids);
        let events = f.activity_events.filter(wanted);
        let found = events.map_values(event_id());
        let unique = deduped(activity_ids);
        lemma_distinct_filter(f.activity_events, wanted, event_id());
        lemma_distinct_ids(events, event_id(), unread_id(f, viewer_sub));
        lemma_filter_contains(f.activity_events, wanted);
        assert forall|x: Seq<char>| #[trigger] found.contains(x) <==> unique.contains(x) && is_known(
            f,
            x,
        ) && is_delivered(f, viewer_sub, x) by {
            if found.contains(x) {
                let k = choose|k: int| 0 <= k < found.len() && found[k] == x;
                assert(events.contains(events[k]));
                assert(f.activity_events.contains(events[k]));
                let i = choose|i: int|
                    0 <= i < f.activity_events.len() && f.activity_events[i] == events[k];
                assert(event_is(x)(f.activity_events[i]));
                assert(activity_ids.contains(x));
            }
            if unique.contains(x) && is_known(f, x) && is_delivered(f, viewer_sub, x) {
                lemma_event_is_live(f, x);
                lemma_first_index(f.activity_events, event_is(x));
                let i = first_index(f.activity_events, event_is(x))->0;
                let e = f.activity_events[i];
                assert(activity_ids.contains(x));
                assert(f.activity_events.contains(e));
                assert(events.contains(e));
                let k = choose|k: int| 0 <= k < events.len() && events[k] == e;
                assert(found[k] == x);
            }
        }
        let granted = forall|k: int|
            0 <= k < ids.len() ==> is_known(f, #[trigger] ids[k]) && is_delivered(
                f,
                viewer_sub,
                ids[k],
            );
        if granted {
            assert forall|x: Seq<char>| #[trigger] found.contains(x) <==> unique.contains(x) by {
                if unique.contains(x) {
                    assert(activity_ids.contains(x));
                    assert(ids.contains(x));
                    let k = choose|k: int| 0 <= k < ids.len() && ids[k] == x;
                    assert(is_known(f, ids[k]));
                }
            }
            lemma_same_length(found, unique);
            lemma_with_receipts(f, events, viewer_sub, changed_at);
            let targets = targets_of(f, ids);
            let at = locks_told.len() as int;
            lemma_targets(f, ids);
            assert forall|k: int| 0 <= k < targets.len() implies #[trigger] told[at + k]
                == ToldRow::Affected(
                if is_read(f, viewer_sub, targets[k].activity_id) {
                    0
                } else {
                    1
                },
            ) by {}
            lemma_new_receipts(f, told, at, targets, viewer_sub);
            let all = ids.map_values(target_of(f));
            assert(distinct_by(all, target_id())) by {
                assert forall|i: int, j: int| 0 <= i < all.len() && 0 <= j < all.len() && i
                    != j implies target_id()(#[trigger] all[i]) != target_id()(#[trigger] all[j]) by {
                    if i < j {
                        assert(text_less(ids[i], ids[j]));
                        law_text_less_irreflexive(ids[i]);
                    } else {
                        assert(text_less(ids[j], ids[i]));
                        law_text_less_irreflexive(ids[i]);
                    }
                }
            }
            lemma_sorted_distinct_by(all, target_order(), target_id());
            lemma_distinct_ids(targets, target_id(), unread_id(f, viewer_sub));
            let marked = targets.map_values(target_id());
            assert forall|x: Seq<char>| #[trigger] marked.contains(x) <==> found.contains(x) by {
                if marked.contains(x) {
                    let k = choose|k: int| 0 <= k < marked.len() && marked[k] == x;
                    assert(targets.contains(targets[k]));
                    assert(ids.contains(x));
                    assert(activity_ids.contains(x));
                    assert(unique.contains(x));
                }
                if found.contains(x) {
                    assert(unique.contains(x));
                    assert(activity_ids.contains(x));
                    assert(ids.contains(x));
                    assert(targets.contains(target_of(f)(x)));
                    let k = choose|k: int| 0 <= k < targets.len() && targets[k] == target_of(f)(x);
                    assert(marked[k] == x);
                }
            }
            lemma_filter_contains(marked, unread_id(f, viewer_sub));
            lemma_filter_contains(found, unread_id(f, viewer_sub));
            let a = marked.filter(unread_id(f, viewer_sub));
            let b = found.filter(unread_id(f, viewer_sub));
            assert forall|x: Seq<char>| #[trigger] a.contains(x) <==> b.contains(x) by {
                assert(marked.contains(x) <==> found.contains(x));
            }
            lemma_same_length(a, b);
            assert(told.len() == at + targets.len());
        } else {
            let k = choose|k: int|
                0 <= k < ids.len() && !(is_known(f, #[trigger] ids[k]) && is_delivered(
                    f,
                    viewer_sub,
                    ids[k],
                ));
            assert(ids.contains(ids[k]));
            assert(activity_ids.contains(ids[k]));
            assert(unique.contains(ids[k]));
            assert(!found.contains(ids[k]));
            assert forall|y: Seq<char>| #[trigger] found.contains(y) implies unique.contains(y) by {}
            lemma_shorter(found, unique, ids[k]);
        }
    }
}

} // verus!
