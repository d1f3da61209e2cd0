//! Editing, moving, and deleting keep the store consistent.

use vstd::prelude::*;

use crate::laws::state::{
    about_live_post, activity_consistent, activity_receipt_key, bookmark_key, bookmarks_consistent,
    consistent, content_consistent, for_live_post, in_live_category, in_live_thread, keeps_posts,
    keeps_threads, lemma_same_categories, lemma_same_posts, lemma_same_threads, lemma_untouched,
    of_known_delivery, of_known_event, on_live_post, opened, point_for, point_key, pointed,
    points_ordered, post_key, reaction_key, read_by_clock, receipt_key, receipts_consistent,
    relation_key, relations_consistent, rules_consistent, to_live_thread,
};
use crate::laws::state_writing::{
    lemma_activity_recorded, lemma_content_kept, lemma_first_row_filter, lemma_threads_changed,
};
use crate::laws::tables::{
    lemma_all_filter, lemma_all_update_first, lemma_all_weaker, lemma_count_filter,
    lemma_distinct_filter, lemma_some_filter, lemma_some_filter_keeps, lemma_some_update_first,
};
use crate::model::{MentionRow, PostRow, ThreadRow};
use crate::rows::{
    count_rows, first_index, first_row, lemma_filter_contains, lemma_first_index, some_row,
    update_first,
};
use crate::store::activity::event_is;
use crate::store::answers::{
    accepting, answer_deliveries, answer_event, answer_mutation, answer_mutation_with_activity,
    answer_target,
};
use crate::store::bookmarks::bookmark_by;
use crate::store::editing::{
    activity_receipt_not_on, activity_receipt_outside, after_deletion, bookmark_not_on,
    bookmark_outside, delivery_not_on, delivery_outside, event_is_in, event_is_on, event_not_in,
    event_not_on, moved_to, newest_at, point_not_in, post_deletion, post_is_not, post_not_in,
    reaction_not_to, reaction_outside, receipt_not_for, receipt_outside, retitled, rewritten,
    subscription_not_to, thread_is_not, thread_move, thread_update, unquoted, with_lock, with_pin,
    without_thread,
};
use crate::store::follow::delivery_of_to;
use crate::store::memory::Forum;
use crate::store::posting::{mention_not_by, watches};
use crate::store::tables::{
    category_is, original_is, original_is_not, original_of, post_is, post_is_in, thread_is,
    valid_accepted,
};
use crate::store::types::{
    AcceptedAnswerAction, CatchUpPostPointRow, MAX_BOOKMARKS_PER_USER, MAX_THREAD_FOLLOWERS,
};

verus! {

// ---------------------------------------------------------------------------
// Edits in place.
// ---------------------------------------------------------------------------

/// An edit of one thread that keeps its identifier and its category.
pub proof fn lemma_thread_edit(
    f: Forum,
    which: spec_fn(ThreadRow) -> bool,
    change: spec_fn(ThreadRow) -> ThreadRow,
)
    requires
        consistent(f),
        forall|t: ThreadRow|
            (#[trigger] change(t)).id == t.id && change(t).category_id == t.category_id,
    ensures
        consistent((Forum { threads: update_first(f.threads, which, change), ..f })),
{
    let g = Forum { threads: update_first(f.threads, which, change), ..f };
    lemma_same_posts(f, g);
    lemma_same_categories(f, g);
    lemma_threads_changed(f, g, which, change);
    assert forall|p: PostRow| #[trigger] in_live_thread(f.threads)(p) implies in_live_thread(
        g.threads,
    )(p) by {
        assert(some_row(f.threads, thread_is(p.thread_id)));
    }
    lemma_all_weaker(f.posts, in_live_thread(f.threads), in_live_thread(g.threads));
    lemma_untouched(f, g);
}

/// Whether the posts are the same ones in the same threads.
pub open spec fn same_places(a: Seq<PostRow>, b: Seq<PostRow>) -> bool {
    a.len() == b.len() && forall|i: int|
        0 <= i < a.len() ==> (#[trigger] a[i]).id == b[i].id && a[i].thread_id == b[i].thread_id
}

/// An edit of posts that leaves each in its place.
pub proof fn lemma_post_edit(f: Forum, posts: Seq<PostRow>)
    requires
        consistent(f),
        same_places(f.posts, posts),
    ensures
        consistent((Forum { posts, ..f })),
{
    let g = Forum { posts, ..f };
    assert(keeps_posts(f, g)) by {
        assert forall|id: Seq<char>, t: Seq<char>|
            some_row(f.posts, #[trigger] post_is_in(id, t)) implies some_row(
            g.posts,
            post_is_in(id, t),
        ) by {
            let i = choose|i: int| 0 <= i < f.posts.len() && post_is_in(id, t)(#[trigger] f.posts[i]);
            assert(post_is_in(id, t)(g.posts[i]));
        }
    }
    assert forall|t: ThreadRow| #[trigger] opened(f.original_posts, f.posts)(t) implies opened(
        g.original_posts,
        g.posts,
    )(t) by {
        let op = original_of(f.original_posts, t.id)->0;
        assert(some_row(f.posts, post_is_in(op, t.id)));
    }
    lemma_all_weaker(
        f.threads,
        opened(f.original_posts, f.posts),
        opened(g.original_posts, g.posts),
    );
    assert forall|i: int| 0 <= i < posts.len() implies in_live_thread(g.threads)(
        #[trigger] posts[i],
    ) && pointed(g.post_points)(posts[i]) by {
        assert(in_live_thread(f.threads)(f.posts[i]));
        assert(pointed(f.post_points)(f.posts[i]));
        let x = choose|x: int|
            0 <= x < f.post_points.len() && point_for(f.posts[i])(#[trigger] f.post_points[x]);
        assert(point_for(posts[i])(g.post_points[x]));
    }
    assert forall|i: int, j: int| 0 <= i < posts.len() && 0 <= j < posts.len() && i != j implies
        post_key()(#[trigger] posts[i]) != post_key()(#[trigger] posts[j]) by {
        assert(post_key()(f.posts[i]) != post_key()(f.posts[j]));
    }
    lemma_same_threads(f, g);
    lemma_same_categories(f, g);
    lemma_untouched(f, g);
}

proof fn lemma_rewrite_in_place(
    posts: Seq<PostRow>,
    which: spec_fn(PostRow) -> bool,
    body_md: Seq<char>,
)
    ensures
        same_places(posts, update_first(posts, which, rewritten(body_md))),
{
    lemma_first_index(posts, which);
}

/// Editing a thread's title and its original post keeps the forum consistent.
pub proof fn law_thread_update_is_consistent(
    f: Forum,
    thread_id: Seq<char>,
    title: Seq<char>,
    op_post_id: Seq<char>,
    body_md: Seq<char>,
)
    requires
        consistent(f),
    ensures
        consistent(thread_update(f, thread_id, title, op_post_id, body_md).0),
{
    lemma_thread_edit(f, thread_is(thread_id), retitled(title));
    let g = Forum {
        threads: update_first(f.threads, thread_is(thread_id), retitled(title)),
        ..f
    };
    lemma_rewrite_in_place(f.posts, post_is(op_post_id), body_md);
    lemma_post_edit(g, update_first(f.posts, post_is(op_post_id), rewritten(body_md)));
}

/// Editing a post, locking, and pinning keep the forum consistent.
pub proof fn law_edits_are_consistent(
    f: Forum,
    post_id: Seq<char>,
    body_md: Seq<char>,
    thread_id: Seq<char>,
    locked: bool,
    pinned: bool,
)
    requires
        consistent(f),
    ensures
        consistent(
            (Forum { posts: update_first(f.posts, post_is(post_id), rewritten(body_md)), ..f }),
        ),
        consistent(
            (Forum {
                threads: update_first(f.threads, thread_is(thread_id), with_lock(locked)),
                ..f
            }),
        ),
        consistent(
            (Forum { threads: update_first(f.threads, thread_is(thread_id), with_pin(pinned)), ..f }),
        ),
{
    lemma_rewrite_in_place(f.posts, post_is(post_id), body_md);
    lemma_post_edit(f, update_first(f.posts, post_is(post_id), rewritten(body_md)));
    lemma_thread_edit(f, thread_is(thread_id), with_lock(locked));
    lemma_thread_edit(f, thread_is(thread_id), with_pin(pinned));
}

/// Storing the mentions of a post keeps the forum consistent.
pub proof fn law_mentions_are_consistent(f: Forum, mentions: Seq<MentionRow>)
    requires
        consistent(f),
    ensures
        consistent((Forum { mentions, ..f })),
{
    lemma_content_kept(f, Forum { mentions, ..f });
}

// ---------------------------------------------------------------------------
// Answers and moves.
// ---------------------------------------------------------------------------

/// Accepting or clearing an answer keeps the forum consistent.
pub proof fn law_answer_is_consistent(f: Forum, thread_id: Seq<char>, action: AcceptedAnswerAction)
    requires
        consistent(f),
    ensures
        consistent(answer_mutation(f, thread_id, action).0),
{
    if answer_target(f, thread_id, action) is Ok {
        let next_id = answer_target(f, thread_id, action)->Ok_0.1;
        lemma_thread_edit(f, thread_is(thread_id), accepting(next_id));
    }
}

/// Accepting or clearing an answer and telling its author keeps the forum consistent.
pub proof fn law_answer_with_activity_is_consistent(
    f: Forum,
    thread_id: Seq<char>,
    action: AcceptedAnswerAction,
    activity_id: Seq<char>,
    actor_sub: Seq<char>,
    created_at: i64,
)
    requires
        consistent(f),
    ensures
        consistent(
            answer_mutation_with_activity(
                f,
                thread_id,
                action,
                activity_id,
                actor_sub,
                created_at,
            ).0,
        ),
{
    law_answer_is_consistent(f, thread_id, action);
    let (g, r) = answer_mutation(f, thread_id, action);
    if r is Ok {
        let m = r->Ok_0;
        let deliveries = answer_deliveries(m.changed, m.accepted_post, actor_sub);
        if deliveries.len() > 0 {
            let post = m.accepted_post->0;
            let id = answer_target(f, thread_id, action)->Ok_0.1;
            lemma_first_index(f.posts, post_is_in(id, thread_id));
            assert(post_is_in(id, thread_id)(post));
            lemma_activity_recorded(
                g,
                answer_event(thread_id, m.accepted_post, activity_id, actor_sub, created_at),
                deliveries,
            );
        }
    }
}

/// Moving a thread to another category keeps the forum consistent.
pub proof fn law_move_is_consistent(f: Forum, thread_id: Seq<char>, category_id: Seq<char>)
    requires
        consistent(f),
    ensures
        consistent(thread_move(f, thread_id, category_id).0),
{
    if thread_move(f, thread_id, category_id).1 is Ok {
        let thread = first_row(f.threads, thread_is(thread_id))->0;
        let valid = valid_accepted(thread, f.original_posts, f.posts) is Some;
        let change = moved_to(category_id, valid);
        let g = Forum { threads: update_first(f.threads, thread_is(thread_id), change), ..f };
        lemma_first_index(f.threads, thread_is(thread_id));
        lemma_first_index(f.categories, category_is(category_id));
        lemma_same_posts(f, g);
        lemma_same_categories(f, g);
        assert(keeps_threads(f, g)) by {
            assert forall|id: Seq<char>| some_row(f.threads, #[trigger] thread_is(id)) implies
                some_row(g.threads, thread_is(id)) by {
                lemma_some_update_first(f.threads, thread_is(thread_id), change, thread_is(id));
            }
        }
        assert forall|t: ThreadRow| #[trigger]
            in_live_category(f.categories)(t) && thread_is(thread_id)(t) implies in_live_category(
            f.categories,
        )(change(t)) by {
            assert(some_row(f.categories, category_is(category_id)));
        }
        lemma_all_update_first(
            f.threads,
            thread_is(thread_id),
            change,
            in_live_category(f.categories),
        );
        lemma_all_update_first(
            f.threads,
            thread_is(thread_id),
            change,
            opened(f.original_posts, f.posts),
        );
        assert forall|p: PostRow| #[trigger] in_live_thread(f.threads)(p) implies in_live_thread(
            g.threads,
        )(p) by {
            assert(some_row(f.threads, thread_is(p.thread_id)));
        }
        lemma_all_weaker(f.posts, in_live_thread(f.threads), in_live_thread(g.threads));
        lemma_untouched(f, g);
    }
}

// ---------------------------------------------------------------------------
// Deletion.
// ---------------------------------------------------------------------------

proof fn lemma_points_filter(
    points: Seq<CatchUpPostPointRow>,
    keep: spec_fn(CatchUpPostPointRow) -> bool,
    generation: i64,
)
    requires
        points_ordered(points, generation),
    ensures
        points_ordered(points.filter(keep), generation),
    decreases points.len(),
{
    reveal(Seq::filter);
    if points.len() > 0 {
        let d = points.drop_last();
        lemma_points_filter(d, keep, generation);
        lemma_filter_contains(d, keep);
        if keep(points.last()) {
            let r = points.filter(keep);
            assert forall|i: int, j: int| 0 <= i < j < r.len() implies (#[trigger] r[i]).seq < (
            #[trigger] r[j]).seq by {
                if j == r.len() - 1 {
                    let x = d.filter(keep)[i];
                    assert(d.filter(keep).contains(x));
                    let k = choose|k: int| 0 <= k < d.len() && d[k] == x;
                    assert(points[k].seq < points[points.len() - 1].seq);
                }
            }
        }
    }
}

/// The content tables after a thread was deleted.
proof fn lemma_thread_deleted_content(f: Forum, thread_id: Seq<char>)
    requires
        content_consistent(f),
    ensures
        content_consistent(without_thread(f, thread_id)),
{
    let g = without_thread(f, thread_id);
    lemma_all_filter(f.threads, thread_is_not(thread_id), in_live_category(f.categories));
    lemma_all_filter(
        f.threads,
        thread_is_not(thread_id),
        opened(f.original_posts, f.posts),
    );
    assert forall|i: int| 0 <= i < g.threads.len() implies opened(g.original_posts, g.posts)(
        #[trigger] g.threads[i],
    ) by {
        let t = g.threads[i];
        assert(thread_is_not(thread_id)(t));
        assert(opened(f.original_posts, f.posts)(t));
        lemma_first_row_filter(f.original_posts, original_is_not(thread_id), original_is(t.id));
        let op = original_of(f.original_posts, t.id)->0;
        lemma_some_filter_keeps(f.posts, post_not_in(thread_id), post_is_in(op, t.id));
    }
    lemma_all_filter(f.posts, post_not_in(thread_id), in_live_thread(f.threads));
    lemma_all_filter(f.posts, post_not_in(thread_id), pointed(f.post_points));
    assert forall|i: int| 0 <= i < g.posts.len() implies in_live_thread(g.threads)(
        #[trigger] g.posts[i],
    ) && pointed(g.post_points)(g.posts[i]) by {
        let p = g.posts[i];
        assert(post_not_in(thread_id)(p));
        assert(in_live_thread(f.threads)(p));
        assert(pointed(f.post_points)(p));
        lemma_some_filter_keeps(f.threads, thread_is_not(thread_id), thread_is(p.thread_id));
        lemma_some_filter_keeps(f.post_points, point_not_in(thread_id), point_for(p));
    }
    lemma_distinct_filter(f.posts, post_not_in(thread_id), post_key());
    lemma_distinct_filter(f.post_points, point_not_in(thread_id), point_key());
    lemma_points_filter(f.post_points, point_not_in(thread_id), f.generation);
}

/// The personal tables after a thread was deleted.
proof fn lemma_thread_deleted_personal(f: Forum, thread_id: Seq<char>)
    requires
        consistent(f),
    ensures
        bookmarks_consistent(without_thread(f, thread_id)),
        receipts_consistent(without_thread(f, thread_id)),
        relations_consistent(without_thread(f, thread_id)),
        rules_consistent(without_thread(f, thread_id)),
{
    let g = without_thread(f, thread_id);
    let keep_bookmark = bookmark_outside(f.posts, thread_id);
    lemma_all_filter(f.bookmarks, keep_bookmark, on_live_post(f.posts));
    assert forall|i: int| 0 <= i < g.bookmarks.len() implies on_live_post(g.posts)(
        #[trigger] g.bookmarks[i],
    ) by {
        let b = g.bookmarks[i];
        assert(keep_bookmark(b));
        assert(on_live_post(f.posts)(b));
        lemma_post_outside(f.posts, thread_id, b.post_id);
    }
    lemma_distinct_filter(f.bookmarks, keep_bookmark, bookmark_key());
    assert forall|owner: Seq<char>|
        #[trigger] count_rows(g.bookmarks, bookmark_by(owner)) <= MAX_BOOKMARKS_PER_USER by {
        lemma_count_filter(f.bookmarks, keep_bookmark, bookmark_by(owner));
        assert(count_rows(f.bookmarks, bookmark_by(owner)) <= MAX_BOOKMARKS_PER_USER);
    }
    let keep_receipt = receipt_outside(f.posts, thread_id);
    lemma_all_filter(f.read_receipts, keep_receipt, for_live_post(f.posts));
    lemma_all_filter(f.read_receipts, keep_receipt, read_by_clock(f.generation));
    assert forall|i: int| 0 <= i < g.read_receipts.len() implies for_live_post(g.posts)(
        #[trigger] g.read_receipts[i],
    ) by {
        let r = g.read_receipts[i];
        assert(keep_receipt(r));
        assert(for_live_post(f.posts)(r));
        lemma_post_outside(f.posts, thread_id, r.post_id);
    }
    lemma_distinct_filter(f.read_receipts, keep_receipt, receipt_key());
    let keep_relation = subscription_not_to(thread_id);
    lemma_all_filter(f.subscriptions, keep_relation, to_live_thread(f.threads));
    assert forall|i: int| 0 <= i < g.subscriptions.len() implies to_live_thread(g.threads)(
        #[trigger] g.subscriptions[i],
    ) by {
        let s = g.subscriptions[i];
        assert(keep_relation(s));
        assert(to_live_thread(f.threads)(s));
        lemma_some_filter_keeps(f.threads, thread_is_not(thread_id), thread_is(s.thread_id));
    }
    lemma_distinct_filter(f.subscriptions, keep_relation, relation_key());
    assert forall|id: Seq<char>|
        #[trigger] count_rows(g.subscriptions, watches(id)) <= MAX_THREAD_FOLLOWERS by {
        lemma_count_filter(f.subscriptions, keep_relation, watches(id));
        assert(count_rows(f.subscriptions, watches(id)) <= MAX_THREAD_FOLLOWERS);
    }
}

/// A live post that the deleted thread does not hold stays.
proof fn lemma_post_outside(posts: Seq<PostRow>, thread_id: Seq<char>, id: Seq<char>)
    requires
        some_row(posts, post_is(id)),
        !some_row(posts, post_is_in(id, thread_id)),
    ensures
        some_row(posts.filter(post_not_in(thread_id)), post_is(id)),
{
    let i = choose|i: int| 0 <= i < posts.len() && post_is(id)(#[trigger] posts[i]);
    if posts[i].thread_id == thread_id {
        assert(post_is_in(id, thread_id)(posts[i]));
    }
    assert(post_not_in(thread_id)(posts[i]) && post_is(id)(posts[i]));
    lemma_some_filter(posts, post_not_in(thread_id), post_is(id));
}

/// The activity tables after a thread was deleted.
proof fn lemma_thread_deleted_activity(f: Forum, thread_id: Seq<char>)
    requires
        consistent(f),
    ensures
        activity_consistent(without_thread(f, thread_id)),
{
    let g = without_thread(f, thread_id);
    lemma_all_filter(f.activity_events, event_not_in(thread_id), about_live_post(f.posts));
    assert forall|i: int| 0 <= i < g.activity_events.len() implies about_live_post(g.posts)(
        #[trigger] g.activity_events[i],
    ) by {
        let e = g.activity_events[i];
        assert(event_not_in(thread_id)(e));
        assert(about_live_post(f.posts)(e));
        lemma_some_filter_keeps(
            f.posts,
            post_not_in(thread_id),
            post_is_in(e.post_id, e.thread_id),
        );
    }
    let keep_delivery = delivery_outside(f.activity_events, thread_id);
    lemma_all_filter(f.activity_deliveries, keep_delivery, of_known_event(f.activity_events));
    assert forall|i: int| 0 <= i < g.activity_deliveries.len() implies of_known_event(
        g.activity_events,
    )(#[trigger] g.activity_deliveries[i]) by {
        let d = g.activity_deliveries[i];
        assert(keep_delivery(d));
        assert(of_known_event(f.activity_events)(d));
        let k = choose|k: int|
            0 <= k < f.activity_events.len() && event_is(d.activity_id)(
                #[trigger] f.activity_events[k],
            );
        let e = f.activity_events[k];
        if e.thread_id == thread_id {
            assert(event_is_in(d.activity_id, thread_id)(f.activity_events[k]));
        }
        assert(event_not_in(thread_id)(f.activity_events[k]) && event_is(d.activity_id)(
            f.activity_events[k],
        ));
        lemma_some_filter(f.activity_events, event_not_in(thread_id), event_is(d.activity_id));
    }
    let keep_receipt = activity_receipt_outside(f.activity_events, thread_id);
    lemma_all_filter(
        f.activity_receipts,
        keep_receipt,
        of_known_delivery(f.activity_deliveries),
    );
    assert forall|i: int| 0 <= i < g.activity_receipts.len() implies of_known_delivery(
        g.activity_deliveries,
    )(#[trigger] g.activity_receipts[i]) by {
        let r = g.activity_receipts[i];
        assert(keep_receipt(r));
        assert(of_known_delivery(f.activity_deliveries)(r));
        lemma_some_filter_keeps(
            f.activity_deliveries,
            keep_delivery,
            delivery_of_to(r.activity_id, r.viewer_sub),
        );
    }
    lemma_distinct_filter(f.activity_receipts, keep_receipt, activity_receipt_key());
}

/// Deleting a thread keeps the forum consistent: nothing that belonged to it is left.
pub proof fn law_thread_deletion_is_consistent(f: Forum, thread_id: Seq<char>)
    requires
        consistent(f),
    ensures
        consistent(without_thread(f, thread_id)),
{
    lemma_thread_deleted_content(f, thread_id);
    lemma_thread_deleted_personal(f, thread_id);
    lemma_thread_deleted_activity(f, thread_id);
    lemma_distinct_filter(f.reactions, reaction_outside(f.posts, thread_id), reaction_key());
}

/// The tables after a reply left, before its thread is settled.
pub open spec fn without_reply(f: Forum, post_id: Seq<char>) -> Forum {
    Forum {
        posts: f.posts.filter(post_is_not(post_id)),
        bookmarks: f.bookmarks.filter(bookmark_not_on(post_id)),
        reactions: f.reactions.filter(reaction_not_to(post_id)),
        mentions: f.mentions.filter(mention_not_by(post_id)),
        activity_events: f.activity_events.filter(event_not_on(post_id)),
        activity_deliveries: f.activity_deliveries.filter(
            delivery_not_on(f.activity_events, post_id),
        ),
        activity_receipts: f.activity_receipts.filter(
            activity_receipt_not_on(f.activity_events, post_id),
        ),
        read_receipts: f.read_receipts.filter(receipt_not_for(post_id)),
        ..f
    }
}

proof fn lemma_reply_deleted_content(f: Forum, post_id: Seq<char>, thread_id: Seq<char>)
    requires
        content_consistent(f),
        some_row(f.posts, post_is_in(post_id, thread_id)),
        original_of(f.original_posts, thread_id) != Some(post_id),
    ensures
        content_consistent(without_reply(f, post_id)),
{
    let g = without_reply(f, post_id);
    let here = choose|i: int|
        0 <= i < f.posts.len() && post_is_in(post_id, thread_id)(#[trigger] f.posts[i]);
    assert forall|i: int| 0 <= i < g.threads.len() implies opened(g.original_posts, g.posts)(
        #[trigger] g.threads[i],
    ) by {
        let t = g.threads[i];
        assert(opened(f.original_posts, f.posts)(t));
        let op = original_of(f.original_posts, t.id)->0;
        let k = choose|k: int| 0 <= k < f.posts.len() && post_is_in(op, t.id)(#[trigger] f.posts[k]);
        if op == post_id {
            if k != here {
                assert(post_key()(f.posts[k]) != post_key()(f.posts[here]));
            }
        }
        lemma_some_filter_keeps(f.posts, post_is_not(post_id), post_is_in(op, t.id));
    }
    lemma_all_filter(f.posts, post_is_not(post_id), in_live_thread(f.threads));
    lemma_all_filter(f.posts, post_is_not(post_id), pointed(f.post_points));
    lemma_distinct_filter(f.posts, post_is_not(post_id), post_key());
}

proof fn lemma_reply_deleted_personal(f: Forum, post_id: Seq<char>)
    requires
        consistent(f),
    ensures
        bookmarks_consistent(without_reply(f, post_id)),
        receipts_consistent(without_reply(f, post_id)),
        relations_consistent(without_reply(f, post_id)),
        rules_consistent(without_reply(f, post_id)),
{
    let g = without_reply(f, post_id);
    let keep_bookmark = bookmark_not_on(post_id);
    lemma_all_filter(f.bookmarks, keep_bookmark, on_live_post(f.posts));
    assert forall|i: int| 0 <= i < g.bookmarks.len() implies on_live_post(g.posts)(
        #[trigger] g.bookmarks[i],
    ) by {
        let b = g.bookmarks[i];
        assert(keep_bookmark(b));
        assert(on_live_post(f.posts)(b));
        lemma_some_filter_keeps(f.posts, post_is_not(post_id), post_is(b.post_id));
    }
    lemma_distinct_filter(f.bookmarks, keep_bookmark, bookmark_key());
    assert forall|owner: Seq<char>|
        #[trigger] count_rows(g.bookmarks, bookmark_by(owner)) <= MAX_BOOKMARKS_PER_USER by {
        lemma_count_filter(f.bookmarks, keep_bookmark, bookmark_by(owner));
        assert(count_rows(f.bookmarks, bookmark_by(owner)) <= MAX_BOOKMARKS_PER_USER);
    }
    let keep_receipt = receipt_not_for(post_id);
    lemma_all_filter(f.read_receipts, keep_receipt, for_live_post(f.posts));
    lemma_all_filter(f.read_receipts, keep_receipt, read_by_clock(f.generation));
    assert forall|i: int| 0 <= i < g.read_receipts.len() implies for_live_post(g.posts)(
        #[trigger] g.read_receipts[i],
    ) by {
        let r = g.read_receipts[i];
        assert(keep_receipt(r));
        assert(for_live_post(f.posts)(r));
        lemma_some_filter_keeps(f.posts, post_is_not(post_id), post_is(r.post_id));
    }
    lemma_distinct_filter(f.read_receipts, keep_receipt, receipt_key());
}

proof fn lemma_reply_deleted_activity(f: Forum, post_id: Seq<char>)
    requires
        consistent(f),
    ensures
        activity_consistent(without_reply(f, post_id)),
{
    let g = without_reply(f, post_id);
    lemma_all_filter(f.activity_events, event_not_on(post_id), about_live_post(f.posts));
    assert forall|i: int| 0 <= i < g.activity_events.len() implies about_live_post(g.posts)(
        #[trigger] g.activity_events[i],
    ) by {
        let e = g.activity_events[i];
        assert(event_not_on(post_id)(e));
        assert(about_live_post(f.posts)(e));
        lemma_some_filter_keeps(f.posts, post_is_not(post_id), post_is_in(e.post_id, e.thread_id));
    }
    let keep_delivery = delivery_not_on(f.activity_events, post_id);
    lemma_all_filter(f.activity_deliveries, keep_delivery, of_known_event(f.activity_events));
    assert forall|i: int| 0 <= i < g.activity_deliveries.len() implies of_known_event(
        g.activity_events,
    )(#[trigger] g.activity_deliveries[i]) by {
        let d = g.activity_deliveries[i];
        assert(keep_delivery(d));
        assert(of_known_event(f.activity_events)(d));
        let k = choose|k: int|
            0 <= k < f.activity_events.len() && event_is(d.activity_id)(
                #[trigger] f.activity_events[k],
            );
        let e = f.activity_events[k];
        if e.post_id == post_id {
            assert(event_is_on(d.activity_id, post_id)(f.activity_events[k]));
        }
        assert(event_not_on(post_id)(f.activity_events[k]) && event_is(d.activity_id)(
            f.activity_events[k],
        ));
        lemma_some_filter(f.activity_events, event_not_on(post_id), event_is(d.activity_id));
    }
    let keep_receipt = activity_receipt_not_on(f.activity_events, post_id);
    lemma_all_filter(
        f.activity_receipts,
        keep_receipt,
        of_known_delivery(f.activity_deliveries),
    );
    assert forall|i: int| 0 <= i < g.activity_receipts.len() implies of_known_delivery(
        g.activity_deliveries,
    )(#[trigger] g.activity_receipts[i]) by {
        let r = g.activity_receipts[i];
        assert(keep_receipt(r));
        assert(of_known_delivery(f.activity_deliveries)(r));
        lemma_some_filter_keeps(
            f.activity_deliveries,
            keep_delivery,
            delivery_of_to(r.activity_id, r.viewer_sub),
        );
    }
    lemma_distinct_filter(f.activity_receipts, keep_receipt, activity_receipt_key());
}

/// Deleting a reply keeps the forum consistent: nothing that belonged to it is left, and every
/// thread keeps its original post.
pub proof fn law_post_deletion_is_consistent(f: Forum, post_id: Seq<char>)
    requires
        consistent(f),
    ensures
        consistent(post_deletion(f, post_id).0),
{
    if first_row(f.posts, post_is(post_id)) is Some && post_deletion(f, post_id).1 is Ok {
        let post = first_row(f.posts, post_is(post_id))->0;
        let thread_id = post.thread_id;
        lemma_first_index(f.posts, post_is(post_id));
        assert(post_is_in(post_id, thread_id)(post));
        let unquoting = f.posts.map_values(unquoted(post_id));
        lemma_post_edit(f, unquoting);
        let g = Forum { posts: unquoting, ..f };
        let k = first_index(f.posts, post_is(post_id))->0;
        assert(post_is_in(post_id, thread_id)(g.posts[k]));
        lemma_reply_deleted_content(g, post_id, thread_id);
        lemma_reply_deleted_personal(g, post_id);
        lemma_reply_deleted_activity(g, post_id);
        let h = without_reply(g, post_id);
        lemma_distinct_filter(f.reactions, reaction_not_to(post_id), reaction_key());
        lemma_thread_edit(
            h,
            thread_is(thread_id),
            after_deletion(
                post_id,
                original_of(f.original_posts, thread_id),
                newest_at(h.posts, thread_id),
            ),
        );
    }
}

} // verus!
