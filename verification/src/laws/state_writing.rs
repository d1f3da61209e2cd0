//! Writing threads and replies keeps the store consistent.

use vstd::prelude::*;

use crate::laws::state::{
    consistent, content_consistent, in_live_category, in_live_thread, keeps_posts, keeps_threads,
    lemma_same_categories, lemma_untouched, of_known_delivery, of_known_event, opened, point_for,
    point_key, pointed, post_key, read_by_clock, receipts_consistent,
};
use crate::laws::tables::{
    all_rows, lemma_all_update_first, lemma_all_weaker, lemma_distinct_push, lemma_some_append,
    lemma_some_push, lemma_some_update_first,
};
use crate::model::{ActivityDeliveryRow, ActivityEventRow, PostRow, ThreadRow};
use crate::rows::{
    collected, count_rows, deduped, first_index, first_row, lemma_filter_contains,
    lemma_first_index, some_row, update_first,
};
use crate::store::activity::event_is;
use crate::store::follow::delivery_of_to;
use crate::store::memory::Forum;
use crate::store::posting::{
    bumped, mention_delivery, mention_not_by, mention_rows, opening_check, point_of, post_event,
    reply_addition, reply_addition_with_activity, reply_check, reply_deliveries, stored_delivery,
    thread_creation, thread_creation_with_activity, watches, with_activity, with_alias, with_point,
    with_reply, with_thread,
};
use crate::store::rules::mention_aliases;
use crate::store::tables::{
    category_is, original_is, original_is_not, original_of, post_is_in, thread_is, with_original,
};
use crate::store::types::{
    ActivityReceiptRow, CatchUpPostPointRow, MAX_THREAD_FOLLOWERS, OriginalPostRow,
    StoredActivityDeliveryRow,
};

verus! {

/// The first row found is found behind a filter that keeps all rows like it.
pub proof fn lemma_first_row_filter<A>(s: Seq<A>, keep: spec_fn(A) -> bool, p: spec_fn(A) -> bool)
    requires
        forall|x: A| #[trigger] p(x) ==> keep(x),
    ensures
        first_row(s.filter(keep), p) == first_row(s, p),
    decreases s.len(),
{
    reveal(Seq::filter);
    if s.len() > 0 {
        let d = s.drop_last();
        lemma_first_row_filter(d, keep, p);
        lemma_first_row_push(d, s.last(), p);
        assert(s =~= d.push(s.last()));
        if keep(s.last()) {
            lemma_first_row_push(d.filter(keep), s.last(), p);
        }
    } else {
        assert(s.filter(keep) =~= s);
    }
}

/// The first row found stays the first one when a row is added behind it.
pub proof fn lemma_first_row_push<A>(s: Seq<A>, x: A, p: spec_fn(A) -> bool)
    ensures
        first_row(s.push(x), p) == match first_row(s, p) {
            Some(y) => Some(y),
            None => if p(x) {
                Some(x)
            } else {
                None
            },
        },
{
    assert(s.push(x).drop_last() =~= s);
    lemma_first_index(s, p);
}

/// The original post of another thread stays recorded.
pub proof fn lemma_original_kept(
    originals: Seq<OriginalPostRow>,
    thread_id: Seq<char>,
    post_id: Seq<char>,
    id: Seq<char>,
)
    ensures
        original_of(with_original(originals, thread_id, post_id), id) == if id == thread_id {
            Some(post_id)
        } else {
            original_of(originals, id)
        },
{
    let kept = originals.filter(original_is_not(thread_id));
    lemma_first_row_push(kept, OriginalPostRow { thread_id, post_id }, original_is(id));
    if id != thread_id {
        lemma_first_row_filter(originals, original_is_not(thread_id), original_is(id));
    } else {
        lemma_first_index(kept, original_is(id));
        if first_index(kept, original_is(id)) is Some {
            let i = first_index(kept, original_is(id))->0;
            lemma_filter_contains(originals, original_is_not(thread_id));
            assert(kept.contains(kept[i]));
        }
    }
}

proof fn lemma_alias_consistent(f: Forum, subject: Seq<char>, email: Seq<char>, created_at: i64)
    requires
        consistent(f),
    ensures
        consistent(with_alias(f, subject, email, created_at)),
{
    let g = with_alias(f, subject, email, created_at);
    lemma_content_kept(f, g);
}

/// Only tables outside the invariant differ.
pub proof fn lemma_content_kept(f: Forum, g: Forum)
    requires
        consistent(f),
        g == (Forum { identity_aliases: g.identity_aliases, mentions: g.mentions, ..f }),
    ensures
        consistent(g),
{
}

/// A post in the catch-up record.
proof fn lemma_point_consistent(f: Forum, post: PostRow)
    requires
        consistent(f),
    ensures
        consistent(with_point(f, post).0),
        with_point(f, post).1 is Ok ==> {
            let g = with_point(f, post).0;
            &&& some_row(g.post_points, point_for(post))
            &&& forall|i: int| 0 <= i < f.posts.len() ==> (#[trigger] f.posts[i]).id != post.id
        },
{
    let g = with_point(f, post).0;
    if with_point(f, post).1 is Ok {
        let x = CatchUpPostPointRow {
            post_id: post.id,
            thread_id: post.thread_id,
            activity_at: post.created_at,
            seq: (f.generation + 1) as i64,
        };
        assert(g.post_points == f.post_points.push(x));
        lemma_some_push(f.post_points, x, point_for(post));
        assert(point_for(post)(x));
        assert forall|p: PostRow| #[trigger] pointed(f.post_points)(p) implies pointed(
            g.post_points,
        )(p) by {
            lemma_some_push(f.post_points, x, point_for(p));
        }
        lemma_all_weaker(f.posts, pointed(f.post_points), pointed(g.post_points));
        assert forall|i: int| 0 <= i < f.post_points.len() implies point_key()(
            #[trigger] f.post_points[i],
        ) != point_key()(x) by {
            if f.post_points[i].post_id == post.id {
                assert(point_of(post.id)(f.post_points[i]));
            }
        }
        lemma_distinct_push(f.post_points, x, point_key());
        lemma_content_posts_fresh(f, post);
        lemma_untouched_clock(f, g);
    } else {
        assert(g == f);
    }
}

proof fn lemma_content_posts_fresh(f: Forum, post: PostRow)
    requires
        content_consistent(f),
        !some_row(f.post_points, point_of(post.id)),
    ensures
        forall|i: int| 0 <= i < f.posts.len() ==> (#[trigger] f.posts[i]).id != post.id,
{
    assert forall|i: int| 0 <= i < f.posts.len() implies (#[trigger] f.posts[i]).id != post.id by {
        let p = f.posts[i];
        assert(pointed(f.post_points)(p));
        let k = choose|k: int|
            0 <= k < f.post_points.len() && point_for(p)(#[trigger] f.post_points[k]);
        if p.id == post.id {
            assert(point_of(post.id)(f.post_points[k]));
        }
    }
}

/// Receipts stay consistent when the clock advances.
pub proof fn lemma_untouched_clock(f: Forum, g: Forum)
    requires
        receipts_consistent(f),
        g.posts == f.posts,
        g.read_receipts == f.read_receipts,
        g.generation >= f.generation,
    ensures
        receipts_consistent(g),
{
    lemma_all_weaker(f.read_receipts, read_by_clock(f.generation), read_by_clock(g.generation));
}

/// A stored thread with its original post.
proof fn lemma_thread_consistent(f: Forum, thread: ThreadRow, first_post: PostRow)
    requires
        consistent(f),
        first_post.thread_id == thread.id,
        some_row(f.categories, category_is(thread.category_id)),
        some_row(f.post_points, point_for(first_post)),
        forall|i: int| 0 <= i < f.posts.len() ==> (#[trigger] f.posts[i]).id != first_post.id,
    ensures
        consistent(with_thread(f, thread, first_post)),
        some_row(
            with_thread(f, thread, first_post).posts,
            post_is_in(first_post.id, first_post.thread_id),
        ),
{
    let g = with_thread(f, thread, first_post);
    assert(keeps_posts(f, g)) by {
        assert forall|id: Seq<char>, t: Seq<char>|
            some_row(f.posts, #[trigger] post_is_in(id, t)) implies some_row(
            g.posts,
            post_is_in(id, t),
        ) by {
            lemma_some_push(f.posts, first_post, post_is_in(id, t));
        }
    }
    assert(keeps_threads(f, g)) by {
        assert forall|id: Seq<char>| some_row(f.threads, #[trigger] thread_is(id)) implies some_row(
            g.threads,
            thread_is(id),
        ) by {
            lemma_some_push(f.threads, thread, thread_is(id));
        }
    }
    lemma_some_push(
        f.posts,
        first_post,
        post_is_in(first_post.id, first_post.thread_id),
    );
    lemma_some_push(f.threads, thread, thread_is(thread.id));
    assert forall|i: int| 0 <= i < g.threads.len() implies opened(g.original_posts, g.posts)(
        #[trigger] g.threads[i],
    ) && in_live_category(g.categories)(g.threads[i]) by {
        let t = g.threads[i];
        lemma_original_kept(f.original_posts, thread.id, first_post.id, t.id);
        if i < f.threads.len() {
            assert(opened(f.original_posts, f.posts)(f.threads[i]));
            assert(in_live_category(f.categories)(f.threads[i]));
        }
    }
    assert forall|i: int| 0 <= i < g.posts.len() implies in_live_thread(g.threads)(
        #[trigger] g.posts[i],
    ) && pointed(g.post_points)(g.posts[i]) by {
        if i < f.posts.len() {
            assert(in_live_thread(f.threads)(f.posts[i]));
            assert(pointed(f.post_points)(f.posts[i]));
            assert(some_row(f.threads, thread_is(f.posts[i].thread_id)));
        }
    }
    assert forall|i: int| 0 <= i < f.posts.len() implies post_key()(#[trigger] f.posts[i])
        != post_key()(first_post) by {
        assert(f.posts[i].id != first_post.id);
    }
    lemma_distinct_push(f.posts, first_post, post_key());
    lemma_same_categories(f, g);
    lemma_untouched(f, g);
}

/// Opening a thread keeps the forum consistent.
pub proof fn law_thread_creation_is_consistent(f: Forum, thread: ThreadRow, first_post: PostRow)
    requires
        consistent(f),
    ensures
        consistent(thread_creation(f, thread, first_post).0),
{
    if opening_check(f, thread, first_post) is Ok {
        let seen = with_alias(
            f,
            first_post.author_sub,
            first_post.author_email,
            first_post.created_at,
        );
        lemma_alias_consistent(
            f,
            first_post.author_sub,
            first_post.author_email,
            first_post.created_at,
        );
        lemma_point_consistent(seen, first_post);
        if with_point(seen, first_post).1 is Ok {
            lemma_thread_consistent(with_point(seen, first_post).0, thread, first_post);
        }
    }
}

/// An event about a live post, with its deliveries.
pub proof fn lemma_activity_recorded(
    f: Forum,
    event: ActivityEventRow,
    deliveries: Seq<ActivityDeliveryRow>,
)
    requires
        consistent(f),
        some_row(f.posts, post_is_in(event.post_id, event.thread_id)),
    ensures
        consistent(with_activity(f, event, deliveries)),
{
    let g = with_activity(f, event, deliveries);
    if deliveries.len() > 0 {
        assert forall|d: StoredActivityDeliveryRow| #[trigger]
            of_known_event(f.activity_events)(d) implies of_known_event(g.activity_events)(d) by {
            lemma_some_push(f.activity_events, event, event_is(d.activity_id));
        }
        lemma_all_weaker(
            f.activity_deliveries,
            of_known_event(f.activity_events),
            of_known_event(g.activity_events),
        );
        let added = deliveries.map_values(stored_delivery(event.id));
        assert forall|i: int| 0 <= i < g.activity_deliveries.len() implies of_known_event(
            g.activity_events,
        )(#[trigger] g.activity_deliveries[i]) by {
            if i < f.activity_deliveries.len() {
                assert(of_known_event(g.activity_events)(f.activity_deliveries[i]));
            } else {
                assert(g.activity_deliveries[i] == added[i - f.activity_deliveries.len()]);
                lemma_some_push(f.activity_events, event, event_is(event.id));
            }
        }
        assert forall|r: ActivityReceiptRow| #[trigger]
            of_known_delivery(f.activity_deliveries)(r) implies of_known_delivery(
            g.activity_deliveries,
        )(r) by {
            lemma_some_append(
                f.activity_deliveries,
                added,
                delivery_of_to(r.activity_id, r.viewer_sub),
            );
        }
        lemma_all_weaker(
            f.activity_receipts,
            of_known_delivery(f.activity_deliveries),
            of_known_delivery(g.activity_deliveries),
        );
    }
}

/// Opening a thread and telling the mentioned subjects keeps the forum consistent.
pub proof fn law_thread_creation_with_activity_is_consistent(
    f: Forum,
    thread: ThreadRow,
    first_post: PostRow,
    mentioned: Seq<Seq<char>>,
    activity_id: Seq<char>,
)
    requires
        consistent(f),
    ensures
        consistent(
            thread_creation_with_activity(f, thread, first_post, mentioned, activity_id).0,
        ),
{
    if mention_aliases(mentioned) is Ok && opening_check(f, thread, first_post) is Ok {
        let aliases = mention_aliases(mentioned)->Ok_0;
        let seen = with_alias(
            f,
            first_post.author_sub,
            first_post.author_email,
            first_post.created_at,
        );
        lemma_alias_consistent(
            f,
            first_post.author_sub,
            first_post.author_email,
            first_post.created_at,
        );
        lemma_point_consistent(seen, first_post);
        if with_point(seen, first_post).1 is Ok {
            let g = with_point(seen, first_post).0;
            lemma_thread_consistent(g, thread, first_post);
            let stored = with_thread(g, thread, first_post);
            let mentioning = Forum {
                mentions: stored.mentions + mention_rows(
                    first_post.id,
                    thread.id,
                    aliases,
                    first_post.created_at,
                ),
                ..stored
            };
            lemma_content_kept(stored, mentioning);
            let deliveries = deduped(
                collected(aliases, mention_delivery(seen.identity_aliases, first_post.author_sub)),
            );
            lemma_activity_recorded(mentioning, post_event(first_post, activity_id), deliveries);
        }
    }
}

/// A stored reply.
proof fn lemma_reply_consistent(f: Forum, post: PostRow)
    requires
        consistent(f),
        some_row(f.threads, thread_is(post.thread_id)),
        some_row(f.post_points, point_for(post)),
        forall|i: int| 0 <= i < f.posts.len() ==> (#[trigger] f.posts[i]).id != post.id,
    ensures
        consistent(with_reply(f, post)),
        some_row(with_reply(f, post).posts, post_is_in(post.id, post.thread_id)),
{
    let g = with_reply(f, post);
    let which = thread_is(post.thread_id);
    let change = bumped(post.created_at);
    assert(keeps_posts(f, g)) by {
        assert forall|id: Seq<char>, t: Seq<char>|
            some_row(f.posts, #[trigger] post_is_in(id, t)) implies some_row(
            g.posts,
            post_is_in(id, t),
        ) by {
            lemma_some_push(f.posts, post, post_is_in(id, t));
        }
    }
    lemma_some_push(f.posts, post, post_is_in(post.id, post.thread_id));
    lemma_threads_changed(f, g, which, change);
    assert forall|i: int| 0 <= i < g.posts.len() implies in_live_thread(g.threads)(
        #[trigger] g.posts[i],
    ) && pointed(g.post_points)(g.posts[i]) by {
        if i < f.posts.len() {
            assert(in_live_thread(f.threads)(f.posts[i]));
            assert(pointed(f.post_points)(f.posts[i]));
            assert(some_row(f.threads, thread_is(f.posts[i].thread_id)));
        } else {
            assert(some_row(f.threads, thread_is(post.thread_id)));
        }
    }
    assert forall|i: int| 0 <= i < f.posts.len() implies post_key()(#[trigger] f.posts[i])
        != post_key()(post) by {
        assert(f.posts[i].id != post.id);
    }
    lemma_distinct_push(f.posts, post, post_key());
    lemma_same_categories(f, g);
    lemma_untouched(f, g);
}

/// A change of one thread that keeps its identifier and its category.
pub proof fn lemma_threads_changed(
    f: Forum,
    g: Forum,
    which: spec_fn(ThreadRow) -> bool,
    change: spec_fn(ThreadRow) -> ThreadRow,
)
    requires
        content_consistent(f),
        g.threads == update_first(f.threads, which, change),
        g.categories == f.categories,
        g.original_posts == f.original_posts,
        keeps_posts(f, g),
        forall|t: ThreadRow|
            (#[trigger] change(t)).id == t.id && change(t).category_id == t.category_id,
    ensures
        keeps_threads(f, g),
        all_rows(g.threads, in_live_category(g.categories)),
        all_rows(g.threads, opened(g.original_posts, g.posts)),
{
    assert forall|id: Seq<char>| some_row(f.threads, #[trigger] thread_is(id)) implies some_row(
        g.threads,
        thread_is(id),
    ) by {
        lemma_some_update_first(f.threads, which, change, thread_is(id));
    }
    assert forall|t: ThreadRow| #[trigger]
        in_live_category(f.categories)(t) && which(t) implies in_live_category(f.categories)(
        change(t),
    ) by {
        assert(change(t).category_id == t.category_id);
    }
    lemma_all_update_first(f.threads, which, change, in_live_category(f.categories));
    assert forall|t: ThreadRow| #[trigger] opened(f.original_posts, f.posts)(t) implies opened(
        g.original_posts,
        g.posts,
    )(t) by {
        let op = original_of(f.original_posts, t.id)->0;
        assert(some_row(f.posts, post_is_in(op, t.id)));
    }
    lemma_all_weaker(
        f.threads,
        opened(f.original_posts, f.posts),
        opened(g.original_posts, g.posts),
    );
    assert forall|t: ThreadRow| #[trigger]
        opened(g.original_posts, g.posts)(t) && which(t) implies opened(
        g.original_posts,
        g.posts,
    )(change(t)) by {
        assert(change(t).id == t.id);
    }
    lemma_all_update_first(f.threads, which, change, opened(g.original_posts, g.posts));
}

/// Adding a reply keeps the forum consistent.
pub proof fn law_reply_is_consistent(f: Forum, post: PostRow)
    requires
        consistent(f),
    ensures
        consistent(reply_addition(f, post).0),
{
    if reply_check(f, post) is Ok {
        let seen = with_alias(f, post.author_sub, post.author_email, post.created_at);
        lemma_alias_consistent(f, post.author_sub, post.author_email, post.created_at);
        lemma_point_consistent(seen, post);
        if with_point(seen, post).1 is Ok {
            lemma_first_index(f.threads, thread_is(post.thread_id));
            lemma_reply_consistent(with_point(seen, post).0, post);
        }
    }
}

/// Adding a reply and telling its recipients keeps the forum consistent.
pub proof fn law_reply_with_activity_is_consistent(
    f: Forum,
    post: PostRow,
    mentioned: Seq<Seq<char>>,
    activity_id: Seq<char>,
)
    requires
        consistent(f),
    ensures
        consistent(reply_addition_with_activity(f, post, mentioned, activity_id).0),
{
    if mention_aliases(mentioned) is Ok && reply_check(f, post) is Ok && count_rows(
        f.subscriptions,
        watches(post.thread_id),
    ) <= MAX_THREAD_FOLLOWERS {
        let aliases = mention_aliases(mentioned)->Ok_0;
        let thread = first_row(f.threads, thread_is(post.thread_id))->0;
        let seen = with_alias(f, post.author_sub, post.author_email, post.created_at);
        lemma_alias_consistent(f, post.author_sub, post.author_email, post.created_at);
        lemma_point_consistent(seen, post);
        if with_point(seen, post).1 is Ok {
            let g = with_point(seen, post).0;
            lemma_first_index(f.threads, thread_is(post.thread_id));
            lemma_reply_consistent(g, post);
            let stored = with_reply(g, post);
            let mentioning = Forum {
                mentions: stored.mentions.filter(mention_not_by(post.id)) + mention_rows(
                    post.id,
                    post.thread_id,
                    aliases,
                    post.created_at,
                ),
                ..stored
            };
            lemma_content_kept(stored, mentioning);
            lemma_activity_recorded(
                mentioning,
                post_event(post, activity_id),
                reply_deliveries(f, thread, post, aliases),
            );
        }
    }
}

} // verus!
