//! What threads, posts, and categories promise.

use vstd::prelude::*;

use crate::laws::order::{
    law_key_less, law_sorted, law_sorted_members, lemma_sorted_distinct_by, orders,
};
use crate::laws::pages::lemma_not_less;
use crate::laws::state::{
    consistent, content_consistent, in_live_thread, opened, point_for, pointed, post_key,
};
use crate::laws::state_writing::{lemma_first_row_filter, lemma_first_row_push, lemma_original_kept};
use crate::laws::tables::{lemma_count_bound, lemma_count_push, lemma_distinct_filter};
use crate::model::{CategoryFormat, CategoryRow, PostRow, ThreadRow};
use crate::rows::{
    count_rows, first_index, first_row, insert_sorted, lemma_filter_contains, lemma_filter_push,
    lemma_first_index, lemma_first_index_unique, some_row, sorted, update_first,
};
use crate::store::categories::{
    answered_in, category_deletion, category_is_not, category_transition, reformatted,
    rule_not_for, seeded,
};
use crate::store::editing::{
    activity_receipt_outside, after_deletion, bookmark_not_on, bookmark_outside, delivery_outside,
    event_is_in, event_not_in, mention_not_in, newest_at, point_not_in, post_deletion, post_is_not,
    post_not_in, reaction_not_to, reaction_outside, receipt_not_for, receipt_outside, retitled,
    rewritten, subscription_not_to, thread_is_not, thread_update, unquoted, with_lock, with_pin,
    without_thread,
};
use crate::store::focus::{focus_level_of, rule_of};
use crate::store::follow::{bookmark_of, level_of, receipt_of, relation_of};
use crate::store::memory::Forum;
use crate::store::posting::{
    bumped, point_of, reply_addition, reply_addition_with_activity, thread_creation,
    thread_creation_with_activity,
};
use crate::store::reactions::reaction_to;
use crate::store::tables::{
    category_is, original_is, original_is_not, original_of, post_in, post_is, post_is_in,
    thread_in, thread_is,
};
use crate::store::threads::{digest_of, key_less, original_post, post_order, thread_posts};
use crate::store::types::Failure;

verus! {

// ---------------------------------------------------------------------------
// Finding a changed row.
// ---------------------------------------------------------------------------

/// A row changed in place is found changed.
pub proof fn lemma_first_row_update<A>(s: Seq<A>, p: spec_fn(A) -> bool, f: spec_fn(A) -> A)
    requires
        forall|x: A| #[trigger] p(x) ==> p(f(x)),
    ensures
        first_row(update_first(s, p, f), p) == match first_row(s, p) {
            Some(x) => Some(f(x)),
            None => None,
        },
{
    lemma_first_index(s, p);
    if first_index(s, p) is Some {
        let i = first_index(s, p)->0;
        let r = update_first(s, p, f);
        assert forall|j: int| 0 <= j < i implies !p(#[trigger] r[j]) by {
            assert(!p(s[j]));
        }
        lemma_first_index_unique(r, p, i);
    }
}

/// A change of other rows leaves a row where it was found.
pub proof fn lemma_first_row_other<A>(
    s: Seq<A>,
    p: spec_fn(A) -> bool,
    f: spec_fn(A) -> A,
    q: spec_fn(A) -> bool,
)
    requires
        forall|x: A| #[trigger] p(x) ==> !q(x) && !q(f(x)),
    ensures
        first_row(update_first(s, p, f), q) == first_row(s, q),
{
    lemma_first_index(s, p);
    lemma_first_index(s, q);
    if first_index(s, p) is Some {
        let i = first_index(s, p)->0;
        let r = update_first(s, p, f);
        lemma_first_index(r, q);
        match first_index(s, q) {
            Some(k) => {
                assert forall|j: int| 0 <= j < k implies !q(#[trigger] r[j]) by {
                    assert(!q(s[j]));
                }
                assert(q(r[k]));
                lemma_first_index_unique(r, q, k);
            },
            None => {
                assert forall|j: int| 0 <= j < r.len() implies !q(#[trigger] r[j]) by {
                    assert(!q(s[j]));
                }
            },
        }
    }
}

// ---------------------------------------------------------------------------
// Categories.
// ---------------------------------------------------------------------------

/// Seeding fills an empty category table and changes nothing afterwards.
pub proof fn law_seeding_is_idempotent(
    f: Forum,
    defaults: Seq<CategoryRow>,
    others: Seq<CategoryRow>,
)
    requires
        defaults.len() > 0,
    ensures
        seeded(seeded(f, defaults), others) == seeded(f, defaults),
        f.categories.len() > 0 ==> seeded(f, defaults) == f,
{
}

/// A category with threads cannot be deleted; a category without any is gone afterwards, together
/// with the focus rules for it, and nothing else changes.
pub proof fn law_category_deletion(f: Forum, id: Seq<char>)
    ensures
        some_row(f.threads, thread_in(id)) ==> category_deletion(f, id).0 == f && category_deletion(
            f,
            id,
        ).1 is Err,
        !some_row(f.threads, thread_in(id)) ==> {
            let g = category_deletion(f, id).0;
            &&& category_deletion(f, id).1 is Ok
            &&& !some_row(g.categories, category_is(id))
            &&& forall|viewer: Seq<char>|
                #[trigger] focus_level_of(g.category_focus_rules, viewer, id) is Unset
            &&& forall|other: Seq<char>|
                other != id ==> first_row(g.categories, #[trigger] category_is(other)) == first_row(
                    f.categories,
                    category_is(other),
                )
        },
{
    let g = category_deletion(f, id).0;
    if !some_row(f.threads, thread_in(id)) {
        lemma_filter_contains(f.categories, category_is_not(id));
        assert forall|i: int| 0 <= i < g.categories.len() implies !category_is(id)(
            #[trigger] g.categories[i],
        ) by {
            assert(g.categories.contains(g.categories[i]));
        }
        assert forall|viewer: Seq<char>|
            #[trigger] focus_level_of(g.category_focus_rules, viewer, id) is Unset by {
            lemma_filter_contains(f.category_focus_rules, rule_not_for(id));
            lemma_first_index(g.category_focus_rules, rule_of(viewer, id));
            if first_index(g.category_focus_rules, rule_of(viewer, id)) is Some {
                let i = first_index(g.category_focus_rules, rule_of(viewer, id))->0;
                assert(g.category_focus_rules.contains(g.category_focus_rules[i]));
            }
        }
        assert forall|other: Seq<char>| other != id implies first_row(
            g.categories,
            #[trigger] category_is(other),
        ) == first_row(f.categories, category_is(other)) by {
            lemma_first_row_filter(f.categories, category_is_not(id), category_is(other));
        }
    }
}

/// A category that became a discussion has no thread with an accepted reply.
pub proof fn law_transition_hides_no_answer(f: Forum, id: Seq<char>)
    requires
        first_row(f.categories, category_is(id)) is Some,
        first_row(f.categories, category_is(id))->0.format is Question,
    ensures
        ({
            let (g, r) = category_transition(f, id, CategoryFormat::Discussion);
            &&& r is Ok ==> !some_row(g.threads, answered_in(g, id)) && first_row(
                g.categories,
                category_is(id),
            )->0.format is Discussion
            &&& r is Err ==> g == f && some_row(f.threads, answered_in(f, id))
        }),
{
    let (g, r) = category_transition(f, id, CategoryFormat::Discussion);
    if r is Ok {
        lemma_first_row_update(
            f.categories,
            category_is(id),
            reformatted(CategoryFormat::Discussion),
        );
        assert forall|i: int| 0 <= i < g.threads.len() implies !answered_in(g, id)(
            #[trigger] g.threads[i],
        ) by {
            assert(!answered_in(f, id)(f.threads[i]));
        }
    }
}

/// A category's format reads back as it was set.
pub proof fn law_transition_reads_back(f: Forum, id: Seq<char>, format: CategoryFormat)
    requires
        category_transition(f, id, format).1 is Ok,
    ensures
        first_row(category_transition(f, id, format).0.categories, category_is(id)) is Some,
        first_row(category_transition(f, id, format).0.categories, category_is(id))->0.format
            == format,
{
    lemma_first_row_update(f.categories, category_is(id), reformatted(format));
}

// ---------------------------------------------------------------------------
// Threads and replies.
// ---------------------------------------------------------------------------

proof fn lemma_count_pushed(posts: Seq<PostRow>, post: PostRow, thread_id: Seq<char>)
    ensures
        count_rows(posts.push(post), post_in(thread_id)) == count_rows(posts, post_in(thread_id))
            + if post.thread_id == thread_id {
            1nat
        } else {
            0nat
        },
{
    lemma_count_push(posts, post, post_in(thread_id));
}

/// A thread under a new identifier is read back with its original post.
pub proof fn law_created_thread_reads_back(f: Forum, thread: ThreadRow, first_post: PostRow)
    requires
        consistent(f),
        !some_row(f.threads, thread_is(thread.id)),
        thread_creation(f, thread, first_post).1 is Ok,
    ensures
        ({
            let g = thread_creation(f, thread, first_post).0;
            &&& first_row(g.threads, thread_is(thread.id)) == Some(thread)
            &&& first_row(g.posts, post_is(first_post.id)) == Some(first_post)
            &&& original_of(g.original_posts, thread.id) == Some(first_post.id)
            &&& thread_posts(g, thread.id) == seq![first_post]
            &&& count_rows(g.posts, post_in(thread.id)) == 1
            &&& g.generation == f.generation + 1
        }),
{
    let g = thread_creation(f, thread, first_post).0;
    lemma_first_index(f.threads, thread_is(thread.id));
    lemma_first_row_push(f.threads, thread, thread_is(thread.id));
    lemma_posts_fresh(f, first_post);
    lemma_first_index(f.posts, post_is(first_post.id));
    lemma_first_row_push(f.posts, first_post, post_is(first_post.id));
    lemma_original_kept(f.original_posts, thread.id, first_post.id, thread.id);
    lemma_count_bound(f.posts, post_in(thread.id));
    assert(!some_row(f.posts, post_in(thread.id))) by {
        if some_row(f.posts, post_in(thread.id)) {
            let i = choose|i: int|
                0 <= i < f.posts.len() && post_in(thread.id)(#[trigger] f.posts[i]);
            assert(in_live_thread(f.threads)(f.posts[i]));
        }
    }
    lemma_count_pushed(f.posts, first_post, thread.id);
    lemma_filter_push(f.posts, first_post, post_in(thread.id));
    assert(f.posts.filter(post_in(thread.id)) =~= Seq::empty());
    let only = Seq::<PostRow>::empty().push(first_post);
    assert(g.posts.filter(post_in(thread.id)) =~= only);
    assert(only.drop_last() =~= Seq::empty());
    let order = post_order(original_of(g.original_posts, thread.id));
    reveal_with_fuel(sorted, 2);
    reveal_with_fuel(insert_sorted, 2);
    assert(sorted(only, order) =~= seq![first_post]);
}

/// No post of a consistent forum has the identifier of a post without a catch-up point.
proof fn lemma_posts_fresh(f: Forum, post: PostRow)
    requires
        content_consistent(f),
        !some_row(f.post_points, point_of(post.id)),
    ensures
        !some_row(f.posts, post_is(post.id)),
{
    if some_row(f.posts, post_is(post.id)) {
        let i = choose|i: int| 0 <= i < f.posts.len() && post_is(post.id)(#[trigger] f.posts[i]);
        assert(pointed(f.post_points)(f.posts[i]));
        let k = choose|k: int|
            0 <= k < f.post_points.len() && point_for(f.posts[i])(#[trigger] f.post_points[k]);
        assert(point_of(post.id)(f.post_points[k]));
    }
}

/// A reply is read back, counts once, and moves its thread to the time of the reply.
pub proof fn law_reply_reads_back(f: Forum, post: PostRow)
    requires
        consistent(f),
        reply_addition(f, post).1 is Ok,
    ensures
        ({
            let g = reply_addition(f, post).0;
            &&& first_row(g.posts, post_is(post.id)) == Some(post)
            &&& thread_posts(g, post.thread_id).contains(post)
            &&& count_rows(g.posts, post_in(post.thread_id)) == count_rows(
                f.posts,
                post_in(post.thread_id),
            ) + 1
            &&& first_row(g.threads, thread_is(post.thread_id)) == Some(
                bumped(post.created_at)(first_row(f.threads, thread_is(post.thread_id))->0),
            )
            &&& original_of(g.original_posts, post.thread_id) == original_of(
                f.original_posts,
                post.thread_id,
            )
            &&& g.generation == f.generation + 1
        }),
{
    let g = reply_addition(f, post).0;
    lemma_posts_fresh(f, post);
    lemma_first_index(f.posts, post_is(post.id));
    lemma_first_row_push(f.posts, post, post_is(post.id));
    lemma_count_pushed(f.posts, post, post.thread_id);
    lemma_first_row_update(f.threads, thread_is(post.thread_id), bumped(post.created_at));
    let order = post_order(original_of(g.original_posts, post.thread_id));
    let mine = g.posts.filter(post_in(post.thread_id));
    law_sorted_members(mine, order);
    lemma_filter_contains(g.posts, post_in(post.thread_id));
    assert(g.posts[g.posts.len() - 1] == post);
    assert(g.posts.contains(post));
    assert(mine.contains(post));
}

/// A locked thread accepts no reply, and nothing changes.
pub proof fn law_locked_thread_accepts_no_reply(
    f: Forum,
    post: PostRow,
    mentioned: Seq<Seq<char>>,
    activity_id: Seq<char>,
)
    requires
        first_row(f.threads, thread_is(post.thread_id)) is Some,
        first_row(f.threads, thread_is(post.thread_id))->0.locked,
    ensures
        reply_addition(f, post).0 == f,
        reply_addition(f, post).1 is Err,
        reply_addition_with_activity(f, post, mentioned, activity_id).0 == f,
        reply_addition_with_activity(f, post, mentioned, activity_id).1 is Err,
{
}

/// A refused reply or thread leaves the forum as it was.
pub proof fn law_refused_writing_stores_nothing(
    f: Forum,
    thread: ThreadRow,
    post: PostRow,
    mentioned: Seq<Seq<char>>,
    activity_id: Seq<char>,
)
    ensures
        thread_creation(f, thread, post).1 is Err ==> thread_creation(f, thread, post).0 == f,
        reply_addition(f, post).1 is Err ==> reply_addition(f, post).0 == f,
        ({
            let (g, r) = thread_creation_with_activity(f, thread, post, mentioned, activity_id);
            r is Err ==> g == f
        }),
        ({
            let (g, r) = reply_addition_with_activity(f, post, mentioned, activity_id);
            r is Err ==> g == f
        }),
{
}

// ---------------------------------------------------------------------------
// The original post.
// ---------------------------------------------------------------------------

/// The reading order of a thread is an order.
pub proof fn law_post_order(op: Option<Seq<char>>)
    ensures
        orders(post_order(op)),
{
    let le = post_order(op);
    assert forall|a: PostRow, b: PostRow| #[trigger] le(a, b) || le(b, a) by {
        law_key_less(a.created_at as int, a.id, b.created_at as int, b.id, 0, a.id);
    }
    assert forall|a: PostRow, b: PostRow, c: PostRow| #[trigger]
        le(a, b) && #[trigger] le(b, c) implies le(a, c) by {
        lemma_not_less(
            a.created_at as int,
            a.id,
            b.created_at as int,
            b.id,
            c.created_at as int,
            c.id,
        );
    }
}

/// The posts of a thread are read with its original post first and its replies from old to new.
pub proof fn law_original_post_is_first(f: Forum, thread_id: Seq<char>)
    requires
        consistent(f),
        some_row(f.threads, thread_is(thread_id)),
    ensures
        thread_posts(f, thread_id).len() > 0,
        original_of(f.original_posts, thread_id) == Some(thread_posts(f, thread_id)[0].id),
        thread_posts(f, thread_id)[0].thread_id == thread_id,
        forall|i: int, j: int|
            0 < i < j < thread_posts(f, thread_id).len() ==> key_less(
                (#[trigger] thread_posts(f, thread_id)[i]).created_at as int,
                thread_posts(f, thread_id)[i].id,
                (#[trigger] thread_posts(f, thread_id)[j]).created_at as int,
                thread_posts(f, thread_id)[j].id,
            ),
{
    let k = choose|k: int| 0 <= k < f.threads.len() && thread_is(thread_id)(#[trigger] f.threads[k]);
    assert(opened(f.original_posts, f.posts)(f.threads[k]));
    let op = original_of(f.original_posts, thread_id);
    let mine = f.posts.filter(post_in(thread_id));
    let read = thread_posts(f, thread_id);
    let le = post_order(op);
    law_post_order(op);
    law_sorted(mine, le);
    law_sorted_members(mine, le);
    lemma_filter_contains(f.posts, post_in(thread_id));
    let at = choose|i: int|
        0 <= i < f.posts.len() && post_is_in(op->0, thread_id)(#[trigger] f.posts[i]);
    let first = f.posts[at];
    assert(f.posts.contains(first));
    assert(mine.contains(first));
    assert(read.contains(first));
    let n = choose|n: int| 0 <= n < read.len() && read[n] == first;
    assert(le(read[0], read[n]));
    assert(read.contains(read[0]));
    assert(mine.contains(read[0]));
    lemma_distinct_filter(f.posts, post_in(thread_id), post_key());
    lemma_sorted_distinct_by(mine, le, post_key());
    assert forall|i: int, j: int| 0 < i < j < read.len() implies key_less(
        (#[trigger] read[i]).created_at as int,
        read[i].id,
        (#[trigger] read[j]).created_at as int,
        read[j].id,
    ) by {
        assert(le(read[i], read[j]));
        assert(post_key()(read[i]) != post_key()(read[0]));
        assert(post_key()(read[j]) != post_key()(read[0]));
        assert(post_key()(read[i]) != post_key()(read[j]));
        law_key_less(
            read[i].created_at as int,
            read[i].id,
            read[j].created_at as int,
            read[j].id,
            0,
            read[i].id,
        );
    }
}

// ---------------------------------------------------------------------------
// Deletion.
// ---------------------------------------------------------------------------

/// A deleted thread leaves nothing behind, and every other thread reads as before.
pub proof fn law_deleted_thread_is_gone(f: Forum, thread_id: Seq<char>)
    ensures
        ({
            let g = without_thread(f, thread_id);
            &&& !some_row(g.threads, thread_is(thread_id))
            &&& !some_row(g.posts, post_in(thread_id))
            &&& original_of(g.original_posts, thread_id) is None
            &&& thread_posts(g, thread_id).len() == 0
            &&& forall|viewer: Seq<char>|
                #[trigger] level_of(g.subscriptions, thread_id, viewer) is Unset
            &&& forall|other: Seq<char>|
                other != thread_id ==> first_row(g.threads, #[trigger] thread_is(other))
                    == first_row(f.threads, thread_is(other)) && thread_posts(g, other)
                    == thread_posts(f, other)
            &&& g.categories == f.categories
            &&& g.generation == f.generation
        }),
{
    let g = without_thread(f, thread_id);
    lemma_filter_contains(f.threads, thread_is_not(thread_id));
    lemma_filter_contains(f.posts, post_not_in(thread_id));
    lemma_filter_contains(f.original_posts, original_is_not(thread_id));
    lemma_filter_contains(f.subscriptions, subscription_not_to(thread_id));
    assert forall|i: int| 0 <= i < g.threads.len() implies !thread_is(thread_id)(
        #[trigger] g.threads[i],
    ) by {
        assert(g.threads.contains(g.threads[i]));
    }
    assert forall|i: int| 0 <= i < g.posts.len() implies !post_in(thread_id)(
        #[trigger] g.posts[i],
    ) by {
        assert(g.posts.contains(g.posts[i]));
    }
    lemma_count_bound(g.posts, post_in(thread_id));
    lemma_first_index(g.original_posts, original_is(thread_id));
    if first_index(g.original_posts, original_is(thread_id)) is Some {
        let i = first_index(g.original_posts, original_is(thread_id))->0;
        assert(g.original_posts.contains(g.original_posts[i]));
    }
    law_sorted_members(
        g.posts.filter(post_in(thread_id)),
        post_order(original_of(g.original_posts, thread_id)),
    );
    assert forall|viewer: Seq<char>|
        #[trigger] level_of(g.subscriptions, thread_id, viewer) is Unset by {
        lemma_first_index(g.subscriptions, relation_of(thread_id, viewer));
        if first_index(g.subscriptions, relation_of(thread_id, viewer)) is Some {
            let i = first_index(g.subscriptions, relation_of(thread_id, viewer))->0;
            assert(g.subscriptions.contains(g.subscriptions[i]));
        }
    }
    assert forall|other: Seq<char>| other != thread_id implies first_row(
        g.threads,
        #[trigger] thread_is(other),
    ) == first_row(f.threads, thread_is(other)) && thread_posts(g, other) == thread_posts(
        f,
        other,
    ) by {
        lemma_first_row_filter(f.threads, thread_is_not(thread_id), thread_is(other));
        lemma_first_row_filter(
            f.original_posts,
            original_is_not(thread_id),
            original_is(other),
        );
        lemma_filter_absorbed(f.posts, post_not_in(thread_id), post_in(other));
    }
}

/// A filter that keeps all wanted rows makes no difference to them.
pub proof fn lemma_filter_absorbed<A>(s: Seq<A>, keep: spec_fn(A) -> bool, p: spec_fn(A) -> bool)
    requires
        forall|x: A| #[trigger] p(x) ==> keep(x),
    ensures
        s.filter(keep).filter(p) == s.filter(p),
    decreases s.len(),
{
    reveal(Seq::filter);
    if s.len() > 0 {
        let d = s.drop_last();
        lemma_filter_absorbed(d, keep, p);
        assert(s =~= d.push(s.last()));
        if keep(s.last()) {
            lemma_filter_push(d.filter(keep), s.last(), p);
        }
    } else {
        assert(s.filter(keep) =~= s);
    }
}

/// The original post of a thread cannot be deleted on its own.
pub proof fn law_original_post_stays(f: Forum, post_id: Seq<char>)
    requires
        consistent(f),
        first_row(f.posts, post_is(post_id)) is Some,
        original_of(f.original_posts, first_row(f.posts, post_is(post_id))->0.thread_id) == Some(
            post_id,
        ),
    ensures
        post_deletion(f, post_id).0 == f,
        post_deletion(f, post_id).1 is Err,
{
}

/// A deleted reply leaves nothing behind: no post, no quotation, no bookmark, no receipt, and no
/// accepted pointer of its thread. Its place in the catch-up record stays.
pub proof fn law_deleted_reply_is_gone(f: Forum, post_id: Seq<char>)
    requires
        first_row(f.posts, post_is(post_id)) is Some,
        post_id.len() > 0,
        post_deletion(f, post_id).1 is Ok,
    ensures
        ({
            let g = post_deletion(f, post_id).0;
            let thread_id = first_row(f.posts, post_is(post_id))->0.thread_id;
            &&& !some_row(g.posts, post_is(post_id))
            &&& forall|i: int|
                0 <= i < g.posts.len() ==> (#[trigger] g.posts[i]).quoted_post_id != post_id
            &&& forall|owner: Seq<char>|
                #[trigger] first_row(g.bookmarks, bookmark_of(owner, post_id)) is None
            &&& forall|viewer: Seq<char>|
                !some_row(g.read_receipts, #[trigger] receipt_of(viewer, post_id))
            &&& !some_row(g.reactions, reaction_to(post_id))
            &&& first_row(g.threads, thread_is(thread_id)) is Some
            &&& first_row(g.threads, thread_is(thread_id))->0.accepted_post_id != post_id
            &&& g.post_points == f.post_points
            &&& g.generation == f.generation
        }),
{
    let g = post_deletion(f, post_id).0;
    let thread_id = first_row(f.posts, post_is(post_id))->0.thread_id;
    let unquoting = f.posts.map_values(unquoted(post_id));
    lemma_filter_contains(unquoting, post_is_not(post_id));
    assert forall|i: int| 0 <= i < g.posts.len() implies !post_is(post_id)(#[trigger] g.posts[i])
        && g.posts[i].quoted_post_id != post_id by {
        assert(g.posts.contains(g.posts[i]));
        let k = choose|k: int| 0 <= k < unquoting.len() && unquoting[k] == g.posts[i];
        assert(unquoting[k] == unquoted(post_id)(f.posts[k]));
    }
    assert forall|owner: Seq<char>|
        #[trigger] first_row(g.bookmarks, bookmark_of(owner, post_id)) is None by {
        lemma_filter_contains(f.bookmarks, bookmark_not_on(post_id));
        lemma_first_index(g.bookmarks, bookmark_of(owner, post_id));
        if first_index(g.bookmarks, bookmark_of(owner, post_id)) is Some {
            let i = first_index(g.bookmarks, bookmark_of(owner, post_id))->0;
            assert(g.bookmarks.contains(g.bookmarks[i]));
        }
    }
    lemma_filter_contains(f.read_receipts, receipt_not_for(post_id));
    assert forall|viewer: Seq<char>| !some_row(
        g.read_receipts,
        #[trigger] receipt_of(viewer, post_id),
    ) by {
        assert forall|i: int| 0 <= i < g.read_receipts.len() implies !receipt_of(viewer, post_id)(
            #[trigger] g.read_receipts[i],
        ) by {
            assert(g.read_receipts.contains(g.read_receipts[i]));
        }
    }
    lemma_filter_contains(f.reactions, reaction_not_to(post_id));
    assert forall|i: int| 0 <= i < g.reactions.len() implies !reaction_to(post_id)(
        #[trigger] g.reactions[i],
    ) by {
        assert(g.reactions.contains(g.reactions[i]));
    }
    lemma_first_index(f.threads, thread_is(thread_id));
    lemma_first_row_update(
        f.threads,
        thread_is(thread_id),
        after_deletion(
            post_id,
            original_of(f.original_posts, thread_id),
            newest_at(g.posts, thread_id),
        ),
    );
}

/// Deleting what is not there changes nothing, so deleting twice is deleting once.
pub proof fn law_deletion_is_idempotent(f: Forum, thread_id: Seq<char>, post_id: Seq<char>)
    requires
        consistent(f),
        post_deletion(f, post_id).1 is Ok,
    ensures
        post_deletion(post_deletion(f, post_id).0, post_id) == (
            post_deletion(f, post_id).0,
            Ok::<(), Failure>(()),
        ),
        without_thread(without_thread(f, thread_id), thread_id) == without_thread(f, thread_id),
{
    let g = post_deletion(f, post_id).0;
    if first_row(f.posts, post_is(post_id)) is Some {
        let unquoting = f.posts.map_values(unquoted(post_id));
        lemma_filter_contains(unquoting, post_is_not(post_id));
        lemma_first_index(g.posts, post_is(post_id));
        if first_index(g.posts, post_is(post_id)) is Some {
            let i = first_index(g.posts, post_is(post_id))->0;
            assert(g.posts.contains(g.posts[i]));
        }
    }
    lemma_thread_deletion_twice(f, thread_id);
}

pub proof fn lemma_filter_all<A>(s: Seq<A>, p: spec_fn(A) -> bool)
    requires
        forall|i: int| 0 <= i < s.len() ==> p(#[trigger] s[i]),
    ensures
        s.filter(p) == s,
    decreases s.len(),
{
    reveal(Seq::filter);
    if s.len() > 0 {
        let d = s.drop_last();
        assert forall|i: int| 0 <= i < d.len() implies p(#[trigger] d[i]) by {
            assert(p(s[i]));
        }
        lemma_filter_all(d, p);
        assert(p(s[s.len() - 1]));
        assert(s =~= d.push(s.last()));
    } else {
        assert(s.filter(p) =~= s);
    }
}

pub proof fn lemma_filter_again<A>(s: Seq<A>, p: spec_fn(A) -> bool)
    ensures
        s.filter(p).filter(p) == s.filter(p),
{
    lemma_filter_contains(s, p);
    assert forall|i: int| 0 <= i < s.filter(p).len() implies p(#[trigger] s.filter(p)[i]) by {
        assert(s.filter(p).contains(s.filter(p)[i]));
    }
    lemma_filter_all(s.filter(p), p);
}

proof fn lemma_thread_deletion_twice(f: Forum, thread_id: Seq<char>)
    ensures
        without_thread(without_thread(f, thread_id), thread_id) == without_thread(f, thread_id),
{
    let g = without_thread(f, thread_id);
    law_deleted_thread_is_gone(f, thread_id);
    lemma_filter_again(f.threads, thread_is_not(thread_id));
    lemma_filter_again(f.posts, post_not_in(thread_id));
    lemma_filter_again(f.original_posts, original_is_not(thread_id));
    lemma_filter_again(f.mentions, mention_not_in(thread_id));
    lemma_filter_again(f.subscriptions, subscription_not_to(thread_id));
    lemma_filter_again(f.activity_events, event_not_in(thread_id));
    lemma_filter_again(f.post_points, point_not_in(thread_id));
    assert forall|id: Seq<char>| !some_row(g.posts, #[trigger] post_is_in(id, thread_id)) by {
        if some_row(g.posts, post_is_in(id, thread_id)) {
            let i = choose|i: int|
                0 <= i < g.posts.len() && post_is_in(id, thread_id)(#[trigger] g.posts[i]);
            assert(post_in(thread_id)(g.posts[i]));
        }
    }
    lemma_filter_contains(f.activity_events, event_not_in(thread_id));
    assert forall|id: Seq<char>| !some_row(
        g.activity_events,
        #[trigger] event_is_in(id, thread_id),
    ) by {
        if some_row(g.activity_events, event_is_in(id, thread_id)) {
            let i = choose|i: int|
                0 <= i < g.activity_events.len() && event_is_in(id, thread_id)(
                    #[trigger] g.activity_events[i],
                );
            assert(g.activity_events.contains(g.activity_events[i]));
        }
    }
    lemma_filter_all(g.bookmarks, bookmark_outside(g.posts, thread_id));
    lemma_filter_all(g.reactions, reaction_outside(g.posts, thread_id));
    lemma_filter_all(g.read_receipts, receipt_outside(g.posts, thread_id));
    lemma_filter_all(g.activity_deliveries, delivery_outside(g.activity_events, thread_id));
    lemma_filter_all(
        g.activity_receipts,
        activity_receipt_outside(g.activity_events, thread_id),
    );
    assert(without_thread(g, thread_id) =~= g);
}

// ---------------------------------------------------------------------------
// Edits.
// ---------------------------------------------------------------------------

/// An edited title and original post are read back.
pub proof fn law_thread_update_reads_back(
    f: Forum,
    thread_id: Seq<char>,
    title: Seq<char>,
    op_post_id: Seq<char>,
    body_md: Seq<char>,
)
    requires
        first_row(f.threads, thread_is(thread_id)) is Some,
        first_row(f.posts, post_is(op_post_id)) is Some,
        original_of(f.original_posts, thread_id) == Some(op_post_id),
    ensures
        ({
            let (g, r) = thread_update(f, thread_id, title, op_post_id, body_md);
            &&& r is Ok
            &&& first_row(g.threads, thread_is(thread_id)) == Some(
                retitled(title)(first_row(f.threads, thread_is(thread_id))->0),
            )
            &&& first_row(g.posts, post_is(op_post_id)) == Some(
                rewritten(body_md)(first_row(f.posts, post_is(op_post_id))->0),
            )
            &&& digest_of(g)(
                first_row(g.threads, thread_is(thread_id))->0,
            ).first_body_md == body_md
        }),
{
    let (g, r) = thread_update(f, thread_id, title, op_post_id, body_md);
    lemma_first_row_update(f.threads, thread_is(thread_id), retitled(title));
    lemma_first_row_update(f.posts, post_is(op_post_id), rewritten(body_md));
    lemma_first_index(f.threads, thread_is(thread_id));
    lemma_same_row(g.posts, original_post(g, thread_id), post_is(op_post_id));
}

/// Two tests that agree find the same row.
pub proof fn lemma_same_row<A>(s: Seq<A>, p: spec_fn(A) -> bool, q: spec_fn(A) -> bool)
    requires
        forall|x: A| #[trigger] p(x) == q(x),
    ensures
        first_row(s, p) == first_row(s, q),
{
    lemma_first_index(s, p);
    lemma_first_index(s, q);
    match first_index(s, p) {
        Some(i) => {
            assert forall|j: int| 0 <= j < i implies !q(#[trigger] s[j]) by {
                assert(!p(s[j]));
            }
            assert(q(s[i]));
            lemma_first_index_unique(s, q, i);
        },
        None => {
            assert forall|j: int| 0 <= j < s.len() implies !q(#[trigger] s[j]) by {
                assert(!p(s[j]));
            }
        },
    }
}

/// Locks and pins are read back, on their thread alone.
pub proof fn law_flags_read_back(
    f: Forum,
    thread_id: Seq<char>,
    other: Seq<char>,
    locked: bool,
    pinned: bool,
)
    requires
        first_row(f.threads, thread_is(thread_id)) is Some,
        other != thread_id,
    ensures
        first_row(
            update_first(f.threads, thread_is(thread_id), with_lock(locked)),
            thread_is(thread_id),
        )->0.locked == locked,
        first_row(
            update_first(f.threads, thread_is(thread_id), with_pin(pinned)),
            thread_is(thread_id),
        )->0.pinned == pinned,
        first_row(
            update_first(f.threads, thread_is(thread_id), with_lock(locked)),
            thread_is(other),
        ) == first_row(f.threads, thread_is(other)),
        first_row(
            update_first(f.threads, thread_is(thread_id), with_pin(pinned)),
            thread_is(other),
        ) == first_row(f.threads, thread_is(other)),
{
    lemma_first_row_update(f.threads, thread_is(thread_id), with_lock(locked));
    lemma_first_row_update(f.threads, thread_is(thread_id), with_pin(pinned));
    lemma_first_row_other(f.threads, thread_is(thread_id), with_lock(locked), thread_is(other));
    lemma_first_row_other(f.threads, thread_is(thread_id), with_pin(pinned), thread_is(other));
}

} // verus!
