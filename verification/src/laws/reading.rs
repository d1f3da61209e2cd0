//! What reading and the catch-up desk promise.

use vstd::prelude::*;

use crate::laws::state_writing::{lemma_first_row_push, lemma_original_kept};
use crate::laws::tables::{lemma_count_bound, lemma_some_append};
use crate::model::{PostRow, ThreadRow};
use crate::rows::{
    collected, count_rows, first_index, first_row, insert_sorted, lemma_filter_contains,
    lemma_filter_push, lemma_first_index, limited, some_row, sorted,
};
use crate::store::catch_up::{
    CatchUpQuery, catch_up, catch_up_facts, catch_up_item, catch_up_order, new_receipt,
    not_yet_read, point_within, post_within, reading_mark, receipt_within, snapshot_points,
    stranger_to,
};
use crate::store::editing::{post_deletion, without_thread};
use crate::store::follow::receipt_of;
use crate::store::memory::Forum;
use crate::store::posting::{
    bumped, point_of, reply_addition, reply_addition_with_activity, thread_creation,
    thread_creation_with_activity,
};
use crate::store::rules::{catch_up_page_check, read_post, reading_state, receipt_ids, unread_post};
use crate::store::tables::{category_is, original_of, post_is_in, thread_is, valid_accepted};
use crate::store::types::{
    CatchUpCursorRow, CatchUpItemRow, CatchUpPostPointRow, CatchUpQuestionState, CatchUpView,
    Failure, ReadReceiptRow,
};
use crate::text::trim_text;

verus! {

// ---------------------------------------------------------------------------
// Reading states.
// ---------------------------------------------------------------------------

/// What a reading state says: the unread posts are counted, the first of them is named, and every
/// post before it has been read.
pub proof fn law_reading_state(posts: Seq<PostRow>, read: Seq<Seq<char>>)
    requires
        posts.len() <= i64::MAX,
    ensures
        ({
            let s = reading_state(posts, read);
            &&& s.unread_count as int + count_rows(posts, read_post(read)) == posts.len()
            &&& s.first_unread is None <==> s.unread_count == 0
            &&& s.started <==> s.unread_count < posts.len()
            &&& s.first_unread is Some ==> posts.contains(s.first_unread->0) && !read.contains(
                s.first_unread->0.id,
            )
            &&& s.last_contiguous_read is Some ==> posts.contains(s.last_contiguous_read->0)
                && read.contains(s.last_contiguous_read->0.id)
        }),
{
    lemma_count_split(posts, read);
    lemma_count_bound(posts, read_post(read));
    lemma_count_bound(posts, unread_post(read));
    lemma_first_index(posts, unread_post(read));
    match first_index(posts, unread_post(read)) {
        Some(i) => {
            assert(posts.contains(posts[i]));
            if i > 0 {
                assert(!unread_post(read)(posts[i - 1]));
                assert(posts.contains(posts[i - 1]));
            }
        },
        None => {
            if posts.len() > 0 {
                assert(!unread_post(read)(posts[posts.len() - 1]));
                assert(posts.contains(posts.last()));
            }
        },
    }
}

proof fn lemma_count_split(posts: Seq<PostRow>, read: Seq<Seq<char>>)
    ensures
        count_rows(posts, read_post(read)) + count_rows(posts, unread_post(read)) == posts.len(),
    decreases posts.len(),
{
    reveal(Seq::filter);
    if posts.len() > 0 {
        lemma_count_split(posts.drop_last(), read);
    }
}

// ---------------------------------------------------------------------------
// Receipts.
// ---------------------------------------------------------------------------

/// Marked posts have been read, receipts from before stay as they were, and marking the same posts
/// again changes nothing. A refused mark stores nothing.
pub proof fn law_reading_mark_reads_back(
    f: Forum,
    viewer_sub: Seq<char>,
    thread_id: Seq<char>,
    post_ids: Seq<Seq<char>>,
    read_at: i64,
    later: i64,
)
    requires
        later >= 0,
    ensures
        ({
            let (g, r) = reading_mark(f, viewer_sub, thread_id, post_ids, read_at);
            &&& r is Err ==> g == f
            &&& r is Ok ==> {
                &&& forall|id: Seq<char>| #[trigger]
                    receipt_ids(post_ids)->Ok_0.contains(id) ==> some_row(
                        g.read_receipts,
                        receipt_of(viewer_sub, id),
                    )
                &&& f.read_receipts.len() <= g.read_receipts.len()
                &&& g.read_receipts.take(f.read_receipts.len() as int) == f.read_receipts
                &&& forall|viewer: Seq<char>, id: Seq<char>|
                    viewer != viewer_sub ==> (some_row(
                        g.read_receipts,
                        #[trigger] receipt_of(viewer, id),
                    ) <==> some_row(f.read_receipts, receipt_of(viewer, id)))
                &&& reading_mark(g, viewer_sub, thread_id, post_ids, later) == (
                    g,
                    Ok::<(), Failure>(()),
                )
            }
        }),
{
    let (g, r) = reading_mark(f, viewer_sub, thread_id, post_ids, read_at);
    if r is Ok {
        let ids = receipt_ids(post_ids)->Ok_0;
        let test = not_yet_read(f.read_receipts, viewer_sub);
        let missing = ids.filter(test);
        let seq = (f.generation + 1) as i64;
        let added = if missing.len() == 0 {
            Seq::<ReadReceiptRow>::empty()
        } else {
            missing.map_values(new_receipt(viewer_sub, read_at, seq))
        };
        assert(g.read_receipts =~= f.read_receipts + added);
        lemma_filter_contains(ids, test);
        assert forall|id: Seq<char>| #[trigger] ids.contains(id) implies some_row(
            g.read_receipts,
            receipt_of(viewer_sub, id),
        ) by {
            let p = receipt_of(viewer_sub, id);
            lemma_some_append(f.read_receipts, added, p);
            if !some_row(f.read_receipts, p) {
                assert(missing.contains(id));
                let k = choose|k: int| 0 <= k < missing.len() && missing[k] == id;
                assert(p(added[k]));
            }
        }
        assert(g.read_receipts.take(f.read_receipts.len() as int) =~= f.read_receipts);
        assert forall|viewer: Seq<char>, id: Seq<char>| viewer != viewer_sub implies (some_row(
            g.read_receipts,
            #[trigger] receipt_of(viewer, id),
        ) <==> some_row(f.read_receipts, receipt_of(viewer, id))) by {
            let p = receipt_of(viewer, id);
            lemma_some_append(f.read_receipts, added, p);
            assert(!some_row(added, p)) by {
                assert forall|k: int| 0 <= k < added.len() implies !p(#[trigger] added[k]) by {}
            }
        }
        let again = ids.filter(not_yet_read(g.read_receipts, viewer_sub));
        assert(again.len() == 0) by {
            lemma_filter_contains(ids, not_yet_read(g.read_receipts, viewer_sub));
            if again.len() > 0 {
                assert(again.contains(again[0]));
                assert(ids.contains(again[0]));
            }
        }
        assert(stranger_to(g.posts, thread_id) =~= stranger_to(f.posts, thread_id));
    }
}

// ---------------------------------------------------------------------------
// The clock.
// ---------------------------------------------------------------------------

/// The commit-ordered clock never goes back.
pub proof fn law_clock_never_goes_back(
    f: Forum,
    thread: ThreadRow,
    post: PostRow,
    mentioned: Seq<Seq<char>>,
    activity_id: Seq<char>,
    viewer_sub: Seq<char>,
    post_ids: Seq<Seq<char>>,
    at: i64,
)
    ensures
        thread_creation(f, thread, post).0.generation >= f.generation,
        thread_creation_with_activity(f, thread, post, mentioned, activity_id).0.generation
            >= f.generation,
        reply_addition(f, post).0.generation >= f.generation,
        reply_addition_with_activity(f, post, mentioned, activity_id).0.generation >= f.generation,
        reading_mark(f, viewer_sub, thread.id, post_ids, at).0.generation >= f.generation,
        without_thread(f, thread.id).generation == f.generation,
        post_deletion(f, post.id).0.generation == f.generation,
{
}

// ---------------------------------------------------------------------------
// The snapshot.
// ---------------------------------------------------------------------------

/// Whether two forums hold the same tables of the desk, apart from threads, posts, the record of
/// posts, and receipts.
pub open spec fn same_desk(f: Forum, g: Forum) -> bool {
    &&& g.categories == f.categories
    &&& g.subscriptions == f.subscriptions
    &&& g.bookmarks == f.bookmarks
}

/// A snapshot does not see what entered the record behind it.
proof fn lemma_snapshot_points(
    points: Seq<CatchUpPostPointRow>,
    x: CatchUpPostPointRow,
    as_of: i64,
    generation: i64,
)
    requires
        x.seq > generation,
    ensures
        points.push(x).filter(point_within(as_of, generation)) == points.filter(
            point_within(as_of, generation),
        ),
{
    lemma_filter_push(points, x, point_within(as_of, generation));
}

proof fn lemma_filter_behind(
    receipts: Seq<ReadReceiptRow>,
    added: Seq<ReadReceiptRow>,
    p: spec_fn(ReadReceiptRow) -> bool,
)
    requires
        forall|i: int| 0 <= i < added.len() ==> !p(#[trigger] added[i]),
    ensures
        (receipts + added).filter(p) == receipts.filter(p),
    decreases added.len(),
{
    reveal(Seq::filter);
    if added.len() == 0 {
        assert(receipts + added =~= receipts);
    } else {
        let d = added.drop_last();
        assert forall|i: int| 0 <= i < d.len() implies !p(#[trigger] d[i]) by {
            assert(!p(added[i]));
        }
        lemma_filter_behind(receipts, d, p);
        assert((receipts + added).drop_last() =~= receipts + d);
        assert(!p(added[added.len() - 1]));
    }
}

/// Reading after a snapshot was taken changes none of its pages.
pub proof fn law_snapshot_ignores_later_reading(
    f: Forum,
    viewer_sub: Seq<char>,
    thread_id: Seq<char>,
    post_ids: Seq<Seq<char>>,
    read_at: i64,
    q: CatchUpQuery,
    limit: int,
)
    requires
        q.generation <= f.generation,
    ensures
        catch_up(reading_mark(f, viewer_sub, thread_id, post_ids, read_at).0, q, limit) == catch_up(
            f,
            q,
            limit,
        ),
{
    let (g, r) = reading_mark(f, viewer_sub, thread_id, post_ids, read_at);
    let points = snapshot_points(f, q.as_of, q.generation);
    let within = receipt_within(points, q.viewer_sub, q.as_of, q.generation);
    assert(g.read_receipts.filter(within) == f.read_receipts.filter(within)) by {
        if g.read_receipts != f.read_receipts {
            let ids = receipt_ids(post_ids)->Ok_0;
            let missing = ids.filter(not_yet_read(f.read_receipts, viewer_sub));
            let seq = (f.generation + 1) as i64;
            let added = missing.map_values(new_receipt(viewer_sub, read_at, seq));
            lemma_filter_behind(f.read_receipts, added, within);
        }
    }
    assert(catch_up_item(g, q) =~= catch_up_item(f, q)) by {
        assert forall|t: ThreadRow| #[trigger] catch_up_item(g, q)(t) == catch_up_item(f, q)(t) by {
            lemma_item_reads(f, g, q, t);
        }
    }
}

/// What the desk shows of a thread depends on what lies inside the snapshot.
proof fn lemma_item_reads(f: Forum, g: Forum, q: CatchUpQuery, t: ThreadRow)
    requires
        same_desk(f, g),
        original_of(g.original_posts, t.id) == original_of(f.original_posts, t.id),
        snapshot_points(g, q.as_of, q.generation) == snapshot_points(f, q.as_of, q.generation),
        ({
            let points = snapshot_points(f, q.as_of, q.generation);
            let within = receipt_within(points, q.viewer_sub, q.as_of, q.generation);
            &&& g.read_receipts.filter(within) == f.read_receipts.filter(within)
            &&& g.posts.filter(post_within(points, t.id)) == f.posts.filter(
                post_within(points, t.id),
            )
            &&& valid_accepted(t, g.original_posts, g.posts) == valid_accepted(
                t,
                f.original_posts,
                f.posts,
            ) || (valid_accepted(t, f.original_posts, f.posts) is None && valid_accepted(
                t,
                g.original_posts,
                g.posts,
            ) is Some && !some_row(
                points,
                point_of(valid_accepted(t, g.original_posts, g.posts)->0.id),
            ))
        }),
    ensures
        catch_up_item(g, q)(t) == catch_up_item(f, q)(t),
{
    let op = original_of(f.original_posts, t.id);
    let category = first_row(f.categories, category_is(t.category_id));
    if category is Some && op is Some {
        let x = catch_up_facts(f, q, t, category->0, op->0);
        let y = catch_up_facts(g, q, t, category->0, op->0);
        assert(x == y);
    }
}

/// A row of the desk without the time of the last reply, which is always the current one.
pub open spec fn timeless() -> spec_fn(CatchUpItemRow) -> CatchUpItemRow {
    |x: CatchUpItemRow|
        CatchUpItemRow { thread: ThreadRow { last_at: 0, ..x.thread }, ..x }
}

/// A post written behind a snapshot changes nothing of what the desk shows of a thread.
proof fn lemma_item_ignores_post(f: Forum, g: Forum, q: CatchUpQuery, post: PostRow, t: ThreadRow)
    requires
        q.generation <= f.generation,
        f.generation < i64::MAX,
        !some_row(f.post_points, point_of(post.id)),
        same_desk(f, g),
        g.read_receipts == f.read_receipts,
        g.posts == f.posts.push(post),
        g.post_points == f.post_points.push(
            (CatchUpPostPointRow {
                post_id: post.id,
                thread_id: post.thread_id,
                activity_at: post.created_at,
                seq: (f.generation + 1) as i64,
            }),
        ),
        original_of(g.original_posts, t.id) == original_of(f.original_posts, t.id),
    ensures
        catch_up_item(g, q)(t) == catch_up_item(f, q)(t),
        snapshot_points(g, q.as_of, q.generation) == snapshot_points(f, q.as_of, q.generation),
{
    let x = CatchUpPostPointRow {
        post_id: post.id,
        thread_id: post.thread_id,
        activity_at: post.created_at,
        seq: (f.generation + 1) as i64,
    };
    lemma_snapshot_points(f.post_points, x, q.as_of, q.generation);
    let points = snapshot_points(f, q.as_of, q.generation);
    lemma_filter_contains(f.post_points, point_within(q.as_of, q.generation));
    assert(!some_row(points, point_of(post.id))) by {
        if some_row(points, point_of(post.id)) {
            let i = choose|i: int| 0 <= i < points.len() && point_of(post.id)(#[trigger] points[i]);
            assert(points.contains(points[i]));
            let k = choose|k: int| 0 <= k < f.post_points.len() && f.post_points[k] == points[i];
            assert(point_of(post.id)(f.post_points[k]));
        }
    }
    lemma_filter_push(f.posts, post, post_within(points, t.id));
    let accepted = trim_text(t.accepted_post_id);
    lemma_first_row_push(f.posts, post, post_is_in(accepted, t.id));
    lemma_item_reads(f, g, q, t);
}

proof fn lemma_collected_map<A, B>(
    s: Seq<A>,
    t: Seq<A>,
    g: spec_fn(A) -> Option<B>,
    h: spec_fn(B) -> B,
)
    requires
        s.len() == t.len(),
        forall|i: int|
            0 <= i < s.len() ==> match (g(#[trigger] s[i]), g(t[i])) {
                (Some(a), Some(b)) => h(a) == h(b),
                (None, None) => true,
                _ => false,
            },
    ensures
        collected(s, g).map_values(h) == collected(t, g).map_values(h),
    decreases s.len(),
{
    if s.len() > 0 {
        let a = s.drop_last();
        let b = t.drop_last();
        assert forall|i: int| 0 <= i < a.len() implies match (g(#[trigger] a[i]), g(b[i])) {
            (Some(x), Some(y)) => h(x) == h(y),
            (None, None) => true,
            _ => false,
        } by {
            assert(s[i] == a[i] && t[i] == b[i]);
        }
        lemma_collected_map(a, b, g, h);
        let n = s.len() - 1;
        assert(s[n] == s.last() && t[n] == t.last());
        assert(collected(s, g).map_values(h) =~= match g(s.last()) {
            Some(x) => collected(a, g).map_values(h).push(h(x)),
            None => collected(a, g).map_values(h),
        });
        assert(collected(t, g).map_values(h) =~= match g(t.last()) {
            Some(x) => collected(b, g).map_values(h).push(h(x)),
            None => collected(b, g).map_values(h),
        });
    } else {
        assert(s =~= t);
    }
}

proof fn lemma_insert_map<A>(s: Seq<A>, x: A, le: spec_fn(A, A) -> bool, h: spec_fn(A) -> A)
    requires
        forall|a: A, b: A| #[trigger] le(h(a), h(b)) == le(a, b),
    ensures
        insert_sorted(s, x, le).map_values(h) == insert_sorted(s.map_values(h), h(x), le),
    decreases s.len(),
{
    let m = s.map_values(h);
    if s.len() > 0 {
        assert(m.last() == h(s.last()));
        assert(m.drop_last() =~= s.drop_last().map_values(h));
        assert(le(h(s.last()), h(x)) == le(s.last(), x));
        if !le(s.last(), x) {
            lemma_insert_map(s.drop_last(), x, le, h);
        }
        assert(insert_sorted(s, x, le).map_values(h) =~= insert_sorted(m, h(x), le));
    } else {
        assert(insert_sorted(s, x, le).map_values(h) =~= insert_sorted(m, h(x), le));
    }
}

/// Sorting commutes with a change of the rows that the order does not see.
pub proof fn lemma_sorted_map<A>(s: Seq<A>, le: spec_fn(A, A) -> bool, h: spec_fn(A) -> A)
    requires
        forall|a: A, b: A| #[trigger] le(h(a), h(b)) == le(a, b),
    ensures
        sorted(s, le).map_values(h) == sorted(s.map_values(h), le),
    decreases s.len(),
{
    let m = s.map_values(h);
    if s.len() > 0 {
        assert(m.last() == h(s.last()));
        assert(m.drop_last() =~= s.drop_last().map_values(h));
        lemma_sorted_map(s.drop_last(), le, h);
        lemma_insert_map(sorted(s.drop_last(), le), s.last(), le, h);
    } else {
        assert(sorted(s, le).map_values(h) =~= sorted(m, le));
    }
}

/// A reply written after a snapshot was taken neither adds a row to its pages, nor removes one, nor
/// changes one, nor reorders them; only the time of the last reply is always the current one.
pub proof fn law_snapshot_ignores_later_replies(
    f: Forum,
    post: PostRow,
    q: CatchUpQuery,
    limit: int,
)
    requires
        q.generation <= f.generation,
        reply_addition(f, post).1 is Ok,
    ensures
        ({
            let g = reply_addition(f, post).0;
            &&& catch_up(g, q, limit) is Ok <==> catch_up(f, q, limit) is Ok
            &&& catch_up(f, q, limit) is Ok ==> catch_up(g, q, limit)->Ok_0.map_values(timeless())
                == catch_up(f, q, limit)->Ok_0.map_values(timeless())
        }),
{
    let g = reply_addition(f, post).0;
    assert(catch_up_item(g, q) =~= catch_up_item(f, q)) by {
        assert forall|t: ThreadRow| #[trigger] catch_up_item(g, q)(t) == catch_up_item(f, q)(t) by {
            lemma_item_ignores_post(f, g, q, post, t);
        }
    }
    let item = catch_up_item(f, q);
    lemma_first_index(f.threads, thread_is(post.thread_id));
    assert forall|i: int| 0 <= i < f.threads.len() implies match (
        item(#[trigger] f.threads[i]),
        item(g.threads[i]),
    ) {
        (Some(a), Some(b)) => timeless()(a) == timeless()(b),
        (None, None) => true,
        _ => false,
    } by {
        lemma_item_bumped(f, q, f.threads[i], post.created_at);
        assert(g.threads[i] == f.threads[i] || g.threads[i] == bumped(post.created_at)(
            f.threads[i],
        ));
    }
    lemma_collected_map(f.threads, g.threads, item, timeless());
    let a = collected(f.threads, item);
    let b = collected(g.threads, item);
    lemma_sorted_map(a, catch_up_order(), timeless());
    lemma_sorted_map(b, catch_up_order(), timeless());
    if limit > 0 {
        assert(limited(sorted(a, catch_up_order()), limit).map_values(timeless()) =~= limited(
            sorted(a, catch_up_order()).map_values(timeless()),
            limit,
        ));
        assert(limited(sorted(b, catch_up_order()), limit).map_values(timeless()) =~= limited(
            sorted(b, catch_up_order()).map_values(timeless()),
            limit,
        ));
    }
}

/// The time of the last reply plays no part in what the desk shows of a thread.
proof fn lemma_item_bumped(f: Forum, q: CatchUpQuery, t: ThreadRow, at: i64)
    ensures
        match (catch_up_item(f, q)(t), catch_up_item(f, q)(bumped(at)(t))) {
            (Some(a), Some(b)) => timeless()(a) == timeless()(b),
            (None, None) => true,
            _ => false,
        },
{
    let u = bumped(at)(t);
    assert(valid_accepted(u, f.original_posts, f.posts) == valid_accepted(
        t,
        f.original_posts,
        f.posts,
    ));
    let op = original_of(f.original_posts, t.id);
    let category = first_row(f.categories, category_is(t.category_id));
    if category is Some && op is Some {
        assert(catch_up_facts(f, q, t, category->0, op->0) == catch_up_facts(
            f,
            q,
            u,
            category->0,
            op->0,
        ));
    }
}

/// A thread opened after a snapshot was taken changes none of its pages.
pub proof fn law_snapshot_ignores_later_threads(
    f: Forum,
    thread: ThreadRow,
    first_post: PostRow,
    q: CatchUpQuery,
    limit: int,
)
    requires
        q.generation <= f.generation,
        thread_creation(f, thread, first_post).1 is Ok,
        !some_row(f.threads, thread_is(thread.id)),
    ensures
        catch_up(thread_creation(f, thread, first_post).0, q, limit) == catch_up(f, q, limit),
{
    let g = thread_creation(f, thread, first_post).0;
    assert forall|i: int| 0 <= i < f.threads.len() implies catch_up_item(g, q)(
        #[trigger] f.threads[i],
    ) == catch_up_item(f, q)(f.threads[i]) by {
        let t = f.threads[i];
        assert(t.id != thread.id) by {
            if t.id == thread.id {
                assert(thread_is(thread.id)(f.threads[i]));
            }
        }
        lemma_original_kept(f.original_posts, thread.id, first_post.id, t.id);
        lemma_item_ignores_post(f, g, q, first_post, t);
    }
    lemma_original_kept(f.original_posts, thread.id, first_post.id, thread.id);
    let points = snapshot_points(g, q.as_of, q.generation);
    assert(catch_up_item(g, q)(thread) is None) by {
        if some_row(points, point_of(first_post.id)) {
            let i = choose|i: int|
                0 <= i < points.len() && point_of(first_post.id)(#[trigger] points[i]);
            lemma_filter_contains(g.post_points, point_within(q.as_of, q.generation));
            assert(points.contains(points[i]));
            let k = choose|k: int| 0 <= k < g.post_points.len() && g.post_points[k] == points[i];
            if k < f.post_points.len() {
                assert(point_of(first_post.id)(f.post_points[k]));
            }
        }
    }
    lemma_collected_same(f.threads, catch_up_item(g, q), catch_up_item(f, q));
    assert(g.threads.drop_last() =~= f.threads);
}

proof fn lemma_collected_same<A, B>(
    s: Seq<A>,
    g: spec_fn(A) -> Option<B>,
    h: spec_fn(A) -> Option<B>,
)
    requires
        forall|i: int| 0 <= i < s.len() ==> g(#[trigger] s[i]) == h(s[i]),
    ensures
        collected(s, g) == collected(s, h),
    decreases s.len(),
{
    if s.len() > 0 {
        let d = s.drop_last();
        assert forall|i: int| 0 <= i < d.len() implies g(#[trigger] d[i]) == h(d[i]) by {
            assert(g(s[i]) == h(s[i]));
        }
        lemma_collected_same(d, g, h);
        let n = s.len() - 1;
        assert(g(s[n]) == h(s[n]));
    }
}

/// Deleting a reply does not move a thread across the pages of a snapshot: the thread keeps the
/// time by which the pages are ordered.
pub proof fn law_snapshot_keeps_its_place(
    f: Forum,
    q: CatchUpQuery,
    t: ThreadRow,
    u: ThreadRow,
    post_id: Seq<char>,
)
    requires
        post_deletion(f, post_id).1 is Ok,
        t.id == u.id,
        t.created_at == u.created_at,
        catch_up_item(f, q)(t) is Some,
        catch_up_item(post_deletion(f, post_id).0, q)(u) is Some,
    ensures
        catch_up_item(f, q)(t)->0.activity_at == catch_up_item(
            post_deletion(f, post_id).0,
            q,
        )(u)->0.activity_at,
{
    assert(post_deletion(f, post_id).0.post_points == f.post_points);
}

/// A cursor continues only the view and the snapshot that it was issued for.
pub proof fn law_cursor_keeps_its_meaning(
    view: CatchUpView,
    as_of: i64,
    generation: i64,
    cursor: CatchUpCursorRow,
    limit: i64,
)
    requires
        catch_up_page_check(view, as_of as int, generation as int, Some(cursor), limit as int) is Ok,
    ensures
        cursor.view == view,
        cursor.as_of == as_of,
        cursor.snapshot_generation == generation,
        0 <= cursor.activity_at <= as_of,
{
}

/// A question is shown as solved only while its category takes questions and its accepted pointer is
/// valid.
pub proof fn law_solved_question_has_an_answer(f: Forum, q: CatchUpQuery, t: ThreadRow)
    requires
        catch_up_item(f, q)(t) is Some,
        catch_up_item(f, q)(t)->0.question_state == Some(CatchUpQuestionState::Solved),
    ensures
        first_row(f.categories, category_is(t.category_id)) is Some,
        first_row(f.categories, category_is(t.category_id))->0.format is Question,
        valid_accepted(t, f.original_posts, f.posts) is Some,
{
}

} // verus!
