//! What the catch-up desk is for: which threads it shows a viewer, why, and with which counts.

use vstd::prelude::*;

use crate::laws::content::law_post_order;
use crate::laws::holding::{lemma_page_holds, lemma_page_source};
use crate::laws::order::{law_key_less, law_sorted, law_sorted_filter, law_sorted_members, orders};
use crate::laws::pages::{lemma_filter_twice, lemma_not_less};
use crate::laws::state::{
    consistent, in_live_category, opened, point_for, point_key, pointed, relation_key,
};
use crate::laws::tables::{lemma_count_bound, lemma_some_filter};
use crate::model::{PostRow, ThreadFollowLevel, ThreadRow};
use crate::rows::{
    collected, first_index, first_row, lemma_filter_contains, lemma_first_index,
    lemma_first_index_unique, limited, some_row, sorted,
};
use crate::store::catch_up::{
    CatchUpQuery, bookmark_within, bookmarked_within, catch_up, catch_up_facts, catch_up_item,
    catch_up_order, latest_activity, point_within, post_within, receipt_post, receipt_within,
    snapshot_points, written_by,
};
use crate::store::follow::{level_of, relation_of};
use crate::store::memory::Forum;
use crate::store::posting::point_of;
use crate::store::rules::{read_post, unread_post};
use crate::store::tables::{category_is, original_is, original_of, post_is_in};
use crate::store::threads::post_order;
use crate::store::types::{CatchUpItemRow, CatchUpPostPointRow, CatchUpQuestionState, CatchUpReason};
use crate::text::trim_text;

verus! {

// ---------------------------------------------------------------------------
// The words in which the desk is described.
// ---------------------------------------------------------------------------

/// Whether a post entered the catch-up record inside the snapshot.
pub open spec fn entered(f: Forum, q: CatchUpQuery, post_id: Seq<char>) -> bool {
    exists|i: int|
        0 <= i < f.post_points.len() && (#[trigger] f.post_points[i]).post_id == post_id
            && f.post_points[i].seq <= q.generation && f.post_points[i].activity_at <= q.as_of
}

/// Whether the viewer had read a post inside the snapshot.
pub open spec fn had_read(f: Forum, q: CatchUpQuery, post_id: Seq<char>) -> bool {
    exists|i: int|
        0 <= i < f.read_receipts.len() && (#[trigger] f.read_receipts[i]).viewer_sub == q.viewer_sub
            && f.read_receipts[i].post_id == post_id && f.read_receipts[i].read_at <= q.as_of
            && f.read_receipts[i].read_seq <= q.generation
}

/// Whether the viewer stands in a relationship to a thread.
pub open spec fn stands(
    f: Forum,
    viewer_sub: Seq<char>,
    thread_id: Seq<char>,
    level: ThreadFollowLevel,
) -> bool {
    exists|i: int|
        0 <= i < f.subscriptions.len() && (#[trigger] f.subscriptions[i]).thread_id == thread_id
            && f.subscriptions[i].subscriber_sub == viewer_sub && f.subscriptions[i].level == level
}

/// The posts of a thread inside the snapshot.
pub open spec fn there(f: Forum, q: CatchUpQuery, thread_id: Seq<char>) -> spec_fn(PostRow) -> bool {
    |p: PostRow| p.thread_id == thread_id && entered(f, q, p.id)
}

/// The posts of a thread inside the snapshot that the viewer had not read.
pub open spec fn unread_there(f: Forum, q: CatchUpQuery, thread_id: Seq<char>) -> spec_fn(
    PostRow,
) -> bool {
    |p: PostRow| p.thread_id == thread_id && entered(f, q, p.id) && !had_read(f, q, p.id)
}

/// Whether a thread has a post of a kind inside the snapshot.
pub open spec fn has_there(
    f: Forum,
    q: CatchUpQuery,
    thread_id: Seq<char>,
    kind: spec_fn(PostRow) -> bool,
) -> bool {
    exists|i: int|
        0 <= i < f.posts.len() && (#[trigger] f.posts[i]).thread_id == thread_id && entered(
            f,
            q,
            f.posts[i].id,
        ) && kind(f.posts[i])
}

/// Whether the viewer opened the thread.
pub open spec fn opened_it(q: CatchUpQuery, t: ThreadRow) -> bool {
    t.author_sub == q.viewer_sub
}

/// Whether the viewer had bookmarked a post of the thread.
pub open spec fn bookmarked_in_it(f: Forum, q: CatchUpQuery, t: ThreadRow) -> bool {
    has_there(
        f,
        q,
        t.id,
        |p: PostRow|
            exists|b: int|
                0 <= b < f.bookmarks.len() && (#[trigger] f.bookmarks[b]).owner_sub == q.viewer_sub
                    && f.bookmarks[b].post_id == p.id && f.bookmarks[b].created_at <= q.as_of,
    )
}

/// Whether the viewer wrote a post of the thread.
pub open spec fn wrote_in_it(f: Forum, q: CatchUpQuery, t: ThreadRow) -> bool {
    has_there(f, q, t.id, |p: PostRow| p.author_sub == q.viewer_sub)
}

/// Whether the viewer had read a post of the thread.
pub open spec fn started_it(f: Forum, q: CatchUpQuery, t: ThreadRow) -> bool {
    has_there(f, q, t.id, |p: PostRow| had_read(f, q, p.id))
}

/// Whether a post of the thread was unread.
pub open spec fn unread_in_it(f: Forum, q: CatchUpQuery, t: ThreadRow) -> bool {
    has_there(f, q, t.id, |p: PostRow| !had_read(f, q, p.id))
}

/// Whether the entry at `i` says with which post a thread was opened: the first that names it.
pub open spec fn opening_entry(f: Forum, thread_id: Seq<char>, i: int) -> bool {
    &&& 0 <= i < f.original_posts.len()
    &&& f.original_posts[i].thread_id == thread_id
    &&& forall|j: int| 0 <= j < i ==> (#[trigger] f.original_posts[j]).thread_id != thread_id
}

/// Whether the snapshot holds a thread: it was opened by then, and its original post, the first
/// recorded for it, entered the record.
pub open spec fn held(f: Forum, q: CatchUpQuery, t: ThreadRow) -> bool {
    &&& t.created_at <= q.as_of
    &&& exists|i: int| #[trigger]
        opening_entry(f, t.id, i) && entered(f, q, f.original_posts[i].post_id)
}

/// Whether a row of the desk is of a thread; the desk may hide which answer was accepted.
pub open spec fn is_of(row: CatchUpItemRow, t: ThreadRow) -> bool {
    row.thread == (ThreadRow { accepted_post_id: row.thread.accepted_post_id, ..t })
}

/// Whether a page has a row of a thread for a reason.
pub open spec fn shows(page: Seq<CatchUpItemRow>, t: ThreadRow, reason: CatchUpReason) -> bool {
    exists|k: int| 0 <= k < page.len() && is_of(#[trigger] page[k], t) && page[k].reason == reason
}

/// The reason for which Updates shows a thread: the strongest of what ties the viewer to it.
pub open spec fn tie(f: Forum, q: CatchUpQuery, t: ThreadRow) -> Option<CatchUpReason> {
    if stands(f, q.viewer_sub, t.id, ThreadFollowLevel::Watch) {
        Some(CatchUpReason::Watch)
    } else if stands(f, q.viewer_sub, t.id, ThreadFollowLevel::Follow) {
        Some(CatchUpReason::Follow)
    } else if opened_it(q, t) {
        Some(CatchUpReason::Authored)
    } else if bookmarked_in_it(f, q, t) {
        Some(CatchUpReason::Bookmarked)
    } else if wrote_in_it(f, q, t) {
        Some(CatchUpReason::Participated)
    } else if started_it(f, q, t) {
        Some(CatchUpReason::ContinueReading)
    } else {
        None
    }
}

// ---------------------------------------------------------------------------
// The words of the store in these words.
// ---------------------------------------------------------------------------

proof fn lemma_entered(f: Forum, q: CatchUpQuery, id: Seq<char>)
    ensures
        some_row(snapshot_points(f, q.as_of, q.generation), point_of(id)) <==> entered(f, q, id),
{
    let keep = point_within(q.as_of, q.generation);
    lemma_some_filter(f.post_points, keep, point_of(id));
    if entered(f, q, id) {
        let i = choose|i: int|
            0 <= i < f.post_points.len() && (#[trigger] f.post_points[i]).post_id == id
                && f.post_points[i].seq <= q.generation && f.post_points[i].activity_at <= q.as_of;
        assert(keep(f.post_points[i]) && point_of(id)(f.post_points[i]));
    }
}

/// The relationship of a viewer to a thread is the one that is stored, or none.
pub proof fn lemma_stands(f: Forum, viewer_sub: Seq<char>, thread_id: Seq<char>)
    requires
        consistent(f),
    ensures
        forall|level: ThreadFollowLevel|
            !(level is Unset) ==> (#[trigger] stands(f, viewer_sub, thread_id, level) <==> level_of(
                f.subscriptions,
                thread_id,
                viewer_sub,
            ) == level),
{
    let s = f.subscriptions;
    let which = relation_of(thread_id, viewer_sub);
    lemma_first_index(s, which);
    assert forall|level: ThreadFollowLevel|
        !(level is Unset) implies (#[trigger] stands(f, viewer_sub, thread_id, level) <==> level_of(
        s,
        thread_id,
        viewer_sub,
    ) == level) by {
        if stands(f, viewer_sub, thread_id, level) {
            let i = choose|i: int|
                0 <= i < s.len() && (#[trigger] s[i]).thread_id == thread_id && s[i].subscriber_sub
                    == viewer_sub && s[i].level == level;
            assert(which(s[i]));
            let k = first_index(s, which)->0;
            if k != i {
                assert(relation_key()(s[k]) != relation_key()(s[i]));
            }
        }
        if level_of(s, thread_id, viewer_sub) == level {
            let k = first_index(s, which)->0;
            assert(which(s[k]));
        }
    }
}

/// The read posts of a snapshot.
spec fn read_list(f: Forum, q: CatchUpQuery) -> Seq<Seq<char>> {
    f.read_receipts.filter(
        receipt_within(
            snapshot_points(f, q.as_of, q.generation),
            q.viewer_sub,
            q.as_of,
            q.generation,
        ),
    ).map_values(receipt_post())
}

proof fn lemma_had_read(f: Forum, q: CatchUpQuery, id: Seq<char>)
    requires
        entered(f, q, id),
    ensures
        read_list(f, q).contains(id) <==> had_read(f, q, id),
{
    let points = snapshot_points(f, q.as_of, q.generation);
    let keep = receipt_within(points, q.viewer_sub, q.as_of, q.generation);
    let kept = f.read_receipts.filter(keep);
    let list = read_list(f, q);
    lemma_filter_contains(f.read_receipts, keep);
    lemma_entered(f, q, id);
    if list.contains(id) {
        let k = choose|k: int| 0 <= k < list.len() && list[k] == id;
        assert(kept.contains(kept[k]));
        let i = choose|i: int| 0 <= i < f.read_receipts.len() && f.read_receipts[i] == kept[k];
        assert(f.read_receipts[i].viewer_sub == q.viewer_sub);
    }
    if had_read(f, q, id) {
        let i = choose|i: int|
            0 <= i < f.read_receipts.len() && (#[trigger] f.read_receipts[i]).viewer_sub
                == q.viewer_sub && f.read_receipts[i].post_id == id && f.read_receipts[i].read_at
                <= q.as_of && f.read_receipts[i].read_seq <= q.generation;
        let r = f.read_receipts[i];
        assert(keep(r));
        assert(f.read_receipts.contains(r));
        assert(kept.contains(r));
        let k = choose|k: int| 0 <= k < kept.len() && kept[k] == r;
        assert(list[k] == id);
    }
}

/// The posts of a thread inside the snapshot, in any order.
proof fn lemma_posts_there(f: Forum, q: CatchUpQuery, thread_id: Seq<char>, op: Seq<char>)
    ensures
        ({
            let points = snapshot_points(f, q.as_of, q.generation);
            let posts = sorted(f.posts.filter(post_within(points, thread_id)), post_order(Some(op)));
            &&& posts.len() == f.posts.filter(there(f, q, thread_id)).len()
            &&& forall|p: PostRow| #[trigger]
                posts.contains(p) <==> f.posts.contains(p) && there(f, q, thread_id)(p)
        }),
{
    let points = snapshot_points(f, q.as_of, q.generation);
    let test = post_within(points, thread_id);
    assert forall|p: PostRow| #[trigger] test(p) == there(f, q, thread_id)(p) by {
        lemma_entered(f, q, p.id);
    }
    assert(test =~= there(f, q, thread_id));
    law_sorted_members(f.posts.filter(test), post_order(Some(op)));
    lemma_filter_contains(f.posts, test);
}

/// A test of the posts of a thread, in the words of the store and in those of the desk.
proof fn lemma_some_there(
    f: Forum,
    q: CatchUpQuery,
    thread_id: Seq<char>,
    op: Seq<char>,
    store: spec_fn(PostRow) -> bool,
    kind: spec_fn(PostRow) -> bool,
)
    requires
        forall|p: PostRow| #[trigger] there(f, q, thread_id)(p) ==> store(p) == kind(p),
    ensures
        ({
            let points = snapshot_points(f, q.as_of, q.generation);
            let posts = sorted(f.posts.filter(post_within(points, thread_id)), post_order(Some(op)));
            some_row(posts, store) <==> has_there(f, q, thread_id, kind)
        }),
{
    let points = snapshot_points(f, q.as_of, q.generation);
    let posts = sorted(f.posts.filter(post_within(points, thread_id)), post_order(Some(op)));
    lemma_posts_there(f, q, thread_id, op);
    if some_row(posts, store) {
        let k = choose|k: int| 0 <= k < posts.len() && store(#[trigger] posts[k]);
        assert(posts.contains(posts[k]));
        assert(there(f, q, thread_id)(posts[k]));
        let i = choose|i: int| 0 <= i < f.posts.len() && f.posts[i] == posts[k];
        assert(f.posts[i].thread_id == thread_id && kind(f.posts[i]));
    }
    if has_there(f, q, thread_id, kind) {
        let i = choose|i: int|
            0 <= i < f.posts.len() && (#[trigger] f.posts[i]).thread_id == thread_id && entered(
                f,
                q,
                f.posts[i].id,
            ) && kind(f.posts[i]);
        assert(there(f, q, thread_id)(f.posts[i]));
        assert(f.posts.contains(f.posts[i]));
        assert(posts.contains(f.posts[i]));
        let k = choose|k: int| 0 <= k < posts.len() && posts[k] == f.posts[i];
        assert(store(posts[k]));
    }
}

/// The original post of a thread is the one that its entry names.
pub proof fn lemma_opening_entry(f: Forum, thread_id: Seq<char>)
    ensures
        match original_of(f.original_posts, thread_id) {
            Some(op) => exists|i: int| #[trigger]
                opening_entry(f, thread_id, i) && f.original_posts[i].post_id == op,
            None => !exists|i: int| #[trigger] opening_entry(f, thread_id, i),
        },
        forall|i: int| #[trigger]
            opening_entry(f, thread_id, i) ==> original_of(f.original_posts, thread_id) == Some(
                f.original_posts[i].post_id,
            ),
{
    let s = f.original_posts;
    let which = original_is(thread_id);
    lemma_first_index(s, which);
    assert forall|i: int| #[trigger] opening_entry(f, thread_id, i) implies original_of(
        s,
        thread_id,
    ) == Some(s[i].post_id) by {
        assert(which(s[i]));
        assert forall|j: int| 0 <= j < i implies !which(#[trigger] s[j]) by {}
        lemma_first_index_unique(s, which, i);
    }
    if let Some(k) = first_index(s, which) {
        assert forall|j: int| 0 <= j < k implies (#[trigger] s[j]).thread_id != thread_id by {
            assert(!which(s[j]));
        }
        assert(opening_entry(f, thread_id, k));
    }
}

/// What decides whether the desk shows a thread, in the words of the desk.
proof fn lemma_facts(f: Forum, q: CatchUpQuery, n: int)
    requires
        consistent(f),
        0 <= n < f.threads.len(),
    ensures
        ({
            let t = f.threads[n];
            let op = original_of(f.original_posts, t.id);
            let x = catch_up_facts(f, q, t, first_row(f.categories, category_is(t.category_id))->0, op->0);
            &&& first_row(f.categories, category_is(t.category_id)) is Some
            &&& op is Some
            &&& held(f, q, t) <==> t.created_at <= q.as_of && some_row(
                snapshot_points(f, q.as_of, q.generation),
                point_of(op->0),
            )
            &&& held(f, q, t) ==> x.posts.len() > 0
            &&& x.posts.len() == f.posts.filter(there(f, q, t.id)).len()
            &&& x.reading.started <==> started_it(f, q, t)
            &&& x.reading.unread_count > 0 <==> unread_in_it(f, q, t)
            &&& some_row(x.posts, bookmarked_within(f.bookmarks, q.viewer_sub, q.as_of))
                <==> bookmarked_in_it(f, q, t)
            &&& some_row(x.posts, written_by(q.viewer_sub)) <==> wrote_in_it(f, q, t)
        }),
{
    let t = f.threads[n];
    assert(in_live_category(f.categories)(f.threads[n]));
    assert(opened(f.original_posts, f.posts)(f.threads[n]));
    lemma_first_index(f.categories, category_is(t.category_id));
    lemma_opening_entry(f, t.id);
    let op = original_of(f.original_posts, t.id)->0;
    let points = snapshot_points(f, q.as_of, q.generation);
    let x = catch_up_facts(f, q, t, first_row(f.categories, category_is(t.category_id))->0, op);
    lemma_entered(f, q, op);
    lemma_posts_there(f, q, t.id, op);
    if held(f, q, t) {
        let i = choose|i: int|
            0 <= i < f.posts.len() && post_is_in(op, t.id)(#[trigger] f.posts[i]);
        assert(there(f, q, t.id)(f.posts[i]));
        assert(f.posts.contains(f.posts[i]));
        assert(x.posts.contains(f.posts[i]));
    }
    let read = read_list(f, q);
    assert forall|p: PostRow| #[trigger] there(f, q, t.id)(p) implies read.contains(p.id)
        == had_read(f, q, p.id) by {
        lemma_had_read(f, q, p.id);
    }
    lemma_some_there(f, q, t.id, op, read_post(read), |p: PostRow| had_read(f, q, p.id));
    lemma_some_there(f, q, t.id, op, unread_post(read), |p: PostRow| !had_read(f, q, p.id));
    lemma_count_bound(x.posts, unread_post(read));
    let marked = bookmarked_within(f.bookmarks, q.viewer_sub, q.as_of);
    let kind = |p: PostRow|
        exists|b: int|
            0 <= b < f.bookmarks.len() && (#[trigger] f.bookmarks[b]).owner_sub == q.viewer_sub
                && f.bookmarks[b].post_id == p.id && f.bookmarks[b].created_at <= q.as_of;
    assert forall|p: PostRow| #[trigger] there(f, q, t.id)(p) implies marked(p) == kind(p) by {
        let which = bookmark_within(q.viewer_sub, p.id, q.as_of);
        if marked(p) {
            let b = choose|b: int| 0 <= b < f.bookmarks.len() && which(#[trigger] f.bookmarks[b]);
            assert(f.bookmarks[b].owner_sub == q.viewer_sub);
        }
        if kind(p) {
            let b = choose|b: int|
                0 <= b < f.bookmarks.len() && (#[trigger] f.bookmarks[b]).owner_sub == q.viewer_sub
                    && f.bookmarks[b].post_id == p.id && f.bookmarks[b].created_at <= q.as_of;
            assert(which(f.bookmarks[b]));
        }
    }
    lemma_some_there(f, q, t.id, op, marked, kind);
    lemma_some_there(
        f,
        q,
        t.id,
        op,
        written_by(q.viewer_sub),
        |p: PostRow| p.author_sub == q.viewer_sub,
    );
}

// ---------------------------------------------------------------------------
// Which threads the desk shows.
// ---------------------------------------------------------------------------

/// A request without a cursor for a snapshot that is not in the future.
pub open spec fn fresh(f: Forum, q: CatchUpQuery, limit: int) -> bool {
    &&& q.before is None
    &&& 0 <= q.as_of
    &&& 0 <= q.generation <= f.generation
    &&& 0 < limit <= 31
}

/// The Following view shows the threads that the viewer watches or follows, for that reason, and no
/// others. A page that is not full leaves none of them out.
pub proof fn law_following_shows_what_is_followed(f: Forum, q: CatchUpQuery, limit: int)
    requires
        consistent(f),
        fresh(f, q, limit),
        q.view is Following,
    ensures
        catch_up(f, q, limit) is Ok,
        ({
            let page = catch_up(f, q, limit)->Ok_0;
            &&& forall|n: int|
                0 <= n < f.threads.len() && page.len() < limit && held(f, q, #[trigger] f.threads[n])
                    ==> {
                    &&& stands(f, q.viewer_sub, f.threads[n].id, ThreadFollowLevel::Watch) ==> shows(
                        page,
                        f.threads[n],
                        CatchUpReason::Watch,
                    )
                    &&& stands(f, q.viewer_sub, f.threads[n].id, ThreadFollowLevel::Follow)
                        ==> shows(page, f.threads[n], CatchUpReason::Follow)
                }
            &&& forall|k: int|
                0 <= k < page.len() ==> {
                    let row = #[trigger] page[k];
                    &&& row.reason is Watch || row.reason is Follow
                    &&& row.reason is Watch ==> row.follow_level is Watch && stands(
                        f,
                        q.viewer_sub,
                        row.thread.id,
                        ThreadFollowLevel::Watch,
                    )
                    &&& row.reason is Follow ==> row.follow_level is Follow && stands(
                        f,
                        q.viewer_sub,
                        row.thread.id,
                        ThreadFollowLevel::Follow,
                    )
                }
        }),
{
    let page = catch_up(f, q, limit)->Ok_0;
    let item = catch_up_item(f, q);
    assert forall|n: int|
        0 <= n < f.threads.len() && page.len() < limit && held(
            f,
            q,
            #[trigger] f.threads[n],
        ) implies {
        &&& stands(f, q.viewer_sub, f.threads[n].id, ThreadFollowLevel::Watch) ==> shows(
            page,
            f.threads[n],
            CatchUpReason::Watch,
        )
        &&& stands(f, q.viewer_sub, f.threads[n].id, ThreadFollowLevel::Follow) ==> shows(
            page,
            f.threads[n],
            CatchUpReason::Follow,
        )
    } by {
        let t = f.threads[n];
        lemma_facts(f, q, n);
        lemma_stands(f, q.viewer_sub, t.id);
        if stands(f, q.viewer_sub, t.id, ThreadFollowLevel::Watch) || stands(
            f,
            q.viewer_sub,
            t.id,
            ThreadFollowLevel::Follow,
        ) {
            let k = lemma_page_holds(f.threads, item, catch_up_order(), limit, n);
            assert(is_of(page[k], t));
        }
    }
    assert forall|k: int| 0 <= k < page.len() implies {
        let row = #[trigger] page[k];
        &&& row.reason is Watch || row.reason is Follow
        &&& row.reason is Watch ==> row.follow_level is Watch && stands(
            f,
            q.viewer_sub,
            row.thread.id,
            ThreadFollowLevel::Watch,
        )
        &&& row.reason is Follow ==> row.follow_level is Follow && stands(
            f,
            q.viewer_sub,
            row.thread.id,
            ThreadFollowLevel::Follow,
        )
    } by {
        let n = lemma_page_source(f.threads, item, catch_up_order(), limit, k);
        lemma_stands(f, q.viewer_sub, f.threads[n].id);
    }
}

/// The Updates view shows the threads with an unread post that the viewer has a tie to, for the
/// strongest tie, and no others. A muted thread is not shown, whatever the tie.
pub proof fn law_updates_show_what_is_unread(f: Forum, q: CatchUpQuery, limit: int)
    requires
        consistent(f),
        fresh(f, q, limit),
        q.view is Updates,
    ensures
        catch_up(f, q, limit) is Ok,
        ({
            let page = catch_up(f, q, limit)->Ok_0;
            &&& forall|n: int|
                0 <= n < f.threads.len() && page.len() < limit && held(f, q, #[trigger] f.threads[n])
                    && unread_in_it(f, q, f.threads[n]) && tie(f, q, f.threads[n]) is Some && !stands(
                    f,
                    q.viewer_sub,
                    f.threads[n].id,
                    ThreadFollowLevel::Mute,
                ) ==> shows(page, f.threads[n], tie(f, q, f.threads[n])->0)
            &&& forall|k: int|
                0 <= k < page.len() ==> exists|n: int|
                    0 <= n < f.threads.len() && is_of(page[k], #[trigger] f.threads[n]) && held(
                        f,
                        q,
                        f.threads[n],
                    ) && unread_in_it(f, q, f.threads[n]) && tie(f, q, f.threads[n]) == Some(
                        (#[trigger] page[k]).reason,
                    ) && !stands(f, q.viewer_sub, f.threads[n].id, ThreadFollowLevel::Mute)
        }),
{
    let page = catch_up(f, q, limit)->Ok_0;
    let item = catch_up_item(f, q);
    assert forall|n: int|
        0 <= n < f.threads.len() && page.len() < limit && held(f, q, #[trigger] f.threads[n])
            && unread_in_it(f, q, f.threads[n]) && tie(f, q, f.threads[n]) is Some && !stands(
            f,
            q.viewer_sub,
            f.threads[n].id,
            ThreadFollowLevel::Mute,
        ) implies shows(page, f.threads[n], tie(f, q, f.threads[n])->0) by {
        lemma_facts(f, q, n);
        lemma_stands(f, q.viewer_sub, f.threads[n].id);
        let k = lemma_page_holds(f.threads, item, catch_up_order(), limit, n);
        assert(is_of(page[k], f.threads[n]));
    }
    assert forall|k: int| 0 <= k < page.len() implies exists|n: int|
        0 <= n < f.threads.len() && is_of(page[k], #[trigger] f.threads[n]) && held(
            f,
            q,
            f.threads[n],
        ) && unread_in_it(f, q, f.threads[n]) && tie(f, q, f.threads[n]) == Some(
            (#[trigger] page[k]).reason,
        ) && !stands(f, q.viewer_sub, f.threads[n].id, ThreadFollowLevel::Mute) by {
        let n = lemma_page_source(f.threads, item, catch_up_order(), limit, k);
        lemma_facts(f, q, n);
        lemma_stands(f, q.viewer_sub, f.threads[n].id);
        assert(is_of(page[k], f.threads[n]));
    }
}

/// The Questions view shows the viewer's own threads in question categories, and no others.
pub proof fn law_questions_show_own_questions(f: Forum, q: CatchUpQuery, limit: int)
    requires
        consistent(f),
        fresh(f, q, limit),
        q.view is Questions,
    ensures
        catch_up(f, q, limit) is Ok,
        ({
            let page = catch_up(f, q, limit)->Ok_0;
            &&& forall|n: int, c: int|
                0 <= n < f.threads.len() && page.len() < limit && held(f, q, #[trigger] f.threads[n])
                    && opened_it(q, f.threads[n]) && #[trigger] category_entry(
                    f,
                    f.threads[n].category_id,
                    c,
                ) && f.categories[c].format is Question && !stands(
                    f,
                    q.viewer_sub,
                    f.threads[n].id,
                    ThreadFollowLevel::Mute,
                ) ==> shows(page, f.threads[n], CatchUpReason::Authored)
            &&& forall|k: int|
                0 <= k < page.len() ==> (#[trigger] page[k]).reason is Authored
                    && page[k].question_state is Some && page[k].thread.author_sub == q.viewer_sub
        }),
{
    let page = catch_up(f, q, limit)->Ok_0;
    let item = catch_up_item(f, q);
    assert forall|n: int, c: int|
        0 <= n < f.threads.len() && page.len() < limit && held(f, q, #[trigger] f.threads[n])
            && opened_it(q, f.threads[n]) && #[trigger] category_entry(
            f,
            f.threads[n].category_id,
            c,
        ) && f.categories[c].format is Question && !stands(
            f,
            q.viewer_sub,
            f.threads[n].id,
            ThreadFollowLevel::Mute,
        ) implies shows(page, f.threads[n], CatchUpReason::Authored) by {
        lemma_facts(f, q, n);
        lemma_stands(f, q.viewer_sub, f.threads[n].id);
        lemma_category_entry(f, f.threads[n].category_id, c);
        let k = lemma_page_holds(f.threads, item, catch_up_order(), limit, n);
        assert(is_of(page[k], f.threads[n]));
    }
    assert forall|k: int| 0 <= k < page.len() implies (#[trigger] page[k]).reason is Authored
        && page[k].question_state is Some && page[k].thread.author_sub == q.viewer_sub by {
        let n = lemma_page_source(f.threads, item, catch_up_order(), limit, k);
    }
}

/// Whether the entry at `c` is that of a category: the first with the identifier.
pub open spec fn category_entry(f: Forum, id: Seq<char>, c: int) -> bool {
    &&& 0 <= c < f.categories.len()
    &&& f.categories[c].id == id
    &&& forall|j: int| 0 <= j < c ==> (#[trigger] f.categories[j]).id != id
}

/// The category of a thread is the one that its entry names.
pub proof fn lemma_category_entry(f: Forum, id: Seq<char>, c: int)
    requires
        category_entry(f, id, c),
    ensures
        first_row(f.categories, category_is(id)) == Some(f.categories[c]),
{
    let which = category_is(id);
    assert(which(f.categories[c]));
    assert forall|j: int| 0 <= j < c implies !which(#[trigger] f.categories[j]) by {}
    lemma_first_index_unique(f.categories, which, c);
}

/// Whether a thread names one of its posts inside the snapshot, other than the original one, as its
/// accepted answer.
pub open spec fn has_answer(f: Forum, q: CatchUpQuery, t: ThreadRow) -> bool {
    &&& trim_text(t.accepted_post_id).len() > 0
    &&& entered(f, q, trim_text(t.accepted_post_id))
    &&& exists|p: int|
        0 <= p < f.posts.len() && (#[trigger] f.posts[p]).thread_id == t.id && f.posts[p].id
            == trim_text(t.accepted_post_id)
    &&& forall|i: int| #[trigger]
        opening_entry(f, t.id, i) ==> f.original_posts[i].post_id != trim_text(t.accepted_post_id)
}

/// What a row of the desk says of its thread: how many posts of the snapshot are unread and how
/// many replies there are, the category's name, the viewer's relationship, when the thread was last
/// active, and whether a question has an answer by then.
pub proof fn law_desk_row_says(f: Forum, q: CatchUpQuery, limit: int, k: int) -> (n: int)
    requires
        consistent(f),
        f.posts.len() <= i64::MAX,
        catch_up(f, q, limit) is Ok,
        0 <= k < catch_up(f, q, limit)->Ok_0.len(),
    ensures
        ({
            let row = catch_up(f, q, limit)->Ok_0[k];
            let id = row.thread.id;
            &&& row.unread_count == f.posts.filter(unread_there(f, q, id)).len()
            &&& row.reply_count == f.posts.filter(there(f, q, id)).len() - 1
            &&& row.first_unread is Some <==> row.unread_count > 0
            &&& row.first_unread is Some ==> f.posts.contains(row.first_unread->0) && unread_there(
                f,
                q,
                id,
            )(row.first_unread->0)
            &&& row.first_unread is Some ==> forall|p: PostRow, i: int|
                f.posts.contains(p) && #[trigger] unread_there(f, q, id)(p)
                    && #[trigger] opening_entry(f, id, i) ==> {
                    let op = f.original_posts[i].post_id;
                    &&& p.id == op ==> row.first_unread->0.id == op
                    &&& row.first_unread->0.id == op || row.first_unread->0.created_at
                        <= p.created_at
                }
            &&& row.follow_level is Unset || stands(f, q.viewer_sub, id, row.follow_level)
            &&& row.follow_level is Unset ==> forall|level: ThreadFollowLevel|
                !(level is Unset) ==> !#[trigger] stands(f, q.viewer_sub, id, level)
            &&& exists|c: int| #[trigger]
                category_entry(f, row.thread.category_id, c) && row.category_name
                    == f.categories[c].name && (row.question_state is Some
                    <==> f.categories[c].format is Question)
            &&& forall|i: int|
                0 <= i < f.post_points.len() && (#[trigger] f.post_points[i]).thread_id == id
                    && f.post_points[i].seq <= q.generation && f.post_points[i].activity_at
                    <= q.as_of ==> f.post_points[i].activity_at <= row.activity_at
            &&& exists|i: int|
                0 <= i < f.post_points.len() && (#[trigger] f.post_points[i]).thread_id == id
                    && f.post_points[i].seq <= q.generation && f.post_points[i].activity_at
                    == row.activity_at
            &&& 0 <= n < f.threads.len()
            &&& is_of(row, f.threads[n])
            &&& row.question_state == Some(CatchUpQuestionState::Solved) <==> row.question_state
                is Some && has_answer(f, q, f.threads[n])
            &&& row.thread.accepted_post_id == if row.question_state == Some(
                CatchUpQuestionState::Solved,
            ) {
                f.threads[n].accepted_post_id
            } else {
                Seq::empty()
            }
        }),
{
    let item = catch_up_item(f, q);
    let page = catch_up(f, q, limit)->Ok_0;
    let n = lemma_page_source(f.threads, item, catch_up_order(), limit, k);
    let t = f.threads[n];
    let row = page[k];
    lemma_facts(f, q, n);
    lemma_stands(f, q.viewer_sub, t.id);
    let op = original_of(f.original_posts, t.id)->0;
    let points = snapshot_points(f, q.as_of, q.generation);
    let category = first_row(f.categories, category_is(t.category_id))->0;
    let x = catch_up_facts(f, q, t, category, op);
    let read = read_list(f, q);
    let base = f.posts.filter(post_within(points, t.id));
    let unread = unread_post(read);
    lemma_first_index(f.categories, category_is(t.category_id));
    let c = first_index(f.categories, category_is(t.category_id))->0;
    assert forall|j: int| 0 <= j < c implies (#[trigger] f.categories[j]).id != t.category_id by {
        assert(!category_is(t.category_id)(f.categories[j]));
    }
    assert(category_entry(f, t.category_id, c));
    law_post_order(Some(op));
    law_sorted_filter(base, post_order(Some(op)), unread);
    law_sorted_members(base.filter(unread), post_order(Some(op)));
    assert forall|p: PostRow| #[trigger] unread_there(f, q, t.id)(p) == (post_within(points, t.id)(p)
        && unread(p)) by {
        lemma_entered(f, q, p.id);
        if entered(f, q, p.id) {
            lemma_had_read(f, q, p.id);
        }
    }
    lemma_filter_twice(f.posts, post_within(points, t.id), unread, unread_there(f, q, t.id));
    f.posts.lemma_filter_len(unread_there(f, q, t.id));
    f.posts.lemma_filter_len(there(f, q, t.id));
    lemma_posts_there(f, q, t.id, op);
    lemma_first_index(x.posts, unread);
    lemma_count_bound(x.posts, unread);
    if let Some(i) = first_index(x.posts, unread) {
        assert(x.posts.contains(x.posts[i]));
        lemma_had_read(f, q, x.posts[i].id);
    }
    assert forall|i: int|
        0 <= i < f.post_points.len() && (#[trigger] f.post_points[i]).thread_id == t.id
            && f.post_points[i].seq <= q.generation && f.post_points[i].activity_at
            <= q.as_of implies f.post_points[i].activity_at <= row.activity_at by {
        let keep = point_within(q.as_of, q.generation);
        lemma_filter_contains(f.post_points, keep);
        assert(keep(f.post_points[i]));
        assert(f.post_points.contains(f.post_points[i]));
        assert(points.contains(f.post_points[i]));
        lemma_latest_covers(points, t.id, f.post_points[i]);
    }
    assert(category_entry(f, row.thread.category_id, c));
    assert(f.categories[c] == category);
    lemma_opening_entry(f, t.id);
    law_sorted(base, post_order(Some(op)));
    if let Some(first) = first_index(x.posts, unread) {
        assert forall|p: PostRow|
            f.posts.contains(p) && #[trigger] unread_there(f, q, t.id)(p) implies (p.id == op
            ==> x.posts[first].id == op) && (x.posts[first].id == op || x.posts[first].created_at
            <= p.created_at) by {
            lemma_entered(f, q, p.id);
            lemma_had_read(f, q, p.id);
            assert(x.posts.contains(p));
            let z = choose|z: int| 0 <= z < x.posts.len() && x.posts[z] == p;
            assert(unread(x.posts[z]));
            if z != first {
                assert(post_order(Some(op))(x.posts[first], x.posts[z]));
                law_key_less(
                    p.created_at as int,
                    p.id,
                    x.posts[first].created_at as int,
                    x.posts[first].id,
                    0,
                    p.id,
                );
            }
        }
    }
    let accepted = trim_text(t.accepted_post_id);
    let which = post_is_in(accepted, t.id);
    lemma_first_index(f.posts, which);
    lemma_opening_entry(f, t.id);
    lemma_entered(f, q, accepted);
    if has_answer(f, q, t) {
        let p = choose|p: int|
            0 <= p < f.posts.len() && (#[trigger] f.posts[p]).thread_id == t.id && f.posts[p].id
                == accepted;
        assert(which(f.posts[p]));
    }
    if x.solved {
        let p = first_index(f.posts, which)->0;
        assert(f.posts[p].thread_id == t.id);
    }
    lemma_point_of_original(f, q, n);
    let keep = point_within(q.as_of, q.generation);
    lemma_filter_contains(f.post_points, keep);
    lemma_latest_reached(points, t.id);
    let z = choose|z: int|
        0 <= z < points.len() && (#[trigger] points[z]).thread_id == t.id && points[z].activity_at
            == latest_activity(points, t.id)->0;
    assert(points.contains(points[z]));
    let i = choose|i: int| 0 <= i < f.post_points.len() && f.post_points[i] == points[z];
    assert(f.post_points[i].thread_id == t.id);
    n
}

/// The desk shows the threads that were active last first, and a shorter page is the front of a
/// longer one.
pub proof fn law_desk_shows_the_latest_first(f: Forum, q: CatchUpQuery, limit: int, longer: int)
    requires
        catch_up(f, q, longer) is Ok,
        0 < limit <= longer,
    ensures
        catch_up(f, q, limit) is Ok,
        ({
            let page = catch_up(f, q, limit)->Ok_0;
            let more = catch_up(f, q, longer)->Ok_0;
            &&& forall|i: int, j: int|
                0 <= i < j < more.len() ==> (#[trigger] more[i]).activity_at >= (
                #[trigger] more[j]).activity_at
            &&& more.len() <= longer
            &&& page == if more.len() < limit {
                more
            } else {
                more.take(limit)
            }
        }),
{
    let all = collected(f.threads, catch_up_item(f, q));
    let le = catch_up_order();
    let more = catch_up(f, q, longer)->Ok_0;
    let t = sorted(all, le);
    law_desk_order();
    law_sorted(all, le);
    assert forall|i: int, j: int| 0 <= i < j < more.len() implies (#[trigger] more[i]).activity_at
        >= (#[trigger] more[j]).activity_at by {
        assert(le(t[i], t[j]));
        law_key_less(
            more[i].activity_at as int,
            more[i].thread.id,
            more[j].activity_at as int,
            more[j].thread.id,
            0,
            more[i].thread.id,
        );
    }
    assert(limited(t, limit) =~= if more.len() < limit {
        more
    } else {
        more.take(limit)
    });
}

/// The order of the desk is an order.
pub proof fn law_desk_order()
    ensures
        orders(catch_up_order()),
{
    let le = catch_up_order();
    assert forall|a: CatchUpItemRow, b: CatchUpItemRow| #[trigger] le(a, b) || le(b, a) by {
        law_key_less(
            a.activity_at as int,
            a.thread.id,
            b.activity_at as int,
            b.thread.id,
            0,
            a.thread.id,
        );
    }
    assert forall|a: CatchUpItemRow, b: CatchUpItemRow, d: CatchUpItemRow| #[trigger]
        le(a, b) && #[trigger] le(b, d) implies le(a, d) by {
        lemma_not_less(
            d.activity_at as int,
            d.thread.id,
            b.activity_at as int,
            b.thread.id,
            a.activity_at as int,
            a.thread.id,
        );
    }
}

/// The point of a held thread's original post is one of its points inside the snapshot.
proof fn lemma_point_of_original(f: Forum, q: CatchUpQuery, n: int)
    requires
        consistent(f),
        0 <= n < f.threads.len(),
        held(f, q, f.threads[n]),
    ensures
        latest_activity(snapshot_points(f, q.as_of, q.generation), f.threads[n].id) is Some,
{
    let t = f.threads[n];
    let points = snapshot_points(f, q.as_of, q.generation);
    let keep = point_within(q.as_of, q.generation);
    lemma_opening_entry(f, t.id);
    assert(opened(f.original_posts, f.posts)(f.threads[n]));
    let op = original_of(f.original_posts, t.id)->0;
    let p = choose|p: int| 0 <= p < f.posts.len() && post_is_in(op, t.id)(#[trigger] f.posts[p]);
    assert(pointed(f.post_points)(f.posts[p]));
    let a = choose|a: int|
        0 <= a < f.post_points.len() && point_for(f.posts[p])(#[trigger] f.post_points[a]);
    let b = choose|b: int|
        0 <= b < f.post_points.len() && (#[trigger] f.post_points[b]).post_id == op
            && f.post_points[b].seq <= q.generation && f.post_points[b].activity_at <= q.as_of;
    if a != b {
        assert(point_key()(f.post_points[a]) != point_key()(f.post_points[b]));
    }
    lemma_filter_contains(f.post_points, keep);
    assert(keep(f.post_points[b]));
    assert(f.post_points.contains(f.post_points[b]));
    assert(points.contains(f.post_points[b]));
    lemma_latest_covers(points, t.id, f.post_points[b]);
}

/// The latest activity is that of a point.
proof fn lemma_latest_reached(points: Seq<CatchUpPostPointRow>, thread_id: Seq<char>)
    requires
        latest_activity(points, thread_id) is Some,
    ensures
        exists|z: int|
            0 <= z < points.len() && (#[trigger] points[z]).thread_id == thread_id
                && points[z].activity_at == latest_activity(points, thread_id)->0,
    decreases points.len(),
{
    let d = points.drop_last();
    let p = points.last();
    if p.thread_id == thread_id && latest_activity(points, thread_id) == Some(p.activity_at) {
        assert(points[points.len() - 1].thread_id == thread_id);
    } else {
        lemma_latest_reached(d, thread_id);
        let z = choose|z: int|
            0 <= z < d.len() && (#[trigger] d[z]).thread_id == thread_id && d[z].activity_at
                == latest_activity(d, thread_id)->0;
        assert(points[z].thread_id == thread_id);
    }
}

/// The latest activity is no earlier than any point of the thread.
proof fn lemma_latest_covers(
    points: Seq<CatchUpPostPointRow>,
    thread_id: Seq<char>,
    p: CatchUpPostPointRow,
)
    requires
        points.contains(p),
        p.thread_id == thread_id,
    ensures
        latest_activity(points, thread_id) is Some,
        p.activity_at <= latest_activity(points, thread_id)->0,
    decreases points.len(),
{
    let d = points.drop_last();
    let i = choose|i: int| 0 <= i < points.len() && points[i] == p;
    if i < d.len() {
        assert(d[i] == p);
        lemma_latest_covers(d, thread_id, p);
    }
}

} // verus!
