//! What thread lists and searches are for: which threads they find, and in which order.

use vstd::prelude::*;

use crate::laws::desk::{lemma_opening_entry, opening_entry, stands};
use crate::laws::holding::{lemma_page_holds, lemma_page_source};
use crate::laws::lists::law_thread_orders;
use crate::laws::order::{
    law_sorted, law_sorted_members, law_text_less_total, lemma_sorted_distinct_by,
};
use crate::laws::pages::distinct_threads;
use crate::laws::state::{consistent, opened, post_key};
use crate::laws::tables::{distinct_by, lemma_distinct_filter};
use crate::model::{PostRow, ThreadFollowLevel, ThreadRow, ThreadSearchHitRow};
use crate::rows::{
    collected, first_index, last_row, lemma_filter_contains, lemma_first_index,
    lemma_first_index_unique, some_row, sorted,
};
use crate::store::memory::Forum;
use crate::store::posting::{bumped, reply_addition};
use crate::store::tables::{
    category_is, format_of, original_of, post_in, post_is, post_is_in, public_row, thread_is,
    valid_accepted,
};
use crate::store::threads::{
    Heat, RankedThreadRow, feeds, heat_for, heat_of, hit_order, in_scope, list_admits,
    opening_body, opening_post, rank_order, ranked_in, replies_in, search_hit, search_hits,
    solution_body, solved_in, thread_list,
};
use crate::store::types::{ThreadSort, ThreadStatusFilter};
use crate::text::{contains_text, lowercase_text, occurs_at, text_less, trim_text};

verus! {

// ---------------------------------------------------------------------------
// The words in which lists are described.
// ---------------------------------------------------------------------------

/// Whether a thread stands in a question category: of several entries with its identifier the last
/// counts.
pub open spec fn asks(f: Forum, t: ThreadRow) -> bool {
    exists|c: int|
        0 <= c < f.categories.len() && (#[trigger] f.categories[c]).id == t.category_id
            && f.categories[c].format is Question && forall|j: int|
            c < j < f.categories.len() ==> (#[trigger] f.categories[j]).id != t.category_id
}

/// Whether a thread names a post of its own, other than the original one, as its answer.
pub open spec fn names_an_answer(f: Forum, t: ThreadRow) -> bool {
    &&& trim_text(t.accepted_post_id).len() > 0
    &&& exists|p: int|
        0 <= p < f.posts.len() && (#[trigger] f.posts[p]).thread_id == t.id && f.posts[p].id
            == trim_text(t.accepted_post_id)
    &&& forall|i: int| #[trigger]
        opening_entry(f, t.id, i) ==> f.original_posts[i].post_id != trim_text(t.accepted_post_id)
}

/// Whether a thread is wanted: by its category and by its question state.
pub open spec fn wanted(
    f: Forum,
    category_id: Option<Seq<char>>,
    status: ThreadStatusFilter,
    t: ThreadRow,
) -> bool {
    &&& category_id is None || category_id == Some(t.category_id)
    &&& status is Questions ==> asks(f, t)
    &&& status is Answered ==> asks(f, t) && names_an_answer(f, t)
    &&& status is Unanswered ==> asks(f, t) && !names_an_answer(f, t)
}

/// Whether a viewer's feeds carry a thread.
pub open spec fn fed(f: Forum, viewer_sub: Seq<char>, thread_id: Seq<char>) -> bool {
    stands(f, viewer_sub, thread_id, ThreadFollowLevel::Watch) || stands(
        f,
        viewer_sub,
        thread_id,
        ThreadFollowLevel::Follow,
    )
}

/// A thread as everybody sees it: the answer shows on an answered question only.
pub open spec fn seen_as(f: Forum, t: ThreadRow) -> ThreadRow {
    if asks(f, t) && names_an_answer(f, t) {
        t
    } else {
        ThreadRow { accepted_post_id: Seq::empty(), ..t }
    }
}

/// How many posts a thread has.
pub open spec fn posts_of(f: Forum, thread_id: Seq<char>) -> nat {
    f.posts.filter(|p: PostRow| p.thread_id == thread_id).len()
}

/// How many replies a thread has: its posts but for the original one.
pub open spec fn replies_of(f: Forum, thread_id: Seq<char>) -> int {
    if posts_of(f, thread_id) == 0 {
        0
    } else {
        posts_of(f, thread_id) - 1
    }
}

// ---------------------------------------------------------------------------
// The words of the store in these words.
// ---------------------------------------------------------------------------

/// The last row that satisfies a test.
pub proof fn lemma_last_row<A>(s: Seq<A>, p: spec_fn(A) -> bool)
    ensures
        match last_row(s, p) {
            Some(x) => exists|i: int|
                0 <= i < s.len() && p(#[trigger] s[i]) && s[i] == x && forall|j: int|
                    i < j < s.len() ==> !p(#[trigger] s[j]),
            None => forall|i: int| 0 <= i < s.len() ==> !p(#[trigger] s[i]),
        },
    decreases s.len(),
{
    if s.len() > 0 {
        let d = s.drop_last();
        if p(s.last()) {
            assert(p(s[s.len() - 1]));
        } else {
            lemma_last_row(d, p);
            match last_row(d, p) {
                Some(x) => {
                    let i = choose|i: int|
                        0 <= i < d.len() && p(#[trigger] d[i]) && d[i] == x && forall|j: int|
                            i < j < d.len() ==> !p(#[trigger] d[j]);
                    assert(p(s[i]));
                    assert forall|j: int| i < j < s.len() implies !p(#[trigger] s[j]) by {
                        if j < d.len() {
                            assert(!p(d[j]));
                        }
                    }
                },
                None => {
                    assert forall|i: int| 0 <= i < s.len() implies !p(#[trigger] s[i]) by {
                        if i < d.len() {
                            assert(!p(d[i]));
                        }
                    }
                },
            }
        }
    }
}

proof fn lemma_asks(f: Forum, t: ThreadRow)
    ensures
        asks(f, t) <==> format_of(f.categories, t.category_id) is Question,
{
    let which = category_is(t.category_id);
    lemma_last_row(f.categories, which);
    if asks(f, t) {
        let c = choose|c: int|
            0 <= c < f.categories.len() && (#[trigger] f.categories[c]).id == t.category_id
                && f.categories[c].format is Question && forall|j: int|
                c < j < f.categories.len() ==> (#[trigger] f.categories[j]).id != t.category_id;
        assert(which(f.categories[c]));
        let i = choose|i: int|
            0 <= i < f.categories.len() && which(#[trigger] f.categories[i]) && f.categories[i]
                == last_row(f.categories, which)->0 && forall|j: int|
                i < j < f.categories.len() ==> !which(#[trigger] f.categories[j]);
        assert(i == c) by {
            if i < c {
                assert(!which(f.categories[c]));
            }
            if c < i {
                assert(f.categories[i].id != t.category_id);
            }
        }
    }
    if format_of(f.categories, t.category_id) is Question {
        let i = choose|i: int|
            0 <= i < f.categories.len() && which(#[trigger] f.categories[i]) && f.categories[i]
                == last_row(f.categories, which)->0 && forall|j: int|
                i < j < f.categories.len() ==> !which(#[trigger] f.categories[j]);
        assert forall|j: int| i < j < f.categories.len() implies (#[trigger] f.categories[j]).id
            != t.category_id by {
            assert(!which(f.categories[j]));
        }
        assert(f.categories[i].id == t.category_id);
    }
}

/// A thread names an answer exactly when the store finds one.
pub proof fn lemma_names_an_answer(f: Forum, t: ThreadRow)
    ensures
        names_an_answer(f, t) <==> valid_accepted(t, f.original_posts, f.posts) is Some,
{
    let accepted = trim_text(t.accepted_post_id);
    let which = post_is_in(accepted, t.id);
    lemma_first_index(f.posts, which);
    lemma_opening_entry(f, t.id);
    if names_an_answer(f, t) {
        let p = choose|p: int|
            0 <= p < f.posts.len() && (#[trigger] f.posts[p]).thread_id == t.id && f.posts[p].id
                == accepted;
        assert(which(f.posts[p]));
    }
    if valid_accepted(t, f.original_posts, f.posts) is Some {
        let p = first_index(f.posts, which)->0;
        assert(f.posts[p].thread_id == t.id);
    }
}

proof fn lemma_wanted(
    f: Forum,
    category_id: Option<Seq<char>>,
    status: ThreadStatusFilter,
    t: ThreadRow,
)
    ensures
        in_scope(f, category_id, status, t) <==> wanted(f, category_id, status, t),
        public_row(t, solved_in(f, t)) == seen_as(f, t),
{
    lemma_asks(f, t);
    lemma_names_an_answer(f, t);
}

proof fn lemma_fed(f: Forum, viewer_sub: Seq<char>, thread_id: Seq<char>)
    ensures
        some_row(f.subscriptions, feeds(viewer_sub, thread_id)) <==> fed(f, viewer_sub, thread_id),
{
    let s = f.subscriptions;
    let which = feeds(viewer_sub, thread_id);
    if some_row(s, which) {
        let i = choose|i: int| 0 <= i < s.len() && which(#[trigger] s[i]);
        assert(s[i].thread_id == thread_id);
    }
    if stands(f, viewer_sub, thread_id, ThreadFollowLevel::Watch) {
        let i = choose|i: int|
            0 <= i < s.len() && (#[trigger] s[i]).thread_id == thread_id && s[i].subscriber_sub
                == viewer_sub && s[i].level == ThreadFollowLevel::Watch;
        assert(which(s[i]));
    }
    if stands(f, viewer_sub, thread_id, ThreadFollowLevel::Follow) {
        let i = choose|i: int|
            0 <= i < s.len() && (#[trigger] s[i]).thread_id == thread_id && s[i].subscriber_sub
                == viewer_sub && s[i].level == ThreadFollowLevel::Follow;
        assert(which(s[i]));
    }
}

/// The replies of a thread, counted.
pub proof fn lemma_replies_of(f: Forum, thread_id: Seq<char>)
    requires
        f.posts.len() <= i64::MAX,
    ensures
        replies_in(f.posts, thread_id) == replies_of(f, thread_id),
{
    let mine = |p: PostRow| p.thread_id == thread_id;
    assert(mine =~= post_in(thread_id));
    f.posts.lemma_filter_len(mine);
}

// ---------------------------------------------------------------------------
// Lists.
// ---------------------------------------------------------------------------

/// Whether a row shows a thread that is wanted.
pub open spec fn listed_for(
    f: Forum,
    category_id: Option<Seq<char>>,
    subscribed_sub: Option<Seq<char>>,
    status: ThreadStatusFilter,
    row: ThreadRow,
) -> bool {
    exists|n: int|
        0 <= n < f.threads.len() && row == seen_as(f, #[trigger] f.threads[n]) && wanted(
            f,
            category_id,
            status,
            f.threads[n],
        ) && (subscribed_sub is Some ==> fed(f, subscribed_sub->0, f.threads[n].id))
}

/// A list holds the threads that are wanted, of the requested category, question state and feeds,
/// and no others. A list that is not full leaves none of them out.
pub proof fn law_list_holds_what_is_wanted(
    f: Forum,
    category_id: Option<Seq<char>>,
    sort: ThreadSort,
    subscribed_sub: Option<Seq<char>>,
    status: ThreadStatusFilter,
    limit: int,
    heat: Seq<Heat>,
)
    ensures
        ({
            let page = thread_list(f, category_id, sort, subscribed_sub, status, limit, heat);
            &&& forall|n: int|
                0 <= n < f.threads.len() && page.len() < limit && wanted(
                    f,
                    category_id,
                    status,
                    #[trigger] f.threads[n],
                ) && (subscribed_sub is Some ==> fed(f, subscribed_sub->0, f.threads[n].id))
                    ==> page.contains(seen_as(f, f.threads[n]))
            &&& forall|k: int|
                0 <= k < page.len() ==> listed_for(
                    f,
                    category_id,
                    subscribed_sub,
                    status,
                    #[trigger] page[k],
                )
        }),
{
    let admits = list_admits(f, category_id, subscribed_sub, status);
    let kept = f.threads.filter(admits);
    let rows = kept.map_values(ranked_in(f, heat));
    let ranked = sorted(rows, rank_order(sort));
    let page = thread_list(f, category_id, sort, subscribed_sub, status, limit, heat);
    law_sorted_members(rows, rank_order(sort));
    lemma_filter_contains(f.threads, admits);
    assert forall|t: ThreadRow| #[trigger] admits(t) <==> wanted(f, category_id, status, t) && (
    subscribed_sub is Some ==> fed(f, subscribed_sub->0, t.id)) by {
        lemma_wanted(f, category_id, status, t);
        if subscribed_sub is Some {
            lemma_fed(f, subscribed_sub->0, t.id);
        }
    }
    assert forall|n: int|
        0 <= n < f.threads.len() && page.len() < limit && wanted(
            f,
            category_id,
            status,
            #[trigger] f.threads[n],
        ) && (subscribed_sub is Some ==> fed(
            f,
            subscribed_sub->0,
            f.threads[n].id,
        )) implies page.contains(seen_as(f, f.threads[n])) by {
        let t = f.threads[n];
        lemma_wanted(f, category_id, status, t);
        assert(admits(t));
        assert(f.threads.contains(t));
        assert(kept.contains(t));
        let k = choose|k: int| 0 <= k < kept.len() && kept[k] == t;
        assert(rows.contains(rows[k]));
        assert(ranked.contains(rows[k]));
        let z = choose|z: int| 0 <= z < ranked.len() && ranked[z] == rows[k];
        assert(page[z] == seen_as(f, t));
    }
    assert forall|k: int| 0 <= k < page.len() implies listed_for(
        f,
        category_id,
        subscribed_sub,
        status,
        #[trigger] page[k],
    ) by {
        assert(ranked.contains(ranked[k]));
        let z = choose|z: int| 0 <= z < rows.len() && rows[z] == ranked[k];
        assert(kept.contains(kept[z]));
        let n = choose|n: int| 0 <= n < f.threads.len() && f.threads[n] == kept[z];
        lemma_wanted(f, category_id, status, f.threads[n]);
        assert(admits(f.threads[n]));
        assert(page[k] == seen_as(f, f.threads[n]));
    }
}

/// Whether a thread was active after another: by its last reply, then by its opening, then by its
/// identifier.
pub open spec fn active_after(a: ThreadRow, b: ThreadRow) -> bool {
    a.last_at > b.last_at || (a.last_at == b.last_at && (a.created_at > b.created_at || (
    a.created_at == b.created_at && text_less(b.id, a.id))))
}

/// Whether the entry at `h` is the heat of a thread: the first for its replies and its opening.
pub open spec fn heat_entry(f: Forum, heat: Seq<Heat>, t: ThreadRow, h: int) -> bool {
    &&& 0 <= h < heat.len()
    &&& heat[h].reply_count == replies_of(f, t.id)
    &&& heat[h].created_at == t.created_at
    &&& forall|j: int|
        0 <= j < h ==> !((#[trigger] heat[j]).reply_count == replies_of(f, t.id)
            && heat[j].created_at == t.created_at)
}

/// In every list pinned threads stand first. Among threads that are alike in that, the latest list
/// has the one first that was active after the other, the top list the one with more replies and
/// then the one that was active after, and the hot list the one with more heat. A shorter list is
/// the front of a longer one.
pub proof fn law_list_order(
    f: Forum,
    category_id: Option<Seq<char>>,
    sort: ThreadSort,
    subscribed_sub: Option<Seq<char>>,
    status: ThreadStatusFilter,
    limit: int,
    heat: Seq<Heat>,
    i: int,
    j: int,
)
    requires
        f.posts.len() <= i64::MAX,
        0 <= i < j < thread_list(
            f,
            category_id,
            sort,
            subscribed_sub,
            status,
            limit,
            heat,
        ).len(),
    ensures
        ({
            let page = thread_list(f, category_id, sort, subscribed_sub, status, limit, heat);
            let a = page[i];
            let b = page[j];
            &&& b.pinned ==> a.pinned
            &&& a.pinned == b.pinned && sort is Latest ==> !active_after(b, a)
            &&& a.pinned == b.pinned && sort is Top ==> replies_of(f, a.id) >= replies_of(f, b.id)
            &&& a.pinned == b.pinned && sort is Top && replies_of(f, a.id) == replies_of(f, b.id)
                ==> !active_after(b, a)
            &&& a.pinned == b.pinned && sort is Hot ==> forall|x: int, y: int| #[trigger]
                heat_entry(f, heat, a, x) && #[trigger] heat_entry(f, heat, b, y) ==> heat[x].heat
                    >= heat[y].heat
        }),
        forall|n: int|
            0 < n <= limit ==> (#[trigger] thread_list(
                f,
                category_id,
                sort,
                subscribed_sub,
                status,
                n,
                heat,
            )) == ({
                let page = thread_list(f, category_id, sort, subscribed_sub, status, limit, heat);
                if page.len() < n {
                    page
                } else {
                    page.take(n)
                }
            }),
{
    let admits = list_admits(f, category_id, subscribed_sub, status);
    let kept = f.threads.filter(admits);
    let rows = kept.map_values(ranked_in(f, heat));
    let ranked = sorted(rows, rank_order(sort));
    let page = thread_list(f, category_id, sort, subscribed_sub, status, limit, heat);
    law_thread_orders(sort);
    law_sorted(rows, rank_order(sort));
    law_sorted_members(rows, rank_order(sort));
    assert(rank_order(sort)(ranked[i], ranked[j]));
    let a = lemma_ranked(f, heat, rows, kept, ranked, sort, i);
    let b = lemma_ranked(f, heat, rows, kept, ranked, sort, j);
    lemma_replies_of(f, page[i].id);
    lemma_replies_of(f, page[j].id);
    law_text_less_total(page[i].id, page[j].id);
    assert forall|x: int, y: int| #[trigger]
        heat_entry(f, heat, page[i], x) && #[trigger] heat_entry(f, heat, page[j], y)
            && page[i].pinned == page[j].pinned && sort is Hot implies heat[x].heat
        >= heat[y].heat by {
        lemma_heat_entry(f, heat, page[i], x);
        lemma_heat_entry(f, heat, page[j], y);
    }
    assert forall|n: int| 0 < n <= limit implies (#[trigger] thread_list(
        f,
        category_id,
        sort,
        subscribed_sub,
        status,
        n,
        heat,
    )) == (if page.len() < n {
        page
    } else {
        page.take(n)
    }) by {
        let shorter = thread_list(f, category_id, sort, subscribed_sub, status, n, heat);
        assert(shorter =~= if page.len() < n {
            page
        } else {
            page.take(n)
        });
    }
}

proof fn lemma_heat_entry(f: Forum, heat: Seq<Heat>, t: ThreadRow, h: int)
    requires
        f.posts.len() <= i64::MAX,
        heat_entry(f, heat, t, h),
    ensures
        heat_of(heat, replies_in(f.posts, t.id), t.created_at) == heat[h].heat,
{
    lemma_replies_of(f, t.id);
    let which = heat_for(replies_in(f.posts, t.id), t.created_at);
    assert(which(heat[h]));
    assert forall|j: int| 0 <= j < h implies !which(#[trigger] heat[j]) by {}
    lemma_first_index_unique(heat, which, h);
}

/// A ranked row carries what its thread is ranked by.
proof fn lemma_ranked(
    f: Forum,
    heat: Seq<Heat>,
    rows: Seq<RankedThreadRow>,
    kept: Seq<ThreadRow>,
    ranked: Seq<RankedThreadRow>,
    sort: ThreadSort,
    i: int,
) -> (t: ThreadRow)
    requires
        rows == kept.map_values(ranked_in(f, heat)),
        ranked == sorted(rows, rank_order(sort)),
        0 <= i < ranked.len(),
    ensures
        ranked[i] == ranked_in(f, heat)(t),
{
    law_sorted_members(rows, rank_order(sort));
    assert(ranked.contains(ranked[i]));
    let k = choose|k: int| 0 <= k < rows.len() && rows[k] == ranked[i];
    kept[k]
}

/// A thread that just got the newest reply heads the part of the latest list that is not pinned.
pub proof fn law_newest_reply_heads_the_list(
    f: Forum,
    post: PostRow,
    category_id: Option<Seq<char>>,
    subscribed_sub: Option<Seq<char>>,
    status: ThreadStatusFilter,
    limit: int,
    heat: Seq<Heat>,
    i: int,
    j: int,
)
    requires
        reply_addition(f, post).1 is Ok,
        distinct_threads(f.threads),
        f.posts.len() < i64::MAX,
        forall|n: int| 0 <= n < f.threads.len() ==> (#[trigger] f.threads[n]).last_at < post.created_at,
        ({
            let page = thread_list(
                reply_addition(f, post).0,
                category_id,
                ThreadSort::Latest,
                subscribed_sub,
                status,
                limit,
                heat,
            );
            0 <= i < j < page.len() && page[j].id == post.thread_id && !page[j].pinned
        }),
    ensures
        thread_list(
            reply_addition(f, post).0,
            category_id,
            ThreadSort::Latest,
            subscribed_sub,
            status,
            limit,
            heat,
        )[i].pinned,
{
    let g = reply_addition(f, post).0;
    let sort = ThreadSort::Latest;
    let page = thread_list(g, category_id, sort, subscribed_sub, status, limit, heat);
    law_list_order(g, category_id, sort, subscribed_sub, status, limit, heat, i, j);
    let a = lemma_listed_from(g, category_id, sort, subscribed_sub, status, limit, heat, i);
    let b = lemma_listed_from(g, category_id, sort, subscribed_sub, status, limit, heat, j);
    lemma_first_index(f.threads, thread_is(post.thread_id));
    let k = first_index(f.threads, thread_is(post.thread_id))->0;
    assert(g.threads == f.threads.update(k, bumped(post.created_at)(f.threads[k])));
    assert(b == k) by {
        if b != k {
            assert(f.threads[b].id != f.threads[k].id);
        }
    }
    if a == k && !page[i].pinned {
        lemma_listed_once(g, category_id, sort, subscribed_sub, status, limit, heat, i, j);
    } else if !page[i].pinned {
        assert(f.threads[a].last_at < post.created_at);
    }
}

/// The thread that a row of a list shows.
proof fn lemma_listed_from(
    f: Forum,
    category_id: Option<Seq<char>>,
    sort: ThreadSort,
    subscribed_sub: Option<Seq<char>>,
    status: ThreadStatusFilter,
    limit: int,
    heat: Seq<Heat>,
    k: int,
) -> (n: int)
    requires
        0 <= k < thread_list(f, category_id, sort, subscribed_sub, status, limit, heat).len(),
    ensures
        0 <= n < f.threads.len(),
        ({
            let row = thread_list(f, category_id, sort, subscribed_sub, status, limit, heat)[k];
            row == (ThreadRow { accepted_post_id: row.accepted_post_id, ..f.threads[n] })
        }),
{
    law_list_holds_what_is_wanted(f, category_id, sort, subscribed_sub, status, limit, heat);
    let row = thread_list(f, category_id, sort, subscribed_sub, status, limit, heat)[k];
    assert(listed_for(f, category_id, subscribed_sub, status, row));
    choose|n: int| 0 <= n < f.threads.len() && row == seen_as(f, #[trigger] f.threads[n])
}

/// Threads with different identifiers are listed once.
pub proof fn lemma_listed_once(
    f: Forum,
    category_id: Option<Seq<char>>,
    sort: ThreadSort,
    subscribed_sub: Option<Seq<char>>,
    status: ThreadStatusFilter,
    limit: int,
    heat: Seq<Heat>,
    i: int,
    j: int,
)
    requires
        distinct_threads(f.threads),
        0 <= i < j < thread_list(
            f,
            category_id,
            sort,
            subscribed_sub,
            status,
            limit,
            heat,
        ).len(),
    ensures
        thread_list(f, category_id, sort, subscribed_sub, status, limit, heat)[i].id != thread_list(
            f,
            category_id,
            sort,
            subscribed_sub,
            status,
            limit,
            heat,
        )[j].id,
{
    let admits = list_admits(f, category_id, subscribed_sub, status);
    let key = |t: ThreadRow| t.id;
    let row_key = |r: RankedThreadRow| r.thread.id;
    assert(distinct_by(f.threads, key)) by {
        assert forall|x: int, y: int|
            0 <= x < f.threads.len() && 0 <= y < f.threads.len() && x != y implies key(
            #[trigger] f.threads[x],
        ) != key(#[trigger] f.threads[y]) by {
            assert(f.threads[x].id != f.threads[y].id);
        }
    }
    lemma_distinct_filter(f.threads, admits, key);
    let kept = f.threads.filter(admits);
    let rows = kept.map_values(ranked_in(f, heat));
    assert(distinct_by(rows, row_key)) by {
        assert forall|x: int, y: int|
            0 <= x < rows.len() && 0 <= y < rows.len() && x != y implies row_key(
            #[trigger] rows[x],
        ) != row_key(#[trigger] rows[y]) by {
            assert(key(kept[x]) != key(kept[y]));
        }
    }
    lemma_sorted_distinct_by(rows, rank_order(sort), row_key);
    let ranked = sorted(rows, rank_order(sort));
    assert(row_key(ranked[i]) != row_key(ranked[j]));
}

// ---------------------------------------------------------------------------
// Searches.
// ---------------------------------------------------------------------------

/// Whether a text holds another one somewhere, upper and lower case alike.
pub open spec fn says(text: Seq<char>, words: Seq<char>) -> bool {
    exists|i: int|
        0 <= i <= lowercase_text(text).len() - lowercase_text(words).len()
            && #[trigger] lowercase_text(text).subrange(i, i + lowercase_text(words).len())
            == lowercase_text(words)
}

/// Whether the post at `p` opens a thread.
pub open spec fn opens(f: Forum, thread_id: Seq<char>, p: int) -> bool {
    &&& 0 <= p < f.posts.len()
    &&& f.posts[p].thread_id == thread_id
    &&& exists|i: int| #[trigger]
        opening_entry(f, thread_id, i) && f.original_posts[i].post_id == f.posts[p].id
}

/// Whether the post at `p` is the accepted answer of a question.
pub open spec fn answers(f: Forum, t: ThreadRow, p: int) -> bool {
    &&& asks(f, t)
    &&& names_an_answer(f, t)
    &&& 0 <= p < f.posts.len()
    &&& f.posts[p].thread_id == t.id
    &&& f.posts[p].id == trim_text(t.accepted_post_id)
}

/// Whether a thread says something: in its title, its original post, or its accepted answer.
pub open spec fn thread_says(f: Forum, t: ThreadRow, words: Seq<char>) -> bool {
    ||| says(t.title, words)
    ||| exists|p: int| #[trigger] opens(f, t.id, p) && says(f.posts[p].body_md, words)
    ||| exists|p: int| #[trigger] answers(f, t, p) && says(f.posts[p].body_md, words)
}

proof fn lemma_says(text: Seq<char>, words: Seq<char>)
    ensures
        says(text, words) <==> contains_text(lowercase_text(text), lowercase_text(words)),
{
    let hay = lowercase_text(text);
    let needle = lowercase_text(words);
    if says(text, words) {
        let i = choose|i: int|
            0 <= i <= hay.len() - needle.len() && #[trigger] hay.subrange(i, i + needle.len())
                == needle;
        assert(occurs_at(hay, needle, i));
    }
    if contains_text(hay, needle) {
        let i = choose|i: int| #[trigger] occurs_at(hay, needle, i);
        assert(hay.subrange(i, i + needle.len()) == needle);
    }
}

/// The texts that a search looks at.
proof fn lemma_searched(f: Forum, n: int)
    requires
        consistent(f),
        0 <= n < f.threads.len(),
    ensures
        ({
            let t = f.threads[n];
            &&& exists|p: int| #[trigger]
                opens(f, t.id, p) && opening_body(f, t.id) == f.posts[p].body_md
            &&& forall|p: int| #[trigger]
                opens(f, t.id, p) ==> opening_body(f, t.id) == f.posts[p].body_md
            &&& asks(f, t) && names_an_answer(f, t) ==> exists|p: int| #[trigger]
                answers(f, t, p) && solution_body(f, t) == f.posts[p].body_md
            &&& forall|p: int| #[trigger]
                answers(f, t, p) ==> solution_body(f, t) == f.posts[p].body_md
            &&& !(asks(f, t) && names_an_answer(f, t)) ==> solution_body(f, t) == Seq::<char>::empty()
        }),
{
    let t = f.threads[n];
    assert(opened(f.original_posts, f.posts)(f.threads[n]));
    lemma_opening_entry(f, t.id);
    let op = original_of(f.original_posts, t.id)->0;
    let first = choose|p: int| 0 <= p < f.posts.len() && post_is_in(op, t.id)(#[trigger] f.posts[p]);
    assert(opens(f, t.id, first));
    let which = opening_post(f, t.id);
    lemma_last_row(f.posts, which);
    assert(which(f.posts[first]));
    let l = choose|l: int|
        0 <= l < f.posts.len() && which(#[trigger] f.posts[l]) && f.posts[l] == last_row(
            f.posts,
            which,
        )->0;
    assert forall|p: int| #[trigger] opens(f, t.id, p) implies p == l by {
        if p != l {
            assert(post_key()(f.posts[p]) != post_key()(f.posts[l]));
        }
    }
    lemma_asks(f, t);
    lemma_names_an_answer(f, t);
    if asks(f, t) && names_an_answer(f, t) {
        let accepted = trim_text(t.accepted_post_id);
        lemma_first_index(f.posts, post_is_in(accepted, t.id));
        let a = first_index(f.posts, post_is_in(accepted, t.id))->0;
        lemma_last_row(f.posts, post_is(accepted));
        assert(post_is(accepted)(f.posts[a]));
        let b = choose|b: int|
            0 <= b < f.posts.len() && post_is(accepted)(#[trigger] f.posts[b]) && f.posts[b]
                == last_row(f.posts, post_is(accepted))->0;
        if a != b {
            assert(post_key()(f.posts[a]) != post_key()(f.posts[b]));
        }
        assert(answers(f, t, a));
        assert forall|p: int| #[trigger] answers(f, t, p) implies p == a by {
            if p != a {
                assert(post_key()(f.posts[p]) != post_key()(f.posts[a]));
            }
        }
    }
}

/// What a search finds in a thread, in the words of the search.
proof fn lemma_hit(
    f: Forum,
    query: Seq<char>,
    category_id: Option<Seq<char>>,
    status: ThreadStatusFilter,
    n: int,
)
    requires
        consistent(f),
        0 <= n < f.threads.len(),
        lowercase_text(trim_text(query)).len() > 0,
    ensures
        search_hit(f, lowercase_text(trim_text(query)), category_id, status)(f.threads[n]) is Some
            ==> wanted(f, category_id, status, f.threads[n]) && (thread_says(
            f,
            f.threads[n],
            trim_text(query),
        ) || says(Seq::empty(), trim_text(query))),
        wanted(f, category_id, status, f.threads[n]) && thread_says(
            f,
            f.threads[n],
            trim_text(query),
        ) ==> search_hit(f, lowercase_text(trim_text(query)), category_id, status)(f.threads[n])
            is Some,
{
    let t = f.threads[n];
    let words = trim_text(query);
    lemma_wanted(f, category_id, status, t);
    lemma_searched(f, n);
    lemma_says(t.title, words);
    lemma_says(opening_body(f, t.id), words);
    lemma_says(solution_body(f, t), words);
}

/// A search finds the wanted threads that say the words of the query, blanks around them aside, in
/// the title, the original post, or the accepted answer, upper and lower case alike. Results that
/// are not full leave none of them out. A thread that does not say the words is found only when an
/// empty text would say them.
pub proof fn law_search_finds_what_is_said(
    f: Forum,
    query: Seq<char>,
    category_id: Option<Seq<char>>,
    status: ThreadStatusFilter,
    limit: int,
)
    requires
        consistent(f),
        f.posts.len() <= i64::MAX,
        lowercase_text(trim_text(query)).len() > 0,
    ensures
        ({
            let hits = search_hits(f, query, category_id, status, limit);
            let words = trim_text(query);
            &&& forall|n: int|
                0 <= n < f.threads.len() && hits.len() < limit && wanted(
                    f,
                    category_id,
                    status,
                    #[trigger] f.threads[n],
                ) && thread_says(f, f.threads[n], words) ==> found(f, hits, f.threads[n])
            &&& forall|k: int|
                0 <= k < hits.len() ==> found_for(
                    f,
                    category_id,
                    status,
                    words,
                    #[trigger] hits[k],
                )
        }),
{
    let words = trim_text(query);
    let needle = lowercase_text(words);
    let hits = search_hits(f, query, category_id, status, limit);
    let find = search_hit(f, needle, category_id, status);
    assert forall|n: int|
        0 <= n < f.threads.len() && hits.len() < limit && wanted(
            f,
            category_id,
            status,
            #[trigger] f.threads[n],
        ) && thread_says(f, f.threads[n], words) implies found(f, hits, f.threads[n]) by {
        lemma_hit(f, query, category_id, status, n);
        lemma_wanted(f, category_id, status, f.threads[n]);
        let k = lemma_page_holds(f.threads, find, hit_order(), limit, n);
        assert(hits[k].thread == seen_as(f, f.threads[n]));
    }
    assert forall|k: int| 0 <= k < hits.len() implies found_for(
        f,
        category_id,
        status,
        words,
        #[trigger] hits[k],
    ) by {
        let n = lemma_page_source(f.threads, find, hit_order(), limit, k);
        let t = f.threads[n];
        lemma_hit(f, query, category_id, status, n);
        lemma_wanted(f, category_id, status, t);
        lemma_searched(f, n);
        lemma_replies_of(f, t.id);
        lemma_says(solution_body(f, t), words);
        assert(hits[k].thread == seen_as(f, f.threads[n]));
    }
}

/// Whether the hits show a thread.
pub open spec fn found(f: Forum, hits: Seq<ThreadSearchHitRow>, t: ThreadRow) -> bool {
    exists|k: int| 0 <= k < hits.len() && (#[trigger] hits[k]).thread == seen_as(f, t)
}

/// Whether a hit shows a wanted thread that says the words, with its original post, its answer, and
/// its replies.
pub open spec fn found_for(
    f: Forum,
    category_id: Option<Seq<char>>,
    status: ThreadStatusFilter,
    words: Seq<char>,
    hit: ThreadSearchHitRow,
) -> bool {
    exists|n: int|
        0 <= n < f.threads.len() && hit.thread == seen_as(f, #[trigger] f.threads[n]) && wanted(
            f,
            category_id,
            status,
            f.threads[n],
        ) && (thread_says(f, f.threads[n], words) || says(Seq::empty(), words)) && (forall|p: int|
            #[trigger]
            opens(f, f.threads[n].id, p) ==> hit.first_body_md == f.posts[p].body_md) && (forall|
            p: int,
        |
            #[trigger]
            answers(f, f.threads[n], p) ==> hit.accepted_body_md == f.posts[p].body_md)
            && hit.matched_in_solution == says(hit.accepted_body_md, words) && hit.reply_count
            == replies_of(f, f.threads[n].id)
}

/// A search does not depend on the case of its words, nor on blanks around them.
pub proof fn law_search_ignores_case(
    f: Forum,
    query: Seq<char>,
    other: Seq<char>,
    category_id: Option<Seq<char>>,
    status: ThreadStatusFilter,
    limit: int,
)
    requires
        lowercase_text(trim_text(query)) == lowercase_text(trim_text(other)),
    ensures
        search_hits(f, query, category_id, status, limit) == search_hits(
            f,
            other,
            category_id,
            status,
            limit,
        ),
{
}

/// Hits stand like the latest list: pinned threads first, then the one that was active after the
/// other; shorter results are the front of longer ones.
pub proof fn law_search_order(
    f: Forum,
    query: Seq<char>,
    category_id: Option<Seq<char>>,
    status: ThreadStatusFilter,
    limit: int,
    shorter: int,
)
    requires
        0 < shorter <= limit,
    ensures
        ({
            let hits = search_hits(f, query, category_id, status, limit);
            &&& hits.len() <= limit
            &&& forall|i: int, j: int|
                0 <= i < j < hits.len() ==> ((#[trigger] hits[j]).thread.pinned ==> (
                #[trigger] hits[i]).thread.pinned)
            &&& forall|i: int, j: int|
                0 <= i < j < hits.len() && (#[trigger] hits[i]).thread.pinned == (
                #[trigger] hits[j]).thread.pinned ==> !active_after(hits[j].thread, hits[i].thread)
            &&& search_hits(f, query, category_id, status, shorter) == if hits.len() < shorter {
                hits
            } else {
                hits.take(shorter)
            }
        }),
{
    let needle = lowercase_text(trim_text(query));
    let hits = search_hits(f, query, category_id, status, limit);
    let all = collected(f.threads, search_hit(f, needle, category_id, status));
    let t = sorted(all, hit_order());
    law_thread_orders(ThreadSort::Latest);
    law_sorted(all, hit_order());
    assert forall|i: int, j: int| 0 <= i < j < hits.len() implies ((
    #[trigger] hits[j]).thread.pinned ==> (#[trigger] hits[i]).thread.pinned) && (
    hits[i].thread.pinned == hits[j].thread.pinned ==> !active_after(
        hits[j].thread,
        hits[i].thread,
    )) by {
        assert(hit_order()(t[i], t[j]));
    }
    assert(search_hits(f, query, category_id, status, shorter) =~= if hits.len() < shorter {
        hits
    } else {
        hits.take(shorter)
    });
}

} // verus!
