//! Pages of a list: following the cursor neither skips nor repeats a row.

use vstd::prelude::*;

use crate::laws::order::{law_key_less, law_sorted, law_sorted_filter, law_sorted_members, orders};
use crate::model::{
    ActivityEventRow, ActivityItemRow, ActivityReason, BookmarkItemRow, BookmarkRow, PostRow,
    ThreadRow,
};
use crate::rows::{collected, lemma_filter_contains, lemma_filter_push, limited, sorted};
use crate::store::activity::{activity_item, activity_order, activity_stream};
use crate::store::bookmarks::{bookmark_list, bookmark_listed, bookmark_order, bookmark_sort_at};
use crate::store::catch_up::{
    CatchUpQuery, catch_up, catch_up_item, catch_up_order, latest_activity, point_within,
    snapshot_points,
};
use crate::store::memory::Forum;
use crate::store::threads::{
    anchored, anchored_reply, ascending, descending, key_less, reply_of, reply_page, walks_up,
};
use crate::store::types::{
    ActivityCursorRow, ActivityFilter, BookmarkCursorRow, BookmarkState, CatchUpCursorRow,
    CatchUpItemRow, CatchUpPostPointRow, MAX_BOOKMARK_PAGE, MAX_CATCH_UP_PAGE, ReplyAnchor,
};
use crate::text::blank_text;

verus! {

/// Whether no two rows count as equal.
pub open spec fn strictly_ordered<A>(s: Seq<A>, le: spec_fn(A, A) -> bool) -> bool {
    forall|i: int, j: int|
        0 <= i < s.len() && 0 <= j < s.len() && i != j ==> !(le(#[trigger] s[i], #[trigger] s[j])
            && le(s[j], s[i]))
}

/// The rows behind a row.
pub open spec fn behind_row<A>(le: spec_fn(A, A) -> bool, c: A) -> spec_fn(A) -> bool {
    |x: A| !le(x, c)
}

proof fn lemma_filter_suffix<A>(t: Seq<A>, p: spec_fn(A) -> bool, n: int)
    requires
        0 <= n <= t.len(),
        forall|i: int| 0 <= i < n ==> !p(#[trigger] t[i]),
        forall|i: int| n <= i < t.len() ==> p(#[trigger] t[i]),
    ensures
        t.filter(p) == t.skip(n),
    decreases t.len(),
{
    reveal(Seq::filter);
    if t.len() == 0 {
        assert(t.skip(n) =~= t);
    } else if n == t.len() {
        lemma_filter_suffix(t.drop_last(), p, n - 1);
        assert(!p(t[t.len() - 1]));
        assert(t.skip(n) =~= t.drop_last().skip(n - 1));
    } else {
        lemma_filter_suffix(t.drop_last(), p, n);
        assert(p(t[t.len() - 1]));
        assert(t.skip(n) =~= t.drop_last().skip(n).push(t.last()));
    }
}

/// A full page, followed by the page behind its last row, is the page of both lengths.
pub proof fn law_page_continues<A>(s: Seq<A>, le: spec_fn(A, A) -> bool, n: int, m: int)
    requires
        orders(le),
        strictly_ordered(s, le),
        0 < n <= s.len(),
        0 <= m,
    ensures
        ({
            let first = limited(sorted(s, le), n);
            first + limited(sorted(s.filter(behind_row(le, first.last())), le), m) == limited(
                sorted(s, le),
                n + m,
            )
        }),
{
    let t = sorted(s, le);
    law_sorted(s, le);
    law_sorted_members(s, le);
    let first = limited(t, n);
    assert(first =~= t.take(n));
    let c = first.last();
    let p = behind_row(le, c);
    law_sorted_filter(s, le, p);
    assert(s.no_duplicates()) by {
        assert forall|i: int, j: int| 0 <= i < s.len() && 0 <= j < s.len() && i != j implies s[i]
            != s[j] by {
            assert(le(s[i], s[i]) || le(s[i], s[i]));
        }
    }
    lemma_same_multiset_distinct(s, t);
    assert forall|i: int| 0 <= i < n implies !p(#[trigger] t[i]) by {
        if i < n - 1 {
            assert(le(t[i], t[n - 1]));
        } else {
            assert(le(c, c) || le(c, c));
        }
    }
    assert forall|i: int| n <= i < t.len() implies p(#[trigger] t[i]) by {
        assert(le(t[n - 1], t[i]));
        assert(t.contains(t[i]) && t.contains(t[n - 1]));
        let a = choose|a: int| 0 <= a < s.len() && s[a] == t[i];
        let b = choose|b: int| 0 <= b < s.len() && s[b] == t[n - 1];
        assert(t[i] != t[n - 1]);
        assert(a != b);
        assert(!(le(s[a], s[b]) && le(s[b], s[a])));
    }
    lemma_filter_suffix(t, p, n);
    assert(first + limited(t.skip(n), m) =~= limited(t, n + m));
}

proof fn lemma_same_multiset_distinct<A>(s: Seq<A>, t: Seq<A>)
    requires
        s.no_duplicates(),
        s.to_multiset() =~= t.to_multiset(),
    ensures
        t.no_duplicates(),
{
    s.lemma_multiset_has_no_duplicates();
    assert forall|x: A| t.to_multiset().contains(x) implies t.to_multiset().count(x) == 1 by {
        assert(s.to_multiset().contains(x));
    }
    t.lemma_multiset_has_no_duplicates_conv();
}

/// Collecting with one more condition on the rows is filtering what was collected.
pub proof fn lemma_collected_filter<A, B>(
    s: Seq<A>,
    g: spec_fn(A) -> Option<B>,
    h: spec_fn(A) -> Option<B>,
    q: spec_fn(B) -> bool,
)
    requires
        forall|a: A|
            #[trigger] h(a) == match g(a) {
                Some(b) => if q(b) {
                    Some(b)
                } else {
                    None
                },
                None => None,
            },
    ensures
        collected(s, h) == collected(s, g).filter(q),
    decreases s.len(),
{
    reveal(Seq::filter);
    if s.len() > 0 {
        lemma_collected_filter(s.drop_last(), g, h, q);
        if let Some(b) = g(s.last()) {
            lemma_filter_push(collected(s.drop_last(), g), b, q);
        }
    } else {
        assert(collected(s, g).filter(q) =~= Seq::empty());
    }
}

/// No more rows are collected than there are.
pub proof fn lemma_collected_len<A, B>(s: Seq<A>, g: spec_fn(A) -> Option<B>)
    ensures
        collected(s, g).len() <= s.len(),
    decreases s.len(),
{
    if s.len() > 0 {
        lemma_collected_len(s.drop_last(), g);
    }
}

/// Rows that are not collected may be left out.
pub proof fn lemma_collected_kept<A, B>(
    s: Seq<A>,
    g: spec_fn(A) -> Option<B>,
    keep: spec_fn(A) -> bool,
)
    requires
        forall|a: A| (#[trigger] g(a)) is Some ==> keep(a),
    ensures
        collected(s.filter(keep), g) == collected(s, g),
    decreases s.len(),
{
    reveal(Seq::filter);
    if s.len() > 0 {
        let d = s.drop_last();
        lemma_collected_kept(d, g, keep);
        assert(s =~= d.push(s.last()));
        lemma_filter_push(d, s.last(), keep);
        if keep(s.last()) {
            assert(s.filter(keep).drop_last() =~= d.filter(keep));
        }
    }
}

/// What is collected depends on the rows of the list alone.
pub proof fn lemma_collected_same<A, B>(
    s: Seq<A>,
    g: spec_fn(A) -> Option<B>,
    h: spec_fn(A) -> Option<B>,
)
    requires
        forall|i: int| 0 <= i < s.len() ==> g(#[trigger] s[i]) == h(s[i]),
    ensures
        collected(s, g) == collected(s, h),
    decreases s.len(),
{
    if s.len() > 0 {
        let d = s.drop_last();
        assert forall|i: int| 0 <= i < d.len() implies g(#[trigger] d[i]) == h(d[i]) by {
            assert(d[i] == s[i]);
        }
        lemma_collected_same(d, g, h);
        assert(g(s[s.len() - 1]) == h(s[s.len() - 1]));
    }
}

/// Every collected row comes from a row of the list, and in its order.
pub proof fn lemma_collected_sources<A, B>(s: Seq<A>, g: spec_fn(A) -> Option<B>) -> (k: Seq<int>)
    ensures
        k.len() == collected(s, g).len(),
        forall|i: int|
            0 <= i < k.len() ==> 0 <= #[trigger] k[i] < s.len() && g(s[k[i]]) == Some(
                collected(s, g)[i],
            ),
        forall|i: int, j: int| 0 <= i < j < k.len() ==> #[trigger] k[i] < #[trigger] k[j],
    decreases s.len(),
{
    if s.len() == 0 {
        Seq::empty()
    } else {
        let d = s.drop_last();
        let rest = lemma_collected_sources(d, g);
        match g(s.last()) {
            Some(b) => {
                let k = rest.push(s.len() - 1);
                assert forall|i: int| 0 <= i < k.len() implies 0 <= #[trigger] k[i] < s.len() && g(
                    s[k[i]],
                ) == Some(collected(s, g)[i]) by {
                    if i < rest.len() {
                        assert(d[rest[i]] == s[rest[i]]);
                    }
                }
                k
            },
            None => {
                assert forall|i: int| 0 <= i < rest.len() implies 0 <= #[trigger] rest[i] < s.len()
                    && g(s[rest[i]]) == Some(collected(s, g)[i]) by {
                    assert(d[rest[i]] == s[rest[i]]);
                }
                rest
            },
        }
    }
}

// ---------------------------------------------------------------------------
// Replies.
// ---------------------------------------------------------------------------

/// Whether no two posts share an identifier.
pub open spec fn distinct_posts(posts: Seq<PostRow>) -> bool {
    forall|i: int, j: int|
        0 <= i < posts.len() && 0 <= j < posts.len() && i != j ==> (#[trigger] posts[i]).id != (
        #[trigger] posts[j]).id
}

proof fn lemma_filter_distinct_posts(posts: Seq<PostRow>, p: spec_fn(PostRow) -> bool)
    requires
        distinct_posts(posts),
    ensures
        distinct_posts(posts.filter(p)),
    decreases posts.len(),
{
    reveal(Seq::filter);
    if posts.len() > 0 {
        let d = posts.drop_last();
        lemma_filter_distinct_posts(d, p);
        lemma_filter_contains(d, p);
        let r = posts.filter(p);
        assert forall|i: int, j: int| 0 <= i < r.len() && 0 <= j < r.len() && i != j implies (
        #[trigger] r[i]).id != (#[trigger] r[j]).id by {
            if p(posts.last()) {
                if i == r.len() - 1 || j == r.len() - 1 {
                    let k = if i == r.len() - 1 {
                        j
                    } else {
                        i
                    };
                    assert(d.filter(p).contains(d.filter(p)[k]));
                    let x = choose|x: int| 0 <= x < d.len() && d[x] == d.filter(p)[k];
                    assert(posts[x].id != posts[posts.len() - 1].id);
                } else {
                    assert(d.filter(p)[i].id != d.filter(p)[j].id);
                }
            }
        }
    } else {
        assert(posts.filter(p) =~= posts);
    }
}

/// Oldest-first and newest-first can order posts.
pub proof fn law_post_orders()
    ensures
        orders(ascending()),
        orders(descending()),
{
    assert forall|a: PostRow, b: PostRow| #[trigger] ascending()(a, b) || ascending()(b, a) by {
        law_key_less(a.created_at as int, a.id, b.created_at as int, b.id, 0, a.id);
    }
    assert forall|a: PostRow, b: PostRow| #[trigger] descending()(a, b) || descending()(b, a) by {
        law_key_less(a.created_at as int, a.id, b.created_at as int, b.id, 0, a.id);
    }
    assert forall|a: PostRow, b: PostRow, c: PostRow| #[trigger]
        ascending()(a, b) && #[trigger] ascending()(b, c) implies ascending()(a, c) by {
        lemma_not_less(
            a.created_at as int,
            a.id,
            b.created_at as int,
            b.id,
            c.created_at as int,
            c.id,
        );
    }
    assert forall|a: PostRow, b: PostRow, c: PostRow| #[trigger]
        descending()(a, b) && #[trigger] descending()(b, c) implies descending()(a, c) by {
        lemma_not_less(
            c.created_at as int,
            c.id,
            b.created_at as int,
            b.id,
            a.created_at as int,
            a.id,
        );
    }
}

/// What does not lie behind chains.
pub proof fn lemma_not_less(
    at: int,
    id: Seq<char>,
    at2: int,
    id2: Seq<char>,
    at3: int,
    id3: Seq<char>,
)
    ensures
        !key_less(at2, id2, at, id) && !key_less(at3, id3, at2, id2) ==> !key_less(
            at3,
            id3,
            at,
            id,
        ),
{
    law_key_less(at, id, at2, id2, at3, id3);
    law_key_less(at3, id3, at, id, at2, id2);
    law_key_less(at2, id2, at3, id3, at, id);
}

proof fn lemma_posts_strict(s: Seq<PostRow>)
    requires
        distinct_posts(s),
    ensures
        strictly_ordered(s, ascending()),
        strictly_ordered(s, descending()),
{
    assert forall|i: int, j: int| 0 <= i < s.len() && 0 <= j < s.len() && i != j implies !(
    ascending()(#[trigger] s[i], #[trigger] s[j]) && ascending()(s[j], s[i])) by {
        law_key_less(s[i].created_at as int, s[i].id, s[j].created_at as int, s[j].id, 0, s[i].id);
    }
    assert forall|i: int, j: int| 0 <= i < s.len() && 0 <= j < s.len() && i != j implies !(
    descending()(#[trigger] s[i], #[trigger] s[j]) && descending()(s[j], s[i])) by {
        law_key_less(s[i].created_at as int, s[i].id, s[j].created_at as int, s[j].id, 0, s[i].id);
    }
}

/// Filtering twice is filtering once by both conditions.
pub proof fn lemma_filter_twice<A>(
    s: Seq<A>,
    p: spec_fn(A) -> bool,
    q: spec_fn(A) -> bool,
    both: spec_fn(A) -> bool,
)
    requires
        forall|a: A| #[trigger] both(a) == (p(a) && q(a)),
    ensures
        s.filter(p).filter(q) == s.filter(both),
    decreases s.len(),
{
    reveal(Seq::filter);
    if s.len() > 0 {
        let d = s.drop_last();
        lemma_filter_twice(d, p, q, both);
        if p(s.last()) {
            lemma_filter_push(d.filter(p), s.last(), q);
        }
    } else {
        assert(s.filter(p) =~= s);
        assert(s.filter(both) =~= s);
    }
}

/// Reading on behind the last reply of a full first page neither skips nor repeats a reply.
pub proof fn law_replies_after(
    f: Forum,
    thread_id: Seq<char>,
    op_id: Seq<char>,
    excluded: Option<Seq<char>>,
    cursor: String,
    n: int,
    m: int,
)
    requires
        distinct_posts(f.posts),
        0 < n,
        0 <= m,
        reply_page(f, thread_id, op_id, excluded, ReplyAnchor::First, n).len() == n,
        cursor@ == reply_page(f, thread_id, op_id, excluded, ReplyAnchor::First, n).last().id,
    ensures
        ({
            let first = reply_page(f, thread_id, op_id, excluded, ReplyAnchor::First, n);
            let anchor = ReplyAnchor::After(first.last().created_at, cursor);
            first + reply_page(f, thread_id, op_id, excluded, anchor, m) == reply_page(
                f,
                thread_id,
                op_id,
                excluded,
                ReplyAnchor::First,
                n + m,
            )
        }),
{
    let first = reply_page(f, thread_id, op_id, excluded, ReplyAnchor::First, n);
    let c = first.last();
    let anchor = ReplyAnchor::After(c.created_at, cursor);
    let all = anchored_reply(thread_id, op_id, excluded, ReplyAnchor::First);
    let s = f.posts.filter(all);
    law_post_orders();
    lemma_filter_distinct_posts(f.posts, all);
    lemma_posts_strict(s);
    law_sorted_members(s, ascending());
    law_page_continues(s, ascending(), n, m);
    lemma_filter_twice(
        f.posts,
        all,
        behind_row(ascending(), c),
        anchored_reply(thread_id, op_id, excluded, anchor),
    );
}

/// Reading back from the first reply of a full last page neither skips nor repeats a reply.
pub proof fn law_replies_before(
    f: Forum,
    thread_id: Seq<char>,
    op_id: Seq<char>,
    excluded: Option<Seq<char>>,
    cursor: String,
    n: int,
    m: int,
)
    requires
        distinct_posts(f.posts),
        0 < n,
        0 <= m,
        reply_page(f, thread_id, op_id, excluded, ReplyAnchor::Latest, n).len() == n,
        cursor@ == reply_page(f, thread_id, op_id, excluded, ReplyAnchor::Latest, n).last().id,
    ensures
        ({
            let first = reply_page(f, thread_id, op_id, excluded, ReplyAnchor::Latest, n);
            let anchor = ReplyAnchor::Before(first.last().created_at, cursor);
            first + reply_page(f, thread_id, op_id, excluded, anchor, m) == reply_page(
                f,
                thread_id,
                op_id,
                excluded,
                ReplyAnchor::Latest,
                n + m,
            )
        }),
{
    let first = reply_page(f, thread_id, op_id, excluded, ReplyAnchor::Latest, n);
    let c = first.last();
    let anchor = ReplyAnchor::Before(c.created_at, cursor);
    let all = anchored_reply(thread_id, op_id, excluded, ReplyAnchor::Latest);
    let s = f.posts.filter(all);
    law_post_orders();
    lemma_filter_distinct_posts(f.posts, all);
    lemma_posts_strict(s);
    law_sorted_members(s, descending());
    law_page_continues(s, descending(), n, m);
    lemma_filter_twice(
        f.posts,
        all,
        behind_row(descending(), c),
        anchored_reply(thread_id, op_id, excluded, anchor),
    );
}

/// Whether every row stands strictly before the rows behind it.
pub open spec fn rising<A>(s: Seq<A>, le: spec_fn(A, A) -> bool) -> bool {
    forall|i: int, j: int|
        0 <= i < j < s.len() ==> le(#[trigger] s[i], #[trigger] s[j]) && !le(s[j], s[i])
}

proof fn lemma_sorted_rising<A>(s: Seq<A>, le: spec_fn(A, A) -> bool)
    requires
        orders(le),
        strictly_ordered(s, le),
    ensures
        rising(sorted(s, le), le),
{
    let t = sorted(s, le);
    law_sorted(s, le);
    law_sorted_members(s, le);
    assert(s.no_duplicates()) by {
        assert forall|i: int, j: int| 0 <= i < s.len() && 0 <= j < s.len() && i != j implies s[i]
            != s[j] by {
            assert(le(s[i], s[i]) || le(s[i], s[i]));
        }
    }
    lemma_same_multiset_distinct(s, t);
    assert forall|i: int, j: int| 0 <= i < j < t.len() implies le(#[trigger] t[i], #[trigger] t[j])
        && !le(t[j], t[i]) by {
        assert(t.contains(t[i]) && t.contains(t[j]));
        let a = choose|a: int| 0 <= a < s.len() && s[a] == t[i];
        let b = choose|b: int| 0 <= b < s.len() && s[b] == t[j];
        assert(a != b);
        assert(!(le(s[a], s[b]) && le(s[b], s[a])));
    }
}

/// Two lists of the same rows, both in the strict order, are one list.
proof fn lemma_rising_unique<A>(s: Seq<A>, t: Seq<A>, le: spec_fn(A, A) -> bool)
    requires
        rising(s, le),
        rising(t, le),
        forall|x: A| #[trigger] s.contains(x) <==> t.contains(x),
    ensures
        s == t,
    decreases s.len(),
{
    if s.len() == 0 {
        if t.len() > 0 {
            assert(t.contains(t[0]));
            assert(s.contains(t[0]));
        }
        assert(s =~= t);
    } else {
        assert(s.contains(s.last()));
        assert(t.contains(s.last()));
        let k = choose|k: int| 0 <= k < t.len() && t[k] == s.last();
        assert(t.contains(t.last()));
        assert(s.contains(t.last()));
        let n = choose|n: int| 0 <= n < s.len() && s[n] == t.last();
        if k < t.len() - 1 {
            assert(!le(t[t.len() - 1], t[k]));
            if n < s.len() - 1 {
                assert(le(s[n], s[s.len() - 1]));
            } else {
                assert(le(t[k], t[t.len() - 1]));
            }
        }
        let d = s.drop_last();
        let e = t.drop_last();
        assert forall|x: A| #[trigger] d.contains(x) <==> e.contains(x) by {
            if d.contains(x) {
                let i = choose|i: int| 0 <= i < d.len() && d[i] == x;
                assert(s[i] == x);
                assert(s.contains(x));
                let j = choose|j: int| 0 <= j < t.len() && t[j] == x;
                if j == t.len() - 1 {
                    assert(le(s[i], s[s.len() - 1]) && !le(s[s.len() - 1], s[i]));
                }
                assert(e[j] == x);
            }
            if e.contains(x) {
                let j = choose|j: int| 0 <= j < e.len() && e[j] == x;
                assert(t[j] == x);
                assert(t.contains(x));
                assert(s.contains(x));
                let i = choose|i: int| 0 <= i < s.len() && s[i] == x;
                if i == s.len() - 1 {
                    assert(le(t[j], t[t.len() - 1]) && !le(t[t.len() - 1], t[j]));
                }
                assert(d[i] == x);
            }
        }
        lemma_rising_unique(d, e, le);
        assert(s =~= d.push(s.last()));
        assert(t =~= e.push(t.last()));
    }
}

/// A page from a reply on, and a page around it, start with that reply.
pub proof fn law_replies_start_at_their_anchor(
    f: Forum,
    thread_id: Seq<char>,
    op_id: Seq<char>,
    excluded: Option<Seq<char>>,
    reply: PostRow,
    id: String,
    limit: int,
)
    requires
        distinct_posts(f.posts),
        f.posts.contains(reply),
        reply_of(thread_id, op_id, excluded)(reply),
        id@ == reply.id,
        0 < limit,
    ensures
        ({
            let from = ReplyAnchor::From(reply.created_at, id);
            let around = ReplyAnchor::Around(reply.created_at, id);
            &&& reply_page(f, thread_id, op_id, excluded, from, limit).len() > 0
            &&& reply_page(f, thread_id, op_id, excluded, from, limit)[0] == reply
            &&& reply_page(f, thread_id, op_id, excluded, around, limit).len() > 0
            &&& reply_page(f, thread_id, op_id, excluded, around, limit)[0] == reply
        }),
{
    law_post_orders();
    law_key_less(reply.created_at as int, reply.id, reply.created_at as int, reply.id, 0, reply.id);
    lemma_starts_with(
        f,
        thread_id,
        op_id,
        excluded,
        ReplyAnchor::From(reply.created_at, id),
        reply,
        limit,
    );
    lemma_starts_with(
        f,
        thread_id,
        op_id,
        excluded,
        ReplyAnchor::Around(reply.created_at, id),
        reply,
        limit,
    );
}

proof fn lemma_starts_with(
    f: Forum,
    thread_id: Seq<char>,
    op_id: Seq<char>,
    excluded: Option<Seq<char>>,
    anchor: ReplyAnchor,
    reply: PostRow,
    limit: int,
)
    requires
        distinct_posts(f.posts),
        f.posts.contains(reply),
        anchored_reply(thread_id, op_id, excluded, anchor)(reply),
        anchor matches ReplyAnchor::From(at, id) ==> at == reply.created_at && id@ == reply.id,
        anchor matches ReplyAnchor::Around(at, id) ==> at == reply.created_at && id@ == reply.id,
        anchor is From || anchor is Around,
        0 < limit,
    ensures
        reply_page(f, thread_id, op_id, excluded, anchor, limit).len() > 0,
        reply_page(f, thread_id, op_id, excluded, anchor, limit)[0] == reply,
{
    let test = anchored_reply(thread_id, op_id, excluded, anchor);
    let s = f.posts.filter(test);
    let le = if walks_up(anchor) {
        ascending()
    } else {
        descending()
    };
    let t = sorted(s, le);
    law_post_orders();
    lemma_filter_distinct_posts(f.posts, test);
    lemma_posts_strict(s);
    lemma_sorted_rising(s, le);
    law_sorted_members(s, le);
    lemma_filter_contains(f.posts, test);
    assert(t.contains(reply));
    let k = choose|k: int| 0 <= k < t.len() && t[k] == reply;
    if k > 0 {
        assert(!le(t[k], t[0]));
        assert(t.contains(t[0]));
        assert(s.contains(t[0]));
        assert(test(t[0]));
    }
}

/// A page around the last reply of a first page is that page, backwards.
pub proof fn law_replies_around_read_backwards(
    f: Forum,
    thread_id: Seq<char>,
    op_id: Seq<char>,
    excluded: Option<Seq<char>>,
    id: String,
    limit: int,
)
    requires
        distinct_posts(f.posts),
        0 < limit,
        reply_page(f, thread_id, op_id, excluded, ReplyAnchor::First, limit).len() > 0,
        id@ == reply_page(f, thread_id, op_id, excluded, ReplyAnchor::First, limit).last().id,
    ensures
        ({
            let first = reply_page(f, thread_id, op_id, excluded, ReplyAnchor::First, limit);
            let around = ReplyAnchor::Around(first.last().created_at, id);
            reply_page(f, thread_id, op_id, excluded, around, limit) == first.reverse()
        }),
{
    let first = reply_page(f, thread_id, op_id, excluded, ReplyAnchor::First, limit);
    let n = first.len() as int;
    let c = first.last();
    let around = ReplyAnchor::Around(c.created_at, id);
    let all = anchored_reply(thread_id, op_id, excluded, ReplyAnchor::First);
    let near = anchored_reply(thread_id, op_id, excluded, around);
    let s = f.posts.filter(all);
    let t = sorted(s, ascending());
    let r = f.posts.filter(near);
    let u = sorted(r, descending());
    law_post_orders();
    lemma_filter_distinct_posts(f.posts, all);
    lemma_filter_distinct_posts(f.posts, near);
    lemma_posts_strict(s);
    lemma_posts_strict(r);
    lemma_sorted_rising(s, ascending());
    lemma_sorted_rising(r, descending());
    law_sorted_members(s, ascending());
    law_sorted_members(r, descending());
    lemma_filter_contains(f.posts, all);
    lemma_filter_contains(f.posts, near);
    assert(first =~= t.take(n));
    assert(c == t[n - 1]);
    let v = u.reverse();
    assert(rising(v, ascending())) by {
        assert forall|i: int, j: int| 0 <= i < j < v.len() implies ascending()(
            #[trigger] v[i],
            #[trigger] v[j],
        ) && !ascending()(v[j], v[i]) by {
            let a = u[u.len() - 1 - j];
            let b = u[u.len() - 1 - i];
            assert(descending()(a, b) && !descending()(b, a));
        }
    }
    assert(rising(first, ascending())) by {
        assert forall|i: int, j: int| 0 <= i < j < first.len() implies ascending()(
            #[trigger] first[i],
            #[trigger] first[j],
        ) && !ascending()(first[j], first[i]) by {
            assert(ascending()(t[i], t[j]) && !ascending()(t[j], t[i]));
        }
    }
    assert forall|x: PostRow| #[trigger] v.contains(x) <==> first.contains(x) by {
        if v.contains(x) {
            let i = choose|i: int| 0 <= i < v.len() && v[i] == x;
            assert(u[u.len() - 1 - i] == x);
            assert(u.contains(x));
            assert(r.contains(x));
            assert(s.contains(x));
            assert(t.contains(x));
            let j = choose|j: int| 0 <= j < t.len() && t[j] == x;
            if j >= n {
                assert(!ascending()(t[j], t[n - 1]));
            }
            assert(first[j] == x);
        }
        if first.contains(x) {
            let j = choose|j: int| 0 <= j < first.len() && first[j] == x;
            if j < n - 1 {
                assert(ascending()(t[j], t[n - 1]));
            } else {
                assert(ascending()(x, c) || ascending()(c, x));
            }
            assert(t[j] == x);
            assert(t.contains(x));
            assert(s.contains(x));
            assert(near(x));
            assert(r.contains(x));
            assert(u.contains(x));
            let i = choose|i: int| 0 <= i < u.len() && u[i] == x;
            assert(v[u.len() - 1 - i] == x);
        }
    }
    lemma_rising_unique(v, first, ascending());
    assert(first.reverse() =~= u);
    assert(limited(u, limit) =~= u);
}

/// A page of replies holds neither the original post nor the reply that is shown apart. What is
/// left out takes no room: the page is as long as it was asked for while there are replies.
pub proof fn law_replies_leave_out_what_is_shown_apart(
    f: Forum,
    thread_id: Seq<char>,
    op_id: Seq<char>,
    apart: Seq<char>,
    anchor: ReplyAnchor,
    limit: int,
)
    requires
        0 <= limit,
    ensures
        ({
            let page = reply_page(f, thread_id, op_id, Some(apart), anchor, limit);
            let all = reply_page(f, thread_id, op_id, None, anchor, f.posts.len() as int);
            &&& forall|i: int|
                0 <= i < page.len() ==> (#[trigger] page[i]).thread_id == thread_id && page[i].id
                    != op_id && page[i].id != apart && anchored(anchor, page[i])
            &&& page == limited(all.filter(|p: PostRow| p.id != apart), limit)
        }),
{
    let page = reply_page(f, thread_id, op_id, Some(apart), anchor, limit);
    let without = anchored_reply(thread_id, op_id, Some(apart), anchor);
    let whole = anchored_reply(thread_id, op_id, None, anchor);
    let other = |p: PostRow| p.id != apart;
    let le = if walks_up(anchor) {
        ascending()
    } else {
        descending()
    };
    let s = f.posts.filter(whole);
    law_post_orders();
    lemma_filter_twice(f.posts, whole, other, without);
    law_sorted_filter(s, le, other);
    law_sorted_members(s, le);
    law_sorted_members(f.posts.filter(without), le);
    lemma_filter_contains(f.posts, without);
    assert(s.len() <= f.posts.len()) by {
        f.posts.lemma_filter_len(whole);
    }
    assert(limited(sorted(s, le), f.posts.len() as int) =~= sorted(s, le));
    let t = sorted(f.posts.filter(without), le);
    assert forall|i: int| 0 <= i < page.len() implies (#[trigger] page[i]).thread_id == thread_id
        && page[i].id != op_id && page[i].id != apart && anchored(anchor, page[i]) by {
        assert(t[i] == page[i]);
        assert(t.contains(t[i]));
        assert(f.posts.filter(without).contains(t[i]));
        assert(without(t[i]));
    }
}

/// A cursor parts the replies: each lies either before it or from it on, and either around it or
/// after it.
pub proof fn law_anchors_part_replies(at: i64, id: String, p: PostRow)
    ensures
        anchored(ReplyAnchor::Before(at, id), p) != anchored(ReplyAnchor::From(at, id), p),
        anchored(ReplyAnchor::Around(at, id), p) != anchored(ReplyAnchor::After(at, id), p),
        anchored(ReplyAnchor::From(at, id), p) && anchored(ReplyAnchor::Around(at, id), p) <==> (
        p.created_at == at && p.id == id@),
{
    law_key_less(p.created_at as int, p.id, at as int, id@, 0, id@);
}

// ---------------------------------------------------------------------------
// Activity, the catch-up desk, and bookmarks.
// ---------------------------------------------------------------------------

/// Whether no two events share an identifier.
pub open spec fn distinct_events(events: Seq<ActivityEventRow>) -> bool {
    forall|i: int, j: int|
        0 <= i < events.len() && 0 <= j < events.len() && i != j ==> (#[trigger] events[i]).id != (
        #[trigger] events[j]).id
}

/// Newest-first can order activity.
pub proof fn law_activity_order()
    ensures
        orders(activity_order()),
{
    let le = activity_order();
    assert forall|a: ActivityItemRow, b: ActivityItemRow| #[trigger] le(a, b) || le(b, a) by {
        law_key_less(
            a.event.created_at as int,
            a.event.id,
            b.event.created_at as int,
            b.event.id,
            0,
            a.event.id,
        );
    }
    assert forall|a: ActivityItemRow, b: ActivityItemRow, d: ActivityItemRow| #[trigger]
        le(a, b) && #[trigger] le(b, d) implies le(a, d) by {
        lemma_not_less(
            d.event.created_at as int,
            d.event.id,
            b.event.created_at as int,
            b.event.id,
            a.event.created_at as int,
            a.event.id,
        );
    }
}

/// No two items of a list are of one event.
proof fn lemma_activity_strict(
    f: Forum,
    viewer_sub: Seq<char>,
    filter: ActivityFilter,
    unread_only: bool,
    before: Option<ActivityCursorRow>,
)
    requires
        distinct_events(f.activity_events),
    ensures
        strictly_ordered(
            collected(
                f.activity_events,
                activity_item(f, viewer_sub, filter, unread_only, before),
            ),
            activity_order(),
        ),
{
    let g = activity_item(f, viewer_sub, filter, unread_only, before);
    let s = collected(f.activity_events, g);
    let le = activity_order();
    let k = lemma_collected_sources(f.activity_events, g);
    assert forall|i: int, j: int| 0 <= i < s.len() && 0 <= j < s.len() && i != j implies !(le(
        #[trigger] s[i],
        #[trigger] s[j],
    ) && le(s[j], s[i])) by {
        assert(k[i] != k[j]) by {
            if i < j {
                assert(k[i] < k[j]);
            } else {
                assert(k[j] < k[i]);
            }
        }
        assert(f.activity_events[k[i]].id != f.activity_events[k[j]].id);
        assert(g(f.activity_events[k[i]]) == Some(s[i]));
        assert(g(f.activity_events[k[j]]) == Some(s[j]));
        law_key_less(
            s[i].event.created_at as int,
            s[i].event.id,
            s[j].event.created_at as int,
            s[j].event.id,
            0,
            s[i].event.id,
        );
    }
}

/// Reading on behind the last event of a full page neither skips nor repeats an event.
pub proof fn law_activity_pages(
    f: Forum,
    viewer_sub: Seq<char>,
    filter: ActivityFilter,
    unread_only: bool,
    n: int,
    m: int,
)
    requires
        distinct_events(f.activity_events),
        0 < n,
        0 <= m,
        activity_stream(f, viewer_sub, filter, unread_only, None, n).len() == n,
    ensures
        ({
            let first = activity_stream(f, viewer_sub, filter, unread_only, None, n);
            let cursor = ActivityCursorRow {
                created_at: first.last().event.created_at,
                id: first.last().event.id,
            };
            first + activity_stream(f, viewer_sub, filter, unread_only, Some(cursor), m)
                == activity_stream(f, viewer_sub, filter, unread_only, None, n + m)
        }),
{
    let first = activity_stream(f, viewer_sub, filter, unread_only, None, n);
    let c = first.last();
    let cursor = ActivityCursorRow { created_at: c.event.created_at, id: c.event.id };
    let g = activity_item(f, viewer_sub, filter, unread_only, None);
    let h = activity_item(f, viewer_sub, filter, unread_only, Some(cursor));
    let s = collected(f.activity_events, g);
    let le = activity_order();
    law_activity_order();
    lemma_activity_strict(f, viewer_sub, filter, unread_only, None);
    law_sorted_members(s, le);
    law_page_continues(s, le, n, m);
    let q = behind_row(le, c);
    assert forall|e: ActivityEventRow|
        #[trigger] h(e) == match g(e) {
            Some(b) => if q(b) {
                Some(b)
            } else {
                None
            },
            None => None,
        } by {}
    lemma_collected_filter(f.activity_events, g, h, q);
}

/// The activity that reached a viewer for a reason.
pub open spec fn reached_for(reason: ActivityReason) -> spec_fn(ActivityItemRow) -> bool {
    |item: ActivityItemRow| item.reason == reason
}

/// A page for one reason is what the whole list has for that reason, in the same order. The list
/// goes strictly down by time and identifier when no two events share an identifier, so it shows an
/// event once, and narrowed to what is unread it shows nothing read.
pub proof fn law_activity_narrows_to_a_reason(
    f: Forum,
    viewer_sub: Seq<char>,
    reason: ActivityReason,
    unread_only: bool,
    before: Option<ActivityCursorRow>,
    limit: int,
)
    requires
        0 <= limit,
    ensures
        ({
            let every = f.activity_events.len() as int;
            let whole = activity_stream(
                f,
                viewer_sub,
                ActivityFilter::All,
                unread_only,
                before,
                every,
            );
            let narrow = activity_stream(
                f,
                viewer_sub,
                ActivityFilter::Reason(reason),
                unread_only,
                before,
                limit,
            );
            &&& narrow == limited(whole.filter(reached_for(reason)), limit)
            &&& every <= limit ==> narrow == activity_stream(
                f,
                viewer_sub,
                ActivityFilter::All,
                unread_only,
                before,
                limit,
            ).filter(reached_for(reason))
            &&& distinct_events(f.activity_events) ==> forall|i: int, j: int|
                0 <= i < j < whole.len() ==> key_less(
                    (#[trigger] whole[j]).event.created_at as int,
                    whole[j].event.id,
                    (#[trigger] whole[i]).event.created_at as int,
                    whole[i].event.id,
                )
            &&& unread_only ==> forall|i: int| 0 <= i < whole.len() ==> !(#[trigger] whole[i]).read
        }),
{
    let g = activity_item(f, viewer_sub, ActivityFilter::All, unread_only, before);
    let h = activity_item(f, viewer_sub, ActivityFilter::Reason(reason), unread_only, before);
    let s = collected(f.activity_events, g);
    let le = activity_order();
    let q = reached_for(reason);
    let every = f.activity_events.len() as int;
    law_activity_order();
    lemma_collected_len(f.activity_events, g);
    lemma_collected_filter(f.activity_events, g, h, q);
    law_sorted_filter(s, le, q);
    law_sorted_members(s, le);
    let t = sorted(s, le);
    assert(limited(t, every) =~= t);
    if every <= limit {
        assert(limited(t, limit) =~= t);
        t.lemma_filter_len(q);
        assert(limited(t.filter(q), limit) =~= t.filter(q));
    }
    let k = lemma_collected_sources(f.activity_events, g);
    if distinct_events(f.activity_events) {
        lemma_activity_strict(f, viewer_sub, ActivityFilter::All, unread_only, before);
        lemma_sorted_rising(s, le);
    }
    assert forall|i: int| unread_only && 0 <= i < t.len() implies !(#[trigger] t[i]).read by {
        assert(t.contains(t[i]));
        let j = choose|j: int| 0 <= j < s.len() && s[j] == t[i];
        assert(g(f.activity_events[k[j]]) == Some(s[j]));
    }
}

/// Whether no two threads share an identifier.
pub open spec fn distinct_threads(threads: Seq<ThreadRow>) -> bool {
    forall|i: int, j: int|
        0 <= i < threads.len() && 0 <= j < threads.len() && i != j ==> (#[trigger] threads[i]).id
            != (#[trigger] threads[j]).id
}

/// Reading on behind the last thread of a full catch-up page, in the same view and snapshot,
/// neither skips nor repeats a thread.
pub proof fn law_catch_up_pages(f: Forum, q: CatchUpQuery, n: int, m: int)
    requires
        distinct_threads(f.threads),
        q.before is None,
        0 < n,
        0 <= m,
        n + m <= MAX_CATCH_UP_PAGE + 1,
        catch_up(f, q, n) is Ok,
        catch_up(f, q, n)->Ok_0.len() == n,
        catch_up(f, q, n)->Ok_0.last().activity_at >= 0,
        !blank_text(catch_up(f, q, n)->Ok_0.last().thread.id),
    ensures
        ({
            let first = catch_up(f, q, n)->Ok_0;
            let cursor = CatchUpCursorRow {
                view: q.view,
                as_of: q.as_of,
                snapshot_generation: q.generation,
                activity_at: first.last().activity_at,
                thread_id: first.last().thread.id,
            };
            let next = CatchUpQuery { before: Some(cursor), ..q };
            &&& catch_up(f, next, m) is Ok
            &&& catch_up(f, q, n + m) is Ok
            &&& first + catch_up(f, next, m)->Ok_0 == catch_up(f, q, n + m)->Ok_0
        }),
{
    let first = catch_up(f, q, n)->Ok_0;
    let c = first.last();
    let cursor = CatchUpCursorRow {
        view: q.view,
        as_of: q.as_of,
        snapshot_generation: q.generation,
        activity_at: c.activity_at,
        thread_id: c.thread.id,
    };
    let next = CatchUpQuery { before: Some(cursor), ..q };
    let g = catch_up_item(f, q);
    let h = catch_up_item(f, next);
    let s = collected(f.threads, g);
    let le = catch_up_order();
    assert(orders(le)) by {
        assert forall|a: CatchUpItemRow, b: CatchUpItemRow| #[trigger] le(a, b) || le(b, a) by {
            law_key_less(
                a.activity_at as int,
                a.thread.id,
                b.activity_at as int,
                b.thread.id,
                0,
                a.thread.id,
            );
        }
        assert forall|a: CatchUpItemRow, b: CatchUpItemRow, d: CatchUpItemRow| #[trigger]
            le(a, b) && #[trigger] le(b, d) implies le(a, d) by {
            lemma_not_less(
                d.activity_at as int,
                d.thread.id,
                b.activity_at as int,
                b.thread.id,
                a.activity_at as int,
                a.thread.id,
            );
        }
    }
    let k = lemma_collected_sources(f.threads, g);
    assert forall|i: int| 0 <= i < s.len() implies (#[trigger] s[i]).thread.id
        == f.threads[k[i]].id && s[i].activity_at <= q.as_of by {
        assert(g(f.threads[k[i]]) == Some(s[i]));
        lemma_activity_within(f, q, f.threads[k[i]]);
    }
    assert(strictly_ordered(s, le)) by {
        assert forall|i: int, j: int| 0 <= i < s.len() && 0 <= j < s.len() && i != j implies !(le(
            #[trigger] s[i],
            #[trigger] s[j],
        ) && le(s[j], s[i])) by {
            assert(k[i] != k[j]) by {
                if i < j {
                    assert(k[i] < k[j]);
                } else {
                    assert(k[j] < k[i]);
                }
            }
            assert(f.threads[k[i]].id != f.threads[k[j]].id);
            law_key_less(
                s[i].activity_at as int,
                s[i].thread.id,
                s[j].activity_at as int,
                s[j].thread.id,
                0,
                s[i].thread.id,
            );
        }
    }
    law_sorted_members(s, le);
    law_page_continues(s, le, n, m);
    assert(sorted(s, le).contains(c)) by {
        assert(sorted(s, le)[n - 1] == c);
    }
    assert(s.contains(c));
    let x = choose|x: int| 0 <= x < s.len() && s[x] == c;
    assert(c.activity_at <= q.as_of);
    let r = behind_row(le, c);
    assert forall|t: ThreadRow|
        #[trigger] h(t) == match g(t) {
            Some(b) => if r(b) {
                Some(b)
            } else {
                None
            },
            None => None,
        } by {}
    lemma_collected_filter(f.threads, g, h, r);
    assert(limited(sorted(collected(f.threads, h), le), m).len() >= 0);
    if m == 0 {
        assert(first + Seq::<CatchUpItemRow>::empty() =~= first);
    }
}

/// A thread on the desk was last active inside the snapshot.
proof fn lemma_activity_within(f: Forum, q: CatchUpQuery, t: ThreadRow)
    requires
        catch_up_item(f, q)(t) is Some,
    ensures
        catch_up_item(f, q)(t)->0.activity_at <= q.as_of,
{
    let points = snapshot_points(f, q.as_of, q.generation);
    lemma_filter_contains(f.post_points, point_within(q.as_of, q.generation));
    lemma_latest_within(points, t.id, q.as_of);
}

proof fn lemma_latest_within(points: Seq<CatchUpPostPointRow>, thread_id: Seq<char>, as_of: i64)
    requires
        forall|p: CatchUpPostPointRow| #[trigger] points.contains(p) ==> p.activity_at <= as_of,
    ensures
        match latest_activity(points, thread_id) {
            Some(at) => at <= as_of,
            None => true,
        },
    decreases points.len(),
{
    if points.len() > 0 {
        let d = points.drop_last();
        assert forall|p: CatchUpPostPointRow| #[trigger] d.contains(p) implies p.activity_at
            <= as_of by {
            let i = choose|i: int| 0 <= i < d.len() && d[i] == p;
            assert(points[i] == p);
            assert(points.contains(p));
        }
        lemma_latest_within(d, thread_id, as_of);
        assert(points.contains(points.last()));
    }
}

/// Whether an owner bookmarks no post twice.
pub open spec fn distinct_bookmarks(bookmarks: Seq<BookmarkRow>) -> bool {
    forall|i: int, j: int|
        0 <= i < bookmarks.len() && 0 <= j < bookmarks.len() && i != j && (
        #[trigger] bookmarks[i]).owner_sub == (#[trigger] bookmarks[j]).owner_sub
            ==> bookmarks[i].post_id != bookmarks[j].post_id
}

/// Reading on behind the last bookmark of a full page neither skips nor repeats a bookmark.
pub proof fn law_bookmark_pages(
    f: Forum,
    owner_sub: Seq<char>,
    state: BookmarkState,
    now: i64,
    n: int,
    m: int,
)
    requires
        distinct_bookmarks(f.bookmarks),
        0 < n,
        0 <= m,
        n + m <= MAX_BOOKMARK_PAGE + 1,
        bookmark_list(f, owner_sub, state, None, n, now).len() == n,
    ensures
        ({
            let first = bookmark_list(f, owner_sub, state, None, n, now);
            let cursor = BookmarkCursorRow {
                sort_at: bookmark_sort_at(state, first.last().bookmark),
                post_id: first.last().bookmark.post_id,
            };
            first + bookmark_list(f, owner_sub, state, Some(cursor), m, now) == bookmark_list(
                f,
                owner_sub,
                state,
                None,
                n + m,
                now,
            )
        }),
{
    let first = bookmark_list(f, owner_sub, state, None, n, now);
    let c = first.last();
    let cursor = BookmarkCursorRow {
        sort_at: bookmark_sort_at(state, c.bookmark),
        post_id: c.bookmark.post_id,
    };
    let g = bookmark_listed(f, owner_sub, state, None, now);
    let h = bookmark_listed(f, owner_sub, state, Some(cursor), now);
    let s = collected(f.bookmarks, g);
    let le = bookmark_order(state);
    assert(orders(le)) by {
        assert forall|a: BookmarkItemRow, b: BookmarkItemRow| #[trigger] le(a, b) || le(b, a) by {
            law_key_less(
                bookmark_sort_at(state, a.bookmark) as int,
                a.bookmark.post_id,
                bookmark_sort_at(state, b.bookmark) as int,
                b.bookmark.post_id,
                0,
                a.bookmark.post_id,
            );
        }
        assert forall|a: BookmarkItemRow, b: BookmarkItemRow, d: BookmarkItemRow| #[trigger]
            le(a, b) && #[trigger] le(b, d) implies le(a, d) by {
            let (x, y, z) = (a.bookmark, b.bookmark, d.bookmark);
            lemma_not_less(
                bookmark_sort_at(state, x) as int,
                x.post_id,
                bookmark_sort_at(state, y) as int,
                y.post_id,
                bookmark_sort_at(state, z) as int,
                z.post_id,
            );
            lemma_not_less(
                bookmark_sort_at(state, z) as int,
                z.post_id,
                bookmark_sort_at(state, y) as int,
                y.post_id,
                bookmark_sort_at(state, x) as int,
                x.post_id,
            );
        }
    }
    let k = lemma_collected_sources(f.bookmarks, g);
    assert forall|i: int| 0 <= i < s.len() implies (#[trigger] s[i]).bookmark == f.bookmarks[k[i]]
        && s[i].bookmark.owner_sub == owner_sub by {
        assert(g(f.bookmarks[k[i]]) == Some(s[i]));
    }
    assert(strictly_ordered(s, le)) by {
        assert forall|i: int, j: int| 0 <= i < s.len() && 0 <= j < s.len() && i != j implies !(le(
            #[trigger] s[i],
            #[trigger] s[j],
        ) && le(s[j], s[i])) by {
            assert(k[i] != k[j]) by {
                if i < j {
                    assert(k[i] < k[j]);
                } else {
                    assert(k[j] < k[i]);
                }
            }
            assert(f.bookmarks[k[i]].post_id != f.bookmarks[k[j]].post_id);
            law_key_less(
                bookmark_sort_at(state, s[i].bookmark) as int,
                s[i].bookmark.post_id,
                bookmark_sort_at(state, s[j].bookmark) as int,
                s[j].bookmark.post_id,
                0,
                s[i].bookmark.post_id,
            );
        }
    }
    law_sorted_members(s, le);
    law_page_continues(s, le, n, m);
    let q = behind_row(le, c);
    assert forall|b: BookmarkRow|
        #[trigger] h(b) == match g(b) {
            Some(x) => if q(x) {
                Some(x)
            } else {
                None
            },
            None => None,
        } by {}
    lemma_collected_filter(f.bookmarks, g, h, q);
}

} // verus!
