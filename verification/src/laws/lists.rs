//! What ordered lists promise.

use vstd::prelude::*;

use crate::laws::order::{
    law_sorted, law_sorted_members, law_text_less_total, law_text_less_transitive, orders,
};
use crate::laws::tables::lemma_count_bound;
use crate::model::{BannedAuthorRow, CategoryRow, MentionRow, ThreadRow, ThreadSearchHitRow};
use crate::rows::{
    collected, count_rows, deduped, lemma_deduped, lemma_filter_contains, lemma_push_contains,
    some_row, sorted,
};
use crate::store::categories::category_order;
use crate::store::focus::{focus_item, focus_order, focus_page, rule_item_order};
use crate::store::memory::Forum;
use crate::store::posting::mention_order;
use crate::store::reactions::ban_order;
use crate::store::tables::{display_order, more_recent, public_row, recency_order};
use crate::store::threads::{
    Heat, RankedThreadRow, hit_order, list_admits, rank_order, ranked_in, solved_in, thread_list,
};
use crate::store::types::{
    CategoryFocusItemRow, CategoryFocusRuleItemRow, MAX_CATEGORY_FOCUS_PAGE, ThreadSort,
    ThreadStatusFilter,
};
use crate::text::text_less;
use crate::texts::is_text;
use crate::textsim::{dot, occurrences, tokens};

verus! {

// ---------------------------------------------------------------------------
// The orders.
// ---------------------------------------------------------------------------

proof fn lemma_more_recent(a: ThreadRow, b: ThreadRow, c: ThreadRow)
    ensures
        !(more_recent(a, b) && more_recent(b, a)),
        !more_recent(b, a) && !more_recent(c, b) ==> !more_recent(c, a),
{
    law_text_less_total(a.id, b.id);
    law_text_less_total(b.id, c.id);
    law_text_less_total(a.id, c.id);
    if text_less(a.id, b.id) && text_less(b.id, c.id) {
        law_text_less_transitive(a.id, b.id, c.id);
    }
    if text_less(c.id, b.id) && text_less(b.id, a.id) {
        law_text_less_transitive(c.id, b.id, a.id);
    }
}

/// Thread lists, focus pages, and search hits are ordered.
pub proof fn law_thread_orders(sort: ThreadSort)
    ensures
        orders(display_order()),
        orders(recency_order()),
        orders(rank_order(sort)),
        orders(focus_order()),
        orders(hit_order()),
{
    assert forall|a: ThreadRow, b: ThreadRow| #[trigger] display_order()(a, b) || display_order()(
        b,
        a,
    ) by {
        lemma_more_recent(a, b, b);
    }
    assert forall|a: ThreadRow, b: ThreadRow, c: ThreadRow| #[trigger]
        display_order()(a, b) && #[trigger] display_order()(b, c) implies display_order()(a, c) by {
        lemma_more_recent(a, b, c);
    }
    assert forall|a: ThreadRow, b: ThreadRow| #[trigger] recency_order()(a, b) || recency_order()(
        b,
        a,
    ) by {
        lemma_more_recent(a, b, b);
    }
    assert forall|a: ThreadRow, b: ThreadRow, c: ThreadRow| #[trigger]
        recency_order()(a, b) && #[trigger] recency_order()(b, c) implies recency_order()(a, c) by {
        lemma_more_recent(a, b, c);
    }
    let rank = rank_order(sort);
    assert forall|a: RankedThreadRow, b: RankedThreadRow| #[trigger] rank(a, b) || rank(b, a) by {
        lemma_more_recent(a.thread, b.thread, b.thread);
    }
    assert forall|a: RankedThreadRow, b: RankedThreadRow, c: RankedThreadRow| #[trigger]
        rank(a, b) && #[trigger] rank(b, c) implies rank(a, c) by {
        lemma_more_recent(a.thread, b.thread, c.thread);
    }
    let focus = focus_order();
    assert forall|a: CategoryFocusItemRow, b: CategoryFocusItemRow| #[trigger]
        focus(a, b) || focus(b, a) by {
        lemma_more_recent(a.thread, b.thread, b.thread);
    }
    assert forall|a: CategoryFocusItemRow, b: CategoryFocusItemRow, c: CategoryFocusItemRow|
        #[trigger]
        focus(a, b) && #[trigger] focus(b, c) implies focus(a, c) by {
        lemma_more_recent(a.thread, b.thread, c.thread);
    }
    let hit = hit_order();
    assert forall|a: ThreadSearchHitRow, b: ThreadSearchHitRow| #[trigger] hit(a, b) || hit(b, a) by {
        lemma_more_recent(a.thread, b.thread, b.thread);
    }
    assert forall|a: ThreadSearchHitRow, b: ThreadSearchHitRow, c: ThreadSearchHitRow| #[trigger]
        hit(a, b) && #[trigger] hit(b, c) implies hit(a, c) by {
        lemma_more_recent(a.thread, b.thread, c.thread);
    }
}

proof fn lemma_texts(a: Seq<char>, b: Seq<char>, c: Seq<char>)
    ensures
        !(text_less(a, b) && text_less(b, a)),
        !text_less(b, a) && !text_less(c, b) ==> !text_less(c, a),
{
    law_text_less_total(a, b);
    law_text_less_total(b, c);
    law_text_less_total(a, c);
    if text_less(a, b) && text_less(b, c) {
        law_text_less_transitive(a, b, c);
    }
}

/// Category lists, focus rules, mentions, and bans are ordered.
pub proof fn law_record_orders()
    ensures
        orders(category_order()),
        orders(rule_item_order()),
        orders(mention_order()),
        orders(ban_order()),
{
    let cat = category_order();
    assert forall|a: CategoryRow, b: CategoryRow| #[trigger] cat(a, b) || cat(b, a) by {
        lemma_texts(a.name, b.name, b.name);
    }
    assert forall|a: CategoryRow, b: CategoryRow, c: CategoryRow| #[trigger]
        cat(a, b) && #[trigger] cat(b, c) implies cat(a, c) by {
        lemma_texts(a.name, b.name, c.name);
    }
    let rule = rule_item_order();
    assert forall|a: CategoryFocusRuleItemRow, b: CategoryFocusRuleItemRow| #[trigger]
        rule(a, b) || rule(b, a) by {
        lemma_texts(a.category.id, b.category.id, b.category.id);
    }
    assert forall|
        a: CategoryFocusRuleItemRow,
        b: CategoryFocusRuleItemRow,
        c: CategoryFocusRuleItemRow,
    | #[trigger]
        rule(a, b) && #[trigger] rule(b, c) implies rule(a, c) by {
        lemma_texts(a.category.id, b.category.id, c.category.id);
    }
    let mention = mention_order();
    assert forall|a: MentionRow, b: MentionRow| #[trigger] mention(a, b) || mention(b, a) by {
        lemma_texts(a.post_id, b.post_id, b.post_id);
    }
    assert forall|a: MentionRow, b: MentionRow, c: MentionRow| #[trigger]
        mention(a, b) && #[trigger] mention(b, c) implies mention(a, c) by {
        lemma_texts(c.post_id, b.post_id, a.post_id);
    }
    let ban = ban_order();
    assert forall|a: BannedAuthorRow, b: BannedAuthorRow| #[trigger] ban(a, b) || ban(b, a) by {
        lemma_texts(a.author_sub, b.author_sub, b.author_sub);
    }
    assert forall|a: BannedAuthorRow, b: BannedAuthorRow, c: BannedAuthorRow| #[trigger]
        ban(a, b) && #[trigger] ban(b, c) implies ban(a, c) by {
        lemma_texts(a.author_sub, b.author_sub, c.author_sub);
    }
}

// ---------------------------------------------------------------------------
// The lists.
// ---------------------------------------------------------------------------

/// Whether a row shows a thread that a list admits.
pub open spec fn shown_from(f: Forum, admits: spec_fn(ThreadRow) -> bool, row: ThreadRow) -> bool {
    exists|n: int|
        0 <= n < f.threads.len() && admits(#[trigger] f.threads[n]) && row == public_row(
            f.threads[n],
            solved_in(f, f.threads[n]),
        )
}

/// A list shows at most the requested number of threads, pinned ones first in every mode, and
/// shows threads of its scope only.
pub proof fn law_thread_list(
    f: Forum,
    category_id: Option<Seq<char>>,
    sort: ThreadSort,
    subscribed_sub: Option<Seq<char>>,
    status: ThreadStatusFilter,
    limit: int,
    heat: Seq<Heat>,
)
    ensures
        ({
            let page = thread_list(f, category_id, sort, subscribed_sub, status, limit, heat);
            &&& page.len() <= if limit > 0 {
                limit
            } else {
                0
            }
            &&& forall|i: int, j: int|
                0 <= i < j < page.len() && (#[trigger] page[j]).pinned ==> (
                #[trigger] page[i]).pinned
            &&& forall|i: int|
                0 <= i < page.len() ==> shown_from(
                    f,
                    list_admits(f, category_id, subscribed_sub, status),
                    #[trigger] page[i],
                )
            &&& limit >= f.threads.len() ==> page.len() == count_rows(
                f.threads,
                list_admits(f, category_id, subscribed_sub, status),
            )
        }),
{
    let admits = list_admits(f, category_id, subscribed_sub, status);
    let kept = f.threads.filter(admits);
    let rows = kept.map_values(ranked_in(f, heat));
    let ranked = sorted(rows, rank_order(sort));
    let page = thread_list(f, category_id, sort, subscribed_sub, status, limit, heat);
    law_thread_orders(sort);
    law_sorted(rows, rank_order(sort));
    law_sorted_members(rows, rank_order(sort));
    lemma_count_bound(f.threads, admits);
    assert forall|i: int, j: int| 0 <= i < j < page.len() && (#[trigger] page[j]).pinned implies (
    #[trigger] page[i]).pinned by {
        assert(rank_order(sort)(ranked[i], ranked[j]));
    }
    assert forall|i: int| 0 <= i < page.len() implies shown_from(
        f,
        admits,
        #[trigger] page[i],
    ) by {
        assert(ranked.contains(ranked[i]));
        let k = choose|k: int| 0 <= k < rows.len() && rows[k] == ranked[i];
        lemma_filter_contains(f.threads, admits);
        assert(kept.contains(kept[k]));
        let n = choose|n: int| 0 <= n < f.threads.len() && f.threads[n] == kept[k];
        assert(admits(f.threads[n]));
        assert(public_row(f.threads[n], solved_in(f, f.threads[n])) == page[i]);
    }
}

/// A focus page shows priorities before followed categories, and those before single threads.
pub proof fn law_focus_page_is_grouped(f: Forum, viewer_sub: Seq<char>, limit: int, as_of: i64)
    requires
        focus_page(f, viewer_sub, limit, as_of) is Ok,
    ensures
        ({
            let page = focus_page(f, viewer_sub, limit, as_of)->Ok_0;
            &&& page.len() <= MAX_CATEGORY_FOCUS_PAGE
            &&& forall|i: int, j: int|
                0 <= i < j < page.len() ==> (#[trigger] page[i]).reason.bucket() <= (
                #[trigger] page[j]).reason.bucket()
        }),
{
    let page = focus_page(f, viewer_sub, limit, as_of)->Ok_0;
    let items = collected(f.threads, focus_item(f, viewer_sub, as_of));
    let all = sorted(items, focus_order());
    law_thread_orders(ThreadSort::Latest);
    law_sorted(items, focus_order());
    assert forall|i: int, j: int| 0 <= i < j < page.len() implies (
    #[trigger] page[i]).reason.bucket() <= (#[trigger] page[j]).reason.bucket() by {
        assert(focus_order()(all[i], all[j]));
    }
}

/// The category list holds every category once, by sort order and name.
pub proof fn law_category_list(f: Forum)
    ensures
        sorted(f.categories, category_order()).to_multiset() =~= f.categories.to_multiset(),
        forall|i: int, j: int|
            0 <= i < j < f.categories.len() ==> (#[trigger] sorted(
                f.categories,
                category_order(),
            )[i]).sort_order <= (#[trigger] sorted(f.categories, category_order())[j]).sort_order,
{
    law_record_orders();
    law_sorted(f.categories, category_order());
    let s = sorted(f.categories, category_order());
    assert forall|i: int, j: int| 0 <= i < j < s.len() implies (#[trigger] s[i]).sort_order <= (
    #[trigger] s[j]).sort_order by {
        assert(category_order()(s[i], s[j]));
    }
}

// ---------------------------------------------------------------------------
// Similarity.
// ---------------------------------------------------------------------------

proof fn lemma_dot_remove(
    terms: Seq<Seq<char>>,
    i: int,
    a: Seq<Seq<char>>,
    b: Seq<Seq<char>>,
)
    requires
        0 <= i < terms.len(),
    ensures
        dot(terms, a, b) == dot(terms.remove(i), a, b) + occurrences(a, terms[i]) * occurrences(
            b,
            terms[i],
        ),
    decreases terms.len(),
{
    if i == terms.len() - 1 {
        assert(terms.remove(i) =~= terms.drop_last());
    } else {
        lemma_dot_remove(terms.drop_last(), i, a, b);
        assert(terms.remove(i).drop_last() =~= terms.drop_last().remove(i));
        assert(terms.remove(i).last() == terms.last());
    }
}

/// The product sum depends on the terms that both texts have.
proof fn lemma_dot_agree(
    s: Seq<Seq<char>>,
    t: Seq<Seq<char>>,
    a: Seq<Seq<char>>,
    b: Seq<Seq<char>>,
)
    requires
        s.no_duplicates(),
        t.no_duplicates(),
        forall|x: Seq<char>|
            occurrences(a, x) * #[trigger] occurrences(b, x) > 0 ==> (s.contains(x)
                <==> t.contains(x)),
    ensures
        dot(s, a, b) == dot(t, a, b),
    decreases s.len() + t.len(),
{
    if s.len() == 0 {
        if t.len() > 0 {
            let y = t.last();
            assert(t.contains(y)) by {
                assert(t[t.len() - 1] == y);
            }
            assert(occurrences(a, y) * occurrences(b, y) == 0) by {
                if occurrences(a, y) * occurrences(b, y) > 0 {
                    assert(s.contains(y));
                }
            }
            let d = t.drop_last();
            assert forall|x: Seq<char>|
                occurrences(a, x) * #[trigger] occurrences(b, x) > 0 implies (s.contains(x)
                <==> d.contains(x)) by {
                lemma_push_contains(d, y, x);
                assert(t =~= d.push(y));
            }
            lemma_dot_agree(s, d, a, b);
        }
    } else {
        let x0 = s.last();
        let d = s.drop_last();
        assert(s =~= d.push(x0));
        assert(!d.contains(x0)) by {
            if d.contains(x0) {
                let k = choose|k: int| 0 <= k < d.len() && d[k] == x0;
                assert(s[k] == s[s.len() - 1]);
            }
        }
        if occurrences(a, x0) * occurrences(b, x0) > 0 {
            assert(s.contains(x0)) by {
                assert(s[s.len() - 1] == x0);
            }
            assert(t.contains(x0));
            let i = choose|i: int| 0 <= i < t.len() && t[i] == x0;
            let r = t.remove(i);
            lemma_dot_remove(t, i, a, b);
            assert forall|x: Seq<char>| #[trigger] r.contains(x) <==> t.contains(x) && x != x0 by {
                if r.contains(x) {
                    let k = choose|k: int| 0 <= k < r.len() && r[k] == x;
                    let from = if k < i {
                        k
                    } else {
                        k + 1
                    };
                    assert(t[from] == x);
                    assert(t[from] != t[i]);
                }
                if t.contains(x) && x != x0 {
                    let k = choose|k: int| 0 <= k < t.len() && t[k] == x;
                    let to = if k < i {
                        k
                    } else {
                        k - 1
                    };
                    assert(r[to] == x);
                }
            }
            assert(r.no_duplicates()) by {
                assert forall|p: int, q: int|
                    0 <= p < r.len() && 0 <= q < r.len() && p != q implies r[p] != r[q] by {
                    let from_p = if p < i {
                        p
                    } else {
                        p + 1
                    };
                    let from_q = if q < i {
                        q
                    } else {
                        q + 1
                    };
                    assert(t[from_p] != t[from_q]);
                }
            }
            assert forall|x: Seq<char>|
                occurrences(a, x) * #[trigger] occurrences(b, x) > 0 implies (d.contains(x)
                <==> r.contains(x)) by {
                lemma_push_contains(d, x0, x);
            }
            lemma_dot_agree(d, r, a, b);
        } else {
            assert(occurrences(a, x0) * occurrences(b, x0) >= 0) by (nonlinear_arith);
            assert forall|x: Seq<char>|
                occurrences(a, x) * #[trigger] occurrences(b, x) > 0 implies (d.contains(x)
                <==> t.contains(x)) by {
                lemma_push_contains(d, x0, x);
            }
            lemma_dot_agree(d, t, a, b);
        }
    }
}

proof fn lemma_dot_commutes(terms: Seq<Seq<char>>, a: Seq<Seq<char>>, b: Seq<Seq<char>>)
    ensures
        dot(terms, a, b) == dot(terms, b, a),
    decreases terms.len(),
{
    if terms.len() > 0 {
        lemma_dot_commutes(terms.drop_last(), a, b);
        let x = occurrences(a, terms.last());
        let y = occurrences(b, terms.last());
        assert(x * y == y * x) by (nonlinear_arith);
    }
}

/// Two texts are as similar as they are the other way round, and texts without a common term are
/// not similar at all.
pub proof fn law_similarity_is_symmetric(a: Seq<char>, b: Seq<char>)
    ensures
        dot(deduped(tokens(a)), tokens(a), tokens(b)) == dot(
            deduped(tokens(b)),
            tokens(b),
            tokens(a),
        ),
        (forall|x: Seq<char>| #[trigger] tokens(a).contains(x) ==> !tokens(b).contains(x)) ==> dot(
            deduped(tokens(a)),
            tokens(a),
            tokens(b),
        ) == 0,
{
    let s = deduped(tokens(a));
    let t = deduped(tokens(b));
    lemma_deduped(tokens(a));
    lemma_deduped(tokens(b));
    assert forall|x: Seq<char>|
        occurrences(tokens(a), x) * #[trigger] occurrences(tokens(b), x) > 0 implies (s.contains(x)
        <==> t.contains(x)) by {
        lemma_occurs(tokens(a), x);
        lemma_occurs(tokens(b), x);
        assert(occurrences(tokens(a), x) > 0 && occurrences(tokens(b), x) > 0) by (nonlinear_arith)
            requires
                occurrences(tokens(a), x) * occurrences(tokens(b), x) > 0,
        ;
    }
    lemma_dot_agree(s, t, tokens(a), tokens(b));
    lemma_dot_commutes(t, tokens(a), tokens(b));
    if forall|x: Seq<char>| #[trigger] tokens(a).contains(x) ==> !tokens(b).contains(x) {
        assert forall|i: int| 0 <= i < s.len() implies !tokens(b).contains(#[trigger] s[i]) by {
            assert(s.contains(s[i]));
            assert(tokens(a).contains(s[i]));
        }
        lemma_dot_disjoint(s, tokens(a), tokens(b));
    }
}

proof fn lemma_occurs(s: Seq<Seq<char>>, x: Seq<char>)
    ensures
        occurrences(s, x) > 0 <==> s.contains(x),
{
    let p = is_text(x);
    lemma_count_bound(s, p);
    if s.contains(x) {
        let i = choose|i: int| 0 <= i < s.len() && s[i] == x;
        assert(p(s[i]));
        assert(some_row(s, p));
    }
    if some_row(s, p) {
        let i = choose|i: int| 0 <= i < s.len() && p(#[trigger] s[i]);
        assert(s[i] == x);
    }
}

proof fn lemma_dot_disjoint(terms: Seq<Seq<char>>, a: Seq<Seq<char>>, b: Seq<Seq<char>>)
    requires
        forall|i: int| 0 <= i < terms.len() ==> !b.contains(#[trigger] terms[i]),
    ensures
        dot(terms, a, b) == 0,
    decreases terms.len(),
{
    if terms.len() > 0 {
        let d = terms.drop_last();
        assert forall|i: int| 0 <= i < d.len() implies !b.contains(#[trigger] d[i]) by {
            assert(!b.contains(terms[i]));
        }
        lemma_dot_disjoint(d, a, b);
        let x = terms.last();
        assert(!b.contains(terms[terms.len() - 1]));
        lemma_occurs(b, x);
        assert(occurrences(a, x) * occurrences(b, x) == 0) by (nonlinear_arith)
            requires
                occurrences(b, x) == 0,
        ;
    }
}

} // verus!
