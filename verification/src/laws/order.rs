//! Orders, sorted lists, and pages of them.

use vstd::prelude::*;

use crate::laws::tables::{distinct_by, lemma_distinct_push};
use crate::rows::{
    insert_sorted, lemma_filter_contains, lemma_filter_push, lemma_push_contains, sorted,
};
use crate::store::threads::key_less;
use crate::text::text_less;
use crate::texts::{ordered_set, text_le};

verus! {

// ---------------------------------------------------------------------------
// The order of texts.
// ---------------------------------------------------------------------------

/// No text stands before itself.
pub proof fn law_text_less_irreflexive(a: Seq<char>)
    ensures
        !text_less(a, a),
    decreases a.len(),
{
    if a.len() > 0 {
        law_text_less_irreflexive(a.drop_first());
    }
}

/// A text that stands before a second one stands before everything behind it.
pub proof fn law_text_less_transitive(a: Seq<char>, b: Seq<char>, c: Seq<char>)
    requires
        text_less(a, b),
        text_less(b, c),
    ensures
        text_less(a, c),
    decreases a.len(),
{
    if a.len() > 0 && a[0] == b[0] && b[0] == c[0] {
        law_text_less_transitive(a.drop_first(), b.drop_first(), c.drop_first());
    }
}

/// Of two different texts exactly one stands before the other.
pub proof fn law_text_less_total(a: Seq<char>, b: Seq<char>)
    ensures
        a == b || text_less(a, b) || text_less(b, a),
        !(text_less(a, b) && text_less(b, a)),
    decreases a.len(),
{
    if a.len() > 0 && b.len() > 0 {
        if a[0] == b[0] {
            law_text_less_total(a.drop_first(), b.drop_first());
            if a.drop_first() == b.drop_first() {
                assert(a =~= seq![a[0]] + a.drop_first());
                assert(b =~= seq![b[0]] + b.drop_first());
            }
        }
    } else if a.len() == 0 && b.len() == 0 {
        assert(a =~= b);
    }
}

/// The cursor order is a strict total order.
pub proof fn law_key_less(at: int, id: Seq<char>, at2: int, id2: Seq<char>, at3: int, id3: Seq<char>)
    ensures
        !key_less(at, id, at, id),
        key_less(at, id, at2, id2) && key_less(at2, id2, at3, id3) ==> key_less(at, id, at3, id3),
        (at == at2 && id == id2) || key_less(at, id, at2, id2) || key_less(at2, id2, at, id),
        !(key_less(at, id, at2, id2) && key_less(at2, id2, at, id)),
{
    law_text_less_irreflexive(id);
    law_text_less_total(id, id2);
    if key_less(at, id, at2, id2) && key_less(at2, id2, at3, id3) && at == at2 && at2 == at3 {
        law_text_less_transitive(id, id2, id3);
    }
}

// ---------------------------------------------------------------------------
// Sorted lists.
// ---------------------------------------------------------------------------

/// Whether `le` can order rows: it decides every pair, and it chains.
pub open spec fn orders<A>(le: spec_fn(A, A) -> bool) -> bool {
    &&& forall|a: A, b: A| #[trigger] le(a, b) || le(b, a)
    &&& forall|a: A, b: A, c: A| #[trigger] le(a, b) && #[trigger] le(b, c) ==> le(a, c)
}

/// Whether no row stands behind one that it should stand before.
pub open spec fn in_order<A>(s: Seq<A>, le: spec_fn(A, A) -> bool) -> bool {
    forall|i: int, j: int| 0 <= i < j < s.len() ==> le(#[trigger] s[i], #[trigger] s[j])
}

proof fn lemma_insert_order<A>(s: Seq<A>, x: A, le: spec_fn(A, A) -> bool)
    requires
        orders(le),
        in_order(s, le),
    ensures
        in_order(insert_sorted(s, x, le), le),
        insert_sorted(s, x, le).to_multiset() =~= s.to_multiset().insert(x),
        insert_sorted(s, x, le).len() == s.len() + 1,
    decreases s.len(),
{
    broadcast use vstd::seq_lib::group_to_multiset_ensures;

    if s.len() == 0 {
        assert(seq![x] =~= Seq::<A>::empty().push(x));
        assert(s =~= Seq::empty());
    } else if le(s.last(), x) {
        let r = s.push(x);
        assert forall|i: int, j: int| 0 <= i < j < r.len() implies le(
            #[trigger] r[i],
            #[trigger] r[j],
        ) by {
            if j == s.len() && i < s.len() - 1 {
                assert(le(s[i], s[s.len() - 1]));
            }
        }
    } else {
        let d = s.drop_last();
        assert(in_order(d, le)) by {
            assert forall|i: int, j: int| 0 <= i < j < d.len() implies le(
                #[trigger] d[i],
                #[trigger] d[j],
            ) by {
                assert(le(s[i], s[j]));
            }
        }
        lemma_insert_order(d, x, le);
        let r = insert_sorted(d, x, le);
        assert(s =~= d.push(s.last()));
        let t = r.push(s.last());
        assert forall|i: int, j: int| 0 <= i < j < t.len() implies le(
            #[trigger] t[i],
            #[trigger] t[j],
        ) by {
            if j == r.len() {
                assert(r.to_multiset().count(r[i]) > 0) by {
                    assert(r.contains(r[i]));
                }
                if r[i] != x {
                    assert(d.to_multiset().count(r[i]) > 0);
                    assert(d.contains(r[i]));
                    let k = choose|k: int| 0 <= k < d.len() && d[k] == r[i];
                    assert(le(s[k], s[s.len() - 1]));
                } else {
                    assert(le(x, s.last()));
                }
            } else {
                assert(le(r[i], r[j]));
            }
        }
    }
}

/// Sorting yields the same rows in order.
pub proof fn law_sorted<A>(s: Seq<A>, le: spec_fn(A, A) -> bool)
    requires
        orders(le),
    ensures
        in_order(sorted(s, le), le),
        sorted(s, le).to_multiset() =~= s.to_multiset(),
        sorted(s, le).len() == s.len(),
    decreases s.len(),
{
    broadcast use vstd::seq_lib::group_to_multiset_ensures;

    if s.len() > 0 {
        law_sorted(s.drop_last(), le);
        lemma_insert_order(sorted(s.drop_last(), le), s.last(), le);
        assert(s =~= s.drop_last().push(s.last()));
    }
}

/// Sorting keeps the members of a list.
pub proof fn law_sorted_members<A>(s: Seq<A>, le: spec_fn(A, A) -> bool)
    ensures
        forall|x: A| #[trigger] sorted(s, le).contains(x) <==> s.contains(x),
        sorted(s, le).len() == s.len(),
    decreases s.len(),
{
    if s.len() > 0 {
        let d = s.drop_last();
        law_sorted_members(d, le);
        lemma_insert_members(sorted(d, le), s.last(), le);
        assert(s =~= d.push(s.last()));
        assert forall|x: A| #[trigger] sorted(s, le).contains(x) <==> s.contains(x) by {
            lemma_push_contains(d, s.last(), x);
            assert(sorted(d, le).contains(x) <==> d.contains(x));
        }
    }
}

pub proof fn lemma_insert_members<A>(s: Seq<A>, x: A, le: spec_fn(A, A) -> bool)
    ensures
        forall|y: A| #[trigger] insert_sorted(s, x, le).contains(y) <==> s.contains(y) || y == x,
        insert_sorted(s, x, le).len() == s.len() + 1,
    decreases s.len(),
{
    if s.len() == 0 {
        assert forall|y: A| #[trigger] insert_sorted(s, x, le).contains(y) <==> s.contains(y) || y
            == x by {
            assert(seq![x] =~= s.push(x));
            lemma_push_contains(s, x, y);
        }
    } else if le(s.last(), x) {
        assert forall|y: A| #[trigger] insert_sorted(s, x, le).contains(y) <==> s.contains(y) || y
            == x by {
            lemma_push_contains(s, x, y);
        }
    } else {
        let d = s.drop_last();
        lemma_insert_members(d, x, le);
        assert(s =~= d.push(s.last()));
        assert forall|y: A| #[trigger] insert_sorted(s, x, le).contains(y) <==> s.contains(y) || y
            == x by {
            lemma_push_contains(insert_sorted(d, x, le), s.last(), y);
            lemma_push_contains(d, s.last(), y);
            assert(insert_sorted(d, x, le).contains(y) <==> d.contains(y) || y == x);
        }
    }
}

/// Filtering a list and sorting it may be done in either order.
pub proof fn law_sorted_filter<A>(s: Seq<A>, le: spec_fn(A, A) -> bool, p: spec_fn(A) -> bool)
    requires
        orders(le),
    ensures
        sorted(s.filter(p), le) == sorted(s, le).filter(p),
    decreases s.len(),
{
    reveal(Seq::filter);
    if s.len() > 0 {
        let d = s.drop_last();
        law_sorted_filter(d, le, p);
        law_sorted(d, le);
        lemma_insert_filter(sorted(d, le), s.last(), le, p);
        if p(s.last()) {
            assert(s.filter(p).drop_last() =~= d.filter(p));
        }
    }
}

proof fn lemma_insert_filter<A>(s: Seq<A>, x: A, le: spec_fn(A, A) -> bool, p: spec_fn(A) -> bool)
    requires
        orders(le),
        in_order(s, le),
    ensures
        insert_sorted(s, x, le).filter(p) == if p(x) {
            insert_sorted(s.filter(p), x, le)
        } else {
            s.filter(p)
        },
    decreases s.len(),
{
    reveal(Seq::filter);
    if s.len() == 0 {
        assert(seq![x] =~= s.push(x));
        lemma_filter_push(s, x, p);
        assert(s.filter(p) =~= Seq::empty());
        assert(insert_sorted(s.filter(p), x, le) =~= seq![x]);
    } else if le(s.last(), x) {
        lemma_filter_push(s, x, p);
        if p(x) && s.filter(p).len() > 0 {
            let l = s.filter(p).last();
            lemma_filter_contains(s, p);
            assert(s.filter(p).contains(l));
            let k = choose|k: int| 0 <= k < s.len() && s[k] == l;
            if k < s.len() - 1 {
                assert(le(s[k], s[s.len() - 1]));
            }
            assert(le(l, x));
        }
    } else {
        let d = s.drop_last();
        assert(in_order(d, le)) by {
            assert forall|i: int, j: int| 0 <= i < j < d.len() implies le(
                #[trigger] d[i],
                #[trigger] d[j],
            ) by {
                assert(le(s[i], s[j]));
            }
        }
        lemma_insert_filter(d, x, le, p);
        lemma_filter_push(insert_sorted(d, x, le), s.last(), p);
        assert(s =~= d.push(s.last()));
        lemma_filter_push(d, s.last(), p);
        if p(x) && p(s.last()) {
            assert(s.filter(p).drop_last() =~= d.filter(p));
            assert(s.filter(p).last() == s.last());
        }
    }
}

/// Sorting keeps the order of rows that count as equal.
pub proof fn law_sorted_is_stable<A>(s: Seq<A>, le: spec_fn(A, A) -> bool, x: A)
    requires
        orders(le),
    ensures
        sorted(s, le).filter(|y: A| le(x, y) && le(y, x)) == s.filter(
            |y: A| le(x, y) && le(y, x),
        ),
{
    let p = |y: A| le(x, y) && le(y, x);
    law_sorted_filter(s, le, p);
    let t = s.filter(p);
    lemma_filter_contains(s, p);
    assert forall|i: int, j: int| 0 <= i < t.len() && 0 <= j < t.len() implies le(
        #[trigger] t[i],
        #[trigger] t[j],
    ) by {
        assert(t.contains(t[i]) && t.contains(t[j]));
        assert(p(t[i]) && p(t[j]));
        assert(le(t[i], x) && le(x, t[j]));
    }
    lemma_sorted_of_ordered(t, le);
}

proof fn lemma_sorted_of_ordered<A>(s: Seq<A>, le: spec_fn(A, A) -> bool)
    requires
        in_order(s, le),
    ensures
        sorted(s, le) == s,
    decreases s.len(),
{
    if s.len() > 0 {
        let d = s.drop_last();
        assert(in_order(d, le)) by {
            assert forall|i: int, j: int| 0 <= i < j < d.len() implies le(
                #[trigger] d[i],
                #[trigger] d[j],
            ) by {
                assert(le(s[i], s[j]));
            }
        }
        lemma_sorted_of_ordered(d, le);
        if d.len() > 0 {
            assert(le(s[s.len() - 2], s[s.len() - 1]));
            assert(d.last() == s[s.len() - 2]);
        }
        assert(s =~= d.push(s.last()));
        if d.len() == 0 {
            assert(seq![s.last()] =~= s);
        }
    }
}

// ---------------------------------------------------------------------------
// Ascending sets of texts.
// ---------------------------------------------------------------------------

/// The order of texts can order rows.
pub proof fn law_text_le_orders()
    ensures
        orders(text_le()),
{
    assert forall|a: Seq<char>, b: Seq<char>| #[trigger] text_le()(a, b) || text_le()(b, a) by {
        law_text_less_total(a, b);
    }
    assert forall|a: Seq<char>, b: Seq<char>, c: Seq<char>| #[trigger]
        text_le()(a, b) && #[trigger] text_le()(b, c) implies text_le()(a, c) by {
        law_text_less_total(a, b);
        law_text_less_total(b, c);
        law_text_less_total(a, c);
        if text_less(c, a) {
            if text_less(a, b) {
                law_text_less_transitive(c, a, b);
            }
        }
    }
}

/// An ascending set holds exactly the members of the list, in strictly ascending order.
pub proof fn law_ordered_set(s: Seq<Seq<char>>)
    ensures
        forall|x: Seq<char>| #[trigger] ordered_set(s).contains(x) <==> s.contains(x),
        forall|i: int, j: int|
            0 <= i < j < ordered_set(s).len() ==> text_less(
                #[trigger] ordered_set(s)[i],
                #[trigger] ordered_set(s)[j],
            ),
        ordered_set(s).len() <= s.len(),
    decreases s.len(),
{
    law_text_le_orders();
    if s.len() > 0 {
        let d = s.drop_last();
        law_ordered_set(d);
        let rest = ordered_set(d);
        let x = s.last();
        assert(s =~= d.push(x));
        lemma_insert_members(rest, x, text_le());
        assert(in_order(rest, text_le())) by {
            assert forall|i: int, j: int| 0 <= i < j < rest.len() implies text_le()(
                #[trigger] rest[i],
                #[trigger] rest[j],
            ) by {
                law_text_less_total(rest[i], rest[j]);
            }
        }
        assert forall|y: Seq<char>| #[trigger] ordered_set(s).contains(y) <==> s.contains(y) by {
            lemma_push_contains(d, x, y);
            assert(rest.contains(y) <==> d.contains(y));
        }
        if !rest.contains(x) {
            lemma_insert_order(rest, x, text_le());
            lemma_insert_distinct(rest, x);
            let r = ordered_set(s);
            assert forall|i: int, j: int| 0 <= i < j < r.len() implies text_less(
                #[trigger] r[i],
                #[trigger] r[j],
            ) by {
                assert(text_le()(r[i], r[j]));
                law_text_less_total(r[i], r[j]);
            }
        }
    }
}

proof fn lemma_insert_distinct(s: Seq<Seq<char>>, x: Seq<char>)
    requires
        s.no_duplicates() || forall|i: int, j: int|
            0 <= i < j < s.len() ==> text_less(#[trigger] s[i], #[trigger] s[j]),
        !s.contains(x),
    ensures
        insert_sorted(s, x, text_le()).no_duplicates(),
    decreases s.len(),
{
    assert(s.no_duplicates()) by {
        assert forall|i: int, j: int| 0 <= i < s.len() && 0 <= j < s.len() && i != j implies s[i]
            != s[j] by {
            law_text_less_irreflexive(s[i]);
            if !s.no_duplicates() {
                if i < j {
                    assert(text_less(s[i], s[j]));
                } else {
                    assert(text_less(s[j], s[i]));
                }
            }
        }
    }
    if s.len() == 0 {
    } else if text_le()(s.last(), x) {
        assert forall|i: int, j: int|
            0 <= i < s.len() + 1 && 0 <= j < s.len() + 1 && i != j implies s.push(x)[i] != s.push(
            x,
        )[j] by {
            if i < s.len() && j == s.len() {
                assert(s.contains(s[i]));
            }
            if j < s.len() && i == s.len() {
                assert(s.contains(s[j]));
            }
        }
    } else {
        let d = s.drop_last();
        assert(d.no_duplicates());
        assert(!d.contains(x)) by {
            if d.contains(x) {
                let k = choose|k: int| 0 <= k < d.len() && d[k] == x;
                assert(s[k] == x);
            }
        }
        lemma_insert_distinct(d, x);
        lemma_insert_members(d, x, text_le());
        let r = insert_sorted(d, x, text_le());
        assert(!r.contains(s.last())) by {
            if r.contains(s.last()) {
                if s.last() == x {
                    assert(s.contains(x));
                } else {
                    assert(d.contains(s.last()));
                    let k = choose|k: int| 0 <= k < d.len() && d[k] == s.last();
                    assert(s[k] == s[s.len() - 1]);
                }
            }
        }
        assert forall|i: int, j: int|
            0 <= i < r.len() + 1 && 0 <= j < r.len() + 1 && i != j implies r.push(s.last())[i]
            != r.push(s.last())[j] by {
            if i < r.len() && j == r.len() {
                assert(r.contains(r[i]));
            }
            if j < r.len() && i == r.len() {
                assert(r.contains(r[j]));
            }
        }
    }
}

proof fn lemma_insert_distinct_by<A, K>(
    s: Seq<A>,
    x: A,
    le: spec_fn(A, A) -> bool,
    key: spec_fn(A) -> K,
)
    requires
        distinct_by(s, key),
        forall|i: int| 0 <= i < s.len() ==> key(#[trigger] s[i]) != key(x),
    ensures
        distinct_by(insert_sorted(s, x, le), key),
    decreases s.len(),
{
    if s.len() > 0 {
        if le(s.last(), x) {
            lemma_distinct_push(s, x, key);
        } else {
            let d = s.drop_last();
            assert forall|i: int, j: int| 0 <= i < d.len() && 0 <= j < d.len() && i != j implies key(
                #[trigger] d[i],
            ) != key(#[trigger] d[j]) by {
                assert(key(s[i]) != key(s[j]));
            }
            assert forall|i: int| 0 <= i < d.len() implies key(#[trigger] d[i]) != key(x) by {
                assert(key(s[i]) != key(x));
            }
            lemma_insert_distinct_by(d, x, le, key);
            lemma_insert_members(d, x, le);
            let r = insert_sorted(d, x, le);
            assert forall|i: int| 0 <= i < r.len() implies key(#[trigger] r[i]) != key(s.last()) by {
                assert(r.contains(r[i]));
                if r[i] != x {
                    let k = choose|k: int| 0 <= k < d.len() && d[k] == r[i];
                    assert(key(s[k]) != key(s[s.len() - 1]));
                } else {
                    assert(key(s[s.len() - 1]) != key(x));
                }
            }
            lemma_distinct_push(r, s.last(), key);
        }
    }
}

/// Sorting keeps distinct rows distinct.
pub proof fn lemma_sorted_distinct_by<A, K>(
    s: Seq<A>,
    le: spec_fn(A, A) -> bool,
    key: spec_fn(A) -> K,
)
    requires
        distinct_by(s, key),
    ensures
        distinct_by(sorted(s, le), key),
    decreases s.len(),
{
    if s.len() > 0 {
        let d = s.drop_last();
        assert forall|i: int, j: int| 0 <= i < d.len() && 0 <= j < d.len() && i != j implies key(
            #[trigger] d[i],
        ) != key(#[trigger] d[j]) by {
            assert(key(s[i]) != key(s[j]));
        }
        lemma_sorted_distinct_by(d, le, key);
        law_sorted_members(d, le);
        assert forall|i: int| 0 <= i < sorted(d, le).len() implies key(#[trigger] sorted(d, le)[i])
            != key(s.last()) by {
            assert(sorted(d, le).contains(sorted(d, le)[i]));
            let k = choose|k: int| 0 <= k < d.len() && d[k] == sorted(d, le)[i];
            assert(key(s[k]) != key(s[s.len() - 1]));
        }
        lemma_insert_distinct_by(sorted(d, le), s.last(), le, key);
    }
}

} // verus!
