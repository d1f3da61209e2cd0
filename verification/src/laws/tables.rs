//! What a change of a table does to statements about all of its rows, about one of its rows, and
//! about how many there are.

use vstd::prelude::*;

use crate::rows::{
    count_rows, first_index, lemma_filter_contains, lemma_filter_push, lemma_first_index, some_row,
    update_first,
};

verus! {

/// Whether every row satisfies `q`.
pub open spec fn all_rows<A>(s: Seq<A>, q: spec_fn(A) -> bool) -> bool {
    forall|i: int| 0 <= i < s.len() ==> q(#[trigger] s[i])
}

/// Whether no two rows have the same key.
pub open spec fn distinct_by<A, K>(s: Seq<A>, key: spec_fn(A) -> K) -> bool {
    forall|i: int, j: int|
        0 <= i < s.len() && 0 <= j < s.len() && i != j ==> key(#[trigger] s[i]) != key(
            #[trigger] s[j],
        )
}

// ---------------------------------------------------------------------------
// All rows.
// ---------------------------------------------------------------------------

pub proof fn lemma_all_filter<A>(s: Seq<A>, p: spec_fn(A) -> bool, q: spec_fn(A) -> bool)
    requires
        all_rows(s, q),
    ensures
        all_rows(s.filter(p), q),
        all_rows(s.filter(p), p),
{
    lemma_filter_contains(s, p);
    let r = s.filter(p);
    assert forall|i: int| 0 <= i < r.len() implies q(#[trigger] r[i]) && p(r[i]) by {
        assert(r.contains(r[i]));
        let k = choose|k: int| 0 <= k < s.len() && s[k] == r[i];
        assert(q(s[k]));
    }
}

pub proof fn lemma_all_update_first<A>(
    s: Seq<A>,
    p: spec_fn(A) -> bool,
    f: spec_fn(A) -> A,
    q: spec_fn(A) -> bool,
)
    requires
        all_rows(s, q),
        forall|x: A| #[trigger] q(x) && p(x) ==> q(f(x)),
    ensures
        all_rows(update_first(s, p, f), q),
{
    lemma_first_index(s, p);
    if let Some(k) = first_index(s, p) {
        assert(q(s[k]) && p(s[k]));
    }
}

pub proof fn lemma_all_weaker<A>(s: Seq<A>, q: spec_fn(A) -> bool, r: spec_fn(A) -> bool)
    requires
        all_rows(s, q),
        forall|x: A| #[trigger] q(x) ==> r(x),
    ensures
        all_rows(s, r),
{
    assert forall|i: int| 0 <= i < s.len() implies r(#[trigger] s[i]) by {
        assert(q(s[i]));
    }
}

// ---------------------------------------------------------------------------
// Some row.
// ---------------------------------------------------------------------------

pub proof fn lemma_some_push<A>(s: Seq<A>, x: A, p: spec_fn(A) -> bool)
    ensures
        some_row(s.push(x), p) <==> some_row(s, p) || p(x),
{
    if some_row(s, p) {
        let i = choose|i: int| 0 <= i < s.len() && p(#[trigger] s[i]);
        assert(p(s.push(x)[i]));
    }
    if p(x) {
        assert(p(s.push(x)[s.len() as int]));
    }
    if some_row(s.push(x), p) {
        let i = choose|i: int| 0 <= i < s.push(x).len() && p(#[trigger] s.push(x)[i]);
        if i < s.len() {
            assert(p(s[i]));
        }
    }
}

pub proof fn lemma_some_append<A>(s: Seq<A>, t: Seq<A>, p: spec_fn(A) -> bool)
    ensures
        some_row(s + t, p) <==> some_row(s, p) || some_row(t, p),
{
    if some_row(s, p) {
        let i = choose|i: int| 0 <= i < s.len() && p(#[trigger] s[i]);
        assert(p((s + t)[i]));
    }
    if some_row(t, p) {
        let i = choose|i: int| 0 <= i < t.len() && p(#[trigger] t[i]);
        assert(p((s + t)[s.len() + i]));
    }
    if some_row(s + t, p) {
        let i = choose|i: int| 0 <= i < (s + t).len() && p(#[trigger] (s + t)[i]);
        if i < s.len() {
            assert(p(s[i]));
        } else {
            assert(p(t[i - s.len()]));
        }
    }
}

/// A row that is kept by the filter is still found.
pub proof fn lemma_some_filter<A>(s: Seq<A>, keep: spec_fn(A) -> bool, p: spec_fn(A) -> bool)
    ensures
        some_row(s.filter(keep), p) <==> exists|i: int|
            0 <= i < s.len() && keep(#[trigger] s[i]) && p(s[i]),
{
    lemma_filter_contains(s, keep);
    let r = s.filter(keep);
    if some_row(r, p) {
        let i = choose|i: int| 0 <= i < r.len() && p(#[trigger] r[i]);
        assert(r.contains(r[i]));
        let k = choose|k: int| 0 <= k < s.len() && s[k] == r[i];
        assert(keep(s[k]) && p(s[k]));
    }
    if exists|i: int| 0 <= i < s.len() && keep(#[trigger] s[i]) && p(s[i]) {
        let k = choose|k: int| 0 <= k < s.len() && keep(#[trigger] s[k]) && p(s[k]);
        assert(s.contains(s[k]));
        assert(r.contains(s[k]));
        let i = choose|i: int| 0 <= i < r.len() && r[i] == s[k];
        assert(p(r[i]));
    }
}

/// A row that is found is still found when the filter keeps all rows like it.
pub proof fn lemma_some_filter_keeps<A>(s: Seq<A>, keep: spec_fn(A) -> bool, p: spec_fn(A) -> bool)
    requires
        some_row(s, p),
        forall|x: A| #[trigger] p(x) ==> keep(x),
    ensures
        some_row(s.filter(keep), p),
{
    let i = choose|i: int| 0 <= i < s.len() && p(#[trigger] s[i]);
    assert(keep(s[i]) && p(s[i]));
    lemma_some_filter(s, keep, p);
}

/// A row that is found is still found when the changed row stays like it.
pub proof fn lemma_some_update_first<A>(
    s: Seq<A>,
    which: spec_fn(A) -> bool,
    f: spec_fn(A) -> A,
    p: spec_fn(A) -> bool,
)
    requires
        some_row(s, p),
        forall|x: A| #[trigger] p(x) ==> p(f(x)),
    ensures
        some_row(update_first(s, which, f), p),
{
    lemma_first_index(s, which);
    let i = choose|i: int| 0 <= i < s.len() && p(#[trigger] s[i]);
    let r = update_first(s, which, f);
    assert(p(r[i]));
}

// ---------------------------------------------------------------------------
// Distinct rows.
// ---------------------------------------------------------------------------

pub proof fn lemma_distinct_filter<A, K>(s: Seq<A>, p: spec_fn(A) -> bool, key: spec_fn(A) -> K)
    requires
        distinct_by(s, key),
    ensures
        distinct_by(s.filter(p), key),
    decreases s.len(),
{
    reveal(Seq::filter);
    if s.len() > 0 {
        let d = s.drop_last();
        assert(distinct_by(d, key)) by {
            assert forall|i: int, j: int| 0 <= i < d.len() && 0 <= j < d.len() && i != j implies key(
                #[trigger] d[i],
            ) != key(#[trigger] d[j]) by {
                assert(key(s[i]) != key(s[j]));
            }
        }
        lemma_distinct_filter(d, p, key);
        lemma_filter_contains(d, p);
        let r = s.filter(p);
        let e = d.filter(p);
        assert forall|i: int, j: int| 0 <= i < r.len() && 0 <= j < r.len() && i != j implies key(
            #[trigger] r[i],
        ) != key(#[trigger] r[j]) by {
            if p(s.last()) && (i == r.len() - 1 || j == r.len() - 1) {
                let k = if i == r.len() - 1 {
                    j
                } else {
                    i
                };
                assert(e.contains(e[k]));
                let x = choose|x: int| 0 <= x < d.len() && d[x] == e[k];
                assert(key(s[x]) != key(s[s.len() - 1]));
            } else {
                assert(key(e[i]) != key(e[j]));
            }
        }
    } else {
        assert(s.filter(p) =~= s);
    }
}

pub proof fn lemma_distinct_push<A, K>(s: Seq<A>, x: A, key: spec_fn(A) -> K)
    requires
        distinct_by(s, key),
        forall|i: int| 0 <= i < s.len() ==> key(#[trigger] s[i]) != key(x),
    ensures
        distinct_by(s.push(x), key),
{
    let r = s.push(x);
    assert forall|i: int, j: int| 0 <= i < r.len() && 0 <= j < r.len() && i != j implies key(
        #[trigger] r[i],
    ) != key(#[trigger] r[j]) by {
        if i < s.len() && j < s.len() {
            assert(key(s[i]) != key(s[j]));
        } else if i < s.len() {
            assert(key(s[i]) != key(x));
        } else {
            assert(key(s[j]) != key(x));
        }
    }
}

pub proof fn lemma_distinct_append<A, K>(s: Seq<A>, t: Seq<A>, key: spec_fn(A) -> K)
    requires
        distinct_by(s, key),
        distinct_by(t, key),
        forall|i: int, j: int|
            0 <= i < s.len() && 0 <= j < t.len() ==> key(#[trigger] s[i]) != key(#[trigger] t[j]),
    ensures
        distinct_by(s + t, key),
{
    let r = s + t;
    assert forall|i: int, j: int| 0 <= i < r.len() && 0 <= j < r.len() && i != j implies key(
        #[trigger] r[i],
    ) != key(#[trigger] r[j]) by {
        if i < s.len() && j < s.len() {
            assert(key(s[i]) != key(s[j]));
        } else if i < s.len() {
            assert(key(s[i]) != key(t[j - s.len()]));
        } else if j < s.len() {
            assert(key(s[j]) != key(t[i - s.len()]));
        } else {
            assert(key(t[i - s.len()]) != key(t[j - s.len()]));
        }
    }
}

pub proof fn lemma_distinct_update<A, K>(s: Seq<A>, i: int, x: A, key: spec_fn(A) -> K)
    requires
        distinct_by(s, key),
        0 <= i < s.len(),
        key(x) == key(s[i]),
    ensures
        distinct_by(s.update(i, x), key),
{
    let r = s.update(i, x);
    assert forall|a: int, b: int| 0 <= a < r.len() && 0 <= b < r.len() && a != b implies key(
        #[trigger] r[a],
    ) != key(#[trigger] r[b]) by {
        assert(key(s[a]) != key(s[b]));
    }
}

pub proof fn lemma_distinct_remove<A, K>(s: Seq<A>, i: int, key: spec_fn(A) -> K)
    requires
        distinct_by(s, key),
        0 <= i < s.len(),
    ensures
        distinct_by(s.remove(i), key),
{
    let r = s.remove(i);
    assert forall|a: int, b: int| 0 <= a < r.len() && 0 <= b < r.len() && a != b implies key(
        #[trigger] r[a],
    ) != key(#[trigger] r[b]) by {
        let x = if a < i {
            a
        } else {
            a + 1
        };
        let y = if b < i {
            b
        } else {
            b + 1
        };
        assert(key(s[x]) != key(s[y]));
    }
}

// ---------------------------------------------------------------------------
// Counting rows.
// ---------------------------------------------------------------------------

pub proof fn lemma_count_push<A>(s: Seq<A>, x: A, p: spec_fn(A) -> bool)
    ensures
        count_rows(s.push(x), p) == count_rows(s, p) + if p(x) {
            1nat
        } else {
            0nat
        },
{
    lemma_filter_push(s, x, p);
}

pub proof fn lemma_count_append<A>(s: Seq<A>, t: Seq<A>, p: spec_fn(A) -> bool)
    ensures
        count_rows(s + t, p) == count_rows(s, p) + count_rows(t, p),
    decreases t.len(),
{
    reveal(Seq::filter);
    if t.len() == 0 {
        assert(s + t =~= s);
    } else {
        lemma_count_append(s, t.drop_last(), p);
        assert((s + t).drop_last() =~= s + t.drop_last());
        assert((s + t).last() == t.last());
    }
}

pub proof fn lemma_count_filter<A>(s: Seq<A>, keep: spec_fn(A) -> bool, p: spec_fn(A) -> bool)
    ensures
        count_rows(s.filter(keep), p) <= count_rows(s, p),
    decreases s.len(),
{
    reveal(Seq::filter);
    if s.len() > 0 {
        let d = s.drop_last();
        lemma_count_filter(d, keep, p);
        if keep(s.last()) {
            lemma_filter_push(d.filter(keep), s.last(), p);
        }
    } else {
        assert(s.filter(keep) =~= s);
    }
}

pub proof fn lemma_count_update<A>(s: Seq<A>, i: int, x: A, p: spec_fn(A) -> bool)
    requires
        0 <= i < s.len(),
    ensures
        count_rows(s.update(i, x), p) + if p(s[i]) {
            1nat
        } else {
            0nat
        } == count_rows(s, p) + if p(x) {
            1nat
        } else {
            0nat
        },
{
    let a = s.take(i);
    let b = s.skip(i + 1);
    assert(s =~= a.push(s[i]) + b);
    assert(s.update(i, x) =~= a.push(x) + b);
    lemma_count_append(a.push(s[i]), b, p);
    lemma_count_append(a.push(x), b, p);
    lemma_count_push(a, s[i], p);
    lemma_count_push(a, x, p);
}

pub proof fn lemma_count_remove<A>(s: Seq<A>, i: int, p: spec_fn(A) -> bool)
    requires
        0 <= i < s.len(),
    ensures
        count_rows(s.remove(i), p) + if p(s[i]) {
            1nat
        } else {
            0nat
        } == count_rows(s, p),
{
    let a = s.take(i);
    let b = s.skip(i + 1);
    assert(s =~= a.push(s[i]) + b);
    assert(s.remove(i) =~= a + b);
    lemma_count_append(a.push(s[i]), b, p);
    lemma_count_append(a, b, p);
    lemma_count_push(a, s[i], p);
}

pub proof fn lemma_count_bound<A>(s: Seq<A>, p: spec_fn(A) -> bool)
    ensures
        count_rows(s, p) <= s.len(),
        count_rows(s, p) == 0 <==> !some_row(s, p),
    decreases s.len(),
{
    reveal(Seq::filter);
    if s.len() > 0 {
        let d = s.drop_last();
        lemma_count_bound(d, p);
        assert(s =~= d.push(s.last()));
        lemma_some_push(d, s.last(), p);
    }
}

} // verus!
