//! What a page holds: the rows it was collected from, and no others.

use vstd::prelude::*;

use crate::laws::order::law_sorted_members;
use crate::laws::pages::lemma_collected_sources;
use crate::rows::{
    collected, first_row, lemma_first_index_unique, lemma_push_contains, limited, sorted,
};

verus! {

/// Every row that is collected from stands in the collection.
pub proof fn lemma_collected_holds<A, B>(s: Seq<A>, g: spec_fn(A) -> Option<B>, i: int)
    requires
        0 <= i < s.len(),
        g(s[i]) is Some,
    ensures
        collected(s, g).contains(g(s[i])->0),
    decreases s.len(),
{
    let d = s.drop_last();
    if i < d.len() {
        lemma_collected_holds(d, g, i);
        assert(d[i] == s[i]);
        if let Some(b) = g(s.last()) {
            lemma_push_contains(collected(d, g), b, g(s[i])->0);
        }
    } else {
        lemma_push_contains(collected(d, g), g(s[i])->0, g(s[i])->0);
    }
}

/// A page that is not full holds every row that is collected from.
pub proof fn lemma_page_holds<A, B>(
    s: Seq<A>,
    g: spec_fn(A) -> Option<B>,
    le: spec_fn(B, B) -> bool,
    limit: int,
    i: int,
) -> (k: int)
    requires
        0 <= i < s.len(),
        g(s[i]) is Some,
        limited(sorted(collected(s, g), le), limit).len() < limit,
    ensures
        0 <= k < limited(sorted(collected(s, g), le), limit).len(),
        limited(sorted(collected(s, g), le), limit)[k] == g(s[i])->0,
{
    let all = sorted(collected(s, g), le);
    lemma_collected_holds(s, g, i);
    law_sorted_members(collected(s, g), le);
    assert(all.contains(g(s[i])->0));
    choose|k: int| 0 <= k < all.len() && all[k] == g(s[i])->0
}

/// A page holds nothing but what is collected.
pub proof fn lemma_page_source<A, B>(
    s: Seq<A>,
    g: spec_fn(A) -> Option<B>,
    le: spec_fn(B, B) -> bool,
    limit: int,
    k: int,
) -> (i: int)
    requires
        0 <= k < limited(sorted(collected(s, g), le), limit).len(),
    ensures
        0 <= i < s.len(),
        g(s[i]) == Some(limited(sorted(collected(s, g), le), limit)[k]),
{
    let all = sorted(collected(s, g), le);
    law_sorted_members(collected(s, g), le);
    let sources = lemma_collected_sources(s, g);
    assert(all.contains(all[k]));
    let j = choose|j: int| 0 <= j < collected(s, g).len() && collected(s, g)[j] == all[k];
    sources[j]
}

/// The first row that satisfies a test is the one before which none does.
pub proof fn lemma_first_row_is<A>(s: Seq<A>, p: spec_fn(A) -> bool, i: int)
    requires
        0 <= i < s.len(),
        p(s[i]),
        forall|j: int| 0 <= j < i ==> !p(#[trigger] s[j]),
    ensures
        first_row(s, p) == Some(s[i]),
{
    lemma_first_index_unique(s, p, i);
}

} // verus!
