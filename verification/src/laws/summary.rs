//! What summaries promise.

use vstd::prelude::*;

use crate::laws::order::{law_sorted, law_sorted_members, lemma_sorted_distinct_by};
use crate::laws::tables::{distinct_by, lemma_count_append};
use crate::rows::{collected, deduped, insert_sorted, limited, sorted};
use crate::texts::is_text;
use crate::textsim::{
    ScoredSentenceRow, all_tokens, occurrences, plain_text, reading_order, salience, score_order,
    scores, sentence_end, sentence_of, sentences, split_by, summary, tokens,
};

verus! {

/// What a scored sentence is identified by.
pub open spec fn sentence_index() -> spec_fn(ScoredSentenceRow) -> int {
    |r: ScoredSentenceRow| r.index
}

/// Whether `at` picks the sentences of a summary: indices in reading order, each once, and no
/// sentence that was left out has a higher score than one that was picked.
pub open spec fn picks(all: Seq<Seq<char>>, at: Seq<int>) -> bool {
    &&& forall|i: int| 0 <= i < at.len() ==> 0 <= #[trigger] at[i] < all.len()
    &&& forall|i: int, j: int| 0 <= i < j < at.len() ==> #[trigger] at[i] < #[trigger] at[j]
    &&& forall|i: int, u: int|
        0 <= i < at.len() && 0 <= u < all.len() && !at.contains(u) ==> score_order()(
            scores(all)[#[trigger] at[i]],
            #[trigger] scores(all)[u],
        )
}

/// A summary holds the requested number of sentences of the text, or all of them when there are no
/// more; they stand in reading order, and no better sentence was left out.
pub proof fn law_summary_picks_best_in_order(text: Seq<char>, max: nat) -> (at: Seq<int>)
    ensures
        ({
            let all = sentences(plain_text(text));
            &&& picks(all, at)
            &&& summary(text, max).len() == at.len()
            &&& forall|i: int| 0 <= i < at.len() ==> summary(text, max)[i] == all[#[trigger] at[i]]
            &&& at.len() == if all.len() <= max {
                all.len()
            } else {
                max
            }
        }),
{
    let all = sentences(plain_text(text));
    if max == 0 {
        Seq::empty()
    } else if all.len() <= max {
        let at = Seq::new(all.len(), |i: int| i);
        assert forall|u: int| 0 <= u < all.len() implies #[trigger] at.contains(u) by {
            assert(at[u] == u);
        }
        at
    } else {
        lemma_picked(all, max)
    }
}

proof fn lemma_picked(all: Seq<Seq<char>>, max: nat) -> (at: Seq<int>)
    requires
        0 < max < all.len(),
    ensures
        picks(all, at),
        at.len() == max,
        ({
            let best = limited(sorted(scores(all), score_order()), max as int);
            let chosen = sorted(best, reading_order());
            chosen.len() == at.len() && forall|i: int|
                0 <= i < at.len() ==> chosen[i].index == #[trigger] at[i]
        }),
{
    let s = scores(all);
    let ranked = sorted(s, score_order());
    let best = limited(ranked, max as int);
    let chosen = sorted(best, reading_order());
    let at = chosen.map_values(sentence_index());
    law_sorted(s, score_order());
    law_sorted_members(s, score_order());
    assert(distinct_by(s, sentence_index()));
    lemma_sorted_distinct_by(s, score_order(), sentence_index());
    assert forall|i: int, j: int|
        0 <= i < best.len() && 0 <= j < best.len() && i != j implies sentence_index()(
        #[trigger] best[i],
    ) != sentence_index()(#[trigger] best[j]) by {
        assert(sentence_index()(ranked[i]) != sentence_index()(ranked[j]));
    }
    lemma_sorted_distinct_by(best, reading_order(), sentence_index());
    law_sorted(best, reading_order());
    law_sorted_members(best, reading_order());
    assert forall|i: int| 0 <= i < at.len() implies 0 <= #[trigger] at[i] < all.len() && chosen[i]
        == s[at[i]] by {
        assert(chosen.contains(chosen[i]));
        let k = choose|k: int| 0 <= k < best.len() && best[k] == chosen[i];
        assert(ranked.contains(ranked[k]));
        let n = choose|n: int| 0 <= n < s.len() && s[n] == ranked[k];
        assert(s[n].index == n);
    }
    assert forall|i: int, j: int| 0 <= i < j < at.len() implies #[trigger] at[i] < #[trigger] at[j] by {
        assert(reading_order()(chosen[i], chosen[j]));
        assert(sentence_index()(chosen[i]) != sentence_index()(chosen[j]));
    }
    assert forall|i: int, u: int|
        0 <= i < at.len() && 0 <= u < all.len() && !at.contains(u) implies score_order()(
        s[#[trigger] at[i]],
        #[trigger] s[u],
    ) by {
        assert(chosen.contains(chosen[i]));
        let k = choose|k: int| 0 <= k < best.len() && best[k] == chosen[i];
        assert(s.contains(s[u]));
        assert(ranked.contains(s[u]));
        let n = choose|n: int| 0 <= n < ranked.len() && ranked[n] == s[u];
        if n < max {
            assert(best[n] == s[u]);
            assert(best.contains(s[u]));
            assert(chosen.contains(s[u]));
            let m = choose|m: int| 0 <= m < chosen.len() && chosen[m] == s[u];
            assert(at[m] == u);
        }
        assert(score_order()(ranked[k], ranked[n]));
    }
    at
}

/// A text without sentences has no summary.
pub proof fn law_empty_text_has_no_summary(max: nat)
    ensures
        summary(Seq::empty(), max).len() == 0,
{
    reveal_with_fuel(plain_text, 2);
    let none = Seq::<char>::empty();
    assert(plain_text(none) =~= none);
    law_no_sentences(none);
}

proof fn law_no_sentences(s: Seq<char>)
    requires
        s.len() == 0,
    ensures
        sentences(s).len() == 0,
{
    reveal_with_fuel(split_by, 2);
    reveal_with_fuel(collected, 3);
    let parts = split_by(s, sentence_end());
    assert forall|i: int| 0 <= i < parts.len() implies sentence_of()(#[trigger] parts[i]) is None by {
        assert(parts[i].len() == 0);
    }
    lemma_nothing_collected(parts, sentence_of());
}

proof fn lemma_nothing_collected<A, B>(s: Seq<A>, g: spec_fn(A) -> Option<B>)
    requires
        forall|i: int| 0 <= i < s.len() ==> g(#[trigger] s[i]) is None,
    ensures
        collected(s, g).len() == 0,
    decreases s.len(),
{
    if s.len() > 0 {
        let d = s.drop_last();
        assert forall|i: int| 0 <= i < d.len() implies g(#[trigger] d[i]) is None by {
            assert(g(s[i]) is None);
        }
        lemma_nothing_collected(d, g);
        assert(g(s[s.len() - 1]) is None);
    }
}

/// A text with no more sentences than there is room for is kept whole.
pub proof fn law_short_text_is_kept(text: Seq<char>, max: nat)
    requires
        0 < max,
        sentences(plain_text(text)).len() <= max,
    ensures
        summary(text, max) == sentences(plain_text(text)),
{
}

/// Whether `at` shows where the texts of `s` stand in `t`, in the same order.
pub open spec fn stands_in(s: Seq<Seq<char>>, t: Seq<Seq<char>>, at: Seq<int>) -> bool {
    &&& at.len() == s.len()
    &&& forall|i: int| 0 <= i < at.len() ==> 0 <= #[trigger] at[i] < t.len() && s[i] == t[at[i]]
    &&& forall|i: int, j: int| 0 <= i < j < at.len() ==> #[trigger] at[i] < #[trigger] at[j]
}

/// A longer summary holds the shorter one, sentence by sentence in the same order; so the sentences
/// of the text hold every summary.
pub proof fn law_longer_summary_holds_the_shorter(text: Seq<char>, k: nat, m: nat) -> (at: Seq<int>)
    requires
        k <= m,
    ensures
        stands_in(summary(text, k), summary(text, m), at),
        summary(text, k).len() == if sentences(plain_text(text)).len() <= k {
            sentences(plain_text(text)).len()
        } else {
            k
        },
        m >= sentences(plain_text(text)).len() ==> summary(text, m) == sentences(plain_text(text)),
{
    let all = sentences(plain_text(text));
    let few = law_summary_picks_best_in_order(text, k);
    if k == 0 {
        Seq::empty()
    } else if all.len() <= m {
        few
    } else {
        let a = lemma_picked(all, k);
        let b = lemma_picked(all, m);
        let ranked = sorted(scores(all), score_order());
        let shorter = sorted(limited(ranked, k as int), reading_order());
        let longer = sorted(limited(ranked, m as int), reading_order());
        law_sorted_members(scores(all), score_order());
        law_sorted_members(limited(ranked, k as int), reading_order());
        law_sorted_members(limited(ranked, m as int), reading_order());
        assert forall|i: int| 0 <= i < a.len() implies b.contains(#[trigger] a[i]) by {
            assert(shorter.contains(shorter[i]));
            let n = choose|n: int| 0 <= n < k && limited(ranked, k as int)[n] == shorter[i];
            assert(limited(ranked, m as int)[n] == shorter[i]);
            assert(limited(ranked, m as int).contains(shorter[i]));
            assert(longer.contains(shorter[i]));
            let l = choose|l: int| 0 <= l < longer.len() && longer[l] == shorter[i];
            assert(b[l] == a[i]);
        }
        let at = Seq::new(a.len(), |i: int| choose|l: int| 0 <= l < b.len() && b[l] == a[i]);
        assert forall|i: int| 0 <= i < at.len() implies 0 <= #[trigger] at[i] < b.len() && b[at[i]]
            == a[i] by {
            assert(b.contains(a[i]));
        }
        assert forall|i: int, j: int| 0 <= i < j < at.len() implies #[trigger] at[i]
            < #[trigger] at[j] by {
            assert(a[i] < a[j]);
            if at[j] < at[i] {
                assert(b[at[j]] < b[at[i]]);
            }
        }
        assert forall|i: int| 0 <= i < at.len() implies summary(text, k)[i] == summary(text, m)[(
        #[trigger] at[i])] by {
            assert(shorter[i].index == a[i]);
            assert(longer[at[i]].index == b[at[i]]);
        }
        at
    }
}

/// How often a word stands in the sentences, all together.
pub open spec fn stands_in_all(all: Seq<Seq<char>>, word: Seq<char>) -> nat
    decreases all.len(),
{
    if all.len() == 0 {
        0
    } else {
        stands_in_all(all.drop_last(), word) + tokens(all.last()).filter(
            |w: Seq<char>| w == word,
        ).len()
    }
}

/// How often the words stand in the sentences, summed over the words.
pub open spec fn summed(words: Seq<Seq<char>>, all: Seq<Seq<char>>) -> nat
    decreases words.len(),
{
    if words.len() == 0 {
        0
    } else {
        summed(words.drop_last(), all) + stands_in_all(all, words.last())
    }
}

/// The weight of a sentence, in halves: how often its words, each taken once, stand in all
/// sentences. With fewer than three words it weighs half.
pub open spec fn weight(all: Seq<Seq<char>>, i: int) -> nat {
    let words = deduped(tokens(all[i]));
    if words.len() < 3 {
        summed(words, all)
    } else {
        2 * summed(words, all)
    }
}

proof fn lemma_stands_in_all(all: Seq<Seq<char>>, word: Seq<char>)
    ensures
        occurrences(all_tokens(all), word) == stands_in_all(all, word),
    decreases all.len(),
{
    reveal(Seq::filter);
    let same_word = |w: Seq<char>| w == word;
    assert(is_text(word) =~= same_word);
    if all.len() > 0 {
        lemma_stands_in_all(all.drop_last(), word);
        lemma_count_append(all_tokens(all.drop_last()), tokens(all.last()), is_text(word));
    }
}

proof fn lemma_summed(words: Seq<Seq<char>>, all: Seq<Seq<char>>)
    ensures
        salience(words, all_tokens(all)) == summed(words, all),
    decreases words.len(),
{
    if words.len() > 0 {
        lemma_summed(words.drop_last(), all);
        lemma_stands_in_all(all, words.last());
    }
}

/// Whether a scored sentence stands before another: by its weight, and of equal weight by its place.
spec fn before(a: ScoredSentenceRow, b: ScoredSentenceRow) -> bool {
    a.halves > b.halves || (a.halves == b.halves && a.index < b.index)
}

proof fn lemma_insert_before(s: Seq<ScoredSentenceRow>, x: ScoredSentenceRow)
    requires
        forall|i: int, j: int| 0 <= i < j < s.len() ==> before(#[trigger] s[i], #[trigger] s[j]),
        forall|i: int| 0 <= i < s.len() ==> (#[trigger] s[i]).index < x.index,
    ensures
        ({
            let r = insert_sorted(s, x, score_order());
            &&& r.len() == s.len() + 1
            &&& forall|i: int, j: int| 0 <= i < j < r.len() ==> before(#[trigger] r[i], #[trigger] r[j])
            &&& forall|i: int| 0 <= i < r.len() ==> r[i] == x || s.contains(#[trigger] r[i])
        }),
    decreases s.len(),
{
    let r = insert_sorted(s, x, score_order());
    if s.len() == 0 {
    } else if score_order()(s.last(), x) {
        assert forall|i: int, j: int| 0 <= i < j < r.len() implies before(
            #[trigger] r[i],
            #[trigger] r[j],
        ) by {
            if j == s.len() && i < s.len() - 1 {
                assert(before(s[i], s[s.len() - 1]));
            }
        }
        assert forall|i: int| 0 <= i < r.len() implies r[i] == x || s.contains(#[trigger] r[i]) by {
            if i < s.len() {
                assert(s.contains(s[i]));
            }
        }
    } else {
        let d = s.drop_last();
        lemma_insert_before(d, x);
        let rest = insert_sorted(d, x, score_order());
        assert forall|i: int, j: int| 0 <= i < j < r.len() implies before(
            #[trigger] r[i],
            #[trigger] r[j],
        ) by {
            if j == rest.len() {
                if rest[i] != x {
                    assert(d.contains(rest[i]));
                    let k = choose|k: int| 0 <= k < d.len() && d[k] == rest[i];
                    assert(before(s[k], s[s.len() - 1]));
                }
            } else {
                assert(before(rest[i], rest[j]));
            }
        }
        assert forall|i: int| 0 <= i < r.len() implies r[i] == x || s.contains(#[trigger] r[i]) by {
            if i < rest.len() {
                if rest[i] != x {
                    assert(d.contains(rest[i]));
                    let k = choose|k: int| 0 <= k < d.len() && d[k] == rest[i];
                    assert(s[k] == rest[i]);
                }
            } else {
                assert(s[s.len() - 1] == r[i]);
            }
        }
    }
}

proof fn lemma_sorted_before(s: Seq<ScoredSentenceRow>)
    requires
        forall|i: int| 0 <= i < s.len() ==> (#[trigger] s[i]).index == i,
    ensures
        ({
            let r = sorted(s, score_order());
            forall|i: int, j: int| 0 <= i < j < r.len() ==> before(#[trigger] r[i], #[trigger] r[j])
        }),
    decreases s.len(),
{
    if s.len() > 0 {
        let d = s.drop_last();
        lemma_sorted_before(d);
        law_sorted_members(d, score_order());
        let r = sorted(d, score_order());
        assert forall|i: int| 0 <= i < r.len() implies (#[trigger] r[i]).index < s.last().index by {
            assert(r.contains(r[i]));
            let k = choose|k: int| 0 <= k < d.len() && d[k] == r[i];
            assert(s[k].index == k);
        }
        assert(s[s.len() - 1].index == s.len() - 1);
        lemma_insert_before(r, s.last());
    }
}

/// A summary keeps the weightiest sentences: none that is left out weighs more than one that is
/// kept, and of equal weight the earlier one is kept.
pub proof fn law_summary_keeps_the_weightiest(text: Seq<char>, max: nat) -> (at: Seq<int>)
    ensures
        ({
            let all = sentences(plain_text(text));
            &&& stands_in(summary(text, max), all, at)
            &&& forall|i: int, u: int|
                0 <= i < at.len() && 0 <= u < all.len() && !at.contains(u) ==> weight(
                    all,
                    #[trigger] at[i],
                ) >= #[trigger] weight(all, u) && (weight(all, at[i]) == weight(all, u) ==> at[i]
                    < u)
        }),
{
    let all = sentences(plain_text(text));
    let at = law_summary_picks_best_in_order(text, max);
    if 0 < max < all.len() {
        let at = lemma_picked(all, max);
        let s = scores(all);
        let ranked = sorted(s, score_order());
        let best = limited(ranked, max as int);
        let chosen = sorted(best, reading_order());
        law_sorted_members(s, score_order());
        law_sorted_members(best, reading_order());
        lemma_sorted_before(s);
        assert forall|i: int| 0 <= i < all.len() implies s[i].halves == #[trigger] weight(all, i) by {
            lemma_summed(deduped(tokens(all[i])), all);
        }
        assert forall|i: int, u: int|
            0 <= i < at.len() && 0 <= u < all.len() && !at.contains(u) implies weight(
            all,
            #[trigger] at[i],
        ) >= #[trigger] weight(all, u) && (weight(all, at[i]) == weight(all, u) ==> at[i] < u) by {
            assert(chosen.contains(chosen[i]));
            let k = choose|k: int| 0 <= k < best.len() && best[k] == chosen[i];
            assert(ranked[k] == chosen[i]);
            assert(ranked.contains(ranked[k]));
            let z = choose|z: int| 0 <= z < s.len() && s[z] == ranked[k];
            assert(s[z].index == z);
            assert(at[i] == z);
            assert(s.contains(s[u]));
            assert(ranked.contains(s[u]));
            let n = choose|n: int| 0 <= n < ranked.len() && ranked[n] == s[u];
            if n < max {
                assert(best[n] == s[u]);
                assert(best.contains(s[u]));
                assert(chosen.contains(s[u]));
                let m = choose|m: int| 0 <= m < chosen.len() && chosen[m] == s[u];
                assert(at[m] == u);
            }
            assert(before(ranked[k], ranked[n]));
        }
        assert forall|i: int| 0 <= i < at.len() implies summary(text, max)[i] == all[(
        #[trigger] at[i])] by {
            assert(chosen[i].index == at[i]);
        }
        at
    } else {
        if max == 0 {
            Seq::empty()
        } else {
            assert forall|u: int| 0 <= u < all.len() implies #[trigger] at.contains(u) by {
                lemma_rising_covers(at, u);
            }
            at
        }
    }
}

/// Rising places that are as many as there are cover all of them.
proof fn lemma_rising_covers(at: Seq<int>, u: int)
    requires
        forall|i: int| 0 <= i < at.len() ==> 0 <= #[trigger] at[i] < at.len(),
        forall|i: int, j: int| 0 <= i < j < at.len() ==> #[trigger] at[i] < #[trigger] at[j],
        0 <= u < at.len(),
    ensures
        at.contains(u),
{
    lemma_rising_is_its_place(at, u);
    assert(at[u] == u);
}

proof fn lemma_rising_is_its_place(at: Seq<int>, u: int)
    requires
        forall|i: int| 0 <= i < at.len() ==> 0 <= #[trigger] at[i] < at.len(),
        forall|i: int, j: int| 0 <= i < j < at.len() ==> #[trigger] at[i] < #[trigger] at[j],
        0 <= u < at.len(),
    ensures
        at[u] == u,
{
    lemma_rising_low(at, u);
    lemma_rising_high(at, u);
}

proof fn lemma_rising_low(at: Seq<int>, u: int)
    requires
        forall|i: int| 0 <= i < at.len() ==> 0 <= #[trigger] at[i] < at.len(),
        forall|i: int, j: int| 0 <= i < j < at.len() ==> #[trigger] at[i] < #[trigger] at[j],
        0 <= u < at.len(),
    ensures
        at[u] >= u,
    decreases u,
{
    if u > 0 {
        lemma_rising_low(at, u - 1);
        assert(at[u - 1] < at[u]);
    } else {
        assert(0 <= at[0]);
    }
}

proof fn lemma_rising_high(at: Seq<int>, u: int)
    requires
        forall|i: int| 0 <= i < at.len() ==> 0 <= #[trigger] at[i] < at.len(),
        forall|i: int, j: int| 0 <= i < j < at.len() ==> #[trigger] at[i] < #[trigger] at[j],
        0 <= u < at.len(),
    ensures
        at[u] <= u,
    decreases at.len() - u,
{
    if u < at.len() - 1 {
        lemma_rising_high(at, u + 1);
        assert(at[u] < at[u + 1]);
    } else {
        assert(at[u] < at.len());
    }
}

} // verus!
