//! What words, similarity, and plain text are for.

use vstd::prelude::*;

use crate::laws::escaping::law_trimming_is_idempotent;
use crate::laws::holding::lemma_collected_holds;
use crate::laws::order::{law_sorted, law_sorted_members, orders};
use crate::laws::pages::lemma_collected_same;
use crate::rows::{
    collected, deduped, lemma_deduped, lemma_filter_contains, lemma_filter_push,
    lemma_push_contains, limited, sorted,
};
use crate::text::{
    char_alphanumeric, char_whitespace, lowercase_text, text_less, trim_end_text, trim_start_text,
    trim_text,
};
use crate::texts::is_text;
use crate::textsim::{
    RankKey, behind, between_words, dot, occurrences, plain_text, rank_key_order, sentence_end,
    sentence_of, sentences, split_by, stopword, term_counts, token_of, tokens, upto,
};

verus! {

// ---------------------------------------------------------------------------
// Pieces of a text.
// ---------------------------------------------------------------------------

/// Whether the characters from `i` up to `j` are a piece: none of them cuts the text, and the piece
/// reaches to a cut or to the end of the text on both sides.
pub open spec fn piece(s: Seq<char>, cut: spec_fn(char) -> bool, i: int, j: int) -> bool {
    &&& 0 <= i <= j <= s.len()
    &&& i == 0 || cut(s[i - 1])
    &&& j == s.len() || cut(s[j])
    &&& forall|x: int| i <= x < j ==> !cut(#[trigger] s[x])
}

/// Whether the spans are all pieces of a text, from left to right.
pub open spec fn pieces(s: Seq<char>, cut: spec_fn(char) -> bool, at: Seq<(int, int)>) -> bool {
    &&& forall|k: int| 0 <= k < at.len() ==> piece(s, cut, (#[trigger] at[k]).0, at[k].1)
    &&& forall|k: int, l: int|
        0 <= k < l < at.len() ==> (#[trigger] at[k]).1 < (#[trigger] at[l]).0
    &&& forall|i: int, j: int| #[trigger] piece(s, cut, i, j) ==> at.contains((i, j))
}

/// A split text is the list of its pieces.
proof fn lemma_pieces(s: Seq<char>, cut: spec_fn(char) -> bool) -> (at: Seq<(int, int)>)
    ensures
        at.len() > 0,
        at.last().1 == s.len(),
        pieces(s, cut, at),
        split_by(s, cut).len() == at.len(),
        forall|k: int|
            0 <= k < at.len() ==> split_by(s, cut)[k] == s.subrange(
                (#[trigger] at[k]).0,
                at[k].1,
            ),
    decreases s.len(),
{
    let n = s.len() as int;
    if n == 0 {
        let at = seq![(0int, 0int)];
        assert(s.subrange(0, 0) =~= Seq::empty());
        assert forall|i: int, j: int| #[trigger] piece(s, cut, i, j) implies at.contains((i, j)) by {
            assert(at[0] == (i, j));
        }
        at
    } else {
        let d = s.drop_last();
        let before = lemma_pieces(d, cut);
        let m = before.len() - 1;
        let parts = split_by(d, cut);
        assert forall|i: int, j: int| 0 <= i <= j <= n - 1 implies s.subrange(i, j) == d.subrange(
            i,
            j,
        ) by {
            assert(s.subrange(i, j) =~= d.subrange(i, j));
        }
        if cut(s.last()) {
            let at = before.push((n, n));
            assert(s.subrange(n, n) =~= Seq::empty());
            assert forall|k: int| 0 <= k < at.len() implies piece(
                s,
                cut,
                (#[trigger] at[k]).0,
                at[k].1,
            ) && split_by(s, cut)[k] == s.subrange(at[k].0, at[k].1) by {
                if k < before.len() {
                    assert(piece(d, cut, before[k].0, before[k].1));
                    assert forall|x: int| at[k].0 <= x < at[k].1 implies !cut(#[trigger] s[x]) by {
                        assert(!cut(d[x]));
                    }
                }
            }
            assert forall|k: int, l: int| 0 <= k < l < at.len() implies (#[trigger] at[k]).1 < (
            #[trigger] at[l]).0 by {
                if l < before.len() {
                    assert(before[k].1 < before[l].0);
                } else {
                    assert(piece(d, cut, before[k].0, before[k].1));
                }
            }
            assert forall|i: int, j: int| #[trigger] piece(s, cut, i, j) implies at.contains(
                (i, j),
            ) by {
                if j <= n - 1 {
                    lemma_piece_shorter(s, cut, i, j);
                    let k = choose|k: int| 0 <= k < before.len() && before[k] == (i, j);
                    assert(at[k] == (i, j));
                } else {
                    if i < n {
                        assert(!cut(s[n - 1]));
                    }
                    assert(at[m + 1] == (i, j));
                }
            }
            at
        } else {
            let a = before[m].0;
            let at = before.update(m, (a, n));
            assert(piece(d, cut, before[m].0, before[m].1));
            assert(s.subrange(a, n) =~= d.subrange(a, n - 1).push(s.last()));
            assert forall|k: int| 0 <= k < at.len() implies piece(
                s,
                cut,
                (#[trigger] at[k]).0,
                at[k].1,
            ) && split_by(s, cut)[k] == s.subrange(at[k].0, at[k].1) by {
                assert(piece(d, cut, before[k].0, before[k].1));
                if k < m {
                    assert(before[k].1 < before[m].0);
                }
                assert forall|x: int| at[k].0 <= x < at[k].1 implies !cut(#[trigger] s[x]) by {
                    if x < n - 1 {
                        assert(!cut(d[x]));
                    }
                }
            }
            assert forall|k: int, l: int| 0 <= k < l < at.len() implies (#[trigger] at[k]).1 < (
            #[trigger] at[l]).0 by {
                assert(before[k].1 < before[l].0);
            }
            assert forall|i: int, j: int| #[trigger] piece(s, cut, i, j) implies at.contains(
                (i, j),
            ) by {
                if j == n {
                    assert(i < n);
                    assert(piece(d, cut, i, n - 1)) by {
                        assert forall|x: int| i <= x < n - 1 implies !cut(#[trigger] d[x]) by {
                            assert(!cut(s[x]));
                        }
                    }
                    let k = choose|k: int| 0 <= k < before.len() && before[k] == (i, n - 1);
                    if k < m {
                        assert(before[k].1 < before[m].0);
                    }
                    assert(at[m] == (i, j));
                } else {
                    assert(cut(s[j]));
                    lemma_piece_shorter(s, cut, i, j);
                    let k = choose|k: int| 0 <= k < before.len() && before[k] == (i, j);
                    assert(k < m);
                    assert(at[k] == (i, j));
                }
            }
            at
        }
    }
}

proof fn lemma_piece_shorter(s: Seq<char>, cut: spec_fn(char) -> bool, i: int, j: int)
    requires
        s.len() > 0,
        piece(s, cut, i, j),
        j <= s.len() - 1,
    ensures
        piece(s.drop_last(), cut, i, j),
{
    let d = s.drop_last();
    assert forall|x: int| i <= x < j implies !cut(#[trigger] d[x]) by {
        assert(!cut(s[x]));
    }
}

/// What is collected from pieces is collected from their spans.
proof fn lemma_collected_spans(
    s: Seq<char>,
    parts: Seq<Seq<char>>,
    at: Seq<(int, int)>,
    g: spec_fn(Seq<char>) -> Option<Seq<char>>,
)
    requires
        parts.len() == at.len(),
        forall|k: int| 0 <= k < at.len() ==> parts[k] == s.subrange((#[trigger] at[k]).0, at[k].1),
    ensures
        collected(parts, g) == collected(at, |w: (int, int)| g(s.subrange(w.0, w.1))),
    decreases parts.len(),
{
    if parts.len() > 0 {
        let p = parts.drop_last();
        let a = at.drop_last();
        assert forall|k: int| 0 <= k < a.len() implies p[k] == s.subrange(
            (#[trigger] a[k]).0,
            a[k].1,
        ) by {
            assert(at[k] == a[k]);
        }
        lemma_collected_spans(s, p, a, g);
        assert(parts[parts.len() - 1] == s.subrange(at[at.len() - 1].0, at[at.len() - 1].1));
    }
}

// ---------------------------------------------------------------------------
// Words.
// ---------------------------------------------------------------------------

/// What cuts a text into words.
pub open spec fn no_letter() -> spec_fn(char) -> bool {
    |c: char| !char_alphanumeric(c)
}

/// A word that counts, in lower case: it has at least two characters and is not a common one.
pub open spec fn counted_word(text: Seq<char>) -> spec_fn((int, int)) -> Option<Seq<char>> {
    |w: (int, int)|
        {
            let lower = lowercase_text(text.subrange(w.0, w.1));
            if w.0 < w.1 && lower.len() >= 2 && !common_word(lower) {
                Some(lower)
            } else {
                None
            }
        }
}

/// The common words, from a to z.
pub open spec fn common_word(w: Seq<char>) -> bool {
    ||| w == "a"@ || w == "about"@ || w == "all"@ || w == "also"@ || w == "an"@ || w == "and"@
        || w == "any"@ || w == "are"@ || w == "as"@ || w == "at"@
    ||| w == "be"@ || w == "been"@ || w == "being"@ || w == "but"@ || w == "by"@
    ||| w == "can"@ || w == "could"@
    ||| w == "did"@ || w == "do"@ || w == "does"@
    ||| w == "else"@
    ||| w == "for"@ || w == "from"@
    ||| w == "had"@ || w == "has"@ || w == "have"@ || w == "he"@ || w == "her"@ || w == "here"@
        || w == "his"@ || w == "how"@
    ||| w == "i"@ || w == "if"@ || w == "in"@ || w == "into"@ || w == "is"@ || w == "it"@
        || w == "its"@
    ||| w == "just"@
    ||| w == "may"@ || w == "me"@ || w == "might"@ || w == "my"@
    ||| w == "no"@ || w == "not"@
    ||| w == "of"@ || w == "on"@ || w == "or"@ || w == "our"@ || w == "out"@
    ||| w == "shall"@ || w == "she"@ || w == "should"@ || w == "so"@ || w == "some"@
        || w == "such"@
    ||| w == "than"@ || w == "that"@ || w == "the"@ || w == "them"@ || w == "then"@
        || w == "there"@ || w == "these"@ || w == "they"@ || w == "this"@ || w == "those"@
        || w == "to"@ || w == "too"@
    ||| w == "up"@ || w == "us"@
    ||| w == "very"@
    ||| w == "was"@ || w == "we"@ || w == "were"@ || w == "what"@ || w == "when"@ || w == "where"@
        || w == "which"@ || w == "who"@ || w == "whom"@ || w == "why"@ || w == "will"@
        || w == "with"@ || w == "would"@
    ||| w == "yes"@ || w == "you"@ || w == "your"@
}

/// The words that tokens leave out are the common ones.
pub proof fn law_common_words(w: Seq<char>)
    ensures
        stopword(w) <==> common_word(w),
{
}

/// The tokens of a text are its words in lower case, each as often and in the order in which it
/// stands there: the longest runs of letters and digits, but for common words and runs of one
/// character.
pub proof fn law_tokens_are_the_words(text: Seq<char>) -> (at: Seq<(int, int)>)
    ensures
        pieces(text, no_letter(), at),
        tokens(text) == collected(at, counted_word(text)),
{
    let at = lemma_pieces(text, between_words());
    assert(between_words() =~= no_letter());
    lemma_collected_spans(text, split_by(text, between_words()), at, token_of());
    assert forall|w: (int, int)| 0 <= w.0 <= w.1 <= text.len() implies #[trigger] counted_word(text)(
        w,
    ) == token_of()(text.subrange(w.0, w.1)) by {
        law_common_words(lowercase_text(text.subrange(w.0, w.1)));
    }
    let g = |w: (int, int)| token_of()(text.subrange(w.0, w.1));
    assert forall|k: int| 0 <= k < at.len() implies g(#[trigger] at[k]) == counted_word(text)(
        at[k],
    ) by {
        assert(piece(text, between_words(), at[k].0, at[k].1));
    }
    lemma_collected_same(at, g, counted_word(text));
    at
}

/// A word that counts is among the tokens.
pub proof fn law_word_is_a_token(text: Seq<char>, i: int, j: int)
    requires
        piece(text, no_letter(), i, j),
        i < j,
        lowercase_text(text.subrange(i, j)).len() >= 2,
        !common_word(lowercase_text(text.subrange(i, j))),
    ensures
        tokens(text).contains(lowercase_text(text.subrange(i, j))),
{
    let at = law_tokens_are_the_words(text);
    assert(at.contains((i, j)));
    let k = choose|k: int| 0 <= k < at.len() && at[k] == (i, j);
    lemma_collected_holds(at, counted_word(text), k);
}

// ---------------------------------------------------------------------------
// Similarity.
// ---------------------------------------------------------------------------

/// How many pairs of equal words two lists have.
pub open spec fn pairs(a: Seq<Seq<char>>, b: Seq<Seq<char>>) -> nat
    decreases a.len(),
{
    if a.len() == 0 {
        0
    } else {
        pairs(a.drop_last(), b) + b.filter(|w: Seq<char>| w == a.last()).len()
    }
}

proof fn lemma_occurrences(b: Seq<Seq<char>>, x: Seq<char>)
    ensures
        occurrences(b, x) == b.filter(|w: Seq<char>| w == x).len(),
{
    assert(is_text(x) =~= (|w: Seq<char>| w == x));
}

proof fn lemma_dot_push(
    terms: Seq<Seq<char>>,
    a: Seq<Seq<char>>,
    x: Seq<char>,
    b: Seq<Seq<char>>,
)
    requires
        terms.no_duplicates(),
    ensures
        dot(terms, a.push(x), b) == dot(terms, a, b) + if terms.contains(x) {
            occurrences(b, x)
        } else {
            0
        },
    decreases terms.len(),
{
    if terms.len() > 0 {
        let d = terms.drop_last();
        let y = terms.last();
        assert(d.no_duplicates());
        lemma_dot_push(d, a, x, b);
        assert(terms =~= d.push(y));
        lemma_push_contains(d, y, x);
        lemma_filter_push(a, x, is_text(y));
        if x == y {
            assert(!d.contains(x)) by {
                if d.contains(x) {
                    let k = choose|k: int| 0 <= k < d.len() && d[k] == x;
                    assert(terms[k] == terms[terms.len() - 1]);
                }
            }
            assert((occurrences(a, y) + 1) * occurrences(b, y) == occurrences(a, y) * occurrences(
                b,
                y,
            ) + occurrences(b, y)) by (nonlinear_arith);
        }
    }
}

proof fn lemma_dot_pairs(terms: Seq<Seq<char>>, a: Seq<Seq<char>>, b: Seq<Seq<char>>)
    requires
        terms.no_duplicates(),
        forall|i: int| 0 <= i < a.len() ==> terms.contains(#[trigger] a[i]),
    ensures
        dot(terms, a, b) == pairs(a, b),
    decreases a.len(),
{
    if a.len() == 0 {
        lemma_dot_empty(terms, a, b);
    } else {
        let d = a.drop_last();
        assert(a =~= d.push(a.last()));
        assert forall|i: int| 0 <= i < d.len() implies terms.contains(#[trigger] d[i]) by {
            assert(terms.contains(a[i]));
        }
        lemma_dot_pairs(terms, d, b);
        assert(terms.contains(a[a.len() - 1]));
        lemma_dot_push(terms, d, a.last(), b);
        lemma_occurrences(b, a.last());
    }
}

proof fn lemma_dot_empty(terms: Seq<Seq<char>>, a: Seq<Seq<char>>, b: Seq<Seq<char>>)
    requires
        a.len() == 0,
    ensures
        dot(terms, a, b) == 0,
    decreases terms.len(),
{
    reveal(Seq::filter);
    if terms.len() > 0 {
        lemma_dot_empty(terms.drop_last(), a, b);
        assert(occurrences(a, terms.last()) * occurrences(b, terms.last()) == 0)
            by (nonlinear_arith)
            requires
                occurrences(a, terms.last()) == 0,
        ;
    }
}

/// The similarity of two texts counts the pairs of equal words in them. A text is as similar to
/// itself as can be, and not at all only when no word of it counts; two texts are similar exactly
/// when a word is common to them.
pub proof fn law_similarity_counts_equal_words(a: Seq<char>, b: Seq<char>)
    ensures
        dot(deduped(tokens(a)), tokens(a), tokens(b)) == pairs(tokens(a), tokens(b)),
        dot(deduped(tokens(a)), tokens(a), tokens(a)) == pairs(tokens(a), tokens(a)),
        pairs(tokens(a), tokens(a)) >= tokens(a).len(),
        pairs(tokens(a), tokens(b)) > 0 <==> exists|x: Seq<char>| #[trigger]
            tokens(a).contains(x) && tokens(b).contains(x),
{
    let s = tokens(a);
    let t = tokens(b);
    lemma_deduped(s);
    assert forall|i: int| 0 <= i < s.len() implies deduped(s).contains(#[trigger] s[i]) by {
        assert(s.contains(s[i]));
    }
    lemma_dot_pairs(deduped(s), s, t);
    lemma_dot_pairs(deduped(s), s, s);
    lemma_pairs_at_least(s, s);
    lemma_pairs_common(s, t);
}

proof fn lemma_pairs_at_least(a: Seq<Seq<char>>, b: Seq<Seq<char>>)
    requires
        forall|i: int| 0 <= i < a.len() ==> b.contains(#[trigger] a[i]),
    ensures
        pairs(a, b) >= a.len(),
    decreases a.len(),
{
    if a.len() > 0 {
        let d = a.drop_last();
        assert forall|i: int| 0 <= i < d.len() implies b.contains(#[trigger] d[i]) by {
            assert(b.contains(a[i]));
        }
        lemma_pairs_at_least(d, b);
        let p = |w: Seq<char>| w == a.last();
        lemma_filter_contains(b, p);
        assert(b.contains(a[a.len() - 1]));
        assert(b.filter(p).contains(a.last()));
    }
}

proof fn lemma_pairs_common(a: Seq<Seq<char>>, b: Seq<Seq<char>>)
    ensures
        pairs(a, b) > 0 <==> exists|x: Seq<char>| #[trigger] a.contains(x) && b.contains(x),
    decreases a.len(),
{
    if a.len() > 0 {
        let d = a.drop_last();
        let y = a.last();
        let p = |w: Seq<char>| w == a.last();
        lemma_pairs_common(d, b);
        lemma_filter_contains(b, p);
        assert(a =~= d.push(y));
        if pairs(a, b) > 0 {
            if b.filter(p).len() > 0 {
                assert(b.filter(p).contains(b.filter(p)[0]));
                assert(a.contains(y)) by {
                    assert(a[a.len() - 1] == y);
                }
            } else {
                let x = choose|x: Seq<char>| #[trigger] d.contains(x) && b.contains(x);
                lemma_push_contains(d, y, x);
                assert(a.contains(x));
            }
        }
        if exists|x: Seq<char>| #[trigger] a.contains(x) && b.contains(x) {
            let x = choose|x: Seq<char>| #[trigger] a.contains(x) && b.contains(x);
            lemma_push_contains(d, y, x);
            if x == y {
                assert(b.filter(p).contains(x));
            } else {
                assert(d.contains(x));
            }
        }
    }
}

/// The terms of a text are its distinct tokens, each with the number of times it occurs.
pub proof fn law_terms_are_counted(text: Seq<char>)
    ensures
        ({
            let terms = term_counts(text);
            &&& forall|i: int|
                0 <= i < terms.len() ==> (#[trigger] terms[i]).count == tokens(text).filter(
                    |w: Seq<char>| w == terms[i].term,
                ).len() && tokens(text).contains(terms[i].term)
            &&& forall|x: Seq<char>| #[trigger]
                tokens(text).contains(x) ==> exists|i: int|
                    0 <= i < terms.len() && (#[trigger] terms[i]).term == x
            &&& forall|i: int, j: int|
                0 <= i < j < terms.len() ==> (#[trigger] terms[i]).term != (#[trigger] terms[j]).term
        }),
{
    let all = tokens(text);
    let terms = term_counts(text);
    let unique = deduped(all);
    lemma_deduped(all);
    assert forall|i: int| 0 <= i < terms.len() implies (#[trigger] terms[i]).count == all.filter(
        |w: Seq<char>| w == terms[i].term,
    ).len() && all.contains(terms[i].term) by {
        lemma_occurrences(all, unique[i]);
        assert(unique.contains(unique[i]));
    }
    assert forall|x: Seq<char>| #[trigger] all.contains(x) implies exists|i: int|
        0 <= i < terms.len() && (#[trigger] terms[i]).term == x by {
        assert(unique.contains(x));
        let i = choose|i: int| 0 <= i < unique.len() && unique[i] == x;
        assert(terms[i].term == x);
    }
    assert forall|i: int, j: int| 0 <= i < j < terms.len() implies (#[trigger] terms[i]).term != (
    #[trigger] terms[j]).term by {
        assert(unique[i] != unique[j]);
    }
}

/// The best candidates come first, of equal ones the one with the lower index; as many are given as
/// were asked for, and none that was left out is better than one that was given.
pub proof fn law_ranking_gives_the_best(keys: Seq<RankKey>, k: nat)
    ensures
        ({
            let best = limited(sorted(keys, rank_key_order()), k as int);
            &&& best.len() == if keys.len() < k {
                keys.len()
            } else {
                k
            }
            &&& forall|i: int| 0 <= i < best.len() ==> keys.contains(#[trigger] best[i])
            &&& forall|i: int, j: int|
                0 <= i < j < best.len() ==> (#[trigger] best[i]).key >= (#[trigger] best[j]).key && (
                best[i].key == best[j].key ==> best[i].index <= best[j].index)
            &&& forall|x: RankKey, i: int| #[trigger]
                keys.contains(x) && !best.contains(x) && 0 <= i < best.len() ==> (
                #[trigger] best[i]).key >= x.key
        }),
{
    let le = rank_key_order();
    let all = sorted(keys, le);
    let best = limited(all, k as int);
    assert(orders(le));
    law_sorted(keys, le);
    law_sorted_members(keys, le);
    assert forall|i: int| 0 <= i < best.len() implies keys.contains(#[trigger] best[i]) by {
        assert(all[i] == best[i]);
        assert(all.contains(all[i]));
    }
    assert forall|i: int, j: int| 0 <= i < j < best.len() implies (#[trigger] best[i]).key >= (
    #[trigger] best[j]).key && (best[i].key == best[j].key ==> best[i].index <= best[j].index) by {
        assert(le(all[i], all[j]));
    }
    assert forall|x: RankKey, i: int| #[trigger]
        keys.contains(x) && !best.contains(x) && 0 <= i < best.len() implies (#[trigger] best[i]).key
        >= x.key by {
        assert(all.contains(x));
        let z = choose|z: int| 0 <= z < all.len() && all[z] == x;
        if z < best.len() {
            assert(best[z] == x);
        }
        assert(le(all[i], all[z]));
    }
}

// ---------------------------------------------------------------------------
// Plain text and sentences.
// ---------------------------------------------------------------------------

/// Plain text keeps what is no markup: a character that means nothing is kept, and punctuation of
/// markup is dropped.
pub proof fn law_plain_text_keeps_characters(c: char, rest: Seq<char>)
    ensures
        plain_text(Seq::empty()) == Seq::<char>::empty(),
        c == '`' || c == '*' || c == '_' || c == '#' || c == '>' || c == '~' ==> plain_text(
            seq![c] + rest,
        ) == plain_text(rest),
        !(c == '`' || c == '*' || c == '_' || c == '#' || c == '>' || c == '~' || c == '[' || c
            == '<') ==> plain_text(seq![c] + rest) == seq![c] + plain_text(rest),
{
    assert((seq![c] + rest).drop_first() =~= rest);
    assert(plain_text(Seq::empty()) =~= Seq::<char>::empty());
}

/// A link shows its label and not its target, whatever follows.
pub proof fn law_plain_text_unwraps_links(label: Seq<char>, target: Seq<char>, rest: Seq<char>)
    requires
        !label.contains(']'),
        !target.contains(')'),
    ensures
        plain_text(seq!['['] + label + seq![']'] + seq!['('] + target + seq![')'] + rest) == label
            + plain_text(rest),
        (rest.len() == 0 || rest[0] != '(') ==> plain_text(
            seq!['['] + label + seq![']'] + rest,
        ) == label + plain_text(rest),
{
    let tail = seq!['('] + target + seq![')'] + rest;
    let linked = seq!['['] + label + seq![']'] + seq!['('] + target + seq![')'] + rest;
    assert(linked.drop_first() =~= label + (seq![']'] + tail));
    lemma_upto_behind(label, ']', tail);
    assert(tail.drop_first() =~= target + (seq![')'] + rest));
    lemma_upto_behind(target, ')', rest);
    let bare = seq!['['] + label + seq![']'] + rest;
    assert(bare.drop_first() =~= label + (seq![']'] + rest));
    lemma_upto_behind(label, ']', rest);
}

/// A tag disappears, whatever follows.
pub proof fn law_plain_text_drops_tags(tag: Seq<char>, rest: Seq<char>)
    requires
        !tag.contains('>'),
    ensures
        plain_text(seq!['<'] + tag + seq!['>'] + rest) == plain_text(rest),
{
    assert((seq!['<'] + tag + seq!['>'] + rest).drop_first() =~= tag + (seq!['>'] + rest));
    lemma_upto_behind(tag, '>', rest);
}

proof fn lemma_upto_behind(s: Seq<char>, c: char, rest: Seq<char>)
    requires
        !s.contains(c),
    ensures
        upto(s + (seq![c] + rest), c) == s,
        behind(s + (seq![c] + rest), c) == rest,
    decreases s.len(),
{
    let whole = s + (seq![c] + rest);
    if s.len() == 0 {
        assert(whole[0] == c);
        assert(whole.drop_first() =~= rest);
        assert(upto(whole, c) =~= s);
    } else {
        let d = s.drop_first();
        assert(whole[0] == s[0]);
        assert(s.contains(s[0]));
        assert(!d.contains(c)) by {
            if d.contains(c) {
                let k = choose|k: int| 0 <= k < d.len() && d[k] == c;
                assert(s[k + 1] == c);
            }
        }
        assert(whole.drop_first() =~= d + (seq![c] + rest));
        lemma_upto_behind(d, c, rest);
        assert(seq![s[0]] + d =~= s);
    }
}

/// What ends a sentence.
pub open spec fn full_stop() -> spec_fn(char) -> bool {
    |c: char| c == '.' || c == '!' || c == '?' || c == '\n' || c == '\r'
}

/// What a piece of a text says: its characters without the blanks around them, when a letter or a
/// digit is among them.
pub open spec fn said(text: Seq<char>) -> spec_fn((int, int)) -> Option<Seq<char>> {
    |w: (int, int)|
        {
            let s = trim_text(text.subrange(w.0, w.1));
            if exists|i: int| 0 <= i < s.len() && char_alphanumeric(#[trigger] s[i]) {
                Some(s)
            } else {
                None
            }
        }
}

/// The sentences of a text are the pieces between full stops, question and exclamation marks and
/// line ends that say something, in the order in which they stand.
pub proof fn law_sentences_are_the_pieces(text: Seq<char>) -> (at: Seq<(int, int)>)
    ensures
        pieces(text, full_stop(), at),
        sentences(text) == collected(at, said(text)),
{
    let at = lemma_pieces(text, sentence_end());
    assert(sentence_end() =~= full_stop());
    lemma_collected_spans(text, split_by(text, sentence_end()), at, sentence_of());
    let g = |w: (int, int)| sentence_of()(text.subrange(w.0, w.1));
    assert forall|k: int| 0 <= k < at.len() implies g(#[trigger] at[k]) == said(text)(at[k]) by {}
    lemma_collected_same(at, g, said(text));
    at
}

/// Trimming takes blanks off both ends and nothing else.
pub proof fn law_trimming_takes_blanks_only(s: Seq<char>) -> (at: (int, int))
    ensures
        0 <= at.0 <= at.1 <= s.len(),
        trim_text(s) == s.subrange(at.0, at.1),
        forall|i: int| 0 <= i < at.0 ==> char_whitespace(#[trigger] s[i]),
        forall|i: int| at.1 <= i < s.len() ==> char_whitespace(#[trigger] s[i]),
        trim_text(s).len() > 0 ==> !char_whitespace(trim_text(s)[0]) && !char_whitespace(
            trim_text(s).last(),
        ),
{
    let a = lemma_trim_start(s);
    let t = trim_start_text(s);
    let b = lemma_trim_end(t);
    assert forall|i: int| a + b <= i < s.len() implies char_whitespace(#[trigger] s[i]) by {
        assert(t[i - a] == s[i]);
    }
    assert(t.subrange(0, b) =~= s.subrange(a, a + b));
    law_trimming_is_idempotent(s);
    (a, a + b)
}

proof fn lemma_trim_start(s: Seq<char>) -> (a: int)
    ensures
        0 <= a <= s.len(),
        trim_start_text(s) == s.subrange(a, s.len() as int),
        forall|i: int| 0 <= i < a ==> char_whitespace(#[trigger] s[i]),
    decreases s.len(),
{
    if s.len() > 0 && char_whitespace(s[0]) {
        let d = s.drop_first();
        let a = lemma_trim_start(d);
        assert(d.subrange(a, d.len() as int) =~= s.subrange(a + 1, s.len() as int));
        assert forall|i: int| 0 <= i < a + 1 implies char_whitespace(#[trigger] s[i]) by {
            if i > 0 {
                assert(d[i - 1] == s[i]);
            }
        }
        a + 1
    } else {
        assert(s.subrange(0, s.len() as int) =~= s);
        0
    }
}

proof fn lemma_trim_end(s: Seq<char>) -> (b: int)
    ensures
        0 <= b <= s.len(),
        trim_end_text(s) == s.subrange(0, b),
        forall|i: int| b <= i < s.len() ==> char_whitespace(#[trigger] s[i]),
    decreases s.len(),
{
    if s.len() > 0 && char_whitespace(s.last()) {
        let d = s.drop_last();
        let b = lemma_trim_end(d);
        assert(d.subrange(0, b) =~= s.subrange(0, b));
        assert forall|i: int| b <= i < s.len() implies char_whitespace(#[trigger] s[i]) by {
            if i < d.len() {
                assert(d[i] == s[i]);
            }
        }
        b
    } else {
        assert(s.subrange(0, s.len() as int) =~= s);
        s.len() as int
    }
}

/// Texts are compared by their first different character; a text stands before its continuations.
pub proof fn law_text_less_looks_at_the_first_difference(a: Seq<char>, b: Seq<char>, n: int)
    requires
        0 <= n <= a.len(),
        n <= b.len(),
        a.take(n) == b.take(n),
    ensures
        n < a.len() && n < b.len() && a[n] != b[n] ==> (text_less(a, b) <==> a[n] < b[n]),
        n == a.len() && n < b.len() ==> text_less(a, b),
    decreases n,
{
    if n > 0 {
        assert(a[0] == a.take(n)[0] && b[0] == b.take(n)[0]);
        assert(a.drop_first().take(n - 1) =~= a.take(n).drop_first());
        assert(b.drop_first().take(n - 1) =~= b.take(n).drop_first());
        law_text_less_looks_at_the_first_difference(a.drop_first(), b.drop_first(), n - 1);
    }
}

} // verus!
