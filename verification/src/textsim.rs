//! Local, deterministic text intelligence: extractive summaries, and the term counts behind
//! bag-of-words similarity.
//!
//! Both work on one tokeniser, so the same input always gives the same output.

use vstd::prelude::*;

use crate::laws::order::law_sorted_members;
use crate::rows::{
    append_rows, collect_rows, collected, count, count_rows, deduped, lemma_deduped,
    lemma_filter_push, limited, map_rows, opt, sort_rows, sorted, views,
};
use crate::text::{
    char_alphanumeric, chars_of, is_alphanumeric, lowercase, lowercase_text, same, trim, trim_text,
};
use crate::texts::{distinct_names, is_text};

verus! {

// ---------------------------------------------------------------------------
// Splitting.
// ---------------------------------------------------------------------------

/// The pieces of a text between the characters that satisfy `cut`.
pub open spec fn split_by(s: Seq<char>, cut: spec_fn(char) -> bool) -> Seq<Seq<char>>
    decreases s.len(),
{
    if s.len() == 0 {
        seq![Seq::empty()]
    } else {
        let before = split_by(s.drop_last(), cut);
        if cut(s.last()) {
            before.push(Seq::empty())
        } else {
            before.update(before.len() - 1, before.last().push(s.last()))
        }
    }
}

proof fn lemma_split_nonempty(s: Seq<char>, cut: spec_fn(char) -> bool)
    ensures
        split_by(s, cut).len() > 0,
    decreases s.len(),
{
    if s.len() > 0 {
        lemma_split_nonempty(s.drop_last(), cut);
    }
}

/// Split a string at the characters that satisfy the test.
fn split_where<F: Fn(char) -> bool>(s: &str, test: F, Ghost(cut): Ghost<spec_fn(char) -> bool>) -> (out:
    Vec<String>)
    requires
        forall|c: char| #[trigger] call_requires(test, (c,)),
        forall|c: char, b: bool| #[trigger] call_ensures(test, (c,), b) ==> b == cut(c),
    ensures
        views(out@) == split_by(s@, cut),
{
    let v = chars_of(s);
    let mut out: Vec<String> = Vec::new();
    let mut current = String::new();
    let mut i: usize = 0;
    assert(views(out@).push(current@) =~= split_by(v@.take(0), cut));
    while i < v.len()
        invariant
            0 <= i <= v@.len(),
            forall|c: char| #[trigger] call_requires(test, (c,)),
            forall|c: char, b: bool| #[trigger] call_ensures(test, (c,), b) ==> b == cut(c),
            views(out@).push(current@) == split_by(v@.take(i as int), cut),
        decreases v@.len() - i,
    {
        assert(v@.take(i + 1).drop_last() =~= v@.take(i as int));
        let c = v[i];
        let ghost pieces = views(out@);
        let ghost piece = current@;
        if test(c) {
            let ghost before = out@;
            out.push(current);
            assert(views(out@) =~= views(before).push(piece));
            current = String::new();
            assert(views(out@).push(current@) =~= pieces.push(piece).push(Seq::empty()));
        } else {
            current.push(c);
            assert(views(out@).push(current@) =~= pieces.push(piece).update(
                pieces.push(piece).len() - 1,
                piece.push(c),
            ));
        }
        i = i + 1;
    }
    assert(v@.take(i as int) =~= s@);
    let ghost before = out@;
    out.push(current);
    assert(views(out@) =~= views(before).push(current@));
    out
}

// ---------------------------------------------------------------------------
// Tokens.
// ---------------------------------------------------------------------------

/// Common words that carry no meaning of their own.
pub open spec fn stopword(w: Seq<char>) -> bool {
    ||| w == "the"@
    ||| w == "a"@
    ||| w == "an"@
    ||| w == "and"@
    ||| w == "or"@
    ||| w == "but"@
    ||| w == "if"@
    ||| w == "then"@
    ||| w == "else"@
    ||| w == "for"@
    ||| w == "of"@
    ||| w == "to"@
    ||| w == "in"@
    ||| w == "on"@
    ||| w == "at"@
    ||| w == "by"@
    ||| w == "is"@
    ||| w == "are"@
    ||| w == "was"@
    ||| w == "were"@
    ||| w == "be"@
    ||| w == "been"@
    ||| w == "being"@
    ||| w == "it"@
    ||| w == "its"@
    ||| w == "this"@
    ||| w == "that"@
    ||| w == "these"@
    ||| w == "those"@
    ||| w == "with"@
    ||| w == "as"@
    ||| w == "from"@
    ||| w == "into"@
    ||| w == "about"@
    ||| w == "i"@
    ||| w == "you"@
    ||| w == "he"@
    ||| w == "she"@
    ||| w == "we"@
    ||| w == "they"@
    ||| w == "them"@
    ||| w == "his"@
    ||| w == "her"@
    ||| w == "our"@
    ||| w == "your"@
    ||| w == "my"@
    ||| w == "me"@
    ||| w == "us"@
    ||| w == "do"@
    ||| w == "does"@
    ||| w == "did"@
    ||| w == "so"@
    ||| w == "not"@
    ||| w == "no"@
    ||| w == "yes"@
    ||| w == "can"@
    ||| w == "could"@
    ||| w == "would"@
    ||| w == "should"@
    ||| w == "will"@
    ||| w == "shall"@
    ||| w == "may"@
    ||| w == "might"@
    ||| w == "have"@
    ||| w == "has"@
    ||| w == "had"@
    ||| w == "there"@
    ||| w == "here"@
    ||| w == "what"@
    ||| w == "which"@
    ||| w == "who"@
    ||| w == "whom"@
    ||| w == "how"@
    ||| w == "when"@
    ||| w == "where"@
    ||| w == "why"@
    ||| w == "all"@
    ||| w == "any"@
    ||| w == "some"@
    ||| w == "such"@
    ||| w == "than"@
    ||| w == "too"@
    ||| w == "very"@
    ||| w == "just"@
    ||| w == "also"@
    ||| w == "up"@
    ||| w == "out"@
}

fn is_stopword(w: &str) -> (r: bool)
    ensures
        r == stopword(w@),
{
    same(w, "the") || same(w, "a") || same(w, "an") || same(w, "and") || same(w, "or") || same(w, "but") || same(w, "if") || same(w, "then") || same(w, "else") || same(w, "for") || same(w, "of") || same(w, "to") || same(w, "in") || same(w, "on") || same(w, "at") || same(w, "by") || same(w, "is") || same(w, "are") || same(w, "was") || same(w, "were") || same(w, "be") || same(w, "been") || same(w, "being") || same(w, "it") || same(w, "its") || same(w, "this") || same(w, "that") || same(w, "these") || same(w, "those") || same(w, "with") || same(w, "as") || same(w, "from") || same(w, "into") || same(w, "about") || same(w, "i") || same(w, "you") || same(w, "he") || same(w, "she") || same(w, "we") || same(w, "they") || same(w, "them") || same(w, "his") || same(w, "her") || same(w, "our") || same(w, "your") || same(w, "my") || same(w, "me") || same(w, "us") || same(w, "do") || same(w, "does") || same(w, "did") || same(w, "so") || same(w, "not") || same(w, "no") || same(w, "yes") || same(w, "can") || same(w, "could") || same(w, "would") || same(w, "should") || same(w, "will") || same(w, "shall") || same(w, "may") || same(w, "might") || same(w, "have") || same(w, "has") || same(w, "had") || same(w, "there") || same(w, "here") || same(w, "what") || same(w, "which") || same(w, "who") || same(w, "whom") || same(w, "how") || same(w, "when") || same(w, "where") || same(w, "why") || same(w, "all") || same(w, "any") || same(w, "some") || same(w, "such") || same(w, "than") || same(w, "too") || same(w, "very") || same(w, "just") || same(w, "also") || same(w, "up") || same(w, "out")
}

/// A character between words.
pub open spec fn between_words() -> spec_fn(char) -> bool {
    |c: char| !char_alphanumeric(c)
}

/// The token a word stands for: its lower case, unless that is a stopword or shorter than two
/// characters.
pub open spec fn token_of() -> spec_fn(Seq<char>) -> Option<Seq<char>> {
    |w: Seq<char>|
        if w.len() > 0 && lowercase_text(w).len() >= 2 && !stopword(lowercase_text(w)) {
            Some(lowercase_text(w))
        } else {
            None
        }
}

/// The tokens of a text, in order.
pub open spec fn tokens(text: Seq<char>) -> Seq<Seq<char>> {
    collected(split_by(text, between_words()), token_of())
}

/// Split text into lowercase alphanumeric tokens, dropping stopwords and fragments of one character.
pub fn tokenize(text: &str) -> (out: Vec<String>)
    ensures
        views(out@) == tokens(text@),
{
    let cut = |c: char| -> (b: bool)
        ensures
            b == between_words()(c),
        { !is_alphanumeric(c) };
    let words = split_where(text, cut, Ghost(between_words()));
    let f = |w: &String| -> (t: Option<String>)
        ensures
            opt(t) == token_of()(w@),
        {
            if w.as_str().is_empty() {
                return None;
            }
            let lower = lowercase(w.as_str());
            if chars_of(lower.as_str()).len() >= 2 && !is_stopword(lower.as_str()) {
                Some(lower)
            } else {
                None
            }
        };
    collect_rows(&words, f, Ghost(token_of()))
}

/// How often a term occurs.
pub open spec fn occurrences(tokens: Seq<Seq<char>>, term: Seq<char>) -> nat {
    count_rows(tokens, is_text(term))
}

/// A term with its number of occurrences.
#[derive(Debug, PartialEq, Eq)]
pub struct TermCount {
    pub term: String,
    pub count: usize,
}

/// The mathematical view of a [`TermCount`].
#[verifier::ext_equal]
pub struct TermCountRow {
    pub term: Seq<char>,
    pub count: nat,
}

impl View for TermCount {
    type V = TermCountRow;

    open spec fn view(&self) -> TermCountRow {
        TermCountRow { term: self.term@, count: self.count as nat }
    }
}

/// A term counted among the tokens.
pub open spec fn counted(tokens: Seq<Seq<char>>) -> spec_fn(Seq<char>) -> TermCountRow {
    |term: Seq<char>| TermCountRow { term, count: occurrences(tokens, term) }
}

/// The distinct terms of a text with their counts, in the order of their first occurrence.
pub open spec fn term_counts(text: Seq<char>) -> Seq<TermCountRow> {
    deduped(tokens(text)).map_values(counted(tokens(text)))
}

fn count_term(all: &Vec<String>, term: &str) -> (r: usize)
    ensures
        r == occurrences(views(all@), term@),
{
    let test = |t: &String| -> (b: bool)
        ensures
            b == is_text(term@)(t@),
        { same(t.as_str(), term) };
    count(all, test, Ghost(is_text(term@)))
}

/// Bag-of-words term frequencies of a text.
pub fn term_freq(text: &str) -> (out: Vec<TermCount>)
    ensures
        views(out@) == term_counts(text@),
{
    let found = tokenize(text);
    let all = &found;
    let terms = distinct_names(all.as_slice());
    let f = |t: &String| -> (c: TermCount)
        ensures
            c@ == counted(views(all@))(t@),
        { TermCount { term: t.clone(), count: count_term(all, t.as_str()) } };
    map_rows(&terms, f, Ghost(counted(views(all@))))
}

// ---------------------------------------------------------------------------
// Similarity.
// ---------------------------------------------------------------------------

/// The sum over the terms of the products of their occurrences.
pub open spec fn dot(terms: Seq<Seq<char>>, a: Seq<Seq<char>>, b: Seq<Seq<char>>) -> nat
    decreases terms.len(),
{
    if terms.len() == 0 {
        0
    } else {
        dot(terms.drop_last(), a, b) + occurrences(a, terms.last()) * occurrences(b, terms.last())
    }
}

/// The sum over the terms of their occurrences.
pub open spec fn salience(terms: Seq<Seq<char>>, all: Seq<Seq<char>>) -> nat
    decreases terms.len(),
{
    if terms.len() == 0 {
        0
    } else {
        salience(terms.drop_last(), all) + occurrences(all, terms.last())
    }
}

/// Whether a term is `x`, as a number, summed over the terms.
spec fn hits(terms: Seq<Seq<char>>, x: Seq<char>) -> nat
    decreases terms.len(),
{
    if terms.len() == 0 {
        0
    } else {
        hits(terms.drop_last(), x) + if terms.last() == x {
            1nat
        } else {
            0
        }
    }
}

proof fn lemma_hits(terms: Seq<Seq<char>>, x: Seq<char>)
    requires
        terms.no_duplicates(),
    ensures
        hits(terms, x) <= 1,
        !terms.contains(x) ==> hits(terms, x) == 0,
    decreases terms.len(),
{
    if terms.len() > 0 {
        let d = terms.drop_last();
        assert(d.no_duplicates());
        lemma_hits(d, x);
        if terms.last() == x {
            assert(!d.contains(x)) by {
                if d.contains(x) {
                    let i = choose|i: int| 0 <= i < d.len() && d[i] == x;
                    assert(terms[i] == terms[terms.len() - 1]);
                }
            }
            assert(terms.contains(x)) by {
                assert(terms[terms.len() - 1] == x);
            }
        } else if d.contains(x) {
            let i = choose|i: int| 0 <= i < d.len() && d[i] == x;
            assert(terms[i] == x);
        }
    }
}

proof fn lemma_salience_push(terms: Seq<Seq<char>>, all: Seq<Seq<char>>, x: Seq<char>)
    ensures
        salience(terms, all.push(x)) == salience(terms, all) + hits(terms, x),
    decreases terms.len(),
{
    if terms.len() > 0 {
        lemma_salience_push(terms.drop_last(), all, x);
        lemma_filter_push(all, x, is_text(terms.last()));
    }
}

/// The distinct terms together occur at most as often as there are tokens.
proof fn lemma_salience_bound(terms: Seq<Seq<char>>, all: Seq<Seq<char>>)
    requires
        terms.no_duplicates(),
    ensures
        salience(terms, all) <= all.len(),
    decreases all.len(),
{
    if all.len() == 0 {
        lemma_salience_empty(terms, all);
    } else {
        let d = all.drop_last();
        lemma_salience_bound(terms, d);
        assert(all =~= d.push(all.last()));
        lemma_salience_push(terms, d, all.last());
        lemma_hits(terms, all.last());
    }
}

proof fn lemma_salience_empty(terms: Seq<Seq<char>>, all: Seq<Seq<char>>)
    requires
        all.len() == 0,
    ensures
        salience(terms, all) == 0,
    decreases terms.len(),
{
    if terms.len() > 0 {
        lemma_salience_empty(terms.drop_last(), all);
        reveal(Seq::filter);
    }
}

proof fn lemma_occurrences_bound(all: Seq<Seq<char>>, term: Seq<char>)
    ensures
        occurrences(all, term) <= all.len(),
{
    all.lemma_filter_len(is_text(term));
}

/// The product sum is bounded by the product of the lengths.
proof fn lemma_dot_bound(terms: Seq<Seq<char>>, a: Seq<Seq<char>>, b: Seq<Seq<char>>)
    ensures
        dot(terms, a, b) <= salience(terms, a) * b.len(),
    decreases terms.len(),
{
    if terms.len() > 0 {
        let d = terms.drop_last();
        lemma_dot_bound(d, a, b);
        lemma_occurrences_bound(b, terms.last());
        let s: nat = salience(d, a);
        let x: nat = occurrences(a, terms.last());
        let y: nat = occurrences(b, terms.last());
        let n: nat = b.len();
        assert(s * n + x * y <= (s + x) * n) by (nonlinear_arith)
            requires
                y <= n,
        ;
    }
}

/// The prefix of the terms has no larger sums.
proof fn lemma_salience_prefix(terms: Seq<Seq<char>>, all: Seq<Seq<char>>, i: int)
    requires
        0 <= i <= terms.len(),
    ensures
        salience(terms.take(i), all) <= salience(terms, all),
    decreases terms.len() - i,
{
    if i < terms.len() {
        lemma_salience_prefix(terms, all, i + 1);
        assert(terms.take(i + 1).drop_last() =~= terms.take(i));
    } else {
        assert(terms.take(i) =~= terms);
    }
}

/// The three numbers the cosine of two bags of words is made of.
#[derive(Clone, Copy, Debug, PartialEq, Eq, Structural)]
pub struct SimilarityTerms {
    /// The product sum of the two bags.
    pub dot: u128,
    /// The product sum of the first bag with itself.
    pub norm_a: u128,
    /// The product sum of the second bag with itself.
    pub norm_b: u128,
}

fn dot_of(terms: &Vec<String>, a: &Vec<String>, b: &Vec<String>) -> (r: u128)
    requires
        views(terms@).no_duplicates(),
    ensures
        r == dot(views(terms@), views(a@), views(b@)),
{
    let ghost t = views(terms@);
    let ghost va = views(a@);
    let ghost vb = views(b@);
    let la: usize = a.len();
    let lb: usize = b.len();
    let mut sum: u128 = 0;
    let mut i: usize = 0;
    while i < terms.len()
        invariant
            0 <= i <= terms@.len(),
            t == views(terms@),
            va == views(a@),
            vb == views(b@),
            la == va.len(),
            lb == vb.len(),
            t.no_duplicates(),
            sum == dot(t.take(i as int), va, vb),
        decreases terms@.len() - i,
    {
        assert(t.take(i + 1).drop_last() =~= t.take(i as int));
        assert(t.take(i + 1).last() == terms@[i as int]@);
        let x: usize = count_term(a, terms[i].as_str());
        let y: usize = count_term(b, terms[i].as_str());
        proof {
            lemma_dot_bound(t.take(i + 1), va, vb);
            lemma_salience_prefix(t, va, i + 1);
            lemma_salience_bound(t, va);
            let s: nat = salience(t.take(i + 1), va);
            let n: nat = vb.len();
            assert(s * n <= 0xffff_ffff_ffff_ffff * 0xffff_ffff_ffff_ffff) by (nonlinear_arith)
                requires
                    s <= 0xffff_ffff_ffff_ffff,
                    n <= 0xffff_ffff_ffff_ffff,
            ;
            assert(x * y <= 0xffff_ffff_ffff_ffff * 0xffff_ffff_ffff_ffff) by (nonlinear_arith)
                requires
                    x <= 0xffff_ffff_ffff_ffff,
                    y <= 0xffff_ffff_ffff_ffff,
            ;
        }
        sum = sum + (x as u128) * (y as u128);
        i = i + 1;
    }
    assert(t.take(t.len() as int) =~= t);
    sum
}

/// What the cosine of two texts is made of: the product sum of their terms, and of each with
/// itself.
pub fn similarity_terms(a: &str, b: &str) -> (r: SimilarityTerms)
    ensures
        r.dot == dot(deduped(tokens(a@)), tokens(a@), tokens(b@)),
        r.norm_a == dot(deduped(tokens(a@)), tokens(a@), tokens(a@)),
        r.norm_b == dot(deduped(tokens(b@)), tokens(b@), tokens(b@)),
{
    let ta = tokenize(a);
    let tb = tokenize(b);
    let da = distinct_names(ta.as_slice());
    let db = distinct_names(tb.as_slice());
    proof {
        lemma_deduped(views(ta@));
        lemma_deduped(views(tb@));
    }
    SimilarityTerms {
        dot: dot_of(&da, &ta, &tb),
        norm_a: dot_of(&da, &ta, &ta),
        norm_b: dot_of(&db, &tb, &tb),
    }
}

/// A candidate with an order-preserving key of its score.
#[derive(Clone, Copy, Debug, PartialEq, Eq, Structural)]
pub struct RankKey {
    pub index: usize,
    pub key: u64,
}

impl View for RankKey {
    type V = RankKey;

    open spec fn view(&self) -> RankKey {
        *self
    }
}

/// Best candidates first; equal ones in the order of their index.
pub open spec fn rank_key_order() -> spec_fn(RankKey, RankKey) -> bool {
    |a: RankKey, b: RankKey| a.key > b.key || (a.key == b.key && a.index <= b.index)
}

/// The `k` best candidates, best first.
pub fn rank_top(keys: Vec<RankKey>, k: usize) -> (out: Vec<RankKey>)
    ensures
        views(out@) == limited(sorted(views(keys@), rank_key_order()), k as int),
{
    let le = |a: &RankKey, b: &RankKey| -> (r: bool)
        ensures
            r == rank_key_order()(a@, b@),
        { a.key > b.key || (a.key == b.key && a.index <= b.index) };
    let mut out = sort_rows(keys, le, Ghost(rank_key_order()));
    let ghost before = out@;
    out.truncate(k);
    assert(views(out@) =~= limited(views(before), k as int));
    out
}

// ---------------------------------------------------------------------------
// Markup.
// ---------------------------------------------------------------------------

/// Markup punctuation that is dropped.
pub open spec fn markup(c: char) -> bool {
    c == '`' || c == '*' || c == '_' || c == '#' || c == '>' || c == '~'
}

/// The part of a text before the first `c`, or all of it.
pub open spec fn upto(s: Seq<char>, c: char) -> Seq<char>
    decreases s.len(),
{
    if s.len() == 0 || s[0] == c {
        Seq::empty()
    } else {
        seq![s[0]] + upto(s.drop_first(), c)
    }
}

/// The part of a text behind the first `c`, or nothing.
pub open spec fn behind(s: Seq<char>, c: char) -> Seq<char>
    decreases s.len(),
{
    if s.len() == 0 {
        s
    } else if s[0] == c {
        s.drop_first()
    } else {
        behind(s.drop_first(), c)
    }
}

/// A text without a link target at its start.
pub open spec fn without_target(s: Seq<char>) -> Seq<char> {
    if s.len() > 0 && s[0] == '(' {
        behind(s.drop_first(), ')')
    } else {
        s
    }
}

/// What stands behind a character is no longer than the text.
pub proof fn lemma_behind_shorter(s: Seq<char>, c: char)
    ensures
        behind(s, c).len() <= s.len(),
    decreases s.len(),
{
    if s.len() > 0 && s[0] != c {
        lemma_behind_shorter(s.drop_first(), c);
    }
}

/// A text without Markdown and inline HTML: markup punctuation is dropped, a link keeps its text, and
/// a tag disappears.
pub open spec fn plain_text(s: Seq<char>) -> Seq<char>
    decreases s.len(),
{
    if s.len() == 0 {
        s
    } else {
        let rest = s.drop_first();
        if markup(s[0]) {
            plain_text(rest)
        } else if s[0] == '[' {
            proof {
                lemma_behind_shorter(rest, ']');
                let tail = behind(rest, ']');
                if tail.len() > 0 {
                    lemma_behind_shorter(tail.drop_first(), ')');
                }
            }
            upto(rest, ']') + plain_text(without_target(behind(rest, ']')))
        } else if s[0] == '<' {
            proof {
                lemma_behind_shorter(rest, '>');
            }
            plain_text(behind(rest, '>'))
        } else {
            seq![s[0]] + plain_text(rest)
        }
    }
}

/// The index behind the first `c` from `from` on, or the end.
fn skip_past(v: &Vec<char>, from: usize, c: char) -> (r: usize)
    requires
        from <= v@.len(),
    ensures
        from <= r <= v@.len(),
        v@.skip(r as int) == behind(v@.skip(from as int), c),
{
    let mut i: usize = from;
    while i < v.len()
        invariant
            from <= i <= v@.len(),
            behind(v@.skip(i as int), c) == behind(v@.skip(from as int), c),
        decreases v@.len() - i,
    {
        assert(v@.skip(i as int).drop_first() =~= v@.skip(i + 1));
        assert(v@.skip(i as int)[0] == v@[i as int]);
        if v[i] == c {
            return i + 1;
        }
        i = i + 1;
    }
    assert(v@.skip(i as int).len() == 0);
    i
}

/// Append the characters before the first `c` from `from` on.
fn copy_upto(v: &Vec<char>, from: usize, c: char, out: &mut String)
    requires
        from <= v@.len(),
    ensures
        final(out)@ == old(out)@ + upto(v@.skip(from as int), c),
{
    let ghost start = out@;
    let mut i: usize = from;
    assert(start + upto(v@.skip(from as int), c) =~= out@ + upto(v@.skip(i as int), c));
    while i < v.len()
        invariant
            from <= i <= v@.len(),
            start == old(out)@,
            out@ + upto(v@.skip(i as int), c) == start + upto(v@.skip(from as int), c),
        decreases v@.len() - i,
    {
        let ghost rest = v@.skip(i as int);
        assert(rest.drop_first() =~= v@.skip(i + 1));
        assert(rest[0] == v@[i as int]);
        if v[i] == c {
            assert(out@ + upto(rest, c) =~= out@);
            return;
        }
        let ghost before = out@;
        out.push(v[i]);
        assert(before + (seq![rest[0]] + upto(rest.drop_first(), c)) =~= out@ + upto(
            v@.skip(i + 1),
            c,
        ));
        i = i + 1;
    }
    assert(out@ + upto(v@.skip(i as int), c) =~= out@);
}

/// Strip the common Markdown and inline-HTML markup so that sentences read as prose.
pub fn to_plain(md: &str) -> (out: String)
    ensures
        out@ == plain_text(md@),
{
    let v = chars_of(md);
    let mut out = String::new();
    let mut i: usize = 0;
    assert(v@.skip(0) =~= v@);
    assert(out@ + plain_text(v@) =~= plain_text(md@));
    while i < v.len()
        invariant
            0 <= i <= v@.len(),
            v@ == md@,
            out@ + plain_text(v@.skip(i as int)) == plain_text(md@),
        decreases v@.len() - i,
    {
        let ghost s = v@.skip(i as int);
        let ghost before = out@;
        assert(s.drop_first() =~= v@.skip(i + 1));
        let c = v[i];
        assert(s[0] == c);
        if c == '`' || c == '*' || c == '_' || c == '#' || c == '>' || c == '~' {
            i = i + 1;
        } else if c == '[' {
            copy_upto(&v, i + 1, ']', &mut out);
            let mut j: usize = skip_past(&v, i + 1, ']');
            let ghost tail = v@.skip(j as int);
            if j < v.len() && v[j] == '(' {
                assert(tail.drop_first() =~= v@.skip(j + 1));
                j = skip_past(&v, j + 1, ')');
            }
            assert(v@.skip(j as int) == without_target(tail));
            assert(out@ + plain_text(v@.skip(j as int)) =~= before + plain_text(s));
            i = j;
        } else if c == '<' {
            i = skip_past(&v, i + 1, '>');
        } else {
            out.push(c);
            assert(out@ + plain_text(v@.skip(i + 1)) =~= before + plain_text(s));
            i = i + 1;
        }
    }
    assert(out@ + plain_text(v@.skip(i as int)) =~= out@);
    out
}

// ---------------------------------------------------------------------------
// Sentences.
// ---------------------------------------------------------------------------

/// A character that ends a sentence.
pub open spec fn sentence_end() -> spec_fn(char) -> bool {
    |c: char| c == '.' || c == '!' || c == '?' || c == '\n' || c == '\r'
}

/// Whether a text holds a letter or a digit.
pub open spec fn has_word(s: Seq<char>) -> bool {
    exists|i: int| 0 <= i < s.len() && char_alphanumeric(#[trigger] s[i])
}

/// The sentence a fragment stands for.
pub open spec fn sentence_of() -> spec_fn(Seq<char>) -> Option<Seq<char>> {
    |s: Seq<char>|
        if has_word(trim_text(s)) {
            Some(trim_text(s))
        } else {
            None
        }
}

/// The sentences of a plain text.
pub open spec fn sentences(text: Seq<char>) -> Seq<Seq<char>> {
    collected(split_by(text, sentence_end()), sentence_of())
}

fn contains_word(s: &str) -> (r: bool)
    ensures
        r == has_word(s@),
{
    let v = chars_of(s);
    let mut i: usize = 0;
    while i < v.len()
        invariant
            0 <= i <= v@.len(),
            v@ == s@,
            forall|j: int| 0 <= j < i ==> !char_alphanumeric(#[trigger] v@[j]),
        decreases v@.len() - i,
    {
        if is_alphanumeric(v[i]) {
            assert(char_alphanumeric(s@[i as int]));
            return true;
        }
        i = i + 1;
    }
    false
}

/// Split plain text into trimmed sentences, keeping only fragments with a letter or a digit.
pub fn split_sentences(text: &str) -> (out: Vec<String>)
    ensures
        views(out@) == sentences(text@),
{
    let cut = |c: char| -> (b: bool)
        ensures
            b == sentence_end()(c),
        { c == '.' || c == '!' || c == '?' || c == '\n' || c == '\r' };
    let pieces = split_where(text, cut, Ghost(sentence_end()));
    let f = |piece: &String| -> (s: Option<String>)
        ensures
            opt(s) == sentence_of()(piece@),
        {
            let s = trim(piece.as_str());
            if contains_word(s.as_str()) {
                Some(s)
            } else {
                None
            }
        };
    collect_rows(&pieces, f, Ghost(sentence_of()))
}

// ---------------------------------------------------------------------------
// Summaries.
// ---------------------------------------------------------------------------

/// The tokens of all sentences.
pub open spec fn all_tokens(sentences: Seq<Seq<char>>) -> Seq<Seq<char>>
    decreases sentences.len(),
{
    if sentences.len() == 0 {
        Seq::empty()
    } else {
        all_tokens(sentences.drop_last()) + tokens(sentences.last())
    }
}

/// A sentence with its score, counted in halves.
#[derive(Clone, Copy, Debug, PartialEq, Eq, Structural)]
pub struct ScoredSentence {
    pub index: usize,
    pub halves: u128,
}

/// The mathematical view of a [`ScoredSentence`].
pub struct ScoredSentenceRow {
    pub index: int,
    pub halves: nat,
}

impl View for ScoredSentence {
    type V = ScoredSentenceRow;

    open spec fn view(&self) -> ScoredSentenceRow {
        ScoredSentenceRow { index: self.index as int, halves: self.halves as nat }
    }
}

/// The score of a sentence: how often its distinct terms occur in the whole body, all together. A
/// sentence with fewer than three distinct terms counts half.
pub open spec fn score(all: Seq<Seq<char>>, sentence: Seq<char>, index: int) -> ScoredSentenceRow {
    let terms = deduped(tokens(sentence));
    ScoredSentenceRow {
        index,
        halves: if terms.len() < 3 {
            salience(terms, all)
        } else {
            2 * salience(terms, all)
        },
    }
}

/// The scores of all sentences.
pub open spec fn scores(sentences: Seq<Seq<char>>) -> Seq<ScoredSentenceRow> {
    Seq::new(
        sentences.len(),
        |i: int| score(all_tokens(sentences), sentences[i], i),
    )
}

/// Higher scores first.
pub open spec fn score_order() -> spec_fn(ScoredSentenceRow, ScoredSentenceRow) -> bool {
    |a: ScoredSentenceRow, b: ScoredSentenceRow| a.halves >= b.halves
}

/// Reading order.
pub open spec fn reading_order() -> spec_fn(ScoredSentenceRow, ScoredSentenceRow) -> bool {
    |a: ScoredSentenceRow, b: ScoredSentenceRow| a.index <= b.index
}

/// The `max` best sentences in reading order; of equal scores the earlier sentence wins.
pub open spec fn summary(text: Seq<char>, max: nat) -> Seq<Seq<char>> {
    let all = sentences(plain_text(text));
    if max == 0 {
        Seq::empty()
    } else if all.len() <= max {
        all
    } else {
        let best = limited(sorted(scores(all), score_order()), max as int);
        sorted(best, reading_order()).map_values(|s: ScoredSentenceRow| all[s.index])
    }
}

fn collect_tokens(sentences: &Vec<String>) -> (out: Vec<String>)
    ensures
        views(out@) == all_tokens(views(sentences@)),
{
    let ghost s = views(sentences@);
    let mut out: Vec<String> = Vec::new();
    let mut i: usize = 0;
    assert(views(out@) =~= all_tokens(s.take(0)));
    while i < sentences.len()
        invariant
            0 <= i <= sentences@.len(),
            s == views(sentences@),
            views(out@) == all_tokens(s.take(i as int)),
        decreases sentences@.len() - i,
    {
        assert(s.take(i + 1).drop_last() =~= s.take(i as int));
        assert(s.take(i + 1).last() == sentences@[i as int]@);
        append_rows(&mut out, tokenize(sentences[i].as_str()));
        i = i + 1;
    }
    assert(s.take(s.len() as int) =~= s);
    out
}

fn salience_of(terms: &Vec<String>, all: &Vec<String>) -> (r: u64)
    requires
        views(terms@).no_duplicates(),
    ensures
        r == salience(views(terms@), views(all@)),
{
    let ghost t = views(terms@);
    let ghost a = views(all@);
    let total: usize = all.len();
    let mut sum: u64 = 0;
    let mut i: usize = 0;
    while i < terms.len()
        invariant
            0 <= i <= terms@.len(),
            t == views(terms@),
            a == views(all@),
            total == a.len(),
            t.no_duplicates(),
            sum == salience(t.take(i as int), a),
        decreases terms@.len() - i,
    {
        assert(t.take(i + 1).drop_last() =~= t.take(i as int));
        assert(t.take(i + 1).last() == terms@[i as int]@);
        proof {
            lemma_salience_prefix(t, a, i + 1);
            lemma_salience_bound(t, a);
        }
        sum = sum + count_term(all, terms[i].as_str()) as u64;
        i = i + 1;
    }
    assert(t.take(t.len() as int) =~= t);
    sum
}

fn score_sentence(all: &Vec<String>, sentence: &str, index: usize) -> (r: ScoredSentence)
    ensures
        r@ == score(views(all@), sentence@, index as int),
{
    let found = tokenize(sentence);
    let terms = distinct_names(found.as_slice());
    proof {
        lemma_deduped(views(found@));
        assert(views(terms@).len() == terms@.len());
    }
    let sum: u128 = salience_of(&terms, all) as u128;
    ScoredSentence {
        index,
        halves: if terms.len() < 3 {
            sum
        } else {
            2 * sum
        },
    }
}

fn score_all(sentences: &Vec<String>) -> (out: Vec<ScoredSentence>)
    ensures
        views(out@) == scores(views(sentences@)),
{
    let all = collect_tokens(sentences);
    let mut out: Vec<ScoredSentence> = Vec::new();
    let mut i: usize = 0;
    while i < sentences.len()
        invariant
            0 <= i <= sentences@.len(),
            out@.len() == i,
            views(all@) == all_tokens(views(sentences@)),
            forall|j: int|
                0 <= j < i ==> (#[trigger] out@[j])@ == score(
                    all_tokens(views(sentences@)),
                    sentences@[j]@,
                    j,
                ),
        decreases sentences@.len() - i,
    {
        out.push(score_sentence(&all, sentences[i].as_str(), i));
        i = i + 1;
    }
    assert(views(out@) =~= scores(views(sentences@)));
    out
}

/// Extractive summary: the `max_sentences` most salient sentences of the text, in reading order,
/// without markup. A text with no more sentences than requested is returned whole.
pub fn summarize(text: &str, max_sentences: usize) -> (out: Vec<String>)
    ensures
        views(out@) == summary(text@, max_sentences as nat),
{
    let mut out: Vec<String> = Vec::new();
    if max_sentences == 0 {
        assert(views(out@) =~= Seq::empty());
        return out;
    }
    let plain = to_plain(text);
    let all = split_sentences(plain.as_str());
    assert(views(all@).len() == all@.len());
    if all.len() <= max_sentences {
        return all;
    }
    let scored = score_all(&all);
    let ghost s0 = views(scored@);
    let by_score = |a: &ScoredSentence, b: &ScoredSentence| -> (r: bool)
        ensures
            r == score_order()(a@, b@),
        { a.halves >= b.halves };
    let mut best = sort_rows(scored, by_score, Ghost(score_order()));
    let ghost s1 = views(best@);
    best.truncate(max_sentences);
    assert(views(best@) =~= limited(s1, max_sentences as int));
    let by_index = |a: &ScoredSentence, b: &ScoredSentence| -> (r: bool)
        ensures
            r == reading_order()(a@, b@),
        { a.index <= b.index };
    let ghost s2 = views(best@);
    let chosen = sort_rows(best, by_index, Ghost(reading_order()));
    proof {
        law_sorted_members(s0, score_order());
        law_sorted_members(s2, reading_order());
        assert forall|i: int| 0 <= i < chosen@.len() implies 0 <= (#[trigger] chosen@[i]).index
            < all@.len() by {
            let x = views(chosen@)[i];
            assert(views(chosen@).contains(x));
            let k = choose|k: int| 0 <= k < s2.len() && s2[k] == x;
            assert(s1[k] == x);
            assert(s1.contains(x));
            assert(s0.contains(x));
        }
    }
    let ghost picked = |r: ScoredSentenceRow| views(all@)[r.index];
    let mut i: usize = 0;
    while i < chosen.len()
        invariant
            0 <= i <= chosen@.len(),
            out@.len() == i,
            forall|j: int| 0 <= j < chosen@.len() ==> 0 <= (#[trigger] chosen@[j]).index < all@.len(),
            forall|j: int|
                0 <= j < i ==> (#[trigger] out@[j])@ == views(all@)[chosen@[j].index as int],
        decreases chosen@.len() - i,
    {
        let k: usize = chosen[i].index;
        out.push(all[k].clone());
        i = i + 1;
    }
    assert(views(out@) =~= views(chosen@).map_values(picked));
    assert(views(out@) =~= summary(text@, max_sentences as nat));
    out
}

} // verus!
