//! What trimming and escaping promise.

use vstd::prelude::*;

use crate::text::{
    char_whitespace, escape_char, escape_text, trim_end_text, trim_start_text, trim_text,
};

verus! {

// ---------------------------------------------------------------------------
// Trimming.
// ---------------------------------------------------------------------------

proof fn lemma_trim_start(s: Seq<char>)
    ensures
        trim_start_text(s).len() == 0 || !char_whitespace(trim_start_text(s)[0]),
    decreases s.len(),
{
    if s.len() > 0 && char_whitespace(s[0]) {
        lemma_trim_start(s.drop_first());
    }
}

proof fn lemma_trim_end(s: Seq<char>)
    ensures
        trim_end_text(s).len() <= s.len(),
        trim_end_text(s) == s.take(trim_end_text(s).len() as int),
        trim_end_text(s).len() == 0 || !char_whitespace(trim_end_text(s).last()),
    decreases s.len(),
{
    if s.len() > 0 && char_whitespace(s.last()) {
        lemma_trim_end(s.drop_last());
        let n = trim_end_text(s).len() as int;
        assert(s.drop_last().take(n) =~= s.take(n));
    } else {
        assert(s.take(s.len() as int) =~= s);
    }
}

/// A trimmed text neither begins nor ends with whitespace, so trimming again changes nothing.
pub proof fn law_trimming_is_idempotent(s: Seq<char>)
    ensures
        trim_text(s).len() > 0 ==> !char_whitespace(trim_text(s)[0]) && !char_whitespace(
            trim_text(s).last(),
        ),
        trim_text(trim_text(s)) == trim_text(s),
{
    lemma_trim_start(s);
    lemma_trim_end(trim_start_text(s));
}

// ---------------------------------------------------------------------------
// Escaping.
// ---------------------------------------------------------------------------

/// The characters that HTML gives a meaning in text and in attributes, apart from the ampersand.
pub open spec fn markup_char(c: char) -> bool {
    c == '<' || c == '>' || c == '"' || c == '\''
}

proof fn lemma_entities()
    ensures
        "&amp;"@ =~= seq!['&', 'a', 'm', 'p', ';'],
        "&lt;"@ =~= seq!['&', 'l', 't', ';'],
        "&gt;"@ =~= seq!['&', 'g', 't', ';'],
        "&quot;"@ =~= seq!['&', 'q', 'u', 'o', 't', ';'],
        "&#x27;"@ =~= seq!['&', '#', 'x', '2', '7', ';'],
{
    reveal_strlit("&amp;");
    reveal_strlit("&lt;");
    reveal_strlit("&gt;");
    reveal_strlit("&quot;");
    reveal_strlit("&#x27;");
}

/// An escaped text holds no character that HTML would read as markup.
pub proof fn law_escaped_text_is_inert(s: Seq<char>)
    ensures
        forall|i: int| 0 <= i < escape_text(s).len() ==> !markup_char(#[trigger] escape_text(s)[i]),
    decreases s.len(),
{
    if s.len() > 0 {
        law_escaped_text_is_inert(s.drop_last());
        lemma_entities();
        let a = escape_text(s.drop_last());
        let b = escape_char(s.last());
        assert forall|i: int| 0 <= i < escape_text(s).len() implies !markup_char(
            #[trigger] escape_text(s)[i],
        ) by {
            if i < a.len() {
                assert(!markup_char(a[i]));
            } else {
                assert(!markup_char(b[i - a.len()]));
            }
        }
    }
}

/// Escaping works character by character.
pub proof fn law_escaping_is_local(a: Seq<char>, b: Seq<char>)
    ensures
        escape_text(a + b) == escape_text(a) + escape_text(b),
    decreases b.len(),
{
    if b.len() == 0 {
        assert(a + b =~= a);
        assert(escape_text(a) + escape_text(b) =~= escape_text(a));
    } else {
        law_escaping_is_local(a, b.drop_last());
        assert((a + b).drop_last() =~= a + b.drop_last());
        assert((a + b).last() == b.last());
        assert(escape_text(a) + escape_text(b) =~= (escape_text(a) + escape_text(b.drop_last()))
            + escape_char(b.last()));
    }
}

proof fn lemma_escape_first(s: Seq<char>)
    requires
        s.len() > 0,
    ensures
        escape_text(s) == escape_char(s[0]) + escape_text(s.drop_first()),
{
    let head = seq![s[0]];
    law_escaping_is_local(head, s.drop_first());
    assert(s =~= head + s.drop_first());
    assert(head.drop_last() =~= Seq::<char>::empty());
    assert(escape_text(head.drop_last()) =~= Seq::<char>::empty());
    assert(escape_text(head) =~= escape_char(s[0]));
}

/// Two texts that are escaped alike are the same text.
pub proof fn law_escaping_loses_nothing(a: Seq<char>, b: Seq<char>)
    requires
        escape_text(a) == escape_text(b),
    ensures
        a == b,
    decreases a.len(),
{
    lemma_entities();
    if a.len() == 0 {
        if b.len() > 0 {
            lemma_escape_first(b);
            assert(escape_text(b).len() > 0);
        }
    } else if b.len() == 0 {
        lemma_escape_first(a);
        assert(escape_text(a).len() > 0);
    } else {
        lemma_escape_first(a);
        lemma_escape_first(b);
        let x = escape_char(a[0]);
        let y = escape_char(b[0]);
        let s = escape_text(a);
        assert(s[0] == x[0] && s[0] == y[0]);
        if x.len() > 1 && y.len() > 1 {
            assert(s[1] == x[1] && s[1] == y[1]);
        }
        assert(a[0] == b[0]);
        let n = x.len() as int;
        assert(escape_text(a.drop_first()) =~= s.skip(n));
        assert(escape_text(b.drop_first()) =~= s.skip(n));
        law_escaping_loses_nothing(a.drop_first(), b.drop_first());
        assert(a =~= seq![a[0]] + a.drop_first());
        assert(b =~= seq![b[0]] + b.drop_first());
    }
}

} // verus!
