//! Lists of texts: membership, distinct members, and ascending sets.

use vstd::prelude::*;

use crate::rows::{any_row, deduped, insert_row, insert_sorted, views};
use crate::text::{same, str_less, text_less};

verus! {

/// Whether a text may stand before another one.
pub open spec fn text_le() -> spec_fn(Seq<char>, Seq<char>) -> bool {
    |a: Seq<char>, b: Seq<char>| !text_less(b, a)
}

/// Whether a text equals `x`.
pub open spec fn is_text(x: Seq<char>) -> spec_fn(Seq<char>) -> bool {
    |t: Seq<char>| t == x
}

/// The distinct texts of `s`, ascending.
pub open spec fn ordered_set(s: Seq<Seq<char>>) -> Seq<Seq<char>>
    decreases s.len(),
{
    if s.len() == 0 {
        s
    } else {
        let rest = ordered_set(s.drop_last());
        if rest.contains(s.last()) {
            rest
        } else {
            insert_sorted(rest, s.last(), text_le())
        }
    }
}

/// Whether a list holds the text.
pub(crate) fn has_text(list: &Vec<String>, x: &str) -> (r: bool)
    ensures
        r == views(list@).contains(x@),
{
    let test = |t: &String| -> (b: bool)
        ensures
            b == is_text(x@)(t@),
        { same(t.as_str(), x) };
    let r = any_row(list, test, Ghost(is_text(x@)));
    proof {
        let s = views(list@);
        if r {
            let i = choose|i: int| 0 <= i < s.len() && is_text(x@)(#[trigger] s[i]);
            assert(s[i] == x@);
        } else if s.contains(x@) {
            let i = choose|i: int| 0 <= i < s.len() && s[i] == x@;
            assert(is_text(x@)(s[i]));
        }
    }
    r
}

/// Add a text to an ascending list of distinct texts.
pub(crate) fn add_ordered(list: &mut Vec<String>, x: String)
    ensures
        views(final(list)@) == if views(old(list)@).contains(x@) {
            views(old(list)@)
        } else {
            insert_sorted(views(old(list)@), x@, text_le())
        },
{
    if !has_text(list, x.as_str()) {
        let le = |a: &String, b: &String| -> (r: bool)
            ensures
                r == text_le()(a@, b@),
            { !str_less(b.as_str(), a.as_str()) };
        insert_row(list, x, &le, Ghost(text_le()));
    }
}

/// The distinct names, in the order of their first occurrence.
pub(crate) fn distinct_names(names: &[String]) -> (out: Vec<String>)
    ensures
        views(out@) == deduped(views(names@)),
{
    let ghost s = views(names@);
    let mut out: Vec<String> = Vec::new();
    let mut i: usize = 0;
    assert(views(out@) =~= deduped(s.take(0)));
    while i < names.len()
        invariant
            0 <= i <= names@.len(),
            s == views(names@),
            views(out@) == deduped(s.take(i as int)),
        decreases names@.len() - i,
    {
        assert(s.take(i + 1).drop_last() =~= s.take(i as int));
        assert(s[i as int] == names@[i as int]@);
        if !has_text(&out, names[i].as_str()) {
            let ghost before = out@;
            out.push(names[i].clone());
            assert(views(out@) =~= views(before).push(names@[i as int]@));
        }
        i = i + 1;
    }
    assert(s.take(s.len() as int) =~= s);
    out
}

} // verus!
