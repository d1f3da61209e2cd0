//! Text primitives shared by the store, the summariser, and the page renderers.

use vstd::prelude::*;
use vstd::string::{StrSliceExecFns, StringExecFns};

use crate::rows::{find_row, first_row, views};

verus! {

// ---------------------------------------------------------------------------
// What the standard library decides about characters and strings.
// ---------------------------------------------------------------------------

/// Whether `char::is_alphanumeric` holds of a character (a Unicode property).
pub uninterp spec fn char_alphanumeric(c: char) -> bool;

/// The characters that `char::to_uppercase` maps a character to.
pub uninterp spec fn char_uppercase(c: char) -> Seq<char>;

/// The characters that `char::to_lowercase` maps a character to.
pub uninterp spec fn char_lowercase(c: char) -> Seq<char>;

/// The text that `str::to_lowercase` maps a text to.
pub uninterp spec fn lowercase_text(s: Seq<char>) -> Seq<char>;

/// `String::push` appends one character.
pub assume_specification[ String::push ](s: &mut String, c: char)
    ensures
        final(s)@ == old(s)@.push(c),
;

/// `str`'s `==` compares two strings character by character.
pub assume_specification[ <str as PartialEq>::eq ](a: &str, b: &str) -> (r: bool)
    ensures
        r == (a@ == b@),
;

/// Whether two strings hold the same characters.
pub(crate) fn same(a: &str, b: &str) -> (r: bool)
    ensures
        r == (a@ == b@),
{
    *a == *b
}

/// `char::is_alphanumeric` depends on the character alone.
#[verifier::external_body]
pub(crate) fn is_alphanumeric(c: char) -> (r: bool)
    ensures
        r == char_alphanumeric(c),
{
    c.is_alphanumeric()
}

/// Whether a character has the Unicode property `White_Space`: the tab, the line breaks, the space,
/// the no-break space, and the spaces and separators of other scripts and widths.
pub open spec fn char_whitespace(c: char) -> bool {
    ||| '\u{9}' <= c && c <= '\u{d}'
    ||| c == '\u{20}'
    ||| c == '\u{85}'
    ||| c == '\u{a0}'
    ||| c == '\u{1680}'
    ||| '\u{2000}' <= c && c <= '\u{200a}'
    ||| c == '\u{2028}'
    ||| c == '\u{2029}'
    ||| c == '\u{202f}'
    ||| c == '\u{205f}'
    ||| c == '\u{3000}'
}

/// `char::is_whitespace` tests the Unicode property `White_Space`.
#[verifier::external_body]
pub(crate) fn is_whitespace(c: char) -> (r: bool)
    ensures
        r == char_whitespace(c),
{
    c.is_whitespace()
}

/// `char::to_uppercase` depends on the character alone.
#[verifier::external_body]
pub(crate) fn uppercase(c: char) -> (r: String)
    ensures
        r@ == char_uppercase(c),
{
    c.to_uppercase().to_string()
}

/// `char::to_lowercase` depends on the character alone.
#[verifier::external_body]
pub(crate) fn lowercase_char(c: char) -> (r: String)
    ensures
        r@ == char_lowercase(c),
{
    c.to_lowercase().to_string()
}

/// `str::to_lowercase` depends on the text alone.
#[verifier::external_body]
pub(crate) fn lowercase(s: &str) -> (r: String)
    ensures
        r@ == lowercase_text(s@),
{
    s.to_lowercase()
}

/// The order of texts: lexicographic by code point.
pub open spec fn text_less(a: Seq<char>, b: Seq<char>) -> bool
    decreases a.len(),
{
    if b.len() == 0 {
        false
    } else if a.len() == 0 {
        true
    } else if a[0] != b[0] {
        a[0] < b[0]
    } else {
        text_less(a.drop_first(), b.drop_first())
    }
}

/// `str`'s `<` orders strings by the positions of their code points in the code charts.
#[verifier::external_body]
pub(crate) fn str_less(a: &str, b: &str) -> (r: bool)
    ensures
        r == text_less(a@, b@),
{
    a < b
}

// ---------------------------------------------------------------------------
// Characters of a string.
// ---------------------------------------------------------------------------

/// The characters of a string, in order.
pub(crate) fn chars_of(s: &str) -> (out: Vec<char>)
    ensures
        out@ == s@,
{
    let mut out: Vec<char> = Vec::new();
    for c in it: s.chars()
        invariant
            it.seq() == s@,
            out@ == s@.take(it.index()),
    {
        out.push(c);
    }
    assert(s@.take(s@.len() as int) =~= s@);
    out
}

/// The string with the characters of `v` from `from` up to `to`.
pub(crate) fn string_of(v: &Vec<char>, from: usize, to: usize) -> (out: String)
    requires
        from <= to <= v@.len(),
    ensures
        out@ == v@.subrange(from as int, to as int),
{
    let mut out = String::new();
    let mut i: usize = from;
    while i < to
        invariant
            from <= i <= to <= v@.len(),
            out@ == v@.subrange(from as int, i as int),
        decreases to - i,
    {
        out.push(v[i]);
        assert(v@.subrange(from as int, i + 1) =~= v@.subrange(from as int, i as int).push(
            v@[i as int],
        ));
        i = i + 1;
    }
    out
}

// ---------------------------------------------------------------------------
// Trimming.
// ---------------------------------------------------------------------------

/// A text without its leading whitespace.
pub open spec fn trim_start_text(s: Seq<char>) -> Seq<char>
    decreases s.len(),
{
    if s.len() > 0 && char_whitespace(s[0]) {
        trim_start_text(s.drop_first())
    } else {
        s
    }
}

/// A text without its trailing whitespace.
pub open spec fn trim_end_text(s: Seq<char>) -> Seq<char>
    decreases s.len(),
{
    if s.len() > 0 && char_whitespace(s.last()) {
        trim_end_text(s.drop_last())
    } else {
        s
    }
}

/// A text without leading and trailing whitespace.
pub open spec fn trim_text(s: Seq<char>) -> Seq<char> {
    trim_end_text(trim_start_text(s))
}

/// Remove leading and trailing whitespace.
pub(crate) fn trim(s: &str) -> (out: String)
    ensures
        out@ == trim_text(s@),
{
    let v = chars_of(s);
    let n: usize = v.len();
    let mut i: usize = 0;
    assert(v@.subrange(0, n as int) =~= v@);
    while i < n && is_whitespace(v[i])
        invariant
            0 <= i <= n == v@.len(),
            trim_start_text(v@) == trim_start_text(v@.subrange(i as int, n as int)),
        ensures
            0 <= i <= n,
            trim_start_text(v@) == v@.subrange(i as int, n as int),
        decreases n - i,
    {
        assert(v@.subrange(i as int, n as int).drop_first() =~= v@.subrange(i + 1, n as int));
        i = i + 1;
    }
    let mut j: usize = n;
    while j > i && is_whitespace(v[j - 1])
        invariant
            i <= j <= n == v@.len(),
            trim_end_text(v@.subrange(i as int, n as int)) == trim_end_text(
                v@.subrange(i as int, j as int),
            ),
        ensures
            i <= j <= n,
            trim_end_text(v@.subrange(i as int, n as int)) == v@.subrange(i as int, j as int),
        decreases j,
    {
        assert(v@.subrange(i as int, j as int).drop_last() =~= v@.subrange(i as int, j - 1));
        j = j - 1;
    }
    string_of(&v, i, j)
}

/// Whether a text holds nothing but whitespace.
pub open spec fn blank_text(s: Seq<char>) -> bool {
    trim_text(s).len() == 0
}

/// Whether a string holds nothing but whitespace.
pub(crate) fn is_blank(s: &str) -> (r: bool)
    ensures
        r == blank_text(s@),
{
    trim(s).as_str().is_empty()
}

// ---------------------------------------------------------------------------
// Searching, and filling templates.
// ---------------------------------------------------------------------------

/// Whether `needle` stands in `hay` at position `i`.
pub open spec fn occurs_at(hay: Seq<char>, needle: Seq<char>, i: int) -> bool {
    0 <= i <= hay.len() - needle.len() && hay.subrange(i, i + needle.len()) == needle
}

/// Whether `needle` stands somewhere in `hay`.
pub open spec fn contains_text(hay: Seq<char>, needle: Seq<char>) -> bool {
    exists|i: int| #[trigger] occurs_at(hay, needle, i)
}

/// Whether `needle` stands in `hay` at `i`.
fn matches_at(hay: &Vec<char>, needle: &Vec<char>, i: usize) -> (r: bool)
    ensures
        r == occurs_at(hay@, needle@, i as int),
{
    if needle.len() > hay.len() || i > hay.len() - needle.len() {
        return false;
    }
    let size: usize = hay.len();
    let mut k: usize = 0;
    while k < needle.len()
        invariant
            0 <= k <= needle@.len(),
            size == hay@.len(),
            i <= hay@.len() - needle@.len(),
            forall|j: int| 0 <= j < k ==> hay@[i + j] == needle@[j],
        decreases needle@.len() - k,
    {
        if hay[i + k] != needle[k] {
            assert(hay@.subrange(i as int, i + needle@.len())[k as int] != needle@[k as int]);
            return false;
        }
        k = k + 1;
    }
    assert(hay@.subrange(i as int, i + needle@.len()) =~= needle@);
    true
}

/// Whether `hay` contains `needle`.
pub(crate) fn contains(hay: &str, needle: &str) -> (r: bool)
    ensures
        r == contains_text(hay@, needle@),
{
    let h = chars_of(hay);
    let n = chars_of(needle);
    if n.len() > h.len() {
        return false;
    }
    let last: usize = h.len() - n.len();
    let mut i: usize = 0;
    while i <= last
        invariant
            0 <= i <= last,
            last == h@.len() - n@.len(),
            h@ == hay@,
            n@ == needle@,
            forall|j: int| 0 <= j < i ==> !#[trigger] occurs_at(h@, n@, j),
        decreases last - i,
    {
        if matches_at(&h, &n, i) {
            return true;
        }
        if i == last {
            assert forall|j: int| !#[trigger] occurs_at(h@, n@, j) by {}
            return false;
        }
        i = i + 1;
    }
    false
}

/// A slot of a template: its name, and the text that stands in its place.
pub struct Slot<'a> {
    pub name: Vec<char>,
    pub text: &'a str,
}

/// The mathematical view of a slot.
pub struct SlotRow {
    pub name: Seq<char>,
    pub text: Seq<char>,
}

impl<'a> View for Slot<'a> {
    type V = SlotRow;

    open spec fn view(&self) -> SlotRow {
        SlotRow { name: self.name@, text: self.text@ }
    }
}

/// A slot with its text.
pub open spec fn slot_row(name: Seq<char>, text: Seq<char>) -> SlotRow {
    SlotRow { name, text }
}

/// A slot with its text.
pub(crate) fn slot<'a>(name: &str, text: &'a str) -> (r: Slot<'a>)
    ensures
        r@ == slot_row(name@, text@),
{
    Slot { name: chars_of(name), text }
}

/// The slots whose name stands in the template at a position.
pub open spec fn stands_at(template: Seq<char>, i: int) -> spec_fn(SlotRow) -> bool {
    |x: SlotRow| x.name.len() > 0 && occurs_at(template, x.name, i)
}

/// The template from a position on, with the text of a slot wherever its name stands. The template
/// is walked once: the texts are not searched for slots.
pub open spec fn filled_from(template: Seq<char>, slots: Seq<SlotRow>, i: int) -> Seq<char>
    decreases
            if i < template.len() {
                template.len() - i
            } else {
                0
            },
{
    if i < 0 || i >= template.len() {
        Seq::empty()
    } else {
        let here = first_row(slots, stands_at(template, i));
        if here is Some && here->0.name.len() > 0 {
            here->0.text + filled_from(template, slots, i + here->0.name.len())
        } else {
            seq![template[i]] + filled_from(template, slots, i + 1)
        }
    }
}

/// Fills the slots of a template.
pub(crate) fn fill_slots(template: &str, slots: &Vec<Slot<'_>>) -> (out: String)
    ensures
        out@ == filled_from(template@, views(slots@), 0),
{
    let v = chars_of(template);
    let n: usize = v.len();
    let mut out = String::new();
    let mut i: usize = 0;
    let ghost all = filled_from(template@, views(slots@), 0);
    assert(out@ + all =~= all);
    while i < n
        invariant
            0 <= i <= n == v@.len(),
            v@ == template@,
            out@ + filled_from(template@, views(slots@), i as int) == all,
        decreases n - i,
    {
        let at: usize = i;
        let chars = &v;
        let test = |x: &Slot<'_>| -> (b: bool)
            ensures
                b == stands_at(chars@, at as int)(x@),
            { x.name.len() > 0 && matches_at(chars, &x.name, at) };
        let found = find_row(slots, test, Ghost(stands_at(v@, at as int)));
        let ghost before = out@;
        match found {
            Some(k) => {
                let x = &slots[k];
                out.append(x.text);
                assert(out@ + filled_from(template@, views(slots@), i + x.name@.len()) =~= before
                    + filled_from(template@, views(slots@), i as int));
                i = i + x.name.len();
            },
            None => {
                out.push(v[i]);
                assert(out@ + filled_from(template@, views(slots@), i + 1) =~= before
                    + filled_from(template@, views(slots@), i as int));
                i = i + 1;
            },
        }
    }
    assert(out@ + filled_from(template@, views(slots@), n as int) =~= out@);
    out
}

// ---------------------------------------------------------------------------
// HTML escaping.
// ---------------------------------------------------------------------------

/// The five HTML metacharacters map to entities; every other character stands for itself.
pub open spec fn escape_char(c: char) -> Seq<char> {
    if c == '&' {
        "&amp;"@
    } else if c == '<' {
        "&lt;"@
    } else if c == '>' {
        "&gt;"@
    } else if c == '"' {
        "&quot;"@
    } else if c == '\'' {
        "&#x27;"@
    } else {
        seq![c]
    }
}

/// The escaped form of a whole text.
pub open spec fn escape_text(s: Seq<char>) -> Seq<char>
    decreases s.len(),
{
    if s.len() == 0 {
        Seq::empty()
    } else {
        escape_text(s.drop_last()) + escape_char(s.last())
    }
}

/// Minimal HTML escaping for text and attribute interpolation.
pub fn escape(s: &str) -> (out: String)
    ensures
        out@ == escape_text(s@),
{
    let mut out = String::new();
    for c in it: s.chars()
        invariant
            it.seq() == s@,
            out@ == escape_text(s@.take(it.index())),
    {
        let ghost i = it.index();
        assert(s@.take(i + 1).drop_last() =~= s@.take(i));
        if c == '&' {
            out.append("&amp;");
        } else if c == '<' {
            out.append("&lt;");
        } else if c == '>' {
            out.append("&gt;");
        } else if c == '"' {
            out.append("&quot;");
        } else if c == '\'' {
            out.append("&#x27;");
        } else {
            out.push(c);
        }
    }
    assert(s@.take(s@.len() as int) =~= s@);
    out
}

// ---------------------------------------------------------------------------
// Numbers.
// ---------------------------------------------------------------------------

/// The decimal digit with value `d`.
pub open spec fn digit_char(d: int) -> char {
    if d == 0 { '0' } else if d == 1 { '1' } else if d == 2 { '2' } else if d == 3 { '3' } else if d
        == 4 { '4' } else if d == 5 { '5' } else if d == 6 { '6' } else if d == 7 { '7' } else if d
        == 8 { '8' } else { '9' }
}

fn digit(d: u64) -> (c: char)
    requires
        d < 10,
    ensures
        c == digit_char(d as int),
{
    if d == 0 { '0' } else if d == 1 { '1' } else if d == 2 { '2' } else if d == 3 { '3' } else if d
        == 4 { '4' } else if d == 5 { '5' } else if d == 6 { '6' } else if d == 7 { '7' } else if d
        == 8 { '8' } else { '9' }
}

/// The decimal digits of a natural number, most significant first.
pub open spec fn digits_text(n: nat) -> Seq<char>
    decreases n,
{
    if n < 10 {
        seq![digit_char(n as int)]
    } else {
        digits_text(n / 10).push(digit_char((n % 10) as int))
    }
}

/// An integer in decimal notation.
pub open spec fn decimal_text(n: int) -> Seq<char> {
    if n < 0 {
        seq!['-'] + digits_text((-n) as nat)
    } else {
        digits_text(n as nat)
    }
}

fn digits(n: u64) -> (out: String)
    ensures
        out@ == digits_text(n as nat),
    decreases n,
{
    if n < 10 {
        let mut out = String::new();
        out.push(digit(n));
        assert(out@ =~= seq![digit_char(n as int)]);
        out
    } else {
        let mut out = digits(n / 10);
        out.push(digit(n % 10));
        out
    }
}

/// An integer in decimal notation.
pub(crate) fn decimal(n: i64) -> (out: String)
    ensures
        out@ == decimal_text(n as int),
{
    if n < 0 {
        let m: u64 = (-(n as i128)) as u64;
        let mut out = String::new();
        out.push('-');
        assert(out@ =~= seq!['-']);
        out.append(digits(m).as_str());
        out
    } else {
        digits(n as u64)
    }
}

/// As many zeros as asked for.
pub open spec fn zeros(n: int) -> Seq<char> {
    Seq::new(
        if n > 0 {
            n as nat
        } else {
            0
        },
        |i: int| '0',
    )
}

/// An integer in decimal notation, filled up with zeros behind its sign to a width.
pub open spec fn padded_text(n: int, width: int) -> Seq<char> {
    if n < 0 {
        seq!['-'] + zeros(width - 1 - digits_text((-n) as nat).len()) + digits_text((-n) as nat)
    } else {
        zeros(width - digits_text(n as nat).len()) + digits_text(n as nat)
    }
}

/// An integer in decimal notation, filled up with zeros behind its sign to a width.
pub(crate) fn padded(n: i32, width: usize) -> (out: String)
    ensures
        out@ == padded_text(n as int, width as int),
{
    let mut out = String::new();
    let mut room: usize = width;
    let m: u64 = if n < 0 {
        out.push('-');
        (-(n as i64)) as u64
    } else {
        n as u64
    };
    if n < 0 && room > 0 {
        room = room - 1;
    }
    let sign = out.clone();
    assert(sign@ =~= if n < 0 {
        seq!['-']
    } else {
        Seq::empty()
    });
    let d = digits(m);
    let used: usize = d.as_str().unicode_len();
    let mut i: usize = 0;
    assert(out@ =~= sign@ + zeros(0));
    while used < room && i < room - used
        invariant
            0 <= i,
            used < room ==> i <= room - used,
            used >= room ==> i == 0,
            out@ == sign@ + zeros(i as int),
        decreases room - i,
    {
        out.push('0');
        assert(out@ =~= sign@ + zeros(i + 1));
        i = i + 1;
    }
    out.append(d.as_str());
    assert(out@ =~= padded_text(n as int, width as int));
    out
}

/// A length in decimal notation.
pub(crate) fn decimal_len(n: usize) -> (out: String)
    ensures
        out@ == decimal_text(n as int),
{
    digits(n as u64)
}

} // verus!
