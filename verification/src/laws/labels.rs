//! How numbers, moments and names are put into words.

use vstd::prelude::*;

use crate::calendar::{MAX_TIMESTAMP, MIN_TIMESTAMP, UtcFields, is_utc, lemma_utc_unique, utc_of};
use crate::laws::rendering::{group_before, group_shows, shows_before, shows_part};
use crate::store::rules::{alias_of, before_at, normal_alias, without_at};
use crate::text::{
    char_alphanumeric, char_uppercase, char_whitespace, decimal_text, digits_text, escape_text,
    padded_text, trim_text, zeros,
};
use crate::view_model::CollectionState;
use crate::views::{
    CrumbRow, collection_note_html, crumb_html, crumb_items_html, crumbs_html, empty_note_html,
    fmt_ts_text, initial_text, iso8601_text, rel_time_text, replies_label_text, unread_label_text,
};
use crate::views::forum::unread_posts_label_text;
use crate::views::personal::continue_label_text;
use crate::views::shell::private_count_label_text;

verus! {

// ---------------------------------------------------------------------------
// Numbers.
// ---------------------------------------------------------------------------

/// The digit that a character stands for.
pub open spec fn digit_of(c: char) -> int {
    c as int - '0' as int
}

/// The number that a row of digits stands for.
pub open spec fn number_of(s: Seq<char>) -> int
    decreases s.len(),
{
    if s.len() == 0 {
        0
    } else {
        number_of(s.drop_last()) * 10 + digit_of(s.last())
    }
}

/// A number that is not negative is written in digits that stand for it, without a leading zero
/// unless it is zero itself.
pub proof fn law_digits_stand_for_the_number(n: nat)
    ensures
        number_of(digits_text(n)) == n,
        digits_text(n).len() >= 1,
        n > 0 ==> digits_text(n)[0] != '0',
        forall|i: int|
            0 <= i < digits_text(n).len() ==> '0' <= #[trigger] digits_text(n)[i]
                && digits_text(n)[i] <= '9',
    decreases n,
{
    let s = digits_text(n);
    if n < 10 {
        reveal_with_fuel(number_of, 2);
        assert(s.drop_last() =~= Seq::<char>::empty());
    } else {
        law_digits_stand_for_the_number(n / 10);
        assert(s.drop_last() =~= digits_text(n / 10));
        assert(s[0] == digits_text(n / 10)[0]);
        assert forall|i: int| 0 <= i < s.len() implies '0' <= #[trigger] s[i] && s[i] <= '9' by {
            if i < s.len() - 1 {
                assert(s[i] == digits_text(n / 10)[i]);
            }
        }
    }
}

/// A negative number is a minus before the digits of its opposite.
pub proof fn law_decimal_notation(n: int)
    ensures
        n >= 0 ==> number_of(decimal_text(n)) == n,
        n < 0 ==> decimal_text(n)[0] == '-' && number_of(decimal_text(n).drop_first()) == -n,
{
    if n >= 0 {
        law_digits_stand_for_the_number(n as nat);
    } else {
        law_digits_stand_for_the_number((-n) as nat);
        assert(decimal_text(n).drop_first() =~= digits_text((-n) as nat));
    }
}

/// A number that is not negative is filled up with zeros to its width, and still stands for itself.
pub proof fn law_padding_keeps_the_number(n: int, width: int)
    requires
        n >= 0,
    ensures
        number_of(padded_text(n, width)) == n,
        padded_text(n, width).len() >= width,
        digits_text(n as nat).len() >= width ==> padded_text(n, width) == digits_text(n as nat),
        digits_text(n as nat).len() <= width ==> padded_text(n, width).len() == width,
{
    let s = digits_text(n as nat);
    let front = zeros(width - s.len());
    law_digits_stand_for_the_number(n as nat);
    lemma_zeros_stand_for_nothing(front, s);
    if s.len() >= width {
        assert(front + s =~= s);
    }
}

proof fn lemma_zeros_stand_for_nothing(front: Seq<char>, s: Seq<char>)
    requires
        forall|i: int| 0 <= i < front.len() ==> #[trigger] front[i] == '0',
    ensures
        number_of(front + s) == number_of(s),
    decreases front.len() + s.len(),
{
    let all = front + s;
    if s.len() > 0 {
        lemma_zeros_stand_for_nothing(front, s.drop_last());
        assert(all.drop_last() =~= front + s.drop_last());
    } else if front.len() > 0 {
        let d = front.drop_last();
        assert forall|i: int| 0 <= i < d.len() implies #[trigger] d[i] == '0' by {
            assert(d[i] == front[i]);
        }
        lemma_zeros_stand_for_nothing(d, s);
        assert(all.drop_last() =~= d + s);
    } else {
        assert(all =~= s);
    }
}

// ---------------------------------------------------------------------------
// Counts.
// ---------------------------------------------------------------------------

/// A thread with its original post and `replies` more says how many replies it has.
pub proof fn law_replies_are_counted(replies: i64)
    requires
        0 <= replies < i64::MAX,
    ensures
        replies == 0 ==> replies_label_text((replies + 1) as i64) == "0 replies"@,
        replies == 1 ==> replies_label_text((replies + 1) as i64) == "1 reply"@,
        replies > 1 ==> replies_label_text((replies + 1) as i64) == decimal_text(replies as int)
            + " replies"@,
        replies_label_text(0) == "0 replies"@,
{
}

/// What is unread is counted, one in the singular.
pub proof fn law_unread_is_counted(n: i64)
    ensures
        n == 1 ==> unread_label_text(n) == "1 unread"@ && unread_posts_label_text(n)
            == "1 unread post"@,
        n != 1 ==> unread_label_text(n) == decimal_text(n as int) + " unread"@
            && unread_posts_label_text(n) == decimal_text(n as int) + " unread posts"@,
        continue_label_text(n) == "Continue · "@ + decimal_text(n as int) + " new"@,
{
}

/// A private count is named from one on, one in the singular; none and an unknown one are not.
pub proof fn law_private_count_is_named(n: i64, singular: Seq<char>, plural: Seq<char>)
    ensures
        n == 1 ==> private_count_label_text(Some(n), singular, plural) == "1 "@ + singular,
        n > 1 ==> private_count_label_text(Some(n), singular, plural) == decimal_text(n as int)
            + " "@ + plural,
        n <= 0 ==> private_count_label_text(Some(n), singular, plural).len() == 0,
        private_count_label_text(None, singular, plural).len() == 0,
{
}

// ---------------------------------------------------------------------------
// Moments.
// ---------------------------------------------------------------------------

/// The time since a moment is told in the largest whole unit: days, hours, minutes or seconds. What
/// is less than five seconds ago, or still to come, is now.
pub proof fn law_time_since_is_told(ts: i64, now: i64, whole: int)
    requires
        now - ts <= i64::MAX,
    ensures
        ({
            let d = now - ts;
            let text = rel_time_text(ts, now);
            &&& d < 5 ==> text == "just now"@
            &&& 5 <= d < 60 ==> text == decimal_text(d) + "s ago"@
            &&& 60 <= d < 60 * 60 && whole * 60 <= d < (whole + 1) * 60 ==> text == decimal_text(
                whole,
            ) + "m ago"@
            &&& 60 * 60 <= d < 24 * 60 * 60 && whole * (60 * 60) <= d < (whole + 1) * (60 * 60)
                ==> text == decimal_text(whole) + "h ago"@
            &&& 24 * 60 * 60 <= d && whole * (24 * 60 * 60) <= d < (whole + 1) * (24 * 60 * 60)
                ==> text == decimal_text(whole) + "d ago"@
        }),
{
    let d = now - ts;
    assert(whole * 60 <= d < (whole + 1) * 60 ==> d / 60 == whole);
    assert(whole * 3600 <= d < (whole + 1) * 3600 ==> d / 3600 == whole);
    assert(whole * 86400 <= d < (whole + 1) * 86400 ==> d / 86400 == whole);
}

/// The full time of a moment names its own date and time of day.
pub proof fn law_moment_is_named(secs: i64, at: UtcFields)
    requires
        MIN_TIMESTAMP <= secs <= MAX_TIMESTAMP,
        is_utc(at, secs as int),
    ensures
        iso8601_text(secs) == padded_text(at.year as int, 4) + "-"@ + padded_text(
            at.month as int,
            2,
        ) + "-"@ + padded_text(at.day as int, 2) + "T"@ + padded_text(at.hour as int, 2) + ":"@
            + padded_text(at.minute as int, 2) + ":"@ + padded_text(at.second as int, 2) + "Z"@,
        fmt_ts_text(secs) == padded_text(at.year as int, 4) + "-"@ + padded_text(at.month as int, 2)
            + "-"@ + padded_text(at.day as int, 2) + " "@ + padded_text(at.hour as int, 2) + ":"@
            + padded_text(at.minute as int, 2) + " UTC"@,
{
    let f = utc_of(secs)->0;
    assert(is_utc(f, secs as int));
    lemma_utc_unique(f, at, secs as int);
}

// ---------------------------------------------------------------------------
// Names.
// ---------------------------------------------------------------------------

/// The sign of a name is its first letter or digit, raised; a name without one has the sign of an
/// unknown.
pub proof fn law_sign_of_a_name(name: Seq<char>, i: int)
    requires
        0 <= i <= name.len(),
        forall|j: int| 0 <= j < i ==> !char_alphanumeric(#[trigger] name[j]),
        i < name.len() ==> char_alphanumeric(name[i]),
    ensures
        initial_text(name) == (if i < name.len() {
            char_uppercase(name[i])
        } else {
            "U"@
        }),
    decreases i,
{
    if i > 0 {
        assert(!char_alphanumeric(name[0]));
        let rest = name.drop_first();
        assert forall|j: int| 0 <= j < i - 1 implies !char_alphanumeric(#[trigger] rest[j]) by {
            assert(rest[j] == name[j + 1]);
        }
        law_sign_of_a_name(rest, i - 1);
    }
}

/// A word of letters, digits, dots, dashes and underscores that starts with a letter or digit and
/// is not too long is an alias, whatever its case and with any number of signs before it; its
/// normal form is the word in lower case.
pub proof fn law_alias_is_recognised(word: Seq<char>, signs: nat)
    requires
        0 < word.len() <= 64,
        is_letter_or_digit(word[0]),
        forall|i: int|
            0 <= i < word.len() ==> is_letter_or_digit(#[trigger] word[i]) || word[i] == '.'
                || word[i] == '-' || word[i] == '_',
    ensures
        ({
            let raw = Seq::new(signs, |i: int| '@') + word;
            &&& normal_alias(raw) is Some
            &&& normal_alias(raw)->0.len() == word.len()
            &&& forall|i: int|
                0 <= i < word.len() ==> same_letter(word[i], #[trigger] normal_alias(raw)->0[i])
        }),
{
    let at = Seq::new(signs, |i: int| '@');
    let raw = at + word;
    lemma_signs_go(word, signs);
    assert(trim_text(raw) == raw) by {
        assert(raw.last() == word.last());
        assert(raw[0] == '@' || raw[0] == word[0]);
        assert(!char_whitespace(raw[0]) && !char_whitespace(raw.last()));
    }
}

/// Whether a character is a letter or a digit of the alphabet of aliases.
pub open spec fn is_letter_or_digit(c: char) -> bool {
    'a' <= c <= 'z' || 'A' <= c <= 'Z' || '0' <= c <= '9'
}

/// Whether the second character is the first one in lower case.
pub open spec fn same_letter(c: char, lower: char) -> bool {
    if 'A' <= c <= 'Z' {
        lower as int - 'a' as int == c as int - 'A' as int
    } else {
        lower == c
    }
}

proof fn lemma_signs_go(word: Seq<char>, signs: nat)
    requires
        word.len() > 0,
        word[0] != '@',
    ensures
        without_at(Seq::new(signs, |i: int| '@') + word) == word,
    decreases signs,
{
    let raw = Seq::new(signs, |i: int| '@') + word;
    if signs > 0 {
        let fewer = (signs - 1) as nat;
        lemma_signs_go(word, fewer);
        assert(raw.drop_first() =~= Seq::new(fewer, |i: int| '@') + word);
    } else {
        assert(raw =~= word);
    }
}

/// The alias of an address is what stands before its first sign.
pub proof fn law_alias_of_an_address(subject: Seq<char>, local: Seq<char>, rest: Seq<char>)
    requires
        forall|i: int| 0 <= i < local.len() ==> #[trigger] local[i] != '@',
    ensures
        alias_of(subject, local + seq!['@'] + rest) == (if normal_alias(local) is Some {
            normal_alias(local)
        } else {
            normal_alias(subject)
        }),
        alias_of(subject, local) == (if normal_alias(local) is Some {
            normal_alias(local)
        } else {
            normal_alias(subject)
        }),
{
    lemma_local_part(local, seq!['@'] + rest);
    lemma_local_part(local, Seq::empty());
    assert(local + seq!['@'] + rest =~= local + (seq!['@'] + rest));
    assert(local + Seq::<char>::empty() =~= local);
}

proof fn lemma_local_part(local: Seq<char>, rest: Seq<char>)
    requires
        forall|i: int| 0 <= i < local.len() ==> #[trigger] local[i] != '@',
        rest.len() == 0 || rest[0] == '@',
    ensures
        before_at(local + rest) == local,
    decreases local.len(),
{
    let s = local + rest;
    if local.len() == 0 {
        assert(s =~= rest);
        assert(before_at(s) =~= local);
    } else {
        let d = local.drop_first();
        assert forall|i: int| 0 <= i < d.len() implies #[trigger] d[i] != '@' by {
            assert(d[i] == local[i + 1]);
        }
        lemma_local_part(d, rest);
        assert(s.drop_first() =~= d + rest);
        assert(s[0] == local[0]);
        assert(seq![s[0]] + d =~= local);
    }
}

// ---------------------------------------------------------------------------
// Trails and notes.
// ---------------------------------------------------------------------------

/// A trail shows each of its steps, in their order.
pub proof fn law_trail_keeps_its_order(steps: Seq<CrumbRow>, i: int, j: int)
    requires
        0 <= i < j < steps.len(),
    ensures
        shows_before(crumbs_html(steps), crumb_html(i == 0, steps[i]), crumb_html(j == 0, steps[j])),
{
    broadcast use {group_shows, group_before};

    lemma_trail_before(steps, i, j);
}

proof fn lemma_trail_shows(steps: Seq<CrumbRow>, i: int)
    requires
        0 <= i < steps.len(),
    ensures
        shows_part(crumb_items_html(steps), crumb_html(i == 0, steps[i])),
    decreases steps.len(),
{
    broadcast use group_shows;

    if i < steps.len() - 1 {
        lemma_trail_shows(steps.drop_last(), i);
        assert(steps.drop_last()[i] == steps[i]);
    }
}

proof fn lemma_trail_before(steps: Seq<CrumbRow>, i: int, j: int)
    requires
        0 <= i < j < steps.len(),
    ensures
        shows_before(
            crumb_items_html(steps),
            crumb_html(i == 0, steps[i]),
            crumb_html(j == 0, steps[j]),
        ),
    decreases steps.len(),
{
    broadcast use {group_shows, group_before};

    let d = steps.drop_last();
    assert(d[i] == steps[i]);
    if j < d.len() {
        lemma_trail_before(d, i, j);
        assert(d[j] == steps[j]);
    } else {
        lemma_trail_shows(d, i);
    }
}

/// A list that is ready has no note; every other state has one, under a title of its own.
pub proof fn law_notes_say_why(state: CollectionState, empty_msg: Seq<char>)
    ensures
        collection_note_html(state, empty_msg) is None <==> state is Ready,
        state is ReadyEmpty ==> shows_part(
            collection_note_html(state, empty_msg)->0,
            escape_text(empty_msg),
        ),
        state is End ==> shows_part(
            collection_note_html(state, empty_msg)->0,
            escape_text("You've reached the end"@),
        ),
        state is FilteredZero ==> shows_part(
            collection_note_html(state, empty_msg)->0,
            escape_text("No matches for this filter"@),
        ),
        state is TooShort ==> shows_part(
            collection_note_html(state, empty_msg)->0,
            escape_text("Keep typing"@),
        ),
        state is InvalidCursor ==> shows_part(
            collection_note_html(state, empty_msg)->0,
            escape_text("That page link expired"@),
        ),
        state is Unavailable ==> shows_part(
            collection_note_html(state, empty_msg)->0,
            escape_text("Temporarily unavailable"@),
        ),
        empty_note_html(state, empty_msg) == (if state is Ready {
            Seq::empty()
        } else {
            collection_note_html(state, empty_msg)->0
        }),
{
    broadcast use group_shows;

}

} // verus!
