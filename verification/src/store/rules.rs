//! Rules of the store that depend on their arguments alone: addressing, bounds, validation, and
//! the ranking of private signals.

use vstd::prelude::*;
use vstd::string::StrSliceExecFns;

use crate::model::{
    ActivityDelivery, ActivityDeliveryRow, ActivityReason, ActivityRecipientKind, Bookmark,
    BookmarkRow, CategoryFocusLevel, Post, PostRow, ThreadFollowLevel, ThreadReadingState,
    ThreadReadingStateRow,
};
use crate::rows::{
    Record, any_row, as_count, count, count_rows, deduped, find_row, first_index, opt, some_row,
    to_count, views,
};
use crate::store::types::{
    ActivityFilter, BookmarkCas, BookmarkState, CatchUpCursor, CatchUpCursorRow, CatchUpReason,
    CatchUpView, CategoryFocusReason, Failure, MAX_BOOKMARK_NOTE_CHARS, MAX_CATCH_UP_PAGE,
    MAX_CATEGORY_FOCUS_PAGE, MAX_FOR_YOU_CANDIDATES, MAX_MENTIONS_PER_POST,
    MAX_REMINDER_HORIZON_SECS, MAX_THREAD_READING_STATE_BATCH, MAX_THREAD_READ_BATCH, StoreError,
    conflict, invalid, listed, plain,
};
use crate::text::{
    blank_text, chars_of, is_blank, same, string_of, trim, trim_start_text, trim_text,
};
use crate::texts::{add_ordered, has_text, ordered_set};

verus! {

// ---------------------------------------------------------------------------
// Addressing.
// ---------------------------------------------------------------------------

/// The delivery to `recipient`, unless it is blank or the actor.
pub open spec fn delivery_to(
    recipient: Seq<char>,
    actor_sub: Seq<char>,
    reason: ActivityReason,
) -> Option<ActivityDeliveryRow> {
    let key = trim_text(recipient);
    if key.len() == 0 || key == actor_sub {
        None
    } else {
        Some(
            ActivityDeliveryRow {
                recipient_kind: ActivityRecipientKind::Subject,
                recipient_key: key,
                reason,
            },
        )
    }
}

/// Address a delivery to a subject; nobody is told about their own action.
pub fn subject_delivery(recipient: &str, actor_sub: &str, reason: ActivityReason) -> (r: Option<
    ActivityDelivery,
>)
    ensures
        opt(r) == delivery_to(recipient@, actor_sub@, reason),
{
    let key = trim(recipient);
    if key.as_str().is_empty() || same(key.as_str(), actor_sub) {
        return None;
    }
    Some(
        ActivityDelivery {
            recipient_kind: ActivityRecipientKind::Subject,
            recipient_key: key,
            reason,
        },
    )
}

/// An ASCII letter or digit.
pub open spec fn ascii_alphanumeric(c: char) -> bool {
    ('a' <= c && c <= 'z') || ('A' <= c && c <= 'Z') || ('0' <= c && c <= '9')
}

/// A character that may stand in an alias.
pub open spec fn alias_char(c: char) -> bool {
    ascii_alphanumeric(c) || c == '_' || c == '-' || c == '.'
}

/// The lower case of an ASCII letter; every other character stands for itself.
pub open spec fn ascii_lower(c: char) -> char {
    if 'A' <= c && c <= 'Z' {
        ((c as u8) + 32) as char
    } else {
        c
    }
}

/// A text without its leading `@` signs.
pub open spec fn without_at(s: Seq<char>) -> Seq<char>
    decreases s.len(),
{
    if s.len() > 0 && s[0] == '@' {
        without_at(s.drop_first())
    } else {
        s
    }
}

/// Whether a text is an alias: 1 to 64 letters, digits, `_`, `-` or `.`, the first a letter or
/// digit.
pub open spec fn alias_shape(s: Seq<char>) -> bool {
    &&& 0 < s.len() <= 64
    &&& ascii_alphanumeric(s[0])
    &&& forall|i: int| 0 <= i < s.len() ==> alias_char(#[trigger] s[i])
}

/// The normal form of a written alias.
pub open spec fn normal_alias(raw: Seq<char>) -> Option<Seq<char>> {
    let alias = without_at(trim_text(raw));
    if alias_shape(alias) {
        Some(alias.map_values(|c: char| ascii_lower(c)))
    } else {
        None
    }
}

fn is_ascii_alphanumeric(c: char) -> (r: bool)
    ensures
        r == ascii_alphanumeric(c),
{
    ('a' <= c && c <= 'z') || ('A' <= c && c <= 'Z') || ('0' <= c && c <= '9')
}

fn to_ascii_lower(c: char) -> (r: char)
    ensures
        r == ascii_lower(c),
{
    if 'A' <= c && c <= 'Z' {
        ((c as u8) + 32) as char
    } else {
        c
    }
}

/// Whether a character may stand in an alias.
fn is_alias_char(c: char) -> (r: bool)
    ensures
        r == alias_char(c),
{
    is_ascii_alphanumeric(c) || c == '_' || c == '-' || c == '.'
}

/// What is in normal form is its own normal form, with `@` before it or without.
proof fn lemma_normal_form(s: Seq<char>)
    requires
        alias_shape(s),
        forall|i: int| 0 <= i < s.len() ==> ascii_lower(#[trigger] s[i]) == s[i],
    ensures
        normal_alias(s) == Some(s),
        normal_alias(seq!['@'] + s) == Some(s),
{
    let at = seq!['@'] + s;
    assert(s.map_values(|c: char| ascii_lower(c)) =~= s);
    assert(trim_text(s) == s);
    assert(without_at(s) == s);
    assert(at.drop_first() =~= s);
    assert(at.last() == s.last());
    assert(trim_start_text(s) == s);
    assert(trim_text(at) == at || trim_text(at) == s);
    assert(without_at(at) == without_at(s));
}

/// Normalise a written alias, with or without `@`; `None` when it is not one. Normalising what came
/// out, with or without `@`, changes nothing.
pub fn normalize_activity_alias(raw: &str) -> (r: Option<String>)
    ensures
        opt(r) == normal_alias(raw@),
        r is Some ==> normal_alias(r->0@) == Some(r->0@),
        r is Some ==> normal_alias(seq!['@'] + r->0@) == Some(r->0@),
{
    let trimmed = trim(raw);
    let v = chars_of(trimmed.as_str());
    let n: usize = v.len();
    let mut start: usize = 0;
    assert(v@.subrange(0, n as int) =~= v@);
    while start < n && v[start] == '@'
        invariant
            0 <= start <= n == v@.len(),
            without_at(v@) == without_at(v@.subrange(start as int, n as int)),
        ensures
            0 <= start <= n,
            without_at(v@) == v@.subrange(start as int, n as int),
        decreases n - start,
    {
        assert(v@.subrange(start as int, n as int).drop_first() =~= v@.subrange(
            start + 1,
            n as int,
        ));
        start = start + 1;
    }
    let ghost alias = v@.subrange(start as int, n as int);
    if start == n || n - start > 64 || !is_ascii_alphanumeric(v[start]) {
        return None;
    }
    let mut out = String::new();
    let mut i: usize = start;
    while i < n
        invariant
            start <= i <= n == v@.len(),
            alias == v@.subrange(start as int, n as int),
            alias == without_at(trim_text(raw@)),
            forall|j: int| 0 <= j < i - start ==> alias_char(#[trigger] alias[j]),
            out@ == alias.take(i - start).map_values(|c: char| ascii_lower(c)),
        decreases n - i,
    {
        let c = to_ascii_lower(v[i]);
        assert(alias[i - start] == v@[i as int]);
        if !is_alias_char(c) {
            assert(!alias_char(alias[i - start]));
            return None;
        }
        out.push(c);
        assert(out@ =~= alias.take(i - start + 1).map_values(|c: char| ascii_lower(c)));
        i = i + 1;
    }
    assert(alias.take(n - start) =~= alias);
    proof {
        assert(ascii_alphanumeric(out@[0]));
        lemma_normal_form(out@);
    }
    Some(out)
}

/// The part of a text before its first `@`, or all of it.
pub open spec fn before_at(s: Seq<char>) -> Seq<char>
    decreases s.len(),
{
    if s.len() == 0 || s[0] == '@' {
        Seq::empty()
    } else {
        seq![s[0]] + before_at(s.drop_first())
    }
}

/// The alias a subject is mentioned by: the local part of the email, else the subject.
pub open spec fn alias_of(subject: Seq<char>, email: Seq<char>) -> Option<Seq<char>> {
    match normal_alias(before_at(email)) {
        Some(alias) => Some(alias),
        None => normal_alias(subject),
    }
}

fn local_part(email: &str) -> (out: String)
    ensures
        out@ == before_at(email@),
{
    let v = chars_of(email);
    let mut i: usize = 0;
    assert(v@.skip(0) =~= v@);
    assert(v@.take(0) + before_at(v@) =~= before_at(v@));
    while i < v.len() && v[i] != '@'
        invariant
            0 <= i <= v@.len(),
            before_at(v@) == v@.take(i as int) + before_at(v@.skip(i as int)),
        ensures
            0 <= i <= v@.len(),
            before_at(v@) == v@.take(i as int),
        decreases v@.len() - i,
    {
        assert(v@.skip(i as int).drop_first() =~= v@.skip(i + 1));
        assert(v@.take(i as int) + (seq![v@[i as int]] + before_at(v@.skip(i + 1))) =~= v@.take(
            i + 1,
        ) + before_at(v@.skip(i + 1)));
        i = i + 1;
        proof {
            if i == v@.len() || v@[i as int] == '@' {
                assert(before_at(v@.skip(i as int)) =~= Seq::<char>::empty());
                assert(v@.take(i as int) + Seq::<char>::empty() =~= v@.take(i as int));
            }
        }
    }
    assert(v@.subrange(0, i as int) =~= v@.take(i as int));
    string_of(&v, 0, i)
}

/// The alias a subject is mentioned by.
pub fn identity_alias(subject: &str, email: &str) -> (r: Option<String>)
    ensures
        opt(r) == alias_of(subject@, email@),
{
    match normalize_activity_alias(local_part(email).as_str()) {
        Some(alias) => Some(alias),
        None => normalize_activity_alias(subject),
    }
}

/// The distinct normal aliases among the written ones, in the order of their first occurrence.
pub open spec fn alias_list(raw: Seq<Seq<char>>) -> Seq<Seq<char>>
    decreases raw.len(),
{
    if raw.len() == 0 {
        Seq::empty()
    } else {
        let rest = alias_list(raw.drop_last());
        match normal_alias(raw.last()) {
            Some(alias) => if rest.contains(alias) {
                rest
            } else {
                rest.push(alias)
            },
            None => rest,
        }
    }
}

/// The aliases a post mentions, or the failure when there are too many.
pub open spec fn mention_aliases(raw: Seq<Seq<char>>) -> Result<Seq<Seq<char>>, Failure> {
    if alias_list(raw).len() > MAX_MENTIONS_PER_POST {
        Err(Failure::InvalidOperation("a post may mention at most 32 aliases"@))
    } else {
        Ok(alias_list(raw))
    }
}

/// Normalise and deduplicate the aliases a post mentions, and bound their number.
pub fn bounded_mention_aliases(mentioned_aliases: &[String]) -> (r: Result<Vec<String>, StoreError>)
    ensures
        listed(r) == mention_aliases(views(mentioned_aliases@)),
{
    let ghost s = views(mentioned_aliases@);
    let mut aliases: Vec<String> = Vec::new();
    let mut i: usize = 0;
    assert(views(aliases@) =~= alias_list(s.take(0)));
    while i < mentioned_aliases.len()
        invariant
            0 <= i <= mentioned_aliases@.len(),
            s == views(mentioned_aliases@),
            views(aliases@) == alias_list(s.take(i as int)),
        decreases mentioned_aliases@.len() - i,
    {
        assert(s.take(i + 1).drop_last() =~= s.take(i as int));
        assert(s[i as int] == mentioned_aliases@[i as int]@);
        if let Some(alias) = normalize_activity_alias(mentioned_aliases[i].as_str()) {
            if !has_text(&aliases, alias.as_str()) {
                let ghost before = aliases@;
                aliases.push(alias);
                assert(views(aliases@) =~= views(before).push(alias@));
            }
        }
        i = i + 1;
    }
    assert(s.take(s.len() as int) =~= s);
    if aliases.len() > MAX_MENTIONS_PER_POST {
        return Err(invalid("a post may mention at most 32 aliases"));
    }
    Ok(aliases)
}

// ---------------------------------------------------------------------------
// Deliveries.
// ---------------------------------------------------------------------------

/// Whether a delivery equals `d`.
pub open spec fn is_delivery(d: ActivityDeliveryRow) -> spec_fn(ActivityDeliveryRow) -> bool {
    |r: ActivityDeliveryRow| r == d
}

fn same_delivery(a: &ActivityDelivery, b: &ActivityDelivery) -> (r: bool)
    ensures
        r == (a@ == b@),
{
    a.recipient_kind == b.recipient_kind && a.recipient_key == b.recipient_key && a.reason
        == b.reason
}

/// Keep the first of equal deliveries.
pub fn dedupe_deliveries(deliveries: &mut Vec<ActivityDelivery>)
    ensures
        views(final(deliveries)@) == deduped(views(old(deliveries)@)),
{
    let ghost s = views(deliveries@);
    let mut out: Vec<ActivityDelivery> = Vec::new();
    let mut i: usize = 0;
    assert(views(out@) =~= deduped(s.take(0)));
    while i < deliveries.len()
        invariant
            0 <= i <= deliveries@.len(),
            s == views(deliveries@),
            views(out@) == deduped(s.take(i as int)),
        decreases deliveries@.len() - i,
    {
        let ghost d = deliveries@[i as int]@;
        assert(s.take(i + 1).drop_last() =~= s.take(i as int));
        let current = &deliveries[i];
        let test = |r: &ActivityDelivery| -> (b: bool)
            ensures
                b == is_delivery(current@)(r@),
            { same_delivery(r, current) };
        let known = any_row(&out, test, Ghost(is_delivery(d)));
        proof {
            let t = views(out@);
            if known {
                let k = choose|k: int| 0 <= k < t.len() && is_delivery(d)(#[trigger] t[k]);
                assert(t[k] == d);
            } else if t.contains(d) {
                let k = choose|k: int| 0 <= k < t.len() && t[k] == d;
                assert(is_delivery(d)(t[k]));
            }
        }
        if !known {
            let ghost before = out@;
            out.push(deliveries[i].duplicate());
            assert(views(out@) =~= views(before).push(d));
        }
        i = i + 1;
    }
    assert(s.take(s.len() as int) =~= s);
    *deliveries = out;
}

/// The recipients of the deliveries.
pub open spec fn recipients(s: Seq<ActivityDeliveryRow>) -> Seq<Seq<char>> {
    s.map_values(|d: ActivityDeliveryRow| d.recipient_key)
}

/// The distinct subjects that receive a delivery, ascending.
pub fn delivery_subjects(deliveries: &Vec<ActivityDelivery>) -> (out: Vec<String>)
    ensures
        views(out@) == ordered_set(recipients(views(deliveries@))),
{
    let ghost s = recipients(views(deliveries@));
    let mut out: Vec<String> = Vec::new();
    let mut i: usize = 0;
    assert(views(out@) =~= ordered_set(s.take(0)));
    while i < deliveries.len()
        invariant
            0 <= i <= deliveries@.len(),
            s == recipients(views(deliveries@)),
            views(out@) == ordered_set(s.take(i as int)),
        decreases deliveries@.len() - i,
    {
        assert(s.take(i + 1).drop_last() =~= s.take(i as int));
        assert(s.take(i + 1).last() == deliveries@[i as int].recipient_key@);
        add_ordered(&mut out, deliveries[i].recipient_key.clone());
        i = i + 1;
    }
    assert(s.take(s.len() as int) =~= s);
    out
}

/// Whether a delivery is for the viewer.
pub open spec fn delivered_to(d: ActivityDeliveryRow, viewer_sub: Seq<char>) -> bool {
    d.recipient_kind is Subject && d.recipient_key == viewer_sub
}

/// Whether a delivery is for the viewer.
pub fn delivery_matches_viewer(delivery: &ActivityDelivery, viewer_sub: &str) -> (r: bool)
    ensures
        r == delivered_to(delivery@, viewer_sub@),
{
    delivery.recipient_kind == ActivityRecipientKind::Subject && same(
        delivery.recipient_key.as_str(),
        viewer_sub,
    )
}

/// The reason with the lowest rank among the deliveries.
pub open spec fn best_reason(s: Seq<ActivityDeliveryRow>) -> Option<ActivityReason>
    decreases s.len(),
{
    if s.len() == 0 {
        None
    } else {
        match best_reason(s.drop_last()) {
            Some(best) => if s.last().reason.rank() < best.rank() {
                Some(s.last().reason)
            } else {
                Some(best)
            },
            None => Some(s.last().reason),
        }
    }
}

/// The reason with the lowest rank among the deliveries.
pub fn best_activity_reason(deliveries: &Vec<ActivityDelivery>) -> (r: Option<ActivityReason>)
    ensures
        r == best_reason(views(deliveries@)),
{
    let ghost s = views(deliveries@);
    let mut best: Option<ActivityReason> = None;
    let mut i: usize = 0;
    while i < deliveries.len()
        invariant
            0 <= i <= deliveries@.len(),
            s == views(deliveries@),
            best == best_reason(s.take(i as int)),
        decreases deliveries@.len() - i,
    {
        assert(s.take(i + 1).drop_last() =~= s.take(i as int));
        let reason = deliveries[i].reason;
        best = match best {
            Some(b) => if reason.priority() < b.priority() {
                Some(reason)
            } else {
                Some(b)
            },
            None => Some(reason),
        };
        i = i + 1;
    }
    assert(s.take(s.len() as int) =~= s);
    best
}

/// Whether a filter lets a reason through.
pub open spec fn filter_admits(filter: ActivityFilter, reason: ActivityReason) -> bool {
    match filter {
        ActivityFilter::All => true,
        ActivityFilter::Reason(expected) => expected == reason,
    }
}

/// Whether a filter lets a reason through.
pub fn activity_filter_matches(filter: ActivityFilter, reason: ActivityReason) -> (r: bool)
    ensures
        r == filter_admits(filter, reason),
{
    match filter {
        ActivityFilter::All => true,
        ActivityFilter::Reason(expected) => expected == reason,
    }
}

// ---------------------------------------------------------------------------
// Bookmarks.
// ---------------------------------------------------------------------------

/// A note holds at most 200 characters.
pub open spec fn note_check(note: Seq<char>) -> Result<(), Failure> {
    if note.len() > MAX_BOOKMARK_NOTE_CHARS {
        Err(Failure::InvalidOperation("bookmark note may contain at most 200 characters"@))
    } else {
        Ok(())
    }
}

/// Check the length of a bookmark note.
pub fn validate_bookmark_note(note: &str) -> (r: Result<(), StoreError>)
    ensures
        plain(r) == note_check(note@),
{
    if note.unicode_len() > MAX_BOOKMARK_NOTE_CHARS {
        return Err(invalid("bookmark note may contain at most 200 characters"));
    }
    Ok(())
}

/// A reminder lies after `now` and at most the horizon ahead.
pub open spec fn reminder_check(remind_at: int, now: int) -> Result<(), Failure> {
    if remind_at <= now {
        Err(Failure::InvalidOperation("bookmark reminder must be in the future"@))
    } else if remind_at > now + MAX_REMINDER_HORIZON_SECS {
        Err(
            Failure::InvalidOperation("bookmark reminder may be at most 10 years in the future"@),
        )
    } else {
        Ok(())
    }
}

/// Check that a reminder lies in the future and within the horizon.
pub fn validate_future_reminder(remind_at: i64, now: i64) -> (r: Result<(), StoreError>)
    ensures
        plain(r) == reminder_check(remind_at as int, now as int),
{
    if remind_at <= now {
        return Err(invalid("bookmark reminder must be in the future"));
    }
    if remind_at as i128 > now as i128 + MAX_REMINDER_HORIZON_SECS as i128 {
        return Err(invalid("bookmark reminder may be at most 10 years in the future"));
    }
    Ok(())
}

/// The version behind `version`, unless it is the last one.
pub open spec fn next_version(version: i64) -> Result<i64, Failure> {
    if version == i64::MAX {
        Err(Failure::Conflict("bookmark version is exhausted; reload and retry"@))
    } else {
        Ok((version + 1) as i64)
    }
}

/// The version behind `version`.
pub fn next_bookmark_version(version: i64) -> (r: Result<i64, StoreError>)
    ensures
        plain(r) == next_version(version),
{
    if version == i64::MAX {
        return Err(conflict("bookmark version is exhausted; reload and retry"));
    }
    Ok(version + 1)
}

/// An edit names the row identity and version it was made against.
pub open spec fn cas_check(
    bookmark: BookmarkRow,
    bookmark_id: Seq<char>,
    version: i64,
) -> Result<(), Failure> {
    if bookmark.bookmark_id != bookmark_id || bookmark.version != version {
        Err(Failure::Conflict("bookmark changed in another tab; reload and retry"@))
    } else {
        Ok(())
    }
}

/// Check that an edit was made against the current row.
pub fn validate_bookmark_cas(bookmark: &Bookmark, expected: BookmarkCas<'_>) -> (r: Result<
    (),
    StoreError,
>)
    ensures
        plain(r) == cas_check(bookmark@, expected.bookmark_id@, expected.version),
{
    if !same(bookmark.bookmark_id.as_str(), expected.bookmark_id) || bookmark.version
        != expected.version {
        return Err(conflict("bookmark changed in another tab; reload and retry"));
    }
    Ok(())
}

/// Whether a bookmark belongs to the list scope.
pub open spec fn in_state(bookmark: BookmarkRow, state: BookmarkState, now: i64) -> bool {
    match state {
        BookmarkState::All => true,
        BookmarkState::Due => bookmark.remind_at is Some && bookmark.remind_at->0 <= now,
        BookmarkState::Scheduled => bookmark.remind_at is Some && bookmark.remind_at->0 > now,
    }
}

/// Whether a bookmark belongs to the list scope.
pub fn bookmark_state_matches(bookmark: &Bookmark, state: BookmarkState, now: i64) -> (r: bool)
    ensures
        r == in_state(bookmark@, state, now),
{
    match state {
        BookmarkState::All => true,
        BookmarkState::Due => match bookmark.remind_at {
            Some(at) => at <= now,
            None => false,
        },
        BookmarkState::Scheduled => match bookmark.remind_at {
            Some(at) => at > now,
            None => false,
        },
    }
}

// ---------------------------------------------------------------------------
// Bounded identifier lists.
// ---------------------------------------------------------------------------

/// The identifiers that are not blank.
pub open spec fn nonblank(s: Seq<Seq<char>>) -> Seq<Seq<char>>
    decreases s.len(),
{
    if s.len() == 0 {
        s
    } else if blank_text(s.last()) {
        nonblank(s.drop_last())
    } else {
        nonblank(s.drop_last()).push(s.last())
    }
}

/// The identifiers without surrounding whitespace.
pub open spec fn trimmed(s: Seq<Seq<char>>) -> Seq<Seq<char>> {
    s.map_values(|t: Seq<char>| trim_text(t))
}

/// The identifiers that are not empty.
pub open spec fn nonempty(s: Seq<Seq<char>>) -> Seq<Seq<char>>
    decreases s.len(),
{
    if s.len() == 0 {
        s
    } else if s.last().len() == 0 {
        nonempty(s.drop_last())
    } else {
        nonempty(s.drop_last()).push(s.last())
    }
}

/// The thread identifiers of a reading-state request.
pub open spec fn reading_ids(ids: Seq<Seq<char>>) -> Result<Seq<Seq<char>>, Failure> {
    let unique = ordered_set(nonblank(ids));
    if unique.len() > MAX_THREAD_READING_STATE_BATCH {
        Err(Failure::InvalidOperation("reading state accepts at most 200 threads"@))
    } else {
        Ok(unique)
    }
}

/// The distinct non-blank thread identifiers, ascending and bounded.
pub fn bounded_thread_ids(thread_ids: &[String]) -> (r: Result<Vec<String>, StoreError>)
    ensures
        listed(r) == reading_ids(views(thread_ids@)),
{
    let ghost s = views(thread_ids@);
    let mut unique: Vec<String> = Vec::new();
    let mut i: usize = 0;
    assert(views(unique@) =~= ordered_set(nonblank(s.take(0))));
    while i < thread_ids.len()
        invariant
            0 <= i <= thread_ids@.len(),
            s == views(thread_ids@),
            views(unique@) == ordered_set(nonblank(s.take(i as int))),
        decreases thread_ids@.len() - i,
    {
        assert(s.take(i + 1).drop_last() =~= s.take(i as int));
        assert(s[i as int] == thread_ids@[i as int]@);
        if !is_blank(thread_ids[i].as_str()) {
            assert(nonblank(s.take(i + 1)).drop_last() =~= nonblank(s.take(i as int)));
            add_ordered(&mut unique, thread_ids[i].clone());
        }
        i = i + 1;
    }
    assert(s.take(s.len() as int) =~= s);
    if unique.len() > MAX_THREAD_READING_STATE_BATCH {
        return Err(invalid("reading state accepts at most 200 threads"));
    }
    Ok(unique)
}

/// The distinct trimmed identifiers that are not empty, ascending.
fn unique_trimmed(ids: &[String]) -> (unique: Vec<String>)
    ensures
        views(unique@) == ordered_set(nonempty(trimmed(views(ids@)))),
{
    let ghost s = trimmed(views(ids@));
    let mut unique: Vec<String> = Vec::new();
    let mut i: usize = 0;
    assert(views(unique@) =~= ordered_set(nonempty(s.take(0))));
    while i < ids.len()
        invariant
            0 <= i <= ids@.len(),
            s == trimmed(views(ids@)),
            views(unique@) == ordered_set(nonempty(s.take(i as int))),
        decreases ids@.len() - i,
    {
        assert(s.take(i + 1).drop_last() =~= s.take(i as int));
        assert(s[i as int] == trim_text(ids@[i as int]@));
        let id = trim(ids[i].as_str());
        if !id.as_str().is_empty() {
            assert(nonempty(s.take(i + 1)).drop_last() =~= nonempty(s.take(i as int)));
            add_ordered(&mut unique, id);
        }
        i = i + 1;
    }
    assert(s.take(s.len() as int) =~= s);
    unique
}

/// The thread identifiers of a personal-signal request.
pub open spec fn signal_ids(ids: Seq<Seq<char>>) -> Result<Seq<Seq<char>>, Failure> {
    let unique = ordered_set(nonempty(trimmed(ids)));
    if unique.len() > MAX_FOR_YOU_CANDIDATES {
        Err(Failure::InvalidOperation("personal signals accept at most 200 threads"@))
    } else {
        Ok(unique)
    }
}

/// The distinct trimmed thread identifiers, ascending and bounded.
pub fn bounded_personal_thread_ids(thread_ids: &[String]) -> (r: Result<Vec<String>, StoreError>)
    ensures
        listed(r) == signal_ids(views(thread_ids@)),
{
    let unique = unique_trimmed(thread_ids);
    if unique.len() > MAX_FOR_YOU_CANDIDATES {
        return Err(invalid("personal signals accept at most 200 threads"));
    }
    Ok(unique)
}

/// The post identifiers of a reading receipt.
pub open spec fn receipt_ids(ids: Seq<Seq<char>>) -> Result<Seq<Seq<char>>, Failure> {
    let unique = ordered_set(nonempty(trimmed(ids)));
    if unique.len() == 0 {
        Err(Failure::InvalidOperation("marking read requires at least one post"@))
    } else if unique.len() > MAX_THREAD_READ_BATCH {
        Err(Failure::InvalidOperation("one reading receipt may contain at most 24 posts"@))
    } else {
        Ok(unique)
    }
}

/// The distinct trimmed post identifiers of a receipt, ascending, at least one and bounded.
pub fn bounded_post_ids(post_ids: &[String]) -> (r: Result<Vec<String>, StoreError>)
    ensures
        listed(r) == receipt_ids(views(post_ids@)),
{
    let unique = unique_trimmed(post_ids);
    if unique.is_empty() {
        return Err(invalid("marking read requires at least one post"));
    }
    if unique.len() > MAX_THREAD_READ_BATCH {
        return Err(invalid("one reading receipt may contain at most 24 posts"));
    }
    Ok(unique)
}

// ---------------------------------------------------------------------------
// Reading and catch-up.
// ---------------------------------------------------------------------------

/// Whether a post is not among the read ones.
pub open spec fn unread_post(read: Seq<Seq<char>>) -> spec_fn(PostRow) -> bool {
    |p: PostRow| !read.contains(p.id)
}

/// Whether a post is among the read ones.
pub open spec fn read_post(read: Seq<Seq<char>>) -> spec_fn(PostRow) -> bool {
    |p: PostRow| read.contains(p.id)
}

/// The reading state of a thread whose posts are `posts`, of which `read` were read.
pub open spec fn reading_state(posts: Seq<PostRow>, read: Seq<Seq<char>>) -> ThreadReadingStateRow {
    ThreadReadingStateRow {
        started: some_row(posts, read_post(read)),
        unread_count: as_count(count_rows(posts, unread_post(read))),
        first_unread: match first_index(posts, unread_post(read)) {
            Some(i) => Some(posts[i]),
            None => None,
        },
        last_contiguous_read: match first_index(posts, unread_post(read)) {
            Some(i) => if i == 0 {
                None
            } else {
                Some(posts[i - 1])
            },
            None => if posts.len() == 0 {
                None
            } else {
                Some(posts.last())
            },
        },
    }
}

/// The reading state of a thread from its posts in reading order.
pub fn reading_state_from_posts(posts: &Vec<Post>, read_post_ids: &Vec<String>) -> (r:
    ThreadReadingState)
    ensures
        r@ == reading_state(views(posts@), views(read_post_ids@)),
{
    let ghost read = views(read_post_ids@);
    let unread = |p: &Post| -> (b: bool)
        ensures
            b == unread_post(views(read_post_ids@))(p@),
        { !has_text(read_post_ids, p.id.as_str()) };
    let is_read = |p: &Post| -> (b: bool)
        ensures
            b == read_post(views(read_post_ids@))(p@),
        { has_text(read_post_ids, p.id.as_str()) };
    let first = find_row(posts, unread, Ghost(unread_post(read)));
    let unread_count = to_count(count(posts, unread, Ghost(unread_post(read))));
    let started = any_row(posts, is_read, Ghost(read_post(read)));
    let first_unread = match first {
        Some(i) => Some(posts[i].duplicate()),
        None => None,
    };
    let last_contiguous_read = match first {
        Some(i) => if i == 0 {
            None
        } else {
            Some(posts[i - 1].duplicate())
        },
        None => if posts.len() == 0 {
            None
        } else {
            Some(posts[posts.len() - 1].duplicate())
        },
    };
    ThreadReadingState { started, unread_count, first_unread, last_contiguous_read }
}

/// The strongest reason a thread belongs in a catch-up view. A muted thread belongs in none.
pub open spec fn catch_up_why(
    view: CatchUpView,
    follow_level: ThreadFollowLevel,
    authored: bool,
    bookmarked: bool,
    participated: bool,
    reading_started: bool,
) -> Option<CatchUpReason> {
    if follow_level is Mute {
        None
    } else if view is Questions {
        if authored {
            Some(CatchUpReason::Authored)
        } else {
            None
        }
    } else if follow_level is Watch {
        Some(CatchUpReason::Watch)
    } else if follow_level is Follow {
        Some(CatchUpReason::Follow)
    } else if view is Following {
        None
    } else if authored {
        Some(CatchUpReason::Authored)
    } else if bookmarked {
        Some(CatchUpReason::Bookmarked)
    } else if participated {
        Some(CatchUpReason::Participated)
    } else if reading_started {
        Some(CatchUpReason::ContinueReading)
    } else {
        None
    }
}

/// The strongest reason a thread belongs in a catch-up view.
pub fn catch_up_reason(
    view: CatchUpView,
    follow_level: ThreadFollowLevel,
    authored: bool,
    bookmarked: bool,
    participated: bool,
    reading_started: bool,
) -> (r: Option<CatchUpReason>)
    ensures
        r == catch_up_why(
            view,
            follow_level,
            authored,
            bookmarked,
            participated,
            reading_started,
        ),
{
    if follow_level == ThreadFollowLevel::Mute {
        return None;
    }
    match view {
        CatchUpView::Questions => if authored {
            Some(CatchUpReason::Authored)
        } else {
            None
        },
        CatchUpView::Following => match follow_level {
            ThreadFollowLevel::Watch => Some(CatchUpReason::Watch),
            ThreadFollowLevel::Follow => Some(CatchUpReason::Follow),
            ThreadFollowLevel::Unset | ThreadFollowLevel::Mute => None,
        },
        CatchUpView::Updates => match follow_level {
            ThreadFollowLevel::Watch => Some(CatchUpReason::Watch),
            ThreadFollowLevel::Follow => Some(CatchUpReason::Follow),
            ThreadFollowLevel::Unset | ThreadFollowLevel::Mute => if authored {
                Some(CatchUpReason::Authored)
            } else if bookmarked {
                Some(CatchUpReason::Bookmarked)
            } else if participated {
                Some(CatchUpReason::Participated)
            } else if reading_started {
                Some(CatchUpReason::ContinueReading)
            } else {
                None
            },
        },
    }
}

/// Why a thread appears on the focus page: category priority and follow show it, a thread watch or
/// follow overrides a category mute, and a thread mute always hides it.
pub open spec fn focus_why(
    category_level: CategoryFocusLevel,
    thread_level: ThreadFollowLevel,
) -> Option<CategoryFocusReason> {
    if thread_level is Mute {
        None
    } else {
        match category_level {
            CategoryFocusLevel::Priority => Some(CategoryFocusReason::CategoryPriority),
            CategoryFocusLevel::Follow => Some(CategoryFocusReason::CategoryFollow),
            CategoryFocusLevel::Mute => if thread_level is Watch {
                Some(CategoryFocusReason::ThreadWatchOverride)
            } else if thread_level is Follow {
                Some(CategoryFocusReason::ThreadFollowOverride)
            } else {
                None
            },
            CategoryFocusLevel::Unset => None,
        }
    }
}

/// Why a thread appears on the focus page.
pub fn category_focus_reason(
    category_level: CategoryFocusLevel,
    thread_level: ThreadFollowLevel,
) -> (r: Option<CategoryFocusReason>)
    ensures
        r == focus_why(category_level, thread_level),
{
    if thread_level == ThreadFollowLevel::Mute {
        return None;
    }
    match category_level {
        CategoryFocusLevel::Priority => Some(CategoryFocusReason::CategoryPriority),
        CategoryFocusLevel::Follow => Some(CategoryFocusReason::CategoryFollow),
        CategoryFocusLevel::Mute => match thread_level {
            ThreadFollowLevel::Watch => Some(CategoryFocusReason::ThreadWatchOverride),
            ThreadFollowLevel::Follow => Some(CategoryFocusReason::ThreadFollowOverride),
            ThreadFollowLevel::Unset | ThreadFollowLevel::Mute => None,
        },
        CategoryFocusLevel::Unset => None,
    }
}

/// The bound of a focus page.
pub open spec fn focus_page_check(limit: int, as_of: int) -> Result<usize, Failure> {
    if as_of < 0 {
        Err(Failure::InvalidOperation("focus as_of must be non-negative"@))
    } else if limit < 0 || limit > MAX_CATEGORY_FOCUS_PAGE {
        Err(Failure::InvalidOperation("focus page may request at most 30 rows"@))
    } else {
        Ok(limit as usize)
    }
}

/// Check the bounds of a focus page.
pub fn validate_category_focus_page(limit: i64, as_of: i64) -> (r: Result<usize, StoreError>)
    ensures
        plain(r) == focus_page_check(limit as int, as_of as int),
{
    if as_of < 0 {
        return Err(invalid("focus as_of must be non-negative"));
    }
    if limit < 0 || limit > MAX_CATEGORY_FOCUS_PAGE {
        return Err(invalid("focus page may request at most 30 rows"));
    }
    Ok(limit as usize)
}

/// The bound of a catch-up page; a cursor belongs to one view and one snapshot.
pub open spec fn catch_up_page_check(
    view: CatchUpView,
    as_of: int,
    snapshot_generation: int,
    cursor: Option<CatchUpCursorRow>,
    limit: int,
) -> Result<usize, Failure> {
    if as_of < 0 || snapshot_generation < 0 {
        Err(Failure::InvalidOperation("catch-up snapshot bounds must be non-negative"@))
    } else if limit < 0 || limit > MAX_CATCH_UP_PAGE + 1 {
        Err(Failure::InvalidOperation("catch-up page may request at most 31 rows"@))
    } else if cursor is Some && (cursor->0.view != view || cursor->0.as_of != as_of
        || cursor->0.snapshot_generation != snapshot_generation) {
        Err(
            Failure::InvalidOperation(
                "catch-up cursor does not belong to this view and snapshot"@,
            ),
        )
    } else if cursor is Some && (blank_text(cursor->0.thread_id) || cursor->0.activity_at < 0
        || cursor->0.activity_at > as_of) {
        Err(Failure::InvalidOperation("catch-up cursor is malformed"@))
    } else {
        Ok(limit as usize)
    }
}

/// Check the bounds and the cursor of a catch-up page.
pub fn validate_catch_up_page(
    view: CatchUpView,
    as_of: i64,
    snapshot_generation: i64,
    cursor: Option<&CatchUpCursor>,
    limit: i64,
) -> (r: Result<usize, StoreError>)
    ensures
        plain(r) == catch_up_page_check(
            view,
            as_of as int,
            snapshot_generation as int,
            opt(cursor),
            limit as int,
        ),
{
    if as_of < 0 || snapshot_generation < 0 {
        return Err(invalid("catch-up snapshot bounds must be non-negative"));
    }
    if limit < 0 || limit > MAX_CATCH_UP_PAGE + 1 {
        return Err(invalid("catch-up page may request at most 31 rows"));
    }
    if let Some(cursor) = cursor {
        if cursor.view != view || cursor.as_of != as_of || cursor.snapshot_generation
            != snapshot_generation {
            return Err(invalid("catch-up cursor does not belong to this view and snapshot"));
        }
        if is_blank(cursor.thread_id.as_str()) || cursor.activity_at < 0 || cursor.activity_at
            > as_of {
            return Err(invalid("catch-up cursor is malformed"));
        }
    }
    Ok(limit as usize)
}

} // verus!
