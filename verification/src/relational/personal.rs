//! Follow levels, focus rules, read receipts, activity receipts, and bookmarks: what is decided on
//! the rows that were read, and which statements follow.

use vstd::prelude::*;
use vstd::string::StringExecFns;

use crate::model::{Bookmark, BookmarkRow, CategoryFocusLevel, Post, PostRow, ThreadFollowLevel};
use crate::relational::decoding::{focus_level_from, unknown_focus_level};
use crate::relational::sql::{
    DELETE_ACTIVITY_RECEIPT, DELETE_BOOKMARK, DELETE_FOCUS_RULE, DELETE_FOLLOWING_DELIVERIES,
    DELETE_ORPHAN_EVENTS, DELETE_ORPHAN_RECEIPTS, DELETE_PREFERENCE, DELETE_WATCH, INSERT_BOOKMARK,
    INSERT_FOCUS_RULE, INSERT_READ_RECEIPT, SEQUENCE_READ_RECEIPT, UPDATE_BOOKMARK,
    UPDATE_FOCUS_RULE, UPSERT_ACTIVITY_RECEIPT, UPSERT_PREFERENCE, UPSERT_WATCH,
};
use crate::relational::statement::{Statement, StatementRow, statement};
use crate::relational::writing::{advance_clock, clock_update};
use crate::rows::{
    Record, any_row, collect_rows, collected, deduped, map_rows, opt, some_row, sort_rows, sorted,
    views,
};
use crate::store::bookmarks::{new_bookmark, reminder_after};
use crate::store::rules::{
    bookmark_state_matches, bounded_post_ids, cas_check, in_state, next_bookmark_version,
    next_version, note_check, reading_state, reading_state_from_posts, receipt_ids, reminder_check,
    validate_bookmark_cas, validate_bookmark_note, validate_future_reminder,
};
use crate::store::types::{
    BookmarkCas, BookmarkReminderUpdate, BookmarkState, Failure, MAX_ACTIVITY_BATCH,
    MAX_BOOKMARKS_PER_USER, MAX_CATEGORY_FOCUS_RULES, MAX_THREAD_FOLLOWERS, ReadingEntry,
    ReadingEntryRow, StoreError, invalid, listed, maybe, plain, single,
};
use crate::text::{blank_text, is_blank, str_less, text_less};
use crate::texts::{add_ordered, ordered_set};

verus! {

// ---------------------------------------------------------------------------
// Follow levels.
// ---------------------------------------------------------------------------

/// Whether a viewer may take a level of a thread that so many already watch.
pub open spec fn watch_check(level: ThreadFollowLevel, watching: bool, watchers: int) -> Result<
    (),
    Failure,
> {
    if level is Watch && !watching && watchers >= MAX_THREAD_FOLLOWERS {
        Err(Failure::InvalidOperation("a thread may have at most 256 watchers"@))
    } else {
        Ok(())
    }
}

/// Whether a viewer may take a level of a thread that so many already watch.
pub fn check_watch(level: ThreadFollowLevel, watching: bool, watchers: usize) -> (r: Result<
    (),
    StoreError,
>)
    ensures
        plain(r) == watch_check(level, watching, watchers as int),
{
    if level == ThreadFollowLevel::Watch && !watching && watchers >= MAX_THREAD_FOLLOWERS {
        return Err(invalid("a thread may have at most 256 watchers"));
    }
    Ok(())
}

/// What is stored when a viewer takes a level: a watch is kept apart from the other levels, and
/// leaving it withdraws what only came from watching.
pub open spec fn level_writes(
    thread_id: Seq<char>,
    viewer_sub: Seq<char>,
    level: ThreadFollowLevel,
    created_at: i64,
) -> Seq<StatementRow> {
    let watch = if level is Watch {
        statement(UPSERT_WATCH@).text(thread_id).text(viewer_sub).number(created_at)
    } else {
        statement(DELETE_WATCH@).text(thread_id).text(viewer_sub)
    };
    let preference = if level is Follow || level is Mute {
        statement(UPSERT_PREFERENCE@).text(thread_id).text(viewer_sub).text(level.text()).number(
            created_at,
        )
    } else {
        statement(DELETE_PREFERENCE@).text(thread_id).text(viewer_sub)
    };
    if level is Watch {
        seq![watch, preference]
    } else {
        seq![
            watch,
            preference,
            statement(DELETE_FOLLOWING_DELIVERIES@).text(viewer_sub).text(thread_id),
            statement(DELETE_ORPHAN_RECEIPTS@).text(viewer_sub).text(thread_id),
            statement(DELETE_ORPHAN_EVENTS@).text(thread_id),
        ]
    }
}

/// The statements that give a viewer a level of a thread.
pub fn level_statements(
    thread_id: &str,
    viewer_sub: &str,
    level: ThreadFollowLevel,
    created_at: i64,
) -> (out: Vec<Statement>)
    ensures
        views(out@) == level_writes(thread_id@, viewer_sub@, level, created_at),
{
    let mut out: Vec<Statement> = Vec::new();
    match level {
        ThreadFollowLevel::Watch => {
            out.push(
                Statement::new(UPSERT_WATCH).text(thread_id).text(viewer_sub).number(created_at),
            );
            out.push(Statement::new(DELETE_PREFERENCE).text(thread_id).text(viewer_sub));
        },
        ThreadFollowLevel::Unset => {
            out.push(Statement::new(DELETE_WATCH).text(thread_id).text(viewer_sub));
            out.push(Statement::new(DELETE_PREFERENCE).text(thread_id).text(viewer_sub));
        },
        ThreadFollowLevel::Follow | ThreadFollowLevel::Mute => {
            out.push(Statement::new(DELETE_WATCH).text(thread_id).text(viewer_sub));
            out.push(
                Statement::new(UPSERT_PREFERENCE).text(thread_id).text(viewer_sub).text(
                    level.as_str(),
                ).number(created_at),
            );
        },
    }
    if !level.delivers_generic_activity() {
        out.push(Statement::new(DELETE_FOLLOWING_DELIVERIES).text(viewer_sub).text(thread_id));
        out.push(Statement::new(DELETE_ORPHAN_RECEIPTS).text(viewer_sub).text(thread_id));
        out.push(Statement::new(DELETE_ORPHAN_EVENTS).text(thread_id));
    }
    assert(views(out@) =~= level_writes(thread_id@, viewer_sub@, level, created_at));
    out
}

// ---------------------------------------------------------------------------
// Focus rules.
// ---------------------------------------------------------------------------

/// Whether a focus change is well formed.
pub open spec fn focus_request(viewer_sub: Seq<char>, changed_at: i64) -> Result<(), Failure> {
    if blank_text(viewer_sub) || changed_at < 0 {
        Err(Failure::InvalidOperation("invalid category focus rule"@))
    } else {
        Ok(())
    }
}

/// Whether a focus change is well formed.
pub fn check_focus_request(viewer_sub: &str, changed_at: i64) -> (r: Result<(), StoreError>)
    ensures
        plain(r) == focus_request(viewer_sub@, changed_at),
{
    if is_blank(viewer_sub) || changed_at < 0 {
        return Err(invalid("invalid category focus rule"));
    }
    Ok(())
}

/// What is stored when a viewer sets their rule for a category: `stored` is the level of the rule
/// they have, and `rules` how many they keep.
pub open spec fn focus_writes(
    viewer_sub: Seq<char>,
    category_id: Seq<char>,
    level: CategoryFocusLevel,
    changed_at: i64,
    stored: Option<Seq<char>>,
    rules: int,
) -> Result<Option<StatementRow>, Failure> {
    match stored {
        Some(name) => if level is Unset {
            Ok(Some(statement(DELETE_FOCUS_RULE@).text(viewer_sub).text(category_id)))
        } else {
            match CategoryFocusLevel::named(name) {
                None => Err(unknown_focus_level(category_id, name)),
                Some(current) => if current == level {
                    Ok(None)
                } else {
                    Ok(
                        Some(
                            statement(UPDATE_FOCUS_RULE@).text(level.text()).number(
                                changed_at,
                            ).text(viewer_sub).text(category_id),
                        ),
                    )
                },
            }
        },
        None => if level is Unset {
            Ok(None)
        } else if rules >= MAX_CATEGORY_FOCUS_RULES {
            Err(Failure::InvalidOperation("a user may keep at most 64 category focus rules"@))
        } else {
            Ok(
                Some(
                    statement(INSERT_FOCUS_RULE@).text(viewer_sub).text(category_id).text(
                        level.text(),
                    ).number(changed_at),
                ),
            )
        },
    }
}

/// The statement that stores a rule of a viewer for a category; none when nothing changes.
pub fn focus_statement(
    viewer_sub: &str,
    category_id: &str,
    level: CategoryFocusLevel,
    changed_at: i64,
    stored: Option<&str>,
    rules: i64,
) -> (r: Result<Option<Statement>, StoreError>)
    ensures
        maybe(r) == focus_writes(
            viewer_sub@,
            category_id@,
            level,
            changed_at,
            opt(stored),
            rules as int,
        ),
{
    match stored {
        Some(name) => {
            if level == CategoryFocusLevel::Unset {
                return Ok(
                    Some(Statement::new(DELETE_FOCUS_RULE).text(viewer_sub).text(category_id)),
                );
            }
            match focus_level_from(category_id, name) {
                Err(e) => Err(e),
                Ok(current) => {
                    if current == level {
                        return Ok(None);
                    }
                    Ok(
                        Some(
                            Statement::new(UPDATE_FOCUS_RULE).text(level.as_str()).number(
                                changed_at,
                            ).text(viewer_sub).text(category_id),
                        ),
                    )
                },
            }
        },
        None => {
            if level == CategoryFocusLevel::Unset {
                return Ok(None);
            }
            if rules >= MAX_CATEGORY_FOCUS_RULES as i64 {
                return Err(invalid("a user may keep at most 64 category focus rules"));
            }
            Ok(
                Some(
                    Statement::new(INSERT_FOCUS_RULE).text(viewer_sub).text(category_id).text(
                        level.as_str(),
                    ).number(changed_at),
                ),
            )
        },
    }
}

// ---------------------------------------------------------------------------
// Read receipts.
// ---------------------------------------------------------------------------

/// The posts of a read receipt, distinct and bounded.
pub open spec fn receipt_request(
    viewer_sub: Seq<char>,
    post_ids: Seq<Seq<char>>,
    read_at: i64,
) -> Result<Seq<Seq<char>>, Failure> {
    match receipt_ids(post_ids) {
        Err(e) => Err(e),
        Ok(ids) => if blank_text(viewer_sub) || read_at < 0 {
            Err(Failure::InvalidOperation("invalid thread reading receipt"@))
        } else {
            Ok(ids)
        },
    }
}

/// The posts of a read receipt, distinct and bounded.
pub fn check_receipt_request(viewer_sub: &str, post_ids: &[String], read_at: i64) -> (r: Result<
    Vec<String>,
    StoreError,
>)
    ensures
        listed(r) == receipt_request(viewer_sub@, views(post_ids@), read_at),
{
    match bounded_post_ids(post_ids) {
        Err(e) => Err(e),
        Ok(ids) => {
            if is_blank(viewer_sub) || read_at < 0 {
                return Err(invalid("invalid thread reading receipt"));
            }
            Ok(ids)
        },
    }
}

/// Whether a receipt needs a generation: there is none, or it carries none.
pub fn needs_sequence(stored: Option<Option<i64>>) -> (r: bool)
    ensures
        r == !(stored is Some && stored->0 is Some),
{
    match stored {
        Some(Some(_)) => false,
        _ => true,
    }
}

/// What is stored for the posts that are marked read, once their common generation is known.
pub open spec fn read_writes(
    viewer_sub: Seq<char>,
    post_ids: Seq<Seq<char>>,
    read_at: i64,
    seq: i64,
) -> Seq<StatementRow>
    decreases post_ids.len(),
{
    if post_ids.len() == 0 {
        seq![clock_update(seq)]
    } else {
        read_writes(viewer_sub, post_ids.drop_last(), read_at, seq).push(
            statement(INSERT_READ_RECEIPT@).text(viewer_sub).text(post_ids.last()).number(
                read_at,
            ).number(seq),
        ).push(
            statement(SEQUENCE_READ_RECEIPT@).number(seq).text(viewer_sub).text(post_ids.last()),
        )
    }
}

/// The statements that mark posts read under one generation.
pub fn read_statements(viewer_sub: &str, post_ids: &Vec<String>, read_at: i64, seq: i64) -> (out: Vec<
    Statement,
>)
    ensures
        views(out@) == read_writes(viewer_sub@, views(post_ids@), read_at, seq),
{
    let ghost ids = views(post_ids@);
    let mut out: Vec<Statement> = Vec::new();
    out.push(advance_clock(seq));
    assert(views(out@) =~= read_writes(viewer_sub@, ids.take(0), read_at, seq));
    let mut i: usize = 0;
    while i < post_ids.len()
        invariant
            0 <= i <= post_ids@.len(),
            ids == views(post_ids@),
            views(out@) == read_writes(viewer_sub@, ids.take(i as int), read_at, seq),
        decreases post_ids@.len() - i,
    {
        assert(ids.take(i + 1).drop_last() =~= ids.take(i as int));
        let ghost before = out@;
        out.push(
            Statement::new(INSERT_READ_RECEIPT).text(viewer_sub).text(post_ids[i].as_str()).number(
                read_at,
            ).number(seq),
        );
        out.push(
            Statement::new(SEQUENCE_READ_RECEIPT).number(seq).text(viewer_sub).text(
                post_ids[i].as_str(),
            ),
        );
        assert(views(out@) =~= read_writes(viewer_sub@, ids.take(i + 1), read_at, seq));
        i = i + 1;
    }
    assert(ids.take(ids.len() as int) =~= ids);
    out
}

/// A post with whether the viewer has read it.
pub struct ReadPost {
    pub post: Post,
    pub read: bool,
}

/// The mathematical view of a [`ReadPost`].
#[verifier::ext_equal]
pub struct ReadPostRow {
    pub post: PostRow,
    pub read: bool,
}

impl View for ReadPost {
    type V = ReadPostRow;

    open spec fn view(&self) -> ReadPostRow {
        ReadPostRow { post: self.post@, read: self.read }
    }
}

/// The identifier of a post that was read.
pub open spec fn read_id() -> spec_fn(ReadPostRow) -> Option<Seq<char>> {
    |r: ReadPostRow|
        if r.read {
            Some(r.post.id)
        } else {
            None
        }
}

/// The post of a row, if it belongs to the thread.
pub open spec fn post_of(thread_id: Seq<char>) -> spec_fn(ReadPostRow) -> Option<PostRow> {
    |r: ReadPostRow|
        if r.post.thread_id == thread_id {
            Some(r.post)
        } else {
            None
        }
}

/// The reading state of a thread that has posts.
pub open spec fn read_entry(rows: Seq<ReadPostRow>) -> spec_fn(Seq<char>) -> Option<ReadingEntryRow> {
    |id: Seq<char>|
        {
            let posts = collected(rows, post_of(id));
            if posts.len() == 0 {
                None
            } else {
                Some(
                    ReadingEntryRow {
                        thread_id: id,
                        state: reading_state(posts, collected(rows, read_id())),
                    },
                )
            }
        }
}

/// The reading states of the threads that have posts, from the posts in reading order.
pub fn reading_entries(thread_ids: &Vec<String>, rows: &Vec<ReadPost>) -> (out: Vec<ReadingEntry>)
    ensures
        views(out@) == collected(views(thread_ids@), read_entry(views(rows@))),
{
    let pick = |r: &ReadPost| -> (id: Option<String>)
        ensures
            opt(id) == read_id()(r@),
        {
            if r.read {
                Some(r.post.id.clone())
            } else {
                None
            }
        };
    let read = collect_rows(rows, pick, Ghost(read_id()));
    let mut out: Vec<ReadingEntry> = Vec::new();
    let ghost ids = views(thread_ids@);
    assert(views(out@) =~= collected(ids.take(0), read_entry(views(rows@))));
    let mut i: usize = 0;
    while i < thread_ids.len()
        invariant
            0 <= i <= thread_ids@.len(),
            ids == views(thread_ids@),
            views(read@) == collected(views(rows@), read_id()),
            views(out@) == collected(ids.take(i as int), read_entry(views(rows@))),
        decreases thread_ids@.len() - i,
    {
        assert(ids.take(i + 1).drop_last() =~= ids.take(i as int));
        assert(ids.take(i + 1).last() == thread_ids@[i as int]@);
        if let Some(e) = entry_of(&thread_ids[i], rows, &read) {
            let ghost before = out@;
            out.push(e);
            assert(views(out@) =~= views(before).push(e@));
        }
        i = i + 1;
    }
    assert(ids.take(ids.len() as int) =~= ids);
    out
}

fn entry_of(id: &String, rows: &Vec<ReadPost>, read: &Vec<String>) -> (e: Option<ReadingEntry>)
    requires
        views(read@) == collected(views(rows@), read_id()),
    ensures
        opt(e) == read_entry(views(rows@))(id@),
{
    let pick = |r: &ReadPost| -> (p: Option<Post>)
        ensures
            opt(p) == post_of(id@)(r@),
        {
            if r.post.thread_id == *id {
                Some(r.post.duplicate())
            } else {
                None
            }
        };
    let posts = collect_rows(rows, pick, Ghost(post_of(id@)));
    if posts.is_empty() {
        return None;
    }
    Some(ReadingEntry { thread_id: id.clone(), state: reading_state_from_posts(&posts, read) })
}

// ---------------------------------------------------------------------------
// Activity receipts.
// ---------------------------------------------------------------------------

/// What a receipt locks: the event and the live content it points at.
pub struct ActivityLockTarget {
    pub category_id: String,
    pub thread_id: String,
    pub post_id: String,
    pub activity_id: String,
}

/// The mathematical view of an [`ActivityLockTarget`].
#[verifier::ext_equal]
pub struct ActivityLockTargetRow {
    pub category_id: Seq<char>,
    pub thread_id: Seq<char>,
    pub post_id: Seq<char>,
    pub activity_id: Seq<char>,
}

impl View for ActivityLockTarget {
    type V = ActivityLockTargetRow;

    open spec fn view(&self) -> ActivityLockTargetRow {
        ActivityLockTargetRow {
            category_id: self.category_id@,
            thread_id: self.thread_id@,
            post_id: self.post_id@,
            activity_id: self.activity_id@,
        }
    }
}

/// Whether a target is locked before another: by category, thread, post, and event.
pub open spec fn target_before(a: ActivityLockTargetRow, b: ActivityLockTargetRow) -> bool {
    if a.category_id != b.category_id {
        text_less(a.category_id, b.category_id)
    } else if a.thread_id != b.thread_id {
        text_less(a.thread_id, b.thread_id)
    } else if a.post_id != b.post_id {
        text_less(a.post_id, b.post_id)
    } else {
        text_less(a.activity_id, b.activity_id)
    }
}

/// The order in which targets are locked.
pub open spec fn target_order() -> spec_fn(ActivityLockTargetRow, ActivityLockTargetRow) -> bool {
    |a: ActivityLockTargetRow, b: ActivityLockTargetRow| !target_before(b, a)
}

fn is_target_before(a: &ActivityLockTarget, b: &ActivityLockTarget) -> (r: bool)
    ensures
        r == target_before(a@, b@),
{
    if a.category_id != b.category_id {
        str_less(a.category_id.as_str(), b.category_id.as_str())
    } else if a.thread_id != b.thread_id {
        str_less(a.thread_id.as_str(), b.thread_id.as_str())
    } else if a.post_id != b.post_id {
        str_less(a.post_id.as_str(), b.post_id.as_str())
    } else {
        str_less(a.activity_id.as_str(), b.activity_id.as_str())
    }
}

/// The targets in the order in which they are locked.
pub fn in_lock_order(targets: Vec<ActivityLockTarget>) -> (out: Vec<ActivityLockTarget>)
    ensures
        views(out@) == sorted(views(targets@), target_order()),
{
    let le = |a: &ActivityLockTarget, b: &ActivityLockTarget| -> (r: bool)
        ensures
            r == target_order()(a@, b@),
        { !is_target_before(b, a) };
    sort_rows(targets, le, Ghost(target_order()))
}

/// A row together with the row it must belong to.
pub struct Membership {
    pub owner: String,
    pub member: String,
}

/// The mathematical view of a [`Membership`].
#[verifier::ext_equal]
pub struct MembershipRow {
    pub owner: Seq<char>,
    pub member: Seq<char>,
}

impl View for Membership {
    type V = MembershipRow;

    open spec fn view(&self) -> MembershipRow {
        MembershipRow { owner: self.owner@, member: self.member@ }
    }
}

/// Whether a membership is locked before another: by owner, then by member.
pub open spec fn membership_before(a: MembershipRow, b: MembershipRow) -> bool {
    if a.owner != b.owner {
        text_less(a.owner, b.owner)
    } else {
        text_less(a.member, b.member)
    }
}

/// The order in which memberships are locked.
pub open spec fn membership_order() -> spec_fn(MembershipRow, MembershipRow) -> bool {
    |a: MembershipRow, b: MembershipRow| !membership_before(b, a)
}

/// Whether a membership is the given one.
pub open spec fn membership_is(m: MembershipRow) -> spec_fn(MembershipRow) -> bool {
    |x: MembershipRow| x == m
}

/// The category of a target.
pub open spec fn target_category() -> spec_fn(ActivityLockTargetRow) -> Seq<char> {
    |t: ActivityLockTargetRow| t.category_id
}

/// The thread of a target, in its category.
pub open spec fn target_thread() -> spec_fn(ActivityLockTargetRow) -> MembershipRow {
    |t: ActivityLockTargetRow| MembershipRow { owner: t.category_id, member: t.thread_id }
}

/// The post of a target, in its thread.
pub open spec fn target_post() -> spec_fn(ActivityLockTargetRow) -> MembershipRow {
    |t: ActivityLockTargetRow| MembershipRow { owner: t.thread_id, member: t.post_id }
}

/// The distinct categories of the targets, ascending.
pub fn categories_to_lock(targets: &Vec<ActivityLockTarget>) -> (out: Vec<String>)
    ensures
        views(out@) == ordered_set(views(targets@).map_values(target_category())),
{
    let ghost s = views(targets@).map_values(target_category());
    let mut out: Vec<String> = Vec::new();
    assert(views(out@) =~= ordered_set(s.take(0)));
    let mut i: usize = 0;
    while i < targets.len()
        invariant
            0 <= i <= targets@.len(),
            s == views(targets@).map_values(target_category()),
            views(out@) == ordered_set(s.take(i as int)),
        decreases targets@.len() - i,
    {
        assert(s.take(i + 1).drop_last() =~= s.take(i as int));
        assert(s[i as int] == targets@[i as int]@.category_id);
        add_ordered(&mut out, targets[i].category_id.clone());
        i = i + 1;
    }
    assert(s.take(s.len() as int) =~= s);
    out
}

/// The distinct memberships, in the order in which they are locked.
fn ordered_memberships(all: Vec<Membership>) -> (out: Vec<Membership>)
    ensures
        views(out@) == sorted(deduped(views(all@)), membership_order()),
{
    let ghost s = views(all@);
    let mut distinct: Vec<Membership> = Vec::new();
    assert(views(distinct@) =~= deduped(s.take(0)));
    for m in it: all
        invariant
            it.seq() == all@,
            s == views(all@),
            views(distinct@) == deduped(s.take(it.index())),
    {
        let ghost i = it.index();
        assert(s.take(i + 1).drop_last() =~= s.take(i));
        let key = &m;
        let test = |x: &Membership| -> (b: bool)
            ensures
                b == membership_is(key@)(x@),
            { x.owner == key.owner && x.member == key.member };
        let known = any_row(&distinct, test, Ghost(membership_is(m@)));
        proof {
            lemma_known_membership(views(distinct@), m@);
        }
        if !known {
            let ghost before = distinct@;
            distinct.push(m);
            assert(views(distinct@) =~= views(before).push(m@));
        }
    }
    assert(s.take(s.len() as int) =~= s);
    let le = |a: &Membership, b: &Membership| -> (r: bool)
        ensures
            r == membership_order()(a@, b@),
        {
            if b.owner != a.owner {
                !str_less(b.owner.as_str(), a.owner.as_str())
            } else {
                !str_less(b.member.as_str(), a.member.as_str())
            }
        };
    sort_rows(distinct, le, Ghost(membership_order()))
}

proof fn lemma_known_membership(s: Seq<MembershipRow>, m: MembershipRow)
    ensures
        some_row(s, membership_is(m)) <==> s.contains(m),
{
    if s.contains(m) {
        let i = choose|i: int| 0 <= i < s.len() && s[i] == m;
        assert(membership_is(m)(s[i]));
    }
    if some_row(s, membership_is(m)) {
        let i = choose|i: int| 0 <= i < s.len() && membership_is(m)(#[trigger] s[i]);
        assert(s[i] == m);
    }
}

/// The distinct threads of the targets with their categories, in the order in which they are
/// locked.
pub fn threads_to_lock(targets: &Vec<ActivityLockTarget>) -> (out: Vec<Membership>)
    ensures
        views(out@) == sorted(
            deduped(views(targets@).map_values(target_thread())),
            membership_order(),
        ),
{
    let f = |t: &ActivityLockTarget| -> (m: Membership)
        ensures
            m@ == target_thread()(t@),
        { Membership { owner: t.category_id.clone(), member: t.thread_id.clone() } };
    ordered_memberships(map_rows(targets, f, Ghost(target_thread())))
}

/// The distinct posts of the targets with their threads, in the order in which they are locked.
pub fn posts_to_lock(targets: &Vec<ActivityLockTarget>) -> (out: Vec<Membership>)
    ensures
        views(out@) == sorted(
            deduped(views(targets@).map_values(target_post())),
            membership_order(),
        ),
{
    let f = |t: &ActivityLockTarget| -> (m: Membership)
        ensures
            m@ == target_post()(t@),
        { Membership { owner: t.thread_id.clone(), member: t.post_id.clone() } };
    ordered_memberships(map_rows(targets, f, Ghost(target_post())))
}

/// The distinct events of a batch, ascending.
pub open spec fn batch_request(ids: Seq<Seq<char>>) -> Result<Seq<Seq<char>>, Failure> {
    if ids.len() > MAX_ACTIVITY_BATCH {
        Err(Failure::InvalidOperation("activity batch may contain at most 30 ids"@))
    } else {
        Ok(ordered_set(ids))
    }
}

/// The distinct events of a batch, ascending.
pub fn check_batch(activity_ids: &[String]) -> (r: Result<Vec<String>, StoreError>)
    ensures
        listed(r) == batch_request(views(activity_ids@)),
{
    if activity_ids.len() > MAX_ACTIVITY_BATCH {
        return Err(invalid("activity batch may contain at most 30 ids"));
    }
    let ghost s = views(activity_ids@);
    let mut out: Vec<String> = Vec::new();
    assert(views(out@) =~= ordered_set(s.take(0)));
    let mut i: usize = 0;
    while i < activity_ids.len()
        invariant
            0 <= i <= activity_ids@.len(),
            s == views(activity_ids@),
            views(out@) == ordered_set(s.take(i as int)),
        decreases activity_ids@.len() - i,
    {
        assert(s.take(i + 1).drop_last() =~= s.take(i as int));
        assert(s[i as int] == activity_ids@[i as int]@);
        add_ordered(&mut out, activity_ids[i].clone());
        i = i + 1;
    }
    assert(s.take(s.len() as int) =~= s);
    Ok(out)
}

/// What is stored when a viewer marks an event read or unread.
pub open spec fn receipt_write(
    activity_id: Seq<char>,
    viewer_sub: Seq<char>,
    read: bool,
    changed_at: i64,
) -> StatementRow {
    if read {
        statement(UPSERT_ACTIVITY_RECEIPT@).text(activity_id).text(viewer_sub).number(changed_at)
    } else {
        statement(DELETE_ACTIVITY_RECEIPT@).text(activity_id).text(viewer_sub)
    }
}

/// The statement that marks an event read or unread.
pub fn receipt_statement(activity_id: &str, viewer_sub: &str, read: bool, changed_at: i64) -> (s:
    Statement)
    ensures
        s@ == receipt_write(activity_id@, viewer_sub@, read, changed_at),
{
    if read {
        Statement::new(UPSERT_ACTIVITY_RECEIPT).text(activity_id).text(viewer_sub).number(
            changed_at,
        )
    } else {
        Statement::new(DELETE_ACTIVITY_RECEIPT).text(activity_id).text(viewer_sub)
    }
}

// ---------------------------------------------------------------------------
// Bookmarks.
// ---------------------------------------------------------------------------

/// A new bookmark of an owner that keeps that many.
pub open spec fn fresh_bookmark(
    bookmark_id: Seq<char>,
    owner_sub: Seq<char>,
    post_id: Seq<char>,
    created_at: i64,
    kept: int,
) -> Result<BookmarkRow, Failure> {
    if kept >= MAX_BOOKMARKS_PER_USER {
        Err(Failure::InvalidOperation("a user may save at most 1000 bookmarks"@))
    } else {
        Ok(new_bookmark(bookmark_id, owner_sub, post_id, created_at))
    }
}

/// A new bookmark of an owner that keeps that many.
pub fn create_bookmark(
    bookmark_id: &str,
    owner_sub: &str,
    post_id: &str,
    created_at: i64,
    kept: i64,
) -> (r: Result<Bookmark, StoreError>)
    ensures
        single(r) == fresh_bookmark(bookmark_id@, owner_sub@, post_id@, created_at, kept as int),
{
    if kept >= MAX_BOOKMARKS_PER_USER as i64 {
        return Err(invalid("a user may save at most 1000 bookmarks"));
    }
    let note = String::new();
    assert(note@ =~= Seq::empty());
    Ok(
        Bookmark {
            bookmark_id: bookmark_id.to_owned(),
            owner_sub: owner_sub.to_owned(),
            post_id: post_id.to_owned(),
            note,
            remind_at: None,
            created_at,
            updated_at: created_at,
            version: 1,
        },
    )
}

/// Stores a new bookmark.
pub open spec fn bookmark_insertion(b: BookmarkRow) -> StatementRow {
    statement(INSERT_BOOKMARK@).text(b.bookmark_id).text(b.owner_sub).text(b.post_id).text(
        b.note,
    ).opt_number(b.remind_at).number(b.created_at).number(b.updated_at).number(b.version)
}

/// The statement that stores a new bookmark.
pub fn insert_bookmark(b: &Bookmark) -> (s: Statement)
    ensures
        s@ == bookmark_insertion(b@),
{
    Statement::new(INSERT_BOOKMARK).text(b.bookmark_id.as_str()).text(b.owner_sub.as_str()).text(
        b.post_id.as_str(),
    ).text(b.note.as_str()).opt_number(b.remind_at).number(b.created_at).number(
        b.updated_at,
    ).number(b.version)
}

/// Stores the changed parts of a bookmark.
pub open spec fn bookmark_store(b: BookmarkRow) -> StatementRow {
    statement(UPDATE_BOOKMARK@).text(b.note).opt_number(b.remind_at).number(b.updated_at).number(
        b.version,
    ).text(b.owner_sub).text(b.post_id).text(b.bookmark_id)
}

/// The statement that stores the changed parts of a bookmark.
pub fn store_bookmark(b: &Bookmark) -> (s: Statement)
    ensures
        s@ == bookmark_store(b@),
{
    Statement::new(UPDATE_BOOKMARK).text(b.note.as_str()).opt_number(b.remind_at).number(
        b.updated_at,
    ).number(b.version).text(b.owner_sub.as_str()).text(b.post_id.as_str()).text(
        b.bookmark_id.as_str(),
    )
}

/// The bookmark under its next version.
pub open spec fn versioned(b: BookmarkRow) -> Result<BookmarkRow, Failure> {
    match next_version(b.version) {
        Err(e) => Err(e),
        Ok(version) => Ok(BookmarkRow { version, ..b }),
    }
}

/// An edit of the note and the reminder of a locked bookmark.
pub open spec fn edited_bookmark(
    b: BookmarkRow,
    bookmark_id: Seq<char>,
    version: i64,
    note: Seq<char>,
    reminder: BookmarkReminderUpdate,
    changed_at: i64,
) -> Result<BookmarkRow, Failure> {
    match cas_check(b, bookmark_id, version) {
        Err(e) => Err(e),
        Ok(_) => versioned(
            BookmarkRow {
                note,
                remind_at: reminder_after(b.remind_at, reminder),
                updated_at: changed_at,
                ..b
            },
        ),
    }
}

/// Whether an edit of a bookmark is well formed.
pub open spec fn edit_request(
    note: Seq<char>,
    reminder: BookmarkReminderUpdate,
    changed_at: i64,
) -> Result<(), Failure> {
    match note_check(note) {
        Err(e) => Err(e),
        Ok(_) => match reminder {
            BookmarkReminderUpdate::SetTo(at) => reminder_check(at as int, changed_at as int),
            _ => Ok(()),
        },
    }
}

/// Whether an edit of a bookmark is well formed.
pub fn check_edit_request(note: &str, reminder: BookmarkReminderUpdate, changed_at: i64) -> (r: Result<
    (),
    StoreError,
>)
    ensures
        plain(r) == edit_request(note@, reminder, changed_at),
{
    if let Err(e) = validate_bookmark_note(note) {
        return Err(e);
    }
    match reminder {
        BookmarkReminderUpdate::SetTo(at) => validate_future_reminder(at, changed_at),
        BookmarkReminderUpdate::Keep | BookmarkReminderUpdate::Clear => Ok(()),
    }
}

fn next_bookmark(b: Bookmark) -> (r: Result<Bookmark, StoreError>)
    ensures
        single(r) == versioned(b@),
{
    match next_bookmark_version(b.version) {
        Err(e) => Err(e),
        Ok(version) => {
            let mut b = b;
            b.version = version;
            Ok(b)
        },
    }
}

/// The locked bookmark after an edit of its note and its reminder.
pub fn edit_bookmark(
    b: Bookmark,
    expected: BookmarkCas<'_>,
    note: &str,
    reminder: BookmarkReminderUpdate,
    changed_at: i64,
) -> (r: Result<Bookmark, StoreError>)
    ensures
        single(r) == edited_bookmark(
            b@,
            expected.bookmark_id@,
            expected.version,
            note@,
            reminder,
            changed_at,
        ),
{
    if let Err(e) = validate_bookmark_cas(&b, expected) {
        return Err(e);
    }
    let mut b = b;
    b.note = note.to_owned();
    b.remind_at = match reminder {
        BookmarkReminderUpdate::Keep => b.remind_at,
        BookmarkReminderUpdate::Clear => None,
        BookmarkReminderUpdate::SetTo(at) => Some(at),
    };
    b.updated_at = changed_at;
    next_bookmark(b)
}

/// A locked bookmark after its due reminder was settled: cleared, or moved to a later time.
pub open spec fn settled_bookmark(
    b: BookmarkRow,
    bookmark_id: Seq<char>,
    version: i64,
    next: Option<i64>,
    changed_at: i64,
) -> Result<BookmarkRow, Failure> {
    match cas_check(b, bookmark_id, version) {
        Err(e) => Err(e),
        Ok(_) => if !in_state(b, BookmarkState::Due, changed_at) {
            Err(Failure::InvalidOperation("bookmark reminder is not due"@))
        } else {
            versioned(BookmarkRow { remind_at: next, updated_at: changed_at, ..b })
        },
    }
}

/// The locked bookmark after its due reminder was settled: cleared, or moved to a later time.
pub fn settle_bookmark(
    b: Bookmark,
    expected: BookmarkCas<'_>,
    next: Option<i64>,
    changed_at: i64,
) -> (r: Result<Bookmark, StoreError>)
    ensures
        single(r) == settled_bookmark(
            b@,
            expected.bookmark_id@,
            expected.version,
            next,
            changed_at,
        ),
{
    if let Err(e) = validate_bookmark_cas(&b, expected) {
        return Err(e);
    }
    if !bookmark_state_matches(&b, BookmarkState::Due, changed_at) {
        return Err(invalid("bookmark reminder is not due"));
    }
    let mut b = b;
    b.remind_at = next;
    b.updated_at = changed_at;
    next_bookmark(b)
}

/// The removal of a locked bookmark.
pub open spec fn removal_write(b: BookmarkRow, bookmark_id: Seq<char>, version: i64) -> Result<
    StatementRow,
    Failure,
> {
    match cas_check(b, bookmark_id, version) {
        Err(e) => Err(e),
        Ok(_) => Ok(
            statement(DELETE_BOOKMARK@).text(b.owner_sub).text(b.post_id).text(b.bookmark_id),
        ),
    }
}

/// The statement that removes a locked bookmark.
pub fn remove_bookmark(b: &Bookmark, expected: BookmarkCas<'_>) -> (r: Result<Statement, StoreError>)
    ensures
        single(r) == removal_write(b@, expected.bookmark_id@, expected.version),
{
    if let Err(e) = validate_bookmark_cas(b, expected) {
        return Err(e);
    }
    Ok(
        Statement::new(DELETE_BOOKMARK).text(b.owner_sub.as_str()).text(b.post_id.as_str()).text(
            b.bookmark_id.as_str(),
        ),
    )
}

} // verus!
