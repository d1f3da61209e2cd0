//! Private bookmarks with notes and reminders.

use vstd::prelude::*;

use crate::model::{Bookmark, BookmarkItem, BookmarkItemRow, BookmarkRow};
use crate::rows::{
    Record, as_count, collect_rows, collected, count, count_rows, find_row, first_index, first_row,
    lemma_deduped, limit_rows, limited, opt, select, some_row, sort_rows, sorted, to_count, views,
};
use crate::store::follow::bookmark_of;
use crate::store::memory::{Forum, InMemoryStore};
use crate::store::rules::{
    bookmark_state_matches, cas_check, in_state, next_bookmark_version, next_version, note_check,
    reminder_check, validate_bookmark_cas, validate_bookmark_note, validate_future_reminder,
};
use crate::store::tables::{find_post, find_thread, post_is, thread_is};
use crate::store::threads::{is_key_less, key_less};
use crate::store::types::{
    BookmarkCas, BookmarkCursor, BookmarkCursorRow, BookmarkReminderUpdate, BookmarkState, Failure,
    MAX_BOOKMARKS_PER_USER, MAX_BOOKMARK_PAGE, MAX_BOOKMARK_POST_BATCH, StoreError, invalid,
    listed, maybe, not_found, plain, single,
};
use crate::text::same;
use crate::texts::{distinct_names, has_text};

verus! {

// ---------------------------------------------------------------------------
// Saving and finding.
// ---------------------------------------------------------------------------

/// The bookmarks of an owner.
pub open spec fn bookmark_by(owner_sub: Seq<char>) -> spec_fn(BookmarkRow) -> bool {
    |b: BookmarkRow| b.owner_sub == owner_sub
}

/// A fresh bookmark.
pub open spec fn new_bookmark(
    bookmark_id: Seq<char>,
    owner_sub: Seq<char>,
    post_id: Seq<char>,
    created_at: i64,
) -> BookmarkRow {
    BookmarkRow {
        bookmark_id,
        owner_sub,
        post_id,
        note: Seq::empty(),
        remind_at: None,
        created_at,
        updated_at: created_at,
        version: 1,
    }
}

/// An owner saves a live post. A post that was saved before keeps its bookmark unchanged.
pub open spec fn bookmark_saving(
    f: Forum,
    owner_sub: Seq<char>,
    post_id: Seq<char>,
    bookmark_id: Seq<char>,
    created_at: i64,
) -> (Forum, Result<BookmarkRow, Failure>) {
    if !some_row(f.posts, post_is(post_id)) {
        (f, Err(Failure::NotFound("post not found"@)))
    } else {
        match first_row(f.bookmarks, bookmark_of(owner_sub, post_id)) {
            Some(existing) => (f, Ok(existing)),
            None => if count_rows(f.bookmarks, bookmark_by(owner_sub)) >= MAX_BOOKMARKS_PER_USER {
                (
                    f,
                    Err(Failure::InvalidOperation("a user may save at most 1000 bookmarks"@)),
                )
            } else {
                let b = new_bookmark(bookmark_id, owner_sub, post_id, created_at);
                (Forum { bookmarks: f.bookmarks.push(b), ..f }, Ok(b))
            },
        }
    }
}

/// The bookmarks of an owner on live posts among the requested ones.
pub open spec fn bookmark_among(f: Forum, owner_sub: Seq<char>, post_ids: Seq<Seq<char>>) -> spec_fn(
    BookmarkRow,
) -> bool {
    |b: BookmarkRow|
        b.owner_sub == owner_sub && post_ids.contains(b.post_id) && some_row(
            f.posts,
            post_is(b.post_id),
        )
}

/// A bookmark joined to its live post and thread.
pub open spec fn bookmark_item(f: Forum, b: BookmarkRow) -> Option<BookmarkItemRow> {
    match first_row(f.posts, post_is(b.post_id)) {
        Some(post) => match first_row(f.threads, thread_is(post.thread_id)) {
            Some(thread) => Some(
                BookmarkItemRow {
                    bookmark: b,
                    thread_id: thread.id,
                    thread_title: thread.title,
                    post_author_email: post.author_email,
                    post_body_md: post.body_md,
                    post_created_at: post.created_at,
                },
            ),
            None => None,
        },
        None => None,
    }
}

/// What a bookmark is ordered by: its creation in the full list, else its reminder.
pub open spec fn bookmark_sort_at(state: BookmarkState, b: BookmarkRow) -> i64 {
    if state is All {
        b.created_at
    } else {
        match b.remind_at {
            Some(at) => at,
            None => 0,
        }
    }
}

/// Whether a bookmark lies behind the cursor: the full list runs from new to old, the others from
/// early to late reminders.
pub open spec fn bookmark_behind(
    state: BookmarkState,
    cursor: Option<BookmarkCursorRow>,
    b: BookmarkRow,
) -> bool {
    let at = bookmark_sort_at(state, b) as int;
    match cursor {
        None => true,
        Some(c) => if state is All {
            key_less(at, b.post_id, c.sort_at as int, c.post_id)
        } else {
            key_less(c.sort_at as int, c.post_id, at, b.post_id)
        },
    }
}

/// A bookmark as the list shows it.
pub open spec fn bookmark_listed(
    f: Forum,
    owner_sub: Seq<char>,
    state: BookmarkState,
    cursor: Option<BookmarkCursorRow>,
    now: i64,
) -> spec_fn(BookmarkRow) -> Option<BookmarkItemRow> {
    |b: BookmarkRow|
        if b.owner_sub == owner_sub && in_state(b, state, now) && bookmark_behind(
            state,
            cursor,
            b,
        ) {
            bookmark_item(f, b)
        } else {
            None
        }
}

/// Whether a bookmark is listed before another.
pub open spec fn bookmark_before(state: BookmarkState, a: BookmarkRow, b: BookmarkRow) -> bool {
    let at_a = bookmark_sort_at(state, a) as int;
    let at_b = bookmark_sort_at(state, b) as int;
    if state is All {
        key_less(at_b, b.post_id, at_a, a.post_id)
    } else {
        key_less(at_a, a.post_id, at_b, b.post_id)
    }
}

/// The order of a bookmark list.
pub open spec fn bookmark_order(state: BookmarkState) -> spec_fn(
    BookmarkItemRow,
    BookmarkItemRow,
) -> bool {
    |a: BookmarkItemRow, b: BookmarkItemRow| !bookmark_before(state, b.bookmark, a.bookmark)
}

/// The number of rows a bookmark page may hold.
pub open spec fn bookmark_limit(limit: int) -> int {
    if limit > MAX_BOOKMARK_PAGE + 1 {
        MAX_BOOKMARK_PAGE + 1
    } else {
        limit
    }
}

/// One page of an owner's bookmarks.
pub open spec fn bookmark_list(
    f: Forum,
    owner_sub: Seq<char>,
    state: BookmarkState,
    cursor: Option<BookmarkCursorRow>,
    limit: int,
    now: i64,
) -> Seq<BookmarkItemRow> {
    limited(
        sorted(
            collected(f.bookmarks, bookmark_listed(f, owner_sub, state, cursor, now)),
            bookmark_order(state),
        ),
        bookmark_limit(limit),
    )
}

/// The due bookmarks of an owner on live posts.
pub open spec fn bookmark_due(f: Forum, owner_sub: Seq<char>, now: i64) -> spec_fn(
    BookmarkRow,
) -> bool {
    |b: BookmarkRow|
        b.owner_sub == owner_sub && in_state(b, BookmarkState::Due, now) && some_row(
            f.posts,
            post_is(b.post_id),
        )
}

// ---------------------------------------------------------------------------
// Editing.
// ---------------------------------------------------------------------------

/// The row an edit applies to: it exists on a live post and is the one the edit was made against.
pub open spec fn edit_target(
    f: Forum,
    owner_sub: Seq<char>,
    post_id: Seq<char>,
    bookmark_id: Seq<char>,
    version: i64,
) -> Result<BookmarkRow, Failure> {
    if !some_row(f.posts, post_is(post_id)) {
        Err(Failure::NotFound("bookmark not found"@))
    } else {
        match first_row(f.bookmarks, bookmark_of(owner_sub, post_id)) {
            None => Err(Failure::NotFound("bookmark not found"@)),
            Some(row) => match cas_check(row, bookmark_id, version) {
                Err(e) => Err(e),
                Ok(_) => Ok(row),
            },
        }
    }
}

/// The forum after the row was replaced.
pub open spec fn with_bookmark(
    f: Forum,
    owner_sub: Seq<char>,
    post_id: Seq<char>,
    row: BookmarkRow,
) -> Forum {
    let i = first_index(f.bookmarks, bookmark_of(owner_sub, post_id))->0;
    Forum { bookmarks: f.bookmarks.update(i, row), ..f }
}

/// An edited row is stored under the next version; when the versions are exhausted it is refused.
pub open spec fn edit_stored(
    f: Forum,
    owner_sub: Seq<char>,
    post_id: Seq<char>,
    edited: BookmarkRow,
) -> (Forum, Result<BookmarkRow, Failure>) {
    match next_version(edited.version) {
        Err(e) => (f, Err(e)),
        Ok(version) => {
            let row = BookmarkRow { version, ..edited };
            (with_bookmark(f, owner_sub, post_id, row), Ok(row))
        },
    }
}

/// The reminder after an update.
pub open spec fn reminder_after(current: Option<i64>, update: BookmarkReminderUpdate) -> Option<i64> {
    match update {
        BookmarkReminderUpdate::Keep => current,
        BookmarkReminderUpdate::Clear => None,
        BookmarkReminderUpdate::SetTo(at) => Some(at),
    }
}

/// An owner edits the note and the reminder of a bookmark.
pub open spec fn bookmark_update(
    f: Forum,
    owner_sub: Seq<char>,
    post_id: Seq<char>,
    bookmark_id: Seq<char>,
    version: i64,
    note: Seq<char>,
    reminder: BookmarkReminderUpdate,
    changed_at: i64,
) -> (Forum, Result<BookmarkRow, Failure>) {
    let reminder_ok = match reminder {
        BookmarkReminderUpdate::SetTo(at) => reminder_check(at as int, changed_at as int),
        _ => Ok(()),
    };
    match (note_check(note), reminder_ok) {
        (Err(e), _) => (f, Err(e)),
        (Ok(_), Err(e)) => (f, Err(e)),
        (Ok(_), Ok(_)) => match edit_target(f, owner_sub, post_id, bookmark_id, version) {
            Err(e) => (f, Err(e)),
            Ok(row) => edit_stored(
                f,
                owner_sub,
                post_id,
                BookmarkRow {
                    note,
                    remind_at: reminder_after(row.remind_at, reminder),
                    updated_at: changed_at,
                    ..row
                },
            ),
        },
    }
}

/// An owner settles a due reminder: it is cleared, or moved to a later time.
pub open spec fn reminder_settling(
    f: Forum,
    owner_sub: Seq<char>,
    post_id: Seq<char>,
    bookmark_id: Seq<char>,
    version: i64,
    next: Option<i64>,
    changed_at: i64,
) -> (Forum, Result<BookmarkRow, Failure>) {
    match edit_target(f, owner_sub, post_id, bookmark_id, version) {
        Err(e) => (f, Err(e)),
        Ok(row) => if !in_state(row, BookmarkState::Due, changed_at) {
            (f, Err(Failure::InvalidOperation("bookmark reminder is not due"@)))
        } else {
            edit_stored(
                f,
                owner_sub,
                post_id,
                BookmarkRow { remind_at: next, updated_at: changed_at, ..row },
            )
        },
    }
}

/// An owner moves a due reminder to a future time.
pub open spec fn bookmark_snooze(
    f: Forum,
    owner_sub: Seq<char>,
    post_id: Seq<char>,
    bookmark_id: Seq<char>,
    version: i64,
    remind_at: i64,
    changed_at: i64,
) -> (Forum, Result<BookmarkRow, Failure>) {
    match reminder_check(remind_at as int, changed_at as int) {
        Err(e) => (f, Err(e)),
        Ok(_) => reminder_settling(
            f,
            owner_sub,
            post_id,
            bookmark_id,
            version,
            Some(remind_at),
            changed_at,
        ),
    }
}

/// An owner removes a bookmark.
pub open spec fn bookmark_removal(
    f: Forum,
    owner_sub: Seq<char>,
    post_id: Seq<char>,
    bookmark_id: Seq<char>,
    version: i64,
) -> (Forum, Result<(), Failure>) {
    match first_index(f.bookmarks, bookmark_of(owner_sub, post_id)) {
        None => (f, Err(Failure::NotFound("bookmark not found"@))),
        Some(i) => match cas_check(f.bookmarks[i], bookmark_id, version) {
            Err(e) => (f, Err(e)),
            Ok(_) => (Forum { bookmarks: f.bookmarks.remove(i), ..f }, Ok(())),
        },
    }
}

fn sort_at_of(state: BookmarkState, b: &Bookmark) -> (r: i64)
    ensures
        r == bookmark_sort_at(state, b@),
{
    match state {
        BookmarkState::All => b.created_at,
        BookmarkState::Due | BookmarkState::Scheduled => match b.remind_at {
            Some(at) => at,
            None => 0,
        },
    }
}

fn is_behind(state: BookmarkState, cursor: Option<&BookmarkCursor>, b: &Bookmark) -> (r: bool)
    ensures
        r == bookmark_behind(state, opt(cursor), b@),
{
    let at: i64 = sort_at_of(state, b);
    match cursor {
        None => true,
        Some(c) => match state {
            BookmarkState::All => is_key_less(
                at,
                b.post_id.as_str(),
                c.sort_at,
                c.post_id.as_str(),
            ),
            BookmarkState::Due | BookmarkState::Scheduled => is_key_less(
                c.sort_at,
                c.post_id.as_str(),
                at,
                b.post_id.as_str(),
            ),
        },
    }
}

fn is_bookmark_before(state: BookmarkState, a: &Bookmark, b: &Bookmark) -> (r: bool)
    ensures
        r == bookmark_before(state, a@, b@),
{
    let at_a: i64 = sort_at_of(state, a);
    let at_b: i64 = sort_at_of(state, b);
    match state {
        BookmarkState::All => is_key_less(at_b, b.post_id.as_str(), at_a, a.post_id.as_str()),
        BookmarkState::Due | BookmarkState::Scheduled => is_key_less(
            at_a,
            a.post_id.as_str(),
            at_b,
            b.post_id.as_str(),
        ),
    }
}

/// Requests with the same members select the same bookmarks.
proof fn lemma_same_selection(f: Forum, owner_sub: Seq<char>, a: Seq<Seq<char>>, b: Seq<Seq<char>>)
    requires
        forall|x: Seq<char>| #[trigger] b.contains(x) <==> a.contains(x),
    ensures
        bookmark_among(f, owner_sub, a) == bookmark_among(f, owner_sub, b),
{
    assert(bookmark_among(f, owner_sub, a) =~= bookmark_among(f, owner_sub, b));
}

impl InMemoryStore {
    fn find_bookmark(&self, owner_sub: &str, post_id: &str) -> (r: Option<usize>)
        ensures
            match r {
                Some(i) => i < self.bookmarks@.len() && first_index(
                    self@.bookmarks,
                    bookmark_of(owner_sub@, post_id@),
                ) == Some(i as int) && self.bookmarks@[i as int]@.post_id == post_id@,
                None => first_index(
                    self@.bookmarks,
                    bookmark_of(owner_sub@, post_id@),
                ) is None,
            },
    {
        let test = |b: &Bookmark| -> (k: bool)
            ensures
                k == bookmark_of(owner_sub@, post_id@)(b@),
            { same(b.owner_sub.as_str(), owner_sub) && same(b.post_id.as_str(), post_id) };
        find_row(&self.bookmarks, test, Ghost(bookmark_of(owner_sub@, post_id@)))
    }

    /// Save a live post under a fresh bookmark identity, unless it is saved already.
    pub fn ensure_bookmark(
        &mut self,
        owner_sub: &str,
        post_id: &str,
        bookmark_id: &str,
        created_at: i64,
    ) -> (r: Result<Bookmark, StoreError>)
        ensures
            (final(self)@, single(r)) == bookmark_saving(
                old(self)@,
                owner_sub@,
                post_id@,
                bookmark_id@,
                created_at,
            ),
    {
        if find_post(&self.posts, post_id).is_none() {
            return Err(not_found("post not found"));
        }
        if let Some(i) = self.find_bookmark(owner_sub, post_id) {
            return Ok(self.bookmarks[i].duplicate());
        }
        let test = |b: &Bookmark| -> (k: bool)
            ensures
                k == bookmark_by(owner_sub@)(b@),
            { same(b.owner_sub.as_str(), owner_sub) };
        if count(&self.bookmarks, test, Ghost(bookmark_by(owner_sub@))) >= MAX_BOOKMARKS_PER_USER {
            return Err(invalid("a user may save at most 1000 bookmarks"));
        }
        let bookmark = Bookmark {
            bookmark_id: bookmark_id.to_owned(),
            owner_sub: owner_sub.to_owned(),
            post_id: post_id.to_owned(),
            note: String::new(),
            remind_at: None,
            created_at,
            updated_at: created_at,
            version: 1,
        };
        let ghost before = self.bookmarks@;
        self.bookmarks.push(bookmark.duplicate());
        assert(views(self.bookmarks@) =~= views(before).push(bookmark@));
        Ok(bookmark)
    }

    /// The bookmarks of an owner on live posts among the requested ones.
    pub fn bookmarks_for_posts(&self, owner_sub: &str, post_ids: &[String]) -> (r: Result<
        Vec<Bookmark>,
        StoreError,
    >)
        ensures
            listed(r) == if post_ids@.len() > MAX_BOOKMARK_POST_BATCH {
                Err(
                    Failure::InvalidOperation("bookmark post batch may contain at most 32 ids"@),
                )
            } else {
                Ok(
                    self@.bookmarks.filter(
                        bookmark_among(self@, owner_sub@, views(post_ids@)),
                    ),
                )
            },
    {
        if post_ids.len() > MAX_BOOKMARK_POST_BATCH {
            return Err(invalid("bookmark post batch may contain at most 32 ids"));
        }
        let names = distinct_names(post_ids);
        let requested = &names;
        proof {
            lemma_deduped(views(post_ids@));
            lemma_same_selection(self@, owner_sub@, views(post_ids@), views(requested@));
        }
        let test = |b: &Bookmark| -> (k: bool)
            ensures
                k == bookmark_among(self@, owner_sub@, views(requested@))(b@),
            {
                same(b.owner_sub.as_str(), owner_sub) && has_text(requested, b.post_id.as_str())
                    && find_post(&self.posts, b.post_id.as_str()).is_some()
            };
        Ok(
            select(
                &self.bookmarks,
                test,
                Ghost(bookmark_among(self@, owner_sub@, views(requested@))),
            ),
        )
    }

    fn join_bookmark(&self, b: &Bookmark) -> (r: Option<BookmarkItem>)
        ensures
            opt(r) == bookmark_item(self@, b@),
    {
        let p: usize = match find_post(&self.posts, b.post_id.as_str()) {
            Some(i) => i,
            None => return None,
        };
        let t: usize = match find_thread(&self.threads, self.posts[p].thread_id.as_str()) {
            Some(i) => i,
            None => return None,
        };
        Some(
            BookmarkItem {
                bookmark: b.duplicate(),
                thread_id: self.threads[t].id.clone(),
                thread_title: self.threads[t].title.clone(),
                post_author_email: self.posts[p].author_email.clone(),
                post_body_md: self.posts[p].body_md.clone(),
                post_created_at: self.posts[p].created_at,
            },
        )
    }

    /// One page of an owner's bookmarks, joined to live content.
    pub fn bookmark_page(
        &self,
        owner_sub: &str,
        state: BookmarkState,
        cursor: Option<&BookmarkCursor>,
        limit: i64,
        now: i64,
    ) -> (r: Result<Vec<BookmarkItem>, StoreError>)
        ensures
            listed(r) == Ok::<Seq<BookmarkItemRow>, Failure>(
                bookmark_list(self@, owner_sub@, state, opt(cursor), limit as int, now),
            ),
    {
        let f = |b: &Bookmark| -> (item: Option<BookmarkItem>)
            ensures
                opt(item) == bookmark_listed(self@, owner_sub@, state, opt(cursor), now)(b@),
            {
                if same(b.owner_sub.as_str(), owner_sub) && bookmark_state_matches(b, state, now)
                    && is_behind(state, cursor, b) {
                    self.join_bookmark(b)
                } else {
                    None
                }
            };
        let items = collect_rows(
            &self.bookmarks,
            f,
            Ghost(bookmark_listed(self@, owner_sub@, state, opt(cursor), now)),
        );
        let le = |a: &BookmarkItem, b: &BookmarkItem| -> (r: bool)
            ensures
                r == bookmark_order(state)(a@, b@),
            { !is_bookmark_before(state, &b.bookmark, &a.bookmark) };
        let mut items = sort_rows(items, le, Ghost(bookmark_order(state)));
        let bound: i64 = if limit > MAX_BOOKMARK_PAGE + 1 {
            MAX_BOOKMARK_PAGE + 1
        } else {
            limit
        };
        limit_rows(&mut items, bound);
        Ok(items)
    }

    /// How many bookmarks of an owner are due.
    pub fn due_bookmark_count(&self, owner_sub: &str, now: i64) -> (r: Result<i64, StoreError>)
        ensures
            plain(r) == Ok::<i64, Failure>(
                as_count(count_rows(self@.bookmarks, bookmark_due(self@, owner_sub@, now))),
            ),
    {
        let test = |b: &Bookmark| -> (k: bool)
            ensures
                k == bookmark_due(self@, owner_sub@, now)(b@),
            {
                same(b.owner_sub.as_str(), owner_sub) && bookmark_state_matches(
                    b,
                    BookmarkState::Due,
                    now,
                ) && find_post(&self.posts, b.post_id.as_str()).is_some()
            };
        Ok(to_count(count(&self.bookmarks, test, Ghost(bookmark_due(self@, owner_sub@, now)))))
    }

    /// The bookmark of an owner on a post, joined to live content.
    pub fn get_bookmark(&self, owner_sub: &str, post_id: &str) -> (r: Result<
        Option<BookmarkItem>,
        StoreError,
    >)
        ensures
            maybe(r) == Ok::<Option<BookmarkItemRow>, Failure>(
                match first_row(self@.bookmarks, bookmark_of(owner_sub@, post_id@)) {
                    Some(b) => bookmark_item(self@, b),
                    None => None,
                },
            ),
    {
        match self.find_bookmark(owner_sub, post_id) {
            Some(i) => Ok(self.join_bookmark(&self.bookmarks[i])),
            None => Ok(None),
        }
    }

    /// The index of the row an edit applies to.
    fn find_edit_target(&self, owner_sub: &str, post_id: &str, expected: BookmarkCas<'_>) -> (r: Result<
        usize,
        StoreError,
    >)
        ensures
            match r {
                Ok(i) => i < self.bookmarks@.len() && first_index(
                    self@.bookmarks,
                    bookmark_of(owner_sub@, post_id@),
                ) == Some(i as int) && edit_target(
                    self@,
                    owner_sub@,
                    post_id@,
                    expected.bookmark_id@,
                    expected.version,
                ) == Ok::<BookmarkRow, Failure>(self.bookmarks@[i as int]@),
                Err(e) => edit_target(
                    self@,
                    owner_sub@,
                    post_id@,
                    expected.bookmark_id@,
                    expected.version,
                ) == Err::<BookmarkRow, Failure>(e@),
            },
    {
        if find_post(&self.posts, post_id).is_none() {
            return Err(not_found("bookmark not found"));
        }
        match self.find_bookmark(owner_sub, post_id) {
            None => Err(not_found("bookmark not found")),
            Some(i) => match validate_bookmark_cas(&self.bookmarks[i], expected) {
                Err(e) => Err(e),
                Ok(_) => Ok(i),
            },
        }
    }

    /// Store an edited row under the next version.
    fn store_edit(&mut self, i: usize, edited: Bookmark, Ghost(owner_sub): Ghost<Seq<char>>, Ghost(
        post_id,
    ): Ghost<Seq<char>>) -> (r: Result<Bookmark, StoreError>)
        requires
            i < old(self).bookmarks@.len(),
            first_index(old(self)@.bookmarks, bookmark_of(owner_sub, post_id)) == Some(i as int),
        ensures
            (final(self)@, single(r)) == edit_stored(old(self)@, owner_sub, post_id, edited@),
    {
        let ghost before = self.bookmarks@;
        let mut row = edited;
        match next_bookmark_version(row.version) {
            Err(e) => Err(e),
            Ok(version) => {
                row.version = version;
                self.bookmarks.set(i, row.duplicate());
                assert(views(self.bookmarks@) =~= views(before).update(i as int, row@));
                Ok(row)
            },
        }
    }

    /// Edit the note and the reminder of a bookmark.
    pub fn update_bookmark(
        &mut self,
        owner_sub: &str,
        post_id: &str,
        expected: BookmarkCas<'_>,
        note: &str,
        reminder: BookmarkReminderUpdate,
        changed_at: i64,
    ) -> (r: Result<Bookmark, StoreError>)
        ensures
            (final(self)@, single(r)) == bookmark_update(
                old(self)@,
                owner_sub@,
                post_id@,
                expected.bookmark_id@,
                expected.version,
                note@,
                reminder,
                changed_at,
            ),
    {
        if let Err(e) = validate_bookmark_note(note) {
            return Err(e);
        }
        if let BookmarkReminderUpdate::SetTo(at) = reminder {
            if let Err(e) = validate_future_reminder(at, changed_at) {
                return Err(e);
            }
        }
        let i: usize = match self.find_edit_target(owner_sub, post_id, expected) {
            Ok(i) => i,
            Err(e) => return Err(e),
        };
        let mut row = self.bookmarks[i].duplicate();
        row.note = note.to_owned();
        match reminder {
            BookmarkReminderUpdate::Keep => {},
            BookmarkReminderUpdate::Clear => {
                row.remind_at = None;
            },
            BookmarkReminderUpdate::SetTo(at) => {
                row.remind_at = Some(at);
            },
        }
        row.updated_at = changed_at;
        self.store_edit(i, row, Ghost(owner_sub@), Ghost(post_id@))
    }

    fn settle_reminder(
        &mut self,
        owner_sub: &str,
        post_id: &str,
        expected: BookmarkCas<'_>,
        next: Option<i64>,
        changed_at: i64,
    ) -> (r: Result<Bookmark, StoreError>)
        ensures
            (final(self)@, single(r)) == reminder_settling(
                old(self)@,
                owner_sub@,
                post_id@,
                expected.bookmark_id@,
                expected.version,
                next,
                changed_at,
            ),
    {
        let i: usize = match self.find_edit_target(owner_sub, post_id, expected) {
            Ok(i) => i,
            Err(e) => return Err(e),
        };
        let mut row = self.bookmarks[i].duplicate();
        if !bookmark_state_matches(&row, BookmarkState::Due, changed_at) {
            return Err(invalid("bookmark reminder is not due"));
        }
        row.remind_at = next;
        row.updated_at = changed_at;
        self.store_edit(i, row, Ghost(owner_sub@), Ghost(post_id@))
    }

    /// Clear a due reminder and keep the bookmark.
    pub fn complete_due_bookmark(
        &mut self,
        owner_sub: &str,
        post_id: &str,
        expected: BookmarkCas<'_>,
        changed_at: i64,
    ) -> (r: Result<Bookmark, StoreError>)
        ensures
            (final(self)@, single(r)) == reminder_settling(
                old(self)@,
                owner_sub@,
                post_id@,
                expected.bookmark_id@,
                expected.version,
                None,
                changed_at,
            ),
    {
        self.settle_reminder(owner_sub, post_id, expected, None, changed_at)
    }

    /// Move a due reminder to a future time.
    pub fn snooze_bookmark(
        &mut self,
        owner_sub: &str,
        post_id: &str,
        expected: BookmarkCas<'_>,
        remind_at: i64,
        changed_at: i64,
    ) -> (r: Result<Bookmark, StoreError>)
        ensures
            (final(self)@, single(r)) == bookmark_snooze(
                old(self)@,
                owner_sub@,
                post_id@,
                expected.bookmark_id@,
                expected.version,
                remind_at,
                changed_at,
            ),
    {
        if let Err(e) = validate_future_reminder(remind_at, changed_at) {
            return Err(e);
        }
        self.settle_reminder(owner_sub, post_id, expected, Some(remind_at), changed_at)
    }

    /// Remove a bookmark.
    pub fn remove_bookmark(&mut self, owner_sub: &str, post_id: &str, expected: BookmarkCas<'_>) -> (r:
        Result<(), StoreError>)
        ensures
            (final(self)@, plain(r)) == bookmark_removal(
                old(self)@,
                owner_sub@,
                post_id@,
                expected.bookmark_id@,
                expected.version,
            ),
    {
        match self.find_bookmark(owner_sub, post_id) {
            None => Err(not_found("bookmark not found")),
            Some(i) => {
                if let Err(e) = validate_bookmark_cas(&self.bookmarks[i], expected) {
                    return Err(e);
                }
                let ghost before = self.bookmarks@;
                let _ = self.bookmarks.remove(i);
                assert(views(self.bookmarks@) =~= views(before).remove(i as int));
                Ok(())
            },
        }
    }
}

} // verus!
