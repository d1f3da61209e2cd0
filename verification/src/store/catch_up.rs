//! Reading receipts, reading states, and the catch-up desk.

use vstd::prelude::*;

use crate::model::{
    Bookmark, BookmarkRow, CategoryRow, Post, PostRow, Thread, ThreadFollowLevel,
    ThreadReadingState, ThreadReadingStateRow, ThreadRow,
};
use crate::rows::{
    Record, any_row, append_rows, as_count, collected, first_row, limit_rows, limited, map_rows,
    opt, select, some_row, sort_rows, sorted, to_count, views,
};
use crate::store::follow::{has_receipt, level_of, receipt_of};
use crate::store::memory::{Forum, InMemoryStore};
use crate::store::posting::{point_of, with_next_generation};
use crate::store::rules::{
    bounded_post_ids, bounded_thread_ids, catch_up_page_check, catch_up_reason, catch_up_why,
    reading_ids, reading_state, reading_state_from_posts, receipt_ids, validate_catch_up_page,
};
use crate::store::tables::{
    category_is, find_category, find_thread, original_id, original_of, post_is_in, public_row,
    public_thread, thread_is, valid_accepted, valid_accepted_post,
};
use crate::store::threads::{key_less, post_order, sort_posts, thread_posts};
use crate::store::types::{
    CatchUpCursor, CatchUpCursorRow, CatchUpItem, CatchUpItemRow, CatchUpPostPoint,
    CatchUpPostPointRow, CatchUpQuestionState, CatchUpReason, CatchUpView, Failure, ReadReceipt,
    ReadReceiptRow, ReadingEntry, ReadingEntryRow, StoreError, invalid, listed, not_found, plain,
    single,
};
use crate::text::{blank_text, is_blank, same, str_less};

verus! {

// ---------------------------------------------------------------------------
// Reading states.
// ---------------------------------------------------------------------------

/// The receipts of a viewer.
pub open spec fn receipt_by(viewer_sub: Seq<char>) -> spec_fn(ReadReceiptRow) -> bool {
    |r: ReadReceiptRow| r.viewer_sub == viewer_sub
}

/// The post of a receipt.
pub open spec fn receipt_post() -> spec_fn(ReadReceiptRow) -> Seq<char> {
    |r: ReadReceiptRow| r.post_id
}

/// The posts a viewer has read.
pub open spec fn read_by(f: Forum, viewer_sub: Seq<char>) -> Seq<Seq<char>> {
    f.read_receipts.filter(receipt_by(viewer_sub)).map_values(receipt_post())
}

/// The reading state of a live thread.
pub open spec fn reading_entry(f: Forum, viewer_sub: Seq<char>) -> spec_fn(Seq<char>) -> Option<
    ReadingEntryRow,
> {
    |id: Seq<char>|
        if some_row(f.threads, thread_is(id)) {
            Some(
                ReadingEntryRow {
                    thread_id: id,
                    state: reading_state(thread_posts(f, id), read_by(f, viewer_sub)),
                },
            )
        } else {
            None
        }
}

/// The reading states of the live threads among the requested ones, by identifier.
pub open spec fn reading_states(f: Forum, viewer_sub: Seq<char>, ids: Seq<Seq<char>>) -> Result<
    Seq<ReadingEntryRow>,
    Failure,
> {
    match reading_ids(ids) {
        Err(e) => Err(e),
        Ok(unique) => Ok(collected(unique, reading_entry(f, viewer_sub))),
    }
}

// ---------------------------------------------------------------------------
// Marking posts read.
// ---------------------------------------------------------------------------

/// Whether a post does not belong to the thread.
pub open spec fn stranger_to(posts: Seq<PostRow>, thread_id: Seq<char>) -> spec_fn(
    Seq<char>,
) -> bool {
    |id: Seq<char>| !some_row(posts, post_is_in(id, thread_id))
}

/// The posts a viewer has no receipt for.
pub open spec fn not_yet_read(receipts: Seq<ReadReceiptRow>, viewer_sub: Seq<char>) -> spec_fn(
    Seq<char>,
) -> bool {
    |id: Seq<char>| !some_row(receipts, receipt_of(viewer_sub, id))
}

/// A new receipt.
pub open spec fn new_receipt(viewer_sub: Seq<char>, read_at: i64, read_seq: i64) -> spec_fn(
    Seq<char>,
) -> ReadReceiptRow {
    |id: Seq<char>| ReadReceiptRow { viewer_sub, post_id: id, read_at, read_seq }
}

/// A viewer marks posts of a thread read. Every post must belong to the thread, posts that were
/// read before keep their receipt, and all new receipts share one generation.
pub open spec fn reading_mark(
    f: Forum,
    viewer_sub: Seq<char>,
    thread_id: Seq<char>,
    post_ids: Seq<Seq<char>>,
    read_at: i64,
) -> (Forum, Result<(), Failure>) {
    match receipt_ids(post_ids) {
        Err(e) => (f, Err(e)),
        Ok(ids) => if blank_text(viewer_sub) || read_at < 0 {
            (f, Err(Failure::InvalidOperation("invalid thread reading receipt"@)))
        } else if !some_row(f.threads, thread_is(thread_id)) {
            (f, Err(Failure::NotFound("thread not found"@)))
        } else if some_row(ids, stranger_to(f.posts, thread_id)) {
            (f, Err(Failure::NotFound("thread post not found"@)))
        } else {
            let missing = ids.filter(not_yet_read(f.read_receipts, viewer_sub));
            if missing.len() == 0 {
                (f, Ok(()))
            } else {
                match with_next_generation(f) {
                    (g, Err(e)) => (g, Err(e)),
                    (g, Ok(seq)) => (
                        Forum {
                            read_receipts: g.read_receipts + missing.map_values(
                                new_receipt(viewer_sub, read_at, seq),
                            ),
                            ..g
                        },
                        Ok(()),
                    ),
                }
            }
        },
    }
}

// ---------------------------------------------------------------------------
// The catch-up desk.
// ---------------------------------------------------------------------------

/// The points inside a snapshot.
pub open spec fn point_within(as_of: i64, generation: i64) -> spec_fn(CatchUpPostPointRow) -> bool {
    |p: CatchUpPostPointRow| p.seq <= generation && p.activity_at <= as_of
}

/// The points of a snapshot.
pub open spec fn snapshot_points(f: Forum, as_of: i64, generation: i64) -> Seq<CatchUpPostPointRow> {
    f.post_points.filter(point_within(as_of, generation))
}

/// The receipts of a viewer inside a snapshot.
pub open spec fn receipt_within(
    points: Seq<CatchUpPostPointRow>,
    viewer_sub: Seq<char>,
    as_of: i64,
    generation: i64,
) -> spec_fn(ReadReceiptRow) -> bool {
    |r: ReadReceiptRow|
        r.viewer_sub == viewer_sub && r.read_at <= as_of && r.read_seq <= generation && some_row(
            points,
            point_of(r.post_id),
        )
}

/// The bookmark of an owner on a post inside a snapshot.
pub open spec fn bookmark_within(owner_sub: Seq<char>, post_id: Seq<char>, as_of: i64) -> spec_fn(
    BookmarkRow,
) -> bool {
    |b: BookmarkRow| b.owner_sub == owner_sub && b.post_id == post_id && b.created_at <= as_of
}

/// The live posts of a thread inside a snapshot.
pub open spec fn post_within(points: Seq<CatchUpPostPointRow>, thread_id: Seq<char>) -> spec_fn(
    PostRow,
) -> bool {
    |p: PostRow| p.thread_id == thread_id && some_row(points, point_of(p.id))
}

/// The posts by an author.
pub open spec fn written_by(author_sub: Seq<char>) -> spec_fn(PostRow) -> bool {
    |p: PostRow| p.author_sub == author_sub
}

/// The posts an owner had bookmarked.
pub open spec fn bookmarked_within(
    bookmarks: Seq<BookmarkRow>,
    owner_sub: Seq<char>,
    as_of: i64,
) -> spec_fn(PostRow) -> bool {
    |p: PostRow| some_row(bookmarks, bookmark_within(owner_sub, p.id, as_of))
}

/// When a thread was last active according to the points.
pub open spec fn latest_activity(points: Seq<CatchUpPostPointRow>, thread_id: Seq<char>) -> Option<
    i64,
>
    decreases points.len(),
{
    if points.len() == 0 {
        None
    } else {
        let rest = latest_activity(points.drop_last(), thread_id);
        let p = points.last();
        if p.thread_id != thread_id {
            rest
        } else {
            match rest {
                Some(at) => if p.activity_at > at {
                    Some(p.activity_at)
                } else {
                    Some(at)
                },
                None => Some(p.activity_at),
            }
        }
    }
}

/// One request for a catch-up page.
pub struct CatchUpQuery {
    pub viewer_sub: Seq<char>,
    pub view: CatchUpView,
    pub as_of: i64,
    pub generation: i64,
    pub before: Option<CatchUpCursorRow>,
}

/// A thread inside a snapshot, with what the desk decides by.
pub struct CatchUpFacts {
    pub posts: Seq<PostRow>,
    pub activity_at: i64,
    pub follow_level: ThreadFollowLevel,
    pub reading: ThreadReadingStateRow,
    pub reason: Option<CatchUpReason>,
    pub question: bool,
    pub solved: bool,
}

/// The facts about a thread with a live category and the original post `op`.
pub open spec fn catch_up_facts(
    f: Forum,
    q: CatchUpQuery,
    t: ThreadRow,
    category: CategoryRow,
    op: Seq<char>,
) -> CatchUpFacts {
    let points = snapshot_points(f, q.as_of, q.generation);
    let posts = sorted(f.posts.filter(post_within(points, t.id)), post_order(Some(op)));
    let reading = reading_state(
        posts,
        f.read_receipts.filter(
            receipt_within(points, q.viewer_sub, q.as_of, q.generation),
        ).map_values(receipt_post()),
    );
    let follow_level = level_of(f.subscriptions, t.id, q.viewer_sub);
    CatchUpFacts {
        posts,
        activity_at: match latest_activity(points, t.id) {
            Some(at) => at,
            None => t.created_at,
        },
        follow_level,
        reading,
        reason: catch_up_why(
            q.view,
            follow_level,
            t.author_sub == q.viewer_sub,
            some_row(posts, bookmarked_within(f.bookmarks, q.viewer_sub, q.as_of)),
            some_row(posts, written_by(q.viewer_sub)),
            reading.started,
        ),
        question: category.format is Question,
        solved: category.format is Question && match valid_accepted(t, f.original_posts, f.posts) {
            Some(p) => some_row(points, point_of(p.id)),
            None => false,
        },
    }
}

/// Whether the desk shows a thread: its original post is inside the snapshot, it lies behind the
/// cursor, the viewer does not mute it, and it belongs in the view.
pub open spec fn catch_up_shows(q: CatchUpQuery, t: ThreadRow, x: CatchUpFacts) -> bool {
    &&& t.created_at <= q.as_of
    &&& x.posts.len() > 0
    &&& q.before is Some ==> key_less(
        x.activity_at as int,
        t.id,
        q.before->0.activity_at as int,
        q.before->0.thread_id,
    )
    &&& !(x.follow_level is Mute)
    &&& x.reason is Some
    &&& q.view is Updates ==> x.reading.unread_count > 0
    &&& q.view is Questions ==> x.question
}

/// A thread as the desk shows it.
pub open spec fn catch_up_item(f: Forum, q: CatchUpQuery) -> spec_fn(ThreadRow) -> Option<
    CatchUpItemRow,
> {
    |t: ThreadRow|
        match (
            first_row(f.categories, category_is(t.category_id)),
            original_of(f.original_posts, t.id),
        ) {
            (Some(category), Some(op)) => {
                let x = catch_up_facts(f, q, t, category, op);
                if some_row(snapshot_points(f, q.as_of, q.generation), point_of(op))
                    && catch_up_shows(q, t, x) {
                    Some(
                        CatchUpItemRow {
                            thread: public_row(t, x.solved),
                            category_name: category.name,
                            reason: x.reason->0,
                            follow_level: x.follow_level,
                            unread_count: x.reading.unread_count,
                            first_unread: x.reading.first_unread,
                            question_state: if !x.question {
                                None
                            } else if x.solved {
                                Some(CatchUpQuestionState::Solved)
                            } else {
                                Some(CatchUpQuestionState::Waiting)
                            },
                            activity_at: x.activity_at,
                            reply_count: (as_count(x.posts.len()) - 1) as i64,
                        },
                    )
                } else {
                    None
                }
            },
            _ => None,
        }
}

/// The order of the desk: most recent activity first.
pub open spec fn catch_up_order() -> spec_fn(CatchUpItemRow, CatchUpItemRow) -> bool {
    |a: CatchUpItemRow, b: CatchUpItemRow|
        !key_less(a.activity_at as int, a.thread.id, b.activity_at as int, b.thread.id)
}

/// One page of the catch-up desk. A snapshot cannot lie in the future.
pub open spec fn catch_up(f: Forum, q: CatchUpQuery, limit: int) -> Result<
    Seq<CatchUpItemRow>,
    Failure,
> {
    match catch_up_page_check(q.view, q.as_of as int, q.generation as int, q.before, limit) {
        Err(e) => Err(e),
        Ok(_) => if limit == 0 {
            Ok(Seq::empty())
        } else if q.generation > f.generation {
            Err(Failure::InvalidOperation("catch-up snapshot generation is in the future"@))
        } else {
            Ok(
                limited(
                    sorted(collected(f.threads, catch_up_item(f, q)), catch_up_order()),
                    limit,
                ),
            )
        },
    }
}

fn has_point(points: &Vec<CatchUpPostPoint>, post_id: &str) -> (r: bool)
    ensures
        r == some_row(views(points@), point_of(post_id@)),
{
    let test = |p: &CatchUpPostPoint| -> (b: bool)
        ensures
            b == point_of(post_id@)(p@),
        { same(p.post_id.as_str(), post_id) };
    any_row(points, test, Ghost(point_of(post_id@)))
}

fn latest_activity_in(points: &Vec<CatchUpPostPoint>, thread_id: &str) -> (r: Option<i64>)
    ensures
        r == latest_activity(views(points@), thread_id@),
{
    let ghost s = views(points@);
    let mut latest: Option<i64> = None;
    let mut i: usize = 0;
    while i < points.len()
        invariant
            0 <= i <= points@.len(),
            s == views(points@),
            latest == latest_activity(s.take(i as int), thread_id@),
        decreases points@.len() - i,
    {
        assert(s.take(i + 1).drop_last() =~= s.take(i as int));
        assert(s.take(i + 1).last() == points@[i as int]@);
        if same(points[i].thread_id.as_str(), thread_id) {
            let at: i64 = points[i].activity_at;
            latest = match latest {
                Some(best) => if at > best {
                    Some(at)
                } else {
                    Some(best)
                },
                None => Some(at),
            };
        }
        i = i + 1;
    }
    assert(s.take(s.len() as int) =~= s);
    latest
}

fn receipt_posts(receipts: &Vec<ReadReceipt>) -> (out: Vec<String>)
    ensures
        views(out@) == views(receipts@).map_values(receipt_post()),
{
    let f = |r: &ReadReceipt| -> (id: String)
        ensures
            id@ == receipt_post()(r@),
        { r.post_id.clone() };
    map_rows(receipts, f, Ghost(receipt_post()))
}

fn has_bookmark_within(bookmarks: &Vec<Bookmark>, owner_sub: &str, post_id: &str, as_of: i64) -> (r:
    bool)
    ensures
        r == some_row(views(bookmarks@), bookmark_within(owner_sub@, post_id@, as_of)),
{
    let test = |b: &Bookmark| -> (k: bool)
        ensures
            k == bookmark_within(owner_sub@, post_id@, as_of)(b@),
        {
            same(b.owner_sub.as_str(), owner_sub) && same(b.post_id.as_str(), post_id)
                && b.created_at <= as_of
        };
    any_row(bookmarks, test, Ghost(bookmark_within(owner_sub@, post_id@, as_of)))
}

/// The view of a request.
pub open spec fn query_of(
    viewer_sub: Seq<char>,
    view: CatchUpView,
    as_of: i64,
    generation: i64,
    before: Option<CatchUpCursorRow>,
) -> CatchUpQuery {
    CatchUpQuery { viewer_sub, view, as_of, generation, before }
}

impl InMemoryStore {
    fn read_ids(&self, viewer_sub: &str) -> (out: Vec<String>)
        ensures
            views(out@) == read_by(self@, viewer_sub@),
    {
        let test = |r: &ReadReceipt| -> (b: bool)
            ensures
                b == receipt_by(viewer_sub@)(r@),
            { same(r.viewer_sub.as_str(), viewer_sub) };
        receipt_posts(&select(&self.read_receipts, test, Ghost(receipt_by(viewer_sub@))))
    }

    fn reading_entry_for(&self, viewer_sub: &str, id: &String, read: &Vec<String>) -> (r: Option<
        ReadingEntry,
    >)
        requires
            views(read@) == read_by(self@, viewer_sub@),
        ensures
            opt(r) == reading_entry(self@, viewer_sub@)(id@),
    {
        if find_thread(&self.threads, id.as_str()).is_none() {
            return None;
        }
        let posts = self.ordered_posts(id.as_str());
        Some(
            ReadingEntry {
                thread_id: id.clone(),
                state: reading_state_from_posts(&posts, read),
            },
        )
    }

    /// How far a viewer has read one thread.
    pub fn thread_reading_state(&self, viewer_sub: &str, thread_id: &str) -> (r: Result<
        ThreadReadingState,
        StoreError,
    >)
        ensures
            single(r) == if !blank_text(thread_id@) && some_row(
                self@.threads,
                thread_is(thread_id@),
            ) {
                Ok(reading_state(thread_posts(self@, thread_id@), read_by(self@, viewer_sub@)))
            } else {
                Err(Failure::NotFound("thread not found"@))
            },
    {
        if is_blank(thread_id) || find_thread(&self.threads, thread_id).is_none() {
            return Err(not_found("thread not found"));
        }
        let posts = self.ordered_posts(thread_id);
        Ok(reading_state_from_posts(&posts, &self.read_ids(viewer_sub)))
    }

    /// How far a viewer has read each of the live threads among the requested ones, by identifier.
    pub fn thread_reading_states(&self, viewer_sub: &str, thread_ids: &[String]) -> (r: Result<
        Vec<ReadingEntry>,
        StoreError,
    >)
        ensures
            listed(r) == reading_states(self@, viewer_sub@, views(thread_ids@)),
    {
        let ids = match bounded_thread_ids(thread_ids) {
            Ok(ids) => ids,
            Err(e) => return Err(e),
        };
        let read_ids = self.read_ids(viewer_sub);
        let mut out: Vec<ReadingEntry> = Vec::new();
        let mut i: usize = 0;
        let ghost s = views(ids@);
        let ghost g = reading_entry(self@, viewer_sub@);
        assert(views(out@) =~= collected(s.take(0), g));
        while i < ids.len()
            invariant
                0 <= i <= ids@.len(),
                s == views(ids@),
                g == reading_entry(self@, viewer_sub@),
                views(read_ids@) == read_by(self@, viewer_sub@),
                views(out@) == collected(s.take(i as int), g),
            decreases ids@.len() - i,
        {
            assert(s.take(i + 1).drop_last() =~= s.take(i as int));
            assert(s.take(i + 1).last() == ids@[i as int]@);
            if let Some(entry) = self.reading_entry_for(viewer_sub, &ids[i], &read_ids) {
                let ghost before = out@;
                out.push(entry);
                assert(views(out@) =~= views(before).push(entry@));
            }
            i = i + 1;
        }
        assert(s.take(s.len() as int) =~= s);
        Ok(out)
    }

    /// Mark posts of a thread read.
    pub fn mark_thread_posts_read(
        &mut self,
        viewer_sub: &str,
        thread_id: &str,
        post_ids: &[String],
        read_at: i64,
    ) -> (r: Result<(), StoreError>)
        ensures
            (final(self)@, plain(r)) == reading_mark(
                old(self)@,
                viewer_sub@,
                thread_id@,
                views(post_ids@),
                read_at,
            ),
    {
        let ids = match bounded_post_ids(post_ids) {
            Ok(ids) => ids,
            Err(e) => return Err(e),
        };
        if is_blank(viewer_sub) || read_at < 0 {
            return Err(invalid("invalid thread reading receipt"));
        }
        if find_thread(&self.threads, thread_id).is_none() {
            return Err(not_found("thread not found"));
        }
        let posts = &self.posts;
        let stranger = |id: &String| -> (b: bool)
            ensures
                b == stranger_to(views(posts@), thread_id@)(id@),
            {
                let test = |p: &Post| -> (b: bool)
                    ensures
                        b == post_is_in(id@, thread_id@)(p@),
                    { p.id == *id && same(p.thread_id.as_str(), thread_id) };
                !any_row(posts, test, Ghost(post_is_in(id@, thread_id@)))
            };
        if any_row(&ids, stranger, Ghost(stranger_to(self@.posts, thread_id@))) {
            return Err(not_found("thread post not found"));
        }
        let receipts = &self.read_receipts;
        let missing = |id: &String| -> (b: bool)
            ensures
                b == not_yet_read(views(receipts@), viewer_sub@)(id@),
            { !has_receipt(receipts, viewer_sub, id.as_str()) };
        let missing = select(&ids, missing, Ghost(not_yet_read(self@.read_receipts, viewer_sub@)));
        if missing.is_empty() {
            return Ok(());
        }
        match self.next_generation() {
            Err(e) => Err(e),
            Ok(seq) => {
                let f = |id: &String| -> (r: ReadReceipt)
                    ensures
                        r@ == new_receipt(viewer_sub@, read_at, seq)(id@),
                    {
                        ReadReceipt {
                            viewer_sub: viewer_sub.to_owned(),
                            post_id: id.clone(),
                            read_at,
                            read_seq: seq,
                        }
                    };
                let fresh = map_rows(&missing, f, Ghost(new_receipt(viewer_sub@, read_at, seq)));
                append_rows(&mut self.read_receipts, fresh);
                Ok(())
            },
        }
    }

    /// The current boundary of posts and read receipts.
    pub fn catch_up_snapshot_generation(&self) -> (r: Result<i64, StoreError>)
        ensures
            plain(r) == Ok::<i64, Failure>(self@.generation),
    {
        Ok(self.generation)
    }

    fn snapshot_of(&self, as_of: i64, generation: i64) -> (out: Vec<CatchUpPostPoint>)
        ensures
            views(out@) == snapshot_points(self@, as_of, generation),
    {
        let test = |p: &CatchUpPostPoint| -> (b: bool)
            ensures
                b == point_within(as_of, generation)(p@),
            { p.seq <= generation && p.activity_at <= as_of };
        select(&self.post_points, test, Ghost(point_within(as_of, generation)))
    }

    fn snapshot_posts(&self, points: &Vec<CatchUpPostPoint>, thread_id: &str, op: &Option<String>) -> (out:
        Vec<Post>)
        ensures
            views(out@) == sorted(
                self@.posts.filter(post_within(views(points@), thread_id@)),
                post_order(opt(*op)),
            ),
    {
        let test = |p: &Post| -> (b: bool)
            ensures
                b == post_within(views(points@), thread_id@)(p@),
            { same(p.thread_id.as_str(), thread_id) && has_point(points, p.id.as_str()) };
        sort_posts(
            select(&self.posts, test, Ghost(post_within(views(points@), thread_id@))),
            op,
        )
    }

    fn snapshot_reads(
        &self,
        points: &Vec<CatchUpPostPoint>,
        viewer_sub: &str,
        as_of: i64,
        generation: i64,
    ) -> (out: Vec<String>)
        ensures
            views(out@) == self@.read_receipts.filter(
                receipt_within(views(points@), viewer_sub@, as_of, generation),
            ).map_values(receipt_post()),
    {
        let test = |r: &ReadReceipt| -> (b: bool)
            ensures
                b == receipt_within(views(points@), viewer_sub@, as_of, generation)(r@),
            {
                same(r.viewer_sub.as_str(), viewer_sub) && r.read_at <= as_of && r.read_seq
                    <= generation && has_point(points, r.post_id.as_str())
            };
        receipt_posts(
            &select(
                &self.read_receipts,
                test,
                Ghost(receipt_within(views(points@), viewer_sub@, as_of, generation)),
            ),
        )
    }

    fn is_bookmarked_within(&self, posts: &Vec<Post>, viewer_sub: &str, as_of: i64) -> (r: bool)
        ensures
            r == some_row(
                views(posts@),
                bookmarked_within(self@.bookmarks, viewer_sub@, as_of),
            ),
    {
        let test = |p: &Post| -> (b: bool)
            ensures
                b == bookmarked_within(self@.bookmarks, viewer_sub@, as_of)(p@),
            { has_bookmark_within(&self.bookmarks, viewer_sub, p.id.as_str(), as_of) };
        any_row(posts, test, Ghost(bookmarked_within(self@.bookmarks, viewer_sub@, as_of)))
    }

    fn catch_up_item_for(
        &self,
        viewer_sub: &str,
        view: CatchUpView,
        as_of: i64,
        generation: i64,
        before: Option<&CatchUpCursor>,
        points: &Vec<CatchUpPostPoint>,
        read: &Vec<String>,
        t: &Thread,
    ) -> (r: Option<CatchUpItem>)
        requires
            views(points@) == snapshot_points(self@, as_of, generation),
            views(read@) == self@.read_receipts.filter(
                receipt_within(views(points@), viewer_sub@, as_of, generation),
            ).map_values(receipt_post()),
        ensures
            opt(r) == catch_up_item(
                self@,
                query_of(viewer_sub@, view, as_of, generation, opt(before)),
            )(t@),
    {
        let ghost q = query_of(viewer_sub@, view, as_of, generation, opt(before));
        if t.created_at > as_of {
            return None;
        }
        let category = match find_category(&self.categories, t.category_id.as_str()) {
            Some(i) => self.categories[i].duplicate(),
            None => return None,
        };
        let op = original_id(&self.original_posts, t.id.as_str());
        match &op {
            Some(id) => {
                if !has_point(points, id.as_str()) {
                    return None;
                }
            },
            None => return None,
        }
        let posts = self.snapshot_posts(points, t.id.as_str(), &op);
        let ghost x = catch_up_facts(self@, q, t@, category@, opt(op)->0);
        assert(views(posts@) == x.posts);
        if posts.is_empty() {
            assert(x.posts.len() == 0);
            return None;
        }
        let activity_at: i64 = match latest_activity_in(points, t.id.as_str()) {
            Some(at) => at,
            None => t.created_at,
        };
        if let Some(cursor) = before {
            if !(activity_at < cursor.activity_at || (activity_at == cursor.activity_at && str_less(
                t.id.as_str(),
                cursor.thread_id.as_str(),
            ))) {
                return None;
            }
        }
        let follow_level = self.current_level(t.id.as_str(), viewer_sub);
        if follow_level == ThreadFollowLevel::Mute {
            return None;
        }
        let by_viewer = |p: &Post| -> (b: bool)
            ensures
                b == written_by(viewer_sub@)(p@),
            { same(p.author_sub.as_str(), viewer_sub) };
        let authored = same(t.author_sub.as_str(), viewer_sub);
        let participated = any_row(&posts, by_viewer, Ghost(written_by(viewer_sub@)));
        let bookmarked = self.is_bookmarked_within(&posts, viewer_sub, as_of);
        let reading = reading_state_from_posts(&posts, read);
        assert(reading@ == x.reading);
        let reason = match catch_up_reason(
            view,
            follow_level,
            authored,
            bookmarked,
            participated,
            reading.started,
        ) {
            Some(reason) => reason,
            None => return None,
        };
        let question = category.format.is_question();
        let solved = question && match valid_accepted_post(t, &self.original_posts, &self.posts) {
            Some(p) => has_point(points, p.id.as_str()),
            None => false,
        };
        assert(solved == x.solved);
        let eligible = match view {
            CatchUpView::Updates => reading.unread_count > 0,
            CatchUpView::Following => true,
            CatchUpView::Questions => question,
        };
        if !eligible {
            return None;
        }
        let question_state = if !question {
            None
        } else if solved {
            Some(CatchUpQuestionState::Solved)
        } else {
            Some(CatchUpQuestionState::Waiting)
        };
        Some(
            CatchUpItem {
                thread: public_thread(t.duplicate(), solved),
                category_name: category.name,
                reason,
                follow_level,
                unread_count: reading.unread_count,
                first_unread: reading.first_unread,
                question_state,
                activity_at,
                reply_count: to_count(posts.len()) - 1,
            },
        )
    }

    /// One page of a viewer's catch-up desk, frozen at a snapshot. A muted thread never appears.
    pub fn catch_up_page(
        &self,
        viewer_sub: &str,
        view: CatchUpView,
        as_of: i64,
        snapshot_generation: i64,
        before: Option<&CatchUpCursor>,
        limit: i64,
    ) -> (r: Result<Vec<CatchUpItem>, StoreError>)
        ensures
            listed(r) == catch_up(
                self@,
                query_of(viewer_sub@, view, as_of, snapshot_generation, opt(before)),
                limit as int,
            ),
    {
        if let Err(e) = validate_catch_up_page(view, as_of, snapshot_generation, before, limit) {
            return Err(e);
        }
        let mut items: Vec<CatchUpItem> = Vec::new();
        if limit == 0 {
            assert(views(items@) =~= Seq::empty());
            return Ok(items);
        }
        if snapshot_generation > self.generation {
            return Err(invalid("catch-up snapshot generation is in the future"));
        }
        let points = self.snapshot_of(as_of, snapshot_generation);
        let read = self.snapshot_reads(&points, viewer_sub, as_of, snapshot_generation);
        let ghost q = query_of(viewer_sub@, view, as_of, snapshot_generation, opt(before));
        let ghost s = self@.threads;
        let mut i: usize = 0;
        assert(views(items@) =~= collected(s.take(0), catch_up_item(self@, q)));
        while i < self.threads.len()
            invariant
                0 <= i <= self.threads@.len(),
                s == self@.threads,
                q == query_of(viewer_sub@, view, as_of, snapshot_generation, opt(before)),
                views(points@) == snapshot_points(self@, as_of, snapshot_generation),
                views(read@) == self@.read_receipts.filter(
                    receipt_within(views(points@), viewer_sub@, as_of, snapshot_generation),
                ).map_values(receipt_post()),
                views(items@) == collected(s.take(i as int), catch_up_item(self@, q)),
            decreases self.threads@.len() - i,
        {
            assert(s.take(i + 1).drop_last() =~= s.take(i as int));
            assert(s.take(i + 1).last() == self.threads@[i as int]@);
            if let Some(item) = self.catch_up_item_for(
                viewer_sub,
                view,
                as_of,
                snapshot_generation,
                before,
                &points,
                &read,
                &self.threads[i],
            ) {
                let ghost sofar = items@;
                items.push(item);
                assert(views(items@) =~= views(sofar).push(item@));
            }
            i = i + 1;
        }
        assert(s.take(s.len() as int) =~= s);
        let le = |a: &CatchUpItem, b: &CatchUpItem| -> (r: bool)
            ensures
                r == catch_up_order()(a@, b@),
            {
                !(a.activity_at < b.activity_at || (a.activity_at == b.activity_at && str_less(
                    a.thread.id.as_str(),
                    b.thread.id.as_str(),
                )))
            };
        let mut items = sort_rows(items, le, Ghost(catch_up_order()));
        limit_rows(&mut items, limit);
        Ok(items)
    }
}

} // verus!
