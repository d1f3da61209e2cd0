//! Editing, moderating, moving, and deleting threads and posts.

use vstd::prelude::*;

use crate::model::{
    ActivityEvent, ActivityEventRow, Bookmark, BookmarkRow, Mention, MentionRow, Post, PostRow,
    Thread, ThreadRow,
};
use crate::rows::{
    Record, any_row, first_index, first_row, map_rows, opt, retain, some_row, update_first, views,
};
use crate::store::memory::{Forum, InMemoryStore};
use crate::store::posting::mention_not_by;
use crate::store::tables::{
    category_is, find_category, find_post, find_thread, original_id, original_is_not, original_of,
    post_is, post_is_in, remove_original, thread_is, valid_accepted, valid_accepted_post,
};
use crate::store::threads::is_some_text;
use crate::store::types::{
    ActivityReceipt, ActivityReceiptRow, CatchUpPostPoint, CatchUpPostPointRow, Failure, Reaction,
    ReactionRow, ReadReceipt, ReadReceiptRow, StoreError, StoredActivityDelivery,
    StoredActivityDeliveryRow, ThreadSubscription, ThreadSubscriptionRow, invalid, not_found,
    plain,
};
use crate::text::same;

verus! {

// ---------------------------------------------------------------------------
// Edits.
// ---------------------------------------------------------------------------

/// A thread under another title.
pub open spec fn retitled(title: Seq<char>) -> spec_fn(ThreadRow) -> ThreadRow {
    |t: ThreadRow| ThreadRow { title, ..t }
}

/// A post with another body.
pub open spec fn rewritten(body_md: Seq<char>) -> spec_fn(PostRow) -> PostRow {
    |p: PostRow| PostRow { body_md, ..p }
}

/// A thread that is locked or open.
pub open spec fn with_lock(locked: bool) -> spec_fn(ThreadRow) -> ThreadRow {
    |t: ThreadRow| ThreadRow { locked, ..t }
}

/// A thread that is pinned or not.
pub open spec fn with_pin(pinned: bool) -> spec_fn(ThreadRow) -> ThreadRow {
    |t: ThreadRow| ThreadRow { pinned, ..t }
}

/// A thread's title and the body of its original post are edited together.
pub open spec fn thread_update(
    f: Forum,
    thread_id: Seq<char>,
    title: Seq<char>,
    op_post_id: Seq<char>,
    body_md: Seq<char>,
) -> (Forum, Result<(), Failure>) {
    let op = original_of(f.original_posts, thread_id);
    if op is Some && op->0 != op_post_id {
        (f, Err(Failure::InvalidOperation("thread update must target its original post"@)))
    } else {
        (
            Forum {
                threads: update_first(f.threads, thread_is(thread_id), retitled(title)),
                posts: update_first(f.posts, post_is(op_post_id), rewritten(body_md)),
                ..f
            },
            Ok(()),
        )
    }
}

// ---------------------------------------------------------------------------
// Deleting a thread.
// ---------------------------------------------------------------------------

/// The other threads.
pub open spec fn thread_is_not(id: Seq<char>) -> spec_fn(ThreadRow) -> bool {
    |t: ThreadRow| t.id != id
}

/// The posts of the other threads.
pub open spec fn post_not_in(thread_id: Seq<char>) -> spec_fn(PostRow) -> bool {
    |p: PostRow| p.thread_id != thread_id
}

/// The bookmarks on posts of the other threads.
pub open spec fn bookmark_outside(posts: Seq<PostRow>, thread_id: Seq<char>) -> spec_fn(
    BookmarkRow,
) -> bool {
    |b: BookmarkRow| !some_row(posts, post_is_in(b.post_id, thread_id))
}

/// The reactions to posts of the other threads.
pub open spec fn reaction_outside(posts: Seq<PostRow>, thread_id: Seq<char>) -> spec_fn(
    ReactionRow,
) -> bool {
    |r: ReactionRow| !some_row(posts, post_is_in(r.post_id, thread_id))
}

/// The read receipts for posts of the other threads.
pub open spec fn receipt_outside(posts: Seq<PostRow>, thread_id: Seq<char>) -> spec_fn(
    ReadReceiptRow,
) -> bool {
    |r: ReadReceiptRow| !some_row(posts, post_is_in(r.post_id, thread_id))
}

/// The mentions in the other threads.
pub open spec fn mention_not_in(thread_id: Seq<char>) -> spec_fn(MentionRow) -> bool {
    |m: MentionRow| m.thread_id != thread_id
}

/// The relationships to the other threads.
pub open spec fn subscription_not_to(thread_id: Seq<char>) -> spec_fn(ThreadSubscriptionRow) -> bool {
    |s: ThreadSubscriptionRow| s.thread_id != thread_id
}

/// The catch-up points of the other threads.
pub open spec fn point_not_in(thread_id: Seq<char>) -> spec_fn(CatchUpPostPointRow) -> bool {
    |p: CatchUpPostPointRow| p.thread_id != thread_id
}

/// The events in the other threads.
pub open spec fn event_not_in(thread_id: Seq<char>) -> spec_fn(ActivityEventRow) -> bool {
    |e: ActivityEventRow| e.thread_id != thread_id
}

/// The event with the identifier in the thread.
pub open spec fn event_is_in(id: Seq<char>, thread_id: Seq<char>) -> spec_fn(
    ActivityEventRow,
) -> bool {
    |e: ActivityEventRow| e.id == id && e.thread_id == thread_id
}

/// The deliveries of events outside the thread.
pub open spec fn delivery_outside(events: Seq<ActivityEventRow>, thread_id: Seq<char>) -> spec_fn(
    StoredActivityDeliveryRow,
) -> bool {
    |d: StoredActivityDeliveryRow| !some_row(events, event_is_in(d.activity_id, thread_id))
}

/// The receipts for events outside the thread.
pub open spec fn activity_receipt_outside(
    events: Seq<ActivityEventRow>,
    thread_id: Seq<char>,
) -> spec_fn(ActivityReceiptRow) -> bool {
    |r: ActivityReceiptRow| !some_row(events, event_is_in(r.activity_id, thread_id))
}

/// The forum without a thread and everything that belongs to it.
pub open spec fn without_thread(f: Forum, thread_id: Seq<char>) -> Forum {
    Forum {
        threads: f.threads.filter(thread_is_not(thread_id)),
        posts: f.posts.filter(post_not_in(thread_id)),
        original_posts: f.original_posts.filter(original_is_not(thread_id)),
        bookmarks: f.bookmarks.filter(bookmark_outside(f.posts, thread_id)),
        reactions: f.reactions.filter(reaction_outside(f.posts, thread_id)),
        mentions: f.mentions.filter(mention_not_in(thread_id)),
        subscriptions: f.subscriptions.filter(subscription_not_to(thread_id)),
        activity_events: f.activity_events.filter(event_not_in(thread_id)),
        activity_deliveries: f.activity_deliveries.filter(
            delivery_outside(f.activity_events, thread_id),
        ),
        activity_receipts: f.activity_receipts.filter(
            activity_receipt_outside(f.activity_events, thread_id),
        ),
        post_points: f.post_points.filter(point_not_in(thread_id)),
        read_receipts: f.read_receipts.filter(receipt_outside(f.posts, thread_id)),
        ..f
    }
}

// ---------------------------------------------------------------------------
// Deleting a post.
// ---------------------------------------------------------------------------

/// The other posts.
pub open spec fn post_is_not(id: Seq<char>) -> spec_fn(PostRow) -> bool {
    |p: PostRow| p.id != id
}

/// A post that no longer quotes the deleted one.
pub open spec fn unquoted(id: Seq<char>) -> spec_fn(PostRow) -> PostRow {
    |p: PostRow|
        if p.quoted_post_id == id {
            PostRow { quoted_post_id: Seq::empty(), ..p }
        } else {
            p
        }
}

/// When the newest post of a thread was written.
pub open spec fn newest_at(posts: Seq<PostRow>, thread_id: Seq<char>) -> Option<i64>
    decreases posts.len(),
{
    if posts.len() == 0 {
        None
    } else {
        let rest = newest_at(posts.drop_last(), thread_id);
        let p = posts.last();
        if p.thread_id != thread_id {
            rest
        } else {
            match rest {
                Some(at) => if p.created_at > at {
                    Some(p.created_at)
                } else {
                    Some(at)
                },
                None => Some(p.created_at),
            }
        }
    }
}

/// A thread after one of its replies was deleted.
pub open spec fn after_deletion(
    post_id: Seq<char>,
    op: Option<Seq<char>>,
    newest: Option<i64>,
) -> spec_fn(ThreadRow) -> ThreadRow {
    |t: ThreadRow|
        ThreadRow {
            accepted_post_id: if t.accepted_post_id == post_id || op == Some(t.accepted_post_id) {
                Seq::empty()
            } else {
                t.accepted_post_id
            },
            last_at: match newest {
                Some(at) => at,
                None => t.created_at,
            },
            ..t
        }
}

/// The bookmarks on the other posts.
pub open spec fn bookmark_not_on(post_id: Seq<char>) -> spec_fn(BookmarkRow) -> bool {
    |b: BookmarkRow| b.post_id != post_id
}

/// The reactions to the other posts.
pub open spec fn reaction_not_to(post_id: Seq<char>) -> spec_fn(ReactionRow) -> bool {
    |r: ReactionRow| r.post_id != post_id
}

/// The read receipts for the other posts.
pub open spec fn receipt_not_for(post_id: Seq<char>) -> spec_fn(ReadReceiptRow) -> bool {
    |r: ReadReceiptRow| r.post_id != post_id
}

/// The events about the other posts.
pub open spec fn event_not_on(post_id: Seq<char>) -> spec_fn(ActivityEventRow) -> bool {
    |e: ActivityEventRow| e.post_id != post_id
}

/// The event with the identifier about the post.
pub open spec fn event_is_on(id: Seq<char>, post_id: Seq<char>) -> spec_fn(ActivityEventRow) -> bool {
    |e: ActivityEventRow| e.id == id && e.post_id == post_id
}

/// The deliveries of events about other posts.
pub open spec fn delivery_not_on(events: Seq<ActivityEventRow>, post_id: Seq<char>) -> spec_fn(
    StoredActivityDeliveryRow,
) -> bool {
    |d: StoredActivityDeliveryRow| !some_row(events, event_is_on(d.activity_id, post_id))
}

/// The receipts for events about other posts.
pub open spec fn activity_receipt_not_on(events: Seq<ActivityEventRow>, post_id: Seq<char>) -> spec_fn(
    ActivityReceiptRow,
) -> bool {
    |r: ActivityReceiptRow| !some_row(events, event_is_on(r.activity_id, post_id))
}

/// The forum without a reply and everything that belongs to it. Its catch-up point stays, so that
/// the thread cannot move backward between the pages of a snapshot.
pub open spec fn without_post(f: Forum, post_id: Seq<char>, thread_id: Seq<char>) -> Forum {
    let posts = f.posts.map_values(unquoted(post_id)).filter(post_is_not(post_id));
    let op = original_of(f.original_posts, thread_id);
    Forum {
        posts,
        threads: update_first(
            f.threads,
            thread_is(thread_id),
            after_deletion(post_id, op, newest_at(posts, thread_id)),
        ),
        bookmarks: f.bookmarks.filter(bookmark_not_on(post_id)),
        reactions: f.reactions.filter(reaction_not_to(post_id)),
        mentions: f.mentions.filter(mention_not_by(post_id)),
        activity_events: f.activity_events.filter(event_not_on(post_id)),
        activity_deliveries: f.activity_deliveries.filter(
            delivery_not_on(f.activity_events, post_id),
        ),
        activity_receipts: f.activity_receipts.filter(
            activity_receipt_not_on(f.activity_events, post_id),
        ),
        read_receipts: f.read_receipts.filter(receipt_not_for(post_id)),
        ..f
    }
}

/// A reply is deleted. The original post goes only with its thread.
pub open spec fn post_deletion(f: Forum, post_id: Seq<char>) -> (Forum, Result<(), Failure>) {
    match first_row(f.posts, post_is(post_id)) {
        None => (f, Ok(())),
        Some(post) => if !some_row(f.threads, thread_is(post.thread_id)) {
            (f, Err(Failure::NotFound("thread not found"@)))
        } else if original_of(f.original_posts, post.thread_id) == Some(post_id) {
            (
                f,
                Err(
                    Failure::InvalidOperation(
                        "the original post cannot be deleted separately; delete the thread"@,
                    ),
                ),
            )
        } else {
            (without_post(f, post_id, post.thread_id), Ok(()))
        },
    }
}

// ---------------------------------------------------------------------------
// Moving a thread.
// ---------------------------------------------------------------------------

/// A thread moves to a category. A valid accepted reply cannot be moved into a discussion, and an
/// invalid pointer is dropped on the way.
pub open spec fn thread_move(f: Forum, thread_id: Seq<char>, category_id: Seq<char>) -> (
    Forum,
    Result<(), Failure>,
) {
    match first_row(f.threads, thread_is(thread_id)) {
        None => (f, Err(Failure::NotFound("thread not found"@))),
        Some(thread) => if !some_row(f.categories, category_is(thread.category_id)) {
            (f, Err(Failure::NotFound("source category not found"@)))
        } else {
            match first_row(f.categories, category_is(category_id)) {
                None => (f, Err(Failure::InvalidOperation("unknown category"@))),
                Some(target) => {
                    let valid = valid_accepted(thread, f.original_posts, f.posts) is Some;
                    if thread.category_id != category_id && valid && !(target.format is Question) {
                        (
                            f,
                            Err(
                                Failure::InvalidOperation(
                                    "unmark the accepted answer before moving this thread to a discussion category"@,
                                ),
                            ),
                        )
                    } else {
                        (
                            Forum {
                                threads: update_first(
                                    f.threads,
                                    thread_is(thread_id),
                                    moved_to(category_id, valid),
                                ),
                                ..f
                            },
                            Ok(()),
                        )
                    }
                },
            }
        },
    }
}

/// A thread in another category.
pub open spec fn moved_to(category_id: Seq<char>, valid: bool) -> spec_fn(ThreadRow) -> ThreadRow {
    |t: ThreadRow|
        ThreadRow {
            category_id,
            accepted_post_id: if valid {
                t.accepted_post_id
            } else {
                Seq::empty()
            },
            ..t
        }
}

fn find_newest_at(posts: &Vec<Post>, thread_id: &str) -> (r: Option<i64>)
    ensures
        r == newest_at(views(posts@), thread_id@),
{
    let ghost s = views(posts@);
    let mut newest: Option<i64> = None;
    let mut i: usize = 0;
    while i < posts.len()
        invariant
            0 <= i <= posts@.len(),
            s == views(posts@),
            newest == newest_at(s.take(i as int), thread_id@),
        decreases posts@.len() - i,
    {
        assert(s.take(i + 1).drop_last() =~= s.take(i as int));
        assert(s.take(i + 1).last() == posts@[i as int]@);
        if same(posts[i].thread_id.as_str(), thread_id) {
            let at: i64 = posts[i].created_at;
            newest = match newest {
                Some(best) => if at > best {
                    Some(at)
                } else {
                    Some(best)
                },
                None => Some(at),
            };
        }
        i = i + 1;
    }
    assert(s.take(s.len() as int) =~= s);
    newest
}

fn has_post_in(posts: &Vec<Post>, id: &str, thread_id: &str) -> (r: bool)
    ensures
        r == some_row(views(posts@), post_is_in(id@, thread_id@)),
{
    let test = |p: &Post| -> (b: bool)
        ensures
            b == post_is_in(id@, thread_id@)(p@),
        { same(p.id.as_str(), id) && same(p.thread_id.as_str(), thread_id) };
    any_row(posts, test, Ghost(post_is_in(id@, thread_id@)))
}

pub(crate) fn has_event_in(events: &Vec<ActivityEvent>, id: &str, thread_id: &str) -> (r: bool)
    ensures
        r == some_row(views(events@), event_is_in(id@, thread_id@)),
{
    let test = |e: &ActivityEvent| -> (b: bool)
        ensures
            b == event_is_in(id@, thread_id@)(e@),
        { same(e.id.as_str(), id) && same(e.thread_id.as_str(), thread_id) };
    any_row(events, test, Ghost(event_is_in(id@, thread_id@)))
}

fn has_event_on(events: &Vec<ActivityEvent>, id: &str, post_id: &str) -> (r: bool)
    ensures
        r == some_row(views(events@), event_is_on(id@, post_id@)),
{
    let test = |e: &ActivityEvent| -> (b: bool)
        ensures
            b == event_is_on(id@, post_id@)(e@),
        { same(e.id.as_str(), id) && same(e.post_id.as_str(), post_id) };
    any_row(events, test, Ghost(event_is_on(id@, post_id@)))
}

impl InMemoryStore {
    /// Edit a thread's title and the body of its original post together.
    pub fn update_thread(&mut self, thread_id: &str, title: &str, op_post_id: &str, body_md: &str) -> (r:
        Result<(), StoreError>)
        ensures
            (final(self)@, plain(r)) == thread_update(
                old(self)@,
                thread_id@,
                title@,
                op_post_id@,
                body_md@,
            ),
    {
        if let Some(stored) = original_id(&self.original_posts, thread_id) {
            if !same(stored.as_str(), op_post_id) {
                return Err(invalid("thread update must target its original post"));
            }
        }
        if let Some(i) = find_thread(&self.threads, thread_id) {
            let ghost before = self.threads@;
            let mut thread = self.threads[i].duplicate();
            thread.title = title.to_owned();
            self.threads.set(i, thread);
            assert(views(self.threads@) =~= views(before).update(i as int, thread@));
        }
        self.rewrite_post(op_post_id, body_md);
        Ok(())
    }

    fn rewrite_post(&mut self, post_id: &str, body_md: &str)
        ensures
            final(self)@ == (Forum {
                posts: update_first(old(self)@.posts, post_is(post_id@), rewritten(body_md@)),
                ..old(self)@
            }),
    {
        if let Some(i) = find_post(&self.posts, post_id) {
            let ghost before = self.posts@;
            let mut post = self.posts[i].duplicate();
            post.body_md = body_md.to_owned();
            self.posts.set(i, post);
            assert(views(self.posts@) =~= views(before).update(i as int, post@));
        }
    }

    /// Edit the body of a post, if it exists.
    pub fn update_post(&mut self, post_id: &str, body_md: &str) -> (r: Result<(), StoreError>)
        ensures
            r is Ok,
            final(self)@ == (Forum {
                posts: update_first(old(self)@.posts, post_is(post_id@), rewritten(body_md@)),
                ..old(self)@
            }),
    {
        self.rewrite_post(post_id, body_md);
        Ok(())
    }

    /// Delete a thread and everything that belongs to it.
    pub fn delete_thread(&mut self, thread_id: &str) -> (r: Result<(), StoreError>)
        ensures
            r is Ok,
            final(self)@ == without_thread(old(self)@, thread_id@),
    {
        let posts = &self.posts;
        let keep_bookmark = |b: &Bookmark| -> (k: bool)
            ensures
                k == bookmark_outside(views(posts@), thread_id@)(b@),
            { !has_post_in(posts, b.post_id.as_str(), thread_id) };
        retain(&mut self.bookmarks, keep_bookmark, Ghost(bookmark_outside(views(posts@), thread_id@)));
        let keep_reaction = |r: &Reaction| -> (k: bool)
            ensures
                k == reaction_outside(views(posts@), thread_id@)(r@),
            { !has_post_in(posts, r.post_id.as_str(), thread_id) };
        retain(&mut self.reactions, keep_reaction, Ghost(reaction_outside(views(posts@), thread_id@)));
        let keep_receipt = |r: &ReadReceipt| -> (k: bool)
            ensures
                k == receipt_outside(views(posts@), thread_id@)(r@),
            { !has_post_in(posts, r.post_id.as_str(), thread_id) };
        retain(
            &mut self.read_receipts,
            keep_receipt,
            Ghost(receipt_outside(views(posts@), thread_id@)),
        );
        let events = &self.activity_events;
        let keep_delivery = |d: &StoredActivityDelivery| -> (k: bool)
            ensures
                k == delivery_outside(views(events@), thread_id@)(d@),
            { !has_event_in(events, d.activity_id.as_str(), thread_id) };
        retain(
            &mut self.activity_deliveries,
            keep_delivery,
            Ghost(delivery_outside(views(events@), thread_id@)),
        );
        let keep_activity_receipt = |r: &ActivityReceipt| -> (k: bool)
            ensures
                k == activity_receipt_outside(views(events@), thread_id@)(r@),
            { !has_event_in(events, r.activity_id.as_str(), thread_id) };
        retain(
            &mut self.activity_receipts,
            keep_activity_receipt,
            Ghost(activity_receipt_outside(views(events@), thread_id@)),
        );
        let keep_thread = |t: &Thread| -> (k: bool)
            ensures
                k == thread_is_not(thread_id@)(t@),
            { !same(t.id.as_str(), thread_id) };
        retain(&mut self.threads, keep_thread, Ghost(thread_is_not(thread_id@)));
        let keep_post = |p: &Post| -> (k: bool)
            ensures
                k == post_not_in(thread_id@)(p@),
            { !same(p.thread_id.as_str(), thread_id) };
        retain(&mut self.posts, keep_post, Ghost(post_not_in(thread_id@)));
        remove_original(&mut self.original_posts, thread_id);
        let keep_mention = |m: &Mention| -> (k: bool)
            ensures
                k == mention_not_in(thread_id@)(m@),
            { !same(m.thread_id.as_str(), thread_id) };
        retain(&mut self.mentions, keep_mention, Ghost(mention_not_in(thread_id@)));
        let keep_subscription = |s: &ThreadSubscription| -> (k: bool)
            ensures
                k == subscription_not_to(thread_id@)(s@),
            { !same(s.thread_id.as_str(), thread_id) };
        retain(&mut self.subscriptions, keep_subscription, Ghost(subscription_not_to(thread_id@)));
        let keep_event = |e: &ActivityEvent| -> (k: bool)
            ensures
                k == event_not_in(thread_id@)(e@),
            { !same(e.thread_id.as_str(), thread_id) };
        retain(&mut self.activity_events, keep_event, Ghost(event_not_in(thread_id@)));
        let keep_point = |p: &CatchUpPostPoint| -> (k: bool)
            ensures
                k == point_not_in(thread_id@)(p@),
            { !same(p.thread_id.as_str(), thread_id) };
        retain(&mut self.post_points, keep_point, Ghost(point_not_in(thread_id@)));
        Ok(())
    }

    /// Delete a reply and everything that belongs to it.
    pub fn delete_post(&mut self, post_id: &str) -> (r: Result<(), StoreError>)
        ensures
            (final(self)@, plain(r)) == post_deletion(old(self)@, post_id@),
    {
        let thread_id = match find_post(&self.posts, post_id) {
            None => return Ok(()),
            Some(i) => self.posts[i].thread_id.clone(),
        };
        let thread_at: usize = match find_thread(&self.threads, thread_id.as_str()) {
            None => return Err(not_found("thread not found")),
            Some(i) => i,
        };
        let op = original_id(&self.original_posts, thread_id.as_str());
        if is_some_text(&op, post_id) {
            return Err(
                invalid("the original post cannot be deleted separately; delete the thread"),
            );
        }
        self.remove_post_rows(post_id);
        self.settle_thread(thread_at, thread_id.as_str(), post_id, &op);
        self.remove_post_links(post_id);
        Ok(())
    }

    /// Remove a post and every quotation of it.
    fn remove_post_rows(&mut self, post_id: &str)
        ensures
            final(self)@ == (Forum {
                posts: old(self)@.posts.map_values(unquoted(post_id@)).filter(
                    post_is_not(post_id@),
                ),
                ..old(self)@
            }),
    {
        let unquote = |p: &Post| -> (q: Post)
            ensures
                q@ == unquoted(post_id@)(p@),
            {
                let mut q = p.duplicate();
                if same(q.quoted_post_id.as_str(), post_id) {
                    q.quoted_post_id = String::new();
                }
                q
            };
        let mut posts = map_rows(&self.posts, unquote, Ghost(unquoted(post_id@)));
        let keep = |p: &Post| -> (k: bool)
            ensures
                k == post_is_not(post_id@)(p@),
            { !same(p.id.as_str(), post_id) };
        retain(&mut posts, keep, Ghost(post_is_not(post_id@)));
        self.posts = posts;
    }

    /// Drop a deleted accepted reply and recompute when a thread was last replied to.
    fn settle_thread(&mut self, i: usize, thread_id: &str, post_id: &str, op: &Option<String>)
        requires
            i < old(self).threads@.len(),
            first_index(old(self)@.threads, thread_is(thread_id@)) == Some(i as int),
        ensures
            final(self)@ == (Forum {
                threads: update_first(
                    old(self)@.threads,
                    thread_is(thread_id@),
                    after_deletion(
                        post_id@,
                        opt(*op),
                        newest_at(old(self)@.posts, thread_id@),
                    ),
                ),
                ..old(self)@
            }),
    {
        let ghost before = self.threads@;
        let newest = find_newest_at(&self.posts, thread_id);
        let mut thread = self.threads[i].duplicate();
        if same(thread.accepted_post_id.as_str(), post_id) || is_some_text(
            op,
            thread.accepted_post_id.as_str(),
        ) {
            thread.accepted_post_id = String::new();
        }
        thread.last_at = match newest {
            Some(at) => at,
            None => thread.created_at,
        };
        self.threads.set(i, thread);
        assert(views(self.threads@) =~= views(before).update(i as int, thread@));
    }

    /// Remove the private and derived rows of a deleted post.
    fn remove_post_links(&mut self, post_id: &str)
        ensures
            final(self)@ == (Forum {
                bookmarks: old(self)@.bookmarks.filter(bookmark_not_on(post_id@)),
                reactions: old(self)@.reactions.filter(reaction_not_to(post_id@)),
                mentions: old(self)@.mentions.filter(mention_not_by(post_id@)),
                activity_events: old(self)@.activity_events.filter(event_not_on(post_id@)),
                activity_deliveries: old(self)@.activity_deliveries.filter(
                    delivery_not_on(old(self)@.activity_events, post_id@),
                ),
                activity_receipts: old(self)@.activity_receipts.filter(
                    activity_receipt_not_on(old(self)@.activity_events, post_id@),
                ),
                read_receipts: old(self)@.read_receipts.filter(receipt_not_for(post_id@)),
                ..old(self)@
            }),
    {
        let keep_bookmark = |b: &Bookmark| -> (k: bool)
            ensures
                k == bookmark_not_on(post_id@)(b@),
            { !same(b.post_id.as_str(), post_id) };
        retain(&mut self.bookmarks, keep_bookmark, Ghost(bookmark_not_on(post_id@)));
        let keep_reaction = |r: &Reaction| -> (k: bool)
            ensures
                k == reaction_not_to(post_id@)(r@),
            { !same(r.post_id.as_str(), post_id) };
        retain(&mut self.reactions, keep_reaction, Ghost(reaction_not_to(post_id@)));
        let keep_mention = |m: &Mention| -> (k: bool)
            ensures
                k == mention_not_by(post_id@)(m@),
            { !same(m.post_id.as_str(), post_id) };
        retain(&mut self.mentions, keep_mention, Ghost(mention_not_by(post_id@)));
        let events = &self.activity_events;
        let keep_delivery = |d: &StoredActivityDelivery| -> (k: bool)
            ensures
                k == delivery_not_on(views(events@), post_id@)(d@),
            { !has_event_on(events, d.activity_id.as_str(), post_id) };
        retain(
            &mut self.activity_deliveries,
            keep_delivery,
            Ghost(delivery_not_on(views(events@), post_id@)),
        );
        let keep_activity_receipt = |r: &ActivityReceipt| -> (k: bool)
            ensures
                k == activity_receipt_not_on(views(events@), post_id@)(r@),
            { !has_event_on(events, r.activity_id.as_str(), post_id) };
        retain(
            &mut self.activity_receipts,
            keep_activity_receipt,
            Ghost(activity_receipt_not_on(views(events@), post_id@)),
        );
        let keep_event = |e: &ActivityEvent| -> (k: bool)
            ensures
                k == event_not_on(post_id@)(e@),
            { !same(e.post_id.as_str(), post_id) };
        retain(&mut self.activity_events, keep_event, Ghost(event_not_on(post_id@)));
        let keep_receipt = |r: &ReadReceipt| -> (k: bool)
            ensures
                k == receipt_not_for(post_id@)(r@),
            { !same(r.post_id.as_str(), post_id) };
        retain(&mut self.read_receipts, keep_receipt, Ghost(receipt_not_for(post_id@)));
    }

    /// Lock or unlock a thread, if it exists.
    pub fn set_thread_locked(&mut self, thread_id: &str, locked: bool) -> (r: Result<(), StoreError>)
        ensures
            r is Ok,
            final(self)@ == (Forum {
                threads: update_first(
                    old(self)@.threads,
                    thread_is(thread_id@),
                    with_lock(locked),
                ),
                ..old(self)@
            }),
    {
        if let Some(i) = find_thread(&self.threads, thread_id) {
            let ghost before = self.threads@;
            let mut thread = self.threads[i].duplicate();
            thread.locked = locked;
            self.threads.set(i, thread);
            assert(views(self.threads@) =~= views(before).update(i as int, thread@));
        }
        Ok(())
    }

    /// Pin or unpin a thread, if it exists.
    pub fn set_thread_pinned(&mut self, thread_id: &str, pinned: bool) -> (r: Result<(), StoreError>)
        ensures
            r is Ok,
            final(self)@ == (Forum {
                threads: update_first(
                    old(self)@.threads,
                    thread_is(thread_id@),
                    with_pin(pinned),
                ),
                ..old(self)@
            }),
    {
        if let Some(i) = find_thread(&self.threads, thread_id) {
            let ghost before = self.threads@;
            let mut thread = self.threads[i].duplicate();
            thread.pinned = pinned;
            self.threads.set(i, thread);
            assert(views(self.threads@) =~= views(before).update(i as int, thread@));
        }
        Ok(())
    }

    /// Move a thread to a category.
    pub fn move_thread_to_category(&mut self, thread_id: &str, category_id: &str) -> (r: Result<
        (),
        StoreError,
    >)
        ensures
            (final(self)@, plain(r)) == thread_move(old(self)@, thread_id@, category_id@),
    {
        let i: usize = match find_thread(&self.threads, thread_id) {
            None => return Err(not_found("thread not found")),
            Some(i) => i,
        };
        let mut thread = self.threads[i].duplicate();
        if find_category(&self.categories, thread.category_id.as_str()).is_none() {
            return Err(not_found("source category not found"));
        }
        let target: usize = match find_category(&self.categories, category_id) {
            None => return Err(invalid("unknown category")),
            Some(k) => k,
        };
        let valid = valid_accepted_post(&thread, &self.original_posts, &self.posts).is_some();
        if !same(thread.category_id.as_str(), category_id) && valid
            && !self.categories[target].format.is_question() {
            return Err(
                invalid(
                    "unmark the accepted answer before moving this thread to a discussion category",
                ),
            );
        }
        if !valid {
            thread.accepted_post_id = String::new();
        }
        thread.category_id = category_id.to_owned();
        let ghost before = self.threads@;
        self.threads.set(i, thread);
        assert(views(self.threads@) =~= views(before).update(i as int, thread@));
        Ok(())
    }
}

} // verus!
