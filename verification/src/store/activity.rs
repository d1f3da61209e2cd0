//! The personal activity stream and its read receipts.

use vstd::prelude::*;

use crate::model::{
    ActivityDelivery, ActivityDeliveryRow, ActivityEvent, ActivityEventRow, ActivityItem,
    ActivityItemRow, ActivityKind, ActivityReason, Post, PostRow, Thread, ThreadRow,
};
use crate::rows::{
    Record, any_row, as_count, collect_rows, collected, deduped, find_row, first_row, get_row,
    lemma_deduped, limit_rows, limited, opt, retain, select, some_row, sort_rows, sorted, to_count,
    views,
};
use crate::store::follow::{delivery_of_to, has_delivery_to};
use crate::store::memory::{Forum, InMemoryStore};
use crate::store::rules::{
    activity_filter_matches, best_activity_reason, best_reason, delivered_to,
    delivery_matches_viewer, filter_admits,
};
use crate::store::tables::{find_thread, post_is_in, thread_is};
use crate::store::threads::{is_key_less, key_less};
use crate::store::types::{
    ActivityCursor, ActivityCursorRow, ActivityFilter, ActivityReceipt, ActivityReceiptRow,
    Failure, MAX_ACTIVITY_BATCH, StoreError, StoredActivityDelivery, StoredActivityDeliveryRow,
    invalid, listed, not_found, plain,
};
use crate::text::same;
use crate::texts::{distinct_names, has_text};

verus! {

// ---------------------------------------------------------------------------
// The stream.
// ---------------------------------------------------------------------------

/// The delivery of an event to a viewer.
pub open spec fn delivery_for(activity_id: Seq<char>, viewer_sub: Seq<char>) -> spec_fn(
    StoredActivityDeliveryRow,
) -> Option<ActivityDeliveryRow> {
    |d: StoredActivityDeliveryRow|
        if d.activity_id == activity_id && delivered_to(d.delivery, viewer_sub) {
            Some(d.delivery)
        } else {
            None
        }
}

/// The best reason an event was delivered to a viewer; none when it was not.
pub open spec fn reason_for(f: Forum, activity_id: Seq<char>, viewer_sub: Seq<char>) -> Option<
    ActivityReason,
> {
    best_reason(collected(f.activity_deliveries, delivery_for(activity_id, viewer_sub)))
}

/// The receipt of a viewer for an event.
pub open spec fn activity_receipt_of(activity_id: Seq<char>, viewer_sub: Seq<char>) -> spec_fn(
    ActivityReceiptRow,
) -> bool {
    |r: ActivityReceiptRow| r.activity_id == activity_id && r.viewer_sub == viewer_sub
}

/// The other receipts.
pub open spec fn activity_receipt_not_of(activity_id: Seq<char>, viewer_sub: Seq<char>) -> spec_fn(
    ActivityReceiptRow,
) -> bool {
    |r: ActivityReceiptRow| r.activity_id != activity_id || r.viewer_sub != viewer_sub
}

/// The newest post of an author; of equally new ones the last.
pub open spec fn newest_post_by(posts: Seq<PostRow>, author_sub: Seq<char>) -> Option<PostRow>
    decreases posts.len(),
{
    if posts.len() == 0 {
        None
    } else {
        let rest = newest_post_by(posts.drop_last(), author_sub);
        let p = posts.last();
        if p.author_sub != author_sub {
            rest
        } else {
            match rest {
                Some(best) => if key_less(
                    p.created_at as int,
                    p.id,
                    best.created_at as int,
                    best.id,
                ) {
                    Some(best)
                } else {
                    Some(p)
                },
                None => Some(p),
            }
        }
    }
}

/// The newest thread of an author; of equally new ones the last.
pub open spec fn newest_thread_by(threads: Seq<ThreadRow>, author_sub: Seq<char>) -> Option<ThreadRow>
    decreases threads.len(),
{
    if threads.len() == 0 {
        None
    } else {
        let rest = newest_thread_by(threads.drop_last(), author_sub);
        let t = threads.last();
        if t.author_sub != author_sub {
            rest
        } else {
            match rest {
                Some(best) => if key_less(
                    t.created_at as int,
                    t.id,
                    best.created_at as int,
                    best.id,
                ) {
                    Some(best)
                } else {
                    Some(t)
                },
                None => Some(t),
            }
        }
    }
}

/// The email an event shows for its actor: that of the post for a new post, else the one the actor
/// used last.
pub open spec fn actor_email(f: Forum, event: ActivityEventRow, post: PostRow) -> Seq<char> {
    match event.kind {
        ActivityKind::PostCreated => post.author_email,
        ActivityKind::AnswerAccepted => match newest_post_by(f.posts, event.actor_sub) {
            Some(p) => p.author_email,
            None => match newest_thread_by(f.threads, event.actor_sub) {
                Some(t) => t.author_email,
                None => Seq::empty(),
            },
        },
    }
}

/// An event as a viewer sees it; it must be delivered to the viewer, pass the filter, lie behind
/// the cursor, and point at live content.
pub open spec fn activity_item(
    f: Forum,
    viewer_sub: Seq<char>,
    filter: ActivityFilter,
    unread_only: bool,
    before: Option<ActivityCursorRow>,
) -> spec_fn(ActivityEventRow) -> Option<ActivityItemRow> {
    |e: ActivityEventRow|
        match (
            reason_for(f, e.id, viewer_sub),
            first_row(f.threads, thread_is(e.thread_id)),
            first_row(f.posts, post_is_in(e.post_id, e.thread_id)),
        ) {
            (Some(reason), Some(thread), Some(post)) => {
                let read = some_row(f.activity_receipts, activity_receipt_of(e.id, viewer_sub));
                if filter_admits(filter, reason) && !(unread_only && read) && (before is Some
                    ==> key_less(
                    e.created_at as int,
                    e.id,
                    before->0.created_at as int,
                    before->0.id,
                )) {
                    Some(
                        ActivityItemRow {
                            event: e,
                            reason,
                            thread_title: thread.title,
                            post_body_md: post.body_md,
                            post_created_at: post.created_at,
                            actor_email: actor_email(f, e, post),
                            read,
                        },
                    )
                } else {
                    None
                }
            },
            _ => None,
        }
}

/// Newest events first.
pub open spec fn activity_order() -> spec_fn(ActivityItemRow, ActivityItemRow) -> bool {
    |a: ActivityItemRow, b: ActivityItemRow|
        !key_less(a.event.created_at as int, a.event.id, b.event.created_at as int, b.event.id)
}

/// One page of a viewer's activity.
pub open spec fn activity_stream(
    f: Forum,
    viewer_sub: Seq<char>,
    filter: ActivityFilter,
    unread_only: bool,
    before: Option<ActivityCursorRow>,
    limit: int,
) -> Seq<ActivityItemRow> {
    limited(
        sorted(
            collected(
                f.activity_events,
                activity_item(f, viewer_sub, filter, unread_only, before),
            ),
            activity_order(),
        ),
        limit,
    )
}

// ---------------------------------------------------------------------------
// Receipts.
// ---------------------------------------------------------------------------

/// The event with the identifier.
pub open spec fn event_is(id: Seq<char>) -> spec_fn(ActivityEventRow) -> bool {
    |e: ActivityEventRow| e.id == id
}

/// Whether an event points at live content.
pub open spec fn event_live(f: Forum, e: ActivityEventRow) -> bool {
    some_row(f.threads, thread_is(e.thread_id)) && some_row(
        f.posts,
        post_is_in(e.post_id, e.thread_id),
    )
}

/// A viewer marks one event read or unread. An event that was not delivered to the viewer is
/// answered as if it did not exist.
pub open spec fn activity_mark(
    f: Forum,
    activity_id: Seq<char>,
    viewer_sub: Seq<char>,
    read: bool,
    changed_at: i64,
) -> (Forum, Result<(), Failure>) {
    let target = first_row(f.activity_events, event_is(activity_id));
    if !some_row(f.activity_deliveries, delivery_of_to(activity_id, viewer_sub)) || target is None
        || !event_live(f, target->0) {
        (f, Err(Failure::NotFound("activity not found"@)))
    } else {
        let others = f.activity_receipts.filter(activity_receipt_not_of(activity_id, viewer_sub));
        (
            Forum {
                activity_receipts: if read {
                    others.push(
                        ActivityReceiptRow { activity_id, viewer_sub, read_at: changed_at },
                    )
                } else {
                    others
                },
                ..f
            },
            Ok(()),
        )
    }
}

/// The requested events that were delivered to the viewer and point at live content.
pub open spec fn batch_target(f: Forum, viewer_sub: Seq<char>, requested: Seq<Seq<char>>) -> spec_fn(
    ActivityEventRow,
) -> bool {
    |e: ActivityEventRow|
        requested.contains(e.id) && event_live(f, e) && some_row(
            f.activity_deliveries,
            delivery_of_to(e.id, viewer_sub),
        )
}

/// The receipts after the events were marked read; an event that was read before keeps its receipt.
pub open spec fn with_receipts(
    receipts: Seq<ActivityReceiptRow>,
    targets: Seq<ActivityEventRow>,
    viewer_sub: Seq<char>,
    changed_at: i64,
) -> Seq<ActivityReceiptRow>
    decreases targets.len(),
{
    if targets.len() == 0 {
        receipts
    } else {
        let rest = with_receipts(receipts, targets.drop_last(), viewer_sub, changed_at);
        let id = targets.last().id;
        if some_row(rest, activity_receipt_of(id, viewer_sub)) {
            rest
        } else {
            rest.push(
                ActivityReceiptRow { activity_id: id, viewer_sub, read_at: changed_at },
            )
        }
    }
}

/// A viewer marks a page of events read, all of them or none. The result counts the new receipts.
pub open spec fn batch_mark(
    f: Forum,
    viewer_sub: Seq<char>,
    activity_ids: Seq<Seq<char>>,
    changed_at: i64,
) -> (Forum, Result<i64, Failure>) {
    let targets = f.activity_events.filter(batch_target(f, viewer_sub, activity_ids));
    if activity_ids.len() > MAX_ACTIVITY_BATCH {
        (f, Err(Failure::InvalidOperation("activity batch may contain at most 30 ids"@)))
    } else if targets.len() != deduped(activity_ids).len() {
        (f, Err(Failure::NotFound("activity not found"@)))
    } else {
        let receipts = with_receipts(f.activity_receipts, targets, viewer_sub, changed_at);
        (
            Forum { activity_receipts: receipts, ..f },
            Ok((receipts.len() - f.activity_receipts.len()) as i64),
        )
    }
}

fn newest_post(posts: &Vec<Post>, author_sub: &str) -> (r: Option<Post>)
    ensures
        opt(r) == newest_post_by(views(posts@), author_sub@),
{
    let ghost s = views(posts@);
    let mut best: Option<usize> = None;
    let mut i: usize = 0;
    while i < posts.len()
        invariant
            0 <= i <= posts@.len(),
            s == views(posts@),
            match best {
                Some(k) => k < i && newest_post_by(s.take(i as int), author_sub@) == Some(
                    posts@[k as int]@,
                ),
                None => newest_post_by(s.take(i as int), author_sub@) is None,
            },
        decreases posts@.len() - i,
    {
        assert(s.take(i + 1).drop_last() =~= s.take(i as int));
        assert(s.take(i + 1).last() == posts@[i as int]@);
        if same(posts[i].author_sub.as_str(), author_sub) {
            best = match best {
                Some(k) => if is_key_less(
                    posts[i].created_at,
                    posts[i].id.as_str(),
                    posts[k].created_at,
                    posts[k].id.as_str(),
                ) {
                    Some(k)
                } else {
                    Some(i)
                },
                None => Some(i),
            };
        }
        i = i + 1;
    }
    assert(s.take(s.len() as int) =~= s);
    match best {
        Some(k) => Some(posts[k].duplicate()),
        None => None,
    }
}

fn newest_thread(threads: &Vec<Thread>, author_sub: &str) -> (r: Option<Thread>)
    ensures
        opt(r) == newest_thread_by(views(threads@), author_sub@),
{
    let ghost s = views(threads@);
    let mut best: Option<usize> = None;
    let mut i: usize = 0;
    while i < threads.len()
        invariant
            0 <= i <= threads@.len(),
            s == views(threads@),
            match best {
                Some(k) => k < i && newest_thread_by(s.take(i as int), author_sub@) == Some(
                    threads@[k as int]@,
                ),
                None => newest_thread_by(s.take(i as int), author_sub@) is None,
            },
        decreases threads@.len() - i,
    {
        assert(s.take(i + 1).drop_last() =~= s.take(i as int));
        assert(s.take(i + 1).last() == threads@[i as int]@);
        if same(threads[i].author_sub.as_str(), author_sub) {
            best = match best {
                Some(k) => if is_key_less(
                    threads[i].created_at,
                    threads[i].id.as_str(),
                    threads[k].created_at,
                    threads[k].id.as_str(),
                ) {
                    Some(k)
                } else {
                    Some(i)
                },
                None => Some(i),
            };
        }
        i = i + 1;
    }
    assert(s.take(s.len() as int) =~= s);
    match best {
        Some(k) => Some(threads[k].duplicate()),
        None => None,
    }
}

fn has_activity_receipt(receipts: &Vec<ActivityReceipt>, activity_id: &str, viewer_sub: &str) -> (r:
    bool)
    ensures
        r == some_row(views(receipts@), activity_receipt_of(activity_id@, viewer_sub@)),
{
    let test = |r: &ActivityReceipt| -> (b: bool)
        ensures
            b == activity_receipt_of(activity_id@, viewer_sub@)(r@),
        { same(r.activity_id.as_str(), activity_id) && same(r.viewer_sub.as_str(), viewer_sub) };
    any_row(receipts, test, Ghost(activity_receipt_of(activity_id@, viewer_sub@)))
}

impl InMemoryStore {
    fn find_live_post(&self, post_id: &str, thread_id: &str) -> (r: Option<usize>)
        ensures
            match r {
                Some(i) => i < self.posts@.len() && first_row(
                    self@.posts,
                    post_is_in(post_id@, thread_id@),
                ) == Some(self.posts@[i as int]@) && some_row(
                    self@.posts,
                    post_is_in(post_id@, thread_id@),
                ),
                None => first_row(self@.posts, post_is_in(post_id@, thread_id@)) is None
                    && !some_row(self@.posts, post_is_in(post_id@, thread_id@)),
            },
    {
        let test = |p: &Post| -> (b: bool)
            ensures
                b == post_is_in(post_id@, thread_id@)(p@),
            { same(p.id.as_str(), post_id) && same(p.thread_id.as_str(), thread_id) };
        find_row(&self.posts, test, Ghost(post_is_in(post_id@, thread_id@)))
    }

    fn best_reason_for(&self, activity_id: &str, viewer_sub: &str) -> (r: Option<
        ActivityReason,
    >)
        ensures
            r == reason_for(self@, activity_id@, viewer_sub@),
    {
        let f = |d: &StoredActivityDelivery| -> (r: Option<ActivityDelivery>)
            ensures
                opt(r) == delivery_for(activity_id@, viewer_sub@)(d@),
            {
                if same(d.activity_id.as_str(), activity_id) && delivery_matches_viewer(
                    &d.delivery,
                    viewer_sub,
                ) {
                    Some(d.delivery.duplicate())
                } else {
                    None
                }
            };
        best_activity_reason(
            &collect_rows(
                &self.activity_deliveries,
                f,
                Ghost(delivery_for(activity_id@, viewer_sub@)),
            ),
        )
    }

    fn actor_email_of(&self, event: &ActivityEvent, post: &Post) -> (r: String)
        ensures
            r@ == actor_email(self@, event@, post@),
    {
        match event.kind {
            ActivityKind::PostCreated => post.author_email.clone(),
            ActivityKind::AnswerAccepted => match newest_post(
                &self.posts,
                event.actor_sub.as_str(),
            ) {
                Some(p) => p.author_email,
                None => match newest_thread(&self.threads, event.actor_sub.as_str()) {
                    Some(t) => t.author_email,
                    None => String::new(),
                },
            },
        }
    }

    fn activity_item_for(
        &self,
        viewer_sub: &str,
        filter: ActivityFilter,
        unread_only: bool,
        before: Option<&ActivityCursor>,
        e: &ActivityEvent,
    ) -> (r: Option<ActivityItem>)
        ensures
            opt(r) == activity_item(self@, viewer_sub@, filter, unread_only, opt(before))(e@),
    {
        if let Some(cursor) = before {
            if !is_key_less(e.created_at, e.id.as_str(), cursor.created_at, cursor.id.as_str()) {
                return None;
            }
        }
        let reason = match self.best_reason_for(e.id.as_str(), viewer_sub) {
            Some(reason) => reason,
            None => return None,
        };
        if !activity_filter_matches(filter, reason) {
            return None;
        }
        let read = has_activity_receipt(&self.activity_receipts, e.id.as_str(), viewer_sub);
        if unread_only && read {
            return None;
        }
        let t: usize = match find_thread(&self.threads, e.thread_id.as_str()) {
            Some(i) => i,
            None => return None,
        };
        let p: usize = match self.find_live_post(e.post_id.as_str(), e.thread_id.as_str()) {
            Some(i) => i,
            None => return None,
        };
        Some(
            ActivityItem {
                event: e.duplicate(),
                reason,
                thread_title: self.threads[t].title.clone(),
                post_body_md: self.posts[p].body_md.clone(),
                post_created_at: self.posts[p].created_at,
                actor_email: self.actor_email_of(e, &self.posts[p]),
                read,
            },
        )
    }

    /// One page of a viewer's activity, newest first, joined to live content.
    pub fn activity_page(
        &self,
        viewer_sub: &str,
        filter: ActivityFilter,
        unread_only: bool,
        before: Option<&ActivityCursor>,
        limit: i64,
    ) -> (r: Result<Vec<ActivityItem>, StoreError>)
        ensures
            listed(r) == Ok::<Seq<ActivityItemRow>, Failure>(
                activity_stream(
                    self@,
                    viewer_sub@,
                    filter,
                    unread_only,
                    opt(before),
                    limit as int,
                ),
            ),
    {
        let mut items = self.all_activity(viewer_sub, filter, unread_only, before);
        limit_rows(&mut items, limit);
        Ok(items)
    }

    fn all_activity(
        &self,
        viewer_sub: &str,
        filter: ActivityFilter,
        unread_only: bool,
        before: Option<&ActivityCursor>,
    ) -> (out: Vec<ActivityItem>)
        ensures
            views(out@) == sorted(
                collected(
                    self@.activity_events,
                    activity_item(self@, viewer_sub@, filter, unread_only, opt(before)),
                ),
                activity_order(),
            ),
    {
        let f = |e: &ActivityEvent| -> (item: Option<ActivityItem>)
            ensures
                opt(item) == activity_item(
                    self@,
                    viewer_sub@,
                    filter,
                    unread_only,
                    opt(before),
                )(e@),
            { self.activity_item_for(viewer_sub, filter, unread_only, before, e) };
        let items = collect_rows(
            &self.activity_events,
            f,
            Ghost(activity_item(self@, viewer_sub@, filter, unread_only, opt(before))),
        );
        let le = |a: &ActivityItem, b: &ActivityItem| -> (r: bool)
            ensures
                r == activity_order()(a@, b@),
            {
                !is_key_less(
                    a.event.created_at,
                    a.event.id.as_str(),
                    b.event.created_at,
                    b.event.id.as_str(),
                )
            };
        sort_rows(items, le, Ghost(activity_order()))
    }

    /// How many events a viewer has not read.
    pub fn unread_activity_count(&self, viewer_sub: &str) -> (r: Result<i64, StoreError>)
        ensures
            plain(r) == Ok::<i64, Failure>(
                as_count(
                    activity_stream(
                        self@,
                        viewer_sub@,
                        ActivityFilter::All,
                        true,
                        None,
                        i64::MAX as int,
                    ).len(),
                ),
            ),
    {
        let mut items = self.all_activity(viewer_sub, ActivityFilter::All, true, None);
        limit_rows(&mut items, i64::MAX);
        assert(views(items@).len() == items@.len());
        Ok(to_count(items.len()))
    }

    fn is_live(&self, e: &ActivityEvent) -> (r: bool)
        ensures
            r == event_live(self@, e@),
    {
        find_thread(&self.threads, e.thread_id.as_str()).is_some() && self.find_live_post(
            e.post_id.as_str(),
            e.thread_id.as_str(),
        ).is_some()
    }

    /// Mark one delivered event read or unread.
    pub fn set_activity_read(
        &mut self,
        activity_id: &str,
        viewer_sub: &str,
        read: bool,
        changed_at: i64,
    ) -> (r: Result<(), StoreError>)
        ensures
            (final(self)@, plain(r)) == activity_mark(
                old(self)@,
                activity_id@,
                viewer_sub@,
                read,
                changed_at,
            ),
    {
        if !has_delivery_to(&self.activity_deliveries, activity_id, viewer_sub) {
            return Err(not_found("activity not found"));
        }
        let test = |e: &ActivityEvent| -> (b: bool)
            ensures
                b == event_is(activity_id@)(e@),
            { same(e.id.as_str(), activity_id) };
        match get_row(&self.activity_events, test, Ghost(event_is(activity_id@))) {
            Some(event) => {
                if !self.is_live(&event) {
                    return Err(not_found("activity not found"));
                }
            },
            None => return Err(not_found("activity not found")),
        }
        let keep = |r: &ActivityReceipt| -> (b: bool)
            ensures
                b == activity_receipt_not_of(activity_id@, viewer_sub@)(r@),
            {
                !same(r.activity_id.as_str(), activity_id) || !same(
                    r.viewer_sub.as_str(),
                    viewer_sub,
                )
            };
        retain(
            &mut self.activity_receipts,
            keep,
            Ghost(activity_receipt_not_of(activity_id@, viewer_sub@)),
        );
        if read {
            let ghost before = self.activity_receipts@;
            let receipt = ActivityReceipt {
                activity_id: activity_id.to_owned(),
                viewer_sub: viewer_sub.to_owned(),
                read_at: changed_at,
            };
            self.activity_receipts.push(receipt);
            assert(views(self.activity_receipts@) =~= views(before).push(receipt@));
        }
        Ok(())
    }

    fn batch_targets(&self, viewer_sub: &str, requested: &Vec<String>) -> (out: Vec<ActivityEvent>)
        ensures
            views(out@) == self@.activity_events.filter(
                batch_target(self@, viewer_sub@, views(requested@)),
            ),
    {
        let test = |e: &ActivityEvent| -> (b: bool)
            ensures
                b == batch_target(self@, viewer_sub@, views(requested@))(e@),
            {
                has_text(requested, e.id.as_str()) && self.is_live(e) && has_delivery_to(
                    &self.activity_deliveries,
                    e.id.as_str(),
                    viewer_sub,
                )
            };
        select(
            &self.activity_events,
            test,
            Ghost(batch_target(self@, viewer_sub@, views(requested@))),
        )
    }

    /// Mark a page of delivered events read, all of them or none, and count the new receipts.
    pub fn mark_activity_batch_read(
        &mut self,
        viewer_sub: &str,
        activity_ids: &[String],
        changed_at: i64,
    ) -> (r: Result<i64, StoreError>)
        ensures
            (final(self)@, plain(r)) == batch_mark(
                old(self)@,
                viewer_sub@,
                views(activity_ids@),
                changed_at,
            ),
    {
        if activity_ids.len() > MAX_ACTIVITY_BATCH {
            return Err(invalid("activity batch may contain at most 30 ids"));
        }
        let requested = distinct_names(activity_ids);
        let targets = self.batch_targets(viewer_sub, &requested);
        proof {
            let ids = views(activity_ids@);
            lemma_deduped(ids);
            lemma_same_targets(self@, viewer_sub@, ids, views(requested@));
            assert(views(targets@).len() == targets@.len());
            assert(views(requested@).len() == requested@.len());
        }
        if targets.len() != requested.len() {
            return Err(not_found("activity not found"));
        }
        let ghost f = self@;
        let ghost t = views(targets@);
        let mut changed: i64 = 0;
        let mut i: usize = 0;
        assert(t.take(0) =~= Seq::empty());
        while i < targets.len()
            invariant
                0 <= i <= targets@.len() <= MAX_ACTIVITY_BATCH,
                0 <= changed <= i,
                t == views(targets@),
                self@ == (Forum {
                    activity_receipts: with_receipts(
                        f.activity_receipts,
                        t.take(i as int),
                        viewer_sub@,
                        changed_at,
                    ),
                    ..f
                }),
                changed == self@.activity_receipts.len() - f.activity_receipts.len(),
            decreases targets@.len() - i,
        {
            assert(t.take(i + 1).drop_last() =~= t.take(i as int));
            assert(t.take(i + 1).last() == targets@[i as int]@);
            if !has_activity_receipt(&self.activity_receipts, targets[i].id.as_str(), viewer_sub) {
                let ghost before = self.activity_receipts@;
                let receipt = ActivityReceipt {
                    activity_id: targets[i].id.clone(),
                    viewer_sub: viewer_sub.to_owned(),
                    read_at: changed_at,
                };
                self.activity_receipts.push(receipt);
                assert(views(self.activity_receipts@) =~= views(before).push(receipt@));
                changed = changed + 1;
            }
            i = i + 1;
        }
        assert(t.take(t.len() as int) =~= t);
        Ok(changed)
    }
}

/// Requests with the same members have the same targets.
proof fn lemma_same_targets(f: Forum, viewer_sub: Seq<char>, a: Seq<Seq<char>>, b: Seq<Seq<char>>)
    requires
        forall|x: Seq<char>| #[trigger] b.contains(x) <==> a.contains(x),
    ensures
        batch_target(f, viewer_sub, a) == batch_target(f, viewer_sub, b),
{
    assert(batch_target(f, viewer_sub, a) =~= batch_target(f, viewer_sub, b));
}

} // verus!
