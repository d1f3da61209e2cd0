//! Thread relationships and the signals that relate a viewer to threads.

use vstd::prelude::*;

use crate::model::{
    ActivityEvent, ActivityEventRow, ActivityReason, Bookmark, BookmarkRow, Post, PostRow, Thread,
    ThreadFollowLevel, ThreadRow,
};
use crate::rows::{
    Record, any_row, collect_rows, collected, count_rows, find_row, first_index, first_row,
    get_last_row, last_row, opt, retain, select, some_row, views,
};
use crate::store::editing::{event_is_in, has_event_in};
use crate::store::memory::{Forum, InMemoryStore};
use crate::store::posting::watches;
use crate::store::rules::{
    bounded_personal_thread_ids, delivered_to, delivery_matches_viewer, signal_ids,
};
use crate::store::tables::{find_thread, thread_is};
use crate::store::types::{
    ActivityReceipt, ActivityReceiptRow, Failure, MAX_THREAD_FOLLOWERS, ReadReceipt,
    ReadReceiptRow, SignalsEntry, SignalsEntryRow, StoreError, StoredActivityDelivery,
    StoredActivityDeliveryRow, ThreadPersonalSignals, ThreadSubscription, ThreadSubscriptionRow,
    invalid, listed, not_found, plain,
};
use crate::text::same;

verus! {

// ---------------------------------------------------------------------------
// The relationship.
// ---------------------------------------------------------------------------

/// The relationship of a viewer to a thread.
pub open spec fn relation_of(thread_id: Seq<char>, viewer_sub: Seq<char>) -> spec_fn(
    ThreadSubscriptionRow,
) -> bool {
    |s: ThreadSubscriptionRow| s.thread_id == thread_id && s.subscriber_sub == viewer_sub
}

/// The current level of a viewer for a thread.
pub open spec fn level_of(
    subscriptions: Seq<ThreadSubscriptionRow>,
    thread_id: Seq<char>,
    viewer_sub: Seq<char>,
) -> ThreadFollowLevel {
    match first_row(subscriptions, relation_of(thread_id, viewer_sub)) {
        Some(s) => s.level,
        None => ThreadFollowLevel::Unset,
    }
}

/// The relationships after one was set; an unset level removes it.
pub open spec fn with_level(
    subscriptions: Seq<ThreadSubscriptionRow>,
    thread_id: Seq<char>,
    viewer_sub: Seq<char>,
    level: ThreadFollowLevel,
    created_at: i64,
) -> Seq<ThreadSubscriptionRow> {
    match first_index(subscriptions, relation_of(thread_id, viewer_sub)) {
        Some(i) => if level is Unset {
            subscriptions.remove(i)
        } else {
            subscriptions.update(
                i,
                ThreadSubscriptionRow { level, created_at, ..subscriptions[i] },
            )
        },
        None => if level is Unset {
            subscriptions
        } else {
            subscriptions.push(
                ThreadSubscriptionRow { thread_id, subscriber_sub: viewer_sub, level, created_at },
            )
        },
    }
}

/// The deliveries that survive when a viewer stops watching a thread: all but those that only told
/// the viewer about a reply in it.
pub open spec fn survives_unwatch(
    events: Seq<ActivityEventRow>,
    thread_id: Seq<char>,
    viewer_sub: Seq<char>,
) -> spec_fn(StoredActivityDeliveryRow) -> bool {
    |d: StoredActivityDeliveryRow|
        !some_row(events, event_is_in(d.activity_id, thread_id)) || !delivered_to(
            d.delivery,
            viewer_sub,
        ) || !(d.delivery.reason is Following)
}

/// The deliveries of an event.
pub open spec fn delivery_of(activity_id: Seq<char>) -> spec_fn(StoredActivityDeliveryRow) -> bool {
    |d: StoredActivityDeliveryRow| d.activity_id == activity_id
}

/// The deliveries of an event to a viewer.
pub open spec fn delivery_of_to(activity_id: Seq<char>, viewer_sub: Seq<char>) -> spec_fn(
    StoredActivityDeliveryRow,
) -> bool {
    |d: StoredActivityDeliveryRow|
        d.activity_id == activity_id && delivered_to(d.delivery, viewer_sub)
}

/// Whether an event of the thread has no recipient left.
pub open spec fn orphaned(
    events: Seq<ActivityEventRow>,
    deliveries: Seq<StoredActivityDeliveryRow>,
    thread_id: Seq<char>,
    activity_id: Seq<char>,
) -> bool {
    some_row(events, event_is_in(activity_id, thread_id)) && !some_row(
        deliveries,
        delivery_of(activity_id),
    )
}

/// The events that still have a recipient, and those of other threads.
pub open spec fn event_kept(
    events: Seq<ActivityEventRow>,
    deliveries: Seq<StoredActivityDeliveryRow>,
    thread_id: Seq<char>,
) -> spec_fn(ActivityEventRow) -> bool {
    |e: ActivityEventRow| !orphaned(events, deliveries, thread_id, e.id)
}

/// The activity receipts that survive when a viewer stops watching a thread.
pub open spec fn receipt_kept(
    events: Seq<ActivityEventRow>,
    deliveries: Seq<StoredActivityDeliveryRow>,
    thread_id: Seq<char>,
    viewer_sub: Seq<char>,
) -> spec_fn(ActivityReceiptRow) -> bool {
    |r: ActivityReceiptRow|
        !orphaned(events, deliveries, thread_id, r.activity_id) && (r.viewer_sub != viewer_sub
            || !some_row(events, event_is_in(r.activity_id, thread_id)) || some_row(
            deliveries,
            delivery_of_to(r.activity_id, viewer_sub),
        ))
}

/// The forum after a viewer stopped watching a thread.
pub open spec fn without_watch_activity(
    f: Forum,
    thread_id: Seq<char>,
    viewer_sub: Seq<char>,
) -> Forum {
    let deliveries = f.activity_deliveries.filter(
        survives_unwatch(f.activity_events, thread_id, viewer_sub),
    );
    Forum {
        activity_deliveries: deliveries,
        activity_events: f.activity_events.filter(
            event_kept(f.activity_events, deliveries, thread_id),
        ),
        activity_receipts: f.activity_receipts.filter(
            receipt_kept(f.activity_events, deliveries, thread_id, viewer_sub),
        ),
        ..f
    }
}

/// A viewer sets their relationship to a thread. Leaving the watch level takes back the deliveries
/// that only came from watching.
pub open spec fn level_change(
    f: Forum,
    thread_id: Seq<char>,
    viewer_sub: Seq<char>,
    level: ThreadFollowLevel,
    created_at: i64,
) -> (Forum, Result<(), Failure>) {
    if !some_row(f.threads, thread_is(thread_id)) {
        (f, Err(Failure::NotFound("thread not found"@)))
    } else if level is Watch && !(level_of(f.subscriptions, thread_id, viewer_sub) is Watch)
        && count_rows(f.subscriptions, watches(thread_id)) >= MAX_THREAD_FOLLOWERS {
        (f, Err(Failure::InvalidOperation("a thread may have at most 256 watchers"@)))
    } else {
        let g = Forum {
            subscriptions: with_level(f.subscriptions, thread_id, viewer_sub, level, created_at),
            ..f
        };
        if level is Watch {
            (g, Ok(()))
        } else {
            (without_watch_activity(g, thread_id, viewer_sub), Ok(()))
        }
    }
}

/// The level a boolean subscription stands for.
pub open spec fn subscription_level(subscribed: bool) -> ThreadFollowLevel {
    if subscribed {
        ThreadFollowLevel::Watch
    } else {
        ThreadFollowLevel::Unset
    }
}

// ---------------------------------------------------------------------------
// Signals.
// ---------------------------------------------------------------------------

/// The posts of a thread by an author.
pub open spec fn post_by(thread_id: Seq<char>, author_sub: Seq<char>) -> spec_fn(PostRow) -> bool {
    |p: PostRow| p.thread_id == thread_id && p.author_sub == author_sub
}

/// The bookmark of an owner on a post.
pub open spec fn bookmark_of(owner_sub: Seq<char>, post_id: Seq<char>) -> spec_fn(
    BookmarkRow,
) -> bool {
    |b: BookmarkRow| b.owner_sub == owner_sub && b.post_id == post_id
}

/// The receipt that a viewer has read a post.
pub open spec fn receipt_of(viewer_sub: Seq<char>, post_id: Seq<char>) -> spec_fn(
    ReadReceiptRow,
) -> bool {
    |r: ReadReceiptRow| r.viewer_sub == viewer_sub && r.post_id == post_id
}

/// The posts of a thread that an owner bookmarked.
pub open spec fn post_bookmarked(f: Forum, thread_id: Seq<char>, owner_sub: Seq<char>) -> spec_fn(
    PostRow,
) -> bool {
    |p: PostRow| p.thread_id == thread_id && some_row(f.bookmarks, bookmark_of(owner_sub, p.id))
}

/// The posts of a thread that a viewer has read.
pub open spec fn post_read(f: Forum, thread_id: Seq<char>, viewer_sub: Seq<char>) -> spec_fn(
    PostRow,
) -> bool {
    |p: PostRow| p.thread_id == thread_id && some_row(f.read_receipts, receipt_of(viewer_sub, p.id))
}

/// The posts of a thread that a viewer has not read.
pub open spec fn post_unread(f: Forum, thread_id: Seq<char>, viewer_sub: Seq<char>) -> spec_fn(
    PostRow,
) -> bool {
    |p: PostRow|
        p.thread_id == thread_id && !some_row(f.read_receipts, receipt_of(viewer_sub, p.id))
}

/// The signals that relate a viewer to a thread.
pub open spec fn signals_of(f: Forum, viewer_sub: Seq<char>, t: ThreadRow) -> ThreadPersonalSignals {
    ThreadPersonalSignals {
        follow_level: level_of(f.subscriptions, t.id, viewer_sub),
        authored: t.author_sub == viewer_sub,
        participated: some_row(f.posts, post_by(t.id, viewer_sub)),
        bookmarked: some_row(f.posts, post_bookmarked(f, t.id, viewer_sub)),
        reading_started: some_row(f.posts, post_read(f, t.id, viewer_sub)),
        has_unread: some_row(f.posts, post_unread(f, t.id, viewer_sub)),
    }
}

/// The entry of a live thread.
pub open spec fn signals_entry(f: Forum, viewer_sub: Seq<char>) -> spec_fn(Seq<char>) -> Option<
    SignalsEntryRow,
> {
    |id: Seq<char>|
        match last_row(f.threads, thread_is(id)) {
            Some(t) => Some(
                SignalsEntryRow { thread_id: id, signals: signals_of(f, viewer_sub, t) },
            ),
            None => None,
        }
}

/// The signals of the live threads among the requested ones, by identifier.
pub open spec fn personal_signals(f: Forum, viewer_sub: Seq<char>, ids: Seq<Seq<char>>) -> Result<
    Seq<SignalsEntryRow>,
    Failure,
> {
    match signal_ids(ids) {
        Err(e) => Err(e),
        Ok(unique) => Ok(collected(unique, signals_entry(f, viewer_sub))),
    }
}

pub(crate) fn has_delivery_to(
    deliveries: &Vec<StoredActivityDelivery>,
    activity_id: &str,
    viewer_sub: &str,
) -> (r: bool)
    ensures
        r == some_row(views(deliveries@), delivery_of_to(activity_id@, viewer_sub@)),
{
    let test = |d: &StoredActivityDelivery| -> (b: bool)
        ensures
            b == delivery_of_to(activity_id@, viewer_sub@)(d@),
        {
            same(d.activity_id.as_str(), activity_id) && delivery_matches_viewer(
                &d.delivery,
                viewer_sub,
            )
        };
    any_row(deliveries, test, Ghost(delivery_of_to(activity_id@, viewer_sub@)))
}

fn is_orphaned(
    events: &Vec<ActivityEvent>,
    deliveries: &Vec<StoredActivityDelivery>,
    thread_id: &str,
    activity_id: &str,
) -> (r: bool)
    ensures
        r == orphaned(views(events@), views(deliveries@), thread_id@, activity_id@),
{
    if !has_event_in(events, activity_id, thread_id) {
        return false;
    }
    let test = |d: &StoredActivityDelivery| -> (b: bool)
        ensures
            b == delivery_of(activity_id@)(d@),
        { same(d.activity_id.as_str(), activity_id) };
    !any_row(deliveries, test, Ghost(delivery_of(activity_id@)))
}

pub(crate) fn has_bookmark(bookmarks: &Vec<Bookmark>, owner_sub: &str, post_id: &str) -> (r: bool)
    ensures
        r == some_row(views(bookmarks@), bookmark_of(owner_sub@, post_id@)),
{
    let test = |b: &Bookmark| -> (k: bool)
        ensures
            k == bookmark_of(owner_sub@, post_id@)(b@),
        { same(b.owner_sub.as_str(), owner_sub) && same(b.post_id.as_str(), post_id) };
    any_row(bookmarks, test, Ghost(bookmark_of(owner_sub@, post_id@)))
}

pub(crate) fn has_receipt(receipts: &Vec<ReadReceipt>, viewer_sub: &str, post_id: &str) -> (r: bool)
    ensures
        r == some_row(views(receipts@), receipt_of(viewer_sub@, post_id@)),
{
    let test = |r: &ReadReceipt| -> (k: bool)
        ensures
            k == receipt_of(viewer_sub@, post_id@)(r@),
        { same(r.viewer_sub.as_str(), viewer_sub) && same(r.post_id.as_str(), post_id) };
    any_row(receipts, test, Ghost(receipt_of(viewer_sub@, post_id@)))
}

impl InMemoryStore {
    fn find_relation(&self, thread_id: &str, viewer_sub: &str) -> (r: Option<usize>)
        ensures
            match r {
                Some(i) => i < self.subscriptions@.len() && first_index(
                    self@.subscriptions,
                    relation_of(thread_id@, viewer_sub@),
                ) == Some(i as int),
                None => first_index(
                    self@.subscriptions,
                    relation_of(thread_id@, viewer_sub@),
                ) is None,
            },
    {
        let test = |s: &ThreadSubscription| -> (b: bool)
            ensures
                b == relation_of(thread_id@, viewer_sub@)(s@),
            {
                same(s.thread_id.as_str(), thread_id) && same(s.subscriber_sub.as_str(), viewer_sub)
            };
        find_row(&self.subscriptions, test, Ghost(relation_of(thread_id@, viewer_sub@)))
    }

    /// The current level of a viewer for a thread.
    pub(crate) fn current_level(&self, thread_id: &str, viewer_sub: &str) -> (r: ThreadFollowLevel)
        ensures
            r == level_of(self@.subscriptions, thread_id@, viewer_sub@),
    {
        match self.find_relation(thread_id, viewer_sub) {
            Some(i) => self.subscriptions[i].level,
            None => ThreadFollowLevel::Unset,
        }
    }

    fn store_level(
        &mut self,
        thread_id: &str,
        viewer_sub: &str,
        level: ThreadFollowLevel,
        created_at: i64,
    )
        ensures
            final(self)@ == (Forum {
                subscriptions: with_level(
                    old(self)@.subscriptions,
                    thread_id@,
                    viewer_sub@,
                    level,
                    created_at,
                ),
                ..old(self)@
            }),
    {
        let ghost before = self.subscriptions@;
        match self.find_relation(thread_id, viewer_sub) {
            Some(i) => {
                if level == ThreadFollowLevel::Unset {
                    let _ = self.subscriptions.remove(i);
                    assert(views(self.subscriptions@) =~= views(before).remove(i as int));
                } else {
                    let mut row = self.subscriptions[i].duplicate();
                    row.level = level;
                    row.created_at = created_at;
                    self.subscriptions.set(i, row);
                    assert(views(self.subscriptions@) =~= views(before).update(i as int, row@));
                }
            },
            None => {
                if level != ThreadFollowLevel::Unset {
                    let row = ThreadSubscription {
                        thread_id: thread_id.to_owned(),
                        subscriber_sub: viewer_sub.to_owned(),
                        level,
                        created_at,
                    };
                    self.subscriptions.push(row);
                    assert(views(self.subscriptions@) =~= views(before).push(row@));
                }
            },
        }
    }

    fn drop_watch_activity(&mut self, thread_id: &str, viewer_sub: &str)
        ensures
            final(self)@ == without_watch_activity(old(self)@, thread_id@, viewer_sub@),
    {
        let events = &self.activity_events;
        let survives = |d: &StoredActivityDelivery| -> (k: bool)
            ensures
                k == survives_unwatch(views(events@), thread_id@, viewer_sub@)(d@),
            {
                !has_event_in(events, d.activity_id.as_str(), thread_id) || !delivery_matches_viewer(
                    &d.delivery,
                    viewer_sub,
                ) || d.delivery.reason != ActivityReason::Following
            };
        retain(
            &mut self.activity_deliveries,
            survives,
            Ghost(survives_unwatch(views(events@), thread_id@, viewer_sub@)),
        );
        let deliveries = &self.activity_deliveries;
        let keep_receipt = |r: &ActivityReceipt| -> (k: bool)
            ensures
                k == receipt_kept(views(events@), views(deliveries@), thread_id@, viewer_sub@)(r@),
            {
                !is_orphaned(events, deliveries, thread_id, r.activity_id.as_str()) && (!same(
                    r.viewer_sub.as_str(),
                    viewer_sub,
                ) || !has_event_in(events, r.activity_id.as_str(), thread_id) || has_delivery_to(
                    deliveries,
                    r.activity_id.as_str(),
                    viewer_sub,
                ))
            };
        retain(
            &mut self.activity_receipts,
            keep_receipt,
            Ghost(receipt_kept(views(events@), views(deliveries@), thread_id@, viewer_sub@)),
        );
        let keep_event = |e: &ActivityEvent| -> (k: bool)
            ensures
                k == event_kept(views(events@), views(deliveries@), thread_id@)(e@),
            { !is_orphaned(events, deliveries, thread_id, e.id.as_str()) };
        let kept = select(
            events,
            keep_event,
            Ghost(event_kept(views(events@), views(deliveries@), thread_id@)),
        );
        self.activity_events = kept;
    }

    /// Set a viewer's relationship to a thread; an unset level removes it.
    pub fn set_thread_follow_level(
        &mut self,
        thread_id: &str,
        subscriber_sub: &str,
        level: ThreadFollowLevel,
        created_at: i64,
    ) -> (r: Result<(), StoreError>)
        ensures
            (final(self)@, plain(r)) == level_change(
                old(self)@,
                thread_id@,
                subscriber_sub@,
                level,
                created_at,
            ),
    {
        if find_thread(&self.threads, thread_id).is_none() {
            return Err(not_found("thread not found"));
        }
        if level.delivers_generic_activity() && !self.current_level(
            thread_id,
            subscriber_sub,
        ).delivers_generic_activity() && self.watcher_count(thread_id) >= MAX_THREAD_FOLLOWERS {
            return Err(invalid("a thread may have at most 256 watchers"));
        }
        self.store_level(thread_id, subscriber_sub, level, created_at);
        if !level.delivers_generic_activity() {
            self.drop_watch_activity(thread_id, subscriber_sub);
        }
        Ok(())
    }

    /// A viewer's relationship to a thread.
    pub fn thread_follow_level(&self, thread_id: &str, subscriber_sub: &str) -> (r: Result<
        ThreadFollowLevel,
        StoreError,
    >)
        ensures
            plain(r) == Ok::<ThreadFollowLevel, Failure>(
                level_of(self@.subscriptions, thread_id@, subscriber_sub@),
            ),
    {
        Ok(self.current_level(thread_id, subscriber_sub))
    }

    /// Set a boolean subscription, which stands for watching.
    pub fn set_thread_subscription(
        &mut self,
        thread_id: &str,
        subscriber_sub: &str,
        subscribed: bool,
        created_at: i64,
    ) -> (r: Result<(), StoreError>)
        ensures
            (final(self)@, plain(r)) == level_change(
                old(self)@,
                thread_id@,
                subscriber_sub@,
                subscription_level(subscribed),
                created_at,
            ),
    {
        let level = if subscribed {
            ThreadFollowLevel::Watch
        } else {
            ThreadFollowLevel::Unset
        };
        self.set_thread_follow_level(thread_id, subscriber_sub, level, created_at)
    }

    /// Whether a thread is present in the viewer's feeds.
    pub fn is_thread_subscribed(&self, thread_id: &str, subscriber_sub: &str) -> (r: Result<
        bool,
        StoreError,
    >)
        ensures
            plain(r) == Ok::<bool, Failure>(
                level_of(self@.subscriptions, thread_id@, subscriber_sub@).in_feeds(),
            ),
    {
        Ok(self.current_level(thread_id, subscriber_sub).appears_in_personal_feeds())
    }

    fn signals_for(&self, viewer_sub: &str, t: &Thread) -> (r: ThreadPersonalSignals)
        ensures
            r == signals_of(self@, viewer_sub@, t@),
    {
        let by_viewer = |p: &Post| -> (b: bool)
            ensures
                b == post_by(t@.id, viewer_sub@)(p@),
            { p.thread_id == t.id && same(p.author_sub.as_str(), viewer_sub) };
        let bookmarked = |p: &Post| -> (b: bool)
            ensures
                b == post_bookmarked(self@, t@.id, viewer_sub@)(p@),
            { p.thread_id == t.id && has_bookmark(&self.bookmarks, viewer_sub, p.id.as_str()) };
        let is_read = |p: &Post| -> (b: bool)
            ensures
                b == post_read(self@, t@.id, viewer_sub@)(p@),
            { p.thread_id == t.id && has_receipt(&self.read_receipts, viewer_sub, p.id.as_str()) };
        let unread = |p: &Post| -> (b: bool)
            ensures
                b == post_unread(self@, t@.id, viewer_sub@)(p@),
            { p.thread_id == t.id && !has_receipt(&self.read_receipts, viewer_sub, p.id.as_str()) };
        ThreadPersonalSignals {
            follow_level: self.current_level(t.id.as_str(), viewer_sub),
            authored: same(t.author_sub.as_str(), viewer_sub),
            participated: any_row(&self.posts, by_viewer, Ghost(post_by(t@.id, viewer_sub@))),
            bookmarked: any_row(
                &self.posts,
                bookmarked,
                Ghost(post_bookmarked(self@, t@.id, viewer_sub@)),
            ),
            reading_started: any_row(
                &self.posts,
                is_read,
                Ghost(post_read(self@, t@.id, viewer_sub@)),
            ),
            has_unread: any_row(
                &self.posts,
                unread,
                Ghost(post_unread(self@, t@.id, viewer_sub@)),
            ),
        }
    }

    fn signals_entry_for(&self, viewer_sub: &str, id: &String) -> (r: Option<SignalsEntry>)
        ensures
            opt(r) == signals_entry(self@, viewer_sub@)(id@),
    {
        let test = |t: &Thread| -> (b: bool)
            ensures
                b == thread_is(id@)(t@),
            { t.id == *id };
        match get_last_row(&self.threads, test, Ghost(thread_is(id@))) {
            Some(t) => Some(
                SignalsEntry { thread_id: id.clone(), signals: self.signals_for(viewer_sub, &t) },
            ),
            None => None,
        }
    }

    /// The personal signals of the live threads among the requested ones, by identifier.
    pub fn thread_personal_signals(&self, viewer_sub: &str, thread_ids: &[String]) -> (r: Result<
        Vec<SignalsEntry>,
        StoreError,
    >)
        ensures
            listed(r) == personal_signals(self@, viewer_sub@, views(thread_ids@)),
    {
        let ids = match bounded_personal_thread_ids(thread_ids) {
            Ok(ids) => ids,
            Err(e) => return Err(e),
        };
        let f = |id: &String| -> (e: Option<SignalsEntry>)
            ensures
                opt(e) == signals_entry(self@, viewer_sub@)(id@),
            { self.signals_entry_for(viewer_sub, id) };
        Ok(collect_rows(&ids, f, Ghost(signals_entry(self@, viewer_sub@))))
    }
}

} // verus!
