//! Writing threads and replies: creation, mentions, and the activity they cause.

use vstd::prelude::*;

use crate::model::{
    ActivityDelivery, ActivityDeliveryRow, ActivityEvent, ActivityEventRow, ActivityKind,
    ActivityReason, Mention, MentionRow, Post, PostRow, Thread, ThreadRow,
};
use crate::rows::{
    Record, any_row, append_rows, as_count, collect_rows, collected, count, count_rows, deduped,
    find_row, first_index, first_row, get_row, limit_rows, limited, map_rows, opt, retain, select,
    some_row, sort_rows, sorted, to_count, update_first, views,
};
use crate::store::memory::{Forum, InMemoryStore};
use crate::store::rules::{
    alias_of, bounded_mention_aliases, dedupe_deliveries, delivery_subjects, delivery_to,
    identity_alias, mention_aliases, recipients, subject_delivery,
};
use crate::store::tables::{
    category_is, find_category, find_thread, post_is_in, set_original, thread_is, with_original,
};
use crate::store::types::{
    ActivityMutation, ActivityMutationRow, CatchUpPostPoint, CatchUpPostPointRow, Failure,
    IdentityAlias, IdentityAliasRow, MAX_THREAD_FOLLOWERS, StoreError, StoredActivityDelivery,
    StoredActivityDeliveryRow, ThreadSubscription, ThreadSubscriptionRow, conflict, invalid,
    listed, not_found, plain, single,
};
use crate::text::{same, str_less, text_less};
use crate::texts::{distinct_names, ordered_set};

verus! {

// ---------------------------------------------------------------------------
// Aliases.
// ---------------------------------------------------------------------------

/// The observation that a subject uses an alias.
pub open spec fn alias_pair(alias: Seq<char>, subject: Seq<char>) -> spec_fn(IdentityAliasRow) -> bool {
    |r: IdentityAliasRow| r.alias == alias && r.subject == subject
}

/// The observations of an alias.
pub open spec fn alias_row(alias: Seq<char>) -> spec_fn(IdentityAliasRow) -> bool {
    |r: IdentityAliasRow| r.alias == alias
}

/// The observations of an alias by someone else.
pub open spec fn alias_of_other(alias: Seq<char>, subject: Seq<char>) -> spec_fn(
    IdentityAliasRow,
) -> bool {
    |r: IdentityAliasRow| r.alias == alias && r.subject != subject
}

/// The forum after observing an author; an observation is stored once.
pub open spec fn with_alias(
    f: Forum,
    subject: Seq<char>,
    email: Seq<char>,
    created_at: i64,
) -> Forum {
    match alias_of(subject, email) {
        Some(alias) => if some_row(f.identity_aliases, alias_pair(alias, subject)) {
            f
        } else {
            Forum {
                identity_aliases: f.identity_aliases.push(
                    IdentityAliasRow { alias, subject, created_at },
                ),
                ..f
            }
        },
        None => f,
    }
}

/// The delivery for a mentioned alias. An alias that two subjects use reaches nobody.
pub open spec fn mention_delivery(aliases: Seq<IdentityAliasRow>, actor_sub: Seq<char>) -> spec_fn(
    Seq<char>,
) -> Option<ActivityDeliveryRow> {
    |alias: Seq<char>|
        match first_row(aliases, alias_row(alias)) {
            Some(r) => if some_row(aliases, alias_of_other(alias, r.subject)) {
                None
            } else {
                delivery_to(r.subject, actor_sub, ActivityReason::Mention)
            },
            None => None,
        }
}

// ---------------------------------------------------------------------------
// The catch-up record.
// ---------------------------------------------------------------------------

/// The point of a post.
pub open spec fn point_of(post_id: Seq<char>) -> spec_fn(CatchUpPostPointRow) -> bool {
    |p: CatchUpPostPointRow| p.post_id == post_id
}

/// The forum after the clock advanced.
pub open spec fn with_next_generation(f: Forum) -> (Forum, Result<i64, Failure>) {
    if f.generation == i64::MAX {
        (f, Err(Failure::InvalidOperation("catch-up generation is exhausted"@)))
    } else {
        (
            Forum { generation: (f.generation + 1) as i64, ..f },
            Ok((f.generation + 1) as i64),
        )
    }
}

/// The forum after a post entered the catch-up record at the next generation.
pub open spec fn with_point(f: Forum, post: PostRow) -> (Forum, Result<(), Failure>) {
    if some_row(f.post_points, point_of(post.id)) {
        (f, Err(Failure::Conflict("catch-up post point already exists"@)))
    } else {
        match with_next_generation(f) {
            (g, Ok(seq)) => (
                Forum {
                    post_points: g.post_points.push(
                        CatchUpPostPointRow {
                            post_id: post.id,
                            thread_id: post.thread_id,
                            activity_at: post.created_at,
                            seq,
                        },
                    ),
                    ..g
                },
                Ok(()),
            ),
            (g, Err(e)) => (g, Err(e)),
        }
    }
}

// ---------------------------------------------------------------------------
// Mentions and activity.
// ---------------------------------------------------------------------------

/// The mentions of the other posts.
pub open spec fn mention_not_by(post_id: Seq<char>) -> spec_fn(MentionRow) -> bool {
    |m: MentionRow| m.post_id != post_id
}

/// The mentions of a user name.
pub open spec fn mention_of(name: Seq<char>) -> spec_fn(MentionRow) -> bool {
    |m: MentionRow| m.mentioned_username == name
}

/// The mention of a name by a post.
pub open spec fn mention_row(post_id: Seq<char>, thread_id: Seq<char>, created_at: i64) -> spec_fn(
    Seq<char>,
) -> MentionRow {
    |name: Seq<char>|
        MentionRow { post_id, thread_id, mentioned_username: name, created_at }
}

/// The mentions of the distinct names by a post.
pub open spec fn mention_rows(
    post_id: Seq<char>,
    thread_id: Seq<char>,
    names: Seq<Seq<char>>,
    created_at: i64,
) -> Seq<MentionRow> {
    deduped(names).map_values(mention_row(post_id, thread_id, created_at))
}

/// Whether a mention is more recent than another.
pub open spec fn mention_before(a: MentionRow, b: MentionRow) -> bool {
    if a.created_at != b.created_at {
        a.created_at > b.created_at
    } else {
        text_less(b.post_id, a.post_id)
    }
}

/// Most recent mentions first.
pub open spec fn mention_order() -> spec_fn(MentionRow, MentionRow) -> bool {
    |a: MentionRow, b: MentionRow| !mention_before(b, a)
}

/// A delivery of an event as it is stored.
pub open spec fn stored_delivery(activity_id: Seq<char>) -> spec_fn(
    ActivityDeliveryRow,
) -> StoredActivityDeliveryRow {
    |d: ActivityDeliveryRow| StoredActivityDeliveryRow { activity_id, delivery: d }
}

/// The forum after an event was delivered; an event without recipients is not recorded.
pub open spec fn with_activity(
    f: Forum,
    event: ActivityEventRow,
    deliveries: Seq<ActivityDeliveryRow>,
) -> Forum {
    if deliveries.len() == 0 {
        f
    } else {
        Forum {
            activity_events: f.activity_events.push(event),
            activity_deliveries: f.activity_deliveries + deliveries.map_values(
                stored_delivery(event.id),
            ),
            ..f
        }
    }
}

/// The event that a post was created.
pub open spec fn post_event(post: PostRow, activity_id: Seq<char>) -> ActivityEventRow {
    ActivityEventRow {
        id: activity_id,
        kind: ActivityKind::PostCreated,
        thread_id: post.thread_id,
        post_id: post.id,
        actor_sub: post.author_sub,
        created_at: post.created_at,
    }
}

// ---------------------------------------------------------------------------
// Creating threads.
// ---------------------------------------------------------------------------

/// Whether a thread may be opened with a post.
pub open spec fn opening_check(f: Forum, thread: ThreadRow, first_post: PostRow) -> Result<
    (),
    Failure,
> {
    if first_post.thread_id != thread.id {
        Err(Failure::InvalidOperation("the original post must belong to the new thread"@))
    } else if !some_row(f.categories, category_is(thread.category_id)) {
        Err(Failure::NotFound("category not found"@))
    } else {
        Ok(())
    }
}

/// The forum after the thread and its original post were stored.
pub open spec fn with_thread(f: Forum, thread: ThreadRow, first_post: PostRow) -> Forum {
    Forum {
        threads: f.threads.push(thread),
        original_posts: with_original(f.original_posts, thread.id, first_post.id),
        posts: f.posts.push(first_post),
        ..f
    }
}

/// A thread is opened with its original post.
pub open spec fn thread_creation(f: Forum, thread: ThreadRow, first_post: PostRow) -> (
    Forum,
    Result<(), Failure>,
) {
    match opening_check(f, thread, first_post) {
        Err(e) => (f, Err(e)),
        Ok(_) => {
            let seen = with_alias(
                f,
                first_post.author_sub,
                first_post.author_email,
                first_post.created_at,
            );
            match with_point(seen, first_post) {
                (_, Err(e)) => (f, Err(e)),
                (g, Ok(_)) => (with_thread(g, thread, first_post), Ok(())),
            }
        },
    }
}

/// A thread is opened, its mentions are stored, and the mentioned subjects are told.
pub open spec fn thread_creation_with_activity(
    f: Forum,
    thread: ThreadRow,
    first_post: PostRow,
    mentioned: Seq<Seq<char>>,
    activity_id: Seq<char>,
) -> (Forum, Result<ActivityMutationRow, Failure>) {
    match mention_aliases(mentioned) {
        Err(e) => (f, Err(e)),
        Ok(aliases) => match opening_check(f, thread, first_post) {
            Err(e) => (f, Err(e)),
            Ok(_) => {
                let seen = with_alias(
                    f,
                    first_post.author_sub,
                    first_post.author_email,
                    first_post.created_at,
                );
                let deliveries = deduped(
                    collected(
                        aliases,
                        mention_delivery(seen.identity_aliases, first_post.author_sub),
                    ),
                );
                match with_point(seen, first_post) {
                    (_, Err(e)) => (f, Err(e)),
                    (g, Ok(_)) => {
                        let stored = with_thread(g, thread, first_post);
                        let mentioning = Forum {
                            mentions: stored.mentions + mention_rows(
                                first_post.id,
                                thread.id,
                                aliases,
                                first_post.created_at,
                            ),
                            ..stored
                        };
                        (
                            with_activity(
                                mentioning,
                                post_event(first_post, activity_id),
                                deliveries,
                            ),
                            Ok(
                                ActivityMutationRow {
                                    delivery_subjects: ordered_set(recipients(deliveries)),
                                },
                            ),
                        )
                    },
                }
            },
        },
    }
}

// ---------------------------------------------------------------------------
// Replying.
// ---------------------------------------------------------------------------

/// Whether a reply may be added: its thread and category exist, the thread is open, and a quoted
/// post belongs to the thread.
pub open spec fn reply_check(f: Forum, post: PostRow) -> Result<(), Failure> {
    match first_row(f.threads, thread_is(post.thread_id)) {
        None => Err(Failure::NotFound("thread not found"@)),
        Some(thread) => if !some_row(f.categories, category_is(thread.category_id)) {
            Err(Failure::NotFound("category not found"@))
        } else if thread.locked {
            Err(Failure::InvalidOperation("this thread is locked — no new replies"@))
        } else if post.quoted_post_id.len() > 0 && !some_row(
            f.posts,
            post_is_in(post.quoted_post_id, post.thread_id),
        ) {
            Err(Failure::InvalidOperation("quoted post must belong to this thread"@))
        } else {
            Ok(())
        },
    }
}

/// A thread last replied to at the given time.
pub open spec fn bumped(at: i64) -> spec_fn(ThreadRow) -> ThreadRow {
    |t: ThreadRow| ThreadRow { last_at: at, ..t }
}

/// The forum after a reply was stored.
pub open spec fn with_reply(f: Forum, post: PostRow) -> Forum {
    Forum {
        posts: f.posts.push(post),
        threads: update_first(f.threads, thread_is(post.thread_id), bumped(post.created_at)),
        ..f
    }
}

/// A reply is added and its thread moves to the time of the reply.
pub open spec fn reply_addition(f: Forum, post: PostRow) -> (Forum, Result<(), Failure>) {
    match reply_check(f, post) {
        Err(e) => (f, Err(e)),
        Ok(_) => {
            let seen = with_alias(f, post.author_sub, post.author_email, post.created_at);
            match with_point(seen, post) {
                (_, Err(e)) => (f, Err(e)),
                (g, Ok(_)) => (with_reply(g, post), Ok(())),
            }
        },
    }
}

/// The viewers that watch a thread.
pub open spec fn watches(thread_id: Seq<char>) -> spec_fn(ThreadSubscriptionRow) -> bool {
    |s: ThreadSubscriptionRow| s.thread_id == thread_id && s.level is Watch
}

/// The delivery of a reply to a viewer that watches its thread.
pub open spec fn watch_delivery(post: PostRow) -> spec_fn(ThreadSubscriptionRow) -> Option<
    ActivityDeliveryRow,
> {
    |s: ThreadSubscriptionRow|
        if s.thread_id == post.thread_id && s.level is Watch {
            delivery_to(s.subscriber_sub, post.author_sub, ActivityReason::Following)
        } else {
            None
        }
}

/// At most one delivery as a list.
pub open spec fn as_list(d: Option<ActivityDeliveryRow>) -> Seq<ActivityDeliveryRow> {
    match d {
        Some(d) => seq![d],
        None => Seq::empty(),
    }
}

/// The delivery of a reply to the author of the quoted post.
pub open spec fn quote_delivery(f: Forum, post: PostRow) -> Option<ActivityDeliveryRow> {
    if post.quoted_post_id.len() == 0 {
        None
    } else {
        match first_row(f.posts, post_is_in(post.quoted_post_id, post.thread_id)) {
            Some(quoted) => delivery_to(
                quoted.author_sub,
                post.author_sub,
                ActivityReason::Reply,
            ),
            None => None,
        }
    }
}

/// Everyone a reply is delivered to: the author of the thread, the author of the quoted post, the
/// watchers, and the mentioned subjects.
pub open spec fn reply_deliveries(
    f: Forum,
    thread: ThreadRow,
    post: PostRow,
    aliases: Seq<Seq<char>>,
) -> Seq<ActivityDeliveryRow> {
    let seen = with_alias(f, post.author_sub, post.author_email, post.created_at);
    deduped(
        as_list(delivery_to(thread.author_sub, post.author_sub, ActivityReason::Reply)) + as_list(
            quote_delivery(f, post),
        ) + collected(f.subscriptions, watch_delivery(post)) + collected(
            aliases,
            mention_delivery(seen.identity_aliases, post.author_sub),
        ),
    )
}

/// A reply is added, its mentions are stored, and its recipients are told.
pub open spec fn reply_addition_with_activity(
    f: Forum,
    post: PostRow,
    mentioned: Seq<Seq<char>>,
    activity_id: Seq<char>,
) -> (Forum, Result<ActivityMutationRow, Failure>) {
    match mention_aliases(mentioned) {
        Err(e) => (f, Err(e)),
        Ok(aliases) => match reply_check(f, post) {
            Err(e) => (f, Err(e)),
            Ok(_) => if count_rows(f.subscriptions, watches(post.thread_id)) > MAX_THREAD_FOLLOWERS {
                (f, Err(Failure::InvalidOperation("a thread may have at most 256 followers"@)))
            } else {
                let thread = first_row(f.threads, thread_is(post.thread_id))->0;
                let seen = with_alias(f, post.author_sub, post.author_email, post.created_at);
                let deliveries = reply_deliveries(f, thread, post, aliases);
                match with_point(seen, post) {
                    (_, Err(e)) => (f, Err(e)),
                    (g, Ok(_)) => {
                        let stored = with_reply(g, post);
                        let mentioning = Forum {
                            mentions: stored.mentions.filter(mention_not_by(post.id))
                                + mention_rows(
                                post.id,
                                post.thread_id,
                                aliases,
                                post.created_at,
                            ),
                            ..stored
                        };
                        (
                            with_activity(mentioning, post_event(post, activity_id), deliveries),
                            Ok(
                                ActivityMutationRow {
                                    delivery_subjects: ordered_set(recipients(deliveries)),
                                },
                            ),
                        )
                    },
                }
            },
        },
    }
}

// ---------------------------------------------------------------------------
// The commands.
// ---------------------------------------------------------------------------

/// The mentions of the distinct names by a post.
fn new_mentions(post_id: &str, thread_id: &str, names: &[String], created_at: i64) -> (out: Vec<
    Mention,
>)
    ensures
        views(out@) == mention_rows(post_id@, thread_id@, views(names@), created_at),
{
    let distinct = distinct_names(names);
    let f = |name: &String| -> (m: Mention)
        ensures
            m@ == mention_row(post_id@, thread_id@, created_at)(name@),
        {
            Mention {
                post_id: post_id.to_owned(),
                thread_id: thread_id.to_owned(),
                mentioned_username: name.clone(),
                created_at,
            }
        };
    map_rows(&distinct, f, Ghost(mention_row(post_id@, thread_id@, created_at)))
}

impl InMemoryStore {
    /// Remember which alias an author is mentioned by.
    pub(crate) fn register_identity_alias(&mut self, subject: &str, email: &str, created_at: i64)
        ensures
            final(self)@ == with_alias(old(self)@, subject@, email@, created_at),
    {
        if let Some(alias) = identity_alias(subject, email) {
            let key = &alias;
            let test = |r: &IdentityAlias| -> (b: bool)
                ensures
                    b == alias_pair(key@, subject@)(r@),
                { r.alias == *key && same(r.subject.as_str(), subject) };
            if !any_row(&self.identity_aliases, test, Ghost(alias_pair(alias@, subject@))) {
                let ghost before = self.identity_aliases@;
                self.identity_aliases.push(
                    IdentityAlias { alias, subject: subject.to_owned(), created_at },
                );
                assert(views(self.identity_aliases@) =~= views(before).push(
                    IdentityAliasRow { alias: alias@, subject: subject@, created_at },
                ));
            }
        }
    }

    /// The deliveries for the mentioned aliases.
    fn resolve_mention_deliveries(&self, mentioned_aliases: &Vec<String>, actor_sub: &str) -> (out:
        Vec<ActivityDelivery>)
        ensures
            views(out@) == collected(
                views(mentioned_aliases@),
                mention_delivery(self@.identity_aliases, actor_sub@),
            ),
    {
        let resolve = |alias: &String| -> (d: Option<ActivityDelivery>)
            ensures
                opt(d) == mention_delivery(self@.identity_aliases, actor_sub@)(alias@),
            { self.resolve_alias(alias.as_str(), actor_sub) };
        collect_rows(
            mentioned_aliases,
            resolve,
            Ghost(mention_delivery(self@.identity_aliases, actor_sub@)),
        )
    }

    fn resolve_alias(&self, alias: &str, actor_sub: &str) -> (d: Option<ActivityDelivery>)
        ensures
            opt(d) == mention_delivery(self@.identity_aliases, actor_sub@)(alias@),
    {
        let test = |r: &IdentityAlias| -> (b: bool)
            ensures
                b == alias_row(alias@)(r@),
            { same(r.alias.as_str(), alias) };
        match get_row(&self.identity_aliases, test, Ghost(alias_row(alias@))) {
            None => None,
            Some(row) => {
                let subject = row.subject.as_str();
                let other = |r: &IdentityAlias| -> (b: bool)
                    ensures
                        b == alias_of_other(alias@, subject@)(r@),
                    { same(r.alias.as_str(), alias) && !same(r.subject.as_str(), subject) };
                if any_row(
                    &self.identity_aliases,
                    other,
                    Ghost(alias_of_other(alias@, subject@)),
                ) {
                    None
                } else {
                    subject_delivery(subject, actor_sub, ActivityReason::Mention)
                }
            },
        }
    }

    /// Advance the clock of posts and read receipts.
    pub(crate) fn next_generation(&mut self) -> (r: Result<i64, StoreError>)
        ensures
            (final(self)@, plain(r)) == with_next_generation(old(self)@),
    {
        if self.generation == i64::MAX {
            return Err(invalid("catch-up generation is exhausted"));
        }
        self.generation = self.generation + 1;
        Ok(self.generation)
    }

    /// Enter a post into the catch-up record.
    fn append_post(&mut self, post: &Post) -> (r: Result<(), StoreError>)
        ensures
            (final(self)@, plain(r)) == with_point(old(self)@, post@),
    {
        let test = |p: &CatchUpPostPoint| -> (b: bool)
            ensures
                b == point_of(post@.id)(p@),
            { p.post_id == post.id };
        if any_row(&self.post_points, test, Ghost(point_of(post@.id))) {
            return Err(conflict("catch-up post point already exists"));
        }
        match self.next_generation() {
            Err(e) => Err(e),
            Ok(seq) => {
                let ghost before = self.post_points@;
                let point = CatchUpPostPoint {
                    post_id: post.id.clone(),
                    thread_id: post.thread_id.clone(),
                    activity_at: post.created_at,
                    seq,
                };
                self.post_points.push(point);
                assert(views(self.post_points@) =~= views(before).push(point@));
                Ok(())
            },
        }
    }

    /// Record an event for its recipients.
    pub(crate) fn record_activity(&mut self, event: ActivityEvent, deliveries: &Vec<ActivityDelivery>)
        ensures
            final(self)@ == with_activity(old(self)@, event@, views(deliveries@)),
    {
        if !deliveries.is_empty() {
            let id = event.id.as_str();
            let f = |d: &ActivityDelivery| -> (s: StoredActivityDelivery)
                ensures
                    s@ == stored_delivery(id@)(d@),
                { StoredActivityDelivery { activity_id: id.to_owned(), delivery: d.duplicate() } };
            let stored = map_rows(deliveries, f, Ghost(stored_delivery(id@)));
            append_rows(&mut self.activity_deliveries, stored);
            let ghost before = self.activity_events@;
            self.activity_events.push(event);
            assert(views(self.activity_events@) =~= views(before).push(event@));
        }
    }

    fn check_opening(&self, thread: &Thread, first_post: &Post) -> (r: Result<(), StoreError>)
        ensures
            plain(r) == opening_check(self@, thread@, first_post@),
    {
        if first_post.thread_id != thread.id {
            return Err(invalid("the original post must belong to the new thread"));
        }
        if find_category(&self.categories, thread.category_id.as_str()).is_none() {
            return Err(not_found("category not found"));
        }
        Ok(())
    }

    fn store_thread(&mut self, thread: &Thread, first_post: &Post)
        ensures
            final(self)@ == with_thread(old(self)@, thread@, first_post@),
    {
        let ghost before = *self;
        self.threads.push(thread.duplicate());
        set_original(&mut self.original_posts, thread.id.as_str(), first_post.id.as_str());
        self.posts.push(first_post.duplicate());
        assert(views(self.threads@) =~= views(before.threads@).push(thread@));
        assert(views(self.posts@) =~= views(before.posts@).push(first_post@));
    }

    /// Open a thread with its original post.
    pub fn create_thread(&mut self, thread: &Thread, first_post: &Post) -> (r: Result<
        (),
        StoreError,
    >)
        ensures
            (final(self)@, plain(r)) == thread_creation(old(self)@, thread@, first_post@),
    {
        if let Err(e) = self.check_opening(thread, first_post) {
            return Err(e);
        }
        if let Err(e) = self.append_post(first_post) {
            return Err(e);
        }
        self.register_identity_alias(
            first_post.author_sub.as_str(),
            first_post.author_email.as_str(),
            first_post.created_at,
        );
        self.store_thread(thread, first_post);
        Ok(())
    }

    /// Open a thread, store its mentions, and tell the mentioned subjects.
    pub fn create_thread_with_activity(
        &mut self,
        thread: &Thread,
        first_post: &Post,
        mentioned_usernames: &[String],
        activity_id: &str,
    ) -> (r: Result<ActivityMutation, StoreError>)
        ensures
            (final(self)@, single(r)) == thread_creation_with_activity(
                old(self)@,
                thread@,
                first_post@,
                views(mentioned_usernames@),
                activity_id@,
            ),
    {
        let aliases = match bounded_mention_aliases(mentioned_usernames) {
            Ok(aliases) => aliases,
            Err(e) => return Err(e),
        };
        if let Err(e) = self.check_opening(thread, first_post) {
            return Err(e);
        }
        if let Err(e) = self.append_post(first_post) {
            return Err(e);
        }
        self.register_identity_alias(
            first_post.author_sub.as_str(),
            first_post.author_email.as_str(),
            first_post.created_at,
        );
        let mut deliveries = self.resolve_mention_deliveries(
            &aliases,
            first_post.author_sub.as_str(),
        );
        dedupe_deliveries(&mut deliveries);
        self.store_thread(thread, first_post);
        let mentions = new_mentions(
            first_post.id.as_str(),
            thread.id.as_str(),
            aliases.as_slice(),
            first_post.created_at,
        );
        append_rows(&mut self.mentions, mentions);
        let event = ActivityEvent {
            id: activity_id.to_owned(),
            kind: ActivityKind::PostCreated,
            thread_id: thread.id.clone(),
            post_id: first_post.id.clone(),
            actor_sub: first_post.author_sub.clone(),
            created_at: first_post.created_at,
        };
        self.record_activity(event, &deliveries);
        Ok(ActivityMutation { delivery_subjects: delivery_subjects(&deliveries) })
    }

    fn find_quoted(&self, post: &Post) -> (r: Option<Post>)
        ensures
            opt(r) == first_row(
                self@.posts,
                post_is_in(post@.quoted_post_id, post@.thread_id),
            ),
            r is Some <==> some_row(
                self@.posts,
                post_is_in(post@.quoted_post_id, post@.thread_id),
            ),
    {
        let test = |p: &Post| -> (b: bool)
            ensures
                b == post_is_in(post@.quoted_post_id, post@.thread_id)(p@),
            { p.id == post.quoted_post_id && p.thread_id == post.thread_id };
        match find_row(
            &self.posts,
            test,
            Ghost(post_is_in(post@.quoted_post_id, post@.thread_id)),
        ) {
            Some(i) => Some(self.posts[i].duplicate()),
            None => None,
        }
    }

    /// The index of the thread a reply may be added to.
    fn check_reply(&self, post: &Post) -> (r: Result<usize, StoreError>)
        ensures
            match r {
                Ok(i) => reply_check(self@, post@) is Ok && i < self.threads@.len()
                    && self.threads@[i as int]@.id == post@.thread_id && first_index(
                    self@.threads,
                    thread_is(post@.thread_id),
                ) == Some(i as int),
                Err(e) => reply_check(self@, post@) == Err::<(), Failure>(e@),
            },
    {
        match find_thread(&self.threads, post.thread_id.as_str()) {
            None => Err(not_found("thread not found")),
            Some(i) => {
                if find_category(&self.categories, self.threads[i].category_id.as_str()).is_none() {
                    return Err(not_found("category not found"));
                }
                if self.threads[i].locked {
                    return Err(invalid("this thread is locked — no new replies"));
                }
                if !post.quoted_post_id.as_str().is_empty() && self.find_quoted(post).is_none() {
                    return Err(invalid("quoted post must belong to this thread"));
                }
                Ok(i)
            },
        }
    }

    fn store_reply(&mut self, post: &Post, i: usize)
        requires
            i < old(self).threads@.len(),
            first_index(old(self)@.threads, thread_is(post@.thread_id)) == Some(i as int),
        ensures
            final(self)@ == with_reply(old(self)@, post@),
    {
        let ghost before = *self;
        self.posts.push(post.duplicate());
        let mut thread = self.threads[i].duplicate();
        thread.last_at = post.created_at;
        self.threads.set(i, thread);
        assert(views(self.posts@) =~= views(before.posts@).push(post@));
        assert(views(self.threads@) =~= views(before.threads@).update(i as int, thread@));
    }

    /// Add a reply.
    pub fn add_reply(&mut self, post: &Post) -> (r: Result<(), StoreError>)
        ensures
            (final(self)@, plain(r)) == reply_addition(old(self)@, post@),
    {
        match self.check_reply(post) {
            Err(e) => Err(e),
            Ok(i) => {
                if let Err(e) = self.append_post(post) {
                    return Err(e);
                }
                self.register_identity_alias(
                    post.author_sub.as_str(),
                    post.author_email.as_str(),
                    post.created_at,
                );
                self.store_reply(post, i);
                Ok(())
            },
        }
    }

    /// How many viewers watch a thread.
    pub(crate) fn watcher_count(&self, thread_id: &str) -> (r: usize)
        ensures
            r == count_rows(self@.subscriptions, watches(thread_id@)),
    {
        let test = |s: &ThreadSubscription| -> (b: bool)
            ensures
                b == watches(thread_id@)(s@),
            { same(s.thread_id.as_str(), thread_id) && s.level.delivers_generic_activity() };
        count(&self.subscriptions, test, Ghost(watches(thread_id@)))
    }

    fn watch_deliveries(&self, post: &Post) -> (out: Vec<ActivityDelivery>)
        ensures
            views(out@) == collected(self@.subscriptions, watch_delivery(post@)),
    {
        let f = |s: &ThreadSubscription| -> (d: Option<ActivityDelivery>)
            ensures
                opt(d) == watch_delivery(post@)(s@),
            {
                if s.thread_id == post.thread_id && s.level.delivers_generic_activity() {
                    subject_delivery(
                        s.subscriber_sub.as_str(),
                        post.author_sub.as_str(),
                        ActivityReason::Following,
                    )
                } else {
                    None
                }
            };
        collect_rows(&self.subscriptions, f, Ghost(watch_delivery(post@)))
    }

    fn quote_delivery_of(&self, post: &Post) -> (d: Option<ActivityDelivery>)
        ensures
            opt(d) == quote_delivery(self@, post@),
    {
        if post.quoted_post_id.as_str().is_empty() {
            return None;
        }
        match self.find_quoted(post) {
            Some(quoted) => subject_delivery(
                quoted.author_sub.as_str(),
                post.author_sub.as_str(),
                ActivityReason::Reply,
            ),
            None => None,
        }
    }

    /// The deliveries to the thread's author, the quoted author, and the watchers.
    fn direct_deliveries(&self, thread: &Thread, post: &Post) -> (out: Vec<ActivityDelivery>)
        ensures
            views(out@) == as_list(
                delivery_to(thread@.author_sub, post@.author_sub, ActivityReason::Reply),
            ) + as_list(quote_delivery(self@, post@)) + collected(
                self@.subscriptions,
                watch_delivery(post@),
            ),
    {
        let mut out: Vec<ActivityDelivery> = Vec::new();
        if let Some(d) = subject_delivery(
            thread.author_sub.as_str(),
            post.author_sub.as_str(),
            ActivityReason::Reply,
        ) {
            out.push(d);
        }
        let ghost first = as_list(
            delivery_to(thread@.author_sub, post@.author_sub, ActivityReason::Reply),
        );
        assert(views(out@) =~= first);
        if let Some(d) = self.quote_delivery_of(post) {
            out.push(d);
        }
        assert(views(out@) =~= first + as_list(quote_delivery(self@, post@)));
        append_rows(&mut out, self.watch_deliveries(post));
        out
    }

    /// Add a reply, replace its mentions, and tell the thread's author, the quoted author, the
    /// watchers, and the mentioned subjects, each once per reason and nobody about their own reply.
    pub fn add_reply_with_activity(
        &mut self,
        post: &Post,
        mentioned_usernames: &[String],
        activity_id: &str,
    ) -> (r: Result<ActivityMutation, StoreError>)
        ensures
            (final(self)@, single(r)) == reply_addition_with_activity(
                old(self)@,
                post@,
                views(mentioned_usernames@),
                activity_id@,
            ),
    {
        let aliases = match bounded_mention_aliases(mentioned_usernames) {
            Ok(aliases) => aliases,
            Err(e) => return Err(e),
        };
        let i: usize = match self.check_reply(post) {
            Ok(i) => i,
            Err(e) => return Err(e),
        };
        if self.watcher_count(post.thread_id.as_str()) > MAX_THREAD_FOLLOWERS {
            return Err(invalid("a thread may have at most 256 followers"));
        }
        let mut deliveries = self.direct_deliveries(&self.threads[i], post);
        if let Err(e) = self.append_post(post) {
            return Err(e);
        }
        self.register_identity_alias(
            post.author_sub.as_str(),
            post.author_email.as_str(),
            post.created_at,
        );
        append_rows(
            &mut deliveries,
            self.resolve_mention_deliveries(&aliases, post.author_sub.as_str()),
        );
        dedupe_deliveries(&mut deliveries);
        assert(views(deliveries@) == reply_deliveries(
            old(self)@,
            first_row(old(self)@.threads, thread_is(post@.thread_id))->0,
            post@,
            views(aliases@),
        ));
        self.store_reply(post, i);
        let keep = |m: &Mention| -> (b: bool)
            ensures
                b == mention_not_by(post@.id)(m@),
            { m.post_id != post.id };
        retain(&mut self.mentions, keep, Ghost(mention_not_by(post@.id)));
        let mentions = new_mentions(
            post.id.as_str(),
            post.thread_id.as_str(),
            aliases.as_slice(),
            post.created_at,
        );
        append_rows(&mut self.mentions, mentions);
        let event = ActivityEvent {
            id: activity_id.to_owned(),
            kind: ActivityKind::PostCreated,
            thread_id: post.thread_id.clone(),
            post_id: post.id.clone(),
            actor_sub: post.author_sub.clone(),
            created_at: post.created_at,
        };
        self.record_activity(event, &deliveries);
        Ok(ActivityMutation { delivery_subjects: delivery_subjects(&deliveries) })
    }

    /// Replace the mentions of a post by the given names.
    pub fn replace_mentions(
        &mut self,
        post_id: &str,
        thread_id: &str,
        mentioned_usernames: &[String],
        created_at: i64,
    ) -> (r: Result<(), StoreError>)
        ensures
            r is Ok,
            final(self)@ == (Forum {
                mentions: old(self)@.mentions.filter(mention_not_by(post_id@)) + mention_rows(
                    post_id@,
                    thread_id@,
                    views(mentioned_usernames@),
                    created_at,
                ),
                ..old(self)@
            }),
    {
        let keep = |m: &Mention| -> (b: bool)
            ensures
                b == mention_not_by(post_id@)(m@),
            { !same(m.post_id.as_str(), post_id) };
        retain(&mut self.mentions, keep, Ghost(mention_not_by(post_id@)));
        append_rows(
            &mut self.mentions,
            new_mentions(post_id, thread_id, mentioned_usernames, created_at),
        );
        Ok(())
    }

    /// How often a user name is mentioned.
    pub fn count_mentions_for_user(&self, mentioned_username: &str) -> (r: Result<i64, StoreError>)
        ensures
            plain(r) == Ok::<i64, Failure>(
                as_count(count_rows(self@.mentions, mention_of(mentioned_username@))),
            ),
    {
        let test = |m: &Mention| -> (b: bool)
            ensures
                b == mention_of(mentioned_username@)(m@),
            { same(m.mentioned_username.as_str(), mentioned_username) };
        Ok(to_count(count(&self.mentions, test, Ghost(mention_of(mentioned_username@)))))
    }

    /// The most recent mentions of a user name.
    pub fn mentions_for_user(&self, mentioned_username: &str, limit: i64) -> (r: Result<
        Vec<Mention>,
        StoreError,
    >)
        ensures
            listed(r) == Ok::<Seq<MentionRow>, Failure>(
                limited(
                    sorted(
                        self@.mentions.filter(mention_of(mentioned_username@)),
                        mention_order(),
                    ),
                    limit as int,
                ),
            ),
    {
        let test = |m: &Mention| -> (b: bool)
            ensures
                b == mention_of(mentioned_username@)(m@),
            { same(m.mentioned_username.as_str(), mentioned_username) };
        let rows = select(&self.mentions, test, Ghost(mention_of(mentioned_username@)));
        let le = |a: &Mention, b: &Mention| -> (r: bool)
            ensures
                r == mention_order()(a@, b@),
            {
                if b.created_at != a.created_at {
                    !(b.created_at > a.created_at)
                } else {
                    !str_less(a.post_id.as_str(), b.post_id.as_str())
                }
            };
        let mut rows = sort_rows(rows, le, Ghost(mention_order()));
        limit_rows(&mut rows, limit);
        Ok(rows)
    }
}

} // verus!
