//! What writing does: what is stored when a thread is opened, answered, edited, moved or deleted,
//! what stays, and when it is refused.

use vstd::prelude::*;

use crate::laws::delivering::{goes_by, lemma_alias_list, lemma_goes_by, thread_entry};
use crate::laws::desk::{category_entry, lemma_category_entry, lemma_opening_entry, opening_entry};
use crate::laws::finding::{lemma_names_an_answer, names_an_answer};
use crate::laws::gathering::law_mentions_name_everyone;
use crate::laws::showing::post_named;
use crate::laws::state_writing::lemma_original_kept;
use crate::model::{ActivityEventRow, BookmarkRow, MentionRow, PostRow, ThreadRow};
use crate::rows::{
    first_index, first_row, lemma_filter_contains, lemma_first_index, lemma_first_index_unique,
    some_row, update_first,
};
use crate::store::answers::answer_mutation;
use crate::store::editing::{
    activity_receipt_not_on, activity_receipt_outside, bookmark_not_on, bookmark_outside,
    delivery_not_on, delivery_outside, event_is_in, event_is_on, event_not_in, event_not_on,
    mention_not_in, newest_at, point_not_in, post_deletion, post_is_not, post_not_in,
    reaction_not_to, reaction_outside, receipt_not_for, receipt_outside, retitled, rewritten,
    subscription_not_to, thread_is_not, thread_move, thread_update, unquoted, with_lock, with_pin,
    without_post, without_thread,
};
use crate::store::memory::Forum;
use crate::store::posting::{
    alias_pair, mention_not_by, mention_rows, point_of, reply_addition,
    reply_addition_with_activity, reply_check, thread_creation, thread_creation_with_activity,
    watches, with_alias,
};
use crate::store::rules::{alias_list, normal_alias};
use crate::store::tables::{
    category_is, original_is_not, original_of, post_is, post_is_in, thread_is,
};
use crate::store::types::{
    AcceptedAnswerAction, ActivityReceiptRow, CatchUpPostPointRow, OriginalPostRow, ReactionRow,
    ReadReceiptRow, StoredActivityDeliveryRow, ThreadSubscriptionRow,
};
use crate::text::trim_text;

verus! {

/// Whether a category exists.
pub open spec fn category_exists(f: Forum, id: Seq<char>) -> bool {
    exists|c: int| 0 <= c < f.categories.len() && (#[trigger] f.categories[c]).id == id
}

/// Whether the catch-up record holds a post.
pub open spec fn recorded(f: Forum, post_id: Seq<char>) -> bool {
    exists|i: int| 0 <= i < f.post_points.len() && (#[trigger] f.post_points[i]).post_id == post_id
}

/// Whether a thread has a post with the identifier.
pub open spec fn holds_post(f: Forum, thread_id: Seq<char>, id: Seq<char>) -> bool {
    exists|p: int|
        0 <= p < f.posts.len() && (#[trigger] f.posts[p]).id == id && f.posts[p].thread_id
            == thread_id
}

/// Whether an alias is known for a subject.
pub open spec fn known_alias(f: Forum, alias: Seq<char>, subject: Seq<char>) -> bool {
    exists|i: int|
        0 <= i < f.identity_aliases.len() && (#[trigger] f.identity_aliases[i]).alias == alias
            && f.identity_aliases[i].subject == subject
}

/// Whether a post was recorded: it stands last, it entered the catch-up record at the next
/// generation and at its own moment, and its author's alias is known.
pub open spec fn post_recorded(f: Forum, g: Forum, post: PostRow) -> bool {
    &&& g.posts == f.posts.push(post)
    &&& g.generation == f.generation + 1
    &&& g.post_points == f.post_points.push(
        CatchUpPostPointRow {
            post_id: post.id,
            thread_id: post.thread_id,
            activity_at: post.created_at,
            seq: g.generation,
        },
    )
    &&& forall|alias: Seq<char>, subject: Seq<char>| #[trigger]
        known_alias(g, alias, subject) <==> goes_by(f, post, alias, subject)
}

pub proof fn lemma_category_exists(f: Forum, id: Seq<char>)
    ensures
        some_row(f.categories, category_is(id)) <==> category_exists(f, id),
{
    if category_exists(f, id) {
        let c = choose|c: int| 0 <= c < f.categories.len() && (#[trigger] f.categories[c]).id == id;
        assert(category_is(id)(f.categories[c]));
    }
    if some_row(f.categories, category_is(id)) {
        let c = choose|c: int|
            0 <= c < f.categories.len() && category_is(id)(#[trigger] f.categories[c]);
        assert(f.categories[c].id == id);
    }
}

pub proof fn lemma_recorded(f: Forum, id: Seq<char>)
    ensures
        some_row(f.post_points, point_of(id)) <==> recorded(f, id),
{
    if recorded(f, id) {
        let i = choose|i: int|
            0 <= i < f.post_points.len() && (#[trigger] f.post_points[i]).post_id == id;
        assert(point_of(id)(f.post_points[i]));
    }
    if some_row(f.post_points, point_of(id)) {
        let i = choose|i: int|
            0 <= i < f.post_points.len() && point_of(id)(#[trigger] f.post_points[i]);
        assert(f.post_points[i].post_id == id);
    }
}

pub proof fn lemma_holds_post(f: Forum, thread_id: Seq<char>, id: Seq<char>)
    ensures
        some_row(f.posts, post_is_in(id, thread_id)) <==> holds_post(f, thread_id, id),
{
    let which = post_is_in(id, thread_id);
    if holds_post(f, thread_id, id) {
        let p = choose|p: int|
            0 <= p < f.posts.len() && (#[trigger] f.posts[p]).id == id && f.posts[p].thread_id
                == thread_id;
        assert(which(f.posts[p]));
    }
    if some_row(f.posts, which) {
        let p = choose|p: int| 0 <= p < f.posts.len() && which(#[trigger] f.posts[p]);
        assert(f.posts[p].id == id);
    }
}

/// The thread with an identifier stands at the first entry that names it.
pub proof fn lemma_thread_entry(f: Forum, id: Seq<char>)
    ensures
        match first_index(f.threads, thread_is(id)) {
            Some(n) => thread_entry(f, id, n),
            None => forall|n: int| !#[trigger] thread_entry(f, id, n),
        },
        forall|n: int| #[trigger]
            thread_entry(f, id, n) ==> first_index(f.threads, thread_is(id)) == Some(n),
{
    let which = thread_is(id);
    lemma_first_index(f.threads, which);
    match first_index(f.threads, which) {
        Some(n) => {
            assert(which(f.threads[n]));
            assert forall|j: int| 0 <= j < n implies (#[trigger] f.threads[j]).id != id by {
                assert(!which(f.threads[j]));
            }
        },
        None => {
            assert forall|n: int| !#[trigger] thread_entry(f, id, n) by {
                if thread_entry(f, id, n) {
                    assert(which(f.threads[n]));
                }
            }
        },
    }
    assert forall|n: int| #[trigger] thread_entry(f, id, n) implies first_index(f.threads, which)
        == Some(n) by {
        assert(which(f.threads[n]));
        assert forall|j: int| 0 <= j < n implies !which(#[trigger] f.threads[j]) by {}
        lemma_first_index_unique(f.threads, which, n);
    }
}

proof fn lemma_aliases_learned(f: Forum, g: Forum, post: PostRow)
    requires
        g.identity_aliases == with_alias(
            f,
            post.author_sub,
            post.author_email,
            post.created_at,
        ).identity_aliases,
    ensures
        forall|alias: Seq<char>, subject: Seq<char>| #[trigger]
            known_alias(g, alias, subject) <==> goes_by(f, post, alias, subject),
{
    assert forall|alias: Seq<char>, subject: Seq<char>| #[trigger]
        known_alias(g, alias, subject) <==> goes_by(f, post, alias, subject) by {
        lemma_goes_by(f, post, alias, subject);
        let pair = alias_pair(alias, subject);
        if known_alias(g, alias, subject) {
            let i = choose|i: int|
                0 <= i < g.identity_aliases.len() && (#[trigger] g.identity_aliases[i]).alias
                    == alias && g.identity_aliases[i].subject == subject;
            assert(pair(g.identity_aliases[i]));
        }
        if some_row(g.identity_aliases, pair) {
            let i = choose|i: int|
                0 <= i < g.identity_aliases.len() && pair(#[trigger] g.identity_aliases[i]);
            assert(g.identity_aliases[i].alias == alias);
        }
    }
}

// ---------------------------------------------------------------------------
// Opening and replying.
// ---------------------------------------------------------------------------

/// A thread is opened with its own original post in a category that exists; both are stored as they
/// are, the post becomes the thread's original one, and nothing else changes. Otherwise nothing is
/// stored.
pub proof fn law_thread_is_opened(f: Forum, thread: ThreadRow, first_post: PostRow)
    ensures
        ({
            let (g, r) = thread_creation(f, thread, first_post);
            &&& r is Ok <==> first_post.thread_id == thread.id && category_exists(
                f,
                thread.category_id,
            ) && !recorded(f, first_post.id) && f.generation < i64::MAX
            &&& r is Err ==> g == f
            &&& r is Ok ==> {
                &&& g.threads == f.threads.push(thread)
                &&& post_recorded(f, g, first_post)
                &&& exists|o: int| #[trigger]
                    opening_entry(g, thread.id, o) && g.original_posts[o].post_id == first_post.id
                &&& forall|id: Seq<char>|
                    id != thread.id ==> #[trigger] original_of(g.original_posts, id) == original_of(
                        f.original_posts,
                        id,
                    )
                &&& g == (Forum {
                    threads: g.threads,
                    posts: g.posts,
                    original_posts: g.original_posts,
                    identity_aliases: g.identity_aliases,
                    generation: g.generation,
                    post_points: g.post_points,
                    ..f
                })
            }
        }),
{
    let (g, r) = thread_creation(f, thread, first_post);
    lemma_category_exists(f, thread.category_id);
    lemma_recorded(f, first_post.id);
    if r is Ok {
        lemma_aliases_learned(f, g, first_post);
        lemma_opening_entry(g, thread.id);
        lemma_original_kept(f.original_posts, thread.id, first_post.id, thread.id);
        assert forall|id: Seq<char>| id != thread.id implies #[trigger] original_of(
            g.original_posts,
            id,
        ) == original_of(f.original_posts, id) by {
            lemma_original_kept(f.original_posts, thread.id, first_post.id, id);
        }
    }
}

/// Whether a reply may be added.
pub open spec fn may_reply(f: Forum, post: PostRow, n: int) -> bool {
    &&& thread_entry(f, post.thread_id, n)
    &&& category_exists(f, f.threads[n].category_id)
    &&& !f.threads[n].locked
    &&& post.quoted_post_id.len() > 0 ==> holds_post(f, post.thread_id, post.quoted_post_id)
}

proof fn lemma_may_reply(f: Forum, post: PostRow)
    ensures
        reply_check(f, post) is Ok <==> exists|n: int| #[trigger] may_reply(f, post, n),
{
    lemma_thread_entry(f, post.thread_id);
    lemma_holds_post(f, post.thread_id, post.quoted_post_id);
    match first_index(f.threads, thread_is(post.thread_id)) {
        Some(n) => {
            lemma_category_exists(f, f.threads[n].category_id);
            assert(reply_check(f, post) is Ok <==> may_reply(f, post, n));
        },
        None => {},
    }
}

/// A reply is added to a thread that exists and is not locked, and quotes nothing but a post of
/// that thread; it is stored as it is, the thread was last active at its moment, and nothing else
/// changes. Otherwise nothing is stored.
pub proof fn law_reply_is_added(f: Forum, post: PostRow)
    ensures
        ({
            let (g, r) = reply_addition(f, post);
            &&& r is Ok <==> (exists|n: int| #[trigger] may_reply(f, post, n)) && !recorded(
                f,
                post.id,
            ) && f.generation < i64::MAX
            &&& r is Err ==> g == f
            &&& r is Ok ==> {
                &&& post_recorded(f, g, post)
                &&& forall|n: int| #[trigger]
                    thread_entry(f, post.thread_id, n) ==> g.threads == f.threads.update(
                        n,
                        ThreadRow { last_at: post.created_at, ..f.threads[n] },
                    )
                &&& g == (Forum {
                    threads: g.threads,
                    posts: g.posts,
                    identity_aliases: g.identity_aliases,
                    generation: g.generation,
                    post_points: g.post_points,
                    ..f
                })
            }
        }),
{
    let (g, r) = reply_addition(f, post);
    lemma_may_reply(f, post);
    lemma_recorded(f, post.id);
    lemma_thread_entry(f, post.thread_id);
    if r is Ok {
        lemma_aliases_learned(f, g, post);
    }
}

/// How many distinct aliases are mentioned.
pub open spec fn too_many_names(mentioned: Seq<Seq<char>>) -> bool {
    alias_list(mentioned).len() > 32
}

/// Telling of a reply adds the notices and the mentions to what adding the reply does. The mentions
/// of the post are then its names, and those of other posts stay.
pub proof fn law_telling_reply_adds_mentions(
    f: Forum,
    post: PostRow,
    mentioned: Seq<Seq<char>>,
    activity_id: Seq<char>,
)
    ensures
        ({
            let (g, r) = reply_addition_with_activity(f, post, mentioned, activity_id);
            let (h, plain_r) = reply_addition(f, post);
            &&& r is Ok <==> plain_r is Ok && !too_many_names(mentioned) && f.subscriptions.filter(
                |s: ThreadSubscriptionRow| s.thread_id == post.thread_id && s.level is Watch,
            ).len() <= 256
            &&& r is Err ==> g == f
            &&& r is Ok ==> {
                &&& g == (Forum {
                    mentions: g.mentions,
                    activity_events: g.activity_events,
                    activity_deliveries: g.activity_deliveries,
                    ..h
                })
                &&& forall|m: MentionRow| #[trigger]
                    g.mentions.contains(m) <==> {
                        ||| f.mentions.contains(m) && m.post_id != post.id
                        ||| m.post_id == post.id && m.thread_id == post.thread_id && m.created_at
                            == post.created_at && exists|i: int|
                            0 <= i < mentioned.len() && normal_alias(#[trigger] mentioned[i])
                                == Some(m.mentioned_username)
                    }
            }
        }),
{
    let (g, r) = reply_addition_with_activity(f, post, mentioned, activity_id);
    let (h, plain_r) = reply_addition(f, post);
    let aliases = alias_list(mentioned);
    let watching = |s: ThreadSubscriptionRow| s.thread_id == post.thread_id && s.level is Watch;
    assert(watching =~= watches(post.thread_id));
    if r is Ok {
        let kept = f.mentions.filter(mention_not_by(post.id));
        let rows = mention_rows(post.id, post.thread_id, aliases, post.created_at);
        assert(g.mentions == kept + rows);
        lemma_filter_contains(f.mentions, mention_not_by(post.id));
        law_mentions_name_everyone(post.id, post.thread_id, aliases, post.created_at);
        lemma_alias_list(mentioned);
        assert forall|m: MentionRow| #[trigger]
            g.mentions.contains(m) <==> {
                ||| f.mentions.contains(m) && m.post_id != post.id
                ||| m.post_id == post.id && m.thread_id == post.thread_id && m.created_at
                    == post.created_at && exists|i: int|
                    0 <= i < mentioned.len() && normal_alias(#[trigger] mentioned[i]) == Some(
                        m.mentioned_username,
                    )
            } by {
            lemma_append_contains(kept, rows, m);
        }
    }
}

/// Telling of a new thread adds the notices and the mentions to what opening it does.
pub proof fn law_telling_opening_adds_mentions(
    f: Forum,
    thread: ThreadRow,
    first_post: PostRow,
    mentioned: Seq<Seq<char>>,
    activity_id: Seq<char>,
)
    ensures
        ({
            let (g, r) = thread_creation_with_activity(
                f,
                thread,
                first_post,
                mentioned,
                activity_id,
            );
            let (h, plain_r) = thread_creation(f, thread, first_post);
            &&& r is Ok <==> plain_r is Ok && !too_many_names(mentioned)
            &&& r is Err ==> g == f
            &&& r is Ok ==> {
                &&& g == (Forum {
                    mentions: g.mentions,
                    activity_events: g.activity_events,
                    activity_deliveries: g.activity_deliveries,
                    ..h
                })
                &&& forall|m: MentionRow| #[trigger]
                    g.mentions.contains(m) <==> {
                        ||| f.mentions.contains(m)
                        ||| m.post_id == first_post.id && m.thread_id == thread.id && m.created_at
                            == first_post.created_at && exists|i: int|
                            0 <= i < mentioned.len() && normal_alias(#[trigger] mentioned[i])
                                == Some(m.mentioned_username)
                    }
            }
        }),
{
    let (g, r) = thread_creation_with_activity(f, thread, first_post, mentioned, activity_id);
    let aliases = alias_list(mentioned);
    if r is Ok {
        let rows = mention_rows(first_post.id, thread.id, aliases, first_post.created_at);
        assert(g.mentions == f.mentions + rows);
        law_mentions_name_everyone(first_post.id, thread.id, aliases, first_post.created_at);
        lemma_alias_list(mentioned);
        assert forall|m: MentionRow| #[trigger]
            g.mentions.contains(m) <==> {
                ||| f.mentions.contains(m)
                ||| m.post_id == first_post.id && m.thread_id == thread.id && m.created_at
                    == first_post.created_at && exists|i: int|
                    0 <= i < mentioned.len() && normal_alias(#[trigger] mentioned[i]) == Some(
                        m.mentioned_username,
                    )
            } by {
            lemma_append_contains(f.mentions, rows, m);
        }
    }
}

proof fn lemma_append_contains<A>(a: Seq<A>, b: Seq<A>, x: A)
    ensures
        (a + b).contains(x) <==> a.contains(x) || b.contains(x),
{
    if a.contains(x) {
        let i = choose|i: int| 0 <= i < a.len() && a[i] == x;
        assert((a + b)[i] == x);
    }
    if b.contains(x) {
        let i = choose|i: int| 0 <= i < b.len() && b[i] == x;
        assert((a + b)[a.len() + i] == x);
    }
    if (a + b).contains(x) {
        let i = choose|i: int| 0 <= i < (a + b).len() && (a + b)[i] == x;
        if i < a.len() {
            assert(a[i] == x);
        } else {
            assert(b[i - a.len()] == x);
        }
    }
}

// ---------------------------------------------------------------------------
// Editing.
// ---------------------------------------------------------------------------

/// Locking, pinning and retitling change that of the one thread, and nothing when there is none.
pub proof fn law_thread_flags_change_one_thread(
    f: Forum,
    id: Seq<char>,
    flag: bool,
    title: Seq<char>,
)
    ensures
        forall|n: int| #[trigger]
            thread_entry(f, id, n) ==> {
                &&& update_first(f.threads, thread_is(id), with_lock(flag)) == f.threads.update(
                    n,
                    ThreadRow { locked: flag, ..f.threads[n] },
                )
                &&& update_first(f.threads, thread_is(id), with_pin(flag)) == f.threads.update(
                    n,
                    ThreadRow { pinned: flag, ..f.threads[n] },
                )
                &&& update_first(f.threads, thread_is(id), retitled(title)) == f.threads.update(
                    n,
                    ThreadRow { title, ..f.threads[n] },
                )
            },
        (forall|n: int| !#[trigger] thread_entry(f, id, n)) ==> update_first(
            f.threads,
            thread_is(id),
            with_lock(flag),
        ) == f.threads && update_first(f.threads, thread_is(id), with_pin(flag)) == f.threads,
{
    lemma_thread_entry(f, id);
    if first_index(f.threads, thread_is(id)) is Some {
        assert(thread_entry(f, id, first_index(f.threads, thread_is(id))->0));
    }
}

/// The post with an identifier stands at the first entry that names it.
pub proof fn lemma_post_named(f: Forum, id: Seq<char>)
    ensures
        match first_index(f.posts, post_is(id)) {
            Some(p) => post_named(f, id, p),
            None => forall|p: int| !#[trigger] post_named(f, id, p),
        },
        forall|p: int| #[trigger]
            post_named(f, id, p) ==> first_index(f.posts, post_is(id)) == Some(p),
{
    let which = post_is(id);
    lemma_first_index(f.posts, which);
    match first_index(f.posts, which) {
        Some(p) => {
            assert(which(f.posts[p]));
            assert forall|j: int| 0 <= j < p implies (#[trigger] f.posts[j]).id != id by {
                assert(!which(f.posts[j]));
            }
        },
        None => {
            assert forall|p: int| !#[trigger] post_named(f, id, p) by {
                if post_named(f, id, p) {
                    assert(which(f.posts[p]));
                }
            }
        },
    }
    assert forall|p: int| #[trigger] post_named(f, id, p) implies first_index(f.posts, which)
        == Some(p) by {
        assert(which(f.posts[p]));
        assert forall|j: int| 0 <= j < p implies !which(#[trigger] f.posts[j]) by {}
        lemma_first_index_unique(f.posts, which, p);
    }
}

/// Editing a post changes its body and nothing else of it.
pub proof fn law_rewriting_changes_one_post(f: Forum, id: Seq<char>, body_md: Seq<char>, p: int)
    requires
        post_named(f, id, p),
    ensures
        update_first(f.posts, post_is(id), rewritten(body_md)) == f.posts.update(
            p,
            PostRow { body_md, ..f.posts[p] },
        ),
{
    lemma_post_named(f, id);
}

/// A thread is edited together with its original post; an edit that names another post as the
/// original one is refused.
pub proof fn law_thread_is_edited(
    f: Forum,
    thread_id: Seq<char>,
    title: Seq<char>,
    op_post_id: Seq<char>,
    body_md: Seq<char>,
)
    ensures
        ({
            let (g, r) = thread_update(f, thread_id, title, op_post_id, body_md);
            &&& r is Ok <==> forall|o: int| #[trigger]
                opening_entry(f, thread_id, o) ==> f.original_posts[o].post_id == op_post_id
            &&& r is Err ==> g == f
            &&& r is Ok ==> {
                &&& forall|n: int| #[trigger]
                    thread_entry(f, thread_id, n) ==> g.threads == f.threads.update(
                        n,
                        ThreadRow { title, ..f.threads[n] },
                    )
                &&& forall|p: int| #[trigger]
                    post_named(f, op_post_id, p) ==> g.posts == f.posts.update(
                        p,
                        PostRow { body_md, ..f.posts[p] },
                    )
                &&& g == (Forum { threads: g.threads, posts: g.posts, ..f })
            }
        }),
{
    lemma_opening_entry(f, thread_id);
    lemma_thread_entry(f, thread_id);
    lemma_post_named(f, op_post_id);
}

// ---------------------------------------------------------------------------
// Deleting and moving.
// ---------------------------------------------------------------------------

/// Whether an event with an identifier is of a thread.
pub open spec fn event_of_thread(f: Forum, id: Seq<char>, thread_id: Seq<char>) -> bool {
    exists|e: int|
        0 <= e < f.activity_events.len() && (#[trigger] f.activity_events[e]).id == id
            && f.activity_events[e].thread_id == thread_id
}

/// Whether an event with an identifier is about a post.
pub open spec fn event_of_post(f: Forum, id: Seq<char>, post_id: Seq<char>) -> bool {
    exists|e: int|
        0 <= e < f.activity_events.len() && (#[trigger] f.activity_events[e]).id == id
            && f.activity_events[e].post_id == post_id
}

pub proof fn lemma_event_of(f: Forum, id: Seq<char>, other: Seq<char>)
    ensures
        some_row(f.activity_events, event_is_in(id, other)) <==> event_of_thread(f, id, other),
        some_row(f.activity_events, event_is_on(id, other)) <==> event_of_post(f, id, other),
{
    let events = f.activity_events;
    if event_of_thread(f, id, other) {
        let e = choose|e: int|
            0 <= e < events.len() && (#[trigger] events[e]).id == id && events[e].thread_id == other;
        assert(event_is_in(id, other)(events[e]));
    }
    if event_of_post(f, id, other) {
        let e = choose|e: int|
            0 <= e < events.len() && (#[trigger] events[e]).id == id && events[e].post_id == other;
        assert(event_is_on(id, other)(events[e]));
    }
    if some_row(events, event_is_in(id, other)) {
        let e = choose|e: int| 0 <= e < events.len() && event_is_in(id, other)(#[trigger] events[e]);
        assert(events[e].id == id);
    }
    if some_row(events, event_is_on(id, other)) {
        let e = choose|e: int| 0 <= e < events.len() && event_is_on(id, other)(#[trigger] events[e]);
        assert(events[e].id == id);
    }
}

/// With a thread goes everything that belongs to it: its posts, what was saved of them, reacted to
/// them or read of them, its mentions, relationships, activity and place in the catch-up record.
/// Everything else stays in its order.
pub proof fn law_thread_goes_whole(f: Forum, id: Seq<char>)
    ensures
        ({
            let g = without_thread(f, id);
            &&& g.threads == f.threads.filter(|t: ThreadRow| t.id != id)
            &&& g.posts == f.posts.filter(|p: PostRow| p.thread_id != id)
            &&& g.original_posts == f.original_posts.filter(
                |o: OriginalPostRow| o.thread_id != id,
            )
            &&& g.bookmarks == f.bookmarks.filter(|b: BookmarkRow| !holds_post(f, id, b.post_id))
            &&& g.reactions == f.reactions.filter(|r: ReactionRow| !holds_post(f, id, r.post_id))
            &&& g.read_receipts == f.read_receipts.filter(
                |r: ReadReceiptRow| !holds_post(f, id, r.post_id),
            )
            &&& g.mentions == f.mentions.filter(|m: MentionRow| m.thread_id != id)
            &&& g.subscriptions == f.subscriptions.filter(
                |s: ThreadSubscriptionRow| s.thread_id != id,
            )
            &&& g.post_points == f.post_points.filter(|p: CatchUpPostPointRow| p.thread_id != id)
            &&& g.activity_events == f.activity_events.filter(
                |e: ActivityEventRow| e.thread_id != id,
            )
            &&& g.activity_deliveries == f.activity_deliveries.filter(
                |d: StoredActivityDeliveryRow| !event_of_thread(f, d.activity_id, id),
            )
            &&& g.activity_receipts == f.activity_receipts.filter(
                |r: ActivityReceiptRow| !event_of_thread(f, r.activity_id, id),
            )
            &&& g.categories == f.categories && g.banned == f.banned && g.category_focus_rules
                == f.category_focus_rules && g.generation == f.generation && g.identity_aliases
                == f.identity_aliases
        }),
{
    assert forall|p: Seq<char>| some_row(f.posts, #[trigger] post_is_in(p, id)) == holds_post(
        f,
        id,
        p,
    ) by {
        lemma_holds_post(f, id, p);
    }
    assert forall|e: Seq<char>|
        some_row(f.activity_events, #[trigger] event_is_in(e, id)) == event_of_thread(f, e, id) by {
        lemma_event_of(f, e, id);
    }
    assert((|t: ThreadRow| t.id != id) =~= thread_is_not(id));
    assert((|p: PostRow| p.thread_id != id) =~= post_not_in(id));
    assert((|o: OriginalPostRow| o.thread_id != id) =~= original_is_not(id));
    assert((|b: BookmarkRow| !holds_post(f, id, b.post_id)) =~= bookmark_outside(f.posts, id));
    assert((|r: ReactionRow| !holds_post(f, id, r.post_id)) =~= reaction_outside(f.posts, id));
    assert((|r: ReadReceiptRow| !holds_post(f, id, r.post_id)) =~= receipt_outside(f.posts, id));
    assert((|m: MentionRow| m.thread_id != id) =~= mention_not_in(id));
    assert((|s: ThreadSubscriptionRow| s.thread_id != id) =~= subscription_not_to(id));
    assert((|p: CatchUpPostPointRow| p.thread_id != id) =~= point_not_in(id));
    assert((|e: ActivityEventRow| e.thread_id != id) =~= event_not_in(id));
    assert((|d: StoredActivityDeliveryRow| !event_of_thread(f, d.activity_id, id))
        =~= delivery_outside(f.activity_events, id));
    assert((|r: ActivityReceiptRow| !event_of_thread(f, r.activity_id, id))
        =~= activity_receipt_outside(f.activity_events, id));
}

proof fn lemma_newest_at(posts: Seq<PostRow>, thread_id: Seq<char>)
    ensures
        match newest_at(posts, thread_id) {
            None => forall|p: int|
                0 <= p < posts.len() ==> (#[trigger] posts[p]).thread_id != thread_id,
            Some(at) => (exists|p: int|
                0 <= p < posts.len() && (#[trigger] posts[p]).thread_id == thread_id
                    && posts[p].created_at == at) && (forall|p: int|
                0 <= p < posts.len() && (#[trigger] posts[p]).thread_id == thread_id
                    ==> posts[p].created_at <= at),
        },
    decreases posts.len(),
{
    if posts.len() > 0 {
        let d = posts.drop_last();
        lemma_newest_at(d, thread_id);
        assert forall|p: int| 0 <= p < d.len() implies posts[p] == #[trigger] d[p] by {}
        match newest_at(d, thread_id) {
            None => {
                assert forall|p: int| 0 <= p < d.len() implies (#[trigger] posts[p]).thread_id
                    != thread_id by {
                    assert(d[p].thread_id != thread_id);
                }
            },
            Some(at) => {
                let p = choose|p: int|
                    0 <= p < d.len() && (#[trigger] d[p]).thread_id == thread_id && d[p].created_at
                        == at;
                assert(posts[p].thread_id == thread_id);
                assert forall|q: int|
                    0 <= q < d.len() && (#[trigger] posts[q]).thread_id == thread_id implies posts[q].created_at
                    <= at by {
                    assert(d[q].thread_id == thread_id);
                }
            },
        }
        assert(posts[posts.len() - 1] == posts.last());
    }
}

/// With a reply goes what belongs to it: what was saved, reacted to or read of it, its mentions and
/// its activity. Whoever quoted it quotes nothing, a thread that accepted it has no answer, and the
/// thread was last active when its newest remaining post was written.
pub proof fn law_reply_goes_whole(f: Forum, id: Seq<char>, thread_id: Seq<char>, n: int)
    requires
        thread_entry(f, thread_id, n),
    ensures
        ({
            let g = without_post(f, id, thread_id);
            let t = f.threads[n];
            &&& forall|p: PostRow| #[trigger]
                g.posts.contains(p) <==> p.id != id && exists|i: int|
                    0 <= i < f.posts.len() && p == (PostRow {
                        quoted_post_id: if f.posts[i].quoted_post_id == id {
                            Seq::empty()
                        } else {
                            f.posts[i].quoted_post_id
                        },
                        ..#[trigger] f.posts[i]
                    })
            &&& g.threads == f.threads.update(n, g.threads[n])
            &&& g.threads[n] == (ThreadRow {
                accepted_post_id: g.threads[n].accepted_post_id,
                last_at: g.threads[n].last_at,
                ..t
            })
            &&& g.threads[n].accepted_post_id == (if t.accepted_post_id == id || (exists|o: int|
                #[trigger]
                opening_entry(f, thread_id, o) && f.original_posts[o].post_id
                    == t.accepted_post_id) {
                Seq::empty()
            } else {
                t.accepted_post_id
            })
            &&& forall|p: int|
                0 <= p < f.posts.len() && (#[trigger] f.posts[p]).thread_id == thread_id
                    && f.posts[p].id != id ==> f.posts[p].created_at <= g.threads[n].last_at
            &&& (exists|p: int|
                0 <= p < f.posts.len() && (#[trigger] f.posts[p]).thread_id == thread_id
                    && f.posts[p].id != id && f.posts[p].created_at == g.threads[n].last_at) || (
            g.threads[n].last_at == t.created_at && forall|p: int|
                0 <= p < f.posts.len() && (#[trigger] f.posts[p]).thread_id == thread_id
                    ==> f.posts[p].id == id)
            &&& g.bookmarks == f.bookmarks.filter(|b: BookmarkRow| b.post_id != id)
            &&& g.reactions == f.reactions.filter(|r: ReactionRow| r.post_id != id)
            &&& g.read_receipts == f.read_receipts.filter(|r: ReadReceiptRow| r.post_id != id)
            &&& g.mentions == f.mentions.filter(|m: MentionRow| m.post_id != id)
            &&& g.activity_events == f.activity_events.filter(
                |e: ActivityEventRow| e.post_id != id,
            )
            &&& g.activity_deliveries == f.activity_deliveries.filter(
                |d: StoredActivityDeliveryRow| !event_of_post(f, d.activity_id, id),
            )
            &&& g.activity_receipts == f.activity_receipts.filter(
                |r: ActivityReceiptRow| !event_of_post(f, r.activity_id, id),
            )
            &&& g.categories == f.categories && g.banned == f.banned && g.category_focus_rules
                == f.category_focus_rules && g.generation == f.generation && g.identity_aliases
                == f.identity_aliases && g.post_points == f.post_points && g.subscriptions
                == f.subscriptions && g.original_posts == f.original_posts
        }),
{
    let g = without_post(f, id, thread_id);
    let t = f.threads[n];
    let mapped = f.posts.map_values(unquoted(id));
    lemma_thread_entry(f, thread_id);
    lemma_opening_entry(f, thread_id);
    lemma_filter_contains(mapped, post_is_not(id));
    assert forall|p: PostRow| #[trigger]
        g.posts.contains(p) <==> p.id != id && exists|i: int|
            0 <= i < f.posts.len() && p == (PostRow {
                quoted_post_id: if f.posts[i].quoted_post_id == id {
                    Seq::empty()
                } else {
                    f.posts[i].quoted_post_id
                },
                ..#[trigger] f.posts[i]
            }) by {
        if mapped.contains(p) {
            let i = choose|i: int| 0 <= i < mapped.len() && mapped[i] == p;
            assert(p == unquoted(id)(f.posts[i]));
            assert(f.posts[i].id == p.id);
        }
        if exists|i: int|
            0 <= i < f.posts.len() && p == (PostRow {
                quoted_post_id: if f.posts[i].quoted_post_id == id {
                    Seq::empty()
                } else {
                    f.posts[i].quoted_post_id
                },
                ..#[trigger] f.posts[i]
            }) {
            let i = choose|i: int|
                0 <= i < f.posts.len() && p == (PostRow {
                    quoted_post_id: if f.posts[i].quoted_post_id == id {
                        Seq::empty()
                    } else {
                        f.posts[i].quoted_post_id
                    },
                    ..#[trigger] f.posts[i]
                });
            assert(mapped[i] == p);
        }
    }
    lemma_newest_at(g.posts, thread_id);
    assert forall|p: int|
        0 <= p < f.posts.len() && (#[trigger] f.posts[p]).thread_id == thread_id && f.posts[p].id
            != id implies exists|k: int|
        0 <= k < g.posts.len() && (#[trigger] g.posts[k]).thread_id == thread_id
            && g.posts[k].created_at == f.posts[p].created_at by {
        assert(mapped[p] == unquoted(id)(f.posts[p]));
        assert(mapped.contains(mapped[p]));
        assert(g.posts.contains(mapped[p]));
        let k = choose|k: int| 0 <= k < g.posts.len() && g.posts[k] == mapped[p];
        assert(g.posts[k].thread_id == thread_id);
    }
    match newest_at(g.posts, thread_id) {
        Some(at) => {
            let k = choose|k: int|
                0 <= k < g.posts.len() && (#[trigger] g.posts[k]).thread_id == thread_id
                    && g.posts[k].created_at == at;
            assert(g.posts.contains(g.posts[k]));
            assert(mapped.contains(g.posts[k]));
            let i = choose|i: int| 0 <= i < mapped.len() && mapped[i] == g.posts[k];
            assert(mapped[i] == unquoted(id)(f.posts[i]));
            assert(f.posts[i].thread_id == thread_id && f.posts[i].id != id);
        },
        None => {},
    }
    assert forall|e: Seq<char>|
        some_row(f.activity_events, #[trigger] event_is_on(e, id)) == event_of_post(f, e, id) by {
        lemma_event_of(f, e, id);
    }
    assert((|b: BookmarkRow| b.post_id != id) =~= bookmark_not_on(id));
    assert((|r: ReactionRow| r.post_id != id) =~= reaction_not_to(id));
    assert((|r: ReadReceiptRow| r.post_id != id) =~= receipt_not_for(id));
    assert((|m: MentionRow| m.post_id != id) =~= mention_not_by(id));
    assert((|e: ActivityEventRow| e.post_id != id) =~= event_not_on(id));
    assert((|d: StoredActivityDeliveryRow| !event_of_post(f, d.activity_id, id))
        =~= delivery_not_on(f.activity_events, id));
    assert((|r: ActivityReceiptRow| !event_of_post(f, r.activity_id, id))
        =~= activity_receipt_not_on(f.activity_events, id));
}

/// A reply is deleted when its thread exists and was not opened with it; deleting what is not there
/// changes nothing.
pub proof fn law_reply_is_deleted(f: Forum, id: Seq<char>)
    ensures
        ({
            let (g, r) = post_deletion(f, id);
            &&& (forall|p: int| !#[trigger] post_named(f, id, p)) ==> r is Ok && g == f
            &&& forall|p: int| #[trigger]
                post_named(f, id, p) ==> {
                    let thread_id = f.posts[p].thread_id;
                    let opened = exists|o: int| #[trigger]
                        opening_entry(f, thread_id, o) && f.original_posts[o].post_id == id;
                    let exists_thread = exists|n: int| #[trigger] thread_entry(f, thread_id, n);
                    &&& r is Ok <==> exists_thread && !opened
                    &&& r is Ok ==> g == without_post(f, id, thread_id)
                }
            &&& r is Err ==> g == f
        }),
{
    lemma_post_named(f, id);
    if first_index(f.posts, post_is(id)) is Some {
        let p = first_index(f.posts, post_is(id))->0;
        let thread_id = f.posts[p].thread_id;
        assert(post_named(f, id, p));
        lemma_opening_entry(f, thread_id);
        lemma_thread_entry(f, thread_id);
        lemma_first_index(f.threads, thread_is(thread_id));
    }
}

/// A thread moves to a category that exists, out of one that exists; a thread with an answer moves
/// to question categories only. Nothing but its category changes, and a pointer to no answer is
/// dropped.
pub proof fn law_thread_moves(f: Forum, thread_id: Seq<char>, category_id: Seq<char>, n: int)
    requires
        thread_entry(f, thread_id, n),
    ensures
        ({
            let (g, r) = thread_move(f, thread_id, category_id);
            let t = f.threads[n];
            &&& r is Ok <==> category_exists(f, t.category_id) && exists|c: int| #[trigger]
                category_entry(f, category_id, c) && (t.category_id == category_id
                    || !names_an_answer(f, t) || f.categories[c].format is Question)
            &&& r is Err ==> g == f
            &&& r is Ok ==> g == (Forum {
                threads: f.threads.update(
                    n,
                    ThreadRow {
                        category_id,
                        accepted_post_id: if names_an_answer(f, t) {
                            t.accepted_post_id
                        } else {
                            Seq::empty()
                        },
                        ..t
                    },
                ),
                ..f
            })
        }),
{
    let t = f.threads[n];
    lemma_thread_entry(f, thread_id);
    lemma_category_exists(f, t.category_id);
    lemma_names_an_answer(f, t);
    let which = category_is(category_id);
    lemma_first_index(f.categories, which);
    match first_index(f.categories, which) {
        Some(c) => {
            assert(which(f.categories[c]));
            assert forall|j: int| 0 <= j < c implies (#[trigger] f.categories[j]).id
                != category_id by {
                assert(!which(f.categories[j]));
            }
            assert(category_entry(f, category_id, c));
        },
        None => {},
    }
    assert forall|c: int| #[trigger] category_entry(f, category_id, c) implies first_row(
        f.categories,
        which,
    ) == Some(f.categories[c]) by {
        lemma_category_entry(f, category_id, c);
    }
}

// ---------------------------------------------------------------------------
// Answers.
// ---------------------------------------------------------------------------

/// A reply of the thread, other than the one it was opened with, is accepted in a question
/// category. The thread then points at it; the result says whether that is news.
pub proof fn law_answer_is_accepted(
    f: Forum,
    thread_id: Seq<char>,
    action: AcceptedAnswerAction,
    n: int,
    c: int,
)
    requires
        thread_entry(f, thread_id, n),
        category_entry(f, f.threads[n].category_id, c),
    ensures
        ({
            let (g, r) = answer_mutation(f, thread_id, action);
            let t = f.threads[n];
            let next = match action {
                AcceptedAnswerAction::Clear => Seq::empty(),
                AcceptedAnswerAction::Accept { post_id } => trim_text(post_id@),
            };
            &&& r is Ok <==> action is Clear || (f.categories[c].format is Question && next.len()
                > 0 && holds_post(f, thread_id, next) && !exists|o: int| #[trigger]
                opening_entry(f, thread_id, o) && f.original_posts[o].post_id == next)
            &&& r is Err ==> g == f
            &&& r is Ok ==> {
                &&& g == (Forum {
                    threads: f.threads.update(n, ThreadRow { accepted_post_id: next, ..t }),
                    ..f
                })
                &&& r->Ok_0.thread == g.threads[n]
                &&& r->Ok_0.changed == (t.accepted_post_id != next)
                &&& action is Clear ==> r->Ok_0.accepted_post is None
                &&& action is Accept ==> r->Ok_0.accepted_post is Some && f.posts.contains(
                    r->Ok_0.accepted_post->0,
                ) && r->Ok_0.accepted_post->0.id == next && r->Ok_0.accepted_post->0.thread_id
                    == thread_id
            }
        }),
{
    lemma_thread_entry(f, thread_id);
    lemma_category_entry(f, f.threads[n].category_id, c);
    lemma_opening_entry(f, thread_id);
    if let AcceptedAnswerAction::Accept { post_id } = action {
        let next = trim_text(post_id@);
        lemma_holds_post(f, thread_id, next);
        lemma_first_index(f.posts, post_is_in(next, thread_id));
        if let Some(p) = first_index(f.posts, post_is_in(next, thread_id)) {
            assert(post_is_in(next, thread_id)(f.posts[p]));
        }
    }
}

} // verus!
