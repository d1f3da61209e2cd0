//! Who is told of what: the recipients of a reply, of a new thread and of an accepted answer, and
//! what a viewer's activity shows of it.

use vstd::prelude::*;

use crate::laws::holding::{lemma_collected_holds, lemma_first_row_is};
use crate::laws::order::law_ordered_set;
use crate::laws::pages::lemma_collected_sources;
use crate::model::{
    ActivityDeliveryRow, ActivityEventRow, ActivityKind, ActivityReason, ActivityRecipientKind,
    Mention, PostRow, ThreadRow,
};
use crate::rows::{
    collected, deduped, first_index, first_row, lemma_deduped, lemma_first_index,
    lemma_push_contains, some_row,
};
use crate::store::answers::{
    answer_deliveries, answer_event, answer_mutation, answer_mutation_with_activity,
};
use crate::store::memory::Forum;
use crate::store::posting::{
    alias_of_other, alias_pair, alias_row, as_list, mention_delivery, mention_not_by, mention_rows,
    post_event, quote_delivery, reply_addition_with_activity, stored_delivery,
    thread_creation_with_activity, watch_delivery, with_activity, with_alias, with_point,
    with_reply, with_thread,
};
use crate::store::rules::{alias_list, alias_of, delivery_to, normal_alias, recipients};
use crate::store::tables::{post_is_in, thread_is};
use crate::store::types::{AcceptedAnswerAction, StoredActivityDeliveryRow};
use crate::text::trim_text;
use crate::texts::ordered_set;

verus! {

// ---------------------------------------------------------------------------
// The words in which telling is described.
// ---------------------------------------------------------------------------

/// Whether a subject can be told of what an actor did: it has a name, and is not the actor.
pub open spec fn reachable(subject: Seq<char>, actor_sub: Seq<char>) -> bool {
    trim_text(subject).len() > 0 && trim_text(subject) != actor_sub
}

/// The notice of an event to a subject.
pub open spec fn notice(
    activity_id: Seq<char>,
    subject: Seq<char>,
    reason: ActivityReason,
) -> StoredActivityDeliveryRow {
    StoredActivityDeliveryRow {
        activity_id,
        delivery: ActivityDeliveryRow {
            recipient_kind: ActivityRecipientKind::Subject,
            recipient_key: trim_text(subject),
            reason,
        },
    }
}

/// Whether a subject goes by an alias, once the author of a post has been seen.
pub open spec fn goes_by(f: Forum, author: PostRow, alias: Seq<char>, subject: Seq<char>) -> bool {
    ||| exists|i: int|
        0 <= i < f.identity_aliases.len() && (#[trigger] f.identity_aliases[i]).alias == alias
            && f.identity_aliases[i].subject == subject
    ||| alias_of(author.author_sub, author.author_email) == Some(alias) && subject
        == author.author_sub
}

/// Whether an alias means a subject: nobody else goes by it.
pub open spec fn means(f: Forum, author: PostRow, alias: Seq<char>, subject: Seq<char>) -> bool {
    &&& goes_by(f, author, alias, subject)
    &&& forall|other: Seq<char>| #[trigger] goes_by(f, author, alias, other) ==> other == subject
}

/// Whether a text among those written as mentions is an alias of the subject's own.
pub open spec fn mentions_subject(
    f: Forum,
    author: PostRow,
    mentioned: Seq<Seq<char>>,
    m: int,
    subject: Seq<char>,
) -> bool {
    &&& 0 <= m < mentioned.len()
    &&& normal_alias(mentioned[m]) is Some
    &&& means(f, author, normal_alias(mentioned[m])->0, subject)
}

/// Whether the thread at `n` is the one with the identifier: the first.
pub open spec fn thread_entry(f: Forum, id: Seq<char>, n: int) -> bool {
    &&& 0 <= n < f.threads.len()
    &&& f.threads[n].id == id
    &&& forall|j: int| 0 <= j < n ==> (#[trigger] f.threads[j]).id != id
}

/// Whether the post at `n` is the one of a thread with the identifier: the first.
pub open spec fn post_entry(f: Forum, id: Seq<char>, thread_id: Seq<char>, n: int) -> bool {
    &&& 0 <= n < f.posts.len()
    &&& f.posts[n].id == id && f.posts[n].thread_id == thread_id
    &&& forall|j: int|
        0 <= j < n ==> (#[trigger] f.posts[j]).id != id || f.posts[j].thread_id != thread_id
}

/// Whether the relationship at `i` watches a thread.
pub open spec fn watcher(f: Forum, thread_id: Seq<char>, i: int) -> bool {
    &&& 0 <= i < f.subscriptions.len()
    &&& f.subscriptions[i].thread_id == thread_id
    &&& f.subscriptions[i].level is Watch
}

/// Whether somebody is owed a notice of a reply for a reason.
pub open spec fn reply_owed(
    f: Forum,
    post: PostRow,
    mentioned: Seq<Seq<char>>,
    subject: Seq<char>,
    reason: ActivityReason,
) -> bool {
    &&& reachable(subject, post.author_sub)
    &&& match reason {
        ActivityReason::Reply => {
            ||| exists|n: int| #[trigger]
                thread_entry(f, post.thread_id, n) && f.threads[n].author_sub == subject
            ||| post.quoted_post_id.len() > 0 && exists|n: int| #[trigger]
                post_entry(f, post.quoted_post_id, post.thread_id, n) && f.posts[n].author_sub
                    == subject
        },
        ActivityReason::Following => exists|i: int| #[trigger]
            watcher(f, post.thread_id, i) && f.subscriptions[i].subscriber_sub == subject,
        ActivityReason::Mention => exists|m: int| #[trigger]
            mentions_subject(f, post, mentioned, m, subject),
        ActivityReason::Answer => false,
    }
}

/// Whether somebody is owed a notice of a new thread for a reason.
pub open spec fn opening_owed(
    f: Forum,
    first_post: PostRow,
    mentioned: Seq<Seq<char>>,
    subject: Seq<char>,
    reason: ActivityReason,
) -> bool {
    &&& reachable(subject, first_post.author_sub)
    &&& reason is Mention
    &&& exists|m: int| #[trigger] mentions_subject(f, first_post, mentioned, m, subject)
}

/// Whether the notices of an event were added: behind the ones that stood before, exactly those
/// that are owed, none twice, and the event with them where there is one.
pub open spec fn noticed(
    before: Forum,
    after: Forum,
    event: ActivityEventRow,
    owed: spec_fn(Seq<char>, ActivityReason) -> bool,
    subjects: Seq<Seq<char>>,
) -> bool {
    let old_len = before.activity_deliveries.len() as int;
    let rows = after.activity_deliveries;
    &&& old_len <= rows.len()
    &&& rows.take(old_len) == before.activity_deliveries
    &&& forall|subject: Seq<char>, reason: ActivityReason| #[trigger]
        owed(subject, reason) ==> exists|k: int|
            old_len <= k < rows.len() && #[trigger] rows[k] == notice(event.id, subject, reason)
    &&& forall|k: int|
        old_len <= k < rows.len() ==> exists|subject: Seq<char>| #[trigger]
            owed(subject, rows[k].delivery.reason) && #[trigger] rows[k] == notice(
                event.id,
                subject,
                rows[k].delivery.reason,
            )
    &&& forall|k: int, l: int|
        old_len <= k < l < rows.len() ==> #[trigger] rows[k] != #[trigger] rows[l]
    &&& after.activity_events == (if rows.len() == old_len {
        before.activity_events
    } else {
        before.activity_events.push(event)
    })
    &&& forall|key: Seq<char>| #[trigger]
        subjects.contains(key) <==> exists|k: int|
            old_len <= k < rows.len() && (#[trigger] rows[k]).delivery.recipient_key == key
}

// ---------------------------------------------------------------------------
// Who is told.
// ---------------------------------------------------------------------------

/// Every normal form of a written alias is listed.
pub proof fn lemma_alias_list(raw: Seq<Seq<char>>)
    ensures
        forall|a: Seq<char>| #[trigger]
            alias_list(raw).contains(a) <==> exists|m: int|
                0 <= m < raw.len() && normal_alias(#[trigger] raw[m]) == Some(a),
    decreases raw.len(),
{
    if raw.len() > 0 {
        let d = raw.drop_last();
        lemma_alias_list(d);
        assert forall|a: Seq<char>| #[trigger]
            alias_list(raw).contains(a) <==> exists|m: int|
                0 <= m < raw.len() && normal_alias(#[trigger] raw[m]) == Some(a) by {
            if let Some(last) = normal_alias(raw.last()) {
                lemma_push_contains(alias_list(d), last, a);
            }
            if alias_list(d).contains(a) {
                let m = choose|m: int|
                    0 <= m < d.len() && normal_alias(#[trigger] d[m]) == Some(a);
                assert(raw[m] == d[m]);
            }
            if exists|m: int| 0 <= m < raw.len() && normal_alias(#[trigger] raw[m]) == Some(a) {
                let m = choose|m: int|
                    0 <= m < raw.len() && normal_alias(#[trigger] raw[m]) == Some(a);
                if m < d.len() {
                    assert(d[m] == raw[m]);
                    assert(alias_list(d).contains(a));
                }
            }
        }
    }
}

/// What is known of the aliases after an author has been seen.
pub proof fn lemma_goes_by(f: Forum, author: PostRow, alias: Seq<char>, subject: Seq<char>)
    ensures
        goes_by(f, author, alias, subject) <==> some_row(
            with_alias(f, author.author_sub, author.author_email, author.created_at).identity_aliases,
            alias_pair(alias, subject),
        ),
{
    let rows = with_alias(f, author.author_sub, author.author_email, author.created_at)
        .identity_aliases;
    let pair = alias_pair(alias, subject);
    if goes_by(f, author, alias, subject) {
        if exists|i: int|
            0 <= i < f.identity_aliases.len() && (#[trigger] f.identity_aliases[i]).alias == alias
                && f.identity_aliases[i].subject == subject {
            let i = choose|i: int|
                0 <= i < f.identity_aliases.len() && (#[trigger] f.identity_aliases[i]).alias
                    == alias && f.identity_aliases[i].subject == subject;
            assert(rows[i] == f.identity_aliases[i]);
            assert(pair(rows[i]));
        } else {
            if !some_row(f.identity_aliases, pair) {
                assert(pair(rows.last()));
            }
        }
    }
    if some_row(rows, pair) {
        let i = choose|i: int| 0 <= i < rows.len() && pair(#[trigger] rows[i]);
        if i < f.identity_aliases.len() {
            assert(rows[i] == f.identity_aliases[i]);
        }
    }
}

/// The delivery of a mention goes to the subject that the alias means, and to nobody else.
proof fn lemma_means(f: Forum, author: PostRow, alias: Seq<char>)
    ensures
        ({
            let rows = with_alias(f, author.author_sub, author.author_email, author.created_at)
                .identity_aliases;
            let d = mention_delivery(rows, author.author_sub)(alias);
            &&& forall|subject: Seq<char>| #[trigger]
                means(f, author, alias, subject) ==> d == delivery_to(
                    subject,
                    author.author_sub,
                    ActivityReason::Mention,
                )
            &&& d is Some ==> exists|subject: Seq<char>| #[trigger]
                means(f, author, alias, subject) && d == delivery_to(
                    subject,
                    author.author_sub,
                    ActivityReason::Mention,
                )
        }),
{
    let rows = with_alias(f, author.author_sub, author.author_email, author.created_at)
        .identity_aliases;
    let d = mention_delivery(rows, author.author_sub)(alias);
    let named = alias_row(alias);
    lemma_first_index(rows, named);
    if first_row(rows, named) is Some {
        let k = first_index(rows, named)->0;
        let s = rows[k].subject;
        assert(named(rows[k]));
        assert(alias_pair(alias, s)(rows[k]));
        lemma_goes_by(f, author, alias, s);
        assert(goes_by(f, author, alias, s));
        if some_row(rows, alias_of_other(alias, s)) {
            let j = choose|j: int| 0 <= j < rows.len() && alias_of_other(alias, s)(#[trigger] rows[j]);
            assert(alias_pair(alias, rows[j].subject)(rows[j]));
            lemma_goes_by(f, author, alias, rows[j].subject);
        } else {
            assert forall|other: Seq<char>| #[trigger] goes_by(f, author, alias, other) implies other
                == s by {
                lemma_goes_by(f, author, alias, other);
                let j = choose|j: int|
                    0 <= j < rows.len() && alias_pair(alias, other)(#[trigger] rows[j]);
                if other != s {
                    assert(alias_of_other(alias, s)(rows[j]));
                }
            }
            assert(means(f, author, alias, s));
        }
    } else {
        assert forall|subject: Seq<char>| !#[trigger] means(f, author, alias, subject) by {
            if means(f, author, alias, subject) {
                lemma_goes_by(f, author, alias, subject);
                let j = choose|j: int|
                    0 <= j < rows.len() && alias_pair(alias, subject)(#[trigger] rows[j]);
                assert(named(rows[j]));
            }
        }
    }
}

/// The deliveries of mentions are those that are owed.
proof fn lemma_mention_deliveries(f: Forum, author: PostRow, mentioned: Seq<Seq<char>>)
    ensures
        ({
            let rows = with_alias(f, author.author_sub, author.author_email, author.created_at)
                .identity_aliases;
            let made = collected(
                alias_list(mentioned),
                mention_delivery(rows, author.author_sub),
            );
            &&& forall|subject: Seq<char>, m: int| #[trigger]
                mentions_subject(f, author, mentioned, m, subject) && reachable(
                    subject,
                    author.author_sub,
                ) ==> made.contains(notice(Seq::empty(), subject, ActivityReason::Mention).delivery)
            &&& forall|d: ActivityDeliveryRow| #[trigger]
                made.contains(d) ==> exists|subject: Seq<char>, m: int| #[trigger]
                    mentions_subject(f, author, mentioned, m, subject) && reachable(
                        subject,
                        author.author_sub,
                    ) && d == notice(Seq::empty(), subject, ActivityReason::Mention).delivery
        }),
{
    let rows = with_alias(f, author.author_sub, author.author_email, author.created_at)
        .identity_aliases;
    let list = alias_list(mentioned);
    let g = mention_delivery(rows, author.author_sub);
    let made = collected(list, g);
    lemma_alias_list(mentioned);
    assert forall|subject: Seq<char>, m: int| #[trigger]
        mentions_subject(f, author, mentioned, m, subject) && reachable(
            subject,
            author.author_sub,
        ) implies made.contains(
        notice(Seq::empty(), subject, ActivityReason::Mention).delivery,
    ) by {
        let alias = normal_alias(mentioned[m])->0;
        assert(list.contains(alias));
        let i = choose|i: int| 0 <= i < list.len() && list[i] == alias;
        lemma_means(f, author, alias);
        lemma_collected_holds(list, g, i);
    }
    assert forall|d: ActivityDeliveryRow| #[trigger] made.contains(d) implies exists|
        subject: Seq<char>,
        m: int,
    | #[trigger]
        mentions_subject(f, author, mentioned, m, subject) && reachable(subject, author.author_sub)
            && d == notice(Seq::empty(), subject, ActivityReason::Mention).delivery by {
        let k = choose|k: int| 0 <= k < made.len() && made[k] == d;
        let sources = lemma_collected_sources(list, g);
        let alias = list[sources[k]];
        assert(list.contains(alias));
        let m = choose|m: int|
            0 <= m < mentioned.len() && normal_alias(#[trigger] mentioned[m]) == Some(alias);
        lemma_means(f, author, alias);
        let subject = choose|subject: Seq<char>| #[trigger]
            means(f, author, alias, subject) && g(alias) == delivery_to(
                subject,
                author.author_sub,
                ActivityReason::Mention,
            );
        assert(mentions_subject(f, author, mentioned, m, subject));
    }
}

/// What is recorded of an event with the owed deliveries.
proof fn lemma_noticed(
    before: Forum,
    base: Forum,
    event: ActivityEventRow,
    all: Seq<ActivityDeliveryRow>,
    owed: spec_fn(Seq<char>, ActivityReason) -> bool,
)
    requires
        base.activity_deliveries == before.activity_deliveries,
        base.activity_events == before.activity_events,
        forall|subject: Seq<char>, reason: ActivityReason| #[trigger]
            owed(subject, reason) ==> all.contains(notice(event.id, subject, reason).delivery),
        forall|d: ActivityDeliveryRow| #[trigger]
            all.contains(d) ==> exists|subject: Seq<char>| #[trigger]
                owed(subject, d.reason) && d == notice(event.id, subject, d.reason).delivery,
    ensures
        noticed(
            before,
            with_activity(base, event, deduped(all)),
            event,
            owed,
            ordered_set(recipients(deduped(all))),
        ),
{
    let made = deduped(all);
    let after = with_activity(base, event, made);
    let rows = after.activity_deliveries;
    let n = before.activity_deliveries.len() as int;
    lemma_deduped(all);
    assert(rows =~= before.activity_deliveries + made.map_values(stored_delivery(event.id)));
    assert(rows.take(n) =~= before.activity_deliveries);
    assert forall|subject: Seq<char>, reason: ActivityReason| #[trigger]
        owed(subject, reason) implies exists|k: int|
        n <= k < rows.len() && #[trigger] rows[k] == notice(event.id, subject, reason) by {
        let d = notice(event.id, subject, reason).delivery;
        assert(made.contains(d));
        let k = choose|k: int| 0 <= k < made.len() && made[k] == d;
        assert(rows[n + k] == notice(event.id, subject, reason));
    }
    assert forall|k: int| n <= k < rows.len() implies exists|subject: Seq<char>| #[trigger]
        owed(subject, rows[k].delivery.reason) && #[trigger] rows[k] == notice(
            event.id,
            subject,
            rows[k].delivery.reason,
        ) by {
        assert(rows[k].delivery == made[k - n]);
        assert(made.contains(made[k - n]));
        assert(all.contains(made[k - n]));
    }
    assert forall|k: int, l: int| n <= k < l < rows.len() implies #[trigger] rows[k]
        != #[trigger] rows[l] by {
        assert(rows[k].delivery == made[k - n]);
        assert(rows[l].delivery == made[l - n]);
    }
    let keys = recipients(made);
    law_ordered_set(keys);
    let subjects = ordered_set(keys);
    assert forall|key: Seq<char>| #[trigger]
        subjects.contains(key) <==> exists|k: int|
            n <= k < rows.len() && (#[trigger] rows[k]).delivery.recipient_key == key by {
        if subjects.contains(key) {
            assert(keys.contains(key));
            let k = choose|k: int| 0 <= k < keys.len() && keys[k] == key;
            assert(rows[n + k].delivery == made[k]);
        }
        if exists|k: int| n <= k < rows.len() && (#[trigger] rows[k]).delivery.recipient_key == key {
            let k = choose|k: int|
                n <= k < rows.len() && (#[trigger] rows[k]).delivery.recipient_key == key;
            assert(rows[k].delivery == made[k - n]);
            assert(keys[k - n] == key);
            assert(keys.contains(key));
        }
    }
}

/// A reply is told to the author of its thread, to the author of the post it quotes, to everyone
/// who watches the thread, and to everyone it mentions by an alias of their own. Nobody else is
/// told, nobody is told of their own reply, and nobody is told the same twice.
pub proof fn law_reply_is_told(
    f: Forum,
    post: PostRow,
    mentioned: Seq<Seq<char>>,
    activity_id: Seq<char>,
)
    requires
        reply_addition_with_activity(f, post, mentioned, activity_id).1 is Ok,
    ensures
        noticed(
            f,
            reply_addition_with_activity(f, post, mentioned, activity_id).0,
            ActivityEventRow {
                id: activity_id,
                kind: ActivityKind::PostCreated,
                thread_id: post.thread_id,
                post_id: post.id,
                actor_sub: post.author_sub,
                created_at: post.created_at,
            },
            |subject: Seq<char>, reason: ActivityReason|
                reply_owed(f, post, mentioned, subject, reason),
            reply_addition_with_activity(f, post, mentioned, activity_id).1->Ok_0.delivery_subjects,
        ),
{
    let event = post_event(post, activity_id);
    let aliases = alias_list(mentioned);
    let thread = first_row(f.threads, thread_is(post.thread_id))->0;
    let seen = with_alias(f, post.author_sub, post.author_email, post.created_at);
    let own = as_list(delivery_to(thread.author_sub, post.author_sub, ActivityReason::Reply));
    let quote = as_list(quote_delivery(f, post));
    let watching = collected(f.subscriptions, watch_delivery(post));
    let naming = collected(aliases, mention_delivery(seen.identity_aliases, post.author_sub));
    let all = own + quote + watching + naming;
    let owed = |subject: Seq<char>, reason: ActivityReason|
        reply_owed(f, post, mentioned, subject, reason);
    lemma_mention_deliveries(f, post, mentioned);
    lemma_first_index(f.threads, thread_is(post.thread_id));
    lemma_first_index(f.posts, post_is_in(post.quoted_post_id, post.thread_id));
    let t = first_index(f.threads, thread_is(post.thread_id))->0;
    assert(thread_is(post.thread_id)(f.threads[t]));
    assert(thread_entry(f, post.thread_id, t)) by {
        assert forall|j: int| 0 <= j < t implies (#[trigger] f.threads[j]).id != post.thread_id by {
            assert(!thread_is(post.thread_id)(f.threads[j]));
        }
    }
    assert forall|subject: Seq<char>, reason: ActivityReason| #[trigger]
        owed(subject, reason) implies all.contains(
        notice(event.id, subject, reason).delivery,
    ) by {
        let d = notice(event.id, subject, reason).delivery;
        match reason {
            ActivityReason::Reply => {
                if exists|n: int| #[trigger]
                    thread_entry(f, post.thread_id, n) && f.threads[n].author_sub == subject {
                    let n = choose|n: int| #[trigger]
                        thread_entry(f, post.thread_id, n) && f.threads[n].author_sub == subject;
                    lemma_first_row_is(f.threads, thread_is(post.thread_id), n);
                    assert(own[0] == d);
                    assert(all[0] == d);
                } else {
                    let n = choose|n: int| #[trigger]
                        post_entry(f, post.quoted_post_id, post.thread_id, n)
                            && f.posts[n].author_sub == subject;
                    lemma_first_row_is(f.posts, post_is_in(post.quoted_post_id, post.thread_id), n);
                    assert(quote[0] == d);
                    assert(all[own.len() as int] == d);
                }
            },
            ActivityReason::Following => {
                let i = choose|i: int| #[trigger]
                    watcher(f, post.thread_id, i) && f.subscriptions[i].subscriber_sub == subject;
                lemma_collected_holds(f.subscriptions, watch_delivery(post), i);
                let k = choose|k: int| 0 <= k < watching.len() && watching[k] == d;
                assert(all[own.len() + quote.len() + k] == d);
            },
            ActivityReason::Mention => {
                let m = choose|m: int| #[trigger]
                    mentions_subject(f, post, mentioned, m, subject);
                assert(naming.contains(notice(Seq::empty(), subject, reason).delivery));
                let k = choose|k: int| 0 <= k < naming.len() && naming[k] == d;
                assert(all[own.len() + quote.len() + watching.len() + k] == d);
            },
            ActivityReason::Answer => {},
        }
    }
    assert forall|d: ActivityDeliveryRow| #[trigger] all.contains(d) implies exists|
        subject: Seq<char>,
    | #[trigger] owed(subject, d.reason) && d == notice(event.id, subject, d.reason).delivery by {
        let k = choose|k: int| 0 <= k < all.len() && all[k] == d;
        if k < own.len() {
            assert(d == own[k]);
            assert(owed(thread.author_sub, d.reason));
        } else if k < own.len() + quote.len() {
            assert(d == quote[k - own.len()]);
            let n = first_index(f.posts, post_is_in(post.quoted_post_id, post.thread_id))->0;
            assert(post_is_in(post.quoted_post_id, post.thread_id)(f.posts[n]));
            assert(post_entry(f, post.quoted_post_id, post.thread_id, n)) by {
                assert forall|j: int| 0 <= j < n implies (#[trigger] f.posts[j]).id
                    != post.quoted_post_id || f.posts[j].thread_id != post.thread_id by {
                    assert(!post_is_in(post.quoted_post_id, post.thread_id)(f.posts[j]));
                }
            }
            assert(owed(f.posts[n].author_sub, d.reason));
        } else if k < own.len() + quote.len() + watching.len() {
            let at = k - own.len() - quote.len();
            assert(d == watching[at]);
            let sources = lemma_collected_sources(f.subscriptions, watch_delivery(post));
            let i = sources[at];
            assert(watcher(f, post.thread_id, i));
            assert(owed(f.subscriptions[i].subscriber_sub, d.reason));
        } else {
            let at = k - own.len() - quote.len() - watching.len();
            assert(d == naming[at]);
            assert(naming.contains(d));
            let (subject, m) = choose|subject: Seq<char>, m: int| #[trigger]
                mentions_subject(f, post, mentioned, m, subject) && reachable(
                    subject,
                    post.author_sub,
                ) && d == notice(Seq::empty(), subject, ActivityReason::Mention).delivery;
            assert(owed(subject, d.reason));
        }
    }
    let base = Forum {
        mentions: with_reply(with_point(seen, post).0, post).mentions.filter(
            mention_not_by(post.id),
        ) + mention_rows(post.id, post.thread_id, aliases, post.created_at),
        ..with_reply(with_point(seen, post).0, post)
    };
    lemma_noticed(f, base, event, all, owed);
}

/// A new thread is told to everyone its original post mentions by an alias of their own, and to
/// nobody else.
pub proof fn law_opening_is_told(
    f: Forum,
    thread: ThreadRow,
    first_post: PostRow,
    mentioned: Seq<Seq<char>>,
    activity_id: Seq<char>,
)
    requires
        thread_creation_with_activity(f, thread, first_post, mentioned, activity_id).1 is Ok,
    ensures
        noticed(
            f,
            thread_creation_with_activity(f, thread, first_post, mentioned, activity_id).0,
            ActivityEventRow {
                id: activity_id,
                kind: ActivityKind::PostCreated,
                thread_id: thread.id,
                post_id: first_post.id,
                actor_sub: first_post.author_sub,
                created_at: first_post.created_at,
            },
            |subject: Seq<char>, reason: ActivityReason|
                opening_owed(f, first_post, mentioned, subject, reason),
            thread_creation_with_activity(
                f,
                thread,
                first_post,
                mentioned,
                activity_id,
            ).1->Ok_0.delivery_subjects,
        ),
{
    let event = post_event(first_post, activity_id);
    let aliases = alias_list(mentioned);
    let seen = with_alias(
        f,
        first_post.author_sub,
        first_post.author_email,
        first_post.created_at,
    );
    let naming = collected(aliases, mention_delivery(seen.identity_aliases, first_post.author_sub));
    let owed = |subject: Seq<char>, reason: ActivityReason|
        opening_owed(f, first_post, mentioned, subject, reason);
    lemma_mention_deliveries(f, first_post, mentioned);
    assert forall|d: ActivityDeliveryRow| #[trigger] naming.contains(d) implies exists|
        subject: Seq<char>,
    | #[trigger] owed(subject, d.reason) && d == notice(event.id, subject, d.reason).delivery by {
        let (subject, m) = choose|subject: Seq<char>, m: int| #[trigger]
            mentions_subject(f, first_post, mentioned, m, subject) && reachable(
                subject,
                first_post.author_sub,
            ) && d == notice(Seq::empty(), subject, ActivityReason::Mention).delivery;
        assert(owed(subject, d.reason));
    }
    assert forall|subject: Seq<char>, reason: ActivityReason| #[trigger]
        owed(subject, reason) implies naming.contains(
        notice(event.id, subject, reason).delivery,
    ) by {
        let m = choose|m: int| #[trigger]
            mentions_subject(f, first_post, mentioned, m, subject);
        assert(naming.contains(notice(Seq::empty(), subject, reason).delivery));
    }
    let stored = with_thread(with_point(seen, first_post).0, thread, first_post);
    let base = Forum {
        mentions: stored.mentions + mention_rows(
            first_post.id,
            thread.id,
            aliases,
            first_post.created_at,
        ),
        ..stored
    };
    lemma_noticed(f, base, event, naming, owed);
}

/// When a reply becomes the accepted answer its author is told, and nobody else; nobody is told
/// when the pointer stays where it was or is cleared.
pub proof fn law_answer_is_told(
    f: Forum,
    thread_id: Seq<char>,
    action: AcceptedAnswerAction,
    activity_id: Seq<char>,
    actor_sub: Seq<char>,
    created_at: i64,
    n: int,
    p: int,
)
    requires
        answer_mutation_with_activity(
            f,
            thread_id,
            action,
            activity_id,
            actor_sub,
            created_at,
        ).1 is Ok,
        thread_entry(f, thread_id, n),
        action is Accept,
        post_entry(f, trim_text(action->post_id@), thread_id, p),
    ensures
        noticed(
            f,
            answer_mutation_with_activity(
                f,
                thread_id,
                action,
                activity_id,
                actor_sub,
                created_at,
            ).0,
            ActivityEventRow {
                id: activity_id,
                kind: ActivityKind::AnswerAccepted,
                thread_id,
                post_id: f.posts[p].id,
                actor_sub,
                created_at,
            },
            |subject: Seq<char>, reason: ActivityReason|
                reachable(subject, actor_sub) && reason is Answer && subject
                    == f.posts[p].author_sub && f.threads[n].accepted_post_id != f.posts[p].id,
            answer_mutation_with_activity(
                f,
                thread_id,
                action,
                activity_id,
                actor_sub,
                created_at,
            ).1->Ok_0.delivery_subjects,
        ),
{
    let id = trim_text(action->post_id@);
    lemma_first_row_is(f.threads, thread_is(thread_id), n);
    lemma_first_row_is(f.posts, post_is_in(id, thread_id), p);
    let (g, r) = answer_mutation(f, thread_id, action);
    let m = r->Ok_0;
    let event = answer_event(thread_id, m.accepted_post, activity_id, actor_sub, created_at);
    let all = answer_deliveries(m.changed, m.accepted_post, actor_sub);
    let owed = |subject: Seq<char>, reason: ActivityReason|
        reachable(subject, actor_sub) && reason is Answer && subject == f.posts[p].author_sub
            && f.threads[n].accepted_post_id != f.posts[p].id;
    assert(deduped(all) =~= all) by {
        reveal_with_fuel(deduped, 3);
    }
    assert forall|subject: Seq<char>, reason: ActivityReason| #[trigger]
        owed(subject, reason) implies all.contains(
        notice(event.id, subject, reason).delivery,
    ) by {
        assert(all[0] == notice(event.id, subject, reason).delivery);
    }
    assert forall|d: ActivityDeliveryRow| #[trigger] all.contains(d) implies exists|
        subject: Seq<char>,
    | #[trigger] owed(subject, d.reason) && d == notice(event.id, subject, d.reason).delivery by {
        assert(owed(f.posts[p].author_sub, d.reason));
    }
    lemma_noticed(f, g, event, all, owed);
}

/// Clearing an answer tells nobody.
pub proof fn law_clearing_is_not_told(
    f: Forum,
    thread_id: Seq<char>,
    activity_id: Seq<char>,
    actor_sub: Seq<char>,
    created_at: i64,
)
    ensures
        ({
            let (g, r) = answer_mutation_with_activity(
                f,
                thread_id,
                AcceptedAnswerAction::Clear,
                activity_id,
                actor_sub,
                created_at,
            );
            &&& g.activity_deliveries == f.activity_deliveries
            &&& g.activity_events == f.activity_events
            &&& r is Ok ==> r->Ok_0.delivery_subjects.len() == 0
        }),
{
    assert(recipients(Seq::<ActivityDeliveryRow>::empty()).len() == 0);
    assert(ordered_set(recipients(Seq::<ActivityDeliveryRow>::empty())).len() == 0);
}

} // verus!
