//! What activity promises.

use vstd::prelude::*;

use crate::laws::order::law_ordered_set;
use crate::laws::pages::{distinct_events, lemma_collected_sources};
use crate::laws::state_writing::lemma_first_row_push;
use crate::laws::tables::{
    distinct_by, lemma_count_bound, lemma_distinct_filter, lemma_some_filter,
    lemma_some_filter_keeps, lemma_some_push,
};
use crate::model::{ActivityDeliveryRow, ActivityEventRow, ActivityReason, PostRow, ThreadRow};
use crate::rows::{
    collected, count_rows, deduped, first_index, first_row, lemma_deduped, lemma_filter_contains,
    lemma_filter_push, lemma_first_index, some_row,
};
use crate::store::activity::{
    activity_item, activity_mark, activity_receipt_not_of, activity_receipt_of, batch_mark,
    batch_target, delivery_for, event_live, with_receipts,
};
use crate::store::answers::answer_deliveries;
use crate::store::follow::delivery_of_to;
use crate::store::memory::Forum;
use crate::store::posting::{
    alias_of_other, alias_row, as_list, mention_delivery, quote_delivery,
    reply_addition_with_activity, reply_deliveries, watch_delivery, watches, with_activity,
    with_alias,
};
use crate::store::rules::{delivery_to, filter_admits, mention_aliases, recipients};
use crate::store::tables::{post_is_in, thread_is};
use crate::store::types::{
    ActivityCursorRow, ActivityFilter, ActivityReceiptRow, Failure, IdentityAliasRow,
    MAX_ACTIVITY_BATCH, MAX_KLAXON_RECIPIENTS_PER_REPLY,
};
use crate::text::text_less;
use crate::texts::ordered_set;

verus! {

/// Whether every delivery goes to a subject other than the actor.
pub open spec fn spares(s: Seq<ActivityDeliveryRow>, actor_sub: Seq<char>) -> bool {
    forall|i: int|
        0 <= i < s.len() ==> (#[trigger] s[i]).recipient_key != actor_sub
            && s[i].recipient_key.len() > 0 && s[i].recipient_kind is Subject
}

proof fn lemma_collected_spares<A>(
    s: Seq<A>,
    g: spec_fn(A) -> Option<ActivityDeliveryRow>,
    actor_sub: Seq<char>,
)
    requires
        forall|x: A|
            (#[trigger] g(x)) is Some ==> g(x)->0.recipient_key != actor_sub
                && g(x)->0.recipient_key.len() > 0 && g(x)->0.recipient_kind is Subject,
    ensures
        spares(collected(s, g), actor_sub),
{
    let sources = lemma_collected_sources(s, g);
    let c = collected(s, g);
    assert forall|i: int| 0 <= i < c.len() implies (#[trigger] c[i]).recipient_key != actor_sub
        && c[i].recipient_key.len() > 0 && c[i].recipient_kind is Subject by {
        assert(g(s[sources[i]]) == Some(c[i]));
    }
}

proof fn lemma_deduped_spares(s: Seq<ActivityDeliveryRow>, actor_sub: Seq<char>)
    requires
        spares(s, actor_sub),
    ensures
        spares(deduped(s), actor_sub),
{
    lemma_deduped(s);
    let r = deduped(s);
    assert forall|i: int| 0 <= i < r.len() implies (#[trigger] r[i]).recipient_key != actor_sub
        && r[i].recipient_key.len() > 0 && r[i].recipient_kind is Subject by {
        assert(r.contains(r[i]));
        let k = choose|k: int| 0 <= k < s.len() && s[k] == r[i];
    }
}

/// Nobody is told about their own reply, and every recipient is a subject.
pub proof fn law_reply_spares_its_author(
    f: Forum,
    thread: ThreadRow,
    post: PostRow,
    aliases: Seq<Seq<char>>,
)
    ensures
        spares(reply_deliveries(f, thread, post, aliases), post.author_sub),
{
    let seen = with_alias(f, post.author_sub, post.author_email, post.created_at);
    lemma_collected_spares(f.subscriptions, watch_delivery(post), post.author_sub);
    lemma_collected_spares(
        aliases,
        mention_delivery(seen.identity_aliases, post.author_sub),
        post.author_sub,
    );
    let all = as_list(delivery_to(thread.author_sub, post.author_sub, ActivityReason::Reply))
        + as_list(quote_delivery(f, post)) + collected(f.subscriptions, watch_delivery(post))
        + collected(aliases, mention_delivery(seen.identity_aliases, post.author_sub));
    lemma_deduped_spares(all, post.author_sub);
}

/// Nobody is told that they accepted an answer.
pub proof fn law_answer_spares_its_actor(
    changed: bool,
    accepted_post: Option<PostRow>,
    actor_sub: Seq<char>,
)
    ensures
        spares(answer_deliveries(changed, accepted_post, actor_sub), actor_sub),
{
}

/// Nobody is told about their own opening post.
pub proof fn law_opening_spares_its_author(
    aliases: Seq<IdentityAliasRow>,
    mentioned: Seq<Seq<char>>,
    author_sub: Seq<char>,
)
    ensures
        spares(deduped(collected(mentioned, mention_delivery(aliases, author_sub))), author_sub),
{
    lemma_collected_spares(mentioned, mention_delivery(aliases, author_sub), author_sub);
    lemma_deduped_spares(collected(mentioned, mention_delivery(aliases, author_sub)), author_sub);
}

/// An alias that two subjects were seen with reaches nobody, whoever else uses it later.
pub proof fn law_ambiguous_alias_reaches_nobody(
    aliases: Seq<IdentityAliasRow>,
    later: IdentityAliasRow,
    alias: Seq<char>,
    i: int,
    j: int,
    actor_sub: Seq<char>,
)
    requires
        0 <= i < aliases.len(),
        0 <= j < aliases.len(),
        aliases[i].alias == alias,
        aliases[j].alias == alias,
        aliases[i].subject != aliases[j].subject,
    ensures
        mention_delivery(aliases, actor_sub)(alias) is None,
        mention_delivery(aliases.push(later), actor_sub)(alias) is None,
{
    lemma_first_index(aliases, alias_row(alias));
    assert(alias_row(alias)(aliases[i]));
    let k = first_index(aliases, alias_row(alias))->0;
    let subject = aliases[k].subject;
    if aliases[i].subject != subject {
        assert(alias_of_other(alias, subject)(aliases[i]));
        assert(alias_of_other(alias, subject)(aliases.push(later)[i]));
    } else {
        assert(alias_of_other(alias, subject)(aliases[j]));
        assert(alias_of_other(alias, subject)(aliases.push(later)[j]));
    }
    lemma_first_row_push(aliases, later, alias_row(alias));
}

/// A reply is told to every subject once, whatever the reasons, never to its author, and to no more
/// subjects than the bound.
pub proof fn law_recipients_are_bounded(
    f: Forum,
    post: PostRow,
    mentioned: Seq<Seq<char>>,
    activity_id: Seq<char>,
)
    requires
        reply_addition_with_activity(f, post, mentioned, activity_id).1 is Ok,
    ensures
        ({
            let told = reply_addition_with_activity(
                f,
                post,
                mentioned,
                activity_id,
            ).1->Ok_0.delivery_subjects;
            &&& told.len() <= MAX_KLAXON_RECIPIENTS_PER_REPLY
            &&& !told.contains(post.author_sub)
            &&& forall|i: int, j: int|
                0 <= i < j < told.len() ==> text_less(#[trigger] told[i], #[trigger] told[j])
        }),
{
    let aliases = mention_aliases(mentioned)->Ok_0;
    let thread = first_row(f.threads, thread_is(post.thread_id))->0;
    let seen = with_alias(f, post.author_sub, post.author_email, post.created_at);
    let watching = collected(f.subscriptions, watch_delivery(post));
    let named = collected(aliases, mention_delivery(seen.identity_aliases, post.author_sub));
    let all = as_list(delivery_to(thread.author_sub, post.author_sub, ActivityReason::Reply))
        + as_list(quote_delivery(f, post)) + watching + named;
    let deliveries = reply_deliveries(f, thread, post, aliases);
    assert(deliveries == deduped(all));
    lemma_deduped(all);
    lemma_collected_bound(
        f.subscriptions,
        watch_delivery(post),
        watches(post.thread_id),
    );
    lemma_collected_bound(
        aliases,
        mention_delivery(seen.identity_aliases, post.author_sub),
        |a: Seq<char>| true,
    );
    lemma_count_bound(aliases, |a: Seq<char>| true);
    law_ordered_set(recipients(deliveries));
    law_reply_spares_its_author(f, thread, post, aliases);
    let told = ordered_set(recipients(deliveries));
    if told.contains(post.author_sub) {
        assert(recipients(deliveries).contains(post.author_sub));
        let k = choose|k: int|
            0 <= k < recipients(deliveries).len() && recipients(deliveries)[k] == post.author_sub;
        assert(deliveries[k].recipient_key == post.author_sub);
    }
}

/// Only rows that pass the test are collected.
proof fn lemma_collected_bound<A, B>(
    s: Seq<A>,
    g: spec_fn(A) -> Option<B>,
    p: spec_fn(A) -> bool,
)
    requires
        forall|x: A| (#[trigger] g(x)) is Some ==> p(x),
    ensures
        collected(s, g).len() <= count_rows(s, p),
    decreases s.len(),
{
    reveal(Seq::filter);
    if s.len() > 0 {
        let d = s.drop_last();
        lemma_collected_bound(d, g, p);
        assert(s =~= d.push(s.last()));
        lemma_filter_push(d, s.last(), p);
    }
}

/// An event that reaches nobody is not recorded.
pub proof fn law_silent_event_is_not_recorded(f: Forum, event: ActivityEventRow)
    ensures
        with_activity(f, event, Seq::empty()) == f,
{
}

/// What a viewer sees was delivered to them and points at live content.
pub proof fn law_activity_shows_own_live_events(
    f: Forum,
    viewer_sub: Seq<char>,
    filter: ActivityFilter,
    unread_only: bool,
    before: Option<ActivityCursorRow>,
    e: ActivityEventRow,
)
    requires
        activity_item(f, viewer_sub, filter, unread_only, before)(e) is Some,
    ensures
        some_row(f.activity_deliveries, delivery_of_to(e.id, viewer_sub)),
        event_live(f, e),
        filter_admits(
            filter,
            activity_item(f, viewer_sub, filter, unread_only, before)(e)->0.reason,
        ),
        unread_only ==> !activity_item(f, viewer_sub, filter, unread_only, before)(e)->0.read,
{
    let own = collected(f.activity_deliveries, delivery_for(e.id, viewer_sub));
    let sources = lemma_collected_sources(
        f.activity_deliveries,
        delivery_for(e.id, viewer_sub),
    );
    assert(own.len() > 0);
    assert(delivery_for(e.id, viewer_sub)(f.activity_deliveries[sources[0]]) == Some(own[0]));
    assert(delivery_of_to(e.id, viewer_sub)(f.activity_deliveries[sources[0]]));
    lemma_first_index(f.threads, thread_is(e.thread_id));
    lemma_first_index(f.posts, post_is_in(e.post_id, e.thread_id));
}

/// An event that was not delivered to the viewer is answered as if it did not exist, and nothing
/// changes.
pub proof fn law_foreign_event_is_not_found(
    f: Forum,
    activity_id: Seq<char>,
    viewer_sub: Seq<char>,
    read: bool,
    changed_at: i64,
)
    requires
        !some_row(f.activity_deliveries, delivery_of_to(activity_id, viewer_sub)),
    ensures
        activity_mark(f, activity_id, viewer_sub, read, changed_at) == (
            f,
            Err::<(), Failure>(Failure::NotFound("activity not found"@)),
        ),
        forall|ids: Seq<Seq<char>>|
            ids.contains(activity_id) && ids.len() <= MAX_ACTIVITY_BATCH && distinct_events(
                f.activity_events,
            ) ==> (#[trigger] batch_mark(f, viewer_sub, ids, changed_at)) == (
                f,
                Err::<i64, Failure>(Failure::NotFound("activity not found"@)),
            ),
{
    assert forall|ids: Seq<Seq<char>>|
        ids.contains(activity_id) && ids.len() <= MAX_ACTIVITY_BATCH && distinct_events(
            f.activity_events,
        ) implies (#[trigger] batch_mark(f, viewer_sub, ids, changed_at)) == (
        f,
        Err::<i64, Failure>(Failure::NotFound("activity not found"@)),
    ) by {
        lemma_batch_misses(f, viewer_sub, ids, activity_id);
    }
}

/// What an event is identified by.
pub open spec fn event_id() -> spec_fn(ActivityEventRow) -> Seq<char> {
    |e: ActivityEventRow| e.id
}

/// The targets of a batch are fewer than its identifiers when one of them is foreign.
proof fn lemma_batch_misses(
    f: Forum,
    viewer_sub: Seq<char>,
    ids: Seq<Seq<char>>,
    activity_id: Seq<char>,
)
    requires
        distinct_events(f.activity_events),
        ids.contains(activity_id),
        !some_row(f.activity_deliveries, delivery_of_to(activity_id, viewer_sub)),
    ensures
        f.activity_events.filter(batch_target(f, viewer_sub, ids)).len() < deduped(ids).len(),
{
    let wanted = batch_target(f, viewer_sub, ids);
    let targets = f.activity_events.filter(wanted);
    lemma_filter_contains(f.activity_events, wanted);
    lemma_deduped(ids);
    let unique = deduped(ids);
    let keys = targets.map_values(event_id());
    lemma_distinct_by_id(f.activity_events);
    lemma_distinct_filter(f.activity_events, wanted, event_id());
    assert(keys.no_duplicates()) by {
        assert forall|i: int, j: int|
            0 <= i < keys.len() && 0 <= j < keys.len() && i != j implies keys[i] != keys[j] by {
            assert(event_id()(targets[i]) != event_id()(targets[j]));
        }
    }
    assert forall|k: Seq<char>| #[trigger] keys.to_set().contains(k) implies unique.to_set().remove(
        activity_id,
    ).contains(k) by {
        let i = choose|i: int| 0 <= i < keys.len() && keys[i] == k;
        assert(targets.contains(targets[i]));
        assert(wanted(targets[i]));
        assert(unique.contains(k));
    }
    assert(keys.to_set().subset_of(unique.to_set().remove(activity_id)));
    assert(unique.contains(activity_id));
    unique.unique_seq_to_set();
    keys.unique_seq_to_set();
    vstd::set_lib::lemma_len_subset(keys.to_set(), unique.to_set().remove(activity_id));
}

/// A mark reads back, for its viewer alone, and taking it back leaves the event unread.
pub proof fn law_activity_mark_reads_back(
    f: Forum,
    activity_id: Seq<char>,
    viewer_sub: Seq<char>,
    read: bool,
    changed_at: i64,
)
    requires
        activity_mark(f, activity_id, viewer_sub, read, changed_at).1 is Ok,
    ensures
        ({
            let g = activity_mark(f, activity_id, viewer_sub, read, changed_at).0;
            &&& some_row(g.activity_receipts, activity_receipt_of(activity_id, viewer_sub)) == read
            &&& forall|other: Seq<char>, viewer: Seq<char>|
                other != activity_id || viewer != viewer_sub ==> (some_row(
                    g.activity_receipts,
                    #[trigger] activity_receipt_of(other, viewer),
                ) <==> some_row(f.activity_receipts, activity_receipt_of(other, viewer)))
        }),
{
    let g = activity_mark(f, activity_id, viewer_sub, read, changed_at).0;
    let keep = activity_receipt_not_of(activity_id, viewer_sub);
    let others = f.activity_receipts.filter(keep);
    let x = ActivityReceiptRow { activity_id, viewer_sub, read_at: changed_at };
    lemma_some_filter(f.activity_receipts, keep, activity_receipt_of(activity_id, viewer_sub));
    lemma_some_push(others, x, activity_receipt_of(activity_id, viewer_sub));
    assert forall|other: Seq<char>, viewer: Seq<char>|
        other != activity_id || viewer != viewer_sub implies (some_row(
        g.activity_receipts,
        #[trigger] activity_receipt_of(other, viewer),
    ) <==> some_row(f.activity_receipts, activity_receipt_of(other, viewer))) by {
        let p = activity_receipt_of(other, viewer);
        lemma_some_filter(f.activity_receipts, keep, p);
        lemma_some_push(others, x, p);
        if some_row(f.activity_receipts, p) {
            lemma_some_filter_keeps(f.activity_receipts, keep, p);
        }
    }
}

proof fn lemma_receipts_present(
    receipts: Seq<ActivityReceiptRow>,
    targets: Seq<ActivityEventRow>,
    viewer_sub: Seq<char>,
    changed_at: i64,
)
    ensures
        ({
            let r = with_receipts(receipts, targets, viewer_sub, changed_at);
            &&& forall|i: int|
                0 <= i < targets.len() ==> some_row(
                    r,
                    activity_receipt_of((#[trigger] targets[i]).id, viewer_sub),
                )
            &&& receipts.len() <= r.len()
            &&& r.take(receipts.len() as int) == receipts
        }),
    decreases targets.len(),
{
    if targets.len() > 0 {
        let d = targets.drop_last();
        lemma_receipts_present(receipts, d, viewer_sub, changed_at);
        let rest = with_receipts(receipts, d, viewer_sub, changed_at);
        let r = with_receipts(receipts, targets, viewer_sub, changed_at);
        let last = targets.last();
        let x = ActivityReceiptRow { activity_id: last.id, viewer_sub, read_at: changed_at };
        assert forall|i: int| 0 <= i < targets.len() implies some_row(
            r,
            activity_receipt_of((#[trigger] targets[i]).id, viewer_sub),
        ) by {
            let p = activity_receipt_of(targets[i].id, viewer_sub);
            lemma_some_push(rest, x, p);
            if i < d.len() {
                assert(targets[i] == d[i]);
                assert(some_row(rest, activity_receipt_of(d[i].id, viewer_sub)));
            }
        }
        assert(r.take(receipts.len() as int) =~= receipts);
    } else {
        assert(receipts.take(receipts.len() as int) =~= receipts);
    }
}

proof fn lemma_receipts_settled(
    receipts: Seq<ActivityReceiptRow>,
    targets: Seq<ActivityEventRow>,
    viewer_sub: Seq<char>,
    changed_at: i64,
)
    requires
        forall|i: int|
            0 <= i < targets.len() ==> some_row(
                receipts,
                activity_receipt_of((#[trigger] targets[i]).id, viewer_sub),
            ),
    ensures
        with_receipts(receipts, targets, viewer_sub, changed_at) == receipts,
    decreases targets.len(),
{
    if targets.len() > 0 {
        let d = targets.drop_last();
        assert forall|i: int| 0 <= i < d.len() implies some_row(
            receipts,
            activity_receipt_of((#[trigger] d[i]).id, viewer_sub),
        ) by {
            assert(some_row(receipts, activity_receipt_of(targets[i].id, viewer_sub)));
        }
        lemma_receipts_settled(receipts, d, viewer_sub, changed_at);
        let n = targets.len() - 1;
        assert(some_row(receipts, activity_receipt_of(targets[n].id, viewer_sub)));
    }
}

/// A page is marked read as a whole or not at all; receipts from before stay as they were, and
/// marking the page again adds nothing.
pub proof fn law_batch_mark(
    f: Forum,
    viewer_sub: Seq<char>,
    activity_ids: Seq<Seq<char>>,
    changed_at: i64,
    later: i64,
)
    ensures
        ({
            let (g, r) = batch_mark(f, viewer_sub, activity_ids, changed_at);
            &&& r is Err ==> g == f
            &&& r is Ok ==> {
                &&& g.activity_receipts.take(f.activity_receipts.len() as int)
                    == f.activity_receipts
                &&& forall|e: ActivityEventRow|
                    f.activity_events.contains(e) && #[trigger] batch_target(
                        f,
                        viewer_sub,
                        activity_ids,
                    )(e) ==> some_row(
                        g.activity_receipts,
                        activity_receipt_of(e.id, viewer_sub),
                    )
                &&& batch_mark(g, viewer_sub, activity_ids, later) == (g, Ok::<i64, Failure>(0))
            }
        }),
{
    let (g, r) = batch_mark(f, viewer_sub, activity_ids, changed_at);
    if r is Ok {
        let wanted = batch_target(f, viewer_sub, activity_ids);
        let targets = f.activity_events.filter(wanted);
        lemma_filter_contains(f.activity_events, wanted);
        lemma_receipts_present(f.activity_receipts, targets, viewer_sub, changed_at);
        assert forall|e: ActivityEventRow| f.activity_events.contains(e) && #[trigger] wanted(
            e,
        ) implies some_row(g.activity_receipts, activity_receipt_of(e.id, viewer_sub)) by {
            assert(targets.contains(e));
            let i = choose|i: int| 0 <= i < targets.len() && targets[i] == e;
            assert(some_row(g.activity_receipts, activity_receipt_of(targets[i].id, viewer_sub)));
        }
        let again = batch_target(g, viewer_sub, activity_ids);
        assert(again =~= wanted);
        lemma_receipts_settled(g.activity_receipts, targets, viewer_sub, later);
    }
}

/// Whether an event was delivered to a viewer.
pub open spec fn is_delivered(f: Forum, viewer_sub: Seq<char>, id: Seq<char>) -> bool {
    some_row(f.activity_deliveries, delivery_of_to(id, viewer_sub))
}

/// Whether a viewer has read an event.
pub open spec fn is_read(f: Forum, viewer_sub: Seq<char>, id: Seq<char>) -> bool {
    some_row(f.activity_receipts, activity_receipt_of(id, viewer_sub))
}

/// Distinct lists with the same members are equally long.
pub proof fn lemma_same_length<A>(s: Seq<A>, t: Seq<A>)
    requires
        s.no_duplicates(),
        t.no_duplicates(),
        forall|x: A| #[trigger] s.contains(x) <==> t.contains(x),
    ensures
        s.len() == t.len(),
{
    s.unique_seq_to_set();
    t.unique_seq_to_set();
    assert(s.to_set() =~= t.to_set());
}

/// A distinct list that lacks a member of another one is shorter.
pub proof fn lemma_shorter<A>(s: Seq<A>, t: Seq<A>, x: A)
    requires
        s.no_duplicates(),
        t.no_duplicates(),
        forall|y: A| #[trigger] s.contains(y) ==> t.contains(y),
        t.contains(x),
        !s.contains(x),
    ensures
        s.len() < t.len(),
{
    s.unique_seq_to_set();
    t.unique_seq_to_set();
    let less = t.to_set().remove(x);
    vstd::seq_lib::seq_to_set_is_finite(t);
    assert(s.to_set().subset_of(less));
    vstd::set_lib::lemma_len_subset(s.to_set(), less);
}

/// The identifiers of events that a viewer has not read.
pub open spec fn unread_id(f: Forum, viewer_sub: Seq<char>) -> spec_fn(Seq<char>) -> bool {
    |id: Seq<char>| !is_read(f, viewer_sub, id)
}

/// The new receipts are those of the events that were not read.
pub proof fn lemma_with_receipts(
    f: Forum,
    targets: Seq<ActivityEventRow>,
    viewer_sub: Seq<char>,
    changed_at: i64,
)
    requires
        distinct_by(targets, event_id()),
    ensures
        ({
            let r = with_receipts(f.activity_receipts, targets, viewer_sub, changed_at);
            &&& r.len() == f.activity_receipts.len() + targets.map_values(event_id()).filter(
                unread_id(f, viewer_sub),
            ).len()
            &&& forall|id: Seq<char>|
                #[trigger] some_row(r, activity_receipt_of(id, viewer_sub)) <==> is_read(
                    f,
                    viewer_sub,
                    id,
                ) || targets.map_values(event_id()).contains(id)
        }),
    decreases targets.len(),
{
    reveal(Seq::filter);
    let ids = targets.map_values(event_id());
    let r = with_receipts(f.activity_receipts, targets, viewer_sub, changed_at);
    if targets.len() > 0 {
        let d = targets.drop_last();
        assert(distinct_by(d, event_id()));
        lemma_with_receipts(f, d, viewer_sub, changed_at);
        let rest = with_receipts(f.activity_receipts, d, viewer_sub, changed_at);
        let before = d.map_values(event_id());
        let id = targets.last().id;
        assert(ids =~= before.push(id));
        lemma_filter_push(before, id, unread_id(f, viewer_sub));
        assert(!before.contains(id)) by {
            if before.contains(id) {
                let k = choose|k: int| 0 <= k < before.len() && before[k] == id;
                assert(event_id()(targets[k]) == event_id()(targets[targets.len() - 1]));
            }
        }
        assert(some_row(rest, activity_receipt_of(id, viewer_sub)) <==> is_read(
            f,
            viewer_sub,
            id,
        ));
        assert forall|x: Seq<char>|
            #[trigger] some_row(r, activity_receipt_of(x, viewer_sub)) <==> is_read(
                f,
                viewer_sub,
                x,
            ) || ids.contains(x) by {
            let which = activity_receipt_of(x, viewer_sub);
            assert(some_row(rest, which) <==> is_read(f, viewer_sub, x) || before.contains(x));
            if some_row(r, which) {
                let k = choose|k: int| 0 <= k < r.len() && which(#[trigger] r[k]);
                if k < rest.len() {
                    assert(which(rest[k]));
                    if before.contains(x) {
                        let i = choose|i: int| 0 <= i < before.len() && before[i] == x;
                        assert(ids[i] == x);
                    }
                } else {
                    assert(ids[ids.len() - 1] == x);
                }
            }
            if is_read(f, viewer_sub, x) || ids.contains(x) {
                if some_row(rest, which) {
                    let k = choose|k: int| 0 <= k < rest.len() && which(#[trigger] rest[k]);
                    assert(which(r[k]));
                } else {
                    let i = choose|i: int| 0 <= i < ids.len() && ids[i] == x;
                    if i < before.len() {
                        assert(before[i] == x);
                        assert(before.contains(x));
                    }
                    assert(x == id);
                    assert(which(r[r.len() - 1]));
                }
            }
        }
    } else {
        assert(ids =~= Seq::empty());
        assert(ids.filter(unread_id(f, viewer_sub)) =~= Seq::empty());
    }
}

/// What is kept of a distinct list is distinct.
pub proof fn lemma_distinct_ids<A>(s: Seq<A>, key: spec_fn(A) -> Seq<char>, p: spec_fn(Seq<char>) -> bool)
    requires
        distinct_by(s, key),
    ensures
        s.map_values(key).no_duplicates(),
        s.map_values(key).filter(p).no_duplicates(),
{
    let keys = s.map_values(key);
    let itself = |x: Seq<char>| x;
    assert(distinct_by(keys, itself)) by {
        assert forall|i: int, j: int| 0 <= i < keys.len() && 0 <= j < keys.len() && i
            != j implies itself(#[trigger] keys[i]) != itself(#[trigger] keys[j]) by {
            assert(key(s[i]) != key(s[j]));
        }
    }
    lemma_distinct_filter(keys, p, itself);
    assert(keys.no_duplicates()) by {
        assert forall|i: int, j: int| 0 <= i < keys.len() && 0 <= j < keys.len() && i
            != j implies keys[i] != keys[j] by {
            assert(itself(keys[i]) != itself(keys[j]));
        }
    }
    let kept = keys.filter(p);
    assert(kept.no_duplicates()) by {
        assert forall|i: int, j: int| 0 <= i < kept.len() && 0 <= j < kept.len() && i
            != j implies kept[i] != kept[j] by {
            assert(itself(kept[i]) != itself(kept[j]));
        }
    }
}

/// What is kept of distinct texts is distinct.
proof fn lemma_unique_ids(s: Seq<Seq<char>>, p: spec_fn(Seq<char>) -> bool)
    requires
        s.no_duplicates(),
    ensures
        s.filter(p).no_duplicates(),
{
    let itself = |x: Seq<char>| x;
    assert(s.map_values(itself) =~= s);
    assert(distinct_by(s, itself));
    lemma_distinct_ids(s, itself, p);
}

/// Events with different identifiers are distinct by identifier.
proof fn lemma_distinct_by_id(events: Seq<ActivityEventRow>)
    requires
        distinct_events(events),
    ensures
        distinct_by(events, event_id()),
{
    assert forall|i: int, j: int|
        0 <= i < events.len() && 0 <= j < events.len() && i != j implies event_id()(
        #[trigger] events[i],
    ) != event_id()(#[trigger] events[j]) by {
        assert(events[i].id != events[j].id);
    }
}

/// Whether a viewer can mark an event: it is stored, points at live content, and was delivered to
/// them.
pub open spec fn in_reach(f: Forum, viewer_sub: Seq<char>, id: Seq<char>) -> bool {
    some_row(f.activity_events, |e: ActivityEventRow| e.id == id && event_live(f, e))
        && is_delivered(f, viewer_sub, id)
}

/// A page of events is refused when it is too long, and then when one of its events is out of the
/// viewer's reach; nothing changes then. Otherwise all of its events are read afterwards and no
/// other, and the count is that of its events that were unread, each counted once.
pub proof fn law_batch_counts_what_was_unread(
    f: Forum,
    viewer_sub: Seq<char>,
    activity_ids: Seq<Seq<char>>,
    changed_at: i64,
    later: i64,
)
    requires
        distinct_events(f.activity_events),
    ensures
        ({
            let (g, r) = batch_mark(f, viewer_sub, activity_ids, changed_at);
            let too_long = activity_ids.len() > MAX_ACTIVITY_BATCH;
            let all_in_reach = forall|i: int|
                0 <= i < activity_ids.len() ==> in_reach(f, viewer_sub, #[trigger] activity_ids[i]);
            &&& too_long <==> r is Err && r->Err_0 is InvalidOperation
            &&& !too_long && !all_in_reach <==> r is Err && r->Err_0 is NotFound
            &&& !too_long && all_in_reach <==> r is Ok
            &&& r is Err ==> g == f
            &&& r matches Ok(n) ==> {
                &&& n == deduped(activity_ids).filter(unread_id(f, viewer_sub)).len()
                &&& forall|id: Seq<char>| #[trigger]
                    is_read(g, viewer_sub, id) <==> is_read(f, viewer_sub, id)
                        || activity_ids.contains(id)
                &&& g == (Forum { activity_receipts: g.activity_receipts, ..f })
                &&& batch_mark(g, viewer_sub, activity_ids, later) == (g, Ok::<i64, Failure>(0))
            }
        }),
{
    let (g, r) = batch_mark(f, viewer_sub, activity_ids, changed_at);
    let wanted = batch_target(f, viewer_sub, activity_ids);
    let targets = f.activity_events.filter(wanted);
    let found = targets.map_values(event_id());
    let unique = deduped(activity_ids);
    let unread = unread_id(f, viewer_sub);
    let all_in_reach = forall|i: int|
        0 <= i < activity_ids.len() ==> in_reach(f, viewer_sub, #[trigger] activity_ids[i]);
    law_batch_mark(f, viewer_sub, activity_ids, changed_at, later);
    lemma_deduped(activity_ids);
    lemma_filter_contains(f.activity_events, wanted);
    lemma_distinct_by_id(f.activity_events);
    lemma_distinct_filter(f.activity_events, wanted, event_id());
    lemma_distinct_ids(targets, event_id(), unread);
    assert forall|x: Seq<char>| #[trigger] found.contains(x) <==> unique.contains(x) && in_reach(
        f,
        viewer_sub,
        x,
    ) by {
        let live = |e: ActivityEventRow| e.id == x && event_live(f, e);
        if found.contains(x) {
            let k = choose|k: int| 0 <= k < found.len() && found[k] == x;
            assert(targets.contains(targets[k]));
            assert(f.activity_events.contains(targets[k]));
            let i = choose|i: int|
                0 <= i < f.activity_events.len() && f.activity_events[i] == targets[k];
            assert(live(f.activity_events[i]));
            assert(activity_ids.contains(x));
        }
        if unique.contains(x) && in_reach(f, viewer_sub, x) {
            assert(activity_ids.contains(x));
            let i = choose|i: int|
                0 <= i < f.activity_events.len() && live(#[trigger] f.activity_events[i]);
            let e = f.activity_events[i];
            assert(f.activity_events.contains(e));
            assert(targets.contains(e));
            let k = choose|k: int| 0 <= k < targets.len() && targets[k] == e;
            assert(found[k] == x);
        }
    }
    if all_in_reach {
        assert forall|x: Seq<char>| #[trigger] found.contains(x) <==> unique.contains(x) by {
            if unique.contains(x) {
                assert(activity_ids.contains(x));
                let i = choose|i: int| 0 <= i < activity_ids.len() && activity_ids[i] == x;
                assert(in_reach(f, viewer_sub, activity_ids[i]));
            }
        }
        lemma_same_length(found, unique);
        if activity_ids.len() <= MAX_ACTIVITY_BATCH {
            lemma_with_receipts(f, targets, viewer_sub, changed_at);
            lemma_unique_ids(unique, unread);
            let a = found.filter(unread);
            let b = unique.filter(unread);
            lemma_filter_contains(found, unread);
            lemma_filter_contains(unique, unread);
            assert forall|x: Seq<char>| #[trigger] a.contains(x) <==> b.contains(x) by {
                assert(found.contains(x) <==> unique.contains(x));
            }
            lemma_same_length(a, b);
            assert(b.len() <= MAX_ACTIVITY_BATCH) by {
                unique.lemma_filter_len(unread);
            }
            assert forall|id: Seq<char>| #[trigger] is_read(g, viewer_sub, id) <==> is_read(
                f,
                viewer_sub,
                id,
            ) || activity_ids.contains(id) by {
                assert(some_row(g.activity_receipts, activity_receipt_of(id, viewer_sub))
                    <==> is_read(f, viewer_sub, id) || found.contains(id));
                assert(unique.contains(id) <==> activity_ids.contains(id));
            }
        }
    } else {
        let k = choose|k: int|
            0 <= k < activity_ids.len() && !in_reach(f, viewer_sub, #[trigger] activity_ids[k]);
        assert(activity_ids.contains(activity_ids[k]));
        assert(unique.contains(activity_ids[k]));
        assert(!found.contains(activity_ids[k]));
        assert forall|y: Seq<char>| #[trigger] found.contains(y) implies unique.contains(y) by {}
        lemma_shorter(found, unique, activity_ids[k]);
    }
}

/// What was seen of an alias is never forgotten: an alias of two subjects stays ambiguous, whoever
/// writes next.
pub proof fn law_alias_stays_ambiguous(
    f: Forum,
    alias: Seq<char>,
    actor_sub: Seq<char>,
    subject: Seq<char>,
    email: Seq<char>,
    created_at: i64,
)
    requires
        first_row(f.identity_aliases, alias_row(alias)) is Some,
        some_row(
            f.identity_aliases,
            alias_of_other(alias, first_row(f.identity_aliases, alias_row(alias))->0.subject),
        ),
    ensures
        ({
            let g = with_alias(f, subject, email, created_at);
            &&& f.identity_aliases.is_prefix_of(g.identity_aliases)
            &&& mention_delivery(g.identity_aliases, actor_sub)(alias) is None
        }),
{
    let s = f.identity_aliases;
    let r = with_alias(f, subject, email, created_at).identity_aliases;
    assert(s.is_prefix_of(r));
    lemma_first_index(s, alias_row(alias));
    lemma_first_index(r, alias_row(alias));
    let i = first_index(s, alias_row(alias))->0;
    assert(alias_row(alias)(r[i]));
    let j = first_index(r, alias_row(alias))->0;
    if j < i {
        assert(alias_row(alias)(s[j]));
    }
    assert(r[j] == s[i]);
    let k = choose|k: int|
        0 <= k < s.len() && alias_of_other(alias, s[i].subject)(#[trigger] s[k]);
    assert(alias_of_other(alias, s[i].subject)(r[k]));
}

} // verus!
