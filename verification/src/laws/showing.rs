//! What the private lists are for: the activity of a viewer, their bookmarks and the categories
//! they focus on.

use vstd::prelude::*;

use crate::laws::delivering::{post_entry, thread_entry};
use crate::laws::desk::{category_entry, lemma_category_entry, lemma_stands, stands};
use crate::laws::finding::{lemma_last_row, lemma_names_an_answer, names_an_answer};
use crate::laws::holding::{
    lemma_collected_holds, lemma_first_row_is, lemma_page_holds, lemma_page_source,
};
use crate::laws::lists::{law_record_orders, law_thread_orders};
use crate::laws::order::{law_key_less, law_sorted, law_sorted_members, orders};
use crate::laws::pages::{law_activity_order, lemma_collected_sources, lemma_not_less};
use crate::laws::state::{consistent, rule_key};
use crate::model::{
    ActivityDeliveryRow, ActivityEventRow, ActivityItemRow, ActivityReason, BookmarkItemRow,
    BookmarkRow, CategoryFocusLevel, PostRow, ThreadFollowLevel, ThreadRow,
};
use crate::rows::{
    collected, count_rows, first_index, last_row, lemma_filter_contains, lemma_first_index,
    limited, some_row, sorted,
};
use crate::store::activity::{
    activity_item, activity_order, activity_receipt_of, activity_stream, delivery_for,
    newest_post_by, newest_thread_by, reason_for,
};
use crate::store::bookmarks::{
    bookmark_among, bookmark_due, bookmark_item, bookmark_limit, bookmark_list, bookmark_listed,
    bookmark_order, bookmark_sort_at,
};
use crate::store::focus::{
    focus_item, focus_order, focus_page, rule_item, rule_item_order, rule_items, rule_of,
};
use crate::store::memory::Forum;
use crate::store::rules::best_reason;
use crate::store::tables::{category_is, post_is, post_is_in, thread_is};
use crate::store::types::{
    ActivityCursorRow, ActivityFilter, BookmarkCursorRow, BookmarkState, CategoryFocusItemRow,
    CategoryFocusReason, CategoryFocusRuleItemRow, MAX_BOOKMARK_PAGE, ThreadSort,
};
use crate::text::{blank_text, text_less};

verus! {

/// Whether a moment and a name come before others: by the moment, then by the name.
pub open spec fn comes_before(at: int, id: Seq<char>, at2: int, id2: Seq<char>) -> bool {
    at < at2 || at == at2 && text_less(id, id2)
}

/// A shorter page is the front of a longer one, and no page is longer than it may be.
proof fn lemma_fronts<A>(s: Seq<A>, limit: int, more: int)
    requires
        0 <= limit <= more,
    ensures
        limited(s, limit).len() <= limit,
        limited(s, limit).len() <= limited(s, more).len(),
        limited(s, limit).len() < limit ==> limited(s, more) == limited(s, limit),
        forall|k: int|
            0 <= k < limited(s, limit).len() ==> #[trigger] limited(s, limit)[k] == limited(
                s,
                more,
            )[k],
{
}

// ---------------------------------------------------------------------------
// Activity.
// ---------------------------------------------------------------------------

/// Whether a viewer was told of an event for a reason.
pub open spec fn heard(
    f: Forum,
    viewer_sub: Seq<char>,
    activity_id: Seq<char>,
    reason: ActivityReason,
) -> bool {
    exists|i: int|
        0 <= i < f.activity_deliveries.len() && (#[trigger] f.activity_deliveries[i]).activity_id
            == activity_id && f.activity_deliveries[i].delivery.recipient_kind is Subject
            && f.activity_deliveries[i].delivery.recipient_key == viewer_sub
            && f.activity_deliveries[i].delivery.reason == reason
}

/// The reason that is shown when there are several: a mention before a reply, a reply before an
/// accepted answer, and what is followed last.
pub open spec fn first_reason(f: Forum, viewer_sub: Seq<char>, activity_id: Seq<char>) -> Option<
    ActivityReason,
> {
    if heard(f, viewer_sub, activity_id, ActivityReason::Mention) {
        Some(ActivityReason::Mention)
    } else if heard(f, viewer_sub, activity_id, ActivityReason::Reply) {
        Some(ActivityReason::Reply)
    } else if heard(f, viewer_sub, activity_id, ActivityReason::Answer) {
        Some(ActivityReason::Answer)
    } else if heard(f, viewer_sub, activity_id, ActivityReason::Following) {
        Some(ActivityReason::Following)
    } else {
        None
    }
}

/// Whether a viewer has ticked an event off.
pub open spec fn ticked(f: Forum, viewer_sub: Seq<char>, activity_id: Seq<char>) -> bool {
    exists|i: int|
        0 <= i < f.activity_receipts.len() && (#[trigger] f.activity_receipts[i]).activity_id
            == activity_id && f.activity_receipts[i].viewer_sub == viewer_sub
}

/// Whether an address is that of the newest post of an actor.
pub open spec fn newest_words_of(f: Forum, actor_sub: Seq<char>, p: int) -> bool {
    &&& 0 <= p < f.posts.len()
    &&& f.posts[p].author_sub == actor_sub
    &&& forall|j: int|
        0 <= j < f.posts.len() && (#[trigger] f.posts[j]).author_sub == actor_sub ==> !comes_before(
            f.posts[p].created_at as int,
            f.posts[p].id,
            f.posts[j].created_at as int,
            f.posts[j].id,
        )
}

/// Whether an actor wrote no post.
pub open spec fn silent(f: Forum, actor_sub: Seq<char>) -> bool {
    forall|q: int| 0 <= q < f.posts.len() ==> (#[trigger] f.posts[q]).author_sub != actor_sub
}

/// Whether a thread is the newest one of an actor.
pub open spec fn newest_opening_of(f: Forum, actor_sub: Seq<char>, n: int) -> bool {
    &&& 0 <= n < f.threads.len()
    &&& f.threads[n].author_sub == actor_sub
    &&& forall|j: int|
        0 <= j < f.threads.len() && (#[trigger] f.threads[j]).author_sub == actor_sub
            ==> !comes_before(
            f.threads[n].created_at as int,
            f.threads[n].id,
            f.threads[j].created_at as int,
            f.threads[j].id,
        )
}

/// Whether an item tells an event as it was: who did it, in which thread and with which post, for
/// the first reason, and whether the viewer has ticked it off.
pub open spec fn tells(
    f: Forum,
    viewer_sub: Seq<char>,
    item: ActivityItemRow,
    n: int,
    p: int,
) -> bool {
    &&& thread_entry(f, item.event.thread_id, n)
    &&& post_entry(f, item.event.post_id, item.event.thread_id, p)
    &&& Some(item.reason) == first_reason(f, viewer_sub, item.event.id)
    &&& item.thread_title == f.threads[n].title
    &&& item.post_body_md == f.posts[p].body_md
    &&& item.post_created_at == f.posts[p].created_at
    &&& item.read == ticked(f, viewer_sub, item.event.id)
    &&& item.event.kind is PostCreated ==> item.actor_email == f.posts[p].author_email
    &&& item.event.kind is AnswerAccepted ==> ((exists|q: int| #[trigger]
        newest_words_of(f, item.event.actor_sub, q) && item.actor_email == f.posts[q].author_email)
        || (silent(f, item.event.actor_sub) && (exists|q: int| #[trigger]
        newest_opening_of(f, item.event.actor_sub, q) && item.actor_email
            == f.threads[q].author_email)) || (silent(f, item.event.actor_sub)
        && item.actor_email.len() == 0 && forall|q: int|
        0 <= q < f.threads.len() ==> (#[trigger] f.threads[q]).author_sub != item.event.actor_sub))
}

/// Whether the viewer asked for an item.
pub open spec fn asked_for(
    filter: ActivityFilter,
    unread_only: bool,
    before: Option<ActivityCursorRow>,
    event: ActivityEventRow,
    reason: ActivityReason,
    read: bool,
) -> bool {
    &&& match filter {
        ActivityFilter::All => true,
        ActivityFilter::Reason(wanted) => wanted == reason,
    }
    &&& unread_only ==> !read
    &&& match before {
        Some(c) => comes_before(event.created_at as int, event.id, c.created_at as int, c.id),
        None => true,
    }
}

proof fn lemma_best_reason(s: Seq<ActivityDeliveryRow>)
    ensures
        best_reason(s) is None <==> s.len() == 0,
        best_reason(s) is Some ==> exists|i: int|
            0 <= i < s.len() && (#[trigger] s[i]).reason == best_reason(s)->0,
        forall|i: int|
            0 <= i < s.len() ==> best_reason(s)->0.rank() <= (#[trigger] s[i]).reason.rank(),
    decreases s.len(),
{
    if s.len() > 0 {
        let d = s.drop_last();
        lemma_best_reason(d);
        assert forall|i: int| 0 <= i < s.len() implies best_reason(s)->0.rank() <= (
        #[trigger] s[i]).reason.rank() by {
            if i < d.len() {
                assert(d[i] == s[i]);
            }
        }
        if best_reason(d) is Some {
            let i = choose|i: int| 0 <= i < d.len() && (#[trigger] d[i]).reason == best_reason(d)->0;
            assert(s[i] == d[i]);
        }
        assert(s[s.len() - 1] == s.last());
    }
}

proof fn lemma_first_reason(f: Forum, viewer_sub: Seq<char>, id: Seq<char>)
    ensures
        reason_for(f, id, viewer_sub) == first_reason(f, viewer_sub, id),
{
    let g = delivery_for(id, viewer_sub);
    let rows = f.activity_deliveries;
    let own = collected(rows, g);
    lemma_best_reason(own);
    let sources = lemma_collected_sources(rows, g);
    assert forall|reason: ActivityReason| #[trigger] heard(f, viewer_sub, id, reason) implies exists|
        k: int,
    | 0 <= k < own.len() && (#[trigger] own[k]).reason == reason by {
        let i = choose|i: int|
            0 <= i < rows.len() && (#[trigger] rows[i]).activity_id == id
                && rows[i].delivery.recipient_kind is Subject && rows[i].delivery.recipient_key
                == viewer_sub && rows[i].delivery.reason == reason;
        lemma_collected_holds(rows, g, i);
        let k = choose|k: int| 0 <= k < own.len() && own[k] == rows[i].delivery;
        assert(own[k].reason == reason);
    }
    if own.len() > 0 {
        let k = choose|k: int| 0 <= k < own.len() && (#[trigger] own[k]).reason == best_reason(own)->0;
        let i = sources[k];
        assert(g(rows[i]) == Some(own[k]));
        assert(heard(f, viewer_sub, id, best_reason(own)->0));
    }
    assert(heard(f, viewer_sub, id, ActivityReason::Mention) ==> own.len() > 0);
    assert(heard(f, viewer_sub, id, ActivityReason::Reply) ==> own.len() > 0);
    assert(heard(f, viewer_sub, id, ActivityReason::Answer) ==> own.len() > 0);
    assert(heard(f, viewer_sub, id, ActivityReason::Following) ==> own.len() > 0);
}

proof fn lemma_ticked(f: Forum, viewer_sub: Seq<char>, id: Seq<char>)
    ensures
        some_row(f.activity_receipts, activity_receipt_of(id, viewer_sub)) <==> ticked(
            f,
            viewer_sub,
            id,
        ),
{
    if ticked(f, viewer_sub, id) {
        let i = choose|i: int|
            0 <= i < f.activity_receipts.len() && (#[trigger] f.activity_receipts[i]).activity_id
                == id && f.activity_receipts[i].viewer_sub == viewer_sub;
        assert(activity_receipt_of(id, viewer_sub)(f.activity_receipts[i]));
    }
}

proof fn lemma_newest_post(posts: Seq<PostRow>, actor_sub: Seq<char>)
    ensures
        newest_post_by(posts, actor_sub) is Some ==> exists|p: int|
            0 <= p < posts.len() && #[trigger] posts[p] == newest_post_by(posts, actor_sub)->0
                && posts[p].author_sub == actor_sub,
        forall|j: int|
            0 <= j < posts.len() && (#[trigger] posts[j]).author_sub == actor_sub
                ==> newest_post_by(posts, actor_sub) is Some && !comes_before(
                newest_post_by(posts, actor_sub)->0.created_at as int,
                newest_post_by(posts, actor_sub)->0.id,
                posts[j].created_at as int,
                posts[j].id,
            ),
    decreases posts.len(),
{
    if posts.len() > 0 {
        let d = posts.drop_last();
        let last = posts.last();
        lemma_newest_post(d, actor_sub);
        let best = newest_post_by(posts, actor_sub);
        if newest_post_by(d, actor_sub) is Some {
            let b = newest_post_by(d, actor_sub)->0;
            let p = choose|p: int|
                0 <= p < d.len() && #[trigger] d[p] == b && d[p].author_sub == actor_sub;
            assert(posts[p] == d[p]);
            law_key_less(
                b.created_at as int,
                b.id,
                last.created_at as int,
                last.id,
                b.created_at as int,
                b.id,
            );
        }
        assert(posts[posts.len() - 1] == last);
        law_key_less(
            last.created_at as int,
            last.id,
            last.created_at as int,
            last.id,
            last.created_at as int,
            last.id,
        );
        assert forall|j: int|
            0 <= j < posts.len() && (#[trigger] posts[j]).author_sub == actor_sub implies best is Some
            && !comes_before(
            best->0.created_at as int,
            best->0.id,
            posts[j].created_at as int,
            posts[j].id,
        ) by {
            if j < d.len() {
                assert(d[j] == posts[j]);
                let b = newest_post_by(d, actor_sub)->0;
                if last.author_sub == actor_sub {
                    lemma_not_less(
                        posts[j].created_at as int,
                        posts[j].id,
                        b.created_at as int,
                        b.id,
                        last.created_at as int,
                        last.id,
                    );
                }
            }
        }
    }
}

proof fn lemma_newest_thread(threads: Seq<ThreadRow>, actor_sub: Seq<char>)
    ensures
        newest_thread_by(threads, actor_sub) is Some ==> exists|p: int|
            0 <= p < threads.len() && #[trigger] threads[p] == newest_thread_by(threads, actor_sub)->0
                && threads[p].author_sub == actor_sub,
        forall|j: int|
            0 <= j < threads.len() && (#[trigger] threads[j]).author_sub == actor_sub
                ==> newest_thread_by(threads, actor_sub) is Some && !comes_before(
                newest_thread_by(threads, actor_sub)->0.created_at as int,
                newest_thread_by(threads, actor_sub)->0.id,
                threads[j].created_at as int,
                threads[j].id,
            ),
    decreases threads.len(),
{
    if threads.len() > 0 {
        let d = threads.drop_last();
        let last = threads.last();
        lemma_newest_thread(d, actor_sub);
        let best = newest_thread_by(threads, actor_sub);
        if newest_thread_by(d, actor_sub) is Some {
            let b = newest_thread_by(d, actor_sub)->0;
            let p = choose|p: int|
                0 <= p < d.len() && #[trigger] d[p] == b && d[p].author_sub == actor_sub;
            assert(threads[p] == d[p]);
            law_key_less(
                b.created_at as int,
                b.id,
                last.created_at as int,
                last.id,
                b.created_at as int,
                b.id,
            );
        }
        assert(threads[threads.len() - 1] == last);
        law_key_less(
            last.created_at as int,
            last.id,
            last.created_at as int,
            last.id,
            last.created_at as int,
            last.id,
        );
        assert forall|j: int|
            0 <= j < threads.len() && (#[trigger] threads[j]).author_sub == actor_sub implies best is Some
            && !comes_before(
            best->0.created_at as int,
            best->0.id,
            threads[j].created_at as int,
            threads[j].id,
        ) by {
            if j < d.len() {
                assert(d[j] == threads[j]);
                let b = newest_thread_by(d, actor_sub)->0;
                if last.author_sub == actor_sub {
                    lemma_not_less(
                        threads[j].created_at as int,
                        threads[j].id,
                        b.created_at as int,
                        b.id,
                        last.created_at as int,
                        last.id,
                    );
                }
            }
        }
    }
}

/// What an item of the list says.
proof fn lemma_tells(
    f: Forum,
    viewer_sub: Seq<char>,
    filter: ActivityFilter,
    unread_only: bool,
    before: Option<ActivityCursorRow>,
    e: ActivityEventRow,
) -> (at: (int, int))
    requires
        activity_item(f, viewer_sub, filter, unread_only, before)(e) is Some,
    ensures
        ({
            let item = activity_item(f, viewer_sub, filter, unread_only, before)(e)->0;
            &&& item.event == e
            &&& tells(f, viewer_sub, item, at.0, at.1)
            &&& asked_for(filter, unread_only, before, e, item.reason, item.read)
        }),
{
    let item = activity_item(f, viewer_sub, filter, unread_only, before)(e)->0;
    let which = thread_is(e.thread_id);
    let whose = post_is_in(e.post_id, e.thread_id);
    lemma_first_index(f.threads, which);
    lemma_first_index(f.posts, whose);
    let n = first_index(f.threads, which)->0;
    let p = first_index(f.posts, whose)->0;
    assert(which(f.threads[n]) && whose(f.posts[p]));
    assert(thread_entry(f, e.thread_id, n)) by {
        assert forall|j: int| 0 <= j < n implies (#[trigger] f.threads[j]).id != e.thread_id by {
            assert(!which(f.threads[j]));
        }
    }
    assert(post_entry(f, e.post_id, e.thread_id, p)) by {
        assert forall|j: int| 0 <= j < p implies (#[trigger] f.posts[j]).id != e.post_id
            || f.posts[j].thread_id != e.thread_id by {
            assert(!whose(f.posts[j]));
        }
    }
    lemma_first_reason(f, viewer_sub, e.id);
    lemma_ticked(f, viewer_sub, e.id);
    lemma_newest_post(f.posts, e.actor_sub);
    lemma_newest_thread(f.threads, e.actor_sub);
    if e.kind is AnswerAccepted && newest_post_by(f.posts, e.actor_sub) is None
        && newest_thread_by(f.threads, e.actor_sub) is Some {
        let q = choose|q: int|
            0 <= q < f.threads.len() && #[trigger] f.threads[q] == newest_thread_by(
                f.threads,
                e.actor_sub,
            )->0 && f.threads[q].author_sub == e.actor_sub;
        assert(newest_opening_of(f, e.actor_sub, q));
    }
    if e.kind is AnswerAccepted && newest_post_by(f.posts, e.actor_sub) is Some {
        let q = choose|q: int|
            0 <= q < f.posts.len() && #[trigger] f.posts[q] == newest_post_by(
                f.posts,
                e.actor_sub,
            )->0 && f.posts[q].author_sub == e.actor_sub;
        assert(newest_words_of(f, e.actor_sub, q));
    }
    (n, p)
}

/// Every event that a viewer was told of, that points at a live post and that the viewer asked for
/// is shown, unless the page is full; and nothing else is shown. Each item tells the event as it
/// was.
pub proof fn law_activity_shows_what_was_told(
    f: Forum,
    viewer_sub: Seq<char>,
    filter: ActivityFilter,
    unread_only: bool,
    before: Option<ActivityCursorRow>,
    limit: int,
)
    ensures
        ({
            let page = activity_stream(f, viewer_sub, filter, unread_only, before, limit);
            &&& page.len() < limit ==> forall|i: int, n: int, p: int|
                0 <= i < f.activity_events.len() && first_reason(
                    f,
                    viewer_sub,
                    (#[trigger] f.activity_events[i]).id,
                ) is Some && #[trigger] thread_entry(f, f.activity_events[i].thread_id, n)
                    && #[trigger] post_entry(
                    f,
                    f.activity_events[i].post_id,
                    f.activity_events[i].thread_id,
                    p,
                ) && asked_for(
                    filter,
                    unread_only,
                    before,
                    f.activity_events[i],
                    first_reason(f, viewer_sub, f.activity_events[i].id)->0,
                    ticked(f, viewer_sub, f.activity_events[i].id),
                ) ==> exists|k: int|
                    0 <= k < page.len() && (#[trigger] page[k]).event == f.activity_events[i]
                        && tells(f, viewer_sub, page[k], n, p)
            &&& forall|k: int|
                0 <= k < page.len() ==> f.activity_events.contains((#[trigger] page[k]).event)
                    && asked_for(
                    filter,
                    unread_only,
                    before,
                    page[k].event,
                    page[k].reason,
                    page[k].read,
                ) && exists|n: int, p: int| #[trigger] tells(f, viewer_sub, page[k], n, p)
        }),
{
    let g = activity_item(f, viewer_sub, filter, unread_only, before);
    let page = activity_stream(f, viewer_sub, filter, unread_only, before, limit);
    let events = f.activity_events;
    if page.len() < limit {
        assert forall|i: int, n: int, p: int|
            0 <= i < events.len() && first_reason(f, viewer_sub, (#[trigger] events[i]).id) is Some
                && #[trigger] thread_entry(f, events[i].thread_id, n) && #[trigger] post_entry(
                f,
                events[i].post_id,
                events[i].thread_id,
                p,
            ) && asked_for(
                filter,
                unread_only,
                before,
                events[i],
                first_reason(f, viewer_sub, events[i].id)->0,
                ticked(f, viewer_sub, events[i].id),
            ) implies exists|k: int|
            0 <= k < page.len() && (#[trigger] page[k]).event == events[i] && tells(
                f,
                viewer_sub,
                page[k],
                n,
                p,
            ) by {
            let e = events[i];
            lemma_first_reason(f, viewer_sub, e.id);
            lemma_ticked(f, viewer_sub, e.id);
            lemma_first_row_is(f.threads, thread_is(e.thread_id), n);
            lemma_first_row_is(f.posts, post_is_in(e.post_id, e.thread_id), p);
            assert(g(e) is Some);
            let at = lemma_tells(f, viewer_sub, filter, unread_only, before, e);
            let k = lemma_page_holds(events, g, activity_order(), limit, i);
            assert(at.0 == n) by {
                assert(f.threads[at.0].id == e.thread_id && f.threads[n].id == e.thread_id);
            }
            assert(at.1 == p) by {
                assert(f.posts[at.1].id == e.post_id && f.posts[p].id == e.post_id);
            }
            assert(page[k].event == e);
        }
    }
    assert forall|k: int| 0 <= k < page.len() implies events.contains((#[trigger] page[k]).event)
        && asked_for(
        filter,
        unread_only,
        before,
        page[k].event,
        page[k].reason,
        page[k].read,
    ) && exists|n: int, p: int| #[trigger] tells(f, viewer_sub, page[k], n, p) by {
        let i = lemma_page_source(events, g, activity_order(), limit, k);
        let at = lemma_tells(f, viewer_sub, filter, unread_only, before, events[i]);
        assert(tells(f, viewer_sub, page[k], at.0, at.1));
    }
}

/// Activity runs from new to old, and a shorter page is the front of a longer one.
pub proof fn law_activity_runs_back(
    f: Forum,
    viewer_sub: Seq<char>,
    filter: ActivityFilter,
    unread_only: bool,
    before: Option<ActivityCursorRow>,
    limit: int,
    more: int,
)
    requires
        0 <= limit <= more,
    ensures
        ({
            let page = activity_stream(f, viewer_sub, filter, unread_only, before, limit);
            let longer = activity_stream(f, viewer_sub, filter, unread_only, before, more);
            &&& page.len() <= limit
            &&& page.len() < limit ==> longer == page
            &&& forall|k: int| 0 <= k < page.len() ==> #[trigger] page[k] == longer[k]
            &&& forall|k: int, l: int|
                0 <= k < l < longer.len() ==> !comes_before(
                    (#[trigger] longer[k]).event.created_at as int,
                    longer[k].event.id,
                    (#[trigger] longer[l]).event.created_at as int,
                    longer[l].event.id,
                )
        }),
{
    let all = collected(
        f.activity_events,
        activity_item(f, viewer_sub, filter, unread_only, before),
    );
    law_activity_order();
    law_sorted(all, activity_order());
    lemma_fronts(sorted(all, activity_order()), limit, more);
    let longer = activity_stream(f, viewer_sub, filter, unread_only, before, more);
    assert forall|k: int, l: int| 0 <= k < l < longer.len() implies !comes_before(
        (#[trigger] longer[k]).event.created_at as int,
        longer[k].event.id,
        (#[trigger] longer[l]).event.created_at as int,
        longer[l].event.id,
    ) by {
        let s = sorted(all, activity_order());
        assert(activity_order()(s[k], s[l]));
    }
}

// ---------------------------------------------------------------------------
// Category focus.
// ---------------------------------------------------------------------------

/// Whether a viewer has a rule for a category.
pub open spec fn focuses(
    f: Forum,
    viewer_sub: Seq<char>,
    category_id: Seq<char>,
    level: CategoryFocusLevel,
) -> bool {
    exists|i: int|
        0 <= i < f.category_focus_rules.len() && (#[trigger] f.category_focus_rules[i]).viewer_sub
            == viewer_sub && f.category_focus_rules[i].category_id == category_id
            && f.category_focus_rules[i].level == level
}

/// Why a thread is in a viewer's focus: for its category, or, where the viewer muted that, for the
/// viewer's own tie to the thread. A muted thread is in nobody's focus.
pub open spec fn focus_tie(f: Forum, viewer_sub: Seq<char>, t: ThreadRow) -> Option<
    CategoryFocusReason,
> {
    if stands(f, viewer_sub, t.id, ThreadFollowLevel::Mute) {
        None
    } else if focuses(f, viewer_sub, t.category_id, CategoryFocusLevel::Priority) {
        Some(CategoryFocusReason::CategoryPriority)
    } else if focuses(f, viewer_sub, t.category_id, CategoryFocusLevel::Follow) {
        Some(CategoryFocusReason::CategoryFollow)
    } else if focuses(f, viewer_sub, t.category_id, CategoryFocusLevel::Mute) && stands(
        f,
        viewer_sub,
        t.id,
        ThreadFollowLevel::Watch,
    ) {
        Some(CategoryFocusReason::ThreadWatchOverride)
    } else if focuses(f, viewer_sub, t.category_id, CategoryFocusLevel::Mute) && stands(
        f,
        viewer_sub,
        t.id,
        ThreadFollowLevel::Follow,
    ) {
        Some(CategoryFocusReason::ThreadFollowOverride)
    } else {
        None
    }
}

/// Whether a row of the focus page shows the thread at `n` in the category at `c`.
pub open spec fn focus_row_of(
    f: Forum,
    viewer_sub: Seq<char>,
    row: CategoryFocusItemRow,
    n: int,
    c: int,
) -> bool {
    let t = f.threads[n];
    &&& 0 <= n < f.threads.len()
    &&& category_entry(f, t.category_id, c)
    &&& row.category == f.categories[c]
    &&& row.thread == (if f.categories[c].format is Question && names_an_answer(f, t) {
        t
    } else {
        ThreadRow { accepted_post_id: Seq::empty(), ..t }
    })
    &&& Some(row.reason) == focus_tie(f, viewer_sub, t)
    &&& focuses(f, viewer_sub, t.category_id, row.category_level)
    &&& if row.thread_level is Unset {
        forall|level: ThreadFollowLevel|
            !(level is Unset) ==> !#[trigger] stands(f, viewer_sub, t.id, level)
    } else {
        stands(f, viewer_sub, t.id, row.thread_level)
    }
}

/// Whether a row shows a thread that was in the viewer's focus by then.
pub open spec fn in_focus(
    f: Forum,
    viewer_sub: Seq<char>,
    as_of: i64,
    row: CategoryFocusItemRow,
) -> bool {
    exists|n: int, c: int| #[trigger]
        focus_row_of(f, viewer_sub, row, n, c) && f.threads[n].created_at <= as_of
}

proof fn lemma_focuses(f: Forum, viewer_sub: Seq<char>, category_id: Seq<char>)
    requires
        consistent(f),
    ensures
        forall|level: CategoryFocusLevel| #[trigger]
            focuses(f, viewer_sub, category_id, level) <==> (last_row(
                f.category_focus_rules,
                rule_of(viewer_sub, category_id),
            ) is Some && last_row(
                f.category_focus_rules,
                rule_of(viewer_sub, category_id),
            )->0.level == level),
{
    let s = f.category_focus_rules;
    let which = rule_of(viewer_sub, category_id);
    lemma_last_row(s, which);
    assert forall|level: CategoryFocusLevel| #[trigger]
        focuses(f, viewer_sub, category_id, level) <==> (last_row(s, which) is Some && last_row(
            s,
            which,
        )->0.level == level) by {
        if focuses(f, viewer_sub, category_id, level) {
            let i = choose|i: int|
                0 <= i < s.len() && (#[trigger] s[i]).viewer_sub == viewer_sub && s[i].category_id
                    == category_id && s[i].level == level;
            assert(which(s[i]));
            let k = choose|k: int|
                0 <= k < s.len() && which(#[trigger] s[k]) && s[k] == last_row(s, which)->0
                    && forall|j: int| k < j < s.len() ==> !which(#[trigger] s[j]);
            if k != i {
                assert(rule_key()(s[k]) != rule_key()(s[i]));
            }
        }
        if last_row(s, which) is Some && last_row(s, which)->0.level == level {
            let k = choose|k: int|
                0 <= k < s.len() && which(#[trigger] s[k]) && s[k] == last_row(s, which)->0
                    && forall|j: int| k < j < s.len() ==> !which(#[trigger] s[j]);
            assert(s[k].viewer_sub == viewer_sub);
        }
    }
}

proof fn lemma_focus_item(f: Forum, viewer_sub: Seq<char>, as_of: i64, n: int, c: int)
    requires
        consistent(f),
        0 <= n < f.threads.len(),
        category_entry(f, f.threads[n].category_id, c),
    ensures
        focus_item(f, viewer_sub, as_of)(f.threads[n]) is Some <==> f.threads[n].created_at <= as_of
            && focus_tie(f, viewer_sub, f.threads[n]) is Some,
        focus_item(f, viewer_sub, as_of)(f.threads[n]) is Some ==> focus_row_of(
            f,
            viewer_sub,
            focus_item(f, viewer_sub, as_of)(f.threads[n])->0,
            n,
            c,
        ),
{
    let t = f.threads[n];
    lemma_focuses(f, viewer_sub, t.category_id);
    lemma_stands(f, viewer_sub, t.id);
    lemma_category_entry(f, t.category_id, c);
    lemma_names_an_answer(f, t);
}

/// The focus page shows every thread that is in the viewer's focus by then, unless the page is
/// full, with the reason, the category and the levels that put it there; and it shows no other.
pub proof fn law_focus_shows_what_is_focused(
    f: Forum,
    viewer_sub: Seq<char>,
    limit: int,
    as_of: i64,
)
    requires
        consistent(f),
        focus_page(f, viewer_sub, limit, as_of) is Ok,
        !blank_text(viewer_sub),
    ensures
        ({
            let page = focus_page(f, viewer_sub, limit, as_of)->Ok_0;
            &&& page.len() <= limit
            &&& page.len() < limit ==> forall|n: int, c: int|
                0 <= n < f.threads.len() && #[trigger] category_entry(
                    f,
                    (#[trigger] f.threads[n]).category_id,
                    c,
                ) && f.threads[n].created_at <= as_of && focus_tie(
                    f,
                    viewer_sub,
                    f.threads[n],
                ) is Some ==> exists|k: int|
                    0 <= k < page.len() && focus_row_of(f, viewer_sub, #[trigger] page[k], n, c)
            &&& forall|k: int|
                0 <= k < page.len() ==> in_focus(f, viewer_sub, as_of, #[trigger] page[k])
        }),
{
    let g = focus_item(f, viewer_sub, as_of);
    let page = focus_page(f, viewer_sub, limit, as_of)->Ok_0;
    if page.len() < limit {
        assert forall|n: int, c: int|
            0 <= n < f.threads.len() && #[trigger] category_entry(
                f,
                (#[trigger] f.threads[n]).category_id,
                c,
            ) && f.threads[n].created_at <= as_of && focus_tie(
                f,
                viewer_sub,
                f.threads[n],
            ) is Some implies exists|k: int|
            0 <= k < page.len() && focus_row_of(f, viewer_sub, #[trigger] page[k], n, c) by {
            lemma_focus_item(f, viewer_sub, as_of, n, c);
            let k = lemma_page_holds(f.threads, g, focus_order(), limit, n);
            assert(focus_row_of(f, viewer_sub, page[k], n, c));
        }
    }
    assert forall|k: int| 0 <= k < page.len() implies in_focus(
        f,
        viewer_sub,
        as_of,
        #[trigger] page[k],
    ) by {
        let n = lemma_page_source(f.threads, g, focus_order(), limit, k);
        let which = category_is(f.threads[n].category_id);
        lemma_first_index(f.categories, which);
        let c = first_index(f.categories, which)->0;
        assert(which(f.categories[c]));
        assert(category_entry(f, f.threads[n].category_id, c)) by {
            assert forall|j: int| 0 <= j < c implies (#[trigger] f.categories[j]).id
                != f.threads[n].category_id by {
                assert(!which(f.categories[j]));
            }
        }
        lemma_focus_item(f, viewer_sub, as_of, n, c);
        assert(focus_row_of(f, viewer_sub, page[k], n, c));
    }
}

/// The focus page shows categories with priority first, then followed ones, then single threads;
/// inside each of these pinned threads stand first, and then the last active.
pub proof fn law_focus_order(f: Forum, viewer_sub: Seq<char>, limit: int, as_of: i64)
    requires
        focus_page(f, viewer_sub, limit, as_of) is Ok,
    ensures
        ({
            let page = focus_page(f, viewer_sub, limit, as_of)->Ok_0;
            forall|k: int, l: int|
                #![trigger page[k], page[l]]
                0 <= k < l < page.len() ==> {
                    &&& page[l].reason is CategoryPriority ==> page[k].reason is CategoryPriority
                    &&& page[l].reason is CategoryFollow ==> page[k].reason is CategoryPriority
                        || page[k].reason is CategoryFollow
                    &&& page[k].reason == page[l].reason ==> {
                        &&& page[l].thread.pinned ==> page[k].thread.pinned
                        &&& page[k].thread.pinned == page[l].thread.pinned
                            ==> page[k].thread.last_at >= page[l].thread.last_at
                    }
                }
        }),
{
    let page = focus_page(f, viewer_sub, limit, as_of)->Ok_0;
    let items = collected(f.threads, focus_item(f, viewer_sub, as_of));
    let all = sorted(items, focus_order());
    law_thread_orders(ThreadSort::Latest);
    law_sorted(items, focus_order());
    assert forall|k: int, l: int|
        #![trigger page[k], page[l]]
        0 <= k < l < page.len() implies {
        &&& page[l].reason is CategoryPriority ==> page[k].reason is CategoryPriority
        &&& page[l].reason is CategoryFollow ==> page[k].reason is CategoryPriority
            || page[k].reason is CategoryFollow
        &&& page[k].reason == page[l].reason ==> {
            &&& page[l].thread.pinned ==> page[k].thread.pinned
            &&& page[k].thread.pinned == page[l].thread.pinned ==> page[k].thread.last_at
                >= page[l].thread.last_at
        }
    } by {
        assert(focus_order()(all[k], all[l]));
        assert(page[k] == all[k] && page[l] == all[l]);
    }
}

/// The rule list shows each rule of the viewer for a live category, with that category, by the
/// order of the categories, and nothing else.
pub proof fn law_rules_are_listed(f: Forum, viewer_sub: Seq<char>)
    requires
        !blank_text(viewer_sub),
    ensures
        ({
            let list = rule_items(f, viewer_sub);
            &&& forall|i: int, c: int|
                0 <= i < f.category_focus_rules.len() && (
                #[trigger] f.category_focus_rules[i]).viewer_sub == viewer_sub
                    && #[trigger] category_entry(f, f.category_focus_rules[i].category_id, c)
                    ==> list.contains(
                    CategoryFocusRuleItemRow {
                        category: f.categories[c],
                        level: f.category_focus_rules[i].level,
                    },
                )
            &&& forall|k: int|
                0 <= k < list.len() ==> focuses(
                    f,
                    viewer_sub,
                    (#[trigger] list[k]).category.id,
                    list[k].level,
                ) && f.categories.contains(list[k].category)
            &&& forall|k: int, l: int|
                #![trigger list[k], list[l]]
                0 <= k < l < list.len() ==> list[k].category.sort_order
                    <= list[l].category.sort_order && (list[k].category.sort_order
                    == list[l].category.sort_order ==> !text_less(
                    list[l].category.id,
                    list[k].category.id,
                ))
        }),
{
    let g = rule_item(f, viewer_sub);
    let rules = f.category_focus_rules;
    let all = collected(rules, g);
    let list = rule_items(f, viewer_sub);
    law_record_orders();
    law_sorted(all, rule_item_order());
    law_sorted_members(all, rule_item_order());
    assert forall|i: int, c: int|
        0 <= i < rules.len() && (#[trigger] rules[i]).viewer_sub == viewer_sub
            && #[trigger] category_entry(f, rules[i].category_id, c) implies list.contains(
        CategoryFocusRuleItemRow { category: f.categories[c], level: rules[i].level },
    ) by {
        lemma_category_entry(f, rules[i].category_id, c);
        lemma_collected_holds(rules, g, i);
    }
    assert forall|k: int| 0 <= k < list.len() implies focuses(
        f,
        viewer_sub,
        (#[trigger] list[k]).category.id,
        list[k].level,
    ) && f.categories.contains(list[k].category) by {
        let sources = lemma_collected_sources(rules, g);
        assert(list.contains(list[k]));
        assert(all.contains(list[k]));
        let j = choose|j: int| 0 <= j < all.len() && all[j] == list[k];
        let i = sources[j];
        assert(g(rules[i]) == Some(list[k]));
        let which = category_is(rules[i].category_id);
        lemma_first_index(f.categories, which);
        let c = first_index(f.categories, which)->0;
        assert(which(f.categories[c]));
        assert(rules[i].viewer_sub == viewer_sub);
    }
    assert forall|k: int, l: int|
        #![trigger list[k], list[l]]
        0 <= k < l < list.len() implies list[k].category.sort_order <= list[l].category.sort_order
        && (list[k].category.sort_order == list[l].category.sort_order ==> !text_less(
        list[l].category.id,
        list[k].category.id,
    )) by {
        assert(rule_item_order()(list[k], list[l]));
    }
}

// ---------------------------------------------------------------------------
// Bookmarks.
// ---------------------------------------------------------------------------

/// Whether the post at `p` is the one with the identifier: the first.
pub open spec fn post_named(f: Forum, id: Seq<char>, p: int) -> bool {
    &&& 0 <= p < f.posts.len()
    &&& f.posts[p].id == id
    &&& forall|j: int| 0 <= j < p ==> (#[trigger] f.posts[j]).id != id
}

/// Whether a bookmark belongs to a list: any to the full one, one whose reminder has come to the
/// due ones, one whose reminder is still to come to the scheduled ones.
pub open spec fn on_list(state: BookmarkState, b: BookmarkRow, now: i64) -> bool {
    match (state, b.remind_at) {
        (BookmarkState::All, _) => true,
        (_, None) => false,
        (BookmarkState::Due, Some(at)) => at <= now,
        (BookmarkState::Scheduled, Some(at)) => at > now,
    }
}

/// The moment a bookmark is listed by.
pub open spec fn listed_at(state: BookmarkState, b: BookmarkRow) -> int {
    if state is All {
        b.created_at as int
    } else {
        b.remind_at->0 as int
    }
}

/// Whether a bookmark lies behind the cursor: older in the full list, to be reminded of later in
/// the others.
pub open spec fn is_behind(
    state: BookmarkState,
    cursor: Option<BookmarkCursorRow>,
    b: BookmarkRow,
) -> bool {
    match cursor {
        None => true,
        Some(c) => if state is All {
            comes_before(listed_at(state, b), b.post_id, c.sort_at as int, c.post_id)
        } else {
            comes_before(c.sort_at as int, c.post_id, listed_at(state, b), b.post_id)
        },
    }
}

/// Whether a row of a bookmark list shows the bookmark at `i` of the post at `p` in the thread at
/// `n`.
pub open spec fn saved_row(f: Forum, row: BookmarkItemRow, i: int, p: int, n: int) -> bool {
    &&& 0 <= i < f.bookmarks.len()
    &&& row.bookmark == f.bookmarks[i]
    &&& post_named(f, f.bookmarks[i].post_id, p)
    &&& thread_entry(f, f.posts[p].thread_id, n)
    &&& row.thread_id == f.threads[n].id
    &&& row.thread_title == f.threads[n].title
    &&& row.post_author_email == f.posts[p].author_email
    &&& row.post_body_md == f.posts[p].body_md
    &&& row.post_created_at == f.posts[p].created_at
}

proof fn lemma_saved_row(f: Forum, i: int, p: int, n: int)
    requires
        0 <= i < f.bookmarks.len(),
        post_named(f, f.bookmarks[i].post_id, p),
        thread_entry(f, f.posts[p].thread_id, n),
    ensures
        bookmark_item(f, f.bookmarks[i]) is Some,
        saved_row(f, bookmark_item(f, f.bookmarks[i])->0, i, p, n),
{
    lemma_first_row_is(f.posts, post_is(f.bookmarks[i].post_id), p);
    lemma_first_row_is(f.threads, thread_is(f.posts[p].thread_id), n);
}

proof fn lemma_saved_from(f: Forum, i: int) -> (at: (int, int))
    requires
        0 <= i < f.bookmarks.len(),
        bookmark_item(f, f.bookmarks[i]) is Some,
    ensures
        saved_row(f, bookmark_item(f, f.bookmarks[i])->0, i, at.0, at.1),
{
    let id = f.bookmarks[i].post_id;
    lemma_first_index(f.posts, post_is(id));
    let p = first_index(f.posts, post_is(id))->0;
    assert(post_is(id)(f.posts[p]));
    assert(post_named(f, id, p)) by {
        assert forall|j: int| 0 <= j < p implies (#[trigger] f.posts[j]).id != id by {
            assert(!post_is(id)(f.posts[j]));
        }
    }
    let thread_id = f.posts[p].thread_id;
    lemma_first_index(f.threads, thread_is(thread_id));
    let n = first_index(f.threads, thread_is(thread_id))->0;
    assert(thread_is(thread_id)(f.threads[n]));
    assert(thread_entry(f, thread_id, n)) by {
        assert forall|j: int| 0 <= j < n implies (#[trigger] f.threads[j]).id != thread_id by {
            assert(!thread_is(thread_id)(f.threads[j]));
        }
    }
    lemma_saved_row(f, i, p, n);
    (p, n)
}

/// A bookmark list shows every bookmark of its owner that belongs to it, unless the page is full,
/// with the post it saves and the thread of that; and it shows no other.
pub proof fn law_bookmarks_are_listed(
    f: Forum,
    owner_sub: Seq<char>,
    state: BookmarkState,
    cursor: Option<BookmarkCursorRow>,
    limit: int,
    now: i64,
)
    ensures
        ({
            let page = bookmark_list(f, owner_sub, state, cursor, limit, now);
            &&& limit >= 0 ==> page.len() <= limit
            &&& page.len() <= MAX_BOOKMARK_PAGE + 1
            &&& page.len() < limit && page.len() <= MAX_BOOKMARK_PAGE ==> forall|
                i: int,
                p: int,
                n: int,
            |
                0 <= i < f.bookmarks.len() && (#[trigger] f.bookmarks[i]).owner_sub == owner_sub
                    && on_list(state, f.bookmarks[i], now) && is_behind(
                    state,
                    cursor,
                    f.bookmarks[i],
                ) && #[trigger] post_named(f, f.bookmarks[i].post_id, p)
                    && #[trigger] thread_entry(f, f.posts[p].thread_id, n) ==> exists|k: int|
                    0 <= k < page.len() && saved_row(f, #[trigger] page[k], i, p, n)
            &&& forall|k: int|
                0 <= k < page.len() ==> (#[trigger] page[k]).bookmark.owner_sub == owner_sub
                    && on_list(state, page[k].bookmark, now) && is_behind(
                    state,
                    cursor,
                    page[k].bookmark,
                ) && exists|i: int, p: int, n: int| #[trigger] saved_row(f, page[k], i, p, n)
        }),
{
    let g = bookmark_listed(f, owner_sub, state, cursor, now);
    let le = bookmark_order(state);
    let most = bookmark_limit(limit);
    let page = bookmark_list(f, owner_sub, state, cursor, limit, now);
    let all = f.bookmarks;
    if page.len() < limit && page.len() <= MAX_BOOKMARK_PAGE {
        assert forall|i: int, p: int, n: int|
            0 <= i < all.len() && (#[trigger] all[i]).owner_sub == owner_sub && on_list(
                state,
                all[i],
                now,
            ) && is_behind(state, cursor, all[i]) && #[trigger] post_named(f, all[i].post_id, p)
                && #[trigger] thread_entry(f, f.posts[p].thread_id, n) implies exists|k: int|
            0 <= k < page.len() && saved_row(f, #[trigger] page[k], i, p, n) by {
            lemma_saved_row(f, i, p, n);
            assert(g(all[i]) == bookmark_item(f, all[i]));
            let k = lemma_page_holds(all, g, le, most, i);
            assert(saved_row(f, page[k], i, p, n));
        }
    }
    assert forall|k: int| 0 <= k < page.len() implies (#[trigger] page[k]).bookmark.owner_sub
        == owner_sub && on_list(state, page[k].bookmark, now) && is_behind(
        state,
        cursor,
        page[k].bookmark,
    ) && exists|i: int, p: int, n: int| #[trigger] saved_row(f, page[k], i, p, n) by {
        let i = lemma_page_source(all, g, le, most, k);
        let at = lemma_saved_from(f, i);
        assert(saved_row(f, page[k], i, at.0, at.1));
    }
}

/// The full list runs from new to old, the others from early to late reminders.
pub proof fn law_bookmarks_run(
    f: Forum,
    owner_sub: Seq<char>,
    state: BookmarkState,
    cursor: Option<BookmarkCursorRow>,
    limit: int,
    now: i64,
)
    ensures
        ({
            let page = bookmark_list(f, owner_sub, state, cursor, limit, now);
            forall|k: int, l: int|
                #![trigger page[k], page[l]]
                0 <= k < l < page.len() ==> if state is All {
                    !comes_before(
                        page[k].bookmark.created_at as int,
                        page[k].bookmark.post_id,
                        page[l].bookmark.created_at as int,
                        page[l].bookmark.post_id,
                    )
                } else {
                    !comes_before(
                        page[l].bookmark.remind_at->0 as int,
                        page[l].bookmark.post_id,
                        page[k].bookmark.remind_at->0 as int,
                        page[k].bookmark.post_id,
                    )
                }
        }),
{
    let g = bookmark_listed(f, owner_sub, state, cursor, now);
    let le = bookmark_order(state);
    let most = bookmark_limit(limit);
    let page = bookmark_list(f, owner_sub, state, cursor, limit, now);
    let all = sorted(collected(f.bookmarks, g), le);
    assert(orders(le)) by {
        assert forall|a: BookmarkItemRow, b: BookmarkItemRow| #[trigger] le(a, b) || le(b, a) by {
            let at = bookmark_sort_at(state, a.bookmark) as int;
            let at2 = bookmark_sort_at(state, b.bookmark) as int;
            law_key_less(at, a.bookmark.post_id, at2, b.bookmark.post_id, 0, a.bookmark.post_id);
        }
        assert forall|a: BookmarkItemRow, b: BookmarkItemRow, d: BookmarkItemRow| #[trigger]
            le(a, b) && #[trigger] le(b, d) implies le(a, d) by {
            let x = bookmark_sort_at(state, a.bookmark) as int;
            let y = bookmark_sort_at(state, b.bookmark) as int;
            let z = bookmark_sort_at(state, d.bookmark) as int;
            lemma_not_less(x, a.bookmark.post_id, y, b.bookmark.post_id, z, d.bookmark.post_id);
            lemma_not_less(z, d.bookmark.post_id, y, b.bookmark.post_id, x, a.bookmark.post_id);
        }
    }
    law_sorted(collected(f.bookmarks, g), le);
    assert forall|k: int, l: int|
        #![trigger page[k], page[l]]
        0 <= k < l < page.len() implies if state is All {
        !comes_before(
            page[k].bookmark.created_at as int,
            page[k].bookmark.post_id,
            page[l].bookmark.created_at as int,
            page[l].bookmark.post_id,
        )
    } else {
        !comes_before(
            page[l].bookmark.remind_at->0 as int,
            page[l].bookmark.post_id,
            page[k].bookmark.remind_at->0 as int,
            page[k].bookmark.post_id,
        )
    } by {
        assert(le(all[k], all[l]));
        let i = lemma_page_source(f.bookmarks, g, le, most, k);
        let j = lemma_page_source(f.bookmarks, g, le, most, l);
        assert(page[k].bookmark == f.bookmarks[i] && page[l].bookmark == f.bookmarks[j]);
    }
}

/// The due bookmarks are the owner's bookmarks of live posts whose reminder has come.
pub proof fn law_due_bookmarks_are_counted(f: Forum, owner_sub: Seq<char>, now: i64)
    ensures
        count_rows(f.bookmarks, bookmark_due(f, owner_sub, now)) == f.bookmarks.filter(
            |b: BookmarkRow|
                b.owner_sub == owner_sub && on_list(BookmarkState::Due, b, now) && (exists|p: int|
                    0 <= p < f.posts.len() && (#[trigger] f.posts[p]).id == b.post_id),
        ).len(),
{
    let due = |b: BookmarkRow|
        b.owner_sub == owner_sub && on_list(BookmarkState::Due, b, now) && (exists|p: int|
            0 <= p < f.posts.len() && (#[trigger] f.posts[p]).id == b.post_id);
    assert forall|b: BookmarkRow| #[trigger] due(b) == bookmark_due(f, owner_sub, now)(b) by {
        if exists|p: int| 0 <= p < f.posts.len() && (#[trigger] f.posts[p]).id == b.post_id {
            let p = choose|p: int| 0 <= p < f.posts.len() && (#[trigger] f.posts[p]).id == b.post_id;
            assert(post_is(b.post_id)(f.posts[p]));
        }
        if some_row(f.posts, post_is(b.post_id)) {
            let p = choose|p: int| 0 <= p < f.posts.len() && post_is(b.post_id)(#[trigger] f.posts[p]);
            assert(f.posts[p].id == b.post_id);
        }
    }
    assert(due =~= bookmark_due(f, owner_sub, now));
}

/// Of the requested posts the live ones that the owner saved come with their bookmarks, and no
/// others.
pub proof fn law_bookmarks_of_posts(
    f: Forum,
    owner_sub: Seq<char>,
    post_ids: Seq<Seq<char>>,
    b: BookmarkRow,
)
    ensures
        f.bookmarks.filter(bookmark_among(f, owner_sub, post_ids)).contains(b)
            <==> f.bookmarks.contains(b) && b.owner_sub == owner_sub && post_ids.contains(b.post_id)
            && exists|p: int| 0 <= p < f.posts.len() && (#[trigger] f.posts[p]).id == b.post_id,
{
    lemma_filter_contains(f.bookmarks, bookmark_among(f, owner_sub, post_ids));
    if exists|p: int| 0 <= p < f.posts.len() && (#[trigger] f.posts[p]).id == b.post_id {
        let p = choose|p: int| 0 <= p < f.posts.len() && (#[trigger] f.posts[p]).id == b.post_id;
        assert(post_is(b.post_id)(f.posts[p]));
    }
    if some_row(f.posts, post_is(b.post_id)) {
        let p = choose|p: int| 0 <= p < f.posts.len() && post_is(b.post_id)(#[trigger] f.posts[p]);
        assert(f.posts[p].id == b.post_id);
    }
}

} // verus!
