//! What holds in every state of the store.

use vstd::prelude::*;

use crate::laws::tables::{
    all_rows, distinct_by, lemma_all_filter, lemma_all_weaker, lemma_count_filter,
    lemma_distinct_filter, lemma_some_filter_keeps, lemma_some_push, lemma_some_update_first,
};
use crate::model::{
    ActivityEventRow, BannedAuthorRow, BookmarkRow, CategoryFormat, CategoryRow, PostRow,
    ThreadRow,
};
use crate::rows::{count_rows, some_row, update_first};
use crate::store::activity::event_is;
use crate::store::bookmarks::bookmark_by;
use crate::store::categories::{
    category_creation, category_deletion, category_is_not, category_transition, reformatted,
    renamed, reordered, rule_not_for, seeded,
};
use crate::store::focus::rule_by;
use crate::store::follow::delivery_of_to;
use crate::store::memory::{Forum, empty_forum};
use crate::store::posting::watches;
use crate::store::tables::{category_is, original_of, post_is, post_is_in, thread_in, thread_is};
use crate::store::types::{
    ActivityReceiptRow, CatchUpPostPointRow, CategoryFocusRuleRow, MAX_BOOKMARKS_PER_USER,
    MAX_CATEGORY_FOCUS_RULES, MAX_THREAD_FOLLOWERS, OriginalPostRow, ReactionRow, ReadReceiptRow,
    StoredActivityDeliveryRow, ThreadSubscriptionRow,
};

verus! {

// ---------------------------------------------------------------------------
// The invariant.
// ---------------------------------------------------------------------------

/// Threads of a category that exists.
pub open spec fn in_live_category(categories: Seq<CategoryRow>) -> spec_fn(ThreadRow) -> bool {
    |t: ThreadRow| some_row(categories, category_is(t.category_id))
}

/// Posts of a thread that exists.
pub open spec fn in_live_thread(threads: Seq<ThreadRow>) -> spec_fn(PostRow) -> bool {
    |p: PostRow| some_row(threads, thread_is(p.thread_id))
}

/// Threads whose original post is recorded and exists.
pub open spec fn opened(originals: Seq<OriginalPostRow>, posts: Seq<PostRow>) -> spec_fn(
    ThreadRow,
) -> bool {
    |t: ThreadRow|
        match original_of(originals, t.id) {
            Some(op) => some_row(posts, post_is_in(op, t.id)),
            None => false,
        }
}

/// The catch-up point of a post.
pub open spec fn point_for(p: PostRow) -> spec_fn(CatchUpPostPointRow) -> bool {
    |x: CatchUpPostPointRow| x.post_id == p.id && x.thread_id == p.thread_id
}

/// Posts that have a catch-up point.
pub open spec fn pointed(points: Seq<CatchUpPostPointRow>) -> spec_fn(PostRow) -> bool {
    |p: PostRow| some_row(points, point_for(p))
}

/// What a post is identified by.
pub open spec fn post_key() -> spec_fn(PostRow) -> Seq<char> {
    |p: PostRow| p.id
}

/// What a catch-up point is identified by.
pub open spec fn point_key() -> spec_fn(CatchUpPostPointRow) -> Seq<char> {
    |p: CatchUpPostPointRow| p.post_id
}

/// Whether the catch-up points carry ascending generations up to the clock, each once.
pub open spec fn points_ordered(points: Seq<CatchUpPostPointRow>, generation: i64) -> bool {
    &&& generation >= 0
    &&& forall|i: int|
        0 <= i < points.len() ==> 0 < (#[trigger] points[i]).seq && points[i].seq <= generation
    &&& forall|i: int, j: int|
        0 <= i < j < points.len() ==> (#[trigger] points[i]).seq < (#[trigger] points[j]).seq
}

/// Every thread has a category and an original post, every post has a thread and a place in the
/// catch-up record, and no identifier of a post is used twice.
pub open spec fn content_consistent(f: Forum) -> bool {
    &&& all_rows(f.threads, in_live_category(f.categories))
    &&& all_rows(f.threads, opened(f.original_posts, f.posts))
    &&& all_rows(f.posts, in_live_thread(f.threads))
    &&& all_rows(f.posts, pointed(f.post_points))
    &&& distinct_by(f.posts, post_key())
    &&& distinct_by(f.post_points, point_key())
    &&& points_ordered(f.post_points, f.generation)
}

/// Bookmarks of a post that exists.
pub open spec fn on_live_post(posts: Seq<PostRow>) -> spec_fn(BookmarkRow) -> bool {
    |b: BookmarkRow| some_row(posts, post_is(b.post_id))
}

/// Read receipts of a post that exists.
pub open spec fn for_live_post(posts: Seq<PostRow>) -> spec_fn(ReadReceiptRow) -> bool {
    |r: ReadReceiptRow| some_row(posts, post_is(r.post_id))
}

/// Read receipts up to the clock.
pub open spec fn read_by_clock(generation: i64) -> spec_fn(ReadReceiptRow) -> bool {
    |r: ReadReceiptRow| r.read_seq <= generation
}

/// Relationships to a thread that exists.
pub open spec fn to_live_thread(threads: Seq<ThreadRow>) -> spec_fn(ThreadSubscriptionRow) -> bool {
    |s: ThreadSubscriptionRow| some_row(threads, thread_is(s.thread_id))
}

/// Focus rules for a category that exists.
pub open spec fn for_live_category(categories: Seq<CategoryRow>) -> spec_fn(
    CategoryFocusRuleRow,
) -> bool {
    |r: CategoryFocusRuleRow| some_row(categories, category_is(r.category_id))
}

/// What a bookmark is identified by.
pub open spec fn bookmark_key() -> spec_fn(BookmarkRow) -> (Seq<char>, Seq<char>) {
    |b: BookmarkRow| (b.owner_sub, b.post_id)
}

/// What a read receipt is identified by.
pub open spec fn receipt_key() -> spec_fn(ReadReceiptRow) -> (Seq<char>, Seq<char>) {
    |r: ReadReceiptRow| (r.viewer_sub, r.post_id)
}

/// What a relationship is identified by.
pub open spec fn relation_key() -> spec_fn(ThreadSubscriptionRow) -> (Seq<char>, Seq<char>) {
    |s: ThreadSubscriptionRow| (s.thread_id, s.subscriber_sub)
}

/// What a focus rule is identified by.
pub open spec fn rule_key() -> spec_fn(CategoryFocusRuleRow) -> (Seq<char>, Seq<char>) {
    |r: CategoryFocusRuleRow| (r.viewer_sub, r.category_id)
}

/// An owner bookmarks live posts, each once, and no more than the bound.
pub open spec fn bookmarks_consistent(f: Forum) -> bool {
    &&& all_rows(f.bookmarks, on_live_post(f.posts))
    &&& distinct_by(f.bookmarks, bookmark_key())
    &&& forall|owner: Seq<char>|
        #[trigger] count_rows(f.bookmarks, bookmark_by(owner)) <= MAX_BOOKMARKS_PER_USER
}

/// A viewer has read live posts, each once, up to the clock.
pub open spec fn receipts_consistent(f: Forum) -> bool {
    &&& all_rows(f.read_receipts, for_live_post(f.posts))
    &&& all_rows(f.read_receipts, read_by_clock(f.generation))
    &&& distinct_by(f.read_receipts, receipt_key())
}

/// A viewer has one relationship to a live thread, and no thread has more watchers than the bound.
pub open spec fn relations_consistent(f: Forum) -> bool {
    &&& all_rows(f.subscriptions, to_live_thread(f.threads))
    &&& distinct_by(f.subscriptions, relation_key())
    &&& forall|id: Seq<char>|
        #[trigger] count_rows(f.subscriptions, watches(id)) <= MAX_THREAD_FOLLOWERS
}

/// A viewer has one focus rule for a live category, and no more rules than the bound.
pub open spec fn rules_consistent(f: Forum) -> bool {
    &&& all_rows(f.category_focus_rules, for_live_category(f.categories))
    &&& distinct_by(f.category_focus_rules, rule_key())
    &&& forall|viewer: Seq<char>|
        #[trigger] count_rows(f.category_focus_rules, rule_by(viewer)) <= MAX_CATEGORY_FOCUS_RULES
}

/// Events about a post that exists.
pub open spec fn about_live_post(posts: Seq<PostRow>) -> spec_fn(ActivityEventRow) -> bool {
    |e: ActivityEventRow| some_row(posts, post_is_in(e.post_id, e.thread_id))
}

/// Deliveries of an event that exists.
pub open spec fn of_known_event(events: Seq<ActivityEventRow>) -> spec_fn(
    StoredActivityDeliveryRow,
) -> bool {
    |d: StoredActivityDeliveryRow| some_row(events, event_is(d.activity_id))
}

/// Receipts of an event that was delivered to the viewer.
pub open spec fn of_known_delivery(deliveries: Seq<StoredActivityDeliveryRow>) -> spec_fn(
    ActivityReceiptRow,
) -> bool {
    |r: ActivityReceiptRow| some_row(deliveries, delivery_of_to(r.activity_id, r.viewer_sub))
}

/// What an activity receipt is identified by.
pub open spec fn activity_receipt_key() -> spec_fn(ActivityReceiptRow) -> (Seq<char>, Seq<char>) {
    |r: ActivityReceiptRow| (r.activity_id, r.viewer_sub)
}

/// Every event is about a live post, every delivery belongs to an event, and every receipt to a
/// delivery.
pub open spec fn activity_consistent(f: Forum) -> bool {
    &&& all_rows(f.activity_events, about_live_post(f.posts))
    &&& all_rows(f.activity_deliveries, of_known_event(f.activity_events))
    &&& all_rows(f.activity_receipts, of_known_delivery(f.activity_deliveries))
    &&& distinct_by(f.activity_receipts, activity_receipt_key())
}

/// What a reaction is identified by.
pub open spec fn reaction_key() -> spec_fn(ReactionRow) -> (Seq<char>, Seq<char>, Seq<char>) {
    |r: ReactionRow| (r.post_id, r.user_sub, r.kind)
}

/// What a ban is identified by.
pub open spec fn ban_key() -> spec_fn(BannedAuthorRow) -> Seq<char> {
    |b: BannedAuthorRow| b.author_sub
}

/// What holds in every state: nothing refers to what does not exist, nothing is stored twice, and
/// every bound is kept.
pub open spec fn consistent(f: Forum) -> bool {
    &&& content_consistent(f)
    &&& bookmarks_consistent(f)
    &&& receipts_consistent(f)
    &&& relations_consistent(f)
    &&& rules_consistent(f)
    &&& activity_consistent(f)
    &&& distinct_by(f.reactions, reaction_key())
    &&& distinct_by(f.banned, ban_key())
}

/// The empty forum is consistent.
pub proof fn law_empty_is_consistent()
    ensures
        consistent(empty_forum()),
{
    reveal(Seq::filter);
}

// ---------------------------------------------------------------------------
// Frames.
// ---------------------------------------------------------------------------

/// Whether every post of `f` is still there in `g`, in its thread.
pub open spec fn keeps_posts(f: Forum, g: Forum) -> bool {
    forall|id: Seq<char>, thread_id: Seq<char>|
        some_row(f.posts, #[trigger] post_is_in(id, thread_id)) ==> some_row(
            g.posts,
            post_is_in(id, thread_id),
        )
}

/// Whether every thread of `f` is still there in `g`.
pub open spec fn keeps_threads(f: Forum, g: Forum) -> bool {
    forall|id: Seq<char>|
        some_row(f.threads, #[trigger] thread_is(id)) ==> some_row(g.threads, thread_is(id))
}

/// Whether every category of `f` is still there in `g`.
pub open spec fn keeps_categories(f: Forum, g: Forum) -> bool {
    forall|id: Seq<char>|
        some_row(f.categories, #[trigger] category_is(id)) ==> some_row(
            g.categories,
            category_is(id),
        )
}

pub proof fn lemma_post_is(posts: Seq<PostRow>, id: Seq<char>)
    ensures
        some_row(posts, post_is(id)) <==> exists|t: Seq<char>|
            some_row(posts, #[trigger] post_is_in(id, t)),
{
    if some_row(posts, post_is(id)) {
        let i = choose|i: int| 0 <= i < posts.len() && post_is(id)(#[trigger] posts[i]);
        assert(post_is_in(id, posts[i].thread_id)(posts[i]));
    }
    if exists|t: Seq<char>| some_row(posts, #[trigger] post_is_in(id, t)) {
        let t = choose|t: Seq<char>| some_row(posts, #[trigger] post_is_in(id, t));
        let i = choose|i: int| 0 <= i < posts.len() && post_is_in(id, t)(#[trigger] posts[i]);
        assert(post_is(id)(posts[i]));
    }
}

proof fn lemma_keeps_post(f: Forum, g: Forum, id: Seq<char>)
    requires
        keeps_posts(f, g),
        some_row(f.posts, post_is(id)),
    ensures
        some_row(g.posts, post_is(id)),
{
    lemma_post_is(f.posts, id);
    lemma_post_is(g.posts, id);
    let t = choose|t: Seq<char>| some_row(f.posts, #[trigger] post_is_in(id, t));
    assert(some_row(g.posts, post_is_in(id, t)));
}

/// Personal records and activity that are not touched stay consistent when posts, threads, and
/// categories stay.
pub proof fn lemma_untouched(f: Forum, g: Forum)
    requires
        bookmarks_consistent(f),
        receipts_consistent(f),
        relations_consistent(f),
        rules_consistent(f),
        activity_consistent(f),
        keeps_posts(f, g),
        keeps_threads(f, g),
        keeps_categories(f, g),
        g.generation >= f.generation,
    ensures
        g.bookmarks == f.bookmarks ==> bookmarks_consistent(g),
        g.read_receipts == f.read_receipts ==> receipts_consistent(g),
        g.subscriptions == f.subscriptions ==> relations_consistent(g),
        g.category_focus_rules == f.category_focus_rules ==> rules_consistent(g),
        g.activity_events == f.activity_events && g.activity_deliveries == f.activity_deliveries
            && g.activity_receipts == f.activity_receipts ==> activity_consistent(g),
        all_rows(f.activity_events, about_live_post(g.posts)),
{
    assert forall|b: BookmarkRow| #[trigger] on_live_post(f.posts)(b) implies on_live_post(
        g.posts,
    )(b) by {
        lemma_keeps_post(f, g, b.post_id);
    }
    lemma_all_weaker(f.bookmarks, on_live_post(f.posts), on_live_post(g.posts));
    assert forall|r: ReadReceiptRow| #[trigger] for_live_post(f.posts)(r) implies for_live_post(
        g.posts,
    )(r) by {
        lemma_keeps_post(f, g, r.post_id);
    }
    lemma_all_weaker(f.read_receipts, for_live_post(f.posts), for_live_post(g.posts));
    lemma_all_weaker(f.read_receipts, read_by_clock(f.generation), read_by_clock(g.generation));
    assert forall|s: ThreadSubscriptionRow| #[trigger] to_live_thread(f.threads)(s) implies
        to_live_thread(g.threads)(s) by {
        assert(some_row(f.threads, thread_is(s.thread_id)));
    }
    lemma_all_weaker(f.subscriptions, to_live_thread(f.threads), to_live_thread(g.threads));
    assert forall|r: CategoryFocusRuleRow| #[trigger] for_live_category(f.categories)(r) implies
        for_live_category(g.categories)(r) by {
        assert(some_row(f.categories, category_is(r.category_id)));
    }
    lemma_all_weaker(
        f.category_focus_rules,
        for_live_category(f.categories),
        for_live_category(g.categories),
    );
    assert forall|e: ActivityEventRow| #[trigger] about_live_post(f.posts)(e) implies
        about_live_post(g.posts)(e) by {
        assert(some_row(f.posts, post_is_in(e.post_id, e.thread_id)));
    }
    lemma_all_weaker(f.activity_events, about_live_post(f.posts), about_live_post(g.posts));
}

pub proof fn lemma_same_posts(f: Forum, g: Forum)
    requires
        g.posts == f.posts,
    ensures
        keeps_posts(f, g),
{
}

pub proof fn lemma_same_threads(f: Forum, g: Forum)
    requires
        g.threads == f.threads,
    ensures
        keeps_threads(f, g),
{
}

pub proof fn lemma_same_categories(f: Forum, g: Forum)
    requires
        g.categories == f.categories,
    ensures
        keeps_categories(f, g),
{
}

/// Content that is not touched stays consistent, whatever happens to the other tables.
pub proof fn lemma_content_untouched(f: Forum, g: Forum)
    requires
        content_consistent(f),
        g.categories == f.categories,
        g.threads == f.threads,
        g.posts == f.posts,
        g.original_posts == f.original_posts,
        g.post_points == f.post_points,
        g.generation >= f.generation,
    ensures
        content_consistent(g),
        keeps_posts(f, g),
        keeps_threads(f, g),
        keeps_categories(f, g),
{
}

// ---------------------------------------------------------------------------
// Categories.
// ---------------------------------------------------------------------------

/// A change of one category that keeps its identifier.
proof fn lemma_category_changed(f: Forum, id: Seq<char>, change: spec_fn(CategoryRow) -> CategoryRow)
    requires
        consistent(f),
        forall|c: CategoryRow| (#[trigger] change(c)).id == c.id,
    ensures
        consistent(
            (Forum { categories: update_first(f.categories, category_is(id), change), ..f }),
        ),
{
    let g = Forum { categories: update_first(f.categories, category_is(id), change), ..f };
    assert(keeps_categories(f, g)) by {
        assert forall|k: Seq<char>| some_row(f.categories, #[trigger] category_is(k)) implies
            some_row(g.categories, category_is(k)) by {
            lemma_some_update_first(f.categories, category_is(id), change, category_is(k));
        }
    }
    assert forall|t: ThreadRow| #[trigger] in_live_category(f.categories)(t) implies
        in_live_category(g.categories)(t) by {
        assert(some_row(f.categories, category_is(t.category_id)));
    }
    lemma_all_weaker(f.threads, in_live_category(f.categories), in_live_category(g.categories));
    lemma_same_posts(f, g);
    lemma_same_threads(f, g);
    lemma_untouched(f, g);
}

/// Seeding a forum with categories keeps it consistent.
pub proof fn law_seeding_is_consistent(f: Forum, defaults: Seq<CategoryRow>)
    requires
        consistent(f),
    ensures
        consistent(seeded(f, defaults)),
{
    let g = seeded(f, defaults);
    if f.categories.len() == 0 {
        assert(keeps_categories(f, g));
        assert(f.threads.len() == 0) by {
            if f.threads.len() > 0 {
                assert(in_live_category(f.categories)(f.threads[0]));
            }
        }
        lemma_same_posts(f, g);
        lemma_same_threads(f, g);
        lemma_untouched(f, g);
    }
}

/// A new category keeps the forum consistent.
pub proof fn law_category_creation_is_consistent(f: Forum, category: CategoryRow)
    requires
        consistent(f),
    ensures
        consistent(category_creation(f, category)),
{
    let g = Forum { categories: f.categories.push(category), ..f };
    assert(keeps_categories(f, g)) by {
        assert forall|k: Seq<char>| some_row(f.categories, #[trigger] category_is(k)) implies
            some_row(g.categories, category_is(k)) by {
            lemma_some_push(f.categories, category, category_is(k));
        }
    }
    assert forall|t: ThreadRow| #[trigger] in_live_category(f.categories)(t) implies
        in_live_category(g.categories)(t) by {
        assert(some_row(f.categories, category_is(t.category_id)));
    }
    lemma_all_weaker(f.threads, in_live_category(f.categories), in_live_category(g.categories));
    lemma_same_posts(f, g);
    lemma_same_threads(f, g);
    lemma_untouched(f, g);
}

/// Renaming and reordering a category keep the forum consistent.
pub proof fn law_category_edits_are_consistent(
    f: Forum,
    id: Seq<char>,
    name: Seq<char>,
    sort_order: i64,
)
    requires
        consistent(f),
    ensures
        consistent(
            (Forum { categories: update_first(f.categories, category_is(id), renamed(name)), ..f }),
        ),
        consistent(
            (Forum {
                categories: update_first(f.categories, category_is(id), reordered(sort_order)),
                ..f
            }),
        ),
{
    lemma_category_changed(f, id, renamed(name));
    lemma_category_changed(f, id, reordered(sort_order));
}

/// A change of a category's format keeps the forum consistent.
pub proof fn law_transition_is_consistent(f: Forum, id: Seq<char>, format: CategoryFormat)
    requires
        consistent(f),
    ensures
        consistent(category_transition(f, id, format).0),
{
    lemma_category_changed(f, id, reformatted(format));
}

/// Deleting a category keeps the forum consistent: no thread and no rule is left without its
/// category.
pub proof fn law_category_deletion_is_consistent(f: Forum, id: Seq<char>)
    requires
        consistent(f),
    ensures
        consistent(category_deletion(f, id).0),
{
    let g = category_deletion(f, id).0;
    if !some_row(f.threads, thread_in(id)) {
        assert forall|i: int| 0 <= i < g.threads.len() implies in_live_category(g.categories)(
            #[trigger] g.threads[i],
        ) by {
            let t = f.threads[i];
            assert(in_live_category(f.categories)(t));
            assert(t.category_id != id) by {
                if t.category_id == id {
                    assert(thread_in(id)(f.threads[i]));
                }
            }
            lemma_some_filter_keeps(f.categories, category_is_not(id), category_is(t.category_id));
        }
        let rules = f.category_focus_rules;
        lemma_all_filter(rules, rule_not_for(id), for_live_category(f.categories));
        let kept = rules.filter(rule_not_for(id));
        assert forall|i: int| 0 <= i < kept.len() implies for_live_category(g.categories)(
            #[trigger] kept[i],
        ) by {
            assert(for_live_category(f.categories)(kept[i]));
            assert(rule_not_for(id)(kept[i]));
            lemma_some_filter_keeps(
                f.categories,
                category_is_not(id),
                category_is(kept[i].category_id),
            );
        }
        lemma_distinct_filter(rules, rule_not_for(id), rule_key());
        assert forall|viewer: Seq<char>|
            #[trigger] count_rows(kept, rule_by(viewer)) <= MAX_CATEGORY_FOCUS_RULES by {
            lemma_count_filter(rules, rule_not_for(id), rule_by(viewer));
            assert(count_rows(rules, rule_by(viewer)) <= MAX_CATEGORY_FOCUS_RULES);
        }
        let h = Forum { categories: f.categories, category_focus_rules: rules, ..g };
        assert(h =~= f);
    }
}

} // verus!
