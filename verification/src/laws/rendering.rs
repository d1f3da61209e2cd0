//! What pages show, and in which order.

use vstd::prelude::*;

use crate::text::escape_text;
use crate::view_model::{
    ActivityFilterLinkVM, ActivityFilterVM, ActivityItemVM, ActivityReadScopeLinkVM,
    ActivityReadScopeVM, AdminCategoryVM, AdminThreadVM, AnswerDaisVM, BannedAuthorVM,
    BookmarkItemVM, CatchUpItemVM, CategoryRefVM, CategoryVM, FocusItemVM, FocusRuleVM,
    HiddenField, LinkActionVM, Opaque, PostVM, ReactionVM, SearchResultVM, Text, ThreadOrder,
    ThreadOrderLinkVM, ThreadRowShared, ThreadRowVM, ThreadRowViewerState, ThreadScope,
    ThreadScopeLinkVM, ThreadView,
};
use crate::views::{
    answer_dais_html, hidden_fields_html, post_html, reaction_items_html, review_links_html,
    thread_row_html,
};
use crate::views::admin::{
    admin_category_rows_html, admin_thread_rows_html, banned_author_rows_html,
};
use crate::views::forum::{
    compose_options_html, move_options_html, on_dais, order_tabs_html, reply_post_html,
    reply_posts_html, reply_steps_html, scope_tabs_html, summary_items_html, terrace_items_html,
    thread_head_html, thread_main_html, thread_rows_html,
};
use crate::views::personal::{
    activity_filter_tabs_html, activity_item_html, activity_items_html, activity_scope_tabs_html,
    bookmark_item_html, bookmark_items_html, catch_up_items_html, focus_items_html,
    focus_rules_html,
};
use crate::views::search::{category_options_html, result_rows_html};

verus! {

proof fn lemma_join(a: Seq<char>, b: Seq<char>, c: Seq<char>)
    ensures
        (a + b) + c == a + (b + c),
{
    assert((a + b) + c =~= a + (b + c));
}

proof fn lemma_join_nothing(a: Seq<char>)
    ensures
        a + Seq::<char>::empty() == a,
{
    assert(a + Seq::<char>::empty() =~= a);
}

// ---------------------------------------------------------------------------
// Lists.
// ---------------------------------------------------------------------------

/// The categories of the console stand in their order: what comes first is shown first.
pub proof fn law_admin_category_rows_keep_their_order(
    first: Seq<AdminCategoryVM>,
    second: Seq<AdminCategoryVM>,
)
    ensures
        admin_category_rows_html(first + second) == admin_category_rows_html(first) + admin_category_rows_html(second),
    decreases second.len(),
{
    if second.len() == 0 {
        assert(first + second =~= first);
        assert(admin_category_rows_html(first) + Seq::<char>::empty() =~= admin_category_rows_html(first));
    } else {
        let front = second.drop_last();
        law_admin_category_rows_keep_their_order(first, front);
        assert((first + second).drop_last() =~= first + front);
        assert((first + second).last() == second.last());
        assert(admin_category_rows_html(first + second) =~= admin_category_rows_html(first) + admin_category_rows_html(second));
    }
}

/// The threads of the console stand in their order: what comes first is shown first.
pub proof fn law_admin_thread_rows_keep_their_order(
    first: Seq<AdminThreadVM>,
    second: Seq<AdminThreadVM>,
    now: i64,
)
    ensures
        admin_thread_rows_html(first + second, now) == admin_thread_rows_html(first, now) + admin_thread_rows_html(second, now),
    decreases second.len(),
{
    if second.len() == 0 {
        assert(first + second =~= first);
        assert(admin_thread_rows_html(first, now) + Seq::<char>::empty() =~= admin_thread_rows_html(first, now));
    } else {
        let front = second.drop_last();
        law_admin_thread_rows_keep_their_order(first, front, now);
        assert((first + second).drop_last() =~= first + front);
        assert((first + second).last() == second.last());
        assert(admin_thread_rows_html(first + second, now) =~= admin_thread_rows_html(first, now) + admin_thread_rows_html(second, now));
    }
}

/// The blocked authors stand in their order: what comes first is shown first.
pub proof fn law_banned_author_rows_keep_their_order(
    first: Seq<BannedAuthorVM>,
    second: Seq<BannedAuthorVM>,
    now: i64,
)
    ensures
        banned_author_rows_html(first + second, now) == banned_author_rows_html(first, now) + banned_author_rows_html(second, now),
    decreases second.len(),
{
    if second.len() == 0 {
        assert(first + second =~= first);
        assert(banned_author_rows_html(first, now) + Seq::<char>::empty() =~= banned_author_rows_html(first, now));
    } else {
        let front = second.drop_last();
        law_banned_author_rows_keep_their_order(first, front, now);
        assert((first + second).drop_last() =~= first + front);
        assert((first + second).last() == second.last());
        assert(banned_author_rows_html(first + second, now) =~= banned_author_rows_html(first, now) + banned_author_rows_html(second, now));
    }
}

/// The order tabs stand in their order: what comes first is shown first.
pub proof fn law_order_tabs_keep_their_order(
    first: Seq<ThreadOrderLinkVM>,
    second: Seq<ThreadOrderLinkVM>,
    active: ThreadOrder,
)
    ensures
        order_tabs_html(first + second, active) == order_tabs_html(first, active) + order_tabs_html(second, active),
    decreases second.len(),
{
    if second.len() == 0 {
        assert(first + second =~= first);
        assert(order_tabs_html(first, active) + Seq::<char>::empty() =~= order_tabs_html(first, active));
    } else {
        let front = second.drop_last();
        law_order_tabs_keep_their_order(first, front, active);
        assert((first + second).drop_last() =~= first + front);
        assert((first + second).last() == second.last());
        assert(order_tabs_html(first + second, active) =~= order_tabs_html(first, active) + order_tabs_html(second, active));
    }
}

/// The scope tabs stand in their order: what comes first is shown first.
pub proof fn law_scope_tabs_keep_their_order(
    first: Seq<ThreadScopeLinkVM>,
    second: Seq<ThreadScopeLinkVM>,
    active: ThreadScope,
)
    ensures
        scope_tabs_html(first + second, active) == scope_tabs_html(first, active) + scope_tabs_html(second, active),
    decreases second.len(),
{
    if second.len() == 0 {
        assert(first + second =~= first);
        assert(scope_tabs_html(first, active) + Seq::<char>::empty() =~= scope_tabs_html(first, active));
    } else {
        let front = second.drop_last();
        law_scope_tabs_keep_their_order(first, front, active);
        assert((first + second).drop_last() =~= first + front);
        assert((first + second).last() == second.last());
        assert(scope_tabs_html(first + second, active) =~= scope_tabs_html(first, active) + scope_tabs_html(second, active));
    }
}

/// Thread rows stand in the order in which they are given: what comes first is shown first.
pub proof fn law_thread_rows_keep_their_order(
    first: Seq<ThreadRowVM>,
    second: Seq<ThreadRowVM>,
    now: i64,
)
    ensures
        thread_rows_html(first + second, now) == thread_rows_html(first, now) + thread_rows_html(second, now),
    decreases second.len(),
{
    if second.len() == 0 {
        assert(first + second =~= first);
        lemma_join_nothing(thread_rows_html(first, now));
    } else {
        let front = second.drop_last();
        law_thread_rows_keep_their_order(first, front, now);
        assert((first + second).drop_last() =~= first + front);
        assert((first + second).last() == second.last());
        let x = second.last();
        lemma_join(thread_rows_html(first, now), thread_rows_html(front, now), thread_row_html(&x.shared, &x.viewer, now));
    }
}

/// The categories stand in their order: what comes first is shown first.
pub proof fn law_terrace_items_keep_their_order(
    first: Seq<CategoryVM>,
    second: Seq<CategoryVM>,
)
    ensures
        terrace_items_html(first + second) == terrace_items_html(first) + terrace_items_html(second),
    decreases second.len(),
{
    if second.len() == 0 {
        assert(first + second =~= first);
        assert(terrace_items_html(first) + Seq::<char>::empty() =~= terrace_items_html(first));
    } else {
        let front = second.drop_last();
        law_terrace_items_keep_their_order(first, front);
        assert((first + second).drop_last() =~= first + front);
        assert((first + second).last() == second.last());
        assert(terrace_items_html(first + second) =~= terrace_items_html(first) + terrace_items_html(second));
    }
}

/// The sentences of a summary stand in their order: what comes first is shown first.
pub proof fn law_summary_items_keep_their_order(
    first: Seq<Text>,
    second: Seq<Text>,
)
    ensures
        summary_items_html(first + second) == summary_items_html(first) + summary_items_html(second),
    decreases second.len(),
{
    if second.len() == 0 {
        assert(first + second =~= first);
        assert(summary_items_html(first) + Seq::<char>::empty() =~= summary_items_html(first));
    } else {
        let front = second.drop_last();
        law_summary_items_keep_their_order(first, front);
        assert((first + second).drop_last() =~= first + front);
        assert((first + second).last() == second.last());
        assert(summary_items_html(first + second) =~= summary_items_html(first) + summary_items_html(second));
    }
}

/// The categories to move to stand in their order: what comes first is shown first.
pub proof fn law_move_options_keep_their_order(
    first: Seq<CategoryRefVM>,
    second: Seq<CategoryRefVM>,
    selected: &Opaque,
)
    ensures
        move_options_html(first + second, selected) == move_options_html(first, selected) + move_options_html(second, selected),
    decreases second.len(),
{
    if second.len() == 0 {
        assert(first + second =~= first);
        assert(move_options_html(first, selected) + Seq::<char>::empty() =~= move_options_html(first, selected));
    } else {
        let front = second.drop_last();
        law_move_options_keep_their_order(first, front, selected);
        assert((first + second).drop_last() =~= first + front);
        assert((first + second).last() == second.last());
        assert(move_options_html(first + second, selected) =~= move_options_html(first, selected) + move_options_html(second, selected));
    }
}

/// Replies stand in the order in which they are given: what comes first is shown first.
pub proof fn law_reply_posts_keep_their_order(
    first: Seq<PostVM>,
    second: Seq<PostVM>,
    dais: &Option<AnswerDaisVM>,
    now: i64,
)
    ensures
        reply_posts_html(first + second, dais, now) == reply_posts_html(first, dais, now) + reply_posts_html(second, dais, now),
    decreases second.len(),
{
    if second.len() == 0 {
        assert(first + second =~= first);
        lemma_join_nothing(reply_posts_html(first, dais, now));
    } else {
        let front = second.drop_last();
        law_reply_posts_keep_their_order(first, front, dais, now);
        assert((first + second).drop_last() =~= first + front);
        assert((first + second).last() == second.last());
        let x = second.last();
        lemma_join(reply_posts_html(first, dais, now), reply_posts_html(front, dais, now), reply_post_html(dais, &x, now));
    }
}

/// The categories to write in stand in their order: what comes first is shown first.
pub proof fn law_compose_options_keep_their_order(
    first: Seq<CategoryVM>,
    second: Seq<CategoryVM>,
    selected: Option<&Opaque>,
)
    ensures
        compose_options_html(first + second, selected) == compose_options_html(first, selected) + compose_options_html(second, selected),
    decreases second.len(),
{
    if second.len() == 0 {
        assert(first + second =~= first);
        assert(compose_options_html(first, selected) + Seq::<char>::empty() =~= compose_options_html(first, selected));
    } else {
        let front = second.drop_last();
        law_compose_options_keep_their_order(first, front, selected);
        assert((first + second).drop_last() =~= first + front);
        assert((first + second).last() == second.last());
        assert(compose_options_html(first + second, selected) =~= compose_options_html(first, selected) + compose_options_html(second, selected));
    }
}

/// Hidden fields stand in their order: what comes first is shown first.
pub proof fn law_hidden_fields_keep_their_order(
    first: Seq<HiddenField>,
    second: Seq<HiddenField>,
)
    ensures
        hidden_fields_html(first + second) == hidden_fields_html(first) + hidden_fields_html(second),
    decreases second.len(),
{
    if second.len() == 0 {
        assert(first + second =~= first);
        assert(hidden_fields_html(first) + Seq::<char>::empty() =~= hidden_fields_html(first));
    } else {
        let front = second.drop_last();
        law_hidden_fields_keep_their_order(first, front);
        assert((first + second).drop_last() =~= first + front);
        assert((first + second).last() == second.last());
        assert(hidden_fields_html(first + second) =~= hidden_fields_html(first) + hidden_fields_html(second));
    }
}

/// Reactions stand in their order: what comes first is shown first.
pub proof fn law_reaction_items_keep_their_order(
    first: Seq<ReactionVM>,
    second: Seq<ReactionVM>,
)
    ensures
        reaction_items_html(first + second) == reaction_items_html(first) + reaction_items_html(second),
    decreases second.len(),
{
    if second.len() == 0 {
        assert(first + second =~= first);
        assert(reaction_items_html(first) + Seq::<char>::empty() =~= reaction_items_html(first));
    } else {
        let front = second.drop_last();
        law_reaction_items_keep_their_order(first, front);
        assert((first + second).drop_last() =~= first + front);
        assert((first + second).last() == second.last());
        assert(reaction_items_html(first + second) =~= reaction_items_html(first) + reaction_items_html(second));
    }
}

/// Review links stand in their order: what comes first is shown first.
pub proof fn law_review_links_keep_their_order(
    first: Seq<LinkActionVM>,
    second: Seq<LinkActionVM>,
)
    ensures
        review_links_html(first + second) == review_links_html(first) + review_links_html(second),
    decreases second.len(),
{
    if second.len() == 0 {
        assert(first + second =~= first);
        assert(review_links_html(first) + Seq::<char>::empty() =~= review_links_html(first));
    } else {
        let front = second.drop_last();
        law_review_links_keep_their_order(first, front);
        assert((first + second).drop_last() =~= first + front);
        assert((first + second).last() == second.last());
        assert(review_links_html(first + second) =~= review_links_html(first) + review_links_html(second));
    }
}

/// The rows of the desk stand in their order: what comes first is shown first.
pub proof fn law_catch_up_items_keep_their_order(
    first: Seq<CatchUpItemVM>,
    second: Seq<CatchUpItemVM>,
    now: i64,
)
    ensures
        catch_up_items_html(first + second, now) == catch_up_items_html(first, now) + catch_up_items_html(second, now),
    decreases second.len(),
{
    if second.len() == 0 {
        assert(first + second =~= first);
        assert(catch_up_items_html(first, now) + Seq::<char>::empty() =~= catch_up_items_html(first, now));
    } else {
        let front = second.drop_last();
        law_catch_up_items_keep_their_order(first, front, now);
        assert((first + second).drop_last() =~= first + front);
        assert((first + second).last() == second.last());
        assert(catch_up_items_html(first + second, now) =~= catch_up_items_html(first, now) + catch_up_items_html(second, now));
    }
}

/// Focus rules stand in their order: what comes first is shown first.
pub proof fn law_focus_rules_keep_their_order(
    first: Seq<FocusRuleVM>,
    second: Seq<FocusRuleVM>,
)
    ensures
        focus_rules_html(first + second) == focus_rules_html(first) + focus_rules_html(second),
    decreases second.len(),
{
    if second.len() == 0 {
        assert(first + second =~= first);
        assert(focus_rules_html(first) + Seq::<char>::empty() =~= focus_rules_html(first));
    } else {
        let front = second.drop_last();
        law_focus_rules_keep_their_order(first, front);
        assert((first + second).drop_last() =~= first + front);
        assert((first + second).last() == second.last());
        assert(focus_rules_html(first + second) =~= focus_rules_html(first) + focus_rules_html(second));
    }
}

/// The rows of the focus page stand in their order: what comes first is shown first.
pub proof fn law_focus_items_keep_their_order(
    first: Seq<FocusItemVM>,
    second: Seq<FocusItemVM>,
    now: i64,
)
    ensures
        focus_items_html(first + second, now) == focus_items_html(first, now) + focus_items_html(second, now),
    decreases second.len(),
{
    if second.len() == 0 {
        assert(first + second =~= first);
        assert(focus_items_html(first, now) + Seq::<char>::empty() =~= focus_items_html(first, now));
    } else {
        let front = second.drop_last();
        law_focus_items_keep_their_order(first, front, now);
        assert((first + second).drop_last() =~= first + front);
        assert((first + second).last() == second.last());
        assert(focus_items_html(first + second, now) =~= focus_items_html(first, now) + focus_items_html(second, now));
    }
}

/// The activity scopes stand in their order: what comes first is shown first.
pub proof fn law_activity_scope_tabs_keep_their_order(
    first: Seq<ActivityReadScopeLinkVM>,
    second: Seq<ActivityReadScopeLinkVM>,
    active: ActivityReadScopeVM,
)
    ensures
        activity_scope_tabs_html(first + second, active) == activity_scope_tabs_html(first, active) + activity_scope_tabs_html(second, active),
    decreases second.len(),
{
    if second.len() == 0 {
        assert(first + second =~= first);
        assert(activity_scope_tabs_html(first, active) + Seq::<char>::empty() =~= activity_scope_tabs_html(first, active));
    } else {
        let front = second.drop_last();
        law_activity_scope_tabs_keep_their_order(first, front, active);
        assert((first + second).drop_last() =~= first + front);
        assert((first + second).last() == second.last());
        assert(activity_scope_tabs_html(first + second, active) =~= activity_scope_tabs_html(first, active) + activity_scope_tabs_html(second, active));
    }
}

/// The activity filters stand in their order: what comes first is shown first.
pub proof fn law_activity_filter_tabs_keep_their_order(
    first: Seq<ActivityFilterLinkVM>,
    second: Seq<ActivityFilterLinkVM>,
    active: ActivityFilterVM,
)
    ensures
        activity_filter_tabs_html(first + second, active) == activity_filter_tabs_html(first, active) + activity_filter_tabs_html(second, active),
    decreases second.len(),
{
    if second.len() == 0 {
        assert(first + second =~= first);
        assert(activity_filter_tabs_html(first, active) + Seq::<char>::empty() =~= activity_filter_tabs_html(first, active));
    } else {
        let front = second.drop_last();
        law_activity_filter_tabs_keep_their_order(first, front, active);
        assert((first + second).drop_last() =~= first + front);
        assert((first + second).last() == second.last());
        assert(activity_filter_tabs_html(first + second, active) =~= activity_filter_tabs_html(first, active) + activity_filter_tabs_html(second, active));
    }
}

/// Events stand in their order: what comes first is shown first.
pub proof fn law_activity_items_keep_their_order(
    first: Seq<ActivityItemVM>,
    second: Seq<ActivityItemVM>,
    now: i64,
)
    ensures
        activity_items_html(first + second, now) == activity_items_html(first, now) + activity_items_html(second, now),
    decreases second.len(),
{
    if second.len() == 0 {
        assert(first + second =~= first);
        lemma_join_nothing(activity_items_html(first, now));
    } else {
        let front = second.drop_last();
        law_activity_items_keep_their_order(first, front, now);
        assert((first + second).drop_last() =~= first + front);
        assert((first + second).last() == second.last());
        let x = second.last();
        lemma_join(activity_items_html(first, now), activity_items_html(front, now), activity_item_html(&x, now));
    }
}

/// Bookmarks stand in their order: what comes first is shown first.
pub proof fn law_bookmark_items_keep_their_order(
    first: Seq<BookmarkItemVM>,
    second: Seq<BookmarkItemVM>,
    now: i64,
)
    ensures
        bookmark_items_html(first + second, now) == bookmark_items_html(first, now) + bookmark_items_html(second, now),
    decreases second.len(),
{
    if second.len() == 0 {
        assert(first + second =~= first);
        lemma_join_nothing(bookmark_items_html(first, now));
    } else {
        let front = second.drop_last();
        law_bookmark_items_keep_their_order(first, front, now);
        assert((first + second).drop_last() =~= first + front);
        assert((first + second).last() == second.last());
        let x = second.last();
        lemma_join(bookmark_items_html(first, now), bookmark_items_html(front, now), bookmark_item_html(&x, now));
    }
}

/// The categories to search in stand in their order: what comes first is shown first.
pub proof fn law_category_options_keep_their_order(
    first: Seq<CategoryVM>,
    second: Seq<CategoryVM>,
    selected: Option<&Opaque>,
)
    ensures
        category_options_html(first + second, selected) == category_options_html(first, selected) + category_options_html(second, selected),
    decreases second.len(),
{
    if second.len() == 0 {
        assert(first + second =~= first);
        assert(category_options_html(first, selected) + Seq::<char>::empty() =~= category_options_html(first, selected));
    } else {
        let front = second.drop_last();
        law_category_options_keep_their_order(first, front, selected);
        assert((first + second).drop_last() =~= first + front);
        assert((first + second).last() == second.last());
        assert(category_options_html(first + second, selected) =~= category_options_html(first, selected) + category_options_html(second, selected));
    }
}

/// Search results stand in their order: what comes first is shown first.
pub proof fn law_result_rows_keep_their_order(
    first: Seq<SearchResultVM>,
    second: Seq<SearchResultVM>,
    now: i64,
)
    ensures
        result_rows_html(first + second, now) == result_rows_html(first, now) + result_rows_html(second, now),
    decreases second.len(),
{
    if second.len() == 0 {
        assert(first + second =~= first);
        assert(result_rows_html(first, now) + Seq::<char>::empty() =~= result_rows_html(first, now));
    } else {
        let front = second.drop_last();
        law_result_rows_keep_their_order(first, front, now);
        assert((first + second).drop_last() =~= first + front);
        assert((first + second).last() == second.last());
        assert(result_rows_html(first + second, now) =~= result_rows_html(first, now) + result_rows_html(second, now));
    }
}

// ---------------------------------------------------------------------------
// What stands in a text.
// ---------------------------------------------------------------------------

/// Whether a text shows a part.
pub open spec fn shows_part(text: Seq<char>, part: Seq<char>) -> bool {
    exists|i: int|
        0 <= i <= text.len() - part.len() && #[trigger] text.subrange(i, i + part.len()) == part
}

pub broadcast proof fn lemma_shows_left(x: Seq<char>, y: Seq<char>, part: Seq<char>)
    requires
        shows_part(x, part),
    ensures
        #[trigger] shows_part(x + y, part),
{
    let i = choose|i: int|
        0 <= i <= x.len() - part.len() && #[trigger] x.subrange(i, i + part.len()) == part;
    assert((x + y).subrange(i, i + part.len()) =~= part);
}

pub broadcast proof fn lemma_shows_right(x: Seq<char>, y: Seq<char>, part: Seq<char>)
    requires
        shows_part(y, part),
    ensures
        #[trigger] shows_part(x + y, part),
{
    let i = choose|i: int|
        0 <= i <= y.len() - part.len() && #[trigger] y.subrange(i, i + part.len()) == part;
    assert((x + y).subrange(x.len() + i, x.len() + i + part.len()) =~= part);
}

pub broadcast proof fn lemma_shows_itself(x: Seq<char>)
    ensures
        #[trigger] shows_part(x, x),
{
    let i: int = 0;
    assert(x.subrange(i, i + x.len()) =~= x);
}

pub broadcast group group_shows {
    lemma_shows_left,
    lemma_shows_right,
    lemma_shows_itself,
}

/// A thread row shows its title, its author, and its route, each escaped, and says whether the
/// thread is pinned or locked.
pub proof fn law_row_shows_its_thread(
    shared: &ThreadRowShared,
    viewer: &ThreadRowViewerState,
    now: i64,
)
    ensures
        shows_part(thread_row_html(shared, viewer, now), escape_text(shared.title.0@)),
        shows_part(thread_row_html(shared, viewer, now), escape_text(shared.author_display.0@)),
        shows_part(thread_row_html(shared, viewer, now), escape_text("/t/"@ + shared.id.0@)),
        shared.pinned ==> shows_part(thread_row_html(shared, viewer, now), escape_text("Pinned"@)),
        shared.locked ==> shows_part(thread_row_html(shared, viewer, now), escape_text("Locked"@)),
        shared.category is Some ==> shows_part(
            thread_row_html(shared, viewer, now),
            escape_text(shared.category->0.name.0@),
        ),
{
    broadcast use group_shows;
}

// ---------------------------------------------------------------------------
// The thread page.
// ---------------------------------------------------------------------------

/// Whether a text shows a part and another one behind it.
pub open spec fn shows_before(text: Seq<char>, part: Seq<char>, later: Seq<char>) -> bool {
    exists|i: int, j: int|
        0 <= i && i + part.len() <= j <= text.len() - later.len() && #[trigger] text.subrange(
            i,
            i + part.len(),
        ) == part && #[trigger] text.subrange(j, j + later.len()) == later
}

pub broadcast proof fn lemma_before_left(
    x: Seq<char>,
    y: Seq<char>,
    part: Seq<char>,
    later: Seq<char>,
)
    requires
        shows_before(x, part, later),
    ensures
        #[trigger] shows_before(x + y, part, later),
{
    let (i, j) = choose|i: int, j: int|
        0 <= i && i + part.len() <= j <= x.len() - later.len() && #[trigger] x.subrange(
            i,
            i + part.len(),
        ) == part && #[trigger] x.subrange(j, j + later.len()) == later;
    assert((x + y).subrange(i, i + part.len()) =~= part);
    assert((x + y).subrange(j, j + later.len()) =~= later);
}

pub broadcast proof fn lemma_before_right(
    x: Seq<char>,
    y: Seq<char>,
    part: Seq<char>,
    later: Seq<char>,
)
    requires
        shows_before(y, part, later),
    ensures
        #[trigger] shows_before(x + y, part, later),
{
    let (i, j) = choose|i: int, j: int|
        0 <= i && i + part.len() <= j <= y.len() - later.len() && #[trigger] y.subrange(
            i,
            i + part.len(),
        ) == part && #[trigger] y.subrange(j, j + later.len()) == later;
    let n = x.len() as int;
    assert((x + y).subrange(n + i, n + i + part.len()) =~= part);
    assert((x + y).subrange(n + j, n + j + later.len()) =~= later);
}

pub broadcast proof fn lemma_before_both(
    x: Seq<char>,
    y: Seq<char>,
    part: Seq<char>,
    later: Seq<char>,
)
    requires
        shows_part(x, part),
        shows_part(y, later),
    ensures
        #[trigger] shows_before(x + y, part, later),
{
    let i = choose|i: int|
        0 <= i <= x.len() - part.len() && #[trigger] x.subrange(i, i + part.len()) == part;
    let j = choose|j: int|
        0 <= j <= y.len() - later.len() && #[trigger] y.subrange(j, j + later.len()) == later;
    let n = x.len() as int;
    assert((x + y).subrange(i, i + part.len()) =~= part);
    assert((x + y).subrange(n + j, n + j + later.len()) =~= later);
}

pub broadcast group group_before {
    lemma_before_left,
    lemma_before_right,
    lemma_before_both,
}

/// A post shows its body as it is, its author, when it was written, its place, and what it quotes.
pub proof fn law_post_shows_its_content(p: &PostVM, now: i64)
    ensures
        shows_part(post_html(p, now), p.body.0@),
        shows_part(post_html(p, now), escape_text(p.author_display.0@)),
        shows_part(post_html(p, now), "post-"@ + escape_text(p.id.0@)),
        p.quote is Some ==> shows_part(post_html(p, now), p.quote->0.body.0@),
        p.quote is Some ==> shows_part(post_html(p, now), escape_text(p.quote->0.author_display.0@)),
        p.quote is Some ==> shows_before(post_html(p, now), p.quote->0.body.0@, p.body.0@),
        shows_before(post_html(p, now), escape_text(p.author_display.0@), p.body.0@),
        p.viewer.resume_anchor is Some ==> shows_part(
            post_html(p, now),
            escape_text((p.viewer.resume_anchor->0).0@),
        ),
{
    broadcast use {group_shows, group_before};
}

/// Whether a reply is the accepted answer that is shown apart.
pub open spec fn shown_apart(v: &ThreadView, reply: PostVM) -> bool {
    v.dais is Some && v.dais->0.post.id.0@ == reply.id.0@
}

/// A reply that is not shown apart stands among the replies.
proof fn lemma_reply_stands(
    replies: Seq<PostVM>,
    dais: &Option<AnswerDaisVM>,
    now: i64,
    i: int,
)
    requires
        0 <= i < replies.len(),
        !on_dais(*dais, replies[i]),
    ensures
        shows_part(reply_posts_html(replies, dais, now), post_html(&replies[i], now)),
    decreases replies.len(),
{
    let d = replies.drop_last();
    let x = replies.last();
    let rest = reply_posts_html(d, dais, now);
    let item = reply_post_html(dais, &x, now);
    if i < d.len() {
        lemma_reply_stands(d, dais, now, i);
        lemma_joined_left(
            reply_posts_html(replies, dais, now),
            rest,
            item,
            post_html(&replies[i], now),
        );
    } else {
        lemma_joined_right(reply_posts_html(replies, dais, now), rest, item);
    }
}

proof fn lemma_joined_left(whole: Seq<char>, a: Seq<char>, b: Seq<char>, part: Seq<char>)
    requires
        whole == a + b,
        shows_part(a, part),
    ensures
        shows_part(whole, part),
{
    lemma_shows_left(a, b, part);
}

proof fn lemma_joined_right(whole: Seq<char>, a: Seq<char>, b: Seq<char>)
    requires
        whole == a + b,
    ensures
        shows_part(whole, b),
{
    lemma_shows_itself(b);
    lemma_shows_right(a, b, b);
}

/// Of two replies that are not shown apart the earlier one stands first.
proof fn lemma_replies_stand(
    replies: Seq<PostVM>,
    dais: &Option<AnswerDaisVM>,
    now: i64,
    i: int,
    j: int,
)
    requires
        0 <= i < j < replies.len(),
        !on_dais(*dais, replies[i]),
        !on_dais(*dais, replies[j]),
    ensures
        shows_before(
            reply_posts_html(replies, dais, now),
            post_html(&replies[i], now),
            post_html(&replies[j], now),
        ),
{
    let front = replies.take(j);
    let back = replies.skip(j);
    assert(front + back =~= replies);
    law_reply_posts_keep_their_order(front, back, dais, now);
    lemma_reply_stands(front, dais, now, i);
    lemma_reply_stands(back, dais, now, 0);
    assert(front[i] == replies[i] && back[0] == replies[j]);
    lemma_before_both(
        reply_posts_html(front, dais, now),
        reply_posts_html(back, dais, now),
        post_html(&replies[i], now),
        post_html(&replies[j], now),
    );
}

/// The thread page shows the title, the original post, the accepted answer behind it, and behind
/// both the replies, in the order in which they are given and without the one that is shown apart.
pub proof fn law_thread_page_order(v: &ThreadView)
    ensures
        ({
            let page = thread_main_html(v);
            &&& shows_part(page, escape_text(v.shared.title.0@))
            &&& shows_part(page, post_html(&v.op, v.now))
            &&& v.dais is Some ==> shows_before(
                page,
                post_html(&v.op, v.now),
                post_html(&v.dais->0.post, v.now),
            )
            &&& forall|i: int|
                0 <= i < v.replies@.len() && !shown_apart(v, #[trigger] v.replies@[i]) ==> {
                    &&& shows_before(
                        page,
                        post_html(&v.op, v.now),
                        post_html(&v.replies@[i], v.now),
                    )
                    &&& v.dais is Some ==> shows_before(
                        page,
                        post_html(&v.dais->0.post, v.now),
                        post_html(&v.replies@[i], v.now),
                    )
                }
            &&& forall|i: int, j: int|
                0 <= i < j < v.replies@.len() && !shown_apart(v, #[trigger] v.replies@[i])
                    && !shown_apart(v, #[trigger] v.replies@[j]) ==> shows_before(
                    page,
                    post_html(&v.replies@[i], v.now),
                    post_html(&v.replies@[j], v.now),
                )
        }),
{
    let page = thread_main_html(v);
    lemma_page_title(v);
    lemma_page_posts(v);
    assert forall|i: int|
        0 <= i < v.replies@.len() && !shown_apart(v, #[trigger] v.replies@[i]) implies {
        &&& shows_before(page, post_html(&v.op, v.now), post_html(&v.replies@[i], v.now))
        &&& v.dais is Some ==> shows_before(
            page,
            post_html(&v.dais->0.post, v.now),
            post_html(&v.replies@[i], v.now),
        )
    } by {
        let reply = post_html(&v.replies@[i], v.now);
        lemma_reply_stands(v.replies@, &v.dais, v.now, i);
        lemma_steps_show(v, reply);
        lemma_page_steps(v, reply);
    }
    assert forall|i: int, j: int|
        0 <= i < j < v.replies@.len() && !shown_apart(v, #[trigger] v.replies@[i]) && !shown_apart(
            v,
            #[trigger] v.replies@[j],
        ) implies shows_before(
        page,
        post_html(&v.replies@[i], v.now),
        post_html(&v.replies@[j], v.now),
    ) by {
        let a = post_html(&v.replies@[i], v.now);
        let b = post_html(&v.replies@[j], v.now);
        lemma_replies_stand(v.replies@, &v.dais, v.now, i, j);
        lemma_steps_show_before(v, a, b, i);
        lemma_page_steps_before(v, a, b);
    }
}

proof fn lemma_page_title(v: &ThreadView)
    ensures
        shows_part(thread_main_html(v), escape_text(v.shared.title.0@)),
{
    broadcast use group_shows;

    assert(shows_part(thread_head_html(&v.shared, &v.viewer, v.now), escape_text(v.shared.title.0@)));
}

proof fn lemma_page_posts(v: &ThreadView)
    ensures
        shows_part(thread_main_html(v), post_html(&v.op, v.now)),
        v.dais is Some ==> shows_before(
            thread_main_html(v),
            post_html(&v.op, v.now),
            post_html(&v.dais->0.post, v.now),
        ),
{
    broadcast use {group_shows, group_before};

    if v.dais is Some {
        assert(shows_part(answer_dais_html(&v.dais->0, v.now), post_html(&v.dais->0.post, v.now)));
    }
}

proof fn lemma_steps_show(v: &ThreadView, part: Seq<char>)
    requires
        shows_part(reply_posts_html(v.replies@, &v.dais, v.now), part),
        exists|i: int| 0 <= i < v.replies@.len() && !on_dais(v.dais, #[trigger] v.replies@[i]),
    ensures
        shows_part(reply_steps_html(v), part),
{
    broadcast use group_shows;

}

proof fn lemma_steps_show_before(v: &ThreadView, part: Seq<char>, later: Seq<char>, i: int)
    requires
        shows_before(reply_posts_html(v.replies@, &v.dais, v.now), part, later),
        0 <= i < v.replies@.len(),
        !on_dais(v.dais, v.replies@[i]),
    ensures
        shows_before(reply_steps_html(v), part, later),
{
    broadcast use {lemma_before_left, lemma_before_right};

}

proof fn lemma_page_steps(v: &ThreadView, part: Seq<char>)
    requires
        shows_part(reply_steps_html(v), part),
    ensures
        shows_before(thread_main_html(v), post_html(&v.op, v.now), part),
        v.dais is Some ==> shows_before(
            thread_main_html(v),
            post_html(&v.dais->0.post, v.now),
            part,
        ),
{
    broadcast use {group_shows, group_before};

    if v.dais is Some {
        assert(shows_part(answer_dais_html(&v.dais->0, v.now), post_html(&v.dais->0.post, v.now)));
    }
}

proof fn lemma_page_steps_before(v: &ThreadView, part: Seq<char>, later: Seq<char>)
    requires
        shows_before(reply_steps_html(v), part, later),
    ensures
        shows_before(thread_main_html(v), part, later),
{
    broadcast use {lemma_before_left, lemma_before_right};

}

} // verus!
