//! The two stores decide alike: what the database commands decide from the rows they read is what
//! the store in memory does.

use vstd::prelude::*;

use crate::laws::content::lemma_first_row_update;
use crate::laws::state::{
    consistent, content_consistent, in_live_category, in_live_thread, opened, post_key,
};
use crate::laws::tables::lemma_count_bound;
use crate::model::{
    ActivityDeliveryRow, BookmarkRow, CategoryFocusLevel, PostRow, ThreadFollowLevel, ThreadRow,
};
use crate::relational::moderating::{
    AnswerActivityRow, PostRemoval, accepted_reply, answer_outcome, move_writes, post_removal_turn,
    remaining_answer, wanted_answer,
};
use crate::relational::personal::{
    edit_request, edited_bookmark, focus_request, focus_writes, removal_write, settled_bookmark,
    watch_check,
};
use crate::relational::sql::MOVE_THREAD;
use crate::relational::statement::statement;
use crate::relational::writing::{
    direct_recipients_of, following_generation, opening_decision, quoted_author_of, reply_turn,
    sole_delivery, watcher_delivery,
};
use crate::rows::{
    collected, count_rows, deduped, first_index, first_row, lemma_deduped, lemma_filter_contains,
    lemma_filter_push, lemma_first_index, some_row,
};
use crate::store::answers::answer_mutation_with_activity;
use crate::store::bookmarks::{bookmark_removal, bookmark_update, reminder_settling};
use crate::store::editing::{after_deletion, moved_to, newest_at, post_deletion, thread_move};
use crate::store::focus::{focus_change, rule_by, rule_of};
use crate::store::follow::{bookmark_of, level_change, level_of};
use crate::store::memory::Forum;
use crate::store::posting::{
    alias_of_other, alias_row, mention_delivery, opening_check, reply_check, reply_deliveries,
    watch_delivery, watches, with_alias, with_next_generation,
};
use crate::store::tables::{
    category_is, original_of, post_is, post_is_in, thread_is, valid_accepted,
};
use crate::store::types::{
    AcceptedAnswerAction, AcceptedAnswerMutationRow, BookmarkReminderUpdate, Failure,
    IdentityAliasRow, MAX_THREAD_FOLLOWERS, ThreadSubscriptionRow,
};
use crate::text::trim_text;

verus! {

/// A thread may be opened in the one store when it may in the other, with the same failure.
pub proof fn law_opening_agrees(f: Forum, thread: ThreadRow, first_post: PostRow)
    ensures
        opening_decision(
            thread,
            first_post,
            some_row(f.categories, category_is(thread.category_id)),
        ) == opening_check(f, thread, first_post),
{
}

/// The clock advances alike.
pub proof fn law_clock_agrees(f: Forum)
    ensures
        with_next_generation(f).1 == following_generation(f.generation),
{
}

/// The post with an identifier is the post with it in its thread.
pub proof fn lemma_post_found(f: Forum, id: Seq<char>, thread_id: Seq<char>)
    requires
        content_consistent(f),
    ensures
        first_row(f.posts, post_is_in(id, thread_id)) == match first_row(f.posts, post_is(id)) {
            Some(p) => if p.thread_id == thread_id {
                Some(p)
            } else {
                None
            },
            None => None,
        },
{
    let here = post_is_in(id, thread_id);
    let any = post_is(id);
    lemma_first_index(f.posts, here);
    lemma_first_index(f.posts, any);
    if first_index(f.posts, here) is Some {
        let i = first_index(f.posts, here)->0;
        assert(any(f.posts[i]));
        let j = first_index(f.posts, any)->0;
        if i != j {
            assert(post_key()(f.posts[i]) != post_key()(f.posts[j]));
        }
    }
    if first_index(f.posts, any) is Some {
        let j = first_index(f.posts, any)->0;
        if f.posts[j].thread_id == thread_id {
            assert(here(f.posts[j]));
        }
    }
}

/// A reply may be added in the one store when it may in the other, with the same failure. The
/// database command starts over until it has locked the thread in the category it read before.
pub proof fn law_reply_agrees(f: Forum, post: PostRow)
    requires
        content_consistent(f),
        first_row(f.threads, thread_is(post.thread_id)) is Some,
    ensures
        ({
            let thread = first_row(f.threads, thread_is(post.thread_id));
            let turn = reply_turn(
                thread->0.category_id,
                some_row(f.categories, category_is(thread->0.category_id)),
                thread,
            );
            let quoted = quoted_author_of(post, first_row(f.posts, post_is(post.quoted_post_id)));
            match turn {
                Err(e) => reply_check(f, post) == Err::<(), Failure>(e),
                Ok(t) => t is Proceed && match quoted {
                    Err(e) => reply_check(f, post) == Err::<(), Failure>(e),
                    Ok(_) => reply_check(f, post) is Ok,
                },
            }
        }),
{
    lemma_post_found(f, post.quoted_post_id, post.thread_id);
    lemma_first_index(f.posts, post_is_in(post.quoted_post_id, post.thread_id));
    lemma_first_index(f.threads, thread_is(post.thread_id));
}

/// The subject of a relationship.
pub open spec fn watcher_sub() -> spec_fn(ThreadSubscriptionRow) -> Seq<char> {
    |s: ThreadSubscriptionRow| s.subscriber_sub
}

proof fn lemma_watchers(s: Seq<ThreadSubscriptionRow>, post: PostRow)
    ensures
        collected(
            s.filter(watches(post.thread_id)).map_values(watcher_sub()),
            watcher_delivery(post),
        ) == collected(s, watch_delivery(post)),
    decreases s.len(),
{
    reveal(Seq::filter);
    if s.len() > 0 {
        let d = s.drop_last();
        let x = s.last();
        lemma_watchers(d, post);
        assert(s =~= d.push(x));
        lemma_filter_push(d, x, watches(post.thread_id));
        let kept = d.filter(watches(post.thread_id)).map_values(watcher_sub());
        if watches(post.thread_id)(x) {
            let more = s.filter(watches(post.thread_id)).map_values(watcher_sub());
            assert(more =~= kept.push(x.subscriber_sub));
            assert(more.drop_last() =~= kept);
        }
    } else {
        assert(s.filter(watches(post.thread_id)) =~= Seq::empty());
    }
}

/// The subject of an observation.
pub open spec fn alias_subject() -> spec_fn(IdentityAliasRow) -> Seq<char> {
    |r: IdentityAliasRow| r.subject
}

/// The distinct subjects that were seen with an alias.
pub open spec fn subjects_of(aliases: Seq<IdentityAliasRow>, alias: Seq<char>) -> Seq<Seq<char>> {
    deduped(aliases.filter(alias_row(alias)).map_values(alias_subject()))
}

/// An alias reaches the same subject in both stores.
pub proof fn law_mention_agrees(
    aliases: Seq<IdentityAliasRow>,
    alias: Seq<char>,
    actor_sub: Seq<char>,
)
    ensures
        sole_delivery(subjects_of(aliases, alias), actor_sub) == mention_delivery(
            aliases,
            actor_sub,
        )(alias),
{
    let rows = aliases.filter(alias_row(alias));
    let all = rows.map_values(alias_subject());
    let subjects = subjects_of(aliases, alias);
    lemma_deduped(all);
    lemma_filter_contains(aliases, alias_row(alias));
    lemma_first_index(aliases, alias_row(alias));
    match first_index(aliases, alias_row(alias)) {
        None => {
            lemma_count_bound(aliases, alias_row(alias));
        },
        Some(i) => {
            let subject = aliases[i].subject;
            assert(aliases.contains(aliases[i]));
            assert(rows.contains(aliases[i]));
            let k = choose|k: int| 0 <= k < rows.len() && rows[k] == aliases[i];
            assert(all[k] == subject);
            assert(subjects.contains(subject));
            if some_row(aliases, alias_of_other(alias, subject)) {
                let j = choose|j: int|
                    0 <= j < aliases.len() && alias_of_other(alias, subject)(
                        #[trigger] aliases[j],
                    );
                assert(aliases.contains(aliases[j]));
                assert(rows.contains(aliases[j]));
                let m = choose|m: int| 0 <= m < rows.len() && rows[m] == aliases[j];
                assert(all[m] == aliases[j].subject);
                assert(subjects.contains(aliases[j].subject));
                let a = choose|a: int| 0 <= a < subjects.len() && subjects[a] == subject;
                let b = choose|b: int|
                    0 <= b < subjects.len() && subjects[b] == aliases[j].subject;
                assert(a != b);
            } else {
                assert forall|n: int| 0 <= n < subjects.len() implies subjects[n] == subject by {
                    assert(subjects.contains(subjects[n]));
                    let m = choose|m: int| 0 <= m < all.len() && all[m] == subjects[n];
                    assert(rows.contains(rows[m]));
                    let j = choose|j: int| 0 <= j < aliases.len() && aliases[j] == rows[m];
                    assert(!alias_of_other(alias, subject)(aliases[j]));
                }
                if subjects.len() > 1 {
                    assert(subjects[0] == subjects[1]);
                }
            }
        },
    }
}

/// The delivery for an alias, from the subjects that were seen with it.
pub open spec fn alias_delivery(aliases: Seq<IdentityAliasRow>, actor_sub: Seq<char>) -> spec_fn(
    Seq<char>,
) -> Option<ActivityDeliveryRow> {
    |alias: Seq<char>| sole_delivery(subjects_of(aliases, alias), actor_sub)
}

/// A reply is delivered to the same recipients in both stores.
pub proof fn law_recipients_agree(
    f: Forum,
    thread: ThreadRow,
    post: PostRow,
    aliases: Seq<Seq<char>>,
)
    requires
        content_consistent(f),
        count_rows(f.subscriptions, watches(post.thread_id)) <= MAX_THREAD_FOLLOWERS,
        quoted_author_of(post, first_row(f.posts, post_is(post.quoted_post_id))) is Ok,
    ensures
        ({
            let seen = with_alias(f, post.author_sub, post.author_email, post.created_at);
            let direct = direct_recipients_of(
                thread,
                post,
                quoted_author_of(post, first_row(f.posts, post_is(post.quoted_post_id)))->Ok_0,
                f.subscriptions.filter(watches(post.thread_id)).map_values(watcher_sub()),
            );
            let mentioned = collected(
                aliases,
                alias_delivery(seen.identity_aliases, post.author_sub),
            );
            &&& direct is Ok
            &&& deduped(direct->Ok_0 + mentioned) == reply_deliveries(f, thread, post, aliases)
        }),
{
    let seen = with_alias(f, post.author_sub, post.author_email, post.created_at);
    lemma_watchers(f.subscriptions, post);
    lemma_post_found(f, post.quoted_post_id, post.thread_id);
    assert(alias_delivery(seen.identity_aliases, post.author_sub) =~= mention_delivery(
        seen.identity_aliases,
        post.author_sub,
    )) by {
        assert forall|alias: Seq<char>| #[trigger]
            alias_delivery(seen.identity_aliases, post.author_sub)(alias) == mention_delivery(
                seen.identity_aliases,
                post.author_sub,
            )(alias) by {
            law_mention_agrees(seen.identity_aliases, alias, post.author_sub);
        }
    }
}

/// An answer is accepted or refused alike, and the caller is told the same.
pub proof fn law_answer_agrees(
    f: Forum,
    thread_id: Seq<char>,
    action: AcceptedAnswerAction,
    activity: AnswerActivityRow,
)
    requires
        consistent(f),
        first_row(f.threads, thread_is(thread_id)) is Some,
    ensures
        ({
            let thread = first_row(f.threads, thread_is(thread_id))->0;
            let category = first_row(f.categories, category_is(thread.category_id))->0;
            let op = original_of(f.original_posts, thread_id)->0;
            let wanted = wanted_answer(action, category.format.text(), op);
            let (g, r) = answer_mutation_with_activity(
                f,
                thread_id,
                action,
                activity.activity_id,
                activity.actor_sub,
                activity.created_at,
            );
            match wanted {
                Err(e) => r == Err::<AcceptedAnswerMutationRow, Failure>(e),
                Ok(None) => r == Ok::<AcceptedAnswerMutationRow, Failure>(
                    answer_outcome(thread, None, Some(activity)),
                ),
                Ok(Some(id)) => match accepted_reply(
                    thread_id,
                    first_row(f.posts, post_is(id)),
                ) {
                    Err(e) => r == Err::<AcceptedAnswerMutationRow, Failure>(e),
                    Ok(p) => r == Ok::<AcceptedAnswerMutationRow, Failure>(
                        answer_outcome(thread, Some(p), Some(activity)),
                    ),
                },
            }
        }),
{
    let thread = first_row(f.threads, thread_is(thread_id))->0;
    lemma_first_index(f.threads, thread_is(thread_id));
    let k = first_index(f.threads, thread_is(thread_id))->0;
    assert(in_live_category(f.categories)(f.threads[k]));
    assert(opened(f.original_posts, f.posts)(f.threads[k]));
    lemma_first_index(f.categories, category_is(thread.category_id));
    let category = first_row(f.categories, category_is(thread.category_id))->0;
    category.format.law_names(category.format.text());
    if let AcceptedAnswerAction::Accept { post_id } = action {
        let id = trim_text(post_id@);
        lemma_post_found(f, id, thread_id);
        lemma_first_index(f.posts, post_is_in(id, thread_id));
    }
}

/// A viewer may take a level in the one store when they may in the other.
pub proof fn law_watching_agrees(
    f: Forum,
    thread_id: Seq<char>,
    viewer_sub: Seq<char>,
    level: ThreadFollowLevel,
    created_at: i64,
)
    requires
        some_row(f.threads, thread_is(thread_id)),
    ensures
        level_change(f, thread_id, viewer_sub, level, created_at).1 == watch_check(
            level,
            level_of(f.subscriptions, thread_id, viewer_sub) is Watch,
            count_rows(f.subscriptions, watches(thread_id)) as int,
        ),
{
}

/// A focus rule is set or refused alike, and the database is left alone exactly when nothing
/// changes.
pub proof fn law_focus_agrees(
    f: Forum,
    viewer_sub: Seq<char>,
    category_id: Seq<char>,
    level: CategoryFocusLevel,
    changed_at: i64,
)
    requires
        focus_request(viewer_sub, changed_at) is Ok,
        some_row(f.categories, category_is(category_id)),
        forall|i: int|
            0 <= i < f.category_focus_rules.len() ==> !((
            #[trigger] f.category_focus_rules[i]).level is Unset),
    ensures
        ({
            let rule = first_row(f.category_focus_rules, rule_of(viewer_sub, category_id));
            let writes = focus_writes(
                viewer_sub,
                category_id,
                level,
                changed_at,
                match rule {
                    Some(r) => Some(r.level.text()),
                    None => None,
                },
                count_rows(f.category_focus_rules, rule_by(viewer_sub)) as int,
            );
            let (g, r) = focus_change(f, viewer_sub, category_id, level, changed_at);
            match writes {
                Err(e) => r == Err::<(), Failure>(e) && g == f,
                Ok(w) => r is Ok && (w is None <==> g == f),
            }
        }),
{
    let rules = f.category_focus_rules;
    let which = rule_of(viewer_sub, category_id);
    lemma_first_index(rules, which);
    let g = focus_change(f, viewer_sub, category_id, level, changed_at).0;
    match first_index(rules, which) {
        Some(i) => {
            rules[i].level.law_names(rules[i].level.text());
            if level is Unset {
                assert(g.category_focus_rules.len() != rules.len());
            } else if rules[i].level != level {
                assert(g.category_focus_rules[i].level == level);
            }
        },
        None => {
            if g.category_focus_rules != rules {
                assert(g.category_focus_rules.len() != rules.len());
            }
        },
    }
}

/// A bookmark is edited or refused alike.
pub proof fn law_edit_agrees(
    f: Forum,
    owner_sub: Seq<char>,
    post_id: Seq<char>,
    bookmark_id: Seq<char>,
    version: i64,
    note: Seq<char>,
    reminder: BookmarkReminderUpdate,
    changed_at: i64,
)
    requires
        some_row(f.posts, post_is(post_id)),
        first_row(f.bookmarks, bookmark_of(owner_sub, post_id)) is Some,
    ensures
        ({
            let row = first_row(f.bookmarks, bookmark_of(owner_sub, post_id))->0;
            let r = bookmark_update(
                f,
                owner_sub,
                post_id,
                bookmark_id,
                version,
                note,
                reminder,
                changed_at,
            ).1;
            match edit_request(note, reminder, changed_at) {
                Err(e) => r == Err::<BookmarkRow, Failure>(e),
                Ok(_) => r == edited_bookmark(
                    row,
                    bookmark_id,
                    version,
                    note,
                    reminder,
                    changed_at,
                ),
            }
        }),
{
}

/// A reminder is settled or refused alike, and a bookmark removed or refused alike.
pub proof fn law_settling_agrees(
    f: Forum,
    owner_sub: Seq<char>,
    post_id: Seq<char>,
    bookmark_id: Seq<char>,
    version: i64,
    next: Option<i64>,
    changed_at: i64,
)
    requires
        some_row(f.posts, post_is(post_id)),
        first_row(f.bookmarks, bookmark_of(owner_sub, post_id)) is Some,
    ensures
        ({
            let row = first_row(f.bookmarks, bookmark_of(owner_sub, post_id))->0;
            &&& reminder_settling(
                f,
                owner_sub,
                post_id,
                bookmark_id,
                version,
                next,
                changed_at,
            ).1 == settled_bookmark(row, bookmark_id, version, next, changed_at)
            &&& match removal_write(row, bookmark_id, version) {
                Err(e) => bookmark_removal(f, owner_sub, post_id, bookmark_id, version).1 == Err::<
                    (),
                    Failure,
                >(e),
                Ok(_) => bookmark_removal(f, owner_sub, post_id, bookmark_id, version).1 is Ok,
            }
        }),
{
}

/// A reply is deleted or kept alike, and its thread keeps the same accepted pointer.
pub proof fn law_post_deletion_agrees(f: Forum, post_id: Seq<char>)
    requires
        consistent(f),
        first_row(f.posts, post_is(post_id)) is Some,
    ensures
        ({
            let post = first_row(f.posts, post_is(post_id))->0;
            let thread = first_row(f.threads, thread_is(post.thread_id));
            let op = original_of(f.original_posts, post.thread_id);
            let (g, r) = post_deletion(f, post_id);
            &&& thread is Some
            &&& op is Some
            &&& match post_removal_turn(
                thread->0.category_id,
                post.thread_id,
                thread->0,
                op->0,
                Some(post),
            ) {
                PostRemoval::Original => r is Err && g == f,
                PostRemoval::Remove => r is Ok && first_row(
                    g.threads,
                    thread_is(post.thread_id),
                )->0.accepted_post_id == remaining_answer(thread->0, op->0, post_id),
                _ => false,
            }
        }),
{
    let post = first_row(f.posts, post_is(post_id))->0;
    lemma_first_index(f.posts, post_is(post_id));
    let i = first_index(f.posts, post_is(post_id))->0;
    assert(in_live_thread(f.threads)(f.posts[i]));
    lemma_first_index(f.threads, thread_is(post.thread_id));
    let k = first_index(f.threads, thread_is(post.thread_id))->0;
    assert(opened(f.original_posts, f.posts)(f.threads[k]));
    let g = post_deletion(f, post_id).0;
    let op = original_of(f.original_posts, post.thread_id);
    lemma_first_row_update(
        f.threads,
        thread_is(post.thread_id),
        after_deletion(post_id, op, newest_at(g.posts, post.thread_id)),
    );
}

/// A thread moves or is refused alike, and keeps the same accepted pointer.
pub proof fn law_move_agrees(f: Forum, thread_id: Seq<char>, category_id: Seq<char>)
    requires
        consistent(f),
        first_row(f.threads, thread_is(thread_id)) is Some,
        first_row(f.categories, category_is(category_id)) is Some,
        trim_text(first_row(f.threads, thread_is(thread_id))->0.accepted_post_id) == first_row(
            f.threads,
            thread_is(thread_id),
        )->0.accepted_post_id,
        !some_row(f.posts, post_is(Seq::empty())),
    ensures
        ({
            let thread = first_row(f.threads, thread_is(thread_id))->0;
            let target = first_row(f.categories, category_is(category_id))->0;
            let op = original_of(f.original_posts, thread_id)->0;
            let accepted_in = match first_row(f.posts, post_is(thread.accepted_post_id)) {
                Some(p) => Some(p.thread_id),
                None => None,
            };
            let (g, r) = thread_move(f, thread_id, category_id);
            match move_writes(thread, op, accepted_in, category_id, target.format) {
                Err(e) => r == Err::<(), Failure>(e) && g == f,
                Ok(w) => {
                    let moved = first_row(g.threads, thread_is(thread_id))->0;
                    &&& r is Ok
                    &&& w == statement(MOVE_THREAD@).text(moved.category_id).text(
                        moved.accepted_post_id,
                    ).text(moved.id)
                },
            }
        }),
{
    let thread = first_row(f.threads, thread_is(thread_id))->0;
    lemma_first_index(f.threads, thread_is(thread_id));
    let k = first_index(f.threads, thread_is(thread_id))->0;
    assert(in_live_category(f.categories)(f.threads[k]));
    assert(opened(f.original_posts, f.posts)(f.threads[k]));
    lemma_post_found(f, thread.accepted_post_id, thread_id);
    lemma_first_index(f.posts, post_is(thread.accepted_post_id));
    lemma_first_index(f.posts, post_is(Seq::empty()));
    if thread.accepted_post_id.len() == 0 {
        assert(thread.accepted_post_id =~= Seq::empty());
    }
    let valid = valid_accepted(thread, f.original_posts, f.posts) is Some;
    lemma_first_row_update(f.threads, thread_is(thread_id), moved_to(category_id, valid));
}

} // verus!
