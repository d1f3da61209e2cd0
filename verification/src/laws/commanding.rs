//! Laws of the commands against the store in memory: when the database answers what that store
//! holds, a command ends as that store does.

use vstd::prelude::*;

use crate::laws::agreement::{
    law_answer_agrees, law_move_agrees, law_opening_agrees, law_post_deletion_agrees,
};
use crate::laws::order::law_ordered_set;
use crate::laws::state::{consistent, in_live_category, on_live_post, opened};
use crate::laws::tables::lemma_count_bound;
use crate::model::{CategoryFocusLevel, CategoryRow, PostRow, ThreadFollowLevel, ThreadRow};
use crate::relational::command::{
    AskRow, OpenedThreadRow, ToldRow, bookmark_at, no_steps, number_at, post_at, running, text_at,
    texts_at, thread_at,
};
use crate::relational::commands::answering::answering;
use crate::relational::commands::following::{focus_setting, follow_change};
use crate::relational::commands::moderation::{
    category_insertion, category_removing, format_at, moving, reply_deletion, seeding,
    thread_deletion,
};
use crate::relational::commands::opening::{clock_at, opening};
use crate::relational::commands::saving::{
    bookmark_editing, bookmark_removing, saving, settling, toggling,
};
use crate::relational::moderating::AnswerActivityRow;
use crate::rows::{
    count_rows, first_index, first_row, lemma_filter_contains, lemma_first_index, some_row,
};
use crate::store::answers::{answer_mutation, answer_mutation_with_activity};
use crate::store::bookmarks::{
    bookmark_by, bookmark_removal, bookmark_saving, bookmark_snooze, bookmark_update,
    reminder_settling,
};
use crate::store::categories::{category_deletion, seeded};
use crate::store::editing::{newest_at, post_deletion, post_is_not, thread_move, unquoted};
use crate::store::focus::{focus_change, rule_by, rule_of};
use crate::store::follow::{bookmark_of, level_change, level_of};
use crate::store::memory::Forum;
use crate::store::posting::{point_of, thread_creation, watches};
use crate::store::reactions::{reaction_is, reaction_toggle};
use crate::store::rules::recipients;
use crate::store::tables::{category_is, original_of, post_is, post_is_in, thread_in, thread_is};
use crate::store::types::{
    AcceptedAnswerAction, BookmarkReminderUpdate, Failure, MAX_THREAD_FOLLOWERS,
};
use crate::text::{blank_text, trim_text};
use crate::texts::ordered_set;

verus! {

/// A command ends with a result.
pub open spec fn ends_with<V>(ask: AskRow<V>, r: Result<V, Failure>) -> bool {
    match ask {
        AskRow::Finish(_, v) => r == Ok::<V, Failure>(v),
        AskRow::Fail(e) => r == Err::<V, Failure>(e),
        _ => false,
    }
}

/// The database answers with an identifier when a row has it.
pub open spec fn told_id(found: bool, id: Seq<char>) -> ToldRow {
    ToldRow::Text(
        if found {
            Some(id)
        } else {
            None
        },
    )
}

/// The database answers with the category of a thread.
pub open spec fn told_category(f: Forum, thread_id: Seq<char>) -> ToldRow {
    ToldRow::Text(
        match first_row(f.threads, thread_is(thread_id)) {
            Some(t) => Some(t.category_id),
            None => None,
        },
    )
}

/// The database answers with the format of a category.
pub open spec fn told_format(f: Forum, category_id: Seq<char>) -> ToldRow {
    ToldRow::Text(
        match first_row(f.categories, category_is(category_id)) {
            Some(c) => Some(c.format.text()),
            None => None,
        },
    )
}

/// The database answers with a thread and the post it was opened with.
pub open spec fn told_opened(f: Forum, thread_id: Seq<char>) -> ToldRow {
    ToldRow::Thread(
        match first_row(f.threads, thread_is(thread_id)) {
            Some(thread) => Some(
                OpenedThreadRow {
                    thread,
                    first_post_id: original_of(f.original_posts, thread_id)->0,
                },
            ),
            None => None,
        },
    )
}

/// A stored thread is in a stored category and was opened with a stored post.
pub proof fn lemma_thread_is_whole(f: Forum, thread_id: Seq<char>)
    requires
        consistent(f),
        first_row(f.threads, thread_is(thread_id)) is Some,
    ensures
        ({
            let thread = first_row(f.threads, thread_is(thread_id))->0;
            &&& thread.id == thread_id
            &&& some_row(f.categories, category_is(thread.category_id))
            &&& first_row(f.categories, category_is(thread.category_id)) is Some
            &&& original_of(f.original_posts, thread_id) is Some
            &&& some_row(
                f.posts,
                post_is_in(original_of(f.original_posts, thread_id)->0, thread_id),
            )
        }),
{
    lemma_first_index(f.threads, thread_is(thread_id));
    let k = first_index(f.threads, thread_is(thread_id))->0;
    let thread = f.threads[k];
    assert(in_live_category(f.categories)(f.threads[k]));
    assert(opened(f.original_posts, f.posts)(f.threads[k]));
    lemma_first_index(f.categories, category_is(thread.category_id));
}

// ---------------------------------------------------------------------------
// Opening and deleting threads.
// ---------------------------------------------------------------------------

/// What the database answers about a new thread.
pub open spec fn opening_answers(f: Forum, thread: ThreadRow) -> Seq<ToldRow> {
    seq![
        told_id(some_row(f.categories, category_is(thread.category_id)), thread.category_id),
        ToldRow::Number(Some(f.generation)),
    ]
}

/// A thread is opened or refused as in memory; only the post's place in the catch-up record is left
/// to the database to refuse.
pub proof fn law_opening_ends_alike(f: Forum, thread: ThreadRow, first_post: PostRow)
    requires
        !some_row(f.post_points, point_of(first_post.id)),
    ensures
        ends_with(
            opening(thread, first_post, opening_answers(f, thread)),
            thread_creation(f, thread, first_post).1,
        ),
{
    let told = opening_answers(f, thread);
    law_opening_agrees(f, thread, first_post);
    assert(clock_at(told, 1) == f.generation);
}

/// What the database answers about a thread that is to be deleted.
pub open spec fn thread_deletion_answers(f: Forum, thread_id: Seq<char>) -> Seq<ToldRow> {
    let category = told_category(f, thread_id);
    seq![category, category, category]
}

/// A thread is always deleted, in the database as in memory, where it may be gone already.
pub proof fn law_thread_deletion_ends_alike(f: Forum, thread_id: Seq<char>, attempt: int)
    ensures
        ends_with(
            thread_deletion(thread_id, attempt, thread_deletion_answers(f, thread_id)),
            Ok(()),
        ),
{
    let told = thread_deletion_answers(f, thread_id);
    assert(text_at(told, 2) == text_at(told, 0));
}

// ---------------------------------------------------------------------------
// Moderation.
// ---------------------------------------------------------------------------

/// What the database answers about a reply that is to be deleted.
pub open spec fn deletion_answers(f: Forum, post_id: Seq<char>) -> Seq<ToldRow> {
    let post = first_row(f.posts, post_is(post_id));
    let thread_id = match post {
        Some(p) => p.thread_id,
        None => Seq::empty(),
    };
    seq![
        ToldRow::Text(
            match post {
                Some(p) => Some(p.thread_id),
                None => None,
            },
        ),
        told_category(f, thread_id),
        told_category(f, thread_id),
        told_opened(f, thread_id),
        ToldRow::Post(post),
        ToldRow::Number(newest_at(post_deletion(f, post_id).0.posts, thread_id)),
    ]
}

/// A thread with a post has a newest post.
proof fn lemma_newest(posts: Seq<PostRow>, i: int)
    requires
        0 <= i < posts.len(),
    ensures
        newest_at(posts, posts[i].thread_id) is Some,
    decreases posts.len(),
{
    if i < posts.len() - 1 {
        lemma_newest(posts.drop_last(), i);
    }
}

/// A reply is deleted or kept as in memory.
pub proof fn law_reply_deletion_ends_alike(f: Forum, post_id: Seq<char>, attempt: int)
    requires
        consistent(f),
    ensures
        ends_with(
            reply_deletion(post_id, attempt, deletion_answers(f, post_id)),
            post_deletion(f, post_id).1,
        ),
{
    let told = deletion_answers(f, post_id);
    let post = first_row(f.posts, post_is(post_id));
    if post is Some {
        law_post_deletion_agrees(f, post_id);
        let thread_id = post->0.thread_id;
        lemma_thread_is_whole(f, thread_id);
        lemma_first_index(f.posts, post_is(post_id));
        let op = original_of(f.original_posts, thread_id)->0;
        assert(thread_at(told, 3)->0.first_post_id == op);
        assert(text_at(told, 1) == Some(first_row(f.threads, thread_is(thread_id))->0.category_id));
        assert(post_at(told, 4) == post);
        if op != post_id {
            let kept = post_deletion(f, post_id).0.posts;
            let mapped = f.posts.map_values(unquoted(post_id));
            let k = choose|k: int|
                0 <= k < f.posts.len() && post_is_in(op, thread_id)(#[trigger] f.posts[k]);
            assert(mapped[k].id == op && mapped[k].thread_id == thread_id);
            lemma_filter_contains(mapped, post_is_not(post_id));
            assert(mapped.contains(mapped[k]));
            assert(kept.contains(mapped[k]));
            let j = choose|j: int| 0 <= j < kept.len() && kept[j] == mapped[k];
            lemma_newest(kept, j);
            assert(number_at(told, 5) is Some);
        }
    } else {
        assert(text_at(told, 0) is None);
    }
}

/// What the database answers about a thread that is to be moved.
pub open spec fn move_answers(f: Forum, thread_id: Seq<char>, category_id: Seq<char>) -> Seq<
    ToldRow,
> {
    let thread = first_row(f.threads, thread_is(thread_id))->0;
    let locked = ordered_set(seq![thread.category_id, category_id]);
    seq![told_category(f, thread_id)] + locked.map_values(
        |id: Seq<char>| told_format(f, id),
    ) + seq![
        told_opened(f, thread_id),
        ToldRow::Text(
            match first_row(f.posts, post_is(thread.accepted_post_id)) {
                Some(p) => Some(p.thread_id),
                None => None,
            },
        ),
    ]
}

/// A thread moves or is refused as in memory. An accepted pointer is stored without blanks around
/// it, and no post has the empty identifier.
pub proof fn law_move_ends_alike(
    f: Forum,
    thread_id: Seq<char>,
    category_id: Seq<char>,
    attempt: int,
)
    requires
        consistent(f),
        first_row(f.threads, thread_is(thread_id)) is Some,
        trim_text(first_row(f.threads, thread_is(thread_id))->0.accepted_post_id) == first_row(
            f.threads,
            thread_is(thread_id),
        )->0.accepted_post_id,
        !some_row(f.posts, post_is(Seq::empty())),
    ensures
        ends_with(
            moving(thread_id, category_id, attempt, move_answers(f, thread_id, category_id)),
            thread_move(f, thread_id, category_id).1,
        ),
{
    let told = move_answers(f, thread_id, category_id);
    let thread = first_row(f.threads, thread_is(thread_id))->0;
    let hint = thread.category_id;
    let pair = seq![hint, category_id];
    let locked = ordered_set(pair);
    let n = locked.len() as int;
    lemma_thread_is_whole(f, thread_id);
    law_ordered_set(pair);
    assert(pair[0] == hint && pair[1] == category_id);
    assert(locked.contains(hint) && locked.contains(category_id));
    assert(told.len() == 3 + n);
    assert(told[0] == told_category(f, thread_id));
    assert(forall|k: int|
        0 <= k < n ==> #[trigger] told[1 + k] == told_format(f, locked[k]));
    assert(told[1 + n] == told_opened(f, thread_id));
    assert forall|id: Seq<char>| pair.contains(id) implies #[trigger] format_at(
        locked,
        id,
        told,
    ) == told_format(f, id)->Text_0 by {
        assert(locked.contains(id));
        let k = choose|k: int| 0 <= k < n && locked[k] == id;
        assert(n <= 2);
        if k == 0 {
            assert(told[1] == told_format(f, locked[0]));
        } else {
            assert(k == 1);
            assert(told[2] == told_format(f, locked[1]));
            if locked[0] == id {
                assert(told[1] == told_format(f, locked[0]));
            }
        }
    }
    assert(pair.contains(hint) && pair.contains(category_id));
    assert(format_at(locked, hint, told) is Some);
    lemma_first_index(f.categories, category_is(category_id));
    lemma_first_index(f.posts, post_is(Seq::empty()));
    lemma_first_index(f.posts, post_is(thread.accepted_post_id));
    if first_row(f.categories, category_is(category_id)) is Some {
        law_move_agrees(f, thread_id, category_id);
        let target = first_row(f.categories, category_is(category_id))->0;
        target.format.law_names(target.format.text());
        if blank_text(thread.accepted_post_id) {
            assert(trim_text(thread.accepted_post_id).len() == 0);
            assert(thread.accepted_post_id =~= Seq::empty());
        }
        assert(told[2 + n] == ToldRow::Text(
            match first_row(f.posts, post_is(thread.accepted_post_id)) {
                Some(p) => Some(p.thread_id),
                None => None,
            },
        ));
    }
}

/// A category is deleted or kept as in memory.
pub proof fn law_category_deletion_ends_alike(f: Forum, id: Seq<char>, threads: i64)
    requires
        consistent(f),
        threads == count_rows(f.threads, thread_in(id)),
    ensures
        ends_with(
            category_removing(
                id,
                seq![
                    told_id(some_row(f.categories, category_is(id)), id),
                    ToldRow::Number(Some(threads)),
                ],
            ),
            category_deletion(f, id).1,
        ),
{
    let told = seq![
        told_id(some_row(f.categories, category_is(id)), id),
        ToldRow::Number(Some(threads)),
    ];
    assert(clock_at(told, 1) == threads);
    lemma_count_bound(f.threads, thread_in(id));
    if some_row(f.threads, thread_in(id)) {
        let k = choose|k: int| 0 <= k < f.threads.len() && thread_in(id)(#[trigger] f.threads[k]);
        assert(in_live_category(f.categories)(f.threads[k]));
    }
}

/// The categories are seeded exactly when there are none, as in memory.
pub proof fn law_seeding_ends_alike(f: Forum, defaults: Seq<CategoryRow>, categories: i64)
    requires
        categories == f.categories.len(),
    ensures
        seeding(defaults, seq![ToldRow::Number(Some(categories))]) == AskRow::<()>::Finish(
            if categories == 0 {
                running(seeded(f, defaults).categories.map_values(category_insertion()))
            } else {
                no_steps()
            },
            (),
        ),
{
    assert(clock_at(seq![ToldRow::Number(Some(categories))], 0) == categories);
}

// ---------------------------------------------------------------------------
// Relations.
// ---------------------------------------------------------------------------

/// What the database answers about a subject and a thread.
pub open spec fn follow_answers(
    f: Forum,
    thread_id: Seq<char>,
    viewer_sub: Seq<char>,
    watchers: Seq<Seq<char>>,
) -> Seq<ToldRow> {
    let category = told_category(f, thread_id);
    seq![
        category,
        category,
        category,
        told_id(level_of(f.subscriptions, thread_id, viewer_sub) is Watch, viewer_sub),
        ToldRow::Texts(watchers),
    ]
}

/// A subject takes a level or is refused as in memory. The database shows one watcher more than
/// there may be at the most.
pub proof fn law_following_ends_alike(
    f: Forum,
    thread_id: Seq<char>,
    viewer_sub: Seq<char>,
    watchers: Seq<Seq<char>>,
    level: ThreadFollowLevel,
    created_at: i64,
    attempt: int,
)
    requires
        watchers.len() == if count_rows(f.subscriptions, watches(thread_id))
            > MAX_THREAD_FOLLOWERS {
            (MAX_THREAD_FOLLOWERS + 1) as int
        } else {
            count_rows(f.subscriptions, watches(thread_id)) as int
        },
    ensures
        ends_with(
            follow_change(
                thread_id,
                viewer_sub,
                level,
                created_at,
                attempt,
                follow_answers(f, thread_id, viewer_sub, watchers),
            ),
            level_change(f, thread_id, viewer_sub, level, created_at).1,
        ),
{
    let told = follow_answers(f, thread_id, viewer_sub, watchers);
    lemma_first_index(f.threads, thread_is(thread_id));
    assert(texts_at(told, 4) == watchers);
    assert(text_at(told, 1) == text_at(told, 0));
    assert(text_at(told, 2) == text_at(told, 0));
}

/// What the database answers about a viewer and a category.
pub open spec fn focus_answers(
    f: Forum,
    viewer_sub: Seq<char>,
    category_id: Seq<char>,
    kept: i64,
) -> Seq<ToldRow> {
    seq![
        told_id(some_row(f.categories, category_is(category_id)), category_id),
        ToldRow::Text(Some(viewer_sub)),
        ToldRow::Text(
            match first_row(f.category_focus_rules, rule_of(viewer_sub, category_id)) {
                Some(r) => Some(r.level.text()),
                None => None,
            },
        ),
        ToldRow::Number(Some(kept)),
    ]
}

/// A focus rule is set or refused as in memory.
pub proof fn law_focusing_ends_alike(
    f: Forum,
    viewer_sub: Seq<char>,
    category_id: Seq<char>,
    level: CategoryFocusLevel,
    changed_at: i64,
    kept: i64,
)
    requires
        kept == count_rows(f.category_focus_rules, rule_by(viewer_sub)),
    ensures
        ends_with(
            focus_setting(
                viewer_sub,
                category_id,
                level,
                changed_at,
                focus_answers(f, viewer_sub, category_id, kept),
            ),
            focus_change(f, viewer_sub, category_id, level, changed_at).1,
        ),
{
    let told = focus_answers(f, viewer_sub, category_id, kept);
    assert(clock_at(told, 3) == kept);
    let rules = f.category_focus_rules;
    let which = rule_of(viewer_sub, category_id);
    lemma_first_index(rules, which);
    if first_index(rules, which) is Some {
        let i = first_index(rules, which)->0;
        rules[i].level.law_names(rules[i].level.text());
    }
}

// ---------------------------------------------------------------------------
// Bookmarks and reactions.
// ---------------------------------------------------------------------------

/// What the database answers about a post that is to be saved.
pub open spec fn saving_answers(
    f: Forum,
    owner_sub: Seq<char>,
    post_id: Seq<char>,
    kept: i64,
) -> Seq<ToldRow> {
    seq![
        told_id(some_row(f.posts, post_is(post_id)), post_id),
        ToldRow::Text(Some(owner_sub)),
        ToldRow::Bookmark(first_row(f.bookmarks, bookmark_of(owner_sub, post_id))),
        ToldRow::Number(Some(kept)),
    ]
}

/// A post is saved or refused as in memory, and the caller gets the same bookmark.
pub proof fn law_saving_ends_alike(
    f: Forum,
    owner_sub: Seq<char>,
    post_id: Seq<char>,
    bookmark_id: Seq<char>,
    created_at: i64,
    kept: i64,
)
    requires
        kept == count_rows(f.bookmarks, bookmark_by(owner_sub)),
    ensures
        ends_with(
            saving(
                owner_sub,
                post_id,
                bookmark_id,
                created_at,
                saving_answers(f, owner_sub, post_id, kept),
            ),
            bookmark_saving(f, owner_sub, post_id, bookmark_id, created_at).1,
        ),
{
    let told = saving_answers(f, owner_sub, post_id, kept);
    assert(clock_at(told, 3) == kept);
    assert(bookmark_at(told, 2) == first_row(f.bookmarks, bookmark_of(owner_sub, post_id)));
}

/// What the database answers about a bookmark that is to be changed.
pub open spec fn bookmark_answers(f: Forum, owner_sub: Seq<char>, post_id: Seq<char>) -> Seq<
    ToldRow,
> {
    seq![
        told_id(some_row(f.posts, post_is(post_id)), post_id),
        ToldRow::Bookmark(first_row(f.bookmarks, bookmark_of(owner_sub, post_id))),
    ]
}

/// A bookmark is edited or refused as in memory, and the caller gets the same bookmark.
pub proof fn law_editing_ends_alike(
    f: Forum,
    owner_sub: Seq<char>,
    post_id: Seq<char>,
    bookmark_id: Seq<char>,
    version: i64,
    note: Seq<char>,
    reminder: BookmarkReminderUpdate,
    changed_at: i64,
)
    ensures
        ends_with(
            bookmark_editing(
                owner_sub,
                post_id,
                bookmark_id,
                version,
                note,
                reminder,
                changed_at,
                bookmark_answers(f, owner_sub, post_id),
            ),
            bookmark_update(
                f,
                owner_sub,
                post_id,
                bookmark_id,
                version,
                note,
                reminder,
                changed_at,
            ).1,
        ),
{
    let told = bookmark_answers(f, owner_sub, post_id);
    assert(bookmark_at(told, 1) == first_row(f.bookmarks, bookmark_of(owner_sub, post_id)));
}

/// A reminder is completed, snoozed, or refused as in memory.
pub proof fn law_settling_ends_alike(
    f: Forum,
    owner_sub: Seq<char>,
    post_id: Seq<char>,
    bookmark_id: Seq<char>,
    version: i64,
    remind_at: i64,
    changed_at: i64,
)
    ensures
        ({
            let told = bookmark_answers(f, owner_sub, post_id);
            &&& ends_with(
                settling(owner_sub, post_id, bookmark_id, version, None, changed_at, told),
                reminder_settling(
                    f,
                    owner_sub,
                    post_id,
                    bookmark_id,
                    version,
                    None,
                    changed_at,
                ).1,
            )
            &&& ends_with(
                settling(
                    owner_sub,
                    post_id,
                    bookmark_id,
                    version,
                    Some(remind_at),
                    changed_at,
                    told,
                ),
                bookmark_snooze(
                    f,
                    owner_sub,
                    post_id,
                    bookmark_id,
                    version,
                    remind_at,
                    changed_at,
                ).1,
            )
        }),
{
    let told = bookmark_answers(f, owner_sub, post_id);
    assert(bookmark_at(told, 1) == first_row(f.bookmarks, bookmark_of(owner_sub, post_id)));
}

/// A bookmark is removed or refused as in memory.
pub proof fn law_removing_ends_alike(
    f: Forum,
    owner_sub: Seq<char>,
    post_id: Seq<char>,
    bookmark_id: Seq<char>,
    version: i64,
)
    requires
        consistent(f),
    ensures
        ends_with(
            bookmark_removing(
                owner_sub,
                post_id,
                bookmark_id,
                version,
                bookmark_answers(f, owner_sub, post_id),
            ),
            bookmark_removal(f, owner_sub, post_id, bookmark_id, version).1,
        ),
{
    let told = bookmark_answers(f, owner_sub, post_id);
    let which = bookmark_of(owner_sub, post_id);
    assert(bookmark_at(told, 1) == first_row(f.bookmarks, which));
    lemma_first_index(f.bookmarks, which);
    if first_index(f.bookmarks, which) is Some {
        let i = first_index(f.bookmarks, which)->0;
        assert(on_live_post(f.posts)(f.bookmarks[i]));
    }
}

/// A reaction flips as in memory: it is stored exactly when it was not there.
pub proof fn law_toggling_ends_alike(
    f: Forum,
    post_id: Seq<char>,
    user_sub: Seq<char>,
    kind: Seq<char>,
    created_at: i64,
)
    ensures
        ({
            let stored: i64 = if some_row(f.reactions, reaction_is(post_id, user_sub, kind)) {
                0
            } else {
                1
            };
            ends_with(
                toggling(post_id, user_sub, kind, created_at, seq![ToldRow::Affected(stored)]),
                Ok(reaction_toggle(f, post_id, user_sub, kind, created_at).1),
            )
        }),
{
    lemma_first_index(f.reactions, reaction_is(post_id, user_sub, kind));
}

// ---------------------------------------------------------------------------
// Answers.
// ---------------------------------------------------------------------------

/// What the database answers about an answer.
pub open spec fn answer_answers(f: Forum, thread_id: Seq<char>, action: AcceptedAnswerAction) -> Seq<
    ToldRow,
> {
    let category_id = first_row(f.threads, thread_is(thread_id))->0.category_id;
    seq![
        told_category(f, thread_id),
        told_format(f, category_id),
        told_opened(f, thread_id),
        ToldRow::Post(
            match action {
                AcceptedAnswerAction::Accept { post_id } => first_row(
                    f.posts,
                    post_is(trim_text(post_id@)),
                ),
                AcceptedAnswerAction::Clear => None,
            },
        ),
    ]
}

/// An answer is accepted, cleared, or refused as in memory, and the caller is told the same.
pub proof fn law_answering_ends_alike(
    f: Forum,
    thread_id: Seq<char>,
    action: AcceptedAnswerAction,
    activity: AnswerActivityRow,
    attempt: int,
)
    requires
        consistent(f),
    ensures
        ends_with(
            answering(
                thread_id,
                action,
                Some(activity),
                attempt,
                answer_answers(f, thread_id, action),
            ),
            answer_mutation_with_activity(
                f,
                thread_id,
                action,
                activity.activity_id,
                activity.actor_sub,
                activity.created_at,
            ).1,
        ),
        ends_with(
            answering(thread_id, action, None, attempt, answer_answers(f, thread_id, action)),
            answer_mutation(f, thread_id, action).1,
        ),
{
    let told = answer_answers(f, thread_id, action);
    if first_row(f.threads, thread_is(thread_id)) is Some {
        law_answer_agrees(f, thread_id, action, activity);
        lemma_thread_is_whole(f, thread_id);
        let thread = first_row(f.threads, thread_is(thread_id))->0;
        let category = first_row(f.categories, category_is(thread.category_id))->0;
        assert(text_at(told, 1) == Some(category.format.text()));
        assert(thread_at(told, 2)->0.thread == thread);
        if let AcceptedAnswerAction::Accept { post_id } = action {
            assert(post_at(told, 3) == first_row(f.posts, post_is(trim_text(post_id@))));
        }
        assert(recipients(Seq::empty()) =~= Seq::<Seq<char>>::empty());
        assert(ordered_set(Seq::empty()) =~= Seq::<Seq<char>>::empty());
    } else {
        assert(text_at(told, 0) is None);
    }
}

} // verus!
