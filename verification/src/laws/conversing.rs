//! What the commands of the relational store promise, whatever they are told.

use vstd::prelude::*;

use crate::laws::order::{law_ordered_set, law_sorted_members};
use crate::model::{CategoryFocusLevel, CategoryFormat, PostRow, ThreadFollowLevel, ThreadRow};
use crate::relational::command::{
    AskRow, StepRow, ToldRow, begin, committing, no_steps, post_at, running, text_at, thread_at,
};
use crate::relational::commands::answering::answering;
use crate::relational::commands::following::{focus_setting, follow_change};
use crate::relational::commands::migration::migration;
use crate::relational::commands::moderation::{
    category_removing, just_commit, moving, reply_deletion, thread_deletion, transaction,
    transition,
};
use crate::relational::commands::opening::{opening, opening_with_activity};
use crate::relational::commands::receipts::{
    TargetProgress, batch_marking, event_marking, lemma_targets_len, reading, target_locks,
    target_progress, targets_told,
};
use crate::relational::commands::replying::{replying, replying_with_activity};
use crate::relational::commands::saving::{bookmark_editing, bookmark_removing, saving, settling};
use crate::relational::moderating::AnswerActivityRow;
use crate::relational::personal::target_order;
use crate::relational::statement::StatementRow;
use crate::relational::writing::MAX_ATTEMPTS;
use crate::rows::sorted;
use crate::store::types::{AcceptedAnswerAction, BookmarkReminderUpdate, MAX_MENTIONS_PER_POST};
use crate::texts::ordered_set;

verus! {

// ---------------------------------------------------------------------------
// All or nothing.
// ---------------------------------------------------------------------------

/// Whether the steps run statements and nothing else.
pub open spec fn only_runs(steps: Seq<StepRow>) -> bool {
    forall|i: int| 0 <= i < steps.len() ==> (#[trigger] steps[i]) is Run
}

/// Whether the steps run statements and commit.
pub open spec fn commits(steps: Seq<StepRow>) -> bool {
    steps.len() > 0 && steps.last() is Commit && only_runs(steps.drop_last())
}

/// Whether the command changes all or nothing, when its transaction begins with the question it
/// asks after `p` answers: before that it runs no statement, meanwhile it neither begins nor
/// commits, and it finishes by committing. When no transaction was begun it finishes without a step
/// or with a whole transaction.
pub open spec fn all_or_nothing<V>(ask: AskRow<V>, answers: nat, p: nat) -> bool {
    match ask {
        AskRow::Fetch(steps, _, _) => if answers < p {
            steps.len() == 0
        } else if answers == p {
            steps.len() > 0 && steps[0] is Begin && only_runs(steps.drop_first())
        } else {
            only_runs(steps)
        },
        AskRow::Finish(steps, _) => if answers <= p {
            steps.len() == 0 || (steps[0] is Begin && commits(steps.drop_first()))
        } else {
            commits(steps)
        },
        AskRow::Restart => true,
        AskRow::Fail(_) => true,
    }
}

/// What the steps of a command are made of.
proof fn lemma_steps()
    ensures
        forall|s: Seq<StatementRow>| only_runs(#[trigger] running(s)),
        forall|s: Seq<StatementRow>| commits(#[trigger] committing(s)),
        only_runs(no_steps()),
        begin().len() > 0,
        begin()[0] is Begin,
        only_runs(begin().drop_first()),
        commits(just_commit()),
        transaction(Seq::empty())[0] is Begin,
        commits(transaction(Seq::empty()).drop_first()),
{
    assert forall|s: Seq<StatementRow>| commits(#[trigger] committing(s)) by {
        assert(committing(s).drop_last() =~= running(s));
    }
    assert(begin().drop_first() =~= no_steps());
    assert(just_commit().drop_last() =~= no_steps());
    assert(transaction(Seq::empty()).drop_first() =~= committing(Seq::empty()));
}

/// Opening a thread changes all or nothing.
pub proof fn law_opening_is_atomic(
    thread: ThreadRow,
    first_post: PostRow,
    mentioned: Seq<Seq<char>>,
    activity_id: Seq<char>,
    told: Seq<ToldRow>,
)
    ensures
        all_or_nothing(opening(thread, first_post, told), told.len(), 0),
        all_or_nothing(
            opening_with_activity(thread, first_post, mentioned, activity_id, told),
            told.len(),
            0,
        ),
{
    lemma_steps();
}

/// Adding a reply changes all or nothing.
pub proof fn law_replying_is_atomic(
    post: PostRow,
    mentioned: Seq<Seq<char>>,
    activity_id: Seq<char>,
    attempt: int,
    told: Seq<ToldRow>,
)
    ensures
        all_or_nothing(replying(post, attempt, told), told.len(), 1),
        all_or_nothing(
            replying_with_activity(post, mentioned, activity_id, attempt, told),
            told.len(),
            1,
        ),
{
    lemma_steps();
}

/// Deleting, moving, and changing formats change all or nothing. A deletion is told nothing more
/// once it is finished.
pub proof fn law_moderation_is_atomic(
    id: Seq<char>,
    category_id: Seq<char>,
    format: CategoryFormat,
    attempt: int,
    told: Seq<ToldRow>,
)
    ensures
        (told.len() > 0 ==> thread_deletion(id, attempt, told.drop_last()) is Fetch)
            ==> all_or_nothing(thread_deletion(id, attempt, told), told.len(), 1),
        (told.len() > 0 ==> reply_deletion(id, attempt, told.drop_last()) is Fetch)
            ==> all_or_nothing(reply_deletion(id, attempt, told), told.len(), 2),
        all_or_nothing(moving(id, category_id, attempt, told), told.len(), 1),
        all_or_nothing(transition(id, format, told), told.len(), 0),
        all_or_nothing(category_removing(id, told), told.len(), 0),
{
    lemma_steps();
    if told.len() > 1 {
        let before = told.drop_last();
        assert(text_at(before, 0) == text_at(told, 0));
    }
    if told.len() > 0 && text_at(told, 0) is Some {
        let pair = seq![text_at(told, 0)->0, category_id];
        law_ordered_set(pair);
        assert(pair.contains(pair[0]));
        assert(ordered_set(pair).contains(pair[0]));
    }
}

/// Accepting an answer, following a thread, and focusing on a category change all or nothing.
pub proof fn law_relations_are_atomic(
    thread_id: Seq<char>,
    action: AcceptedAnswerAction,
    activity: Option<AnswerActivityRow>,
    viewer_sub: Seq<char>,
    level: ThreadFollowLevel,
    category_id: Seq<char>,
    focus: CategoryFocusLevel,
    at: i64,
    attempt: int,
    told: Seq<ToldRow>,
)
    ensures
        all_or_nothing(answering(thread_id, action, activity, attempt, told), told.len(), 1),
        all_or_nothing(
            follow_change(thread_id, viewer_sub, level, at, attempt, told),
            told.len(),
            1,
        ),
        all_or_nothing(focus_setting(viewer_sub, category_id, focus, at, told), told.len(), 0),
{
    lemma_steps();
}

/// Marking posts and events read changes all or nothing. The targets of the events are read before
/// the transaction begins; without events it begins with the last step.
pub proof fn law_marking_is_atomic(
    viewer_sub: Seq<char>,
    thread_id: Seq<char>,
    ids: Seq<Seq<char>>,
    activity_id: Seq<char>,
    read: bool,
    at: i64,
    told: Seq<ToldRow>,
)
    ensures
        all_or_nothing(reading(viewer_sub, thread_id, ids, at, told), told.len(), 0),
        all_or_nothing(event_marking(activity_id, viewer_sub, read, at, told), told.len(), 1),
        all_or_nothing(
            batch_marking(viewer_sub, ids, at, told),
            told.len(),
            if ids.len() > 0 {
                ordered_set(ids).len()
            } else {
                told.len()
            },
        ),
{
    lemma_steps();
    lemma_targets_locked::<()>(viewer_sub, seq![activity_id], told);
    law_ordered_set(ids);
    if ordered_set(ids).len() > 0 {
        assert(ordered_set(ids).contains(ordered_set(ids)[0]));
    }
    if ids.len() > 0 {
        assert(ids.contains(ids[0]));
        assert(ordered_set(ids).contains(ids[0]));
        lemma_targets_locked::<i64>(viewer_sub, ordered_set(ids), told);
    }
}

/// The transaction of the receipts begins with the first lock, and there is one.
proof fn lemma_targets_locked<V>(viewer_sub: Seq<char>, ids: Seq<Seq<char>>, told: Seq<ToldRow>)
    requires
        ids.len() > 0,
    ensures
        match target_progress::<V>(viewer_sub, ids, told) {
            TargetProgress::Say(ask) => all_or_nothing(ask, told.len(), ids.len()),
            TargetProgress::Ready { targets, at } => ids.len() < at <= told.len()
                && targets.len() == ids.len(),
        },
{
    lemma_steps();
    let n = ids.len() as int;
    lemma_targets_len(told, n);
    let targets = sorted(targets_told(told, n), target_order());
    law_sorted_members(targets_told(told, n), target_order());
    assert(target_locks(viewer_sub, targets).len() >= targets.len());
}

/// Saving, editing, settling, and removing a bookmark change all or nothing.
pub proof fn law_saving_is_atomic(
    owner_sub: Seq<char>,
    post_id: Seq<char>,
    bookmark_id: Seq<char>,
    version: i64,
    note: Seq<char>,
    reminder: BookmarkReminderUpdate,
    next: Option<i64>,
    at: i64,
    told: Seq<ToldRow>,
)
    ensures
        all_or_nothing(saving(owner_sub, post_id, bookmark_id, at, told), told.len(), 0),
        all_or_nothing(
            bookmark_editing(
                owner_sub,
                post_id,
                bookmark_id,
                version,
                note,
                reminder,
                at,
                told,
            ),
            told.len(),
            0,
        ),
        all_or_nothing(
            settling(owner_sub, post_id, bookmark_id, version, next, at, told),
            told.len(),
            0,
        ),
        all_or_nothing(
            bookmark_removing(owner_sub, post_id, bookmark_id, version, told),
            told.len(),
            0,
        ),
{
    lemma_steps();
}

// ---------------------------------------------------------------------------
// An end.
// ---------------------------------------------------------------------------

/// The last attempt of a command does not start over.
pub proof fn law_last_attempt_ends(
    post: PostRow,
    mentioned: Seq<Seq<char>>,
    id: Seq<char>,
    category_id: Seq<char>,
    action: AcceptedAnswerAction,
    activity: Option<AnswerActivityRow>,
    level: ThreadFollowLevel,
    at: i64,
    told: Seq<ToldRow>,
)
    ensures
        ({
            let last = MAX_ATTEMPTS - 1;
            &&& !(replying(post, last, told) is Restart)
            &&& !(replying_with_activity(post, mentioned, id, last, told) is Restart)
            &&& !(thread_deletion(id, last, told) is Restart)
            &&& !(reply_deletion(id, last, told) is Restart)
            &&& !(moving(id, category_id, last, told) is Restart)
            &&& !(answering(id, action, activity, last, told) is Restart)
            &&& !(follow_change(id, category_id, level, at, last, told) is Restart)
        }),
{
}

/// A command asks a bounded number of questions.
pub proof fn law_commands_ask_boundedly(
    thread: ThreadRow,
    post: PostRow,
    mentioned: Seq<Seq<char>>,
    id: Seq<char>,
    category_id: Seq<char>,
    action: AcceptedAnswerAction,
    activity: Option<AnswerActivityRow>,
    level: ThreadFollowLevel,
    focus: CategoryFocusLevel,
    at: i64,
    attempt: int,
    told: Seq<ToldRow>,
)
    ensures
        opening(thread, post, told) is Fetch ==> told.len() < 2,
        opening_with_activity(thread, post, mentioned, id, told) is Fetch ==> told.len() < 2
            + MAX_MENTIONS_PER_POST,
        replying(post, attempt, told) is Fetch ==> told.len() < 5,
        replying_with_activity(post, mentioned, id, attempt, told) is Fetch ==> told.len() < 6
            + MAX_MENTIONS_PER_POST,
        thread_deletion(id, attempt, told) is Fetch ==> told.len() < 3,
        reply_deletion(id, attempt, told) is Fetch ==> told.len() < 6,
        moving(id, category_id, attempt, told) is Fetch ==> told.len() < 5,
        answering(id, action, activity, attempt, told) is Fetch ==> told.len() < 4,
        follow_change(id, category_id, level, at, attempt, told) is Fetch ==> told.len() < 5,
        focus_setting(id, category_id, focus, at, told) is Fetch ==> told.len() < 4,
        migration(told) is Fetch ==> told.len() < 12,
{
    if told.len() > 0 && text_at(told, 0) is Some {
        law_ordered_set(seq![text_at(told, 0)->0, category_id]);
    }
}

// ---------------------------------------------------------------------------
// Checked before it is written.
// ---------------------------------------------------------------------------

/// A reply is stored only in a thread that was locked in its category and found open, and a quoted
/// post only when it was found in the same thread.
pub proof fn law_reply_is_checked(post: PostRow, attempt: int, told: Seq<ToldRow>)
    requires
        replying(post, attempt, told) is Finish,
    ensures
        thread_at(told, 2) is Some,
        !thread_at(told, 2)->0.thread.locked,
        text_at(told, 0) == Some(thread_at(told, 2)->0.thread.category_id),
        text_at(told, 1) is Some,
        post.quoted_post_id.len() > 0 ==> post_at(told, 3) is Some && post_at(
            told,
            3,
        )->0.thread_id == post.thread_id,
{
}

/// A reply is deleted only when it was found in its locked thread and is not the original post.
pub proof fn law_deletion_is_checked(post_id: Seq<char>, attempt: int, told: Seq<ToldRow>)
    requires
        reply_deletion(post_id, attempt, told) is Finish,
        text_at(told, 0) is Some,
        post_at(told, 4) is Some,
    ensures
        thread_at(told, 3) is Some,
        text_at(told, 1) == Some(thread_at(told, 3)->0.thread.category_id),
        text_at(told, 0) == Some(post_at(told, 4)->0.thread_id),
        post_at(told, 4)->0.id != thread_at(told, 3)->0.first_post_id,
{
}

} // verus!
