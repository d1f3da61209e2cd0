//! Deleting, moving, and editing.

use vstd::prelude::*;

use crate::laws::order::law_ordered_set;
use crate::model::{Category, CategoryFormat, CategoryRow};
use crate::relational::command::{
    Ask, AskRow, OpenedThread, OpenedThreadRow, Shape, Step, StepRow, Told, ToldRow, at_most,
    begin, beginning, commit_of, committing, just, no_steps, number_at, over, perhaps, post_at,
    running, start_over, steps_of, text_at, thread_at, threads_at, told_number, told_post,
    told_text, told_thread, told_threads, without_steps,
};
use crate::relational::commands::opening::{ask_text, clock_at, lock_question, told_clock};
use crate::relational::commands::replying::{ask_post, ask_thread, post_question, thread_question};
use crate::relational::moderating::{
    FormatChange, LocatedPost, LocatedPostRow, PostRemoval, ThreadRemoval, accepted_pointer,
    accepted_to_lock, category_removal, change_to_discussion, decide_format_change,
    decide_move_target, decide_post_removal, decide_thread_removal, discussion_change,
    format_change, format_update, move_lock_order, move_target, move_thread, move_writes,
    original_is_kept, post_removal, post_removal_statements, post_removal_turn, remove_category,
    set_format, settle_thread, thread_removal, thread_removal_statements, thread_removal_turn,
    thread_settling,
};
use crate::relational::reads::create_category_statement;
use crate::relational::sql::{
    CATEGORY_OF_THREAD, COUNT_CATEGORIES, COUNT_THREADS, DELETE_MENTIONS, INSERT_CATEGORY,
    INSERT_MENTION, LOCK_CATEGORY, LOCK_CATEGORY_FORMAT, LOCK_POST_THREAD,
    LOCK_THREADS_OF_CATEGORY, LOCK_THREAD_CATEGORY, NEWEST_POST, RETITLE_THREAD, REWRITE_POST,
    THREAD_OF_POST,
};
use crate::relational::statement::{Statement, StatementRow, statement};
use crate::relational::writing::{Contended, mention_insertion};
use crate::rows::{append_rows, map_rows, views};
use crate::store::rules::nonblank;
use crate::store::types::{Failure, not_found};
use crate::text::{blank_text, is_blank, same};
use crate::texts::ordered_set;

verus! {

/// The open transaction is committed without a further statement.
pub open spec fn just_commit() -> Seq<StepRow> {
    seq![StepRow::Commit]
}

/// The open transaction is committed without a further statement.
pub(crate) fn only_commit() -> (out: Vec<Step>)
    ensures
        views(out@) == just_commit(),
{
    let mut out: Vec<Step> = Vec::new();
    out.push(Step::Commit);
    assert(views(out@) =~= just_commit());
    out
}

/// A transaction of the statements.
pub open spec fn transaction(s: Seq<StatementRow>) -> Seq<StepRow> {
    begin() + committing(s)
}

/// A transaction of the statements.
pub(crate) fn transaction_of(statements: Vec<Statement>) -> (out: Vec<Step>)
    ensures
        views(out@) == transaction(views(statements@)),
{
    let mut out = beginning();
    append_rows(&mut out, commit_of(statements));
    out
}

// ---------------------------------------------------------------------------
// Deleting a thread.
// ---------------------------------------------------------------------------

/// A thread is deleted with everything that belongs to it, once it is locked in the category that
/// was read before. A thread that is gone is no failure.
pub open spec fn thread_deletion(thread_id: Seq<char>, attempt: int, told: Seq<ToldRow>) -> AskRow<()> {
    if told.len() == 0 {
        lock_question(no_steps(), CATEGORY_OF_THREAD@, thread_id)
    } else {
        match text_at(told, 0) {
            None => AskRow::Finish(no_steps(), ()),
            Some(hint) => if told.len() == 1 {
                lock_question(begin(), LOCK_CATEGORY@, hint)
            } else if told.len() == 2 {
                lock_question(no_steps(), LOCK_THREAD_CATEGORY@, thread_id)
            } else {
                match thread_removal_turn(hint, text_at(told, 2)) {
                    ThreadRemoval::Gone => AskRow::Finish(just_commit(), ()),
                    ThreadRemoval::Retry => over(attempt, Contended::ThreadDelete),
                    ThreadRemoval::Remove => AskRow::Finish(
                        committing(thread_removal(thread_id)),
                        (),
                    ),
                }
            },
        }
    }
}

/// The next step of deleting a thread.
pub fn delete_thread(thread_id: &str, attempt: usize, told: &Vec<Told>) -> (r: Ask<()>)
    ensures
        r@ == thread_deletion(thread_id@, attempt as int, views(told@)),
{
    if told.len() == 0 {
        return ask_text(without_steps(), CATEGORY_OF_THREAD, thread_id);
    }
    let hint = match told_text(told, 0) {
        None => {
            return Ask::Finish(without_steps(), ());
        },
        Some(hint) => hint,
    };
    if told.len() == 1 {
        return ask_text(beginning(), LOCK_CATEGORY, hint.as_str());
    }
    if told.len() == 2 {
        return ask_text(without_steps(), LOCK_THREAD_CATEGORY, thread_id);
    }
    let current = told_text(told, 2);
    let current = match &current {
        Some(category_id) => Some(category_id.as_str()),
        None => None,
    };
    match decide_thread_removal(hint.as_str(), current) {
        ThreadRemoval::Gone => Ask::Finish(only_commit(), ()),
        ThreadRemoval::Retry => start_over(attempt, Contended::ThreadDelete),
        ThreadRemoval::Remove => Ask::Finish(
            commit_of(thread_removal_statements(thread_id)),
            (),
        ),
    }
}

// ---------------------------------------------------------------------------
// Deleting a post.
// ---------------------------------------------------------------------------

/// A reply is deleted with everything that belongs to it, once its category, its thread, and the
/// post itself are locked as they were read before; then its thread is settled. A post that is
/// gone is no failure, and the original post is kept.
pub open spec fn reply_deletion(post_id: Seq<char>, attempt: int, told: Seq<ToldRow>) -> AskRow<()> {
    if told.len() == 0 {
        lock_question(no_steps(), THREAD_OF_POST@, post_id)
    } else {
        match text_at(told, 0) {
            None => AskRow::Finish(no_steps(), ()),
            Some(thread_hint) => if told.len() == 1 {
                lock_question(no_steps(), CATEGORY_OF_THREAD@, thread_hint)
            } else {
                match text_at(told, 1) {
                    None => AskRow::Fail(Failure::NotFound("thread not found"@)),
                    Some(category_hint) => if told.len() == 2 {
                        lock_question(begin(), LOCK_CATEGORY@, category_hint)
                    } else if told.len() == 3 {
                        thread_question(thread_hint)
                    } else {
                        match thread_at(told, 3) {
                            None => AskRow::Fail(Failure::NotFound("thread not found"@)),
                            Some(t) => locked_deletion(
                                post_id,
                                category_hint,
                                thread_hint,
                                t,
                                attempt,
                                told,
                            ),
                        }
                    },
                }
            },
        }
    }
}

/// The deletion of a reply whose thread is locked.
pub open spec fn locked_deletion(
    post_id: Seq<char>,
    category_hint: Seq<char>,
    thread_hint: Seq<char>,
    t: OpenedThreadRow,
    attempt: int,
    told: Seq<ToldRow>,
) -> AskRow<()> {
    if t.thread.category_id != category_hint {
        over(attempt, Contended::PostDelete)
    } else if told.len() == 4 {
        post_question(post_id)
    } else {
        match post_removal_turn(
            category_hint,
            thread_hint,
            t.thread,
            t.first_post_id,
            post_at(told, 4),
        ) {
            PostRemoval::Gone => AskRow::Finish(just_commit(), ()),
            PostRemoval::Retry => over(attempt, Contended::PostDelete),
            PostRemoval::Original => AskRow::Fail(
                Failure::InvalidOperation(
                    "the original post cannot be deleted separately; delete the thread"@,
                ),
            ),
            PostRemoval::Remove => if told.len() == 5 {
                AskRow::Fetch(
                    running(post_removal(post_id)),
                    Shape::Number,
                    statement(NEWEST_POST@).text(thread_hint),
                )
            } else {
                match thread_settling(t.thread, t.first_post_id, post_id, number_at(told, 5)) {
                    Err(e) => AskRow::Fail(e),
                    Ok(s) => AskRow::Finish(committing(seq![s]), ()),
                }
            },
        }
    }
}

/// The next step of deleting a reply.
pub fn delete_post(post_id: &str, attempt: usize, told: &Vec<Told>) -> (r: Ask<()>)
    ensures
        r@ == reply_deletion(post_id@, attempt as int, views(told@)),
{
    if told.len() == 0 {
        return ask_text(without_steps(), THREAD_OF_POST, post_id);
    }
    let thread_hint = match told_text(told, 0) {
        None => {
            return Ask::Finish(without_steps(), ());
        },
        Some(hint) => hint,
    };
    if told.len() == 1 {
        return ask_text(without_steps(), CATEGORY_OF_THREAD, thread_hint.as_str());
    }
    let category_hint = match told_text(told, 1) {
        None => {
            return Ask::Fail(not_found("thread not found"));
        },
        Some(hint) => hint,
    };
    if told.len() == 2 {
        return ask_text(beginning(), LOCK_CATEGORY, category_hint.as_str());
    }
    if told.len() == 3 {
        return ask_thread(thread_hint.as_str());
    }
    match told_thread(told, 3) {
        None => Ask::Fail(not_found("thread not found")),
        Some(t) => delete_locked(
            post_id,
            category_hint.as_str(),
            thread_hint.as_str(),
            &t,
            attempt,
            told,
        ),
    }
}

fn delete_locked(
    post_id: &str,
    category_hint: &str,
    thread_hint: &str,
    t: &OpenedThread,
    attempt: usize,
    told: &Vec<Told>,
) -> (r: Ask<()>)
    ensures
        r@ == locked_deletion(
            post_id@,
            category_hint@,
            thread_hint@,
            t@,
            attempt as int,
            views(told@),
        ),
{
    if !same(t.thread.category_id.as_str(), category_hint) {
        return start_over(attempt, Contended::PostDelete);
    }
    if told.len() == 4 {
        return ask_post(post_id);
    }
    let post = told_post(told, 4);
    match decide_post_removal(
        category_hint,
        thread_hint,
        &t.thread,
        t.first_post_id.as_str(),
        post.as_ref(),
    ) {
        PostRemoval::Gone => Ask::Finish(only_commit(), ()),
        PostRemoval::Retry => start_over(attempt, Contended::PostDelete),
        PostRemoval::Original => Ask::Fail(original_is_kept()),
        PostRemoval::Remove => {
            if told.len() == 5 {
                return Ask::Fetch(
                    steps_of(post_removal_statements(post_id)),
                    Shape::Number,
                    Statement::new(NEWEST_POST).text(thread_hint),
                );
            }
            match settle_thread(
                &t.thread,
                t.first_post_id.as_str(),
                post_id,
                told_number(told, 5),
            ) {
                Err(e) => Ask::Fail(e),
                Ok(s) => Ask::Finish(commit_of(just(s)), ()),
            }
        },
    }
}

// ---------------------------------------------------------------------------
// Moving a thread.
// ---------------------------------------------------------------------------

/// The format that was told for a category, among the ones that were locked in order.
pub open spec fn format_at(locked: Seq<Seq<char>>, id: Seq<char>, told: Seq<ToldRow>) -> Option<
    Seq<char>,
> {
    text_at(
        told,
        if locked[0] == id {
            1
        } else {
            2
        },
    )
}

/// A thread moves: the category it was read in and the one it moves to are locked in ascending
/// order, then the thread, then its accepted post.
pub open spec fn moving(
    thread_id: Seq<char>,
    category_id: Seq<char>,
    attempt: int,
    told: Seq<ToldRow>,
) -> AskRow<()> {
    if told.len() == 0 {
        lock_question(no_steps(), CATEGORY_OF_THREAD@, thread_id)
    } else {
        match text_at(told, 0) {
            None => AskRow::Fail(Failure::NotFound("thread not found"@)),
            Some(hint) => {
                let locked = ordered_set(seq![hint, category_id]);
                let n = locked.len() as int;
                if told.len() < 1 + n {
                    lock_question(
                        if told.len() == 1 {
                            begin()
                        } else {
                            no_steps()
                        },
                        LOCK_CATEGORY_FORMAT@,
                        locked[told.len() - 1],
                    )
                } else {
                    match move_target(
                        format_at(locked, hint, told),
                        format_at(locked, category_id, told),
                    ) {
                        Err(e) => AskRow::Fail(e),
                        Ok(format) => if told.len() == 1 + n {
                            thread_question(thread_id)
                        } else {
                            match thread_at(told, 1 + n) {
                                None => AskRow::Fail(Failure::NotFound("thread not found"@)),
                                Some(t) => moving_locked(
                                    t,
                                    hint,
                                    category_id,
                                    format,
                                    attempt,
                                    told,
                                    2 + n,
                                ),
                            }
                        },
                    }
                }
            },
        }
    }
}

/// The move of a locked thread; the answers from `at` on are not used yet.
pub open spec fn moving_locked(
    t: OpenedThreadRow,
    hint: Seq<char>,
    category_id: Seq<char>,
    format: CategoryFormat,
    attempt: int,
    told: Seq<ToldRow>,
    at: int,
) -> AskRow<()> {
    if t.thread.category_id != hint {
        over(attempt, Contended::Move)
    } else if !blank_text(t.thread.accepted_post_id) && told.len() == at {
        lock_question(no_steps(), LOCK_POST_THREAD@, t.thread.accepted_post_id)
    } else {
        let accepted_in = if blank_text(t.thread.accepted_post_id) {
            None
        } else {
            text_at(told, at)
        };
        match move_writes(t.thread, t.first_post_id, accepted_in, category_id, format) {
            Err(e) => AskRow::Fail(e),
            Ok(s) => AskRow::Finish(committing(seq![s]), ()),
        }
    }
}

/// The next step of moving a thread to a category.
pub fn move_thread_to_category(
    thread_id: &str,
    category_id: &str,
    attempt: usize,
    told: &Vec<Told>,
) -> (r: Ask<()>)
    ensures
        r@ == moving(thread_id@, category_id@, attempt as int, views(told@)),
{
    if told.len() == 0 {
        return ask_text(without_steps(), CATEGORY_OF_THREAD, thread_id);
    }
    let hint = match told_text(told, 0) {
        None => {
            return Ask::Fail(not_found("thread not found"));
        },
        Some(hint) => hint,
    };
    let locked = move_lock_order(hint.as_str(), category_id);
    let n: usize = locked.len();
    assert(views(locked@).len() == n);
    proof {
        law_ordered_set(seq![hint@, category_id@]);
        assert(seq![hint@, category_id@].contains(hint@)) by {
            assert(seq![hint@, category_id@][0] == hint@);
        }
        assert(views(locked@).contains(hint@));
    }
    if told.len() < 1 + n {
        let steps = if told.len() == 1 {
            beginning()
        } else {
            without_steps()
        };
        return ask_text(steps, LOCK_CATEGORY_FORMAT, locked[told.len() - 1].as_str());
    }
    let source = told_text(
        told,
        if same(locked[0].as_str(), hint.as_str()) {
            1
        } else {
            2
        },
    );
    let target = told_text(
        told,
        if same(locked[0].as_str(), category_id) {
            1
        } else {
            2
        },
    );
    let source = match &source {
        Some(name) => Some(name.as_str()),
        None => None,
    };
    let target = match &target {
        Some(name) => Some(name.as_str()),
        None => None,
    };
    let format = match decide_move_target(source, target) {
        Err(e) => {
            return Ask::Fail(e);
        },
        Ok(format) => format,
    };
    if told.len() == 1 + n {
        return ask_thread(thread_id);
    }
    match told_thread(told, 1 + n) {
        None => Ask::Fail(not_found("thread not found")),
        Some(t) => move_locked(&t, hint.as_str(), category_id, format, attempt, told, 2 + n),
    }
}

fn move_locked(
    t: &OpenedThread,
    hint: &str,
    category_id: &str,
    format: CategoryFormat,
    attempt: usize,
    told: &Vec<Told>,
    at: usize,
) -> (r: Ask<()>)
    ensures
        r@ == moving_locked(
            t@,
            hint@,
            category_id@,
            format,
            attempt as int,
            views(told@),
            at as int,
        ),
{
    if !same(t.thread.category_id.as_str(), hint) {
        return start_over(attempt, Contended::Move);
    }
    let blank = is_blank(t.thread.accepted_post_id.as_str());
    if !blank && told.len() == at {
        return ask_text(without_steps(), LOCK_POST_THREAD, t.thread.accepted_post_id.as_str());
    }
    let accepted_in = if blank {
        None
    } else {
        told_text(told, at)
    };
    let accepted_in = match &accepted_in {
        Some(id) => Some(id.as_str()),
        None => None,
    };
    match move_thread(
        &t.thread,
        t.first_post_id.as_str(),
        accepted_in,
        category_id,
        format,
    ) {
        Err(e) => Ask::Fail(e),
        Ok(s) => Ask::Finish(commit_of(just(s)), ()),
    }
}

// ---------------------------------------------------------------------------
// Categories.
// ---------------------------------------------------------------------------

/// Where the accepted posts live, as it was told from `at` on; a post that is gone lives nowhere.
pub open spec fn located_at(told: Seq<ToldRow>, at: int, ids: Seq<Seq<char>>) -> Seq<LocatedPostRow>
    decreases ids.len(),
{
    if ids.len() == 0 {
        Seq::empty()
    } else {
        let rest = located_at(told, at, ids.drop_last());
        match text_at(told, at + ids.len() - 1) {
            Some(thread_id) => rest.push(LocatedPostRow { post_id: ids.last(), thread_id }),
            None => rest,
        }
    }
}

/// A category changes its format. Before it becomes a discussion, its threads and their accepted
/// posts are locked and examined.
pub open spec fn transition(id: Seq<char>, format: CategoryFormat, told: Seq<ToldRow>) -> AskRow<()> {
    if told.len() == 0 {
        lock_question(begin(), LOCK_CATEGORY_FORMAT@, id)
    } else {
        match format_change(text_at(told, 0), format) {
            Err(e) => AskRow::Fail(e),
            Ok(FormatChange::Unchanged) => AskRow::Finish(just_commit(), ()),
            Ok(FormatChange::Store) => AskRow::Finish(
                committing(seq![format_update(id, format)]),
                (),
            ),
            Ok(FormatChange::Examine) => if told.len() == 1 {
                AskRow::Fetch(
                    no_steps(),
                    Shape::Threads,
                    statement(LOCK_THREADS_OF_CATEGORY@).text(id),
                )
            } else {
                let threads = threads_at(told, 1);
                let accepted = ordered_set(nonblank(threads.map_values(accepted_pointer())));
                if told.len() < 2 + accepted.len() {
                    lock_question(no_steps(), LOCK_POST_THREAD@, accepted[told.len() - 2])
                } else {
                    match discussion_change(id, threads, located_at(told, 2, accepted)) {
                        Err(e) => AskRow::Fail(e),
                        Ok(s) => AskRow::Finish(committing(seq![s]), ()),
                    }
                }
            },
        }
    }
}

/// The next step of changing the format of a category.
pub fn transition_category_format(id: &str, format: CategoryFormat, told: &Vec<Told>) -> (r: Ask<()>)
    ensures
        r@ == transition(id@, format, views(told@)),
{
    if told.len() == 0 {
        return ask_text(beginning(), LOCK_CATEGORY_FORMAT, id);
    }
    let current = told_text(told, 0);
    let current = match &current {
        Some(name) => Some(name.as_str()),
        None => None,
    };
    match decide_format_change(current, format) {
        Err(e) => Ask::Fail(e),
        Ok(FormatChange::Unchanged) => Ask::Finish(only_commit(), ()),
        Ok(FormatChange::Store) => Ask::Finish(commit_of(just(set_format(id, format))), ()),
        Ok(FormatChange::Examine) => {
            if told.len() == 1 {
                return Ask::Fetch(
                    without_steps(),
                    Shape::Threads,
                    Statement::new(LOCK_THREADS_OF_CATEGORY).text(id),
                );
            }
            let threads = told_threads(told, 1);
            let accepted = accepted_to_lock(&threads);
            if told.len() - 2 < accepted.len() {
                return ask_text(
                    without_steps(),
                    LOCK_POST_THREAD,
                    accepted[told.len() - 2].as_str(),
                );
            }
            let located = told_locations(told, 2, &accepted);
            match change_to_discussion(id, &threads, &located) {
                Err(e) => Ask::Fail(e),
                Ok(s) => Ask::Finish(commit_of(just(s)), ()),
            }
        },
    }
}

fn told_locations(told: &Vec<Told>, at: usize, ids: &Vec<String>) -> (out: Vec<LocatedPost>)
    requires
        at + ids@.len() <= told@.len(),
    ensures
        views(out@) == located_at(views(told@), at as int, views(ids@)),
{
    let ghost all = views(ids@);
    let total: usize = told.len();
    let mut out: Vec<LocatedPost> = Vec::new();
    assert(views(out@) =~= located_at(views(told@), at as int, all.take(0)));
    let mut k: usize = 0;
    while k < ids.len()
        invariant
            0 <= k <= ids@.len(),
            at + ids@.len() <= told@.len() == total,
            all == views(ids@),
            views(out@) == located_at(views(told@), at as int, all.take(k as int)),
        decreases ids@.len() - k,
    {
        assert(all.take(k + 1).drop_last() =~= all.take(k as int));
        let ghost before = out@;
        if let Some(thread_id) = told_text(told, at + k) {
            out.push(LocatedPost { post_id: ids[k].clone(), thread_id });
            assert(views(out@) =~= views(before).push(
                LocatedPostRow { post_id: all[k as int], thread_id: thread_id@ },
            ));
        }
        k = k + 1;
    }
    assert(all.take(all.len() as int) =~= all);
    out
}

/// A category is deleted, once it is locked and has no threads. A category that is gone is no
/// failure.
pub open spec fn category_removing(id: Seq<char>, told: Seq<ToldRow>) -> AskRow<()> {
    if told.len() == 0 {
        lock_question(begin(), LOCK_CATEGORY@, id)
    } else if text_at(told, 0) is Some && told.len() == 1 {
        AskRow::Fetch(no_steps(), Shape::Number, statement(COUNT_THREADS@).text(id))
    } else {
        match category_removal(id, text_at(told, 0) is Some, clock_at(told, 1) as int) {
            Err(e) => AskRow::Fail(e),
            Ok(s) => AskRow::Finish(committing(at_most(s)), ()),
        }
    }
}

/// The next step of deleting a category.
pub fn delete_category(id: &str, told: &Vec<Told>) -> (r: Ask<()>)
    ensures
        r@ == category_removing(id@, views(told@)),
{
    if told.len() == 0 {
        return ask_text(beginning(), LOCK_CATEGORY, id);
    }
    let found = told_text(told, 0).is_some();
    if found && told.len() == 1 {
        return Ask::Fetch(
            without_steps(),
            Shape::Number,
            Statement::new(COUNT_THREADS).text(id),
        );
    }
    match remove_category(id, found, told_clock(told, 1)) {
        Err(e) => Ask::Fail(e),
        Ok(s) => Ask::Finish(commit_of(perhaps(s)), ()),
    }
}

/// Stores a category.
pub open spec fn category_insertion() -> spec_fn(CategoryRow) -> StatementRow {
    |c: CategoryRow|
        statement(INSERT_CATEGORY@).text(c.id).text(c.name).number(c.sort_order).text(
            c.format.text(),
        )
}

/// The categories are seeded when there are none.
pub open spec fn seeding(defaults: Seq<CategoryRow>, told: Seq<ToldRow>) -> AskRow<()> {
    if told.len() == 0 {
        AskRow::Fetch(no_steps(), Shape::Number, statement(COUNT_CATEGORIES@))
    } else if clock_at(told, 0) > 0 {
        AskRow::Finish(no_steps(), ())
    } else {
        AskRow::Finish(running(defaults.map_values(category_insertion())), ())
    }
}

/// The next step of seeding the categories.
pub fn seed_categories_if_empty(defaults: &Vec<Category>, told: &Vec<Told>) -> (r: Ask<()>)
    ensures
        r@ == seeding(views(defaults@), views(told@)),
{
    if told.len() == 0 {
        return Ask::Fetch(without_steps(), Shape::Number, Statement::new(COUNT_CATEGORIES));
    }
    if told_clock(told, 0) > 0 {
        return Ask::Finish(without_steps(), ());
    }
    let f = |c: &Category| -> (s: Statement)
        ensures
            s@ == category_insertion()(c@),
        { create_category_statement(c) };
    Ask::Finish(steps_of(map_rows(defaults, f, Ghost(category_insertion()))), ())
}

// ---------------------------------------------------------------------------
// Edits.
// ---------------------------------------------------------------------------

/// What is stored when a thread's title and its original post are edited together.
pub open spec fn thread_edit(
    thread_id: Seq<char>,
    title: Seq<char>,
    op_post_id: Seq<char>,
    body_md: Seq<char>,
) -> Seq<StepRow> {
    transaction(
        seq![
            statement(RETITLE_THREAD@).text(title).text(body_md).text(thread_id),
            statement(REWRITE_POST@).text(body_md).text(op_post_id),
        ],
    )
}

/// The steps of editing a thread's title and its original post.
pub fn update_thread(thread_id: &str, title: &str, op_post_id: &str, body_md: &str) -> (out: Vec<Step>)
    ensures
        views(out@) == thread_edit(thread_id@, title@, op_post_id@, body_md@),
{
    let mut writes: Vec<Statement> = Vec::new();
    writes.push(Statement::new(RETITLE_THREAD).text(title).text(body_md).text(thread_id));
    writes.push(Statement::new(REWRITE_POST).text(body_md).text(op_post_id));
    assert(views(writes@) =~= seq![
        statement(RETITLE_THREAD@).text(title@).text(body_md@).text(thread_id@),
        statement(REWRITE_POST@).text(body_md@).text(op_post_id@),
    ]);
    transaction_of(writes)
}

/// What is stored when the mentions of a post are replaced by the given names.
pub open spec fn mention_replacement(
    post_id: Seq<char>,
    thread_id: Seq<char>,
    names: Seq<Seq<char>>,
    created_at: i64,
) -> Seq<StepRow> {
    transaction(
        seq![statement(DELETE_MENTIONS@).text(post_id)] + names.map_values(
            mention_insertion(post_id, thread_id, created_at),
        ),
    )
}

/// The steps of replacing the mentions of a post.
pub fn replace_mentions(
    post_id: &str,
    thread_id: &str,
    mentioned_usernames: &Vec<String>,
    created_at: i64,
) -> (out: Vec<Step>)
    ensures
        views(out@) == mention_replacement(
            post_id@,
            thread_id@,
            views(mentioned_usernames@),
            created_at,
        ),
{
    let f = |name: &String| -> (s: Statement)
        ensures
            s@ == mention_insertion(post_id@, thread_id@, created_at)(name@),
        {
            Statement::new(INSERT_MENTION).text(post_id).text(thread_id).text(name.as_str()).number(
                created_at,
            )
        };
    let mut writes = just(Statement::new(DELETE_MENTIONS).text(post_id));
    append_rows(
        &mut writes,
        map_rows(
            mentioned_usernames,
            f,
            Ghost(mention_insertion(post_id@, thread_id@, created_at)),
        ),
    );
    transaction_of(writes)
}

} // verus!
